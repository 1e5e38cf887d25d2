use window_class_finder::hotkey::{
    hotkey_setup_outcome, is_hotkey_message, key_code_of_upper_text, parse_hotkey, vk_to_string,
};

#[test]
fn parse_function_keys() {
    assert_eq!(parse_hotkey("F1"), Some(0x70));
    assert_eq!(parse_hotkey("f8"), Some(0x77));
    assert_eq!(parse_hotkey("F12"), Some(0x7B));
    assert_eq!(parse_hotkey("F13"), None);
    assert_eq!(parse_hotkey("F0"), None);
    assert_eq!(parse_hotkey("F+5"), None);
    assert_eq!(parse_hotkey("F+8"), None);
    assert_eq!(parse_hotkey("F-5"), None);
    assert_eq!(parse_hotkey("F01"), None);
    assert_eq!(parse_hotkey("F08"), None);
    assert_eq!(parse_hotkey("F10"), Some(0x79));
    assert_eq!(parse_hotkey("f11"), Some(0x7A));
    assert_eq!(parse_hotkey("Fx"), None);
    assert_eq!(parse_hotkey("F99999999999"), None);
}

#[test]
fn parse_letters() {
    assert_eq!(parse_hotkey("A"), Some(0x41));
    assert_eq!(parse_hotkey("z"), Some(0x5A));
    assert_eq!(parse_hotkey("F"), Some(0x46));
    assert_eq!(parse_hotkey("abc"), None);
    assert_eq!(parse_hotkey(""), None);
    assert_eq!(parse_hotkey("1"), None);
    assert_eq!(parse_hotkey("é"), None);
}

#[test]
fn key_names() {
    assert_eq!(vk_to_string(0x70), "F1");
    assert_eq!(vk_to_string(0x79), "F10");
    assert_eq!(vk_to_string(0x7B), "F12");
    assert_eq!(vk_to_string(0x41), "A");
    assert_eq!(vk_to_string(0x5A), "Z");
    assert_eq!(vk_to_string(0x20), "F8");
    assert_eq!(vk_to_string(0), "F8");
}

#[test]
fn names_round_trip() {
    for vk in (0x70u32..=0x7B).chain(0x41..=0x5A) {
        assert_eq!(parse_hotkey(&vk_to_string(vk)), Some(vk));
        assert_eq!(parse_hotkey(&vk_to_string(vk).to_lowercase()), Some(vk));
    }
}

#[test]
fn setup_outcome() {
    assert_eq!(hotkey_setup_outcome(true), ("F8".to_string(), 0x77));
    assert_eq!(hotkey_setup_outcome(false), ("F8(失败)".to_string(), 0));
}

#[test]
fn hotkey_message_recognised() {
    assert!(is_hotkey_message(0x0312, 1));
    assert!(!is_hotkey_message(0x0312, 2));
    assert!(!is_hotkey_message(0x0100, 1));
    assert!(!is_hotkey_message(0x0312, 0));
    if usize::BITS == 64 {
        assert!(!is_hotkey_message(0x0312, (u32::MAX as usize) + 2));
    }
}

#[test]
fn upper_case_names_map_exactly() {
    assert_eq!(key_code_of_upper_text("F1"), Some(0x70));
    assert_eq!(key_code_of_upper_text("F12"), Some(0x7B));
    assert_eq!(key_code_of_upper_text("F9"), Some(0x78));
    assert_eq!(key_code_of_upper_text("Q"), Some(0x51));
    assert_eq!(key_code_of_upper_text("f1"), None);
    assert_eq!(key_code_of_upper_text("q"), None);
    assert_eq!(key_code_of_upper_text("F13"), None);
    assert_eq!(key_code_of_upper_text("F012"), None);
    assert_eq!(key_code_of_upper_text("F1 "), None);
    assert_eq!(key_code_of_upper_text(""), None);
}
