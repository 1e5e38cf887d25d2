use window_class_finder::clipboard::ClipboardHelper;
use window_class_finder::windows_api::WindowsApi;
use window_class_finder::window_info::WindowInfo;

#[test]
fn copy_handle_matches_hex_format() {
    for h in [0isize, 1, 0x1234, 0xABCDEF, 0x12345678, 0x7FFF_FFFF, -1, -4096, isize::MAX, isize::MIN] {
        assert_eq!(ClipboardHelper::copy_handle(h), format!("0x{:08X}", h));
    }
    assert_eq!(ClipboardHelper::copy_handle(0x1A2B), "0x00001A2B");
}

#[test]
fn copy_full_info_lists_fields() {
    let text = ClipboardHelper::copy_full_info(0x10, "标题", "Cls", 42, "a.exe");
    assert_eq!(text, "Handle: 0x00000010\nTitle: 标题\nClass: Cls\nPID: 42\nProcess: a.exe");
    let h: isize = -7;
    assert_eq!(
        ClipboardHelper::copy_full_info(h, "", "", 4294967295, ""),
        format!("Handle: 0x{:08X}\nTitle: \nClass: \nPID: 4294967295\nProcess: ", h)
    );
}

#[test]
fn process_name_is_last_path_component() {
    assert_eq!(WindowsApi::get_process_name(Some("\\Device\\HarddiskVolume3\\Windows\\notepad.exe")), "notepad.exe");
    assert_eq!(WindowsApi::get_process_name(Some("plain.exe")), "plain.exe");
    assert_eq!(WindowsApi::get_process_name(Some("dir\\")), "");
    assert_eq!(WindowsApi::get_process_name(Some("\\中文\\程序.exe")), "程序.exe");
    assert_eq!(WindowsApi::get_process_name(None), "<无法访问>");
}

#[test]
fn create_window_info_derives_process_name() {
    let w = WindowsApi::create_window_info(77, "T".to_string(), "C".to_string(), 9, Some("\\x\\y.exe"));
    assert_eq!(w.hwnd, 77);
    assert_eq!(w.title, "T");
    assert_eq!(w.class_name, "C");
    assert_eq!(w.pid, 9);
    assert_eq!(w.process_name, "y.exe");
    assert!(!w.children_loaded);
    assert!(w.children.is_empty());
    let d = WindowsApi::create_window_info(1, String::new(), String::new(), 0, None);
    assert_eq!(d.process_name, "<无法访问>");
}

#[test]
fn windows_api_load_children_once() {
    let mut w = WindowInfo::new(1, "a".to_string(), "b".to_string(), 2, "c".to_string());
    WindowsApi::load_children(&mut w, vec![WindowInfo::new(3, "d".to_string(), "e".to_string(), 2, "c".to_string())]);
    WindowsApi::load_children(&mut w, vec![]);
    assert!(w.children_loaded);
    assert_eq!(w.children.len(), 1);
}

#[test]
fn search_text_is_lowercased_fields() {
    let w = WindowInfo::new(1, "Hello World".to_string(), "EditCLASS".to_string(), 4321, "NotePad.EXE".to_string());
    assert_eq!(w.search_text(), "hello world notepad.exe 4321 editclass");
}

#[test]
fn duplicate_copies_the_tree() {
    let mut w = WindowInfo::new(1, "a".to_string(), "b".to_string(), 2, "c".to_string());
    w.children = vec![WindowInfo::new(3, "d".to_string(), "e".to_string(), 4, "f".to_string())];
    w.children_loaded = true;
    let d = w.duplicate();
    assert_eq!(d.hwnd, 1);
    assert_eq!(d.children.len(), 1);
    assert_eq!(d.children[0].title, "d");
    assert!(d.children_loaded);
}
