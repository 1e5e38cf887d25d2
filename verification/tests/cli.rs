use window_class_finder::cli::{escape_json, find_window_by_class, format_json, parse_class_arg, query_output};
use window_class_finder::ui::tree_helper::TreeHelper;
use window_class_finder::window_info::WindowInfo;

fn args(a: &[&str]) -> Vec<String> {
    a.iter().map(|s| s.to_string()).collect()
}

#[test]
fn class_arg_forms() {
    assert_eq!(parse_class_arg(&args(&["prog", "--class=Notepad"])), Some("Notepad".to_string()));
    assert_eq!(parse_class_arg(&args(&["prog", "--class", "Edit"])), Some("Edit".to_string()));
    assert_eq!(parse_class_arg(&args(&["app.exe", "--class=a=b"])), Some("a=b".to_string()));
    assert_eq!(parse_class_arg(&args(&["prog", "--class="])), None);
    assert_eq!(parse_class_arg(&args(&["prog", "--class"])), None);
    assert_eq!(parse_class_arg(&args(&["prog", "--class", ""])), None);
    assert_eq!(parse_class_arg(&args(&["prog"])), None);
    assert_eq!(parse_class_arg(&args(&[])), None);
    assert_eq!(parse_class_arg(&args(&["--class=Skipped"])), None);
    assert_eq!(parse_class_arg(&args(&["prog", "--class=", "--class", "X"])), Some("X".to_string()));
    assert_eq!(parse_class_arg(&args(&["prog", "--classes", "X"])), None);
    assert_eq!(parse_class_arg(&args(&["prog", "x", "--class=中文"])), Some("中文".to_string()));
}

#[test]
fn escape_json_escapes_specials() {
    assert_eq!(escape_json("a\"b\\c\nd\re\tf"), "a\\\"b\\\\c\\nd\\re\\tf");
    assert_eq!(escape_json("plain 中文"), "plain 中文");
    assert_eq!(escape_json(""), "");
}

#[test]
fn format_json_is_exact() {
    let w = WindowInfo::new(-12345, "无标题 - 记事本".to_string(), "Notepad".to_string(), 1234, "notepad.exe".to_string());
    assert_eq!(
        format_json(&w),
        "{\"hwnd\": -12345, \"title\": \"无标题 - 记事本\", \"class_name\": \"Notepad\", \"pid\": 1234, \"process_name\": \"notepad.exe\"}"
    );
    let q = WindowInfo::new(isize::MIN, "say \"hi\"".to_string(), "C\\D".to_string(), 0, String::new());
    assert_eq!(
        format_json(&q),
        format!("{{\"hwnd\": {}, \"title\": \"say \\\"hi\\\"\", \"class_name\": \"C\\\\D\", \"pid\": 0, \"process_name\": \"\"}}", isize::MIN)
    );
}

#[test]
fn class_lookup_and_answer() {
    let mut top = WindowInfo::new(1, "Top".to_string(), "Main".to_string(), 5, "a.exe".to_string());
    TreeHelper::load_children(&mut top, vec![WindowInfo::new(2, "Child".to_string(), "Edit".to_string(), 5, "a.exe".to_string())]);
    let windows = vec![top, WindowInfo::new(3, "Other".to_string(), "Edit".to_string(), 6, "b.exe".to_string())];
    let found = find_window_by_class(&windows, "Edit").unwrap();
    assert_eq!(found.hwnd, 2);
    assert!(find_window_by_class(&windows, "edit").is_none());
    assert_eq!(
        query_output(&windows, "Main"),
        "{\"hwnd\": 1, \"title\": \"Top\", \"class_name\": \"Main\", \"pid\": 5, \"process_name\": \"a.exe\"}"
    );
    assert_eq!(query_output(&windows, "Missing"), "null");
}

/// Reads a JSON string body back, for the escapes that `escape_json` writes.
fn unescape(s: &str) -> String {
    let mut out = String::new();
    let mut chars = s.chars();
    while let Some(c) = chars.next() {
        if c == '\\' {
            match chars.next() {
                Some('n') => out.push('\n'),
                Some('r') => out.push('\r'),
                Some('t') => out.push('\t'),
                Some(other) => out.push(other),
                None => out.push('\\'),
            }
        } else {
            out.push(c);
        }
    }
    out
}

#[test]
fn escaped_text_reads_back() {
    for s in ["", "plain", "quote \" and backslash \\", "\\n is not a newline\n", "tab\tcr\r", "中文\"\\"] {
        let e = escape_json(s);
        assert_eq!(unescape(&e), s);
        assert!(!e.contains('\n') && !e.contains('\r') && !e.contains('\t'));
    }
}
