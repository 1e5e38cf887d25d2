use window_class_finder::finder::MyApp;
use window_class_finder::ui::app_state::{windows_matching_needle, AppState};
use window_class_finder::ui::locate_mode::LocateMode;
use window_class_finder::window_info::WindowInfo;

fn w(hwnd: isize, title: &str, class: &str, pid: u32, process: &str) -> WindowInfo {
    WindowInfo::new(hwnd, title.to_string(), class.to_string(), pid, process.to_string())
}

fn listing() -> Vec<WindowInfo> {
    vec![
        w(1, "Untitled - Notepad", "Notepad", 1234, "notepad.exe"),
        w(2, "Google Chrome", "Chrome_WidgetWin_1", 5678, "chrome.exe"),
        w(3, "", "Shell_TrayWnd", 42, "explorer.exe"),
    ]
}

fn hwnds(ws: &[WindowInfo]) -> Vec<isize> {
    ws.iter().map(|x| x.hwnd).collect()
}

#[test]
fn app_state_filters_case_insensitively() {
    let mut s = AppState::new(listing());
    assert_eq!(hwnds(&s.filtered_windows), vec![1, 2, 3]);
    assert!(!s.tree_mode);
    s.search_text = "NOTE".to_string();
    s.apply_filter();
    assert_eq!(hwnds(&s.filtered_windows), vec![1]);
    s.search_text = "e".to_string();
    s.apply_filter();
    assert_eq!(hwnds(&s.filtered_windows), vec![1, 2, 3]);
    s.search_text = "5678".to_string();
    s.apply_filter();
    assert_eq!(hwnds(&s.filtered_windows), vec![2]);
    s.search_text = "chrome_widgetwin".to_string();
    s.apply_filter();
    assert_eq!(hwnds(&s.filtered_windows), vec![2]);
    s.search_text = "nothing matches".to_string();
    s.apply_filter();
    assert!(s.filtered_windows.is_empty());
    s.search_text = String::new();
    s.apply_filter();
    assert_eq!(hwnds(&s.filtered_windows), vec![1, 2, 3]);
}

#[test]
fn app_state_refresh_keeps_search() {
    let mut s = AppState::new(listing());
    s.search_text = "explorer".to_string();
    s.refresh(vec![w(9, "x", "y", 1, "Explorer.EXE"), w(10, "x", "y", 1, "z.exe")]);
    assert_eq!(hwnds(&s.all_windows), vec![9, 10]);
    assert_eq!(hwnds(&s.filtered_windows), vec![9]);
    assert_eq!(s.search_text, "explorer");
}

#[test]
fn locate_mode_switches() {
    let mut m = LocateMode::new();
    assert!(!m.is_active());
    m.start();
    assert!(m.is_active());
    m.stop();
    assert!(!m.is_active());
    assert!(!LocateMode::default().is_active());
}

#[test]
fn finder_starts_with_all_windows_and_f8() {
    let app = MyApp::new(listing());
    assert_eq!(hwnds(&app.filtered), vec![1, 2, 3]);
    assert_eq!(app.expanded, vec![false, false, false]);
    assert_eq!(app.hotkey_key, "F8");
    assert_eq!(app.hotkey_vk, 0x77);
    assert!(!app.locate_mode && !app.locate_dragging && !app.tree_mode);
    assert!(app.hwnd.is_none());
}

#[test]
fn finder_hotkey_setup() {
    let mut app = MyApp::new(listing());
    app.on_hotkey_setup(Some((500, true)));
    assert_eq!(app.hwnd, Some(500));
    assert_eq!(app.hotkey_key, "F8");
    assert_eq!(app.hotkey_vk, 0x77);
    assert!(app.message.is_empty());
    assert!(app.hotkey_setup_done);

    let mut busy = MyApp::new(listing());
    busy.on_hotkey_setup(Some((500, false)));
    assert_eq!(busy.hotkey_key, "F8(失败)");
    assert_eq!(busy.hotkey_vk, 0);
    assert_eq!(busy.message, "F8 已被占用，请点击⚙修改快捷键");

    let mut none = MyApp::new(listing());
    none.on_hotkey_setup(None);
    assert!(none.hwnd.is_none());
    assert!(none.hotkey_setup_done);
}

#[test]
fn finder_change_hotkey() {
    let mut app = MyApp::new(listing());
    // no window handle yet: nothing happens
    assert_eq!(app.change_hotkey("F9"), None);
    assert!(app.message.is_empty());
    app.on_hotkey_setup(Some((500, true)));
    assert_eq!(app.change_hotkey("abc"), None);
    assert_eq!(app.message, "无效快捷键（支持 F1-F12 或 A-Z）");
    assert_eq!(app.change_hotkey("f9"), Some(0x78));
    assert_eq!(app.hotkey_registered("f9", 0x78, true), None);
    assert_eq!(app.hotkey_key, "F9");
    assert_eq!(app.hotkey_vk, 0x78);
    assert!(app.message.is_empty());
    assert_eq!(app.change_hotkey("q"), Some(0x51));
    assert_eq!(app.hotkey_registered("q", 0x51, false), Some(0x78));
    assert_eq!(app.message, "快捷键 q 注册失败（已被占用）");
    assert_eq!(app.hotkey_key, "F9");
    assert_eq!(app.hotkey_vk, 0x78);
}

#[test]
fn finder_failed_setup_has_nothing_to_restore() {
    let mut app = MyApp::new(listing());
    app.on_hotkey_setup(Some((500, false)));
    assert_eq!(app.hotkey_registered("F2", 0x71, false), None);
}

#[test]
fn finder_hotkey_editor() {
    let mut app = MyApp::new(listing());
    app.begin_hotkey_edit();
    assert!(app.hotkey_editing);
    assert_eq!(app.hotkey_edit_text, "F8");
    app.message = "x".to_string();
    app.cancel_hotkey_edit();
    assert!(!app.hotkey_editing);
    assert!(app.message.is_empty());
    app.begin_hotkey_edit();
    app.close_hotkey_edit();
    assert!(!app.hotkey_editing);
}

#[test]
fn finder_locate_by_drag() {
    let mut app = MyApp::new(listing());
    // buttons are ignored while not locating
    assert!(!app.on_locate_buttons(true));
    assert!(!app.locate_dragging);
    app.on_hotkey_pressed();
    assert!(app.locate_mode);
    assert_eq!(app.message, "按住鼠标左键或右键拖动到目标窗口，松开后定位");
    assert!(!app.on_locate_buttons(false));
    assert!(!app.on_locate_buttons(true));
    assert!(app.locate_dragging);
    assert_eq!(app.message, "拖动到目标窗口，松开鼠标...");
    assert!(!app.on_locate_buttons(true));
    assert!(app.on_locate_buttons(false));
    app.finish_locate(Some(w(77, "Target", "Cls", 8, "t.exe")));
    assert!(!app.locate_mode && !app.locate_dragging);
    assert_eq!(hwnds(&app.windows), vec![77]);
    assert_eq!(hwnds(&app.filtered), vec![77]);
    assert_eq!(app.expanded, vec![false]);
    assert_eq!(app.message, "已定位：t.exe");
}

#[test]
fn finder_locate_nothing_found() {
    let mut app = MyApp::new(listing());
    app.toggle_locate();
    assert!(app.on_locate_buttons(true) == false);
    assert!(app.on_locate_buttons(false));
    app.finish_locate(None);
    assert!(!app.locate_mode);
    assert_eq!(hwnds(&app.windows), vec![1, 2, 3]);
}

#[test]
fn finder_locate_button_toggles() {
    let mut app = MyApp::new(listing());
    app.toggle_locate();
    assert!(app.locate_mode);
    assert_eq!(app.message, "按住鼠标左键或右键拖动到目标窗口，松开后定位");
    app.on_locate_buttons(true);
    app.toggle_locate();
    assert!(!app.locate_mode && !app.locate_dragging);
    assert!(app.message.is_empty());
    // the hotkey does not restart locating while it is on
    app.toggle_locate();
    app.on_locate_buttons(true);
    app.on_hotkey_pressed();
    assert!(app.locate_dragging);
}

#[test]
fn finder_search_refresh_reset() {
    let mut app = MyApp::new(listing());
    app.search = "CHROME".to_string();
    app.apply_filter();
    assert_eq!(hwnds(&app.filtered), vec![2]);
    app.message = "old".to_string();
    app.refresh(listing());
    assert_eq!(hwnds(&app.filtered), vec![2]);
    assert!(app.message.is_empty());
    assert_eq!(app.expanded, vec![false, false, false]);
    app.reset(listing());
    assert!(app.search.is_empty());
    assert_eq!(hwnds(&app.filtered), vec![1, 2, 3]);
}

#[test]
fn finder_tree_view_and_expanders() {
    let mut app = MyApp::new(listing());
    app.search = "notepad".to_string();
    app.apply_filter();
    app.toggle_tree_mode();
    assert!(app.tree_mode);
    assert_eq!(app.expanded, vec![false]);
    assert!(app.toggle_expanded(0));
    app.load_filtered_children(0, vec![w(11, "Edit", "Edit", 1234, "notepad.exe")]);
    assert!(app.filtered[0].children_loaded);
    assert_eq!(app.filtered[0].children.len(), 1);
    assert!(!app.toggle_expanded(0));
    assert!(!app.toggle_expanded(5));
    assert_eq!(app.expanded, vec![false]);
}

#[test]
fn finder_class_copied_message() {
    let mut app = MyApp::new(listing());
    app.class_copied("Notepad");
    assert_eq!(app.message, "Class Name 'Notepad' 已复制");
}

#[test]
fn search_ignores_letter_case() {
    let mut a = AppState::new(listing());
    let mut b = AppState::new(listing());
    a.search_text = "notepad".to_string();
    b.search_text = "NoTePaD".to_string();
    a.apply_filter();
    b.apply_filter();
    assert_eq!(hwnds(&a.filtered_windows), hwnds(&b.filtered_windows));
    assert_eq!(hwnds(&a.filtered_windows), vec![1]);
}

fn consistent(app: &MyApp) -> bool {
    (!app.locate_dragging || app.locate_mode)
        && (app.hotkey_vk == 0 || window_class_finder::hotkey::vk_to_string(app.hotkey_vk) == app.hotkey_key)
}

#[test]
fn decisions_keep_state_consistent() {
    let mut app = MyApp::new(listing());
    assert!(consistent(&app));
    app.on_hotkey_setup(Some((9, true)));
    assert!(consistent(&app));
    app.toggle_locate();
    app.on_locate_buttons(true);
    assert!(consistent(&app));
    app.toggle_locate();
    assert!(consistent(&app));
    app.on_hotkey_pressed();
    app.on_locate_buttons(true);
    app.finish_locate(None);
    assert!(consistent(&app));
    if let Some(vk) = app.change_hotkey("k") {
        app.hotkey_registered("k", vk, true);
    }
    assert!(consistent(&app));
    assert_eq!(app.hotkey_key, "K");
    app.reset(listing());
    app.toggle_tree_mode();
    assert!(consistent(&app));
}

#[test]
fn upper_case_ascii_search_shows_the_same() {
    for s in ["note", "Chrome", "exe", "42", "zzz"] {
        let mut a = AppState::new(listing());
        let mut b = AppState::new(listing());
        a.search_text = s.to_string();
        b.search_text = s.to_ascii_uppercase();
        a.apply_filter();
        b.apply_filter();
        assert_eq!(hwnds(&a.filtered_windows), hwnds(&b.filtered_windows));
    }
}

#[test]
fn longer_search_narrows() {
    let steps = ["", "e", "ex", "exe", ".exe", "e.exe", "me.exe"];
    let mut previous: Option<Vec<isize>> = None;
    for s in steps {
        let mut st = AppState::new(listing());
        st.search_text = s.to_string();
        st.apply_filter();
        let now = hwnds(&st.filtered_windows);
        if let Some(prev) = previous {
            // every shown window was shown before, in the same order
            let mut it = prev.iter();
            for h in &now {
                assert!(it.any(|p| p == h));
            }
        }
        previous = Some(now);
    }
    assert_eq!(previous.unwrap(), vec![2]);
}

#[test]
fn matching_a_lowered_needle() {
    let all = listing();
    assert_eq!(hwnds(&windows_matching_needle(&all, "notepad")), vec![1]);
    assert_eq!(hwnds(&windows_matching_needle(&all, "NOTEPAD")), Vec::<isize>::new());
    assert_eq!(hwnds(&windows_matching_needle(&all, "")), vec![1, 2, 3]);
}

#[test]
fn clone_copies_a_window() {
    let w0 = w(5, "t", "c", 3, "p.exe");
    let c = w0.clone();
    assert_eq!((c.hwnd, c.title.as_str(), c.class_name.as_str(), c.pid, c.process_name.as_str()), (5, "t", "c", 3, "p.exe"));
}
