use window_class_finder::ui::tree_helper::{TreeHelper, WindowQuery};
use window_class_finder::window_info::WindowInfo;

fn win(hwnd: isize, title: &str, class: &str) -> WindowInfo {
    WindowInfo::new(hwnd, title.to_string(), class.to_string(), 1000, "test.exe".to_string())
}

fn with_children(mut parent: WindowInfo, children: Vec<WindowInfo>) -> WindowInfo {
    TreeHelper::load_children(&mut parent, children);
    parent
}

/// root(1) -> [a(2) -> [c(4)], b(3)], other(5)
fn sample_forest() -> Vec<WindowInfo> {
    let c = with_children(win(4, "", "Leaf"), vec![]);
    let a = with_children(win(2, "A", "Mid"), vec![c]);
    let b = with_children(win(3, "B", "Mid"), vec![]);
    let root = with_children(win(1, "Root", "Top"), vec![a, b]);
    let other = with_children(win(5, "Other", "Top"), vec![]);
    vec![root, other]
}

#[test]
fn test_format_window_detail() {
    let win = WindowInfo::new(
        12345,
        "测试窗口".to_string(),
        "TestClass".to_string(),
        1000,
        "test.exe".to_string(),
    );

    let text = TreeHelper::format_window_detail(&win);
    assert!(text.contains("测试窗口"));
    assert!(text.contains("test.exe"));
    assert!(text.contains("1000"));
    assert!(text.contains("TestClass"));
}

#[test]
fn test_format_window_simple() {
    let win = WindowInfo::new(
        12345,
        "测试窗口".to_string(),
        "TestClass".to_string(),
        1000,
        "test.exe".to_string(),
    );

    let text = TreeHelper::format_window_simple(&win);
    assert!(text.contains("测试窗口"));
    assert!(text.contains("TestClass"));
    assert!(!text.contains("test.exe"));
    assert!(!text.contains("1000"));
}

#[test]
fn test_format_window_empty_title() {
    let win = WindowInfo::new(
        12345,
        String::new(),
        "TestClass".to_string(),
        1000,
        "test.exe".to_string(),
    );

    let detail = TreeHelper::format_window_detail(&win);
    assert!(detail.contains("<无标题>"));

    let simple = TreeHelper::format_window_simple(&win);
    assert!(simple.contains("<无标题>"));
}

#[test]
fn labels_are_exact() {
    let w = WindowInfo::new(12345, "测试窗口".to_string(), "TestClass".to_string(), 1000, "test.exe".to_string());
    assert_eq!(TreeHelper::format_window_detail(&w), "测试窗口 [test.exe:1000 / TestClass]");
    assert_eq!(TreeHelper::format_window_simple(&w), "测试窗口 [TestClass]");
    let e = WindowInfo::new(1, String::new(), "X".to_string(), 0, "p".to_string());
    assert_eq!(TreeHelper::format_window_detail(&e), "<无标题> [p:0 / X]");
    assert_eq!(TreeHelper::format_window_simple(&e), "<无标题> [X]");
}

#[test]
fn load_children_happens_once() {
    let mut w = win(1, "t", "c");
    assert!(!w.children_loaded);
    TreeHelper::load_children(&mut w, vec![win(2, "x", "y")]);
    assert!(w.children_loaded);
    assert_eq!(w.children.len(), 1);
    TreeHelper::load_children(&mut w, vec![win(3, "p", "q"), win(4, "r", "s")]);
    assert_eq!(w.children.len(), 1);
    assert_eq!(w.children[0].hwnd, 2);
}

#[test]
fn count_window_nodes_counts_the_tree() {
    let forest = sample_forest();
    assert_eq!(TreeHelper::count_window_nodes(&forest[0], true), 4);
    assert_eq!(TreeHelper::count_window_nodes(&forest[0], false), 1);
    assert_eq!(TreeHelper::count_window_nodes(&forest[1], true), 1);
}

#[test]
fn has_children_matches_count() {
    let forest = sample_forest();
    assert!(TreeHelper::has_children(&forest[0]));
    assert!(TreeHelper::count_window_nodes(&forest[0], true) > 1);
    assert!(!TreeHelper::has_children(&forest[1]));
    assert_eq!(TreeHelper::count_window_nodes(&forest[1], true), 1);
}

#[test]
fn find_window_by_hwnd_searches_depth_first() {
    let forest = sample_forest();
    assert_eq!(TreeHelper::find_window_by_hwnd(&forest, 4).map(|w| w.class_name.clone()), Some("Leaf".to_string()));
    assert_eq!(TreeHelper::find_window_by_hwnd(&forest, 5).map(|w| w.title.clone()), Some("Other".to_string()));
    assert!(TreeHelper::find_window_by_hwnd(&forest, 99).is_none());
    assert!(TreeHelper::find_window_by_hwnd(&[], 1).is_none());
}

#[test]
fn find_returns_first_in_preorder() {
    // two windows share handle 7: the one inside the first tree comes first
    let inner = with_children(win(7, "inner", "A"), vec![]);
    let first = with_children(win(1, "first", "R"), vec![inner]);
    let second = with_children(win(7, "second", "B"), vec![]);
    let forest = vec![first, second];
    assert_eq!(TreeHelper::find_window_by_hwnd(&forest, 7).unwrap().title, "inner");
}

#[test]
fn get_window_path_joins_titles() {
    let forest = sample_forest();
    assert_eq!(TreeHelper::get_window_path(&forest, 4), "Root > A > <无标题>");
    assert_eq!(TreeHelper::get_window_path(&forest, 3), "Root > B");
    assert_eq!(TreeHelper::get_window_path(&forest, 1), "Root");
    assert_eq!(TreeHelper::get_window_path(&forest, 5), "Other");
    assert_eq!(TreeHelper::get_window_path(&forest, 42), "");
}

#[test]
fn path_exists_exactly_when_found() {
    let forest = sample_forest();
    for h in 0..8 {
        let found = TreeHelper::find_window_by_hwnd(&forest, h);
        let path = TreeHelper::get_window_path(&forest, h);
        assert_eq!(found.is_some(), !path.is_empty());
        if let Some(w) = found {
            let shown = if w.title.is_empty() { "<无标题>".to_string() } else { w.title.clone() };
            assert!(path.ends_with(&shown));
        }
    }
}

#[test]
fn pending_load_drives_lazy_search() {
    // nothing loaded yet: the search for handle 30 must load window 1 first
    let mut forest = vec![win(1, "a", "A"), win(2, "b", "B")];
    let q = Some(WindowQuery::Handle(30));
    let p = TreeHelper::pending_load(&forest, &q).unwrap();
    assert_eq!(p, vec![0]);
    assert_eq!(TreeHelper::window_at(&forest, &p).hwnd, 1);
    TreeHelper::load_children_at(&mut forest, &p, vec![win(10, "c", "C")]);
    assert!(forest[0].children_loaded);
    // next: the new child 10
    let p = TreeHelper::pending_load(&forest, &q).unwrap();
    assert_eq!(p, vec![0, 0]);
    TreeHelper::load_children_at(&mut forest, &p, vec![]);
    // next: window 2
    let p = TreeHelper::pending_load(&forest, &q).unwrap();
    assert_eq!(p, vec![1]);
    TreeHelper::load_children_at(&mut forest, &p, vec![win(30, "target", "T")]);
    // the target is reached without loading it
    assert!(TreeHelper::pending_load(&forest, &q).is_none());
    assert_eq!(TreeHelper::find_window_by_hwnd(&forest, 30).unwrap().title, "target");
    // a full load still needs the target's children
    assert_eq!(TreeHelper::pending_load(&forest, &None).unwrap(), vec![1, 0]);
}

#[test]
fn pending_load_stops_at_a_match() {
    let forest = vec![win(1, "a", "A"), win(2, "b", "B")];
    assert!(TreeHelper::pending_load(&forest, &Some(WindowQuery::Handle(1))).is_none());
    assert!(TreeHelper::pending_load(&forest, &Some(WindowQuery::Class("A".to_string()))).is_none());
    assert_eq!(TreeHelper::pending_load(&forest, &Some(WindowQuery::Class("B".to_string()))).unwrap(), vec![0]);
}

#[test]
fn fully_loaded_forest_has_nothing_pending() {
    let forest = sample_forest();
    assert!(TreeHelper::pending_load(&forest, &None).is_none());
    assert!(TreeHelper::pending_load(&forest, &Some(WindowQuery::Handle(99))).is_none());
}

#[test]
fn default_tree_helper() {
    let _h: TreeHelper = TreeHelper::default();
}
