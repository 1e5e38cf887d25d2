//! The finder window's state and every decision it takes on user and system events.
//! Drawing, the mouse and keyboard, the clipboard and the system calls stay with the caller,
//! which reports what happened and performs what these functions ask for.
use vstd::prelude::*;

use crate::hotkey::{VK_F8, is_hotkey_vk, key_code_of, key_name, parse_hotkey, setup_outcome, hotkey_setup_outcome, vk_to_string};
use crate::text::{ascii_lower, contains_text, has_substring, is_ascii_text};
use crate::ui::app_state::{filter_windows, filtered_view, windows_matching};
use crate::ui::tree_helper::{TreeHelper, with_loaded_children};
use crate::window_info::{WindowInfo, WindowModel, duplicate_all, models};

verus! {

/// The finder's state as mathematical values.
pub struct FinderModel {
    pub windows: Seq<WindowModel>,
    pub filtered: Seq<WindowModel>,
    pub search: Seq<char>,
    pub tree_mode: bool,
    pub locate_mode: bool,
    pub expanded: Seq<bool>,
    pub message: Seq<char>,
    pub locate_dragging: bool,
    pub hotkey_key: Seq<char>,
    pub hotkey_vk: u32,
    pub hotkey_editing: bool,
    pub hotkey_edit_text: Seq<char>,
    pub hwnd: Option<isize>,
    pub hotkey_setup_done: bool,
}

/// The prompt shown when locating starts.
pub open spec fn locate_hint() -> Seq<char> {
    "按住鼠标左键或右键拖动到目标窗口，松开后定位"@
}

/// The prompt shown while dragging to a window.
pub open spec fn drag_hint() -> Seq<char> {
    "拖动到目标窗口，松开鼠标..."@
}

/// The message shown when the default hotkey is taken.
pub open spec fn hotkey_busy_message() -> Seq<char> {
    "F8 已被占用，请点击⚙修改快捷键"@
}

/// The marker in a key name that registering it failed.
pub open spec fn failure_marker() -> Seq<char> {
    "(失败)"@
}

/// The message shown for a key name that is not F1 to F12 or A to Z.
pub open spec fn invalid_key_message() -> Seq<char> {
    "无效快捷键（支持 F1-F12 或 A-Z）"@
}

/// The message shown when registering a new hotkey failed.
pub open spec fn register_failed_message(key: Seq<char>) -> Seq<char> {
    "快捷键 "@ + key + " 注册失败（已被占用）"@
}

/// The message shown when a class name was copied.
pub open spec fn copied_message(class_name: Seq<char>) -> Seq<char> {
    "Class Name '"@ + class_name + "' 已复制"@
}

/// The message shown when a window was located.
pub open spec fn located_message(process_name: Seq<char>) -> Seq<char> {
    "已定位："@ + process_name
}

/// `n` collapsed entries.
pub open spec fn collapsed(n: nat) -> Seq<bool> {
    Seq::new(n, |i: int| false)
}

/// The state the finder starts in with a listing of the windows.
pub open spec fn initial_state(windows: Seq<WindowModel>) -> FinderModel {
    FinderModel {
        windows,
        filtered: windows,
        search: Seq::empty(),
        tree_mode: false,
        locate_mode: false,
        expanded: collapsed(windows.len()),
        message: Seq::empty(),
        locate_dragging: false,
        hotkey_key: "F8"@,
        hotkey_vk: VK_F8,
        hotkey_editing: false,
        hotkey_edit_text: Seq::empty(),
        hwnd: None,
        hotkey_setup_done: false,
    }
}

/// The state after the shown windows were recomputed from all windows and the search.
pub open spec fn after_filter(s: FinderModel) -> FinderModel {
    FinderModel { filtered: filtered_view(s.windows, s.search), ..s }
}

/// The state after a new listing of the windows.
pub open spec fn after_refresh(s: FinderModel, windows: Seq<WindowModel>) -> FinderModel {
    after_filter(
        FinderModel { windows, expanded: collapsed(windows.len()), message: Seq::empty(), ..s },
    )
}

/// The state after the first frame tried to set up the hotkey: `setup` holds the window
/// handle and whether the default hotkey was registered, when the handle was available.
pub open spec fn after_hotkey_setup(s: FinderModel, setup: Option<(isize, bool)>) -> FinderModel {
    match setup {
        None => FinderModel { hotkey_setup_done: true, ..s },
        Some((hwnd, registered)) => {
            let (key, vk) = setup_outcome(registered);
            FinderModel {
                hwnd: Some(hwnd),
                hotkey_key: key,
                hotkey_vk: vk,
                message: if has_substring(key, failure_marker()) {
                    hotkey_busy_message()
                } else {
                    s.message
                },
                hotkey_setup_done: true,
                ..s
            }
        },
    }
}

/// The state after the hotkey was pressed: locating starts unless it is already on.
pub open spec fn after_hotkey_pressed(s: FinderModel) -> FinderModel {
    if !s.locate_mode {
        FinderModel { locate_mode: true, locate_dragging: false, message: locate_hint(), ..s }
    } else {
        s
    }
}

/// The state after the locate button was clicked.
pub open spec fn after_locate_toggled(s: FinderModel) -> FinderModel {
    FinderModel {
        locate_mode: !s.locate_mode,
        locate_dragging: false,
        message: if !s.locate_mode {
            locate_hint()
        } else {
            Seq::empty()
        },
        ..s
    }
}

/// The state after switching between list and tree view.
pub open spec fn after_view_toggled(s: FinderModel) -> FinderModel {
    FinderModel { tree_mode: !s.tree_mode, expanded: collapsed(s.filtered.len()), ..s }
}

/// The state after the reset button: no search, no message, and a new listing.
pub open spec fn after_reset(s: FinderModel, windows: Seq<WindowModel>) -> FinderModel {
    after_refresh(FinderModel { search: Seq::empty(), message: Seq::empty(), ..s }, windows)
}

/// The state after the hotkey editor was opened.
pub open spec fn after_edit_begun(s: FinderModel) -> FinderModel {
    FinderModel { hotkey_editing: true, hotkey_edit_text: s.hotkey_key, ..s }
}

/// The state after the hotkey editor was cancelled.
pub open spec fn after_edit_cancelled(s: FinderModel) -> FinderModel {
    FinderModel { hotkey_editing: false, message: Seq::empty(), ..s }
}

/// The state after the hotkey editor was closed.
pub open spec fn after_edit_closed(s: FinderModel) -> FinderModel {
    FinderModel { hotkey_editing: false, ..s }
}

/// The code to register for a requested key name: none without a window handle or for an
/// invalid name.
pub open spec fn requested_code(s: FinderModel, key: Seq<char>) -> Option<u32> {
    if s.hwnd is None {
        None
    } else {
        key_code_of(key)
    }
}

/// The state after a key name was requested as the new hotkey.
pub open spec fn after_change_requested(s: FinderModel, key: Seq<char>) -> FinderModel {
    if s.hwnd is Some && key_code_of(key) is None {
        FinderModel { message: invalid_key_message(), ..s }
    } else {
        s
    }
}

/// The state after registering the code `vk` for the key name `key` did or did not succeed.
pub open spec fn after_registration(s: FinderModel, key: Seq<char>, vk: u32, ok: bool) -> FinderModel {
    if ok {
        FinderModel { hotkey_key: key_name(vk), hotkey_vk: vk, message: Seq::empty(), ..s }
    } else {
        FinderModel { message: register_failed_message(key), ..s }
    }
}

/// The code to register again after registering a new one failed: the previous one, if any.
pub open spec fn code_to_restore(s: FinderModel, ok: bool) -> Option<u32> {
    if !ok && s.hotkey_vk > 0 {
        Some(s.hotkey_vk)
    } else {
        None
    }
}

/// The state after the expander of shown window `i` was clicked.
pub open spec fn after_expander(s: FinderModel, i: int) -> FinderModel {
    if 0 <= i < s.expanded.len() {
        FinderModel { expanded: s.expanded.update(i, !s.expanded[i]), ..s }
    } else {
        s
    }
}

/// The state after the children of shown window `i` were loaded.
pub open spec fn after_children_loaded(s: FinderModel, i: int, children: Seq<WindowModel>) -> FinderModel {
    FinderModel { filtered: s.filtered.update(i, with_loaded_children(s.filtered[i], children)), ..s }
}

/// The state after a class name was copied.
pub open spec fn after_class_copied(s: FinderModel, class_name: Seq<char>) -> FinderModel {
    FinderModel { message: copied_message(class_name), ..s }
}

/// The state after a frame saw the mouse buttons while locating.
pub open spec fn after_buttons(s: FinderModel, down: bool) -> FinderModel {
    if s.locate_mode && down && !s.locate_dragging {
        FinderModel { locate_dragging: true, message: drag_hint(), ..s }
    } else {
        s
    }
}

/// Whether the window under the cursor is to be picked now: the buttons were released
/// after dragging.
pub open spec fn pick_now(s: FinderModel, down: bool) -> bool {
    s.locate_mode && !down && s.locate_dragging
}

/// The state after locating ended, with the window found under the cursor, if any.
pub open spec fn after_located(s: FinderModel, found: Option<WindowModel>) -> FinderModel {
    let t = match found {
        Some(w) => FinderModel {
            windows: seq![w],
            filtered: seq![w],
            expanded: seq![false],
            message: located_message(w.process_name),
            ..s
        },
        None => s,
    };
    FinderModel { locate_mode: false, locate_dragging: false, ..t }
}

/// What the finder's state keeps true: dragging happens only while locating, and the
/// registered hotkey code, if any, is a valid one and is the one whose name is shown.
pub open spec fn consistent(s: FinderModel) -> bool {
    &&& s.locate_dragging ==> s.locate_mode
    &&& s.hotkey_vk == 0 || is_hotkey_vk(s.hotkey_vk)
    &&& s.hotkey_vk != 0 ==> s.hotkey_key == key_name(s.hotkey_vk)
}

/// The finder window's state.
pub struct MyApp {
    /// All windows listed.
    pub windows: Vec<WindowInfo>,
    /// The windows shown.
    pub filtered: Vec<WindowInfo>,
    /// The search text.
    pub search: String,
    /// Whether the tree view is shown.
    pub tree_mode: bool,
    /// Whether the finder is locating a window under the mouse.
    pub locate_mode: bool,
    /// Which shown windows are expanded in the tree view.
    pub expanded: Vec<bool>,
    /// The status message.
    pub message: String,
    /// Whether a mouse button is held while locating.
    pub locate_dragging: bool,
    /// The name of the hotkey shown.
    pub hotkey_key: String,
    /// The registered hotkey's virtual-key code, 0 when none is registered.
    pub hotkey_vk: u32,
    /// Whether the hotkey editor is open.
    pub hotkey_editing: bool,
    /// The text in the hotkey editor.
    pub hotkey_edit_text: String,
    /// The finder window's handle, once known.
    pub hwnd: Option<isize>,
    /// Whether the hotkey setup has been attempted.
    pub hotkey_setup_done: bool,
}

impl View for MyApp {
    type V = FinderModel;

    open spec fn view(&self) -> FinderModel {
        FinderModel {
            windows: models(self.windows@),
            filtered: models(self.filtered@),
            search: self.search@,
            tree_mode: self.tree_mode,
            locate_mode: self.locate_mode,
            expanded: self.expanded@,
            message: self.message@,
            locate_dragging: self.locate_dragging,
            hotkey_key: self.hotkey_key@,
            hotkey_vk: self.hotkey_vk,
            hotkey_editing: self.hotkey_editing,
            hotkey_edit_text: self.hotkey_edit_text@,
            hwnd: self.hwnd,
            hotkey_setup_done: self.hotkey_setup_done,
        }
    }
}

/// `n` collapsed entries.
fn all_collapsed(n: usize) -> (v: Vec<bool>)
    ensures
        v@ == collapsed(n as nat),
{
    let mut v: Vec<bool> = Vec::new();
    let mut i: usize = 0;
    while i < n
        invariant
            i <= n,
            v@ == collapsed(i as nat),
        decreases n - i,
    {
        v.push(false);
        i += 1;
        assert(v@ =~= collapsed(i as nat));
    }
    v
}

impl MyApp {
    /// The finder's starting state for a listing of the windows.
    pub fn new(windows: Vec<WindowInfo>) -> (r: Self)
        ensures
            r@ == initial_state(models(windows@)),
    {
        let filtered = duplicate_all(&windows);
        let len = windows.len();
        let r = MyApp {
            windows,
            filtered,
            search: String::new(),
            tree_mode: false,
            locate_mode: false,
            expanded: all_collapsed(len),
            message: String::new(),
            locate_dragging: false,
            hotkey_key: String::from_str("F8"),
            hotkey_vk: VK_F8,
            hotkey_editing: false,
            hotkey_edit_text: String::new(),
            hwnd: None,
            hotkey_setup_done: false,
        };
        assert(r@ =~= initial_state(models(windows@)));
        r
    }

    /// Takes a new listing of the windows: everything collapsed, no message, filtered again.
    pub fn refresh(&mut self, windows: Vec<WindowInfo>)
        ensures
            final(self)@ == after_refresh(old(self)@, models(windows@)),
    {
        let ghost w = models(windows@);
        self.windows = windows;
        self.expanded = all_collapsed(self.windows.len());
        self.message = String::new();
        self.apply_filter();
        assert(final(self)@ =~= after_refresh(old(self)@, w));
    }

    /// Recomputes the shown windows from all windows and the search text.
    pub fn apply_filter(&mut self)
        ensures
            final(self)@ == after_filter(old(self)@),
            old(self).search@.len() > 0 && is_ascii_text(old(self).search@) ==> final(self)@.filtered
                == windows_matching(models(old(self).windows@), ascii_lower(old(self).search@)),
    {
        self.filtered = filter_windows(&self.windows, &self.search);
        assert(final(self)@ =~= after_filter(old(self)@));
    }

    /// Records the hotkey setup of the first frame: `setup` holds the window handle and
    /// whether the default hotkey was registered, when the handle was available.
    pub fn on_hotkey_setup(&mut self, setup: Option<(isize, bool)>)
        ensures
            final(self)@ == after_hotkey_setup(old(self)@, setup),
    {
        match setup {
            Some((hwnd, registered)) => {
                self.hwnd = Some(hwnd);
                let (key, vk) = hotkey_setup_outcome(registered);
                self.hotkey_key = key;
                self.hotkey_vk = vk;
                if contains_text(self.hotkey_key.as_str(), "(失败)") {
                    self.message = String::from_str("F8 已被占用，请点击⚙修改快捷键");
                }
            },
            None => {},
        }
        self.hotkey_setup_done = true;
        assert(final(self)@ =~= after_hotkey_setup(old(self)@, setup));
    }

    /// Starts locating when the hotkey was pressed, unless locating is already on.
    pub fn on_hotkey_pressed(&mut self)
        ensures
            final(self)@ == after_hotkey_pressed(old(self)@),
    {
        if !self.locate_mode {
            self.locate_mode = true;
            self.locate_dragging = false;
            self.message = String::from_str("按住鼠标左键或右键拖动到目标窗口，松开后定位");
        }
        assert(final(self)@ =~= after_hotkey_pressed(old(self)@));
    }

    /// Switches locating on or off (the locate button).
    pub fn toggle_locate(&mut self)
        ensures
            final(self)@ == after_locate_toggled(old(self)@),
    {
        self.locate_mode = !self.locate_mode;
        self.locate_dragging = false;
        if self.locate_mode {
            self.message = String::from_str("按住鼠标左键或右键拖动到目标窗口，松开后定位");
        } else {
            self.message = String::new();
        }
        assert(final(self)@ =~= after_locate_toggled(old(self)@));
    }

    /// Switches between the list and the tree view, collapsing everything.
    pub fn toggle_tree_mode(&mut self)
        ensures
            final(self)@ == after_view_toggled(old(self)@),
    {
        self.tree_mode = !self.tree_mode;
        self.expanded = all_collapsed(self.filtered.len());
        assert(final(self)@ =~= after_view_toggled(old(self)@));
    }

    /// Clears the search and the message and takes a new listing (the reset button).
    pub fn reset(&mut self, windows: Vec<WindowInfo>)
        ensures
            final(self)@ == after_reset(old(self)@, models(windows@)),
    {
        self.search = String::new();
        self.message = String::new();
        self.refresh(windows);
        assert(final(self)@ =~= after_reset(old(self)@, models(windows@)));
    }

    /// Opens the hotkey editor with the current key name.
    pub fn begin_hotkey_edit(&mut self)
        ensures
            final(self)@ == after_edit_begun(old(self)@),
    {
        self.hotkey_editing = true;
        self.hotkey_edit_text = self.hotkey_key.clone();
        assert(final(self)@ =~= after_edit_begun(old(self)@));
    }

    /// Closes the hotkey editor without a change, clearing the message.
    pub fn cancel_hotkey_edit(&mut self)
        ensures
            final(self)@ == after_edit_cancelled(old(self)@),
    {
        self.hotkey_editing = false;
        self.message = String::new();
        assert(final(self)@ =~= after_edit_cancelled(old(self)@));
    }

    /// Closes the hotkey editor after its text was applied.
    pub fn close_hotkey_edit(&mut self)
        ensures
            final(self)@ == after_edit_closed(old(self)@),
    {
        self.hotkey_editing = false;
        assert(final(self)@ =~= after_edit_closed(old(self)@));
    }

    /// Asks for `new_key` as the hotkey: the code to register in place of the current one,
    /// or none when the window handle is unknown or the name is invalid (then a message says so).
    pub fn change_hotkey(&mut self, new_key: &str) -> (r: Option<u32>)
        ensures
            r == requested_code(old(self)@, new_key@),
            final(self)@ == after_change_requested(old(self)@, new_key@),
            r matches Some(vk) ==> is_hotkey_vk(vk),
    {
        if self.hwnd.is_none() {
            return None;
        }
        let vk = match parse_hotkey(new_key) {
            Some(v) => v,
            None => {
                self.message = String::from_str("无效快捷键（支持 F1-F12 或 A-Z）");
                assert(final(self)@ =~= after_change_requested(old(self)@, new_key@));
                return None;
            },
        };
        Some(vk)
    }

    /// Records whether registering the code `vk` for `new_key` succeeded; on failure, answers
    /// the previous code to register again, if there was one.
    pub fn hotkey_registered(&mut self, new_key: &str, vk: u32, ok: bool) -> (r: Option<u32>)
        ensures
            r == code_to_restore(old(self)@, ok),
            final(self)@ == after_registration(old(self)@, new_key@, vk, ok),
    {
        if ok {
            self.hotkey_key = vk_to_string(vk);
            self.hotkey_vk = vk;
            self.message = String::new();
            assert(final(self)@ =~= after_registration(old(self)@, new_key@, vk, ok));
            None
        } else {
            let mut m = String::from_str("快捷键 ");
            m.append(new_key);
            m.append(" 注册失败（已被占用）");
            self.message = m;
            assert(final(self)@ =~= after_registration(old(self)@, new_key@, vk, ok));
            if self.hotkey_vk > 0 {
                Some(self.hotkey_vk)
            } else {
                None
            }
        }
    }

    /// Flips the expander of shown window `i`; answers whether it is now expanded, which is
    /// when its children are to be loaded.
    pub fn toggle_expanded(&mut self, i: usize) -> (r: bool)
        ensures
            final(self)@ == after_expander(old(self)@, i as int),
            r == (i < old(self)@.expanded.len() && !old(self)@.expanded[i as int]),
    {
        if i < self.expanded.len() {
            let now = !self.expanded[i];
            self.expanded.set(i, now);
            assert(final(self)@ =~= after_expander(old(self)@, i as int));
            now
        } else {
            false
        }
    }

    /// Loads the children of shown window `i`, once.
    pub fn load_filtered_children(&mut self, i: usize, children: Vec<WindowInfo>)
        requires
            i < old(self).filtered@.len(),
        ensures
            final(self)@ == after_children_loaded(old(self)@, i as int, models(children@)),
    {
        let ghost before = models(self.filtered@);
        TreeHelper::load_children(&mut self.filtered[i], children);
        assert(models(self.filtered@) =~= before.update(
            i as int,
            with_loaded_children(before[i as int], models(children@)),
        ));
        assert(final(self)@ =~= after_children_loaded(old(self)@, i as int, models(children@)));
    }

    /// Notes that a class name was copied.
    pub fn class_copied(&mut self, class_name: &str)
        ensures
            final(self)@ == after_class_copied(old(self)@, class_name@),
    {
        let mut m = String::from_str("Class Name '");
        m.append(class_name);
        m.append("' 已复制");
        self.message = m;
        assert(final(self)@ =~= after_class_copied(old(self)@, class_name@));
    }

    /// Takes the state of the mouse buttons in a frame: a press while locating starts
    /// dragging; answers whether a release after dragging asks to pick the window under the
    /// cursor now.
    pub fn on_locate_buttons(&mut self, any_button_down: bool) -> (r: bool)
        ensures
            final(self)@ == after_buttons(old(self)@, any_button_down),
            r == pick_now(old(self)@, any_button_down),
    {
        if !self.locate_mode {
            return false;
        }
        if any_button_down && !self.locate_dragging {
            self.locate_dragging = true;
            self.message = String::from_str("拖动到目标窗口，松开鼠标...");
            assert(final(self)@ =~= after_buttons(old(self)@, any_button_down));
            return false;
        }
        !any_button_down && self.locate_dragging
    }

    /// Ends locating; a window found under the cursor becomes the only one listed.
    pub fn finish_locate(&mut self, found: Option<WindowInfo>)
        ensures
            final(self)@ == after_located(
                old(self)@,
                match found {
                    Some(w) => Some(w@),
                    None => None,
                },
            ),
            !final(self).locate_mode,
            !final(self).locate_dragging,
            found matches Some(w) ==> {
                &&& final(self).windows@.len() == 1
                &&& final(self).filtered@.len() == 1
                &&& final(self).windows@[0]@ == w@
                &&& final(self).filtered@[0]@ == w@
                &&& final(self).expanded@ == seq![false]
                &&& final(self).message@ == "已定位："@ + w.process_name@
            },
            found is None ==> models(final(self).windows@) == models(old(self).windows@) && models(
                final(self).filtered@,
            ) == models(old(self).filtered@) && final(self).message@ == old(self).message@,
    {
        let ghost f = match &found {
            Some(w) => Some(w@),
            None => None::<WindowModel>,
        };
        match found {
            Some(win) => {
                let mut m = String::from_str("已定位：");
                m.append(win.process_name.as_str());
                let copy = win.duplicate();
                let mut listed: Vec<WindowInfo> = Vec::new();
                listed.push(win);
                let mut shown: Vec<WindowInfo> = Vec::new();
                shown.push(copy);
                let mut exp: Vec<bool> = Vec::new();
                exp.push(false);
                self.windows = listed;
                self.filtered = shown;
                self.expanded = exp;
                self.message = m;
                assert(models(self.windows@) =~= seq![f->0]);
                assert(models(self.filtered@) =~= seq![f->0]);
                assert(self.expanded@ =~= seq![false]);
            },
            None => {},
        }
        self.locate_mode = false;
        self.locate_dragging = false;
        assert(final(self)@ =~= after_located(old(self)@, f));
    }
}

/// Locating lists only the window found, shown whatever the search was, with the located
/// message and locating over; when nothing was found, the lists and message stay.
pub proof fn law_locating_lists_only_found_window(s: FinderModel, w: WindowModel)
    ensures
        after_located(s, Some(w)).windows == seq![w],
        after_located(s, Some(w)).filtered == after_located(s, Some(w)).windows,
        after_located(s, Some(w)).expanded == seq![false],
        after_located(s, Some(w)).message == "已定位："@ + w.process_name,
        after_located(s, Some(w)).search == s.search,
        !after_located(s, Some(w)).locate_mode && !after_located(s, Some(w)).locate_dragging,
        after_located(s, None).windows == s.windows && after_located(s, None).filtered
            == s.filtered && after_located(s, None).message == s.message,
        !after_located(s, None).locate_mode && !after_located(s, None).locate_dragging,
{
}

/// The state with the locate mode set to `on`.
pub open spec fn with_locate_mode(s: FinderModel, on: bool) -> FinderModel {
    FinderModel { locate_mode: on, ..s }
}

/// The buttons start dragging only while locating, and a release picks a window only after
/// dragging: press then release while locating asks for exactly one pick.
pub proof fn law_press_then_release_picks_once(s: FinderModel)
    requires
        s.locate_mode,
        !s.locate_dragging,
    ensures
        !pick_now(s, true),
        after_buttons(s, true).locate_dragging,
        pick_now(after_buttons(s, true), false),
        !pick_now(after_buttons(s, true), true),
        !pick_now(s, false),
        after_buttons(with_locate_mode(s, false), true) == with_locate_mode(s, false),
{
}

/// Switching the locate mode or the view twice returns it to where it was, and switching
/// the view collapses every shown window.
pub proof fn law_toggles_undo_themselves(s: FinderModel)
    ensures
        after_locate_toggled(after_locate_toggled(s)).locate_mode == s.locate_mode,
        !after_locate_toggled(s).locate_dragging,
        after_view_toggled(after_view_toggled(s)).tree_mode == s.tree_mode,
        after_view_toggled(s).expanded.len() == s.filtered.len(),
        forall|k: int|
            0 <= k < s.filtered.len() ==> !(#[trigger] after_view_toggled(s).expanded[k]),
{
}

/// A new listing is shown through the current search, collapsed and without a message;
/// after a reset the whole new listing is shown.
pub proof fn law_new_listing_is_filtered_by_search(s: FinderModel, ws: Seq<WindowModel>)
    ensures
        after_refresh(s, ws).windows == ws,
        after_refresh(s, ws).filtered == filtered_view(ws, s.search),
        after_refresh(s, ws).search == s.search,
        after_refresh(s, ws).message.len() == 0,
        after_refresh(s, ws).expanded.len() == ws.len(),
        after_reset(s, ws).filtered == ws,
        after_reset(s, ws).search.len() == 0,
{
}

/// Every decision of the finder keeps its state consistent: starting, filtering, new
/// listings, hotkey setup and changes, locating, view switches and the editor.
pub proof fn law_decisions_keep_state_consistent(
    s: FinderModel,
    windows: Seq<WindowModel>,
    setup: Option<(isize, bool)>,
    key: Seq<char>,
    vk: u32,
    ok: bool,
    i: int,
    children: Seq<WindowModel>,
    down: bool,
    found: Option<WindowModel>,
)
    requires
        consistent(s),
        0 <= i < s.filtered.len(),
    ensures
        consistent(initial_state(windows)),
        consistent(after_filter(s)),
        consistent(after_refresh(s, windows)),
        consistent(after_hotkey_setup(s, setup)),
        consistent(after_hotkey_pressed(s)),
        consistent(after_locate_toggled(s)),
        consistent(after_view_toggled(s)),
        consistent(after_reset(s, windows)),
        consistent(after_edit_begun(s)),
        consistent(after_edit_cancelled(s)),
        consistent(after_edit_closed(s)),
        consistent(after_change_requested(s, key)),
        requested_code(s, key) matches Some(c) ==> consistent(after_registration(s, key, c, ok)),
        consistent(after_expander(s, i)),
        consistent(after_children_loaded(s, i, children)),
        consistent(after_class_copied(s, key)),
        consistent(after_buttons(s, down)),
        consistent(after_located(s, found)),
{
    lemma_f8_name();
}

/// The name of F8 is `F8`.
proof fn lemma_f8_name()
    ensures
        key_name(VK_F8) == "F8"@,
{
    reveal_strlit("F8");
    assert(crate::text::decimal(8) =~= seq!['8']);
    assert(key_name(VK_F8) =~= "F8"@);
}

} // verus!
