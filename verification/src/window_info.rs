//! The record kept for each window, and its mathematical model.
use vstd::prelude::*;

use crate::text::{decimal, lowercased, push_decimal, to_lowercase};

verus! {

/// What a window record says, as mathematical values.
pub struct WindowModel {
    pub hwnd: isize,
    pub title: Seq<char>,
    pub class_name: Seq<char>,
    pub pid: u32,
    pub process_name: Seq<char>,
    pub children: Seq<WindowModel>,
    pub children_loaded: bool,
}

/// Information about one window, with its child windows once they have been loaded.
#[derive(Debug)]
pub struct WindowInfo {
    /// The window handle.
    pub hwnd: isize,
    /// The window title.
    pub title: String,
    /// The window class name.
    pub class_name: String,
    /// The id of the owning process.
    pub pid: u32,
    /// The name of the owning process (such as notepad.exe).
    pub process_name: String,
    /// The child windows, filled in when they are loaded.
    pub children: Vec<WindowInfo>,
    /// Whether the child windows have been loaded.
    pub children_loaded: bool,
}

/// The model of a window record, children included.
pub open spec fn model_of(w: WindowInfo) -> WindowModel
    decreases w,
{
    WindowModel {
        hwnd: w.hwnd,
        title: w.title@,
        class_name: w.class_name@,
        pid: w.pid,
        process_name: w.process_name@,
        children: Seq::new(
            w.children@.len(),
            |i: int|
                if 0 <= i < w.children@.len() {
                    model_of(w.children@[i])
                } else {
                    arbitrary()
                },
        ),
        children_loaded: w.children_loaded,
    }
}

impl View for WindowInfo {
    type V = WindowModel;

    open spec fn view(&self) -> WindowModel {
        model_of(*self)
    }
}

/// The models of a list of window records.
pub open spec fn models(ws: Seq<WindowInfo>) -> Seq<WindowModel> {
    Seq::new(ws.len(), |i: int| ws[i]@)
}

/// The text a window is searched by, before case folding:
/// title, process name, process id and class name, separated by single spaces.
pub open spec fn search_source(w: WindowModel) -> Seq<char> {
    w.title + seq![' '] + w.process_name + seq![' '] + decimal(w.pid as nat) + seq![' ']
        + w.class_name
}

/// The model of a freshly made record: no children, not loaded yet.
pub open spec fn fresh_window(
    hwnd: isize,
    title: Seq<char>,
    class_name: Seq<char>,
    pid: u32,
    process_name: Seq<char>,
) -> WindowModel {
    WindowModel {
        hwnd,
        title,
        class_name,
        pid,
        process_name,
        children: Seq::empty(),
        children_loaded: false,
    }
}

impl WindowInfo {
    /// Makes the record of a window whose children have not been loaded.
    pub fn new(hwnd: isize, title: String, class_name: String, pid: u32, process_name: String) -> (r:
        Self)
        ensures
            r@ == fresh_window(hwnd, title@, class_name@, pid, process_name@),
    {
        let r = WindowInfo {
            hwnd,
            title,
            class_name,
            pid,
            process_name,
            children: Vec::new(),
            children_loaded: false,
        };
        assert(r@.children =~= Seq::<WindowModel>::empty());
        r
    }

    /// The lower-cased text the window is searched by.
    pub fn search_text(&self) -> (r: String)
        ensures
            r@ == lowercased(search_source(self@)),
    {
        let mut s = self.title.clone();
        s.append(" ");
        s.append(self.process_name.as_str());
        s.append(" ");
        push_decimal(&mut s, self.pid as u64);
        s.append(" ");
        s.append(self.class_name.as_str());
        proof {
            reveal_strlit(" ");
        }
        assert(s@ =~= search_source(self@));
        to_lowercase(s.as_str())
    }

    /// A copy of the record, children included.
    pub fn duplicate(&self) -> (r: Self)
        ensures
            r@ == self@,
        decreases self,
    {
        let children = duplicate_all(&self.children);
        let r = WindowInfo {
            hwnd: self.hwnd,
            title: self.title.clone(),
            class_name: self.class_name.clone(),
            pid: self.pid,
            process_name: self.process_name.clone(),
            children,
            children_loaded: self.children_loaded,
        };
        assert(r@.children =~= self@.children) by {
            assert(models(r.children@) == models(self.children@));
            assert(r@.children.len() == self@.children.len());
            assert forall|j: int| 0 <= j < r@.children.len() implies r@.children[j]
                == self@.children[j] by {
                assert(models(r.children@)[j] == models(self.children@)[j]);
            }
        }
        r
    }
}

impl Clone for WindowInfo {
    /// A copy of the record, children included.
    fn clone(&self) -> (r: Self)
        ensures
            r@ == self@,
    {
        self.duplicate()
    }
}

/// Copies of a list of records, in order.
pub fn duplicate_all(ws: &Vec<WindowInfo>) -> (r: Vec<WindowInfo>)
    ensures
        models(r@) == models(ws@),
    decreases ws,
{
    let mut out: Vec<WindowInfo> = Vec::new();
    let mut i: usize = 0;
    while i < ws.len()
        invariant
            i <= ws@.len(),
            out@.len() == i,
            forall|j: int| 0 <= j < i ==> out@[j]@ == ws@[j]@,
        decreases ws@.len() - i,
    {
        let c = ws[i].duplicate();
        out.push(c);
        i += 1;
    }
    assert(models(out@) =~= models(ws@));
    out
}

} // verus!
