//! The window facts the finder derives from what the system reports.
use vstd::prelude::*;

use crate::text::{char_vec, text_of_chars};
use crate::ui::tree_helper::{TreeHelper, with_loaded_children};
use crate::window_info::{WindowInfo, fresh_window, models};

verus! {

/// The process name shown when the process cannot be queried.
pub open spec fn inaccessible() -> Seq<char> {
    "<无法访问>"@
}

/// The last component of a backslash-separated path: everything after the last backslash.
pub open spec fn file_name_of(path: Seq<char>) -> Seq<char>
    decreases path.len(),
{
    if path.len() == 0 {
        Seq::empty()
    } else if path.last() == '\\' {
        Seq::empty()
    } else {
        file_name_of(path.drop_last()).push(path.last())
    }
}

/// The process name for an image path, when there is one.
pub open spec fn process_name_for(image_path: Option<Seq<char>>) -> Seq<char> {
    match image_path {
        Some(p) => file_name_of(p),
        None => inaccessible(),
    }
}

/// The process name is the end of the image path after its last backslash: it holds no
/// backslash, the path ends with it, and a path without a backslash is its own name.
pub proof fn law_file_name_is_last_component(path: Seq<char>)
    ensures
        forall|k: int| 0 <= k < file_name_of(path).len() ==> #[trigger] file_name_of(path)[k]
            != '\\',
        file_name_of(path).len() <= path.len(),
        path.skip(path.len() - file_name_of(path).len()) == file_name_of(path),
        file_name_of(path).len() < path.len() ==> path[path.len() - file_name_of(path).len() - 1]
            == '\\',
        (forall|k: int| 0 <= k < path.len() ==> #[trigger] path[k] != '\\') ==> file_name_of(path)
            == path,
    decreases path.len(),
{
    if path.len() > 0 && path.last() != '\\' {
        let init = path.drop_last();
        law_file_name_is_last_component(init);
        let f = file_name_of(init);
        assert(file_name_of(path) == f.push(path.last()));
        assert(path.skip(path.len() - f.len() - 1) =~= init.skip(init.len() - f.len()).push(
            path.last(),
        ));
        if f.len() < init.len() {
            assert(path[path.len() - f.len() - 2] == init[init.len() - f.len() - 1]);
        }
        if forall|k: int| 0 <= k < path.len() ==> #[trigger] path[k] != '\\' {
            assert forall|k: int| 0 <= k < init.len() implies #[trigger] init[k] != '\\' by {
                assert(init[k] == path[k]);
            }
            assert(init.push(path.last()) =~= path);
        }
    } else if path.len() > 0 {
        assert(path.skip(path.len() as int) =~= Seq::<char>::empty());
    } else {
        assert(path.skip(0) =~= path);
    }
}

/// Derivations from the information the system gives about windows.
pub struct WindowsApi;

impl WindowsApi {
    /// The process name for the image path of a process: the file name after the last
    /// backslash, or the inaccessible marker when the path could not be read.
    pub fn get_process_name(image_path: Option<&str>) -> (r: String)
        ensures
            r@ == process_name_for(match image_path {
                Some(p) => Some(p@),
                None => None,
            }),
    {
        match image_path {
            None => String::from_str("<无法访问>"),
            Some(p) => {
                let v = char_vec(p);
                let n = v.len();
                let mut k: usize = n;
                assert(v@.subrange(0, n as int) =~= v@);
                assert(v@.subrange(n as int, n as int) =~= Seq::<char>::empty());
                assert(v@ + Seq::<char>::empty() =~= v@);
                while k > 0 && v[k - 1] != '\\'
                    invariant
                        k <= n == v@.len(),
                        v@ == p@,
                        file_name_of(v@) == file_name_of(v@.subrange(0, k as int)) + v@.subrange(
                            k as int,
                            n as int,
                        ),
                    decreases k,
                {
                    proof {
                        let pre = v@.subrange(0, k as int);
                        assert(pre.drop_last() =~= v@.subrange(0, k - 1));
                        assert(v@.subrange(k - 1, n as int) =~= seq![pre.last()]
                            + v@.subrange(k as int, n as int));
                    }
                    k -= 1;
                }
                proof {
                    if k > 0 {
                        assert(v@.subrange(0, k as int).last() == '\\');
                    } else {
                        assert(v@.subrange(0, 0) =~= Seq::<char>::empty());
                    }
                    assert(v@.subrange(0, n as int) =~= v@);
                }
                let r = text_of_chars(&v, k, n);
                assert(r@ =~= file_name_of(p@));
                r
            },
        }
    }

    /// The record of a window from what the system reports about it; `image_path` is the
    /// image path of its process when it could be read.
    pub fn create_window_info(
        hwnd: isize,
        title: String,
        class_name: String,
        pid: u32,
        image_path: Option<&str>,
    ) -> (r: WindowInfo)
        ensures
            r@ == fresh_window(
                hwnd,
                title@,
                class_name@,
                pid,
                process_name_for(
                    match image_path {
                        Some(p) => Some(p@),
                        None => None,
                    },
                ),
            ),
    {
        let process_name = Self::get_process_name(image_path);
        WindowInfo::new(hwnd, title, class_name, pid, process_name)
    }

    /// Stores the child windows of `win` once, as `TreeHelper::load_children` does.
    pub fn load_children(win: &mut WindowInfo, children: Vec<WindowInfo>)
        ensures
            final(win)@ == with_loaded_children(old(win)@, models(children@)),
    {
        TreeHelper::load_children(win, children);
    }
}

} // verus!
