//! The window list and its search filter.
use vstd::prelude::*;

use crate::text::{
    ascii_lower, ascii_upper, contains_text, has_substring, is_ascii_text, lowercased, occurs_at,
    to_lowercase,
};
use crate::text::decimal;
use crate::window_info::{WindowInfo, WindowModel, duplicate_all, models, search_source};

verus! {

/// Whether a window's search text contains `needle` (already lower-cased).
pub open spec fn matches_search(w: WindowModel, needle: Seq<char>) -> bool {
    has_substring(lowercased(search_source(w)), needle)
}

/// The windows of `ws` that match `needle`, in their order.
pub open spec fn windows_matching(ws: Seq<WindowModel>, needle: Seq<char>) -> Seq<WindowModel>
    decreases ws.len(),
{
    if ws.len() == 0 {
        Seq::empty()
    } else {
        let rest = windows_matching(ws.drop_last(), needle);
        if matches_search(ws.last(), needle) {
            rest.push(ws.last())
        } else {
            rest
        }
    }
}

/// The windows shown for a search text: all of them for an empty search, otherwise those
/// whose search text contains the lower-cased search, ignoring letter case.
pub open spec fn filtered_view(ws: Seq<WindowModel>, search: Seq<char>) -> Seq<WindowModel> {
    if search.len() == 0 {
        ws
    } else {
        windows_matching(ws, lowercased(search))
    }
}

/// The windows shown for `search`, as copies.
pub fn filter_windows(all: &Vec<WindowInfo>, search: &String) -> (r: Vec<WindowInfo>)
    ensures
        models(r@) == filtered_view(models(all@), search@),
        search@.len() > 0 && is_ascii_text(search@) ==> models(r@) == windows_matching(
            models(all@),
            ascii_lower(search@),
        ),
{
    if search.as_str().unicode_len() == 0 {
        return duplicate_all(all);
    }
    let lower = to_lowercase(search.as_str());
    windows_matching_needle(all, lower.as_str())
}

/// Copies of the windows whose search text contains `needle` (already lower-cased), in order.
pub fn windows_matching_needle(all: &Vec<WindowInfo>, needle: &str) -> (r: Vec<WindowInfo>)
    ensures
        models(r@) == windows_matching(models(all@), needle@),
{
    let ghost m = models(all@);
    let mut out: Vec<WindowInfo> = Vec::new();
    let mut i: usize = 0;
    while i < all.len()
        invariant
            m == models(all@),
            i <= all@.len(),
            models(out@) == windows_matching(m.subrange(0, i as int), needle@),
        decreases all@.len() - i,
    {
        let w = &all[i];
        let text = w.search_text();
        let keep = contains_text(text.as_str(), needle);
        let ghost before = models(out@);
        proof {
            assert(m.subrange(0, i + 1).drop_last() =~= m.subrange(0, i as int));
            assert(m.subrange(0, i + 1).last() == w@);
        }
        if keep {
            let c = w.duplicate();
            out.push(c);
            assert(models(out@) =~= before.push(w@));
        }
        i += 1;
    }
    assert(m.subrange(0, all@.len() as int) =~= m);
    out
}

/// The state of the window list: every window, the ones shown, and the search.
pub struct AppState {
    /// All windows.
    pub all_windows: Vec<WindowInfo>,
    /// The windows that pass the search.
    pub filtered_windows: Vec<WindowInfo>,
    /// The current search text.
    pub search_text: String,
    /// Whether the tree view is shown.
    pub tree_mode: bool,
}

impl AppState {
    /// The state for a freshly listed set of windows: no search, all shown, list view.
    pub fn new(all_windows: Vec<WindowInfo>) -> (r: Self)
        ensures
            models(r.all_windows@) == models(all_windows@),
            models(r.filtered_windows@) == models(all_windows@),
            r.search_text@ == Seq::<char>::empty(),
            !r.tree_mode,
    {
        let filtered_windows = duplicate_all(&all_windows);
        AppState { all_windows, filtered_windows, search_text: String::new(), tree_mode: false }
    }

    /// Takes a new listing of the windows and filters it with the current search.
    pub fn refresh(&mut self, windows: Vec<WindowInfo>)
        ensures
            models(final(self).all_windows@) == models(windows@),
            models(final(self).filtered_windows@) == filtered_view(
                models(windows@),
                old(self).search_text@,
            ),
            final(self).search_text@ == old(self).search_text@,
            final(self).tree_mode == old(self).tree_mode,
    {
        self.all_windows = windows;
        self.apply_filter();
    }

    /// Recomputes the shown windows from all windows and the search text.
    pub fn apply_filter(&mut self)
        ensures
            models(final(self).filtered_windows@) == filtered_view(
                models(old(self).all_windows@),
                old(self).search_text@,
            ),
            old(self).search_text@.len() > 0 && is_ascii_text(old(self).search_text@) ==> models(
                final(self).filtered_windows@,
            ) == windows_matching(models(old(self).all_windows@), ascii_lower(old(self).search_text@)),
            models(final(self).all_windows@) == models(old(self).all_windows@),
            final(self).search_text@ == old(self).search_text@,
            final(self).tree_mode == old(self).tree_mode,
    {
        self.filtered_windows = filter_windows(&self.all_windows, &self.search_text);
    }
}

/// An empty search shows every window.
pub proof fn law_empty_search_shows_all(ws: Seq<WindowModel>)
    ensures
        filtered_view(ws, Seq::empty()) == ws,
{
}

/// The search ignores letter case: two searches with the same lower-case form show the
/// same windows.
pub proof fn law_search_ignores_case(ws: Seq<WindowModel>, a: Seq<char>, b: Seq<char>)
    requires
        a.len() > 0,
        b.len() > 0,
        lowercased(a) == lowercased(b),
    ensures
        filtered_view(ws, a) == filtered_view(ws, b),
{
}

/// The filter decides window by window and keeps the order: a single window is kept
/// exactly when its lowered search text (title, process name, process id and class name,
/// separated by spaces) contains the needle, and filtering two lists one after the other
/// gives the two filtered lists one after the other.
pub proof fn law_filter_is_per_window(
    w: WindowModel,
    a: Seq<WindowModel>,
    b: Seq<WindowModel>,
    needle: Seq<char>,
)
    ensures
        windows_matching(seq![w], needle) == (if has_substring(
            lowercased(
                w.title + seq![' '] + w.process_name + seq![' '] + decimal(w.pid as nat)
                    + seq![' '] + w.class_name,
            ),
            needle,
        ) {
            seq![w]
        } else {
            Seq::<WindowModel>::empty()
        }),
        windows_matching(a + b, needle) == windows_matching(a, needle) + windows_matching(
            b,
            needle,
        ),
    decreases b.len(),
{
    assert(seq![w].drop_last() =~= Seq::<WindowModel>::empty());
    assert(seq![w].last() == w);
    assert(windows_matching(Seq::<WindowModel>::empty(), needle) == Seq::<WindowModel>::empty());
    assert(Seq::<WindowModel>::empty().push(w) =~= seq![w]);
    assert(windows_matching(seq![w], needle) == (if matches_search(w, needle) {
        Seq::<WindowModel>::empty().push(w)
    } else {
        Seq::<WindowModel>::empty()
    }));
    if b.len() == 0 {
        assert(a + b =~= a);
        assert(windows_matching(a, needle) + Seq::<WindowModel>::empty() =~= windows_matching(
            a,
            needle,
        ));
    } else {
        law_filter_is_per_window(w, a, b.drop_last(), needle);
        assert((a + b).drop_last() =~= a + b.drop_last());
        assert((a + b).last() == b.last());
        let x = windows_matching(a, needle);
        let y = windows_matching(b.drop_last(), needle);
        assert((x + y).push(b.last()) =~= x + y.push(b.last()));
    }
}

/// For an ASCII search, raising its letters shows the same windows: both searches lower to
/// the same text. With `apply_filter`'s contract, a search and its upper-case form filter alike.
pub proof fn law_ascii_search_ignores_case(ws: Seq<WindowModel>, s: Seq<char>)
    requires
        is_ascii_text(s),
    ensures
        is_ascii_text(ascii_upper(s)),
        ascii_upper(s).len() == s.len(),
        ascii_lower(ascii_upper(s)) == ascii_lower(s),
        windows_matching(ws, ascii_lower(ascii_upper(s))) == windows_matching(ws, ascii_lower(s)),
{
    let u = ascii_upper(s);
    assert forall|i: int| 0 <= i < u.len() implies (#[trigger] u[i] as int) < 128 by {
        assert((s[i] as int) < 128);
    }
    assert(ascii_lower(u) =~= ascii_lower(s));
}

/// A needle occurring in a text that occurs in `t` occurs in `t`.
proof fn lemma_substring_of_substring(t: Seq<char>, b: Seq<char>, a: Seq<char>)
    requires
        has_substring(t, b),
        has_substring(b, a),
    ensures
        has_substring(t, a),
{
    let i = choose|i: int| occurs_at(t, b, i);
    let j = choose|j: int| occurs_at(b, a, j);
    assert(t.subrange(i + j, i + j + a.len()) =~= b.subrange(j, j + a.len())) by {
        assert(t.subrange(i, i + b.len()) == b);
        assert forall|k: int| 0 <= k < a.len() implies #[trigger] t.subrange(i + j, i + j + a.len())[k]
            == b.subrange(j, j + a.len())[k] by {
            assert(t[i + j + k] == t.subrange(i, i + b.len())[j + k]);
        }
    }
    assert(occurs_at(t, a, i + j));
}

/// Searching for more only narrows the list: when needle `b` contains needle `a`, the windows
/// matching `b` are those of the windows matching `a` that also match `b`, in the same order.
pub proof fn law_longer_needle_narrows(ws: Seq<WindowModel>, a: Seq<char>, b: Seq<char>)
    requires
        has_substring(b, a),
    ensures
        windows_matching(ws, b) == windows_matching(windows_matching(ws, a), b),
    decreases ws.len(),
{
    if ws.len() > 0 {
        let init = ws.drop_last();
        let l = ws.last();
        law_longer_needle_narrows(init, a, b);
        let x = windows_matching(init, a);
        if matches_search(l, a) {
            assert(x.push(l).drop_last() =~= x);
            assert(x.push(l).last() == l);
        } else if matches_search(l, b) {
            lemma_substring_of_substring(lowercased(search_source(l)), b, a);
        }
    }
}

/// Typing more only narrows the shown list: when the lowered longer search contains the
/// lowered shorter one (or the shorter one is empty), the windows shown for the longer one
/// are those shown for the shorter one that also match it, in the same order.
pub proof fn law_longer_search_narrows(ws: Seq<WindowModel>, a: Seq<char>, b: Seq<char>)
    requires
        b.len() > 0,
        a.len() == 0 || has_substring(lowercased(b), lowercased(a)),
    ensures
        filtered_view(ws, b) == windows_matching(filtered_view(ws, a), lowercased(b)),
{
    if a.len() > 0 {
        law_longer_needle_narrows(ws, lowercased(a), lowercased(b));
    }
}

/// The matching windows are exactly the windows whose lowered search text (title, process
/// name, process id and class name, separated by spaces) contains the needle, none added,
/// none lost, and never more than there are.
pub proof fn law_matching_windows_are_exact(ws: Seq<WindowModel>, needle: Seq<char>)
    ensures
        forall|w: WindowModel| #[trigger]
            windows_matching(ws, needle).contains(w) <==> ws.contains(w) && has_substring(
                lowercased(
                    w.title + seq![' '] + w.process_name + seq![' '] + decimal(w.pid as nat)
                        + seq![' '] + w.class_name,
                ),
                needle,
            ),
        windows_matching(ws, needle).len() <= ws.len(),
    decreases ws.len(),
{
    if ws.len() > 0 {
        let init = ws.drop_last();
        law_matching_windows_are_exact(init, needle);
        let rest = windows_matching(init, needle);
        assert forall|w: WindowModel| #[trigger]
            windows_matching(ws, needle).contains(w) <==> ws.contains(w) && has_substring(
                lowercased(
                    w.title + seq![' '] + w.process_name + seq![' '] + decimal(w.pid as nat)
                        + seq![' '] + w.class_name,
                ),
                needle,
            ) by {
            if ws.contains(w) {
                let k = choose|k: int| 0 <= k < ws.len() && ws[k] == w;
                if k < ws.len() - 1 {
                    assert(init[k] == w);
                }
            }
            if init.contains(w) {
                let k = choose|k: int| 0 <= k < init.len() && init[k] == w;
                assert(ws[k] == w);
            }
            if matches_search(ws.last(), needle) {
                assert(rest.push(ws.last())[rest.len() as int] == ws.last());
                if rest.push(ws.last()).contains(w) {
                    let k = choose|k: int| 0 <= k < rest.len() + 1 && rest.push(ws.last())[k] == w;
                    if k < rest.len() {
                        assert(rest[k] == w);
                    }
                }
                if rest.contains(w) {
                    let k = choose|k: int| 0 <= k < rest.len() && rest[k] == w;
                    assert(rest.push(ws.last())[k] == w);
                }
            }
        }
    }
}

} // verus!
