//! The window tree: lazy loading of child windows, counting, lookup by handle or class,
//! the title path to a window, and the labels the tree view shows.
use vstd::prelude::*;

use crate::text::{decimal, push_decimal};
use crate::window_info::{WindowInfo, WindowModel, models};

verus! {

// ----------------------------------------------------------------------------------------
// Models
// ----------------------------------------------------------------------------------------

/// What is shown in place of an empty title.
pub open spec fn untitled() -> Seq<char> {
    "<无标题>"@
}

/// The title as shown: the placeholder when it is empty.
pub open spec fn shown_title(title: Seq<char>) -> Seq<char> {
    if title.len() == 0 {
        untitled()
    } else {
        title
    }
}

/// The detailed label: `title [process:pid / class]`.
pub open spec fn detail_label(w: WindowModel) -> Seq<char> {
    shown_title(w.title) + " ["@ + w.process_name + ":"@ + decimal(w.pid as nat) + " / "@
        + w.class_name + "]"@
}

/// The short label: `title [class]`.
pub open spec fn simple_label(w: WindowModel) -> Seq<char> {
    shown_title(w.title) + " ["@ + w.class_name + "]"@
}

/// A window after its children have been loaded: a window already loaded stays as it is.
pub open spec fn with_loaded_children(w: WindowModel, children: Seq<WindowModel>) -> WindowModel {
    if w.children_loaded {
        w
    } else {
        WindowModel {
            hwnd: w.hwnd,
            title: w.title,
            class_name: w.class_name,
            pid: w.pid,
            process_name: w.process_name,
            children,
            children_loaded: true,
        }
    }
}

/// The number of windows in the tree rooted at `w`, `w` included.
pub open spec fn tree_size(w: WindowModel) -> nat
    decreases w, 0int,
{
    1 + forest_size_from(w.children, 0)
}

/// The number of windows in the trees rooted at `ws[i..]`.
pub open spec fn forest_size_from(ws: Seq<WindowModel>, i: int) -> nat
    decreases ws, ws.len() - i,
{
    if i < 0 || i >= ws.len() {
        0
    } else {
        tree_size(ws[i]) + forest_size_from(ws, i + 1)
    }
}

/// What a window can be looked up by.
pub enum WindowQuery {
    /// The window with this handle.
    Handle(isize),
    /// A window with exactly this class name.
    Class(String),
}

/// What a lookup looks for, as mathematical values.
pub enum Lookup {
    /// The window with this handle.
    Handle(isize),
    /// A window with exactly this class name.
    Class(Seq<char>),
}

impl View for WindowQuery {
    type V = Lookup;

    open spec fn view(&self) -> Lookup {
        match self {
            WindowQuery::Handle(h) => Lookup::Handle(*h),
            WindowQuery::Class(c) => Lookup::Class(c@),
        }
    }
}

/// The lookup of an optional query.
pub open spec fn lookup_of(q: Option<WindowQuery>) -> Option<Lookup> {
    match q {
        Some(qq) => Some(qq@),
        None => None,
    }
}

/// Whether a window is one that `q` looks for.
pub open spec fn query_holds(w: WindowModel, q: Lookup) -> bool {
    match q {
        Lookup::Handle(h) => w.hwnd == h,
        Lookup::Class(c) => w.class_name == c,
    }
}

/// The first window, in depth-first pre-order over `ws[i..]` and their descendants,
/// that `q` looks for.
pub open spec fn first_match_from(ws: Seq<WindowModel>, i: int, q: Lookup) -> Option<
    WindowModel,
>
    decreases ws, ws.len() - i,
{
    if i < 0 || i >= ws.len() {
        None
    } else if query_holds(ws[i], q) {
        Some(ws[i])
    } else {
        match first_match_from(ws[i].children, 0, q) {
            Some(w) => Some(w),
            None => first_match_from(ws, i + 1, q),
        }
    }
}

/// The shown titles from a root in `ws[i..]` down to the first window with handle `target`
/// (in depth-first pre-order), that window included.
pub open spec fn title_path_from(ws: Seq<WindowModel>, i: int, target: isize) -> Option<
    Seq<Seq<char>>,
>
    decreases ws, ws.len() - i,
{
    if i < 0 || i >= ws.len() {
        None
    } else if ws[i].hwnd == target {
        Some(seq![shown_title(ws[i].title)])
    } else {
        match title_path_from(ws[i].children, 0, target) {
            Some(p) => Some(seq![shown_title(ws[i].title)] + p),
            None => title_path_from(ws, i + 1, target),
        }
    }
}

/// Segments joined by `" > "`.
pub open spec fn join_path(segments: Seq<Seq<char>>) -> Seq<char>
    decreases segments.len(),
{
    if segments.len() == 0 {
        Seq::empty()
    } else if segments.len() == 1 {
        segments[0]
    } else {
        segments[0] + " > "@ + join_path(segments.drop_first())
    }
}

/// The path text of the window with handle `target`: empty when there is none.
pub open spec fn window_path_text(ws: Seq<WindowModel>, target: isize) -> Seq<char> {
    match title_path_from(ws, 0, target) {
        Some(p) => join_path(p),
        None => Seq::empty(),
    }
}

/// Where a search that loads children on the way stands.
pub enum LoadStep {
    /// The window looked for is reached without loading anything more.
    Found,
    /// The window at this path must have its children loaded before the search goes on.
    Load(Seq<int>),
    /// Every window has been visited without a match; nothing more needs loading.
    Exhausted,
}

/// The next step of a depth-first search over `ws[i..]` that loads the children of each window
/// it passes without a match; with no query, every window of the trees is passed.
pub open spec fn next_load_from(ws: Seq<WindowModel>, i: int, q: Option<Lookup>) -> LoadStep
    decreases ws, ws.len() - i,
{
    if i < 0 || i >= ws.len() {
        LoadStep::Exhausted
    } else if q is Some && query_holds(ws[i], q->0) {
        LoadStep::Found
    } else if !ws[i].children_loaded {
        LoadStep::Load(seq![i])
    } else {
        match next_load_from(ws[i].children, 0, q) {
            LoadStep::Found => LoadStep::Found,
            LoadStep::Load(p) => LoadStep::Load(seq![i] + p),
            LoadStep::Exhausted => next_load_from(ws, i + 1, q),
        }
    }
}

/// `path` leads from the list `ws` through child lists to a window.
pub open spec fn valid_path(ws: Seq<WindowModel>, path: Seq<int>) -> bool
    decreases path.len(),
{
    &&& path.len() >= 1
    &&& 0 <= path[0] < ws.len()
    &&& (path.len() == 1 || valid_path(ws[path[0]].children, path.drop_first()))
}

/// A path of list positions, as integers.
pub open spec fn path_ints(path: Seq<usize>) -> Seq<int> {
    path.map_values(|x: usize| x as int)
}

/// The window that `path` leads to.
pub open spec fn node_at(ws: Seq<WindowModel>, path: Seq<int>) -> WindowModel
    decreases path.len(),
{
    if path.len() <= 1 {
        ws[path[0]]
    } else {
        node_at(ws[path[0]].children, path.drop_first())
    }
}

/// The list `ws` after the window at `path` has had its children loaded.
pub open spec fn with_children_at(
    ws: Seq<WindowModel>,
    path: Seq<int>,
    children: Seq<WindowModel>,
) -> Seq<WindowModel>
    decreases path.len(),
{
    if path.len() == 0 {
        ws
    } else {
        let w = ws[path[0]];
        let updated = if path.len() == 1 {
            with_loaded_children(w, children)
        } else {
            WindowModel {
                hwnd: w.hwnd,
                title: w.title,
                class_name: w.class_name,
                pid: w.pid,
                process_name: w.process_name,
                children: with_children_at(w.children, path.drop_first(), children),
                children_loaded: w.children_loaded,
            }
        };
        ws.update(path[0], updated)
    }
}

/// Every window in the trees rooted at `ws[i..]` has its children loaded.
pub open spec fn all_loaded_from(ws: Seq<WindowModel>, i: int) -> bool
    decreases ws, ws.len() - i,
{
    if i < 0 || i >= ws.len() {
        true
    } else {
        ws[i].children_loaded && all_loaded_from(ws[i].children, 0) && all_loaded_from(ws, i + 1)
    }
}

// ----------------------------------------------------------------------------------------
// Facts about the models
// ----------------------------------------------------------------------------------------

/// The model of a record's children is the list of the models of its child records.
proof fn lemma_children_models(w: WindowInfo)
    ensures
        w@.children == models(w.children@),
        w@.children.len() == w.children@.len(),
{
    assert(w@.children =~= models(w.children@));
}

/// A record whose children were replaced has the model with those children.
proof fn lemma_model_with_children(old_w: WindowInfo, new_w: WindowInfo)
    requires
        new_w.hwnd == old_w.hwnd,
        new_w.title@ == old_w.title@,
        new_w.class_name@ == old_w.class_name@,
        new_w.pid == old_w.pid,
        new_w.process_name@ == old_w.process_name@,
    ensures
        new_w@ == (WindowModel {
            hwnd: old_w@.hwnd,
            title: old_w@.title,
            class_name: old_w@.class_name,
            pid: old_w@.pid,
            process_name: old_w@.process_name,
            children: models(new_w.children@),
            children_loaded: new_w.children_loaded,
        }),
{
    lemma_children_models(new_w);
}

/// The placeholder title is not empty.
proof fn lemma_untitled_nonempty()
    ensures
        untitled().len() == 5,
{
    reveal_strlit("<无标题>");
}

/// A title path is never empty.
proof fn lemma_title_path_nonempty(ws: Seq<WindowModel>, i: int, target: isize)
    ensures
        title_path_from(ws, i, target) matches Some(p) ==> p.len() >= 1,
    decreases ws, ws.len() - i,
{
    if 0 <= i < ws.len() && ws[i].hwnd != target {
        lemma_title_path_nonempty(ws[i].children, 0, target);
        lemma_title_path_nonempty(ws, i + 1, target);
    }
}

/// Joining a first segment in front of a non-empty path puts `" > "` between them.
proof fn lemma_join_cons(first: Seq<char>, rest: Seq<Seq<char>>)
    requires
        rest.len() >= 1,
    ensures
        join_path(seq![first] + rest) == first + " > "@ + join_path(rest),
{
    let s = seq![first] + rest;
    assert(s.drop_first() =~= rest);
    assert(s[0] == first);
}

// ----------------------------------------------------------------------------------------
// Laws
// ----------------------------------------------------------------------------------------

/// Loading children is done once: loading a second time changes nothing.
pub proof fn law_load_children_once(w: WindowModel, first: Seq<WindowModel>, second: Seq<WindowModel>)
    ensures
        with_loaded_children(with_loaded_children(w, first), second) == with_loaded_children(
            w,
            first,
        ),
        with_loaded_children(w, first).children_loaded,
{
}

/// A tree has at least one window, and it has children exactly when it has more than one.
pub proof fn law_has_children_iff_more_than_one(w: WindowModel)
    ensures
        tree_size(w) >= 1,
        (w.children.len() > 0) <==> (tree_size(w) > 1),
{
    if w.children.len() > 0 {
        assert(forest_size_from(w.children, 0) == tree_size(w.children[0]) + forest_size_from(
            w.children,
            1,
        ));
    }
}

/// The title path of a handle exists exactly when the lookup by that handle finds a window,
/// and it ends with the shown title of the window found.
pub proof fn law_path_ends_at_found_window(ws: Seq<WindowModel>, i: int, target: isize)
    ensures
        title_path_from(ws, i, target) is Some <==> first_match_from(
            ws,
            i,
            Lookup::Handle(target),
        ) is Some,
        title_path_from(ws, i, target) matches Some(p) ==> p.len() >= 1 && p.last()
            == shown_title(first_match_from(ws, i, Lookup::Handle(target))->0.title),
    decreases ws, ws.len() - i,
{
    lemma_title_path_nonempty(ws, i, target);
    if 0 <= i < ws.len() && ws[i].hwnd != target {
        law_path_ends_at_found_window(ws[i].children, 0, target);
        law_path_ends_at_found_window(ws, i + 1, target);
        lemma_title_path_nonempty(ws[i].children, 0, target);
        match title_path_from(ws[i].children, 0, target) {
            Some(p) => {
                assert((seq![shown_title(ws[i].title)] + p).last() == p.last());
            },
            None => {},
        }
    }
}

/// The path text is non-empty exactly when the lookup by that handle finds a window.
pub proof fn law_path_text_nonempty_iff_found(ws: Seq<WindowModel>, target: isize)
    ensures
        (window_path_text(ws, target).len() > 0) <==> first_match_from(
            ws,
            0,
            Lookup::Handle(target),
        ) is Some,
{
    law_path_ends_at_found_window(ws, 0, target);
    match title_path_from(ws, 0, target) {
        Some(p) => {
            lemma_path_segments_nonempty(ws, 0, target);
            lemma_join_nonempty(p);
        },
        None => {},
    }
}

/// Every segment of a title path is non-empty.
proof fn lemma_path_segments_nonempty(ws: Seq<WindowModel>, i: int, target: isize)
    ensures
        title_path_from(ws, i, target) matches Some(p) ==> forall|k: int|
            0 <= k < p.len() ==> #[trigger] p[k].len() > 0,
    decreases ws, ws.len() - i,
{
    lemma_untitled_nonempty();
    if 0 <= i < ws.len() && ws[i].hwnd != target {
        lemma_path_segments_nonempty(ws[i].children, 0, target);
        lemma_path_segments_nonempty(ws, i + 1, target);
        match title_path_from(ws[i].children, 0, target) {
            Some(p) => {
                let s = seq![shown_title(ws[i].title)] + p;
                assert forall|k: int| 0 <= k < s.len() implies #[trigger] s[k].len() > 0 by {
                    if k > 0 {
                        assert(s[k] == p[k - 1]);
                    }
                }
            },
            None => {},
        }
    }
}

/// Joining non-empty segments, at least one of them, gives a non-empty text.
proof fn lemma_join_nonempty(p: Seq<Seq<char>>)
    requires
        p.len() >= 1,
        forall|k: int| 0 <= k < p.len() ==> #[trigger] p[k].len() > 0,
    ensures
        join_path(p).len() > 0,
{
    assert(p[0].len() > 0);
}

/// The search that loads children on the way agrees with the lookup: when it is done without
/// more loading, it has found a window exactly when the lookup finds one.
pub proof fn law_search_step_agrees_with_lookup(ws: Seq<WindowModel>, i: int, q: Lookup)
    ensures
        next_load_from(ws, i, Some(q)) is Found ==> first_match_from(ws, i, q) is Some,
        next_load_from(ws, i, Some(q)) is Exhausted ==> first_match_from(ws, i, q) is None,
    decreases ws, ws.len() - i,
{
    if 0 <= i < ws.len() && !query_holds(ws[i], q) && ws[i].children_loaded {
        law_search_step_agrees_with_lookup(ws[i].children, 0, q);
        law_search_step_agrees_with_lookup(ws, i + 1, q);
    }
}

/// With no query, the search has nothing more to load exactly when every window is loaded,
/// and it never reports a find.
pub proof fn law_full_load_done_iff_all_loaded(ws: Seq<WindowModel>, i: int)
    ensures
        !(next_load_from(ws, i, None) is Found),
        next_load_from(ws, i, None) is Exhausted <==> all_loaded_from(ws, i),
    decreases ws, ws.len() - i,
{
    if 0 <= i < ws.len() && ws[i].children_loaded {
        law_full_load_done_iff_all_loaded(ws[i].children, 0);
        law_full_load_done_iff_all_loaded(ws, i + 1);
    }
}

/// A path the search asks to load leads to a window whose children are not loaded yet,
/// and loading there marks it loaded.
pub proof fn law_load_step_targets_unloaded(
    ws: Seq<WindowModel>,
    i: int,
    q: Option<Lookup>,
    children: Seq<WindowModel>,
)
    ensures
        next_load_from(ws, i, q) matches LoadStep::Load(p) ==> {
            &&& valid_path(ws, p)
            &&& !node_at(ws, p).children_loaded
            &&& node_at(with_children_at(ws, p, children), p).children_loaded
            &&& node_at(with_children_at(ws, p, children), p).children == children
        },
    decreases ws, ws.len() - i,
{
    if 0 <= i < ws.len() && !(q is Some && query_holds(ws[i], q->0)) {
        if !ws[i].children_loaded {
            let p = seq![i];
            assert(p.len() == 1 && p[0] == i);
        } else {
            law_load_step_targets_unloaded(ws[i].children, 0, q, children);
            law_load_step_targets_unloaded(ws, i + 1, q, children);
            match next_load_from(ws[i].children, 0, q) {
                LoadStep::Load(p) => {
                    let full = seq![i] + p;
                    assert(full.drop_first() =~= p);
                    assert(full[0] == i);
                    lemma_path_len(ws[i].children, p);
                },
                _ => {},
            }
        }
    }
}

/// A valid path is at least one step long.
proof fn lemma_path_len(ws: Seq<WindowModel>, p: Seq<int>)
    ensures
        valid_path(ws, p) ==> p.len() >= 1,
{
}

// ----------------------------------------------------------------------------------------
// What the tree operations are, stated independently of their definitions
// ----------------------------------------------------------------------------------------

/// A window with its child list replaced by `children`.
pub open spec fn with_child_list(w: WindowModel, children: Seq<WindowModel>) -> WindowModel {
    WindowModel {
        hwnd: w.hwnd,
        title: w.title,
        class_name: w.class_name,
        pid: w.pid,
        process_name: w.process_name,
        children,
        children_loaded: w.children_loaded,
    }
}

/// `w` is one of the windows of the trees rooted at `ws[i..]`, roots and descendants.
pub open spec fn in_trees_from(ws: Seq<WindowModel>, i: int, w: WindowModel) -> bool
    decreases ws, ws.len() - i,
{
    if i < 0 || i >= ws.len() {
        false
    } else {
        ws[i] == w || in_trees_from(ws[i].children, 0, w) || in_trees_from(ws, i + 1, w)
    }
}

/// `labels` names, one per window, the windows that `route` passes from a root of `ws` down
/// to a window with handle `target`: each label is that window's title, or `<无标题>` when the
/// title is empty.
pub open spec fn labels_along(
    ws: Seq<WindowModel>,
    route: Seq<int>,
    labels: Seq<Seq<char>>,
    target: isize,
) -> bool {
    &&& valid_path(ws, route)
    &&& node_at(ws, route).hwnd == target
    &&& labels.len() == route.len()
    &&& forall|k: int|
        0 <= k < labels.len() ==> #[trigger] labels[k] == (if node_at(
            ws,
            route.take(k + 1),
        ).title.len() == 0 {
            "<无标题>"@
        } else {
            node_at(ws, route.take(k + 1)).title
        })
}

/// Counting is additive over the windows: a window with no children counts one, a window
/// with one child counts one more than that child's tree, and splitting a child list in two
/// splits the count (the window itself counted once).
pub proof fn law_count_is_additive(w: WindowModel, c: WindowModel, a: Seq<WindowModel>, b: Seq<WindowModel>)
    ensures
        tree_size(with_child_list(w, Seq::empty())) == 1,
        tree_size(with_child_list(w, seq![c])) == 1 + tree_size(c),
        tree_size(with_child_list(w, a + b)) + 1 == tree_size(with_child_list(w, a)) + tree_size(
            with_child_list(w, b),
        ),
{
    assert(forest_size_from(seq![c], 1) == 0);
    lemma_forest_size_concat(a, b, 0);
}

/// The count of a concatenated list is the sum of the counts of its parts.
proof fn lemma_forest_size_concat(a: Seq<WindowModel>, b: Seq<WindowModel>, i: int)
    requires
        0 <= i <= a.len(),
    ensures
        forest_size_from(a + b, i) == forest_size_from(a, i) + forest_size_from(b, 0),
    decreases a.len() - i,
{
    if i < a.len() {
        lemma_forest_size_concat(a, b, i + 1);
        assert((a + b)[i] == a[i]);
    } else {
        lemma_forest_size_suffix(a, b, 0);
    }
}

/// Past its first part, a concatenated list counts as its second part.
proof fn lemma_forest_size_suffix(a: Seq<WindowModel>, b: Seq<WindowModel>, j: int)
    requires
        0 <= j <= b.len(),
    ensures
        forest_size_from(a + b, a.len() + j) == forest_size_from(b, j),
    decreases b.len() - j,
{
    if j < b.len() {
        lemma_forest_size_suffix(a, b, j + 1);
        assert((a + b)[a.len() + j] == b[j]);
    }
}

/// A lookup finds only a window it looks for (the handle is the one asked for; the class
/// name is exactly the one asked for), and that window is in the trees; it finds nothing
/// exactly when no window of the trees is one it looks for.
pub proof fn law_lookup_finds_exactly(ws: Seq<WindowModel>, i: int, q: Lookup)
    ensures
        first_match_from(ws, i, q) matches Some(w) ==> in_trees_from(ws, i, w) && match q {
            Lookup::Handle(h) => w.hwnd == h,
            Lookup::Class(c) => w.class_name == c,
        },
        first_match_from(ws, i, q) is None <==> forall|w: WindowModel|
            #[trigger] in_trees_from(ws, i, w) ==> !match q {
                Lookup::Handle(h) => w.hwnd == h,
                Lookup::Class(c) => w.class_name == c,
            },
    decreases ws, ws.len() - i,
{
    if 0 <= i < ws.len() {
        law_lookup_finds_exactly(ws[i].children, 0, q);
        law_lookup_finds_exactly(ws, i + 1, q);
        assert(in_trees_from(ws, i, ws[i]));
        if first_match_from(ws, i, q) is None {
            assert forall|w: WindowModel| #[trigger] in_trees_from(ws, i, w) implies !match q {
                Lookup::Handle(h) => w.hwnd == h,
                Lookup::Class(c) => w.class_name == c,
            } by {
                if ws[i] == w {
                } else if in_trees_from(ws[i].children, 0, w) {
                } else {
                    assert(in_trees_from(ws, i + 1, w));
                }
            }
        } else {
            match first_match_from(ws, i, q) {
                Some(w) => {
                    assert(in_trees_from(ws, i, w));
                },
                None => {},
            }
        }
        if forall|w: WindowModel| #[trigger] in_trees_from(ws, i, w) ==> !match q {
            Lookup::Handle(h) => w.hwnd == h,
            Lookup::Class(c) => w.class_name == c,
        } {
            assert forall|w: WindowModel| #[trigger] in_trees_from(ws[i].children, 0, w) implies !match q {
                Lookup::Handle(h) => w.hwnd == h,
                Lookup::Class(c) => w.class_name == c,
            } by {
                assert(in_trees_from(ws, i, w));
            }
            assert forall|w: WindowModel| #[trigger] in_trees_from(ws, i + 1, w) implies !match q {
                Lookup::Handle(h) => w.hwnd == h,
                Lookup::Class(c) => w.class_name == c,
            } by {
                assert(in_trees_from(ws, i, w));
            }
        }
    }
}

/// Lookups go in order: over two lists one after the other, the first list's answer wins,
/// and the second list is searched only when the first has no answer.
pub proof fn law_lookup_searches_in_order(a: Seq<WindowModel>, b: Seq<WindowModel>, q: Lookup)
    ensures
        first_match_from(a + b, 0, q) == match first_match_from(a, 0, q) {
            Some(w) => Some(w),
            None => first_match_from(b, 0, q),
        },
{
    lemma_first_match_concat(a, b, 0, q);
}

/// Over a concatenated list, a lookup from `i` in the first part answers as the first part,
/// else as the second part.
proof fn lemma_first_match_concat(a: Seq<WindowModel>, b: Seq<WindowModel>, i: int, q: Lookup)
    requires
        0 <= i <= a.len(),
    ensures
        first_match_from(a + b, i, q) == match first_match_from(a, i, q) {
            Some(w) => Some(w),
            None => first_match_from(b, 0, q),
        },
    decreases a.len() - i,
{
    if i < a.len() {
        lemma_first_match_concat(a, b, i + 1, q);
        assert((a + b)[i] == a[i]);
    } else {
        lemma_first_match_suffix(a, b, 0, q);
    }
}

/// Past its first part, a lookup over a concatenated list answers as over the second part.
proof fn lemma_first_match_suffix(a: Seq<WindowModel>, b: Seq<WindowModel>, j: int, q: Lookup)
    requires
        0 <= j <= b.len(),
    ensures
        first_match_from(a + b, a.len() + j, q) == first_match_from(b, j, q),
    decreases b.len() - j,
{
    if j < b.len() {
        lemma_first_match_suffix(a, b, j + 1, q);
        assert((a + b)[a.len() + j] == b[j]);
    }
}

/// A title path names every window on the way from a root down to a window with the handle:
/// one label per window, each the window's title or `<无标题>` when it is empty.
pub proof fn law_title_path_names_every_window(ws: Seq<WindowModel>, i: int, target: isize)
    ensures
        title_path_from(ws, i, target) matches Some(p) ==> exists|route: Seq<int>|
            labels_along(ws, route, p, target),
{
    if title_path_from(ws, i, target) is Some {
        let route = lemma_route_of_title_path(ws, i, target);
        assert(labels_along(ws, route, title_path_from(ws, i, target)->0, target));
    }
}

/// The route that a title path follows.
proof fn lemma_route_of_title_path(ws: Seq<WindowModel>, i: int, target: isize) -> (route: Seq<int>)
    requires
        title_path_from(ws, i, target) is Some,
    ensures
        labels_along(ws, route, title_path_from(ws, i, target)->0, target),
    decreases ws, ws.len() - i,
{
    if ws[i].hwnd == target {
        let route = seq![i];
        let p = seq![shown_title(ws[i].title)];
        assert(route.take(1) =~= route);
        assert(node_at(ws, route) == ws[i]);
        assert(p[0] == shown_title(ws[i].title));
        assert(labels_along(ws, route, p, target));
        route
    } else if title_path_from(ws[i].children, 0, target) is Some {
        let q = title_path_from(ws[i].children, 0, target)->0;
        let inner = lemma_route_of_title_path(ws[i].children, 0, target);
        let route = seq![i] + inner;
        let p = seq![shown_title(ws[i].title)] + q;
        assert(route.drop_first() =~= inner);
        lemma_path_len(ws[i].children, inner);
        assert forall|k: int| 0 <= k < p.len() implies #[trigger] p[k] == (if node_at(
            ws,
            route.take(k + 1),
        ).title.len() == 0 {
            "<无标题>"@
        } else {
            node_at(ws, route.take(k + 1)).title
        }) by {
            if k == 0 {
                assert(route.take(1) =~= seq![i]);
            } else {
                assert(route.take(k + 1).drop_first() =~= inner.take(k));
                assert(p[k] == q[k - 1]);
            }
        }
        assert(node_at(ws, route) == node_at(ws[i].children, inner));
        assert(valid_path(ws, route));
        assert(labels_along(ws, route, p, target));
        route
    } else {
        lemma_route_of_title_path(ws, i + 1, target)
    }
}

/// Joining path labels: one label is itself, and a label in front of more is followed by
/// `" > "` and the rest.
pub proof fn law_join_separates_with_arrow(first: Seq<char>, rest: Seq<Seq<char>>)
    ensures
        join_path(seq![first]) == first,
        rest.len() >= 1 ==> join_path(seq![first] + rest) == first + " > "@ + join_path(rest),
{
    if rest.len() >= 1 {
        lemma_join_cons(first, rest);
    }
}

// ----------------------------------------------------------------------------------------
// Operations
// ----------------------------------------------------------------------------------------

/// Helpers for the tree view: lazy loading of child windows and walking the window tree.
pub struct TreeHelper;

impl Default for TreeHelper {
    fn default() -> (r: Self)
        ensures
            r == TreeHelper,
    {
        TreeHelper
    }
}

impl TreeHelper {
    /// Stores the child windows of `parent` once: a window whose children are already
    /// loaded is left as it is.
    pub fn load_children(parent: &mut WindowInfo, children: Vec<WindowInfo>)
        ensures
            final(parent)@ == with_loaded_children(old(parent)@, models(children@)),
    {
        if parent.children_loaded {
            return;
        }
        let ghost before = *parent;
        parent.children = children;
        parent.children_loaded = true;
        proof {
            lemma_model_with_children(before, *parent);
        }
    }

    /// The detailed label of a window, used for top-level windows.
    pub fn format_window_detail(win: &WindowInfo) -> (r: String)
        ensures
            r@ == detail_label(win@),
    {
        let mut s = shown_title_text(&win.title);
        s.append(" [");
        s.append(win.process_name.as_str());
        s.append(":");
        push_decimal(&mut s, win.pid as u64);
        s.append(" / ");
        s.append(win.class_name.as_str());
        s.append("]");
        assert(s@ =~= detail_label(win@));
        s
    }

    /// The short label of a window, used for child windows.
    pub fn format_window_simple(win: &WindowInfo) -> (r: String)
        ensures
            r@ == simple_label(win@),
    {
        let mut s = shown_title_text(&win.title);
        s.append(" [");
        s.append(win.class_name.as_str());
        s.append("]");
        assert(s@ =~= simple_label(win@));
        s
    }

    /// The number of windows in the tree rooted at `window` when `include_children` holds,
    /// and one otherwise. Children count as they are loaded.
    pub fn count_window_nodes(window: &WindowInfo, include_children: bool) -> (r: usize)
        requires
            include_children ==> tree_size(window@) <= usize::MAX,
        ensures
            r == (if include_children {
                tree_size(window@)
            } else {
                1
            }),
    {
        if !include_children {
            return 1;
        }
        proof {
            lemma_children_models(*window);
        }
        let rest = count_forest(window.children.as_slice());
        rest + 1
    }

    /// The first window with handle `hwnd`, searching the trees in depth-first pre-order.
    pub fn find_window_by_hwnd<'a>(windows: &'a [WindowInfo], hwnd: isize) -> (r: Option<
        &'a WindowInfo,
    >)
        ensures
            r is Some <==> first_match_from(models(windows@), 0, Lookup::Handle(hwnd)) is Some,
            r matches Some(w) ==> Some(w@) == first_match_from(
                models(windows@),
                0,
                Lookup::Handle(hwnd),
            ),
    {
        let q = WindowQuery::Handle(hwnd);
        find_first_window(windows, &q)
    }

    /// Whether the window has children (as loaded).
    pub fn has_children(window: &WindowInfo) -> (r: bool)
        ensures
            r == (window@.children.len() > 0),
    {
        proof {
            lemma_children_models(*window);
        }
        window.children.len() > 0
    }

    /// The shown titles from a root window down to the first window with handle
    /// `target_hwnd`, joined by `" > "`; empty when there is no such window.
    pub fn get_window_path(windows: &[WindowInfo], target_hwnd: isize) -> (r: String)
        ensures
            r@ == window_path_text(models(windows@), target_hwnd),
    {
        match path_text(windows, target_hwnd) {
            Some(s) => s,
            None => String::new(),
        }
    }

    /// The path of the next window whose children a search must load before it can go on,
    /// if any; with no query, the next window of the trees that is not loaded.
    pub fn pending_load(windows: &[WindowInfo], query: &Option<WindowQuery>) -> (r: Option<
        Vec<usize>,
    >)
        ensures
            r matches Some(p) ==> next_load_from(models(windows@), 0, lookup_of(*query))
                == LoadStep::Load(path_ints(p@)),
            r is None ==> !(next_load_from(models(windows@), 0, lookup_of(*query)) is Load),
            r matches Some(p) ==> valid_path(models(windows@), path_ints(p@)) && !node_at(
                models(windows@),
                path_ints(p@),
            ).children_loaded,
    {
        proof {
            law_load_step_targets_unloaded(models(windows@), 0, lookup_of(*query), Seq::empty());
        }
        match next_load(windows, query) {
            Progress::Load(p) => Some(p),
            _ => None,
        }
    }

    /// The window that `path` leads to.
    pub fn window_at<'a>(windows: &'a [WindowInfo], path: &[usize]) -> (r: &'a WindowInfo)
        requires
            valid_path(models(windows@), path_ints(path@)),
        ensures
            r@ == node_at(models(windows@), path_ints(path@)),
    {
        assert(path_ints(path@).skip(0) =~= path_ints(path@));
        window_at_depth(windows, path, 0)
    }

    /// Stores `children` as the children of the window at `path`, as `load_children` does.
    pub fn load_children_at(windows: &mut Vec<WindowInfo>, path: &[usize], children: Vec<WindowInfo>)
        requires
            valid_path(models(old(windows)@), path_ints(path@)),
        ensures
            models(final(windows)@) == with_children_at(
                models(old(windows)@),
                path_ints(path@),
                models(children@),
            ),
    {
        assert(path_ints(path@).skip(0) =~= path_ints(path@));
        load_at_depth(windows, path, 0, children);
    }
}

/// The shown title as a string.
pub fn shown_title_text(title: &String) -> (r: String)
    ensures
        r@ == shown_title(title@),
{
    if title.as_str().unicode_len() == 0 {
        String::from_str("<无标题>")
    } else {
        title.clone()
    }
}

/// Whether `w` is a window that `q` looks for.
pub fn query_matches(w: &WindowInfo, q: &WindowQuery) -> (r: bool)
    ensures
        r == query_holds(w@, q@),
        r == match q {
            WindowQuery::Handle(h) => w.hwnd == *h,
            WindowQuery::Class(c) => w.class_name@ == c@,
        },
{
    match q {
        WindowQuery::Handle(h) => w.hwnd == *h,
        WindowQuery::Class(c) => w.class_name == *c,
    }
}

/// The number of windows in the trees rooted at `ws`.
fn count_forest(ws: &[WindowInfo]) -> (r: usize)
    requires
        forest_size_from(models(ws@), 0) <= usize::MAX,
    ensures
        r == forest_size_from(models(ws@), 0),
    decreases ws@,
{
    let ghost m = models(ws@);
    let mut total: usize = 0;
    let mut i: usize = 0;
    while i < ws.len()
        invariant
            m == models(ws@),
            i <= ws@.len(),
            total + forest_size_from(m, i as int) == forest_size_from(m, 0),
            forest_size_from(m, 0) <= usize::MAX,
        decreases ws@.len() - i,
    {
        let w = &ws[i];
        proof {
            lemma_children_models(*w);
            assert(m[i as int] == w@);
            assert(forest_size_from(m, i as int) == tree_size(m[i as int]) + forest_size_from(
                m,
                i + 1,
            ));
        }
        let sub = count_forest(w.children.as_slice());
        total = total + sub + 1;
        i += 1;
    }
    total
}

/// The first window in the trees rooted at `ws` that `q` looks for.
pub fn find_first_window<'a>(ws: &'a [WindowInfo], q: &WindowQuery) -> (r: Option<&'a WindowInfo>)
    ensures
        r is Some <==> first_match_from(models(ws@), 0, q@) is Some,
        r matches Some(w) ==> Some(w@) == first_match_from(models(ws@), 0, q@),
    decreases ws@,
{
    let ghost m = models(ws@);
    let mut i: usize = 0;
    while i < ws.len()
        invariant
            m == models(ws@),
            i <= ws@.len(),
            first_match_from(m, 0, q@) == first_match_from(m, i as int, q@),
        decreases ws@.len() - i,
    {
        let w = &ws[i];
        proof {
            lemma_children_models(*w);
            assert(m[i as int] == w@);
        }
        if query_matches(w, q) {
            return Some(w);
        }
        let found = find_first_window(w.children.as_slice(), q);
        if found.is_some() {
            return found;
        }
        i += 1;
    }
    None
}

/// The joined title path to the first window with handle `target` in the trees rooted at `ws`.
fn path_text(ws: &[WindowInfo], target: isize) -> (r: Option<String>)
    ensures
        title_path_from(models(ws@), 0, target) matches Some(p) ==> r matches Some(s) && s@
            == join_path(p),
        title_path_from(models(ws@), 0, target) is None ==> r is None,
    decreases ws@,
{
    let ghost m = models(ws@);
    let mut i: usize = 0;
    while i < ws.len()
        invariant
            m == models(ws@),
            i <= ws@.len(),
            title_path_from(m, 0, target) == title_path_from(m, i as int, target),
        decreases ws@.len() - i,
    {
        let w = &ws[i];
        proof {
            lemma_children_models(*w);
            assert(m[i as int] == w@);
        }
        if w.hwnd == target {
            let s = shown_title_text(&w.title);
            return Some(s);
        }
        match path_text(w.children.as_slice(), target) {
            Some(rest) => {
                let mut s = shown_title_text(&w.title);
                s.append(" > ");
                s.append(rest.as_str());
                proof {
                    let p = title_path_from(m[i as int].children, 0, target)->0;
                    lemma_title_path_nonempty(m[i as int].children, 0, target);
                    lemma_join_cons(shown_title(w@.title), p);
                }
                return Some(s);
            },
            None => {},
        }
        i += 1;
    }
    None
}

/// An executable form of `LoadStep`.
enum Progress {
    Found,
    Load(Vec<usize>),
    Exhausted,
}

/// The next step of the loading search over the trees rooted at `ws`.
fn next_load(ws: &[WindowInfo], q: &Option<WindowQuery>) -> (r: Progress)
    ensures
        match r {
            Progress::Found => next_load_from(models(ws@), 0, lookup_of(*q)) is Found,
            Progress::Load(p) => next_load_from(models(ws@), 0, lookup_of(*q)) == LoadStep::Load(
                path_ints(p@),
            ),
            Progress::Exhausted => next_load_from(models(ws@), 0, lookup_of(*q)) is Exhausted,
        },
    decreases ws@,
{
    let ghost m = models(ws@);
    let mut i: usize = 0;
    while i < ws.len()
        invariant
            m == models(ws@),
            i <= ws@.len(),
            next_load_from(m, 0, lookup_of(*q)) == next_load_from(m, i as int, lookup_of(*q)),
        decreases ws@.len() - i,
    {
        let w = &ws[i];
        proof {
            lemma_children_models(*w);
            assert(m[i as int] == w@);
        }
        let hit = match q {
            Some(qq) => query_matches(w, qq),
            None => false,
        };
        if hit {
            return Progress::Found;
        }
        if !w.children_loaded {
            let mut p: Vec<usize> = Vec::new();
            p.push(i);
            assert(path_ints(p@) =~= seq![i as int]);
            return Progress::Load(p);
        }
        match next_load(w.children.as_slice(), q) {
            Progress::Found => {
                return Progress::Found;
            },
            Progress::Load(rest) => {
                let mut p = rest;
                let ghost old_p = path_ints(p@);
                p.insert(0, i);
                assert(path_ints(p@) =~= seq![i as int] + old_p);
                return Progress::Load(p);
            },
            Progress::Exhausted => {},
        }
        i += 1;
    }
    Progress::Exhausted
}

/// The window reached by following `path[depth..]` from `ws`.
fn window_at_depth<'a>(ws: &'a [WindowInfo], path: &[usize], depth: usize) -> (r: &'a WindowInfo)
    requires
        depth < path@.len(),
        valid_path(models(ws@), path_ints(path@).skip(depth as int)),
    ensures
        r@ == node_at(models(ws@), path_ints(path@).skip(depth as int)),
    decreases path@.len() - depth,
{
    let ghost rest = path_ints(path@).skip(depth as int);
    let i = path[depth];
    assert(rest[0] == i);
    let w = &ws[i];
    proof {
        lemma_children_models(*w);
        assert(models(ws@)[i as int] == w@);
    }
    if depth + 1 == path.len() {
        w
    } else {
        assert(rest.drop_first() =~= path_ints(path@).skip(depth + 1));
        window_at_depth(w.children.as_slice(), path, depth + 1)
    }
}

/// Loads `children` into the window reached by following `path[depth..]` from `ws`.
fn load_at_depth(ws: &mut Vec<WindowInfo>, path: &[usize], depth: usize, children: Vec<WindowInfo>)
    requires
        depth < path@.len(),
        valid_path(models(old(ws)@), path_ints(path@).skip(depth as int)),
    ensures
        models(final(ws)@) == with_children_at(
            models(old(ws)@),
            path_ints(path@).skip(depth as int),
            models(children@),
        ),
    decreases path@.len() - depth,
{
    let ghost rest = path_ints(path@).skip(depth as int);
    let ghost before = models(ws@);
    let i = path[depth];
    assert(rest[0] == i);
    proof {
        lemma_children_models(ws@[i as int]);
    }
    if depth + 1 == path.len() {
        TreeHelper::load_children(&mut ws[i], children);
    } else {
        assert(rest.drop_first() =~= path_ints(path@).skip(depth + 1));
        let ghost old_w = ws@[i as int];
        load_at_depth(&mut ws[i].children, path, depth + 1, children);
        proof {
            lemma_model_with_children(old_w, ws@[i as int]);
        }
    }
    assert(models(ws@) =~= with_children_at(before, rest, models(children@)));
}

} // verus!
