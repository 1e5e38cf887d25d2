//! The command-line query: reading `--class`, finding the window, and the JSON answer.
use vstd::prelude::*;

use crate::text::{
    char_vec, decimal, has_prefix, push_char, push_decimal, push_signed_decimal, signed_decimal,
    starts_with_text, text_of_chars,
};
use crate::ui::tree_helper::{Lookup, WindowQuery, first_match_from, find_first_window};
use crate::window_info::{WindowInfo, WindowModel, models};

verus! {

/// The class named by `--class=NAME`: everything after `--class=`.
pub open spec fn inline_class(arg: Seq<char>) -> Seq<char> {
    arg.skip(8)
}

/// The class the arguments `args[i..]` ask for: the first `--class=NAME` with a non-empty
/// name, or `--class NAME` with a non-empty `NAME`, whichever comes first.
pub open spec fn class_arg_from(args: Seq<Seq<char>>, i: int) -> Option<Seq<char>>
    decreases args.len() - i,
{
    if i < 0 || i >= args.len() {
        None
    } else if has_prefix(args[i], "--class="@) && inline_class(args[i]).len() > 0 {
        Some(inline_class(args[i]))
    } else if args[i] == "--class"@ && i + 1 < args.len() && args[i + 1].len() > 0 {
        Some(args[i + 1])
    } else {
        class_arg_from(args, i + 1)
    }
}

/// Argument `k` names the class `c`: it is `--class=` followed by `c`, or it is `--class`
/// and the next argument is `c`.
pub open spec fn names_class(args: Seq<Seq<char>>, k: int, c: Seq<char>) -> bool {
    ||| has_prefix(args[k], "--class="@) && args[k].skip(8) == c
    ||| args[k] == "--class"@ && k + 1 < args.len() && args[k + 1] == c
}

/// The class read from the arguments is a non-empty class that some argument from `i` on
/// names; nothing is read exactly when no argument from `i` on names a non-empty class.
pub proof fn law_class_arg_is_named_by_an_argument(args: Seq<Seq<char>>, i: int)
    requires
        0 <= i,
    ensures
        class_arg_from(args, i) matches Some(c) ==> c.len() > 0 && exists|k: int|
            i <= k < args.len() && #[trigger] names_class(args, k, c),
        class_arg_from(args, i) is None <==> forall|k: int, c: Seq<char>|
            i <= k < args.len() && #[trigger] names_class(args, k, c) ==> c.len() == 0,
    decreases args.len() - i,
{
    if i < args.len() {
        law_class_arg_is_named_by_an_argument(args, i + 1);
        if has_prefix(args[i], "--class="@) && inline_class(args[i]).len() > 0 {
            assert(names_class(args, i, inline_class(args[i])));
            assert(class_arg_from(args, i) == Some(inline_class(args[i])));
        } else if args[i] == "--class"@ && i + 1 < args.len() && args[i + 1].len() > 0 {
            assert(names_class(args, i, args[i + 1]));
            assert(class_arg_from(args, i) == Some(args[i + 1]));
        } else {
            assert(class_arg_from(args, i) == class_arg_from(args, i + 1));
            assert forall|k: int, c: Seq<char>|
                i <= k < args.len() && #[trigger] names_class(args, k, c) && k == i implies c.len()
                == 0 by {}
            if class_arg_from(args, i + 1) is None {
                assert forall|k: int, c: Seq<char>|
                    i <= k < args.len() && #[trigger] names_class(args, k, c) implies c.len()
                    == 0 by {
                    if k > i {
                        assert(i + 1 <= k);
                    }
                }
            }
            match class_arg_from(args, i + 1) {
                Some(c) => {
                    let k = choose|k: int| i + 1 <= k < args.len() && #[trigger] names_class(args, k, c);
                    assert(i <= k < args.len() && names_class(args, k, c));
                },
                None => {},
            }
        }
    }
}

/// The texts of the command-line arguments.
pub open spec fn arg_texts(args: Seq<String>) -> Seq<Seq<char>> {
    args.map_values(|a: String| a@)
}

/// How one character is written inside a JSON string.
pub open spec fn escape_char(c: char) -> Seq<char> {
    if c == '\\' {
        seq!['\\', '\\']
    } else if c == '"' {
        seq!['\\', '"']
    } else if c == '\n' {
        seq!['\\', 'n']
    } else if c == '\r' {
        seq!['\\', 'r']
    } else if c == '\t' {
        seq!['\\', 't']
    } else {
        seq![c]
    }
}

/// A text with backslash, quote, newline, carriage return and tab escaped for JSON.
pub open spec fn json_escape(s: Seq<char>) -> Seq<char>
    decreases s.len(),
{
    if s.len() == 0 {
        Seq::empty()
    } else {
        json_escape(s.drop_last()) + escape_char(s.last())
    }
}

/// The character a JSON escape letter stands for.
pub open spec fn unescaped_char(c: char) -> char {
    if c == 'n' {
        '\n'
    } else if c == 'r' {
        '\r'
    } else if c == 't' {
        '\t'
    } else {
        c
    }
}

/// The text a JSON string body stands for, reading `\\`, `\"`, `\n`, `\r` and `\t`.
pub open spec fn json_unescape(s: Seq<char>) -> Seq<char>
    decreases s.len(),
{
    if s.len() == 0 {
        Seq::empty()
    } else if s[0] == '\\' && s.len() >= 2 {
        seq![unescaped_char(s[1])] + json_unescape(s.skip(2))
    } else {
        seq![s[0]] + json_unescape(s.drop_first())
    }
}

/// The one-line JSON description of a window.
pub open spec fn window_json(w: WindowModel) -> Seq<char> {
    "{\"hwnd\": "@ + signed_decimal(w.hwnd as int) + ", \"title\": \""@ + json_escape(w.title)
        + "\", \"class_name\": \""@ + json_escape(w.class_name) + "\", \"pid\": "@ + decimal(
        w.pid as nat,
    ) + ", \"process_name\": \""@ + json_escape(w.process_name) + "\"}"@
}

/// What the query prints: the JSON of the first window with the class, or `null`.
pub open spec fn query_answer(ws: Seq<WindowModel>, class_name: Seq<char>) -> Seq<char> {
    match first_class_match(ws, class_name) {
        Some(w) => window_json(w),
        None => "null"@,
    }
}

/// The first window, in depth-first pre-order, with exactly the class name `class_name`.
pub open spec fn first_class_match(ws: Seq<WindowModel>, class_name: Seq<char>) -> Option<
    WindowModel,
> {
    first_match_from(ws, 0, Lookup::Class(class_name))
}

/// Escaping a text and reading it back gives the text again.
pub proof fn law_escape_round_trip(s: Seq<char>)
    ensures
        json_unescape(json_escape(s)) == s,
    decreases s.len(),
{
    if s.len() > 0 {
        lemma_escape_front(s);
        law_escape_round_trip(s.drop_first());
        let e = escape_char(s[0]);
        let rest = json_escape(s.drop_first());
        let all = e + rest;
        if e.len() == 2 {
            assert(all[0] == '\\');
            assert(all.skip(2) =~= rest);
        } else {
            assert(all.drop_first() =~= rest);
        }
        assert(seq![s[0]] + s.drop_first() =~= s);
    }
}

/// Escaping works character by character from the front as well.
proof fn lemma_escape_front(s: Seq<char>)
    requires
        s.len() > 0,
    ensures
        json_escape(s) == escape_char(s[0]) + json_escape(s.drop_first()),
    decreases s.len(),
{
    if s.len() == 1 {
        assert(s.drop_last() =~= Seq::<char>::empty());
        assert(s.drop_first() =~= Seq::<char>::empty());
        assert(s.last() == s[0]);
    } else {
        lemma_escape_front(s.drop_last());
        assert(s.drop_last().drop_first() =~= s.drop_first().drop_last());
        assert(s.drop_last()[0] == s[0]);
        assert(s.drop_first().last() == s.last());
    }
}

/// Appends the JSON escape of `s`.
fn push_escaped(out: &mut String, s: &str)
    ensures
        final(out)@ == old(out)@ + json_escape(s@),
{
    let v = char_vec(s);
    let mut i: usize = 0;
    while i < v.len()
        invariant
            v@ == s@,
            i <= v@.len(),
            out@ == old(out)@ + json_escape(v@.subrange(0, i as int)),
        decreases v@.len() - i,
    {
        let c = v[i];
        if c == '\\' {
            push_char(out, '\\');
            push_char(out, '\\');
        } else if c == '"' {
            push_char(out, '\\');
            push_char(out, '"');
        } else if c == '\n' {
            push_char(out, '\\');
            push_char(out, 'n');
        } else if c == '\r' {
            push_char(out, '\\');
            push_char(out, 'r');
        } else if c == '\t' {
            push_char(out, '\\');
            push_char(out, 't');
        } else {
            push_char(out, c);
        }
        proof {
            assert(v@.subrange(0, i + 1).drop_last() =~= v@.subrange(0, i as int));
            assert(v@.subrange(0, i + 1).last() == c);
        }
        i += 1;
        assert(out@ =~= old(out)@ + json_escape(v@.subrange(0, i as int)));
    }
    assert(v@.subrange(0, v@.len() as int) =~= v@);
}

/// A text with JSON's special characters escaped.
pub fn escape_json(s: &str) -> (r: String)
    ensures
        r@ == json_escape(s@),
{
    let mut out = String::new();
    push_escaped(&mut out, s);
    assert(out@ =~= json_escape(s@));
    out
}

/// The one-line JSON description of a window.
pub fn format_json(win: &WindowInfo) -> (r: String)
    ensures
        r@ == window_json(win@),
{
    let mut s = String::from_str("{\"hwnd\": ");
    push_signed_decimal(&mut s, win.hwnd as i64);
    s.append(", \"title\": \"");
    push_escaped(&mut s, win.title.as_str());
    s.append("\", \"class_name\": \"");
    push_escaped(&mut s, win.class_name.as_str());
    s.append("\", \"pid\": ");
    push_decimal(&mut s, win.pid as u64);
    s.append(", \"process_name\": \"");
    push_escaped(&mut s, win.process_name.as_str());
    s.append("\"}");
    assert(s@ =~= window_json(win@));
    s
}

/// The class name a command line asks for with `--class=NAME` or `--class NAME`
/// (the program name, `args[0]`, is skipped).
pub fn parse_class_arg(args: &[String]) -> (r: Option<String>)
    ensures
        r matches Some(c) ==> class_arg_from(arg_texts(args@), 1) == Some(c@),
        r is None ==> class_arg_from(arg_texts(args@), 1) is None,
{
    let ghost a = arg_texts(args@);
    let mut i: usize = 1;
    if args.len() == 0 {
        return None;
    }
    while i < args.len()
        invariant
            a == arg_texts(args@),
            1 <= i <= args@.len(),
            class_arg_from(a, 1) == class_arg_from(a, i as int),
        decreases args@.len() - i,
    {
        assert(a[i as int] == args@[i as int]@);
        if starts_with_text(args[i].as_str(), "--class=") {
            let class_name = inline_class_text(args[i].as_str());
            if class_name.as_str().unicode_len() > 0 {
                return Some(class_name);
            }
        }
        if args[i].as_str().unicode_len() == 7 && starts_with_text(args[i].as_str(), "--class")
            && i + 1 < args.len() {
            proof {
                reveal_strlit("--class");
                assert(args@[i as int]@.subrange(0, 7) =~= args@[i as int]@);
            }
            assert(a[i + 1] == args@[i + 1]@);
            if args[i + 1].as_str().unicode_len() > 0 {
                return Some(args[i + 1].clone());
            }
        } else {
            proof {
                reveal_strlit("--class");
                if a[i as int] == "--class"@ {
                    assert(a[i as int].subrange(0, 7) =~= a[i as int]);
                }
            }
        }
        i += 1;
    }
    None
}

/// The text after `--class=`.
fn inline_class_text(arg: &str) -> (r: String)
    requires
        has_prefix(arg@, "--class="@),
    ensures
        r@ == inline_class(arg@),
{
    proof {
        reveal_strlit("--class=");
    }
    let v = char_vec(arg);
    let r = text_of_chars(&v, 8, v.len());
    assert(r@ =~= inline_class(arg@));
    r
}

/// The first window, in depth-first pre-order, with exactly the class name `class_name`.
pub fn find_window_by_class(windows: &[WindowInfo], class_name: &str) -> (r: Option<WindowInfo>)
    ensures
        r is Some <==> first_class_match(models(windows@), class_name@) is Some,
        r matches Some(w) ==> Some(w@) == first_class_match(models(windows@), class_name@),
{
    let q = WindowQuery::Class(String::from_str(class_name));
    match find_first_window(windows, &q) {
        Some(w) => Some(w.duplicate()),
        None => None,
    }
}

/// What the query prints for the windows and class name: the JSON of the first window with
/// that class, or `null`.
pub fn query_output(windows: &[WindowInfo], class_name: &str) -> (r: String)
    ensures
        r@ == query_answer(models(windows@), class_name@),
{
    match find_window_by_class(windows, class_name) {
        Some(w) => format_json(&w),
        None => String::from_str("null"),
    }
}

} // verus!
