//! The global locate hotkey: key names, virtual-key codes and the decisions around
//! registering the hotkey and recognising its message.
use vstd::prelude::*;

use crate::text::{
    ascii_upper, char_vec, decimal, digit_char, digit_value, is_ascii_text, push_char,
    push_decimal, to_uppercase, uppercased,
};

verus! {

/// The id under which the hotkey is registered.
pub const HOTKEY_ID: u32 = 0x0001;

/// The window message that reports a hotkey press.
pub const WM_HOTKEY: u32 = 0x0312;

/// The virtual-key code of F1; F1 to F12 follow it.
pub const VK_F1: u32 = 0x70;

/// The virtual-key code of F8, the default hotkey.
pub const VK_F8: u32 = 0x77;

/// A virtual-key code the hotkey can use: F1 to F12, or A to Z.
pub open spec fn is_hotkey_vk(vk: u32) -> bool {
    (0x70 <= vk && vk <= 0x7B) || (0x41 <= vk && vk <= 0x5A)
}

/// The number of the function key named by the text after `F`: exactly `1` to `12`,
/// with no sign and no leading zero.
pub open spec fn function_key_number(rest: Seq<char>) -> Option<nat> {
    if rest.len() == 1 && '1' <= rest[0] && rest[0] <= '9' {
        Some(digit_value(rest[0]))
    } else if rest.len() == 2 && rest[0] == '1' && '0' <= rest[1] && rest[1] <= '2' {
        Some(10 + digit_value(rest[1]))
    } else {
        None
    }
}

/// The key of a single upper-case letter A to Z, whose code is the letter's.
pub open spec fn letter_key(u: Seq<char>) -> Option<u32> {
    if u.len() == 1 && 'A' <= u[0] && u[0] <= 'Z' {
        Some(u[0] as u32)
    } else {
        None
    }
}

/// The virtual-key code an upper-cased key name stands for: exactly `F1` to `F12`, or a
/// single letter `A` to `Z`; any other name stands for none.
pub open spec fn key_code_of_upper(u: Seq<char>) -> Option<u32> {
    if u.len() > 1 && u[0] == 'F' {
        match function_key_number(u.drop_first()) {
            Some(n) => Some((0x70 + n - 1) as u32),
            None => None,
        }
    } else {
        letter_key(u)
    }
}

/// The virtual-key code a key name stands for, in any letter case.
pub open spec fn key_code_of(name: Seq<char>) -> Option<u32> {
    key_code_of_upper(uppercased(name))
}

/// The name shown for a virtual-key code: `F1` to `F12`, a letter, or `F8` for any other code.
pub open spec fn key_name(vk: u32) -> Seq<char> {
    if 0x70 <= vk && vk <= 0x7B {
        seq!['F'] + decimal((vk - 0x70 + 1) as nat)
    } else if 0x41 <= vk && vk <= 0x5A {
        seq![(vk as u8) as char]
    } else {
        "F8"@
    }
}

/// The key name and code after the default hotkey was or was not registered.
pub open spec fn setup_outcome(registered: bool) -> (Seq<char>, u32) {
    if registered {
        ("F8"@, VK_F8)
    } else {
        ("F8(失败)"@, 0)
    }
}

/// The virtual-key code of an upper-cased key name: exactly `F1` to `F12`, or a single
/// letter `A` to `Z`.
pub fn key_code_of_upper_text(u: &str) -> (r: Option<u32>)
    ensures
        r == key_code_of_upper(u@),
        r matches Some(vk) ==> is_hotkey_vk(vk),
{
    let v = char_vec(u);
    if v.len() > 1 && v[0] == 'F' {
        proof {
            let rest = v@.drop_first();
            assert(rest.len() == v@.len() - 1);
            if rest.len() >= 1 {
                assert(rest[0] == v@[1]);
            }
            if rest.len() >= 2 {
                assert(rest[1] == v@[2]);
            }
        }
        if v.len() == 2 && v[1] >= '1' && v[1] <= '9' {
            let d = v[1] as u32 - '0' as u32;
            return Some(0x70 + d - 1);
        }
        if v.len() == 3 && v[1] == '1' && v[2] >= '0' && v[2] <= '2' {
            let d = v[2] as u32 - '0' as u32;
            return Some(0x70 + 10 + d - 1);
        }
        return None;
    }
    if v.len() == 1 {
        let c = v[0];
        if c >= 'A' && c <= 'Z' {
            return Some(c as u32);
        }
    }
    None
}

/// The virtual-key code of a key name: `F1` to `F12` or a letter `A` to `Z`, in any case.
pub fn parse_hotkey(key: &str) -> (r: Option<u32>)
    ensures
        r == key_code_of(key@),
        is_ascii_text(key@) ==> r == key_code_of_upper(ascii_upper(key@)),
        r matches Some(vk) ==> is_hotkey_vk(vk),
{
    let upper = to_uppercase(key);
    key_code_of_upper_text(upper.as_str())
}

/// The name shown for a virtual-key code.
pub fn vk_to_string(vk: u32) -> (r: String)
    ensures
        r@ == key_name(vk),
{
    if vk >= 0x70 && vk <= 0x7B {
        let mut s = String::from_str("F");
        push_decimal(&mut s, (vk - 0x70 + 1) as u64);
        proof {
            reveal_strlit("F");
        }
        assert(s@ =~= key_name(vk));
        return s;
    }
    if vk >= 0x41 && vk <= 0x5A {
        let mut s = String::new();
        push_char(&mut s, (vk as u8) as char);
        assert(s@ =~= key_name(vk));
        return s;
    }
    String::from_str("F8")
}

/// The key name and code to keep after trying to register the default hotkey.
pub fn hotkey_setup_outcome(registered: bool) -> (r: (String, u32))
    ensures
        (r.0@, r.1) == setup_outcome(registered),
{
    if registered {
        (String::from_str("F8"), VK_F8)
    } else {
        (String::from_str("F8(失败)"), 0)
    }
}

/// Whether a window message is the press of the locate hotkey.
pub fn is_hotkey_message(msg: u32, wparam: usize) -> (r: bool)
    ensures
        r == (msg == WM_HOTKEY && wparam == HOTKEY_ID as usize),
{
    msg == WM_HOTKEY && wparam == HOTKEY_ID as usize
}

/// A name stands for a code only when it is exactly that code's name: no other spelling,
/// sign or leading zero is read as a key.
pub proof fn law_only_key_names_are_read(u: Seq<char>)
    ensures
        key_code_of_upper(u) matches Some(vk) ==> is_hotkey_vk(vk) && u == key_name(vk),
{
    if key_code_of_upper(u) is Some {
        let vk = key_code_of_upper(u)->0;
        if u.len() > 1 && u[0] == 'F' {
            let rest = u.drop_first();
            let n = function_key_number(rest)->0;
            if rest.len() == 1 {
                assert(decimal(n) =~= seq![digit_char(n)]);
                assert(digit_char(n) == rest[0]);
                assert(u =~= seq!['F'] + decimal(n));
            } else {
                let c = digit_char((n % 10) as nat);
                assert(decimal(n / 10) =~= seq!['1']);
                assert(decimal(n) =~= seq!['1', c]);
                assert(c == rest[1]);
                assert(u =~= seq!['F'] + decimal(n));
            }
        } else {
            assert(((vk as u8) as char) == u[0]);
            assert(u =~= seq![u[0]]);
        }
    }
}

/// Every hotkey name is ASCII upper case and reads back as its own code; with
/// `parse_hotkey`'s contract, `parse_hotkey(vk_to_string(vk))` gives `vk` back.
pub proof fn law_key_name_round_trip(vk: u32)
    requires
        is_hotkey_vk(vk),
    ensures
        is_ascii_text(key_name(vk)),
        ascii_upper(key_name(vk)) == key_name(vk),
        key_code_of_upper(key_name(vk)) == Some(vk),
{
    let name = key_name(vk);
    if 0x70 <= vk && vk <= 0x7B {
        let n = (vk - 0x70 + 1) as nat;
        if n < 10 {
            let c = digit_char(n);
            assert(decimal(n) =~= seq![c]);
            assert(name =~= seq!['F', c]);
            assert(name.drop_first() =~= seq![c]);
        } else {
            let c = digit_char((n % 10) as nat);
            assert(decimal(n / 10) =~= seq!['1']);
            assert(decimal(n) =~= seq!['1', c]);
            assert(name =~= seq!['F', '1', c]);
            assert(name.drop_first() =~= seq!['1', c]);
        }
    } else {
        let c = (vk as u8) as char;
        assert(name =~= seq![c]);
        assert(c as u32 == vk);
    }
    assert(ascii_upper(name) =~= name);
}

} // verus!
