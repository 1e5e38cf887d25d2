//! The texts the finder puts on the clipboard.
use vstd::prelude::*;

use crate::text::{decimal, hex_upper, push_decimal, push_hex_padded, zero_pad};

verus! {

/// A handle as the clipboard gets it: `0x` and at least eight upper-case hex digits of the
/// handle's bits taken as an unsigned number.
pub open spec fn handle_text(hwnd: isize) -> Seq<char> {
    "0x"@ + zero_pad(hex_upper((hwnd as usize) as nat), 8)
}

/// The full description of a window, one field per line.
pub open spec fn full_info_text(
    hwnd: isize,
    title: Seq<char>,
    class_name: Seq<char>,
    pid: u32,
    process_name: Seq<char>,
) -> Seq<char> {
    "Handle: "@ + handle_text(hwnd) + "\nTitle: "@ + title + "\nClass: "@ + class_name
        + "\nPID: "@ + decimal(pid as nat) + "\nProcess: "@ + process_name
}

/// The texts for copying window information.
pub struct ClipboardHelper;

impl ClipboardHelper {
    /// The text that copying a window handle puts on the clipboard.
    pub fn copy_handle(hwnd: isize) -> (r: String)
        ensures
            r@ == handle_text(hwnd),
    {
        let mut s = String::from_str("0x");
        push_hex_padded(&mut s, (hwnd as usize) as u64, 8);
        s
    }

    /// The text that copying the full information of a window puts on the clipboard.
    pub fn copy_full_info(hwnd: isize, title: &str, class_name: &str, pid: u32, process_name: &str) -> (r:
        String)
        ensures
            r@ == full_info_text(hwnd, title@, class_name@, pid, process_name@),
    {
        let mut s = String::from_str("Handle: ");
        let handle = Self::copy_handle(hwnd);
        s.append(handle.as_str());
        s.append("\nTitle: ");
        s.append(title);
        s.append("\nClass: ");
        s.append(class_name);
        s.append("\nPID: ");
        push_decimal(&mut s, pid as u64);
        s.append("\nProcess: ");
        s.append(process_name);
        assert(s@ =~= full_info_text(hwnd, title@, class_name@, pid, process_name@));
        s
    }
}

} // verus!
