//! Whether the finder is locating a window under the mouse.
use vstd::prelude::*;

verus! {

/// The locate mode: while it is active, the window under the cursor can be picked.
#[derive(Clone, Copy)]
pub struct LocateMode {
    active: bool,
}

impl View for LocateMode {
    type V = bool;

    /// Whether the mode is active.
    closed spec fn view(&self) -> bool {
        self.active
    }
}

impl LocateMode {
    /// An inactive locate mode.
    pub fn new() -> (r: Self)
        ensures
            !r@,
    {
        LocateMode { active: false }
    }

    /// Enters the locate mode.
    pub fn start(&mut self)
        ensures
            final(self)@,
    {
        self.active = true;
    }

    /// Leaves the locate mode.
    pub fn stop(&mut self)
        ensures
            !final(self)@,
    {
        self.active = false;
    }

    /// Whether the locate mode is active.
    pub fn is_active(&self) -> (r: bool)
        ensures
            r == self@,
    {
        self.active
    }
}

impl Default for LocateMode {
    /// An inactive locate mode.
    fn default() -> (r: Self)
        ensures
            !r@,
    {
        Self::new()
    }
}

} // verus!
