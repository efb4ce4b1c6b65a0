//! Pressed-and-released edge detection for the pause key.

use vstd::prelude::*;

verus! {

pub struct Pause {
    /// Whether the pause key was down at the previous tick.
    pub prev: bool,
}

impl Pause {
    pub fn new() -> (p: Pause)
        ensures
            !p.prev,
    {
        Pause { prev: false }
    }

    /// True exactly when the key was down last tick and is released now.
    pub fn toggle_pause(&mut self, now: bool) -> (r: bool)
        ensures
            r == (old(self).prev && !now),
            final(self).prev == now,
    {
        let r = self.prev && !now;
        self.prev = now;
        r
    }
}

} // verus!
