//! The shared state record: the most recent pointer position and the
//! most recent click position, as observed by the listener.

use vstd::prelude::*;

verus! {

/// A 2D screen position as reported by the host's input hook.
///
/// Each coordinate holds the 64-bit IEEE 754 encoding of the reported
/// value; the tracker treats it as an opaque word.
#[derive(Clone, Copy, PartialEq, Eq, Structural, Debug)]
pub struct PointerSample {
    pub x: u64,
    pub y: u64,
}

impl PointerSample {
    /// The encoding of positive zero, so this is the sample (0.0, 0.0):
    /// the value both fields show before any event has been observed.
    pub open spec fn origin_spec() -> PointerSample {
        PointerSample { x: 0, y: 0 }
    }

    /// The default sample (0.0, 0.0).
    pub fn origin() -> (r: PointerSample)
        ensures
            r == PointerSample::origin_spec(),
    {
        PointerSample { x: 0, y: 0 }
    }
}

/// The record guarded by the listener's lock: the last pointer move and
/// the last left click seen so far. Both start at the origin sample.
#[derive(Clone, Copy, PartialEq, Eq, Structural, Debug)]
pub struct MouseState {
    pub last_click: PointerSample,
    pub last_move: PointerSample,
}

impl MouseState {
    /// A fresh record: no move and no click observed yet, so both
    /// fields hold the default (0.0, 0.0) sample.
    pub fn new() -> (r: MouseState)
        ensures
            r.last_move == PointerSample::origin_spec(),
            r.last_click == PointerSample::origin_spec(),
    {
        MouseState { last_click: PointerSample::origin(), last_move: PointerSample::origin() }
    }

    /// Overwrite the last pointer position; the click field is untouched.
    pub fn update_move(&mut self, x: u64, y: u64)
        ensures
            final(self).last_move == (PointerSample { x, y }),
            final(self).last_click == old(self).last_click,
    {
        self.last_move = PointerSample { x, y };
    }

    /// Overwrite the last click position; the move field is untouched.
    pub fn update_click(&mut self, x: u64, y: u64)
        ensures
            final(self).last_click == (PointerSample { x, y }),
            final(self).last_move == old(self).last_move,
    {
        self.last_click = PointerSample { x, y };
    }

    /// Snapshot of the last pointer position.
    pub fn get_last_move(&self) -> (r: PointerSample)
        ensures
            r == self.last_move,
    {
        self.last_move
    }

    /// Snapshot of the last click position.
    pub fn get_last_click(&self) -> (r: PointerSample)
        ensures
            r == self.last_click,
    {
        self.last_click
    }
}

} // verus!
