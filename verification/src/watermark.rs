//! Monotonic chain-height watermark.
//!
//! A single non-decreasing height gates one-shot forwarding to the
//! transaction-pool sizing collaborator: a block-commit notice forwards only
//! when its height strictly advances the watermark.

use vstd::prelude::*;

verus! {

/// Monotonically increasing chain-height marker. It starts at zero and only
/// ever moves strictly upward through `try_advance`. Its view is the current
/// height.
pub struct HeightWatermark {
    height: u64,
}

impl View for HeightWatermark {
    type V = u64;

    closed spec fn view(&self) -> u64 {
        self.height
    }
}

impl HeightWatermark {
    /// A fresh watermark at height zero.
    pub fn new() -> (r: Self)
        ensures
            r@ == 0,
    {
        HeightWatermark { height: 0 }
    }

    /// The current height.
    pub fn height(&self) -> (r: u64)
        ensures
            r == self@,
    {
        self.height
    }

    /// Advance to `h` exactly when `h` is strictly above the current height;
    /// a non-advancing height leaves the watermark untouched.
    pub fn try_advance(&mut self, h: u64) -> (advanced: bool)
        ensures
            advanced == (h > old(self)@),
            advanced ==> final(self)@ == h,
            !advanced ==> final(self)@ == old(self)@,
            final(self)@ >= old(self)@,
    {
        if h > self.height {
            self.height = h;
            true
        } else {
            false
        }
    }
}

} // verus!
