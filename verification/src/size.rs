//! Icon side lengths.

use vstd::prelude::*;

verus! {

/// The number of canonical icon sizes.
pub const CANONICAL_COUNT: usize = 7;

/// The canonical icon side lengths, in ascending order.
pub open spec fn canonical_sides() -> Seq<nat> {
    seq![16, 24, 32, 48, 64, 128, 256]
}

/// The side length of a square icon in pixels: a positive integer.
#[derive(Clone, Copy, Debug, PartialEq, Eq)]
pub struct IconSize {
    side: u32,
}

impl View for IconSize {
    type V = nat;

    closed spec fn view(&self) -> nat {
        self.side as nat
    }
}

impl Default for IconSize {
    /// The size of a run that names none: 64 pixels.
    fn default() -> (size: IconSize)
        ensures
            size@ == 64,
    {
        IconSize { side: 64 }
    }
}

impl IconSize {
    #[verifier::type_invariant]
    spec fn positive(self) -> bool {
        self.side >= 1
    }

    /// Accepts every side length but zero.
    pub fn new(side: u32) -> (size: Option<IconSize>)
        ensures
            side == 0 <==> size is None,
            size matches Some(s) ==> s@ == side,
    {
        if side == 0 {
            None
        } else {
            Some(IconSize { side })
        }
    }

    /// The side length in pixels.
    pub fn get(&self) -> (side: u32)
        ensures
            side == self@,
            side >= 1,
    {
        proof {
            use_type_invariant(self);
        }
        self.side
    }

    /// The `index`-th canonical size.
    pub fn canonical(index: usize) -> (size: IconSize)
        requires
            index < CANONICAL_COUNT,
        ensures
            size@ == canonical_sides()[index as int],
    {
        let side: u32 = if index == 0 {
            16
        } else if index == 1 {
            24
        } else if index == 2 {
            32
        } else if index == 3 {
            48
        } else if index == 4 {
            64
        } else if index == 5 {
            128
        } else {
            256
        };
        IconSize { side }
    }
}

} // verus!
