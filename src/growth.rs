use vstd::prelude::*;

verus! {

/// Direction in which a stack's frames advance, from its `bottom` towards its `top`.
#[derive(Clone, Copy, Debug, PartialEq, Eq, Structural)]
pub enum Growth {
    /// `top` lies below `bottom`.
    Downward,
    /// `top` lies above `bottom`.
    Upward,
}

/// The direction that two ends of a range describe; none when they coincide.
pub open spec fn growth_of(bottom: int, top: int) -> Option<Growth> {
    if bottom < top {
        Some(Growth::Upward)
    } else if top < bottom {
        Some(Growth::Downward)
    } else {
        None
    }
}

/// Distance between two addresses, whichever is larger.
pub open spec fn distance(a: int, b: int) -> int {
    if a <= b {
        b - a
    } else {
        a - b
    }
}

/// Reads the direction off the two ends of a range.
pub fn direction(bottom: usize, top: usize) -> (r: Option<Growth>)
    ensures
        r == growth_of(bottom as int, top as int),
{
    if bottom < top {
        Some(Growth::Upward)
    } else if top < bottom {
        Some(Growth::Downward)
    } else {
        None
    }
}

} // verus!
