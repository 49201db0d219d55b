//! The axis enumeration used by axis-agnostic geometry algorithms.

use vstd::prelude::*;

verus! {

/// One of the three coordinate axes of a three-component value.
#[derive(Clone, Copy, Debug, PartialEq, Eq, Structural)]
pub enum Axis {
    X,
    Y,
    Z,
}

/// The cyclic successor of an axis: X maps to Y, Y to Z, and Z back to X.
pub open spec fn axis_succ(a: Axis) -> Axis {
    match a {
        Axis::X => Axis::Y,
        Axis::Y => Axis::Z,
        Axis::Z => Axis::X,
    }
}

impl Axis {
    /// The next axis in cyclic order.
    pub fn next(self) -> (r: Axis)
        ensures
            r == axis_succ(self),
    {
        match self {
            Axis::X => Axis::Y,
            Axis::Y => Axis::Z,
            Axis::Z => Axis::X,
        }
    }
}

/// Taking the successor three times returns to the starting axis, so `next`
/// visits every axis exactly once before repeating.
pub proof fn lemma_axis_cycle(a: Axis)
    ensures
        axis_succ(axis_succ(axis_succ(a))) == a,
{
}

} // verus!
