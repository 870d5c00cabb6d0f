//! The three coordinate axes.

use vstd::prelude::*;

verus! {

#[derive(Clone, Copy, Debug, PartialEq, Eq, Structural)]
pub enum Axis {
    X,
    Y,
    Z,
}

impl Axis {
    /// The axis different from both arguments (which must differ).
    pub fn other(a: Axis, b: Axis) -> (r: Axis)
        requires
            a != b,
        ensures
            r != a && r != b,
    {
        match (a, b) {
            (Axis::X, Axis::Y) => Axis::Z,
            (Axis::Y, Axis::Z) => Axis::X,
            (Axis::X, Axis::Z) => Axis::Y,
            (Axis::Y, Axis::X) => Axis::Z,
            (Axis::Z, Axis::Y) => Axis::X,
            (Axis::Z, Axis::X) => Axis::Y,
            (Axis::X, Axis::X) => Axis::X,  // excluded by the precondition
            (Axis::Y, Axis::Y) => Axis::Y,  // excluded by the precondition
            (Axis::Z, Axis::Z) => Axis::Z,  // excluded by the precondition
        }
    }

    /// The two axes different from the argument, in canonical order.
    pub fn other_two(a: Axis) -> (r: (Axis, Axis))
        ensures
            a == Axis::X ==> r == (Axis::Y, Axis::Z),
            a == Axis::Y ==> r == (Axis::X, Axis::Z),
            a == Axis::Z ==> r == (Axis::X, Axis::Y),
    {
        match a {
            Axis::Z => (Axis::X, Axis::Y),
            Axis::X => (Axis::Y, Axis::Z),
            Axis::Y => (Axis::X, Axis::Z),
        }
    }
}

} // verus!
