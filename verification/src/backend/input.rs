//! The two numbers that a task is given by.

use vstd::prelude::*;

verus! {

/// The task's parameters: the density is a piecewise linear function whose
/// triangle spans from `a` through `0` to `b`.
#[derive(Clone, Copy, Debug, PartialEq, Eq, Structural)]
pub struct Input {
    pub a: isize,
    pub b: isize,
}

} // verus!
