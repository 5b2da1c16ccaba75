use vstd::prelude::*;

verus! {

/// Why an operation refused its input.
#[derive(Debug, Clone, Copy, PartialEq, Eq, Structural)]
pub enum Error {
    /// An azimuth outside the half-open range [0, 2π).
    NotCanonical,
    /// An interval whose ends are out of order, or whose ends give the
    /// target function the same sign.
    NoBracket,
}

} // verus!
