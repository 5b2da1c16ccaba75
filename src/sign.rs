use vstd::prelude::*;

verus! {

/// The sign class of a function value. Zero is a class of its own, so that an
/// exact zero is never confused with either side of a sign change.
#[derive(Debug, Clone, Copy, PartialEq, Eq, Structural)]
pub enum Sign {
    Negative,
    Zero,
    Positive,
}

impl Sign {
    /// Classifies a value from its two comparisons with zero.
    pub fn from_comparisons(below_zero: bool, above_zero: bool) -> (r: Sign)
        requires
            !(below_zero && above_zero),
        ensures
            r == (if below_zero {
                Sign::Negative
            } else if above_zero {
                Sign::Positive
            } else {
                Sign::Zero
            }),
    {
        if below_zero {
            Sign::Negative
        } else if above_zero {
            Sign::Positive
        } else {
            Sign::Zero
        }
    }
}

} // verus!
