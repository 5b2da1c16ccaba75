use vstd::prelude::*;

use crate::error::Error;
use crate::sign::Sign;

verus! {

/// The end of an interval that a bisection step moves to the midpoint.
#[derive(Debug, Clone, Copy, PartialEq, Eq, Structural)]
pub enum End {
    Lower,
    Upper,
}

/// The signs of the target function at the two ends of a search interval.
#[derive(Debug, Clone, Copy, PartialEq, Eq, Structural)]
pub struct Bracket {
    pub lo: Sign,
    pub hi: Sign,
}

impl Bracket {
    /// The interval holds a sign change: its two ends are of different sign
    /// classes.
    pub open spec fn brackets(self) -> bool {
        self.lo != self.hi
    }

    /// One bisection step, given the sign at the midpoint: the midpoint
    /// replaces the lower end when it shares that end's sign, else the upper
    /// end.
    pub open spec fn step(self, mid: Sign) -> (Bracket, End) {
        if mid == self.lo {
            (self, End::Lower)
        } else {
            (Bracket { lo: self.lo, hi: mid }, End::Upper)
        }
    }

    /// The bracket after a run of bisection steps, one per midpoint sign.
    pub open spec fn after(self, mids: Seq<Sign>) -> Bracket
        decreases mids.len(),
    {
        if mids.len() == 0 {
            self
        } else {
            self.step(mids[0]).0.after(mids.drop_first())
        }
    }

    /// Accepts an interval as a starting bracket: its ends must be in order
    /// and of different sign classes.
    pub fn new(lo: Sign, hi: Sign, ordered: bool) -> (r: Result<Bracket, Error>)
        ensures
            r == (if ordered && lo != hi {
                Ok(Bracket { lo, hi })
            } else {
                Err(Error::NoBracket)
            }),
            r matches Ok(b) ==> b.brackets(),
    {
        if lo == hi || !ordered {
            Err(Error::NoBracket)
        } else {
            Ok(Bracket { lo, hi })
        }
    }

    /// Narrows the bracket by the sign at the midpoint, and says which end
    /// moved.
    pub fn narrow(&self, mid: Sign) -> (r: (Bracket, End))
        requires
            self.brackets(),
        ensures
            r == self.step(mid),
            r.0.brackets(),
            r.0.lo == self.lo,
    {
        if mid == self.lo {
            (*self, End::Lower)
        } else {
            (Bracket { lo: self.lo, hi: mid }, End::Upper)
        }
    }
}

/// Bisection never loses the sign change: from a bracket, every run of
/// midpoint signs leaves a bracket, and its lower end keeps the sign it
/// started with.
pub proof fn lemma_bisection_keeps_bracket(b: Bracket, mids: Seq<Sign>)
    requires
        b.brackets(),
    ensures
        b.after(mids).brackets(),
        b.after(mids).lo == b.lo,
    decreases mids.len(),
{
    if mids.len() > 0 {
        lemma_bisection_keeps_bracket(b.step(mids[0]).0, mids.drop_first());
    }
}

} // verus!
