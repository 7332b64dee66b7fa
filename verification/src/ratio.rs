//! Exact non-negative fractions with a guarded zero denominator.

use vstd::prelude::*;

verus! {

/// A non-negative fraction `numerator / denominator`, kept exactly.
#[derive(Clone, Copy, Debug, PartialEq, Eq, Structural)]
pub struct Ratio {
    pub numerator: u64,
    pub denominator: u64,
}

impl Ratio {
    /// A ratio can be evaluated: its denominator is not zero.
    pub open spec fn wf(self) -> bool {
        self.denominator > 0
    }

    /// The canonical zero, `0 / 1`.
    pub open spec fn zero() -> Ratio {
        Ratio { numerator: 0, denominator: 1 }
    }

    /// `part / whole`, and the canonical zero where `whole` is zero.
    pub open spec fn guarded(part: u64, whole: u64) -> Ratio {
        if whole > 0 {
            Ratio { numerator: part, denominator: whole }
        } else {
            Ratio::zero()
        }
    }

    /// The value of the ratio is zero.
    pub open spec fn is_zero(self) -> bool {
        self.numerator == 0
    }

    /// The value of the ratio lies between zero and one.
    pub open spec fn at_most_one(self) -> bool {
        self.numerator <= self.denominator
    }

    /// Builds `part / whole`, substituting zero for a zero denominator.
    pub fn new_guarded(part: u64, whole: u64) -> (r: Ratio)
        ensures
            r == Ratio::guarded(part, whole),
            r.wf(),
            whole == 0 ==> r.is_zero(),
    {
        if whole > 0 {
            Ratio { numerator: part, denominator: whole }
        } else {
            Ratio { numerator: 0, denominator: 1 }
        }
    }
}

} // verus!
