use vstd::prelude::*;

verus! {

/// A non-negative rational number `num / den`.
#[derive(Clone, Copy, Debug, PartialEq, Eq)]
pub struct Ratio {
    pub num: u64,
    pub den: u64,
}

impl Ratio {
    /// A ratio denotes a number when its denominator is not zero.
    pub open spec fn wf(self) -> bool {
        self.den > 0
    }

    /// `self < 1` as a number.
    pub open spec fn below_one(self) -> bool {
        self.num < self.den
    }
}

} // verus!
