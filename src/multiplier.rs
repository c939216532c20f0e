//! Effectiveness multipliers as fixed-point numbers.

use vstd::prelude::*;

verus! {

/// Number of hundredths in one whole multiplier.
pub const HUNDREDTHS_PER_UNIT: i64 = 100;

/// An effectiveness multiplier, counted in hundredths.
///
/// `2.0` is written as 200, `0.5` as 50 and the neutral `1.0` as 100. Any
/// value is accepted and stored as it is, zero and negative ones included.
#[derive(Clone, Copy, Debug, PartialEq, Eq, Structural)]
pub struct Multiplier {
    /// The multiplier times one hundred.
    pub hundredths: i64,
}

impl Multiplier {
    /// The neutral multiplier, `1.0`.
    pub open spec fn spec_neutral() -> Multiplier {
        Multiplier { hundredths: HUNDREDTHS_PER_UNIT }
    }

    /// The neutral multiplier, `1.0`: what an unset relation yields.
    pub fn neutral() -> (r: Multiplier)
        ensures
            r == Multiplier::spec_neutral(),
    {
        Multiplier { hundredths: HUNDREDTHS_PER_UNIT }
    }
}

} // verus!
