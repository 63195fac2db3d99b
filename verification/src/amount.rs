use vstd::prelude::*;

verus! {

/// How much value an instruction moves: an exact quantity, or a
/// percentage of the balance available on the target network at
/// execution time (resolved there, not here).
#[derive(Clone, Copy, Debug, PartialEq, Eq, Structural)]
pub enum Amount {
    Absolute(u128),
    Ratio(u8),
}

/// The error of a ratio amount whose percentage lies outside `[0, 100]`.
#[derive(Clone, Copy, Debug, PartialEq, Eq, Structural)]
pub struct InvalidRatio;

impl Amount {
    /// A ratio amount is meaningful only up to 100 percent.
    pub open spec fn wf(self) -> bool {
        match self {
            Amount::Ratio(percent) => percent <= 100,
            Amount::Absolute(_) => true,
        }
    }

    /// Builds a percentage-of-balance amount. A percentage over 100 is
    /// rejected here, so it can never reach a built program.
    pub fn ratio(percent: u8) -> (r: Result<Amount, InvalidRatio>)
        ensures
            percent <= 100 ==> r == Ok::<Amount, InvalidRatio>(Amount::Ratio(percent)),
            percent > 100 ==> r == Err::<Amount, InvalidRatio>(InvalidRatio),
    {
        if percent <= 100 {
            Ok(Amount::Ratio(percent))
        } else {
            Err(InvalidRatio)
        }
    }

    /// Builds an exact amount; every quantity is valid.
    pub fn absolute(value: u128) -> (r: Amount)
        ensures
            r == Amount::Absolute(value),
    {
        Amount::Absolute(value)
    }
}

/// The whole available balance, as a ratio amount.
pub fn ratio_one() -> (r: Amount)
    ensures
        r == Amount::Ratio(100u8),
{
    Amount::Ratio(100)
}

} // verus!
