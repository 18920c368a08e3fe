//! Sums of money in fixed-point decimal.

use vstd::prelude::*;

verus! {

/// The most decimal places an amount can have.
pub const MAX_SCALE: u32 = 28;

/// What the magnitude of a mantissa stays under: two to the power 96.
pub const MANTISSA_LIMIT: i128 = 0x1_0000_0000_0000_0000_0000_0000;

/// Ten to the power `n`.
pub open spec fn pow10(n: nat) -> int
    decreases n,
{
    if n == 0 {
        1
    } else {
        10 * pow10((n - 1) as nat)
    }
}

/// A sum of money, exact: `mantissa` divided by ten to the power `scale`.
/// Never a floating-point number.
#[derive(Clone, Copy, Debug, PartialEq, Eq, Structural)]
pub struct Amount {
    pub mantissa: i128,
    pub scale: u32,
}

impl Amount {
    /// Whether mantissa and scale are within what the decimal type of the
    /// ledger holds.
    pub open spec fn wf(&self) -> bool {
        &&& self.scale <= MAX_SCALE
        &&& -MANTISSA_LIMIT < self.mantissa < MANTISSA_LIMIT
    }

    /// The sum in units of the smallest decimal place there is, so that sums
    /// of any scale add up as integers.
    pub open spec fn units(&self) -> int
        recommends
            self.wf(),
    {
        self.mantissa * pow10((MAX_SCALE - self.scale) as nat)
    }

    /// An amount from its parts, where they are in range.
    pub fn new(mantissa: i128, scale: u32) -> (r: Option<Amount>)
        ensures
            r == if (Amount { mantissa, scale }).wf() {
                Some(Amount { mantissa, scale })
            } else {
                None
            },
    {
        if scale <= MAX_SCALE && -MANTISSA_LIMIT < mantissa && mantissa < MANTISSA_LIMIT {
            Some(Amount { mantissa, scale })
        } else {
            None
        }
    }

    /// A whole number of units of currency.
    pub fn whole(n: i64) -> (r: Amount)
        ensures
            r.wf(),
            r.mantissa == n,
            r.scale == 0,
    {
        Amount { mantissa: n as i128, scale: 0 }
    }

    /// Whether mantissa and scale are in range.
    pub fn is_wf(&self) -> (r: bool)
        ensures
            r == self.wf(),
    {
        self.scale <= MAX_SCALE && -MANTISSA_LIMIT < self.mantissa && self.mantissa < MANTISSA_LIMIT
    }
}

} // verus!
