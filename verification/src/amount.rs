use vstd::prelude::*;

verus! {

/// Number of raw units in the amount 1. It is divisible by every denominator
/// the tracker formats use (2, 3, 8, 16, 64, 255, 256), so each amount a
/// decoder produces is held exactly.
pub const AMOUNT_ONE: i64 = 65280;

/// A signed fixed-point quantity, `raw / 65280`.
///
/// Speeds, depths, volumes and panning positions are held as amounts. Sums
/// saturate at the ends of the `i64` range.
#[derive(Clone, Copy, Debug, PartialEq, Eq, Structural)]
pub struct Amount {
    pub raw: i64,
}

/// The integer `v` brought into the `i64` range.
pub open spec fn saturate_i64(v: int) -> int {
    if v > i64::MAX as int {
        i64::MAX as int
    } else if v < i64::MIN as int {
        i64::MIN as int
    } else {
        v
    }
}

/// The raw value of `num / den`, for a denominator that divides 65280.
pub open spec fn ratio_raw(num: int, den: int) -> int {
    num * (AMOUNT_ONE as int / den)
}

/// `v` limited to the raw values of the amounts -1 to 1.
pub open spec fn clamp_signed_raw(v: int) -> int {
    if v < -(AMOUNT_ONE as int) {
        -(AMOUNT_ONE as int)
    } else if v > AMOUNT_ONE as int {
        AMOUNT_ONE as int
    } else {
        v
    }
}

/// `v` limited to the raw values of the amounts 0 to 1.
pub open spec fn clamp_unit_raw(v: int) -> int {
    if v < 0 {
        0
    } else if v > AMOUNT_ONE as int {
        AMOUNT_ONE as int
    } else {
        v
    }
}

impl View for Amount {
    type V = int;

    /// The amount in raw units of 1/65280.
    open spec fn view(&self) -> int {
        self.raw as int
    }
}

impl Amount {
    /// The saturating sum of two amounts.
    pub open spec fn spec_plus(self, other: Amount) -> Amount {
        Amount { raw: saturate_i64(self.raw + other.raw) as i64 }
    }

    /// The amount limited to the range 0 to 1.
    pub open spec fn spec_clamp_unit(self) -> Amount {
        Amount { raw: clamp_unit_raw(self.raw as int) as i64 }
    }

    /// The amount with the opposite sign.
    pub open spec fn spec_negated(self) -> Amount {
        Amount { raw: saturate_i64(-self.raw) as i64 }
    }

    /// The amount `num / den`, for a denominator that divides 65280.
    pub open spec fn spec_ratio(num: int, den: int) -> Amount {
        Amount { raw: ratio_raw(num, den) as i64 }
    }

    /// The amount 0.
    pub fn zero() -> (r: Amount)
        ensures
            r@ == 0,
    {
        Amount { raw: 0 }
    }

    /// The amount 1.
    pub fn one() -> (r: Amount)
        ensures
            r@ == AMOUNT_ONE as int,
    {
        Amount { raw: AMOUNT_ONE }
    }

    /// The amount `num / den`. The denominator must divide 65280.
    pub fn ratio(num: i32, den: u16) -> (r: Amount)
        requires
            den > 0,
            AMOUNT_ONE as int % den as int == 0,
        ensures
            r@ == ratio_raw(num as int, den as int),
            r == Amount::spec_ratio(num as int, den as int),
    {
        let unit: i64 = AMOUNT_ONE / (den as i64);
        assert(0 <= unit <= 65280) by (nonlinear_arith)
            requires
                unit == 65280int / (den as int),
                den > 0,
        ;
        assert(-0x8000_0000 * 65280 <= (num as int) * (unit as int) <= 0x8000_0000 * 65280)
            by (nonlinear_arith)
            requires
                0 <= unit <= 65280,
                -0x8000_0000 <= num < 0x8000_0000,
        ;
        Amount { raw: (num as i64) * unit }
    }

    /// Whether the amount is 0.
    pub fn is_zero(&self) -> (r: bool)
        ensures
            r == (self@ == 0),
    {
        self.raw == 0
    }

    /// The amount with the opposite sign; the lowest amount gives the highest.
    pub fn negated(&self) -> (r: Amount)
        ensures
            r@ == saturate_i64(-self@),
            r == self.spec_negated(),
    {
        if self.raw == i64::MIN {
            Amount { raw: i64::MAX }
        } else {
            Amount { raw: -self.raw }
        }
    }

    /// The saturating sum of two amounts.
    pub fn plus(&self, other: &Amount) -> (r: Amount)
        ensures
            r@ == saturate_i64(self@ + other@),
            r == self.spec_plus(*other),
    {
        if other.raw > 0 && self.raw > i64::MAX - other.raw {
            Amount { raw: i64::MAX }
        } else if other.raw < 0 && self.raw < i64::MIN - other.raw {
            Amount { raw: i64::MIN }
        } else {
            Amount { raw: self.raw + other.raw }
        }
    }

    /// The amount limited to the range 0 to 1.
    pub fn clamp_unit(&self) -> (r: Amount)
        ensures
            r@ == clamp_unit_raw(self@),
            r == self.spec_clamp_unit(),
    {
        if self.raw < 0 {
            Amount { raw: 0 }
        } else if self.raw > AMOUNT_ONE {
            Amount { raw: AMOUNT_ONE }
        } else {
            Amount { raw: self.raw }
        }
    }

    /// The amount limited to the range -1 to 1.
    pub fn clamp_signed(&self) -> (r: Amount)
        ensures
            r@ == clamp_signed_raw(self@),
    {
        if self.raw < -AMOUNT_ONE {
            Amount { raw: -AMOUNT_ONE }
        } else if self.raw > AMOUNT_ONE {
            Amount { raw: AMOUNT_ONE }
        } else {
            Amount { raw: self.raw }
        }
    }
}

} // verus!
