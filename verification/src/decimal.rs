use vstd::prelude::*;

verus! {

/// How many millionths make one unit.
pub const MICROS_PER_UNIT: i64 = 1_000_000;

/// A decimal number held exactly as a count of millionths.
///
/// Every real-valued quantity of the renderer (alpha, hue, saturation,
/// luminosity, percentages) is one of these, so that all arithmetic on them
/// is integer arithmetic with a stated rounding.
#[derive(PartialEq, Eq, Structural, Debug, Clone, Copy)]
pub struct Decimal {
    pub micros: i64,
}

/// `n / d` rounded to the nearest integer, ties away from zero.
pub open spec fn round_div(n: int, d: int) -> int
    recommends
        d > 0,
{
    if n >= 0 {
        (2 * n + d) / (2 * d)
    } else {
        -((2 * (-n) + d) / (2 * d))
    }
}

/// `v` limited to the range from `lo` to `hi`.
pub open spec fn clamp(v: int, lo: int, hi: int) -> int {
    if v < lo {
        lo
    } else if v > hi {
        hi
    } else {
        v
    }
}

/// Rounded division on machine integers.
pub fn round_div_exec(n: i128, d: i128) -> (q: i128)
    requires
        d > 0,
        -0x2000_0000_0000_0000_0000_0000_0000_0000 < n < 0x2000_0000_0000_0000_0000_0000_0000_0000,
        d < 0x2000_0000_0000_0000_0000_0000_0000_0000,
    ensures
        q == round_div(n as int, d as int),
{
    if n >= 0 {
        (2 * n + d) / (2 * d)
    } else {
        -((2 * (-n) + d) / (2 * d))
    }
}

impl Decimal {
    /// The number `micros / 1_000_000`.
    pub fn from_micros(micros: i64) -> (d: Decimal)
        ensures
            d.micros == micros,
    {
        Decimal { micros }
    }

    /// The whole number `value`.
    pub fn from_int(value: i32) -> (d: Decimal)
        ensures
            d.micros == value * MICROS_PER_UNIT,
    {
        Decimal { micros: (value as i64) * MICROS_PER_UNIT }
    }

    /// The number 0.
    pub fn zero() -> (d: Decimal)
        ensures
            d.micros == 0,
    {
        Decimal { micros: 0 }
    }

    /// The number 1.
    pub fn one() -> (d: Decimal)
        ensures
            d.micros == MICROS_PER_UNIT,
    {
        Decimal { micros: MICROS_PER_UNIT }
    }

    /// The count of millionths.
    pub fn micros(&self) -> (m: i64)
        ensures
            m == self.micros,
    {
        self.micros
    }
}

} // verus!
