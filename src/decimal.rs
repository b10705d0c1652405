use vstd::prelude::*;

verus! {

/// The largest scale (number of digits after the point) a decimal may carry.
pub const MAX_SCALE: u32 = 28;

/// The largest magnitude of a mantissa: 96 bits, all set.
pub const MAX_MANTISSA: i128 = 0xFFFF_FFFF_FFFF_FFFF_FFFF_FFFF;

/// A fixed-point decimal number `mantissa * 10^(-scale)`, exchanged with
/// `rust_decimal::Decimal` for arithmetic. Zero carries no sign. Two decimals are
/// equal when mantissa and scale are: `1.0` and `1.00` differ.
#[derive(Clone, Copy, Debug, PartialEq, Eq, Structural)]
pub struct Decimal {
    pub mantissa: i128,
    pub scale: u32,
}

impl Decimal {
    /// The mantissa fits in 96 bits and the scale is at most `MAX_SCALE`.
    pub open spec fn wf(self) -> bool {
        -MAX_MANTISSA <= self.mantissa <= MAX_MANTISSA && self.scale <= MAX_SCALE
    }

    /// The decimal `num * 10^(-scale)`.
    pub fn new(num: i64, scale: u32) -> (r: Decimal)
        requires
            scale <= MAX_SCALE,
        ensures
            r.mantissa == num as i128,
            r.scale == scale,
            r.wf(),
    {
        Decimal { mantissa: num as i128, scale }
    }

    pub fn is_zero(&self) -> (r: bool)
        ensures
            r == (self.mantissa == 0),
    {
        self.mantissa == 0
    }

    /// Zero counts as positive.
    pub fn is_sign_positive(&self) -> (r: bool)
        ensures
            r == (self.mantissa >= 0),
    {
        self.mantissa >= 0
    }

    pub fn is_sign_negative(&self) -> (r: bool)
        ensures
            r == (self.mantissa < 0),
    {
        self.mantissa < 0
    }
}

/// What `rust_decimal::Decimal::checked_add` returns for two decimals.
pub uninterp spec fn decimal_sum(a: Decimal, b: Decimal) -> Option<Decimal>;

/// Relies on `rust_decimal::Decimal::checked_add`: the sum of two decimals, `None` on
/// overflow; a result it returns has a 96-bit mantissa and a scale of at most 28.
/// `from_i128_with_scale` does not panic on well-formed parts.
#[verifier::external_body]
pub(crate) fn checked_add(a: Decimal, b: Decimal) -> (r: Option<Decimal>)
    requires
        a.wf(),
        b.wf(),
    ensures
        r == decimal_sum(a, b),
        r matches Some(d) ==> d.wf(),
{
    let x = rust_decimal::Decimal::from_i128_with_scale(a.mantissa, a.scale);
    let y = rust_decimal::Decimal::from_i128_with_scale(b.mantissa, b.scale);
    match x.checked_add(y) {
        Some(d) => Some(Decimal { mantissa: d.mantissa(), scale: d.scale() }),
        None => None,
    }
}

} // verus!
