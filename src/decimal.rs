//! Exact decimal numbers held as a mantissa and a power-of-ten scale.

use vstd::prelude::*;

verus! {

/// Largest magnitude of a mantissa: 96 bits.
pub const MAX_MANTISSA: i128 = 0xFFFF_FFFF_FFFF_FFFF_FFFF_FFFF;

/// Largest number of digits after the decimal point.
pub const MAX_SCALE: u32 = 28;

/// The number `mantissa / 10^scale`.
#[derive(Clone, Copy, Debug, PartialEq, Eq, Structural)]
pub struct Decimal {
    pub mantissa: i128,
    pub scale: u32,
}

pub open spec fn pow10(n: nat) -> int
    decreases n,
{
    if n == 0 {
        1
    } else {
        10 * pow10((n - 1) as nat)
    }
}

impl Decimal {
    /// The mantissa and scale lie in the representable range.
    pub open spec fn wf(self) -> bool {
        &&& self.scale <= MAX_SCALE
        &&& -MAX_MANTISSA <= self.mantissa <= MAX_MANTISSA
    }

    /// `self <= other` as numbers: `m1 / 10^s1 <= m2 / 10^s2`.
    pub open spec fn spec_le(self, other: Decimal) -> bool {
        self.mantissa * pow10(other.scale as nat) <= other.mantissa * pow10(self.scale as nat)
    }

    /// The decimal `mantissa / 10^scale` for a 64-bit mantissa.
    pub fn new(mantissa: i64, scale: u32) -> (r: Decimal)
        requires
            scale <= MAX_SCALE,
        ensures
            r.mantissa == mantissa,
            r.scale == scale,
            r.wf(),
    {
        Decimal { mantissa: mantissa as i128, scale }
    }

    /// The decimal `mantissa / 10^scale`, when it is representable.
    pub fn from_parts(mantissa: i128, scale: u32) -> (r: Option<Decimal>)
        ensures
            r is Some <==> (Decimal { mantissa, scale }).wf(),
            r is Some ==> r->0 == (Decimal { mantissa, scale }),
    {
        if scale <= MAX_SCALE && -MAX_MANTISSA <= mantissa && mantissa <= MAX_MANTISSA {
            Some(Decimal { mantissa, scale })
        } else {
            None
        }
    }

    pub fn zero() -> (r: Decimal)
        ensures
            r == (Decimal { mantissa: 0, scale: 0 }),
    {
        Decimal { mantissa: 0, scale: 0 }
    }

    pub fn one() -> (r: Decimal)
        ensures
            r == (Decimal { mantissa: 1, scale: 0 }),
    {
        Decimal { mantissa: 1, scale: 0 }
    }

    pub fn is_wf(&self) -> (r: bool)
        ensures
            r == self.wf(),
    {
        self.scale <= MAX_SCALE && -MAX_MANTISSA <= self.mantissa && self.mantissa <= MAX_MANTISSA
    }
}

/// What `rust_decimal` gives for the checked sum of two decimals.
pub uninterp spec fn checked_sum_of(a: Decimal, b: Decimal) -> Option<Decimal>;

/// Relies on `rust_decimal::Decimal::checked_add`, after
/// `try_from_i128_with_scale` on each operand: `None` on overflow or on an
/// operand out of range. A value that comes back is one that
/// `rust_decimal::Decimal` holds: a 96-bit mantissa and a scale of at most 28.
#[verifier::external_body]
pub(crate) fn checked_add(a: Decimal, b: Decimal) -> (r: Option<Decimal>)
    ensures
        r == checked_sum_of(a, b),
        r matches Some(d) ==> d.wf(),
{
    let x = rust_decimal::Decimal::try_from_i128_with_scale(a.mantissa, a.scale).ok()?;
    let y = rust_decimal::Decimal::try_from_i128_with_scale(b.mantissa, b.scale).ok()?;
    x.checked_add(y).map(|d| Decimal { mantissa: d.mantissa(), scale: d.scale() })
}

/// Relies on `rust_decimal::Decimal`'s `Ord` (`<=`), which orders decimals by
/// their numeric value, after `from_i128_with_scale` on each operand (which
/// panics only outside the range that `wf` states).
#[verifier::external_body]
pub(crate) fn le(a: Decimal, b: Decimal) -> (r: bool)
    requires
        a.wf(),
        b.wf(),
    ensures
        r == a.spec_le(b),
{
    rust_decimal::Decimal::from_i128_with_scale(a.mantissa, a.scale)
        <= rust_decimal::Decimal::from_i128_with_scale(b.mantissa, b.scale)
}

} // verus!
