//! Unit-aware one-dimensional measurements.
//!
//! A measurement is either a count of physical pixels ([`Px`]) or of logical
//! pixels ([`Lp`]), device-independent units that a rendering context maps to
//! physical pixels through a rational scale factor ([`Fraction`]).

use vstd::prelude::*;

verus! {

/// A measurement in physical pixels.
#[derive(Clone, Copy, Debug, PartialEq, Eq, Structural)]
pub struct Px(pub i32);

/// A measurement in logical (device-independent) pixels.
#[derive(Clone, Copy, Debug, PartialEq, Eq, Structural)]
pub struct Lp(pub i32);

/// A measurement in unsigned physical pixels, the unit used when clamping
/// layout sizes.
#[derive(Clone, Copy, Debug, PartialEq, Eq, Structural)]
pub struct UPx(pub u32);

/// A positive rational scale factor: the number of physical pixels per
/// logical pixel is `num / den`.
#[derive(Clone, Copy, Debug, PartialEq, Eq, Structural)]
pub struct Fraction {
    /// The numerator of the ratio.
    pub num: i32,
    /// The denominator of the ratio.
    pub den: i32,
}

impl Fraction {
    /// A fraction is well formed when both parts are positive, so that it
    /// describes a meaningful, positive scale ratio.
    pub open spec fn wf(self) -> bool {
        self.num >= 1 && self.den >= 1
    }

    /// Returns the scale ratio `num / den`.
    pub fn new(num: i32, den: i32) -> (r: Fraction)
        requires
            num >= 1,
            den >= 1,
        ensures
            r == (Fraction { num, den }),
    {
        Fraction { num, den }
    }

    /// Returns the identity scale: one physical pixel per logical pixel.
    pub fn one() -> (r: Fraction)
        ensures
            r == (Fraction { num: 1, den: 1 }),
    {
        Fraction { num: 1, den: 1 }
    }
}

/// The mathematical value of converting `lp` logical pixels to physical
/// pixels under `scale`, rounding toward negative infinity.
pub open spec fn lp_to_px(lp: int, scale: Fraction) -> int {
    (lp * scale.num) / (scale.den as int)
}

/// The mathematical value of converting `px` physical pixels to logical
/// pixels under `scale`, rounding toward negative infinity.
pub open spec fn px_to_lp(px: int, scale: Fraction) -> int {
    (px * scale.den) / (scale.num as int)
}

/// Clamps a mathematical pixel count into the unsigned pixel range.
pub open spec fn saturate_upx(v: int) -> int {
    if v < 0 {
        0
    } else if v > u32::MAX {
        u32::MAX as int
    } else {
        v
    }
}

/// The product of two values in the signed 32-bit range stays well inside
/// the signed 64-bit range.
proof fn lemma_i32_product_bounds(x: int, y: int)
    requires
        -0x8000_0000 <= x <= 0x7fff_ffff,
        -0x8000_0000 <= y <= 0x7fff_ffff,
    ensures
        -0x4000_0000_0000_0000 <= x * y <= 0x4000_0000_0000_0000,
{
    assert(-0x4000_0000_0000_0000 <= x * y <= 0x4000_0000_0000_0000) by (nonlinear_arith)
        requires
            -0x8000_0000 <= x <= 0x7fff_ffff,
            -0x8000_0000 <= y <= 0x7fff_ffff,
    ;
}

/// Divides `a` by the positive divisor `b`, rounding toward negative
/// infinity, matching the spec-level Euclidean `/` for positive divisors.
fn div_floor_i64(a: i64, b: i64) -> (r: i64)
    requires
        1 <= b,
        -0x4000_0000_0000_0000 <= a <= 0x4000_0000_0000_0000,
    ensures
        r == a as int / b as int,
{
    if a >= 0 {
        a / b
    } else {
        let n = -a;
        let q = n / b;
        let rem = n % b;
        proof {
            let ni = n as int;
            let bi = b as int;
            vstd::arithmetic::div_mod::lemma_fundamental_div_mod(ni, bi);
            vstd::arithmetic::div_mod::lemma_mod_bound(ni, bi);
            assert(ni == bi * q + rem);
            if rem == 0 {
                assert(bi * (-q) == -(bi * q)) by (nonlinear_arith);
                vstd::arithmetic::div_mod::lemma_fundamental_div_mod_converse(
                    a as int,
                    bi,
                    -q,
                    0,
                );
            } else {
                assert(bi * (-q - 1) == -(bi * q) - bi) by (nonlinear_arith);
                vstd::arithmetic::div_mod::lemma_fundamental_div_mod_converse(
                    a as int,
                    bi,
                    -q - 1,
                    bi - rem,
                );
            }
        }
        if rem == 0 {
            -q
        } else {
            -q - 1
        }
    }
}

impl Px {
    /// Converts to unsigned pixels; negative measurements saturate to zero.
    pub fn into_unsigned(self) -> (r: UPx)
        ensures
            r.0 == saturate_upx(self.0 as int),
    {
        if self.0 < 0 {
            UPx(0)
        } else {
            UPx(self.0 as u32)
        }
    }

    /// Converts to logical pixels under `scale`.
    pub fn into_lp(self, scale: Fraction) -> (r: Lp)
        requires
            scale.wf(),
            i32::MIN <= px_to_lp(self.0 as int, scale) <= i32::MAX,
        ensures
            r.0 == px_to_lp(self.0 as int, scale),
    {
        proof {
            lemma_i32_product_bounds(self.0 as int, scale.den as int);
        }
        let v = div_floor_i64(self.0 as i64 * scale.den as i64, scale.num as i64);
        Lp(v as i32)
    }
}

impl Lp {
    /// Converts to physical pixels under `scale`.
    pub fn into_px(self, scale: Fraction) -> (r: Px)
        requires
            scale.wf(),
            i32::MIN <= lp_to_px(self.0 as int, scale) <= i32::MAX,
        ensures
            r.0 == lp_to_px(self.0 as int, scale),
    {
        proof {
            lemma_i32_product_bounds(self.0 as int, scale.num as int);
        }
        let v = div_floor_i64(self.0 as i64 * scale.num as i64, scale.den as i64);
        Px(v as i32)
    }
}

impl UPx {
    /// Converts to signed pixels, saturating at the signed maximum.
    pub fn into_signed(self) -> (r: Px)
        ensures
            r.0 == if self.0 <= i32::MAX as u32 {
                self.0 as int
            } else {
                i32::MAX as int
            },
    {
        if self.0 <= i32::MAX as u32 {
            Px(self.0 as i32)
        } else {
            Px(i32::MAX)
        }
    }

    /// Returns the smaller of `self` and `other`.
    pub fn min(self, other: UPx) -> (r: UPx)
        ensures
            r.0 == if self.0 <= other.0 {
                self.0 as int
            } else {
                other.0 as int
            },
    {
        if self.0 <= other.0 {
            self
        } else {
            other
        }
    }

    /// Returns the larger of `self` and `other`.
    pub fn max(self, other: UPx) -> (r: UPx)
        ensures
            r.0 == if self.0 >= other.0 {
                self.0 as int
            } else {
                other.0 as int
            },
    {
        if self.0 >= other.0 {
            self
        } else {
            other
        }
    }
}

/// A one-dimensional measurement, tagged with its unit.
#[derive(Clone, Copy, Debug, PartialEq, Eq, Structural)]
pub enum Dimension {
    /// A count of physical pixels.
    Px(Px),
    /// A count of logical pixels.
    Lp(Lp),
}

impl Dimension {
    /// The zero measurement, expressed in physical pixels.
    pub fn zero() -> (r: Dimension)
        ensures
            r == Dimension::Px(Px(0)),
    {
        Dimension::Px(Px(0))
    }

    /// Returns true if the measurement is zero in its own unit.
    pub fn is_zero(&self) -> (r: bool)
        ensures
            r == (self.raw() == 0),
    {
        match self {
            Dimension::Px(px) => px.0 == 0,
            Dimension::Lp(lp) => lp.0 == 0,
        }
    }

    /// The numeric value carried by the measurement, regardless of unit.
    pub open spec fn raw(self) -> int {
        match self {
            Dimension::Px(px) => px.0 as int,
            Dimension::Lp(lp) => lp.0 as int,
        }
    }

    /// The mathematical value of this measurement in physical pixels under
    /// `scale`.
    pub open spec fn px_value(self, scale: Fraction) -> int {
        match self {
            Dimension::Px(px) => px.0 as int,
            Dimension::Lp(lp) => lp_to_px(lp.0 as int, scale),
        }
    }

    /// Converts to physical pixels under `scale`; physical measurements pass
    /// through unchanged.
    pub fn into_px(self, scale: Fraction) -> (r: Px)
        requires
            scale.wf(),
            i32::MIN <= self.px_value(scale) <= i32::MAX,
        ensures
            r.0 == self.px_value(scale),
    {
        match self {
            Dimension::Px(px) => px,
            Dimension::Lp(lp) => lp.into_px(scale),
        }
    }

    /// The mathematical value of this measurement in logical pixels under
    /// `scale`.
    pub open spec fn lp_value(self, scale: Fraction) -> int {
        match self {
            Dimension::Px(px) => px_to_lp(px.0 as int, scale),
            Dimension::Lp(lp) => lp.0 as int,
        }
    }

    /// Converts to logical pixels under `scale`; logical measurements pass
    /// through unchanged.
    pub fn into_lp(self, scale: Fraction) -> (r: Lp)
        requires
            scale.wf(),
            i32::MIN <= self.lp_value(scale) <= i32::MAX,
        ensures
            r.0 == self.lp_value(scale),
    {
        match self {
            Dimension::Px(px) => px.into_lp(scale),
            Dimension::Lp(lp) => lp,
        }
    }

    /// The mathematical value of this measurement in unsigned physical
    /// pixels under `scale`: the physical value saturated into the unsigned
    /// range.
    pub open spec fn upx_value(self, scale: Fraction) -> int {
        saturate_upx(self.px_value(scale))
    }

    /// Converts to unsigned physical pixels under `scale`, saturating
    /// negative values at zero.
    pub fn into_upx(self, scale: Fraction) -> (r: UPx)
        requires
            scale.wf(),
        ensures
            r.0 == self.upx_value(scale),
    {
        match self {
            Dimension::Px(px) => px.into_unsigned(),
            Dimension::Lp(lp) => {
                proof {
                    lemma_i32_product_bounds(lp.0 as int, scale.num as int);
                }
                let v = div_floor_i64(lp.0 as i64 * scale.num as i64, scale.den as i64);
                if v < 0 {
                    UPx(0)
                } else if v > u32::MAX as i64 {
                    UPx(u32::MAX)
                } else {
                    UPx(v as u32)
                }
            },
        }
    }

    /// Scales the measurement by an integer factor, preserving its unit.
    pub fn mul_i32(self, rhs: i32) -> (r: Dimension)
        requires
            i32::MIN <= self.raw() * rhs <= i32::MAX,
        ensures
            r.raw() == self.raw() * rhs,
            r is Px <==> self is Px,
    {
        match self {
            Dimension::Px(px) => Dimension::Px(Px(px.0 * rhs)),
            Dimension::Lp(lp) => Dimension::Lp(Lp(lp.0 * rhs)),
        }
    }

    /// Divides the measurement by a non-zero integer factor, preserving
    /// its unit and rounding toward zero. Dividing the most negative
    /// measurement by minus one is the one quotient the unit's numeric
    /// range cannot hold.
    pub fn div_i32(self, rhs: i32) -> (r: Dimension)
        requires
            rhs != 0,
            !(self.raw() == i32::MIN && rhs == -1),
        ensures
            r.raw() == div_trunc(self.raw(), rhs as int),
            r is Px <==> self is Px,
    {
        match self {
            Dimension::Px(px) => Dimension::Px(Px(div_trunc_i32(px.0, rhs))),
            Dimension::Lp(lp) => Dimension::Lp(Lp(div_trunc_i32(lp.0, rhs))),
        }
    }
}

/// The quotient of `a` and `b` rounded toward zero, the rounding of the
/// machine's signed division.
pub open spec fn div_trunc(a: int, b: int) -> int {
    let na = if a >= 0 {
        a
    } else {
        -a
    };
    let nb = if b >= 0 {
        b
    } else {
        -b
    };
    if (a >= 0) == (b >= 0) {
        na / nb
    } else {
        -(na / nb)
    }
}

/// Divides `a` by the non-zero divisor `b`, rounding toward zero.
fn div_trunc_i32(a: i32, b: i32) -> (r: i32)
    requires
        b != 0,
        !(a == i32::MIN && b == -1),
    ensures
        r == div_trunc(a as int, b as int),
{
    let wide_a = a as i64;
    let wide_b = b as i64;
    let na = if wide_a >= 0 {
        wide_a
    } else {
        -wide_a
    };
    let nb = if wide_b >= 0 {
        wide_b
    } else {
        -wide_b
    };
    let q = na / nb;
    proof {
        vstd::arithmetic::div_mod::lemma_div_nonincreasing(na as int, nb as int);
        vstd::arithmetic::div_mod::lemma_div_pos_is_pos(na as int, nb as int);
        if nb == 1 {
            vstd::arithmetic::div_mod::lemma_div_basics(na as int);
        } else {
            // The magnitude only reaches one past the signed maximum for
            // the most negative dividend, and a divisor of magnitude at
            // least two halves it back into range.
            vstd::arithmetic::div_mod::lemma_div_is_ordered_by_denominator(na as int, 2, nb as int);
            vstd::arithmetic::div_mod::lemma_div_is_ordered(na as int, 0x8000_0000, 2);
        }
    }
    if (a >= 0) == (b >= 0) {
        q as i32
    } else {
        (-q) as i32
    }
}

impl Default for Dimension {
    /// The default measurement is zero physical pixels.
    fn default() -> (r: Dimension)
        ensures
            r == Dimension::Px(Px(0)),
    {
        Dimension::Px(Px(0))
    }
}

impl From<Px> for Dimension {
    fn from(value: Px) -> (r: Dimension) {
        Dimension::Px(value)
    }
}

impl vstd::std_specs::convert::FromSpecImpl<Px> for Dimension {
    open spec fn obeys_from_spec() -> bool {
        true
    }

    open spec fn from_spec(value: Px) -> Dimension {
        Dimension::Px(value)
    }
}

impl From<Lp> for Dimension {
    fn from(value: Lp) -> (r: Dimension) {
        Dimension::Lp(value)
    }
}

impl vstd::std_specs::convert::FromSpecImpl<Lp> for Dimension {
    open spec fn obeys_from_spec() -> bool {
        true
    }

    open spec fn from_spec(value: Lp) -> Dimension {
        Dimension::Lp(value)
    }
}

} // verus!

