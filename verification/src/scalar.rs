//! Single-precision scalars as bit patterns.
//!
//! The renderer's arithmetic happens outside this crate; what arrives here is
//! the IEEE-754 binary32 pattern of each result. Classification and
//! comparison of such patterns need no arithmetic on the numbers themselves:
//! they are facts about the sign bit and the remaining 31 bits, and this
//! module states and proves them as such.

use vstd::prelude::*;
use vstd::arithmetic::power2::lemma_pow2_pos;
use vstd::arithmetic::power2::lemma_pow2_strictly_increases;
use vstd::arithmetic::power2::lemma_pow2_unfold;
use vstd::arithmetic::power2::pow2;

verus! {

/// The sign bit of a pattern.
pub const SIGN_BIT: u32 = 0x8000_0000;

/// Pattern of positive infinity: every larger magnitude encodes no number.
pub const INFINITY_BITS: u32 = 0x7F80_0000;

/// Pattern of positive zero.
pub const ZERO_BITS: u32 = 0;

/// Pattern of the number one.
pub const ONE_BITS: u32 = 0x3F80_0000;

/// Number of patterns that share one exponent: two to the width of the
/// fraction.
pub const FRACTION_SPAN: u32 = 0x80_0000;

/// The number that a sign-less pattern below infinity encodes, counted in
/// units of two to the power of minus 149, the smallest step between
/// numbers. With a zero exponent the fraction counts the units itself;
/// otherwise the fraction, with the hidden leading one, is doubled once for
/// every step of the exponent above one.
pub open spec fn units(magnitude: int) -> int {
    let exponent = magnitude / (FRACTION_SPAN as int);
    let fraction = magnitude % (FRACTION_SPAN as int);
    if exponent == 0 {
        fraction
    } else {
        (FRACTION_SPAN + fraction) * pow2((exponent - 1) as nat)
    }
}

/// A single-precision scalar, held as its IEEE-754 bit pattern.
#[derive(Clone, Copy, Debug, PartialEq, Eq, Structural)]
pub struct Scalar {
    pub bits: u32,
}

impl Scalar {
    /// The pattern without its sign bit.
    pub open spec fn magnitude(self) -> int {
        if self.bits >= SIGN_BIT {
            self.bits - SIGN_BIT
        } else {
            self.bits as int
        }
    }

    /// Whether the sign bit is set.
    pub open spec fn negative_sign(self) -> bool {
        self.bits >= SIGN_BIT
    }

    /// Whether the pattern encodes no number.
    pub open spec fn nan(self) -> bool {
        self.magnitude() > INFINITY_BITS
    }

    /// Whether the pattern is one of the two zeros.
    pub open spec fn zero(self) -> bool {
        self.magnitude() == 0
    }

    /// Position on the number line. Patterns of numbers compare as their keys
    /// do; the two zeros share key 0, and so compare equal.
    pub open spec fn key(self) -> int {
        if self.negative_sign() {
            -self.magnitude()
        } else {
            self.magnitude()
        }
    }

    /// `self > other` as the hardware decides it: false as soon as either
    /// side is no number.
    pub open spec fn greater(self, other: Scalar) -> bool {
        !self.nan() && !other.nan() && self.key() > other.key()
    }

    /// `self < other` as the hardware decides it.
    pub open spec fn less(self, other: Scalar) -> bool {
        other.greater(self)
    }

    /// `self == other` as the hardware decides it: the two zeros are equal,
    /// and a pattern that is no number equals nothing, itself included.
    pub open spec fn same_number(self, other: Scalar) -> bool {
        !self.nan() && !other.nan() && self.key() == other.key()
    }

    /// Whether the pattern encodes a number other than an infinity.
    pub open spec fn finite(self) -> bool {
        self.magnitude() < INFINITY_BITS
    }

    /// The number that a finite pattern encodes, counted in units of two to
    /// the power of minus 149.
    pub open spec fn value(self) -> int {
        if self.negative_sign() {
            -units(self.magnitude())
        } else {
            units(self.magnitude())
        }
    }

    /// Strictly greater than zero; positive infinity counts.
    pub open spec fn positive(self) -> bool {
        0 < self.bits <= INFINITY_BITS
    }

    pub fn from_bits(bits: u32) -> (s: Scalar)
        ensures
            s.bits == bits,
    {
        Scalar { bits }
    }

    pub fn to_bits(self) -> (bits: u32)
        ensures
            bits == self.bits,
    {
        self.bits
    }

    /// Positive zero.
    pub fn zero_value() -> (s: Scalar)
        ensures
            s.bits == ZERO_BITS,
            s.zero(),
    {
        Scalar { bits: ZERO_BITS }
    }

    /// The number one.
    pub fn one() -> (s: Scalar)
        ensures
            s.bits == ONE_BITS,
    {
        Scalar { bits: ONE_BITS }
    }

    fn magnitude_bits(self) -> (m: u32)
        ensures
            m == self.magnitude(),
    {
        if self.bits >= SIGN_BIT {
            self.bits - SIGN_BIT
        } else {
            self.bits
        }
    }

    fn order_key(self) -> (k: i64)
        ensures
            k == self.key(),
    {
        let m: i64 = self.magnitude_bits() as i64;
        if self.bits >= SIGN_BIT {
            -m
        } else {
            m
        }
    }

    pub fn is_nan(self) -> (r: bool)
        ensures
            r == self.nan(),
    {
        self.magnitude_bits() > INFINITY_BITS
    }

    pub fn is_zero(self) -> (r: bool)
        ensures
            r == self.zero(),
    {
        self.magnitude_bits() == 0
    }

    pub fn is_positive(self) -> (r: bool)
        ensures
            r == self.positive(),
    {
        0 < self.bits && self.bits <= INFINITY_BITS
    }

    pub fn gt(self, other: Scalar) -> (r: bool)
        ensures
            r == self.greater(other),
    {
        if self.is_nan() || other.is_nan() {
            false
        } else {
            self.order_key() > other.order_key()
        }
    }

    pub fn lt(self, other: Scalar) -> (r: bool)
        ensures
            r == self.less(other),
    {
        other.gt(self)
    }

    pub fn same(self, other: Scalar) -> (r: bool)
        ensures
            r == self.same_number(other),
    {
        if self.is_nan() || other.is_nan() {
            false
        } else {
            self.order_key() == other.order_key()
        }
    }
}

/// A larger sign-less pattern encodes a larger number, and only the zero
/// pattern encodes zero.
pub proof fn lemma_units_increase(low: int, high: int)
    requires
        0 <= low < high,
    ensures
        0 <= units(low) < units(high),
{
    let span = FRACTION_SPAN as int;
    let e1 = low / span;
    let f1 = low % span;
    let e2 = high / span;
    let f2 = high % span;
    assert(0 <= e1 <= e2);
    assert(0 <= f1 < span && 0 <= f2 < span);
    if e1 == e2 {
        assert(f1 < f2);
        if e1 > 0 {
            let p = pow2((e1 - 1) as nat) as int;
            lemma_pow2_pos((e1 - 1) as nat);
            assert(0 <= (span + f1) * p < (span + f2) * p) by (nonlinear_arith)
                requires
                    0 <= f1 < f2,
                    0 < p,
                    0 < span,
            ;
        }
    } else {
        let scale_high = pow2((e2 - 1) as nat) as int;
        lemma_pow2_pos((e2 - 1) as nat);
        assert(span * scale_high <= (span + f2) * scale_high) by (nonlinear_arith)
            requires
                0 <= f2,
                0 < scale_high,
        ;
        if e1 == 0 {
            assert(span <= span * scale_high) by (nonlinear_arith)
                requires
                    1 <= scale_high,
                    0 < span,
            ;
        } else {
            let scale_low = pow2((e1 - 1) as nat) as int;
            let doubled = pow2(e1 as nat) as int;
            lemma_pow2_pos((e1 - 1) as nat);
            lemma_pow2_unfold(e1 as nat);
            assert(doubled == 2 * scale_low);
            if e1 < e2 - 1 {
                lemma_pow2_strictly_increases(e1 as nat, (e2 - 1) as nat);
            }
            assert(doubled <= scale_high);
            assert(0 <= (span + f1) * scale_low < span * doubled) by (nonlinear_arith)
                requires
                    0 <= f1 < span,
                    0 < scale_low,
                    doubled == 2 * scale_low,
            ;
            assert(span * doubled <= span * scale_high) by (nonlinear_arith)
                requires
                    doubled <= scale_high,
                    0 < span,
            ;
        }
    }
}

/// Comparison of finite scalars is comparison of the numbers they encode.
pub proof fn lemma_order_is_numeric(a: Scalar, b: Scalar)
    requires
        a.finite(),
        b.finite(),
    ensures
        a.greater(b) <==> a.value() > b.value(),
        a.less(b) <==> a.value() < b.value(),
        a.same_number(b) <==> a.value() == b.value(),
        a.zero() <==> a.value() == 0,
        a.positive() <==> a.value() > 0,
{
    let x = a.magnitude();
    let y = b.magnitude();
    assert(units(0) == 0);
    if x < y {
        lemma_units_increase(x, y);
    }
    if y < x {
        lemma_units_increase(y, x);
    }
    if 0 < x {
        lemma_units_increase(0, x);
    }
    if 0 < y {
        lemma_units_increase(0, y);
    }
}

/// The infinities lie beyond every finite scalar.
pub proof fn lemma_infinities_bound(s: Scalar)
    requires
        s.finite(),
    ensures
        s.less(Scalar { bits: INFINITY_BITS }),
        s.greater(Scalar { bits: 0xFF80_0000 }),
{
}

/// The number one is two to the power of 149 units.
pub proof fn lemma_one_in_units()
    ensures
        (Scalar { bits: ONE_BITS }).value() == pow2(149),
{
    let span = FRACTION_SPAN as int;
    assert(ONE_BITS as int / span == 127 && ONE_BITS as int % span == 0);
    assert(pow2(149) == span * pow2(126)) by {
        vstd::arithmetic::power2::lemma_pow2_adds(23, 126);
        vstd::arithmetic::power2::lemma2_to64();
    }
}

/// A scalar is strictly positive exactly when it is greater than zero.
pub proof fn lemma_positive_is_greater_than_zero(s: Scalar)
    ensures
        s.positive() <==> s.greater(Scalar { bits: ZERO_BITS }),
{
}

/// Among strictly positive scalars the order of the numbers is the order of
/// the patterns read as unsigned integers.
pub proof fn lemma_positive_order_is_bit_order(a: Scalar, b: Scalar)
    requires
        a.positive(),
        b.positive(),
    ensures
        a.less(b) <==> a.bits < b.bits,
        a.same_number(b) <==> a.bits == b.bits,
{
}

/// Comparison is a strict order on the patterns that encode numbers: nothing
/// is less than itself, and `less` is transitive.
pub proof fn lemma_less_is_strict_order(a: Scalar, b: Scalar, c: Scalar)
    ensures
        !a.less(a),
        a.less(b) && b.less(c) ==> a.less(c),
        a.less(b) ==> !b.less(a),
        !a.nan() && !b.nan() ==> (a.less(b) || b.less(a) || a.same_number(b)),
{
}

} // verus!
