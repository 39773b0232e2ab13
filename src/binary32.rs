use vstd::prelude::*;
use vstd::arithmetic::power2::{lemma_pow2_pos, lemma_pow2_strictly_increases, lemma_pow2_unfold, pow2};

verus! {

/// Bit pattern of an IEEE-754 single-precision number.
#[derive(Clone, Copy, Debug, PartialEq, Eq, Structural)]
pub struct Binary32 {
    pub bits: u32,
}

/// Sign bit of a pattern.
pub const SIGN_BIT: u32 = 0x8000_0000;

/// Pattern of positive infinity; any larger magnitude is a NaN.
pub const INFINITY_BITS: u32 = 0x7f80_0000;

/// Exponent and fraction bits, without the sign.
pub open spec fn magnitude(b: u32) -> int {
    (b as int) % (SIGN_BIT as int)
}

pub open spec fn is_negative(b: u32) -> bool {
    b >= SIGN_BIT
}

pub open spec fn spec_is_nan(b: u32) -> bool {
    magnitude(b) > INFINITY_BITS as int
}

/// Position of a non-NaN pattern on the number line. IEEE-754 lays out the
/// patterns of each sign in order of magnitude, so for two non-NaN patterns
/// `a < b` as numbers exactly when `order_key(a) < order_key(b)`; the two
/// zeros both sit at 0.
pub open spec fn order_key(b: u32) -> int {
    if is_negative(b) {
        -magnitude(b)
    } else {
        magnitude(b)
    }
}

/// `a < b` as IEEE-754 numbers: false whenever either is a NaN.
pub open spec fn spec_lt(a: u32, b: u32) -> bool {
    !spec_is_nan(a) && !spec_is_nan(b) && order_key(a) < order_key(b)
}

/// `a == b` as IEEE-754 numbers: `+0 == -0`, and a NaN equals nothing.
pub open spec fn spec_num_eq(a: u32, b: u32) -> bool {
    !spec_is_nan(a) && !spec_is_nan(b) && order_key(a) == order_key(b)
}

/// Width of the fraction field, as a multiplier (2^23).
pub const FRACTION_SPAN: u32 = 0x80_0000;

pub open spec fn exponent_field(b: u32) -> int {
    magnitude(b) / (FRACTION_SPAN as int)
}

pub open spec fn fraction_field(b: u32) -> int {
    magnitude(b) % (FRACTION_SPAN as int)
}

/// Neither an infinity nor a NaN.
pub open spec fn is_finite(b: u32) -> bool {
    exponent_field(b) < 255
}

/// Absolute value of the number that a magnitude encodes, times 2^149, which
/// makes it an integer for every finite pattern: a subnormal is
/// `fraction · 2^-149`, a normal number `(2^23 + fraction) · 2^(exponent - 150)`.
pub open spec fn scaled_abs(m: int) -> int {
    let e = m / (FRACTION_SPAN as int);
    let f = m % (FRACTION_SPAN as int);
    if e == 0 {
        f
    } else {
        (f + FRACTION_SPAN as int) * pow2((e - 1) as nat)
    }
}

/// The number that a finite pattern encodes, times 2^149.
pub open spec fn scaled_value(b: u32) -> int {
    if is_negative(b) {
        -scaled_abs(magnitude(b))
    } else {
        scaled_abs(magnitude(b))
    }
}

proof fn lemma_scaled_abs_zero(m: int)
    requires
        0 <= m,
    ensures
        scaled_abs(m) >= 0,
        scaled_abs(m) == 0 <==> m == 0,
{
    let e = m / (FRACTION_SPAN as int);
    let f = m % (FRACTION_SPAN as int);
    if e > 0 {
        lemma_pow2_pos((e - 1) as nat);
        assert((f + FRACTION_SPAN as int) * pow2((e - 1) as nat) > 0) by (nonlinear_arith)
            requires
                f >= 0,
                pow2((e - 1) as nat) > 0,
        ;
    }
}

proof fn lemma_scaled_abs_strictly_increases(m1: int, m2: int)
    requires
        0 <= m1 < m2,
    ensures
        scaled_abs(m1) < scaled_abs(m2),
{
    let s = FRACTION_SPAN as int;
    let e1 = m1 / s;
    let f1 = m1 % s;
    let e2 = m2 / s;
    let f2 = m2 % s;
    assert(e1 <= e2) by (nonlinear_arith)
        requires
            e1 == m1 / s,
            e2 == m2 / s,
            0 <= m1 < m2,
            s > 0,
    ;
    if e1 == e2 {
        assert(f1 < f2);
        if e1 > 0 {
            let p = pow2((e1 - 1) as nat);
            lemma_pow2_pos((e1 - 1) as nat);
            assert((f1 + s) * p < (f2 + s) * p) by (nonlinear_arith)
                requires
                    f1 < f2,
                    p > 0,
            ;
        }
    } else {
        let p2 = pow2((e2 - 1) as nat);
        lemma_pow2_pos((e2 - 1) as nat);
        assert(s <= (f2 + s) * p2) by (nonlinear_arith)
            requires
                f2 >= 0,
                p2 >= 1,
                s > 0,
        ;
        if e1 > 0 {
            let p1 = pow2((e1 - 1) as nat);
            lemma_pow2_pos((e1 - 1) as nat);
            lemma_pow2_unfold(e1 as nat);
            if e1 < e2 - 1 {
                lemma_pow2_strictly_increases(e1 as nat, (e2 - 1) as nat);
            }
            assert(2 * p1 <= p2);
            assert((f1 + s) * p1 < s * p2) by (nonlinear_arith)
                requires
                    0 <= f1 < s,
                    p1 > 0,
                    2 * p1 <= p2,
            ;
            assert(s * p2 <= (f2 + s) * p2) by (nonlinear_arith)
                requires
                    f2 >= 0,
                    p2 > 0,
            ;
        }
    }
}

/// Comparing order keys is comparing numbers: for two finite patterns,
/// `order_key` orders them as the numbers they encode, and ties exactly
/// when the numbers are equal.
pub proof fn lemma_order_key_is_numeric(a: u32, b: u32)
    requires
        is_finite(a),
        is_finite(b),
    ensures
        order_key(a) < order_key(b) <==> scaled_value(a) < scaled_value(b),
        order_key(a) == order_key(b) <==> scaled_value(a) == scaled_value(b),
{
    let ma = magnitude(a);
    let mb = magnitude(b);
    lemma_scaled_abs_zero(ma);
    lemma_scaled_abs_zero(mb);
    if ma < mb {
        lemma_scaled_abs_strictly_increases(ma, mb);
    } else if mb < ma {
        lemma_scaled_abs_strictly_increases(mb, ma);
    }
}

impl Binary32 {
    pub fn from_bits(bits: u32) -> (r: Binary32)
        ensures
            r.bits == bits,
    {
        Binary32 { bits }
    }

    pub fn is_nan(&self) -> (r: bool)
        ensures
            r == spec_is_nan(self.bits),
    {
        self.bits % SIGN_BIT > INFINITY_BITS
    }

    fn key(&self) -> (r: i64)
        ensures
            r == order_key(self.bits),
    {
        if self.bits >= SIGN_BIT {
            -((self.bits - SIGN_BIT) as i64)
        } else {
            self.bits as i64
        }
    }

    /// Numeric `self < other`.
    pub fn lt(&self, other: &Binary32) -> (r: bool)
        ensures
            r == spec_lt(self.bits, other.bits),
    {
        !self.is_nan() && !other.is_nan() && self.key() < other.key()
    }

    /// Numeric `self > other`.
    pub fn gt(&self, other: &Binary32) -> (r: bool)
        ensures
            r == spec_lt(other.bits, self.bits),
    {
        other.lt(self)
    }

    /// Numeric `self == other`.
    pub fn num_eq(&self, other: &Binary32) -> (r: bool)
        ensures
            r == spec_num_eq(self.bits, other.bits),
    {
        !self.is_nan() && !other.is_nan() && self.key() == other.key()
    }
}

} // verus!
