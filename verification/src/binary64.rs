//! Double-precision values as CoreAudio hands them out, held by their bit pattern.
//!
//! CoreAudio reports sample rates and ranges as IEEE 754 doubles. The library compares them with
//! whole numbers and rounds them to whole numbers, which needs no floating-point arithmetic: a
//! finite double is a whole multiple of `2^-1074`, and every question asked here is a question
//! about that multiple.

use vstd::prelude::*;

verus! {

/// The bit pattern of an IEEE 754 double.
#[derive(Clone, Copy, Debug, PartialEq, Eq, Structural)]
pub struct Binary64 {
    pub bits: u64,
}

/// The number of hidden-bit units in one significand: `2^52`.
pub const HIDDEN_BIT: u64 = 0x10_0000_0000_0000;

/// The sign bit: `2^63`.
pub const SIGN_BIT: u64 = 0x8000_0000_0000_0000;

/// The biased exponent that marks infinities and NaNs.
pub const EXPONENT_SPECIAL: u64 = 2047;

/// One, counted in units of `2^-1074`.
pub open spec fn one() -> nat {
    vstd::arithmetic::power2::pow2(1074)
}

/// Half the distance from one to the next smaller double, counted in units of `2^-1074`.
///
/// A difference that falls short of one by no more than this rounds to one.
pub open spec fn rounding_slack() -> nat {
    vstd::arithmetic::power2::pow2(1020)
}

impl Binary64 {
    /// Whether the sign bit is set.
    pub open spec fn negative(self) -> bool {
        self.bits >= SIGN_BIT
    }

    /// The biased exponent field.
    pub open spec fn exponent(self) -> nat {
        ((self.bits / HIDDEN_BIT) % 2048) as nat
    }

    /// The fraction field.
    pub open spec fn fraction(self) -> nat {
        (self.bits % HIDDEN_BIT) as nat
    }

    pub open spec fn is_nan(self) -> bool {
        self.exponent() == EXPONENT_SPECIAL && self.fraction() != 0
    }

    pub open spec fn is_infinite(self) -> bool {
        self.exponent() == EXPONENT_SPECIAL && self.fraction() == 0
    }

    pub open spec fn is_finite(self) -> bool {
        self.exponent() != EXPONENT_SPECIAL
    }

    /// The significand of a finite value, with the hidden bit of a normal number made explicit.
    pub open spec fn significand(self) -> nat {
        if self.exponent() == 0 {
            self.fraction()
        } else {
            self.fraction() + HIDDEN_BIT as nat
        }
    }

    /// The power of two, over `2^-1074`, that the significand of a finite value counts.
    pub open spec fn scale(self) -> nat {
        if self.exponent() == 0 {
            0
        } else {
            (self.exponent() - 1) as nat
        }
    }

    /// The absolute value of a finite double, in units of `2^-1074`.
    pub open spec fn magnitude(self) -> nat {
        self.significand() * vstd::arithmetic::power2::pow2(self.scale())
    }

    /// The value of a finite double, in units of `2^-1074`.
    pub open spec fn value(self) -> int {
        if self.negative() {
            -(self.magnitude() as int)
        } else {
            self.magnitude() as int
        }
    }

    /// The double is at most the whole number `n`. A NaN compares with nothing.
    pub open spec fn at_most_spec(self, n: int) -> bool {
        if self.is_finite() {
            self.value() <= n * one()
        } else {
            self.is_infinite() && self.negative()
        }
    }

    /// The double is at least the whole number `n`. A NaN compares with nothing.
    pub open spec fn at_least_spec(self, n: int) -> bool {
        if self.is_finite() {
            self.value() >= n * one()
        } else {
            self.is_infinite() && !self.negative()
        }
    }

    /// The distance of a finite double from the whole number `n`, in units of `2^-1074`.
    pub open spec fn distance(self, n: int) -> nat {
        let d = self.value() - n * one();
        if d < 0 {
            (-d) as nat
        } else {
            d as nat
        }
    }

    /// The difference between the double and `n`, rounded to the nearest double, is at least one
    /// in absolute value. A NaN differs from nothing in this sense.
    pub open spec fn off_by_one_spec(self, n: int) -> bool {
        if self.is_finite() {
            self.distance(n) + rounding_slack() >= one()
        } else {
            self.is_infinite()
        }
    }

    /// The difference between the double and `n`, rounded to the nearest double, is less than one
    /// in absolute value. A NaN is near to nothing.
    pub open spec fn within_one_spec(self, n: int) -> bool {
        self.is_finite() && self.distance(n) + rounding_slack() < one()
    }

    /// The double rounded towards zero and clamped to the range of `u32`; zero for a NaN.
    pub open spec fn to_u32_spec(self) -> u32 {
        if self.is_nan() || self.negative() {
            0
        } else if self.is_infinite() || self.magnitude() / one() > u32::MAX {
            u32::MAX
        } else {
            (self.magnitude() / one()) as u32
        }
    }
}

/// The absolute value of a finite double, taken apart at the binary point.
///
/// `whole` is the whole part, or `2^32` where the whole part is larger than that. `exact` says
/// that nothing is left over, and `slight` that what is left over is within the rounding slack.
struct Split {
    whole: u64,
    exact: bool,
    slight: bool,
}

impl Split {
    /// What is left over of `x` behind the binary point, in units of `2^-1074`.
    spec fn rest(x: Binary64) -> nat {
        (x.magnitude() % one()) as nat
    }

    spec fn of(self, x: Binary64) -> bool {
        let whole = x.magnitude() / one();
        &&& self.whole == if whole > u32::MAX { 0x1_0000_0000 } else { whole }
        &&& whole <= u32::MAX ==> self.exact == (Split::rest(x) == 0)
        &&& whole <= u32::MAX ==> self.slight == (Split::rest(x) <= rounding_slack())
    }
}

/// Bounds on the parts of a finite double that the arithmetic below rests on.
proof fn lemma_parts(x: Binary64)
    requires
        x.is_finite(),
    ensures
        x.significand() < 0x20_0000_0000_0000,
        x.scale() <= 2045,
        x.scale() > 0 ==> x.significand() >= HIDDEN_BIT,
        one() > 0,
        rounding_slack() > 0,
{
    vstd::arithmetic::power2::lemma_pow2_pos(1074);
    vstd::arithmetic::power2::lemma_pow2_pos(1020);
}

/// A double whose scale reaches `2^0` is too large for `u32`.
proof fn lemma_large(x: Binary64)
    requires
        x.is_finite(),
        x.scale() >= 1074,
    ensures
        x.magnitude() / one() > u32::MAX,
{
    lemma_parts(x);
    let m = x.significand();
    let k = (x.scale() - 1074) as nat;
    vstd::arithmetic::power2::lemma_pow2_adds(k, 1074);
    vstd::arithmetic::power2::lemma_pow2_pos(k);
    let p = vstd::arithmetic::power2::pow2(k);
    let o = one();
    assert(x.magnitude() == (m * p) * o) by (nonlinear_arith)
        requires
            x.magnitude() == m * (p * o),
    ;
    assert(m * p >= HIDDEN_BIT) by (nonlinear_arith)
        requires
            m >= HIDDEN_BIT,
            p >= 1,
    ;
    vstd::arithmetic::div_mod::lemma_div_multiples_vanish((m * p) as int, o as int);
    assert((m * p) * o == o * (m * p)) by (nonlinear_arith);
}

/// Below that scale the significand itself splits at the binary point.
proof fn lemma_small(x: Binary64, k: nat)
    requires
        x.is_finite(),
        x.scale() + k == 1074,
        k > 0,
    ensures
        x.magnitude() / one() == x.significand() / vstd::arithmetic::power2::pow2(k),
        Split::rest(x) == (x.significand() % vstd::arithmetic::power2::pow2(k))
            * vstd::arithmetic::power2::pow2(x.scale()),
{
    lemma_parts(x);
    let m = x.significand() as int;
    let p = vstd::arithmetic::power2::pow2(k) as int;
    let u = vstd::arithmetic::power2::pow2(x.scale()) as int;
    vstd::arithmetic::power2::lemma_pow2_adds(x.scale(), k);
    vstd::arithmetic::power2::lemma_pow2_pos(k);
    vstd::arithmetic::power2::lemma_pow2_pos(x.scale());
    let q = m / p;
    let r = m % p;
    vstd::arithmetic::div_mod::lemma_fundamental_div_mod(m, p);
    vstd::arithmetic::div_mod::lemma_mod_bound(m, p);
    assert(m * u == q * (u * p) + r * u) by (nonlinear_arith)
        requires
            m == p * q + r,
    ;
    assert(0 <= r * u < u * p) by (nonlinear_arith)
        requires
            0 <= r < p,
            u > 0,
    ;
    vstd::arithmetic::div_mod::lemma_fundamental_div_mod_converse(m * u, u * p, q, r * u);
}

/// What is left over either reaches one only from a distance of twice the slack, or vanishes.
proof fn lemma_rest_bound(x: Binary64)
    requires
        x.is_finite(),
    ensures
        x.scale() < 1074 ==> Split::rest(x) + 2 * rounding_slack() <= one(),
{
    if x.scale() < 1074 {
        let k = (1074 - x.scale()) as nat;
        lemma_parts(x);
        lemma_small(x, k);
        let m = x.significand() as int;
        let p = vstd::arithmetic::power2::pow2(k) as int;
        let u = vstd::arithmetic::power2::pow2(x.scale()) as int;
        let r = m % p;
        let two = 2 * rounding_slack();
        vstd::arithmetic::power2::lemma_pow2_adds(x.scale(), k);
        vstd::arithmetic::power2::lemma_pow2_pos(k);
        vstd::arithmetic::power2::lemma_pow2_pos(x.scale());
        vstd::arithmetic::power2::lemma_pow2_unfold(1021);
        vstd::arithmetic::div_mod::lemma_mod_bound(m, p);
        assert(two == vstd::arithmetic::power2::pow2(1021));
        if k <= 53 {
            if x.scale() > 1021 {
                vstd::arithmetic::power2::lemma_pow2_strictly_increases(1021, x.scale());
            }
            assert(r * u + u <= u * p) by (nonlinear_arith)
                requires
                    0 <= r < p,
                    u > 0,
            ;
        } else {
            vstd::arithmetic::power2::lemma2_to64_rest();
            vstd::arithmetic::div_mod::lemma_mod_decreases(m as nat, p as nat);
            let c = vstd::arithmetic::power2::pow2(53) as int;
            vstd::arithmetic::power2::lemma_pow2_adds(53, x.scale());
            assert(r * u <= c * u) by (nonlinear_arith)
                requires
                    0 <= r <= c,
                    u > 0,
            ;
            if x.scale() < 1020 {
                vstd::arithmetic::power2::lemma_pow2_strictly_increases(
                    53 + x.scale(),
                    1073,
                );
            }
            vstd::arithmetic::power2::lemma_pow2_unfold(1074);
            vstd::arithmetic::power2::lemma_pow2_strictly_increases(1021, 1073);
        }
    }
}

/// When what is left over is within the rounding slack, in terms of the significand's low bits.
proof fn lemma_slight(x: Binary64, k: nat)
    requires
        x.is_finite(),
        x.scale() + k == 1074,
        k > 0,
    ensures
        k < 54 ==> (Split::rest(x) <= rounding_slack() <==> Split::rest(x) == 0),
        54 <= k ==> (Split::rest(x) <= rounding_slack() <==> x.significand()
            % vstd::arithmetic::power2::pow2(k) <= vstd::arithmetic::power2::pow2(
            (k - 54) as nat,
        )),
        (Split::rest(x) == 0) == (x.significand() % vstd::arithmetic::power2::pow2(k) == 0),
{
    lemma_parts(x);
    lemma_small(x, k);
    let m = x.significand() as int;
    let p = vstd::arithmetic::power2::pow2(k) as int;
    let u = vstd::arithmetic::power2::pow2(x.scale()) as int;
    let r = m % p;
    vstd::arithmetic::power2::lemma_pow2_pos(k);
    vstd::arithmetic::power2::lemma_pow2_pos(x.scale());
    vstd::arithmetic::div_mod::lemma_mod_bound(m, p);
    assert(r == 0 <==> r * u == 0) by (nonlinear_arith)
        requires
            u > 0,
            r >= 0,
    ;
    if k < 54 {
        vstd::arithmetic::power2::lemma_pow2_strictly_increases(1020, x.scale());
        assert(r > 0 ==> r * u >= u) by (nonlinear_arith)
            requires
                u > 0,
        ;
    } else {
        let t = vstd::arithmetic::power2::pow2((k - 54) as nat) as int;
        vstd::arithmetic::power2::lemma_pow2_adds(x.scale(), (k - 54) as nat);
        assert(r * u <= u * t <==> r <= t) by (nonlinear_arith)
            requires
                u > 0,
        ;
    }
}

/// The powers of two that fit `u64`, computed by a shift.
fn small_pow2(e: u64) -> (p: u64)
    requires
        e <= 53,
    ensures
        p == vstd::arithmetic::power2::pow2(e as nat),
{
    proof {
        vstd::bits::lemma_u64_pow2_no_overflow(e as nat);
        vstd::bits::lemma_u64_shl_is_mul(1, e);
    }
    1u64 << e
}

impl Split {
    fn new(x: Binary64) -> (s: Split)
        requires
            x.is_finite(),
        ensures
            s.of(x),
    {
        let exponent: u64 = (x.bits / HIDDEN_BIT) % 2048;
        let fraction: u64 = x.bits % HIDDEN_BIT;
        let significand: u64 = if exponent == 0 {
            fraction
        } else {
            fraction + HIDDEN_BIT
        };
        let scale: u64 = if exponent == 0 {
            0
        } else {
            exponent - 1
        };
        proof {
            lemma_parts(x);
        }
        if scale >= 1074 {
            proof {
                lemma_large(x);
            }
            return Split { whole: 0x1_0000_0000, exact: true, slight: true };
        }
        let k: u64 = 1074 - scale;
        proof {
            lemma_small(x, k as nat);
            lemma_slight(x, k as nat);
            vstd::arithmetic::power2::lemma2_to64_rest();
            vstd::arithmetic::power2::lemma_pow2_pos(k as nat);
        }
        let whole: u64;
        let low: u64;
        if k <= 53 {
            let p: u64 = small_pow2(k);
            whole = significand / p;
            low = significand % p;
        } else {
            proof {
                vstd::arithmetic::power2::lemma_pow2_strictly_increases(53, k as nat);
                vstd::arithmetic::div_mod::lemma_small_mod(
                    significand as nat,
                    vstd::arithmetic::power2::pow2(k as nat),
                );
                vstd::arithmetic::div_mod::lemma_basic_div(
                    significand as int,
                    vstd::arithmetic::power2::pow2(k as nat) as int,
                );
            }
            whole = 0;
            low = significand;
        }
        let exact: bool = low == 0;
        let slight: bool = if k < 54 {
            low == 0
        } else if k <= 107 {
            low <= small_pow2(k - 54)
        } else {
            proof {
                vstd::arithmetic::power2::lemma_pow2_strictly_increases(53, (k - 54) as nat);
            }
            true
        };
        Split {
            whole: if whole > 0xFFFF_FFFF {
                0x1_0000_0000
            } else {
                whole
            },
            exact,
            slight,
        }
    }
}

/// What the parts of a finite double say of its value.
proof fn lemma_value(x: Binary64)
    requires
        x.is_finite(),
    ensures
        x.magnitude() == (x.magnitude() / one()) * one() + Split::rest(x),
        0 <= Split::rest(x) < one(),
        one() > 2 * rounding_slack(),
        rounding_slack() > 0,
{
    lemma_parts(x);
    vstd::arithmetic::div_mod::lemma_fundamental_div_mod(x.magnitude() as int, one() as int);
    vstd::arithmetic::div_mod::lemma_mod_bound(x.magnitude() as int, one() as int);
    assert((x.magnitude() / one()) * one() == one() * (x.magnitude() / one()))
        by (nonlinear_arith);
    vstd::arithmetic::power2::lemma_pow2_unfold(1021);
    vstd::arithmetic::power2::lemma_pow2_strictly_increases(1021, 1074);
}

/// Whole numbers keep their order when they are counted in the finer unit.
proof fn lemma_units(a: int, b: int)
    ensures
        a <= b ==> a * one() <= b * one(),
        a < b ==> a * one() + one() <= b * one(),
{
    lemma_parts(Binary64 { bits: 0 });
    let o = one() as int;
    assert(a <= b ==> a * o <= b * o) by (nonlinear_arith)
        requires
            o > 0,
    ;
    assert(a < b ==> a * o + o <= b * o) by (nonlinear_arith)
        requires
            o > 0,
    ;
}

impl Binary64 {
    fn finite(self) -> (r: bool)
        ensures
            r == self.is_finite(),
    {
        (self.bits / HIDDEN_BIT) % 2048 != EXPONENT_SPECIAL
    }

    fn infinite(self) -> (r: bool)
        ensures
            r == self.is_infinite(),
    {
        (self.bits / HIDDEN_BIT) % 2048 == EXPONENT_SPECIAL && self.bits % HIDDEN_BIT == 0
    }

    /// Whether the double is at most `n`.
    pub fn at_most(self, n: u32) -> (r: bool)
        ensures
            r == self.at_most_spec(n as int),
    {
        let negative: bool = self.bits >= SIGN_BIT;
        if !self.finite() {
            return self.infinite() && negative;
        }
        let split: Split = Split::new(self);
        proof {
            let whole = self.magnitude() / one();
            lemma_value(self);
            lemma_units(0, n as int);
            lemma_units(whole as int, n as int);
            lemma_units(n as int, whole as int);
        }
        negative || split.whole < n as u64 || (split.whole == n as u64 && split.exact)
    }

    /// Whether the double is at least `n`.
    pub fn at_least(self, n: u32) -> (r: bool)
        ensures
            r == self.at_least_spec(n as int),
    {
        let negative: bool = self.bits >= SIGN_BIT;
        if !self.finite() {
            return self.infinite() && !negative;
        }
        let split: Split = Split::new(self);
        proof {
            let whole = self.magnitude() / one();
            lemma_value(self);
            lemma_units(0, n as int);
            lemma_units(0, whole as int);
            lemma_units(whole as int, n as int);
            lemma_units(n as int, whole as int);
        }
        if negative {
            n == 0 && split.whole == 0 && split.exact
        } else {
            split.whole >= n as u64
        }
    }

    /// Whether a finite double lies less than one away from `n`, after rounding the difference.
    fn near(self, n: u32) -> (r: bool)
        requires
            self.is_finite(),
        ensures
            r == (self.distance(n as int) + rounding_slack() < one()),
    {
        let negative: bool = self.bits >= SIGN_BIT;
        let split: Split = Split::new(self);
        proof {
            let whole = self.magnitude() / one();
            lemma_value(self);
            lemma_rest_bound(self);
            if self.scale() >= 1074 {
                lemma_large(self);
            }
            lemma_units(0, n as int);
            lemma_units(0, whole as int);
            lemma_units(1, whole as int);
            lemma_units(1, n as int);
            lemma_units(whole as int, n as int);
            lemma_units(whole as int + 1, n as int);
            lemma_units(n as int, whole as int);
            let o = one() as int;
            assert((whole + 1) * o == whole * o + o) by (nonlinear_arith);
        }
        if negative {
            n == 0 && split.whole == 0
        } else {
            split.whole == n as u64 || (split.whole + 1 == n as u64 && !split.slight)
        }
    }

    /// Whether the double and `n` differ by at least one.
    pub fn off_by_one(self, n: u32) -> (r: bool)
        ensures
            r == self.off_by_one_spec(n as int),
    {
        if self.finite() {
            !self.near(n)
        } else {
            self.infinite()
        }
    }

    /// Whether the double and `n` differ by less than one.
    pub fn within_one(self, n: u32) -> (r: bool)
        ensures
            r == self.within_one_spec(n as int),
    {
        self.finite() && self.near(n)
    }

    /// The double rounded towards zero, clamped to the range of `u32`.
    pub fn to_u32(self) -> (r: u32)
        ensures
            r == self.to_u32_spec(),
    {
        let negative: bool = self.bits >= SIGN_BIT;
        if !self.finite() {
            return if self.infinite() && !negative {
                u32::MAX
            } else {
                0
            };
        }
        if negative {
            return 0;
        }
        let split: Split = Split::new(self);
        if split.whole > 0xFFFF_FFFF {
            u32::MAX
        } else {
            split.whole as u32
        }
    }
}

/// A double is off from a whole number or near to it, never both, and neither only if it is a NaN.
pub proof fn lemma_off_or_near(x: Binary64, n: u32)
    ensures
        !(x.off_by_one_spec(n as int) && x.within_one_spec(n as int)),
        !x.off_by_one_spec(n as int) && !x.within_one_spec(n as int) <==> x.is_nan(),
{
}

/// Rounding towards zero keeps the order with every whole number.
pub proof fn lemma_rounding_keeps_order(x: Binary64, n: u32)
    ensures
        x.at_most_spec(n as int) ==> x.to_u32_spec() <= n,
        x.at_least_spec(n as int) ==> x.to_u32_spec() >= n,
{
    if x.is_finite() {
        let whole = (x.magnitude() / one()) as int;
        lemma_value(x);
        lemma_units(0, n as int);
        lemma_units(n as int, whole);
        lemma_units(whole, n as int);
    }
}

} // verus!
