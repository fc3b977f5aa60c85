//! Numbers of up to 256 bits, for products of token amounts that are divided again
//! before they are used.

use vstd::prelude::*;
use crate::math::{is_sqrt_floor, lemma_sqrt_floor_unique, sqrt_floor};

verus! {

/// Two to the power of 128: one more than the largest token amount.
pub open spec fn limb() -> nat {
    (u128::MAX as nat) + 1
}

/// An unsigned number of 256 bits, held as two halves of 128 bits.
#[derive(Clone, Copy, Debug, PartialEq, Eq, Structural)]
pub struct Wide {
    /// The upper 128 bits.
    pub high: u128,
    /// The lower 128 bits.
    pub low: u128,
}

impl Wide {
    /// The number that the two halves stand for.
    pub open spec fn value(self) -> nat {
        self.high as nat * limb() + self.low as nat
    }

    /// The wide number that equals `low`.
    pub fn from_u128(low: u128) -> (wide: Wide)
        ensures
            wide.value() == low,
    {
        Wide { high: 0, low }
    }

    /// The product of `factor` and `x`, where `factor` has at most 64 bits.
    pub fn multiple(factor: u128, x: u128) -> (product: Wide)
        requires
            factor < 0x1_0000_0000_0000_0000,
        ensures
            product.value() == factor * x,
            product.high < 0x1_0000_0000_0000_0000,
    {
        let half: u128 = 0x1_0000_0000_0000_0000;
        let x_low: u128 = x % half;
        let x_high: u128 = x / half;
        assert(factor * x_low < limb() && factor * x_high < limb()) by (nonlinear_arith)
            requires
                factor < 0x1_0000_0000_0000_0000,
                x_low < 0x1_0000_0000_0000_0000,
                x_high < 0x1_0000_0000_0000_0000,
        ;
        assert(factor * x_high <= 0xFFFF_FFFF_FFFF_FFFE_0000_0000_0000_0001) by (nonlinear_arith)
            requires
                factor <= 0xFFFF_FFFF_FFFF_FFFF,
                x_high <= 0xFFFF_FFFF_FFFF_FFFF,
        ;
        let low_product: u128 = factor * x_low;
        let high_product: u128 = factor * x_high;
        let middle: u128 = (high_product % half) * half;
        let top: u128 = high_product / half;
        assert(factor * x == (top * limb() + middle) + low_product) by (nonlinear_arith)
            requires
                x == x_high * 0x1_0000_0000_0000_0000 + x_low,
                high_product == factor * x_high,
                low_product == factor * x_low,
                high_product == top * 0x1_0000_0000_0000_0000 + (high_product
                    % 0x1_0000_0000_0000_0000),
                middle == (high_product % 0x1_0000_0000_0000_0000) * 0x1_0000_0000_0000_0000,
        ;
        if middle > u128::MAX - low_product {
            Wide { high: top + 1, low: middle - (u128::MAX - low_product) - 1 }
        } else {
            Wide { high: top, low: middle + low_product }
        }
    }

    /// The number times two to the power of 64, where its upper half has at most 64
    /// bits.
    fn shifted_by_half(&self) -> (shifted: Wide)
        requires
            self.high < 0x1_0000_0000_0000_0000,
        ensures
            shifted.value() == self.value() * 0x1_0000_0000_0000_0000,
    {
        let half: u128 = 0x1_0000_0000_0000_0000;
        let low_high: u128 = self.low / half;
        let low_low: u128 = self.low % half;
        let shifted = Wide { high: self.high * half + low_high, low: low_low * half };
        assert(shifted.value() == self.value() * 0x1_0000_0000_0000_0000) by (nonlinear_arith)
            requires
                shifted.value() == (self.high * 0x1_0000_0000_0000_0000 + low_high) * limb()
                    + low_low * 0x1_0000_0000_0000_0000,
                self.value() == self.high * limb() + self.low,
                self.low == low_high * 0x1_0000_0000_0000_0000 + low_low,
                limb() == 0x1_0000_0000_0000_0000 * 0x1_0000_0000_0000_0000,
        ;
        shifted
    }

    /// The product of `x` and `y`.
    pub fn product(x: u128, y: u128) -> (product: Wide)
        ensures
            product.value() == x * y,
    {
        let half: u128 = 0x1_0000_0000_0000_0000;
        let from_low = Wide::multiple(x % half, y);
        let from_high = Wide::multiple(x / half, y).shifted_by_half();
        assert(from_low.value() + from_high.value() == x * y && x * y < limb() * limb())
            by (nonlinear_arith)
            requires
                from_low.value() == (x % 0x1_0000_0000_0000_0000) * y,
                from_high.value() == ((x / 0x1_0000_0000_0000_0000) * y) * 0x1_0000_0000_0000_0000,
                x == (x / 0x1_0000_0000_0000_0000) * 0x1_0000_0000_0000_0000 + (x
                    % 0x1_0000_0000_0000_0000),
                x < limb(),
                y < limb(),
        ;
        from_low.plus(&from_high)
    }

    /// Whether the number is `other` or more.
    pub fn at_least(&self, other: &Wide) -> (is: bool)
        ensures
            is == (self.value() >= other.value()),
    {
        assert(self.high > other.high ==> self.high as nat * limb() >= other.high as nat * limb()
            + limb()) by (nonlinear_arith);
        assert(other.high > self.high ==> other.high as nat * limb() >= self.high as nat * limb()
            + limb()) by (nonlinear_arith);
        self.high > other.high || (self.high == other.high && self.low >= other.low)
    }

    /// The sum of the number and `other`, which has to fit in 256 bits.
    pub fn plus(&self, other: &Wide) -> (sum: Wide)
        requires
            self.value() + other.value() < limb() * limb(),
        ensures
            sum.value() == self.value() + other.value(),
    {
        assert(self.high + other.high < limb() && (self.low + other.low >= limb() ==> self.high
            + other.high + 1 < limb())) by (nonlinear_arith)
            requires
                self.high as nat * limb() + self.low as nat + other.high as nat * limb() + (
                other.low as nat) < limb() * limb(),
        ;
        assert((self.high + other.high) * limb() == self.high as nat * limb() + other.high as nat
            * limb()) by (nonlinear_arith);
        assert((self.high + other.high + 1) * limb() == self.high as nat * limb()
            + other.high as nat * limb() + limb()) by (nonlinear_arith);
        if self.low > u128::MAX - other.low {
            Wide {
                high: self.high + other.high + 1,
                low: self.low - (u128::MAX - other.low) - 1,
            }
        } else {
            Wide { high: self.high + other.high, low: self.low + other.low }
        }
    }

    /// The number less `other`, which must not be more than the number.
    pub fn minus(&self, other: &Wide) -> (difference: Wide)
        requires
            self.value() >= other.value(),
        ensures
            difference.value() == self.value() - other.value(),
    {
        assert(self.high >= other.high && (self.low < other.low ==> self.high > other.high))
            by (nonlinear_arith)
            requires
                self.high as nat * limb() + self.low as nat >= other.high as nat * limb()
                    + other.low as nat,
                self.low < limb(),
                other.low < limb(),
        ;
        assert((self.high - other.high) * limb() == self.high as nat * limb() - other.high as nat
            * limb()) by (nonlinear_arith);
        assert((self.high - other.high - 1) * limb() == self.high as nat * limb()
            - other.high as nat * limb() - limb()) by (nonlinear_arith);
        if self.low >= other.low {
            Wide { high: self.high - other.high, low: self.low - other.low }
        } else {
            Wide {
                high: self.high - other.high - 1,
                low: u128::MAX - (other.low - self.low) + 1,
            }
        }
    }
}

/// The rounded-down quotient of `x * b` by `d`, with the remainder: the product is
/// built up from the bits of `b`, and `d` is taken off as soon as it fits, so that
/// nothing on the way is larger than twice `d`.
fn multiply_and_divide(x: &Wide, b: u128, d: &Wide) -> (result: (u128, Wide))
    requires
        x.value() <= d.value(),
        0 < d.value(),
        2 * d.value() < limb() * limb(),
    ensures
        b * x.value() == result.0 * d.value() + result.1.value(),
        result.1.value() < d.value(),
        result.0 <= b,
    decreases b,
{
    if b == 0 {
        assert(0 * x.value() == 0 * d.value() + 0) by (nonlinear_arith);
        return (0, Wide { high: 0, low: 0 });
    }
    let half: u128 = b / 2;
    let (half_quotient, half_remainder) = multiply_and_divide(x, half, d);
    let ghost xv = x.value() as int;
    let ghost dv = d.value() as int;
    let ghost hq = half_quotient as int;
    let ghost hr = half_remainder.value() as int;
    assert((2 * half) * xv == (2 * hq) * dv + 2 * hr) by (nonlinear_arith)
        requires
            half * xv == hq * dv + hr,
    ;
    assert(2 * hq <= 2 * half && (2 * hr >= dv ==> 2 * hq + 1 <= 2 * half)) by (nonlinear_arith)
        requires
            (2 * half) * xv == (2 * hq) * dv + 2 * hr,
            0 <= xv <= dv,
            0 < dv,
            0 <= hr < dv,
            0 <= hq,
            0 <= half,
    ;
    let doubled = half_remainder.plus(&half_remainder);
    let (mut quotient, mut remainder) = if doubled.at_least(d) {
        (2 * half_quotient + 1, doubled.minus(d))
    } else {
        (2 * half_quotient, doubled)
    };
    let ghost q1 = quotient as int;
    let ghost r1 = remainder.value() as int;
    assert((2 * half) * xv == q1 * dv + r1) by (nonlinear_arith)
        requires
            (2 * half) * xv == (2 * hq) * dv + 2 * hr,
            (q1 == 2 * hq + 1 && r1 == 2 * hr - dv) || (q1 == 2 * hq && r1 == 2 * hr),
    ;
    if b % 2 == 1 {
        assert(b * xv == q1 * dv + r1 + xv) by (nonlinear_arith)
            requires
                (2 * half) * xv == q1 * dv + r1,
                b == 2 * half + 1,
        ;
        assert(q1 <= b && (r1 + xv >= dv ==> q1 + 1 <= b)) by (nonlinear_arith)
            requires
                b * xv == q1 * dv + r1 + xv,
                0 <= xv <= dv,
                0 < dv,
                0 <= r1 < dv,
                0 <= q1,
                0 <= b,
        ;
        let added = remainder.plus(x);
        if added.at_least(d) {
            quotient = quotient + 1;
            remainder = added.minus(d);
        } else {
            remainder = added;
        }
        assert(b * xv == quotient * dv + remainder.value()) by (nonlinear_arith)
            requires
                b * xv == q1 * dv + r1 + xv,
                (quotient == q1 + 1 && remainder.value() == r1 + xv - dv) || (quotient == q1
                    && remainder.value() == r1 + xv),
        ;
    } else {
        assert(b == 2 * half);
    }
    (quotient, remainder)
}

/// The rounded-down quotient of `x * b` by `d`, where `x` is not more than `d`: the
/// quotient is then not more than `b`.
pub fn wide_mul_div(x: &Wide, b: u128, d: &Wide) -> (quotient: u128)
    requires
        x.value() <= d.value(),
        0 < d.value(),
        2 * d.value() < limb() * limb(),
    ensures
        quotient == (x.value() * b) / (d.value() as int),
        quotient <= b,
{
    let (quotient, remainder) = multiply_and_divide(x, b, d);
    proof {
        assert(x.value() * b == b * x.value()) by (nonlinear_arith);
        vstd::arithmetic::div_mod::lemma_fundamental_div_mod_converse(
            (x.value() * b) as int,
            d.value() as int,
            quotient as int,
            remainder.value() as int,
        );
    }
    quotient
}

/// The rounded-down quotient of `a * b` by `d`, where it fits in 128 bits. The product
/// itself need not fit.
pub open spec fn mul_div(a: u128, b: u128, d: u128) -> Option<u128>
    recommends
        d > 0,
{
    if (a * b) / (d as int) <= u128::MAX {
        Some(((a * b) / (d as int)) as u128)
    } else {
        None
    }
}

/// Multiplies `a` by `b` and divides the product by `d`, rounding down. The product may
/// be wider than 128 bits. There is no result where the quotient does not fit in 128
/// bits.
pub fn checked_mul_div(a: u128, b: u128, d: u128) -> (quotient: Option<u128>)
    requires
        d > 0,
    ensures
        quotient == mul_div(a, b, d),
{
    let whole: u128 = a / d;
    let rest: u128 = a % d;
    let d_wide = Wide::from_u128(d);
    assert(2 * d_wide.value() < limb() * limb()) by (nonlinear_arith)
        requires
            d_wide.value() < limb(),
    ;
    let from_rest = wide_mul_div(&Wide::from_u128(rest), b, &d_wide);
    proof {
        // a * b == whole * b * d + rest * b, so the quotient is whole * b and what the
        // rest gives
        vstd::arithmetic::div_mod::lemma_fundamental_div_mod(a as int, d as int);
        let product = a as int * b as int;
        let rest_product = rest as int * b as int;
        let whole_product = whole as int * b as int;
        assert(product == whole_product * d + rest_product) by (nonlinear_arith)
            requires
                a == d * whole + rest,
                product == a as int * b as int,
                rest_product == rest as int * b as int,
                whole_product == whole as int * b as int,
        ;
        assert(0 <= rest_product && 0 <= whole_product) by (nonlinear_arith)
            requires
                rest_product == rest as int * b as int,
                whole_product == whole as int * b as int,
        ;
        vstd::arithmetic::div_mod::lemma_fundamental_div_mod(rest_product, d as int);
        vstd::arithmetic::div_mod::lemma_mod_pos_bound(rest_product, d as int);
        let q = rest_product / (d as int);
        let r = rest_product % (d as int);
        assert(product == (whole_product + q) * d + r) by (nonlinear_arith)
            requires
                product == whole_product * d + rest_product,
                rest_product == d * q + r,
        ;
        assert(0 <= q) by (nonlinear_arith)
            requires
                rest_product == d * q + r,
                0 <= rest_product,
                0 <= r < d,
                d > 0,
        ;
        vstd::arithmetic::div_mod::lemma_fundamental_div_mod_converse(
            product,
            d as int,
            whole_product + q,
            r,
        );
        assert(from_rest == q);
    }
    match whole.checked_mul(b) {
        Some(from_whole) => from_whole.checked_add(from_rest),
        None => None,
    }
}

/// Finds the square root of `square`, rounded down.
pub fn wide_sqrt(square: &Wide) -> (root: u128)
    ensures
        is_sqrt_floor(square.value(), root as nat),
        root as nat == sqrt_floor(square.value()),
{
    let mut low: u128 = 0;
    let mut high: u128 = u128::MAX;
    assert(low * low <= square.value() && square.value() < (high + 1) * (high + 1))
        by (nonlinear_arith)
        requires
            low == 0,
            high + 1 == limb(),
            square.value() == square.high * limb() + square.low,
            square.high < limb(),
            square.low < limb(),
    ;
    while low < high
        invariant
            low <= high,
            low * low <= square.value(),
            square.value() < (high + 1) * (high + 1),
        decreases high - low,
    {
        let middle: u128 = low + (high - low) / 2 + (high - low) % 2;
        let middle_squared = Wide::product(middle, middle);
        if square.at_least(&middle_squared) {
            low = middle;
        } else {
            high = middle - 1;
        }
    }
    proof {
        lemma_sqrt_floor_unique(square.value(), low as nat, sqrt_floor(square.value()));
    }
    low
}

} // verus!
