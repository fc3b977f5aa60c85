//! Integer helpers: square root and division that rounds up.

use vstd::prelude::*;

verus! {

/// `r` is the integer square root of `x`, rounded down.
pub open spec fn is_sqrt_floor(x: nat, r: nat) -> bool {
    r * r <= x < (r + 1) * (r + 1)
}

/// The largest natural number whose square does not exceed `x`.
pub open spec fn sqrt_floor(x: nat) -> nat {
    choose|r: nat| is_sqrt_floor(x, r)
}

/// At most one number is the rounded-down square root of `x`.
pub proof fn lemma_sqrt_floor_unique(x: nat, r1: nat, r2: nat)
    requires
        is_sqrt_floor(x, r1),
        is_sqrt_floor(x, r2),
    ensures
        r1 == r2,
{
    if r1 < r2 {
        assert((r1 + 1) * (r1 + 1) <= r2 * r2) by (nonlinear_arith)
            requires
                r1 + 1 <= r2,
        ;
    } else if r2 < r1 {
        assert((r2 + 1) * (r2 + 1) <= r1 * r1) by (nonlinear_arith)
            requires
                r2 + 1 <= r1,
        ;
    }
}

/// Every number has a rounded-down square root.
pub proof fn lemma_sqrt_floor_is_root(x: nat)
    ensures
        is_sqrt_floor(x, sqrt_floor(x)),
    decreases x,
{
    if x == 0 {
        assert(0nat * 0nat == 0 && (0nat + 1) * (0nat + 1) == 1) by (nonlinear_arith);
        assert(is_sqrt_floor(0, 0));
    } else {
        lemma_sqrt_floor_is_root((x - 1) as nat);
        let below = sqrt_floor((x - 1) as nat);
        if (below + 1) * (below + 1) <= x {
            assert(x < (below + 2) * (below + 2)) by (nonlinear_arith)
                requires
                    x - 1 < (below + 1) * (below + 1),
            ;
            assert(is_sqrt_floor(x, below + 1));
        } else {
            assert(below * below <= x) by (nonlinear_arith)
                requires
                    below * below <= x - 1,
            ;
            assert(is_sqrt_floor(x, below));
        }
    }
}

/// The rounded-down square root of a product is not more than the larger factor.
pub proof fn lemma_sqrt_floor_of_product(a: nat, b: nat)
    ensures
        sqrt_floor(a * b) <= if a <= b {
            b
        } else {
            a
        },
{
    lemma_sqrt_floor_is_root(a * b);
    let root = sqrt_floor(a * b);
    let larger = if a <= b {
        b
    } else {
        a
    };
    if root > larger {
        assert(root * root > a * b) by (nonlinear_arith)
            requires
                root > larger,
                a <= larger,
                b <= larger,
        ;
    }
}

/// Finds the square root of `input` by binary search, rounding down.
pub fn u128_sqrt(input: u128) -> (root: u64)
    ensures
        is_sqrt_floor(input as nat, root as nat),
        root as nat == sqrt_floor(input as nat),
{
    let mut low: u128 = 0;
    let mut high: u128 = 0x2_0000_0000_0000_0000;
    assert(input < high * high) by (nonlinear_arith)
        requires
            high == 0x2_0000_0000_0000_0000u128,
            input <= u128::MAX,
    ;
    assert(low * low <= input) by (nonlinear_arith)
        requires
            low == 0,
    ;
    while low != high - 1
        invariant
            low < high <= 0x2_0000_0000_0000_0000,
            low * low <= input,
            input < high * high,
        decreases high - low,
    {
        let middle: u128 = (low + high) / 2;
        let fits = match middle.checked_mul(middle) {
            Some(middle_squared) => middle_squared <= input,
            None => false,
        };
        if fits {
            low = middle;
        } else {
            high = middle;
        }
    }
    assert(low <= u64::MAX) by (nonlinear_arith)
        requires
            low * low <= input,
            input <= u128::MAX,
    ;
    proof {
        lemma_sqrt_floor_unique(input as nat, low as nat, sqrt_floor(input as nat));
    }
    low as u64
}

/// The quotient of `numerator` by `denominator`, rounded up.
pub open spec fn division_ceil(numerator: nat, denominator: nat) -> nat
    recommends
        denominator > 0,
{
    if numerator % denominator == 0 {
        numerator / denominator
    } else {
        numerator / denominator + 1
    }
}

/// The rounded-up quotient is the least `q` with `q * denominator >= numerator`.
pub proof fn lemma_division_ceil_is_least(numerator: nat, denominator: nat, q: nat)
    requires
        denominator > 0,
    ensures
        division_ceil(numerator, denominator) * denominator >= numerator,
        q * denominator >= numerator ==> q >= division_ceil(numerator, denominator),
{
    let d = denominator as int;
    let n = numerator as int;
    vstd::arithmetic::div_mod::lemma_fundamental_div_mod(n, d);
    let c = division_ceil(numerator, denominator) as int;
    assert(c * d >= n) by (nonlinear_arith)
        requires
            n == d * (n / d) + n % d,
            0 <= n % d < d,
            c == if n % d == 0 { n / d } else { n / d + 1 },
    ;
    if q < c {
        assert(q * d < n) by (nonlinear_arith)
            requires
                n == d * (n / d) + n % d,
                0 <= n % d < d,
                c == if n % d == 0 { n / d } else { n / d + 1 },
                0 <= q < c,
                d > 0,
        ;
    }
}

/// Divides `numerator` by `denominator` and rounds up. A zero denominator is refused.
pub fn u128_division_ceil(numerator: u128, denominator: u128) -> (result: Result<
    u128,
    &'static str,
>)
    ensures
        denominator == 0 <==> result is Err,
        result matches Err(reason) ==> reason@ == "Division by zero"@,
        result matches Ok(quotient) ==> quotient == division_ceil(
            numerator as nat,
            denominator as nat,
        ),
{
    if denominator == 0 {
        return Err("Division by zero");
    }
    let div_floor: u128 = numerator / denominator;
    let rem: u128 = numerator % denominator;
    if rem != 0 {
        proof {
            vstd::arithmetic::div_mod::lemma_fundamental_div_mod(
                numerator as int,
                denominator as int,
            );
        }
        assert(div_floor < u128::MAX) by (nonlinear_arith)
            requires
                numerator == denominator * div_floor + rem,
                0 < rem < denominator,
                numerator <= u128::MAX,
        ;
        Ok(div_floor + 1)
    } else {
        Ok(div_floor)
    }
}

} // verus!
