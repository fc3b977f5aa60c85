//! Lock identifiers and the constant-product pricing rule.

use vstd::prelude::*;
use crate::error::SwapError;
use crate::list_map::Key;
use crate::token_balances::TokenAmount;
use crate::wide::{limb, wide_mul_div, Wide};

verus! {

/// Id of a liquidity lock.
#[derive(Copy, Clone, Debug, PartialEq, Eq, Structural)]
pub struct LiquidityLockId {
    /// The number behind the id.
    pub raw_id: u128,
}

impl LiquidityLockId {
    /// Creates the initial id.
    pub fn initial_id() -> (id: Self)
        ensures
            id.raw_id == 0,
    {
        LiquidityLockId { raw_id: 0 }
    }

    /// Returns the id which comes next after `self`.
    pub fn next(&self) -> (id: Self)
        requires
            self.raw_id < u128::MAX,
        ensures
            id.raw_id == self.raw_id + 1,
    {
        LiquidityLockId { raw_id: self.raw_id + 1 }
    }

    /// Returns the id which comes next after `self`, or nothing when the ids are used up.
    pub fn checked_next(&self) -> (id: Option<Self>)
        ensures
            match id {
                Some(next) => next.raw_id == self.raw_id + 1,
                None => self.raw_id == u128::MAX,
            },
    {
        match self.raw_id.checked_add(1) {
            Some(raw_id) => Some(LiquidityLockId { raw_id }),
            None => None,
        }
    }
}

impl Key for LiquidityLockId {
    fn same_key(&self, other: &Self) -> (same: bool) {
        self.raw_id == other.raw_id
    }
}

/// Information about a lock acquired on a swap contract.
#[derive(Copy, Clone, Debug, PartialEq, Eq, Structural)]
pub struct AcquiredLiquidityLockInformation {
    /// Id of the lock, used when executing or cancelling the lock.
    pub lock_id: LiquidityLockId,
    /// How many output tokens are received if the lock is executed.
    pub amount_out: TokenAmount,
}

/// The part of a swapped amount, in per mille, that is left after the fee.
pub open spec fn remainder_ratio(swap_fee_per_mille: nat) -> nat
    recommends
        swap_fee_per_mille <= 1000,
{
    (1000 - swap_fee_per_mille) as nat
}

/// The numerator of the pricing rule: the input after the fee, times the output pool.
pub open spec fn swap_numerator(
    pool_token_out: nat,
    swap_amount_in: nat,
    swap_fee_per_mille: nat,
) -> nat {
    remainder_ratio(swap_fee_per_mille) * swap_amount_in * pool_token_out
}

/// The denominator of the pricing rule: the input pool plus the input after the fee,
/// both scaled by a thousand.
pub open spec fn swap_denominator(
    pool_token_in: nat,
    swap_amount_in: nat,
    swap_fee_per_mille: nat,
) -> nat {
    1000 * pool_token_in + remainder_ratio(swap_fee_per_mille) * swap_amount_in
}

/// The constant-product price: how many output tokens `swap_amount_in` input tokens buy
/// once the fee is taken out of the input, rounded down.
pub open spec fn swap_to_amount(
    pool_token_in: nat,
    pool_token_out: nat,
    swap_amount_in: nat,
    swap_fee_per_mille: nat,
) -> nat
    recommends
        swap_fee_per_mille <= 1000,
        swap_denominator(pool_token_in, swap_amount_in, swap_fee_per_mille) > 0,
{
    swap_numerator(pool_token_out, swap_amount_in, swap_fee_per_mille) / swap_denominator(
        pool_token_in,
        swap_amount_in,
        swap_fee_per_mille,
    )
}

/// Calculates how many of the output token `swap_amount_in` buys, given an exchange fee in
/// per mille: what the input, less the fee, is worth in the output token. The products
/// on the way are worked out in full, whatever their size. There has to be something to
/// divide by: an input pool that is not empty, or an input of which the fee leaves
/// something.
pub fn calculate_swap_to_amount(
    pool_token_in: TokenAmount,
    pool_token_out: TokenAmount,
    swap_amount_in: TokenAmount,
    swap_fee_per_mille: u16,
) -> (amount_out: TokenAmount)
    requires
        swap_fee_per_mille <= 1000,
        swap_denominator(pool_token_in as nat, swap_amount_in as nat, swap_fee_per_mille as nat) > 0,
    ensures
        amount_out == swap_to_amount(
            pool_token_in as nat,
            pool_token_out as nat,
            swap_amount_in as nat,
            swap_fee_per_mille as nat,
        ),
        amount_out <= pool_token_out,
{
    let ratio: TokenAmount = (1000 - swap_fee_per_mille) as TokenAmount;
    let paid_in = Wide::multiple(ratio, swap_amount_in);
    let scaled_pool = Wide::multiple(1000, pool_token_in);
    proof {
        lemma_swap_terms_fit(paid_in, scaled_pool);
    }
    let denominator = scaled_pool.plus(&paid_in);
    wide_mul_div(&paid_in, pool_token_out, &denominator)
}

/// The sum of two numbers whose upper halves have at most 64 bits fits twice over in 256
/// bits.
proof fn lemma_swap_terms_fit(paid_in: Wide, scaled_pool: Wide)
    requires
        paid_in.high < 0x1_0000_0000_0000_0000,
        scaled_pool.high < 0x1_0000_0000_0000_0000,
    ensures
        2 * (scaled_pool.value() + paid_in.value()) < limb() * limb(),
{
    assert(2 * (scaled_pool.high * limb() + scaled_pool.low + paid_in.high * limb() + paid_in.low)
        < limb() * limb()) by (nonlinear_arith)
        requires
            paid_in.high < 0x1_0000_0000_0000_0000,
            scaled_pool.high < 0x1_0000_0000_0000_0000,
            paid_in.low < limb(),
            scaled_pool.low < limb(),
            limb() == 0x1_0000_0000_0000_0000_0000_0000_0000_0000int,
    ;
}

/// The price as [`swap_to_amount`] gives it. There is none where an empty input meets an
/// empty input pool, so that there is nothing to divide by.
pub open spec fn swap_quote(
    pool_token_in: TokenAmount,
    pool_token_out: TokenAmount,
    swap_amount_in: TokenAmount,
    swap_fee_per_mille: u16,
) -> Result<TokenAmount, SwapError>
    recommends
        swap_fee_per_mille <= 1000,
{
    if swap_denominator(pool_token_in as nat, swap_amount_in as nat, swap_fee_per_mille as nat)
        == 0 {
        Err(SwapError::DivisionByZero)
    } else {
        Ok(
            swap_to_amount(
                pool_token_in as nat,
                pool_token_out as nat,
                swap_amount_in as nat,
                swap_fee_per_mille as nat,
            ) as TokenAmount,
        )
    }
}

/// Calculates the price as [`calculate_swap_to_amount`] does, and refuses where an empty
/// input meets an empty input pool.
pub fn checked_swap_to_amount(
    pool_token_in: TokenAmount,
    pool_token_out: TokenAmount,
    swap_amount_in: TokenAmount,
    swap_fee_per_mille: u16,
) -> (quote: Result<TokenAmount, SwapError>)
    requires
        swap_fee_per_mille <= 1000,
    ensures
        quote == swap_quote(pool_token_in, pool_token_out, swap_amount_in, swap_fee_per_mille),
{
    if pool_token_in == 0 && (swap_amount_in == 0 || swap_fee_per_mille == 1000) {
        assert(remainder_ratio(swap_fee_per_mille as nat) * swap_amount_in as nat == 0)
            by (nonlinear_arith)
            requires
                swap_amount_in == 0 || remainder_ratio(swap_fee_per_mille as nat) == 0,
        ;
        return Err(SwapError::DivisionByZero);
    }
    assert(remainder_ratio(swap_fee_per_mille as nat) * swap_amount_in as nat > 0
        || pool_token_in > 0) by (nonlinear_arith)
        requires
            pool_token_in > 0 || (swap_amount_in > 0 && remainder_ratio(
                swap_fee_per_mille as nat,
            ) > 0),
    ;
    Ok(calculate_swap_to_amount(pool_token_in, pool_token_out, swap_amount_in, swap_fee_per_mille))
}

/// Rounded-down division is monotonic across fractions: a fraction that is no larger
/// has a quotient that is no larger.
proof fn lemma_quotient_order(n1: int, d1: int, n2: int, d2: int)
    requires
        0 <= n1,
        0 <= n2,
        0 < d1,
        0 < d2,
        n1 * d2 <= n2 * d1,
    ensures
        n1 / d1 <= n2 / d2,
{
    let q1 = n1 / d1;
    let q2 = n2 / d2;
    vstd::arithmetic::div_mod::lemma_fundamental_div_mod(n1, d1);
    vstd::arithmetic::div_mod::lemma_fundamental_div_mod(n2, d2);
    vstd::arithmetic::div_mod::lemma_mod_pos_bound(n1, d1);
    vstd::arithmetic::div_mod::lemma_mod_pos_bound(n2, d2);
    if q1 > q2 {
        assert(false) by (nonlinear_arith)
            requires
                n1 == d1 * q1 + n1 % d1,
                n2 == d2 * q2 + n2 % d2,
                0 <= n1 % d1 < d1,
                0 <= n2 % d2 < d2,
                0 < d1,
                0 < d2,
                q1 >= q2 + 1,
                q2 >= 0,
                n1 * d2 <= n2 * d1,
        ;
    }
}

/// A swap never pays out more than the output pool holds, and the product of the two
/// pools does not shrink: with the input pool grown by the input after the fee and the
/// output pool reduced by the payout, the product is at least what it was. The input
/// pool and the input after the fee are both taken times a thousand, so that the fee,
/// given in per mille, needs no division.
pub proof fn lemma_swap_keeps_constant_product(
    pool_token_in: nat,
    pool_token_out: nat,
    swap_amount_in: nat,
    swap_fee_per_mille: nat,
)
    requires
        swap_fee_per_mille <= 1000,
        swap_denominator(pool_token_in, swap_amount_in, swap_fee_per_mille) > 0,
    ensures
        swap_to_amount(pool_token_in, pool_token_out, swap_amount_in, swap_fee_per_mille)
            <= pool_token_out,
        swap_denominator(pool_token_in, swap_amount_in, swap_fee_per_mille) * (pool_token_out
            - swap_to_amount(pool_token_in, pool_token_out, swap_amount_in, swap_fee_per_mille))
            >= 1000 * pool_token_in * pool_token_out,
{
    let paid_in = (remainder_ratio(swap_fee_per_mille) * swap_amount_in) as int;
    let numerator = swap_numerator(pool_token_out, swap_amount_in, swap_fee_per_mille) as int;
    let denominator = swap_denominator(pool_token_in, swap_amount_in, swap_fee_per_mille) as int;
    let out = swap_to_amount(pool_token_in, pool_token_out, swap_amount_in, swap_fee_per_mille) as int;
    let pool_in = pool_token_in as int;
    let pool_out = pool_token_out as int;
    assert(out == numerator / denominator);
    vstd::arithmetic::div_mod::lemma_fundamental_div_mod(numerator, denominator);
    vstd::arithmetic::div_mod::lemma_mod_pos_bound(numerator, denominator);
    assert(out <= pool_out) by (nonlinear_arith)
        requires
            numerator == denominator * out + numerator % denominator,
            0 <= numerator % denominator < denominator,
            numerator == paid_in * pool_out,
            denominator == 1000 * pool_in + paid_in,
            0 <= paid_in,
            0 <= pool_in,
            0 <= pool_out,
            0 < denominator,
    {
        if out > pool_out {
            assert(denominator * out >= denominator * (pool_out + 1));
            assert(denominator * (pool_out + 1) > paid_in * pool_out);
        }
    }
    assert(denominator * (pool_out - out) >= 1000 * pool_in * pool_out) by (nonlinear_arith)
        requires
            numerator == denominator * out + numerator % denominator,
            0 <= numerator % denominator,
            numerator == paid_in * pool_out,
            denominator == 1000 * pool_in + paid_in,
    ;
}

/// Swapping more never pays out less.
pub proof fn lemma_swap_monotonic(
    pool_token_in: nat,
    pool_token_out: nat,
    smaller_amount_in: nat,
    larger_amount_in: nat,
    swap_fee_per_mille: nat,
)
    requires
        swap_fee_per_mille <= 1000,
        smaller_amount_in <= larger_amount_in,
        swap_denominator(pool_token_in, smaller_amount_in, swap_fee_per_mille) > 0,
    ensures
        swap_to_amount(pool_token_in, pool_token_out, smaller_amount_in, swap_fee_per_mille)
            <= swap_to_amount(pool_token_in, pool_token_out, larger_amount_in, swap_fee_per_mille),
{
    let ratio = remainder_ratio(swap_fee_per_mille) as int;
    let paid_1 = ratio * smaller_amount_in;
    let paid_2 = ratio * larger_amount_in;
    let scaled_pool = 1000 * pool_token_in as int;
    let pool_out = pool_token_out as int;
    assert(0 <= paid_1 <= paid_2) by (nonlinear_arith)
        requires
            0 <= ratio,
            0 <= smaller_amount_in <= larger_amount_in,
            paid_1 == ratio * smaller_amount_in,
            paid_2 == ratio * larger_amount_in,
    ;
    assert((paid_1 * pool_out) * (scaled_pool + paid_2) <= (paid_2 * pool_out) * (scaled_pool
        + paid_1)) by (nonlinear_arith)
        requires
            0 <= paid_1 <= paid_2,
            0 <= scaled_pool,
            0 <= pool_out,
    ;
    assert(0 <= paid_1 * pool_out && 0 <= paid_2 * pool_out) by (nonlinear_arith)
        requires
            0 <= paid_1 <= paid_2,
            0 <= pool_out,
    ;
    lemma_quotient_order(
        paid_1 * pool_out,
        scaled_pool + paid_1,
        paid_2 * pool_out,
        scaled_pool + paid_2,
    );
}

} // verus!
