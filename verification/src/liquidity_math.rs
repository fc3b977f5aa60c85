//! How much liquidity is minted for what is provided, and how much of the pools is paid
//! out for liquidity that is reclaimed.

use vstd::prelude::*;
use crate::error::SwapError;
use crate::math::{sqrt_floor, u128_sqrt};
use crate::token_balances::TokenAmount;
use crate::wide::{checked_mul_div, wide_sqrt, Wide};

verus! {

/// The liquidity tokens minted for the first liquidity: the square root, rounded down, of
/// the product of the two amounts.
pub open spec fn initial_liquidity(token_a_amount: nat, token_b_amount: nat) -> nat {
    sqrt_floor(token_a_amount * token_b_amount)
}

/// What has to be paid of the output token beside `token_in_amount` of the input token
/// to keep the pools' ratio, and the liquidity tokens minted for both. Nothing is owed
/// and nothing minted for an empty input. Else the amount owed is rounded down and one
/// is added, and the liquidity minted is rounded down, so that the pool never loses by
/// the rounding.
pub open spec fn equivalent_and_minted(
    token_in_amount: nat,
    token_in_pool: nat,
    token_out_pool: nat,
    total_minted_liquidity: nat,
) -> (nat, nat)
    recommends
        token_in_amount == 0 || token_in_pool > 0,
{
    if token_in_amount == 0 {
        (0, 0)
    } else {
        (
            token_in_amount * token_out_pool / token_in_pool + 1,
            token_in_amount * total_minted_liquidity / token_in_pool,
        )
    }
}

/// What burning `liquidity_token_amount` liquidity tokens pays out of each pool: the
/// burned part of the minted liquidity, taken of each pool and rounded down.
pub open spec fn reclaim_output(
    liquidity_token_amount: nat,
    pool_a: nat,
    pool_b: nat,
    minted_liquidity: nat,
) -> (nat, nat)
    recommends
        minted_liquidity > 0,
{
    (
        pool_a * liquidity_token_amount / minted_liquidity,
        pool_b * liquidity_token_amount / minted_liquidity,
    )
}

/// [`equivalent_and_minted`], where the input pool is not empty and both amounts fit in
/// a token amount. The products on the way need not fit.
pub open spec fn equivalent_and_minted_checked(
    token_in_amount: TokenAmount,
    token_in_pool: TokenAmount,
    token_out_pool: TokenAmount,
    total_minted_liquidity: TokenAmount,
) -> Result<(TokenAmount, TokenAmount), SwapError> {
    if token_in_amount == 0 {
        Ok((0, 0))
    } else if token_in_pool == 0 {
        Err(SwapError::DivisionByZero)
    } else {
        let (equivalent, minted) = equivalent_and_minted(
            token_in_amount as nat,
            token_in_pool as nat,
            token_out_pool as nat,
            total_minted_liquidity as nat,
        );
        if equivalent > TokenAmount::MAX || minted > TokenAmount::MAX {
            Err(SwapError::ArithmeticOverflow)
        } else {
            Ok((equivalent as TokenAmount, minted as TokenAmount))
        }
    }
}

/// [`reclaim_output`], where liquidity has been minted and both amounts fit in a token
/// amount. The products on the way need not fit.
pub open spec fn reclaim_output_checked(
    liquidity_token_amount: TokenAmount,
    pool_a: TokenAmount,
    pool_b: TokenAmount,
    minted_liquidity: TokenAmount,
) -> Result<(TokenAmount, TokenAmount), SwapError> {
    if minted_liquidity == 0 {
        Err(SwapError::DivisionByZero)
    } else {
        let (a_output, b_output) = reclaim_output(
            liquidity_token_amount as nat,
            pool_a as nat,
            pool_b as nat,
            minted_liquidity as nat,
        );
        if a_output > TokenAmount::MAX || b_output > TokenAmount::MAX {
            Err(SwapError::ArithmeticOverflow)
        } else {
            Ok((a_output as TokenAmount, b_output as TokenAmount))
        }
    }
}

/// Determines the liquidity tokens minted for the first liquidity: the square root of
/// the product, so that what a token is worth does not depend on the ratio in which the
/// first liquidity came. The product is worked out in full, whatever its size.
pub fn initial_liquidity_tokens(
    token_a_amount: TokenAmount,
    token_b_amount: TokenAmount,
) -> (minted: TokenAmount)
    ensures
        minted == initial_liquidity(token_a_amount as nat, token_b_amount as nat),
{
    assert(token_a_amount as nat * token_b_amount as nat == token_a_amount * token_b_amount)
        by (nonlinear_arith);
    match token_a_amount.checked_mul(token_b_amount) {
        Some(product) => u128_sqrt(product) as TokenAmount,
        None => wide_sqrt(&Wide::product(token_a_amount, token_b_amount)),
    }
}

/// Finds what has to be paid of the output token beside `token_in_amount` of the input
/// token, and the liquidity tokens minted for both. Due to rounding, a provider may pay
/// one token more and get one liquidity token less than the exact ratio gives.
pub fn calculate_equivalent_and_minted_tokens(
    token_in_amount: TokenAmount,
    token_in_pool: TokenAmount,
    token_out_pool: TokenAmount,
    total_minted_liquidity: TokenAmount,
) -> (amounts: (TokenAmount, TokenAmount))
    requires
        equivalent_and_minted_checked(
            token_in_amount,
            token_in_pool,
            token_out_pool,
            total_minted_liquidity,
        ) is Ok,
    ensures
        amounts.0 == equivalent_and_minted(
            token_in_amount as nat,
            token_in_pool as nat,
            token_out_pool as nat,
            total_minted_liquidity as nat,
        ).0,
        amounts.1 == equivalent_and_minted(
            token_in_amount as nat,
            token_in_pool as nat,
            token_out_pool as nat,
            total_minted_liquidity as nat,
        ).1,
{
    if token_in_amount > 0 {
        proof {
            assert(token_in_amount as nat * token_out_pool as nat == token_in_amount
                * token_out_pool) by (nonlinear_arith);
            assert(token_in_amount as nat * total_minted_liquidity as nat == token_in_amount
                * total_minted_liquidity) by (nonlinear_arith);
        }
        let token_out_equivalent = checked_mul_div(
            token_in_amount,
            token_out_pool,
            token_in_pool,
        ).unwrap() + 1;
        let minted_liquidity_tokens = checked_mul_div(
            token_in_amount,
            total_minted_liquidity,
            token_in_pool,
        ).unwrap();
        (token_out_equivalent, minted_liquidity_tokens)
    } else {
        (0, 0)
    }
}

/// As [`calculate_equivalent_and_minted_tokens`], but an empty input pool and amounts
/// beyond the range of a token amount are refused.
pub fn checked_equivalent_and_minted_tokens(
    token_in_amount: TokenAmount,
    token_in_pool: TokenAmount,
    token_out_pool: TokenAmount,
    total_minted_liquidity: TokenAmount,
) -> (amounts: Result<(TokenAmount, TokenAmount), SwapError>)
    ensures
        amounts == equivalent_and_minted_checked(
            token_in_amount,
            token_in_pool,
            token_out_pool,
            total_minted_liquidity,
        ),
{
    if token_in_amount == 0 {
        return Ok((0, 0));
    }
    if token_in_pool == 0 {
        return Err(SwapError::DivisionByZero);
    }
    proof {
        assert(token_in_amount as nat * token_out_pool as nat == token_in_amount * token_out_pool)
            by (nonlinear_arith);
        assert(token_in_amount as nat * total_minted_liquidity as nat == token_in_amount
            * total_minted_liquidity) by (nonlinear_arith);
    }
    let token_out_equivalent = match checked_mul_div(
        token_in_amount,
        token_out_pool,
        token_in_pool,
    ) {
        Some(rounded_down) => match rounded_down.checked_add(1) {
            Some(token_out_equivalent) => token_out_equivalent,
            None => { return Err(SwapError::ArithmeticOverflow); },
        },
        None => { return Err(SwapError::ArithmeticOverflow); },
    };
    match checked_mul_div(token_in_amount, total_minted_liquidity, token_in_pool) {
        Some(minted_liquidity_tokens) => Ok((token_out_equivalent, minted_liquidity_tokens)),
        None => Err(SwapError::ArithmeticOverflow),
    }
}

/// Calculates what burning `liquidity_token_amount` liquidity tokens pays out of each
/// pool. Due to rounding, it may be less of each than the exact share.
pub fn calculate_reclaim_output(
    liquidity_token_amount: TokenAmount,
    pool_a: TokenAmount,
    pool_b: TokenAmount,
    minted_liquidity: TokenAmount,
) -> (outputs: (TokenAmount, TokenAmount))
    requires
        reclaim_output_checked(liquidity_token_amount, pool_a, pool_b, minted_liquidity) is Ok,
    ensures
        outputs.0 == reclaim_output(
            liquidity_token_amount as nat,
            pool_a as nat,
            pool_b as nat,
            minted_liquidity as nat,
        ).0,
        outputs.1 == reclaim_output(
            liquidity_token_amount as nat,
            pool_a as nat,
            pool_b as nat,
            minted_liquidity as nat,
        ).1,
{
    proof {
        assert(pool_a as nat * liquidity_token_amount as nat == pool_a * liquidity_token_amount)
            by (nonlinear_arith);
        assert(pool_b as nat * liquidity_token_amount as nat == pool_b * liquidity_token_amount)
            by (nonlinear_arith);
    }
    let a_output = checked_mul_div(pool_a, liquidity_token_amount, minted_liquidity).unwrap();
    let b_output = checked_mul_div(pool_b, liquidity_token_amount, minted_liquidity).unwrap();
    (a_output, b_output)
}

/// As [`calculate_reclaim_output`], but refused where no liquidity has been minted or an
/// amount leaves the range of a token amount.
pub fn checked_reclaim_output(
    liquidity_token_amount: TokenAmount,
    pool_a: TokenAmount,
    pool_b: TokenAmount,
    minted_liquidity: TokenAmount,
) -> (outputs: Result<(TokenAmount, TokenAmount), SwapError>)
    ensures
        outputs == reclaim_output_checked(liquidity_token_amount, pool_a, pool_b, minted_liquidity),
{
    if minted_liquidity == 0 {
        return Err(SwapError::DivisionByZero);
    }
    proof {
        assert(pool_a as nat * liquidity_token_amount as nat == pool_a * liquidity_token_amount)
            by (nonlinear_arith);
        assert(pool_b as nat * liquidity_token_amount as nat == pool_b * liquidity_token_amount)
            by (nonlinear_arith);
    }
    let a_output = match checked_mul_div(pool_a, liquidity_token_amount, minted_liquidity) {
        Some(a_output) => a_output,
        None => { return Err(SwapError::ArithmeticOverflow); },
    };
    match checked_mul_div(pool_b, liquidity_token_amount, minted_liquidity) {
        Some(b_output) => Ok((a_output, b_output)),
        None => Err(SwapError::ArithmeticOverflow),
    }
}

} // verus!
