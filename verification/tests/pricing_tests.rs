use liquidity_swap_lock::liquidity_util::{calculate_swap_to_amount, checked_swap_to_amount};
use liquidity_swap_lock::error::SwapError;
use liquidity_swap_lock::math::u128_sqrt;
use liquidity_swap_lock::liquidity_math::{
    calculate_equivalent_and_minted_tokens, calculate_reclaim_output,
    checked_equivalent_and_minted_tokens, checked_reclaim_output, initial_liquidity_tokens,
};
use liquidity_swap_lock::token_balances::{Token, TokenAmount};
use rand::Rng;
use rand_chacha::rand_core::SeedableRng;

#[test]
fn test_token_clone() {
    assert_eq!(Token::A, Token::A.clone());
    assert_eq!(Token::B, Token::B.clone());
    assert_eq!(Token::LIQUIDITY, Token::LIQUIDITY.clone());
}

fn generic_test_calculate_swap_to_amount(input_a: TokenAmount) {
    assert!((1..=1000).contains(&input_a));

    // Equal start values for clarity. Large pools for reduced sensitivity.
    let a_pool: TokenAmount = 123456789;
    let b_pool: TokenAmount = 123456789;

    // Swap back and forth
    // First swap will give us an input/output difference of at most 4, if input is 1000, due to a fee of 3 and flooring.
    let output_b: TokenAmount = calculate_swap_to_amount(a_pool, b_pool, input_a, 3);
    // Second swap will give us an input/output difference of at most 3, if first input was 1000, due to a fee of strictly less than 3 and flooring.
    let output_a: TokenAmount =
        calculate_swap_to_amount(b_pool - output_b, a_pool + input_a, output_b, 3);

    assert!(
        output_a + 3 >= output_b,
        "Output_a was: {output_a}, output_b was: {output_b}"
    );

    // Original input comparison
    assert!(
        output_a + 7 >= input_a,
        "Output_a was: {output_a}, input_a was: {input_a}"
    );
}

#[test]
pub fn test_calculate_swap_to_amount() {
    for input_a in 1..=1000 {
        generic_test_calculate_swap_to_amount(input_a);
    }
}

#[test]
pub fn calculate_swap_to_amount_float_floored_should_be_equal() {
    let mut rng = rand_chacha::ChaCha8Rng::seed_from_u64(10);
    let end_input_range = 10000000;

    for _ in 0..=100000 {
        let input_a: u64 = rng.gen_range(1..=end_input_range);
        let a_pool: u64 = rng.gen_range(1..=end_input_range);
        let b_pool: u64 = rng.gen_range(1..=end_input_range);

        let output_b: TokenAmount = calculate_swap_to_amount(
            a_pool as TokenAmount,
            b_pool as TokenAmount,
            input_a as TokenAmount,
            3,
        );

        // Calculate_swap_to_amount using floats and flooring in the end
        let input_a_flt: f64 = input_a as f64;
        let trade_fee_flt: f64 = input_a_flt * 0.003;
        let input_a_after_fee_flt: f64 = input_a_flt - trade_fee_flt;
        let output_b_flt: f64 =
            b_pool as f64 * (input_a_after_fee_flt) / (a_pool as f64 + input_a_after_fee_flt);
        let output_b_flt_floor: TokenAmount = output_b_flt.floor() as TokenAmount;

        assert_eq!(
            output_b_flt_floor, output_b,
            "Output_b_flt_floor was: {output_b_flt_floor}, output_b was: {output_b}"
        );
    }
}

#[test]
pub fn test_calculate_equivalent_and_minted_tokens() {
    // Equal token values, providing 10% of token A
    let pool_a: TokenAmount = 100;
    let pool_b: TokenAmount = 100;
    let total_minted_liquidity: TokenAmount = 100;
    let provided_amount: TokenAmount = 10;

    let (output_b, output_liquidity_tokens) = calculate_equivalent_and_minted_tokens(
        provided_amount,
        pool_a,
        pool_b,
        total_minted_liquidity,
    );

    assert_eq!(output_b, 11); // Explicit case of depositing an additional token, despite not being necessary if using float arithmetic
    assert_eq!(output_liquidity_tokens, 10);

    let pool_b: TokenAmount = 99;
    let (new_output_b, _) = calculate_equivalent_and_minted_tokens(
        provided_amount,
        pool_a,
        pool_b,
        total_minted_liquidity,
    );

    assert_eq!(new_output_b, 10); // Lowering the ratio of the pool tokens slightly gives expected output

    // Equal token values, providing (approximately) 10% of token A
    let pool_a: TokenAmount = 99999;
    let pool_b: TokenAmount = 99999;
    let total_minted_lliquidity: TokenAmount = 100;
    let provided_amount: TokenAmount = 9999;

    let (output_b, output_liquidity_tokens) = calculate_equivalent_and_minted_tokens(
        provided_amount,
        pool_a,
        pool_b,
        total_minted_lliquidity,
    );

    assert_eq!(output_b, 10000);
    assert_eq!(output_liquidity_tokens, 9); // Explicit case of minting 1 less token, despite being very close to expected value of 10
}

#[test]
pub fn test_calculate_updated_liquidity_reclaim() {
    // Equal token values, reclaiming 10% of total shares
    let pool_a: TokenAmount = 100;
    let pool_b: TokenAmount = 100;
    let total_minted_liquidity: TokenAmount = 100;
    let liquidity_tokens: TokenAmount = 10;

    let (a_output, b_output) =
        calculate_reclaim_output(liquidity_tokens, pool_a, pool_b, total_minted_liquidity);

    assert_eq!(a_output, 10);
    assert_eq!(b_output, 10);

    // Token A worth 5 token B, reclaiming 10% of total shares
    let pool_a: TokenAmount = 30;
    let pool_b: TokenAmount = 150;
    let total_minted_liquidity: TokenAmount = 100;
    let liquidity_tokens: TokenAmount = 10;

    let (output_a, output_b) =
        calculate_reclaim_output(liquidity_tokens, pool_a, pool_b, total_minted_liquidity);

    assert_eq!(output_a, 3);
    assert_eq!(output_b, 15);

    // Token A worth 2 token B, reclaiming 25% of total shares
    let pool_a: TokenAmount = 100;
    let pool_b: TokenAmount = 200;
    let total_minted_liquidity: TokenAmount = 100;
    let liquidity_tokens: TokenAmount = 25;

    let (output_a, output_b) =
        calculate_reclaim_output(liquidity_tokens, pool_a, pool_b, total_minted_liquidity);

    assert_eq!(output_a, 25);
    assert_eq!(output_b, 50);
}

#[test]
pub fn calculate_equivalent_and_minted_tokens_stress_test() {
    let mut rng = rand_chacha::ChaCha8Rng::seed_from_u64(10);
    let end_range = 10000;
    for _ in 0..101 {
        let mut pool_a: TokenAmount = rng.gen_range(1..=end_range);
        let mut pool_b: TokenAmount = rng.gen_range(1..=end_range);
        let mut total_minted_liquidity: TokenAmount = u128_sqrt(pool_a * pool_b).into();
        let mut constant_product = pool_a * pool_b;

        for _ in 0..10001 {
            let provided_a_tokens = rng.gen_range(1..=end_range);
            let provided_b_tokens_float_floor = pool_b * provided_a_tokens / pool_a;
            let minted_liquidity_float_floor =
                total_minted_liquidity * provided_a_tokens / pool_a;

            let (provided_b_tokens, minted_liquidity) = calculate_equivalent_and_minted_tokens(
                provided_a_tokens,
                pool_a,
                pool_b,
                total_minted_liquidity,
            );

            // Check invariants
            assert_eq!(provided_b_tokens, provided_b_tokens_float_floor + 1);
            assert_eq!(minted_liquidity, minted_liquidity_float_floor);

            assert!(pool_a < pool_a + provided_a_tokens);
            assert!(pool_b < pool_b + provided_b_tokens);
            assert!(total_minted_liquidity <= total_minted_liquidity + minted_liquidity); // Can happen that nothing is minted
            assert!(
                constant_product < (pool_a + provided_a_tokens) * (pool_b + provided_b_tokens)
            );

            // Update state
            pool_a += provided_a_tokens;
            pool_b += provided_b_tokens;
            total_minted_liquidity += minted_liquidity;
            constant_product = pool_a * pool_b;
        }
    }
}

#[test]
pub fn calculate_calculate_reclaim_output_stress_test() {
    let mut rng = rand_chacha::ChaCha8Rng::seed_from_u64(10);
    for _ in 0..1001 {
        let mut pool_a: TokenAmount = rng.gen_range(1..10001);
        let mut pool_b: TokenAmount = rng.gen_range(1..10001);
        let mut total_minted_liquidity: TokenAmount = u128_sqrt(pool_a * pool_b).into();
        let mut constant_product = pool_a * pool_b;

        for _ in 0..101 {
            let total_minted_liquidity_copy = total_minted_liquidity; // immutable range
            let provided_minted_liquidity = rng.gen_range(1..total_minted_liquidity_copy);

            let output_a_float_floor =
                pool_a * provided_minted_liquidity / total_minted_liquidity;
            let output_b_float_floor =
                pool_b * provided_minted_liquidity / total_minted_liquidity;

            let (output_a, output_b) = calculate_reclaim_output(
                provided_minted_liquidity,
                pool_a,
                pool_b,
                total_minted_liquidity,
            );

            // Check invariants
            assert_eq!(output_a, output_a_float_floor);
            assert_eq!(output_b, output_b_float_floor);

            assert!(pool_a - output_a <= pool_a);
            assert!(pool_b - output_b <= pool_b);
            assert!(
                total_minted_liquidity - provided_minted_liquidity < total_minted_liquidity
            );
            assert!(output_a * output_b <= constant_product);

            // Update state
            pool_a -= output_a;
            pool_b -= output_b;
            total_minted_liquidity -= provided_minted_liquidity;
            constant_product = pool_a * pool_b;

            // Stop early if we cannot reclaim more than 1 token
            if total_minted_liquidity <= 1 {
                break;
            }
        }
    }
}

#[test]
pub fn zero_cases() {
    let mut rng = rand_chacha::ChaCha8Rng::seed_from_u64(10);
    // Some state
    let e: TokenAmount = rng.gen_range(1..10001);
    let t: TokenAmount = rng.gen_range(1..10001);
    let l: TokenAmount = u128_sqrt(e * t).into();

    let delta_e: TokenAmount = 0;
    let delta_t = calculate_swap_to_amount(e, t, delta_e, 3);

    // State remains unchanged as a result of delta_e and delta_t being 0
    assert_eq!(delta_t, 0);

    let (opposite_equivalent, minted_liquidity_tokens) =
        calculate_equivalent_and_minted_tokens(0, e, t, l);
    assert_eq!(opposite_equivalent, 0);
    assert_eq!(minted_liquidity_tokens, 0);

    let (a_output, b_output) = calculate_reclaim_output(0, e, t, l);
    assert_eq!(a_output, 0);
    assert_eq!(b_output, 0);
}

#[test]
fn swap_price_has_exact_values() {
    // floor(997 * 100 * 1000 / (1000 * 1000 + 997 * 100)) = floor(99700000 / 1099700)
    assert_eq!(calculate_swap_to_amount(1000, 1000, 100, 3), 90);
    // without a fee: floor(1000 * 100 * 1000 / (1000 * 1000 + 1000 * 100))
    assert_eq!(calculate_swap_to_amount(1000, 1000, 100, 0), 90);
    assert_eq!(calculate_swap_to_amount(1000, 1100, 100, 0), 100);
    // the fee takes everything
    assert_eq!(calculate_swap_to_amount(1000, 1000, 100, 1000), 0);
    assert_eq!(calculate_swap_to_amount(5, 20, 5, 0), 10);
    assert_eq!(checked_swap_to_amount(1000, 1000, 100, 3), Ok(90));
    assert_eq!(checked_swap_to_amount(5, 20, 5, 0), Ok(10));
}

#[test]
fn swap_price_grows_with_the_input_and_keeps_the_product() {
    let pool_in: TokenAmount = 7_000_003;
    let pool_out: TokenAmount = 91_000_001;
    for fee in [0u16, 3, 500, 999, 1000] {
        let mut previous: TokenAmount = 0;
        for amount_in in 0..2000u128 {
            let out = calculate_swap_to_amount(pool_in, pool_out, amount_in * 977, fee);
            assert!(previous <= out);
            assert!(out <= pool_out);
            let paid_in = (1000 - TokenAmount::from(fee)) * amount_in * 977;
            assert!((1000 * pool_in + paid_in) * (pool_out - out) >= 1000 * pool_in * pool_out);
            previous = out;
        }
    }
}

#[test]
fn swap_round_trip_loses_at_most_the_fees() {
    let pool: TokenAmount = 100_000_000;
    for amount_in in 1..=1000u128 {
        let out_b = calculate_swap_to_amount(pool, pool, amount_in, 3);
        let out_a = calculate_swap_to_amount(pool - out_b, pool + amount_in, out_b, 3);
        assert!(out_a + 7 >= amount_in);
        assert!(out_a <= amount_in);
    }
}

#[test]
fn swap_price_is_exact_beyond_the_range_of_the_products() {
    let most = u128::MAX;
    assert_eq!(
        calculate_swap_to_amount(1, most, 2, 0),
        226854911280625642308916404954512140970
    );
    assert_eq!(calculate_swap_to_amount(most / 1000 + 1, 1, 1, 0), 0);
    assert_eq!(calculate_swap_to_amount(most / 1000, 1, most, 999), 0);
    assert_eq!(
        calculate_swap_to_amount(most, most, most, 0),
        170141183460469231731687303715884105727
    );
    assert_eq!(
        calculate_swap_to_amount(most, most, most, 3),
        169885588292526613957428384381308416034
    );
    assert_eq!(calculate_swap_to_amount(most, most, 1, 3), 0);
    assert_eq!(calculate_swap_to_amount(0, most, most, 0), most);
    assert_eq!(calculate_swap_to_amount(0, most, 1, 999), most);
    assert_eq!(
        calculate_swap_to_amount(1 << 100, 1 << 101, 1 << 99, 3),
        843408507459155631159301365205
    );
    // pools and input in tokens of eighteen decimals
    assert_eq!(
        calculate_swap_to_amount(
            123_456_789_000_000_000_000_000_000,
            987_654_321_000_000_000_000_000_000,
            55_000_000_000_000_000_000,
            3
        ),
        438679809151910351037
    );
    assert_eq!(
        checked_swap_to_amount(most, most, most, 3),
        Ok(169885588292526613957428384381308416034)
    );
}

#[test]
fn checked_swap_price_refuses_an_empty_input_to_an_empty_pool() {
    assert_eq!(checked_swap_to_amount(0, 10, 0, 3), Err(SwapError::DivisionByZero));
    assert_eq!(checked_swap_to_amount(0, 10, 5, 1000), Err(SwapError::DivisionByZero));
    assert_eq!(checked_swap_to_amount(0, 10, 0, 1000), Err(SwapError::DivisionByZero));
    assert_eq!(checked_swap_to_amount(0, 10, 5, 3), Ok(10));
    assert_eq!(checked_swap_to_amount(1, 10, 0, 1000), Ok(0));
    assert_eq!(checked_swap_to_amount(u128::MAX / 1000, 0, 0, 0), Ok(0));
}

#[test]
fn initial_liquidity_is_the_root_of_the_product() {
    let most = u128::MAX;
    assert_eq!(initial_liquidity_tokens(100, 100), 100);
    assert_eq!(initial_liquidity_tokens(30, 150), 67);
    assert_eq!(initial_liquidity_tokens(0, 150), 0);
    assert_eq!(initial_liquidity_tokens(0, most), 0);
    assert_eq!(initial_liquidity_tokens(1, 1), 1);
    assert_eq!(
        initial_liquidity_tokens(u128::from(u64::MAX), u128::from(u64::MAX)),
        u128::from(u64::MAX)
    );
    // beyond the range of the product
    assert_eq!(initial_liquidity_tokens(1 << 64, 1 << 64), 1 << 64);
    assert_eq!(initial_liquidity_tokens(most, most), most);
    assert_eq!(initial_liquidity_tokens(most, most - 1), most - 1);
    assert_eq!(initial_liquidity_tokens(most, 1), 18446744073709551615);
    assert_eq!(initial_liquidity_tokens(most, 4), 36893488147419103231);
    assert_eq!(initial_liquidity_tokens(1 << 127, 1 << 1), 1 << 64);
    assert_eq!(initial_liquidity_tokens(1 << 127, 1 << 2), 26087635650665564424);
    assert_eq!(
        initial_liquidity_tokens(
            100_000_000_000_000_000_000,
            400_000_000_000_000_000_000
        ),
        200_000_000_000_000_000_000
    );
}

#[test]
fn checked_liquidity_amounts_refuse_what_the_plain_ones_cannot_take() {
    let most = u128::MAX;
    assert_eq!(checked_equivalent_and_minted_tokens(10, 100, 100, 100), Ok((11, 10)));
    assert_eq!(checked_equivalent_and_minted_tokens(0, 0, 100, 100), Ok((0, 0)));
    assert_eq!(
        checked_equivalent_and_minted_tokens(10, 0, 100, 100),
        Err(SwapError::DivisionByZero)
    );
    // twice the most is owed
    assert_eq!(
        checked_equivalent_and_minted_tokens(2, 1, most, 1),
        Err(SwapError::ArithmeticOverflow)
    );
    // the most and one is owed
    assert_eq!(
        checked_equivalent_and_minted_tokens(1, 1, most, 1),
        Err(SwapError::ArithmeticOverflow)
    );
    assert_eq!(checked_equivalent_and_minted_tokens(1, 1, most - 1, 1), Ok((most, 1)));
    // twice the most is minted
    assert_eq!(
        checked_equivalent_and_minted_tokens(2, 1, 1, most),
        Err(SwapError::ArithmeticOverflow)
    );
    assert_eq!(checked_reclaim_output(10, 30, 150, 100), Ok((3, 15)));
    assert_eq!(checked_reclaim_output(10, 30, 150, 0), Err(SwapError::DivisionByZero));
    assert_eq!(checked_reclaim_output(2, most, 1, 2), Ok((most, 1)));
    assert_eq!(checked_reclaim_output(2, 1, most, 2), Ok((1, most)));
    assert_eq!(checked_reclaim_output(3, most, 1, 2), Err(SwapError::ArithmeticOverflow));
    assert_eq!(checked_reclaim_output(3, 1, most, 2), Err(SwapError::ArithmeticOverflow));
    assert_eq!(calculate_equivalent_and_minted_tokens(0, 0, 5, 5), (0, 0));
}

#[test]
fn liquidity_amounts_are_exact_beyond_the_range_of_the_products() {
    let most = u128::MAX;
    assert_eq!(
        calculate_equivalent_and_minted_tokens(most - 1, most, most, most),
        (most, most - 1)
    );
    assert_eq!(
        calculate_equivalent_and_minted_tokens(
            1_000_000_000_000_000_000_000_000_000_000,
            3_000_000_000_000_000_000_000_000_000_000,
            7_000_000_000_000_000_000_000_000_000_000,
            500_000_000_000_000_000_000_000_000_000
        ),
        (2333333333333333333333333333334, 166666666666666666666666666666)
    );
    assert_eq!(calculate_reclaim_output(most, most, most, most), (most, most));
    assert_eq!(
        calculate_reclaim_output(
            1_000_000_000_000_000_000_000_000_000_000,
            30_000_000_000_000_000_000_000_000_000_000,
            700_000_000_000_000_000_000_000_000_000_000,
            9_000_000_000_000_000_000_000_000_000_000
        ),
        (3333333333333333333333333333333, 77777777777777777777777777777777)
    );
}

#[test]
fn swap_price_of_random_inputs_stays_within_the_output_pool() {
    let mut rng = rand_chacha::ChaCha8Rng::seed_from_u64(7);
    for round in 0..20000 {
        // amounts of every size, small ones as often as large ones
        let bits_in = rng.gen_range(0..=128u32);
        let bits_out = rng.gen_range(0..=128u32);
        let bits_amount = rng.gen_range(0..=128u32);
        let cut = |value: u128, bits: u32| if bits == 0 { 0 } else { value >> (128 - bits) };
        let pool_in = cut(rng.gen::<u128>(), bits_in).max(1);
        let pool_out = cut(rng.gen::<u128>(), bits_out);
        let amount_in = cut(rng.gen::<u128>(), bits_amount);
        let fee: u16 = if round % 3 == 0 { 3 } else { rng.gen_range(0..=1000) };
        let out = calculate_swap_to_amount(pool_in, pool_out, amount_in, fee);
        assert!(out <= pool_out);
        if pool_out > 0 {
            assert!(out < pool_out);
        }
        assert_eq!(calculate_swap_to_amount(pool_in, pool_out, amount_in, 1000), 0);
        if amount_in < u128::MAX {
            assert!(out <= calculate_swap_to_amount(pool_in, pool_out, amount_in + 1, fee));
        }
        assert_eq!(checked_swap_to_amount(pool_in, pool_out, amount_in, fee), Ok(out));
    }
}

#[test]
fn liquidity_amounts_of_random_inputs_are_the_rounded_quotients() {
    let mut rng = rand_chacha::ChaCha8Rng::seed_from_u64(11);
    for _ in 0..20000 {
        let amount: u128 = rng.gen_range(0..=u128::from(u64::MAX));
        let pool_in: u128 = rng.gen_range(1..=u128::from(u64::MAX));
        let pool_out: u128 = rng.gen_range(0..=u128::from(u64::MAX));
        let minted: u128 = rng.gen_range(1..=u128::from(u64::MAX));
        let expected = if amount == 0 {
            (0, 0)
        } else {
            (amount * pool_out / pool_in + 1, amount * minted / pool_in)
        };
        assert_eq!(
            checked_equivalent_and_minted_tokens(amount, pool_in, pool_out, minted),
            Ok(expected)
        );
        assert_eq!(
            checked_reclaim_output(amount, pool_in, pool_out, minted),
            Ok((pool_in * amount / minted, pool_out * amount / minted))
        );
        let root = initial_liquidity_tokens(amount, pool_out);
        assert!(root * root <= amount * pool_out);
        assert!((root + 1) * (root + 1) > amount * pool_out);
    }
}
