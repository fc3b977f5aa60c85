use liquidity_swap_lock::address::{Address, AddressType};
use liquidity_swap_lock::error::SwapError;
use liquidity_swap_lock::liquidity_util::LiquidityLockId;
use liquidity_swap_lock::token_balances::{Token, TokenBalance, TokensInOut};
use liquidity_swap_lock::virtual_state::{LiquidityLock, LockLiquidity, VirtualState};

fn account(tag: u8) -> Address {
    Address { address_type: AddressType::Account, identifier: [tag; 20] }
}

fn lock_a_in(amount_in: u128, amount_out: u128, owner: Address) -> LiquidityLock {
    LiquidityLock { amount_in, amount_out, tokens_in_out: TokensInOut::a_in_b_out(), owner }
}

fn lock_b_in(amount_in: u128, amount_out: u128, owner: Address) -> LiquidityLock {
    LiquidityLock { amount_in, amount_out, tokens_in_out: TokensInOut::b_in_a_out(), owner }
}

fn pools(a_tokens: u128, b_tokens: u128) -> TokenBalance {
    TokenBalance { a_tokens, b_tokens, liquidity_tokens: 0 }
}

#[test]
fn lock_ids_count_up_from_zero() {
    let first = LiquidityLockId::initial_id();
    assert_eq!(first.raw_id, 0);
    assert_eq!(first.next().raw_id, 1);
    assert_eq!(first.next().next().raw_id, 2);
    assert_eq!(first.checked_next(), Some(first.next()));
    let last = LiquidityLockId { raw_id: u128::MAX };
    assert_eq!(last.checked_next(), None);
    assert_eq!(
        LiquidityLockId { raw_id: u128::MAX - 1 }.checked_next(),
        Some(last)
    );
}

#[test]
fn lock_liquidity_fields_are_found_by_token() {
    let mut liquidity = LockLiquidity { a_tokens: -1, b_tokens: 2 };
    assert_eq!(liquidity.get_amount_of(Token::A), -1);
    assert_eq!(liquidity.get_amount_of(Token::B), 2);
    *liquidity.get_mut_amount_of(Token::A) += 11;
    *liquidity.get_mut_amount_of(Token::B) -= 5;
    assert_eq!(liquidity, LockLiquidity { a_tokens: 10, b_tokens: -3 });
}

#[test]
fn new_virtual_state_has_no_locks() {
    let state = VirtualState::new();
    assert!(state.has_no_outstanding_locks());
    assert!(state.any_locked_liquidity());
    assert_eq!(state.virtual_liquidity_pools(100, 50), Ok(pools(100, 50)));
    let by_default = VirtualState::default();
    assert!(by_default.has_no_outstanding_locks());
    assert_eq!(by_default.virtual_liquidity_pools(0, u128::MAX), Ok(pools(0, u128::MAX)));
}

#[test]
fn acquired_locks_shift_the_virtual_pools() {
    let mut state = VirtualState::new();
    let owner = account(1);
    assert_eq!(state.add_lock(lock_a_in(10, 7, owner)), Ok(LiquidityLockId { raw_id: 0 }));
    assert!(!state.has_no_outstanding_locks());
    assert!(!state.any_locked_liquidity());
    assert_eq!(state.virtual_liquidity_pools(100, 100), Ok(pools(110, 93)));
    assert_eq!(state.add_lock(lock_b_in(20, 5, owner)), Ok(LiquidityLockId { raw_id: 1 }));
    assert_eq!(state.virtual_liquidity_pools(100, 100), Ok(pools(105, 113)));
    assert_eq!(state.add_lock(lock_b_in(0, 0, owner)), Ok(LiquidityLockId { raw_id: 2 }));
    assert_eq!(state.virtual_liquidity_pools(100, 100), Ok(pools(105, 113)));
}

#[test]
fn released_lock_gives_back_what_it_took() {
    let mut state = VirtualState::new();
    let owner = account(1);
    let first = state.add_lock(lock_a_in(10, 7, owner)).unwrap();
    let second = state.add_lock(lock_b_in(20, 5, owner)).unwrap();
    assert_eq!(state.remove_lock(first, owner), Ok(lock_a_in(10, 7, owner)));
    assert_eq!(state.virtual_liquidity_pools(100, 100), Ok(pools(95, 120)));
    assert!(!state.has_no_outstanding_locks());
    assert_eq!(state.remove_lock(second, owner), Ok(lock_b_in(20, 5, owner)));
    assert_eq!(state.virtual_liquidity_pools(100, 100), Ok(pools(100, 100)));
    assert!(state.has_no_outstanding_locks());
}

#[test]
fn released_ids_are_not_given_out_again() {
    let mut state = VirtualState::new();
    let owner = account(1);
    let first = state.add_lock(lock_a_in(1, 1, owner)).unwrap();
    state.remove_lock(first, owner).unwrap();
    let second = state.add_lock(lock_a_in(1, 1, owner)).unwrap();
    assert_eq!(first.raw_id, 0);
    assert_eq!(second.raw_id, 1);
    assert_eq!(state.remove_lock(first, owner), Err(SwapError::UnknownLock { lock_id: first }));
}

#[test]
fn release_wants_a_known_lock_and_its_owner() {
    let mut state = VirtualState::new();
    let owner = account(1);
    let stranger = account(2);
    let lock_id = state.add_lock(lock_a_in(10, 7, owner)).unwrap();
    let unknown = LiquidityLockId { raw_id: 5 };
    assert_eq!(
        state.remove_lock(unknown, owner),
        Err(SwapError::UnknownLock { lock_id: unknown })
    );
    assert_eq!(state.remove_lock(lock_id, stranger), Err(SwapError::NotLockOwner { lock_id }));
    assert_eq!(state.virtual_liquidity_pools(100, 100), Ok(pools(110, 93)));
    assert_eq!(state.remove_lock(lock_id, owner), Ok(lock_a_in(10, 7, owner)));
    assert_eq!(state.remove_lock(lock_id, owner), Err(SwapError::UnknownLock { lock_id }));
}

#[test]
fn virtual_pools_must_stay_in_range() {
    let mut state = VirtualState::new();
    let owner = account(1);
    state.add_lock(lock_a_in(10, 7, owner)).unwrap();
    assert_eq!(state.virtual_liquidity_pools(0, 6), Err(SwapError::ArithmeticOverflow));
    assert_eq!(state.virtual_liquidity_pools(0, 7), Ok(pools(10, 0)));
    assert_eq!(
        state.virtual_liquidity_pools(u128::MAX - 9, 7),
        Err(SwapError::ArithmeticOverflow)
    );
    assert_eq!(state.virtual_liquidity_pools(u128::MAX - 10, 7), Ok(pools(u128::MAX, 0)));
}

#[test]
fn lock_differences_must_stay_in_range() {
    let mut state = VirtualState::new();
    let owner = account(1);
    let most = i128::MAX as u128;
    let first = state.add_lock(lock_a_in(most, 0, owner)).unwrap();
    assert_eq!(state.add_lock(lock_a_in(1, 0, owner)), Err(SwapError::ArithmeticOverflow));
    assert_eq!(state.add_lock(lock_a_in(most + 1, 0, owner)), Err(SwapError::ArithmeticOverflow));
    assert_eq!(state.virtual_liquidity_pools(1, 0), Ok(pools(most + 1, 0)));
    // the refused locks used up no id
    let second = state.add_lock(lock_b_in(0, most, owner)).unwrap();
    assert_eq!(second.raw_id, 1);
    assert_eq!(state.virtual_liquidity_pools(0, 0), Ok(pools(0, 0)));
    let third = state.add_lock(lock_a_in(most, 0, owner)).unwrap();
    // releasing the second lock would put twice the most on the pool of token A
    assert_eq!(state.remove_lock(second, owner), Err(SwapError::ArithmeticOverflow));
    assert_eq!(state.remove_lock(third, owner), Ok(lock_a_in(most, 0, owner)));
    assert_eq!(state.remove_lock(second, owner), Ok(lock_b_in(0, most, owner)));
    assert_eq!(state.remove_lock(first, owner), Ok(lock_a_in(most, 0, owner)));
    assert!(state.has_no_outstanding_locks());
    // a lock beyond the range of a difference fits where the difference is negative
    state.add_lock(lock_b_in(0, 5, owner)).unwrap();
    assert_eq!(state.add_lock(lock_a_in(most + 3, 0, owner)).map(|id| id.raw_id), Ok(4));
    assert_eq!(state.virtual_liquidity_pools(2, 0), Ok(pools(most, 0)));
}
