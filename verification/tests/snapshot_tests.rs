use liquidity_swap_lock::address::{Address, AddressType};
use liquidity_swap_lock::liquidity_util::LiquidityLockId;
use liquidity_swap_lock::list_map::ListMap;
use liquidity_swap_lock::token::{AllowedAddress, TokenState};
use liquidity_swap_lock::token_balances::{Token, TokenBalance, TokenBalances, TokensInOut};
use liquidity_swap_lock::virtual_state::{LiquidityLock, LockLiquidity, VirtualState};

fn account(tag: u8) -> Address {
    Address { address_type: AddressType::Account, identifier: [tag; 20] }
}

fn contract(tag: u8) -> Address {
    Address { address_type: AddressType::PublicContract, identifier: [tag; 20] }
}

fn lock(amount_in: u128, amount_out: u128, a_in: bool) -> LiquidityLock {
    let tokens_in_out = if a_in { TokensInOut::a_in_b_out() } else { TokensInOut::b_in_a_out() };
    LiquidityLock { amount_in, amount_out, tokens_in_out, owner: account(1) }
}

fn id(raw_id: u128) -> LiquidityLockId {
    LiquidityLockId { raw_id }
}

#[test]
fn list_map_keeps_one_value_per_key_in_order_of_entry() {
    let mut map: ListMap<Address, u128> = ListMap::new();
    assert!(map.is_empty());
    assert_eq!(map.len(), 0);
    assert_eq!(map.get(&account(1)), None);
    map.insert(account(1), 10);
    map.insert(account(2), 20);
    map.insert(account(3), 30);
    map.insert(account(2), 21);
    assert_eq!(map.len(), 3);
    assert!(!map.is_empty());
    assert_eq!(map.get(&account(2)), Some(&21));
    assert!(map.contains_key(&account(3)));
    assert!(!map.contains_key(&account(4)));
    assert_eq!(*map.entry_at(0), (account(1), 10));
    assert_eq!(*map.entry_at(1), (account(2), 21));
    assert_eq!(*map.entry_at(2), (account(3), 30));
    map.remove(&account(1));
    map.remove(&account(4));
    assert_eq!(map.len(), 2);
    assert_eq!(map.get(&account(1)), None);
    assert_eq!(*map.entry_at(0), (account(2), 21));
    assert_eq!(*map.entry_at(1), (account(3), 30));
    map.insert_balance(account(3), 0);
    map.insert_balance(account(5), 0);
    map.insert_balance(account(6), 60);
    assert_eq!(map.len(), 2);
    assert_eq!(*map.entry_at(1), (account(6), 60));
}

#[test]
fn ledger_lists_its_holders() {
    let mut ledger = TokenBalances::new(contract(9), contract(1), contract(2)).unwrap();
    ledger.add_to_token_balance(account(1), Token::A, 10).unwrap();
    ledger.add_to_token_balance(account(2), Token::B, 20).unwrap();
    ledger.add_to_token_balance(account(1), Token::LIQUIDITY, 30).unwrap();
    assert_eq!(ledger.holder_count(), 2);
    assert_eq!(
        ledger.holder_at(0),
        (account(1), TokenBalance { a_tokens: 10, b_tokens: 0, liquidity_tokens: 30 })
    );
    assert_eq!(
        ledger.holder_at(1),
        (account(2), TokenBalance { a_tokens: 0, b_tokens: 20, liquidity_tokens: 0 })
    );
    ledger.deduct_from_token_balance(account(1), Token::A, 10).unwrap();
    ledger.deduct_from_token_balance(account(1), Token::LIQUIDITY, 30).unwrap();
    assert_eq!(ledger.holder_count(), 1);
    assert_eq!(ledger.holder_at(0).0, account(2));
}

#[test]
fn virtual_state_is_restored_from_its_locks() {
    let mut state = VirtualState::new();
    state.add_lock(lock(10, 7, true)).unwrap();
    let second = state.add_lock(lock(20, 5, false)).unwrap();
    state.add_lock(lock(3, 2, true)).unwrap();
    state.remove_lock(second, account(1)).unwrap();
    assert_eq!(state.next_lock_id(), id(3));
    assert_eq!(state.lock_count(), 2);
    assert_eq!(state.lock_at(0), (id(0), lock(10, 7, true)));
    assert_eq!(state.lock_at(1), (id(2), lock(3, 2, true)));
    assert_eq!(state.lock_liquidity(), LockLiquidity { a_tokens: 13, b_tokens: -9 });
    let locks = vec![state.lock_at(0), state.lock_at(1)];
    let restored = VirtualState::restore(state.next_lock_id(), locks).unwrap();
    assert_eq!(restored.next_lock_id(), id(3));
    assert_eq!(restored.lock_count(), 2);
    assert_eq!(restored.lock_at(0), (id(0), lock(10, 7, true)));
    assert_eq!(restored.lock_at(1), (id(2), lock(3, 2, true)));
    assert_eq!(restored.lock_liquidity(), LockLiquidity { a_tokens: 13, b_tokens: -9 });
    assert_eq!(
        restored.virtual_liquidity_pools(100, 100),
        state.virtual_liquidity_pools(100, 100)
    );
    let empty = VirtualState::restore(id(5), vec![]).unwrap();
    assert!(empty.has_no_outstanding_locks());
    assert_eq!(empty.next_lock_id(), id(5));
    assert_eq!(empty.lock_liquidity(), LockLiquidity { a_tokens: 0, b_tokens: 0 });
}

#[test]
fn virtual_state_is_not_restored_from_what_it_cannot_hold() {
    assert!(VirtualState::restore(id(1), vec![(id(1), lock(1, 1, true))]).is_none());
    assert!(VirtualState::restore(id(2), vec![(id(1), lock(1, 1, true))]).is_some());
    assert!(VirtualState::restore(
        id(5),
        vec![(id(1), lock(1, 1, true)), (id(1), lock(1, 1, false))]
    )
    .is_none());
    let share_in = LiquidityLock {
        amount_in: 1,
        amount_out: 1,
        tokens_in_out: {
            let mut pair = TokensInOut::a_in_b_out();
            pair.token_in = Token::LIQUIDITY;
            pair
        },
        owner: account(1),
    };
    assert!(VirtualState::restore(id(5), vec![(id(1), share_in)]).is_none());
    let same_both = LiquidityLock {
        amount_in: 1,
        amount_out: 1,
        tokens_in_out: {
            let mut pair = TokensInOut::a_in_b_out();
            pair.token_out = Token::A;
            pair
        },
        owner: account(1),
    };
    assert!(VirtualState::restore(id(5), vec![(id(1), same_both)]).is_none());
    let most = i128::MAX as u128;
    assert!(VirtualState::restore(
        id(5),
        vec![(id(1), lock(most, 0, true)), (id(2), lock(1, 0, true))]
    )
    .is_none());
    assert!(VirtualState::restore(id(5), vec![(id(1), lock(0, most + 2, true))]).is_none());
    assert!(VirtualState::restore(id(5), vec![(id(1), lock(0, most + 1, true))]).is_some());
    // locks may be given in any order of their ids
    assert!(VirtualState::restore(
        id(5),
        vec![(id(3), lock(1, 1, true)), (id(1), lock(1, 1, false))]
    )
    .is_some());
}

#[test]
fn token_state_is_restored_from_its_entries() {
    let pair = AllowedAddress { owner: account(1), spender: account(2) };
    let state = TokenState::restore(
        "Token".to_string(),
        2,
        "TKN".to_string(),
        account(9),
        500,
        vec![(account(1), 100), (account(2), 0), (account(3), 400), (account(1), 90)],
        vec![(pair, 7)],
    );
    assert_eq!(state.name(), "Token");
    assert_eq!(state.symbol(), "TKN");
    assert_eq!(state.decimals(), 2);
    assert_eq!(state.owner(), account(9));
    assert_eq!(state.total_supply(), 500);
    assert_eq!(state.balance_of(&account(1)), 90);
    assert_eq!(state.balance_of(&account(2)), 0);
    assert_eq!(state.balance_of(&account(3)), 400);
    assert_eq!(state.allowance(&account(1), &account(2)), 7);
    assert_eq!(state.allowance(&account(2), &account(1)), 0);
    assert_eq!(state.holder_count(), 2);
    assert_eq!(state.holder_at(0), (account(1), 90));
    assert_eq!(state.holder_at(1), (account(3), 400));
    assert_eq!(state.allowance_count(), 1);
    assert_eq!(state.allowance_at(0), (pair, 7));
}
