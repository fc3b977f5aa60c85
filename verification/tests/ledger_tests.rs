use liquidity_swap_lock::address::{Address, AddressType};
use liquidity_swap_lock::error::{ErrorKind, SwapError};
use liquidity_swap_lock::token_balances::{Token, TokenBalance, TokenBalances, TokensInOut};

fn account(tag: u8) -> Address {
    Address { address_type: AddressType::Account, identifier: [tag; 20] }
}

fn contract(tag: u8) -> Address {
    Address { address_type: AddressType::PublicContract, identifier: [tag; 20] }
}

fn ledger() -> TokenBalances {
    TokenBalances::new(contract(9), contract(1), contract(2)).unwrap()
}

#[test]
fn addresses_compare_by_kind_and_bytes() {
    assert_eq!(account(1), account(1));
    assert_ne!(account(1), account(2));
    assert_ne!(account(1), contract(1));
    let mut bytes = [1u8; 20];
    bytes[19] = 2;
    assert_ne!(account(1), Address { address_type: AddressType::Account, identifier: bytes });
    bytes[19] = 1;
    assert_eq!(account(1), Address { address_type: AddressType::Account, identifier: bytes });
}

#[test]
fn balance_fields_are_found_by_token() {
    let mut balance = TokenBalance { a_tokens: 1, b_tokens: 2, liquidity_tokens: 3 };
    assert_eq!(balance.get_amount_of(Token::A), 1);
    assert_eq!(balance.get_amount_of(Token::B), 2);
    assert_eq!(balance.get_amount_of(Token::LIQUIDITY), 3);
    *balance.get_mut_amount_of(Token::B) += 40;
    *balance.get_mut_amount_of(Token::LIQUIDITY) = 0;
    assert_eq!(balance, TokenBalance { a_tokens: 1, b_tokens: 42, liquidity_tokens: 0 });
    assert!(!balance.user_has_no_tokens());
    *balance.get_mut_amount_of(Token::A) = 0;
    *balance.get_mut_amount_of(Token::B) = 0;
    assert!(balance.user_has_no_tokens());
    assert_eq!(balance, TokenBalance::empty());
}

#[test]
fn new_ledger_wants_two_different_contracts() {
    assert_eq!(
        TokenBalances::new(contract(9), account(1), contract(2)).err(),
        Some(SwapError::TokenANotContract)
    );
    assert_eq!(
        TokenBalances::new(contract(9), contract(1), account(2)).err(),
        Some(SwapError::TokenBNotContract)
    );
    assert_eq!(
        TokenBalances::new(contract(9), account(1), account(1)).err(),
        Some(SwapError::TokenANotContract)
    );
    assert_eq!(
        TokenBalances::new(contract(9), contract(1), contract(1)).err(),
        Some(SwapError::IdenticalTokens)
    );
    let ledger = ledger();
    assert_eq!(ledger.token_lp_address, contract(9));
    assert_eq!(ledger.token_a_address, contract(1));
    assert_eq!(ledger.token_b_address, contract(2));
    assert_eq!(ledger.holder_count(), 0);
    assert_eq!(ledger.get_balance_for(&account(5)), TokenBalance::empty());
}

#[test]
fn credit_adds_and_enters_the_holder() {
    let mut ledger = ledger();
    let user = account(5);
    assert!(!ledger.has_entry(&user));
    assert_eq!(ledger.add_to_token_balance(user, Token::A, 7), Ok(()));
    assert!(ledger.has_entry(&user));
    assert_eq!(ledger.add_to_token_balance(user, Token::A, 5), Ok(()));
    assert_eq!(ledger.add_to_token_balance(user, Token::LIQUIDITY, 3), Ok(()));
    assert_eq!(
        ledger.get_balance_for(&user),
        TokenBalance { a_tokens: 12, b_tokens: 0, liquidity_tokens: 3 }
    );
    assert_eq!(ledger.get_balance_for(&account(6)), TokenBalance::empty());
    assert_eq!(ledger.holder_count(), 1);
}

#[test]
fn credit_of_nothing_enters_nobody() {
    let mut ledger = ledger();
    assert_eq!(ledger.add_to_token_balance(account(5), Token::B, 0), Ok(()));
    assert!(!ledger.has_entry(&account(5)));
    assert_eq!(ledger.holder_count(), 0);
}

#[test]
fn credit_beyond_the_range_is_refused() {
    let mut ledger = ledger();
    let user = account(5);
    assert_eq!(ledger.add_to_token_balance(user, Token::B, u128::MAX), Ok(()));
    assert_eq!(
        ledger.add_to_token_balance(user, Token::B, 1),
        Err(SwapError::ArithmeticOverflow)
    );
    assert_eq!(ledger.get_balance_for(&user).b_tokens, u128::MAX);
    assert_eq!(ledger.add_to_token_balance(user, Token::A, 1), Ok(()));
}

#[test]
fn debit_takes_and_refuses_more_than_is_owned() {
    let mut ledger = ledger();
    let user = account(5);
    ledger.add_to_token_balance(user, Token::A, 10).unwrap();
    assert_eq!(
        ledger.deduct_from_token_balance(user, Token::A, 11),
        Err(SwapError::InsufficientBalance { token: Token::A, balance: 10, amount: 11 })
    );
    assert_eq!(
        ledger.deduct_from_token_balance(user, Token::B, 1),
        Err(SwapError::InsufficientBalance { token: Token::B, balance: 0, amount: 1 })
    );
    assert_eq!(
        ledger.deduct_from_token_balance(account(6), Token::A, 1),
        Err(SwapError::InsufficientBalance { token: Token::A, balance: 0, amount: 1 })
    );
    assert_eq!(ledger.get_balance_for(&user).a_tokens, 10);
    assert_eq!(ledger.deduct_from_token_balance(user, Token::A, 4), Ok(()));
    assert_eq!(ledger.get_balance_for(&user).a_tokens, 6);
}

#[test]
fn debit_to_nothing_removes_the_entry() {
    let mut ledger = ledger();
    let user = account(5);
    let other = account(6);
    ledger.add_to_token_balance(user, Token::A, 10).unwrap();
    ledger.add_to_token_balance(user, Token::LIQUIDITY, 2).unwrap();
    ledger.add_to_token_balance(other, Token::B, 1).unwrap();
    assert_eq!(ledger.holder_count(), 2);
    ledger.deduct_from_token_balance(user, Token::A, 10).unwrap();
    assert!(ledger.has_entry(&user));
    ledger.deduct_from_token_balance(user, Token::LIQUIDITY, 2).unwrap();
    assert!(!ledger.has_entry(&user));
    assert!(ledger.has_entry(&other));
    assert_eq!(ledger.holder_count(), 1);
    assert_eq!(ledger.get_balance_for(&user), TokenBalance::empty());
    assert_eq!(ledger.deduct_from_token_balance(other, Token::B, 0), Ok(()));
    assert!(ledger.has_entry(&other));
    assert_eq!(ledger.deduct_from_token_balance(user, Token::B, 0), Ok(()));
    assert!(!ledger.has_entry(&user));
}

#[test]
fn move_takes_from_one_and_gives_to_the_other() {
    let mut ledger = ledger();
    let from = account(5);
    let to = account(6);
    ledger.add_to_token_balance(from, Token::B, 10).unwrap();
    assert_eq!(ledger.move_tokens(from, to, Token::B, 4), Ok(()));
    assert_eq!(ledger.get_balance_for(&from).b_tokens, 6);
    assert_eq!(ledger.get_balance_for(&to).b_tokens, 4);
    assert_eq!(
        ledger.move_tokens(from, to, Token::B, 7),
        Err(SwapError::InsufficientBalance { token: Token::B, balance: 6, amount: 7 })
    );
    assert_eq!(ledger.get_balance_for(&from).b_tokens, 6);
    assert_eq!(ledger.get_balance_for(&to).b_tokens, 4);
    assert_eq!(ledger.move_tokens(from, from, Token::B, 6), Ok(()));
    assert_eq!(ledger.get_balance_for(&from).b_tokens, 6);
    assert_eq!(ledger.move_tokens(from, to, Token::B, 6), Ok(()));
    assert!(!ledger.has_entry(&from));
    assert_eq!(ledger.get_balance_for(&to).b_tokens, 10);
}

#[test]
fn move_that_overflows_keeps_the_debit() {
    let mut ledger = ledger();
    let from = account(5);
    let to = account(6);
    ledger.add_to_token_balance(from, Token::A, 10).unwrap();
    ledger.add_to_token_balance(to, Token::A, u128::MAX - 3).unwrap();
    assert_eq!(ledger.move_tokens(from, to, Token::A, 4), Err(SwapError::ArithmeticOverflow));
    assert_eq!(ledger.get_balance_for(&from).a_tokens, 6);
    assert_eq!(ledger.get_balance_for(&to).a_tokens, u128::MAX - 3);
}

#[test]
fn reserve_tokens_are_paired_by_address() {
    let ledger = ledger();
    let a_in = ledger.deduce_tokens_in_out(contract(1)).unwrap();
    assert_eq!(a_in.token_in, Token::A);
    assert_eq!(a_in.token_out, Token::B);
    assert_eq!(a_in, TokensInOut::a_in_b_out());
    let b_in = ledger.deduce_tokens_in_out(contract(2)).unwrap();
    assert_eq!(b_in.token_in, Token::B);
    assert_eq!(b_in.token_out, Token::A);
    assert_eq!(b_in, TokensInOut::b_in_a_out());
    assert_eq!(ledger.deduce_tokens_in_out(contract(9)), Err(SwapError::UnknownToken));
    assert_eq!(ledger.deduce_tokens_in_out(account(1)), Err(SwapError::UnknownToken));
    assert_eq!(ledger.deduce_tokens_in_out_b(true), TokensInOut::a_in_b_out());
    assert_eq!(ledger.deduce_tokens_in_out_b(false), TokensInOut::b_in_a_out());
    assert!(a_in.is_reserve_pair());
    assert!(b_in.is_reserve_pair());
    for (token_in, token_out) in [
        (Token::A, Token::A),
        (Token::B, Token::B),
        (Token::A, Token::LIQUIDITY),
        (Token::LIQUIDITY, Token::B),
        (Token::LIQUIDITY, Token::LIQUIDITY),
    ] {
        let mut pair = TokensInOut::a_in_b_out();
        pair.token_in = token_in;
        pair.token_out = token_out;
        assert!(!pair.is_reserve_pair());
    }
}

#[test]
fn errors_fall_into_their_classes() {
    let lock_id = liquidity_swap_lock::liquidity_util::LiquidityLockId::initial_id();
    assert_eq!(SwapError::FeeOutOfRange.kind(), ErrorKind::Validation);
    assert_eq!(SwapError::UnknownToken.kind(), ErrorKind::Validation);
    assert_eq!(SwapError::ZeroMintedLiquidity.kind(), ErrorKind::Validation);
    assert_eq!(
        SwapError::InsufficientBalance { token: Token::A, balance: 0, amount: 1 }.kind(),
        ErrorKind::Validation
    );
    assert_eq!(SwapError::UnknownLock { lock_id }.kind(), ErrorKind::Validation);
    assert_eq!(SwapError::LocksPresent.kind(), ErrorKind::Validation);
    assert_eq!(SwapError::LockPermissionMissing.kind(), ErrorKind::PermissionDenied);
    assert_eq!(SwapError::NotLockOwner { lock_id }.kind(), ErrorKind::PermissionDenied);
    assert_eq!(SwapError::TransferFailed.kind(), ErrorKind::ExternalCallFailed);
    assert_eq!(SwapError::ArithmeticOverflow.kind(), ErrorKind::ArithmeticOverflow);
    assert_eq!(SwapError::DivisionByZero.kind(), ErrorKind::ArithmeticOverflow);
}
