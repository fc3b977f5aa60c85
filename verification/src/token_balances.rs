//! Token kinds, a holder's three balances, and the ledger of all holders.

use vstd::prelude::*;
use crate::address::{Address, AddressType};
use crate::error::SwapError;
use crate::list_map::{
    distinct_keys,
    entries_map,
    has_key,
    lemma_position_unique,
    position,
    ListMap,
};

verus! {

/// Type used to represent token amounts.
pub type TokenAmount = u128;

/// The three kinds of token that the pool keeps books on.
#[derive(PartialEq, Eq, Structural, Clone, Copy, Debug)]
pub enum Token {
    /// The first reserve token.
    TokenA,
    /// The second reserve token.
    TokenB,
    /// The token that stands for a share of the pool.
    LiquidityToken,
}

impl Token {
    /// The first reserve token.
    pub const A: Token = Token::TokenA;

    /// The second reserve token.
    pub const B: Token = Token::TokenB;

    /// The share token.
    pub const LIQUIDITY: Token = Token::LiquidityToken;
}

/// How much of each token one holder owns within the pool.
#[derive(PartialEq, Eq, Structural, Clone, Copy, Debug)]
pub struct TokenBalance {
    /// The amount of token A that the holder can withdraw.
    pub a_tokens: TokenAmount,
    /// The amount of token B that the holder can withdraw.
    pub b_tokens: TokenAmount,
    /// The amount of liquidity tokens that the holder may burn.
    pub liquidity_tokens: TokenAmount,
}

/// The balance of a holder without tokens.
pub open spec fn empty_balance() -> TokenBalance {
    TokenBalance { a_tokens: 0, b_tokens: 0, liquidity_tokens: 0 }
}

impl TokenBalance {
    /// The amount held of `token`.
    pub open spec fn amount_of(self, token: Token) -> TokenAmount {
        match token {
            Token::TokenA => self.a_tokens,
            Token::TokenB => self.b_tokens,
            Token::LiquidityToken => self.liquidity_tokens,
        }
    }

    /// This balance with the amount of `token` replaced by `amount`.
    pub open spec fn with_amount(self, token: Token, amount: TokenAmount) -> TokenBalance {
        match token {
            Token::TokenA => TokenBalance { a_tokens: amount, ..self },
            Token::TokenB => TokenBalance { b_tokens: amount, ..self },
            Token::LiquidityToken => TokenBalance { liquidity_tokens: amount, ..self },
        }
    }

    /// The balance of a holder without tokens.
    pub fn empty() -> (balance: TokenBalance)
        ensures
            balance == empty_balance(),
    {
        TokenBalance { a_tokens: 0, b_tokens: 0, liquidity_tokens: 0 }
    }

    /// Whether all three amounts are zero.
    pub open spec fn is_empty(self) -> bool {
        self.a_tokens == 0 && self.b_tokens == 0 && self.liquidity_tokens == 0
    }

    /// Retrieves a copy of the amount that matches `token`.
    pub fn get_amount_of(&self, token: Token) -> (amount: TokenAmount)
        ensures
            amount == self.amount_of(token),
    {
        match token {
            Token::TokenA => self.a_tokens,
            Token::TokenB => self.b_tokens,
            Token::LiquidityToken => self.liquidity_tokens,
        }
    }

    /// Retrieves a mutable reference to the amount that matches `token`.
    pub fn get_mut_amount_of(&mut self, token: Token) -> (amount: &mut TokenAmount)
        ensures
            *amount == old(self).amount_of(token),
            *final(self) == old(self).with_amount(token, *final(amount)),
    {
        match token {
            Token::TokenA => &mut self.a_tokens,
            Token::TokenB => &mut self.b_tokens,
            Token::LiquidityToken => &mut self.liquidity_tokens,
        }
    }

    /// Checks that the holder has no tokens.
    pub fn user_has_no_tokens(&self) -> (none: bool)
        ensures
            none == self.is_empty(),
    {
        self.a_tokens == 0 && self.b_tokens == 0 && self.liquidity_tokens == 0
    }
}

/// An ordered pair of tokens: the one paid in and the one paid out.
#[derive(PartialEq, Eq, Structural, Clone, Copy, Debug)]
#[non_exhaustive]
pub struct TokensInOut {
    /// The input token.
    pub token_in: Token,
    /// The output token.
    pub token_out: Token,
}

impl TokensInOut {
    /// The pair for paying in token A and getting token B.
    pub open spec fn spec_a_in_b_out() -> TokensInOut {
        TokensInOut { token_in: Token::A, token_out: Token::B }
    }

    /// The pair for paying in token B and getting token A.
    pub open spec fn spec_b_in_a_out() -> TokensInOut {
        TokensInOut { token_in: Token::B, token_out: Token::A }
    }

    /// The pair for paying in token A and getting token B.
    #[verifier::when_used_as_spec(spec_a_in_b_out)]
    pub fn a_in_b_out() -> (pair: TokensInOut)
        ensures
            pair == Self::spec_a_in_b_out(),
    {
        TokensInOut { token_in: Token::A, token_out: Token::B }
    }

    /// The pair for paying in token B and getting token A.
    #[verifier::when_used_as_spec(spec_b_in_a_out)]
    pub fn b_in_a_out() -> (pair: TokensInOut)
        ensures
            pair == Self::spec_b_in_a_out(),
    {
        TokensInOut { token_in: Token::B, token_out: Token::A }
    }

    /// Whether the pair names the two reserve tokens, one each way.
    pub open spec fn spec_is_reserve_pair(&self) -> bool {
        *self == Self::a_in_b_out() || *self == Self::b_in_a_out()
    }

    /// Whether the pair names the two reserve tokens, one each way.
    #[verifier::when_used_as_spec(spec_is_reserve_pair)]
    pub fn is_reserve_pair(&self) -> (is: bool)
        ensures
            is == self.spec_is_reserve_pair(),
    {
        match (self.token_in, self.token_out) {
            (Token::TokenA, Token::TokenB) | (Token::TokenB, Token::TokenA) => true,
            _ => false,
        }
    }
}

/// What all holders together own of each token.
pub struct Totals {
    /// What all holders together own of token A.
    pub a_tokens: int,
    /// What all holders together own of token B.
    pub b_tokens: int,
    /// What all holders together own of liquidity tokens.
    pub liquidity_tokens: int,
}

impl Totals {
    /// Nothing of any token.
    pub open spec fn zero() -> Totals {
        Totals { a_tokens: 0, b_tokens: 0, liquidity_tokens: 0 }
    }

    /// What all holders together own of `token`.
    pub open spec fn amount_of(self, token: Token) -> int {
        match token {
            Token::TokenA => self.a_tokens,
            Token::TokenB => self.b_tokens,
            Token::LiquidityToken => self.liquidity_tokens,
        }
    }

    /// The totals once a holder who owned `before` owns `after`.
    pub open spec fn exchanged(self, before: TokenBalance, after: TokenBalance) -> Totals {
        Totals {
            a_tokens: self.a_tokens - before.a_tokens + after.a_tokens,
            b_tokens: self.b_tokens - before.b_tokens + after.b_tokens,
            liquidity_tokens: self.liquidity_tokens - before.liquidity_tokens
                + after.liquidity_tokens,
        }
    }
}

/// What the listed holders together own of `token`.
pub open spec fn total_held(holders: Seq<(Address, TokenBalance)>, token: Token) -> int
    decreases holders.len(),
{
    if holders.len() == 0 {
        0
    } else {
        total_held(holders.drop_last(), token) + holders.last().1.amount_of(token)
    }
}

/// What the listed holders together own of each token.
pub open spec fn totals_held(holders: Seq<(Address, TokenBalance)>) -> Totals {
    Totals {
        a_tokens: total_held(holders, Token::A),
        b_tokens: total_held(holders, Token::B),
        liquidity_tokens: total_held(holders, Token::LIQUIDITY),
    }
}

/// A holder who is entered last adds what they own to the total.
pub proof fn lemma_total_held_push(
    holders: Seq<(Address, TokenBalance)>,
    entry: (Address, TokenBalance),
    token: Token,
)
    ensures
        total_held(holders.push(entry), token) == total_held(holders, token) + entry.1.amount_of(
            token,
        ),
{
    assert(holders.push(entry).drop_last() =~= holders);
}

/// A holder who leaves takes what they own off the total.
pub proof fn lemma_total_held_remove(
    holders: Seq<(Address, TokenBalance)>,
    i: int,
    token: Token,
)
    requires
        0 <= i < holders.len(),
    ensures
        total_held(holders.remove(i), token) == total_held(holders, token) - holders[i].1.amount_of(
            token,
        ),
    decreases holders.len(),
{
    if i == holders.len() - 1 {
        assert(holders.remove(i) =~= holders.drop_last());
    } else {
        lemma_total_held_remove(holders.drop_last(), i, token);
        assert(holders.remove(i).drop_last() =~= holders.drop_last().remove(i));
        assert(holders.remove(i).last() == holders.last());
    }
}

/// A holder whose balance is replaced changes the total by the difference.
pub proof fn lemma_total_held_update(
    holders: Seq<(Address, TokenBalance)>,
    i: int,
    entry: (Address, TokenBalance),
    token: Token,
)
    requires
        0 <= i < holders.len(),
    ensures
        total_held(holders.update(i, entry), token) == total_held(holders, token)
            - holders[i].1.amount_of(token) + entry.1.amount_of(token),
    decreases holders.len(),
{
    if i == holders.len() - 1 {
        assert(holders.update(i, entry).drop_last() =~= holders.drop_last());
    } else {
        lemma_total_held_update(holders.drop_last(), i, entry, token);
        assert(holders.update(i, entry).drop_last() =~= holders.drop_last().update(i, entry));
        assert(holders.update(i, entry).last() == holders.last());
    }
}

/// What a ledger holds: the three addresses that name the tokens, the balance of each
/// holder that owns anything, and what all holders together own.
pub struct TokenBalancesView {
    /// The address of the liquidity token.
    pub token_lp_address: Address,
    /// The address of token A.
    pub token_a_address: Address,
    /// The address of token B.
    pub token_b_address: Address,
    /// The balance of each holder that owns anything.
    pub balances: Map<Address, TokenBalance>,
    /// What all holders together own of each token.
    pub totals: Totals,
}

impl TokenBalancesView {
    /// The reserve tokens are two different contracts, and no holder is on the books with
    /// nothing to their name.
    pub open spec fn wf(self) -> bool {
        &&& !self.token_a_address.is_account()
        &&& !self.token_b_address.is_account()
        &&& self.token_a_address != self.token_b_address
        &&& forall|user: Address| #[trigger]
            self.balances.contains_key(user) ==> !self.balances[user].is_empty()
    }

    /// What `user` owns: nothing, unless the books say otherwise.
    pub open spec fn balance_of(self, user: Address) -> TokenBalance {
        if self.balances.contains_key(user) {
            self.balances[user]
        } else {
            empty_balance()
        }
    }

    /// The ledger with the balance of `user` set to `balance`. A holder left with nothing
    /// leaves the books. The totals change by what the holder owns more or less than
    /// before.
    pub open spec fn with_balance(self, user: Address, balance: TokenBalance) -> TokenBalancesView {
        TokenBalancesView {
            balances: if balance.is_empty() {
                self.balances.remove(user)
            } else {
                self.balances.insert(user, balance)
            },
            totals: self.totals.exchanged(self.balance_of(user), balance),
            ..self
        }
    }

    /// The ledger after `amount` of `token` is added to what `user` owns, unless the sum
    /// leaves the range of an amount.
    pub open spec fn credit(self, user: Address, token: Token, amount: TokenAmount) -> Result<
        TokenBalancesView,
        SwapError,
    > {
        let balance = self.balance_of(user);
        if balance.amount_of(token) + amount > TokenAmount::MAX {
            Err(SwapError::ArithmeticOverflow)
        } else {
            Ok(
                self.with_balance(
                    user,
                    balance.with_amount(token, (balance.amount_of(token) + amount) as TokenAmount),
                ),
            )
        }
    }

    /// The ledger after `amount` of `token` is taken from what `user` owns, unless `user`
    /// owns less.
    pub open spec fn debit(self, user: Address, token: Token, amount: TokenAmount) -> Result<
        TokenBalancesView,
        SwapError,
    > {
        let balance = self.balance_of(user);
        if balance.amount_of(token) < amount {
            Err(
                SwapError::InsufficientBalance {
                    token,
                    balance: balance.amount_of(token),
                    amount,
                },
            )
        } else {
            Ok(
                self.with_balance(
                    user,
                    balance.with_amount(token, (balance.amount_of(token) - amount) as TokenAmount),
                ),
            )
        }
    }

    /// The ledger after `amount` of `token` moves from `from` to `to`: taken from the one,
    /// then added to the other.
    pub open spec fn transfer(
        self,
        from: Address,
        to: Address,
        token: Token,
        amount: TokenAmount,
    ) -> Result<TokenBalancesView, SwapError> {
        match self.debit(from, token, amount) {
            Ok(debited) => debited.credit(to, token, amount),
            Err(error) => Err(error),
        }
    }

    /// The pair of tokens for a swap that pays in the token at `token_in_token_address`,
    /// which has to be one of the two reserve tokens.
    pub open spec fn tokens_in_out(self, token_in_token_address: Address) -> Result<
        TokensInOut,
        SwapError,
    > {
        if self.token_a_address == token_in_token_address {
            Ok(TokensInOut::a_in_b_out())
        } else if self.token_b_address == token_in_token_address {
            Ok(TokensInOut::b_in_a_out())
        } else {
            Err(SwapError::UnknownToken)
        }
    }
}

/// Adding to what a holder owns keeps the books in order.
pub proof fn lemma_credit_keeps_wf(
    ledger: TokenBalancesView,
    user: Address,
    token: Token,
    amount: TokenAmount,
)
    requires
        ledger.wf(),
        ledger.credit(user, token, amount) is Ok,
    ensures
        ledger.credit(user, token, amount)->Ok_0.wf(),
{
}

/// Taking from what a holder owns keeps the books in order.
pub proof fn lemma_debit_keeps_wf(
    ledger: TokenBalancesView,
    user: Address,
    token: Token,
    amount: TokenAmount,
)
    requires
        ledger.wf(),
        ledger.debit(user, token, amount) is Ok,
    ensures
        ledger.debit(user, token, amount)->Ok_0.wf(),
{
}

/// A holder from whom the last tokens are taken leaves the books: after a debit that
/// leaves the holder with nothing of any token, the ledger has no entry for the holder.
pub proof fn lemma_debit_to_nothing_drops_holder(
    ledger: TokenBalancesView,
    user: Address,
    token: Token,
    amount: TokenAmount,
)
    requires
        ledger.debit(user, token, amount) is Ok,
        ledger.debit(user, token, amount)->Ok_0.balance_of(user).is_empty(),
    ensures
        !ledger.debit(user, token, amount)->Ok_0.balances.contains_key(user),
{
}

/// What was taken from a holder and is added again leaves the ledger as it was.
pub proof fn lemma_credit_undoes_debit(
    ledger: TokenBalancesView,
    user: Address,
    token: Token,
    amount: TokenAmount,
)
    requires
        ledger.wf(),
        ledger.debit(user, token, amount) is Ok,
    ensures
        ledger.debit(user, token, amount)->Ok_0.credit(user, token, amount) == Ok::<
            TokenBalancesView,
            SwapError,
        >(ledger),
{
    let debited = ledger.debit(user, token, amount)->Ok_0;
    let credited = debited.credit(user, token, amount)->Ok_0;
    assert(credited.balances =~= ledger.balances);
}

/// A move takes from the one holder exactly what it gives to the other, and leaves alone
/// what they own of other tokens and what everyone else owns. A move from a holder to
/// the same holder changes nothing.
pub proof fn lemma_transfer_moves_exactly(
    ledger: TokenBalancesView,
    from: Address,
    to: Address,
    token: Token,
    amount: TokenAmount,
    other: Address,
)
    requires
        ledger.wf(),
        ledger.transfer(from, to, token, amount) is Ok,
    ensures
        ({
            let after = ledger.transfer(from, to, token, amount)->Ok_0;
            &&& from != to ==> after.balance_of(from) == ledger.balance_of(from).with_amount(
                token,
                (ledger.balance_of(from).amount_of(token) - amount) as TokenAmount,
            )
            &&& from != to ==> after.balance_of(to) == ledger.balance_of(to).with_amount(
                token,
                (ledger.balance_of(to).amount_of(token) + amount) as TokenAmount,
            )
            &&& from == to ==> after == ledger
            &&& other != from && other != to ==> after.balance_of(other) == ledger.balance_of(other)
        }),
{
    if from == to {
        lemma_credit_undoes_debit(ledger, from, token, amount);
    }
}

/// A move makes no tokens and loses none: what all holders together own of each token is
/// the same before and after.
pub proof fn lemma_transfer_keeps_totals(
    ledger: TokenBalancesView,
    from: Address,
    to: Address,
    token: Token,
    amount: TokenAmount,
)
    requires
        ledger.transfer(from, to, token, amount) is Ok,
    ensures
        ledger.transfer(from, to, token, amount)->Ok_0.totals == ledger.totals,
{
}

/// The ledger: what every holder owns of the two reserve tokens and of the liquidity token.
#[derive(Debug)]
pub struct TokenBalances {
    /// The address of the liquidity token: that of the pool itself.
    pub token_lp_address: Address,
    /// The address of token A.
    pub token_a_address: Address,
    /// The address of token B.
    pub token_b_address: Address,
    /// The balance of each holder that owns anything.
    balances: ListMap<Address, TokenBalance>,
}

impl View for TokenBalances {
    type V = TokenBalancesView;

    closed spec fn view(&self) -> TokenBalancesView {
        TokenBalancesView {
            token_lp_address: self.token_lp_address,
            token_a_address: self.token_a_address,
            token_b_address: self.token_b_address,
            balances: self.balances@,
            totals: totals_held(self.balances.entries()),
        }
    }
}

impl TokenBalances {
    /// No holder is kept twice.
    pub closed spec fn entries_wf(&self) -> bool {
        self.balances.wf()
    }

    /// The books are in order: see [`TokenBalancesView::wf`].
    pub open spec fn wf(&self) -> bool {
        &&& self.entries_wf()
        &&& self@.wf()
    }

    /// Creates a ledger without holders for the given token addresses. The reserve tokens
    /// have to be two different contracts.
    pub fn new(
        token_lp_address: Address,
        token_a_address: Address,
        token_b_address: Address,
    ) -> (created: Result<Self, SwapError>)
        ensures
            match created {
                Ok(ledger) => {
                    &&& ledger.wf()
                    &&& ledger@ == (TokenBalancesView {
                        token_lp_address,
                        token_a_address,
                        token_b_address,
                        balances: Map::empty(),
                        totals: Totals::zero(),
                    })
                },
                Err(error) => error == if token_a_address.is_account() {
                    SwapError::TokenANotContract
                } else if token_b_address.is_account() {
                    SwapError::TokenBNotContract
                } else {
                    SwapError::IdenticalTokens
                },
            },
            created is Ok <==> !token_a_address.is_account() && !token_b_address.is_account()
                && token_a_address != token_b_address,
    {
        if token_a_address.address_type == AddressType::Account {
            return Err(SwapError::TokenANotContract);
        }
        if token_b_address.address_type == AddressType::Account {
            return Err(SwapError::TokenBNotContract);
        }
        if token_a_address == token_b_address {
            return Err(SwapError::IdenticalTokens);
        }
        Ok(Self { token_lp_address, token_a_address, token_b_address, balances: ListMap::new() })
    }

    /// Sets what `user` owns. A holder left with nothing leaves the books.
    fn set_balance(&mut self, user: Address, balance: TokenBalance)
        requires
            old(self).wf(),
        ensures
            final(self).wf(),
            final(self)@ == old(self)@.with_balance(user, balance),
    {
        proof {
            let holders = self.balances.entries();
            if has_key(holders, user) {
                let place = position(holders, user);
                lemma_position_unique(holders, place);
                lemma_total_held_remove(holders, place, Token::A);
                lemma_total_held_remove(holders, place, Token::B);
                lemma_total_held_remove(holders, place, Token::LIQUIDITY);
                lemma_total_held_update(holders, place, (user, balance), Token::A);
                lemma_total_held_update(holders, place, (user, balance), Token::B);
                lemma_total_held_update(holders, place, (user, balance), Token::LIQUIDITY);
            } else {
                lemma_total_held_push(holders, (user, balance), Token::A);
                lemma_total_held_push(holders, (user, balance), Token::B);
                lemma_total_held_push(holders, (user, balance), Token::LIQUIDITY);
            }
        }
        if balance.user_has_no_tokens() {
            self.balances.remove(&user);
        } else {
            self.balances.insert(user, balance);
        }
    }

    /// Adds `amount` of `token` to what `user` owns. A holder not yet on the books is
    /// entered. A sum beyond the range of an amount is refused, and nothing changes.
    pub fn add_to_token_balance(
        &mut self,
        user: Address,
        token: Token,
        amount: TokenAmount,
    ) -> (done: Result<(), SwapError>)
        requires
            old(self).wf(),
        ensures
            final(self).wf(),
            match old(self)@.credit(user, token, amount) {
                Ok(credited) => done is Ok && final(self)@ == credited,
                Err(error) => done == Err::<(), SwapError>(error) && final(self)@ == old(self)@,
            },
    {
        let mut token_balance = self.get_balance_for(&user);
        match token_balance.get_amount_of(token).checked_add(amount) {
            Some(sum) => {
                *token_balance.get_mut_amount_of(token) = sum;
                self.set_balance(user, token_balance);
                Ok(())
            },
            None => Err(SwapError::ArithmeticOverflow),
        }
    }

    /// Takes `amount` of `token` from what `user` owns. A holder left with nothing leaves
    /// the books. Where `user` owns less than `amount`, this is refused and nothing changes.
    pub fn deduct_from_token_balance(
        &mut self,
        user: Address,
        token: Token,
        amount: TokenAmount,
    ) -> (done: Result<(), SwapError>)
        requires
            old(self).wf(),
        ensures
            final(self).wf(),
            match old(self)@.debit(user, token, amount) {
                Ok(debited) => done is Ok && final(self)@ == debited,
                Err(error) => done == Err::<(), SwapError>(error) && final(self)@ == old(self)@,
            },
            final(self)@.balance_of(user).is_empty() ==> !final(self)@.balances.contains_key(user),
    {
        let mut user_balances = self.get_balance_for(&user);
        let token_balance = user_balances.get_amount_of(token);
        match token_balance.checked_sub(amount) {
            Some(rest) => {
                *user_balances.get_mut_amount_of(token) = rest;
                self.set_balance(user, user_balances);
                Ok(())
            },
            None => Err(SwapError::InsufficientBalance { token, balance: token_balance, amount }),
        }
    }

    /// Moves `amount` of `token` from `from` to `to`: it is taken from the one, then added
    /// to the other. Where `from` owns less than `amount`, nothing changes. Where the sum
    /// at `to` leaves the range of an amount, the move is refused after the amount was
    /// taken from `from`: the ledger then lacks that amount, and must be discarded.
    pub fn move_tokens(
        &mut self,
        from: Address,
        to: Address,
        moved_token: Token,
        amount: TokenAmount,
    ) -> (done: Result<(), SwapError>)
        requires
            old(self).wf(),
        ensures
            final(self).wf(),
            match old(self)@.debit(from, moved_token, amount) {
                Ok(debited) => match debited.credit(to, moved_token, amount) {
                    Ok(credited) => done is Ok && final(self)@ == credited,
                    Err(error) => done == Err::<(), SwapError>(error) && final(self)@ == debited,
                },
                Err(error) => done == Err::<(), SwapError>(error) && final(self)@ == old(self)@,
            },
            done is Ok <==> old(self)@.transfer(from, to, moved_token, amount) is Ok,
    {
        match self.deduct_from_token_balance(from, moved_token, amount) {
            Ok(()) => self.add_to_token_balance(to, moved_token, amount),
            Err(error) => Err(error),
        }
    }

    /// Retrieves a copy of what `user` owns.
    pub fn get_balance_for(&self, user: &Address) -> (balance: TokenBalance)
        requires
            self.wf(),
        ensures
            balance == self@.balance_of(*user),
    {
        match self.balances.get(user) {
            Some(balance) => *balance,
            None => TokenBalance::empty(),
        }
    }

    /// Whether `user` is on the books.
    pub fn has_entry(&self, user: &Address) -> (listed: bool)
        ensures
            listed == self@.balances.contains_key(*user),
    {
        self.balances.contains_key(user)
    }

    /// The holders on the books with what they own, in the order in which they were
    /// entered.
    pub closed spec fn holders(&self) -> Seq<(Address, TokenBalance)> {
        self.balances.entries()
    }

    /// The holders are each listed once, the books say of each what the list says, and
    /// the totals are what the listed holders together own.
    pub proof fn lemma_holders(&self)
        requires
            self.wf(),
        ensures
            distinct_keys(self.holders()),
            entries_map(self.holders()) == self@.balances,
            totals_held(self.holders()) == self@.totals,
    {
    }

    /// The number of holders on the books.
    pub fn holder_count(&self) -> (count: usize)
        ensures
            count == self.holders().len(),
            count == 0 <==> self@.balances == Map::<Address, TokenBalance>::empty(),
    {
        let _ = self.balances.is_empty();
        self.balances.len()
    }

    /// The holder at place `i` of [`Self::holders`], with what the holder owns.
    pub fn holder_at(&self, i: usize) -> (entry: (Address, TokenBalance))
        requires
            i < self.holders().len(),
        ensures
            entry == self.holders()[i as int],
    {
        *self.balances.entry_at(i)
    }

    /// Pairs the token at `token_in_token_address` as input with the other reserve token
    /// as output. An address that is neither reserve token's is refused.
    pub fn deduce_tokens_in_out(&self, token_in_token_address: Address) -> (tokens: Result<
        TokensInOut,
        SwapError,
    >)
        ensures
            tokens == self@.tokens_in_out(token_in_token_address),
    {
        let token_in_a = self.token_a_address == token_in_token_address;
        let token_in_b = self.token_b_address == token_in_token_address;
        if !token_in_a && !token_in_b {
            return Err(SwapError::UnknownToken);
        }
        Ok(self.deduce_tokens_in_out_b(token_in_a))
    }

    /// Pairs token A as input with token B as output if `token_in_a` is set, and the other
    /// way round if it is not.
    pub fn deduce_tokens_in_out_b(&self, token_in_a: bool) -> (tokens: TokensInOut)
        ensures
            tokens == if token_in_a {
                TokensInOut::a_in_b_out()
            } else {
                TokensInOut::b_in_a_out()
            },
    {
        if token_in_a {
            TokensInOut::a_in_b_out()
        } else {
            TokensInOut::b_in_a_out()
        }
    }
}

} // verus!
