//! A token contract: balances, allowances, and transfers between holders.

use vstd::prelude::*;
use crate::address::Address;
use crate::context::ContractContext;
use crate::list_map::{distinct_keys, entries_map, Key, ListMap};

verus! {

/// An owner of tokens and a spender whom the owner allows to spend some of them.
#[derive(Clone, Copy, Debug, PartialEq, Eq)]
pub struct AllowedAddress {
    /// The owner of the tokens.
    pub owner: Address,
    /// The spender of the tokens.
    pub spender: Address,
}

impl Key for AllowedAddress {
    fn same_key(&self, other: &Self) -> (same: bool) {
        self.owner == other.owner && self.spender == other.spender
    }
}

/// Why the token contract refuses an action.
#[derive(Clone, Copy, Debug, PartialEq, Eq, Structural)]
pub enum TokenError {
    /// The sender owns less than is to be transferred.
    InsufficientFunds { balance: u128, amount: u128 },
    /// The sender is allowed less than is to be transferred.
    InsufficientAllowance { allowance: u128, amount: u128 },
    /// The allowance would become negative or leave the range of an amount.
    AllowanceOutOfRange,
    /// A balance would leave the range of an amount.
    ArithmeticOverflow,
}

/// An address to transfer to and the amount to transfer.
#[derive(Clone, Copy, Debug, PartialEq, Eq)]
pub struct Transfer {
    /// The address to transfer to.
    pub to: Address,
    /// The amount to transfer.
    pub amount: u128,
}

/// A map of balances after `key` is given the balance `value`: only balances other than
/// zero are kept, and a key that is not kept has the balance zero.
pub open spec fn balance_inserted<K>(balances: Map<K, u128>, key: K, value: u128) -> Map<K, u128> {
    if value == 0 {
        balances.remove(key)
    } else {
        balances.insert(key, value)
    }
}

/// The balance that a map of balances has for `key`.
pub open spec fn balance_in<K>(balances: Map<K, u128>, key: K) -> u128 {
    if balances.contains_key(key) {
        balances[key]
    } else {
        0
    }
}

/// No balance is kept that is zero.
pub open spec fn no_zero_balance<K>(balances: Map<K, u128>) -> bool {
    forall|key: K| #[trigger] balances.contains_key(key) ==> balances[key] != 0
}

impl<K: Key> ListMap<K, u128> {
    /// Gives `key` the balance `value`: it is kept if it is not zero, and else the key
    /// leaves the map.
    pub fn insert_balance(&mut self, key: K, value: u128)
        requires
            old(self).wf(),
            no_zero_balance(old(self)@),
        ensures
            final(self).wf(),
            no_zero_balance(final(self)@),
            final(self)@ == balance_inserted(old(self)@, key, value),
    {
        if value == 0 {
            self.remove(&key);
        } else {
            self.insert(key, value);
        }
    }
}

/// The map of balances that comes of giving each key of `entries` its balance, one after
/// another.
pub open spec fn balances_of<K>(entries: Seq<(K, u128)>) -> Map<K, u128>
    decreases entries.len(),
{
    if entries.len() == 0 {
        Map::empty()
    } else {
        balance_inserted(balances_of(entries.drop_last()), entries.last().0, entries.last().1)
    }
}

/// Builds the map of balances that `entries` gives.
fn balance_map_from<K: Key + Copy>(entries: &Vec<(K, u128)>) -> (balances: ListMap<K, u128>)
    ensures
        balances.wf(),
        no_zero_balance(balances@),
        balances@ == balances_of(entries@),
{
    let mut balances: ListMap<K, u128> = ListMap::new();
    let mut i: usize = 0;
    assert(entries@.take(0) =~= Seq::empty());
    while i < entries.len()
        invariant
            i <= entries.len(),
            balances.wf(),
            no_zero_balance(balances@),
            balances@ == balances_of(entries@.take(i as int)),
        decreases entries.len() - i,
    {
        let (key, value) = entries[i];
        proof {
            assert(entries@.take(i + 1).drop_last() =~= entries@.take(i as int));
        }
        balances.insert_balance(key, value);
        i += 1;
    }
    assert(entries@.take(i as int) =~= entries@);
    balances
}

/// What the token contract holds.
pub struct TokenStateView {
    /// The name of the token.
    pub name: Seq<char>,
    /// The number of decimals that amounts of the token are shown with.
    pub decimals: u8,
    /// The symbol of the token.
    pub symbol: Seq<char>,
    /// Who created the contract.
    pub owner: Address,
    /// How many tokens there are.
    pub total_supply: u128,
    /// What each holder owns, as far as it is not zero.
    pub balances: Map<Address, u128>,
    /// What each owner allows each spender, as far as it is not zero.
    pub allowed: Map<AllowedAddress, u128>,
}

impl TokenStateView {
    /// No balance and no allowance is kept that is zero.
    pub open spec fn wf(self) -> bool {
        no_zero_balance(self.balances) && no_zero_balance(self.allowed)
    }

    /// What `owner` owns.
    pub open spec fn balance_of(self, owner: Address) -> u128 {
        balance_in(self.balances, owner)
    }

    /// What `spender` may still take of the tokens of `owner`.
    pub open spec fn allowance(self, owner: Address, spender: Address) -> u128 {
        balance_in(self.allowed, AllowedAddress { owner, spender })
    }

    /// The state after `owner` has allowed `spender` exactly `amount`.
    pub open spec fn update_allowance(
        self,
        owner: Address,
        spender: Address,
        amount: u128,
    ) -> Self {
        TokenStateView {
            allowed: balance_inserted(self.allowed, AllowedAddress { owner, spender }, amount),
            ..self
        }
    }

    /// The state after `owner` has changed by `delta` what `spender` is allowed. Refused
    /// where the allowance would become negative or leave the range of an amount.
    pub open spec fn update_allowance_relative(
        self,
        owner: Address,
        spender: Address,
        delta: i128,
    ) -> Result<Self, TokenError> {
        let new_allowance = self.allowance(owner, spender) + delta;
        if 0 <= new_allowance <= u128::MAX {
            Ok(self.update_allowance(owner, spender, new_allowance as u128))
        } else {
            Err(TokenError::AllowanceOutOfRange)
        }
    }

    /// The state after `sender` has transferred `amount` to `to`: the amount is taken
    /// from what `sender` owns, then added to what `to` owns. Refused where `sender` owns
    /// less, or where `to` would own more than the range of an amount holds.
    pub open spec fn core_transfer(self, sender: Address, to: Address, amount: u128) -> Result<
        Self,
        TokenError,
    > {
        let from_amount = self.balance_of(sender);
        if from_amount < amount {
            Err(TokenError::InsufficientFunds { balance: from_amount, amount })
        } else {
            let taken = balance_inserted(self.balances, sender, (from_amount - amount) as u128);
            let to_amount = balance_in(taken, to);
            if to_amount + amount > u128::MAX {
                Err(TokenError::ArithmeticOverflow)
            } else {
                Ok(
                    TokenStateView {
                        balances: balance_inserted(taken, to, (to_amount + amount) as u128),
                        ..self
                    },
                )
            }
        }
    }

    /// The state after `sender` has transferred `amount` from `from` to `to`, out of what
    /// `from` has allowed `sender`: the allowance goes down by the amount, then the amount
    /// is transferred. Refused where the allowance is less, and where the transfer is.
    pub open spec fn core_transfer_from(
        self,
        sender: Address,
        from: Address,
        to: Address,
        amount: u128,
    ) -> Result<Self, TokenError> {
        let from_allowed = self.allowance(from, sender);
        if from_allowed < amount {
            Err(TokenError::InsufficientAllowance { allowance: from_allowed, amount })
        } else {
            self.update_allowance(from, sender, (from_allowed - amount) as u128).core_transfer(
                from,
                to,
                amount,
            )
        }
    }

    /// The state after `sender` has made the given transfers one after another. Refused
    /// where one of them is.
    pub open spec fn bulk_transfer(self, sender: Address, transfers: Seq<Transfer>) -> Result<
        Self,
        TokenError,
    >
        decreases transfers.len(),
    {
        if transfers.len() == 0 {
            Ok(self)
        } else {
            match self.core_transfer(sender, transfers[0].to, transfers[0].amount) {
                Ok(transferred) => transferred.bulk_transfer(sender, transfers.skip(1)),
                Err(error) => Err(error),
            }
        }
    }

    /// The state after `sender` has made the given transfers from `from` one after
    /// another, out of what `from` has allowed `sender`. Refused where one of them is.
    pub open spec fn bulk_transfer_from(
        self,
        sender: Address,
        from: Address,
        transfers: Seq<Transfer>,
    ) -> Result<Self, TokenError>
        decreases transfers.len(),
    {
        if transfers.len() == 0 {
            Ok(self)
        } else {
            match self.core_transfer_from(sender, from, transfers[0].to, transfers[0].amount) {
                Ok(transferred) => transferred.bulk_transfer_from(sender, from, transfers.skip(1)),
                Err(error) => Err(error),
            }
        }
    }
}

/// The state of the token contract.
#[derive(Debug)]
pub struct TokenState {
    /// The name of the token.
    name: String,
    /// The number of decimals that amounts of the token are shown with.
    decimals: u8,
    /// The symbol of the token.
    symbol: String,
    /// Who created the contract.
    owner: Address,
    /// How many tokens there are.
    total_supply: u128,
    /// What each holder owns, as far as it is not zero.
    balances: ListMap<Address, u128>,
    /// What each owner allows each spender, as far as it is not zero.
    allowed: ListMap<AllowedAddress, u128>,
}

impl View for TokenState {
    type V = TokenStateView;

    closed spec fn view(&self) -> TokenStateView {
        TokenStateView {
            name: self.name@,
            decimals: self.decimals,
            symbol: self.symbol@,
            owner: self.owner,
            total_supply: self.total_supply,
            balances: self.balances@,
            allowed: self.allowed@,
        }
    }
}

/// Whether `result` is the state that `expected` describes, in order, or the refusal that
/// it gives.
pub open spec fn is_token_outcome(
    result: Result<TokenState, TokenError>,
    expected: Result<TokenStateView, TokenError>,
) -> bool {
    match expected {
        Ok(after) => match result {
            Ok(state) => state.wf() && state@ == after,
            Err(_) => false,
        },
        Err(error) => match result {
            Ok(_) => false,
            Err(reason) => reason == error,
        },
    }
}

impl TokenState {
    /// No holder and no allowance is kept twice.
    pub closed spec fn entries_wf(&self) -> bool {
        self.balances.wf() && self.allowed.wf()
    }

    /// The state is in order: see [`TokenStateView::wf`].
    pub open spec fn wf(&self) -> bool {
        self.entries_wf() && self@.wf()
    }

    /// Puts a state together again from what was taken from one. Balances and
    /// allowances are entered one after another: a later entry for the same key takes the
    /// place of an earlier one, and an entry of zero takes the key off the books.
    pub fn restore(
        name: String,
        decimals: u8,
        symbol: String,
        owner: Address,
        total_supply: u128,
        balances: Vec<(Address, u128)>,
        allowed: Vec<(AllowedAddress, u128)>,
    ) -> (state: Self)
        ensures
            state.wf(),
            state@ == (TokenStateView {
                name: name@,
                decimals,
                symbol: symbol@,
                owner,
                total_supply,
                balances: balances_of(balances@),
                allowed: balances_of(allowed@),
            }),
    {
        TokenState {
            name,
            decimals,
            symbol,
            owner,
            total_supply,
            balances: balance_map_from(&balances),
            allowed: balance_map_from(&allowed),
        }
    }

    /// The holders on the books with what they own, in the order in which they were
    /// entered.
    pub closed spec fn holders(&self) -> Seq<(Address, u128)> {
        self.balances.entries()
    }

    /// The allowances on the books, in the order in which they were entered.
    pub closed spec fn allowances(&self) -> Seq<(AllowedAddress, u128)> {
        self.allowed.entries()
    }

    /// Holders and allowances are each listed once, and the books say of each what the
    /// lists say.
    pub proof fn lemma_listed(&self)
        requires
            self.wf(),
        ensures
            distinct_keys(self.holders()),
            entries_map(self.holders()) == self@.balances,
            distinct_keys(self.allowances()),
            entries_map(self.allowances()) == self@.allowed,
    {
    }

    /// The number of holders on the books.
    pub fn holder_count(&self) -> (count: usize)
        ensures
            count == self.holders().len(),
    {
        self.balances.len()
    }

    /// The holder at place `i` of [`Self::holders`], with what the holder owns.
    pub fn holder_at(&self, i: usize) -> (entry: (Address, u128))
        requires
            i < self.holders().len(),
        ensures
            entry == self.holders()[i as int],
    {
        *self.balances.entry_at(i)
    }

    /// The number of allowances on the books.
    pub fn allowance_count(&self) -> (count: usize)
        ensures
            count == self.allowances().len(),
    {
        self.allowed.len()
    }

    /// The allowance at place `i` of [`Self::allowances`].
    pub fn allowance_at(&self, i: usize) -> (entry: (AllowedAddress, u128))
        requires
            i < self.allowances().len(),
        ensures
            entry == self.allowances()[i as int],
    {
        *self.allowed.entry_at(i)
    }

    /// Gets what `owner` owns.
    pub fn balance_of(&self, owner: &Address) -> (balance: u128)
        requires
            self.wf(),
        ensures
            balance == self@.balance_of(*owner),
    {
        match self.balances.get(owner) {
            Some(balance) => *balance,
            None => 0,
        }
    }

    /// Gets what `spender` may still take of the tokens of `owner`.
    pub fn allowance(&self, owner: &Address, spender: &Address) -> (allowance: u128)
        requires
            self.wf(),
        ensures
            allowance == self@.allowance(*owner, *spender),
    {
        match self.allowed.get(&AllowedAddress { owner: *owner, spender: *spender }) {
            Some(allowance) => *allowance,
            None => 0,
        }
    }

    /// Sets what `owner` allows `spender` to `amount`, whatever it was before.
    pub fn update_allowance(&mut self, owner: Address, spender: Address, amount: u128)
        requires
            old(self).wf(),
        ensures
            final(self).wf(),
            final(self)@ == old(self)@.update_allowance(owner, spender, amount),
    {
        self.allowed.insert_balance(AllowedAddress { owner, spender }, amount);
    }

    /// Changes by `delta` what `owner` allows `spender`: a negative `delta` lowers the
    /// allowance. Where the allowance would become negative or leave the range of an
    /// amount, this is refused and nothing changes.
    pub fn update_allowance_relative(
        &mut self,
        owner: Address,
        spender: Address,
        delta: i128,
    ) -> (done: Result<(), TokenError>)
        requires
            old(self).wf(),
        ensures
            final(self).wf(),
            match old(self)@.update_allowance_relative(owner, spender, delta) {
                Ok(after) => done is Ok && final(self)@ == after,
                Err(error) => done == Err::<(), TokenError>(error) && final(self)@ == old(self)@,
            },
    {
        let existing_allowance = self.allowance(&owner, &spender);
        match existing_allowance.checked_add_signed(delta) {
            Some(new_allowance) => {
                self.update_allowance(owner, spender, new_allowance);
                Ok(())
            },
            None => Err(TokenError::AllowanceOutOfRange),
        }
    }

    /// The name of the token.
    pub fn name(&self) -> (name: &String)
        ensures
            name@ == self@.name,
    {
        &self.name
    }

    /// The symbol of the token.
    pub fn symbol(&self) -> (symbol: &String)
        ensures
            symbol@ == self@.symbol,
    {
        &self.symbol
    }

    /// The number of decimals that amounts of the token are shown with.
    pub fn decimals(&self) -> (decimals: u8)
        ensures
            decimals == self@.decimals,
    {
        self.decimals
    }

    /// Who created the contract.
    pub fn owner(&self) -> (owner: Address)
        ensures
            owner == self@.owner,
    {
        self.owner
    }

    /// How many tokens there are.
    pub fn total_supply(&self) -> (total_supply: u128)
        ensures
            total_supply == self@.total_supply,
    {
        self.total_supply
    }
}

/// The token contract as it is created: whoever creates it owns all the tokens, and
/// nothing is allowed to anyone.
pub open spec fn initial_token_state(
    sender: Address,
    name: Seq<char>,
    symbol: Seq<char>,
    decimals: u8,
    total_supply: u128,
) -> TokenStateView {
    TokenStateView {
        name,
        decimals,
        symbol,
        owner: sender,
        total_supply,
        balances: balance_inserted(Map::empty(), sender, total_supply),
        allowed: Map::empty(),
    }
}

/// Creates the token contract. The sender owns the contract and all `total_supply`
/// tokens.
pub fn initialize(
    ctx: ContractContext,
    name: String,
    symbol: String,
    decimals: u8,
    total_supply: u128,
) -> (state: TokenState)
    ensures
        state.wf(),
        state@ == initial_token_state(ctx.sender, name@, symbol@, decimals, total_supply),
{
    let mut balances: ListMap<Address, u128> = ListMap::new();
    balances.insert_balance(ctx.sender, total_supply);
    TokenState {
        name,
        symbol,
        decimals,
        owner: ctx.sender,
        total_supply,
        balances,
        allowed: ListMap::new(),
    }
}

/// Transfers `amount` tokens from the caller to `to`. Refused where the caller owns less.
/// A caller left without tokens leaves the books.
pub fn transfer(
    context: ContractContext,
    state: TokenState,
    to: Address,
    amount: u128,
) -> (result: Result<TokenState, TokenError>)
    requires
        state.wf(),
    ensures
        is_token_outcome(result, state@.core_transfer(context.sender, to, amount)),
{
    core_transfer(context.sender, state, to, amount)
}

/// Makes the given transfers from the caller, one after another. Refused where the caller
/// owns less than one of them needs when its turn comes.
pub fn bulk_transfer(
    context: ContractContext,
    state: TokenState,
    transfers: Vec<Transfer>,
) -> (result: Result<TokenState, TokenError>)
    requires
        state.wf(),
    ensures
        is_token_outcome(result, state@.bulk_transfer(context.sender, transfers@)),
{
    let mut current = state;
    let mut i: usize = 0;
    assert(transfers@.skip(0) =~= transfers@);
    while i < transfers.len()
        invariant
            i <= transfers.len(),
            current.wf(),
            state@.bulk_transfer(context.sender, transfers@) == current@.bulk_transfer(
                context.sender,
                transfers@.skip(i as int),
            ),
        decreases transfers.len() - i,
    {
        let t = transfers[i];
        proof {
            assert(transfers@.skip(i as int).len() > 0);
            assert(transfers@.skip(i as int)[0] == transfers@[i as int]);
            assert(transfers@.skip(i as int).skip(1) =~= transfers@.skip(i + 1));
        }
        current = match core_transfer(context.sender, current, t.to, t.amount) {
            Ok(transferred) => transferred,
            Err(error) => { return Err(error); },
        };
        i += 1;
    }
    Ok(current)
}

/// Transfers `amount` tokens from `from` to `to`, out of what `from` has allowed the
/// caller by [`approve`]. Refused where the caller is allowed less or `from` owns less.
pub fn transfer_from(
    context: ContractContext,
    state: TokenState,
    from: Address,
    to: Address,
    amount: u128,
) -> (result: Result<TokenState, TokenError>)
    requires
        state.wf(),
    ensures
        is_token_outcome(result, state@.core_transfer_from(context.sender, from, to, amount)),
{
    core_transfer_from(context.sender, state, from, to, amount)
}

/// Makes the given transfers from `from`, one after another, out of what `from` has
/// allowed the caller. Refused where one of them is when its turn comes.
pub fn bulk_transfer_from(
    context: ContractContext,
    state: TokenState,
    from: Address,
    transfers: Vec<Transfer>,
) -> (result: Result<TokenState, TokenError>)
    requires
        state.wf(),
    ensures
        is_token_outcome(result, state@.bulk_transfer_from(context.sender, from, transfers@)),
{
    let mut current = state;
    let mut i: usize = 0;
    assert(transfers@.skip(0) =~= transfers@);
    while i < transfers.len()
        invariant
            i <= transfers.len(),
            current.wf(),
            state@.bulk_transfer_from(context.sender, from, transfers@)
                == current@.bulk_transfer_from(context.sender, from, transfers@.skip(i as int)),
        decreases transfers.len() - i,
    {
        let t = transfers[i];
        proof {
            assert(transfers@.skip(i as int).len() > 0);
            assert(transfers@.skip(i as int)[0] == transfers@[i as int]);
            assert(transfers@.skip(i as int).skip(1) =~= transfers@.skip(i + 1));
        }
        current = match core_transfer_from(context.sender, current, from, t.to, t.amount) {
            Ok(transferred) => transferred,
            Err(error) => { return Err(error); },
        };
        i += 1;
    }
    Ok(current)
}

/// Allows `spender` to take up to `amount` of the caller's tokens, in one or more
/// transfers. What was allowed before no longer counts.
pub fn approve(
    context: ContractContext,
    state: TokenState,
    spender: Address,
    amount: u128,
) -> (approved: TokenState)
    requires
        state.wf(),
    ensures
        approved.wf(),
        approved@ == state@.update_allowance(context.sender, spender, amount),
{
    let mut state = state;
    state.update_allowance(context.sender, spender, amount);
    state
}

/// Changes by `delta` what `spender` may take of the caller's tokens. Without an
/// allowance so far, `delta` is the allowance. A negative `delta` lowers the allowance.
/// Refused where the allowance would become negative.
pub fn approve_relative(
    context: ContractContext,
    state: TokenState,
    spender: Address,
    delta: i128,
) -> (result: Result<TokenState, TokenError>)
    requires
        state.wf(),
    ensures
        is_token_outcome(result, state@.update_allowance_relative(context.sender, spender, delta)),
{
    let mut state = state;
    match state.update_allowance_relative(context.sender, spender, delta) {
        Ok(()) => Ok(state),
        Err(error) => Err(error),
    }
}

/// Transfers `amount` tokens from `sender` to `to`. Refused where `sender` owns less. A
/// sender left without tokens leaves the books.
pub fn core_transfer(
    sender: Address,
    state: TokenState,
    to: Address,
    amount: u128,
) -> (result: Result<TokenState, TokenError>)
    requires
        state.wf(),
    ensures
        is_token_outcome(result, state@.core_transfer(sender, to, amount)),
{
    let mut state = state;
    let from_amount = state.balance_of(&sender);
    match from_amount.checked_sub(amount) {
        Some(new_from_amount) => {
            state.balances.insert_balance(sender, new_from_amount);
        },
        None => {
            return Err(TokenError::InsufficientFunds { balance: from_amount, amount });
        },
    }
    let to_amount = state.balance_of(&to);
    match to_amount.checked_add(amount) {
        Some(new_to_amount) => {
            state.balances.insert_balance(to, new_to_amount);
        },
        None => {
            return Err(TokenError::ArithmeticOverflow);
        },
    }
    Ok(state)
}

/// Transfers `amount` tokens from `from` to `to` on behalf of `sender`, out of what
/// `from` has allowed `sender`. Refused where `sender` is allowed less or `from` owns
/// less.
pub fn core_transfer_from(
    sender: Address,
    state: TokenState,
    from: Address,
    to: Address,
    amount: u128,
) -> (result: Result<TokenState, TokenError>)
    requires
        state.wf(),
    ensures
        is_token_outcome(result, state@.core_transfer_from(sender, from, to, amount)),
{
    let mut state = state;
    let from_allowed = state.allowance(&from, &sender);
    match from_allowed.checked_sub(amount) {
        Some(new_allowed_amount) => {
            state.update_allowance(from, sender, new_allowed_amount);
        },
        None => {
            return Err(TokenError::InsufficientAllowance { allowance: from_allowed, amount });
        },
    }
    core_transfer(from, state, to, amount)
}

} // verus!
