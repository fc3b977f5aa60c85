//! Locks: swaps that are priced now and settled or given up later, and the difference
//! that the outstanding locks make to the two pools.

use vstd::prelude::*;
use crate::address::Address;
use crate::error::SwapError;
use crate::liquidity_util::LiquidityLockId;
use crate::list_map::{
    distinct_keys,
    entries_insert,
    entries_map,
    entries_remove,
    has_key,
    position,
    lemma_entries_insert,
    lemma_entries_remove,
    lemma_position_unique,
    ListMap,
};
use crate::token_balances::{Token, TokenAmount, TokenBalance, TokensInOut};

verus! {

/// A difference between two token amounts.
pub type TokenDelta = i128;

/// A swap with a settled price: whoever owns the lock may pay in `amount_in` and is
/// then paid `amount_out`.
#[derive(Clone, Copy, Debug, PartialEq, Eq)]
pub struct LiquidityLock {
    /// The amount that is paid in when the lock is executed.
    pub amount_in: TokenAmount,
    /// The amount that is paid out when the lock is executed.
    pub amount_out: TokenAmount,
    /// The token paid in and the token paid out.
    pub tokens_in_out: TokensInOut,
    /// Who may execute or cancel the lock.
    pub owner: Address,
}

impl LiquidityLock {
    /// What the lock adds to the virtual pool of `token` while it is outstanding: the
    /// amount to be paid in, less the amount to be paid out.
    pub open spec fn effect_on(self, token: Token) -> int {
        (if self.tokens_in_out.token_in == token {
            self.amount_in as int
        } else {
            0
        }) - (if self.tokens_in_out.token_out == token {
            self.amount_out as int
        } else {
            0
        })
    }
}

/// The difference that the outstanding locks make to each pool.
#[derive(Clone, Copy, Debug, PartialEq, Eq, Structural)]
pub struct LockLiquidity {
    /// What the locks add to the pool of token A.
    pub a_tokens: TokenDelta,
    /// What the locks add to the pool of token B.
    pub b_tokens: TokenDelta,
}

impl LockLiquidity {
    /// The difference kept for `token`. There is one for token A and one for token B, and
    /// any other token shares that of token B.
    pub open spec fn amount_of(self, token: Token) -> TokenDelta {
        match token {
            Token::TokenA => self.a_tokens,
            Token::TokenB | Token::LiquidityToken => self.b_tokens,
        }
    }

    /// These differences with the one kept for `token` replaced by `amount`.
    pub open spec fn with_amount(self, token: Token, amount: TokenDelta) -> LockLiquidity {
        match token {
            Token::TokenA => LockLiquidity { a_tokens: amount, ..self },
            Token::TokenB | Token::LiquidityToken => LockLiquidity { b_tokens: amount, ..self },
        }
    }

    /// Retrieves a copy of the difference kept for `token`.
    pub fn get_amount_of(&self, token: Token) -> (amount: TokenDelta)
        ensures
            amount == self.amount_of(token),
    {
        match token {
            Token::TokenA => self.a_tokens,
            Token::TokenB | Token::LiquidityToken => self.b_tokens,
        }
    }

    /// Retrieves a mutable reference to the difference kept for `token`.
    pub fn get_mut_amount_of(&mut self, token: Token) -> (amount: &mut TokenDelta)
        ensures
            *amount == old(self).amount_of(token),
            *final(self) == old(self).with_amount(token, *final(amount)),
    {
        match token {
            Token::TokenA => &mut self.a_tokens,
            Token::TokenB | Token::LiquidityToken => &mut self.b_tokens,
        }
    }
}

/// What all of `locks` together add to the virtual pool of `token`.
pub open spec fn net_locked(locks: Seq<(LiquidityLockId, LiquidityLock)>, token: Token) -> int
    decreases locks.len(),
{
    if locks.len() == 0 {
        0
    } else {
        net_locked(locks.drop_last(), token) + locks.last().1.effect_on(token)
    }
}

/// A new lock adds its own effect to that of the others.
pub proof fn lemma_net_locked_push(
    locks: Seq<(LiquidityLockId, LiquidityLock)>,
    entry: (LiquidityLockId, LiquidityLock),
    token: Token,
)
    ensures
        net_locked(locks.push(entry), token) == net_locked(locks, token) + entry.1.effect_on(token),
{
    assert(locks.push(entry).drop_last() =~= locks);
}

/// A lock that leaves takes its own effect with it.
pub proof fn lemma_net_locked_remove(
    locks: Seq<(LiquidityLockId, LiquidityLock)>,
    i: int,
    token: Token,
)
    requires
        0 <= i < locks.len(),
    ensures
        net_locked(locks.remove(i), token) == net_locked(locks, token) - locks[i].1.effect_on(token),
    decreases locks.len(),
{
    if i == locks.len() - 1 {
        assert(locks.remove(i) =~= locks.drop_last());
    } else {
        lemma_net_locked_remove(locks.drop_last(), i, token);
        assert(locks.remove(i).drop_last() =~= locks.drop_last().remove(i));
        assert(locks.remove(i).last() == locks.last());
    }
}

/// What the virtual state holds.
pub struct VirtualStateView {
    /// The id that the next lock gets.
    pub next_lock_id: LiquidityLockId,
    /// The outstanding locks with their ids, in the order in which they were acquired.
    pub locks: Seq<(LiquidityLockId, LiquidityLock)>,
    /// The difference that the outstanding locks make to each pool.
    pub lock_liquidity: LockLiquidity,
}

impl VirtualStateView {
    /// The state before any lock was acquired.
    pub open spec fn initial() -> VirtualStateView {
        VirtualStateView {
            next_lock_id: LiquidityLockId { raw_id: 0 },
            locks: Seq::empty(),
            lock_liquidity: LockLiquidity { a_tokens: 0, b_tokens: 0 },
        }
    }

    /// No id is held by two locks or will be given out again, every lock swaps one reserve
    /// token for the other, and the differences kept are what the outstanding locks add
    /// up to.
    pub open spec fn wf(self) -> bool {
        &&& distinct_keys(self.locks)
        &&& forall|i: int|
            0 <= i < self.locks.len() ==> (#[trigger] self.locks[i]).0.raw_id
                < self.next_lock_id.raw_id
        &&& forall|i: int|
            0 <= i < self.locks.len() ==> (#[trigger] self.locks[i]).1.tokens_in_out.is_reserve_pair()
        &&& self.lock_liquidity.a_tokens == net_locked(self.locks, Token::A)
        &&& self.lock_liquidity.b_tokens == net_locked(self.locks, Token::B)
    }

    /// Whether no lock is outstanding.
    pub open spec fn has_no_outstanding_locks(self) -> bool {
        self.locks.len() == 0
    }

    /// The lock with the given id, if it is outstanding.
    pub open spec fn lock(self, lock_id: LiquidityLockId) -> Option<LiquidityLock> {
        if has_key(self.locks, lock_id) {
            Some(self.locks[position(self.locks, lock_id)].1)
        } else {
            None
        }
    }

    /// The differences that are kept once `lock` has been acquired, where they fit.
    pub open spec fn liquidity_with(self, lock: LiquidityLock) -> Option<LockLiquidity> {
        let a_tokens = self.lock_liquidity.a_tokens + lock.effect_on(Token::A);
        let b_tokens = self.lock_liquidity.b_tokens + lock.effect_on(Token::B);
        if TokenDelta::MIN <= a_tokens <= TokenDelta::MAX && TokenDelta::MIN <= b_tokens
            <= TokenDelta::MAX {
            Some(LockLiquidity { a_tokens: a_tokens as TokenDelta, b_tokens: b_tokens as TokenDelta })
        } else {
            None
        }
    }

    /// The differences that are kept once `lock` has left, where they fit.
    pub open spec fn liquidity_without(self, lock: LiquidityLock) -> Option<LockLiquidity> {
        let a_tokens = self.lock_liquidity.a_tokens - lock.effect_on(Token::A);
        let b_tokens = self.lock_liquidity.b_tokens - lock.effect_on(Token::B);
        if TokenDelta::MIN <= a_tokens <= TokenDelta::MAX && TokenDelta::MIN <= b_tokens
            <= TokenDelta::MAX {
            Some(LockLiquidity { a_tokens: a_tokens as TokenDelta, b_tokens: b_tokens as TokenDelta })
        } else {
            None
        }
    }

    /// Acquiring `lock`: it gets the next id, which is then used up, and the pools take
    /// its effect. Refused where the ids are used up or a difference leaves its range.
    pub open spec fn add_lock(self, lock: LiquidityLock) -> Result<
        (VirtualStateView, LiquidityLockId),
        SwapError,
    > {
        if self.next_lock_id.raw_id == u128::MAX {
            Err(SwapError::ArithmeticOverflow)
        } else {
            match self.liquidity_with(lock) {
                Some(lock_liquidity) => Ok(
                    (
                        VirtualStateView {
                            next_lock_id: LiquidityLockId {
                                raw_id: (self.next_lock_id.raw_id + 1) as u128,
                            },
                            locks: self.locks.push((self.next_lock_id, lock)),
                            lock_liquidity,
                        },
                        self.next_lock_id,
                    ),
                ),
                None => Err(SwapError::ArithmeticOverflow),
            }
        }
    }

    /// Releasing the lock with the given id on behalf of `sender`: the lock leaves, and
    /// the pools lose its effect. Refused where there is no such lock, where it is not
    /// `sender`'s, or where a difference leaves its range.
    pub open spec fn remove_lock(self, lock_id: LiquidityLockId, sender: Address) -> Result<
        (VirtualStateView, LiquidityLock),
        SwapError,
    > {
        match self.lock(lock_id) {
            None => Err(SwapError::UnknownLock { lock_id }),
            Some(lock) => if lock.owner != sender {
                Err(SwapError::NotLockOwner { lock_id })
            } else {
                match self.liquidity_without(lock) {
                    Some(lock_liquidity) => Ok(
                        (
                            VirtualStateView {
                                next_lock_id: self.next_lock_id,
                                locks: entries_remove(self.locks, lock_id),
                                lock_liquidity,
                            },
                            lock,
                        ),
                    ),
                    None => Err(SwapError::ArithmeticOverflow),
                }
            },
        }
    }

    /// The virtual pools: the actual pools with the effect of the outstanding locks.
    /// Refused where a virtual pool would be negative or beyond the range of an amount.
    pub open spec fn virtual_liquidity_pools(
        self,
        actual_a: TokenAmount,
        actual_b: TokenAmount,
    ) -> Result<TokenBalance, SwapError> {
        let a_tokens = actual_a + self.lock_liquidity.a_tokens;
        let b_tokens = actual_b + self.lock_liquidity.b_tokens;
        if 0 <= a_tokens <= TokenAmount::MAX && 0 <= b_tokens <= TokenAmount::MAX {
            Ok(
                TokenBalance {
                    a_tokens: a_tokens as TokenAmount,
                    b_tokens: b_tokens as TokenAmount,
                    liquidity_tokens: 0,
                },
            )
        } else {
            Err(SwapError::ArithmeticOverflow)
        }
    }
}

/// A fresh id is held by no outstanding lock.
pub proof fn lemma_next_id_is_free(state: VirtualStateView)
    requires
        state.wf(),
    ensures
        !has_key(state.locks, state.next_lock_id),
        state.lock(state.next_lock_id) is None,
{
    if has_key(state.locks, state.next_lock_id) {
        let p = position(state.locks, state.next_lock_id);
        assert(state.locks[p].0.raw_id < state.next_lock_id.raw_id);
    }
}

/// Acquiring a lock keeps the virtual state in order.
pub proof fn lemma_add_lock_keeps_wf(state: VirtualStateView, lock: LiquidityLock)
    requires
        state.wf(),
        lock.tokens_in_out.is_reserve_pair(),
        state.add_lock(lock) is Ok,
    ensures
        state.add_lock(lock)->Ok_0.0.wf(),
        state.add_lock(lock)->Ok_0.0.locks == entries_insert(
            state.locks,
            state.next_lock_id,
            lock,
        ),
{
    let entry = (state.next_lock_id, lock);
    lemma_net_locked_push(state.locks, entry, Token::A);
    lemma_net_locked_push(state.locks, entry, Token::B);
    lemma_next_id_is_free(state);
    lemma_entries_insert(state.locks, state.next_lock_id, lock);
}

/// Releasing a lock keeps the virtual state in order.
pub proof fn lemma_remove_lock_keeps_wf(
    state: VirtualStateView,
    lock_id: LiquidityLockId,
    sender: Address,
)
    requires
        state.wf(),
        state.remove_lock(lock_id, sender) is Ok,
    ensures
        state.remove_lock(lock_id, sender)->Ok_0.0.wf(),
        entries_map(state.locks).contains_key(lock_id),
        state.remove_lock(lock_id, sender)->Ok_0.1 == entries_map(state.locks)[lock_id],
{
    let locks = state.locks;
    let p = position(locks, lock_id);
    lemma_position_unique(locks, p);
    lemma_net_locked_remove(locks, p, Token::A);
    lemma_net_locked_remove(locks, p, Token::B);
    lemma_entries_remove(locks, lock_id);
    let after = entries_remove(locks, lock_id);
    assert forall|i: int| 0 <= i < after.len() implies #[trigger] after[i] == locks[if i < p {
        i
    } else {
        i + 1
    }] by {}
}

/// A lock that is released right after it was acquired leaves the virtual state as it
/// was before, but for the id, which stays used up: the outstanding locks are the same,
/// and so is what they add to each pool.
pub proof fn lemma_remove_undoes_add(state: VirtualStateView, lock: LiquidityLock)
    requires
        state.wf(),
        lock.tokens_in_out.is_reserve_pair(),
        state.add_lock(lock) is Ok,
    ensures
        state.add_lock(lock)->Ok_0.1 == state.next_lock_id,
        state.add_lock(lock)->Ok_0.0.remove_lock(state.next_lock_id, lock.owner) == Ok::<
            (VirtualStateView, LiquidityLock),
            SwapError,
        >(
            (
                VirtualStateView {
                    next_lock_id: state.add_lock(lock)->Ok_0.0.next_lock_id,
                    ..state
                },
                lock,
            ),
        ),
{
    let added = state.add_lock(lock)->Ok_0.0;
    let lock_id = state.next_lock_id;
    lemma_add_lock_keeps_wf(state, lock);
    let last = state.locks.len() as int;
    assert(added.locks[last] == (lock_id, lock));
    lemma_position_unique(added.locks, last);
    assert(added.locks.remove(last) =~= state.locks);
}

/// Without outstanding locks the virtual pools are the actual pools.
pub proof fn lemma_no_locks_virtual_is_actual(
    state: VirtualStateView,
    actual_a: TokenAmount,
    actual_b: TokenAmount,
)
    requires
        state.wf(),
        state.has_no_outstanding_locks(),
    ensures
        state.virtual_liquidity_pools(actual_a, actual_b) == Ok::<TokenBalance, SwapError>(
            TokenBalance { a_tokens: actual_a, b_tokens: actual_b, liquidity_tokens: 0 },
        ),
{
}

/// The virtual state that holds the given locks, acquired in the order given, and gives
/// out `next_lock_id` next. There is none where an id is not below `next_lock_id` or is
/// held twice, where a lock does not swap one reserve token for the other, or where,
/// lock by lock in the order given, a difference leaves its range.
pub open spec fn restored(
    next_lock_id: LiquidityLockId,
    locks: Seq<(LiquidityLockId, LiquidityLock)>,
) -> Option<VirtualStateView>
    decreases locks.len(),
{
    if locks.len() == 0 {
        Some(VirtualStateView { next_lock_id, ..VirtualStateView::initial() })
    } else {
        match restored(next_lock_id, locks.drop_last()) {
            None => None,
            Some(state) => {
                let (lock_id, lock) = locks.last();
                if lock_id.raw_id >= next_lock_id.raw_id || has_key(state.locks, lock_id)
                    || !lock.tokens_in_out.is_reserve_pair() {
                    None
                } else {
                    match state.liquidity_with(lock) {
                        None => None,
                        Some(lock_liquidity) => Some(
                            VirtualStateView {
                                next_lock_id,
                                locks: state.locks.push((lock_id, lock)),
                                lock_liquidity,
                            },
                        ),
                    }
                }
            },
        }
    }
}

/// Locks that cannot be restored cannot be restored with more locks behind them.
pub proof fn lemma_restored_none_stays_none(
    next_lock_id: LiquidityLockId,
    locks: Seq<(LiquidityLockId, LiquidityLock)>,
    upto: int,
)
    requires
        0 <= upto <= locks.len(),
        restored(next_lock_id, locks.take(upto)) is None,
    ensures
        restored(next_lock_id, locks) is None,
    decreases locks.len() - upto,
{
    if upto < locks.len() {
        assert(locks.take(upto + 1).drop_last() =~= locks.take(upto));
        lemma_restored_none_stays_none(next_lock_id, locks, upto + 1);
    } else {
        assert(locks.take(upto) =~= locks);
    }
}

/// A restored virtual state is in order and holds the locks it was restored from.
pub proof fn lemma_restored_is_wf(
    next_lock_id: LiquidityLockId,
    locks: Seq<(LiquidityLockId, LiquidityLock)>,
)
    requires
        restored(next_lock_id, locks) is Some,
    ensures
        restored(next_lock_id, locks)->Some_0.wf(),
        restored(next_lock_id, locks)->Some_0.locks == locks,
        restored(next_lock_id, locks)->Some_0.next_lock_id == next_lock_id,
    decreases locks.len(),
{
    if locks.len() > 0 {
        lemma_restored_is_wf(next_lock_id, locks.drop_last());
        let state = restored(next_lock_id, locks.drop_last())->Some_0;
        let (lock_id, lock) = locks.last();
        lemma_net_locked_push(state.locks, (lock_id, lock), Token::A);
        lemma_net_locked_push(state.locks, (lock_id, lock), Token::B);
        lemma_entries_insert(state.locks, lock_id, lock);
        assert(locks.drop_last().push(locks.last()) =~= locks);
    }
}

/// The virtual pools and the locks that make them differ from the actual pools.
#[derive(Debug)]
pub struct VirtualState {
    /// The id that the next lock gets.
    next_lock_id: LiquidityLockId,
    /// The outstanding locks.
    locks: ListMap<LiquidityLockId, LiquidityLock>,
    /// The difference that the outstanding locks make to each pool, so that each virtual
    /// pool is the actual pool plus this difference.
    lock_liquidity: LockLiquidity,
}

impl View for VirtualState {
    type V = VirtualStateView;

    closed spec fn view(&self) -> VirtualStateView {
        VirtualStateView {
            next_lock_id: self.next_lock_id,
            locks: self.locks.entries(),
            lock_liquidity: self.lock_liquidity,
        }
    }
}

impl Default for VirtualState {
    fn default() -> (state: Self)
        ensures
            state.wf(),
            state@ == VirtualStateView::initial(),
    {
        Self::new()
    }
}

impl VirtualState {
    /// The state is in order: see [`VirtualStateView::wf`].
    pub open spec fn wf(&self) -> bool {
        self@.wf()
    }

    /// A new virtual state holds no locks and gives out the initial id first.
    pub fn new() -> (state: Self)
        ensures
            state.wf(),
            state@ == VirtualStateView::initial(),
    {
        let lock_liquidity = LockLiquidity { a_tokens: 0, b_tokens: 0 };
        Self { next_lock_id: LiquidityLockId::initial_id(), locks: ListMap::new(), lock_liquidity }
    }

    /// Puts a virtual state together again from what was taken from one: the id that
    /// the next lock gets, and the outstanding locks in the order in which they were
    /// acquired. See [`restored`] for what is refused.
    pub fn restore(
        next_lock_id: LiquidityLockId,
        locks: Vec<(LiquidityLockId, LiquidityLock)>,
    ) -> (state: Option<Self>)
        ensures
            match restored(next_lock_id, locks@) {
                Some(view) => state matches Some(restored_state) && restored_state.wf()
                    && restored_state@ == view,
                None => state is None,
            },
    {
        let mut state = Self {
            next_lock_id,
            locks: ListMap::new(),
            lock_liquidity: LockLiquidity { a_tokens: 0, b_tokens: 0 },
        };
        let mut i: usize = 0;
        assert(locks@.take(0) =~= Seq::empty());
        while i < locks.len()
            invariant
                i <= locks.len(),
                restored(next_lock_id, locks@.take(i as int)) == Some(state@),
                state.locks.wf(),
            decreases locks.len() - i,
        {
            let (lock_id, lock) = locks[i];
            proof {
                let upto = locks@.take(i + 1);
                assert(upto.drop_last() =~= locks@.take(i as int));
                assert(upto.last() == locks@[i as int]);
                if restored(next_lock_id, upto) is None {
                    lemma_restored_none_stays_none(next_lock_id, locks@, i + 1);
                }
            }
            if lock_id.raw_id >= next_lock_id.raw_id || state.locks.contains_key(&lock_id)
                || !lock.tokens_in_out.is_reserve_pair() {
                return None;
            }
            if !state.put_lock(lock_id, lock) {
                return None;
            }
            i += 1;
        }
        proof {
            assert(locks@.take(i as int) =~= locks@);
            lemma_restored_is_wf(next_lock_id, locks@);
        }
        Some(state)
    }

    /// Enters `lock` under `lock_id`, which no outstanding lock holds, and lets the
    /// virtual pools take its effect. Where a virtual pool's difference would leave its
    /// range, nothing changes, and the answer is no.
    fn put_lock(&mut self, lock_id: LiquidityLockId, lock: LiquidityLock) -> (done: bool)
        requires
            old(self).locks.wf(),
            !has_key(old(self)@.locks, lock_id),
            lock.tokens_in_out.is_reserve_pair(),
        ensures
            final(self).locks.wf(),
            match old(self)@.liquidity_with(lock) {
                Some(lock_liquidity) => done && final(self)@ == (VirtualStateView {
                    locks: old(self)@.locks.push((lock_id, lock)),
                    lock_liquidity,
                    ..old(self)@
                }),
                None => !done && final(self)@ == old(self)@,
            },
    {
        let token_in = lock.tokens_in_out.token_in;
        let token_out = lock.tokens_in_out.token_out;
        let mut lock_liquidity = self.lock_liquidity;
        let with_in = match lock_liquidity.get_amount_of(token_in).checked_add_unsigned(
            lock.amount_in,
        ) {
            Some(with_in) => with_in,
            None => { return false; },
        };
        let with_out = match lock_liquidity.get_amount_of(token_out).checked_sub_unsigned(
            lock.amount_out,
        ) {
            Some(with_out) => with_out,
            None => { return false; },
        };
        *lock_liquidity.get_mut_amount_of(token_in) = with_in;
        *lock_liquidity.get_mut_amount_of(token_out) = with_out;
        self.lock_liquidity = lock_liquidity;
        self.locks.insert(lock_id, lock);
        true
    }

    /// The id that the next lock gets.
    pub fn next_lock_id(&self) -> (lock_id: LiquidityLockId)
        ensures
            lock_id == self@.next_lock_id,
    {
        self.next_lock_id
    }

    /// The difference that the outstanding locks make to each pool.
    pub fn lock_liquidity(&self) -> (lock_liquidity: LockLiquidity)
        ensures
            lock_liquidity == self@.lock_liquidity,
    {
        self.lock_liquidity
    }

    /// The number of outstanding locks.
    pub fn lock_count(&self) -> (count: usize)
        ensures
            count == self@.locks.len(),
    {
        self.locks.len()
    }

    /// The outstanding lock at place `i` in the order in which the locks were acquired,
    /// with its id.
    pub fn lock_at(&self, i: usize) -> (entry: (LiquidityLockId, LiquidityLock))
        requires
            i < self@.locks.len(),
        ensures
            entry == self@.locks[i as int],
    {
        *self.locks.entry_at(i)
    }

    /// Adds `lock` to the virtual state, as if the swap had happened: the lock gets the
    /// next id, which is returned, and the virtual pools take its effect. Where the ids
    /// are used up or a virtual pool's difference leaves its range, the lock is refused and
    /// nothing changes.
    pub fn add_lock(&mut self, lock: LiquidityLock) -> (added: Result<LiquidityLockId, SwapError>)
        requires
            old(self).wf(),
            lock.tokens_in_out.is_reserve_pair(),
        ensures
            final(self).wf(),
            match old(self)@.add_lock(lock) {
                Ok((after, lock_id)) => added == Ok::<LiquidityLockId, SwapError>(lock_id)
                    && final(self)@ == after,
                Err(error) => added == Err::<LiquidityLockId, SwapError>(error) && final(self)@
                    == old(self)@,
            },
    {
        let lock_id = self.next_lock_id;
        let next_lock_id = match lock_id.checked_next() {
            Some(next_lock_id) => next_lock_id,
            None => { return Err(SwapError::ArithmeticOverflow); },
        };
        proof {
            lemma_next_id_is_free(self@);
            if self@.add_lock(lock) is Ok {
                lemma_add_lock_keeps_wf(self@, lock);
            }
        }
        if !self.put_lock(lock_id, lock) {
            return Err(SwapError::ArithmeticOverflow);
        }
        self.next_lock_id = next_lock_id;
        Ok(lock_id)
    }

    /// Removes the lock with id `lock_id` on behalf of `sender`, and returns it: the
    /// virtual pools lose its effect. Where there is no such lock, where it is not
    /// `sender`'s, or where a virtual pool's difference leaves its range, nothing changes.
    pub fn remove_lock(&mut self, lock_id: LiquidityLockId, sender: Address) -> (removed: Result<
        LiquidityLock,
        SwapError,
    >)
        requires
            old(self).wf(),
        ensures
            final(self).wf(),
            match old(self)@.remove_lock(lock_id, sender) {
                Ok((after, lock)) => removed == Ok::<LiquidityLock, SwapError>(lock) && final(self)@
                    == after,
                Err(error) => removed == Err::<LiquidityLock, SwapError>(error) && final(self)@
                    == old(self)@,
            },
    {
        let lock = match self.locks.get(&lock_id) {
            Some(lock) => *lock,
            None => { return Err(SwapError::UnknownLock { lock_id }); },
        };
        if sender != lock.owner {
            return Err(SwapError::NotLockOwner { lock_id });
        }
        let token_in = lock.tokens_in_out.token_in;
        let token_out = lock.tokens_in_out.token_out;
        let mut lock_liquidity = self.lock_liquidity;
        let without_in = match lock_liquidity.get_amount_of(token_in).checked_sub_unsigned(
            lock.amount_in,
        ) {
            Some(without_in) => without_in,
            None => { return Err(SwapError::ArithmeticOverflow); },
        };
        let without_out = match lock_liquidity.get_amount_of(token_out).checked_add_unsigned(
            lock.amount_out,
        ) {
            Some(without_out) => without_out,
            None => { return Err(SwapError::ArithmeticOverflow); },
        };
        *lock_liquidity.get_mut_amount_of(token_in) = without_in;
        *lock_liquidity.get_mut_amount_of(token_out) = without_out;
        proof {
            lemma_remove_lock_keeps_wf(self@, lock_id, sender);
        }
        self.lock_liquidity = lock_liquidity;
        self.locks.remove(&lock_id);
        Ok(lock)
    }

    /// Returns the virtual pools for the given actual pools: each actual pool with the
    /// effect of the outstanding locks. Refused where a virtual pool would be negative or
    /// beyond the range of an amount.
    pub fn virtual_liquidity_pools(
        &self,
        actual_a: TokenAmount,
        actual_b: TokenAmount,
    ) -> (pools: Result<TokenBalance, SwapError>)
        ensures
            pools == self@.virtual_liquidity_pools(actual_a, actual_b),
    {
        let a_tokens = match actual_a.checked_add_signed(self.lock_liquidity.a_tokens) {
            Some(a_tokens) => a_tokens,
            None => { return Err(SwapError::ArithmeticOverflow); },
        };
        let b_tokens = match actual_b.checked_add_signed(self.lock_liquidity.b_tokens) {
            Some(b_tokens) => b_tokens,
            None => { return Err(SwapError::ArithmeticOverflow); },
        };
        Ok(TokenBalance { a_tokens, b_tokens, liquidity_tokens: 0 })
    }

    /// Whether no lock is outstanding.
    pub fn has_no_outstanding_locks(&self) -> (none: bool)
        ensures
            none == self@.has_no_outstanding_locks(),
    {
        self.locks.is_empty()
    }

    /// Whether no lock is outstanding: true where there is no locked liquidity, as
    /// [`VirtualState::has_no_outstanding_locks`].
    pub fn any_locked_liquidity(&self) -> (none: bool)
        ensures
            none == self@.has_no_outstanding_locks(),
    {
        self.locks.is_empty()
    }
}

} // verus!
