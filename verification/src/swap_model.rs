//! What the operations of the pool do, told of what the pool holds: each operation gives
//! the pool as it is afterwards and the event groups to send, or the reason for which it
//! is refused.

use vstd::prelude::*;
use crate::address::Address;
use crate::error::SwapError;
use crate::events::{Callback, EventGroupView, InteractionView, InvocationView, ReturnData};
use crate::liquidity_math::{
    equivalent_and_minted_checked,
    initial_liquidity,
    reclaim_output,
    reclaim_output_checked,
};
use crate::liquidity_util::{swap_quote, AcquiredLiquidityLockInformation, LiquidityLockId};
use crate::math::lemma_sqrt_floor_of_product;
use crate::permission::PermissionView;
use crate::token_balances::{
    lemma_credit_keeps_wf,
    lemma_debit_keeps_wf,
    lemma_transfer_keeps_totals,
    Token,
    TokenAmount,
    TokenBalance,
    TokenBalancesView,
    TokensInOut,
    Totals,
};
use crate::virtual_state::{
    lemma_add_lock_keeps_wf,
    lemma_no_locks_virtual_is_actual,
    lemma_remove_lock_keeps_wf,
    lemma_remove_undoes_add,
    LiquidityLock,
    VirtualStateView,
};

verus! {

/// The highest swap fee, in per mille, that a pool can be created with.
pub const MAX_FEE_PER_MILLE: u16 = 1000;

/// What the pool holds.
pub struct LiquiditySwapContractStateView {
    /// Who may acquire locks.
    pub permission_lock_swap: PermissionView,
    /// The address of the pool, under which the ledger keeps the pools themselves.
    pub liquidity_pool_address: Address,
    /// The fee for swaps, in per mille.
    pub swap_fee_per_mille: u16,
    /// What every holder owns.
    pub token_balances: TokenBalancesView,
    /// The outstanding locks and what they add to the pools.
    pub virtual_state: VirtualStateView,
}

/// How an operation ends: with the pool as it is afterwards and the event groups to send,
/// or with the reason why it was refused.
pub type Outcome = Result<(LiquiditySwapContractStateView, Seq<EventGroupView>), SwapError>;

/// An event group with one call and, where one is given, a callback.
pub open spec fn call_group(
    interaction: InteractionView,
    callback: Option<Callback>,
) -> EventGroupView {
    EventGroupView { calls: seq![interaction], callback, return_data: None }
}

/// An event group that only hands data back.
pub open spec fn return_group(data: ReturnData) -> EventGroupView {
    EventGroupView { calls: Seq::empty(), callback: None, return_data: Some(data) }
}

impl LiquiditySwapContractStateView {
    /// The fee is at most a thousand per mille, and ledger and locks are in order.
    pub open spec fn wf(self) -> bool {
        &&& self.swap_fee_per_mille <= MAX_FEE_PER_MILLE
        &&& self.token_balances.wf()
        &&& self.virtual_state.wf()
    }

    /// What the pool itself owns: the actual pools of the two reserve tokens and, as its
    /// liquidity tokens, the count of all liquidity tokens minted.
    pub open spec fn pool_balance(self) -> TokenBalance {
        self.token_balances.balance_of(self.liquidity_pool_address)
    }

    /// Whether both actual pools hold something.
    pub open spec fn contract_pools_have_liquidity(self) -> bool {
        self.pool_balance().a_tokens != 0 && self.pool_balance().b_tokens != 0
    }

    /// The virtual pools: the actual pools with the effect of the outstanding locks.
    pub open spec fn virtual_pools(self) -> Result<TokenBalance, SwapError> {
        self.virtual_state.virtual_liquidity_pools(
            self.pool_balance().a_tokens,
            self.pool_balance().b_tokens,
        )
    }

    /// The pool with another ledger.
    pub open spec fn with_balances(self, token_balances: TokenBalancesView) -> Self {
        LiquiditySwapContractStateView { token_balances, ..self }
    }

    /// The pool with another virtual state.
    pub open spec fn with_virtual_state(self, virtual_state: VirtualStateView) -> Self {
        LiquiditySwapContractStateView { virtual_state, ..self }
    }

    /// What a swap of `amount_in` pays out at the least: the lower of the prices that the
    /// actual pools and the virtual pools give.
    pub open spec fn minimum_swap_to_amount(
        self,
        amount_in: TokenAmount,
        tokens_in_out: TokensInOut,
    ) -> Result<TokenAmount, SwapError> {
        let actual = self.pool_balance();
        match self.virtual_state.virtual_liquidity_pools(actual.a_tokens, actual.b_tokens) {
            Err(error) => Err(error),
            Ok(virtual_pools) => match swap_quote(
                actual.amount_of(tokens_in_out.token_in),
                actual.amount_of(tokens_in_out.token_out),
                amount_in,
                self.swap_fee_per_mille,
            ) {
                Err(error) => Err(error),
                Ok(non_locked_rate) => match swap_quote(
                    virtual_pools.amount_of(tokens_in_out.token_in),
                    virtual_pools.amount_of(tokens_in_out.token_out),
                    amount_in,
                    self.swap_fee_per_mille,
                ) {
                    Err(error) => Err(error),
                    Ok(locked_rate) => Ok(
                        if non_locked_rate <= locked_rate {
                            non_locked_rate
                        } else {
                            locked_rate
                        },
                    ),
                },
            },
        }
    }

    /// Pricing a swap of `amount_in` of the token at `token_in` and locking it for
    /// `owner`: gives the pool with the lock, the lock's id and what it will pay out.
    pub open spec fn lock_internal(
        self,
        amount_in: TokenAmount,
        token_in: Address,
        amount_out_minimum: TokenAmount,
        owner: Address,
    ) -> Result<(Self, LiquidityLockId, TokenAmount), SwapError> {
        match self.token_balances.tokens_in_out(token_in) {
            Err(error) => Err(error),
            Ok(tokens_in_out) => match self.minimum_swap_to_amount(amount_in, tokens_in_out) {
                Err(error) => Err(error),
                Ok(amount_out) => if amount_out < amount_out_minimum {
                    Err(SwapError::BelowMinimum { amount_out, amount_out_minimum })
                } else {
                    match self.virtual_state.add_lock(
                        LiquidityLock { amount_in, amount_out, tokens_in_out, owner },
                    ) {
                        Err(error) => Err(error),
                        Ok((virtual_state, lock_id)) => Ok(
                            (self.with_virtual_state(virtual_state), lock_id, amount_out),
                        ),
                    }
                },
            },
        }
    }

    /// Executing the lock with the given id on behalf of `sender`: the lock leaves, its
    /// owner pays the pool the amount locked in, and the pool pays the owner the amount
    /// locked out.
    pub open spec fn execute_lock_swap_internal(
        self,
        lock_id: LiquidityLockId,
        sender: Address,
    ) -> Result<(Self, TokenAmount), SwapError> {
        match self.virtual_state.remove_lock(lock_id, sender) {
            Err(error) => Err(error),
            Ok((virtual_state, lock)) => match self.token_balances.transfer(
                lock.owner,
                self.liquidity_pool_address,
                lock.tokens_in_out.token_in,
                lock.amount_in,
            ) {
                Err(error) => Err(error),
                Ok(paid_in) => match paid_in.transfer(
                    self.liquidity_pool_address,
                    lock.owner,
                    lock.tokens_in_out.token_out,
                    lock.amount_out,
                ) {
                    Err(error) => Err(error),
                    Ok(paid_out) => Ok(
                        (
                            self.with_virtual_state(virtual_state).with_balances(paid_out),
                            lock.amount_out,
                        ),
                    ),
                },
            },
        }
    }

    /// Providing liquidity: `user` pays the pool both amounts, and the minted liquidity
    /// tokens are added to what `user` owns and to the pool's count of all of them.
    pub open spec fn provide_liquidity_internal(
        self,
        user: Address,
        tokens: TokensInOut,
        token_in_amount: TokenAmount,
        token_out_amount: TokenAmount,
        minted_liquidity_tokens: TokenAmount,
    ) -> Result<Self, SwapError> {
        match self.token_balances.transfer(
            user,
            self.liquidity_pool_address,
            tokens.token_in,
            token_in_amount,
        ) {
            Err(error) => Err(error),
            Ok(paid_in) => match paid_in.transfer(
                user,
                self.liquidity_pool_address,
                tokens.token_out,
                token_out_amount,
            ) {
                Err(error) => Err(error),
                Ok(paid_both) => match paid_both.credit(
                    user,
                    Token::LIQUIDITY,
                    minted_liquidity_tokens,
                ) {
                    Err(error) => Err(error),
                    Ok(minted) => match minted.credit(
                        self.liquidity_pool_address,
                        Token::LIQUIDITY,
                        minted_liquidity_tokens,
                    ) {
                        Err(error) => Err(error),
                        Ok(counted) => Ok(self.with_balances(counted)),
                    },
                },
            },
        }
    }

    /// A deposit by `sender`: the token contract is asked to move the amount to the pool,
    /// and a callback is to book it once it has arrived. The pool itself does not change.
    pub open spec fn deposit(
        self,
        sender: Address,
        token_address: Address,
        amount: TokenAmount,
    ) -> Outcome {
        match self.token_balances.tokens_in_out(token_address) {
            Err(error) => Err(error),
            Ok(tokens) => Ok(
                (
                    self,
                    seq![
                        call_group(
                            InteractionView {
                                contract: token_address,
                                invocation: InvocationView::TransferFrom {
                                    from: sender,
                                    to: self.liquidity_pool_address,
                                    amount,
                                },
                                cost: Some(15500u64),
                            },
                            Some(Callback::Deposit { token: tokens.token_in, amount }),
                        ),
                    ],
                ),
            ),
        }
    }

    /// The end of a deposit by `sender`: where the token contract moved the amount, it is
    /// added to what `sender` owns.
    pub open spec fn deposit_callback(
        self,
        sender: Address,
        success: bool,
        token: Token,
        amount: TokenAmount,
    ) -> Outcome {
        if !success {
            Err(SwapError::TransferFailed)
        } else {
            match self.token_balances.credit(sender, token, amount) {
                Err(error) => Err(error),
                Ok(credited) => Ok((self.with_balances(credited), Seq::empty())),
            }
        }
    }

    /// A swap by `sender` at the price of the moment: a lock that is acquired and executed
    /// at once.
    pub open spec fn instant_swap(
        self,
        sender: Address,
        token_in: Address,
        amount_in: TokenAmount,
        amount_out_minimum: TokenAmount,
    ) -> Outcome {
        if !self.contract_pools_have_liquidity() {
            Err(SwapError::NoLiquidity)
        } else {
            match self.lock_internal(amount_in, token_in, amount_out_minimum, sender) {
                Err(error) => Err(error),
                Ok((locked, lock_id, _)) => match locked.execute_lock_swap_internal(
                    lock_id,
                    sender,
                ) {
                    Err(error) => Err(error),
                    Ok((swapped, _)) => Ok((swapped, Seq::empty())),
                },
            }
        }
    }

    /// A withdrawal by `sender`: the amount is taken from what `sender` owns at once, and
    /// the token contract is asked to pay it out. Where `wait_for_callback` is set, a
    /// callback holds back what follows until that is done.
    pub open spec fn withdraw(
        self,
        sender: Address,
        token_address: Address,
        amount: TokenAmount,
        wait_for_callback: bool,
    ) -> Outcome {
        match self.token_balances.tokens_in_out(token_address) {
            Err(error) => Err(error),
            Ok(tokens) => match self.token_balances.debit(sender, tokens.token_in, amount) {
                Err(error) => Err(error),
                Ok(debited) => Ok(
                    (
                        self.with_balances(debited),
                        seq![
                            call_group(
                                InteractionView {
                                    contract: token_address,
                                    invocation: InvocationView::Transfer { to: sender, amount },
                                    cost: Some(15500u64),
                                },
                                if wait_for_callback {
                                    Some(Callback::WaitWithdraw)
                                } else {
                                    None
                                },
                            ),
                        ],
                    ),
                ),
            },
        }
    }

    /// Liquidity provided by `sender`: `amount` of the token at `token_address` and what
    /// has to go with it of the other token, priced by the actual pools. Refused where no
    /// liquidity token would be minted.
    pub open spec fn provide_liquidity(
        self,
        sender: Address,
        token_address: Address,
        amount: TokenAmount,
    ) -> Outcome {
        match self.token_balances.tokens_in_out(token_address) {
            Err(error) => Err(error),
            Ok(tokens) => match equivalent_and_minted_checked(
                amount,
                self.pool_balance().amount_of(tokens.token_in),
                self.pool_balance().amount_of(tokens.token_out),
                self.pool_balance().liquidity_tokens,
            ) {
                Err(error) => Err(error),
                Ok((token_out_equivalent, minted_liquidity_tokens)) => if minted_liquidity_tokens
                    == 0 {
                    Err(SwapError::ZeroMintedLiquidity)
                } else {
                    match self.provide_liquidity_internal(
                        sender,
                        tokens,
                        amount,
                        token_out_equivalent,
                        minted_liquidity_tokens,
                    ) {
                        Err(error) => Err(error),
                        Ok(provided) => Ok((provided, Seq::empty())),
                    }
                },
            },
        }
    }

    /// Liquidity reclaimed by `sender`: the liquidity tokens are burned, and their share
    /// of each actual pool is paid to `sender`. Refused while a lock is outstanding.
    pub open spec fn reclaim_liquidity(
        self,
        sender: Address,
        liquidity_token_amount: TokenAmount,
    ) -> Outcome {
        if !self.virtual_state.has_no_outstanding_locks() {
            Err(SwapError::LocksPresent)
        } else {
            match self.token_balances.debit(sender, Token::LIQUIDITY, liquidity_token_amount) {
                Err(error) => Err(error),
                Ok(burned) => {
                    let pool = burned.balance_of(self.liquidity_pool_address);
                    match reclaim_output_checked(
                        liquidity_token_amount,
                        pool.a_tokens,
                        pool.b_tokens,
                        pool.liquidity_tokens,
                    ) {
                        Err(error) => Err(error),
                        Ok((a_output, b_output)) => match burned.transfer(
                            self.liquidity_pool_address,
                            sender,
                            Token::A,
                            a_output,
                        ) {
                            Err(error) => Err(error),
                            Ok(paid_a) => match paid_a.transfer(
                                self.liquidity_pool_address,
                                sender,
                                Token::B,
                                b_output,
                            ) {
                                Err(error) => Err(error),
                                Ok(paid_both) => match paid_both.debit(
                                    self.liquidity_pool_address,
                                    Token::LIQUIDITY,
                                    liquidity_token_amount,
                                ) {
                                    Err(error) => Err(error),
                                    Ok(counted) => Ok((self.with_balances(counted), Seq::empty())),
                                },
                            },
                        },
                    }
                },
            }
        }
    }

    /// The first liquidity, provided by `sender` to empty pools in any ratio. Refused
    /// where a pool holds something, or where no liquidity token would be minted.
    pub open spec fn provide_initial_liquidity(
        self,
        sender: Address,
        token_a_amount: TokenAmount,
        token_b_amount: TokenAmount,
    ) -> Outcome {
        if self.pool_balance().a_tokens != 0 || self.pool_balance().b_tokens != 0 {
            Err(SwapError::PoolsNotEmpty)
        } else {
            let minted_liquidity_tokens = initial_liquidity(
                token_a_amount as nat,
                token_b_amount as nat,
            );
            if minted_liquidity_tokens == 0 {
                Err(SwapError::ZeroMintedLiquidity)
            } else {
                match self.provide_liquidity_internal(
                    sender,
                    TokensInOut::a_in_b_out(),
                    token_a_amount,
                    token_b_amount,
                    minted_liquidity_tokens as TokenAmount,
                ) {
                    Err(error) => Err(error),
                    Ok(provided) => Ok((provided, Seq::empty())),
                }
            }
        }
    }

    /// A lock acquired by `sender`, who needs the permission for it: the swap is priced
    /// and kept, and the lock's id and payout are handed back.
    pub open spec fn acquire_swap_lock(
        self,
        sender: Address,
        token_in: Address,
        amount_in: TokenAmount,
        amount_out_minimum: TokenAmount,
    ) -> Outcome {
        if !self.permission_lock_swap.allows(sender) {
            Err(SwapError::LockPermissionMissing)
        } else if !self.contract_pools_have_liquidity() {
            Err(SwapError::NoLiquidity)
        } else {
            match self.lock_internal(amount_in, token_in, amount_out_minimum, sender) {
                Err(error) => Err(error),
                Ok((locked, lock_id, amount_out)) => Ok(
                    (
                        locked,
                        seq![
                            return_group(
                                ReturnData::Lock(
                                    AcquiredLiquidityLockInformation { lock_id, amount_out },
                                ),
                            ),
                        ],
                    ),
                ),
            }
        }
    }

    /// A lock executed by `sender`, who has to own it: the swap is settled at the price
    /// that was locked, and the amount paid out is handed back.
    pub open spec fn execute_lock_swap(self, sender: Address, lock_id: LiquidityLockId) -> Outcome {
        match self.execute_lock_swap_internal(lock_id, sender) {
            Err(error) => Err(error),
            Ok((swapped, output_amount)) => Ok(
                (swapped, seq![return_group(ReturnData::Amount(output_amount))]),
            ),
        }
    }

    /// A lock cancelled by `sender`, who has to own it: the lock leaves, and the ledger
    /// stays as it is.
    pub open spec fn cancel_lock(self, sender: Address, lock_id: LiquidityLockId) -> Outcome {
        match self.virtual_state.remove_lock(lock_id, sender) {
            Err(error) => Err(error),
            Ok((virtual_state, _)) => Ok((self.with_virtual_state(virtual_state), Seq::empty())),
        }
    }
}

/// The pool as it is created: without holders and without locks.
pub open spec fn initial_state(
    contract_address: Address,
    token_a_address: Address,
    token_b_address: Address,
    swap_fee_per_mille: u16,
    permission_lock_swap: PermissionView,
) -> Outcome {
    if swap_fee_per_mille > MAX_FEE_PER_MILLE {
        Err(SwapError::FeeOutOfRange)
    } else if token_a_address.is_account() {
        Err(SwapError::TokenANotContract)
    } else if token_b_address.is_account() {
        Err(SwapError::TokenBNotContract)
    } else if token_a_address == token_b_address {
        Err(SwapError::IdenticalTokens)
    } else {
        Ok(
            (
                LiquiditySwapContractStateView {
                    permission_lock_swap,
                    liquidity_pool_address: contract_address,
                    swap_fee_per_mille,
                    token_balances: TokenBalancesView {
                        token_lp_address: contract_address,
                        token_a_address,
                        token_b_address,
                        balances: Map::empty(),
                        totals: Totals::zero(),
                    },
                    virtual_state: VirtualStateView::initial(),
                },
                Seq::empty(),
            ),
        )
    }
}

/// The operations of the pool: the actions that callers invoke, and the callbacks by
/// which the pool hears of the calls it made.
#[derive(Clone, Copy, Debug, PartialEq, Eq)]
pub enum Operation {
    /// See [`LiquiditySwapContractStateView::deposit`].
    Deposit { token_address: Address, amount: TokenAmount },
    /// See [`LiquiditySwapContractStateView::instant_swap`].
    InstantSwap { token_in: Address, amount_in: TokenAmount, amount_out_minimum: TokenAmount },
    /// See [`LiquiditySwapContractStateView::withdraw`].
    Withdraw { token_address: Address, amount: TokenAmount, wait_for_callback: bool },
    /// See [`LiquiditySwapContractStateView::provide_liquidity`].
    ProvideLiquidity { token_address: Address, amount: TokenAmount },
    /// See [`LiquiditySwapContractStateView::reclaim_liquidity`].
    ReclaimLiquidity { liquidity_token_amount: TokenAmount },
    /// See [`LiquiditySwapContractStateView::provide_initial_liquidity`].
    ProvideInitialLiquidity { token_a_amount: TokenAmount, token_b_amount: TokenAmount },
    /// See [`LiquiditySwapContractStateView::acquire_swap_lock`].
    AcquireSwapLock { token_in: Address, amount_in: TokenAmount, amount_out_minimum: TokenAmount },
    /// See [`LiquiditySwapContractStateView::execute_lock_swap`].
    ExecuteLockSwap { lock_id: LiquidityLockId },
    /// See [`LiquiditySwapContractStateView::cancel_lock`].
    CancelLock { lock_id: LiquidityLockId },
    /// The callback of a deposit, with what the token contract made of the transfer. See
    /// [`LiquiditySwapContractStateView::deposit_callback`].
    DepositCallback { success: bool, token: Token, amount: TokenAmount },
    /// The callback of a withdrawal that was to be waited for, which changes nothing.
    WaitWithdrawCallback,
}

impl Operation {
    /// Whether the operation is a callback rather than an action.
    pub open spec fn spec_is_callback(&self) -> bool {
        *self is DepositCallback || *self is WaitWithdrawCallback
    }

    /// Whether the operation is a callback rather than an action.
    #[verifier::when_used_as_spec(spec_is_callback)]
    pub fn is_callback(&self) -> (callback: bool)
        ensures
            callback == self.spec_is_callback(),
    {
        match self {
            Operation::DepositCallback { .. } | Operation::WaitWithdrawCallback => true,
            _ => false,
        }
    }

    /// The number by which the pool knows the operation, among its actions or among its
    /// callbacks.
    pub open spec fn spec_shortname(&self) -> u32 {
        match self {
            Operation::Deposit { .. } => 0x01u32,
            Operation::InstantSwap { .. } => 0x02u32,
            Operation::Withdraw { .. } => 0x03u32,
            Operation::ProvideLiquidity { .. } => 0x04u32,
            Operation::ReclaimLiquidity { .. } => 0x05u32,
            Operation::ProvideInitialLiquidity { .. } => 0x06u32,
            Operation::AcquireSwapLock { .. } => 0x07u32,
            Operation::ExecuteLockSwap { .. } => 0x08u32,
            Operation::CancelLock { .. } => 0x09u32,
            Operation::DepositCallback { .. } => 0x10u32,
            Operation::WaitWithdrawCallback => 0x15u32,
        }
    }

    /// The number by which the pool knows the operation, among its actions or among its
    /// callbacks.
    #[verifier::when_used_as_spec(spec_shortname)]
    pub fn shortname(&self) -> (shortname: u32)
        ensures
            shortname == self.spec_shortname(),
    {
        match self {
            Operation::Deposit { .. } => 0x01,
            Operation::InstantSwap { .. } => 0x02,
            Operation::Withdraw { .. } => 0x03,
            Operation::ProvideLiquidity { .. } => 0x04,
            Operation::ReclaimLiquidity { .. } => 0x05,
            Operation::ProvideInitialLiquidity { .. } => 0x06,
            Operation::AcquireSwapLock { .. } => 0x07,
            Operation::ExecuteLockSwap { .. } => 0x08,
            Operation::CancelLock { .. } => 0x09,
            Operation::DepositCallback { .. } => 0x10,
            Operation::WaitWithdrawCallback => 0x15,
        }
    }
}

impl LiquiditySwapContractStateView {
    /// What `operation` does when `sender` invokes it.
    pub open spec fn invoke(self, sender: Address, operation: Operation) -> Outcome {
        match operation {
            Operation::Deposit { token_address, amount } => self.deposit(
                sender,
                token_address,
                amount,
            ),
            Operation::InstantSwap {
                token_in,
                amount_in,
                amount_out_minimum,
            } => self.instant_swap(sender, token_in, amount_in, amount_out_minimum),
            Operation::Withdraw { token_address, amount, wait_for_callback } => self.withdraw(
                sender,
                token_address,
                amount,
                wait_for_callback,
            ),
            Operation::ProvideLiquidity { token_address, amount } => self.provide_liquidity(
                sender,
                token_address,
                amount,
            ),
            Operation::ReclaimLiquidity { liquidity_token_amount } => self.reclaim_liquidity(
                sender,
                liquidity_token_amount,
            ),
            Operation::ProvideInitialLiquidity {
                token_a_amount,
                token_b_amount,
            } => self.provide_initial_liquidity(sender, token_a_amount, token_b_amount),
            Operation::AcquireSwapLock {
                token_in,
                amount_in,
                amount_out_minimum,
            } => self.acquire_swap_lock(sender, token_in, amount_in, amount_out_minimum),
            Operation::ExecuteLockSwap { lock_id } => self.execute_lock_swap(sender, lock_id),
            Operation::CancelLock { lock_id } => self.cancel_lock(sender, lock_id),
            Operation::DepositCallback { success, token, amount } => self.deposit_callback(
                sender,
                success,
                token,
                amount,
            ),
            Operation::WaitWithdrawCallback => Ok((self, Seq::empty())),
        }
    }

    /// Whether `other` has the configuration of this pool: who may acquire locks, the
    /// address of the pool, the swap fee, and the addresses that name the tokens.
    pub open spec fn same_configuration(self, other: Self) -> bool {
        &&& other.permission_lock_swap == self.permission_lock_swap
        &&& other.liquidity_pool_address == self.liquidity_pool_address
        &&& other.swap_fee_per_mille == self.swap_fee_per_mille
        &&& other.token_balances.token_lp_address == self.token_balances.token_lp_address
        &&& other.token_balances.token_a_address == self.token_balances.token_a_address
        &&& other.token_balances.token_b_address == self.token_balances.token_b_address
    }
}

/// A move on the ledger keeps the books in order.
proof fn lemma_transfer_keeps_wf(
    ledger: TokenBalancesView,
    from: Address,
    to: Address,
    token: Token,
    amount: TokenAmount,
)
    requires
        ledger.wf(),
        ledger.transfer(from, to, token, amount) is Ok,
    ensures
        ledger.transfer(from, to, token, amount)->Ok_0.wf(),
        ledger.transfer(from, to, token, amount)->Ok_0.token_lp_address
            == ledger.token_lp_address,
        ledger.transfer(from, to, token, amount)->Ok_0.token_a_address == ledger.token_a_address,
        ledger.transfer(from, to, token, amount)->Ok_0.token_b_address == ledger.token_b_address,
{
    lemma_debit_keeps_wf(ledger, from, token, amount);
    lemma_credit_keeps_wf(ledger.debit(from, token, amount)->Ok_0, to, token, amount);
}

/// Providing liquidity keeps the pool in order and its configuration as it is.
proof fn lemma_provide_liquidity_internal_keeps_wf(
    state: LiquiditySwapContractStateView,
    user: Address,
    tokens: TokensInOut,
    token_in_amount: TokenAmount,
    token_out_amount: TokenAmount,
    minted_liquidity_tokens: TokenAmount,
)
    requires
        state.wf(),
        state.provide_liquidity_internal(
            user,
            tokens,
            token_in_amount,
            token_out_amount,
            minted_liquidity_tokens,
        ) is Ok,
    ensures
        ({
            let after = state.provide_liquidity_internal(
                user,
                tokens,
                token_in_amount,
                token_out_amount,
                minted_liquidity_tokens,
            )->Ok_0;
            after.wf() && state.same_configuration(after) && after.virtual_state
                == state.virtual_state
        }),
{
    let pool = state.liquidity_pool_address;
    lemma_transfer_keeps_wf(state.token_balances, user, pool, tokens.token_in, token_in_amount);
    let paid_in = state.token_balances.transfer(user, pool, tokens.token_in, token_in_amount)->Ok_0;
    lemma_transfer_keeps_wf(paid_in, user, pool, tokens.token_out, token_out_amount);
    let paid_both = paid_in.transfer(user, pool, tokens.token_out, token_out_amount)->Ok_0;
    lemma_credit_keeps_wf(paid_both, user, Token::LIQUIDITY, minted_liquidity_tokens);
    let minted = paid_both.credit(user, Token::LIQUIDITY, minted_liquidity_tokens)->Ok_0;
    lemma_credit_keeps_wf(minted, pool, Token::LIQUIDITY, minted_liquidity_tokens);
}

/// Locking a swap keeps the pool in order, its configuration and its ledger as they
/// are, and uses up one id.
proof fn lemma_lock_internal_keeps_wf(
    state: LiquiditySwapContractStateView,
    amount_in: TokenAmount,
    token_in: Address,
    amount_out_minimum: TokenAmount,
    owner: Address,
)
    requires
        state.wf(),
        state.lock_internal(amount_in, token_in, amount_out_minimum, owner) is Ok,
    ensures
        ({
            let (after, lock_id, _) = state.lock_internal(
                amount_in,
                token_in,
                amount_out_minimum,
                owner,
            )->Ok_0;
            &&& after.wf()
            &&& state.same_configuration(after)
            &&& after.token_balances == state.token_balances
            &&& lock_id == state.virtual_state.next_lock_id
            &&& after.virtual_state.next_lock_id.raw_id == state.virtual_state.next_lock_id.raw_id
                + 1
        }),
{
    let tokens_in_out = state.token_balances.tokens_in_out(token_in)->Ok_0;
    let amount_out = state.minimum_swap_to_amount(amount_in, tokens_in_out)->Ok_0;
    lemma_add_lock_keeps_wf(
        state.virtual_state,
        LiquidityLock { amount_in, amount_out, tokens_in_out, owner },
    );
}

/// Executing a lock keeps the pool in order and its configuration as it is, and gives
/// out no id.
proof fn lemma_execute_lock_swap_internal_keeps_wf(
    state: LiquiditySwapContractStateView,
    lock_id: LiquidityLockId,
    sender: Address,
)
    requires
        state.wf(),
        state.execute_lock_swap_internal(lock_id, sender) is Ok,
    ensures
        ({
            let after = state.execute_lock_swap_internal(lock_id, sender)->Ok_0.0;
            &&& after.wf()
            &&& state.same_configuration(after)
            &&& after.virtual_state.next_lock_id == state.virtual_state.next_lock_id
        }),
{
    lemma_remove_lock_keeps_wf(state.virtual_state, lock_id, sender);
    let lock = state.virtual_state.remove_lock(lock_id, sender)->Ok_0.1;
    let pool = state.liquidity_pool_address;
    lemma_transfer_keeps_wf(
        state.token_balances,
        lock.owner,
        pool,
        lock.tokens_in_out.token_in,
        lock.amount_in,
    );
    let paid_in = state.token_balances.transfer(
        lock.owner,
        pool,
        lock.tokens_in_out.token_in,
        lock.amount_in,
    )->Ok_0;
    lemma_transfer_keeps_wf(paid_in, pool, lock.owner, lock.tokens_in_out.token_out, lock.amount_out);
}

/// Whatever operation is invoked, by whomever: where it is not refused, the pool is
/// in order afterwards as it was before, and its configuration is what it was when the
/// pool was created. The ids of locks only grow: the next id to be given out is never
/// lower than before, so that no id is given out twice.
pub proof fn lemma_operations_keep_the_pool_in_order(
    state: LiquiditySwapContractStateView,
    sender: Address,
    operation: Operation,
)
    requires
        state.wf(),
        state.invoke(sender, operation) is Ok,
    ensures
        state.invoke(sender, operation)->Ok_0.0.wf(),
        state.same_configuration(state.invoke(sender, operation)->Ok_0.0),
        state.invoke(sender, operation)->Ok_0.0.virtual_state.next_lock_id.raw_id
            >= state.virtual_state.next_lock_id.raw_id,
{
    let pool = state.liquidity_pool_address;
    match operation {
        Operation::Deposit { .. } => {},
        Operation::InstantSwap { token_in, amount_in, amount_out_minimum } => {
            lemma_lock_internal_keeps_wf(state, amount_in, token_in, amount_out_minimum, sender);
            let (locked, lock_id, _) = state.lock_internal(
                amount_in,
                token_in,
                amount_out_minimum,
                sender,
            )->Ok_0;
            lemma_execute_lock_swap_internal_keeps_wf(locked, lock_id, sender);
        },
        Operation::Withdraw { token_address, amount, .. } => {
            let tokens = state.token_balances.tokens_in_out(token_address)->Ok_0;
            lemma_debit_keeps_wf(state.token_balances, sender, tokens.token_in, amount);
        },
        Operation::ProvideLiquidity { token_address, amount } => {
            let tokens = state.token_balances.tokens_in_out(token_address)->Ok_0;
            let (token_out_equivalent, minted_liquidity_tokens) = equivalent_and_minted_checked(
                amount,
                state.pool_balance().amount_of(tokens.token_in),
                state.pool_balance().amount_of(tokens.token_out),
                state.pool_balance().liquidity_tokens,
            )->Ok_0;
            lemma_provide_liquidity_internal_keeps_wf(
                state,
                sender,
                tokens,
                amount,
                token_out_equivalent,
                minted_liquidity_tokens,
            );
        },
        Operation::ReclaimLiquidity { liquidity_token_amount } => {
            lemma_debit_keeps_wf(
                state.token_balances,
                sender,
                Token::LIQUIDITY,
                liquidity_token_amount,
            );
            let burned = state.token_balances.debit(
                sender,
                Token::LIQUIDITY,
                liquidity_token_amount,
            )->Ok_0;
            let balance = burned.balance_of(pool);
            let (a_output, b_output) = reclaim_output_checked(
                liquidity_token_amount,
                balance.a_tokens,
                balance.b_tokens,
                balance.liquidity_tokens,
            )->Ok_0;
            lemma_transfer_keeps_wf(burned, pool, sender, Token::A, a_output);
            let paid_a = burned.transfer(pool, sender, Token::A, a_output)->Ok_0;
            lemma_transfer_keeps_wf(paid_a, pool, sender, Token::B, b_output);
            let paid_both = paid_a.transfer(pool, sender, Token::B, b_output)->Ok_0;
            lemma_debit_keeps_wf(paid_both, pool, Token::LIQUIDITY, liquidity_token_amount);
        },
        Operation::ProvideInitialLiquidity { token_a_amount, token_b_amount } => {
            let minted_liquidity_tokens = initial_liquidity(
                token_a_amount as nat,
                token_b_amount as nat,
            ) as TokenAmount;
            lemma_provide_liquidity_internal_keeps_wf(
                state,
                sender,
                TokensInOut::a_in_b_out(),
                token_a_amount,
                token_b_amount,
                minted_liquidity_tokens,
            );
        },
        Operation::AcquireSwapLock { token_in, amount_in, amount_out_minimum } => {
            lemma_lock_internal_keeps_wf(state, amount_in, token_in, amount_out_minimum, sender);
        },
        Operation::ExecuteLockSwap { lock_id } => {
            lemma_execute_lock_swap_internal_keeps_wf(state, lock_id, sender);
        },
        Operation::CancelLock { lock_id } => {
            lemma_remove_lock_keeps_wf(state.virtual_state, lock_id, sender);
        },
        Operation::DepositCallback { token, amount, .. } => {
            lemma_credit_keeps_wf(state.token_balances, sender, token, amount);
        },
        Operation::WaitWithdrawCallback => {},
    }
}

/// What `operation` brings into the ledger of the token `token`, or takes out of it
/// where this is negative: a deposit that has arrived brings in what was deposited, a
/// withdrawal takes out what is withdrawn, and liquidity tokens are minted and burned
/// twice over, in the holder's books and in the pool's count of them. Every other
/// operation only moves tokens between holders.
pub open spec fn inflow(
    state: LiquiditySwapContractStateView,
    operation: Operation,
    token: Token,
) -> int {
    match operation {
        Operation::DepositCallback { token: deposited, amount, .. } => if deposited == token {
            amount as int
        } else {
            0
        },
        Operation::Withdraw { token_address, amount, .. } => match state.token_balances.tokens_in_out(
            token_address,
        ) {
            Ok(tokens) => if tokens.token_in == token {
                -(amount as int)
            } else {
                0
            },
            Err(_) => 0,
        },
        Operation::ProvideLiquidity { token_address, amount } => if token == Token::LIQUIDITY {
            let tokens = state.token_balances.tokens_in_out(token_address)->Ok_0;
            2 * equivalent_and_minted_checked(
                amount,
                state.pool_balance().amount_of(tokens.token_in),
                state.pool_balance().amount_of(tokens.token_out),
                state.pool_balance().liquidity_tokens,
            )->Ok_0.1
        } else {
            0
        },
        Operation::ProvideInitialLiquidity { token_a_amount, token_b_amount } => if token
            == Token::LIQUIDITY {
            2 * (initial_liquidity(token_a_amount as nat, token_b_amount as nat) as int)
        } else {
            0
        },
        Operation::ReclaimLiquidity { liquidity_token_amount } => if token == Token::LIQUIDITY {
            -2 * liquidity_token_amount
        } else {
            0
        },
        _ => 0,
    }
}

/// Tokens come into the ledger and leave it at its edge only. Whatever operation is
/// invoked, where it is not refused, what all holders together own of a token changes by
/// the operation's [`inflow`] and by nothing else: reserve tokens come in by deposits that
/// have arrived and go out by withdrawals, and no swap, no lock and no change of
/// liquidity makes or loses any.
pub proof fn lemma_operations_keep_the_totals(
    state: LiquiditySwapContractStateView,
    sender: Address,
    operation: Operation,
    token: Token,
)
    requires
        state.invoke(sender, operation) is Ok,
    ensures
        state.invoke(sender, operation)->Ok_0.0.token_balances.totals.amount_of(token)
            == state.token_balances.totals.amount_of(token) + inflow(state, operation, token),
{
    let pool = state.liquidity_pool_address;
    let ledger = state.token_balances;
    match operation {
        Operation::InstantSwap { token_in, amount_in, amount_out_minimum } => {
            let (locked, lock_id, _) = state.lock_internal(
                amount_in,
                token_in,
                amount_out_minimum,
                sender,
            )->Ok_0;
            lemma_execute_keeps_totals(locked, lock_id, sender);
        },
        Operation::ProvideLiquidity { token_address, amount } => {
            let tokens = ledger.tokens_in_out(token_address)->Ok_0;
            let (token_out_equivalent, minted_liquidity_tokens) = equivalent_and_minted_checked(
                amount,
                state.pool_balance().amount_of(tokens.token_in),
                state.pool_balance().amount_of(tokens.token_out),
                state.pool_balance().liquidity_tokens,
            )->Ok_0;
            lemma_provide_mints_twice(
                state,
                sender,
                tokens,
                amount,
                token_out_equivalent,
                minted_liquidity_tokens,
            );
        },
        Operation::ProvideInitialLiquidity { token_a_amount, token_b_amount } => {
            lemma_sqrt_floor_of_product(token_a_amount as nat, token_b_amount as nat);
            lemma_provide_mints_twice(
                state,
                sender,
                TokensInOut::a_in_b_out(),
                token_a_amount,
                token_b_amount,
                initial_liquidity(token_a_amount as nat, token_b_amount as nat) as TokenAmount,
            );
        },
        Operation::ReclaimLiquidity { liquidity_token_amount } => {
            let burned = ledger.debit(sender, Token::LIQUIDITY, liquidity_token_amount)->Ok_0;
            let balance = burned.balance_of(pool);
            let (a_output, b_output) = reclaim_output_checked(
                liquidity_token_amount,
                balance.a_tokens,
                balance.b_tokens,
                balance.liquidity_tokens,
            )->Ok_0;
            lemma_transfer_keeps_totals(burned, pool, sender, Token::A, a_output);
            let paid_a = burned.transfer(pool, sender, Token::A, a_output)->Ok_0;
            lemma_transfer_keeps_totals(paid_a, pool, sender, Token::B, b_output);
        },
        Operation::ExecuteLockSwap { lock_id } => {
            lemma_execute_keeps_totals(state, lock_id, sender);
        },
        _ => {},
    }
}

/// Executing a lock only moves tokens between the lock's owner and the pool.
proof fn lemma_execute_keeps_totals(
    state: LiquiditySwapContractStateView,
    lock_id: LiquidityLockId,
    sender: Address,
)
    requires
        state.execute_lock_swap_internal(lock_id, sender) is Ok,
    ensures
        state.execute_lock_swap_internal(lock_id, sender)->Ok_0.0.token_balances.totals
            == state.token_balances.totals,
{
    let lock = state.virtual_state.remove_lock(lock_id, sender)->Ok_0.1;
    let pool = state.liquidity_pool_address;
    lemma_transfer_keeps_totals(
        state.token_balances,
        lock.owner,
        pool,
        lock.tokens_in_out.token_in,
        lock.amount_in,
    );
    let paid_in = state.token_balances.transfer(
        lock.owner,
        pool,
        lock.tokens_in_out.token_in,
        lock.amount_in,
    )->Ok_0;
    lemma_transfer_keeps_totals(paid_in, pool, lock.owner, lock.tokens_in_out.token_out, lock.amount_out);
}

/// Providing liquidity moves reserve tokens from the provider to the pool, and mints the
/// liquidity tokens twice: for the provider and in the pool's count.
proof fn lemma_provide_mints_twice(
    state: LiquiditySwapContractStateView,
    user: Address,
    tokens: TokensInOut,
    token_in_amount: TokenAmount,
    token_out_amount: TokenAmount,
    minted_liquidity_tokens: TokenAmount,
)
    requires
        state.provide_liquidity_internal(
            user,
            tokens,
            token_in_amount,
            token_out_amount,
            minted_liquidity_tokens,
        ) is Ok,
    ensures
        state.provide_liquidity_internal(
            user,
            tokens,
            token_in_amount,
            token_out_amount,
            minted_liquidity_tokens,
        )->Ok_0.token_balances.totals == (Totals {
            liquidity_tokens: state.token_balances.totals.liquidity_tokens + 2
                * minted_liquidity_tokens,
            ..state.token_balances.totals
        }),
{
    let pool = state.liquidity_pool_address;
    lemma_transfer_keeps_totals(state.token_balances, user, pool, tokens.token_in, token_in_amount);
    let paid_in = state.token_balances.transfer(user, pool, tokens.token_in, token_in_amount)->Ok_0;
    lemma_transfer_keeps_totals(paid_in, user, pool, tokens.token_out, token_out_amount);
}

/// A lock never prices a swap better than the actual pools or the virtual pools do: what
/// it pays out is the price that the one or the other gives, and not more than either.
pub proof fn lemma_lock_price_is_the_lower_price(
    state: LiquiditySwapContractStateView,
    amount_in: TokenAmount,
    tokens_in_out: TokensInOut,
)
    requires
        state.minimum_swap_to_amount(amount_in, tokens_in_out) is Ok,
    ensures
        ({
            let amount_out = state.minimum_swap_to_amount(amount_in, tokens_in_out)->Ok_0;
            let actual = state.pool_balance();
            let virtual_pools = state.virtual_pools()->Ok_0;
            let non_locked_rate = swap_quote(
                actual.amount_of(tokens_in_out.token_in),
                actual.amount_of(tokens_in_out.token_out),
                amount_in,
                state.swap_fee_per_mille,
            );
            let locked_rate = swap_quote(
                virtual_pools.amount_of(tokens_in_out.token_in),
                virtual_pools.amount_of(tokens_in_out.token_out),
                amount_in,
                state.swap_fee_per_mille,
            );
            &&& state.virtual_pools() is Ok
            &&& non_locked_rate is Ok
            &&& locked_rate is Ok
            &&& amount_out <= non_locked_rate->Ok_0
            &&& amount_out <= locked_rate->Ok_0
            &&& amount_out == non_locked_rate->Ok_0 || amount_out == locked_rate->Ok_0
        }),
{
}

/// A lock that is cancelled right after it was acquired leaves everything as it was
/// before it was acquired, but for its id, which is used up: the ledger, the outstanding
/// locks, what they add to each pool, and so the virtual pools.
pub proof fn lemma_cancel_undoes_acquire(
    state: LiquiditySwapContractStateView,
    sender: Address,
    token_in: Address,
    amount_in: TokenAmount,
    amount_out_minimum: TokenAmount,
)
    requires
        state.wf(),
        state.acquire_swap_lock(sender, token_in, amount_in, amount_out_minimum) is Ok,
    ensures
        ({
            let locked = state.acquire_swap_lock(
                sender,
                token_in,
                amount_in,
                amount_out_minimum,
            )->Ok_0.0;
            let lock_id = state.virtual_state.next_lock_id;
            &&& locked.cancel_lock(sender, lock_id) is Ok
            &&& locked.cancel_lock(sender, lock_id)->Ok_0.0 == state.with_virtual_state(
                VirtualStateView {
                    next_lock_id: locked.virtual_state.next_lock_id,
                    ..state.virtual_state
                },
            )
            &&& locked.cancel_lock(sender, lock_id)->Ok_0.0.virtual_pools() == state.virtual_pools()
        }),
{
    let tokens_in_out = state.token_balances.tokens_in_out(token_in)->Ok_0;
    let amount_out = state.minimum_swap_to_amount(amount_in, tokens_in_out)->Ok_0;
    let lock = LiquidityLock { amount_in, amount_out, tokens_in_out, owner: sender };
    lemma_remove_undoes_add(state.virtual_state, lock);
}

/// A lock that is executed right after it was acquired moves exactly the locked amounts
/// on the ledger: the amount paid in from the caller to the pool, then the amount priced
/// at the acquisition from the pool to the caller. Where the ledger refuses one of the
/// two moves, so does the execution. The outstanding locks and what they add to each
/// pool are afterwards what they were before the lock was acquired: where no lock was
/// outstanding then, none is now, and the virtual pools are the new actual pools.
pub proof fn lemma_execute_settles_acquire(
    state: LiquiditySwapContractStateView,
    sender: Address,
    token_in: Address,
    amount_in: TokenAmount,
    amount_out_minimum: TokenAmount,
)
    requires
        state.wf(),
        state.acquire_swap_lock(sender, token_in, amount_in, amount_out_minimum) is Ok,
    ensures
        ({
            let locked = state.acquire_swap_lock(
                sender,
                token_in,
                amount_in,
                amount_out_minimum,
            )->Ok_0.0;
            let lock_id = state.virtual_state.next_lock_id;
            let tokens = state.token_balances.tokens_in_out(token_in)->Ok_0;
            let amount_out = state.minimum_swap_to_amount(amount_in, tokens)->Ok_0;
            let settled_virtual_state = VirtualStateView {
                next_lock_id: locked.virtual_state.next_lock_id,
                ..state.virtual_state
            };
            &&& locked.execute_lock_swap(sender, lock_id) is Ok
                && state.virtual_state.has_no_outstanding_locks() ==> {
                let executed = locked.execute_lock_swap(sender, lock_id)->Ok_0.0;
                &&& executed.virtual_state.has_no_outstanding_locks()
                &&& executed.virtual_pools() == Ok::<TokenBalance, SwapError>(
                    TokenBalance {
                        a_tokens: executed.pool_balance().a_tokens,
                        b_tokens: executed.pool_balance().b_tokens,
                        liquidity_tokens: 0,
                    },
                )
            }
            &&& locked.execute_lock_swap(sender, lock_id) == match state.token_balances.transfer(
                sender,
                state.liquidity_pool_address,
                tokens.token_in,
                amount_in,
            ) {
                Err(error) => Err::<(LiquiditySwapContractStateView, Seq<EventGroupView>), SwapError>(
                    error,
                ),
                Ok(paid_in) => match paid_in.transfer(
                    state.liquidity_pool_address,
                    sender,
                    tokens.token_out,
                    amount_out,
                ) {
                    Err(error) => Err(error),
                    Ok(paid_out) => Ok(
                        (
                            state.with_virtual_state(settled_virtual_state).with_balances(paid_out),
                            seq![return_group(ReturnData::Amount(amount_out))],
                        ),
                    ),
                },
            }
        }),
{
    let tokens_in_out = state.token_balances.tokens_in_out(token_in)->Ok_0;
    let amount_out = state.minimum_swap_to_amount(amount_in, tokens_in_out)->Ok_0;
    let lock = LiquidityLock { amount_in, amount_out, tokens_in_out, owner: sender };
    lemma_remove_undoes_add(state.virtual_state, lock);
}

/// While no lock is outstanding, the virtual pools are the actual pools.
pub proof fn lemma_virtual_pools_without_locks(state: LiquiditySwapContractStateView)
    requires
        state.wf(),
        state.virtual_state.has_no_outstanding_locks(),
    ensures
        state.virtual_pools() == Ok::<TokenBalance, SwapError>(
            TokenBalance {
                a_tokens: state.pool_balance().a_tokens,
                b_tokens: state.pool_balance().b_tokens,
                liquidity_tokens: 0,
            },
        ),
{
    lemma_no_locks_virtual_is_actual(
        state.virtual_state,
        state.pool_balance().a_tokens,
        state.pool_balance().b_tokens,
    );
}

/// Outstanding locks, and nothing else, make a reclaim of liquidity fail for the locks'
/// sake.
pub proof fn lemma_reclaim_blocked_by_locks(
    state: LiquiditySwapContractStateView,
    sender: Address,
    liquidity_token_amount: TokenAmount,
)
    ensures
        !state.virtual_state.has_no_outstanding_locks() <==> state.reclaim_liquidity(
            sender,
            liquidity_token_amount,
        ) == Err::<(LiquiditySwapContractStateView, Seq<EventGroupView>), SwapError>(
            SwapError::LocksPresent,
        ),
{
}

/// Once no lock is outstanding, a holder other than the pool can reclaim the liquidity
/// that they own: the reclaim succeeds where the holder owns the liquidity tokens to be
/// burned, the pool's count of all liquidity tokens covers them, and the holder can take
/// what the pools hold without leaving the range of an amount. The holder is then paid
/// the share of each pool, and the pool's count goes down by what was burned.
pub proof fn lemma_reclaim_succeeds_without_locks(
    state: LiquiditySwapContractStateView,
    sender: Address,
    liquidity_token_amount: TokenAmount,
)
    requires
        state.wf(),
        state.virtual_state.has_no_outstanding_locks(),
        sender != state.liquidity_pool_address,
        0 < liquidity_token_amount <= state.token_balances.balance_of(sender).liquidity_tokens,
        liquidity_token_amount <= state.pool_balance().liquidity_tokens,
        state.token_balances.balance_of(sender).a_tokens + state.pool_balance().a_tokens
            <= TokenAmount::MAX,
        state.token_balances.balance_of(sender).b_tokens + state.pool_balance().b_tokens
            <= TokenAmount::MAX,
    ensures
        state.reclaim_liquidity(sender, liquidity_token_amount) is Ok,
        ({
            let after = state.reclaim_liquidity(sender, liquidity_token_amount)->Ok_0.0;
            let (a_output, b_output) = reclaim_output(
                liquidity_token_amount as nat,
                state.pool_balance().a_tokens as nat,
                state.pool_balance().b_tokens as nat,
                state.pool_balance().liquidity_tokens as nat,
            );
            let holder = state.token_balances.balance_of(sender);
            &&& a_output <= state.pool_balance().a_tokens
            &&& b_output <= state.pool_balance().b_tokens
            &&& after.token_balances.balance_of(sender) == (TokenBalance {
                a_tokens: (holder.a_tokens + a_output) as TokenAmount,
                b_tokens: (holder.b_tokens + b_output) as TokenAmount,
                liquidity_tokens: (holder.liquidity_tokens - liquidity_token_amount) as TokenAmount,
            })
            &&& after.pool_balance() == (TokenBalance {
                a_tokens: (state.pool_balance().a_tokens - a_output) as TokenAmount,
                b_tokens: (state.pool_balance().b_tokens - b_output) as TokenAmount,
                liquidity_tokens: (state.pool_balance().liquidity_tokens
                    - liquidity_token_amount) as TokenAmount,
            })
        }),
{
    let pool_address = state.liquidity_pool_address;
    let pool = state.pool_balance();
    let holder = state.token_balances.balance_of(sender);
    let burned = state.token_balances.debit(sender, Token::LIQUIDITY, liquidity_token_amount)->Ok_0;
    assert(burned.balance_of(pool_address) == pool);
    let a_product = pool.a_tokens as int * liquidity_token_amount as int;
    let b_product = pool.b_tokens as int * liquidity_token_amount as int;
    let minted = pool.liquidity_tokens as int;
    assert(0 <= a_product / minted <= pool.a_tokens) by (nonlinear_arith)
        requires
            a_product == pool.a_tokens as int * liquidity_token_amount as int,
            0 < liquidity_token_amount <= minted,
            0 <= pool.a_tokens,
    ;
    assert(0 <= b_product / minted <= pool.b_tokens) by (nonlinear_arith)
        requires
            b_product == pool.b_tokens as int * liquidity_token_amount as int,
            0 < liquidity_token_amount <= minted,
            0 <= pool.b_tokens,
    ;
    let outputs = reclaim_output_checked(
        liquidity_token_amount,
        pool.a_tokens,
        pool.b_tokens,
        pool.liquidity_tokens,
    );
    assert(outputs is Ok);
    let (a_output, b_output) = outputs->Ok_0;
    assert(a_output == a_product / minted);
    assert(b_output == b_product / minted);
    let paid_a = burned.transfer(pool_address, sender, Token::A, a_output);
    assert(paid_a is Ok);
    let paid_both = paid_a->Ok_0.transfer(pool_address, sender, Token::B, b_output);
    assert(paid_both is Ok);
    let counted = paid_both->Ok_0.debit(pool_address, Token::LIQUIDITY, liquidity_token_amount);
    assert(counted is Ok);
}

} // verus!
