//! The pool: deposits and withdrawals, liquidity that is provided and reclaimed, instant
//! swaps, and swaps that are locked first and executed or cancelled later.

use vstd::prelude::*;
use crate::address::Address;
use crate::context::{CallbackContext, ContractContext};
use crate::error::SwapError;
use crate::events::{
    event_views,
    Callback,
    EventGroup,
    EventGroupView,
    InteractionView,
    InvocationView,
    ReturnData,
};
use crate::interact_mpc20::MPC20Contract;
use crate::liquidity_math::{
    checked_equivalent_and_minted_tokens,
    checked_reclaim_output,
    initial_liquidity_tokens,
};
use crate::liquidity_util::{
    checked_swap_to_amount,
    AcquiredLiquidityLockInformation,
    LiquidityLockId,
};
use crate::permission::Permission;
use crate::swap_model::{
    initial_state,
    LiquiditySwapContractStateView,
    Operation,
    Outcome,
    MAX_FEE_PER_MILLE,
};
use crate::token_balances::{Token, TokenAmount, TokenBalances, TokensInOut};
use crate::virtual_state::{LiquidityLock, VirtualState};

verus! {

/// The state of the pool, which is kept between operations.
#[derive(Debug)]
pub struct LiquiditySwapContractState {
    /// Who may acquire locks.
    pub permission_lock_swap: Permission,
    /// The address of the pool itself.
    pub liquidity_pool_address: Address,
    /// The fee for swaps, in per mille: at most a thousand.
    pub swap_fee_per_mille: u16,
    /// What every holder owns, the pool among them: what the pool owns of the reserve
    /// tokens are the actual pools.
    pub token_balances: TokenBalances,
    /// The virtual pools and the locks.
    pub virtual_state: VirtualState,
}

impl View for LiquiditySwapContractState {
    type V = LiquiditySwapContractStateView;

    open spec fn view(&self) -> LiquiditySwapContractStateView {
        LiquiditySwapContractStateView {
            permission_lock_swap: self.permission_lock_swap@,
            liquidity_pool_address: self.liquidity_pool_address,
            swap_fee_per_mille: self.swap_fee_per_mille,
            token_balances: self.token_balances@,
            virtual_state: self.virtual_state@,
        }
    }
}

/// What an operation returns: the state afterwards and the event groups to send, or the
/// reason for the refusal.
pub type ActionResult = Result<(LiquiditySwapContractState, Vec<EventGroup>), SwapError>;

/// Whether `result` is what `outcome` describes, with a state that is in order.
pub open spec fn is_outcome(result: ActionResult, outcome: Outcome) -> bool {
    match outcome {
        Ok((after, events)) => match result {
            Ok((state, sent)) => state.wf() && state@ == after && event_views(sent@) == events,
            Err(_) => false,
        },
        Err(error) => match result {
            Ok(_) => false,
            Err(reason) => reason == error,
        },
    }
}

impl LiquiditySwapContractState {
    /// The state is in order: see [`LiquiditySwapContractStateView::wf`].
    pub open spec fn wf(&self) -> bool {
        &&& self.token_balances.wf()
        &&& self.virtual_state.wf()
        &&& self@.wf()
    }

    /// Checks that both actual pools hold something.
    pub fn contract_pools_have_liquidity(&self) -> (have: bool)
        requires
            self.wf(),
        ensures
            have == self@.contract_pools_have_liquidity(),
    {
        let contract_token_balance = self.token_balances.get_balance_for(
            &self.liquidity_pool_address,
        );
        contract_token_balance.a_tokens != 0 && contract_token_balance.b_tokens != 0
    }
}

/// Creates the pool for the reserve tokens at the two addresses, with the given swap fee
/// in per mille and the given rule on who may acquire locks.
pub fn initialize(
    context: ContractContext,
    token_a_address: Address,
    token_b_address: Address,
    swap_fee_per_mille: u16,
    permission_lock_swap: Permission,
) -> (result: ActionResult)
    ensures
        is_outcome(
            result,
            initial_state(
                context.contract_address,
                token_a_address,
                token_b_address,
                swap_fee_per_mille,
                permission_lock_swap@,
            ),
        ),
{
    if swap_fee_per_mille > MAX_FEE_PER_MILLE {
        return Err(SwapError::FeeOutOfRange);
    }
    let token_balances = match TokenBalances::new(
        context.contract_address,
        token_a_address,
        token_b_address,
    ) {
        Ok(token_balances) => token_balances,
        Err(error) => { return Err(error); },
    };
    let new_state = LiquiditySwapContractState {
        permission_lock_swap,
        liquidity_pool_address: context.contract_address,
        swap_fee_per_mille,
        token_balances,
        virtual_state: VirtualState::default(),
    };
    let events: Vec<EventGroup> = Vec::new();
    assert(event_views(events@) =~= Seq::<EventGroupView>::empty());
    Ok((new_state, events))
}

/// No event groups.
fn no_events() -> (events: Vec<EventGroup>)
    ensures
        event_views(events@) == Seq::<EventGroupView>::empty(),
{
    let events: Vec<EventGroup> = Vec::new();
    assert(event_views(events@) =~= Seq::<EventGroupView>::empty());
    events
}

/// The one event group given.
fn single_event(group: EventGroup) -> (events: Vec<EventGroup>)
    ensures
        event_views(events@) == seq![group@],
{
    let mut events: Vec<EventGroup> = Vec::new();
    events.push(group);
    assert(event_views(events@) =~= seq![group@]);
    events
}

/// Given the swap fee, calculates the least that a swap of `amount_in` pays out: the
/// lower of the prices that the actual pools and the virtual pools give. While locks are
/// outstanding the two differ; without locks the price is that of
/// [`checked_swap_to_amount`] on the actual pools.
pub fn calculate_minimum_swap_to_amount(
    state: &LiquiditySwapContractState,
    amount_in: TokenAmount,
    tokens_in_out: &TokensInOut,
) -> (amount_out: Result<TokenAmount, SwapError>)
    requires
        state.wf(),
    ensures
        amount_out == state@.minimum_swap_to_amount(amount_in, *tokens_in_out),
{
    let actual_balance = state.token_balances.get_balance_for(&state.liquidity_pool_address);
    let actual_a = actual_balance.get_amount_of(Token::A);
    let actual_b = actual_balance.get_amount_of(Token::B);
    let virtual_balance = match state.virtual_state.virtual_liquidity_pools(actual_a, actual_b) {
        Ok(virtual_balance) => virtual_balance,
        Err(error) => { return Err(error); },
    };
    let non_locked_rate = match checked_swap_to_amount(
        actual_balance.get_amount_of(tokens_in_out.token_in),
        actual_balance.get_amount_of(tokens_in_out.token_out),
        amount_in,
        state.swap_fee_per_mille,
    ) {
        Ok(non_locked_rate) => non_locked_rate,
        Err(error) => { return Err(error); },
    };
    let locked_rate = match checked_swap_to_amount(
        virtual_balance.get_amount_of(tokens_in_out.token_in),
        virtual_balance.get_amount_of(tokens_in_out.token_out),
        amount_in,
        state.swap_fee_per_mille,
    ) {
        Ok(locked_rate) => locked_rate,
        Err(error) => { return Err(error); },
    };
    if non_locked_rate <= locked_rate {
        Ok(non_locked_rate)
    } else {
        Ok(locked_rate)
    }
}

/// Calculates what a swap of `amount_in` of the token at `token_in` pays out, and keeps
/// the swap as a lock that `owner` alone may execute. Refused where the payout is below
/// `amount_out_minimum`.
pub fn lock_internal(
    state: LiquiditySwapContractState,
    amount_in: TokenAmount,
    token_in: Address,
    amount_out_minimum: TokenAmount,
    owner: Address,
) -> (locked: Result<(LiquiditySwapContractState, LiquidityLockId, TokenAmount), SwapError>)
    requires
        state.wf(),
    ensures
        match state@.lock_internal(amount_in, token_in, amount_out_minimum, owner) {
            Ok((after, lock_id, amount_out)) => locked matches Ok(done) && done.0.wf() && done.0@
                == after && done.1 == lock_id && done.2 == amount_out,
            Err(error) => locked matches Err(reason) && reason == error,
        },
{
    let mut state = state;
    let tokens_in_out = match state.token_balances.deduce_tokens_in_out(token_in) {
        Ok(tokens_in_out) => tokens_in_out,
        Err(error) => { return Err(error); },
    };
    let amount_out = match calculate_minimum_swap_to_amount(&state, amount_in, &tokens_in_out) {
        Ok(amount_out) => amount_out,
        Err(error) => { return Err(error); },
    };
    if amount_out < amount_out_minimum {
        return Err(SwapError::BelowMinimum { amount_out, amount_out_minimum });
    }
    let lock = LiquidityLock { amount_in, amount_out, tokens_in_out, owner };
    match state.virtual_state.add_lock(lock) {
        Ok(lock_id) => Ok((state, lock_id, amount_out)),
        Err(error) => Err(error),
    }
}

/// Removes the lock with id `lock_id` and executes the swap it stands for on the actual
/// pools. Returns what the swap paid out. Refused where there is no such lock or it is
/// not `sender`'s.
pub fn execute_lock_swap_internal(
    state: LiquiditySwapContractState,
    lock_id: LiquidityLockId,
    sender: Address,
) -> (swapped: Result<(LiquiditySwapContractState, TokenAmount), SwapError>)
    requires
        state.wf(),
    ensures
        match state@.execute_lock_swap_internal(lock_id, sender) {
            Ok((after, amount_out)) => swapped matches Ok(done) && done.0.wf() && done.0@ == after
                && done.1 == amount_out,
            Err(error) => swapped matches Err(reason) && reason == error,
        },
{
    let mut state = state;
    let lock = match state.virtual_state.remove_lock(lock_id, sender) {
        Ok(lock) => lock,
        Err(error) => { return Err(error); },
    };
    match state.token_balances.move_tokens(
        lock.owner,
        state.liquidity_pool_address,
        lock.tokens_in_out.token_in,
        lock.amount_in,
    ) {
        Ok(()) => {},
        Err(error) => { return Err(error); },
    }
    match state.token_balances.move_tokens(
        state.liquidity_pool_address,
        lock.owner,
        lock.tokens_in_out.token_out,
        lock.amount_out,
    ) {
        Ok(()) => {},
        Err(error) => { return Err(error); },
    }
    Ok((state, lock.amount_out))
}

/// Moves both amounts from what `user` owns to the pool and mints the liquidity tokens.
pub fn provide_liquidity_internal(
    state: LiquiditySwapContractState,
    user: &Address,
    tokens: TokensInOut,
    token_in_amount: TokenAmount,
    token_out_amount: TokenAmount,
    minted_liquidity_tokens: TokenAmount,
) -> (provided: Result<LiquiditySwapContractState, SwapError>)
    requires
        state.wf(),
    ensures
        match state@.provide_liquidity_internal(
            *user,
            tokens,
            token_in_amount,
            token_out_amount,
            minted_liquidity_tokens,
        ) {
            Ok(after) => provided matches Ok(done) && done.wf() && done@ == after,
            Err(error) => provided matches Err(reason) && reason == error,
        },
{
    let mut state = state;
    match state.token_balances.move_tokens(
        *user,
        state.liquidity_pool_address,
        tokens.token_in,
        token_in_amount,
    ) {
        Ok(()) => {},
        Err(error) => { return Err(error); },
    }
    match state.token_balances.move_tokens(
        *user,
        state.liquidity_pool_address,
        tokens.token_out,
        token_out_amount,
    ) {
        Ok(()) => {},
        Err(error) => { return Err(error); },
    }
    match state.token_balances.add_to_token_balance(
        *user,
        Token::LIQUIDITY,
        minted_liquidity_tokens,
    ) {
        Ok(()) => {},
        Err(error) => { return Err(error); },
    }
    match state.token_balances.add_to_token_balance(
        state.liquidity_pool_address,
        Token::LIQUIDITY,
        minted_liquidity_tokens,
    ) {
        Ok(()) => {},
        Err(error) => { return Err(error); },
    }
    Ok(state)
}

/// Deposits `amount` of the reserve token at `token_address` into what the caller owns
/// within the pool. The token contract is asked to move the amount from the caller to
/// the pool, for which the caller has to have given the pool an allowance; the amount is
/// booked by [`deposit_callback`], once the token contract has moved it.
pub fn deposit(
    context: ContractContext,
    state: LiquiditySwapContractState,
    token_address: Address,
    amount: TokenAmount,
) -> (result: ActionResult)
    requires
        state.wf(),
    ensures
        is_outcome(result, state@.deposit(context.sender, token_address, amount)),
{
    let tokens = match state.token_balances.deduce_tokens_in_out(token_address) {
        Ok(tokens) => tokens,
        Err(error) => { return Err(error); },
    };
    let mut event_group_builder = EventGroup::builder();
    MPC20Contract::at_address(token_address).transfer_from(
        &mut event_group_builder,
        &context.sender,
        &state.liquidity_pool_address,
        amount,
    );
    event_group_builder.with_callback(Callback::Deposit { token: tokens.token_in, amount });
    let group = event_group_builder.build();
    assert(group@.calls =~= seq![
        InteractionView {
            contract: token_address,
            invocation: InvocationView::TransferFrom {
                from: context.sender,
                to: state.liquidity_pool_address,
                amount,
            },
            cost: Some(15500u64),
        },
    ]);
    Ok((state, single_event(group)))
}

/// Ends a deposit. Where the token contract moved the tokens, `amount` of `token` is
/// added to what the caller of [`deposit`] owns.
pub fn deposit_callback(
    context: ContractContext,
    callback_context: CallbackContext,
    state: LiquiditySwapContractState,
    token: Token,
    amount: TokenAmount,
) -> (result: ActionResult)
    requires
        state.wf(),
    ensures
        is_outcome(
            result,
            state@.deposit_callback(context.sender, callback_context.success, token, amount),
        ),
{
    let mut state = state;
    if !callback_context.success {
        return Err(SwapError::TransferFailed);
    }
    match state.token_balances.add_to_token_balance(context.sender, token, amount) {
        Ok(()) => {},
        Err(error) => { return Err(error); },
    }
    Ok((state, no_events()))
}

/// Swaps `amount_in` of the reserve token at `token_in` for the other reserve token, at
/// the price of the moment, within what the caller owns in the pool. Refused where a
/// pool is empty, where the caller owns less than `amount_in`, and where the swap would
/// pay out less than `amount_out_minimum`.
pub fn instant_swap(
    context: ContractContext,
    state: LiquiditySwapContractState,
    token_in: Address,
    amount_in: TokenAmount,
    amount_out_minimum: TokenAmount,
) -> (result: ActionResult)
    requires
        state.wf(),
    ensures
        is_outcome(
            result,
            state@.instant_swap(context.sender, token_in, amount_in, amount_out_minimum),
        ),
{
    if !state.contract_pools_have_liquidity() {
        return Err(SwapError::NoLiquidity);
    }
    let (state, lock_id, _) = match lock_internal(
        state,
        amount_in,
        token_in,
        amount_out_minimum,
        context.sender,
    ) {
        Ok(locked) => locked,
        Err(error) => { return Err(error); },
    };
    let (state, _) = match execute_lock_swap_internal(state, lock_id, context.sender) {
        Ok(swapped) => swapped,
        Err(error) => { return Err(error); },
    };
    Ok((state, no_events()))
}

/// Withdraws `amount` of the reserve token at `token_address` from what the caller owns
/// within the pool. The amount is taken off the books before the token contract is
/// asked to pay it out: should that fail, the pool keeps the tokens. Where
/// `wait_for_callback` is set, what follows is held back until the payout is done.
pub fn withdraw(
    context: ContractContext,
    state: LiquiditySwapContractState,
    token_address: Address,
    amount: TokenAmount,
    wait_for_callback: bool,
) -> (result: ActionResult)
    requires
        state.wf(),
    ensures
        is_outcome(
            result,
            state@.withdraw(context.sender, token_address, amount, wait_for_callback),
        ),
{
    let mut state = state;
    let tokens = match state.token_balances.deduce_tokens_in_out(token_address) {
        Ok(tokens) => tokens,
        Err(error) => { return Err(error); },
    };
    match state.token_balances.deduct_from_token_balance(context.sender, tokens.token_in, amount) {
        Ok(()) => {},
        Err(error) => { return Err(error); },
    }
    let mut event_group_builder = EventGroup::builder();
    MPC20Contract::at_address(token_address).transfer(
        &mut event_group_builder,
        &context.sender,
        amount,
    );
    if wait_for_callback {
        event_group_builder.with_callback(Callback::WaitWithdraw);
    }
    let group = event_group_builder.build();
    assert(group@.calls =~= seq![
        InteractionView {
            contract: token_address,
            invocation: InvocationView::Transfer { to: context.sender, amount },
            cost: Some(15500u64),
        },
    ]);
    Ok((state, single_event(group)))
}

/// Ends a withdrawal that was to be waited for. Nothing changes.
pub fn wait_withdraw_callback(
    context: ContractContext,
    callback_context: CallbackContext,
    state: LiquiditySwapContractState,
) -> (result: ActionResult)
    requires
        state.wf(),
    ensures
        is_outcome(result, Ok((state@, Seq::empty()))),
{
    Ok((state, no_events()))
}

/// Provides liquidity out of what the caller owns in the pool: `amount` of the reserve
/// token at `token_address`, and with it as much of the other reserve token as keeps the
/// pools' ratio. The caller gets liquidity tokens for it.
pub fn provide_liquidity(
    context: ContractContext,
    state: LiquiditySwapContractState,
    token_address: Address,
    amount: TokenAmount,
) -> (result: ActionResult)
    requires
        state.wf(),
    ensures
        is_outcome(result, state@.provide_liquidity(context.sender, token_address, amount)),
{
    let user = &context.sender;
    let tokens = match state.token_balances.deduce_tokens_in_out(token_address) {
        Ok(tokens) => tokens,
        Err(error) => { return Err(error); },
    };
    let contract_token_balance = state.token_balances.get_balance_for(
        &state.liquidity_pool_address,
    );
    let (token_out_equivalent, minted_liquidity_tokens) =
        match checked_equivalent_and_minted_tokens(
        amount,
        contract_token_balance.get_amount_of(tokens.token_in),
        contract_token_balance.get_amount_of(tokens.token_out),
        contract_token_balance.liquidity_tokens,
    ) {
        Ok(amounts) => amounts,
        Err(error) => { return Err(error); },
    };
    if minted_liquidity_tokens == 0 {
        return Err(SwapError::ZeroMintedLiquidity);
    }
    match provide_liquidity_internal(
        state,
        user,
        tokens,
        amount,
        token_out_equivalent,
        minted_liquidity_tokens,
    ) {
        Ok(state) => Ok((state, no_events())),
        Err(error) => Err(error),
    }
}

/// Reclaims the caller's share of the pools for `liquidity_token_amount` liquidity
/// tokens, which are burned: of each pool the caller gets the part that the burned
/// tokens are of all liquidity tokens minted. Refused while a lock is outstanding.
pub fn reclaim_liquidity(
    context: ContractContext,
    state: LiquiditySwapContractState,
    liquidity_token_amount: TokenAmount,
) -> (result: ActionResult)
    requires
        state.wf(),
    ensures
        is_outcome(result, state@.reclaim_liquidity(context.sender, liquidity_token_amount)),
{
    let mut state = state;
    if !state.virtual_state.any_locked_liquidity() {
        return Err(SwapError::LocksPresent);
    }
    let user = &context.sender;
    match state.token_balances.deduct_from_token_balance(
        *user,
        Token::LIQUIDITY,
        liquidity_token_amount,
    ) {
        Ok(()) => {},
        Err(error) => { return Err(error); },
    }
    let contract_token_balance = state.token_balances.get_balance_for(
        &state.liquidity_pool_address,
    );
    let (a_output, b_output) = match checked_reclaim_output(
        liquidity_token_amount,
        contract_token_balance.a_tokens,
        contract_token_balance.b_tokens,
        contract_token_balance.liquidity_tokens,
    ) {
        Ok(outputs) => outputs,
        Err(error) => { return Err(error); },
    };
    match state.token_balances.move_tokens(state.liquidity_pool_address, *user, Token::A, a_output) {
        Ok(()) => {},
        Err(error) => { return Err(error); },
    }
    match state.token_balances.move_tokens(state.liquidity_pool_address, *user, Token::B, b_output) {
        Ok(()) => {},
        Err(error) => { return Err(error); },
    }
    match state.token_balances.deduct_from_token_balance(
        state.liquidity_pool_address,
        Token::LIQUIDITY,
        liquidity_token_amount,
    ) {
        Ok(()) => {},
        Err(error) => { return Err(error); },
    }
    Ok((state, no_events()))
}

/// Fills the empty pools and mints the first liquidity tokens, which make the caller the
/// owner of all the liquidity until someone else provides some.
pub fn provide_initial_liquidity(
    context: ContractContext,
    state: LiquiditySwapContractState,
    token_a_amount: TokenAmount,
    token_b_amount: TokenAmount,
) -> (result: ActionResult)
    requires
        state.wf(),
    ensures
        is_outcome(
            result,
            state@.provide_initial_liquidity(context.sender, token_a_amount, token_b_amount),
        ),
{
    let contract_token_balance = state.token_balances.get_balance_for(
        &state.liquidity_pool_address,
    );
    if contract_token_balance.a_tokens != 0 || contract_token_balance.b_tokens != 0 {
        return Err(SwapError::PoolsNotEmpty);
    }
    let minted_liquidity_tokens = initial_liquidity_tokens(token_a_amount, token_b_amount);
    if minted_liquidity_tokens == 0 {
        return Err(SwapError::ZeroMintedLiquidity);
    }
    match provide_liquidity_internal(
        state,
        &context.sender,
        TokensInOut::a_in_b_out(),
        token_a_amount,
        token_b_amount,
        minted_liquidity_tokens,
    ) {
        Ok(state) => Ok((state, no_events())),
        Err(error) => Err(error),
    }
}

/// Acquires a lock on a swap of `amount_in` of the reserve token at `token_in`: the
/// right to make that swap later and be paid what the pools, actual and virtual, give
/// for it now. The lock's id and payout are handed back. Other callers can deal with the
/// pool while the lock is outstanding. Refused where the caller may not acquire locks,
/// where a pool is empty, and where the pools give less than `amount_out_minimum`.
pub fn acquire_swap_lock(
    context: ContractContext,
    state: LiquiditySwapContractState,
    token_in: Address,
    amount_in: TokenAmount,
    amount_out_minimum: TokenAmount,
) -> (result: ActionResult)
    requires
        state.wf(),
    ensures
        is_outcome(
            result,
            state@.acquire_swap_lock(context.sender, token_in, amount_in, amount_out_minimum),
        ),
{
    match state.permission_lock_swap.assert_permission_for(&context.sender, "lock swap") {
        Ok(()) => {},
        Err(error) => { return Err(error); },
    }
    if !state.contract_pools_have_liquidity() {
        return Err(SwapError::NoLiquidity);
    }
    let (state, lock_id, amount_out) = match lock_internal(
        state,
        amount_in,
        token_in,
        amount_out_minimum,
        context.sender,
    ) {
        Ok(locked) => locked,
        Err(error) => { return Err(error); },
    };
    let mut event_group_builder = EventGroup::builder();
    let lock_info = AcquiredLiquidityLockInformation { lock_id, amount_out };
    event_group_builder.return_data(ReturnData::Lock(lock_info));
    Ok((state, single_event(event_group_builder.build())))
}

/// Executes a lock acquired before: the swap is made on the actual pools at the price
/// that was locked, and the amount paid out is handed back. Refused where there is no
/// lock with this id and where the lock is not the caller's.
pub fn execute_lock_swap(
    context: ContractContext,
    state: LiquiditySwapContractState,
    lock_id: LiquidityLockId,
) -> (result: ActionResult)
    requires
        state.wf(),
    ensures
        is_outcome(result, state@.execute_lock_swap(context.sender, lock_id)),
{
    let (state, output_amount) = match execute_lock_swap_internal(state, lock_id, context.sender) {
        Ok(swapped) => swapped,
        Err(error) => { return Err(error); },
    };
    let mut return_event = EventGroup::builder();
    return_event.return_data(ReturnData::Amount(output_amount));
    Ok((state, single_event(return_event.build())))
}

/// Cancels a lock acquired before: the virtual pools are as if the lock had never been.
/// Refused where there is no lock with this id and where the lock is not the caller's.
pub fn cancel_lock(
    context: ContractContext,
    state: LiquiditySwapContractState,
    lock_id: LiquidityLockId,
) -> (result: ActionResult)
    requires
        state.wf(),
    ensures
        is_outcome(result, state@.cancel_lock(context.sender, lock_id)),
{
    let mut state = state;
    match state.virtual_state.remove_lock(lock_id, context.sender) {
        Ok(_) => {},
        Err(error) => { return Err(error); },
    }
    Ok((state, no_events()))
}

/// Invokes `operation` on behalf of the sender that `context` names: one of the
/// actions above, or a callback with what it was told of the calls it hears of.
pub fn invoke(
    context: ContractContext,
    state: LiquiditySwapContractState,
    operation: Operation,
) -> (result: ActionResult)
    requires
        state.wf(),
    ensures
        is_outcome(result, state@.invoke(context.sender, operation)),
{
    match operation {
        Operation::Deposit { token_address, amount } => deposit(
            context,
            state,
            token_address,
            amount,
        ),
        Operation::InstantSwap { token_in, amount_in, amount_out_minimum } => instant_swap(
            context,
            state,
            token_in,
            amount_in,
            amount_out_minimum,
        ),
        Operation::Withdraw { token_address, amount, wait_for_callback } => withdraw(
            context,
            state,
            token_address,
            amount,
            wait_for_callback,
        ),
        Operation::ProvideLiquidity { token_address, amount } => provide_liquidity(
            context,
            state,
            token_address,
            amount,
        ),
        Operation::ReclaimLiquidity { liquidity_token_amount } => reclaim_liquidity(
            context,
            state,
            liquidity_token_amount,
        ),
        Operation::ProvideInitialLiquidity {
            token_a_amount,
            token_b_amount,
        } => provide_initial_liquidity(context, state, token_a_amount, token_b_amount),
        Operation::AcquireSwapLock {
            token_in,
            amount_in,
            amount_out_minimum,
        } => acquire_swap_lock(context, state, token_in, amount_in, amount_out_minimum),
        Operation::ExecuteLockSwap { lock_id } => execute_lock_swap(context, state, lock_id),
        Operation::CancelLock { lock_id } => cancel_lock(context, state, lock_id),
        Operation::DepositCallback { success, token, amount } => deposit_callback(
            context,
            CallbackContext { success },
            state,
            token,
            amount,
        ),
        Operation::WaitWithdrawCallback => wait_withdraw_callback(
            context,
            CallbackContext { success: true },
            state,
        ),
    }
}

} // verus!
