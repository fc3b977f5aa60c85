//! Calls to a swap contract with locks: what it offers beyond deposits and withdrawals.

use vstd::prelude::*;
use crate::address::Address;
use crate::events::{
    EventGroupBuilder,
    GasCost,
    Interaction,
    InteractionView,
    Invocation,
    InvocationView,
};
use crate::interact_mpc20::with_call;
use crate::liquidity_util::LiquidityLockId;
use crate::token_balances::TokenAmount;

verus! {

/// A swap contract with locks on the chain.
#[derive(Clone, Copy, Debug)]
pub struct SwapLockContract {
    swap_address: Address,
}

impl SwapLockContract {
    /// Gas that is enough for acquiring a lock.
    pub const GAS_COST_ACQUIRE_SWAP_LOCK: GasCost = 2500;

    /// Gas that is enough for executing a lock.
    pub const GAS_COST_EXECUTE_LOCK: GasCost = 2500;

    /// Gas that is enough for cancelling a lock.
    pub const GAS_COST_CANCEL_LOCK: GasCost = 2500;

    /// The address of the swap contract.
    pub closed spec fn address(&self) -> Address {
        self.swap_address
    }

    /// Stands for the swap contract at `swap_address`.
    pub fn at_address(swap_address: Address) -> (contract: Self)
        ensures
            contract.address() == swap_address,
    {
        Self { swap_address }
    }

    /// Adds a call that acquires a lock on a swap of `amount_in` of the token at
    /// `token_in`, which is to pay out `amount_out_minimum` at the least. The lock will
    /// belong to the calling contract.
    pub fn acquire_swap_lock(
        &self,
        event_group_builder: &mut EventGroupBuilder,
        token_in: &Address,
        amount_in: TokenAmount,
        amount_out_minimum: TokenAmount,
    )
        ensures
            final(event_group_builder)@ == with_call(
                old(event_group_builder)@,
                InteractionView {
                    contract: self.address(),
                    invocation: InvocationView::AcquireSwapLock {
                        token_in: *token_in,
                        amount_in,
                        amount_out_minimum,
                    },
                    cost: Some(2500u64),
                },
            ),
    {
        event_group_builder.call(
            Interaction {
                contract: self.swap_address,
                invocation: Invocation::AcquireSwapLock {
                    token_in: *token_in,
                    amount_in,
                    amount_out_minimum,
                },
                cost: Some(Self::GAS_COST_ACQUIRE_SWAP_LOCK),
            },
        );
    }

    /// Adds a call that executes the lock with id `lock_id`, acquired before.
    pub fn execute_lock_swap(
        &self,
        event_group_builder: &mut EventGroupBuilder,
        lock_id: LiquidityLockId,
    )
        ensures
            final(event_group_builder)@ == with_call(
                old(event_group_builder)@,
                InteractionView {
                    contract: self.address(),
                    invocation: InvocationView::ExecuteLockSwap { lock_id },
                    cost: Some(2500u64),
                },
            ),
    {
        event_group_builder.call(
            Interaction {
                contract: self.swap_address,
                invocation: Invocation::ExecuteLockSwap { lock_id },
                cost: Some(Self::GAS_COST_EXECUTE_LOCK),
            },
        );
    }

    /// Adds a call that cancels the lock with id `lock_id`, acquired before.
    pub fn cancel_lock(
        &self,
        event_group_builder: &mut EventGroupBuilder,
        lock_id: LiquidityLockId,
    )
        ensures
            final(event_group_builder)@ == with_call(
                old(event_group_builder)@,
                InteractionView {
                    contract: self.address(),
                    invocation: InvocationView::CancelLock { lock_id },
                    cost: Some(2500u64),
                },
            ),
    {
        event_group_builder.call(
            Interaction {
                contract: self.swap_address,
                invocation: Invocation::CancelLock { lock_id },
                cost: Some(Self::GAS_COST_CANCEL_LOCK),
            },
        );
    }
}

} // verus!
