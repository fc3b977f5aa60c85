//! Calls to a swap contract: deposits and withdrawals.

use vstd::prelude::*;
use crate::address::Address;
use crate::events::{
    EventGroupBuilder,
    GasCost,
    Interaction,
    InteractionView,
    Invocation,
    InvocationView,
};
use crate::interact_mpc20::{with_call, MPC20Contract};
use crate::token_balances::TokenAmount;

verus! {

/// A swap contract on the chain.
#[derive(Clone, Copy, Debug)]
pub struct SwapContract {
    contract_address: Address,
}

impl SwapContract {
    /// Gas for the swap contract's own work on a deposit.
    pub const DEPOSIT_BASE_COST: GasCost = 1770;

    /// Gas that is enough for a deposit: for the swap contract's own work and for the
    /// transfer that it asks of the token contract.
    pub const GAS_COST_DEPOSIT: GasCost = Self::DEPOSIT_BASE_COST
        + MPC20Contract::GAS_COST_TRANSFER;

    /// Gas for the swap contract's own work on a withdrawal.
    pub const WITHDRAW_BASE_COST: GasCost = 633;

    /// Gas that is enough for a withdrawal: for the swap contract's own work and for the
    /// transfer that it asks of the token contract.
    pub const GAS_COST_WITHDRAW: GasCost = Self::WITHDRAW_BASE_COST
        + MPC20Contract::GAS_COST_TRANSFER_FROM;

    /// The address of the swap contract.
    pub closed spec fn address(&self) -> Address {
        self.contract_address
    }

    /// Stands for the swap contract at `contract_address`.
    pub fn at_address(contract_address: Address) -> (contract: Self)
        ensures
            contract.address() == contract_address,
    {
        Self { contract_address }
    }

    /// Adds a call that deposits `amount` of the token at `token` from the calling
    /// contract into the swap contract, which the calling contract has to have given an
    /// allowance for it.
    pub fn deposit(
        &self,
        event_group_builder: &mut EventGroupBuilder,
        token: &Address,
        amount: TokenAmount,
    )
        ensures
            final(event_group_builder)@ == with_call(
                old(event_group_builder)@,
                InteractionView {
                    contract: self.address(),
                    invocation: InvocationView::Deposit { token: *token, amount },
                    cost: Some(17270u64),
                },
            ),
    {
        event_group_builder.call(
            Interaction {
                contract: self.contract_address,
                invocation: Invocation::Deposit { token: *token, amount },
                cost: Some(Self::GAS_COST_DEPOSIT),
            },
        );
    }

    /// Adds a call that withdraws `amount` of the token at `token` from the swap contract
    /// to the calling contract. Where `wait_for_callback` is set, callbacks added to the
    /// event group later only happen once the withdrawal is done.
    pub fn withdraw(
        &self,
        event_group_builder: &mut EventGroupBuilder,
        token: &Address,
        amount: TokenAmount,
        wait_for_callback: bool,
    )
        ensures
            final(event_group_builder)@ == with_call(
                old(event_group_builder)@,
                InteractionView {
                    contract: self.address(),
                    invocation: InvocationView::Withdraw {
                        token: *token,
                        amount,
                        wait_for_callback,
                    },
                    cost: Some(16133u64),
                },
            ),
    {
        event_group_builder.call(
            Interaction {
                contract: self.contract_address,
                invocation: Invocation::Withdraw { token: *token, amount, wait_for_callback },
                cost: Some(Self::GAS_COST_WITHDRAW),
            },
        );
    }
}

} // verus!
