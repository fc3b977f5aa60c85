//! Calls to a token contract that keeps balances and allowances.

use vstd::prelude::*;
use crate::address::Address;
use crate::events::{
    EventGroupBuilder,
    EventGroupView,
    GasCost,
    Interaction,
    InteractionView,
    Invocation,
    InvocationView,
};
use crate::token_balances::TokenAmount;

verus! {

/// Token transfer amounts for the token contract.
pub type TokenTransferAmount = u128;

/// A token contract on the chain.
#[derive(Clone, Copy, Debug)]
pub struct MPC20Contract {
    contract_address: Address,
}

/// The event group with `interaction` added behind its calls.
pub open spec fn with_call(group: EventGroupView, interaction: InteractionView) -> EventGroupView {
    EventGroupView { calls: group.calls.push(interaction), ..group }
}

impl MPC20Contract {
    /// Gas that is enough for a transfer.
    pub const GAS_COST_TRANSFER: GasCost = 15500;

    /// Gas that is enough for a transfer on another's behalf.
    pub const GAS_COST_TRANSFER_FROM: GasCost = 15500;

    /// Gas that is enough for an approval.
    pub const GAS_COST_APPROVE: GasCost = 3000;

    /// Gas that is enough for a relative approval.
    pub const GAS_COST_APPROVE_RELATIVE: GasCost = 1400;

    /// The address of the token contract.
    pub closed spec fn address(&self) -> Address {
        self.contract_address
    }

    /// Stands for the token contract at `contract_address`.
    pub fn at_address(contract_address: Address) -> (contract: Self)
        ensures
            contract.address() == contract_address,
    {
        Self { contract_address }
    }

    /// Adds a call that moves `amount` of the token from the calling contract to `receiver`.
    pub fn transfer(
        &self,
        event_group_builder: &mut EventGroupBuilder,
        receiver: &Address,
        amount: TokenTransferAmount,
    )
        ensures
            final(event_group_builder)@ == with_call(
                old(event_group_builder)@,
                InteractionView {
                    contract: self.address(),
                    invocation: InvocationView::Transfer { to: *receiver, amount },
                    cost: Some(15500u64),
                },
            ),
    {
        event_group_builder.call(
            Interaction {
                contract: self.contract_address,
                invocation: Invocation::Transfer { to: *receiver, amount },
                cost: Some(Self::GAS_COST_TRANSFER),
            },
        );
    }

    /// Adds a call that moves `amount` of the token from `sender` to `receiver`. The
    /// calling contract needs an allowance from `sender` for it.
    pub fn transfer_from(
        &self,
        event_group_builder: &mut EventGroupBuilder,
        sender: &Address,
        receiver: &Address,
        amount: TokenTransferAmount,
    )
        ensures
            final(event_group_builder)@ == with_call(
                old(event_group_builder)@,
                InteractionView {
                    contract: self.address(),
                    invocation: InvocationView::TransferFrom { from: *sender, to: *receiver, amount },
                    cost: Some(15500u64),
                },
            ),
    {
        event_group_builder.call(
            Interaction {
                contract: self.contract_address,
                invocation: Invocation::TransferFrom { from: *sender, to: *receiver, amount },
                cost: Some(Self::GAS_COST_TRANSFER_FROM),
            },
        );
    }

    /// Adds a call that allows `approved` to take up to `approval_amount` of the calling
    /// contract's tokens.
    pub fn approve(
        &self,
        event_group_builder: &mut EventGroupBuilder,
        approved: &Address,
        approval_amount: TokenAmount,
    )
        ensures
            final(event_group_builder)@ == with_call(
                old(event_group_builder)@,
                InteractionView {
                    contract: self.address(),
                    invocation: InvocationView::Approve { spender: *approved, amount: approval_amount },
                    cost: Some(3000u64),
                },
            ),
    {
        event_group_builder.call(
            Interaction {
                contract: self.contract_address,
                invocation: Invocation::Approve { spender: *approved, amount: approval_amount },
                cost: Some(Self::GAS_COST_APPROVE),
            },
        );
    }

    /// Adds a call that changes by `approval_amount` what `approved` may take of the
    /// calling contract's tokens.
    pub fn approve_relative(
        &self,
        event_group_builder: &mut EventGroupBuilder,
        approved: &Address,
        approval_amount: i128,
    )
        ensures
            final(event_group_builder)@ == with_call(
                old(event_group_builder)@,
                InteractionView {
                    contract: self.address(),
                    invocation: InvocationView::ApproveRelative {
                        spender: *approved,
                        delta: approval_amount,
                    },
                    cost: Some(1400u64),
                },
            ),
    {
        event_group_builder.call(
            Interaction {
                contract: self.contract_address,
                invocation: Invocation::ApproveRelative {
                    spender: *approved,
                    delta: approval_amount,
                },
                cost: Some(Self::GAS_COST_APPROVE_RELATIVE),
            },
        );
    }
}

} // verus!
