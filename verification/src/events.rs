//! What an operation asks the chain to do once it has returned: calls to other
//! contracts, a callback to hear how they went, and data handed back to the caller.

use vstd::prelude::*;
use crate::address::Address;
use crate::liquidity_util::{AcquiredLiquidityLockInformation, LiquidityLockId};
use crate::token_balances::{Token, TokenAmount};

verus! {

/// An amount of gas.
pub type GasCost = u64;

/// The number by which a contract tells its actions and callbacks apart.
pub type Shortname = u32;

/// What a call asks of the contract it goes to. `B` is how byte strings are held: as
/// vectors in a call that is sent, as sequences in what a contract says of it.
#[derive(Clone, Debug, PartialEq, Eq)]
pub enum InvocationOf<B> {
    /// Asks a token contract to move `amount` from the caller to `to`.
    Transfer { to: Address, amount: TokenAmount },
    /// Asks a token contract to move `amount` from `from` to `to`, out of what `from`
    /// has allowed the caller.
    TransferFrom { from: Address, to: Address, amount: TokenAmount },
    /// Asks a token contract to allow `spender` to take up to `amount` from the caller.
    Approve { spender: Address, amount: TokenAmount },
    /// Asks a token contract to change by `delta` what `spender` may take from the caller.
    ApproveRelative { spender: Address, delta: i128 },
    /// Asks a swap contract to take `amount` of the token at `token` into the caller's
    /// balance.
    Deposit { token: Address, amount: TokenAmount },
    /// Asks a swap contract to pay `amount` of the token at `token` out of the caller's
    /// balance.
    Withdraw { token: Address, amount: TokenAmount, wait_for_callback: bool },
    /// Asks a swap contract to reserve a swap.
    AcquireSwapLock { token_in: Address, amount_in: TokenAmount, amount_out_minimum: TokenAmount },
    /// Asks a swap contract to settle a reserved swap.
    ExecuteLockSwap { lock_id: LiquidityLockId },
    /// Asks a swap contract to give up a reserved swap.
    CancelLock { lock_id: LiquidityLockId },
    /// Asks the deployment contract to deploy a contract and to initialize it with
    /// `initialization_rpc`.
    Deploy { bytecode: B, abi: B, initialization_rpc: B },
    /// Asks the deployment contract to deploy a contract with the binder of the given id.
    DeploySpecificBinder { bytecode: B, abi: B, initialization_rpc: B, binder_id: i32 },
    /// Asks nothing: the call only shows whether the contract is there, and brings it gas.
    Ping,
}

/// What a call that is sent asks.
pub type Invocation = InvocationOf<Vec<u8>>;

/// What a call asks, as contracts speak of it.
pub type InvocationView = InvocationOf<Seq<u8>>;

impl View for InvocationOf<Vec<u8>> {
    type V = InvocationOf<Seq<u8>>;

    open spec fn view(&self) -> InvocationOf<Seq<u8>> {
        match *self {
            InvocationOf::Transfer { to, amount } => InvocationOf::Transfer { to, amount },
            InvocationOf::TransferFrom { from, to, amount } => InvocationOf::TransferFrom {
                from,
                to,
                amount,
            },
            InvocationOf::Approve { spender, amount } => InvocationOf::Approve { spender, amount },
            InvocationOf::ApproveRelative { spender, delta } => InvocationOf::ApproveRelative {
                spender,
                delta,
            },
            InvocationOf::Deposit { token, amount } => InvocationOf::Deposit { token, amount },
            InvocationOf::Withdraw { token, amount, wait_for_callback } => InvocationOf::Withdraw {
                token,
                amount,
                wait_for_callback,
            },
            InvocationOf::AcquireSwapLock {
                token_in,
                amount_in,
                amount_out_minimum,
            } => InvocationOf::AcquireSwapLock { token_in, amount_in, amount_out_minimum },
            InvocationOf::ExecuteLockSwap { lock_id } => InvocationOf::ExecuteLockSwap { lock_id },
            InvocationOf::CancelLock { lock_id } => InvocationOf::CancelLock { lock_id },
            InvocationOf::Deploy { bytecode, abi, initialization_rpc } => InvocationOf::Deploy {
                bytecode: bytecode@,
                abi: abi@,
                initialization_rpc: initialization_rpc@,
            },
            InvocationOf::DeploySpecificBinder {
                bytecode,
                abi,
                initialization_rpc,
                binder_id,
            } => InvocationOf::DeploySpecificBinder {
                bytecode: bytecode@,
                abi: abi@,
                initialization_rpc: initialization_rpc@,
                binder_id,
            },
            InvocationOf::Ping => InvocationOf::Ping,
        }
    }
}

impl<B> InvocationOf<B> {
    /// The number that the called contract knows the action by. A ping names no action.
    pub open spec fn spec_shortname(&self) -> Option<Shortname> {
        match self {
            InvocationOf::Transfer { .. } => Some(0x01u32),
            InvocationOf::TransferFrom { .. } => Some(0x03u32),
            InvocationOf::Approve { .. } => Some(0x05u32),
            InvocationOf::ApproveRelative { .. } => Some(0x07u32),
            InvocationOf::Deposit { .. } => Some(0x01u32),
            InvocationOf::Withdraw { .. } => Some(0x03u32),
            InvocationOf::AcquireSwapLock { .. } => Some(0x07u32),
            InvocationOf::ExecuteLockSwap { .. } => Some(0x08u32),
            InvocationOf::CancelLock { .. } => Some(0x09u32),
            InvocationOf::Deploy { .. } => Some(0x01u32),
            InvocationOf::DeploySpecificBinder { .. } => Some(0x04u32),
            InvocationOf::Ping => None,
        }
    }

    /// The number that the called contract knows the action by. A ping names no action.
    #[verifier::when_used_as_spec(spec_shortname)]
    pub fn shortname(&self) -> (shortname: Option<Shortname>)
        ensures
            shortname == self.spec_shortname(),
    {
        match self {
            InvocationOf::Transfer { .. } => Some(0x01),
            InvocationOf::TransferFrom { .. } => Some(0x03),
            InvocationOf::Approve { .. } => Some(0x05),
            InvocationOf::ApproveRelative { .. } => Some(0x07),
            InvocationOf::Deposit { .. } => Some(0x01),
            InvocationOf::Withdraw { .. } => Some(0x03),
            InvocationOf::AcquireSwapLock { .. } => Some(0x07),
            InvocationOf::ExecuteLockSwap { .. } => Some(0x08),
            InvocationOf::CancelLock { .. } => Some(0x09),
            InvocationOf::Deploy { .. } => Some(0x01),
            InvocationOf::DeploySpecificBinder { .. } => Some(0x04),
            InvocationOf::Ping => None,
        }
    }
}

/// A call to another contract.
#[derive(Clone, Debug, PartialEq, Eq)]
pub struct InteractionOf<B> {
    /// The contract that is called.
    pub contract: Address,
    /// What is asked of it.
    pub invocation: InvocationOf<B>,
    /// The gas sent along. Without a figure, as much as can be had.
    pub cost: Option<GasCost>,
}

/// A call that is sent.
pub type Interaction = InteractionOf<Vec<u8>>;

/// A call, as contracts speak of it.
pub type InteractionView = InteractionOf<Seq<u8>>;

impl View for InteractionOf<Vec<u8>> {
    type V = InteractionOf<Seq<u8>>;

    open spec fn view(&self) -> InteractionOf<Seq<u8>> {
        InteractionOf { contract: self.contract, invocation: self.invocation@, cost: self.cost }
    }
}

/// What each of some calls is.
pub open spec fn interaction_views(calls: Seq<Interaction>) -> Seq<InteractionView> {
    Seq::new(calls.len(), |i: int| calls[i]@)
}

/// The callback by which the calling contract hears how its calls went.
#[derive(Clone, Copy, Debug, PartialEq, Eq)]
pub enum Callback {
    /// Books a deposit of `amount` of `token`, once the tokens have arrived.
    Deposit { token: Token, amount: TokenAmount },
    /// Only holds back what follows until a withdrawal has been paid out.
    WaitWithdraw,
    /// Tells whether the pinged contract is there.
    Ping,
}

impl Callback {
    /// The number that the calling contract knows the callback by.
    pub open spec fn spec_shortname(&self) -> Shortname {
        match self {
            Callback::Deposit { .. } => 0x10u32,
            Callback::WaitWithdraw => 0x15u32,
            Callback::Ping => 0x10u32,
        }
    }

    /// The number that the calling contract knows the callback by.
    #[verifier::when_used_as_spec(spec_shortname)]
    pub fn shortname(&self) -> (shortname: Shortname)
        ensures
            shortname == self.spec_shortname(),
    {
        match self {
            Callback::Deposit { .. } => 0x10,
            Callback::WaitWithdraw => 0x15,
            Callback::Ping => 0x10,
        }
    }
}

/// What an operation hands back to whoever called it.
#[derive(Clone, Copy, Debug, PartialEq, Eq, Structural)]
pub enum ReturnData {
    /// The lock that was acquired.
    Lock(AcquiredLiquidityLockInformation),
    /// The amount that a swap paid out.
    Amount(TokenAmount),
}

/// What an event group holds: its calls in the order in which they were added, the
/// callback, and the data handed back.
pub struct EventGroupView {
    /// The calls, in the order in which they were added.
    pub calls: Seq<InteractionView>,
    /// The callback that hears the outcome of the calls.
    pub callback: Option<Callback>,
    /// The data handed back to the caller.
    pub return_data: Option<ReturnData>,
}

/// Calls that go out together, with at most one callback that hears their outcome.
#[derive(Debug)]
pub struct EventGroup {
    /// The calls, in the order in which they were added.
    pub calls: Vec<Interaction>,
    /// The callback that hears the outcome of the calls.
    pub callback: Option<Callback>,
    /// The data handed back to the caller.
    pub return_data: Option<ReturnData>,
}

impl View for EventGroup {
    type V = EventGroupView;

    open spec fn view(&self) -> EventGroupView {
        EventGroupView {
            calls: interaction_views(self.calls@),
            callback: self.callback,
            return_data: self.return_data,
        }
    }
}

impl EventGroup {
    /// Starts an event group that holds nothing yet.
    pub fn builder() -> (builder: EventGroupBuilder)
        ensures
            builder@ == (EventGroupView { calls: Seq::empty(), callback: None, return_data: None }),
    {
        let builder = EventGroupBuilder { calls: Vec::new(), callback: None, return_data: None };
        assert(builder@.calls =~= Seq::<InteractionView>::empty());
        builder
    }
}

/// What each of some event groups holds.
pub open spec fn event_views(groups: Seq<EventGroup>) -> Seq<EventGroupView> {
    Seq::new(groups.len(), |i: int| groups[i]@)
}

/// An event group in the making.
#[derive(Debug)]
pub struct EventGroupBuilder {
    /// The calls added so far.
    pub calls: Vec<Interaction>,
    /// The callback, once one is set.
    pub callback: Option<Callback>,
    /// The data to hand back, once some is set.
    pub return_data: Option<ReturnData>,
}

impl View for EventGroupBuilder {
    type V = EventGroupView;

    open spec fn view(&self) -> EventGroupView {
        EventGroupView {
            calls: interaction_views(self.calls@),
            callback: self.callback,
            return_data: self.return_data,
        }
    }
}

impl EventGroupBuilder {
    /// Adds a call behind those added before.
    pub fn call(&mut self, interaction: Interaction)
        ensures
            final(self)@ == (EventGroupView {
                calls: old(self)@.calls.push(interaction@),
                ..old(self)@
            }),
    {
        let ghost sent = interaction@;
        self.calls.push(interaction);
        assert(self@.calls =~= old(self)@.calls.push(sent));
    }

    /// Sets the callback, in place of one set before.
    pub fn with_callback(&mut self, callback: Callback)
        ensures
            final(self)@ == (EventGroupView { callback: Some(callback), ..old(self)@ }),
    {
        self.callback = Some(callback);
    }

    /// Sets the data to hand back, in place of what was set before.
    pub fn return_data(&mut self, data: ReturnData)
        ensures
            final(self)@ == (EventGroupView { return_data: Some(data), ..old(self)@ }),
    {
        self.return_data = Some(data);
    }

    /// Finishes the event group.
    pub fn build(self) -> (group: EventGroup)
        ensures
            group@ == self@,
    {
        EventGroup { calls: self.calls, callback: self.callback, return_data: self.return_data }
    }
}

} // verus!
