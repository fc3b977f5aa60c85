//! A contract that pings others: to see whether they are there, or to bring them gas.

use vstd::prelude::*;
use crate::address::Address;
use crate::context::{CallbackContext, ContractContext};
use crate::events::{
    Callback,
    EventGroup,
    EventGroupView,
    GasCost,
    Interaction,
    InteractionView,
    Invocation,
    InvocationView,
};

verus! {

/// The state of the ping contract: it keeps nothing.
#[derive(Clone, Copy, Debug, PartialEq, Eq, Structural)]
pub struct PingContractState {

}

/// Why a ping is reported as failed.
#[derive(Clone, Copy, Debug, PartialEq, Eq, Structural)]
pub enum PingError {
    /// No contract was found at the pinged address.
    NoContractFound,
}

/// The event group of a ping to `destination` with `cost` gas, or with as much as can be
/// had where no figure is given.
pub open spec fn ping_group(
    destination: Address,
    cost: Option<GasCost>,
    callback: Option<Callback>,
) -> EventGroupView {
    EventGroupView {
        calls: seq![InteractionView { contract: destination, invocation: InvocationView::Ping, cost }],
        callback,
        return_data: None,
    }
}

/// Builds the event group of a ping.
fn build_ping(
    destination: Address,
    cost: Option<GasCost>,
    callback: Option<Callback>,
) -> (events: Vec<EventGroup>)
    ensures
        events@.len() == 1,
        events@[0]@ == ping_group(destination, cost, callback),
{
    let mut event_group_builder = EventGroup::builder();
    event_group_builder.call(Interaction { contract: destination, invocation: Invocation::Ping, cost });
    match callback {
        Some(callback) => {
            event_group_builder.with_callback(callback);
        },
        None => {},
    }
    let group = event_group_builder.build();
    assert(group@.calls =~= ping_group(destination, cost, callback).calls);
    let mut events: Vec<EventGroup> = Vec::new();
    events.push(group);
    events
}

/// Creates the contract.
pub fn initialize(context: ContractContext) -> (created: (PingContractState, Vec<EventGroup>))
    ensures
        created.1@.len() == 0,
{
    (PingContractState {  }, Vec::new())
}

/// Pings the contract at `destination`, which brings it `cost` gas, or as much as can be
/// had where no figure is given. A callback tells whether a contract is there.
pub fn ping(
    context: ContractContext,
    state: PingContractState,
    destination: Address,
    cost: Option<GasCost>,
) -> (pinged: (PingContractState, Vec<EventGroup>))
    ensures
        pinged.0 == state,
        pinged.1@.len() == 1,
        pinged.1@[0]@ == ping_group(destination, cost, Some(Callback::Ping)),
{
    (state, build_ping(destination, cost, Some(Callback::Ping)))
}

/// Pings the contract at `destination` to bring it gas, without a callback that tells
/// whether a contract is there.
pub fn ping_no_callback(
    context: ContractContext,
    state: PingContractState,
    destination: Address,
    cost: Option<GasCost>,
) -> (pinged: (PingContractState, Vec<EventGroup>))
    ensures
        pinged.0 == state,
        pinged.1@.len() == 1,
        pinged.1@[0]@ == ping_group(destination, cost, None),
{
    (state, build_ping(destination, cost, None))
}

/// Hears the outcome of a ping: the pinged contract is there exactly if the ping
/// succeeded.
pub fn ping_callback(
    context: ContractContext,
    callback_context: CallbackContext,
    state: PingContractState,
) -> (heard: Result<(PingContractState, Vec<EventGroup>), PingError>)
    ensures
        callback_context.success ==> heard is Ok && heard->Ok_0.0 == state && heard->Ok_0.1@.len()
            == 0,
        !callback_context.success ==> heard is Err && heard->Err_0 == PingError::NoContractFound,
{
    if !callback_context.success {
        return Err(PingError::NoContractFound);
    }
    Ok((state, Vec::new()))
}

} // verus!
