//! What an operation is told about the transaction that invoked it.

use vstd::prelude::*;
use crate::address::Address;

verus! {

/// The hash that names a transaction.
#[derive(Clone, Copy, Debug)]
pub struct TransactionHash {
    /// The bytes of the hash.
    pub bytes: [u8; 32],
}

/// What an action or a callback is told about its invocation.
#[derive(Clone, Copy, Debug)]
pub struct ContractContext {
    /// The address of the contract that is invoked.
    pub contract_address: Address,
    /// The address of whoever invoked it.
    pub sender: Address,
    /// When the block that holds the transaction was produced, in milliseconds since the
    /// start of 1970 in UTC.
    pub block_production_time: i64,
    /// The transaction that started the chain of calls that this invocation belongs to.
    pub original_transaction: TransactionHash,
}

/// What a callback is told about the calls whose outcome it hears.
#[derive(Clone, Copy, Debug)]
pub struct CallbackContext {
    /// Whether all the calls succeeded.
    pub success: bool,
}

} // verus!
