//! Identities of accounts and contracts on the chain.

use vstd::prelude::*;
use vstd::std_specs::cmp::PartialEqSpecImpl;
use crate::list_map::Key;

verus! {

/// The kind of party an address belongs to.
#[derive(PartialEq, Eq, Structural, Clone, Copy, Debug)]
pub enum AddressType {
    /// An end user's account.
    Account,
    /// A contract of the chain itself.
    SystemContract,
    /// A public contract.
    PublicContract,
    /// A zero-knowledge contract.
    ZkContract,
    /// A governance contract.
    GovContract,
}

/// The twenty bytes that tell addresses of one kind apart.
pub type Identifier = [u8; 20];

/// The identity of an account or a contract.
#[derive(Clone, Copy, Debug)]
pub struct Address {
    /// What kind of party the address belongs to.
    pub address_type: AddressType,
    /// The bytes of the address.
    pub identifier: Identifier,
}

impl PartialEq for Address {
    fn eq(&self, other: &Self) -> (equal: bool) {
        if self.address_type != other.address_type {
            return false;
        }
        let mut i: usize = 0;
        while i < 20
            invariant
                i <= 20,
                forall|j: int| 0 <= j < i ==> self.identifier[j] == other.identifier[j],
            decreases 20 - i,
        {
            if self.identifier[i] != other.identifier[i] {
                return false;
            }
            i += 1;
        }
        assert(self.identifier =~= other.identifier);
        true
    }
}

impl Eq for Address {

}

impl PartialEqSpecImpl for Address {
    open spec fn obeys_eq_spec() -> bool {
        true
    }

    open spec fn eq_spec(&self, other: &Self) -> bool {
        *self == *other
    }
}

impl Key for Address {
    fn same_key(&self, other: &Self) -> (same: bool) {
        *self == *other
    }
}

impl Address {
    /// Whether the address belongs to an end user rather than to a contract.
    pub open spec fn is_account(self) -> bool {
        self.address_type == AddressType::Account
    }
}

} // verus!
