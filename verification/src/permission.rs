//! Who may invoke an action: anybody, or the addresses on a list.

use vstd::prelude::*;
use crate::address::Address;
use crate::error::SwapError;

verus! {

/// What a permission holds.
pub enum PermissionView {
    /// Everybody has the permission.
    Anybody,
    /// Only the listed addresses have the permission.
    Specific { addresses: Seq<Address> },
}

impl PermissionView {
    /// Whether `addr` has the permission.
    pub open spec fn allows(self, addr: Address) -> bool {
        match self {
            PermissionView::Anybody => true,
            PermissionView::Specific { addresses } => addresses.contains(addr),
        }
    }
}

/// Whether `addr` is among `addresses`.
pub fn contains_address(addresses: &Vec<Address>, addr: &Address) -> (found: bool)
    ensures
        found == addresses@.contains(*addr),
{
    let mut i: usize = 0;
    while i < addresses.len()
        invariant
            i <= addresses.len(),
            forall|j: int| 0 <= j < i ==> addresses@[j] != *addr,
        decreases addresses.len() - i,
    {
        if addresses[i] == *addr {
            assert(addresses@[i as int] == *addr);
            return true;
        }
        i += 1;
    }
    false
}

/// A permission that is settled when a contract is created.
#[derive(Debug)]
pub enum Permission {
    /// Everybody has the permission.
    Anybody,
    /// Only the listed addresses have the permission.
    Specific {
        /// The addresses with the permission.
        addresses: Vec<Address>,
    },
}

impl View for Permission {
    type V = PermissionView;

    open spec fn view(&self) -> PermissionView {
        match self {
            Permission::Anybody => PermissionView::Anybody,
            Permission::Specific { addresses } => PermissionView::Specific { addresses: addresses@ },
        }
    }
}

impl Permission {
    /// Determines whether `addr` has this permission.
    pub fn does_address_have_permission(&self, addr: &Address) -> (allowed: bool)
        ensures
            allowed == self@.allows(*addr),
    {
        match self {
            Permission::Anybody => true,
            Permission::Specific { addresses } => contains_address(addresses, addr),
        }
    }

    /// Checks that `addr` has this permission, which `permission_name` names for whoever
    /// reports a refusal.
    pub fn assert_permission_for(
        &self,
        addr: &Address,
        permission_name: &'static str,
    ) -> (checked: Result<(), SwapError>)
        ensures
            self@.allows(*addr) ==> checked is Ok,
            !self@.allows(*addr) ==> checked == Err::<(), SwapError>(
                SwapError::LockPermissionMissing,
            ),
    {
        if self.does_address_have_permission(addr) {
            Ok(())
        } else {
            Err(SwapError::LockPermissionMissing)
        }
    }
}

} // verus!
