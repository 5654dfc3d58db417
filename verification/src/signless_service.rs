//! The management of delegations: registering and revoking.

use vstd::prelude::*;
use crate::errors::RegistrationError;
use crate::identity::{AddressBytes, DelegateIdentity, OwnerIdentity, OwnerView};
use crate::record::SignlessAccountRecord;
use crate::registry::DelegationRegistry;

verus! {

/// The handler of the registry changes of one call. It holds the registry
/// for writing, and nothing but its operations reaches it. An operation
/// leaves the borrow in place: once the service is no longer used, the
/// lender finds the registry as the last operation left it.
pub struct SignlessService<'a> {
    state: &'a mut DelegationRegistry,
}

impl<'a> SignlessService<'a> {
    /// The borrow of the registry that the service holds.
    pub closed spec fn lent_registry(self) -> &'a mut DelegationRegistry {
        self.state
    }

    /// A service on the given borrow.
    pub fn new(state: &'a mut DelegationRegistry) -> (service: Self)
        ensures
            *service.lent_registry() == *old(state),
            *final(service.lent_registry()) == *final(state),
            has_resolved(service) ==> *service.lent_registry() == *final(service.lent_registry()),
    {
        SignlessService { state }
    }

    /// Registers `delegate`, with `record`, for the native owner `owner`.
    pub fn register_for_native_owner(
        &mut self,
        owner: AddressBytes,
        delegate: DelegateIdentity,
        record: SignlessAccountRecord,
    ) -> (outcome: Result<(), RegistrationError>)
        ensures
            final(self).lent_registry()@.wf(),
            match old(self).lent_registry()@.register(OwnerView::Native(owner), delegate, record@) {
                Ok(after) => outcome is Ok && final(self).lent_registry()@ == after,
                Err(reason) => outcome == Err::<(), RegistrationError>(reason)
                    && final(self).lent_registry()@ == old(self).lent_registry()@,
            },
            old(self).lent_registry()@.rules_at(OwnerView::Native(owner), delegate),
            *final(final(self).lent_registry()) == *final(old(self).lent_registry()),
            has_resolved(*final(self))
                ==> *final(self).lent_registry() == *final(final(self).lent_registry()),
    {
        self.state.register_for_native_owner(owner, delegate, record)
    }

    /// Registers `delegate`, with `record`, for the owner named `owner`.
    pub fn register_for_named_owner(
        &mut self,
        owner: String,
        delegate: DelegateIdentity,
        record: SignlessAccountRecord,
    ) -> (outcome: Result<(), RegistrationError>)
        ensures
            final(self).lent_registry()@.wf(),
            match old(self).lent_registry()@.register(OwnerView::Named(owner@), delegate, record@) {
                Ok(after) => outcome is Ok && final(self).lent_registry()@ == after,
                Err(reason) => outcome == Err::<(), RegistrationError>(reason)
                    && final(self).lent_registry()@ == old(self).lent_registry()@,
            },
            old(self).lent_registry()@.rules_at(OwnerView::Named(owner@), delegate),
            *final(final(self).lent_registry()) == *final(old(self).lent_registry()),
            has_resolved(*final(self))
                ==> *final(self).lent_registry() == *final(final(self).lent_registry()),
    {
        self.state.register_for_named_owner(owner, delegate, record)
    }

    /// Revokes the delegation of `owner`.
    pub fn revoke(&mut self, owner: OwnerIdentity) -> (outcome: Result<(), RegistrationError>)
        ensures
            final(self).lent_registry()@.wf(),
            match old(self).lent_registry()@.revoke(owner@) {
                Ok(after) => outcome is Ok && final(self).lent_registry()@ == after,
                Err(reason) => outcome == Err::<(), RegistrationError>(reason)
                    && final(self).lent_registry()@ == old(self).lent_registry()@,
            },
            old(self).lent_registry()@.delegate_of(owner@) matches Some(current)
                ==> old(self).lent_registry()@.rules_at(owner@, current),
            *final(final(self).lent_registry()) == *final(old(self).lent_registry()),
            has_resolved(*final(self))
                ==> *final(self).lent_registry() == *final(final(self).lent_registry()),
    {
        self.state.revoke(owner)
    }
}

} // verus!
