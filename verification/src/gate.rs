//! The authorization gate: the one check that says whether a caller may
//! act for an owner. It reads the registry and changes nothing.

use vstd::prelude::*;
use crate::errors::AuthError;
use crate::identity::{AddressBytes, CallerIdentity, OwnerIdentity, OwnerView};
use crate::registry::DelegationRegistry;

verus! {

impl DelegationRegistry {
    /// Holds `caller` against the delegate on file for `owner`.
    fn authorize(
        &self,
        caller: CallerIdentity,
        owner: &OwnerIdentity,
    ) -> (verdict: Result<(), AuthError>)
        ensures
            verdict == self@.authorize(caller, owner@),
    {
        match self.delegate_of(owner) {
            None => Err(AuthError::NotRegistered),
            Some(delegate) => if delegate == caller {
                Ok(())
            } else {
                Err(AuthError::CallerMismatch)
            },
        }
    }

    /// Succeeds exactly when `caller` is the delegate on file for the
    /// native owner `owner`.
    pub fn authorize_for_native_owner(
        &self,
        caller: CallerIdentity,
        owner: AddressBytes,
    ) -> (verdict: Result<(), AuthError>)
        ensures
            verdict == self@.authorize(caller, OwnerView::Native(owner)),
            verdict is Ok <==> self@.delegate_of(OwnerView::Native(owner)) == Some(caller),
            verdict == Err::<(), AuthError>(AuthError::NotRegistered)
                <==> self@.delegate_of(OwnerView::Native(owner)) is None,
            verdict == Err::<(), AuthError>(AuthError::CallerMismatch)
                <==> self@.delegate_of(OwnerView::Native(owner)) is Some
                && self@.delegate_of(OwnerView::Native(owner)) != Some(caller),
    {
        self.authorize(caller, &OwnerIdentity::Native(owner))
    }

    /// Succeeds exactly when `caller` is the delegate on file for the
    /// owner named `owner_name`.
    pub fn authorize_for_named_owner(
        &self,
        caller: CallerIdentity,
        owner_name: String,
    ) -> (verdict: Result<(), AuthError>)
        ensures
            verdict == self@.authorize(caller, OwnerView::Named(owner_name@)),
            verdict is Ok <==> self@.delegate_of(OwnerView::Named(owner_name@)) == Some(caller),
            verdict == Err::<(), AuthError>(AuthError::NotRegistered)
                <==> self@.delegate_of(OwnerView::Named(owner_name@)) is None,
            verdict == Err::<(), AuthError>(AuthError::CallerMismatch)
                <==> self@.delegate_of(OwnerView::Named(owner_name@)) is Some
                && self@.delegate_of(OwnerView::Named(owner_name@)) != Some(caller),
    {
        self.authorize(caller, &OwnerIdentity::Named(owner_name))
    }
}

} // verus!
