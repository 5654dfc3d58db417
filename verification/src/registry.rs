//! The delegation registry: which delegate acts for which owner, and the
//! record of each delegate.

use vstd::prelude::*;
use crate::errors::RegistrationError;
use crate::identity::{AddressBytes, DelegateIdentity, OwnerIdentity, OwnerView};
use crate::model::RegistryView;
use crate::record::{view_of, SignlessAccountRecord};
use crate::tables::{
    named_owner_entries, named_owner_table_get, named_owner_table_insert, named_owner_table_new,
    named_owner_table_remove, native_owner_entries, native_owner_table_get,
    native_owner_table_insert, native_owner_table_new, native_owner_table_remove, record_entries,
    record_table_get, record_table_insert, record_table_new, record_table_remove, NamedOwnerTable,
    NativeOwnerTable, RecordTable,
};

verus! {

/// The three tables side by side, with nothing said of how they relate.
struct Tables {
    delegate_by_native_owner: NativeOwnerTable,
    delegate_by_named_owner: NamedOwnerTable,
    record_by_delegate: RecordTable,
}

impl Tables {
    spec fn view(&self) -> RegistryView {
        RegistryView {
            delegate_by_native_owner: native_owner_entries(self.delegate_by_native_owner),
            delegate_by_named_owner: named_owner_entries(self.delegate_by_named_owner),
            record_by_delegate: record_entries(self.record_by_delegate),
        }
    }

    fn new() -> (tables: Tables)
        ensures
            tables.view() == RegistryView::empty(),
    {
        Tables {
            delegate_by_native_owner: native_owner_table_new(),
            delegate_by_named_owner: named_owner_table_new(),
            record_by_delegate: record_table_new(),
        }
    }

    /// Looks `owner` up in the table of its kind.
    fn delegate_of(&self, owner: &OwnerIdentity) -> (found: Option<AddressBytes>)
        ensures
            found == self.view().delegate_of(owner@),
    {
        match owner {
            OwnerIdentity::Native(address) => native_owner_table_get(
                &self.delegate_by_native_owner,
                address,
            ),
            OwnerIdentity::Named(name) => named_owner_table_get(
                &self.delegate_by_named_owner,
                name,
            ),
        }
    }

    /// Writes `delegate` for `owner` into the table of its kind.
    fn set_delegate(&mut self, owner: OwnerIdentity, delegate: AddressBytes)
        ensures
            final(self).view() == old(self).view().with_delegate(owner@, Some(delegate)),
    {
        match owner {
            OwnerIdentity::Native(address) => native_owner_table_insert(
                &mut self.delegate_by_native_owner,
                address,
                delegate,
            ),
            OwnerIdentity::Named(name) => named_owner_table_insert(
                &mut self.delegate_by_named_owner,
                name,
                delegate,
            ),
        }
    }

    /// Takes `owner` out of the table of its kind.
    fn clear_delegate(&mut self, owner: &OwnerIdentity) -> (taken: Option<AddressBytes>)
        ensures
            final(self).view() == old(self).view().with_delegate(owner@, None),
            taken == old(self).view().delegate_of(owner@),
    {
        match owner {
            OwnerIdentity::Native(address) => native_owner_table_remove(
                &mut self.delegate_by_native_owner,
                address,
            ),
            OwnerIdentity::Named(name) => named_owner_table_remove(
                &mut self.delegate_by_named_owner,
                name,
            ),
        }
    }

    fn register(
        &mut self,
        owner: OwnerIdentity,
        delegate: AddressBytes,
        record: SignlessAccountRecord,
    ) -> (outcome: Result<(), RegistrationError>)
        requires
            old(self).view().wf(),
        ensures
            final(self).view().wf(),
            match old(self).view().register(owner@, delegate, record@) {
                Ok(after) => outcome is Ok && final(self).view() == after,
                Err(reason) => outcome == Err::<(), RegistrationError>(reason) && final(self).view()
                    == old(self).view(),
            },
            old(self).view().rules_at(owner@, delegate),
    {
        let ghost before = self.view();
        proof {
            before.lemma_rules_at(owner@, delegate);
        }
        let current = self.delegate_of(&owner);
        let rebinding = match current {
            Some(old_delegate) => old_delegate == delegate,
            None => false,
        };
        if !rebinding {
            if record_table_get(&self.record_by_delegate, &delegate).is_some() {
                return Err(RegistrationError::DelegateAlreadyBound);
            }
            if let Some(old_delegate) = current {
                record_table_remove(&mut self.record_by_delegate, &old_delegate);
            }
            self.set_delegate(owner, delegate);
        }
        record_table_insert(&mut self.record_by_delegate, delegate, record);
        proof {
            before.lemma_bind_wf(owner@, delegate, record@);
            let after = before.bind(owner@, delegate, record@);
            assert(self.view().delegate_by_native_owner =~= after.delegate_by_native_owner);
            assert(self.view().delegate_by_named_owner =~= after.delegate_by_named_owner);
            assert(self.view().record_by_delegate =~= after.record_by_delegate);
        }
        Ok(())
    }

    fn revoke(&mut self, owner: &OwnerIdentity) -> (outcome: Result<(), RegistrationError>)
        requires
            old(self).view().wf(),
        ensures
            final(self).view().wf(),
            match old(self).view().revoke(owner@) {
                Ok(after) => outcome is Ok && final(self).view() == after,
                Err(reason) => outcome == Err::<(), RegistrationError>(reason) && final(self).view()
                    == old(self).view(),
            },
            old(self).view().delegate_of(owner@) matches Some(current)
                ==> old(self).view().rules_at(owner@, current),
    {
        let ghost before = self.view();
        match self.clear_delegate(owner) {
            None => {
                proof {
                    assert(self.view().delegate_by_native_owner
                        =~= before.delegate_by_native_owner);
                    assert(self.view().delegate_by_named_owner =~= before.delegate_by_named_owner);
                }
                Err(RegistrationError::NotRegistered)
            },
            Some(old_delegate) => {
                record_table_remove(&mut self.record_by_delegate, &old_delegate);
                proof {
                    before.lemma_rules_at(owner@, old_delegate);
                    before.lemma_unbind_wf(owner@);
                }
                Ok(())
            },
        }
    }
}

/// The registry of delegations. Every value of this type keeps the rules
/// `RegistryView::wf`: no delegate serves two owners, and the delegates
/// that have a record are exactly those that serve an owner.
pub struct DelegationRegistry {
    tables: Tables,
}

impl View for DelegationRegistry {
    type V = RegistryView;

    closed spec fn view(&self) -> RegistryView {
        self.tables.view()
    }
}

impl Default for DelegationRegistry {
    /// An empty registry.
    fn default() -> (registry: Self)
        ensures
            registry@ == RegistryView::empty(),
            registry@.wf(),
    {
        DelegationRegistry::new()
    }
}

impl DelegationRegistry {
    #[verifier::type_invariant]
    spec fn keeps_rules(self) -> bool {
        self.tables.view().wf()
    }

    /// An empty registry.
    pub fn new() -> (registry: DelegationRegistry)
        ensures
            registry@ == RegistryView::empty(),
            registry@.wf(),
    {
        proof {
            RegistryView::lemma_empty_wf();
        }
        DelegationRegistry { tables: Tables::new() }
    }

    /// Moves the tables out, leaving an empty registry behind, so that a
    /// change of several steps is put back in one piece.
    fn take_tables(&mut self) -> (tables: Tables)
        ensures
            tables.view() == old(self)@,
            tables.view().wf(),
    {
        proof {
            use_type_invariant(&*self);
            RegistryView::lemma_empty_wf();
        }
        let mut tables = Tables::new();
        core::mem::swap(&mut self.tables, &mut tables);
        tables
    }

    /// Registers `delegate`, with `record`, for the native owner `owner`,
    /// in place of the delegate that `owner` had. Refused, with nothing
    /// changed, if `delegate` serves a different owner.
    ///
    /// The last clause says of the registry before the call what
    /// `RegistryView::rules_at` spells out, so that a caller can tell the
    /// two outcomes apart by looking at the maps.
    pub fn register_for_native_owner(
        &mut self,
        owner: AddressBytes,
        delegate: DelegateIdentity,
        record: SignlessAccountRecord,
    ) -> (outcome: Result<(), RegistrationError>)
        ensures
            final(self)@.wf(),
            match old(self)@.register(OwnerView::Native(owner), delegate, record@) {
                Ok(after) => outcome is Ok && final(self)@ == after,
                Err(reason) => outcome == Err::<(), RegistrationError>(reason) && final(self)@
                    == old(self)@,
            },
            old(self)@.rules_at(OwnerView::Native(owner), delegate),
    {
        let mut tables = self.take_tables();
        let outcome = tables.register(OwnerIdentity::Native(owner), delegate, record);
        self.tables = tables;
        outcome
    }

    /// Registers `delegate`, with `record`, for the owner named `owner`,
    /// in place of the delegate that `owner` had. Refused, with nothing
    /// changed, if `delegate` serves a different owner.
    ///
    /// The last clause says of the registry before the call what
    /// `RegistryView::rules_at` spells out, so that a caller can tell the
    /// two outcomes apart by looking at the maps.
    pub fn register_for_named_owner(
        &mut self,
        owner: String,
        delegate: DelegateIdentity,
        record: SignlessAccountRecord,
    ) -> (outcome: Result<(), RegistrationError>)
        ensures
            final(self)@.wf(),
            match old(self)@.register(OwnerView::Named(owner@), delegate, record@) {
                Ok(after) => outcome is Ok && final(self)@ == after,
                Err(reason) => outcome == Err::<(), RegistrationError>(reason) && final(self)@
                    == old(self)@,
            },
            old(self)@.rules_at(OwnerView::Named(owner@), delegate),
    {
        let mut tables = self.take_tables();
        let outcome = tables.register(OwnerIdentity::Named(owner), delegate, record);
        self.tables = tables;
        outcome
    }

    /// Removes the mapping of `owner` and the record of its delegate.
    /// Refused, with nothing changed, if `owner` has no delegate.
    ///
    /// The last clause says that the delegate which `owner` had served no
    /// other owner, so that its record is known to be gone.
    pub fn revoke(&mut self, owner: OwnerIdentity) -> (outcome: Result<(), RegistrationError>)
        ensures
            final(self)@.wf(),
            match old(self)@.revoke(owner@) {
                Ok(after) => outcome is Ok && final(self)@ == after,
                Err(reason) => outcome == Err::<(), RegistrationError>(reason) && final(self)@
                    == old(self)@,
            },
            old(self)@.delegate_of(owner@) matches Some(current)
                ==> old(self)@.rules_at(owner@, current),
    {
        let mut tables = self.take_tables();
        let outcome = tables.revoke(&owner);
        self.tables = tables;
        outcome
    }

    /// The delegate on file for `owner`.
    pub fn delegate_of(&self, owner: &OwnerIdentity) -> (found: Option<DelegateIdentity>)
        ensures
            self@.wf(),
            found == self@.delegate_of(owner@),
    {
        proof {
            use_type_invariant(self);
        }
        self.tables.delegate_of(owner)
    }

    /// A copy of the record on file for `delegate`.
    pub fn record_of(&self, delegate: &DelegateIdentity) -> (found: Option<SignlessAccountRecord>)
        ensures
            self@.wf(),
            view_of(found) == self@.record_of(*delegate),
    {
        proof {
            use_type_invariant(self);
        }
        match record_table_get(&self.tables.record_by_delegate, delegate) {
            Some(record) => Some(record.clone()),
            None => None,
        }
    }
}

} // verus!
