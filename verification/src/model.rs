//! The registry as mathematics: three maps, the rules that bind them, and
//! what each operation does to them.

use vstd::prelude::*;
use crate::errors::{AuthError, RegistrationError};
use crate::identity::{AddressBytes, OwnerView};
use crate::record::RecordView;

verus! {

/// The three mappings of a delegation registry.
pub struct RegistryView {
    /// Native owner address to its delegate.
    pub delegate_by_native_owner: Map<AddressBytes, AddressBytes>,
    /// Owner name to its delegate.
    pub delegate_by_named_owner: Map<Seq<char>, AddressBytes>,
    /// Delegate to its record.
    pub record_by_delegate: Map<AddressBytes, RecordView>,
}

impl RegistryView {
    /// The registry with no owner, no delegate and no record.
    pub open spec fn empty() -> RegistryView {
        RegistryView {
            delegate_by_native_owner: Map::empty(),
            delegate_by_named_owner: Map::empty(),
            record_by_delegate: Map::empty(),
        }
    }

    /// The delegate on file for `owner`, looked up in the map of its kind.
    pub open spec fn delegate_of(self, owner: OwnerView) -> Option<AddressBytes> {
        match owner {
            OwnerView::Native(address) => self.delegate_by_native_owner.index_opt(address),
            OwnerView::Named(name) => self.delegate_by_named_owner.index_opt(name),
        }
    }

    /// The record on file for `delegate`.
    pub open spec fn record_of(self, delegate: AddressBytes) -> Option<RecordView> {
        self.record_by_delegate.index_opt(delegate)
    }

    /// `delegate` is the delegate on file for `owner`.
    pub open spec fn serves(self, delegate: AddressBytes, owner: OwnerView) -> bool {
        self.delegate_of(owner) == Some(delegate)
    }

    /// `delegate` is on file for some owner.
    pub open spec fn is_bound(self, delegate: AddressBytes) -> bool {
        exists|owner: OwnerView| self.serves(delegate, owner)
    }

    /// `delegate` is on file for an owner that is not `owner`.
    pub open spec fn bound_to_other(self, owner: OwnerView, delegate: AddressBytes) -> bool {
        exists|other: OwnerView| other != owner && #[trigger] self.serves(delegate, other)
    }

    /// No delegate serves two distinct owners, across both owner maps.
    pub open spec fn unique_delegates(self) -> bool {
        forall|delegate: AddressBytes, a: OwnerView, b: OwnerView|
            #[trigger] self.serves(delegate, a) && #[trigger] self.serves(delegate, b) ==> a == b
    }

    /// A delegate has a record exactly when it is on file for some owner.
    pub open spec fn no_orphans(self) -> bool {
        forall|delegate: AddressBytes| #[trigger]
            self.record_by_delegate.contains_key(delegate) <==> self.is_bound(delegate)
    }

    /// The rules that every registry keeps.
    pub open spec fn wf(self) -> bool {
        self.unique_delegates() && self.no_orphans()
    }

    /// Two consequences of the rules, spelled out for one owner and one
    /// delegate, so that a caller's proof need not look for the owners
    /// that `bound_to_other` speaks of. First: `delegate` serves an owner
    /// other than `owner` exactly when it has a record and is not what
    /// `owner` has on file. Second: what `owner` has on file serves no
    /// other owner.
    pub open spec fn rules_at(self, owner: OwnerView, delegate: AddressBytes) -> bool {
        &&& self.bound_to_other(owner, delegate) <==> self.record_of(delegate) is Some
            && self.delegate_of(owner) != Some(delegate)
        &&& self.delegate_of(owner) matches Some(current) ==> !self.bound_to_other(owner, current)
    }

    /// The same registry with the owner maps changed at `owner` alone: it
    /// now has `delegate`, or none.
    pub open spec fn with_delegate(
        self,
        owner: OwnerView,
        delegate: Option<AddressBytes>,
    ) -> RegistryView {
        match owner {
            OwnerView::Native(address) => RegistryView {
                delegate_by_native_owner: match delegate {
                    Some(d) => self.delegate_by_native_owner.insert(address, d),
                    None => self.delegate_by_native_owner.remove(address),
                },
                ..self
            },
            OwnerView::Named(name) => RegistryView {
                delegate_by_named_owner: match delegate {
                    Some(d) => self.delegate_by_named_owner.insert(name, d),
                    None => self.delegate_by_named_owner.remove(name),
                },
                ..self
            },
        }
    }

    /// The registry without `owner`'s mapping. The record of the delegate
    /// that it had goes too, unless that delegate serves another owner.
    pub open spec fn unbind(self, owner: OwnerView) -> RegistryView {
        match self.delegate_of(owner) {
            None => self,
            Some(old) => RegistryView {
                record_by_delegate: if self.bound_to_other(owner, old) {
                    self.record_by_delegate
                } else {
                    self.record_by_delegate.remove(old)
                },
                ..self.with_delegate(owner, None)
            },
        }
    }

    /// The registry in which `owner` has `delegate`, and `delegate` has
    /// `record`. What `owner` had before is unbound first.
    pub open spec fn bind(
        self,
        owner: OwnerView,
        delegate: AddressBytes,
        record: RecordView,
    ) -> RegistryView {
        let cleared = self.unbind(owner);
        RegistryView {
            record_by_delegate: cleared.record_by_delegate.insert(delegate, record),
            ..cleared.with_delegate(owner, Some(delegate))
        }
    }

    /// What a registration answers: the new registry, or the reason why
    /// nothing changed.
    pub open spec fn register(
        self,
        owner: OwnerView,
        delegate: AddressBytes,
        record: RecordView,
    ) -> Result<RegistryView, RegistrationError> {
        if self.bound_to_other(owner, delegate) {
            Err(RegistrationError::DelegateAlreadyBound)
        } else {
            Ok(self.bind(owner, delegate, record))
        }
    }

    /// What a revocation answers: the new registry, or the reason why
    /// nothing changed.
    pub open spec fn revoke(self, owner: OwnerView) -> Result<RegistryView, RegistrationError> {
        if self.delegate_of(owner) is None {
            Err(RegistrationError::NotRegistered)
        } else {
            Ok(self.unbind(owner))
        }
    }

    /// What the authorization gate answers when `caller` claims to act for
    /// `owner`.
    pub open spec fn authorize(
        self,
        caller: AddressBytes,
        owner: OwnerView,
    ) -> Result<(), AuthError> {
        match self.delegate_of(owner) {
            None => Err(AuthError::NotRegistered),
            Some(delegate) => if delegate == caller {
                Ok(())
            } else {
                Err(AuthError::CallerMismatch)
            },
        }
    }

    /// The empty registry keeps the rules.
    pub proof fn lemma_empty_wf()
        ensures
            RegistryView::empty().wf(),
    {
        let empty = RegistryView::empty();
        assert forall|delegate: AddressBytes| #[trigger]
            empty.record_by_delegate.contains_key(delegate) <==> empty.is_bound(delegate) by {
            if empty.is_bound(delegate) {
                let owner = choose|owner: OwnerView| empty.serves(delegate, owner);
                assert(empty.delegate_of(owner) is None);
            }
        }
    }

    /// A registry that keeps the rules keeps them at every owner and
    /// delegate.
    pub proof fn lemma_rules_at(self, owner: OwnerView, delegate: AddressBytes)
        requires
            self.wf(),
        ensures
            self.rules_at(owner, delegate),
    {
        if self.bound_to_other(owner, delegate) {
            let other = choose|other: OwnerView| other != owner && self.serves(delegate, other);
            assert(self.is_bound(delegate));
            assert(!self.serves(delegate, owner));
        }
        if self.record_of(delegate) is Some && self.delegate_of(owner) != Some(delegate) {
            assert(self.is_bound(delegate));
            let other = choose|other: OwnerView| self.serves(delegate, other);
            assert(other != owner);
        }
        if self.delegate_of(owner) is Some {
            assert(self.serves(self.delegate_of(owner).unwrap(), owner));
        }
    }

    /// In a registry without orphans, the keys of the record map are the
    /// values of the two owner maps.
    pub proof fn lemma_records_match_values(self)
        requires
            self.no_orphans(),
        ensures
            self.record_by_delegate.dom() == self.delegate_by_native_owner.values().union(
                self.delegate_by_named_owner.values(),
            ),
    {
        let values = self.delegate_by_native_owner.values().union(
            self.delegate_by_named_owner.values(),
        );
        assert forall|delegate: AddressBytes|
            self.record_by_delegate.dom().contains(delegate) <==> values.contains(delegate) by {
            if self.is_bound(delegate) {
                let owner = choose|owner: OwnerView| self.serves(delegate, owner);
                match owner {
                    OwnerView::Native(address) => {
                        assert(self.delegate_by_native_owner.contains_value(delegate));
                    },
                    OwnerView::Named(name) => {
                        assert(self.delegate_by_named_owner.contains_value(delegate));
                    },
                }
            }
            if self.delegate_by_native_owner.values().contains(delegate) {
                let address = choose|address: AddressBytes|
                    self.delegate_by_native_owner.dom().contains(address)
                        && self.delegate_by_native_owner[address] == delegate;
                assert(self.serves(delegate, OwnerView::Native(address)));
            }
            if self.delegate_by_named_owner.values().contains(delegate) {
                let name = choose|name: Seq<char>|
                    self.delegate_by_named_owner.dom().contains(name)
                        && self.delegate_by_named_owner[name] == delegate;
                assert(self.serves(delegate, OwnerView::Named(name)));
            }
        }
    }

    /// After `with_delegate`, `owner` has what was given and every other
    /// owner has what it had.
    pub proof fn lemma_with_delegate(self, owner: OwnerView, delegate: Option<AddressBytes>)
        ensures
            self.with_delegate(owner, delegate).record_by_delegate == self.record_by_delegate,
            forall|o: OwnerView| #[trigger]
                self.with_delegate(owner, delegate).delegate_of(o) == (if o == owner {
                    delegate
                } else {
                    self.delegate_of(o)
                }),
    {
    }

    /// Unbinding keeps the rules.
    pub proof fn lemma_unbind_wf(self, owner: OwnerView)
        requires
            self.wf(),
        ensures
            self.unbind(owner).wf(),
    {
        let after = self.unbind(owner);
        if self.delegate_of(owner) is Some {
            let old = self.delegate_of(owner).unwrap();
            self.lemma_rules_at(owner, old);
            self.lemma_with_delegate(owner, None);
            assert forall|o: OwnerView| #[trigger] after.delegate_of(o) == (if o == owner {
                None
            } else {
                self.delegate_of(o)
            }) by {
                assert(after.delegate_of(o) == self.with_delegate(owner, None).delegate_of(o));
            }
            assert forall|d: AddressBytes, a: OwnerView, b: OwnerView| #[trigger]
                after.serves(d, a) && #[trigger] after.serves(d, b) implies a == b by {
                assert(self.serves(d, a) && self.serves(d, b));
            }
            assert forall|d: AddressBytes| #[trigger]
                after.record_by_delegate.contains_key(d) <==> after.is_bound(d) by {
                if after.record_by_delegate.contains_key(d) {
                    assert(self.is_bound(d) && d != old);
                    let o = choose|o: OwnerView| self.serves(d, o);
                    assert(after.serves(d, o));
                }
                if after.is_bound(d) {
                    let o = choose|o: OwnerView| after.serves(d, o);
                    assert(self.serves(d, o) && self.serves(old, owner));
                    assert(d != old);
                }
            }
        }
    }

    /// Binding a delegate that serves no other owner keeps the rules.
    pub proof fn lemma_bind_wf(self, owner: OwnerView, delegate: AddressBytes, record: RecordView)
        requires
            self.wf(),
            !self.bound_to_other(owner, delegate),
        ensures
            self.bind(owner, delegate, record).wf(),
    {
        let cleared = self.unbind(owner);
        let after = self.bind(owner, delegate, record);
        self.lemma_unbind_wf(owner);
        self.lemma_with_delegate(owner, None);
        cleared.lemma_with_delegate(owner, Some(delegate));
        assert forall|o: OwnerView| #[trigger] cleared.delegate_of(o) == (if o == owner {
            None
        } else {
            self.delegate_of(o)
        }) by {
            if self.delegate_of(owner) is Some {
                assert(cleared.delegate_of(o) == self.with_delegate(owner, None).delegate_of(o));
            }
        }
        assert forall|o: OwnerView| #[trigger] after.delegate_of(o) == (if o == owner {
            Some(delegate)
        } else {
            self.delegate_of(o)
        }) by {
            assert(after.delegate_of(o) == cleared.with_delegate(
                owner,
                Some(delegate),
            ).delegate_of(o));
        }
        assert forall|d: AddressBytes, a: OwnerView, b: OwnerView| #[trigger]
            after.serves(d, a) && #[trigger] after.serves(d, b) implies a == b by {
            if a != owner {
                assert(self.serves(d, a));
            }
            if b != owner {
                assert(self.serves(d, b));
            }
        }
        assert forall|d: AddressBytes| #[trigger]
            after.record_by_delegate.contains_key(d) <==> after.is_bound(d) by {
            if after.record_by_delegate.contains_key(d) {
                if d == delegate {
                    assert(after.serves(d, owner));
                } else {
                    assert(cleared.is_bound(d));
                    let o = choose|o: OwnerView| cleared.serves(d, o);
                    assert(after.serves(d, o));
                }
            }
            if after.is_bound(d) {
                let o = choose|o: OwnerView| after.serves(d, o);
                if o != owner {
                    assert(cleared.serves(d, o));
                }
            }
        }
    }
}

} // verus!
