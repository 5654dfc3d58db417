//! The record kept for each registered delegate.

use vstd::prelude::*;
use vstd::std_specs::cmp::PartialEqSpecImpl;
use crate::identity::{OwnerIdentity, OwnerView};

verus! {

/// Metadata attached to a registered delegate: the owner it was created
/// for, and session data that the application defines. The registry stores
/// a record as it is given and never reads it.
#[derive(Debug, Eq)]
pub struct SignlessAccountRecord {
    pub owner: OwnerIdentity,
    pub metadata: Vec<u8>,
}

/// What a `SignlessAccountRecord` holds.
pub struct RecordView {
    pub owner: OwnerView,
    pub metadata: Seq<u8>,
}

impl View for SignlessAccountRecord {
    type V = RecordView;

    open spec fn view(&self) -> RecordView {
        RecordView { owner: self.owner@, metadata: self.metadata@ }
    }
}

/// What an optional record holds.
pub open spec fn view_of(record: Option<SignlessAccountRecord>) -> Option<RecordView> {
    match record {
        Some(record) => Some(record@),
        None => None,
    }
}

/// Whether two byte vectors hold the same bytes.
pub fn same_bytes(a: &Vec<u8>, b: &Vec<u8>) -> (same: bool)
    ensures
        same == (a@ == b@),
{
    if a.len() != b.len() {
        return false;
    }
    let mut i: usize = 0;
    while i < a.len()
        invariant
            a.len() == b.len(),
            i <= a.len(),
            forall|j: int| 0 <= j < i ==> a@[j] == b@[j],
        decreases a.len() - i,
    {
        if a[i] != b[i] {
            return false;
        }
        i += 1;
    }
    assert(a@ =~= b@);
    true
}

impl Clone for SignlessAccountRecord {
    fn clone(&self) -> (copy: Self)
        ensures
            copy@ == self@,
    {
        let metadata = self.metadata.clone();
        SignlessAccountRecord { owner: self.owner.clone(), metadata }
    }
}

impl PartialEq for SignlessAccountRecord {
    fn eq(&self, other: &Self) -> (same: bool) {
        self.owner == other.owner && same_bytes(&self.metadata, &other.metadata)
    }
}

impl PartialEqSpecImpl for SignlessAccountRecord {
    open spec fn obeys_eq_spec() -> bool {
        true
    }

    open spec fn eq_spec(&self, other: &Self) -> bool {
        self@ == other@
    }
}

} // verus!
