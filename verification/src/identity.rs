//! Identities: raw addresses and the two kinds of account owner.

use vstd::prelude::*;
use vstd::std_specs::cmp::PartialEqSpecImpl;

verus! {

/// A raw 32-byte account address.
#[derive(Clone, Copy, Debug, Eq)]
pub struct AddressBytes {
    pub bytes: [u8; 32],
}

/// The address that is permitted to act for an owner.
pub type DelegateIdentity = AddressBytes;

/// The address that the host asserts for the current call.
pub type CallerIdentity = AddressBytes;

impl AddressBytes {
    /// The address made of the given bytes.
    pub fn new(bytes: [u8; 32]) -> (address: Self)
        ensures
            address.bytes == bytes,
    {
        AddressBytes { bytes }
    }

    /// Every byte of the address is zero.
    pub open spec fn is_zero(self) -> bool {
        forall|i: int| 0 <= i < 32 ==> self.bytes@[i] == 0u8
    }

    /// The address whose 32 bytes are all zero.
    pub fn zero() -> (address: Self)
        ensures
            address.is_zero(),
    {
        AddressBytes { bytes: [0u8; 32] }
    }
}

impl Default for AddressBytes {
    fn default() -> (address: Self)
        ensures
            address.is_zero(),
    {
        AddressBytes::zero()
    }
}

impl PartialEq for AddressBytes {
    fn eq(&self, other: &Self) -> (same: bool) {
        let mut i: usize = 0;
        while i < 32
            invariant
                i <= 32,
                forall|j: int| 0 <= j < i ==> self.bytes@[j] == other.bytes@[j],
            decreases 32 - i,
        {
            if self.bytes[i] != other.bytes[i] {
                return false;
            }
            i += 1;
        }
        assert(self.bytes == other.bytes);
        true
    }
}

impl PartialEqSpecImpl for AddressBytes {
    open spec fn obeys_eq_spec() -> bool {
        true
    }

    open spec fn eq_spec(&self, other: &Self) -> bool {
        *self == *other
    }
}

/// An account owner: a wallet-bearing account known by its address, or a
/// walletless account known only by an assigned name. The two kinds are
/// never equal, whatever the name spells.
#[derive(Debug, Eq)]
pub enum OwnerIdentity {
    Native(AddressBytes),
    Named(String),
}

/// What an `OwnerIdentity` stands for: the address, or the characters of
/// the name.
pub enum OwnerView {
    Native(AddressBytes),
    Named(Seq<char>),
}

impl View for OwnerIdentity {
    type V = OwnerView;

    open spec fn view(&self) -> OwnerView {
        match self {
            OwnerIdentity::Native(address) => OwnerView::Native(*address),
            OwnerIdentity::Named(name) => OwnerView::Named(name@),
        }
    }
}

impl Clone for OwnerIdentity {
    fn clone(&self) -> (copy: Self)
        ensures
            copy@ == self@,
    {
        match self {
            OwnerIdentity::Native(address) => OwnerIdentity::Native(*address),
            OwnerIdentity::Named(name) => OwnerIdentity::Named(name.clone()),
        }
    }
}

impl PartialEq for OwnerIdentity {
    fn eq(&self, other: &Self) -> (same: bool) {
        match (self, other) {
            (OwnerIdentity::Native(a), OwnerIdentity::Native(b)) => *a == *b,
            (OwnerIdentity::Named(a), OwnerIdentity::Named(b)) => *a == *b,
            _ => false,
        }
    }
}

impl PartialEqSpecImpl for OwnerIdentity {
    open spec fn obeys_eq_spec() -> bool {
        true
    }

    open spec fn eq_spec(&self, other: &Self) -> bool {
        self@ == other@
    }
}

} // verus!
