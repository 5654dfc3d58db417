//! The three hash tables of the registry. They are `hashbrown` maps, as
//! `sails_rs::collections::HashMap` hands them on. Nothing in this file is
//! proved: each contract restates, over the entries of a table, what the
//! map's documentation says of one call.
//!
//! A table grows when an entry is added. Like every growing collection it
//! ends the process when memory runs out; the contracts say nothing of
//! that.

use vstd::prelude::*;
use sails_rs::collections::HashMap;
use crate::identity::AddressBytes;
use crate::record::{RecordView, SignlessAccountRecord};

verus! {

/// A `HashMap` from the 32 bytes of a native owner's address to the
/// owner's delegate.
#[verifier::external_body]
pub struct NativeOwnerTable {
    inner: HashMap<[u8; 32], AddressBytes>,
}

/// A `HashMap` from an owner's name to the owner's delegate.
#[verifier::external_body]
pub struct NamedOwnerTable {
    inner: HashMap<String, AddressBytes>,
}

/// A `HashMap` from the 32 bytes of a delegate's address to the delegate's
/// record.
#[verifier::external_body]
pub struct RecordTable {
    inner: HashMap<[u8; 32], SignlessAccountRecord>,
}

/// The entries of a `NativeOwnerTable`. A key of 32 bytes stands for the
/// address made of them: two keys are the same key of the map exactly when
/// they are the same address.
pub uninterp spec fn native_owner_entries(table: NativeOwnerTable) -> Map<AddressBytes, AddressBytes>;

/// The entries of a `NamedOwnerTable`. A key stands for the characters of
/// the name: two strings are the same key of the map exactly when they
/// hold the same characters.
pub uninterp spec fn named_owner_entries(table: NamedOwnerTable) -> Map<Seq<char>, AddressBytes>;

/// The entries of a `RecordTable`. A key of 32 bytes stands for the address
/// made of them, a value for what the stored record holds.
pub uninterp spec fn record_entries(table: RecordTable) -> Map<AddressBytes, RecordView>;

/// `HashMap::new`: the new map has no entry.
#[verifier::external_body]
pub(crate) fn native_owner_table_new() -> (table: NativeOwnerTable)
    ensures
        native_owner_entries(table) == (Map::<AddressBytes, AddressBytes>::empty()),
{
    NativeOwnerTable { inner: HashMap::new() }
}

/// `HashMap::get`: the value stored at the key, or `None` if the map does
/// not hold the key.
#[verifier::external_body]
pub(crate) fn native_owner_table_get(
    table: &NativeOwnerTable,
    owner: &AddressBytes,
) -> (found: Option<AddressBytes>)
    ensures
        found == native_owner_entries(*table).index_opt(*owner),
{
    table.inner.get(&owner.bytes).copied()
}

/// `HashMap::insert`: afterwards the map holds the value at the key, in
/// place of any value that was there, and every other key as before.
#[verifier::external_body]
pub(crate) fn native_owner_table_insert(
    table: &mut NativeOwnerTable,
    owner: AddressBytes,
    delegate: AddressBytes,
)
    ensures
        native_owner_entries(*final(table)) == native_owner_entries(*old(table)).insert(
            owner,
            delegate,
        ),
{
    table.inner.insert(owner.bytes, delegate);
}

/// `HashMap::remove`: afterwards the map does not hold the key, and holds
/// every other key as before. The value that was at the key is returned,
/// or `None` if the map did not hold the key.
#[verifier::external_body]
pub(crate) fn native_owner_table_remove(
    table: &mut NativeOwnerTable,
    owner: &AddressBytes,
) -> (taken: Option<AddressBytes>)
    ensures
        native_owner_entries(*final(table)) == native_owner_entries(*old(table)).remove(*owner),
        taken == native_owner_entries(*old(table)).index_opt(*owner),
{
    table.inner.remove(&owner.bytes)
}

/// `HashMap::new`: the new map has no entry.
#[verifier::external_body]
pub(crate) fn named_owner_table_new() -> (table: NamedOwnerTable)
    ensures
        named_owner_entries(table) == (Map::<Seq<char>, AddressBytes>::empty()),
{
    NamedOwnerTable { inner: HashMap::new() }
}

/// `HashMap::get`: the value stored at the key, or `None` if the map does
/// not hold the key.
#[verifier::external_body]
pub(crate) fn named_owner_table_get(
    table: &NamedOwnerTable,
    owner: &String,
) -> (found: Option<AddressBytes>)
    ensures
        found == named_owner_entries(*table).index_opt(owner@),
{
    table.inner.get(owner).copied()
}

/// `HashMap::insert`: afterwards the map holds the value at the key, in
/// place of any value that was there, and every other key as before.
#[verifier::external_body]
pub(crate) fn named_owner_table_insert(
    table: &mut NamedOwnerTable,
    owner: String,
    delegate: AddressBytes,
)
    ensures
        named_owner_entries(*final(table)) == named_owner_entries(*old(table)).insert(
            owner@,
            delegate,
        ),
{
    table.inner.insert(owner, delegate);
}

/// `HashMap::remove`: afterwards the map does not hold the key, and holds
/// every other key as before. The value that was at the key is returned,
/// or `None` if the map did not hold the key.
#[verifier::external_body]
pub(crate) fn named_owner_table_remove(
    table: &mut NamedOwnerTable,
    owner: &String,
) -> (taken: Option<AddressBytes>)
    ensures
        named_owner_entries(*final(table)) == named_owner_entries(*old(table)).remove(owner@),
        taken == named_owner_entries(*old(table)).index_opt(owner@),
{
    table.inner.remove(owner)
}

/// `HashMap::new`: the new map has no entry.
#[verifier::external_body]
pub(crate) fn record_table_new() -> (table: RecordTable)
    ensures
        record_entries(table) == (Map::<AddressBytes, RecordView>::empty()),
{
    RecordTable { inner: HashMap::new() }
}

/// `HashMap::get`: a reference to the value stored at the key, or `None`
/// if the map does not hold the key.
#[verifier::external_body]
pub(crate) fn record_table_get<'a>(
    table: &'a RecordTable,
    delegate: &AddressBytes,
) -> (found: Option<&'a SignlessAccountRecord>)
    ensures
        found is Some == record_entries(*table).contains_key(*delegate),
        found matches Some(record) ==> record@ == record_entries(*table)[*delegate],
{
    table.inner.get(&delegate.bytes)
}

/// `HashMap::insert`: afterwards the map holds the value at the key, in
/// place of any value that was there, and every other key as before.
#[verifier::external_body]
pub(crate) fn record_table_insert(
    table: &mut RecordTable,
    delegate: AddressBytes,
    record: SignlessAccountRecord,
)
    ensures
        record_entries(*final(table)) == record_entries(*old(table)).insert(delegate, record@),
{
    table.inner.insert(delegate.bytes, record);
}

/// `HashMap::remove`: afterwards the map does not hold the key, and holds
/// every other key as before.
#[verifier::external_body]
pub(crate) fn record_table_remove(table: &mut RecordTable, delegate: &AddressBytes)
    ensures
        record_entries(*final(table)) == record_entries(*old(table)).remove(*delegate),
{
    table.inner.remove(&delegate.bytes);
}

} // verus!
