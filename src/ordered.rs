//! Maps that keep their entries in insertion order, held by `linked_hash_map`.
//!
//! Each map's contents are named as a sequence of entries in iteration order.
//! `LinkedHashMap::insert` replaces the value of a key that is present and
//! moves that entry to the back; a new key goes to the back.

use vstd::prelude::*;
use linked_hash_map::LinkedHashMap;
use crate::data_type::{DataType, DataTypeModel};
use crate::protocol::{Namespace, NamespaceModel};

verus! {

/// `LinkedHashMap` as an opaque type; its contents are known only through the
/// names below.
#[verifier::external_type_specification]
#[verifier::external_body]
#[verifier::reject_recursive_types(K)]
#[verifier::reject_recursive_types(V)]
#[verifier::reject_recursive_types(S)]
pub struct ExLinkedHashMap<K, V, S>(LinkedHashMap<K, V, S>);

/// The entries of `s` after inserting `v` under `k`: an entry with key `k`
/// leaves its place, and `(k, v)` is appended.
pub open spec fn upsert<V>(s: Seq<(Seq<char>, V)>, k: Seq<char>, v: V) -> Seq<(Seq<char>, V)> {
    s.filter(|e: (Seq<char>, V)| e.0 != k).push((k, v))
}

/// A map from names to data types, in insertion order.
///
/// A `DataType` holds such maps in turn, and a recursive type cannot pass
/// through the declared `LinkedHashMap`; so the map is held in a private field
/// of this type, which is opaque.
#[verifier::external_body]
#[derive(Debug, PartialEq, Eq)]
pub struct TypeMap {
    inner: LinkedHashMap<String, DataType>,
}

/// The entries of a [`TypeMap`], in iteration order.
pub uninterp spec fn type_entries(m: TypeMap) -> Seq<(Seq<char>, DataTypeModel)>;

/// The entries of a map from text to text, in iteration order.
pub uninterp spec fn mapping_entries(m: LinkedHashMap<String, String>) -> Seq<(Seq<char>, Seq<char>)>;

impl TypeMap {
    /// Relies on `LinkedHashMap::new`: the map is empty.
    #[verifier::external_body]
    pub(crate) fn new() -> (r: TypeMap)
        ensures
            type_entries(r) == Seq::<(Seq<char>, DataTypeModel)>::empty(),
    {
        TypeMap { inner: LinkedHashMap::new() }
    }

    /// Relies on `LinkedHashMap::insert`, as described for this module.
    #[verifier::external_body]
    pub(crate) fn insert(&mut self, k: String, v: DataType)
        ensures
            type_entries(*final(self)) == upsert(type_entries(*old(self)), k@, v.model()),
    {
        self.inner.insert(k, v);
    }

    /// A map with no entries.
    pub fn empty() -> (r: TypeMap)
        ensures
            type_entries(r) == Seq::<(Seq<char>, DataTypeModel)>::empty(),
    {
        TypeMap::new()
    }

    /// Puts `v` under `k`: an entry already under `k` leaves its place and the
    /// new entry goes to the back.
    pub fn put(&mut self, k: String, v: DataType)
        ensures
            type_entries(*final(self)) == upsert(type_entries(*old(self)), k@, v.model()),
    {
        self.insert(k, v);
    }
}

/// A map from names to namespaces, in insertion order. Opaque for the same
/// reason as [`TypeMap`].
#[verifier::external_body]
#[derive(Debug, PartialEq, Eq)]
pub struct NamespaceMap {
    inner: LinkedHashMap<String, Namespace>,
}

/// The entries of a [`NamespaceMap`], in iteration order.
pub uninterp spec fn namespace_entries(m: NamespaceMap) -> Seq<(Seq<char>, NamespaceModel)>;

impl NamespaceMap {
    /// Relies on `LinkedHashMap::new`: the map is empty.
    #[verifier::external_body]
    pub(crate) fn new() -> (r: NamespaceMap)
        ensures
            namespace_entries(r) == Seq::<(Seq<char>, NamespaceModel)>::empty(),
    {
        NamespaceMap { inner: LinkedHashMap::new() }
    }

    /// Relies on `LinkedHashMap::insert`, as described for this module.
    #[verifier::external_body]
    pub(crate) fn insert(&mut self, k: String, v: Namespace)
        ensures
            namespace_entries(*final(self)) == upsert(namespace_entries(*old(self)), k@, v.model()),
    {
        self.inner.insert(k, v);
    }

    /// A map with no entries.
    pub fn empty() -> (r: NamespaceMap)
        ensures
            namespace_entries(r) == Seq::<(Seq<char>, NamespaceModel)>::empty(),
    {
        NamespaceMap::new()
    }

    /// Puts `v` under `k`: an entry already under `k` leaves its place and the
    /// new entry goes to the back.
    pub fn put(&mut self, k: String, v: Namespace)
        ensures
            namespace_entries(*final(self)) == upsert(namespace_entries(*old(self)), k@, v.model()),
    {
        self.insert(k, v);
    }
}

/// Relies on `LinkedHashMap::new`: the map is empty.
#[verifier::external_body]
pub(crate) fn new_mapping() -> (r: LinkedHashMap<String, String>)
    ensures
        mapping_entries(r) == Seq::<(Seq<char>, Seq<char>)>::empty(),
{
    LinkedHashMap::new()
}

/// Relies on `LinkedHashMap::insert`, as described for this module.
#[verifier::external_body]
pub(crate) fn insert_mapping(m: &mut LinkedHashMap<String, String>, k: String, v: String)
    ensures
        mapping_entries(*final(m)) == upsert(mapping_entries(*old(m)), k@, v@),
{
    m.insert(k, v);
}

} // verus!
