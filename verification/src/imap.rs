//! Trusted interface to the insertion-ordered map that backs the plugin
//! registry's key lookup.
//!
//! The registry keeps its records in a vector in registration order; the
//! `IndexMap` maps a plugin key to that vector index. Only the contents of
//! the map, as the uninterpreted `key_index_entries`, are exposed to proofs.

use vstd::prelude::*;

use std::collections::hash_map::RandomState;

verus! {

#[verifier::external_type_specification]
#[verifier::external_body]
#[verifier::reject_recursive_types(K)]
#[verifier::reject_recursive_types(V)]
#[verifier::reject_recursive_types(S)]
pub struct ExIndexMap<K, V, S>(indexmap::IndexMap<K, V, S>);

/// The concrete map type the registry uses: plugin key to vector index.
pub type KeyIndexMap = indexmap::IndexMap<u64, usize, RandomState>;

/// The key-to-index contents of a registry lookup map.
pub uninterp spec fn key_index_entries(m: KeyIndexMap) -> Map<u64, usize>;

/// Whether the map holds no entries at all.
pub open spec fn key_index_is_empty(m: KeyIndexMap) -> bool {
    key_index_entries(m) == Map::<u64, usize>::empty()
}

/// Relies on `indexmap::IndexMap::new`: creates an empty map.
#[verifier::external_body]
pub(crate) fn key_index_new() -> (r: KeyIndexMap)
    ensures
        key_index_is_empty(r),
{
    indexmap::IndexMap::new()
}

/// Relies on `indexmap::IndexMap::insert`: a new key is inserted (last in
/// order) and `None` is returned; an existing key keeps its place, its value
/// is replaced, and the old value is returned.
#[verifier::external_body]
pub(crate) fn key_index_insert(m: &mut KeyIndexMap, k: u64, v: usize) -> (r: Option<usize>)
    ensures
        key_index_entries(*final(m)) == key_index_entries(*old(m)).insert(k, v),
        match r {
            Some(prev) => key_index_entries(*old(m)).dom().contains(k) && prev == key_index_entries(
                *old(m),
            )[k],
            None => !key_index_entries(*old(m)).dom().contains(k),
        },
{
    m.insert(k, v)
}

/// Relies on `indexmap::IndexMap::contains_key`.
#[verifier::external_body]
pub(crate) fn key_index_contains(m: &KeyIndexMap, k: u64) -> (r: bool)
    ensures
        r == key_index_entries(*m).dom().contains(k),
{
    m.contains_key(&k)
}

/// Relies on `indexmap::IndexMap::get`: returns the value stored for the
/// key, if the key is present.
#[verifier::external_body]
pub(crate) fn key_index_get(m: &KeyIndexMap, k: u64) -> (r: Option<usize>)
    ensures
        match r {
            Some(v) => key_index_entries(*m).dom().contains(k) && v == key_index_entries(*m)[k],
            None => !key_index_entries(*m).dom().contains(k),
        },
{
    m.get(&k).copied()
}

} // verus!
