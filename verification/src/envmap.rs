//! Declarations for the ordered maps of the `indexmap` crate that hold
//! declared environment entries and task tables.

use vstd::prelude::*;

use indexmap::IndexMap;

use crate::types::EnvValue;

verus! {

/// Declares indexmap's `IndexMap` — the ordered map holding declared
/// environment entries and task tables — so that it can stand in fields and
/// signatures; its values are opaque here.
#[verifier::external_type_specification]
#[verifier::external_body]
#[verifier::reject_recursive_types(K)]
#[verifier::reject_recursive_types(V)]
#[verifier::reject_recursive_types(S)]
pub struct ExIndexMap<K, V, S>(IndexMap<K, V, S>);

/// The key-value pairs held by a declared-environment map, in their stored
/// (insertion) order.
pub uninterp spec fn env_map_entries(m: IndexMap<String, EnvValue>) -> Seq<(String, EnvValue)>;

/// Relies on indexmap's `IndexMap::iter`: it yields the key-value pairs in
/// their stored (insertion) order.
#[verifier::external_body]
pub(crate) fn env_map_entry_list(m: &IndexMap<String, EnvValue>) -> (r: Vec<(String, EnvValue)>)
    ensures
        r@ == env_map_entries(*m),
{
    m.iter().map(|(k, v)| (k.clone(), v.clone())).collect()
}

} // verus!
