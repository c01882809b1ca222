//! The doors to the caches of the settings.
//!
//! A cache is a `dashmap::DashMap` from an id to the stored text of a value.
//! A setting owns its caches and changes them through `&mut` alone, so no
//! other thread writes in between and a cache holds what was last put in.

use dashmap::DashMap;
use vstd::prelude::*;

verus! {

#[verifier::external_type_specification]
#[verifier::external_body]
#[verifier::reject_recursive_types(K)]
#[verifier::reject_recursive_types(V)]
#[verifier::reject_recursive_types(S)]
pub struct ExDashMap<K, V, S>(DashMap<K, V, S>);

/// The entries of a cache: the text stored under each id.
pub uninterp spec fn cached(cache: DashMap<u64, String>) -> Map<u64, Seq<char>>;

/// The cache without entries.
pub open spec fn no_entries() -> Map<u64, Seq<char>> {
    Map::empty()
}

/// `DashMap::new`: a cache without entries.
#[verifier::external_body]
pub(crate) fn cache_new() -> (cache: DashMap<u64, String>)
    ensures
        cached(cache) == no_entries(),
{
    DashMap::new()
}

/// `DashMap::get` with a clone of the value it finds: the text stored under
/// `id`, if one is.
#[verifier::external_body]
pub(crate) fn cache_get(cache: &DashMap<u64, String>, id: u64) -> (found: Option<String>)
    ensures
        match found {
            Some(text) => cached(*cache).contains_key(id) && cached(*cache)[id] == text@,
            None => !cached(*cache).contains_key(id),
        },
{
    cache.get(&id).map(|entry| entry.value().clone())
}

/// `DashMap::insert`: stores `text` under `id`, in place of what stood there.
#[verifier::external_body]
pub(crate) fn cache_insert(cache: &mut DashMap<u64, String>, id: u64, text: String)
    ensures
        cached(*final(cache)) == cached(*old(cache)).insert(id, text@),
    no_unwind
{
    cache.insert(id, text);
}

/// `DashMap::clear`: removes every entry.
#[verifier::external_body]
pub(crate) fn cache_clear(cache: &mut DashMap<u64, String>)
    ensures
        cached(*final(cache)) == no_entries(),
    no_unwind
{
    cache.clear();
}

} // verus!
