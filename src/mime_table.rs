//! The extension-to-MIME table, kept in Bevy's `HashMap`.
use bevy_platform::collections::HashMap;
use bevy_platform::hash::FixedHasher;
use vstd::prelude::*;

verus! {

#[verifier::external_type_specification]
#[verifier::external_body]
#[verifier::reject_recursive_types(K)]
#[verifier::reject_recursive_types(V)]
#[verifier::reject_recursive_types(S)]
pub struct ExHashMap<K, V, S>(HashMap<K, V, S>);

#[verifier::external_type_specification]
#[verifier::external_body]
pub struct ExFixedHasher(FixedHasher);

/// The table from file extension to MIME type, as extension and MIME type
/// strings.
pub type MimeTable = HashMap<&'static str, &'static str>;

/// What a table holds: each extension it knows, mapped to its MIME type.
pub uninterp spec fn table_entries(m: MimeTable) -> Map<Seq<char>, Seq<char>>;

/// Relies on `bevy_platform::collections::HashMap::new`: a new map is empty.
#[verifier::external_body]
pub(crate) fn table_new() -> (r: MimeTable)
    ensures
        table_entries(r).dom() == Set::<Seq<char>>::empty(),
{
    HashMap::new()
}

/// Relies on `bevy_platform::collections::HashMap::insert`: the key (compared
/// by its text) now maps to the value, every other key keeps its value.
#[verifier::external_body]
pub(crate) fn table_insert(m: &mut MimeTable, k: &'static str, v: &'static str)
    ensures
        table_entries(*final(m)) == table_entries(*old(m)).insert(k@, v@),
{
    m.insert(k, v);
}

/// Relies on `bevy_platform::collections::HashMap::get`: the value stored
/// under a key equal to `k`, if there is one.
#[verifier::external_body]
pub(crate) fn table_get(m: &MimeTable, k: &str) -> (r: Option<&'static str>)
    ensures
        match r {
            Some(v) => table_entries(*m).contains_key(k@) && table_entries(*m)[k@] == v@,
            None => !table_entries(*m).contains_key(k@),
        },
{
    m.get(k).copied()
}

/// Relies on `bevy_platform::collections::HashMap::keys`: every key once, in
/// an order the map does not promise.
#[verifier::external_body]
pub(crate) fn table_keys(m: &MimeTable) -> (r: Vec<&'static str>)
    ensures
        r@.map_values(|k: &'static str| k@).no_duplicates(),
        r@.map_values(|k: &'static str| k@).to_set() == table_entries(*m).dom(),
{
    m.keys().copied().collect()
}

} // verus!
