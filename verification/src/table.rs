//! The routing table: a `DashMap` from path to endpoint.
//!
//! The verifier cannot look into a `DashMap`. Contracts speak of what it
//! holds, by [`table_of`], and each function here is one call into
//! `dashmap` whose contract is believed, not proved. The map is only ever
//! changed through `&mut`, so what a shared reference sees stays as it is.

use crate::endpoint::Endpoint;
use dashmap::DashMap;
use std::sync::Arc;
use vstd::prelude::*;

verus! {

/// `dashmap::DashMap`, taken as a whole: nothing of its inside is known but
/// what [`table_of`] names.
#[verifier::external_type_specification]
#[verifier::external_body]
#[verifier::reject_recursive_types(K)]
#[verifier::reject_recursive_types(V)]
#[verifier::reject_recursive_types(S)]
pub struct ExDashMap<K, V, S>(DashMap<K, V, S>);

/// The entries of a routing table: the endpoint under each path.
pub uninterp spec fn table_of(table: DashMap<String, Arc<Endpoint>>) -> Map<Seq<char>, Endpoint>;

/// `DashMap::new`: a table without entries.
#[verifier::external_body]
pub(crate) fn table_new() -> (table: DashMap<String, Arc<Endpoint>>)
    ensures
        table_of(table) == (Map::<Seq<char>, Endpoint>::empty()),
{
    DashMap::new()
}

/// `DashMap::insert`: puts `endpoint` under `path`, in place of what was
/// there, and hands back what was there.
#[verifier::external_body]
pub(crate) fn table_insert(
    table: &mut DashMap<String, Arc<Endpoint>>,
    path: String,
    endpoint: Arc<Endpoint>,
) -> (earlier: Option<Arc<Endpoint>>)
    ensures
        table_of(*final(table)) == table_of(*old(table)).insert(path@, *endpoint),
        match earlier {
            Some(former) => table_of(*old(table)).contains_key(path@) && *former == table_of(
                *old(table),
            )[path@],
            None => !table_of(*old(table)).contains_key(path@),
        },
{
    table.insert(path, endpoint)
}

/// `DashMap::get`: the endpoint under `path`, shared, or `None` where the
/// table has no such path.
#[verifier::external_body]
pub(crate) fn table_get(table: &DashMap<String, Arc<Endpoint>>, path: &str) -> (found: Option<
    Arc<Endpoint>,
>)
    ensures
        match found {
            Some(endpoint) => table_of(*table).contains_key(path@) && *endpoint == table_of(
                *table,
            )[path@],
            None => !table_of(*table).contains_key(path@),
        },
{
    table.get(path).map(|entry| entry.value().clone())
}

/// `DashMap::len`: the number of entries.
#[verifier::external_body]
pub(crate) fn table_len(table: &DashMap<String, Arc<Endpoint>>) -> (count: usize)
    ensures
        count == table_of(*table).len(),
{
    table.len()
}

/// `DashMap::iter`: every entry of the table, in an order of the map's own
/// choosing. Each pair is an entry, and each path of the table is in a
/// pair.
#[verifier::external_body]
pub(crate) fn table_entries(table: &DashMap<String, Arc<Endpoint>>) -> (entries: Vec<
    (String, Arc<Endpoint>),
>)
    ensures
        forall|i: int|
            0 <= i < entries.len() ==> {
                &&& table_of(*table).contains_key(#[trigger] entries[i].0@)
                &&& table_of(*table)[entries[i].0@] == *entries[i].1
            },
        forall|path: Seq<char>| #[trigger]
            table_of(*table).contains_key(path) ==> exists|i: int|
                0 <= i < entries.len() && #[trigger] entries[i].0@ == path,
{
    table.iter().map(|entry| (entry.key().clone(), entry.value().clone())).collect()
}

} // verus!
