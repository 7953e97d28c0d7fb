//! The two concurrent tables of the runtime, kept in sharded hash maps of an
//! outside crate: the registry (plugin id to loaded record) and the instance
//! table (instance id to live instance). Verified code sees each table only
//! through its abstract contents, a map of plain values.

use vstd::prelude::*;

use crate::instance::Instance;
use crate::instance::InstanceInfo;
use crate::instance::InstanceV;
use crate::plug::PlugRecord;
use crate::plug::PlugRecordV;

verus! {

use std::sync::Arc;

#[verifier::external_type_specification]
#[verifier::external_body]
#[verifier::reject_recursive_types(K)]
#[verifier::reject_recursive_types(V)]
#[verifier::reject_recursive_types(S)]
pub struct ExDashMap<K, V, S>(dashmap::DashMap<K, V, S>);

#[verifier::external_type_specification]
#[verifier::external_body]
pub struct ExRandomState(ahash::random_state::RandomState);

/// The registry table: plugin id to loaded record.
pub type PlugMap = dashmap::DashMap<String, Arc<PlugRecord>, ahash::random_state::RandomState>;

/// The instance table: instance id to live instance.
pub type InstanceMap = dashmap::DashMap<u64, Instance, ahash::random_state::RandomState>;

/// What the registry table holds, as a map from id to record model.
pub uninterp spec fn registry_contents(m: PlugMap) -> Map<Seq<char>, PlugRecordV>;

/// What the instance table holds, as a map from instance id to entry model.
pub uninterp spec fn instance_contents(m: InstanceMap) -> Map<u64, InstanceV>;

/// Relies on dashmap::DashMap::with_hasher, which creates a map with no
/// entries.
#[verifier::external_body]
pub(crate) fn plug_map_new() -> (m: PlugMap)
    ensures
        registry_contents(m).dom() =~= Set::<Seq<char>>::empty(),
{
    dashmap::DashMap::with_hasher(ahash::random_state::RandomState::new())
}

/// Relies on dashmap::DashMap::insert, which maps the key to the new value,
/// replacing any previous value under that key.
#[verifier::external_body]
pub(crate) fn plug_map_insert(m: &mut PlugMap, key: String, value: Arc<PlugRecord>)
    ensures
        registry_contents(*final(m)) == registry_contents(*old(m)).insert(key@, value@),
{
    m.insert(key, value);
}

/// Relies on dashmap::DashMap::get, which returns the value the key is
/// mapped to, if any.
#[verifier::external_body]
pub(crate) fn plug_map_get(m: &PlugMap, key: &str) -> (r: Option<Arc<PlugRecord>>)
    ensures
        match r {
            Some(rec) => registry_contents(*m).contains_key(key@) && rec@ == registry_contents(
                *m,
            )[key@],
            None => !registry_contents(*m).contains_key(key@),
        },
{
    match m.get(key) {
        Some(entry) => Some(entry.value().clone()),
        None => None,
    }
}

/// Relies on dashmap::DashMap::with_hasher, which creates a map with no
/// entries.
#[verifier::external_body]
pub(crate) fn instance_map_new() -> (m: InstanceMap)
    ensures
        instance_contents(m).dom() =~= Set::<u64>::empty(),
{
    dashmap::DashMap::with_hasher(ahash::random_state::RandomState::new())
}

/// Relies on dashmap::DashMap::insert, which maps the key to the new value,
/// replacing any previous value under that key.
#[verifier::external_body]
pub(crate) fn instance_map_insert(m: &mut InstanceMap, key: u64, value: Instance)
    ensures
        instance_contents(*final(m)) == instance_contents(*old(m)).insert(key, value@),
{
    m.insert(key, value);
}

/// Relies on dashmap::DashMap::get, which returns the value the key is
/// mapped to, if any. Hands out the entry's shared per-instance info.
#[verifier::external_body]
pub(crate) fn instance_map_get_info(m: &InstanceMap, key: u64) -> (r: Option<Arc<InstanceInfo>>)
    ensures
        match r {
            Some(info) => instance_contents(*m).contains_key(key) && info@ == instance_contents(
                *m,
            )[key].info,
            None => !instance_contents(*m).contains_key(key),
        },
{
    match m.get(&key) {
        Some(entry) => Some(entry.value().info.clone()),
        None => None,
    }
}

/// Relies on dashmap::DashMap::len, which returns the number of entries in
/// the map.
#[verifier::external_body]
pub(crate) fn instance_map_len(m: &InstanceMap) -> (n: usize)
    ensures
        n as nat == instance_contents(*m).len(),
{
    m.len()
}

} // verus!
