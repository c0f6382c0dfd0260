//! The map from connections to their state, a `dashmap::DashMap`. Everything in this file
//! is believed, not proved.
//!
//! The map is always borrowed mutably where it changes, so nobody else works on it in the
//! meantime and none of its locks is ever waited for.

use crate::conn_state::{ConnState, KcpConnectionState};
use dashmap::DashMap;
use vstd::prelude::*;

verus! {

/// `dashmap::DashMap`, a hash map.
#[verifier::external_type_specification]
#[verifier::external_body]
#[verifier::reject_recursive_types(K)]
#[verifier::reject_recursive_types(V)]
#[verifier::reject_recursive_types(S)]
pub struct ExDashMap<K, V, S>(dashmap::DashMap<K, V, S>);

/// The entries of the map: the three numbers of a connection's address, and its state.
pub uninterp spec fn state_entries(
    map: DashMap<(u32, u32, u32), KcpConnectionState>,
) -> Map<(u32, u32, u32), ConnState>;

/// `DashMap::new`: a map without entries.
#[verifier::external_body]
pub(crate) fn state_map_new() -> (map: DashMap<(u32, u32, u32), KcpConnectionState>)
    ensures
        forall|key: (u32, u32, u32)| !state_entries(map).contains_key(key),
{
    DashMap::new()
}

/// `DashMap::get`: the state under `key`, as a copy of its own.
#[verifier::external_body]
pub(crate) fn state_map_get(
    map: &DashMap<(u32, u32, u32), KcpConnectionState>,
    key: (u32, u32, u32),
) -> (state: Option<KcpConnectionState>)
    ensures
        match state {
            Some(state) => state_entries(*map).contains_key(key) && state@ == state_entries(
                *map,
            )[key],
            None => !state_entries(*map).contains_key(key),
        },
{
    map.get(&key).map(|entry| entry.value().clone())
}

/// `DashMap::contains_key`: whether there is an entry under `key`.
#[verifier::external_body]
pub(crate) fn state_map_contains_key(
    map: &DashMap<(u32, u32, u32), KcpConnectionState>,
    key: (u32, u32, u32),
) -> (found: bool)
    ensures
        found == state_entries(*map).contains_key(key),
{
    map.contains_key(&key)
}

/// `DashMap::insert`: puts `state` under `key`, in place of what was there.
#[verifier::external_body]
pub(crate) fn state_map_insert(
    map: &mut DashMap<(u32, u32, u32), KcpConnectionState>,
    key: (u32, u32, u32),
    state: KcpConnectionState,
)
    ensures
        state_entries(*final(map)) == state_entries(*old(map)).insert(key, state@),
{
    map.insert(key, state);
}

/// `DashMap::remove`: drops the entry under `key`, if there is one.
#[verifier::external_body]
pub(crate) fn state_map_remove(
    map: &mut DashMap<(u32, u32, u32), KcpConnectionState>,
    key: (u32, u32, u32),
)
    ensures
        state_entries(*final(map)) == state_entries(*old(map)).remove(key),
{
    map.remove(&key);
}

/// `DashMap::retain`: keeps the entries that are live at `now` and drops the others.
#[verifier::external_body]
pub(crate) fn state_map_retain_live(
    map: &mut DashMap<(u32, u32, u32), KcpConnectionState>,
    now: u64,
)
    ensures
        forall|key: (u32, u32, u32)|
            #![trigger state_entries(*final(map)).contains_key(key)]
            {
                &&& state_entries(*final(map)).contains_key(key) <==> state_entries(
                    *old(map),
                ).contains_key(key) && state_entries(*old(map))[key].live(now)
                &&& state_entries(*final(map)).contains_key(key) ==> state_entries(
                    *final(map),
                )[key] == state_entries(*old(map))[key]
            },
{
    map.retain(|_, state| state.is_live(now));
}

/// `DashMap::iter`: the keys of all entries, each once. The order in which the map is
/// walked is left open: it differs from process to process.
#[verifier::external_body]
pub(crate) fn state_map_keys(map: &DashMap<(u32, u32, u32), KcpConnectionState>) -> (keys: Vec<
    (u32, u32, u32),
>)
    ensures
        keys@.no_duplicates(),
        forall|key: (u32, u32, u32)|
            keys@.contains(key) <==> #[trigger] state_entries(*map).contains_key(key),
{
    map.iter().map(|entry| *entry.key()).collect()
}

/// `DashMap::shrink_to_fit`: gives memory back and leaves the entries alone.
#[verifier::external_body]
pub(crate) fn state_map_shrink_to_fit(map: &mut DashMap<(u32, u32, u32), KcpConnectionState>)
    ensures
        state_entries(*final(map)) == state_entries(*old(map)),
{
    map.shrink_to_fit();
}

} // verus!
