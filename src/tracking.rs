//! The reconcilers' in-memory maps, kept in `dashmap::DashMap`s. Each map's
//! contents are named by a spec function that the wrappers below speak of.
use vstd::prelude::*;
use dashmap::DashMap;
use crate::schema::VlanEntry;

verus! {

#[verifier::external_type_specification]
#[verifier::external_body]
#[verifier::reject_recursive_types(K)]
#[verifier::reject_recursive_types(V)]
#[verifier::reject_recursive_types(S)]
pub struct ExDashMap<K, V, S>(DashMap<K, V, S>);

/// What a projection map holds: VLAN id to the projected record.
pub uninterp spec fn projected_vlans(m: DashMap<u16, VlanEntry>) -> Map<u16, VlanEntry>;

/// What a realization map holds: VLAN id to hardware identifier.
pub uninterp spec fn realized_vlans(m: DashMap<u16, u64>) -> Map<u16, u64>;

/// Relies on `DashMap::new`: the new map is empty.
#[verifier::external_body]
pub(crate) fn new_projection_map() -> (r: DashMap<u16, VlanEntry>)
    ensures
        projected_vlans(r) === Map::empty(),
{
    DashMap::new()
}

/// Relies on `DashMap::insert`: the key maps to the value afterwards, and
/// every other key keeps its value.
#[verifier::external_body]
pub(crate) fn projection_insert(m: &mut DashMap<u16, VlanEntry>, k: u16, v: VlanEntry)
    ensures
        projected_vlans(*final(m)) == projected_vlans(*old(m)).insert(k, v),
{
    m.insert(k, v);
}

/// Relies on `DashMap::remove`: the key is absent afterwards, and every other
/// key keeps its value.
#[verifier::external_body]
pub(crate) fn projection_remove(m: &mut DashMap<u16, VlanEntry>, k: u16)
    ensures
        projected_vlans(*final(m)) == projected_vlans(*old(m)).remove(k),
{
    m.remove(&k);
}

/// Relies on `DashMap::len`: the number of entries.
#[verifier::external_body]
pub(crate) fn projection_len(m: &DashMap<u16, VlanEntry>) -> (r: usize)
    ensures
        r == projected_vlans(*m).len(),
{
    m.len()
}

/// Relies on `DashMap::new`: the new map is empty.
#[verifier::external_body]
pub(crate) fn new_realization_map() -> (r: DashMap<u16, u64>)
    ensures
        realized_vlans(r) === Map::empty(),
{
    DashMap::new()
}

/// Relies on `DashMap::insert`: the key maps to the value afterwards, and
/// every other key keeps its value.
#[verifier::external_body]
pub(crate) fn realization_insert(m: &mut DashMap<u16, u64>, k: u16, v: u64)
    ensures
        realized_vlans(*final(m)) == realized_vlans(*old(m)).insert(k, v),
{
    m.insert(k, v);
}

/// Relies on `DashMap::remove`: the key is absent afterwards, and every other
/// key keeps its value.
#[verifier::external_body]
pub(crate) fn realization_remove(m: &mut DashMap<u16, u64>, k: u16)
    ensures
        realized_vlans(*final(m)) == realized_vlans(*old(m)).remove(k),
{
    m.remove(&k);
}

/// Relies on `DashMap::get`: the value the key maps to, if any.
#[verifier::external_body]
pub(crate) fn realization_get(m: &DashMap<u16, u64>, k: u16) -> (r: Option<u64>)
    ensures
        r == (if realized_vlans(*m).contains_key(k) { Some(realized_vlans(*m)[k]) } else { None }),
{
    match m.get(&k) {
        Some(entry) => Some(*entry.value()),
        None => None,
    }
}

/// Relies on `DashMap::len`: the number of entries.
#[verifier::external_body]
pub(crate) fn realization_len(m: &DashMap<u16, u64>) -> (r: usize)
    ensures
        r == realized_vlans(*m).len(),
{
    m.len()
}

} // verus!
