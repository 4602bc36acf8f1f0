//! The configuration orchestrator: projects VLAN intent from the configuration
//! database into normalized application records.
//!
//! The orchestrator decides; the daemon around it performs the store
//! operations. For a `SET` the daemon reads the configuration record, asks
//! [`VlanOrch::project`] for the write, performs it, then calls
//! [`VlanOrch::record_projection`] and publishes the announcement. A `DEL` runs
//! the same way through [`VlanOrch::withdraw`] and [`VlanOrch::record_withdrawal`].
use vstd::prelude::*;
use dashmap::DashMap;
use crate::error::RacoonError;
use crate::keys::{appl_vlan_key, appl_vlan_key_of, names_under, parse_vlan_name, strip_key_prefix,
    texts_view, vlan_name_error, vlan_name_number};
use crate::notify::{event_view, notification_event, read_notification, ChangeEvent, Operation,
    TableNotification};
use crate::schema::{VlanConfig, VlanEntry};
use crate::text::{is_prefix, strip_prefix};
use crate::tracking::{new_projection_map, projected_vlans, projection_insert, projection_len,
    projection_remove};
use crate::types::{valid_vlan_id, VlanId};

verus! {

/// The application record projected from a configuration record.
pub open spec fn entry_of(c: VlanConfig) -> VlanEntry {
    VlanEntry { vlanid: c.vlanid, description: c.description }
}

/// `n` announces that the record `e` was written at the name.
pub open spec fn is_set_announcement(n: TableNotification, name: Seq<char>, e: VlanEntry) -> bool {
    &&& n.operation@ == "SET"@
    &&& n.table@ == "VLAN_TABLE"@
    &&& n.key@ == name
    &&& n.data == Some(e)
}

/// `n` announces that the record at the name was deleted.
pub open spec fn is_del_announcement(n: TableNotification, name: Seq<char>) -> bool {
    &&& n.operation@ == "DEL"@
    &&& n.table@ == "VLAN_TABLE"@
    &&& n.key@ == name
    &&& n.data is None
}

/// The event a configuration notification asks the orchestrator to handle:
/// the operation and the VLAN name under the `VLAN|` prefix of its key.
pub open spec fn config_task(text: Seq<char>) -> Option<(Operation, Seq<char>)> {
    match notification_event(text) {
        Some((op, key)) => if is_prefix("VLAN|"@, key) {
            Some((op, key.subrange("VLAN|"@.len() as int, key.len() as int)))
        } else {
            None
        },
        None => None,
    }
}

/// The application database after the projection of `config` at `name`: the
/// record is written when the id is valid, and nothing changes otherwise.
pub open spec fn appl_after_set(appl: Map<Seq<char>, VlanEntry>, name: Seq<char>, config: VlanConfig) -> Map<Seq<char>, VlanEntry> {
    if valid_vlan_id(config.vlanid as int) {
        appl.insert(appl_vlan_key(name), entry_of(config))
    } else {
        appl
    }
}

/// The application database after the deletion of `name`: the record is
/// removed when the name denotes a valid VLAN id, and nothing changes otherwise.
pub open spec fn appl_after_del(appl: Map<Seq<char>, VlanEntry>, name: Seq<char>) -> Map<Seq<char>, VlanEntry> {
    if vlan_name_number(name) matches Some(n) && valid_vlan_id(n as int) {
        appl.remove(appl_vlan_key(name))
    } else {
        appl
    }
}

/// A copy of a record.
pub fn copy_entry(e: &VlanEntry) -> (r: VlanEntry)
    ensures
        r == *e,
{
    let description = match &e.description {
        Some(d) => Some(d.clone()),
        None => None,
    };
    VlanEntry { vlanid: e.vlanid, description }
}

/// The write of an application record and the announcement that follows it.
#[derive(Debug, Clone, PartialEq, Eq)]
pub struct Projection {
    pub appl_key: String,
    pub entry: VlanEntry,
    pub notification: TableNotification,
}

/// The deletion of an application record and the announcement that follows it.
#[derive(Debug, Clone, PartialEq, Eq)]
pub struct Withdrawal {
    pub vlan_id: VlanId,
    pub appl_key: String,
    pub notification: TableNotification,
}

/// Statistics of the orchestrator.
#[derive(Debug, Clone, Copy, PartialEq, Eq)]
pub struct VlanOrchStats {
    pub vlan_count: usize,
}

/// The configuration orchestrator and the VLANs it has projected.
pub struct VlanOrch {
    vlans: DashMap<u16, VlanEntry>,
}

impl VlanOrch {
    /// The projected VLANs, by id.
    pub closed spec fn view(&self) -> Map<u16, VlanEntry> {
        projected_vlans(self.vlans)
    }

    pub fn new() -> (r: Self)
        ensures
            r@ == Map::<u16, VlanEntry>::empty(),
    {
        VlanOrch { vlans: new_projection_map() }
    }

    /// The task a configuration notification names: `None` when the text is
    /// not JSON, the operation is unknown, or the key is not under `VLAN|`.
    pub fn plan(message: &str) -> (r: Option<ChangeEvent>)
        ensures
            event_view(r) == config_task(message@),
    {
        match read_notification(message) {
            Some(ev) => match strip_prefix(ev.key.as_str(), "VLAN|") {
                Some(name) => {
                    assert(name@ == ev.key@.subrange("VLAN|"@.len() as int, ev.key@.len() as int));
                    Some(ChangeEvent { operation: ev.operation, key: name })
                },
                None => None,
            },
            None => None,
        }
    }

    /// The names of the VLANs whose configuration keys are listed: each key
    /// under `VLAN|`, without that prefix, in order.
    pub fn config_names(keys: &Vec<String>) -> (r: Vec<String>)
        ensures
            texts_view(r@) == names_under(texts_view(keys@), "VLAN|"@),
    {
        strip_key_prefix(keys, "VLAN|")
    }

    /// The write that projects the configuration record of VLAN `name`; an id
    /// outside `[1, 4094]` is rejected and nothing is written.
    pub fn project(name: &str, config: &VlanConfig) -> (r: Result<Projection, RacoonError>)
        ensures
            r is Ok <==> valid_vlan_id(config.vlanid as int),
            r matches Err(e) ==> e == RacoonError::InvalidVlanId(config.vlanid),
            r matches Ok(p) ==> {
                &&& p.appl_key@ == appl_vlan_key(name@)
                &&& p.entry == entry_of(*config)
                &&& is_set_announcement(p.notification, name@, entry_of(*config))
            },
    {
        match VlanId::new(config.vlanid) {
            None => Err(RacoonError::InvalidVlanId(config.vlanid)),
            Some(_) => {
                let description = match &config.description {
                    Some(d) => Some(d.clone()),
                    None => None,
                };
                let entry = VlanEntry { vlanid: config.vlanid, description };
                let notification = TableNotification {
                    operation: String::from_str("SET"),
                    table: String::from_str("VLAN_TABLE"),
                    key: String::from_str(name),
                    data: Some(copy_entry(&entry)),
                };
                Ok(Projection { appl_key: appl_vlan_key_of(name), entry, notification })
            },
        }
    }

    /// Records that a projection was written.
    pub fn record_projection(&mut self, p: &Projection)
        ensures
            final(self)@ == old(self)@.insert(p.entry.vlanid, p.entry),
    {
        projection_insert(&mut self.vlans, p.entry.vlanid, copy_entry(&p.entry));
    }

    /// The deletion of the application record of VLAN `name`; a name that does
    /// not denote an id in `[1, 4094]` is rejected and nothing is deleted.
    pub fn withdraw(name: &str) -> (r: Result<Withdrawal, RacoonError>)
        ensures
            r is Ok <==> (vlan_name_number(name@) matches Some(n) && valid_vlan_id(n as int)),
            r matches Err(e) ==> e == vlan_name_error(name@),
            r matches Ok(w) ==> {
                &&& vlan_name_number(name@) == Some(w.vlan_id.value())
                &&& w.appl_key@ == appl_vlan_key(name@)
                &&& is_del_announcement(w.notification, name@)
            },
    {
        match parse_vlan_name(name) {
            Err(e) => Err(e),
            Ok(vlan_id) => {
                let notification = TableNotification {
                    operation: String::from_str("DEL"),
                    table: String::from_str("VLAN_TABLE"),
                    key: String::from_str(name),
                    data: None,
                };
                Ok(Withdrawal { vlan_id, appl_key: appl_vlan_key_of(name), notification })
            },
        }
    }

    /// Records that a withdrawal was performed.
    pub fn record_withdrawal(&mut self, w: &Withdrawal)
        ensures
            final(self)@ == old(self)@.remove(w.vlan_id.value()),
    {
        projection_remove(&mut self.vlans, w.vlan_id.get());
    }

    pub fn stats(&self) -> (r: VlanOrchStats)
        ensures
            r.vlan_count == self@.len(),
    {
        VlanOrchStats { vlan_count: projection_len(&self.vlans) }
    }
}

/// Downward coherence: projecting a configuration record with a valid id
/// leaves an application record at `VLAN_TABLE:{name}` with the same id and
/// description.
pub proof fn lemma_projection_present(appl: Map<Seq<char>, VlanEntry>, name: Seq<char>, config: VlanConfig)
    requires
        valid_vlan_id(config.vlanid as int),
    ensures
        appl_after_set(appl, name, config).contains_key(appl_vlan_key(name)),
        appl_after_set(appl, name, config)[appl_vlan_key(name)].vlanid == config.vlanid,
        appl_after_set(appl, name, config)[appl_vlan_key(name)].description == config.description,
{
}

/// Projecting the same configuration record twice leaves the application
/// database as projecting it once does.
pub proof fn lemma_projection_idempotent(appl: Map<Seq<char>, VlanEntry>, name: Seq<char>, config: VlanConfig)
    ensures
        appl_after_set(appl_after_set(appl, name, config), name, config) == appl_after_set(appl, name, config),
{
    assert(appl_after_set(appl_after_set(appl, name, config), name, config) =~= appl_after_set(appl, name, config));
}

/// A projection followed by a deletion of the same VLAN name leaves no
/// application record at that name, when the name denotes a valid id.
pub proof fn lemma_projection_withdrawn(appl: Map<Seq<char>, VlanEntry>, name: Seq<char>, config: VlanConfig)
    requires
        vlan_name_number(name) matches Some(n) && valid_vlan_id(n as int),
    ensures
        !appl_after_del(appl_after_set(appl, name, config), name).contains_key(appl_vlan_key(name)),
{
}

/// A configuration record with an id outside `[1, 4094]` changes nothing downstream.
pub proof fn lemma_invalid_not_projected(appl: Map<Seq<char>, VlanEntry>, name: Seq<char>, config: VlanConfig)
    requires
        !valid_vlan_id(config.vlanid as int),
    ensures
        appl_after_set(appl, name, config) == appl,
{
}

} // verus!
