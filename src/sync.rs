//! The hardware synchronizer: realizes application VLAN records in hardware
//! through the vendor API and mirrors the hardware identifiers into the
//! hardware-state database.
//!
//! The synchronizer decides; the daemon around it performs the store
//! operations and the vendor calls. A create runs as
//! [`VlanSync::begin_create`], the vendor call when it asks for one,
//! [`VlanSync::finish_create`], then the hardware-state write it returns. A
//! remove runs as [`VlanSync::begin_remove`], the vendor call,
//! [`VlanSync::finish_remove`], then the hardware-state deletion.
use vstd::prelude::*;
use dashmap::DashMap;
use crate::error::RacoonError;
use crate::keys::{
    asic_vlan_key, asic_vlan_key_of, asic_vlan_key_oid, lemma_asic_vlan_key_injective,
    lemma_asic_vlan_key_oid, names_under, oid_of_asic_vlan_key, oid_text, oid_text_of,
    parse_vlan_name, strip_key_prefix, texts_view, vlan_name_error, vlan_name_number,
};
use crate::notify::{event_view, notification_event, read_notification, ChangeEvent};
use crate::sai::{is_status_error, status_code, SaiStatus, SAI_STATUS_ITEM_ALREADY_EXISTS,
    SAI_STATUS_ITEM_NOT_FOUND, SAI_STATUS_SUCCESS};
use crate::schema::{VlanAsicState, VlanEntry};
use crate::tracking::{new_realization_map, realization_get, realization_insert, realization_len,
    realization_remove, realized_vlans};
use crate::types::{valid_vlan_id, SaiOid, VlanId};

verus! {

/// What a create asks for once the application record is read.
#[derive(Debug, Clone, Copy, PartialEq, Eq)]
pub enum CreateStep {
    /// The VLAN is realized already: nothing to do.
    Realized,
    /// Call the vendor to create this VLAN.
    Program(VlanId),
}

/// What a remove asks for once the VLAN name is read.
#[derive(Debug, Clone, Copy, PartialEq, Eq)]
pub enum RemoveStep {
    /// The VLAN is not realized: nothing to do.
    Untracked,
    /// Call the vendor to remove this VLAN's hardware object.
    Unprogram(VlanId, SaiOid),
}

/// The hardware-state record to write after a successful vendor create.
#[derive(Debug, Clone, PartialEq, Eq)]
pub struct AsicWrite {
    pub key: String,
    pub record: VlanAsicState,
}

/// Statistics of the synchronizer.
#[derive(Debug, Clone, Copy, PartialEq, Eq)]
pub struct VlanSyncStats {
    pub vlan_count: usize,
}

/// The realized state and the hardware database's VLAN records (key to VLAN id)
/// after realizing VLAN `v` with a vendor create that returns `oid`: nothing
/// changes when `v` is realized already.
pub open spec fn after_realize(m: Map<u16, u64>, a: Map<Seq<char>, u16>, v: u16, oid: u64) -> (Map<u16, u64>, Map<Seq<char>, u16>) {
    if m.contains_key(v) {
        (m, a)
    } else {
        (m.insert(v, oid), a.insert(asic_vlan_key(oid), v))
    }
}

/// The realized state and the hardware database's VLAN records after removing
/// VLAN `v` with a vendor remove that succeeds: nothing changes when `v` is not
/// realized.
pub open spec fn after_unrealize(m: Map<u16, u64>, a: Map<Seq<char>, u16>, v: u16) -> (Map<u16, u64>, Map<Seq<char>, u16>) {
    if m.contains_key(v) {
        (m.remove(v), a.remove(asic_vlan_key(m[v])))
    } else {
        (m, a)
    }
}

/// The realized state and the hardware database agree: each realized VLAN has
/// its record under its identifier's key, each record is one realized VLAN's,
/// and no identifier is realized twice.
pub open spec fn coherent(m: Map<u16, u64>, a: Map<Seq<char>, u16>) -> bool {
    &&& forall|v: u16| #[trigger] m.contains_key(v) ==> a.contains_key(asic_vlan_key(m[v])) && a[asic_vlan_key(m[v])] == v
    &&& forall|k: Seq<char>| #[trigger] a.contains_key(k) ==> exists|v: u16| m.contains_key(v) && k == #[trigger] asic_vlan_key(m[v])
    &&& forall|v1: u16, v2: u16| m.contains_key(v1) && m.contains_key(v2) && #[trigger] m[v1] == #[trigger] m[v2] ==> v1 == v2
}

/// The realized state rebuilt from hardware-state records, each a key and the
/// VLAN id its record holds, taken in order: a record whose key names a VLAN
/// object's identifier and whose id is in `[1, 4094]` maps that id to that
/// identifier; other records are skipped.
pub open spec fn restored(m: Map<u16, u64>, records: Seq<(Seq<char>, u16)>) -> Map<u16, u64>
    decreases records.len(),
{
    if records.len() == 0 {
        m
    } else {
        let before = restored(m, records.drop_last());
        let (k, v) = records.last();
        match asic_vlan_key_oid(k) {
            Some(oid) => if valid_vlan_id(v as int) { before.insert(v, oid) } else { before },
            None => before,
        }
    }
}

/// Keys and ids of hardware-state records.
pub open spec fn records_view(records: Seq<(String, u16)>) -> Seq<(Seq<char>, u16)> {
    records.map_values(|r: (String, u16)| (r.0@, r.1))
}

/// The ids of `recorded`, in order, that `live` does not hold.
pub open spec fn stale_ids(recorded: Seq<u16>, live: Seq<u16>) -> Seq<u16>
    decreases recorded.len(),
{
    if recorded.len() == 0 {
        seq![]
    } else {
        let before = stale_ids(recorded.drop_last(), live);
        if live.contains(recorded.last()) { before } else { before.push(recorded.last()) }
    }
}

/// The VLANs recorded in the hardware-state database that the application
/// database no longer holds: they are removed from hardware on start-up.
pub fn stale_vlans(recorded: &Vec<u16>, live: &Vec<u16>) -> (r: Vec<u16>)
    ensures
        r@ == stale_ids(recorded@, live@),
{
    let mut out: Vec<u16> = Vec::new();
    let mut i: usize = 0;
    while i < recorded.len()
        invariant
            i <= recorded@.len(),
            out@ == stale_ids(recorded@.take(i as int), live@),
        decreases recorded@.len() - i,
    {
        let v = recorded[i];
        let mut found = false;
        let mut j: usize = 0;
        while j < live.len()
            invariant
                j <= live@.len(),
                found == exists|t: int| 0 <= t < j && live@[t] == v,
            decreases live@.len() - j,
        {
            if live[j] == v {
                found = true;
            }
            j += 1;
        }
        assert(recorded@.take(i + 1).drop_last() =~= recorded@.take(i as int));
        assert(recorded@.take(i + 1).last() == v);
        assert(found == live@.contains(v));
        if !found {
            out.push(v);
        }
        i += 1;
    }
    assert(recorded@.take(recorded@.len() as int) =~= recorded@);
    out
}

/// The synchronizer and the VLANs it has realized.
pub struct VlanSync {
    switch_id: SaiOid,
    vlans: DashMap<u16, u64>,
}

impl VlanSync {
    /// The realized VLANs: VLAN id to hardware identifier.
    pub closed spec fn view(&self) -> Map<u16, u64> {
        realized_vlans(self.vlans)
    }

    /// The switch the VLANs are created on.
    pub closed spec fn spec_switch_id(&self) -> SaiOid {
        self.switch_id
    }

    pub fn new(switch_id: SaiOid) -> (r: Self)
        ensures
            r@ == Map::<u16, u64>::empty(),
            r.spec_switch_id() == switch_id,
    {
        VlanSync { switch_id, vlans: new_realization_map() }
    }

    pub fn switch_id(&self) -> (r: SaiOid)
        ensures
            r == self.spec_switch_id(),
    {
        self.switch_id
    }

    /// The event an application notification names: `None` when the text is
    /// not JSON or the operation is unknown. The key is the VLAN name.
    pub fn plan(message: &str) -> (r: Option<ChangeEvent>)
        ensures
            event_view(r) == notification_event(message@),
    {
        read_notification(message)
    }

    /// The names of the VLANs whose application keys are listed: each key
    /// under `VLAN_TABLE:`, without that prefix, in order.
    pub fn appl_names(keys: &Vec<String>) -> (r: Vec<String>)
        ensures
            texts_view(r@) == names_under(texts_view(keys@), "VLAN_TABLE:"@),
    {
        strip_key_prefix(keys, "VLAN_TABLE:")
    }

    /// Decides a create from the application record: an id outside
    /// `[1, 4094]` is rejected, a realized VLAN needs nothing, any other needs
    /// the vendor call.
    pub fn begin_create(&self, entry: &VlanEntry) -> (r: Result<CreateStep, RacoonError>)
        ensures
            !valid_vlan_id(entry.vlanid as int) ==> r == Err::<CreateStep, RacoonError>(RacoonError::InvalidVlanId(entry.vlanid)),
            valid_vlan_id(entry.vlanid as int) && self@.contains_key(entry.vlanid) ==> r == Ok::<CreateStep, RacoonError>(CreateStep::Realized),
            valid_vlan_id(entry.vlanid as int) && !self@.contains_key(entry.vlanid) ==> (r matches Ok(CreateStep::Program(v)) && v.value() == entry.vlanid),
    {
        match VlanId::new(entry.vlanid) {
            None => Err(RacoonError::InvalidVlanId(entry.vlanid)),
            Some(v) => {
                if realization_get(&self.vlans, entry.vlanid).is_some() {
                    Ok(CreateStep::Realized)
                } else {
                    Ok(CreateStep::Program(v))
                }
            },
        }
    }

    /// Completes a create with the vendor's answer. A new identifier is
    /// recorded and its hardware-state record returned. `ITEM_ALREADY_EXISTS`
    /// for a VLAN that is realized already is success with nothing to write;
    /// any other failure is returned and nothing changes.
    pub fn finish_create(&mut self, vlan_id: VlanId, outcome: Result<SaiOid, SaiStatus>) -> (r: Result<Option<AsicWrite>, RacoonError>)
        ensures
            outcome matches Ok(oid) ==> {
                &&& final(self)@ == old(self)@.insert(vlan_id.value(), oid)
                &&& r matches Ok(Some(w))
                &&& w.key@ == asic_vlan_key(oid)
                &&& w.record.vlanid == vlan_id.value()
                &&& w.record.oid@ == oid_text(oid)
            },
            outcome is Err ==> final(self)@ == old(self)@,
            outcome is Err && status_code(outcome->Err_0) == SAI_STATUS_ITEM_ALREADY_EXISTS
                && old(self)@.contains_key(vlan_id.value()) ==> r == Ok::<Option<AsicWrite>, RacoonError>(None),
            outcome is Err && !(status_code(outcome->Err_0) == SAI_STATUS_ITEM_ALREADY_EXISTS
                && old(self)@.contains_key(vlan_id.value())) ==> (r matches Err(e) && is_status_error(e, status_code(outcome->Err_0))),
            final(self).spec_switch_id() == old(self).spec_switch_id(),
    {
        match outcome {
            Ok(oid) => {
                let v = vlan_id.get();
                realization_insert(&mut self.vlans, v, oid);
                Ok(Some(AsicWrite {
                    key: asic_vlan_key_of(oid),
                    record: VlanAsicState { vlanid: v, oid: oid_text_of(oid) },
                }))
            },
            Err(s) => {
                if s.code() == SAI_STATUS_ITEM_ALREADY_EXISTS && realization_get(&self.vlans, vlan_id.get()).is_some() {
                    Ok(None)
                } else {
                    Err(RacoonError::Sai(s.code(), s.to_string()))
                }
            },
        }
    }

    /// Decides a remove of VLAN `name`: a name that does not denote an id in
    /// `[1, 4094]` is rejected; a VLAN that is not realized needs nothing;
    /// a realized one needs the vendor call on its identifier.
    pub fn begin_remove(&self, name: &str) -> (r: Result<RemoveStep, RacoonError>)
        ensures
            r is Err <==> !(vlan_name_number(name@) matches Some(n) && valid_vlan_id(n as int)),
            r matches Err(e) ==> e == vlan_name_error(name@),
            r matches Ok(RemoveStep::Untracked) ==> (vlan_name_number(name@) matches Some(n) && !self@.contains_key(n)),
            r matches Ok(RemoveStep::Unprogram(v, oid)) ==> {
                &&& vlan_name_number(name@) == Some(v.value())
                &&& self@.contains_key(v.value())
                &&& self@[v.value()] == oid
            },
    {
        match parse_vlan_name(name) {
            Err(e) => Err(e),
            Ok(v) => match realization_get(&self.vlans, v.get()) {
                None => Ok(RemoveStep::Untracked),
                Some(oid) => Ok(RemoveStep::Unprogram(v, oid)),
            },
        }
    }

    /// Completes a remove with the vendor's status. Success and
    /// `ITEM_NOT_FOUND` forget the VLAN and return the hardware-state key to
    /// delete; any other failure is returned and nothing changes.
    pub fn finish_remove(&mut self, vlan_id: VlanId, oid: SaiOid, status: SaiStatus) -> (r: Result<String, RacoonError>)
        ensures
            (status_code(status) == SAI_STATUS_SUCCESS || status_code(status) == SAI_STATUS_ITEM_NOT_FOUND) ==> {
                &&& final(self)@ == old(self)@.remove(vlan_id.value())
                &&& r matches Ok(k)
                &&& k@ == asic_vlan_key(oid)
            },
            !(status_code(status) == SAI_STATUS_SUCCESS || status_code(status) == SAI_STATUS_ITEM_NOT_FOUND) ==> {
                &&& final(self)@ == old(self)@
                &&& r matches Err(e)
                &&& is_status_error(e, status_code(status))
            },
            final(self).spec_switch_id() == old(self).spec_switch_id(),
    {
        let code = status.code();
        if code == SAI_STATUS_SUCCESS || code == SAI_STATUS_ITEM_NOT_FOUND {
            realization_remove(&mut self.vlans, vlan_id.get());
            Ok(asic_vlan_key_of(oid))
        } else {
            Err(RacoonError::Sai(code, status.to_string()))
        }
    }

    /// The step that removes VLAN `v`: nothing when it is not realized, the
    /// vendor call on its identifier when it is.
    pub fn removal_for(&self, v: VlanId) -> (r: RemoveStep)
        ensures
            !self@.contains_key(v.value()) ==> r == RemoveStep::Untracked,
            self@.contains_key(v.value()) ==> r == RemoveStep::Unprogram(v, self@[v.value()]),
    {
        match realization_get(&self.vlans, v.get()) {
            None => RemoveStep::Untracked,
            Some(oid) => RemoveStep::Unprogram(v, oid),
        }
    }

    /// Rebuilds the realized state from the hardware-state database on
    /// start-up: `records` are its VLAN object keys with the id each record holds.
    pub fn restore(&mut self, records: &Vec<(String, u16)>)
        ensures
            final(self)@ == restored(old(self)@, records_view(records@)),
            final(self).spec_switch_id() == old(self).spec_switch_id(),
    {
        let mut i: usize = 0;
        while i < records.len()
            invariant
                i <= records@.len(),
                self@ == restored(old(self)@, records_view(records@.take(i as int))),
                self.spec_switch_id() == old(self).spec_switch_id(),
            decreases records@.len() - i,
        {
            let (key, v) = &records[i];
            assert(records_view(records@.take(i + 1)).drop_last() =~= records_view(records@.take(i as int)));
            assert(records_view(records@.take(i + 1)).last() == (key@, *v));
            match oid_of_asic_vlan_key(key.as_str()) {
                Some(oid) => {
                    if VlanId::new(*v).is_some() {
                        realization_insert(&mut self.vlans, *v, oid);
                    }
                },
                None => {},
            }
            i += 1;
        }
        assert(records@.take(records@.len() as int) =~= records@);
    }

    pub fn stats(&self) -> (r: VlanSyncStats)
        ensures
            r.vlan_count == self@.len(),
    {
        VlanSyncStats { vlan_count: realization_len(&self.vlans) }
    }
}

/// Realizing a VLAN twice leaves the realized state and the hardware database
/// as realizing it once does: the second create makes no vendor call.
pub proof fn lemma_realize_idempotent(m: Map<u16, u64>, a: Map<Seq<char>, u16>, v: u16, oid1: u64, oid2: u64)
    ensures
        after_realize(after_realize(m, a, v, oid1).0, after_realize(m, a, v, oid1).1, v, oid2)
            == after_realize(m, a, v, oid1),
{
}

/// Realizing and then removing a VLAN leaves it unrealized and no hardware
/// record under the identifier it was realized with.
pub proof fn lemma_realize_then_unrealize(m: Map<u16, u64>, a: Map<Seq<char>, u16>, v: u16, oid: u64)
    ensures
        ({
            let (m1, a1) = after_realize(m, a, v, oid);
            let (m2, a2) = after_unrealize(m1, a1, v);
            !m2.contains_key(v) && !a2.contains_key(asic_vlan_key(m1[v]))
        }),
{
}

/// In coherent state each realized VLAN has exactly one hardware record that
/// holds its id.
pub proof fn lemma_one_record_per_vlan(m: Map<u16, u64>, a: Map<Seq<char>, u16>, v: u16)
    requires
        coherent(m, a),
        m.contains_key(v),
    ensures
        a.contains_key(asic_vlan_key(m[v])) && a[asic_vlan_key(m[v])] == v,
        forall|k: Seq<char>| a.contains_key(k) && a[k] == v ==> k == asic_vlan_key(m[v]),
{
    assert forall|k: Seq<char>| a.contains_key(k) && a[k] == v implies k == asic_vlan_key(m[v]) by {
        let w = choose|w: u16| m.contains_key(w) && k == #[trigger] asic_vlan_key(m[w]);
        assert(a[asic_vlan_key(m[w])] == w);
    }
}

/// Realizing a VLAN keeps the realized state and the hardware database
/// coherent, given that the vendor issues an identifier no realized VLAN holds.
pub proof fn lemma_realize_keeps_coherence(m: Map<u16, u64>, a: Map<Seq<char>, u16>, v: u16, oid: u64)
    requires
        coherent(m, a),
        forall|w: u16| #[trigger] m.contains_key(w) ==> m[w] != oid,
    ensures
        coherent(after_realize(m, a, v, oid).0, after_realize(m, a, v, oid).1),
{
    if !m.contains_key(v) {
        let m1 = m.insert(v, oid);
        let a1 = a.insert(asic_vlan_key(oid), v);
        assert forall|w: u16| #[trigger] m1.contains_key(w) implies a1.contains_key(asic_vlan_key(m1[w])) && a1[asic_vlan_key(m1[w])] == w by {
            if w != v {
                lemma_asic_vlan_key_injective(m[w], oid);
            }
        }
        assert forall|k: Seq<char>| #[trigger] a1.contains_key(k) implies exists|w: u16| m1.contains_key(w) && k == #[trigger] asic_vlan_key(m1[w]) by {
            if k == asic_vlan_key(oid) {
                assert(m1.contains_key(v) && k == asic_vlan_key(m1[v]));
            } else {
                let w = choose|w: u16| m.contains_key(w) && k == #[trigger] asic_vlan_key(m[w]);
                assert(m1.contains_key(w) && k == asic_vlan_key(m1[w]));
            }
        }
    }
}

/// Removing a realized VLAN keeps the realized state and the hardware database coherent.
pub proof fn lemma_unrealize_keeps_coherence(m: Map<u16, u64>, a: Map<Seq<char>, u16>, v: u16)
    requires
        coherent(m, a),
    ensures
        coherent(after_unrealize(m, a, v).0, after_unrealize(m, a, v).1),
{
    if m.contains_key(v) {
        let o = m[v];
        let m1 = m.remove(v);
        let a1 = a.remove(asic_vlan_key(o));
        assert forall|w: u16| #[trigger] m1.contains_key(w) implies a1.contains_key(asic_vlan_key(m1[w])) && a1[asic_vlan_key(m1[w])] == w by {
            lemma_asic_vlan_key_injective(m[w], o);
        }
        assert forall|k: Seq<char>| #[trigger] a1.contains_key(k) implies exists|w: u16| m1.contains_key(w) && k == #[trigger] asic_vlan_key(m1[w]) by {
            let w = choose|w: u16| m.contains_key(w) && k == #[trigger] asic_vlan_key(m[w]);
            assert(w != v);
            assert(m1.contains_key(w) && k == asic_vlan_key(m1[w]));
        }
    }
}

/// `records` lists the entries of `a`: each record is an entry, and each key
/// of `a` is listed.
pub open spec fn lists_records(records: Seq<(Seq<char>, u16)>, a: Map<Seq<char>, u16>) -> bool {
    &&& forall|i: int| 0 <= i < records.len() ==> a.contains_key(#[trigger] records[i].0) && a[records[i].0] == records[i].1
    &&& forall|k: Seq<char>| #[trigger] a.contains_key(k) ==> exists|i: int| 0 <= i < records.len() && records[i].0 == k
}

/// What rebuilding from a prefix of the listed records yields.
proof fn lemma_restore_prefix(m: Map<u16, u64>, a: Map<Seq<char>, u16>, records: Seq<(Seq<char>, u16)>, n: int)
    requires
        coherent(m, a),
        forall|v: u16| #[trigger] m.contains_key(v) ==> valid_vlan_id(v as int),
        lists_records(records, a),
        0 <= n <= records.len(),
    ensures
        forall|v: u16| #[trigger] restored(Map::empty(), records.take(n)).contains_key(v)
            <==> exists|i: int| 0 <= i < n && records[i].1 == v,
        forall|v: u16| #[trigger] restored(Map::empty(), records.take(n)).contains_key(v)
            ==> m.contains_key(v) && restored(Map::empty(), records.take(n))[v] == m[v],
    decreases n,
{
    if n > 0 {
        lemma_restore_prefix(m, a, records, n - 1);
        let k = records[n - 1].0;
        let v = records[n - 1].1;
        assert(records.take(n).drop_last() =~= records.take(n - 1));
        assert(records.take(n).last() == records[n - 1]);
        assert(a.contains_key(k) && a[k] == v);
        let w = choose|w: u16| m.contains_key(w) && k == #[trigger] asic_vlan_key(m[w]);
        assert(a[asic_vlan_key(m[w])] == w);
        assert(w == v);
        lemma_asic_vlan_key_oid(m[v]);
        let before = restored(Map::empty(), records.take(n - 1));
        let after = restored(Map::empty(), records.take(n));
        assert(after == before.insert(v, m[v]));
        assert forall|x: u16| #[trigger] after.contains_key(x) implies exists|i: int| 0 <= i < n && records[i].1 == x by {
            if x != v {
                assert(before.contains_key(x));
            } else {
                assert(records[n - 1].1 == x);
            }
        }
        assert forall|x: u16| (exists|i: int| 0 <= i < n && records[i].1 == x) implies #[trigger] after.contains_key(x) by {
            let i = choose|i: int| 0 <= i < n && records[i].1 == x;
            if i < n - 1 {
                assert(before.contains_key(x));
            }
        }
    }
}

/// Restart recovery: rebuilding the realized state from a listing of the
/// hardware database's VLAN records gives back the realized state that the
/// database is coherent with.
pub proof fn lemma_restore_recovers(m: Map<u16, u64>, a: Map<Seq<char>, u16>, records: Seq<(Seq<char>, u16)>)
    requires
        coherent(m, a),
        forall|v: u16| #[trigger] m.contains_key(v) ==> valid_vlan_id(v as int),
        lists_records(records, a),
    ensures
        restored(Map::empty(), records) == m,
{
    lemma_restore_prefix(m, a, records, records.len() as int);
    assert(records.take(records.len() as int) =~= records);
    let r = restored(Map::empty(), records);
    assert forall|v: u16| m.contains_key(v) implies #[trigger] r.contains_key(v) by {
        let k = asic_vlan_key(m[v]);
        assert(a.contains_key(k));
        let i = choose|i: int| 0 <= i < records.len() && records[i].0 == k;
        assert(records[i].1 == v);
    }
    assert(r =~= m);
}

} // verus!
