use racoon::notify::Operation;
use racoon::orch::VlanOrch;
use racoon::sync::{stale_vlans, CreateStep, RemoveStep, VlanSync};
use racoon::{RacoonError, SaiOid, SaiStatus, VlanAsicState, VlanConfig, VlanEntry, VlanId};
use std::collections::BTreeMap;

/// The application and hardware-state databases of one test.
#[derive(Default)]
struct Stores {
    config: BTreeMap<String, VlanConfig>,
    appl: BTreeMap<String, VlanEntry>,
    asic: BTreeMap<String, VlanAsicState>,
    published: Vec<String>,
}

/// A vendor that hands out identifiers in sequence and counts its creates.
struct Vendor {
    next: SaiOid,
    creates: usize,
    created: Vec<SaiOid>,
}

impl Vendor {
    fn new() -> Self {
        Vendor { next: 0x26000000000001, creates: 0, created: Vec::new() }
    }

    fn create(&mut self) -> Result<SaiOid, SaiStatus> {
        self.creates += 1;
        let oid = self.next;
        self.next += 1;
        self.created.push(oid);
        Ok(oid)
    }

    fn remove(&mut self, oid: SaiOid) -> SaiStatus {
        match self.created.iter().position(|o| *o == oid) {
            Some(i) => {
                self.created.remove(i);
                SaiStatus::SUCCESS
            }
            None => SaiStatus::ITEM_NOT_FOUND,
        }
    }
}

/// Runs one configuration notification through the orchestrator; returns the
/// error it logged, if any.
fn orch_handle(orch: &mut VlanOrch, stores: &mut Stores, message: &str) -> Option<RacoonError> {
    let task = VlanOrch::plan(message)?;
    match task.operation {
        Operation::Update => {
            let config = stores.config.get(&format!("VLAN|{}", task.key)).cloned()?;
            match VlanOrch::project(&task.key, &config) {
                Ok(p) => {
                    stores.appl.insert(p.appl_key.clone(), p.entry.clone());
                    orch.record_projection(&p);
                    stores.published.push(format!("SET {}", p.notification.key));
                    None
                }
                Err(e) => Some(e),
            }
        }
        Operation::Delete => match VlanOrch::withdraw(&task.key) {
            Ok(w) => {
                stores.appl.remove(&w.appl_key);
                orch.record_withdrawal(&w);
                stores.published.push(format!("DEL {}", w.notification.key));
                None
            }
            Err(e) => Some(e),
        },
    }
}

/// Runs one application notification through the synchronizer.
fn sync_handle(
    sync: &mut VlanSync,
    stores: &mut Stores,
    vendor: &mut Vendor,
    message: &str,
) -> Option<RacoonError> {
    let task = VlanSync::plan(message)?;
    match task.operation {
        Operation::Update => {
            let entry = match stores.appl.get(&format!("VLAN_TABLE:{}", task.key)) {
                Some(e) => e.clone(),
                None => return Some(RacoonError::Database("not found".to_string())),
            };
            match sync.begin_create(&entry) {
                Err(e) => Some(e),
                Ok(CreateStep::Realized) => None,
                Ok(CreateStep::Program(v)) => {
                    let outcome = vendor.create();
                    match sync.finish_create(v, outcome) {
                        Ok(Some(w)) => {
                            stores.asic.insert(w.key, w.record);
                            None
                        }
                        Ok(None) => None,
                        Err(e) => Some(e),
                    }
                }
            }
        }
        Operation::Delete => match sync.begin_remove(&task.key) {
            Err(e) => Some(e),
            Ok(RemoveStep::Untracked) => None,
            Ok(RemoveStep::Unprogram(v, oid)) => {
                let status = vendor.remove(oid);
                match sync.finish_remove(v, oid, status) {
                    Ok(key) => {
                        stores.asic.remove(&key);
                        None
                    }
                    Err(e) => Some(e),
                }
            }
        },
    }
}

fn set_message(name: &str) -> String {
    format!("{{\"operation\":\"SET\",\"table\":\"VLAN_TABLE\",\"key\":\"{}\"}}", name)
}

fn del_message(name: &str) -> String {
    format!("{{\"operation\":\"DEL\",\"table\":\"VLAN_TABLE\",\"key\":\"{}\"}}", name)
}

#[test]
fn create_scenario() {
    let mut stores = Stores::default();
    let mut orch = VlanOrch::new();
    let mut sync = VlanSync::new(0x21000000000000);
    let mut vendor = Vendor::new();
    stores.config.insert(
        "VLAN|Vlan100".to_string(),
        VlanConfig { vlanid: 100, description: Some("test".to_string()) },
    );
    let err = orch_handle(&mut orch, &mut stores, "{\"operation\":\"SET\",\"key\":\"VLAN|Vlan100\"}");
    assert!(err.is_none());
    assert_eq!(
        stores.appl.get("VLAN_TABLE:Vlan100"),
        Some(&VlanEntry { vlanid: 100, description: Some("test".to_string()) })
    );
    assert_eq!(stores.published, vec!["SET Vlan100".to_string()]);
    assert_eq!(orch.stats().vlan_count, 1);

    assert!(sync_handle(&mut sync, &mut stores, &mut vendor, &set_message("Vlan100")).is_none());
    assert_eq!(stores.asic.len(), 1);
    let rec = stores.asic.get("ASIC_STATE:SAI_OBJECT_TYPE_VLAN:0x26000000000001").unwrap();
    assert_eq!(rec.vlanid, 100);
    assert_eq!(rec.oid, "0x26000000000001");
    assert_eq!(sync.removal_for(VlanId::new(100).unwrap()), RemoveStep::Unprogram(VlanId::new(100).unwrap(), 0x26000000000001));
    assert_eq!(sync.stats().vlan_count, 1);
    assert_eq!(sync.switch_id(), 0x21000000000000);
}

#[test]
fn delete_scenario() {
    let mut stores = Stores::default();
    let mut orch = VlanOrch::new();
    let mut sync = VlanSync::new(0x21000000000000);
    let mut vendor = Vendor::new();
    stores.config.insert("VLAN|Vlan100".to_string(), VlanConfig { vlanid: 100, description: None });
    orch_handle(&mut orch, &mut stores, "{\"operation\":\"SET\",\"key\":\"VLAN|Vlan100\"}");
    sync_handle(&mut sync, &mut stores, &mut vendor, &set_message("Vlan100"));
    assert_eq!(stores.asic.len(), 1);

    stores.config.remove("VLAN|Vlan100");
    assert!(orch_handle(&mut orch, &mut stores, "{\"operation\":\"DEL\",\"key\":\"VLAN|Vlan100\"}").is_none());
    assert!(stores.appl.get("VLAN_TABLE:Vlan100").is_none());
    assert_eq!(orch.stats().vlan_count, 0);
    assert!(sync_handle(&mut sync, &mut stores, &mut vendor, &del_message("Vlan100")).is_none());
    assert!(stores.asic.is_empty());
    assert_eq!(sync.stats().vlan_count, 0);
    assert_eq!(sync.removal_for(VlanId::new(100).unwrap()), RemoveStep::Untracked);
    // A second deletion changes nothing.
    assert!(orch_handle(&mut orch, &mut stores, "{\"operation\":\"DELETE\",\"key\":\"VLAN|Vlan100\"}").is_none());
    assert!(sync_handle(&mut sync, &mut stores, &mut vendor, &del_message("Vlan100")).is_none());
    assert!(stores.appl.is_empty() && stores.asic.is_empty());
}

#[test]
fn invalid_id_scenario() {
    let mut stores = Stores::default();
    let mut orch = VlanOrch::new();
    stores.config.insert("VLAN|Vlan5000".to_string(), VlanConfig { vlanid: 5000, description: None });
    let err = orch_handle(&mut orch, &mut stores, "{\"operation\":\"SET\",\"key\":\"VLAN|Vlan5000\"}");
    assert_eq!(err, Some(RacoonError::InvalidVlanId(5000)));
    assert!(stores.appl.is_empty());
    assert!(stores.published.is_empty());
    for bad in [0u16, 4095] {
        assert_eq!(
            VlanOrch::project("VlanX", &VlanConfig { vlanid: bad, description: None }),
            Err(RacoonError::InvalidVlanId(bad))
        );
    }
}

#[test]
fn double_create_scenario() {
    let mut stores = Stores::default();
    let mut orch = VlanOrch::new();
    let mut sync = VlanSync::new(0x21000000000000);
    let mut vendor = Vendor::new();
    stores.config.insert("VLAN|Vlan300".to_string(), VlanConfig { vlanid: 300, description: None });
    for _ in 0..2 {
        orch_handle(&mut orch, &mut stores, "{\"operation\":\"SET\",\"key\":\"VLAN|Vlan300\"}");
        sync_handle(&mut sync, &mut stores, &mut vendor, &set_message("Vlan300"));
    }
    assert_eq!(stores.appl.len(), 1);
    assert_eq!(stores.asic.len(), 1);
    assert_eq!(vendor.creates, 1);
    assert_eq!(orch.stats().vlan_count, 1);
}

#[test]
fn set_then_delete_leaves_nothing() {
    let mut stores = Stores::default();
    let mut orch = VlanOrch::new();
    let mut sync = VlanSync::new(1);
    let mut vendor = Vendor::new();
    stores.config.insert("VLAN|Vlan42".to_string(), VlanConfig { vlanid: 42, description: None });
    orch_handle(&mut orch, &mut stores, "{\"operation\":\"CREATE\",\"key\":\"VLAN|Vlan42\"}");
    sync_handle(&mut sync, &mut stores, &mut vendor, &set_message("Vlan42"));
    orch_handle(&mut orch, &mut stores, "{\"operation\":\"DEL\",\"key\":\"VLAN|Vlan42\"}");
    sync_handle(&mut sync, &mut stores, &mut vendor, &del_message("Vlan42"));
    assert!(stores.appl.is_empty());
    assert!(stores.asic.is_empty());
}

#[test]
fn vendor_already_exists_on_create() {
    let v = VlanId::new(200).unwrap();
    let mut sync = VlanSync::new(1);
    // Not realized: the vendor's answer is surfaced.
    let r = sync.finish_create(v, Err(SaiStatus::ITEM_ALREADY_EXISTS));
    assert_eq!(r, Err(RacoonError::Sai(-6, "SAI_ITEM_ALREADY_EXISTS (-6)".to_string())));
    assert_eq!(sync.stats().vlan_count, 0);
    // Realized: treated as success with nothing to write.
    let w = sync.finish_create(v, Ok(0x99)).unwrap().unwrap();
    assert_eq!(w.key, "ASIC_STATE:SAI_OBJECT_TYPE_VLAN:0x99");
    assert_eq!(sync.finish_create(v, Err(SaiStatus::ITEM_ALREADY_EXISTS)), Ok(None));
    assert_eq!(sync.stats().vlan_count, 1);
    // Any other failure is surfaced.
    assert!(sync.finish_create(v, Err(SaiStatus::TABLE_FULL)).is_err());
}

#[test]
fn vendor_not_found_on_remove() {
    let v = VlanId::new(7).unwrap();
    let mut sync = VlanSync::new(1);
    sync.finish_create(v, Ok(0x70)).unwrap();
    assert_eq!(
        sync.finish_remove(v, 0x70, SaiStatus::ITEM_NOT_FOUND),
        Ok("ASIC_STATE:SAI_OBJECT_TYPE_VLAN:0x70".to_string())
    );
    assert_eq!(sync.stats().vlan_count, 0);
    sync.finish_create(v, Ok(0x71)).unwrap();
    assert_eq!(
        sync.finish_remove(v, 0x71, SaiStatus::FAILURE),
        Err(RacoonError::Sai(-1, "SAI_FAILURE (-1)".to_string()))
    );
    assert_eq!(sync.stats().vlan_count, 1);
}

#[test]
fn malformed_notifications_are_dropped() {
    let mut stores = Stores::default();
    let mut orch = VlanOrch::new();
    stores.config.insert("VLAN|Vlan100".to_string(), VlanConfig { vlanid: 100, description: None });
    assert!(VlanOrch::plan("not json").is_none());
    assert!(VlanOrch::plan("{\"operation\":\"SET\"").is_none());
    assert!(VlanOrch::plan("{\"operation\":\"PATCH\",\"key\":\"VLAN|Vlan100\"}").is_none());
    assert!(VlanOrch::plan("{\"operation\":\"SET\",\"key\":\"PORT|Ethernet0\"}").is_none());
    assert!(VlanSync::plan("[1,2").is_none());
    orch_handle(&mut orch, &mut stores, "not json");
    assert!(stores.appl.is_empty());
    assert_eq!(orch.stats().vlan_count, 0);
}

#[test]
fn notifications_name_their_vlan() {
    let t = VlanOrch::plan("{\"operation\":\"SET\",\"key\":\"VLAN|Vlan100\"}").unwrap();
    assert_eq!(t.operation, Operation::Update);
    assert_eq!(t.key, "Vlan100");
    let t = VlanSync::plan("{\"operation\":\"DELETE\",\"table\":\"VLAN_TABLE\",\"key\":\"Vlan9\"}").unwrap();
    assert_eq!(t.operation, Operation::Delete);
    assert_eq!(t.key, "Vlan9");
    let t = VlanSync::plan("{\"operation\":\"SET\"}").unwrap();
    assert_eq!(t.key, "");
}

#[test]
fn restart_rebuilds_and_collects() {
    let mut sync = VlanSync::new(1);
    let records = vec![
        ("ASIC_STATE:SAI_OBJECT_TYPE_VLAN:0x26000000000001".to_string(), 100u16),
        ("ASIC_STATE:SAI_OBJECT_TYPE_VLAN:0x26000000000002".to_string(), 200u16),
        ("ASIC_STATE:SAI_OBJECT_TYPE_VLAN:0xnothex".to_string(), 300u16),
        ("ASIC_STATE:SAI_OBJECT_TYPE_VLAN:0x26000000000004".to_string(), 0u16),
    ];
    sync.restore(&records);
    assert_eq!(sync.stats().vlan_count, 2);
    let v100 = VlanId::new(100).unwrap();
    assert_eq!(sync.begin_create(&VlanEntry { vlanid: 100, description: None }), Ok(CreateStep::Realized));
    assert_eq!(sync.removal_for(v100), RemoveStep::Unprogram(v100, 0x26000000000001));
    assert_eq!(stale_vlans(&vec![100, 200], &vec![100]), vec![200]);
    assert_eq!(stale_vlans(&vec![100, 200], &vec![200, 100]), Vec::<u16>::new());
    let names = VlanSync::appl_names(&vec!["VLAN_TABLE:Vlan100".to_string(), "OTHER:x".to_string()]);
    assert_eq!(names, vec!["Vlan100".to_string()]);
    assert_eq!(
        VlanOrch::config_names(&vec!["VLAN|Vlan1".to_string(), "VLAN_MEMBER|Vlan1|Ethernet0".to_string()]),
        vec!["Vlan1".to_string()]
    );
}
