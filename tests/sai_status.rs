use racoon::sai::{
    creation_outcome, fdb_entry_attributes, lag_member_attributes, vlan_create_attributes,
    vlan_member_attributes, SAI_STATUS_ITEM_NOT_FOUND, SAI_STATUS_NOT_IMPLEMENTED,
};
use racoon::{
    RacoonError, SaiAttribute, SaiAttributeValue, SaiObjectType,
    SaiStatus, VlanId,
};

#[test]
fn test_status_success() {
    let status = SaiStatus::SUCCESS;
    assert!(status.is_success());
    assert!(!status.is_error());
    assert!(status.to_result().is_ok());
}

#[test]
fn test_status_error() {
    let status = SaiStatus::FAILURE;
    assert!(!status.is_success());
    assert!(status.is_error());
    assert!(status.to_result().is_err());
}

#[test]
fn status_text_and_codes() {
    assert_eq!(SaiStatus::FAILURE.to_string(), "SAI_FAILURE (-1)");
    assert_eq!(SaiStatus::SUCCESS.to_string(), "SAI_SUCCESS (0)");
    assert_eq!(SaiStatus::from_code(-7), SaiStatus::ITEM_NOT_FOUND);
    assert_eq!(SaiStatus::from_code(-15).to_string(), "SAI_NOT_IMPLEMENTED (-15)");
    assert_eq!(SaiStatus::from_code(-65536).to_string(), "SAI_INVALID_ATTRIBUTE_0 (-65536)");
    assert_eq!(SaiStatus::from_code(-999).to_string(), "SAI_UNKNOWN_STATUS (-999)");
    assert_eq!(
        SaiStatus::TABLE_FULL.to_result(),
        Err(RacoonError::Sai(-13, "SAI_TABLE_FULL (-13)".to_string()))
    );
    assert_eq!(SaiStatus::from_code(SAI_STATUS_ITEM_NOT_FOUND).code(), -7);
}

#[test]
fn creation_outcomes() {
    assert_eq!(creation_outcome(0, 0x2600000000002a), Ok(0x2600000000002a));
    assert_eq!(
        creation_outcome(SAI_STATUS_NOT_IMPLEMENTED, 0),
        Err(SaiStatus::Other(SAI_STATUS_NOT_IMPLEMENTED))
    );
    assert_eq!(creation_outcome(-6, 0), Err(SaiStatus::ITEM_ALREADY_EXISTS));
}

#[test]
fn object_types() {
    assert_eq!(SaiObjectType::Vlan.to_sai(), 38);
    assert_eq!(SaiObjectType::Port.to_sai(), 1);
    assert_eq!(SaiObjectType::Switch.to_sai(), 33);
    assert_eq!(SaiObjectType::VlanMember.name(), "VLAN_MEMBER");
    assert_eq!(SaiObjectType::from_oid(0x1000000000001), Some(SaiObjectType::Port));
}

#[test]
fn attribute_lists() {
    let v = VlanId::new(100).unwrap();
    assert_eq!(
        vlan_create_attributes(v),
        vec![SaiAttribute { id: 0, value: SaiAttributeValue::U16(100) }]
    );
    let m = vlan_member_attributes(0x26, 0x3a, racoon::sai::VlanTaggingMode::Tagged);
    assert_eq!(m.len(), 3);
    assert_eq!(m[0], SaiAttribute::new_oid(0, 0x26));
    assert_eq!(m[1], SaiAttribute::new_oid(1, 0x3a));
    assert_eq!(m[2], SaiAttribute::new_i32(2, 1));
    let f = fdb_entry_attributes(racoon::sai::FdbEntryType::Static, 0x3a);
    assert_eq!(
        f,
        vec![
            SaiAttribute::new_i32(0, 1),
            SaiAttribute::new_oid(3, 0x3a),
            SaiAttribute::new_i32(1, 1),
        ]
    );
    assert_eq!(
        lag_member_attributes(0x20, 0x1),
        vec![SaiAttribute::new_oid(0, 0x20), SaiAttribute::new_oid(1, 0x1)]
    );
    assert_eq!(SaiAttribute::new_bool(5, true).value, SaiAttributeValue::Bool(true));
    assert_eq!(SaiAttribute::new_u32(5, 7).value, SaiAttributeValue::U32(7));
    assert_eq!(SaiAttribute::new_u64(5, 7).value, SaiAttributeValue::U64(7));
}
