use racoon::config::{
    default_cli_socket, default_config_db_path, default_db_host, default_db_port,
    default_db_socket, default_log_format, default_log_level, default_log_output,
    default_rest_port, FeaturesConfig,
};
use racoon::keys;
use racoon::{Database, VlanId};

#[test]
fn database_numbers() {
    assert_eq!(Database::Config.id(), 4);
    assert_eq!(Database::Appl.id(), 0);
    assert_eq!(Database::Asic.id(), 1);
    assert_eq!(Database::State.id(), 6);
    assert_eq!(Database::Counters.id(), 2);
}

#[test]
fn key_formats() {
    let v = VlanId::new(100).unwrap();
    assert_eq!(keys::vlan(v), "Vlan100");
    assert_eq!(keys::vlan_member(v, "Ethernet0"), "Vlan100|Ethernet0");
    assert_eq!(keys::port("Ethernet4"), "Ethernet4");
    assert_eq!(keys::lag(1), "PortChannel1");
    assert_eq!(keys::lag_member(7, "Ethernet8"), "PortChannel7|Ethernet8");
    assert_eq!(keys::fdb(v, "aa:bb:cc:dd:ee:ff"), "Vlan100:aa:bb:cc:dd:ee:ff");
    assert_eq!(
        keys::asic_state("SAI_OBJECT_TYPE_VLAN", 0x26000000000001),
        "SAI_OBJECT_TYPE_VLAN:0x26000000000001"
    );
    assert_eq!(keys::asic_state("SAI_OBJECT_TYPE_PORT", 0), "SAI_OBJECT_TYPE_PORT:0x0");
    assert_eq!(keys::vlan(VlanId::new(1).unwrap()), "Vlan1");
    assert_eq!(keys::lag(4294967295), "PortChannel4294967295");
}

#[test]
fn vlan_name_parsing() {
    assert_eq!(keys::parse_vlan_name("Vlan100").unwrap().get(), 100);
    assert_eq!(keys::parse_vlan_name("200").unwrap().get(), 200);
    assert_eq!(keys::parse_vlan_name("Vlan+7").unwrap().get(), 7);
    assert_eq!(
        keys::parse_vlan_name("Vlan0"),
        Err(racoon::RacoonError::InvalidVlanId(0))
    );
    assert_eq!(
        keys::parse_vlan_name("Vlan4095"),
        Err(racoon::RacoonError::InvalidVlanId(4095))
    );
    assert_eq!(
        keys::parse_vlan_name("Vlan70000"),
        Err(racoon::RacoonError::InvalidVlanId(0))
    );
    assert_eq!(
        keys::parse_vlan_name("VlanX"),
        Err(racoon::RacoonError::InvalidVlanId(0))
    );
}

#[test]
fn key_prefixes() {
    let ks = vec![
        "VLAN|Vlan10".to_string(),
        "PORT|Ethernet0".to_string(),
        "VLAN|Vlan20".to_string(),
    ];
    assert_eq!(
        keys::strip_key_prefix(&ks, "VLAN|"),
        vec!["Vlan10".to_string(), "Vlan20".to_string()]
    );
    assert_eq!(keys::appl_vlan_key_of("Vlan10"), "VLAN_TABLE:Vlan10");
    assert_eq!(keys::config_vlan_key_of("Vlan10"), "VLAN|Vlan10");
    assert_eq!(keys::oid_text_of(255), "0xff");
    assert_eq!(
        keys::asic_vlan_key_of(0x26000000000001),
        "ASIC_STATE:SAI_OBJECT_TYPE_VLAN:0x26000000000001"
    );
    assert_eq!(
        keys::oid_of_asic_vlan_key("ASIC_STATE:SAI_OBJECT_TYPE_VLAN:0x26000000000001"),
        Some(0x26000000000001)
    );
    assert_eq!(keys::oid_of_asic_vlan_key("ASIC_STATE:SAI_OBJECT_TYPE_VLAN:0xZZ"), None);
    assert_eq!(
        keys::oid_of_asic_vlan_key("ASIC_STATE:SAI_OBJECT_TYPE_VLAN:0x1ffffffffffffffff"),
        None
    );
    assert_eq!(keys::oid_of_asic_vlan_key("ASIC_STATE:SAI_OBJECT_TYPE_PORT:0x1"), None);
}

#[test]
fn config_defaults() {
    assert_eq!(default_db_port(), 6379);
    assert_eq!(default_rest_port(), 8080);
    assert_eq!(default_log_level(), "info");
    assert_eq!(default_log_format(), "json");
    assert_eq!(default_db_host(), "127.0.0.1");
    assert_eq!(default_config_db_path(), "/etc/racoon/config_db.json");
    assert_eq!(default_db_socket(), "/var/run/racoon/database.sock");
    assert_eq!(default_log_output(), "/var/log/racoon/racoon.log");
    assert_eq!(default_cli_socket(), "/var/run/racoon/cli.sock");
    let f = FeaturesConfig::default();
    assert!(!f.warm_boot && !f.fast_reboot);
}
