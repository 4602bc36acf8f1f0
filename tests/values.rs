use racoon::{MacAddress, MacParseError, PortSpeed, VlanId};

#[test]
fn test_mac_address() {
    let mac = "00:11:22:33:44:55".parse::<MacAddress>().unwrap();
    assert_eq!(mac.to_string(), "00:11:22:33:44:55");

    let mac2 = "00-11-22-33-44-55".parse::<MacAddress>().unwrap();
    assert_eq!(mac, mac2);
}

#[test]
fn test_vlan_id() {
    assert!(VlanId::new(0).is_none());
    assert!(VlanId::new(1).is_some());
    assert!(VlanId::new(4094).is_some());
    assert!(VlanId::new(4095).is_none());
}

#[test]
fn test_port_speed() {
    let speed = PortSpeed::from_mbps(100000).unwrap();
    assert_eq!(speed, PortSpeed::Speed100G);
    assert_eq!(speed.as_mbps(), 100000);
}

#[test]
fn mac_forms_agree() {
    let a = MacAddress::parse("AA-BB-CC-DD-EE-FF").unwrap();
    let b = MacAddress::parse("aa:bb:cc:dd:ee:ff").unwrap();
    let c = MacAddress::parse("aabb.ccdd.eeff").unwrap();
    assert_eq!(a, b);
    assert_eq!(b, c);
    assert_eq!(a.as_bytes(), &[0xaa, 0xbb, 0xcc, 0xdd, 0xee, 0xff]);
    assert_eq!(a.to_string(), "aa:bb:cc:dd:ee:ff");
}

#[test]
fn mac_round_trips() {
    let m = MacAddress::new([0x00, 0x1b, 0x21, 0x3c, 0x9d, 0xf0]);
    let text = m.to_string();
    assert_eq!(text, "00:1b:21:3c:9d:f0");
    assert_eq!(MacAddress::parse(&text).unwrap(), m);
    let upper = MacAddress::parse("00:1B:21:3C:9D:F0").unwrap();
    assert_eq!(upper.to_string(), "00:1b:21:3c:9d:f0");
}

#[test]
fn mac_rejects_bad_text() {
    assert_eq!(MacAddress::parse("00:11:22:33:44"), Err(MacParseError::WrongLength));
    assert_eq!(MacAddress::parse("00:11:22:33:44:55:66"), Err(MacParseError::WrongLength));
    assert_eq!(MacAddress::parse("00:11:22:33:44:5g"), Err(MacParseError::InvalidHexDigit));
    assert_eq!(MacAddress::parse(""), Err(MacParseError::WrongLength));
}

#[test]
fn vlan_id_bounds() {
    assert_eq!(VlanId::new(100).unwrap().get(), 100);
    assert_eq!(VlanId::new(4094).unwrap().get(), 4094);
    assert!(VlanId::new(5000).is_none());
    assert!(VlanId::new(u16::MAX).is_none());
}

#[test]
fn port_speeds_round_trip() {
    let all = [
        PortSpeed::Speed1G,
        PortSpeed::Speed10G,
        PortSpeed::Speed25G,
        PortSpeed::Speed40G,
        PortSpeed::Speed50G,
        PortSpeed::Speed100G,
        PortSpeed::Speed200G,
        PortSpeed::Speed400G,
    ];
    for s in all {
        assert_eq!(PortSpeed::from_mbps(s.as_mbps()), Some(s));
    }
    assert_eq!(PortSpeed::Speed10G.as_mbps(), 10000);
    assert_eq!(PortSpeed::from_mbps(0), None);
    assert_eq!(PortSpeed::from_mbps(1001), None);
}
