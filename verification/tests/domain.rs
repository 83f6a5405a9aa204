use device_dashboard::device::{
    CheckMethod, Device, FormSnapshot, Interface, InterfaceStatus,
};

fn iface(addr: &str, method: CheckMethod, status: InterfaceStatus) -> Interface {
    Interface {
        check_method: method,
        interface: addr.to_string(),
        status,
    }
}

#[test]
fn check_method_format_round_trips() {
    for m in [CheckMethod::Http, CheckMethod::Ping, CheckMethod::SipPing] {
        assert_eq!(CheckMethod::parse(m.format()), Ok(m));
    }
}

#[test]
fn status_format_round_trips() {
    for s in [InterfaceStatus::Up, InterfaceStatus::Down] {
        assert_eq!(InterfaceStatus::parse(s.format()), Ok(s));
    }
}

#[test]
fn check_method_canonical_names() {
    assert_eq!(CheckMethod::Http.format(), "Http");
    assert_eq!(CheckMethod::Ping.format(), "Ping");
    assert_eq!(CheckMethod::SipPing.format(), "SipPing");
}

#[test]
fn status_canonical_names() {
    assert_eq!(InterfaceStatus::Up.format(), "Up");
    assert_eq!(InterfaceStatus::Down.format(), "Down");
}

#[test]
fn check_method_parse_is_case_insensitive() {
    assert_eq!(CheckMethod::parse("PING"), Ok(CheckMethod::Ping));
    assert_eq!(CheckMethod::parse("ping"), Ok(CheckMethod::Ping));
    assert_eq!(CheckMethod::parse("HTTP"), Ok(CheckMethod::Http));
    assert_eq!(CheckMethod::parse("http"), Ok(CheckMethod::Http));
    assert_eq!(CheckMethod::parse("sipping"), Ok(CheckMethod::SipPing));
    assert_eq!(CheckMethod::parse("SIPPING"), Ok(CheckMethod::SipPing));
}

#[test]
fn check_method_parse_accepts_hyphenated_alias() {
    assert_eq!(CheckMethod::parse("sip-ping"), Ok(CheckMethod::SipPing));
    assert_eq!(CheckMethod::parse("SIP-PING"), Ok(CheckMethod::SipPing));
    assert_eq!(CheckMethod::parse("Sip-Ping"), Ok(CheckMethod::SipPing));
}

#[test]
fn check_method_parse_rejects_other_text() {
    assert_eq!(CheckMethod::parse(""), Err(()));
    assert_eq!(CheckMethod::parse("bogus"), Err(()));
    assert_eq!(CheckMethod::parse("pings"), Err(()));
    assert_eq!(CheckMethod::parse("sip ping"), Err(()));
}

#[test]
fn status_parse_is_case_insensitive() {
    assert_eq!(InterfaceStatus::parse("up"), Ok(InterfaceStatus::Up));
    assert_eq!(InterfaceStatus::parse("UP"), Ok(InterfaceStatus::Up));
    assert_eq!(InterfaceStatus::parse("down"), Ok(InterfaceStatus::Down));
    assert_eq!(InterfaceStatus::parse("DOWN"), Ok(InterfaceStatus::Down));
}

#[test]
fn status_parse_rejects_other_text() {
    assert_eq!(InterfaceStatus::parse(""), Err(()));
    assert_eq!(InterfaceStatus::parse("upp"), Err(()));
    assert_eq!(InterfaceStatus::parse("unknown"), Err(()));
}

#[test]
fn interface_default_is_blank_ping_down() {
    let d = Interface::default();
    assert_eq!(d.check_method, CheckMethod::Ping);
    assert_eq!(d.interface, "");
    assert_eq!(d.status, InterfaceStatus::Down);
}

#[test]
fn device_default_is_blank() {
    let d = Device::default();
    assert_eq!(d.name, "");
    assert_eq!(d.location, "");
    assert!(d.interfaces.is_empty());
}

#[test]
fn interface_summary_counts_up_over_total() {
    let d = Device {
        node_id: 7,
        name: "core".to_string(),
        location: "dc1".to_string(),
        interfaces: vec![
            iface("10.0.0.1", CheckMethod::Ping, InterfaceStatus::Up),
            iface("10.0.0.2", CheckMethod::Http, InterfaceStatus::Down),
            iface("10.0.0.3", CheckMethod::SipPing, InterfaceStatus::Up),
        ],
    };
    assert_eq!(d.interface_summary(), (2, 3));
}

#[test]
fn interface_summary_of_empty_list_is_zero_zero() {
    let d = Device {
        node_id: 7,
        name: "edge".to_string(),
        location: "dc2".to_string(),
        interfaces: Vec::new(),
    };
    assert_eq!(d.interface_summary(), (0, 0));
}

#[test]
fn decode_falls_back_to_ping_on_bad_check_method() {
    let form = FormSnapshot {
        name: "core".to_string(),
        location: "dc1".to_string(),
        iface_addresses: vec!["10.0.0.1".to_string(), "10.0.0.2".to_string()],
        iface_check_methods: vec!["Ping".to_string(), "bogus".to_string()],
    };
    let d = Device::decode_form(&form);
    assert_eq!(d.interfaces.len(), 2);
    assert_eq!(d.interfaces[0].check_method, CheckMethod::Ping);
    assert_eq!(d.interfaces[1].check_method, CheckMethod::Ping);
    assert_eq!(d.interfaces[0].interface, "10.0.0.1");
    assert_eq!(d.interfaces[1].interface, "10.0.0.2");
}

#[test]
fn decode_truncates_to_the_shorter_field_list() {
    let form = FormSnapshot {
        name: "core".to_string(),
        location: "dc1".to_string(),
        iface_addresses: vec![
            "10.0.0.1".to_string(),
            "10.0.0.2".to_string(),
            "10.0.0.3".to_string(),
        ],
        iface_check_methods: vec!["Http".to_string()],
    };
    let d = Device::decode_form(&form);
    assert_eq!(d.interfaces.len(), 1);
    assert_eq!(d.interfaces[0].interface, "10.0.0.1");
    assert_eq!(d.interfaces[0].check_method, CheckMethod::Http);
}

#[test]
fn decoded_interfaces_start_out_down() {
    let form = FormSnapshot {
        name: "core".to_string(),
        location: "dc1".to_string(),
        iface_addresses: vec!["10.0.0.1".to_string()],
        iface_check_methods: vec!["Http".to_string()],
    };
    let d = Device::decode_form(&form);
    assert_eq!(d.interfaces[0].status, InterfaceStatus::Down);
}

#[test]
fn decode_copies_name_and_location() {
    let form = FormSnapshot {
        name: "core".to_string(),
        location: "dc1".to_string(),
        iface_addresses: Vec::new(),
        iface_check_methods: Vec::new(),
    };
    let d = Device::decode_form(&form);
    assert_eq!(d.name, "core");
    assert_eq!(d.location, "dc1");
    assert!(d.interfaces.is_empty());
}

#[test]
fn decode_with_id_preserves_identity() {
    let form = FormSnapshot {
        name: "core".to_string(),
        location: "dc1".to_string(),
        iface_addresses: vec!["10.0.0.1".to_string()],
        iface_check_methods: vec!["Ping".to_string()],
    };
    let d = Device::decode_form_with_id(42, &form);
    assert_eq!(d.node_id, 42);
    assert_eq!(d.name, "core");
    assert_eq!(d.interfaces.len(), 1);
}
