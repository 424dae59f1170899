use linuos::err::{ErrorKind, NetworkConfigurationError};
use linuos::iface::{
    advance, find_interface, DynamicNetworkInterfaceConfig, InterfaceInfo, IpAddress, Move,
    NetworkInterfaceConfig, NetworkInterfaceConfigApply, Operation, StaticNetworkInterfaceConfig,
    Step,
};
use linuos::iface_config::{set_dns, ConfigSocket, RequestPayload, RESOLV_CONF};

fn interface(name: &str, loopback: bool) -> InterfaceInfo {
    InterfaceInfo { name: name.to_string(), mac: Some([2, 0, 0, 0, 0, 9]), up: true, loopback }
}

fn host() -> Vec<InterfaceInfo> {
    vec![interface("lo", true), interface("eth0", false), interface("eth0", true)]
}

fn fixed(name: &str) -> StaticNetworkInterfaceConfig {
    StaticNetworkInterfaceConfig {
        name: name.to_string(),
        ip: IpAddress::V4([10, 0, 0, 2]),
        netmask: IpAddress::V4([255, 255, 255, 0]),
        gateway: IpAddress::V4([10, 0, 0, 1]),
        dns: Some(IpAddress::V4([10, 0, 0, 53])),
    }
}

/// The steps, written so that they can be compared.
fn shown(steps: &[Step]) -> Vec<String> {
    steps.iter().map(|step| format!("{:?}", step)).collect()
}

fn sets_gateway(steps: &[Step]) -> bool {
    steps.iter().any(|step| matches!(step, Step::Perform(Operation::SetGateway(_))))
}

#[test]
fn lookup_finds_the_first_of_the_name() {
    let interfaces = host();
    assert!(find_interface(&interfaces, &"eth1".to_string()).is_none());
    assert!(find_interface(&Vec::new(), &"lo".to_string()).is_none());
    assert!(find_interface(&interfaces, &"lo".to_string()).unwrap().loopback);
    assert!(!find_interface(&interfaces, &"eth0".to_string()).unwrap().loopback);
    assert!(find_interface(&interfaces, &"eth".to_string()).is_none());
    assert!(find_interface(&interfaces, &"".to_string()).is_none());
}

#[test]
fn static_steps_in_order() {
    let steps = fixed("eth0").apply(&host());
    assert_eq!(
        shown(&steps),
        vec![
            "Perform(OpenSocket)",
            "Perform(ReadFlags)",
            "Perform(WriteFlags { up: true })",
            "Perform(SetAddress([10, 0, 0, 2]))",
            "Perform(SetNetmask([255, 255, 255, 0]))",
            "Perform(SetGateway([10, 0, 0, 1]))",
            "Perform(WriteResolver(V4([10, 0, 0, 53])))",
        ]
    );
}

#[test]
fn static_steps_without_dns() {
    let mut config = fixed("eth0");
    config.dns = None;
    let steps = config.apply(&host());
    assert_eq!(steps.len(), 6);
    assert!(matches!(steps[5], Step::Perform(Operation::SetGateway([10, 0, 0, 1]))));
}

#[test]
fn loopback_gets_no_gateway() {
    let steps = fixed("lo").apply(&host());
    assert!(!sets_gateway(&steps));
    assert_eq!(
        shown(&steps),
        vec![
            "Perform(OpenSocket)",
            "Perform(ReadFlags)",
            "Perform(WriteFlags { up: true })",
            "Perform(SetAddress([10, 0, 0, 2]))",
            "Perform(SetNetmask([255, 255, 255, 0]))",
            "Perform(WriteResolver(V4([10, 0, 0, 53])))",
        ]
    );
    // not even a gateway that could not be set is looked at
    let mut config = fixed("lo");
    config.gateway = IpAddress::V6([0; 16]);
    let steps = config.apply(&host());
    assert!(!sets_gateway(&steps));
    assert!(steps.iter().all(|step| matches!(step, Step::Perform(_))));
    // the same configuration on another interface does set it
    assert!(sets_gateway(&fixed("eth0").apply(&host())));
}

#[test]
fn static_steps_need_the_interface() {
    let steps = fixed("eth7").apply(&host());
    assert_eq!(shown(&steps), vec!["Reject(NotFound)"]);
    let steps = fixed("eth0").apply(&Vec::new());
    assert_eq!(shown(&steps), vec!["Reject(NotFound)"]);
}

#[test]
fn static_steps_stop_at_the_first_ipv6_address() {
    let mut config = fixed("eth0");
    config.ip = IpAddress::V6([0; 16]);
    assert_eq!(
        shown(&config.apply(&host())),
        vec![
            "Perform(OpenSocket)",
            "Perform(ReadFlags)",
            "Perform(WriteFlags { up: true })",
            "Reject(Unsupported)",
        ]
    );
    let mut config = fixed("eth0");
    config.netmask = IpAddress::V6([0; 16]);
    let steps = config.apply(&host());
    assert_eq!(steps.len(), 5);
    assert!(matches!(steps[3], Step::Perform(Operation::SetAddress(_))));
    assert!(matches!(steps[4], Step::Reject(ErrorKind::Unsupported)));
    let mut config = fixed("eth0");
    config.gateway = IpAddress::V6([0; 16]);
    let steps = config.apply(&host());
    assert_eq!(steps.len(), 6);
    assert!(matches!(steps[5], Step::Reject(ErrorKind::Unsupported)));
    // a DNS server may be an IPv6 address
    let mut config = fixed("eth0");
    config.dns = Some(IpAddress::V6([0; 16]));
    let steps = config.apply(&host());
    assert_eq!(steps.len(), 7);
    assert!(matches!(steps[6], Step::Perform(Operation::WriteResolver(IpAddress::V6(_)))));
}

#[test]
fn name_length_boundary_in_steps() {
    let long = "abcdefghijklmnop";
    let short = "abcdefghijklmno";
    assert_eq!(long.len(), 16);
    let interfaces = vec![interface(long, false), interface(short, false)];
    assert_eq!(shown(&fixed(long).apply(&interfaces)), vec!["Reject(NameTooLong)"]);
    assert_eq!(fixed(short).apply(&interfaces).len(), 7);
    let dynamic = DynamicNetworkInterfaceConfig { name: long.to_string() };
    assert_eq!(shown(&dynamic.apply(&interfaces)), vec!["Reject(NameTooLong)"]);
    // an interface that does not exist is reported before its name is measured
    assert_eq!(shown(&fixed(long).apply(&host())), vec!["Reject(NotFound)"]);
}

#[test]
fn dynamic_steps_in_order() {
    let config = DynamicNetworkInterfaceConfig { name: "eth0".to_string() };
    let expected = vec![
        "Perform(OpenSocket)",
        "Perform(ReadFlags)",
        "Perform(WriteFlags { up: true })",
        "Perform(ResolveDhcp)",
        "Perform(ApplyLease)",
    ];
    assert_eq!(shown(&config.apply(&host())), expected);
    // whether the interface exists is for the DHCP client to find out
    assert_eq!(shown(&config.apply(&Vec::new())), expected);
}

#[test]
fn configuration_dispatches_to_its_variant() {
    let fixed_config = NetworkInterfaceConfig::Static(fixed("lo"));
    assert_eq!(shown(&fixed_config.apply(&host())), shown(&fixed("lo").apply(&host())));
    assert_eq!(fixed_config.name(), "lo");
    let dynamic = NetworkInterfaceConfig::Dynamic(DynamicNetworkInterfaceConfig {
        name: "eth0".to_string(),
    });
    assert_eq!(dynamic.apply(&host()).len(), 5);
    assert_eq!(dynamic.name(), "eth0");
}

fn finished(next: Move) -> Result<(), NetworkConfigurationError> {
    match next {
        Move::Finish(result) => result,
        other => panic!("{:?}", other),
    }
}

#[test]
fn advance_walks_the_steps() {
    let name = "eth0".to_string();
    let steps = fixed("eth0").apply(&host());
    for position in 0..steps.len() {
        match advance(&steps, &name, position, None) {
            Move::Perform(operation) => {
                assert_eq!(format!("Perform({:?})", operation), format!("{:?}", steps[position]))
            },
            other => panic!("{:?}", other),
        }
    }
    assert!(finished(advance(&steps, &name, steps.len(), None)).is_ok());
    assert!(finished(advance(&steps, &name, steps.len() + 5, None)).is_ok());
    assert!(finished(advance(&Vec::new(), &name, 0, None)).is_ok());
}

#[test]
fn advance_stops_at_a_failure() {
    let name = "eth0".to_string();
    let steps = fixed("eth0").apply(&host());
    let cause = NetworkConfigurationError::new("EPERM: Operation not permitted".to_string());
    let expected = [
        (ErrorKind::SocketCreateFailed, "Failed to create config socket: "),
        (ErrorKind::IoctlFailed, "Failed to get interface flags: "),
        (ErrorKind::IoctlFailed, "Failed to set interface flags: "),
        (ErrorKind::IoctlFailed, "Failed to set interface address: "),
        (ErrorKind::IoctlFailed, "Failed to set interface netmask: "),
        (ErrorKind::IoctlFailed, "Failed to set interface gateway: "),
        (ErrorKind::ConfigWriteFailed, "Failed configuring DNS: "),
    ];
    for (index, (kind, prefix)) in expected.iter().enumerate() {
        let error = finished(advance(&steps, &name, index + 1, Some(&cause))).unwrap_err();
        assert_eq!(error.kind, *kind);
        assert_eq!(error.description(), format!("{}EPERM: Operation not permitted", prefix));
    }
    // before the first step nothing can have failed
    assert!(matches!(advance(&steps, &name, 0, Some(&cause)), Move::Perform(Operation::OpenSocket)));
}

#[test]
fn advance_keeps_the_kind_of_a_dhcp_failure() {
    let name = "eth0".to_string();
    let steps = DynamicNetworkInterfaceConfig { name: name.clone() }.apply(&host());
    let cause = NetworkConfigurationError::with_kind(
        ErrorKind::Timeout,
        "Timeout waiting for OFFER".to_string(),
    );
    let error = finished(advance(&steps, &name, 4, Some(&cause))).unwrap_err();
    assert_eq!(error.kind, ErrorKind::Timeout);
    assert_eq!(error.description(), "DHCP config failed: Timeout waiting for OFFER");
    let cause = NetworkConfigurationError::with_kind(ErrorKind::IoctlFailed, "boom".to_string());
    let error = finished(advance(&steps, &name, 5, Some(&cause))).unwrap_err();
    assert_eq!(error.kind, ErrorKind::IoctlFailed);
    assert_eq!(error.description(), "boom");
    assert!(matches!(advance(&steps, &name, 3, None), Move::Perform(Operation::ResolveDhcp)));
    assert!(matches!(advance(&steps, &name, 4, None), Move::Perform(Operation::ApplyLease)));
}

#[test]
fn advance_turns_rejections_into_errors() {
    let name = "eth9".to_string();
    let steps = fixed("eth9").apply(&host());
    let error = finished(advance(&steps, &name, 0, None)).unwrap_err();
    assert_eq!(error.kind, ErrorKind::NotFound);
    assert_eq!(error.description(), "Interface 'eth9' not found");

    let long = "abcdefghijklmnop".to_string();
    let steps = fixed(&long).apply(&vec![interface(&long, false)]);
    let error = finished(advance(&steps, &long, 0, None)).unwrap_err();
    assert_eq!(error.kind, ErrorKind::NameTooLong);
    assert_eq!(
        error.description(),
        "Interface name 'abcdefghijklmnop' exceeds max length of 16"
    );

    let mut config = fixed("eth0");
    config.netmask = IpAddress::V6([0; 16]);
    let steps = config.apply(&host());
    let error = finished(advance(&steps, &"eth0".to_string(), 4, None)).unwrap_err();
    assert_eq!(error.kind, ErrorKind::Unsupported);
    assert_eq!(error.description(), "IPv6 is not supported");
}

#[test]
fn socket_name_boundary() {
    let error = ConfigSocket::new("abcdefghijklmnop".to_string(), 3).unwrap_err();
    assert_eq!(error.kind, ErrorKind::NameTooLong);
    assert_eq!(
        error.description(),
        "Interface name 'abcdefghijklmnop' exceeds max length of 16"
    );
    let socket = ConfigSocket::new("abcdefghijklmno".to_string(), 3).unwrap();
    assert_eq!(socket.fd, 3);
    assert_eq!(socket.iface, "abcdefghijklmno");
    assert!(ConfigSocket::new(String::new(), -1).is_ok());
    // the limit is on bytes: five letters of three bytes each are fifteen
    assert!(ConfigSocket::new("\u{20ac}".repeat(5), 3).is_ok());
    assert!(ConfigSocket::new("\u{20ac}".repeat(5) + "a", 3).is_err());
    assert_eq!(libc::IFNAMSIZ, 16);
}

#[test]
fn request_names_the_interface() {
    let socket = ConfigSocket::new("eth0".to_string(), 3).unwrap();
    let blank = socket.request();
    assert_eq!(blank.name, *b"eth0\0\0\0\0\0\0\0\0\0\0\0\0");
    assert!(matches!(blank.payload, RequestPayload::Blank));
    let socket = ConfigSocket::new("abcdefghijklmno".to_string(), 3).unwrap();
    assert_eq!(socket.request().name, *b"abcdefghijklmno\0");
    let socket = ConfigSocket::new(String::new(), 3).unwrap();
    assert_eq!(socket.request().name, [0u8; 16]);
}

#[test]
fn enable_sets_and_clears_the_up_bit() {
    let socket = ConfigSocket::new("eth0".to_string(), 3).unwrap();
    let flags = |current: i16, value: bool| match socket.enable(current, value).payload {
        RequestPayload::Flags(flags) => flags,
        other => panic!("{:?}", other),
    };
    assert_eq!(flags(0, true), 1);
    assert_eq!(flags(1, true), 1);
    assert_eq!(flags(0x1002, true), 0x1003);
    assert_eq!(flags(0x1003, false), 0x1002);
    assert_eq!(flags(0, false), 0);
    assert_eq!(flags(-1, false), -2);
    assert_eq!(flags(i16::MIN, true), i16::MIN + 1);
    assert_eq!(socket.enable(0, true).name, *b"eth0\0\0\0\0\0\0\0\0\0\0\0\0");
    assert_eq!(libc::IFF_UP, 1);
}

#[test]
fn address_requests_carry_ipv4_only() {
    let socket = ConfigSocket::new("eth0".to_string(), 3).unwrap();
    let request = socket.set_ip(IpAddress::V4([10, 0, 0, 2])).unwrap();
    assert!(matches!(request.payload, RequestPayload::Address([10, 0, 0, 2])));
    assert_eq!(request.name, *b"eth0\0\0\0\0\0\0\0\0\0\0\0\0");
    let request = socket.set_netmask(IpAddress::V4([255, 255, 0, 0])).unwrap();
    assert!(matches!(request.payload, RequestPayload::Address([255, 255, 0, 0])));

    for error in [
        socket.set_ip(IpAddress::V6([0; 16])).unwrap_err(),
        socket.set_netmask(IpAddress::V6([0; 16])).unwrap_err(),
        socket.set_gateway(IpAddress::V6([0; 16])).unwrap_err(),
    ] {
        assert_eq!(error.kind, ErrorKind::Unsupported);
        assert_eq!(error.description(), "IPv6 is not supported");
    }
}

#[test]
fn gateway_request_is_a_default_route() {
    let socket = ConfigSocket::new("eth0".to_string(), 3).unwrap();
    let route = socket.set_gateway(IpAddress::V4([10, 0, 0, 1])).unwrap();
    assert!(route.up);
    assert!(route.via_gateway);
    assert_eq!(route.gateway, [10, 0, 0, 1]);
    assert_eq!(route.destination, [0, 0, 0, 0]);
    assert_eq!(route.genmask, [0, 0, 0, 0]);
    assert_eq!(route.device, "eth0");
}

#[test]
fn resolver_file_names_the_server() {
    assert_eq!(RESOLV_CONF, "/etc/resolv.conf");
    assert_eq!(set_dns(IpAddress::V4([10, 0, 0, 53])), "nameserver 10.0.0.53");
    assert_eq!(set_dns(IpAddress::V4([0, 0, 0, 0])), "nameserver 0.0.0.0");
    assert_eq!(set_dns(IpAddress::V4([255, 255, 255, 255])), "nameserver 255.255.255.255");
    assert_eq!(set_dns(IpAddress::V4([192, 168, 100, 9])), "nameserver 192.168.100.9");
    let mut loopback = [0u8; 16];
    loopback[15] = 1;
    assert_eq!(set_dns(IpAddress::V6(loopback)), "nameserver ::1");
    let mut address = [0u8; 16];
    address[0] = 0x20;
    address[1] = 0x01;
    address[2] = 0x0d;
    address[3] = 0xb8;
    address[15] = 0x35;
    assert_eq!(set_dns(IpAddress::V6(address)), "nameserver 2001:db8::35");
}
