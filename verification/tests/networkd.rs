use linuos::err::{ErrorKind, NetworkConfigurationError};
use linuos::iface::{
    DynamicNetworkInterfaceConfig, IpAddress, NetworkInterfaceConfig, StaticNetworkInterfaceConfig,
};
use linuos::networkd::{
    configure_network, default_configuration, failure_report, report, Task, HOSTS, HOSTS_PATH,
};

fn dynamic(name: &str) -> NetworkInterfaceConfig {
    NetworkInterfaceConfig::Dynamic(DynamicNetworkInterfaceConfig { name: name.to_string() })
}

fn failure(text: &str) -> NetworkConfigurationError {
    NetworkConfigurationError::new(text.to_string())
}

#[test]
fn hosts_file() {
    assert_eq!(HOSTS_PATH, "/etc/hosts");
    assert_eq!(HOSTS, "127.0.0.1 localhost\n::1 localhost\n");
}

#[test]
fn default_configuration_is_loopback_and_eth0() {
    let configs = default_configuration();
    assert_eq!(configs.len(), 2);
    match &configs[0] {
        NetworkInterfaceConfig::Static(StaticNetworkInterfaceConfig {
            name,
            ip,
            netmask,
            gateway,
            dns,
        }) => {
            assert_eq!(name, "lo");
            assert!(matches!(ip, IpAddress::V4([127, 0, 0, 1])));
            assert!(matches!(netmask, IpAddress::V4([255, 0, 0, 0])));
            assert!(matches!(gateway, IpAddress::V4([127, 0, 0, 1])));
            assert!(dns.is_none());
        },
        other => panic!("{:?}", other),
    }
    match &configs[1] {
        NetworkInterfaceConfig::Dynamic(config) => assert_eq!(config.name, "eth0"),
        other => panic!("{:?}", other),
    }
}

#[test]
fn tasks_in_order() {
    let configs = default_configuration();
    assert!(matches!(configure_network(&configs, 0, None), Task::WriteHosts));
    assert!(matches!(configure_network(&configs, 1, None), Task::Apply(0)));
    assert!(matches!(configure_network(&configs, 2, None), Task::Apply(1)));
    assert!(matches!(configure_network(&configs, 3, None), Task::ListInterfaces));
    assert!(matches!(configure_network(&configs, 4, None), Task::Done));
    assert!(matches!(configure_network(&configs, usize::MAX, None), Task::Done));
}

#[test]
fn tasks_without_configurations() {
    let configs = Vec::new();
    assert!(matches!(configure_network(&configs, 0, None), Task::WriteHosts));
    assert!(matches!(configure_network(&configs, 1, None), Task::ListInterfaces));
    assert!(matches!(configure_network(&configs, 2, None), Task::Done));
}

#[test]
fn hosts_failure_is_fatal() {
    let configs = default_configuration();
    let cause = failure("Read-only file system (os error 30)");
    match configure_network(&configs, 1, Some(&cause)) {
        Task::Abort(error) => {
            assert_eq!(error.kind, ErrorKind::ConfigWriteFailed);
            assert_eq!(
                error.description(),
                "Failed configuring '/etc/hosts': Read-only file system (os error 30)"
            );
        },
        other => panic!("{:?}", other),
    }
    // nothing has been written yet when nothing was done
    assert!(matches!(configure_network(&configs, 0, Some(&cause)), Task::WriteHosts));
}

#[test]
fn failed_interface_does_not_stop_the_next() {
    // A fails, B succeeds: B is applied all the same, and the bring-up is
    // carried through to its end
    let configs = vec![dynamic("a"), dynamic("b")];
    let mut applied = Vec::new();
    let mut outcomes = Vec::new();
    let mut failures = Vec::new();
    let mut done = 0;
    let mut last: Option<NetworkConfigurationError> = None;
    let finished = loop {
        match configure_network(&configs, done, last.as_ref()) {
            Task::WriteHosts => last = None,
            Task::Apply(index) => {
                applied.push(configs[index].name().clone());
                last = if index == 0 { Some(failure("forced")) } else { None };
                outcomes.push((configs[index].name().clone(), last.is_none()));
                failures.push(last.clone());
            },
            Task::ListInterfaces => last = None,
            Task::Done => break true,
            Task::Abort(_) => break false,
        }
        done += 1;
    };
    assert!(finished);
    assert_eq!(applied, vec!["a", "b"]);
    assert_eq!(outcomes, vec![("a".to_string(), false), ("b".to_string(), true)]);
    assert_eq!(done, 4);
    // and the report says so: A failed, B succeeded
    let lines = report(&configs, &failures);
    assert_eq!(lines.len(), 2);
    assert_eq!(lines[0].name, "a");
    assert!(!lines[0].succeeded);
    assert_eq!(lines[1].name, "b");
    assert!(lines[1].succeeded);
}

#[test]
fn report_covers_what_was_applied() {
    let configs = vec![dynamic("a"), dynamic("b"), dynamic("c")];
    assert!(report(&configs, &Vec::new()).is_empty());
    assert!(report(&Vec::new(), &vec![None]).is_empty());
    let lines = report(&configs, &vec![None, Some(failure("x"))]);
    assert_eq!(lines.len(), 2);
    assert!(lines[0].succeeded);
    assert!(!lines[1].succeeded);
    let lines = report(&configs, &vec![Some(failure("x")), None, None, None]);
    assert_eq!(lines.len(), 3);
    assert_eq!(
        lines.iter().map(|line| (line.name.as_str(), line.succeeded)).collect::<Vec<_>>(),
        vec![("a", false), ("b", true), ("c", true)]
    );
}

#[test]
fn every_failure_after_the_hosts_file_is_passed_over() {
    let configs = vec![dynamic("a"), dynamic("b"), dynamic("c")];
    let cause = failure("forced");
    assert!(matches!(configure_network(&configs, 2, Some(&cause)), Task::Apply(1)));
    assert!(matches!(configure_network(&configs, 3, Some(&cause)), Task::Apply(2)));
    assert!(matches!(configure_network(&configs, 4, Some(&cause)), Task::ListInterfaces));
    assert!(matches!(configure_network(&configs, 5, Some(&cause)), Task::Done));
}

#[test]
fn failure_is_reported_by_name() {
    let line = failure_report(&dynamic("eth0"), &failure("DHCP config failed: Timeout"));
    assert_eq!(line, "Failed configuring 'eth0': DHCP config failed: Timeout");
}
