use linuos::iface::{Operation, Step};
use linuos::service::{
    configure_loopback, configure_network, interface_line, list_failure, NetworkError, ServiceTask,
};

#[test]
fn loopback_steps() {
    let steps = configure_loopback();
    assert_eq!(steps.len(), 4);
    assert!(matches!(steps[0], Step::Perform(Operation::OpenSocket)));
    assert!(matches!(steps[1], Step::Perform(Operation::ReadFlags)));
    assert!(matches!(steps[2], Step::Perform(Operation::WriteFlags { up: true })));
    assert!(matches!(steps[3], Step::Perform(Operation::SetAddress([127, 0, 0, 1]))));
}

#[test]
fn interface_lines() {
    assert_eq!(
        interface_line("eth0", Some("10.0.0.2:0")),
        "interface eth0 address 10.0.0.2:0"
    );
    assert_eq!(interface_line("lo", None), "interface lo with unsupported address family");
    assert_eq!(interface_line("", Some("")), "interface  address ");
}

#[test]
fn listing_failure_keeps_the_errno() {
    let error = list_failure(13);
    assert_eq!(error.message, "failed to get interface addresses");
    assert_eq!(error.err, 13);
}

#[test]
fn loopback_bring_up_in_order() {
    assert!(matches!(configure_network(0, None), ServiceTask::ListInterfaces));
    assert!(matches!(configure_network(1, None), ServiceTask::ConfigureLoopback));
    assert!(matches!(configure_network(2, None), ServiceTask::ListInterfaces));
    assert!(matches!(configure_network(3, None), ServiceTask::Done));
    assert!(matches!(configure_network(usize::MAX, None), ServiceTask::Done));
}

#[test]
fn loopback_bring_up_ends_at_the_first_failure() {
    for done in 1..=3 {
        let error = NetworkError { message: format!("task {}", done), err: 5 };
        match configure_network(done, Some(error)) {
            ServiceTask::Abort(error) => {
                assert_eq!(error.message, format!("task {}", done));
                assert_eq!(error.err, 5);
            },
            other => panic!("{:?}", other),
        }
    }
    let early = NetworkError { message: String::new(), err: 5 };
    assert!(matches!(configure_network(0, Some(early)), ServiceTask::ListInterfaces));
}
