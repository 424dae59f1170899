//! The bring-up of a system that has no network but its own: the loopback
//! interface is configured, and the interfaces are listed before and after.

use crate::iface::{bring_up, Operation, Step};
use vstd::prelude::*;
use vstd::string::*;

verus! {

/// A failure of the loopback bring-up: what failed, and the `errno` of the
/// failure, or zero if there is none.
#[derive(Clone, Debug)]
pub struct NetworkError {
    pub message: String,
    pub err: i32,
}

/// What the caller of [`configure_network`] does next.
#[derive(Clone, Debug)]
pub enum ServiceTask {
    /// Look up the addresses of the interfaces and print [`interface_line`]
    /// for each.
    ListInterfaces,
    /// Carry out the steps of [`configure_loopback`] on `lo`.
    ConfigureLoopback,
    /// The bring-up is over.
    Done,
    /// The bring-up is given up.
    Abort(NetworkError),
}

/// The address of the loopback interface.
pub open spec fn loopback_address() -> [u8; 4] {
    [127u8, 0u8, 0u8, 1u8]
}

/// The task that is due after `done` tasks.
pub open spec fn scheduled(done: int) -> ServiceTask {
    if done == 1 {
        ServiceTask::ConfigureLoopback
    } else if done <= 2 {
        ServiceTask::ListInterfaces
    } else {
        ServiceTask::Done
    }
}

/// The steps that configure the loopback interface: it is brought up and
/// given the address `127.0.0.1`.
pub fn configure_loopback() -> (steps: Vec<Step>)
    ensures
        steps@ == bring_up() + seq![Step::Perform(Operation::SetAddress(loopback_address()))],
{
    let mut steps: Vec<Step> = Vec::new();
    steps.push(Step::Perform(Operation::OpenSocket));
    steps.push(Step::Perform(Operation::ReadFlags));
    steps.push(Step::Perform(Operation::WriteFlags { up: true }));
    steps.push(Step::Perform(Operation::SetAddress([127, 0, 0, 1])));
    assert(steps@ =~= bring_up() + seq![
        Step::Perform(Operation::SetAddress(loopback_address())),
    ]);
    steps
}

/// The error of a system that does not tell the addresses of its
/// interfaces.
pub fn list_failure(errno: i32) -> (error: NetworkError)
    ensures
        error.message@ == "failed to get interface addresses"@,
        error.err == errno,
{
    NetworkError { message: String::from_str("failed to get interface addresses"), err: errno }
}

/// The line that is printed for the interface `name`: with its address,
/// or with the remark that the address is of a family that cannot be shown.
pub fn interface_line(name: &str, address: Option<&str>) -> (line: String)
    ensures
        line@ == match address {
            Some(address) => "interface "@ + name@ + " address "@ + address@,
            None => "interface "@ + name@ + " with unsupported address family"@,
        },
{
    match address {
        Some(address) => String::from_str("interface ").concat(name).concat(" address ").concat(
            address,
        ),
        None => String::from_str("interface ").concat(name).concat(
            " with unsupported address family",
        ),
    }
}

/// The next task of the loopback bring-up, after `done` of its tasks were
/// carried out. `last` is the error with which the task before ended, if it
/// failed. The interfaces are listed, the loopback interface is configured,
/// and the interfaces are listed again; the first failure ends it all.
pub fn configure_network(done: usize, last: Option<NetworkError>) -> (task: ServiceTask)
    ensures
        task == match last {
            Some(error) => if done > 0 {
                ServiceTask::Abort(error)
            } else {
                scheduled(0)
            },
            None => scheduled(done as int),
        },
{
    if done > 0 {
        if let Some(error) = last {
            return ServiceTask::Abort(error);
        }
    }
    if done == 1 {
        ServiceTask::ConfigureLoopback
    } else if done <= 2 {
        ServiceTask::ListInterfaces
    } else {
        ServiceTask::Done
    }
}

} // verus!
