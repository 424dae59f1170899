//! The network bring-up of one boot: the hosts file first, then every
//! interface in its turn, whatever became of the one before.

use crate::err::{ErrorKind, NetworkConfigurationError};
use crate::iface::{
    DynamicNetworkInterfaceConfig, IpAddress, NetworkInterfaceConfig, StaticNetworkInterfaceConfig,
};
use vstd::prelude::*;
use vstd::string::*;

verus! {

/// The file that maps host names to addresses.
pub const HOSTS_PATH: &'static str = "/etc/hosts";

/// What [`HOSTS_PATH`] is given to hold: `localhost`, for IPv4 and IPv6.
pub const HOSTS: &'static str = "127.0.0.1 localhost\n::1 localhost\n";

/// What the caller of [`configure_network`] does next.
#[derive(Debug)]
pub enum Task {
    /// Write [`HOSTS`] to [`HOSTS_PATH`].
    WriteHosts,
    /// Apply the configuration with this index.
    Apply(usize),
    /// Look up the interfaces of the system and log them.
    ListInterfaces,
    /// The bring-up is over, and counts as a success.
    Done,
    /// The bring-up is given up.
    Abort(NetworkConfigurationError),
}

/// Whether the bring-up is given up after `done` tasks, the last of which
/// ended with `last`: only the hosts file is indispensable.
pub open spec fn gives_up(done: int, last: Option<NetworkConfigurationError>) -> bool {
    done == 1 && last is Some
}

/// The task that is due after `done` tasks of a bring-up with `count`
/// configurations: the hosts file, every configuration in order, the list
/// of interfaces, and that is all.
pub open spec fn scheduled(count: int, done: int) -> Task {
    if done <= 0 {
        Task::WriteHosts
    } else if done <= count {
        Task::Apply((done - 1) as usize)
    } else if done == count + 1 {
        Task::ListInterfaces
    } else {
        Task::Done
    }
}

/// The configurations of a boot without any of its own: the loopback
/// interface `lo` with `127.0.0.1/255.0.0.0`, and `eth0` by DHCP.
pub fn default_configuration() -> (configs: Vec<NetworkInterfaceConfig>)
    ensures
        configs@.len() == 2,
        configs@[0] matches NetworkInterfaceConfig::Static(lo) && lo.name@ == "lo"@ && lo.ip
            == IpAddress::V4([127u8, 0u8, 0u8, 1u8]) && lo.netmask == IpAddress::V4(
            [255u8, 0u8, 0u8, 0u8],
        ) && lo.gateway == IpAddress::V4([127u8, 0u8, 0u8, 1u8]) && lo.dns is None,
        configs@[1] matches NetworkInterfaceConfig::Dynamic(eth) && eth.name@ == "eth0"@,
{
    let mut configs: Vec<NetworkInterfaceConfig> = Vec::new();
    configs.push(
        NetworkInterfaceConfig::Static(
            StaticNetworkInterfaceConfig {
                name: String::from_str("lo"),
                ip: IpAddress::V4([127, 0, 0, 1]),
                netmask: IpAddress::V4([255, 0, 0, 0]),
                gateway: IpAddress::V4([127, 0, 0, 1]),
                dns: None,
            },
        ),
    );
    configs.push(
        NetworkInterfaceConfig::Dynamic(
            DynamicNetworkInterfaceConfig { name: String::from_str("eth0") },
        ),
    );
    configs
}

/// The next task of the bring-up with the configurations `configs`, after
/// `done` of its tasks were carried out. `last` is the error with which
/// the task before ended, if it failed.
///
/// The hosts file comes first, and if it cannot be written nothing else is
/// touched. Then every configuration is applied, in order; a failure of
/// one is for the caller to log and does not keep the next from its turn.
/// The interfaces are listed at the end, and the bring-up is done.
pub fn configure_network(
    configs: &Vec<NetworkInterfaceConfig>,
    done: usize,
    last: Option<&NetworkConfigurationError>,
) -> (task: Task)
    ensures
        ({
            let failed = gives_up(
                done as int,
                match last {
                    Some(error) => Some(*error),
                    None => None,
                },
            );
            if failed {
                task matches Task::Abort(error) && error.kind == ErrorKind::ConfigWriteFailed
                    && error.details@ == "Failed configuring '/etc/hosts': "@
                    + last->Some_0.details@
            } else {
                task == scheduled(configs@.len() as int, done as int)
            }
        }),
{
    if done == 0 {
        return Task::WriteHosts;
    }
    if done == 1 {
        if let Some(cause) = last {
            return Task::Abort(
                NetworkConfigurationError::with_kind(
                    ErrorKind::ConfigWriteFailed,
                    String::from_str("Failed configuring '/etc/hosts': ").concat(
                        cause.details.as_str(),
                    ),
                ),
            );
        }
    }
    if done - 1 < configs.len() {
        Task::Apply(done - 1)
    } else if done - 1 == configs.len() {
        Task::ListInterfaces
    } else {
        Task::Done
    }
}

/// The line to log when `config` could not be applied.
pub fn failure_report(config: &NetworkInterfaceConfig, error: &NetworkConfigurationError) -> (line:
    String)
    ensures
        line@ == "Failed configuring '"@ + config.name_view() + "': "@ + error.details@,
{
    String::from_str("Failed configuring '").concat(config.name().as_str()).concat("': ").concat(
        error.details.as_str(),
    )
}

/// What became of one configuration in a bring-up.
#[derive(Clone, Debug)]
pub struct InterfaceReport {
    /// The interface the configuration is for.
    pub name: String,
    pub succeeded: bool,
}

/// The report of a bring-up: for every configuration that was applied, in
/// order, the interface and whether it succeeded. `failures` holds for each
/// of them the error it failed with, if it failed. What is said of one
/// configuration depends on nothing that became of another.
pub fn report(
    configs: &Vec<NetworkInterfaceConfig>,
    failures: &Vec<Option<NetworkConfigurationError>>,
) -> (lines: Vec<InterfaceReport>)
    ensures
        lines@.len() == if configs@.len() <= failures@.len() {
            configs@.len()
        } else {
            failures@.len()
        },
        forall|i: int|
            0 <= i < lines@.len() ==> (#[trigger] lines@[i]).name@ == configs@[i].name_view()
                && lines@[i].succeeded == (failures@[i] is None),
{
    let mut lines: Vec<InterfaceReport> = Vec::new();
    let mut index: usize = 0;
    while index < configs.len() && index < failures.len()
        invariant
            index <= configs.len(),
            index <= failures.len(),
            lines@.len() == index,
            forall|i: int|
                0 <= i < index ==> (#[trigger] lines@[i]).name@ == configs@[i].name_view()
                    && lines@[i].succeeded == (failures@[i] is None),
        decreases configs.len() - index,
    {
        lines.push(
            InterfaceReport {
                name: configs[index].name().clone(),
                succeeded: failures[index].is_none(),
            },
        );
        index = index + 1;
    }
    lines
}

/// A configuration that fails does not stop the bring-up: once the hosts
/// file is written, which task comes next does not depend on how the one
/// before it ended, and every configuration gets its turn.
pub proof fn lemma_every_configuration_is_applied(
    count: int,
    index: int,
    last: Option<NetworkConfigurationError>,
)
    requires
        0 <= index < count <= usize::MAX,
    ensures
        scheduled(count, index + 1) == Task::Apply(index as usize),
        index > 0 ==> !gives_up(index + 1, last),
{
}

} // verus!
