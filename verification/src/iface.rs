//! Interface configurations, static or by DHCP, and the steps that apply
//! them.

use crate::err::{ErrorKind, NetworkConfigurationError};
use crate::iface_config::{interface_name_size, name_fits};
use vstd::prelude::*;
use vstd::string::*;

verus! {

/// An IP address. Only IPv4 can be configured; an IPv6 address can be
/// written down, and is turned away where it is used.
#[derive(Clone, Copy, Debug)]
pub enum IpAddress {
    V4([u8; 4]),
    V6([u8; 16]),
}

/// What the system reports of a network interface, as far as the
/// configuration looks at it.
#[derive(Clone, Debug)]
pub struct InterfaceInfo {
    pub name: String,
    /// The hardware address, if the interface has one.
    pub mac: Option<[u8; 6]>,
    /// Whether the interface is administratively up.
    pub up: bool,
    pub loopback: bool,
}

/// A fixed configuration of one interface.
#[derive(Clone, Debug)]
pub struct StaticNetworkInterfaceConfig {
    pub name: String,
    pub ip: IpAddress,
    pub netmask: IpAddress,
    pub gateway: IpAddress,
    pub dns: Option<IpAddress>,
}

/// An interface that gets its configuration from a DHCP server.
#[derive(Clone, Debug)]
pub struct DynamicNetworkInterfaceConfig {
    pub name: String,
}

/// A network interface configuration, either static or by DHCP.
#[derive(Clone, Debug)]
pub enum NetworkInterfaceConfig {
    Static(StaticNetworkInterfaceConfig),
    Dynamic(DynamicNetworkInterfaceConfig),
}

/// The index of the first interface at or behind `from` that is called
/// `name`, or the number of interfaces if there is none.
pub open spec fn first_named(interfaces: Seq<InterfaceInfo>, name: Seq<char>, from: int) -> int
    decreases interfaces.len() - from,
{
    if from < 0 || from >= interfaces.len() {
        interfaces.len() as int
    } else if interfaces[from].name@ == name {
        from
    } else {
        first_named(interfaces, name, from + 1)
    }
}

/// The first interface that is called `name`.
pub open spec fn lookup(interfaces: Seq<InterfaceInfo>, name: Seq<char>) -> Option<InterfaceInfo> {
    if first_named(interfaces, name, 0) < interfaces.len() {
        Some(interfaces[first_named(interfaces, name, 0)])
    } else {
        None
    }
}

/// The first of `interfaces` that is called `name`.
pub fn find_interface<'a>(interfaces: &'a Vec<InterfaceInfo>, name: &String) -> (found: Option<
    &'a InterfaceInfo,
>)
    ensures
        match found {
            Some(interface) => lookup(interfaces@, name@) == Some(*interface),
            None => lookup(interfaces@, name@) is None,
        },
{
    let mut index: usize = 0;
    while index < interfaces.len()
        invariant
            index <= interfaces.len(),
            first_named(interfaces@, name@, 0) == first_named(interfaces@, name@, index as int),
        decreases interfaces.len() - index,
    {
        if interfaces[index].name == *name {
            return Some(&interfaces[index]);
        }
        index = index + 1;
    }
    None
}

/// One thing done to the interface of a configuration.
#[derive(Clone, Copy, Debug)]
pub enum Operation {
    /// Create the control socket for the interface.
    OpenSocket,
    /// Read the flags of the interface.
    ReadFlags,
    /// Write the flags back, with the up bit set or cleared.
    WriteFlags { up: bool },
    SetAddress([u8; 4]),
    SetNetmask([u8; 4]),
    /// Add the default route through this gateway.
    SetGateway([u8; 4]),
    /// Overwrite the resolver configuration to name this server.
    WriteResolver(IpAddress),
    /// Run the DHCP exchange on the interface.
    ResolveDhcp,
    /// Apply the lease the exchange ended with as a static configuration.
    ApplyLease,
}

/// One step of applying a configuration: something to do, or the finding
/// that the configuration cannot be applied any further.
#[derive(Clone, Copy, Debug)]
pub enum Step {
    Perform(Operation),
    Reject(ErrorKind),
}

/// What the caller does next while it applies a configuration.
#[derive(Debug)]
pub enum Move {
    /// Do this and report how it ended.
    Perform(Operation),
    /// Nothing is left to do: the configuration is applied, or it failed.
    Finish(Result<(), NetworkConfigurationError>),
}

/// The steps that bring an interface up through its control socket.
pub open spec fn bring_up() -> Seq<Step> {
    seq![
        Step::Perform(Operation::OpenSocket),
        Step::Perform(Operation::ReadFlags),
        Step::Perform(Operation::WriteFlags { up: true }),
    ]
}

/// The last steps of a static configuration: the resolver, if the
/// configuration names a DNS server.
pub open spec fn resolver_steps(dns: Option<IpAddress>) -> Seq<Step> {
    match dns {
        Some(server) => seq![Step::Perform(Operation::WriteResolver(server))],
        None => Seq::empty(),
    }
}

/// The steps from the gateway on. A loopback interface gets no route.
pub open spec fn gateway_steps(config: StaticNetworkInterfaceConfig, loopback: bool) -> Seq<Step> {
    if loopback {
        resolver_steps(config.dns)
    } else {
        match config.gateway {
            IpAddress::V4(gateway) => seq![Step::Perform(Operation::SetGateway(gateway))]
                + resolver_steps(config.dns),
            IpAddress::V6(_) => seq![Step::Reject(ErrorKind::Unsupported)],
        }
    }
}

/// The steps from the netmask on.
pub open spec fn netmask_steps(config: StaticNetworkInterfaceConfig, loopback: bool) -> Seq<Step> {
    match config.netmask {
        IpAddress::V4(netmask) => seq![Step::Perform(Operation::SetNetmask(netmask))]
            + gateway_steps(config, loopback),
        IpAddress::V6(_) => seq![Step::Reject(ErrorKind::Unsupported)],
    }
}

/// The steps from the address on. The first address that is not IPv4 ends
/// them.
pub open spec fn address_steps(config: StaticNetworkInterfaceConfig, loopback: bool) -> Seq<Step> {
    match config.ip {
        IpAddress::V4(ip) => seq![Step::Perform(Operation::SetAddress(ip))] + netmask_steps(
            config,
            loopback,
        ),
        IpAddress::V6(_) => seq![Step::Reject(ErrorKind::Unsupported)],
    }
}

/// The steps that apply the static configuration `config` on a system with
/// the interfaces `interfaces`: the interface must exist and its name must
/// fit the control socket; then it is brought up and given address,
/// netmask, default route (unless it is the loopback interface) and
/// resolver, in this order.
pub open spec fn static_plan(config: StaticNetworkInterfaceConfig, interfaces: Seq<InterfaceInfo>)
    -> Seq<Step> {
    match lookup(interfaces, config.name@) {
        None => seq![Step::Reject(ErrorKind::NotFound)],
        Some(interface) => if !name_fits(config.name@) {
            seq![Step::Reject(ErrorKind::NameTooLong)]
        } else {
            bring_up() + address_steps(config, interface.loopback)
        },
    }
}

/// The steps that apply the dynamic configuration of the interface `name`:
/// it is brought up, a lease is asked for, and the lease is applied.
pub open spec fn dynamic_plan(name: Seq<char>) -> Seq<Step> {
    if !name_fits(name) {
        seq![Step::Reject(ErrorKind::NameTooLong)]
    } else {
        bring_up() + seq![
            Step::Perform(Operation::ResolveDhcp),
            Step::Perform(Operation::ApplyLease),
        ]
    }
}

/// The kind of error a failure of `operation` is. A failed DHCP exchange
/// or lease keeps the kind of its cause.
pub open spec fn failure_kind(operation: Operation, cause: ErrorKind) -> ErrorKind {
    match operation {
        Operation::OpenSocket => ErrorKind::SocketCreateFailed,
        Operation::WriteResolver(_) => ErrorKind::ConfigWriteFailed,
        Operation::ResolveDhcp => cause,
        Operation::ApplyLease => cause,
        _ => ErrorKind::IoctlFailed,
    }
}

/// What the message of a failure of `operation` begins with; the message
/// of the cause follows.
pub open spec fn failure_prefix(operation: Operation) -> Seq<char> {
    match operation {
        Operation::OpenSocket => "Failed to create config socket: "@,
        Operation::ReadFlags => "Failed to get interface flags: "@,
        Operation::WriteFlags { up } => "Failed to set interface flags: "@,
        Operation::SetAddress(_) => "Failed to set interface address: "@,
        Operation::SetNetmask(_) => "Failed to set interface netmask: "@,
        Operation::SetGateway(_) => "Failed to set interface gateway: "@,
        Operation::WriteResolver(_) => "Failed configuring DNS: "@,
        Operation::ResolveDhcp => "DHCP config failed: "@,
        Operation::ApplyLease => ""@,
    }
}

/// The message of a rejection of kind `kind` for the interface `name`.
pub open spec fn rejection_text(kind: ErrorKind, name: Seq<char>) -> Seq<char> {
    match kind {
        ErrorKind::NotFound => "Interface '"@ + name + "' not found"@,
        ErrorKind::NameTooLong => "Interface name '"@ + name + "' exceeds max length of 16"@,
        ErrorKind::Unsupported => "IPv6 is not supported"@,
        _ => "Interface '"@ + name + "' cannot be configured"@,
    }
}

/// Whether the step before `position` was performed and has failed.
pub open spec fn has_failed(
    plan: Seq<Step>,
    position: int,
    last: Option<NetworkConfigurationError>,
) -> bool {
    0 < position <= plan.len() && plan[position - 1] is Perform && last is Some
}

/// The ways of applying a configuration to the system.
pub trait NetworkInterfaceConfigApply {
    /// The steps that apply the configuration on a system with the
    /// interfaces `interfaces`.
    spec fn plan(&self, interfaces: Seq<InterfaceInfo>) -> Seq<Step>;

    /// The steps that apply the configuration, in order. Each is performed
    /// only after the one before it has succeeded; see [`advance`].
    fn apply(&self, interfaces: &Vec<InterfaceInfo>) -> (steps: Vec<Step>)
        ensures
            steps@ == self.plan(interfaces@),
    ;
}

fn name_is_short(name: &String) -> (fits: bool)
    ensures
        fits == name_fits(name@),
{
    name.as_str().as_bytes().len() < interface_name_size()
}

fn push_bring_up(steps: &mut Vec<Step>)
    ensures
        final(steps)@ == old(steps)@ + bring_up(),
{
    steps.push(Step::Perform(Operation::OpenSocket));
    steps.push(Step::Perform(Operation::ReadFlags));
    steps.push(Step::Perform(Operation::WriteFlags { up: true }));
    assert(steps@ =~= old(steps)@ + bring_up());
}

impl NetworkInterfaceConfigApply for StaticNetworkInterfaceConfig {
    open spec fn plan(&self, interfaces: Seq<InterfaceInfo>) -> Seq<Step> {
        static_plan(*self, interfaces)
    }

    fn apply(&self, interfaces: &Vec<InterfaceInfo>) -> (steps: Vec<Step>) {
        let mut steps: Vec<Step> = Vec::new();
        let interface = match find_interface(interfaces, &self.name) {
            Some(interface) => interface,
            None => {
                steps.push(Step::Reject(ErrorKind::NotFound));
                return steps;
            },
        };
        if !name_is_short(&self.name) {
            steps.push(Step::Reject(ErrorKind::NameTooLong));
            return steps;
        }
        push_bring_up(&mut steps);
        match self.ip {
            IpAddress::V4(ip) => steps.push(Step::Perform(Operation::SetAddress(ip))),
            IpAddress::V6(_) => {
                steps.push(Step::Reject(ErrorKind::Unsupported));
                assert(steps@ =~= static_plan(*self, interfaces@));
                return steps;
            },
        }
        match self.netmask {
            IpAddress::V4(netmask) => steps.push(Step::Perform(Operation::SetNetmask(netmask))),
            IpAddress::V6(_) => {
                steps.push(Step::Reject(ErrorKind::Unsupported));
                assert(steps@ =~= static_plan(*self, interfaces@));
                return steps;
            },
        }
        if !interface.loopback {
            match self.gateway {
                IpAddress::V4(gateway) => steps.push(
                    Step::Perform(Operation::SetGateway(gateway)),
                ),
                IpAddress::V6(_) => {
                    steps.push(Step::Reject(ErrorKind::Unsupported));
                    assert(steps@ =~= static_plan(*self, interfaces@));
                    return steps;
                },
            }
        }
        if let Some(server) = self.dns {
            steps.push(Step::Perform(Operation::WriteResolver(server)));
        }
        assert(steps@ =~= static_plan(*self, interfaces@));
        steps
    }
}

impl NetworkInterfaceConfigApply for DynamicNetworkInterfaceConfig {
    open spec fn plan(&self, interfaces: Seq<InterfaceInfo>) -> Seq<Step> {
        dynamic_plan(self.name@)
    }

    fn apply(&self, interfaces: &Vec<InterfaceInfo>) -> (steps: Vec<Step>) {
        let mut steps: Vec<Step> = Vec::new();
        if !name_is_short(&self.name) {
            steps.push(Step::Reject(ErrorKind::NameTooLong));
            return steps;
        }
        push_bring_up(&mut steps);
        steps.push(Step::Perform(Operation::ResolveDhcp));
        steps.push(Step::Perform(Operation::ApplyLease));
        assert(steps@ =~= dynamic_plan(self.name@));
        steps
    }
}

impl NetworkInterfaceConfigApply for NetworkInterfaceConfig {
    open spec fn plan(&self, interfaces: Seq<InterfaceInfo>) -> Seq<Step> {
        match self {
            NetworkInterfaceConfig::Static(config) => config.plan(interfaces),
            NetworkInterfaceConfig::Dynamic(config) => config.plan(interfaces),
        }
    }

    fn apply(&self, interfaces: &Vec<InterfaceInfo>) -> (steps: Vec<Step>) {
        match self {
            NetworkInterfaceConfig::Static(config) => config.apply(interfaces),
            NetworkInterfaceConfig::Dynamic(config) => config.apply(interfaces),
        }
    }
}

impl NetworkInterfaceConfig {
    /// The name of the interface the configuration is for.
    pub open spec fn name_view(&self) -> Seq<char> {
        match self {
            NetworkInterfaceConfig::Static(config) => config.name@,
            NetworkInterfaceConfig::Dynamic(config) => config.name@,
        }
    }

    /// The name of the interface the configuration is for.
    pub fn name(&self) -> (name: &String)
        ensures
            name@ == self.name_view(),
    {
        match self {
            NetworkInterfaceConfig::Static(config) => &config.name,
            NetworkInterfaceConfig::Dynamic(config) => &config.name,
        }
    }
}

fn kind_of_failure(operation: Operation, cause: ErrorKind) -> (kind: ErrorKind)
    ensures
        kind == failure_kind(operation, cause),
{
    match operation {
        Operation::OpenSocket => ErrorKind::SocketCreateFailed,
        Operation::WriteResolver(_) => ErrorKind::ConfigWriteFailed,
        Operation::ResolveDhcp => cause,
        Operation::ApplyLease => cause,
        _ => ErrorKind::IoctlFailed,
    }
}

fn prefix_of_failure(operation: Operation) -> (prefix: &'static str)
    ensures
        prefix@ == failure_prefix(operation),
{
    match operation {
        Operation::OpenSocket => "Failed to create config socket: ",
        Operation::ReadFlags => "Failed to get interface flags: ",
        Operation::WriteFlags { up } => "Failed to set interface flags: ",
        Operation::SetAddress(_) => "Failed to set interface address: ",
        Operation::SetNetmask(_) => "Failed to set interface netmask: ",
        Operation::SetGateway(_) => "Failed to set interface gateway: ",
        Operation::WriteResolver(_) => "Failed configuring DNS: ",
        Operation::ResolveDhcp => "DHCP config failed: ",
        Operation::ApplyLease => "",
    }
}

fn rejection(kind: ErrorKind, name: &String) -> (error: NetworkConfigurationError)
    ensures
        error.kind == kind,
        error.details@ == rejection_text(kind, name@),
{
    let text = match kind {
        ErrorKind::NotFound => String::from_str("Interface '").concat(name.as_str()).concat(
            "' not found",
        ),
        ErrorKind::NameTooLong => String::from_str("Interface name '").concat(
            name.as_str(),
        ).concat("' exceeds max length of 16"),
        ErrorKind::Unsupported => String::from_str("IPv6 is not supported"),
        _ => String::from_str("Interface '").concat(name.as_str()).concat(
            "' cannot be configured",
        ),
    };
    NetworkConfigurationError::with_kind(kind, text)
}

/// The next move in applying the steps `steps` to the interface `name`,
/// after `position` of them were dealt with. `last` is the error with
/// which the step before ended, if it was performed and failed; an error
/// of the system is reported with the kind `Other`.
///
/// A failure ends the application: the error keeps the message of its
/// cause behind a prefix that names the step, and gets the kind of the
/// step. Otherwise the next step is due: it is performed, or it is a
/// rejection and ends the application with its error. After the last step
/// the configuration is applied.
pub fn advance(
    steps: &Vec<Step>,
    name: &String,
    position: usize,
    last: Option<&NetworkConfigurationError>,
) -> (next: Move)
    ensures
        ({
            let failure = has_failed(
                steps@,
                position as int,
                match last {
                    Some(error) => Some(*error),
                    None => None,
                },
            );
            match next {
                Move::Perform(operation) => !failure && position < steps@.len() && steps@[position as int]
                    == Step::Perform(operation),
                Move::Finish(Ok(_)) => !failure && position >= steps@.len(),
                Move::Finish(Err(error)) => if failure {
                    let operation = steps@[position - 1]->Perform_0;
                    &&& error.kind == failure_kind(operation, last->Some_0.kind)
                    &&& error.details@ == failure_prefix(operation) + last->Some_0.details@
                } else {
                    &&& position < steps@.len()
                    &&& steps@[position as int] is Reject
                    &&& error.kind == steps@[position as int]->Reject_0
                    &&& error.details@ == rejection_text(error.kind, name@)
                },
            }
        }),
{
    if 0 < position && position <= steps.len() {
        if let Step::Perform(operation) = steps[position - 1] {
            if let Some(cause) = last {
                return Move::Finish(
                    Err(
                        NetworkConfigurationError::with_kind(
                            kind_of_failure(operation, cause.kind),
                            String::from_str(prefix_of_failure(operation)).concat(
                                cause.details.as_str(),
                            ),
                        ),
                    ),
                );
            }
        }
    }
    if position >= steps.len() {
        return Move::Finish(Ok(()));
    }
    match steps[position] {
        Step::Perform(operation) => Move::Perform(operation),
        Step::Reject(kind) => Move::Finish(Err(rejection(kind, name))),
    }
}

/// Whether `step` adds a default route.
pub open spec fn sets_gateway(step: Step) -> bool {
    step matches Step::Perform(Operation::SetGateway(_))
}

/// The loopback interface never gets a route: no step of its static
/// configuration sets a gateway, whatever gateway the configuration names.
pub proof fn lemma_loopback_has_no_gateway(
    config: StaticNetworkInterfaceConfig,
    interfaces: Seq<InterfaceInfo>,
)
    requires
        lookup(interfaces, config.name@) matches Some(interface) && interface.loopback,
    ensures
        forall|index: int|
            0 <= index < static_plan(config, interfaces).len() ==> !sets_gateway(
                #[trigger] static_plan(config, interfaces)[index],
            ),
{
}

} // verus!
