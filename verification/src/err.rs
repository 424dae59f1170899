//! The error every configuration step reports.

use vstd::prelude::*;

verus! {

/// What went wrong, independent of the wording of the message.
#[derive(Clone, Copy, Debug, PartialEq, Eq, Structural)]
pub enum ErrorKind {
    /// The named interface does not exist, or a DHCP reply lacks a required option.
    NotFound,
    /// The interface is not administratively up.
    Down,
    /// The interface has no hardware address.
    NoLinkAddress,
    /// No DHCP reply arrived within the deadline.
    Timeout,
    /// An IPv6 address was given where only IPv4 is handled.
    Unsupported,
    /// The interface name does not fit the kernel's name field.
    NameTooLong,
    /// The control socket could not be created.
    SocketCreateFailed,
    /// A control call on the socket failed.
    IoctlFailed,
    /// A configuration file could not be written.
    ConfigWriteFailed,
    /// The link channel could not be opened or used.
    LinkFailed,
    /// A message names a hardware address that is not six bytes long.
    InvalidLinkAddress,
    /// A DHCP message could not be put on the wire.
    EncodeFailed,
    /// The caller reported something that cannot happen in the current state.
    UnexpectedEvent,
    /// No more specific kind applies.
    Other,
}

/// An error of the network bring-up: a kind and a message for the log.
#[derive(Clone, Debug)]
pub struct NetworkConfigurationError {
    pub kind: ErrorKind,
    pub details: String,
}

impl NetworkConfigurationError {
    /// An error of kind [`ErrorKind::Other`] with the message `msg`.
    pub fn new(msg: String) -> (e: NetworkConfigurationError)
        ensures
            e.kind == ErrorKind::Other,
            e.details@ == msg@,
    {
        NetworkConfigurationError { kind: ErrorKind::Other, details: msg }
    }

    /// An error of kind `kind` with the message `msg`.
    pub fn with_kind(kind: ErrorKind, msg: String) -> (e: NetworkConfigurationError)
        ensures
            e.kind == kind,
            e.details@ == msg@,
    {
        NetworkConfigurationError { kind, details: msg }
    }

    /// The message, as `Display` would print it.
    pub fn description(&self) -> (s: String)
        ensures
            s@ == self.details@,
    {
        self.details.clone()
    }
}

} // verus!
