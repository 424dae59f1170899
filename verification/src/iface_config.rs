//! The control socket of one interface and the requests the kernel is sent
//! through it.
//!
//! The requests are built here as plain values: which interface, which
//! flags, which address. The caller owns the descriptor, lays each request
//! out as the kernel wants it, and issues the control call.

use crate::err::{ErrorKind, NetworkConfigurationError};
use crate::iface::IpAddress;
use crate::text::{append_ipv4, dotted, ipv6_display, ipv6_text};
use vstd::prelude::*;
use vstd::string::*;
use vstd::utf8::{encode_utf8, is_ascii_chars, is_ascii_chars_encode_utf8};

verus! {

/// The size of the kernel's interface name field, the closing NUL included.
pub open spec fn name_field_size() -> nat {
    16
}

/// The flag bit of an interface that is administratively up.
pub open spec fn up_bit() -> i16 {
    1
}

/// The bytes of the name `name`: its UTF-8 encoding.
pub open spec fn name_bytes(name: Seq<char>) -> Seq<u8> {
    encode_utf8(name)
}

/// Whether the name `name` fits the kernel's name field: its bytes and a
/// closing NUL.
pub open spec fn name_fits(name: Seq<char>) -> bool {
    name_bytes(name).len() < name_field_size()
}

/// The name field of a request for the interface `name`: the bytes of the
/// name, then NUL bytes up to the size of the field.
pub open spec fn name_field(name: Seq<char>) -> Seq<u8> {
    name_bytes(name) + Seq::new(
        (name_field_size() - name_bytes(name).len()) as nat,
        |i: int| 0u8,
    )
}

/// `flags` with the up bit set, or cleared.
pub open spec fn flags_with_up(flags: i16, up: bool) -> i16 {
    if up {
        flags | up_bit()
    } else {
        flags & !up_bit()
    }
}

/// A name of ASCII characters takes one byte for each: it fits the name
/// field if it has at most fifteen characters, and the field spells it out.
pub proof fn lemma_ascii_name(name: Seq<char>)
    requires
        is_ascii_chars(name),
    ensures
        name_bytes(name).len() == name.len(),
        name_fits(name) <==> name.len() < name_field_size(),
        forall|i: int| 0 <= i < name.len() ==> #[trigger] name_bytes(name)[i] == name[i] as u8,
{
    is_ascii_chars_encode_utf8(name);
}

/// Setting the up bit sets it and clearing it clears it, and no other flag
/// changes either way.
pub proof fn lemma_flags_with_up(flags: i16, up: bool)
    ensures
        flags_with_up(flags, up) & up_bit() == if up {
            up_bit()
        } else {
            0i16
        },
        flags_with_up(flags, up) & !up_bit() == flags & !up_bit(),
{
    assert((flags | 1i16) & 1i16 == 1i16) by (bit_vector);
    assert((flags & !1i16) & 1i16 == 0i16) by (bit_vector);
    assert((flags | 1i16) & !1i16 == flags & !1i16) by (bit_vector);
    assert((flags & !1i16) & !1i16 == flags & !1i16) by (bit_vector);
}

/// A request about one interface, by its name: what the kernel is handed
/// in an `ifreq`.
#[derive(Clone, Copy, Debug)]
pub struct InterfaceRequest {
    /// The name field, NUL-padded.
    pub name: [u8; 16],
    pub payload: RequestPayload,
}

/// What an [`InterfaceRequest`] carries besides the name.
#[derive(Clone, Copy, Debug)]
pub enum RequestPayload {
    /// Nothing: the kernel fills in the answer.
    Blank,
    /// The interface flags.
    Flags(i16),
    /// An IPv4 socket address with port zero.
    Address([u8; 4]),
}

/// A route to add: what the kernel is handed in an `rtentry`. Destination
/// and mask are IPv4 socket addresses, as the gateway is.
#[derive(Clone, Debug)]
pub struct RouteRequest {
    /// The route is usable.
    pub up: bool,
    /// The route goes through a gateway.
    pub via_gateway: bool,
    pub gateway: [u8; 4],
    pub destination: [u8; 4],
    pub genmask: [u8; 4],
    /// The interface the route is bound to.
    pub device: String,
}

/// The control handle of one interface: the descriptor of a datagram
/// socket, and the name of the interface it is used for.
#[derive(Debug)]
pub struct ConfigSocket {
    pub fd: i32,
    pub iface: String,
}

/// `libc::IFNAMSIZ`, which on Linux is 16.
#[verifier::external_body]
pub(crate) fn interface_name_size() -> (size: usize)
    ensures
        size == name_field_size(),
{
    libc::IFNAMSIZ
}

/// `libc::IFF_UP`, which on Linux is bit 0 of the flags, as the 16-bit
/// flags field holds it.
#[verifier::external_body]
fn interface_up_flag() -> (flag: i16)
    ensures
        flag == up_bit(),
{
    libc::IFF_UP as i16
}

fn unsupported() -> (error: NetworkConfigurationError)
    ensures
        error.kind == ErrorKind::Unsupported,
        error.details@ == "IPv6 is not supported"@,
{
    NetworkConfigurationError::with_kind(
        ErrorKind::Unsupported,
        String::from_str("IPv6 is not supported"),
    )
}

impl ConfigSocket {
    /// Whether the name of the interface fits the kernel's name field.
    pub open spec fn wf(&self) -> bool {
        name_fits(self.iface@)
    }

    /// The control handle for the interface `iface` on the descriptor
    /// `fd`. A name of 16 bytes or more does not fit the kernel's name
    /// field and gets `NameTooLong`.
    pub fn new(iface: String, fd: i32) -> (socket: Result<ConfigSocket, NetworkConfigurationError>)
        ensures
            match socket {
                Ok(socket) => name_fits(iface@) && socket.fd == fd && socket.iface == iface
                    && socket.wf(),
                Err(error) => !name_fits(iface@) && error.kind
                    == ErrorKind::NameTooLong && error.details@ == "Interface name '"@ + iface@
                    + "' exceeds max length of 16"@,
            },
    {
        if iface.as_str().as_bytes().len() >= interface_name_size() {
            return Err(
                NetworkConfigurationError::with_kind(
                    ErrorKind::NameTooLong,
                    String::from_str("Interface name '").concat(iface.as_str()).concat(
                        "' exceeds max length of 16",
                    ),
                ),
            );
        }
        Ok(ConfigSocket { fd, iface })
    }

    /// A blank request that names the interface: the name field holds the
    /// name and is zero behind it.
    pub fn request(&self) -> (blank: InterfaceRequest)
        requires
            self.wf(),
        ensures
            blank.name@ == name_field(self.iface@),
            blank.payload is Blank,
    {
        let bytes = self.iface.as_str().as_bytes();
        let mut name: [u8; 16] = [0u8; 16];
        let mut index: usize = 0;
        while index < bytes.len()
            invariant
                index <= bytes.len() < 16,
                forall|i: int| 0 <= i < index ==> name@[i] == bytes@[i],
                forall|i: int| index <= i < 16 ==> name@[i] == 0,
            decreases bytes.len() - index,
        {
            name[index] = bytes[index];
            index = index + 1;
        }
        assert(name@ =~= name_field(self.iface@));
        InterfaceRequest { name, payload: RequestPayload::Blank }
    }

    /// The request that brings the interface up, or takes it down: the
    /// flags that were read, with the up bit set or cleared, to be written
    /// back. Every other flag stays as it was.
    pub fn enable(&self, flags: i16, value: bool) -> (update: InterfaceRequest)
        requires
            self.wf(),
        ensures
            update.name@ == name_field(self.iface@),
            update.payload == RequestPayload::Flags(flags_with_up(flags, value)),
    {
        let blank = self.request();
        let bit = interface_up_flag();
        let updated = if value {
            flags | bit
        } else {
            flags & !bit
        };
        InterfaceRequest { name: blank.name, payload: RequestPayload::Flags(updated) }
    }

    /// The request that sets the address of the interface. Only an IPv4
    /// address can be set; any other gets `Unsupported`.
    pub fn set_ip(&self, addr: IpAddress) -> (update: Result<
        InterfaceRequest,
        NetworkConfigurationError,
    >)
        requires
            self.wf(),
        ensures
            match update {
                Ok(request) => addr == IpAddress::V4(request.payload->Address_0)
                    && request.payload is Address && request.name@ == name_field(self.iface@),
                Err(error) => addr is V6 && error.kind == ErrorKind::Unsupported
                    && error.details@ == "IPv6 is not supported"@,
            },
    {
        match addr {
            IpAddress::V4(ip) => {
                let blank = self.request();
                Ok(InterfaceRequest { name: blank.name, payload: RequestPayload::Address(ip) })
            },
            IpAddress::V6(_) => Err(unsupported()),
        }
    }

    /// The request that sets the netmask of the interface. Only an IPv4
    /// mask can be set; any other gets `Unsupported`.
    pub fn set_netmask(&self, netmask: IpAddress) -> (update: Result<
        InterfaceRequest,
        NetworkConfigurationError,
    >)
        requires
            self.wf(),
        ensures
            match update {
                Ok(request) => netmask == IpAddress::V4(request.payload->Address_0)
                    && request.payload is Address && request.name@ == name_field(self.iface@),
                Err(error) => netmask is V6 && error.kind == ErrorKind::Unsupported
                    && error.details@ == "IPv6 is not supported"@,
            },
    {
        match netmask {
            IpAddress::V4(ip) => {
                let blank = self.request();
                Ok(InterfaceRequest { name: blank.name, payload: RequestPayload::Address(ip) })
            },
            IpAddress::V6(_) => Err(unsupported()),
        }
    }

    /// The default route through `gateway`: usable, through a gateway, to
    /// the destination `0.0.0.0` with the mask `0.0.0.0`, bound to the
    /// interface. Only an IPv4 gateway can be set; any other gets
    /// `Unsupported`.
    pub fn set_gateway(&self, gateway: IpAddress) -> (route: Result<
        RouteRequest,
        NetworkConfigurationError,
    >)
        ensures
            match route {
                Ok(route) => gateway == IpAddress::V4(route.gateway) && route.up
                    && route.via_gateway && route.destination@ == seq![0u8, 0u8, 0u8, 0u8]
                    && route.genmask@ == seq![0u8, 0u8, 0u8, 0u8] && route.device == self.iface,
                Err(error) => gateway is V6 && error.kind == ErrorKind::Unsupported
                    && error.details@ == "IPv6 is not supported"@,
            },
    {
        match gateway {
            IpAddress::V4(ip) => {
                let any: [u8; 4] = [0, 0, 0, 0];
                Ok(
                    RouteRequest {
                        up: true,
                        via_gateway: true,
                        gateway: ip,
                        destination: any,
                        genmask: any,
                        device: self.iface.clone(),
                    },
                )
            },
            IpAddress::V6(_) => Err(unsupported()),
        }
    }
}

/// The file that names the DNS server.
pub const RESOLV_CONF: &'static str = "/etc/resolv.conf";

/// `addr` the way it is written in text: dotted decimal for IPv4, the
/// compressed form for IPv6.
pub open spec fn address_text(addr: IpAddress) -> Seq<char> {
    match addr {
        IpAddress::V4(ip) => dotted(ip@),
        IpAddress::V6(ip) => ipv6_display(ip@),
    }
}

/// What [`RESOLV_CONF`] holds when the DNS server is `addr`: a single
/// `nameserver` line, without a line end.
pub fn set_dns(addr: IpAddress) -> (content: String)
    ensures
        content@ == "nameserver "@ + address_text(addr),
{
    match addr {
        IpAddress::V4(ip) => append_ipv4(String::from_str("nameserver "), &ip),
        IpAddress::V6(ip) => {
            let text = ipv6_text(&ip);
            String::from_str("nameserver ").concat(text.as_str())
        },
    }
}

} // verus!
