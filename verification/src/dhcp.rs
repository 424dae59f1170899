//! The DHCP client: DISCOVER, OFFER, REQUEST, ACK, and the configuration
//! that comes of the ACK.
//!
//! The client neither sends nor receives. [`request`] says after every
//! event what is to be done next: put a frame on the wire, wait for a reply,
//! or stop with a result.

use crate::err::{ErrorKind, NetworkConfigurationError};
use crate::checksum::plain_checksum;
use crate::frame::{
    dhcp_frame, encapsulate, ipv4_header_of, lemma_frame_length, lemma_header_checksum_valid,
    lemma_parse_of_frame, parse_udp, udp_in_frame, with_word, word, CLIENT_PORT,
    ETHERNET_HEADER_LENGTH, IPV4_HEADER_LENGTH, MAX_PAYLOAD_LENGTH, UDP_HEADER_LENGTH,
};
use crate::iface::{find_interface, lookup, InterfaceInfo, IpAddress, StaticNetworkInterfaceConfig};
use crate::message::{
    client_message, create_dhcpv4_message, decode_message, decoded, encode_message, encoded,
    DhcpMessage, MessageType, MessageView,
};
use crate::text::{append_byte_list, byte_list};
use vstd::prelude::*;
use vstd::string::*;

verus! {

/// How long the client waits for an offer, and again for an acknowledgement.
pub const RECEIVE_TIMEOUT_MS: u64 = 10_000;

/// How long a single read of the link may block. A read that has seen no
/// frame by then ends in silence, so that the clock is looked at again and a
/// wait on a quiet link is over that soon after its deadline.
pub const READ_TIMEOUT_MS: u64 = 500;

/// Where the client stands in its exchange with the server.
#[derive(Clone, Copy, Debug, PartialEq, Eq, Structural)]
pub enum ClientState {
    Idle,
    DiscoverSent,
    AwaitingOffer,
    RequestSent,
    AwaitingAck,
    Complete,
    Failed,
}

/// What the caller reports to the client.
#[derive(Clone, Debug)]
pub enum ClientEvent {
    /// Nothing has happened yet.
    Start,
    /// The frame was handed to the link.
    Sent,
    /// A message arrived in time.
    Received(DhcpMessage),
    /// The deadline passed and no message had arrived.
    TimedOut,
    /// The link channel could not be opened or read; the text says why.
    LinkFailed(String),
}

/// What the client wants done.
#[derive(Debug)]
pub enum ClientAction {
    /// Open a channel on the interface and send this frame.
    Send(Vec<u8>),
    /// Wait for a message, turn by turn as [`receive_turn`] directs, and
    /// report how the wait ended.
    Receive { timeout_ms: u64 },
    /// The exchange is over.
    Finish(Result<StaticNetworkInterfaceConfig, NetworkConfigurationError>),
}

/// A frame that was read from the link, and how long the wait had lasted
/// when the clock was looked at before the read. A read that ended in
/// silence is recorded as an empty frame.
#[derive(Clone, Debug)]
pub struct Arrival {
    pub elapsed_ms: u64,
    pub frame: Vec<u8>,
}

/// What the receive loop has seen since its last turn.
#[derive(Clone, Copy, Debug)]
pub enum Seen<'a> {
    /// Nothing yet: the wait begins.
    Nothing,
    /// The clock: the wait has lasted this long.
    Clock(u64),
    /// A frame that was read from the link.
    Frame(&'a [u8]),
    /// The read ended after [`READ_TIMEOUT_MS`] and no frame had come.
    Silence,
}

/// What the receive loop does next.
#[derive(Clone, Debug)]
pub enum Turn {
    /// Look at the clock and report how long the wait has lasted.
    ReadClock,
    /// Read the next frame from the link and report it, or report silence
    /// if none comes within [`READ_TIMEOUT_MS`].
    ReadFrame,
    /// The wait is over: the deadline has passed.
    TimedOut,
    /// The wait is over: this message was accepted.
    Message(DhcpMessage),
}

/// How a wait for a message ends.
#[derive(Clone, Debug)]
pub enum Received {
    /// This message was accepted.
    Message(DhcpMessage),
    /// The deadline passed first.
    TimedOut,
    /// Neither yet: the wait goes on.
    Pending,
}

/// An error as a contract sees it: its kind and its message.
pub type Failure = (ErrorKind, Seq<char>);

/// Why `message` cannot be put into a frame, if it cannot: its hardware
/// address is not six bytes long, or it has no wire form, or one that is
/// too long for a frame.
pub open spec fn packet_error(message: MessageView) -> Option<Failure> {
    if message.header.chaddr.len() != 6 {
        Some(
            (
                ErrorKind::InvalidLinkAddress,
                "Invalid MAC address: "@ + byte_list(message.header.chaddr),
            ),
        )
    } else if encoded(message) is None {
        Some((ErrorKind::EncodeFailed, "DHCP message cannot be encoded"@))
    } else if encoded(message)->Some_0.len() > MAX_PAYLOAD_LENGTH {
        Some((ErrorKind::EncodeFailed, "DHCP message is too long for a frame"@))
    } else {
        None
    }
}

/// Whether `error` is the failure `failure`.
pub open spec fn is_failure(error: NetworkConfigurationError, failure: Failure) -> bool {
    error.kind == failure.0 && error.details@ == failure.1
}

/// The frame that carries `message`, sent from the hardware address the
/// message names.
pub open spec fn packet_of(message: MessageView, identification: u16) -> Seq<u8> {
    dhcp_frame(encoded(message)->Some_0, message.header.chaddr, identification)
}

/// Whether `result` is what comes of putting `message` into a frame with
/// the IPv4 identification `identification`.
pub open spec fn is_packet(
    result: Result<Vec<u8>, NetworkConfigurationError>,
    message: MessageView,
    identification: u16,
) -> bool {
    match result {
        Ok(frame) => packet_error(message) is None && frame@ == packet_of(message, identification),
        Err(error) => packet_error(message) is Some && is_failure(
            error,
            packet_error(message)->Some_0,
        ),
    }
}

/// The REQUEST that takes up an offer of the address `offered` by the
/// server `server`.
pub open spec fn request_message(mac: Seq<u8>, offered: [u8; 4], server: [u8; 4], xid: u32)
    -> MessageView {
    MessageView {
        requested_ip_address: Some(offered),
        server_identifier: Some(server),
        ..client_message(mac, MessageType::Request, xid)
    }
}

/// The message an inbound frame carries: the frame must hold a UDP
/// datagram over IPv4 to port 68, and the payload must decode.
pub open spec fn inbound(frame: Seq<u8>) -> Option<MessageView> {
    match udp_in_frame(frame) {
        Some(datagram) => if datagram.destination == CLIENT_PORT {
            decoded(datagram.payload)
        } else {
            None
        },
        None => None,
    }
}

/// The index of the first arrival at or behind `from` that ends the wait:
/// the clock had passed `timeout_ms`, or the frame carries a message. The
/// number of arrivals if none does.
pub open spec fn first_decisive(arrivals: Seq<Arrival>, timeout_ms: u64, from: int) -> int
    decreases arrivals.len() - from,
{
    if from < 0 || from >= arrivals.len() {
        arrivals.len() as int
    } else if arrivals[from].elapsed_ms > timeout_ms || inbound(arrivals[from].frame@) is Some {
        from
    } else {
        first_decisive(arrivals, timeout_ms, from + 1)
    }
}

/// The failure of an interface without a hardware address.
pub open spec fn no_link_address() -> Failure {
    (ErrorKind::NoLinkAddress, "No MAC address found"@)
}

/// What is wrong with the interface called `name`, if it cannot be used
/// for DHCP: there is none, or it is down, or it has no hardware address.
pub open spec fn admission_error(interfaces: Seq<InterfaceInfo>, name: Seq<char>) -> Option<
    Failure,
> {
    match lookup(interfaces, name) {
        None => Some((ErrorKind::NotFound, "Interface with name "@ + name + " not found"@)),
        Some(interface) => if !interface.up {
            Some((ErrorKind::Down, "Interface "@ + name + " is not up"@))
        } else if interface.mac is None {
            Some(no_link_address())
        } else {
            None
        },
    }
}

/// The failure of an acknowledgement that grants no usable lease to the
/// interface `name`: what is missing first, the mask or the gateway.
pub open spec fn lease_error(name: Seq<char>, ack: MessageView) -> Failure {
    (
        ErrorKind::NotFound,
        name + if ack.subnet_mask is None {
            ": no netmask returned by dhcp."@
        } else {
            ": no gateway returned by dhcp."@
        },
    )
}

/// Whether an acknowledgement lacks what a lease needs: the subnet mask,
/// or a first router.
pub open spec fn lease_incomplete(ack: MessageView) -> bool {
    ack.subnet_mask is None || ack.router is None || ack.router->Some_0.len() == 0
}

/// Whether `config` is the lease that `ack` grants to the interface `name`.
pub open spec fn is_lease(config: StaticNetworkInterfaceConfig, name: Seq<char>, ack: MessageView)
    -> bool {
    &&& config.name@ == name
    &&& config.ip == IpAddress::V4(ack.header.yiaddr)
    &&& config.netmask == IpAddress::V4(ack.subnet_mask->Some_0)
    &&& config.gateway == IpAddress::V4(ack.router->Some_0[0])
    &&& config.dns is None
}

/// Whether `action` ends the exchange with the failure `failure`.
pub open spec fn fails_with(action: ClientAction, failure: Failure) -> bool {
    action matches ClientAction::Finish(Err(error)) && is_failure(error, failure)
}

/// What an attempt to send has come to, read off the action that follows
/// it: the frame that goes out, or the error that ends the exchange.
pub open spec fn attempt(action: ClientAction) -> Option<
    Result<Vec<u8>, NetworkConfigurationError>,
> {
    match action {
        ClientAction::Send(frame) => Some(Ok(frame)),
        ClientAction::Finish(Err(error)) => Some(Err(error)),
        _ => None,
    }
}

/// Whether `next` and `action` are what comes of trying to send a message
/// `message(xid)` for some transaction `xid`: the frame goes out and the
/// client is in `sent`, or the message fits no frame and the client fails.
pub open spec fn sends(
    next: ClientState,
    action: ClientAction,
    sent: ClientState,
    message: spec_fn(u32) -> MessageView,
) -> bool {
    &&& attempt(action) is Some
    &&& next == if attempt(action)->Some_0 is Ok {
        sent
    } else {
        ClientState::Failed
    }
    &&& exists|xid: u32, identification: u16| #[trigger]
        is_packet(attempt(action)->Some_0, message(xid), identification)
}

/// Whether the client, in `state` and told of `event`, goes to `next` and
/// asks for `action`.
///
/// From `Idle` it sends a DISCOVER, unless the interface is missing, down or
/// without a hardware address. Once a frame is sent it waits for a reply.
/// Any message that arrives while it waits for an offer is taken as the
/// offer and answered with a REQUEST for the offered address; any message
/// that arrives while it waits for the acknowledgement is taken as that, and
/// the exchange ends with the lease, or with `NotFound` if mask or router
/// are missing. A timeout or a failure of the link ends the exchange.
pub open spec fn follows(
    interfaces: Seq<InterfaceInfo>,
    name: Seq<char>,
    state: ClientState,
    event: ClientEvent,
    next: ClientState,
    action: ClientAction,
) -> bool {
    let mac = lookup(interfaces, name)->Some_0.mac->Some_0@;
    match (state, event) {
        (ClientState::Idle, ClientEvent::Start) => match admission_error(interfaces, name) {
            Some(failure) => next == ClientState::Failed && fails_with(action, failure),
            None => sends(
                next,
                action,
                ClientState::DiscoverSent,
                |xid: u32| client_message(mac, MessageType::Discover, xid),
            ),
        },
        (ClientState::DiscoverSent, ClientEvent::Sent) => next == ClientState::AwaitingOffer
            && action == (ClientAction::Receive { timeout_ms: RECEIVE_TIMEOUT_MS }),
        (ClientState::AwaitingOffer, ClientEvent::Received(offer)) => match admission_error(
            interfaces,
            name,
        ) {
            Some(failure) => next == ClientState::Failed && fails_with(action, failure),
            None => sends(
                next,
                action,
                ClientState::RequestSent,
                |xid: u32| request_message(mac, offer.yiaddr, offer.siaddr, xid),
            ),
        },
        (ClientState::RequestSent, ClientEvent::Sent) => next == ClientState::AwaitingAck
            && action == (ClientAction::Receive { timeout_ms: RECEIVE_TIMEOUT_MS }),
        (ClientState::AwaitingAck, ClientEvent::Received(ack)) => if lease_incomplete(ack@) {
            next == ClientState::Failed && fails_with(action, lease_error(name, ack@))
        } else {
            next == ClientState::Complete && (action matches ClientAction::Finish(Ok(config))
                && is_lease(config, name, ack@))
        },
        (ClientState::AwaitingOffer, ClientEvent::TimedOut) => next == ClientState::Failed
            && fails_with(action, (ErrorKind::Timeout, "Timeout waiting for OFFER"@)),
        (ClientState::AwaitingAck, ClientEvent::TimedOut) => next == ClientState::Failed
            && fails_with(action, (ErrorKind::Timeout, "Timeout waiting for ACK"@)),
        (ClientState::DiscoverSent, ClientEvent::LinkFailed(cause)) | (
            ClientState::AwaitingOffer,
            ClientEvent::LinkFailed(cause),
        ) | (ClientState::RequestSent, ClientEvent::LinkFailed(cause)) | (
            ClientState::AwaitingAck,
            ClientEvent::LinkFailed(cause),
        ) => next == ClientState::Failed && fails_with(action, (ErrorKind::LinkFailed, cause@)),
        _ => next == ClientState::Failed && fails_with(
            action,
            (ErrorKind::UnexpectedEvent, "DHCP client was told of an event out of turn"@),
        ),
    }
}

/// `rand::Rng::gen` on the generator of the thread. Any value may come
/// back, so nothing is promised of it.
#[verifier::external_body]
fn random_word() -> (word: u32) {
    rand::Rng::gen(&mut rand::thread_rng())
}

fn failure(kind: ErrorKind, text: &str) -> (error: NetworkConfigurationError)
    ensures
        error.kind == kind,
        error.details@ == text@,
{
    NetworkConfigurationError::with_kind(kind, String::from_str(text))
}

/// Puts `dhcp_message` into a frame for sending: its wire form inside UDP,
/// IPv4 with the given `identification`, and Ethernet from the hardware
/// address the message names.
///
/// Fails with `InvalidLinkAddress` if that address is not six bytes long,
/// and with `EncodeFailed` if the message has no wire form or one longer
/// than a frame can carry.
pub fn create_dhcp_packet(dhcp_message: &DhcpMessage, identification: u16) -> (packet: Result<
    Vec<u8>,
    NetworkConfigurationError,
>)
    ensures
        is_packet(packet, dhcp_message@, identification),
{
    let chaddr = &dhcp_message.chaddr;
    if chaddr.len() != 6 {
        return Err(
            NetworkConfigurationError::with_kind(
                ErrorKind::InvalidLinkAddress,
                append_byte_list(String::from_str("Invalid MAC address: "), chaddr.as_slice()),
            ),
        );
    }
    let mac: [u8; 6] = [chaddr[0], chaddr[1], chaddr[2], chaddr[3], chaddr[4], chaddr[5]];
    assert(mac@ =~= chaddr@);
    let payload = match encode_message(dhcp_message) {
        Some(payload) => payload,
        None => {
            return Err(failure(ErrorKind::EncodeFailed, "DHCP message cannot be encoded"));
        },
    };
    if payload.len() > MAX_PAYLOAD_LENGTH {
        return Err(failure(ErrorKind::EncodeFailed, "DHCP message is too long for a frame"));
    }
    Ok(encapsulate(payload.as_slice(), &mac, identification))
}

/// The frame with the DISCOVER of the client `mac` in the transaction
/// `xid`.
pub fn build_discover(mac: &[u8; 6], xid: u32, identification: u16) -> (packet: Result<
    Vec<u8>,
    NetworkConfigurationError,
>)
    ensures
        is_packet(packet, client_message(mac@, MessageType::Discover, xid), identification),
{
    let message = create_dhcpv4_message(mac, MessageType::Discover, xid);
    create_dhcp_packet(&message, identification)
}

/// The frame with the REQUEST of the client `mac` for the address
/// `offered_ip`, which the server `server_id` has offered.
pub fn build_request(
    mac: &[u8; 6],
    offered_ip: [u8; 4],
    server_id: [u8; 4],
    xid: u32,
    identification: u16,
) -> (packet: Result<Vec<u8>, NetworkConfigurationError>)
    ensures
        is_packet(packet, request_message(mac@, offered_ip, server_id, xid), identification),
{
    let mut message = create_dhcpv4_message(mac, MessageType::Request, xid);
    message.requested_ip_address = Some(offered_ip);
    message.server_identifier = Some(server_id);
    create_dhcp_packet(&message, identification)
}

/// The DHCP message in an inbound frame, if the frame is a UDP datagram
/// over IPv4 to port 68 and its payload decodes. Everything else is `None`:
/// to the receive loop that means "keep waiting".
pub fn decode_inbound(raw_frame: &[u8]) -> (message: Option<DhcpMessage>)
    ensures
        match message {
            Some(message) => inbound(raw_frame@) == Some(message@),
            None => inbound(raw_frame@) is None,
        },
{
    match parse_udp(raw_frame) {
        Some(datagram) => {
            if datagram.destination != CLIENT_PORT {
                return None;
            }
            decode_message(datagram.payload)
        },
        None => None,
    }
}

/// Whether a wait that has lasted `elapsed_ms` is over. A wait of exactly
/// `timeout_ms` still goes on.
pub fn deadline_passed(elapsed_ms: u64, timeout_ms: u64) -> (passed: bool)
    ensures
        passed == (elapsed_ms > timeout_ms),
{
    elapsed_ms > timeout_ms
}

/// Whether `turn` is the turn that follows on `seen` in a wait of
/// `timeout_ms`: the wait begins with a look at the clock; after a look at
/// the clock it is over if the deadline has passed, and else a frame is
/// read; after a frame it is over if the frame carries a message, and else
/// the clock is looked at again, as it is after a read that ended in
/// silence.
pub open spec fn is_turn(timeout_ms: u64, seen: Seen, turn: Turn) -> bool {
    match seen {
        Seen::Nothing => turn is ReadClock,
        Seen::Silence => turn is ReadClock,
        Seen::Clock(elapsed_ms) => if elapsed_ms > timeout_ms {
            turn is TimedOut
        } else {
            turn is ReadFrame
        },
        Seen::Frame(frame) => match inbound(frame@) {
            Some(message) => turn matches Turn::Message(accepted) && accepted@ == message,
            None => turn is ReadClock,
        },
    }
}

/// One turn of the receive loop: what is to be done next in a wait of
/// `timeout_ms`, after `seen`. The clock is looked at before every read of
/// the link, so a wait whose deadline has passed reads no further frame;
/// the first frame that carries a message ends the wait, whatever the
/// message is; every other frame is dropped.
pub fn receive_turn(timeout_ms: u64, seen: Seen) -> (turn: Turn)
    ensures
        is_turn(timeout_ms, seen, turn),
{
    match seen {
        Seen::Nothing => Turn::ReadClock,
        Seen::Silence => Turn::ReadClock,
        Seen::Clock(elapsed_ms) => {
            if deadline_passed(elapsed_ms, timeout_ms) {
                Turn::TimedOut
            } else {
                Turn::ReadFrame
            }
        },
        Seen::Frame(frame) => match decode_inbound(frame) {
            Some(message) => Turn::Message(message),
            None => Turn::ReadClock,
        },
    }
}

/// Runs the receive loop over a record of what it would see: for every
/// arrival the clock reading, and if [`receive_turn`] then asks for a frame,
/// the frame. The first arrival whose clock reading is past `timeout_ms`
/// ends the wait with a timeout, and its frame is not looked at; the first
/// frame before that which carries a message ends it with that message.
/// If the arrivals run out first, the wait goes on.
pub fn receive_message(arrivals: &Vec<Arrival>, timeout_ms: u64) -> (outcome: Received)
    ensures
        ({
            let index = first_decisive(arrivals@, timeout_ms, 0);
            match outcome {
                Received::Pending => index == arrivals@.len(),
                Received::TimedOut => index < arrivals@.len() && arrivals@[index].elapsed_ms
                    > timeout_ms,
                Received::Message(message) => index < arrivals@.len() && arrivals@[index].elapsed_ms
                    <= timeout_ms && inbound(arrivals@[index].frame@) == Some(message@),
            }
        }),
{
    let mut index: usize = 0;
    let mut turn = receive_turn(timeout_ms, Seen::Nothing);
    while index < arrivals.len()
        invariant
            index <= arrivals.len(),
            turn is ReadClock,
            first_decisive(arrivals@, timeout_ms, 0) == first_decisive(
                arrivals@,
                timeout_ms,
                index as int,
            ),
        decreases arrivals.len() - index,
    {
        turn = receive_turn(timeout_ms, Seen::Clock(arrivals[index].elapsed_ms));
        match turn {
            Turn::ReadFrame => {},
            _ => { return Received::TimedOut; },
        }
        turn = receive_turn(timeout_ms, Seen::Frame(arrivals[index].frame.as_slice()));
        match turn {
            Turn::Message(message) => { return Received::Message(message); },
            _ => {},
        }
        index = index + 1;
    }
    Received::Pending
}

/// The frame that opens the exchange on `interface`: a DISCOVER in a
/// transaction drawn at random, with an IPv4 identification drawn at
/// random. An interface without a hardware address gets `NoLinkAddress`
/// and nothing is drawn or built.
pub fn dhcp_discover(interface: &InterfaceInfo) -> (packet: Result<
    Vec<u8>,
    NetworkConfigurationError,
>)
    ensures
        interface.mac is None ==> (packet matches Err(error) && is_failure(
            error,
            no_link_address(),
        )),
        interface.mac matches Some(mac) ==> exists|xid: u32, identification: u16| #[trigger]
            is_packet(packet, client_message(mac@, MessageType::Discover, xid), identification),
{
    let mac = match interface.mac {
        Some(mac) => mac,
        None => {
            return Err(failure(ErrorKind::NoLinkAddress, "No MAC address found"));
        },
    };
    let xid = random_word();
    let identification = (random_word() % 0x10000) as u16;
    build_discover(&mac, xid, identification)
}

/// The frame that takes up the offer `discover_response` on `interface`: a
/// REQUEST for the address the offer hands out, naming the server the
/// offer came from. An interface without a hardware address gets
/// `NoLinkAddress`.
pub fn dhcp_request(interface: &InterfaceInfo, discover_response: &DhcpMessage) -> (packet: Result<
    Vec<u8>,
    NetworkConfigurationError,
>)
    ensures
        interface.mac is None ==> (packet matches Err(error) && is_failure(
            error,
            no_link_address(),
        )),
        interface.mac matches Some(mac) ==> exists|xid: u32, identification: u16| #[trigger]
            is_packet(
                packet,
                request_message(mac@, discover_response.yiaddr, discover_response.siaddr, xid),
                identification,
            ),
{
    let mac = match interface.mac {
        Some(mac) => mac,
        None => {
            return Err(failure(ErrorKind::NoLinkAddress, "No MAC address found"));
        },
    };
    let xid = random_word();
    let identification = (random_word() % 0x10000) as u16;
    build_request(
        &mac,
        discover_response.yiaddr,
        discover_response.siaddr,
        xid,
        identification,
    )
}

/// The configuration that the acknowledgement `ack` grants to the
/// interface `iface_name`: the address it hands out, its subnet mask, and
/// the first of its routers as gateway. Without a mask, or without a
/// router, there is no usable lease and the result is `NotFound`.
pub fn lease_from_ack(iface_name: &String, ack: &DhcpMessage) -> (lease: Result<
    StaticNetworkInterfaceConfig,
    NetworkConfigurationError,
>)
    ensures
        match lease {
            Ok(config) => !lease_incomplete(ack@) && is_lease(config, iface_name@, ack@),
            Err(error) => lease_incomplete(ack@) && is_failure(
                error,
                lease_error(iface_name@, ack@),
            ),
        },
{
    let netmask = match ack.subnet_mask {
        Some(mask) => mask,
        None => {
            return Err(
                NetworkConfigurationError::with_kind(
                    ErrorKind::NotFound,
                    iface_name.clone().concat(": no netmask returned by dhcp."),
                ),
            );
        },
    };
    let gateway = match &ack.router {
        Some(routers) if routers.len() > 0 => routers[0],
        _ => {
            return Err(
                NetworkConfigurationError::with_kind(
                    ErrorKind::NotFound,
                    iface_name.clone().concat(": no gateway returned by dhcp."),
                ),
            );
        },
    };
    Ok(
        StaticNetworkInterfaceConfig {
            name: iface_name.clone(),
            ip: IpAddress::V4(ack.yiaddr),
            netmask: IpAddress::V4(netmask),
            gateway: IpAddress::V4(gateway),
            dns: None,
        },
    )
}

fn usable_interface<'a>(interfaces: &'a Vec<InterfaceInfo>, iface_name: &String) -> (admitted: Result<
    &'a InterfaceInfo,
    NetworkConfigurationError,
>)
    ensures
        match admitted {
            Ok(interface) => admission_error(interfaces@, iface_name@) is None && lookup(
                interfaces@,
                iface_name@,
            ) == Some(*interface),
            Err(error) => admission_error(interfaces@, iface_name@) is Some && is_failure(
                error,
                admission_error(interfaces@, iface_name@)->Some_0,
            ),
        },
{
    let interface = match find_interface(interfaces, iface_name) {
        Some(interface) => interface,
        None => {
            return Err(
                NetworkConfigurationError::with_kind(
                    ErrorKind::NotFound,
                    String::from_str("Interface with name ").concat(iface_name.as_str()).concat(
                        " not found",
                    ),
                ),
            );
        },
    };
    if !interface.up {
        return Err(
            NetworkConfigurationError::with_kind(
                ErrorKind::Down,
                String::from_str("Interface ").concat(iface_name.as_str()).concat(" is not up"),
            ),
        );
    }
    if interface.mac.is_none() {
        return Err(failure(ErrorKind::NoLinkAddress, "No MAC address found"));
    }
    Ok(interface)
}

fn finish_failed(error: NetworkConfigurationError) -> (step: (ClientState, ClientAction))
    ensures
        step.0 == ClientState::Failed,
        fails_with(step.1, (error.kind, error.details@)),
{
    (ClientState::Failed, ClientAction::Finish(Err(error)))
}

/// Asks a DHCP server for the configuration of the interface `iface_name`,
/// one move at a time: given the state the client is in and what has
/// happened since its last move, says which state it goes to and what is
/// to be done next. `interfaces` is what the system reports at that time.
/// The exchange begins in `Idle` with `Start` and is over when the action
/// is `Finish`. See [`follows`] for every move.
pub fn request(
    iface_name: &String,
    interfaces: &Vec<InterfaceInfo>,
    state: ClientState,
    event: ClientEvent,
) -> (step: (ClientState, ClientAction))
    ensures
        follows(interfaces@, iface_name@, state, event, step.0, step.1),
{
    match (state, event) {
        (ClientState::Idle, ClientEvent::Start) => {
            let interface = match usable_interface(interfaces, iface_name) {
                Ok(interface) => interface,
                Err(error) => { return finish_failed(error); },
            };
            let packet = dhcp_discover(interface);
            proof {
                let mac = interface.mac->Some_0@;
                let message = |xid: u32| client_message(mac, MessageType::Discover, xid);
                let (xid, identification) = choose|xid: u32, identification: u16| #[trigger]
                    is_packet(
                        packet,
                        client_message(mac, MessageType::Discover, xid),
                        identification,
                    );
                assert(is_packet(packet, message(xid), identification));
            }
            match packet {
                Ok(frame) => (ClientState::DiscoverSent, ClientAction::Send(frame)),
                Err(error) => (ClientState::Failed, ClientAction::Finish(Err(error))),
            }
        },
        (ClientState::DiscoverSent, ClientEvent::Sent) => (
            ClientState::AwaitingOffer,
            ClientAction::Receive { timeout_ms: RECEIVE_TIMEOUT_MS },
        ),
        (ClientState::AwaitingOffer, ClientEvent::Received(offer)) => {
            let interface = match usable_interface(interfaces, iface_name) {
                Ok(interface) => interface,
                Err(error) => { return finish_failed(error); },
            };
            let packet = dhcp_request(interface, &offer);
            proof {
                let mac = interface.mac->Some_0@;
                let message = |xid: u32| request_message(mac, offer.yiaddr, offer.siaddr, xid);
                let (xid, identification) = choose|xid: u32, identification: u16| #[trigger]
                    is_packet(
                        packet,
                        request_message(mac, offer.yiaddr, offer.siaddr, xid),
                        identification,
                    );
                assert(is_packet(packet, message(xid), identification));
            }
            match packet {
                Ok(frame) => (ClientState::RequestSent, ClientAction::Send(frame)),
                Err(error) => (ClientState::Failed, ClientAction::Finish(Err(error))),
            }
        },
        (ClientState::RequestSent, ClientEvent::Sent) => (
            ClientState::AwaitingAck,
            ClientAction::Receive { timeout_ms: RECEIVE_TIMEOUT_MS },
        ),
        (ClientState::AwaitingAck, ClientEvent::Received(ack)) => {
            match lease_from_ack(iface_name, &ack) {
                Ok(config) => (ClientState::Complete, ClientAction::Finish(Ok(config))),
                Err(error) => finish_failed(error),
            }
        },
        (ClientState::AwaitingOffer, ClientEvent::TimedOut) => finish_failed(
            failure(ErrorKind::Timeout, "Timeout waiting for OFFER"),
        ),
        (ClientState::AwaitingAck, ClientEvent::TimedOut) => finish_failed(
            failure(ErrorKind::Timeout, "Timeout waiting for ACK"),
        ),
        (ClientState::DiscoverSent, ClientEvent::LinkFailed(cause))
        | (ClientState::AwaitingOffer, ClientEvent::LinkFailed(cause))
        | (ClientState::RequestSent, ClientEvent::LinkFailed(cause))
        | (ClientState::AwaitingAck, ClientEvent::LinkFailed(cause)) => finish_failed(
            NetworkConfigurationError::with_kind(ErrorKind::LinkFailed, cause),
        ),
        _ => finish_failed(
            failure(ErrorKind::UnexpectedEvent, "DHCP client was told of an event out of turn"),
        ),
    }
}

/// An interface without a hardware address ends the exchange before
/// anything is sent or awaited: the only move from `Idle` is to stop with
/// `NoLinkAddress`.
pub proof fn lemma_no_link_address_ends_before_any_io(
    interfaces: Seq<InterfaceInfo>,
    name: Seq<char>,
    next: ClientState,
    action: ClientAction,
)
    requires
        lookup(interfaces, name) matches Some(interface) && interface.up && interface.mac is None,
        follows(interfaces, name, ClientState::Idle, ClientEvent::Start, next, action),
    ensures
        next == ClientState::Failed,
        fails_with(action, no_link_address()),
        !(action is Send),
        !(action is Receive),
{
}

/// In a wait that sees no message, no turn ends with one; the wait times
/// out exactly at a look at the clock that finds the deadline passed; and a
/// frame is read only right after a look at the clock that found time left.
pub proof fn lemma_turn_without_message(timeout_ms: u64, seen: Seen, turn: Turn)
    requires
        is_turn(timeout_ms, seen, turn),
        seen matches Seen::Frame(frame) ==> inbound(frame@) is None,
    ensures
        !(turn is Message),
        turn is TimedOut <==> (seen matches Seen::Clock(elapsed_ms) && elapsed_ms > timeout_ms),
        turn is ReadFrame <==> (seen matches Seen::Clock(elapsed_ms) && elapsed_ms <= timeout_ms),
{
}

/// A wait in which no frame carries a message never ends with a message,
/// and it ends with a timeout at the first look at the clock that finds the
/// deadline passed.
pub proof fn lemma_wait_without_message_times_out(
    arrivals: Seq<Arrival>,
    timeout_ms: u64,
    from: int,
)
    requires
        0 <= from,
        forall|i: int| 0 <= i < arrivals.len() ==> inbound(#[trigger] arrivals[i].frame@) is None,
    ensures
        ({
            let index = first_decisive(arrivals, timeout_ms, from);
            &&& from <= index || index == arrivals.len()
            &&& index < arrivals.len() ==> arrivals[index].elapsed_ms > timeout_ms
            &&& forall|i: int| from <= i < index && i < arrivals.len() ==> arrivals[i].elapsed_ms
                <= timeout_ms
        }),
    decreases arrivals.len() - from,
{
    if from < arrivals.len() && arrivals[from].elapsed_ms <= timeout_ms {
        assert(inbound(arrivals[from].frame@) is None);
        lemma_wait_without_message_times_out(arrivals, timeout_ms, from + 1);
    }
}

/// Every frame that comes of a message is sound: it is longer than the
/// wire form of the message by the three headers, 14 bytes of Ethernet, 20
/// of IPv4 and 8 of UDP, and the checksum in its IPv4 header is the
/// checksum of that header with the checksum field set to zero. Whether a
/// frame comes of a message is for [`packet_error`] to say.
pub proof fn lemma_packet_is_sound(
    packet: Result<Vec<u8>, NetworkConfigurationError>,
    message: MessageView,
    identification: u16,
)
    requires
        is_packet(packet, message, identification),
    ensures
        packet is Ok <==> packet_error(message) is None,
        packet matches Ok(frame) ==> {
            let header = ipv4_header_of(frame@);
            &&& frame@.len() == ETHERNET_HEADER_LENGTH + IPV4_HEADER_LENGTH + UDP_HEADER_LENGTH
                + encoded(message)->Some_0.len()
            &&& header.len() == IPV4_HEADER_LENGTH
            &&& word(header[10], header[11]) == plain_checksum(with_word(header, 10, 0))
        },
{
    if packet is Ok {
        let payload = encoded(message)->Some_0;
        lemma_frame_length(payload, message.header.chaddr, identification);
        lemma_header_checksum_valid(payload, message.header.chaddr, identification);
    }
}

/// How far the exchange has come in `state`. Both ends count as the end.
pub open spec fn progress(state: ClientState) -> int {
    match state {
        ClientState::Idle => 0,
        ClientState::DiscoverSent => 1,
        ClientState::AwaitingOffer => 2,
        ClientState::RequestSent => 3,
        ClientState::AwaitingAck => 4,
        ClientState::Complete => 5,
        ClientState::Failed => 5,
    }
}

/// The exchange never stands still and never goes back: every move takes
/// it further, and a move at its end leaves it failed. It is over when the
/// action is `Finish`, and it waits only on its way into `AwaitingOffer` and
/// `AwaitingAck`, so at most twice.
pub proof fn lemma_exchange_advances(
    interfaces: Seq<InterfaceInfo>,
    name: Seq<char>,
    state: ClientState,
    event: ClientEvent,
    next: ClientState,
    action: ClientAction,
)
    requires
        follows(interfaces, name, state, event, next, action),
    ensures
        progress(state) < 5 ==> progress(state) < progress(next),
        progress(state) == 5 ==> next == ClientState::Failed,
        action is Finish <==> progress(next) == 5,
        action is Receive <==> (next == ClientState::AwaitingOffer || next
            == ClientState::AwaitingAck),
        next == ClientState::AwaitingOffer ==> state == ClientState::DiscoverSent,
        next == ClientState::AwaitingAck ==> state == ClientState::RequestSent,
{
}

/// The client does not take its own frames for replies: what it sends
/// goes to port 67, and only what comes to port 68 is read.
pub proof fn lemma_own_frames_are_not_inbound(message: MessageView, identification: u16)
    requires
        packet_error(message) is None,
    ensures
        inbound(packet_of(message, identification)) is None,
{
    lemma_parse_of_frame(encoded(message)->Some_0, message.header.chaddr, identification);
}

} // verus!
