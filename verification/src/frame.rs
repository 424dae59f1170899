//! The frame codec: a DHCP payload goes out as a broadcast Ethernet frame
//! around an IPv4 packet around a UDP datagram, and an inbound frame is
//! taken apart the same way.

use crate::checksum::{
    checksum, internet_checksum, ipv4_checksum, lemma_checksum_ignores_field,
    lemma_checksum_of_zeroed_field, lemma_transport_checksum_ignores_field, plain_checksum,
    transport_checksum,
};
use vstd::prelude::*;
use vstd::slice::slice_subrange;

verus! {

/// The length of an Ethernet header: two addresses and the ethertype.
pub const ETHERNET_HEADER_LENGTH: usize = 14;

/// The length of an IPv4 header without options.
pub const IPV4_HEADER_LENGTH: u8 = 20;

/// The length of a UDP header.
pub const UDP_HEADER_LENGTH: usize = 8;

/// The longest payload a frame can carry: the IPv4 total length is 16 bits.
pub const MAX_PAYLOAD_LENGTH: usize = 65507;

/// The ethertype of IPv4.
pub const ETHERTYPE_IPV4: u16 = 0x0800;

/// The IPv4 protocol number of UDP.
pub const PROTOCOL_UDP: u8 = 17;

/// The UDP port a DHCP client sends from and listens on.
pub const CLIENT_PORT: u16 = 68;

/// The UDP port a DHCP server listens on.
pub const SERVER_PORT: u16 = 67;

/// The time to live of an outbound packet.
pub const TIME_TO_LIVE: u8 = 64;

/// The high byte of `x`.
pub open spec fn high(x: u16) -> u8 {
    (x / 256) as u8
}

/// The low byte of `x`.
pub open spec fn low(x: u16) -> u8 {
    (x % 256) as u8
}

/// `x` in network byte order.
pub open spec fn be16(x: u16) -> Seq<u8> {
    seq![high(x), low(x)]
}

/// The 16-bit number that `high` and `low` spell in network byte order.
pub open spec fn word(high: u8, low: u8) -> u16 {
    (high as int * 256 + low as int) as u16
}

/// `data` with `x` written in network byte order at `at`.
pub open spec fn with_word(data: Seq<u8>, at: int, x: u16) -> Seq<u8> {
    data.update(at, high(x)).update(at + 1, low(x))
}

/// The address `0.0.0.0`, from which a client without a lease sends.
pub open spec fn unspecified_address() -> Seq<u8> {
    seq![0u8, 0u8, 0u8, 0u8]
}

/// The address `255.255.255.255`.
pub open spec fn broadcast_address() -> Seq<u8> {
    seq![255u8, 255u8, 255u8, 255u8]
}

/// The hardware address `ff:ff:ff:ff:ff:ff`.
pub open spec fn broadcast_mac() -> Seq<u8> {
    seq![255u8, 255u8, 255u8, 255u8, 255u8, 255u8]
}

/// The UDP datagram around `payload`, from port 68 to port 67, its checksum
/// field still zero.
pub open spec fn udp_blank(payload: Seq<u8>) -> Seq<u8> {
    be16(CLIENT_PORT) + be16(SERVER_PORT) + be16((UDP_HEADER_LENGTH + payload.len()) as u16) + be16(
        0,
    ) + payload
}

/// The UDP datagram around `payload` with its checksum, which is taken over
/// the pseudo-header from `0.0.0.0` to `255.255.255.255`.
pub open spec fn udp_datagram(payload: Seq<u8>) -> Seq<u8> {
    let blank = udp_blank(payload);
    with_word(
        blank,
        6,
        transport_checksum(
            blank,
            3,
            Seq::empty(),
            unspecified_address(),
            broadcast_address(),
            PROTOCOL_UDP,
        ),
    )
}

/// The IPv4 packet around `payload`, its checksum field still zero:
/// version 4, a header of five words, no service bits, no fragmentation,
/// time to live 64, protocol UDP, from `0.0.0.0` to `255.255.255.255`.
pub open spec fn ipv4_blank(payload: Seq<u8>, identification: u16) -> Seq<u8> {
    seq![0x45u8, 0u8] + be16((IPV4_HEADER_LENGTH + payload.len()) as u16) + be16(identification)
        + seq![0u8, 0u8, TIME_TO_LIVE, PROTOCOL_UDP] + be16(0) + unspecified_address()
        + broadcast_address() + payload
}

/// The IPv4 packet around `payload` with its header checksum.
pub open spec fn ipv4_packet(payload: Seq<u8>, identification: u16) -> Seq<u8> {
    let blank = ipv4_blank(payload, identification);
    with_word(blank, 10, internet_checksum(blank.subrange(0, IPV4_HEADER_LENGTH as int), 5))
}

/// The Ethernet frame from `source` to everyone, carrying the IPv4 packet
/// `payload`.
pub open spec fn ethernet_frame(source: Seq<u8>, payload: Seq<u8>) -> Seq<u8> {
    broadcast_mac() + source + be16(ETHERTYPE_IPV4) + payload
}

/// The frame that carries the DHCP message `payload` from the interface
/// with the hardware address `mac`.
pub open spec fn dhcp_frame(payload: Seq<u8>, mac: Seq<u8>, identification: u16) -> Seq<u8> {
    ethernet_frame(mac, ipv4_packet(udp_datagram(payload), identification))
}

/// What an Ethernet frame carries, if it says that it carries IPv4.
pub open spec fn ethernet_payload(frame: Seq<u8>) -> Option<Seq<u8>> {
    if frame.len() >= ETHERNET_HEADER_LENGTH && word(frame[12], frame[13]) == ETHERTYPE_IPV4 {
        Some(frame.subrange(ETHERNET_HEADER_LENGTH as int, frame.len() as int))
    } else {
        None
    }
}

/// Where the payload of the IPv4 packet `packet` begins: behind the header
/// and its options, as far as the header length field says.
pub open spec fn ipv4_payload_start(packet: Seq<u8>) -> int {
    let header = (packet[0] % 16) * 4;
    if header > IPV4_HEADER_LENGTH {
        header
    } else {
        IPV4_HEADER_LENGTH as int
    }
}

/// Where the payload of the IPv4 packet `packet` ends: where the total
/// length field says, and no later than the packet itself.
pub open spec fn ipv4_payload_end(packet: Seq<u8>) -> int {
    let header = (packet[0] % 16) * 4;
    let total = word(packet[2], packet[3]) as int;
    let length = if total > header {
        total - header
    } else {
        0
    };
    if ipv4_payload_start(packet) + length < packet.len() {
        ipv4_payload_start(packet) + length
    } else {
        packet.len() as int
    }
}

/// What an IPv4 packet carries, if it says that it carries UDP.
pub open spec fn ipv4_payload(packet: Seq<u8>) -> Option<Seq<u8>> {
    if packet.len() >= IPV4_HEADER_LENGTH && packet[9] == PROTOCOL_UDP {
        if packet.len() <= ipv4_payload_start(packet) {
            Some(Seq::empty())
        } else {
            Some(packet.subrange(ipv4_payload_start(packet), ipv4_payload_end(packet)))
        }
    } else {
        None
    }
}

/// A UDP datagram found in a frame, as a specification sees it.
pub struct Datagram {
    pub source: u16,
    pub destination: u16,
    pub payload: Seq<u8>,
}

/// The UDP datagram `datagram` taken apart, if it has a whole header.
pub open spec fn udp_fields(datagram: Seq<u8>) -> Option<Datagram> {
    if datagram.len() >= UDP_HEADER_LENGTH {
        Some(
            Datagram {
                source: word(datagram[0], datagram[1]),
                destination: word(datagram[2], datagram[3]),
                payload: datagram.subrange(UDP_HEADER_LENGTH as int, datagram.len() as int),
            },
        )
    } else {
        None
    }
}

/// The UDP datagram inside `frame`: present if the frame is long enough
/// for an Ethernet header that announces IPv4, an IPv4 header that
/// announces UDP, and a UDP header.
pub open spec fn udp_in_frame(frame: Seq<u8>) -> Option<Datagram> {
    match ethernet_payload(frame) {
        Some(packet) => match ipv4_payload(packet) {
            Some(datagram) => udp_fields(datagram),
            None => None,
        },
        None => None,
    }
}

/// A UDP datagram found in a frame; the payload is borrowed from the frame.
#[derive(Clone, Copy, Debug)]
pub struct UdpDatagram<'a> {
    pub source: u16,
    pub destination: u16,
    pub payload: &'a [u8],
}

impl<'a> View for UdpDatagram<'a> {
    type V = Datagram;

    open spec fn view(&self) -> Datagram {
        Datagram { source: self.source, destination: self.destination, payload: self.payload@ }
    }
}

fn push_be16(out: &mut Vec<u8>, x: u16)
    ensures
        final(out)@ == old(out)@ + be16(x),
{
    out.push((x / 256) as u8);
    out.push((x % 256) as u8);
}

fn set_be16(out: &mut Vec<u8>, at: usize, x: u16)
    requires
        at + 1 < old(out).len(),
    ensures
        final(out)@ == with_word(old(out)@, at as int, x),
{
    out.set(at, (x / 256) as u8);
    out.set(at + 1, (x % 256) as u8);
}

fn read_be16(data: &[u8], at: usize) -> (x: u16)
    requires
        at + 1 < data.len(),
    ensures
        x == word(data@[at as int], data@[at + 1]),
{
    let high: u16 = data[at] as u16;
    let low: u16 = data[at + 1] as u16;
    high * 256 + low
}

fn udp_encapsulate(payload: &[u8]) -> (datagram: Vec<u8>)
    requires
        payload@.len() <= MAX_PAYLOAD_LENGTH,
    ensures
        datagram@ == udp_datagram(payload@),
{
    let mut datagram: Vec<u8> = Vec::new();
    push_be16(&mut datagram, CLIENT_PORT);
    push_be16(&mut datagram, SERVER_PORT);
    push_be16(&mut datagram, (UDP_HEADER_LENGTH + payload.len()) as u16);
    push_be16(&mut datagram, 0);
    datagram.extend_from_slice(payload);
    assert(datagram@ == udp_blank(payload@));
    let unspecified: [u8; 4] = [0, 0, 0, 0];
    let broadcast: [u8; 4] = [255, 255, 255, 255];
    let nothing: [u8; 0] = [];
    assert(unspecified@ == unspecified_address());
    assert(broadcast@ == broadcast_address());
    assert(nothing@ == Seq::<u8>::empty());
    let sum = ipv4_checksum(
        datagram.as_slice(),
        3,
        nothing.as_slice(),
        unspecified,
        broadcast,
        PROTOCOL_UDP,
    );
    set_be16(&mut datagram, 6, sum);
    datagram
}

fn ipv4_encapsulate(payload: &[u8], identification: u16) -> (packet: Vec<u8>)
    requires
        payload@.len() <= MAX_PAYLOAD_LENGTH + UDP_HEADER_LENGTH,
    ensures
        packet@ == ipv4_packet(payload@, identification),
{
    let mut packet: Vec<u8> = Vec::new();
    packet.push(0x45);
    packet.push(0);
    push_be16(&mut packet, (IPV4_HEADER_LENGTH as usize + payload.len()) as u16);
    push_be16(&mut packet, identification);
    packet.push(0);
    packet.push(0);
    packet.push(TIME_TO_LIVE);
    packet.push(PROTOCOL_UDP);
    push_be16(&mut packet, 0);
    let mut octet: usize = 0;
    while octet < 4
        invariant
            octet <= 4,
            packet@ == seq![0x45u8, 0u8] + be16((IPV4_HEADER_LENGTH + payload@.len()) as u16)
                + be16(identification) + seq![0u8, 0u8, TIME_TO_LIVE, PROTOCOL_UDP] + be16(0)
                + unspecified_address().subrange(0, octet as int),
        decreases 4 - octet,
    {
        packet.push(0);
        octet = octet + 1;
    }
    assert(unspecified_address().subrange(0, 4) == unspecified_address());
    let mut octet: usize = 0;
    while octet < 4
        invariant
            octet <= 4,
            packet@ == seq![0x45u8, 0u8] + be16((IPV4_HEADER_LENGTH + payload@.len()) as u16)
                + be16(identification) + seq![0u8, 0u8, TIME_TO_LIVE, PROTOCOL_UDP] + be16(0)
                + unspecified_address() + broadcast_address().subrange(0, octet as int),
        decreases 4 - octet,
    {
        packet.push(255);
        octet = octet + 1;
    }
    assert(broadcast_address().subrange(0, 4) == broadcast_address());
    packet.extend_from_slice(payload);
    assert(packet@ == ipv4_blank(payload@, identification));
    let header = slice_subrange(packet.as_slice(), 0, IPV4_HEADER_LENGTH as usize);
    let sum = checksum(header, 5);
    set_be16(&mut packet, 10, sum);
    packet
}

/// Wraps the DHCP message `payload` for sending from the interface with
/// the hardware address `mac`: UDP from port 68 to port 67, IPv4 from
/// `0.0.0.0` to `255.255.255.255` with the given `identification`, Ethernet
/// to the broadcast address. The frame is 42 bytes longer than the payload.
pub fn encapsulate(payload: &[u8], mac: &[u8; 6], identification: u16) -> (frame: Vec<u8>)
    requires
        payload@.len() <= MAX_PAYLOAD_LENGTH,
    ensures
        frame@ == dhcp_frame(payload@, mac@, identification),
        frame@.len() == ETHERNET_HEADER_LENGTH + IPV4_HEADER_LENGTH + UDP_HEADER_LENGTH
            + payload@.len(),
{
    let datagram = udp_encapsulate(payload);
    let packet = ipv4_encapsulate(datagram.as_slice(), identification);
    let mut frame: Vec<u8> = Vec::new();
    let mut octet: usize = 0;
    while octet < 6
        invariant
            octet <= 6,
            frame@ == broadcast_mac().subrange(0, octet as int),
        decreases 6 - octet,
    {
        frame.push(255);
        octet = octet + 1;
    }
    assert(broadcast_mac().subrange(0, 6) == broadcast_mac());
    frame.extend_from_slice(mac.as_slice());
    push_be16(&mut frame, ETHERTYPE_IPV4);
    frame.extend_from_slice(packet.as_slice());
    frame
}

/// Takes the inbound `frame` apart: the UDP datagram it carries, or `None`
/// if it is no UDP datagram over IPv4 over Ethernet with all three headers
/// whole. The IPv4 payload lies where the header length and total length
/// fields put it; the UDP payload is whatever follows the UDP header.
pub fn parse_udp<'a>(frame: &'a [u8]) -> (found: Option<UdpDatagram<'a>>)
    ensures
        match found {
            Some(datagram) => udp_in_frame(frame@) == Some(datagram@),
            None => udp_in_frame(frame@) is None,
        },
{
    if frame.len() < ETHERNET_HEADER_LENGTH {
        return None;
    }
    if read_be16(frame, 12) != ETHERTYPE_IPV4 {
        return None;
    }
    let packet = slice_subrange(frame, ETHERNET_HEADER_LENGTH, frame.len());
    if packet.len() < IPV4_HEADER_LENGTH as usize {
        return None;
    }
    if packet[9] != PROTOCOL_UDP {
        return None;
    }
    let header: usize = (packet[0] % 16) as usize * 4;
    let total: usize = read_be16(packet, 2) as usize;
    let start: usize = if header > IPV4_HEADER_LENGTH as usize {
        header
    } else {
        IPV4_HEADER_LENGTH as usize
    };
    let length: usize = if total > header {
        total - header
    } else {
        0
    };
    let end: usize = if start + length < packet.len() {
        start + length
    } else {
        packet.len()
    };
    let datagram = if packet.len() <= start {
        slice_subrange(packet, 0, 0)
    } else {
        slice_subrange(packet, start, end)
    };
    assert(ipv4_payload(packet@) == Some(datagram@));
    if datagram.len() < UDP_HEADER_LENGTH {
        return None;
    }
    let source = read_be16(datagram, 0);
    let destination = read_be16(datagram, 2);
    let payload = slice_subrange(datagram, UDP_HEADER_LENGTH, datagram.len());
    Some(UdpDatagram { source, destination, payload })
}

/// A frame is longer than its payload by the three headers: 14 bytes of
/// Ethernet, 20 of IPv4 and 8 of UDP.
pub proof fn lemma_frame_length(payload: Seq<u8>, mac: Seq<u8>, identification: u16)
    requires
        mac.len() == 6,
    ensures
        dhcp_frame(payload, mac, identification).len() == ETHERNET_HEADER_LENGTH
            + IPV4_HEADER_LENGTH + UDP_HEADER_LENGTH + payload.len(),
{
}

/// The IPv4 header of a frame, as the frame holds it.
pub open spec fn ipv4_header_of(frame: Seq<u8>) -> Seq<u8> {
    frame.subrange(
        ETHERNET_HEADER_LENGTH as int,
        ETHERNET_HEADER_LENGTH as int + IPV4_HEADER_LENGTH as int,
    )
}

/// The checksum in the IPv4 header of a frame is the checksum of that
/// header with the checksum field set to zero.
pub proof fn lemma_header_checksum_valid(payload: Seq<u8>, mac: Seq<u8>, identification: u16)
    requires
        mac.len() == 6,
    ensures
        ({
            let header = ipv4_header_of(dhcp_frame(payload, mac, identification));
            &&& header.len() == IPV4_HEADER_LENGTH
            &&& word(header[10], header[11]) == plain_checksum(with_word(header, 10, 0))
            &&& word(header[10], header[11]) == internet_checksum(header, 5)
        }),
{
    let datagram = udp_datagram(payload);
    let blank = ipv4_blank(datagram, identification);
    let blank_header = blank.subrange(0, IPV4_HEADER_LENGTH as int);
    let sum = internet_checksum(blank_header, 5);
    let header = ipv4_header_of(dhcp_frame(payload, mac, identification));
    assert(header =~= with_word(blank_header, 10, sum));
    assert(with_word(header, 10, 0) =~= blank_header);
    assert(word(high(sum), low(sum)) == sum);
    lemma_checksum_of_zeroed_field(blank_header, 5);
    lemma_checksum_ignores_field(blank_header, 5, high(sum), low(sum));
}

/// The UDP datagram of a frame, as the frame holds it.
pub open spec fn udp_datagram_of(frame: Seq<u8>) -> Seq<u8> {
    frame.subrange(ETHERNET_HEADER_LENGTH as int + IPV4_HEADER_LENGTH as int, frame.len() as int)
}

/// The checksum in the UDP header of a frame is the checksum of the
/// datagram under the pseudo-header from `0.0.0.0` to `255.255.255.255`,
/// the checksum field taken as zero.
pub proof fn lemma_udp_checksum_valid(payload: Seq<u8>, mac: Seq<u8>, identification: u16)
    requires
        mac.len() == 6,
    ensures
        ({
            let datagram = udp_datagram_of(dhcp_frame(payload, mac, identification));
            &&& datagram.len() == UDP_HEADER_LENGTH + payload.len()
            &&& word(datagram[6], datagram[7]) == transport_checksum(
                datagram,
                3,
                Seq::empty(),
                unspecified_address(),
                broadcast_address(),
                PROTOCOL_UDP,
            )
        }),
{
    let blank = udp_blank(payload);
    let sum = transport_checksum(
        blank,
        3,
        Seq::empty(),
        unspecified_address(),
        broadcast_address(),
        PROTOCOL_UDP,
    );
    let datagram = udp_datagram_of(dhcp_frame(payload, mac, identification));
    assert(datagram =~= with_word(blank, 6, sum));
    assert(word(high(sum), low(sum)) == sum);
    lemma_transport_checksum_ignores_field(
        blank,
        3,
        high(sum),
        low(sum),
        Seq::empty(),
        unspecified_address(),
        broadcast_address(),
        PROTOCOL_UDP,
    );
}

proof fn lemma_ethernet_payload(mac: Seq<u8>, packet: Seq<u8>)
    requires
        mac.len() == 6,
    ensures
        ethernet_payload(ethernet_frame(mac, packet)) == Some(packet),
{
    let frame = ethernet_frame(mac, packet);
    assert(word(high(ETHERTYPE_IPV4), low(ETHERTYPE_IPV4)) == ETHERTYPE_IPV4);
    assert(frame[12] == high(ETHERTYPE_IPV4) && frame[13] == low(ETHERTYPE_IPV4));
    assert(frame.subrange(ETHERNET_HEADER_LENGTH as int, frame.len() as int) =~= packet);
}

proof fn lemma_ipv4_payload(datagram: Seq<u8>, identification: u16)
    requires
        datagram.len() <= MAX_PAYLOAD_LENGTH + UDP_HEADER_LENGTH,
    ensures
        ipv4_payload(ipv4_packet(datagram, identification)) == Some(datagram),
{
    let packet = ipv4_packet(datagram, identification);
    let total = (IPV4_HEADER_LENGTH + datagram.len()) as u16;
    assert(packet[0] == 0x45u8);
    assert(packet[2] == high(total) && packet[3] == low(total));
    assert(word(high(total), low(total)) == total);
    assert(packet[9] == PROTOCOL_UDP);
    assert(ipv4_payload_start(packet) == 20);
    assert(ipv4_payload_end(packet) == packet.len());
    assert(packet.subrange(20, packet.len() as int) =~= datagram);
}

proof fn lemma_udp_fields(payload: Seq<u8>)
    ensures
        udp_fields(udp_datagram(payload)) == Some(
            Datagram { source: CLIENT_PORT, destination: SERVER_PORT, payload },
        ),
{
    let datagram = udp_datagram(payload);
    assert(word(high(CLIENT_PORT), low(CLIENT_PORT)) == CLIENT_PORT);
    assert(word(high(SERVER_PORT), low(SERVER_PORT)) == SERVER_PORT);
    assert(datagram[0] == high(CLIENT_PORT) && datagram[1] == low(CLIENT_PORT));
    assert(datagram[2] == high(SERVER_PORT) && datagram[3] == low(SERVER_PORT));
    assert(datagram.subrange(UDP_HEADER_LENGTH as int, datagram.len() as int) =~= payload);
}

/// Taking apart a frame that [`encapsulate`] built gives back the payload,
/// sent from port 68 to port 67.
pub proof fn lemma_parse_of_frame(payload: Seq<u8>, mac: Seq<u8>, identification: u16)
    requires
        mac.len() == 6,
        payload.len() <= MAX_PAYLOAD_LENGTH,
    ensures
        udp_in_frame(dhcp_frame(payload, mac, identification)) == Some(
            Datagram { source: CLIENT_PORT, destination: SERVER_PORT, payload },
        ),
{
    let datagram = udp_datagram(payload);
    lemma_udp_fields(payload);
    lemma_ipv4_payload(datagram, identification);
    lemma_ethernet_payload(mac, ipv4_packet(datagram, identification));
}

} // verus!
