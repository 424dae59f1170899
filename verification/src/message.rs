//! DHCP messages: the fields and options this client reads and writes, and
//! their wire form, which `dhcproto` encodes and decodes.

use dhcproto::v4::DhcpOption as Wire;
use dhcproto::v4::{DhcpOptions, Message};
use dhcproto::{Decodable, Decoder, Encodable};
use vstd::prelude::*;
use vstd::slice::slice_to_vec;

verus! {

/// The broadcast bit of the flags field.
pub const BROADCAST_FLAG: u16 = 0x8000;

/// Where the options of a message begin: behind the fixed fields and the
/// magic cookie.
pub const OPTIONS_OFFSET: usize = 240;

/// The longest hardware address a message can hold.
pub const MAX_HARDWARE_ADDRESS: u8 = 16;

/// Option 1, the subnet mask.
pub const OPTION_SUBNET_MASK: u8 = 1;

/// Option 3, the routers.
pub const OPTION_ROUTER: u8 = 3;

/// Option 6, the name servers.
pub const OPTION_DOMAIN_NAME_SERVER: u8 = 6;

/// Option 15, the domain name.
pub const OPTION_DOMAIN_NAME: u8 = 15;

/// Option 50, the address a client asks for.
pub const OPTION_REQUESTED_IP_ADDRESS: u8 = 50;

/// Option 53, the message type.
pub const OPTION_MESSAGE_TYPE: u8 = 53;

/// Option 54, the server that made the offer.
pub const OPTION_SERVER_IDENTIFIER: u8 = 54;

/// Option 55, the options a client wants to be told.
pub const OPTION_PARAMETER_REQUEST_LIST: u8 = 55;

/// Option 61, the client identifier.
pub const OPTION_CLIENT_IDENTIFIER: u8 = 61;

/// The type of a DHCP message, option 53.
#[derive(Clone, Copy, Debug, PartialEq, Eq, Structural)]
pub enum MessageType {
    Discover,
    Offer,
    Request,
    Decline,
    Ack,
    Nak,
    Release,
    Inform,
    /// A type this client has no use for, by its number.
    Other(u8),
}

impl MessageType {
    /// The number of the type on the wire.
    pub open spec fn spec_code(self) -> u8 {
        match self {
            MessageType::Discover => 1,
            MessageType::Offer => 2,
            MessageType::Request => 3,
            MessageType::Decline => 4,
            MessageType::Ack => 5,
            MessageType::Nak => 6,
            MessageType::Release => 7,
            MessageType::Inform => 8,
            MessageType::Other(code) => code,
        }
    }

    /// The type with the number `code`.
    pub open spec fn spec_from_code(code: u8) -> MessageType {
        if code == 1 {
            MessageType::Discover
        } else if code == 2 {
            MessageType::Offer
        } else if code == 3 {
            MessageType::Request
        } else if code == 4 {
            MessageType::Decline
        } else if code == 5 {
            MessageType::Ack
        } else if code == 6 {
            MessageType::Nak
        } else if code == 7 {
            MessageType::Release
        } else if code == 8 {
            MessageType::Inform
        } else {
            MessageType::Other(code)
        }
    }

    /// The number of the type on the wire.
    #[verifier::when_used_as_spec(spec_code)]
    pub fn code(self) -> (code: u8)
        ensures
            code == self.spec_code(),
    {
        match self {
            MessageType::Discover => 1,
            MessageType::Offer => 2,
            MessageType::Request => 3,
            MessageType::Decline => 4,
            MessageType::Ack => 5,
            MessageType::Nak => 6,
            MessageType::Release => 7,
            MessageType::Inform => 8,
            MessageType::Other(code) => code,
        }
    }

    /// The type with the number `code`; every number gives back itself.
    #[verifier::when_used_as_spec(spec_from_code)]
    pub fn from_code(code: u8) -> (kind: MessageType)
        ensures
            kind == MessageType::spec_from_code(code),
            kind.spec_code() == code,
    {
        if code == 1 {
            MessageType::Discover
        } else if code == 2 {
            MessageType::Offer
        } else if code == 3 {
            MessageType::Request
        } else if code == 4 {
            MessageType::Decline
        } else if code == 5 {
            MessageType::Ack
        } else if code == 6 {
            MessageType::Nak
        } else if code == 7 {
            MessageType::Release
        } else if code == 8 {
            MessageType::Inform
        } else {
            MessageType::Other(code)
        }
    }
}

/// One option of a message, as it is handed to and taken from `dhcproto`.
#[derive(Clone, Debug)]
pub enum DhcpOption {
    SubnetMask([u8; 4]),
    Router(Vec<[u8; 4]>),
    RequestedIpAddress([u8; 4]),
    MessageType(u8),
    ServerIdentifier([u8; 4]),
    ParameterRequestList(Vec<u8>),
    ClientIdentifier(Vec<u8>),
    /// An option this client does not read, by its code.
    Other(u8),
}

/// What a [`DhcpOption`] holds.
pub enum OptionView {
    SubnetMask([u8; 4]),
    Router(Seq<[u8; 4]>),
    RequestedIpAddress([u8; 4]),
    MessageType(u8),
    ServerIdentifier([u8; 4]),
    ParameterRequestList(Seq<u8>),
    ClientIdentifier(Seq<u8>),
    Other(u8),
}

impl OptionView {
    /// The code under which the option is filed in a message.
    pub open spec fn code(self) -> u8 {
        match self {
            OptionView::SubnetMask(_) => OPTION_SUBNET_MASK,
            OptionView::Router(_) => OPTION_ROUTER,
            OptionView::RequestedIpAddress(_) => OPTION_REQUESTED_IP_ADDRESS,
            OptionView::MessageType(_) => OPTION_MESSAGE_TYPE,
            OptionView::ServerIdentifier(_) => OPTION_SERVER_IDENTIFIER,
            OptionView::ParameterRequestList(_) => OPTION_PARAMETER_REQUEST_LIST,
            OptionView::ClientIdentifier(_) => OPTION_CLIENT_IDENTIFIER,
            OptionView::Other(code) => code,
        }
    }
}

impl View for DhcpOption {
    type V = OptionView;

    open spec fn view(&self) -> OptionView {
        match self {
            DhcpOption::SubnetMask(mask) => OptionView::SubnetMask(*mask),
            DhcpOption::Router(routers) => OptionView::Router(routers@),
            DhcpOption::RequestedIpAddress(address) => OptionView::RequestedIpAddress(*address),
            DhcpOption::MessageType(kind) => OptionView::MessageType(*kind),
            DhcpOption::ServerIdentifier(server) => OptionView::ServerIdentifier(*server),
            DhcpOption::ParameterRequestList(codes) => OptionView::ParameterRequestList(codes@),
            DhcpOption::ClientIdentifier(id) => OptionView::ClientIdentifier(id@),
            DhcpOption::Other(code) => OptionView::Other(*code),
        }
    }
}

/// The fixed fields of a message that this client sets or reads.
#[derive(Clone, Debug)]
pub struct Header {
    pub xid: u32,
    pub flags: u16,
    pub chaddr: Vec<u8>,
    pub yiaddr: [u8; 4],
    pub siaddr: [u8; 4],
}

/// What a [`Header`] holds.
pub struct HeaderView {
    pub xid: u32,
    pub flags: u16,
    pub chaddr: Seq<u8>,
    pub yiaddr: [u8; 4],
    pub siaddr: [u8; 4],
}

impl View for Header {
    type V = HeaderView;

    open spec fn view(&self) -> HeaderView {
        HeaderView {
            xid: self.xid,
            flags: self.flags,
            chaddr: self.chaddr@,
            yiaddr: self.yiaddr,
            siaddr: self.siaddr,
        }
    }
}

/// A DHCP message: the transaction, the addresses, and the options this
/// client knows, each present or not.
#[derive(Clone, Debug)]
pub struct DhcpMessage {
    /// The transaction identifier.
    pub xid: u32,
    /// The flags field; [`BROADCAST_FLAG`] asks for a broadcast reply.
    pub flags: u16,
    /// The hardware address of the client.
    pub chaddr: Vec<u8>,
    /// The address the server hands to the client.
    pub yiaddr: [u8; 4],
    /// The address of the server.
    pub siaddr: [u8; 4],
    pub message_type: Option<MessageType>,
    pub client_identifier: Option<Vec<u8>>,
    pub parameter_request_list: Option<Vec<u8>>,
    pub requested_ip_address: Option<[u8; 4]>,
    pub server_identifier: Option<[u8; 4]>,
    pub subnet_mask: Option<[u8; 4]>,
    pub router: Option<Vec<[u8; 4]>>,
}

/// What a [`DhcpMessage`] holds.
pub struct MessageView {
    pub header: HeaderView,
    pub message_type: Option<MessageType>,
    pub client_identifier: Option<Seq<u8>>,
    pub parameter_request_list: Option<Seq<u8>>,
    pub requested_ip_address: Option<[u8; 4]>,
    pub server_identifier: Option<[u8; 4]>,
    pub subnet_mask: Option<[u8; 4]>,
    pub router: Option<Seq<[u8; 4]>>,
}

/// What an optional list holds.
pub open spec fn list_view<T>(list: Option<Vec<T>>) -> Option<Seq<T>> {
    match list {
        Some(items) => Some(items@),
        None => None,
    }
}

impl View for DhcpMessage {
    type V = MessageView;

    open spec fn view(&self) -> MessageView {
        MessageView {
            header: HeaderView {
                xid: self.xid,
                flags: self.flags,
                chaddr: self.chaddr@,
                yiaddr: self.yiaddr,
                siaddr: self.siaddr,
            },
            message_type: self.message_type,
            client_identifier: list_view(self.client_identifier),
            parameter_request_list: list_view(self.parameter_request_list),
            requested_ip_address: self.requested_ip_address,
            server_identifier: self.server_identifier,
            subnet_mask: self.subnet_mask,
            router: list_view(self.router),
        }
    }
}

/// `entries` with `option` filed under its code, if there is one.
pub open spec fn with_entry(entries: Map<u8, OptionView>, option: Option<OptionView>) -> Map<
    u8,
    OptionView,
> {
    match option {
        Some(option) => entries.insert(option.code(), option),
        None => entries,
    }
}

/// The option `make` builds of `value`, if there is a value.
pub open spec fn entry_of<T>(value: Option<T>, make: spec_fn(T) -> OptionView) -> Option<
    OptionView,
> {
    match value {
        Some(value) => Some(make(value)),
        None => None,
    }
}

/// The options of `message` by their codes: one entry for each option that
/// is present.
pub open spec fn entries_of(message: MessageView) -> Map<u8, OptionView> {
    let e0 = no_entries();
    let e1 = with_entry(e0, entry_of(message.subnet_mask, |v| OptionView::SubnetMask(v)));
    let e2 = with_entry(e1, entry_of(message.router, |v| OptionView::Router(v)));
    let e3 = with_entry(
        e2,
        entry_of(message.requested_ip_address, |v| OptionView::RequestedIpAddress(v)),
    );
    let e4 = with_entry(
        e3,
        entry_of(message.message_type, |v: MessageType| OptionView::MessageType(v.spec_code())),
    );
    let e5 = with_entry(
        e4,
        entry_of(message.server_identifier, |v| OptionView::ServerIdentifier(v)),
    );
    let e6 = with_entry(
        e5,
        entry_of(message.parameter_request_list, |v| OptionView::ParameterRequestList(v)),
    );
    with_entry(e6, entry_of(message.client_identifier, |v| OptionView::ClientIdentifier(v)))
}

/// The message with the fixed fields `header` and the options `entries`.
/// An option counts as present where its code holds an option of its kind.
pub open spec fn message_of(header: HeaderView, entries: Map<u8, OptionView>) -> MessageView {
    MessageView {
        header,
        message_type: if entries.contains_key(OPTION_MESSAGE_TYPE)
            && entries[OPTION_MESSAGE_TYPE] is MessageType {
            Some(MessageType::spec_from_code(entries[OPTION_MESSAGE_TYPE]->MessageType_0))
        } else {
            None
        },
        client_identifier: if entries.contains_key(OPTION_CLIENT_IDENTIFIER)
            && entries[OPTION_CLIENT_IDENTIFIER] is ClientIdentifier {
            Some(entries[OPTION_CLIENT_IDENTIFIER]->ClientIdentifier_0)
        } else {
            None
        },
        parameter_request_list: if entries.contains_key(OPTION_PARAMETER_REQUEST_LIST)
            && entries[OPTION_PARAMETER_REQUEST_LIST] is ParameterRequestList {
            Some(entries[OPTION_PARAMETER_REQUEST_LIST]->ParameterRequestList_0)
        } else {
            None
        },
        requested_ip_address: if entries.contains_key(OPTION_REQUESTED_IP_ADDRESS)
            && entries[OPTION_REQUESTED_IP_ADDRESS] is RequestedIpAddress {
            Some(entries[OPTION_REQUESTED_IP_ADDRESS]->RequestedIpAddress_0)
        } else {
            None
        },
        server_identifier: if entries.contains_key(OPTION_SERVER_IDENTIFIER)
            && entries[OPTION_SERVER_IDENTIFIER] is ServerIdentifier {
            Some(entries[OPTION_SERVER_IDENTIFIER]->ServerIdentifier_0)
        } else {
            None
        },
        subnet_mask: if entries.contains_key(OPTION_SUBNET_MASK)
            && entries[OPTION_SUBNET_MASK] is SubnetMask {
            Some(entries[OPTION_SUBNET_MASK]->SubnetMask_0)
        } else {
            None
        },
        router: if entries.contains_key(OPTION_ROUTER) && entries[OPTION_ROUTER] is Router {
            Some(entries[OPTION_ROUTER]->Router_0)
        } else {
            None
        },
    }
}

/// No option at all.
pub open spec fn no_entries() -> Map<u8, OptionView> {
    Map::empty()
}

/// Whether every option in `entries` is one this client can write.
pub open spec fn all_known(entries: Map<u8, OptionView>) -> bool {
    forall|code: u8| entries.contains_key(code) ==> !(#[trigger] entries[code] is Other)
}

/// Options whose decoding in `dhcproto` is guarded by assertions on their
/// length, or is handed on to a name parser: rapid commit, client FQDN,
/// BCMCS controller names, client network interface, domain search, and
/// the bulk lease query times and status. This client reads none of them,
/// and keeps them from the decoder.
pub open spec fn fragile(code: u8) -> bool {
    code == 80 || code == 81 || code == 88 || code == 94 || code == 119 || (151 <= code && code
        <= 155)
}

/// Whether no fragile option begins at or behind `at`, walking the options
/// of `bytes` from there: a pad is one byte, an end mark or a cut-off option
/// ends the walk, and every other option is its code, its length, and that
/// many bytes.
pub open spec fn options_are_plain(bytes: Seq<u8>, at: int) -> bool
    decreases bytes.len() - at,
{
    if at < 0 || at >= bytes.len() {
        true
    } else if bytes[at] == 255 {
        true
    } else if bytes[at] == 0 {
        options_are_plain(bytes, at + 1)
    } else if fragile(bytes[at]) {
        false
    } else if at + 1 >= bytes.len() || at + 2 + bytes[at + 1] >= bytes.len() {
        true
    } else {
        options_are_plain(bytes, at + 2 + bytes[at + 1])
    }
}

/// Whether `bytes` can be handed to the decoder: the hardware address
/// length is one the message can hold, and no option is fragile.
pub open spec fn decodable(bytes: Seq<u8>) -> bool {
    (bytes.len() > 2 ==> bytes[2] <= MAX_HARDWARE_ADDRESS) && options_are_plain(
        bytes,
        OPTIONS_OFFSET as int,
    )
}

/// Where the option that begins at `at` ends: behind its code, its length
/// and that many bytes, or where the bytes end if it is cut off.
pub open spec fn option_end(bytes: Seq<u8>, at: int) -> int {
    if at + 1 >= bytes.len() || at + 2 + bytes[at + 1] >= bytes.len() {
        bytes.len() as int
    } else {
        at + 2 + bytes[at + 1]
    }
}

/// `bytes` with a pad in every place from `from` up to `to`.
pub open spec fn blanked(bytes: Seq<u8>, from: int, to: int) -> Seq<u8> {
    Seq::new(
        bytes.len(),
        |i: int|
            if from <= i && i < to {
                0u8
            } else {
                bytes[i]
            },
    )
}

/// `bytes` with every fragile option at or behind `at` overwritten by
/// pads, from its code to its last byte. The walk is that of
/// [`options_are_plain`]; nothing else changes, and every other option
/// stays where it was.
pub open spec fn without_fragile(bytes: Seq<u8>, at: int) -> Seq<u8>
    decreases bytes.len() - at,
{
    if at < 0 || at >= bytes.len() || bytes[at] == 255 {
        bytes
    } else if bytes[at] == 0 {
        without_fragile(bytes, at + 1)
    } else {
        let end = option_end(bytes, at);
        let kept = if fragile(bytes[at]) {
            blanked(bytes, at, end)
        } else {
            bytes
        };
        if end >= bytes.len() {
            kept
        } else {
            without_fragile(kept, end)
        }
    }
}

/// What the decoder is given to read of `bytes`: the same bytes, the
/// fragile options among them padded out.
pub open spec fn readable(bytes: Seq<u8>) -> Seq<u8> {
    without_fragile(bytes, OPTIONS_OFFSET as int)
}

/// `dhcproto::v4::DhcpOptions`, the options of a message filed by their
/// codes. Nothing is known of a value but what [`option_entries`] tells.
#[verifier::external_type_specification]
#[verifier::external_body]
pub struct ExDhcpOptions(DhcpOptions);

/// The options that a `dhcproto` option set holds, by their codes.
pub uninterp spec fn option_entries(options: DhcpOptions) -> Map<u8, OptionView>;

/// The bytes `dhcproto` writes for a boot request with the fixed fields
/// `header` and the options `entries`, if it can write them.
pub uninterp spec fn wire_encoding(header: HeaderView, entries: Map<u8, OptionView>) -> Option<
    Seq<u8>,
>;

/// The fixed fields and options `dhcproto` reads from `bytes`, if it can
/// read a message from them.
pub uninterp spec fn wire_decoding(bytes: Seq<u8>) -> Option<(HeaderView, Map<u8, OptionView>)>;

/// `DhcpOptions::new`: a set that holds no option.
#[verifier::external_body]
fn options_new() -> (created: DhcpOptions)
    ensures
        option_entries(created) == no_entries(),
{
    DhcpOptions::new()
}

/// `DhcpOptions::insert`, which files an option under the code of its
/// kind and replaces what stood there. Addresses, codes and the message
/// type are converted one for one.
#[verifier::external_body]
fn options_insert(options: &mut DhcpOptions, option: DhcpOption)
    requires
        !(option is Other),
    ensures
        option_entries(*final(options)) == option_entries(*old(options)).insert(
            option@.code(),
            option@,
        ),
{
    options.insert(
        match option {
            DhcpOption::SubnetMask(a) => Wire::SubnetMask(a.into()),
            DhcpOption::Router(v) => Wire::Router(v.into_iter().map(Into::into).collect()),
            DhcpOption::RequestedIpAddress(a) => Wire::RequestedIpAddress(a.into()),
            DhcpOption::MessageType(t) => Wire::MessageType(t.into()),
            DhcpOption::ServerIdentifier(a) => Wire::ServerIdentifier(a.into()),
            DhcpOption::ParameterRequestList(v) => Wire::ParameterRequestList(
                v.into_iter().map(Into::into).collect(),
            ),
            DhcpOption::ClientIdentifier(v) => Wire::ClientIdentifier(v),
            DhcpOption::Other(_) => return ,
        },
    );
}

/// `DhcpOptions::get`: the option filed under `code`, if there is one. An
/// option of a kind this client does not read comes back as `Other`.
#[verifier::external_body]
fn options_get(options: &DhcpOptions, code: u8) -> (found: Option<DhcpOption>)
    ensures
        found is Some == option_entries(*options).contains_key(code),
        found is Some ==> found->Some_0@ == option_entries(*options)[code],
{
    Some(
        match options.get(code.into())? {
            Wire::SubnetMask(a) => DhcpOption::SubnetMask(a.octets()),
            Wire::Router(v) => DhcpOption::Router(v.iter().map(|a| a.octets()).collect()),
            Wire::RequestedIpAddress(a) => DhcpOption::RequestedIpAddress(a.octets()),
            Wire::MessageType(t) => DhcpOption::MessageType((*t).into()),
            Wire::ServerIdentifier(a) => DhcpOption::ServerIdentifier(a.octets()),
            Wire::ParameterRequestList(v) => DhcpOption::ParameterRequestList(
                v.iter().copied().map(u8::from).collect(),
            ),
            Wire::ClientIdentifier(v) => DhcpOption::ClientIdentifier(v.clone()),
            _ => DhcpOption::Other(code),
        },
    )
}

/// `Message::to_vec` on a fresh boot request that was given the fields of
/// `header` and the options `options`. What is written depends on nothing
/// else: the transaction identifier is set, not drawn.
#[verifier::external_body]
fn wire_encode(header: &Header, options: &DhcpOptions) -> (bytes: Option<Vec<u8>>)
    requires
        all_known(option_entries(*options)),
    ensures
        bytes is Some == wire_encoding(header@, option_entries(*options)) is Some,
        bytes is Some ==> bytes->Some_0@ == wire_encoding(
            header@,
            option_entries(*options),
        )->Some_0,
{
    let mut message = Message::default();
    message.set_xid(header.xid).set_flags(header.flags.into()).set_chaddr(&header.chaddr);
    message.set_yiaddr(header.yiaddr).set_siaddr(header.siaddr).set_opts(options.clone());
    message.to_vec().ok()
}

/// `Message::decode`. Not every input is safe with it: it slices the
/// hardware address by the length the message claims, and a few options
/// are decoded under assertions on their length or handed to a name
/// parser. Inputs that are [`decodable`] reach none of these.
#[verifier::external_body]
fn wire_decode(bytes: &[u8]) -> (decoded: Option<(Header, DhcpOptions)>)
    requires
        decodable(bytes@),
    ensures
        decoded is Some == wire_decoding(bytes@) is Some,
        decoded is Some ==> wire_decoding(bytes@)->Some_0 == (
            decoded->Some_0.0@,
            option_entries(decoded->Some_0.1),
        ),
{
    let message = Message::decode(&mut Decoder::new(bytes)).ok()?;
    let header = Header {
        xid: message.xid(),
        flags: message.flags().into(),
        chaddr: message.chaddr().to_vec(),
        yiaddr: message.yiaddr().octets(),
        siaddr: message.siaddr().octets(),
    };
    Some((header, message.opts().clone()))
}

/// The address `0.0.0.0`.
pub open spec fn unspecified() -> [u8; 4] {
    [0u8, 0u8, 0u8, 0u8]
}

/// The options every message of this client asks to be told: subnet mask,
/// routers, name servers and domain name.
pub open spec fn requested_parameters() -> Seq<u8> {
    seq![
        OPTION_SUBNET_MASK,
        OPTION_ROUTER,
        OPTION_DOMAIN_NAME_SERVER,
        OPTION_DOMAIN_NAME,
    ]
}

/// The message a client with the hardware address `mac` sends: it asks for
/// a broadcast reply, names its type, lists the parameters it wants, and
/// identifies itself by its hardware address.
pub open spec fn client_message(mac: Seq<u8>, kind: MessageType, xid: u32) -> MessageView {
    MessageView {
        header: HeaderView {
            xid,
            flags: BROADCAST_FLAG,
            chaddr: mac,
            yiaddr: unspecified(),
            siaddr: unspecified(),
        },
        message_type: Some(kind),
        client_identifier: Some(mac),
        parameter_request_list: Some(requested_parameters()),
        requested_ip_address: None,
        server_identifier: None,
        subnet_mask: None,
        router: None,
    }
}

/// The wire form of `message`, if it has one.
pub open spec fn encoded(message: MessageView) -> Option<Seq<u8>> {
    wire_encoding(message.header, entries_of(message))
}

/// The message that `bytes` spell, if they spell one. They spell none if
/// they claim a hardware address longer than a message can hold. Fragile
/// options are not read: the message is the one that `dhcproto` finds with
/// those options padded out, so every other option counts.
pub open spec fn decoded(bytes: Seq<u8>) -> Option<MessageView> {
    if bytes.len() > 2 && bytes[2] > MAX_HARDWARE_ADDRESS {
        None
    } else {
        match wire_decoding(readable(bytes)) {
            Some(parts) => Some(message_of(parts.0, parts.1)),
            None => None,
        }
    }
}

/// Padding out leaves the length alone, and every byte before the place
/// where it begins.
pub proof fn lemma_without_fragile_keeps(bytes: Seq<u8>, at: int)
    requires
        0 <= at,
    ensures
        without_fragile(bytes, at).len() == bytes.len(),
        forall|i: int| 0 <= i < at && i < bytes.len() ==> without_fragile(bytes, at)[i] == bytes[i],
    decreases bytes.len() - at,
{
    if at >= bytes.len() || bytes[at] == 255 {
    } else if bytes[at] == 0 {
        lemma_without_fragile_keeps(bytes, at + 1);
    } else {
        let end = option_end(bytes, at);
        let kept = if fragile(bytes[at]) {
            blanked(bytes, at, end)
        } else {
            bytes
        };
        if end < bytes.len() {
            lemma_without_fragile_keeps(kept, end);
        }
        assert forall|i: int| 0 <= i < at && i < bytes.len() implies without_fragile(bytes, at)[i]
            == bytes[i] by {
            assert(kept[i] == bytes[i]);
        }
    }
}

proof fn lemma_pads_are_plain(bytes: Seq<u8>, from: int, to: int)
    requires
        0 <= from <= to <= bytes.len(),
        forall|i: int| from <= i < to ==> bytes[i] == 0,
    ensures
        options_are_plain(bytes, from) == options_are_plain(bytes, to),
    decreases to - from,
{
    if from < to {
        lemma_pads_are_plain(bytes, from + 1, to);
    }
}

/// With the fragile options padded out, none is left.
pub proof fn lemma_without_fragile_is_plain(bytes: Seq<u8>, at: int)
    requires
        0 <= at,
    ensures
        options_are_plain(without_fragile(bytes, at), at),
    decreases bytes.len() - at,
{
    let padded = without_fragile(bytes, at);
    lemma_without_fragile_keeps(bytes, at);
    if at >= bytes.len() || bytes[at] == 255 {
    } else if bytes[at] == 0 {
        lemma_without_fragile_keeps(bytes, at + 1);
        lemma_without_fragile_is_plain(bytes, at + 1);
    } else {
        let end = option_end(bytes, at);
        if fragile(bytes[at]) {
            let kept = blanked(bytes, at, end);
            if end < bytes.len() {
                lemma_without_fragile_keeps(kept, end);
                lemma_without_fragile_is_plain(kept, end);
            }
            assert forall|i: int| at <= i < end implies padded[i] == 0 by {
                assert(kept[i] == 0);
            }
            lemma_pads_are_plain(padded, at, end);
        } else if end < bytes.len() {
            lemma_without_fragile_keeps(bytes, end);
            lemma_without_fragile_is_plain(bytes, end);
            assert(padded[at] == bytes[at] && padded[at + 1] == bytes[at + 1]);
        }
    }
}

/// Where no option is fragile, padding out changes nothing.
pub proof fn lemma_plain_is_kept(bytes: Seq<u8>, at: int)
    requires
        options_are_plain(bytes, at),
    ensures
        without_fragile(bytes, at) == bytes,
    decreases bytes.len() - at,
{
    if at < 0 || at >= bytes.len() || bytes[at] == 255 {
    } else if bytes[at] == 0 {
        lemma_plain_is_kept(bytes, at + 1);
    } else if option_end(bytes, at) < bytes.len() {
        lemma_plain_is_kept(bytes, option_end(bytes, at));
    }
}

fn copy_addresses(addresses: &Vec<[u8; 4]>) -> (copy: Vec<[u8; 4]>)
    ensures
        copy@ == addresses@,
{
    let mut copy: Vec<[u8; 4]> = Vec::new();
    let mut index: usize = 0;
    while index < addresses.len()
        invariant
            index <= addresses.len(),
            copy@ == addresses@.subrange(0, index as int),
        decreases addresses.len() - index,
    {
        copy.push(addresses[index]);
        index = index + 1;
    }
    copy
}

fn is_fragile(code: u8) -> (yes: bool)
    ensures
        yes == fragile(code),
{
    code == 80 || code == 81 || code == 88 || code == 94 || code == 119 || (151 <= code && code
        <= 155)
}

/// Whether `bytes` can be handed to the decoder.
pub fn is_decodable(bytes: &[u8]) -> (yes: bool)
    ensures
        yes == decodable(bytes@),
{
    if bytes.len() > 2 && bytes[2] > MAX_HARDWARE_ADDRESS {
        return false;
    }
    let mut at: usize = OPTIONS_OFFSET;
    while at < bytes.len()
        invariant
            OPTIONS_OFFSET <= at,
            bytes@.len() > 2 ==> bytes@[2] <= MAX_HARDWARE_ADDRESS,
            options_are_plain(bytes@, OPTIONS_OFFSET as int) == options_are_plain(bytes@, at as int),
        decreases bytes.len() - at,
    {
        let code = bytes[at];
        if code == 255 {
            return true;
        } else if code == 0 {
            at = at + 1;
        } else if is_fragile(code) {
            return false;
        } else if at + 1 >= bytes.len() {
            return true;
        } else {
            let length = bytes[at + 1] as usize;
            if length + 2 >= bytes.len() - at {
                return true;
            }
            at = at + 2 + length;
        }
    }
    true
}

fn blank(bytes: &mut Vec<u8>, from: usize, to: usize)
    requires
        from <= to <= old(bytes).len(),
    ensures
        final(bytes)@ == blanked(old(bytes)@, from as int, to as int),
{
    let mut at = from;
    while at < to
        invariant
            from <= at <= to <= bytes.len(),
            bytes@ == blanked(old(bytes)@, from as int, at as int),
        decreases to - at,
    {
        bytes.set(at, 0);
        at = at + 1;
        assert(bytes@ =~= blanked(old(bytes)@, from as int, at as int));
    }
    assert(bytes@ =~= blanked(old(bytes)@, from as int, to as int));
}

/// A copy of `bytes` in which every fragile option is overwritten by pads,
/// so that the decoder passes over it and reads what comes behind.
pub fn pad_fragile_options(bytes: &[u8]) -> (padded: Vec<u8>)
    ensures
        padded@ == readable(bytes@),
{
    let mut padded = slice_to_vec(bytes);
    let length = padded.len();
    let mut at: usize = OPTIONS_OFFSET;
    while at < length
        invariant
            OPTIONS_OFFSET <= at,
            length == padded.len() == bytes@.len(),
            readable(bytes@) == without_fragile(padded@, at as int),
        decreases length - at,
    {
        let code = padded[at];
        if code == 255 {
            return padded;
        } else if code == 0 {
            at = at + 1;
        } else {
            let end = if at + 1 >= length || padded[at + 1] as usize + 2 >= length - at {
                length
            } else {
                at + 2 + padded[at + 1] as usize
            };
            assert(end == option_end(padded@, at as int));
            if is_fragile(code) {
                blank(&mut padded, at, end);
            }
            if end >= length {
                return padded;
            }
            at = end;
        }
    }
    padded
}

/// Reads a DHCP message from `bytes`. There is none if the bytes claim a
/// hardware address that is too long, or if `dhcproto` finds none. Fragile
/// options are padded out before `dhcproto` sees the bytes; what the other
/// options say is read as it stands.
pub fn decode_message(bytes: &[u8]) -> (message: Option<DhcpMessage>)
    ensures
        match message {
            Some(message) => decoded(bytes@) == Some(message@),
            None => decoded(bytes@) is None,
        },
{
    if bytes.len() > 2 && bytes[2] > MAX_HARDWARE_ADDRESS {
        return None;
    }
    let found = if is_decodable(bytes) {
        proof {
            lemma_plain_is_kept(bytes@, OPTIONS_OFFSET as int);
        }
        wire_decode(bytes)
    } else {
        let padded = pad_fragile_options(bytes);
        proof {
            lemma_without_fragile_keeps(bytes@, OPTIONS_OFFSET as int);
            lemma_without_fragile_is_plain(bytes@, OPTIONS_OFFSET as int);
        }
        wire_decode(padded.as_slice())
    };
    let (header, options) = match found {
        Some(parts) => parts,
        None => { return None; },
    };
    let ghost entries = option_entries(options);
    let message_type = match options_get(&options, OPTION_MESSAGE_TYPE) {
        Some(DhcpOption::MessageType(code)) => Some(MessageType::from_code(code)),
        _ => None,
    };
    let client_identifier = match options_get(&options, OPTION_CLIENT_IDENTIFIER) {
        Some(DhcpOption::ClientIdentifier(id)) => Some(id),
        _ => None,
    };
    let parameter_request_list = match options_get(&options, OPTION_PARAMETER_REQUEST_LIST) {
        Some(DhcpOption::ParameterRequestList(codes)) => Some(codes),
        _ => None,
    };
    let requested_ip_address = match options_get(&options, OPTION_REQUESTED_IP_ADDRESS) {
        Some(DhcpOption::RequestedIpAddress(address)) => Some(address),
        _ => None,
    };
    let server_identifier = match options_get(&options, OPTION_SERVER_IDENTIFIER) {
        Some(DhcpOption::ServerIdentifier(server)) => Some(server),
        _ => None,
    };
    let subnet_mask = match options_get(&options, OPTION_SUBNET_MASK) {
        Some(DhcpOption::SubnetMask(mask)) => Some(mask),
        _ => None,
    };
    let router = match options_get(&options, OPTION_ROUTER) {
        Some(DhcpOption::Router(routers)) => Some(routers),
        _ => None,
    };
    let message = DhcpMessage {
        xid: header.xid,
        flags: header.flags,
        chaddr: header.chaddr,
        yiaddr: header.yiaddr,
        siaddr: header.siaddr,
        message_type,
        client_identifier,
        parameter_request_list,
        requested_ip_address,
        server_identifier,
        subnet_mask,
        router,
    };
    assert(message@ == message_of(header@, entries));
    Some(message)
}

/// Writes `message` in its wire form. There is none if `dhcproto` cannot
/// write the message.
pub fn encode_message(message: &DhcpMessage) -> (bytes: Option<Vec<u8>>)
    ensures
        match bytes {
            Some(bytes) => encoded(message@) == Some(bytes@),
            None => encoded(message@) is None,
        },
{
    let ghost view = message@;
    let mut options = options_new();
    if let Some(mask) = message.subnet_mask {
        options_insert(&mut options, DhcpOption::SubnetMask(mask));
    }
    let ghost e1 = with_entry(
        no_entries(),
        entry_of(view.subnet_mask, |v| OptionView::SubnetMask(v)),
    );
    assert(option_entries(options) == e1 && all_known(e1));
    if let Some(routers) = &message.router {
        options_insert(&mut options, DhcpOption::Router(copy_addresses(routers)));
    }
    let ghost e2 = with_entry(e1, entry_of(view.router, |v| OptionView::Router(v)));
    assert(option_entries(options) == e2 && all_known(e2));
    if let Some(address) = message.requested_ip_address {
        options_insert(&mut options, DhcpOption::RequestedIpAddress(address));
    }
    let ghost e3 = with_entry(
        e2,
        entry_of(view.requested_ip_address, |v| OptionView::RequestedIpAddress(v)),
    );
    assert(option_entries(options) == e3 && all_known(e3));
    if let Some(kind) = message.message_type {
        options_insert(&mut options, DhcpOption::MessageType(kind.code()));
    }
    let ghost e4 = with_entry(
        e3,
        entry_of(view.message_type, |v: MessageType| OptionView::MessageType(v.spec_code())),
    );
    assert(option_entries(options) == e4 && all_known(e4));
    if let Some(server) = message.server_identifier {
        options_insert(&mut options, DhcpOption::ServerIdentifier(server));
    }
    let ghost e5 = with_entry(
        e4,
        entry_of(view.server_identifier, |v| OptionView::ServerIdentifier(v)),
    );
    assert(option_entries(options) == e5 && all_known(e5));
    if let Some(codes) = &message.parameter_request_list {
        options_insert(&mut options, DhcpOption::ParameterRequestList(codes.clone()));
    }
    let ghost e6 = with_entry(
        e5,
        entry_of(view.parameter_request_list, |v| OptionView::ParameterRequestList(v)),
    );
    assert(option_entries(options) == e6 && all_known(e6));
    if let Some(id) = &message.client_identifier {
        options_insert(&mut options, DhcpOption::ClientIdentifier(id.clone()));
    }
    let ghost e7 = with_entry(
        e6,
        entry_of(view.client_identifier, |v| OptionView::ClientIdentifier(v)),
    );
    assert(option_entries(options) == e7 && all_known(e7));
    assert(e7 == entries_of(view));
    let header = Header {
        xid: message.xid,
        flags: message.flags,
        chaddr: message.chaddr.clone(),
        yiaddr: message.yiaddr,
        siaddr: message.siaddr,
    };
    assert(header@ == view.header);
    wire_encode(&header, &options)
}

/// The message a client with the hardware address `mac` sends, of the
/// given type and in the transaction `xid`: see [`client_message`].
pub fn create_dhcpv4_message(mac: &[u8; 6], dhcp_message_type: MessageType, xid: u32) -> (message:
    DhcpMessage)
    ensures
        message@ == client_message(mac@, dhcp_message_type, xid),
{
    let mut chaddr: Vec<u8> = Vec::new();
    chaddr.extend_from_slice(mac.as_slice());
    let mut parameters: Vec<u8> = Vec::new();
    parameters.push(OPTION_SUBNET_MASK);
    parameters.push(OPTION_ROUTER);
    parameters.push(OPTION_DOMAIN_NAME_SERVER);
    parameters.push(OPTION_DOMAIN_NAME);
    assert(parameters@ == requested_parameters());
    let zero: [u8; 4] = [0, 0, 0, 0];
    assert(zero == unspecified()) by {
        assert(zero@ =~= unspecified()@);
    }
    let message = DhcpMessage {
        xid,
        flags: BROADCAST_FLAG,
        chaddr: chaddr.clone(),
        yiaddr: zero,
        siaddr: zero,
        message_type: Some(dhcp_message_type),
        client_identifier: Some(chaddr),
        parameter_request_list: Some(parameters),
        requested_ip_address: None,
        server_identifier: None,
        subnet_mask: None,
        router: None,
    };
    assert(message@.header.chaddr =~= mac@);
    assert(message@.router == None::<Seq<[u8; 4]>>);
    message
}

} // verus!
