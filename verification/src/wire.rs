//! The etherparse headers that decoding and the fixtures work with.
//!
//! The header types are etherparse's and opaque here. Decoding keeps the
//! decoded headers together with the frame they came from, and each plain
//! value read from them is named as a function of the frame's bytes.
//! Building fixtures starts from the library's own header fields; the
//! serialized layouts are stated as etherparse's source writes them, and
//! the checksums etherparse computes are named as functions of the fields,
//! addresses and payload.

use vstd::prelude::*;
use etherparse::icmpv4::{DestUnreachableHeader, TimeExceededCode};
use etherparse::{
    EtherType, Ethernet2Header, Icmpv4Header, Icmpv4Type, IpNumber, Ipv4Header, LinkHeader,
    NetHeaders, PacketHeaders, TcpHeader, TransportHeader, UdpHeader,
};
use crate::bytes::{be16_bytes, be32_bytes};
use crate::diagnosis::DestUnreachableReason;
use crate::diagnosis::DestUnreachableReason as R;
use etherparse::icmpv4::DestUnreachableHeader as H;

verus! {

/// etherparse's headers decoded from a frame, opaque here.
#[verifier::external_type_specification]
#[verifier::external_body]
pub struct ExPacketHeaders<'a>(PacketHeaders<'a>);

/// Headers that etherparse decoded from `frame`, kept with the frame they
/// were decoded from. Only [`decode_ethernet`] makes one.
pub struct DecodedFrame<'a> {
    frame: &'a [u8],
    headers: PacketHeaders<'a>,
}

impl<'a> View for DecodedFrame<'a> {
    type V = Seq<u8>;

    closed spec fn view(&self) -> Seq<u8> {
        self.frame@
    }
}

/// The network header of a decoded frame, with the IPv4 fields that the
/// diagnosis reads.
#[derive(Debug, Clone, Copy)]
pub enum NetKind {
    /// No network header was decoded.
    Missing,
    Ipv4 { header_checksum: u16, time_to_live: u8, protocol: u8 },
    /// IPv6 or ARP.
    Other,
}

/// The transport header of a decoded frame, with the fields that the
/// diagnosis reads.
#[derive(Debug, Clone, Copy)]
pub enum TransportKind {
    Tcp { checksum: u16, rst: bool },
    Udp { checksum: u16, source_port: u16, destination_port: u16 },
    Icmpv4DestinationUnreachable,
    Icmpv4TimeExceeded,
    /// Another ICMPv4 type, another transport header, or none.
    Other,
}

/// The ICMPv4 messages that fixtures build.
#[derive(Debug, Clone, Copy, PartialEq, Eq, Structural)]
pub enum IcmpMessage {
    /// Destination unreachable, port unreachable.
    PortUnreachable,
    /// Time exceeded, time to live exceeded in transit.
    TtlExceededInTransit,
}

/// The error message, in etherparse's `Display` form, with which
/// `PacketHeaders::from_ethernet_slice` refuses `frame`; `None` where it
/// decodes `frame`.
pub uninterp spec fn ethernet_decode_error(frame: Seq<u8>) -> Option<Seq<char>>;

/// The EtherType of the Ethernet II link header etherparse decodes from `frame`.
pub uninterp spec fn etherparse_link_ether_type(frame: Seq<u8>) -> Option<u16>;

/// The network header etherparse decodes from `frame`.
pub uninterp spec fn etherparse_net(frame: Seq<u8>) -> NetKind;

/// `Ipv4Header::calc_header_checksum` of the IPv4 header etherparse decodes
/// from `frame`.
pub uninterp spec fn etherparse_ipv4_checksum(frame: Seq<u8>) -> Option<u16>;

/// The transport header etherparse decodes from `frame`.
pub uninterp spec fn etherparse_transport(frame: Seq<u8>) -> TransportKind;

/// The reason of the ICMPv4 "destination unreachable" header etherparse
/// decodes from `frame`.
pub uninterp spec fn etherparse_dest_unreachable(frame: Seq<u8>) -> Option<DestUnreachableReason>;

/// `TcpHeader::calc_checksum_ipv4` of the TCP header, IPv4 header and
/// payload etherparse decodes from `frame`.
pub uninterp spec fn etherparse_tcp_checksum(frame: Seq<u8>) -> Option<u16>;

/// `UdpHeader::calc_checksum_ipv4` of the UDP header, IPv4 header and
/// payload etherparse decodes from `frame`.
pub uninterp spec fn etherparse_udp_checksum(frame: Seq<u8>) -> Option<u16>;

/// The payload of the last layer etherparse decodes from `frame`.
pub uninterp spec fn etherparse_payload(frame: Seq<u8>) -> Seq<u8>;

/// The Ethernet II header with these fields, serialized: destination,
/// source, then the EtherType most significant byte first.
pub open spec fn ethernet2_bytes(source: Seq<u8>, destination: Seq<u8>, ether_type: u16) -> Seq<u8> {
    destination + source + be16_bytes(ether_type)
}

/// `PacketHeaders::from_ethernet_slice`, with a refusal rendered by its
/// `Display` form. Claimed: whether it refuses and with which message is a
/// function of the bytes (`ethernet_decode_error`), and a frame shorter
/// than an Ethernet II header (14 bytes) is refused, as
/// `Ethernet2Header::from_slice` checks first.
#[verifier::external_body]
pub(crate) fn decode_ethernet<'a>(frame: &'a [u8]) -> (r: Result<DecodedFrame<'a>, String>)
    ensures
        r is Err <==> ethernet_decode_error(frame@) is Some,
        r matches Err(m) ==> ethernet_decode_error(frame@) == Some(m@),
        r matches Ok(decoded) ==> decoded@ == frame@,
        frame@.len() < 14 ==> r is Err,
{
    match PacketHeaders::from_ethernet_slice(frame) {
        Ok(headers) => Ok(DecodedFrame { frame, headers }),
        Err(e) => Err(e.to_string()),
    }
}

/// The `ether_type` of the decoded link header where it is Ethernet II.
/// Claimed: a function of the frame (`etherparse_link_ether_type`).
#[verifier::external_body]
pub(crate) fn frame_link_ether_type(decoded: &DecodedFrame) -> (r: Option<u16>)
    ensures
        r == etherparse_link_ether_type(decoded@),
{
    match &decoded.headers.link {
        Some(LinkHeader::Ethernet2(ethernet)) => Some(ethernet.ether_type.0),
        _ => None,
    }
}

/// The decoded `net` header by kind, with the IPv4 `header_checksum`,
/// `time_to_live` and `protocol` fields. Claimed: a function of the frame
/// (`etherparse_net`).
#[verifier::external_body]
pub(crate) fn frame_net(decoded: &DecodedFrame) -> (r: NetKind)
    ensures
        r == etherparse_net(decoded@),
{
    match &decoded.headers.net {
        None => NetKind::Missing,
        Some(NetHeaders::Ipv4(ip, _)) => NetKind::Ipv4 {
            header_checksum: ip.header_checksum,
            time_to_live: ip.time_to_live,
            protocol: ip.protocol.0,
        },
        Some(_) => NetKind::Other,
    }
}

/// `Ipv4Header::calc_header_checksum` of the decoded IPv4 header. Claimed:
/// a function of the frame (`etherparse_ipv4_checksum`), present exactly
/// where the network header is IPv4.
#[verifier::external_body]
pub(crate) fn frame_ipv4_checksum(decoded: &DecodedFrame) -> (r: Option<u16>)
    ensures
        r == etherparse_ipv4_checksum(decoded@),
        r is Some <==> etherparse_net(decoded@) is Ipv4,
{
    match &decoded.headers.net {
        Some(NetHeaders::Ipv4(ip, _)) => Some(ip.calc_header_checksum()),
        _ => None,
    }
}

/// The decoded `transport` header by kind, with the TCP `checksum` and
/// `rst` fields, the UDP `checksum`, `source_port` and `destination_port`
/// fields, and the ICMPv4 type where it is destination unreachable or time
/// exceeded. Claimed: a function of the frame (`etherparse_transport`).
#[verifier::external_body]
pub(crate) fn frame_transport(decoded: &DecodedFrame) -> (r: TransportKind)
    ensures
        r == etherparse_transport(decoded@),
{
    match &decoded.headers.transport {
        Some(TransportHeader::Tcp(t)) => TransportKind::Tcp { checksum: t.checksum, rst: t.rst },
        Some(TransportHeader::Udp(u)) => TransportKind::Udp {
            checksum: u.checksum, source_port: u.source_port, destination_port: u.destination_port,
        },
        Some(TransportHeader::Icmpv4(h)) => match h.icmp_type {
            Icmpv4Type::DestinationUnreachable(_) => TransportKind::Icmpv4DestinationUnreachable,
            Icmpv4Type::TimeExceeded(_) => TransportKind::Icmpv4TimeExceeded,
            _ => TransportKind::Other,
        },
        _ => TransportKind::Other,
    }
}

/// The variant of the decoded ICMPv4 `DestUnreachableHeader`, one for one.
/// Claimed: a function of the frame (`etherparse_dest_unreachable`),
/// present exactly where the transport header is a destination unreachable
/// message.
#[verifier::external_body]
pub(crate) fn frame_dest_unreachable(decoded: &DecodedFrame) -> (r: Option<DestUnreachableReason>)
    ensures
        r == etherparse_dest_unreachable(decoded@),
        r is Some <==> etherparse_transport(decoded@) is Icmpv4DestinationUnreachable,
{
    let Some(TransportHeader::Icmpv4(h)) = &decoded.headers.transport else { return None };
    let Icmpv4Type::DestinationUnreachable(du) = &h.icmp_type else { return None };
    Some(match du {
        H::Network => R::Network, H::Host => R::Host, H::Protocol => R::Protocol, H::Port => R::Port,
        H::FragmentationNeeded { .. } => R::FragmentationNeeded, H::SourceRouteFailed => R::SourceRouteFailed,
        H::NetworkUnknown => R::NetworkUnknown, H::HostUnknown => R::HostUnknown, H::Isolated => R::Isolated,
        H::NetworkProhibited => R::NetworkProhibited, H::HostProhibited => R::HostProhibited,
        H::TosNetwork => R::TosNetwork, H::TosHost => R::TosHost, H::FilterProhibited => R::FilterProhibited,
        H::HostPrecedenceViolation => R::HostPrecedenceViolation, H::PrecedenceCutoff => R::PrecedenceCutoff,
    })
}

/// `TcpHeader::calc_checksum_ipv4` of the decoded TCP header over the
/// decoded IPv4 header and payload; `None` where the frame does not hold
/// both headers or etherparse reports the payload too long. Claimed: a
/// function of the frame (`etherparse_tcp_checksum`).
#[verifier::external_body]
pub(crate) fn frame_tcp_checksum(decoded: &DecodedFrame) -> (r: Option<u16>)
    ensures
        r == etherparse_tcp_checksum(decoded@),
{
    match (&decoded.headers.net, &decoded.headers.transport) {
        (Some(NetHeaders::Ipv4(ip, _)), Some(TransportHeader::Tcp(tcp))) =>
            tcp.calc_checksum_ipv4(ip, decoded.headers.payload.slice()).ok(),
        _ => None,
    }
}

/// `UdpHeader::calc_checksum_ipv4` of the decoded UDP header over the
/// decoded IPv4 header and payload; `None` where the frame does not hold
/// both headers or etherparse reports the payload too long. Claimed: a
/// function of the frame (`etherparse_udp_checksum`).
#[verifier::external_body]
pub(crate) fn frame_udp_checksum(decoded: &DecodedFrame) -> (r: Option<u16>)
    ensures
        r == etherparse_udp_checksum(decoded@),
{
    match (&decoded.headers.net, &decoded.headers.transport) {
        (Some(NetHeaders::Ipv4(ip, _)), Some(TransportHeader::Udp(udp))) =>
            udp.calc_checksum_ipv4(ip, decoded.headers.payload.slice()).ok(),
        _ => None,
    }
}

/// `PayloadSlice::slice` of the decoded headers: the payload of the last
/// layer decoded. Claimed: a function of the frame (`etherparse_payload`).
#[verifier::external_body]
pub(crate) fn frame_payload<'a>(decoded: &DecodedFrame<'a>) -> (r: &'a [u8])
    ensures
        r@ == etherparse_payload(decoded@),
{
    decoded.headers.payload.slice()
}

/// The fields of an IPv4 header built with `Ipv4Header::new`: no options,
/// "don't fragment" set, and zero DSCP, ECN, identification and fragment
/// offset; plus the header checksum written into it.
#[derive(Debug, Clone, Copy)]
pub struct Ipv4Fields {
    pub payload_len: u16,
    pub time_to_live: u8,
    pub protocol: u8,
    pub source: [u8; 4],
    pub destination: [u8; 4],
    pub header_checksum: u16,
}

/// The fields of a TCP header built with `TcpHeader::new`: no options,
/// acknowledgment number and urgent pointer zero, and only the ACK and RST
/// flags possibly set.
#[derive(Debug, Clone, Copy)]
pub struct TcpFields {
    pub source_port: u16,
    pub destination_port: u16,
    pub sequence_number: u32,
    pub window_size: u16,
    pub ack: bool,
    pub rst: bool,
    pub checksum: u16,
}

/// The fields of a UDP header.
#[derive(Debug, Clone, Copy)]
pub struct UdpFields {
    pub source_port: u16,
    pub destination_port: u16,
    pub length: u16,
    pub checksum: u16,
}

/// `Ipv4Header::calc_header_checksum` of the header `Ipv4Header::new`
/// builds from these values.
pub uninterp spec fn etherparse_ipv4_header_checksum(
    payload_len: u16,
    time_to_live: u8,
    protocol: u8,
    source: Seq<u8>,
    destination: Seq<u8>,
) -> u16;

/// `TcpHeader::calc_checksum_ipv4_raw` of the header `TcpHeader::new` builds
/// with these values and flags, between these addresses, over `payload`.
pub uninterp spec fn etherparse_tcp_ipv4_checksum(
    source_port: u16,
    destination_port: u16,
    sequence_number: u32,
    window_size: u16,
    ack: bool,
    rst: bool,
    source: Seq<u8>,
    destination: Seq<u8>,
    payload: Seq<u8>,
) -> u16;

/// The checksum `UdpHeader::with_ipv4_checksum` computes for these ports,
/// between these addresses, over `payload`.
pub uninterp spec fn etherparse_udp_ipv4_checksum(
    source_port: u16,
    destination_port: u16,
    source: Seq<u8>,
    destination: Seq<u8>,
    payload: Seq<u8>,
) -> u16;

/// `Icmpv4Type::calc_checksum` of the message's type over `payload`.
pub uninterp spec fn etherparse_icmpv4_checksum(message: IcmpMessage, payload: Seq<u8>) -> u16;

/// The IPv4 header `Ipv4Header::to_bytes` writes for a header built with
/// `Ipv4Header::new` and given `header_checksum`: version 4 with a 5-word
/// header, zero DSCP/ECN, the total length, identification 0, "don't
/// fragment" with fragment offset 0, TTL, protocol, checksum, addresses.
pub open spec fn ipv4_header_bytes(
    payload_len: u16,
    time_to_live: u8,
    protocol: u8,
    header_checksum: u16,
    source: Seq<u8>,
    destination: Seq<u8>,
) -> Seq<u8> {
    seq![0x45u8, 0x00] + be16_bytes((payload_len + 20) as u16) + seq![
        0x00u8,
        0x00,
        0x40,
        0x00,
        time_to_live,
        protocol,
    ] + be16_bytes(header_checksum) + source + destination
}

/// The flags byte of a TCP header with only ACK (16) and RST (4) possibly set.
pub open spec fn tcp_flags_byte(ack: bool, rst: bool) -> u8 {
    (if ack { 0x10u8 } else { 0u8 }) | (if rst { 0x04u8 } else { 0u8 })
}

/// The TCP header `TcpHeader::to_bytes` writes for a header built with
/// `TcpHeader::new`: ports, sequence number, acknowledgment number 0, data
/// offset 5, flags, window, checksum, urgent pointer 0.
pub open spec fn tcp_header_bytes(
    source_port: u16,
    destination_port: u16,
    sequence_number: u32,
    window_size: u16,
    ack: bool,
    rst: bool,
    checksum: u16,
) -> Seq<u8> {
    be16_bytes(source_port) + be16_bytes(destination_port) + be32_bytes(sequence_number)
        + be32_bytes(0) + seq![0x50u8, tcp_flags_byte(ack, rst)] + be16_bytes(window_size)
        + be16_bytes(checksum) + seq![0u8, 0]
}

/// The UDP header `UdpHeader::to_bytes` writes: ports, length, checksum.
pub open spec fn udp_header_bytes(source_port: u16, destination_port: u16, length: u16, checksum: u16) -> Seq<u8> {
    be16_bytes(source_port) + be16_bytes(destination_port) + be16_bytes(length) + be16_bytes(checksum)
}

/// The ICMP type of a message: 3 (destination unreachable) or 11 (time exceeded).
pub open spec fn icmp_type_of(message: IcmpMessage) -> u8 {
    match message {
        IcmpMessage::PortUnreachable => 3,
        IcmpMessage::TtlExceededInTransit => 11,
    }
}

/// The ICMP code of a message: 3 (port unreachable) or 0 (TTL exceeded in transit).
pub open spec fn icmp_code_of(message: IcmpMessage) -> u8 {
    match message {
        IcmpMessage::PortUnreachable => 3,
        IcmpMessage::TtlExceededInTransit => 0,
    }
}

/// The ICMPv4 header `Icmpv4Header::to_bytes` writes for the message: type,
/// code, checksum, then four zero bytes.
pub open spec fn icmp_header_bytes(message: IcmpMessage, checksum: u16) -> Seq<u8> {
    seq![icmp_type_of(message), icmp_code_of(message)] + be16_bytes(checksum) + seq![0u8, 0, 0, 0]
}

/// `Ethernet2Header::to_bytes` of the header with these fields: the
/// destination, the source, then the EtherType most significant byte first.
#[verifier::external_body]
pub(crate) fn ethernet2_to_bytes(source: [u8; 6], destination: [u8; 6], ether_type: u16) -> (r: [u8; 14])
    ensures
        r@ == ethernet2_bytes(source@, destination@, ether_type),
{
    Ethernet2Header { source, destination, ether_type: EtherType(ether_type) }.to_bytes()
}

/// `Ipv4Header::new` with these fields, refusing a payload length above
/// 65515, then `Ipv4Header::calc_header_checksum`. Claimed: the refusal, and
/// that the checksum is a function of the fields (the checksum field itself
/// is not summed).
#[verifier::external_body]
pub(crate) fn ipv4_calc_header_checksum(ip: &Ipv4Fields) -> (r: Option<u16>)
    ensures
        r is Some <==> ip.payload_len <= 65515,
        r matches Some(c) ==> c == etherparse_ipv4_header_checksum(
            ip.payload_len,
            ip.time_to_live,
            ip.protocol,
            ip.source@,
            ip.destination@,
        ),
{
    let header = Ipv4Header::new(ip.payload_len, ip.time_to_live, IpNumber(ip.protocol), ip.source, ip.destination).ok()?;
    Some(header.calc_header_checksum())
}

/// `Ipv4Header::new` with these fields, refusing a payload length above
/// 65515, the checksum written in, then `Ipv4Header::to_bytes`, whose
/// layout for such a header is [`ipv4_header_bytes`].
#[verifier::external_body]
pub(crate) fn ipv4_to_bytes(ip: &Ipv4Fields) -> (r: Option<Vec<u8>>)
    ensures
        r is Some <==> ip.payload_len <= 65515,
        r matches Some(b) ==> b@ == ipv4_header_bytes(
            ip.payload_len,
            ip.time_to_live,
            ip.protocol,
            ip.header_checksum,
            ip.source@,
            ip.destination@,
        ),
{
    let mut header = Ipv4Header::new(ip.payload_len, ip.time_to_live, IpNumber(ip.protocol), ip.source, ip.destination).ok()?;
    header.header_checksum = ip.header_checksum;
    Some(header.to_bytes().to_vec())
}

/// `TcpHeader::header_len` of a header built with `TcpHeader::new`, which
/// has no options: 20.
#[verifier::external_body]
pub(crate) fn tcp_header_len(tcp: &TcpFields) -> (r: usize)
    ensures
        r == 20,
{
    TcpHeader::new(tcp.source_port, tcp.destination_port, tcp.sequence_number, tcp.window_size).header_len()
}

/// `TcpHeader::calc_checksum_ipv4_raw` (what `calc_checksum_ipv4` computes
/// with the IPv4 header's addresses) of the header built with these fields;
/// it refuses a payload longer than 65515 bytes (65535 less the 20-byte
/// header). Claimed: the refusal, and that the checksum is a function of
/// the fields other than the checksum, the addresses and the payload.
#[verifier::external_body]
pub(crate) fn tcp_calc_checksum_ipv4(tcp: &TcpFields, ip: &Ipv4Fields, payload: &[u8]) -> (r: Option<u16>)
    ensures
        r is Some <==> payload@.len() <= 65515,
        r matches Some(c) ==> c == etherparse_tcp_ipv4_checksum(
            tcp.source_port,
            tcp.destination_port,
            tcp.sequence_number,
            tcp.window_size,
            tcp.ack,
            tcp.rst,
            ip.source@,
            ip.destination@,
            payload@,
        ),
{
    let mut header = TcpHeader::new(tcp.source_port, tcp.destination_port, tcp.sequence_number, tcp.window_size);
    header.ack = tcp.ack;
    header.rst = tcp.rst;
    header.calc_checksum_ipv4_raw(ip.source, ip.destination, payload).ok()
}

/// `TcpHeader::to_bytes` of the header built with these fields, whose
/// layout is [`tcp_header_bytes`].
#[verifier::external_body]
pub(crate) fn tcp_to_bytes(tcp: &TcpFields) -> (r: Vec<u8>)
    ensures
        r@ == tcp_header_bytes(
            tcp.source_port,
            tcp.destination_port,
            tcp.sequence_number,
            tcp.window_size,
            tcp.ack,
            tcp.rst,
            tcp.checksum,
        ),
{
    let mut header = TcpHeader::new(tcp.source_port, tcp.destination_port, tcp.sequence_number, tcp.window_size);
    header.ack = tcp.ack;
    header.rst = tcp.rst;
    header.checksum = tcp.checksum;
    header.to_bytes().to_vec()
}

/// The UDP header `UdpHeader::with_ipv4_checksum` builds: the given ports,
/// length 8 plus the payload's, and the checksum it computes.
pub open spec fn udp_header_for(
    source_port: u16,
    destination_port: u16,
    source: Seq<u8>,
    destination: Seq<u8>,
    payload: Seq<u8>,
) -> UdpFields {
    UdpFields {
        source_port,
        destination_port,
        length: (payload.len() + 8) as u16,
        checksum: etherparse_udp_ipv4_checksum(source_port, destination_port, source, destination, payload),
    }
}

/// `UdpHeader::with_ipv4_checksum` over the IPv4 header `Ipv4Header::new`
/// builds from `ip`. It refuses where `Ipv4Header::new` does or the payload
/// is longer than 65527 bytes; otherwise the header has the given ports,
/// length 8 plus the payload's, and a checksum that is a function of the
/// ports, addresses and payload and never 0 (a zero sum is sent as 0xFFFF).
#[verifier::external_body]
pub(crate) fn udp_with_ipv4_checksum(source_port: u16, destination_port: u16, ip: &Ipv4Fields, payload: &[u8]) -> (r: Option<UdpFields>)
    ensures
        r is Some <==> (ip.payload_len <= 65515 && payload@.len() <= 65527),
        r matches Some(h) ==> h == udp_header_for(source_port, destination_port, ip.source@, ip.destination@, payload@),
        r matches Some(h) ==> h.checksum == etherparse_udp_ipv4_checksum(
            source_port,
            destination_port,
            ip.source@,
            ip.destination@,
            payload@,
        ),
        r matches Some(h) ==> h.checksum != 0,
{
    let header = Ipv4Header::new(ip.payload_len, ip.time_to_live, IpNumber(ip.protocol), ip.source, ip.destination).ok()?;
    let udp = UdpHeader::with_ipv4_checksum(source_port, destination_port, &header, payload).ok()?;
    Some(UdpFields { source_port: udp.source_port, destination_port: udp.destination_port, length: udp.length, checksum: udp.checksum })
}

/// `UdpHeader::to_bytes`, whose layout is [`udp_header_bytes`].
#[verifier::external_body]
pub(crate) fn udp_to_bytes(udp: &UdpFields) -> (r: [u8; 8])
    ensures
        r@ == udp_header_bytes(udp.source_port, udp.destination_port, udp.length, udp.checksum),
{
    UdpHeader { source_port: udp.source_port, destination_port: udp.destination_port, length: udp.length, checksum: udp.checksum }.to_bytes()
}

/// `Icmpv4Type::calc_checksum` of the message's type over `payload`.
/// Claimed: a function of the message and payload.
#[verifier::external_body]
pub(crate) fn icmpv4_calc_checksum(message: IcmpMessage, payload: &[u8]) -> (r: u16)
    ensures
        r == etherparse_icmpv4_checksum(message, payload@),
{
    let icmp_type = match message {
        IcmpMessage::PortUnreachable => Icmpv4Type::DestinationUnreachable(DestUnreachableHeader::Port),
        IcmpMessage::TtlExceededInTransit => Icmpv4Type::TimeExceeded(TimeExceededCode::TtlExceededInTransit),
    };
    icmp_type.calc_checksum(payload)
}

/// `Icmpv4Header::new` with the message's type, the checksum written in,
/// then `Icmpv4Header::to_bytes`, whose layout for these two messages is
/// [`icmp_header_bytes`].
#[verifier::external_body]
pub(crate) fn icmpv4_to_bytes(message: IcmpMessage, checksum: u16) -> (r: Vec<u8>)
    ensures
        r@ == icmp_header_bytes(message, checksum),
{
    let mut header = Icmpv4Header::new(match message {
        IcmpMessage::PortUnreachable => Icmpv4Type::DestinationUnreachable(DestUnreachableHeader::Port),
        IcmpMessage::TtlExceededInTransit => Icmpv4Type::TimeExceeded(TimeExceededCode::TtlExceededInTransit),
    });
    header.checksum = checksum;
    header.to_bytes().to_vec()
}

} // verus!
