//! Bottom-up (L2 -> L3 -> L4) packet diagnosis.
//!
//! [`diagnose`] decodes a raw Ethernet frame and inspects each layer in turn,
//! stopping and reporting the first failure it can attribute to a layer. This
//! mirrors how a human troubleshoots "from the wire upward": you can't reason
//! about a TCP reset until you know the IP header even parsed and the
//! checksum was valid.
//!
//! The decoding itself is etherparse's; what the diagnosis reads of it is
//! gathered into [`NetSummary`] and [`TransportSummary`], and
//! [`diagnose_summary`] decides from those alone.

use vstd::prelude::*;
use crate::bytes::{be16_at, be32_at, be64_at, read_u16_be, read_u32_be, read_u64_be};
use crate::certificate::{certificate_subject, x509_subject};
use crate::wire::{
    decode_ethernet, ethernet_decode_error, etherparse_dest_unreachable, etherparse_ipv4_checksum,
    etherparse_link_ether_type, etherparse_net, etherparse_payload, etherparse_tcp_checksum,
    etherparse_transport, etherparse_udp_checksum, frame_dest_unreachable, frame_ipv4_checksum,
    frame_link_ether_type, frame_net, frame_payload, frame_tcp_checksum, frame_transport,
    frame_udp_checksum, DecodedFrame, NetKind, TransportKind,
};

verus! {

/// UDP port used for the initial (non-NAT-traversal) IKE exchange.
pub const IKE_PORT: u16 = 500;

/// UDP port used for IKE once NAT-T encapsulation is negotiated.
pub const IKE_NAT_PORT: u16 = 4500;

/// Fixed-size IKEv2 header (RFC 7296 section 3.1): two 8-byte SPIs plus
/// next-payload/version/exchange-type/flags/message-id/length fields.
pub const IKE_HEADER_LEN: usize = 28;

/// IKEv2 payload type identifying a Certificate payload (RFC 7296 section 3.6).
pub const IKE_CERT_PAYLOAD_TYPE: u8 = 37;

/// IKEv2 "no next payload" marker that ends a payload chain.
pub const IKE_NO_NEXT_PAYLOAD: u8 = 0;

/// IP protocol number of IPsec ESP (RFC 4303).
pub const IP_PROTOCOL_ESP: u8 = 50;

/// Length of the clear-text ESP header: SPI and sequence number.
pub const ESP_HEADER_LEN: usize = 8;

/// What a frame was found to be, attributed to the lowest layer at fault.
#[derive(Debug, Clone, PartialEq, Eq)]
pub enum Diagnosis {
    /// Every layer decoded cleanly and no anomaly was found.
    Healthy,
    /// The Ethernet frame itself could not be parsed.
    Layer2Malformed(String),
    /// The frame parsed, but the EtherType isn't one we understand (not IP/ARP).
    Layer2UnknownEtherType(u16),
    /// The IPv4 header checksum does not match the header contents.
    Layer3ChecksumInvalid,
    /// The IPv4 TTL reached zero: this packet should have been dropped en route.
    Layer3TtlExpired,
    /// An ICMP "time exceeded" message was received (a router dropped the
    /// original packet because its TTL hit zero in transit).
    Layer3TimeExceededEnRoute,
    /// An IPsec ESP packet (its payload is encrypted, so only the SPI/sequence
    /// number, which are transmitted in the clear, can be reported).
    Layer3EspTraffic { spi: u32, sequence: u32 },
    /// An ESP packet was too short to contain a valid SPI/sequence number.
    Layer3EspMalformed,
    /// The TCP or UDP checksum does not match the segment contents.
    Layer4ChecksumInvalid,
    /// The TCP RST flag was set: the remote end refused/reset the connection.
    Layer4ConnectionReset,
    /// An ICMP "destination unreachable" message was received.
    Layer4DestinationUnreachable { icmp_code: u8 },
    /// An IKEv2 handshake message was recognized on the IKE/NAT-T ports.
    Layer4IkeHandshake { exchange_type: IkeExchangeType, initiator_spi: u64, responder_spi: u64 },
    /// An IKE packet was too short to contain a valid header.
    Layer4IkeMalformed,
    /// An IKE Certificate payload carried a parseable X.509 certificate; this
    /// is the PKI-backed peer identity used to authenticate the IKE_AUTH exchange.
    Layer4IkeCertificateIdentity { subject: String },
}

/// The IKEv2 exchange a message belongs to (RFC 7296 section 3.1).
#[derive(Debug, Clone, Copy, PartialEq, Eq, Structural)]
pub enum IkeExchangeType {
    SaInit,
    Auth,
    CreateChildSa,
    Informational,
    Unknown(u8),
}

/// A [`Diagnosis`] with its texts taken as character sequences.
pub enum DiagnosisModel {
    Healthy,
    Layer2Malformed(Seq<char>),
    Layer2UnknownEtherType(u16),
    Layer3ChecksumInvalid,
    Layer3TtlExpired,
    Layer3TimeExceededEnRoute,
    Layer3EspTraffic { spi: u32, sequence: u32 },
    Layer3EspMalformed,
    Layer4ChecksumInvalid,
    Layer4ConnectionReset,
    Layer4DestinationUnreachable { icmp_code: u8 },
    Layer4IkeHandshake { exchange_type: IkeExchangeType, initiator_spi: u64, responder_spi: u64 },
    Layer4IkeMalformed,
    Layer4IkeCertificateIdentity { subject: Seq<char> },
}

impl View for Diagnosis {
    type V = DiagnosisModel;

    open spec fn view(&self) -> DiagnosisModel {
        match self {
            Diagnosis::Healthy => DiagnosisModel::Healthy,
            Diagnosis::Layer2Malformed(m) => DiagnosisModel::Layer2Malformed(m@),
            Diagnosis::Layer2UnknownEtherType(t) => DiagnosisModel::Layer2UnknownEtherType(*t),
            Diagnosis::Layer3ChecksumInvalid => DiagnosisModel::Layer3ChecksumInvalid,
            Diagnosis::Layer3TtlExpired => DiagnosisModel::Layer3TtlExpired,
            Diagnosis::Layer3TimeExceededEnRoute => DiagnosisModel::Layer3TimeExceededEnRoute,
            Diagnosis::Layer3EspTraffic { spi, sequence } => DiagnosisModel::Layer3EspTraffic {
                spi: *spi,
                sequence: *sequence,
            },
            Diagnosis::Layer3EspMalformed => DiagnosisModel::Layer3EspMalformed,
            Diagnosis::Layer4ChecksumInvalid => DiagnosisModel::Layer4ChecksumInvalid,
            Diagnosis::Layer4ConnectionReset => DiagnosisModel::Layer4ConnectionReset,
            Diagnosis::Layer4DestinationUnreachable { icmp_code } =>
                DiagnosisModel::Layer4DestinationUnreachable { icmp_code: *icmp_code },
            Diagnosis::Layer4IkeHandshake { exchange_type, initiator_spi, responder_spi } =>
                DiagnosisModel::Layer4IkeHandshake {
                exchange_type: *exchange_type,
                initiator_spi: *initiator_spi,
                responder_spi: *responder_spi,
            },
            Diagnosis::Layer4IkeMalformed => DiagnosisModel::Layer4IkeMalformed,
            Diagnosis::Layer4IkeCertificateIdentity { subject } =>
                DiagnosisModel::Layer4IkeCertificateIdentity { subject: subject@ },
        }
    }
}

/// The reason an ICMPv4 "destination unreachable" message gives (RFC 792,
/// RFC 1122 and RFC 1812), one variant per code.
#[derive(Debug, Clone, Copy, PartialEq, Eq, Structural)]
pub enum DestUnreachableReason {
    Network,
    Host,
    Protocol,
    Port,
    FragmentationNeeded,
    SourceRouteFailed,
    NetworkUnknown,
    HostUnknown,
    Isolated,
    NetworkProhibited,
    HostProhibited,
    TosNetwork,
    TosHost,
    FilterProhibited,
    HostPrecedenceViolation,
    PrecedenceCutoff,
}

/// The ICMP code that carries `reason`.
pub open spec fn reason_code(reason: DestUnreachableReason) -> u8 {
    match reason {
        DestUnreachableReason::Network => 0,
        DestUnreachableReason::Host => 1,
        DestUnreachableReason::Protocol => 2,
        DestUnreachableReason::Port => 3,
        DestUnreachableReason::FragmentationNeeded => 4,
        DestUnreachableReason::SourceRouteFailed => 5,
        DestUnreachableReason::NetworkUnknown => 6,
        DestUnreachableReason::HostUnknown => 7,
        DestUnreachableReason::Isolated => 8,
        DestUnreachableReason::NetworkProhibited => 9,
        DestUnreachableReason::HostProhibited => 10,
        DestUnreachableReason::TosNetwork => 11,
        DestUnreachableReason::TosHost => 12,
        DestUnreachableReason::FilterProhibited => 13,
        DestUnreachableReason::HostPrecedenceViolation => 14,
        DestUnreachableReason::PrecedenceCutoff => 15,
    }
}

/// What the diagnosis reads of a decoded IPv4 header.
#[derive(Debug, Clone, Copy)]
pub struct Ipv4Summary {
    /// The checksum field as transmitted.
    pub header_checksum: u16,
    /// The checksum computed over the header's contents.
    pub computed_header_checksum: u16,
    pub time_to_live: u8,
    pub protocol: u8,
}

/// What the diagnosis reads of a frame's network layer.
#[derive(Debug, Clone, Copy)]
pub enum NetSummary {
    /// No network header was decoded; the Ethernet II EtherType, where the
    /// frame had an Ethernet II header.
    Missing { ether_type: Option<u16> },
    /// An IPv4 header.
    Ipv4(Ipv4Summary),
    /// Any other network header (IPv6, ARP).
    Other,
}

/// What the diagnosis reads of a frame's transport layer. A computed
/// checksum is `None` where the payload was too long to compute one.
#[derive(Debug, Clone, Copy)]
pub enum TransportSummary {
    Tcp { checksum: u16, computed_checksum: Option<u16>, rst: bool },
    Udp {
        checksum: u16,
        computed_checksum: Option<u16>,
        source_port: u16,
        destination_port: u16,
    },
    Icmpv4DestinationUnreachable(DestUnreachableReason),
    Icmpv4TimeExceeded,
    /// Another ICMPv4 message, another transport header, or none.
    Other,
}

/// The exchange type that the exchange-type byte of an IKEv2 header names.
pub open spec fn ike_exchange_type_of(byte: u8) -> IkeExchangeType {
    if byte == 34 {
        IkeExchangeType::SaInit
    } else if byte == 35 {
        IkeExchangeType::Auth
    } else if byte == 36 {
        IkeExchangeType::CreateChildSa
    } else if byte == 37 {
        IkeExchangeType::Informational
    } else {
        IkeExchangeType::Unknown(byte)
    }
}

/// The diagnosis of an ESP payload: its SPI and sequence number, read big-endian.
pub open spec fn esp_diagnosis(payload: Seq<u8>) -> DiagnosisModel {
    if payload.len() < ESP_HEADER_LEN {
        DiagnosisModel::Layer3EspMalformed
    } else {
        DiagnosisModel::Layer3EspTraffic {
            spi: be32_at(payload, 0) as u32,
            sequence: be32_at(payload, 4) as u32,
        }
    }
}

/// The bytes of the first Certificate payload in the IKEv2 payload chain
/// `chain`, whose first payload has type `current_type`, without its
/// one-byte encoding field. The walk stops at the "no next payload" marker,
/// at a header shorter than four bytes, at a length below four or past the
/// end, and skips a Certificate payload with an empty body.
pub open spec fn find_certificate(chain: Seq<u8>, current_type: u8) -> Option<Seq<u8>>
    decreases chain.len(),
{
    if current_type == IKE_NO_NEXT_PAYLOAD || chain.len() < 4 {
        None
    } else {
        let length = be16_at(chain, 2);
        if length < 4 || length > chain.len() {
            None
        } else if current_type == IKE_CERT_PAYLOAD_TYPE && length > 4 {
            Some(chain.subrange(5, length))
        } else {
            find_certificate(chain.skip(length), chain[0])
        }
    }
}

/// The diagnosis of a UDP payload on an IKE port.
pub open spec fn ike_diagnosis(payload: Seq<u8>) -> DiagnosisModel {
    if payload.len() < IKE_HEADER_LEN {
        DiagnosisModel::Layer4IkeMalformed
    } else {
        match find_certificate(payload.skip(IKE_HEADER_LEN as int), payload[16]) {
            Some(der) => match x509_subject(der) {
                Some(subject) => DiagnosisModel::Layer4IkeCertificateIdentity { subject },
                None => DiagnosisModel::Layer4IkeMalformed,
            },
            None => DiagnosisModel::Layer4IkeHandshake {
                exchange_type: ike_exchange_type_of(payload[18]),
                initiator_spi: be64_at(payload, 0) as u64,
                responder_spi: be64_at(payload, 8) as u64,
            },
        }
    }
}

/// Whether a checksum could be computed and differs from the transmitted one.
pub open spec fn checksum_mismatch(transmitted: u16, computed: Option<u16>) -> bool {
    match computed {
        Some(c) => c != transmitted,
        None => false,
    }
}

/// Whether either port of a UDP datagram is an IKE port.
pub open spec fn on_ike_port(source_port: u16, destination_port: u16) -> bool {
    source_port == IKE_PORT || destination_port == IKE_PORT || source_port == IKE_NAT_PORT
        || destination_port == IKE_NAT_PORT
}

/// The diagnosis of a decoded frame: the first layer found at fault, from
/// the bottom up. `payload` is the payload of the last layer decoded.
pub open spec fn classify(net: NetSummary, transport: TransportSummary, payload: Seq<u8>) -> DiagnosisModel {
    match net {
        NetSummary::Missing { ether_type } => DiagnosisModel::Layer2UnknownEtherType(
            match ether_type {
                Some(t) => t,
                None => 0,
            },
        ),
        NetSummary::Other => DiagnosisModel::Healthy,
        NetSummary::Ipv4(ip) => {
            if ip.header_checksum != ip.computed_header_checksum {
                DiagnosisModel::Layer3ChecksumInvalid
            } else if ip.time_to_live == 0 {
                DiagnosisModel::Layer3TtlExpired
            } else if ip.protocol == IP_PROTOCOL_ESP {
                esp_diagnosis(payload)
            } else {
                match transport {
                    TransportSummary::Tcp { checksum, computed_checksum, rst } => {
                        if checksum_mismatch(checksum, computed_checksum) {
                            DiagnosisModel::Layer4ChecksumInvalid
                        } else if rst {
                            DiagnosisModel::Layer4ConnectionReset
                        } else {
                            DiagnosisModel::Healthy
                        }
                    },
                    TransportSummary::Udp {
                        checksum,
                        computed_checksum,
                        source_port,
                        destination_port,
                    } => {
                        if checksum != 0 && checksum_mismatch(checksum, computed_checksum) {
                            DiagnosisModel::Layer4ChecksumInvalid
                        } else if on_ike_port(source_port, destination_port) {
                            ike_diagnosis(payload)
                        } else {
                            DiagnosisModel::Healthy
                        }
                    },
                    TransportSummary::Icmpv4DestinationUnreachable(reason) =>
                        DiagnosisModel::Layer4DestinationUnreachable {
                        icmp_code: reason_code(reason),
                    },
                    TransportSummary::Icmpv4TimeExceeded => DiagnosisModel::Layer3TimeExceededEnRoute,
                    TransportSummary::Other => DiagnosisModel::Healthy,
                }
            }
        },
    }
}

/// Layer 3 comes first: an IPv4 header whose checksum does not match its
/// contents is reported as such whatever the transport header and payload,
/// and so is an expired TTL under a valid checksum.
pub proof fn lemma_layer3_faults_come_first(ip: Ipv4Summary, transport: TransportSummary, payload: Seq<u8>)
    ensures
        ip.header_checksum != ip.computed_header_checksum ==> classify(NetSummary::Ipv4(ip), transport, payload)
            == DiagnosisModel::Layer3ChecksumInvalid,
        ip.header_checksum == ip.computed_header_checksum && ip.time_to_live == 0 ==> classify(
            NetSummary::Ipv4(ip),
            transport,
            payload,
        ) == DiagnosisModel::Layer3TtlExpired,
{
}

/// Whether a diagnosis is a finding above the IPv4 header: ESP, ICMP, TCP,
/// UDP or IKE.
pub open spec fn is_upper_layer_finding(d: DiagnosisModel) -> bool {
    ||| d is Layer3TimeExceededEnRoute
    ||| d is Layer3EspTraffic
    ||| d is Layer3EspMalformed
    ||| d is Layer4ChecksumInvalid
    ||| d is Layer4ConnectionReset
    ||| d is Layer4DestinationUnreachable
    ||| d is Layer4IkeHandshake
    ||| d is Layer4IkeMalformed
    ||| d is Layer4IkeCertificateIdentity
}

/// From the wire upward: anything found above the IPv4 header is reported
/// only under an IPv4 header whose checksum is valid and whose TTL is live.
pub proof fn lemma_upper_layers_need_a_sound_ipv4_header(
    net: NetSummary,
    transport: TransportSummary,
    payload: Seq<u8>,
)
    requires
        is_upper_layer_finding(classify(net, transport, payload)),
    ensures
        net matches NetSummary::Ipv4(ip) && ip.header_checksum == ip.computed_header_checksum
            && ip.time_to_live != 0,
{
}

/// The number that bytes `s[i..i + n]` spell, most significant first.
pub open spec fn big_endian(s: Seq<u8>, i: int, n: nat) -> int
    decreases n,
{
    if n == 0 {
        0
    } else {
        big_endian(s, i, (n - 1) as nat) * 256 + s[i + n - 1]
    }
}

/// Whether an IPv4 header is sound and not ESP: valid checksum, live TTL.
pub open spec fn sound_non_esp(ip: Ipv4Summary) -> bool {
    ip.header_checksum == ip.computed_header_checksum && ip.time_to_live != 0 && ip.protocol != 50
}

/// An IPv4 packet with a sound header (valid checksum, live TTL, not ESP)
/// whose transport is anything but TCP, UDP or an ICMP destination
/// unreachable or time exceeded message (an echo request, say) is healthy;
/// and a packet is reported as dropped en route only for an ICMP time
/// exceeded message.
pub proof fn lemma_other_traffic_is_healthy(ip: Ipv4Summary, payload: Seq<u8>, net: NetSummary, transport: TransportSummary)
    ensures
        sound_non_esp(ip) ==> classify(NetSummary::Ipv4(ip), TransportSummary::Other, payload)
            == DiagnosisModel::Healthy,
        classify(net, transport, payload) == DiagnosisModel::Layer3TimeExceededEnRoute ==> (
        transport is Icmpv4TimeExceeded),
{
}

/// ESP reports the SPI and sequence number as the full 32-bit big-endian
/// values of the first eight payload bytes, and is malformed exactly when
/// fewer than eight bytes are present.
pub proof fn lemma_esp_reads_spi_and_sequence(payload: Seq<u8>)
    ensures
        payload.len() < 8 <==> esp_diagnosis(payload) == DiagnosisModel::Layer3EspMalformed,
        payload.len() >= 8 ==> esp_diagnosis(payload) == (DiagnosisModel::Layer3EspTraffic {
            spi: big_endian(payload, 0, 4) as u32,
            sequence: big_endian(payload, 4, 4) as u32,
        }),
{
    reveal_with_fuel(big_endian, 5);
}

/// The exchange type that byte `b` of an IKEv2 header names: 34 to 37 are
/// IKE_SA_INIT, IKE_AUTH, CREATE_CHILD_SA and INFORMATIONAL.
pub proof fn lemma_exchange_type_names(b: u8)
    ensures
        b == 34 ==> ike_exchange_type_of(b) == IkeExchangeType::SaInit,
        b == 35 ==> ike_exchange_type_of(b) == IkeExchangeType::Auth,
        b == 36 ==> ike_exchange_type_of(b) == IkeExchangeType::CreateChildSa,
        b == 37 ==> ike_exchange_type_of(b) == IkeExchangeType::Informational,
        !(34 <= b <= 37) ==> ike_exchange_type_of(b) == IkeExchangeType::Unknown(b),
{
}

/// An IKEv2 message of at least a header's length that carries no
/// certificate is a handshake whose SPIs are the full 64-bit big-endian
/// values of bytes 0..8 and 8..16, and whose exchange type is named by
/// byte 18.
pub proof fn lemma_ike_handshake_reads_the_header(payload: Seq<u8>)
    requires
        payload.len() >= 28,
        find_certificate(payload.skip(28), payload[16]) is None,
    ensures
        ike_diagnosis(payload) == (DiagnosisModel::Layer4IkeHandshake {
            exchange_type: ike_exchange_type_of(payload[18]),
            initiator_spi: big_endian(payload, 0, 8) as u64,
            responder_spi: big_endian(payload, 8, 8) as u64,
        }),
{
    reveal_with_fuel(big_endian, 9);
}

/// A connection reset is reported only for a TCP segment with the RST flag
/// under an IPv4 header with a valid checksum and a live TTL, that is not
/// ESP, and whose TCP checksum, where computable, matches.
pub proof fn lemma_reset_needs_sound_lower_layers(net: NetSummary, transport: TransportSummary, payload: Seq<u8>)
    requires
        classify(net, transport, payload) == DiagnosisModel::Layer4ConnectionReset,
    ensures
        net matches NetSummary::Ipv4(ip) && ip.header_checksum == ip.computed_header_checksum
            && ip.time_to_live != 0 && ip.protocol != IP_PROTOCOL_ESP,
        transport matches TransportSummary::Tcp { checksum, computed_checksum, rst } && rst
            && !checksum_mismatch(checksum, computed_checksum),
{
}

/// A UDP checksum of zero means the sender sent none: such a datagram is
/// never reported with an invalid checksum.
pub proof fn lemma_zero_udp_checksum_is_never_invalid(
    net: NetSummary,
    computed_checksum: Option<u16>,
    source_port: u16,
    destination_port: u16,
    payload: Seq<u8>,
)
    ensures
        classify(
            net,
            TransportSummary::Udp { checksum: 0, computed_checksum, source_port, destination_port },
            payload,
        ) != DiagnosisModel::Layer4ChecksumInvalid,
{
}

/// A decoded frame is never reported malformed: only etherparse's refusal
/// makes a frame malformed.
pub proof fn lemma_decoded_frames_are_not_malformed(net: NetSummary, transport: TransportSummary, payload: Seq<u8>)
    ensures
        classify(net, transport, payload) !is Layer2Malformed,
{
}

/// What the diagnosis reads of the network layer etherparse decodes from `frame`.
pub open spec fn decoded_net(frame: Seq<u8>) -> NetSummary {
    match etherparse_net(frame) {
        NetKind::Missing => NetSummary::Missing { ether_type: etherparse_link_ether_type(frame) },
        NetKind::Ipv4 { header_checksum, time_to_live, protocol } => NetSummary::Ipv4(
            Ipv4Summary {
                header_checksum,
                computed_header_checksum: etherparse_ipv4_checksum(frame).unwrap(),
                time_to_live,
                protocol,
            },
        ),
        NetKind::Other => NetSummary::Other,
    }
}

/// What the diagnosis reads of the transport layer etherparse decodes from `frame`.
pub open spec fn decoded_transport(frame: Seq<u8>) -> TransportSummary {
    match etherparse_transport(frame) {
        TransportKind::Tcp { checksum, rst } => TransportSummary::Tcp {
            checksum,
            computed_checksum: etherparse_tcp_checksum(frame),
            rst,
        },
        TransportKind::Udp { checksum, source_port, destination_port } => TransportSummary::Udp {
            checksum,
            computed_checksum: etherparse_udp_checksum(frame),
            source_port,
            destination_port,
        },
        TransportKind::Icmpv4DestinationUnreachable => TransportSummary::Icmpv4DestinationUnreachable(
            etherparse_dest_unreachable(frame).unwrap(),
        ),
        TransportKind::Icmpv4TimeExceeded => TransportSummary::Icmpv4TimeExceeded,
        TransportKind::Other => TransportSummary::Other,
    }
}

/// The diagnosis of a raw Ethernet frame: malformed, with etherparse's
/// message, where etherparse refuses it; otherwise [`classify`] of what
/// etherparse decodes from it.
pub open spec fn frame_diagnosis(frame: Seq<u8>) -> DiagnosisModel {
    match ethernet_decode_error(frame) {
        Some(message) => DiagnosisModel::Layer2Malformed(message),
        None => classify(decoded_net(frame), decoded_transport(frame), etherparse_payload(frame)),
    }
}

/// Decodes a raw Ethernet frame with etherparse and diagnoses it, from the
/// wire upward. A frame shorter than an Ethernet II header is malformed.
pub fn diagnose(frame: &[u8]) -> (d: Diagnosis)
    ensures
        d@ == frame_diagnosis(frame@),
        frame@.len() < 14 ==> d@ is Layer2Malformed,
{
    let decoded = match decode_ethernet(frame) {
        Ok(decoded) => decoded,
        Err(message) => return Diagnosis::Layer2Malformed(message),
    };
    let net = net_summary(&decoded);
    let transport = transport_summary(&decoded);
    let payload = frame_payload(&decoded);
    diagnose_summary(&net, &transport, payload)
}

/// What the diagnosis reads of the decoded network layer.
fn net_summary(decoded: &DecodedFrame) -> (net: NetSummary)
    ensures
        net == decoded_net(decoded@),
{
    match frame_net(decoded) {
        NetKind::Missing => NetSummary::Missing { ether_type: frame_link_ether_type(decoded) },
        NetKind::Ipv4 { header_checksum, time_to_live, protocol } => {
            let computed_header_checksum = frame_ipv4_checksum(decoded).unwrap();
            NetSummary::Ipv4(
                Ipv4Summary { header_checksum, computed_header_checksum, time_to_live, protocol },
            )
        },
        NetKind::Other => NetSummary::Other,
    }
}

/// What the diagnosis reads of the decoded transport layer; checksums are
/// computed over the decoded payload with the IPv4 header's addresses.
fn transport_summary(decoded: &DecodedFrame) -> (transport: TransportSummary)
    ensures
        transport == decoded_transport(decoded@),
{
    match frame_transport(decoded) {
        TransportKind::Tcp { checksum, rst } => TransportSummary::Tcp {
            checksum,
            computed_checksum: frame_tcp_checksum(decoded),
            rst,
        },
        TransportKind::Udp { checksum, source_port, destination_port } => TransportSummary::Udp {
            checksum,
            computed_checksum: frame_udp_checksum(decoded),
            source_port,
            destination_port,
        },
        TransportKind::Icmpv4DestinationUnreachable => {
            let reason = frame_dest_unreachable(decoded).unwrap();
            TransportSummary::Icmpv4DestinationUnreachable(reason)
        },
        TransportKind::Icmpv4TimeExceeded => TransportSummary::Icmpv4TimeExceeded,
        TransportKind::Other => TransportSummary::Other,
    }
}

/// Decides the diagnosis of a decoded frame from what was read of its layers.
pub fn diagnose_summary(net: &NetSummary, transport: &TransportSummary, payload: &[u8]) -> (d:
    Diagnosis)
    ensures
        d@ == classify(*net, *transport, payload@),
{
    match net {
        NetSummary::Missing { ether_type } => {
            let t = match ether_type {
                Some(t) => *t,
                None => 0,
            };
            Diagnosis::Layer2UnknownEtherType(t)
        },
        NetSummary::Other => Diagnosis::Healthy,
        NetSummary::Ipv4(ip) => {
            if ip.header_checksum != ip.computed_header_checksum {
                return Diagnosis::Layer3ChecksumInvalid;
            }
            if ip.time_to_live == 0 {
                return Diagnosis::Layer3TtlExpired;
            }
            if ip.protocol == IP_PROTOCOL_ESP {
                return diagnose_esp(payload);
            }
            match transport {
                TransportSummary::Tcp { checksum, computed_checksum, rst } => {
                    if let Some(expected) = computed_checksum {
                        if *expected != *checksum {
                            return Diagnosis::Layer4ChecksumInvalid;
                        }
                    }
                    if *rst {
                        return Diagnosis::Layer4ConnectionReset;
                    }
                    Diagnosis::Healthy
                },
                TransportSummary::Udp {
                    checksum,
                    computed_checksum,
                    source_port,
                    destination_port,
                } => {
                    if *checksum != 0 {
                        if let Some(expected) = computed_checksum {
                            if *expected != *checksum {
                                return Diagnosis::Layer4ChecksumInvalid;
                            }
                        }
                    }
                    if *source_port == IKE_PORT || *destination_port == IKE_PORT || *source_port
                        == IKE_NAT_PORT || *destination_port == IKE_NAT_PORT {
                        return diagnose_ike(payload);
                    }
                    Diagnosis::Healthy
                },
                TransportSummary::Icmpv4DestinationUnreachable(reason) => {
                    Diagnosis::Layer4DestinationUnreachable { icmp_code: dest_unreachable_code(*reason) }
                },
                TransportSummary::Icmpv4TimeExceeded => Diagnosis::Layer3TimeExceededEnRoute,
                TransportSummary::Other => Diagnosis::Healthy,
            }
        },
    }
}

/// Extracts the SPI and sequence number from an ESP packet's clear-text
/// header (RFC 4303 section 2); the rest of the packet is encrypted and
/// cannot be inspected without the security association's keys.
pub fn diagnose_esp(payload: &[u8]) -> (d: Diagnosis)
    ensures
        d@ == esp_diagnosis(payload@),
{
    if payload.len() < ESP_HEADER_LEN {
        return Diagnosis::Layer3EspMalformed;
    }
    let spi = read_u32_be(payload, 0);
    let sequence = read_u32_be(payload, 4);
    Diagnosis::Layer3EspTraffic { spi, sequence }
}

/// Decodes an IKEv2 header and, if present, extracts the peer identity from
/// an unencrypted Certificate payload. Real deployments wrap payloads after
/// IKE_SA_INIT in an Encrypted (SK) payload, so this only recovers a
/// certificate that appears directly in the payload chain.
pub fn diagnose_ike(payload: &[u8]) -> (d: Diagnosis)
    ensures
        d@ == ike_diagnosis(payload@),
{
    if payload.len() < IKE_HEADER_LEN {
        return Diagnosis::Layer4IkeMalformed;
    }
    let initiator_spi = read_u64_be(payload, 0);
    let responder_spi = read_u64_be(payload, 8);
    let first_payload_type = payload[16];
    let exchange_type = ike_exchange_type(payload[18]);
    let chain = &payload[IKE_HEADER_LEN..payload.len()];
    if let Some(cert_der) = find_ike_certificate(chain, first_payload_type) {
        return match certificate_subject(cert_der) {
            Some(subject) => Diagnosis::Layer4IkeCertificateIdentity { subject },
            None => Diagnosis::Layer4IkeMalformed,
        };
    }
    Diagnosis::Layer4IkeHandshake { exchange_type, initiator_spi, responder_spi }
}

/// Names the exchange type carried in an IKEv2 header.
pub fn ike_exchange_type(byte: u8) -> (t: IkeExchangeType)
    ensures
        t == ike_exchange_type_of(byte),
{
    match byte {
        34 => IkeExchangeType::SaInit,
        35 => IkeExchangeType::Auth,
        36 => IkeExchangeType::CreateChildSa,
        37 => IkeExchangeType::Informational,
        other => IkeExchangeType::Unknown(other),
    }
}

/// The certificate bytes found in a payload chain, taken by value.
pub open spec fn found_model(found: Option<&[u8]>) -> Option<Seq<u8>> {
    match found {
        Some(c) => Some(c@),
        None => None,
    }
}

/// Walks the IKEv2 generic-payload chain (RFC 7296 section 3.2) looking for a
/// Certificate payload, and returns the raw certificate bytes (minus the
/// 1-byte certificate-encoding field) if one is found.
pub fn find_ike_certificate(payload: &[u8], first_type: u8) -> (found: Option<&[u8]>)
    ensures
        found_model(found) == find_certificate(payload@, first_type),
{
    let mut rest = payload;
    let mut current_type = first_type;
    while current_type != IKE_NO_NEXT_PAYLOAD && rest.len() >= 4
        invariant
            find_certificate(rest@, current_type) == find_certificate(payload@, first_type),
        decreases rest@.len(),
    {
        let next_type = rest[0];
        let length = read_u16_be(rest, 2) as usize;
        if length < 4 || length > rest.len() {
            return None;
        }
        let body = &rest[4..length];
        if current_type == IKE_CERT_PAYLOAD_TYPE && body.len() > 0 {
            let cert = &body[1..body.len()];
            assert(cert@ == rest@.subrange(5, length as int));
            return Some(cert);
        }
        rest = &rest[length..rest.len()];
        current_type = next_type;
    }
    None
}

/// The ICMP code of a "destination unreachable" reason.
pub fn dest_unreachable_code(reason: DestUnreachableReason) -> (code: u8)
    ensures
        code == reason_code(reason),
{
    match reason {
        DestUnreachableReason::Network => 0,
        DestUnreachableReason::Host => 1,
        DestUnreachableReason::Protocol => 2,
        DestUnreachableReason::Port => 3,
        DestUnreachableReason::FragmentationNeeded => 4,
        DestUnreachableReason::SourceRouteFailed => 5,
        DestUnreachableReason::NetworkUnknown => 6,
        DestUnreachableReason::HostUnknown => 7,
        DestUnreachableReason::Isolated => 8,
        DestUnreachableReason::NetworkProhibited => 9,
        DestUnreachableReason::HostProhibited => 10,
        DestUnreachableReason::TosNetwork => 11,
        DestUnreachableReason::TosHost => 12,
        DestUnreachableReason::FilterProhibited => 13,
        DestUnreachableReason::HostPrecedenceViolation => 14,
        DestUnreachableReason::PrecedenceCutoff => 15,
    }
}

} // verus!
