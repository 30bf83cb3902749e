//! Synthetic packet fixtures used by tests and scenarios.
//!
//! Each fixture builds a raw Ethernet frame (Ethernet header, then IPv4
//! header, then a transport header/payload) so that both the "healthy" and
//! "broken" variants are fully under our control. Headers are described by
//! the library's own field types and serialized by etherparse; each frame
//! is stated byte for byte, the checksums etherparse computes by name.

use vstd::prelude::*;
use crate::bytes::{be16_at, be32_bytes, be64_bytes, be16_bytes, push_all, push_u16_be, push_u32_be, push_u64_be};
use crate::diagnosis::{IKE_CERT_PAYLOAD_TYPE, IKE_HEADER_LEN, IKE_NO_NEXT_PAYLOAD, IP_PROTOCOL_ESP};
use crate::pcap::{
    all_ok, capture_bytes, header_verdict, lemma_write_then_read, lengths_fit, packet_models,
    records_of, write_pcap_file, PcapError, RecordModel, GLOBAL_HEADER_LEN,
};
use crate::wire::{
    ethernet2_bytes, ethernet2_to_bytes, etherparse_icmpv4_checksum, etherparse_ipv4_header_checksum,
    etherparse_tcp_ipv4_checksum, etherparse_udp_ipv4_checksum, icmp_header_bytes,
    icmpv4_calc_checksum, icmpv4_to_bytes, ipv4_calc_header_checksum, ipv4_header_bytes,
    ipv4_to_bytes, tcp_calc_checksum_ipv4, tcp_header_bytes, tcp_header_len, tcp_to_bytes,
    udp_header_bytes, udp_to_bytes, udp_with_ipv4_checksum, IcmpMessage, Ipv4Fields, TcpFields,
};

verus! {

/// EtherType of IPv4.
pub const ETHER_TYPE_IPV4: u16 = 0x0800;

/// EtherType of Wake-on-LAN, which is neither IP nor ARP.
pub const ETHER_TYPE_WAKE_ON_LAN: u16 = 0x0842;

/// IP protocol number of TCP.
pub const IP_PROTOCOL_TCP: u8 = 6;

/// IP protocol number of UDP.
pub const IP_PROTOCOL_UDP: u8 = 17;

/// IP protocol number of ICMP.
pub const IP_PROTOCOL_ICMP: u8 = 1;

/// IKEv2 exchange type IKE_SA_INIT.
pub const IKE_EXCHANGE_SA_INIT: u8 = 34;

/// IKEv2 exchange type IKE_AUTH.
pub const IKE_EXCHANGE_AUTH: u8 = 35;

/// IKEv2 payload type of a Security Association payload.
pub const IKE_PAYLOAD_SA: u8 = 33;

/// Certificate encoding "X.509 Certificate - Signature" (RFC 7296 section 3.6).
pub const IKE_CERT_ENCODING_X509_SIGNATURE: u8 = 4;

/// The number of scenarios, and of records in the sample capture.
pub const SCENARIO_COUNT: usize = 13;

/// Source MAC address of every fixture.
pub open spec fn src_mac() -> Seq<u8> {
    seq![0x02, 0x00, 0x00, 0x00, 0x00, 0x01]
}

/// Destination MAC address of every fixture.
pub open spec fn dst_mac() -> Seq<u8> {
    seq![0x02, 0x00, 0x00, 0x00, 0x00, 0x02]
}

/// Source IPv4 address of every IPv4 fixture: 10.0.0.1.
pub open spec fn src_ip_address() -> Seq<u8> {
    seq![10, 0, 0, 1]
}

/// Destination IPv4 address of every IPv4 fixture: 10.0.0.2.
pub open spec fn dst_ip_address() -> Seq<u8> {
    seq![10, 0, 0, 2]
}

/// The Ethernet II header in front of every IPv4 fixture.
pub open spec fn ipv4_ethernet_header() -> Seq<u8> {
    ethernet2_bytes(src_mac(), dst_mac(), ETHER_TYPE_IPV4)
}

/// `n` zero bytes.
pub open spec fn zeros(n: nat) -> Seq<u8> {
    Seq::new(n, |i: int| 0u8)
}

/// The TCP payload of the TCP fixtures: "hello".
pub open spec fn tcp_payload() -> Seq<u8> {
    seq![0x68, 0x65, 0x6c, 0x6c, 0x6f]
}

/// The UDP payload of the UDP fixtures: "datagram".
pub open spec fn udp_payload() -> Seq<u8> {
    seq![0x64, 0x61, 0x74, 0x61, 0x67, 0x72, 0x61, 0x6d]
}

/// The valid header checksum of the fixtures' IPv4 header over
/// `payload_len` bytes with this TTL and protocol.
pub open spec fn ipv4_checksum_for(payload_len: u16, ttl: u8, protocol: u8) -> u16 {
    etherparse_ipv4_header_checksum(payload_len, ttl, protocol, src_ip_address(), dst_ip_address())
}

/// The fixtures' IPv4 header (10.0.0.1 to 10.0.0.2) with this checksum field.
pub open spec fn fixture_ipv4_bytes(payload_len: u16, ttl: u8, protocol: u8, checksum: u16) -> Seq<u8> {
    ipv4_header_bytes(payload_len, ttl, protocol, checksum, src_ip_address(), dst_ip_address())
}

/// A frame of an IPv4 packet carrying `transport`, with a valid IPv4 checksum.
pub open spec fn ipv4_frame_bytes(ttl: u8, protocol: u8, transport: Seq<u8>) -> Seq<u8> {
    let payload_len = transport.len() as u16;
    ipv4_ethernet_header() + fixture_ipv4_bytes(payload_len, ttl, protocol, ipv4_checksum_for(payload_len, ttl, protocol))
        + transport
}

/// The valid TCP checksum of the TCP fixtures' segment with these flags.
pub open spec fn tcp_checksum_for(rst: bool) -> u16 {
    etherparse_tcp_ipv4_checksum(51000, 80, 1000, 64240, !rst, rst, src_ip_address(), dst_ip_address(), tcp_payload())
}

/// A TCP fixture: port 51000 to 80, sequence number 1000, window 64240,
/// RST or else ACK, a valid TCP checksum and "hello" as payload, under an
/// IPv4 header with this TTL whose checksum is inverted if asked.
pub open spec fn tcp_frame_bytes(rst: bool, corrupt_ip_checksum: bool, ttl: u8) -> Seq<u8> {
    let valid = ipv4_checksum_for(25, ttl, IP_PROTOCOL_TCP);
    ipv4_ethernet_header() + fixture_ipv4_bytes(
        25,
        ttl,
        IP_PROTOCOL_TCP,
        if corrupt_ip_checksum { valid ^ 0xFFFFu16 } else { valid },
    ) + tcp_header_bytes(51000, 80, 1000, 64240, !rst, rst, tcp_checksum_for(rst)) + tcp_payload()
}

/// The valid UDP checksum of a fixture datagram with these ports and payload.
pub open spec fn udp_checksum_for(source_port: u16, destination_port: u16, payload: Seq<u8>) -> u16 {
    etherparse_udp_ipv4_checksum(source_port, destination_port, src_ip_address(), dst_ip_address(), payload)
}

/// A frame of a UDP datagram with these ports, this checksum field and
/// `payload`, under the fixtures' IPv4 header (TTL 64, valid checksum).
pub open spec fn udp_frame_bytes(source_port: u16, destination_port: u16, checksum: u16, payload: Seq<u8>) -> Seq<u8> {
    ipv4_frame_bytes(
        64,
        IP_PROTOCOL_UDP,
        udp_header_bytes(source_port, destination_port, (payload.len() + 8) as u16, checksum) + payload,
    )
}

/// A UDP fixture: port 53000 to 53, "datagram", and a valid checksum,
/// inverted if asked.
pub open spec fn datagram_frame_bytes(corrupt_checksum: bool) -> Seq<u8> {
    let valid = udp_checksum_for(53000, 53, udp_payload());
    udp_frame_bytes(53000, 53, if corrupt_checksum { valid ^ 0xFFFFu16 } else { valid }, udp_payload())
}

/// An ICMP fixture: the message's header with a valid checksum, then 28
/// zero bytes, under the fixtures' IPv4 header (TTL 64).
pub open spec fn icmp_frame_bytes(message: IcmpMessage) -> Seq<u8> {
    ipv4_frame_bytes(
        64,
        IP_PROTOCOL_ICMP,
        icmp_header_bytes(message, etherparse_icmpv4_checksum(message, zeros(28))) + zeros(28),
    )
}

/// The frame cut short after 6 bytes, not even an Ethernet header.
pub open spec fn truncated_frame_bytes() -> Seq<u8> {
    Seq::new(6, |i: int| 0xAAu8)
}

/// A frame with the Wake-on-LAN EtherType followed by 28 zero bytes.
pub open spec fn unknown_ether_type_bytes() -> Seq<u8> {
    ethernet2_bytes(src_mac(), dst_mac(), ETHER_TYPE_WAKE_ON_LAN) + zeros(28)
}

/// The ESP payload of the ESP fixture: SPI 0x12345678, sequence number 1
/// and 16 bytes standing in for the encrypted data.
pub open spec fn esp_payload() -> Seq<u8> {
    be32_bytes(0x1234_5678) + be32_bytes(1) + zeros(16)
}

/// The ESP fixture: the ESP payload under the fixtures' IPv4 header with
/// protocol 50 and TTL 64.
pub open spec fn esp_frame_bytes() -> Seq<u8> {
    ipv4_frame_bytes(64, IP_PROTOCOL_ESP, esp_payload())
}

/// An IKEv2 header: initiator SPI 0x1122334455667788, responder SPI 0,
/// the given first payload type, version 2.0, the given exchange type,
/// the initiator flag, message id 0 and the message length cut to 32 bits.
pub open spec fn ike_header_bytes(exchange_type: u8, first_payload_type: u8, message_len: usize) -> Seq<u8> {
    be64_bytes(0x1122_3344_5566_7788) + be64_bytes(0) + seq![first_payload_type, 0x20, exchange_type, 0x08]
        + be32_bytes(0) + be32_bytes(message_len as u32)
}

/// An IKE fixture frame: `message` in a UDP datagram from port 4500 to 500
/// with a valid checksum.
pub open spec fn ike_frame_bytes(message: Seq<u8>) -> Seq<u8> {
    udp_frame_bytes(4500, 500, udp_checksum_for(4500, 500, message), message)
}

/// The IKE_SA_INIT message of the IKE fixture: a bare header announcing a
/// Security Association payload.
pub open spec fn ike_sa_init_message() -> Seq<u8> {
    ike_header_bytes(IKE_EXCHANGE_SA_INIT, IKE_PAYLOAD_SA, IKE_HEADER_LEN)
}

/// The self-signed X.509 certificate (CN=vpn-gateway.example.com), in DER,
/// that the IKE_AUTH fixture carries.
pub open spec fn sample_ike_cert() -> Seq<u8> {
    seq![
        0x30, 0x82, 0x01, 0x45, 0x30, 0x81, 0xec, 0xa0, 0x03, 0x02, 0x01, 0x02,
        0x02, 0x14, 0x11, 0x97, 0x0b, 0x0c, 0x9a, 0x8e, 0x24, 0x33, 0x44, 0x09,
        0x26, 0x61, 0xe8, 0x03, 0xde, 0x60, 0x11, 0x56, 0x4c, 0xe9, 0x30, 0x0a,
        0x06, 0x08, 0x2a, 0x86, 0x48, 0xce, 0x3d, 0x04, 0x03, 0x02, 0x30, 0x22,
        0x31, 0x20, 0x30, 0x1e, 0x06, 0x03, 0x55, 0x04, 0x03, 0x0c, 0x17, 0x76,
        0x70, 0x6e, 0x2d, 0x67, 0x61, 0x74, 0x65, 0x77, 0x61, 0x79, 0x2e, 0x65,
        0x78, 0x61, 0x6d, 0x70, 0x6c, 0x65, 0x2e, 0x63, 0x6f, 0x6d, 0x30, 0x20,
        0x17, 0x0d, 0x37, 0x35, 0x30, 0x31, 0x30, 0x31, 0x30, 0x30, 0x30, 0x30,
        0x30, 0x30, 0x5a, 0x18, 0x0f, 0x34, 0x30, 0x39, 0x36, 0x30, 0x31, 0x30,
        0x31, 0x30, 0x30, 0x30, 0x30, 0x30, 0x30, 0x5a, 0x30, 0x22, 0x31, 0x20,
        0x30, 0x1e, 0x06, 0x03, 0x55, 0x04, 0x03, 0x0c, 0x17, 0x76, 0x70, 0x6e,
        0x2d, 0x67, 0x61, 0x74, 0x65, 0x77, 0x61, 0x79, 0x2e, 0x65, 0x78, 0x61,
        0x6d, 0x70, 0x6c, 0x65, 0x2e, 0x63, 0x6f, 0x6d, 0x30, 0x59, 0x30, 0x13,
        0x06, 0x07, 0x2a, 0x86, 0x48, 0xce, 0x3d, 0x02, 0x01, 0x06, 0x08, 0x2a,
        0x86, 0x48, 0xce, 0x3d, 0x03, 0x01, 0x07, 0x03, 0x42, 0x00, 0x04, 0x8b,
        0x62, 0x6c, 0x98, 0xd0, 0xd1, 0xca, 0x15, 0xd5, 0xae, 0x33, 0xe0, 0x6c,
        0xb6, 0x85, 0x2e, 0xfb, 0x59, 0x82, 0xb3, 0xa2, 0xab, 0xe4, 0xc6, 0xa6,
        0xcd, 0xc0, 0xf4, 0xe9, 0x92, 0x1d, 0x1c, 0xe0, 0x72, 0x2c, 0xce, 0x2c,
        0x71, 0xe6, 0x2f, 0xda, 0x24, 0xe8, 0x34, 0x92, 0x65, 0xca, 0x75, 0x1c,
        0x3a, 0x8b, 0x3b, 0xed, 0xcc, 0x20, 0x6f, 0xdd, 0x6e, 0xd2, 0x97, 0x55,
        0x3d, 0x2e, 0xdc, 0x30, 0x0a, 0x06, 0x08, 0x2a, 0x86, 0x48, 0xce, 0x3d,
        0x04, 0x03, 0x02, 0x03, 0x48, 0x00, 0x30, 0x45, 0x02, 0x20, 0x5a, 0x2b,
        0xcb, 0xd1, 0x90, 0xcd, 0x86, 0x0c, 0xee, 0x61, 0x25, 0x51, 0xb7, 0xa5,
        0x32, 0x1a, 0x2d, 0x18, 0xa9, 0x61, 0xc9, 0xeb, 0x48, 0x88, 0x5e, 0xa2,
        0xab, 0xd5, 0x95, 0x87, 0xb1, 0x72, 0x02, 0x21, 0x00, 0xdd, 0x15, 0x29,
        0x61, 0x1e, 0x4f, 0x89, 0x7d, 0xe2, 0x4f, 0x5d, 0x8f, 0x7a, 0x50, 0x5b,
        0x7c, 0x80, 0xf5, 0xf8, 0xd6, 0xa4, 0x2b, 0xdf, 0xc6, 0x99, 0x0c, 0x7c,
        0x45, 0x44, 0xe4, 0xff, 0xb6,
    ]
}

/// The IKE_AUTH message carrying `cert`: the header, then one Certificate
/// payload (no next payload, reserved byte, length, X.509 encoding, `cert`).
pub open spec fn ike_auth_message(cert: Seq<u8>) -> Seq<u8> {
    let payload_len = 4 + 1 + cert.len();
    ike_header_bytes(IKE_EXCHANGE_AUTH, IKE_CERT_PAYLOAD_TYPE, (IKE_HEADER_LEN + payload_len) as usize)
        + seq![IKE_NO_NEXT_PAYLOAD, 0] + be16_bytes(payload_len as u16) + seq![
        IKE_CERT_ENCODING_X509_SIGNATURE,
    ] + cert
}

/// The frame of every scenario, in the order of [`by_name`] and of the
/// sample capture.
pub open spec fn scenario_frames() -> Seq<Seq<u8>> {
    seq![
        tcp_frame_bytes(false, false, 64),
        tcp_frame_bytes(false, true, 64),
        tcp_frame_bytes(false, false, 0),
        tcp_frame_bytes(true, false, 64),
        datagram_frame_bytes(false),
        datagram_frame_bytes(true),
        icmp_frame_bytes(IcmpMessage::PortUnreachable),
        icmp_frame_bytes(IcmpMessage::TtlExceededInTransit),
        truncated_frame_bytes(),
        unknown_ether_type_bytes(),
        esp_frame_bytes(),
        ike_frame_bytes(ike_sa_init_message()),
        ike_frame_bytes(ike_auth_message(sample_ike_cert())),
    ]
}

/// The records of the sample capture: scenario `i` stamped `i` seconds.
pub open spec fn sample_records() -> Seq<RecordModel> {
    Seq::new(SCENARIO_COUNT as nat, |i: int| (i as u32, 0u32, scenario_frames()[i]))
}

/// The frame of the fixture called `name`, if there is one.
pub open spec fn named_fixture(name: Seq<char>) -> Option<Seq<u8>> {
    if name == "healthy_tcp"@ {
        Some(scenario_frames()[0])
    } else if name == "bad_ip_checksum"@ {
        Some(scenario_frames()[1])
    } else if name == "ttl_expired"@ {
        Some(scenario_frames()[2])
    } else if name == "tcp_reset"@ {
        Some(scenario_frames()[3])
    } else if name == "healthy_udp"@ {
        Some(scenario_frames()[4])
    } else if name == "bad_udp_checksum"@ {
        Some(scenario_frames()[5])
    } else if name == "icmp_port_unreachable"@ {
        Some(scenario_frames()[6])
    } else if name == "icmp_time_exceeded"@ {
        Some(scenario_frames()[7])
    } else if name == "truncated_frame"@ {
        Some(scenario_frames()[8])
    } else if name == "unknown_ether_type"@ {
        Some(scenario_frames()[9])
    } else if name == "esp_traffic"@ {
        Some(scenario_frames()[10])
    } else if name == "ike_sa_init"@ {
        Some(scenario_frames()[11])
    } else if name == "ike_auth_with_certificate"@ {
        Some(scenario_frames()[12])
    } else {
        None
    }
}

/// Inverting a checksum (as the broken fixtures do) always makes it differ
/// from the value inverted, and inverting twice gives the value back.
pub proof fn lemma_inverted_checksum_differs(checksum: u16)
    ensures
        checksum ^ 0xFFFFu16 != checksum,
        (checksum ^ 0xFFFFu16) ^ 0xFFFFu16 == checksum,
{
    assert(checksum ^ 0xFFFFu16 != checksum) by (bit_vector);
    assert((checksum ^ 0xFFFFu16) ^ 0xFFFFu16 == checksum) by (bit_vector);
}

/// Inverting a 16-bit value inverts both of its big-endian bytes.
proof fn lemma_inverted_bytes(checksum: u16)
    ensures
        be16_bytes(checksum ^ 0xFFFFu16)[0] == be16_bytes(checksum)[0] ^ 0xFFu8,
        be16_bytes(checksum ^ 0xFFFFu16)[1] == be16_bytes(checksum)[1] ^ 0xFFu8,
{
    let inverted = checksum ^ 0xFFFFu16;
    assert(((inverted / 256) as u8) == ((checksum / 256) as u8) ^ 0xFFu8) by (bit_vector)
        requires
            inverted == checksum ^ 0xFFFFu16,
    ;
    assert(((inverted % 256) as u8) == ((checksum % 256) as u8) ^ 0xFFu8) by (bit_vector)
        requires
            inverted == checksum ^ 0xFFFFu16,
    ;
}

/// The TCP fixtures' layout: 59 bytes; TTL at byte 22, protocol 6 at 23,
/// the IPv4 checksum at 24..26, which is the valid one exactly when it is
/// not to be corrupted; ports 51000 and 80 at 34..38; flags RST (0x04) or
/// else ACK (0x10) at 47; the valid TCP checksum at 50..52; "hello" at
/// 54..59. The corrupted frame differs from the sound one only in bytes 24
/// and 25, each inverted.
pub proof fn lemma_tcp_fixture_layout(rst: bool, corrupt_ip_checksum: bool, ttl: u8)
    ensures
        ({
            let f = tcp_frame_bytes(rst, corrupt_ip_checksum, ttl);
            &&& f.len() == 59
            &&& f[22] == ttl
            &&& f[23] == IP_PROTOCOL_TCP
            &&& (be16_at(f, 24) == ipv4_checksum_for(25, ttl, IP_PROTOCOL_TCP) <==> !corrupt_ip_checksum)
            &&& f.subrange(34, 38) == be16_bytes(51000) + be16_bytes(80)
            &&& f[47] == (if rst { 0x04u8 } else { 0x10u8 })
            &&& be16_at(f, 50) == tcp_checksum_for(rst)
            &&& f.subrange(54, 59) == tcp_payload()
        }),
        forall|i: int|
            0 <= i < 59 && i != 24 && i != 25 ==> #[trigger] tcp_frame_bytes(rst, true, ttl)[i]
                == tcp_frame_bytes(rst, false, ttl)[i],
        tcp_frame_bytes(rst, true, ttl)[24] == tcp_frame_bytes(rst, false, ttl)[24] ^ 0xFFu8,
        tcp_frame_bytes(rst, true, ttl)[25] == tcp_frame_bytes(rst, false, ttl)[25] ^ 0xFFu8,
{
    let valid = ipv4_checksum_for(25, ttl, IP_PROTOCOL_TCP);
    lemma_inverted_checksum_differs(valid);
    lemma_inverted_bytes(valid);
    assert(0x10u8 | 0u8 == 0x10u8) by (bit_vector);
    assert(0u8 | 0x04u8 == 0x04u8) by (bit_vector);
    let tcp = tcp_header_bytes(51000, 80, 1000, 64240, !rst, rst, tcp_checksum_for(rst)) + tcp_payload();
    let checksum = tcp_checksum_for(rst);
    assert(be16_at(be16_bytes(checksum), 0) == checksum);
    assert(be16_at(be16_bytes(valid), 0) == valid);
    assert(be16_at(be16_bytes(valid ^ 0xFFFFu16), 0) == valid ^ 0xFFFFu16);
    let f = tcp_frame_bytes(rst, corrupt_ip_checksum, ttl);
    let stored = if corrupt_ip_checksum { valid ^ 0xFFFFu16 } else { valid };
    assert(f == ipv4_ethernet_header() + fixture_ipv4_bytes(25, ttl, IP_PROTOCOL_TCP, stored) + tcp);
    assert(f[24] == be16_bytes(stored)[0] && f[25] == be16_bytes(stored)[1]);
    assert(f[50] == be16_bytes(checksum)[0] && f[51] == be16_bytes(checksum)[1]);
    assert(f.subrange(34, 38) =~= be16_bytes(51000) + be16_bytes(80));
    assert(f.subrange(54, 59) =~= tcp_payload());
    let bad = tcp_frame_bytes(rst, true, ttl);
    let good = tcp_frame_bytes(rst, false, ttl);
    assert(bad == ipv4_ethernet_header() + fixture_ipv4_bytes(25, ttl, IP_PROTOCOL_TCP, valid ^ 0xFFFFu16) + tcp);
    assert(good == ipv4_ethernet_header() + fixture_ipv4_bytes(25, ttl, IP_PROTOCOL_TCP, valid) + tcp);
    assert forall|i: int| 0 <= i < 59 && i != 24 && i != 25 implies #[trigger] bad[i] == good[i] by {}
}

/// The UDP fixtures' layout: 50 bytes; protocol 17 at byte 23; ports 53000
/// and 53 and length 16 at 34..40; the UDP checksum at 40..42, valid exactly
/// when it is not to be corrupted; "datagram" at 42..50. The corrupted frame
/// differs from the sound one only in bytes 40 and 41, each inverted.
pub proof fn lemma_udp_fixture_layout(corrupt_checksum: bool)
    ensures
        ({
            let f = datagram_frame_bytes(corrupt_checksum);
            &&& f.len() == 50
            &&& f[23] == IP_PROTOCOL_UDP
            &&& be16_at(f, 24) == ipv4_checksum_for(16, 64, IP_PROTOCOL_UDP)
            &&& f.subrange(34, 40) == be16_bytes(53000) + be16_bytes(53) + be16_bytes(16)
            &&& (be16_at(f, 40) == udp_checksum_for(53000, 53, udp_payload()) <==> !corrupt_checksum)
            &&& f.subrange(42, 50) == udp_payload()
        }),
        forall|i: int|
            0 <= i < 50 && i != 40 && i != 41 ==> #[trigger] datagram_frame_bytes(true)[i]
                == datagram_frame_bytes(false)[i],
        datagram_frame_bytes(true)[40] == datagram_frame_bytes(false)[40] ^ 0xFFu8,
        datagram_frame_bytes(true)[41] == datagram_frame_bytes(false)[41] ^ 0xFFu8,
{
    let valid = udp_checksum_for(53000, 53, udp_payload());
    let ip_checksum = ipv4_checksum_for(16, 64, IP_PROTOCOL_UDP);
    lemma_inverted_checksum_differs(valid);
    lemma_inverted_bytes(valid);
    assert(be16_at(be16_bytes(valid), 0) == valid);
    assert(be16_at(be16_bytes(valid ^ 0xFFFFu16), 0) == valid ^ 0xFFFFu16);
    assert(be16_at(be16_bytes(ip_checksum), 0) == ip_checksum);
    let head = ipv4_ethernet_header() + fixture_ipv4_bytes(16, 64, IP_PROTOCOL_UDP, ip_checksum);
    let f = datagram_frame_bytes(corrupt_checksum);
    let stored = if corrupt_checksum { valid ^ 0xFFFFu16 } else { valid };
    assert(f == head + (udp_header_bytes(53000, 53, 16, stored) + udp_payload()));
    assert(f[24] == be16_bytes(ip_checksum)[0] && f[25] == be16_bytes(ip_checksum)[1]);
    assert(f[40] == be16_bytes(stored)[0] && f[41] == be16_bytes(stored)[1]);
    assert(f.subrange(34, 40) =~= be16_bytes(53000) + be16_bytes(53) + be16_bytes(16));
    assert(f.subrange(42, 50) =~= udp_payload());
    let bad = datagram_frame_bytes(true);
    let good = datagram_frame_bytes(false);
    assert(bad == head + (udp_header_bytes(53000, 53, 16, valid ^ 0xFFFFu16) + udp_payload()));
    assert(good == head + (udp_header_bytes(53000, 53, 16, valid) + udp_payload()));
    assert forall|i: int| 0 <= i < 50 && i != 40 && i != 41 implies #[trigger] bad[i] == good[i] by {}
}

fn src_mac_bytes() -> (r: [u8; 6])
    ensures
        r@ == src_mac(),
{
    let r: [u8; 6] = [0x02, 0x00, 0x00, 0x00, 0x00, 0x01];
    assert(r@ == src_mac());
    r
}

fn dst_mac_bytes() -> (r: [u8; 6])
    ensures
        r@ == dst_mac(),
{
    let r: [u8; 6] = [0x02, 0x00, 0x00, 0x00, 0x00, 0x02];
    assert(r@ == dst_mac());
    r
}

fn src_ip() -> (r: [u8; 4])
    ensures
        r@ == src_ip_address(),
{
    let r: [u8; 4] = [10, 0, 0, 1];
    assert(r@ == src_ip_address());
    r
}

fn dst_ip() -> (r: [u8; 4])
    ensures
        r@ == dst_ip_address(),
{
    let r: [u8; 4] = [10, 0, 0, 2];
    assert(r@ == dst_ip_address());
    r
}

fn zero_bytes(n: usize) -> (r: Vec<u8>)
    ensures
        r@ == zeros(n as nat),
{
    let mut r: Vec<u8> = Vec::new();
    let mut i: usize = 0;
    while i < n
        invariant
            i <= n,
            r@ == zeros(i as nat),
        decreases n - i,
    {
        r.push(0);
        i = i + 1;
    }
    r
}

/// The Ethernet II header in front of every IPv4 fixture.
fn ethernet_header() -> (r: [u8; 14])
    ensures
        r@ == ipv4_ethernet_header(),
{
    ethernet2_to_bytes(src_mac_bytes(), dst_mac_bytes(), ETHER_TYPE_IPV4)
}

/// The Ethernet header, the serialized IPv4 header, then `transport`.
fn frame(ip: &Ipv4Fields, transport: &[u8]) -> (out: Vec<u8>)
    requires
        ip.payload_len <= 65515,
    ensures
        out@ == ipv4_ethernet_header() + ipv4_header_bytes(
            ip.payload_len,
            ip.time_to_live,
            ip.protocol,
            ip.header_checksum,
            ip.source@,
            ip.destination@,
        ) + transport@,
{
    let mut out: Vec<u8> = Vec::new();
    let eth = ethernet_header();
    push_all(&mut out, eth.as_slice());
    let ip_bytes = ipv4_to_bytes(ip).unwrap();
    push_all(&mut out, ip_bytes.as_slice());
    push_all(&mut out, transport);
    out
}

/// An IPv4 header from the fixtures' source to their destination over
/// `payload_len` bytes, with its valid checksum.
fn checksummed_ipv4(payload_len: u16, ttl: u8, protocol: u8) -> (ip: Ipv4Fields)
    requires
        payload_len <= 65515,
    ensures
        ip.payload_len == payload_len,
        ip.time_to_live == ttl,
        ip.protocol == protocol,
        ip.source@ == src_ip_address(),
        ip.destination@ == dst_ip_address(),
        ip.header_checksum == ipv4_checksum_for(payload_len, ttl, protocol),
{
    let mut ip = Ipv4Fields {
        payload_len,
        time_to_live: ttl,
        protocol,
        source: src_ip(),
        destination: dst_ip(),
        header_checksum: 0,
    };
    ip.header_checksum = ipv4_calc_header_checksum(&ip).unwrap();
    ip
}

/// [`checksummed_ipv4`] over a payload length given as a `usize`.
fn checksummed_ipv4_over(payload_len: usize, ttl: u8, protocol: u8) -> (ip: Ipv4Fields)
    requires
        payload_len <= 65515,
    ensures
        ip.payload_len == payload_len,
        ip.time_to_live == ttl,
        ip.protocol == protocol,
        ip.source@ == src_ip_address(),
        ip.destination@ == dst_ip_address(),
        ip.header_checksum == ipv4_checksum_for(payload_len as u16, ttl, protocol),
{
    checksummed_ipv4(payload_len as u16, ttl, protocol)
}

/// A TCP segment carrying "hello", RST or else ACK, under an IPv4 header
/// with `ttl` whose checksum is inverted if `corrupt_ip_checksum`.
fn tcp_ip_frame(rst: bool, corrupt_ip_checksum: bool, ttl: u8) -> (out: Vec<u8>)
    ensures
        out@ == tcp_frame_bytes(rst, corrupt_ip_checksum, ttl),
{
    let payload: Vec<u8> = vec![0x68, 0x65, 0x6c, 0x6c, 0x6f];
    assert(payload@ == tcp_payload());
    let mut tcp = TcpFields {
        source_port: 51000,
        destination_port: 80,
        sequence_number: 1000,
        window_size: 64240,
        ack: !rst,
        rst,
        checksum: 0,
    };
    let payload_len = (tcp_header_len(&tcp) + payload.len()) as u16;
    let mut ip = checksummed_ipv4(payload_len, ttl, IP_PROTOCOL_TCP);
    tcp.checksum = tcp_calc_checksum_ipv4(&tcp, &ip, payload.as_slice()).unwrap();
    if corrupt_ip_checksum {
        ip.header_checksum = ip.header_checksum ^ 0xFFFF;
    }
    let mut transport = tcp_to_bytes(&tcp);
    push_all(&mut transport, payload.as_slice());
    let out = frame(&ip, transport.as_slice());
    assert(out@ == tcp_frame_bytes(rst, corrupt_ip_checksum, ttl));
    out
}

pub fn healthy_tcp() -> (out: Vec<u8>)
    ensures
        out@ == tcp_frame_bytes(false, false, 64),
{
    tcp_ip_frame(false, false, 64)
}

pub fn bad_ip_checksum() -> (out: Vec<u8>)
    ensures
        out@ == tcp_frame_bytes(false, true, 64),
{
    tcp_ip_frame(false, true, 64)
}

pub fn ttl_expired() -> (out: Vec<u8>)
    ensures
        out@ == tcp_frame_bytes(false, false, 0),
{
    tcp_ip_frame(false, false, 0)
}

pub fn tcp_reset() -> (out: Vec<u8>)
    ensures
        out@ == tcp_frame_bytes(true, false, 64),
{
    tcp_ip_frame(true, false, 64)
}

/// A UDP datagram carrying "datagram", with its checksum inverted if
/// `corrupt_checksum`; the valid checksum is never 0 ("no checksum").
fn udp_ip_frame(corrupt_checksum: bool) -> (out: Vec<u8>)
    ensures
        out@ == datagram_frame_bytes(corrupt_checksum),
        udp_checksum_for(53000, 53, udp_payload()) != 0,
{
    let payload: Vec<u8> = vec![0x64, 0x61, 0x74, 0x61, 0x67, 0x72, 0x61, 0x6d];
    assert(payload@ == udp_payload());
    let ip = checksummed_ipv4(8 + 8, 64, IP_PROTOCOL_UDP);
    let mut udp = udp_with_ipv4_checksum(53000, 53, &ip, payload.as_slice()).unwrap();
    if corrupt_checksum {
        udp.checksum = udp.checksum ^ 0xFFFF;
    }
    let header = udp_to_bytes(&udp);
    let mut transport: Vec<u8> = Vec::new();
    push_all(&mut transport, header.as_slice());
    push_all(&mut transport, payload.as_slice());
    let out = frame(&ip, transport.as_slice());
    assert(out@ == datagram_frame_bytes(corrupt_checksum));
    out
}

pub fn healthy_udp() -> (out: Vec<u8>)
    ensures
        out@ == datagram_frame_bytes(false),
        udp_checksum_for(53000, 53, udp_payload()) != 0,
{
    udp_ip_frame(false)
}

pub fn bad_udp_checksum() -> (out: Vec<u8>)
    ensures
        out@ == datagram_frame_bytes(true),
        udp_checksum_for(53000, 53, udp_payload()) != 0,
{
    udp_ip_frame(true)
}

/// An ICMP message with a valid checksum over 28 zero bytes.
fn icmp_frame(message: IcmpMessage) -> (out: Vec<u8>)
    ensures
        out@ == icmp_frame_bytes(message),
{
    // A stand-in for "internet header + 64 bits of original datagram".
    let payload = zero_bytes(28);
    let checksum = icmpv4_calc_checksum(message, payload.as_slice());
    let mut transport = icmpv4_to_bytes(message, checksum);
    push_all(&mut transport, payload.as_slice());
    let ip = checksummed_ipv4_over(transport.len(), 64, IP_PROTOCOL_ICMP);
    let out = frame(&ip, transport.as_slice());
    assert(out@ == icmp_frame_bytes(message));
    out
}

pub fn icmp_port_unreachable() -> (out: Vec<u8>)
    ensures
        out@ == icmp_frame_bytes(IcmpMessage::PortUnreachable),
{
    icmp_frame(IcmpMessage::PortUnreachable)
}

pub fn icmp_time_exceeded() -> (out: Vec<u8>)
    ensures
        out@ == icmp_frame_bytes(IcmpMessage::TtlExceededInTransit),
{
    icmp_frame(IcmpMessage::TtlExceededInTransit)
}

/// Only 6 bytes: not even a full Ethernet header (14 bytes minimum).
pub fn truncated_frame() -> (out: Vec<u8>)
    ensures
        out@ == truncated_frame_bytes(),
{
    let mut out: Vec<u8> = Vec::new();
    let mut i: usize = 0;
    while i < 6
        invariant
            i <= 6,
            out@ == Seq::new(i as nat, |j: int| 0xAAu8),
        decreases 6 - i,
    {
        out.push(0xAA);
        i = i + 1;
    }
    out
}

/// A frame whose EtherType (Wake-on-LAN) is neither IP nor ARP, so no
/// network header follows it.
pub fn unknown_ether_type() -> (out: Vec<u8>)
    ensures
        out@ == unknown_ether_type_bytes(),
{
    let header = ethernet2_to_bytes(src_mac_bytes(), dst_mac_bytes(), ETHER_TYPE_WAKE_ON_LAN);
    let mut out: Vec<u8> = Vec::new();
    push_all(&mut out, header.as_slice());
    let padding = zero_bytes(28);
    push_all(&mut out, padding.as_slice());
    out
}

pub fn esp_traffic() -> (out: Vec<u8>)
    ensures
        out@ == esp_frame_bytes(),
{
    let spi: u32 = 0x1234_5678;
    let sequence: u32 = 1;
    let mut esp_payload: Vec<u8> = Vec::new();
    push_u32_be(&mut esp_payload, spi);
    push_u32_be(&mut esp_payload, sequence);
    // A stand-in for the encrypted data.
    let encrypted = zero_bytes(16);
    push_all(&mut esp_payload, encrypted.as_slice());
    let ip = checksummed_ipv4_over(esp_payload.len(), 64, IP_PROTOCOL_ESP);
    let out = frame(&ip, esp_payload.as_slice());
    assert(out@ == esp_frame_bytes());
    out
}

/// An IKEv2 header (RFC 7296 section 3.1) for a message of `message_len` bytes.
pub fn ike_header(exchange_type: u8, first_payload_type: u8, message_len: usize) -> (header: Vec<u8>)
    ensures
        header@ == ike_header_bytes(exchange_type, first_payload_type, message_len),
{
    let mut header: Vec<u8> = Vec::with_capacity(IKE_HEADER_LEN);
    push_u64_be(&mut header, 0x1122_3344_5566_7788);  // initiator SPI
    push_u64_be(&mut header, 0);  // responder SPI: unset before the IKE_SA_INIT reply
    header.push(first_payload_type);
    header.push(0x20);  // version 2.0
    header.push(exchange_type);
    header.push(0x08);  // flags: initiator
    push_u32_be(&mut header, 0);  // message id
    push_u32_be(&mut header, message_len as u32);
    header
}

/// `ike_message` in a UDP datagram from port 4500 to 500.
fn ike_udp_frame(ike_message: &[u8]) -> (out: Vec<u8>)
    requires
        ike_message@.len() <= 65507,
    ensures
        out@ == ike_frame_bytes(ike_message@),
{
    let ip = checksummed_ipv4_over(8 + ike_message.len(), 64, IP_PROTOCOL_UDP);
    let udp = udp_with_ipv4_checksum(4500, 500, &ip, ike_message).unwrap();
    let header = udp_to_bytes(&udp);
    let mut transport: Vec<u8> = Vec::new();
    push_all(&mut transport, header.as_slice());
    push_all(&mut transport, ike_message);
    let out = frame(&ip, transport.as_slice());
    assert(out@ == ike_frame_bytes(ike_message@));
    out
}

pub fn ike_sa_init() -> (out: Vec<u8>)
    ensures
        out@ == ike_frame_bytes(ike_sa_init_message()),
{
    let message = ike_header(IKE_EXCHANGE_SA_INIT, IKE_PAYLOAD_SA, IKE_HEADER_LEN);
    ike_udp_frame(message.as_slice())
}

/// A self-signed X.509 certificate (CN=vpn-gateway.example.com) in DER form.
fn sample_ike_cert_der() -> (der: Vec<u8>)
    ensures
        der@ == sample_ike_cert(),
{
    let der: Vec<u8> = vec![
        0x30, 0x82, 0x01, 0x45, 0x30, 0x81, 0xec, 0xa0, 0x03, 0x02, 0x01, 0x02,
        0x02, 0x14, 0x11, 0x97, 0x0b, 0x0c, 0x9a, 0x8e, 0x24, 0x33, 0x44, 0x09,
        0x26, 0x61, 0xe8, 0x03, 0xde, 0x60, 0x11, 0x56, 0x4c, 0xe9, 0x30, 0x0a,
        0x06, 0x08, 0x2a, 0x86, 0x48, 0xce, 0x3d, 0x04, 0x03, 0x02, 0x30, 0x22,
        0x31, 0x20, 0x30, 0x1e, 0x06, 0x03, 0x55, 0x04, 0x03, 0x0c, 0x17, 0x76,
        0x70, 0x6e, 0x2d, 0x67, 0x61, 0x74, 0x65, 0x77, 0x61, 0x79, 0x2e, 0x65,
        0x78, 0x61, 0x6d, 0x70, 0x6c, 0x65, 0x2e, 0x63, 0x6f, 0x6d, 0x30, 0x20,
        0x17, 0x0d, 0x37, 0x35, 0x30, 0x31, 0x30, 0x31, 0x30, 0x30, 0x30, 0x30,
        0x30, 0x30, 0x5a, 0x18, 0x0f, 0x34, 0x30, 0x39, 0x36, 0x30, 0x31, 0x30,
        0x31, 0x30, 0x30, 0x30, 0x30, 0x30, 0x30, 0x5a, 0x30, 0x22, 0x31, 0x20,
        0x30, 0x1e, 0x06, 0x03, 0x55, 0x04, 0x03, 0x0c, 0x17, 0x76, 0x70, 0x6e,
        0x2d, 0x67, 0x61, 0x74, 0x65, 0x77, 0x61, 0x79, 0x2e, 0x65, 0x78, 0x61,
        0x6d, 0x70, 0x6c, 0x65, 0x2e, 0x63, 0x6f, 0x6d, 0x30, 0x59, 0x30, 0x13,
        0x06, 0x07, 0x2a, 0x86, 0x48, 0xce, 0x3d, 0x02, 0x01, 0x06, 0x08, 0x2a,
        0x86, 0x48, 0xce, 0x3d, 0x03, 0x01, 0x07, 0x03, 0x42, 0x00, 0x04, 0x8b,
        0x62, 0x6c, 0x98, 0xd0, 0xd1, 0xca, 0x15, 0xd5, 0xae, 0x33, 0xe0, 0x6c,
        0xb6, 0x85, 0x2e, 0xfb, 0x59, 0x82, 0xb3, 0xa2, 0xab, 0xe4, 0xc6, 0xa6,
        0xcd, 0xc0, 0xf4, 0xe9, 0x92, 0x1d, 0x1c, 0xe0, 0x72, 0x2c, 0xce, 0x2c,
        0x71, 0xe6, 0x2f, 0xda, 0x24, 0xe8, 0x34, 0x92, 0x65, 0xca, 0x75, 0x1c,
        0x3a, 0x8b, 0x3b, 0xed, 0xcc, 0x20, 0x6f, 0xdd, 0x6e, 0xd2, 0x97, 0x55,
        0x3d, 0x2e, 0xdc, 0x30, 0x0a, 0x06, 0x08, 0x2a, 0x86, 0x48, 0xce, 0x3d,
        0x04, 0x03, 0x02, 0x03, 0x48, 0x00, 0x30, 0x45, 0x02, 0x20, 0x5a, 0x2b,
        0xcb, 0xd1, 0x90, 0xcd, 0x86, 0x0c, 0xee, 0x61, 0x25, 0x51, 0xb7, 0xa5,
        0x32, 0x1a, 0x2d, 0x18, 0xa9, 0x61, 0xc9, 0xeb, 0x48, 0x88, 0x5e, 0xa2,
        0xab, 0xd5, 0x95, 0x87, 0xb1, 0x72, 0x02, 0x21, 0x00, 0xdd, 0x15, 0x29,
        0x61, 0x1e, 0x4f, 0x89, 0x7d, 0xe2, 0x4f, 0x5d, 0x8f, 0x7a, 0x50, 0x5b,
        0x7c, 0x80, 0xf5, 0xf8, 0xd6, 0xa4, 0x2b, 0xdf, 0xc6, 0x99, 0x0c, 0x7c,
        0x45, 0x44, 0xe4, 0xff, 0xb6,
    ];
    assert(der@ == sample_ike_cert());
    der
}

pub fn ike_auth_with_certificate() -> (out: Vec<u8>)
    ensures
        out@ == ike_frame_bytes(ike_auth_message(sample_ike_cert())),
{
    let cert = sample_ike_cert_der();
    // One Certificate payload: generic payload header (next payload,
    // reserved, 2-byte length), the 1-byte certificate encoding, then the
    // DER-encoded certificate itself.
    let cert_payload_len = 4 + 1 + cert.len();
    let mut message = ike_header(IKE_EXCHANGE_AUTH, IKE_CERT_PAYLOAD_TYPE, IKE_HEADER_LEN + cert_payload_len);
    message.push(IKE_NO_NEXT_PAYLOAD);
    message.push(0);  // critical/reserved
    push_u16_be(&mut message, cert_payload_len as u16);
    message.push(IKE_CERT_ENCODING_X509_SIGNATURE);
    push_all(&mut message, cert.as_slice());
    assert(message@ == ike_auth_message(cert@));
    ike_udp_frame(message.as_slice())
}

/// The frames of every scenario, in order.
fn sample_frames() -> (packets: Vec<Vec<u8>>)
    ensures
        packets@.len() == SCENARIO_COUNT,
        forall|i: int| 0 <= i < SCENARIO_COUNT ==> #[trigger] packets@[i]@ == scenario_frames()[i],
{
    let mut packets: Vec<Vec<u8>> = Vec::new();
    packets.push(healthy_tcp());
    packets.push(bad_ip_checksum());
    packets.push(ttl_expired());
    packets.push(tcp_reset());
    packets.push(healthy_udp());
    packets.push(bad_udp_checksum());
    packets.push(icmp_port_unreachable());
    packets.push(icmp_time_exceeded());
    packets.push(truncated_frame());
    packets.push(unknown_ether_type());
    packets.push(esp_traffic());
    packets.push(ike_sa_init());
    packets.push(ike_auth_with_certificate());
    packets
}

/// Builds a deterministic classic pcap containing one packet for every
/// diagnostic scenario, in the order of [`by_name`]: healthy, bad IP
/// checksum and expired TTL TCP, a TCP reset, healthy and bad-checksum UDP,
/// ICMP port unreachable and time exceeded, a truncated frame, an unknown
/// EtherType, ESP, IKE_SA_INIT and IKE_AUTH with a certificate; record `i`
/// is stamped `i` seconds.
pub fn sample_capture() -> (capture: Vec<u8>)
    ensures
        capture@ == capture_bytes(sample_records()),
        header_verdict(capture@) is Ok,
        records_of(capture@.skip(GLOBAL_HEADER_LEN as int)) == all_ok(sample_records()),
{
    let packets = sample_frames();
    let mut records: Vec<(u32, u32, &[u8])> = Vec::new();
    let mut index: usize = 0;
    while index < packets.len()
        invariant
            index <= packets@.len(),
            packets@.len() == SCENARIO_COUNT,
            records@.len() == index,
            forall|j: int|
                0 <= j < index ==> (#[trigger] records@[j]).0 == j && records@[j].1 == 0
                    && records@[j].2@ == packets@[j]@,
        decreases packets@.len() - index,
    {
        records.push((index as u32, 0, packets[index].as_slice()));
        index = index + 1;
    }
    let capture = write_pcap_file(records.as_slice());
    proof {
        let models = packet_models(records@);
        assert forall|i: int| 0 <= i < SCENARIO_COUNT implies #[trigger] models[i] == sample_records()[i] by {
            assert(records@[i].2@ == packets@[i]@);
            assert(packets@[i]@ == scenario_frames()[i]);
        }
        assert(models =~= sample_records());
        lemma_scenario_lengths_fit();
        lemma_write_then_read(models);
    }
    capture
}

/// Every scenario frame is far shorter than 2^32 bytes.
proof fn lemma_scenario_lengths_fit()
    ensures
        lengths_fit(sample_records()),
{
    let frames = scenario_frames();
    assert forall|i: int| 0 <= i < SCENARIO_COUNT implies #[trigger] frames[i].len() <= 1000 by {
        assert(sample_ike_cert().len() == 329);
    }
    assert forall|i: int| 0 <= i < sample_records().len() implies #[trigger] sample_records()[i].2.len() <= u32::MAX by {
        assert(sample_records()[i].2 == frames[i]);
    }
}

/// Whether two texts are the same.
fn same_text(a: &str, b: &str) -> (r: bool)
    ensures
        r == (a@ == b@),
{
    a.to_owned() == b.to_owned()
}

/// Looks up a named fixture, for use from scenario step definitions.
pub fn by_name(name: &str) -> (fixture: Option<Vec<u8>>)
    ensures
        match fixture {
            Some(frame) => named_fixture(name@) == Some(frame@),
            None => named_fixture(name@) is None,
        },
{
    proof {
        reveal_strlit("healthy_tcp");
        reveal_strlit("bad_ip_checksum");
        reveal_strlit("ttl_expired");
        reveal_strlit("tcp_reset");
        reveal_strlit("healthy_udp");
        reveal_strlit("bad_udp_checksum");
        reveal_strlit("icmp_port_unreachable");
        reveal_strlit("icmp_time_exceeded");
        reveal_strlit("truncated_frame");
        reveal_strlit("unknown_ether_type");
        reveal_strlit("esp_traffic");
        reveal_strlit("ike_sa_init");
        reveal_strlit("ike_auth_with_certificate");
    }
    if same_text(name, "healthy_tcp") {
        Some(healthy_tcp())
    } else if same_text(name, "bad_ip_checksum") {
        Some(bad_ip_checksum())
    } else if same_text(name, "ttl_expired") {
        Some(ttl_expired())
    } else if same_text(name, "tcp_reset") {
        Some(tcp_reset())
    } else if same_text(name, "healthy_udp") {
        Some(healthy_udp())
    } else if same_text(name, "bad_udp_checksum") {
        Some(bad_udp_checksum())
    } else if same_text(name, "icmp_port_unreachable") {
        Some(icmp_port_unreachable())
    } else if same_text(name, "icmp_time_exceeded") {
        Some(icmp_time_exceeded())
    } else if same_text(name, "truncated_frame") {
        Some(truncated_frame())
    } else if same_text(name, "unknown_ether_type") {
        Some(unknown_ether_type())
    } else if same_text(name, "esp_traffic") {
        Some(esp_traffic())
    } else if same_text(name, "ike_sa_init") {
        Some(ike_sa_init())
    } else if same_text(name, "ike_auth_with_certificate") {
        Some(ike_auth_with_certificate())
    } else {
        None
    }
}

} // verus!
