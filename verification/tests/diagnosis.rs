use netstack_diagnostics::diagnosis::{
    dest_unreachable_code, diagnose, diagnose_esp, diagnose_ike, diagnose_summary,
    find_ike_certificate, ike_exchange_type, DestUnreachableReason, Diagnosis, IkeExchangeType,
    Ipv4Summary, NetSummary, TransportSummary,
};
use netstack_diagnostics::fixtures::{
    bad_ip_checksum, bad_udp_checksum, by_name, esp_traffic, healthy_tcp, healthy_udp,
    icmp_port_unreachable, icmp_time_exceeded, ike_auth_with_certificate, ike_header, ike_sa_init,
    sample_capture, tcp_reset, truncated_frame, ttl_expired, unknown_ether_type,
};
use netstack_diagnostics::pcap::{write_pcap_file, PcapFile};

fn diagnose_through_capture(name: &str) -> Diagnosis {
    let packet = by_name(name).unwrap_or_else(|| panic!("unknown fixture: {name}"));
    let capture = write_pcap_file(&[(0, 0, &packet)]);
    let pcap = PcapFile::parse(&capture).expect("capture should be a valid pcap file");
    let record = pcap
        .records()
        .next()
        .expect("capture should contain one record")
        .expect("record should be well-formed");
    diagnose(record.data)
}

#[test]
fn sample_capture_exercises_every_diagnosis_scenario() {
    let capture = sample_capture();
    let pcap = PcapFile::parse(&capture).unwrap();
    let mut records = pcap.records();
    let mut diagnoses = Vec::new();
    while let Some(record) = records.next() {
        diagnoses.push(diagnose(record.unwrap().data));
    }

    assert!(matches!(diagnoses[0], Diagnosis::Healthy));
    assert!(matches!(diagnoses[1], Diagnosis::Layer3ChecksumInvalid));
    assert!(matches!(diagnoses[2], Diagnosis::Layer3TtlExpired));
    assert!(matches!(diagnoses[3], Diagnosis::Layer4ConnectionReset));
    assert!(matches!(diagnoses[4], Diagnosis::Healthy));
    assert!(matches!(diagnoses[5], Diagnosis::Layer4ChecksumInvalid));
    assert!(matches!(
        diagnoses[6],
        Diagnosis::Layer4DestinationUnreachable { icmp_code: 3 }
    ));
    assert!(matches!(diagnoses[7], Diagnosis::Layer3TimeExceededEnRoute));
    assert!(matches!(diagnoses[8], Diagnosis::Layer2Malformed(_)));
}

#[test]
fn sample_capture_also_holds_the_ether_type_esp_and_ike_scenarios() {
    let capture = sample_capture();
    let pcap = PcapFile::parse(&capture).unwrap();
    let mut records = pcap.records();
    let mut diagnoses = Vec::new();
    while let Some(record) = records.next() {
        diagnoses.push(diagnose(record.unwrap().data));
    }
    assert_eq!(diagnoses.len(), 13);
    assert_eq!(diagnoses[9], Diagnosis::Layer2UnknownEtherType(0x0842));
    assert_eq!(diagnoses[10], Diagnosis::Layer3EspTraffic { spi: 0x1234_5678, sequence: 1 });
    assert!(matches!(
        diagnoses[11],
        Diagnosis::Layer4IkeHandshake { exchange_type: IkeExchangeType::SaInit, .. }
    ));
    assert!(matches!(diagnoses[12], Diagnosis::Layer4IkeCertificateIdentity { .. }));
}

#[test]
fn sample_capture_records_are_the_fixture_frames() {
    let capture = sample_capture();
    let expected = [
        healthy_tcp(),
        bad_ip_checksum(),
        ttl_expired(),
        tcp_reset(),
        healthy_udp(),
        bad_udp_checksum(),
        icmp_port_unreachable(),
        icmp_time_exceeded(),
        truncated_frame(),
        unknown_ether_type(),
        esp_traffic(),
        ike_sa_init(),
        ike_auth_with_certificate(),
    ];
    let pcap = PcapFile::parse(&capture).unwrap();
    let mut records = pcap.records();
    for frame in expected.iter() {
        assert_eq!(records.next().unwrap().unwrap().data, &frame[..]);
    }
    assert!(records.next().is_none());
    assert_eq!(sample_capture(), capture);
}

#[test]
fn sample_capture_stamps_records_in_order() {
    let capture = sample_capture();
    let pcap = PcapFile::parse(&capture).unwrap();
    let mut records = pcap.records();
    let mut index = 0u32;
    while let Some(record) = records.next() {
        let record = record.unwrap();
        assert_eq!(record.timestamp_secs, index);
        assert_eq!(record.timestamp_micros, 0);
        index += 1;
    }
    assert_eq!(index, 13);
}

#[test]
fn scenario_healthy_tcp() {
    assert_eq!(diagnose_through_capture("healthy_tcp"), Diagnosis::Healthy);
    assert_eq!(diagnose(&healthy_tcp()), Diagnosis::Healthy);
}

#[test]
fn scenario_bad_ip_checksum() {
    assert_eq!(diagnose_through_capture("bad_ip_checksum"), Diagnosis::Layer3ChecksumInvalid);
    assert_eq!(diagnose(&bad_ip_checksum()), Diagnosis::Layer3ChecksumInvalid);
}

#[test]
fn scenario_ttl_expired() {
    assert_eq!(diagnose_through_capture("ttl_expired"), Diagnosis::Layer3TtlExpired);
    assert_eq!(diagnose(&ttl_expired()), Diagnosis::Layer3TtlExpired);
}

#[test]
fn scenario_tcp_reset() {
    assert_eq!(diagnose_through_capture("tcp_reset"), Diagnosis::Layer4ConnectionReset);
    assert_eq!(diagnose(&tcp_reset()), Diagnosis::Layer4ConnectionReset);
}

#[test]
fn scenario_healthy_udp() {
    assert_eq!(diagnose_through_capture("healthy_udp"), Diagnosis::Healthy);
    assert_eq!(diagnose(&healthy_udp()), Diagnosis::Healthy);
}

#[test]
fn scenario_bad_udp_checksum() {
    assert_eq!(diagnose_through_capture("bad_udp_checksum"), Diagnosis::Layer4ChecksumInvalid);
    assert_eq!(diagnose(&bad_udp_checksum()), Diagnosis::Layer4ChecksumInvalid);
}

#[test]
fn scenario_icmp_port_unreachable() {
    assert_eq!(
        diagnose_through_capture("icmp_port_unreachable"),
        Diagnosis::Layer4DestinationUnreachable { icmp_code: 3 }
    );
    assert_eq!(
        diagnose(&icmp_port_unreachable()),
        Diagnosis::Layer4DestinationUnreachable { icmp_code: 3 }
    );
}

#[test]
fn scenario_icmp_time_exceeded() {
    assert_eq!(
        diagnose_through_capture("icmp_time_exceeded"),
        Diagnosis::Layer3TimeExceededEnRoute
    );
    assert_eq!(diagnose(&icmp_time_exceeded()), Diagnosis::Layer3TimeExceededEnRoute);
}

#[test]
fn scenario_truncated_frame() {
    match diagnose_through_capture("truncated_frame") {
        Diagnosis::Layer2Malformed(message) => {
            assert!(message.contains("Not enough data"), "got {message:?}")
        }
        other => panic!("expected Layer2Malformed, got {other:?}"),
    }
    assert_eq!(truncated_frame(), vec![0xAA; 6]);
}

#[test]
fn scenario_unknown_ether_type() {
    assert_eq!(
        diagnose_through_capture("unknown_ether_type"),
        Diagnosis::Layer2UnknownEtherType(0x0842)
    );
    let frame = unknown_ether_type();
    assert_eq!(frame.len(), 14 + 28);
    assert_eq!(&frame[12..14], &[0x08, 0x42]);
}

#[test]
fn scenario_esp_traffic() {
    assert_eq!(
        diagnose_through_capture("esp_traffic"),
        Diagnosis::Layer3EspTraffic { spi: 0x1234_5678, sequence: 1 }
    );
    assert_eq!(
        diagnose(&esp_traffic()),
        Diagnosis::Layer3EspTraffic { spi: 0x1234_5678, sequence: 1 }
    );
}

#[test]
fn scenario_ike_sa_init() {
    assert_eq!(
        diagnose_through_capture("ike_sa_init"),
        Diagnosis::Layer4IkeHandshake {
            exchange_type: IkeExchangeType::SaInit,
            initiator_spi: 0x1122_3344_5566_7788,
            responder_spi: 0,
        }
    );
    assert!(matches!(diagnose(&ike_sa_init()), Diagnosis::Layer4IkeHandshake { .. }));
}

#[test]
fn scenario_ike_auth_with_certificate() {
    match diagnose_through_capture("ike_auth_with_certificate") {
        Diagnosis::Layer4IkeCertificateIdentity { subject } => {
            assert!(subject.contains("vpn-gateway.example.com"), "got {subject:?}");
            assert_eq!(subject, "CN=vpn-gateway.example.com");
        }
        other => panic!("expected Layer4IkeCertificateIdentity, got {other:?}"),
    }
    assert!(matches!(
        diagnose(&ike_auth_with_certificate()),
        Diagnosis::Layer4IkeCertificateIdentity { .. }
    ));
}

#[test]
fn by_name_gives_the_named_fixture() {
    assert_eq!(by_name("tcp_reset"), Some(tcp_reset()));
    assert_eq!(by_name("healthy_tcp"), Some(healthy_tcp()));
    assert_eq!(by_name("esp_traffic"), Some(esp_traffic()));
    assert_eq!(by_name("Healthy_TCP"), None);
    assert_eq!(by_name("sample_capture"), None);
}

#[test]
fn tcp_fixture_layout() {
    let h = healthy_tcp();
    assert_eq!(h.len(), 59);
    assert_eq!(h[14], 0x45);
    assert_eq!(h[22], 64);
    assert_eq!(h[23], 6);
    assert_eq!(&h[26..34], &[10, 0, 0, 1, 10, 0, 0, 2]);
    assert_eq!(&h[34..38], &[0xC7, 0x38, 0, 80]);
    assert_eq!(h[47], 0x10);
    assert_eq!(&h[54..59], b"hello");
    let b = bad_ip_checksum();
    for i in 0..59 {
        if i == 24 || i == 25 {
            assert_eq!(b[i], h[i] ^ 0xFF);
        } else {
            assert_eq!(b[i], h[i]);
        }
    }
    let t = ttl_expired();
    assert_eq!(t[22], 0);
    let r = tcp_reset();
    assert_eq!(r[47], 0x04);
    assert_eq!(&r[..47], &h[..47]);
}

#[test]
fn udp_fixture_layout() {
    let h = healthy_udp();
    assert_eq!(h.len(), 50);
    assert_eq!(h[23], 17);
    assert_eq!(&h[34..40], &[0xCF, 0x08, 0, 53, 0, 16]);
    assert_ne!(&h[40..42], &[0, 0]);
    let b = bad_udp_checksum();
    assert_ne!(&b[40..42], &[0, 0]);
    for i in 0..50 {
        if i == 40 || i == 41 {
            assert_eq!(b[i], h[i] ^ 0xFF);
        } else {
            assert_eq!(b[i], h[i]);
        }
    }
}

#[test]
fn icmp_and_esp_and_ike_fixture_layouts() {
    assert_eq!(&icmp_port_unreachable()[34..36], &[3, 3]);
    assert_eq!(&icmp_time_exceeded()[34..36], &[11, 0]);
    let e = esp_traffic();
    assert_eq!(e.len(), 58);
    assert_eq!(e[23], 50);
    assert_eq!(&e[34..42], &[0x12, 0x34, 0x56, 0x78, 0, 0, 0, 1]);
    let s = ike_sa_init();
    assert_eq!(s.len(), 70);
    assert_eq!(&s[34..40], &[0x11, 0x94, 0x01, 0xF4, 0, 36]);
    assert_eq!(&s[42..70], &ike_header(34, 33, 28)[..]);
    let a = ike_auth_with_certificate();
    assert_eq!(a.len(), 404);
    assert_eq!(&a[70..75], &[0, 0, 0x01, 0x4E, 4]);
}

#[test]
fn unknown_fixture_name_gives_none() {
    assert!(by_name("no_such_fixture").is_none());
    assert!(by_name("").is_none());
    assert!(by_name("healthy_tcp ").is_none());
}

#[test]
fn fixtures_start_with_the_ipv4_ethernet_header() {
    let frame = healthy_tcp();
    assert_eq!(
        &frame[..14],
        &[0x02, 0, 0, 0, 0, 0x02, 0x02, 0, 0, 0, 0, 0x01, 0x08, 0x00]
    );
    assert!(frame.ends_with(b"hello"));
    assert!(healthy_udp().ends_with(b"datagram"));
}

#[test]
fn short_frames_are_malformed() {
    for len in 0..14 {
        let frame = vec![0u8; len];
        assert!(matches!(diagnose(&frame), Diagnosis::Layer2Malformed(_)));
    }
}

#[test]
fn esp_payload_shorter_than_its_header_is_malformed() {
    assert_eq!(diagnose_esp(&[1, 2, 3, 4, 5, 6, 7]), Diagnosis::Layer3EspMalformed);
    assert_eq!(
        diagnose_esp(&[0, 0, 1, 0, 0, 0, 0, 2, 99]),
        Diagnosis::Layer3EspTraffic { spi: 256, sequence: 2 }
    );
}

#[test]
fn ike_payload_shorter_than_its_header_is_malformed() {
    assert_eq!(diagnose_ike(&[0u8; 27]), Diagnosis::Layer4IkeMalformed);
}

#[test]
fn ike_header_layout() {
    let header = ike_header(35, 37, 0x0102);
    assert_eq!(
        header,
        vec![
            0x11, 0x22, 0x33, 0x44, 0x55, 0x66, 0x77, 0x88, 0, 0, 0, 0, 0, 0, 0, 0, 37, 0x20, 35,
            0x08, 0, 0, 0, 0, 0, 0, 0x01, 0x02
        ]
    );
}

#[test]
fn ike_handshake_reads_spis_and_exchange_type() {
    let mut message = ike_header(36, 0, 28);
    message[8..16].copy_from_slice(&[0, 0, 0, 0, 0, 0, 0x01, 0x00]);
    assert_eq!(
        diagnose_ike(&message),
        Diagnosis::Layer4IkeHandshake {
            exchange_type: IkeExchangeType::CreateChildSa,
            initiator_spi: 0x1122_3344_5566_7788,
            responder_spi: 256,
        }
    );
}

#[test]
fn ike_certificate_that_does_not_parse_is_malformed() {
    let mut message = ike_header(35, 37, 28 + 8);
    message.extend_from_slice(&[0, 0, 0, 8, 4, 1, 2, 3]);
    assert_eq!(diagnose_ike(&message), Diagnosis::Layer4IkeMalformed);
}

#[test]
fn exchange_types() {
    assert_eq!(ike_exchange_type(34), IkeExchangeType::SaInit);
    assert_eq!(ike_exchange_type(35), IkeExchangeType::Auth);
    assert_eq!(ike_exchange_type(36), IkeExchangeType::CreateChildSa);
    assert_eq!(ike_exchange_type(37), IkeExchangeType::Informational);
    assert_eq!(ike_exchange_type(33), IkeExchangeType::Unknown(33));
}

#[test]
fn certificate_search_walks_the_payload_chain() {
    // A 6-byte SA payload, then a certificate payload with body [4, 9, 9].
    let chain = [37u8, 0, 0, 6, 1, 1, 0, 0, 0, 7, 4, 9, 9];
    assert_eq!(find_ike_certificate(&chain, 33), Some(&[9u8, 9][..]));
    // The chain ends before any certificate.
    assert_eq!(find_ike_certificate(&chain, 0), None);
    // A length below four stops the walk.
    assert_eq!(find_ike_certificate(&[37, 0, 0, 3, 1, 1], 33), None);
    // A length past the end stops the walk.
    assert_eq!(find_ike_certificate(&[0, 0, 0, 9, 4, 1], 37), None);
    // An empty certificate body is skipped.
    assert_eq!(find_ike_certificate(&[0, 0, 0, 4], 37), None);
}

#[test]
fn destination_unreachable_codes() {
    assert_eq!(dest_unreachable_code(DestUnreachableReason::Network), 0);
    assert_eq!(dest_unreachable_code(DestUnreachableReason::Port), 3);
    assert_eq!(dest_unreachable_code(DestUnreachableReason::FragmentationNeeded), 4);
    assert_eq!(dest_unreachable_code(DestUnreachableReason::PrecedenceCutoff), 15);
}

fn ip(valid: bool, ttl: u8, protocol: u8) -> NetSummary {
    NetSummary::Ipv4(Ipv4Summary {
        header_checksum: 0x1234,
        computed_header_checksum: if valid { 0x1234 } else { 0x4321 },
        time_to_live: ttl,
        protocol,
    })
}

#[test]
fn layer3_faults_come_before_transport_faults() {
    let reset = TransportSummary::Tcp { checksum: 1, computed_checksum: Some(2), rst: true };
    assert_eq!(diagnose_summary(&ip(false, 0, 6), &reset, &[]), Diagnosis::Layer3ChecksumInvalid);
    assert_eq!(diagnose_summary(&ip(true, 0, 6), &reset, &[]), Diagnosis::Layer3TtlExpired);
    assert_eq!(diagnose_summary(&ip(true, 1, 6), &reset, &[]), Diagnosis::Layer4ChecksumInvalid);
    let reset_ok = TransportSummary::Tcp { checksum: 1, computed_checksum: None, rst: true };
    assert_eq!(diagnose_summary(&ip(true, 1, 6), &reset_ok, &[]), Diagnosis::Layer4ConnectionReset);
}

#[test]
fn zero_udp_checksum_is_not_checked() {
    let udp = TransportSummary::Udp {
        checksum: 0,
        computed_checksum: Some(7),
        source_port: 1,
        destination_port: 2,
    };
    assert_eq!(diagnose_summary(&ip(true, 64, 17), &udp, &[]), Diagnosis::Healthy);
}

#[test]
fn missing_network_layer_reports_ether_type() {
    let none = TransportSummary::Other;
    assert_eq!(
        diagnose_summary(&NetSummary::Missing { ether_type: Some(0x88cc) }, &none, &[]),
        Diagnosis::Layer2UnknownEtherType(0x88cc)
    );
    assert_eq!(
        diagnose_summary(&NetSummary::Missing { ether_type: None }, &none, &[]),
        Diagnosis::Layer2UnknownEtherType(0)
    );
    assert_eq!(diagnose_summary(&NetSummary::Other, &none, &[]), Diagnosis::Healthy);
}

#[test]
fn esp_protocol_reads_the_payload_header() {
    let payload = [0, 0, 0, 5, 0, 0, 0, 6];
    assert_eq!(
        diagnose_summary(&ip(true, 64, 50), &TransportSummary::Other, &payload),
        Diagnosis::Layer3EspTraffic { spi: 5, sequence: 6 }
    );
}

#[test]
fn ike_ports_route_udp_to_ike() {
    for (source_port, destination_port) in [(500, 1), (1, 500), (4500, 1), (1, 4500)] {
        let udp = TransportSummary::Udp {
            checksum: 0,
            computed_checksum: None,
            source_port,
            destination_port,
        };
        assert_eq!(
            diagnose_summary(&ip(true, 64, 17), &udp, &[0u8; 3]),
            Diagnosis::Layer4IkeMalformed
        );
    }
}
