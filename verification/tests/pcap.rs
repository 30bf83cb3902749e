use netstack_diagnostics::pcap::{
    write_pcap_file, PcapError, PcapFile, PcapRecord, LINKTYPE_ETHERNET, PCAP_MAGIC_MICROS,
};

fn read_all<'a>(pcap: &PcapFile<'a>) -> Vec<Result<PcapRecord<'a>, PcapError>> {
    let mut records = Vec::new();
    let mut iter = pcap.records();
    while let Some(record) = iter.next() {
        records.push(record);
    }
    records
}

#[test]
fn round_trips_a_single_packet() {
    let packet = [1u8, 2, 3, 4, 5];
    let bytes = write_pcap_file(&[(10, 20, &packet)]);
    let pcap = PcapFile::parse(&bytes).unwrap();
    let records = read_all(&pcap);
    assert_eq!(records.len(), 1);
    let record = records[0].as_ref().unwrap();
    assert_eq!(record.timestamp_secs, 10);
    assert_eq!(record.timestamp_micros, 20);
    assert_eq!(record.data, &packet);
}

#[test]
fn rejects_bad_magic() {
    let mut bytes = write_pcap_file(&[(0, 0, &[])]);
    bytes[0] = 0;
    assert!(matches!(PcapFile::parse(&bytes), Err(PcapError::BadMagic(_))));
}

#[test]
fn bad_magic_reports_the_magic_read() {
    let mut bytes = write_pcap_file(&[]);
    bytes[0] = 0;
    assert!(matches!(PcapFile::parse(&bytes), Err(PcapError::BadMagic(0xa1b2_c300))));
}

#[test]
fn writes_the_global_header() {
    let bytes = write_pcap_file(&[]);
    assert_eq!(
        bytes,
        vec![
            0xd4, 0xc3, 0xb2, 0xa1, 2, 0, 4, 0, 0, 0, 0, 0, 0, 0, 0, 0, 0xff, 0xff, 0, 0, 1, 0, 0,
            0
        ]
    );
    assert_eq!(PCAP_MAGIC_MICROS, 0xa1b2_c3d4);
    assert_eq!(LINKTYPE_ETHERNET, 1);
}

#[test]
fn writes_record_headers_little_endian() {
    let packet = [9u8, 8, 7];
    let bytes = write_pcap_file(&[(0x0102_0304, 0x0a0b_0c0d, &packet)]);
    assert_eq!(bytes.len(), 24 + 16 + 3);
    assert_eq!(&bytes[24..28], &[0x04, 0x03, 0x02, 0x01]);
    assert_eq!(&bytes[28..32], &[0x0d, 0x0c, 0x0b, 0x0a]);
    assert_eq!(&bytes[32..36], &[3, 0, 0, 0]);
    assert_eq!(&bytes[36..40], &[3, 0, 0, 0]);
    assert_eq!(&bytes[40..], &packet);
}

#[test]
fn round_trips_several_packets_in_order() {
    let a = [1u8; 60];
    let b: [u8; 0] = [];
    let c = [0xffu8, 0xee];
    let bytes = write_pcap_file(&[(1, 2, &a), (3, 4, &b), (5, 6, &c)]);
    let pcap = PcapFile::parse(&bytes).unwrap();
    let records = read_all(&pcap);
    assert_eq!(records.len(), 3);
    let r0 = records[0].as_ref().unwrap();
    let r1 = records[1].as_ref().unwrap();
    let r2 = records[2].as_ref().unwrap();
    assert_eq!((r0.timestamp_secs, r0.timestamp_micros, r0.data), (1, 2, &a[..]));
    assert_eq!((r1.timestamp_secs, r1.timestamp_micros, r1.data), (3, 4, &b[..]));
    assert_eq!((r2.timestamp_secs, r2.timestamp_micros, r2.data), (5, 6, &c[..]));
}

#[test]
fn empty_capture_has_no_records() {
    let bytes = write_pcap_file(&[]);
    let pcap = PcapFile::parse(&bytes).unwrap();
    assert!(read_all(&pcap).is_empty());
}

#[test]
fn rejects_a_short_global_header() {
    let bytes = write_pcap_file(&[]);
    assert_eq!(PcapFile::parse(&bytes[..23]).err(), Some(PcapError::TooShort));
    assert_eq!(PcapFile::parse(&[]).err(), Some(PcapError::TooShort));
}

#[test]
fn rejects_a_non_ethernet_link_type() {
    let mut bytes = write_pcap_file(&[]);
    bytes[20] = 101;
    assert_eq!(PcapFile::parse(&bytes).err(), Some(PcapError::UnsupportedLinkType(101)));
}

#[test]
fn truncated_record_header_ends_the_walk() {
    let mut bytes = write_pcap_file(&[(1, 1, &[7u8, 7])]);
    bytes.extend_from_slice(&[0u8; 10]);
    let pcap = PcapFile::parse(&bytes).unwrap();
    let records = read_all(&pcap);
    assert_eq!(records.len(), 2);
    assert_eq!(records[0].as_ref().unwrap().data, &[7u8, 7]);
    assert!(matches!(records[1], Err(PcapError::TruncatedRecord)));
}

#[test]
fn truncated_record_body_ends_the_walk() {
    let packet = [5u8; 10];
    let bytes = write_pcap_file(&[(1, 1, &packet), (2, 2, &packet)]);
    let cut = &bytes[..bytes.len() - 1];
    let pcap = PcapFile::parse(cut).unwrap();
    let mut iter = pcap.records();
    assert!(matches!(iter.next(), Some(Ok(_))));
    assert!(matches!(iter.next(), Some(Err(PcapError::TruncatedRecord))));
    assert!(iter.next().is_none());
    assert!(iter.next().is_none());
}

#[test]
fn writing_joined_lists_joins_the_records() {
    let a = [1u8, 2];
    let b = [3u8; 7];
    let c = [4u8];
    let first = write_pcap_file(&[(1, 0, &a[..]), (2, 0, &b[..])]);
    let second = write_pcap_file(&[(3, 0, &c[..])]);
    let joined = write_pcap_file(&[(1, 0, &a[..]), (2, 0, &b[..]), (3, 0, &c[..])]);
    let mut expected = first.clone();
    expected.extend_from_slice(&second[24..]);
    assert_eq!(joined, expected);
}

#[test]
fn record_count_is_bounded_by_the_bytes() {
    let mut bytes = write_pcap_file(&[(1, 1, &[]), (2, 2, &[])]);
    bytes.extend_from_slice(&[0u8; 5]);
    let pcap = PcapFile::parse(&bytes).unwrap();
    let records = read_all(&pcap);
    let left = bytes.len() - 24;
    assert!(records.len() <= (left + 15) / 16);
    assert_eq!(records.len(), 3);
    assert!(records[0].is_ok() && records[1].is_ok());
    assert!(matches!(records[2], Err(PcapError::TruncatedRecord)));
}
