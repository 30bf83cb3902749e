//! Reader and writer for the classic (libpcap) capture file format: a 24-byte
//! global header followed by `(16-byte record header, packet bytes)` pairs.
//! Multi-byte fields are little-endian (the microsecond-resolution magic).

use vstd::prelude::*;
use crate::bytes::{lemma_le32_round_trip, le16_bytes, le32_at, le32_bytes, push_all, push_u16_le, push_u32_le, read_u32_le};

verus! {

/// Magic number of a capture with microsecond timestamps.
pub const PCAP_MAGIC_MICROS: u32 = 0xa1b2_c3d4;

/// Link-layer type of captures whose records are Ethernet frames.
pub const LINKTYPE_ETHERNET: u32 = 1;

/// Length of the global header.
pub const GLOBAL_HEADER_LEN: usize = 24;

/// Length of the header in front of each record.
pub const RECORD_HEADER_LEN: usize = 16;

/// Why a capture (or one of its records) could not be read.
#[derive(Debug, PartialEq, Eq, Structural, Clone, Copy)]
pub enum PcapError {
    /// Fewer bytes than a global header.
    TooShort,
    /// The first four bytes are not the microsecond magic number.
    BadMagic(u32),
    /// The link type is not Ethernet.
    UnsupportedLinkType(u32),
    /// A record header or its packet bytes run past the end of the capture.
    TruncatedRecord,
}

/// A record as a value: seconds, microseconds and the captured bytes.
pub type RecordModel = (u32, u32, Seq<u8>);

/// What reading the global header of `data` yields.
pub open spec fn header_verdict(data: Seq<u8>) -> Result<(), PcapError> {
    if data.len() < GLOBAL_HEADER_LEN {
        Err(PcapError::TooShort)
    } else if le32_at(data, 0) != PCAP_MAGIC_MICROS {
        Err(PcapError::BadMagic(le32_at(data, 0) as u32))
    } else if le32_at(data, 20) != LINKTYPE_ETHERNET {
        Err(PcapError::UnsupportedLinkType(le32_at(data, 20) as u32))
    } else {
        Ok(())
    }
}

/// The first record of `rest` and the bytes after it; `None` once nothing is left.
/// A truncated record leaves nothing behind it.
pub open spec fn next_record(rest: Seq<u8>) -> Option<(Result<RecordModel, PcapError>, Seq<u8>)> {
    if rest.len() == 0 {
        None
    } else if rest.len() < RECORD_HEADER_LEN {
        Some((Err(PcapError::TruncatedRecord), Seq::empty()))
    } else {
        let incl_len = le32_at(rest, 8);
        let body = rest.skip(RECORD_HEADER_LEN as int);
        if body.len() < incl_len {
            Some((Err(PcapError::TruncatedRecord), Seq::empty()))
        } else {
            Some(
                (
                    Ok((le32_at(rest, 0) as u32, le32_at(rest, 4) as u32, body.take(incl_len))),
                    body.skip(incl_len),
                ),
            )
        }
    }
}

/// Every record that iterating over `rest` yields, in order.
pub open spec fn records_of(rest: Seq<u8>) -> Seq<Result<RecordModel, PcapError>>
    decreases rest.len(),
{
    if rest.len() == 0 {
        Seq::empty()
    } else if rest.len() < RECORD_HEADER_LEN {
        seq![Err(PcapError::TruncatedRecord)]
    } else {
        let incl_len = le32_at(rest, 8);
        let body = rest.skip(RECORD_HEADER_LEN as int);
        if body.len() < incl_len {
            seq![Err(PcapError::TruncatedRecord)]
        } else {
            seq![Ok((le32_at(rest, 0) as u32, le32_at(rest, 4) as u32, body.take(incl_len)))]
                + records_of(body.skip(incl_len))
        }
    }
}

/// The global header written in front of every capture: magic, version 2.4,
/// zone 0, accuracy 0, snapshot length 65535 and the Ethernet link type.
pub open spec fn global_header() -> Seq<u8> {
    le32_bytes(PCAP_MAGIC_MICROS) + le16_bytes(2) + le16_bytes(4) + le32_bytes(0) + le32_bytes(
        0,
    ) + le32_bytes(65535) + le32_bytes(LINKTYPE_ETHERNET)
}

/// The bytes of one record: timestamps, the captured and original lengths
/// (both the packet's length cut to 32 bits), then the packet.
pub open spec fn record_bytes(p: RecordModel) -> Seq<u8> {
    le32_bytes(p.0) + le32_bytes(p.1) + le32_bytes(p.2.len() as u32) + le32_bytes(
        p.2.len() as u32,
    ) + p.2
}

/// The records of `packets`, one after another.
pub open spec fn records_bytes(packets: Seq<RecordModel>) -> Seq<u8>
    decreases packets.len(),
{
    if packets.len() == 0 {
        Seq::empty()
    } else {
        records_bytes(packets.drop_last()) + record_bytes(packets.last())
    }
}

/// The whole capture that holds `packets`.
pub open spec fn capture_bytes(packets: Seq<RecordModel>) -> Seq<u8> {
    global_header() + records_bytes(packets)
}

/// The packets passed to the writer, each taken by value.
pub open spec fn packet_models(packets: Seq<(u32, u32, &[u8])>) -> Seq<RecordModel> {
    packets.map_values(|p: (u32, u32, &[u8])| (p.0, p.1, p.2@))
}

/// Every packet's length fits the 32-bit length fields of a record.
pub open spec fn lengths_fit(packets: Seq<RecordModel>) -> bool {
    forall|i: int| 0 <= i < packets.len() ==> #[trigger] packets[i].2.len() <= u32::MAX
}

/// The records of `packets`, each read back successfully.
pub open spec fn all_ok(packets: Seq<RecordModel>) -> Seq<Result<RecordModel, PcapError>> {
    packets.map_values(|p: RecordModel| Ok::<RecordModel, PcapError>(p))
}

proof fn lemma_records_bytes_front(x: RecordModel, rest: Seq<RecordModel>)
    ensures
        records_bytes(seq![x] + rest) == record_bytes(x) + records_bytes(rest),
    decreases rest.len(),
{
    let all = seq![x] + rest;
    if rest.len() == 0 {
        assert(all.drop_last() == Seq::<RecordModel>::empty());
        assert(records_bytes(all) == records_bytes(all.drop_last()) + record_bytes(all.last()));
        assert(records_bytes(Seq::<RecordModel>::empty()) == Seq::<u8>::empty());
        assert(records_bytes(all) == record_bytes(x));
        assert(record_bytes(x) + Seq::<u8>::empty() == record_bytes(x));
    } else {
        lemma_records_bytes_front(x, rest.drop_last());
        assert(all.drop_last() == seq![x] + rest.drop_last());
        assert(all.last() == rest.last());
        assert(records_bytes(all) == records_bytes(all.drop_last()) + record_bytes(all.last()));
        assert(records_bytes(rest) == records_bytes(rest.drop_last()) + record_bytes(rest.last()));
        assert(record_bytes(x) + records_bytes(rest.drop_last()) + record_bytes(rest.last())
            == record_bytes(x) + (records_bytes(rest.drop_last()) + record_bytes(rest.last())));
    }
}

proof fn lemma_read_record_bytes(x: RecordModel, after: Seq<u8>)
    requires
        x.2.len() <= u32::MAX,
    ensures
        records_of(record_bytes(x) + after) == seq![Ok::<RecordModel, PcapError>(x)] + records_of(after),
{
    let len32 = x.2.len() as u32;
    lemma_le32_round_trip(x.0);
    lemma_le32_round_trip(x.1);
    lemma_le32_round_trip(len32);
    let s = record_bytes(x) + after;
    let head = le32_bytes(x.0) + le32_bytes(x.1) + le32_bytes(len32) + le32_bytes(len32);
    assert(record_bytes(x) == head + x.2);
    assert(s == head + (x.2 + after));
    assert(head.len() == 16);
    assert(s.subrange(0, 4) == le32_bytes(x.0));
    assert(s.subrange(4, 8) == le32_bytes(x.1));
    assert(s.subrange(8, 12) == le32_bytes(len32));
    assert(le32_at(s, 0) == le32_at(le32_bytes(x.0), 0));
    assert(le32_at(s, 4) == le32_at(le32_bytes(x.1), 0));
    assert(le32_at(s, 8) == le32_at(le32_bytes(len32), 0));
    assert(len32 == x.2.len());
    let body = s.skip(16);
    assert(body == x.2 + after);
    assert(body.take(x.2.len() as int) == x.2);
    assert(body.skip(x.2.len() as int) == after);
}

proof fn lemma_read_records_bytes(packets: Seq<RecordModel>)
    requires
        lengths_fit(packets),
    ensures
        records_of(records_bytes(packets)) == all_ok(packets),
    decreases packets.len(),
{
    if packets.len() == 0 {
        assert(records_bytes(packets) == Seq::<u8>::empty());
        assert(all_ok(packets) == Seq::<Result<RecordModel, PcapError>>::empty());
    } else {
        let x = packets[0];
        let rest = packets.drop_first();
        assert(packets == seq![x] + rest);
        lemma_records_bytes_front(x, rest);
        assert(lengths_fit(rest)) by {
            assert forall|i: int| 0 <= i < rest.len() implies #[trigger] rest[i].2.len() <= u32::MAX by {
                assert(rest[i] == packets[i + 1]);
            }
        }
        assert(packets[0].2.len() <= u32::MAX);
        lemma_read_records_bytes(rest);
        lemma_read_record_bytes(x, records_bytes(rest));
        assert(all_ok(packets) == seq![Ok::<RecordModel, PcapError>(x)] + all_ok(rest));
    }
}

/// A capture written from `packets` has a valid global header.
pub proof fn lemma_written_header_is_valid(packets: Seq<RecordModel>)
    ensures
        header_verdict(capture_bytes(packets)) is Ok,
        capture_bytes(packets).skip(GLOBAL_HEADER_LEN as int) == records_bytes(packets),
{
    let c = capture_bytes(packets);
    lemma_le32_round_trip(PCAP_MAGIC_MICROS);
    lemma_le32_round_trip(LINKTYPE_ETHERNET);
    let g = global_header();
    assert(g.len() == 24);
    assert(c.subrange(0, 4) == le32_bytes(PCAP_MAGIC_MICROS));
    assert(c.subrange(20, 24) == le32_bytes(LINKTYPE_ETHERNET));
    assert(le32_at(c, 0) == le32_at(le32_bytes(PCAP_MAGIC_MICROS), 0));
    assert(le32_at(c, 20) == le32_at(le32_bytes(LINKTYPE_ETHERNET), 0));
    assert(c.skip(24) == records_bytes(packets));
}

/// Writing packets and reading the capture back gives the same packets, in
/// order, each with its timestamps, provided every length fits the record's
/// 32-bit length field.
pub proof fn lemma_write_then_read(packets: Seq<RecordModel>)
    requires
        lengths_fit(packets),
    ensures
        header_verdict(capture_bytes(packets)) is Ok,
        records_of(capture_bytes(packets).skip(GLOBAL_HEADER_LEN as int)) == all_ok(packets),
{
    lemma_written_header_is_valid(packets);
    lemma_read_records_bytes(packets);
}

/// Calling `next` until it gives `None` yields exactly `records_of` the
/// bytes left: the first record is what `next` reads, the rest are the
/// records of what it leaves.
pub proof fn lemma_records_follow_next(rest: Seq<u8>)
    ensures
        records_of(rest) == match next_record(rest) {
            None => Seq::<Result<RecordModel, PcapError>>::empty(),
            Some((first, after)) => seq![first] + records_of(after),
        },
{
    if rest.len() != 0 && rest.len() < RECORD_HEADER_LEN {
        assert(seq![Err::<RecordModel, PcapError>(PcapError::TruncatedRecord)] + records_of(Seq::empty())
            == seq![Err::<RecordModel, PcapError>(PcapError::TruncatedRecord)]);
    } else if rest.len() >= RECORD_HEADER_LEN && rest.skip(RECORD_HEADER_LEN as int).len() < le32_at(rest, 8) {
        assert(seq![Err::<RecordModel, PcapError>(PcapError::TruncatedRecord)] + records_of(Seq::empty())
            == seq![Err::<RecordModel, PcapError>(PcapError::TruncatedRecord)]);
    }
}

/// The records of two packet lists written one after the other are the
/// records of the joined list.
pub proof fn lemma_records_bytes_concat(first: Seq<RecordModel>, second: Seq<RecordModel>)
    ensures
        records_bytes(first + second) == records_bytes(first) + records_bytes(second),
    decreases second.len(),
{
    if second.len() == 0 {
        assert(first + second == first);
        assert(records_bytes(first) + Seq::<u8>::empty() == records_bytes(first));
    } else {
        let joined = first + second;
        assert(joined.drop_last() == first + second.drop_last());
        assert(joined.last() == second.last());
        lemma_records_bytes_concat(first, second.drop_last());
        assert(records_bytes(first) + records_bytes(second.drop_last()) + record_bytes(second.last())
            == records_bytes(first) + (records_bytes(second.drop_last()) + record_bytes(second.last())));
    }
}

/// Writing a joined packet list gives the capture of the first list
/// followed by the records of the second: one global header, then every
/// record in order.
pub proof fn lemma_capture_of_concat(first: Seq<RecordModel>, second: Seq<RecordModel>)
    ensures
        capture_bytes(first + second) == capture_bytes(first) + records_bytes(second),
{
    lemma_records_bytes_concat(first, second);
    assert(global_header() + (records_bytes(first) + records_bytes(second))
        == global_header() + records_bytes(first) + records_bytes(second));
}

/// The walk over any bytes ends: it yields at most one record per 16 bytes
/// (rounded up), and only its last item can be an error.
pub proof fn lemma_records_are_bounded(rest: Seq<u8>)
    ensures
        records_of(rest).len() <= (rest.len() + 15) / 16,
        forall|i: int| 0 <= i < records_of(rest).len() - 1 ==> #[trigger] records_of(rest)[i] is Ok,
    decreases rest.len(),
{
    if rest.len() != 0 && rest.len() >= RECORD_HEADER_LEN {
        let incl_len = le32_at(rest, 8);
        let body = rest.skip(RECORD_HEADER_LEN as int);
        if body.len() >= incl_len {
            let after = body.skip(incl_len);
            let first: Result<RecordModel, PcapError> = Ok(
                (le32_at(rest, 0) as u32, le32_at(rest, 4) as u32, body.take(incl_len)),
            );
            lemma_records_are_bounded(after);
            let tail = records_of(after);
            assert(records_of(rest) == seq![first] + tail);
            assert(after.len() + 16 <= rest.len());
            assert((after.len() + 15) / 16 + 1 <= (rest.len() + 15) / 16) by (nonlinear_arith)
                requires
                    after.len() + 16 <= rest.len(),
            ;
            assert forall|i: int| 0 <= i < records_of(rest).len() - 1 implies #[trigger] records_of(rest)[i] is Ok by {
                if i > 0 {
                    assert(records_of(rest)[i] == tail[i - 1]);
                }
            }
        }
    }
}

/// The number that bytes `s[i..i + n]` spell, least significant first.
pub open spec fn little_endian(s: Seq<u8>, i: int, n: nat) -> int
    decreases n,
{
    if n == 0 {
        0
    } else {
        s[i] + 256 * little_endian(s, i + 1, (n - 1) as nat)
    }
}

/// The global header is accepted exactly when it is at least 24 bytes long,
/// its first four bytes are the microsecond magic and bytes 20..24 name the
/// Ethernet link type (both little-endian); the version, zone, accuracy and
/// snapshot-length fields in between are not looked at.
pub proof fn lemma_header_accepts_magic_and_link_type(data: Seq<u8>)
    ensures
        header_verdict(data) is Ok <==> (data.len() >= 24 && little_endian(data, 0, 4) == 0xa1b2_c3d4
            && little_endian(data, 20, 4) == 1),
        data.len() < 24 ==> header_verdict(data) == Err::<(), PcapError>(PcapError::TooShort),
        data.len() >= 24 && little_endian(data, 0, 4) != 0xa1b2_c3d4 ==> header_verdict(data)
            == Err::<(), PcapError>(PcapError::BadMagic(little_endian(data, 0, 4) as u32)),
{
    reveal_with_fuel(little_endian, 5);
}

/// A record's length is read from its included-length field (bytes 8..12,
/// little-endian); the original-length field (bytes 12..16) is not looked
/// at. Where that many bytes follow the 16-byte header, the record is its
/// timestamps and exactly those bytes, and reading goes on right after them.
pub proof fn lemma_record_length_is_the_included_length(rest: Seq<u8>)
    requires
        rest.len() >= 16,
        rest.len() - 16 >= little_endian(rest, 8, 4),
    ensures
        next_record(rest) == Some(
            (
                Ok::<RecordModel, PcapError>(
                    (
                        little_endian(rest, 0, 4) as u32,
                        little_endian(rest, 4, 4) as u32,
                        rest.subrange(16, 16 + little_endian(rest, 8, 4)),
                    ),
                ),
                rest.skip(16 + little_endian(rest, 8, 4)),
            ),
        ),
{
    reveal_with_fuel(little_endian, 5);
    let incl = le32_at(rest, 8);
    assert(incl == little_endian(rest, 8, 4));
    assert(rest.skip(16).take(incl) =~= rest.subrange(16, 16 + incl));
    assert(rest.skip(16).skip(incl) =~= rest.skip(16 + incl));
}

/// Two record headers that differ only in their original-length fields
/// are read alike, and so are the captures that start with them.
pub proof fn lemma_original_length_is_ignored(rest: Seq<u8>, other: Seq<u8>)
    requires
        rest.len() == other.len(),
        forall|i: int| 0 <= i < rest.len() && !(12 <= i < 16) ==> rest[i] == other[i],
    ensures
        next_record(rest) == next_record(other),
        records_of(rest) == records_of(other),
{
    if rest.len() >= 16 {
        assert(rest.skip(16) =~= other.skip(16));
        assert(le32_at(rest, 0) == le32_at(other, 0));
        assert(le32_at(rest, 4) == le32_at(other, 4));
        assert(le32_at(rest, 8) == le32_at(other, 8));
    }
}

/// One record of a capture: its timestamp and the captured bytes.
#[derive(Debug)]
pub struct PcapRecord<'a> {
    pub timestamp_secs: u32,
    pub timestamp_micros: u32,
    pub data: &'a [u8],
}

impl<'a> View for PcapRecord<'a> {
    type V = RecordModel;

    open spec fn view(&self) -> RecordModel {
        (self.timestamp_secs, self.timestamp_micros, self.data@)
    }
}

/// A record read from a capture, taken by value.
pub open spec fn record_result_model(r: Result<PcapRecord, PcapError>) -> Result<
    RecordModel,
    PcapError,
> {
    match r {
        Ok(rec) => Ok(rec@),
        Err(e) => Err(e),
    }
}

/// A capture whose global header has been checked.
pub struct PcapFile<'a> {
    data: &'a [u8],
}

impl<'a> View for PcapFile<'a> {
    type V = Seq<u8>;

    closed spec fn view(&self) -> Seq<u8> {
        self.data@
    }
}

impl<'a> PcapFile<'a> {
    #[verifier::type_invariant]
    closed spec fn header_is_valid(self) -> bool {
        header_verdict(self.data@) is Ok
    }

    /// Parses (and validates) the global header of a pcap byte buffer.
    pub fn parse(data: &'a [u8]) -> (r: Result<Self, PcapError>)
        ensures
            match r {
                Ok(file) => header_verdict(data@) is Ok && file@ == data@,
                Err(e) => header_verdict(data@) == Err::<(), PcapError>(e),
            },
    {
        if data.len() < GLOBAL_HEADER_LEN {
            return Err(PcapError::TooShort);
        }
        let magic = read_u32_le(data, 0);
        if magic != PCAP_MAGIC_MICROS {
            return Err(PcapError::BadMagic(magic));
        }
        let network = read_u32_le(data, 20);
        if network != LINKTYPE_ETHERNET {
            return Err(PcapError::UnsupportedLinkType(network));
        }
        Ok(PcapFile { data })
    }

    /// The records that follow the global header.
    pub fn records(&self) -> (it: PcapRecordIter<'a>)
        ensures
            header_verdict(self@) is Ok,
            it@ == self@.skip(GLOBAL_HEADER_LEN as int),
    {
        proof {
            use_type_invariant(self);
        }
        PcapRecordIter { data: &self.data[GLOBAL_HEADER_LEN..self.data.len()] }
    }
}

/// Walks the records of a capture; the bytes not yet read are its view.
pub struct PcapRecordIter<'a> {
    data: &'a [u8],
}

impl<'a> View for PcapRecordIter<'a> {
    type V = Seq<u8>;

    closed spec fn view(&self) -> Seq<u8> {
        self.data@
    }
}

impl<'a> PcapRecordIter<'a> {
    /// The next record, or `None` once every byte has been read. After a
    /// truncated record nothing is left, so the walk always ends.
    pub fn next(&mut self) -> (r: Option<Result<PcapRecord<'a>, PcapError>>)
        ensures
            match r {
                None => next_record(old(self)@) is None && final(self)@ == old(self)@,
                Some(rec) => next_record(old(self)@) == Some(
                    (record_result_model(rec), final(self)@),
                ),
            },
    {
        if self.data.len() == 0 {
            return None;
        }
        if self.data.len() < RECORD_HEADER_LEN {
            self.data = &[];
            return Some(Err(PcapError::TruncatedRecord));
        }
        let ts_sec = read_u32_le(self.data, 0);
        let ts_usec = read_u32_le(self.data, 4);
        let incl_len = read_u32_le(self.data, 8) as usize;
        let rest = &self.data[RECORD_HEADER_LEN..self.data.len()];
        if rest.len() < incl_len {
            self.data = &[];
            return Some(Err(PcapError::TruncatedRecord));
        }
        let (record_data, remaining) = rest.split_at(incl_len);
        self.data = remaining;
        Some(Ok(PcapRecord { timestamp_secs: ts_sec, timestamp_micros: ts_usec, data: record_data }))
    }
}

/// Builds a synthetic pcap file (Ethernet link type) from raw frame bytes.
/// Each packet's length field holds its length cut to 32 bits.
pub fn write_pcap_file(packets: &[(u32, u32, &[u8])]) -> (out: Vec<u8>)
    ensures
        out@ == capture_bytes(packet_models(packets@)),
{
    let mut out: Vec<u8> = Vec::new();
    push_u32_le(&mut out, PCAP_MAGIC_MICROS);
    push_u16_le(&mut out, 2);
    push_u16_le(&mut out, 4);
    push_u32_le(&mut out, 0);
    push_u32_le(&mut out, 0);
    push_u32_le(&mut out, 65535);
    push_u32_le(&mut out, LINKTYPE_ETHERNET);
    let ghost models = packet_models(packets@);
    assert(out@ == global_header());
    assert(models.take(0) == Seq::<RecordModel>::empty());
    let mut i: usize = 0;
    while i < packets.len()
        invariant
            i <= packets@.len(),
            models == packet_models(packets@),
            out@ == global_header() + records_bytes(models.take(i as int)),
        decreases packets@.len() - i,
    {
        let (sec, usec, data) = packets[i];
        let len32 = (data.len() as u32);
        push_u32_le(&mut out, sec);
        push_u32_le(&mut out, usec);
        push_u32_le(&mut out, len32);
        push_u32_le(&mut out, len32);
        push_all(&mut out, data);
        proof {
            let next = models.take(i + 1);
            assert(next.drop_last() == models.take(i as int));
            assert(next.last() == (sec, usec, data@));
            assert(len32 == data@.len() as u32);
        }
        i = i + 1;
    }
    assert(models.take(i as int) == models);
    out
}

} // verus!
