//! Fixed-width integers as they appear on the wire, in both byte orders.

use vstd::prelude::*;

verus! {

/// The 16-bit big-endian value stored at `s[i..i + 2]`.
pub open spec fn be16_at(s: Seq<u8>, i: int) -> int {
    s[i] * 256 + s[i + 1]
}

/// The 32-bit big-endian value stored at `s[i..i + 4]`.
pub open spec fn be32_at(s: Seq<u8>, i: int) -> int {
    be16_at(s, i) * 65536 + be16_at(s, i + 2)
}

/// The 64-bit big-endian value stored at `s[i..i + 8]`.
pub open spec fn be64_at(s: Seq<u8>, i: int) -> int {
    be32_at(s, i) * 4294967296 + be32_at(s, i + 4)
}

/// The 32-bit little-endian value stored at `s[i..i + 4]`.
pub open spec fn le32_at(s: Seq<u8>, i: int) -> int {
    s[i] + s[i + 1] * 256 + s[i + 2] * 65536 + s[i + 3] * 16777216
}

/// The two bytes of `v`, least significant first.
pub open spec fn le16_bytes(v: u16) -> Seq<u8> {
    seq![(v % 256) as u8, (v / 256) as u8]
}

/// The four bytes of `v`, least significant first.
pub open spec fn le32_bytes(v: u32) -> Seq<u8> {
    seq![(v % 256) as u8, ((v / 256) % 256) as u8, ((v / 65536) % 256) as u8, (v / 16777216) as u8]
}

/// The two bytes of `v`, most significant first.
pub open spec fn be16_bytes(v: u16) -> Seq<u8> {
    seq![(v / 256) as u8, (v % 256) as u8]
}

/// The four bytes of `v`, most significant first.
pub open spec fn be32_bytes(v: u32) -> Seq<u8> {
    seq![(v / 16777216) as u8, ((v / 65536) % 256) as u8, ((v / 256) % 256) as u8, (v % 256) as u8]
}

/// The eight bytes of `v`, most significant first.
pub open spec fn be64_bytes(v: u64) -> Seq<u8> {
    be32_bytes((v / 4294967296) as u32) + be32_bytes((v % 4294967296) as u32)
}

/// Reading back the little-endian bytes of a value gives the value.
pub proof fn lemma_le32_round_trip(v: u32)
    ensures
        le32_bytes(v).len() == 4,
        le32_at(le32_bytes(v), 0) == v,
{
    let b = le32_bytes(v);
    assert(b[0] + b[1] * 256 + b[2] * 65536 + b[3] * 16777216 == v) by (nonlinear_arith)
        requires
            b[0] == v % 256,
            b[1] == (v / 256) % 256,
            b[2] == (v / 65536) % 256,
            b[3] == v / 16777216,
            0 <= v < 4294967296,
    ;
}

/// Reads the little-endian `u32` at `s[i..i + 4]`.
pub fn read_u32_le(s: &[u8], i: usize) -> (v: u32)
    requires
        i + 4 <= s.len(),
    ensures
        v == le32_at(s@, i as int),
{
    (s[i] as u32) + (s[i + 1] as u32) * 256 + (s[i + 2] as u32) * 65536 + (s[i + 3] as u32)
        * 16777216
}

/// Reads the big-endian `u16` at `s[i..i + 2]`.
pub fn read_u16_be(s: &[u8], i: usize) -> (v: u16)
    requires
        i + 2 <= s.len(),
    ensures
        v == be16_at(s@, i as int),
{
    (s[i] as u16) * 256 + (s[i + 1] as u16)
}

/// Reads the big-endian `u32` at `s[i..i + 4]`.
pub fn read_u32_be(s: &[u8], i: usize) -> (v: u32)
    requires
        i + 4 <= s.len(),
    ensures
        v == be32_at(s@, i as int),
{
    let hi = read_u16_be(s, i) as u32;
    let lo = read_u16_be(s, i + 2) as u32;
    hi * 65536 + lo
}

/// Reads the big-endian `u64` at `s[i..i + 8]`.
pub fn read_u64_be(s: &[u8], i: usize) -> (v: u64)
    requires
        i + 8 <= s.len(),
    ensures
        v == be64_at(s@, i as int),
{
    let hi = read_u32_be(s, i) as u64;
    let lo = read_u32_be(s, i + 4) as u64;
    hi * 4294967296 + lo
}

/// Appends `v` least significant byte first.
pub fn push_u16_le(out: &mut Vec<u8>, v: u16)
    ensures
        final(out)@ == old(out)@ + le16_bytes(v),
{
    out.push((v % 256) as u8);
    out.push((v / 256) as u8);
}

/// Appends `v` least significant byte first.
pub fn push_u32_le(out: &mut Vec<u8>, v: u32)
    ensures
        final(out)@ == old(out)@ + le32_bytes(v),
{
    out.push((v % 256) as u8);
    out.push(((v / 256) % 256) as u8);
    out.push(((v / 65536) % 256) as u8);
    out.push((v / 16777216) as u8);
}

/// Appends `v` most significant byte first.
pub fn push_u16_be(out: &mut Vec<u8>, v: u16)
    ensures
        final(out)@ == old(out)@ + be16_bytes(v),
{
    out.push((v / 256) as u8);
    out.push((v % 256) as u8);
}

/// Appends `v` most significant byte first.
pub fn push_u32_be(out: &mut Vec<u8>, v: u32)
    ensures
        final(out)@ == old(out)@ + be32_bytes(v),
{
    out.push((v / 16777216) as u8);
    out.push(((v / 65536) % 256) as u8);
    out.push(((v / 256) % 256) as u8);
    out.push((v % 256) as u8);
}

/// Appends `v` most significant byte first.
pub fn push_u64_be(out: &mut Vec<u8>, v: u64)
    ensures
        final(out)@ == old(out)@ + be64_bytes(v),
{
    push_u32_be(out, (v / 4294967296) as u32);
    push_u32_be(out, (v % 4294967296) as u32);
}

/// Appends every byte of `bytes`.
pub fn push_all(out: &mut Vec<u8>, bytes: &[u8])
    ensures
        final(out)@ == old(out)@ + bytes@,
{
    let ghost start = out@;
    let mut i: usize = 0;
    while i < bytes.len()
        invariant
            i <= bytes@.len(),
            out@ == start + bytes@.take(i as int),
        decreases bytes@.len() - i,
    {
        out.push(bytes[i]);
        i = i + 1;
        assert(bytes@.take(i as int) == bytes@.take(i - 1) + seq![bytes@[i - 1]]);
    }
    assert(bytes@.take(i as int) == bytes@);
}

} // verus!
