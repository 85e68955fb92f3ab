//! Wire codec: big-endian integers and byte strings.
//!
//! All multi-byte integers travel most significant byte first. Encoders append
//! to a growing buffer; decoders read at a fixed offset of a received buffer.

use vstd::prelude::*;

verus! {

/// What can go wrong when bytes are turned back into values.
#[derive(Clone, Copy, Debug, PartialEq, Eq, Structural)]
pub enum CodecError {
    /// The buffer ended before the value did.
    UnexpectedEof,
    /// Bytes were left over after the last field.
    TrailingBytes,
    /// A byte that selects an enumeration member named none.
    InvalidTag,
}

/// The two bytes of `x`, high byte first.
pub open spec fn be16(x: u16) -> Seq<u8> {
    seq![(x / 256) as u8, (x % 256) as u8]
}

/// The four bytes of `x`, most significant first.
pub open spec fn be32(x: u32) -> Seq<u8> {
    be16((x / 0x1_0000) as u16) + be16((x % 0x1_0000) as u16)
}

/// The eight bytes of `x`, most significant first.
pub open spec fn be64(x: u64) -> Seq<u8> {
    be32((x / 0x1_0000_0000) as u32) + be32((x % 0x1_0000_0000) as u32)
}

/// The 16-bit integer whose big-endian bytes stand at `s[i]`, `s[i + 1]`.
pub open spec fn u16_at(s: Seq<u8>, i: int) -> u16 {
    (s[i] as int * 256 + s[i + 1] as int) as u16
}

/// The 32-bit integer whose big-endian bytes stand at `s[i..i + 4]`.
pub open spec fn u32_at(s: Seq<u8>, i: int) -> u32 {
    (u16_at(s, i) as int * 0x1_0000 + u16_at(s, i + 2) as int) as u32
}

/// The 64-bit integer whose big-endian bytes stand at `s[i..i + 8]`.
pub open spec fn u64_at(s: Seq<u8>, i: int) -> u64 {
    (u32_at(s, i) as int * 0x1_0000_0000 + u32_at(s, i + 4) as int) as u64
}

/// Reading back what `be16` wrote gives the integer again, wherever in a
/// buffer the two bytes stand.
pub proof fn lemma_u16_round_trip(s: Seq<u8>, i: int, x: u16)
    requires
        0 <= i,
        i + 2 <= s.len(),
        s.subrange(i, i + 2) == be16(x),
    ensures
        u16_at(s, i) == x,
{
    assert(s[i] == s.subrange(i, i + 2)[0]);
    assert(s[i + 1] == s.subrange(i, i + 2)[1]);
}

/// Reading back what `be32` wrote gives the integer again.
pub proof fn lemma_u32_round_trip(s: Seq<u8>, i: int, x: u32)
    requires
        0 <= i,
        i + 4 <= s.len(),
        s.subrange(i, i + 4) == be32(x),
    ensures
        u32_at(s, i) == x,
{
    let w = s.subrange(i, i + 4);
    let hi = s.subrange(i, i + 2);
    let lo = s.subrange(i + 2, i + 4);
    assert(hi[0] == w[0] && hi[1] == w[1] && lo[0] == w[2] && lo[1] == w[3]);
    assert(hi =~= be16((x / 0x1_0000) as u16));
    assert(lo =~= be16((x % 0x1_0000) as u16));
    lemma_u16_round_trip(s, i, (x / 0x1_0000) as u16);
    lemma_u16_round_trip(s, i + 2, (x % 0x1_0000) as u16);
}

/// Reading back what `be64` wrote gives the integer again.
pub proof fn lemma_u64_round_trip(s: Seq<u8>, i: int, x: u64)
    requires
        0 <= i,
        i + 8 <= s.len(),
        s.subrange(i, i + 8) == be64(x),
    ensures
        u64_at(s, i) == x,
{
    let w = s.subrange(i, i + 8);
    let hi = s.subrange(i, i + 4);
    let lo = s.subrange(i + 4, i + 8);
    assert(hi[0] == w[0] && hi[1] == w[1] && hi[2] == w[2] && hi[3] == w[3]);
    assert(lo[0] == w[4] && lo[1] == w[5] && lo[2] == w[6] && lo[3] == w[7]);
    assert(hi =~= be32((x / 0x1_0000_0000) as u32));
    assert(lo =~= be32((x % 0x1_0000_0000) as u32));
    lemma_u32_round_trip(s, i, (x / 0x1_0000_0000) as u32);
    lemma_u32_round_trip(s, i + 4, (x % 0x1_0000_0000) as u32);
}

/// The serialized width of each integer type is constant.
pub proof fn lemma_integer_widths(a: u16, b: u32, c: u64)
    ensures
        be16(a).len() == 2,
        be32(b).len() == 4,
        be64(c).len() == 8,
{
}

/// Appends one byte.
pub fn put_u8(buf: &mut Vec<u8>, x: u8)
    ensures
        final(buf)@ == old(buf)@ + seq![x],
{
    buf.push(x);
    assert(buf@ =~= old(buf)@ + seq![x]);
}

/// Appends `x` as two bytes, high byte first.
pub fn put_u16(buf: &mut Vec<u8>, x: u16)
    ensures
        final(buf)@ == old(buf)@ + be16(x),
{
    buf.push((x / 256) as u8);
    buf.push((x % 256) as u8);
    assert(buf@ =~= old(buf)@ + be16(x));
}

/// Appends `x` as four bytes, most significant first.
pub fn put_u32(buf: &mut Vec<u8>, x: u32)
    ensures
        final(buf)@ == old(buf)@ + be32(x),
{
    put_u16(buf, (x / 0x1_0000) as u16);
    put_u16(buf, (x % 0x1_0000) as u16);
    assert(buf@ =~= old(buf)@ + be32(x));
}

/// Appends `x` as eight bytes, most significant first.
pub fn put_u64(buf: &mut Vec<u8>, x: u64)
    ensures
        final(buf)@ == old(buf)@ + be64(x),
{
    put_u32(buf, (x / 0x1_0000_0000) as u32);
    put_u32(buf, (x % 0x1_0000_0000) as u32);
    assert(buf@ =~= old(buf)@ + be64(x));
}

/// Appends a byte string as it stands, without a length prefix.
pub fn put_bytes(buf: &mut Vec<u8>, bytes: &[u8])
    ensures
        final(buf)@ == old(buf)@ + bytes@,
{
    let mut i: usize = 0;
    while i < bytes.len()
        invariant
            i <= bytes@.len(),
            buf@ == old(buf)@ + bytes@.subrange(0, i as int),
        decreases bytes@.len() - i,
    {
        buf.push(bytes[i]);
        i += 1;
        assert(buf@ =~= old(buf)@ + bytes@.subrange(0, i as int));
    }
    assert(bytes@.subrange(0, i as int) =~= bytes@);
}

/// Reads the 16-bit integer at offset `at`.
pub fn read_u16(data: &[u8], at: usize) -> (x: u16)
    requires
        at + 2 <= data@.len(),
    ensures
        x == u16_at(data@, at as int),
{
    (data[at] as u16) * 256 + (data[at + 1] as u16)
}

/// Reads the 32-bit integer at offset `at`.
pub fn read_u32(data: &[u8], at: usize) -> (x: u32)
    requires
        at + 4 <= data@.len(),
    ensures
        x == u32_at(data@, at as int),
{
    let len: usize = data.len();
    let hi: u16 = read_u16(data, at);
    let lo: u16 = read_u16(data, at + 2);
    (hi as u32) * 0x1_0000 + (lo as u32)
}

/// Reads the 64-bit integer at offset `at`.
pub fn read_u64(data: &[u8], at: usize) -> (x: u64)
    requires
        at + 8 <= data@.len(),
    ensures
        x == u64_at(data@, at as int),
{
    let len: usize = data.len();
    let hi: u32 = read_u32(data, at);
    let lo: u32 = read_u32(data, at + 4);
    (hi as u64) * 0x1_0000_0000 + (lo as u64)
}

/// Copies the bytes from offset `from` up to, not including, offset `to`.
pub fn read_bytes(data: &[u8], from: usize, to: usize) -> (out: Vec<u8>)
    requires
        from <= to <= data@.len(),
    ensures
        out@ == data@.subrange(from as int, to as int),
{
    let mut out: Vec<u8> = Vec::new();
    let mut i: usize = from;
    while i < to
        invariant
            from <= i <= to <= data@.len(),
            out@ == data@.subrange(from as int, i as int),
        decreases to - i,
    {
        out.push(data[i]);
        i += 1;
        assert(out@ =~= data@.subrange(from as int, i as int));
    }
    out
}

/// Whether two byte strings are equal.
pub fn bytes_eq(a: &[u8], b: &[u8]) -> (r: bool)
    ensures
        r == (a@ == b@),
{
    if a.len() != b.len() {
        return false;
    }
    let mut i: usize = 0;
    while i < a.len()
        invariant
            i <= a@.len(),
            a@.len() == b@.len(),
            a@.subrange(0, i as int) == b@.subrange(0, i as int),
        decreases a@.len() - i,
    {
        if a[i] != b[i] {
            assert(a@[i as int] != b@[i as int]);
            return false;
        }
        i += 1;
        assert(a@.subrange(0, i as int) =~= a@.subrange(0, i as int - 1).push(a@[i as int - 1]));
        assert(b@.subrange(0, i as int) =~= b@.subrange(0, i as int - 1).push(b@[i as int - 1]));
    }
    assert(a@ =~= a@.subrange(0, i as int));
    assert(b@ =~= b@.subrange(0, i as int));
    true
}

/// Copies a whole byte string.
pub fn copy_bytes(data: &[u8]) -> (out: Vec<u8>)
    ensures
        out@ == data@,
{
    let out = read_bytes(data, 0, data.len());
    assert(out@ =~= data@);
    out
}

} // verus!
