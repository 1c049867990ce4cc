//! Little-endian integers and length-prefixed strings, as records hold them on the wire.

use vstd::prelude::*;

verus! {

/// The number that four bytes hold, least significant byte first.
pub open spec fn u32_le(b: Seq<u8>) -> int
    recommends
        b.len() == 4,
{
    b[0] as int + b[1] as int * 0x100 + b[2] as int * 0x1_0000 + b[3] as int * 0x100_0000
}

/// The number that eight bytes hold, least significant byte first.
pub open spec fn u64_le(b: Seq<u8>) -> int
    recommends
        b.len() == 8,
{
    u32_le(b.subrange(0, 4)) + u32_le(b.subrange(4, 8)) * 0x1_0000_0000
}

/// The four bytes that hold `v`, least significant byte first.
pub open spec fn u32_le_bytes(v: u32) -> Seq<u8> {
    seq![
        (v % 0x100) as u8,
        ((v / 0x100) % 0x100) as u8,
        ((v / 0x1_0000) % 0x100) as u8,
        (v / 0x100_0000) as u8,
    ]
}

/// The eight bytes that hold `v`, least significant byte first.
pub open spec fn u64_le_bytes(v: u64) -> Seq<u8> {
    u32_le_bytes((v % 0x1_0000_0000) as u32) + u32_le_bytes((v / 0x1_0000_0000) as u32)
}

/// The unsigned number with the same 64 bits as `v` in two's complement.
pub open spec fn twos_complement(v: i64) -> u64 {
    if v >= 0 {
        v as u64
    } else {
        (v + 0x1_0000_0000_0000_0000) as u64
    }
}

/// The eight bytes that hold the signed `v`, least significant byte first.
pub open spec fn i64_le_bytes(v: i64) -> Seq<u8> {
    u64_le_bytes(twos_complement(v))
}

/// A string on the wire: the length of its UTF-8 bytes in four bytes, then the bytes.
pub open spec fn string_wire(s: Seq<char>) -> Seq<u8> {
    let bytes = vstd::utf8::encode_utf8(s);
    u32_le_bytes(bytes.len() as u32) + bytes
}

/// The byte that stands for a flag on the wire.
pub open spec fn bool_wire(flag: bool) -> u8 {
    if flag {
        1u8
    } else {
        0u8
    }
}

/// Four bytes read back give the number that was written.
pub proof fn lemma_u32_le_round_trip(v: u32)
    ensures
        u32_le_bytes(v).len() == 4,
        u32_le(u32_le_bytes(v)) == v,
{
}

/// Eight bytes read back give the number that was written.
pub proof fn lemma_u64_le_round_trip(v: u64)
    ensures
        u64_le_bytes(v).len() == 8,
        u64_le(u64_le_bytes(v)) == v,
{
    let low = (v % 0x1_0000_0000) as u32;
    let high = (v / 0x1_0000_0000) as u32;
    lemma_u32_le_round_trip(low);
    lemma_u32_le_round_trip(high);
    assert(u64_le_bytes(v).subrange(0, 4) =~= u32_le_bytes(low));
    assert(u64_le_bytes(v).subrange(4, 8) =~= u32_le_bytes(high));
}

/// Reads the number held in the four bytes of `data` that start at `at`.
pub fn read_u32_le(data: &[u8], at: usize) -> (v: u32)
    requires
        at + 4 <= data@.len(),
    ensures
        v == u32_le(data@.subrange(at as int, at + 4)),
{
    let b0: u32 = data[at] as u32;
    let b1: u32 = data[at + 1] as u32;
    let b2: u32 = data[at + 2] as u32;
    let b3: u32 = data[at + 3] as u32;
    b0 + b1 * 0x100 + b2 * 0x1_0000 + b3 * 0x100_0000
}

/// Reads the number held in the eight bytes of `data` that start at `at`.
pub fn read_u64_le(data: &[u8], at: usize) -> (v: u64)
    requires
        at + 8 <= data@.len(),
    ensures
        v == u64_le(data@.subrange(at as int, at + 8)),
{
    let len: usize = data.len();
    assert(at + 8 <= len);
    let low: u64 = read_u32_le(data, at) as u64;
    let high: u64 = read_u32_le(data, at + 4) as u64;
    proof {
        let whole = data@.subrange(at as int, at + 8);
        assert(whole.subrange(0, 4) =~= data@.subrange(at as int, at + 4));
        assert(whole.subrange(4, 8) =~= data@.subrange(at + 4, at + 8));
    }
    low + high * 0x1_0000_0000
}

/// Appends `bytes` to `out`.
pub fn push_all(out: &mut Vec<u8>, bytes: &[u8])
    ensures
        final(out)@ == old(out)@ + bytes@,
{
    let mut i: usize = 0;
    while i < bytes.len()
        invariant
            i <= bytes@.len(),
            out@ == old(out)@ + bytes@.subrange(0, i as int),
        decreases bytes@.len() - i,
    {
        out.push(bytes[i]);
        i += 1;
        assert(out@ =~= old(out)@ + bytes@.subrange(0, i as int));
    }
    assert(bytes@.subrange(0, bytes@.len() as int) =~= bytes@);
}

/// Appends the four bytes that hold `v`.
pub fn push_u32_le(out: &mut Vec<u8>, v: u32)
    ensures
        final(out)@ == old(out)@ + u32_le_bytes(v),
{
    out.push((v % 0x100) as u8);
    out.push(((v / 0x100) % 0x100) as u8);
    out.push(((v / 0x1_0000) % 0x100) as u8);
    out.push((v / 0x100_0000) as u8);
    assert(out@ =~= old(out)@ + u32_le_bytes(v));
}

/// Appends the eight bytes that hold `v`.
pub fn push_u64_le(out: &mut Vec<u8>, v: u64)
    ensures
        final(out)@ == old(out)@ + u64_le_bytes(v),
{
    push_u32_le(out, (v % 0x1_0000_0000) as u32);
    push_u32_le(out, (v / 0x1_0000_0000) as u32);
    assert(out@ =~= old(out)@ + u64_le_bytes(v));
}

/// Appends the eight bytes that hold the signed `v`.
pub fn push_i64_le(out: &mut Vec<u8>, v: i64)
    ensures
        final(out)@ == old(out)@ + i64_le_bytes(v),
{
    let bits: u64 = if v >= 0 {
        v as u64
    } else {
        ((v + 0x7fff_ffff_ffff_ffff) + 1) as u64 + 0x8000_0000_0000_0000
    };
    push_u64_le(out, bits);
}

/// Appends the byte that stands for `flag`.
pub fn push_bool(out: &mut Vec<u8>, flag: bool)
    ensures
        final(out)@ == old(out)@.push(bool_wire(flag)),
{
    out.push(if flag { 1u8 } else { 0u8 });
}

/// Appends `s` as a length-prefixed string.
pub fn push_string(out: &mut Vec<u8>, s: &String)
    requires
        vstd::utf8::encode_utf8(s@).len() <= 0xffff_ffff,
    ensures
        final(out)@ == old(out)@ + string_wire(s@),
{
    let bytes = s.as_str().as_bytes();
    push_u32_le(out, bytes.len() as u32);
    push_all(out, bytes);
    assert(out@ =~= old(out)@ + string_wire(s@));
}

} // verus!
