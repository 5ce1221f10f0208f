//! Byte-level building blocks shared by the handshake codec and the
//! projection-frame format: big-endian integers and the varint /
//! length-delimited fields the handshake payloads are built from.

use vstd::prelude::*;

verus! {

/// The two big-endian bytes of a 16-bit value.
pub open spec fn u16_be(x: u16) -> Seq<u8> {
    seq![(x / 256) as u8, (x % 256) as u8]
}

/// The 16-bit value read from two big-endian bytes.
pub open spec fn be16(hi: u8, lo: u8) -> u16 {
    (hi as int * 256 + lo as int) as u16
}

pub proof fn lemma_u16_be_round_trip(x: u16)
    ensures
        u16_be(x).len() == 2,
        be16(u16_be(x)[0], u16_be(x)[1]) == x,
{
}

pub proof fn lemma_be16_round_trip(hi: u8, lo: u8)
    ensures
        u16_be(be16(hi, lo)) == seq![hi, lo],
{
    assert((hi as int * 256 + lo as int) / 256 == hi as int && (hi as int * 256 + lo as int) % 256
        == lo as int) by (nonlinear_arith)
        requires
            hi < 256,
            lo < 256,
    ;
    assert(u16_be(be16(hi, lo)) =~= seq![hi, lo]);
}

/// The four big-endian bytes of a 32-bit value.
pub open spec fn u32_be(x: u32) -> Seq<u8> {
    seq![
        (x / 0x1000000) as u8,
        ((x / 0x10000) % 256) as u8,
        ((x / 256) % 256) as u8,
        (x % 256) as u8,
    ]
}

/// The 32-bit value read from four big-endian bytes.
pub open spec fn be32(b0: u8, b1: u8, b2: u8, b3: u8) -> u32 {
    (b0 as int * 0x1000000 + b1 as int * 0x10000 + b2 as int * 256 + b3 as int) as u32
}

pub proof fn lemma_be32_round_trip(b0: u8, b1: u8, b2: u8, b3: u8)
    ensures
        u32_be(be32(b0, b1, b2, b3)) == seq![b0, b1, b2, b3],
{
    let v = b0 as int * 0x1000000 + b1 as int * 0x10000 + b2 as int * 256 + b3 as int;
    assert(v / 0x1000000 == b0 as int && (v / 0x10000) % 256 == b1 as int && (v / 256) % 256 == b2
        as int && v % 256 == b3 as int) by (nonlinear_arith)
        requires
            b0 < 256,
            b1 < 256,
            b2 < 256,
            b3 < 256,
            v == b0 as int * 0x1000000 + b1 as int * 0x10000 + b2 as int * 256 + b3 as int,
    ;
    assert(u32_be(be32(b0, b1, b2, b3)) =~= seq![b0, b1, b2, b3]);
}

/// Split a 16-bit value into its big-endian bytes.
pub fn u16_to_be(x: u16) -> (r: (u8, u8))
    ensures
        seq![r.0, r.1] == u16_be(x),
{
    ((x / 256) as u8, (x % 256) as u8)
}

/// Read a 16-bit value from two big-endian bytes.
pub fn be_to_u16(hi: u8, lo: u8) -> (x: u16)
    ensures
        x == be16(hi, lo),
{
    hi as u16 * 256 + lo as u16
}

/// Split a 32-bit value into its big-endian bytes.
pub fn u32_to_be(x: u32) -> (r: (u8, u8, u8, u8))
    ensures
        seq![r.0, r.1, r.2, r.3] == u32_be(x),
{
    ((x / 0x1000000) as u8, ((x / 0x10000) % 256) as u8, ((x / 256) % 256) as u8, (x % 256) as u8)
}

/// Read a 32-bit value from four big-endian bytes.
pub fn be_to_u32(b0: u8, b1: u8, b2: u8, b3: u8) -> (x: u32)
    ensures
        x == be32(b0, b1, b2, b3),
{
    b0 as u32 * 0x1000000 + b1 as u32 * 0x10000 + b2 as u32 * 256 + b3 as u32
}

/// Base-128 varint encoding, least significant group first, as the
/// handshake payload format uses for integers and field lengths.
pub open spec fn varint(x: nat) -> Seq<u8>
    decreases x,
{
    if x < 128 {
        seq![x as u8]
    } else {
        seq![(x % 128 + 128) as u8] + varint(x / 128)
    }
}

/// Append the varint encoding of `x` to `out`.
pub fn push_varint(out: &mut Vec<u8>, x: u64)
    ensures
        final(out)@ == old(out)@ + varint(x as nat),
{
    let mut v: u64 = x;
    while v >= 128
        invariant
            out@ + varint(v as nat) == old(out)@ + varint(x as nat),
        decreases v,
    {
        let ghost prev = out@;
        out.push((v % 128 + 128) as u8);
        assert(out@ + varint((v / 128) as nat) =~= prev + varint(v as nat));
        v = v / 128;
    }
    out.push(v as u8);
    assert(out@ =~= old(out)@ + varint(x as nat));
}

/// A varint field: one tag byte, then the varint of the value.
pub open spec fn varint_field(tag: u8, value: nat) -> Seq<u8> {
    seq![tag] + varint(value)
}

/// A length-delimited field: one tag byte, the varint of the data's
/// length, then the data itself.
pub open spec fn bytes_field(tag: u8, data: Seq<u8>) -> Seq<u8> {
    seq![tag] + varint(data.len() as nat) + data
}

/// Append a varint field to `out`.
pub fn push_varint_field(out: &mut Vec<u8>, tag: u8, value: u64)
    ensures
        final(out)@ == old(out)@ + varint_field(tag, value as nat),
{
    out.push(tag);
    push_varint(out, value);
    assert(out@ =~= old(out)@ + varint_field(tag, value as nat));
}

/// Append a length-delimited field to `out`.
pub fn push_bytes_field(out: &mut Vec<u8>, tag: u8, data: &Vec<u8>)
    ensures
        final(out)@ == old(out)@ + bytes_field(tag, data@),
{
    out.push(tag);
    push_varint(out, data.len() as u64);
    let mut i: usize = 0;
    while i < data.len()
        invariant
            i <= data@.len(),
            out@ == old(out)@ + seq![tag] + varint(data@.len() as nat) + data@.subrange(
                0,
                i as int,
            ),
        decreases data@.len() - i,
    {
        let ghost prev = out@;
        out.push(data[i]);
        assert(out@ =~= prev.push(data@[i as int]));
        assert(data@.subrange(0, i as int).push(data@[i as int]) =~= data@.subrange(
            0,
            i as int + 1,
        ));
        assert(out@ =~= old(out)@ + seq![tag] + varint(data@.len() as nat) + data@.subrange(
            0,
            i as int + 1,
        ));
        i = i + 1;
    }
    assert(data@.subrange(0, data@.len() as int) =~= data@);
    assert(out@ =~= old(out)@ + bytes_field(tag, data@));
}

} // verus!
