//! Projection frames: the traffic the proxy shuttles between the mobile
//! device and the head unit.
//!
//! A frame starts with `channel: u8 | flags: u8 | len: u16 BE`.  When the
//! two frame-type bits of `flags` say FIRST fragment, four more header
//! bytes follow: the total payload length across fragments, big endian.
//! Then come `len` body bytes.  A frame whose header and body would not
//! fit the reader's buffer is malformed and fails the session.

use crate::error::BridgeError;
use crate::wire::{
    be16, be32, be_to_u16, be_to_u32, lemma_be16_round_trip, lemma_be32_round_trip, u16_be,
    u16_to_be, u32_be, u32_to_be,
};
use vstd::prelude::*;

verus! {

/// Size of a reader's frame buffer; no frame may exceed it.
pub const BUFFER_LEN: usize = 16384;

/// The two bits of `flags` that carry the frame type.
pub const FRAME_TYPE_MASK: u8 = 0x03;

/// Frame-type value of a FIRST fragment, which carries the extra
/// total-length header word.
pub const FRAME_TYPE_FIRST: u8 = 0x02;

/// Header bytes of an ordinary frame.
pub const FRAME_HEADER_LEN: usize = 4;

/// Header bytes of a FIRST-fragment frame.
pub const FIRST_HEADER_LEN: usize = 8;

/// Whether `flags` marks a FIRST fragment.
pub open spec fn is_first_fragment(flags: u8) -> bool {
    flags & FRAME_TYPE_MASK == FRAME_TYPE_FIRST
}

/// Whether `flags` marks a FIRST fragment.
pub fn first_fragment(flags: u8) -> (b: bool)
    ensures
        b == is_first_fragment(flags),
{
    flags & FRAME_TYPE_MASK == FRAME_TYPE_FIRST
}

/// How many header bytes a frame with these flags has on the wire.
pub open spec fn header_len(flags: u8) -> int {
    if is_first_fragment(flags) {
        FIRST_HEADER_LEN as int
    } else {
        FRAME_HEADER_LEN as int
    }
}

/// One projection frame as the reader hands it to the proxy: the header
/// fields it captured and the body bytes.  `total_len` is present exactly
/// on FIRST fragments, so the consumer can reconstruct the 8-byte header.
#[derive(Clone, Debug, PartialEq, Eq)]
pub struct Packet {
    pub channel: u8,
    pub flags: u8,
    pub total_len: Option<u32>,
    pub body: Vec<u8>,
}

/// The extra header word of a FIRST fragment, or nothing.
pub open spec fn total_len_bytes(t: Option<u32>) -> Seq<u8> {
    match t {
        Option::Some(v) => u32_be(v),
        Option::None => Seq::empty(),
    }
}

/// A packet the reader can have produced: the extra header word is
/// present exactly on FIRST fragments, the body fits the 16-bit length
/// field, and header plus body fit the reader's buffer.
pub open spec fn packet_wf(p: Packet) -> bool {
    &&& p.total_len is Some <==> is_first_fragment(p.flags)
    &&& p.body@.len() <= u16::MAX
    &&& header_len(p.flags) + p.body@.len() <= BUFFER_LEN
}

/// The exact bytes a packet occupies on the wire.
pub open spec fn packet_wire(p: Packet) -> Seq<u8> {
    seq![p.channel, p.flags] + u16_be(p.body@.len() as u16) + total_len_bytes(p.total_len)
        + p.body@
}

/// Serialize a packet back to its wire form, byte for byte.
pub fn serialize_packet(p: &Packet) -> (w: Vec<u8>)
    requires
        packet_wf(*p),
    ensures
        w@ == packet_wire(*p),
        w@.len() == header_len(p.flags) + p.body@.len(),
{
    let mut w: Vec<u8> = Vec::new();
    w.push(p.channel);
    w.push(p.flags);
    let (len_hi, len_lo) = u16_to_be(p.body.len() as u16);
    w.push(len_hi);
    w.push(len_lo);
    match p.total_len {
        Some(t) => {
            let (t0, t1, t2, t3) = u32_to_be(t);
            w.push(t0);
            w.push(t1);
            w.push(t2);
            w.push(t3);
        },
        None => {},
    }
    assert(w@ =~= seq![p.channel, p.flags] + u16_be(p.body@.len() as u16) + total_len_bytes(
        p.total_len,
    ));
    let ghost hdr = w@;
    let mut i: usize = 0;
    while i < p.body.len()
        invariant
            i <= p.body@.len(),
            w@ == hdr + p.body@.subrange(0, i as int),
        decreases p.body@.len() - i,
    {
        w.push(p.body[i]);
        assert(p.body@.subrange(0, i as int).push(p.body@[i as int]) =~= p.body@.subrange(
            0,
            i as int + 1,
        ));
        assert(w@ =~= hdr + p.body@.subrange(0, i as int + 1));
        i = i + 1;
    }
    assert(p.body@.subrange(0, p.body@.len() as int) =~= p.body@);
    assert(w@ =~= packet_wire(*p));
    w
}

/// How many wire bytes the frame at the head of `s` occupies: its
/// header plus its announced body length.
pub open spec fn frame_size(s: Seq<u8>) -> int
    recommends
        s.len() >= FRAME_HEADER_LEN,
{
    header_len(s[1]) + be16(s[2], s[3])
}

/// Whether `s` begins with one complete frame that fits the buffer.
pub open spec fn wf_frame_prefix(s: Seq<u8>) -> bool {
    &&& s.len() >= FRAME_HEADER_LEN
    &&& frame_size(s) <= BUFFER_LEN
    &&& s.len() >= frame_size(s)
}

/// Whether `s` is a concatenation of complete, buffer-sized frames.
pub open spec fn wf_stream(s: Seq<u8>) -> bool
    decreases s.len(),
{
    if s.len() == 0 {
        true
    } else if !wf_frame_prefix(s) {
        false
    } else {
        wf_stream(s.skip(frame_size(s)))
    }
}

/// The error a reader reports on the first frame of `s` that is not
/// complete and buffer-sized: an oversized frame is malformed, anything
/// cut short is an endpoint failure.
pub open spec fn stream_error(s: Seq<u8>) -> BridgeError
    recommends
        !wf_stream(s),
    decreases s.len(),
{
    if s.len() < FRAME_HEADER_LEN {
        BridgeError::EndpointIo
    } else if frame_size(s) > BUFFER_LEN {
        BridgeError::FrameOversize
    } else if s.len() < frame_size(s) {
        BridgeError::EndpointIo
    } else {
        stream_error(s.skip(frame_size(s)))
    }
}

/// Parse the frame at `pos`.  On success the packet is well formed and
/// its wire form is exactly the bytes consumed.
pub fn parse_packet_at(input: &Vec<u8>, pos: usize) -> (r: Result<(Packet, usize), BridgeError>)
    requires
        pos <= input@.len(),
    ensures
        ({
            let rest = input@.subrange(pos as int, input@.len() as int);
            &&& rest.len() < FRAME_HEADER_LEN ==> r == Err::<(Packet, usize), BridgeError>(
                BridgeError::EndpointIo,
            )
            &&& (rest.len() >= FRAME_HEADER_LEN && frame_size(rest) > BUFFER_LEN) ==> r == Err::<
                (Packet, usize),
                BridgeError,
            >(BridgeError::FrameOversize)
            &&& (rest.len() >= FRAME_HEADER_LEN && frame_size(rest) <= BUFFER_LEN && rest.len()
                < frame_size(rest)) ==> r == Err::<(Packet, usize), BridgeError>(
                BridgeError::EndpointIo,
            )
            &&& wf_frame_prefix(rest) ==> (r matches Ok((p, next)) && {
                &&& packet_wf(p)
                &&& next == pos + frame_size(rest)
                &&& pos < next <= input@.len()
                &&& packet_wire(p) == rest.subrange(0, frame_size(rest))
                &&& p.channel == rest[0]
                &&& p.flags == rest[1]
                &&& p.body@ == rest.subrange(header_len(rest[1]), frame_size(rest))
            })
        }),
{
    let ghost rest = input@.subrange(pos as int, input@.len() as int);
    let remaining = input.len() - pos;
    if remaining < FRAME_HEADER_LEN {
        return Err(BridgeError::EndpointIo);
    }
    let channel = input[pos];
    let flags = input[pos + 1];
    let body_len = be_to_u16(input[pos + 2], input[pos + 3]);
    assert(channel == rest[0] && flags == rest[1] && body_len == be16(rest[2], rest[3]));
    let first = first_fragment(flags);
    let hlen: usize = if first {
        FIRST_HEADER_LEN
    } else {
        FRAME_HEADER_LEN
    };
    assert(hlen == header_len(flags));
    if hlen + body_len as usize > BUFFER_LEN {
        return Err(BridgeError::FrameOversize);
    }
    let size: usize = hlen + body_len as usize;
    assert(size == frame_size(rest));
    if remaining < size {
        return Err(BridgeError::EndpointIo);
    }
    let total_len: Option<u32> = if first {
        Some(
            be_to_u32(input[pos + 4], input[pos + 5], input[pos + 6], input[pos + 7]),
        )
    } else {
        None
    };
    let n = input.len();
    let mut body: Vec<u8> = Vec::new();
    let mut j: usize = 0;
    while j < body_len as usize
        invariant
            j <= body_len,
            n == input@.len(),
            hlen <= FIRST_HEADER_LEN,
            pos + hlen + body_len <= n,
            body@ == input@.subrange((pos + hlen) as int, (pos + hlen + j) as int),
        decreases body_len as int - j,
    {
        body.push(input[pos + hlen + j]);
        assert(body@ =~= input@.subrange((pos + hlen) as int, (pos + hlen + j + 1) as int));
        j = j + 1;
    }
    let p = Packet { channel, flags, total_len, body };
    proof {
        lemma_be16_round_trip(rest[2], rest[3]);
        if first {
            lemma_be32_round_trip(rest[4], rest[5], rest[6], rest[7]);
            assert(rest[4] == input@[pos + 4] && rest[5] == input@[pos + 5] && rest[6] == input@[pos
                + 6] && rest[7] == input@[pos + 7]);
        }
        assert(p.body@ =~= rest.subrange(header_len(rest[1]), frame_size(rest)));
        assert(packet_wire(p) =~= rest.subrange(0, frame_size(rest)));
    }
    Ok((p, pos + size))
}

/// What a reader learns from the first four bytes of a frame: where it
/// goes, whether four more header bytes follow, and how much body to
/// read next.
#[derive(Clone, Copy, Debug, PartialEq, Eq, Structural)]
pub struct FrameHeaderInfo {
    pub channel: u8,
    pub flags: u8,
    pub body_len: u16,
    pub has_total_len: bool,
}

/// Judge the four header bytes of an incoming frame before any body
/// byte is read: a frame that cannot fit the reader's buffer is
/// malformed and fails the session here.
pub fn read_frame_header(b0: u8, b1: u8, b2: u8, b3: u8) -> (r: Result<
    FrameHeaderInfo,
    BridgeError,
>)
    ensures
        header_len(b1) + be16(b2, b3) <= BUFFER_LEN ==> (r matches Ok(h) && h
            == FrameHeaderInfo {
            channel: b0,
            flags: b1,
            body_len: be16(b2, b3),
            has_total_len: is_first_fragment(b1),
        }),
        header_len(b1) + be16(b2, b3) > BUFFER_LEN ==> r == Err::<FrameHeaderInfo, BridgeError>(
            BridgeError::FrameOversize,
        ),
{
    let body_len = be_to_u16(b2, b3);
    let first = first_fragment(b1);
    let hlen: usize = if first {
        FIRST_HEADER_LEN
    } else {
        FRAME_HEADER_LEN
    };
    if hlen + body_len as usize > BUFFER_LEN {
        return Err(BridgeError::FrameOversize);
    }
    Ok(FrameHeaderInfo { channel: b0, flags: b1, body_len, has_total_len: first })
}

/// The wire forms of a sequence of packets, concatenated in order.
pub open spec fn wire_concat(ps: Seq<Packet>) -> Seq<u8>
    decreases ps.len(),
{
    if ps.len() == 0 {
        Seq::empty()
    } else {
        packet_wire(ps[0]) + wire_concat(ps.skip(1))
    }
}

proof fn lemma_wire_concat_push(ps: Seq<Packet>, p: Packet)
    ensures
        wire_concat(ps.push(p)) == wire_concat(ps) + packet_wire(p),
    decreases ps.len(),
{
    if ps.len() == 0 {
        assert(ps.push(p).skip(1) =~= Seq::<Packet>::empty());
        assert(wire_concat(ps.push(p).skip(1)) == Seq::<u8>::empty());
        assert(wire_concat(ps.push(p)) == packet_wire(ps.push(p)[0]) + wire_concat(
            ps.push(p).skip(1),
        ));
        assert(wire_concat(ps.push(p)) =~= wire_concat(ps) + packet_wire(p));
    } else {
        assert(ps.push(p).skip(1) =~= ps.skip(1).push(p));
        lemma_wire_concat_push(ps.skip(1), p);
        assert(wire_concat(ps.push(p)) == packet_wire(ps[0]) + wire_concat(ps.skip(1).push(p)));
        assert(wire_concat(ps) == packet_wire(ps[0]) + wire_concat(ps.skip(1)));
        assert(wire_concat(ps.push(p)) =~= wire_concat(ps) + packet_wire(p));
    }
}

/// Read every frame of a byte stream, as a reader fed these bytes would
/// emit them.  Exactly the well-formed streams parse, and what they
/// parse to re-serializes to the input, byte for byte.
pub fn parse_packets(input: &Vec<u8>) -> (r: Result<Vec<Packet>, BridgeError>)
    ensures
        r is Ok <==> wf_stream(input@),
        r matches Ok(ps) ==> {
            &&& wire_concat(ps@) == input@
            &&& forall|i: int| 0 <= i < ps@.len() ==> packet_wf(#[trigger] ps@[i])
        },
        !wf_stream(input@) ==> r == Err::<Vec<Packet>, BridgeError>(stream_error(input@)),
{
    let mut ps: Vec<Packet> = Vec::new();
    let mut pos: usize = 0;
    proof {
        assert(input@.subrange(0, input@.len() as int) =~= input@);
        assert(input@.subrange(0, 0) =~= Seq::<u8>::empty());
    }
    while pos < input.len()
        invariant
            pos <= input@.len(),
            wire_concat(ps@) == input@.subrange(0, pos as int),
            forall|i: int| 0 <= i < ps@.len() ==> packet_wf(#[trigger] ps@[i]),
            wf_stream(input@) <==> wf_stream(input@.subrange(pos as int, input@.len() as int)),
            !wf_stream(input@) ==> stream_error(input@) == stream_error(
                input@.subrange(pos as int, input@.len() as int),
            ),
        decreases input@.len() - pos,
    {
        let ghost rest = input@.subrange(pos as int, input@.len() as int);
        match parse_packet_at(input, pos) {
            Ok((p, next)) => {
                proof {
                    assert(wf_frame_prefix(rest));
                    lemma_wire_concat_push(ps@, p);
                    assert(rest.subrange(0, frame_size(rest)) =~= input@.subrange(
                        pos as int,
                        next as int,
                    ));
                    assert(input@.subrange(0, pos as int) + input@.subrange(
                        pos as int,
                        next as int,
                    ) =~= input@.subrange(0, next as int));
                    assert(rest.skip(frame_size(rest)) =~= input@.subrange(
                        next as int,
                        input@.len() as int,
                    ));
                }
                ps.push(p);
                pos = next;
            },
            Err(e) => {
                proof {
                    assert(rest.len() > 0);
                    assert(!wf_frame_prefix(rest));
                    assert(!wf_stream(rest));
                    assert(e == stream_error(rest));
                }
                return Err(e);
            },
        }
    }
    proof {
        assert(input@.subrange(pos as int, input@.len() as int) =~= Seq::<u8>::empty());
        assert(input@.subrange(0, pos as int) =~= input@);
    }
    Ok(ps)
}

} // verus!
