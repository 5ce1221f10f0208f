use aa_bridge::error::BridgeError;
use aa_bridge::frame::{first_fragment, parse_packet_at, parse_packets, serialize_packet, Packet};
use aa_bridge::proxy::{forward_packet, DirectionCounter};

fn first_fragment_frame() -> Vec<u8> {
    // channel 0x01, flags 0x02 (FIRST), len 0x0010, total_len 0x00000100,
    // 16 body bytes
    let mut f = vec![0x01, 0x02, 0x00, 0x10, 0x00, 0x00, 0x01, 0x00];
    f.extend((0u8..16).collect::<Vec<u8>>());
    f
}

fn plain_frame() -> Vec<u8> {
    vec![0x05, 0x00, 0x00, 0x03, 0xAA, 0xBB, 0xCC]
}

#[test]
fn flags_bits_decide_the_fragment_kind() {
    assert!(first_fragment(0x02));
    assert!(first_fragment(0x0A));
    assert!(!first_fragment(0x00));
    assert!(!first_fragment(0x03));
    assert!(!first_fragment(0x01));
}

#[test]
fn first_fragment_keeps_its_eight_byte_header() {
    let input = first_fragment_frame();
    let ps = parse_packets(&input).unwrap();
    assert_eq!(ps.len(), 1);
    assert_eq!(ps[0].channel, 0x01);
    assert_eq!(ps[0].flags, 0x02);
    assert_eq!(ps[0].total_len, Some(0x100));
    assert_eq!(ps[0].body.len(), 16);
    assert_eq!(ps[0].body, (0u8..16).collect::<Vec<u8>>());
}

#[test]
fn proxy_writes_the_same_twenty_four_bytes() {
    let input = first_fragment_frame();
    let ps = parse_packets(&input).unwrap();
    let mut counter = DirectionCounter::new();
    let w = forward_packet(&ps[0], &mut counter);
    assert_eq!(w, input);
    assert_eq!(w.len(), 24);
    assert_eq!(counter.get(), 24);
}

#[test]
fn plain_frame_has_no_total_length() {
    let input = plain_frame();
    let ps = parse_packets(&input).unwrap();
    assert_eq!(ps.len(), 1);
    assert_eq!(ps[0].channel, 0x05);
    assert_eq!(ps[0].flags, 0x00);
    assert_eq!(ps[0].total_len, None);
    assert_eq!(ps[0].body, vec![0xAA, 0xBB, 0xCC]);
}

#[test]
fn reader_preserves_a_stream_of_frames() {
    let mut input = first_fragment_frame();
    input.extend(plain_frame());
    input.extend(first_fragment_frame());
    let ps = parse_packets(&input).unwrap();
    assert_eq!(ps.len(), 3);
    let mut rebuilt = Vec::new();
    for p in &ps {
        rebuilt.extend(serialize_packet(p));
    }
    assert_eq!(rebuilt, input);
}

#[test]
fn empty_stream_holds_no_frames() {
    let ps = parse_packets(&Vec::new()).unwrap();
    assert!(ps.is_empty());
}

#[test]
fn oversized_frame_is_malformed() {
    // flags 0x00: 4-byte header; announced body of 0xFFFF bytes cannot
    // fit the 16 KiB buffer
    let input = vec![0x01, 0x00, 0xFF, 0xFF];
    assert_eq!(parse_packets(&input), Err(BridgeError::FrameOversize));
}

#[test]
fn truncated_body_is_an_endpoint_error() {
    let input = vec![0x01, 0x00, 0x00, 0x05, 0x01, 0x02];
    assert_eq!(parse_packets(&input), Err(BridgeError::EndpointIo));
}

#[test]
fn truncated_header_is_an_endpoint_error() {
    let input = vec![0x01, 0x00];
    assert_eq!(parse_packets(&input), Err(BridgeError::EndpointIo));
}

#[test]
fn error_after_a_good_frame_is_still_reported() {
    let mut input = plain_frame();
    input.extend(vec![0x01, 0x00, 0xFF, 0xFF]);
    assert_eq!(parse_packets(&input), Err(BridgeError::FrameOversize));
}

#[test]
fn single_frame_parse_reports_the_bytes_consumed() {
    let mut input = plain_frame();
    input.extend(first_fragment_frame());
    let (p, next) = parse_packet_at(&input, 0).unwrap();
    assert_eq!(next, 7);
    assert_eq!(p.channel, 0x05);
    let (p2, next2) = parse_packet_at(&input, next).unwrap();
    assert_eq!(next2, input.len());
    assert_eq!(p2.total_len, Some(0x100));
}

#[test]
fn largest_fitting_frame_parses() {
    // 4-byte header plus a 16380-byte body exactly fills the buffer
    let mut input = vec![0x02, 0x00, 0x3F, 0xFC];
    input.extend(vec![0x55u8; 16380]);
    let ps = parse_packets(&input).unwrap();
    assert_eq!(ps.len(), 1);
    assert_eq!(ps[0].body.len(), 16380);
    let w = serialize_packet(&ps[0]);
    assert_eq!(w, input);
}

#[test]
fn smallest_too_large_frame_is_rejected() {
    let mut input = vec![0x02, 0x00, 0x3F, 0xFD];
    input.extend(vec![0x55u8; 16381]);
    assert_eq!(parse_packets(&input), Err(BridgeError::FrameOversize));
}

#[test]
fn serializing_a_built_packet_matches_its_wire_form() {
    let p = Packet {
        channel: 9,
        flags: 0x02,
        total_len: Some(0xDEADBEEF),
        body: vec![1, 2, 3],
    };
    let w = serialize_packet(&p);
    assert_eq!(w, vec![9, 0x02, 0x00, 0x03, 0xDE, 0xAD, 0xBE, 0xEF, 1, 2, 3]);
}
