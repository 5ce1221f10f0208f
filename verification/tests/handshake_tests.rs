use aa_bridge::error::BridgeError;
use aa_bridge::handshake::{
    build_info_response, build_start_request, HandshakeAction, HandshakeMachine, HandshakeStage,
    WifiConfig,
};

fn test_config() -> WifiConfig {
    WifiConfig {
        ip_addr: b"192.168.64.1".to_vec(),
        port: 5288,
        ssid: b"AA-Wifi".to_vec(),
        wpa_key: b"hunter22!".to_vec(),
        bssid: b"aa:bb:cc:dd:ee:ff".to_vec(),
    }
}

fn expected_start_body() -> Vec<u8> {
    // field 1: ip address, length-delimited; field 2: port 5288 as the
    // varint [0xA8, 0x29]
    let mut b = vec![0x0A, 12];
    b.extend_from_slice(b"192.168.64.1");
    b.extend_from_slice(&[0x10, 0xA8, 0x29]);
    b
}

fn expected_info_body() -> Vec<u8> {
    let mut b = vec![0x0A, 7];
    b.extend_from_slice(b"AA-Wifi");
    b.push(0x12);
    b.push(17);
    b.extend_from_slice(b"aa:bb:cc:dd:ee:ff");
    b.push(0x1A);
    b.push(9);
    b.extend_from_slice(b"hunter22!");
    b.extend_from_slice(&[0x20, 8, 0x28, 1]);
    b
}

#[test]
fn start_request_encodes_address_and_port() {
    let body = build_start_request(&test_config());
    assert_eq!(body, expected_start_body());
}

#[test]
fn info_response_encodes_all_five_fields() {
    let body = build_info_response(&test_config());
    assert_eq!(body, expected_info_body());
}

#[test]
fn long_field_length_takes_two_varint_bytes() {
    let mut cfg = test_config();
    cfg.ssid = vec![b'x'; 200];
    let body = build_info_response(&cfg);
    assert_eq!(body[0], 0x0A);
    assert_eq!(body[1], 0xC8);
    assert_eq!(body[2], 0x01);
    assert_eq!(&body[3..203], &cfg.ssid[..]);
    assert_eq!(body[203], 0x12);
}

fn frame_of(id_code: u8, body: &[u8]) -> Vec<u8> {
    let mut f = vec![
        (body.len() >> 8) as u8,
        (body.len() & 0xFF) as u8,
        0,
        id_code,
    ];
    f.extend_from_slice(body);
    f
}

#[test]
fn happy_handshake_signals_tcp_start_once() {
    let mut m = HandshakeMachine::new(test_config());

    // stage 1: send WifiStartRequest
    match m.next_action().unwrap() {
        HandshakeAction::SendFrame(f) => {
            assert_eq!(f, frame_of(1, &expected_start_body()));
        }
        _ => panic!("stage 1 must send"),
    }
    m.on_sent();

    // stage 2: WifiInfoRequest with empty body
    assert!(matches!(m.next_action().unwrap(), HandshakeAction::AwaitFrame(id) if id.code() == 2));
    m.on_header(2).unwrap();
    m.on_body(&Vec::new()).unwrap();

    // stage 3: send WifiInfoResponse
    match m.next_action().unwrap() {
        HandshakeAction::SendFrame(f) => {
            assert_eq!(f, frame_of(3, &expected_info_body()));
        }
        _ => panic!("stage 3 must send"),
    }
    m.on_sent();

    // stage 4: WifiStartResponse, empty
    assert!(matches!(m.next_action().unwrap(), HandshakeAction::AwaitFrame(id) if id.code() == 7));
    m.on_header(7).unwrap();
    m.on_body(&Vec::new()).unwrap();

    // stage 5: WifiConnectStatus [0x08, 0x00]
    assert!(matches!(m.next_action().unwrap(), HandshakeAction::AwaitFrame(id) if id.code() == 6));
    m.on_header(6).unwrap();
    m.on_body(&vec![0x08, 0x00]).unwrap();

    assert_eq!(m.stage, HandshakeStage::Complete);
    assert!(matches!(
        m.next_action().unwrap(),
        HandshakeAction::SignalTcpStart
    ));
}

#[test]
fn phone_that_cannot_join_fails_without_tcp_start() {
    let mut m = HandshakeMachine::new(test_config());
    m.next_action().unwrap();
    m.on_sent();
    m.on_header(2).unwrap();
    m.on_body(&Vec::new()).unwrap();
    m.next_action().unwrap();
    m.on_sent();
    m.on_header(7).unwrap();
    m.on_body(&Vec::new()).unwrap();
    m.on_header(6).unwrap();
    let status = vec![
        0x08, 0xFD, 0xFF, 0xFF, 0xFF, 0xFF, 0xFF, 0xFF, 0xFF, 0xFF, 0x01,
    ];
    assert_eq!(m.on_body(&status), Err(BridgeError::PhoneWifiJoinFailed));
    assert_eq!(m.stage, HandshakeStage::Failed);
    assert!(matches!(m.next_action().unwrap(), HandshakeAction::Abort));
}

#[test]
fn wrong_stage_reply_is_a_protocol_mismatch() {
    let mut m = HandshakeMachine::new(test_config());
    m.next_action().unwrap();
    m.on_sent();
    // phone answers stage 1 with WifiStartResponse (id 7) where
    // WifiInfoRequest (id 2) is expected
    let r = m.on_header(7);
    assert_eq!(
        r,
        Err(BridgeError::HandshakeProtocolMismatch { got: 7, expected: 2 })
    );
    assert_eq!(m.stage, HandshakeStage::Failed);
}

#[test]
fn stage_numbers_count_one_through_five() {
    let mut m = HandshakeMachine::new(test_config());
    assert_eq!(m.stage_number(), 1);
    m.on_sent();
    assert_eq!(m.stage_number(), 2);
    m.on_header(2).unwrap();
    m.on_body(&Vec::new()).unwrap();
    assert_eq!(m.stage_number(), 3);
    m.on_sent();
    assert_eq!(m.stage_number(), 4);
    m.on_header(7).unwrap();
    m.on_body(&Vec::new()).unwrap();
    assert_eq!(m.stage_number(), 5);
}

#[test]
fn io_error_aborts_the_handshake() {
    let mut m = HandshakeMachine::new(test_config());
    m.on_io_error();
    assert_eq!(m.stage, HandshakeStage::Failed);
    assert!(matches!(m.next_action().unwrap(), HandshakeAction::Abort));
}
