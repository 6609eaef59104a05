use rebornmp::link::{find_bytes, handle_server_message, hello_message, next_link_action, LinkAction, LinkEvent};
use rebornmp::packets::{handshake_packet, parse_client_message, read_le_u32, ClientMessage, PacketType, PlayerIds};

#[test]
fn handshake_carries_player_id_little_endian() {
    assert_eq!(handshake_packet(1), vec![0x01, 1, 0, 0, 0]);
    assert_eq!(handshake_packet(0x12345678), vec![0x01, 0x78, 0x56, 0x34, 0x12]);
    let p = handshake_packet(0xDEADBEEF);
    assert_eq!(read_le_u32(&p, 1), 0xDEADBEEF);
}

#[test]
fn server_reads_its_handshake_as_handshake() {
    let p = handshake_packet(42);
    assert!(matches!(parse_client_message(&p), ClientMessage::Handshake));
}

#[test]
fn packet_codes_roundtrip() {
    for t in [PacketType::Handshake, PacketType::Position, PacketType::Chat, PacketType::Disconnect] {
        assert_eq!(PacketType::from_code(t.code()), Some(t));
    }
    assert_eq!(PacketType::Disconnect.code(), 0xFF);
    assert_eq!(PacketType::from_code(0x04), None);
}

#[test]
fn empty_read_is_disconnect() {
    assert!(matches!(parse_client_message(&[]), ClientMessage::Disconnected));
}

#[test]
fn position_packet_decodes_float_bits() {
    let mut p = vec![0x02, 0, 0, 0, 0];
    p.extend_from_slice(&1.5f32.to_le_bytes());
    p.extend_from_slice(&(-2.25f32).to_le_bytes());
    match parse_client_message(&p) {
        ClientMessage::Position { x_bits, y_bits } => {
            assert_eq!(f32::from_bits(x_bits), 1.5);
            assert_eq!(f32::from_bits(y_bits), -2.25);
        }
        _ => panic!("expected a position"),
    }
}

#[test]
fn short_position_packet() {
    assert!(matches!(parse_client_message(&[0x02, 1, 2, 3]), ClientMessage::ShortPosition));
    let twelve = [0x02u8; 12];
    assert!(matches!(parse_client_message(&twelve), ClientMessage::ShortPosition));
}

#[test]
fn chat_packet_text() {
    let mut p = vec![0x03];
    p.extend_from_slice("привет".as_bytes());
    match parse_client_message(&p) {
        ClientMessage::Chat(s) => assert_eq!(s, "привет"),
        _ => panic!("expected chat"),
    }
    match parse_client_message(&[0x03]) {
        ClientMessage::Chat(s) => assert_eq!(s, ""),
        _ => panic!("expected empty chat"),
    }
}

#[test]
fn chat_packet_invalid_utf8() {
    assert!(matches!(parse_client_message(&[0x03, 0xFF, 0xFE]), ClientMessage::InvalidChat));
}

#[test]
fn unknown_packet() {
    assert!(matches!(parse_client_message(&[0xFF, 1]), ClientMessage::Unknown(0xFF)));
    assert!(matches!(parse_client_message(&[0x07]), ClientMessage::Unknown(0x07)));
}

#[test]
fn player_ids_count_from_one() {
    let mut ids = PlayerIds::new();
    assert!(ids.can_assign());
    assert_eq!(ids.assign(), 1);
    assert_eq!(ids.assign(), 2);
    assert_eq!(ids.assign(), 3);
}

#[test]
fn hello_bytes() {
    assert_eq!(hello_message(), b"{\"type\":\"hello\",\"data\":{\"client\":\"RebornMP\"}}\n".to_vec());
}

#[test]
fn directives_found_with_quotes() {
    let d = handle_server_message(b"{\"type\":\"freeMode\",\"spawn\":true}");
    assert!(d.free_mode);
    assert!(d.spawn);
    assert!(!d.disable_story);
    let d = handle_server_message(b"{\"type\":\"disableStory\"}");
    assert!(d.disable_story && !d.free_mode && !d.spawn);
    let d = handle_server_message(b"freeMode spawn disableStory");
    assert!(!d.free_mode && !d.spawn && !d.disable_story);
}

#[test]
fn find_bytes_edges() {
    assert!(find_bytes(b"abc", b""));
    assert!(find_bytes(b"abc", b"abc"));
    assert!(find_bytes(b"xxabc", b"abc"));
    assert!(!find_bytes(b"ab", b"abc"));
    assert!(!find_bytes(b"", b"a"));
}

#[test]
fn link_actions() {
    assert!(matches!(next_link_action(LinkEvent::Connected), LinkAction::SendHello));
    assert!(matches!(next_link_action(LinkEvent::ConnectFailed), LinkAction::RetryAfter(5)));
    assert!(matches!(next_link_action(LinkEvent::Received(0)), LinkAction::Reconnect));
    assert!(matches!(next_link_action(LinkEvent::Received(10)), LinkAction::HandleMessage));
    assert!(matches!(next_link_action(LinkEvent::ReadFailed), LinkAction::Reconnect));
}

#[test]
fn many_players_get_distinct_consecutive_ids() {
    let mut ids = PlayerIds::new();
    let got: Vec<u32> = (0..100).map(|_| ids.assign()).collect();
    assert_eq!(got, (1..=100).collect::<Vec<u32>>());
}
