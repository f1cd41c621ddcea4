use peer_sync::codec::{GameData, UserCommand};
use peer_sync::transport::{received_payload, RECV_BUFFER_LEN};

#[test]
fn fitting_datagram_is_delivered_byte_for_byte() {
    let payload: Vec<u8> = (0..=255u8).cycle().take(1000).collect();
    let delivered = received_payload(&payload, RECV_BUFFER_LEN);
    assert_eq!(delivered, payload);
}

#[test]
fn datagram_at_exact_buffer_size_is_delivered_whole() {
    let payload = vec![0xABu8; RECV_BUFFER_LEN];
    let delivered = received_payload(&payload, RECV_BUFFER_LEN);
    assert_eq!(delivered, payload);
}

#[test]
fn oversized_datagram_is_truncated_to_buffer_size() {
    let mut payload = vec![7u8; RECV_BUFFER_LEN];
    payload.extend_from_slice(&[8u8; 100]);
    let delivered = received_payload(&payload, RECV_BUFFER_LEN);
    assert_eq!(delivered.len(), RECV_BUFFER_LEN);
    assert_eq!(delivered, payload[..RECV_BUFFER_LEN].to_vec());
}

#[test]
fn empty_datagram_is_delivered_empty() {
    let delivered = received_payload(&[], RECV_BUFFER_LEN);
    assert!(delivered.is_empty());
}

#[test]
fn every_wire_encoding_fits_the_receive_buffer() {
    let snap = GameData {
        pos_player1: u32::MAX,
        pos_player2: 0,
        pos_ball_x: 1,
        pos_ball_y: 2,
        score_player_1: 3,
        score_player_2: 4,
    };
    assert!(snap.encode().len() <= RECV_BUFFER_LEN);
    assert!(UserCommand::Up.encode().len() <= RECV_BUFFER_LEN);
    assert!(UserCommand::Down.encode().len() <= RECV_BUFFER_LEN);
    assert!(UserCommand::Idle.encode().len() <= RECV_BUFFER_LEN);
    // So a received protocol datagram is never truncated.
    let wire = snap.encode();
    assert_eq!(received_payload(&wire, RECV_BUFFER_LEN), wire);
}
