use peer_sync::codec::{GameData, UserCommand};
use peer_sync::engine::{
    AuthoritativePeer, AuthoritativePeerEvent, InputPeer, InputPeerEvent,
};

fn snapshot_with_scores(s1: u32, s2: u32) -> GameData {
    GameData {
        pos_player1: 10.0f32.to_bits(),
        pos_player2: 20.0f32.to_bits(),
        pos_ball_x: 5.0f32.to_bits(),
        pos_ball_y: 5.0f32.to_bits(),
        score_player_1: s1,
        score_player_2: s2,
    }
}

#[test]
fn idle_command_emits_no_traffic() {
    let mut peer = InputPeer::new(8);
    let out = peer.step(InputPeerEvent::LocalCommand(UserCommand::Idle));
    assert_eq!(out, None);
    assert_eq!(peer.commands_sent, 0);
}

#[test]
fn up_and_down_emit_exactly_one_datagram_each() {
    let mut peer = InputPeer::new(8);
    let out_up = peer.step(InputPeerEvent::LocalCommand(UserCommand::Up));
    assert_eq!(out_up, Some(vec![1u8]));
    assert_eq!(peer.commands_sent, 1);
    let out_down = peer.step(InputPeerEvent::LocalCommand(UserCommand::Down));
    assert_eq!(out_down, Some(vec![2u8]));
    assert_eq!(peer.commands_sent, 2);
}

#[test]
fn input_peer_delivers_decoded_snapshot() {
    let mut peer = InputPeer::new(8);
    let snap = snapshot_with_scores(0, 0);
    let out = peer.step(InputPeerEvent::Inbound(snap.encode()));
    assert_eq!(out, None);
    assert_eq!(peer.snapshots_delivered, 1);
    assert_eq!(peer.to_presentation.recv(), Some(snap));
}

#[test]
fn input_peer_drops_and_counts_malformed_datagram() {
    let mut peer = InputPeer::new(8);
    let out = peer.step(InputPeerEvent::Inbound(vec![0xDE, 0xAD, 0xBE, 0xEF]));
    assert_eq!(out, None);
    assert_eq!(peer.malformed_dropped, 1);
    assert_eq!(peer.snapshots_delivered, 0);
    assert_eq!(peer.to_presentation.recv(), None);
}

#[test]
fn presentation_observes_final_scores_under_backpressure() {
    // A channel of capacity one, with the presentation collaborator not
    // keeping pace: the first snapshot is discarded, and the consumer
    // observes the final scores.
    let mut peer = InputPeer::new(1);
    let first = snapshot_with_scores(0, 0);
    let second = snapshot_with_scores(1, 0);
    peer.step(InputPeerEvent::Inbound(first.encode()));
    peer.step(InputPeerEvent::Inbound(second.encode()));
    let observed = peer.to_presentation.recv().unwrap();
    assert_eq!(observed.score_player_1, 1);
    assert_eq!(observed.score_player_2, 0);
    assert_eq!(peer.to_presentation.recv(), None);
}

#[test]
fn authoritative_peer_decodes_up_then_down() {
    let mut peer = AuthoritativePeer::new(8);
    let out_a = peer.step(AuthoritativePeerEvent::Inbound(UserCommand::Up.encode()));
    let out_b = peer.step(AuthoritativePeerEvent::Inbound(UserCommand::Down.encode()));
    assert_eq!(out_a, None);
    assert_eq!(out_b, None);
    assert_eq!(peer.commands_delivered, 2);
    assert_eq!(peer.to_simulation.recv(), Some(UserCommand::Up));
    assert_eq!(peer.to_simulation.recv(), Some(UserCommand::Down));
    assert_eq!(peer.to_simulation.recv(), None);
}

#[test]
fn authoritative_peer_decodes_down_then_up() {
    // Arrival order reversed: still one command of each, none duplicated.
    let mut peer = AuthoritativePeer::new(8);
    peer.step(AuthoritativePeerEvent::Inbound(UserCommand::Down.encode()));
    peer.step(AuthoritativePeerEvent::Inbound(UserCommand::Up.encode()));
    assert_eq!(peer.commands_delivered, 2);
    assert_eq!(peer.to_simulation.recv(), Some(UserCommand::Down));
    assert_eq!(peer.to_simulation.recv(), Some(UserCommand::Up));
    assert_eq!(peer.to_simulation.recv(), None);
}

#[test]
fn authoritative_peer_drops_and_counts_malformed_datagram() {
    let mut peer = AuthoritativePeer::new(8);
    let out = peer.step(AuthoritativePeerEvent::Inbound(vec![]));
    assert_eq!(out, None);
    assert_eq!(peer.malformed_dropped, 1);
    assert_eq!(peer.to_simulation.recv(), None);
}

#[test]
fn authoritative_peer_encodes_ready_snapshot() {
    let mut peer = AuthoritativePeer::new(8);
    let snap = snapshot_with_scores(3, 4);
    let out = peer.step(AuthoritativePeerEvent::SnapshotReady(snap));
    assert_eq!(out, Some(snap.encode()));
    assert_eq!(peer.snapshots_sent, 1);
}

#[test]
fn input_peer_run_emits_only_up_and_down_in_order() {
    let mut peer = InputPeer::new(8);
    let events = vec![
        InputPeerEvent::LocalCommand(UserCommand::Idle),
        InputPeerEvent::LocalCommand(UserCommand::Up),
        InputPeerEvent::Inbound(snapshot_with_scores(0, 0).encode()),
        InputPeerEvent::LocalCommand(UserCommand::Down),
        InputPeerEvent::LocalCommand(UserCommand::Idle),
    ];
    let outs = peer.run(events);
    assert_eq!(outs, vec![vec![1u8], vec![2u8]]);
    assert_eq!(peer.commands_sent, 2);
    assert_eq!(peer.snapshots_delivered, 1);
}

#[test]
fn authoritative_peer_run_emits_one_datagram_per_snapshot() {
    let mut peer = AuthoritativePeer::new(8);
    let first = snapshot_with_scores(0, 0);
    let second = snapshot_with_scores(1, 0);
    let events = vec![
        AuthoritativePeerEvent::Inbound(UserCommand::Up.encode()),
        AuthoritativePeerEvent::SnapshotReady(first),
        AuthoritativePeerEvent::Inbound(vec![9, 9]),
        AuthoritativePeerEvent::SnapshotReady(second),
    ];
    let outs = peer.run(events);
    assert_eq!(outs, vec![first.encode(), second.encode()]);
    assert_eq!(peer.snapshots_sent, 2);
    assert_eq!(peer.malformed_dropped, 1);
    assert_eq!(peer.to_simulation.recv(), Some(UserCommand::Up));
}
