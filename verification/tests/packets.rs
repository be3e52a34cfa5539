use crossbeam_channel::unbounded;
use nota::packets::{
    drain_current_source_packets, drain_packets, keep_session_packets, EpochPacket,
    MAX_PACKETS_PER_TICK,
};

#[test]
fn packet_drain_has_a_per_tick_budget() {
    let (sender, receiver) = unbounded();
    for timestamp in 0..(MAX_PACKETS_PER_TICK + 10) {
        sender.send((vec![0.0f32], timestamp as u64)).unwrap();
    }
    let (drained, connected) = drain_packets(&receiver);
    assert!(connected);
    assert_eq!(drained.len(), MAX_PACKETS_PER_TICK);
    assert_eq!(drained[3].1, 3);
    assert_eq!(receiver.len(), 10);
}

#[test]
fn microphone_packet_drain_accepts_only_the_committed_source_epoch() {
    let (sender, receiver) = unbounded();
    for source_epoch in [4u64, 5, 4, 5] {
        sender
            .send(EpochPacket { source_epoch, packet: vec![source_epoch as f32] })
            .unwrap();
    }
    let (accepted, connected) = drain_current_source_packets(&receiver, 5);
    assert!(connected);
    assert_eq!(accepted, vec![vec![5.0f32], vec![5.0f32]]);
    assert!(receiver.is_empty());
}

#[test]
fn a_channel_without_senders_reports_disconnection() {
    let (sender, receiver) = unbounded::<u8>();
    sender.send(1).unwrap();
    drop(sender);
    let (drained, connected) = drain_packets(&receiver);
    assert_eq!(drained, vec![1]);
    assert!(!connected);
}

#[test]
fn session_packets_keep_their_order() {
    let packets = vec![
        EpochPacket { source_epoch: 2, packet: "a" },
        EpochPacket { source_epoch: 1, packet: "b" },
        EpochPacket { source_epoch: 2, packet: "c" },
    ];
    assert_eq!(keep_session_packets(packets, 2), vec!["a", "c"]);
}
