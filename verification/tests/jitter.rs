use nota::jitter::{
    alignment_silence, native_frame_consumption, packet_alignment, packet_duration_100ns,
    packet_offset, ready_to_start, PacketAlignment, FRAME_SAMPLES,
};

#[test]
fn device_positions_give_the_offset_in_samples() {
    assert_eq!(packet_offset(Some(1_000), Some(1_480), None, 0, 48_000), Some(480));
    assert_eq!(packet_offset(Some(1_000), Some(900), None, 0, 48_000), Some(-100));
    assert_eq!(packet_offset(Some(0), Some(240_001), None, 0, 48_000), None);
}

#[test]
fn timestamps_give_the_offset_when_positions_are_missing() {
    assert_eq!(packet_offset(None, None, Some(0), 100_000, 48_000), Some(480));
    assert_eq!(packet_offset(None, Some(5), Some(100_000), 0, 48_000), Some(-480));
    assert_eq!(packet_offset(None, None, Some(0), 10_000, 48_000), None);
    assert_eq!(packet_offset(None, None, Some(0), 60_000_000, 48_000), None);
    assert_eq!(packet_offset(None, None, None, 60_000_000, 48_000), None);
}

#[test]
fn timestamp_gaps_under_five_seconds_become_offsets() {
    assert_eq!(packet_offset(None, None, Some(0), 200_000, 48_000), Some(960));
    assert_eq!(packet_offset(None, None, Some(0), 50_000_000, 48_000), None);
}

#[test]
fn offsets_align_packets() {
    assert_eq!(packet_alignment(Some(480), 480, 48_000), PacketAlignment::Conceal(480));
    assert_eq!(packet_alignment(Some(1_000_000), 480, 48_000), PacketAlignment::Conceal(240_000));
    assert_eq!(packet_alignment(Some(-100), 480, 48_000), PacketAlignment::Trim(100));
    assert_eq!(packet_alignment(Some(-480), 480, 48_000), PacketAlignment::Drop);
    assert_eq!(packet_alignment(Some(0), 480, 48_000), PacketAlignment::InPlace);
    assert_eq!(packet_alignment(None, 480, 48_000), PacketAlignment::InPlace);
}

#[test]
fn packet_durations_are_in_hundred_nanoseconds() {
    assert_eq!(packet_duration_100ns(480, 48_000), 100_000);
    assert_eq!(packet_duration_100ns(3, 0), 30_000_000);
}

#[test]
fn later_streams_get_leading_silence() {
    assert_eq!(alignment_silence(Some(1_100_000), 1_000_000, 48_000), 480);
    assert_eq!(alignment_silence(Some(900_000), 1_000_000, 48_000), 0);
    assert_eq!(alignment_silence(Some(30_000_000), 0, 48_000), 0);
    assert_eq!(alignment_silence(None, 0, 48_000), 0);
}

#[test]
fn native_rate_drift_is_corrected_one_sample_at_a_time() {
    assert_eq!(native_frame_consumption(14_400), FRAME_SAMPLES);
    assert_eq!(native_frame_consumption(20_000), FRAME_SAMPLES + 1);
    assert_eq!(native_frame_consumption(1_000), FRAME_SAMPLES - 1);
}

#[test]
fn streams_start_after_an_eighty_millisecond_reserve() {
    assert!(!ready_to_start(1_000, 16_000, 480));
    assert!(ready_to_start(1_760, 16_000, 480));
}
