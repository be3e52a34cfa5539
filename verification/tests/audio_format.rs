use nota::audio_format::{opus_head, opus_tags, pcm16_wav, PacketClock, OPUS_FRAME_SAMPLES};

#[test]
fn writes_standard_pcm16_wave_header() {
    let bytes = pcm16_wav(&[0, 1, -1, i16::MAX]).unwrap();
    assert_eq!(&bytes[..4], b"RIFF");
    assert_eq!(&bytes[8..12], b"WAVE");
    assert_eq!(u32::from_le_bytes(bytes[24..28].try_into().unwrap()), 16_000);
    assert_eq!(u32::from_le_bytes(bytes[40..44].try_into().unwrap()), 8);
    assert_eq!(u32::from_le_bytes(bytes[4..8].try_into().unwrap()), 44);
    assert_eq!(&bytes[44..], &[0, 0, 1, 0, 0xff, 0xff, 0xff, 0x7f]);
}

#[test]
fn opus_headers_name_the_stream() {
    let head = opus_head(312);
    assert_eq!(&head[..8], b"OpusHead");
    assert_eq!(head.len(), 19);
    assert_eq!(head[8], 1);
    assert_eq!(head[9], 1);
    assert_eq!(u16::from_le_bytes([head[10], head[11]]), 312);
    assert_eq!(u32::from_le_bytes(head[12..16].try_into().unwrap()), 48_000);
    let tags = opus_tags();
    assert_eq!(&tags[..8], b"OpusTags");
    assert_eq!(&tags[12..20], b"Nota 0.1");
    assert_eq!(&tags[28..], b"ENCODER=Nota");
}

#[test]
fn packet_clock_advances_one_frame_per_packet() {
    let mut clock = PacketClock::new(312);
    let mut last = None;
    for _ in 0..50 {
        last = Some(clock.next_packet());
    }
    let placement = last.unwrap();
    assert_eq!(placement.granule_position, 312 + 50 * OPUS_FRAME_SAMPLES);
    assert!(placement.end_page);
    assert!(placement.flush);
    assert!(!placement.sync);
    let first = PacketClock::new(0).next_packet();
    assert!(!first.end_page);
    assert_eq!(clock.last_packet(), 312 + 51 * OPUS_FRAME_SAMPLES);
}
