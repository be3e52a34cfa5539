use nota::models::{StoredTranscriptionChunk, TranscriptSegment};
use nota::transcript::{
    check_chunks_complete, chunk_end_ms, chunk_progress_total, chunk_samples_wanted,
    normalize_reply, overlap_to_keep, plain_reply, reply_speaker, ReplySegment, ReplyTranscript,
    SpeakerValue, CHUNK_SAMPLES, OVERLAP_SAMPLES,
    append_without_overlap, chunk_count, chunk_start_ms, merge_chunks, sanitize_error,
    CHUNK_DURATION_MS,
};

#[test]
fn chunks_use_two_second_overlap() {
    assert_eq!(chunk_count(1), 1);
    assert_eq!(chunk_count(CHUNK_DURATION_MS), 1);
    assert_eq!(chunk_count(CHUNK_DURATION_MS + 1), 2);
    assert_eq!(chunk_start_ms(1), 598_000);
}

#[test]
fn removes_text_overlap_for_chinese_and_plain_text() {
    let mut text = "这是第一段的结尾".to_owned();
    append_without_overlap(&mut text, "一段的结尾，也是第二段开头");
    assert_eq!(text, "这是第一段的结尾，也是第二段开头");
}

#[test]
fn offsets_segment_timestamps_and_discards_overlap_duplicates() {
    let (text, segments, language) = merge_chunks(vec![
        StoredTranscriptionChunk {
            index: 0,
            start_ms: 0,
            end_ms: 600_000,
            text: "第一段".into(),
            segments: vec![TranscriptSegment {
                start_ms: 599_000,
                end_ms: 600_000,
                text: "第一段".into(),
                speaker: None,
            }],
            language: Some("zh".into()),
        },
        StoredTranscriptionChunk {
            index: 1,
            start_ms: 598_000,
            end_ms: 700_000,
            text: "重复 新内容".into(),
            segments: vec![
                TranscriptSegment {
                    start_ms: 0,
                    end_ms: 1_000,
                    text: "重复".into(),
                    speaker: None,
                },
                TranscriptSegment {
                    start_ms: 3_000,
                    end_ms: 4_000,
                    text: "新内容".into(),
                    speaker: Some("speaker_2".into()),
                },
            ],
            language: None,
        },
    ]);
    assert_eq!(text, "第一段\n新内容");
    assert_eq!(segments.len(), 2);
    assert_eq!(segments[1].start_ms, 601_000);
    assert_eq!(segments[1].speaker.as_deref(), Some("speaker_2"));
    assert_eq!(language.as_deref(), Some("zh"));
}

#[test]
fn chunk_count_covers_long_recordings() {
    assert_eq!(chunk_count(0), 1);
    assert_eq!(chunk_count(CHUNK_DURATION_MS + 598_000), 2);
    assert_eq!(chunk_count(CHUNK_DURATION_MS + 598_001), 3);
    assert_eq!(chunk_count(u64::MAX), u32::MAX);
    assert_eq!(chunk_start_ms(0), 0);
    assert_eq!(chunk_start_ms(3), 1_794_000);
}

#[test]
fn appending_without_overlap_keeps_what_was_written() {
    let mut text = String::new();
    append_without_overlap(&mut text, "first");
    assert_eq!(text, "first");
    append_without_overlap(&mut text, "");
    assert_eq!(text, "first");
    append_without_overlap(&mut text, "second");
    assert_eq!(text, "first\nsecond");
    append_without_overlap(&mut text, "nd  ");
    assert_eq!(text, "first\nsecond");
}

#[test]
fn chunk_text_is_used_when_a_chunk_has_no_segments() {
    let (text, segments, language) = merge_chunks(vec![
        StoredTranscriptionChunk {
            index: 0,
            start_ms: 0,
            end_ms: 600_000,
            text: " alpha beta ".into(),
            segments: vec![],
            language: None,
        },
        StoredTranscriptionChunk {
            index: 1,
            start_ms: 598_000,
            end_ms: 900_000,
            text: "beta gamma".into(),
            segments: vec![],
            language: Some("en".into()),
        },
    ]);
    assert_eq!(text, "alpha betagamma");
    assert!(segments.is_empty());
    assert_eq!(language.as_deref(), Some("en"));
}

#[test]
fn error_text_is_compact_and_bounded() {
    assert_eq!(sanitize_error("  a \n\t b  c "), "a b c");
    assert_eq!(sanitize_error(&"x".repeat(700)).chars().count(), 600);
    assert_eq!(sanitize_error(""), "");
}

#[test]
fn parses_verbose_response_with_numeric_speaker() {
    let transcript = normalize_reply(&ReplyTranscript {
        text: "你好".into(),
        language: Some("zh".into()),
        segments: vec![ReplySegment {
            start_ms: 1_200,
            end_ms: 2_500,
            text: "你好".into(),
            speaker: Some(SpeakerValue::Number("2".into())),
        }],
    })
    .unwrap();
    assert_eq!(transcript.text, "你好");
    assert_eq!(transcript.segments[0].start_ms, 1_200);
    assert_eq!(transcript.segments[0].speaker.as_deref(), Some("2"));
}

#[test]
fn replies_drop_blank_segments_and_keep_ends_after_starts() {
    let transcript = normalize_reply(&ReplyTranscript {
        text: "  hi  ".into(),
        language: None,
        segments: vec![
            ReplySegment { start_ms: 0, end_ms: 10, text: "   ".into(), speaker: None },
            ReplySegment {
                start_ms: 50,
                end_ms: 20,
                text: " hi ".into(),
                speaker: Some(SpeakerValue::Text("  ".into())),
            },
        ],
    })
    .unwrap();
    assert_eq!(transcript.text, "hi");
    assert_eq!(transcript.segments.len(), 1);
    assert_eq!(transcript.segments[0].end_ms, 50);
    assert_eq!(transcript.segments[0].text, "hi");
    assert_eq!(transcript.segments[0].speaker, None);
    let empty = ReplyTranscript { text: " ".into(), language: None, segments: vec![] };
    assert_eq!(normalize_reply(&empty).unwrap_err(), "转写接口响应中没有文字");
}

#[test]
fn speaker_values_become_labels() {
    assert_eq!(reply_speaker(Some(&SpeakerValue::Text("Alice".into()))), Some("Alice".into()));
    assert_eq!(reply_speaker(Some(&SpeakerValue::Text(" ".into()))), None);
    assert_eq!(reply_speaker(Some(&SpeakerValue::Number("3".into()))), Some("3".into()));
    assert_eq!(reply_speaker(Some(&SpeakerValue::Other)), None);
    assert_eq!(reply_speaker(None), None);
}

#[test]
fn plain_replies_lose_quotes() {
    assert_eq!(plain_reply("  \"hello\" ").unwrap().text, "hello");
    assert_eq!(plain_reply(" \"\" ").unwrap_err(), "转写接口返回了空响应");
}

#[test]
fn chunk_reading_keeps_an_overlap() {
    assert_eq!(chunk_samples_wanted(0, 0), CHUNK_SAMPLES);
    assert_eq!(chunk_samples_wanted(1, OVERLAP_SAMPLES), CHUNK_SAMPLES - OVERLAP_SAMPLES);
    let samples: Vec<i16> = (0..40_000).map(|i| (i % 100) as i16).collect();
    let kept = overlap_to_keep(&samples, false);
    assert_eq!(kept.len(), OVERLAP_SAMPLES);
    assert_eq!(kept[..], samples[8_000..]);
    assert!(overlap_to_keep(&samples, true).is_empty());
    assert!(overlap_to_keep(&samples[..100], false).is_empty());
}

#[test]
fn chunk_ends_stay_within_the_recording() {
    assert_eq!(chunk_end_ms(0, 16_000, 0), 1_000);
    assert_eq!(chunk_end_ms(598_000, 9_600_000, 700_000), 700_000);
    assert_eq!(chunk_end_ms(10_000, 16_000, 5_000), 10_000);
    assert_eq!(chunk_progress_total(3, 0), 3);
    assert_eq!(chunk_progress_total(3, 5), 6);
    assert_eq!(check_chunks_complete(2, 2), Ok(2));
    assert_eq!(check_chunks_complete(1, 0), Ok(1));
    assert_eq!(check_chunks_complete(1, 2).unwrap_err(), "分块转写尚未完成（1/2），可以稍后继续");
}

#[test]
fn merging_more_chunks_keeps_what_earlier_chunks_gave() {
    let chunk = |index: u32, start_ms: u64, text: &str, segment_start: u64| StoredTranscriptionChunk {
        index,
        start_ms,
        end_ms: start_ms + 600_000,
        text: text.into(),
        segments: vec![TranscriptSegment {
            start_ms: segment_start,
            end_ms: segment_start + 1_000,
            text: text.into(),
            speaker: None,
        }],
        language: None,
    };
    let first = vec![chunk(0, 0, "开场", 10_000)];
    let both = vec![chunk(0, 0, "开场", 10_000), chunk(1, 598_000, "议题", 5_000)];
    let (text_one, segments_one, _) = merge_chunks(first);
    let (text_two, segments_two, _) = merge_chunks(both);
    assert!(text_two.starts_with(&text_one));
    assert_eq!(segments_two[..segments_one.len()], segments_one[..]);
    assert_eq!(segments_two.len(), 2);
}

#[test]
fn sanitized_errors_are_one_line_of_single_spaced_words() {
    let text = sanitize_error("\n  line one\r\n\tline  two \u{3000} end  ");
    assert_eq!(text, "line one line two end");
    assert!(!text.contains("  "));
    assert!(!text.contains('\n'));
}
