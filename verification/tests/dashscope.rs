use nota::dashscope::{
    models, normalize_result, parse_u64, safe_code, speaker_label, successful_result_url,
    task_state, validate_aliyun_https_url, validate_credentials, JsonScalar, ResultDocument,
    ResultTranscript, Sentence, SpeakerId, SubtaskResult, TaskState,
};
use nota::models::{AsrProvider, AsrProviderCredentials, AsrProviderKind};

fn credentials() -> AsrProviderCredentials {
    AsrProviderCredentials {
        provider: AsrProvider {
            id: "dashscope".into(),
            name: "DashScope".into(),
            kind: AsrProviderKind::DashScope,
            base_url: "https://dashscope.aliyuncs.com/api/v1".into(),
            model_id: "qwen-audio-3.0-asr-flash-filetrans".into(),
            has_api_key: true,
            capabilities: AsrProviderKind::DashScope.capabilities(),
            created_at: "2026-08-22T00:00:00Z".into(),
            updated_at: "2026-08-22T00:00:00Z".into(),
        },
        api_key: "secret-test-key".into(),
    }
}

#[test]
fn rejects_non_aliyun_result_hosts() {
    assert!(validate_aliyun_https_url("https://example.com/result.json", "结果").is_err());
    assert!(
        validate_aliyun_https_url("http://bucket.oss-cn-hangzhou.aliyuncs.com/a", "结果").is_err()
    );
    assert!(
        validate_aliyun_https_url("https://bucket.oss-cn-hangzhou.aliyuncs.com/a", "结果").is_ok()
    );
}

fn sentence(begin: u64, end: u64, text: &str, speaker: Option<SpeakerId>) -> Sentence {
    Sentence {
        text: Some(text.into()),
        begin_time: Some(JsonScalar::Unsigned(begin)),
        end_time: Some(JsonScalar::Unsigned(end)),
        speaker_id: speaker,
    }
}

#[test]
fn normalizes_sentences_and_speakers() {
    let transcript = normalize_result(&ResultDocument {
        transcripts: Some(vec![ResultTranscript {
            text: Some("你好。世界。".into()),
            language: Some("zh".into()),
            sentences: Some(vec![
                sentence(0, 500, "你好。", Some(SpeakerId::Number(Some(0)))),
                sentence(510, 900, "世界。", Some(SpeakerId::Text("1".into()))),
            ]),
        }]),
        original_duration: None,
    })
    .unwrap();
    assert_eq!(transcript.language.as_deref(), Some("zh"));
    assert_eq!(transcript.segments.len(), 2);
    assert_eq!(transcript.segments[0].speaker.as_deref(), Some("speaker_0"));
    assert_eq!(transcript.segments[1].speaker.as_deref(), Some("speaker_1"));
}

#[test]
fn credentials_reject_mutable_endpoint_model_and_missing_key() {
    let mut value = credentials();
    value.provider.base_url = "https://example.com/api/v1".into();
    assert!(validate_credentials(&value).is_err());
    value = credentials();
    value.provider.model_id = "different-model".into();
    assert!(validate_credentials(&value).is_err());
    value = credentials();
    value.api_key.clear();
    assert!(validate_credentials(&value).is_err());
}

#[test]
fn rejects_reversed_sentence_timestamps() {
    assert!(normalize_result(&ResultDocument {
        transcripts: Some(vec![ResultTranscript {
            text: Some("invalid".into()),
            language: None,
            sentences: Some(vec![sentence(1000, 900, "invalid", None)]),
        }]),
        original_duration: None,
    })
    .is_err());
}

#[test]
fn segments_are_sorted_stably_by_time() {
    let transcript = normalize_result(&ResultDocument {
        transcripts: Some(vec![ResultTranscript {
            text: None,
            language: Some(String::new()),
            sentences: Some(vec![
                sentence(500, 900, "b", None),
                sentence(0, 100, "a", None),
                sentence(500, 900, "c", None),
                sentence(500, 600, "d", None),
            ]),
        }]),
        original_duration: None,
    })
    .unwrap();
    let texts: Vec<&str> = transcript.segments.iter().map(|s| s.text.as_str()).collect();
    assert_eq!(texts, vec!["a", "d", "b", "c"]);
    assert_eq!(transcript.text, "adbc");
    assert_eq!(transcript.language, None);
}

#[test]
fn a_result_without_sentences_spans_the_recording() {
    let transcript = normalize_result(&ResultDocument {
        transcripts: Some(vec![ResultTranscript {
            text: Some(" 全文 ".into()),
            language: None,
            sentences: None,
        }]),
        original_duration: Some(JsonScalar::Text("1200".into())),
    })
    .unwrap();
    assert_eq!(transcript.text, "全文");
    assert_eq!(transcript.segments.len(), 1);
    assert_eq!(transcript.segments[0].end_ms, 1_200);
    assert!(normalize_result(&ResultDocument { transcripts: None, original_duration: None }).is_err());
    assert_eq!(
        normalize_result(&ResultDocument {
            transcripts: Some(vec![]),
            original_duration: None
        })
        .unwrap_err(),
        "DashScope 转写结果没有正文"
    );
}

#[test]
fn missing_sentence_times_are_errors() {
    let error = normalize_result(&ResultDocument {
        transcripts: Some(vec![ResultTranscript {
            text: Some("x".into()),
            language: None,
            sentences: Some(vec![Sentence {
                text: Some("x".into()),
                begin_time: Some(JsonScalar::Other),
                end_time: Some(JsonScalar::Unsigned(5)),
                speaker_id: None,
            }]),
        }]),
        original_duration: None,
    })
    .unwrap_err();
    assert_eq!(error, "DashScope 句子缺少有效的 begin_time");
}

#[test]
fn task_states_and_codes_are_read_leniently() {
    assert_eq!(task_state("waiting"), TaskState::Pending);
    assert_eq!(task_state("Succeeded"), TaskState::Succeeded);
    assert_eq!(task_state("canceled"), TaskState::Cancelled);
    assert_eq!(task_state("other"), TaskState::Unknown);
    assert_eq!(safe_code("Bad Request!<script>"), "BadRequestscript");
    assert_eq!(safe_code(&"a".repeat(100)).len(), 80);
    assert_eq!(models()[0].id, "qwen-audio-3.0-asr-flash-filetrans");
}

#[test]
fn speaker_ids_and_counts_are_normalised() {
    assert_eq!(speaker_label(Some(&SpeakerId::Number(Some(-3)))).as_deref(), Some("speaker_0"));
    assert_eq!(
        speaker_label(Some(&SpeakerId::Text(" speaker_speaker_7 ".into()))).as_deref(),
        Some("speaker_7")
    );
    assert_eq!(speaker_label(Some(&SpeakerId::Text("speaker_".into()))), None);
    assert_eq!(speaker_label(Some(&SpeakerId::Number(None))), None);
    assert_eq!(speaker_label(None), None);
    assert_eq!(parse_u64("+42"), Some(42));
    assert_eq!(parse_u64("18446744073709551615"), Some(u64::MAX));
    assert_eq!(parse_u64("18446744073709551616"), None);
    assert_eq!(parse_u64("-1"), None);
    assert_eq!(parse_u64("+"), None);
}

#[test]
fn result_addresses_come_from_the_first_succeeded_subtask() {
    let items = vec![
        SubtaskResult { status: Some("FAILED".into()), transcription_url: Some("https://a.aliyuncs.com/x".into()) },
        SubtaskResult { status: Some("succeeded".into()), transcription_url: None },
        SubtaskResult { status: Some("SUCCEEDED".into()), transcription_url: Some("https://b.aliyuncs.com/y".into()) },
    ];
    assert_eq!(
        successful_result_url(Some(&items)).unwrap().as_deref(),
        Some("https://b.aliyuncs.com/y")
    );
    assert!(successful_result_url(None).is_err());
    assert!(successful_result_url(Some(&vec![])).is_err());
    let untrusted = vec![SubtaskResult {
        status: Some("SUCCEEDED".into()),
        transcription_url: Some("https://evil.example/y".into()),
    }];
    assert!(successful_result_url(Some(&untrusted)).is_err());
}
