use nota::logging::{
    format_event, format_log_line, record_line, single_line, Field, FieldKey, LogLevel,
};

#[test]
fn diagnostic_events_are_single_line_bounded_and_machine_greppable() {
    let long_model = format!("model\n{}", "x".repeat(300));
    let line = format_event(
        "request\r\ndispatched",
        &[
            Field::text(FieldKey::VersionId, "version-1"),
            Field::text(FieldKey::ModelId, &long_model),
            Field::number(FieldKey::EstimatedInputTokens, 42u64),
            Field::boolean(FieldKey::Paused, true),
        ],
    );

    assert!(!line.contains('\n'));
    assert!(!line.contains('\r'));
    assert!(line.starts_with("event=\"request  dispatched\""));
    assert!(line.contains("version_id=\"version-1\""));
    assert!(line.contains("estimated_input_tokens=42"));
    assert!(line.contains("paused=true"));
    assert!(line.len() < 500);
}

#[test]
fn diagnostic_field_keys_cannot_name_sensitive_payloads() {
    let keys = [
        FieldKey::AppVersion,
        FieldKey::SessionId,
        FieldKey::RecordingId,
        FieldKey::VersionId,
        FieldKey::DocumentId,
        FieldKey::BatchId,
        FieldKey::ProviderId,
        FieldKey::ProviderKind,
        FieldKey::ModelId,
        FieldKey::Generation,
        FieldKey::Protocol,
        FieldKey::Mode,
        FieldKey::Status,
        FieldKey::Phase,
        FieldKey::Action,
        FieldKey::Reason,
        FieldKey::ErrorCode,
        FieldKey::HttpStatus,
        FieldKey::DurationMs,
        FieldKey::Count,
        FieldKey::Bytes,
        FieldKey::ProcessId,
        FieldKey::RootProcessId,
        FieldKey::SourceEpoch,
        FieldKey::Executable,
        FieldKey::InputTokens,
        FieldKey::OutputTokens,
        FieldKey::EstimatedInputTokens,
        FieldKey::RetryAttempt,
        FieldKey::Packets,
        FieldKey::NonSilentPackets,
        FieldKey::Underflows,
        FieldKey::Discontinuities,
        FieldKey::ConcealedSamples,
        FieldKey::SampleRateHz,
        FieldKey::Channels,
        FieldKey::BitsPerSample,
        FieldKey::ValidBitsPerSample,
        FieldKey::BlockAlign,
        FieldKey::Current,
        FieldKey::Total,
        FieldKey::Paused,
        FieldKey::Scope,
        FieldKey::Permanent,
        FieldKey::IncludeAiDocuments,
    ];
    let forbidden = [
        "api_key",
        "authorization",
        "audio",
        "transcript",
        "request_body",
        "response_body",
        "path",
        "url",
        "title",
    ];

    for key in keys {
        assert!(!forbidden.contains(&key.as_str()));
    }
}

#[test]
fn log_lines_use_utc_rfc3339_timestamps() {
    let timestamp = chrono::DateTime::parse_from_rfc3339("2026-08-12T08:30:00+00:00")
        .unwrap()
        .with_timezone(&chrono::Utc);
    let line = format_log_line(
        &timestamp.to_rfc3339(),
        LogLevel::Info,
        "llm",
        "event=\"request_sent\"",
    );

    assert!(line.starts_with("2026-08-12T08:30:00+00:00 INFO  component=\"llm\""));
    let parsed =
        chrono::DateTime::parse_from_rfc3339(line.split_whitespace().next().unwrap()).unwrap();
    assert_eq!(parsed.offset().local_minus_utc(), 0);
}

#[test]
fn event_text_is_escaped_as_a_json_string() {
    let line = format_event(
        "quote\"and\\slash",
        &[Field::text(FieldKey::Reason, "tab\there\u{7f}")],
    );
    assert_eq!(line, "event=\"quote\\\"and\\\\slash\" reason=\"tab here\"");
}

#[test]
fn single_line_text_is_trimmed_and_bounded() {
    assert_eq!(single_line("  a\nb  ", 10), "a b");
    assert_eq!(single_line("abcdef", 3), "abc");
    assert_eq!(single_line("\n\n", 5), "");
}

#[test]
fn only_information_and_above_is_recorded() {
    assert!(record_line("t", LogLevel::Debug, "c", "m").is_none());
    assert_eq!(
        record_line("t", LogLevel::Warn, "c\nx", "one\ntwo").unwrap(),
        "t WARN  component=\"c x\" one two"
    );
    assert_eq!(
        format_event("e", &[Field::number(FieldKey::Count, u64::MAX)]),
        "event=\"e\" count=18446744073709551615"
    );
}
