//! Diagnostic events: one line of `key=value` pairs per event, with a fixed
//! set of field names and every text value quoted, made single-line and
//! bounded.
use crate::text::{decimal, decimal_chars, is_control, is_control_spec, push_chars, push_str, string_from_chars, trim, trim_chars, chars_of};
use vstd::prelude::*;

verus! {

/// Longest text value kept in an event, in characters.
pub const MAX_TEXT_FIELD_CHARS: usize = 160;

/// Longest message kept in a log line, in characters.
pub const MAX_LEGACY_MESSAGE_CHARS: usize = 2_048;

/// The names a diagnostic field can have. There is no free-form key, so an
/// event cannot carry a field named after a secret or a recording's content.
#[derive(Debug, Clone, Copy, PartialEq, Eq, Structural)]
pub enum FieldKey {
    AppVersion,
    SessionId,
    RecordingId,
    VersionId,
    DocumentId,
    BatchId,
    ProviderId,
    ProviderKind,
    ModelId,
    Generation,
    Protocol,
    Mode,
    Status,
    Phase,
    Action,
    Reason,
    ErrorCode,
    HttpStatus,
    DurationMs,
    Count,
    Bytes,
    ProcessId,
    RootProcessId,
    SourceEpoch,
    Executable,
    InputTokens,
    OutputTokens,
    EstimatedInputTokens,
    RetryAttempt,
    Packets,
    NonSilentPackets,
    Underflows,
    Discontinuities,
    ConcealedSamples,
    SampleRateHz,
    Channels,
    BitsPerSample,
    ValidBitsPerSample,
    BlockAlign,
    Current,
    Total,
    Paused,
    Scope,
    Permanent,
    IncludeAiDocuments,
}

impl FieldKey {
    pub open spec fn key_name(self) -> Seq<char> {
        match self {
            FieldKey::AppVersion => "app_version"@,
            FieldKey::SessionId => "session_id"@,
            FieldKey::RecordingId => "recording_id"@,
            FieldKey::VersionId => "version_id"@,
            FieldKey::DocumentId => "document_id"@,
            FieldKey::BatchId => "batch_id"@,
            FieldKey::ProviderId => "provider_id"@,
            FieldKey::ProviderKind => "provider_kind"@,
            FieldKey::ModelId => "model_id"@,
            FieldKey::Generation => "generation"@,
            FieldKey::Protocol => "protocol"@,
            FieldKey::Mode => "mode"@,
            FieldKey::Status => "status"@,
            FieldKey::Phase => "phase"@,
            FieldKey::Action => "action"@,
            FieldKey::Reason => "reason"@,
            FieldKey::ErrorCode => "error_code"@,
            FieldKey::HttpStatus => "http_status"@,
            FieldKey::DurationMs => "duration_ms"@,
            FieldKey::Count => "count"@,
            FieldKey::Bytes => "bytes"@,
            FieldKey::ProcessId => "process_id"@,
            FieldKey::RootProcessId => "root_process_id"@,
            FieldKey::SourceEpoch => "source_epoch"@,
            FieldKey::Executable => "executable"@,
            FieldKey::InputTokens => "input_tokens"@,
            FieldKey::OutputTokens => "output_tokens"@,
            FieldKey::EstimatedInputTokens => "estimated_input_tokens"@,
            FieldKey::RetryAttempt => "retry_attempt"@,
            FieldKey::Packets => "packets"@,
            FieldKey::NonSilentPackets => "non_silent_packets"@,
            FieldKey::Underflows => "underflows"@,
            FieldKey::Discontinuities => "discontinuities"@,
            FieldKey::ConcealedSamples => "concealed_samples"@,
            FieldKey::SampleRateHz => "sample_rate_hz"@,
            FieldKey::Channels => "channels"@,
            FieldKey::BitsPerSample => "bits_per_sample"@,
            FieldKey::ValidBitsPerSample => "valid_bits_per_sample"@,
            FieldKey::BlockAlign => "block_align"@,
            FieldKey::Current => "current"@,
            FieldKey::Total => "total"@,
            FieldKey::Paused => "paused"@,
            FieldKey::Scope => "scope"@,
            FieldKey::Permanent => "permanent"@,
            FieldKey::IncludeAiDocuments => "include_ai_documents"@,
        }
    }

    pub fn as_str(self) -> (r: &'static str)
        ensures
            r@ == self.key_name(),
    {
        match self {
            FieldKey::AppVersion => "app_version",
            FieldKey::SessionId => "session_id",
            FieldKey::RecordingId => "recording_id",
            FieldKey::VersionId => "version_id",
            FieldKey::DocumentId => "document_id",
            FieldKey::BatchId => "batch_id",
            FieldKey::ProviderId => "provider_id",
            FieldKey::ProviderKind => "provider_kind",
            FieldKey::ModelId => "model_id",
            FieldKey::Generation => "generation",
            FieldKey::Protocol => "protocol",
            FieldKey::Mode => "mode",
            FieldKey::Status => "status",
            FieldKey::Phase => "phase",
            FieldKey::Action => "action",
            FieldKey::Reason => "reason",
            FieldKey::ErrorCode => "error_code",
            FieldKey::HttpStatus => "http_status",
            FieldKey::DurationMs => "duration_ms",
            FieldKey::Count => "count",
            FieldKey::Bytes => "bytes",
            FieldKey::ProcessId => "process_id",
            FieldKey::RootProcessId => "root_process_id",
            FieldKey::SourceEpoch => "source_epoch",
            FieldKey::Executable => "executable",
            FieldKey::InputTokens => "input_tokens",
            FieldKey::OutputTokens => "output_tokens",
            FieldKey::EstimatedInputTokens => "estimated_input_tokens",
            FieldKey::RetryAttempt => "retry_attempt",
            FieldKey::Packets => "packets",
            FieldKey::NonSilentPackets => "non_silent_packets",
            FieldKey::Underflows => "underflows",
            FieldKey::Discontinuities => "discontinuities",
            FieldKey::ConcealedSamples => "concealed_samples",
            FieldKey::SampleRateHz => "sample_rate_hz",
            FieldKey::Channels => "channels",
            FieldKey::BitsPerSample => "bits_per_sample",
            FieldKey::ValidBitsPerSample => "valid_bits_per_sample",
            FieldKey::BlockAlign => "block_align",
            FieldKey::Current => "current",
            FieldKey::Total => "total",
            FieldKey::Paused => "paused",
            FieldKey::Scope => "scope",
            FieldKey::Permanent => "permanent",
            FieldKey::IncludeAiDocuments => "include_ai_documents",
        }
    }
}

/// Names that would point at a secret, at recorded content or at a place on
/// disk or on the network.
pub open spec fn is_sensitive_name(s: Seq<char>) -> bool {
    ||| s == "api_key"@
    ||| s == "authorization"@
    ||| s == "audio"@
    ||| s == "transcript"@
    ||| s == "request_body"@
    ||| s == "response_body"@
    ||| s == "path"@
    ||| s == "url"@
    ||| s == "title"@
}

/// The field a name belongs to, read from its length and first two
/// characters.
pub open spec fn key_from_name(s: Seq<char>) -> Option<FieldKey> {
    if s.len() == 11 && s[0] == 'a' && s[1] == 'p' {
        Some(FieldKey::AppVersion)
    } else if s.len() == 10 && s[0] == 's' && s[1] == 'e' {
        Some(FieldKey::SessionId)
    } else if s.len() == 12 && s[0] == 'r' && s[1] == 'e' {
        Some(FieldKey::RecordingId)
    } else if s.len() == 10 && s[0] == 'v' && s[1] == 'e' {
        Some(FieldKey::VersionId)
    } else if s.len() == 11 && s[0] == 'd' && s[1] == 'o' {
        Some(FieldKey::DocumentId)
    } else if s.len() == 8 && s[0] == 'b' && s[1] == 'a' {
        Some(FieldKey::BatchId)
    } else if s.len() == 11 && s[0] == 'p' && s[1] == 'r' {
        Some(FieldKey::ProviderId)
    } else if s.len() == 13 && s[0] == 'p' && s[1] == 'r' {
        Some(FieldKey::ProviderKind)
    } else if s.len() == 8 && s[0] == 'm' && s[1] == 'o' {
        Some(FieldKey::ModelId)
    } else if s.len() == 10 && s[0] == 'g' && s[1] == 'e' {
        Some(FieldKey::Generation)
    } else if s.len() == 8 && s[0] == 'p' && s[1] == 'r' {
        Some(FieldKey::Protocol)
    } else if s.len() == 4 && s[0] == 'm' && s[1] == 'o' {
        Some(FieldKey::Mode)
    } else if s.len() == 6 && s[0] == 's' && s[1] == 't' {
        Some(FieldKey::Status)
    } else if s.len() == 5 && s[0] == 'p' && s[1] == 'h' {
        Some(FieldKey::Phase)
    } else if s.len() == 6 && s[0] == 'a' && s[1] == 'c' {
        Some(FieldKey::Action)
    } else if s.len() == 6 && s[0] == 'r' && s[1] == 'e' {
        Some(FieldKey::Reason)
    } else if s.len() == 10 && s[0] == 'e' && s[1] == 'r' {
        Some(FieldKey::ErrorCode)
    } else if s.len() == 11 && s[0] == 'h' && s[1] == 't' {
        Some(FieldKey::HttpStatus)
    } else if s.len() == 11 && s[0] == 'd' && s[1] == 'u' {
        Some(FieldKey::DurationMs)
    } else if s.len() == 5 && s[0] == 'c' && s[1] == 'o' {
        Some(FieldKey::Count)
    } else if s.len() == 5 && s[0] == 'b' && s[1] == 'y' {
        Some(FieldKey::Bytes)
    } else if s.len() == 10 && s[0] == 'p' && s[1] == 'r' {
        Some(FieldKey::ProcessId)
    } else if s.len() == 15 && s[0] == 'r' && s[1] == 'o' {
        Some(FieldKey::RootProcessId)
    } else if s.len() == 12 && s[0] == 's' && s[1] == 'o' {
        Some(FieldKey::SourceEpoch)
    } else if s.len() == 10 && s[0] == 'e' && s[1] == 'x' {
        Some(FieldKey::Executable)
    } else if s.len() == 12 && s[0] == 'i' && s[1] == 'n' {
        Some(FieldKey::InputTokens)
    } else if s.len() == 13 && s[0] == 'o' && s[1] == 'u' {
        Some(FieldKey::OutputTokens)
    } else if s.len() == 22 && s[0] == 'e' && s[1] == 's' {
        Some(FieldKey::EstimatedInputTokens)
    } else if s.len() == 13 && s[0] == 'r' && s[1] == 'e' {
        Some(FieldKey::RetryAttempt)
    } else if s.len() == 7 && s[0] == 'p' && s[1] == 'a' {
        Some(FieldKey::Packets)
    } else if s.len() == 18 && s[0] == 'n' && s[1] == 'o' {
        Some(FieldKey::NonSilentPackets)
    } else if s.len() == 10 && s[0] == 'u' && s[1] == 'n' {
        Some(FieldKey::Underflows)
    } else if s.len() == 15 && s[0] == 'd' && s[1] == 'i' {
        Some(FieldKey::Discontinuities)
    } else if s.len() == 17 && s[0] == 'c' && s[1] == 'o' {
        Some(FieldKey::ConcealedSamples)
    } else if s.len() == 14 && s[0] == 's' && s[1] == 'a' {
        Some(FieldKey::SampleRateHz)
    } else if s.len() == 8 && s[0] == 'c' && s[1] == 'h' {
        Some(FieldKey::Channels)
    } else if s.len() == 15 && s[0] == 'b' && s[1] == 'i' {
        Some(FieldKey::BitsPerSample)
    } else if s.len() == 21 && s[0] == 'v' && s[1] == 'a' {
        Some(FieldKey::ValidBitsPerSample)
    } else if s.len() == 11 && s[0] == 'b' && s[1] == 'l' {
        Some(FieldKey::BlockAlign)
    } else if s.len() == 7 && s[0] == 'c' && s[1] == 'u' {
        Some(FieldKey::Current)
    } else if s.len() == 5 && s[0] == 't' && s[1] == 'o' {
        Some(FieldKey::Total)
    } else if s.len() == 6 && s[0] == 'p' && s[1] == 'a' {
        Some(FieldKey::Paused)
    } else if s.len() == 5 && s[0] == 's' && s[1] == 'c' {
        Some(FieldKey::Scope)
    } else if s.len() == 9 && s[0] == 'p' && s[1] == 'e' {
        Some(FieldKey::Permanent)
    } else if s.len() == 20 && s[0] == 'i' && s[1] == 'n' {
        Some(FieldKey::IncludeAiDocuments)
    } else {
        None
    }
}

/// Every field's name reads back as that field.
proof fn lemma_key_name_reads_back(key: FieldKey)
    ensures
        key_from_name(key.key_name()) == Some(key),
{
    match key {
        FieldKey::AppVersion => reveal_strlit("app_version"),
        FieldKey::SessionId => reveal_strlit("session_id"),
        FieldKey::RecordingId => reveal_strlit("recording_id"),
        FieldKey::VersionId => reveal_strlit("version_id"),
        FieldKey::DocumentId => reveal_strlit("document_id"),
        FieldKey::BatchId => reveal_strlit("batch_id"),
        FieldKey::ProviderId => reveal_strlit("provider_id"),
        FieldKey::ProviderKind => reveal_strlit("provider_kind"),
        FieldKey::ModelId => reveal_strlit("model_id"),
        FieldKey::Generation => reveal_strlit("generation"),
        FieldKey::Protocol => reveal_strlit("protocol"),
        FieldKey::Mode => reveal_strlit("mode"),
        FieldKey::Status => reveal_strlit("status"),
        FieldKey::Phase => reveal_strlit("phase"),
        FieldKey::Action => reveal_strlit("action"),
        FieldKey::Reason => reveal_strlit("reason"),
        FieldKey::ErrorCode => reveal_strlit("error_code"),
        FieldKey::HttpStatus => reveal_strlit("http_status"),
        FieldKey::DurationMs => reveal_strlit("duration_ms"),
        FieldKey::Count => reveal_strlit("count"),
        FieldKey::Bytes => reveal_strlit("bytes"),
        FieldKey::ProcessId => reveal_strlit("process_id"),
        FieldKey::RootProcessId => reveal_strlit("root_process_id"),
        FieldKey::SourceEpoch => reveal_strlit("source_epoch"),
        FieldKey::Executable => reveal_strlit("executable"),
        FieldKey::InputTokens => reveal_strlit("input_tokens"),
        FieldKey::OutputTokens => reveal_strlit("output_tokens"),
        FieldKey::EstimatedInputTokens => reveal_strlit("estimated_input_tokens"),
        FieldKey::RetryAttempt => reveal_strlit("retry_attempt"),
        FieldKey::Packets => reveal_strlit("packets"),
        FieldKey::NonSilentPackets => reveal_strlit("non_silent_packets"),
        FieldKey::Underflows => reveal_strlit("underflows"),
        FieldKey::Discontinuities => reveal_strlit("discontinuities"),
        FieldKey::ConcealedSamples => reveal_strlit("concealed_samples"),
        FieldKey::SampleRateHz => reveal_strlit("sample_rate_hz"),
        FieldKey::Channels => reveal_strlit("channels"),
        FieldKey::BitsPerSample => reveal_strlit("bits_per_sample"),
        FieldKey::ValidBitsPerSample => reveal_strlit("valid_bits_per_sample"),
        FieldKey::BlockAlign => reveal_strlit("block_align"),
        FieldKey::Current => reveal_strlit("current"),
        FieldKey::Total => reveal_strlit("total"),
        FieldKey::Paused => reveal_strlit("paused"),
        FieldKey::Scope => reveal_strlit("scope"),
        FieldKey::Permanent => reveal_strlit("permanent"),
        FieldKey::IncludeAiDocuments => reveal_strlit("include_ai_documents"),
    }
}

/// Distinct fields have distinct names, so no field of an event can be
/// mistaken for another.
pub proof fn lemma_field_key_names_are_distinct(a: FieldKey, b: FieldKey)
    requires
        a.key_name() == b.key_name(),
    ensures
        a == b,
{
    lemma_key_name_reads_back(a);
    lemma_key_name_reads_back(b);
}

/// Only lower-case ASCII letters and underscores.
pub open spec fn is_plain_key(s: Seq<char>) -> bool {
    &&& 0 < s.len() <= 22
    &&& forall|i: int| 0 <= i < s.len() ==> (('a' <= #[trigger] s[i] && s[i] <= 'z') || s[i] == '_')
}

/// Every field name is a short lower-case identifier and none of them names
/// a sensitive payload.
pub proof fn lemma_field_keys_are_safe(key: FieldKey)
    ensures
        is_plain_key(key.key_name()),
        !is_sensitive_name(key.key_name()),
{
    reveal_strlit("api_key");
    assert("api_key"@.len() == 7);
    reveal_strlit("authorization");
    assert("authorization"@.len() == 13);
    reveal_strlit("audio");
    assert("audio"@.len() == 5);
    reveal_strlit("transcript");
    assert("transcript"@.len() == 10);
    reveal_strlit("request_body");
    assert("request_body"@.len() == 12);
    reveal_strlit("response_body");
    assert("response_body"@.len() == 13);
    reveal_strlit("path");
    assert("path"@.len() == 4);
    reveal_strlit("url");
    assert("url"@.len() == 3);
    reveal_strlit("title");
    assert("title"@.len() == 5);
    match key {
        FieldKey::AppVersion => {
            reveal_strlit("app_version");
            assert("app_version"@.len() == 11);
        },
        FieldKey::SessionId => {
            reveal_strlit("session_id");
            assert("session_id"@.len() == 10);
            assert("session_id"@[0] != "transcript"@[0]);
        },
        FieldKey::RecordingId => {
            reveal_strlit("recording_id");
            assert("recording_id"@.len() == 12);
            assert("recording_id"@[2] != "request_body"@[2]);
        },
        FieldKey::VersionId => {
            reveal_strlit("version_id");
            assert("version_id"@.len() == 10);
            assert("version_id"@[0] != "transcript"@[0]);
        },
        FieldKey::DocumentId => {
            reveal_strlit("document_id");
            assert("document_id"@.len() == 11);
        },
        FieldKey::BatchId => {
            reveal_strlit("batch_id");
            assert("batch_id"@.len() == 8);
        },
        FieldKey::ProviderId => {
            reveal_strlit("provider_id");
            assert("provider_id"@.len() == 11);
        },
        FieldKey::ProviderKind => {
            reveal_strlit("provider_kind");
            assert("provider_kind"@.len() == 13);
            assert("provider_kind"@[0] != "authorization"@[0]);
            assert("provider_kind"@[0] != "response_body"@[0]);
        },
        FieldKey::ModelId => {
            reveal_strlit("model_id");
            assert("model_id"@.len() == 8);
        },
        FieldKey::Generation => {
            reveal_strlit("generation");
            assert("generation"@.len() == 10);
            assert("generation"@[0] != "transcript"@[0]);
        },
        FieldKey::Protocol => {
            reveal_strlit("protocol");
            assert("protocol"@.len() == 8);
        },
        FieldKey::Mode => {
            reveal_strlit("mode");
            assert("mode"@.len() == 4);
            assert("mode"@[0] != "path"@[0]);
        },
        FieldKey::Status => {
            reveal_strlit("status");
            assert("status"@.len() == 6);
        },
        FieldKey::Phase => {
            reveal_strlit("phase");
            assert("phase"@.len() == 5);
            assert("phase"@[0] != "audio"@[0]);
            assert("phase"@[0] != "title"@[0]);
        },
        FieldKey::Action => {
            reveal_strlit("action");
            assert("action"@.len() == 6);
        },
        FieldKey::Reason => {
            reveal_strlit("reason");
            assert("reason"@.len() == 6);
        },
        FieldKey::ErrorCode => {
            reveal_strlit("error_code");
            assert("error_code"@.len() == 10);
            assert("error_code"@[0] != "transcript"@[0]);
        },
        FieldKey::HttpStatus => {
            reveal_strlit("http_status");
            assert("http_status"@.len() == 11);
        },
        FieldKey::DurationMs => {
            reveal_strlit("duration_ms");
            assert("duration_ms"@.len() == 11);
        },
        FieldKey::Count => {
            reveal_strlit("count");
            assert("count"@.len() == 5);
            assert("count"@[0] != "audio"@[0]);
            assert("count"@[0] != "title"@[0]);
        },
        FieldKey::Bytes => {
            reveal_strlit("bytes");
            assert("bytes"@.len() == 5);
            assert("bytes"@[0] != "audio"@[0]);
            assert("bytes"@[0] != "title"@[0]);
        },
        FieldKey::ProcessId => {
            reveal_strlit("process_id");
            assert("process_id"@.len() == 10);
            assert("process_id"@[0] != "transcript"@[0]);
        },
        FieldKey::RootProcessId => {
            reveal_strlit("root_process_id");
            assert("root_process_id"@.len() == 15);
        },
        FieldKey::SourceEpoch => {
            reveal_strlit("source_epoch");
            assert("source_epoch"@.len() == 12);
            assert("source_epoch"@[0] != "request_body"@[0]);
        },
        FieldKey::Executable => {
            reveal_strlit("executable");
            assert("executable"@.len() == 10);
            assert("executable"@[0] != "transcript"@[0]);
        },
        FieldKey::InputTokens => {
            reveal_strlit("input_tokens");
            assert("input_tokens"@.len() == 12);
            assert("input_tokens"@[0] != "request_body"@[0]);
        },
        FieldKey::OutputTokens => {
            reveal_strlit("output_tokens");
            assert("output_tokens"@.len() == 13);
            assert("output_tokens"@[0] != "authorization"@[0]);
            assert("output_tokens"@[0] != "response_body"@[0]);
        },
        FieldKey::EstimatedInputTokens => {
            reveal_strlit("estimated_input_tokens");
            assert("estimated_input_tokens"@.len() == 22);
        },
        FieldKey::RetryAttempt => {
            reveal_strlit("retry_attempt");
            assert("retry_attempt"@.len() == 13);
            assert("retry_attempt"@[0] != "authorization"@[0]);
            assert("retry_attempt"@[2] != "response_body"@[2]);
        },
        FieldKey::Packets => {
            reveal_strlit("packets");
            assert("packets"@.len() == 7);
            assert("packets"@[0] != "api_key"@[0]);
        },
        FieldKey::NonSilentPackets => {
            reveal_strlit("non_silent_packets");
            assert("non_silent_packets"@.len() == 18);
        },
        FieldKey::Underflows => {
            reveal_strlit("underflows");
            assert("underflows"@.len() == 10);
            assert("underflows"@[0] != "transcript"@[0]);
        },
        FieldKey::Discontinuities => {
            reveal_strlit("discontinuities");
            assert("discontinuities"@.len() == 15);
        },
        FieldKey::ConcealedSamples => {
            reveal_strlit("concealed_samples");
            assert("concealed_samples"@.len() == 17);
        },
        FieldKey::SampleRateHz => {
            reveal_strlit("sample_rate_hz");
            assert("sample_rate_hz"@.len() == 14);
        },
        FieldKey::Channels => {
            reveal_strlit("channels");
            assert("channels"@.len() == 8);
        },
        FieldKey::BitsPerSample => {
            reveal_strlit("bits_per_sample");
            assert("bits_per_sample"@.len() == 15);
        },
        FieldKey::ValidBitsPerSample => {
            reveal_strlit("valid_bits_per_sample");
            assert("valid_bits_per_sample"@.len() == 21);
        },
        FieldKey::BlockAlign => {
            reveal_strlit("block_align");
            assert("block_align"@.len() == 11);
        },
        FieldKey::Current => {
            reveal_strlit("current");
            assert("current"@.len() == 7);
            assert("current"@[0] != "api_key"@[0]);
        },
        FieldKey::Total => {
            reveal_strlit("total");
            assert("total"@.len() == 5);
            assert("total"@[0] != "audio"@[0]);
            assert("total"@[1] != "title"@[1]);
        },
        FieldKey::Paused => {
            reveal_strlit("paused");
            assert("paused"@.len() == 6);
        },
        FieldKey::Scope => {
            reveal_strlit("scope");
            assert("scope"@.len() == 5);
            assert("scope"@[0] != "audio"@[0]);
            assert("scope"@[0] != "title"@[0]);
        },
        FieldKey::Permanent => {
            reveal_strlit("permanent");
            assert("permanent"@.len() == 9);
        },
        FieldKey::IncludeAiDocuments => {
            reveal_strlit("include_ai_documents");
            assert("include_ai_documents"@.len() == 20);
        },
    }
}

// ---------------------------------------------------------------------------
// Single-line, bounded text
// ---------------------------------------------------------------------------

/// Every control character replaced by a space.
pub open spec fn controls_to_spaces(s: Seq<char>) -> Seq<char> {
    s.map_values(|c: char| if is_control_spec(c) { ' ' } else { c })
}

/// The first `max` characters of `s`, control characters made spaces, then
/// trimmed.
pub open spec fn single_line_spec(s: Seq<char>, max: nat) -> Seq<char> {
    trim(controls_to_spaces(if s.len() <= max { s } else { s.take(max as int) }))
}

/// No control character (so no line break) anywhere in `s`.
pub open spec fn no_controls(s: Seq<char>) -> bool {
    forall|i: int| 0 <= i < s.len() ==> !is_control_spec(#[trigger] s[i])
}

fn single_line_chars(value: &str, max_chars: usize) -> (r: Vec<char>)
    ensures
        r@ == single_line_spec(value@, max_chars as nat),
{
    let chars = chars_of(value);
    let mut out: Vec<char> = Vec::new();
    let mut i: usize = 0;
    while i < chars.len() && i < max_chars
        invariant
            i <= chars@.len(),
            i <= max_chars,
            chars@ == value@,
            out@ == controls_to_spaces(chars@.take(i as int)),
        decreases chars@.len() - i,
    {
        let c = chars[i];
        if is_control(c) {
            out.push(' ');
        } else {
            out.push(c);
        }
        i = i + 1;
        assert(out@ =~= controls_to_spaces(chars@.take(i as int)));
    }
    assert(chars@.take(i as int) =~= (if chars@.len() <= max_chars as nat {
        chars@
    } else {
        chars@.take(max_chars as int)
    }));
    trim_chars(&out)
}

/// Control characters made spaces, at most `max_chars` characters, trimmed.
pub fn single_line(value: &str, max_chars: usize) -> (r: String)
    ensures
        r@ == single_line_spec(value@, max_chars as nat),
{
    let chars = single_line_chars(value, max_chars);
    string_from_chars(&chars)
}

/// A single-line text has no control character and at most `max` characters.
pub proof fn lemma_single_line_is_clean(s: Seq<char>, max: nat)
    ensures
        no_controls(single_line_spec(s, max)),
        single_line_spec(s, max).len() <= max,
{
    let cut = if s.len() <= max {
        s
    } else {
        s.take(max as int)
    };
    let spaced = controls_to_spaces(cut);
    assert(no_controls(spaced));
    crate::text::lemma_trim_is_subrange(spaced);
}

// ---------------------------------------------------------------------------
// JSON string literals
// ---------------------------------------------------------------------------

pub open spec fn hex_digit(d: nat) -> char {
    if d < 10 {
        ((d + 48) as u32) as char
    } else {
        ((d + 87) as u32) as char
    }
}

/// How a JSON string literal writes one character: quote and backslash
/// escaped, the ASCII control characters escaped by name or as `\u00XX`.
pub open spec fn json_escape_char(c: char) -> Seq<char> {
    let u = c as u32;
    if c == '"' {
        seq!['\\', '"']
    } else if c == '\\' {
        seq!['\\', '\\']
    } else if u == 0x08 {
        seq!['\\', 'b']
    } else if u == 0x09 {
        seq!['\\', 't']
    } else if u == 0x0a {
        seq!['\\', 'n']
    } else if u == 0x0c {
        seq!['\\', 'f']
    } else if u == 0x0d {
        seq!['\\', 'r']
    } else if u < 0x20 {
        seq!['\\', 'u', '0', '0', hex_digit((u / 16) as nat), hex_digit((u % 16) as nat)]
    } else {
        seq![c]
    }
}

pub open spec fn json_escaped(s: Seq<char>) -> Seq<char>
    decreases s.len(),
{
    if s.len() == 0 {
        seq![]
    } else {
        json_escaped(s.drop_last()) + json_escape_char(s.last())
    }
}

/// The JSON string literal for `s`.
pub open spec fn json_quoted(s: Seq<char>) -> Seq<char> {
    seq!['"'] + json_escaped(s) + seq!['"']
}

/// `serde_json::to_string` on a string: the JSON string literal, with the
/// quote, the backslash and the ASCII control characters escaped (the escape
/// table of the serializer). Serialising a `str` into memory cannot fail.
#[verifier::external_body]
fn encode_text(value: &str) -> (r: Option<String>)
    ensures
        r is Some,
        r.unwrap()@ == json_quoted(value@),
{
    serde_json::to_string(value).ok()
}

pub(crate) fn quoted_chars(value: &[char]) -> (r: Vec<char>)
    ensures
        r@ == json_quoted(value@),
{
    let text = string_from_chars(value);
    match encode_text(text.as_str()) {
        Some(t) => chars_of(t.as_str()),
        None => chars_of("\"invalid\""),
    }
}

proof fn lemma_json_escaped_clean(s: Seq<char>)
    requires
        no_controls(s),
    ensures
        no_controls(json_escaped(s)),
        json_escaped(s).len() <= 2 * s.len(),
    decreases s.len(),
{
    if s.len() > 0 {
        assert(no_controls(s.drop_last())) by {
            assert forall|i: int| 0 <= i < s.drop_last().len() implies !is_control_spec(
                #[trigger] s.drop_last()[i],
            ) by {
                assert(s.drop_last()[i] == s[i]);
            }
        }
        lemma_json_escaped_clean(s.drop_last());
        let c = s.last();
        assert(!is_control_spec(s[s.len() - 1]));
        let e = json_escape_char(c);
        assert(no_controls(e));
        let r = json_escaped(s);
        assert(r == json_escaped(s.drop_last()) + e);
        assert forall|i: int| 0 <= i < r.len() implies !is_control_spec(#[trigger] r[i]) by {
            if i < json_escaped(s.drop_last()).len() {
                assert(r[i] == json_escaped(s.drop_last())[i]);
            } else {
                assert(r[i] == e[i - json_escaped(s.drop_last()).len()]);
            }
        }
    }
}

/// The JSON literal of a text without control characters has none either,
/// and is at most twice as long plus the quotes.
pub proof fn lemma_json_quoted_clean(s: Seq<char>)
    requires
        no_controls(s),
    ensures
        no_controls(json_quoted(s)),
        json_quoted(s).len() <= 2 * s.len() + 2,
{
    lemma_json_escaped_clean(s);
    let e = json_escaped(s);
    let q = json_quoted(s);
    assert forall|i: int| 0 <= i < q.len() implies !is_control_spec(#[trigger] q[i]) by {
        if i == 0 {
        } else if i <= e.len() {
            assert(q[i] == e[i - 1]);
        } else {
        }
    }
}

// ---------------------------------------------------------------------------
// Fields and events
// ---------------------------------------------------------------------------

#[derive(Debug, Clone)]
pub enum FieldValue {
    Text(String),
    Number(u64),
    Boolean(bool),
}

/// One `key=value` pair of a diagnostic event.
#[derive(Debug, Clone)]
pub struct Field {
    pub key: FieldKey,
    pub value: FieldValue,
}

impl Field {
    pub fn text(key: FieldKey, value: &str) -> (r: Self)
        ensures
            r.key == key,
            r.value matches FieldValue::Text(t) && t@ == value@,
    {
        Field { key, value: FieldValue::Text(value.to_string()) }
    }

    pub fn number(key: FieldKey, value: u64) -> (r: Self)
        ensures
            r.key == key,
            r.value == FieldValue::Number(value),
    {
        Field { key, value: FieldValue::Number(value) }
    }

    pub fn boolean(key: FieldKey, value: bool) -> (r: Self)
        ensures
            r.key == key,
            r.value == FieldValue::Boolean(value),
    {
        Field { key, value: FieldValue::Boolean(value) }
    }
}

/// How a value is written: text single-lined, bounded and quoted; numbers in
/// decimal; booleans as `true` or `false`.
pub open spec fn value_repr(value: FieldValue) -> Seq<char> {
    match value {
        FieldValue::Text(t) => json_quoted(single_line_spec(t@, MAX_TEXT_FIELD_CHARS as nat)),
        FieldValue::Number(n) => decimal(n as nat),
        FieldValue::Boolean(b) => if b {
            "true"@
        } else {
            "false"@
        },
    }
}

/// ` key=value`
pub open spec fn field_repr(field: Field) -> Seq<char> {
    seq![' '] + field.key.key_name() + seq!['='] + value_repr(field.value)
}

pub open spec fn fields_repr(fields: Seq<Field>) -> Seq<char>
    decreases fields.len(),
{
    if fields.len() == 0 {
        seq![]
    } else {
        fields_repr(fields.drop_last()) + field_repr(fields.last())
    }
}

/// `event="…"` followed by the fields in order.
pub open spec fn format_event_spec(event: Seq<char>, fields: Seq<Field>) -> Seq<char> {
    "event="@ + json_quoted(single_line_spec(event, MAX_TEXT_FIELD_CHARS as nat)) + fields_repr(
        fields,
    )
}

/// The text of one diagnostic event.
pub fn format_event(event: &str, fields: &[Field]) -> (r: String)
    ensures
        r@ == format_event_spec(event@, fields@),
{
    let mut line: Vec<char> = Vec::new();
    push_str(&mut line, "event=");
    let name = single_line_chars(event, MAX_TEXT_FIELD_CHARS);
    let quoted = quoted_chars(&name);
    push_chars(&mut line, &quoted);
    let ghost head = line@;
    assert(head == "event="@ + json_quoted(single_line_spec(event@, MAX_TEXT_FIELD_CHARS as nat)));
    let mut i: usize = 0;
    while i < fields.len()
        invariant
            i <= fields@.len(),
            line@ == head + fields_repr(fields@.take(i as int)),
        decreases fields@.len() - i,
    {
        let field = &fields[i];
        let ghost before = line@;
        line.push(' ');
        push_str(&mut line, field.key.as_str());
        line.push('=');
        match &field.value {
            FieldValue::Text(t) => {
                let text = single_line_chars(t.as_str(), MAX_TEXT_FIELD_CHARS);
                let q = quoted_chars(&text);
                push_chars(&mut line, &q);
            },
            FieldValue::Number(n) => {
                let digits = decimal_chars(*n);
                push_chars(&mut line, &digits);
            },
            FieldValue::Boolean(b) => {
                if *b {
                    push_str(&mut line, "true");
                } else {
                    push_str(&mut line, "false");
                }
            },
        }
        assert(line@ =~= before + field_repr(fields@[i as int]));
        assert(fields@.take(i + 1).drop_last() =~= fields@.take(i as int));
        i = i + 1;
    }
    assert(fields@.take(fields@.len() as int) =~= fields@);
    string_from_chars(&line)
}

proof fn lemma_decimal_digits(n: nat)
    ensures
        no_controls(decimal(n)),
        1 <= decimal(n).len(),
        n < 100_000_000_000_000_000_000 ==> decimal(n).len() <= 20,
    decreases n,
{
    if n >= 10 {
        lemma_decimal_digits(n / 10);
        let d = decimal(n);
        assert(d == decimal(n / 10).push(crate::text::digit_char(n % 10)));
        assert forall|i: int| 0 <= i < d.len() implies !is_control_spec(#[trigger] d[i]) by {
            if i < d.len() - 1 {
                assert(d[i] == decimal(n / 10)[i]);
            }
        }
        if n < 100_000_000_000_000_000_000 {
            assert(n / 10 < 10_000_000_000_000_000_000);
            assert(pow10(19) == 10_000_000_000_000_000_000) by {
                reveal_with_fuel(pow10, 20);
            }
            lemma_decimal_below(n / 10, 19);
        }
    }
}

/// `decimal(n)` has at most `k` digits when `n < 10^k`.
proof fn lemma_decimal_below(n: nat, k: nat)
    requires
        1 <= k,
        n < pow10(k),
    ensures
        decimal(n).len() <= k,
    decreases n,
{
    if n >= 10 {
        assert(k >= 2) by {
            if k == 1 {
                assert(pow10(1) == 10 * pow10(0));
            }
        }
        assert(pow10(k) == 10 * pow10((k - 1) as nat));
        assert(n / 10 < pow10((k - 1) as nat)) by (nonlinear_arith)
            requires
                n < 10 * pow10((k - 1) as nat),
        ;
        lemma_decimal_below(n / 10, (k - 1) as nat);
    }
}

pub open spec fn pow10(k: nat) -> nat
    decreases k,
{
    if k == 0 {
        1
    } else {
        10 * pow10((k - 1) as nat)
    }
}

proof fn lemma_value_repr_clean(value: FieldValue)
    ensures
        no_controls(value_repr(value)),
        value_repr(value).len() <= 2 * MAX_TEXT_FIELD_CHARS + 2,
{
    match value {
        FieldValue::Text(t) => {
            lemma_single_line_is_clean(t@, MAX_TEXT_FIELD_CHARS as nat);
            lemma_json_quoted_clean(single_line_spec(t@, MAX_TEXT_FIELD_CHARS as nat));
        },
        FieldValue::Number(n) => {
            lemma_decimal_digits(n as nat);
        },
        FieldValue::Boolean(b) => {
            reveal_strlit("true");
            reveal_strlit("false");
            assert("true"@.len() == 4);
            assert("false"@.len() == 5);
        },
    }
}

proof fn lemma_concat_clean(a: Seq<char>, b: Seq<char>)
    requires
        no_controls(a),
        no_controls(b),
    ensures
        no_controls(a + b),
{
    assert forall|i: int| 0 <= i < (a + b).len() implies !is_control_spec(#[trigger] (a + b)[i]) by {
        if i < a.len() {
            assert((a + b)[i] == a[i]);
        } else {
            assert((a + b)[i] == b[i - a.len()]);
        }
    }
}

proof fn lemma_fields_clean(fields: Seq<Field>)
    ensures
        no_controls(fields_repr(fields)),
        fields_repr(fields).len() <= fields.len() * (2 * MAX_TEXT_FIELD_CHARS + 26),
    decreases fields.len(),
{
    if fields.len() > 0 {
        lemma_fields_clean(fields.drop_last());
        let f = fields.last();
        lemma_value_repr_clean(f.value);
        lemma_field_keys_are_safe(f.key);
        let k = f.key.key_name();
        assert(no_controls(k)) by {
            assert forall|i: int| 0 <= i < k.len() implies !is_control_spec(#[trigger] k[i]) by {
                assert(('a' <= k[i] && k[i] <= 'z') || k[i] == '_');
            }
        }
        lemma_concat_clean(seq![' '], k);
        lemma_concat_clean(seq![' '] + k, seq!['=']);
        lemma_concat_clean(seq![' '] + k + seq!['='], value_repr(f.value));
        lemma_concat_clean(fields_repr(fields.drop_last()), field_repr(f));
        assert(fields.len() * (2 * MAX_TEXT_FIELD_CHARS + 26) == (fields.len() - 1) * (2
            * MAX_TEXT_FIELD_CHARS + 26) + (2 * MAX_TEXT_FIELD_CHARS + 26)) by (nonlinear_arith);
    }
}

/// A diagnostic event is one line: whatever the event name and the values
/// hold, the text has no control character, so no line break.
pub proof fn lemma_event_is_single_line(event: Seq<char>, fields: Seq<Field>)
    ensures
        no_controls(format_event_spec(event, fields)),
        !format_event_spec(event, fields).contains('\n'),
        !format_event_spec(event, fields).contains('\r'),
{
    reveal_strlit("event=");
    assert("event="@.len() == 6);
    let head = "event="@;
    assert(no_controls(head));
    let name = single_line_spec(event, MAX_TEXT_FIELD_CHARS as nat);
    lemma_single_line_is_clean(event, MAX_TEXT_FIELD_CHARS as nat);
    lemma_json_quoted_clean(name);
    lemma_fields_clean(fields);
    lemma_concat_clean(head, json_quoted(name));
    lemma_concat_clean(head + json_quoted(name), fields_repr(fields));
    let r = format_event_spec(event, fields);
    assert(!r.contains('\n')) by {
        if r.contains('\n') {
            let i = choose|i: int| 0 <= i < r.len() && r[i] == '\n';
            assert(!is_control_spec(r[i]));
        }
    }
    assert(!r.contains('\r')) by {
        if r.contains('\r') {
            let i = choose|i: int| 0 <= i < r.len() && r[i] == '\r';
            assert(!is_control_spec(r[i]));
        }
    }
}

/// A diagnostic event is bounded: the event name and each field take at
/// most a fixed number of characters, whatever the values hold.
pub proof fn lemma_event_is_bounded(event: Seq<char>, fields: Seq<Field>)
    ensures
        format_event_spec(event, fields).len() <= 6 + (2 * MAX_TEXT_FIELD_CHARS + 2) + fields.len()
            * (2 * MAX_TEXT_FIELD_CHARS + 26),
{
    reveal_strlit("event=");
    assert("event="@.len() == 6);
    let name = single_line_spec(event, MAX_TEXT_FIELD_CHARS as nat);
    lemma_single_line_is_clean(event, MAX_TEXT_FIELD_CHARS as nat);
    lemma_json_quoted_clean(name);
    lemma_fields_clean(fields);
}

// ---------------------------------------------------------------------------
// Log lines
// ---------------------------------------------------------------------------

#[derive(Debug, Clone, Copy, PartialEq, Eq, Structural)]
pub enum LogLevel {
    Error,
    Warn,
    Info,
    Debug,
    Trace,
}

impl LogLevel {
    /// The level's name left-aligned in five columns.
    pub open spec fn padded_name(self) -> Seq<char> {
        match self {
            LogLevel::Error => "ERROR"@,
            LogLevel::Warn => "WARN "@,
            LogLevel::Info => "INFO "@,
            LogLevel::Debug => "DEBUG"@,
            LogLevel::Trace => "TRACE"@,
        }
    }

    pub fn padded_str(self) -> (r: &'static str)
        ensures
            r@ == self.padded_name(),
    {
        match self {
            LogLevel::Error => "ERROR",
            LogLevel::Warn => "WARN ",
            LogLevel::Info => "INFO ",
            LogLevel::Debug => "DEBUG",
            LogLevel::Trace => "TRACE",
        }
    }

    /// Only errors, warnings and information are written to the log file.
    pub open spec fn is_recorded_spec(self) -> bool {
        self is Error || self is Warn || self is Info
    }

    pub fn is_recorded(self) -> (r: bool)
        ensures
            r == self.is_recorded_spec(),
    {
        match self {
            LogLevel::Error | LogLevel::Warn | LogLevel::Info => true,
            _ => false,
        }
    }
}

/// `<timestamp> <LEVEL> component="…" <message>`
pub open spec fn log_line_spec(
    timestamp: Seq<char>,
    level: LogLevel,
    component: Seq<char>,
    message: Seq<char>,
) -> Seq<char> {
    timestamp + seq![' '] + level.padded_name() + " component="@ + json_quoted(component) + seq![
        ' ',
    ] + message
}

/// One line of the log file.
pub fn format_log_line(timestamp: &str, level: LogLevel, component: &str, message: &str) -> (r:
    String)
    ensures
        r@ == log_line_spec(timestamp@, level, component@, message@),
{
    let mut line = chars_of(timestamp);
    line.push(' ');
    push_str(&mut line, level.padded_str());
    push_str(&mut line, " component=");
    let c = chars_of(component);
    let q = quoted_chars(&c);
    push_chars(&mut line, &q);
    line.push(' ');
    push_str(&mut line, message);
    assert(line@ =~= log_line_spec(timestamp@, level, component@, message@));
    string_from_chars(&line)
}

/// What a log record becomes in the file: nothing below the information
/// level; otherwise one line with the component and the message made
/// single-line and bounded.
pub fn record_line(timestamp: &str, level: LogLevel, target: &str, message: &str) -> (r: Option<
    String,
>)
    ensures
        match r {
            None => !level.is_recorded_spec(),
            Some(line) => level.is_recorded_spec() && line@ == log_line_spec(
                timestamp@,
                level,
                single_line_spec(target@, MAX_TEXT_FIELD_CHARS as nat),
                single_line_spec(message@, MAX_LEGACY_MESSAGE_CHARS as nat),
            ),
        },
{
    if !level.is_recorded() {
        return None;
    }
    let message = single_line(message, MAX_LEGACY_MESSAGE_CHARS);
    let component = single_line(target, MAX_TEXT_FIELD_CHARS);
    Some(format_log_line(timestamp, level, component.as_str(), message.as_str()))
}

} // verus!
