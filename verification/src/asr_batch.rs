//! Talking to a transcription server: the error texts it produces, what its
//! capabilities must offer, how a whole-meeting job moves through its
//! states, and how the audio is uploaded in chunks.
use crate::models::{TranscriptionProgressPhase, TranscriptionProgressUnit, TranscriptionStatus};
use crate::text::{
    ascii_lower_chars, ascii_lower_seq, chars_eq, chars_of, decimal, decimal_chars, has_prefix,
    has_substring, push_chars, push_str, str_eq, string_from_chars,
};
use crate::transcript::{sanitize_error, sanitize_error_spec};
use vstd::prelude::*;

verus! {

// ---------------------------------------------------------------------------
// Error texts
// ---------------------------------------------------------------------------

/// `{component}返回 HTTP {status}`, followed by the compacted body when it
/// holds anything.
pub open spec fn http_error_spec(component: Seq<char>, status: u16, body: Seq<char>) -> Seq<char> {
    let detail = sanitize_error_spec(body);
    let head = component + "返回 HTTP "@ + decimal(status as nat);
    if detail.len() == 0 {
        head
    } else {
        head + "："@ + detail
    }
}

pub fn http_error(component: &str, status: u16, body: &str) -> (r: String)
    ensures
        r@ == http_error_spec(component@, status, body@),
{
    let detail = sanitize_error(body);
    let mut out = chars_of(component);
    push_str(&mut out, "返回 HTTP ");
    push_chars(&mut out, &decimal_chars(status as u64));
    let d = chars_of(detail.as_str());
    if d.len() > 0 {
        push_str(&mut out, "：");
        push_chars(&mut out, &d);
    }
    string_from_chars(&out)
}

/// Every occurrence of `pattern` in `s`, from left to right and without
/// overlapping, replaced by `replacement` (`str::replace`).
pub open spec fn replace_all(s: Seq<char>, pattern: Seq<char>, replacement: Seq<char>) -> Seq<char>
    decreases s.len(),
{
    if pattern.len() == 0 || s.len() < pattern.len() {
        s
    } else if has_prefix(s, pattern) {
        replacement + replace_all(s.skip(pattern.len() as int), pattern, replacement)
    } else {
        seq![s[0]] + replace_all(s.skip(1), pattern, replacement)
    }
}

pub open spec fn redact_secret_spec(message: Seq<char>, secret: Seq<char>) -> Seq<char> {
    if secret.len() == 0 {
        message
    } else {
        replace_all(message, secret, "[REDACTED]"@)
    }
}

/// The message with the key written out nowhere: each occurrence becomes
/// `[REDACTED]`.
pub fn redact_secret(message: &str, secret: &str) -> (r: String)
    ensures
        r@ == redact_secret_spec(message@, secret@),
{
    let s = chars_of(message);
    let pattern = chars_of(secret);
    if pattern.len() == 0 {
        return string_from_chars(&s);
    }
    let replacement = chars_of("[REDACTED]");
    let mut out: Vec<char> = Vec::new();
    let mut i: usize = 0;
    assert(s@.skip(0) =~= s@);
    while i < s.len()
        invariant
            i <= s@.len(),
            pattern@.len() > 0,
            replacement@ == "[REDACTED]"@,
            out@ + replace_all(s@.skip(i as int), pattern@, replacement@) == replace_all(
                s@,
                pattern@,
                replacement@,
            ),
        decreases s@.len() - i,
    {
        let ghost rest = s@.skip(i as int);
        if pattern.len() <= s.len() - i && occurs_at_chars(&s, &pattern, i) {
            assert(rest.take(pattern@.len() as int) =~= s@.subrange(i as int, i + pattern@.len()));
            assert(rest.skip(pattern@.len() as int) =~= s@.skip(i + pattern@.len()));
            push_chars(&mut out, &replacement);
            i = i + pattern.len();
        } else {
            proof {
                if rest.len() >= pattern@.len() {
                    assert(rest.take(pattern@.len() as int) =~= s@.subrange(i as int, i + pattern@.len()));
                }
            }
            assert(rest.skip(1) =~= s@.skip(i + 1));
            out.push(s[i]);
            i = i + 1;
        }
    }
    assert(s@.skip(i as int) =~= seq![]);
    string_from_chars(&out)
}

fn occurs_at_chars(s: &Vec<char>, pattern: &Vec<char>, i: usize) -> (r: bool)
    requires
        i + pattern.len() <= s.len(),
    ensures
        r == (s@.subrange(i as int, i + pattern@.len()) == pattern@),
{
    let part = crate::text::slice_to_vec(s, i, i + pattern.len());
    chars_eq(&part, pattern)
}

/// A server that refuses the `response_format` field answers 400 or 422 and
/// names the field.
pub open spec fn response_format_rejected_spec(status: u16, body: Seq<char>) -> bool {
    (status == 400 || status == 422) && has_substring(ascii_lower_seq(body), "response_format"@)
}

pub fn response_format_rejected(status: u16, body: &str) -> (r: bool)
    ensures
        r == response_format_rejected_spec(status, body@),
{
    if status != 400 && status != 422 {
        return false;
    }
    let lower = ascii_lower_chars(&chars_of(body));
    crate::text::contains_chars(&lower, &chars_of("response_format"))
}

// ---------------------------------------------------------------------------
// Capabilities
// ---------------------------------------------------------------------------

/// What a server announces about whole-meeting jobs.
#[derive(Debug, Clone)]
pub struct BatchCapabilities {
    pub batch_transcription_version: String,
    pub upload_chunk_bytes: u64,
    pub max_upload_bytes: u64,
    pub max_audio_seconds: u64,
    pub audio_formats: Vec<String>,
}

pub open spec fn accepts_ogg(formats: Seq<String>) -> bool {
    exists|i: int| 0 <= i < formats.len() && ascii_lower_seq(#[trigger] formats[i]@) == "ogg"@
}

/// Version 1 of the job protocol, Ogg audio and a usable chunk size.
pub open spec fn capabilities_supported(caps: BatchCapabilities) -> bool {
    caps.batch_transcription_version@ == "1"@ && accepts_ogg(caps.audio_formats@)
        && caps.upload_chunk_bytes != 0
}

pub fn validate_batch_capabilities(caps: &BatchCapabilities) -> (r: Result<(), String>)
    ensures
        r is Ok <==> capabilities_supported(*caps),
        r is Err ==> r->Err_0@ == "FunASR Server 不支持 Nota 所需的批处理协议版本"@,
{
    let mut ogg = false;
    let mut i: usize = 0;
    while i < caps.audio_formats.len()
        invariant
            i <= caps.audio_formats@.len(),
            ogg == exists|j: int| 0 <= j < i && ascii_lower_seq(#[trigger] caps.audio_formats@[j]@) == "ogg"@,
        decreases caps.audio_formats@.len() - i,
    {
        let lower = ascii_lower_chars(&chars_of(caps.audio_formats[i].as_str()));
        if chars_eq(&lower, &chars_of("ogg")) {
            assert(ascii_lower_seq(caps.audio_formats@[i as int]@) == "ogg"@);
            ogg = true;
        }
        i = i + 1;
    }
    if !str_eq(caps.batch_transcription_version.as_str(), "1") || !ogg || caps.upload_chunk_bytes == 0 {
        return Err(String::from_str("FunASR Server 不支持 Nota 所需的批处理协议版本"));
    }
    Ok(())
}

/// Largest chunk uploaded in one request.
pub const MAX_UPLOAD_CHUNK_BYTES: u64 = 16 * 1024 * 1024;

/// The recording must fit the server's limits; the upload then goes in
/// chunks of the announced size, between one byte and 16 MiB.
pub fn check_batch_limits(actual_size: u64, duration_ms: u64, caps: &BatchCapabilities) -> (r: Result<u64, String>)
    ensures
        actual_size > caps.max_upload_bytes ==> r is Err && r->Err_0@ == "录音文件超过 ASR Server 允许的上传大小"@,
        actual_size <= caps.max_upload_bytes && duration_ms > (if caps.max_audio_seconds * 1000
            > u64::MAX {
            u64::MAX as int
        } else {
            caps.max_audio_seconds * 1000
        }) ==> r is Err && r->Err_0@ == "录音时长超过 ASR Server 允许的上限"@,
        r is Ok ==> actual_size <= caps.max_upload_bytes && r->Ok_0 == (if caps.upload_chunk_bytes < 1 {
            1
        } else if caps.upload_chunk_bytes > MAX_UPLOAD_CHUNK_BYTES {
            MAX_UPLOAD_CHUNK_BYTES
        } else {
            caps.upload_chunk_bytes
        }),
        r is Err ==> actual_size > caps.max_upload_bytes || duration_ms > (if caps.max_audio_seconds
            * 1000 > u64::MAX {
            u64::MAX as int
        } else {
            caps.max_audio_seconds * 1000
        }),
{
    if actual_size > caps.max_upload_bytes {
        return Err(String::from_str("录音文件超过 ASR Server 允许的上传大小"));
    }
    let limit_ms = match caps.max_audio_seconds.checked_mul(1000) {
        Some(v) => v,
        None => u64::MAX,
    };
    if duration_ms > limit_ms {
        return Err(String::from_str("录音时长超过 ASR Server 允许的上限"));
    }
    Ok(if caps.upload_chunk_bytes < 1 {
        1
    } else if caps.upload_chunk_bytes > MAX_UPLOAD_CHUNK_BYTES {
        MAX_UPLOAD_CHUNK_BYTES
    } else {
        caps.upload_chunk_bytes
    })
}

// ---------------------------------------------------------------------------
// Whole-meeting jobs
// ---------------------------------------------------------------------------

/// A job's failure as the server reports it.
#[derive(Debug, Clone)]
pub struct BatchJobFailure {
    pub code: String,
    pub message: String,
}

/// A whole-meeting job as the server reports it.
#[derive(Debug, Clone)]
pub struct BatchJobStatus {
    pub id: String,
    pub state: String,
    pub phase: String,
    pub upload_offset: u64,
    pub upload_length: u64,
    pub progress_current: u64,
    pub progress_total: u64,
    pub progress_unit: String,
    pub error: Option<BatchJobFailure>,
}

/// The progress shown for a job state, or `None` for a state that shows
/// none.
pub open spec fn batch_progress_spec(state: Seq<char>, phase: Seq<char>, unit: Seq<char>) -> Option<
    (TranscriptionStatus, TranscriptionProgressPhase, TranscriptionProgressUnit),
> {
    let u = if unit == "bytes"@ {
        TranscriptionProgressUnit::Bytes
    } else if unit == "windows"@ {
        TranscriptionProgressUnit::Windows
    } else {
        TranscriptionProgressUnit::Steps
    };
    if state == "uploading"@ {
        Some((TranscriptionStatus::Preparing, TranscriptionProgressPhase::Uploading, u))
    } else if state == "queued"@ {
        Some((TranscriptionStatus::Queued, TranscriptionProgressPhase::Queued, u))
    } else if state == "processing"@ {
        Some(
            (
                TranscriptionStatus::Transcribing,
                if phase == "diarizing"@ {
                    TranscriptionProgressPhase::Diarizing
                } else if phase == "finalizing"@ {
                    TranscriptionProgressPhase::Finalizing
                } else {
                    TranscriptionProgressPhase::Transcribing
                },
                u,
            ),
        )
    } else if state == "succeeded"@ {
        Some((TranscriptionStatus::Transcribing, TranscriptionProgressPhase::Finalizing, u))
    } else {
        None
    }
}

/// How a server job's state is shown: uploading as preparing, queued as
/// queued, processing as transcribing in the server's phase (diarizing or
/// finalizing when it says so, transcribing otherwise), succeeded as
/// finalizing, and any other state not at all; the progress counts bytes or
/// windows when the server says so, steps otherwise.
pub proof fn lemma_batch_progress_mapping(state: Seq<char>, phase: Seq<char>, unit: Seq<char>)
    ensures
        batch_progress_spec(state, phase, unit) is Some <==> (state == "uploading"@ || state
            == "queued"@ || state == "processing"@ || state == "succeeded"@),
        batch_progress_spec(state, phase, unit) matches Some((status, shown, counted)) ==> {
            &&& (counted == TranscriptionProgressUnit::Bytes) <==> unit == "bytes"@
            &&& (counted == TranscriptionProgressUnit::Windows) <==> unit == "windows"@
            &&& (counted == TranscriptionProgressUnit::Steps) <==> (unit != "bytes"@ && unit
                != "windows"@)
            &&& state == "uploading"@ ==> status == TranscriptionStatus::Preparing && shown
                == TranscriptionProgressPhase::Uploading
            &&& state == "queued"@ ==> status == TranscriptionStatus::Queued && shown
                == TranscriptionProgressPhase::Queued
            &&& state == "succeeded"@ ==> status == TranscriptionStatus::Transcribing && shown
                == TranscriptionProgressPhase::Finalizing
            &&& state == "processing"@ ==> {
                &&& status == TranscriptionStatus::Transcribing
                &&& (shown == TranscriptionProgressPhase::Diarizing) <==> phase == "diarizing"@
                &&& (shown == TranscriptionProgressPhase::Finalizing) <==> phase == "finalizing"@
                &&& (shown == TranscriptionProgressPhase::Transcribing) <==> (phase
                    != "diarizing"@ && phase != "finalizing"@)
            }
        },
{
    reveal_strlit("uploading");
    reveal_strlit("queued");
    reveal_strlit("processing");
    reveal_strlit("succeeded");
    reveal_strlit("diarizing");
    reveal_strlit("finalizing");
    reveal_strlit("bytes");
    reveal_strlit("windows");
    assert("uploading"@.len() == 9 && "queued"@.len() == 6 && "processing"@.len() == 10
        && "succeeded"@.len() == 9);
    assert("uploading"@[0] != "succeeded"@[0]);
    assert("diarizing"@.len() == 9 && "finalizing"@.len() == 10);
    assert("bytes"@.len() == 5 && "windows"@.len() == 7);
}

pub fn batch_progress(remote: &BatchJobStatus) -> (r: Option<
    (TranscriptionStatus, TranscriptionProgressPhase, TranscriptionProgressUnit),
>)
    ensures
        r == batch_progress_spec(remote.state@, remote.phase@, remote.progress_unit@),
{
    let unit = if str_eq(remote.progress_unit.as_str(), "bytes") {
        TranscriptionProgressUnit::Bytes
    } else if str_eq(remote.progress_unit.as_str(), "windows") {
        TranscriptionProgressUnit::Windows
    } else {
        TranscriptionProgressUnit::Steps
    };
    let state = remote.state.as_str();
    if str_eq(state, "uploading") {
        Some((TranscriptionStatus::Preparing, TranscriptionProgressPhase::Uploading, unit))
    } else if str_eq(state, "queued") {
        Some((TranscriptionStatus::Queued, TranscriptionProgressPhase::Queued, unit))
    } else if str_eq(state, "processing") {
        let phase = if str_eq(remote.phase.as_str(), "diarizing") {
            TranscriptionProgressPhase::Diarizing
        } else if str_eq(remote.phase.as_str(), "finalizing") {
            TranscriptionProgressPhase::Finalizing
        } else {
            TranscriptionProgressPhase::Transcribing
        };
        Some((TranscriptionStatus::Transcribing, phase, unit))
    } else if str_eq(state, "succeeded") {
        Some((TranscriptionStatus::Transcribing, TranscriptionProgressPhase::Finalizing, unit))
    } else {
        None
    }
}

/// What the client does next for a job in a given state.
#[derive(Debug, Clone, PartialEq, Eq)]
pub enum BatchStep {
    /// Upload the rest of the audio, then complete the upload.
    Upload,
    /// Wait, then ask again.
    Wait,
    /// Fetch the result and acknowledge it.
    Finish,
    /// Stop with this error.
    Stop(String),
}

pub open spec fn failure_detail(error: Option<BatchJobFailure>) -> Seq<char> {
    match error {
        Some(e) => e.message@ + " ("@ + e.code@ + ")"@,
        None => "ASR Server 处理会议录音失败"@,
    }
}

/// A step as values.
pub enum StepView {
    Upload,
    Wait,
    Finish,
    Stop(Seq<char>),
}

pub open spec fn step_view(step: BatchStep) -> StepView {
    match step {
        BatchStep::Upload => StepView::Upload,
        BatchStep::Wait => StepView::Wait,
        BatchStep::Finish => StepView::Finish,
        BatchStep::Stop(m) => StepView::Stop(m@),
    }
}

/// The step for each state: uploads go on, queued and running jobs are
/// waited for, a finished one is fetched, and a cancelled, failed or unknown
/// one ends with its reason.
pub open spec fn next_batch_step_spec(remote: BatchJobStatus) -> StepView {
    let state = remote.state@;
    if state == "uploading"@ {
        StepView::Upload
    } else if state == "queued"@ || state == "processing"@ {
        StepView::Wait
    } else if state == "succeeded"@ {
        StepView::Finish
    } else if state == "cancelled"@ {
        StepView::Stop("ASR Server 上的转写任务已取消，可以稍后继续"@)
    } else if state == "failed"@ {
        StepView::Stop(failure_detail(remote.error))
    } else {
        StepView::Stop("ASR Server 返回了未知任务状态："@ + state)
    }
}

pub fn next_batch_step(remote: &BatchJobStatus) -> (r: BatchStep)
    ensures
        step_view(r) == next_batch_step_spec(*remote),
{
    let state = remote.state.as_str();
    if str_eq(state, "uploading") {
        BatchStep::Upload
    } else if str_eq(state, "queued") || str_eq(state, "processing") {
        BatchStep::Wait
    } else if str_eq(state, "succeeded") {
        BatchStep::Finish
    } else if str_eq(state, "cancelled") {
        BatchStep::Stop(String::from_str("ASR Server 上的转写任务已取消，可以稍后继续"))
    } else if str_eq(state, "failed") {
        let detail = match &remote.error {
            Some(e) => {
                let mut out = chars_of(e.message.as_str());
                push_str(&mut out, " (");
                push_str(&mut out, e.code.as_str());
                push_str(&mut out, ")");
                string_from_chars(&out)
            },
            None => String::from_str("ASR Server 处理会议录音失败"),
        };
        BatchStep::Stop(detail)
    } else {
        let mut out = chars_of("ASR Server 返回了未知任务状态：");
        push_str(&mut out, state);
        BatchStep::Stop(string_from_chars(&out))
    }
}

/// A job found again after a restart is resumed when it had stopped.
pub fn needs_resume(had_remote_job: bool, state: &str) -> (r: bool)
    ensures
        r == (had_remote_job && (state@ == "cancelled"@ || state@ == "failed"@)),
{
    had_remote_job && (str_eq(state, "cancelled") || str_eq(state, "failed"))
}

/// The server is still stopping the job, so resuming is retried later.
pub fn job_still_stopping(error_text: &str) -> (r: bool)
    ensures
        r == has_substring(error_text@, "job_still_stopping"@),
{
    crate::text::str_contains(error_text, "job_still_stopping")
}

// ---------------------------------------------------------------------------
// Chunked upload
// ---------------------------------------------------------------------------

/// The server's job must describe this very file.
pub fn check_upload_target(remote: &BatchJobStatus, size: u64) -> (r: Result<(), String>)
    ensures
        r is Ok <==> remote.upload_length == size && remote.upload_offset <= size,
        r is Err ==> r->Err_0@ == "ASR Server 上的上传任务与本地录音大小不一致"@,
{
    if remote.upload_length != size || remote.upload_offset > size {
        return Err(String::from_str("ASR Server 上的上传任务与本地录音大小不一致"));
    }
    Ok(())
}

/// Bytes sent in the next request.
pub fn next_chunk_length(offset: u64, size: u64, chunk_bytes: u64) -> (r: u64)
    requires
        offset < size,
        chunk_bytes >= 1,
    ensures
        r == (if size - offset < chunk_bytes {
            size - offset
        } else {
            chunk_bytes as int
        }),
        1 <= r <= size - offset,
{
    let remaining = size - offset;
    if remaining < chunk_bytes {
        remaining
    } else {
        chunk_bytes
    }
}

/// What a chunk request's answer means.
#[derive(Debug, Clone, PartialEq, Eq)]
pub enum UploadReply {
    /// The server holds a different offset: continue from there.
    Resync(u64),
    /// The chunk was taken; the server now holds this many bytes.
    Accepted(u64),
    /// The upload fails with this error.
    Failed(String),
}

/// An answer as values.
pub enum ReplyView {
    Resync(u64),
    Accepted(u64),
    Failed(Seq<char>),
}

pub open spec fn reply_view(reply: UploadReply) -> ReplyView {
    match reply {
        UploadReply::Resync(o) => ReplyView::Resync(o),
        UploadReply::Accepted(o) => ReplyView::Accepted(o),
        UploadReply::Failed(m) => ReplyView::Failed(m@),
    }
}

/// `status` is the HTTP status code, `server_offset` the `Upload-Offset`
/// header when it is a number, `offset` and `length` the chunk just sent,
/// and `error_text` the error a refused request reports.
pub open spec fn upload_reply_spec(
    status: u16,
    server_offset: Option<u64>,
    offset: u64,
    length: u64,
    size: u64,
    error_text: Seq<char>,
) -> ReplyView {
    if status == 409 && server_offset is Some {
        if server_offset->0 > size {
            ReplyView::Failed("ASR Server 返回了无效的上传偏移"@)
        } else {
            ReplyView::Resync(server_offset->0)
        }
    } else if !(200 <= status && status < 300) {
        ReplyView::Failed(error_text)
    } else if server_offset is None {
        ReplyView::Failed("ASR Server 上传响应缺少 Upload-Offset"@)
    } else if server_offset->0 != offset + length {
        ReplyView::Failed("ASR Server 返回了无效的上传偏移"@)
    } else {
        ReplyView::Accepted(server_offset->0)
    }
}

/// The answer to one chunk request.
pub fn upload_reply(
    status: u16,
    server_offset: Option<u64>,
    offset: u64,
    length: u64,
    size: u64,
    error_text: &str,
) -> (r: UploadReply)
    ensures
        reply_view(r) == upload_reply_spec(status, server_offset, offset, length, size, error_text@),
{
    if status == 409 {
        if let Some(o) = server_offset {
            if o > size {
                return UploadReply::Failed(String::from_str("ASR Server 返回了无效的上传偏移"));
            }
            return UploadReply::Resync(o);
        }
    }
    if !(200 <= status && status < 300) {
        return UploadReply::Failed(error_text.to_string());
    }
    match server_offset {
        None => UploadReply::Failed(String::from_str("ASR Server 上传响应缺少 Upload-Offset")),
        Some(o) => {
            if offset as u128 + length as u128 != o as u128 {
                UploadReply::Failed(String::from_str("ASR Server 返回了无效的上传偏移"))
            } else {
                UploadReply::Accepted(o)
            }
        },
    }
}

/// The upload never moves past the file, and every accepted chunk moves it
/// forward by exactly the bytes sent.
pub proof fn lemma_upload_offsets_stay_in_the_file(
    status: u16,
    server_offset: Option<u64>,
    offset: u64,
    length: u64,
    size: u64,
    error_text: Seq<char>,
)
    requires
        offset < size,
        1 <= length <= size - offset,
    ensures
        upload_reply_spec(status, server_offset, offset, length, size, error_text) matches ReplyView::Resync(o)
            ==> o <= size,
        upload_reply_spec(status, server_offset, offset, length, size, error_text) matches ReplyView::Accepted(o)
            ==> offset < o <= size && o == offset + length,
{
}

// ---------------------------------------------------------------------------
// Server addresses
// ---------------------------------------------------------------------------

/// The path of an API root: without trailing slashes, ending in `/v1`.
pub open spec fn api_path(path: Seq<char>) -> Seq<char> {
    let p = crate::text::trim_end_char(path, '/');
    if p.len() == 0 {
        "/v1"@
    } else if crate::text::has_suffix(p, "/v1"@) {
        p
    } else {
        p + "/v1"@
    }
}

/// A server address as stored: an http or https URL whose path ends in
/// `/v1`, without query, fragment or trailing slash.
pub open spec fn normalize_base_url_spec(value: Seq<char>) -> Result<Seq<char>, Seq<char>> {
    let trimmed = crate::ai::base_of(value);
    if trimmed.len() == 0 {
        Err("API Base URL 不能为空"@)
    } else {
        match crate::ai::url_parts(trimmed) {
            None => Err("API Base URL 格式无效"@),
            Some((scheme, _)) => if !(scheme == "http"@ || scheme == "https"@) {
                Err("API Base URL 仅支持 http 或 https"@)
            } else {
                Ok(
                    crate::text::trim_end_char(
                        crate::ai::url_with_path(trimmed, api_path(crate::ai::url_path(trimmed))),
                        '/',
                    ),
                )
            },
        }
    }
}

pub fn normalize_base_url(value: &str) -> (r: Result<String, String>)
    ensures
        match normalize_base_url_spec(value@) {
            Ok(v) => r is Ok && r->Ok_0@ == v,
            Err(e) => r is Err && r->Err_0@ == e,
        },
{
    let t = crate::text::trim_str(value);
    let trimmed = crate::text::trim_end_char_chars(&t, '/');
    if trimmed.len() == 0 {
        return Err(String::from_str("API Base URL 不能为空"));
    }
    let text = string_from_chars(&trimmed);
    let parts = match crate::ai::parse_url(text.as_str()) {
        Some(p) => p,
        None => return Err(String::from_str("API Base URL 格式无效")),
    };
    if !(str_eq(parts.scheme.as_str(), "http") || str_eq(parts.scheme.as_str(), "https")) {
        return Err(String::from_str("API Base URL 仅支持 http 或 https"));
    }
    let p = crate::text::trim_end_char_chars(&chars_of(parts.path.as_str()), '/');
    let path: Vec<char> = if p.len() == 0 {
        chars_of("/v1")
    } else if crate::text::ends_with_chars(&p, &chars_of("/v1")) {
        p
    } else {
        let mut q = p;
        push_str(&mut q, "/v1");
        q
    };
    let path_text = string_from_chars(&path);
    let u = crate::ai::rebuild_url(text.as_str(), path_text.as_str());
    let out = crate::text::trim_end_char_chars(&chars_of(u.as_str()), '/');
    Ok(string_from_chars(&out))
}

/// The address of a job on the server.
pub fn batch_job_url(base_url: &str, remote_job_id: &str) -> (r: Result<String, String>)
    ensures
        match normalize_base_url_spec(base_url@) {
            Ok(v) => r is Ok && r->Ok_0@ == v + "/nota/transcription-jobs/"@ + remote_job_id@,
            Err(e) => r is Err && r->Err_0@ == e,
        },
{
    let base = match normalize_base_url(base_url) {
        Ok(b) => b,
        Err(e) => return Err(e),
    };
    let mut out = chars_of(base.as_str());
    push_str(&mut out, "/nota/transcription-jobs/");
    push_str(&mut out, remote_job_id);
    Ok(string_from_chars(&out))
}

/// Speaker counts can only be asked of a FunASR server.
pub fn check_speaker_count(speaker_count: Option<u32>, kind: crate::models::AsrProviderKind) -> (r: Result<(), String>)
    ensures
        r is Err <==> speaker_count is Some && kind != crate::models::AsrProviderKind::FunAsr,
        r is Err ==> r->Err_0@ == "只有 FunASR 服务支持指定说话人数"@,
{
    if speaker_count.is_some() && kind != crate::models::AsrProviderKind::FunAsr {
        return Err(String::from_str("只有 FunASR 服务支持指定说话人数"));
    }
    Ok(())
}

/// The status and message recorded for a transcription that failed:
/// interrupted when the user asked for it, else failed with the compacted
/// error text.
pub fn transcription_failure(cancelled: bool, error_text: &str) -> (r: (TranscriptionStatus, String))
    ensures
        cancelled ==> r.0 == TranscriptionStatus::Cancelled && r.1@
            == "转写已中断；已完成进度已保留，可以稍后继续"@,
        !cancelled ==> r.0 == TranscriptionStatus::Failed && r.1@ == sanitize_error_spec(error_text@),
{
    if cancelled {
        (TranscriptionStatus::Cancelled, String::from_str("转写已中断；已完成进度已保留，可以稍后继续"))
    } else {
        (TranscriptionStatus::Failed, sanitize_error(error_text))
    }
}

/// Holds a recording for a new transcription; a recording already held is
/// refused.
pub fn reserve_transcription(active: &mut crate::ai::ActiveJobs, recording_id: &str) -> (r: Result<(), String>)
    ensures
        old(active)@.contains(recording_id@) <==> r is Err,
        r is Err ==> final(active)@ == old(active)@ && r->Err_0@ == "该录音已有转写任务正在排队或处理"@,
        r is Ok ==> final(active)@ == old(active)@.insert(recording_id@),
{
    if !active.reserve(recording_id) {
        return Err(String::from_str("该录音已有转写任务正在排队或处理"));
    }
    Ok(())
}

} // verus!
