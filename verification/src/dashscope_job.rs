//! A DashScope transcription job: the checkpoint kept for recovery, the
//! checks on each reply, and the names of the uploaded audio.
use crate::dashscope::{
    safe_code, safe_code_spec, successful_result_url, task_state, task_state_spec, first_usable,
    SubtaskResult, TaskState,
};
use crate::file_names::{extension_chars, extension_spec, file_name_chars, file_name_spec};
use crate::text::{chars_of, decimal, decimal_chars, has_prefix, push_chars, push_str, string_from_chars, trim, trim_end_char, trim_end_char_chars, trim_str};
use vstd::prelude::*;

verus! {

// ---------------------------------------------------------------------------
// Recovery checkpoint
// ---------------------------------------------------------------------------

/// How far a job got, as recorded for recovery.
#[derive(Debug, Clone, Copy, PartialEq, Eq, Structural)]
pub enum Stage {
    New,
    Uploading,
    Uploaded,
    Submitting,
    Submitted,
    Pending,
    Running,
    Downloading,
    Normalizing,
}

/// What is kept of a job between runs.
#[derive(Debug, Clone)]
pub struct Checkpoint {
    pub version: u32,
    pub stage: Stage,
    /// The `oss://` address of the uploaded audio.
    pub oss_url: Option<String>,
    /// When the uploaded audio is deleted, in RFC 3339.
    pub oss_expires_at: Option<String>,
    pub submit_attempted_at: Option<String>,
}

impl Default for Checkpoint {
    /// The checkpoint of a job that has not started.
    fn default() -> (c: Self)
        ensures
            c.version == 1,
            c.stage == Stage::New,
            c.oss_url is None,
            c.oss_expires_at is None,
            c.submit_attempted_at is None,
    {
        Checkpoint {
            version: 1,
            stage: Stage::New,
            oss_url: None,
            oss_expires_at: None,
            submit_attempted_at: None,
        }
    }
}

/// Seconds and nanoseconds since the Unix epoch at which the RFC 3339 time
/// `s` lies (`DateTime::parse_from_rfc3339`, then `timestamp()` and
/// `timestamp_subsec_nanos()`), or `None` when `s` is not one.
pub uninterp spec fn rfc3339_instant(s: Seq<char>) -> Option<(i64, u32)>;

/// `chrono::DateTime::parse_from_rfc3339`, as seconds and nanoseconds.
#[verifier::external_body]
fn parse_rfc3339(s: &str) -> (r: Option<(i64, u32)>)
    ensures
        r == rfc3339_instant(s@),
{
    match chrono::DateTime::parse_from_rfc3339(s) {
        Ok(t) => Some((t.timestamp(), t.timestamp_subsec_nanos())),
        Err(_) => None,
    }
}

/// `chrono::Utc::now()`, as seconds and nanoseconds since the Unix epoch.
/// The clock is read: nothing is claimed of the value.
#[verifier::external_body]
fn utc_now() -> (r: (i64, u32)) {
    let t = chrono::Utc::now();
    (t.timestamp(), t.timestamp_subsec_nanos())
}

/// `a` lies after `b`, both as seconds and nanoseconds.
pub open spec fn instant_after(a: (i64, u32), b: (int, u32)) -> bool {
    a.0 > b.0 || (a.0 == b.0 && a.1 > b.1)
}

/// The uploaded audio can still be used at `now`: its address is an
/// `oss://` one and it expires more than five minutes later.
pub open spec fn uploaded_object_valid_spec(c: Checkpoint, now: (i64, u32)) -> bool {
    &&& c.oss_url matches Some(u) && has_prefix(u@, "oss://"@)
    &&& c.oss_expires_at matches Some(e) && rfc3339_instant(e@) matches Some(t) && instant_after(
        t,
        (now.0 + 300, now.1),
    )
}

impl Checkpoint {
    /// The checkpoint stored as `value`: a blank value or `{}` is a job not
    /// started; `parsed` is what `value` reads as, `None` when it is not a
    /// checkpoint; only version 1 is read.
    pub fn restore(value: &str, parsed: Option<Checkpoint>) -> (r: Result<Checkpoint, String>)
        ensures
            (trim(value@).len() == 0 || trim(value@) == "{}"@) ==> r is Ok && r->Ok_0.version == 1
                && r->Ok_0.stage == Stage::New && r->Ok_0.oss_url is None && r->Ok_0.oss_expires_at is None
                && r->Ok_0.submit_attempted_at is None,
            !(trim(value@).len() == 0 || trim(value@) == "{}"@) ==> match parsed {
                None => r is Err && r->Err_0@ == "无法读取 DashScope 恢复状态"@,
                Some(c) => if c.version == 1 {
                    r is Ok && r->Ok_0 == c
                } else {
                    r is Err && r->Err_0@ == "DashScope 恢复状态版本不受支持"@
                },
            },
    {
        let t = trim_str(value);
        if t.len() == 0 || crate::text::chars_eq(&t, &chars_of("{}")) {
            return Ok(Checkpoint::default());
        }
        match parsed {
            None => Err(String::from_str("无法读取 DashScope 恢复状态")),
            Some(c) => {
                if c.version != 1 {
                    return Err(String::from_str("DashScope 恢复状态版本不受支持"));
                }
                Ok(c)
            },
        }
    }

    /// Whether the uploaded audio can still be used at `now`.
    pub fn uploaded_object_valid_at(&self, now: (i64, u32)) -> (r: bool)
        ensures
            r == uploaded_object_valid_spec(*self, now),
    {
        let url_ok = match &self.oss_url {
            Some(u) => crate::text::starts_with_chars(&chars_of(u.as_str()), &chars_of("oss://")),
            None => false,
        };
        if !url_ok {
            return false;
        }
        match &self.oss_expires_at {
            Some(e) => match parse_rfc3339(e.as_str()) {
                Some(t) => {
                    let limit = now.0 as i128 + 300;
                    (t.0 as i128) > limit || ((t.0 as i128) == limit && t.1 > now.1)
                },
                None => false,
            },
            None => false,
        }
    }

    /// Whether the uploaded audio can still be used now.
    pub fn uploaded_object_is_valid(&self) -> (r: bool)
        ensures
            r ==> (self.oss_url matches Some(u) && has_prefix(u@, "oss://"@)),
            r ==> (self.oss_expires_at matches Some(e) && rfc3339_instant(e@) is Some),
            exists|now: (i64, u32)| r == #[trigger] uploaded_object_valid_spec(*self, now),
    {
        let now = utc_now();
        let r = self.uploaded_object_valid_at(now);
        assert(r == uploaded_object_valid_spec(*self, now));
        r
    }
}

// ---------------------------------------------------------------------------
// Replies
// ---------------------------------------------------------------------------

/// The body of a reply, as read.
#[derive(Debug, Clone)]
pub enum JsonBody {
    Invalid,
    /// Valid JSON; `code` is its `code` field when that is a string.
    Valid { code: Option<String> },
}

/// A reply is accepted when it is within the size limit, valid JSON and a
/// success; otherwise the error names the operation.
pub open spec fn check_reply_spec(
    operation: Seq<char>,
    status: u16,
    declared_length: Option<u64>,
    body_length: u64,
    max_bytes: u64,
    body: JsonBody,
) -> Result<(), Seq<char>> {
    if (declared_length matches Some(n) && n > max_bytes) || body_length > max_bytes {
        Err(operation + "响应超过安全大小限制"@)
    } else {
        match body {
            JsonBody::Invalid => Err(operation + "返回了无效 JSON"@),
            JsonBody::Valid { code } => if 200 <= status && status < 300 {
                Ok(())
            } else {
                match code {
                    Some(c) => Err(operation + "失败（HTTP "@ + decimal(status as nat) + "，错误码 "@
                        + safe_code_spec(c@) + "）"@),
                    None => Err(operation + "失败（HTTP "@ + decimal(status as nat) + "）"@),
                }
            },
        }
    }
}

/// `declared_length` is the length the reply announced, `body_length` the
/// bytes read of it (at most one past `max_bytes`).
pub fn check_reply(
    operation: &str,
    status: u16,
    declared_length: Option<u64>,
    body_length: u64,
    max_bytes: u64,
    body: &JsonBody,
) -> (r: Result<(), String>)
    ensures
        match check_reply_spec(operation@, status, declared_length, body_length, max_bytes, *body) {
            Ok(()) => r is Ok,
            Err(e) => r is Err && r->Err_0@ == e,
        },
{
    let too_large = match declared_length {
        Some(n) => n > max_bytes,
        None => false,
    };
    if too_large || body_length > max_bytes {
        let mut m = chars_of(operation);
        push_str(&mut m, "响应超过安全大小限制");
        return Err(string_from_chars(&m));
    }
    match body {
        JsonBody::Invalid => {
            let mut m = chars_of(operation);
            push_str(&mut m, "返回了无效 JSON");
            Err(string_from_chars(&m))
        },
        JsonBody::Valid { code } => {
            if 200 <= status && status < 300 {
                return Ok(());
            }
            let mut m = chars_of(operation);
            push_str(&mut m, "失败（HTTP ");
            push_chars(&mut m, &decimal_chars(status as u64));
            match code {
                Some(c) => {
                    push_str(&mut m, "，错误码 ");
                    let safe = safe_code(c.as_str());
                    push_str(&mut m, safe.as_str());
                    push_str(&mut m, "）");
                },
                None => {
                    push_str(&mut m, "）");
                },
            }
            Err(string_from_chars(&m))
        },
    }
}

// ---------------------------------------------------------------------------
// Upload and submission
// ---------------------------------------------------------------------------

/// Only Nota's own Ogg recordings are uploaded.
pub fn check_upload_audio(path: &str) -> (r: Result<(), String>)
    ensures
        r is Ok <==> extension_spec(path@) == Some("ogg"@),
        r is Err ==> r->Err_0@ == "DashScope 文件转写仅上传 Nota 的原始 Ogg 录音"@,
{
    let ok = match extension_chars(path) {
        Some(e) => crate::text::chars_eq(&e, &chars_of("ogg")),
        None => false,
    };
    if !ok {
        return Err(String::from_str("DashScope 文件转写仅上传 Nota 的原始 Ogg 录音"));
    }
    Ok(())
}

/// The file must fit the upload limit, when the service gave one.
pub fn check_upload_size(size: u64, max_bytes: Option<u64>) -> (r: Result<(), String>)
    ensures
        r is Err <==> (max_bytes matches Some(m) && size > m),
        r is Err ==> r->Err_0@ == "录音文件超过 DashScope 临时上传限制"@,
{
    match max_bytes {
        Some(m) => if size > m {
            return Err(String::from_str("录音文件超过 DashScope 临时上传限制"));
        },
        None => {},
    }
    Ok(())
}

/// The name the audio is stored under: the upload directory without
/// trailing slashes, then the file name of `path` (a fixed name when the
/// path has none).
pub open spec fn object_key_spec(upload_dir: Seq<char>, path: Seq<char>) -> Seq<char> {
    let name = file_name_spec(path);
    trim_end_char(upload_dir, '/') + seq!['/'] + if name.len() == 0 {
        "nota-recording.ogg"@
    } else {
        name
    }
}

pub fn object_key(upload_dir: &str, path: &str) -> (r: String)
    ensures
        r@ == object_key_spec(upload_dir@, path@),
{
    let mut out = trim_end_char_chars(&chars_of(upload_dir), '/');
    out.push('/');
    let name = file_name_chars(path);
    if name.len() == 0 {
        push_str(&mut out, "nota-recording.ogg");
    } else {
        push_chars(&mut out, &name);
    }
    string_from_chars(&out)
}

/// The address the service reads the uploaded audio from.
pub fn oss_url(object_key: &str) -> (r: String)
    ensures
        r@ == "oss://"@ + object_key@,
{
    let mut out = chars_of("oss://");
    push_str(&mut out, object_key);
    string_from_chars(&out)
}

/// The temporary storage answers a finished upload with 200.
pub fn check_upload_status(status: u16) -> (r: Result<(), String>)
    ensures
        r is Ok <==> status == 200,
        r is Err ==> r->Err_0@ == "DashScope 临时上传失败（HTTP "@ + decimal(status as nat) + "）"@,
{
    if status != 200 {
        let mut m = chars_of("DashScope 临时上传失败（HTTP ");
        push_chars(&mut m, &decimal_chars(status as u64));
        push_str(&mut m, "）");
        return Err(string_from_chars(&m));
    }
    Ok(())
}

/// Only an `oss://` address is submitted.
pub fn check_oss_url(oss_url: &str) -> (r: Result<(), String>)
    ensures
        r is Ok <==> has_prefix(oss_url@, "oss://"@),
        r is Err ==> r->Err_0@ == "DashScope 临时对象地址无效"@,
{
    if !crate::text::starts_with_chars(&chars_of(oss_url), &chars_of("oss://")) {
        return Err(String::from_str("DashScope 临时对象地址无效"));
    }
    Ok(())
}

/// The body of the transcription request, as `serde_json` prints it (keys
/// in order): the uploaded file, the model, and diarization on the first
/// channel, with the speaker count when one was given.
pub open spec fn submit_body_spec(oss_url: Seq<char>, speaker_count: Option<u32>) -> Seq<char> {
    "{\"input\":{\"file_urls\":["@ + crate::logging::json_quoted(oss_url) + "]},\"model\":"@
        + crate::logging::json_quoted(crate::dashscope::model_name())
        + ",\"parameters\":{\"channel_id\":[0],\"diarization_enabled\":true"@ + match speaker_count {
        Some(n) => ",\"speaker_count\":"@ + decimal(n as nat),
        None => seq![],
    } + "}}"@
}

pub fn submit_request_body(oss_url: &str, speaker_count: Option<u32>) -> (r: String)
    ensures
        r@ == submit_body_spec(oss_url@, speaker_count),
{
    let mut out = chars_of("{\"input\":{\"file_urls\":[");
    push_chars(&mut out, &crate::logging::quoted_chars(&chars_of(oss_url)));
    push_str(&mut out, "]},\"model\":");
    let model = chars_of("qwen-audio-3.0-asr-flash-filetrans");
    proof {
        reveal_strlit("qwen-audio-3.0-asr-flash-filetrans");
    }
    push_chars(&mut out, &crate::logging::quoted_chars(&model));
    push_str(&mut out, ",\"parameters\":{\"channel_id\":[0],\"diarization_enabled\":true");
    match speaker_count {
        Some(n) => {
            push_str(&mut out, ",\"speaker_count\":");
            push_chars(&mut out, &decimal_chars(n as u64));
        },
        None => {},
    }
    push_str(&mut out, "}}");
    string_from_chars(&out)
}

/// A submission is accepted with the task id the service returned; without
/// one, the outcome is unknown and nothing is retried.
pub fn submitted_task_id(task_id: Option<String>) -> (r: Result<String, String>)
    ensures
        match task_id {
            Some(t) if t@.len() > 0 => r is Ok && r->Ok_0 == t,
            _ => r is Err && r->Err_0@ == "DashScope 接受请求但没有返回 task_id；为避免重复计费，Nota 不会自动重试"@,
        },
{
    match task_id {
        Some(t) => {
            if t.as_str().unicode_len() > 0 {
                Ok(t)
            } else {
                Err(String::from_str("DashScope 接受请求但没有返回 task_id；为避免重复计费，Nota 不会自动重试"))
            }
        },
        None => Err(String::from_str("DashScope 接受请求但没有返回 task_id；为避免重复计费，Nota 不会自动重试")),
    }
}

// ---------------------------------------------------------------------------
// Task status
// ---------------------------------------------------------------------------

/// A task as the service reports it.
#[derive(Debug, Clone)]
pub struct TaskStatus {
    pub state: TaskState,
    pub result_url: Option<String>,
    pub error_code: Option<String>,
}

/// The status of a task from its reply: `task_status` must be there; a
/// succeeded task names its result; any error code is kept in a safe form.
pub fn task_status(
    status: Option<&str>,
    results: Option<&Vec<SubtaskResult>>,
    code: Option<&str>,
) -> (r: Result<TaskStatus, String>)
    ensures
        status is None ==> r is Err && r->Err_0@ == "DashScope 任务响应缺少 task_status"@,
        status is Some && task_state_spec(status->0@) != TaskState::Succeeded ==> r is Ok
            && r->Ok_0.state == task_state_spec(status->0@) && r->Ok_0.result_url is None,
        status is Some && task_state_spec(status->0@) == TaskState::Succeeded ==> match results {
            None => r is Err && r->Err_0@ == "DashScope 成功任务缺少结果列表"@,
            Some(list) => match first_usable(list@) {
                None => r is Err && r->Err_0@ == "DashScope 任务成功但没有可下载的转写结果"@,
                Some(i) => {
                    let url = list@[i].transcription_url->0@;
                    if crate::dashscope::is_trusted_aliyun_url(url) {
                        r is Ok && r->Ok_0.state == TaskState::Succeeded && (r->Ok_0.result_url matches Some(
                            u,
                        ) && u@ == url)
                    } else if crate::ai::url_parts(url) is None {
                        r is Err && r->Err_0@ == "转写结果地址"@ + "格式无效"@
                    } else {
                        r is Err && r->Err_0@ == "转写结果地址"@ + "不是受信任的阿里云 HTTPS 地址"@
                    }
                },
            },
        },
        r is Ok ==> match code {
            Some(c) => r->Ok_0.error_code matches Some(e) && e@ == safe_code_spec(c@),
            None => r->Ok_0.error_code is None,
        },
{
    let s = match status {
        Some(s) => s,
        None => return Err(String::from_str("DashScope 任务响应缺少 task_status")),
    };
    let state = task_state(s);
    let result_url = if state == TaskState::Succeeded {
        match successful_result_url(results) {
            Ok(u) => u,
            Err(e) => return Err(e),
        }
    } else {
        None
    };
    let error_code = match code {
        Some(c) => Some(safe_code(c)),
        None => None,
    };
    Ok(TaskStatus { state, result_url, error_code })
}

} // verus!
