//! What a transcription server's answers mean outside of a job: its model
//! list, a connection test, the capability probe, and the clean speaker
//! samples it picks for a voiceprint.
use crate::asr_batch::{http_error, http_error_spec, redact_secret, redact_secret_spec};
use crate::models::{AsrConnectionLevel, AsrConnectionTest, AsrModel, AsrProviderKind};
use crate::text::{chars_of, ends_with_chars, is_blank, is_blank_str, push_str, str_eq, string_from_chars};
use crate::transcript::{sanitize_error, sanitize_error_spec};
use vstd::prelude::*;

verus! {

// ---------------------------------------------------------------------------
// Replies that failed
// ---------------------------------------------------------------------------

/// The error for a reply whose status is not a success: the component and
/// status with the compacted body, the key written out nowhere.
pub open spec fn refused_reply_spec(component: Seq<char>, status: u16, body: Seq<char>, api_key: Seq<char>) -> Seq<char> {
    redact_secret_spec(http_error_spec(component, status, body), api_key)
}

pub open spec fn is_success(status: u16) -> bool {
    200 <= status && status < 300
}

fn refused_reply(component: &str, status: u16, body: &str, api_key: &str) -> (r: String)
    ensures
        r@ == refused_reply_spec(component@, status, body@, api_key@),
{
    let message = http_error(component, status, body);
    redact_secret(message.as_str(), api_key)
}

// ---------------------------------------------------------------------------
// Model list
// ---------------------------------------------------------------------------

/// A field of a JSON object: absent, a string, or another value.
#[derive(Debug, Clone)]
pub enum JsonField {
    Absent,
    Text(String),
    Other,
}

/// An entry of the model list as the server wrote it.
#[derive(Debug, Clone)]
pub struct AsrModelEntry {
    /// `id`, when it is a string.
    pub id: Option<String>,
    pub owned_by: JsonField,
    /// `ownedBy`, read only when `owned_by` is absent.
    pub owned_by_camel: JsonField,
    /// `ready`, when it is a boolean.
    pub ready: Option<bool>,
}

/// The body of a model list reply.
#[derive(Debug, Clone)]
pub enum ModelsReply {
    InvalidJson,
    MissingData,
    Entries(Vec<AsrModelEntry>),
}

pub open spec fn field_text(field: JsonField) -> Option<String> {
    match field {
        JsonField::Text(t) => Some(t),
        _ => None,
    }
}

/// `owned_by`, or `ownedBy` when `owned_by` is absent, when that is a string.
pub open spec fn entry_owner(entry: AsrModelEntry) -> Option<String> {
    match entry.owned_by {
        JsonField::Absent => field_text(entry.owned_by_camel),
        other => field_text(other),
    }
}

/// The models named by the entries that have an id, in list order.
pub open spec fn asr_entry_models(entries: Seq<AsrModelEntry>) -> Seq<AsrModel>
    decreases entries.len(),
{
    if entries.len() == 0 {
        seq![]
    } else {
        let prev = asr_entry_models(entries.drop_last());
        let e = entries.last();
        match e.id {
            Some(id) => prev.push(AsrModel { id, owned_by: entry_owner(e), ready: e.ready }),
            None => prev,
        }
    }
}

pub open spec fn list_models_spec(
    status: u16,
    body: Seq<char>,
    api_key: Seq<char>,
    reply: ModelsReply,
) -> Result<Seq<AsrModel>, Seq<char>> {
    if !is_success(status) {
        Err(refused_reply_spec("模型接口"@, status, body, api_key))
    } else {
        match reply {
            ModelsReply::InvalidJson => Err("模型接口返回了无效 JSON"@),
            ModelsReply::MissingData => Err("模型接口响应中缺少 data 数组"@),
            ModelsReply::Entries(entries) => Ok(asr_entry_models(entries@)),
        }
    }
}

fn field_text_exec(field: &JsonField) -> (r: Option<String>)
    ensures
        r == field_text(*field),
{
    match field {
        JsonField::Text(t) => Some(t.clone()),
        _ => None,
    }
}

/// The models of a model list reply with status `status` and body `body`,
/// `reply` being that body as read.
pub fn list_models(status: u16, body: &str, api_key: &str, reply: ModelsReply) -> (r: Result<Vec<AsrModel>, String>)
    ensures
        match list_models_spec(status, body@, api_key@, reply) {
            Ok(models) => r is Ok && r->Ok_0@ == models,
            Err(e) => r is Err && r->Err_0@ == e,
        },
{
    if !(200 <= status && status < 300) {
        return Err(refused_reply("模型接口", status, body, api_key));
    }
    let entries = match reply {
        ModelsReply::InvalidJson => return Err(String::from_str("模型接口返回了无效 JSON")),
        ModelsReply::MissingData => return Err(String::from_str("模型接口响应中缺少 data 数组")),
        ModelsReply::Entries(entries) => entries,
    };
    let mut out: Vec<AsrModel> = Vec::new();
    let mut k: usize = 0;
    while k < entries.len()
        invariant
            k <= entries@.len(),
            out@ == asr_entry_models(entries@.take(k as int)),
        decreases entries@.len() - k,
    {
        assert(entries@.take(k + 1).drop_last() =~= entries@.take(k as int));
        let e = &entries[k];
        match &e.id {
            Some(id) => {
                let owner = match &e.owned_by {
                    JsonField::Absent => field_text_exec(&e.owned_by_camel),
                    other => field_text_exec(other),
                };
                out.push(AsrModel { id: id.clone(), owned_by: owner, ready: e.ready });
            },
            None => {},
        }
        k = k + 1;
    }
    assert(entries@.take(entries@.len() as int) =~= entries@);
    Ok(out)
}

// ---------------------------------------------------------------------------
// Connection test
// ---------------------------------------------------------------------------

/// The health check address of a FunASR server: its API root without the
/// trailing `/v1`, then `/health`.
pub open spec fn health_url_spec(base: Seq<char>) -> Seq<char> {
    let root = if crate::text::has_suffix(base, "/v1"@) {
        base.take(base.len() - 3)
    } else {
        base
    };
    root + "/health"@
}

pub fn health_url(base: &str) -> (r: String)
    ensures
        r@ == health_url_spec(base@),
{
    let b = chars_of(base);
    let suffix = chars_of("/v1");
    proof {
        reveal_strlit("/v1");
    }
    let mut root = if ends_with_chars(&b, &suffix) {
        crate::text::slice_to_vec(&b, 0, b.len() - 3)
    } else {
        b
    };
    push_str(&mut root, "/health");
    string_from_chars(&root)
}

/// What the extra checks of a FunASR server found: the device and status
/// the health check reported, and the error of the capability probe when it
/// failed.
#[derive(Debug, Clone)]
pub struct FunAsrProbe {
    pub device: Option<String>,
    pub health_status: Option<String>,
    pub batch_error: Option<String>,
}

/// The level, message, models and device of a connection test.
pub struct ConnectionView {
    pub level: AsrConnectionLevel,
    pub message: Seq<char>,
    pub models: Seq<AsrModel>,
    pub device: Option<Seq<char>>,
}

pub open spec fn connection_view(t: AsrConnectionTest) -> ConnectionView {
    ConnectionView {
        level: t.level,
        message: t.message@,
        models: t.models@,
        device: crate::models::opt_view(t.device),
    }
}

/// A reachable server is a success, or a warning when the capability probe
/// failed; a FunASR server whose model list failed is still reachable, with
/// a warning; any other failed model list fails the test.
pub open spec fn test_connection_spec(
    kind: AsrProviderKind,
    probe: Option<FunAsrProbe>,
    models: Result<Seq<AsrModel>, Seq<char>>,
) -> Result<ConnectionView, Seq<char>> {
    let device = match probe {
        Some(p) => crate::models::opt_view(p.device),
        None => None,
    };
    let health = match probe {
        Some(p) => crate::models::opt_view(p.health_status),
        None => None,
    };
    let warning = match probe {
        Some(p) => match p.batch_error {
            Some(e) => Some(sanitize_error_spec(e@)),
            None => None,
        },
        None => None,
    };
    match models {
        Ok(list) => Ok(
            ConnectionView {
                level: if warning is Some {
                    AsrConnectionLevel::Warning
                } else {
                    AsrConnectionLevel::Success
                },
                message: match warning {
                    Some(w) => w,
                    None => match health {
                        Some(s) => "服务可用（"@ + s + "），支持整场会议转写"@,
                        None => "服务可用，支持整场会议转写"@,
                    },
                },
                models: list,
                device,
            },
        ),
        Err(error) => if kind == AsrProviderKind::FunAsr {
            Ok(
                ConnectionView {
                    level: AsrConnectionLevel::Warning,
                    message: match warning {
                        Some(w) => w + "；同时模型接口不可用："@ + error,
                        None => "服务健康检查通过，但模型接口不可用："@ + error,
                    },
                    models: seq![],
                    device,
                },
            )
        } else {
            Err(error)
        },
    }
}

/// The answer to a connection test. `probe` holds what the health check and
/// the capability probe of a FunASR server found (`None` for other
/// servers); `models` is the model list or the error that fetching it gave.
pub fn test_connection(
    kind: AsrProviderKind,
    probe: Option<FunAsrProbe>,
    models: Result<Vec<AsrModel>, String>,
) -> (r: Result<AsrConnectionTest, String>)
    ensures
        match test_connection_spec(
            kind,
            probe,
            match models {
                Ok(m) => Ok(m@),
                Err(e) => Err(e@),
            },
        ) {
            Ok(v) => r is Ok && r->Ok_0.reachable && connection_view(r->Ok_0) == v,
            Err(e) => r is Err && r->Err_0@ == e,
        },
{
    let (device, health, warning) = match probe {
        Some(p) => (
            p.device,
            p.health_status,
            match p.batch_error {
                Some(e) => Some(sanitize_error(e.as_str())),
                None => None,
            },
        ),
        None => (None, None, None),
    };
    match models {
        Ok(list) => {
            let level = if warning.is_some() {
                AsrConnectionLevel::Warning
            } else {
                AsrConnectionLevel::Success
            };
            let message = match warning {
                Some(w) => w,
                None => match health {
                    Some(s) => {
                        let mut out = chars_of("服务可用（");
                        push_str(&mut out, s.as_str());
                        push_str(&mut out, "），支持整场会议转写");
                        string_from_chars(&out)
                    },
                    None => String::from_str("服务可用，支持整场会议转写"),
                },
            };
            Ok(AsrConnectionTest { reachable: true, level, message, models: list, device })
        },
        Err(error) => {
            if kind == AsrProviderKind::FunAsr {
                let message = match warning {
                    Some(w) => {
                        let mut out = chars_of(w.as_str());
                        push_str(&mut out, "；同时模型接口不可用：");
                        push_str(&mut out, error.as_str());
                        string_from_chars(&out)
                    },
                    None => {
                        let mut out = chars_of("服务健康检查通过，但模型接口不可用：");
                        push_str(&mut out, error.as_str());
                        string_from_chars(&out)
                    },
                };
                let empty: Vec<AsrModel> = Vec::new();
                proof {
                    assert(empty@ =~= seq![]);
                }
                Ok(
                    AsrConnectionTest {
                        reachable: true,
                        level: AsrConnectionLevel::Warning,
                        message,
                        models: empty,
                        device,
                    },
                )
            } else {
                Err(error)
            }
        },
    }
}

/// A failed health check of a FunASR server fails the test.
pub fn health_check_error(status: u16, body: &str, api_key: &str) -> (r: Option<String>)
    ensures
        is_success(status) <==> r is None,
        r matches Some(e) ==> e@ == refused_reply_spec("健康检查"@, status, body@, api_key@),
{
    if 200 <= status && status < 300 {
        None
    } else {
        Some(refused_reply("健康检查", status, body, api_key))
    }
}

// ---------------------------------------------------------------------------
// Capability probe
// ---------------------------------------------------------------------------

/// A server without the capability endpoint is too old; another refusal
/// reports its status.
pub fn check_capabilities_status(status: u16, body: &str, api_key: &str) -> (r: Result<(), String>)
    ensures
        is_success(status) <==> r is Ok,
        status == 404 ==> r is Err && r->Err_0@ == "FunASR Server 版本过旧，不支持整场会议说话人一致性协议"@,
        status != 404 && !is_success(status) ==> r is Err && r->Err_0@ == refused_reply_spec(
            "Nota 批处理能力接口"@,
            status,
            body@,
            api_key@,
        ),
{
    if status == 404 {
        return Err(String::from_str("FunASR Server 版本过旧，不支持整场会议说话人一致性协议"));
    }
    if !(200 <= status && status < 300) {
        return Err(refused_reply("Nota 批处理能力接口", status, body, api_key));
    }
    Ok(())
}

// ---------------------------------------------------------------------------
// Clean speaker samples
// ---------------------------------------------------------------------------

/// Voiceprints are only taken by a FunASR server.
pub fn check_speaker_provider(kind: AsrProviderKind) -> (r: Result<(), String>)
    ensures
        r is Ok <==> kind == AsrProviderKind::FunAsr,
        r is Err ==> r->Err_0@ == "说话人识别需要 Nota ASR Server（FunASR 类型）"@,
{
    if kind != AsrProviderKind::FunAsr {
        return Err(String::from_str("说话人识别需要 Nota ASR Server（FunASR 类型）"));
    }
    Ok(())
}

/// The announced lowest purity of a clean sample.
#[derive(Debug, Clone, Copy, PartialEq, Eq, Structural)]
pub enum PurityLimit {
    Missing,
    /// A finite number above 0 and at most 1.
    Valid,
    Invalid,
}

/// What a server announces about voiceprints and clean samples.
#[derive(Debug, Clone)]
pub struct SpeakerCapabilities {
    pub embedding_version: Option<String>,
    pub analysis_version: Option<String>,
    pub max_bytes: Option<u64>,
    pub min_seconds: Option<u64>,
    pub max_seconds: Option<u64>,
    pub analysis_max_files: Option<usize>,
    pub analysis_min_clip_seconds: Option<u64>,
    pub analysis_max_clip_seconds: Option<u64>,
    pub analysis_max_total_seconds: Option<u64>,
    pub analysis_min_accepted_seconds: Option<u64>,
    pub min_purity: PurityLimit,
}

/// The limits a voiceprint and its clean samples must keep.
#[derive(Debug, Clone, Copy, PartialEq, Eq, Structural)]
pub struct SpeakerLimits {
    pub max_bytes: u64,
    pub analysis_max_files: usize,
    pub analysis_min_clip_seconds: u64,
    pub analysis_max_clip_seconds: u64,
    pub analysis_max_total_seconds: u64,
    pub analysis_min_accepted_seconds: u64,
}

pub open spec fn is_version_one(v: Option<String>) -> bool {
    v matches Some(s) && s@ == "1"@
}

/// The limits hang together: positive sizes and counts, a sample window
/// that is not empty, clip limits that fit the total, and a valid purity.
pub open spec fn limits_consistent(
    max_bytes: u64,
    min_seconds: u64,
    max_seconds: u64,
    max_files: usize,
    min_clip: u64,
    max_clip: u64,
    max_total: u64,
    min_accepted: u64,
    purity: PurityLimit,
) -> bool {
    &&& max_bytes != 0
    &&& min_seconds != 0
    &&& max_seconds > min_seconds
    &&& max_files != 0
    &&& min_clip != 0
    &&& max_clip >= min_clip
    &&& max_total >= min_clip
    &&& min_accepted >= min_clip
    &&& min_accepted <= max_total
    &&& purity == PurityLimit::Valid
}

/// Version 1 of both extensions, then each limit announced, in this order,
/// then limits that hang together.
pub open spec fn speaker_limits_spec(c: SpeakerCapabilities) -> Result<SpeakerLimits, Seq<char>> {
    if !is_version_one(c.embedding_version) {
        Err("当前 Nota ASR Server 版本不支持说话人声纹提取，请升级服务端"@)
    } else if !is_version_one(c.analysis_version) {
        Err("当前 Nota ASR Server 版本不支持 CAM++ 纯净声纹样本筛选，请升级服务端"@)
    } else if c.max_bytes is None {
        Err("服务端未返回声纹样本字节限制"@)
    } else if c.min_seconds is None {
        Err("服务端未返回声纹样本最短时长"@)
    } else if c.max_seconds is None {
        Err("服务端未返回声纹样本最长时长"@)
    } else if c.analysis_max_files is None {
        Err("服务端未返回纯净样本候选数量限制"@)
    } else if c.analysis_min_clip_seconds is None {
        Err("服务端未返回纯净样本最短片段限制"@)
    } else if c.analysis_max_clip_seconds is None {
        Err("服务端未返回纯净样本最长片段限制"@)
    } else if c.analysis_max_total_seconds is None {
        Err("服务端未返回纯净样本累计时长限制"@)
    } else if c.analysis_min_accepted_seconds is None {
        Err("服务端未返回纯净样本最短有效时长"@)
    } else if c.min_purity == PurityLimit::Missing {
        Err("服务端未返回纯净样本最低纯度"@)
    } else if !limits_consistent(
        c.max_bytes->0,
        c.min_seconds->0,
        c.max_seconds->0,
        c.analysis_max_files->0,
        c.analysis_min_clip_seconds->0,
        c.analysis_max_clip_seconds->0,
        c.analysis_max_total_seconds->0,
        c.analysis_min_accepted_seconds->0,
        c.min_purity,
    ) {
        Err("服务端返回了无效的声纹样本限制"@)
    } else {
        Ok(
            SpeakerLimits {
                max_bytes: c.max_bytes->0,
                analysis_max_files: c.analysis_max_files->0,
                analysis_min_clip_seconds: c.analysis_min_clip_seconds->0,
                analysis_max_clip_seconds: c.analysis_max_clip_seconds->0,
                analysis_max_total_seconds: c.analysis_max_total_seconds->0,
                analysis_min_accepted_seconds: c.analysis_min_accepted_seconds->0,
            },
        )
    }
}

fn version_one(v: &Option<String>) -> (r: bool)
    ensures
        r == is_version_one(*v),
{
    match v {
        Some(s) => str_eq(s.as_str(), "1"),
        None => false,
    }
}

pub fn check_speaker_capabilities(c: &SpeakerCapabilities) -> (r: Result<SpeakerLimits, String>)
    ensures
        match speaker_limits_spec(*c) {
            Ok(l) => r == Ok::<SpeakerLimits, String>(l),
            Err(e) => r is Err && r->Err_0@ == e,
        },
{
    if !version_one(&c.embedding_version) {
        return Err(String::from_str("当前 Nota ASR Server 版本不支持说话人声纹提取，请升级服务端"));
    }
    if !version_one(&c.analysis_version) {
        return Err(String::from_str("当前 Nota ASR Server 版本不支持 CAM++ 纯净声纹样本筛选，请升级服务端"));
    }
    let max_bytes = match c.max_bytes {
        Some(v) => v,
        None => return Err(String::from_str("服务端未返回声纹样本字节限制")),
    };
    let min_seconds = match c.min_seconds {
        Some(v) => v,
        None => return Err(String::from_str("服务端未返回声纹样本最短时长")),
    };
    let max_seconds = match c.max_seconds {
        Some(v) => v,
        None => return Err(String::from_str("服务端未返回声纹样本最长时长")),
    };
    let max_files = match c.analysis_max_files {
        Some(v) => v,
        None => return Err(String::from_str("服务端未返回纯净样本候选数量限制")),
    };
    let min_clip = match c.analysis_min_clip_seconds {
        Some(v) => v,
        None => return Err(String::from_str("服务端未返回纯净样本最短片段限制")),
    };
    let max_clip = match c.analysis_max_clip_seconds {
        Some(v) => v,
        None => return Err(String::from_str("服务端未返回纯净样本最长片段限制")),
    };
    let max_total = match c.analysis_max_total_seconds {
        Some(v) => v,
        None => return Err(String::from_str("服务端未返回纯净样本累计时长限制")),
    };
    let min_accepted = match c.analysis_min_accepted_seconds {
        Some(v) => v,
        None => return Err(String::from_str("服务端未返回纯净样本最短有效时长")),
    };
    if c.min_purity == PurityLimit::Missing {
        return Err(String::from_str("服务端未返回纯净样本最低纯度"));
    }
    if max_bytes == 0 || min_seconds == 0 || max_seconds <= min_seconds || max_files == 0 || min_clip
        == 0 || max_clip < min_clip || max_total < min_clip || min_accepted < min_clip
        || min_accepted > max_total || c.min_purity != PurityLimit::Valid {
        return Err(String::from_str("服务端返回了无效的声纹样本限制"));
    }
    Ok(
        SpeakerLimits {
            max_bytes,
            analysis_max_files: max_files,
            analysis_min_clip_seconds: min_clip,
            analysis_max_clip_seconds: max_clip,
            analysis_max_total_seconds: max_total,
            analysis_min_accepted_seconds: min_accepted,
        },
    )
}

/// What the server concluded of the candidate clips.
#[derive(Debug, Clone, Copy, PartialEq, Eq, Structural)]
pub enum SpeakerSampleAnalysisOutcome {
    /// Clean enough to take a voiceprint from.
    Enrollable,
    /// Only good for listening to.
    PreviewOnly,
}

/// A stretch of one candidate file, in milliseconds.
#[derive(Debug, Clone, Copy, PartialEq, Eq, Structural)]
pub struct CleanSpeakerSampleRange {
    pub file_index: usize,
    pub start_ms: u64,
    pub end_ms: u64,
}

/// There must be clips to analyse.
pub fn check_analysis_request(file_count: usize) -> (r: Result<(), String>)
    ensures
        r is Ok <==> file_count > 0,
        r is Err ==> r->Err_0@ == "没有可供 CAM++ 分析的候选声音片段"@,
{
    if file_count == 0 {
        return Err(String::from_str("没有可供 CAM++ 分析的候选声音片段"));
    }
    Ok(())
}

/// An analysis reply: its fields, with what its numbers were found to be.
#[derive(Debug, Clone)]
pub struct AnalysisReply {
    pub schema_version: String,
    pub outcome: SpeakerSampleAnalysisOutcome,
    pub embedding_model: String,
    pub embedding_fingerprint: String,
    pub dimension: usize,
    /// The accepted duration is a finite number, not negative.
    pub accepted_duration_valid: bool,
    /// The accepted duration is above zero.
    pub accepted_duration_positive: bool,
    /// The purity score is a finite number between 0 and 1.
    pub purity_valid: bool,
    /// The length of the embedding, when there is one.
    pub embedding_len: Option<usize>,
    /// Every value of the embedding is finite.
    pub embedding_finite: bool,
    pub accepted_range_count: usize,
}

/// The reply is of the version and model Nota speaks, names its model's
/// fingerprint and has sound numbers; it is then either an enrollable
/// outcome with an embedding of the announced size and accepted audio, or a
/// preview-only outcome with neither.
pub open spec fn analysis_reply_spec(r: AnalysisReply) -> Result<(), Seq<char>> {
    if !(r.schema_version@ == "1"@) || !(r.embedding_model@ == "cam++"@) || is_blank(
        r.embedding_fingerprint@,
    ) || !r.accepted_duration_valid || !r.purity_valid {
        Err("纯净声音样本分析接口返回了不兼容的数据"@)
    } else {
        let consistent = match r.outcome {
            SpeakerSampleAnalysisOutcome::Enrollable => r.embedding_len matches Some(n) && r.dimension
                > 0 && n == r.dimension && r.embedding_finite && r.accepted_duration_positive
                && r.accepted_range_count > 0,
            SpeakerSampleAnalysisOutcome::PreviewOnly => r.embedding_len is None && r.dimension == 0
                && r.accepted_range_count == 0,
        };
        if consistent {
            Ok(())
        } else {
            Err("纯净声音样本分析接口返回了互相矛盾的分析结果"@)
        }
    }
}

pub fn check_analysis_reply(reply: &AnalysisReply) -> (r: Result<(), String>)
    ensures
        match analysis_reply_spec(*reply) {
            Ok(()) => r is Ok,
            Err(e) => r is Err && r->Err_0@ == e,
        },
{
    if !str_eq(reply.schema_version.as_str(), "1") || !str_eq(reply.embedding_model.as_str(), "cam++")
        || is_blank_str(reply.embedding_fingerprint.as_str()) || !reply.accepted_duration_valid
        || !reply.purity_valid {
        return Err(String::from_str("纯净声音样本分析接口返回了不兼容的数据"));
    }
    let consistent = match reply.outcome {
        SpeakerSampleAnalysisOutcome::Enrollable => match reply.embedding_len {
            Some(n) => reply.dimension > 0 && n == reply.dimension && reply.embedding_finite
                && reply.accepted_duration_positive && reply.accepted_range_count > 0,
            None => false,
        },
        SpeakerSampleAnalysisOutcome::PreviewOnly => reply.embedding_len.is_none() && reply.dimension
            == 0 && reply.accepted_range_count == 0,
    };
    if consistent {
        Ok(())
    } else {
        Err(String::from_str("纯净声音样本分析接口返回了互相矛盾的分析结果"))
    }
}

/// A stretch as the reply gave it: its file, whether its times are finite
/// with a start not below zero and an end after it, and those times in
/// milliseconds.
#[derive(Debug, Clone, Copy)]
pub struct RangeReply {
    pub file_index: usize,
    pub times_valid: bool,
    pub start_ms: u64,
    pub end_ms: u64,
}

/// A stretch must lie in one of the files sent and have sound times.
pub fn clean_range(range: RangeReply, file_count: usize) -> (r: Result<CleanSpeakerSampleRange, String>)
    ensures
        r is Ok <==> range.file_index < file_count && range.times_valid,
        r is Ok ==> r->Ok_0 == (CleanSpeakerSampleRange {
            file_index: range.file_index,
            start_ms: range.start_ms,
            end_ms: range.end_ms,
        }),
        r is Err ==> r->Err_0@ == "纯净声音样本分析接口返回了无效的时间范围"@,
{
    if range.file_index >= file_count || !range.times_valid {
        return Err(String::from_str("纯净声音样本分析接口返回了无效的时间范围"));
    }
    Ok(CleanSpeakerSampleRange { file_index: range.file_index, start_ms: range.start_ms, end_ms: range.end_ms })
}

} // verus!
