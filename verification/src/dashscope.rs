//! The DashScope file-transcription service: which configuration is
//! accepted, how task states and result addresses are read, and how the
//! result document becomes a transcript.
use crate::ai::{parse_url, url_parts};
use crate::models::{AsrModel, AsrProviderCredentials, SegmentView, TranscriptSegment};
use crate::text::{
    ascii_lower_chars, ascii_lower_seq, chars_eq, chars_of, decimal, decimal_chars, has_suffix,
    is_blank, push_chars, push_str, str_eq, string_from_chars, trim, trim_str,
};
use crate::transcript::ProviderTranscript;
use vstd::prelude::*;

verus! {

pub open spec fn api_root() -> Seq<char> {
    "https://dashscope.aliyuncs.com/api/v1"@
}

pub open spec fn model_name() -> Seq<char> {
    "qwen-audio-3.0-asr-flash-filetrans"@
}

// ---------------------------------------------------------------------------
// Configuration
// ---------------------------------------------------------------------------

/// Only the public mainland endpoint and the one model are accepted, and a
/// key is needed.
pub open spec fn validate_credentials_spec(credentials: AsrProviderCredentials) -> Result<(), Seq<char>> {
    if crate::text::trim_end_char(credentials.provider.base_url@, '/') != api_root() {
        Err("DashScope 第一版仅支持中国区公共端点 "@ + api_root())
    } else if credentials.provider.model_id@ != model_name() {
        Err("DashScope 第一版仅支持模型 "@ + model_name())
    } else if is_blank(credentials.api_key@) {
        Err("请先填写 DashScope API Key"@)
    } else {
        Ok(())
    }
}

pub fn validate_credentials(credentials: &AsrProviderCredentials) -> (r: Result<(), String>)
    ensures
        match validate_credentials_spec(*credentials) {
            Ok(()) => r is Ok,
            Err(e) => r is Err && r->Err_0@ == e,
        },
{
    let base = chars_of(credentials.provider.base_url.as_str());
    let root = crate::text::trim_end_char_chars(&base, '/');
    if !chars_eq(&root, &chars_of("https://dashscope.aliyuncs.com/api/v1")) {
        let mut message = chars_of("DashScope 第一版仅支持中国区公共端点 ");
        push_str(&mut message, "https://dashscope.aliyuncs.com/api/v1");
        return Err(string_from_chars(&message));
    }
    if !str_eq(credentials.provider.model_id.as_str(), "qwen-audio-3.0-asr-flash-filetrans") {
        let mut message = chars_of("DashScope 第一版仅支持模型 ");
        push_str(&mut message, "qwen-audio-3.0-asr-flash-filetrans");
        return Err(string_from_chars(&message));
    }
    if crate::text::is_blank_str(credentials.api_key.as_str()) {
        return Err(String::from_str("请先填写 DashScope API Key"));
    }
    Ok(())
}

/// The one model the service offers here.
pub fn models() -> (r: Vec<AsrModel>)
    ensures
        r@.len() == 1,
        r@[0].id@ == model_name(),
        r@[0].owned_by matches Some(o) && o@ == "Alibaba Cloud"@,
        r@[0].ready == Some(true),
{
    let mut v: Vec<AsrModel> = Vec::new();
    v.push(
        AsrModel {
            id: String::from_str("qwen-audio-3.0-asr-flash-filetrans"),
            owned_by: Some(String::from_str("Alibaba Cloud")),
            ready: Some(true),
        },
    );
    v
}

// ---------------------------------------------------------------------------
// Tasks
// ---------------------------------------------------------------------------

#[derive(Debug, Clone, Copy, PartialEq, Eq, Structural)]
pub enum TaskState {
    Pending,
    Running,
    Succeeded,
    Failed,
    Cancelled,
    Unknown,
}

/// `char::to_ascii_uppercase`.
pub open spec fn ascii_upper(c: char) -> char {
    if 'a' <= c && c <= 'z' {
        ((c as u32) - 32) as char
    } else {
        c
    }
}

pub open spec fn ascii_upper_seq(s: Seq<char>) -> Seq<char> {
    s.map_values(|c: char| ascii_upper(c))
}

/// A task status as the service writes it, in any case.
pub open spec fn task_state_spec(status: Seq<char>) -> TaskState {
    let u = ascii_upper_seq(status);
    if u == "PENDING"@ || u == "WAITING"@ {
        TaskState::Pending
    } else if u == "RUNNING"@ {
        TaskState::Running
    } else if u == "SUCCEEDED"@ {
        TaskState::Succeeded
    } else if u == "FAILED"@ {
        TaskState::Failed
    } else if u == "CANCELED"@ || u == "CANCELLED"@ {
        TaskState::Cancelled
    } else {
        TaskState::Unknown
    }
}

/// Upper-casing keeps the length and changes exactly the lower-case ASCII
/// letters, each into its capital (32 code points lower).
pub proof fn lemma_ascii_upper_changes_only_small_letters(s: Seq<char>)
    ensures
        ascii_upper_seq(s).len() == s.len(),
        forall|i: int|
            0 <= i < s.len() ==> (#[trigger] ascii_upper_seq(s)[i] as int == if 'a' <= s[i] && s[i]
                <= 'z' {
                s[i] as int - 32
            } else {
                s[i] as int
            }),
{
}

/// Each status name the service documents reads, in any letter case, as its
/// own state, and every other text as unknown: PENDING or WAITING as
/// pending, RUNNING as running, SUCCEEDED as succeeded, FAILED as failed,
/// CANCELED or CANCELLED as cancelled.
pub proof fn lemma_task_state_names(status: Seq<char>)
    ensures
        ({
            let u = ascii_upper_seq(status);
            let s = task_state_spec(status);
            &&& (s == TaskState::Pending) <==> (u == "PENDING"@ || u == "WAITING"@)
            &&& (s == TaskState::Running) <==> u == "RUNNING"@
            &&& (s == TaskState::Succeeded) <==> u == "SUCCEEDED"@
            &&& (s == TaskState::Failed) <==> u == "FAILED"@
            &&& (s == TaskState::Cancelled) <==> (u == "CANCELED"@ || u == "CANCELLED"@)
            &&& (s == TaskState::Unknown) <==> !(u == "PENDING"@ || u == "WAITING"@ || u
                == "RUNNING"@ || u == "SUCCEEDED"@ || u == "FAILED"@ || u == "CANCELED"@ || u
                == "CANCELLED"@)
        }),
{
    reveal_strlit("PENDING");
    reveal_strlit("WAITING");
    reveal_strlit("RUNNING");
    reveal_strlit("SUCCEEDED");
    reveal_strlit("FAILED");
    reveal_strlit("CANCELED");
    reveal_strlit("CANCELLED");
    assert("PENDING"@[0] != "WAITING"@[0] && "PENDING"@[0] != "RUNNING"@[0] && "WAITING"@[0]
        != "RUNNING"@[0]);
    assert("SUCCEEDED"@[0] != "CANCELLED"@[0]);
    assert("FAILED"@.len() == 6 && "CANCELED"@.len() == 8 && "SUCCEEDED"@.len() == 9
        && "CANCELLED"@.len() == 9 && "RUNNING"@.len() == 7 && "PENDING"@.len() == 7
        && "WAITING"@.len() == 7);
}

fn ascii_upper_char(c: char) -> (r: char)
    ensures
        r == ascii_upper(c),
{
    if 'a' <= c && c <= 'z' {
        let table: [char; 26] = [
            'A', 'B', 'C', 'D', 'E', 'F', 'G', 'H', 'I', 'J', 'K', 'L', 'M',
            'N', 'O', 'P', 'Q', 'R', 'S', 'T', 'U', 'V', 'W', 'X', 'Y', 'Z',
        ];
        let k = (c as u32 - 97) as usize;
        let r = table[k];
        assert(r as u32 == c as u32 - 32);
        r
    } else {
        c
    }
}

pub fn task_state(status: &str) -> (r: TaskState)
    ensures
        r == task_state_spec(status@),
{
    let chars = chars_of(status);
    let mut upper: Vec<char> = Vec::new();
    let mut i: usize = 0;
    while i < chars.len()
        invariant
            i <= chars@.len(),
            chars@ == status@,
            upper@ == ascii_upper_seq(chars@.take(i as int)),
        decreases chars@.len() - i,
    {
        upper.push(ascii_upper_char(chars[i]));
        i = i + 1;
        assert(upper@ =~= ascii_upper_seq(chars@.take(i as int)));
    }
    assert(chars@.take(chars@.len() as int) =~= chars@);
    if chars_eq(&upper, &chars_of("PENDING")) || chars_eq(&upper, &chars_of("WAITING")) {
        TaskState::Pending
    } else if chars_eq(&upper, &chars_of("RUNNING")) {
        TaskState::Running
    } else if chars_eq(&upper, &chars_of("SUCCEEDED")) {
        TaskState::Succeeded
    } else if chars_eq(&upper, &chars_of("FAILED")) {
        TaskState::Failed
    } else if chars_eq(&upper, &chars_of("CANCELED")) || chars_eq(&upper, &chars_of("CANCELLED")) {
        TaskState::Cancelled
    } else {
        TaskState::Unknown
    }
}

pub open spec fn is_code_char(c: char) -> bool {
    ('a' <= c && c <= 'z') || ('A' <= c && c <= 'Z') || ('0' <= c && c <= '9') || c == '_' || c
        == '-'
}

pub open spec fn code_chars(s: Seq<char>) -> Seq<char>
    decreases s.len(),
{
    if s.len() == 0 {
        seq![]
    } else if is_code_char(s.last()) {
        code_chars(s.drop_last()).push(s.last())
    } else {
        code_chars(s.drop_last())
    }
}

/// An error code as it may be logged and shown: ASCII letters, digits, `_`
/// and `-` only, at most 80 of them.
pub open spec fn safe_code_spec(value: Seq<char>) -> Seq<char> {
    let c = code_chars(value);
    if c.len() <= 80 {
        c
    } else {
        c.take(80)
    }
}

pub fn safe_code(value: &str) -> (r: String)
    ensures
        r@ == safe_code_spec(value@),
{
    let chars = chars_of(value);
    let mut out: Vec<char> = Vec::new();
    let mut i: usize = 0;
    while i < chars.len()
        invariant
            i <= chars@.len(),
            chars@ == value@,
            out@ == code_chars(chars@.take(i as int)),
        decreases chars@.len() - i,
    {
        let c = chars[i];
        assert(chars@.take(i + 1).drop_last() =~= chars@.take(i as int));
        if ('a' <= c && c <= 'z') || ('A' <= c && c <= 'Z') || ('0' <= c && c <= '9') || c == '_'
            || c == '-' {
            out.push(c);
        }
        i = i + 1;
    }
    assert(chars@.take(chars@.len() as int) =~= chars@);
    if out.len() <= 80 {
        string_from_chars(&out)
    } else {
        let kept = crate::text::slice_to_vec(&out, 0, 80);
        assert(kept@ =~= out@.take(80));
        string_from_chars(&kept)
    }
}

/// The address is https on an Alibaba Cloud host.
pub open spec fn is_trusted_aliyun_url(value: Seq<char>) -> bool {
    match url_parts(value) {
        Some((scheme, host)) => {
            let h = ascii_lower_seq(
                match host {
                    Some(h) => h,
                    None => seq![],
                },
            );
            scheme == "https"@ && (has_suffix(h, ".aliyuncs.com"@) || h == "aliyuncs.com"@)
        },
        None => false,
    }
}

/// Whether an address the service handed out may be fetched; `label` names
/// it in the error.
pub fn validate_aliyun_https_url(value: &str, label: &str) -> (r: Result<(), String>)
    ensures
        r is Ok <==> is_trusted_aliyun_url(value@),
        r is Err ==> (r->Err_0@ == label@ + "格式无效"@ && url_parts(value@) is None) || (r->Err_0@
            == label@ + "不是受信任的阿里云 HTTPS 地址"@ && url_parts(value@) is Some),
{
    let parts = match parse_url(value) {
        Some(p) => p,
        None => {
            let mut m = chars_of(label);
            push_str(&mut m, "格式无效");
            return Err(string_from_chars(&m));
        },
    };
    let host = match &parts.host {
        Some(h) => chars_of(h.as_str()),
        None => Vec::new(),
    };
    let h = ascii_lower_chars(&host);
    let trusted = str_eq(parts.scheme.as_str(), "https") && (crate::text::ends_with_chars(
        &h,
        &chars_of(".aliyuncs.com"),
    ) || chars_eq(&h, &chars_of("aliyuncs.com")));
    if !trusted {
        let mut m = chars_of(label);
        push_str(&mut m, "不是受信任的阿里云 HTTPS 地址");
        return Err(string_from_chars(&m));
    }
    Ok(())
}

/// One entry of a finished task's result list.
#[derive(Debug, Clone)]
pub struct SubtaskResult {
    /// `subtask_status`, when it is a string.
    pub status: Option<String>,
    /// `transcription_url`, when it is a string.
    pub transcription_url: Option<String>,
}

pub open spec fn subtask_succeeded(item: SubtaskResult) -> bool {
    item.status matches Some(s) && ascii_upper_seq(s@) == "SUCCEEDED"@
}

pub open spec fn usable_subtask(item: SubtaskResult) -> bool {
    subtask_succeeded(item) && item.transcription_url is Some
}

fn subtask_succeeded_exec(item: &SubtaskResult) -> (r: bool)
    ensures
        r == subtask_succeeded(*item),
{
    match &item.status {
        Some(s) => {
            let chars = chars_of(s.as_str());
            let mut upper: Vec<char> = Vec::new();
            let mut i: usize = 0;
            while i < chars.len()
                invariant
                    i <= chars@.len(),
                    upper@ == ascii_upper_seq(chars@.take(i as int)),
                decreases chars@.len() - i,
            {
                upper.push(ascii_upper_char(chars[i]));
                i = i + 1;
                assert(upper@ =~= ascii_upper_seq(chars@.take(i as int)));
            }
            assert(chars@.take(chars@.len() as int) =~= chars@);
            chars_eq(&upper, &chars_of("SUCCEEDED"))
        },
        None => false,
    }
}

/// Position of the first succeeded subtask that names a result address.
pub open spec fn first_usable(list: Seq<SubtaskResult>) -> Option<int>
    decreases list.len(),
{
    if list.len() == 0 {
        None
    } else {
        match first_usable(list.drop_last()) {
            Some(i) => Some(i),
            None => if usable_subtask(list.last()) {
                Some(list.len() - 1)
            } else {
                None
            },
        }
    }
}

/// The result address of a succeeded task: that of the first succeeded
/// subtask with one, which must be a trusted address.
pub fn successful_result_url(results: Option<&Vec<SubtaskResult>>) -> (r: Result<Option<String>, String>)
    ensures
        match results {
            None => r is Err && r->Err_0@ == "DashScope 成功任务缺少结果列表"@,
            Some(list) => match first_usable(list@) {
                None => r is Err && r->Err_0@ == "DashScope 任务成功但没有可下载的转写结果"@,
                Some(i) => {
                    let url = list@[i].transcription_url->0@;
                    if is_trusted_aliyun_url(url) {
                        r is Ok && r->Ok_0 is Some && r->Ok_0->0@ == url
                    } else if url_parts(url) is None {
                        r is Err && r->Err_0@ == "转写结果地址"@ + "格式无效"@
                    } else {
                        r is Err && r->Err_0@ == "转写结果地址"@ + "不是受信任的阿里云 HTTPS 地址"@
                    }
                },
            },
        },
{
    let list = match results {
        Some(l) => l,
        None => return Err(String::from_str("DashScope 成功任务缺少结果列表")),
    };
    let mut i: usize = 0;
    while i < list.len()
        invariant
            i <= list@.len(),
            results == Some(list),
            first_usable(list@.take(i as int)) is None,
        decreases list@.len() - i,
    {
        let item = &list[i];
        assert(list@.take(i + 1).drop_last() =~= list@.take(i as int));
        if subtask_succeeded_exec(item) {
            if let Some(url) = &item.transcription_url {
                assert(first_usable(list@.take(i + 1)) == Some(i as int));
                proof {
                    lemma_first_usable_prefix(list@, (i + 1) as int);
                }
                match validate_aliyun_https_url(url.as_str(), "转写结果地址") {
                    Ok(()) => return Ok(Some(url.clone())),
                    Err(e) => return Err(e),
                }
            }
        }
        i = i + 1;
    }
    assert(list@.take(list@.len() as int) =~= list@);
    Err(String::from_str("DashScope 任务成功但没有可下载的转写结果"))
}

proof fn lemma_first_usable_prefix(list: Seq<SubtaskResult>, n: int)
    requires
        0 <= n <= list.len(),
        first_usable(list.take(n)) is Some,
    ensures
        first_usable(list) == first_usable(list.take(n)),
    decreases list.len() - n,
{
    if n < list.len() {
        assert(list.take(n + 1).drop_last() =~= list.take(n));
        lemma_first_usable_prefix(list, n + 1);
    } else {
        assert(list.take(n) =~= list);
    }
}

// ---------------------------------------------------------------------------
// Result documents
// ---------------------------------------------------------------------------

/// A JSON value where a count is expected.
#[derive(Debug, Clone)]
pub enum JsonScalar {
    /// A number that fits in `u64`.
    Unsigned(u64),
    /// A negative number that fits in `i64`.
    Signed(i64),
    Text(String),
    /// Anything else, fractional numbers included.
    Other,
}

pub open spec fn digit_value(c: char) -> int {
    (c as u32) - ('0' as u32)
}

pub open spec fn all_digits(s: Seq<char>) -> bool {
    forall|i: int| 0 <= i < s.len() ==> '0' <= #[trigger] s[i] && s[i] <= '9'
}

pub open spec fn digits_value(s: Seq<char>) -> nat
    decreases s.len(),
{
    if s.len() == 0 {
        0
    } else {
        (digits_value(s.drop_last()) * 10 + digit_value(s.last())) as nat
    }
}

/// `u64::from_str`: an optional `+`, then one or more decimal digits, no
/// overflow.
pub open spec fn parse_u64_spec(s: Seq<char>) -> Option<u64> {
    let digits = if s.len() > 0 && s[0] == '+' {
        s.skip(1)
    } else {
        s
    };
    if digits.len() == 0 || !all_digits(digits) || digits_value(digits) > u64::MAX {
        None
    } else {
        Some(digits_value(digits) as u64)
    }
}

proof fn lemma_digits_value_grows(s: Seq<char>, n: int)
    requires
        0 <= n <= s.len(),
        all_digits(s),
    ensures
        digits_value(s.take(n)) <= digits_value(s),
    decreases s.len() - n,
{
    if n < s.len() {
        lemma_digits_value_grows(s, n + 1);
        assert(s.take(n + 1).drop_last() =~= s.take(n));
        assert('0' <= s[n] && s[n] <= '9');
    } else {
        assert(s.take(n) =~= s);
    }
}

pub fn parse_u64(s: &str) -> (r: Option<u64>)
    ensures
        r == parse_u64_spec(s@),
{
    let chars = chars_of(s);
    let start: usize = if chars.len() > 0 && chars[0] == '+' {
        1
    } else {
        0
    };
    let ghost digits = if chars@.len() > 0 && chars@[0] == '+' {
        chars@.skip(1)
    } else {
        chars@
    };
    assert(digits =~= chars@.skip(start as int));
    if start >= chars.len() {
        return None;
    }
    let mut value: u64 = 0;
    let mut i: usize = start;
    while i < chars.len()
        invariant
            start <= i <= chars@.len(),
            chars@ == s@,
            digits == chars@.skip(start as int),
            digits == (if s@.len() > 0 && s@[0] == '+' {
                s@.skip(1)
            } else {
                s@
            }),
            digits.len() > 0,
            all_digits(digits.take(i - start)),
            value == digits_value(digits.take(i - start)),
        decreases chars@.len() - i,
    {
        let c = chars[i];
        let ghost k = i - start;
        assert(digits.take(k + 1).drop_last() =~= digits.take(k));
        assert(digits[k] == c);
        if !('0' <= c && c <= '9') {
            assert(!all_digits(digits));
            return None;
        }
        let d = (c as u32 - '0' as u32) as u64;
        let next = match value.checked_mul(10) {
            Some(v) => v.checked_add(d),
            None => None,
        };
        match next {
            Some(v) => {
                value = v;
            },
            None => {
                proof {
                    assert(all_digits(digits.take(k + 1)));
                    if all_digits(digits) {
                        lemma_digits_value_grows(digits, k + 1);
                    }
                }
                return None;
            },
        }
        i = i + 1;
    }
    assert(digits.take(digits.len() as int) =~= digits);
    Some(value)
}

/// `value_as_u64`: a count given as a number or as decimal text; negative
/// numbers count as zero.
pub open spec fn scalar_as_u64(value: JsonScalar) -> Option<u64> {
    match value {
        JsonScalar::Unsigned(v) => Some(v),
        JsonScalar::Signed(v) => Some(if v < 0 {
            0
        } else {
            v as u64
        }),
        JsonScalar::Text(t) => parse_u64_spec(t@),
        JsonScalar::Other => None,
    }
}

pub fn value_as_u64(value: &JsonScalar) -> (r: Option<u64>)
    ensures
        r == scalar_as_u64(*value),
{
    match value {
        JsonScalar::Unsigned(v) => Some(*v),
        JsonScalar::Signed(v) => Some(if *v < 0 {
            0
        } else {
            *v as u64
        }),
        JsonScalar::Text(t) => parse_u64(t.as_str()),
        JsonScalar::Other => None,
    }
}

/// The `speaker_id` of a sentence.
#[derive(Debug, Clone)]
pub enum SpeakerId {
    /// A number, as `i64` when it is an integer that fits.
    Number(Option<i64>),
    Text(String),
    Other,
}

/// `trim_start_matches("speaker_")`.
pub open spec fn strip_speaker_prefixes(s: Seq<char>) -> Seq<char>
    decreases s.len(),
{
    if s.len() >= 8 && s.take(8) == "speaker_"@ {
        strip_speaker_prefixes(s.skip(8))
    } else {
        s
    }
}

/// The speaker label of a sentence: `speaker_<n>` for a number (negative
/// ones as zero) or for a text with any `speaker_` prefixes removed.
pub open spec fn speaker_label_spec(value: Option<SpeakerId>) -> Option<Seq<char>> {
    let raw: Option<Seq<char>> = match value {
        Some(SpeakerId::Number(Some(n))) => Some(decimal(if n < 0 {
            0
        } else {
            n as nat
        })),
        Some(SpeakerId::Text(t)) => Some(strip_speaker_prefixes(trim(t@))),
        _ => None,
    };
    match raw {
        Some(r) => if r.len() == 0 {
            None
        } else {
            Some("speaker_"@ + r)
        },
        None => None,
    }
}

fn strip_speaker_prefixes_exec(s: Vec<char>) -> (r: Vec<char>)
    ensures
        r@ == strip_speaker_prefixes(s@),
    decreases s@.len(),
{
    proof {
        reveal_strlit("speaker_");
    }
    let prefix = chars_of("speaker_");
    if s.len() >= 8 && crate::text::starts_with_chars(&s, &prefix) {
        let rest = crate::text::slice_to_vec(&s, 8, s.len());
        assert(rest@ =~= s@.skip(8));
        strip_speaker_prefixes_exec(rest)
    } else {
        s
    }
}

pub fn speaker_label(value: Option<&SpeakerId>) -> (r: Option<String>)
    ensures
        crate::models::opt_view(r) == speaker_label_spec(
            match value {
                Some(v) => Some(*v),
                None => None,
            },
        ),
{
    let raw: Option<Vec<char>> = match value {
        Some(SpeakerId::Number(Some(n))) => Some(decimal_chars(if *n < 0 {
            0
        } else {
            *n as u64
        })),
        Some(SpeakerId::Text(t)) => Some(strip_speaker_prefixes_exec(trim_str(t.as_str()))),
        _ => None,
    };
    match raw {
        Some(r) => if r.len() == 0 {
            None
        } else {
            let mut out = chars_of("speaker_");
            push_chars(&mut out, &r);
            Some(string_from_chars(&out))
        },
        None => None,
    }
}

/// One sentence of a result transcript.
#[derive(Debug, Clone)]
pub struct Sentence {
    pub text: Option<String>,
    pub begin_time: Option<JsonScalar>,
    pub end_time: Option<JsonScalar>,
    pub speaker_id: Option<SpeakerId>,
}

/// One transcript of a result document.
#[derive(Debug, Clone)]
pub struct ResultTranscript {
    /// `text`, or `transcript` when there is no `text`, when it is a string.
    pub text: Option<String>,
    pub language: Option<String>,
    /// `sentences`, when it is an array.
    pub sentences: Option<Vec<Sentence>>,
}

/// What the library reads of a result document.
#[derive(Debug, Clone)]
pub struct ResultDocument {
    /// `transcripts`, when it is an array.
    pub transcripts: Option<Vec<ResultTranscript>>,
    /// `properties.original_duration_in_milliseconds`.
    pub original_duration: Option<JsonScalar>,
}

pub open spec fn opt_scalar_u64(value: Option<JsonScalar>) -> Option<u64> {
    match value {
        Some(v) => scalar_as_u64(v),
        None => None,
    }
}

/// Adds one sentence's segment; a blank sentence adds nothing, a missing or
/// reversed time range is an error.
pub open spec fn sentence_step(acc: Result<Seq<SegmentView>, Seq<char>>, sentence: Sentence) -> Result<
    Seq<SegmentView>,
    Seq<char>,
> {
    match acc {
        Err(e) => Err(e),
        Ok(segments) => {
            let text = match sentence.text {
                Some(t) => trim(t@),
                None => seq![],
            };
            if text.len() == 0 {
                Ok(segments)
            } else {
                match opt_scalar_u64(sentence.begin_time) {
                    None => Err("DashScope 句子缺少有效的 begin_time"@),
                    Some(start) => match opt_scalar_u64(sentence.end_time) {
                        None => Err("DashScope 句子缺少有效的 end_time"@),
                        Some(end) => if end < start {
                            Err("DashScope 句子时间范围无效"@)
                        } else {
                            Ok(
                                segments.push(
                                    SegmentView {
                                        start_ms: start,
                                        end_ms: end,
                                        text,
                                        speaker: speaker_label_spec(sentence.speaker_id),
                                    },
                                ),
                            )
                        },
                    },
                }
            }
        },
    }
}

pub open spec fn sentences_fold(acc: Result<Seq<SegmentView>, Seq<char>>, sentences: Seq<Sentence>) -> Result<
    Seq<SegmentView>,
    Seq<char>,
>
    decreases sentences.len(),
{
    if sentences.len() == 0 {
        acc
    } else {
        sentence_step(sentences_fold(acc, sentences.drop_last()), sentences.last())
    }
}

/// The text parts, the first language and the segments read so far.
pub struct ResultState {
    pub parts: Seq<Seq<char>>,
    pub language: Option<Seq<char>>,
    pub segments: Seq<SegmentView>,
}

pub open spec fn transcript_step(acc: Result<ResultState, Seq<char>>, t: ResultTranscript) -> Result<
    ResultState,
    Seq<char>,
> {
    match acc {
        Err(e) => Err(e),
        Ok(state) => {
            let text = match t.text {
                Some(x) => trim(x@),
                None => seq![],
            };
            let parts = if text.len() > 0 {
                state.parts.push(text)
            } else {
                state.parts
            };
            let language = if state.language is None {
                match t.language {
                    Some(l) => if l@.len() > 0 {
                        Some(l@)
                    } else {
                        None
                    },
                    None => None,
                }
            } else {
                state.language
            };
            match t.sentences {
                None => Ok(ResultState { parts, language, segments: state.segments }),
                Some(list) => match sentences_fold(Ok(state.segments), list@) {
                    Err(e) => Err(e),
                    Ok(segments) => Ok(ResultState { parts, language, segments }),
                },
            }
        },
    }
}

pub open spec fn transcripts_fold(transcripts: Seq<ResultTranscript>) -> Result<ResultState, Seq<char>>
    decreases transcripts.len(),
{
    if transcripts.len() == 0 {
        Ok(ResultState { parts: seq![], language: None, segments: seq![] })
    } else {
        transcript_step(transcripts_fold(transcripts.drop_last()), transcripts.last())
    }
}

/// Segments are ordered by start, then end.
pub open spec fn key_le(a: SegmentView, b: SegmentView) -> bool {
    a.start_ms < b.start_ms || (a.start_ms == b.start_ms && a.end_ms <= b.end_ms)
}

/// Where `x` goes in `sorted`: after the last segment whose key is not
/// greater, so that equal keys keep their order.
pub open spec fn insert_position(sorted: Seq<SegmentView>, x: SegmentView) -> int
    decreases sorted.len(),
{
    if sorted.len() == 0 {
        0
    } else if key_le(sorted.last(), x) {
        sorted.len() as int
    } else {
        insert_position(sorted.drop_last(), x)
    }
}

/// The segments stably sorted by start, then end.
pub open spec fn sort_segments(s: Seq<SegmentView>) -> Seq<SegmentView>
    decreases s.len(),
{
    if s.len() == 0 {
        s
    } else {
        let sorted = sort_segments(s.drop_last());
        sorted.insert(insert_position(sorted, s.last()), s.last())
    }
}

pub open spec fn concat_texts(s: Seq<SegmentView>) -> Seq<char>
    decreases s.len(),
{
    if s.len() == 0 {
        seq![]
    } else {
        concat_texts(s.drop_last()) + s.last().text
    }
}

/// The transcript of a result document: the transcripts' texts joined by
/// line feeds (or, when they are blank, the sorted segments' texts run
/// together), the first language given, and the segments sorted by time; a
/// document with no text is refused, and one without segments gets one
/// segment over the whole recording.
pub open spec fn normalize_result_spec(document: ResultDocument) -> Result<
    (Seq<char>, Option<Seq<char>>, Seq<SegmentView>),
    Seq<char>,
> {
    match document.transcripts {
        None => Err("DashScope 结果缺少 transcripts"@),
        Some(list) => match transcripts_fold(list@) {
            Err(e) => Err(e),
            Ok(state) => {
                let sorted = sort_segments(state.segments);
                let joined = crate::controller::join_lines(state.parts, seq!['\n']);
                let text = if is_blank(joined) {
                    concat_texts(sorted)
                } else {
                    joined
                };
                if is_blank(text) {
                    Err("DashScope 转写结果没有正文"@)
                } else if sorted.len() == 0 {
                    let duration = match opt_scalar_u64(document.original_duration) {
                        Some(d) => d,
                        None => 0,
                    };
                    Ok(
                        (
                            text,
                            state.language,
                            seq![SegmentView { start_ms: 0, end_ms: duration, text, speaker: None }],
                        ),
                    )
                } else {
                    Ok((text, state.language, sorted))
                }
            },
        },
    }
}

pub open spec fn segment_views(s: Seq<TranscriptSegment>) -> Seq<SegmentView> {
    s.map_values(|x: TranscriptSegment| x@)
}

fn opt_u64(value: &Option<JsonScalar>) -> (r: Option<u64>)
    ensures
        r == opt_scalar_u64(*value),
{
    match value {
        Some(v) => value_as_u64(v),
        None => None,
    }
}

fn add_sentences(segments: &mut Vec<TranscriptSegment>, sentences: &Vec<Sentence>) -> (r: Result<(), String>)
    ensures
        match sentences_fold(Ok(segment_views(old(segments)@)), sentences@) {
            Ok(v) => r is Ok && segment_views(final(segments)@) == v,
            Err(e) => r is Err && r->Err_0@ == e,
        },
{
    let mut i: usize = 0;
    while i < sentences.len()
        invariant
            i <= sentences@.len(),
            sentences_fold(Ok(segment_views(old(segments)@)), sentences@.take(i as int)) == Ok::<
                Seq<SegmentView>,
                Seq<char>,
            >(segment_views(segments@)),
        decreases sentences@.len() - i,
    {
        let sentence = &sentences[i];
        assert(sentences@.take(i + 1).drop_last() =~= sentences@.take(i as int));
        let text = match &sentence.text {
            Some(t) => trim_str(t.as_str()),
            None => Vec::new(),
        };
        if text.len() > 0 {
            let start = match opt_u64(&sentence.begin_time) {
                Some(v) => v,
                None => {
                    proof {
                        lemma_fold_stays_err(
                            Ok(segment_views(old(segments)@)),
                            sentences@,
                            (i + 1) as int,
                        );
                    }
                    return Err(String::from_str("DashScope 句子缺少有效的 begin_time"));
                },
            };
            let end = match opt_u64(&sentence.end_time) {
                Some(v) => v,
                None => {
                    proof {
                        lemma_fold_stays_err(
                            Ok(segment_views(old(segments)@)),
                            sentences@,
                            (i + 1) as int,
                        );
                    }
                    return Err(String::from_str("DashScope 句子缺少有效的 end_time"));
                },
            };
            if end < start {
                proof {
                    lemma_fold_stays_err(Ok(segment_views(old(segments)@)), sentences@, (i + 1) as int);
                }
                return Err(String::from_str("DashScope 句子时间范围无效"));
            }
            let segment = TranscriptSegment {
                start_ms: start,
                end_ms: end,
                text: string_from_chars(&text),
                speaker: speaker_label(
                    match &sentence.speaker_id {
                        Some(v) => Some(v),
                        None => None,
                    },
                ),
            };
            let ghost before = segments@;
            segments.push(segment);
            assert(segment_views(segments@) =~= segment_views(before).push(segment@));
        }
        i = i + 1;
    }
    assert(sentences@.take(sentences@.len() as int) =~= sentences@);
    Ok(())
}

/// Once the fold has failed, later sentences keep the error.
proof fn lemma_fold_stays_err(acc: Result<Seq<SegmentView>, Seq<char>>, s: Seq<Sentence>, n: int)
    requires
        0 <= n <= s.len(),
        sentences_fold(acc, s.take(n)) is Err,
    ensures
        sentences_fold(acc, s) == sentences_fold(acc, s.take(n)),
    decreases s.len() - n,
{
    if n < s.len() {
        assert(s.take(n + 1).drop_last() =~= s.take(n));
        lemma_fold_stays_err(acc, s, n + 1);
    } else {
        assert(s.take(n) =~= s);
    }
}

proof fn lemma_transcripts_stay_err(s: Seq<ResultTranscript>, n: int)
    requires
        0 <= n <= s.len(),
        transcripts_fold(s.take(n)) is Err,
    ensures
        transcripts_fold(s) == transcripts_fold(s.take(n)),
    decreases s.len() - n,
{
    if n < s.len() {
        assert(s.take(n + 1).drop_last() =~= s.take(n));
        lemma_transcripts_stay_err(s, n + 1);
    } else {
        assert(s.take(n) =~= s);
    }
}

fn key_le_exec(a: &TranscriptSegment, b: &TranscriptSegment) -> (r: bool)
    ensures
        r == key_le(a@, b@),
{
    a.start_ms < b.start_ms || (a.start_ms == b.start_ms && a.end_ms <= b.end_ms)
}

/// Stable insertion sort by start, then end.
fn sort_by_time(segments: Vec<TranscriptSegment>) -> (r: Vec<TranscriptSegment>)
    ensures
        segment_views(r@) == sort_segments(segment_views(segments@)),
{
    let mut out: Vec<TranscriptSegment> = Vec::new();
    let mut input = segments;
    let ghost all = segment_views(input@);
    let mut taken: Vec<TranscriptSegment> = Vec::new();
    let mut i: usize = 0;
    let n = input.len();
    proof {
        assert(all.take(0) =~= seq![]);
    }
    while input.len() > 0
        invariant
            i + input@.len() == n,
            all.len() == n,
            segment_views(input@) == all.skip(i as int),
            segment_views(out@) == sort_segments(all.take(i as int)),
        decreases input@.len(),
    {
        let ghost before_input = input@;
        let x = input.remove(0);
        let ghost xv = x@;
        assert(segment_views(before_input)[0] == xv);
        assert(all.skip(i as int)[0] == xv);
        let mut j = out.len();
        let ghost sorted = segment_views(out@);
        assert(sorted.take(j as int) =~= sorted);
        while j > 0 && !key_le_exec(&out[j - 1], &x)
            invariant
                j <= out@.len(),
                sorted == segment_views(out@),
                xv == x@,
                insert_position(sorted, xv) == insert_position(sorted.take(j as int), xv),
            decreases j,
        {
            assert(sorted.take(j as int).drop_last() =~= sorted.take(j - 1));
            assert(sorted.take(j as int).last() == out@[j - 1]@);
            j = j - 1;
        }
        proof {
            if j > 0 {
                assert(sorted.take(j as int).last() == out@[j - 1]@);
            } else {
                assert(sorted.take(0).len() == 0);
            }
        }
        out.insert(j, x);
        assert(all.take(i + 1).drop_last() =~= all.take(i as int));
        assert(all.take(i + 1).last() == xv);
        assert(segment_views(out@) =~= sorted.insert(j as int, xv));
        assert(all.skip(i + 1) =~= all.skip(i as int).drop_first());
        assert(segment_views(input@) =~= segment_views(before_input).drop_first());
        i = i + 1;
    }
    assert(all.take(n as int) =~= all);
    out
}


/// The state read so far, as held by the loop.
pub open spec fn holds_state(
    state: ResultState,
    parts: Seq<String>,
    language: Option<String>,
    segments: Seq<TranscriptSegment>,
) -> bool {
    &&& state.parts == crate::ai::strings_view(parts)
    &&& state.language == crate::models::opt_view(language)
    &&& state.segments == segment_views(segments)
}

fn concat_segment_texts(segments: &Vec<TranscriptSegment>) -> (r: Vec<char>)
    ensures
        r@ == concat_texts(segment_views(segments@)),
{
    let mut out: Vec<char> = Vec::new();
    let mut i: usize = 0;
    while i < segments.len()
        invariant
            i <= segments@.len(),
            out@ == concat_texts(segment_views(segments@.take(i as int))),
        decreases segments@.len() - i,
    {
        assert(segment_views(segments@.take(i + 1)).drop_last() =~= segment_views(segments@.take(i as int)));
        push_str(&mut out, segments[i].text.as_str());
        i = i + 1;
    }
    assert(segments@.take(segments@.len() as int) =~= segments@);
    out
}

/// Reads a result document into a transcript.
pub fn normalize_result(document: &ResultDocument) -> (r: Result<ProviderTranscript, String>)
    ensures
        match normalize_result_spec(*document) {
            Ok((text, language, segments)) => r is Ok && r->Ok_0.text@ == text
                && crate::models::opt_view(r->Ok_0.language) == language && segment_views(
                r->Ok_0.segments@,
            ) == segments,
            Err(e) => r is Err && r->Err_0@ == e,
        },
{
    let list = match &document.transcripts {
        Some(l) => l,
        None => return Err(String::from_str("DashScope 结果缺少 transcripts")),
    };
    let mut parts: Vec<String> = Vec::new();
    let mut language: Option<String> = None;
    let mut segments: Vec<TranscriptSegment> = Vec::new();
    let mut i: usize = 0;
    proof {
        assert(list@.take(0) =~= seq![]);
        assert(crate::ai::strings_view(parts@) =~= seq![]);
        assert(segment_views(segments@) =~= seq![]);
    }
    while i < list.len()
        invariant
            i <= list@.len(),
            document.transcripts == Some(*list),
            transcripts_fold(list@.take(i as int)) is Ok,
            holds_state(transcripts_fold(list@.take(i as int))->Ok_0, parts@, language, segments@),
        decreases list@.len() - i,
    {
        let t = &list[i];
        assert(list@.take(i + 1).drop_last() =~= list@.take(i as int));
        let text = match &t.text {
            Some(x) => trim_str(x.as_str()),
            None => Vec::new(),
        };
        if text.len() > 0 {
            let ghost before = parts@;
            parts.push(string_from_chars(&text));
            assert(crate::ai::strings_view(parts@) =~= crate::ai::strings_view(before).push(text@));
        }
        if language.is_none() {
            language = match &t.language {
                Some(l) => if crate::text::chars_of(l.as_str()).len() > 0 {
                    Some(l.clone())
                } else {
                    None
                },
                None => None,
            };
        }
        match &t.sentences {
            None => {},
            Some(sentences) => {
                match add_sentences(&mut segments, sentences) {
                    Ok(()) => {},
                    Err(e) => {
                        proof {
                            lemma_transcripts_stay_err(list@, (i + 1) as int);
                        }
                        return Err(e);
                    },
                }
            },
        }
        i = i + 1;
    }
    assert(list@.take(list@.len() as int) =~= list@);
    let ghost state = transcripts_fold(list@)->Ok_0;
    let sorted = sort_by_time(segments);
    let joined = crate::ai::join_strings(&parts);
    let text: Vec<char> = if crate::text::is_blank_chars(&joined) {
        concat_segment_texts(&sorted)
    } else {
        joined
    };
    if crate::text::is_blank_chars(&text) {
        return Err(String::from_str("DashScope 转写结果没有正文"));
    }
    let text_string = string_from_chars(&text);
    let mut result_segments = sorted;
    if result_segments.len() == 0 {
        let duration = match opt_u64(&document.original_duration) {
            Some(d) => d,
            None => 0,
        };
        result_segments.push(
            TranscriptSegment {
                start_ms: 0,
                end_ms: duration,
                text: string_from_chars(&text),
                speaker: None,
            },
        );
        assert(segment_views(result_segments@) =~= seq![
            SegmentView { start_ms: 0, end_ms: duration, text: text@, speaker: None },
        ]);
    }
    Ok(ProviderTranscript { text: text_string, language, segments: result_segments })
}

/// The segments of a normalised result are in time order.
pub proof fn lemma_sorted_segments_are_ordered(s: Seq<SegmentView>)
    ensures
        sort_segments(s).len() == s.len(),
        forall|i: int, j: int|
            0 <= i < j < s.len() ==> key_le(#[trigger] sort_segments(s)[i], #[trigger] sort_segments(s)[j]),
    decreases s.len(),
{
    if s.len() > 0 {
        let prev = s.drop_last();
        lemma_sorted_segments_are_ordered(prev);
        let sorted = sort_segments(prev);
        let x = s.last();
        lemma_insert_position(sorted, x);
        let p = insert_position(sorted, x);
        let r = sorted.insert(p, x);
        assert forall|i: int, j: int| 0 <= i < j < r.len() implies key_le(#[trigger] r[i], #[trigger] r[j]) by {
            if j < p {
                assert(r[i] == sorted[i] && r[j] == sorted[j]);
            } else if j == p {
                assert(r[i] == sorted[i]);
            } else if i < p {
                assert(r[i] == sorted[i] && r[j] == sorted[j - 1]);
                if i < j - 1 {
                } else {
                }
            } else if i == p {
                assert(r[j] == sorted[j - 1]);
            } else {
                assert(r[i] == sorted[i - 1] && r[j] == sorted[j - 1]);
            }
        }
    }
}

/// Two segments with the same start and end.
pub open spec fn same_times(k: SegmentView) -> spec_fn(SegmentView) -> bool {
    |x: SegmentView| x.start_ms == k.start_ms && x.end_ms == k.end_ms
}

/// Sorting keeps every segment and drops none (the same multiset), and it
/// is stable: segments with the same start and end keep the order in which
/// the result listed them.
pub proof fn lemma_sort_is_a_stable_permutation(s: Seq<SegmentView>, k: SegmentView)
    ensures
        sort_segments(s).to_multiset() =~= s.to_multiset(),
        sort_segments(s).filter(same_times(k)) == s.filter(same_times(k)),
    decreases s.len(),
{
    broadcast use vstd::seq_lib::group_to_multiset_ensures;
    broadcast use vstd::seq_lib::lemma_multiset_commutative;

    if s.len() > 0 {
        let prev = s.drop_last();
        let x = s.last();
        lemma_sort_is_a_stable_permutation(prev, k);
        lemma_sorted_segments_are_ordered(prev);
        let sorted = sort_segments(prev);
        lemma_insert_position(sorted, x);
        let p = insert_position(sorted, x);
        let front = sorted.take(p);
        let back = sorted.skip(p);
        let r = sorted.insert(p, x);
        assert(r =~= front + seq![x] + back);
        assert(sorted =~= front + back);
        assert(s =~= prev.push(x));
        // The multiset.
        assert((front + seq![x]).to_multiset() =~= front.to_multiset().insert(x)) by {
            assert(front + seq![x] =~= front.push(x));
        }
        assert(r.to_multiset() =~= front.to_multiset().insert(x).add(back.to_multiset()));
        assert(sorted.to_multiset() =~= front.to_multiset().add(back.to_multiset()));
        // The order among segments with the times of `k`.
        let pred = same_times(k);
        Seq::filter_distributes_over_add(front + seq![x], back, pred);
        Seq::filter_distributes_over_add(front, seq![x], pred);
        Seq::filter_distributes_over_add(front, back, pred);
        prev.lemma_filter_push(x, pred);
        assert(seq![x] =~= Seq::<SegmentView>::empty().push(x));
        Seq::<SegmentView>::empty().lemma_filter_push(x, pred);
        assert(Seq::<SegmentView>::empty().filter(pred) =~= Seq::<SegmentView>::empty()) by {
            reveal(Seq::filter);
        }
        if pred(x) {
            assert forall|i: int| 0 <= i < back.len() implies !pred(#[trigger] back[i]) by {
                assert(back[i] == sorted[p + i]);
                assert(!key_le(sorted[p + i], x));
            }
            lemma_filter_none(back, pred);
        }
    }
}

/// A sequence none of whose elements passes `pred` filters to nothing.
proof fn lemma_filter_none(s: Seq<SegmentView>, pred: spec_fn(SegmentView) -> bool)
    requires
        forall|i: int| 0 <= i < s.len() ==> !pred(#[trigger] s[i]),
    ensures
        s.filter(pred) =~= Seq::<SegmentView>::empty(),
    decreases s.len(),
{
    reveal(Seq::filter);
    if s.len() > 0 {
        assert forall|i: int| 0 <= i < s.drop_last().len() implies !pred(#[trigger] s.drop_last()[i]) by {
            assert(s.drop_last()[i] == s[i]);
        }
        lemma_filter_none(s.drop_last(), pred);
        assert(!pred(s[s.len() - 1]));
    }
}

/// In a sorted list, the insert position lies after every segment not
/// greater than `x` and before every greater one.
proof fn lemma_insert_position(sorted: Seq<SegmentView>, x: SegmentView)
    requires
        forall|i: int, j: int| 0 <= i < j < sorted.len() ==> key_le(#[trigger] sorted[i], #[trigger] sorted[j]),
    ensures
        0 <= insert_position(sorted, x) <= sorted.len(),
        forall|i: int| 0 <= i < insert_position(sorted, x) ==> key_le(#[trigger] sorted[i], x),
        forall|i: int| insert_position(sorted, x) <= i < sorted.len() ==> !key_le(#[trigger] sorted[i], x),
    decreases sorted.len(),
{
    if sorted.len() > 0 {
        let init = sorted.drop_last();
        assert forall|i: int, j: int| 0 <= i < j < init.len() implies key_le(#[trigger] init[i], #[trigger] init[j]) by {
            assert(init[i] == sorted[i] && init[j] == sorted[j]);
        }
        lemma_insert_position(init, x);
        if key_le(sorted.last(), x) {
            assert forall|i: int| 0 <= i < sorted.len() implies key_le(#[trigger] sorted[i], x) by {
                if i < sorted.len() - 1 {
                    assert(key_le(sorted[i], sorted[sorted.len() - 1]));
                }
            }
        } else {
            assert forall|i: int| insert_position(sorted, x) <= i < sorted.len() implies !key_le(#[trigger] sorted[i], x) by {
                if i < sorted.len() - 1 {
                    assert(init[i] == sorted[i]);
                }
            }
            assert forall|i: int| 0 <= i < insert_position(sorted, x) implies key_le(#[trigger] sorted[i], x) by {
                assert(init[i] == sorted[i]);
            }
        }
    }
}

} // verus!
