//! The data that flows between the recorder, the transcription and AI
//! pipelines, and the user interface.
//!
//! The enumerations carry the stable wire names under which they are stored;
//! `as_str` and `from_str` convert between the two, and the laws at the end of
//! the file state that reading back a written name gives the same value.
use crate::text::str_eq;
use vstd::prelude::*;

verus! {

/// A map from text keys to values, kept as a list of entries; a later entry
/// for a key takes the place of every earlier one.
#[derive(Debug, Clone, PartialEq)]
pub struct StringMap<V> {
    entries: Vec<(String, V)>,
}

/// The value of the last entry for `key`.
pub open spec fn lookup_entries<V>(entries: Seq<(String, V)>, key: Seq<char>) -> Option<V>
    decreases entries.len(),
{
    if entries.len() == 0 {
        None
    } else if entries.last().0@ == key {
        Some(entries.last().1)
    } else {
        lookup_entries(entries.drop_last(), key)
    }
}

impl<V> View for StringMap<V> {
    type V = Map<Seq<char>, V>;

    closed spec fn view(&self) -> Map<Seq<char>, V> {
        Map::new(
            |k: Seq<char>| lookup_entries(self.entries@, k) is Some,
            |k: Seq<char>| lookup_entries(self.entries@, k)->0,
        )
    }
}

impl<V> StringMap<V> {
    pub fn new() -> (m: Self)
        ensures
            m@ == Map::<Seq<char>, V>::empty(),
    {
        let m = StringMap { entries: Vec::new() };
        assert(m@ =~= Map::<Seq<char>, V>::empty());
        m
    }

    pub fn insert(&mut self, key: String, value: V)
        ensures
            final(self)@ == old(self)@.insert(key@, value),
    {
        let ghost k = key@;
        self.entries.push((key, value));
        proof {
            let e = self.entries@;
            assert(e.drop_last() == old(self).entries@);
            assert forall|q: Seq<char>| #[trigger] lookup_entries(e, q) == if q == k {
                Some(value)
            } else {
                lookup_entries(old(self).entries@, q)
            } by {}
        }
        assert(self@ =~= old(self)@.insert(k, value));
    }

    pub fn get(&self, key: &str) -> (r: Option<&V>)
        ensures
            r == (if self@.contains_key(key@) {
                Some(&self@[key@])
            } else {
                None
            }),
    {
        let mut i = self.entries.len();
        assert(self.entries@.subrange(0, i as int) =~= self.entries@);
        while i > 0
            invariant
                i <= self.entries@.len(),
                forall|q: Seq<char>|
                    #![trigger lookup_entries(self.entries@, q)]
                    q == key@ ==> lookup_entries(self.entries@, q) == lookup_entries(
                        self.entries@.subrange(0, i as int),
                        q,
                    ),
            decreases i,
        {
            let entry = &self.entries[i - 1];
            let ghost prefix = self.entries@.subrange(0, i as int);
            assert(prefix.last() == self.entries@[i - 1]);
            if str_eq(entry.0.as_str(), key) {
                return Some(&entry.1);
            }
            assert(prefix.drop_last() =~= self.entries@.subrange(0, i - 1));
            i = i - 1;
        }
        assert(self.entries@.subrange(0, 0).len() == 0);
        None
    }
}

#[derive(Debug, Clone, PartialEq, Eq)]
pub struct CaptureTarget {
    pub id: String,
    pub kind: String,
    pub display_name: String,
    pub process_id: u32,
    pub executable_path: String,
    pub window_handle: Option<isize>,
    pub browser: bool,
    pub priority: i32,
}

#[derive(Debug, Clone, PartialEq, Eq)]
pub struct AudioDevice {
    pub id: String,
    pub name: String,
    pub direction: DeviceDirection,
    pub is_default_communications: bool,
    pub form_factor: String,
    pub active: bool,
}

#[derive(Debug, Clone, Copy, PartialEq, Eq, Structural)]
pub enum DeviceDirection {
    Render,
    Capture,
}

#[derive(Debug, Clone, PartialEq, Eq)]
pub enum DeviceSelection {
    FollowDefaultCommunications,
    Fixed { endpoint_id: String },
}

#[derive(Debug, Clone, PartialEq, Eq)]
pub enum CaptureSelection {
    Process { target_id: String },
    System { device: DeviceSelection },
}

#[derive(Debug, Clone, Copy, PartialEq, Eq, Structural)]
pub enum AecMode {
    Auto,
    On,
    Off,
}

#[derive(Debug, Clone)]
pub struct StartRecordingRequest {
    pub capture: CaptureSelection,
    pub microphone: Option<DeviceSelection>,
    pub aec_mode: AecMode,
    pub output_directory: String,
}

#[derive(Debug, Clone, Copy, PartialEq, Eq, Structural)]
pub enum RecordingState {
    Idle,
    Preparing,
    Recording,
    Paused,
    Interrupted,
    Recovering,
    Finalizing,
    Completed,
    Error,
}

#[derive(Debug, Clone)]
pub struct SourceStatus {
    pub healthy: bool,
    pub label: String,
    pub detail: Option<String>,
}

#[derive(Debug, Clone)]
pub struct RecordingFault {
    pub component: String,
    pub code: String,
    pub recoverable: bool,
    pub user_message: String,
    pub occurred_at: String,
}

#[derive(Debug, Clone)]
pub struct RecordingSnapshot {
    pub session_id: Option<String>,
    pub state: RecordingState,
    pub started_at: Option<String>,
    pub active_duration_ms: u64,
    pub bytes_written: u64,
    pub output_path: Option<String>,
    pub system: SourceStatus,
    pub microphone: SourceStatus,
    pub microphone_selection: Option<DeviceSelection>,
    pub aec_status: AecStatus,
    pub fault: Option<RecordingFault>,
}

impl Default for RecordingSnapshot {
    /// An idle recorder with no session, both sources unhealthy and no fault.
    fn default() -> (s: Self)
        ensures
            s.session_id is None,
            s.state == RecordingState::Idle,
            s.started_at is None,
            s.active_duration_ms == 0,
            s.bytes_written == 0,
            s.output_path is None,
            !s.system.healthy,
            s.system.label@ == "系统声音"@,
            s.system.detail is None,
            !s.microphone.healthy,
            s.microphone.label@ == "麦克风"@,
            s.microphone.detail is None,
            s.microphone_selection is None,
            s.aec_status == AecStatus::Disabled,
            s.fault is None,
    {
        RecordingSnapshot {
            session_id: None,
            state: RecordingState::Idle,
            started_at: None,
            active_duration_ms: 0,
            bytes_written: 0,
            output_path: None,
            system: SourceStatus {
                healthy: false,
                label: String::from_str("系统声音"),
                detail: None,
            },
            microphone: SourceStatus {
                healthy: false,
                label: String::from_str("麦克风"),
                detail: None,
            },
            microphone_selection: None,
            aec_status: AecStatus::Disabled,
            fault: None,
        }
    }
}

#[derive(Debug, Clone, Copy, PartialEq, Eq, Structural)]
pub enum AecStatus {
    Disabled,
    Enabled,
    Converging,
}

#[derive(Debug, Clone)]
pub struct RecordingItem {
    pub id: String,
    pub title: String,
    pub path: String,
    pub created_at: String,
    pub duration_ms: u64,
    pub size_bytes: u64,
    pub recovered: bool,
    pub origin: RecordingOrigin,
    pub source_file_name: Option<String>,
    pub source_format: Option<String>,
    pub imported_at: Option<String>,
    pub transcription: Option<TranscriptionSummary>,
}

#[derive(Debug, Clone, Copy, PartialEq, Eq, Structural)]
pub enum RecordingOrigin {
    Captured,
    Imported,
}

impl RecordingOrigin {
    /// The origin stored under `value`; anything but `imported` reads as captured.
    pub open spec fn from_wire(value: Seq<char>) -> Self {
        if value == "imported"@ {
            RecordingOrigin::Imported
        } else {
            RecordingOrigin::Captured
        }
    }

    pub fn from_str(value: &str) -> (r: Self)
        ensures
            r == Self::from_wire(value@),
    {
        if str_eq(value, "imported") {
            RecordingOrigin::Imported
        } else {
            RecordingOrigin::Captured
        }
    }
}

impl Default for RecordingOrigin {
    fn default() -> (r: Self)
        ensures
            r == RecordingOrigin::Captured,
    {
        RecordingOrigin::Captured
    }
}

#[derive(Debug, Clone, Copy, PartialEq, Eq, Structural)]
pub enum AudioImportBatchStatus {
    Running,
    Completed,
    Cancelled,
}

#[derive(Debug, Clone, Copy, PartialEq, Eq, Structural)]
pub enum AudioImportItemStatus {
    Queued,
    Probing,
    Decoding,
    Finalizing,
    Completed,
    Failed,
    Skipped,
    Cancelled,
}

#[derive(Debug, Clone)]
pub struct AudioImportItemSnapshot {
    pub id: String,
    pub file_name: String,
    pub status: AudioImportItemStatus,
    pub progress_current_ms: u64,
    pub progress_total_ms: u64,
    pub error_message: Option<String>,
    pub recording_id: Option<String>,
}

#[derive(Debug, Clone)]
pub struct AudioImportBatchSnapshot {
    pub id: String,
    pub status: AudioImportBatchStatus,
    pub current_index: u32,
    pub total: u32,
    pub completed: u32,
    pub failed: u32,
    pub skipped: u32,
    pub items: Vec<AudioImportItemSnapshot>,
}

#[derive(Debug, Clone, Copy, PartialEq, Eq, Structural)]
pub enum CapturePromptKind {
    CaptureInterrupted,
    ProlongedSilence,
}

#[derive(Debug, Clone, PartialEq, Eq)]
pub struct CapturePrompt {
    pub session_id: String,
    pub target_name: String,
    pub kind: CapturePromptKind,
}

#[derive(Debug, Clone)]
pub struct AppSettings {
    pub output_directory: String,
    pub ai_documents_directory: String,
    pub aec_mode: AecMode,
    pub microphone_enabled: bool,
    pub first_run_complete: bool,
    pub shortcuts_enabled: bool,
    pub toggle_shortcut: String,
    pub stop_shortcut: String,
    pub active_asr_provider_id: Option<String>,
    pub voiceprint_provider_id: Option<String>,
    pub auto_transcribe: bool,
    pub active_llm_provider_id: Option<String>,
}

#[derive(Debug, Clone, Copy, PartialEq, Eq, Structural)]
pub enum LlmProviderKind {
    OpenAi,
    OpenAiCompatible,
}

impl LlmProviderKind {
    pub open spec fn wire_name(self) -> Seq<char> {
        match self {
            LlmProviderKind::OpenAi => "open_ai"@,
            LlmProviderKind::OpenAiCompatible => "open_ai_compatible"@,
        }
    }

    /// Anything but `open_ai` reads as an OpenAI-compatible service.
    pub open spec fn from_wire(value: Seq<char>) -> Self {
        if value == "open_ai"@ {
            LlmProviderKind::OpenAi
        } else {
            LlmProviderKind::OpenAiCompatible
        }
    }

    pub fn as_str(self) -> (r: &'static str)
        ensures
            r@ == self.wire_name(),
    {
        match self {
            LlmProviderKind::OpenAi => "open_ai",
            LlmProviderKind::OpenAiCompatible => "open_ai_compatible",
        }
    }

    pub fn from_str(value: &str) -> (r: Self)
        ensures
            r == Self::from_wire(value@),
    {
        if str_eq(value, "open_ai") {
            LlmProviderKind::OpenAi
        } else {
            LlmProviderKind::OpenAiCompatible
        }
    }
}

#[derive(Debug, Clone, PartialEq, Eq)]
pub struct LlmProvider {
    pub id: String,
    pub name: String,
    pub kind: LlmProviderKind,
    pub base_url: String,
    pub model_id: String,
    pub input_token_budget: u32,
    pub max_output_tokens: u32,
    pub has_api_key: bool,
    pub created_at: String,
    pub updated_at: String,
}

#[derive(Debug, Clone)]
pub struct SaveLlmProviderRequest {
    pub id: Option<String>,
    pub name: String,
    pub kind: LlmProviderKind,
    pub base_url: String,
    pub model_id: String,
    pub input_token_budget: u32,
    pub max_output_tokens: u32,
    pub api_key: AsrApiKeyUpdate,
}

#[derive(Debug, Clone)]
pub struct LlmProviderProbeRequest {
    pub id: Option<String>,
    pub kind: LlmProviderKind,
    pub base_url: String,
    pub model_id: String,
    pub input_token_budget: u32,
    pub max_output_tokens: u32,
    pub api_key: AsrApiKeyUpdate,
}

#[derive(Debug, Clone)]
pub struct LlmProviderCredentials {
    pub provider: LlmProvider,
    pub api_key: String,
}

#[derive(Debug, Clone, PartialEq, Eq)]
pub struct LlmModel {
    pub id: String,
    pub owned_by: Option<String>,
}

#[derive(Debug, Clone, PartialEq, Eq)]
pub struct LlmConnectionTest {
    pub reachable: bool,
    pub message: String,
}

#[derive(Debug, Clone, Copy, PartialEq, Eq, Structural)]
pub enum AsrProviderKind {
    FunAsr,
    OpenAiCompatible,
    DashScope,
}

impl AsrProviderKind {
    pub open spec fn wire_name(self) -> Seq<char> {
        match self {
            AsrProviderKind::FunAsr => "fun_asr"@,
            AsrProviderKind::OpenAiCompatible => "open_ai_compatible"@,
            AsrProviderKind::DashScope => "dash_scope"@,
        }
    }

    /// Unknown names read as an OpenAI-compatible service.
    pub open spec fn from_wire(value: Seq<char>) -> Self {
        if value == "fun_asr"@ {
            AsrProviderKind::FunAsr
        } else if value == "dash_scope"@ {
            AsrProviderKind::DashScope
        } else {
            AsrProviderKind::OpenAiCompatible
        }
    }

    pub fn as_str(self) -> (r: &'static str)
        ensures
            r@ == self.wire_name(),
    {
        match self {
            AsrProviderKind::FunAsr => "fun_asr",
            AsrProviderKind::OpenAiCompatible => "open_ai_compatible",
            AsrProviderKind::DashScope => "dash_scope",
        }
    }

    pub fn from_str(value: &str) -> (r: Self)
        ensures
            r == Self::from_wire(value@),
    {
        if str_eq(value, "fun_asr") {
            AsrProviderKind::FunAsr
        } else if str_eq(value, "dash_scope") {
            AsrProviderKind::DashScope
        } else {
            AsrProviderKind::OpenAiCompatible
        }
    }

    /// What each kind of service can do.
    pub open spec fn capabilities_spec(self) -> AsrProviderCapabilities {
        match self {
            AsrProviderKind::FunAsr => AsrProviderCapabilities {
                whole_meeting: true,
                diarization: true,
                speaker_count_min: Some(1),
                speaker_count_max: Some(64),
                voiceprint_analysis: true,
                model_discovery: true,
                cloud_upload: false,
                max_reliable_audio_seconds: None,
            },
            AsrProviderKind::OpenAiCompatible => AsrProviderCapabilities {
                whole_meeting: false,
                diarization: false,
                speaker_count_min: None,
                speaker_count_max: None,
                voiceprint_analysis: true,
                model_discovery: true,
                cloud_upload: false,
                max_reliable_audio_seconds: None,
            },
            AsrProviderKind::DashScope => AsrProviderCapabilities {
                whole_meeting: true,
                diarization: true,
                speaker_count_min: Some(2),
                speaker_count_max: Some(100),
                voiceprint_analysis: false,
                model_discovery: false,
                cloud_upload: true,
                max_reliable_audio_seconds: Some(7200),
            },
        }
    }

    pub fn capabilities(self) -> (r: AsrProviderCapabilities)
        ensures
            r == self.capabilities_spec(),
    {
        match self {
            AsrProviderKind::FunAsr => AsrProviderCapabilities {
                whole_meeting: true,
                diarization: true,
                speaker_count_min: Some(1),
                speaker_count_max: Some(64),
                voiceprint_analysis: true,
                model_discovery: true,
                cloud_upload: false,
                max_reliable_audio_seconds: None,
            },
            AsrProviderKind::OpenAiCompatible => AsrProviderCapabilities {
                whole_meeting: false,
                diarization: false,
                speaker_count_min: None,
                speaker_count_max: None,
                // A compatible transcript that happens to carry speakers can
                // still feed the optional voiceprint workflow.
                voiceprint_analysis: true,
                model_discovery: true,
                cloud_upload: false,
                max_reliable_audio_seconds: None,
            },
            AsrProviderKind::DashScope => AsrProviderCapabilities {
                whole_meeting: true,
                diarization: true,
                speaker_count_min: Some(2),
                speaker_count_max: Some(100),
                voiceprint_analysis: false,
                model_discovery: false,
                cloud_upload: true,
                max_reliable_audio_seconds: Some(2 * 60 * 60),
            },
        }
    }
}

#[derive(Debug, Clone, Copy, PartialEq, Eq, Structural)]
pub struct AsrProviderCapabilities {
    pub whole_meeting: bool,
    pub diarization: bool,
    pub speaker_count_min: Option<u32>,
    pub speaker_count_max: Option<u32>,
    pub voiceprint_analysis: bool,
    pub model_discovery: bool,
    pub cloud_upload: bool,
    pub max_reliable_audio_seconds: Option<u64>,
}

#[derive(Debug, Clone, PartialEq, Eq)]
pub struct AsrProvider {
    pub id: String,
    pub name: String,
    pub kind: AsrProviderKind,
    pub base_url: String,
    pub model_id: String,
    pub has_api_key: bool,
    pub capabilities: AsrProviderCapabilities,
    pub created_at: String,
    pub updated_at: String,
}

#[derive(Debug, Clone)]
pub struct SaveAsrProviderRequest {
    pub id: Option<String>,
    pub name: String,
    pub kind: AsrProviderKind,
    pub base_url: String,
    pub model_id: String,
    pub api_key: AsrApiKeyUpdate,
}

#[derive(Debug, Clone)]
pub struct AsrProviderProbeRequest {
    pub id: Option<String>,
    pub kind: AsrProviderKind,
    pub base_url: String,
    pub model_id: String,
    pub api_key: AsrApiKeyUpdate,
}

#[derive(Debug, Clone)]
pub enum AsrApiKeyUpdate {
    Keep,
    Replace { value: String },
    Clear,
}

#[derive(Debug, Clone)]
pub struct AsrProviderCredentials {
    pub provider: AsrProvider,
    pub api_key: String,
}

#[derive(Debug, Clone, PartialEq, Eq)]
pub struct AsrModel {
    pub id: String,
    pub owned_by: Option<String>,
    pub ready: Option<bool>,
}

#[derive(Debug, Clone, Copy, PartialEq, Eq, Structural)]
pub enum AsrConnectionLevel {
    Success,
    Warning,
}

#[derive(Debug, Clone)]
pub struct AsrConnectionTest {
    pub reachable: bool,
    pub level: AsrConnectionLevel,
    pub message: String,
    pub models: Vec<AsrModel>,
    pub device: Option<String>,
}

#[derive(Debug, Clone, Copy, PartialEq, Eq, Structural)]
pub enum TranscriptionStatus {
    Queued,
    Preparing,
    Transcribing,
    Completed,
    Failed,
    Interrupted,
    Cancelled,
}

impl TranscriptionStatus {
    pub open spec fn wire_name(self) -> Seq<char> {
        match self {
            TranscriptionStatus::Queued => "queued"@,
            TranscriptionStatus::Preparing => "preparing"@,
            TranscriptionStatus::Transcribing => "transcribing"@,
            TranscriptionStatus::Completed => "completed"@,
            TranscriptionStatus::Failed => "failed"@,
            TranscriptionStatus::Interrupted => "interrupted"@,
            TranscriptionStatus::Cancelled => "cancelled"@,
        }
    }

    /// Unknown names read as a failure.
    pub open spec fn from_wire(value: Seq<char>) -> Self {
        if value == "queued"@ {
            TranscriptionStatus::Queued
        } else if value == "preparing"@ {
            TranscriptionStatus::Preparing
        } else if value == "transcribing"@ {
            TranscriptionStatus::Transcribing
        } else if value == "completed"@ {
            TranscriptionStatus::Completed
        } else if value == "interrupted"@ {
            TranscriptionStatus::Interrupted
        } else if value == "cancelled"@ {
            TranscriptionStatus::Cancelled
        } else {
            TranscriptionStatus::Failed
        }
    }

    pub fn as_str(self) -> (r: &'static str)
        ensures
            r@ == self.wire_name(),
    {
        match self {
            TranscriptionStatus::Queued => "queued",
            TranscriptionStatus::Preparing => "preparing",
            TranscriptionStatus::Transcribing => "transcribing",
            TranscriptionStatus::Completed => "completed",
            TranscriptionStatus::Failed => "failed",
            TranscriptionStatus::Interrupted => "interrupted",
            TranscriptionStatus::Cancelled => "cancelled",
        }
    }

    pub fn from_str(value: &str) -> (r: Self)
        ensures
            r == Self::from_wire(value@),
    {
        if str_eq(value, "queued") {
            TranscriptionStatus::Queued
        } else if str_eq(value, "preparing") {
            TranscriptionStatus::Preparing
        } else if str_eq(value, "transcribing") {
            TranscriptionStatus::Transcribing
        } else if str_eq(value, "completed") {
            TranscriptionStatus::Completed
        } else if str_eq(value, "interrupted") {
            TranscriptionStatus::Interrupted
        } else if str_eq(value, "cancelled") {
            TranscriptionStatus::Cancelled
        } else {
            TranscriptionStatus::Failed
        }
    }
}

#[derive(Debug, Clone, Copy, PartialEq, Eq, Structural)]
pub enum TranscriptionProtocol {
    LegacyChunks,
    NotaBatchV1,
    DashScopeFileTransV1,
}

impl TranscriptionProtocol {
    pub open spec fn wire_name(self) -> Seq<char> {
        match self {
            TranscriptionProtocol::LegacyChunks => "legacy_chunks"@,
            TranscriptionProtocol::NotaBatchV1 => "nota_batch_v1"@,
            TranscriptionProtocol::DashScopeFileTransV1 => "dashscope_filetrans_v1"@,
        }
    }

    /// Unknown names read as the chunked protocol.
    pub open spec fn from_wire(value: Seq<char>) -> Self {
        if value == "nota_batch_v1"@ {
            TranscriptionProtocol::NotaBatchV1
        } else if value == "dashscope_filetrans_v1"@ {
            TranscriptionProtocol::DashScopeFileTransV1
        } else {
            TranscriptionProtocol::LegacyChunks
        }
    }

    pub fn as_str(self) -> (r: &'static str)
        ensures
            r@ == self.wire_name(),
    {
        match self {
            TranscriptionProtocol::LegacyChunks => "legacy_chunks",
            TranscriptionProtocol::NotaBatchV1 => "nota_batch_v1",
            TranscriptionProtocol::DashScopeFileTransV1 => "dashscope_filetrans_v1",
        }
    }

    pub fn from_str(value: &str) -> (r: Self)
        ensures
            r == Self::from_wire(value@),
    {
        if str_eq(value, "nota_batch_v1") {
            TranscriptionProtocol::NotaBatchV1
        } else if str_eq(value, "dashscope_filetrans_v1") {
            TranscriptionProtocol::DashScopeFileTransV1
        } else {
            TranscriptionProtocol::LegacyChunks
        }
    }
}

#[derive(Debug, Clone, Copy, PartialEq, Eq, Structural)]
pub enum TranscriptionProgressPhase {
    Preparing,
    Uploading,
    Queued,
    Transcribing,
    Diarizing,
    Finalizing,
}

impl TranscriptionProgressPhase {
    pub open spec fn wire_name(self) -> Seq<char> {
        match self {
            TranscriptionProgressPhase::Preparing => "preparing"@,
            TranscriptionProgressPhase::Uploading => "uploading"@,
            TranscriptionProgressPhase::Queued => "queued"@,
            TranscriptionProgressPhase::Transcribing => "transcribing"@,
            TranscriptionProgressPhase::Diarizing => "diarizing"@,
            TranscriptionProgressPhase::Finalizing => "finalizing"@,
        }
    }

    /// The phase stored under `value`, if it is one.
    pub open spec fn from_wire(value: Seq<char>) -> Option<Self> {
        if value == "preparing"@ {
            Some(TranscriptionProgressPhase::Preparing)
        } else if value == "uploading"@ {
            Some(TranscriptionProgressPhase::Uploading)
        } else if value == "queued"@ {
            Some(TranscriptionProgressPhase::Queued)
        } else if value == "transcribing"@ {
            Some(TranscriptionProgressPhase::Transcribing)
        } else if value == "diarizing"@ {
            Some(TranscriptionProgressPhase::Diarizing)
        } else if value == "finalizing"@ {
            Some(TranscriptionProgressPhase::Finalizing)
        } else {
            None
        }
    }

    pub fn as_str(self) -> (r: &'static str)
        ensures
            r@ == self.wire_name(),
    {
        match self {
            TranscriptionProgressPhase::Preparing => "preparing",
            TranscriptionProgressPhase::Uploading => "uploading",
            TranscriptionProgressPhase::Queued => "queued",
            TranscriptionProgressPhase::Transcribing => "transcribing",
            TranscriptionProgressPhase::Diarizing => "diarizing",
            TranscriptionProgressPhase::Finalizing => "finalizing",
        }
    }

    pub fn from_str(value: &str) -> (r: Option<Self>)
        ensures
            r == Self::from_wire(value@),
    {
        if str_eq(value, "preparing") {
            Some(TranscriptionProgressPhase::Preparing)
        } else if str_eq(value, "uploading") {
            Some(TranscriptionProgressPhase::Uploading)
        } else if str_eq(value, "queued") {
            Some(TranscriptionProgressPhase::Queued)
        } else if str_eq(value, "transcribing") {
            Some(TranscriptionProgressPhase::Transcribing)
        } else if str_eq(value, "diarizing") {
            Some(TranscriptionProgressPhase::Diarizing)
        } else if str_eq(value, "finalizing") {
            Some(TranscriptionProgressPhase::Finalizing)
        } else {
            None
        }
    }
}

#[derive(Debug, Clone, Copy, PartialEq, Eq, Structural)]
pub enum TranscriptionProgressUnit {
    Bytes,
    Windows,
    Steps,
    Chunks,
}

impl TranscriptionProgressUnit {
    pub open spec fn wire_name(self) -> Seq<char> {
        match self {
            TranscriptionProgressUnit::Bytes => "bytes"@,
            TranscriptionProgressUnit::Windows => "windows"@,
            TranscriptionProgressUnit::Steps => "steps"@,
            TranscriptionProgressUnit::Chunks => "chunks"@,
        }
    }

    /// The unit stored under `value`, if it is one.
    pub open spec fn from_wire(value: Seq<char>) -> Option<Self> {
        if value == "bytes"@ {
            Some(TranscriptionProgressUnit::Bytes)
        } else if value == "windows"@ {
            Some(TranscriptionProgressUnit::Windows)
        } else if value == "steps"@ {
            Some(TranscriptionProgressUnit::Steps)
        } else if value == "chunks"@ {
            Some(TranscriptionProgressUnit::Chunks)
        } else {
            None
        }
    }

    pub fn as_str(self) -> (r: &'static str)
        ensures
            r@ == self.wire_name(),
    {
        match self {
            TranscriptionProgressUnit::Bytes => "bytes",
            TranscriptionProgressUnit::Windows => "windows",
            TranscriptionProgressUnit::Steps => "steps",
            TranscriptionProgressUnit::Chunks => "chunks",
        }
    }

    pub fn from_str(value: &str) -> (r: Option<Self>)
        ensures
            r == Self::from_wire(value@),
    {
        if str_eq(value, "bytes") {
            Some(TranscriptionProgressUnit::Bytes)
        } else if str_eq(value, "windows") {
            Some(TranscriptionProgressUnit::Windows)
        } else if str_eq(value, "steps") {
            Some(TranscriptionProgressUnit::Steps)
        } else if str_eq(value, "chunks") {
            Some(TranscriptionProgressUnit::Chunks)
        } else {
            None
        }
    }
}

#[derive(Debug, Clone, PartialEq, Eq)]
pub struct TranscriptionSummary {
    pub status: TranscriptionStatus,
    pub completed_chunks: u32,
    pub total_chunks: u32,
    pub provider_name: String,
    pub provider_kind: AsrProviderKind,
    pub model_id: String,
    pub speaker_count: Option<u32>,
    pub error_message: Option<String>,
    pub has_text: bool,
    pub protocol: TranscriptionProtocol,
    pub voiceprint_analysis_supported: bool,
    pub progress_phase: Option<TranscriptionProgressPhase>,
    pub progress_current: u64,
    pub progress_total: u64,
    pub progress_unit: Option<TranscriptionProgressUnit>,
}

#[derive(Debug, Clone, PartialEq)]
pub struct TranscriptSegment {
    pub start_ms: u64,
    pub end_ms: u64,
    pub text: String,
    pub speaker: Option<String>,
}

/// A transcript segment as values: times, text and speaker label.
pub struct SegmentView {
    pub start_ms: u64,
    pub end_ms: u64,
    pub text: Seq<char>,
    pub speaker: Option<Seq<char>>,
}

pub open spec fn opt_view(value: Option<String>) -> Option<Seq<char>> {
    match value {
        Some(s) => Some(s@),
        None => None,
    }
}

impl View for TranscriptSegment {
    type V = SegmentView;

    open spec fn view(&self) -> SegmentView {
        SegmentView {
            start_ms: self.start_ms,
            end_ms: self.end_ms,
            text: self.text@,
            speaker: opt_view(self.speaker),
        }
    }
}

#[derive(Debug, Clone, PartialEq)]
pub struct StoredTranscriptionChunk {
    pub index: u32,
    pub start_ms: u64,
    pub end_ms: u64,
    pub text: String,
    pub segments: Vec<TranscriptSegment>,
    pub language: Option<String>,
}

#[derive(Debug, Clone, PartialEq, Eq)]
pub struct TranscriptionExecution {
    pub protocol: TranscriptionProtocol,
    pub provider_kind: AsrProviderKind,
    pub remote_job_id: Option<String>,
    pub idempotency_key: String,
    pub speaker_count: Option<u32>,
    pub provider_state_json: String,
}

#[derive(Debug, Clone, PartialEq)]
pub struct TranscriptDocument {
    pub recording_id: String,
    pub status: TranscriptionStatus,
    pub provider_name: String,
    pub provider_kind: AsrProviderKind,
    pub model_id: String,
    pub protocol: TranscriptionProtocol,
    pub voiceprint_analysis_supported: bool,
    pub language: Option<String>,
    pub text: String,
    pub segments: Vec<TranscriptSegment>,
    pub speaker_names: StringMap<String>,
    pub speaker_assignments: StringMap<RecordingSpeakerAssignment>,
    pub completed_chunks: u32,
    pub total_chunks: u32,
    pub error_message: Option<String>,
    pub updated_at: String,
}

#[derive(Debug, Clone, PartialEq, Eq)]
pub struct RecordingSpeakerAssignment {
    pub participant_id: String,
    pub display_name: String,
}

#[derive(Debug, Clone, PartialEq)]
pub struct VoiceprintSample {
    pub id: String,
    pub participant_id: String,
    pub embedding_fingerprint: String,
    pub source_recording_id: Option<String>,
    pub source_recording_title: Option<String>,
    pub source_speaker: String,
    pub preview_start_ms: u64,
    pub preview_end_ms: u64,
    pub preview_available: bool,
    pub speech_duration_ms: u64,
    pub created_at: String,
}

#[derive(Debug, Clone, PartialEq)]
pub struct ParticipantProfile {
    pub id: String,
    pub display_name: String,
    pub created_at: String,
    pub updated_at: String,
    pub samples: Vec<VoiceprintSample>,
}

#[derive(Debug, Clone, Copy, PartialEq, Eq, Structural)]
pub enum SpeakerSampleStatus {
    Enrollable,
    PreviewOnly,
    Unavailable,
}

#[derive(Debug, Clone)]
pub struct SpeakerIdentificationAssignment {
    pub raw_speaker: String,
    pub participant_id: Option<String>,
    pub new_display_name: Option<String>,
}

#[derive(Debug, Clone)]
pub struct TranscriptionEvent {
    pub recording_id: String,
    pub summary: TranscriptionSummary,
}

#[derive(Debug, Clone, PartialEq, Eq)]
pub struct AiTemplate {
    pub id: String,
    pub name: String,
    pub description: String,
    pub builtin_key: Option<String>,
    pub task_instructions: String,
    pub output_requirements: String,
    pub requires_speaker_labels: bool,
    pub revision: u32,
    pub archived: bool,
    pub created_at: String,
    pub updated_at: String,
}

#[derive(Debug, Clone)]
pub struct SaveAiTemplateRequest {
    pub id: Option<String>,
    pub name: String,
    pub description: String,
    pub task_instructions: String,
    pub output_requirements: String,
    pub requires_speaker_labels: bool,
}

#[derive(Debug, Clone, PartialEq, Eq)]
pub struct AiMeetingProfile {
    pub recording_id: String,
    pub workspace_path: String,
    pub meeting_context: String,
    pub updated_at: String,
}

#[derive(Debug, Clone, Copy, PartialEq, Eq, Structural)]
pub enum AiGenerationMode {
    Create,
    Regenerate,
    Revise,
}

impl AiGenerationMode {
    pub open spec fn wire_name(self) -> Seq<char> {
        match self {
            AiGenerationMode::Create => "create"@,
            AiGenerationMode::Regenerate => "regenerate"@,
            AiGenerationMode::Revise => "revise"@,
        }
    }

    /// Unknown names read as a first generation.
    pub open spec fn from_wire(value: Seq<char>) -> Self {
        if value == "regenerate"@ {
            AiGenerationMode::Regenerate
        } else if value == "revise"@ {
            AiGenerationMode::Revise
        } else {
            AiGenerationMode::Create
        }
    }

    pub fn as_str(self) -> (r: &'static str)
        ensures
            r@ == self.wire_name(),
    {
        match self {
            AiGenerationMode::Create => "create",
            AiGenerationMode::Regenerate => "regenerate",
            AiGenerationMode::Revise => "revise",
        }
    }

    pub fn from_str(value: &str) -> (r: Self)
        ensures
            r == Self::from_wire(value@),
    {
        if str_eq(value, "regenerate") {
            AiGenerationMode::Regenerate
        } else if str_eq(value, "revise") {
            AiGenerationMode::Revise
        } else {
            AiGenerationMode::Create
        }
    }
}

#[derive(Debug, Clone, Copy, PartialEq, Eq, Structural)]
pub enum AiGenerationStatus {
    Queued,
    Generating,
    Completed,
    Failed,
    Cancelled,
    Interrupted,
}

impl AiGenerationStatus {
    pub open spec fn wire_name(self) -> Seq<char> {
        match self {
            AiGenerationStatus::Queued => "queued"@,
            AiGenerationStatus::Generating => "generating"@,
            AiGenerationStatus::Completed => "completed"@,
            AiGenerationStatus::Failed => "failed"@,
            AiGenerationStatus::Cancelled => "cancelled"@,
            AiGenerationStatus::Interrupted => "interrupted"@,
        }
    }

    /// Unknown names read as a failure.
    pub open spec fn from_wire(value: Seq<char>) -> Self {
        if value == "queued"@ {
            AiGenerationStatus::Queued
        } else if value == "generating"@ {
            AiGenerationStatus::Generating
        } else if value == "completed"@ {
            AiGenerationStatus::Completed
        } else if value == "cancelled"@ {
            AiGenerationStatus::Cancelled
        } else if value == "interrupted"@ {
            AiGenerationStatus::Interrupted
        } else {
            AiGenerationStatus::Failed
        }
    }

    pub fn as_str(self) -> (r: &'static str)
        ensures
            r@ == self.wire_name(),
    {
        match self {
            AiGenerationStatus::Queued => "queued",
            AiGenerationStatus::Generating => "generating",
            AiGenerationStatus::Completed => "completed",
            AiGenerationStatus::Failed => "failed",
            AiGenerationStatus::Cancelled => "cancelled",
            AiGenerationStatus::Interrupted => "interrupted",
        }
    }

    pub fn from_str(value: &str) -> (r: Self)
        ensures
            r == Self::from_wire(value@),
    {
        if str_eq(value, "queued") {
            AiGenerationStatus::Queued
        } else if str_eq(value, "generating") {
            AiGenerationStatus::Generating
        } else if str_eq(value, "completed") {
            AiGenerationStatus::Completed
        } else if str_eq(value, "cancelled") {
            AiGenerationStatus::Cancelled
        } else if str_eq(value, "interrupted") {
            AiGenerationStatus::Interrupted
        } else {
            AiGenerationStatus::Failed
        }
    }
}

#[derive(Debug, Clone, Copy, PartialEq, Eq, Structural)]
pub enum AiFileState {
    Pending,
    Ready,
    Modified,
    Missing,
}

#[derive(Debug, Clone, PartialEq, Eq)]
pub struct AiDocumentVersion {
    pub id: String,
    pub document_id: String,
    pub version_number: u32,
    pub mode: AiGenerationMode,
    pub parent_version_id: Option<String>,
    pub status: AiGenerationStatus,
    pub file_path: Option<String>,
    pub file_state: AiFileState,
    pub provider_name: String,
    pub provider_kind: LlmProviderKind,
    pub model_id: String,
    pub template_name: String,
    pub template_revision: u32,
    pub transcription_generation: u32,
    pub estimated_input_tokens: u32,
    pub input_tokens: Option<u32>,
    pub output_tokens: Option<u32>,
    pub error_message: Option<String>,
    pub created_at: String,
    pub completed_at: Option<String>,
}

#[derive(Debug, Clone, PartialEq, Eq)]
pub struct AiDocument {
    pub id: String,
    pub recording_id: String,
    pub template_id: String,
    pub title: String,
    pub requirements: String,
    pub template_name: String,
    pub template_builtin_key: Option<String>,
    pub latest_version: Option<AiDocumentVersion>,
    pub created_at: String,
    pub updated_at: String,
}

#[derive(Debug, Clone, PartialEq, Eq)]
pub struct AiWorkspace {
    pub profile: AiMeetingProfile,
    pub documents: Vec<AiDocument>,
    pub templates: Vec<AiTemplate>,
}

#[derive(Debug, Clone)]
pub struct AiGenerationRequest {
    pub recording_id: String,
    pub mode: AiGenerationMode,
    pub document_id: Option<String>,
    pub template_id: Option<String>,
    pub title: Option<String>,
    pub meeting_context: String,
    pub document_requirements: String,
    pub run_request: String,
    pub provider_id: Option<String>,
    pub model_id: Option<String>,
    pub source_version_id: Option<String>,
    pub estimated_input_tokens: Option<u32>,
}

#[derive(Debug, Clone, PartialEq, Eq)]
pub struct AiDocumentContent {
    pub version: AiDocumentVersion,
    pub markdown: String,
}

#[derive(Debug, Clone)]
pub struct AiGenerationEvent {
    pub recording_id: String,
    pub document_id: String,
    pub version: AiDocumentVersion,
}

/// Reading back the stored name of an LLM service kind gives the same kind.
pub proof fn lemma_llm_provider_kind_round_trip(kind: LlmProviderKind)
    ensures
        LlmProviderKind::from_wire(kind.wire_name()) == kind,
{
    reveal_strlit("open_ai");
    reveal_strlit("open_ai_compatible");
    assert("open_ai"@.len() == 7);
    assert("open_ai_compatible"@.len() == 18);
}

/// Reading back the stored name of an ASR service kind gives the same kind.
pub proof fn lemma_asr_provider_kind_round_trip(kind: AsrProviderKind)
    ensures
        AsrProviderKind::from_wire(kind.wire_name()) == kind,
{
    reveal_strlit("fun_asr");
    reveal_strlit("open_ai_compatible");
    reveal_strlit("dash_scope");
    assert("fun_asr"@.len() == 7);
    assert("open_ai_compatible"@.len() == 18);
    assert("dash_scope"@.len() == 10);
}

/// Reading back the stored name of a transcription status gives the same status.
pub proof fn lemma_transcription_status_round_trip(status: TranscriptionStatus)
    ensures
        TranscriptionStatus::from_wire(status.wire_name()) == status,
{
    reveal_strlit("queued");
    reveal_strlit("preparing");
    reveal_strlit("transcribing");
    reveal_strlit("completed");
    reveal_strlit("failed");
    reveal_strlit("interrupted");
    reveal_strlit("cancelled");
    assert("queued"@.len() == 6);
    assert("preparing"@.len() == 9);
    assert("transcribing"@.len() == 12);
    assert("completed"@.len() == 9);
    assert("failed"@.len() == 6);
    assert("interrupted"@.len() == 11);
    assert("cancelled"@.len() == 9);
    assert("queued"@[0] != "failed"@[0]);
    assert("preparing"@[0] != "completed"@[0]);
    assert("preparing"@[0] != "cancelled"@[0]);
    assert("completed"@[1] != "cancelled"@[1]);
}

/// Reading back the stored name of a transcription protocol gives the same protocol.
pub proof fn lemma_transcription_protocol_round_trip(protocol: TranscriptionProtocol)
    ensures
        TranscriptionProtocol::from_wire(protocol.wire_name()) == protocol,
{
    reveal_strlit("legacy_chunks");
    reveal_strlit("nota_batch_v1");
    reveal_strlit("dashscope_filetrans_v1");
    assert("legacy_chunks"@.len() == 13);
    assert("nota_batch_v1"@.len() == 13);
    assert("dashscope_filetrans_v1"@.len() == 22);
    assert("legacy_chunks"@[0] != "nota_batch_v1"@[0]);
}

/// Reading back the stored name of a progress phase gives the same phase.
pub proof fn lemma_progress_phase_round_trip(phase: TranscriptionProgressPhase)
    ensures
        TranscriptionProgressPhase::from_wire(phase.wire_name()) == Some(phase),
{
    reveal_strlit("preparing");
    reveal_strlit("uploading");
    reveal_strlit("queued");
    reveal_strlit("transcribing");
    reveal_strlit("diarizing");
    reveal_strlit("finalizing");
    assert("preparing"@.len() == 9);
    assert("uploading"@.len() == 9);
    assert("queued"@.len() == 6);
    assert("transcribing"@.len() == 12);
    assert("diarizing"@.len() == 9);
    assert("finalizing"@.len() == 10);
    assert("preparing"@[0] != "uploading"@[0]);
    assert("preparing"@[0] != "diarizing"@[0]);
    assert("uploading"@[0] != "diarizing"@[0]);
}

/// Reading back the stored name of a progress unit gives the same unit.
pub proof fn lemma_progress_unit_round_trip(unit: TranscriptionProgressUnit)
    ensures
        TranscriptionProgressUnit::from_wire(unit.wire_name()) == Some(unit),
{
    reveal_strlit("bytes");
    reveal_strlit("windows");
    reveal_strlit("steps");
    reveal_strlit("chunks");
    assert("bytes"@.len() == 5);
    assert("windows"@.len() == 7);
    assert("steps"@.len() == 5);
    assert("chunks"@.len() == 6);
    assert("bytes"@[0] != "steps"@[0]);
}

/// Reading back the stored name of a generation mode gives the same mode.
pub proof fn lemma_generation_mode_round_trip(mode: AiGenerationMode)
    ensures
        AiGenerationMode::from_wire(mode.wire_name()) == mode,
{
    reveal_strlit("create");
    reveal_strlit("regenerate");
    reveal_strlit("revise");
    assert("create"@.len() == 6);
    assert("regenerate"@.len() == 10);
    assert("revise"@.len() == 6);
    assert("create"@[0] != "revise"@[0]);
}

/// Reading back the stored name of a generation status gives the same status.
pub proof fn lemma_generation_status_round_trip(status: AiGenerationStatus)
    ensures
        AiGenerationStatus::from_wire(status.wire_name()) == status,
{
    reveal_strlit("queued");
    reveal_strlit("generating");
    reveal_strlit("completed");
    reveal_strlit("failed");
    reveal_strlit("cancelled");
    reveal_strlit("interrupted");
    assert("queued"@.len() == 6);
    assert("generating"@.len() == 10);
    assert("completed"@.len() == 9);
    assert("failed"@.len() == 6);
    assert("cancelled"@.len() == 9);
    assert("interrupted"@.len() == 11);
    assert("queued"@[0] != "failed"@[0]);
    assert("completed"@[1] != "cancelled"@[1]);
}

} // verus!
