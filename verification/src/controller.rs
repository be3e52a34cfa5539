//! The recorder controller's decisions: what the tray offers in each state,
//! which prompt wins, how a recording tick updates the snapshot, and how a
//! transcript is written out for copying and export.
use crate::models::{
    AecMode, AecStatus, AppSettings, SourceStatus, AudioDevice, CapturePrompt, CapturePromptKind,
    CaptureSelection, DeviceDirection, DeviceSelection, RecordingFault, RecordingSnapshot,
    RecordingState, TranscriptDocument, TranscriptSegment,
};
use crate::state_machine::{next_state, transition, RecordingEvent};
use crate::text::{
    chars_of, is_blank, push_chars, str_eq, string_from_chars, trim,
    trim_str,
};
use vstd::prelude::*;

verus! {

// ---------------------------------------------------------------------------
// Tray
// ---------------------------------------------------------------------------

/// Which tray actions are offered, and the label of the pause/resume item.
#[derive(Debug, Clone, Copy, PartialEq, Eq)]
pub struct TrayControls {
    pub start_enabled: bool,
    pub toggle_label: Option<&'static str>,
    pub toggle_enabled: bool,
    pub stop_enabled: bool,
}

pub open spec fn opt_str_view(value: Option<&'static str>) -> Option<Seq<char>> {
    match value {
        Some(s) => Some(s@),
        None => None,
    }
}

/// The label of the pause/resume item in `state`, if it is shown.
pub open spec fn toggle_label_spec(state: RecordingState) -> Option<Seq<char>> {
    match state {
        RecordingState::Idle | RecordingState::Completed | RecordingState::Error => None,
        RecordingState::Recording | RecordingState::Interrupted => Some("暂停录音"@),
        RecordingState::Paused => Some("继续录音"@),
        RecordingState::Preparing => Some("正在准备…"@),
        RecordingState::Finalizing => Some("正在保存…"@),
        RecordingState::Recovering => Some("正在恢复…"@),
    }
}

/// A new recording can be started only when none is under way.
pub open spec fn is_at_rest(state: RecordingState) -> bool {
    state is Idle || state is Completed || state is Error
}

/// Pause/resume and stop act on a running recording only.
pub open spec fn is_running(state: RecordingState) -> bool {
    state is Recording || state is Interrupted || state is Paused
}

pub fn tray_controls(state: RecordingState) -> (r: TrayControls)
    ensures
        r.start_enabled == is_at_rest(state),
        r.toggle_enabled == is_running(state),
        r.stop_enabled == is_running(state),
        opt_str_view(r.toggle_label) == toggle_label_spec(state),
{
    match state {
        RecordingState::Idle | RecordingState::Completed | RecordingState::Error => TrayControls {
            start_enabled: true,
            toggle_label: None,
            toggle_enabled: false,
            stop_enabled: false,
        },
        RecordingState::Recording | RecordingState::Interrupted => TrayControls {
            start_enabled: false,
            toggle_label: Some("暂停录音"),
            toggle_enabled: true,
            stop_enabled: true,
        },
        RecordingState::Paused => TrayControls {
            start_enabled: false,
            toggle_label: Some("继续录音"),
            toggle_enabled: true,
            stop_enabled: true,
        },
        RecordingState::Preparing => TrayControls {
            start_enabled: false,
            toggle_label: Some("正在准备…"),
            toggle_enabled: false,
            stop_enabled: false,
        },
        RecordingState::Finalizing => TrayControls {
            start_enabled: false,
            toggle_label: Some("正在保存…"),
            toggle_enabled: false,
            stop_enabled: false,
        },
        RecordingState::Recovering => TrayControls {
            start_enabled: false,
            toggle_label: Some("正在恢复…"),
            toggle_enabled: false,
            stop_enabled: false,
        },
    }
}

/// The colour of the status badge drawn on the tray icon, if any: a pending
/// capture decision first, then busy, paused and warning states.
pub open spec fn badge_color_spec(state: RecordingState, capture_prompt_pending: bool) -> Option<
    (u8, u8, u8),
> {
    if capture_prompt_pending {
        Some((217, 154, 66))
    } else {
        match state {
            RecordingState::Recording | RecordingState::Preparing | RecordingState::Finalizing => Some(
                (200, 79, 69),
            ),
            RecordingState::Paused => Some((189, 139, 53)),
            RecordingState::Interrupted | RecordingState::Error => Some((217, 154, 66)),
            RecordingState::Idle | RecordingState::Completed | RecordingState::Recovering => None,
        }
    }
}

pub fn tray_badge_color(state: RecordingState, capture_prompt_pending: bool) -> (r: Option<[u8; 3]>)
    ensures
        match badge_color_spec(state, capture_prompt_pending) {
            Some((red, green, blue)) => r is Some && r.unwrap()@ == seq![red, green, blue],
            None => r is None,
        },
{
    if capture_prompt_pending {
        let c: [u8; 3] = [217, 154, 66];
        assert(c@ =~= seq![217u8, 154u8, 66u8]);
        return Some(c);
    }
    match state {
        RecordingState::Recording | RecordingState::Preparing | RecordingState::Finalizing => {
            let c: [u8; 3] = [200, 79, 69];
            assert(c@ =~= seq![200u8, 79u8, 69u8]);
            Some(c)
        },
        RecordingState::Paused => {
            let c: [u8; 3] = [189, 139, 53];
            assert(c@ =~= seq![189u8, 139u8, 53u8]);
            Some(c)
        },
        RecordingState::Interrupted | RecordingState::Error => {
            let c: [u8; 3] = [217, 154, 66];
            assert(c@ =~= seq![217u8, 154u8, 66u8]);
            Some(c)
        },
        RecordingState::Idle | RecordingState::Completed | RecordingState::Recovering => None,
    }
}

// ---------------------------------------------------------------------------
// Capture prompts
// ---------------------------------------------------------------------------

/// Whether a prompt of `incoming_kind` for `session_id` takes the place of the
/// prompt shown now: always when none is shown or it belongs to another
/// session; within a session, a different kind replaces a silence prompt,
/// and nothing replaces an interruption prompt.
pub open spec fn should_replace_spec(
    current: Option<CapturePrompt>,
    session_id: Seq<char>,
    incoming_kind: CapturePromptKind,
) -> bool {
    match current {
        None => true,
        Some(prompt) => prompt.session_id@ != session_id || (prompt.kind != incoming_kind
            && prompt.kind != CapturePromptKind::CaptureInterrupted),
    }
}

pub fn should_replace_capture_prompt(
    current: Option<&CapturePrompt>,
    session_id: &str,
    incoming_kind: CapturePromptKind,
) -> (r: bool)
    ensures
        r == should_replace_spec(
            match current {
                Some(p) => Some(*p),
                None => None,
            },
            session_id@,
            incoming_kind,
        ),
{
    match current {
        None => true,
        Some(prompt) => {
            if !str_eq(prompt.session_id.as_str(), session_id) {
                true
            } else {
                prompt.kind != incoming_kind && prompt.kind != CapturePromptKind::CaptureInterrupted
            }
        },
    }
}

/// Within one session an interruption prompt replaces a silence prompt, and
/// is itself never replaced.
pub proof fn lemma_interruption_outranks_silence(prompt: CapturePrompt, kind: CapturePromptKind)
    ensures
        prompt.kind == CapturePromptKind::ProlongedSilence ==> should_replace_spec(
            Some(prompt),
            prompt.session_id@,
            CapturePromptKind::CaptureInterrupted,
        ),
        prompt.kind == CapturePromptKind::CaptureInterrupted ==> !should_replace_spec(
            Some(prompt),
            prompt.session_id@,
            kind,
        ),
        !should_replace_spec(Some(prompt), prompt.session_id@, prompt.kind),
{
}

// ---------------------------------------------------------------------------
// Microphone source epochs
// ---------------------------------------------------------------------------

/// The epoch after `current`; zero marks a disabled microphone, so the count
/// wraps to one.
pub fn next_source_epoch(current: u64) -> (r: u64)
    ensures
        r == (if current == u64::MAX {
            1
        } else {
            current + 1
        }),
        r != 0,
        r != current,
{
    match current.checked_add(1) {
        Some(next) => next,
        None => 1,
    }
}

// ---------------------------------------------------------------------------
// Settings
// ---------------------------------------------------------------------------

/// Whether saving `next` over `previous` has to register the global
/// shortcuts again.
pub open spec fn shortcut_settings_changed_spec(previous: AppSettings, next: AppSettings) -> bool {
    previous.shortcuts_enabled != next.shortcuts_enabled || previous.toggle_shortcut@
        != next.toggle_shortcut@ || previous.stop_shortcut@ != next.stop_shortcut@
}

pub fn shortcut_settings_changed(previous: &AppSettings, next: &AppSettings) -> (r: bool)
    ensures
        r == shortcut_settings_changed_spec(*previous, *next),
{
    previous.shortcuts_enabled != next.shortcuts_enabled || !str_eq(
        previous.toggle_shortcut.as_str(),
        next.toggle_shortcut.as_str(),
    ) || !str_eq(previous.stop_shortcut.as_str(), next.stop_shortcut.as_str())
}

// ---------------------------------------------------------------------------
// Echo cancellation
// ---------------------------------------------------------------------------

pub open spec fn should_enable_aec_spec(mode: AecMode, auto_should_enable: bool) -> bool {
    mode is On || (mode is Auto && auto_should_enable)
}

pub fn should_enable_aec(mode: AecMode, auto_should_enable: bool) -> (r: bool)
    ensures
        r == should_enable_aec_spec(mode, auto_should_enable),
{
    match mode {
        AecMode::On => true,
        AecMode::Auto => auto_should_enable,
        AecMode::Off => false,
    }
}

/// The render device whose sound is recorded: the fixed endpoint when one
/// is chosen, else the default communications device.
pub open spec fn is_recorded_render_device(device: AudioDevice, endpoint: Option<Seq<char>>) -> bool {
    device.direction == DeviceDirection::Render && match endpoint {
        Some(id) => device.id@ == id,
        None => device.is_default_communications,
    }
}

/// The first device of `devices` that is the recorded render device.
pub open spec fn first_recorded_device(devices: Seq<AudioDevice>, endpoint: Option<Seq<char>>) -> Option<
    AudioDevice,
>
    decreases devices.len(),
{
    if devices.len() == 0 {
        None
    } else {
        match first_recorded_device(devices.drop_last(), endpoint) {
            Some(d) => Some(d),
            None => if is_recorded_render_device(devices.last(), endpoint) {
                Some(devices.last())
            } else {
                None
            },
        }
    }
}

/// Sound played on headphones cannot leak into the microphone.
pub open spec fn is_head_worn(form_factor: Seq<char>) -> bool {
    form_factor == "Headphones"@ || form_factor == "Headset"@ || form_factor == "Handset"@
}

pub open spec fn fixed_endpoint(selection: CaptureSelection) -> Option<Seq<char>> {
    match selection {
        CaptureSelection::System { device: DeviceSelection::Fixed { endpoint_id } } => Some(
            endpoint_id@,
        ),
        _ => None,
    }
}

/// In automatic mode echo cancellation is on unless the recorded sound
/// plays on a head-worn device; when the devices cannot be listed it is on.
pub open spec fn auto_should_enable_aec_spec(
    selection: CaptureSelection,
    devices: Option<Seq<AudioDevice>>,
) -> bool {
    match devices {
        None => true,
        Some(list) => match first_recorded_device(list, fixed_endpoint(selection)) {
            Some(device) => !is_head_worn(device.form_factor@),
            None => true,
        },
    }
}

fn is_head_worn_exec(form_factor: &str) -> (r: bool)
    ensures
        r == is_head_worn(form_factor@),
{
    str_eq(form_factor, "Headphones") || str_eq(form_factor, "Headset") || str_eq(
        form_factor,
        "Handset",
    )
}

/// `devices` is what listing the audio devices gave, or `None` when that
/// failed.
pub fn auto_should_enable_aec(selection: &CaptureSelection, devices: Option<&[AudioDevice]>) -> (r:
    bool)
    ensures
        r == auto_should_enable_aec_spec(
            *selection,
            match devices {
                Some(d) => Some(d@),
                None => None,
            },
        ),
{
    let list = match devices {
        None => return true,
        Some(list) => list,
    };
    let endpoint: Option<&str> = match selection {
        CaptureSelection::System { device: DeviceSelection::Fixed { endpoint_id } } => Some(
            endpoint_id.as_str(),
        ),
        _ => None,
    };
    let ghost ep = fixed_endpoint(*selection);
    assert(ep == match endpoint {
        Some(e) => Some(e@),
        None => None::<Seq<char>>,
    });
    let mut i: usize = 0;
    while i < list.len()
        invariant
            i <= list@.len(),
            devices == Some(list),
            ep == fixed_endpoint(*selection),
            ep == match endpoint {
                Some(e) => Some(e@),
                None => None::<Seq<char>>,
            },
            first_recorded_device(list@.take(i as int), ep) is None,
        decreases list@.len() - i,
    {
        let device = &list[i];
        assert(list@.take(i + 1).drop_last() =~= list@.take(i as int));
        let matches = device.direction == DeviceDirection::Render && match endpoint {
            Some(id) => str_eq(device.id.as_str(), id),
            None => device.is_default_communications,
        };
        if matches {
            assert(*device == list@[i as int]);
            assert(is_recorded_render_device(*device, ep));
            assert(list@.take(i + 1).last() == *device);
            assert(first_recorded_device(list@.take(i + 1), ep) == Some(*device));
            assert(list@.take(i + 1).is_prefix_of(list@));
            proof {
                lemma_first_recorded_prefix(list@, (i + 1) as int, ep);
            }
            return !is_head_worn_exec(device.form_factor.as_str());
        }
        i = i + 1;
    }
    assert(list@.take(list@.len() as int) =~= list@);
    true
}

/// Once a prefix holds the recorded device, the whole list gives the same.
proof fn lemma_first_recorded_prefix(devices: Seq<AudioDevice>, n: int, endpoint: Option<Seq<char>>)
    requires
        0 <= n <= devices.len(),
        first_recorded_device(devices.take(n), endpoint) is Some,
    ensures
        first_recorded_device(devices, endpoint) == first_recorded_device(devices.take(n), endpoint),
    decreases devices.len() - n,
{
    if n < devices.len() {
        assert(devices.take(n + 1).drop_last() =~= devices.take(n));
        lemma_first_recorded_prefix(devices, n + 1, endpoint);
    } else {
        assert(devices.take(n) =~= devices);
    }
}

// ---------------------------------------------------------------------------
// Transcript text for copying and export
// ---------------------------------------------------------------------------

/// The segment carries a speaker label that is not blank.
pub open spec fn is_labelled(segment: TranscriptSegment) -> bool {
    segment.speaker matches Some(s) && !is_blank(s@)
}

pub open spec fn has_speaker_label(segments: Seq<TranscriptSegment>) -> bool {
    exists|i: int| 0 <= i < segments.len() && #[trigger] is_labelled(segments[i])
}

/// The name shown for a speaker label: the participant it was resolved to,
/// else the label itself.
pub open spec fn speaker_display(names: Map<Seq<char>, String>, speaker: Seq<char>) -> Seq<char> {
    if names.contains_key(speaker) {
        names[speaker]@
    } else {
        speaker
    }
}

/// The line a segment contributes: none when its text is blank, else the
/// trimmed text, after `name：` when it has a speaker label.
pub open spec fn segment_line(segment: TranscriptSegment, names: Map<Seq<char>, String>) -> Option<
    Seq<char>,
> {
    let text = trim(segment.text@);
    if text.len() == 0 {
        None
    } else {
        match segment.speaker {
            Some(s) => if trim(s@).len() > 0 {
                Some(speaker_display(names, trim(s@)) + seq!['：'] + text)
            } else {
                Some(text)
            },
            None => Some(text),
        }
    }
}

pub open spec fn transcript_lines(
    segments: Seq<TranscriptSegment>,
    names: Map<Seq<char>, String>,
) -> Seq<Seq<char>>
    decreases segments.len(),
{
    if segments.len() == 0 {
        seq![]
    } else {
        let previous = transcript_lines(segments.drop_last(), names);
        match segment_line(segments.last(), names) {
            Some(line) => previous.push(line),
            None => previous,
        }
    }
}

/// The lines joined by `separator`.
pub open spec fn join_lines(lines: Seq<Seq<char>>, separator: Seq<char>) -> Seq<char>
    decreases lines.len(),
{
    if lines.len() == 0 {
        seq![]
    } else if lines.len() == 1 {
        lines[0]
    } else {
        join_lines(lines.drop_last(), separator) + separator + lines.last()
    }
}

/// The text copied or exported for a transcript: one `speaker：text` line
/// per segment when any segment has a speaker label, else the plain text.
pub open spec fn transcript_text_spec(transcript: TranscriptDocument) -> Seq<char> {
    if !has_speaker_label(transcript.segments@) {
        trim(transcript.text@)
    } else {
        let lines = transcript_lines(transcript.segments@, transcript.speaker_names@);
        if lines.len() == 0 {
            trim(transcript.text@)
        } else {
            join_lines(lines, seq!['\r', '\n'])
        }
    }
}

fn segment_line_exec(segment: &TranscriptSegment, text: &Vec<char>, names: &crate::models::StringMap<String>) -> (r: Vec<char>)
    requires
        text@ == trim(segment.text@),
        text@.len() > 0,
    ensures
        segment_line(*segment, names@) == Some(r@),
{
    match &segment.speaker {
        Some(s) => {
            let speaker = trim_str(s.as_str());
            if speaker.len() > 0 {
                let key = string_from_chars(&speaker);
                let mut line = match names.get(key.as_str()) {
                    Some(name) => chars_of(name.as_str()),
                    None => speaker,
                };
                line.push('：');
                push_chars(&mut line, text);
                line
            } else {
                text.clone()
            }
        },
        None => text.clone(),
    }
}

pub fn format_transcript_text(transcript: &TranscriptDocument) -> (r: String)
    ensures
        r@ == transcript_text_spec(*transcript),
{
    let segments = &transcript.segments;
    let mut labelled = false;
    let mut i: usize = 0;
    while i < segments.len()
        invariant
            i <= segments@.len(),
            labelled == exists|j: int| 0 <= j < i && #[trigger] is_labelled(segments@[j]),
        decreases segments@.len() - i,
    {
        if let Some(s) = &segments[i].speaker {
            if !crate::text::is_blank_str(s.as_str()) {
                assert(is_labelled(segments@[i as int]));
                labelled = true;
            }
        }
        i = i + 1;
    }
    if !labelled {
        let text = trim_str(transcript.text.as_str());
        return string_from_chars(&text);
    }
    let ghost names = transcript.speaker_names@;
    let mut out: Vec<char> = Vec::new();
    let mut count: usize = 0;
    i = 0;
    while i < segments.len()
        invariant
            i <= segments@.len(),
            names == transcript.speaker_names@,
            count == transcript_lines(segments@.take(i as int), names).len(),
            count <= i,
            out@ == join_lines(transcript_lines(segments@.take(i as int), names), seq!['\r', '\n']),
        decreases segments@.len() - i,
    {
        let segment = &segments[i];
        assert(segments@.take(i + 1).drop_last() =~= segments@.take(i as int));
        assert(segments@.take(i + 1).last() == segments@[i as int]);
        let text = trim_str(segment.text.as_str());
        if text.len() > 0 {
            let line = segment_line_exec(segment, &text, &transcript.speaker_names);
            if count > 0 {
                out.push('\r');
                out.push('\n');
            }
            push_chars(&mut out, &line);
            let ghost lines = transcript_lines(segments@.take(i + 1), names);
            assert(lines.drop_last() =~= transcript_lines(segments@.take(i as int), names));
            assert(out@ =~= join_lines(lines, seq!['\r', '\n']));
            count = count + 1;
        }
        i = i + 1;
    }
    assert(segments@.take(segments@.len() as int) =~= segments@);
    if count == 0 {
        let text = trim_str(transcript.text.as_str());
        string_from_chars(&text)
    } else {
        string_from_chars(&out)
    }
}

// ---------------------------------------------------------------------------
// The recording tick
// ---------------------------------------------------------------------------

/// Length of one recording tick.
pub const TICK_MS: u64 = 10;

/// Time both sources must have been heard before echo cancellation counts
/// as converged.
pub const AEC_CONVERGENCE_MS: u64 = 2_000;

/// Free space under which the recording stops safely.
pub const DISK_STOP_BYTES: u64 = 50 * 1024 * 1024;

/// Free space under which the user is warned.
pub const DISK_WARNING_BYTES: u64 = 200 * 1024 * 1024;

/// Echo-cancellation status when capture starts, resumes or changes
/// microphone.
pub open spec fn aec_status_on_start_spec(
    mode: AecMode,
    auto_should_enable: bool,
    microphone_enabled: bool,
) -> AecStatus {
    if microphone_enabled && should_enable_aec_spec(mode, auto_should_enable) {
        AecStatus::Converging
    } else {
        AecStatus::Disabled
    }
}

pub fn aec_status_on_start(mode: AecMode, auto_should_enable: bool, microphone_enabled: bool) -> (r:
    AecStatus)
    ensures
        r == aec_status_on_start_spec(mode, auto_should_enable, microphone_enabled),
{
    if microphone_enabled && should_enable_aec(mode, auto_should_enable) {
        AecStatus::Converging
    } else {
        AecStatus::Disabled
    }
}

/// What the free space on the recording's disks calls for.
#[derive(Debug, Clone, Copy, PartialEq, Eq, Structural)]
pub enum DiskVerdict {
    Enough,
    Low,
    Exhausted,
}

pub fn disk_verdict(available_bytes: u64) -> (r: DiskVerdict)
    ensures
        r == (if available_bytes < DISK_STOP_BYTES {
            DiskVerdict::Exhausted
        } else if available_bytes < DISK_WARNING_BYTES {
            DiskVerdict::Low
        } else {
            DiskVerdict::Enough
        }),
{
    if available_bytes < DISK_STOP_BYTES {
        DiskVerdict::Exhausted
    } else if available_bytes < DISK_WARNING_BYTES {
        DiskVerdict::Low
    } else {
        DiskVerdict::Enough
    }
}

/// What one capture tick does with what the capture threads report.
#[derive(Debug, Clone, Copy, PartialEq, Eq, Structural)]
pub enum TickAction {
    /// Paused: queued audio is drained and dropped, nothing is written.
    DrainWhilePaused,
    /// Neither source is heard: the recording is interrupted and nothing is
    /// written.
    SourcesLost,
    /// A mixed frame is encoded and written.
    WriteFrame,
}

pub open spec fn tick_action_spec(
    paused: bool,
    system_connected: bool,
    microphone_enabled: bool,
    microphone_healthy: bool,
) -> TickAction {
    if paused {
        TickAction::DrainWhilePaused
    } else if !system_connected && !(microphone_enabled && microphone_healthy) {
        TickAction::SourcesLost
    } else {
        TickAction::WriteFrame
    }
}

/// Whether a tick writes a frame: not while paused, and not when neither the
/// output source nor an enabled, healthy microphone is heard.
pub fn tick_action(
    paused: bool,
    system_connected: bool,
    microphone_enabled: bool,
    microphone_healthy: bool,
) -> (r: TickAction)
    ensures
        r == tick_action_spec(paused, system_connected, microphone_enabled, microphone_healthy),
{
    if paused {
        TickAction::DrainWhilePaused
    } else if !system_connected && !(microphone_enabled && microphone_healthy) {
        TickAction::SourcesLost
    } else {
        TickAction::WriteFrame
    }
}

pub open spec fn least_of(a: u64, b: u64) -> u64 {
    if a < b {
        a
    } else {
        b
    }
}

/// The once-a-second disk check of a running recording. With under 50 MB
/// free on either disk the recording stops, and the returned message says
/// why; with under 200 MB the low-disk warning is recorded; otherwise
/// nothing changes.
pub fn apply_disk_check(
    snapshot: &mut RecordingSnapshot,
    output_space: u64,
    recovery_space: u64,
    occurred_at: String,
) -> (stop: Option<String>)
    ensures
        (least_of(output_space, recovery_space) < DISK_STOP_BYTES) <==> stop is Some,
        stop matches Some(message) ==> message@ == "保存磁盘剩余空间低于 50 MB，录音已安全停止"@
            && *final(snapshot) == *old(snapshot),
        DISK_STOP_BYTES <= least_of(output_space, recovery_space) < DISK_WARNING_BYTES ==> ({
            &&& final(snapshot).fault matches Some(f) && f.code@ == "LOW_DISK_WARNING"@
                && f.component@ == "storage"@ && f.recoverable && f.occurred_at == occurred_at
                && f.user_message@ == "保存磁盘剩余空间低于 200 MB"@
            &&& *final(snapshot) == RecordingSnapshot { fault: final(snapshot).fault, ..*old(snapshot) }
        }),
        least_of(output_space, recovery_space) >= DISK_WARNING_BYTES ==> *final(snapshot)
            == *old(snapshot),
{
    let least = if output_space < recovery_space {
        output_space
    } else {
        recovery_space
    };
    match disk_verdict(least) {
        DiskVerdict::Exhausted => Some(String::from_str("保存磁盘剩余空间低于 50 MB，录音已安全停止")),
        DiskVerdict::Low => {
            snapshot.fault = Some(low_disk_fault(occurred_at));
            None
        },
        DiskVerdict::Enough => None,
    }
}

/// Whether this tick counts towards echo-cancellation convergence.
pub open spec fn converging_tick(
    status: AecStatus,
    system_connected: bool,
    microphone_connected: bool,
) -> bool {
    status == AecStatus::Converging && system_connected && microphone_connected
}

/// Records a tick that wrote a frame: the active time grows by one tick, the
/// byte count and source health are taken over, and echo cancellation is
/// reported enabled once both sources have been heard long enough. Returns
/// the convergence time counted so far.
pub fn record_frame(
    snapshot: &mut RecordingSnapshot,
    bytes_written: u64,
    system_connected: bool,
    microphone_connected: bool,
    aec_converging_ms: u64,
) -> (r: u64)
    requires
        old(snapshot).active_duration_ms + TICK_MS <= u64::MAX,
    ensures
        final(snapshot).active_duration_ms == old(snapshot).active_duration_ms + TICK_MS,
        final(snapshot).bytes_written == bytes_written,
        final(snapshot).system.healthy == system_connected,
        final(snapshot).microphone.healthy == microphone_connected,
        r == (if converging_tick(old(snapshot).aec_status, system_connected, microphone_connected) {
            if aec_converging_ms + TICK_MS > u64::MAX {
                u64::MAX
            } else {
                (aec_converging_ms + TICK_MS) as u64
            }
        } else {
            aec_converging_ms
        }),
        final(snapshot).aec_status == (if converging_tick(
            old(snapshot).aec_status,
            system_connected,
            microphone_connected,
        ) && r >= AEC_CONVERGENCE_MS {
            AecStatus::Enabled
        } else {
            old(snapshot).aec_status
        }),
        final(snapshot).state == old(snapshot).state,
        final(snapshot).session_id == old(snapshot).session_id,
        final(snapshot).fault == old(snapshot).fault,
        final(snapshot).output_path == old(snapshot).output_path,
{
    snapshot.active_duration_ms = snapshot.active_duration_ms + TICK_MS;
    snapshot.bytes_written = bytes_written;
    snapshot.system.healthy = system_connected;
    snapshot.microphone.healthy = microphone_connected;
    let mut converging = aec_converging_ms;
    if snapshot.aec_status == AecStatus::Converging && system_connected && microphone_connected {
        converging = converging.saturating_add(TICK_MS);
        if converging >= AEC_CONVERGENCE_MS {
            snapshot.aec_status = AecStatus::Enabled;
        }
    }
    converging
}

/// Both sources are lost: the recording is interrupted, both sources are
/// unhealthy, and a recoverable fault says so.
pub fn mark_sources_lost(snapshot: &mut RecordingSnapshot, occurred_at: String)
    ensures
        next_state(
            old(snapshot).state,
            RecordingEvent::SourcesChanged { system: false, microphone: false },
        ) == Some(final(snapshot).state),
        final(snapshot).state == RecordingState::Interrupted,
        !final(snapshot).system.healthy,
        !final(snapshot).microphone.healthy,
        final(snapshot).fault matches Some(f) && f.code@ == "ALL_SOURCES_INTERRUPTED"@
            && f.component@ == "audio"@ && f.recoverable && f.occurred_at@ == occurred_at@,
        final(snapshot).active_duration_ms == old(snapshot).active_duration_ms,
        final(snapshot).session_id == old(snapshot).session_id,
{
    let event = RecordingEvent::SourcesChanged { system: false, microphone: false };
    snapshot.state = match transition(snapshot.state, event) {
        Ok(next) => next,
        Err(_) => RecordingState::Interrupted,
    };
    snapshot.system.healthy = false;
    snapshot.microphone.healthy = false;
    snapshot.fault = Some(
        RecordingFault {
            component: String::from_str("audio"),
            code: String::from_str("ALL_SOURCES_INTERRUPTED"),
            recoverable: true,
            user_message: String::from_str("会议声音和麦克风均已中断，正在等待恢复"),
            occurred_at,
        },
    );
}

/// One tick of a running capture, after the capture loop has done what
/// `tick_action` asked (written one mixed frame exactly when it said
/// `WriteFrame`). A tick that is not paused and hears the output source or
/// an enabled, healthy microphone writes one frame and adds exactly one
/// tick to the active time; any other tick adds nothing, and one that hears
/// neither source interrupts the recording. Returns the echo-cancellation
/// convergence time counted so far.
pub fn complete_tick(
    snapshot: &mut RecordingSnapshot,
    paused: bool,
    system_connected: bool,
    microphone_enabled: bool,
    microphone_healthy: bool,
    bytes_written: u64,
    aec_converging_ms: u64,
    occurred_at: String,
) -> (r: u64)
    requires
        tick_action_spec(paused, system_connected, microphone_enabled, microphone_healthy)
            == TickAction::WriteFrame ==> old(snapshot).active_duration_ms + TICK_MS <= u64::MAX,
    ensures
        ({
            let action = tick_action_spec(
                paused,
                system_connected,
                microphone_enabled,
                microphone_healthy,
            );
            let microphone_connected = microphone_enabled && microphone_healthy;
            &&& (action == TickAction::WriteFrame) <==> (!paused && (system_connected
                || microphone_connected))
            &&& final(snapshot).active_duration_ms == old(snapshot).active_duration_ms + (if action
                == TickAction::WriteFrame {
                TICK_MS
            } else {
                0
            })
            &&& final(snapshot).session_id == old(snapshot).session_id
            &&& match action {
                TickAction::DrainWhilePaused => *final(snapshot) == *old(snapshot) && r
                    == aec_converging_ms,
                TickAction::SourcesLost => {
                    &&& final(snapshot).state == RecordingState::Interrupted
                    &&& !final(snapshot).system.healthy && !final(snapshot).microphone.healthy
                    &&& final(snapshot).fault matches Some(f) && f.code@
                        == "ALL_SOURCES_INTERRUPTED"@ && f.occurred_at@ == occurred_at@
                    &&& r == aec_converging_ms
                },
                TickAction::WriteFrame => {
                    &&& final(snapshot).bytes_written == bytes_written
                    &&& final(snapshot).system.healthy == system_connected
                    &&& final(snapshot).microphone.healthy == microphone_connected
                    &&& final(snapshot).state == old(snapshot).state
                    &&& final(snapshot).fault == old(snapshot).fault
                    &&& r == (if converging_tick(
                        old(snapshot).aec_status,
                        system_connected,
                        microphone_connected,
                    ) {
                        if aec_converging_ms + TICK_MS > u64::MAX {
                            u64::MAX
                        } else {
                            (aec_converging_ms + TICK_MS) as u64
                        }
                    } else {
                        aec_converging_ms
                    })
                    &&& final(snapshot).aec_status == (if converging_tick(
                        old(snapshot).aec_status,
                        system_connected,
                        microphone_connected,
                    ) && r >= AEC_CONVERGENCE_MS {
                        AecStatus::Enabled
                    } else {
                        old(snapshot).aec_status
                    })
                },
            }
        }),
{
    match tick_action(paused, system_connected, microphone_enabled, microphone_healthy) {
        TickAction::DrainWhilePaused => aec_converging_ms,
        TickAction::SourcesLost => {
            mark_sources_lost(snapshot, occurred_at);
            aec_converging_ms
        },
        TickAction::WriteFrame => record_frame(
            snapshot,
            bytes_written,
            system_connected,
            microphone_enabled && microphone_healthy,
            aec_converging_ms,
        ),
    }
}

/// What a tick hears: paused, output source connected, microphone enabled,
/// microphone healthy.
pub open spec fn tick_writes(tick: (bool, bool, bool, bool)) -> bool {
    tick_action_spec(tick.0, tick.1, tick.2, tick.3) == TickAction::WriteFrame
}

/// The frames written over `ticks`.
pub open spec fn frames_written(ticks: Seq<(bool, bool, bool, bool)>) -> nat
    decreases ticks.len(),
{
    if ticks.len() == 0 {
        0
    } else {
        frames_written(ticks.drop_last()) + (if tick_writes(ticks.last()) {
            1nat
        } else {
            0nat
        })
    }
}

/// Over any run of ticks, the active time of a recording grows by exactly
/// one tick per frame written: `durations[i]` is the active time before
/// tick `i`, each tick moving it as `complete_tick` does.
pub proof fn lemma_active_time_counts_frames(
    ticks: Seq<(bool, bool, bool, bool)>,
    durations: Seq<int>,
)
    requires
        durations.len() == ticks.len() + 1,
        forall|i: int|
            0 <= i < ticks.len() ==> #[trigger] durations[i + 1] == durations[i] + (if tick_writes(
                ticks[i],
            ) {
                TICK_MS as int
            } else {
                0
            }),
    ensures
        durations.last() == durations[0] + TICK_MS * frames_written(ticks),
    decreases ticks.len(),
{
    if ticks.len() > 0 {
        let n = ticks.len() - 1;
        lemma_active_time_counts_frames(ticks.drop_last(), durations.drop_last());
        assert(durations[n + 1] == durations[n] + (if tick_writes(ticks[n]) {
            TICK_MS as int
        } else {
            0
        }));
        assert(ticks.drop_last().len() == n);
    }
}

/// The state after the recording file was finalised.
pub fn finished_state(state: RecordingState) -> (r: RecordingState)
    ensures
        r == (match next_state(state, RecordingEvent::Finalized) {
            Some(next) => next,
            None => RecordingState::Completed,
        }),
{
    match transition(state, RecordingEvent::Finalized) {
        Ok(next) => next,
        Err(_) => RecordingState::Completed,
    }
}

// ---------------------------------------------------------------------------
// Starting, pausing, resuming and stopping
// ---------------------------------------------------------------------------

/// A recording is under way (or being saved or recovered) in these states,
/// so a new one cannot start.
pub open spec fn is_busy_spec(state: RecordingState) -> bool {
    state is Preparing || state is Recording || state is Paused || state is Interrupted
        || state is Finalizing || state is Recovering
}

pub fn is_busy(state: RecordingState) -> (r: bool)
    ensures
        r == is_busy_spec(state),
{
    match state {
        RecordingState::Preparing | RecordingState::Recording | RecordingState::Paused
        | RecordingState::Interrupted | RecordingState::Finalizing | RecordingState::Recovering => true,
        _ => false,
    }
}

/// The chosen recordings directory, trimmed; a blank one is refused.
pub fn check_output_directory(output_directory: &str) -> (r: Result<String, String>)
    ensures
        is_blank(output_directory@) <==> r is Err,
        r is Err ==> r->Err_0@ == "请选择录音保存目录"@,
        r is Ok ==> r->Ok_0@ == trim(output_directory@),
{
    let t = trim_str(output_directory);
    if t.len() == 0 {
        return Err(String::from_str("请选择录音保存目录"));
    }
    Ok(string_from_chars(&t))
}

/// Whether there is room to start: under 50 MB free on either disk refuses
/// the start; under 200 MB starts with a warning (`Ok(true)`).
pub fn check_start_space(available: u64, recovery_available: u64) -> (r: Result<bool, String>)
    ensures
        (if available < recovery_available {
            available
        } else {
            recovery_available
        }) < DISK_STOP_BYTES <==> r is Err,
        r is Err ==> r->Err_0@ == "保存磁盘剩余空间低于 50 MB，无法安全开始录音"@,
        r is Ok ==> r->Ok_0 == ((if available < recovery_available {
            available
        } else {
            recovery_available
        }) < DISK_WARNING_BYTES),
{
    let least = if available < recovery_available {
        available
    } else {
        recovery_available
    };
    if least < DISK_STOP_BYTES {
        return Err(String::from_str("保存磁盘剩余空间低于 50 MB，无法安全开始录音"));
    }
    Ok(least < DISK_WARNING_BYTES)
}

/// The warning recorded when little disk space is left.
pub fn low_disk_fault(occurred_at: String) -> (r: RecordingFault)
    ensures
        r.component@ == "storage"@,
        r.code@ == "LOW_DISK_WARNING"@,
        r.recoverable,
        r.user_message@ == "保存磁盘剩余空间低于 200 MB"@,
        r.occurred_at == occurred_at,
{
    RecordingFault {
        component: String::from_str("storage"),
        code: String::from_str("LOW_DISK_WARNING"),
        recoverable: true,
        user_message: String::from_str("保存磁盘剩余空间低于 200 MB"),
        occurred_at,
    }
}

/// The snapshot of a recording being prepared: the new session, no audio
/// yet, both sources connecting, and the disk warning when there is one.
pub fn preparing_snapshot(
    current: RecordingState,
    session_id: String,
    started_at: String,
    microphone: Option<DeviceSelection>,
    low_disk_warning_at: Option<String>,
) -> (r: Result<RecordingSnapshot, crate::state_machine::IllegalTransition>)
    ensures
        match next_state(current, RecordingEvent::Prepare) {
            None => r is Err,
            Some(next) => r is Ok && ({
                let s = r->Ok_0;
                &&& s.state == next
                &&& s.session_id == Some(session_id)
                &&& s.started_at == Some(started_at)
                &&& s.active_duration_ms == 0
                &&& s.bytes_written == 0
                &&& s.output_path is None
                &&& !s.system.healthy
                &&& !s.microphone.healthy
                &&& (s.microphone.detail is Some <==> microphone is Some)
                &&& s.microphone_selection == microphone
                &&& s.aec_status == AecStatus::Disabled
                &&& (s.fault is Some <==> low_disk_warning_at is Some)
            }),
        },
{
    let state = match transition(current, RecordingEvent::Prepare) {
        Ok(s) => s,
        Err(e) => return Err(e),
    };
    let microphone_detail = match &microphone {
        Some(_) => Some(String::from_str("正在连接")),
        None => None,
    };
    let fault = match low_disk_warning_at {
        Some(at) => Some(low_disk_fault(at)),
        None => None,
    };
    Ok(
        RecordingSnapshot {
            session_id: Some(session_id),
            state,
            started_at: Some(started_at),
            active_duration_ms: 0,
            bytes_written: 0,
            output_path: None,
            system: SourceStatus {
                healthy: false,
                label: String::from_str("会议声音"),
                detail: Some(String::from_str("正在建立 Windows 音频回环")),
            },
            microphone: SourceStatus {
                healthy: false,
                label: String::from_str("麦克风"),
                detail: microphone_detail,
            },
            microphone_selection: microphone,
            aec_status: AecStatus::Disabled,
            fault,
        },
    )
}

/// Capture has started: the recording runs, the output source is healthy,
/// and the microphone is healthy exactly when it opened.
pub fn mark_started(
    snapshot: &mut RecordingSnapshot,
    process_capture: bool,
    microphone_opened: bool,
    microphone_error: Option<String>,
    microphone_selection: Option<DeviceSelection>,
    aec_enabled: bool,
) -> (r: Result<(), crate::state_machine::IllegalTransition>)
    ensures
        match next_state(old(snapshot).state, RecordingEvent::Started) {
            None => r is Err && *final(snapshot) == *old(snapshot),
            Some(next) => r is Ok && final(snapshot).state == next && final(snapshot).system.healthy
                && final(snapshot).microphone.healthy == microphone_opened
                && final(snapshot).microphone.detail == microphone_error
                && final(snapshot).microphone_selection == microphone_selection
                && final(snapshot).aec_status == (if aec_enabled {
                AecStatus::Converging
            } else {
                AecStatus::Disabled
            }) && final(snapshot).session_id == old(snapshot).session_id,
        },
{
    let next = match transition(snapshot.state, RecordingEvent::Started) {
        Ok(s) => s,
        Err(e) => return Err(e),
    };
    snapshot.state = next;
    snapshot.system = SourceStatus {
        healthy: true,
        label: String::from_str("会议声音"),
        detail: Some(
            if process_capture {
                String::from_str("指定应用（含子进程）")
            } else {
                String::from_str("全部系统声音")
            },
        ),
    };
    snapshot.microphone = SourceStatus {
        healthy: microphone_opened,
        label: String::from_str("麦克风"),
        detail: microphone_error,
    };
    snapshot.microphone_selection = microphone_selection;
    snapshot.aec_status = if aec_enabled {
        AecStatus::Converging
    } else {
        AecStatus::Disabled
    };
    Ok(())
}

/// How far opening the capture sources of a new recording has come.
#[derive(Debug, Clone, Copy, PartialEq, Eq, Structural)]
pub struct CaptureProgress {
    pub system_opened: bool,
    pub microphone_tried: bool,
    pub microphone_opened: bool,
    pub settled: bool,
}

/// The next thing to do while opening the capture sources.
#[derive(Debug, Clone, Copy, PartialEq, Eq, Structural)]
pub enum CaptureStep {
    OpenSystem,
    OpenMicrophone,
    /// Wait `MICROPHONE_SETTLE_MS` for a headset to switch profile.
    Settle,
    Ready,
}

/// Pause after opening a microphone before endpoint loopback is attached.
pub const MICROPHONE_SETTLE_MS: u64 = 250;

/// Process loopback is attached before the microphone opens; endpoint
/// loopback after it, once a headset has had time to switch profile.
pub open spec fn next_capture_step_spec(
    process_capture: bool,
    microphone_requested: bool,
    progress: CaptureProgress,
) -> CaptureStep {
    if process_capture && !progress.system_opened {
        CaptureStep::OpenSystem
    } else if microphone_requested && !progress.microphone_tried {
        CaptureStep::OpenMicrophone
    } else if !process_capture && progress.microphone_opened && !progress.settled {
        CaptureStep::Settle
    } else if !progress.system_opened {
        CaptureStep::OpenSystem
    } else {
        CaptureStep::Ready
    }
}

pub fn next_capture_step(
    process_capture: bool,
    microphone_requested: bool,
    progress: CaptureProgress,
) -> (r: CaptureStep)
    ensures
        r == next_capture_step_spec(process_capture, microphone_requested, progress),
{
    if process_capture && !progress.system_opened {
        CaptureStep::OpenSystem
    } else if microphone_requested && !progress.microphone_tried {
        CaptureStep::OpenMicrophone
    } else if !process_capture && progress.microphone_opened && !progress.settled {
        CaptureStep::Settle
    } else if !progress.system_opened {
        CaptureStep::OpenSystem
    } else {
        CaptureStep::Ready
    }
}

/// The progress after `step`; `opened` is whether an opened microphone
/// came up.
pub open spec fn after_step(
    step: CaptureStep,
    progress: CaptureProgress,
    opened: bool,
) -> CaptureProgress {
    match step {
        CaptureStep::OpenSystem => CaptureProgress { system_opened: true, ..progress },
        CaptureStep::OpenMicrophone => CaptureProgress {
            microphone_tried: true,
            microphone_opened: opened,
            ..progress
        },
        CaptureStep::Settle => CaptureProgress { settled: true, ..progress },
        CaptureStep::Ready => progress,
    }
}

pub open spec fn pending_steps(
    process_capture: bool,
    microphone_requested: bool,
    progress: CaptureProgress,
) -> nat {
    (if progress.system_opened {
        0nat
    } else {
        1nat
    }) + (if microphone_requested && !progress.microphone_tried {
        2nat
    } else {
        0nat
    }) + (if !process_capture && progress.microphone_opened && !progress.settled {
        1nat
    } else {
        0nat
    })
}

/// Opening the capture sources always comes to an end: the steps are done
/// exactly when nothing is pending, and every other step, whatever the
/// microphone did, leaves less pending.
pub proof fn lemma_capture_steps_end(
    process_capture: bool,
    microphone_requested: bool,
    progress: CaptureProgress,
    opened: bool,
)
    ensures
        (next_capture_step_spec(process_capture, microphone_requested, progress)
            == CaptureStep::Ready) <==> pending_steps(process_capture, microphone_requested, progress)
            == 0,
        ({
            let step = next_capture_step_spec(process_capture, microphone_requested, progress);
            step != CaptureStep::Ready ==> pending_steps(
                process_capture,
                microphone_requested,
                after_step(step, progress, opened),
            ) < pending_steps(process_capture, microphone_requested, progress)
        }),
{
}

/// The message when the recording source cannot be opened.
pub fn capture_start_failure(error: &str) -> (r: String)
    ensures
        r@ == "无法启动所选录音来源："@ + error@ + "。可切换到“全部系统声音”后重试"@,
{
    let mut out: Vec<char> = Vec::new();
    crate::text::push_str(&mut out, "无法启动所选录音来源：");
    crate::text::push_str(&mut out, error);
    crate::text::push_str(&mut out, "。可切换到“全部系统声音”后重试");
    string_from_chars(&out)
}

/// Pausing: a paused recording stays as it is (`Ok(false)`); a running or
/// interrupted one pauses (`Ok(true)`); anything else is refused.
pub fn pause_snapshot(snapshot: &mut RecordingSnapshot) -> (r: Result<bool, String>)
    ensures
        old(snapshot).state == RecordingState::Paused ==> r == Ok::<bool, String>(false)
            && *final(snapshot) == *old(snapshot),
        (old(snapshot).state is Recording || old(snapshot).state is Interrupted) ==> r == Ok::<
            bool,
            String,
        >(true) && final(snapshot).state == RecordingState::Paused && final(snapshot).fault
            == old(snapshot).fault && final(snapshot).session_id == old(snapshot).session_id,
        !(old(snapshot).state is Paused || old(snapshot).state is Recording
            || old(snapshot).state is Interrupted) ==> r is Err && r->Err_0@ == "当前状态不能暂停"@
            && *final(snapshot) == *old(snapshot),
{
    if snapshot.state == RecordingState::Paused {
        return Ok(false);
    }
    if !(snapshot.state == RecordingState::Recording || snapshot.state == RecordingState::Interrupted) {
        return Err(String::from_str("当前状态不能暂停"));
    }
    match transition(snapshot.state, RecordingEvent::Pause) {
        Ok(next) => {
            snapshot.state = next;
            Ok(true)
        },
        Err(_) => Err(String::from_str("当前状态不能暂停")),
    }
}

/// Resuming: a running recording stays as it is (`Ok(false)`); a paused one
/// runs again with its fault cleared (`Ok(true)`); anything else is refused.
pub fn resume_snapshot(snapshot: &mut RecordingSnapshot) -> (r: Result<bool, String>)
    ensures
        old(snapshot).state == RecordingState::Recording ==> r == Ok::<bool, String>(false)
            && *final(snapshot) == *old(snapshot),
        old(snapshot).state == RecordingState::Paused ==> r == Ok::<bool, String>(true)
            && final(snapshot).state == RecordingState::Recording && final(snapshot).fault is None
            && final(snapshot).session_id == old(snapshot).session_id,
        !(old(snapshot).state is Paused || old(snapshot).state is Recording) ==> r is Err
            && r->Err_0@ == "当前状态不能继续"@ && *final(snapshot) == *old(snapshot),
{
    if snapshot.state == RecordingState::Recording {
        return Ok(false);
    }
    if snapshot.state != RecordingState::Paused {
        return Err(String::from_str("当前状态不能继续"));
    }
    match transition(snapshot.state, RecordingEvent::Resume) {
        Ok(next) => {
            snapshot.state = next;
            snapshot.fault = None;
            Ok(true)
        },
        Err(_) => Err(String::from_str("当前状态不能继续")),
    }
}

/// Everything but the state and the fault is as it was.
pub open spec fn same_but_state_and_fault(a: RecordingSnapshot, b: RecordingSnapshot) -> bool {
    &&& a.session_id == b.session_id
    &&& a.started_at == b.started_at
    &&& a.active_duration_ms == b.active_duration_ms
    &&& a.bytes_written == b.bytes_written
    &&& a.output_path == b.output_path
    &&& a.system == b.system
    &&& a.microphone == b.microphone
    &&& a.microphone_selection == b.microphone_selection
    &&& a.aec_status == b.aec_status
}

/// The fault recorded when the thread that saves a recording fails.
pub fn finalizer_failed(snapshot: &mut RecordingSnapshot, occurred_at: String)
    ensures
        final(snapshot).state == RecordingState::Error,
        final(snapshot).fault matches Some(f) && f.component@ == "encoder"@ && f.code@ == "FINALIZER_PANIC"@
            && f.recoverable && f.user_message@ == "录音收尾线程异常结束，恢复文件已保留，可在重启后恢复"@
            && f.occurred_at == occurred_at,
        same_but_state_and_fault(*old(snapshot), *final(snapshot)),
{
    snapshot.state = RecordingState::Error;
    snapshot.fault = Some(
        RecordingFault {
            component: String::from_str("encoder"),
            code: String::from_str("FINALIZER_PANIC"),
            recoverable: true,
            user_message: String::from_str("录音收尾线程异常结束，恢复文件已保留，可在重启后恢复"),
            occurred_at,
        },
    );
}

/// A failure of the recorder: the state moves on by the failure event (to
/// the error state where that event does not apply), and the fault names the
/// component, the code and the error's text.
pub fn set_error(
    snapshot: &mut RecordingSnapshot,
    component: &str,
    code: &str,
    message: &str,
    occurred_at: String,
)
    ensures
        final(snapshot).state == (match next_state(old(snapshot).state, RecordingEvent::Fail) {
            Some(next) => next,
            None => RecordingState::Error,
        }),
        final(snapshot).fault matches Some(f) && f.component@ == component@ && f.code@ == code@
            && f.recoverable && f.user_message@ == message@ && f.occurred_at == occurred_at,
        same_but_state_and_fault(*old(snapshot), *final(snapshot)),
{
    snapshot.state = match transition(snapshot.state, RecordingEvent::Fail) {
        Ok(next) => next,
        Err(_) => RecordingState::Error,
    };
    snapshot.fault = Some(
        RecordingFault {
            component: component.to_string(),
            code: code.to_string(),
            recoverable: true,
            user_message: message.to_string(),
            occurred_at,
        },
    );
}

/// The recorder is active while capture runs, while a recording is being
/// saved, or while its state says a recording is under way.
pub fn is_active(capture_running: bool, finalizer_running: bool, state: RecordingState) -> (r: bool)
    ensures
        r == (capture_running || finalizer_running || is_busy_spec(state)),
{
    capture_running || finalizer_running || is_busy(state)
}

} // verus!
