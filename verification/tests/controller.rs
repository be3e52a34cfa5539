use nota::controller::{
    check_output_directory, check_start_space, finalizer_failed, is_active, is_busy, low_disk_fault,
    mark_started, pause_snapshot, preparing_snapshot, resume_snapshot, set_error,
    auto_should_enable_aec, disk_verdict, finished_state, format_transcript_text,
    mark_sources_lost, next_source_epoch, record_frame, should_enable_aec,
    should_replace_capture_prompt, shortcut_settings_changed, tray_badge_color, tray_controls,
    aec_status_on_start, DiskVerdict, TrayControls, apply_disk_check, capture_start_failure,
    next_capture_step, tick_action, complete_tick, CaptureProgress, CaptureStep, TickAction,
};
use nota::models::{
    AecMode, AecStatus, AppSettings, AsrProviderKind, AudioDevice, CapturePrompt,
    CapturePromptKind, CaptureSelection, DeviceDirection, DeviceSelection, RecordingSnapshot,
    RecordingState, StringMap, TranscriptDocument, TranscriptSegment, TranscriptionProtocol,
    TranscriptionStatus,
};

fn settings() -> AppSettings {
    AppSettings {
        output_directory: "C:\\Recordings".into(),
        ai_documents_directory: "C:\\Documents".into(),
        aec_mode: AecMode::Auto,
        microphone_enabled: true,
        first_run_complete: true,
        shortcuts_enabled: true,
        toggle_shortcut: "Ctrl+Alt+F9".into(),
        stop_shortcut: "Ctrl+Alt+F10".into(),
        active_asr_provider_id: None,
        voiceprint_provider_id: None,
        auto_transcribe: false,
        active_llm_provider_id: None,
    }
}

#[test]
fn unrelated_settings_do_not_require_shortcut_registration() {
    let previous = settings();
    let mut next = previous.clone();
    next.output_directory = "D:\\Meetings".into();
    next.aec_mode = AecMode::On;
    next.auto_transcribe = true;

    assert!(!shortcut_settings_changed(&previous, &next));
}

#[test]
fn every_shortcut_field_requires_registration() {
    let previous = settings();

    let mut disabled = previous.clone();
    disabled.shortcuts_enabled = false;
    assert!(shortcut_settings_changed(&previous, &disabled));

    let mut toggle = previous.clone();
    toggle.toggle_shortcut = "Ctrl+Alt+F7".into();
    assert!(shortcut_settings_changed(&previous, &toggle));

    let mut stop = previous.clone();
    stop.stop_shortcut = "Ctrl+Alt+F8".into();
    assert!(shortcut_settings_changed(&previous, &stop));
}

fn transcript(text: &str, segments: Vec<TranscriptSegment>) -> TranscriptDocument {
    TranscriptDocument {
        recording_id: "recording".into(),
        status: TranscriptionStatus::Completed,
        provider_name: "FunASR".into(),
        provider_kind: AsrProviderKind::FunAsr,
        model_id: "sensevoice".into(),
        protocol: TranscriptionProtocol::NotaBatchV1,
        voiceprint_analysis_supported: true,
        language: Some("zh".into()),
        text: text.into(),
        segments,
        speaker_names: StringMap::new(),
        speaker_assignments: StringMap::new(),
        completed_chunks: 1,
        total_chunks: 1,
        error_message: None,
        updated_at: "2026-08-02T00:00:00Z".into(),
    }
}

#[test]
fn formats_speaker_segments_for_copy_and_txt_export() {
    let value = transcript(
        "大家好。收到。继续。",
        vec![
            TranscriptSegment {
                start_ms: 0,
                end_ms: 1_000,
                text: " 大家好。 ".into(),
                speaker: Some("speaker_0".into()),
            },
            TranscriptSegment {
                start_ms: 1_000,
                end_ms: 2_000,
                text: "收到。".into(),
                speaker: Some("speaker_1".into()),
            },
            TranscriptSegment {
                start_ms: 2_000,
                end_ms: 3_000,
                text: "继续。".into(),
                speaker: None,
            },
        ],
    );

    assert_eq!(
        format_transcript_text(&value),
        "speaker_0：大家好。\r\nspeaker_1：收到。\r\n继续。"
    );
}

#[test]
fn preserves_plain_transcript_when_no_speaker_labels_exist() {
    let value = transcript(
        " 完整的纯文本转写。 ",
        vec![TranscriptSegment {
            start_ms: 0,
            end_ms: 1_000,
            text: "分段文本".into(),
            speaker: None,
        }],
    );

    assert_eq!(format_transcript_text(&value), "完整的纯文本转写。");
}

#[test]
fn resolved_participant_names_are_used_for_copy_and_export() {
    let mut value = transcript(
        "大家好。",
        vec![TranscriptSegment {
            start_ms: 0,
            end_ms: 1_000,
            text: "大家好。".into(),
            speaker: Some("speaker_0".into()),
        }],
    );
    value
        .speaker_names
        .insert("speaker_0".into(), "小明".into());

    assert_eq!(format_transcript_text(&value), "小明：大家好。");
    assert_eq!(value.segments[0].speaker.as_deref(), Some("speaker_0"));
}

#[test]
fn tray_badges_preserve_busy_pause_and_capture_warning_states() {
    for state in [
        RecordingState::Preparing,
        RecordingState::Recording,
        RecordingState::Finalizing,
    ] {
        assert_eq!(tray_badge_color(state, false), Some([200, 79, 69]));
    }
    assert_eq!(
        tray_badge_color(RecordingState::Paused, false),
        Some([189, 139, 53])
    );
    for state in [RecordingState::Interrupted, RecordingState::Error] {
        assert_eq!(tray_badge_color(state, false), Some([217, 154, 66]));
    }
    for state in [
        RecordingState::Idle,
        RecordingState::Preparing,
        RecordingState::Recording,
        RecordingState::Paused,
        RecordingState::Finalizing,
        RecordingState::Completed,
        RecordingState::Interrupted,
        RecordingState::Error,
        RecordingState::Recovering,
    ] {
        assert_eq!(tray_badge_color(state, true), Some([217, 154, 66]));
    }
}

#[test]
fn capture_interruption_can_replace_silence_but_not_the_reverse() {
    let silence = CapturePrompt {
        session_id: "session-1".into(),
        target_name: "Meeting".into(),
        kind: CapturePromptKind::ProlongedSilence,
    };
    let interruption = CapturePrompt {
        kind: CapturePromptKind::CaptureInterrupted,
        ..silence.clone()
    };

    assert!(should_replace_capture_prompt(
        Some(&silence),
        "session-1",
        CapturePromptKind::CaptureInterrupted
    ));
    assert!(!should_replace_capture_prompt(
        Some(&interruption),
        "session-1",
        CapturePromptKind::ProlongedSilence
    ));
    assert!(!should_replace_capture_prompt(
        Some(&silence),
        "session-1",
        CapturePromptKind::ProlongedSilence
    ));
    assert!(should_replace_capture_prompt(
        Some(&interruption),
        "session-2",
        CapturePromptKind::ProlongedSilence
    ));
}

#[test]
fn tray_actions_match_recording_state() {
    assert_eq!(
        tray_controls(RecordingState::Idle),
        TrayControls {
            start_enabled: true,
            toggle_label: None,
            toggle_enabled: false,
            stop_enabled: false,
        }
    );
    assert_eq!(
        tray_controls(RecordingState::Recording),
        TrayControls {
            start_enabled: false,
            toggle_label: Some("暂停录音"),
            toggle_enabled: true,
            stop_enabled: true,
        }
    );
    assert_eq!(
        tray_controls(RecordingState::Paused),
        TrayControls {
            start_enabled: false,
            toggle_label: Some("继续录音"),
            toggle_enabled: true,
            stop_enabled: true,
        }
    );
    assert!(!tray_controls(RecordingState::Finalizing).toggle_enabled);
    assert!(tray_controls(RecordingState::Completed).start_enabled);
}

#[test]
fn source_epoch_wraps_without_reusing_the_disabled_epoch() {
    assert_eq!(next_source_epoch(0), 1);
    assert_eq!(next_source_epoch(41), 42);
    assert_eq!(next_source_epoch(u64::MAX), 1);
}

#[test]
fn no_prompt_is_always_replaced() {
    assert!(should_replace_capture_prompt(
        None,
        "session-1",
        CapturePromptKind::ProlongedSilence
    ));
}

fn device(id: &str, form_factor: &str, default_communications: bool) -> AudioDevice {
    AudioDevice {
        id: id.into(),
        name: id.into(),
        direction: DeviceDirection::Render,
        is_default_communications: default_communications,
        form_factor: form_factor.into(),
        active: true,
    }
}

#[test]
fn echo_cancellation_follows_the_recorded_device() {
    let follow = CaptureSelection::System {
        device: DeviceSelection::FollowDefaultCommunications,
    };
    let fixed = CaptureSelection::System {
        device: DeviceSelection::Fixed {
            endpoint_id: "speakers".into(),
        },
    };
    let devices = vec![
        device("headset", "Headset", true),
        device("speakers", "Speakers", false),
    ];
    assert!(!auto_should_enable_aec(&follow, Some(devices.as_slice())));
    assert!(auto_should_enable_aec(&fixed, Some(devices.as_slice())));
    assert!(auto_should_enable_aec(&follow, None));
    assert!(auto_should_enable_aec(&follow, Some(&[][..])));
    assert!(should_enable_aec(AecMode::On, false));
    assert!(!should_enable_aec(AecMode::Off, true));
    assert!(should_enable_aec(AecMode::Auto, true));
    assert!(!should_enable_aec(AecMode::Auto, false));
    assert_eq!(aec_status_on_start(AecMode::On, false, true), AecStatus::Converging);
    assert_eq!(aec_status_on_start(AecMode::On, false, false), AecStatus::Disabled);
}

#[test]
fn recording_ticks_count_time_and_converge_echo_cancellation() {
    let mut snapshot = RecordingSnapshot::default();
    snapshot.state = RecordingState::Recording;
    snapshot.aec_status = AecStatus::Converging;
    let mut converging = 0;
    for _ in 0..199 {
        converging = record_frame(&mut snapshot, 100, true, true, converging);
    }
    assert_eq!(snapshot.aec_status, AecStatus::Converging);
    converging = record_frame(&mut snapshot, 200, true, true, converging);
    assert_eq!(converging, 2_000);
    assert_eq!(snapshot.aec_status, AecStatus::Enabled);
    assert_eq!(snapshot.active_duration_ms, 2_000);
    assert_eq!(snapshot.bytes_written, 200);
    assert!(snapshot.system.healthy && snapshot.microphone.healthy);
}

#[test]
fn losing_both_sources_interrupts_the_recording() {
    let mut snapshot = RecordingSnapshot::default();
    snapshot.state = RecordingState::Recording;
    mark_sources_lost(&mut snapshot, "2026-01-01T00:00:00Z".into());
    assert_eq!(snapshot.state, RecordingState::Interrupted);
    let fault = snapshot.fault.unwrap();
    assert_eq!(fault.code, "ALL_SOURCES_INTERRUPTED");
    assert!(fault.recoverable);
    assert_eq!(finished_state(RecordingState::Finalizing), RecordingState::Completed);
    assert_eq!(finished_state(RecordingState::Idle), RecordingState::Completed);
}

#[test]
fn low_disk_space_warns_then_stops() {
    assert_eq!(disk_verdict(10), DiskVerdict::Exhausted);
    assert_eq!(disk_verdict(50 * 1024 * 1024), DiskVerdict::Low);
    assert_eq!(disk_verdict(200 * 1024 * 1024), DiskVerdict::Enough);
}

#[test]
fn busy_states_block_a_new_recording() {
    assert!(is_busy(RecordingState::Recording));
    assert!(is_busy(RecordingState::Paused));
    assert!(is_busy(RecordingState::Finalizing));
    assert!(!is_busy(RecordingState::Idle));
    assert!(!is_busy(RecordingState::Completed));
}

#[test]
fn output_directory_must_not_be_blank() {
    assert_eq!(check_output_directory("  C:\\Rec  ").unwrap(), "C:\\Rec");
    assert_eq!(check_output_directory(" \t ").unwrap_err(), "请选择录音保存目录");
}

#[test]
fn start_space_uses_the_smaller_disk() {
    const MB: u64 = 1024 * 1024;
    assert_eq!(check_start_space(1_000 * MB, 1_000 * MB), Ok(false));
    assert_eq!(check_start_space(1_000 * MB, 100 * MB), Ok(true));
    assert_eq!(
        check_start_space(10 * MB, 1_000 * MB).unwrap_err(),
        "保存磁盘剩余空间低于 50 MB，无法安全开始录音"
    );
    let fault = low_disk_fault("t0".into());
    assert_eq!(fault.code, "LOW_DISK_WARNING");
    assert_eq!(fault.component, "storage");
    assert_eq!(fault.occurred_at, "t0");
}

#[test]
fn a_recording_prepares_starts_pauses_and_resumes() {
    let mut snapshot = preparing_snapshot(
        RecordingState::Idle,
        "s1".into(),
        "t0".into(),
        Some(DeviceSelection::FollowDefaultCommunications),
        Some("t0".into()),
    )
    .unwrap();
    assert_eq!(snapshot.state, RecordingState::Preparing);
    assert_eq!(snapshot.session_id.as_deref(), Some("s1"));
    assert!(snapshot.microphone.detail.is_some());
    assert!(snapshot.fault.is_some());
    assert!(
        preparing_snapshot(RecordingState::Recording, "s2".into(), "t1".into(), None, None)
            .is_err()
    );
    mark_started(&mut snapshot, false, false, Some("busy".into()), None, true).unwrap();
    assert_eq!(snapshot.state, RecordingState::Recording);
    assert!(snapshot.system.healthy);
    assert!(!snapshot.microphone.healthy);
    assert_eq!(snapshot.aec_status, AecStatus::Converging);
    assert!(mark_started(&mut snapshot, false, true, None, None, false).is_err());
    assert_eq!(resume_snapshot(&mut snapshot), Ok(false));
    assert_eq!(pause_snapshot(&mut snapshot), Ok(true));
    assert_eq!(snapshot.state, RecordingState::Paused);
    assert_eq!(pause_snapshot(&mut snapshot), Ok(false));
    assert_eq!(resume_snapshot(&mut snapshot), Ok(true));
    assert_eq!(snapshot.state, RecordingState::Recording);
    assert!(snapshot.fault.is_none());
    finalizer_failed(&mut snapshot, "t2".into());
    assert_eq!(snapshot.state, RecordingState::Error);
    assert_eq!(snapshot.fault.as_ref().unwrap().code, "FINALIZER_PANIC");
    assert_eq!(pause_snapshot(&mut snapshot).unwrap_err(), "当前状态不能暂停");
    assert_eq!(resume_snapshot(&mut snapshot).unwrap_err(), "当前状态不能继续");
}

#[test]
fn errors_move_the_recorder_by_the_failure_event() {
    let mut snapshot = RecordingSnapshot::default();
    snapshot.state = RecordingState::Recording;
    snapshot.session_id = Some("s1".into());
    set_error(&mut snapshot, "controller", "STOP_FAILED", "磁盘已满", "t1".into());
    assert_eq!(snapshot.state, RecordingState::Error);
    let fault = snapshot.fault.as_ref().unwrap();
    assert_eq!(fault.component, "controller");
    assert_eq!(fault.code, "STOP_FAILED");
    assert_eq!(fault.user_message, "磁盘已满");
    assert!(fault.recoverable);
    assert_eq!(snapshot.session_id.as_deref(), Some("s1"));
}

#[test]
fn the_recorder_is_active_while_anything_runs() {
    assert!(!is_active(false, false, RecordingState::Idle));
    assert!(is_active(true, false, RecordingState::Idle));
    assert!(is_active(false, true, RecordingState::Completed));
    assert!(is_active(false, false, RecordingState::Recovering));
}

#[test]
fn a_tick_writes_a_frame_only_when_running_with_a_source_heard() {
    assert_eq!(tick_action(true, true, true, true), TickAction::DrainWhilePaused);
    assert_eq!(tick_action(false, false, false, true), TickAction::SourcesLost);
    assert_eq!(tick_action(false, false, true, false), TickAction::SourcesLost);
    assert_eq!(tick_action(false, false, true, true), TickAction::WriteFrame);
    assert_eq!(tick_action(false, true, false, false), TickAction::WriteFrame);
}

#[test]
fn the_disk_check_stops_warns_or_leaves_the_recording_alone() {
    let mut snapshot = RecordingSnapshot::default();
    let stop = apply_disk_check(&mut snapshot, 49 * 1024 * 1024, 500 * 1024 * 1024, "t".into());
    assert_eq!(stop.as_deref(), Some("保存磁盘剩余空间低于 50 MB，录音已安全停止"));
    assert!(snapshot.fault.is_none());

    let stop = apply_disk_check(&mut snapshot, 500 * 1024 * 1024, 150 * 1024 * 1024, "t".into());
    assert!(stop.is_none());
    let fault = snapshot.fault.clone().unwrap();
    assert_eq!(fault.code, "LOW_DISK_WARNING");
    assert_eq!(fault.occurred_at, "t");

    let mut quiet = RecordingSnapshot::default();
    assert!(apply_disk_check(&mut quiet, 200 * 1024 * 1024, 200 * 1024 * 1024, "t".into()).is_none());
    assert!(quiet.fault.is_none());
}

fn walk_capture_steps(process_capture: bool, microphone_requested: bool, microphone_opens: bool) -> Vec<CaptureStep> {
    let mut progress = CaptureProgress {
        system_opened: false,
        microphone_tried: false,
        microphone_opened: false,
        settled: false,
    };
    let mut steps = Vec::new();
    loop {
        let step = next_capture_step(process_capture, microphone_requested, progress);
        steps.push(step);
        match step {
            CaptureStep::OpenSystem => progress.system_opened = true,
            CaptureStep::OpenMicrophone => {
                progress.microphone_tried = true;
                progress.microphone_opened = microphone_opens;
            }
            CaptureStep::Settle => progress.settled = true,
            CaptureStep::Ready => return steps,
        }
    }
}

#[test]
fn process_loopback_opens_before_the_microphone_and_endpoint_loopback_after_it() {
    assert_eq!(
        walk_capture_steps(true, true, true),
        vec![CaptureStep::OpenSystem, CaptureStep::OpenMicrophone, CaptureStep::Ready]
    );
    assert_eq!(
        walk_capture_steps(false, true, true),
        vec![CaptureStep::OpenMicrophone, CaptureStep::Settle, CaptureStep::OpenSystem, CaptureStep::Ready]
    );
    assert_eq!(
        walk_capture_steps(false, true, false),
        vec![CaptureStep::OpenMicrophone, CaptureStep::OpenSystem, CaptureStep::Ready]
    );
    assert_eq!(walk_capture_steps(false, false, false), vec![CaptureStep::OpenSystem, CaptureStep::Ready]);
}

#[test]
fn a_capture_start_failure_suggests_all_system_sound() {
    assert_eq!(
        capture_start_failure("device busy"),
        "无法启动所选录音来源：device busy。可切换到“全部系统声音”后重试"
    );
}

#[test]
fn a_tick_adds_ten_milliseconds_only_when_it_writes_a_frame() {
    let mut snapshot = RecordingSnapshot::default();
    snapshot.state = RecordingState::Recording;
    assert_eq!(complete_tick(&mut snapshot, false, true, false, false, 100, 0, "t".into()), 0);
    assert_eq!(snapshot.active_duration_ms, 10);
    assert_eq!(snapshot.bytes_written, 100);
    assert!(snapshot.system.healthy && !snapshot.microphone.healthy);

    assert_eq!(complete_tick(&mut snapshot, true, true, true, true, 500, 7, "t".into()), 7);
    assert_eq!(snapshot.active_duration_ms, 10);
    assert_eq!(snapshot.bytes_written, 100);
    assert_eq!(snapshot.state, RecordingState::Recording);
    assert!(!snapshot.microphone.healthy);

    assert_eq!(complete_tick(&mut snapshot, false, false, true, false, 500, 7, "t2".into()), 7);
    assert_eq!(snapshot.active_duration_ms, 10);
    assert_eq!(snapshot.state, RecordingState::Interrupted);
    assert_eq!(snapshot.fault.as_ref().unwrap().code, "ALL_SOURCES_INTERRUPTED");
}
