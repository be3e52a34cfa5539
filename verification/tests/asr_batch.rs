use nota::ai::ActiveJobs;
use nota::asr_batch::{
    reserve_transcription,
    batch_job_url, batch_progress, check_batch_limits, check_speaker_count, check_upload_target,
    http_error, job_still_stopping, needs_resume, next_batch_step, next_chunk_length,
    normalize_base_url, redact_secret, response_format_rejected, transcription_failure,
    upload_reply, validate_batch_capabilities, BatchCapabilities, BatchJobFailure,
    BatchJobStatus, BatchStep, UploadReply, MAX_UPLOAD_CHUNK_BYTES,
};
use nota::models::{
    AsrProviderKind, TranscriptionProgressPhase, TranscriptionProgressUnit, TranscriptionStatus,
};

fn capabilities() -> BatchCapabilities {
    BatchCapabilities {
        batch_transcription_version: "1".into(),
        upload_chunk_bytes: 8 * 1024 * 1024,
        max_upload_bytes: 100_000_000,
        max_audio_seconds: 14_400,
        audio_formats: vec!["ogg".into()],
    }
}

fn job(state: &str) -> BatchJobStatus {
    BatchJobStatus {
        id: "job-1".into(),
        state: state.into(),
        phase: String::new(),
        upload_offset: 0,
        upload_length: 100,
        progress_current: 0,
        progress_total: 0,
        progress_unit: "steps".into(),
        error: None,
    }
}

#[test]
fn normalizes_api_root_to_v1() {
    assert_eq!(
        normalize_base_url("http://127.0.0.1:8000").unwrap(),
        "http://127.0.0.1:8000/v1"
    );
    assert_eq!(
        normalize_base_url("https://api.example.test/v1/").unwrap(),
        "https://api.example.test/v1"
    );
}

#[test]
fn base_url_drops_query_and_fragment_and_appends_v1_to_a_path() {
    assert_eq!(
        normalize_base_url("  https://host.test/asr/?a=1#top  ").unwrap(),
        "https://host.test/asr/v1"
    );
}

#[test]
fn base_url_errors_name_the_problem() {
    assert_eq!(normalize_base_url("  / ").unwrap_err(), "API Base URL 不能为空");
    assert_eq!(normalize_base_url("not a url").unwrap_err(), "API Base URL 格式无效");
    assert_eq!(
        normalize_base_url("ftp://host.test").unwrap_err(),
        "API Base URL 仅支持 http 或 https"
    );
}

#[test]
fn job_url_follows_the_normalized_root() {
    assert_eq!(
        batch_job_url("http://127.0.0.1:8000", "abc").unwrap(),
        "http://127.0.0.1:8000/v1/nota/transcription-jobs/abc"
    );
    assert!(batch_job_url("", "abc").is_err());
}

#[test]
fn http_errors_carry_the_compacted_body() {
    assert_eq!(http_error("转写接口", 500, "  boom \n now "), "转写接口返回 HTTP 500：boom now");
    assert_eq!(http_error("模型接口", 404, "   "), "模型接口返回 HTTP 404");
}

#[test]
fn secrets_are_redacted_everywhere() {
    assert_eq!(
        redact_secret("key sk-1 and sk-1 again", "sk-1"),
        "key [REDACTED] and [REDACTED] again"
    );
    assert_eq!(redact_secret("nothing to hide", ""), "nothing to hide");
    assert_eq!(redact_secret("aaa", "aa"), "[REDACTED]a");
}

#[test]
fn only_explicit_response_format_rejections_are_recognised() {
    assert!(response_format_rejected(422, r#"{"error":"Response_Format is unsupported"}"#));
    assert!(response_format_rejected(400, "bad response_format"));
    assert!(!response_format_rejected(401, "response_format"));
    assert!(!response_format_rejected(400, "bad request"));
}

#[test]
fn batch_capabilities_need_version_one_ogg_and_a_chunk_size() {
    assert!(validate_batch_capabilities(&capabilities()).is_ok());
    let mut upper = capabilities();
    upper.audio_formats = vec!["WAV".into(), "OGG".into()];
    assert!(validate_batch_capabilities(&upper).is_ok());
    let mut old = capabilities();
    old.batch_transcription_version = "0".into();
    assert_eq!(
        validate_batch_capabilities(&old).unwrap_err(),
        "FunASR Server 不支持 Nota 所需的批处理协议版本"
    );
    let mut no_ogg = capabilities();
    no_ogg.audio_formats = vec!["wav".into()];
    assert!(validate_batch_capabilities(&no_ogg).is_err());
    let mut no_chunk = capabilities();
    no_chunk.upload_chunk_bytes = 0;
    assert!(validate_batch_capabilities(&no_chunk).is_err());
}

#[test]
fn batch_limits_bound_size_duration_and_chunk() {
    assert_eq!(check_batch_limits(1_000, 60_000, &capabilities()).unwrap(), 8 * 1024 * 1024);
    assert_eq!(
        check_batch_limits(100_000_001, 60_000, &capabilities()).unwrap_err(),
        "录音文件超过 ASR Server 允许的上传大小"
    );
    assert_eq!(
        check_batch_limits(1_000, 14_400_001, &capabilities()).unwrap_err(),
        "录音时长超过 ASR Server 允许的上限"
    );
    let mut huge = capabilities();
    huge.upload_chunk_bytes = u64::MAX;
    huge.max_audio_seconds = u64::MAX;
    assert_eq!(check_batch_limits(1, u64::MAX, &huge).unwrap(), MAX_UPLOAD_CHUNK_BYTES);
}

#[test]
fn job_states_map_to_progress() {
    assert_eq!(
        batch_progress(&job("uploading")),
        Some((
            TranscriptionStatus::Preparing,
            TranscriptionProgressPhase::Uploading,
            TranscriptionProgressUnit::Steps
        ))
    );
    let mut processing = job("processing");
    processing.phase = "diarizing".into();
    processing.progress_unit = "windows".into();
    assert_eq!(
        batch_progress(&processing),
        Some((
            TranscriptionStatus::Transcribing,
            TranscriptionProgressPhase::Diarizing,
            TranscriptionProgressUnit::Windows
        ))
    );
    assert_eq!(batch_progress(&job("failed")), None);
}

#[test]
fn job_states_decide_the_next_step() {
    assert_eq!(next_batch_step(&job("uploading")), BatchStep::Upload);
    assert_eq!(next_batch_step(&job("queued")), BatchStep::Wait);
    assert_eq!(next_batch_step(&job("processing")), BatchStep::Wait);
    assert_eq!(next_batch_step(&job("succeeded")), BatchStep::Finish);
    assert_eq!(
        next_batch_step(&job("cancelled")),
        BatchStep::Stop("ASR Server 上的转写任务已取消，可以稍后继续".into())
    );
    let mut failed = job("failed");
    failed.error = Some(BatchJobFailure { code: "oom".into(), message: "out of memory".into() });
    assert_eq!(next_batch_step(&failed), BatchStep::Stop("out of memory (oom)".into()));
    assert_eq!(
        next_batch_step(&job("failed")),
        BatchStep::Stop("ASR Server 处理会议录音失败".into())
    );
    assert_eq!(
        next_batch_step(&job("paused")),
        BatchStep::Stop("ASR Server 返回了未知任务状态：paused".into())
    );
}

#[test]
fn resume_and_stopping_checks() {
    assert!(needs_resume(true, "failed"));
    assert!(needs_resume(true, "cancelled"));
    assert!(!needs_resume(false, "failed"));
    assert!(!needs_resume(true, "queued"));
    assert!(job_still_stopping("HTTP 409: job_still_stopping"));
    assert!(!job_still_stopping("HTTP 409: conflict"));
}

#[test]
fn upload_target_must_match_the_file() {
    assert!(check_upload_target(&job("uploading"), 100).is_ok());
    assert_eq!(
        check_upload_target(&job("uploading"), 99).unwrap_err(),
        "ASR Server 上的上传任务与本地录音大小不一致"
    );
    let mut ahead = job("uploading");
    ahead.upload_offset = 101;
    assert!(check_upload_target(&ahead, 100).is_err());
}

#[test]
fn chunks_never_pass_the_end_of_the_file() {
    assert_eq!(next_chunk_length(0, 100, 30), 30);
    assert_eq!(next_chunk_length(90, 100, 30), 10);
}

#[test]
fn upload_replies_move_forward_resync_or_fail() {
    assert_eq!(upload_reply(204, Some(130), 100, 30, 200, "x"), UploadReply::Accepted(130));
    assert_eq!(upload_reply(409, Some(50), 100, 30, 200, "x"), UploadReply::Resync(50));
    assert_eq!(
        upload_reply(409, Some(500), 100, 30, 200, "x"),
        UploadReply::Failed("ASR Server 返回了无效的上传偏移".into())
    );
    assert_eq!(upload_reply(500, Some(130), 100, 30, 200, "boom"), UploadReply::Failed("boom".into()));
    assert_eq!(
        upload_reply(204, None, 100, 30, 200, "x"),
        UploadReply::Failed("ASR Server 上传响应缺少 Upload-Offset".into())
    );
    assert_eq!(
        upload_reply(204, Some(120), 100, 30, 200, "x"),
        UploadReply::Failed("ASR Server 返回了无效的上传偏移".into())
    );
}

#[test]
fn speaker_counts_only_for_funasr() {
    assert!(check_speaker_count(None, AsrProviderKind::OpenAiCompatible).is_ok());
    assert!(check_speaker_count(Some(3), AsrProviderKind::FunAsr).is_ok());
    assert_eq!(
        check_speaker_count(Some(3), AsrProviderKind::OpenAiCompatible).unwrap_err(),
        "只有 FunASR 服务支持指定说话人数"
    );
}

#[test]
fn failed_transcriptions_are_interrupted_or_failed() {
    let (status, message) = transcription_failure(true, "ignored");
    assert_eq!(status, TranscriptionStatus::Cancelled);
    assert_eq!(message, "转写已中断；已完成进度已保留，可以稍后继续");
    let (status, message) = transcription_failure(false, "  bad\n  thing ");
    assert_eq!(status, TranscriptionStatus::Failed);
    assert_eq!(message, "bad thing");
}

#[test]
fn a_recording_is_transcribed_by_one_job_at_a_time() {
    let mut active = ActiveJobs::new();
    assert!(reserve_transcription(&mut active, "r1").is_ok());
    assert_eq!(
        reserve_transcription(&mut active, "r1").unwrap_err(),
        "该录音已有转写任务正在排队或处理"
    );
    active.release("r1");
    assert!(reserve_transcription(&mut active, "r1").is_ok());
}
