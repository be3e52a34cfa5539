use nota::importer::{
    check_import_request, item_cancelled, item_finalizing, item_progress, new_batch_snapshot,
    finish_batch, frames_to_emit, import_error_message, import_recovery, item_completed,
    item_failed, item_skipped, start_item, supported_source_format, target_output_frames,
    ImportRecovery, record_item_outcome, ItemOutcome,
};
use nota::models::{
    AudioImportBatchSnapshot, AudioImportBatchStatus, AudioImportItemSnapshot,
    AudioImportItemStatus,
};

#[test]
fn rejects_unsupported_extensions() {
    let error = supported_source_format("meeting.amr").unwrap_err();
    assert!(error.to_string().contains("暂不支持"));
}

#[test]
fn m4a_codec_guidance_is_not_shown_for_other_formats() {
    let error = "音频解码失败";
    assert!(import_error_message(error, "meeting.m4a").contains("AAC-LC"));
    assert!(!import_error_message(error, "meeting.mp3").contains("AAC-LC"));
}

#[test]
fn source_formats_are_read_in_any_case() {
    assert_eq!(supported_source_format("C:\\Audio\\a.MP3").unwrap(), "MP3");
    assert_eq!(supported_source_format("/tmp/b.m4a").unwrap(), "M4A");
    assert_eq!(supported_source_format("c.Wav").unwrap(), "WAV");
    assert_eq!(supported_source_format("d.flac").unwrap(), "FLAC");
    assert!(supported_source_format(".flac").is_err());
    assert!(supported_source_format("folder.mp3\\file").is_err());
}

#[test]
fn long_import_errors_are_bounded() {
    let long = "e".repeat(800);
    assert_eq!(import_error_message(&long, "a.wav").chars().count(), 500);
    assert!(import_error_message("编码方式不支持", "a.M4A").contains("AAC-LC"));
}

#[test]
fn resampled_frame_counts_follow_the_rates() {
    assert_eq!(target_output_frames(44_100, 44_100), 48_000);
    assert_eq!(target_output_frames(16_000, 0), 768_000_000);
    assert_eq!(target_output_frames(u64::MAX, 48_000), u64::MAX / 48_000);
    assert_eq!(frames_to_emit(100, 90, 50), 10);
    assert_eq!(frames_to_emit(100, 100, 50), 0);
    assert_eq!(frames_to_emit(100, 10, 50), 50);
}

fn batch() -> AudioImportBatchSnapshot {
    let item = |id: &str| AudioImportItemSnapshot {
        id: id.into(),
        file_name: format!("{id}.mp3"),
        status: AudioImportItemStatus::Queued,
        progress_current_ms: 0,
        progress_total_ms: 0,
        error_message: None,
        recording_id: None,
    };
    AudioImportBatchSnapshot {
        id: "batch".into(),
        status: AudioImportBatchStatus::Running,
        current_index: 0,
        total: 3,
        completed: 0,
        failed: 0,
        skipped: 0,
        items: vec![item("a"), item("b"), item("c")],
    }
}

#[test]
fn batch_snapshot_follows_each_file() {
    let mut snapshot = batch();
    start_item(&mut snapshot, 0);
    assert_eq!(snapshot.current_index, 1);
    assert_eq!(snapshot.items[0].status, AudioImportItemStatus::Probing);
    item_completed(&mut snapshot, 0, "rec-a".into());
    assert_eq!(snapshot.completed, 1);
    assert_eq!(snapshot.items[0].recording_id.as_deref(), Some("rec-a"));
    start_item(&mut snapshot, 1);
    item_skipped(&mut snapshot, 1, "rec-old".into());
    assert_eq!(snapshot.skipped, 1);
    assert_eq!(snapshot.items[1].error_message.as_deref(), Some("该文件已经导入过"));
    item_failed(&mut snapshot, 7, "outside the batch".into());
    assert_eq!(snapshot.failed, 1);
    assert_eq!(snapshot.items.len(), 3);
    finish_batch(&mut snapshot, true);
    assert_eq!(snapshot.status, AudioImportBatchStatus::Cancelled);
    assert_eq!(snapshot.items[2].status, AudioImportItemStatus::Cancelled);
    assert_eq!(snapshot.items[0].status, AudioImportItemStatus::Completed);
}

#[test]
fn interrupted_imports_are_committed_only_when_prepared() {
    assert_eq!(import_recovery(true, false, false, true), ImportRecovery::CommitThenComplete);
    assert_eq!(import_recovery(true, true, true, false), ImportRecovery::Complete);
    assert_eq!(import_recovery(false, false, false, true), ImportRecovery::Discard);
    assert_eq!(import_recovery(true, true, false, false), ImportRecovery::Discard);
}

#[test]
fn import_requests_are_checked_in_order() {
    assert_eq!(
        check_import_request(true, true, 0).unwrap_err(),
        "请先停止并保存当前录音，再导入音频文件"
    );
    assert_eq!(
        check_import_request(false, true, 1).unwrap_err(),
        "已有音频正在导入，请等待完成或先停止导入"
    );
    assert_eq!(check_import_request(false, false, 0).unwrap_err(), "请选择要导入的音频文件");
    assert_eq!(check_import_request(false, false, 101).unwrap_err(), "一次最多导入 100 个音频文件");
    assert!(check_import_request(false, false, 100).is_ok());
}

#[test]
fn new_batches_queue_every_file_by_name() {
    let paths = vec!["C:\\Audio\\talk.mp3".to_string(), "/tmp/..".to_string(), "dir/".to_string()];
    let ids = vec!["i1".to_string(), "i2".to_string(), "i3".to_string()];
    let snapshot = new_batch_snapshot("b".into(), &paths, ids);
    assert_eq!(snapshot.id, "b");
    assert_eq!(snapshot.status, AudioImportBatchStatus::Running);
    assert_eq!(snapshot.total, 3);
    assert_eq!(snapshot.current_index, 0);
    assert_eq!(snapshot.items[0].file_name, "talk.mp3");
    assert_eq!(snapshot.items[1].file_name, "音频文件");
    assert_eq!(snapshot.items[2].file_name, "dir");
    assert_eq!(snapshot.items[2].id, "i3");
    assert!(snapshot.items.iter().all(|item| item.status == AudioImportItemStatus::Queued));
}

#[test]
fn decoding_progress_and_cancellation_touch_one_file() {
    let mut snapshot = batch();
    item_progress(&mut snapshot, 1, 500, 2_000);
    assert_eq!(snapshot.items[1].status, AudioImportItemStatus::Decoding);
    assert_eq!(snapshot.items[1].progress_current_ms, 500);
    assert_eq!(snapshot.items[1].progress_total_ms, 2_000);
    assert_eq!(snapshot.items[0].status, AudioImportItemStatus::Queued);
    item_finalizing(&mut snapshot, 1);
    assert_eq!(snapshot.items[1].status, AudioImportItemStatus::Finalizing);
    assert_eq!(snapshot.items[1].progress_current_ms, 500);
    item_cancelled(&mut snapshot, 1);
    assert_eq!(snapshot.items[1].status, AudioImportItemStatus::Cancelled);
    assert_eq!(snapshot.items[1].error_message, None);
    assert_eq!(snapshot.completed + snapshot.failed + snapshot.skipped, 0);
}

#[test]
fn each_file_outcome_is_counted_and_a_cancelled_failure_ends_the_batch() {
    let paths = vec!["a.mp3".to_string(), "b.mp3".to_string(), "c.mp3".to_string()];
    let ids = vec!["i1".to_string(), "i2".to_string(), "i3".to_string()];
    let mut snapshot = new_batch_snapshot("b".into(), &paths, ids);
    assert!(record_item_outcome(&mut snapshot, 0, ItemOutcome::Completed("r1".into()), false));
    assert!(record_item_outcome(&mut snapshot, 1, ItemOutcome::Skipped("r0".into()), false));
    assert!(record_item_outcome(&mut snapshot, 2, ItemOutcome::Failed("bad".into()), false));
    assert_eq!((snapshot.completed, snapshot.skipped, snapshot.failed), (1, 1, 1));
    assert_eq!(snapshot.items[0].status, AudioImportItemStatus::Completed);
    assert_eq!(snapshot.items[0].recording_id.as_deref(), Some("r1"));
    assert_eq!(snapshot.items[1].error_message.as_deref(), Some("该文件已经导入过"));
    assert_eq!(snapshot.items[2].error_message.as_deref(), Some("bad"));

    assert!(!record_item_outcome(&mut snapshot, 2, ItemOutcome::Failed("stopped".into()), true));
    assert_eq!(snapshot.items[2].status, AudioImportItemStatus::Cancelled);
    assert_eq!(snapshot.items[2].error_message, None);
    assert_eq!(snapshot.failed, 1);
}
