use nota::dashscope::{SubtaskResult, TaskState};
use nota::dashscope_job::{
    check_oss_url, check_reply, check_upload_audio, check_upload_size, check_upload_status,
    object_key, oss_url, submit_request_body, submitted_task_id, task_status, Checkpoint, JsonBody,
    Stage,
};

fn uploaded(expires_at: &str) -> Checkpoint {
    Checkpoint {
        version: 1,
        stage: Stage::Uploaded,
        oss_url: Some("oss://dir/a.ogg".into()),
        oss_expires_at: Some(expires_at.into()),
        submit_attempted_at: None,
    }
}

#[test]
fn checkpoints_restore_version_one_only() {
    let fresh = Checkpoint::restore("  {} ", None).unwrap();
    assert_eq!(fresh.version, 1);
    assert_eq!(fresh.stage, Stage::New);
    assert!(Checkpoint::restore("", None).is_ok());
    assert_eq!(Checkpoint::restore("{\"x\":1}", None).unwrap_err(), "无法读取 DashScope 恢复状态");
    let mut later = uploaded("2030-01-01T00:00:00Z");
    later.version = 2;
    assert_eq!(
        Checkpoint::restore("{\"version\":2}", Some(later)).unwrap_err(),
        "DashScope 恢复状态版本不受支持"
    );
    let kept = Checkpoint::restore("{...}", Some(uploaded("2030-01-01T00:00:00Z"))).unwrap();
    assert_eq!(kept.stage, Stage::Uploaded);
}

#[test]
fn uploaded_objects_must_outlive_the_next_five_minutes() {
    let checkpoint = uploaded("2030-01-01T00:10:00+00:00");
    let ten_past = 1_893_456_600;
    assert!(checkpoint.uploaded_object_valid_at((ten_past - 301, 0)));
    assert!(!checkpoint.uploaded_object_valid_at((ten_past - 300, 0)));
    assert!(!checkpoint.uploaded_object_valid_at((ten_past, 0)));
    let offset = uploaded("2030-01-01T08:10:00+08:00");
    assert!(offset.uploaded_object_valid_at((ten_past - 301, 0)));
    assert!(!uploaded("not a time").uploaded_object_valid_at((0, 0)));
    let mut http = uploaded("2030-01-01T00:10:00Z");
    http.oss_url = Some("https://x".into());
    assert!(!http.uploaded_object_valid_at((0, 0)));
    assert!(!uploaded("2000-01-01T00:00:00Z").uploaded_object_is_valid());
}

#[test]
fn replies_are_checked_for_size_json_and_status() {
    let ok = JsonBody::Valid { code: None };
    assert!(check_reply("查询 DashScope 转写任务", 200, Some(10), 10, 100, &ok).is_ok());
    assert_eq!(
        check_reply("查询 DashScope 转写任务", 200, Some(1_000), 10, 100, &ok).unwrap_err(),
        "查询 DashScope 转写任务响应超过安全大小限制"
    );
    assert_eq!(
        check_reply("下载", 200, None, 101, 100, &ok).unwrap_err(),
        "下载响应超过安全大小限制"
    );
    assert_eq!(
        check_reply("下载", 200, None, 10, 100, &JsonBody::Invalid).unwrap_err(),
        "下载返回了无效 JSON"
    );
    let coded = JsonBody::Valid { code: Some("Invalid.Key!<x>".into()) };
    assert_eq!(
        check_reply("提交", 401, None, 10, 100, &coded).unwrap_err(),
        "提交失败（HTTP 401，错误码 InvalidKeyx）"
    );
    assert_eq!(check_reply("提交", 500, None, 10, 100, &ok).unwrap_err(), "提交失败（HTTP 500）");
}

#[test]
fn uploads_take_ogg_recordings_under_the_upload_directory() {
    assert!(check_upload_audio("C:\\Rec\\m.ogg").is_ok());
    assert_eq!(
        check_upload_audio("C:\\Rec\\m.OGG").unwrap_err(),
        "DashScope 文件转写仅上传 Nota 的原始 Ogg 录音"
    );
    assert!(check_upload_size(10, Some(10)).is_ok());
    assert_eq!(check_upload_size(11, Some(10)).unwrap_err(), "录音文件超过 DashScope 临时上传限制");
    assert!(check_upload_size(u64::MAX, None).is_ok());
    assert_eq!(object_key("dashscope/tmp//", "C:\\Rec\\m.ogg"), "dashscope/tmp/m.ogg");
    assert_eq!(object_key("d", "C:\\"), "d/nota-recording.ogg");
    assert_eq!(oss_url("d/m.ogg"), "oss://d/m.ogg");
    assert!(check_upload_status(200).is_ok());
    assert_eq!(check_upload_status(403).unwrap_err(), "DashScope 临时上传失败（HTTP 403）");
}

#[test]
fn submissions_need_an_oss_address_and_return_a_task_id() {
    assert!(check_oss_url("oss://d/m.ogg").is_ok());
    assert_eq!(check_oss_url("https://x").unwrap_err(), "DashScope 临时对象地址无效");
    assert_eq!(submitted_task_id(Some("t-1".into())).unwrap(), "t-1");
    assert!(submitted_task_id(Some(String::new())).is_err());
    assert!(submitted_task_id(None).is_err());
}

#[test]
fn task_status_reads_state_result_and_code() {
    let pending = task_status(Some("waiting"), None, Some("x y")).unwrap();
    assert_eq!(pending.state, TaskState::Pending);
    assert_eq!(pending.result_url, None);
    assert_eq!(pending.error_code.as_deref(), Some("xy"));
    assert_eq!(task_status(None, None, None).unwrap_err(), "DashScope 任务响应缺少 task_status");
    let results = vec![SubtaskResult {
        status: Some("succeeded".into()),
        transcription_url: Some("https://bucket.oss-cn-beijing.aliyuncs.com/r.json".into()),
    }];
    let done = task_status(Some("SUCCEEDED"), Some(&results), None).unwrap();
    assert_eq!(done.state, TaskState::Succeeded);
    assert_eq!(
        done.result_url.as_deref(),
        Some("https://bucket.oss-cn-beijing.aliyuncs.com/r.json")
    );
    assert_eq!(
        task_status(Some("SUCCEEDED"), None, None).unwrap_err(),
        "DashScope 成功任务缺少结果列表"
    );
}

#[test]
fn the_submit_body_names_the_file_the_model_and_diarization() {
    let body = submit_request_body("oss://bucket/a \"b\".ogg", Some(3));
    assert_eq!(
        body,
        "{\"input\":{\"file_urls\":[\"oss://bucket/a \\\"b\\\".ogg\"]},\"model\":\"qwen-audio-3.0-asr-flash-filetrans\",\"parameters\":{\"channel_id\":[0],\"diarization_enabled\":true,\"speaker_count\":3}}"
    );
    let value: serde_json::Value = serde_json::from_str(&body).unwrap();
    assert_eq!(serde_json::to_string(&value).unwrap(), body);
    let without = submit_request_body("oss://x", None);
    assert!(without.ends_with("\"diarization_enabled\":true}}"));
    let value: serde_json::Value = serde_json::from_str(&without).unwrap();
    assert_eq!(serde_json::to_string(&value).unwrap(), without);
}
