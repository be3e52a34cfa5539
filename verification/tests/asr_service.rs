use nota::asr_service::{
    check_analysis_reply, check_analysis_request, check_capabilities_status,
    check_speaker_capabilities, check_speaker_provider, clean_range, health_check_error,
    health_url, list_models, test_connection, AnalysisReply, AsrModelEntry,
    CleanSpeakerSampleRange, FunAsrProbe, JsonField, ModelsReply, PurityLimit, RangeReply,
    SpeakerCapabilities, SpeakerSampleAnalysisOutcome,
};
use nota::models::{AsrConnectionLevel, AsrModel, AsrProviderKind};

fn entry(id: Option<&str>, owned_by: JsonField, camel: JsonField) -> AsrModelEntry {
    AsrModelEntry { id: id.map(String::from), owned_by, owned_by_camel: camel, ready: Some(true) }
}

#[test]
fn model_lists_keep_entries_with_an_id() {
    let models = list_models(
        200,
        "",
        "",
        ModelsReply::Entries(vec![
            entry(Some("a"), JsonField::Text("org".into()), JsonField::Absent),
            entry(None, JsonField::Absent, JsonField::Absent),
            entry(Some("b"), JsonField::Absent, JsonField::Text("camel".into())),
            entry(Some("c"), JsonField::Other, JsonField::Text("camel".into())),
        ]),
    )
    .unwrap();
    assert_eq!(models.len(), 3);
    assert_eq!(models[0].owned_by.as_deref(), Some("org"));
    assert_eq!(models[1].id, "b");
    assert_eq!(models[1].owned_by.as_deref(), Some("camel"));
    assert_eq!(models[2].owned_by, None);
    assert_eq!(models[2].ready, Some(true));
}

#[test]
fn model_list_errors() {
    assert_eq!(
        list_models(401, "bad key sk-9", "sk-9", ModelsReply::MissingData).unwrap_err(),
        "模型接口返回 HTTP 401：bad key [REDACTED]"
    );
    assert_eq!(list_models(200, "", "", ModelsReply::InvalidJson).unwrap_err(), "模型接口返回了无效 JSON");
    assert_eq!(
        list_models(200, "", "", ModelsReply::MissingData).unwrap_err(),
        "模型接口响应中缺少 data 数组"
    );
}

fn model(id: &str) -> AsrModel {
    AsrModel { id: id.into(), owned_by: None, ready: None }
}

#[test]
fn funasr_connection_warns_when_the_server_lacks_batch_v1() {
    assert_eq!(health_check_error(200, r#"{"status":"ok"}"#, ""), None);
    let batch_error = check_capabilities_status(404, r#"{"error":{"message":"not found"}}"#, "")
        .unwrap_err();
    let models = list_models(
        200,
        "",
        "",
        ModelsReply::Entries(vec![AsrModelEntry {
            id: Some("sensevoice".into()),
            owned_by: JsonField::Text("nota".into()),
            owned_by_camel: JsonField::Absent,
            ready: Some(true),
        }]),
    );
    let probe = FunAsrProbe {
        device: None,
        health_status: Some("ok".into()),
        batch_error: Some(batch_error),
    };
    let result = test_connection(AsrProviderKind::FunAsr, Some(probe), models).unwrap();
    assert!(result.reachable);
    assert_eq!(result.level, AsrConnectionLevel::Warning);
    assert!(result.message.contains("版本过旧"));
    assert_eq!(result.models.len(), 1);
}

#[test]
fn capability_errors_are_compacted_into_the_warning() {
    let probe = FunAsrProbe {
        device: Some("cuda".into()),
        health_status: Some("ok".into()),
        batch_error: Some("FunASR Server 版本过旧，\n不支持整场会议说话人一致性协议".into()),
    };
    let result = test_connection(AsrProviderKind::FunAsr, Some(probe), Ok(vec![model("sensevoice")])).unwrap();
    assert_eq!(result.message, "FunASR Server 版本过旧， 不支持整场会议说话人一致性协议");
    assert_eq!(result.device.as_deref(), Some("cuda"));
}

#[test]
fn healthy_servers_report_their_status() {
    let probe = FunAsrProbe { device: None, health_status: Some("ok".into()), batch_error: None };
    let result = test_connection(AsrProviderKind::FunAsr, Some(probe), Ok(vec![])).unwrap();
    assert_eq!(result.level, AsrConnectionLevel::Success);
    assert_eq!(result.message, "服务可用（ok），支持整场会议转写");
    let result = test_connection(AsrProviderKind::OpenAiCompatible, None, Ok(vec![])).unwrap();
    assert_eq!(result.message, "服务可用，支持整场会议转写");
}

#[test]
fn failed_model_lists_warn_for_funasr_and_fail_otherwise() {
    let probe = FunAsrProbe { device: None, health_status: None, batch_error: None };
    let result =
        test_connection(AsrProviderKind::FunAsr, Some(probe), Err("HTTP 404".into())).unwrap();
    assert_eq!(result.level, AsrConnectionLevel::Warning);
    assert_eq!(result.message, "服务健康检查通过，但模型接口不可用：HTTP 404");
    assert!(result.models.is_empty());
    let probe = FunAsrProbe { device: None, health_status: None, batch_error: Some("old".into()) };
    let result =
        test_connection(AsrProviderKind::FunAsr, Some(probe), Err("HTTP 404".into())).unwrap();
    assert_eq!(result.message, "old；同时模型接口不可用：HTTP 404");
    assert_eq!(
        test_connection(AsrProviderKind::OpenAiCompatible, None, Err("down".into())).unwrap_err(),
        "down"
    );
}

#[test]
fn health_checks_go_to_the_server_root() {
    assert_eq!(health_url("http://127.0.0.1:8000/v1"), "http://127.0.0.1:8000/health");
    assert_eq!(health_url("http://host/api"), "http://host/api/health");
    assert_eq!(health_check_error(200, "", ""), None);
    assert_eq!(
        health_check_error(503, "busy", "").as_deref(),
        Some("健康检查返回 HTTP 503：busy")
    );
}

#[test]
fn capability_probe_statuses() {
    assert!(check_capabilities_status(200, "", "").is_ok());
    assert_eq!(
        check_capabilities_status(404, "", "").unwrap_err(),
        "FunASR Server 版本过旧，不支持整场会议说话人一致性协议"
    );
    assert_eq!(
        check_capabilities_status(500, "oops", "").unwrap_err(),
        "Nota 批处理能力接口返回 HTTP 500：oops"
    );
}

fn speaker_capabilities() -> SpeakerCapabilities {
    SpeakerCapabilities {
        embedding_version: Some("1".into()),
        analysis_version: Some("1".into()),
        max_bytes: Some(2_097_152),
        min_seconds: Some(5),
        max_seconds: Some(30),
        analysis_max_files: Some(8),
        analysis_min_clip_seconds: Some(3),
        analysis_max_clip_seconds: Some(12),
        analysis_max_total_seconds: Some(30),
        analysis_min_accepted_seconds: Some(5),
        min_purity: PurityLimit::Valid,
    }
}

#[test]
fn discovers_clean_speaker_sample_capabilities() {
    assert!(check_speaker_provider(AsrProviderKind::FunAsr).is_ok());
    assert_eq!(
        check_speaker_provider(AsrProviderKind::DashScope).unwrap_err(),
        "说话人识别需要 Nota ASR Server（FunASR 类型）"
    );
    let limits = check_speaker_capabilities(&speaker_capabilities()).unwrap();
    assert_eq!(limits.analysis_max_files, 8);
    assert_eq!(limits.analysis_min_accepted_seconds, 5);
    assert_eq!(limits.max_bytes, 2_097_152);
}

#[test]
fn rejects_a_server_without_the_speaker_embedding_capability() {
    let batch_only = SpeakerCapabilities {
        embedding_version: None,
        analysis_version: None,
        max_bytes: None,
        min_seconds: None,
        max_seconds: None,
        analysis_max_files: None,
        analysis_min_clip_seconds: None,
        analysis_max_clip_seconds: None,
        analysis_max_total_seconds: None,
        analysis_min_accepted_seconds: None,
        min_purity: PurityLimit::Missing,
    };
    let error = check_speaker_capabilities(&batch_only).unwrap_err();
    assert!(error.contains("不支持说话人声纹提取"));
}

#[test]
fn speaker_limits_are_checked_in_order() {
    let mut caps = speaker_capabilities();
    caps.analysis_version = Some("2".into());
    assert_eq!(
        check_speaker_capabilities(&caps).unwrap_err(),
        "当前 Nota ASR Server 版本不支持 CAM++ 纯净声纹样本筛选，请升级服务端"
    );
    let mut caps = speaker_capabilities();
    caps.max_seconds = None;
    assert_eq!(check_speaker_capabilities(&caps).unwrap_err(), "服务端未返回声纹样本最长时长");
    let mut caps = speaker_capabilities();
    caps.min_purity = PurityLimit::Missing;
    assert_eq!(check_speaker_capabilities(&caps).unwrap_err(), "服务端未返回纯净样本最低纯度");
    let mut caps = speaker_capabilities();
    caps.min_purity = PurityLimit::Invalid;
    assert_eq!(check_speaker_capabilities(&caps).unwrap_err(), "服务端返回了无效的声纹样本限制");
    let mut caps = speaker_capabilities();
    caps.analysis_min_accepted_seconds = Some(31);
    assert_eq!(check_speaker_capabilities(&caps).unwrap_err(), "服务端返回了无效的声纹样本限制");
}

fn reply(outcome: SpeakerSampleAnalysisOutcome) -> AnalysisReply {
    AnalysisReply {
        schema_version: "1".into(),
        outcome,
        embedding_model: "cam++".into(),
        embedding_fingerprint: "cam++:test:v1".into(),
        dimension: 2,
        accepted_duration_valid: true,
        accepted_duration_positive: true,
        purity_valid: true,
        embedding_len: Some(2),
        embedding_finite: true,
        accepted_range_count: 2,
    }
}

#[test]
fn analysis_replies_must_be_consistent() {
    assert!(check_analysis_request(0).is_err());
    assert!(check_analysis_request(2).is_ok());
    assert!(check_analysis_reply(&reply(SpeakerSampleAnalysisOutcome::Enrollable)).is_ok());
    let mut preview = reply(SpeakerSampleAnalysisOutcome::PreviewOnly);
    preview.dimension = 0;
    preview.embedding_len = None;
    preview.accepted_range_count = 0;
    assert!(check_analysis_reply(&preview).is_ok());
    let mut wrong = reply(SpeakerSampleAnalysisOutcome::Enrollable);
    wrong.embedding_len = Some(3);
    assert_eq!(
        check_analysis_reply(&wrong).unwrap_err(),
        "纯净声音样本分析接口返回了互相矛盾的分析结果"
    );
    let mut other = reply(SpeakerSampleAnalysisOutcome::Enrollable);
    other.embedding_model = "ecapa".into();
    assert_eq!(
        check_analysis_reply(&other).unwrap_err(),
        "纯净声音样本分析接口返回了不兼容的数据"
    );
}

#[test]
fn accepted_ranges_lie_in_the_files_sent() {
    let range = RangeReply { file_index: 1, times_valid: true, start_ms: 500, end_ms: 4_000 };
    assert_eq!(
        clean_range(range, 2).unwrap(),
        CleanSpeakerSampleRange { file_index: 1, start_ms: 500, end_ms: 4_000 }
    );
    assert_eq!(
        clean_range(range, 1).unwrap_err(),
        "纯净声音样本分析接口返回了无效的时间范围"
    );
    let bad = RangeReply { times_valid: false, ..range };
    assert!(clean_range(bad, 2).is_err());
}
