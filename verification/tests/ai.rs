use nota::ai::{
    chat_request_body, generation_request_body, responses_request_body,
    check_markdown_file, check_relink_identity, is_markdown_path, list_models, markdown_body,
    version_file_path, ModelEntry,
    assemble_markdown, bounded_message, check_token_budget, choose_provider_id,
    empty_as_not_provided, ensure_speaker_template_supported, failure_outcome,
    is_official_openai_url, reserve_document, system_policy_text, version_file_name, ActiveJobs,
    build_prompts, choose_title, compatible_chat_url, document_text_matches_identity,
    format_timestamp, format_transcript, normalize_model_markdown, normalize_provider_base_url,
    parse_chat_output, parse_nota_metadata, parse_responses_output, provider_error_message,
    provider_root, responses_url, strip_frontmatter, validate_runtime_provider, ChatReply,
    ResponsesReply, check_document_recording, check_new_document_template, check_revision_source,
    check_transcript_ready, ensure_not_cancelled,
};
use nota::models::{
    AiDocumentVersion, AiFileState, AiGenerationStatus,
    AiGenerationMode, AiTemplate, AsrProviderKind, LlmProvider, LlmProviderCredentials,
    LlmProviderKind, StringMap, TranscriptDocument, TranscriptSegment, TranscriptionProtocol,
    TranscriptionStatus,
};

fn llm(kind: LlmProviderKind, name: &str, base_url: &str) -> LlmProviderCredentials {
    LlmProviderCredentials {
        provider: LlmProvider {
            id: "test".into(),
            name: name.into(),
            kind,
            base_url: base_url.into(),
            model_id: "test".into(),
            input_token_budget: 32_768,
            max_output_tokens: 4_096,
            has_api_key: false,
            created_at: String::new(),
            updated_at: String::new(),
        },
        api_key: String::new(),
    }
}

#[test]
fn compatible_endpoint_accepts_api_root_or_full_endpoint() {
    assert_eq!(
        compatible_chat_url("http://localhost:11434/v1/"),
        "http://localhost:11434/v1/chat/completions"
    );
    assert_eq!(
        compatible_chat_url("http://localhost:11434/v1/chat/completions"),
        "http://localhost:11434/v1/chat/completions"
    );
    let credentials = llm(
        LlmProviderKind::OpenAiCompatible,
        "test",
        "http://localhost:11434/v1/chat/completions",
    );
    assert_eq!(provider_root(&credentials), "http://localhost:11434/v1");
}

#[test]
fn responses_endpoint_accepts_custom_api_root_or_full_endpoint() {
    assert_eq!(
        normalize_provider_base_url(
            LlmProviderKind::OpenAi,
            "https://workflow.example.test/openai/v1/",
        )
        .unwrap(),
        "https://workflow.example.test/openai/v1"
    );
    assert_eq!(
        responses_url("https://workflow.example.test/openai/v1/"),
        "https://workflow.example.test/openai/v1/responses"
    );
    assert_eq!(
        responses_url("https://workflow.example.test/openai/v1/responses"),
        "https://workflow.example.test/openai/v1/responses"
    );
    let credentials = llm(
        LlmProviderKind::OpenAi,
        "third-party Responses",
        "https://workflow.example.test/openai/v1/responses",
    );
    assert_eq!(
        provider_root(&credentials),
        "https://workflow.example.test/openai/v1"
    );
    assert!(validate_runtime_provider(&credentials).is_ok());

    let mut official = credentials;
    official.provider.base_url = "https://api.openai.com/v1".into();
    assert!(validate_runtime_provider(&official).is_err());
}

#[test]
fn responses_output_is_collected_from_output_items() {
    let value: serde_json::Value = serde_json::from_str(
        r##"{"status":"completed","output":[{"type":"message","content":[{"type":"output_text","text":"# Summary"}]}],"usage":{"input_tokens":10,"output_tokens":4}}"##,
    )
    .unwrap();
    let reply = ResponsesReply {
        status: Some("completed".into()),
        incomplete_reason: None,
        output_text: None,
        output_texts: Some(vec!["# Summary".into()]),
        input_tokens: Some(10),
        output_tokens: Some(4),
        body: value.to_string(),
    };
    let output = parse_responses_output(&reply).unwrap();
    assert_eq!(output.text, "# Summary");
    assert_eq!(output.input_tokens, Some(10));
    assert_eq!(output.output_tokens, Some(4));
    assert_eq!(serde_json::from_str::<serde_json::Value>(&output.response_body).unwrap(), value);
}

#[test]
fn chat_output_retains_raw_response_and_normalizes_usage() {
    let value: serde_json::Value = serde_json::from_str(
        r##"{"id":"chat-1","choices":[{"finish_reason":"stop","message":{"content":"# Summary"}}],"usage":{"prompt_tokens":12,"completion_tokens":5}}"##,
    )
    .unwrap();
    let reply = ChatReply {
        finish_reason: Some("stop".into()),
        content: Some("# Summary".into()),
        prompt_tokens: Some(12),
        completion_tokens: Some(5),
        body: value.to_string(),
    };
    let output = parse_chat_output(&reply).unwrap();
    assert_eq!(output.text, "# Summary");
    assert_eq!(output.input_tokens, Some(12));
    assert_eq!(output.output_tokens, Some(5));
    assert_eq!(serde_json::from_str::<serde_json::Value>(&output.response_body).unwrap(), value);
}

#[test]
fn incomplete_provider_responses_are_rejected() {
    let responses = ResponsesReply {
        status: Some("incomplete".into()),
        incomplete_reason: Some("max_output_tokens".into()),
        output_text: Some("# Partial".into()),
        output_texts: None,
        input_tokens: None,
        output_tokens: None,
        body: String::new(),
    };
    assert!(parse_responses_output(&responses).is_err());

    let chat = ChatReply {
        finish_reason: Some("length".into()),
        content: Some("# Partial".into()),
        prompt_tokens: None,
        completion_tokens: None,
        body: String::new(),
    };
    assert!(parse_chat_output(&chat).is_err());
}

#[test]
fn nota_frontmatter_is_hidden_from_preview_and_identifies_version() {
    let raw = "---\nnota:\n  document_id: \"doc\"\n  version_id: \"version\"\n---\n\n# Summary\n";
    assert_eq!(strip_frontmatter(raw).trim(), "# Summary");
    let metadata = parse_nota_metadata(raw).unwrap();
    assert_eq!(metadata.get("document_id").unwrap(), "doc");
    assert_eq!(metadata.get("version_id").unwrap(), "version");
    assert!(document_text_matches_identity(raw, "doc", "version"));
    assert!(!document_text_matches_identity(raw, "doc", "other"));
}

#[test]
fn incomplete_reason_and_usage_limits_are_reported() {
    let responses = ResponsesReply {
        status: Some("incomplete".into()),
        incomplete_reason: Some("max_output_tokens".into()),
        output_text: Some("# Partial".into()),
        output_texts: None,
        input_tokens: None,
        output_tokens: None,
        body: String::new(),
    };
    assert_eq!(
        parse_responses_output(&responses).unwrap_err(),
        "Responses API 未完整生成文档：max_output_tokens"
    );
    let huge = ChatReply {
        finish_reason: None,
        content: Some("text".into()),
        prompt_tokens: Some(u64::MAX),
        completion_tokens: None,
        body: String::new(),
    };
    let output = parse_chat_output(&huge).unwrap();
    assert_eq!(output.input_tokens, Some(u32::MAX));
    assert_eq!(output.output_tokens, None);
    let blank = ChatReply {
        finish_reason: Some("stop".into()),
        content: Some("   ".into()),
        prompt_tokens: None,
        completion_tokens: None,
        body: String::new(),
    };
    assert_eq!(
        parse_chat_output(&blank).unwrap_err(),
        "Chat Completions API 没有返回可用文本"
    );
}

#[test]
fn output_texts_are_joined_by_line_feeds() {
    let reply = ResponsesReply {
        status: None,
        incomplete_reason: None,
        output_text: None,
        output_texts: Some(vec!["a".into(), "b".into()]),
        input_tokens: None,
        output_tokens: None,
        body: String::new(),
    };
    assert_eq!(parse_responses_output(&reply).unwrap().text, "a\nb");
}

#[test]
fn provider_urls_are_validated() {
    assert_eq!(
        normalize_provider_base_url(LlmProviderKind::OpenAi, "  ").unwrap(),
        "https://api.openai.com/v1"
    );
    assert_eq!(
        normalize_provider_base_url(LlmProviderKind::OpenAiCompatible, " / ").unwrap_err(),
        "AI Provider 必须配置 API 根地址"
    );
    assert_eq!(
        normalize_provider_base_url(LlmProviderKind::OpenAiCompatible, "not a url").unwrap_err(),
        "AI Provider API 根地址无效"
    );
    assert_eq!(
        normalize_provider_base_url(LlmProviderKind::OpenAiCompatible, "ftp://host/v1").unwrap_err(),
        "AI Provider API 根地址只支持 http 或 https"
    );
    let mut official = llm(LlmProviderKind::OpenAi, "o", "https://API.OpenAI.com/v1");
    assert_eq!(
        validate_runtime_provider(&official).unwrap_err(),
        "OpenAI 官方服务必须配置 API Key"
    );
    official.api_key = "key".into();
    assert!(validate_runtime_provider(&official).is_ok());
    official.provider.model_id = " ".into();
    assert_eq!(validate_runtime_provider(&official).unwrap_err(), "模型 ID 不能为空");
}

#[test]
fn timestamps_use_two_digit_fields() {
    assert_eq!(format_timestamp(0), "00:00:00");
    assert_eq!(format_timestamp(3_723_999), "01:02:03");
    assert_eq!(format_timestamp(360_000_000), "100:00:00");
}

fn document(text: &str, segments: Vec<TranscriptSegment>) -> TranscriptDocument {
    TranscriptDocument {
        recording_id: "recording".into(),
        status: TranscriptionStatus::Completed,
        provider_name: "FunASR".into(),
        provider_kind: AsrProviderKind::FunAsr,
        model_id: "sensevoice".into(),
        protocol: TranscriptionProtocol::NotaBatchV1,
        voiceprint_analysis_supported: true,
        language: Some("zh".into()),
        text: text.into(),
        segments,
        speaker_names: StringMap::new(),
        speaker_assignments: StringMap::new(),
        completed_chunks: 1,
        total_chunks: 1,
        error_message: None,
        updated_at: "2026-08-02T00:00:00Z".into(),
    }
}

#[test]
fn prompt_transcript_names_speakers_and_times() {
    let mut value = document(
        "ignored",
        vec![
            TranscriptSegment {
                start_ms: 61_000,
                end_ms: 62_000,
                text: " 开会 ".into(),
                speaker: Some("speaker_0".into()),
            },
            TranscriptSegment {
                start_ms: 62_000,
                end_ms: 63_000,
                text: "  ".into(),
                speaker: None,
            },
            TranscriptSegment {
                start_ms: 63_000,
                end_ms: 64_000,
                text: "好".into(),
                speaker: None,
            },
        ],
    );
    value.speaker_names.insert("speaker_0".into(), "小明".into());
    assert_eq!(
        format_transcript(&value),
        "[00:01:01] 小明: 开会\n[00:01:03] 未标注发言人: 好"
    );
    assert_eq!(format_transcript(&document(" plain ", vec![])), "plain");
}

#[test]
fn prompts_hold_each_section_in_order() {
    let template = AiTemplate {
        id: "t".into(),
        name: "纪要".into(),
        description: String::new(),
        builtin_key: None,
        task_instructions: " Summarize ".into(),
        output_requirements: "Bullets".into(),
        requires_speaker_labels: false,
        revision: 1,
        archived: false,
        created_at: String::new(),
        updated_at: String::new(),
    };
    let (system, input) = build_prompts(
        " Weekly ",
        "2026-01-01T00:00:00Z",
        "+08:00",
        &template,
        "",
        "Short",
        " ",
        &document("Hello", vec![]),
        Some("# Old"),
        AiGenerationMode::Revise,
    );
    assert!(system.starts_with("You create a Markdown business document"));
    assert_eq!(
        input,
        "# Task template\nSummarize\n\n# Required output structure\nBullets\n\n# Meeting metadata\n- Title: Weekly\n- Started at: 2026-01-01T00:00:00Z\n- Local timezone: +08:00\n\n# Meeting background (source data)\n<meeting_context>\nNot provided\n</meeting_context>\n\n# Document requirements\nShort\n\n# Request for this run\nNot provided\n\n# Existing Markdown to revise (source data)\n<existing_markdown>\n# Old\n</existing_markdown>\n\n# Current transcript (source data)\n<transcript>\nHello\n</transcript>\n"
    );
}

#[test]
fn model_markdown_loses_fences_and_byte_order_marks() {
    assert_eq!(
        normalize_model_markdown("\u{feff}```markdown\n# Title\n```").unwrap(),
        "# Title"
    );
    assert_eq!(normalize_model_markdown("```md\nx\n```").unwrap(), "x");
    assert_eq!(normalize_model_markdown("```\ny\n```").unwrap(), "y");
    assert_eq!(normalize_model_markdown(" ```md unclosed").unwrap(), "```md unclosed");
    assert_eq!(
        normalize_model_markdown("  \n").unwrap_err(),
        "AI 模型没有生成 Markdown 内容"
    );
}

#[test]
fn titles_fall_back_and_are_bounded() {
    assert_eq!(choose_title(Some(" 周会 "), Some("旧"), "模板").unwrap(), "周会");
    assert_eq!(choose_title(Some("  "), Some("旧"), "模板").unwrap(), "旧");
    assert_eq!(choose_title(None, None, "模板").unwrap(), "模板");
    let long = "字".repeat(101);
    assert!(choose_title(Some(&long), None, "模板").is_err());
}

#[test]
fn refused_requests_report_status_and_message() {
    assert_eq!(
        provider_error_message("401 Unauthorized", Some("bad key")),
        "AI 模型服务返回 HTTP 401 Unauthorized：bad key"
    );
    assert_eq!(
        provider_error_message("500 Internal Server Error", None),
        "AI 模型服务返回 HTTP 500 Internal Server Error：服务未返回可读错误信息"
    );
}

#[test]
fn frontmatter_without_an_end_is_kept() {
    let raw = "---\nnota:\n  document_id: doc\n# no end";
    assert_eq!(strip_frontmatter(raw), raw);
    assert!(parse_nota_metadata(raw).is_none());
    let crlf = "\u{feff}---\r\nnota:\r\n  recording_id: 'rec'\r\n---\r\nBody";
    assert_eq!(strip_frontmatter(crlf), "Body");
    let metadata = parse_nota_metadata(crlf).unwrap();
    assert_eq!(metadata.get("recording_id").unwrap(), "rec");
    assert!(metadata.get("nota").is_none());
}

fn template(requires_speaker_labels: bool) -> AiTemplate {
    AiTemplate {
        id: "t".into(),
        name: "Minutes".into(),
        description: String::new(),
        builtin_key: None,
        task_instructions: "Summarise".into(),
        output_requirements: String::new(),
        requires_speaker_labels,
        revision: 1,
        archived: false,
        created_at: String::new(),
        updated_at: String::new(),
    }
}

#[test]
fn official_openai_host_is_recognised_in_any_case() {
    assert!(is_official_openai_url("https://API.OpenAI.com/v1"));
    assert!(!is_official_openai_url("https://api.openai.com.example.test/v1"));
    assert!(!is_official_openai_url("not a url"));
}

#[test]
fn blank_fields_read_as_not_provided() {
    assert_eq!(empty_as_not_provided("  "), "Not provided");
    assert_eq!(empty_as_not_provided("  Alice "), "Alice");
}

#[test]
fn speaker_templates_need_speaker_labels() {
    let plain = document("hello", vec![]);
    assert!(ensure_speaker_template_supported(&template(false), &plain).is_ok());
    assert_eq!(
        ensure_speaker_template_supported(&template(true), &plain).unwrap_err(),
        "当前转写没有说话人标签，无法使用按发言人模板"
    );
    let labelled = document(
        "hello",
        vec![TranscriptSegment {
            start_ms: 0,
            end_ms: 1_000,
            text: "hello".into(),
            speaker: Some("1".into()),
        }],
    );
    assert!(ensure_speaker_template_supported(&template(true), &labelled).is_ok());
}

#[test]
fn provider_messages_are_bounded() {
    assert_eq!(bounded_message("short"), "short");
    assert_eq!(bounded_message(&"字".repeat(700)).chars().count(), 500);
}

#[test]
fn failures_are_cancelled_or_failed() {
    assert_eq!(
        failure_outcome(true, "boom"),
        (AiGenerationStatus::Cancelled, "已取消生成".to_string())
    );
    assert_eq!(failure_outcome(false, "boom"), (AiGenerationStatus::Failed, "boom".to_string()));
}

#[test]
fn requested_provider_wins_unless_blank() {
    assert_eq!(choose_provider_id(Some("p1"), Some("p2")), Some("p1".to_string()));
    assert_eq!(choose_provider_id(Some("  "), Some("p2")), Some("p2".to_string()));
    assert_eq!(choose_provider_id(None, None), None);
}

#[test]
fn token_budget_needs_an_estimate_within_the_limit() {
    assert_eq!(check_token_budget(Some(1_000), 32_768), Ok(1_000));
    assert_eq!(
        check_token_budget(Some(40_000), 32_768).unwrap_err(),
        "预计输入约 40000 tokens，超过当前服务配置的 32768 tokens 上限。请精简上下文、选择其他模型或调整服务预算。"
    );
    assert_eq!(check_token_budget(Some(0), 32_768).unwrap_err(), "请等待输入 token 估算完成后再生成");
    assert!(check_token_budget(None, 32_768).is_err());
}

#[test]
fn version_files_are_named_by_recording_document_and_number() {
    assert_eq!(
        version_file_name("Weekly", "Minutes", "abc123", 7, None),
        "Weekly - Minutes [abc123] - v007.md"
    );
    assert_eq!(
        version_file_name("Weekly", "Minutes", "abc123", 1234, Some("v9")),
        "Weekly - Minutes [abc123] - v1234-v9.md"
    );
}

#[test]
fn markdown_files_start_with_nota_front_matter() {
    let version = AiDocumentVersion {
        id: "v1".into(),
        document_id: "d1".into(),
        version_number: 2,
        mode: AiGenerationMode::Create,
        parent_version_id: None,
        status: AiGenerationStatus::Completed,
        file_path: None,
        file_state: AiFileState::Ready,
        provider_name: "OpenAI".into(),
        provider_kind: LlmProviderKind::OpenAi,
        model_id: "m".into(),
        template_name: "Minutes".into(),
        template_revision: 1,
        transcription_generation: 3,
        estimated_input_tokens: 10,
        input_tokens: None,
        output_tokens: None,
        error_message: None,
        created_at: String::new(),
        completed_at: None,
    };
    let markdown = assemble_markdown("r1", &version, "\n# Title\n\n", "2026-08-02T00:00:00Z");
    assert_eq!(
        markdown,
        "---\nnota:\n  document_id: \"d1\"\n  version_id: \"v1\"\n  recording_id: \"r1\"\n  version: 2\n  transcription_generation: 3\n  system_policy_version: 1\n  generated_at: \"2026-08-02T00:00:00Z\"\n---\n\n# Title\n"
    );
    let metadata = parse_nota_metadata(&markdown).unwrap();
    assert_eq!(metadata.get("version_id").map(String::as_str), Some("v1"));
    assert!(document_text_matches_identity(&markdown, "d1", "v1"));
}

#[test]
fn system_policy_is_not_empty() {
    assert!(!system_policy_text().trim().is_empty());
}

#[test]
fn documents_are_held_once_until_released() {
    let mut active = ActiveJobs::new();
    assert!(active.is_empty());
    assert!(reserve_document(&mut active, "d1").is_ok());
    assert!(active.contains("d1"));
    assert_eq!(reserve_document(&mut active, "d1").unwrap_err(), "该 AI 文档已有任务正在排队或生成");
    assert!(active.reserve("d2"));
    assert!(!active.reserve("d2"));
    active.release("d1");
    assert!(!active.contains("d1"));
    assert!(active.contains("d2"));
    active.release("d2");
    assert!(active.is_empty());
}

#[test]
fn model_lists_are_sorted_by_id_and_skip_entries_without_one() {
    let entry = |id: Option<&str>, owner: Option<&str>| ModelEntry {
        id: id.map(String::from),
        owned_by: owner.map(String::from),
    };
    let models = list_models(vec![
        entry(Some("gpt-b"), Some("first")),
        entry(None, Some("skipped")),
        entry(Some("Zeta"), None),
        entry(Some("gpt-a"), None),
        entry(Some("gpt-b"), Some("second")),
        entry(Some("gpt"), None),
    ]);
    let ids: Vec<&str> = models.iter().map(|m| m.id.as_str()).collect();
    assert_eq!(ids, vec!["Zeta", "gpt", "gpt-a", "gpt-b", "gpt-b"]);
    assert_eq!(models[3].owned_by.as_deref(), Some("first"));
    assert_eq!(models[4].owned_by.as_deref(), Some("second"));
    assert!(list_models(vec![]).is_empty());
}

fn front_matter(document_id: &str, version_id: &str) -> String {
    format!("---\nnota:\n  document_id: \"{document_id}\"\n  version_id: \"{version_id}\"\n---\n\n# Body\n")
}

#[test]
fn relinked_files_must_name_the_version() {
    assert!(check_relink_identity(&front_matter("d1", "v1"), "d1", "v1").is_ok());
    assert_eq!(
        check_relink_identity(&front_matter("d1", "v2"), "d1", "v1").unwrap_err(),
        "所选文件的 Nota 文档或版本 ID 不匹配"
    );
    assert_eq!(
        check_relink_identity("# plain", "d1", "v1").unwrap_err(),
        "所选文件没有 Nota YAML 元数据"
    );
}

#[test]
fn only_existing_markdown_files_are_linked() {
    assert!(is_markdown_path("C:\\Docs\\a.MD"));
    assert!(!is_markdown_path("C:\\Docs\\a.txt"));
    assert!(check_markdown_file("a.md", true).is_ok());
    assert_eq!(check_markdown_file("a.md", false).unwrap_err(), "找不到所选 Markdown 文件");
    assert_eq!(check_markdown_file("a.txt", true).unwrap_err(), "只能关联 .md 文件");
}

#[test]
fn completed_versions_are_read_without_front_matter() {
    let mut version = AiDocumentVersion {
        id: "v1".into(),
        document_id: "d1".into(),
        version_number: 1,
        mode: AiGenerationMode::Create,
        parent_version_id: None,
        status: AiGenerationStatus::Generating,
        file_path: None,
        file_state: AiFileState::Pending,
        provider_name: "OpenAI".into(),
        provider_kind: LlmProviderKind::OpenAi,
        model_id: "m".into(),
        template_name: "Minutes".into(),
        template_revision: 1,
        transcription_generation: 1,
        estimated_input_tokens: 10,
        input_tokens: None,
        output_tokens: None,
        error_message: None,
        created_at: String::new(),
        completed_at: None,
    };
    assert_eq!(version_file_path(&version).unwrap_err(), "该版本尚未生成 Markdown 文件");
    version.status = AiGenerationStatus::Completed;
    assert_eq!(version_file_path(&version).unwrap_err(), "该版本没有文件路径");
    version.file_path = Some("C:\\Docs\\a.md".into());
    assert_eq!(version_file_path(&version).unwrap(), "C:\\Docs\\a.md");
    assert_eq!(markdown_body(&front_matter("d1", "v1")), "# Body");
    assert_eq!(markdown_body("  plain  "), "plain");
}

#[test]
fn provider_request_bodies_keep_system_instructions_separate_and_disable_storage() {
    let mut credentials = llm(LlmProviderKind::OpenAi, "test", "https://api.openai.com/v1");
    credentials.provider.model_id = "test-model".into();
    credentials.provider.has_api_key = true;
    credentials.api_key = "secret".into();

    let responses_text = responses_request_body(&credentials, "system rules", "meeting input");
    let responses: serde_json::Value = serde_json::from_str(&responses_text).unwrap();
    assert_eq!(responses["model"], "test-model");
    assert_eq!(responses["instructions"], "system rules");
    assert_eq!(responses["input"], "meeting input");
    assert_eq!(responses["store"], false);
    assert!(!responses.to_string().contains("secret"));

    let chat_text = chat_request_body(&credentials, "system rules", "meeting input");
    let chat: serde_json::Value = serde_json::from_str(&chat_text).unwrap();
    assert_eq!(chat["model"], "test-model");
    assert_eq!(chat["messages"][0]["role"], "system");
    assert_eq!(chat["messages"][0]["content"], "system rules");
    assert_eq!(chat["messages"][1]["role"], "user");
    assert_eq!(chat["messages"][1]["content"], "meeting input");
    assert_eq!(chat["stream"], false);
}

#[test]
fn request_bodies_print_as_serde_json_does() {
    let mut credentials = llm(LlmProviderKind::OpenAiCompatible, "test", "http://localhost/v1");
    credentials.provider.model_id = "m\"1".into();
    credentials.provider.max_output_tokens = 512;
    let body = generation_request_body(&credentials, "规则\n", "a\\b\u{1}");
    let value: serde_json::Value = serde_json::from_str(&body).unwrap();
    assert_eq!(body, value.to_string());
    assert_eq!(value["max_tokens"], 512);
    assert_eq!(value["messages"][1]["content"], "a\\b\u{1}");
    credentials.provider.kind = LlmProviderKind::OpenAi;
    let body = generation_request_body(&credentials, "规则", "x");
    let value: serde_json::Value = serde_json::from_str(&body).unwrap();
    assert_eq!(body, value.to_string());
    assert_eq!(value["max_output_tokens"], 512);
}

#[test]
fn generation_needs_a_finished_transcript_and_a_usable_template() {
    assert!(check_transcript_ready(TranscriptionStatus::Completed, "hello").is_ok());
    assert_eq!(
        check_transcript_ready(TranscriptionStatus::Completed, "  \n").unwrap_err(),
        "请先完成这条录音的文字转写"
    );
    assert!(check_transcript_ready(TranscriptionStatus::Transcribing, "hello").is_err());
    assert_eq!(check_new_document_template(true, true).unwrap_err(), "该 AI 模板已经归档");
    assert_eq!(
        check_new_document_template(false, true).unwrap_err(),
        "当前会议已经使用过该模板，请打开已有文档重新生成"
    );
    assert!(check_new_document_template(false, false).is_ok());
    assert!(check_document_recording("r1", "r1").is_ok());
    assert_eq!(check_document_recording("r1", "r2").unwrap_err(), "AI 文档与当前录音不匹配");
    assert!(ensure_not_cancelled(false).is_ok());
    assert_eq!(ensure_not_cancelled(true).unwrap_err(), "AI_TASK_CANCELLED");
}

#[test]
fn a_revision_starts_from_a_readable_completed_version_of_the_document() {
    let mut source = AiDocumentVersion {
        id: "v1".into(),
        document_id: "d1".into(),
        version_number: 1,
        mode: AiGenerationMode::Create,
        parent_version_id: None,
        status: AiGenerationStatus::Completed,
        file_path: Some("C:\\Docs\\a.md".into()),
        file_state: AiFileState::Modified,
        provider_name: "OpenAI".into(),
        provider_kind: LlmProviderKind::OpenAi,
        model_id: "m".into(),
        template_name: "Minutes".into(),
        template_revision: 1,
        transcription_generation: 1,
        estimated_input_tokens: 10,
        input_tokens: None,
        output_tokens: None,
        error_message: None,
        created_at: String::new(),
        completed_at: None,
    };
    assert_eq!(check_revision_source(&source, "d1").unwrap(), "C:\\Docs\\a.md");
    let unreadable = "所选版本不可读取，请先重新关联 Markdown 文件";
    assert_eq!(check_revision_source(&source, "d2").unwrap_err(), unreadable);
    source.file_state = AiFileState::Missing;
    assert_eq!(check_revision_source(&source, "d1").unwrap_err(), unreadable);
    source.file_state = AiFileState::Ready;
    source.status = AiGenerationStatus::Failed;
    assert_eq!(check_revision_source(&source, "d1").unwrap_err(), unreadable);
    source.status = AiGenerationStatus::Completed;
    source.file_path = None;
    assert_eq!(check_revision_source(&source, "d1").unwrap_err(), "所选版本没有文件路径");
}
