use hmac::Mac;
use reverse_api::media::{MediaGenerator, PollStep, TaskData, TaskExtra, TaskMessage, WanxTask};
use reverse_api::model_selector::ModelSelector;
use reverse_api::qwen_models::{ChatType, TaskStatus, Model, ModelAbilities, ModelCapabilities, ModelInfo, ModelMeta};
use reverse_api::streaming::{data_payload, payloads_until_done, StreamingHandler, StreamAccumulator, StreamDelta, StreamEnvelope, WebSearchInfo};
use reverse_api::error::QwenError;
use reverse_api::upload::{FileUploader, StsTokenData};
use sha2::Digest;

fn delta(phase: Option<&str>, content: Option<&str>) -> StreamDelta {
    StreamDelta { phase: phase.map(|s| s.to_string()), content: content.map(|s| s.to_string()), web_search_info: None }
}

fn envelope(deltas: Vec<StreamDelta>) -> StreamEnvelope {
    StreamEnvelope { error: None, response_id: None, deltas }
}

#[test]
fn stream_separates_thinking_and_answer() {
    let events = vec![
        envelope(vec![delta(Some("thinking"), Some("abc"))]),
        envelope(vec![delta(Some("answer"), Some("Hello"))]),
        envelope(vec![delta(Some("answer"), Some(" World"))]),
    ];
    let out = StreamingHandler::handle_streaming_response(events).unwrap();
    assert_eq!(out.thinking_content.as_deref(), Some("abc"));
    assert_eq!(out.content, "Hello World");
}

#[test]
fn stream_defaults_to_answer_and_keeps_first_id() {
    let mut first = envelope(vec![delta(None, Some("Hi"))]);
    first.response_id = Some("r1".to_string());
    let mut second = envelope(vec![delta(Some("other"), Some("!"))]);
    second.response_id = Some("r2".to_string());
    let out = StreamingHandler::handle_streaming_response(vec![first, second]).unwrap();
    assert_eq!(out.content, "Hi!");
    assert_eq!(out.response_id, "r1");
    assert!(out.thinking_content.is_none());
}

#[test]
fn stream_image_phase_replaces_content() {
    let events = vec![envelope(vec![
        delta(Some("answer"), Some("draft")),
        delta(Some("image_gen"), Some("https://img/1.png")),
        delta(Some("image_gen"), Some("")),
    ])];
    let out = StreamingHandler::handle_streaming_response(events).unwrap();
    assert_eq!(out.content, "https://img/1.png");
}

#[test]
fn stream_search_results_and_search_text_skipped() {
    let hit = WebSearchInfo {
        url: "u".into(),
        title: "t".into(),
        snippet: "s".into(),
        hostname: None,
        hostlogo: None,
        date: String::new(),
    };
    let mut acc = StreamAccumulator::new();
    acc.apply_delta(StreamDelta { phase: Some("web_search".into()), content: Some("ignored".into()), web_search_info: Some(vec![hit]) });
    let out = acc.finish();
    assert_eq!(out.content, "");
    assert_eq!(out.web_search_results.unwrap().len(), 1);
}

#[test]
fn stream_error_envelope_aborts() {
    let bad = StreamEnvelope { error: Some((Some("E1".into()), None)), response_id: None, deltas: vec![] };
    let r = StreamingHandler::handle_streaming_response(vec![envelope(vec![delta(None, Some("x"))]), bad]);
    match r {
        Err(QwenError::ApiError(m)) => assert_eq!(m, "Server error: E1 - no details"),
        _ => panic!("expected an error"),
    }
}

fn model(id: &str, caps: ModelCapabilities, chat_types: &[&str], ctx: u32) -> Model {
    Model {
        id: id.to_string(),
        name: id.to_string(),
        object: "model".to_string(),
        owned_by: "qwen".to_string(),
        info: Some(ModelInfo {
            id: id.to_string(),
            name: id.to_string(),
            meta: ModelMeta {
                description: String::new(),
                short_description: String::new(),
                capabilities: caps,
                abilities: ModelAbilities::default(),
                chat_type: chat_types.iter().map(|s| s.to_string()).collect(),
                modality: vec![],
                max_context_length: ctx,
                max_generation_length: 0,
                max_thinking_generation_length: 8192,
            },
        }),
    }
}

fn sample_models() -> Vec<Model> {
    let vision = ModelCapabilities { vision: true, document: true, ..Default::default() };
    let thinking = ModelCapabilities { thinking: true, thinking_budget: true, citations: true, ..Default::default() };
    vec![
        model("m-vision", vision, &["t2t"], 100000),
        model("m-think", thinking, &["t2t", "search"], 300000),
        Model { id: "bare".into(), name: "bare".into(), object: "model".into(), owned_by: "x".into(), info: None },
    ]
}

#[test]
fn capability_queries() {
    let ms = sample_models();
    assert!(ModelSelector::model_supports_thinking(&ms, "m-think"));
    assert!(!ModelSelector::model_supports_thinking(&ms, "m-vision"));
    assert!(ModelSelector::model_supports_search(&ms, "m-think"));
    assert!(!ModelSelector::model_supports_search(&ms, "bare"));
    assert_eq!(ModelSelector::get_model_thinking_budget(&ms, "m-think"), Some(8192));
    assert_eq!(ModelSelector::get_model_thinking_budget(&ms, "m-vision"), None);
    assert_eq!(ModelSelector::get_model_thinking_budget(&ms, "missing"), None);
}

#[test]
fn capability_filters() {
    let ids = |v: Vec<Model>| v.into_iter().map(|m| m.id).collect::<Vec<_>>();
    assert_eq!(ids(ModelSelector::get_thinking_capable_models(sample_models())), vec!["m-think"]);
    assert_eq!(ids(ModelSelector::get_search_capable_models(sample_models())), vec!["m-think"]);
    assert_eq!(ids(ModelSelector::get_vision_capable_models(sample_models())), vec!["m-vision"]);
    assert!(ModelSelector::get_audio_capable_models(sample_models()).is_empty());
    assert!(ModelSelector::get_video_capable_models(sample_models()).is_empty());
}

#[test]
fn best_model_selection() {
    // m-vision: 10 (document) + 10 (context); m-think: 10 (citations) + 30 (context)
    assert_eq!(ModelSelector::select_best_model(sample_models(), false, false, false, false, false), "m-think");
    assert_eq!(ModelSelector::select_best_model(sample_models(), true, false, false, false, false), "m-vision");
    assert_eq!(ModelSelector::select_best_model(sample_models(), false, true, false, false, false), "qwen3-max");
}

#[test]
fn chat_type_tags() {
    assert_eq!(ChatType::TextToText.as_str(), "t2t");
    assert_eq!(ChatType::TextToVideo.as_str(), "t2v");
    assert_eq!(ChatType::DeepResearch.as_str(), "deep_research");
    assert_eq!(ChatType::default().as_str(), "t2t");
}

fn sts() -> StsTokenData {
    StsTokenData {
        access_key_id: "AKID".into(),
        access_key_secret: "SECRET".into(),
        security_token: "TOKEN".into(),
        file_url: String::new(),
        file_path: "user/f.png".into(),
        file_id: String::new(),
        bucketname: "bucket".into(),
        region: "oss-cn-hangzhou".into(),
        endpoint: String::new(),
    }
}

fn hmac(key: &[u8], msg: &[u8]) -> Vec<u8> {
    let mut m = <hmac::Hmac<sha2::Sha256> as Mac>::new_from_slice(key).unwrap();
    m.update(msg);
    m.finalize().into_bytes().to_vec()
}

#[test]
fn upload_signature_is_deterministic_and_exact() {
    let date = "20250101T120000Z";
    let a = FileUploader::oss_authorization(&sts(), "image/png", date);
    let b = FileUploader::oss_authorization(&sts(), "image/png", date);
    assert_eq!(a, b);
    let canonical = format!(
        "PUT\n/bucket/user/f.png\n\ncontent-type:image/png\nx-oss-content-sha256:UNSIGNED-PAYLOAD\nx-oss-date:{}\nx-oss-security-token:TOKEN\nx-oss-user-agent:aliyun-sdk-js/6.23.0 Chrome 142.0.0.0 on OS X 10.15.7 64-bit\n\n\nUNSIGNED-PAYLOAD",
        date
    );
    let req_hash = hex::encode(sha2::Sha256::digest(canonical.as_bytes()));
    let sts_text = format!("OSS4-HMAC-SHA256\n{}\n20250101/cn-hangzhou/oss/aliyun_v4_request\n{}", date, req_hash);
    let k1 = hmac(b"aliyun_v4SECRET", b"20250101");
    let k2 = hmac(&k1, b"cn-hangzhou");
    let k3 = hmac(&k2, b"oss");
    let k4 = hmac(&k3, b"aliyun_v4_request");
    let sig = hex::encode(hmac(&k4, sts_text.as_bytes()));
    let expected = format!("OSS4-HMAC-SHA256 Credential=AKID/20250101/cn-hangzhou/oss/aliyun_v4_request,Signature={}", sig);
    assert_eq!(a, expected);
    let other = FileUploader::oss_authorization(&sts(), "image/png", "20250101T120001Z");
    assert_ne!(a, other);
}

#[test]
fn file_info_by_extension() {
    assert_eq!(FileUploader::get_file_info("png"), ("image", "vision", "image", "image/png"));
    assert_eq!(FileUploader::get_file_info("mp4"), ("video", "video", "file", "video/mp4"));
    assert_eq!(FileUploader::get_file_info("flac"), ("audio", "audio", "file", "audio/flac"));
    assert_eq!(FileUploader::get_file_info("zzz"), ("file", "document", "file", "application/octet-stream"));
    assert_eq!(FileUploader::green_net("video"), "greening");
    assert_eq!(FileUploader::green_net("image"), "success");
}

#[test]
fn stream_line_payloads() {
    assert_eq!(data_payload("data: {\"a\":1} ").as_deref(), Some("{\"a\":1}"));
    assert_eq!(data_payload("data: [DONE]"), None);
    assert_eq!(data_payload("data:    "), None);
    assert_eq!(data_payload("event: x"), None);
}

#[test]
fn media_task_polling() {
    let data = TaskData {
        message_id: "m".into(),
        messages: vec![TaskMessage { extra: Some(TaskExtra { wanx: Some(WanxTask { task_id: "t1".into() }) }) }],
        chat_id: "c".into(),
        parent_id: "p".into(),
    };
    assert_eq!(MediaGenerator::task_id(&data).unwrap(), "t1");
    let empty = TaskData { message_id: "m".into(), messages: vec![], chat_id: "c".into(), parent_id: "p".into() };
    assert!(MediaGenerator::task_id(&empty).is_err());
    let status = |s: &str| TaskStatus {
        chat_type: "t2v".into(),
        task_status: s.into(),
        message: "boom".into(),
        remaining_time: String::new(),
        content: "https://v/1.mp4".into(),
    };
    assert!(matches!(MediaGenerator::poll_step(&status("success")), PollStep::Succeeded(u) if u == "https://v/1.mp4"));
    assert!(matches!(MediaGenerator::poll_step(&status("failed")), PollStep::Failed(QwenError::ApiError(m)) if m == "Video generation failed: boom"));
    assert!(matches!(MediaGenerator::poll_step(&status("running")), PollStep::Running));
    assert!(matches!(MediaGenerator::poll_step(&status("queued")), PollStep::Unknown));
}

#[test]
fn model_for_files_follows_classes() {
    let classes = vec!["document".to_string(), "vision".to_string()];
    assert_eq!(ModelSelector::select_model_for_files(sample_models(), &classes), "m-vision");
    assert_eq!(ModelSelector::select_model_for_files(sample_models(), &vec![]), "m-think");
    assert_eq!(ModelSelector::select_model_for_files(sample_models(), &vec!["audio".to_string()]), "qwen3-max");
}

#[test]
fn stream_stops_at_done() {
    let lines: Vec<String> = vec!["data: {\"a\":1}", "event: ping", "data: ", "data: [DONE] ", "data: {\"b\":2}"]
        .into_iter()
        .map(|s| s.to_string())
        .collect();
    assert_eq!(payloads_until_done(&lines), vec!["{\"a\":1}".to_string()]);
}
