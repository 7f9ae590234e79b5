use reverse_api::deepseek::{DeepSeekEvent, DeepSeekHash, DeepSeekSignature, DeepSeekTurn};
use reverse_api::defaults::{default_model, default_qwen_model};
use reverse_api::retry::{RetryConfig, RetryStrategy};
use reverse_api::token_cache::{ChatCache, TokenCache, TokenStep};
use reverse_api::zto::{
    append_delta_contents, chat_id_of, message_id_of, generate_chat_id, generate_message_id, generate_signature, process_thinking_content, retry_with_fresh_token,
    status_outcome, ZtoError,
};

#[test]
fn test_process_thinking_content() {
    let input = "<details>这是思考内容</details>";
    let output = process_thinking_content(input);
    assert_eq!(output, "这是思考内容");
}

#[test]
fn thinking_content_drops_quote_markers() {
    assert_eq!(process_thinking_content("> a\n> b\n"), "a\nb");
    assert_eq!(process_thinking_content("  plain  "), "plain");
}

#[test]
fn test_signature_generation() {
    let test_data = b"test";
    let sig = generate_signature(test_data);
    assert!(!sig.is_empty());
    assert_eq!(sig.len(), 64);
    assert_eq!(sig, "9f86d081884c7d659a2feaa0c55ad015a3bf4f1b2b0b822cd15d6c15b0f00a08");
}

#[test]
fn clock_ids_are_decimal() {
    let id = generate_chat_id();
    let (nanos, secs) = id.split_once('-').unwrap();
    let n: u128 = nanos.parse().unwrap();
    let s: u64 = secs.parse().unwrap();
    assert_eq!((n / 1_000_000_000) as u64, s);
    assert!(generate_message_id().chars().all(|c| c.is_ascii_digit()));
}

#[test]
fn retry_schedule_doubles() {
    let s = RetryStrategy::new(RetryConfig { max_retries: 3, initial_delay_ms: 100, max_delay_ms: 10000, backoff_factor: 2 });
    assert_eq!(s.get_delay(0), 100);
    assert_eq!(s.get_delay(1), 200);
    assert_eq!(s.get_delay(2), 400);
    assert_eq!(s.get_delay(10), 10000);
    assert!(!s.should_retry(3, Some(500)));
    assert!(s.should_retry(0, Some(429)));
    assert!(s.should_retry(0, Some(503)));
    assert!(s.should_retry(1, None));
    assert!(!s.should_retry(0, Some(404)));
    assert_eq!(s.after_failure(2), Some(400));
    assert_eq!(s.after_failure(3), None);
}

#[test]
fn retry_default_config() {
    let c = RetryConfig::default();
    assert_eq!((c.max_retries, c.initial_delay_ms, c.max_delay_ms, c.backoff_factor), (3, 100, 10000, 2));
    let zero = RetryStrategy::new(RetryConfig { max_retries: 1, initial_delay_ms: 50, max_delay_ms: 1000, backoff_factor: 0 });
    assert_eq!(zero.get_delay(0), 50);
    assert_eq!(zero.get_delay(1), 0);
}

#[test]
fn token_cache_hits_within_expiry() {
    let mut cache = TokenCache::new();
    let mut fetches = 0;
    for now in [1000u64, 2000u64] {
        match cache.acquire_token("refresh", now) {
            TokenStep::Cached(t) => assert_eq!(t, "tok"),
            TokenStep::Fetch => {
                fetches += 1;
                cache.record_fetched("refresh", "tok".to_string(), now);
            },
        }
    }
    assert_eq!(fetches, 1);
    assert!(matches!(cache.acquire_token("refresh", 4600), TokenStep::Fetch));
    assert!(matches!(cache.acquire_token("other", 1000), TokenStep::Fetch));
}

#[test]
fn token_cache_store_replaces() {
    let mut cache = TokenCache::new();
    cache.store("k", "a".to_string(), 10);
    cache.store("k", "b".to_string(), 20);
    assert_eq!(cache.lookup("k", 15), Some("b".to_string()));
    assert_eq!(cache.lookup("k", 20), None);
}

#[test]
fn pow_protocol_pieces() {
    assert!(DeepSeekHash::check_algorithm("DeepSeekHashV1").is_ok());
    assert_eq!(
        DeepSeekHash::check_algorithm("Other"),
        Err(reverse_api::error::DeepSeekError::ApiError("Unsupported algorithm: Other".to_string()))
    );
    assert_eq!(DeepSeekHash::pow_prefix("salt", 1700000000), "salt_1700000000_");
    assert_eq!(DeepSeekHash::pow_prefix("s", -5), "s_-5_");
    let mut stack = [0u8; 16];
    assert_eq!(DeepSeekHash::read_solution(&stack), None);
    stack[0] = 1;
    stack[8..16].copy_from_slice(&42.0f64.to_le_bytes());
    assert_eq!(DeepSeekHash::read_solution(&stack).map(f64::from_bits), Some(42.0));
}

#[test]
fn deepseek_stream_events() {
    let mut turn = DeepSeekTurn::new();
    turn.apply_event(&DeepSeekEvent { response_message_id: Some(7), v: None, p: None });
    turn.apply_event(&DeepSeekEvent { response_message_id: None, v: Some("Hel".into()), p: Some("response/content".into()) });
    turn.apply_event(&DeepSeekEvent { response_message_id: None, v: Some("lo".into()), p: None });
    turn.apply_event(&DeepSeekEvent { response_message_id: None, v: Some("x".into()), p: Some("response/other".into()) });
    assert_eq!(turn.content, "Hello");
    assert_eq!(turn.message_id, "7");
    assert_eq!(DeepSeekSignature::new().session, "");
}

#[test]
fn default_models() {
    assert_eq!(default_model(), "grok-3-auto");
    assert_eq!(default_qwen_model(), "qwen3-max");
}

#[test]
fn zto_status_and_auth_retry() {
    assert!(status_outcome(200).is_ok());
    assert!(matches!(status_outcome(401), Err(ZtoError::UnauthorizedError(_))));
    assert_eq!(status_outcome(502), Err(ZtoError::ServerError("Server returned status: 502".to_string())));
    let unauthorized = ZtoError::UnauthorizedError("x".to_string());
    assert!(retry_with_fresh_token(0, &unauthorized));
    assert!(retry_with_fresh_token(2, &unauthorized));
    assert!(!retry_with_fresh_token(3, &unauthorized));
    assert!(!retry_with_fresh_token(0, &ZtoError::Other("x".to_string())));
}

#[test]
fn chat_cache_keeps_chats() {
    let mut chats = ChatCache::new();
    assert_eq!(chats.get("qwen3-max"), None);
    chats.insert("qwen3-max", "chat-1".to_string());
    assert_eq!(chats.get("qwen3-max"), Some("chat-1".to_string()));
    assert_eq!(chats.get("other"), None);
}

#[test]
fn zto_delta_contents_append() {
    let mut content = String::from("A");
    append_delta_contents(&mut content, &vec![Some("b".to_string()), None, Some("c".to_string())]);
    assert_eq!(content, "Abc");
}

#[test]
fn ids_from_time() {
    assert_eq!(chat_id_of(1700000000, 1700000000123456789), "1700000000123456789-1700000000");
    assert_eq!(message_id_of(42), "42");
    assert_eq!(chat_id_of(0, 0), "0-0");
}
