use auto_commit_rs::config::AppConfig;
use auto_commit_rs::preset::{create_preset, LlmPresetFields, PresetsFile};
use auto_commit_rs::provider::{
    attempt_label, build_request_body, default_model_for, extract_by_path, fallback_aborts,
    fallback_candidates, get_provider, json_escape, parse_headers, resolve_provider, JsonNode,
    LlmCallError, PathError, RequestFormat,
};

#[test]
fn default_model_for_returns_known_and_unknown_defaults() {
    assert_eq!(default_model_for("openai"), "gpt-4o-mini");
    assert_eq!(default_model_for("groq"), "llama-3.3-70b-versatile");
    assert_eq!(default_model_for("anthropic"), "sonnet-4-20250514");
    assert_eq!(default_model_for("gemini"), "gemini-2.0-flash");
    assert_eq!(default_model_for("unknown"), "");
}

#[test]
fn get_provider_knows_the_builtin_table() {
    let gemini = get_provider("gemini").expect("gemini");
    assert_eq!(gemini.response_path, "candidates.0.content.parts.0.text");
    assert_eq!(gemini.api_headers, "");
    assert_eq!(gemini.format, RequestFormat::Gemini);

    let anthropic = get_provider("anthropic").expect("anthropic");
    assert_eq!(anthropic.format, RequestFormat::Anthropic);
    assert!(anthropic.api_headers.contains("anthropic-version"));

    let groq = get_provider("groq").expect("groq");
    assert_eq!(groq.format, RequestFormat::OpenAiCompat);
    assert_eq!(groq.api_url, "https://api.groq.com/openai/v1/chat/completions");

    assert!(get_provider("no-such-provider").is_none());
}

#[test]
fn resolve_provider_prefers_configured_endpoint() {
    let mut cfg = AppConfig::default();
    let (url, headers, format, path) = resolve_provider(&cfg).expect("builtin resolves");
    assert_eq!(url, "https://api.groq.com/openai/v1/chat/completions");
    assert_eq!(headers, "Authorization: Bearer $ACR_API_KEY");
    assert_eq!(format, RequestFormat::OpenAiCompat);
    assert_eq!(path, "choices.0.message.content");

    cfg.api_url = "https://example.test/llm".into();
    cfg.api_headers = "X-Token: $ACR_API_KEY".into();
    let (url2, headers2, _, _) = resolve_provider(&cfg).expect("custom endpoint");
    assert_eq!(url2, "https://example.test/llm");
    assert_eq!(headers2, "X-Token: $ACR_API_KEY");

    cfg.provider = "my-private-llm".into();
    let (_, _, format3, path3) = resolve_provider(&cfg).expect("custom provider with url");
    assert_eq!(format3, RequestFormat::OpenAiCompat);
    assert_eq!(path3, "choices.0.message.content");

    cfg.api_url = String::new();
    assert!(resolve_provider(&cfg).is_err());
}

#[test]
fn parse_headers_splits_and_trims_pairs() {
    assert_eq!(parse_headers(""), vec![]);
    assert_eq!(parse_headers("   "), vec![]);
    assert_eq!(
        parse_headers("Authorization: Bearer abc"),
        vec![("Authorization".to_string(), "Bearer abc".to_string())]
    );
    assert_eq!(
        parse_headers(" x-api-key : k1 , anthropic-version: 2023-06-01"),
        vec![
            ("x-api-key".to_string(), "k1".to_string()),
            ("anthropic-version".to_string(), "2023-06-01".to_string()),
        ]
    );
    assert_eq!(parse_headers("no-colon-here"), vec![]);
}

#[test]
fn llm_call_error_messages_render_exactly() {
    let http = LlmCallError::HttpError {
        code: 429,
        body: "slow down".into(),
    };
    assert_eq!(http.message(), "API returned HTTP 429: slow down");
    let transport = LlmCallError::TransportError("connection refused".into());
    assert_eq!(transport.message(), "Network error: connection refused");
    let other = LlmCallError::Other("bad response".into());
    assert_eq!(other.message(), "bad response");
}

#[test]
fn request_bodies_escape_their_texts() {
    assert_eq!(json_escape("plain"), "plain");
    assert_eq!(json_escape("say \"hi\"\n"), "say \\\"hi\\\"\\n");
    assert_eq!(json_escape("back\\slash\ttab"), "back\\\\slash\\ttab");
    assert_eq!(json_escape("\u{1}"), "\\u0001");
    assert_eq!(json_escape("\u{1f}"), "\\u001f");

    let body = build_request_body(RequestFormat::OpenAiCompat, "m1", "sys", "a \"diff\"");
    assert_eq!(
        body,
        "{\"model\":\"m1\",\"messages\":[{\"role\":\"system\",\"content\":\"sys\"},{\"role\":\"user\",\"content\":\"a \\\"diff\\\"\"}],\"max_tokens\":512,\"temperature\":0}"
    );

    let gemini = build_request_body(RequestFormat::Gemini, "ignored", "s", "d");
    assert!(gemini.starts_with("{\"system_instruction\""));
    assert!(gemini.contains("\"generationConfig\":{\"temperature\":0}"));

    let anthropic = build_request_body(RequestFormat::Anthropic, "m2", "s", "d");
    assert!(anthropic.contains("\"system\":\"s\""));
    assert!(anthropic.ends_with("\"max_tokens\":512}"));
}

#[test]
fn extract_by_path_walks_arrays_and_objects() {
    // The shape of an OpenAI-compatible response:
    // {"choices":[{"message":{"content":"feat: done"}}]}
    let doc = JsonNode::Entries(vec![(
        "choices".to_string(),
        JsonNode::Items(vec![JsonNode::Entries(vec![(
            "message".to_string(),
            JsonNode::Entries(vec![
                ("content".to_string(), JsonNode::Text("feat: done".into())),
                ("tokens".to_string(), JsonNode::Number("12".into())),
            ]),
        )])]),
    )]);

    assert_eq!(
        extract_by_path(&doc, "choices.0.message.content"),
        Ok("feat: done".to_string())
    );
    assert_eq!(
        extract_by_path(&doc, "choices.1.message.content"),
        Err(PathError::SegmentNotFound)
    );
    assert_eq!(
        extract_by_path(&doc, "choices.0.message.missing"),
        Err(PathError::SegmentNotFound)
    );
    assert_eq!(
        extract_by_path(&doc, "choices.0.message.tokens"),
        Err(PathError::NotAString)
    );
    assert_eq!(
        extract_by_path(&doc, "choices.0.message"),
        Err(PathError::NotAString)
    );
    assert_eq!(extract_by_path(&doc, "0"), Err(PathError::SegmentNotFound));
}

#[test]
fn fallback_decisions_abort_only_on_transport_failures() {
    let http = LlmCallError::HttpError {
        code: 500,
        body: "oops".into(),
    };
    let transport = LlmCallError::TransportError("timed out".into());
    let other = LlmCallError::Other("bad path".into());
    assert!(!fallback_aborts(&http));
    assert!(fallback_aborts(&transport));
    assert!(!fallback_aborts(&other));
    assert_eq!(attempt_label("Primary", &http), "Primary (HTTP 500)");
    assert_eq!(attempt_label("p1", &other), "p1 (bad path)");
    assert_eq!(attempt_label("p2", &transport), "p2 (Network error: timed out)");
}

#[test]
fn fallback_candidates_follow_order_and_skip_current() {
    let mut file = PresetsFile::default();
    let current = LlmPresetFields {
        provider: "groq".into(),
        model: "llama-3.3-70b-versatile".into(),
        api_key: "k".into(),
        api_url: String::new(),
        api_headers: String::new(),
    };
    let id_same = create_preset(&mut file, Some("same".into()), current.clone());
    let other = LlmPresetFields {
        provider: "openai".into(),
        model: "gpt-4o-mini".into(),
        api_key: "k2".into(),
        api_url: String::new(),
        api_headers: String::new(),
    };
    let id_other = create_preset(&mut file, Some("other".into()), other);
    file.fallback.order.push(id_same);
    file.fallback.order.push(id_other);
    file.fallback.order.push(77);

    let candidates = fallback_candidates(&file, &current);
    assert_eq!(candidates.len(), 1);
    assert_eq!(candidates[0].name, "other");
}
