use auto_commit_rs::config::{
    field_description, mask_key, normalize_locale, normalize_post_commit_push,
    parse_usize_or_default, truncate, AppConfig,
};

#[test]
fn set_field_parses_boolean_and_numeric_values() {
    let mut cfg = AppConfig::default();
    cfg.set_field("ONE_LINER", "0", false).expect("set one-liner");
    cfg.set_field("USE_GITMOJI", "true", false)
        .expect("set use gitmoji");
    cfg.set_field("WARN_STAGED_FILES_THRESHOLD", "15", false)
        .expect("set warning threshold");
    cfg.set_field("WARN_STAGED_FILES_THRESHOLD", "invalid", false)
        .expect("set invalid warning threshold");
    cfg.set_field("POST_COMMIT_PUSH", "ALWAYS", false)
        .expect("set post commit push");

    assert!(!cfg.one_liner);
    assert!(cfg.use_gitmoji);
    assert_eq!(cfg.warn_staged_files_threshold, 20);
    assert_eq!(cfg.post_commit_push, "always");
}

#[test]
fn set_field_rejects_unsupported_locale() {
    let mut cfg = AppConfig::default();
    assert!(cfg.set_field("LOCALE", "pl", false).is_err());
    assert_eq!(cfg.locale, "en");
    assert!(cfg.set_field("LOCALE", "pl", true).is_ok());
    assert_eq!(cfg.locale, "pl");
    assert!(cfg.set_field("LOCALE", "  EN  ", false).is_ok());
    assert_eq!(cfg.locale, "en");
}

#[test]
fn fields_display_masks_api_key_and_shows_helpers() {
    let mut cfg = AppConfig::default();
    cfg.api_key = "abcd1234efgh5678".into();
    cfg.api_url.clear();
    cfg.api_headers.clear();

    let fields = cfg.fields_display();
    let api_key = fields
        .iter()
        .find(|(name, _, _)| *name == "API Key")
        .expect("api key field");
    let api_url = fields
        .iter()
        .find(|(name, _, _)| *name == "API URL")
        .expect("api url field");

    assert_eq!(api_key.2, "abcd...5678");
    assert_eq!(api_url.2, "(auto from provider)");
}

#[test]
fn fields_display_shows_enabled_disabled_for_booleans() {
    let mut cfg = AppConfig::default();
    cfg.one_liner = true;
    cfg.use_gitmoji = false;
    cfg.review_commit = true;
    cfg.suppress_tool_output = false;
    cfg.warn_staged_files_enabled = true;
    cfg.confirm_new_version = false;
    cfg.auto_update = Some(true);

    let fields = cfg.fields_display();

    let find_val = |name: &str| -> String {
        fields
            .iter()
            .find(|(n, _, _)| *n == name)
            .map(|(_, _, v)| v.clone())
            .unwrap()
    };

    assert_eq!(find_val("One-liner"), "enabled");
    assert_eq!(find_val("Use Gitmoji"), "disabled");
    assert_eq!(find_val("Review Commit"), "enabled");
    assert_eq!(find_val("Suppress Tool Output"), "disabled");
    assert_eq!(find_val("Warn Staged Files"), "enabled");
    assert_eq!(find_val("Confirm New Version"), "disabled");
    assert_eq!(find_val("Auto Update"), "enabled");

    cfg.one_liner = false;
    cfg.auto_update = Some(false);
    let fields = cfg.fields_display();
    let find_val2 = |name: &str| -> String {
        fields
            .iter()
            .find(|(n, _, _)| *n == name)
            .map(|(_, _, v)| v.clone())
            .unwrap()
    };
    assert_eq!(find_val2("One-liner"), "disabled");
    assert_eq!(find_val2("Auto Update"), "disabled");
}

#[test]
fn fields_display_auto_update_none_shows_not_set() {
    let mut cfg = AppConfig::default();
    cfg.auto_update = None;

    let fields = cfg.fields_display();
    let auto_update = fields
        .iter()
        .find(|(name, _, _)| *name == "Auto Update")
        .expect("auto update field");

    assert_eq!(auto_update.2, "(not set)");
}

#[test]
fn grouped_fields_has_basic_and_advanced_groups() {
    let cfg = AppConfig::default();
    let groups = cfg.grouped_fields();

    assert_eq!(groups.len(), 2);
    assert_eq!(groups[0].name, "Basic");
    assert_eq!(groups[1].name, "Advanced");

    assert_eq!(groups[0].fields.len(), 4);
    let basic_suffixes: Vec<&str> = groups[0].fields.iter().map(|(_, s, _)| *s).collect();
    assert_eq!(basic_suffixes, vec!["PROVIDER", "MODEL", "API_KEY", "API_URL"]);

    assert_eq!(groups[1].subgroups.len(), 4);
    assert_eq!(groups[1].subgroups[0].name, "LLM Settings");
    assert_eq!(groups[1].subgroups[1].name, "Commit Behavior");
    assert_eq!(groups[1].subgroups[2].name, "Post-Commit");
    assert_eq!(groups[1].subgroups[3].name, "Warnings & Updates");
}

#[test]
fn grouped_fields_covers_all_config_fields() {
    let cfg = AppConfig::default();
    let groups = cfg.grouped_fields();
    let flat_fields = cfg.fields_display();

    let mut grouped_suffixes: Vec<&str> = Vec::new();
    for group in &groups {
        for (_, suffix, _) in &group.fields {
            grouped_suffixes.push(suffix);
        }
        for sg in &group.subgroups {
            for (_, suffix, _) in &sg.fields {
                grouped_suffixes.push(suffix);
            }
        }
    }

    let flat_suffixes: Vec<&str> = flat_fields.iter().map(|(_, s, _)| *s).collect();
    assert_eq!(grouped_suffixes.len(), flat_suffixes.len());
    for suffix in &flat_suffixes {
        assert!(
            grouped_suffixes.contains(suffix),
            "suffix {} missing from grouped fields",
            suffix
        );
    }
}

#[test]
fn field_description_returns_descriptions_for_known_fields() {
    assert!(!field_description("PROVIDER").is_empty());
    assert!(!field_description("MODEL").is_empty());
    assert!(!field_description("API_KEY").is_empty());
    assert!(!field_description("API_URL").is_empty());
    assert!(!field_description("LOCALE").is_empty());
    assert!(!field_description("ONE_LINER").is_empty());
    assert!(!field_description("USE_GITMOJI").is_empty());
    assert!(!field_description("FALLBACK_ENABLED").is_empty());
    assert!(!field_description("TRACK_GENERATED_COMMITS").is_empty());

    assert!(field_description("UNKNOWN_FIELD").is_empty());
    assert!(field_description("").is_empty());
}

#[test]
fn merge_from_prefers_non_empty_layer_values() {
    let mut base = AppConfig::default();
    let mut layer = AppConfig::default();
    layer.provider = "anthropic".into();
    layer.model = String::new();
    layer.api_key = "layer-key".into();
    layer.post_commit_push = "NEVER ".into();
    layer.auto_update = Some(true);
    layer.warn_staged_files_threshold = 7;

    base.merge_from(&layer);
    assert_eq!(base.provider, "anthropic");
    assert_eq!(base.model, "llama-3.3-70b-versatile");
    assert_eq!(base.api_key, "layer-key");
    assert_eq!(base.post_commit_push, "never");
    assert_eq!(base.auto_update, Some(true));
    assert_eq!(base.warn_staged_files_threshold, 7);
}

#[test]
fn apply_env_map_reads_pairs_with_editor_rules() {
    let mut cfg = AppConfig::default();
    let entries: Vec<(String, String)> = vec![
        ("ACR_PROVIDER".into(), "openai".into()),
        ("ACR_USE_GITMOJI".into(), "true".into()),
        ("ACR_POST_COMMIT_PUSH".into(), "invalid-value".into()),
        ("ACR_WARN_STAGED_FILES_THRESHOLD".into(), "not-a-number".into()),
        ("ACR_AUTO_UPDATE".into(), "1".into()),
        ("UNRELATED".into(), "x".into()),
    ];
    cfg.apply_env_map(&entries);
    assert_eq!(cfg.provider, "openai");
    assert!(cfg.use_gitmoji);
    assert_eq!(cfg.post_commit_push, "ask");
    assert_eq!(cfg.warn_staged_files_threshold, 20);
    assert_eq!(cfg.auto_update, Some(true));
    assert_eq!(cfg.model, "llama-3.3-70b-versatile");
}

#[test]
fn mask_key_and_truncate_render_exactly() {
    assert_eq!(mask_key(""), "");
    assert_eq!(mask_key("short"), "*****");
    assert_eq!(mask_key("12345678"), "********");
    assert_eq!(mask_key("abcd1234efgh5678"), "abcd...5678");
    assert_eq!(truncate("hello", 10), "hello");
    assert_eq!(truncate("hello world", 5), "hello...");
}

#[test]
fn normalization_helpers_follow_editor_rules() {
    assert_eq!(normalize_post_commit_push(" Never "), "never");
    assert_eq!(normalize_post_commit_push("ALWAYS"), "always");
    assert_eq!(normalize_post_commit_push("whenever"), "ask");
    assert_eq!(normalize_locale("  PT-BR "), "pt-br");
    assert_eq!(normalize_locale("   "), "en");
    assert_eq!(parse_usize_or_default(" 42 ", 7), 42);
    assert_eq!(parse_usize_or_default("x", 7), 7);
    assert_eq!(parse_usize_or_default("", 7), 7);
}

#[test]
fn default_config_matches_documented_defaults() {
    let cfg = AppConfig::default();
    assert_eq!(cfg.provider, "groq");
    assert_eq!(cfg.model, "llama-3.3-70b-versatile");
    assert_eq!(cfg.api_key, "");
    assert_eq!(cfg.locale, "en");
    assert!(cfg.one_liner);
    assert_eq!(cfg.commit_template, "$msg");
    assert!(!cfg.use_gitmoji);
    assert_eq!(cfg.gitmoji_format, "unicode");
    assert!(cfg.review_commit);
    assert_eq!(cfg.post_commit_push, "ask");
    assert!(!cfg.suppress_tool_output);
    assert!(cfg.warn_staged_files_enabled);
    assert_eq!(cfg.warn_staged_files_threshold, 20);
    assert!(cfg.confirm_new_version);
    assert_eq!(cfg.auto_update, None);
    assert!(cfg.fallback_enabled);
    assert!(cfg.track_generated_commits);
}
