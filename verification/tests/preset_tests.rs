use auto_commit_rs::config::AppConfig;
use auto_commit_rs::preset::{
    apply_preset_to_config, create_preset, delete_preset, duplicate_preset, fields_from_config,
    find_duplicate, merge_imported, preset_is_modified, rename_preset, select_for_export,
    LlmPresetFields, Preset, PresetsFile,
};

fn sample_fields() -> LlmPresetFields {
    LlmPresetFields {
        provider: "groq".into(),
        model: "llama-3.3-70b-versatile".into(),
        api_key: "test-key".into(),
        api_url: String::new(),
        api_headers: String::new(),
    }
}

#[test]
fn test_create_preset_auto_name() {
    let mut file = PresetsFile::default();
    let fields = sample_fields();
    let id = create_preset(&mut file, None, fields);
    assert_eq!(id, 0);
    assert_eq!(file.presets.len(), 1);
    assert_eq!(file.presets[0].name, "groq/llama-3.3-70b-versatile");
    assert_eq!(file.next_id, 1);
}

#[test]
fn test_create_preset_custom_name() {
    let mut file = PresetsFile::default();
    let id = create_preset(&mut file, Some("My Preset".into()), sample_fields());
    assert_eq!(file.presets[0].name, "My Preset");
    assert_eq!(id, 0);
}

#[test]
fn test_find_duplicate() {
    let mut file = PresetsFile::default();
    let fields = sample_fields();
    create_preset(&mut file, None, fields.clone());
    assert_eq!(find_duplicate(&file, &fields), Some(0));

    let different = LlmPresetFields {
        provider: "openai".into(),
        ..fields
    };
    assert_eq!(find_duplicate(&file, &different), None);
}

#[test]
fn test_find_duplicate_ignores_headers() {
    let mut file = PresetsFile::default();
    let fields = sample_fields();
    create_preset(&mut file, None, fields.clone());

    let with_headers = LlmPresetFields {
        api_headers: "X-Custom: value".into(),
        ..fields
    };
    assert_eq!(find_duplicate(&file, &with_headers), Some(0));
}

#[test]
fn test_delete_preset_removes_from_fallback() {
    let mut file = PresetsFile::default();
    let id = create_preset(&mut file, None, sample_fields());
    file.fallback.order.push(id);

    delete_preset(&mut file, id);
    assert!(file.presets.is_empty());
    assert!(file.fallback.order.is_empty());
}

#[test]
fn test_rename_preset() {
    let mut file = PresetsFile::default();
    let id = create_preset(&mut file, None, sample_fields());
    rename_preset(&mut file, id, "New Name".into());
    assert_eq!(file.presets[0].name, "New Name");
}

#[test]
fn test_duplicate_preset() {
    let mut file = PresetsFile::default();
    let id = create_preset(&mut file, Some("Original".into()), sample_fields());
    let new_id = duplicate_preset(&mut file, id).unwrap();
    assert_eq!(file.presets.len(), 2);
    assert_eq!(file.presets[1].name, "Original (copy)");
    assert_ne!(id, new_id);
}

#[test]
fn test_fields_from_config() {
    let cfg = AppConfig::default();
    let fields = fields_from_config(&cfg);
    assert_eq!(fields.provider, "groq");
    assert_eq!(fields.model, "llama-3.3-70b-versatile");
}

#[test]
fn test_apply_preset_to_config() {
    let mut cfg = AppConfig::default();
    let preset = Preset {
        id: 0,
        name: "test".into(),
        fields: LlmPresetFields {
            provider: "openai".into(),
            model: "gpt-4o".into(),
            api_key: "sk-test".into(),
            api_url: String::new(),
            api_headers: String::new(),
        },
    };
    apply_preset_to_config(&mut cfg, &preset);
    assert_eq!(cfg.provider, "openai");
    assert_eq!(cfg.model, "gpt-4o");
    assert_eq!(cfg.api_key, "sk-test");
}

#[test]
fn test_preset_is_modified() {
    let cfg = AppConfig::default();
    let snapshot = fields_from_config(&cfg);
    assert!(!preset_is_modified(&cfg, &snapshot));

    let mut modified_cfg = cfg.clone();
    modified_cfg.provider = "openai".into();
    assert!(preset_is_modified(&modified_cfg, &snapshot));
}

#[test]
fn test_incrementing_ids() {
    let mut file = PresetsFile::default();
    let id1 = create_preset(&mut file, None, sample_fields());
    let fields2 = LlmPresetFields {
        provider: "openai".into(),
        ..sample_fields()
    };
    let id2 = create_preset(&mut file, None, fields2);
    assert_eq!(id1, 0);
    assert_eq!(id2, 1);
    assert_eq!(file.next_id, 2);
}

#[test]
fn test_delete_preset_keeps_other_presets() {
    let mut file = PresetsFile::default();
    let id1 = create_preset(&mut file, Some("one".into()), sample_fields());
    let fields2 = LlmPresetFields {
        provider: "openai".into(),
        ..sample_fields()
    };
    let id2 = create_preset(&mut file, Some("two".into()), fields2);
    file.fallback.order.push(id1);
    file.fallback.order.push(id2);

    delete_preset(&mut file, id1);
    assert_eq!(file.presets.len(), 1);
    assert_eq!(file.presets[0].name, "two");
    assert_eq!(file.fallback.order, vec![id2]);
}

#[test]
fn test_duplicate_preset_missing_id_fails() {
    let mut file = PresetsFile::default();
    create_preset(&mut file, None, sample_fields());
    assert!(duplicate_preset(&mut file, 99).is_err());
    assert_eq!(file.presets.len(), 1);
}

#[test]
fn test_export_selection_blanks_keys_and_clears_ids() {
    let mut file = PresetsFile::default();
    let id = create_preset(&mut file, Some("mine".into()), sample_fields());

    let without_keys = select_for_export(&file, &vec![id], false);
    assert_eq!(without_keys.len(), 1);
    assert_eq!(without_keys[0].id, 0);
    assert_eq!(without_keys[0].name, "mine");
    assert_eq!(without_keys[0].fields.api_key, "");

    let with_keys = select_for_export(&file, &vec![id], true);
    assert_eq!(with_keys[0].fields.api_key, "test-key");

    let missing = select_for_export(&file, &vec![99], true);
    assert!(missing.is_empty());
}

#[test]
fn test_merge_imported_deduplicates_and_renumbers() {
    let mut file = PresetsFile::default();
    create_preset(&mut file, Some("existing".into()), sample_fields());

    let duplicate = Preset {
        id: 7,
        name: "same creds".into(),
        fields: sample_fields(),
    };
    let fresh = Preset {
        id: 7,
        name: "new creds".into(),
        fields: LlmPresetFields {
            provider: "openai".into(),
            ..sample_fields()
        },
    };
    let count = merge_imported(&mut file, &vec![duplicate, fresh]);
    assert_eq!(count, 1);
    assert_eq!(file.presets.len(), 2);
    assert_eq!(file.presets[1].name, "new creds");
    assert_eq!(file.presets[1].id, 1);
    assert_eq!(file.next_id, 2);
}
