use auto_commit_rs::config::AppConfig;
use auto_commit_rs::interpolation::interpolate;

fn bindings_for(cfg: &AppConfig, environment: &[(&str, &str)]) -> Vec<(String, String)> {
    let mut vars: Vec<(String, String)> = Vec::new();
    for (k, v) in environment {
        vars.push((k.to_string(), v.to_string()));
    }
    vars.push(("ACR_PROVIDER".into(), cfg.provider.clone()));
    vars.push(("ACR_MODEL".into(), cfg.model.clone()));
    vars.push(("ACR_API_KEY".into(), cfg.api_key.clone()));
    vars.push(("ACR_LOCALE".into(), cfg.locale.clone()));
    vars
}

#[test]
fn interpolate_replaces_known_variables_and_keeps_literals() {
    let mut cfg = AppConfig::default();
    cfg.provider = "openai".into();
    cfg.model = "gpt-4o-mini".into();
    cfg.api_key = "secret".into();
    cfg.locale = "en".into();

    let vars = bindings_for(&cfg, &[("CUSTOM_ENV", "custom")]);
    let result = interpolate(
        "provider=$ACR_PROVIDER model=$ACR_MODEL key=$ACR_API_KEY custom=$CUSTOM_ENV",
        &vars,
    );

    assert_eq!(
        result,
        "provider=openai model=gpt-4o-mini key=secret custom=custom"
    );
}

#[test]
fn interpolate_replaces_unknown_variables_with_empty_string() {
    let cfg = AppConfig::default();
    let vars = bindings_for(&cfg, &[]);
    let result = interpolate("before:$DOES_NOT_EXIST:after", &vars);
    assert_eq!(result, "before::after");
}

#[test]
fn interpolate_overrides_acr_variables_from_config_values() {
    let mut cfg = AppConfig::default();
    cfg.model = "model-from-config".into();
    // The configuration's bindings come after the environment's, and a
    // later binding wins, so the configured value prevails.
    let vars = bindings_for(&cfg, &[("ACR_MODEL", "model-from-env")]);
    let result = interpolate("model=$ACR_MODEL", &vars);
    assert_eq!(result, "model=model-from-config");
}

#[test]
fn interpolate_later_bindings_win() {
    let vars: Vec<(String, String)> = vec![
        ("KEY".into(), "first".into()),
        ("KEY".into(), "second".into()),
    ];
    assert_eq!(interpolate("$KEY", &vars), "second");
}

#[test]
fn interpolate_keeps_lone_dollars_and_takes_longest_names() {
    let vars: Vec<(String, String)> = vec![
        ("A".into(), "one".into()),
        ("AB".into(), "two".into()),
    ];
    assert_eq!(interpolate("cost: $5", &vars), "cost: $5");
    assert_eq!(interpolate("$", &vars), "$");
    assert_eq!(interpolate("$AB", &vars), "two");
    assert_eq!(interpolate("$A-B", &vars), "one-B");
    assert_eq!(interpolate("", &vars), "");
}
