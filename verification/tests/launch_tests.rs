use provider_launcher::actions::launch::{
    apply_detected_model, build_command, build_statusline_args, external_env, llama_detect_request, not_found_message,
};
use provider_launcher::actions::list::list_credentials;
use provider_launcher::config::Credential;
use provider_launcher::error::AppError;
use provider_launcher::json::JsonValue;
use provider_launcher::providers::llamacpp::{model_from_listing, models_url};
use provider_launcher::strmap::StrMap;

fn env(entries: &[(&str, &str)]) -> StrMap<String> {
    let mut m = StrMap::new();
    for (k, v) in entries {
        m.insert(k.to_string(), v.to_string());
    }
    m
}

fn cred(name: &str, provider: &str, entries: &[(&str, &str)], statusline: bool) -> Credential {
    Credential { name: name.to_string(), provider: provider.to_string(), env: env(entries), statusline_enabled: statusline }
}

#[test]
fn command_without_env_or_args() {
    assert_eq!(build_command(&StrMap::new(), "assistant", &vec![]), "assistant");
}

#[test]
fn command_quotes_values_and_args() {
    let e = env(&[("A", "x'y"), ("B", "2")]);
    let args = vec!["--flag".to_string(), "it's".to_string()];
    assert_eq!(build_command(&e, "assistant", &args), "A='x'\\''y' \\\n  B='2' \\\n  assistant '--flag' 'it'\\''s'");
}

#[test]
fn management_key_is_never_passed_on() {
    let e = env(&[("ANTHROPIC_AUTH_TOKEN", "t"), ("OPENROUTER_MANAGEMENT_KEY", "m"), ("X", "1")]);
    let out = external_env(&e);
    assert_eq!(out.len(), 2);
    assert!(!out.contains_key("OPENROUTER_MANAGEMENT_KEY"));
    assert_eq!(out.get("X").map(|s| s.as_str()), Some("1"));
}

#[test]
fn statusline_args_only_when_enabled_and_supported() {
    let args = vec!["-c".to_string()];
    let on = cred("D", "deepseek", &[], true);
    let out = build_statusline_args("d", &on, "/bin/launcher", &args);
    assert_eq!(out.len(), 3);
    assert_eq!(out[0], "--settings");
    assert_eq!(out[1], "{\"statusLine\":{\"command\":\"/bin/launcher statusline --profile d\",\"type\":\"command\"}}");
    assert_eq!(out[2], "-c");
    let quoted = build_statusline_args("d", &on, "a\"b\\c\t", &args);
    assert_eq!(
        quoted[1],
        "{\"statusLine\":{\"command\":\"a\\\"b\\\\c\\t statusline --profile d\",\"type\":\"command\"}}"
    );
    let control = build_statusline_args("d", &on, "a\u{1}b", &args);
    assert!(control[1].contains("a\\u0001b"));
    let off = cred("D", "deepseek", &[], false);
    assert_eq!(build_statusline_args("d", &off, "/bin/launcher", &args), args);
    let unsupported = cred("Z", "zai", &[], true);
    assert_eq!(build_statusline_args("z", &unsupported, "/bin/launcher", &args), args);
}

#[test]
fn not_found_lists_saved_credentials() {
    let mut all = StrMap::new();
    all.insert("a".to_string(), cred("Alpha", "zai", &[], false));
    all.insert("b".to_string(), cred("Beta", "zai", &[], false));
    assert_eq!(
        not_found_message("x", &all),
        "Profile \"x\" not found.\n  Available profiles:\n    - a (Alpha)\n    - b (Beta)"
    );
    assert_eq!(not_found_message("x", &StrMap::new()), "Profile \"x\" not found.");
}

#[test]
fn llama_launch_needs_a_base_url() {
    let other = cred("O", "zai", &[], false);
    assert!(matches!(llama_detect_request("o", &other), Ok(None)));
    let missing = cred("L", "llama-single-model", &[("ANTHROPIC_BASE_URL", "  ")], false);
    match llama_detect_request("l", &missing) {
        Err(AppError::Other(m)) => {
            assert_eq!(m, "Profile \"l\" has no ANTHROPIC_BASE_URL — cannot auto-detect the llama.cpp model.")
        },
        _ => panic!("error expected"),
    }
    let ok = cred("L", "llama-single-model", &[("ANTHROPIC_BASE_URL", "http://h:8080"), ("ANTHROPIC_AUTH_TOKEN", "k")], false);
    match llama_detect_request("l", &ok) {
        Ok(Some((url, token))) => {
            assert_eq!(url, "http://h:8080");
            assert_eq!(token, "k");
        },
        _ => panic!("request expected"),
    }
}

#[test]
fn detected_model_fills_the_three_model_variables() {
    let c = cred("L", "llama-single-model", &[("ANTHROPIC_BASE_URL", "http://h")], false);
    let out = apply_detected_model("l", &c, Ok("qwen".to_string())).unwrap();
    for k in ["ANTHROPIC_DEFAULT_HAIKU_MODEL", "ANTHROPIC_DEFAULT_SONNET_MODEL", "ANTHROPIC_DEFAULT_OPUS_MODEL"] {
        assert_eq!(out.get(k).map(|s| s.as_str()), Some("qwen"));
    }
    assert_eq!(out.get("ANTHROPIC_BASE_URL").map(|s| s.as_str()), Some("http://h"));
    match apply_detected_model("l", &c, Err("boom".to_string())) {
        Err(AppError::Other(m)) => assert_eq!(m, "Failed to auto-detect model for profile \"l\":\n  boom"),
        _ => panic!("error expected"),
    }
}

#[test]
fn models_url_spellings() {
    assert_eq!(models_url("http://h:8080"), "http://h:8080/v1/models");
    assert_eq!(models_url(" http://h:8080/ "), "http://h:8080/v1/models");
    assert_eq!(models_url("http://h:8080/v1"), "http://h:8080/v1/models");
    assert_eq!(models_url("http://h:8080/v1//"), "http://h:8080/v1/models");
}

#[test]
fn listing_of_saved_credentials() {
    let mut all = StrMap::new();
    all.insert(
        "b".to_string(),
        cred("Beta", "deepseek", &[("ANTHROPIC_AUTH_TOKEN", "sk-12345678"), ("ANTHROPIC_DEFAULT_SONNET_MODEL", "m1")], false),
    );
    all.insert("a".to_string(), cred("Alpha", "custom-x", &[("ANTHROPIC_BASE_URL", "http://u")], false));
    let lines = list_credentials(&all);
    let expected: Vec<String> = vec![
        "",
        "  \x1b[1mAlpha\x1b[0m \x1b[2m[a]\x1b[0m",
        "    Provider: \x1b[36mcustom-x\x1b[0m",
        "    Base URL: http://u",
        "    API Key:  not set",
        "",
        "  \x1b[1mBeta\x1b[0m \x1b[2m[b]\x1b[0m",
        "    Provider: \x1b[36mDeepSeek\x1b[0m",
        "    Base URL: not set",
        "    API Key:  ****5678",
        "    Sonnet:   m1",
        "",
    ]
    .into_iter()
    .map(|s| s.to_string())
    .collect();
    assert_eq!(lines, expected);
    assert!(list_credentials(&StrMap::new()).is_empty());
}

fn obj(members: Vec<(&str, JsonValue)>) -> JsonValue {
    JsonValue::Object(members.into_iter().map(|(k, v)| (k.to_string(), v)).collect())
}

#[test]
fn first_listed_model_is_used() {
    let body = obj(vec![(
        "data",
        JsonValue::Array(vec![
            obj(vec![("id", JsonValue::Str("qwen3-coder".to_string())), ("object", JsonValue::Str("model".to_string()))]),
            obj(vec![("id", JsonValue::Str("other".to_string()))]),
        ]),
    )]);
    assert_eq!(model_from_listing("http://localhost:8080/v1/models", &body), Ok("qwen3-coder".to_string()));
}

#[test]
fn empty_model_listing_is_an_error() {
    let url = "http://localhost:8080/v1/models";
    let expected = Err("No model id found in http://localhost:8080/v1/models (server returned an empty model list)".to_string());
    assert_eq!(model_from_listing(url, &obj(vec![("data", JsonValue::Array(vec![]))])), expected);
    assert_eq!(model_from_listing(url, &obj(vec![("models", JsonValue::Array(vec![]))])), expected);
    let numeric_id = obj(vec![("data", JsonValue::Array(vec![obj(vec![("id", JsonValue::Number("7".to_string()))])]))]);
    assert_eq!(model_from_listing(url, &numeric_id), expected);
    assert_eq!(model_from_listing(url, &JsonValue::Null), expected);
}
