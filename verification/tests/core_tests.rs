use provider_launcher::config::{
    credential_summary, get_credential, is_maskable, mask_secret, remove_credential, rename_credential,
    save_credential, slugify_name, Config, Credential,
};
use provider_launcher::slug::{decimal_string, slugify, unique_slug};
use provider_launcher::strmap::StrMap;
use provider_launcher::text::{join, sort_strings, split_char, trim};

fn cred(name: &str, provider: &str, env: &[(&str, &str)]) -> Credential {
    let mut m = StrMap::new();
    for (k, v) in env {
        m.insert(k.to_string(), v.to_string());
    }
    Credential { name: name.to_string(), provider: provider.to_string(), env: m, statusline_enabled: false }
}

#[test]
fn slug_lowercases_and_collapses_separators() {
    assert_eq!(slugify("My Profile!"), "my-profile");
    assert_eq!(slugify("  --A__b  "), "a-b");
    assert_eq!(slugify("DeepSeek (work) #2"), "deepseek-work-2");
}

#[test]
fn slug_of_symbols_only_is_empty() {
    assert_eq!(slugify("!!!"), "");
    assert_eq!(slugify(""), "");
    assert_eq!(slugify_name("--"), "");
}

#[test]
fn slug_is_idempotent_on_examples() {
    for s in ["Hello World", "a--b", "x_y z", "Ünïcode Name"] {
        let once = slugify(s);
        assert_eq!(slugify(&once), once);
    }
}

#[test]
fn decimal_text_of_numbers() {
    assert_eq!(decimal_string(0), "0");
    assert_eq!(decimal_string(7), "7");
    assert_eq!(decimal_string(120), "120");
    assert_eq!(decimal_string(98765), "98765");
}

#[test]
fn unique_slug_keeps_a_free_slug() {
    let taken: StrMap<String> = StrMap::new();
    assert_eq!(unique_slug("work", &taken), "work");
}

#[test]
fn unique_slug_numbers_from_two() {
    let mut taken: StrMap<u8> = StrMap::new();
    taken.insert("work".to_string(), 0);
    assert_eq!(unique_slug("work", &taken), "work-2");
    taken.insert("work-2".to_string(), 0);
    taken.insert("work-3".to_string(), 0);
    assert_eq!(unique_slug("work", &taken), "work-4");
}

#[test]
fn save_then_get_returns_the_saved_credentials() {
    let mut config = Config::default();
    save_credential(&mut config, "a", cred("Alpha", "deepseek", &[("K", "v")]));
    let got = get_credential(config, "a").expect("saved");
    assert_eq!(got.name, "Alpha");
    assert_eq!(got.provider, "deepseek");
    assert_eq!(got.env.get("K").map(|s| s.as_str()), Some("v"));
}

#[test]
fn remove_then_get_finds_nothing() {
    let mut config = Config::default();
    save_credential(&mut config, "a", cred("Alpha", "deepseek", &[]));
    save_credential(&mut config, "b", cred("Beta", "zai", &[]));
    remove_credential(&mut config, "a");
    assert!(config.credentials.get("a").is_none());
    assert_eq!(config.credentials.get("b").map(|c| c.name.as_str()), Some("Beta"));
}

#[test]
fn rename_moves_credentials_to_the_new_slug() {
    let mut config = Config::default();
    save_credential(&mut config, "old", cred("Old", "zai", &[]));
    save_credential(&mut config, "other", cred("Other", "zai", &[]));
    rename_credential(&mut config, "old", "new", cred("New", "zai", &[]));
    assert!(config.credentials.get("old").is_none());
    assert_eq!(config.credentials.get("new").map(|c| c.name.as_str()), Some("New"));
    assert_eq!(config.credentials.get("other").map(|c| c.name.as_str()), Some("Other"));
    assert_eq!(config.credentials.len(), 2);
}

#[test]
fn save_to_a_free_slug_then_remove_restores() {
    let mut config = Config::default();
    save_credential(&mut config, "x", cred("X", "zai", &[]));
    save_credential(&mut config, "y", cred("Y", "zai", &[]));
    remove_credential(&mut config, "y");
    assert_eq!(config.credentials.len(), 1);
    assert!(config.credentials.contains_key("x"));
}

#[test]
fn mask_keeps_last_four() {
    assert_eq!(mask_secret("sk-abcdef123456"), "****3456");
    assert_eq!(mask_secret("abcd"), "****");
    assert_eq!(mask_secret("ab"), "****");
    assert_eq!(mask_secret(""), "****");
}

#[test]
fn maskable_needs_a_character_boundary() {
    assert!(is_maskable("abcdefgh"));
    assert!(is_maskable("abc"));
    assert!(is_maskable("ééé"));
    assert!(!is_maskable("aaaaé€"));
}

#[test]
fn summary_shows_provider_and_masked_token() {
    let c = cred("A", "deepseek", &[("ANTHROPIC_AUTH_TOKEN", "sk-1234567890")]);
    assert_eq!(credential_summary(&c), "deepseek · ****7890");
    let d = cred("B", "ollama", &[]);
    assert_eq!(credential_summary(&d), "ollama · no key");
}

#[test]
fn text_helpers() {
    assert_eq!(trim("  a b \t"), "a b");
    let parts = split_char("a,,b", ',');
    assert_eq!(parts, vec!["a".to_string(), "".to_string(), "b".to_string()]);
    assert_eq!(join(&parts, "+"), "a++b");
    let sorted = sort_strings(vec!["b".to_string(), "a".to_string(), "ab".to_string(), "B".to_string()]);
    assert_eq!(sorted, vec!["B".to_string(), "a".to_string(), "ab".to_string(), "b".to_string()]);
}

#[test]
fn strmap_insert_keeps_position_and_replaces() {
    let mut m: StrMap<u32> = StrMap::new();
    m.insert("b".to_string(), 1);
    m.insert("a".to_string(), 2);
    m.insert("b".to_string(), 3);
    let keys: Vec<&str> = m.pairs().iter().map(|(k, _)| k.as_str()).collect();
    assert_eq!(keys, vec!["b", "a"]);
    assert_eq!(m.get("b"), Some(&3));
    assert_eq!(m.remove("a"), Some(2));
    assert_eq!(m.len(), 1);
}
