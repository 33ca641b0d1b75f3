use provider_launcher::config::Credential;
use provider_launcher::error::AppError;
use provider_launcher::statusline::{
    cache_is_fresh, deepseek, deepseek_source, openrouter, openrouter_source, statusline_session, BalanceSource,
};
use provider_launcher::strmap::StrMap;

fn cred(provider: &str, entries: &[(&str, &str)]) -> Credential {
    let mut m = StrMap::new();
    for (k, v) in entries {
        m.insert(k.to_string(), v.to_string());
    }
    Credential { name: "N".to_string(), provider: provider.to_string(), env: m, statusline_enabled: true }
}

fn err(r: Result<provider_launcher::statusline::StatuslineSession, AppError>) -> String {
    match r {
        Err(AppError::Other(m)) => m,
        _ => panic!("error expected"),
    }
}

#[test]
fn session_errors() {
    assert_eq!(err(statusline_session("x", None, None)), "Profile \"x\" not found");
    assert_eq!(err(statusline_session("x", Some(cred("mystery", &[])), None)), "Unknown provider \"mystery\"");
    assert_eq!(
        err(statusline_session("x", Some(cred("zai", &[])), None)),
        "Provider \"z.ai (GLM)\" does not support status line"
    );
}

#[test]
fn session_takes_keys_and_non_empty_session_id() {
    let c = cred("openrouter", &[("ANTHROPIC_AUTH_TOKEN", "t"), ("OPENROUTER_MANAGEMENT_KEY", "m")]);
    let s = statusline_session("o", Some(c), Some("sid".to_string())).ok().unwrap();
    assert_eq!(s.provider.id, "openrouter");
    assert_eq!(s.token.as_deref(), Some("t"));
    assert_eq!(s.management_key.as_deref(), Some("m"));
    assert_eq!(s.session_id.as_deref(), Some("sid"));
    let s2 = statusline_session("o", Some(cred("deepseek", &[])), Some(String::new())).ok().unwrap();
    assert!(s2.session_id.is_none());
    assert!(s2.token.is_none());
}

#[test]
fn cache_is_fresh_for_a_minute() {
    assert!(cache_is_fresh(100, 40));
    assert!(!cache_is_fresh(100, 39));
    assert!(cache_is_fresh(100, 100));
}

#[test]
fn cached_balance_only_when_fresh() {
    let e = deepseek::CacheEntry { balance: "5 USD".to_string(), timestamp: 1000 };
    assert_eq!(deepseek::cached_balance(Some(e), 1060).as_deref(), Some("5 USD"));
    let old = deepseek::CacheEntry { balance: "5 USD".to_string(), timestamp: 1000 };
    assert!(deepseek::cached_balance(Some(old), 1061).is_none());
    let o = openrouter::CacheEntry { balance: "Balance: $1.00".to_string(), timestamp: 0 };
    assert_eq!(openrouter::cached_balance(Some(o), 60).as_deref(), Some("Balance: $1.00"));
    assert!(openrouter::cached_balance(None, 60).is_none());
}

#[test]
fn peak_hours_are_morning_and_afternoon() {
    let peak: Vec<i8> = (0..24).filter(|h| deepseek::is_peak_hour(*h)).collect();
    assert_eq!(peak, vec![9, 10, 11, 14, 15, 16, 17]);
}

#[test]
fn deepseek_status_text() {
    let off = deepseek::format_statusline("DeepSeek", Some("12.00"), false);
    assert!(["DeepSeek | Balance: 12.00 | Off-Peak", "DeepSeek | Balance: 12.00 | "].contains(&off.as_str()), "{off:?}");
    let peak = deepseek::format_statusline("DeepSeek", None, true);
    let forms = [
        "DeepSeek | Balance: -- | \x1b[38;5;9mPeak\x1b[39m",
        "DeepSeek | Balance: -- | \x1b[mPeak\x1b[m",
        "DeepSeek | Balance: -- | ",
    ];
    assert!(forms.contains(&peak.as_str()), "{peak:?}");
    assert_eq!(deepseek::statusline_text("DeepSeek", Some("1.00 ¥"), "P"), "DeepSeek | Balance: 1.00 ¥ | P");
}

#[test]
fn beijing_hours_from_the_clock() {
    assert_eq!(deepseek::beijing_hour(0), 8);
    assert_eq!(deepseek::beijing_hour(3600), 9);
    assert_eq!(deepseek::beijing_hour(-1), 7);
    assert_eq!(deepseek::beijing_hour(57600), 0);
    assert_eq!(deepseek::beijing_hour(i64::MIN), deepseek::beijing_hour(i64::MIN + 86400));
    assert!(!deepseek::is_peak_at(0));
    assert!(deepseek::is_peak_at(3600));
    assert!(deepseek::is_peak_at(6 * 3600));
    assert!(!deepseek::is_peak_at(4 * 3600));
}

#[test]
fn openrouter_status_text_and_steps() {
    assert_eq!(openrouter::format_statusline("OpenRouter", Some("Balance: $3.50")), "OpenRouter | Balance: $3.50");
    assert_eq!(openrouter::format_statusline("OpenRouter", None), "OpenRouter | Balance: --");
    let m = Some("m".to_string());
    let t = Some("t".to_string());
    assert!(matches!(openrouter::first_step(&m, &t), openrouter::FetchStep::FetchCredits(k) if k == "m"));
    assert!(matches!(openrouter::first_step(&None, &t), openrouter::FetchStep::FetchKeyInfo(k) if k == "t"));
    assert!(matches!(openrouter::first_step(&None, &None), openrouter::FetchStep::Finish(None)));
    assert!(matches!(openrouter::after_credits(Err("x".to_string()), &t), openrouter::FetchStep::FetchKeyInfo(_)));
    assert!(matches!(openrouter::after_credits(Ok("b".to_string()), &t), openrouter::FetchStep::Finish(Some(b)) if b == "b"));
    assert!(matches!(openrouter::after_key_info(Err("x".to_string())), openrouter::FetchStep::Finish(None)));
}

#[test]
fn balance_sources() {
    let t = Some("t".to_string());
    let s = Some("s".to_string());
    assert!(matches!(deepseek_source(&t, &s), BalanceSource::CachedFetch(x) if x == "s"));
    assert!(matches!(deepseek_source(&t, &None), BalanceSource::Fetch));
    assert!(matches!(deepseek_source(&None, &s), BalanceSource::Nothing));
    assert!(matches!(openrouter_source(&s, &None, &t), BalanceSource::CachedFetch(_)));
    assert!(matches!(openrouter_source(&s, &None, &None), BalanceSource::Nothing));
    assert!(matches!(openrouter_source(&None, &None, &None), BalanceSource::Fetch));
}

fn entries(v: &[(&str, &str)]) -> Vec<(String, String)> {
    v.iter().map(|(c, a)| (c.to_string(), a.to_string())).collect()
}

#[test]
fn balances_are_sorted_by_currency() {
    assert_eq!(deepseek::balances_text(entries(&[("CNY", "110.00")])), "110.00");
    let text = deepseek::balances_text(entries(&[("USD", "5.00"), ("CNY", "110.00")]));
    assert_eq!(text, "110.00 + 5.00");
}

#[test]
fn balances_with_one_currency_keep_their_order() {
    let text = deepseek::balances_text(entries(&[("USD", "2.00"), ("EUR", "1.00"), ("USD", "3.00")]));
    assert_eq!(text, "1.00 + 2.00 + 3.00");
    assert_eq!(deepseek::balances_text(Vec::new()), "");
}

#[test]
fn unavailable_balance() {
    assert_eq!(deepseek::deepseek_balance(false, entries(&[("CNY", "1.00")])), "Balance unavailable");
    assert_eq!(deepseek::deepseek_balance(true, entries(&[("CNY", "110.00")])), "110.00");
}
