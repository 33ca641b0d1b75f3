//! The status line shown by the launched CLI for providers that report an
//! account balance.
//!
//! Fetching balances (HTTP) and the per-session balance cache (LMDB) belong
//! to the application; this module decides which provider and keys a status
//! line uses, when a cached balance may be shown, and what the text is.

pub mod deepseek;
pub mod openrouter;

use vstd::prelude::*;
use crate::config::Credential;
use crate::error::{concat3, AppError};
use crate::providers::{find_provider_spec, get_provider, ProviderDef, ProviderView, ENV_AUTH_TOKEN, ENV_MANAGEMENT_KEY};
use crate::settings::opt_view;

verus! {

broadcast use vstd::string::group_string_axioms;

/// How long a cached balance is shown, in seconds.
pub const CACHE_TTL_SECS: i64 = 60;

/// A cached balance is shown when it is at most a minute old.
pub open spec fn cache_is_fresh_spec(now: i64, timestamp: i64) -> bool {
    now - timestamp <= CACHE_TTL_SECS
}

/// Whether a balance cached at `timestamp` may be shown at `now`.
pub fn cache_is_fresh(now: i64, timestamp: i64) -> (r: bool)
    requires
        i64::MIN <= now - timestamp <= i64::MAX,
    ensures
        r == cache_is_fresh_spec(now, timestamp),
{
    now - timestamp <= CACHE_TTL_SECS
}

/// What a status line for one credential works with.
pub struct StatuslineSession {
    pub provider: ProviderDef,
    /// The session the CLI reported on its input, used to key the cache.
    pub session_id: Option<String>,
    pub token: Option<String>,
    pub management_key: Option<String>,
}

/// The session id to key the cache with: the reported one, unless empty.
pub open spec fn session_key_spec(reported: Option<Seq<char>>) -> Option<Seq<char>> {
    match reported {
        Some(s) => if s.len() > 0 {
            Some(s)
        } else {
            None
        },
        None => None,
    }
}

/// The error text for a status line that cannot be made, if any: unknown
/// slug, unknown provider, or a provider without status line support.
pub open spec fn statusline_error_spec(slug: Seq<char>, cred: Option<Credential>) -> Option<Seq<char>> {
    match cred {
        None => Some("Profile \""@ + slug + "\" not found"@),
        Some(c) => match find_provider_spec(c.provider@) {
            None => Some("Unknown provider \""@ + c.provider@ + "\""@),
            Some(p) => if !p.supports_statusline {
                Some("Provider \""@ + p.name + "\" does not support status line"@)
            } else {
                None
            },
        },
    }
}

/// The value stored under `key` in a credential's environment, if any.
pub open spec fn env_value(c: Credential, key: Seq<char>) -> Option<Seq<char>> {
    if c.env@.contains_key(key) {
        Some(c.env@[key]@)
    } else {
        None
    }
}

fn env_get(c: &Credential, key: &str) -> (r: Option<String>)
    ensures
        opt_view(r) == env_value(*c, key@),
{
    match c.env.get(key) {
        Some(v) => Some(v.clone()),
        None => None,
    }
}

/// What the status line for `slug` works with: its credential (`cred`, as
/// looked up), the provider, the session the CLI reported, the auth token and
/// the management key. Fails for an unknown slug, an unknown provider, or a
/// provider that shows no status line.
pub fn statusline_session(slug: &str, cred: Option<Credential>, reported_session: Option<String>) -> (r: Result<
    StatuslineSession,
    AppError,
>)
    ensures
        match r {
            Ok(s) => {
                &&& statusline_error_spec(slug@, cred) is None
                &&& cred matches Some(c) && find_provider_spec(c.provider@) == Some(s.provider@)
                    && opt_view(s.token) == env_value(c, ENV_AUTH_TOKEN@)
                    && opt_view(s.management_key) == env_value(c, ENV_MANAGEMENT_KEY@)
                &&& opt_view(s.session_id) == session_key_spec(opt_view(reported_session))
            },
            Err(AppError::Other(m)) => statusline_error_spec(slug@, cred) == Some(m@),
            Err(_) => false,
        },
{
    let c = match cred {
        Some(c) => c,
        None => {
            return Err(AppError::Other(concat3("Profile \"", slug, "\" not found")));
        },
    };
    let provider = match get_provider(c.provider.as_str()) {
        Some(p) => p,
        None => {
            return Err(AppError::Other(concat3("Unknown provider \"", c.provider.as_str(), "\"")));
        },
    };
    if !provider.supports_statusline {
        return Err(AppError::Other(concat3("Provider \"", provider.name, "\" does not support status line")));
    }
    let token = env_get(&c, ENV_AUTH_TOKEN);
    let management_key = env_get(&c, ENV_MANAGEMENT_KEY);
    let session_id = match reported_session {
        Some(s) => if s.as_str().is_empty() {
            None
        } else {
            Some(s)
        },
        None => None,
    };
    Ok(StatuslineSession { provider, session_id, token, management_key })
}

} // verus!

verus! {

/// Where a status line's balance comes from.
pub enum BalanceSource {
    /// The cache of this session first; on a miss, a fetch whose result is
    /// stored there.
    CachedFetch(String),
    /// A fetch, without the cache.
    Fetch,
    /// No balance can be had.
    Nothing,
}

/// DeepSeek: with a token and a session, the session's cache then a fetch;
/// with a token alone, a fetch; without a token, nothing.
pub fn deepseek_source(token: &Option<String>, session_id: &Option<String>) -> (r: BalanceSource)
    ensures
        match (token, session_id) {
            (Some(_), Some(s)) => r matches BalanceSource::CachedFetch(x) && x@ == s@,
            (Some(_), None) => r is Fetch,
            _ => r is Nothing,
        },
{
    match (token, session_id) {
        (Some(_), Some(s)) => BalanceSource::CachedFetch(s.clone()),
        (Some(_), None) => BalanceSource::Fetch,
        _ => BalanceSource::Nothing,
    }
}

/// OpenRouter: with a session and a key of either kind, the session's cache
/// then a fetch; without a session, a fetch; with a session but no key,
/// nothing.
pub fn openrouter_source(session_id: &Option<String>, token: &Option<String>, management_key: &Option<String>) -> (r:
    BalanceSource)
    ensures
        match session_id {
            Some(s) => if token is Some || management_key is Some {
                r matches BalanceSource::CachedFetch(x) && x@ == s@
            } else {
                r is Nothing
            },
            None => r is Fetch,
        },
{
    match session_id {
        Some(s) => if token.is_some() || management_key.is_some() {
            BalanceSource::CachedFetch(s.clone())
        } else {
            BalanceSource::Nothing
        },
        None => BalanceSource::Fetch,
    }
}

} // verus!
