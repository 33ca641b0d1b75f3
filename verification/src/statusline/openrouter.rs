//! OpenRouter: remaining credit or usage.

use vstd::prelude::*;
use crate::text::{append_str, to_owned_string};
use super::cache_is_fresh_spec;

verus! {

broadcast use vstd::string::group_string_axioms;

/// A balance remembered for a session.
pub struct CacheEntry {
    pub balance: String,
    pub timestamp: i64,
}

/// The cached balance to show at `now`, if there is a fresh one.
pub fn cached_balance(entry: Option<CacheEntry>, now: i64) -> (r: Option<String>)
    requires
        entry matches Some(e) ==> i64::MIN <= now - e.timestamp <= i64::MAX,
    ensures
        r == match entry {
            Some(e) => if cache_is_fresh_spec(now, e.timestamp) {
                Some(e.balance)
            } else {
                None
            },
            None => None,
        },
{
    match entry {
        Some(e) => if super::cache_is_fresh(now, e.timestamp) {
            Some(e.balance)
        } else {
            None
        },
        None => None,
    }
}

/// The next step of finding the balance to show: fetch the account credit
/// with the management key, fetch the key's own limit or usage with the auth
/// token, or finish with what was found.
pub enum FetchStep {
    FetchCredits(String),
    FetchKeyInfo(String),
    Finish(Option<String>),
}

/// The first step: the management key's account credit is preferred; with
/// no management key, the auth token's key information; with neither,
/// nothing is shown.
pub fn first_step(management_key: &Option<String>, token: &Option<String>) -> (r: FetchStep)
    ensures
        match management_key {
            Some(m) => r matches FetchStep::FetchCredits(k) && k@ == m@,
            None => match token {
                Some(t) => r matches FetchStep::FetchKeyInfo(k) && k@ == t@,
                None => r matches FetchStep::Finish(None),
            },
        },
{
    match management_key {
        Some(m) => FetchStep::FetchCredits(m.clone()),
        None => match token {
            Some(t) => FetchStep::FetchKeyInfo(t.clone()),
            None => FetchStep::Finish(None),
        },
    }
}

/// The step after fetching the account credit: its text when it arrived,
/// otherwise the key information (when there is a token) or nothing.
pub fn after_credits(result: Result<String, String>, token: &Option<String>) -> (r: FetchStep)
    ensures
        match result {
            Ok(b) => r matches FetchStep::Finish(Some(x)) && x@ == b@,
            Err(_) => match token {
                Some(t) => r matches FetchStep::FetchKeyInfo(k) && k@ == t@,
                None => r matches FetchStep::Finish(None),
            },
        },
{
    match result {
        Ok(b) => FetchStep::Finish(Some(b)),
        Err(_) => match token {
            Some(t) => FetchStep::FetchKeyInfo(t.clone()),
            None => FetchStep::Finish(None),
        },
    }
}

/// The step after fetching the key information: finish with its text, or
/// with nothing when the fetch failed.
pub fn after_key_info(result: Result<String, String>) -> (r: FetchStep)
    ensures
        match result {
            Ok(b) => r matches FetchStep::Finish(Some(x)) && x@ == b@,
            Err(_) => r matches FetchStep::Finish(None),
        },
{
    match result {
        Ok(b) => FetchStep::Finish(Some(b)),
        Err(_) => FetchStep::Finish(None),
    }
}

/// `<provider> | <detail, or Balance: -->`.
pub open spec fn format_statusline_spec(provider_name: Seq<char>, detail: Option<Seq<char>>) -> Seq<char> {
    provider_name + " | "@ + match detail {
        Some(d) => d,
        None => "Balance: --"@,
    }
}

/// The status line text.
pub fn format_statusline(provider_name: &str, detail: Option<&str>) -> (r: String)
    ensures
        r@ == format_statusline_spec(provider_name@, match detail {
            Some(d) => Some(d@),
            None => None,
        }),
{
    let mut r = to_owned_string(provider_name);
    append_str(&mut r, " | ");
    match detail {
        Some(d) => append_str(&mut r, d),
        None => append_str(&mut r, "Balance: --"),
    }
    r
}

} // verus!
