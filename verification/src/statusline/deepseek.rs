//! DeepSeek: account balance and peak-hour pricing.

use vstd::prelude::*;
use std::cmp::Ordering;
use itertools::Itertools;
use crate::text::{append_str, join, join_spec, lemma_lex_lt_order, lex_le, lex_lt, str_lt, to_owned_string, views};
use super::cache_is_fresh_spec;

verus! {

broadcast use vstd::string::group_string_axioms;

/// A balance remembered for a session.
pub struct CacheEntry {
    pub balance: String,
    pub timestamp: i64,
}

/// The cached balance to show at `now`, if there is a fresh one.
pub fn cached_balance(entry: Option<CacheEntry>, now: i64) -> (r: Option<String>)
    requires
        entry matches Some(e) ==> i64::MIN <= now - e.timestamp <= i64::MAX,
    ensures
        r == match entry {
            Some(e) => if cache_is_fresh_spec(now, e.timestamp) {
                Some(e.balance)
            } else {
                None
            },
            None => None,
        },
{
    match entry {
        Some(e) => if super::cache_is_fresh(now, e.timestamp) {
            Some(e.balance)
        } else {
            None
        },
        None => None,
    }
}

/// Peak hours in Beijing time: 09:00-12:00 and 14:00-18:00.
pub open spec fn is_peak_hour_spec(hour: i8) -> bool {
    (9 <= hour < 12) || (14 <= hour < 18)
}

/// Whether `hour` (Beijing time) falls within peak hours.
pub fn is_peak_hour(hour: i8) -> (r: bool)
    ensures
        r == is_peak_hour_spec(hour),
{
    (hour >= 9 && hour < 12) || (hour >= 14 && hour < 18)
}

/// The hour of the day (0..=23) in Beijing at `t` seconds since the Unix
/// epoch. Beijing time is UTC+8 all year: China has kept no daylight saving
/// since 1991, so this agrees with the Asia/Shanghai zone for any time the
/// clock can show today.
pub open spec fn beijing_hour_spec(t: int) -> int {
    ((t + 28800) % 86400) / 3600
}

/// The Beijing hour at `t` seconds since the Unix epoch.
pub fn beijing_hour(t: i64) -> (r: i8)
    ensures
        r == beijing_hour_spec(t as int),
        0 <= r <= 23,
{
    // A whole number of days added first keeps the value non-negative for
    // every `t`, and leaves its remainder by a day unchanged.
    let x: i128 = t as i128 + 28800 + 86400 * 106751991167301;
    proof {
        vstd::arithmetic::div_mod::lemma_mod_multiples_vanish(106751991167301, t + 28800, 86400);
        assert(x % 86400 == (t + 28800) % 86400);
    }
    let xu: u128 = x as u128;
    let m: u128 = xu % 86400;
    let h: u128 = m / 3600;
    assert(h < 24) by (nonlinear_arith)
        requires
            m < 86400,
            h == m / 3600,
    ;
    h as i8
}

/// Law: the Beijing hour is the UTC hour of `t` moved on by eight, around the
/// clock: `(t div 3600 + 8) mod 24`, so it is the same one day later and
/// steps by one each hour; peak time is that hour in 9..12 or 14..18.
pub proof fn lemma_beijing_hour_is_utc_plus_eight(t: int)
    ensures
        beijing_hour_spec(t) == (t / 3600 + 8) % 24,
        is_peak_at_spec(t) == ({
            let h = (t / 3600 + 8) % 24;
            (9 <= h < 12) || (14 <= h < 18)
        }),
        0 <= beijing_hour_spec(t) < 24,
        beijing_hour_spec(t + 86400) == beijing_hour_spec(t),
        beijing_hour_spec(t + 3600) == (beijing_hour_spec(t) + 1) % 24,
{
    lemma_beijing_hour_formula(t);
    lemma_beijing_hour_formula(t + 86400);
    lemma_beijing_hour_formula(t + 3600);
    let q = t / 3600;
    vstd::arithmetic::div_mod::lemma_fundamental_div_mod(t, 3600);
    vstd::arithmetic::div_mod::lemma_fundamental_div_mod_converse(t + 86400, 3600, q + 24, t % 3600);
    vstd::arithmetic::div_mod::lemma_fundamental_div_mod_converse(t + 3600, 3600, q + 1, t % 3600);
    let h = (q + 8) % 24;
    let p = (q + 8) / 24;
    vstd::arithmetic::div_mod::lemma_fundamental_div_mod(q + 8, 24);
    vstd::arithmetic::div_mod::lemma_fundamental_div_mod_converse(q + 24 + 8, 24, p + 1, h);
    if h < 23 {
        vstd::arithmetic::div_mod::lemma_fundamental_div_mod_converse(q + 1 + 8, 24, p, h + 1);
    } else {
        vstd::arithmetic::div_mod::lemma_fundamental_div_mod_converse(q + 1 + 8, 24, p + 1, 0);
    }
}

proof fn lemma_beijing_hour_formula(t: int)
    ensures
        beijing_hour_spec(t) == (t / 3600 + 8) % 24,
        0 <= beijing_hour_spec(t) < 24,
{
    let q = t / 3600;
    let r = t % 3600;
    vstd::arithmetic::div_mod::lemma_fundamental_div_mod(t, 3600);
    let h = (q + 8) % 24;
    let p = (q + 8) / 24;
    vstd::arithmetic::div_mod::lemma_fundamental_div_mod(q + 8, 24);
    assert(0 <= r < 3600);
    assert(0 <= h < 24);
    assert(t + 28800 == p * 86400 + (3600 * h + r)) by (nonlinear_arith)
        requires
            t == 3600 * q + r,
            q + 8 == 24 * p + h,
    ;
    vstd::arithmetic::div_mod::lemma_fundamental_div_mod_converse(t + 28800, 86400, p, 3600 * h + r);
    vstd::arithmetic::div_mod::lemma_fundamental_div_mod_converse(3600 * h + r, 3600, h, r);
}

/// Whether `t` seconds since the Unix epoch falls within Beijing peak hours.
pub open spec fn is_peak_at_spec(t: int) -> bool {
    is_peak_hour_spec(beijing_hour_spec(t) as i8)
}

/// Whether `t` seconds since the Unix epoch falls within Beijing peak hours.
pub fn is_peak_at(t: i64) -> (r: bool)
    ensures
        r == is_peak_at_spec(t as int),
{
    is_peak_hour(beijing_hour(t))
}

/// Seconds since the Unix epoch, read from the system clock with jiff's
/// `Timestamp::now().as_second()`. Nothing is stated of the value: it is
/// the time. jiff panics only when the clock lies outside the years
/// -9999..=9999.
#[verifier::external_body]
fn unix_now() -> (r: i64) {
    jiff::Timestamp::now().as_second()
}

/// Whether it is now peak hours in Beijing: `is_peak_at` of the clock's
/// current reading.
pub fn is_peak_hours() -> (r: bool)
    ensures
        exists|t: i64| r == is_peak_at_spec(t as int),
{
    let t = unix_now();
    is_peak_at(t)
}

/// `r` is what crossterm writes for `s` styled red: the colour codes around
/// `s` when colours are on; empty parameter lists around it when they are
/// off (`NO_COLOR` set, or switched off for the process); nothing at all on
/// a Windows console without ANSI support, where styled content is handed
/// to the console instead of being written.
pub open spec fn styled_red(r: Seq<char>, s: Seq<char>) -> bool {
    ||| r == "\x1b[38;5;9m"@ + s + "\x1b[39m"@
    ||| r == "\x1b[m"@ + s + "\x1b[m"@
    ||| r.len() == 0
}

/// `r` is what crossterm writes for `s` with no style: `s` itself, or
/// nothing on a Windows console without ANSI support.
pub open spec fn styled_plain(r: Seq<char>, s: Seq<char>) -> bool {
    r == s || r.len() == 0
}

/// Calls crossterm's `Stylize::red` on `s` and formats the styled content.
/// Which of the outcomes of `styled_red` comes back depends on the
/// environment and the console, so only that one of them does is stated.
#[verifier::external_body]
fn red_text(s: &str) -> (r: String)
    ensures
        styled_red(r@, s@),
{
    format!("{}", crossterm::style::Stylize::red(crossterm::style::Stylize::stylize(s)))
}

/// Calls crossterm's `Stylize::stylize` on `s` and formats it. Which of the
/// outcomes of `styled_plain` comes back depends on the console.
#[verifier::external_body]
fn plain_text(s: &str) -> (r: String)
    ensures
        styled_plain(r@, s@),
{
    format!("{}", crossterm::style::Stylize::stylize(s))
}

/// `<provider> | Balance: <balance or --> | <peak text>`.
pub open spec fn statusline_text_spec(provider_name: Seq<char>, balance: Option<Seq<char>>, peak_text: Seq<char>) -> Seq<
    char,
> {
    provider_name + " | Balance: "@ + match balance {
        Some(b) => b,
        None => "--"@,
    } + " | "@ + peak_text
}

/// The status line with the peak text already styled.
pub fn statusline_text(provider_name: &str, balance: Option<&str>, peak_text: &str) -> (r: String)
    ensures
        r@ == statusline_text_spec(provider_name@, match balance {
            Some(b) => Some(b@),
            None => None,
        }, peak_text@),
{
    let mut r = to_owned_string(provider_name);
    append_str(&mut r, " | Balance: ");
    match balance {
        Some(b) => append_str(&mut r, b),
        None => append_str(&mut r, "--"),
    }
    append_str(&mut r, " | ");
    append_str(&mut r, peak_text);
    r
}

/// The status line: "Peak" in red during peak hours, "Off-Peak" otherwise,
/// each as crossterm renders it.
pub fn format_statusline(provider_name: &str, balance: Option<&str>, peak: bool) -> (r: String)
    ensures
        exists|t: Seq<char>|
            {
                &&& peak ==> styled_red(t, "Peak"@)
                &&& !peak ==> styled_plain(t, "Off-Peak"@)
                &&& r@ == statusline_text_spec(provider_name@, match balance {
                    Some(b) => Some(b@),
                    None => None,
                }, t)
            },
{
    let t = if peak {
        red_text("Peak")
    } else {
        plain_text("Off-Peak")
    };
    statusline_text(provider_name, balance, t.as_str())
}

// ---- The balance text ----------------------------------------------------------------

/// The entries of `s` whose currency code is `k`, in order.
pub open spec fn with_code(s: Seq<(Seq<char>, Seq<char>)>, k: Seq<char>) -> Seq<(Seq<char>, Seq<char>)>
    decreases s.len(),
{
    if s.len() == 0 {
        s
    } else {
        let rest = with_code(s.drop_last(), k);
        if s.last().0 == k {
            rest.push(s.last())
        } else {
            rest
        }
    }
}

/// The entries ascend by currency code.
pub open spec fn ascending_codes(r: Seq<(Seq<char>, Seq<char>)>) -> bool {
    forall|i: int, j: int| 0 <= i < j < r.len() ==> lex_le(#[trigger] r[i].0, #[trigger] r[j].0)
}

/// `r` is `s` sorted by currency code, entries with the same code keeping
/// their order.
pub open spec fn stably_sorted(s: Seq<(Seq<char>, Seq<char>)>, r: Seq<(Seq<char>, Seq<char>)>) -> bool {
    &&& ascending_codes(r)
    &&& forall|k: Seq<char>| #[trigger] with_code(r, k) == with_code(s, k)
}

/// `s` sorted by currency code, stably (see `lemma_stably_sorted_unique`).
pub open spec fn sorted_by_code(s: Seq<(Seq<char>, Seq<char>)>) -> Seq<(Seq<char>, Seq<char>)> {
    choose|r: Seq<(Seq<char>, Seq<char>)>| stably_sorted(s, r)
}

/// The content of (currency code, amount) pairs.
pub open spec fn pairs_view(v: Seq<(String, String)>) -> Seq<(Seq<char>, Seq<char>)> {
    v.map_values(|p: (String, String)| (p.0@, p.1@))
}

/// Orders two entries by currency code, as `str::cmp` does.
fn compare_codes(a: &(String, String), b: &(String, String)) -> (r: Ordering)
    ensures
        r == Ordering::Less ==> lex_lt(a.0@, b.0@),
        r == Ordering::Equal ==> a.0@ == b.0@,
        r == Ordering::Greater ==> lex_lt(b.0@, a.0@),
{
    proof {
        lemma_lex_lt_order(a.0@, b.0@, a.0@);
    }
    if str_lt(a.0.as_str(), b.0.as_str()) {
        Ordering::Less
    } else if str_lt(b.0.as_str(), a.0.as_str()) {
        Ordering::Greater
    } else {
        Ordering::Equal
    }
}

/// Calls itertools' `sorted_by` with `compare_codes` and collects the
/// result. The crate documents the sort as stable: entries are put in
/// ascending order of the comparison, and entries it finds equal (the same
/// code) keep their order.
#[verifier::external_body]
fn sort_by_code(items: Vec<(String, String)>) -> (r: Vec<(String, String)>)
    ensures
        stably_sorted(pairs_view(items@), pairs_view(r@)),
{
    items.into_iter().sorted_by(|a, b| compare_codes(a, b)).collect()
}

proof fn lemma_with_code_member(s: Seq<(Seq<char>, Seq<char>)>, k: Seq<char>)
    requires
        with_code(s, k).len() > 0,
    ensures
        exists|i: int| 0 <= i < s.len() && s[i].0 == k,
    decreases s.len(),
{
    if s.last().0 != k {
        lemma_with_code_member(s.drop_last(), k);
        let i = choose|i: int| 0 <= i < s.drop_last().len() && s.drop_last()[i].0 == k;
        assert(s[i] == s.drop_last()[i]);
    }
}

/// Two sequences sorted by code with the same entries for every code are
/// the same.
proof fn lemma_same_classes_equal(r1: Seq<(Seq<char>, Seq<char>)>, r2: Seq<(Seq<char>, Seq<char>)>)
    requires
        ascending_codes(r1),
        ascending_codes(r2),
        forall|k: Seq<char>| #[trigger] with_code(r1, k) == with_code(r2, k),
    ensures
        r1 == r2,
    decreases r1.len() + r2.len(),
{
    if r1.len() == 0 && r2.len() == 0 {
        assert(r1 =~= r2);
        return;
    }
    if r1.len() == 0 {
        assert(with_code(r2, r2.last().0).len() > 0);
        assert(with_code(r1, r2.last().0).len() == 0);
        return;
    }
    if r2.len() == 0 {
        assert(with_code(r1, r1.last().0).len() > 0);
        assert(with_code(r2, r1.last().0).len() == 0);
        return;
    }
    let k1 = r1.last().0;
    let k2 = r2.last().0;
    assert(with_code(r2, k2).len() > 0);
    assert(with_code(r1, k2) == with_code(r2, k2));
    lemma_with_code_member(r1, k2);
    let i = choose|i: int| 0 <= i < r1.len() && r1[i].0 == k2;
    assert(with_code(r1, k1).len() > 0);
    assert(with_code(r2, k1) == with_code(r1, k1));
    lemma_with_code_member(r2, k1);
    let j = choose|j: int| 0 <= j < r2.len() && r2[j].0 == k1;
    if i < r1.len() - 1 {
        assert(lex_le(r1[i].0, r1[r1.len() - 1].0));
    }
    if j < r2.len() - 1 {
        assert(lex_le(r2[j].0, r2[r2.len() - 1].0));
    }
    lemma_lex_lt_order(k1, k2, k1);
    let a = r1.drop_last();
    let b = r2.drop_last();
    assert(with_code(r1, k1) == with_code(a, k1).push(r1.last()));
    assert(with_code(r2, k1) == with_code(b, k1).push(r2.last()));
    assert(r1.last() == with_code(r1, k1).last());
    assert(r2.last() == with_code(r2, k1).last());
    assert(with_code(a, k1) =~= with_code(r1, k1).drop_last());
    assert(with_code(b, k1) =~= with_code(r2, k1).drop_last());
    assert forall|k: Seq<char>| #[trigger] with_code(a, k) == with_code(b, k) by {
        if k != k1 {
            assert(with_code(r1, k) == with_code(a, k));
            assert(with_code(r2, k) == with_code(b, k));
        }
    }
    assert(ascending_codes(a)) by {
        assert forall|x: int, y: int| 0 <= x < y < a.len() implies lex_le(#[trigger] a[x].0, #[trigger] a[y].0) by {
            assert(a[x] == r1[x] && a[y] == r1[y]);
        }
    }
    assert(ascending_codes(b)) by {
        assert forall|x: int, y: int| 0 <= x < y < b.len() implies lex_le(#[trigger] b[x].0, #[trigger] b[y].0) by {
            assert(b[x] == r2[x] && b[y] == r2[y]);
        }
    }
    lemma_same_classes_equal(a, b);
    assert(r1 =~= a.push(r1.last()));
    assert(r2 =~= b.push(r2.last()));
}

/// A stable sort by currency code has one outcome.
pub proof fn lemma_stably_sorted_unique(
    s: Seq<(Seq<char>, Seq<char>)>,
    r1: Seq<(Seq<char>, Seq<char>)>,
    r2: Seq<(Seq<char>, Seq<char>)>,
)
    requires
        stably_sorted(s, r1),
        stably_sorted(s, r2),
    ensures
        r1 == r2,
{
    assert forall|k: Seq<char>| #[trigger] with_code(r1, k) == with_code(r2, k) by {
        assert(with_code(r1, k) == with_code(s, k));
        assert(with_code(r2, k) == with_code(s, k));
    }
    lemma_same_classes_equal(r1, r2);
}

/// One balance as shown: its amount (e.g. "110.00").
pub open spec fn entry_text(e: (Seq<char>, Seq<char>)) -> Seq<char> {
    e.1
}

/// The balances of (currency code, amount) entries: sorted by code, each
/// shown by `entry_text`, joined with " + ".
pub open spec fn balances_text_spec(entries: Seq<(Seq<char>, Seq<char>)>) -> Seq<char> {
    join_spec(sorted_by_code(entries).map_values(|e: (Seq<char>, Seq<char>)| entry_text(e)), " + "@)
}

/// The balances text for (currency code, amount) entries, e.g. "110.00",
/// or "110.00 + 5.00" for two currencies.
pub fn balances_text(entries: Vec<(String, String)>) -> (r: String)
    ensures
        r@ == balances_text_spec(pairs_view(entries@)),
{
    let ghost s = pairs_view(entries@);
    let sorted = sort_by_code(entries);
    proof {
        let c = sorted_by_code(s);
        assert(stably_sorted(s, c));
        lemma_stably_sorted_unique(s, pairs_view(sorted@), c);
    }
    let ghost want = sorted_by_code(s).map_values(|e: (Seq<char>, Seq<char>)| entry_text(e));
    let mut texts: Vec<String> = Vec::new();
    let mut i: usize = 0;
    while i < sorted.len()
        invariant
            0 <= i <= sorted@.len(),
            pairs_view(sorted@) == sorted_by_code(s),
            want == sorted_by_code(s).map_values(|e: (Seq<char>, Seq<char>)| entry_text(e)),
            views(texts@) == want.take(i as int),
        decreases sorted@.len() - i,
    {
        let e = &sorted[i];
        let t = e.1.clone();
        proof {
            assert(pairs_view(sorted@)[i as int] == (e.0@, e.1@));
            assert(t@ == want[i as int]);
        }
        let ghost before = texts@;
        let ghost tv = t@;
        texts.push(t);
        assert(views(texts@) =~= views(before).push(tv));
        assert(want.take(i + 1) =~= want.take(i as int).push(want[i as int]));
        i += 1;
    }
    assert(want.take(sorted@.len() as int) =~= want);
    join(&texts, " + ")
}

/// The DeepSeek balance line: "Balance unavailable" when the account says
/// so, else `balances_text` of the entries with a positive balance: the
/// amount as given, e.g. "110.00".
pub fn deepseek_balance(is_available: bool, positive: Vec<(String, String)>) -> (r: String)
    ensures
        r@ == if is_available {
            balances_text_spec(pairs_view(positive@))
        } else {
            "Balance unavailable"@
        },
{
    if !is_available {
        return to_owned_string("Balance unavailable");
    }
    balances_text(positive)
}

} // verus!
