//! The listing of saved credentials printed by `list`.

use vstd::prelude::*;
use crate::config::{mask_secret, mask_secret_spec, Credential};
use crate::providers::{find_provider_spec, get_provider, ENV_AUTH_TOKEN, ENV_BASE_URL, ENV_SONNET_MODEL};
use crate::strmap::{lists_keys_sorted, sorted_keys, StrMap};
use crate::text::{append_str, to_owned_string, views};
use crate::tui::screens::launch::all_maskable;

verus! {

broadcast use vstd::string::group_string_axioms;

/// The value of `key` in `c`'s environment, or `fallback`.
pub open spec fn env_or(c: Credential, key: Seq<char>, fallback: Seq<char>) -> Seq<char> {
    if c.env@.contains_key(key) {
        c.env@[key]@
    } else {
        fallback
    }
}

/// The provider's display name, or its id when it is not built in.
pub open spec fn provider_label(c: Credential) -> Seq<char> {
    match find_provider_spec(c.provider@) {
        Some(p) => p.name,
        None => c.provider@,
    }
}

/// The lines printed for credentials `c` under `slug`: name and slug,
/// provider, base URL, masked key, the Sonnet model when set, and a blank
/// line.
pub open spec fn entry_lines(slug: Seq<char>, c: Credential) -> Seq<Seq<char>> {
    let head = seq![
        "  \x1b[1m"@ + c.name@ + "\x1b[0m \x1b[2m["@ + slug + "]\x1b[0m"@,
        "    Provider: \x1b[36m"@ + provider_label(c) + "\x1b[0m"@,
        "    Base URL: "@ + env_or(c, ENV_BASE_URL@, "not set"@),
        "    API Key:  "@ + (if c.env@.contains_key(ENV_AUTH_TOKEN@) {
            mask_secret_spec(c.env@[ENV_AUTH_TOKEN@]@)
        } else {
            "not set"@
        }),
    ];
    let model = if c.env@.contains_key(ENV_SONNET_MODEL@) {
        seq!["    Sonnet:   "@ + c.env@[ENV_SONNET_MODEL@]@]
    } else {
        Seq::empty()
    };
    head + model + seq![Seq::<char>::empty()]
}

/// The lines for the first `n` slugs, after a leading blank line.
pub open spec fn listing(slugs: Seq<Seq<char>>, all: Map<Seq<char>, Credential>, n: int) -> Seq<Seq<char>>
    decreases n,
{
    if n <= 0 {
        seq![Seq::<char>::empty()]
    } else {
        listing(slugs, all, n - 1) + entry_lines(slugs[n - 1], all[slugs[n - 1]])
    }
}

fn entry(slug: &str, c: &Credential) -> (r: Vec<String>)
    requires
        crate::config::token_maskable(*c),
    ensures
        views(r@) == entry_lines(slug@, *c),
{
    let mut l1 = to_owned_string("  \x1b[1m");
    append_str(&mut l1, c.name.as_str());
    append_str(&mut l1, "\x1b[0m \x1b[2m[");
    append_str(&mut l1, slug);
    append_str(&mut l1, "]\x1b[0m");
    let mut l2 = to_owned_string("    Provider: \x1b[36m");
    match get_provider(c.provider.as_str()) {
        Some(p) => append_str(&mut l2, p.name),
        None => append_str(&mut l2, c.provider.as_str()),
    }
    append_str(&mut l2, "\x1b[0m");
    let mut l3 = to_owned_string("    Base URL: ");
    match c.env.get(ENV_BASE_URL) {
        Some(u) => append_str(&mut l3, u.as_str()),
        None => append_str(&mut l3, "not set"),
    }
    let mut l4 = to_owned_string("    API Key:  ");
    match c.env.get(ENV_AUTH_TOKEN) {
        Some(t) => {
            let m = mask_secret(t.as_str());
            append_str(&mut l4, m.as_str());
        },
        None => append_str(&mut l4, "not set"),
    }
    let mut r: Vec<String> = Vec::new();
    r.push(l1);
    r.push(l2);
    r.push(l3);
    r.push(l4);
    match c.env.get(ENV_SONNET_MODEL) {
        Some(m) => {
            let mut l5 = to_owned_string("    Sonnet:   ");
            append_str(&mut l5, m.as_str());
            r.push(l5);
        },
        None => {},
    }
    r.push(String::new());
    proof {
        let e = entry_lines(slug@, *c);
        assert(views(r@) =~= e);
    }
    r
}

/// The lines `list` prints for the saved credentials `all`, ascending by
/// slug (see `listing`); none when nothing is saved.
pub fn list_credentials(all: &StrMap<Credential>) -> (r: Vec<String>)
    requires
        all_maskable(all@),
    ensures
        all@.len() == 0 ==> r@.len() == 0,
        all@.len() > 0 ==> exists|s: Seq<Seq<char>>|
            lists_keys_sorted(s, all) && views(r@) == listing(s, all@, s.len() as int),
{
    let slugs = sorted_keys(all);
    if slugs.len() == 0 {
        return Vec::new();
    }
    let ghost s = views(slugs@);
    let mut out: Vec<String> = Vec::new();
    out.push(String::new());
    let mut i: usize = 0;
    while i < slugs.len()
        invariant
            s == views(slugs@),
            lists_keys_sorted(s, all),
            all_maskable(all@),
            0 <= i <= slugs@.len(),
            views(out@) == listing(s, all@, i as int),
        decreases slugs.len() - i,
    {
        assert(all@.contains_key(s[i as int]));
        let c = all.get(slugs[i].as_str()).unwrap();
        let lines = entry(slugs[i].as_str(), c);
        let ghost before = views(out@);
        let mut k: usize = 0;
        while k < lines.len()
            invariant
                0 <= k <= lines@.len(),
                views(out@) == before + views(lines@).take(k as int),
            decreases lines.len() - k,
        {
            let ghost b2 = views(out@);
            out.push(lines[k].clone());
            proof {
                assert(views(out@) =~= b2.push(lines@[k as int]@));
                assert(views(lines@)[k as int] == lines@[k as int]@);
                assert(views(lines@).take(k + 1) =~= views(lines@).take(k as int).push(views(lines@)[k as int]));
                assert(views(out@) =~= before + views(lines@).take(k + 1));
            }
            k += 1;
        }
        assert(views(lines@).take(lines@.len() as int) =~= views(lines@));
        i += 1;
    }
    assert(lists_keys_sorted(s, all) && views(out@) == listing(s, all@, s.len() as int));
    out
}

} // verus!
