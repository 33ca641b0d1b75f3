//! Saved credentials: one entry per slug, each naming a provider and the
//! environment variables to launch with.
//!
//! Disk shape (read and written by the application):
//! `{ "credentials": { "<slug>": { "name": "...", "provider": "<id>", "env": {...} } } }`

use vstd::prelude::*;
use crate::strmap::StrMap;
use vstd::string::StringSliceAdditionalSpecFns;
use crate::text::{append_str, to_owned_string};

verus! {

broadcast use vstd::string::group_string_axioms;

/// A saved set of credentials for one provider.
pub struct Credential {
    pub name: String,
    pub provider: String,
    pub env: StrMap<String>,
    /// Whether launches add the provider's status line to the session.
    pub statusline_enabled: bool,
}

/// All saved credentials, keyed by slug.
pub struct Config {
    pub credentials: StrMap<Credential>,
}

impl Default for Config {
    fn default() -> (r: Self)
        ensures
            r.credentials@ == Map::<Seq<char>, Credential>::empty(),
    {
        Config { credentials: StrMap::new() }
    }
}

/// What a lookup of `slug` in `m` yields.
pub open spec fn lookup(m: Map<Seq<char>, Credential>, slug: Seq<char>) -> Option<Credential> {
    if m.contains_key(slug) {
        Some(m[slug])
    } else {
        None
    }
}

/// The credentials after saving `cred` under `slug`.
pub open spec fn saved(m: Map<Seq<char>, Credential>, slug: Seq<char>, cred: Credential) -> Map<
    Seq<char>,
    Credential,
> {
    m.insert(slug, cred)
}

/// The credentials after removing `slug`.
pub open spec fn removed(m: Map<Seq<char>, Credential>, slug: Seq<char>) -> Map<Seq<char>, Credential> {
    m.remove(slug)
}

/// The credentials after storing `cred` under `new_slug` in place of `old_slug`.
pub open spec fn renamed(
    m: Map<Seq<char>, Credential>,
    old_slug: Seq<char>,
    new_slug: Seq<char>,
    cred: Credential,
) -> Map<Seq<char>, Credential> {
    if old_slug != new_slug {
        m.remove(old_slug).insert(new_slug, cred)
    } else {
        m.insert(new_slug, cred)
    }
}

/// Every saved credential, keyed by slug.
pub fn get_all_credentials(config: Config) -> (r: StrMap<Credential>)
    ensures
        r@ == config.credentials@,
        r.seq() == config.credentials.seq(),
{
    config.credentials
}

/// The credential saved under `slug`, if any.
pub fn get_credential(config: Config, slug: &str) -> (r: Option<Credential>)
    ensures
        r == lookup(config.credentials@, slug@),
{
    let mut creds = config.credentials;
    creds.remove(slug)
}

/// Saves `cred` under `slug`, replacing what was there.
pub fn save_credential(config: &mut Config, slug: &str, cred: Credential)
    ensures
        final(config).credentials@ == saved(old(config).credentials@, slug@, cred),
{
    config.credentials.insert(to_owned_string(slug), cred);
}

/// Removes the credential saved under `slug`; nothing changes if there is none.
pub fn remove_credential(config: &mut Config, slug: &str)
    ensures
        final(config).credentials@ == removed(old(config).credentials@, slug@),
{
    let _ = config.credentials.remove(slug);
}

/// Stores `cred` under `new_slug`, dropping `old_slug` when the two differ.
pub fn rename_credential(config: &mut Config, old_slug: &str, new_slug: &str, cred: Credential)
    ensures
        final(config).credentials@ == renamed(old(config).credentials@, old_slug@, new_slug@, cred),
{
    if !crate::text::str_eq(old_slug, new_slug) {
        let _ = config.credentials.remove(old_slug);
    }
    config.credentials.insert(to_owned_string(new_slug), cred);
}

/// Law: a credential saved under a slug is what a lookup of that slug yields
/// afterwards, and every other slug keeps what it had.
pub proof fn lemma_save_then_get(m: Map<Seq<char>, Credential>, slug: Seq<char>, cred: Credential, other: Seq<char>)
    ensures
        lookup(saved(m, slug, cred), slug) == Some(cred),
        other != slug ==> lookup(saved(m, slug, cred), other) == lookup(m, other),
{
}

/// Law: after removing a slug, a lookup of it yields nothing, and every other
/// slug keeps what it had.
pub proof fn lemma_remove_then_get(m: Map<Seq<char>, Credential>, slug: Seq<char>, other: Seq<char>)
    ensures
        lookup(removed(m, slug), slug) == None::<Credential>,
        other != slug ==> lookup(removed(m, slug), other) == lookup(m, other),
{
}

/// Law: renaming makes the new slug yield the given credential, the old slug
/// yield nothing (when it differs), and leaves every other slug alone.
pub proof fn lemma_rename_then_get(
    m: Map<Seq<char>, Credential>,
    old_slug: Seq<char>,
    new_slug: Seq<char>,
    cred: Credential,
    other: Seq<char>,
)
    ensures
        lookup(renamed(m, old_slug, new_slug, cred), new_slug) == Some(cred),
        old_slug != new_slug ==> lookup(renamed(m, old_slug, new_slug, cred), old_slug) == None::<Credential>,
        other != old_slug && other != new_slug ==> lookup(renamed(m, old_slug, new_slug, cred), other) == lookup(
            m,
            other,
        ),
{
}

/// Law: saving under a slug that was free and then removing it gives back the
/// original credentials.
pub proof fn lemma_save_then_remove(m: Map<Seq<char>, Credential>, slug: Seq<char>, cred: Credential)
    requires
        !m.contains_key(slug),
    ensures
        removed(saved(m, slug, cred), slug) == m,
{
    assert(removed(saved(m, slug, cred), slug) =~= m);
}

/// The slug of a display name (see `crate::slug`).
pub fn slugify_name(name: &str) -> (r: String)
    ensures
        r@ == crate::slug::slug_spec(name@),
{
    crate::slug::slugify(name)
}

/// A secret can be masked: it has at most four bytes, or its last four
/// bytes start a character.
pub open spec fn maskable(value: Seq<char>) -> bool {
    let b = vstd::utf8::encode_utf8(value);
    b.len() <= 4 || vstd::utf8::is_char_boundary(b, b.len() - 4)
}

/// Whether `value` can be masked (see `maskable`).
pub fn is_maskable(value: &str) -> (r: bool)
    ensures
        r == maskable(value@),
{
    let n = value.as_bytes().len();
    n <= 4 || value.is_char_boundary(n - 4)
}

/// `****` and the last four bytes of `value` (the whole text is hidden when
/// it has four bytes or fewer).
pub open spec fn mask_secret_spec(value: Seq<char>) -> Seq<char> {
    let b = vstd::utf8::encode_utf8(value);
    if b.len() <= 4 {
        "****"@
    } else {
        "****"@ + vstd::utf8::decode_utf8(b.subrange(b.len() - 4, b.len() as int))
    }
}

/// `****` followed by the last four bytes of `value` (just `****` when the
/// value is four bytes or shorter). The four bytes must start a character.
pub fn mask_secret(value: &str) -> (r: String)
    requires
        maskable(value@),
    ensures
        r@ == mask_secret_spec(value@),
{
    let n = value.as_bytes().len();
    if n <= 4 {
        return to_owned_string("****");
    }
    let (_, tail) = value.split_at(n - 4);
    proof {
        vstd::utf8::encode_utf8_decode_utf8(tail@);
    }
    let mut r = to_owned_string("****");
    append_str(&mut r, tail);
    r
}

} // verus!

verus! {

/// The credential's auth token can be masked (or it has none).
pub open spec fn token_maskable(c: Credential) -> bool {
    c.env@.contains_key(crate::providers::ENV_AUTH_TOKEN@) ==> maskable(
        c.env@[crate::providers::ENV_AUTH_TOKEN@]@,
    )
}

/// How a credential is summed up in pickers: `<provider> · <masked token>`,
/// or `<provider> · no key`.
pub open spec fn summary_spec(c: Credential) -> Seq<char> {
    c.provider@ + " · "@ + if c.env@.contains_key(crate::providers::ENV_AUTH_TOKEN@) {
        mask_secret_spec(c.env@[crate::providers::ENV_AUTH_TOKEN@]@)
    } else {
        "no key"@
    }
}

/// The one-line summary of a credential (see `summary_spec`).
pub fn credential_summary(c: &Credential) -> (r: String)
    requires
        token_maskable(*c),
    ensures
        r@ == summary_spec(*c),
{
    let token = match c.env.get(crate::providers::ENV_AUTH_TOKEN) {
        Some(t) => mask_secret(t.as_str()),
        None => to_owned_string("no key"),
    };
    crate::error::concat3(c.provider.as_str(), " · ", token.as_str())
}

} // verus!
