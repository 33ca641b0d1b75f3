//! Fields stored inside the `CLAUDE_CODE_EXTRA_BODY` JSON object: placing a
//! value at a dot-separated path, reading it back, and converting between
//! form text and JSON values.

use vstd::prelude::*;
use crate::json::{json_view, members_view_inner, JsonValue, JsonView};
use crate::providers::ExtraBodyValueType;
use crate::slug::{decimal, decimal_string};
use crate::text::{
    append_str, chars_of, join, join_spec, spec_to_lowercase, split_char, split_spec, str_eq, string_from_range,
    to_lowercase, to_owned_string, trim, trim_spec, views,
};

verus! {

broadcast use vstd::string::group_string_axioms;

/// The content of an object's members.
pub open spec fn members_view(es: &Vec<(String, JsonValue)>) -> Seq<(Seq<char>, JsonView)> {
    members_view_inner(es)
}

// ---- Paths and members, as functions of the content --------------------------------

/// `i` is the first position of `c` in `s`.
pub open spec fn first_occ(s: Seq<char>, c: char, i: int) -> bool {
    0 <= i < s.len() && s[i] == c && forall|j: int| 0 <= j < i ==> s[j] != c
}

/// The path's first key (before the first `.`), and the rest after that `.`.
pub open spec fn split_path(path: Seq<char>) -> (Seq<char>, Option<Seq<char>>) {
    if exists|d: int| first_occ(path, '.', d) {
        let d = choose|d: int| first_occ(path, '.', d);
        (path.take(d), Some(path.skip(d + 1)))
    } else {
        (path, None)
    }
}

/// Member `i` is the first named `key`.
pub open spec fn is_first(es: Seq<(Seq<char>, JsonView)>, key: Seq<char>, i: int) -> bool {
    0 <= i < es.len() && es[i].0 == key && forall|j: int| 0 <= j < i ==> es[j].0 != key
}

/// The value of the first member named `key`.
pub open spec fn obj_lookup(es: Seq<(Seq<char>, JsonView)>, key: Seq<char>) -> Option<JsonView> {
    if exists|i: int| is_first(es, key, i) {
        Some(es[choose|i: int| is_first(es, key, i)].1)
    } else {
        None
    }
}

/// The members with the first member named `key` set to `v`, or with
/// `(key, v)` added last when there is none.
pub open spec fn obj_insert(es: Seq<(Seq<char>, JsonView)>, key: Seq<char>, v: JsonView) -> Seq<
    (Seq<char>, JsonView),
> {
    if exists|i: int| is_first(es, key, i) {
        es.update(choose|i: int| is_first(es, key, i), (key, v))
    } else {
        es.push((key, v))
    }
}

/// The object members after placing `v` at `path`: intermediate keys hold
/// objects (created, or replacing a non-object, as needed).
pub open spec fn set_path_spec(es: Seq<(Seq<char>, JsonView)>, path: Seq<char>, v: JsonView) -> Seq<
    (Seq<char>, JsonView),
>
    decreases path.len(),
{
    let (key, rest) = split_path(path);
    match rest {
        None => obj_insert(es, key, v),
        Some(r) => {
            let child = match obj_lookup(es, key) {
                Some(JsonView::Object(c)) => c,
                _ => Seq::empty(),
            };
            if r.len() < path.len() {
                obj_insert(es, key, JsonView::Object(set_path_spec(child, r, v)))
            } else {
                es
            }
        },
    }
}

/// The value found by following `path` from `v`, if every step exists.
pub open spec fn get_path_spec(v: JsonView, path: Seq<char>) -> Option<JsonView>
    decreases path.len(),
{
    let (key, rest) = split_path(path);
    match v {
        JsonView::Object(es) => match obj_lookup(es, key) {
            Some(child) => match rest {
                Some(r) => if r.len() < path.len() {
                    get_path_spec(child, r)
                } else {
                    None
                },
                None => Some(child),
            },
            None => None,
        },
        _ => None,
    }
}

proof fn lemma_first_occ_unique(s: Seq<char>, c: char, i: int, j: int)
    requires
        first_occ(s, c, i),
        first_occ(s, c, j),
    ensures
        i == j,
{
}

pub(crate) proof fn lemma_is_first_unique(es: Seq<(Seq<char>, JsonView)>, key: Seq<char>, i: int, j: int)
    requires
        is_first(es, key, i),
        is_first(es, key, j),
    ensures
        i == j,
{
}

/// With a dot at `d` first, the path splits there.
proof fn lemma_split_at(path: Seq<char>, d: int)
    requires
        first_occ(path, '.', d),
    ensures
        split_path(path) == (path.take(d), Some(path.skip(d + 1))),
        path.skip(d + 1).len() < path.len(),
{
    let c = choose|c: int| first_occ(path, '.', c);
    lemma_first_occ_unique(path, '.', c, d);
}

/// Looking a key up right after setting it yields the value set.
pub proof fn lemma_insert_then_lookup(es: Seq<(Seq<char>, JsonView)>, key: Seq<char>, v: JsonView)
    ensures
        obj_lookup(obj_insert(es, key, v), key) == Some(v),
{
    let es2 = obj_insert(es, key, v);
    if exists|i: int| is_first(es, key, i) {
        let i = choose|i: int| is_first(es, key, i);
        assert(is_first(es2, key, i));
        let c = choose|c: int| is_first(es2, key, c);
        lemma_is_first_unique(es2, key, c, i);
    } else {
        let n = es.len() as int;
        assert forall|j: int| 0 <= j < n implies es[j].0 != key by {
            if es[j].0 == key {
                // the earliest occurrence would be a first one
                lemma_exists_first(es, key, j);
            }
        }
        assert(is_first(es2, key, n));
        let c = choose|c: int| is_first(es2, key, c);
        lemma_is_first_unique(es2, key, c, n);
    }
}

proof fn lemma_exists_first(es: Seq<(Seq<char>, JsonView)>, key: Seq<char>, j: int)
    requires
        0 <= j < es.len(),
        es[j].0 == key,
    ensures
        exists|i: int| is_first(es, key, i),
    decreases j,
{
    if exists|k: int| 0 <= k < j && es[k].0 == key {
        let k = choose|k: int| 0 <= k < j && es[k].0 == key;
        lemma_exists_first(es, key, k);
    } else {
        assert(is_first(es, key, j));
    }
}

/// Law: reading a path right after writing a value at it yields that value.
pub proof fn lemma_set_then_get(es: Seq<(Seq<char>, JsonView)>, path: Seq<char>, v: JsonView)
    ensures
        get_path_spec(JsonView::Object(set_path_spec(es, path, v)), path) == Some(v),
    decreases path.len(),
{
    if exists|d: int| first_occ(path, '.', d) {
        let d = choose|d: int| first_occ(path, '.', d);
        lemma_split_at(path, d);
        let key = path.take(d);
        let r = path.skip(d + 1);
        let child = match obj_lookup(es, key) {
            Some(JsonView::Object(c)) => c,
            _ => Seq::empty(),
        };
        lemma_set_then_get(child, r, v);
        lemma_insert_then_lookup(es, key, JsonView::Object(set_path_spec(child, r, v)));
    } else {
        lemma_insert_then_lookup(es, path, v);
    }
}

// ---- Executable path operations --------------------------------------------------

/// Splits a path at its first `.`.
fn split_first_dot(path: &str) -> (r: (String, Option<String>))
    ensures
        split_path(path@) == (r.0@, match r.1 {
            Some(x) => Some(x@),
            None => None::<Seq<char>>,
        }),
{
    let cs = chars_of(path);
    let mut i: usize = 0;
    while i < cs.len()
        invariant
            cs@ == path@,
            0 <= i <= cs@.len(),
            forall|j: int| 0 <= j < i ==> cs@[j] != '.',
        decreases cs.len() - i,
    {
        if cs[i] == '.' {
            let key = string_from_range(&cs, 0, i);
            let rest = string_from_range(&cs, i + 1, cs.len());
            proof {
                assert(first_occ(path@, '.', i as int));
                lemma_split_at(path@, i as int);
                assert(path@.take(i as int) =~= cs@.subrange(0, i as int));
                assert(path@.skip(i + 1) =~= cs@.subrange(i + 1, cs@.len() as int));
            }
            return (key, Some(rest));
        }
        i += 1;
    }
    proof {
        assert(!exists|d: int| first_occ(path@, '.', d));
    }
    (to_owned_string(path), None)
}

/// Position of the first member named `key`, if any.
pub(crate) fn find_member(es: &Vec<(String, JsonValue)>, key: &str) -> (r: Option<usize>)
    ensures
        match r {
            Some(i) => is_first(members_view(es), key@, i as int),
            None => !exists|i: int| is_first(members_view(es), key@, i),
        },
{
    let ghost m = members_view(es);
    let mut i: usize = 0;
    while i < es.len()
        invariant
            m == members_view(es),
            m.len() == es@.len(),
            0 <= i <= es@.len(),
            forall|j: int| 0 <= j < i ==> m[j].0 != key@,
        decreases es.len() - i,
    {
        assert(m[i as int].0 == es@[i as int].0@);
        if str_eq(es[i].0.as_str(), key) {
            return Some(i);
        }
        i += 1;
    }
    proof {
        assert forall|k: int| !is_first(m, key@, k) by {}
    }
    None
}

/// Sets the first member named `key` to `value`, or adds it last.
fn obj_insert_exec(obj: &mut Vec<(String, JsonValue)>, key: String, value: JsonValue)
    ensures
        members_view(final(obj)) == obj_insert(members_view(old(obj)), key@, json_view(&value)),
{
    let ghost m = members_view(obj);
    let ghost kv = key@;
    let ghost vv = json_view(&value);
    match find_member(obj, key.as_str()) {
        Some(i) => {
            obj.set(i, (key, value));
            proof {
                let c = choose|c: int| is_first(m, kv, c);
                lemma_is_first_unique(m, kv, c, i as int);
                assert(members_view(obj) =~= m.update(i as int, (kv, vv)));
            }
        },
        None => {
            obj.push((key, value));
            proof {
                assert(members_view(obj) =~= m.push((kv, vv)));
            }
        },
    }
}

/// Places `value` at the dot-separated `path` inside the object members
/// `obj`, creating intermediate objects as needed (a non-object in the way is
/// replaced). E.g. "provider.only" yields `{"provider": {"only": value}}`.
pub fn set_nested_path(obj: &mut Vec<(String, JsonValue)>, path: &str, value: JsonValue)
    ensures
        members_view(final(obj)) == set_path_spec(members_view(old(obj)), path@, json_view(&value)),
    decreases path@.len(),
{
    let ghost m = members_view(obj);
    let ghost vv = json_view(&value);
    let (key, rest) = split_first_dot(path);
    match rest {
        None => {
            obj_insert_exec(obj, key, value);
        },
        Some(rest) => {
            proof {
                let d = choose|d: int| first_occ(path@, '.', d);
                lemma_split_at(path@, d);
            }
            match find_member(obj, key.as_str()) {
                Some(i) => {
                    let (k, child) = obj.remove(i);
                    let ghost child_view = json_view(&child);
                    let mut child_es: Vec<(String, JsonValue)> = match child {
                        JsonValue::Object(c) => c,
                        _ => Vec::new(),
                    };
                    let ghost ce = members_view(&child_es);
                    proof {
                        let c = choose|c: int| is_first(m, key@, c);
                        lemma_is_first_unique(m, key@, c, i as int);
                        assert(m[i as int] == (k@, child_view));
                        assert(ce == match obj_lookup(m, key@) {
                            Some(JsonView::Object(c)) => c,
                            _ => Seq::<(Seq<char>, JsonView)>::empty(),
                        }) by {
                            if child_view matches JsonView::Object(_) {
                            } else {
                                assert(ce =~= Seq::<(Seq<char>, JsonView)>::empty());
                            }
                        }
                    }
                    set_nested_path(&mut child_es, rest.as_str(), value);
                    let ghost new_child = JsonView::Object(members_view(&child_es));
                    obj.insert(i, (k, JsonValue::Object(child_es)));
                    proof {
                        let c = choose|c: int| is_first(m, key@, c);
                        lemma_is_first_unique(m, key@, c, i as int);
                        assert(json_view(&obj@[i as int].1) == new_child);
                        assert(members_view(obj) =~= m.update(i as int, (key@, new_child)));
                    }
                },
                None => {
                    let mut c: Vec<(String, JsonValue)> = Vec::new();
                    assert(members_view(&c) =~= Seq::<(Seq<char>, JsonView)>::empty());
                    set_nested_path(&mut c, rest.as_str(), value);
                    let ghost new_child = JsonView::Object(members_view(&c));
                    obj.push((key, JsonValue::Object(c)));
                    proof {
                        assert(members_view(obj) =~= m.push((key@, new_child)));
                    }
                },
            }
        },
    }
}

/// The value at the dot-separated `path` inside `value`, if every step
/// exists.
pub fn get_nested_path<'a>(value: &'a JsonValue, path: &str) -> (r: Option<&'a JsonValue>)
    ensures
        match r {
            Some(x) => get_path_spec(json_view(value), path@) == Some(json_view(x)),
            None => get_path_spec(json_view(value), path@) is None,
        },
    decreases path@.len(),
{
    let (key, rest) = split_first_dot(path);
    proof {
        if rest is Some {
            let d = choose|d: int| first_occ(path@, '.', d);
            lemma_split_at(path@, d);
        }
    }
    match value {
        JsonValue::Object(es) => {
            let ghost m = members_view(es);
            match find_member(es, key.as_str()) {
                Some(i) => {
                    let child = &es[i].1;
                    proof {
                        let c = choose|c: int| is_first(m, key@, c);
                        lemma_is_first_unique(m, key@, c, i as int);
                        assert(m[i as int].1 == json_view(child));
                    }
                    match rest {
                        Some(r) => get_nested_path(child, r.as_str()),
                        None => Some(child),
                    }
                },
                None => None,
            }
        },
        _ => None,
    }
}

// ---- JSON text -----------------------------------------------------------------------

#[verifier::external_type_specification]
#[verifier::external_body]
pub struct ExSerdeJsonValue(serde_json::Value);

/// What serde_json parses from `text`, as a value of this library: nothing
/// when it is not JSON. Objects come back with their keys in ascending order
/// and a repeated key's last value (serde_json's map).
pub uninterp spec fn spec_json_parse(text: Seq<char>) -> Option<JsonView>;

/// The compact JSON text serde_json writes for a value.
pub uninterp spec fn spec_json_text(v: JsonView) -> Seq<char>;

/// serde_json's value for a value of this library, variant for variant (a
/// number's text is read by serde_json; text it does not take as a number
/// becomes null). Used by `object_text` to hand a value to serde_json.
#[verifier::external_body]
fn to_serde(v: &JsonValue) -> serde_json::Value {
    match v {
        JsonValue::Null => serde_json::Value::Null,
        JsonValue::Bool(b) => serde_json::Value::Bool(*b),
        JsonValue::Number(n) => serde_json::from_str(n).unwrap_or(serde_json::Value::Null),
        JsonValue::Str(s) => serde_json::Value::String(s.clone()),
        JsonValue::Array(a) => serde_json::Value::Array(a.iter().map(to_serde).collect()),
        JsonValue::Object(es) => serde_json::Value::Object(es.iter().map(|(k, x)| (k.clone(), to_serde(x))).collect()),
    }
}

/// This library's value for a serde_json value, variant for variant (a
/// number keeps the text serde_json writes for it). Used by `json_parse`.
#[verifier::external_body]
fn from_serde(v: &serde_json::Value) -> JsonValue {
    match v {
        serde_json::Value::Null => JsonValue::Null,
        serde_json::Value::Bool(b) => JsonValue::Bool(*b),
        serde_json::Value::Number(n) => JsonValue::Number(n.to_string()),
        serde_json::Value::String(s) => JsonValue::Str(s.clone()),
        serde_json::Value::Array(a) => JsonValue::Array(a.iter().map(from_serde).collect()),
        serde_json::Value::Object(m) => JsonValue::Object(m.iter().map(|(k, x)| (k.clone(), from_serde(x))).collect()),
    }
}

/// Calls `serde_json::from_str` for a `serde_json::Value` and takes the
/// result as a value of this library; `None` when the text is not JSON.
/// The result depends on the text alone.
#[verifier::external_body]
fn json_parse(text: &str) -> (r: Option<JsonValue>)
    ensures
        r matches Some(v) ==> spec_json_parse(text@) == Some(json_view(&v)),
        r is None ==> spec_json_parse(text@) is None,
{
    match serde_json::from_str::<serde_json::Value>(text) {
        Ok(v) => Some(from_serde(&v)),
        Err(_) => None,
    }
}

/// Calls `serde_json::to_string` on the object with `members`. Writing a
/// value to a string does not fail; the text depends on the members alone.
#[verifier::external_body]
fn object_text(members: &Vec<(String, JsonValue)>) -> (r: String)
    ensures
        r@ == spec_json_text(JsonView::Object(members_view(members))),
{
    let m: serde_json::Map<String, serde_json::Value> = members.iter().map(|(k, x)| (k.clone(), to_serde(x))).collect();
    match serde_json::to_string(&serde_json::Value::Object(m)) {
        Ok(t) => t,
        Err(_) => String::new(),
    }
}

/// The JSON value stored in an extra-body text, if it is JSON.
pub fn parse_json_text(text: Option<&str>) -> (r: Option<JsonValue>)
    ensures
        match text {
            Some(t) => match r {
                Some(v) => spec_json_parse(t@) == Some(json_view(&v)),
                None => spec_json_parse(t@) is None,
            },
            None => r is None,
        },
{
    match text {
        Some(t) => json_parse(t),
        None => None,
    }
}

/// The members of the object stored in an extra-body text: none when there
/// is no text, it is not JSON, or it is not an object.
pub fn parse_extra_body(text: Option<&str>) -> (r: Vec<(String, JsonValue)>)
    ensures
        members_view(&r) == match text {
            Some(t) => match spec_json_parse(t@) {
                Some(JsonView::Object(es)) => es,
                _ => Seq::empty(),
            },
            None => Seq::<(Seq<char>, JsonView)>::empty(),
        },
{
    match parse_json_text(text) {
        Some(JsonValue::Object(es)) => es,
        _ => {
            let r: Vec<(String, JsonValue)> = Vec::new();
            assert(members_view(&r) =~= Seq::empty());
            r
        },
    }
}

/// The extra-body text for `members`: none when there are none (so the
/// variable is left out), else the object's JSON text.
pub fn build_extra_body(members: &Vec<(String, JsonValue)>) -> (r: Option<String>)
    ensures
        (r is None) == (members@.len() == 0),
        r matches Some(s) ==> s@ == spec_json_text(JsonView::Object(members_view(members))),
{
    if members.len() == 0 {
        None
    } else {
        Some(object_text(members))
    }
}

// ---- Form text and JSON values -------------------------------------------------------

/// `c` is an ASCII decimal digit.
pub open spec fn is_digit(c: char) -> bool {
    '0' <= c && c <= '9'
}

/// The value of a run of decimal digits.
pub open spec fn digits_value(s: Seq<char>) -> int
    decreases s.len(),
{
    if s.len() == 0 {
        0
    } else {
        digits_value(s.drop_last()) * 10 + (s.last() as int - '0' as int)
    }
}

/// The length of the sign in front of a number: 1 for `+` or `-`, else 0.
pub open spec fn sign_len(s: Seq<char>) -> int {
    if s.len() > 0 && (s[0] == '-' || s[0] == '+') {
        1
    } else {
        0
    }
}

/// Every character of `t` is a decimal digit.
pub open spec fn all_digits(t: Seq<char>) -> bool {
    forall|i: int| 0 <= i < t.len() ==> is_digit(#[trigger] t[i])
}

/// What `str::parse::<i64>` accepts: an optional `+` or `-`, then one or
/// more decimal digits, with the value in range; nothing else.
pub open spec fn parse_i64_spec(s: Seq<char>) -> Option<i64> {
    let body = s.skip(sign_len(s));
    let v = if sign_len(s) == 1 && s[0] == '-' {
        -digits_value(body)
    } else {
        digits_value(body)
    };
    if body.len() > 0 && all_digits(body) && i64::MIN <= v <= i64::MAX {
        Some(v as i64)
    } else {
        None
    }
}

/// The decimal text of `n`, with `-` before a negative number.
pub open spec fn i64_text(n: int) -> Seq<char> {
    if n < 0 {
        "-"@ + decimal((-n) as nat)
    } else {
        decimal(n as nat)
    }
}

proof fn lemma_digits_nonneg(s: Seq<char>)
    requires
        all_digits(s),
    ensures
        digits_value(s) >= 0,
    decreases s.len(),
{
    if s.len() > 0 {
        let t = s.drop_last();
        assert(all_digits(t)) by {
            assert forall|i: int| 0 <= i < t.len() implies is_digit(#[trigger] t[i]) by {
                assert(t[i] == s[i]);
            }
        }
        lemma_digits_nonneg(t);
        assert(is_digit(s[s.len() - 1]));
    }
}

/// More digits never make a smaller value.
proof fn lemma_digits_grow(s: Seq<char>, k: int)
    requires
        0 <= k <= s.len(),
        all_digits(s),
    ensures
        digits_value(s) >= digits_value(s.take(k)),
    decreases s.len(),
{
    if k == s.len() {
        assert(s.take(k) =~= s);
    } else {
        let t = s.drop_last();
        assert(all_digits(t)) by {
            assert forall|i: int| 0 <= i < t.len() implies is_digit(#[trigger] t[i]) by {
                assert(t[i] == s[i]);
            }
        }
        lemma_digits_grow(t, k);
        lemma_digits_nonneg(t);
        assert(t.take(k) =~= s.take(k));
    }
}

/// The number `s` spells, as `str::parse::<i64>` reads it (see
/// `parse_i64_spec`).
fn parse_i64(s: &str) -> (r: Option<i64>)
    ensures
        r == parse_i64_spec(s@),
{
    let cs = chars_of(s);
    let n = cs.len();
    if n == 0 {
        return None;
    }
    let signed = cs[0] == '-' || cs[0] == '+';
    let neg = cs[0] == '-';
    let start: usize = if signed {
        1
    } else {
        0
    };
    let ghost body = s@.skip(start as int);
    assert(start == sign_len(s@));
    if start == n {
        return None;
    }
    let mut v: i128 = 0;
    let mut i: usize = start;
    assert(body.take(0) =~= Seq::<char>::empty());
    while i < n
        invariant
            cs@ == s@,
            n == cs@.len(),
            start <= i <= n,
            start == sign_len(s@),
            body == s@.skip(start as int),
            v == digits_value(body.take(i - start)),
            0 <= v <= 9223372036854775808,
            forall|k: int| 0 <= k < i - start ==> is_digit(#[trigger] body[k]),
        decreases n - i,
    {
        let c = cs[i];
        assert(body[i - start] == c);
        if !(c >= '0' && c <= '9') {
            assert(!is_digit(body[i - start]));
            assert(!all_digits(body));
            return None;
        }
        let d: u32 = (c as u32) - ('0' as u32);
        let ghost pre = body.take(i + 1 - start);
        assert(pre.drop_last() =~= body.take(i - start));
        assert(pre.last() == c);
        assert(d == c as int - '0' as int);
        v = v * 10 + (d as i128);
        assert(v == digits_value(pre));
        if v > 9223372036854775808 {
            proof {
                if all_digits(body) {
                    lemma_digits_grow(body, i + 1 - start);
                    assert(digits_value(body) > 9223372036854775808);
                }
            }
            return None;
        }
        i += 1;
    }
    assert(body.take(n - start) =~= body);
    if neg {
        Some((0 - v) as i64)
    } else if v <= 9223372036854775807 {
        Some(v as i64)
    } else {
        None
    }
}

/// The decimal text of `n` (what `i64::to_string` writes).
fn i64_to_string(n: i64) -> (r: String)
    ensures
        r@ == i64_text(n as int),
{
    if n < 0 {
        let m: u128 = (0 - (n as i128)) as u128;
        let mut s = to_owned_string("-");
        let d = decimal_string(m);
        append_str(&mut s, d.as_str());
        s
    } else {
        decimal_string(n as u128)
    }
}

/// The trimmed, non-empty comma-separated entries of `s`.
pub open spec fn list_entries_spec(s: Seq<char>) -> Seq<Seq<char>> {
    split_spec(s, ',').map_values(|p: Seq<char>| trim_spec(p)).filter(|p: Seq<char>| p.len() > 0)
}

/// The JSON value stored for form text `input` (trimmed first): `None` for
/// empty text, for a list without entries, for unrecognised yes/no text and
/// for text that is not an integer.
pub open spec fn serialize_value_spec(value_type: ExtraBodyValueType, input: Seq<char>) -> Option<JsonView> {
    let t = trim_spec(input);
    if t.len() == 0 {
        None
    } else {
        match value_type {
            ExtraBodyValueType::String => Some(JsonView::Str(t)),
            ExtraBodyValueType::StringList => {
                let entries = list_entries_spec(t);
                if entries.len() == 0 {
                    None
                } else {
                    Some(JsonView::Array(entries.map_values(|e: Seq<char>| JsonView::Str(e))))
                }
            },
            ExtraBodyValueType::Bool => {
                let l = spec_to_lowercase(t);
                if l == "true"@ || l == "yes"@ || l == "1"@ {
                    Some(JsonView::Bool(true))
                } else if l == "false"@ || l == "no"@ || l == "0"@ {
                    Some(JsonView::Bool(false))
                } else {
                    None
                }
            },
            ExtraBodyValueType::Number => match parse_i64_spec(t) {
                Some(n) => Some(JsonView::Number(i64_text(n as int))),
                None => None,
            },
        }
    }
}

fn list_entries(t: &str) -> (r: Vec<String>)
    ensures
        views(r@) == list_entries_spec(t@),
{
    let parts = split_char(t, ',');
    let ghost trimmed = split_spec(t@, ',').map_values(|p: Seq<char>| trim_spec(p));
    let mut out: Vec<String> = Vec::new();
    let mut k: usize = 0;
    assert(trimmed.take(0) =~= Seq::<Seq<char>>::empty());
    while k < parts.len()
        invariant
            views(parts@) == split_spec(t@, ','),
            trimmed == split_spec(t@, ',').map_values(|p: Seq<char>| trim_spec(p)),
            trimmed.len() == parts@.len(),
            0 <= k <= parts@.len(),
            views(out@) == trimmed.take(k as int).filter(|p: Seq<char>| p.len() > 0),
        decreases parts.len() - k,
    {
        let e = trim(parts[k].as_str());
        let ghost before = out@;
        let n = chars_of(e.as_str()).len();
        if n > 0 {
            out.push(e);
            assert(views(out@) =~= views(before).push(e@));
        }
        proof {
            reveal_with_fuel(Seq::<_>::filter, 1);
            let s = trimmed.take(k + 1);
            assert(s.drop_last() =~= trimmed.take(k as int));
            assert(s.last() == trim_spec(parts@[k as int]@));
        }
        k += 1;
    }
    assert(trimmed.take(parts@.len() as int) =~= trimmed);
    out
}

fn is_one_of(l: &str, a: &str, b: &str, c: &str) -> (r: bool)
    ensures
        r == (l@ == a@ || l@ == b@ || l@ == c@),
{
    str_eq(l, a) || str_eq(l, b) || str_eq(l, c)
}

/// The JSON value to store for form text `input` (see `serialize_value_spec`).
pub fn serialize_value(value_type: &ExtraBodyValueType, input: &str) -> (r: Option<JsonValue>)
    ensures
        match r {
            Some(v) => serialize_value_spec(*value_type, input@) == Some(json_view(&v)),
            None => serialize_value_spec(*value_type, input@) is None,
        },
{
    let t = trim(input);
    if t.as_str().is_empty() {
        return None;
    }
    match value_type {
        ExtraBodyValueType::String => Some(JsonValue::Str(t)),
        ExtraBodyValueType::StringList => {
            let entries = list_entries(t.as_str());
            if entries.len() == 0 {
                return None;
            }
            let mut arr: Vec<JsonValue> = Vec::new();
            let mut i: usize = 0;
            while i < entries.len()
                invariant
                    0 <= i <= entries@.len(),
                    arr@.len() == i,
                    forall|j: int| 0 <= j < i ==> json_view(&arr@[j]) == JsonView::Str(entries@[j]@),
                decreases entries.len() - i,
            {
                let e = entries[i].clone();
                arr.push(JsonValue::Str(e));
                i += 1;
            }
            let r = JsonValue::Array(arr);
            proof {
                let es = list_entries_spec(t@);
                assert(json_view(&r) == JsonView::Array(es.map_values(|e: Seq<char>| JsonView::Str(e)))) by {
                    if let JsonView::Array(a) = json_view(&r) {
                        assert(a =~= es.map_values(|e: Seq<char>| JsonView::Str(e))) by {
                            assert forall|j: int| 0 <= j < a.len() implies a[j] == es.map_values(
                                |e: Seq<char>| JsonView::Str(e),
                            )[j] by {
                                assert(es[j] == views(entries@)[j]);
                            }
                        }
                    }
                }
            }
            Some(r)
        },
        ExtraBodyValueType::Bool => {
            let l = to_lowercase(t.as_str());
            if is_one_of(l.as_str(), "true", "yes", "1") {
                Some(JsonValue::Bool(true))
            } else if is_one_of(l.as_str(), "false", "no", "0") {
                Some(JsonValue::Bool(false))
            } else {
                None
            }
        },
        ExtraBodyValueType::Number => match parse_i64(t.as_str()) {
            Some(n) => Some(JsonValue::Number(i64_to_string(n))),
            None => None,
        },
    }
}

/// The form text shown for a stored JSON value, if it has the expected kind:
/// the string itself, the list's strings joined by ", " (other entries
/// skipped), "true"/"false", or the number's text.
pub open spec fn deserialize_value_spec(value_type: ExtraBodyValueType, v: JsonView) -> Option<Seq<char>> {
    match (value_type, v) {
        (ExtraBodyValueType::String, JsonView::Str(s)) => Some(s),
        (ExtraBodyValueType::StringList, JsonView::Array(a)) => Some(
            join_spec(strings_of(a), ", "@),
        ),
        (ExtraBodyValueType::Bool, JsonView::Bool(b)) => Some(
            if b {
                "true"@
            } else {
                "false"@
            },
        ),
        (ExtraBodyValueType::Number, JsonView::Number(n)) => Some(n),
        _ => None,
    }
}

/// The strings among `a`, in order.
pub open spec fn strings_of(a: Seq<JsonView>) -> Seq<Seq<char>>
    decreases a.len(),
{
    if a.len() == 0 {
        Seq::empty()
    } else {
        let init = strings_of(a.drop_last());
        match a.last() {
            JsonView::Str(s) => init.push(s),
            _ => init,
        }
    }
}

/// The form text for a stored JSON value (see `deserialize_value_spec`).
pub fn deserialize_value(value_type: &ExtraBodyValueType, value: &JsonValue) -> (r: Option<String>)
    ensures
        match r {
            Some(s) => deserialize_value_spec(*value_type, json_view(value)) == Some(s@),
            None => deserialize_value_spec(*value_type, json_view(value)) is None,
        },
{
    match (value_type, value) {
        (ExtraBodyValueType::String, JsonValue::Str(s)) => Some(s.clone()),
        (ExtraBodyValueType::StringList, JsonValue::Array(arr)) => {
            let ghost a = match json_view(value) {
                JsonView::Array(a) => a,
                _ => Seq::empty(),
            };
            let mut items: Vec<String> = Vec::new();
            let mut i: usize = 0;
            assert(a.take(0) =~= Seq::<JsonView>::empty());
            while i < arr.len()
                invariant
                    a.len() == arr@.len(),
                    forall|j: int| 0 <= j < arr@.len() ==> a[j] == json_view(&arr@[j]),
                    0 <= i <= arr@.len(),
                    views(items@) == strings_of(a.take(i as int)),
                decreases arr.len() - i,
            {
                let ghost before = items@;
                match &arr[i] {
                    JsonValue::Str(s) => {
                        items.push(s.clone());
                        assert(views(items@) =~= views(before).push(s@));
                    },
                    _ => {},
                }
                proof {
                    let t = a.take(i + 1);
                    assert(t.drop_last() =~= a.take(i as int));
                    assert(t.last() == json_view(&arr@[i as int]));
                }
                i += 1;
            }
            assert(a.take(arr@.len() as int) =~= a);
            Some(join(&items, ", "))
        },
        (ExtraBodyValueType::Bool, JsonValue::Bool(b)) => Some(
            if *b {
                to_owned_string("true")
            } else {
                to_owned_string("false")
            },
        ),
        (ExtraBodyValueType::Number, JsonValue::Number(n)) => Some(n.clone()),
        _ => None,
    }
}

// ---- Laws -------------------------------------------------------------------------------

/// Law: text stored as a string reads back trimmed.
pub proof fn lemma_string_roundtrip(input: Seq<char>)
    requires
        trim_spec(input).len() > 0,
    ensures
        serialize_value_spec(ExtraBodyValueType::String, input) matches Some(v) && deserialize_value_spec(
            ExtraBodyValueType::String,
            v,
        ) == Some(trim_spec(input)),
{
}

/// Law: a stored list reads back as its trimmed non-empty entries joined by
/// ", ".
pub proof fn lemma_list_roundtrip(input: Seq<char>)
    requires
        list_entries_spec(trim_spec(input)).len() > 0,
        trim_spec(input).len() > 0,
    ensures
        serialize_value_spec(ExtraBodyValueType::StringList, input) matches Some(v) && deserialize_value_spec(
            ExtraBodyValueType::StringList,
            v,
        ) == Some(join_spec(list_entries_spec(trim_spec(input)), ", "@)),
{
    let es = list_entries_spec(trim_spec(input));
    let a = es.map_values(|e: Seq<char>| JsonView::Str(e));
    lemma_strings_of_all_str(es);
}

proof fn lemma_strings_of_all_str(es: Seq<Seq<char>>)
    ensures
        strings_of(es.map_values(|e: Seq<char>| JsonView::Str(e))) == es,
    decreases es.len(),
{
    if es.len() > 0 {
        lemma_strings_of_all_str(es.drop_last());
        assert(es.map_values(|e: Seq<char>| JsonView::Str(e)).drop_last() =~= es.drop_last().map_values(
            |e: Seq<char>| JsonView::Str(e),
        ));
    }
}

/// Law: a yes/no value reads back as "true" or "false".
pub proof fn lemma_bool_roundtrip(input: Seq<char>)
    requires
        serialize_value_spec(ExtraBodyValueType::Bool, input) is Some,
    ensures
        serialize_value_spec(ExtraBodyValueType::Bool, input) matches Some(v) && deserialize_value_spec(
            ExtraBodyValueType::Bool,
            v,
        ) matches Some(t) && (t == "true"@ || t == "false"@),
{
}

} // verus!
