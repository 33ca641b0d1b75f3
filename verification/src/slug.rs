//! Turning display names into CLI-friendly identifiers.
//!
//! A slug is the lowercased name in which every character that is neither
//! alphanumeric nor `-` becomes `-`, runs of `-` collapse into one, and
//! leading and trailing `-` are dropped.

use vstd::prelude::*;
use crate::text::{
    chars_of, join, join_spec, lemma_split_pieces_free, spec_is_alphanumeric, spec_to_lowercase,
    split_char, split_spec, string_from_chars, to_lowercase, to_owned_string, views, is_alphanumeric,
};

verus! {

/// The character that stands for `c` in a slug.
pub open spec fn slug_char(c: char) -> char {
    if spec_is_alphanumeric(c) || c == '-' {
        c
    } else {
        '-'
    }
}

/// The non-empty pieces of `parts`, in order.
pub open spec fn nonempty_pieces(parts: Seq<Seq<char>>) -> Seq<Seq<char>> {
    parts.filter(|p: Seq<char>| p.len() > 0)
}

/// The slug of a name with characters `s`.
pub open spec fn slug_spec(s: Seq<char>) -> Seq<char> {
    join_spec(
        nonempty_pieces(split_spec(spec_to_lowercase(s).map_values(|c: char| slug_char(c)), '-')),
        seq!['-'],
    )
}

/// A slug made of the given pieces is well shaped: every character is
/// alphanumeric or `-`, it neither starts nor ends with `-`, and no two `-`
/// are adjacent.
pub open spec fn well_shaped(r: Seq<char>) -> bool {
    &&& forall|i: int| 0 <= i < r.len() ==> (#[trigger] r[i] == '-' || spec_is_alphanumeric(r[i]))
    &&& r.len() > 0 ==> r[0] != '-' && r.last() != '-'
    &&& forall|i: int| 0 <= i < r.len() - 1 ==> !(#[trigger] r[i] == '-' && r[i + 1] == '-')
}

proof fn lemma_split_chars(s: Seq<char>, sep: char, p: spec_fn(char) -> bool)
    requires
        forall|i: int| 0 <= i < s.len() ==> p(#[trigger] s[i]),
    ensures
        forall|k: int, j: int|
            0 <= k < split_spec(s, sep).len() && 0 <= j < split_spec(s, sep)[k].len() ==> p(
                #[trigger] split_spec(s, sep)[k][j],
            ),
    decreases s.len(),
{
    if s.len() > 0 {
        let t = s.drop_last();
        assert forall|i: int| 0 <= i < t.len() implies p(#[trigger] t[i]) by {
            assert(t[i] == s[i]);
        }
        lemma_split_chars(t, sep, p);
        lemma_split_pieces_free(t, sep);
        let init = split_spec(t, sep);
        let r = split_spec(s, sep);
        assert forall|k: int, j: int| 0 <= k < r.len() && 0 <= j < r[k].len() implies p(#[trigger] r[k][j]) by {
            if s.last() != sep && k == init.len() - 1 {
                if j < init.last().len() {
                    assert(r[k][j] == init[k][j]);
                } else {
                    assert(r[k][j] == s.last());
                    assert(p(s[s.len() - 1]));
                }
            } else if k < init.len() {
                assert(r[k] == init[k]);
            }
        }
    }
}

proof fn lemma_split_has_nonempty(s: Seq<char>, sep: char, i: int)
    requires
        0 <= i < s.len(),
        s[i] != sep,
    ensures
        exists|k: int| 0 <= k < split_spec(s, sep).len() && #[trigger] split_spec(s, sep)[k].len() > 0,
    decreases s.len(),
{
    lemma_split_pieces_free(s.drop_last(), sep);
    let init = split_spec(s.drop_last(), sep);
    let r = split_spec(s, sep);
    if s.last() != sep {
        assert(r[init.len() - 1].len() > 0);
    } else {
        assert(i < s.len() - 1);
        assert(s.drop_last()[i] == s[i]);
        lemma_split_has_nonempty(s.drop_last(), sep, i);
        let k = choose|k: int| 0 <= k < init.len() && #[trigger] init[k].len() > 0;
        assert(r[k] == init[k]);
    }
}

proof fn lemma_split_all_sep(s: Seq<char>, sep: char)
    requires
        forall|i: int| 0 <= i < s.len() ==> #[trigger] s[i] == sep,
    ensures
        forall|k: int| 0 <= k < split_spec(s, sep).len() ==> #[trigger] split_spec(s, sep)[k].len() == 0,
    decreases s.len(),
{
    if s.len() > 0 {
        let t = s.drop_last();
        assert forall|i: int| 0 <= i < t.len() implies #[trigger] t[i] == sep by {
            assert(t[i] == s[i]);
        }
        lemma_split_all_sep(t, sep);
        assert(s.last() == s[s.len() - 1]);
        let init = split_spec(t, sep);
        let r = split_spec(s, sep);
        assert(r == init.push(Seq::<char>::empty()));
        assert forall|k: int| 0 <= k < r.len() implies #[trigger] r[k].len() == 0 by {
            if k < init.len() {
                assert(r[k] == init[k]);
            }
        }
    }
}

proof fn lemma_filter_nonempty_facts(parts: Seq<Seq<char>>)
    ensures
        forall|k: int| 0 <= k < nonempty_pieces(parts).len() ==> #[trigger] nonempty_pieces(parts)[k].len() > 0,
        (exists|k: int| 0 <= k < parts.len() && #[trigger] parts[k].len() > 0) ==> nonempty_pieces(parts).len() > 0,
        (forall|k: int| 0 <= k < parts.len() ==> #[trigger] parts[k].len() == 0) ==> nonempty_pieces(parts).len() == 0,
        forall|k: int, j: int|
            0 <= k < nonempty_pieces(parts).len() && 0 <= j < nonempty_pieces(parts)[k].len() ==> exists|
                k2: int,
            |
                0 <= k2 < parts.len() && #[trigger] nonempty_pieces(parts)[k][j] == parts[k2][j] && j
                    < parts[k2].len(),
    decreases parts.len(),
{
    reveal_with_fuel(Seq::<_>::filter, 1);
    if parts.len() > 0 {
        let t = parts.drop_last();
        lemma_filter_nonempty_facts(t);
        assert(nonempty_pieces(parts) == (if parts.last().len() > 0 {
            nonempty_pieces(t).push(parts.last())
        } else {
            nonempty_pieces(t)
        }));
        let f = nonempty_pieces(parts);
        let ft = nonempty_pieces(t);
        if exists|k: int| 0 <= k < parts.len() && #[trigger] parts[k].len() > 0 {
            let k = choose|k: int| 0 <= k < parts.len() && #[trigger] parts[k].len() > 0;
            if k < parts.len() - 1 {
                assert(t[k] == parts[k]);
            }
        }
        if forall|k: int| 0 <= k < parts.len() ==> #[trigger] parts[k].len() == 0 {
            assert forall|k: int| 0 <= k < t.len() implies #[trigger] t[k].len() == 0 by {
                assert(t[k] == parts[k]);
            }
            assert(parts[parts.len() - 1].len() == 0);
        }
        assert forall|k: int, j: int| 0 <= k < f.len() && 0 <= j < f[k].len() implies exists|k2: int|
            0 <= k2 < parts.len() && #[trigger] f[k][j] == parts[k2][j] && j < parts[k2].len() by {
            if k < ft.len() {
                assert(f[k] == ft[k]);
                let k2 = choose|k2: int| 0 <= k2 < t.len() && #[trigger] ft[k][j] == t[k2][j] && j < t[k2].len();
                assert(t[k2] == parts[k2]);
            } else {
                assert(f[k] == parts[parts.len() - 1]);
            }
        }
    }
}

proof fn lemma_join_shape(parts: Seq<Seq<char>>)
    requires
        forall|k: int| 0 <= k < parts.len() ==> #[trigger] parts[k].len() > 0,
        forall|k: int, j: int|
            0 <= k < parts.len() && 0 <= j < parts[k].len() ==> spec_is_alphanumeric(#[trigger] parts[k][j])
                && parts[k][j] != '-',
    ensures
        well_shaped(join_spec(parts, seq!['-'])),
        (join_spec(parts, seq!['-']).len() == 0) == (parts.len() == 0),
    decreases parts.len(),
{
    let r = join_spec(parts, seq!['-']);
    if parts.len() == 0 {
    } else if parts.len() == 1 {
        let p = parts[0];
        assert(r == p);
        assert forall|i: int| 0 <= i < r.len() implies (#[trigger] r[i] == '-' || spec_is_alphanumeric(r[i])) by {
            assert(spec_is_alphanumeric(parts[0][i]));
        }
        assert forall|i: int| 0 <= i < r.len() - 1 implies !(#[trigger] r[i] == '-' && r[i + 1] == '-') by {
            assert(parts[0][i] != '-');
        }
        assert(parts[0][0] != '-');
        assert(parts[0][p.len() - 1] != '-');
    } else {
        let t = parts.drop_last();
        assert forall|k: int| 0 <= k < t.len() implies #[trigger] t[k].len() > 0 by {
            assert(t[k] == parts[k]);
        }
        assert forall|k: int, j: int| 0 <= k < t.len() && 0 <= j < t[k].len() implies spec_is_alphanumeric(
            #[trigger] t[k][j],
        ) && t[k][j] != '-' by {
            assert(t[k] == parts[k]);
        }
        lemma_join_shape(t);
        let a = join_spec(t, seq!['-']);
        let l = parts.last();
        assert(r == a + seq!['-'] + l);
        assert(l.len() > 0);
        assert forall|j: int| 0 <= j < l.len() implies spec_is_alphanumeric(#[trigger] l[j]) && l[j] != '-' by {
            assert(spec_is_alphanumeric(parts[parts.len() - 1][j]));
        }
        assert forall|i: int| 0 <= i < r.len() implies (#[trigger] r[i] == '-' || spec_is_alphanumeric(r[i])) by {
            if i < a.len() {
                assert(r[i] == a[i]);
            } else if i > a.len() {
                assert(r[i] == l[i - a.len() - 1]);
            }
        }
        assert forall|i: int| 0 <= i < r.len() - 1 implies !(#[trigger] r[i] == '-' && r[i + 1] == '-') by {
            if i < a.len() - 1 {
                assert(r[i] == a[i] && r[i + 1] == a[i + 1]);
            } else if i == a.len() - 1 {
                assert(r[i] == a.last());
            } else if i == a.len() {
                assert(r[i + 1] == l[0]);
            } else {
                assert(r[i] == l[i - a.len() - 1]);
            }
        }
        assert(r[0] == a[0]);
        assert(r.last() == l.last());
        assert(l[l.len() - 1] != '-');
    }
}

/// Law: a slug is well shaped, and it is empty exactly when the lowercased
/// name holds no alphanumeric character (other than `-`).
pub proof fn lemma_slug_shape(s: Seq<char>)
    ensures
        well_shaped(slug_spec(s)),
        slug_spec(s).len() == 0 <==> (forall|i: int|
            0 <= i < spec_to_lowercase(s).len() ==> !(spec_is_alphanumeric(
                #[trigger] spec_to_lowercase(s)[i],
            ) && spec_to_lowercase(s)[i] != '-')),
{
    let low = spec_to_lowercase(s);
    let m = low.map_values(|c: char| slug_char(c));
    let parts = split_spec(m, '-');
    let f = nonempty_pieces(parts);
    let p = |c: char| spec_is_alphanumeric(c) || c == '-';
    assert forall|i: int| 0 <= i < m.len() implies p(#[trigger] m[i]) by {}
    lemma_split_chars(m, '-', p);
    lemma_split_pieces_free(m, '-');
    lemma_filter_nonempty_facts(parts);
    assert forall|k: int, j: int| 0 <= k < f.len() && 0 <= j < f[k].len() implies spec_is_alphanumeric(
        #[trigger] f[k][j],
    ) && f[k][j] != '-' by {
        let k2 = choose|k2: int| 0 <= k2 < parts.len() && #[trigger] f[k][j] == parts[k2][j] && j < parts[k2].len();
        assert(p(parts[k2][j]));
        assert(parts[k2][j] != '-');
    }
    lemma_join_shape(f);
    if exists|i: int| 0 <= i < low.len() && spec_is_alphanumeric(#[trigger] low[i]) && low[i] != '-' {
        let i = choose|i: int| 0 <= i < low.len() && spec_is_alphanumeric(#[trigger] low[i]) && low[i] != '-';
        assert(m[i] == low[i]);
        lemma_split_has_nonempty(m, '-', i);
    } else {
        assert forall|i: int| 0 <= i < m.len() implies #[trigger] m[i] == '-' by {
            assert(!(spec_is_alphanumeric(low[i]) && low[i] != '-'));
        }
        lemma_split_all_sep(m, '-');
    }
}

/// The slug of `name`.
pub fn slugify(name: &str) -> (r: String)
    ensures
        r@ == slug_spec(name@),
{
    let lower = to_lowercase(name);
    let cs = chars_of(lower.as_str());
    let mut mapped: Vec<char> = Vec::new();
    let mut i: usize = 0;
    while i < cs.len()
        invariant
            cs@ == spec_to_lowercase(name@),
            0 <= i <= cs@.len(),
            mapped@ == cs@.take(i as int).map_values(|c: char| slug_char(c)),
        decreases cs.len() - i,
    {
        let c = cs[i];
        let m = if is_alphanumeric(c) || c == '-' {
            c
        } else {
            '-'
        };
        mapped.push(m);
        assert(cs@.take(i + 1).map_values(|c: char| slug_char(c)) =~= cs@.take(i as int).map_values(
            |c: char| slug_char(c),
        ).push(m));
        i += 1;
    }
    assert(cs@.take(cs@.len() as int) =~= cs@);
    let replaced = string_from_chars(&mapped);
    let parts = split_char(replaced.as_str(), '-');
    let mut kept: Vec<String> = Vec::new();
    let mut k: usize = 0;
    assert(views(parts@).take(0) =~= Seq::<Seq<char>>::empty());
    reveal_with_fuel(Seq::<_>::filter, 1);
    while k < parts.len()
        invariant
            0 <= k <= parts@.len(),
            views(kept@) == nonempty_pieces(views(parts@).take(k as int)),
        decreases parts.len() - k,
    {
        let ghost before = kept@;
        let n = chars_of(parts[k].as_str()).len();
        if n > 0 {
            let piece = to_owned_string(parts[k].as_str());
            kept.push(piece);
            assert(views(kept@) =~= views(before).push(parts@[k as int]@));
        }
        proof {
            reveal_with_fuel(Seq::<_>::filter, 1);
            let t = views(parts@).take(k + 1);
            assert(t.drop_last() =~= views(parts@).take(k as int));
            assert(t.last() == parts@[k as int]@);
        }
        k += 1;
    }
    assert(views(parts@).take(parts@.len() as int) =~= views(parts@));
    proof {
        reveal_strlit("-");
        assert("-"@ =~= seq!['-']);
    }
    join(&kept, "-")
}

} // verus!

verus! {

// ---- Numbered slugs ------------------------------------------------------------------

/// The decimal digit for `d` (0 to 9).
pub open spec fn digit_char(d: int) -> char {
    if d == 0 {
        '0'
    } else if d == 1 {
        '1'
    } else if d == 2 {
        '2'
    } else if d == 3 {
        '3'
    } else if d == 4 {
        '4'
    } else if d == 5 {
        '5'
    } else if d == 6 {
        '6'
    } else if d == 7 {
        '7'
    } else if d == 8 {
        '8'
    } else {
        '9'
    }
}

/// The decimal text of `n`, without leading zeros.
pub open spec fn decimal(n: nat) -> Seq<char>
    decreases n,
{
    if n < 10 {
        seq![digit_char(n as int)]
    } else {
        decimal(n / 10).push(digit_char((n % 10) as int))
    }
}

proof fn lemma_decimal_len(n: nat)
    ensures
        decimal(n).len() >= 1,
        n >= 10 ==> decimal(n).len() >= 2,
    decreases n,
{
    if n >= 10 {
        lemma_decimal_len(n / 10);
    }
}

/// Different numbers have different decimal texts.
pub proof fn lemma_decimal_injective(a: nat, b: nat)
    requires
        decimal(a) == decimal(b),
    ensures
        a == b,
    decreases a,
{
    lemma_decimal_len(a);
    lemma_decimal_len(b);
    if a >= 10 && b >= 10 {
        let da = decimal(a);
        let db = decimal(b);
        assert(da.last() == digit_char((a % 10) as int));
        assert(db.last() == digit_char((b % 10) as int));
        assert(a % 10 == b % 10);
        assert(da.drop_last() =~= decimal(a / 10));
        assert(db.drop_last() =~= decimal(b / 10));
        lemma_decimal_injective(a / 10, b / 10);
        assert(a == 10 * (a / 10) + a % 10);
        assert(b == 10 * (b / 10) + b % 10);
    } else if a < 10 && b < 10 {
        assert(decimal(a) == seq![digit_char(a as int)]);
        assert(decimal(b) == seq![digit_char(b as int)]);
        assert(decimal(a)[0] == digit_char(a as int));
        assert(decimal(b)[0] == digit_char(b as int));
    } else {
        assert(decimal(a).len() != decimal(b).len());
    }
}

fn digit(d: u128) -> (c: char)
    requires
        d < 10,
    ensures
        c == digit_char(d as int),
{
    if d == 0 {
        '0'
    } else if d == 1 {
        '1'
    } else if d == 2 {
        '2'
    } else if d == 3 {
        '3'
    } else if d == 4 {
        '4'
    } else if d == 5 {
        '5'
    } else if d == 6 {
        '6'
    } else if d == 7 {
        '7'
    } else if d == 8 {
        '8'
    } else {
        '9'
    }
}

/// The decimal text of `n` (see `decimal`).
pub fn decimal_string(n: u128) -> (r: String)
    ensures
        r@ == decimal(n as nat),
    decreases n,
{
    if n < 10 {
        let mut s = String::new();
        crate::text::push_char(&mut s, digit(n));
        s
    } else {
        let mut s = decimal_string(n / 10);
        crate::text::push_char(&mut s, digit(n % 10));
        s
    }
}

/// `<slug>-<i>`.
pub open spec fn numbered(slug: Seq<char>, i: nat) -> Seq<char> {
    slug + seq!['-'] + decimal(i)
}

/// `r` is the slug to save under: `slug` itself when not `taken`, else
/// `<slug>-<i>` for the least `i` from 2 on that is not taken.
pub open spec fn first_free(slug: Seq<char>, taken: Set<Seq<char>>, r: Seq<char>) -> bool {
    if !taken.contains(slug) {
        r == slug
    } else {
        exists|i: nat|
            i >= 2 && r == numbered(slug, i) && !taken.contains(r) && forall|j: nat|
                2 <= j < i ==> taken.contains(#[trigger] numbered(slug, j))
    }
}

proof fn lemma_numbered_injective(slug: Seq<char>, a: nat, b: nat)
    requires
        numbered(slug, a) == numbered(slug, b),
    ensures
        a == b,
{
    let k = slug.len() + 1int;
    assert(numbered(slug, a).skip(k) =~= decimal(a));
    assert(numbered(slug, b).skip(k) =~= decimal(b));
    lemma_decimal_injective(a, b);
}

/// With `k` numbered slugs from 2 on all taken, at least `k` are taken.
proof fn lemma_taken_count(slug: Seq<char>, taken: Set<Seq<char>>, k: nat)
    requires
        taken.finite(),
        forall|j: nat| 2 <= j < 2 + k ==> taken.contains(#[trigger] numbered(slug, j)),
    ensures
        taken.len() >= k,
{
    let s = Seq::new(k, |j: int| numbered(slug, (j + 2) as nat));
    assert(s.no_duplicates()) by {
        assert forall|a: int, b: int| 0 <= a < s.len() && 0 <= b < s.len() && a != b implies s[a] != s[b] by {
            if s[a] == s[b] {
                lemma_numbered_injective(slug, (a + 2) as nat, (b + 2) as nat);
            }
        }
    }
    s.unique_seq_to_set();
    assert(s.to_set().subset_of(taken)) by {
        assert forall|x: Seq<char>| s.to_set().contains(x) implies taken.contains(x) by {
            let j = choose|j: int| 0 <= j < s.len() && s[j] == x;
            assert(taken.contains(numbered(slug, (j + 2) as nat)));
        }
    }
    vstd::set_lib::lemma_len_subset(s.to_set(), taken);
}

/// The slug to save a new entry under, given the slugs in `taken` (see
/// `first_free`).
pub fn unique_slug<V>(slug: &str, taken: &crate::strmap::StrMap<V>) -> (r: String)
    ensures
        first_free(slug@, taken@.dom(), r@),
{
    if !taken.contains_key(slug) {
        return to_owned_string(slug);
    }
    let n = taken.len();
    let _ = taken.pairs();
    let mut i: u128 = 2;
    loop
        invariant
            2 <= i <= n as int + 2,
            n == taken@.len(),
            taken@.dom().finite(),
            taken@.dom().contains(slug@),
            forall|j: nat| 2 <= j < i ==> taken@.dom().contains(#[trigger] numbered(slug@, j)),
        decreases n as int + 2 - i,
    {
        let mut c = to_owned_string(slug);
        crate::text::push_char(&mut c, '-');
        let d = decimal_string(i);
        crate::text::append_str(&mut c, d.as_str());
        assert(c@ == numbered(slug@, i as nat));
        if !taken.contains_key(c.as_str()) {
            return c;
        }
        proof {
            if i == n as int + 2 {
                assert forall|j: nat| 2 <= j < 2 + (n + 1) implies taken@.dom().contains(#[trigger] numbered(slug@, j)) by {
                    if j < i {
                    }
                }
                lemma_taken_count(slug@, taken@.dom(), (n + 1) as nat);
                assert(false);
            }
        }
        i = i + 1;
    }
}

} // verus!
