//! Character-level string helpers shared by the rest of the library.
//!
//! Strings are reasoned about through their `Seq<char>` views. The three
//! Unicode-dependent primitives (`char::is_alphanumeric`, `char::is_whitespace`
//! and `str::to_lowercase`) are stated for ASCII and named beyond it;
//! everything built on top of them is verified here.

use vstd::prelude::*;

verus! {

broadcast use vstd::string::group_string_axioms;

// ---- Unicode-table driven std results ----------------------------------------

/// What `char::is_alphanumeric` answers for a character outside ASCII
/// (Unicode Alphabetic or Numeric).
pub uninterp spec fn unicode_alphanumeric(c: char) -> bool;

/// What `char::is_whitespace` answers for a character outside ASCII
/// (Unicode White_Space).
pub uninterp spec fn unicode_whitespace(c: char) -> bool;

/// What `str::to_lowercase` returns for a string that is not all ASCII.
pub uninterp spec fn unicode_lowercase(s: Seq<char>) -> Seq<char>;

/// `c` is an ASCII character.
pub open spec fn is_ascii_char(c: char) -> bool {
    (c as u32) < 128
}

/// `char::is_alphanumeric`: for ASCII, the letters and the digits.
pub open spec fn spec_is_alphanumeric(c: char) -> bool {
    if is_ascii_char(c) {
        ('a' <= c && c <= 'z') || ('A' <= c && c <= 'Z') || ('0' <= c && c <= '9')
    } else {
        unicode_alphanumeric(c)
    }
}

/// `char::is_whitespace`: for ASCII, tab, line feed, vertical tab, form
/// feed, carriage return and space.
pub open spec fn spec_is_whitespace(c: char) -> bool {
    if is_ascii_char(c) {
        ('\t' <= c && c <= '\r') || c == ' '
    } else {
        unicode_whitespace(c)
    }
}

/// The ASCII lowercase of `c` (letters `A`-`Z` lowered, others unchanged).
pub open spec fn ascii_lower(c: char) -> char {
    if 'A' <= c && c <= 'Z' {
        ((c as u32) + 32) as char
    } else {
        c
    }
}

/// `str::to_lowercase`: an all-ASCII string has each letter lowered.
pub open spec fn spec_to_lowercase(s: Seq<char>) -> Seq<char> {
    if forall|i: int| 0 <= i < s.len() ==> is_ascii_char(#[trigger] s[i]) {
        s.map_values(|c: char| ascii_lower(c))
    } else {
        unicode_lowercase(s)
    }
}

/// Calls `char::is_alphanumeric` (Unicode Alphabetic or Numeric; for ASCII
/// the letters and digits, as std documents).
#[verifier::external_body]
pub(crate) fn is_alphanumeric(c: char) -> (r: bool)
    ensures
        r == spec_is_alphanumeric(c),
        !is_ascii_char(c) ==> r == unicode_alphanumeric(c),
{
    c.is_alphanumeric()
}

/// Calls `char::is_whitespace` (Unicode White_Space; for ASCII the
/// characters U+0009 to U+000D and the space).
#[verifier::external_body]
pub(crate) fn is_whitespace(c: char) -> (r: bool)
    ensures
        r == spec_is_whitespace(c),
        !is_ascii_char(c) ==> r == unicode_whitespace(c),
{
    c.is_whitespace()
}

/// Calls `str::to_lowercase` (Unicode Lowercase mapping; on ASCII letters,
/// `A`-`Z` become `a`-`z`).
#[verifier::external_body]
pub(crate) fn to_lowercase(s: &str) -> (r: String)
    ensures
        r@ == spec_to_lowercase(s@),
        !(forall|i: int| 0 <= i < s@.len() ==> is_ascii_char(#[trigger] s@[i])) ==> r@ == unicode_lowercase(s@),
        s@.len() == 0 ==> r@.len() == 0,
{
    s.to_lowercase()
}

/// Calls `String::push`: appends `c` at the end of `s`.
#[verifier::external_body]
pub(crate) fn push_char(s: &mut String, c: char)
    ensures
        final(s)@ == old(s)@.push(c),
{
    s.push(c);
}

// ---- Specifications -------------------------------------------------------

/// The views of a sequence of strings.
pub open spec fn views(v: Seq<String>) -> Seq<Seq<char>> {
    v.map_values(|x: String| x@)
}

/// `s` with its leading whitespace removed (as `str::trim_start`).
pub open spec fn trim_start_spec(s: Seq<char>) -> Seq<char>
    decreases s.len(),
{
    if s.len() > 0 && spec_is_whitespace(s[0]) {
        trim_start_spec(s.drop_first())
    } else {
        s
    }
}

/// `s` with its trailing whitespace removed (as `str::trim_end`).
pub open spec fn trim_end_spec(s: Seq<char>) -> Seq<char>
    decreases s.len(),
{
    if s.len() > 0 && spec_is_whitespace(s.last()) {
        trim_end_spec(s.drop_last())
    } else {
        s
    }
}

/// `s` with leading and trailing whitespace removed (as `str::trim`).
pub open spec fn trim_spec(s: Seq<char>) -> Seq<char> {
    trim_end_spec(trim_start_spec(s))
}

/// `s` with every trailing `c` removed (as `str::trim_end_matches(c)`).
pub open spec fn trim_end_char_spec(s: Seq<char>, c: char) -> Seq<char>
    decreases s.len(),
{
    if s.len() > 0 && s.last() == c {
        trim_end_char_spec(s.drop_last(), c)
    } else {
        s
    }
}

/// The pieces of `s` between occurrences of `sep` (as `str::split(sep)`):
/// always at least one piece, empty pieces included.
pub open spec fn split_spec(s: Seq<char>, sep: char) -> Seq<Seq<char>>
    decreases s.len(),
{
    if s.len() == 0 {
        seq![Seq::<char>::empty()]
    } else {
        let init = split_spec(s.drop_last(), sep);
        if s.last() == sep {
            init.push(Seq::<char>::empty())
        } else {
            init.update(init.len() - 1, init.last().push(s.last()))
        }
    }
}

/// The pieces joined with `sep` between neighbours (as `[String]::join`).
pub open spec fn join_spec(parts: Seq<Seq<char>>, sep: Seq<char>) -> Seq<char>
    decreases parts.len(),
{
    if parts.len() == 0 {
        Seq::<char>::empty()
    } else if parts.len() == 1 {
        parts[0]
    } else {
        join_spec(parts.drop_last(), sep) + sep + parts.last()
    }
}

/// `needle` occurs in `hay` at position `i`.
pub open spec fn occurs_at(hay: Seq<char>, needle: Seq<char>, i: int) -> bool {
    0 <= i && i + needle.len() <= hay.len() && hay.subrange(i, i + needle.len()) == needle
}

/// `needle` occurs somewhere in `hay` (as `str::contains`).
pub open spec fn contains_spec(hay: Seq<char>, needle: Seq<char>) -> bool {
    exists|i: int| occurs_at(hay, needle, i)
}

/// `s` ends with `suffix` (as `str::ends_with`).
pub open spec fn ends_with_spec(s: Seq<char>, suffix: Seq<char>) -> bool {
    suffix.len() <= s.len() && s.subrange(s.len() - suffix.len(), s.len() as int) == suffix
}

/// `s` starts with `prefix` (as `str::starts_with`).
pub open spec fn starts_with_spec(s: Seq<char>, prefix: Seq<char>) -> bool {
    prefix.len() <= s.len() && s.subrange(0, prefix.len() as int) == prefix
}

/// Every `c` in `s` replaced by `rep` (as `str::replace(c, rep)`).
pub open spec fn replace_char_spec(s: Seq<char>, c: char, rep: Seq<char>) -> Seq<char>
    decreases s.len(),
{
    if s.len() == 0 {
        Seq::<char>::empty()
    } else {
        replace_char_spec(s.drop_last(), c, rep) + (if s.last() == c {
            rep
        } else {
            seq![s.last()]
        })
    }
}

// ---- Lemmas ---------------------------------------------------------------

proof fn lemma_trim_start_skip(s: Seq<char>, i: int)
    requires
        0 <= i <= s.len(),
        forall|j: int| 0 <= j < i ==> spec_is_whitespace(#[trigger] s[j]),
    ensures
        trim_start_spec(s) == trim_start_spec(s.subrange(i, s.len() as int)),
    decreases i,
{
    if i == 0 {
        assert(s.subrange(0, s.len() as int) == s);
    } else {
        let t = s.drop_first();
        assert forall|j: int| 0 <= j < i - 1 implies spec_is_whitespace(#[trigger] t[j]) by {
            assert(t[j] == s[j + 1]);
        }
        lemma_trim_start_skip(t, i - 1);
        assert(t.subrange(i - 1, t.len() as int) == s.subrange(i, s.len() as int));
    }
}

proof fn lemma_trim_end_skip(s: Seq<char>, e: int)
    requires
        0 <= e <= s.len(),
        forall|j: int| e <= j < s.len() ==> spec_is_whitespace(#[trigger] s[j]),
    ensures
        trim_end_spec(s) == trim_end_spec(s.subrange(0, e)),
    decreases s.len() - e,
{
    if e == s.len() {
        assert(s.subrange(0, s.len() as int) == s);
    } else {
        let t = s.drop_last();
        assert forall|j: int| e <= j < t.len() implies spec_is_whitespace(#[trigger] t[j]) by {
            assert(t[j] == s[j]);
        }
        lemma_trim_end_skip(t, e);
        assert(t.subrange(0, e) == s.subrange(0, e));
    }
}

proof fn lemma_trim_end_char_skip(s: Seq<char>, c: char, e: int)
    requires
        0 <= e <= s.len(),
        forall|j: int| e <= j < s.len() ==> #[trigger] s[j] == c,
    ensures
        trim_end_char_spec(s, c) == trim_end_char_spec(s.subrange(0, e), c),
    decreases s.len() - e,
{
    if e == s.len() {
        assert(s.subrange(0, s.len() as int) == s);
    } else {
        let t = s.drop_last();
        assert forall|j: int| e <= j < t.len() implies #[trigger] t[j] == c by {
            assert(t[j] == s[j]);
        }
        lemma_trim_end_char_skip(t, c, e);
        assert(t.subrange(0, e) == s.subrange(0, e));
    }
}

/// Every piece of a split is free of the separator.
pub proof fn lemma_split_pieces_free(s: Seq<char>, sep: char)
    ensures
        split_spec(s, sep).len() >= 1,
        forall|k: int, j: int|
            0 <= k < split_spec(s, sep).len() && 0 <= j < split_spec(s, sep)[k].len()
                ==> #[trigger] split_spec(s, sep)[k][j] != sep,
    decreases s.len(),
{
    if s.len() > 0 {
        lemma_split_pieces_free(s.drop_last(), sep);
        let init = split_spec(s.drop_last(), sep);
        let r = split_spec(s, sep);
        if s.last() != sep {
            assert forall|k: int, j: int| 0 <= k < r.len() && 0 <= j < r[k].len() implies #[trigger] r[k][j]
                != sep by {
                if k == init.len() - 1 {
                    if j < init.last().len() {
                        assert(r[k][j] == init[k][j]);
                    }
                } else {
                    assert(r[k] == init[k]);
                }
            }
        } else {
            assert forall|k: int, j: int| 0 <= k < r.len() && 0 <= j < r[k].len() implies #[trigger] r[k][j]
                != sep by {
                assert(r[k] == init[k]);
            }
        }
    }
}

// ---- Executable helpers ---------------------------------------------------

/// The characters of `s`, in order.
pub fn chars_of(s: &str) -> (r: Vec<char>)
    ensures
        r@ == s@,
{
    let mut out: Vec<char> = Vec::new();
    for c in it: s.chars()
        invariant
            out@ == it.history(),
    {
        out.push(c);
    }
    out
}

/// A string made of `cs[lo..hi]`.
pub fn string_from_range(cs: &Vec<char>, lo: usize, hi: usize) -> (r: String)
    requires
        lo <= hi <= cs@.len(),
    ensures
        r@ == cs@.subrange(lo as int, hi as int),
{
    let mut out = String::new();
    let mut i = lo;
    while i < hi
        invariant
            lo <= i <= hi <= cs@.len(),
            out@ == cs@.subrange(lo as int, i as int),
        decreases hi - i,
    {
        push_char(&mut out, cs[i]);
        assert(cs@.subrange(lo as int, i + 1) == cs@.subrange(lo as int, i as int).push(cs@[i as int]));
        i += 1;
    }
    out
}

/// A string made of all of `cs`.
pub fn string_from_chars(cs: &Vec<char>) -> (r: String)
    ensures
        r@ == cs@,
{
    let r = string_from_range(cs, 0, cs.len());
    assert(cs@.subrange(0, cs@.len() as int) == cs@);
    r
}

/// An owned copy of `s`.
pub fn to_owned_string(s: &str) -> (r: String)
    ensures
        r@ == s@,
{
    let cs = chars_of(s);
    string_from_chars(&cs)
}

/// Whether `a` and `b` have the same characters.
pub fn str_eq(a: &str, b: &str) -> (r: bool)
    ensures
        r == (a@ == b@),
{
    let x = chars_of(a);
    let y = chars_of(b);
    if x.len() != y.len() {
        return false;
    }
    let mut i: usize = 0;
    while i < x.len()
        invariant
            x@ == a@,
            y@ == b@,
            x@.len() == y@.len(),
            0 <= i <= x@.len(),
            forall|j: int| 0 <= j < i ==> x@[j] == y@[j],
        decreases x.len() - i,
    {
        if x[i] != y[i] {
            return false;
        }
        i += 1;
    }
    assert(x@ == y@);
    true
}

/// `s` with leading and trailing whitespace removed (as `str::trim`).
pub fn trim(s: &str) -> (r: String)
    ensures
        r@ == trim_spec(s@),
{
    let cs = chars_of(s);
    let n = cs.len();
    let mut start: usize = 0;
    while start < n && is_whitespace(cs[start])
        invariant
            cs@ == s@,
            n == cs@.len(),
            start <= n,
            forall|j: int| 0 <= j < start ==> spec_is_whitespace(#[trigger] cs@[j]),
        decreases n - start,
    {
        start += 1;
    }
    proof {
        lemma_trim_start_skip(cs@, start as int);
    }
    let ghost mid = cs@.subrange(start as int, n as int);
    assert(trim_start_spec(mid) == mid);
    let mut end: usize = n;
    while end > start && is_whitespace(cs[end - 1])
        invariant
            cs@ == s@,
            n == cs@.len(),
            start <= end <= n,
            forall|j: int| end <= j < n ==> spec_is_whitespace(#[trigger] cs@[j]),
        decreases end - start,
    {
        end -= 1;
    }
    proof {
        assert forall|j: int| (end - start) <= j < mid.len() implies spec_is_whitespace(#[trigger] mid[j]) by {
            assert(mid[j] == cs@[j + start]);
        }
        lemma_trim_end_skip(mid, (end - start) as int);
        assert(mid.subrange(0, (end - start) as int) == cs@.subrange(start as int, end as int));
        let t = cs@.subrange(start as int, end as int);
        if t.len() > 0 {
            assert(t.last() == cs@[end - 1]);
        }
        assert(trim_end_spec(t) == t);
    }
    string_from_range(&cs, start, end)
}

/// `s` with every trailing `c` removed (as `str::trim_end_matches(c)`).
pub fn trim_end_char(s: &str, c: char) -> (r: String)
    ensures
        r@ == trim_end_char_spec(s@, c),
{
    let cs = chars_of(s);
    let n = cs.len();
    let mut end: usize = n;
    while end > 0 && cs[end - 1] == c
        invariant
            cs@ == s@,
            n == cs@.len(),
            end <= n,
            forall|j: int| end <= j < n ==> #[trigger] cs@[j] == c,
        decreases end,
    {
        end -= 1;
    }
    proof {
        lemma_trim_end_char_skip(cs@, c, end as int);
        let t = cs@.subrange(0, end as int);
        if t.len() > 0 {
            assert(t.last() == cs@[end - 1]);
        }
        assert(trim_end_char_spec(t, c) == t);
    }
    string_from_range(&cs, 0, end)
}

/// The pieces of `s` between occurrences of `sep` (as `str::split(sep)`).
pub fn split_char(s: &str, sep: char) -> (r: Vec<String>)
    ensures
        views(r@) == split_spec(s@, sep),
{
    let cs = chars_of(s);
    let mut pieces: Vec<String> = Vec::new();
    let mut cur = String::new();
    let mut i: usize = 0;
    assert(cs@.take(0) == Seq::<char>::empty());
    while i < cs.len()
        invariant
            cs@ == s@,
            0 <= i <= cs@.len(),
            views(pieces@).push(cur@) == split_spec(cs@.take(i as int), sep),
        decreases cs.len() - i,
    {
        let c = cs[i];
        let ghost prev = cs@.take(i as int);
        assert(cs@.take(i + 1).drop_last() == prev);
        assert(cs@.take(i + 1).last() == c);
        let ghost old_pieces = pieces@;
        if c == sep {
            let done = cur;
            pieces.push(done);
            cur = String::new();
            assert(views(pieces@) =~= views(old_pieces).push(done@));
        } else {
            push_char(&mut cur, c);
        }
        assert(views(pieces@).push(cur@) =~= split_spec(cs@.take(i + 1), sep));
        i += 1;
    }
    assert(cs@.take(cs@.len() as int) == cs@);
    pieces.push(cur);
    assert(views(pieces@) =~= split_spec(s@, sep));
    pieces
}

/// The pieces joined with `sep` between neighbours (as `[String]::join(sep)`).
pub fn join(parts: &Vec<String>, sep: &str) -> (r: String)
    ensures
        r@ == join_spec(views(parts@), sep@),
{
    let sepc = chars_of(sep);
    let mut out = String::new();
    let mut i: usize = 0;
    assert(views(parts@).take(0) =~= Seq::<Seq<char>>::empty());
    while i < parts.len()
        invariant
            sepc@ == sep@,
            0 <= i <= parts@.len(),
            out@ == join_spec(views(parts@).take(i as int), sep@),
        decreases parts.len() - i,
    {
        let ghost before = out@;
        if i > 0 {
            append_chars(&mut out, &sepc);
        }
        let pc = chars_of(parts[i].as_str());
        append_chars(&mut out, &pc);
        proof {
            let t = views(parts@).take(i + 1);
            assert(t.drop_last() =~= views(parts@).take(i as int));
            assert(t.last() == parts@[i as int]@);
            if i == 0 {
                assert(t.len() == 1);
            }
        }
        i += 1;
    }
    assert(views(parts@).take(parts@.len() as int) =~= views(parts@));
    out
}

/// Appends the characters `cs` to `s`.
pub fn append_chars(s: &mut String, cs: &Vec<char>)
    ensures
        final(s)@ == old(s)@ + cs@,
{
    let mut i: usize = 0;
    while i < cs.len()
        invariant
            0 <= i <= cs@.len(),
            s@ == old(s)@ + cs@.take(i as int),
        decreases cs.len() - i,
    {
        push_char(s, cs[i]);
        assert(cs@.take(i + 1) == cs@.take(i as int).push(cs@[i as int]));
        i += 1;
    }
    assert(cs@.take(cs@.len() as int) == cs@);
}

/// Appends the characters of `t` to `s`.
pub fn append_str(s: &mut String, t: &str)
    ensures
        final(s)@ == old(s)@ + t@,
{
    let cs = chars_of(t);
    append_chars(s, &cs);
}

/// Whether `needle` occurs in `hay` (as `str::contains`).
pub fn contains(hay: &str, needle: &str) -> (r: bool)
    ensures
        r == contains_spec(hay@, needle@),
{
    let h = chars_of(hay);
    let n = chars_of(needle);
    if n.len() > h.len() {
        assert forall|i: int| !occurs_at(hay@, needle@, i) by {}
        return false;
    }
    let mut i: usize = 0;
    while i <= h.len() - n.len()
        invariant
            h@ == hay@,
            n@ == needle@,
            n@.len() <= h@.len(),
            i <= h@.len() - n@.len() + 1,
            forall|k: int| 0 <= k < i ==> !occurs_at(hay@, needle@, k),
        decreases h.len() - i,
    {
        let mut j: usize = 0;
        let mut ok = true;
        while j < n.len()
            invariant
                h@ == hay@,
                n@ == needle@,
                i + n@.len() <= h@.len(),
                i + n.len() <= h.len(),
                0 <= j <= n@.len(),
                ok == (forall|k: int| 0 <= k < j ==> h@[i + k] == n@[k]),
            decreases n.len() - j,
        {
            if h[i + j] != n[j] {
                ok = false;
            }
            j += 1;
        }
        if ok {
            assert(h@.subrange(i as int, i + n@.len()) =~= n@);
            assert(occurs_at(hay@, needle@, i as int));
            return true;
        } else {
            assert(!occurs_at(hay@, needle@, i as int)) by {
                if occurs_at(hay@, needle@, i as int) {
                    let k = choose|k: int| 0 <= k < n@.len() && h@[i + k] != n@[k];
                    assert(h@.subrange(i as int, i + n@.len())[k] == h@[i + k]);
                }
            }
        }
        i += 1;
    }
    assert forall|k: int| !occurs_at(hay@, needle@, k) by {
        if 0 <= k && k + needle@.len() <= hay@.len() {
            assert(k < i);
        }
    }
    false
}

/// Whether `s` ends with `suffix` (as `str::ends_with`).
pub fn ends_with(s: &str, suffix: &str) -> (r: bool)
    ensures
        r == ends_with_spec(s@, suffix@),
{
    let a = chars_of(s);
    let b = chars_of(suffix);
    if b.len() > a.len() {
        return false;
    }
    let off = a.len() - b.len();
    let mut j: usize = 0;
    while j < b.len()
        invariant
            a@ == s@,
            b@ == suffix@,
            off == a@.len() - b@.len(),
            b@.len() <= a@.len(),
            off + b.len() == a.len(),
            0 <= j <= b@.len(),
            forall|k: int| 0 <= k < j ==> a@[off + k] == b@[k],
        decreases b.len() - j,
    {
        if a[off + j] != b[j] {
            assert(a@.subrange(off as int, a@.len() as int)[j as int] == a@[off + j]);
            return false;
        }
        j += 1;
    }
    assert(a@.subrange(off as int, a@.len() as int) =~= b@);
    true
}

/// Whether `s` starts with `prefix` (as `str::starts_with`).
pub fn starts_with(s: &str, prefix: &str) -> (r: bool)
    ensures
        r == starts_with_spec(s@, prefix@),
{
    let a = chars_of(s);
    let b = chars_of(prefix);
    if b.len() > a.len() {
        return false;
    }
    let mut j: usize = 0;
    while j < b.len()
        invariant
            a@ == s@,
            b@ == prefix@,
            b@.len() <= a@.len(),
            0 <= j <= b@.len(),
            forall|k: int| 0 <= k < j ==> a@[k] == b@[k],
        decreases b.len() - j,
    {
        if a[j] != b[j] {
            assert(a@.subrange(0, b@.len() as int)[j as int] == a@[j as int]);
            return false;
        }
        j += 1;
    }
    assert(a@.subrange(0, b@.len() as int) =~= b@);
    true
}

/// Every `c` in `s` replaced by `rep` (as `str::replace(c, rep)`).
pub fn replace_char(s: &str, c: char, rep: &str) -> (r: String)
    ensures
        r@ == replace_char_spec(s@, c, rep@),
{
    let cs = chars_of(s);
    let rc = chars_of(rep);
    let mut out = String::new();
    let mut i: usize = 0;
    assert(cs@.take(0) =~= Seq::<char>::empty());
    while i < cs.len()
        invariant
            cs@ == s@,
            rc@ == rep@,
            0 <= i <= cs@.len(),
            out@ == replace_char_spec(cs@.take(i as int), c, rep@),
        decreases cs.len() - i,
    {
        let ghost before = out@;
        if cs[i] == c {
            append_chars(&mut out, &rc);
        } else {
            push_char(&mut out, cs[i]);
        }
        proof {
            let t = cs@.take(i + 1);
            assert(t.drop_last() =~= cs@.take(i as int));
            assert(t.last() == cs@[i as int]);
            assert(seq![cs@[i as int]] =~= Seq::<char>::empty().push(cs@[i as int]));
            assert(before.push(cs@[i as int]) =~= before + seq![cs@[i as int]]);
        }
        i += 1;
    }
    assert(cs@.take(cs@.len() as int) =~= cs@);
    out
}

// ---- Ordering of strings ------------------------------------------------------

/// `a` sorts before `b`: lexicographic by code point, a proper prefix first
/// (the order of `String`'s comparison).
pub open spec fn lex_lt(a: Seq<char>, b: Seq<char>) -> bool
    decreases a.len(),
{
    if a.len() == 0 {
        b.len() > 0
    } else if b.len() == 0 {
        false
    } else if a[0] != b[0] {
        (a[0] as u32) < (b[0] as u32)
    } else {
        lex_lt(a.drop_first(), b.drop_first())
    }
}

/// `a` sorts before `b` or equals it.
pub open spec fn lex_le(a: Seq<char>, b: Seq<char>) -> bool {
    a == b || lex_lt(a, b)
}

/// `s` is in ascending order.
pub open spec fn sorted(s: Seq<Seq<char>>) -> bool {
    forall|i: int, j: int| 0 <= i < j < s.len() ==> lex_le(#[trigger] s[i], #[trigger] s[j])
}

proof fn lemma_char_u32_inj(a: char, b: char)
    requires
        a != b,
    ensures
        (a as u32) != (b as u32),
{
    vstd::utf8::char_u32_cast(a, a as u32);
    vstd::utf8::char_u32_cast(b, b as u32);
}

proof fn lemma_lex_basic(a: Seq<char>, b: Seq<char>)
    ensures
        !lex_lt(a, a),
        lex_lt(a, b) ==> !lex_lt(b, a),
        a != b ==> lex_lt(a, b) || lex_lt(b, a),
    decreases a.len(),
{
    if a.len() > 0 && b.len() > 0 {
        lemma_lex_basic(a.drop_first(), b.drop_first());
        lemma_lex_basic(a.drop_first(), a.drop_first());
        if a[0] != b[0] {
            lemma_char_u32_inj(a[0], b[0]);
        }
        if a != b && a[0] == b[0] {
            assert(a.drop_first() != b.drop_first()) by {
                if a.drop_first() == b.drop_first() {
                    assert(a =~= seq![a[0]] + a.drop_first());
                    assert(b =~= seq![b[0]] + b.drop_first());
                }
            }
        }
    } else if a.len() == 0 && b.len() == 0 {
        assert(a =~= b);
    } else if a.len() > 0 {
        lemma_lex_basic(a.drop_first(), a.drop_first());
    }
}

proof fn lemma_lex_trans(a: Seq<char>, b: Seq<char>, c: Seq<char>)
    requires
        lex_lt(a, b),
        lex_lt(b, c),
    ensures
        lex_lt(a, c),
    decreases a.len(),
{
    if a.len() > 0 {
        if a[0] == b[0] && b[0] == c[0] {
            lemma_lex_trans(a.drop_first(), b.drop_first(), c.drop_first());
        }
    }
}

/// `lex_lt` is a strict total order.
pub proof fn lemma_lex_lt_order(a: Seq<char>, b: Seq<char>, c: Seq<char>)
    ensures
        !lex_lt(a, a),
        lex_lt(a, b) ==> !lex_lt(b, a),
        a != b ==> lex_lt(a, b) || lex_lt(b, a),
        lex_lt(a, b) && lex_lt(b, c) ==> lex_lt(a, c),
{
    lemma_lex_basic(a, b);
    if lex_lt(a, b) && lex_lt(b, c) {
        lemma_lex_trans(a, b, c);
    }
}

/// Whether `a` sorts before `b` (see `lex_lt`).
pub fn str_lt(a: &str, b: &str) -> (r: bool)
    ensures
        r == lex_lt(a@, b@),
{
    let x = chars_of(a);
    let y = chars_of(b);
    let mut i: usize = 0;
    assert(a@.skip(0) =~= a@);
    assert(b@.skip(0) =~= b@);
    while i < x.len() && i < y.len() && x[i] == y[i]
        invariant
            x@ == a@,
            y@ == b@,
            0 <= i <= x@.len(),
            i <= y@.len(),
            forall|k: int| 0 <= k < i ==> x@[k] == y@[k],
            lex_lt(a@, b@) == lex_lt(a@.skip(i as int), b@.skip(i as int)),
        decreases x.len() - i,
    {
        proof {
            let sa = a@.skip(i as int);
            let sb = b@.skip(i as int);
            assert(sa.drop_first() =~= a@.skip(i + 1));
            assert(sb.drop_first() =~= b@.skip(i + 1));
        }
        i += 1;
    }
    proof {
        let sa = a@.skip(i as int);
        let sb = b@.skip(i as int);
        if i < x@.len() {
            assert(sa[0] == x@[i as int]);
        }
        if i < y@.len() {
            assert(sb[0] == y@[i as int]);
        }
    }
    if i == x.len() {
        i < y.len()
    } else if i == y.len() {
        false
    } else {
        (x[i] as u32) < (y[i] as u32)
    }
}

/// `v` in ascending order (a permutation of it).
pub fn sort_strings(v: Vec<String>) -> (r: Vec<String>)
    ensures
        views(r@).to_multiset() == views(v@).to_multiset(),
        sorted(views(r@)),
{
    broadcast use vstd::seq_lib::group_to_multiset_ensures;
    broadcast use vstd::multiset::group_multiset_axioms;
    let ghost orig = views(v@);
    let mut rest = v;
    let mut out: Vec<String> = Vec::new();
    while rest.len() > 0
        invariant
            views(out@).to_multiset().add(views(rest@).to_multiset()) == orig.to_multiset(),
            sorted(views(out@)),
            forall|i: int, j: int|
                0 <= i < out@.len() && 0 <= j < rest@.len() ==> lex_le(#[trigger] out@[i]@, #[trigger] rest@[j]@),
        decreases rest.len(),
    {
        let mut m: usize = 0;
        let mut k: usize = 1;
        while k < rest.len()
            invariant
                0 <= m < rest@.len(),
                1 <= k <= rest@.len(),
                m < k,
                forall|j: int| 0 <= j < k ==> lex_le(rest@[m as int]@, #[trigger] rest@[j]@),
            decreases rest.len() - k,
        {
            if str_lt(rest[k].as_str(), rest[m].as_str()) {
                proof {
                    assert forall|j: int| 0 <= j < k + 1 implies lex_le(rest@[k as int]@, #[trigger] rest@[j]@) by {
                        lemma_lex_lt_order(rest@[k as int]@, rest@[m as int]@, rest@[j]@);
                        lemma_lex_lt_order(rest@[j]@, rest@[j]@, rest@[j]@);
                    }
                }
                m = k;
            } else {
                proof {
                    lemma_lex_lt_order(rest@[k as int]@, rest@[m as int]@, rest@[k as int]@);
                }
            }
            k += 1;
        }
        let ghost before_rest = rest@;
        let ghost before_out = out@;
        let e = rest.remove(m);
        out.push(e);
        proof {
            vstd::seq_lib::to_multiset_remove(views(before_rest), m as int);
            assert(views(rest@) =~= views(before_rest).remove(m as int));
            assert(views(out@) =~= views(before_out).push(e@));
            vstd::seq_lib::to_multiset_build(views(before_out), e@);
            assert(views(before_rest)[m as int] == e@);
            vstd::seq_lib::to_multiset_contains(views(before_rest), e@);
            assert(views(out@).to_multiset().add(views(rest@).to_multiset()) =~= orig.to_multiset());
            assert forall|i: int, j: int| 0 <= i < j < views(out@).len() implies lex_le(
                #[trigger] views(out@)[i],
                #[trigger] views(out@)[j],
            ) by {
                if j == views(out@).len() - 1 {
                    assert(out@[j] == e);
                    assert(before_rest[m as int] == e);
                    assert(lex_le(before_out[i]@, before_rest[m as int]@));
                } else {
                    assert(out@[i] == before_out[i]);
                    assert(out@[j] == before_out[j]);
                }
            }
            assert forall|i: int, j: int| 0 <= i < out@.len() && 0 <= j < rest@.len() implies lex_le(
                #[trigger] out@[i]@,
                #[trigger] rest@[j]@,
            ) by {
                let jj = if j < m {
                    j
                } else {
                    j + 1
                };
                assert(rest@[j] == before_rest[jj]);
                if i == out@.len() - 1 {
                    assert(out@[i] == before_rest[m as int]);
                } else {
                    assert(out@[i] == before_out[i]);
                }
            }
        }
    }
    assert(views(rest@) =~= Seq::<Seq<char>>::empty());
    assert(views(out@).to_multiset() =~= orig.to_multiset());
    out
}

} // verus!
