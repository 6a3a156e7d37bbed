//! Character-sequence utilities with their mathematical meaning.
//!
//! Strings are modelled as `Seq<char>` (the view of `str` and `String`).
//! The executable helpers work on `Vec<char>` and are proved against the
//! spec functions of this module.
use vstd::prelude::*;

verus! {

/// Appending a character to a `String` extends its character sequence by that character.
pub assume_specification[ String::push ](s: &mut String, ch: char)
    ensures
        final(s)@ == old(s)@.push(ch),
;

// ---------------------------------------------------------------------------
// Whitespace and trimming
// ---------------------------------------------------------------------------

/// Unicode `White_Space`, the set used by `char::is_whitespace` and `str::trim`.
pub open spec fn is_ws(c: char) -> bool {
    ||| c == ' '
    ||| ('\t' <= c && c <= '\r')
    ||| c == '\u{85}'
    ||| c == '\u{A0}'
    ||| c == '\u{1680}'
    ||| ('\u{2000}' <= c && c <= '\u{200A}')
    ||| c == '\u{2028}'
    ||| c == '\u{2029}'
    ||| c == '\u{202F}'
    ||| c == '\u{205F}'
    ||| c == '\u{3000}'
}

/// Number of leading whitespace characters.
pub open spec fn lead(s: Seq<char>) -> nat
    decreases s.len(),
{
    if s.len() == 0 {
        0
    } else if is_ws(s[0]) {
        1 + lead(s.drop_first())
    } else {
        0
    }
}

/// Number of trailing whitespace characters.
pub open spec fn trail(s: Seq<char>) -> nat
    decreases s.len(),
{
    if s.len() == 0 {
        0
    } else if is_ws(s.last()) {
        1 + trail(s.drop_last())
    } else {
        0
    }
}

/// `s` without leading and trailing whitespace (what `str::trim` returns).
pub open spec fn trim(s: Seq<char>) -> Seq<char> {
    let t = s.skip(lead(s) as int);
    t.take(t.len() - trail(t))
}

pub proof fn lemma_lead_bound(s: Seq<char>)
    ensures
        lead(s) <= s.len(),
        lead(s) < s.len() ==> !is_ws(s[lead(s) as int]),
        forall|j: int| 0 <= j < lead(s) ==> is_ws(#[trigger] s[j]),
    decreases s.len(),
{
    if s.len() > 0 && is_ws(s[0]) {
        lemma_lead_bound(s.drop_first());
        assert forall|j: int| 0 <= j < lead(s) implies is_ws(#[trigger] s[j]) by {
            if j > 0 {
                assert(s[j] == s.drop_first()[j - 1]);
            }
        }
    }
}

pub proof fn lemma_trail_bound(s: Seq<char>)
    ensures
        trail(s) <= s.len(),
        trail(s) < s.len() ==> !is_ws(s[s.len() - trail(s) - 1]),
        forall|j: int| s.len() - trail(s) <= j < s.len() ==> is_ws(#[trigger] s[j]),
    decreases s.len(),
{
    if s.len() > 0 && is_ws(s.last()) {
        lemma_trail_bound(s.drop_last());
        assert forall|j: int| s.len() - trail(s) <= j < s.len() implies is_ws(#[trigger] s[j]) by {
            if j < s.len() - 1 {
                assert(s[j] == s.drop_last()[j]);
            }
        }
    }
}

/// `lead` is the length of the maximal whitespace prefix.
pub proof fn lemma_lead_is(s: Seq<char>, i: int)
    requires
        0 <= i <= s.len(),
        forall|j: int| 0 <= j < i ==> is_ws(#[trigger] s[j]),
        i == s.len() || !is_ws(s[i]),
    ensures
        lead(s) == i,
    decreases i,
{
    if i > 0 {
        let d = s.drop_first();
        assert forall|j: int| 0 <= j < i - 1 implies is_ws(#[trigger] d[j]) by {
            assert(d[j] == s[j + 1]);
        }
        if i - 1 < d.len() {
            assert(d[i - 1] == s[i]);
        }
        lemma_lead_is(d, i - 1);
    }
}

/// `trail` is the length of the maximal whitespace suffix.
pub proof fn lemma_trail_is(s: Seq<char>, i: int)
    requires
        0 <= i <= s.len(),
        forall|j: int| s.len() - i <= j < s.len() ==> is_ws(#[trigger] s[j]),
        i == s.len() || !is_ws(s[s.len() - i - 1]),
    ensures
        trail(s) == i,
    decreases i,
{
    if i > 0 {
        let d = s.drop_last();
        assert forall|j: int| d.len() - (i - 1) <= j < d.len() implies is_ws(#[trigger] d[j]) by {
            assert(d[j] == s[j]);
        }
        if i - 1 < d.len() {
            assert(d[d.len() - (i - 1) - 1] == s[s.len() - i - 1]);
        }
        lemma_trail_is(d, i - 1);
    }
}

/// A sequence that neither starts nor ends with whitespace is its own trim.
pub proof fn lemma_trim_id(s: Seq<char>)
    requires
        s.len() > 0,
        !is_ws(s[0]),
        !is_ws(s.last()),
    ensures
        trim(s) == s,
{
    lemma_lead_is(s, 0);
    assert(s.skip(0) =~= s);
    lemma_trail_is(s, 0);
    assert(s.take(s.len() as int) =~= s);
}

/// Trimming ignores one more trailing whitespace character.
pub proof fn lemma_trim_push_ws(s: Seq<char>, c: char)
    requires
        is_ws(c),
    ensures
        trim(s.push(c)) == trim(s),
{
    let sc = s.push(c);
    lemma_lead_bound(s);
    let a = lead(s);
    if a == s.len() {
        // all whitespace: both trim to the empty sequence
        assert forall|j: int| 0 <= j < s.len() + 1 implies is_ws(#[trigger] sc[j]) by {
            if j < s.len() {
                assert(sc[j] == s[j]);
            }
        }
        lemma_lead_is(sc, (s.len() + 1) as int);
        assert(sc.skip(sc.len() as int) =~= Seq::<char>::empty());
        assert(s.skip(s.len() as int) =~= Seq::<char>::empty());
    } else {
        assert forall|j: int| 0 <= j < a implies is_ws(#[trigger] sc[j]) by {
            assert(sc[j] == s[j]);
        }
        assert(sc[a as int] == s[a as int]);
        lemma_lead_is(sc, a as int);
        let t = s.skip(a as int);
        let tc = sc.skip(a as int);
        assert(tc =~= t.push(c));
        lemma_trail_bound(t);
        let b = trail(t);
        assert forall|j: int| tc.len() - (b + 1) <= j < tc.len() implies is_ws(#[trigger] tc[j]) by {
            if j < tc.len() - 1 {
                assert(tc[j] == t[j]);
            }
        }
        // t is non-empty and starts with a non-whitespace character
        assert(t[0] == s[a as int]);
        assert(b < t.len()) by {
            if b == t.len() {
                assert(is_ws(t[0]));
            }
        }
        assert(tc[tc.len() - (b + 1) - 1] == t[t.len() - b - 1]);
        lemma_trail_is(tc, (b + 1) as int);
        assert(tc.take(tc.len() - (b + 1)) =~= t.take(t.len() - b));
    }
}

/// Exec: index of the first non-whitespace character.
pub fn lead_len(s: &Vec<char>) -> (r: usize)
    ensures
        r == lead(s@),
{
    let mut i: usize = 0;
    while i < s.len() && is_whitespace(s[i])
        invariant
            i <= s.len(),
            forall|j: int| 0 <= j < i ==> is_ws(#[trigger] s@[j]),
        decreases s.len() - i,
    {
        i = i + 1;
    }
    proof {
        lemma_lead_is(s@, i as int);
    }
    i
}

/// Exec: `char::is_whitespace`.
pub fn is_whitespace(c: char) -> (r: bool)
    ensures
        r == is_ws(c),
{
    c == ' ' || ('\t' <= c && c <= '\r') || c == '\u{85}' || c == '\u{A0}' || c == '\u{1680}'
        || ('\u{2000}' <= c && c <= '\u{200A}') || c == '\u{2028}' || c == '\u{2029}'
        || c == '\u{202F}' || c == '\u{205F}' || c == '\u{3000}'
}

/// Copy of `s[from..to]`.
pub fn slice_vec(s: &Vec<char>, from: usize, to: usize) -> (r: Vec<char>)
    requires
        from <= to <= s.len(),
    ensures
        r@ == s@.subrange(from as int, to as int),
{
    let mut r: Vec<char> = Vec::new();
    let mut i = from;
    while i < to
        invariant
            from <= i <= to <= s.len(),
            r@ == s@.subrange(from as int, i as int),
        decreases to - i,
    {
        r.push(s[i]);
        i = i + 1;
        assert(r@ =~= s@.subrange(from as int, i as int));
    }
    r
}

/// Exec: `str::trim` on a character vector.
pub fn trim_vec(s: &Vec<char>) -> (r: Vec<char>)
    ensures
        r@ == trim(s@),
{
    let a = lead_len(s);
    proof {
        lemma_lead_bound(s@);
    }
    let ghost t = s@.skip(a as int);
    let mut e = s.len();
    while e > a && is_whitespace(s[e - 1])
        invariant
            a <= e <= s.len(),
            a == lead(s@),
            t == s@.skip(a as int),
            forall|j: int| e - a <= j < t.len() ==> is_ws(#[trigger] t[j]),
        decreases e,
    {
        assert(t[e - 1 - a] == s@[e - 1]);
        e = e - 1;
    }
    proof {
        if e > a {
            assert(t[t.len() - (s.len() - e) - 1] == s@[e - 1]);
        }
        lemma_trail_is(t, (s.len() - e) as int);
        assert(t.take(t.len() - trail(t)) =~= s@.subrange(a as int, e as int));
    }
    slice_vec(s, a, e)
}

// ---------------------------------------------------------------------------
// Conversions between `str`/`String` and character vectors
// ---------------------------------------------------------------------------

/// The characters of `s`, in order.
pub fn chars_of(s: &str) -> (r: Vec<char>)
    ensures
        r@ == s@,
{
    broadcast use vstd::string::group_string_axioms;

    let mut v: Vec<char> = Vec::new();
    for c in it: s.chars()
        invariant
            v@ == it.seq().take(it.index() as int),
            it.seq() == s@,
        ensures
            v@ == s@,
    {
        v.push(c);
    }
    v
}

/// A `String` holding exactly the characters of `v`.
pub fn string_of(v: &Vec<char>) -> (r: String)
    ensures
        r@ == v@,
{
    let mut s = String::new();
    let mut i: usize = 0;
    while i < v.len()
        invariant
            i <= v.len(),
            s@ == v@.subrange(0, i as int),
        decreases v.len() - i,
    {
        s.push(v[i]);
        i = i + 1;
        assert(s@ =~= v@.subrange(0, i as int));
    }
    assert(v@.subrange(0, v.len() as int) =~= v@);
    s
}

/// Appends the characters of `t` to `v`.
pub fn push_str(v: &mut Vec<char>, t: &str)
    ensures
        final(v)@ == old(v)@ + t@,
{
    let c = chars_of(t);
    push_all(v, &c);
}

/// Appends the characters of `c` to `v`.
pub fn push_all(v: &mut Vec<char>, c: &Vec<char>)
    ensures
        final(v)@ == old(v)@ + c@,
{
    let ghost v0 = v@;
    let mut i: usize = 0;
    while i < c.len()
        invariant
            i <= c.len(),
            v@ == v0 + c@.subrange(0, i as int),
        decreases c.len() - i,
    {
        v.push(c[i]);
        i = i + 1;
        assert(v@ =~= v0 + c@.subrange(0, i as int));
    }
    assert(c@.subrange(0, c.len() as int) =~= c@);
}

/// Character-wise equality.
pub fn chars_eq(a: &Vec<char>, b: &Vec<char>) -> (r: bool)
    ensures
        r == (a@ == b@),
{
    if a.len() != b.len() {
        return false;
    }
    let mut i: usize = 0;
    while i < a.len()
        invariant
            a.len() == b.len(),
            i <= a.len(),
            forall|j: int| 0 <= j < i ==> a@[j] == b@[j],
        decreases a.len() - i,
    {
        if a[i] != b[i] {
            return false;
        }
        i = i + 1;
    }
    assert(a@ =~= b@);
    true
}

/// Equality of two string slices.
pub fn str_eq(a: &str, b: &str) -> (r: bool)
    ensures
        r == (a@ == b@),
{
    let x = chars_of(a);
    let y = chars_of(b);
    chars_eq(&x, &y)
}

/// The character sequences of a list of strings.
pub open spec fn strings_view(v: Seq<String>) -> Seq<Seq<char>> {
    v.map_values(|s: String| s@)
}

/// Exec: the strings joined with `sep` between consecutive ones.
pub fn join_strings(v: &Vec<String>, sep: &str) -> (r: String)
    ensures
        r@ == join(strings_view(v@), sep@),
{
    let mut parts: Vec<Vec<char>> = Vec::new();
    let mut i: usize = 0;
    while i < v.len()
        invariant
            i <= v.len(),
            parts@.map_values(|p: Vec<char>| p@) == strings_view(v@).take(i as int),
        decreases v.len() - i,
    {
        let c = chars_of(v[i].as_str());
        let ghost before = parts@;
        parts.push(c);
        assert(parts@.map_values(|p: Vec<char>| p@) =~= before.map_values(|p: Vec<char>| p@).push(c@));
        i = i + 1;
        assert(strings_view(v@).take(i as int) =~= strings_view(v@).take(i - 1).push(v@[i - 1]@));
    }
    assert(strings_view(v@).take(v.len() as int) =~= strings_view(v@));
    let s = chars_of(sep);
    let j = join_vec(&parts, &s);
    string_of(&j)
}

// ---------------------------------------------------------------------------
// Searching
// ---------------------------------------------------------------------------

/// `p` occurs in `s` at position `i`.
pub open spec fn match_at(s: Seq<char>, p: Seq<char>, i: int) -> bool {
    0 <= i && i + p.len() <= s.len() && s.subrange(i, i + p.len()) == p
}

/// `p` occurs somewhere in `s` (what `str::contains` tests).
pub open spec fn contains(s: Seq<char>, p: Seq<char>) -> bool {
    exists|i: int| match_at(s, p, i)
}

/// `s` begins with `p`.
pub open spec fn starts_with(s: Seq<char>, p: Seq<char>) -> bool {
    p.len() <= s.len() && s.take(p.len() as int) == p
}

/// Position of the first occurrence of `p` in `s` at or after `i`.
pub open spec fn find_from(s: Seq<char>, p: Seq<char>, i: int) -> Option<int>
    decreases s.len() + 1 - i,
{
    if i < 0 || i > s.len() || i + p.len() > s.len() {
        None
    } else if match_at(s, p, i) {
        Some(i)
    } else {
        find_from(s, p, i + 1)
    }
}

/// Position of the first occurrence of `p` in `s` (what `str::find` locates).
pub open spec fn find(s: Seq<char>, p: Seq<char>) -> Option<int> {
    find_from(s, p, 0)
}

pub proof fn lemma_find_from(s: Seq<char>, p: Seq<char>, i: int)
    requires
        0 <= i,
    ensures
        find_from(s, p, i) matches Some(k) ==> i <= k && match_at(s, p, k) && forall|j: int|
            i <= j < k ==> !match_at(s, p, j),
        find_from(s, p, i) is None ==> forall|j: int| i <= j ==> !match_at(s, p, j),
    decreases s.len() + 1 - i,
{
    if i > s.len() || i + p.len() > s.len() {
    } else if match_at(s, p, i) {
    } else {
        lemma_find_from(s, p, i + 1);
        assert forall|j: int| i <= j && !(find_from(s, p, i + 1) matches Some(k) && k <= j) implies !match_at(s, p, j) by {
            if j > i {
            }
        }
    }
}

/// `find` gives the least matching position, and `None` exactly when `p` does not occur.
pub proof fn lemma_find(s: Seq<char>, p: Seq<char>)
    ensures
        find(s, p) matches Some(k) ==> match_at(s, p, k) && forall|j: int|
            0 <= j < k ==> !match_at(s, p, j),
        find(s, p) is None <==> !contains(s, p),
{
    lemma_find_from(s, p, 0);
}

/// Exec: does `p` occur in `s` at `i`?
pub fn matches_at(s: &Vec<char>, p: &Vec<char>, i: usize) -> (r: bool)
    ensures
        r == match_at(s@, p@, i as int),
{
    if i > s.len() || p.len() > s.len() - i {
        return false;
    }
    let mut j: usize = 0;
    while j < p.len()
        invariant
            i + p.len() <= s.len(),
            j <= p.len(),
            forall|k: int| 0 <= k < j ==> s@[i + k] == p@[k],
        decreases p.len() - j,
    {
        if s[i + j] != p[j] {
            assert(s@.subrange(i as int, i + p.len())[j as int] != p@[j as int]);
            return false;
        }
        j = j + 1;
    }
    assert(s@.subrange(i as int, i + p.len()) =~= p@);
    true
}

/// Exec: first occurrence of `p` in `s`.
pub fn find_vec(s: &Vec<char>, p: &Vec<char>) -> (r: Option<usize>)
    ensures
        r matches Some(k) ==> find(s@, p@) == Some(k as int),
        r is None ==> find(s@, p@) is None,
{
    proof {
        lemma_find(s@, p@);
    }
    if p.len() > s.len() {
        proof {
            assert forall|j: int| !match_at(s@, p@, j) by {}
        }
        return None;
    }
    if p.len() == 0 {
        proof {
            assert(s@.subrange(0, 0) =~= p@);
            assert(match_at(s@, p@, 0));
        }
        return Some(0);
    }
    let mut i: usize = 0;
    while i < s.len() - p.len() + 1
        invariant
            0 < p.len() <= s.len(),
            i <= s.len() - p.len() + 1,
            forall|j: int| 0 <= j < i ==> !match_at(s@, p@, j),
        decreases s.len() - p.len() + 1 - i,
    {
        if matches_at(s, p, i) {
            proof {
                lemma_find(s@, p@);
                assert(contains(s@, p@));
                let k = find(s@, p@)->0;
                assert(!(k < i));
                assert(!(k > i));
            }
            return Some(i);
        }
        i = i + 1;
    }
    proof {
        assert forall|j: int| !match_at(s@, p@, j) by {
            if j >= i {
            }
        }
    }
    None
}

/// Exec: `str::contains`.
pub fn contains_str(s: &str, p: &str) -> (r: bool)
    ensures
        r == contains(s@, p@),
{
    let x = chars_of(s);
    let y = chars_of(p);
    proof {
        lemma_find(x@, y@);
    }
    find_vec(&x, &y).is_some()
}

/// Exec: `str::starts_with` on character vectors.
pub fn starts_with_vec(s: &Vec<char>, p: &Vec<char>) -> (r: bool)
    ensures
        r == starts_with(s@, p@),
{
    let r = matches_at(s, p, 0);
    proof {
        if r {
            assert(s@.subrange(0, p@.len() as int) =~= s@.take(p@.len() as int));
        } else if starts_with(s@, p@) {
            assert(s@.subrange(0, p@.len() as int) =~= s@.take(p@.len() as int));
        }
    }
    r
}

// ---------------------------------------------------------------------------
// Replacing, joining, splitting into lines
// ---------------------------------------------------------------------------

/// `s` with every non-overlapping occurrence of `from`, scanned left to right,
/// replaced by `to` (what `str::replace` returns for a non-empty pattern).
pub open spec fn replace(s: Seq<char>, from: Seq<char>, to: Seq<char>) -> Seq<char>
    decreases s.len(),
{
    if from.len() == 0 {
        s
    } else {
        match find(s, from) {
            None => s,
            Some(i) => if 0 <= i && i + from.len() <= s.len() {
                s.take(i) + to + replace(s.skip(i + from.len()), from, to)
            } else {
                s
            },
        }
    }
}

/// Exec: `str::replace` with a non-empty pattern.
pub fn replace_str(s: &str, from: &str, to: &str) -> (r: String)
    requires
        from@.len() > 0,
    ensures
        r@ == replace(s@, from@, to@),
{
    let sv = chars_of(s);
    let fv = chars_of(from);
    let tv = chars_of(to);
    let out = replace_vec(&sv, &fv, &tv);
    string_of(&out)
}

pub fn replace_vec(s: &Vec<char>, from: &Vec<char>, to: &Vec<char>) -> (r: Vec<char>)
    requires
        from@.len() > 0,
    ensures
        r@ == replace(s@, from@, to@),
    decreases s.len(),
{
    match find_vec(s, from) {
        None => slice_vec(s, 0, s.len()),
        Some(i) => {
            proof {
                lemma_find(s@, from@);
            }
            let mut out = slice_vec(s, 0, i);
            push_all(&mut out, to);
            let rest = slice_vec(s, i + from.len(), s.len());
            let tail = replace_vec(&rest, from, to);
            push_all(&mut out, &tail);
            assert(rest@ =~= s@.skip(i + from@.len()));
            assert(out@ =~= s@.take(i as int) + to@ + replace(s@.skip(i + from@.len()), from@, to@));
            out
        },
    }
}

/// `parts` joined with `sep` between consecutive parts (what `join` builds).
pub open spec fn join(parts: Seq<Seq<char>>, sep: Seq<char>) -> Seq<char>
    decreases parts.len(),
{
    if parts.len() == 0 {
        Seq::empty()
    } else if parts.len() == 1 {
        parts[0]
    } else {
        parts[0] + sep + join(parts.drop_first(), sep)
    }
}

/// Exec: joins the parts with `sep`.
pub fn join_vec(parts: &Vec<Vec<char>>, sep: &Vec<char>) -> (r: Vec<char>)
    ensures
        r@ == join(parts@.map_values(|p: Vec<char>| p@), sep@),
{
    let ghost ps = parts@.map_values(|p: Vec<char>| p@);
    let mut out: Vec<char> = Vec::new();
    if parts.len() == 0 {
        assert(ps.len() == 0);
        return out;
    }
    // Build from the back: out == join(ps.skip(i))
    let mut i: usize = parts.len() - 1;
    push_all(&mut out, &parts[i]);
    assert(ps.skip(i as int) =~= seq![ps[i as int]]);
    while i > 0
        invariant
            0 <= i < parts.len(),
            ps == parts@.map_values(|p: Vec<char>| p@),
            out@ == join(ps.skip(i as int), sep@),
        decreases i,
    {
        let mut next = slice_vec(&parts[i - 1], 0, parts[i - 1].len());
        push_all(&mut next, sep);
        push_all(&mut next, &out);
        assert(ps.skip(i - 1).drop_first() =~= ps.skip(i as int));
        assert(ps.skip(i - 1)[0] == ps[i - 1]);
        assert(parts@[i - 1]@.subrange(0, parts@[i - 1]@.len() as int) =~= parts@[i - 1]@);
        out = next;
        i = i - 1;
    }
    assert(ps.skip(0) =~= ps);
    out
}

/// `s` without a final carriage return.
pub open spec fn strip_cr(s: Seq<char>) -> Seq<char> {
    if s.len() > 0 && s.last() == '\r' {
        s.drop_last()
    } else {
        s
    }
}

/// The lines of `s`, split at `\n`, each without a `\r` that preceded its `\n`;
/// a final line ending adds no empty line (what `str::lines` yields).
pub open spec fn lines(s: Seq<char>) -> Seq<Seq<char>>
    decreases s.len(),
{
    if s.len() == 0 {
        Seq::empty()
    } else {
        match find(s, seq!['\n']) {
            None => seq![s],
            Some(i) => if 0 <= i < s.len() {
                seq![strip_cr(s.take(i))] + lines(s.skip(i + 1))
            } else {
                seq![s]
            },
        }
    }
}

/// Exec: `str::lines` on a character vector.
pub fn lines_vec(s: &Vec<char>) -> (r: Vec<Vec<char>>)
    ensures
        r@.map_values(|l: Vec<char>| l@) == lines(s@),
    decreases s.len(),
{
    let mut out: Vec<Vec<char>> = Vec::new();
    if s.len() == 0 {
        assert(out@.map_values(|l: Vec<char>| l@) =~= lines(s@));
        return out;
    }
    let nl = vec!['\n'];
    assert(nl@ =~= seq!['\n']);
    match find_vec(s, &nl) {
        None => {
            out.push(slice_vec(s, 0, s.len()));
            assert(s@.subrange(0, s@.len() as int) =~= s@);
            assert(out@.map_values(|l: Vec<char>| l@) =~= lines(s@));
            out
        },
        Some(i) => {
            proof {
                lemma_find(s@, nl@);
            }
            let mut first = slice_vec(s, 0, i);
            if first.len() > 0 && first[first.len() - 1] == '\r' {
                first.pop();
            }
            assert(first@ == strip_cr(s@.take(i as int)));
            let rest = slice_vec(s, i + 1, s.len());
            assert(rest@ =~= s@.skip(i + 1));
            let tail = lines_vec(&rest);
            out.push(first);
            let mut k: usize = 0;
            let ghost tv = tail@.map_values(|l: Vec<char>| l@);
            while k < tail.len()
                invariant
                    k <= tail.len(),
                    tv == tail@.map_values(|l: Vec<char>| l@),
                    out@.map_values(|l: Vec<char>| l@) == seq![strip_cr(s@.take(i as int))]
                        + tv.take(k as int),
                decreases tail.len() - k,
            {
                let line = slice_vec(&tail[k], 0, tail[k].len());
                assert(tail@[k as int]@.subrange(0, tail@[k as int]@.len() as int) =~= tail@[k as int]@);
                assert(line@ == tv[k as int]);
                let ghost before = out@;
                out.push(line);
                proof {
                    assert(out@ == before.push(line));
                    assert(out@.map_values(|l: Vec<char>| l@) =~= before.map_values(|l: Vec<char>| l@).push(line@));
                    assert(tv.take(k + 1) =~= tv.take(k as int).push(tv[k as int]));
                }
                k = k + 1;
                assert(out@.map_values(|l: Vec<char>| l@) =~= seq![strip_cr(s@.take(i as int))]
                    + tv.take(k as int));
            }
            assert(tv.take(tail.len() as int) =~= tv);
            out
        },
    }
}

// ---------------------------------------------------------------------------
// Numbers
// ---------------------------------------------------------------------------

/// The decimal digit character for `d < 10`.
pub open spec fn digit_char(d: int) -> char {
    (d + 48) as char
}

/// `n` in decimal notation, without leading zeros (what `to_string` gives).
pub open spec fn decimal(n: nat) -> Seq<char>
    decreases n,
{
    if n < 10 {
        seq![digit_char(n as int)]
    } else {
        decimal(n / 10).push(digit_char((n % 10) as int))
    }
}

/// Exec: decimal notation of `n`.
pub fn decimal_vec(n: u64) -> (r: Vec<char>)
    ensures
        r@ == decimal(n as nat),
    decreases n,
{
    let d = (n % 10) as u8;
    let c = (48u8 + d) as char;
    if n < 10 {
        let v = vec![c];
        assert(v@ =~= decimal(n as nat));
        v
    } else {
        let mut v = decimal_vec(n / 10);
        v.push(c);
        v
    }
}

/// Exec: decimal notation of `n` as a `String`.
pub fn decimal_string(n: u64) -> (r: String)
    ensures
        r@ == decimal(n as nat),
{
    let v = decimal_vec(n);
    string_of(&v)
}

pub open spec fn is_digit(c: char) -> bool {
    '0' <= c && c <= '9'
}

/// Value of a sequence of decimal digits.
pub open spec fn digits_value(s: Seq<char>) -> nat
    decreases s.len(),
{
    if s.len() == 0 {
        0
    } else {
        digits_value(s.drop_last()) * 10 + (s.last() as nat - 48) as nat
    }
}

/// What `str::parse` gives for an unsigned integer type whose largest value is `max`:
/// an optional `+`, then one or more decimal digits whose value does not exceed `max`.
/// The digits part of an unsigned number: `s` without one leading `+`.
pub open spec fn unsigned_digits(s: Seq<char>) -> Seq<char> {
    if s.len() > 0 && s[0] == '+' {
        s.drop_first()
    } else {
        s
    }
}

pub open spec fn parse_unsigned(s: Seq<char>, max: nat) -> Option<nat> {
    let d = unsigned_digits(s);
    if d.len() == 0 || exists|i: int| 0 <= i < d.len() && !is_digit(#[trigger] d[i]) {
        None
    } else if digits_value(d) > max {
        None
    } else {
        Some(digits_value(d))
    }
}

proof fn lemma_digits_value_mono(s: Seq<char>, i: int)
    requires
        0 <= i <= s.len(),
        forall|j: int| 0 <= j < s.len() ==> is_digit(#[trigger] s[j]),
    ensures
        digits_value(s.take(i)) <= digits_value(s),
    decreases s.len() - i,
{
    if i < s.len() {
        lemma_digits_value_mono(s, i + 1);
        assert(s.take(i + 1).drop_last() =~= s.take(i));
        assert(s.take(i + 1).last() == s[i]);
        assert(digits_value(s.take(i + 1)) >= digits_value(s.take(i)) * 10) by {
            assert(is_digit(s[i]));
        }
        assert(digits_value(s.take(i)) * 10 >= digits_value(s.take(i))) by (nonlinear_arith);
    } else {
        assert(s.take(s.len() as int) =~= s);
    }
}

/// Exec: parses an unsigned decimal integer no larger than `max`.
pub fn parse_unsigned_vec(s: &Vec<char>, max: u32) -> (r: Option<u32>)
    ensures
        r matches Some(v) ==> parse_unsigned(s@, max as nat) == Some(v as nat),
        r is None ==> parse_unsigned(s@, max as nat) is None,
{
    let start: usize = if s.len() > 0 && s[0] == '+' { 1 } else { 0 };
    let ghost d = unsigned_digits(s@);
    assert(d =~= s@.skip(start as int));
    if start >= s.len() {
        assert(d.len() == 0);
        return None;
    }
    let mut acc: u64 = 0;
    let mut i = start;
    while i < s.len()
        invariant
            start <= i <= s.len(),
            d == s@.skip(start as int),
            d == unsigned_digits(s@),
            forall|j: int| 0 <= j < i - start ==> is_digit(#[trigger] d[j]),
            acc == digits_value(d.take(i - start)),
            acc <= max,
        decreases s.len() - i,
    {
        let c = s[i];
        if !('0' <= c && c <= '9') {
            assert(!is_digit(d[i - start]));
            return None;
        }
        let v = (c as u32 - 48) as u64;
        assert(d.take(i + 1 - start).drop_last() =~= d.take(i - start));
        assert(d[i - start] == c);
        assert(d.take(i + 1 - start).last() == c);
        let next = acc * 10 + v;
        i = i + 1;
        if next > max as u64 {
            proof {
                assert(forall|j: int| 0 <= j < i - start ==> is_digit(#[trigger] d[j]));
                if forall|j: int| 0 <= j < d.len() ==> is_digit(#[trigger] d[j]) {
                    lemma_digits_value_mono(d, i - start);
                }
            }
            return None;
        }
        acc = next;
    }
    assert(d.take(d.len() as int) =~= d);
    Some(acc as u32)
}

// ---------------------------------------------------------------------------
// ASCII case
// ---------------------------------------------------------------------------

pub open spec fn ascii_lower(c: char) -> char {
    if 'A' <= c && c <= 'Z' {
        ((c as int) + 32) as char
    } else {
        c
    }
}

/// What `str::eq_ignore_ascii_case` tests.
pub open spec fn eq_ignore_ascii_case(a: Seq<char>, b: Seq<char>) -> bool {
    a.len() == b.len() && forall|i: int| 0 <= i < a.len() ==> ascii_lower(#[trigger] a[i]) == ascii_lower(b[i])
}

fn to_ascii_lower(c: char) -> (r: char)
    ensures
        r == ascii_lower(c),
{
    if 'A' <= c && c <= 'Z' {
        ((c as u8) + 32) as char
    } else {
        c
    }
}

/// Exec: ASCII case-insensitive comparison.
pub fn eq_ignore_ascii_case_vec(a: &Vec<char>, b: &Vec<char>) -> (r: bool)
    ensures
        r == eq_ignore_ascii_case(a@, b@),
{
    if a.len() != b.len() {
        return false;
    }
    let mut i: usize = 0;
    while i < a.len()
        invariant
            a.len() == b.len(),
            i <= a.len(),
            forall|j: int| 0 <= j < i ==> ascii_lower(#[trigger] a@[j]) == ascii_lower(b@[j]),
        decreases a.len() - i,
    {
        if to_ascii_lower(a[i]) != to_ascii_lower(b[i]) {
            return false;
        }
        i = i + 1;
    }
    true
}

} // verus!
