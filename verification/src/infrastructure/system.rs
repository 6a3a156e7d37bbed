//! Interpretation of what the system probes return: sshd_config reading and
//! rewriting, group membership, command outputs, and the audit report built
//! from them. Running the probes themselves is the caller's business.
use vstd::prelude::*;

use crate::domain::audit::{
    pm_name, report_status, status_icon, AuditItem, AuditReport, AuditStatus, PackageManager,
};
use crate::domain::steps::StepKind;
use crate::text::{
    contains, contains_str, decimal, digit_char, decimal_vec, digits_value, eq_ignore_ascii_case,
    eq_ignore_ascii_case_vec, find_vec, is_digit, join_strings, parse_unsigned, parse_unsigned_vec,
    push_str, strings_view, unsigned_digits,
    chars_of, find, is_ws, join, join_vec, lemma_find, lemma_lead_bound, lemma_lead_is, lemma_trail_is,
    lemma_trim_id, lemma_trim_push_ws, lines, lines_vec, match_at, push_all, slice_vec, starts_with,
    starts_with_vec, string_of, strip_cr, trim, trim_vec,
};

verus! {

// ---------------------------------------------------------------------------
// sshd_config: reading a directive
// ---------------------------------------------------------------------------

/// The value a single sshd_config line gives to `key`: the line, trimmed, is not
/// empty, is not a comment, starts with `key` followed by a space or tab; the
/// value is the rest, trimmed.
pub open spec fn line_value(line: Seq<char>, key: Seq<char>) -> Option<Seq<char>> {
    let t = trim(line);
    if t.len() == 0 || t[0] == '#' {
        None
    } else if starts_with(t, key) {
        let rest = t.skip(key.len() as int);
        if rest.len() > 0 && (rest[0] == ' ' || rest[0] == '\t') {
            Some(trim(rest))
        } else {
            None
        }
    } else {
        None
    }
}

/// The value given to `key` by the last line that gives one.
pub open spec fn last_value(ls: Seq<Seq<char>>, key: Seq<char>) -> Option<Seq<char>>
    decreases ls.len(),
{
    if ls.len() == 0 {
        None
    } else {
        match line_value(ls.last(), key) {
            Some(v) => Some(v),
            None => last_value(ls.drop_last(), key),
        }
    }
}

/// The value of directive `key` in sshd_config text `content` (the last occurrence wins).
pub open spec fn config_value(content: Seq<char>, key: Seq<char>) -> Option<Seq<char>> {
    last_value(lines(content), key)
}

fn line_value_vec(line: &Vec<char>, key: &Vec<char>) -> (r: Option<Vec<char>>)
    ensures
        match r {
            Some(v) => line_value(line@, key@) == Some(v@),
            None => line_value(line@, key@) is None,
        },
{
    let t = trim_vec(line);
    if t.len() == 0 || t[0] == '#' {
        return None;
    }
    if !starts_with_vec(&t, key) {
        return None;
    }
    let rest = slice_vec(&t, key.len(), t.len());
    assert(rest@ =~= t@.skip(key@.len() as int));
    if rest.len() > 0 && (rest[0] == ' ' || rest[0] == '\t') {
        Some(trim_vec(&rest))
    } else {
        None
    }
}

/// The value of directive `key` in sshd_config text `content`.
pub fn sshd_config_get(content: &str, key: &str) -> (r: Option<String>)
    ensures
        match r {
            Some(v) => config_value(content@, key@) == Some(v@),
            None => config_value(content@, key@) is None,
        },
{
    let c = chars_of(content);
    let k = chars_of(key);
    let ls = lines_vec(&c);
    let ghost lv = ls@.map_values(|l: Vec<char>| l@);
    let mut value: Option<Vec<char>> = None;
    let mut i: usize = 0;
    while i < ls.len()
        invariant
            i <= ls.len(),
            lv == ls@.map_values(|l: Vec<char>| l@),
            match value {
                Some(v) => last_value(lv.take(i as int), k@) == Some(v@),
                None => last_value(lv.take(i as int), k@) is None,
            },
        decreases ls.len() - i,
    {
        let lval = line_value_vec(&ls[i], &k);
        proof {
            let t = lv.take(i + 1);
            assert(t.drop_last() =~= lv.take(i as int));
            assert(t.last() == ls@[i as int]@);
        }
        if lval.is_some() {
            value = lval;
        }
        i = i + 1;
    }
    assert(lv.take(ls.len() as int) =~= lv);
    match value {
        Some(v) => Some(string_of(&v)),
        None => None,
    }
}

// ---------------------------------------------------------------------------
// sshd_config: setting a directive
// ---------------------------------------------------------------------------

/// The line is an active directive (not blank, not a comment) that starts with `key`.
pub open spec fn line_matches(line: Seq<char>, key: Seq<char>) -> bool {
    let t = trim(line);
    !(t.len() == 0 || t[0] == '#') && starts_with(t, key)
}

/// `key value`
pub open spec fn directive(key: Seq<char>, value: Seq<char>) -> Seq<char> {
    key + seq![' '] + value
}

pub open spec fn rewrite_line(line: Seq<char>, key: Seq<char>, value: Seq<char>) -> Seq<char> {
    if line_matches(line, key) {
        directive(key, value)
    } else {
        line
    }
}

pub open spec fn rewrite_lines(ls: Seq<Seq<char>>, key: Seq<char>, value: Seq<char>) -> Seq<Seq<char>> {
    ls.map_values(|l: Seq<char>| rewrite_line(l, key, value))
}

/// sshd_config text after setting `key` to `value`: every active line that starts
/// with `key` becomes `key value`, lines are rejoined with `\n`, and when no line
/// matched, `\nkey value\n` is appended.
pub open spec fn rewrite_config(content: Seq<char>, key: Seq<char>, value: Seq<char>) -> Seq<char> {
    let ls = lines(content);
    let body = join(rewrite_lines(ls, key, value), seq!['\n']);
    if exists|i: int| 0 <= i < ls.len() && line_matches(#[trigger] ls[i], key) {
        body
    } else {
        body + seq!['\n'] + directive(key, value) + seq!['\n']
    }
}

fn line_matches_vec(line: &Vec<char>, key: &Vec<char>) -> (r: bool)
    ensures
        r == line_matches(line@, key@),
{
    let t = trim_vec(line);
    if t.len() == 0 || t[0] == '#' {
        return false;
    }
    starts_with_vec(&t, key)
}

/// The sshd_config text `content` with directive `key` set to `value`.
pub fn rewrite_sshd_config(content: &str, key: &str, value: &str) -> (r: String)
    ensures
        r@ == rewrite_config(content@, key@, value@),
{
    let c = chars_of(content);
    let k = chars_of(key);
    let v = chars_of(value);
    let ls = lines_vec(&c);
    let ghost lv = ls@.map_values(|l: Vec<char>| l@);
    let mut kv = slice_vec(&k, 0, k.len());
    kv.push(' ');
    push_all(&mut kv, &v);
    assert(kv@ =~= directive(k@, v@));
    let mut out: Vec<Vec<char>> = Vec::new();
    let mut found = false;
    let mut i: usize = 0;
    while i < ls.len()
        invariant
            i <= ls.len(),
            lv == ls@.map_values(|l: Vec<char>| l@),
            kv@ == directive(k@, v@),
            out@.map_values(|l: Vec<char>| l@) == rewrite_lines(lv.take(i as int), k@, v@),
            found == exists|j: int| 0 <= j < i && line_matches(#[trigger] lv[j], k@),
        decreases ls.len() - i,
    {
        let m = line_matches_vec(&ls[i], &k);
        let line = if m {
            slice_vec(&kv, 0, kv.len())
        } else {
            slice_vec(&ls[i], 0, ls[i].len())
        };
        proof {
            assert(kv@.subrange(0, kv@.len() as int) =~= kv@);
            assert(ls@[i as int]@.subrange(0, ls@[i as int]@.len() as int) =~= ls@[i as int]@);
            assert(line@ == rewrite_line(lv[i as int], k@, v@));
        }
        let ghost before = out@;
        out.push(line);
        proof {
            assert(out@.map_values(|l: Vec<char>| l@) =~= before.map_values(|l: Vec<char>| l@).push(line@));
            assert(lv.take(i + 1) =~= lv.take(i as int).push(lv[i as int]));
            assert(rewrite_lines(lv.take(i + 1), k@, v@) =~= rewrite_lines(lv.take(i as int), k@, v@).push(
                rewrite_line(lv[i as int], k@, v@),
            ));
        }
        if m {
            found = true;
        }
        i = i + 1;
    }
    assert(lv.take(ls.len() as int) =~= lv);
    let nl = vec!['\n'];
    assert(nl@ =~= seq!['\n']);
    let mut body = join_vec(&out, &nl);
    if !found {
        body.push('\n');
        push_all(&mut body, &kv);
        body.push('\n');
        assert(body@ =~= join(rewrite_lines(lv, k@, v@), seq!['\n']) + seq!['\n'] + directive(k@, v@)
            + seq!['\n']);
    }
    string_of(&body)
}

// ---------------------------------------------------------------------------
// Read-after-write
// ---------------------------------------------------------------------------

pub open spec fn has_no_newline(s: Seq<char>) -> bool {
    forall|i: int| 0 <= i < s.len() ==> s[i] != '\n'
}

proof fn lemma_line_value_strip_cr(l: Seq<char>, key: Seq<char>)
    ensures
        line_value(strip_cr(l), key) == line_value(l, key),
{
    if l.len() > 0 && l.last() == '\r' {
        assert(l =~= l.drop_last().push('\r'));
        lemma_trim_push_ws(l.drop_last(), '\r');
    }
}

proof fn lemma_find_newline_at(s: Seq<char>, k: int)
    requires
        0 <= k < s.len(),
        s[k] == '\n',
        forall|j: int| 0 <= j < k ==> s[j] != '\n',
    ensures
        find(s, seq!['\n']) == Some(k),
{
    lemma_find(s, seq!['\n']);
    assert(s.subrange(k, k + 1) =~= seq!['\n']);
    assert(match_at(s, seq!['\n'], k));
    let f = find(s, seq!['\n']);
    assert(f is Some);
    let m = f->0;
    if m < k {
        assert(s.subrange(m, m + 1)[0] == s[m]);
    }
    if m > k {
        assert(match_at(s, seq!['\n'], k));
    }
}

proof fn lemma_no_newline_lines(s: Seq<char>)
    requires
        has_no_newline(s),
        s.len() > 0,
    ensures
        lines(s) == seq![s],
{
    lemma_find(s, seq!['\n']);
    if find(s, seq!['\n']) is Some {
        let m = find(s, seq!['\n'])->0;
        assert(s.subrange(m, m + 1)[0] == s[m]);
    }
}

/// Each line produced by `lines` contains no line feed.
pub proof fn lemma_lines_no_newline(s: Seq<char>)
    ensures
        forall|i: int| 0 <= i < lines(s).len() ==> has_no_newline(#[trigger] lines(s)[i]),
    decreases s.len(),
{
    if s.len() == 0 {
    } else {
        lemma_find(s, seq!['\n']);
        match find(s, seq!['\n']) {
            None => {
                assert forall|j: int| 0 <= j < s.len() implies s[j] != '\n' by {
                    if s[j] == '\n' {
                        assert(s.subrange(j, j + 1) =~= seq!['\n']);
                        assert(match_at(s, seq!['\n'], j));
                    }
                }
            },
            Some(k) => {
                lemma_lines_no_newline(s.skip(k + 1));
                let first = strip_cr(s.take(k));
                assert forall|j: int| 0 <= j < first.len() implies first[j] != '\n' by {
                    if first[j] == '\n' {
                        assert(s[j] == '\n');
                        assert(s.subrange(j, j + 1) =~= seq!['\n']);
                        assert(match_at(s, seq!['\n'], j));
                    }
                }
                let ls = lines(s);
                assert forall|i: int| 0 <= i < ls.len() implies has_no_newline(#[trigger] ls[i]) by {
                    if i > 0 {
                        assert(ls[i] == lines(s.skip(k + 1))[i - 1]);
                    }
                }
            },
        }
    }
}

proof fn lemma_last_value_cons(x: Seq<char>, ls: Seq<Seq<char>>, key: Seq<char>)
    ensures
        last_value(seq![x] + ls, key) == match last_value(ls, key) {
            Some(v) => Some(v),
            None => line_value(x, key),
        },
    decreases ls.len(),
{
    let xs = seq![x] + ls;
    if ls.len() == 0 {
        assert(xs =~= seq![x]);
        assert(xs.drop_last() =~= Seq::<Seq<char>>::empty());
        assert(last_value(xs.drop_last(), key) is None);
        assert(last_value(ls, key) is None);
    } else {
        assert(xs.last() == ls.last());
        assert(xs.drop_last() =~= seq![x] + ls.drop_last());
        lemma_last_value_cons(x, ls.drop_last(), key);
        assert(last_value(xs, key) == match line_value(xs.last(), key) {
            Some(v) => Some(v),
            None => last_value(xs.drop_last(), key),
        });
        assert(last_value(ls, key) == match line_value(ls.last(), key) {
            Some(v) => Some(v),
            None => last_value(ls.drop_last(), key),
        });
    }
}

/// Reading the lines of text joined with line feeds gives the same directive
/// values as reading the pieces.
proof fn lemma_last_value_join(ls: Seq<Seq<char>>, key: Seq<char>)
    requires
        forall|i: int| 0 <= i < ls.len() ==> has_no_newline(#[trigger] ls[i]),
    ensures
        last_value(lines(join(ls, seq!['\n'])), key) == last_value(ls, key),
    decreases ls.len(),
{
    if ls.len() == 0 {
    } else if ls.len() == 1 {
        let x = ls[0];
        assert(has_no_newline(ls[0]));
        if x.len() == 0 {
            assert(trim(x) =~= Seq::<char>::empty()) by {
                lemma_lead_bound(x);
            }
            assert(ls.drop_last() =~= Seq::<Seq<char>>::empty());
        } else {
            lemma_no_newline_lines(x);
            assert(ls =~= seq![x]);
        }
    } else {
        let x = ls[0];
        let rest = ls.drop_first();
        assert(has_no_newline(x));
        assert forall|i: int| 0 <= i < rest.len() implies has_no_newline(#[trigger] rest[i]) by {
            assert(rest[i] == ls[i + 1]);
        }
        lemma_last_value_join(rest, key);
        let jr = join(rest, seq!['\n']);
        let s = x + seq!['\n'] + jr;
        assert(join(ls, seq!['\n']) == s);
        assert(s[x.len() as int] == '\n');
        assert forall|j: int| 0 <= j < x.len() implies s[j] != '\n' by {
            assert(s[j] == x[j]);
        }
        lemma_find_newline_at(s, x.len() as int);
        assert(s.take(x.len() as int) =~= x);
        assert(s.skip((x.len() + 1) as int) =~= jr);
        assert(lines(s) == seq![strip_cr(x)] + lines(jr));
        lemma_last_value_cons(strip_cr(x), lines(jr), key);
        lemma_line_value_strip_cr(x, key);
        assert(ls =~= seq![x] + rest);
        lemma_last_value_cons(x, rest, key);
    }
}

proof fn lemma_join_push(ls: Seq<Seq<char>>, x: Seq<char>, sep: Seq<char>)
    requires
        ls.len() > 0,
    ensures
        join(ls.push(x), sep) == join(ls, sep) + sep + x,
    decreases ls.len(),
{
    let lx = ls.push(x);
    if ls.len() == 1 {
        assert(lx.drop_first() =~= seq![x]);
        assert(join(lx.drop_first(), sep) == x);
        assert(join(lx, sep) == ls[0] + sep + x);
    } else {
        assert(lx.drop_first() =~= ls.drop_first().push(x));
        lemma_join_push(ls.drop_first(), x, sep);
        assert(join(lx, sep) == ls[0] + sep + join(ls.drop_first().push(x), sep));
        assert(join(lx, sep) =~= join(ls, sep) + sep + x);
    }
}

proof fn lemma_last_value_all(ls: Seq<Seq<char>>, key: Seq<char>, v: Seq<char>, w: int)
    requires
        0 <= w < ls.len(),
        line_value(ls[w], key) == Some(v),
        forall|i: int| 0 <= i < ls.len() ==> #[trigger] line_value(ls[i], key) is None || line_value(ls[i], key)
            == Some(v),
    ensures
        last_value(ls, key) == Some(v),
    decreases ls.len(),
{
    if line_value(ls.last(), key) is None {
        let d = ls.drop_last();
        assert(w < ls.len() - 1);
        assert(d[w] == ls[w]);
        assert forall|i: int| 0 <= i < d.len() implies #[trigger] line_value(d[i], key) is None || line_value(d[i], key) == Some(v) by {
            assert(d[i] == ls[i]);
        }
        lemma_last_value_all(d, key, v, w);
    }
}

/// Conditions on a directive under which reading back what was written is exact:
/// the key is non-empty, starts with neither whitespace nor `#`, the value is
/// non-empty and carries no surrounding whitespace, and neither holds a line feed.
pub open spec fn writable_directive(key: Seq<char>, value: Seq<char>) -> bool {
    &&& key.len() > 0
    &&& !is_ws(key[0])
    &&& key[0] != '#'
    &&& has_no_newline(key)
    &&& value.len() > 0
    &&& !is_ws(value[0])
    &&& !is_ws(value.last())
    &&& has_no_newline(value)
}

/// The directive line `key value` reads back as `value` and holds no line feed.
proof fn lemma_directive_reads_back(key: Seq<char>, value: Seq<char>)
    requires
        writable_directive(key, value),
    ensures
        line_value(directive(key, value), key) == Some(value),
        has_no_newline(directive(key, value)),
{
    let kv = directive(key, value);
    assert(kv[0] == key[0]);
    assert(kv.last() == value.last());
    lemma_trim_id(kv);
    assert(kv.take(key.len() as int) =~= key);
    let rest = kv.skip(key.len() as int);
    assert(rest =~= seq![' '] + value);
    assert(rest.drop_first() =~= value);
    lemma_lead_is(rest, 1);
    assert(rest.skip(1) =~= value);
    lemma_trail_is(value, 0);
    assert(value.take(value.len() as int) =~= value);
    assert forall|i: int| 0 <= i < kv.len() implies kv[i] != '\n' by {
        if i < key.len() {
            assert(kv[i] == key[i]);
        } else if i > key.len() {
            assert(kv[i] == value[i - key.len() - 1]);
        }
    }
}

/// Every rewritten line either reads as `value` or reads as nothing, and holds no line feed.
proof fn lemma_rewritten_lines(content: Seq<char>, key: Seq<char>, value: Seq<char>)
    requires
        writable_directive(key, value),
    ensures
        forall|i: int| 0 <= i < rewrite_lines(lines(content), key, value).len() ==> #[trigger] line_value(
            rewrite_lines(lines(content), key, value)[i],
            key,
        ) is None || line_value(rewrite_lines(lines(content), key, value)[i], key) == Some(value),
        forall|i: int|
            0 <= i < rewrite_lines(lines(content), key, value).len() ==> has_no_newline(
                #[trigger] rewrite_lines(lines(content), key, value)[i],
            ),
{
    let ls = lines(content);
    let rl = rewrite_lines(ls, key, value);
    lemma_directive_reads_back(key, value);
    lemma_lines_no_newline(content);
    assert forall|i: int| 0 <= i < rl.len() implies #[trigger] line_value(rl[i], key) is None || line_value(rl[i], key)
        == Some(value) by {
        if !line_matches(ls[i], key) {
            assert(rl[i] == ls[i]);
        }
    }
    assert forall|i: int| 0 <= i < rl.len() implies has_no_newline(#[trigger] rl[i]) by {
        assert(has_no_newline(ls[i]));
    }
}

/// The appended form `body \n kv \n` is the join of the lines followed by `kv` and an empty line.
proof fn lemma_appended_join(rl: Seq<Seq<char>>, kv: Seq<char>) -> (ext: Seq<Seq<char>>)
    requires
        forall|i: int| 0 <= i < rl.len() ==> has_no_newline(#[trigger] rl[i]),
        has_no_newline(kv),
    ensures
        join(ext, seq!['\n']) == join(rl, seq!['\n']) + seq!['\n'] + kv + seq!['\n'],
        ext.len() >= 2,
        ext.last() == Seq::<char>::empty(),
        ext.drop_last().last() == kv,
        forall|i: int| 0 <= i < ext.len() ==> has_no_newline(#[trigger] ext[i]),
        ext.drop_last().drop_last() == rl || (rl.len() == 0 && ext.drop_last().drop_last() == seq![
            Seq::<char>::empty(),
        ]),
{
    let e = Seq::<char>::empty();
    let sep = seq!['\n'];
    if rl.len() == 0 {
        let ext = seq![e, kv, e];
        assert(ext.drop_first() =~= seq![kv, e]);
        assert(ext.drop_first().drop_first() =~= seq![e]);
        assert(join(ext.drop_first().drop_first(), sep) == e);
        assert(join(ext.drop_first(), sep) == kv + sep + e);
        assert(join(ext, sep) == e + sep + (kv + sep + e));
        assert(join(rl, sep) =~= e);
        assert(join(ext, sep) =~= join(rl, sep) + sep + kv + sep);
        assert(ext.drop_last() =~= seq![e, kv]);
        assert(ext.drop_last().drop_last() =~= seq![e]);
        assert forall|i: int| 0 <= i < ext.len() implies has_no_newline(#[trigger] ext[i]) by {
            if i == 1 {
                assert(ext[i] == kv);
            }
        }
        ext
    } else {
        let ext = rl.push(kv).push(e);
        lemma_join_push(rl, kv, sep);
        lemma_join_push(rl.push(kv), e, sep);
        assert(join(rl.push(kv), sep) + sep + e =~= join(rl, sep) + sep + kv + sep);
        assert(ext.drop_last() =~= rl.push(kv));
        assert(ext.drop_last().drop_last() =~= rl);
        assert forall|i: int| 0 <= i < ext.len() implies has_no_newline(#[trigger] ext[i]) by {
            if i < rl.len() {
                assert(ext[i] == rl[i]);
            } else if i == rl.len() {
                assert(ext[i] == kv);
            }
        }
        ext
    }
}

/// After setting a directive, reading it back gives the value that was set.
pub proof fn law_read_after_write(content: Seq<char>, key: Seq<char>, value: Seq<char>)
    requires
        writable_directive(key, value),
    ensures
        config_value(rewrite_config(content, key, value), key) == Some(value),
{
    let kv = directive(key, value);
    let ls = lines(content);
    let rl = rewrite_lines(ls, key, value);
    lemma_directive_reads_back(key, value);
    lemma_rewritten_lines(content, key, value);
    if exists|i: int| 0 <= i < ls.len() && line_matches(#[trigger] ls[i], key) {
        let w = choose|i: int| 0 <= i < ls.len() && line_matches(#[trigger] ls[i], key);
        assert(rl[w] == kv);
        lemma_last_value_all(rl, key, value, w);
        lemma_last_value_join(rl, key);
        assert(rewrite_config(content, key, value) == join(rl, seq!['\n']));
    } else {
        let ext = lemma_appended_join(rl, kv);
        assert(rewrite_config(content, key, value) == join(ext, seq!['\n']));
        lemma_last_value_join(ext, key);
        assert(trim(Seq::<char>::empty()) =~= Seq::<char>::empty()) by {
            lemma_lead_bound(Seq::<char>::empty());
        }
        assert(line_value(ext.last(), key) is None);
        assert(last_value(ext.drop_last(), key) == Some(value));
        assert(last_value(ext, key) == Some(value));
    }
}

/// Two prefixes of one sequence: the shorter is a prefix of the longer.
proof fn lemma_common_prefix(t: Seq<char>, a: Seq<char>, b: Seq<char>)
    requires
        starts_with(t, a),
        starts_with(t, b),
    ensures
        starts_with(a, b) || starts_with(b, a),
{
    if b.len() <= a.len() {
        assert(a.take(b.len() as int) =~= t.take(b.len() as int));
    } else {
        assert(b.take(a.len() as int) =~= t.take(a.len() as int));
    }
}

/// A line that gives `other` a value is left alone when `key` is set, and a line
/// written for `key` gives `other` no value.
proof fn lemma_other_key_line(l: Seq<char>, key: Seq<char>, value: Seq<char>, other: Seq<char>)
    requires
        writable_directive(key, value),
        !starts_with(key, other),
        !starts_with(other, key),
    ensures
        line_value(rewrite_line(l, key, value), other) == line_value(l, other),
        line_value(directive(key, value), other) is None,
{
    let kv = directive(key, value);
    lemma_directive_reads_back(key, value);
    assert(kv[0] == key[0]);
    assert(kv.last() == value.last());
    lemma_trim_id(kv);
    assert(starts_with(kv, key)) by {
        assert(kv.take(key.len() as int) =~= key);
    }
    if starts_with(kv, other) {
        lemma_common_prefix(kv, key, other);
    }
    if line_matches(l, key) && line_value(l, other) is Some {
        lemma_common_prefix(trim(l), key, other);
    }
}

/// Setting a directive leaves the value of every other directive unchanged, as
/// long as neither name begins with the other.
pub proof fn law_write_keeps_other_directives(
    content: Seq<char>,
    key: Seq<char>,
    value: Seq<char>,
    other: Seq<char>,
)
    requires
        writable_directive(key, value),
        !starts_with(key, other),
        !starts_with(other, key),
    ensures
        config_value(rewrite_config(content, key, value), other) == config_value(content, other),
{
    let kv = directive(key, value);
    let ls = lines(content);
    let rl = rewrite_lines(ls, key, value);
    lemma_rewritten_lines(content, key, value);
    lemma_directive_reads_back(key, value);
    lemma_other_key_line(Seq::<char>::empty(), key, value, other);
    assert(last_value(rl, other) == last_value(ls, other)) by {
        lemma_same_values(ls, key, value, other);
    }
    lemma_last_value_join(rl, other);
    if exists|i: int| 0 <= i < ls.len() && line_matches(#[trigger] ls[i], key) {
        assert(rewrite_config(content, key, value) == join(rl, seq!['\n']));
    } else {
        let ext = lemma_appended_join(rl, kv);
        assert(rewrite_config(content, key, value) == join(ext, seq!['\n']));
        lemma_last_value_join(ext, other);
        assert(trim(Seq::<char>::empty()) =~= Seq::<char>::empty()) by {
            lemma_lead_bound(Seq::<char>::empty());
        }
        assert(line_value(ext.last(), other) is None);
        let front = ext.drop_last().drop_last();
        if front != rl {
            assert(front.drop_last() =~= Seq::<Seq<char>>::empty());
            assert(line_value(front.last(), other) is None);
        }
        assert(last_value(front, other) == last_value(rl, other));
        assert(last_value(ext.drop_last(), other) == last_value(rl, other));
    }
}

/// Line by line, rewriting for `key` keeps the values read for `other`.
proof fn lemma_same_values(ls: Seq<Seq<char>>, key: Seq<char>, value: Seq<char>, other: Seq<char>)
    requires
        writable_directive(key, value),
        !starts_with(key, other),
        !starts_with(other, key),
    ensures
        last_value(rewrite_lines(ls, key, value), other) == last_value(ls, other),
    decreases ls.len(),
{
    if ls.len() > 0 {
        let rl = rewrite_lines(ls, key, value);
        assert(rl.drop_last() =~= rewrite_lines(ls.drop_last(), key, value));
        lemma_same_values(ls.drop_last(), key, value, other);
        lemma_other_key_line(ls.last(), key, value, other);
    }
}

// ---------------------------------------------------------------------------
// Reading the audit facts out of probe results
// ---------------------------------------------------------------------------

/// SSH port configured in sshd_config text: the `Port` directive when it parses
/// as a port number, 22 otherwise.
pub open spec fn ssh_port_of(config: Seq<char>) -> u16 {
    match config_value(config, "Port"@) {
        Some(v) => match parse_unsigned(v, 65535) {
            Some(n) => n as u16,
            None => 22,
        },
        None => 22,
    }
}

/// SSH port configured in the sshd_config text `config` (empty when unreadable).
pub fn detect_ssh_port(config: &str) -> (r: u16)
    ensures
        r == ssh_port_of(config@),
{
    match sshd_config_get(config, "Port") {
        Some(v) => {
            let c = chars_of(v.as_str());
            match parse_unsigned_vec(&c, 65535) {
                Some(n) => n as u16,
                None => 22,
            }
        },
        None => 22,
    }
}

/// The directive is present and says `no`, in any ASCII case.
pub open spec fn says_no(v: Option<Seq<char>>) -> bool {
    v matches Some(s) && eq_ignore_ascii_case(s, "no"@)
}

fn value_is(v: &Option<String>, word: &str) -> (r: bool)
    ensures
        r == (v matches Some(s) && eq_ignore_ascii_case(s@, word@)),
{
    match v {
        Some(s) => {
            let a = chars_of(s.as_str());
            let b = chars_of(word);
            eq_ignore_ascii_case_vec(&a, &b)
        },
        None => false,
    }
}

pub open spec fn password_auth_disabled_in(config: Seq<char>) -> bool {
    says_no(config_value(config, "PasswordAuthentication"@)) && says_no(
        config_value(config, "ChallengeResponseAuthentication"@),
    )
}

/// Password login is off: both `PasswordAuthentication` and
/// `ChallengeResponseAuthentication` say `no`.
pub fn detect_password_auth_disabled(config: &str) -> (r: bool)
    ensures
        r == password_auth_disabled_in(config@),
{
    let p = sshd_config_get(config, "PasswordAuthentication");
    let c = sshd_config_get(config, "ChallengeResponseAuthentication");
    value_is(&p, "no") && value_is(&c, "no")
}

pub open spec fn root_login_disabled_in(config: Seq<char>) -> bool {
    config_value(config, "PermitRootLogin"@) matches Some(v) && (eq_ignore_ascii_case(v, "no"@)
        || eq_ignore_ascii_case(v, "prohibit-password"@))
}

/// Root login is off: `PermitRootLogin` says `no` or `prohibit-password`.
pub fn detect_root_login_disabled(config: &str) -> (r: bool)
    ensures
        r == root_login_disabled_in(config@),
{
    let v = sshd_config_get(config, "PermitRootLogin");
    value_is(&v, "no") || value_is(&v, "prohibit-password")
}

/// Running as root: `id -u` succeeded and printed `0`.
pub fn detect_is_root(id_stdout: Option<&str>) -> (r: bool)
    ensures
        r == (id_stdout matches Some(s) && trim(s@) == "0"@),
{
    match id_stdout {
        Some(s) => {
            let c = chars_of(s);
            let t = trim_vec(&c);
            let z = chars_of("0");
            crate::text::chars_eq(&t, &z)
        },
        None => false,
    }
}

pub open spec fn package_manager_from(has_apt: bool, has_yum: bool, has_dnf: bool) -> PackageManager {
    if has_apt {
        PackageManager::Apt
    } else if has_yum {
        PackageManager::Yum
    } else if has_dnf {
        PackageManager::Dnf
    } else {
        PackageManager::Unknown
    }
}

/// The package manager, preferring apt, then yum, then dnf.
pub fn detect_package_manager(has_apt: bool, has_yum: bool, has_dnf: bool) -> (r: PackageManager)
    ensures
        r == package_manager_from(has_apt, has_yum, has_dnf),
{
    if has_apt {
        PackageManager::Apt
    } else if has_yum {
        PackageManager::Yum
    } else if has_dnf {
        PackageManager::Dnf
    } else {
        PackageManager::Unknown
    }
}

/// Position of the last `c` in `s`.
pub open spec fn last_index_of(s: Seq<char>, c: char) -> Option<int>
    decreases s.len(),
{
    if s.len() == 0 {
        None
    } else if s.last() == c {
        Some(s.len() - 1)
    } else {
        last_index_of(s.drop_last(), c)
    }
}

/// The comma-separated names in `s`, trimmed, empty ones dropped.
pub open spec fn comma_names(s: Seq<char>) -> Seq<Seq<char>>
    decreases s.len(),
{
    match find(s, seq![',']) {
        None => if trim(s).len() > 0 {
            seq![trim(s)]
        } else {
            seq![]
        },
        Some(i) => if 0 <= i < s.len() {
            (if trim(s.take(i)).len() > 0 {
                seq![trim(s.take(i))]
            } else {
                seq![]
            }) + comma_names(s.skip(i + 1))
        } else {
            seq![]
        },
    }
}

/// Members listed by a group database line `name:x:gid:user1,user2`.
pub open spec fn group_members(line: Seq<char>) -> Seq<Seq<char>> {
    match last_index_of(line, ':') {
        None => seq![],
        Some(p) => comma_names(trim(line.skip(p + 1))),
    }
}

fn comma_names_vec(s: &Vec<char>) -> (r: Vec<String>)
    ensures
        strings_view(r@) == comma_names(s@),
    decreases s.len(),
{
    let comma = vec![','];
    assert(comma@ =~= seq![',']);
    match find_vec(s, &comma) {
        None => {
            let t = trim_vec(s);
            if t.len() > 0 {
                let r = vec![string_of(&t)];
                assert(strings_view(r@) =~= comma_names(s@));
                r
            } else {
                let r: Vec<String> = Vec::new();
                assert(strings_view(r@) =~= comma_names(s@));
                r
            }
        },
        Some(i) => {
            proof {
                lemma_find(s@, comma@);
            }
            let head = slice_vec(s, 0, i);
            let t = trim_vec(&head);
            let rest = slice_vec(s, i + 1, s.len());
            assert(rest@ =~= s@.skip(i + 1));
            let tail = comma_names_vec(&rest);
            let mut r: Vec<String> = Vec::new();
            if t.len() > 0 {
                r.push(string_of(&t));
            }
            let ghost first = strings_view(r@);
            assert(first =~= (if trim(s@.take(i as int)).len() > 0 {
                seq![trim(s@.take(i as int))]
            } else {
                seq![]
            }));
            let mut k: usize = 0;
            while k < tail.len()
                invariant
                    k <= tail.len(),
                    strings_view(r@) == first + strings_view(tail@).take(k as int),
                decreases tail.len() - k,
            {
                let x = tail[k].clone();
                let ghost before = r@;
                r.push(x);
                assert(strings_view(r@) =~= strings_view(before).push(x@));
                k = k + 1;
                assert(strings_view(tail@).take(k as int) =~= strings_view(tail@).take(k - 1).push(tail@[k - 1]@));
            }
            assert(strings_view(tail@).take(tail.len() as int) =~= strings_view(tail@));
            r
        },
    }
}

/// Exec: the members of a group database line.
pub fn group_members_of(line: &str) -> (r: Vec<String>)
    ensures
        strings_view(r@) == group_members(line@),
{
    let c = chars_of(line);
    let mut p = c.len();
    assert(c@.take(p as int) =~= c@);
    while p > 0 && c[p - 1] != ':'
        invariant
            p <= c.len(),
            last_index_of(c@, ':') == last_index_of(c@.take(p as int), ':'),
        decreases p,
    {
        assert(c@.take(p as int).drop_last() =~= c@.take(p - 1));
        p = p - 1;
    }
    if p == 0 {
        assert(c@.take(0) =~= Seq::<char>::empty());
        let r: Vec<String> = Vec::new();
        assert(strings_view(r@) =~= group_members(line@));
        return r;
    }
    assert(c@.take(p as int).last() == c@[p - 1]);
    let after = slice_vec(&c, p, c.len());
    assert(after@ =~= c@.skip(p as int));
    let t = trim_vec(&after);
    comma_names_vec(&t)
}

/// Users whose uid is at least 1000 (ordinary accounts), in order.
pub open spec fn regular_users(users: Seq<Seq<char>>, uids: Seq<u32>) -> Seq<Seq<char>>
    decreases users.len(),
{
    if users.len() == 0 || uids.len() == 0 {
        seq![]
    } else {
        let rest = regular_users(users.drop_last(), uids.drop_last());
        if uids.last() >= 1000 {
            rest.push(users.last())
        } else {
            rest
        }
    }
}

/// Keeps the users whose uid (at the same position) is at least 1000.
pub fn filter_regular_users(users: &Vec<String>, uids: &Vec<u32>) -> (r: Vec<String>)
    requires
        users.len() == uids.len(),
    ensures
        strings_view(r@) == regular_users(strings_view(users@), uids@),
{
    let mut r: Vec<String> = Vec::new();
    let mut i: usize = 0;
    while i < users.len()
        invariant
            users.len() == uids.len(),
            i <= users.len(),
            strings_view(r@) == regular_users(strings_view(users@).take(i as int), uids@.take(i as int)),
        decreases users.len() - i,
    {
        proof {
            let us = strings_view(users@).take(i + 1);
            let ids = uids@.take(i + 1);
            assert(us.drop_last() =~= strings_view(users@).take(i as int));
            assert(ids.drop_last() =~= uids@.take(i as int));
            assert(us.last() == users@[i as int]@);
            assert(ids.last() == uids@[i as int]);
        }
        if uids[i] >= 1000 {
            let x = users[i].clone();
            let ghost before = r@;
            r.push(x);
            assert(strings_view(r@) =~= strings_view(before).push(x@));
        }
        i = i + 1;
    }
    assert(strings_view(users@).take(users.len() as int) =~= strings_view(users@));
    assert(uids@.take(users.len() as int) =~= uids@);
    r
}

/// uid printed by `id -u <user>`; 0 when the command failed or printed no number.
pub open spec fn uid_of(stdout: Option<Seq<char>>) -> u32 {
    match stdout {
        Some(s) => match parse_unsigned(trim(s), 4294967295) {
            Some(n) => n as u32,
            None => 0,
        },
        None => 0,
    }
}

pub fn parse_uid(stdout: Option<&str>) -> (r: u32)
    ensures
        r == uid_of(match stdout {
            Some(s) => Some(s@),
            None => None,
        }),
{
    match stdout {
        Some(s) => {
            let c = chars_of(s);
            let t = trim_vec(&c);
            match parse_unsigned_vec(&t, 4294967295) {
                Some(n) => n,
                None => 0,
            }
        },
        None => 0,
    }
}

/// The `ufw status` output reports the firewall active: one of its lines, trimmed,
/// is `Status: active`.
pub open spec fn ufw_active_in(out: Seq<char>) -> bool {
    exists|i: int| 0 <= i < lines(out).len() && trim(#[trigger] lines(out)[i]) == "Status: active"@
}

/// UFW is enabled: `ufw status` ran and reported `Status: active`.
pub fn detect_ufw_enabled(status_stdout: Option<&str>) -> (r: bool)
    ensures
        r == (status_stdout matches Some(s) && ufw_active_in(s@)),
{
    match status_stdout {
        Some(s) => {
            let c = chars_of(s);
            let ls = lines_vec(&c);
            let want = chars_of("Status: active");
            let ghost lv = ls@.map_values(|l: Vec<char>| l@);
            assert(lv == lines(s@));
            let mut i: usize = 0;
            while i < ls.len()
                invariant
                    i <= ls.len(),
                    lv == ls@.map_values(|l: Vec<char>| l@),
                    lv == lines(s@),
                    want@ == "Status: active"@,
                    status_stdout == Some(s),
                    forall|j: int| 0 <= j < i ==> trim(#[trigger] lv[j]) != "Status: active"@,
                decreases ls.len() - i,
            {
                let t = trim_vec(&ls[i]);
                assert(lv[i as int] == ls@[i as int]@);
                if crate::text::chars_eq(&t, &want) {
                    assert(trim(lines(s@)[i as int]) == "Status: active"@);
                    return true;
                }
                i = i + 1;
            }
            false
        },
        None => false,
    }
}

pub open spec fn auto_upgrades_configured(content: Seq<char>) -> bool {
    contains(content, "APT::Periodic::Update-Package-Lists \"1\""@) || contains(
        content,
        "APT::Periodic::Unattended-Upgrade \"1\""@,
    )
}

/// Automatic security updates are on: the unattended-upgrades service is enabled,
/// or the APT periodic configuration (when readable) turns them on.
pub fn detect_auto_updates_enabled(service_enabled: bool, apt_periodic_config: Option<&str>) -> (r: bool)
    ensures
        r == (service_enabled || (apt_periodic_config matches Some(c) && auto_upgrades_configured(c@))),
{
    if service_enabled {
        return true;
    }
    match apt_periodic_config {
        Some(c) => contains_str(c, "APT::Periodic::Update-Package-Lists \"1\"") || contains_str(
            c,
            "APT::Periodic::Unattended-Upgrade \"1\"",
        ),
        None => false,
    }
}

/// Seconds in seven days: package lists younger than this count as fresh.
pub const CACHE_FRESH_SECS: u64 = 604800;

/// The first package cache whose age is known decides: fresh when younger than seven days.
pub open spec fn cache_fresh(ages: Seq<Option<u64>>) -> bool
    decreases ages.len(),
{
    if ages.len() == 0 {
        false
    } else {
        match ages[0] {
            Some(e) => e < CACHE_FRESH_SECS,
            None => cache_fresh(ages.drop_first()),
        }
    }
}

/// Package lists are up to date, judged from the ages (in seconds) of the apt cache
/// paths in order of preference; `None` where an age could not be read.
pub fn detect_system_up_to_date(cache_ages: &[Option<u64>]) -> (r: bool)
    ensures
        r == cache_fresh(cache_ages@),
{
    let mut i: usize = 0;
    assert(cache_ages@.skip(0) =~= cache_ages@);
    while i < cache_ages.len()
        invariant
            i <= cache_ages.len(),
            cache_fresh(cache_ages@) == cache_fresh(cache_ages@.skip(i as int)),
        decreases cache_ages.len() - i,
    {
        assert(cache_ages@.skip(i as int)[0] == cache_ages@[i as int]);
        assert(cache_ages@.skip(i as int).drop_first() =~= cache_ages@.skip(i + 1));
        match cache_ages[i] {
            Some(e) => {
                return e < CACHE_FRESH_SECS;
            },
            None => {},
        }
        i = i + 1;
    }
    assert(cache_ages@.skip(i as int) =~= Seq::<Option<u64>>::empty());
    false
}

// ---------------------------------------------------------------------------
// The audit report
// ---------------------------------------------------------------------------

/// What the probes found, before it is turned into a report.
#[derive(Debug, Clone)]
pub struct AuditFacts {
    pub is_root: bool,
    pub package_manager: PackageManager,
    pub ssh_port: u16,
    pub password_auth_disabled: bool,
    pub root_login_disabled: bool,
    pub sudo_users: Vec<String>,
    pub fail2ban_installed: bool,
    pub ufw_enabled: bool,
    pub auto_updates_enabled: bool,
    pub system_up_to_date: bool,
}

/// An audit item as plain values: name, state, detail.
pub open spec fn item_view(i: AuditItem) -> (Seq<char>, AuditStatus, Seq<char>) {
    (i.name@, i.status, i.detail@)
}

pub open spec fn items_view(v: Seq<AuditItem>) -> Seq<(Seq<char>, AuditStatus, Seq<char>)> {
    v.map_values(|i: AuditItem| item_view(i))
}

pub open spec fn on_off(b: bool, name: Seq<char>, yes: Seq<char>, no: Seq<char>) -> (Seq<char>, AuditStatus, Seq<char>) {
    if b {
        (name, AuditStatus::Safe, yes)
    } else {
        (name, AuditStatus::Missing, no)
    }
}

/// The items of the report built from `f`, in display order.
pub open spec fn audit_items(f: AuditFacts) -> Seq<(Seq<char>, AuditStatus, Seq<char>)> {
    seq![
        on_off(f.is_root, "当前用户权限"@, "已以 root 运行"@, "非 root 用户，需要 root 权限"@),
        ("包管理器"@, AuditStatus::Safe, "检测到 "@ + pm_name(f.package_manager)),
        on_off(f.ssh_port != 22, "SSH 端口"@, "已自定义为 "@ + decimal(f.ssh_port as nat), "默认端口 22"@),
        on_off(f.password_auth_disabled, "密码登录"@, "已禁用"@, "密码登录未禁用"@),
        on_off(f.root_login_disabled, "root 登录"@, "已禁止"@, "root 登录未禁止"@),
        on_off(
            f.sudo_users@.len() > 0,
            "sudo 用户"@,
            "已存在: "@ + join(strings_view(f.sudo_users@), ", "@),
            "未检测到非 root 管理用户"@,
        ),
        on_off(f.fail2ban_installed, "Fail2ban"@, "已安装"@, "未安装"@),
        on_off(f.ufw_enabled, "UFW 防火墙"@, "已启用"@, "未启用"@),
        on_off(f.auto_updates_enabled, "自动安全更新"@, "已启用"@, "未启用"@),
        if f.system_up_to_date {
            ("系统更新状态"@, AuditStatus::Safe, "缓存未过期"@)
        } else {
            ("系统更新状态"@, AuditStatus::NeedsUpdate, "缓存已过期，建议更新"@)
        },
    ]
}

/// The report carries the facts it was built from.
pub open spec fn report_matches(r: AuditReport, f: AuditFacts) -> bool {
    &&& r.is_root == f.is_root
    &&& r.package_manager == f.package_manager
    &&& r.ssh_port == f.ssh_port
    &&& r.password_auth_disabled == f.password_auth_disabled
    &&& r.root_login_disabled == f.root_login_disabled
    &&& strings_view(r.sudo_users@) == strings_view(f.sudo_users@)
    &&& r.sudo_users@.len() == f.sudo_users@.len()
    &&& r.fail2ban_installed == f.fail2ban_installed
    &&& r.ufw_enabled == f.ufw_enabled
    &&& r.auto_updates_enabled == f.auto_updates_enabled
    &&& r.system_up_to_date == f.system_up_to_date
}

fn owned(s: &str) -> (r: String)
    ensures
        r@ == s@,
{
    let c = chars_of(s);
    string_of(&c)
}

fn flag_item(b: bool, name: &'static str, yes: &str, no: &str) -> (r: AuditItem)
    ensures
        item_view(r) == on_off(b, name@, yes@, no@),
{
    if b {
        AuditItem::safe(name, owned(yes))
    } else {
        AuditItem::missing(name, owned(no))
    }
}

/// Builds the audit report: one item per probe, in display order.
pub fn run_full_audit(facts: AuditFacts) -> (r: AuditReport)
    ensures
        report_matches(r, facts),
        items_view(r.items@) == audit_items(facts),
{
    let pm_detail = {
        let mut d = chars_of("检测到 ");
        push_str(&mut d, facts.package_manager.name());
        string_of(&d)
    };
    let port_item = if facts.ssh_port != 22 {
        let mut d = chars_of("已自定义为 ");
        let n = decimal_vec(facts.ssh_port as u64);
        push_all(&mut d, &n);
        AuditItem::safe("SSH 端口", string_of(&d))
    } else {
        AuditItem::missing("SSH 端口", owned("默认端口 22"))
    };
    let sudo_item = if facts.sudo_users.len() == 0 {
        AuditItem::missing("sudo 用户", owned("未检测到非 root 管理用户"))
    } else {
        let mut d = chars_of("已存在: ");
        let j = join_strings(&facts.sudo_users, ", ");
        let jc = chars_of(j.as_str());
        push_all(&mut d, &jc);
        AuditItem::safe("sudo 用户", string_of(&d))
    };
    let update_item = if facts.system_up_to_date {
        AuditItem::safe("系统更新状态", owned("缓存未过期"))
    } else {
        AuditItem::needs_update("系统更新状态", owned("缓存已过期，建议更新"))
    };
    let items = vec![
        flag_item(facts.is_root, "当前用户权限", "已以 root 运行", "非 root 用户，需要 root 权限"),
        AuditItem::new("包管理器", AuditStatus::Safe, pm_detail),
        port_item,
        flag_item(facts.password_auth_disabled, "密码登录", "已禁用", "密码登录未禁用"),
        flag_item(facts.root_login_disabled, "root 登录", "已禁止", "root 登录未禁止"),
        sudo_item,
        flag_item(facts.fail2ban_installed, "Fail2ban", "已安装", "未安装"),
        flag_item(facts.ufw_enabled, "UFW 防火墙", "已启用", "未启用"),
        flag_item(facts.auto_updates_enabled, "自动安全更新", "已启用", "未启用"),
        update_item,
    ];
    assert(items_view(items@) =~= audit_items(facts));
    AuditReport {
        items,
        is_root: facts.is_root,
        package_manager: facts.package_manager,
        ssh_port: facts.ssh_port,
        password_auth_disabled: facts.password_auth_disabled,
        root_login_disabled: facts.root_login_disabled,
        sudo_users: facts.sudo_users,
        fail2ban_installed: facts.fail2ban_installed,
        ufw_enabled: facts.ufw_enabled,
        auto_updates_enabled: facts.auto_updates_enabled,
        system_up_to_date: facts.system_up_to_date,
    }
}

/// Which audit item speaks for a step, where one does.
pub open spec fn item_for(k: StepKind) -> Option<int> {
    match k {
        StepKind::SystemUpdate => Some(9),
        StepKind::UserCreation => Some(5),
        StepKind::SshRootLogin => Some(4),
        StepKind::SshPortChange => Some(2),
        StepKind::SshPasswordAuth => Some(3),
        StepKind::Ufw => Some(7),
        StepKind::Fail2ban => Some(6),
        StepKind::AutoUpdates => Some(8),
        _ => None,
    }
}

/// The state a step is offered with agrees with the audit item that speaks for it.
pub proof fn law_step_status_agrees_with_item(f: AuditFacts, r: AuditReport, k: StepKind)
    requires
        report_matches(r, f),
        items_view(r.items@) == audit_items(f),
        item_for(k) is Some,
    ensures
        report_status(r, k) == r.items@[item_for(k)->0].status,
{
    let i = item_for(k)->0;
    assert(items_view(r.items@).len() == r.items@.len());
    assert(r.items@.len() == 10);
    assert(items_view(r.items@)[i] == item_view(r.items@[i]));
}

// ---------------------------------------------------------------------------
// Audit after hardening
// ---------------------------------------------------------------------------

proof fn lemma_digits_of_decimal(n: nat)
    ensures
        decimal(n).len() > 0,
        decimal(n)[0] != '+',
        forall|i: int| 0 <= i < decimal(n).len() ==> is_digit(#[trigger] decimal(n)[i]),
        digits_value(decimal(n)) == n,
        !is_ws(decimal(n)[0]),
        !is_ws(decimal(n).last()),
        has_no_newline(decimal(n)),
    decreases n,
{
    if n >= 10 {
        lemma_digits_of_decimal(n / 10);
        let d = decimal(n);
        assert(d.drop_last() =~= decimal(n / 10));
        assert(forall|i: int| 0 <= i < d.len() - 1 ==> d[i] == decimal(n / 10)[i]);
        let m = (n % 10) as int;
        assert(d.last() == digit_char(m));
        assert((digit_char(m) as nat - 48) as nat == m);
        assert((n / 10) * 10 + n % 10 == n);
        assert(digits_value(d) == digits_value(d.drop_last()) * 10 + (d.last() as nat - 48) as nat);
        assert(digits_value(d) == (n / 10) * 10 + m);
    } else {
        let d = decimal(n);
        assert((digit_char(n as int) as nat - 48) as nat == n);
        assert(d.drop_last() =~= Seq::<char>::empty());
        assert(digits_value(d.drop_last()) == 0);
        assert(d.last() == digit_char(n as int));
        assert(digits_value(d) == digits_value(d.drop_last()) * 10 + (d.last() as nat - 48) as nat);
    }
}

/// After the SSH port step writes `Port <p>`, the audit reads port `p`.
pub proof fn law_port_change_is_audited(config: Seq<char>, p: u16)
    requires
        p > 0,
    ensures
        ssh_port_of(rewrite_config(config, "Port"@, decimal(p as nat))) == p,
{
    reveal_strlit("Port");
    lemma_digits_of_decimal(p as nat);
    law_read_after_write(config, "Port"@, decimal(p as nat));
    let d = decimal(p as nat);
    assert(unsigned_digits(d) == d);
}

/// After the root-login step writes `PermitRootLogin prohibit-password`, the audit
/// reports root login as disabled.
pub proof fn law_root_login_step_is_audited(config: Seq<char>)
    ensures
        root_login_disabled_in(rewrite_config(config, "PermitRootLogin"@, "prohibit-password"@)),
{
    reveal_strlit("PermitRootLogin");
    reveal_strlit("prohibit-password");
    law_read_after_write(config, "PermitRootLogin"@, "prohibit-password"@);
    let v = "prohibit-password"@;
    assert(eq_ignore_ascii_case(v, v));
}

/// After the password step writes `PasswordAuthentication no` and then
/// `ChallengeResponseAuthentication no`, the audit reports password login as disabled.
pub proof fn law_password_step_is_audited(config: Seq<char>)
    ensures
        password_auth_disabled_in(
            rewrite_config(
                rewrite_config(config, "PasswordAuthentication"@, "no"@),
                "ChallengeResponseAuthentication"@,
                "no"@,
            ),
        ),
{
    reveal_strlit("PasswordAuthentication");
    reveal_strlit("ChallengeResponseAuthentication");
    reveal_strlit("no");
    let p = "PasswordAuthentication"@;
    let c = "ChallengeResponseAuthentication"@;
    let no = "no"@;
    let first = rewrite_config(config, p, no);
    law_read_after_write(config, p, no);
    law_read_after_write(first, c, no);
    assert(p[0] != c[0]);
    assert(!starts_with(p, c)) by {
        assert(c.len() > p.len());
    }
    assert(!starts_with(c, p)) by {
        assert(c.take(p.len() as int)[0] == c[0]);
    }
    law_write_keeps_other_directives(first, c, no, p);
    assert(eq_ignore_ascii_case(no, no));
}

// ---------------------------------------------------------------------------
// Suggested SSH port
// ---------------------------------------------------------------------------

/// Well-known service ports above 1023 that a new SSH port should not take.
pub open spec fn is_common_port(p: int) -> bool {
    p == 1080 || p == 1194 || p == 1433 || p == 1521 || p == 2049 || p == 2375 || p == 2376 || p == 3000
        || p == 3306 || p == 3389 || p == 5000 || p == 5432 || p == 5900 || p == 5984 || p == 6379
        || p == 8000 || p == 8080 || p == 8443 || p == 8888 || p == 9000 || p == 9090 || p == 9200
        || p == 9300 || p == 11211 || p == 27017
}

fn common_port(p: u16) -> (r: bool)
    ensures
        r == is_common_port(p as int),
{
    p == 1080 || p == 1194 || p == 1433 || p == 1521 || p == 2049 || p == 2375 || p == 2376 || p == 3000
        || p == 3306 || p == 3389 || p == 5000 || p == 5432 || p == 5900 || p == 5984 || p == 6379
        || p == 8000 || p == 8080 || p == 8443 || p == 8888 || p == 9000 || p == 9090 || p == 9200
        || p == 9300 || p == 11211 || p == 27017
}

/// The port suggested for `seed`: start at `1024 + seed % 64512` and move up
/// past well-known service ports.
pub open spec fn suggested_start(seed: u64) -> int {
    1024 + (seed % 64512) as int
}

/// A suggested SSH port in 1024..=65535 that is not a well-known service port,
/// drawn from `seed` (the caller supplies the randomness).
pub fn random_suggested_port(seed: u64) -> (r: u16)
    ensures
        1024 <= r,
        suggested_start(seed) <= r,
        !is_common_port(r as int),
        forall|q: int| suggested_start(seed) <= q < r ==> is_common_port(q),
{
    let mut p: u16 = (1024 + seed % 64512) as u16;
    while common_port(p)
        invariant
            suggested_start(seed) <= p <= 65535,
            forall|q: int| suggested_start(seed) <= q < p ==> is_common_port(q),
        decreases 65535 - p,
    {
        p = p + 1;
    }
    p
}

} // verus!
