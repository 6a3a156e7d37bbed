//! Log text: timestamped lines, operation records, and redaction of public keys.
//! Writing the lines to the log file is the caller's business.
use vstd::prelude::*;

use crate::text::{chars_of, find, find_vec, lemma_find, push_all, push_str, slice_vec, string_of, trim, trim_vec};

verus! {

/// Where the line holding a key ends, relative to the key's start: the first
/// `\n`, else the first `\r`, else nowhere.
pub open spec fn line_end(rest: Seq<char>) -> Option<int> {
    match find(rest, seq!['\n']) {
        Some(e) => Some(e),
        None => find(rest, seq!['\r']),
    }
}

/// `s` with the key material after every `marker` replaced: from each marker to
/// the end of its line (see `line_end`; the end of `s` when there is none) the
/// text becomes `replacement`, and the search goes on after that line end. (The
/// bounds checked before going on always hold for a marker that starts with no
/// line break.)
pub open spec fn redact(s: Seq<char>, marker: Seq<char>, replacement: Seq<char>) -> Seq<char>
    decreases s.len(),
{
    match find(s, marker) {
        None => s,
        Some(start) => match line_end(s.skip(start)) {
            Some(e) => if 0 <= start && 0 <= e && 0 < start + e && start + e <= s.len() {
                s.take(start) + replacement + redact(s.skip(start + e), marker, replacement)
            } else {
                s
            },
            None => s.take(start) + replacement,
        },
    }
}

/// The detail with ED25519 and RSA public keys redacted.
pub open spec fn sanitized(detail: Seq<char>) -> Seq<char> {
    redact(
        redact(detail, "ssh-ed25519 "@, "ssh-ed25519 [KEY_REDACTED]"@),
        "ssh-rsa "@,
        "ssh-rsa [KEY_REDACTED]"@,
    )
}

fn line_end_vec(rest: &Vec<char>) -> (r: Option<usize>)
    ensures
        match r {
            Some(e) => line_end(rest@) == Some(e as int) && e < rest@.len(),
            None => line_end(rest@) is None,
        },
{
    let nl = vec!['\n'];
    let cr = vec!['\r'];
    assert(nl@ =~= seq!['\n']);
    assert(cr@ =~= seq!['\r']);
    proof {
        lemma_find(rest@, nl@);
        lemma_find(rest@, cr@);
    }
    match find_vec(rest, &nl) {
        Some(e) => Some(e),
        None => find_vec(rest, &cr),
    }
}

fn redact_vec(s: &Vec<char>, marker: &str, replacement: &str) -> (r: Vec<char>)
    ensures
        r@ == redact(s@, marker@, replacement@),
{
    let m = chars_of(marker);
    let rep = chars_of(replacement);
    let mut out: Vec<char> = Vec::new();
    let mut rem = slice_vec(s, 0, s.len());
    assert(rem@ =~= s@);
    loop
        invariant
            m@ == marker@,
            rep@ == replacement@,
            out@ + redact(rem@, m@, rep@) == redact(s@, m@, rep@),
        decreases rem.len(),
    {
        match find_vec(&rem, &m) {
            None => {
                push_all(&mut out, &rem);
                return out;
            },
            Some(start) => {
                proof {
                    lemma_find(rem@, m@);
                }
                let rest = slice_vec(&rem, start, rem.len());
                assert(rest@ =~= rem@.skip(start as int));
                let head = slice_vec(&rem, 0, start);
                assert(head@ =~= rem@.take(start as int));
                match line_end_vec(&rest) {
                    None => {
                        push_all(&mut out, &head);
                        push_all(&mut out, &rep);
                        assert(out@ =~= redact(s@, m@, rep@));
                        return out;
                    },
                    Some(e) => {
                        if start + e == 0 {
                            push_all(&mut out, &rem);
                            return out;
                        }
                        let ghost before = out@;
                        push_all(&mut out, &head);
                        push_all(&mut out, &rep);
                        let next = slice_vec(&rem, start + e, rem.len());
                        assert(next@ =~= rem@.skip(start + e));
                        assert(out@ + redact(next@, m@, rep@) =~= before + redact(rem@, m@, rep@));
                        rem = next;
                    },
                }
            },
        }
    }
}

/// Redacts public keys from a log detail.
pub fn sanitize_detail(detail: &str) -> (r: String)
    ensures
        r@ == sanitized(detail@),
{
    let d = chars_of(detail);
    let a = redact_vec(&d, "ssh-ed25519 ", "ssh-ed25519 [KEY_REDACTED]");
    let b = redact_vec(&a, "ssh-rsa ", "ssh-rsa [KEY_REDACTED]");
    string_of(&b)
}

/// Text without either key marker passes through unchanged.
pub proof fn law_sanitize_keeps_plain_text(detail: Seq<char>)
    requires
        find(detail, "ssh-ed25519 "@) is None,
        find(detail, "ssh-rsa "@) is None,
    ensures
        sanitized(detail) == detail,
{
}

/// The line written to the log for `message` at `timestamp`: `[timestamp] message`,
/// trimmed, then a line feed.
pub open spec fn log_line(timestamp: Seq<char>, message: Seq<char>) -> Seq<char> {
    trim(seq!['['] + timestamp + seq![']', ' '] + message + seq!['\n']) + seq!['\n']
}

/// Formats one log line.
pub fn format_log_line(timestamp: &str, message: &str) -> (r: String)
    ensures
        r@ == log_line(timestamp@, message@),
{
    let mut v: Vec<char> = Vec::new();
    v.push('[');
    push_str(&mut v, timestamp);
    v.push(']');
    v.push(' ');
    push_str(&mut v, message);
    v.push('\n');
    assert(v@ =~= seq!['['] + timestamp@ + seq![']', ' '] + message@ + seq!['\n']);
    let mut t = trim_vec(&v);
    t.push('\n');
    string_of(&t)
}

/// The log message recording an operation: `[操作] step: detail`, keys redacted.
pub open spec fn operation_message(step: Seq<char>, detail: Seq<char>) -> Seq<char> {
    "[操作] "@ + step + seq![':', ' '] + sanitized(detail)
}

pub fn format_operation(step: &str, detail: &str) -> (r: String)
    ensures
        r@ == operation_message(step@, detail@),
{
    let mut v = chars_of("[操作] ");
    push_str(&mut v, step);
    v.push(':');
    v.push(' ');
    let s = sanitize_detail(detail);
    push_str(&mut v, s.as_str());
    assert(v@ =~= "[操作] "@ + step@ + seq![':', ' '] + sanitized(detail@));
    string_of(&v)
}

} // verus!
