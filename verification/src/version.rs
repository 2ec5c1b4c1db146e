//! The version probe's decision logic: normalizing the installed binary's
//! version output and deciding whether a usable version was reported.
//!
//! The unverified driver invokes the binary with the version flag and hands
//! the captured output here. Normalization lower-cases the output bytewise
//! (ASCII case folding) and strips the known boilerplate prefixes, warnings
//! and newlines; an output that normalizes to nothing means no usable
//! version was reported.

use vstd::prelude::*;
use vstd::string::StrSliceExecFns;
use vstd::string::StringSliceAdditionalSpecFns;

verus! {

/// ASCII case folding of one byte.
pub open spec fn ascii_lower(b: u8) -> u8 {
    if 65 <= b <= 90 {
        (b + 32) as u8
    } else {
        b
    }
}

/// ASCII case folding of a byte sequence.
pub open spec fn lower_bytes(s: Seq<u8>) -> Seq<u8> {
    s.map_values(|b: u8| ascii_lower(b))
}

/// A byte sequence with every non-overlapping, leftmost-first occurrence of
/// `pat` removed. An empty pattern removes nothing.
pub open spec fn strip_pattern(s: Seq<u8>, pat: Seq<u8>) -> Seq<u8>
    decreases s.len(),
{
    if pat.len() == 0 || s.len() < pat.len() {
        s
    } else if s.subrange(0, pat.len() as int) == pat {
        strip_pattern(s.skip(pat.len() as int), pat)
    } else {
        seq![s[0]] + strip_pattern(s.skip(1), pat)
    }
}

/// ASCII case folding of one byte.
pub fn ascii_lower_byte(b: u8) -> (r: u8)
    ensures
        r == ascii_lower(b),
{
    if 65 <= b && b <= 90 {
        b + 32
    } else {
        b
    }
}

/// ASCII case folding of a byte vector.
pub fn lowercased(v: &Vec<u8>) -> (r: Vec<u8>)
    ensures
        r@ == lower_bytes(v@),
{
    let mut out: Vec<u8> = Vec::new();
    let mut i: usize = 0;
    while i < v.len()
        invariant
            i <= v@.len(),
            out@.len() == i,
            forall|j: int| 0 <= j < i ==> out@[j] == ascii_lower(v@[j]),
        decreases v@.len() - i,
    {
        out.push(ascii_lower_byte(v[i]));
        i = i + 1;
    }
    proof {
        assert(out@ =~= lower_bytes(v@));
    }
    out
}

/// Whether `pat` occurs in `s` at position `i`.
fn matches_at(s: &Vec<u8>, i: usize, pat: &Vec<u8>) -> (r: bool)
    requires
        i <= s@.len(),
    ensures
        r == (i + pat@.len() <= s@.len() && s@.subrange(i as int, i + pat@.len()) == pat@),
{
    if pat.len() > s.len() - i {
        return false;
    }
    let mut j: usize = 0;
    while j < pat.len()
        invariant
            j <= pat@.len(),
            i + pat@.len() <= s@.len(),
            s@.len() <= usize::MAX,
            forall|k: int| 0 <= k < j ==> s@[i + k] == pat@[k],
        decreases pat@.len() - j,
    {
        if s[i + j] != pat[j] {
            proof {
                assert(s@.subrange(i as int, i + pat@.len())[j as int] == s@[i + j]);
            }
            return false;
        }
        j = j + 1;
    }
    proof {
        assert(s@.subrange(i as int, i + pat@.len()) =~= pat@);
    }
    true
}

/// Removes every non-overlapping, leftmost-first occurrence of `pat` from
/// `s`.
pub fn strip_occurrences(s: &Vec<u8>, pat: &Vec<u8>) -> (r: Vec<u8>)
    ensures
        r@ == strip_pattern(s@, pat@),
{
    let mut out: Vec<u8> = Vec::new();
    if pat.len() == 0 {
        let mut i: usize = 0;
        while i < s.len()
            invariant
                i <= s@.len(),
                out@ =~= s@.take(i as int),
            decreases s@.len() - i,
        {
            out.push(s[i]);
            i = i + 1;
        }
        proof {
            assert(out@ =~= s@);
        }
        return out;
    }
    let mut i: usize = 0;
    proof {
        assert(s@.skip(0) =~= s@);
        assert(out@ + strip_pattern(s@, pat@) =~= strip_pattern(s@, pat@));
    }
    while i < s.len()
        invariant
            pat@.len() > 0,
            i <= s@.len(),
            strip_pattern(s@, pat@) == out@ + strip_pattern(s@.skip(i as int), pat@),
        decreases s@.len() - i,
    {
        let ghost prev = i as int;
        if matches_at(s, i, pat) {
            i = i + pat.len();
            proof {
                assert(s@.skip(prev).subrange(0, pat@.len() as int) =~= s@.subrange(
                    prev,
                    prev + pat@.len(),
                ));
                assert(s@.skip(prev).skip(pat@.len() as int) =~= s@.skip(i as int));
                assert(strip_pattern(s@.skip(prev), pat@) == strip_pattern(
                    s@.skip(i as int),
                    pat@,
                ));
            }
        } else {
            out.push(s[i]);
            i = i + 1;
            proof {
                if s@.len() - prev < pat@.len() {
                    assert(strip_pattern(s@.skip(prev), pat@) == s@.skip(prev));
                    assert(strip_pattern(s@.skip(prev + 1), pat@) == s@.skip(prev + 1));
                    assert(s@.skip(prev) =~= seq![s@[prev]] + s@.skip(prev + 1));
                } else {
                    assert(s@.skip(prev).subrange(0, pat@.len() as int) =~= s@.subrange(
                        prev,
                        prev + pat@.len(),
                    ));
                    assert(s@.skip(prev).subrange(0, pat@.len() as int) != pat@);
                    assert(s@.skip(prev)[0] == s@[prev]);
                    assert(strip_pattern(s@.skip(prev), pat@) == seq![s@[prev]] + strip_pattern(
                        s@.skip(prev).skip(1),
                        pat@,
                    ));
                    assert(s@.skip(prev).skip(1) =~= s@.skip(prev + 1));
                }
            }
        }
    }
    proof {
        assert(s@.skip(s@.len() as int) =~= Seq::<u8>::empty());
        assert(strip_pattern(s@.skip(i as int), pat@) =~= Seq::<u8>::empty());
        assert(out@ + Seq::<u8>::empty() =~= out@);
    }
    out
}

/// The boilerplate the version output is stripped of, after case folding.
pub open spec fn version_prefix() -> Seq<u8> {
    "ollama version is ".spec_bytes()
}

/// Warning printed when the probed binary finds no running instance.
pub open spec fn warn_no_instance() -> Seq<u8> {
    "warning: could not connect to a running ollama instance".spec_bytes()
}

/// Prefix of the client-version warning line.
pub open spec fn warn_client_prefix() -> Seq<u8> {
    "warning: client version is ".spec_bytes()
}

/// The newline byte sequence stripped last.
pub open spec fn newline() -> Seq<u8> {
    "\n".spec_bytes()
}

/// What the version output normalizes to: ASCII case folding, then the
/// removal of the known boilerplate prefix, the two warnings, and newlines,
/// in that order.
pub open spec fn normalized_version(raw: Seq<u8>) -> Seq<u8> {
    strip_pattern(
        strip_pattern(
            strip_pattern(strip_pattern(lower_bytes(raw), version_prefix()), warn_no_instance()),
            warn_client_prefix(),
        ),
        newline(),
    )
}

/// Normalizes a captured version output.
pub fn normalize_version(raw: &Vec<u8>) -> (r: Vec<u8>)
    ensures
        r@ == normalized_version(raw@),
{
    let lowered = lowercased(raw);
    let p1 = "ollama version is ".as_bytes_vec();
    let s1 = strip_occurrences(&lowered, &p1);
    let p2 = "warning: could not connect to a running ollama instance".as_bytes_vec();
    let s2 = strip_occurrences(&s1, &p2);
    let p3 = "warning: client version is ".as_bytes_vec();
    let s3 = strip_occurrences(&s2, &p3);
    let p4 = "\n".as_bytes_vec();
    strip_occurrences(&s3, &p4)
}

/// The placeholder reported when the probe's output is not valid text.
pub open spec fn unknown_version() -> Seq<u8> {
    "UNKNOWN".spec_bytes()
}

/// The version probe's decision: `success` is whether the probe process
/// could be spawned and exited successfully, `stdout` its captured output
/// decoded as text (none when the bytes were not valid text). No usable
/// version — a failed probe, or an output that normalizes to nothing —
/// yields none; undecodable output yields the placeholder.
pub fn interpret_probe_output(success: bool, stdout: Option<Vec<u8>>) -> (r: Option<Vec<u8>>)
    ensures
        !success ==> r is None,
        (success && stdout is None) ==> (r matches Some(v) && v@ == unknown_version()),
        success ==> (stdout matches Some(s) ==> (if normalized_version(s@).len() == 0 {
            r is None
        } else {
            r matches Some(v) && v@ == normalized_version(s@)
        })),
{
    if !success {
        return None;
    }
    match stdout {
        None => Some("UNKNOWN".as_bytes_vec()),
        Some(s) => {
            let n = normalize_version(&s);
            if n.len() == 0 {
                None
            } else {
                Some(n)
            }
        },
    }
}

} // verus!
