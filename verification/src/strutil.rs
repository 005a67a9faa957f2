//! Small verified string helpers: single-character strings, prefix tests,
//! and non-overlapping left-to-right substring replacement.

use vstd::prelude::*;

verus! {

/// Relies on char::to_string: the result is the one-character string
/// holding exactly the argument.
#[verifier::external_body]
pub(crate) fn char_to_string(c: char) -> (s: String)
    ensures
        s@ == seq![c],
{
    c.to_string()
}

/// Appends one character to a string.
pub fn push_char(s: &mut String, c: char) -> (u: ())
    ensures
        final(s)@ == old(s)@ + seq![c],
{
    let t = char_to_string(c);
    s.append(t.as_str());
}

/// True when `pat` occurs in `s` starting at position `i`.
pub open spec fn occurs_at(s: Seq<char>, pat: Seq<char>, i: int) -> bool {
    0 <= i && i + pat.len() <= s.len() && s.subrange(i, i + pat.len() as int) == pat
}

/// Compares `pat` against the characters of `s` starting at position `i`.
pub fn matches_at(s: &str, i: usize, pat: &str) -> (b: bool)
    requires
        i + pat@.len() <= s@.len(),
    ensures
        b == occurs_at(s@, pat@, i as int),
{
    let slen = s.unicode_len();
    let plen = pat.unicode_len();
    let mut j: usize = 0;
    while j < plen
        invariant
            slen == s@.len(),
            plen == pat@.len(),
            i + plen <= slen,
            0 <= j <= plen,
            forall|k: int| 0 <= k < j ==> s@[i + k] == pat@[k],
        decreases plen - j,
    {
        if s.get_char(i + j) != pat.get_char(j) {
            assert(s@.subrange(i as int, i + plen as int)[j as int] != pat@[j as int]);
            return false;
        }
        j += 1;
    }
    assert(s@.subrange(i as int, i + plen as int) =~= pat@);
    true
}

/// True when `pfx` is a prefix of `s`.
pub open spec fn is_prefix_of(pfx: Seq<char>, s: Seq<char>) -> bool {
    occurs_at(s, pfx, 0)
}

/// Tests whether `s` begins with `pfx`.
pub fn has_prefix(s: &str, pfx: &str) -> (b: bool)
    ensures
        b == is_prefix_of(pfx@, s@),
{
    if pfx.unicode_len() > s.unicode_len() {
        return false;
    }
    matches_at(s, 0, pfx)
}

/// The result of replacing, left to right and without overlap, every
/// occurrence of `pat` in `s` by `rep`; `s` itself when `pat` is empty.
pub open spec fn replaced(s: Seq<char>, pat: Seq<char>, rep: Seq<char>) -> Seq<char>
    decreases s.len(),
{
    if pat.len() == 0 || s.len() < pat.len() {
        s
    } else if s.subrange(0, pat.len() as int) == pat {
        rep + replaced(s.skip(pat.len() as int), pat, rep)
    } else {
        seq![s[0]] + replaced(s.skip(1), pat, rep)
    }
}

proof fn lemma_replaced_unfold_char(t: Seq<char>, pat: Seq<char>, rep: Seq<char>)
    requires
        pat.len() >= 1,
        t.len() >= 1,
        !occurs_at(t, pat, 0),
    ensures
        replaced(t, pat, rep) == seq![t[0]] + replaced(t.skip(1), pat, rep),
{
    if t.len() < pat.len() {
        assert(replaced(t, pat, rep) == t);
        assert(t.skip(1).len() < pat.len());
        assert(replaced(t.skip(1), pat, rep) == t.skip(1));
        assert(t =~= seq![t[0]] + t.skip(1));
    }
}

/// Replaces every occurrence of `pat` in `s` by `rep`, scanning left to
/// right without overlap; returns `s` unchanged when `pat` is empty.
pub fn replace_all(s: &str, pat: &str, rep: &str) -> (r: String)
    ensures
        r@ == replaced(s@, pat@, rep@),
{
    let n = s.unicode_len();
    let plen = pat.unicode_len();
    if plen == 0 {
        return String::from_str(s);
    }
    let mut out = String::new();
    let mut i: usize = 0;
    proof {
        assert(s@.skip(0) =~= s@);
    }
    while i < n
        invariant
            n == s@.len(),
            plen == pat@.len(),
            plen >= 1,
            0 <= i <= n,
            replaced(s@, pat@, rep@) == out@ + replaced(s@.skip(i as int), pat@, rep@),
        decreases n - i,
    {
        let ghost tail = s@.skip(i as int);
        if plen <= n - i && matches_at(s, i, pat) {
            proof {
                assert(tail.subrange(0, plen as int) =~= s@.subrange(
                    i as int,
                    i + plen as int,
                ));
                assert(replaced(tail, pat@, rep@) == rep@ + replaced(
                    tail.skip(plen as int),
                    pat@,
                    rep@,
                ));
                assert(tail.skip(plen as int) =~= s@.skip(i + plen as int));
            }
            out.append(rep);
            i += plen;
        } else {
            proof {
                if plen <= n - i {
                    assert(tail.subrange(0, plen as int) =~= s@.subrange(
                        i as int,
                        i + plen as int,
                    ));
                }
                assert(!occurs_at(tail, pat@, 0));
                lemma_replaced_unfold_char(tail, pat@, rep@);
                assert(tail.skip(1) =~= s@.skip(i + 1));
                assert(seq![tail[0]] =~= s@.subrange(i as int, i + 1));
            }
            let piece = s.substring_char(i, i + 1);
            out.append(piece);
            i += 1;
        }
    }
    proof {
        assert(s@.skip(n as int) =~= Seq::<char>::empty());
        assert(replaced(s@.skip(n as int), pat@, rep@) =~= Seq::<char>::empty());
        assert(out@ =~= out@ + Seq::<char>::empty());
    }
    out
}

} // verus!
