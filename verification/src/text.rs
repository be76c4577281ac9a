//! Byte-level text utilities: whitespace normalization of message bodies and
//! case-sensitive substring search.
//!
//! Bodies are handled as UTF-8 encoded bytes. All three normalization rules
//! work on ASCII bytes only (newline, space, tab), which never occur inside a
//! multi-byte UTF-8 sequence, so normalizing the bytes normalizes the text.

use vstd::prelude::*;

verus! {

/// A newline byte.
pub open spec fn is_nl(b: u8) -> bool {
    b == 10u8
}

/// Horizontal whitespace: space or tab.
pub open spec fn is_hws(b: u8) -> bool {
    b == 32u8 || b == 9u8
}

/// ASCII whitespace, as trimmed from the ends of the whole text.
pub open spec fn is_ws(b: u8) -> bool {
    b == 9u8 || b == 10u8 || b == 11u8 || b == 12u8 || b == 13u8 || b == 32u8
}

/// Collapse every run of three or more newlines to exactly two: while three
/// newlines stand ahead, the first is dropped.
pub open spec fn spec_collapse(s: Seq<u8>) -> Seq<u8>
    decreases s.len(),
{
    if s.len() == 0 {
        Seq::empty()
    } else if s.len() >= 3 && is_nl(s[0]) && is_nl(s[1]) && is_nl(s[2]) {
        spec_collapse(s.skip(1))
    } else {
        seq![s[0]] + spec_collapse(s.skip(1))
    }
}

/// From the start of `s`, only spaces and tabs stand before the next newline
/// (or before the end of the text).
pub open spec fn blank_to_eol(s: Seq<u8>) -> bool
    decreases s.len(),
{
    if s.len() == 0 {
        true
    } else if is_nl(s[0]) {
        true
    } else if is_hws(s[0]) {
        blank_to_eol(s.skip(1))
    } else {
        false
    }
}

/// Drop every space or tab that stands in the blank tail of a line: trailing
/// horizontal whitespace before each newline and at the end of the text.
pub open spec fn spec_strip_trailing(s: Seq<u8>) -> Seq<u8>
    decreases s.len(),
{
    if s.len() == 0 {
        Seq::empty()
    } else if is_hws(s[0]) && blank_to_eol(s) {
        spec_strip_trailing(s.skip(1))
    } else {
        seq![s[0]] + spec_strip_trailing(s.skip(1))
    }
}

/// Drop leading ASCII whitespace.
pub open spec fn spec_trim_start(s: Seq<u8>) -> Seq<u8>
    decreases s.len(),
{
    if s.len() > 0 && is_ws(s[0]) {
        spec_trim_start(s.skip(1))
    } else {
        s
    }
}

/// Drop trailing ASCII whitespace.
pub open spec fn spec_trim_end(s: Seq<u8>) -> Seq<u8>
    decreases s.len(),
{
    if s.len() > 0 && is_ws(s[s.len() - 1]) {
        spec_trim_end(s.take(s.len() - 1))
    } else {
        s
    }
}

/// The whole normalization applied to every extracted body: collapse newline
/// runs, strip trailing blanks from each line, trim the ends of the text.
pub open spec fn spec_normalize(s: Seq<u8>) -> Seq<u8> {
    spec_trim_end(spec_trim_start(spec_strip_trailing(spec_collapse(s))))
}

/// Collapse every run of three or more newlines to exactly two.
pub fn collapse_newlines(s: &[u8]) -> (r: Vec<u8>)
    ensures
        r@ == spec_collapse(s@),
{
    let mut out: Vec<u8> = Vec::new();
    let mut i: usize = 0;
    proof {
        assert(s@.skip(0) =~= s@);
        assert(out@ + spec_collapse(s@) =~= spec_collapse(s@));
    }
    while i < s.len()
        invariant
            i <= s.len(),
            out@ + spec_collapse(s@.skip(i as int)) == spec_collapse(s@),
        decreases s.len() - i,
    {
        proof {
            assert(s@.skip(i as int).skip(1) =~= s@.skip(i as int + 1));
        }
        if s.len() - i >= 3 && s[i] == 10 && s[i + 1] == 10 && s[i + 2] == 10 {
            proof {
                assert(s@.skip(i as int)[0] == s@[i as int]);
                assert(s@.skip(i as int)[1] == s@[i as int + 1]);
                assert(s@.skip(i as int)[2] == s@[i as int + 2]);
            }
        } else {
            let b = s[i];
            out.push(b);
            proof {
                assert(seq![s@[i as int]] + spec_collapse(s@.skip(i as int + 1))
                    == spec_collapse(s@.skip(i as int)));
                assert(out@ + spec_collapse(s@.skip(i as int + 1))
                    =~= (out@.take(out@.len() - 1) + seq![s@[i as int]])
                        + spec_collapse(s@.skip(i as int + 1)));
                assert((out@.take(out@.len() - 1) + seq![s@[i as int]])
                    + spec_collapse(s@.skip(i as int + 1))
                    =~= out@.take(out@.len() - 1)
                        + (seq![s@[i as int]] + spec_collapse(s@.skip(i as int + 1))));
            }
        }
        i = i + 1;
    }
    proof {
        assert(s@.skip(s@.len() as int) =~= Seq::<u8>::empty());
        assert(out@ + Seq::<u8>::empty() =~= out@);
    }
    out
}

/// From position `i`, only spaces and tabs stand before the next newline or
/// the end.
fn blank_to_eol_from(s: &[u8], i: usize) -> (r: bool)
    requires
        i <= s.len(),
    ensures
        r == blank_to_eol(s@.skip(i as int)),
{
    let mut j: usize = i;
    while j < s.len() && (s[j] == 32 || s[j] == 9)
        invariant
            i <= j <= s.len(),
            blank_to_eol(s@.skip(i as int)) == blank_to_eol(s@.skip(j as int)),
        decreases s.len() - j,
    {
        proof {
            assert(s@.skip(j as int)[0] == s@[j as int]);
            assert(s@.skip(j as int).skip(1) =~= s@.skip(j as int + 1));
        }
        j = j + 1;
    }
    if j == s.len() {
        proof {
            assert(s@.skip(j as int) =~= Seq::<u8>::empty());
        }
        true
    } else {
        proof {
            assert(s@.skip(j as int)[0] == s@[j as int]);
        }
        s[j] == 10
    }
}

/// Strip trailing spaces and tabs from every line of the text.
pub fn strip_trailing_blanks(s: &[u8]) -> (r: Vec<u8>)
    ensures
        r@ == spec_strip_trailing(s@),
{
    let mut out: Vec<u8> = Vec::new();
    let mut i: usize = 0;
    proof {
        assert(s@.skip(0) =~= s@);
        assert(out@ + spec_strip_trailing(s@) =~= spec_strip_trailing(s@));
    }
    while i < s.len()
        invariant
            i <= s.len(),
            out@ + spec_strip_trailing(s@.skip(i as int)) == spec_strip_trailing(s@),
        decreases s.len() - i,
    {
        proof {
            assert(s@.skip(i as int)[0] == s@[i as int]);
            assert(s@.skip(i as int).skip(1) =~= s@.skip(i as int + 1));
        }
        let hws = s[i] == 32 || s[i] == 9;
        let drop_byte = if hws {
            blank_to_eol_from(s, i)
        } else {
            false
        };
        if !drop_byte {
            let b = s[i];
            out.push(b);
            proof {
                assert(seq![s@[i as int]] + spec_strip_trailing(s@.skip(i as int + 1))
                    == spec_strip_trailing(s@.skip(i as int)));
                assert(out@ + spec_strip_trailing(s@.skip(i as int + 1))
                    =~= out@.take(out@.len() - 1)
                        + (seq![s@[i as int]] + spec_strip_trailing(s@.skip(i as int + 1))));
            }
        }
        i = i + 1;
    }
    proof {
        assert(s@.skip(s@.len() as int) =~= Seq::<u8>::empty());
        assert(out@ + Seq::<u8>::empty() =~= out@);
    }
    out
}

/// Trim ASCII whitespace from both ends.
pub fn trim_whitespace(s: &[u8]) -> (r: Vec<u8>)
    ensures
        r@ == spec_trim_end(spec_trim_start(s@)),
{
    let mut a: usize = 0;
    proof {
        assert(s@.skip(0) =~= s@);
    }
    while a < s.len() && (s[a] == 9 || s[a] == 10 || s[a] == 11 || s[a] == 12 || s[a] == 13
        || s[a] == 32)
        invariant
            a <= s.len(),
            spec_trim_start(s@) == spec_trim_start(s@.skip(a as int)),
        decreases s.len() - a,
    {
        proof {
            assert(s@.skip(a as int)[0] == s@[a as int]);
            assert(s@.skip(a as int).skip(1) =~= s@.skip(a as int + 1));
        }
        a = a + 1;
    }
    proof {
        // The scan stopped at the end or at a non-whitespace byte, so the
        // remainder is its own trimmed-start form.
        if a < s.len() {
            assert(s@.skip(a as int)[0] == s@[a as int]);
        }
        assert(spec_trim_start(s@.skip(a as int)) == s@.skip(a as int));
    }
    let ghost t = s@.skip(a as int);
    let mut b: usize = s.len();
    proof {
        assert(t.take(b - a) =~= t);
    }
    while b > a && (s[b - 1] == 9 || s[b - 1] == 10 || s[b - 1] == 11 || s[b - 1] == 12
        || s[b - 1] == 13 || s[b - 1] == 32)
        invariant
            a <= b <= s.len(),
            t == s@.skip(a as int),
            spec_trim_end(t) == spec_trim_end(t.take(b - a)),
        decreases b,
    {
        proof {
            assert(t.take(b - a).len() == b - a);
            assert(t.take(b - a)[b - a - 1] == s@[b as int - 1]);
            assert(t.take(b - a).take(b - a - 1) =~= t.take(b - a - 1));
        }
        b = b - 1;
    }
    proof {
        if b > a {
            assert(t.take(b - a)[b - a - 1] == s@[b as int - 1]);
        } else {
            assert(t.take(0) =~= Seq::<u8>::empty());
        }
        assert(spec_trim_end(t.take(b - a)) == t.take(b - a));
        assert(s@.subrange(a as int, b as int) =~= t.take(b - a));
    }
    let sl = vstd::slice::slice_subrange(s, a, b);
    vstd::slice::slice_to_vec(sl)
}

/// Apply the full normalization: collapse newline runs to at most two, strip
/// trailing blanks from each line, trim whitespace from the ends.
pub fn normalize_text(s: &[u8]) -> (r: Vec<u8>)
    ensures
        r@ == spec_normalize(s@),
{
    let c = collapse_newlines(s);
    let st = strip_trailing_blanks(c.as_slice());
    trim_whitespace(st.as_slice())
}

/// No three consecutive newlines anywhere in the text.
pub open spec fn no_triple_newline(s: Seq<u8>) -> bool {
    forall|i: int|
        0 <= i && i + 2 < s.len() ==> !(is_nl(#[trigger] s[i]) && is_nl(s[i + 1]) && is_nl(s[i + 2]))
}

/// No space or tab stands at the end of a line or at the end of the text.
pub open spec fn no_trailing_blank(s: Seq<u8>) -> bool {
    forall|i: int| 0 <= i < s.len() && is_hws(s[i]) ==> i + 1 < s.len() && !is_nl(s[i + 1])
}

/// Neither end of the text is whitespace.
pub open spec fn trimmed_ends(s: Seq<u8>) -> bool {
    s.len() > 0 ==> !is_ws(s[0]) && !is_ws(s[s.len() - 1])
}

/// Text on which the normalization rules have nothing left to do.
pub open spec fn is_normalized(s: Seq<u8>) -> bool {
    no_triple_newline(s) && no_trailing_blank(s) && trimmed_ends(s)
}

proof fn lemma_collapse_identity(s: Seq<u8>)
    requires
        no_triple_newline(s),
    ensures
        spec_collapse(s) == s,
    decreases s.len(),
{
    if s.len() == 0 {
        assert(spec_collapse(s) =~= s);
    } else {
        assert(!(s.len() >= 3 && is_nl(s[0]) && is_nl(s[1]) && is_nl(s[2])));
        assert(forall|i: int| 0 <= i < s.skip(1).len() ==> s.skip(1)[i] == s[i + 1]);
        lemma_collapse_identity(s.skip(1));
        assert(seq![s[0]] + s.skip(1) =~= s);
    }
}

proof fn lemma_hws_not_blank_to_eol(s: Seq<u8>)
    requires
        no_trailing_blank(s),
        s.len() > 0,
        is_hws(s[0]),
    ensures
        !blank_to_eol(s),
    decreases s.len(),
{
    // s[0] is horizontal whitespace, so something other than a newline
    // follows it; the chain of spaces and tabs cannot reach a newline or the
    // end of the text without one of its members breaking the premise.
    assert(1 < s.len() && !is_nl(s[1]));
    if is_hws(s[1]) {
        assert(forall|i: int|
            0 <= i < s.skip(1).len() && is_hws(s.skip(1)[i]) ==> i + 1 < s.skip(1).len() && !is_nl(
                s.skip(1)[i + 1],
            )) by {
            assert(forall|i: int| 0 <= i < s.skip(1).len() ==> s.skip(1)[i] == s[i + 1]);
        }
        lemma_hws_not_blank_to_eol(s.skip(1));
    } else {
        assert(!blank_to_eol(s.skip(1)));
    }
}

proof fn lemma_strip_identity(s: Seq<u8>)
    requires
        no_trailing_blank(s),
    ensures
        spec_strip_trailing(s) == s,
    decreases s.len(),
{
    if s.len() == 0 {
        assert(spec_strip_trailing(s) =~= s);
    } else {
        if is_hws(s[0]) {
            lemma_hws_not_blank_to_eol(s);
        }
        assert(forall|i: int|
            0 <= i < s.skip(1).len() && is_hws(s.skip(1)[i]) ==> i + 1 < s.skip(1).len() && !is_nl(
                s.skip(1)[i + 1],
            )) by {
            assert(forall|i: int| 0 <= i < s.skip(1).len() ==> s.skip(1)[i] == s[i + 1]);
        }
        lemma_strip_identity(s.skip(1));
        assert(seq![s[0]] + s.skip(1) =~= s);
    }
}

/// Law: normalization is idempotent — applied to already-normalized text it
/// changes nothing: newline runs are not collapsed further, and no more
/// content is trimmed away.
pub proof fn lemma_normalize_idempotent(s: Seq<u8>)
    requires
        is_normalized(s),
    ensures
        spec_normalize(s) == s,
{
    lemma_collapse_identity(s);
    lemma_strip_identity(s);
    if s.len() > 0 {
        assert(spec_trim_start(s) == s);
        assert(spec_trim_end(s) == s);
    } else {
        assert(spec_trim_start(s) == s);
        assert(spec_trim_end(s) == s);
    }
}

/// Case-sensitive containment: `needle` occurs contiguously inside `hay`.
pub open spec fn is_substring(hay: Seq<u8>, needle: Seq<u8>) -> bool {
    exists|k: int|
        0 <= k && k + needle.len() <= hay.len() && #[trigger] hay.subrange(
            k,
            k + needle.len() as int,
        ) == needle
}

fn match_at(hay: &[u8], needle: &[u8], k: usize) -> (r: bool)
    requires
        k + needle@.len() <= hay@.len(),
    ensures
        r == (hay@.subrange(k as int, k as int + needle@.len() as int) == needle@),
{
    let ghost sub = hay@.subrange(k as int, k as int + needle@.len() as int);
    let hlen = hay.len();
    let nlen = needle.len();
    let mut j: usize = 0;
    while j < nlen
        invariant
            j <= nlen,
            nlen == needle@.len(),
            hlen == hay@.len(),
            k + nlen <= hlen,
            sub == hay@.subrange(k as int, k as int + needle@.len() as int),
            forall|t: int| 0 <= t < j ==> hay@[k + t] == needle@[t],
        decreases nlen - j,
    {
        if hay[k + j] != needle[j] {
            proof {
                assert(sub[j as int] == hay@[k + j]);
            }
            return false;
        }
        j = j + 1;
    }
    proof {
        assert(sub =~= needle@);
    }
    true
}

/// Whether `needle` occurs as a contiguous byte sequence inside `hay`.
/// Matching is exact and case-sensitive.
pub fn contains_bytes(hay: &[u8], needle: &[u8]) -> (r: bool)
    ensures
        r == is_substring(hay@, needle@),
{
    if needle.len() > hay.len() {
        return false;
    }
    let last = hay.len() - needle.len();
    let mut k: usize = 0;
    loop
        invariant
            needle@.len() <= hay@.len(),
            last == hay@.len() - needle@.len(),
            0 <= k <= last,
            forall|t: int|
                0 <= t < k ==> #[trigger] hay@.subrange(t, t + needle@.len() as int) != needle@,
        decreases last - k,
    {
        if match_at(hay, needle, k) {
            return true;
        }
        if k == last {
            proof {
                assert(forall|t: int|
                    0 <= t && t + needle@.len() <= hay@.len() ==> #[trigger] hay@.subrange(
                        t,
                        t + needle@.len() as int,
                    ) != needle@);
            }
            return false;
        }
        k = k + 1;
    }
}

/// Whether two byte slices hold the same bytes.
pub fn bytes_eq(a: &[u8], b: &[u8]) -> (r: bool)
    ensures
        r == (a@ == b@),
{
    if a.len() != b.len() {
        return false;
    }
    let mut i: usize = 0;
    while i < a.len()
        invariant
            a@.len() == b@.len(),
            i <= a@.len(),
            forall|t: int| 0 <= t < i ==> a@[t] == b@[t],
        decreases a.len() - i,
    {
        if a[i] != b[i] {
            return false;
        }
        i = i + 1;
    }
    proof {
        assert(a@ =~= b@);
    }
    true
}

} // verus!
