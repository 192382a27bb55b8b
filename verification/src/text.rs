//! Whitespace trimming of sentence spans.
//!
//! A sentence span handed out by the segmenter must carry its text with
//! leading and trailing whitespace removed. `trim_spec` says what the
//! trimmed form of a character sequence is; `trimmed` computes it.

use vstd::prelude::*;

verus! {

/// Whether a character counts as whitespace. The result depends on the
/// character alone; it is pinned to `char::is_whitespace` below.
pub uninterp spec fn is_space(c: char) -> bool;

/// Relies on `char::is_whitespace`: the Unicode white-space test used by
/// the standard library's trimming functions.
pub assume_specification[ char::is_whitespace ](c: char) -> (r: bool)
    ensures
        r == is_space(c),
;

/// How many characters of leading whitespace `s` carries.
pub open spec fn lead_spaces(s: Seq<char>) -> int
    decreases s.len(),
{
    if s.len() == 0 {
        0
    } else if !is_space(s[0]) {
        0
    } else {
        1 + lead_spaces(s.drop_first())
    }
}

/// How many characters of trailing whitespace `s` carries.
pub open spec fn trail_spaces(s: Seq<char>) -> int
    decreases s.len(),
{
    if s.len() == 0 {
        0
    } else if !is_space(s[s.len() - 1]) {
        0
    } else {
        1 + trail_spaces(s.drop_last())
    }
}

/// The trimmed form of `s`: what is left after the leading and trailing
/// whitespace is removed. A sequence of nothing but whitespace trims to
/// the empty sequence.
pub open spec fn trim_spec(s: Seq<char>) -> Seq<char> {
    if lead_spaces(s) == s.len() {
        Seq::empty()
    } else {
        s.subrange(lead_spaces(s), s.len() - trail_spaces(s))
    }
}

/// A sequence is trimmed when it neither starts nor ends with whitespace.
pub open spec fn is_trimmed(s: Seq<char>) -> bool {
    s.len() > 0 ==> (!is_space(s[0]) && !is_space(s[s.len() - 1]))
}

/// `part` occurs contiguously somewhere in `whole`.
pub open spec fn is_substring(part: Seq<char>, whole: Seq<char>) -> bool {
    exists|a: int, b: int| 0 <= a <= b <= whole.len() && part == whole.subrange(a, b)
}

/// The first `lead_spaces(s)` characters are whitespace, and the next one,
/// if any, is not.
pub proof fn lemma_lead_spaces(s: Seq<char>)
    ensures
        0 <= lead_spaces(s) <= s.len(),
        forall|j: int| 0 <= j < lead_spaces(s) ==> is_space(s[j]),
        lead_spaces(s) < s.len() ==> !is_space(s[lead_spaces(s)]),
    decreases s.len(),
{
    if s.len() > 0 && is_space(s[0]) {
        let t = s.drop_first();
        lemma_lead_spaces(t);
        assert forall|j: int| 0 <= j < lead_spaces(s) implies is_space(s[j]) by {
            if j > 0 {
                assert(t[j - 1] == s[j]);
            }
        }
        if lead_spaces(s) < s.len() {
            assert(t[lead_spaces(t)] == s[lead_spaces(s)]);
        }
    }
}

/// `lead_spaces` is the only count with the properties of `lemma_lead_spaces`.
pub proof fn lemma_lead_spaces_unique(s: Seq<char>, i: int)
    requires
        0 <= i <= s.len(),
        forall|j: int| 0 <= j < i ==> is_space(s[j]),
        i < s.len() ==> !is_space(s[i]),
    ensures
        lead_spaces(s) == i,
{
    lemma_lead_spaces(s);
    if lead_spaces(s) < i {
        assert(is_space(s[lead_spaces(s)]));
        assert(false);
    }
    if lead_spaces(s) > i {
        assert(is_space(s[i]));
        assert(false);
    }
}

/// The last `trail_spaces(s)` characters are whitespace, and the one just
/// before them, if any, is not.
pub proof fn lemma_trail_spaces(s: Seq<char>)
    ensures
        0 <= trail_spaces(s) <= s.len(),
        forall|j: int| s.len() - trail_spaces(s) <= j < s.len() ==> is_space(s[j]),
        trail_spaces(s) < s.len() ==> !is_space(s[s.len() - trail_spaces(s) - 1]),
    decreases s.len(),
{
    if s.len() > 0 && is_space(s[s.len() - 1]) {
        let t = s.drop_last();
        lemma_trail_spaces(t);
        assert forall|j: int| s.len() - trail_spaces(s) <= j < s.len() implies is_space(s[j]) by {
            if j < s.len() - 1 {
                assert(t[j] == s[j]);
            }
        }
        if trail_spaces(s) < s.len() {
            assert(t[t.len() - trail_spaces(t) - 1] == s[s.len() - trail_spaces(s) - 1]);
        }
    }
}

/// `trail_spaces` is the only count with the properties of `lemma_trail_spaces`.
pub proof fn lemma_trail_spaces_unique(s: Seq<char>, k: int)
    requires
        0 <= k <= s.len(),
        forall|j: int| s.len() - k <= j < s.len() ==> is_space(s[j]),
        k < s.len() ==> !is_space(s[s.len() - k - 1]),
    ensures
        trail_spaces(s) == k,
{
    lemma_trail_spaces(s);
    if trail_spaces(s) < k {
        assert(is_space(s[s.len() - trail_spaces(s) - 1]));
        assert(false);
    }
    if trail_spaces(s) > k {
        assert(is_space(s[s.len() - k - 1]));
        assert(false);
    }
}

/// When some character is not whitespace, the leading and trailing
/// whitespace runs do not overlap.
pub proof fn lemma_lead_trail_disjoint(s: Seq<char>)
    requires
        lead_spaces(s) < s.len(),
    ensures
        lead_spaces(s) + trail_spaces(s) < s.len(),
{
    lemma_lead_spaces(s);
    lemma_trail_spaces(s);
    if s.len() - trail_spaces(s) <= lead_spaces(s) {
        assert(is_space(s[lead_spaces(s)]));
        assert(false);
    }
}

/// The trimmed form of any sequence is itself trimmed.
pub proof fn lemma_trim_spec_trimmed(s: Seq<char>)
    ensures
        is_trimmed(trim_spec(s)),
{
    lemma_lead_spaces(s);
    lemma_trail_spaces(s);
    if lead_spaces(s) < s.len() {
        lemma_lead_trail_disjoint(s);
        let t = trim_spec(s);
        assert(t[0] == s[lead_spaces(s)]);
        assert(t[t.len() - 1] == s[s.len() - trail_spaces(s) - 1]);
    }
}

/// Trimming leaves a sequence that is already trimmed unchanged; with
/// `lemma_trim_spec_trimmed` this makes trimming idempotent.
pub proof fn lemma_trim_spec_identity(s: Seq<char>)
    requires
        is_trimmed(s),
    ensures
        trim_spec(s) == s,
{
    if s.len() == 0 {
        lemma_lead_spaces_unique(s, 0);
        assert(trim_spec(s) =~= s);
    } else {
        lemma_lead_spaces_unique(s, 0);
        lemma_trail_spaces_unique(s, 0);
        assert(trim_spec(s) =~= s);
    }
}

/// Trimming a substring of a text leaves a substring of that text.
pub proof fn lemma_trim_substring(s: Seq<char>, whole: Seq<char>)
    requires
        is_substring(s, whole),
    ensures
        is_substring(trim_spec(s), whole),
{
    let (a, b): (int, int) = choose|a: int, b: int|
        0 <= a <= b <= whole.len() && s == whole.subrange(a, b);
    lemma_lead_spaces(s);
    lemma_trail_spaces(s);
    if lead_spaces(s) == s.len() {
        assert(trim_spec(s) =~= whole.subrange(a, a));
    } else {
        lemma_lead_trail_disjoint(s);
        let lo = a + lead_spaces(s);
        let hi = b - trail_spaces(s);
        assert forall|k: int| 0 <= k < trim_spec(s).len() implies trim_spec(s)[k] == whole.subrange(
            lo,
            hi,
        )[k] by {
            assert(trim_spec(s)[k] == s[lead_spaces(s) + k]);
            assert(s[lead_spaces(s) + k] == whole[a + lead_spaces(s) + k]);
        }
        assert(trim_spec(s) =~= whole.subrange(lo, hi));
    }
}

/// The trimmed copy of a span's text: `r` is `s` with leading and
/// trailing whitespace removed.
pub fn trimmed(s: &str) -> (r: String)
    ensures
        r@ == trim_spec(s@),
{
    let n = s.unicode_len();
    let mut lo: usize = 0;
    while lo < n && s.get_char(lo).is_whitespace()
        invariant
            0 <= lo <= n,
            n == s@.len(),
            forall|j: int| 0 <= j < lo ==> is_space(s@[j]),
        decreases n - lo,
    {
        lo = lo + 1;
    }
    proof {
        lemma_lead_spaces_unique(s@, lo as int);
    }
    let mut hi: usize = n;
    while hi > lo && s.get_char(hi - 1).is_whitespace()
        invariant
            lo <= hi <= n,
            n == s@.len(),
            forall|j: int| hi <= j < n ==> is_space(s@[j]),
        decreases hi,
    {
        hi = hi - 1;
    }
    proof {
        if lo == n {
            assert(s@.subrange(lo as int, hi as int) =~= trim_spec(s@));
        } else {
            assert(hi > lo);
            lemma_trail_spaces_unique(s@, (n - hi) as int);
            assert(s@.subrange(lo as int, hi as int) =~= trim_spec(s@));
        }
    }
    s.substring_char(lo, hi).to_owned()
}

/// Trims every span in order; element `i` of the result is the trimmed
/// text of element `i` of the input.
pub fn trim_all(spans: Vec<String>) -> (r: Vec<String>)
    ensures
        r@.len() == spans@.len(),
        forall|i: int| 0 <= i < spans@.len() ==> r@[i]@ == trim_spec(spans@[i]@),
{
    let mut out: Vec<String> = Vec::new();
    let mut k: usize = 0;
    while k < spans.len()
        invariant
            0 <= k <= spans@.len(),
            out@.len() == k,
            forall|i: int| 0 <= i < k ==> out@[i]@ == trim_spec(spans@[i]@),
        decreases spans@.len() - k,
    {
        let t = trimmed(spans[k].as_str());
        out.push(t);
        k = k + 1;
    }
    out
}

} // verus!
