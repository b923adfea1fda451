//! Text helpers: whitespace trimming and suffix tests over `Seq<char>`.

use vstd::prelude::*;
use vstd::string::*;
use vstd::utf8::*;

verus! {

/// Whether `c` is whitespace: what `char::is_whitespace` answers for it, that
/// is, whether `c` has the Unicode property `White_Space`.
pub uninterp spec fn is_whitespace(c: char) -> bool;

/// `char::is_whitespace` of std, which is a function of the character alone.
#[verifier::external_body]
pub(crate) fn char_is_whitespace(c: char) -> (b: bool)
    ensures
        b == is_whitespace(c),
{
    c.is_whitespace()
}

/// Every character of `s` is whitespace (so the empty text is blank).
pub open spec fn is_blank(s: Seq<char>) -> bool {
    forall|i: int| 0 <= i < s.len() ==> is_whitespace(#[trigger] s[i])
}

/// `s` without its leading whitespace.
pub open spec fn trim_start(s: Seq<char>) -> Seq<char>
    decreases s.len(),
{
    if s.len() > 0 && is_whitespace(s.first()) {
        trim_start(s.drop_first())
    } else {
        s
    }
}

/// `s` without its trailing whitespace.
pub open spec fn trim_end(s: Seq<char>) -> Seq<char>
    decreases s.len(),
{
    if s.len() > 0 && is_whitespace(s.last()) {
        trim_end(s.drop_last())
    } else {
        s
    }
}

/// `s` without leading and trailing whitespace.
pub open spec fn trimmed(s: Seq<char>) -> Seq<char> {
    trim_end(trim_start(s))
}

/// Where the whitespace before `a` is all that leads `s`, trimming the start
/// cuts exactly at `a`.
pub proof fn lemma_trim_start_cut(s: Seq<char>, a: int)
    requires
        0 <= a <= s.len(),
        forall|i: int| 0 <= i < a ==> is_whitespace(#[trigger] s[i]),
        a == s.len() || !is_whitespace(s[a]),
    ensures
        trim_start(s) == s.subrange(a, s.len() as int),
    decreases a,
{
    if a > 0 {
        let rest = s.drop_first();
        assert forall|i: int| 0 <= i < a - 1 implies is_whitespace(#[trigger] rest[i]) by {
            assert(rest[i] == s[i + 1]);
        }
        lemma_trim_start_cut(rest, a - 1);
    }
}

/// Where the whitespace from `b` on is all that trails `s`, trimming the end
/// cuts exactly at `b`.
pub proof fn lemma_trim_end_cut(s: Seq<char>, b: int)
    requires
        0 <= b <= s.len(),
        forall|i: int| b <= i < s.len() ==> is_whitespace(#[trigger] s[i]),
        b == 0 || !is_whitespace(s[b - 1]),
    ensures
        trim_end(s) == s.subrange(0, b),
    decreases s.len() - b,
{
    if b < s.len() {
        let rest = s.drop_last();
        assert forall|i: int| b <= i < rest.len() implies is_whitespace(#[trigger] rest[i]) by {
            assert(rest[i] == s[i]);
        }
        lemma_trim_end_cut(rest, b);
    }
}

/// A blank text trims to nothing, and only a blank text does.
pub proof fn lemma_trimmed_empty_iff_blank(s: Seq<char>)
    ensures
        trimmed(s).len() == 0 <==> is_blank(s),
    decreases s.len(),
{
    if s.len() > 0 && is_whitespace(s.first()) {
        let rest = s.drop_first();
        lemma_trimmed_empty_iff_blank(rest);
        if is_blank(rest) {
            assert forall|i: int| 0 <= i < s.len() implies is_whitespace(#[trigger] s[i]) by {
                if i > 0 {
                    assert(s[i] == rest[i - 1]);
                }
            }
        }
        if is_blank(s) {
            assert forall|i: int| 0 <= i < rest.len() implies is_whitespace(#[trigger] rest[i]) by {
                assert(rest[i] == s[i + 1]);
            }
        }
    } else if s.len() > 0 {
        lemma_trim_end_keeps_first(s);
    }
}

/// Trimming the end of a text that starts with a visible character leaves
/// that character in place.
proof fn lemma_trim_end_keeps_first(s: Seq<char>)
    requires
        s.len() > 0,
        !is_whitespace(s.first()),
    ensures
        trim_end(s).len() > 0,
    decreases s.len(),
{
    if is_whitespace(s.last()) {
        lemma_trim_end_keeps_first(s.drop_last());
    }
}

/// `s` without leading and trailing whitespace, as `str::trim` gives it.
pub fn trim(s: &str) -> (r: &str)
    ensures
        r@ == trimmed(s@),
{
    let n = s.unicode_len();
    let mut first: usize = 0;
    let mut end: usize = 0;
    let mut seen = false;
    let mut i: usize = 0;
    for c in it: s.chars()
        invariant
            n == s@.len(),
            it.seq() == s@,
            i == it.index(),
            !seen ==> first == 0 && end == 0,
            !seen ==> forall|k: int| 0 <= k < i ==> is_whitespace(#[trigger] s@[k]),
            seen ==> first < end <= i,
            seen ==> forall|k: int| 0 <= k < first ==> is_whitespace(#[trigger] s@[k]),
            seen ==> !is_whitespace(s@[first as int]),
            seen ==> !is_whitespace(s@[end - 1]),
            seen ==> forall|k: int| end <= k < i ==> is_whitespace(#[trigger] s@[k]),
    {
        if !char_is_whitespace(c) {
            if !seen {
                first = i;
                seen = true;
            }
            end = i + 1;
        }
        i = i + 1;
    }
    proof {
        if seen {
            // What is left after the leading whitespace ends in the
            // whitespace that follows the last visible character.
            lemma_trim_start_cut(s@, first as int);
            let body = s@.subrange(first as int, n as int);
            assert forall|k: int| end - first <= k < body.len() implies is_whitespace(
                #[trigger] body[k],
            ) by {
                assert(body[k] == s@[k + first]);
            }
            assert(body[end - first - 1] == s@[end - 1]);
            lemma_trim_end_cut(body, end - first);
            assert(body.subrange(0, end - first) =~= s@.subrange(first as int, end as int));
        } else {
            lemma_trim_start_cut(s@, n as int);
        }
    }
    s.substring_char(first, end)
}

/// Whether two texts hold the same characters.
pub fn text_eq(a: &str, b: &str) -> (r: bool)
    ensures
        r == (a@ == b@),
{
    let x = a.as_bytes();
    let y = b.as_bytes();
    proof {
        encode_utf8_decode_utf8(a@);
        encode_utf8_decode_utf8(b@);
    }
    if x.len() != y.len() {
        return false;
    }
    let mut i: usize = 0;
    while i < x.len()
        invariant
            i <= x.len(),
            x.len() == y.len(),
            x@ == encode_utf8(a@),
            y@ == encode_utf8(b@),
            decode_utf8(encode_utf8(a@)) == a@,
            decode_utf8(encode_utf8(b@)) == b@,
            forall|k: int| 0 <= k < i ==> x@[k] == y@[k],
        decreases x.len() - i,
    {
        if x[i] != y[i] {
            return false;
        }
        i = i + 1;
    }
    assert(x@ =~= y@);
    true
}

/// `s` ends with the characters of `suffix`.
pub open spec fn has_suffix(s: Seq<char>, suffix: Seq<char>) -> bool {
    suffix.len() <= s.len() && s.subrange(s.len() - suffix.len(), s.len() as int) == suffix
}

/// Whether `s` ends with `suffix`.
pub fn ends_with(s: &str, suffix: &str) -> (r: bool)
    ensures
        r == has_suffix(s@, suffix@),
{
    let n = s.unicode_len();
    let m = suffix.unicode_len();
    if n < m {
        return false;
    }
    text_eq(s.substring_char(n - m, n), suffix)
}

} // verus!
