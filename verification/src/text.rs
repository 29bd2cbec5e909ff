//! Whitespace and newline trimming over the characters of a string.

use vstd::prelude::*;

verus! {

/// Whether `c` is whitespace: one of the 25 characters that carry the Unicode
/// property `White_Space`.
pub open spec fn is_white_space(c: char) -> bool {
    ||| ('\u{9}' <= c && c <= '\u{d}')
    ||| c == ' '
    ||| c == '\u{85}'
    ||| c == '\u{a0}'
    ||| c == '\u{1680}'
    ||| ('\u{2000}' <= c && c <= '\u{200a}')
    ||| c == '\u{2028}'
    ||| c == '\u{2029}'
    ||| c == '\u{202f}'
    ||| c == '\u{205f}'
    ||| c == '\u{3000}'
}

/// Calls `char::is_whitespace`, which tells whether a character carries the
/// property `White_Space`: its answer is claimed to be [`is_white_space`].
#[verifier::external_body]
pub(crate) fn char_is_whitespace(c: char) -> (r: bool)
    ensures
        r == is_white_space(c),
{
    c.is_whitespace()
}

/// `s` without its leading whitespace.
pub open spec fn trim_start_spec(s: Seq<char>) -> Seq<char>
    decreases s.len(),
{
    if s.len() > 0 && is_white_space(s[0]) {
        trim_start_spec(s.drop_first())
    } else {
        s
    }
}

/// `s` without its trailing whitespace.
pub open spec fn trim_end_spec(s: Seq<char>) -> Seq<char>
    decreases s.len(),
{
    if s.len() > 0 && is_white_space(s.last()) {
        trim_end_spec(s.drop_last())
    } else {
        s
    }
}

/// `s` without its leading and trailing whitespace.
pub open spec fn trim_spec(s: Seq<char>) -> Seq<char> {
    trim_end_spec(trim_start_spec(s))
}

/// `s` holds nothing but whitespace (or nothing at all).
pub open spec fn is_blank_spec(s: Seq<char>) -> bool {
    forall|i: int| 0 <= i < s.len() ==> is_white_space(#[trigger] s[i])
}

/// `s` without the line feed at its end, where it ends in one. No more than
/// that one character is taken away.
pub open spec fn strip_final_newline_spec(s: Seq<char>) -> Seq<char> {
    if s.len() > 0 && s.last() == '\n' {
        s.drop_last()
    } else {
        s
    }
}

/// Trimming at the start only ever removes characters: the result is a suffix.
pub proof fn lemma_trim_start_is_suffix(s: Seq<char>)
    ensures
        trim_start_spec(s).len() <= s.len(),
        trim_start_spec(s) == s.skip(s.len() - trim_start_spec(s).len()),
        trim_start_spec(s).len() > 0 ==> !is_white_space(trim_start_spec(s)[0]),
        forall|i: int|
            0 <= i < s.len() - trim_start_spec(s).len() ==> is_white_space(#[trigger] s[i]),
    decreases s.len(),
{
    if s.len() > 0 && is_white_space(s[0]) {
        let t = s.drop_first();
        lemma_trim_start_is_suffix(t);
        let k = s.len() - trim_start_spec(s).len();
        assert(t.skip(k - 1) =~= s.skip(k));
        assert forall|i: int| 0 <= i < k implies is_white_space(#[trigger] s[i]) by {
            if i > 0 {
                assert(s[i] == t[i - 1]);
            }
        }
    } else {
        assert(s.skip(0) =~= s);
    }
}

/// Trimming at the end only ever removes characters: the result is a prefix.
pub proof fn lemma_trim_end_is_prefix(s: Seq<char>)
    ensures
        trim_end_spec(s).len() <= s.len(),
        trim_end_spec(s) == s.take(trim_end_spec(s).len() as int),
        trim_end_spec(s).len() > 0 ==> !is_white_space(trim_end_spec(s).last()),
        forall|i: int|
            trim_end_spec(s).len() <= i < s.len() ==> is_white_space(#[trigger] s[i]),
    decreases s.len(),
{
    if s.len() > 0 && is_white_space(s.last()) {
        let t = s.drop_last();
        lemma_trim_end_is_prefix(t);
        let k = trim_end_spec(s).len() as int;
        assert(t.take(k) =~= s.take(k));
        assert forall|i: int| k <= i < s.len() implies is_white_space(#[trigger] s[i]) by {
            if i < t.len() {
                assert(s[i] == t[i]);
            }
        }
    } else {
        assert(s.take(s.len() as int) =~= s);
    }
}

/// A string trims to nothing exactly when it is blank.
pub proof fn lemma_blank_iff_trim_empty(s: Seq<char>)
    ensures
        is_blank_spec(s) <==> trim_spec(s).len() == 0,
{
    lemma_trim_start_is_suffix(s);
    let t = trim_start_spec(s);
    lemma_trim_end_is_prefix(t);
    let k = s.len() - t.len();
    if t.len() == 0 {
        assert(is_blank_spec(s));
    } else {
        assert(t[0] == s[k]);
        assert(!is_white_space(s[k]));
        assert(!is_blank_spec(s));
        // the first character of `t` is kept by the trim at the end
        if trim_end_spec(t).len() == 0 {
            assert(is_white_space(t[0]));
        }
    }
}

/// Taking a whitespace character off the end of a text that is not blank
/// commutes with trimming its start.
proof fn lemma_trim_start_keeps_end(s: Seq<char>)
    requires
        s.len() > 0,
        is_white_space(s.last()),
        !is_blank_spec(s),
    ensures
        !is_blank_spec(s.drop_last()),
        trim_start_spec(s).len() > 0,
        trim_start_spec(s).last() == s.last(),
        trim_start_spec(s.drop_last()) == trim_start_spec(s).drop_last(),
    decreases s.len(),
{
    let i = choose|i: int| 0 <= i < s.len() && !is_white_space(#[trigger] s[i]);
    assert(i < s.len() - 1);
    assert(s.drop_last()[i] == s[i]);
    assert(s.drop_last()[0] == s[0]);
    if is_white_space(s[0]) {
        let t = s.drop_first();
        assert(t[i - 1] == s[i]);
        assert(t.last() == s.last());
        lemma_trim_start_keeps_end(t);
        assert(s.drop_last().drop_first() =~= t.drop_last());
    }
}

/// Whitespace at the end of a text that is not blank has no part in what the
/// text trims to.
pub proof fn lemma_trim_ignores_trailing_whitespace(s: Seq<char>)
    requires
        s.len() > 0,
        is_white_space(s.last()),
        !is_blank_spec(s),
    ensures
        !is_blank_spec(s.drop_last()),
        trim_spec(s.drop_last()) == trim_spec(s),
{
    lemma_trim_start_keeps_end(s);
}

/// A line feed at the end of a text that is not blank has no part in what
/// the text trims to.
pub proof fn lemma_trim_ignores_final_newline(s: Seq<char>)
    requires
        !is_blank_spec(s),
    ensures
        !is_blank_spec(strip_final_newline_spec(s)),
        trim_spec(strip_final_newline_spec(s)) == trim_spec(s),
{
    if s.len() > 0 && s.last() == '\n' {
        lemma_trim_ignores_trailing_whitespace(s);
    }
}

/// Whether `s` is empty or holds whitespace only.
pub fn is_blank(s: &str) -> (r: bool)
    ensures
        r == is_blank_spec(s@),
        r == (trim_spec(s@).len() == 0),
{
    proof {
        lemma_blank_iff_trim_empty(s@);
    }
    let n: usize = s.unicode_len();
    let mut i: usize = 0;
    while i < n
        invariant
            n == s@.len(),
            is_blank_spec(s@) <==> trim_spec(s@).len() == 0,
            i <= n,
            forall|k: int| 0 <= k < i ==> is_white_space(#[trigger] s@[k]),
        decreases n - i,
    {
        if !char_is_whitespace(s.get_char(i)) {
            assert(!is_white_space(s@[i as int]));
            return false;
        }
        i += 1;
    }
    true
}

/// The part of `s` between its leading and its trailing whitespace.
pub fn trimmed(s: &str) -> (r: &str)
    ensures
        r@ == trim_spec(s@),
{
    let n: usize = s.unicode_len();
    let mut i: usize = 0;
    proof {
        assert(s@.subrange(0, n as int) =~= s@);
    }
    while i < n && char_is_whitespace(s.get_char(i))
        invariant
            n == s@.len(),
            i <= n,
            trim_start_spec(s@) == trim_start_spec(s@.subrange(i as int, n as int)),
        decreases n - i,
    {
        proof {
            let t = s@.subrange(i as int, n as int);
            assert(t[0] == s@[i as int]);
            assert(t.drop_first() =~= s@.subrange(i + 1, n as int));
        }
        i += 1;
    }
    let mut j: usize = n;
    proof {
        let t = s@.subrange(i as int, n as int);
        if i < n {
            assert(t[0] == s@[i as int]);
        }
        assert(trim_start_spec(s@) == t);
    }
    while j > i && char_is_whitespace(s.get_char(j - 1))
        invariant
            n == s@.len(),
            i <= j <= n,
            trim_spec(s@) == trim_end_spec(s@.subrange(i as int, j as int)),
        decreases j,
    {
        proof {
            let t = s@.subrange(i as int, j as int);
            assert(t.last() == s@[j - 1]);
            assert(t.drop_last() =~= s@.subrange(i as int, j - 1));
        }
        j -= 1;
    }
    proof {
        let t = s@.subrange(i as int, j as int);
        if j > i {
            assert(t.last() == s@[j - 1]);
        }
        assert(trim_end_spec(t) == t);
    }
    s.substring_char(i, j)
}

/// `s` without the line feed at its end, where it ends in one; everything
/// else is kept as it is.
pub fn strip_final_newline(s: &str) -> (r: &str)
    ensures
        r@ == strip_final_newline_spec(s@),
{
    let n: usize = s.unicode_len();
    if n > 0 && s.get_char(n - 1) == '\n' {
        s.substring_char(0, n - 1)
    } else {
        s
    }
}

/// Whether `a` and `b` are the same text once both are trimmed.
pub fn same_after_trim(a: &str, b: &str) -> (r: bool)
    ensures
        r == (trim_spec(a@) == trim_spec(b@)),
{
    let ta = trimmed(a);
    let tb = trimmed(b);
    str_equal(ta, tb)
}

/// Whether `a` and `b` hold the same characters.
pub fn str_equal(a: &str, b: &str) -> (r: bool)
    ensures
        r == (a@ == b@),
{
    let n: usize = a.unicode_len();
    if b.unicode_len() != n {
        return false;
    }
    let mut i: usize = 0;
    while i < n
        invariant
            n == a@.len(),
            n == b@.len(),
            i <= n,
            forall|k: int| 0 <= k < i ==> a@[k] == b@[k],
        decreases n - i,
    {
        if a.get_char(i) != b.get_char(i) {
            return false;
        }
        i += 1;
    }
    assert(a@ =~= b@);
    true
}

} // verus!
