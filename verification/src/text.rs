//! Text primitives on environment values: Unicode whitespace trimming.

use vstd::prelude::*;
use vstd::string::*;

verus! {

/// The Unicode `White_Space` property, as `char::is_whitespace` documents it.
pub open spec fn is_unicode_whitespace(c: char) -> bool {
    ||| ('\u{9}' <= c && c <= '\u{d}')
    ||| c == ' '
    ||| c == '\u{85}'
    ||| c == '\u{a0}'
    ||| c == '\u{1680}'
    ||| ('\u{2000}' <= c && c <= '\u{200a}')
    ||| c == '\u{2028}'
    ||| c == '\u{2029}'
    ||| c == '\u{202f}'
    ||| c == '\u{205f}'
    ||| c == '\u{3000}'
}

/// `s` without its leading whitespace.
pub open spec fn trim_start_chars(s: Seq<char>) -> Seq<char>
    decreases s.len(),
{
    if s.len() > 0 && is_unicode_whitespace(s[0]) {
        trim_start_chars(s.drop_first())
    } else {
        s
    }
}

/// `s` without its trailing whitespace.
pub open spec fn trim_end_chars(s: Seq<char>) -> Seq<char>
    decreases s.len(),
{
    if s.len() > 0 && is_unicode_whitespace(s.last()) {
        trim_end_chars(s.drop_last())
    } else {
        s
    }
}

/// `s` without its leading and trailing whitespace.
pub open spec fn trim_chars(s: Seq<char>) -> Seq<char> {
    trim_end_chars(trim_start_chars(s))
}

/// What trimming the start leaves does not begin with whitespace, and is a
/// suffix of what it trimmed.
pub proof fn lemma_trim_start_shape(s: Seq<char>)
    ensures
        trim_start_chars(s).len() == 0 || !is_unicode_whitespace(trim_start_chars(s)[0]),
        trim_start_chars(s).len() <= s.len(),
        trim_start_chars(s) == s.subrange(s.len() - trim_start_chars(s).len(), s.len() as int),
        forall|k: int|
            0 <= k < s.len() - trim_start_chars(s).len() ==> is_unicode_whitespace(#[trigger] s[k]),
    decreases s.len(),
{
    if s.len() > 0 && is_unicode_whitespace(s[0]) {
        lemma_trim_start_shape(s.drop_first());
        let t = trim_start_chars(s.drop_first());
        assert(s.drop_first().subrange(s.len() - 1 - t.len(), s.len() - 1) =~= s.subrange(
            s.len() - t.len(),
            s.len() as int,
        ));
        assert forall|k: int| 0 <= k < s.len() - t.len() implies is_unicode_whitespace(
            #[trigger] s[k],
        ) by {
            if k > 0 {
                assert(s[k] == s.drop_first()[k - 1]);
            }
        }
    } else {
        assert(s.subrange(0, s.len() as int) =~= s);
    }
}

/// What trimming the end leaves does not end with whitespace, and is a
/// prefix of what it trimmed.
pub proof fn lemma_trim_end_shape(s: Seq<char>)
    ensures
        trim_end_chars(s).len() == 0 || !is_unicode_whitespace(trim_end_chars(s).last()),
        trim_end_chars(s).len() <= s.len(),
        trim_end_chars(s) == s.take(trim_end_chars(s).len() as int),
        forall|k: int|
            trim_end_chars(s).len() <= k < s.len() ==> is_unicode_whitespace(#[trigger] s[k]),
    decreases s.len(),
{
    if s.len() > 0 && is_unicode_whitespace(s.last()) {
        lemma_trim_end_shape(s.drop_last());
        let t = trim_end_chars(s.drop_last());
        assert(s.drop_last().take(t.len() as int) =~= s.take(t.len() as int));
        assert forall|k: int| t.len() <= k < s.len() implies is_unicode_whitespace(
            #[trigger] s[k],
        ) by {
            if k < s.len() - 1 {
                assert(s[k] == s.drop_last()[k]);
            }
        }
    } else {
        assert(s.take(s.len() as int) =~= s);
    }
}

/// Trimming what is already trimmed changes nothing.
pub proof fn lemma_trim_idempotent(s: Seq<char>)
    ensures
        trim_chars(trim_chars(s)) == trim_chars(s),
        trim_chars(s).len() == 0 || (!is_unicode_whitespace(trim_chars(s)[0])
            && !is_unicode_whitespace(trim_chars(s).last())),
{
    let u = trim_start_chars(s);
    let t = trim_end_chars(u);
    lemma_trim_start_shape(s);
    lemma_trim_end_shape(u);
    if t.len() > 0 {
        assert(t[0] == u[0]);
    }
    assert(trim_start_chars(t) == t);
    assert(trim_end_chars(t) == t);
}

/// A value made of whitespace alone trims to nothing.
pub proof fn lemma_trim_all_whitespace(s: Seq<char>)
    requires
        forall|i: int| 0 <= i < s.len() ==> is_unicode_whitespace(#[trigger] s[i]),
    ensures
        trim_start_chars(s).len() == 0,
        trim_chars(s).len() == 0,
    decreases s.len(),
{
    if s.len() > 0 {
        let d = s.drop_first();
        assert forall|i: int| 0 <= i < d.len() implies is_unicode_whitespace(#[trigger] d[i]) by {
            assert(d[i] == s[i + 1]);
        }
        lemma_trim_all_whitespace(d);
        assert(trim_start_chars(s) == trim_start_chars(d));
    }
    assert(trim_end_chars(Seq::<char>::empty()) == Seq::<char>::empty());
    assert(trim_start_chars(s) =~= Seq::<char>::empty());
}

/// `char::is_whitespace`: whether `c` has the Unicode `White_Space` property.
#[verifier::external_body]
fn char_is_whitespace(c: char) -> (r: bool)
    ensures
        r == is_unicode_whitespace(c),
{
    c.is_whitespace()
}

/// Returns `s` with leading and trailing Unicode whitespace removed.
pub fn trim_whitespace(s: &str) -> (r: &str)
    ensures
        r@ == trim_chars(s@),
{
    let n = s.unicode_len();
    let mut start: usize = 0;
    assert(s@.subrange(0, n as int) =~= s@);
    while start < n && char_is_whitespace(s.get_char(start))
        invariant
            n == s@.len(),
            start <= n,
            trim_start_chars(s@) == trim_start_chars(s@.subrange(start as int, n as int)),
        decreases n - start,
    {
        assert(s@.subrange(start as int, n as int).drop_first() =~= s@.subrange(start + 1, n as int));
        start = start + 1;
    }
    assert(trim_start_chars(s@) == s@.subrange(start as int, n as int));
    let mut end: usize = n;
    while end > start && char_is_whitespace(s.get_char(end - 1))
        invariant
            n == s@.len(),
            start <= end <= n,
            trim_chars(s@) == trim_end_chars(s@.subrange(start as int, end as int)),
        decreases end - start,
    {
        assert(s@.subrange(start as int, end as int).drop_last() =~= s@.subrange(start as int, end - 1));
        end = end - 1;
    }
    s.substring_char(start, end)
}

/// The value a variable contributes once trimmed: `None` when it holds
/// nothing but whitespace.
pub open spec fn nonblank(s: Seq<char>) -> Option<Seq<char>> {
    let t = trim_chars(s);
    if t.len() == 0 {
        None
    } else {
        Some(t)
    }
}

/// Trims `raw`, and returns `None` when nothing but whitespace was there.
pub fn nonblank_trimmed(raw: &str) -> (r: Option<String>)
    ensures
        r.deep_view() == nonblank(raw@),
{
    let t = trim_whitespace(raw);
    if t.is_empty() {
        None
    } else {
        Some(t.to_owned())
    }
}

} // verus!
