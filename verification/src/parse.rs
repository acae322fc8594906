//! Parsing of environment values: unsigned decimal integers and boolean flags.

use vstd::prelude::*;
use vstd::string::*;

verus! {

/// Whether `c` is one of the ASCII digits `0`..`9`.
pub open spec fn is_ascii_digit(c: char) -> bool {
    '0' <= c && c <= '9'
}

/// The numeric value of an ASCII digit.
pub open spec fn digit_value(c: char) -> int {
    c as int - '0' as int
}

/// Whether every character of `s` is an ASCII digit.
pub open spec fn all_ascii_digits(s: Seq<char>) -> bool {
    forall|i: int| 0 <= i < s.len() ==> is_ascii_digit(#[trigger] s[i])
}

/// The value of the decimal numeral `s` (most significant digit first).
pub open spec fn decimal_value(s: Seq<char>) -> nat
    decreases s.len(),
{
    if s.len() == 0 {
        0
    } else {
        (decimal_value(s.drop_last()) * 10 + digit_value(s.last())) as nat
    }
}

/// The digits of an unsigned integer literal: `s` without one leading `+`.
pub open spec fn unsigned_digits(s: Seq<char>) -> Seq<char> {
    if s.len() > 0 && s[0] == '+' {
        s.drop_first()
    } else {
        s
    }
}

/// What `str::parse` gives for an unsigned integer type whose largest value is
/// `max`: an optional `+`, then at least one ASCII digit, and a value that fits.
pub open spec fn parse_unsigned(s: Seq<char>, max: nat) -> Option<nat> {
    let d = unsigned_digits(s);
    if d.len() > 0 && all_ascii_digits(d) && decimal_value(d) <= max {
        Some(decimal_value(d))
    } else {
        None
    }
}

/// A numeral is worth at least as much as any of its prefixes.
pub proof fn lemma_prefix_value_le(s: Seq<char>, k: int)
    requires
        all_ascii_digits(s),
        0 <= k <= s.len(),
    ensures
        decimal_value(s.take(k)) <= decimal_value(s),
    decreases s.len(),
{
    if k < s.len() {
        assert(s.drop_last().take(k) =~= s.take(k));
        assert(is_ascii_digit(s[s.len() - 1]));
        lemma_prefix_value_le(s.drop_last(), k);
    } else {
        assert(s.take(k) =~= s);
    }
}

/// Parses `s` as a `u64` with the grammar of `str::parse::<u64>`.
pub fn parse_u64(s: &str) -> (r: Option<u64>)
    ensures
        match r {
            Some(v) => parse_unsigned(s@, u64::MAX as nat) == Some(v as nat),
            None => parse_unsigned(s@, u64::MAX as nat) is None,
        },
{
    let n = s.unicode_len();
    let mut i: usize = 0;
    if n > 0 && s.get_char(0) == '+' {
        i = 1;
    }
    let start = i;
    let ghost d = unsigned_digits(s@);
    assert(d =~= s@.subrange(start as int, n as int));
    if start == n {
        return None;
    }
    let mut acc: u64 = 0;
    assert(s@.subrange(start as int, start as int) =~= Seq::<char>::empty());
    while i < n
        invariant
            n == s@.len(),
            start <= i <= n,
            start < n,
            d == s@.subrange(start as int, n as int),
            d == unsigned_digits(s@),
            all_ascii_digits(s@.subrange(start as int, i as int)),
            acc as nat == decimal_value(s@.subrange(start as int, i as int)),
        decreases n - i,
    {
        let c = s.get_char(i);
        if !('0' <= c && c <= '9') {
            assert(d[i - start] == c);
            assert(!all_ascii_digits(d));
            return None;
        }
        let ghost next = s@.subrange(start as int, i + 1);
        assert(next.drop_last() =~= s@.subrange(start as int, i as int));
        assert(next =~= d.take(i + 1 - start));
        assert(all_ascii_digits(next)) by {
            assert forall|j: int| 0 <= j < next.len() implies is_ascii_digit(#[trigger] next[j]) by {
                if j < next.len() - 1 {
                    assert(next[j] == s@.subrange(start as int, i as int)[j]);
                }
            }
        }
        let dig: u64 = ((c as u32) - ('0' as u32)) as u64;
        assert(dig as int == digit_value(c));
        assert(decimal_value(next) == acc * 10 + dig);
        match acc.checked_mul(10) {
            None => {
                proof {
                    if all_ascii_digits(d) {
                        lemma_prefix_value_le(d, i + 1 - start);
                        assert(decimal_value(d) > u64::MAX);
                    }
                }
                return None;
            },
            Some(m) => match m.checked_add(dig) {
                None => {
                    proof {
                        if all_ascii_digits(d) {
                            lemma_prefix_value_le(d, i + 1 - start);
                        }
                    }
                    return None;
                },
                Some(v) => {
                    acc = v;
                },
            },
        }
        i = i + 1;
    }
    assert(s@.subrange(start as int, n as int) == d);
    Some(acc)
}

/// Parses `s` as a `u32` with the grammar of `str::parse::<u32>`.
pub fn parse_u32(s: &str) -> (r: Option<u32>)
    ensures
        match r {
            Some(v) => parse_unsigned(s@, u32::MAX as nat) == Some(v as nat),
            None => parse_unsigned(s@, u32::MAX as nat) is None,
        },
{
    match parse_u64(s) {
        Some(v) => {
            if v <= u32::MAX as u64 {
                Some(v as u32)
            } else {
                None
            }
        },
        None => None,
    }
}

/// `c` with an ASCII upper-case letter mapped to its lower-case form.
pub open spec fn ascii_lowercase(c: char) -> char {
    if 'A' <= c && c <= 'Z' {
        ((c as int) + 32) as char
    } else {
        c
    }
}

/// `s` with every ASCII upper-case letter mapped to lower case.
pub open spec fn ascii_lowercase_chars(s: Seq<char>) -> Seq<char> {
    s.map_values(|c: char| ascii_lowercase(c))
}

/// The boolean a flag value stands for: `true`, `1` or `yes` for `true`,
/// `false`, `0` or `no` for `false`, ignoring ASCII case; nothing otherwise.
pub open spec fn flag_value(s: Seq<char>) -> Option<bool> {
    let l = ascii_lowercase_chars(s);
    if l == seq!['t', 'r', 'u', 'e'] || l == seq!['1'] || l == seq!['y', 'e', 's'] {
        Some(true)
    } else if l == seq!['f', 'a', 'l', 's', 'e'] || l == seq!['0'] || l == seq!['n', 'o'] {
        Some(false)
    } else {
        None
    }
}

/// Lowering an already lowered letter changes nothing.
pub proof fn lemma_ascii_lowercase_idempotent(c: char)
    ensures
        ascii_lowercase(ascii_lowercase(c)) == ascii_lowercase(c),
{
    if 'A' <= c && c <= 'Z' {
        let l = ((c as int) + 32) as char;
        assert(l as int == c as int + 32);
    }
}

/// A flag reads the same whatever the ASCII case of its letters.
pub proof fn flag_ignores_ascii_case(s: Seq<char>)
    ensures
        flag_value(ascii_lowercase_chars(s)) == flag_value(s),
{
    let l = ascii_lowercase_chars(s);
    assert forall|i: int| 0 <= i < l.len() implies #[trigger] ascii_lowercase_chars(l)[i] == l[i] by {
        lemma_ascii_lowercase_idempotent(s[i]);
    }
    assert(ascii_lowercase_chars(l) =~= l);
}

/// `str::to_ascii_lowercase`: a copy of `s` with ASCII letters in lower case.
#[verifier::external_body]
fn to_ascii_lowercase(s: &str) -> (r: String)
    ensures
        r@ == ascii_lowercase_chars(s@),
{
    s.to_ascii_lowercase()
}

/// Reads a boolean flag (`true`/`1`/`yes`, `false`/`0`/`no`, in any ASCII case).
pub fn parse_flag(s: &str) -> (r: Option<bool>)
    ensures
        r == flag_value(s@),
{
    let lower = to_ascii_lowercase(s);
    proof {
        reveal_strlit("true");
        reveal_strlit("1");
        reveal_strlit("yes");
        reveal_strlit("false");
        reveal_strlit("0");
        reveal_strlit("no");
        assert("true"@ =~= seq!['t', 'r', 'u', 'e']);
        assert("1"@ =~= seq!['1']);
        assert("yes"@ =~= seq!['y', 'e', 's']);
        assert("false"@ =~= seq!['f', 'a', 'l', 's', 'e']);
        assert("0"@ =~= seq!['0']);
        assert("no"@ =~= seq!['n', 'o']);
    }
    if lower == "true".to_owned() || lower == "1".to_owned() || lower == "yes".to_owned() {
        Some(true)
    } else if lower == "false".to_owned() || lower == "0".to_owned() || lower == "no".to_owned() {
        Some(false)
    } else {
        None
    }
}

} // verus!
