//! Verified text utilities shared by the resolver, the payload builder
//! and the log: suffix and substring tests, decimal rendering, and JSON
//! string escaping.

use vstd::prelude::*;
use vstd::string::*;

verus! {

/// Appends one character to a string.
///
/// Relies on `String::push`: the pushed character becomes the last one.
#[verifier::external_body]
pub fn push_char(s: &mut String, c: char)
    ensures
        final(s)@ == old(s)@ + seq![c],
{
    s.push(c);
}

/// Whether `suffix` is a suffix of `s`.
pub open spec fn spec_ends_with(s: Seq<char>, suffix: Seq<char>) -> bool {
    suffix.len() <= s.len() && s.subrange(s.len() - suffix.len(), s.len() as int)
        == suffix
}

/// Whether `needle` occurs in `s` starting at position `i`.
pub open spec fn spec_match_at(s: Seq<char>, needle: Seq<char>, i: int) -> bool {
    0 <= i && i + needle.len() <= s.len() && s.subrange(i, i + needle.len()) == needle
}

/// Whether `needle` occurs anywhere in `s`.
pub open spec fn spec_contains(s: Seq<char>, needle: Seq<char>) -> bool {
    exists|i: int| spec_match_at(s, needle, i)
}

/// Character-wise suffix test.
pub fn ends_with_str(s: &str, suffix: &str) -> (r: bool)
    ensures
        r == spec_ends_with(s@, suffix@),
{
    let n = s.unicode_len();
    let m = suffix.unicode_len();
    if m > n {
        return false;
    }
    let mut i: usize = 0;
    while i < m
        invariant
            i <= m,
            m <= n,
            n == s@.len(),
            m == suffix@.len(),
            forall|j: int| 0 <= j < i ==> s@[n - m + j] == suffix@[j],
        decreases m - i,
    {
        if s.get_char(n - m + i) != suffix.get_char(i) {
            assert(!spec_ends_with(s@, suffix@)) by {
                if spec_ends_with(s@, suffix@) {
                    assert(s@.subrange(n - m, n as int)[i as int] == suffix@[i as int]);
                }
            }
            return false;
        }
        i = i + 1;
    }
    assert(s@.subrange(n - m, n as int) =~= suffix@);
    true
}

/// Character-wise match of `needle` against `s` at position `at`.
fn matches_at(s: &str, needle: &str, at: usize) -> (r: bool)
    requires
        at + needle@.len() <= s@.len(),
        s@.len() <= usize::MAX,
    ensures
        r == spec_match_at(s@, needle@, at as int),
{
    let m = needle.unicode_len();
    let mut i: usize = 0;
    while i < m
        invariant
            i <= m,
            m == needle@.len(),
            at + m <= s@.len(),
            s@.len() <= usize::MAX,
            forall|j: int| 0 <= j < i ==> s@[at + j] == needle@[j],
        decreases m - i,
    {
        if s.get_char(at + i) != needle.get_char(i) {
            assert(!spec_match_at(s@, needle@, at as int)) by {
                if spec_match_at(s@, needle@, at as int) {
                    assert(s@.subrange(at as int, at + needle@.len())[i as int]
                        == needle@[i as int]);
                }
            }
            return false;
        }
        i = i + 1;
    }
    assert(s@.subrange(at as int, at + needle@.len()) =~= needle@);
    true
}

/// Naive substring search.
pub fn contains_str(s: &str, needle: &str) -> (r: bool)
    ensures
        r == spec_contains(s@, needle@),
{
    let n = s.unicode_len();
    let m = needle.unicode_len();
    if m > n {
        assert(forall|i: int| !spec_match_at(s@, needle@, i));
        return false;
    }
    if m == 0 {
        assert(s@.subrange(0, 0) =~= needle@);
        assert(spec_match_at(s@, needle@, 0));
        return true;
    }
    let mut at: usize = 0;
    while at <= n - m
        invariant
            0 < m <= n,
            n == s@.len(),
            m == needle@.len(),
            at <= n - m + 1,
            forall|j: int| 0 <= j < at ==> !spec_match_at(s@, needle@, j),
        decreases n - at,
    {
        if matches_at(s, needle, at) {
            assert(spec_contains(s@, needle@));
            return true;
        }
        at = at + 1;
    }
    assert(forall|i: int| !spec_match_at(s@, needle@, i)) by {
        assert(forall|i: int| i > n - m ==> !spec_match_at(s@, needle@, i));
    }
    false
}

/// The position of the first occurrence of `needle` in `s`, if any.
pub open spec fn spec_find(s: Seq<char>, needle: Seq<char>) -> Option<int>
    decreases s.len(),
{
    if spec_match_at(s, needle, 0) {
        Some(0int)
    } else if s.len() == 0 {
        None
    } else {
        match spec_find(s.drop_first(), needle) {
            Some(i) => Some(i + 1),
            None => None,
        }
    }
}

/// A match of `needle` one position into `s` is a match at the next
/// position of `s` itself, and the other way round.
proof fn lemma_match_shift(s: Seq<char>, needle: Seq<char>, j: int)
    requires
        s.len() > 0,
        j >= 0,
    ensures
        spec_match_at(s.drop_first(), needle, j) <==> spec_match_at(s, needle, j + 1),
{
    if spec_match_at(s.drop_first(), needle, j) {
        assert(s.subrange(j + 1, j + 1 + needle.len()) =~= s.drop_first().subrange(
            j,
            j + needle.len(),
        ));
    }
    if spec_match_at(s, needle, j + 1) {
        assert(s.drop_first().subrange(j, j + needle.len()) =~= s.subrange(
            j + 1,
            j + 1 + needle.len(),
        ));
    }
}

/// What [`spec_find`] yields: the match it names, earliest of all.
pub proof fn lemma_find_is_first(s: Seq<char>, needle: Seq<char>)
    ensures
        match spec_find(s, needle) {
            Some(i) => spec_match_at(s, needle, i) && forall|j: int|
                0 <= j < i ==> !spec_match_at(s, needle, j),
            None => forall|j: int| !spec_match_at(s, needle, j),
        },
    decreases s.len(),
{
    if spec_match_at(s, needle, 0) {
    } else if s.len() == 0 {
        assert forall|j: int| !spec_match_at(s, needle, j) by {
            if spec_match_at(s, needle, j) {
                assert(j == 0);
            }
        }
    } else {
        lemma_find_is_first(s.drop_first(), needle);
        match spec_find(s.drop_first(), needle) {
            Some(i) => {
                lemma_match_shift(s, needle, i);
                assert forall|j: int| 0 <= j < i + 1 implies !spec_match_at(s, needle, j) by {
                    if j >= 1 {
                        lemma_match_shift(s, needle, j - 1);
                    }
                }
            },
            None => {
                assert forall|j: int| !spec_match_at(s, needle, j) by {
                    if j >= 1 {
                        lemma_match_shift(s, needle, j - 1);
                    }
                }
            },
        }
    }
}

/// Position of the first occurrence of `needle` in `s`, by naive scan.
pub fn find_str(s: &str, needle: &str) -> (r: Option<usize>)
    ensures
        match r {
            Some(i) => spec_find(s@, needle@) == Some(i as int),
            None => spec_find(s@, needle@) is None,
        },
{
    proof {
        lemma_find_is_first(s@, needle@);
    }
    let n = s.unicode_len();
    let m = needle.unicode_len();
    if m == 0 {
        assert(s@.subrange(0, 0) =~= needle@);
        assert(spec_match_at(s@, needle@, 0));
        return Some(0);
    }
    if m > n {
        assert(forall|i: int| !spec_match_at(s@, needle@, i));
        return None;
    }
    let mut at: usize = 0;
    while at <= n - m
        invariant
            0 < m <= n,
            n == s@.len(),
            m == needle@.len(),
            at <= n - m + 1,
            forall|j: int| 0 <= j < at ==> !spec_match_at(s@, needle@, j),
            match spec_find(s@, needle@) {
                Some(i) => spec_match_at(s@, needle@, i) && forall|j: int|
                    0 <= j < i ==> !spec_match_at(s@, needle@, j),
                None => forall|j: int| !spec_match_at(s@, needle@, j),
            },
        decreases n - at,
    {
        if matches_at(s, needle, at) {
            proof {
                if spec_find(s@, needle@) is None {
                    assert(false);
                }
                let i = spec_find(s@, needle@)->Some_0;
                assert(!(i < at) && !(at < i));
            }
            return Some(at);
        }
        at = at + 1;
    }
    assert(forall|i: int| !spec_match_at(s@, needle@, i)) by {
        assert(forall|i: int| i > n - m ==> !spec_match_at(s@, needle@, i));
    }
    None
}

/// The decimal digit character for `d`, which must be below ten.
pub open spec fn spec_digit(d: u64) -> char {
    if d == 0 {
        '0'
    } else if d == 1 {
        '1'
    } else if d == 2 {
        '2'
    } else if d == 3 {
        '3'
    } else if d == 4 {
        '4'
    } else if d == 5 {
        '5'
    } else if d == 6 {
        '6'
    } else if d == 7 {
        '7'
    } else if d == 8 {
        '8'
    } else {
        '9'
    }
}

pub fn digit_char(d: u64) -> (c: char)
    requires
        d < 10,
    ensures
        c == spec_digit(d),
{
    if d == 0 {
        '0'
    } else if d == 1 {
        '1'
    } else if d == 2 {
        '2'
    } else if d == 3 {
        '3'
    } else if d == 4 {
        '4'
    } else if d == 5 {
        '5'
    } else if d == 6 {
        '6'
    } else if d == 7 {
        '7'
    } else if d == 8 {
        '8'
    } else {
        '9'
    }
}

/// The usual decimal rendering of `n`, without a sign and without
/// leading zeros (a lone zero for zero itself).
pub open spec fn spec_u64_string(n: u64) -> Seq<char>
    decreases n,
{
    if n < 10 {
        seq![spec_digit(n)]
    } else {
        spec_u64_string(n / 10).push(spec_digit(n % 10))
    }
}

/// Renders `n` in decimal.
pub fn u64_to_string(n: u64) -> (r: String)
    ensures
        r@ == spec_u64_string(n),
    decreases n,
{
    if n < 10 {
        let mut s = String::new();
        push_char(&mut s, digit_char(n));
        assert(s@ =~= spec_u64_string(n));
        s
    } else {
        proof {
            assert(n / 10 < n) by (nonlinear_arith)
                requires
                    n >= 10,
            ;
        }
        let mut s = u64_to_string(n / 10);
        push_char(&mut s, digit_char(n % 10));
        assert(s@ =~= spec_u64_string(n));
        s
    }
}

/// The hexadecimal digit character for `d`, which must be below sixteen.
pub open spec fn spec_hex_digit(d: u64) -> char {
    if d < 10 {
        spec_digit(d)
    } else if d == 10 {
        'a'
    } else if d == 11 {
        'b'
    } else if d == 12 {
        'c'
    } else if d == 13 {
        'd'
    } else if d == 14 {
        'e'
    } else {
        'f'
    }
}

fn hex_digit_char(d: u64) -> (c: char)
    requires
        d < 16,
    ensures
        c == spec_hex_digit(d),
{
    if d < 10 {
        digit_char(d)
    } else if d == 10 {
        'a'
    } else if d == 11 {
        'b'
    } else if d == 12 {
        'c'
    } else if d == 13 {
        'd'
    } else if d == 14 {
        'e'
    } else {
        'f'
    }
}

/// How one character appears inside a JSON string literal: quotes and
/// backslashes are escaped, the common control characters get their
/// short escapes, the rest of the control range is written as a
/// `\u00XX` sequence, and every other character stands as itself.
pub open spec fn spec_escaped_char(c: char) -> Seq<char> {
    if c == '"' {
        seq!['\\', '"']
    } else if c == '\\' {
        seq!['\\', '\\']
    } else if c == '\n' {
        seq!['\\', 'n']
    } else if c == '\r' {
        seq!['\\', 'r']
    } else if c == '\t' {
        seq!['\\', 't']
    } else if (c as u32) < 32 {
        seq!['\\', 'u', '0', '0', spec_hex_digit(((c as u32) / 16) as u64), spec_hex_digit(
            ((c as u32) % 16) as u64,
        )]
    } else {
        seq![c]
    }
}

/// The body of a JSON string literal holding the text `s`.
pub open spec fn spec_json_escape(s: Seq<char>) -> Seq<char>
    decreases s.len(),
{
    if s.len() == 0 {
        Seq::empty()
    } else {
        spec_escaped_char(s[0]) + spec_json_escape(s.drop_first())
    }
}

/// Appends the escaped form of `c` to `out`.
fn push_escaped(out: &mut String, c: char)
    ensures
        final(out)@ == old(out)@ + spec_escaped_char(c),
{
    if c == '"' {
        push_char(out, '\\');
        push_char(out, '"');
    } else if c == '\\' {
        push_char(out, '\\');
        push_char(out, '\\');
    } else if c == '\n' {
        push_char(out, '\\');
        push_char(out, 'n');
    } else if c == '\r' {
        push_char(out, '\\');
        push_char(out, 'r');
    } else if c == '\t' {
        push_char(out, '\\');
        push_char(out, 't');
    } else if (c as u32) < 32 {
        let code = c as u32;
        push_char(out, '\\');
        push_char(out, 'u');
        push_char(out, '0');
        push_char(out, '0');
        push_char(out, hex_digit_char((code / 16) as u64));
        push_char(out, hex_digit_char((code % 16) as u64));
    } else {
        push_char(out, c);
    }
    assert(final(out)@ =~= old(out)@ + spec_escaped_char(c));
}

/// Appends the JSON-escaped form of `s` to `out`.
pub fn append_json_escaped(out: &mut String, s: &str)
    ensures
        final(out)@ == old(out)@ + spec_json_escape(s@),
{
    let n = s.unicode_len();
    let mut i: usize = 0;
    assert(s@.skip(0) =~= s@);
    while i < n
        invariant
            i <= n,
            n == s@.len(),
            out@ + spec_json_escape(s@.skip(i as int)) == old(out)@ + spec_json_escape(s@),
        decreases n - i,
    {
        let c = s.get_char(i);
        proof {
            assert(s@.skip(i as int)[0] == s@[i as int]);
            assert(s@.skip(i as int).drop_first() =~= s@.skip(i + 1));
        }
        push_escaped(out, c);
        i = i + 1;
    }
    proof {
        assert(s@.skip(n as int) =~= Seq::<char>::empty());
    }
}

/// The JSON string literal (with its surrounding quotes) holding `s`.
pub open spec fn spec_json_string(s: Seq<char>) -> Seq<char> {
    seq!['"'] + spec_json_escape(s) + seq!['"']
}

/// Appends the JSON string literal holding `s`, quotes included.
pub fn append_json_string(out: &mut String, s: &str)
    ensures
        final(out)@ == old(out)@ + spec_json_string(s@),
{
    push_char(out, '"');
    append_json_escaped(out, s);
    push_char(out, '"');
    assert(final(out)@ =~= old(out)@ + spec_json_string(s@));
}

} // verus!
