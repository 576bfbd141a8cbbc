//! Verified readers for the small textual formats the programs consume:
//! decimal integers (as `str::parse` accepts them) and whitespace trimming.

use vstd::prelude::*;

verus! {

/// Whether `c` is an ASCII decimal digit.
pub open spec fn is_digit(c: char) -> bool {
    '0' <= c && c <= '9'
}

/// The value of a digit character.
pub open spec fn digit_value(c: char) -> int {
    (c as int) - ('0' as int)
}

/// The value of a run of decimal digits, most significant first.
pub open spec fn digits_value(s: Seq<char>) -> int
    decreases s.len(),
{
    if s.len() == 0 {
        0
    } else {
        digits_value(s.drop_last()) * 10 + digit_value(s.last())
    }
}

/// Whether `s` is a non-empty run of decimal digits.
pub open spec fn all_digits(s: Seq<char>) -> bool {
    s.len() > 0 && forall|i: int| 0 <= i < s.len() ==> is_digit(#[trigger] s[i])
}

/// The value of an unsigned decimal literal: an optional `+` followed by one
/// or more digits, and nothing else.
pub open spec fn unsigned_literal(s: Seq<char>) -> Option<int> {
    let body = if s.len() > 0 && s[0] == '+' { s.drop_first() } else { s };
    if all_digits(body) {
        Some(digits_value(body))
    } else {
        None
    }
}

/// The value of a signed decimal literal: an optional `+` or `-` followed by
/// one or more digits, and nothing else.
pub open spec fn signed_literal(s: Seq<char>) -> Option<int> {
    if s.len() > 0 && s[0] == '-' {
        if all_digits(s.drop_first()) {
            Some(-digits_value(s.drop_first()))
        } else {
            None
        }
    } else {
        unsigned_literal(s)
    }
}

/// What `text.parse::<u32>()` yields: the literal's value when it is an
/// unsigned decimal literal that fits in a `u32`.
pub open spec fn parsed_u32(text: Seq<char>) -> Option<u32> {
    match unsigned_literal(text) {
        Some(v) => if v <= u32::MAX { Some(v as u32) } else { None },
        None => None,
    }
}

/// What `text.parse::<i32>()` yields: the literal's value when it is a signed
/// decimal literal that fits in an `i32`.
pub open spec fn parsed_i32(text: Seq<char>) -> Option<i32> {
    match signed_literal(text) {
        Some(v) => if i32::MIN <= v <= i32::MAX { Some(v as i32) } else { None },
        None => None,
    }
}

proof fn digits_value_nonneg(s: Seq<char>)
    requires
        forall|i: int| 0 <= i < s.len() ==> is_digit(#[trigger] s[i]),
    ensures
        digits_value(s) >= 0,
    decreases s.len(),
{
    if s.len() > 0 {
        digits_value_nonneg(s.drop_last());
    }
}

/// Reads the digit run `text[start..]` as a number, or `None` when it is
/// empty, holds a non-digit, or exceeds `limit`.
fn read_digits(text: &str, start: usize, limit: u64) -> (res: Option<u64>)
    requires
        start <= text@.len(),
        limit <= u32::MAX + 1,
    ensures
        ({
            let body = text@.skip(start as int);
            match res {
                Some(v) => all_digits(body) && v == digits_value(body) && v <= limit,
                None => !all_digits(body) || digits_value(body) > limit,
            }
        }),
{
    let len = text.unicode_len();
    if start >= len {
        assert(text@.skip(start as int).len() == 0);
        return None;
    }
    let ghost body = text@.skip(start as int);
    let mut value: u64 = 0;
    let mut i: usize = start;
    while i < len
        invariant
            start <= i <= len,
            len == text@.len(),
            body == text@.skip(start as int),
            forall|j: int| 0 <= j < i - start ==> is_digit(#[trigger] body[j]),
            value == digits_value(body.take(i - start)),
            value <= limit,
            limit <= u32::MAX + 1,
        decreases len - i,
    {
        let c = text.get_char(i);
        assert(c == body[i - start]);
        if !('0' <= c && c <= '9') {
            assert(!is_digit(body[i - start]));
            return None;
        }
        let d: u64 = (c as u32 - '0' as u32) as u64;
        assert(body.take(i + 1 - start).drop_last() =~= body.take(i - start));
        let next: u64 = value * 10 + d;
        if next > limit {
            proof {
                let rest = body.take(i + 1 - start);
                assert(digits_value(rest) == next);
                assert forall|j: int| 0 <= j < rest.len() implies is_digit(#[trigger] rest[j]) by {
                    assert(rest[j] == body[j]);
                }
                if all_digits(body) {
                    lemma_prefix_bound(body, i + 1 - start);
                }
            }
            return None;
        }
        value = next;
        i = i + 1;
    }
    assert(body.take(i - start) =~= body);
    Some(value)
}

/// The value of a digit run is at least the value of any of its prefixes.
proof fn lemma_prefix_bound(s: Seq<char>, k: int)
    requires
        0 <= k <= s.len(),
        forall|i: int| 0 <= i < s.len() ==> is_digit(#[trigger] s[i]),
    ensures
        digits_value(s) >= digits_value(s.take(k)),
    decreases s.len(),
{
    if k < s.len() {
        assert(s.drop_last().take(k) =~= s.take(k));
        assert forall|i: int| 0 <= i < s.drop_last().len() implies is_digit(#[trigger] s.drop_last()[i]) by {
            assert(s.drop_last()[i] == s[i]);
        }
        lemma_prefix_bound(s.drop_last(), k);
        digits_value_nonneg(s.drop_last());
    } else {
        assert(s.take(k) =~= s);
    }
}

/// Parses an unsigned decimal number as `text.parse::<u32>().ok()` does.
pub fn parse_u32(text: &str) -> (res: Option<u32>)
    ensures
        res == parsed_u32(text@),
{
    let len = text.unicode_len();
    let start: usize = if len > 0 && text.get_char(0) == '+' { 1 } else { 0 };
    assert(start == 1 ==> text@.drop_first() =~= text@.skip(1));
    assert(start == 0 ==> text@ =~= text@.skip(0));
    match read_digits(text, start, u32::MAX as u64) {
        Some(v) => Some(v as u32),
        None => None,
    }
}

/// Parses a signed decimal number as `text.parse::<i32>().ok()` does.
pub fn parse_i32(text: &str) -> (res: Option<i32>)
    ensures
        res == parsed_i32(text@),
{
    let len = text.unicode_len();
    if len > 0 && text.get_char(0) == '-' {
        assert(text@.drop_first() =~= text@.skip(1));
        match read_digits(text, 1, 0x8000_0000) {
            Some(v) => {
                let magnitude: i64 = v as i64;
                Some((0 - magnitude) as i32)
            },
            None => None,
        }
    } else {
        let start: usize = if len > 0 && text.get_char(0) == '+' { 1 } else { 0 };
        assert(start == 1 ==> text@.drop_first() =~= text@.skip(1));
        assert(start == 0 ==> text@ =~= text@.skip(0));
        match read_digits(text, start, 0x7fff_ffff) {
            Some(v) => Some(v as i32),
            None => None,
        }
    }
}

/// Whether `c` has the Unicode `White_Space` property, the whitespace that
/// `str::trim` removes.
pub open spec fn is_white_space(c: char) -> bool {
    ||| '\u{9}' <= c && c <= '\u{d}'
    ||| c == ' '
    ||| c == '\u{85}'
    ||| c == '\u{a0}'
    ||| c == '\u{1680}'
    ||| '\u{2000}' <= c && c <= '\u{200a}'
    ||| c == '\u{2028}'
    ||| c == '\u{2029}'
    ||| c == '\u{202f}'
    ||| c == '\u{205f}'
    ||| c == '\u{3000}'
}

/// `s` without its leading whitespace.
pub open spec fn trim_start(s: Seq<char>) -> Seq<char>
    decreases s.len(),
{
    if s.len() > 0 && is_white_space(s[0]) {
        trim_start(s.drop_first())
    } else {
        s
    }
}

/// `s` without its trailing whitespace.
pub open spec fn trim_end(s: Seq<char>) -> Seq<char>
    decreases s.len(),
{
    if s.len() > 0 && is_white_space(s.last()) {
        trim_end(s.drop_last())
    } else {
        s
    }
}

/// `s` without leading and trailing whitespace, as `str::trim` gives it.
pub open spec fn trimmed(s: Seq<char>) -> Seq<char> {
    trim_end(trim_start(s))
}

fn is_white_space_char(c: char) -> (res: bool)
    ensures
        res == is_white_space(c),
{
    ('\u{9}' <= c && c <= '\u{d}') || c == ' ' || c == '\u{85}' || c == '\u{a0}'
        || c == '\u{1680}' || ('\u{2000}' <= c && c <= '\u{200a}') || c == '\u{2028}'
        || c == '\u{2029}' || c == '\u{202f}' || c == '\u{205f}' || c == '\u{3000}'
}

/// Removes leading and trailing whitespace, as `str::trim` does.
pub fn trim(text: &str) -> (res: &str)
    ensures
        res@ == trimmed(text@),
{
    let len = text.unicode_len();
    let mut start: usize = 0;
    assert(text@.skip(0) =~= text@);
    while start < len && is_white_space_char(text.get_char(start))
        invariant
            start <= len,
            len == text@.len(),
            trim_start(text@) == trim_start(text@.skip(start as int)),
        decreases len - start,
    {
        assert(text@.skip(start as int).drop_first() =~= text@.skip(start + 1));
        start = start + 1;
    }
    let mut end: usize = len;
    assert(text@.skip(start as int) =~= text@.subrange(start as int, len as int));
    assert(trim_start(text@.skip(start as int)) == text@.skip(start as int));
    while end > start && is_white_space_char(text.get_char(end - 1))
        invariant
            start <= end <= len,
            len == text@.len(),
            trim_end(trim_start(text@)) == trim_end(text@.subrange(start as int, end as int)),
        decreases end - start,
    {
        assert(text@.subrange(start as int, end as int).drop_last()
            =~= text@.subrange(start as int, end - 1));
        end = end - 1;
    }
    assert(trim_end(text@.subrange(start as int, end as int)) == text@.subrange(start as int, end as int));
    text.substring_char(start, end)
}

/// The virtual-terminal number named by the contents of the kernel's
/// active-console file (such as `"tty2\n"`): the trimmed text must be `tty`
/// followed by a `u32`.
pub open spec fn console_number(contents: Seq<char>) -> Option<u32> {
    let t = trimmed(contents);
    if t.len() >= 3 && t.take(3) == "tty"@ {
        parsed_u32(t.skip(3))
    } else {
        None
    }
}

/// Reads a VT number from active-console text such as `"tty2\n"`.
pub fn parse_console_number(contents: &str) -> (res: Option<u32>)
    ensures
        res == console_number(contents@),
{
    let t = trim(contents);
    let len = t.unicode_len();
    if len < 3 {
        return None;
    }
    let head = t.substring_char(0, 3);
    if !crate::text::str_eq(head, "tty") {
        assert(head@ =~= t@.take(3));
        return None;
    }
    assert(head@ =~= t@.take(3));
    let rest = t.substring_char(3, len);
    assert(rest@ =~= t@.skip(3));
    parse_u32(rest)
}

} // verus!
