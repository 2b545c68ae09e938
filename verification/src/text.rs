//! Decimal numerals: writing a count as text and reading one back.

use vstd::prelude::*;
use vstd::string::*;

verus! {

/// Assumed of std's `String::push`: it appends the given character and
/// changes nothing else.
pub assume_specification[ String::push ](s: &mut String, ch: char)
    ensures
        final(s)@ == old(s)@.push(ch),
;

/// The ten decimal digits in order.
pub open spec fn digits() -> Seq<char> {
    seq!['0', '1', '2', '3', '4', '5', '6', '7', '8', '9']
}

/// The character that writes the digit `d`.
pub open spec fn digit_char(d: nat) -> char
    recommends
        d < 10,
{
    digits()[d as int]
}

/// Whether `c` is one of the ten decimal digits.
pub open spec fn is_digit(c: char) -> bool {
    '0' <= c <= '9'
}

/// The number that the digit `c` stands for.
pub open spec fn digit_value(c: char) -> nat
    recommends
        is_digit(c),
{
    (c as int - '0' as int) as nat
}

/// The decimal numeral of `n`, without sign or leading zeros.
pub open spec fn decimal_text(n: nat) -> Seq<char>
    decreases n,
{
    if n < 10 {
        seq![digit_char(n)]
    } else {
        decimal_text(n / 10).push(digit_char(n % 10))
    }
}

/// Whether every character of `s` is a decimal digit.
pub open spec fn all_digits(s: Seq<char>) -> bool {
    forall|i: int| 0 <= i < s.len() ==> is_digit(#[trigger] s[i])
}

/// The number that a sequence of digits writes, most significant digit first.
pub open spec fn decimal_value(s: Seq<char>) -> nat
    decreases s.len(),
{
    if s.len() == 0 {
        0
    } else {
        10 * decimal_value(s.drop_last()) + digit_value(s.last())
    }
}

/// The text without a leading plus sign.
pub open spec fn without_plus(s: Seq<char>) -> Seq<char> {
    if s.len() > 0 && s[0] == '+' {
        s.subrange(1, s.len() as int)
    } else {
        s
    }
}

/// The count that a text denotes: an optional plus sign, then one or more
/// digits whose value fits a `usize`. Any other text denotes none.
pub open spec fn parsed_count(s: Seq<char>) -> Option<usize> {
    let d = without_plus(s);
    if d.len() > 0 && all_digits(d) && decimal_value(d) <= usize::MAX {
        Some(decimal_value(d) as usize)
    } else {
        None
    }
}

fn digit(d: usize) -> (c: char)
    requires
        d < 10,
    ensures
        c == digit_char(d as nat),
{
    let b: u8 = '0' as u8 + d as u8;
    b as char
}

/// Writes `n` in decimal.
pub fn decimal_string(n: usize) -> (s: String)
    ensures
        s@ == decimal_text(n as nat),
    decreases n,
{
    if n < 10 {
        let mut s = String::new();
        s.push(digit(n));
        s
    } else {
        let mut s = decimal_string(n / 10);
        s.push(digit(n % 10));
        s
    }
}

/// A longer numeral is worth at least as much as each of its prefixes.
proof fn lemma_prefix_value(s: Seq<char>, k: int)
    requires
        0 <= k <= s.len(),
    ensures
        decimal_value(s.subrange(0, k)) <= decimal_value(s),
    decreases s.len() - k,
{
    if k == s.len() {
        assert(s.subrange(0, k) =~= s);
    } else {
        lemma_prefix_value(s, k + 1);
        let longer = s.subrange(0, k + 1);
        assert(longer.drop_last() =~= s.subrange(0, k));
    }
}

/// Reads a count from `text`: an optional plus sign followed by decimal
/// digits. Empty text, a sign alone, any other character, or a value beyond
/// `usize` gives `None`.
pub fn parse_count(text: &str) -> (r: Option<usize>)
    ensures
        r == parsed_count(text@),
{
    if !text.is_ascii() {
        proof {
            let s = text@;
            let i = choose|i: int| 0 <= i < s.len() && !('\0' <= #[trigger] s[i] <= '\u{7f}');
            let d = without_plus(s);
            if d.len() != s.len() {
                assert(d[i - 1] == s[i]);
            }
        }
        return None;
    }
    let len: usize = text.unicode_len();
    let start: usize = if len > 0 && text.get_ascii(0) == '+' as u8 {
        1
    } else {
        0
    };
    if start == len {
        return None;
    }
    let ghost d = text@.subrange(start as int, len as int);
    let mut value: usize = 0;
    let mut i: usize = start;
    while i < len
        invariant
            start <= i <= len,
            len == text@.len(),
            text.is_ascii(),
            d == without_plus(text@),
            d.len() == len - start,
            forall|j: int| 0 <= j < d.len() ==> d[j] == text@[start + j],
            all_digits(d.subrange(0, i - start)),
            value == decimal_value(d.subrange(0, i - start)),
        decreases len - i,
    {
        let b: u8 = text.get_ascii(i);
        let ghost c = text@[i as int];
        assert(d[i - start] == c);
        if b < '0' as u8 || b > '9' as u8 {
            return None;
        }
        let v: usize = (b - '0' as u8) as usize;
        proof {
            let longer = d.subrange(0, i + 1 - start);
            assert(longer.drop_last() =~= d.subrange(0, i - start));
        }
        if value > usize::MAX / 10 || (value == usize::MAX / 10 && v > usize::MAX % 10) {
            proof {
                lemma_prefix_value(d, i + 1 - start);
            }
            return None;
        }
        value = value * 10 + v;
        i = i + 1;
    }
    proof {
        assert(d.subrange(0, len - start) =~= d);
    }
    Some(value)
}

} // verus!
