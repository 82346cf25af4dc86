//! Decoding of terminal text: integers, booleans, the form of doubles, and
//! the escape sequences of string literals.

use vstd::prelude::*;
use vstd::string::StrSliceExecFns;

verus! {

/// Whether `c` is one of the decimal digits `0` to `9`.
pub open spec fn is_digit(c: char) -> bool {
    '0' <= c <= '9'
}

/// The number a decimal digit stands for.
pub open spec fn digit_value(c: char) -> int {
    c as int - '0' as int
}

/// Whether every character of `s` is a decimal digit.
pub open spec fn all_digits(s: Seq<char>) -> bool {
    forall|i: int| 0 <= i < s.len() ==> is_digit(#[trigger] s[i])
}

/// The number that a string of decimal digits denotes, most significant
/// digit first; 0 for the empty string.
pub open spec fn decimal_value(s: Seq<char>) -> int
    decreases s.len(),
{
    if s.len() == 0 {
        0
    } else {
        decimal_value(s.drop_last()) * 10 + digit_value(s.last())
    }
}

/// The digits of an integer lexeme: what follows its optional sign.
pub open spec fn integer_digits(s: Seq<char>) -> Seq<char> {
    if s.len() > 0 && (s[0] == '-' || s[0] == '+') {
        s.skip(1)
    } else {
        s
    }
}

/// The value of an integer lexeme: an optional `+` or `-`, then one or more
/// decimal digits and nothing else, denoting a number that fits in 64 bits.
/// Any other text has no value.
pub open spec fn integer_value(s: Seq<char>) -> Option<int> {
    let digits = integer_digits(s);
    let magnitude = decimal_value(digits);
    let value = if s.len() > 0 && s[0] == '-' {
        -magnitude
    } else {
        magnitude
    };
    if digits.len() > 0 && all_digits(digits) && i64::MIN <= value <= i64::MAX {
        Some(value)
    } else {
        None
    }
}

/// The value of a digit string is not negative.
pub proof fn lemma_decimal_value_nonnegative(s: Seq<char>)
    requires
        all_digits(s),
    ensures
        decimal_value(s) >= 0,
    decreases s.len(),
{
    if s.len() > 0 {
        assert(is_digit(s[s.len() - 1]));
        let front = s.drop_last();
        assert forall|i: int| 0 <= i < front.len() implies is_digit(#[trigger] front[i]) by {
            assert(front[i] == s[i]);
        }
        lemma_decimal_value_nonnegative(s.drop_last());
    }
}

/// A digit string denotes at least as much as each of its prefixes.
pub proof fn lemma_decimal_value_prefix(s: Seq<char>, k: int)
    requires
        all_digits(s),
        0 <= k <= s.len(),
    ensures
        decimal_value(s.take(k)) <= decimal_value(s),
    decreases s.len(),
{
    if k == s.len() {
        assert(s.take(k) =~= s);
    } else {
        assert(is_digit(s[s.len() - 1]));
        let front = s.drop_last();
        assert forall|i: int| 0 <= i < front.len() implies is_digit(#[trigger] front[i]) by {
            assert(front[i] == s[i]);
        }
        lemma_decimal_value_prefix(s.drop_last(), k);
        lemma_decimal_value_nonnegative(s.drop_last());
        assert(s.drop_last().take(k) =~= s.take(k));
    }
}

/// Reads an integer lexeme as standard 64-bit integer parsing does.
pub fn parse_integer(text: &str) -> (r: Option<i64>)
    ensures
        match r {
            Some(v) => integer_value(text@) == Some(v as int),
            None => integer_value(text@) is None,
        },
{
    let n = text.unicode_len();
    if n == 0 {
        return None;
    }
    let first = text.get_char(0);
    let negative = first == '-';
    let start: usize = if first == '-' || first == '+' {
        1
    } else {
        0
    };
    let ghost digits = integer_digits(text@);
    assert(digits =~= text@.skip(start as int));
    if start == n {
        return None;
    }
    let limit: u64 = if negative {
        9223372036854775808
    } else {
        9223372036854775807
    };
    let mut acc: u64 = 0;
    let mut i: usize = start;
    assert(digits.take(0) =~= Seq::<char>::empty());
    while i < n
        invariant
            start <= i <= n,
            n == text@.len(),
            digits == text@.skip(start as int),
            digits == integer_digits(text@),
            negative == (text@[0] == '-'),
            limit == if negative { 9223372036854775808u64 } else { 9223372036854775807u64 },
            all_digits(digits.take(i - start)),
            acc == decimal_value(digits.take(i - start)),
            acc <= limit,
        decreases n - i,
    {
        let c = text.get_char(i);
        assert(c == digits[i - start]);
        if !(c >= '0' && c <= '9') {
            assert(!is_digit(digits[i - start]));
            return None;
        }
        let d: u64 = (c as u32 - 48) as u64;
        assert(d == digit_value(c) && d <= 9);
        let ghost next = digits.take(i - start + 1);
        assert(next.drop_last() =~= digits.take(i - start));
        assert(next.last() == c);
        assert forall|k: int| 0 <= k < next.len() implies is_digit(#[trigger] next[k]) by {
            if k < i - start {
                assert(next[k] == digits.take(i - start)[k]);
            }
        }
        if acc > (limit - d) / 10 {
            proof {
                assert(decimal_value(next) > limit);
                if all_digits(digits) {
                    lemma_decimal_value_prefix(digits, i - start + 1);
                }
            }
            return None;
        }
        acc = acc * 10 + d;
        i += 1;
    }
    assert(digits.take(i - start) =~= digits);
    if negative {
        if acc == 9223372036854775808 {
            Some(i64::MIN)
        } else {
            Some(-(acc as i64))
        }
    } else {
        Some(acc as i64)
    }
}

/// The truth value that a boolean lexeme denotes: `true` or `false`, written
/// exactly so.
pub open spec fn boolean_value(s: Seq<char>) -> Option<bool> {
    if s == seq!['t', 'r', 'u', 'e'] {
        Some(true)
    } else if s == seq!['f', 'a', 'l', 's', 'e'] {
        Some(false)
    } else {
        None
    }
}

/// Reads a boolean lexeme.
pub fn parse_boolean(text: &str) -> (r: Option<bool>)
    ensures
        r == boolean_value(text@),
{
    let n = text.unicode_len();
    if n == 4 {
        let (a, b, c, d) = (text.get_char(0), text.get_char(1), text.get_char(2), text.get_char(3));
        if a == 't' && b == 'r' && c == 'u' && d == 'e' {
            assert(text@ =~= seq!['t', 'r', 'u', 'e']);
            Some(true)
        } else {
            None
        }
    } else if n == 5 {
        let (a, b, c, d) = (text.get_char(0), text.get_char(1), text.get_char(2), text.get_char(3));
        if a == 'f' && b == 'a' && c == 'l' && d == 's' && text.get_char(4) == 'e' {
            assert(text@ =~= seq!['f', 'a', 'l', 's', 'e']);
            Some(false)
        } else {
            None
        }
    } else {
        None
    }
}

/// The number a hexadecimal digit stands for, in either case.
pub open spec fn hex_digit_value(c: char) -> Option<int> {
    if '0' <= c <= '9' {
        Some(c as int - '0' as int)
    } else if 'a' <= c <= 'f' {
        Some(c as int - 'a' as int + 10)
    } else if 'A' <= c <= 'F' {
        Some(c as int - 'A' as int + 10)
    } else {
        None
    }
}

/// Whether every character of `s` is a hexadecimal digit.
pub open spec fn all_hex_digits(s: Seq<char>) -> bool {
    forall|i: int| 0 <= i < s.len() ==> hex_digit_value(#[trigger] s[i]) is Some
}

/// The number that a string of hexadecimal digits denotes; 0 for the empty string.
pub open spec fn hex_value(s: Seq<char>) -> int
    decreases s.len(),
{
    if s.len() == 0 {
        0
    } else {
        hex_value(s.drop_last()) * 16 + match hex_digit_value(s.last()) {
            Some(d) => d,
            None => 0,
        }
    }
}

/// 16 to the power `n`.
pub open spec fn sixteen_to(n: nat) -> int
    decreases n,
{
    if n == 0 {
        1
    } else {
        16 * sixteen_to((n - 1) as nat)
    }
}

/// Whether `v` is a Unicode scalar value: a code point that is no surrogate.
pub open spec fn is_scalar_value(v: int) -> bool {
    0 <= v <= 0xD7FF || 0xE000 <= v <= 0x10FFFF
}

/// The character that an escape sequence stands for. The sequence is a
/// backslash followed by a quote or by one of the letters `b f n r t` in either
/// case, or a backslash, `u` in either case, and exactly four or exactly eight
/// hexadecimal digits that denote a Unicode scalar value. Any other text stands
/// for nothing.
pub open spec fn escape_value(s: Seq<char>) -> Option<char> {
    if s.len() == 2 && s[0] == '\\' {
        let c = s[1];
        if c == '\'' {
            Some('\'')
        } else if c == '"' {
            Some('"')
        } else if c == 'b' || c == 'B' {
            Some(8u8 as char)
        } else if c == 'f' || c == 'F' {
            Some(12u8 as char)
        } else if c == 'n' || c == 'N' {
            Some('\n')
        } else if c == 'r' || c == 'R' {
            Some('\r')
        } else if c == 't' || c == 'T' {
            Some('\t')
        } else {
            None
        }
    } else if (s.len() == 6 || s.len() == 10) && s[0] == '\\' && (s[1] == 'u' || s[1] == 'U') {
        let digits = s.skip(2);
        if all_hex_digits(digits) && is_scalar_value(hex_value(digits)) {
            Some(hex_value(digits) as char)
        } else {
            None
        }
    } else {
        None
    }
}

/// `char::from_u32` of the standard library: the character with the given
/// code, for a Unicode scalar value, and nothing for any other number.
#[verifier::external_body]
fn char_from_u32(v: u32) -> (r: Option<char>)
    ensures
        r == if is_scalar_value(v as int) {
            Some(v as char)
        } else {
            None::<char>
        },
{
    char::from_u32(v)
}

/// `String::from` of the standard library on a character: the string made of
/// that one character.
#[verifier::external_body]
fn string_from_char(c: char) -> (s: String)
    ensures
        s@ == seq![c],
{
    String::from(c)
}

/// Reads a hexadecimal digit.
pub fn parse_hex_digit(c: char) -> (r: Option<u32>)
    ensures
        match r {
            Some(d) => hex_digit_value(c) == Some(d as int) && d < 16,
            None => hex_digit_value(c) is None,
        },
{
    if c >= '0' && c <= '9' {
        Some(c as u32 - 48)
    } else if c >= 'a' && c <= 'f' {
        Some(c as u32 - 97 + 10)
    } else if c >= 'A' && c <= 'F' {
        Some(c as u32 - 65 + 10)
    } else {
        None
    }
}

/// Decodes an escape sequence to the one-character string it stands for.
pub fn decode_escape(text: &str) -> (r: Option<String>)
    ensures
        match r {
            Some(s) => escape_value(text@) == Some(s@[0]) && s@.len() == 1,
            None => escape_value(text@) is None,
        },
{
    let n = text.unicode_len();
    if n < 2 {
        return None;
    }
    if text.get_char(0) != '\\' {
        return None;
    }
    let c = text.get_char(1);
    if n == 2 {
        let decoded: char = if c == '\'' {
            '\''
        } else if c == '"' {
            '"'
        } else if c == 'b' || c == 'B' {
            8u8 as char
        } else if c == 'f' || c == 'F' {
            12u8 as char
        } else if c == 'n' || c == 'N' {
            '\n'
        } else if c == 'r' || c == 'R' {
            '\r'
        } else if c == 't' || c == 'T' {
            '\t'
        } else {
            return None;
        };
        return Some(string_from_char(decoded));
    }
    if !((n == 6 || n == 10) && (c == 'u' || c == 'U')) {
        return None;
    }
    let ghost digits = text@.skip(2);
    let mut acc: u64 = 0;
    let mut i: usize = 2;
    assert(digits.take(0) =~= Seq::<char>::empty());
    while i < n
        invariant
            2 <= i <= n <= 10,
            n == text@.len(),
            digits == text@.skip(2),
            all_hex_digits(digits.take(i - 2)),
            acc == hex_value(digits.take(i - 2)),
            0 <= acc < sixteen_to((i - 2) as nat),
        decreases n - i,
    {
        let h = text.get_char(i);
        assert(h == digits[i - 2]);
        let ghost next = digits.take(i - 2 + 1);
        assert(next.drop_last() =~= digits.take(i - 2));
        assert(next.last() == h);
        match parse_hex_digit(h) {
            None => {
                return None;
            },
            Some(d) => {
                assert forall|k: int| 0 <= k < next.len() implies hex_digit_value(
                    #[trigger] next[k],
                ) is Some by {
                    if k < i - 2 {
                        assert(next[k] == digits.take(i - 2)[k]);
                    }
                }
                proof {
                    reveal_with_fuel(sixteen_to, 10);
                }
                acc = acc * 16 + d as u64;
            },
        }
        i += 1;
    }
    assert(digits.take(i - 2) =~= digits);
    proof {
        reveal_with_fuel(sixteen_to, 10);
    }
    match char_from_u32(acc as u32) {
        Some(decoded) => Some(string_from_char(decoded)),
        None => None,
    }
}

/// The position at which the run of decimal digits that starts at `i` ends.
pub open spec fn digits_end(s: Seq<char>, i: int) -> int
    decreases s.len() - i,
{
    if 0 <= i < s.len() && is_digit(s[i]) {
        digits_end(s, i + 1)
    } else {
        i
    }
}

/// The lower-case form of an ASCII letter; any other character is unchanged.
pub open spec fn ascii_lower(c: char) -> char {
    if 'A' <= c <= 'Z' {
        ((c as u8 + 32) as u8) as char
    } else {
        c
    }
}

/// Whether `s` from position `from` to its end spells `word`, in either case.
pub open spec fn is_word(s: Seq<char>, from: int, word: Seq<char>) -> bool {
    s.len() - from == word.len() && forall|k: int|
        0 <= k < word.len() ==> ascii_lower(#[trigger] s[from + k]) == word[k]
}

/// Whether `s` from position `at` to its end is an exponent: `e` in either
/// case, an optional sign, and one or more digits.
pub open spec fn is_exponent(s: Seq<char>, at: int) -> bool {
    let digits = if at + 1 < s.len() && (s[at + 1] == '+' || s[at + 1] == '-') {
        at + 2
    } else {
        at + 1
    };
    0 <= at < s.len() && (s[at] == 'e' || s[at] == 'E') && digits < s.len() && digits_end(s, digits)
        == s.len()
}

/// Whether `s` from position `from` to its end is a decimal number: digits
/// with at most one point among them, at least one digit in all, and an
/// optional exponent.
pub open spec fn is_decimal_number(s: Seq<char>, from: int) -> bool {
    let point = digits_end(s, from);
    let has_point = point < s.len() && s[point] == '.';
    let end = if has_point {
        digits_end(s, point + 1)
    } else {
        point
    };
    let digits = if has_point {
        end - from - 1
    } else {
        end - from
    };
    digits > 0 && (end == s.len() || is_exponent(s, end))
}

/// Whether `s` has the form that standard floating-point parsing accepts: an
/// optional sign, then `inf`, `infinity` or `nan` in any case, or a decimal
/// number.
pub open spec fn is_float_lexeme(s: Seq<char>) -> bool {
    let from: int = if s.len() > 0 && (s[0] == '+' || s[0] == '-') {
        1
    } else {
        0
    };
    is_word(s, from, seq!['i', 'n', 'f']) || is_word(
        s,
        from,
        seq!['i', 'n', 'f', 'i', 'n', 'i', 't', 'y'],
    ) || is_word(s, from, seq!['n', 'a', 'n']) || is_decimal_number(s, from)
}

fn skip_digits(text: &str, n: usize, from: usize) -> (end: usize)
    requires
        n == text@.len(),
        from <= n,
    ensures
        end == digits_end(text@, from as int),
        from <= end <= n,
{
    let mut i: usize = from;
    while i < n
        invariant
            from <= i <= n,
            n == text@.len(),
            digits_end(text@, from as int) == digits_end(text@, i as int),
        decreases n - i,
    {
        let c = text.get_char(i);
        if !(c >= '0' && c <= '9') {
            return i;
        }
        i += 1;
    }
    i
}

fn to_ascii_lower(c: char) -> (r: char)
    ensures
        r == ascii_lower(c),
{
    if c >= 'A' && c <= 'Z' {
        (c as u8 + 32) as char
    } else {
        c
    }
}

fn spells(text: &str, n: usize, from: usize, word: &Vec<char>) -> (b: bool)
    requires
        n == text@.len(),
        from <= n,
    ensures
        b == is_word(text@, from as int, word@),
{
    if n - from != word.len() {
        return false;
    }
    let mut k: usize = 0;
    while k < word.len()
        invariant
            k <= word.len(),
            n == text@.len(),
            n - from == word.len(),
            forall|j: int| 0 <= j < k ==> ascii_lower(#[trigger] text@[from + j]) == word@[j],
        decreases word.len() - k,
    {
        if to_ascii_lower(text.get_char(from + k)) != word[k] {
            assert(ascii_lower(text@[from + k]) != word@[k as int]);
            return false;
        }
        k += 1;
    }
    true
}

/// Tells whether a text has the form that standard floating-point parsing
/// accepts.
pub fn matches_float_lexeme(text: &str) -> (b: bool)
    ensures
        b == is_float_lexeme(text@),
{
    let n = text.unicode_len();
    let from: usize = if n > 0 && (text.get_char(0) == '+' || text.get_char(0) == '-') {
        1
    } else {
        0
    };
    if spells(text, n, from, &vec!['i', 'n', 'f']) {
        return true;
    }
    if spells(text, n, from, &vec!['i', 'n', 'f', 'i', 'n', 'i', 't', 'y']) {
        return true;
    }
    if spells(text, n, from, &vec!['n', 'a', 'n']) {
        return true;
    }
    let point = skip_digits(text, n, from);
    let has_point = point < n && text.get_char(point) == '.';
    let end = if has_point {
        skip_digits(text, n, point + 1)
    } else {
        point
    };
    let digits = if has_point {
        end - from - 1
    } else {
        end - from
    };
    if digits == 0 {
        return false;
    }
    if end == n {
        return true;
    }
    let e = text.get_char(end);
    if !(e == 'e' || e == 'E') {
        return false;
    }
    let first = if end + 1 < n && (text.get_char(end + 1) == '+' || text.get_char(end + 1) == '-') {
        end + 2
    } else {
        end + 1
    };
    if first >= n {
        return false;
    }
    skip_digits(text, n, first) == n
}

} // verus!
