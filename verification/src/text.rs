//! Decimal text of integers, in both directions.
//!
//! Integers reach the wire as decimal text twice: an integer token carries
//! the digits that the lexer read, and an error message quotes the value that
//! was found. Both directions are defined here over `Seq<char>`.

use vstd::prelude::*;
use vstd::string::*;

verus! {

/// The character of one decimal digit, `0 <= d <= 9`.
pub open spec fn digit_char(d: int) -> char {
    if d == 0 {
        '0'
    } else if d == 1 {
        '1'
    } else if d == 2 {
        '2'
    } else if d == 3 {
        '3'
    } else if d == 4 {
        '4'
    } else if d == 5 {
        '5'
    } else if d == 6 {
        '6'
    } else if d == 7 {
        '7'
    } else if d == 8 {
        '8'
    } else {
        '9'
    }
}

/// The digits of a natural number, most significant first, without leading
/// zeros (`0` is the single digit `0`).
pub open spec fn digits_text(n: nat) -> Seq<char>
    decreases n,
{
    if n < 10 {
        seq![digit_char(n as int)]
    } else {
        digits_text(n / 10).push(digit_char((n % 10) as int))
    }
}

/// The decimal text of an integer: a minus sign for a negative one, then the
/// digits of its magnitude.
pub open spec fn decimal_text(n: int) -> Seq<char> {
    if n < 0 {
        seq!['-'] + digits_text((-n) as nat)
    } else {
        digits_text(n as nat)
    }
}

/// Whether `c` is one of `0` to `9`.
pub open spec fn is_digit(c: char) -> bool {
    '0' <= c && c <= '9'
}

/// The value of a digit character.
pub open spec fn digit_value(c: char) -> int {
    (c as int) - ('0' as int)
}

/// Whether every character of `s` is a decimal digit.
pub open spec fn all_digits(s: Seq<char>) -> bool {
    forall|i: int| 0 <= i < s.len() ==> is_digit(#[trigger] s[i])
}

/// The number that a run of digits writes (0 for the empty run).
pub open spec fn digits_value(s: Seq<char>) -> nat
    decreases s.len(),
{
    if s.len() == 0 {
        0
    } else {
        (digits_value(s.drop_last()) * 10 + digit_value(s.last())) as nat
    }
}

/// Whether `text` begins with a sign character.
pub open spec fn has_sign(text: Seq<char>) -> bool {
    text.len() > 0 && (text[0] == '-' || text[0] == '+')
}

/// The digits of an integer literal: the text without its sign.
pub open spec fn literal_digits(text: Seq<char>) -> Seq<char> {
    if has_sign(text) {
        text.subrange(1, text.len() as int)
    } else {
        text
    }
}

/// The integer that a literal writes: an optional `+` or `-`, then at least
/// one digit and nothing else. `None` for any other text.
pub open spec fn int_literal(text: Seq<char>) -> Option<int> {
    let digits = literal_digits(text);
    if digits.len() > 0 && all_digits(digits) {
        if text[0] == '-' {
            Some(-(digits_value(digits) as int))
        } else {
            Some(digits_value(digits) as int)
        }
    } else {
        None
    }
}

/// The 32-bit integer that a literal writes; `None` where the text is no
/// integer literal or its value does not fit.
pub open spec fn i32_literal(text: Seq<char>) -> Option<i32> {
    match int_literal(text) {
        Some(v) => if i32::MIN <= v <= i32::MAX {
            Some(v as i32)
        } else {
            None
        },
        None => None,
    }
}

/// A run of digits is worth at least as much as any of its prefixes.
pub proof fn lemma_digits_value_prefix(s: Seq<char>, k: int)
    requires
        all_digits(s),
        0 <= k <= s.len(),
    ensures
        digits_value(s.subrange(0, k)) <= digits_value(s),
    decreases s.len() - k,
{
    if k == s.len() {
        assert(s.subrange(0, k) =~= s);
    } else {
        lemma_digits_value_prefix(s, k + 1);
        let longer = s.subrange(0, k + 1);
        assert(longer.drop_last() =~= s.subrange(0, k));
        assert(longer.last() == s[k]);
        assert(is_digit(s[k]));
    }
}

/// The digits of a number are digits, at least one, and write the number.
pub proof fn lemma_digits_text(n: nat)
    ensures
        digits_text(n).len() > 0,
        all_digits(digits_text(n)),
        digits_value(digits_text(n)) == n,
    decreases n,
{
    let text = digits_text(n);
    if n < 10 {
        assert(text.drop_last() =~= Seq::<char>::empty());
        assert(is_digit(text[0]));
        assert(digit_value(text.last()) == n);
        assert(digits_value(text.drop_last()) == 0);
    } else {
        lemma_digits_text(n / 10);
        let shorter = digits_text(n / 10);
        assert(text.drop_last() =~= shorter);
        assert(text.last() == digit_char((n % 10) as int));
        assert(digit_value(text.last()) == n % 10);
        assert forall|i: int| 0 <= i < text.len() implies is_digit(#[trigger] text[i]) by {
            if i < shorter.len() {
                assert(text[i] == shorter[i]);
            }
        }
    }
}

/// The decimal text of an integer is a literal that writes the integer.
pub proof fn lemma_decimal_text_is_literal(v: int)
    ensures
        int_literal(decimal_text(v)) == Some(v),
{
    let text = decimal_text(v);
    if v < 0 {
        lemma_digits_text((-v) as nat);
        assert(text[0] == '-');
        assert(literal_digits(text) =~= digits_text((-v) as nat));
    } else {
        lemma_digits_text(v as nat);
        assert(is_digit(text[0]));
        assert(literal_digits(text) =~= text);
    }
}

/// The one-character text of a digit.
fn digit_str(d: u64) -> (r: &'static str)
    requires
        d < 10,
    ensures
        r@ == seq![digit_char(d as int)],
{
    proof {
        reveal_strlit("0");
        reveal_strlit("1");
        reveal_strlit("2");
        reveal_strlit("3");
        reveal_strlit("4");
        reveal_strlit("5");
        reveal_strlit("6");
        reveal_strlit("7");
        reveal_strlit("8");
        reveal_strlit("9");
    }
    let r = if d == 0 {
        "0"
    } else if d == 1 {
        "1"
    } else if d == 2 {
        "2"
    } else if d == 3 {
        "3"
    } else if d == 4 {
        "4"
    } else if d == 5 {
        "5"
    } else if d == 6 {
        "6"
    } else if d == 7 {
        "7"
    } else if d == 8 {
        "8"
    } else {
        "9"
    };
    assert(r@ =~= seq![digit_char(d as int)]);
    r
}

/// Appends the digits of `n` to `out`.
fn push_digits(out: &mut String, n: u64)
    ensures
        final(out)@ == old(out)@ + digits_text(n as nat),
    decreases n,
{
    if n >= 10 {
        push_digits(out, n / 10);
        out.append(digit_str(n % 10));
        assert(out@ =~= old(out)@ + digits_text(n as nat));
    } else {
        out.append(digit_str(n));
    }
}

/// The decimal text of a 64-bit integer.
pub fn i64_to_text(v: i64) -> (r: String)
    ensures
        r@ == decimal_text(v as int),
{
    let mut out = String::new();
    if v < 0 {
        let magnitude: u64 = ((-(v + 1)) as u64) + 1;
        proof {
            reveal_strlit("-");
        }
        out.append("-");
        push_digits(&mut out, magnitude);
        assert(out@ =~= decimal_text(v as int));
    } else {
        push_digits(&mut out, v as u64);
        assert(out@ =~= decimal_text(v as int));
    }
    out
}

/// The decimal text of a 32-bit integer.
pub fn i32_to_text(v: i32) -> (r: String)
    ensures
        r@ == decimal_text(v as int),
{
    i64_to_text(v as i64)
}

/// Reads a 32-bit integer literal: `Some` with its value exactly where the
/// text is an optional sign and at least one digit, and the value fits.
pub fn parse_i32(text: &str) -> (r: Option<i32>)
    ensures
        r == i32_literal(text@),
{
    if !text.is_ascii() {
        proof {
            let bad = choose|i: int| 0 <= i < text@.len() && !('\0' <= #[trigger] text@[i] <= '\u{7f}');
            let digits = literal_digits(text@);
            if has_sign(text@) {
                if bad > 0 {
                    assert(digits[bad - 1] == text@[bad]);
                    assert(!is_digit(digits[bad - 1]));
                }
            } else {
                assert(!is_digit(digits[bad]));
            }
        }
        return None;
    }
    proof {
        vstd::utf8::is_ascii_chars_encode_utf8(text@);
    }
    let bytes: &[u8] = text.as_bytes();
    let len: usize = bytes.len();
    if len == 0 {
        return None;
    }
    // 45 is `-` and 43 is `+`; the digits are 48 to 57.
    let first: u8 = bytes[0];
    let negative: bool = first == 45;
    let start: usize = if first == 45 || first == 43 {
        1
    } else {
        0
    };
    assert(has_sign(text@) <==> start == 1);
    if start == len {
        return None;
    }
    let ghost digits = literal_digits(text@);
    assert(digits =~= text@.subrange(start as int, len as int));
    let mut acc: i64 = 0;
    let mut i: usize = start;
    while i < len
        invariant
            start <= i <= len,
            len == text@.len(),
            len == bytes@.len(),
            forall|j: int| 0 <= j < len ==> text@[j] as u8 == #[trigger] bytes@[j],
            vstd::utf8::is_ascii_chars(text@),
            digits == text@.subrange(start as int, len as int),
            digits == literal_digits(text@),
            negative <==> text@[0] == '-',
            all_digits(digits.subrange(0, i - start)),
            acc == digits_value(digits.subrange(0, i - start)),
            0 <= acc <= 2147483648,
        decreases len - i,
    {
        let b: u8 = bytes[i];
        assert(text@[i as int] as u8 == bytes@[i as int]);
        assert('\0' <= text@[i as int] <= '\u{7f}');
        assert(digits[i - start] == text@[i as int]);
        if b < 48 || b > 57 {
            assert(!is_digit(digits[i - start]));
            return None;
        }
        let d: i64 = (b - 48) as i64;
        let next: i64 = acc * 10 + d;
        proof {
            let longer = digits.subrange(0, i - start + 1);
            assert(longer.drop_last() =~= digits.subrange(0, i - start));
            assert(longer.last() == text@[i as int]);
            assert(digit_value(text@[i as int]) == d);
            assert(is_digit(text@[i as int]));
            assert(next == digits_value(longer));
            assert forall|j: int| 0 <= j < longer.len() implies is_digit(#[trigger] longer[j]) by {
                if j < i - start {
                    assert(longer[j] == digits.subrange(0, i - start)[j]);
                }
            }
        }
        if next > 2147483648 {
            proof {
                if all_digits(digits) {
                    lemma_digits_value_prefix(digits, i - start + 1);
                    assert(digits_value(digits) > 2147483648);
                }
            }
            return None;
        }
        acc = next;
        i = i + 1;
    }
    assert(digits.subrange(0, i - start) =~= digits);
    if negative {
        Some((0 - acc) as i32)
    } else if acc > 2147483647 {
        None
    } else {
        Some(acc as i32)
    }
}

} // verus!
