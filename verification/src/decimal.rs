//! Base-10 text: reading a signed integer from a message, and writing an
//! unsigned one into a reply.

use vstd::prelude::*;
use vstd::std_specs::iter::IteratorSpec;
use vstd::string::StringExecFns;

verus! {

broadcast use vstd::string::group_string_axioms;

/// Whether `c` is one of the ten ASCII digits.
pub open spec fn is_digit(c: char) -> bool {
    '0' <= c <= '9'
}

/// The number that the digit `c` writes.
pub open spec fn digit_value(c: char) -> int {
    c as int - '0' as int
}

/// Whether `s` holds digits and nothing else.
pub open spec fn all_digits(s: Seq<char>) -> bool {
    forall|i: int| 0 <= i < s.len() ==> is_digit(#[trigger] s[i])
}

/// The number that a run of digits writes, most significant digit first.
pub open spec fn digits_value(s: Seq<char>) -> int
    decreases s.len(),
{
    if s.len() == 0 {
        0
    } else {
        digits_value(s.drop_last()) * 10 + digit_value(s.last())
    }
}

/// Whether `s` begins with a sign.
pub open spec fn has_sign(s: Seq<char>) -> bool {
    s.len() > 0 && (s[0] == '+' || s[0] == '-')
}

/// The digits of a text, behind its optional sign.
pub open spec fn digits_of(s: Seq<char>) -> Seq<char> {
    if has_sign(s) {
        s.subrange(1, s.len() as int)
    } else {
        s
    }
}

/// The integer that a text writes in base 10: an optional `+` or `-`, then
/// one digit or more, and nothing else. Any other text writes none.
pub open spec fn parse_int(s: Seq<char>) -> Option<int> {
    let digits = digits_of(s);
    if digits.len() == 0 || !all_digits(digits) {
        None
    } else if s[0] == '-' {
        Some(-digits_value(digits))
    } else {
        Some(digits_value(digits))
    }
}

/// The integer that a text writes, if it fits in 64 bits.
pub open spec fn parse_i64_spec(s: Seq<char>) -> Option<i64> {
    match parse_int(s) {
        Some(v) => if i64::MIN <= v <= i64::MAX {
            Some(v as i64)
        } else {
            None
        },
        None => None,
    }
}

/// A run of digits is worth at least as much as any of its prefixes.
proof fn lemma_prefix_value(s: Seq<char>, k: int)
    requires
        all_digits(s),
        0 <= k <= s.len(),
    ensures
        0 <= digits_value(s.subrange(0, k)) <= digits_value(s),
    decreases s.len() - k,
{
    if k == s.len() {
        assert(s.subrange(0, k) =~= s);
        lemma_value_nonnegative(s);
    } else {
        lemma_prefix_value(s, k + 1);
        let longer = s.subrange(0, k + 1);
        assert(longer.drop_last() =~= s.subrange(0, k));
        lemma_value_nonnegative(s.subrange(0, k));
    }
}

/// A run of digits is worth no less than nothing.
proof fn lemma_value_nonnegative(s: Seq<char>)
    requires
        all_digits(s),
    ensures
        0 <= digits_value(s),
    decreases s.len(),
{
    if s.len() > 0 {
        lemma_value_nonnegative(s.drop_last());
    }
}

/// Reads a signed 64-bit integer written in base 10.
pub fn parse_i64(text: &str) -> (parsed: Option<i64>)
    ensures
        parsed == parse_i64_spec(text@),
{
    let ghost s = text@;
    let ghost digits = digits_of(s);
    let mut chars = text.chars();
    let mut first = true;
    let mut negative = false;
    let mut any_digit = false;
    let mut value: i64 = 0;
    let ghost mut at: int = 0;
    let ghost mut seen: int = 0;
    loop
        invariant
            s == text@,
            digits == digits_of(s),
            0 <= at <= s.len(),
            chars.remaining() == s.subrange(at, s.len() as int),
            chars.decrease() is Some,
            first == (at == 0),
            negative == (at > 0 && s[0] == '-'),
            seen == at - (if at > 0 && has_sign(s) { 1int } else { 0int }),
            any_digit == (seen > 0),
            0 <= seen <= digits.len(),
            all_digits(digits.subrange(0, seen)),
            negative ==> value == -digits_value(digits.subrange(0, seen)),
            !negative ==> value == digits_value(digits.subrange(0, seen)),
        ensures
            at == s.len(),
        decreases chars.decrease()->0,
    {
        let c = match chars.next() {
            Some(c) => c,
            None => {
                break ;
            },
        };
        if first && (c == '+' || c == '-') {
            negative = c == '-';
        } else {
            assert(digits[seen] == c);
            if !(c >= '0' && c <= '9') {
                return None;
            }
            let digit: i64 = (c as u32 - '0' as u32) as i64;
            let ghost before = digits.subrange(0, seen);
            let ghost after = digits.subrange(0, seen + 1);
            proof {
                assert(after.drop_last() =~= before);
                assert forall|i: int| 0 <= i < after.len() implies is_digit(#[trigger] after[i]) by {}
                lemma_value_nonnegative(before);
                if all_digits(digits) {
                    lemma_prefix_value(digits, seen + 1);
                }
            }
            let tens = value.checked_mul(10);
            let next = match tens {
                Some(tens) => if negative {
                    tens.checked_sub(digit)
                } else {
                    tens.checked_add(digit)
                },
                None => None,
            };
            match next {
                Some(next) => {
                    value = next;
                },
                None => {
                    return None;
                },
            }
            any_digit = true;
            proof {
                seen = seen + 1;
            }
        }
        first = false;
        proof {
            at = at + 1;
        }
    }
    if any_digit {
        assert(digits.subrange(0, seen) =~= digits);
        Some(value)
    } else {
        None
    }
}

/// The character that writes the digit `d`.
pub open spec fn digit_char(d: int) -> char {
    (d + 48) as char
}

/// `n` written in base 10, without leading zeros.
pub open spec fn decimal_text(n: nat) -> Seq<char>
    decreases n,
{
    if n < 10 {
        seq![digit_char(n as int)]
    } else {
        decimal_text(n / 10).push(digit_char((n % 10) as int))
    }
}

/// `n` written in base 10 with at least two digits, the way a clock writes
/// minutes.
pub open spec fn two_digit_text(n: nat) -> Seq<char> {
    if n < 10 {
        seq!['0', digit_char(n as int)]
    } else {
        decimal_text(n)
    }
}

/// Reading back what was written gives the number: the text of `n` is all
/// digits, carries no sign, and is worth `n`.
pub proof fn lemma_decimal_round_trip(n: nat)
    ensures
        decimal_text(n).len() >= 1,
        all_digits(decimal_text(n)),
        !has_sign(decimal_text(n)),
        digits_value(decimal_text(n)) == n,
        parse_int(decimal_text(n)) == Some(n as int),
    decreases n,
{
    let text = decimal_text(n);
    if n < 10 {
        assert(digits_value(text.drop_last()) == 0);
    } else {
        lemma_decimal_round_trip(n / 10);
        let front = decimal_text(n / 10);
        assert(text.drop_last() =~= front);
        assert forall|i: int| 0 <= i < text.len() implies is_digit(#[trigger] text[i]) by {}
    }
}

/// The text of one digit.
fn digit_str(d: u64) -> (s: &'static str)
    requires
        d < 10,
    ensures
        s@ == seq![digit_char(d as int)],
{
    proof {
        reveal_strlit("0");
        reveal_strlit("1");
        reveal_strlit("2");
        reveal_strlit("3");
        reveal_strlit("4");
        reveal_strlit("5");
        reveal_strlit("6");
        reveal_strlit("7");
        reveal_strlit("8");
        reveal_strlit("9");
    }
    if d == 0 {
        "0"
    } else if d == 1 {
        "1"
    } else if d == 2 {
        "2"
    } else if d == 3 {
        "3"
    } else if d == 4 {
        "4"
    } else if d == 5 {
        "5"
    } else if d == 6 {
        "6"
    } else if d == 7 {
        "7"
    } else if d == 8 {
        "8"
    } else {
        "9"
    }
}

/// Appends `n`, written in base 10, to `out`.
pub fn push_decimal(out: &mut String, n: u64)
    ensures
        final(out)@ == old(out)@ + decimal_text(n as nat),
    decreases n,
{
    if n >= 10 {
        push_decimal(out, n / 10);
    }
    out.append(digit_str(n % 10));
}

/// Appends `n`, written in base 10 with at least two digits, to `out`.
pub fn push_two_digits(out: &mut String, n: u64)
    ensures
        final(out)@ == old(out)@ + two_digit_text(n as nat),
{
    if n < 10 {
        out.append("0");
        proof {
            reveal_strlit("0");
        }
    }
    push_decimal(out, n);
}

} // verus!
