//! The identity that a verified token carries.

use crate::decimal::{decimal_text, digit_char, id_to_string, natural_text};
use vstd::prelude::*;

verus! {

/// How long an issued token stays valid, in seconds.
pub const TOKEN_LIFETIME: u64 = 86400;

/// The claims of a token: the user id in decimal, and the second at which
/// the token expires.
pub struct Claims {
    pub sub: String,
    pub exp: usize,
}

/// Whether a character is a decimal digit.
pub open spec fn is_digit(c: char) -> bool {
    '0' <= c <= '9'
}

/// The number that a decimal digit stands for.
pub open spec fn digit_of(c: char) -> int {
    c as int - '0' as int
}

/// Whether a text holds decimal digits only.
pub open spec fn all_digits(digits: Seq<char>) -> bool {
    forall|at: int| 0 <= at < digits.len() ==> is_digit(#[trigger] digits[at])
}

/// The number that a text of decimal digits stands for.
pub open spec fn digits_value(digits: Seq<char>) -> int
    decreases digits.len(),
{
    if digits.len() == 0 {
        0
    } else {
        10 * digits_value(digits.drop_last()) + digit_of(digits.last())
    }
}

/// Whether a text starts with a sign.
pub open spec fn has_sign(text: Seq<char>) -> bool {
    text.len() > 0 && (text[0] == '-' || text[0] == '+')
}

/// The digits of a text: all of it but a sign at its start.
pub open spec fn digits_part(text: Seq<char>) -> Seq<char> {
    if has_sign(text) {
        text.subrange(1, text.len() as int)
    } else {
        text
    }
}

/// The integer that a text stands for: an optional `+` or `-`, then one or
/// more decimal digits, and nothing else.
pub open spec fn signed_value(text: Seq<char>) -> Option<int> {
    let digits = digits_part(text);
    if digits.len() > 0 && all_digits(digits) {
        if text[0] == '-' {
            Some(-digits_value(digits))
        } else {
            Some(digits_value(digits))
        }
    } else {
        None
    }
}

/// The user id that a text stands for, if it stands for an integer of 32
/// signed bits.
pub open spec fn parsed_id(text: Seq<char>) -> Option<i32> {
    match signed_value(text) {
        Some(value) => if i32::MIN <= value <= i32::MAX {
            Some(value as i32)
        } else {
            None
        },
        None => None,
    }
}

proof fn lemma_value_of_longer_prefix(digits: Seq<char>, count: int)
    requires
        0 <= count < digits.len(),
    ensures
        digits_value(digits.take(count + 1)) == 10 * digits_value(digits.take(count)) + digit_of(
            digits[count],
        ),
{
    assert(digits.take(count + 1).drop_last() =~= digits.take(count));
}

proof fn lemma_value_is_natural(digits: Seq<char>)
    requires
        all_digits(digits),
    ensures
        0 <= digits_value(digits),
    decreases digits.len(),
{
    if digits.len() > 0 {
        assert(is_digit(digits.last()));
        assert forall|at: int| 0 <= at < digits.drop_last().len() implies is_digit(
            #[trigger] digits.drop_last()[at],
        ) by {
            assert(is_digit(digits[at]));
        }
        lemma_value_is_natural(digits.drop_last());
    }
}

proof fn lemma_prefix_value_is_less(digits: Seq<char>, count: int)
    requires
        all_digits(digits),
        0 <= count <= digits.len(),
    ensures
        0 <= digits_value(digits.take(count)) <= digits_value(digits),
    decreases digits.len() - count,
{
    assert forall|at: int| 0 <= at < digits.take(count).len() implies is_digit(
        #[trigger] digits.take(count)[at],
    ) by {
        assert(is_digit(digits[at]));
    }
    lemma_value_is_natural(digits.take(count));
    if count == digits.len() {
        assert(digits.take(count) =~= digits);
    } else {
        lemma_prefix_value_is_less(digits, count + 1);
        lemma_value_of_longer_prefix(digits, count);
        assert(is_digit(digits[count]));
    }
}

/// Reads a user id from its decimal text.
pub fn parse_id(text: &str) -> (id: Option<i32>)
    ensures
        id == parsed_id(text@),
{
    let ghost chars = text@;
    if !text.is_ascii() {
        proof {
            let digits = digits_part(chars);
            if digits.len() > 0 && all_digits(digits) {
                assert forall|at: int| 0 <= at < chars.len() implies '\0' <= #[trigger] chars[at]
                    <= '\u{7f}' by {
                    if has_sign(chars) {
                        if at > 0 {
                            assert(digits[at - 1] == chars[at]);
                            assert(is_digit(digits[at - 1]));
                        }
                    } else {
                        assert(is_digit(digits[at]));
                    }
                }
                assert(vstd::utf8::is_ascii_chars(chars));
            }
        }
        return None;
    }
    let bytes = text.as_bytes();
    proof {
        vstd::string::is_ascii_spec_bytes(text);
    }
    assert(bytes@.len() == chars.len());
    assert(forall|at: int| 0 <= at < chars.len() ==> bytes@[at] == (#[trigger] chars[at]) as u8);
    let length = bytes.len();
    if length == 0 {
        return None;
    }
    let negative = bytes[0] == 45u8;
    let signed = negative || bytes[0] == 43u8;
    assert(negative == (chars[0] == '-'));
    assert(signed == has_sign(chars));
    let start: usize = if signed {
        1
    } else {
        0
    };
    let ghost digits = digits_part(chars);
    assert(digits.len() == length - start);
    assert(forall|at: int| 0 <= at < digits.len() ==> #[trigger] digits[at] == chars[at + start]);
    if start == length {
        return None;
    }
    let mut value: i64 = 0;
    let mut at: usize = start;
    while at < length
        invariant
            start <= at <= length,
            chars == text@,
            digits == digits_part(chars),
            length == bytes@.len(),
            length == chars.len(),
            digits.len() == length - start,
            forall|place: int| 0 <= place < chars.len() ==> bytes@[place] == (#[trigger] chars[place]) as u8,
            forall|place: int| 0 <= place < chars.len() ==> '\0' <= #[trigger] chars[place] <= '\u{7f}',
            forall|place: int|
                0 <= place < digits.len() ==> #[trigger] digits[place] == chars[place + start],
            forall|place: int| 0 <= place < at - start ==> is_digit(#[trigger] digits[place]),
            value == digits_value(digits.take(at - start)),
            0 <= value <= 2147483648,
        decreases length - at,
    {
        let byte = bytes[at];
        let ghost c = chars[at as int];
        assert(c == digits[at - start]);
        assert(byte == c as u8);
        assert('\0' <= c <= '\u{7f}');
        assert(is_digit(c) <==> 48 <= byte <= 57);
        if byte < 48u8 || byte > 57u8 {
            assert(!is_digit(digits[at - start]));
            return None;
        }
        assert(is_digit(c));
        assert(digit_of(c) == byte - 48);
        let digit: i64 = (byte - 48u8) as i64;
        let next: i64 = value * 10 + digit;
        proof {
            lemma_value_of_longer_prefix(digits, at - start);
        }
        if next > 2147483648 {
            proof {
                if all_digits(digits) {
                    lemma_prefix_value_is_less(digits, at - start + 1);
                }
            }
            return None;
        }
        value = next;
        at += 1;
    }
    proof {
        assert(digits.take(at - start) =~= digits);
        assert(all_digits(digits));
    }
    if negative {
        Some((-value) as i32)
    } else if value <= 2147483647 {
        Some(value as i32)
    } else {
        None
    }
}

impl Claims {
    /// The user id that the subject stands for, if it stands for one.
    pub fn user_id(&self) -> (id: Option<i32>)
        ensures
            id == parsed_id(self.sub@),
    {
        parse_id(self.sub.as_str())
    }

    /// The claims of a token issued to `user_id` at second `now`: the
    /// subject is the user id in decimal, and the token expires a day later.
    /// Nothing is issued where that second does not fit the machine's word.
    pub fn issue(user_id: i32, now: u64) -> (claims: Option<Claims>)
        ensures
            match claims {
                Some(issued) => {
                    &&& now + TOKEN_LIFETIME <= usize::MAX
                    &&& issued.exp == now + TOKEN_LIFETIME
                    &&& issued.sub@ == decimal_text(user_id as int)
                },
                None => now + TOKEN_LIFETIME > usize::MAX,
            },
    {
        if now > u64::MAX - TOKEN_LIFETIME {
            return None;
        }
        let expires = now + TOKEN_LIFETIME;
        if expires > usize::MAX as u64 {
            return None;
        }
        Some(Claims { sub: id_to_string(user_id), exp: expires as usize })
    }
}

proof fn lemma_digit_char(d: int)
    requires
        0 <= d < 10,
    ensures
        is_digit(digit_char(d)),
        digit_of(digit_char(d)) == d,
{
    let digits = seq!['0', '1', '2', '3', '4', '5', '6', '7', '8', '9'];
    assert(digits[0] == '0' && digits[1] == '1' && digits[2] == '2' && digits[3] == '3'
        && digits[4] == '4');
    assert(digits[5] == '5' && digits[6] == '6' && digits[7] == '7' && digits[8] == '8'
        && digits[9] == '9');
}

proof fn lemma_natural_text_reads_back(n: nat)
    ensures
        natural_text(n).len() > 0,
        all_digits(natural_text(n)),
        digits_value(natural_text(n)) == n,
    decreases n,
{
    let text = natural_text(n);
    if n < 10 {
        lemma_digit_char(n as int);
        assert(text.drop_last() =~= Seq::<char>::empty());
        assert(digits_value(text.drop_last()) == 0);
    } else {
        lemma_natural_text_reads_back(n / 10);
        lemma_digit_char((n % 10) as int);
        assert(text.drop_last() =~= natural_text(n / 10));
        assert forall|at: int| 0 <= at < text.len() implies is_digit(#[trigger] text[at]) by {
            if at < text.len() - 1 {
                assert(text[at] == natural_text(n / 10)[at]);
            }
        }
    }
}

/// A user id written in decimal reads back as itself: the subject that
/// `Claims::issue` writes is the user that `Claims::user_id` finds.
pub proof fn lemma_decimal_text_reads_back(id: i32)
    ensures
        parsed_id(decimal_text(id as int)) == Some(id),
{
    let text = decimal_text(id as int);
    if id < 0 {
        let magnitude = (-(id as int)) as nat;
        lemma_natural_text_reads_back(magnitude);
        assert(text[0] == '-');
        assert(digits_part(text) =~= natural_text(magnitude));
    } else {
        lemma_natural_text_reads_back(id as nat);
        assert(is_digit(text[0]));
        assert(!has_sign(text));
    }
}

} // verus!
