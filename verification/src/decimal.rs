//! Numbers written in base ten: reading the digits of a status code and
//! writing a status code back as the key of its response.

use vstd::prelude::*;
use vstd::string::StrSliceExecFns;
use vstd::string::StringExecFns;

verus! {

/// Whether `c` is one of `0` to `9`.
pub open spec fn is_digit(c: char) -> bool {
    '0' <= c && c <= '9'
}

/// The number that the digit `c` stands for.
pub open spec fn digit_value(c: char) -> int {
    c as int - '0' as int
}

/// Whether `s` holds digits only.
pub open spec fn all_digits(s: Seq<char>) -> bool {
    forall|i: int| 0 <= i < s.len() ==> is_digit(#[trigger] s[i])
}

/// The number that the digits `s` denote in base ten; 0 for no digits.
pub open spec fn decimal_value(s: Seq<char>) -> int
    decreases s.len(),
{
    if s.len() == 0 {
        0
    } else {
        decimal_value(s.drop_last()) * 10 + digit_value(s.last())
    }
}

/// Why some text is not a number that fits an `i32`.
#[derive(Clone, Copy, Debug, PartialEq, Eq, Structural)]
pub enum NumberError {
    /// There is no text.
    Empty,
    /// Some character is not a digit.
    InvalidDigit,
    /// The digits denote more than `i32::MAX`.
    TooLarge,
}

/// What `s` is read as: its value where it is one digit or more and the
/// value fits an `i32`. A sign, an underscore or a blank is no digit.
pub open spec fn spec_parse_i32(s: Seq<char>) -> Result<int, NumberError> {
    if s.len() == 0 {
        Err(NumberError::Empty)
    } else if !all_digits(s) {
        Err(NumberError::InvalidDigit)
    } else if decimal_value(s) > i32::MAX {
        Err(NumberError::TooLarge)
    } else {
        Ok(decimal_value(s))
    }
}

/// Digits denote no less than any of their prefixes does.
pub proof fn lemma_prefix_value(s: Seq<char>, n: int)
    requires
        all_digits(s),
        0 <= n <= s.len(),
    ensures
        0 <= decimal_value(s.take(n)) <= decimal_value(s),
    decreases s.len() - n,
{
    if n == s.len() {
        assert(s.take(n) =~= s);
        lemma_value_not_negative(s);
    } else {
        lemma_prefix_value(s, n + 1);
        let longer = s.take(n + 1);
        assert(longer.drop_last() =~= s.take(n));
        assert(is_digit(longer.last()));
        lemma_value_not_negative(s.take(n));
    }
}

/// Digits denote no negative number.
pub proof fn lemma_value_not_negative(s: Seq<char>)
    requires
        all_digits(s),
    ensures
        0 <= decimal_value(s),
    decreases s.len(),
{
    if s.len() > 0 {
        lemma_value_not_negative(s.drop_last());
        assert(is_digit(s.last()));
    }
}

/// Reads `text` as a number in base ten that fits an `i32`.
pub fn parse_i32(text: &str) -> (r: Result<i32, NumberError>)
    ensures
        match r {
            Ok(n) => spec_parse_i32(text@) == Ok::<int, NumberError>(n as int),
            Err(e) => spec_parse_i32(text@) == Err::<int, NumberError>(e),
        },
{
    let len = text.unicode_len();
    if len == 0 {
        return Err(NumberError::Empty);
    }
    let mut i: usize = 0;
    while i < len
        invariant
            i <= len,
            len == text@.len(),
            forall|j: int| 0 <= j < i ==> is_digit(#[trigger] text@[j]),
        decreases len - i,
    {
        let c = text.get_char(i);
        if !('0' <= c && c <= '9') {
            return Err(NumberError::InvalidDigit);
        }
        i += 1;
    }
    let mut value: i32 = 0;
    let mut k: usize = 0;
    while k < len
        invariant
            k <= len,
            len == text@.len(),
            all_digits(text@),
            value == decimal_value(text@.take(k as int)),
            0 <= value,
        decreases len - k,
    {
        let c = text.get_char(k);
        let d: i32 = (c as u32 - '0' as u32) as i32;
        proof {
            assert(is_digit(text@[k as int]));
            let longer = text@.take(k + 1);
            assert(longer.drop_last() =~= text@.take(k as int));
            assert(longer.last() == c);
            assert(decimal_value(longer) == value * 10 + d);
            lemma_prefix_value(text@, k + 1);
        }
        if value > (i32::MAX - d) / 10 {
            return Err(NumberError::TooLarge);
        }
        value = value * 10 + d;
        k += 1;
    }
    proof {
        assert(text@.take(len as int) =~= text@);
    }
    Ok(value)
}

/// The character that writes the digit `d`.
pub open spec fn digit_char(d: int) -> char {
    if d == 0 {
        '0'
    } else if d == 1 {
        '1'
    } else if d == 2 {
        '2'
    } else if d == 3 {
        '3'
    } else if d == 4 {
        '4'
    } else if d == 5 {
        '5'
    } else if d == 6 {
        '6'
    } else if d == 7 {
        '7'
    } else if d == 8 {
        '8'
    } else {
        '9'
    }
}

/// The digits of `n` in base ten, the most significant first and none of
/// them a leading zero; `0` for zero.
pub open spec fn natural_text(n: nat) -> Seq<char>
    decreases n,
{
    if n < 10 {
        seq![digit_char(n as int)]
    } else {
        natural_text(n / 10).push(digit_char((n % 10) as int))
    }
}

/// How `n` is written in base ten: its digits, after a `-` where it is
/// negative.
pub open spec fn decimal_text(n: int) -> Seq<char> {
    if n < 0 {
        seq!['-'] + natural_text((-n) as nat)
    } else {
        natural_text(n as nat)
    }
}

fn digit_str(d: u32) -> (s: &'static str)
    requires
        d < 10,
    ensures
        s@ == seq![digit_char(d as int)],
{
    proof {
        reveal_strlit("0");
        reveal_strlit("1");
        reveal_strlit("2");
        reveal_strlit("3");
        reveal_strlit("4");
        reveal_strlit("5");
        reveal_strlit("6");
        reveal_strlit("7");
        reveal_strlit("8");
        reveal_strlit("9");
    }
    let s = if d == 0 {
        "0"
    } else if d == 1 {
        "1"
    } else if d == 2 {
        "2"
    } else if d == 3 {
        "3"
    } else if d == 4 {
        "4"
    } else if d == 5 {
        "5"
    } else if d == 6 {
        "6"
    } else if d == 7 {
        "7"
    } else if d == 8 {
        "8"
    } else {
        "9"
    };
    assert(s@ =~= seq![digit_char(d as int)]);
    s
}

fn natural_string(n: u32) -> (s: String)
    ensures
        s@ == natural_text(n as nat),
    decreases n,
{
    if n < 10 {
        String::from_str(digit_str(n))
    } else {
        let mut s = natural_string(n / 10);
        s.append(digit_str(n % 10));
        assert(s@ =~= natural_text(n as nat));
        s
    }
}

/// Writes `n` in base ten.
pub fn decimal_string(n: i32) -> (s: String)
    ensures
        s@ == decimal_text(n as int),
{
    if n < 0 {
        let magnitude: u32 = (-(n as i64)) as u32;
        let mut s = String::from_str("-");
        let digits = natural_string(magnitude);
        s.append(digits.as_str());
        proof {
            reveal_strlit("-");
            assert(s@ =~= decimal_text(n as int));
        }
        s
    } else {
        natural_string(n as u32)
    }
}

/// The digits of a number are digits, and denote the number.
pub proof fn lemma_natural_text_denotes(n: nat)
    ensures
        natural_text(n).len() > 0,
        all_digits(natural_text(n)),
        decimal_value(natural_text(n)) == n,
    decreases n,
{
    if n < 10 {
        let text = seq![digit_char(n as int)];
        assert(text.drop_last() =~= Seq::<char>::empty());
        assert(decimal_value(text.drop_last()) == 0);
        assert(text.last() == digit_char(n as int));
    } else {
        lemma_natural_text_denotes(n / 10);
        let shorter = natural_text(n / 10);
        let text = shorter.push(digit_char((n % 10) as int));
        assert(text.drop_last() =~= shorter);
        assert(text.last() == digit_char((n % 10) as int));
        assert forall|i: int| 0 <= i < text.len() implies is_digit(#[trigger] text[i]) by {
            if i < shorter.len() {
                assert(text[i] == shorter[i]);
            }
        }
    }
}

/// A status code that was read from digits is written back as a key that
/// reads as the same code: no status from 0 to `i32::MAX` is lost or
/// confused with another on the way into the document.
pub proof fn lemma_written_status_reads_back(n: int)
    requires
        0 <= n <= i32::MAX,
    ensures
        spec_parse_i32(decimal_text(n)) == Ok::<int, NumberError>(n),
{
    lemma_natural_text_denotes(n as nat);
}

} // verus!
