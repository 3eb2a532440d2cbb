//! Signed decimal numbers: reading them and writing them down.
use vstd::prelude::*;

use crate::text;
use crate::text::NumberError;

verus! {

/// Reads a signed decimal number from `min` to `max`: an optional sign, then
/// one digit or more.
pub open spec fn read_signed(s: Seq<char>, min: int, max: int) -> Result<int, NumberError> {
    if s.len() == 0 {
        Err(NumberError::Empty)
    } else if s.len() == 1 && (s[0] == '+' || s[0] == '-') {
        Err(NumberError::InvalidDigit)
    } else if s[0] == '+' {
        text::read_digits(s.skip(1), max)
    } else if s[0] == '-' {
        match text::read_digits(s.skip(1), -min) {
            Ok(v) => Ok(-v),
            Err(NumberError::TooLarge) => Err(NumberError::TooSmall),
            Err(e) => Err(e),
        }
    } else {
        text::read_digits(s, max)
    }
}

/// Reads a signed decimal number from `min` to `max`; see [`read_signed`].
pub fn parse_signed(s: &[char], min: i64, max: i64) -> (r: Result<i64, NumberError>)
    requires
        min <= 0 <= max,
    ensures
        match r {
            Ok(v) => {
                &&& read_signed(s@, min as int, max as int) == Ok::<int, NumberError>(v as int)
                &&& min <= v <= max
            },
            Err(e) => read_signed(s@, min as int, max as int) == Err::<int, NumberError>(e),
        },
{
    if s.len() == 0 {
        return Err(NumberError::Empty);
    }
    if s.len() == 1 && (s[0] == '+' || s[0] == '-') {
        return Err(NumberError::InvalidDigit);
    }
    if s[0] == '-' {
        let limit: u64 = if min == i64::MIN {
            0x8000_0000_0000_0000
        } else {
            (-min) as u64
        };
        proof {
            text::read_digits_at_most(s@.skip(1), limit as int);
        }
        return match text::parse_digits(s, 1, limit) {
            Ok(v) => if v == 0x8000_0000_0000_0000 {
                Ok(i64::MIN)
            } else {
                Ok(-(v as i64))
            },
            Err(e) => match e {
                NumberError::TooLarge => Err(NumberError::TooSmall),
                _ => Err(e),
            },
        };
    }
    let from: usize = if s[0] == '+' {
        1
    } else {
        0
    };
    proof {
        assert(s@.skip(0) == s@);
        text::read_digits_at_most(s@.skip(from as int), max as int);
    }
    match text::parse_digits(s, from, max as u64) {
        Ok(v) => Ok(v as i64),
        Err(e) => Err(e),
    }
}

/// The decimal digits of `n`, behind a minus sign where it is negative.
pub open spec fn signed_decimal(n: int) -> Seq<char> {
    if n < 0 {
        seq!['-'] + text::decimal((-n) as nat)
    } else {
        text::decimal(n as nat)
    }
}

/// The decimal digits of `n`; see [`signed_decimal`].
pub fn signed_string(n: i64) -> (r: String)
    ensures
        r@ == signed_decimal(n as int),
{
    if n < 0 {
        let magnitude: u64 = if n == i64::MIN {
            0x8000_0000_0000_0000
        } else {
            (-n) as u64
        };
        let digits = text::decimal_string(magnitude);
        let mut r = String::new();
        r.push('-');
        r.append(digits.as_str());
        assert(r@ == seq!['-'] + text::decimal(magnitude as nat));
        r
    } else {
        text::decimal_string(n as u64)
    }
}

/// Writing a number down and reading it back gives the number.
pub proof fn signed_decimal_reads_back(n: int, min: int, max: int)
    requires
        min <= n <= max,
        min <= 0 <= max,
    ensures
        read_signed(signed_decimal(n), min, max) == Ok::<int, NumberError>(n),
{
    if n < 0 {
        text::decimal_reads_back((-n) as nat, -min);
        assert(signed_decimal(n).skip(1) == text::decimal((-n) as nat));
    } else {
        text::decimal_reads_back(n as nat, max);
        assert(text::is_digit(text::decimal(n as nat)[0]));
    }
}

/// A number behind a minus sign is that number below nothing, one behind a plus
/// sign or no sign is that number; and each is read as far as it fits.
pub proof fn signs_are_read(n: nat, min: int, max: int)
    requires
        min <= 0 <= max,
    ensures
        n <= -min ==> read_signed(seq!['-'] + text::decimal(n), min, max) == Ok::<int, NumberError>(-n),
        n <= max ==> read_signed(seq!['+'] + text::decimal(n), min, max) == Ok::<int, NumberError>(
            n as int,
        ),
        n <= max ==> read_signed(text::decimal(n), min, max) == Ok::<int, NumberError>(n as int),
        n > 0 ==> signed_decimal(-n) == seq!['-'] + text::decimal(n),
        signed_decimal(n as int) == text::decimal(n),
{
    let minus = seq!['-'] + text::decimal(n);
    let plus = seq!['+'] + text::decimal(n);
    assert(minus.skip(1) == text::decimal(n) && plus.skip(1) == text::decimal(n));
    text::decimal_reads_back(n, n as int);
    assert(text::is_digit(text::decimal(n)[0]));
    if n <= -min {
        text::decimal_reads_back(n, -min);
    }
    if n <= max {
        text::decimal_reads_back(n, max);
    }
}

/// What is read as a number fits and is written in digits alone, behind at most
/// a sign.
pub proof fn signed_numbers_are_digits(s: Seq<char>, min: int, max: int)
    requires
        min <= 0 <= max,
    ensures
        read_signed(s, min, max) matches Ok(v) ==> {
            &&& min <= v <= max
            &&& s.len() > 0
            &&& v < 0 ==> s[0] == '-'
            &&& v > 0 ==> s[0] != '-'
            &&& '0' <= s.last() <= '9'
            &&& forall|i: int| 0 < i < s.len() ==> '0' <= #[trigger] s[i] <= '9'
            &&& '0' <= s[0] <= '9' || s[0] == '+' || s[0] == '-'
        },
{
    if read_signed(s, min, max) is Ok {
        let rest = s.skip(1);
        text::digits_are_digits(s, max);
        text::digits_are_digits(rest, max);
        text::digits_are_digits(rest, -min);
        assert(forall|i: int| 0 < i < s.len() ==> #[trigger] s[i] == rest[i - 1]);
        if s[0] == '+' || s[0] == '-' {
            assert(s.last() == s[s.len() - 1]);
        }
    }
}

} // verus!
