//! Bytes written as hexadecimal digits.
use vstd::prelude::*;
use vstd::utf8;

verus! {

/// A hexadecimal digit, of either case.
pub open spec fn is_hex(c: char) -> bool {
    '0' <= c <= '9' || 'a' <= c <= 'f' || 'A' <= c <= 'F'
}

/// The value of a hexadecimal digit.
pub open spec fn hex_value(c: char) -> int {
    if '0' <= c <= '9' {
        c as int - '0' as int
    } else if 'a' <= c <= 'f' {
        c as int - 'a' as int + 10
    } else {
        c as int - 'A' as int + 10
    }
}

/// The lower-case digit of a value below 16.
pub open spec fn hex_digit(v: int) -> char {
    if v < 10 {
        (48 + v) as char
    } else {
        (87 + v) as char
    }
}

/// `s` holds whole pairs of hexadecimal digits and nothing else.
pub open spec fn is_hex_text(s: Seq<char>) -> bool {
    s.len() % 2 == 0 && forall|i: int| 0 <= i < s.len() ==> is_hex(#[trigger] s[i])
}

/// The bytes that pairs of digits stand for.
pub open spec fn hex_decoded(s: Seq<char>) -> Seq<u8> {
    Seq::new(s.len() / 2, |i: int| (16 * hex_value(s[2 * i]) + hex_value(s[2 * i + 1])) as u8)
}

/// Two digits for each byte, the higher one first.
pub open spec fn hex_encoded(b: Seq<u8>) -> Seq<char> {
    Seq::new(
        b.len() * 2,
        |i: int|
            if i % 2 == 0 {
                hex_digit(b[i / 2] as int / 16)
            } else {
                hex_digit(b[i / 2] as int % 16)
            },
    )
}

/// What is said of text that is no hexadecimal text: the number of digits is
/// odd, or which character is none and where.
pub uninterp spec fn hex_error_text(s: Seq<char>) -> Seq<char>;

/// What is said of text that cannot be decoded.
pub open spec fn decode_error(s: Seq<char>) -> Seq<char> {
    if utf8::encode_utf8(s).len() % 2 != 0 {
        "Odd number of digits"@
    } else {
        hex_error_text(s)
    }
}

/// `hex::decode`, which takes digits of either case in whole pairs. Its error
/// is given as the text that it shows: that the number of digits is odd where
/// that of the bytes is; else it quotes the character that is no digit, and
/// the text goes by a name.
#[verifier::external_body]
pub(crate) fn decode(s: &str) -> (r: Result<Vec<u8>, String>)
    ensures
        match r {
            Ok(b) => is_hex_text(s@) && b@ == hex_decoded(s@),
            Err(e) => {
                &&& !is_hex_text(s@)
                &&& e@ == hex_error_text(s@)
                &&& utf8::encode_utf8(s@).len() % 2 != 0 ==> e@ == "Odd number of digits"@
            },
        },
{
    hex::decode(s).map_err(|e| e.to_string())
}

/// `hex::encode`, which writes two lower-case digits for each byte. The text
/// of more than half of the longest slice cannot be held.
#[verifier::external_body]
pub(crate) fn encode(b: &[u8]) -> (r: String)
    requires
        b@.len() * 2 <= isize::MAX,
    ensures
        r@ == hex_encoded(b@),
{
    hex::encode(b)
}

/// A digit stands for its value.
proof fn hex_digit_has_value(v: int)
    requires
        0 <= v < 16,
    ensures
        is_hex(hex_digit(v)),
        hex_value(hex_digit(v)) == v,
{
}

/// Bytes that are written down and read back are the same.
pub proof fn hex_reads_back(b: Seq<u8>)
    ensures
        is_hex_text(hex_encoded(b)),
        hex_decoded(hex_encoded(b)) == b,
{
    let s = hex_encoded(b);
    assert forall|i: int| 0 <= i < s.len() implies is_hex(#[trigger] s[i]) by {
        hex_digit_has_value(b[i / 2] as int / 16);
        hex_digit_has_value(b[i / 2] as int % 16);
    }
    assert forall|i: int| 0 <= i < b.len() implies hex_decoded(s)[i] == b[i] by {
        hex_digit_has_value(b[i] as int / 16);
        hex_digit_has_value(b[i] as int % 16);
        assert(s[2 * i] == hex_digit(b[i] as int / 16));
        assert(s[2 * i + 1] == hex_digit(b[i] as int % 16));
    }
    assert(hex_decoded(s) == b);
}

/// `digits` spells `bytes`: two digits for each byte, the higher one first,
/// of either case.
pub open spec fn spells(digits: Seq<char>, bytes: Seq<u8>) -> bool {
    &&& digits.len() == 2 * bytes.len()
    &&& forall|i: int|
        0 <= i < digits.len() ==> {
            let v = if i % 2 == 0 {
                bytes[i / 2] as int / 16
            } else {
                bytes[i / 2] as int % 16
            };
            #[trigger] digits[i] == "0123456789abcdef"@[v] || digits[i] == "0123456789ABCDEF"@[v]
        }
}

/// Text that is decoded spells the bytes that come of it, all of them; text
/// that spells bytes is decoded to them, and bytes are written as text that
/// spells them in lower case.
pub proof fn decoding_keeps_every_byte(s: Seq<char>, b: Seq<u8>)
    ensures
        is_hex_text(s) ==> spells(s, hex_decoded(s)),
        spells(s, b) ==> is_hex_text(s) && hex_decoded(s) == b,
        spells(hex_encoded(b), b),
        forall|i: int| 0 <= i < hex_encoded(b).len() ==> !('A' <= #[trigger] hex_encoded(b)[i] <= 'F'),
{
    reveal_strlit("0123456789abcdef");
    reveal_strlit("0123456789ABCDEF");
    if is_hex_text(s) {
        let d = hex_decoded(s);
        assert forall|i: int| 0 <= i < s.len() implies {
            let v = if i % 2 == 0 {
                d[i / 2] as int / 16
            } else {
                d[i / 2] as int % 16
            };
            #[trigger] s[i] == "0123456789abcdef"@[v] || s[i] == "0123456789ABCDEF"@[v]
        } by {
            let k = i / 2;
            assert(is_hex(s[2 * k]) && is_hex(s[2 * k + 1]));
            assert(d[k] == 16 * hex_value(s[2 * k]) + hex_value(s[2 * k + 1]));
            assert(i == 2 * k || i == 2 * k + 1);
        }
    }
    if spells(s, b) {
        assert forall|i: int| 0 <= i < s.len() implies is_hex(#[trigger] s[i]) by {}
        assert forall|k: int| 0 <= k < b.len() implies hex_decoded(s)[k] == b[k] by {
            assert((2 * k) / 2 == k && (2 * k) % 2 == 0);
            assert((2 * k + 1) / 2 == k && (2 * k + 1) % 2 == 1);
            let hi = s[2 * k];
            let lo = s[2 * k + 1];
            assert(hex_value(hi) == b[k] as int / 16);
            assert(hex_value(lo) == b[k] as int % 16);
        }
        assert(hex_decoded(s) =~= b);
    }
    let e = hex_encoded(b);
    assert forall|i: int| 0 <= i < e.len() implies {
        let v = if i % 2 == 0 {
            b[i / 2] as int / 16
        } else {
            b[i / 2] as int % 16
        };
        #[trigger] e[i] == "0123456789abcdef"@[v] || e[i] == "0123456789ABCDEF"@[v]
    } by {}
}

} // verus!
