use moonshine::markup::{contains, escape_xml, replace_all};
use moonshine::signed::{parse_signed, signed_string};
use moonshine::text::{
    decimal_string, find_char, is_word, join_texts, parse_unsigned, rfind_char, same_text,
    split_bytes, split_chars, split_words, trim, NumberError,
};

fn chars(s: &str) -> Vec<char> {
    s.chars().collect()
}

fn strings(pieces: Vec<Vec<char>>) -> Vec<String> {
    pieces.into_iter().map(|p| p.into_iter().collect()).collect()
}

#[test]
fn numbers_are_read_as_decimal_digits() {
    let read = |s: &str, max| parse_unsigned(&chars(s), max);
    assert_eq!(read("0", 255), Ok(0));
    assert_eq!(read("+255", 255), Ok(255));
    assert_eq!(read("000255", 255), Ok(255));
    assert_eq!(read("256", 255), Err(NumberError::TooLarge));
    assert_eq!(read("", 255), Err(NumberError::Empty));
    assert_eq!(read("+", 255), Err(NumberError::InvalidDigit));
    assert_eq!(read("-1", 255), Err(NumberError::InvalidDigit));
    assert_eq!(read("1a", 255), Err(NumberError::InvalidDigit));
    assert_eq!(read("18446744073709551615", u64::MAX), Ok(u64::MAX));
    assert_eq!(read("18446744073709551616", u64::MAX), Err(NumberError::TooLarge));
    assert_eq!("".parse::<u8>().unwrap_err().to_string(), NumberError::Empty.message());
    assert_eq!("a".parse::<u8>().unwrap_err().to_string(), NumberError::InvalidDigit.message());
    assert_eq!("256".parse::<u8>().unwrap_err().to_string(), NumberError::TooLarge.message());
    assert_eq!("-129".parse::<i8>().unwrap_err().to_string(), NumberError::TooSmall.message());
}

#[test]
fn signed_numbers_are_read_and_written() {
    let read = |s: &str| parse_signed(&chars(s), -128, 127);
    for s in ["0", "-0", "+7", "-128", "127", "128", "-129", "", "-", "+", "--1", "1-", " 1", "12x"] {
        let expected = s.parse::<i8>().map(|n| n as i64).map_err(|e| e.to_string());
        assert_eq!(read(s).map_err(|e| e.message().to_owned()), expected);
    }
    for n in [0, 7, -7, i64::MIN, i64::MAX] {
        assert_eq!(signed_string(n), n.to_string());
    }
    assert_eq!(decimal_string(u64::MAX), u64::MAX.to_string());
    assert_eq!(decimal_string(0), "0");
}

#[test]
fn texts_are_split_and_joined() {
    assert_eq!(strings(split_chars(&chars("a,,b,"), ',')), vec!["a", "", "b", ""]);
    assert_eq!(strings(split_chars(&[], ',')), vec![""]);
    assert_eq!(split_bytes(b"a\0\0b", 0), vec![b"a".to_vec(), vec![], b"b".to_vec()]);
    assert_eq!(strings(split_words(&chars(" \ta  b\u{a0}c\n"))), vec!["a", "b", "c"]);
    assert_eq!(trim(&chars(" \ta b\n")), chars("a b"));
    let items = vec!["a".to_owned(), "b".to_owned(), "c".to_owned()];
    assert_eq!(join_texts(&items, ", "), "a, b, c");
    assert_eq!(join_texts(&vec![], ", "), "");
}

#[test]
fn characters_and_words_are_found() {
    assert_eq!(find_char(&chars("abcb"), 'b'), Some(1));
    assert_eq!(rfind_char(&chars("abcb"), 'b'), Some(3));
    assert_eq!(find_char(&chars("abcb"), 'x'), None);
    assert!(is_word(&chars("abc"), "abc") && !is_word(&chars("abc"), "abd"));
    assert!(same_text("abc", "abc") && !same_text("abc", "abcd"));
    assert!(contains("hello", "ell") && contains("x", "") && !contains("hello", "elx"));
}

#[test]
fn markup_is_escaped() {
    assert_eq!(
        escape_xml("<a href=\"x\">Tom & Jerry's</a>"),
        "&lt;a href=&quot;x&quot;&gt;Tom &amp; Jerry&apos;s&lt;/a&gt;"
    );
    assert_eq!(escape_xml("&amp;"), "&amp;amp;");
    assert_eq!(escape_xml("plain"), "plain");
}

#[test]
fn every_occurrence_is_replaced_from_the_left() {
    let replaced = |s: &str, pattern: &str, with: &str| -> String {
        replace_all(&chars(s), &chars(pattern), &chars(with)).into_iter().collect()
    };
    assert_eq!(replaced("aaa", "aa", "b"), "ba");
    assert_eq!(replaced("x{{ID}}y{{ID}}", "{{ID}}", "1"), "x1y1");
    assert_eq!(replaced("x", "yy", "z"), "x");
}
