use ear_trainer::error::InputError;
use ear_trainer::text::{is_blank_char, parse_below, trim};

#[test]
fn trim_strips_both_sides() {
    assert_eq!(trim("  C3 \n"), "C3");
    assert_eq!(trim("1\r\n"), "1");
    assert_eq!(trim("\t 7"), "7");
    assert_eq!(trim("C3"), "C3");
}

#[test]
fn trim_keeps_inner_blanks() {
    assert_eq!(trim(" C 3 "), "C 3");
}

#[test]
fn trim_of_blank_lines_is_empty() {
    assert_eq!(trim(""), "");
    assert_eq!(trim("\n"), "");
    assert_eq!(trim("  \t\r\n"), "");
}

#[test]
fn trim_agrees_with_the_standard_library() {
    for line in ["\u{a0}x\u{3000}", "\u{2003}1\u{2028}", "\u{85}ab\u{1680}", "\u{200b}1", "\u{1}1"] {
        assert_eq!(trim(line), line.trim());
    }
}

#[test]
fn blanks_are_unicode_white_space() {
    let mut c = 0u32;
    while c < 0x3100 {
        if let Some(ch) = char::from_u32(c) {
            assert_eq!(is_blank_char(ch), ch.is_whitespace());
        }
        c += 1;
    }
}

#[test]
fn numerals_below_the_limit_are_read() {
    assert_eq!(parse_below("0", 4), Ok(0));
    assert_eq!(parse_below("3", 4), Ok(3));
    assert_eq!(parse_below("12", 100), Ok(12));
    assert_eq!(parse_below("255", 256), Ok(255));
    assert_eq!(parse_below("007", 8), Ok(7));
}

#[test]
fn numerals_at_or_above_the_limit_are_unknown() {
    assert_eq!(parse_below("4", 4), Err(InputError::UnknownOptionCode));
    assert_eq!(parse_below("40", 4), Err(InputError::UnknownOptionCode));
    assert_eq!(parse_below("0", 0), Err(InputError::UnknownOptionCode));
    assert_eq!(parse_below("256", 256), Err(InputError::UnknownOptionCode));
}

#[test]
fn huge_numerals_are_unknown() {
    assert_eq!(
        parse_below("99999999999999999999999999999999", usize::MAX),
        Err(InputError::UnknownOptionCode)
    );
    assert_eq!(
        parse_below("18446744073709551615", usize::MAX),
        Err(InputError::UnknownOptionCode)
    );
    assert_eq!(parse_below("18446744073709551614", usize::MAX), Ok(18446744073709551614));
}

#[test]
fn text_that_is_no_numeral_is_malformed() {
    assert_eq!(parse_below("", 4), Err(InputError::MalformedInput));
    assert_eq!(parse_below("-1", 4), Err(InputError::MalformedInput));
    assert_eq!(parse_below("+1", 4), Err(InputError::MalformedInput));
    assert_eq!(parse_below("one", 4), Err(InputError::MalformedInput));
    assert_eq!(parse_below("1x", 4), Err(InputError::MalformedInput));
    assert_eq!(parse_below(" 1", 4), Err(InputError::MalformedInput));
    assert_eq!(parse_below("1.0", 4), Err(InputError::MalformedInput));
    assert_eq!(parse_below("99999x", 4), Err(InputError::MalformedInput));
}
