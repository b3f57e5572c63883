use toa::common::{parse_int, parse_size};
use toa::number::{parse_bounded, NumberError};

fn decimal_string(n: u64) -> String {
    let mut out = String::new();
    toa::text::push_decimal(&mut out, n);
    out
}

fn push_millis_text(nanos: u64) -> String {
    let mut out = String::new();
    toa::text::push_millis(&mut out, nanos);
    out
}

#[test]
fn parse_int_reads_plain_digits() {
    assert_eq!(parse_int("0"), Ok(0));
    assert_eq!(parse_int("4"), Ok(4));
    assert_eq!(parse_int("500"), Ok(500));
    assert_eq!(parse_int("1000"), Ok(1000));
    assert_eq!(parse_int("007"), Ok(7));
    assert_eq!(parse_int("18446744073709551615"), Ok(u64::MAX));
}

#[test]
fn parse_int_accepts_one_leading_plus() {
    assert_eq!(parse_int("+15"), Ok(15));
    assert_eq!(
        parse_int("++15"),
        Err("Invalid number '++15' is supplied. invalid digit found in string".to_string())
    );
    assert_eq!(
        parse_int("+"),
        Err("Invalid number '+' is supplied. invalid digit found in string".to_string())
    );
}

#[test]
fn parse_int_complains_of_empty_text() {
    assert_eq!(
        parse_int(""),
        Err("Invalid number '' is supplied. cannot parse integer from empty string".to_string())
    );
}

#[test]
fn parse_int_complains_of_bad_digit() {
    assert_eq!(
        parse_int("12a"),
        Err("Invalid number '12a' is supplied. invalid digit found in string".to_string())
    );
    assert_eq!(
        parse_int("-1"),
        Err("Invalid number '-1' is supplied. invalid digit found in string".to_string())
    );
    assert_eq!(
        parse_int(" 1"),
        Err("Invalid number ' 1' is supplied. invalid digit found in string".to_string())
    );
    assert_eq!(
        parse_int("١٢"),
        Err("Invalid number '١٢' is supplied. invalid digit found in string".to_string())
    );
}

#[test]
fn parse_int_complains_of_overflow() {
    assert_eq!(
        parse_int("18446744073709551616"),
        Err(
            "Invalid number '18446744073709551616' is supplied. number too large to fit in target type"
                .to_string()
        )
    );
}

#[test]
fn parse_bounded_reports_the_first_fault() {
    assert_eq!(parse_bounded("255", 255), Ok(255));
    assert_eq!(parse_bounded("256", 255), Err(NumberError::Overflow));
    assert_eq!(parse_bounded("100x", 255), Err(NumberError::InvalidDigit));
    assert_eq!(parse_bounded("1000x", 255), Err(NumberError::Overflow));
    assert_eq!(parse_bounded("26x", 255), Err(NumberError::InvalidDigit));
    assert_eq!(parse_bounded("", 255), Err(NumberError::Empty));
    assert_eq!(parse_bounded("0", 0), Ok(0));
    assert_eq!(parse_bounded("1", 0), Err(NumberError::Overflow));
}

#[test]
fn parse_int_agrees_with_the_standard_parser() {
    let samples = [
        "", "0", "1", "9", "10", "99", "+0", "+", "-", "-0", "-5", "+-5", "5+", "0x10", "1e3",
        "1.5", " 7", "7 ", "0000000000000000000000000000042", "18446744073709551615",
        "18446744073709551616", "18446744073709551620", "99999999999999999999",
        "184467440737095516150", "1844674407370955161x", "18446744073709551616x",
        "999999999999999999999999x", "x999999999999999999999999", "٣", "1２", "12345678901234567890",
    ];
    for text in samples.iter() {
        let expected = match text.parse::<u64>() {
            Ok(value) => Ok(value),
            Err(error) => Err(format!("Invalid number '{}' is supplied. {}", text, error)),
        };
        assert_eq!(parse_int(text), expected);
        let expected = match text.parse::<usize>() {
            Ok(value) => Ok(value),
            Err(error) => Err(format!("Invalid number '{}' is supplied. {}", text, error)),
        };
        assert_eq!(parse_size(text), expected);
    }
}

#[test]
fn parse_bounded_agrees_with_the_standard_parser_on_bytes() {
    let samples = [
        "0", "9", "25", "255", "256", "260", "2550", "+255", "+256", "100x", "1000x", "25x", "26x",
        "0255", "00000255", "000002560",
    ];
    for text in samples.iter() {
        let expected = match text.parse::<u8>() {
            Ok(value) => Ok(value as u64),
            Err(error) => Err(format!("{}", error)),
        };
        let got = match parse_bounded(text, 255) {
            Ok(value) => Ok(value),
            Err(NumberError::Empty) => Err("cannot parse integer from empty string".to_string()),
            Err(NumberError::InvalidDigit) => Err("invalid digit found in string".to_string()),
            Err(NumberError::Overflow) => {
                Err("number too large to fit in target type".to_string())
            }
        };
        assert_eq!(got, expected);
    }
}

#[test]
fn decimal_string_writes_numbers() {
    assert_eq!(decimal_string(0), "0");
    assert_eq!(decimal_string(7), "7");
    assert_eq!(decimal_string(10), "10");
    assert_eq!(decimal_string(1234567890), "1234567890");
    assert_eq!(decimal_string(u64::MAX), "18446744073709551615");
}

#[test]
fn decimal_string_agrees_with_the_standard_formatter() {
    let mut n: u64 = 1;
    for _ in 0..64 {
        assert_eq!(decimal_string(n), format!("{}", n));
        assert_eq!(decimal_string(n - 1), format!("{}", n - 1));
        n = n.wrapping_mul(2);
    }
}

#[test]
fn millis_are_written_with_three_decimals() {
    assert_eq!(push_millis_text(0), "0.000");
    assert_eq!(push_millis_text(10_000_000), "10.000");
    assert_eq!(push_millis_text(20_000_000), "20.000");
    assert_eq!(push_millis_text(1_234_567), "1.235");
    assert_eq!(push_millis_text(1_000), "0.001");
    assert_eq!(push_millis_text(12_000), "0.012");
    assert_eq!(push_millis_text(123_000), "0.123");
    assert_eq!(push_millis_text(1_500_000_000), "1500.000");
}

#[test]
fn millis_round_to_the_nearest_microsecond() {
    assert_eq!(push_millis_text(499), "0.000");
    assert_eq!(push_millis_text(500), "0.001");
    assert_eq!(push_millis_text(1_499), "0.001");
    assert_eq!(push_millis_text(1_500), "0.002");
    assert_eq!(push_millis_text(999_499), "0.999");
    assert_eq!(push_millis_text(999_500), "1.000");
    assert_eq!(push_millis_text(u64::MAX), "18446744073709.552");
}

#[test]
fn push_millis_appends_to_what_is_there() {
    let mut out = "rto=".to_string();
    toa::text::push_millis(&mut out, 2_500_000);
    assert_eq!(out, "rto=2.500");
}
