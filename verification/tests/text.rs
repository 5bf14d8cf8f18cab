use bubbler::text::{decimal_string, digit, parse_u32, parse_u64, push_decimal, split};

#[test]
fn numbers_are_written_in_decimal() {
    assert_eq!(decimal_string(0), "0");
    assert_eq!(decimal_string(7), "7");
    assert_eq!(decimal_string(10), "10");
    assert_eq!(decimal_string(1234567890), "1234567890");
    assert_eq!(decimal_string(u64::MAX), "18446744073709551615");
    for n in (0..5000u64).chain([99_999, 100_000, 4294967295, 4294967296]) {
        assert_eq!(decimal_string(n), format!("{}", n));
    }
}

#[test]
fn numbers_are_appended_in_decimal() {
    let mut out = String::from("slot ");
    push_decimal(&mut out, 42);
    push_decimal(&mut out, 0);
    assert_eq!(out, "slot 420");
}

#[test]
fn digits_are_told_from_other_characters() {
    for (i, c) in "0123456789".chars().enumerate() {
        assert_eq!(digit(c), Some(i as u64));
    }
    for c in ['a', '+', '-', ' ', '/', ':', '٣', '\0'] {
        assert_eq!(digit(c), None);
    }
}

#[test]
fn unsigned_numbers_are_read() {
    assert_eq!(parse_u64("0"), Some(0));
    assert_eq!(parse_u64("42"), Some(42));
    assert_eq!(parse_u64("+42"), Some(42));
    assert_eq!(parse_u64("007"), Some(7));
    assert_eq!(parse_u64("18446744073709551615"), Some(u64::MAX));
    assert_eq!(parse_u64("00018446744073709551615"), Some(u64::MAX));
    assert_eq!(parse_u32("4294967295"), Some(u32::MAX));
    assert_eq!(parse_u32("+0"), Some(0));
}

#[test]
fn what_is_no_unsigned_number_is_not_read() {
    for bad in ["", "+", "-", "-1", "++1", "+-1", "1+", "1 ", " 1", "1_000", "0x10", "1.0", "one", "١٢", "18446744073709551616", "99999999999999999999999"] {
        assert_eq!(parse_u64(bad), None, "{:?}", bad);
    }
    for bad in ["", "+", "-0", "4294967296", "18446744073709551615", "1e3"] {
        assert_eq!(parse_u32(bad), None, "{:?}", bad);
    }
}

#[test]
fn reading_agrees_with_the_standard_library() {
    let samples = [
        "", "0", "1", "+1", "-1", "+", "-", "00", "+00", "12a", "a12", "4294967295", "4294967296",
        "18446744073709551615", "18446744073709551616", "184467440737095516150", " 7", "7 ", "+ 7",
        "٧", "1,2", "1:2",
    ];
    for sample in samples {
        assert_eq!(parse_u64(sample), sample.parse::<u64>().ok(), "{:?}", sample);
        assert_eq!(parse_u32(sample), sample.parse::<u32>().ok(), "{:?}", sample);
    }
    for n in 0..2000u64 {
        assert_eq!(parse_u64(&decimal_string(n)), Some(n));
    }
}

#[test]
fn text_is_cut_at_every_separator() {
    assert_eq!(split("a,b,c", ','), vec!["a", "b", "c"]);
    assert_eq!(split("abc", ','), vec!["abc"]);
    assert_eq!(split("", ','), vec![""]);
    assert_eq!(split(",", ','), vec!["", ""]);
    assert_eq!(split(",a,,b,", ','), vec!["", "a", "", "b", ""]);
    assert_eq!(split("5:1", ':'), vec!["5", "1"]);
    assert_eq!(split("é,ü", ','), vec!["é", "ü"]);
}

#[test]
fn cutting_agrees_with_the_standard_library() {
    for sample in ["", ",", ",,", "a", "a,", ",a", "a,b", "17,27:1,22", "é,,ü,", "no separator"] {
        let expected: Vec<String> = sample.split(',').map(|piece| piece.to_string()).collect();
        assert_eq!(split(sample, ','), expected);
        assert_eq!(split(sample, ',').join(","), sample);
    }
}
