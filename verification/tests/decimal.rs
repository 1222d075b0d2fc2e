use socket_activation::decimal::{parse_u64, parse_usize, to_decimal};

#[test]
fn numbers_are_written_without_leading_zeros() {
    assert_eq!(to_decimal(0), "0");
    assert_eq!(to_decimal(9), "9");
    assert_eq!(to_decimal(10), "10");
    assert_eq!(to_decimal(65535), "65535");
    assert_eq!(to_decimal(1234567890), "1234567890");
    assert_eq!(to_decimal(u64::MAX), "18446744073709551615");
}

#[test]
fn writing_agrees_with_the_standard_library() {
    for n in 0..2000u64 {
        assert_eq!(to_decimal(n), n.to_string());
    }
    for shift in 0..64u32 {
        let n = u64::MAX >> shift;
        assert_eq!(to_decimal(n), n.to_string());
    }
}

#[test]
fn reading_agrees_with_the_standard_library() {
    let texts = [
        "", "+", "-", "0", "00", "007", "+0", "+7", "++7", "-7", "-0", " 7", "7 ", "7\n", "1_000",
        "1,000", "0x10", "1e3", "3.0", "seven", "\u{0661}", "\u{ff11}", "7\u{0661}", "+7+", "7+",
        "18446744073709551614", "18446744073709551615", "18446744073709551616",
        "+18446744073709551615", "000000000000000000000000000018446744073709551615",
        "99999999999999999999", "184467440737095516150", "18446744073709551615x", "4294967295",
        "4294967296",
    ];
    for text in texts {
        assert_eq!(parse_u64(text), text.parse::<u64>().ok(), "{:?}", text);
        assert_eq!(parse_usize(text), text.parse::<usize>().ok(), "{:?}", text);
    }
}

#[test]
fn reading_gives_back_what_was_written() {
    for n in 0..2000u64 {
        assert_eq!(parse_u64(&to_decimal(n)), Some(n));
    }
    assert_eq!(parse_u64(&to_decimal(u64::MAX)), Some(u64::MAX));
    assert_eq!(parse_usize(&to_decimal(usize::MAX as u64)), Some(usize::MAX));
}

#[test]
fn different_numbers_are_written_differently() {
    assert_ne!(to_decimal(1), to_decimal(10));
    assert_ne!(to_decimal(12), to_decimal(21));
}
