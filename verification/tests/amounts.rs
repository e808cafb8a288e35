use ever_elect::amount::{parse_tokens_to_nano, AmountError, ONE_TOKEN};
use ever_elect::text::{decimal, is_white_space, parse_unsigned, same_text, trim};

#[test]
fn reads_whole_tokens() {
    assert_eq!(parse_tokens_to_nano("5"), Ok(5_000_000_000));
    assert_eq!(parse_tokens_to_nano("0"), Ok(0));
    assert_eq!(parse_tokens_to_nano("500000"), Ok(500_000_000_000_000));
}

#[test]
fn reads_fractions() {
    assert_eq!(parse_tokens_to_nano("1.5"), Ok(1_500_000_000));
    assert_eq!(parse_tokens_to_nano("0.000000001"), Ok(1));
    assert_eq!(parse_tokens_to_nano("12.345678901"), Ok(12_345_678_901));
    assert_eq!(parse_tokens_to_nano("7."), Ok(7 * ONE_TOKEN));
}

#[test]
fn ignores_white_space_around_amounts() {
    assert_eq!(parse_tokens_to_nano(" \t12.5\u{a0}\r\n"), Ok(12_500_000_000));
    assert_eq!(parse_tokens_to_nano("1 2"), Err(AmountError::InvalidWhole));
}

#[test]
fn takes_one_plus_sign_in_each_part() {
    assert_eq!(parse_tokens_to_nano("+3"), Ok(3_000_000_000));
    assert_eq!(parse_tokens_to_nano("3.+5"), Ok(3_050_000_000));
    assert_eq!(parse_tokens_to_nano("++3"), Err(AmountError::InvalidWhole));
    assert_eq!(parse_tokens_to_nano("-3"), Err(AmountError::InvalidWhole));
    assert_eq!(parse_tokens_to_nano("+"), Err(AmountError::InvalidWhole));
}

#[test]
fn refuses_what_is_no_amount() {
    assert_eq!(parse_tokens_to_nano(""), Err(AmountError::Empty));
    assert_eq!(parse_tokens_to_nano(" \n"), Err(AmountError::Empty));
    assert_eq!(parse_tokens_to_nano(".5"), Err(AmountError::InvalidWhole));
    assert_eq!(parse_tokens_to_nano("1,5"), Err(AmountError::InvalidWhole));
    assert_eq!(parse_tokens_to_nano("1.5.5"), Err(AmountError::InvalidFraction));
    assert_eq!(parse_tokens_to_nano("1.x"), Err(AmountError::InvalidFraction));
    assert_eq!(parse_tokens_to_nano("1.0000000000"), Err(AmountError::TooManyPlaces));
    assert_eq!(
        parse_tokens_to_nano("340282366920938463463374607431768211456"),
        Err(AmountError::InvalidWhole)
    );
}

#[test]
fn counts_places_in_bytes() {
    assert_eq!(parse_tokens_to_nano("1.\u{20ac}\u{20ac}\u{20ac}"), Err(AmountError::InvalidFraction));
    assert_eq!(
        parse_tokens_to_nano("1.\u{20ac}\u{20ac}\u{20ac}0"),
        Err(AmountError::TooManyPlaces)
    );
}

#[test]
fn refuses_amounts_beyond_the_largest() {
    assert_eq!(
        parse_tokens_to_nano("340282366920938463463374607431.768211455"),
        Ok(u128::MAX)
    );
    assert_eq!(
        parse_tokens_to_nano("340282366920938463463374607431.768211456"),
        Err(AmountError::TooLarge)
    );
    assert_eq!(
        parse_tokens_to_nano("340282366920938463463374607432"),
        Err(AmountError::TooLarge)
    );
}

#[test]
fn written_amounts_read_back() {
    for n in [0u128, 1, 999_999_999, 1_000_000_000, 20_000_000_001, u128::MAX] {
        let text = format!("{}.{:09}", n / ONE_TOKEN, n % ONE_TOKEN);
        assert_eq!(parse_tokens_to_nano(&text), Ok(n));
    }
}

#[test]
fn fraction_stays_below_one_token() {
    assert_eq!(parse_tokens_to_nano("41.999999999"), Ok(42 * ONE_TOKEN - 1));
}

#[test]
fn explains_refused_amounts() {
    assert_eq!(AmountError::Empty.message(" "), "amount is empty");
    assert_eq!(AmountError::InvalidWhole.message(" a.5 "), "invalid whole token amount `a`");
    assert_eq!(
        AmountError::TooManyPlaces.message("1.0000000000"),
        "token amount has more than 9 decimal places"
    );
    assert_eq!(
        AmountError::InvalidFraction.message("1.x.y"),
        "invalid fractional token amount `x.y`"
    );
    assert_eq!(AmountError::TooLarge.message("9"), "token amount is too large");
}

#[test]
fn white_space_is_that_of_the_standard_library() {
    let mut c: u32 = 0;
    while c <= 0x10ffff {
        if let Some(c) = char::from_u32(c) {
            assert_eq!(is_white_space(c), c.is_whitespace(), "{:?}", c);
        }
        c += 1;
    }
}

#[test]
fn trims_both_ends() {
    for s in ["", " ", "a", " a", "a ", "\u{3000}a b\u{2028}", "\t\n", "a\u{85}"] {
        assert_eq!(trim(s), s.trim());
    }
}

#[test]
fn reads_unsigned_numbers() {
    assert_eq!(parse_unsigned("255", 255), Some(255));
    assert_eq!(parse_unsigned("256", 255), None);
    assert_eq!(parse_unsigned("+007", 255), Some(7));
    assert_eq!(parse_unsigned("", 255), None);
    assert_eq!(parse_unsigned("+", 255), None);
    assert_eq!(parse_unsigned("-1", 255), None);
    assert_eq!(parse_unsigned("1a", 255), None);
    assert_eq!(
        parse_unsigned("340282366920938463463374607431768211455", u128::MAX),
        Some(u128::MAX)
    );
    assert_eq!(parse_unsigned("340282366920938463463374607431768211456", u128::MAX), None);
}

#[test]
fn decimal_numbers_read_back() {
    for n in [0u128, 7, 10, 1_234_567_890, u128::MAX] {
        assert_eq!(decimal(n), n.to_string());
        assert_eq!(parse_unsigned(&decimal(n), u128::MAX), Some(n));
    }
}

#[test]
fn compares_texts() {
    assert!(same_text("ab", "ab"));
    assert!(!same_text("ab", "aB"));
    assert!(!same_text("ab", "a"));
}
