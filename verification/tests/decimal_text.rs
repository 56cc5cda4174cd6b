use skeuit::decimal::{chars_of, parse_number_list, parse_u64, render_u64};

#[test]
fn renders_small_numbers() {
    assert_eq!(render_u64(0), "0");
    assert_eq!(render_u64(7), "7");
    assert_eq!(render_u64(9), "9");
    assert_eq!(render_u64(10), "10");
    assert_eq!(render_u64(45000), "45000");
    assert_eq!(render_u64(1_000_000_007), "1000000007");
}

#[test]
fn renders_the_largest_number() {
    assert_eq!(render_u64(u64::MAX), "18446744073709551615");
}

#[test]
fn rendering_agrees_with_the_standard_library() {
    let samples: [u64; 9] = [0, 1, 9, 10, 99, 100, 12345678901234567890, u64::MAX - 1, u64::MAX];
    for n in samples {
        assert_eq!(render_u64(n), format!("{}", n));
    }
}

#[test]
fn parses_plain_numbers() {
    assert_eq!(parse_u64("0"), Some(0));
    assert_eq!(parse_u64("42"), Some(42));
    assert_eq!(parse_u64("45000"), Some(45000));
    assert_eq!(parse_u64("18446744073709551615"), Some(u64::MAX));
}

#[test]
fn parses_a_leading_plus_sign_and_leading_zeros() {
    assert_eq!(parse_u64("+42"), Some(42));
    assert_eq!(parse_u64("007"), Some(7));
    assert_eq!(parse_u64("+000"), Some(0));
}

#[test]
fn rejects_what_is_no_number() {
    assert_eq!(parse_u64(""), None);
    assert_eq!(parse_u64("+"), None);
    assert_eq!(parse_u64("++1"), None);
    assert_eq!(parse_u64("-1"), None);
    assert_eq!(parse_u64("1.5"), None);
    assert_eq!(parse_u64("12a"), None);
    assert_eq!(parse_u64("a12"), None);
    assert_eq!(parse_u64(" 1"), None);
    assert_eq!(parse_u64("1 "), None);
    assert_eq!(parse_u64("1_000"), None);
    assert_eq!(parse_u64("null"), None);
    assert_eq!(parse_u64("\"1\""), None);
    assert_eq!(parse_u64("1e3"), None);
    assert_eq!(parse_u64("\u{ff11}\u{ff12}"), None);
}

#[test]
fn rejects_numbers_beyond_64_bits() {
    assert_eq!(parse_u64("18446744073709551616"), None);
    assert_eq!(parse_u64("18446744073709551620"), None);
    assert_eq!(parse_u64("99999999999999999999"), None);
    assert_eq!(parse_u64("100000000000000000000000"), None);
}

#[test]
fn parsing_agrees_with_the_standard_library() {
    let samples = [
        "", "0", "1", "+1", "-1", "+", "00", "0123", "18446744073709551615",
        "18446744073709551616", "1a", "a", " 1", "1 ", "1,2", "+-1", "9999999999999999999",
        "\u{661}\u{662}\u{663}", "1\u{0}",
    ];
    for text in samples {
        assert_eq!(parse_u64(text), text.parse::<u64>().ok(), "on {:?}", text);
    }
}

#[test]
fn reading_back_what_was_written_gives_the_number() {
    let samples: [u64; 8] = [0, 5, 10, 255, 65536, 4294967296, u64::MAX / 2, u64::MAX];
    for n in samples {
        assert_eq!(parse_u64(&render_u64(n)), Some(n));
    }
}

#[test]
fn splits_text_into_characters() {
    assert_eq!(chars_of(""), Vec::<char>::new());
    assert_eq!(chars_of("a,b"), vec!['a', ',', 'b']);
    assert_eq!(chars_of("\u{e9}1"), vec!['\u{e9}', '1']);
}

#[test]
fn parses_lists_of_numbers() {
    assert_eq!(parse_number_list("1,2,3"), Some(vec![1, 2, 3]));
    assert_eq!(parse_number_list("5"), Some(vec![5]));
    assert_eq!(parse_number_list("+1,002"), Some(vec![1, 2]));
    assert_eq!(
        parse_number_list("18446744073709551615,0"),
        Some(vec![u64::MAX, 0])
    );
}

#[test]
fn rejects_lists_with_a_field_that_is_no_number() {
    assert_eq!(parse_number_list(""), None);
    assert_eq!(parse_number_list(","), None);
    assert_eq!(parse_number_list("1,,2"), None);
    assert_eq!(parse_number_list("1,2,"), None);
    assert_eq!(parse_number_list(",1"), None);
    assert_eq!(parse_number_list("1, 2"), None);
    assert_eq!(parse_number_list("1;2"), None);
    assert_eq!(parse_number_list("1,18446744073709551616"), None);
}

#[test]
fn list_parsing_agrees_with_splitting_and_parsing_each_field() {
    let samples = ["1,2,3", "7", "", "1,,2", "10,20,", "+3,4", "a,1", "1,2,3,4,5,6,7,8,9,10"];
    for text in samples {
        let expected: Option<Vec<u64>> = text.split(',').map(|f| f.parse::<u64>().ok()).collect();
        assert_eq!(parse_number_list(text), expected, "on {:?}", text);
    }
}
