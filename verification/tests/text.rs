use dlocal_connector::text::{
    bool_to_string, char_is_whitespace, chars_of, i64_to_string, same_text, trim, u64_to_string,
};

#[test]
fn white_space_is_what_the_standard_library_calls_white_space() {
    for code in 0u32..=0x10FFFF {
        if let Some(c) = char::from_u32(code) {
            assert_eq!(char_is_whitespace(c), c.is_whitespace(), "code point {:#x}", code);
        }
    }
}

#[test]
fn trim_removes_white_space_on_both_sides() {
    assert_eq!(trim("  Ana Souza \t\n"), "Ana Souza");
    assert_eq!(trim("Ana"), "Ana");
    assert_eq!(trim(" Ana"), "Ana");
    assert_eq!(trim("Ana "), "Ana");
}

#[test]
fn trim_keeps_white_space_inside() {
    assert_eq!(trim(" a  b\tc "), "a  b\tc");
}

#[test]
fn trim_of_white_space_alone_is_empty() {
    assert_eq!(trim(""), "");
    assert_eq!(trim(" "), "");
    assert_eq!(trim(" \t\r\n\u{a0}\u{3000} "), "");
}

#[test]
fn trim_knows_the_white_space_beyond_ascii() {
    assert_eq!(trim("\u{2003}José\u{a0}"), "José");
    assert_eq!(trim("\u{200b}x\u{200b}"), "\u{200b}x\u{200b}");
}

#[test]
fn trim_agrees_with_the_standard_library() {
    let samples = [
        "",
        " ",
        "a",
        " a",
        "a ",
        "  a b  ",
        "\u{85}é \u{1680}",
        "\u{2028}\u{2029}line\u{202f}\u{205f}",
        "日本 語\u{3000}",
        "\t\u{b}\u{c}\r\nx",
    ];
    for sample in samples {
        assert_eq!(trim(sample), sample.trim(), "sample {:?}", sample);
    }
}

#[test]
fn chars_of_lists_the_characters_in_order() {
    assert_eq!(chars_of("aé日"), vec!['a', 'é', '日']);
    assert_eq!(chars_of(""), Vec::<char>::new());
}

#[test]
fn fifteen_hundred_is_written_in_decimal() {
    assert_eq!(i64_to_string(1500), "1500");
}

#[test]
fn integers_are_written_in_decimal() {
    assert_eq!(i64_to_string(0), "0");
    assert_eq!(i64_to_string(7), "7");
    assert_eq!(i64_to_string(10), "10");
    assert_eq!(i64_to_string(1234567890), "1234567890");
    assert_eq!(i64_to_string(-1), "-1");
    assert_eq!(i64_to_string(-1500), "-1500");
    assert_eq!(i64_to_string(i64::MAX), "9223372036854775807");
    assert_eq!(i64_to_string(i64::MIN), "-9223372036854775808");
}

#[test]
fn decimal_agrees_with_the_standard_library() {
    let mut n: i64 = 1;
    for _ in 0..62 {
        assert_eq!(i64_to_string(n), n.to_string());
        assert_eq!(i64_to_string(-n), (-n).to_string());
        assert_eq!(i64_to_string(n - 1), (n - 1).to_string());
        n *= 2;
    }
    assert_eq!(u64_to_string(u64::MAX), u64::MAX.to_string());
    assert_eq!(u64_to_string(0), "0");
    assert_eq!(u64_to_string(9), "9");
    assert_eq!(u64_to_string(100), "100");
}

#[test]
fn truth_values_are_written_as_words() {
    assert_eq!(bool_to_string(true), "true");
    assert_eq!(bool_to_string(false), "false");
}

#[test]
fn same_text_compares_character_by_character() {
    assert!(same_text("PAID", "PAID"));
    assert!(same_text("", ""));
    assert!(!same_text("PAID", "PAIR"));
    assert!(!same_text("PAID", "PAI"));
    assert!(!same_text("PAI", "PAID"));
    assert!(!same_text("paid", "PAID"));
    assert!(same_text("é日", "é日"));
    assert!(!same_text("é", "e"));
}
