use winadmin_core::sizes::parse_size_string;
use winadmin_core::text::{
    chars_of, decimal_of, find, includes, lines_of, lower, parse_unsigned, same_chars,
    signed_decimal_of, split_on, strip_leading, text_of, trim, upper, words_of,
};
use winadmin_core::lexical::comes_before;

fn chars(text: &str) -> Vec<char> {
    text.chars().collect()
}

fn texts(list: Vec<Vec<char>>) -> Vec<String> {
    list.into_iter().map(|v| v.into_iter().collect()).collect()
}

#[test]
fn sizes_with_units_are_bytes() {
    assert_eq!(parse_size_string("1.5 MB"), 1572864);
    assert_eq!(parse_size_string("1 KB"), 1024);
    assert_eq!(parse_size_string("2 GB"), 2147483648);
    assert_eq!(parse_size_string("1 TB"), 1099511627776);
    assert_eq!(parse_size_string("512 B"), 512);
    assert_eq!(parse_size_string("512 bytes"), 512);
    assert_eq!(parse_size_string("512"), 512);
    assert_eq!(parse_size_string("3 pommes"), 3);
    assert_eq!(parse_size_string("  10 kb  "), 10240);
    assert_eq!(parse_size_string("1,5 mb"), 1572864);
    assert_eq!(parse_size_string("0.1 KB"), 102);
    assert_eq!(parse_size_string("0.001 KB"), 1);
    assert_eq!(parse_size_string("0.0009 KB"), 0);
    assert_eq!(parse_size_string(".5 KB"), 512);
    assert_eq!(parse_size_string("5. KB"), 5120);
    assert_eq!(parse_size_string("15.75MB"), 16515072);
}

#[test]
fn what_is_no_size_is_nothing() {
    assert_eq!(parse_size_string(""), 0);
    assert_eq!(parse_size_string("   "), 0);
    assert_eq!(parse_size_string("N/A"), 0);
    assert_eq!(parse_size_string("n/a"), 0);
    assert_eq!(parse_size_string("MB"), 0);
    assert_eq!(parse_size_string("1.2.3 MB"), 0);
    assert_eq!(parse_size_string("1,2,3"), 0);
    assert_eq!(parse_size_string("."), 0);
}

#[test]
fn a_size_beyond_sixty_four_bits_is_capped() {
    assert_eq!(parse_size_string("18446744073709551615"), u64::MAX);
    assert_eq!(parse_size_string("18446744073709551616"), u64::MAX);
    assert_eq!(parse_size_string("99999999999999999999999999 TB"), u64::MAX);
    assert_eq!(parse_size_string("16777216 TB"), u64::MAX);
    assert_eq!(parse_size_string("16777215 TB"), 16777215 * 1099511627776);
}

#[test]
fn a_unit_holds_every_letter_of_the_text() {
    assert_eq!(parse_size_string("1 K\u{e9}B"), 1);
    assert_eq!(parse_size_string("1 K-B"), 1024);
    assert_eq!(parse_size_string("1M2B"), 12 * 1024 * 1024);
}

#[test]
fn numbers_are_written_in_decimal() {
    assert_eq!(text_of(&decimal_of(0)), "0");
    assert_eq!(text_of(&decimal_of(7)), "7");
    assert_eq!(text_of(&decimal_of(10)), "10");
    assert_eq!(text_of(&decimal_of(4294967295)), "4294967295");
    assert_eq!(text_of(&decimal_of(u128::MAX)), "340282366920938463463374607431768211455");
    assert_eq!(text_of(&signed_decimal_of(-1)), "-1");
    assert_eq!(text_of(&signed_decimal_of(0)), "0");
    assert_eq!(text_of(&signed_decimal_of(i128::MIN)), "-170141183460469231731687303715884105728");
}

#[test]
fn numbers_are_read_from_decimal() {
    assert_eq!(parse_unsigned(&chars("0"), 10), Some(0));
    assert_eq!(parse_unsigned(&chars("0042"), 100), Some(42));
    assert_eq!(parse_unsigned(&chars("+7"), 100), Some(7));
    assert_eq!(parse_unsigned(&chars("100"), 100), Some(100));
    assert_eq!(parse_unsigned(&chars("101"), 100), None);
    assert_eq!(parse_unsigned(&chars("18446744073709551615"), u64::MAX), Some(u64::MAX));
    assert_eq!(parse_unsigned(&chars("18446744073709551616"), u64::MAX), None);
    assert_eq!(parse_unsigned(&chars(""), 100), None);
    assert_eq!(parse_unsigned(&chars("+"), 100), None);
    assert_eq!(parse_unsigned(&chars("-1"), 100), None);
    assert_eq!(parse_unsigned(&chars("1 "), 100), None);
    assert_eq!(parse_unsigned(&chars("1a"), 100), None);
    assert_eq!(parse_unsigned(&chars("++1"), 100), None);
    assert_eq!(parse_unsigned(&chars("\u{661}"), 100), None);
}

#[test]
fn texts_are_trimmed_and_split() {
    assert_eq!(text_of(&trim(&chars("  a b \r\n"))), "a b");
    assert_eq!(text_of(&trim(&chars("\u{2003}x\u{feff}"))), "x\u{feff}");
    assert_eq!(text_of(&trim(&chars(" \t "))), "");
    assert_eq!(texts(split_on(&chars("a,b,,c"), ',')), vec!["a", "b", "", "c"]);
    assert_eq!(texts(split_on(&chars(""), ',')), vec![""]);
    assert_eq!(texts(split_on(&chars(","), ',')), vec!["", ""]);
    assert_eq!(texts(lines_of(&chars("a\r\nb\n\nc\r"))), vec!["a", "b", "", "c\r"]);
    assert_eq!(texts(lines_of(&chars("a\n"))), vec!["a"]);
    assert!(lines_of(&chars("")).is_empty());
    assert_eq!(texts(lines_of(&chars("\n"))), vec![""]);
    assert_eq!(texts(words_of(&chars("  one\ttwo  three "))), vec!["one", "two", "three"]);
    assert!(words_of(&chars("   ")).is_empty());
    assert_eq!(text_of(&strip_leading(&chars("vv1.2"), 'v')), "1.2");
}

#[test]
fn texts_are_searched() {
    assert_eq!(find(&chars("hello world"), &chars("o w")), Some(4));
    assert_eq!(find(&chars("aaa"), &chars("aa")), Some(0));
    assert_eq!(find(&chars("abc"), &chars("")), Some(0));
    assert_eq!(find(&chars(""), &chars("")), Some(0));
    assert_eq!(find(&chars("abc"), &chars("abcd")), None);
    assert!(includes(&chars("Intel(R) Bluetooth"), &chars("Bluetooth")));
    assert!(!includes(&chars("Intel(R) Bluetooth"), &chars("bluetooth")));
    assert!(same_chars(&chars_of("\u{e9}"), &chars("\u{e9}")));
}

#[test]
fn case_is_mapped_as_unicode_has_it() {
    assert_eq!(text_of(&lower(&chars("BlueTooth \u{c9}T\u{c9}"))), "bluetooth \u{e9}t\u{e9}");
    assert_eq!(text_of(&upper(&chars("exfat"))), "EXFAT");
    assert_eq!(text_of(&upper(&chars("stra\u{df}e"))), "STRASSE");
}

#[test]
fn texts_are_ordered_by_their_characters() {
    assert!(comes_before("KB1", "KB2"));
    assert!(comes_before("KB10", "KB2"));
    assert!(comes_before("", "a"));
    assert!(comes_before("KB", "KB1"));
    assert!(!comes_before("KB1", "KB1"));
    assert!(!comes_before("b", "a"));
    assert!(comes_before("Z", "a"));
    assert!(comes_before("z", "\u{e9}"));
    let mut names = vec!["REG-LastInstall", "KB5", "EVT-19", "KB10", "kb1", ""];
    let mut sorted = names.clone();
    sorted.sort();
    names.sort_by(|a, b| {
        if comes_before(a, b) {
            std::cmp::Ordering::Less
        } else if comes_before(b, a) {
            std::cmp::Ordering::Greater
        } else {
            std::cmp::Ordering::Equal
        }
    });
    assert_eq!(names, sorted);
}
