use winadmin_core::lexical::comes_before;
use winadmin_core::text::{
    blank, includes, has_prefix, has_suffix, lines_of, parse_unsigned, same_text, split_on,
    text_of, trim, words_of,
};

fn chars(text: &str) -> Vec<char> {
    text.chars().collect()
}

fn texts(list: Vec<Vec<char>>) -> Vec<String> {
    list.into_iter().map(|v| v.into_iter().collect()).collect()
}

const SAMPLES: [&str; 28] = [
    "",
    " ",
    "a",
    "  a  ",
    "\ta b\r\n",
    "\r\n",
    "\n\n",
    "a\nb",
    "a\r\nb\r\n",
    "a\rb",
    "a\r",
    "a\r\r\n",
    "\r",
    "one two  three",
    "\u{a0}nbsp\u{a0}",
    "\u{2003}em\u{2003}",
    "\u{3000}ideographic\u{3000}",
    "\u{85}next line\u{85}",
    "\u{1680}ogham\u{180e}",
    "\u{200b}zero width\u{200b}",
    "\u{feff}bom",
    "\u{2028}line sep\u{2029}",
    "\u{b}vertical\u{c}",
    "\u{1c}\u{1d}\u{1e}\u{1f}",
    "OK           Z:        \\\\nas\\media     Microsoft Windows Network",
    "42",
    "+42",
    "\u{e9}t\u{e9} \u{e0} No\u{eb}l",
];

#[test]
fn trimming_agrees_with_the_standard_library() {
    for sample in SAMPLES {
        assert_eq!(text_of(&trim(&chars(sample))), sample.trim(), "{:?}", sample);
        assert_eq!(blank(&chars(sample)), sample.trim().is_empty(), "{:?}", sample);
    }
}

#[test]
fn lines_agree_with_the_standard_library() {
    for sample in SAMPLES {
        let expected: Vec<String> = sample.lines().map(|l| l.to_string()).collect();
        assert_eq!(texts(lines_of(&chars(sample))), expected, "{:?}", sample);
    }
}

#[test]
fn words_agree_with_the_standard_library() {
    for sample in SAMPLES {
        let expected: Vec<String> = sample.split_whitespace().map(|l| l.to_string()).collect();
        assert_eq!(texts(words_of(&chars(sample))), expected, "{:?}", sample);
    }
}

#[test]
fn pieces_agree_with_the_standard_library() {
    for sample in SAMPLES {
        for separator in ['\n', ' ', '\\', '.', ':'] {
            let expected: Vec<String> = sample.split(separator).map(|l| l.to_string()).collect();
            assert_eq!(texts(split_on(&chars(sample), separator)), expected, "{:?}", sample);
        }
    }
}

#[test]
fn searching_agrees_with_the_standard_library() {
    let patterns = ["", " ", "a", "\r\n", "Microsoft Windows Network", "\\\\", ":", "\u{e9}", "42"];
    for sample in SAMPLES {
        for pattern in patterns {
            assert_eq!(includes(&chars(sample), &chars(pattern)), sample.contains(pattern), "{:?} in {:?}", pattern, sample);
            assert_eq!(has_prefix(&chars(sample), &chars(pattern)), sample.starts_with(pattern), "{:?} in {:?}", pattern, sample);
            assert_eq!(has_suffix(&chars(sample), &chars(pattern)), sample.ends_with(pattern), "{:?} in {:?}", pattern, sample);
        }
    }
}

#[test]
fn reading_numbers_agrees_with_the_standard_library() {
    let numerals = [
        "", "0", "00", "7", "+7", "-7", "+", "-", "++7", "7+", " 7", "7 ", "1_000", "0x10", "1e3", "1.0",
        "4294967295", "4294967296", "18446744073709551615", "18446744073709551616",
        "000000000000000000000000018446744073709551615", "\u{ff11}", "\u{0661}",
    ];
    for numeral in numerals {
        assert_eq!(parse_unsigned(&chars(numeral), u64::MAX), numeral.parse::<u64>().ok(), "{:?}", numeral);
        assert_eq!(
            parse_unsigned(&chars(numeral), 4294967295),
            numeral.parse::<u32>().ok().map(u64::from),
            "{:?}",
            numeral
        );
        assert_eq!(
            parse_unsigned(&chars(numeral), 255),
            numeral.parse::<u8>().ok().map(u64::from),
            "{:?}",
            numeral
        );
    }
}

#[test]
fn order_and_equality_agree_with_the_standard_library() {
    for a in SAMPLES {
        for b in SAMPLES {
            assert_eq!(comes_before(a, b), a < b, "{:?} before {:?}", a, b);
            assert_eq!(same_text(a, b), a == b, "{:?} and {:?}", a, b);
        }
    }
}
