use mitsuba_rs::number::{decimal_chars, hex_to_int, is_number_chars, parse_i32_chars, to_u32};
use mitsuba_rs::text::{
    chars_of, contains_char, is_space_char, split_chars, str_eq, sub_chars, trim_chars, words_of,
};
use mitsuba_rs::Number;

fn text(v: &Vec<char>) -> String {
    v.iter().collect()
}

fn texts(v: &Vec<Vec<char>>) -> Vec<String> {
    v.iter().map(text).collect()
}

#[test]
fn white_space_is_what_std_calls_white_space() {
    for code in 0u32..0x3100 {
        if let Some(c) = char::from_u32(code) {
            assert_eq!(is_space_char(c), c.is_whitespace(), "{:#x}", code);
        }
    }
}

#[test]
fn trimming_is_as_std_trims() {
    for s in ["", " ", "a", "  a b  ", "\t\nx\r\n", "\u{a0}x\u{2003}", "   ", "a  "] {
        assert_eq!(text(&trim_chars(&chars_of(s))), s.trim(), "{:?}", s);
    }
}

#[test]
fn splitting_is_as_std_splits() {
    for s in ["", ",", "a", "a,b", "a,,b", ",a,", "1, 2, 3", "a b"] {
        let expected: Vec<String> = s.split(',').map(|p| p.to_string()).collect();
        assert_eq!(texts(&split_chars(&chars_of(s), ',')), expected, "{:?}", s);
    }
}

#[test]
fn words_are_as_std_splits_at_white_space() {
    for s in ["", " ", "a", " a  b ", "1 2\t3\n4", "  x", "x  ", "a\u{a0}b"] {
        let expected: Vec<String> = s.split_whitespace().map(|p| p.to_string()).collect();
        assert_eq!(texts(&words_of(&chars_of(s))), expected, "{:?}", s);
    }
}

#[test]
fn characters_and_ranges() {
    let v = chars_of("héllo");
    assert_eq!(v, vec!['h', 'é', 'l', 'l', 'o']);
    assert_eq!(text(&sub_chars(&v, 1, 3)), "él");
    assert!(contains_char(&v, 'é'));
    assert!(!contains_char(&v, 'x'));
}

#[test]
fn strings_are_equal_when_their_characters_are() {
    assert!(str_eq("", ""));
    assert!(str_eq("float", "float"));
    assert!(!str_eq("float", "floa"));
    assert!(!str_eq("float", "floaT"));
    assert!(str_eq("é", "é"));
    assert!(!str_eq("e", "é"));
}

#[test]
fn literals_of_real_numbers_are_what_std_parses() {
    let samples = [
        "0", "1", "-1", "+1", "1.", ".5", "1.5", "-0.25", "1e5", "1E5", "1e+5", "1e-5", "1.5e10",
        ".5e1", "5.e1", "inf", "-inf", "+inf", "Inf", "INF", "infinity", "Infinity", "-INFINITY",
        "nan", "NaN", "-nan", "+NaN", "", ".", "+", "-", "e5", "1e", "1e+", "1e5.5", "1..2",
        "1.2.3", " 1", "1 ", "1_000", "0x10", "1f", "--1", "+-1", "in", "infinit", "nane", "1,5",
        "１", "1e", ".e1", "+.", "00012", "1e0002", "4.38534e-12", "-3.64587e-12",
    ];
    for s in samples {
        assert_eq!(is_number_chars(&chars_of(s)), s.parse::<f32>().is_ok(), "{:?}", s);
        assert_eq!(Number::parse(s).is_some(), s.parse::<f32>().is_ok(), "{:?}", s);
    }
    assert_eq!(Number::parse("1.5e3").unwrap().text, "1.5e3");
}

#[test]
fn integers_are_what_std_parses() {
    let samples = [
        "0", "1", "-1", "+1", "007", "-0", "2147483647", "2147483648", "-2147483648",
        "-2147483649", "99999999999999999999999", "-99999999999999999999999", "", "+", "-", "1.0",
        " 1", "1 ", "1a", "a1", "--1", "+-1", "0x10", "1_0", "4294967296", "21474836470",
    ];
    for s in samples {
        assert_eq!(parse_i32_chars(&chars_of(s)), s.parse::<i32>().ok(), "{:?}", s);
    }
}

#[test]
fn hexadecimal_digits() {
    assert_eq!(hex_to_int('0'), Some(0));
    assert_eq!(hex_to_int('9'), Some(9));
    assert_eq!(hex_to_int('a'), Some(10));
    assert_eq!(hex_to_int('F'), Some(15));
    assert_eq!(hex_to_int('g'), None);
    assert_eq!(hex_to_int(' '), None);
    for c in ['0', '5', 'a', 'c', 'f', 'A', 'D', 'F'] {
        assert_eq!(hex_to_int(c).map(|v| v as u32), c.to_digit(16));
    }
}

#[test]
fn numbers_in_base_ten() {
    for n in [0usize, 1, 9, 10, 11, 99, 100, 12345, 4294967295] {
        assert_eq!(text(&decimal_chars(n)), n.to_string());
    }
}

#[test]
fn negative_integers_keep_their_bits() {
    assert_eq!(to_u32(0), 0);
    assert_eq!(to_u32(256), 256);
    assert_eq!(to_u32(-1), 4294967295);
    assert_eq!(to_u32(i32::MIN), 2147483648);
    assert_eq!(to_u32(i32::MAX), 2147483647);
}
