use linux_kernel_monitor::text::{
    bool_str, char_is_whitespace, decimal_string, parse_bool, parse_u8, push_decimal, str_eq,
    to_chars, tokenize,
};

#[test]
fn whitespace_is_the_white_space_property() {
    let mut code: u32 = 0;
    while code <= 0x10FFFF {
        if let Some(c) = char::from_u32(code) {
            assert_eq!(char_is_whitespace(c), c.is_whitespace(), "U+{:04X}", code);
        }
        code += 1;
    }
}

#[test]
fn tokenize_splits_like_split_whitespace() {
    let lines = [
        "",
        " ",
        "\n",
        "start",
        "start\n",
        "  set   cpu\t9  true \r\n",
        "set cpu 9 9",
        "a\u{00A0}b\u{3000}c",
        "\u{2003}lead and trail\u{2003}",
        "x",
        " x",
        "x ",
        "stop memory extra words here",
        "日本 語",
    ];
    for line in lines {
        let expected: Vec<String> = line.split_whitespace().map(|s| s.to_string()).collect();
        assert_eq!(tokenize(line), expected, "{:?}", line);
    }
}

#[test]
fn tokenize_exact_values() {
    assert_eq!(tokenize("set cpu 9 9\n"), vec!["set", "cpu", "9", "9"]);
    assert_eq!(tokenize("   "), Vec::<String>::new());
    assert_eq!(tokenize("one"), vec!["one"]);
}

#[test]
fn parse_u8_agrees_with_std() {
    let mut words: Vec<String> = Vec::new();
    for n in 0..400u32 {
        words.push(n.to_string());
        words.push(format!("+{}", n));
        words.push(format!("-{}", n));
        words.push(format!("0{}", n));
        words.push(format!("000{}", n));
        words.push(format!("{} ", n));
        words.push(format!(" {}", n));
        words.push(format!("{}a", n));
    }
    for w in ["", "+", "-", "++1", "+-1", "1_0", "0x10", "٣", "255", "256", "0255", "00000000000000000000000255", "99999999999999999999999999", "true", "1.0", "1e2"] {
        words.push(w.to_string());
    }
    for w in words {
        assert_eq!(parse_u8(&w), w.parse::<u8>().ok(), "{:?}", w);
    }
}

#[test]
fn parse_u8_exact_values() {
    assert_eq!(parse_u8("0"), Some(0));
    assert_eq!(parse_u8("9"), Some(9));
    assert_eq!(parse_u8("255"), Some(255));
    assert_eq!(parse_u8("+7"), Some(7));
    assert_eq!(parse_u8("007"), Some(7));
    assert_eq!(parse_u8("256"), None);
    assert_eq!(parse_u8("-1"), None);
    assert_eq!(parse_u8(""), None);
    assert_eq!(parse_u8("+"), None);
    assert_eq!(parse_u8("nine"), None);
}

#[test]
fn parse_bool_agrees_with_std() {
    for w in ["true", "false", "True", "FALSE", "", "1", "0", "yes", "true ", " false", "tru", "falsee"] {
        assert_eq!(parse_bool(w), w.parse::<bool>().ok(), "{:?}", w);
    }
    assert_eq!(parse_bool("true"), Some(true));
    assert_eq!(parse_bool("false"), Some(false));
    assert_eq!(parse_bool("maybe"), None);
}

#[test]
fn bool_words_round_trip() {
    assert_eq!(bool_str(true), "true");
    assert_eq!(bool_str(false), "false");
    assert_eq!(parse_bool(bool_str(true)), Some(true));
    assert_eq!(parse_bool(bool_str(false)), Some(false));
}

#[test]
fn decimal_string_agrees_with_std() {
    for n in 0..=1000u64 {
        assert_eq!(decimal_string(n), n.to_string());
    }
    for n in [u64::MAX, u64::MAX - 1, 10_000_000_000, 9_999_999_999, 1 << 32, 18_446_744_073_709_551_615] {
        assert_eq!(decimal_string(n), n.to_string());
    }
    assert_eq!(decimal_string(0), "0");
    assert_eq!(decimal_string(255), "255");
}

#[test]
fn decimal_of_a_rate_parses_back() {
    for n in 0..=255u8 {
        assert_eq!(parse_u8(&decimal_string(n as u64)), Some(n));
    }
}

#[test]
fn push_decimal_appends() {
    let mut s = String::from("rate ");
    push_decimal(&mut s, 42);
    assert_eq!(s, "rate 42");
    push_decimal(&mut s, 0);
    assert_eq!(s, "rate 420");
}

#[test]
fn str_eq_compares_characters() {
    assert!(str_eq("cpu", "cpu"));
    assert!(!str_eq("cpu", "cpu "));
    assert!(!str_eq("cpu", "CPU"));
    assert!(str_eq("", ""));
    assert!(!str_eq("", "a"));
}

#[test]
fn to_chars_lists_characters() {
    assert_eq!(to_chars("a1é"), vec!['a', '1', 'é']);
    assert_eq!(to_chars(""), Vec::<char>::new());
}
