use open_cypher::decode::{matches_float_lexeme, decode_escape, parse_boolean, parse_hex_digit, parse_integer};

#[test]
fn integers_are_read_by_value() {
    assert_eq!(parse_integer("0"), Some(0));
    assert_eq!(parse_integer("42"), Some(42));
    assert_eq!(parse_integer("+42"), Some(42));
    assert_eq!(parse_integer("-42"), Some(-42));
    assert_eq!(parse_integer("0042"), Some(42));
    assert_eq!(parse_integer("-0"), Some(0));
    assert_eq!(parse_integer("1234567890123456789"), Some(1234567890123456789));
}

#[test]
fn integers_at_the_limits() {
    assert_eq!(parse_integer("9223372036854775807"), Some(i64::MAX));
    assert_eq!(parse_integer("-9223372036854775808"), Some(i64::MIN));
    assert_eq!(parse_integer("-9223372036854775807"), Some(i64::MIN + 1));
    assert_eq!(parse_integer("9223372036854775808"), None);
    assert_eq!(parse_integer("-9223372036854775809"), None);
    assert_eq!(parse_integer("18446744073709551616"), None);
    assert_eq!(parse_integer("99999999999999999999999999999999"), None);
}

#[test]
fn text_that_is_no_integer() {
    for text in ["", "+", "-", "--1", "+-1", "1 ", " 1", "1_000", "0x1F", "1.0", "1e3", "a", "12a", "١٢"] {
        assert_eq!(parse_integer(text), None, "{:?}", text);
    }
}

#[test]
fn integer_reading_agrees_with_the_standard_library() {
    for text in ["0", "7", "-7", "+7", "007", "9223372036854775807", "-9223372036854775808", "9223372036854775808", "", "-", "x", "1x", "٣"] {
        assert_eq!(parse_integer(text), text.parse::<i64>().ok(), "{:?}", text);
    }
}

#[test]
fn booleans_are_spelled_exactly() {
    assert_eq!(parse_boolean("true"), Some(true));
    assert_eq!(parse_boolean("false"), Some(false));
    for text in ["", "TRUE", "True", "FALSE", "tru", "truee", "falsy", "yes", " true", "t"] {
        assert_eq!(parse_boolean(text), None, "{:?}", text);
        assert_eq!(parse_boolean(text), text.parse::<bool>().ok(), "{:?}", text);
    }
}

#[test]
fn hex_digits() {
    assert_eq!(parse_hex_digit('0'), Some(0));
    assert_eq!(parse_hex_digit('9'), Some(9));
    assert_eq!(parse_hex_digit('a'), Some(10));
    assert_eq!(parse_hex_digit('f'), Some(15));
    assert_eq!(parse_hex_digit('A'), Some(10));
    assert_eq!(parse_hex_digit('F'), Some(15));
    for c in ['g', 'G', ' ', '/', ':', '@', '`', '+', 'é'] {
        assert_eq!(parse_hex_digit(c), None, "{:?}", c);
    }
}

#[test]
fn letter_escapes() {
    let decoded = |text: &str| decode_escape(text);
    assert_eq!(decoded("\\'"), Some("'".to_string()));
    assert_eq!(decoded("\\\""), Some("\"".to_string()));
    assert_eq!(decoded("\\b"), Some("\u{8}".to_string()));
    assert_eq!(decoded("\\B"), Some("\u{8}".to_string()));
    assert_eq!(decoded("\\f"), Some("\u{c}".to_string()));
    assert_eq!(decoded("\\F"), Some("\u{c}".to_string()));
    assert_eq!(decoded("\\n"), Some("\n".to_string()));
    assert_eq!(decoded("\\N"), Some("\n".to_string()));
    assert_eq!(decoded("\\r"), Some("\r".to_string()));
    assert_eq!(decoded("\\R"), Some("\r".to_string()));
    assert_eq!(decoded("\\t"), Some("\t".to_string()));
    assert_eq!(decoded("\\T"), Some("\t".to_string()));
}

#[test]
fn unicode_escapes() {
    assert_eq!(decode_escape("\\u0041"), Some("A".to_string()));
    assert_eq!(decode_escape("\\U0041"), Some("A".to_string()));
    assert_eq!(decode_escape("\\u00e9"), Some("é".to_string()));
    assert_eq!(decode_escape("\\u00E9"), Some("é".to_string()));
    assert_eq!(decode_escape("\\uFFFF"), Some("\u{FFFF}".to_string()));
    assert_eq!(decode_escape("\\uD7FF"), Some("\u{D7FF}".to_string()));
    assert_eq!(decode_escape("\\uE000"), Some("\u{E000}".to_string()));
    assert_eq!(decode_escape("\\U0001F600"), Some("\u{1F600}".to_string()));
    assert_eq!(decode_escape("\\u0001f600"), Some("\u{1F600}".to_string()));
    assert_eq!(decode_escape("\\U0010FFFF"), Some("\u{10FFFF}".to_string()));
    assert_eq!(decode_escape("\\u0000"), Some("\u{0}".to_string()));
}

#[test]
fn text_that_is_no_escape() {
    for text in [
        "", "\\", "n", "\\\\", "\\x", "\\0", "\\u", "\\u41", "\\u004", "\\u00411", "\\u004g", "\\u+041",
        "\\uD800", "\\uDFFF", "\\U00110000", "\\UFFFFFFFF", "\\U0001F60", "\\U0001F6000", "/u0041",
        "\\nn", "\\é", "\\u00é1",
    ] {
        assert_eq!(decode_escape(text), None, "{:?}", text);
    }
}

#[test]
fn floating_point_lexemes() {
    for text in [
        "0", "1", "1.", "1.5", ".5", "+1.5", "-1.5", "1e5", "1E5", "1e+5", "1e-5", "1.e5", ".5e5", "1.5E-10",
        "inf", "+inf", "-inf", "INF", "Infinity", "-infinity", "nan", "NaN", "+NAN", "007.5",
    ] {
        assert!(matches_float_lexeme(text), "{:?}", text);
        assert!(text.parse::<f64>().is_ok(), "{:?}", text);
    }
}

#[test]
fn text_that_is_no_floating_point_lexeme() {
    for text in [
        "", "+", "-", ".", "+.", "e5", ".e5", "1e", "1e+", "1e-", "1.5.5", "1..5", "1 ", " 1", "1f", "0x10",
        "in", "infinit", "infinityy", "na", "nann", "--1", "1e5.5", "1_0", "١", "1e5e5", "+-1",
    ] {
        assert!(!matches_float_lexeme(text), "{:?}", text);
        assert!(text.parse::<f64>().is_err(), "{:?}", text);
    }
}
