use rutzo::power::parse_power;

#[test]
fn plain_numbers_are_read() {
    assert_eq!(parse_power("0"), Some(0));
    assert_eq!(parse_power("7"), Some(7));
    assert_eq!(parse_power("10"), Some(10));
    assert_eq!(parse_power("255"), Some(255));
}

#[test]
fn plus_sign_and_leading_zeros_are_accepted() {
    assert_eq!(parse_power("+42"), Some(42));
    assert_eq!(parse_power("007"), Some(7));
    assert_eq!(parse_power("+000255"), Some(255));
}

#[test]
fn numbers_above_255_are_refused() {
    assert_eq!(parse_power("256"), None);
    assert_eq!(parse_power("1000"), None);
    assert_eq!(parse_power("99999999999999999999999999"), None);
}

#[test]
fn anything_else_is_refused() {
    for text in ["", "+", "-", "-1", "++1", "1+", " 1", "1 ", "1a", "a", "0x10", "1.0", "٣", "1٣"] {
        assert_eq!(parse_power(text), None, "{:?}", text);
    }
}

#[test]
fn reading_agrees_with_the_standard_parser() {
    let mut samples: Vec<String> = (0..400u32).map(|n| n.to_string()).collect();
    for s in ["+0", "+255", "+256", "00", "0255", "2550", "25a", "+", "-0", "+-1", "", "12 "] {
        samples.push(s.to_string());
    }
    for s in samples {
        assert_eq!(parse_power(&s), s.parse::<u8>().ok(), "{:?}", s);
    }
}
