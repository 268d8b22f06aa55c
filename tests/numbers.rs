use carbide::decimal::{parse_fixed, parse_uint, push_decimal, push_fixed, Fixed};
use carbide::text::to_chars;

fn fixed(s: &str) -> Option<Fixed> {
    let c = to_chars(s);
    parse_fixed(&c, 0, c.len())
}

fn uint(s: &str, max: u64) -> Option<u64> {
    let c = to_chars(s);
    parse_uint(&c, 0, c.len(), max)
}

#[test]
fn number_texts() {
    assert_eq!(fixed("0"), Some(Fixed { raw: 0 }));
    assert_eq!(fixed("23.036"), Some(Fixed { raw: 23_036_000 }));
    assert_eq!(fixed("-0.5"), Some(Fixed { raw: -500_000 }));
    assert_eq!(fixed("+2"), Some(Fixed { raw: 2_000_000 }));
    assert_eq!(fixed(".25"), Some(Fixed { raw: 250_000 }));
    assert_eq!(fixed("7."), Some(Fixed { raw: 7_000_000 }));
    assert_eq!(fixed("0.000001"), Some(Fixed { raw: 1 }));
    assert_eq!(fixed("1000000000"), Some(Fixed { raw: 1_000_000_000_000_000 }));
    assert_eq!(fixed("1000000000.000001"), None);
    assert_eq!(fixed("0.0000001"), None);
    assert_eq!(fixed(""), None);
    assert_eq!(fixed("-"), None);
    assert_eq!(fixed("."), None);
    assert_eq!(fixed("1e3"), None);
    assert_eq!(fixed("1.2.3"), None);
}

#[test]
fn unsigned_texts() {
    assert_eq!(uint("255", 255), Some(255));
    assert_eq!(uint("256", 255), None);
    assert_eq!(uint("007", 255), Some(7));
    assert_eq!(uint("", 255), None);
    assert_eq!(uint("1a", 255), None);
    assert_eq!(uint("18446744073709551615", u64::MAX), Some(u64::MAX));
}

#[test]
fn rendering() {
    let mut s = String::new();
    push_decimal(&mut s, 0);
    s.push(' ');
    push_decimal(&mut s, 1234567);
    s.push(' ');
    push_fixed(&mut s, Fixed { raw: -1 });
    s.push(' ');
    push_fixed(&mut s, Fixed { raw: i64::MIN });
    assert_eq!(s, "0 1234567 -0.000001 -9223372036854.775808");
}
