use swapi::text::parse_i64;
use swapi::text::parse_u16;
use swapi::text::parse_u64;
use swapi::text::same_text;

fn samples() -> Vec<String> {
    let mut all: Vec<String> = [
        "", "0", "1", "7", "9", "10", "42", "007", "+", "-", "+-1", "-+1", "++1", "--1", "+0", "-0",
        "+1", "-1", "1+", "1-", " 1", "1 ", "1 2", "1_000", "1,000", "1.0", "1e3", "0x10", "a", "1a",
        "a1", "\u{663}", "\u{ff11}", "1\u{e9}", "\u{2212}1", "65535", "65536", "065535", "+65535",
        "-65535", "99999", "4294967295", "4294967296", "9223372036854775806", "9223372036854775807",
        "9223372036854775808", "9223372036854775809", "-9223372036854775807",
        "-9223372036854775808", "-9223372036854775809", "+9223372036854775807",
        "+9223372036854775808", "18446744073709551614", "18446744073709551615",
        "18446744073709551616", "18446744073709551625", "+18446744073709551615",
        "-18446744073709551615", "00000000000000000000000000000000000000001",
        "99999999999999999999999999999999999999999", "-99999999999999999999999999999999999999999",
        "184467440737095516150", "92233720368547758070", "\n1", "1\n", "\t", "0 ", "٣", "１",
    ]
    .iter()
    .map(|s| String::from(*s))
    .collect();
    for n in [0i128, 1, 9, 10, 99, 100, 255, 256, 32767, 32768, 65534, 65535, 65536, 65537, 100000] {
        all.push(format!("{}", n));
        all.push(format!("-{}", n));
        all.push(format!("+{}", n));
        all.push(format!("0{}", n));
    }
    for shift in 0..70u32 {
        let n: i128 = 1i128 << shift;
        for m in [n - 1, n, n + 1] {
            all.push(format!("{}", m));
            all.push(format!("-{}", m));
            all.push(format!("+{}", m));
        }
    }
    all
}

#[test]
fn same_characters_are_the_same_text() {
    assert!(same_text("", ""));
    assert!(same_text("all", "all"));
    assert!(same_text("Dagobah \u{1f438}", "Dagobah \u{1f438}"));
}

#[test]
fn different_characters_are_different_texts() {
    assert!(!same_text("all", "al"));
    assert!(!same_text("al", "all"));
    assert!(!same_text("all", "alL"));
    assert!(!same_text("", " "));
    assert!(!same_text("\u{e9}", "e"));
    assert!(!same_text("\u{e9}", "\u{e8}"));
}

#[test]
fn signed_numbers_are_read() {
    assert_eq!(parse_i64("1"), Some(1));
    assert_eq!(parse_i64("-42"), Some(-42));
    assert_eq!(parse_i64("+42"), Some(42));
    assert_eq!(parse_i64("-0"), Some(0));
    assert_eq!(parse_i64("0012"), Some(12));
    assert_eq!(parse_i64("9223372036854775807"), Some(i64::MAX));
    assert_eq!(parse_i64("-9223372036854775808"), Some(i64::MIN));
}

#[test]
fn what_is_no_signed_number_is_not_read() {
    assert_eq!(parse_i64(""), None);
    assert_eq!(parse_i64("-"), None);
    assert_eq!(parse_i64("+"), None);
    assert_eq!(parse_i64("1 "), None);
    assert_eq!(parse_i64(" 1"), None);
    assert_eq!(parse_i64("1.5"), None);
    assert_eq!(parse_i64("--1"), None);
    assert_eq!(parse_i64("9223372036854775808"), None);
    assert_eq!(parse_i64("-9223372036854775809"), None);
}

#[test]
fn unsigned_numbers_are_read() {
    assert_eq!(parse_u16("8080"), Some(8080));
    assert_eq!(parse_u16("+80"), Some(80));
    assert_eq!(parse_u16("65535"), Some(u16::MAX));
    assert_eq!(parse_u16("65536"), None);
    assert_eq!(parse_u16("-1"), None);
    assert_eq!(parse_u16("-0"), None);
    assert_eq!(parse_u16(""), None);
    assert_eq!(parse_u64("604800"), Some(604800));
    assert_eq!(parse_u64("18446744073709551615"), Some(u64::MAX));
    assert_eq!(parse_u64("18446744073709551616"), None);
    assert_eq!(parse_u64("-0"), None);
}

#[test]
fn signed_reading_agrees_with_the_standard_library() {
    for s in samples() {
        assert_eq!(parse_i64(&s), s.parse::<i64>().ok(), "on {:?}", s);
    }
}

#[test]
fn unsigned_reading_agrees_with_the_standard_library() {
    for s in samples() {
        assert_eq!(parse_u16(&s), s.parse::<u16>().ok(), "on {:?}", s);
        assert_eq!(parse_u64(&s), s.parse::<u64>().ok(), "on {:?}", s);
    }
}
