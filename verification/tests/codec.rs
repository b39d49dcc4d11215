//! The fan-curve wire encoding, the decimal parser and the text helpers.

use aorus_gateway::curve::{parse_fan_curve_data, CurveDataError, FanCurvePoint};
use aorus_gateway::parse::{parse_u16, parse_u8};
use aorus_gateway::text::{concat_str, split_whitespace_tokens, str_eq, trim_str};

#[test]
fn packing_puts_speed_high_and_temperature_low() {
    let p = FanCurvePoint { temperature: 30, speed: 40 };
    assert_eq!(p.pack(), 40 * 256 + 30);
    assert_eq!(FanCurvePoint { temperature: 0, speed: 0 }.pack(), 0);
    assert_eq!(FanCurvePoint { temperature: 255, speed: 255 }.pack(), 65535);
}

#[test]
fn unpacking_reverses_the_encoding() {
    let p = FanCurvePoint::unpack(40 * 256 + 30);
    assert_eq!(p, FanCurvePoint { temperature: 30, speed: 40 });
}

#[test]
fn pack_unpack_round_trips_everywhere() {
    for t in 0..=255u16 {
        for s in 0..=255u16 {
            let p = FanCurvePoint { temperature: t as u8, speed: s as u8 };
            assert_eq!(FanCurvePoint::unpack(p.pack()), p);
        }
    }
}

#[test]
fn unpack_pack_round_trips_everywhere() {
    for v in 0..=65535u32 {
        assert_eq!(FanCurvePoint::unpack(v as u16).pack(), v as u16);
    }
}

#[test]
fn curve_data_line_parses_two_fields() {
    assert_eq!(
        parse_fan_curve_data("30 40"),
        Ok(FanCurvePoint { temperature: 30, speed: 40 })
    );
    assert_eq!(
        parse_fan_curve_data("  30\t40\n"),
        Ok(FanCurvePoint { temperature: 30, speed: 40 })
    );
    assert_eq!(parse_fan_curve_data("30"), Err(CurveDataError::Format));
    assert_eq!(parse_fan_curve_data("30 40 50"), Err(CurveDataError::Format));
    assert_eq!(parse_fan_curve_data(""), Err(CurveDataError::Format));
    assert_eq!(parse_fan_curve_data("300 40"), Err(CurveDataError::Temperature));
    assert_eq!(parse_fan_curve_data("30 400"), Err(CurveDataError::Speed));
    assert_eq!(parse_fan_curve_data("x 40"), Err(CurveDataError::Temperature));
}

#[test]
fn decimal_parser_matches_unsigned_parse() {
    assert_eq!(parse_u16("0"), Some(0));
    assert_eq!(parse_u16("65535"), Some(65535));
    assert_eq!(parse_u16("65536"), None);
    assert_eq!(parse_u16("+5"), Some(5));
    assert_eq!(parse_u16("007"), Some(7));
    assert_eq!(parse_u16(""), None);
    assert_eq!(parse_u16("+"), None);
    assert_eq!(parse_u16("-1"), None);
    assert_eq!(parse_u16("1 "), None);
    assert_eq!(parse_u16("99999999999999999999"), None);
    assert_eq!(parse_u8("255"), Some(255));
    assert_eq!(parse_u8("256"), None);
}

#[test]
fn trimming_strips_surrounding_whitespace_only() {
    assert_eq!(trim_str("142\n"), "142");
    assert_eq!(trim_str("  a b\t c  \r\n"), "a b\t c");
    assert_eq!(trim_str("   \n\t"), "");
    assert_eq!(trim_str(""), "");
    assert_eq!(trim_str("x"), "x");
}

#[test]
fn tokenizing_splits_on_whitespace_runs() {
    assert_eq!(split_whitespace_tokens("30 40"), vec!["30", "40"]);
    assert_eq!(split_whitespace_tokens("  a \t b  c "), vec!["a", "b", "c"]);
    assert!(split_whitespace_tokens("   ").is_empty());
}

#[test]
fn string_comparison_is_exact() {
    assert!(str_eq("fan_mode", "fan_mode"));
    assert!(!str_eq("fan_mode", "fan_mode "));
    assert!(!str_eq("fan_mode", "FAN_MODE"));
    assert_eq!(concat_str("ab", "cd"), "abcd");
}
