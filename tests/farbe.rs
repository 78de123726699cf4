use farbe::cli::{choose_color, dimension, run, Channel, Problem, DEFAULT_HEIGHT, DEFAULT_WIDTH};
use farbe::color::Color;
use farbe::hex::{hex2, hex_color};
use farbe::number::{from_hex, is_hex_digit, parse_u8, parse_u8_radix, ParseError};
use farbe::render::{preview_color, push_decimal};

fn rgb(red: u8, green: u8, blue: u8) -> Color {
    Color::new(red, green, blue)
}

#[test]
fn hex_with_hash_parses() {
    assert_eq!(hex_color("#FF0000"), Ok(rgb(255, 0, 0)));
}

#[test]
fn hex_without_hash_parses() {
    assert_eq!(hex_color("00ff00"), Ok(rgb(0, 255, 0)));
}

#[test]
fn hex_mixed_case_groups() {
    assert_eq!(hex_color("#1a2B3c"), Ok(rgb(0x1a, 0x2b, 0x3c)));
}

#[test]
fn hex_trailing_text_is_ignored() {
    assert_eq!(hex_color("#123456zz"), Ok(rgb(0x12, 0x34, 0x56)));
    assert_eq!(hex_color("abcdef0"), Ok(rgb(0xab, 0xcd, 0xef)));
}

#[test]
fn hex_short_text_fails() {
    assert_eq!(hex_color(""), Err(ParseError));
    assert_eq!(hex_color("#"), Err(ParseError));
    assert_eq!(hex_color("#FFF"), Err(ParseError));
    assert_eq!(hex_color("12345"), Err(ParseError));
    assert_eq!(hex_color("#12345"), Err(ParseError));
}

#[test]
fn hex_non_hex_char_fails() {
    assert_eq!(hex_color("#GG0000"), Err(ParseError));
    assert_eq!(hex_color("12345g"), Err(ParseError));
    assert_eq!(hex_color("12 456"), Err(ParseError));
    assert_eq!(hex_color("##123456"), Err(ParseError));
    assert_eq!(hex_color("+12345"), Err(ParseError));
}

#[test]
fn hex2_reads_a_pair() {
    assert_eq!(hex2("x7fz", 1), Ok(0x7f));
    assert_eq!(hex2("ab", 0), Ok(0xab));
    assert_eq!(hex2("ab", 1), Err(ParseError));
    assert_eq!(hex2("a", 0), Err(ParseError));
    assert_eq!(hex2("+f", 0), Err(ParseError));
}

#[test]
fn from_hex_values() {
    assert_eq!(from_hex("ff"), Ok(255));
    assert_eq!(from_hex("0A"), Ok(10));
    assert_eq!(from_hex("0ff"), Ok(255));
    assert_eq!(from_hex("+f"), Ok(15));
    assert_eq!(from_hex("100"), Err(ParseError));
    assert_eq!(from_hex(""), Err(ParseError));
    assert_eq!(from_hex("+"), Err(ParseError));
    assert_eq!(from_hex("g1"), Err(ParseError));
}

#[test]
fn parse_u8_values() {
    assert_eq!(parse_u8("0"), Ok(0));
    assert_eq!(parse_u8("255"), Ok(255));
    assert_eq!(parse_u8("+7"), Ok(7));
    assert_eq!(parse_u8("007"), Ok(7));
    assert_eq!(parse_u8("256"), Err(ParseError));
    assert_eq!(parse_u8("999"), Err(ParseError));
    assert_eq!(parse_u8("-1"), Err(ParseError));
    assert_eq!(parse_u8("abc"), Err(ParseError));
    assert_eq!(parse_u8("1a"), Err(ParseError));
    assert_eq!(parse_u8(""), Err(ParseError));
    assert_eq!(parse_u8(" 1"), Err(ParseError));
}

#[test]
fn parse_u8_radix_other_bases() {
    assert_eq!(parse_u8_radix("11111111", 2), Ok(255));
    assert_eq!(parse_u8_radix("2", 2), Err(ParseError));
    assert_eq!(parse_u8_radix("z", 36), Ok(35));
    assert_eq!(parse_u8_radix("Z", 36), Ok(35));
}

#[test]
fn hex_digit_classes() {
    for c in ['0', '9', 'a', 'f', 'A', 'F'] {
        assert!(is_hex_digit(c));
    }
    for c in ['g', 'G', '#', ' ', '+', 'z'] {
        assert!(!is_hex_digit(c));
    }
}

#[test]
fn decimal_writing() {
    let mut out = String::from("x");
    push_decimal(&mut out, 0);
    push_decimal(&mut out, 7);
    out.push(',');
    push_decimal(&mut out, 42);
    out.push(',');
    push_decimal(&mut out, 100);
    out.push(',');
    push_decimal(&mut out, 255);
    assert_eq!(out, "x07,42,100,255");
}

#[test]
fn render_red_three_wide_one_high() {
    assert_eq!(preview_color(&rgb(255, 0, 0), 3, 1), "\x1b[48;2;255;0;0m   \x1b[0m\n");
}

#[test]
fn render_zero_width() {
    assert_eq!(
        preview_color(&rgb(1, 2, 3), 0, 2),
        "\x1b[48;2;1;2;3m\x1b[0m\n\x1b[48;2;1;2;3m\x1b[0m\n"
    );
}

#[test]
fn render_zero_height() {
    assert_eq!(preview_color(&rgb(1, 2, 3), 10, 0), "");
}

#[test]
fn render_largest_block() {
    let text = preview_color(&rgb(9, 99, 200), 255, 255);
    let line = format!("\x1b[48;2;9;99;200m{}\x1b[0m\n", " ".repeat(255));
    assert_eq!(text, line.repeat(255));
}

#[test]
fn color_to_string_widths() {
    let c = rgb(10, 20, 30);
    assert_eq!(c.to_string(), "\x1b[48;2;10;20;30m \x1b[0m");
    assert_eq!(c.to_string_with_width(4), "\x1b[48;2;10;20;30m    \x1b[0m");
}

#[test]
fn dimension_fallbacks() {
    assert_eq!(dimension(None, 10), (10, false));
    assert_eq!(dimension(Some("3"), 10), (3, false));
    assert_eq!(dimension(Some("abc"), 10), (10, true));
    assert_eq!(dimension(Some("256"), 5), (5, true));
}

#[test]
fn channels_are_checked_in_order() {
    let e = choose_color(None, Some("1"), Some("x"), Some("y")).unwrap_err();
    assert_eq!(e.problem, Problem::Channel(Channel::Green));
    assert_eq!(e.value, "x");
    let e = choose_color(None, Some("1"), Some("2"), Some("300")).unwrap_err();
    assert_eq!(e.problem, Problem::Channel(Channel::Blue));
    assert_eq!(e.message(), "Invalid value for blue: 300");
    assert_eq!(choose_color(None, Some("1"), Some("2"), Some("3")).unwrap(), rgb(1, 2, 3));
}

#[test]
fn hex_takes_precedence_over_channels() {
    let c = choose_color(Some("#010203"), Some("9"), Some("9"), Some("9")).unwrap();
    assert_eq!(c, rgb(1, 2, 3));
    let e = choose_color(Some("#01"), Some("9"), Some("9"), Some("9")).unwrap_err();
    assert_eq!(e.problem, Problem::Hex);
    assert_eq!(e.message(), "Invalid value for hex: #01");
}

#[test]
fn red_out_of_range_fails() {
    let out = run(None, None, None, Some("999"), Some("0"), Some("0"));
    assert_eq!(out.exit_code(), 1);
    let message = out.result.unwrap_err();
    assert_eq!(message, "Invalid value for red: 999");
    assert!(message.contains("red") && message.contains("999"));
}

#[test]
fn no_color_prints_usage() {
    let out = run(None, None, None, Some("1"), None, Some("3"));
    assert_eq!(out.exit_code(), 1);
    assert_eq!(out.result.unwrap_err(), "`farbe --help` to show usage");
    let out = run(Some("2"), Some("2"), None, None, None, None);
    assert_eq!(out.exit_code(), 1);
    assert!(out.warnings.is_empty());
}

#[test]
fn bad_width_warns_and_uses_default() {
    let out = run(Some("abc"), Some("1"), Some("000000"), None, None, None);
    assert_eq!(out.exit_code(), 0);
    assert_eq!(
        out.warnings,
        vec!["Invalid value for width: abc\nDefaulting to the default width".to_string()]
    );
    let expected = format!("\x1b[48;2;0;0;0m{}\x1b[0m\n", " ".repeat(DEFAULT_WIDTH as usize));
    assert_eq!(out.result.unwrap(), expected);
}

#[test]
fn bad_height_warns_and_uses_default() {
    let out = run(Some("x"), Some("-1"), Some("#0000ff"), None, None, None);
    assert_eq!(out.warnings.len(), 2);
    assert_eq!(out.warnings[1], "invalid value for height: -1\nDefaulting to the default height");
    let text = out.result.unwrap();
    assert_eq!(text.lines().count(), DEFAULT_HEIGHT as usize);
    assert_eq!(text, preview_color(&rgb(0, 0, 255), DEFAULT_WIDTH, DEFAULT_HEIGHT));
}

#[test]
fn warnings_come_before_a_fatal_error() {
    let out = run(Some("wide"), None, Some("nothex"), None, None, None);
    assert_eq!(out.warnings.len(), 1);
    assert_eq!(out.exit_code(), 1);
    assert_eq!(out.result.unwrap_err(), "Invalid value for hex: nothex");
}

#[test]
fn channels_render_with_dimensions() {
    let out = run(Some("2"), Some("3"), None, Some("+255"), Some("128"), Some("0"));
    assert_eq!(out.exit_code(), 0);
    assert_eq!(out.result.unwrap(), "\x1b[48;2;255;128;0m  \x1b[0m\n".repeat(3));
}
