use squeak::app::{first_line, parse_u16};
use squeak::text::{dec_string, str_eq};

#[test]
fn parse_u16_follows_str_parse() {
    for s in ["0", "65535", "+7", "0012", "", "+", "-1", "65536", "1 2", "٣"] {
        assert_eq!(parse_u16(s), s.parse::<u16>().ok(), "input {s:?}");
    }
}

#[test]
fn first_line_follows_str_lines() {
    for s in ["a\nb", "a\r\nb", "a\r", "\n", "\r\n", "x", "a\rb\nc"] {
        assert_eq!(first_line(s), s.lines().next().unwrap(), "input {s:?}");
    }
    assert_eq!(first_line(""), "error");
}

#[test]
fn decimal_rendering() {
    assert_eq!(dec_string(0), "0");
    assert_eq!(dec_string(26000), "26000");
    assert_eq!(dec_string(u64::MAX), u64::MAX.to_string());
    assert!(str_eq("Vol +", "Vol +"));
    assert!(!str_eq("Vol +", "Vol -"));
}
