//! Parsing and rendering of attribute file text.

use sysfs_pwm::pwm_capture_pair;
use sysfs_pwm::pwm_capture_parse;
use sysfs_pwm::pwm_enable_parse;
use sysfs_pwm::pwm_file_parse;
use sysfs_pwm::pwm_polarity_parse;
use sysfs_pwm::text::u32_string;
use sysfs_pwm::Error;
use sysfs_pwm::Polarity;

#[test]
fn file_parse_trailing_newline() {
    assert_eq!(pwm_file_parse("2\n").unwrap(), 2);
}

#[test]
fn file_parse_plain_and_padded() {
    assert_eq!(pwm_file_parse("0").unwrap(), 0);
    assert_eq!(pwm_file_parse(" 123 \n").unwrap(), 123);
    assert_eq!(pwm_file_parse("20000\n").unwrap(), 20000);
}

#[test]
fn file_parse_limits() {
    assert_eq!(pwm_file_parse("4294967295").unwrap(), u32::MAX);
    let e = pwm_file_parse("4294967296").unwrap_err();
    assert!(matches!(e, Error::Unexpected(ref raw) if raw == "4294967296"));
}

#[test]
fn file_parse_rejects_non_numbers() {
    assert!(matches!(pwm_file_parse(""), Err(Error::Unexpected(_))));
    assert!(matches!(pwm_file_parse("\n"), Err(Error::Unexpected(_))));
    assert!(matches!(pwm_file_parse("abc"), Err(Error::Unexpected(_))));
    assert!(matches!(pwm_file_parse("+5"), Err(Error::Unexpected(_))));
    assert!(matches!(pwm_file_parse("-5"), Err(Error::Unexpected(_))));
    assert!(matches!(pwm_file_parse("1 2"), Err(Error::Unexpected(_))));
    let e = pwm_file_parse("garbage\n").unwrap_err();
    assert!(matches!(e, Error::Unexpected(ref raw) if raw == "garbage\n"));
}

#[test]
fn enable_parse_states() {
    assert_eq!(pwm_enable_parse("1\n").unwrap(), Some(true));
    assert_eq!(pwm_enable_parse("0").unwrap(), Some(false));
    assert_eq!(pwm_enable_parse("2").unwrap(), None);
    assert_eq!(pwm_enable_parse("7\n").unwrap(), None);
    assert!(matches!(pwm_enable_parse("on"), Err(Error::Unexpected(_))));
}

#[test]
fn polarity_parse_literals() {
    assert_eq!(pwm_polarity_parse("normal").unwrap(), Polarity::Normal);
    assert_eq!(pwm_polarity_parse("inversed\n").unwrap(), Polarity::Inverse);
    assert_eq!(pwm_polarity_parse(" normal \n").unwrap(), Polarity::Normal);
}

#[test]
fn polarity_parse_rejects_other_text() {
    assert!(matches!(pwm_polarity_parse("NORMAL"), Err(Error::Unexpected(_))));
    assert!(matches!(pwm_polarity_parse("inverse"), Err(Error::Unexpected(_))));
    assert!(matches!(pwm_polarity_parse(""), Err(Error::Unexpected(_))));
    let e = pwm_polarity_parse("odd\n").unwrap_err();
    assert!(matches!(e, Error::Unexpected(ref raw) if raw == "odd\n"));
}

#[test]
fn capture_parse_tokens() {
    assert_eq!(pwm_capture_parse("1000 500"), vec![1000, 500]);
    assert_eq!(pwm_capture_parse("  8 9  \n"), vec![8, 9]);
    assert_eq!(pwm_capture_parse("1000"), vec![1000]);
    assert_eq!(pwm_capture_parse("foo bar"), Vec::<u32>::new());
    assert_eq!(pwm_capture_parse("foo 1000 500"), vec![1000, 500]);
    assert_eq!(pwm_capture_parse(""), Vec::<u32>::new());
}

#[test]
fn capture_pair_two_tokens() {
    assert_eq!(pwm_capture_pair("1000 500").unwrap(), (1000, 500));
    assert_eq!(pwm_capture_pair("8 9\n").unwrap(), (8, 9));
}

#[test]
fn capture_pair_wrong_token_count() {
    assert!(matches!(pwm_capture_pair("1000"), Err(Error::Unexpected(_))));
    assert!(matches!(pwm_capture_pair("no numbers"), Err(Error::Unexpected(_))));
    assert!(matches!(pwm_capture_pair("1 2 3"), Err(Error::Unexpected(_))));
}

#[test]
fn decimal_rendering() {
    assert_eq!(u32_string(0), "0");
    assert_eq!(u32_string(5000), "5000");
    assert_eq!(u32_string(4294967295), "4294967295");
}

#[test]
fn decimal_round_trip() {
    for v in [0u32, 1, 9, 10, 20000, 123456789, u32::MAX] {
        assert_eq!(pwm_file_parse(&u32_string(v)).unwrap(), v);
    }
}

#[test]
fn error_messages() {
    assert_eq!(Error::Io(String::from("denied")).message(), "denied");
    assert_eq!(Error::Unexpected(String::from("2x\n")).message(), "Unexpected: 2x\n");
    let both = Error::Compound(
        Box::new(Error::Io(String::from("release failed"))),
        Box::new(Error::Unexpected(String::from("bad"))),
    );
    assert_eq!(
        both.message(),
        "Failed unexporting due to:\nrelease failed\nwhile handling:\nUnexpected: bad"
    );
}
