use logsetup::FormatMode;
use logsetup::is_connected_to_journald;
use logsetup::parse_journal_stream;
use logsetup::plan_format;
use logsetup::select_format;

#[test]
fn parses_well_formed_hint() {
    assert_eq!(parse_journal_stream("8:1234"), Some((8, 1234)));
    assert_eq!(parse_journal_stream("0:0"), Some((0, 0)));
    assert_eq!(
        parse_journal_stream("18446744073709551615:1"),
        Some((u64::MAX, 1))
    );
}

#[test]
fn rejects_malformed_hints() {
    assert_eq!(parse_journal_stream(""), None);
    assert_eq!(parse_journal_stream("8"), None);
    assert_eq!(parse_journal_stream(":"), None);
    assert_eq!(parse_journal_stream("8:"), None);
    assert_eq!(parse_journal_stream(":1234"), None);
    assert_eq!(parse_journal_stream("8:12:34"), None);
    assert_eq!(parse_journal_stream("8::1234"), None);
    assert_eq!(parse_journal_stream("dev:1234"), None);
    assert_eq!(parse_journal_stream("8:ino"), None);
    assert_eq!(parse_journal_stream(" 8:1234"), None);
    assert_eq!(parse_journal_stream("8:1234 "), None);
    assert_eq!(parse_journal_stream("-8:1234"), None);
    assert_eq!(parse_journal_stream("+8:1234"), None);
    assert_eq!(parse_journal_stream("18446744073709551616:1"), None);
    assert_eq!(parse_journal_stream("99999999999999999999999:1"), None);
}

#[test]
fn matching_identity_is_connected() {
    assert!(is_connected_to_journald(Some("8:1234"), Some((8, 1234))));
}

#[test]
fn mismatched_identity_is_not_connected() {
    assert!(!is_connected_to_journald(Some("8:1234"), Some((9, 1234))));
    assert!(!is_connected_to_journald(Some("8:1234"), Some((8, 1235))));
}

#[test]
fn missing_signals_are_not_connected() {
    assert!(!is_connected_to_journald(None, Some((8, 1234))));
    assert!(!is_connected_to_journald(Some("8:1234"), None));
    assert!(!is_connected_to_journald(None, None));
}

#[test]
fn malformed_hint_acts_like_absent_hint() {
    for hint in ["", "8", "8:12:34", "dev:ino", "8;1234", "8::1234"] {
        assert_eq!(
            is_connected_to_journald(Some(hint), Some((8, 1234))),
            is_connected_to_journald(None, Some((8, 1234)))
        );
    }
}

#[test]
fn matching_hint_plans_journal_mode_regardless_of_terminal() {
    assert_eq!(
        plan_format(Some("8:1234"), Some((8, 1234)), true),
        FormatMode::Journal
    );
    assert_eq!(
        plan_format(Some("8:1234"), Some((8, 1234)), false),
        FormatMode::Journal
    );
}

#[test]
fn mismatched_hint_plans_by_terminal() {
    assert_eq!(
        plan_format(Some("8:1234"), Some((9, 1234)), true),
        FormatMode::TimestampedColor
    );
    assert_eq!(
        plan_format(Some("8:1234"), Some((9, 1234)), false),
        FormatMode::TimestampedPlain
    );
}

#[test]
fn absent_hint_plans_by_terminal() {
    assert_eq!(
        plan_format(None, Some((8, 1234)), false),
        FormatMode::TimestampedPlain
    );
    assert_eq!(
        plan_format(None, Some((8, 1234)), true),
        FormatMode::TimestampedColor
    );
}

#[test]
fn malformed_hint_plans_like_absent() {
    for hint in ["", "8", "8:12:34", "dev:ino", "8x:1234"] {
        assert_eq!(
            plan_format(Some(hint), Some((8, 1234)), true),
            plan_format(None, Some((8, 1234)), true)
        );
    }
}

#[test]
fn journal_mode_regardless_of_terminal() {
    assert_eq!(select_format(true, true), FormatMode::Journal);
    assert_eq!(select_format(true, false), FormatMode::Journal);
}

#[test]
fn interactive_mode_has_color_and_timestamps() {
    assert_eq!(select_format(false, true), FormatMode::TimestampedColor);
}

#[test]
fn redirected_mode_has_timestamps_without_color() {
    assert_eq!(select_format(false, false), FormatMode::TimestampedPlain);
}
