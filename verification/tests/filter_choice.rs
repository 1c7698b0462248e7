use logsetup::SetupError;
use logsetup::choose_filter;
use logsetup::interpret_install;
use logsetup::setup_logging;

#[test]
fn install_outcome_maps_to_result() {
    assert_eq!(interpret_install(true), Ok(()));
    assert_eq!(interpret_install(false), Err(SetupError::AlreadyInitialized));
}

#[test]
fn override_wins_when_it_parses() {
    assert_eq!(choose_filter("info", Some("debug")), "debug");
    assert_eq!(choose_filter("info", Some("warn,crate2=trace")), "warn,crate2=trace");
}

#[test]
fn absent_override_falls_back_to_default() {
    assert_eq!(choose_filter("info", None), "info");
}

#[test]
fn unparseable_override_falls_back_to_default() {
    assert_eq!(choose_filter("info", Some("mod1=warn=info")), "info");
}

// These strings make the backend's directive parser slice inside a
// character if handed to it raw; the library must treat them as
// unusable instead of consulting the parser.
#[test]
fn non_ascii_override_falls_back_to_default() {
    assert_eq!(choose_filter("info", Some("\u{2000}a=info")), "info");
    assert_eq!(choose_filter("info", Some("info, a\u{115}=debug")), "info");
}

#[test]
fn non_ascii_default_without_override_is_invalid_filter() {
    let r = setup_logging("\u{2000}a=info", None, None, None, false);
    assert_eq!(r, Err(SetupError::InvalidFilter));
    let r = setup_logging("info, a\u{115}=debug", None, None, None, true);
    assert_eq!(r, Err(SetupError::InvalidFilter));
}

#[test]
fn invalid_default_without_override_is_invalid_filter() {
    let r = setup_logging("mod1=warn=info", None, None, None, false);
    assert_eq!(r, Err(SetupError::InvalidFilter));
}

#[test]
fn invalid_default_and_invalid_override_is_invalid_filter() {
    let r = setup_logging(
        "mod1=warn=info",
        Some("also=bad=filter"),
        None,
        None,
        true,
    );
    assert_eq!(r, Err(SetupError::InvalidFilter));
}
