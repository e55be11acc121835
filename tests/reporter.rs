use crash_reporter::action::Action;
use crash_reporter::decimal::{code_text, parse_error_code};
use crash_reporter::error_code::ErrorCodes;
use crash_reporter::invocation::{parse_invocation, InvocationError};
use crash_reporter::layout::{layout_for, ReportLayout};
use crash_reporter::report::{build_report, capture_report};
use crash_reporter::severity::SeverityClass;
use crash_reporter::tool::AscendaraTool;

fn args(items: &[&str]) -> Vec<String> {
    items.iter().map(|s| s.to_string()).collect()
}

fn layout_of_args(items: &[&str]) -> ReportLayout {
    let inv = parse_invocation(&args(items)).expect("valid invocation");
    let report = build_report(&inv.tool_id, inv.error_code, &inv.message, "2024-01-02T03:04:05");
    layout_for(&report)
}

#[test]
fn known_tools_have_their_names() {
    let cases = [
        ("gofilehelper", "Ascendara GoFile Helper"),
        ("maindownloader", "Ascendara Downloader"),
        ("gamehandler", "Ascendara Game Handler"),
        ("toplevel", "Ascendara"),
        ("languagetranslation", "Ascendara Language Translation"),
        ("torrenthandler", "Ascendara Torrent Handler"),
        ("notificationhelper", "Ascendara Notification Helper"),
    ];
    for (id, name) in cases {
        assert_eq!(AscendaraTool::get_tool_name(id), name);
        assert_eq!(AscendaraTool::get_tool_name(id), AscendaraTool::get_tool_name(id));
    }
}

#[test]
fn tool_names_ignore_case() {
    assert_eq!(AscendaraTool::get_tool_name("GameHandler"), "Ascendara Game Handler");
    assert_eq!(AscendaraTool::get_tool_name("TOPLEVEL"), "Ascendara");
    assert_eq!(AscendaraTool::from_identifier("TorrentHandler"), AscendaraTool::TorrentHandler);
}

#[test]
fn other_identifiers_are_unknown() {
    for id in ["", "unknowntool", "top level", "toplevel ", "ツール", "gofile_helper"] {
        assert_eq!(AscendaraTool::get_tool_name(id), "Unknown Ascendara Tool");
        assert_eq!(AscendaraTool::from_identifier(id), AscendaraTool::Unknown);
    }
}

#[test]
fn tool_name_for_lowercase_key() {
    assert_eq!(
        AscendaraTool::tool_name_for_key(&"maindownloader".to_string()),
        "Ascendara Downloader"
    );
    assert_eq!(
        AscendaraTool::tool_name_for_key(&"MainDownloader".to_string()),
        "Unknown Ascendara Tool"
    );
}

#[test]
fn listed_codes_have_their_descriptions() {
    let cases = [
        (1000, "An unknown error occurred"),
        (1001, "An unhandled exception occurred"),
        (1004, "Invalid data received"),
        (1100, "Game not found"),
        (1104, "Settings file error"),
        (1105, "Download directory error"),
        (1202, "Error processing file for Language Translation operation"),
        (1303, "GoFile authentication failed"),
        (1408, "Failed to launch helper process"),
        (1506, "Failed to install torrent content"),
        (1604, "Error during notification animation"),
    ];
    for (code, text) in cases {
        assert_eq!(ErrorCodes::get_error_description(code), text);
    }
}

#[test]
fn unlisted_codes_are_unrecognized() {
    for code in [-1, 0, 42, 999, 1005, 1099, 1106, 1203, 1306, 1409, 1507, 1605, 1700, 9999, i32::MIN, i32::MAX] {
        assert_eq!(ErrorCodes::get_error_description(code), "Unrecognized error code");
    }
}

#[test]
fn only_top_level_is_critical() {
    assert_eq!(SeverityClass::classify("toplevel"), SeverityClass::Critical);
    assert_eq!(SeverityClass::classify("TopLevel"), SeverityClass::Critical);
    for id in ["", "gamehandler", "unknowntool", "top-level"] {
        assert_eq!(SeverityClass::classify(id), SeverityClass::Component);
    }
}

#[test]
fn window_presets() {
    assert_eq!(SeverityClass::Critical.window_width(), 800);
    assert_eq!(SeverityClass::Critical.window_height(), 600);
    assert_eq!(SeverityClass::Component.window_width(), 600);
    assert_eq!(SeverityClass::Component.window_height(), 550);
    assert!(SeverityClass::Critical.is_critical());
    assert!(!SeverityClass::Component.is_critical());
}

#[test]
fn parse_accepts_signed_decimals() {
    assert_eq!(parse_error_code("1001"), Some(1001));
    assert_eq!(parse_error_code("+42"), Some(42));
    assert_eq!(parse_error_code("-7"), Some(-7));
    assert_eq!(parse_error_code("0007"), Some(7));
    assert_eq!(parse_error_code("-0"), Some(0));
    assert_eq!(parse_error_code("2147483647"), Some(i32::MAX));
    assert_eq!(parse_error_code("-2147483648"), Some(i32::MIN));
    assert_eq!(parse_error_code("000000000000000000001"), Some(1));
}

#[test]
fn parse_rejects_other_text() {
    for text in ["", "+", "-", "notaninteger", "12a", " 1", "1 ", "1.5", "--1", "2147483648", "-2147483649", "99999999999999999999", "١٢"] {
        assert_eq!(parse_error_code(text), None, "{text:?}");
        assert_eq!(text.parse::<i32>().ok(), None);
    }
}

#[test]
fn code_text_writes_base_ten() {
    assert_eq!(code_text(1001), "1001");
    assert_eq!(code_text(0), "0");
    assert_eq!(code_text(-42), "-42");
    assert_eq!(code_text(i32::MIN), "-2147483648");
    assert_eq!(code_text(i32::MAX), "2147483647");
    for code in [i32::MIN, -1, 0, 9, 10, 1104, i32::MAX] {
        assert_eq!(parse_error_code(&code_text(code)), Some(code));
    }
}

#[test]
fn invalid_code_is_reported_with_diagnostic() {
    let r = parse_invocation(&args(&["reporter", "tool", "notaninteger", "msg"]));
    let e = r.err().expect("error");
    assert_eq!(e, InvocationError::InvalidErrorCode);
    assert_eq!(e.exit_status(), 1);
    assert_eq!(e.diagnostic(), Some("Invalid error code".to_string()));
}

#[test]
fn missing_arguments_exit_silently() {
    for items in [vec!["reporter"], vec!["reporter", "tool"], vec!["reporter", "tool", "1001"]] {
        let e = parse_invocation(&args(&items)).err().expect("error");
        assert_eq!(e, InvocationError::MissingArguments);
        assert_eq!(e.exit_status(), 1);
        assert_eq!(e.diagnostic(), None);
    }
}

#[test]
fn valid_invocation_keeps_parameters() {
    let inv = parse_invocation(&args(&["reporter", "GameHandler", "-12", "line one\nline two", "extra"]))
        .expect("valid");
    assert_eq!(inv.tool_id, "GameHandler");
    assert_eq!(inv.error_code, -12);
    assert_eq!(inv.message, "line one\nline two");
}

#[test]
fn build_report_twice_is_equal_but_for_time() {
    let a = build_report("gamehandler", 1104, "settings.json missing", "2024-01-02T03:04:05");
    let b = build_report("gamehandler", 1104, "settings.json missing", "2024-01-02T03:04:06");
    assert_eq!(a.tool_identifier(), b.tool_identifier());
    assert_eq!(a.tool_name(), b.tool_name());
    assert_eq!(a.error_code(), b.error_code());
    assert_eq!(a.error_description(), b.error_description());
    assert_eq!(a.message(), b.message());
    assert_eq!(a.captured_at(), "2024-01-02T03:04:05");
    assert_eq!(b.captured_at(), "2024-01-02T03:04:06");
}

#[test]
fn report_keeps_message_verbatim() {
    let msg = "Traceback:\n  <tag> & \"quotes\"\n\ttab ✓";
    let r = build_report("TopLevel", 1001, msg, "t");
    assert_eq!(r.message(), msg);
    assert_eq!(r.tool_identifier(), "TopLevel");
    assert_eq!(r.tool_name(), "Ascendara");
    assert_eq!(r.severity(), SeverityClass::Critical);
    let empty = build_report("x", 1, "", "t");
    assert_eq!(empty.message(), "");
}

#[test]
fn captured_report_is_stamped() {
    let inv = parse_invocation(&args(&["reporter", "toplevel", "1001", "trace"])).expect("valid");
    let r = capture_report(&inv);
    assert_eq!(r.tool_name(), "Ascendara");
    assert_eq!(r.error_description(), "An unhandled exception occurred");
    assert_eq!(r.message(), "trace");
    let at = r.captured_at();
    assert_eq!(at.len(), 19);
    assert_eq!(&at[4..5], "-");
    assert_eq!(&at[10..11], "T");
    assert_eq!(&at[13..14], ":");
}

#[test]
fn scenario_top_level_crash() {
    let l = layout_of_args(&["reporter", "toplevel", "1001", "stack trace text"]);
    assert_eq!(l.severity, SeverityClass::Critical);
    assert_eq!((l.width, l.height), (800, 600));
    assert_eq!(l.code, "1001");
    assert_eq!(l.code_caption, "Critical Error Code: ");
    assert_eq!(l.description, "An unhandled exception occurred");
    assert_eq!(l.details, "stack trace text");
    assert_eq!(l.tool_name, None);
    assert_eq!(l.title, "Ascendara Error Report");
    assert_eq!(l.actions, vec![Action::SubmitReport, Action::RestartHost, Action::Close]);
    let inv = parse_invocation(&args(&["reporter", "toplevel", "1001", "stack trace text"])).unwrap();
    assert_eq!(AscendaraTool::get_tool_name(&inv.tool_id), "Ascendara");
}

#[test]
fn scenario_game_handler_crash() {
    let l = layout_of_args(&["reporter", "gamehandler", "1104", "settings.json missing"]);
    assert_eq!(l.severity, SeverityClass::Component);
    assert_eq!((l.width, l.height), (600, 550));
    assert_eq!(l.tool_name, Some("Ascendara Game Handler".to_string()));
    assert_eq!(l.description, "Settings file error");
    assert_eq!(l.code, "1104");
    assert_eq!(l.details, "settings.json missing");
    assert_eq!(l.title, "Ascendara Error Report");
    assert_eq!(l.actions, vec![Action::OpenSupport, Action::SubmitReport, Action::Close]);
}

#[test]
fn scenario_unknown_tool_crash() {
    let l = layout_of_args(&["reporter", "unknowntool", "42", "x"]);
    assert_eq!(l.severity, SeverityClass::Component);
    assert_eq!(l.tool_name, Some("Unknown Ascendara Tool".to_string()));
    assert_eq!(l.description, "Unrecognized error code");
    assert_eq!(l.code, "42");
    assert_eq!(l.details, "x");
}

#[test]
fn close_exits_zero_in_both_variants() {
    for sev in [SeverityClass::Critical, SeverityClass::Component] {
        assert!(Action::offered(sev).contains(&Action::Close));
        let e = Action::Close.effect();
        assert_eq!(e.exit_status, Some(0));
        assert!(e.notice.is_none());
        assert!(e.open_url.is_none());
    }
    assert_eq!(Action::Close.label(SeverityClass::Critical), "Exit");
    assert_eq!(Action::Close.label(SeverityClass::Component), "Close");
}

#[test]
fn other_action_effects() {
    let submit = Action::SubmitReport.effect();
    let n = submit.notice.expect("notice");
    assert_eq!(n.title, "Crash Report");
    assert_eq!(
        n.text,
        "Thank you for helping improve Ascendara!\nThe crash report has been uploaded successfully."
    );
    assert_eq!(submit.exit_status, None);

    let support = Action::OpenSupport.effect();
    assert_eq!(support.open_url, Some("https://ascendara.app/discord".to_string()));
    assert!(support.notice.is_none());
    assert_eq!(support.exit_status, None);

    let restart = Action::RestartHost.effect();
    let n = restart.notice.expect("notice");
    assert_eq!(n.title, "Restart");
    assert_eq!(n.text, "Please restart Ascendara manually at this time.");
    assert_eq!(restart.exit_status, Some(0));

    assert_eq!(Action::SubmitReport.label(SeverityClass::Critical), "Report Problem");
    assert_eq!(Action::SubmitReport.label(SeverityClass::Component), "Upload Crash Report");
    assert_eq!(Action::OpenSupport.label(SeverityClass::Component), "Get Support");
    assert_eq!(Action::RestartHost.label(SeverityClass::Critical), "Restart Ascendara");
}
