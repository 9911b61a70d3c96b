//! What is typed: commands, polls and durations.
use siggy::input::{
    commands, format_compact_duration, parse_duration_to_seconds, parse_input, InputAction,
};

#[test]
fn group_command_parsed() {
    assert!(matches!(parse_input("/group"), InputAction::Group));
    assert!(matches!(parse_input("/g"), InputAction::Group));
}

#[test]
fn command_returns_expected_action() {
    let cases = vec![
        ("/part", InputAction::Part),
        ("/p", InputAction::Part),
        ("/quit", InputAction::Quit),
        ("/q", InputAction::Quit),
        ("/sidebar", InputAction::ToggleSidebar),
        ("/sb", InputAction::ToggleSidebar),
        ("/mute", InputAction::ToggleMute),
        ("/settings", InputAction::Settings),
        ("/attach", InputAction::Attach),
        ("/a", InputAction::Attach),
        ("/contacts", InputAction::Contacts),
        ("/c", InputAction::Contacts),
        ("/help", InputAction::Help),
        ("/h", InputAction::Help),
        ("/block", InputAction::Block),
        ("/unblock", InputAction::Unblock),
        ("/group", InputAction::Group),
        ("/g", InputAction::Group),
        ("/verify", InputAction::Verify),
        ("/v", InputAction::Verify),
        ("/profile", InputAction::Profile),
        ("/about", InputAction::About),
        ("/bell", InputAction::ToggleBell(None)),
    ];
    for (input, expected) in cases {
        assert_eq!(parse_input(input), expected);
    }
}

#[test]
fn command_with_argument() {
    let cases = vec![
        ("/join Alice", InputAction::Join("Alice".to_string())),
        ("/j +1234567890", InputAction::Join("+1234567890".to_string())),
        ("/search hello", InputAction::Search("hello".to_string())),
        ("/s world", InputAction::Search("world".to_string())),
        ("/disappearing 30s", InputAction::SetDisappearing("30s".to_string())),
        ("/dm off", InputAction::SetDisappearing("off".to_string())),
        ("/bell direct", InputAction::ToggleBell(Some("direct".to_string()))),
        ("/notify group", InputAction::ToggleBell(Some("group".to_string()))),
        ("/mute 1h", InputAction::MuteFor("1h".to_string())),
    ];
    for (input, expected) in cases {
        assert_eq!(parse_input(input), expected);
    }
}

#[test]
fn command_without_required_arg_returns_unknown() {
    for input in ["/join", "/search", "/disappearing"] {
        let InputAction::Unknown(s) = parse_input(input) else {
            panic!("expected Unknown for {input}");
        };
        assert!(s.contains("requires"), "error for {input} should mention 'requires': {s}");
    }
}

#[test]
fn send_text_variants() {
    let cases = vec![
        ("hello world", "hello world"),
        ("", ""),
        ("   ", ""),
        ("  hello  ", "hello"),
    ];
    for (input, expected) in cases {
        let InputAction::SendText(s) = parse_input(input) else {
            panic!("expected SendText for {input:?}");
        };
        assert_eq!(s, expected);
    }
}

#[test]
fn unknown_command() {
    let InputAction::Unknown(s) = parse_input("/foo") else {
        panic!("expected Unknown")
    };
    assert!(s.contains("/foo"));
}

#[test]
fn duration_parser_valid() {
    let cases = vec![
        ("off", 0),
        ("0", 0),
        ("30s", 30),
        ("5m", 300),
        ("1h", 3600),
        ("8h", 28800),
        ("1d", 86400),
        ("1w", 604800),
        ("4w", 2419200),
    ];
    for (input, expected) in cases {
        assert_eq!(parse_duration_to_seconds(input).unwrap(), expected);
    }
}

#[test]
fn duration_parser_invalid() {
    for input in ["abc", "", "0s", "-1h"] {
        assert!(parse_duration_to_seconds(input).is_err(), "expected error for {input:?}");
    }
}

#[test]
fn poll_command_basic() {
    let result = parse_input(r#"/poll "What for lunch?" "Pizza" "Sushi""#);
    match result {
        InputAction::Poll { question, options, allow_multiple } => {
            assert_eq!(question, "What for lunch?");
            assert_eq!(options, vec!["Pizza", "Sushi"]);
            assert!(allow_multiple);
        }
        other => panic!("expected Poll, got {other:?}"),
    }
}

#[test]
fn poll_command_single_select() {
    let result = parse_input(r#"/poll "Q" "A" "B" --single"#);
    match result {
        InputAction::Poll { allow_multiple, options, .. } => {
            assert!(!allow_multiple);
            assert_eq!(options, vec!["A", "B"]);
        }
        other => panic!("expected Poll, got {other:?}"),
    }
}

#[test]
fn poll_command_too_few_options() {
    let result = parse_input(r#"/poll "Q" "A""#);
    assert!(matches!(result, InputAction::Unknown(_)));
}

#[test]
fn poll_command_no_args() {
    let result = parse_input("/poll");
    assert!(matches!(result, InputAction::Unknown(_)));
}

#[test]
fn commands_have_distinct_names() {
    let mut names: Vec<&str> = commands().iter().map(|c| c.name).collect();
    let len = names.len();
    names.sort();
    names.dedup();
    assert_eq!(names.len(), len);
    assert!(names.iter().all(|n| n.starts_with('/')));
}

#[test]
fn durations_are_shown_in_their_largest_unit() {
    assert_eq!(format_compact_duration(0), "0s");
    assert_eq!(format_compact_duration(30), "30s");
    assert_eq!(format_compact_duration(300), "5m");
    assert_eq!(format_compact_duration(3600), "1h");
    assert_eq!(format_compact_duration(86400), "1d");
    assert_eq!(format_compact_duration(604800), "1w");
}

#[test]
fn the_table_tells_of_aliases_and_arguments() {
    let table = commands();
    let row = |name: &str| table.iter().find(|c| c.name == name).unwrap();
    assert_eq!(row("/bell").alias, "/notify");
    assert_eq!(row("/mute").args, "[dur]");
    assert_eq!(row("/about").description, "About siggy");
    assert_eq!(row("/quit").description, "Exit siggy");
}
