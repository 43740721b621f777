use tunnyd::cli::{args_from_matches, cli, parse_and_match_args};

#[test]
fn payload_with_target_and_user() {
    let args = parse_and_match_args(b"-t db1 -u bob").expect("the payload names a target");
    assert_eq!(args.target, "db1");
    assert_eq!(args.user, Some("bob".to_string()));
}

#[test]
fn payload_with_target_only() {
    let args = parse_and_match_args(b"-t db1").expect("the payload names a target");
    assert_eq!(args.target, "db1");
    assert_eq!(args.user, None);
}

#[test]
fn payload_with_long_options() {
    let args = parse_and_match_args(b"--user alice --target web").expect("long options parse");
    assert_eq!(args.target, "web");
    assert_eq!(args.user, Some("alice".to_string()));
}

#[test]
fn payload_with_quoted_words() {
    let args = parse_and_match_args(b"-t 'my db' -u \"bob smith\"").expect("quoted words parse");
    assert_eq!(args.target, "my db");
    assert_eq!(args.user, Some("bob smith".to_string()));
}

#[test]
fn payload_without_target_is_refused() {
    assert!(parse_and_match_args(b"-u bob").is_none());
    assert!(parse_and_match_args(b"").is_none());
}

#[test]
fn payload_with_unknown_option_is_refused() {
    assert!(parse_and_match_args(b"-t db1 -x 1").is_none());
    assert!(parse_and_match_args(b"db1").is_none());
}

#[test]
fn payload_asking_for_help_is_refused() {
    assert!(parse_and_match_args(b"--help").is_none());
}

#[test]
fn payload_with_invalid_utf8_is_decoded_lossily() {
    let args = parse_and_match_args(b"-t db\xff1").expect("lossy decoding keeps the request");
    assert_eq!(args.target, "db\u{fffd}1");
}

#[test]
fn command_line_has_target_then_user() {
    let command = cli();
    assert_eq!(command.name, "tunnyD");
    assert!(command.no_binary_name);
    assert_eq!(command.options.len(), 2);
    assert_eq!(command.options[0].id, "target");
    assert_eq!(command.options[0].short, 't');
    assert!(command.options[0].required);
    assert_eq!(command.options[1].id, "user");
    assert_eq!(command.options[1].short, 'u');
    assert!(!command.options[1].required);
}

#[test]
fn matched_values_become_a_request() {
    let args = args_from_matches(vec![Some("db1".to_string()), None]).expect("target is there");
    assert_eq!(args.target, "db1");
    assert_eq!(args.user, None);
    assert!(args_from_matches(vec![None, Some("bob".to_string())]).is_none());
    assert!(args_from_matches(vec![Some("db1".to_string())]).is_none());
    assert!(args_from_matches(vec![]).is_none());
}
