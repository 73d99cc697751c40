use vote_tally::command::{parse_command, CommandError};
use vote_tally::text::{parse_u8, str_contains};

#[test]
fn init_command_builds_an_init_record() {
    let rec = parse_command("INIT session 3").unwrap();
    assert_eq!(rec.key.as_str(), "INIT-session");
    assert_eq!(rec.value.as_str(), "3");
}

#[test]
fn init_without_name_is_reported() {
    assert_eq!(parse_command("INIT").unwrap_err(), CommandError::ExpectedVoteName);
}

#[test]
fn init_without_bar_is_reported() {
    assert_eq!(parse_command("INIT session").unwrap_err(), CommandError::ExpectedBar);
}

#[test]
fn vote_command_builds_a_vote_record() {
    let rec = parse_command("VOTE session high low").unwrap();
    assert_eq!(rec.key.as_str(), "VOTE-session");
    assert_eq!(rec.value.as_str(), "high-low");
}

#[test]
fn vote_missing_arguments_are_reported_in_order() {
    assert_eq!(parse_command("VOTE").unwrap_err(), CommandError::ExpectedKey);
    assert_eq!(parse_command("VOTE session").unwrap_err(), CommandError::ExpectedYayPreference);
    assert_eq!(
        parse_command("VOTE session high").unwrap_err(),
        CommandError::ExpectedNayPreference
    );
}

#[test]
fn tally_command_builds_the_trigger_record() {
    let rec = parse_command("TALLY").unwrap();
    assert_eq!(rec.key.as_str(), "TALLY");
    assert_eq!(rec.value.as_str(), "");
}

#[test]
fn unknown_verbs_are_reported() {
    assert_eq!(parse_command("FOO a b").unwrap_err(), CommandError::UnknownCommand);
    assert_eq!(parse_command("").unwrap_err(), CommandError::UnknownCommand);
    assert_eq!(parse_command("init x 3").unwrap_err(), CommandError::UnknownCommand);
    assert_eq!(parse_command("INITX x 3").unwrap_err(), CommandError::UnknownCommand);
}

#[test]
fn consecutive_spaces_yield_empty_tokens() {
    let rec = parse_command("INIT  3").unwrap();
    assert_eq!(rec.key.as_str(), "INIT-");
    assert_eq!(rec.value.as_str(), "3");
}

#[test]
fn extra_tokens_after_the_needed_ones_are_ignored() {
    let rec = parse_command("VOTE session high low extra words").unwrap();
    assert_eq!(rec.key.as_str(), "VOTE-session");
    assert_eq!(rec.value.as_str(), "high-low");
}

#[test]
fn bar_text_parses_as_an_eight_bit_integer() {
    assert_eq!(parse_u8("0"), Some(0));
    assert_eq!(parse_u8("3"), Some(3));
    assert_eq!(parse_u8("003"), Some(3));
    assert_eq!(parse_u8("+25"), Some(25));
    assert_eq!(parse_u8("255"), Some(255));
    assert_eq!(parse_u8("256"), None);
    assert_eq!(parse_u8("999999999999"), None);
    assert_eq!(parse_u8(""), None);
    assert_eq!(parse_u8("+"), None);
    assert_eq!(parse_u8("-1"), None);
    assert_eq!(parse_u8("1 "), None);
    assert_eq!(parse_u8("0x10"), None);
}

#[test]
fn substring_containment_matches_anywhere() {
    assert!(str_contains("INIT-x", "INIT"));
    assert!(str_contains("xxVOTEyy", "VOTE"));
    assert!(str_contains("TALLY", "TALLY"));
    assert!(str_contains("abc", ""));
    assert!(!str_contains("INIx-T", "INIT"));
    assert!(!str_contains("vote", "VOTE"));
}
