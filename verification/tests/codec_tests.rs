use vote_tally::preference::Preference;
use vote_tally::vote::{parse_score, Vote};

#[test]
fn parses_all_level_names_in_any_casing() {
    assert_eq!(Preference::new("veryhigh"), Preference::VeryHigh);
    assert_eq!(Preference::new("VeryHigh"), Preference::VeryHigh);
    assert_eq!(Preference::new("VERYHIGH"), Preference::VeryHigh);
    assert_eq!(Preference::new("vErYhIgH"), Preference::VeryHigh);
    assert_eq!(Preference::new("high"), Preference::High);
    assert_eq!(Preference::new("HIGH"), Preference::High);
    assert_eq!(Preference::new("medium"), Preference::Medium);
    assert_eq!(Preference::new("Medium"), Preference::Medium);
    assert_eq!(Preference::new("low"), Preference::Low);
    assert_eq!(Preference::new("LoW"), Preference::Low);
    assert_eq!(Preference::new("verylow"), Preference::VeryLow);
    assert_eq!(Preference::new("VERYlow"), Preference::VeryLow);
}

#[test]
fn anything_else_parses_as_invalid() {
    assert_eq!(Preference::new(""), Preference::Invalid);
    assert_eq!(Preference::new("foo"), Preference::Invalid);
    assert_eq!(Preference::new("very high"), Preference::Invalid);
    assert_eq!(Preference::new("highh"), Preference::Invalid);
    assert_eq!(Preference::new("hig"), Preference::Invalid);
    assert_eq!(Preference::new("veryhigh "), Preference::Invalid);
    assert_eq!(Preference::new("0.75"), Preference::Invalid);
}

#[test]
fn scores_are_the_fixed_quarter_values() {
    assert_eq!(Preference::VeryHigh.to_score(), 4);
    assert_eq!(Preference::High.to_score(), 3);
    assert_eq!(Preference::Medium.to_score(), 2);
    assert_eq!(Preference::Low.to_score(), 1);
    assert_eq!(Preference::VeryLow.to_score(), 0);
    assert_eq!(Preference::Invalid.to_score(), -4);
}

#[test]
fn scores_are_strictly_ordered() {
    assert!(Preference::VeryHigh.to_score() > Preference::High.to_score());
    assert!(Preference::High.to_score() > Preference::Medium.to_score());
    assert!(Preference::Medium.to_score() > Preference::Low.to_score());
    assert!(Preference::Low.to_score() > Preference::VeryLow.to_score());
    assert!(Preference::VeryLow.to_score() > Preference::Invalid.to_score());
}

#[test]
fn score_text_is_the_decimal_rendering() {
    assert_eq!(Preference::VeryHigh.score_text().as_str(), "1");
    assert_eq!(Preference::High.score_text().as_str(), "0.75");
    assert_eq!(Preference::Medium.score_text().as_str(), "0.5");
    assert_eq!(Preference::Low.score_text().as_str(), "0.25");
    assert_eq!(Preference::VeryLow.score_text().as_str(), "0");
    assert_eq!(Preference::Invalid.score_text().as_str(), "-1");
}

#[test]
fn wire_value_joins_both_scores_with_a_dash() {
    let v = Vote::new(String::from("VOTE-a"), "high", "low");
    assert_eq!(v.yay_nay_repr().as_str(), "0.75-0.25");
    let w = Vote::new(String::from("VOTE-b"), "veryhigh", "verylow");
    assert_eq!(w.yay_nay_repr().as_str(), "1-0");
    let x = Vote::new(String::from("VOTE-c"), "nonsense", "medium");
    assert_eq!(x.yay_nay_repr().as_str(), "-1-0.5");
}

#[test]
fn every_score_text_round_trips_to_its_score() {
    let levels = vec![
        Preference::VeryHigh,
        Preference::High,
        Preference::Medium,
        Preference::Low,
        Preference::VeryLow,
        Preference::Invalid,
    ];
    for level in levels {
        let text = level.score_text();
        assert_eq!(parse_score(text.as_str()), Some(level.to_score()));
    }
}

#[test]
fn other_text_does_not_parse_as_a_score() {
    assert_eq!(parse_score(""), None);
    assert_eq!(parse_score("2"), None);
    assert_eq!(parse_score("0.750"), None);
    assert_eq!(parse_score("high"), None);
    assert_eq!(parse_score("-0.75"), None);
}

#[test]
fn vote_construction_never_fails() {
    let v = Vote::new(String::from("VOTE-z"), "foo", "bar");
    assert_eq!(v.yay, Preference::Invalid);
    assert_eq!(v.nay, Preference::Invalid);
    assert_eq!(v.key.as_str(), "VOTE-z");
}
