use vote_tally::dispatch::{apply_record, RecordError, RecordOutcome};
use vote_tally::tally::{Consensus, Tally};

#[test]
fn init_record_sets_the_bar() {
    let t = Tally::new();
    let (t, out) = apply_record(t, "INIT-x", "3");
    assert_eq!(t.bar, 3);
    assert!(matches!(out, Ok(RecordOutcome::BarSet { bar: 3 })));
}

#[test]
fn bad_bar_is_a_recoverable_error() {
    let t = Tally::new().set_bar(7);
    let (t, out) = apply_record(t, "INIT-x", "abc");
    assert_eq!(t.bar, 7);
    assert!(matches!(out, Err(RecordError::BadBar)));
    let (t, out) = apply_record(t, "INIT-x", "256");
    assert_eq!(t.bar, 7);
    assert!(matches!(out, Err(RecordError::BadBar)));
}

#[test]
fn vote_record_is_ingested_and_republished() {
    let t = Tally::new();
    let (t, out) = apply_record(t, "VOTE-x", "high-low");
    assert_eq!(t.votes.len(), 1);
    assert_eq!(t.keys[0].as_str(), "VOTE-x");
    match out {
        Ok(RecordOutcome::VoteStored { key, value }) => {
            assert_eq!(key.as_str(), "VOTE-x");
            assert_eq!(value.as_str(), "0.75-0.25");
        },
        other => panic!("unexpected outcome: {:?}", other),
    }
}

#[test]
fn vote_value_without_a_dash_is_a_recoverable_error() {
    let t = Tally::new();
    let (t, out) = apply_record(t, "VOTE-x", "highlow");
    assert_eq!(t.votes.len(), 0);
    assert!(matches!(out, Err(RecordError::MissingSeparator)));
}

#[test]
fn vote_value_takes_the_first_two_fields() {
    let t = Tally::new();
    let (t, _) = apply_record(t, "VOTE-x", "high-low-medium");
    assert_eq!(t.votes.len(), 1);
    let r = t.tally_up();
    assert_eq!(r.yays_consensus, 3);
    assert_eq!(r.nays_consensus, 1);
}

#[test]
fn tally_record_evaluates_the_session() {
    let t = Tally::new();
    let (t, _) = apply_record(t, "INIT-x", "2");
    let (t, _) = apply_record(t, "VOTE-a", "veryhigh-verylow");
    let (t, _) = apply_record(t, "VOTE-b", "high-low");
    let (t, out) = apply_record(t, "TALLY", "");
    assert_eq!(t.votes.len(), 2);
    match out {
        Ok(RecordOutcome::TallyReady { result }) => {
            assert_eq!(result.yays_consensus, 7);
            assert_eq!(result.nays_consensus, 1);
            assert_eq!(result.result, Consensus::YayReached);
        },
        other => panic!("unexpected outcome: {:?}", other),
    }
}

#[test]
fn unrecognized_keys_are_ignored() {
    let t = Tally::new().set_bar(1);
    let (t, out) = apply_record(t, "something-else", "payload");
    assert_eq!(t.bar, 1);
    assert_eq!(t.votes.len(), 0);
    assert!(matches!(out, Ok(RecordOutcome::Unrecognized)));
}

#[test]
fn classification_checks_init_before_vote_and_tally() {
    let t = Tally::new();
    let (t, out) = apply_record(t, "INIT-VOTE-TALLY", "9");
    assert_eq!(t.bar, 9);
    assert!(matches!(out, Ok(RecordOutcome::BarSet { bar: 9 })));
}

#[test]
fn classification_looks_anywhere_in_the_key() {
    let t = Tally::new();
    let (t, out) = apply_record(t, "xxTALLYxx", "");
    assert_eq!(t.votes.len(), 0);
    assert!(matches!(out, Ok(RecordOutcome::TallyReady { .. })));
}

#[test]
fn republished_invalid_fields_keep_the_sentinel_score() {
    let t = Tally::new();
    let (_t, out) = apply_record(t, "VOTE-x", "1-0.5");
    match out {
        Ok(RecordOutcome::VoteStored { value, .. }) => {
            // Score text is not a level name, so both fields are Invalid.
            assert_eq!(value.as_str(), "-1--1");
        },
        other => panic!("unexpected outcome: {:?}", other),
    }
}
