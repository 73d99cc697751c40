//! Classification of records observed in the shared store.
//!
//! Each observed record is classified by whether its key text contains
//! `INIT`, `VOTE` or `TALLY`, in that order of precedence. An `INIT` value
//! is parsed as the bar; a `VOTE` value is split on the first dash into the
//! two preference fields and ingested (the constructed vote's wire record is
//! handed back for re-publication); a `TALLY` key triggers evaluation.
//! Malformed values are reported as recoverable errors rather than stopping
//! the session.

use vstd::prelude::*;

use crate::preference::spec_parse;
use crate::tally::{spec_decision, spec_nay_total, spec_yay_total, Tally, TallyResult};
use crate::text::{find_char, lemma_spec_find, parse_u8, spec_contains, spec_find, spec_parse_u8, str_contains};
use crate::vote::spec_wire;

verus! {

/// What handling one observed record did, and what the caller still has to
/// do: re-publish a stored vote's wire record, or report a tally result.
#[derive(Clone, Debug)]
pub enum RecordOutcome {
    BarSet { bar: u8 },
    VoteStored { key: String, value: String },
    TallyReady { result: TallyResult },
    Unrecognized,
}

/// A malformed record value: a bar that is not an 8-bit decimal integer, or
/// a vote value with no dash separator. Both are recoverable; the session
/// state is left unchanged.
#[derive(Clone, Copy, PartialEq, Eq, Structural, Debug)]
pub enum RecordError {
    BadBar,
    MissingSeparator,
}

/// The key denotes an init record: it contains `INIT`.
pub open spec fn spec_is_init(k: Seq<char>) -> bool {
    spec_contains(k, "INIT"@)
}

/// The key denotes a vote record: no `INIT`, but `VOTE` occurs.
pub open spec fn spec_is_vote(k: Seq<char>) -> bool {
    !spec_is_init(k) && spec_contains(k, "VOTE"@)
}

/// The key denotes a tally trigger: neither `INIT` nor `VOTE` occur, but
/// `TALLY` does.
pub open spec fn spec_is_tally(k: Seq<char>) -> bool {
    !spec_is_init(k) && !spec_contains(k, "VOTE"@) && spec_contains(k, "TALLY"@)
}

/// The yay field of a vote value: the text before the first dash.
/// Meaningful only when a dash occurs.
pub open spec fn spec_vote_yay_field(v: Seq<char>) -> Seq<char> {
    v.subrange(0, spec_find(v, '-'))
}

/// What follows the first dash of a vote value.
pub open spec fn spec_vote_rest(v: Seq<char>) -> Seq<char> {
    v.subrange(spec_find(v, '-') + 1, v.len() as int)
}

/// The nay field of a vote value: the text between the first dash and the
/// second, or everything after the first dash when there is no second.
pub open spec fn spec_vote_nay_field(v: Seq<char>) -> Seq<char> {
    if spec_find(spec_vote_rest(v), '-') == -1 {
        spec_vote_rest(v)
    } else {
        spec_vote_rest(v).subrange(0, spec_find(spec_vote_rest(v), '-'))
    }
}

/// Apply one observed record to the session. The tally comes back updated;
/// the outcome tells the caller what to publish or report, and a malformed
/// value comes back as a recoverable error with the tally unchanged.
pub fn apply_record(tally: Tally, key: &str, value: &str) -> (r: (
    Tally,
    Result<RecordOutcome, RecordError>,
))
    ensures
        tally.wf() ==> r.0.wf(),
        spec_is_init(key@) ==> r.0.votes@ == tally.votes@ && r.0.keys@ == tally.keys@,
        spec_is_init(key@) && spec_parse_u8(value@) is Some ==> r.0.bar == spec_parse_u8(
            value@,
        ).unwrap() && r.1 == Ok::<RecordOutcome, RecordError>(
            RecordOutcome::BarSet { bar: spec_parse_u8(value@).unwrap() },
        ),
        spec_is_init(key@) && spec_parse_u8(value@) is None ==> r.0.bar == tally.bar && r.1
            == Err::<RecordOutcome, RecordError>(RecordError::BadBar),
        spec_is_vote(key@) && spec_find(value@, '-') != -1 ==> {
            &&& r.0.bar == tally.bar
            &&& r.0.votes@.len() == tally.votes@.len() + 1
            &&& r.0.votes@.subrange(0, tally.votes@.len() as int) == tally.votes@
            &&& r.0.votes@.last().key@ == key@
            &&& r.0.votes@.last().yay == spec_parse(spec_vote_yay_field(value@))
            &&& r.0.votes@.last().nay == spec_parse(spec_vote_nay_field(value@))
            &&& r.0.keys@.len() == tally.keys@.len() + 1
            &&& r.0.keys@.subrange(0, tally.keys@.len() as int) == tally.keys@
            &&& r.0.keys@.last()@ == key@
            &&& r.1 matches Ok(o) && o matches RecordOutcome::VoteStored { key: k2, value: v2 }
                && k2@ == key@ && v2@ == spec_wire(
                spec_parse(spec_vote_yay_field(value@)),
                spec_parse(spec_vote_nay_field(value@)),
            )
        },
        spec_is_vote(key@) && spec_find(value@, '-') == -1 ==> r.0.votes@ == tally.votes@
            && r.0.keys@ == tally.keys@ && r.0.bar == tally.bar && r.1 == Err::<
            RecordOutcome,
            RecordError,
        >(RecordError::MissingSeparator),
        spec_is_tally(key@) ==> {
            &&& r.0.votes@ == tally.votes@
            &&& r.0.keys@ == tally.keys@
            &&& r.0.bar == tally.bar
            &&& r.1 matches Ok(o) && o matches RecordOutcome::TallyReady { result }
                && result.yays_consensus == spec_yay_total(tally.votes@)
                && result.nays_consensus == spec_nay_total(tally.votes@) && result.result
                == spec_decision(
                tally.votes@.len() as int,
                tally.bar as int,
                spec_yay_total(tally.votes@),
                spec_nay_total(tally.votes@),
            )
        },
        !spec_is_init(key@) && !spec_contains(key@, "VOTE"@) && !spec_contains(key@, "TALLY"@)
            ==> r.0.votes@ == tally.votes@ && r.0.keys@ == tally.keys@ && r.0.bar == tally.bar
            && r.1 == Ok::<RecordOutcome, RecordError>(RecordOutcome::Unrecognized),
{
    if str_contains(key, "INIT") {
        match parse_u8(value) {
            Some(bar) => {
                let t = tally.set_bar(bar);
                (t, Ok(RecordOutcome::BarSet { bar }))
            },
            None => (tally, Err(RecordError::BadBar)),
        }
    } else if str_contains(key, "VOTE") {
        match find_char(value, '-') {
            Some(i) => {
                proof {
                    lemma_spec_find(value@, '-');
                }
                let n: usize = value.unicode_len();
                let yay_text = value.substring_char(0, i);
                let rest = value.substring_char(i + 1, n);
                let nay_text = match find_char(rest, '-') {
                    Some(j) => {
                        proof {
                            lemma_spec_find(rest@, '-');
                        }
                        rest.substring_char(0, j)
                    },
                    None => rest,
                };
                let t = tally.push_new(key, yay_text, nay_text);
                let idx: usize = t.votes.len() - 1;
                let wire = t.votes[idx].yay_nay_repr();
                (t, Ok(RecordOutcome::VoteStored { key: key.to_owned(), value: wire }))
            },
            None => (tally, Err(RecordError::MissingSeparator)),
        }
    } else if str_contains(key, "TALLY") {
        let result = tally.tally_up();
        (tally, Ok(RecordOutcome::TallyReady { result }))
    } else {
        (tally, Ok(RecordOutcome::Unrecognized))
    }
}

} // verus!
