//! Vote records and the wire form of their scores.
//!
//! A vote pairs a yay preference with a nay preference under a key. Its wire
//! value is `"<yay_score>-<nay_score>"` with each score in its decimal text
//! form, e.g. `0.75-0.25`; the score text round-trips exactly even though the
//! level name behind it does not.

use vstd::prelude::*;
use vstd::string::StringExecFns;

use crate::preference::{spec_parse, spec_score, Preference};
use crate::text::str_eq;

verus! {

/// One participant's yay/nay preference pair, keyed by a vote identifier.
#[derive(Clone, Debug)]
pub struct Vote {
    pub key: String,
    pub yay: Preference,
    pub nay: Preference,
}

/// The decimal text of a level's score: the default rendering of
/// 1, 0.75, 0.5, 0.25, 0 and -1.
pub open spec fn spec_score_text(p: Preference) -> Seq<char> {
    match p {
        Preference::VeryHigh => "1"@,
        Preference::High => "0.75"@,
        Preference::Medium => "0.5"@,
        Preference::Low => "0.25"@,
        Preference::VeryLow => "0"@,
        Preference::Invalid => "-1"@,
    }
}

/// The wire value of a vote: yay score text, a dash, nay score text.
pub open spec fn spec_wire(yay: Preference, nay: Preference) -> Seq<char> {
    spec_score_text(yay) + "-"@ + spec_score_text(nay)
}

/// Score text back to the score it renders, in quarter units; `None` for
/// any text that is not one of the six renderings.
pub open spec fn spec_parse_score(s: Seq<char>) -> Option<i64> {
    if s == "1"@ {
        Some(4i64)
    } else if s == "0.75"@ {
        Some(3i64)
    } else if s == "0.5"@ {
        Some(2i64)
    } else if s == "0.25"@ {
        Some(1i64)
    } else if s == "0"@ {
        Some(0i64)
    } else if s == "-1"@ {
        Some(-4i64)
    } else {
        None
    }
}

impl Preference {
    /// The decimal text of this level's score.
    pub fn score_text(&self) -> (r: String)
        ensures
            r@ == spec_score_text(*self),
    {
        match self {
            Preference::VeryHigh => String::from_str("1"),
            Preference::High => String::from_str("0.75"),
            Preference::Medium => String::from_str("0.5"),
            Preference::Low => String::from_str("0.25"),
            Preference::VeryLow => String::from_str("0"),
            Preference::Invalid => String::from_str("-1"),
        }
    }
}

/// Parse one score text field back to a score in quarter units.
pub fn parse_score(text: &str) -> (r: Option<i64>)
    ensures
        r == spec_parse_score(text@),
{
    if str_eq(text, "1") {
        Some(4)
    } else if str_eq(text, "0.75") {
        Some(3)
    } else if str_eq(text, "0.5") {
        Some(2)
    } else if str_eq(text, "0.25") {
        Some(1)
    } else if str_eq(text, "0") {
        Some(0)
    } else if str_eq(text, "-1") {
        Some(-4)
    } else {
        None
    }
}

impl Vote {
    /// Build a vote from its key and the two preference texts. This never
    /// fails: unrecognised text becomes `Invalid`.
    pub fn new(key: String, yay_pref: &str, nay_pref: &str) -> (v: Vote)
        ensures
            v.key == key,
            v.yay == spec_parse(yay_pref@),
            v.nay == spec_parse(nay_pref@),
    {
        let yay = Preference::new(yay_pref);
        let nay = Preference::new(nay_pref);
        Vote { yay, nay, key }
    }

    /// The wire value of this vote: `"<yay_score>-<nay_score>"`.
    pub fn yay_nay_repr(&self) -> (r: String)
        ensures
            r@ == spec_wire(self.yay, self.nay),
    {
        let mut r = self.yay.score_text();
        r.append("-");
        let nay_text = self.nay.score_text();
        r.append(nay_text.as_str());
        proof {
            assert(r@ =~= spec_wire(self.yay, self.nay));
        }
        r
    }
}

/// A vote's wire value is the two score texts joined by a dash, and each
/// field parses back to exactly the score it rendered: the scores round-trip
/// through the wire form, though the level names behind them do not.
pub proof fn lemma_wire_round_trip(yay: Preference, nay: Preference)
    ensures
        spec_wire(yay, nay) == spec_score_text(yay) + "-"@ + spec_score_text(nay),
        spec_parse_score(spec_score_text(yay)) == Some(spec_score(yay) as i64),
        spec_parse_score(spec_score_text(nay)) == Some(spec_score(nay) as i64),
{
    lemma_score_round_trip(yay);
    lemma_score_round_trip(nay);
}

/// Each score's text parses back to exactly that score: serialising a
/// level's score and re-parsing the numeric field recovers the score,
/// though not the level name behind it.
pub proof fn lemma_score_round_trip(p: Preference)
    ensures
        spec_parse_score(spec_score_text(p)) == Some(spec_score(p) as i64),
{
    broadcast use vstd::string::group_string_axioms;

    reveal_strlit("1");
    reveal_strlit("0.75");
    reveal_strlit("0.5");
    reveal_strlit("0.25");
    reveal_strlit("0");
    reveal_strlit("-1");
    assert("1"@.len() == 1 && "1"@[0] == '1');
    assert("0.75"@.len() == 4 && "0.75"@[0] == '0' && "0.75"@[2] == '7');
    assert("0.5"@.len() == 3 && "0.5"@[2] == '5');
    assert("0.25"@.len() == 4 && "0.25"@[2] == '2');
    assert("0"@.len() == 1 && "0"@[0] == '0');
    assert("-1"@.len() == 2 && "-1"@[0] == '-');
    match p {
        Preference::VeryHigh => assert(spec_parse_score(spec_score_text(p)) == Some(4i64)),
        Preference::High => assert(spec_parse_score(spec_score_text(p)) == Some(3i64)),
        Preference::Medium => assert(spec_parse_score(spec_score_text(p)) == Some(2i64)),
        Preference::Low => assert(spec_parse_score(spec_score_text(p)) == Some(1i64)),
        Preference::VeryLow => assert(spec_parse_score(spec_score_text(p)) == Some(0i64)),
        Preference::Invalid => assert(spec_parse_score(spec_score_text(p)) == Some(-4i64)),
    }
}

} // verus!
