//! The preference codec: five named preference levels plus a sentinel for
//! unrecognised input, each mapped to a fixed numeric score.
//!
//! Scores are held in quarter units so that they stay exact integers: one
//! whole point is 4 quarters. The mapping is VeryHigh = 4 (1.0), High = 3
//! (0.75), Medium = 2 (0.5), Low = 1 (0.25), VeryLow = 0 (0.0) and
//! Invalid = -4 (-1.0).

use vstd::prelude::*;

use crate::text::{eq_ignore_ascii_case, eq_lower};

verus! {

/// A named degree of support or opposition. `Invalid` stands for any input
/// text that is not one of the five level names; it still carries a score.
#[derive(Clone, Copy, PartialEq, Eq, Structural, Debug)]
pub enum Preference {
    VeryHigh,
    High,
    Medium,
    Low,
    VeryLow,
    Invalid,
}

/// The fixed score of each level, in quarter units.
pub open spec fn spec_score(p: Preference) -> int {
    match p {
        Preference::VeryHigh => 4,
        Preference::High => 3,
        Preference::Medium => 2,
        Preference::Low => 1,
        Preference::VeryLow => 0,
        Preference::Invalid => -4,
    }
}

/// Which level a piece of text denotes: a case-insensitive exact match
/// against one of the five level names; anything else is `Invalid`.
pub open spec fn spec_parse(s: Seq<char>) -> Preference {
    if eq_lower(s, "veryhigh"@) {
        Preference::VeryHigh
    } else if eq_lower(s, "high"@) {
        Preference::High
    } else if eq_lower(s, "medium"@) {
        Preference::Medium
    } else if eq_lower(s, "low"@) {
        Preference::Low
    } else if eq_lower(s, "verylow"@) {
        Preference::VeryLow
    } else {
        Preference::Invalid
    }
}

impl Preference {
    /// Parse preference text. Unrecognised text never fails: it yields
    /// `Invalid`, which participates in scoring with -1.0 (four quarters).
    pub fn new(pref: &str) -> (p: Preference)
        ensures
            p == spec_parse(pref@),
    {
        if eq_ignore_ascii_case(pref, "veryhigh") {
            Preference::VeryHigh
        } else if eq_ignore_ascii_case(pref, "high") {
            Preference::High
        } else if eq_ignore_ascii_case(pref, "medium") {
            Preference::Medium
        } else if eq_ignore_ascii_case(pref, "low") {
            Preference::Low
        } else if eq_ignore_ascii_case(pref, "verylow") {
            Preference::VeryLow
        } else {
            Preference::Invalid
        }
    }

    /// The level's score in quarter units.
    pub fn to_score(&self) -> (s: i64)
        ensures
            s == spec_score(*self),
    {
        match self {
            Preference::VeryHigh => 4,
            Preference::High => 3,
            Preference::Medium => 2,
            Preference::Low => 1,
            Preference::VeryLow => 0,
            Preference::Invalid => -4,
        }
    }
}

/// The scores form a fixed strict total order:
/// VeryHigh > High > Medium > Low > VeryLow > Invalid, with values exactly
/// 4, 3, 2, 1, 0 and -4 quarter units (1.0, 0.75, 0.5, 0.25, 0.0 and -1.0).
pub proof fn lemma_score_total_order()
    ensures
        spec_score(Preference::VeryHigh) == 4,
        spec_score(Preference::High) == 3,
        spec_score(Preference::Medium) == 2,
        spec_score(Preference::Low) == 1,
        spec_score(Preference::VeryLow) == 0,
        spec_score(Preference::Invalid) == -4,
        spec_score(Preference::VeryHigh) > spec_score(Preference::High),
        spec_score(Preference::High) > spec_score(Preference::Medium),
        spec_score(Preference::Medium) > spec_score(Preference::Low),
        spec_score(Preference::Low) > spec_score(Preference::VeryLow),
        spec_score(Preference::VeryLow) > spec_score(Preference::Invalid),
{
}

} // verus!
