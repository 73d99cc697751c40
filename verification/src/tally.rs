//! The tally accumulator and the consensus decision rule.
//!
//! A tally holds the votes observed during one voting session, the parallel
//! sequence of their keys, and the quorum bar. Evaluating it sums the yay and
//! nay scores independently (in quarter units) and classifies the outcome.

use vstd::prelude::*;

use crate::preference::spec_score;
use crate::vote::Vote;

verus! {

/// The terminal classification of a tally.
#[derive(Clone, Copy, PartialEq, Eq, Structural, Debug)]
pub enum Consensus {
    YayReached,
    NayReached,
    Impasse,
    BarNotMet,
}

/// A snapshot of one evaluation: both totals (quarter units) and the decision.
#[derive(Clone, Copy, PartialEq, Eq, Structural, Debug)]
pub struct TallyResult {
    pub yays_consensus: i128,
    pub nays_consensus: i128,
    pub result: Consensus,
}

/// The accumulated votes, their keys, and the quorum bar of one session.
#[derive(Clone, Debug)]
pub struct Tally {
    pub keys: Vec<String>,
    pub votes: Vec<Vote>,
    pub bar: u8,
}

/// The decision rule over the two totals, strict comparison with no
/// tolerance: a larger nay total reaches nay, a larger yay total reaches
/// yay, equality is an impasse.
pub open spec fn spec_consensus(yay: int, nay: int) -> Consensus {
    if nay > yay {
        Consensus::NayReached
    } else if nay < yay {
        Consensus::YayReached
    } else {
        Consensus::Impasse
    }
}

/// The sum of the yay scores of a sequence of votes, in quarter units.
pub open spec fn spec_yay_total(votes: Seq<Vote>) -> int
    decreases votes.len(),
{
    if votes.len() == 0 {
        0
    } else {
        spec_yay_total(votes.drop_last()) + spec_score(votes.last().yay)
    }
}

/// The sum of the nay scores of a sequence of votes, in quarter units.
pub open spec fn spec_nay_total(votes: Seq<Vote>) -> int
    decreases votes.len(),
{
    if votes.len() == 0 {
        0
    } else {
        spec_nay_total(votes.drop_last()) + spec_score(votes.last().nay)
    }
}

/// The decision for given vote count, bar and totals: below the bar the
/// verdict is withheld, otherwise the comparison rule applies.
pub open spec fn spec_decision(count: int, bar: int, yay: int, nay: int) -> Consensus {
    if count < bar {
        Consensus::BarNotMet
    } else {
        spec_consensus(yay, nay)
    }
}

impl Consensus {
    /// Classify two totals by strict comparison.
    pub fn new(cons_yay: i128, cons_nay: i128) -> (c: Consensus)
        ensures
            c == spec_consensus(cons_yay as int, cons_nay as int),
    {
        if cons_nay > cons_yay {
            return Consensus::NayReached;
        } else if cons_nay < cons_yay {
            return Consensus::YayReached;
        }
        Consensus::Impasse
    }
}

impl TallyResult {
    /// Pair the totals with their decision. When the bar was not met the
    /// verdict is withheld but the totals are still reported, so a caller
    /// can see how close the session is.
    pub fn new(yays_consensus: i128, nays_consensus: i128, bar_met: bool) -> (r: TallyResult)
        ensures
            r.yays_consensus == yays_consensus,
            r.nays_consensus == nays_consensus,
            !bar_met ==> r.result == Consensus::BarNotMet,
            bar_met ==> r.result == spec_consensus(yays_consensus as int, nays_consensus as int),
    {
        if !bar_met {
            return TallyResult { yays_consensus, nays_consensus, result: Consensus::BarNotMet };
        }
        let result = Consensus::new(yays_consensus, nays_consensus);
        TallyResult { yays_consensus, nays_consensus, result }
    }
}

impl Tally {
    /// The keys run parallel to the votes: same length, and each key is the
    /// key of the vote at its position.
    pub open spec fn wf(self) -> bool {
        &&& self.keys@.len() == self.votes@.len()
        &&& forall|i: int| 0 <= i < self.votes@.len() ==> self.keys@[i]@ == self.votes@[i].key@
    }

    /// An empty session: no votes, bar 0.
    pub fn new() -> (t: Tally)
        ensures
            t.votes@.len() == 0,
            t.keys@.len() == 0,
            t.bar == 0,
            t.wf(),
    {
        let tallies: Vec<Vote> = Vec::new();
        let keys: Vec<String> = Vec::new();
        Tally { votes: tallies, keys, bar: 0u8 }
    }

    /// The same session with the bar replaced.
    pub fn set_bar(self, bar: u8) -> (t: Tally)
        ensures
            t.votes@ == self.votes@,
            t.keys@ == self.keys@,
            t.bar == bar,
            self.wf() ==> t.wf(),
    {
        let mut t = self;
        t.bar = bar;
        t
    }

    /// Ingest one observed vote: parse the two preference texts, append the
    /// vote and its key to the parallel sequences. The caller re-publishes
    /// the vote's wire record to the store; see `Vote::yay_nay_repr`.
    pub fn push_new(self, key_str: &str, yay_pref: &str, nay_pref: &str) -> (t: Tally)
        ensures
            t.bar == self.bar,
            t.votes@.len() == self.votes@.len() + 1,
            t.votes@.subrange(0, self.votes@.len() as int) == self.votes@,
            t.votes@.last().key@ == key_str@,
            t.votes@.last().yay == crate::preference::spec_parse(yay_pref@),
            t.votes@.last().nay == crate::preference::spec_parse(nay_pref@),
            t.keys@.len() == self.keys@.len() + 1,
            t.keys@.subrange(0, self.keys@.len() as int) == self.keys@,
            t.keys@.last()@ == key_str@,
            self.wf() ==> t.wf(),
    {
        let mut t = self;
        let new_vote = Vote::new(key_str.to_owned(), yay_pref, nay_pref);
        t.votes.push(new_vote);
        t.keys.push(key_str.to_owned());
        proof {
            assert(t.votes@.subrange(0, t.votes@.len() - 1) =~= t.votes@.drop_last());
            assert(t.keys@.subrange(0, t.keys@.len() - 1) =~= t.keys@.drop_last());
        }
        t
    }

    /// Evaluate the session: both totals over all accumulated votes, and
    /// the decision, which is withheld when fewer votes than the bar have
    /// been seen.
    pub fn tally_up(&self) -> (r: TallyResult)
        ensures
            r.yays_consensus == spec_yay_total(self.votes@),
            r.nays_consensus == spec_nay_total(self.votes@),
            r.result == spec_decision(
                self.votes@.len() as int,
                self.bar as int,
                spec_yay_total(self.votes@),
                spec_nay_total(self.votes@),
            ),
    {
        let mut bar_met = true;
        if self.votes.len() < self.bar as usize {
            bar_met = false;
        }
        let mut yays_consensus: i128 = 0;
        let mut nays_consensus: i128 = 0;
        let n: usize = self.votes.len();
        let mut i: usize = 0;
        while i < n
            invariant
                0 <= i <= n,
                n == self.votes@.len(),
                yays_consensus == spec_yay_total(self.votes@.subrange(0, i as int)),
                nays_consensus == spec_nay_total(self.votes@.subrange(0, i as int)),
                -4 * i <= yays_consensus <= 4 * i,
                -4 * i <= nays_consensus <= 4 * i,
            decreases n - i,
        {
            let vote = &self.votes[i];
            let yay_q: i64 = vote.yay.to_score();
            let nay_q: i64 = vote.nay.to_score();
            proof {
                assert(self.votes@.subrange(0, i + 1).drop_last() =~= self.votes@.subrange(
                    0,
                    i as int,
                ));
                assert(self.votes@.subrange(0, i + 1).last() == self.votes@[i as int]);
            }
            yays_consensus = yays_consensus + yay_q as i128;
            nays_consensus = nays_consensus + nay_q as i128;
            i = i + 1;
        }
        proof {
            assert(self.votes@.subrange(0, n as int) =~= self.votes@);
        }
        TallyResult::new(yays_consensus, nays_consensus, bar_met)
    }
}

/// Below the bar the verdict is withheld whatever the totals are: with
/// fewer votes than the bar the decision is `BarNotMet` regardless of the
/// score values.
pub proof fn lemma_bar_gate(count: int, bar: int, yay: int, nay: int)
    ensures
        count < bar ==> spec_decision(count, bar, yay, nay) == Consensus::BarNotMet,
        count >= bar ==> spec_decision(count, bar, yay, nay) == spec_consensus(yay, nay),
{
}

/// The yay total of a sequence of votes, with the vote at position `i`
/// counted out in front.
proof fn lemma_yay_total_remove(votes: Seq<Vote>, i: int)
    requires
        0 <= i < votes.len(),
    ensures
        spec_yay_total(votes) == spec_score(votes[i].yay) + spec_yay_total(votes.remove(i)),
    decreases votes.len(),
{
    if i == votes.len() - 1 {
        assert(votes.remove(i) =~= votes.drop_last());
    } else {
        let shorter = votes.drop_last();
        lemma_yay_total_remove(shorter, i);
        assert(votes.remove(i).drop_last() =~= shorter.remove(i));
        assert(votes.remove(i).last() == votes.last());
    }
}

/// The nay counterpart of `lemma_yay_total_remove`.
proof fn lemma_nay_total_remove(votes: Seq<Vote>, i: int)
    requires
        0 <= i < votes.len(),
    ensures
        spec_nay_total(votes) == spec_score(votes[i].nay) + spec_nay_total(votes.remove(i)),
    decreases votes.len(),
{
    if i == votes.len() - 1 {
        assert(votes.remove(i) =~= votes.drop_last());
    } else {
        let shorter = votes.drop_last();
        lemma_nay_total_remove(shorter, i);
        assert(votes.remove(i).drop_last() =~= shorter.remove(i));
        assert(votes.remove(i).last() == votes.last());
    }
}

/// The totals depend only on which votes were ingested, not on the order of
/// ingestion: two sessions that saw the same votes as a multiset have equal
/// yay totals and equal nay totals.
pub proof fn lemma_totals_order_independent(a: Seq<Vote>, b: Seq<Vote>)
    requires
        a.to_multiset() == b.to_multiset(),
    ensures
        spec_yay_total(a) == spec_yay_total(b),
        spec_nay_total(a) == spec_nay_total(b),
    decreases a.len(),
{
    broadcast use vstd::seq_lib::group_to_multiset_ensures;

    if a.len() == 0 {
        assert(b.to_multiset().len() == 0);
        assert(b.len() == 0);
    } else {
        let x = a.last();
        let last = a.len() - 1;
        assert(a.remove(last).to_multiset() =~= a.to_multiset().remove(x));
        assert(a.to_multiset().count(x) > 0);
        assert(b.to_multiset().count(x) > 0);
        assert(b.contains(x));
        let j = choose|j: int| 0 <= j < b.len() && b[j] == x;
        assert(b.remove(j).to_multiset() =~= b.to_multiset().remove(x));
        assert(a.remove(last) =~= a.drop_last());
        lemma_totals_order_independent(a.drop_last(), b.remove(j));
        lemma_yay_total_remove(b, j);
        lemma_nay_total_remove(b, j);
    }
}

} // verus!
