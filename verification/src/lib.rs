//! A small preference-voting core: a codec for named preference levels, vote
//! records, a tally accumulator with a quorum bar, and the consensus decision
//! rule, together with the pure dispatch logic that classifies records
//! observed in a shared key-value store and the parser for the line-oriented
//! command interface. The store itself and all networking stay outside this
//! crate; the functions here take and return plain values.

pub mod command;
pub mod dispatch;
pub mod preference;
pub mod text;
pub mod tally;
pub mod vote;
