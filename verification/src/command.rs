//! The line-oriented command interface: `INIT <name> <bar>`,
//! `VOTE <name> <yay> <nay>` and `TALLY`, parsed into the key/value record
//! that is to be published to the store. Tokens are the fields between
//! single spaces; a missing argument is a reported error.

use vstd::prelude::*;
use vstd::string::StringExecFns;

use crate::text::{find_char, lemma_spec_find, spec_find, str_eq};

verus! {

/// A key/value pair ready to be published to the store.
#[derive(Clone, Debug)]
pub struct WireRecord {
    pub key: String,
    pub value: String,
}

/// A malformed user command: a missing argument, or an unknown verb.
#[derive(Clone, Copy, PartialEq, Eq, Structural, Debug)]
pub enum CommandError {
    ExpectedVoteName,
    ExpectedBar,
    ExpectedKey,
    ExpectedYayPreference,
    ExpectedNayPreference,
    UnknownCommand,
}

/// The first space-separated token of `s`: everything before the first
/// space, or all of `s` when it has none.
pub open spec fn spec_token(s: Seq<char>) -> Seq<char> {
    if spec_find(s, ' ') == -1 {
        s
    } else {
        s.subrange(0, spec_find(s, ' '))
    }
}

/// What follows the first space of `s`, or `None` when it has none.
pub open spec fn spec_rest(s: Seq<char>) -> Option<Seq<char>> {
    if spec_find(s, ' ') == -1 {
        None
    } else {
        Some(s.subrange(spec_find(s, ' ') + 1, s.len() as int))
    }
}

/// The second token of a command line, when there is one.
pub open spec fn spec_arg1(line: Seq<char>) -> Option<Seq<char>> {
    match spec_rest(line) {
        None => None,
        Some(r) => Some(spec_token(r)),
    }
}

/// What follows the second space, when there is one.
pub open spec fn spec_rest2(line: Seq<char>) -> Option<Seq<char>> {
    match spec_rest(line) {
        None => None,
        Some(r) => spec_rest(r),
    }
}

/// The third token of a command line, when there is one.
pub open spec fn spec_arg2(line: Seq<char>) -> Option<Seq<char>> {
    match spec_rest2(line) {
        None => None,
        Some(r) => Some(spec_token(r)),
    }
}

/// What follows the third space, when there is one.
pub open spec fn spec_rest3(line: Seq<char>) -> Option<Seq<char>> {
    match spec_rest2(line) {
        None => None,
        Some(r) => spec_rest(r),
    }
}

/// The fourth token of a command line, when there is one.
pub open spec fn spec_arg3(line: Seq<char>) -> Option<Seq<char>> {
    match spec_rest3(line) {
        None => None,
        Some(r) => Some(spec_token(r)),
    }
}

/// The first space-separated token of `s`.
fn token_of<'a>(s: &'a str) -> (t: &'a str)
    ensures
        t@ == spec_token(s@),
{
    proof {
        lemma_spec_find(s@, ' ');
    }
    match find_char(s, ' ') {
        Some(i) => s.substring_char(0, i),
        None => s,
    }
}

/// What follows the first space of `s`, when it has one.
fn rest_of<'a>(s: &'a str) -> (r: Option<&'a str>)
    ensures
        r is Some <==> spec_rest(s@) is Some,
        r is Some ==> r.unwrap()@ == spec_rest(s@).unwrap(),
{
    proof {
        lemma_spec_find(s@, ' ');
    }
    match find_char(s, ' ') {
        Some(i) => {
            let n: usize = s.unicode_len();
            Some(s.substring_char(i + 1, n))
        },
        None => None,
    }
}

/// Parse one command line into the record to publish. The three verbs are
/// matched exactly; each missing argument is reported as the error the verb
/// owes it, and any other first token is an unknown command.
pub fn parse_command(line: &str) -> (r: Result<WireRecord, CommandError>)
    ensures
        spec_token(line@) == "INIT"@ && spec_arg1(line@) is None ==> r == Err::<
            WireRecord,
            CommandError,
        >(CommandError::ExpectedVoteName),
        spec_token(line@) == "INIT"@ && spec_arg1(line@) is Some && spec_arg2(line@) is None
            ==> r == Err::<WireRecord, CommandError>(CommandError::ExpectedBar),
        spec_token(line@) == "INIT"@ && spec_arg1(line@) is Some && spec_arg2(line@) is Some
            ==> (r matches Ok(rec) && rec.key@ == "INIT-"@ + spec_arg1(line@).unwrap()
            && rec.value@ == spec_arg2(line@).unwrap()),
        spec_token(line@) == "VOTE"@ && spec_arg1(line@) is None ==> r == Err::<
            WireRecord,
            CommandError,
        >(CommandError::ExpectedKey),
        spec_token(line@) == "VOTE"@ && spec_arg1(line@) is Some && spec_arg2(line@) is None
            ==> r == Err::<WireRecord, CommandError>(CommandError::ExpectedYayPreference),
        spec_token(line@) == "VOTE"@ && spec_arg1(line@) is Some && spec_arg2(line@) is Some
            && spec_arg3(line@) is None ==> r == Err::<WireRecord, CommandError>(
            CommandError::ExpectedNayPreference,
        ),
        spec_token(line@) == "VOTE"@ && spec_arg1(line@) is Some && spec_arg2(line@) is Some
            && spec_arg3(line@) is Some ==> (r matches Ok(rec) && rec.key@ == "VOTE-"@
            + spec_arg1(line@).unwrap() && rec.value@ == spec_arg2(line@).unwrap() + "-"@
            + spec_arg3(line@).unwrap()),
        spec_token(line@) == "TALLY"@ ==> (r matches Ok(rec) && rec.key@ == "TALLY"@
            && rec.value@ == Seq::<char>::empty()),
        spec_token(line@) != "INIT"@ && spec_token(line@) != "VOTE"@ && spec_token(line@)
            != "TALLY"@ ==> r == Err::<WireRecord, CommandError>(CommandError::UnknownCommand),
{
    proof {
        broadcast use vstd::string::group_string_axioms;

        reveal_strlit("INIT");
        reveal_strlit("VOTE");
        reveal_strlit("TALLY");
        assert("INIT"@.len() == 4 && "INIT"@[0] == 'I');
        assert("VOTE"@.len() == 4 && "VOTE"@[0] == 'V');
        assert("TALLY"@.len() == 5);
    }
    let t0 = token_of(line);
    if str_eq(t0, "INIT") {
        let r1 = match rest_of(line) {
            Some(r) => r,
            None => {
                return Err(CommandError::ExpectedVoteName);
            },
        };
        let name = token_of(r1);
        let r2 = match rest_of(r1) {
            Some(r) => r,
            None => {
                return Err(CommandError::ExpectedBar);
            },
        };
        let bar = token_of(r2);
        let mut key = String::from_str("INIT-");
        key.append(name);
        Ok(WireRecord { key, value: bar.to_owned() })
    } else if str_eq(t0, "VOTE") {
        let r1 = match rest_of(line) {
            Some(r) => r,
            None => {
                return Err(CommandError::ExpectedKey);
            },
        };
        let name = token_of(r1);
        let r2 = match rest_of(r1) {
            Some(r) => r,
            None => {
                return Err(CommandError::ExpectedYayPreference);
            },
        };
        let yay_pref = token_of(r2);
        let r3 = match rest_of(r2) {
            Some(r) => r,
            None => {
                return Err(CommandError::ExpectedNayPreference);
            },
        };
        let nay_pref = token_of(r3);
        let mut key = String::from_str("VOTE-");
        key.append(name);
        let mut value = yay_pref.to_owned();
        value.append("-");
        value.append(nay_pref);
        proof {
            assert(value@ =~= spec_arg2(line@).unwrap() + "-"@ + spec_arg3(line@).unwrap());
        }
        Ok(WireRecord { key, value })
    } else if str_eq(t0, "TALLY") {
        Ok(WireRecord { key: String::from_str("TALLY"), value: String::new() })
    } else {
        Err(CommandError::UnknownCommand)
    }
}

} // verus!
