//! The reply texts the handlers produce, as specification-level sequences.
use vstd::prelude::*;
use crate::options::ResolvedOption;

verus! {

/// The fixed reply of every handler that is not implemented yet, and of the
/// dispatcher's fallback for an unrecognized command name.
pub open spec fn spec_stub_reply() -> Seq<char> {
    "Not implemented yet."@
}

/// The ping handler's constant acknowledgement.
pub open spec fn spec_ping_reply() -> Seq<char> {
    "Pong!"@
}

/// The reply when roulette is invoked without its number argument, or with a
/// first option whose value is not an integer.
pub open spec fn spec_invalid_number_reply() -> Seq<char> {
    "Please provide a number from 1 to 5."@
}

/// The roulette reply when the drawn number equals the user's number.
pub open spec fn spec_lose_reply() -> Seq<char> {
    "You lose!"@
}

/// The roulette reply when the drawn number differs from the user's number.
pub open spec fn spec_win_reply() -> Seq<char> {
    "You win!"@
}

/// What the roulette handler replies, given the resolved options of the
/// interaction and the number that the random draw produced: a missing or
/// non-integer number argument gets the defined error reply, an integer
/// loses exactly when it equals the drawn number.
pub open spec fn spec_roulette_reply(opts: Seq<ResolvedOption>, draw: i64) -> Seq<char> {
    if opts.len() == 0 {
        spec_invalid_number_reply()
    } else {
        match opts[0].value.spec_as_i64() {
            Some(u) => if u == draw {
                spec_lose_reply()
            } else {
                spec_win_reply()
            },
            None => spec_invalid_number_reply(),
        }
    }
}

} // verus!
