//! The dispatcher: maps an incoming interaction's command name to its
//! handler and produces the reply text.
use vstd::prelude::*;
use crate::options::ResolvedOption;
use crate::replies::{spec_ping_reply, spec_roulette_reply, spec_stub_reply};
use crate::strutil::str_eq;

verus! {

/// The closed set of commands the bot understands, plus a catch-all for any
/// other name.
#[derive(PartialEq, Eq, Structural, Clone, Copy, Debug)]
pub enum CommandName {
    Ping,
    Play,
    Pause,
    Resume,
    Skip,
    Stop,
    Queue,
    Roulette,
    Unknown,
}

/// Which command a raw interaction name denotes.
pub open spec fn spec_command_of(n: Seq<char>) -> CommandName {
    if n == "ping"@ {
        CommandName::Ping
    } else if n == "play"@ {
        CommandName::Play
    } else if n == "pause"@ {
        CommandName::Pause
    } else if n == "resume"@ {
        CommandName::Resume
    } else if n == "skip"@ {
        CommandName::Skip
    } else if n == "stop"@ {
        CommandName::Stop
    } else if n == "queue"@ {
        CommandName::Queue
    } else if n == "roulette"@ {
        CommandName::Roulette
    } else {
        CommandName::Unknown
    }
}

/// Resolves a raw command name to the command it denotes.
pub fn parse_command_name(name: &str) -> (c: CommandName)
    ensures
        c == spec_command_of(name@),
{
    if str_eq(name, "ping") {
        CommandName::Ping
    } else if str_eq(name, "play") {
        CommandName::Play
    } else if str_eq(name, "pause") {
        CommandName::Pause
    } else if str_eq(name, "resume") {
        CommandName::Resume
    } else if str_eq(name, "skip") {
        CommandName::Skip
    } else if str_eq(name, "stop") {
        CommandName::Stop
    } else if str_eq(name, "queue") {
        CommandName::Queue
    } else if str_eq(name, "roulette") {
        CommandName::Roulette
    } else {
        CommandName::Unknown
    }
}

/// The reply the bot owes for an interaction, given the raw command name,
/// the resolved options, and the number the roulette draw produced: ping
/// acknowledges, roulette plays the round, every other name - known or not -
/// gets the placeholder text.
pub open spec fn spec_reply(n: Seq<char>, opts: Seq<ResolvedOption>, draw: i64) -> Seq<char> {
    match spec_command_of(n) {
        CommandName::Ping => spec_ping_reply(),
        CommandName::Roulette => spec_roulette_reply(opts, draw),
        _ => spec_stub_reply(),
    }
}

/// Dispatches one interaction with the roulette draw supplied by the caller,
/// so that the reply is a function of the arguments alone.
pub fn dispatch_with_draw(name: &str, options: &Vec<ResolvedOption>, draw: i64) -> (r: String)
    ensures
        r@ == spec_reply(name@, options@, draw),
{
    match parse_command_name(name) {
        CommandName::Ping => crate::commands::ping::run(options),
        CommandName::Play => crate::commands::play::run(options),
        CommandName::Pause => crate::commands::pause::run(options),
        CommandName::Resume => crate::commands::resume::run(options),
        CommandName::Skip => crate::commands::skip::run(options),
        CommandName::Stop => crate::commands::stop::run(options),
        CommandName::Queue => crate::commands::queue::run(options),
        CommandName::Roulette => crate::commands::roulette::run_with_draw(options, draw),
        CommandName::Unknown => "Not implemented yet.".to_owned(),
    }
}

/// Dispatches one interaction as the bot does: the roulette draw is random,
/// every other command's reply is fixed by the name and options alone.
pub fn dispatch(name: &str, options: &Vec<ResolvedOption>) -> (r: String)
    ensures
        exists|d: i64| 1 <= d <= 5 && r@ == #[trigger] spec_reply(name@, options@, d),
        spec_command_of(name@) != CommandName::Roulette ==> r@ == spec_reply(
            name@,
            options@,
            1,
        ),
{
    match parse_command_name(name) {
        CommandName::Roulette => {
            let r = crate::commands::roulette::run(options);
            proof {
                let d = choose|d: i64|
                    1 <= d <= 5 && r@ == #[trigger] spec_roulette_reply(options@, d);
                assert(r@ == spec_reply(name@, options@, d));
            }
            r
        },
        _ => dispatch_with_draw(name, options, 1),
    }
}

/// Every supported command other than ping and roulette replies with the
/// placeholder text, whatever options and draw come in.
pub proof fn lemma_stub_commands_reply(n: Seq<char>, opts: Seq<ResolvedOption>, draw: i64)
    requires
        spec_command_of(n) != CommandName::Ping,
        spec_command_of(n) != CommandName::Roulette,
        spec_command_of(n) != CommandName::Unknown,
    ensures
        spec_reply(n, opts, draw) == spec_stub_reply(),
{
}

/// An unrecognized command name falls back to the placeholder reply,
/// whatever options and draw come in.
pub proof fn lemma_unknown_command_reply(n: Seq<char>, opts: Seq<ResolvedOption>, draw: i64)
    requires
        spec_command_of(n) == CommandName::Unknown,
    ensures
        spec_reply(n, opts, draw) == spec_stub_reply(),
{
}

} // verus!
