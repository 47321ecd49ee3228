//! The ping command: a constant acknowledgement.
use vstd::prelude::*;
use crate::options::ResolvedOption;
use crate::registry::CommandDescriptor;
use crate::replies::spec_ping_reply;

verus! {

/// Replies with the constant acknowledgement, whatever options came in.
pub fn run(_options: &Vec<ResolvedOption>) -> (r: String)
    ensures
        r@ == spec_ping_reply(),
{
    "Pong!".to_owned()
}

/// The descriptor of the ping command: no options.
pub fn register() -> (r: CommandDescriptor)
    ensures
        r.name@ == "ping"@,
        r.description@ == "A ping command"@,
        r.options@.len() == 0,
{
    CommandDescriptor {
        name: "ping".to_owned(),
        description: "A ping command".to_owned(),
        options: Vec::new(),
    }
}

} // verus!
