//! The skip command: a stub handler and its descriptor.
use vstd::prelude::*;
use crate::options::ResolvedOption;
use crate::registry::CommandDescriptor;
use crate::replies::spec_stub_reply;

verus! {

/// Replies with the placeholder text, whatever options came in.
pub fn run(_options: &Vec<ResolvedOption>) -> (r: String)
    ensures
        r@ == spec_stub_reply(),
{
    "Not implemented yet.".to_owned()
}

/// The descriptor of the skip command: no options.
pub fn register() -> (r: CommandDescriptor)
    ensures
        r.name@ == "skip"@,
        r.description@ == "Skip the current song"@,
        r.options@.len() == 0,
{
    CommandDescriptor {
        name: "skip".to_owned(),
        description: "Skip the current song".to_owned(),
        options: Vec::new(),
    }
}

} // verus!
