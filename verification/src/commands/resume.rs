//! The resume command: a stub handler and its descriptor.
use vstd::prelude::*;
use crate::options::ResolvedOption;
use crate::registry::CommandDescriptor;
use crate::replies::spec_stub_reply;

verus! {

/// Replies with the placeholder text, whatever options came in.
pub fn run(_options: &Vec<ResolvedOption>) -> (r: String)
    ensures
        r@ == spec_stub_reply(),
{
    "Not implemented yet.".to_owned()
}

/// The descriptor of the resume command: no options.
pub fn register() -> (r: CommandDescriptor)
    ensures
        r.name@ == "resume"@,
        r.description@ == "Resume the paused song"@,
        r.options@.len() == 0,
{
    CommandDescriptor {
        name: "resume".to_owned(),
        description: "Resume the paused song".to_owned(),
        options: Vec::new(),
    }
}

} // verus!
