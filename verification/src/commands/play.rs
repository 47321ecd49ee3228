//! The play command: a stub handler and its descriptor.
use vstd::prelude::*;
use crate::options::{OptionKind, OptionSpec, ResolvedOption};
use crate::registry::CommandDescriptor;
use crate::replies::spec_stub_reply;

verus! {

/// Replies with the placeholder text, whatever options came in.
pub fn run(_options: &Vec<ResolvedOption>) -> (r: String)
    ensures
        r@ == spec_stub_reply(),
{
    "Not implemented yet.".to_owned()
}

/// The descriptor of the play command: one required text option, the song
/// name or link.
pub fn register() -> (r: CommandDescriptor)
    ensures
        r.name@ == "play"@,
        r.description@ == "Play a song by name or link"@,
        r.options@.len() == 1,
        r.options@[0].kind == OptionKind::Text,
        r.options@[0].name@ == "query"@,
        r.options@[0].description@
            == "The name of the song you want to play or the youtube/spotify link"@,
        r.options@[0].required,
        r.options@[0].min_int is None,
        r.options@[0].max_int is None,
{
    let mut options: Vec<OptionSpec> = Vec::new();
    options.push(OptionSpec {
        kind: OptionKind::Text,
        name: "query".to_owned(),
        description: "The name of the song you want to play or the youtube/spotify link".to_owned(),
        required: true,
        min_int: None,
        max_int: None,
    });
    CommandDescriptor {
        name: "play".to_owned(),
        description: "Play a song by name or link".to_owned(),
        options,
    }
}

} // verus!
