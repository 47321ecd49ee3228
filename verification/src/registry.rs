//! The command registry: the fixed set of descriptors the bot publishes to
//! the chat platform at startup.
use vstd::prelude::*;
use crate::options::{OptionKind, OptionSpec};

verus! {

/// What one slash command declares about itself: its name, its description,
/// and the ordered options it accepts.
#[derive(Clone, Debug)]
pub struct CommandDescriptor {
    pub name: String,
    pub description: String,
    pub options: Vec<OptionSpec>,
}

/// The full set of descriptors the bot registers, in the order they are
/// published. The descriptor names are pairwise distinct; every declared
/// option is marked required; play takes one text option, the query;
/// roulette takes one integer option, the number, bounded by exactly 1 and
/// 5; no other command takes an option.
pub fn all_commands() -> (r: Vec<CommandDescriptor>)
    ensures
        r@.len() == 8,
        r@[0].name@ == "ping"@,
        r@[1].name@ == "play"@,
        r@[2].name@ == "pause"@,
        r@[3].name@ == "resume"@,
        r@[4].name@ == "skip"@,
        r@[5].name@ == "stop"@,
        r@[6].name@ == "queue"@,
        r@[7].name@ == "roulette"@,
        forall|i: int, j: int| 0 <= i < j < 8 ==> r@[i].name@ != r@[j].name@,
        forall|i: int, k: int|
            0 <= i < 8 && 0 <= k < r@[i].options@.len() ==> r@[i].options@[k].required,
        r@[0].options@.len() == 0,
        r@[2].options@.len() == 0,
        r@[3].options@.len() == 0,
        r@[4].options@.len() == 0,
        r@[5].options@.len() == 0,
        r@[6].options@.len() == 0,
        r@[1].options@.len() == 1,
        r@[1].options@[0].kind == OptionKind::Text,
        r@[1].options@[0].name@ == "query"@,
        r@[1].options@[0].required,
        r@[7].options@.len() == 1,
        r@[7].options@[0].kind == OptionKind::Int,
        r@[7].options@[0].name@ == "number"@,
        r@[7].options@[0].required,
        r@[7].options@[0].min_int == Some(1i64),
        r@[7].options@[0].max_int == Some(5i64),
{
    let mut r: Vec<CommandDescriptor> = Vec::new();
    r.push(crate::commands::ping::register());
    r.push(crate::commands::play::register());
    r.push(crate::commands::pause::register());
    r.push(crate::commands::resume::register());
    r.push(crate::commands::skip::register());
    r.push(crate::commands::stop::register());
    r.push(crate::commands::queue::register());
    r.push(crate::commands::roulette::register());
    proof {
        reveal_strlit("ping");
        reveal_strlit("play");
        reveal_strlit("pause");
        reveal_strlit("resume");
        reveal_strlit("skip");
        reveal_strlit("stop");
        reveal_strlit("queue");
        reveal_strlit("roulette");
        assert("ping"@.len() == 4 && "play"@.len() == 4 && "pause"@.len() == 5
            && "resume"@.len() == 6 && "skip"@.len() == 4 && "stop"@.len() == 4
            && "queue"@.len() == 5 && "roulette"@.len() == 8);
        assert("ping"@[0] == 'p' && "play"@[0] == 'p' && "skip"@[0] == 's'
            && "stop"@[0] == 's' && "pause"@[0] == 'p' && "queue"@[0] == 'q');
        assert("ping"@[1] == 'i' && "play"@[1] == 'l' && "skip"@[1] == 'k'
            && "stop"@[1] == 't');
        assert("ping"@ != "play"@);
        assert("ping"@ != "pause"@);
        assert("ping"@ != "resume"@);
        assert("ping"@ != "skip"@);
        assert("ping"@ != "stop"@);
        assert("ping"@ != "queue"@);
        assert("ping"@ != "roulette"@);
        assert("play"@ != "pause"@);
        assert("play"@ != "resume"@);
        assert("play"@ != "skip"@);
        assert("play"@ != "stop"@);
        assert("play"@ != "queue"@);
        assert("play"@ != "roulette"@);
        assert("pause"@ != "resume"@);
        assert("pause"@ != "skip"@);
        assert("pause"@ != "stop"@);
        assert("pause"@ != "queue"@);
        assert("pause"@ != "roulette"@);
        assert("resume"@ != "skip"@);
        assert("resume"@ != "stop"@);
        assert("resume"@ != "queue"@);
        assert("resume"@ != "roulette"@);
        assert("skip"@ != "stop"@);
        assert("skip"@ != "queue"@);
        assert("skip"@ != "roulette"@);
        assert("stop"@ != "queue"@);
        assert("stop"@ != "roulette"@);
        assert("queue"@ != "roulette"@);
    }
    r
}

} // verus!
