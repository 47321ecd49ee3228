//! The roulette command: the user picks a number from 1 to 5 and loses when
//! a random draw hits it.
use vstd::prelude::*;
use rand::Rng;
use crate::options::{OptionKind, OptionSpec, ResolvedOption};
use crate::registry::CommandDescriptor;
use crate::replies::{
    spec_invalid_number_reply, spec_lose_reply, spec_roulette_reply, spec_win_reply,
};

verus! {

/// Relies on rand::thread_rng and rand::Rng::gen_range: sampling the
/// non-empty range 1..=5 returns a value between 1 and 5 and does not panic.
#[verifier::external_body]
fn draw_one_to_five() -> (r: i64)
    ensures
        1 <= r <= 5,
{
    rand::thread_rng().gen_range(1..=5)
}

/// The roulette reply for a known draw: a missing or non-integer number
/// argument gets a defined error reply, an integer loses exactly when it
/// equals the drawn number.
pub fn run_with_draw(options: &Vec<ResolvedOption>, draw: i64) -> (r: String)
    ensures
        r@ == spec_roulette_reply(options@, draw),
{
    if options.len() == 0 {
        return "Please provide a number from 1 to 5.".to_owned();
    }
    match options[0].value.as_i64() {
        Some(n) => if n == draw {
            "You lose!".to_owned()
        } else {
            "You win!".to_owned()
        },
        None => "Please provide a number from 1 to 5.".to_owned(),
    }
}

/// Plays one round: draws a random number from 1 to 5 and compares it with
/// the number option the user supplied.
pub fn run(options: &Vec<ResolvedOption>) -> (r: String)
    ensures
        exists|d: i64| 1 <= d <= 5 && r@ == #[trigger] spec_roulette_reply(options@, d),
        options@.len() == 0 || options@[0].value.spec_as_i64() is None ==> r@
            == spec_invalid_number_reply(),
        options@.len() > 0 && (options@[0].value.spec_as_i64() matches Some(u) && !(1 <= u
            <= 5)) ==> r@ == spec_win_reply(),
{
    let draw = draw_one_to_five();
    let r = run_with_draw(options, draw);
    proof {
        assert(1 <= draw <= 5 && r@ == spec_roulette_reply(options@, draw));
    }
    r
}

/// The descriptor of the roulette command: one required integer option,
/// bounded by 1 and 5.
pub fn register() -> (r: CommandDescriptor)
    ensures
        r.name@ == "roulette"@,
        r.description@
            == "Select a number from 1 to 5, if you lose you are kicked from the voice channel"@,
        r.options@.len() == 1,
        r.options@[0].kind == OptionKind::Int,
        r.options@[0].name@ == "number"@,
        r.options@[0].description@ == "Number from 1 to 5"@,
        r.options@[0].required,
        r.options@[0].min_int == Some(1i64),
        r.options@[0].max_int == Some(5i64),
{
    let mut options: Vec<OptionSpec> = Vec::new();
    options.push(OptionSpec {
        kind: OptionKind::Int,
        name: "number".to_owned(),
        description: "Number from 1 to 5".to_owned(),
        required: true,
        min_int: Some(1),
        max_int: Some(5),
    });
    CommandDescriptor {
        name: "roulette".to_owned(),
        description: "Select a number from 1 to 5, if you lose you are kicked from the voice channel"
            .to_owned(),
        options,
    }
}

/// For every number the user can pick there is a draw on which the round is
/// lost and another on which it is won.
pub proof fn lemma_roulette_draws_exist(u: i64, opts: Seq<ResolvedOption>)
    requires
        1 <= u <= 5,
        opts.len() > 0,
        opts[0].value.spec_as_i64() == Some(u),
    ensures
        spec_roulette_reply(opts, u) == spec_lose_reply(),
        exists|d: i64|
            1 <= d <= 5 && d != u && #[trigger] spec_roulette_reply(opts, d) == spec_win_reply(),
{
    let d: i64 = if u == 1 { 2 } else { 1 };
    assert(1 <= d <= 5 && d != u && spec_roulette_reply(opts, d) == spec_win_reply());
}

} // verus!
