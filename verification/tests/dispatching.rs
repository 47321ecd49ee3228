use jukebot::dispatch::{dispatch, dispatch_with_draw, parse_command_name, CommandName};
use jukebot::options::{OptionValue, ResolvedOption};

fn number_option(n: i64) -> Vec<ResolvedOption> {
    vec![ResolvedOption { name: "number".to_string(), value: OptionValue::Int(n) }]
}

#[test]
fn parse_resolves_each_known_name() {
    assert_eq!(parse_command_name("ping"), CommandName::Ping);
    assert_eq!(parse_command_name("play"), CommandName::Play);
    assert_eq!(parse_command_name("pause"), CommandName::Pause);
    assert_eq!(parse_command_name("resume"), CommandName::Resume);
    assert_eq!(parse_command_name("skip"), CommandName::Skip);
    assert_eq!(parse_command_name("stop"), CommandName::Stop);
    assert_eq!(parse_command_name("queue"), CommandName::Queue);
    assert_eq!(parse_command_name("roulette"), CommandName::Roulette);
}

#[test]
fn parse_sends_other_names_to_the_catch_all() {
    assert_eq!(parse_command_name(""), CommandName::Unknown);
    assert_eq!(parse_command_name("pin"), CommandName::Unknown);
    assert_eq!(parse_command_name("pingg"), CommandName::Unknown);
    assert_eq!(parse_command_name("Queue"), CommandName::Unknown);
    assert_eq!(parse_command_name("unknown_cmd"), CommandName::Unknown);
}

#[test]
fn queue_interaction_with_no_options_gets_placeholder() {
    let opts: Vec<ResolvedOption> = Vec::new();
    assert_eq!(dispatch("queue", &opts), "Not implemented yet.");
}

#[test]
fn roulette_interaction_with_forced_losing_draw() {
    assert_eq!(dispatch_with_draw("roulette", &number_option(3), 3), "You lose!");
}

#[test]
fn roulette_interaction_with_forced_winning_draw() {
    assert_eq!(dispatch_with_draw("roulette", &number_option(3), 1), "You win!");
}

#[test]
fn unknown_interaction_gets_placeholder() {
    let opts: Vec<ResolvedOption> = Vec::new();
    assert_eq!(dispatch("unknown_cmd", &opts), "Not implemented yet.");
}

#[test]
fn ping_interaction_gets_acknowledgement() {
    let opts: Vec<ResolvedOption> = Vec::new();
    assert_eq!(dispatch("ping", &opts), "Pong!");
}

#[test]
fn roulette_interaction_with_random_draw_wins_or_loses() {
    let reply = dispatch("roulette", &number_option(2));
    assert!(reply == "You lose!" || reply == "You win!");
}

#[test]
fn stub_interactions_ignore_their_options() {
    let opts = vec![ResolvedOption {
        name: "query".to_string(),
        value: OptionValue::Text("a song".to_string()),
    }];
    assert_eq!(dispatch("play", &opts), "Not implemented yet.");
    assert_eq!(dispatch("pause", &opts), "Not implemented yet.");
    assert_eq!(dispatch("resume", &opts), "Not implemented yet.");
    assert_eq!(dispatch("skip", &opts), "Not implemented yet.");
    assert_eq!(dispatch("stop", &opts), "Not implemented yet.");
}
