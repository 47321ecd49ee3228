use jukebot::options::OptionKind;
use jukebot::registry::all_commands;

#[test]
fn registry_holds_the_eight_commands_in_order() {
    let commands = all_commands();
    let names: Vec<&str> = commands.iter().map(|c| c.name.as_str()).collect();
    assert_eq!(
        names,
        vec!["ping", "play", "pause", "resume", "skip", "stop", "queue", "roulette"]
    );
}

#[test]
fn registry_names_are_unique() {
    let commands = all_commands();
    for i in 0..commands.len() {
        for j in 0..commands.len() {
            if i != j {
                assert_ne!(commands[i].name, commands[j].name);
            }
        }
    }
}

#[test]
fn registry_marks_every_declared_option_required() {
    let commands = all_commands();
    for command in &commands {
        for option in &command.options {
            assert!(option.required, "option {} of {} is not required", option.name, command.name);
        }
    }
}

#[test]
fn play_descriptor_declares_the_query_option() {
    let commands = all_commands();
    let play = &commands[1];
    assert_eq!(play.name, "play");
    assert_eq!(play.options.len(), 1);
    assert_eq!(play.options[0].kind, OptionKind::Text);
    assert_eq!(play.options[0].name, "query");
    assert!(play.options[0].required);
    assert_eq!(play.options[0].min_int, None);
    assert_eq!(play.options[0].max_int, None);
}

#[test]
fn roulette_descriptor_bounds_the_number_by_one_and_five() {
    let commands = all_commands();
    let roulette = &commands[7];
    assert_eq!(roulette.name, "roulette");
    assert_eq!(roulette.options.len(), 1);
    assert_eq!(roulette.options[0].kind, OptionKind::Int);
    assert_eq!(roulette.options[0].name, "number");
    assert!(roulette.options[0].required);
    assert_eq!(roulette.options[0].min_int, Some(1));
    assert_eq!(roulette.options[0].max_int, Some(5));
}

#[test]
fn descriptors_carry_their_descriptions() {
    let commands = all_commands();
    assert_eq!(commands[0].description, "A ping command");
    assert_eq!(commands[1].description, "Play a song by name or link");
    assert_eq!(
        commands[1].options[0].description,
        "The name of the song you want to play or the youtube/spotify link"
    );
    assert_eq!(
        commands[7].description,
        "Select a number from 1 to 5, if you lose you are kicked from the voice channel"
    );
    assert_eq!(commands[7].options[0].description, "Number from 1 to 5");
}

#[test]
fn repeated_registration_yields_identical_descriptors() {
    let first = all_commands();
    let second = all_commands();
    assert_eq!(first.len(), second.len());
    for (a, b) in first.iter().zip(second.iter()) {
        assert_eq!(a.name, b.name);
        assert_eq!(a.description, b.description);
        assert_eq!(a.options.len(), b.options.len());
        for (x, y) in a.options.iter().zip(b.options.iter()) {
            assert_eq!(x.kind, y.kind);
            assert_eq!(x.name, y.name);
            assert_eq!(x.description, y.description);
            assert_eq!(x.required, y.required);
            assert_eq!(x.min_int, y.min_int);
            assert_eq!(x.max_int, y.max_int);
        }
    }
}

#[test]
fn commands_without_arguments_declare_no_options() {
    let commands = all_commands();
    for i in [0usize, 2, 3, 4, 5, 6] {
        assert!(commands[i].options.is_empty(), "{} should have no options", commands[i].name);
    }
}
