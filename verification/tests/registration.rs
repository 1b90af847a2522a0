use serde_json::Value;
use voice_bot::command_spec::{to_create_command, CommandSpec, OptionKind, OptionSpec};
use voice_bot::commands::{check, deafen, leave, linus_timer, mute, play, undeafen, unmute, wonderful_command};
use voice_bot::registry::{guild_commands, guild_registrations};

fn json(command: serenity::builder::CreateCommand) -> Value {
    serde_json::to_value(&command).unwrap()
}

fn assert_plain(command: serenity::builder::CreateCommand, name: &str, description: &str) {
    let value = json(command);
    assert_eq!(value["name"], name);
    assert_eq!(value["description"], description);
    assert_eq!(value["options"].as_array().unwrap().len(), 0);
}

fn plain(name: &str, description: &str) -> CommandSpec {
    CommandSpec { name: name.to_string(), description: description.to_string(), options: Vec::new() }
}

#[test]
fn plain_registrations() {
    assert_eq!(deafen::registration(), plain("deafen", "deafens the bot :)"));
    assert_eq!(leave::registration(), plain("leave", "Leaves the current vc"));
    assert_eq!(mute::registration(), plain("mute", "Mutes me :X"));
    assert_eq!(unmute::registration(), plain("unmute", "Unmutes me :)"));
    assert_eq!(undeafen::registration(), plain("undeafen", "Undeafens me"));
    assert_eq!(
        check::registration(),
        plain("check", " Checks that a message successfully sent; if not, then logs why to stdout.")
    );
    assert_eq!(linus_timer::registration(), plain("linus_timer", "Starts a timer and waits for Linus"));
    assert_eq!(wonderful_command::registration(), plain("wonderful_command", "An amazing command"));
}

#[test]
fn plain_builders() {
    assert_plain(deafen::register(), "deafen", "deafens the bot :)");
    assert_plain(leave::register(), "leave", "Leaves the current vc");
    assert_plain(mute::register(), "mute", "Mutes me :X");
    assert_plain(unmute::register(), "unmute", "Unmutes me :)");
    assert_plain(undeafen::register(), "undeafen", "Undeafens me");
    assert_plain(
        check::register(),
        "check",
        " Checks that a message successfully sent; if not, then logs why to stdout.",
    );
    assert_plain(linus_timer::register(), "linus_timer", "Starts a timer and waits for Linus");
    assert_plain(wonderful_command::register(), "wonderful_command", "An amazing command");
}

#[test]
fn play_registration_has_required_link() {
    let spec = play::registration();
    assert_eq!(spec.name, "play");
    assert_eq!(spec.description, "Plays a song with the provided link");
    assert_eq!(
        spec.options,
        vec![OptionSpec {
            kind: OptionKind::String,
            name: "link".to_string(),
            description: "The link to the song you want to play or a query for yt".to_string(),
            required: true,
        }]
    );
    let value = json(play::register());
    assert_eq!(value["name"], "play");
    assert_eq!(value["description"], "Plays a song with the provided link");
    let options = value["options"].as_array().unwrap();
    assert_eq!(options.len(), 1);
    assert_eq!(options[0]["name"], "link");
    assert_eq!(options[0]["description"], "The link to the song you want to play or a query for yt");
    assert_eq!(options[0]["required"], true);
    assert_eq!(options[0]["type"], 3);
}

#[test]
fn option_kinds_and_optional_options() {
    let spec = CommandSpec {
        name: "roll".to_string(),
        description: "Rolls".to_string(),
        options: vec![
            OptionSpec { kind: OptionKind::Integer, name: "sides".to_string(), description: "d".to_string(), required: false },
            OptionSpec { kind: OptionKind::User, name: "for".to_string(), description: "u".to_string(), required: true },
        ],
    };
    let value = json(to_create_command(&spec));
    let options = value["options"].as_array().unwrap();
    assert_eq!(options.len(), 2);
    assert_eq!(options[0]["type"], 4);
    assert_eq!(options[0]["required"], false);
    assert_eq!(options[1]["name"], "for");
    assert_eq!(options[1]["type"], 6);
    assert_eq!(options[1]["required"], true);
    assert_eq!(OptionKind::Attachment.code(), 11);
}

#[test]
fn guild_registrations_in_order() {
    let specs = guild_registrations(plain("ping", "p"), plain("join", "j"));
    let names: Vec<&str> = specs.iter().map(|s| s.name.as_str()).collect();
    assert_eq!(names, vec!["ping", "deafen", "join", "leave", "play", "undeafen", "mute", "unmute", "check"]);
    assert_eq!(specs[4], play::registration());
}

#[test]
fn guild_commands_in_order() {
    let names: Vec<String> = guild_commands(plain("ping", "p"), plain("join", "j"))
        .into_iter()
        .map(|c| json(c)["name"].as_str().unwrap().to_string())
        .collect();
    assert_eq!(names, vec!["ping", "deafen", "join", "leave", "play", "undeafen", "mute", "unmute", "check"]);
}
