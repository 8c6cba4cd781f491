use mrvn_front_discord::commands::{register_commands, CommandKind};
use mrvn_front_discord::config::{Config, Greet, MessageTemplate};
use mrvn_front_discord::error::Error;
use mrvn_front_discord::frontend::Frontend;
use mrvn_front_discord::message::{ActionMessage, Message, ResponseMessage};
use mrvn_front_discord::text::{decimal_string, push_decimal, render_template, Substitution};
use serenity::builder::CreateEmbed;

fn template(key: &str, text: &str) -> MessageTemplate {
    MessageTemplate { key: key.to_string(), text: text.to_string() }
}

fn config(messages: Vec<MessageTemplate>) -> Config {
    Config {
        messages,
        action_embed_color: 0x111111,
        response_embed_color: 0x222222,
        error_embed_color: 0x333333,
        greets: None,
    }
}

fn substitution(name: &str, value: &str) -> Substitution {
    Substitution { name: name.to_string(), value: value.to_string() }
}

#[test]
fn numbers_are_written_in_decimal() {
    assert_eq!(decimal_string(0), "0");
    assert_eq!(decimal_string(7), "7");
    assert_eq!(decimal_string(10), "10");
    assert_eq!(decimal_string(1234567890), "1234567890");
    assert_eq!(decimal_string(u64::MAX), "18446744073709551615");
    let mut text = String::from("n=");
    push_decimal(&mut text, 905);
    assert_eq!(text, "n=905");
}

#[test]
fn placeholders_give_way_to_values() {
    let substitutions = vec![substitution("a", "1"), substitution("bc", "two")];
    assert_eq!(render_template("{a} and {bc}", &substitutions), "1 and two");
    assert_eq!(render_template("{a}{a}{bc}", &substitutions), "11two");
    assert_eq!(render_template("", &substitutions), "");
    assert_eq!(render_template("none here", &substitutions), "none here");
}

#[test]
fn unknown_and_broken_placeholders_stay() {
    let substitutions = vec![substitution("a", "1")];
    assert_eq!(render_template("{b} {a", &substitutions), "{b} {a");
    assert_eq!(render_template("{ a} {a }", &substitutions), "{ a} {a }");
    assert_eq!(render_template("{{a}}", &substitutions), "{1}");
    assert_eq!(render_template("{a", &substitutions), "{a");
    assert_eq!(render_template("{", &substitutions), "{");
    assert_eq!(render_template("{a}", &Vec::new()), "{a}");
}

#[test]
fn a_value_is_not_read_again() {
    let substitutions = vec![substitution("a", "{b}"), substitution("b", "x")];
    assert_eq!(render_template("{a}{b}", &substitutions), "{b}x");
}

#[test]
fn the_first_substitution_of_a_name_counts() {
    let substitutions = vec![substitution("a", "first"), substitution("a", "second")];
    assert_eq!(render_template("{a}", &substitutions), "first");
}

#[test]
fn texts_beyond_ascii_are_rendered() {
    let substitutions = vec![substitution("titel", "Für Elise")];
    assert_eq!(render_template("♪ {titel} ♪", &substitutions), "♪ Für Elise ♪");
}

#[test]
fn a_message_without_a_text_is_its_key() {
    let config = config(vec![template("response.pet", "https://pets.example/pet.png")]);
    assert_eq!(config.get_raw_message("response.pet"), "https://pets.example/pet.png");
    assert_eq!(config.get_raw_message("response.shiny_pet"), "response.shiny_pet");
    assert_eq!(config.get_message("missing {a}", &vec![substitution("a", "1")]), "missing 1");
}

#[test]
fn the_first_text_of_a_key_counts() {
    let config = config(vec![template("k", "one"), template("k", "two")]);
    assert_eq!(config.get_raw_message("k"), "one");
}

#[test]
fn raw_messages_keep_their_braces() {
    let config = config(vec![template("action.unknown_error", "oops {count}")]);
    assert_eq!(ActionMessage::UnknownError.to_string(&config), "oops {count}");
}

#[test]
fn action_messages_fill_their_texts() {
    let config = config(vec![
        template("action.playing", "{song_title}|{song_url}|{voice_channel_id}|{user_id}"),
        template("action.playing_response", "{song_title}|{song_url}|{voice_channel_id}|{user_id}"),
        template("action.finished", "done in {voice_channel_id}"),
        template("action.no_speakers_error", "no speakers in {voice_channel_id}"),
    ]);
    let playing = ActionMessage::Playing {
        song_title: "T".to_string(),
        song_url: "U".to_string(),
        voice_channel_id: 10,
        user_id: 42,
    };
    assert_eq!(playing.to_string(&config), "T|U|10|42");
    let response = ActionMessage::PlayingResponse {
        song_title: "T".to_string(),
        song_url: "U".to_string(),
        voice_channel_id: 10,
    };
    assert_eq!(response.to_string(&config), "T|U|10|{user_id}");
    assert_eq!(ActionMessage::Finished { voice_channel_id: 7 }.to_string(&config), "done in 7");
    assert_eq!(
        ActionMessage::NoSpeakersError { voice_channel_id: 8 }.to_string(&config),
        "no speakers in 8"
    );
}

#[test]
fn votes_needed_are_told_in_singular_and_plural() {
    let config = config(vec![
        template("response.skip_more_votes_needed.singular", "one more for {song_title} in {voice_channel_id}, {count}"),
        template("response.skip_more_votes_needed.plural", "{count} more for {song_title} in {voice_channel_id}"),
        template("response.stop_more_votes_needed.singular", "one more in {voice_channel_id}, {count}"),
        template("response.stop_more_votes_needed.plural", "{count} more in {voice_channel_id}"),
    ]);
    let skip = |count| ResponseMessage::SkipMoreVotesNeeded {
        song_title: "T".to_string(),
        song_url: "U".to_string(),
        voice_channel_id: 10,
        count,
    };
    assert_eq!(skip(1).to_string(&config), "one more for T in 10, {count}");
    assert_eq!(skip(2).to_string(&config), "2 more for T in 10");
    assert_eq!(skip(0).to_string(&config), "0 more for T in 10");
    let stop = |count| ResponseMessage::StopMoreVotesNeeded { voice_channel_id: 10, count };
    assert_eq!(stop(1).to_string(&config), "one more in 10, {count}");
    assert_eq!(stop(3).to_string(&config), "3 more in 10");
}

#[test]
fn response_messages_fill_their_texts() {
    let all = "{song_title}|{song_url}|{voice_channel_id}|{user_id}|{count}";
    let replaced = "{old_song_title}|{old_song_url}|{new_song_title}|{new_song_url}|{voice_channel_id}";
    let keys = [
        "response.queued",
        "response.queued_multiple",
        "response.queued_no_speakers",
        "response.queued_multiple_no_speakers",
        "response.paused",
        "response.skipped",
        "response.stopped",
        "response.skip_already_voted_error",
        "response.stop_already_voted_error",
        "response.nothing_is_queued_error",
        "response.nothing_is_playing_error",
        "response.already_playing_error",
        "response.now_playing",
    ];
    let mut messages: Vec<MessageTemplate> = keys.iter().map(|key| template(key, &format!("{}:{}", key, all))).collect();
    messages.push(template("response.replaced", replaced));
    messages.push(template("response.replace_skipped", replaced));
    messages.push(template("response.no_matching_songs_error", "nothing found"));
    messages.push(template("response.not_in_voice_channel_error", "join a channel"));
    messages.push(template("response.unsupported_site_error", "not from there"));
    let config = config(messages);
    let t = || "T".to_string();
    let u = || "U".to_string();
    let cases = vec![
        (ResponseMessage::Queued { song_title: t(), song_url: u() }, "response.queued:T|U|{voice_channel_id}|{user_id}|{count}"),
        (ResponseMessage::QueuedMultiple { count: 12 }, "response.queued_multiple:{song_title}|{song_url}|{voice_channel_id}|{user_id}|12"),
        (ResponseMessage::QueuedNoSpeakers { song_title: t(), song_url: u() }, "response.queued_no_speakers:T|U|{voice_channel_id}|{user_id}|{count}"),
        (ResponseMessage::QueuedMultipleNoSpeakers { count: 3 }, "response.queued_multiple_no_speakers:{song_title}|{song_url}|{voice_channel_id}|{user_id}|3"),
        (ResponseMessage::Paused { song_title: t(), song_url: u(), voice_channel_id: 10, user_id: 42 }, "response.paused:T|U|10|42|{count}"),
        (ResponseMessage::Skipped { song_title: t(), song_url: u(), voice_channel_id: 10, user_id: 42 }, "response.skipped:T|U|10|42|{count}"),
        (ResponseMessage::Stopped { song_title: t(), song_url: u(), voice_channel_id: 10, user_id: 42 }, "response.stopped:T|U|10|42|{count}"),
        (ResponseMessage::SkipAlreadyVotedError { song_title: t(), song_url: u(), voice_channel_id: 10 }, "response.skip_already_voted_error:T|U|10|{user_id}|{count}"),
        (ResponseMessage::StopAlreadyVotedError { voice_channel_id: 10 }, "response.stop_already_voted_error:{song_title}|{song_url}|10|{user_id}|{count}"),
        (ResponseMessage::NothingIsQueuedError { voice_channel_id: 10 }, "response.nothing_is_queued_error:{song_title}|{song_url}|10|{user_id}|{count}"),
        (ResponseMessage::NothingIsPlayingError { voice_channel_id: 10 }, "response.nothing_is_playing_error:{song_title}|{song_url}|10|{user_id}|{count}"),
        (ResponseMessage::AlreadyPlayingError { voice_channel_id: 10 }, "response.already_playing_error:{song_title}|{song_url}|10|{user_id}|{count}"),
        (ResponseMessage::NowPlaying { song_title: t(), song_url: u(), voice_channel_id: 10, user_id: 42 }, "response.now_playing:T|U|10|42|{count}"),
        (ResponseMessage::Replaced { old_song_title: "OT".to_string(), old_song_url: "OU".to_string(), new_song_title: "NT".to_string(), new_song_url: "NU".to_string() }, "OT|OU|NT|NU|{voice_channel_id}"),
        (ResponseMessage::ReplaceSkipped { new_song_title: "NT".to_string(), new_song_url: "NU".to_string(), old_song_title: "OT".to_string(), old_song_url: "OU".to_string(), voice_channel_id: 9 }, "OT|OU|NT|NU|9"),
        (ResponseMessage::NoMatchingSongsError, "nothing found"),
        (ResponseMessage::NotInVoiceChannelError, "join a channel"),
        (ResponseMessage::UnsupportedSiteError, "not from there"),
        (ResponseMessage::ImageEmbed { image_url: "https://img.example/{song_title}.png".to_string() }, "https://img.example/{song_title}.png"),
        (ResponseMessage::Pet, "response.pet"),
        (ResponseMessage::ShinyPet, "response.shiny_pet"),
    ];
    for (message, expected) in cases {
        assert_eq!(message.to_string(&config), expected, "{:?}", message);
    }
}

#[test]
fn errors_are_told_apart() {
    assert!(!ActionMessage::Finished { voice_channel_id: 1 }.is_error());
    assert!(!ActionMessage::Playing { song_title: String::new(), song_url: String::new(), voice_channel_id: 1, user_id: 1 }.is_error());
    assert!(!ActionMessage::PlayingResponse { song_title: String::new(), song_url: String::new(), voice_channel_id: 1 }.is_error());
    assert!(ActionMessage::NoSpeakersError { voice_channel_id: 1 }.is_error());
    assert!(ActionMessage::UnknownError.is_error());
    let fine = vec![
        ResponseMessage::Queued { song_title: String::new(), song_url: String::new() },
        ResponseMessage::QueuedMultiple { count: 1 },
        ResponseMessage::QueuedNoSpeakers { song_title: String::new(), song_url: String::new() },
        ResponseMessage::QueuedMultipleNoSpeakers { count: 1 },
        ResponseMessage::Replaced { old_song_title: String::new(), old_song_url: String::new(), new_song_title: String::new(), new_song_url: String::new() },
        ResponseMessage::ReplaceSkipped { new_song_title: String::new(), new_song_url: String::new(), old_song_title: String::new(), old_song_url: String::new(), voice_channel_id: 1 },
        ResponseMessage::Paused { song_title: String::new(), song_url: String::new(), voice_channel_id: 1, user_id: 1 },
        ResponseMessage::Skipped { song_title: String::new(), song_url: String::new(), voice_channel_id: 1, user_id: 1 },
        ResponseMessage::SkipMoreVotesNeeded { song_title: String::new(), song_url: String::new(), voice_channel_id: 1, count: 1 },
        ResponseMessage::Stopped { song_title: String::new(), song_url: String::new(), voice_channel_id: 1, user_id: 1 },
        ResponseMessage::StopMoreVotesNeeded { voice_channel_id: 1, count: 1 },
        ResponseMessage::ImageEmbed { image_url: String::new() },
        ResponseMessage::Pet,
        ResponseMessage::ShinyPet,
        ResponseMessage::NowPlaying { song_title: String::new(), song_url: String::new(), voice_channel_id: 1, user_id: 1 },
    ];
    for message in fine {
        assert!(!message.is_error(), "{:?}", message);
    }
    let errors = vec![
        ResponseMessage::NoMatchingSongsError,
        ResponseMessage::NotInVoiceChannelError,
        ResponseMessage::UnsupportedSiteError,
        ResponseMessage::SkipAlreadyVotedError { song_title: String::new(), song_url: String::new(), voice_channel_id: 1 },
        ResponseMessage::StopAlreadyVotedError { voice_channel_id: 1 },
        ResponseMessage::NothingIsQueuedError { voice_channel_id: 1 },
        ResponseMessage::NothingIsPlayingError { voice_channel_id: 1 },
        ResponseMessage::AlreadyPlayingError { voice_channel_id: 1 },
    ];
    for message in errors {
        assert!(message.is_error(), "{:?}", message);
    }
    assert!(Message::Action(ActionMessage::UnknownError).is_action());
    assert!(!Message::Response(ResponseMessage::Pet).is_action());
}

fn text_of(embed: &CreateEmbed, field: &str) -> Option<String> {
    embed.0.get(field).and_then(|value| value.as_str()).map(|text| text.to_string())
}

fn link_of(embed: &CreateEmbed, field: &str) -> Option<String> {
    embed
        .0
        .get(field)
        .and_then(|value| value.get("url"))
        .and_then(|value| value.as_str())
        .map(|text| text.to_string())
}

fn color_of(embed: &CreateEmbed) -> Option<u64> {
    embed.0.get("color").and_then(|value| value.as_u64())
}

#[test]
fn an_action_becomes_an_embed() {
    let config = config(vec![template("action.finished", "done in {voice_channel_id}")]);
    let mut embed = CreateEmbed::default();
    ActionMessage::Finished { voice_channel_id: 7 }.create_embed(&mut embed, &config);
    assert_eq!(text_of(&embed, "description"), Some("done in 7".to_string()));
    assert_eq!(color_of(&embed), Some(0x111111));
    assert_eq!(text_of(&embed, "type"), Some("rich".to_string()));
    let mut embed = CreateEmbed::default();
    Message::Action(ActionMessage::UnknownError).create_embed(&mut embed, &config);
    assert_eq!(text_of(&embed, "description"), Some("action.unknown_error".to_string()));
    assert_eq!(color_of(&embed), Some(0x333333));
}

#[test]
fn a_response_becomes_an_embed() {
    let config = config(vec![
        template("response.queued", "queued {song_title}"),
        template("response.pet", "https://pets.example/pet.png"),
    ]);
    let mut embed = CreateEmbed::default();
    let queued = ResponseMessage::Queued { song_title: "T".to_string(), song_url: "U".to_string() };
    queued.create_embed(&mut embed, &config);
    assert_eq!(text_of(&embed, "description"), Some("queued T".to_string()));
    assert_eq!(link_of(&embed, "image"), None);
    assert_eq!(color_of(&embed), Some(0x222222));

    let mut embed = CreateEmbed::default();
    Message::Response(ResponseMessage::NotInVoiceChannelError).create_embed(&mut embed, &config);
    assert_eq!(text_of(&embed, "description"), Some("response.not_in_voice_channel_error".to_string()));
    assert_eq!(color_of(&embed), Some(0x333333));

    let mut embed = CreateEmbed::default();
    ResponseMessage::Pet.create_embed(&mut embed, &config);
    assert_eq!(link_of(&embed, "image"), Some("https://pets.example/pet.png".to_string()));
    assert_eq!(text_of(&embed, "description"), None);
    assert_eq!(color_of(&embed), Some(0x222222));

    let mut embed = CreateEmbed::default();
    ResponseMessage::ImageEmbed { image_url: "https://img.example/x.png".to_string() }.create_embed(&mut embed, &config);
    assert_eq!(link_of(&embed, "image"), Some("https://img.example/x.png".to_string()));
}

#[test]
fn an_embed_keeps_what_it_held() {
    let config = config(Vec::new());
    let mut embed = CreateEmbed::default();
    embed.title("kept");
    ResponseMessage::ShinyPet.create_embed(&mut embed, &config);
    assert_eq!(text_of(&embed, "title"), Some("kept".to_string()));
    assert_eq!(link_of(&embed, "image"), Some("response.shiny_pet".to_string()));
}

#[test]
fn commands_are_known_by_name() {
    assert_eq!(CommandKind::parse("play"), Ok(CommandKind::Play));
    assert_eq!(CommandKind::parse("resume"), Ok(CommandKind::Resume));
    assert_eq!(CommandKind::parse("replace"), Ok(CommandKind::Replace));
    assert_eq!(CommandKind::parse("pause"), Ok(CommandKind::Pause));
    assert_eq!(CommandKind::parse("skip"), Ok(CommandKind::Skip));
    assert_eq!(CommandKind::parse("stop"), Ok(CommandKind::Stop));
    assert_eq!(CommandKind::parse("pet"), Ok(CommandKind::Pet));
    assert_eq!(CommandKind::parse("nowplaying"), Ok(CommandKind::NowPlaying));
    assert_eq!(CommandKind::parse("Play"), Err(Error::UnknownCommand("Play".to_string())));
    assert_eq!(CommandKind::parse(""), Err(Error::UnknownCommand(String::new())));
    assert_eq!(CommandKind::parse("plays"), Err(Error::UnknownCommand("plays".to_string())));
    assert!(CommandKind::Play.takes_term());
    assert!(CommandKind::Replace.takes_term());
    assert!(!CommandKind::Resume.takes_term());
    assert!(!CommandKind::Pet.takes_term());
}

#[test]
fn a_guild_gets_every_command() {
    let mut config = config(Vec::new());
    config.greets = Some(vec![
        Greet { command: "hello".to_string(), description: "Say hello".to_string() },
        Greet { command: "bye".to_string(), description: "Say goodbye".to_string() },
    ]);
    let registration = register_commands(Some(5), &config);
    assert_eq!(registration.guild_id, Some(5));
    assert!(registration.delete_global_commands);
    let names: Vec<&str> = registration.commands.iter().map(|command| command.name.as_str()).collect();
    assert_eq!(
        names,
        vec!["play", "replace", "pause", "skip", "stop", "pet", "nowplaying", "resume", "hello", "bye"]
    );
    assert_eq!(registration.commands[8].description, "Say hello");
    assert_eq!(registration.commands[8].option, None);
    assert_eq!(registration.commands[0].description, "Add a song to your queue.");
    let option = registration.commands[0].option.as_ref().unwrap();
    assert_eq!(option.name, "term");
    assert_eq!(option.description, "A search term or song link.");
    assert!(option.required);
    assert_eq!(registration.commands[1].option.as_ref().unwrap().name, "term");
    assert_eq!(registration.commands[2].option, None);
    assert_eq!(registration.commands[4].description, "Vote to skip the current song and stop playback.");
}

#[test]
fn every_guild_gets_the_commands_without_resume_and_nowplaying() {
    let registration = register_commands(None, &config(Vec::new()));
    assert_eq!(registration.guild_id, None);
    assert!(!registration.delete_global_commands);
    let names: Vec<&str> = registration.commands.iter().map(|command| command.name.as_str()).collect();
    assert_eq!(names, vec!["play", "replace", "pause", "skip", "stop", "pet"]);
    let descriptions: Vec<&str> = registration.commands.iter().map(|command| command.description.as_str()).collect();
    assert_eq!(
        descriptions,
        vec![
            "Add a song to your queue.",
            "Replace your most recent song with a different one.",
            "Pause the current song.",
            "Vote to skip the current song.",
            "Vote to skip the current song and stop playback.",
            "Pet the bot!",
        ]
    );
}

#[test]
fn a_command_that_was_given_up_is_told_in_the_color_of_a_response() {
    let frontend = Frontend::new(config(vec![template("action.unknown_error", "something went wrong")]));
    let mut embed = CreateEmbed::default();
    frontend.create_error_embed(&mut embed);
    assert_eq!(text_of(&embed, "description"), Some("something went wrong".to_string()));
    assert_eq!(color_of(&embed), Some(0x222222));
    let silent = Frontend::new(config(Vec::new()));
    let mut embed = CreateEmbed::default();
    silent.create_error_embed(&mut embed);
    assert_eq!(text_of(&embed, "description"), Some("action.unknown_error".to_string()));
}
