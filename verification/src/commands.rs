//! The commands of the bot: what they are called, and what is registered.

use crate::config::{Config, Greet};
use crate::error::Error;
use vstd::prelude::*;
use vstd::string::*;

verus! {

/// A command of the bot.
#[derive(Clone, Copy, Debug, PartialEq, Eq, Structural)]
pub enum CommandKind {
    Play,
    Resume,
    Replace,
    Pause,
    Skip,
    Stop,
    Pet,
    NowPlaying,
}

/// The command that is called `name`.
pub open spec fn command_kind(name: Seq<char>) -> Option<CommandKind> {
    if name == "play"@ {
        Some(CommandKind::Play)
    } else if name == "resume"@ {
        Some(CommandKind::Resume)
    } else if name == "replace"@ {
        Some(CommandKind::Replace)
    } else if name == "pause"@ {
        Some(CommandKind::Pause)
    } else if name == "skip"@ {
        Some(CommandKind::Skip)
    } else if name == "stop"@ {
        Some(CommandKind::Stop)
    } else if name == "pet"@ {
        Some(CommandKind::Pet)
    } else if name == "nowplaying"@ {
        Some(CommandKind::NowPlaying)
    } else {
        None
    }
}

fn is_named(name: &String, expected: &str) -> (same: bool)
    ensures
        same == (name@ == expected@),
{
    *name == expected.to_owned()
}

impl CommandKind {
    /// The command that is called `name`; an unknown name is an error that
    /// holds the name.
    pub fn parse(name: &str) -> (kind: Result<CommandKind, Error>)
        ensures
            match command_kind(name@) {
                Some(expected) => kind matches Ok(found) && found == expected,
                None => kind matches Err(Error::UnknownCommand(unknown)) && unknown@ == name@,
            },
    {
        let name = name.to_owned();
        if is_named(&name, "play") {
            Ok(CommandKind::Play)
        } else if is_named(&name, "resume") {
            Ok(CommandKind::Resume)
        } else if is_named(&name, "replace") {
            Ok(CommandKind::Replace)
        } else if is_named(&name, "pause") {
            Ok(CommandKind::Pause)
        } else if is_named(&name, "skip") {
            Ok(CommandKind::Skip)
        } else if is_named(&name, "stop") {
            Ok(CommandKind::Stop)
        } else if is_named(&name, "pet") {
            Ok(CommandKind::Pet)
        } else if is_named(&name, "nowplaying") {
            Ok(CommandKind::NowPlaying)
        } else {
            Err(Error::UnknownCommand(name))
        }
    }

    /// Whether the command comes with a term to look songs up by.
    pub fn takes_term(&self) -> (takes: bool)
        ensures
            takes == (*self == CommandKind::Play || *self == CommandKind::Replace),
    {
        match self {
            CommandKind::Play => true,
            CommandKind::Replace => true,
            _ => false,
        }
    }
}

/// An option of a command, which takes a text.
#[derive(Debug, PartialEq, Eq)]
pub struct CommandOption {
    pub name: String,
    pub description: String,
    pub required: bool,
}

/// A command as it is registered.
#[derive(Debug, PartialEq, Eq)]
pub struct CommandDefinition {
    pub name: String,
    pub description: String,
    pub option: Option<CommandOption>,
}

/// A [`CommandDefinition`] by its texts.
pub struct CommandDefinitionView {
    pub name: Seq<char>,
    pub description: Seq<char>,
    /// Name and description of the option, and whether it is required.
    pub option: Option<(Seq<char>, Seq<char>, bool)>,
}

impl View for CommandDefinition {
    type V = CommandDefinitionView;

    open spec fn view(&self) -> CommandDefinitionView {
        CommandDefinitionView {
            name: self.name@,
            description: self.description@,
            option: match self.option {
                Some(option) => Some((option.name@, option.description@, option.required)),
                None => None,
            },
        }
    }
}

/// What is to be registered, and where.
#[derive(Debug, PartialEq, Eq)]
pub struct Registration {
    /// The guild that the commands are registered for; none where they are
    /// registered for every guild.
    pub guild_id: Option<u64>,
    /// Whether the commands that are registered for every guild are deleted first.
    pub delete_global_commands: bool,
    pub commands: Vec<CommandDefinition>,
}

/// A command without an option.
pub open spec fn plain_command(name: Seq<char>, description: Seq<char>) -> CommandDefinitionView {
    CommandDefinitionView { name, description, option: None }
}

/// A command that takes a term.
pub open spec fn term_command(name: Seq<char>, description: Seq<char>) -> CommandDefinitionView {
    CommandDefinitionView {
        name,
        description,
        option: Some(("term"@, "A search term or song link."@, true)),
    }
}

/// The commands that are registered for every guild.
pub open spec fn global_commands() -> Seq<CommandDefinitionView> {
    seq![
        term_command("play"@, "Add a song to your queue."@),
        term_command("replace"@, "Replace your most recent song with a different one."@),
        plain_command("pause"@, "Pause the current song."@),
        plain_command("skip"@, "Vote to skip the current song."@),
        plain_command("stop"@, "Vote to skip the current song and stop playback."@),
        plain_command("pet"@, "Pet the bot!"@),
    ]
}

/// The commands that are registered for one guild.
pub open spec fn guild_commands() -> Seq<CommandDefinitionView> {
    global_commands().push(plain_command("nowplaying"@, "Get the currently playing song"@)).push(
        plain_command("resume"@, "Resume a paused song"@),
    )
}

/// The commands of the greets.
pub open spec fn greet_commands(greets: Option<Vec<Greet>>) -> Seq<CommandDefinitionView> {
    match greets {
        Some(greets) => Seq::new(
            greets@.len(),
            |i: int| plain_command(greets@[i].command@, greets@[i].description@),
        ),
        None => Seq::empty(),
    }
}

/// The commands that are registered: for one guild or for every guild, and
/// behind them one for each greet.
pub open spec fn registered_commands(guild_id: Option<u64>, config: &Config) -> Seq<
    CommandDefinitionView,
> {
    (if guild_id is Some {
        guild_commands()
    } else {
        global_commands()
    }) + greet_commands(config.greets)
}

/// The commands of `registration` by their texts.
pub open spec fn definitions(commands: Seq<CommandDefinition>) -> Seq<CommandDefinitionView> {
    Seq::new(commands.len(), |i: int| commands[i]@)
}

fn make_plain_command(name: &str, description: &str) -> (command: CommandDefinition)
    ensures
        command@ == plain_command(name@, description@),
{
    CommandDefinition { name: name.to_owned(), description: description.to_owned(), option: None }
}

fn make_term_command(name: &str, description: &str) -> (command: CommandDefinition)
    ensures
        command@ == term_command(name@, description@),
{
    CommandDefinition {
        name: name.to_owned(),
        description: description.to_owned(),
        option: Some(
            CommandOption {
                name: "term".to_owned(),
                description: "A search term or song link.".to_owned(),
                required: true,
            },
        ),
    }
}

fn play_command() -> (command: CommandDefinition)
    ensures
        command@ == term_command("play"@, "Add a song to your queue."@),
{
    make_term_command("play", "Add a song to your queue.")
}

fn replace_command() -> (command: CommandDefinition)
    ensures
        command@ == term_command(
            "replace"@,
            "Replace your most recent song with a different one."@,
        ),
{
    make_term_command("replace", "Replace your most recent song with a different one.")
}

fn pause_command() -> (command: CommandDefinition)
    ensures
        command@ == plain_command("pause"@, "Pause the current song."@),
{
    make_plain_command("pause", "Pause the current song.")
}

fn skip_command() -> (command: CommandDefinition)
    ensures
        command@ == plain_command("skip"@, "Vote to skip the current song."@),
{
    make_plain_command("skip", "Vote to skip the current song.")
}

fn stop_command() -> (command: CommandDefinition)
    ensures
        command@ == plain_command("stop"@, "Vote to skip the current song and stop playback."@),
{
    make_plain_command("stop", "Vote to skip the current song and stop playback.")
}

fn pet_command() -> (command: CommandDefinition)
    ensures
        command@ == plain_command("pet"@, "Pet the bot!"@),
{
    make_plain_command("pet", "Pet the bot!")
}

fn nowplaying_command() -> (command: CommandDefinition)
    ensures
        command@ == plain_command("nowplaying"@, "Get the currently playing song"@),
{
    make_plain_command("nowplaying", "Get the currently playing song")
}

fn resume_command() -> (command: CommandDefinition)
    ensures
        command@ == plain_command("resume"@, "Resume a paused song"@),
{
    make_plain_command("resume", "Resume a paused song")
}

/// Says what is to be registered. For one guild, the commands that are
/// registered for every guild are deleted first, and the guild gets every
/// command; registered for every guild are all commands but those that say
/// what is playing and that resume. One command for each greet follows.
pub fn register_commands(guild_id: Option<u64>, config: &Config) -> (registration: Registration)
    ensures
        registration.guild_id == guild_id,
        registration.delete_global_commands == (guild_id is Some),
        definitions(registration.commands@) == registered_commands(guild_id, config),
{
    let mut commands: Vec<CommandDefinition> = Vec::new();
    commands.push(play_command());
    commands.push(replace_command());
    commands.push(pause_command());
    commands.push(skip_command());
    commands.push(stop_command());
    commands.push(pet_command());
    assert(definitions(commands@) =~= global_commands());
    if guild_id.is_some() {
        commands.push(nowplaying_command());
        commands.push(resume_command());
        assert(definitions(commands@) =~= guild_commands());
    }
    let ghost standard = definitions(commands@);
    match &config.greets {
        Some(greets) => {
            let n = greets.len();
            let mut i: usize = 0;
            while i < n
                invariant
                    i <= n,
                    n == greets@.len(),
                    config.greets == Some(*greets),
                    definitions(commands@) == standard + greet_commands(config.greets).take(
                        i as int,
                    ),
                decreases n - i,
            {
                let ghost before = commands@;
                commands.push(
                    make_plain_command(greets[i].command.as_str(), greets[i].description.as_str()),
                );
                proof {
                    let greeted = greet_commands(config.greets);
                    assert(greeted[i as int] == plain_command(
                        greets@[i as int].command@,
                        greets@[i as int].description@,
                    ));
                    assert(greeted.take(i + 1) =~= greeted.take(i as int).push(greeted[i as int]));
                    assert(definitions(commands@) =~= definitions(before).push(
                        greeted[i as int],
                    ));
                    assert(definitions(commands@) =~= standard + greeted.take(i + 1));
                }
                i += 1;
            }
            assert(greet_commands(config.greets).take(n as int) =~= greet_commands(config.greets));
        },
        None => {
            assert(definitions(commands@) =~= standard + greet_commands(config.greets));
        },
    }
    Registration { guild_id, delete_global_commands: guild_id.is_some(), commands }
}

} // verus!
