//! What the bot says.

use crate::config::Config;
use crate::text::{decimal, decimal_string, pairs, Substitution};
use vstd::prelude::*;

verus! {

/// A message of either kind.
#[derive(Debug, Clone, PartialEq, Eq)]
pub enum Message {
    Action(ActionMessage),
    Response(ResponseMessage),
}

/// A message that may come without a command having asked for it. A guild
/// keeps one of them at a time: an older one is deleted when a new one is sent.
#[derive(Debug, Clone, PartialEq, Eq)]
pub enum ActionMessage {
    Playing { song_title: String, song_url: String, voice_channel_id: u64, user_id: u64 },
    PlayingResponse { song_title: String, song_url: String, voice_channel_id: u64 },
    Finished { voice_channel_id: u64 },
    NoSpeakersError { voice_channel_id: u64 },
    UnknownError,
}

/// A message that answers a command.
#[derive(Debug, Clone, PartialEq, Eq)]
pub enum ResponseMessage {
    Queued { song_title: String, song_url: String },
    QueuedMultiple { count: usize },
    QueuedNoSpeakers { song_title: String, song_url: String },
    QueuedMultipleNoSpeakers { count: usize },
    Replaced {
        old_song_title: String,
        old_song_url: String,
        new_song_title: String,
        new_song_url: String,
    },
    ReplaceSkipped {
        new_song_title: String,
        new_song_url: String,
        old_song_title: String,
        old_song_url: String,
        voice_channel_id: u64,
    },
    Paused { song_title: String, song_url: String, voice_channel_id: u64, user_id: u64 },
    Skipped { song_title: String, song_url: String, voice_channel_id: u64, user_id: u64 },
    SkipMoreVotesNeeded {
        song_title: String,
        song_url: String,
        voice_channel_id: u64,
        count: usize,
    },
    Stopped { song_title: String, song_url: String, voice_channel_id: u64, user_id: u64 },
    StopMoreVotesNeeded { voice_channel_id: u64, count: usize },
    ImageEmbed { image_url: String },
    NoMatchingSongsError,
    NotInVoiceChannelError,
    UnsupportedSiteError,
    SkipAlreadyVotedError { song_title: String, song_url: String, voice_channel_id: u64 },
    StopAlreadyVotedError { voice_channel_id: u64 },
    NothingIsQueuedError { voice_channel_id: u64 },
    NothingIsPlayingError { voice_channel_id: u64 },
    AlreadyPlayingError { voice_channel_id: u64 },
    Pet,
    ShinyPet,
    NowPlaying { song_title: String, song_url: String, voice_channel_id: u64, user_id: u64 },
}

impl Message {
    /// Whether this is an action message.
    pub fn is_action(&self) -> (action: bool)
        ensures
            action == (self is Action),
    {
        match self {
            Message::Action(_) => true,
            Message::Response(_) => false,
        }
    }
}

impl ActionMessage {
    /// Whether the message reports an error.
    pub open spec fn spec_is_error(&self) -> bool {
        self is NoSpeakersError || self is UnknownError
    }

    /// Whether the message reports an error.
    pub fn is_error(&self) -> (error: bool)
        ensures
            error == self.spec_is_error(),
    {
        match self {
            ActionMessage::Playing { .. }
            | ActionMessage::PlayingResponse { .. }
            | ActionMessage::Finished { .. } => false,
            ActionMessage::NoSpeakersError { .. } | ActionMessage::UnknownError => true,
        }
    }
}

impl ResponseMessage {
    /// Whether the message reports an error.
    pub open spec fn spec_is_error(&self) -> bool {
        ||| self is NoMatchingSongsError
        ||| self is NotInVoiceChannelError
        ||| self is UnsupportedSiteError
        ||| self is SkipAlreadyVotedError
        ||| self is StopAlreadyVotedError
        ||| self is NothingIsQueuedError
        ||| self is NothingIsPlayingError
        ||| self is AlreadyPlayingError
    }

    /// Whether the message reports an error.
    pub fn is_error(&self) -> (error: bool)
        ensures
            error == self.spec_is_error(),
    {
        match self {
            ResponseMessage::Queued { .. }
            | ResponseMessage::QueuedMultiple { .. }
            | ResponseMessage::QueuedNoSpeakers { .. }
            | ResponseMessage::QueuedMultipleNoSpeakers { .. }
            | ResponseMessage::Replaced { .. }
            | ResponseMessage::ReplaceSkipped { .. }
            | ResponseMessage::Paused { .. }
            | ResponseMessage::Skipped { .. }
            | ResponseMessage::SkipMoreVotesNeeded { .. }
            | ResponseMessage::Stopped { .. }
            | ResponseMessage::StopMoreVotesNeeded { .. }
            | ResponseMessage::ImageEmbed { .. }
            | ResponseMessage::Pet
            | ResponseMessage::ShinyPet
            | ResponseMessage::NowPlaying { .. } => false,
            ResponseMessage::NoMatchingSongsError
            | ResponseMessage::NotInVoiceChannelError
            | ResponseMessage::UnsupportedSiteError
            | ResponseMessage::SkipAlreadyVotedError { .. }
            | ResponseMessage::StopAlreadyVotedError { .. }
            | ResponseMessage::NothingIsQueuedError { .. }
            | ResponseMessage::NothingIsPlayingError { .. }
            | ResponseMessage::AlreadyPlayingError { .. } => true,
        }
    }
}

/// Where the text of a message comes from.
pub enum MessageText {
    /// The text that is set up for this key, as it is.
    Raw(Seq<char>),
    /// The text that is set up for this key, with these names replaced by
    /// these values.
    Template(Seq<char>, Seq<(Seq<char>, Seq<char>)>),
    /// This very text.
    Literal(Seq<char>),
}

impl MessageText {
    /// The text, with what `config` has set up.
    pub open spec fn render(self, config: &Config) -> Seq<char> {
        match self {
            MessageText::Raw(key) => config.spec_raw_message(key),
            MessageText::Template(key, substitutions) => config.spec_message(key, substitutions),
            MessageText::Literal(text) => text,
        }
    }
}

fn no_substitutions() -> (substitutions: Vec<Substitution>)
    ensures
        pairs(substitutions@) == Seq::<(Seq<char>, Seq<char>)>::empty(),
{
    let substitutions: Vec<Substitution> = Vec::new();
    assert(pairs(substitutions@) =~= Seq::<(Seq<char>, Seq<char>)>::empty());
    substitutions
}

fn substitute(substitutions: &mut Vec<Substitution>, name: &str, value: String)
    ensures
        pairs(final(substitutions)@) == pairs(old(substitutions)@).push((name@, value@)),
{
    substitutions.push(Substitution { name: name.to_owned(), value });
    assert(pairs(substitutions@) =~= pairs(old(substitutions)@).push((name@, value@)));
}

impl ActionMessage {
    /// Where the text of the message comes from.
    pub open spec fn text(&self) -> MessageText {
        match *self {
            ActionMessage::Playing { song_title, song_url, voice_channel_id, user_id } => MessageText::Template(
                "action.playing"@,
                seq![
                    ("song_title"@, song_title@),
                    ("song_url"@, song_url@),
                    ("voice_channel_id"@, decimal(voice_channel_id as nat)),
                    ("user_id"@, decimal(user_id as nat)),
                ],
            ),
            ActionMessage::PlayingResponse { song_title, song_url, voice_channel_id } => MessageText::Template(
                "action.playing_response"@,
                seq![
                    ("song_title"@, song_title@),
                    ("song_url"@, song_url@),
                    ("voice_channel_id"@, decimal(voice_channel_id as nat)),
                ],
            ),
            ActionMessage::Finished { voice_channel_id } => MessageText::Template(
                "action.finished"@,
                seq![
                    ("voice_channel_id"@, decimal(voice_channel_id as nat)),
                ],
            ),
            ActionMessage::NoSpeakersError { voice_channel_id } => MessageText::Template(
                "action.no_speakers_error"@,
                seq![
                    ("voice_channel_id"@, decimal(voice_channel_id as nat)),
                ],
            ),
            ActionMessage::UnknownError => MessageText::Raw("action.unknown_error"@),
        }
    }

    /// The text of the message, with what `config` has set up.
    pub fn to_string(&self, config: &Config) -> (text: String)
        ensures
            text@ == self.text().render(config),
    {
        match self {
            ActionMessage::Playing { song_title, song_url, voice_channel_id, user_id } => {
                let mut substitutions = no_substitutions();
                substitute(&mut substitutions, "song_title", song_title.clone());
                substitute(&mut substitutions, "song_url", song_url.clone());
                substitute(&mut substitutions, "voice_channel_id", decimal_string(*voice_channel_id as u64));
                substitute(&mut substitutions, "user_id", decimal_string(*user_id as u64));
                assert(pairs(substitutions@) =~= seq![
                    ("song_title"@, song_title@),
                    ("song_url"@, song_url@),
                    ("voice_channel_id"@, decimal(*voice_channel_id as nat)),
                    ("user_id"@, decimal(*user_id as nat)),
                ]);
                config.get_message("action.playing", &substitutions)
            },
            ActionMessage::PlayingResponse { song_title, song_url, voice_channel_id } => {
                let mut substitutions = no_substitutions();
                substitute(&mut substitutions, "song_title", song_title.clone());
                substitute(&mut substitutions, "song_url", song_url.clone());
                substitute(&mut substitutions, "voice_channel_id", decimal_string(*voice_channel_id as u64));
                assert(pairs(substitutions@) =~= seq![
                    ("song_title"@, song_title@),
                    ("song_url"@, song_url@),
                    ("voice_channel_id"@, decimal(*voice_channel_id as nat)),
                ]);
                config.get_message("action.playing_response", &substitutions)
            },
            ActionMessage::Finished { voice_channel_id } => {
                let mut substitutions = no_substitutions();
                substitute(&mut substitutions, "voice_channel_id", decimal_string(*voice_channel_id as u64));
                assert(pairs(substitutions@) =~= seq![
                    ("voice_channel_id"@, decimal(*voice_channel_id as nat)),
                ]);
                config.get_message("action.finished", &substitutions)
            },
            ActionMessage::NoSpeakersError { voice_channel_id } => {
                let mut substitutions = no_substitutions();
                substitute(&mut substitutions, "voice_channel_id", decimal_string(*voice_channel_id as u64));
                assert(pairs(substitutions@) =~= seq![
                    ("voice_channel_id"@, decimal(*voice_channel_id as nat)),
                ]);
                config.get_message("action.no_speakers_error", &substitutions)
            },
            ActionMessage::UnknownError => config.get_raw_message("action.unknown_error"),
        }
    }
}

impl ResponseMessage {
    /// Where the text of the message comes from. A message that asks for
    /// more votes has one text for one vote and another for several.
    pub open spec fn text(&self) -> MessageText {
        match *self {
            ResponseMessage::Queued { song_title, song_url } => MessageText::Template(
                "response.queued"@,
                seq![
                    ("song_title"@, song_title@),
                    ("song_url"@, song_url@),
                ],
            ),
            ResponseMessage::QueuedMultiple { count } => MessageText::Template(
                "response.queued_multiple"@,
                seq![
                    ("count"@, decimal(count as nat)),
                ],
            ),
            ResponseMessage::QueuedNoSpeakers { song_title, song_url } => MessageText::Template(
                "response.queued_no_speakers"@,
                seq![
                    ("song_title"@, song_title@),
                    ("song_url"@, song_url@),
                ],
            ),
            ResponseMessage::QueuedMultipleNoSpeakers { count } => MessageText::Template(
                "response.queued_multiple_no_speakers"@,
                seq![
                    ("count"@, decimal(count as nat)),
                ],
            ),
            ResponseMessage::Replaced {
                old_song_title,
                old_song_url,
                new_song_title,
                new_song_url,
            } => MessageText::Template(
                "response.replaced"@,
                seq![
                    ("old_song_title"@, old_song_title@),
                    ("old_song_url"@, old_song_url@),
                    ("new_song_title"@, new_song_title@),
                    ("new_song_url"@, new_song_url@),
                ],
            ),
            ResponseMessage::ReplaceSkipped {
                new_song_title,
                new_song_url,
                old_song_title,
                old_song_url,
                voice_channel_id,
            } => MessageText::Template(
                "response.replace_skipped"@,
                seq![
                    ("new_song_title"@, new_song_title@),
                    ("new_song_url"@, new_song_url@),
                    ("old_song_title"@, old_song_title@),
                    ("old_song_url"@, old_song_url@),
                    ("voice_channel_id"@, decimal(voice_channel_id as nat)),
                ],
            ),
            ResponseMessage::Paused { song_title, song_url, voice_channel_id, user_id } => MessageText::Template(
                "response.paused"@,
                seq![
                    ("song_title"@, song_title@),
                    ("song_url"@, song_url@),
                    ("voice_channel_id"@, decimal(voice_channel_id as nat)),
                    ("user_id"@, decimal(user_id as nat)),
                ],
            ),
            ResponseMessage::Skipped { song_title, song_url, voice_channel_id, user_id } => MessageText::Template(
                "response.skipped"@,
                seq![
                    ("song_title"@, song_title@),
                    ("song_url"@, song_url@),
                    ("voice_channel_id"@, decimal(voice_channel_id as nat)),
                    ("user_id"@, decimal(user_id as nat)),
                ],
            ),
            ResponseMessage::SkipMoreVotesNeeded {
                song_title,
                song_url,
                voice_channel_id,
                count,
            } => if count == 1 {
                MessageText::Template(
                    "response.skip_more_votes_needed.singular"@,
                    seq![
                        ("song_title"@, song_title@),
                        ("song_url"@, song_url@),
                        ("voice_channel_id"@, decimal(voice_channel_id as nat)),
                    ],
                )
            } else {
                MessageText::Template(
                    "response.skip_more_votes_needed.plural"@,
                    seq![
                        ("song_title"@, song_title@),
                        ("song_url"@, song_url@),
                        ("voice_channel_id"@, decimal(voice_channel_id as nat)),
                        ("count"@, decimal(count as nat)),
                    ],
                )
            },
            ResponseMessage::Stopped { song_title, song_url, voice_channel_id, user_id } => MessageText::Template(
                "response.stopped"@,
                seq![
                    ("song_title"@, song_title@),
                    ("song_url"@, song_url@),
                    ("voice_channel_id"@, decimal(voice_channel_id as nat)),
                    ("user_id"@, decimal(user_id as nat)),
                ],
            ),
            ResponseMessage::StopMoreVotesNeeded { voice_channel_id, count } => if count == 1 {
                MessageText::Template(
                    "response.stop_more_votes_needed.singular"@,
                    seq![
                        ("voice_channel_id"@, decimal(voice_channel_id as nat)),
                    ],
                )
            } else {
                MessageText::Template(
                    "response.stop_more_votes_needed.plural"@,
                    seq![
                        ("voice_channel_id"@, decimal(voice_channel_id as nat)),
                        ("count"@, decimal(count as nat)),
                    ],
                )
            },
            ResponseMessage::ImageEmbed { image_url } => MessageText::Literal(image_url@),
            ResponseMessage::NoMatchingSongsError => MessageText::Raw("response.no_matching_songs_error"@),
            ResponseMessage::NotInVoiceChannelError => MessageText::Raw("response.not_in_voice_channel_error"@),
            ResponseMessage::UnsupportedSiteError => MessageText::Raw("response.unsupported_site_error"@),
            ResponseMessage::SkipAlreadyVotedError {
                song_title,
                song_url,
                voice_channel_id,
            } => MessageText::Template(
                "response.skip_already_voted_error"@,
                seq![
                    ("song_title"@, song_title@),
                    ("song_url"@, song_url@),
                    ("voice_channel_id"@, decimal(voice_channel_id as nat)),
                ],
            ),
            ResponseMessage::StopAlreadyVotedError { voice_channel_id } => MessageText::Template(
                "response.stop_already_voted_error"@,
                seq![
                    ("voice_channel_id"@, decimal(voice_channel_id as nat)),
                ],
            ),
            ResponseMessage::NothingIsQueuedError { voice_channel_id } => MessageText::Template(
                "response.nothing_is_queued_error"@,
                seq![
                    ("voice_channel_id"@, decimal(voice_channel_id as nat)),
                ],
            ),
            ResponseMessage::NothingIsPlayingError { voice_channel_id } => MessageText::Template(
                "response.nothing_is_playing_error"@,
                seq![
                    ("voice_channel_id"@, decimal(voice_channel_id as nat)),
                ],
            ),
            ResponseMessage::AlreadyPlayingError { voice_channel_id } => MessageText::Template(
                "response.already_playing_error"@,
                seq![
                    ("voice_channel_id"@, decimal(voice_channel_id as nat)),
                ],
            ),
            ResponseMessage::Pet => MessageText::Raw("response.pet"@),
            ResponseMessage::ShinyPet => MessageText::Raw("response.shiny_pet"@),
            ResponseMessage::NowPlaying {
                song_title,
                song_url,
                voice_channel_id,
                user_id,
            } => MessageText::Template(
                "response.now_playing"@,
                seq![
                    ("song_title"@, song_title@),
                    ("song_url"@, song_url@),
                    ("voice_channel_id"@, decimal(voice_channel_id as nat)),
                    ("user_id"@, decimal(user_id as nat)),
                ],
            ),
        }
    }

    /// The text of the message, with what `config` has set up.
    pub fn to_string(&self, config: &Config) -> (text: String)
        ensures
            text@ == self.text().render(config),
    {
        match self {
            ResponseMessage::Queued { song_title, song_url } => {
                let mut substitutions = no_substitutions();
                substitute(&mut substitutions, "song_title", song_title.clone());
                substitute(&mut substitutions, "song_url", song_url.clone());
                assert(pairs(substitutions@) =~= seq![
                    ("song_title"@, song_title@),
                    ("song_url"@, song_url@),
                ]);
                config.get_message("response.queued", &substitutions)
            },
            ResponseMessage::QueuedMultiple { count } => {
                let mut substitutions = no_substitutions();
                substitute(&mut substitutions, "count", decimal_string(*count as u64));
                assert(pairs(substitutions@) =~= seq![
                    ("count"@, decimal(*count as nat)),
                ]);
                config.get_message("response.queued_multiple", &substitutions)
            },
            ResponseMessage::QueuedNoSpeakers { song_title, song_url } => {
                let mut substitutions = no_substitutions();
                substitute(&mut substitutions, "song_title", song_title.clone());
                substitute(&mut substitutions, "song_url", song_url.clone());
                assert(pairs(substitutions@) =~= seq![
                    ("song_title"@, song_title@),
                    ("song_url"@, song_url@),
                ]);
                config.get_message("response.queued_no_speakers", &substitutions)
            },
            ResponseMessage::QueuedMultipleNoSpeakers { count } => {
                let mut substitutions = no_substitutions();
                substitute(&mut substitutions, "count", decimal_string(*count as u64));
                assert(pairs(substitutions@) =~= seq![
                    ("count"@, decimal(*count as nat)),
                ]);
                config.get_message("response.queued_multiple_no_speakers", &substitutions)
            },
            ResponseMessage::Replaced {
                old_song_title,
                old_song_url,
                new_song_title,
                new_song_url,
            } => {
                let mut substitutions = no_substitutions();
                substitute(&mut substitutions, "old_song_title", old_song_title.clone());
                substitute(&mut substitutions, "old_song_url", old_song_url.clone());
                substitute(&mut substitutions, "new_song_title", new_song_title.clone());
                substitute(&mut substitutions, "new_song_url", new_song_url.clone());
                assert(pairs(substitutions@) =~= seq![
                    ("old_song_title"@, old_song_title@),
                    ("old_song_url"@, old_song_url@),
                    ("new_song_title"@, new_song_title@),
                    ("new_song_url"@, new_song_url@),
                ]);
                config.get_message("response.replaced", &substitutions)
            },
            ResponseMessage::ReplaceSkipped {
                new_song_title,
                new_song_url,
                old_song_title,
                old_song_url,
                voice_channel_id,
            } => {
                let mut substitutions = no_substitutions();
                substitute(&mut substitutions, "new_song_title", new_song_title.clone());
                substitute(&mut substitutions, "new_song_url", new_song_url.clone());
                substitute(&mut substitutions, "old_song_title", old_song_title.clone());
                substitute(&mut substitutions, "old_song_url", old_song_url.clone());
                substitute(&mut substitutions, "voice_channel_id", decimal_string(*voice_channel_id as u64));
                assert(pairs(substitutions@) =~= seq![
                    ("new_song_title"@, new_song_title@),
                    ("new_song_url"@, new_song_url@),
                    ("old_song_title"@, old_song_title@),
                    ("old_song_url"@, old_song_url@),
                    ("voice_channel_id"@, decimal(*voice_channel_id as nat)),
                ]);
                config.get_message("response.replace_skipped", &substitutions)
            },
            ResponseMessage::Paused { song_title, song_url, voice_channel_id, user_id } => {
                let mut substitutions = no_substitutions();
                substitute(&mut substitutions, "song_title", song_title.clone());
                substitute(&mut substitutions, "song_url", song_url.clone());
                substitute(&mut substitutions, "voice_channel_id", decimal_string(*voice_channel_id as u64));
                substitute(&mut substitutions, "user_id", decimal_string(*user_id as u64));
                assert(pairs(substitutions@) =~= seq![
                    ("song_title"@, song_title@),
                    ("song_url"@, song_url@),
                    ("voice_channel_id"@, decimal(*voice_channel_id as nat)),
                    ("user_id"@, decimal(*user_id as nat)),
                ]);
                config.get_message("response.paused", &substitutions)
            },
            ResponseMessage::Skipped { song_title, song_url, voice_channel_id, user_id } => {
                let mut substitutions = no_substitutions();
                substitute(&mut substitutions, "song_title", song_title.clone());
                substitute(&mut substitutions, "song_url", song_url.clone());
                substitute(&mut substitutions, "voice_channel_id", decimal_string(*voice_channel_id as u64));
                substitute(&mut substitutions, "user_id", decimal_string(*user_id as u64));
                assert(pairs(substitutions@) =~= seq![
                    ("song_title"@, song_title@),
                    ("song_url"@, song_url@),
                    ("voice_channel_id"@, decimal(*voice_channel_id as nat)),
                    ("user_id"@, decimal(*user_id as nat)),
                ]);
                config.get_message("response.skipped", &substitutions)
            },
            ResponseMessage::SkipMoreVotesNeeded {
                song_title,
                song_url,
                voice_channel_id,
                count,
            } => {
                if *count == 1 {
                    let mut substitutions = no_substitutions();
                    substitute(&mut substitutions, "song_title", song_title.clone());
                    substitute(&mut substitutions, "song_url", song_url.clone());
                    substitute(&mut substitutions, "voice_channel_id", decimal_string(*voice_channel_id as u64));
                    assert(pairs(substitutions@) =~= seq![
                        ("song_title"@, song_title@),
                        ("song_url"@, song_url@),
                        ("voice_channel_id"@, decimal(*voice_channel_id as nat)),
                    ]);
                    config.get_message("response.skip_more_votes_needed.singular", &substitutions)
                } else {
                    let mut substitutions = no_substitutions();
                    substitute(&mut substitutions, "song_title", song_title.clone());
                    substitute(&mut substitutions, "song_url", song_url.clone());
                    substitute(&mut substitutions, "voice_channel_id", decimal_string(*voice_channel_id as u64));
                    substitute(&mut substitutions, "count", decimal_string(*count as u64));
                    assert(pairs(substitutions@) =~= seq![
                        ("song_title"@, song_title@),
                        ("song_url"@, song_url@),
                        ("voice_channel_id"@, decimal(*voice_channel_id as nat)),
                        ("count"@, decimal(*count as nat)),
                    ]);
                    config.get_message("response.skip_more_votes_needed.plural", &substitutions)
                }
            },
            ResponseMessage::Stopped { song_title, song_url, voice_channel_id, user_id } => {
                let mut substitutions = no_substitutions();
                substitute(&mut substitutions, "song_title", song_title.clone());
                substitute(&mut substitutions, "song_url", song_url.clone());
                substitute(&mut substitutions, "voice_channel_id", decimal_string(*voice_channel_id as u64));
                substitute(&mut substitutions, "user_id", decimal_string(*user_id as u64));
                assert(pairs(substitutions@) =~= seq![
                    ("song_title"@, song_title@),
                    ("song_url"@, song_url@),
                    ("voice_channel_id"@, decimal(*voice_channel_id as nat)),
                    ("user_id"@, decimal(*user_id as nat)),
                ]);
                config.get_message("response.stopped", &substitutions)
            },
            ResponseMessage::StopMoreVotesNeeded { voice_channel_id, count } => {
                if *count == 1 {
                    let mut substitutions = no_substitutions();
                    substitute(&mut substitutions, "voice_channel_id", decimal_string(*voice_channel_id as u64));
                    assert(pairs(substitutions@) =~= seq![
                        ("voice_channel_id"@, decimal(*voice_channel_id as nat)),
                    ]);
                    config.get_message("response.stop_more_votes_needed.singular", &substitutions)
                } else {
                    let mut substitutions = no_substitutions();
                    substitute(&mut substitutions, "voice_channel_id", decimal_string(*voice_channel_id as u64));
                    substitute(&mut substitutions, "count", decimal_string(*count as u64));
                    assert(pairs(substitutions@) =~= seq![
                        ("voice_channel_id"@, decimal(*voice_channel_id as nat)),
                        ("count"@, decimal(*count as nat)),
                    ]);
                    config.get_message("response.stop_more_votes_needed.plural", &substitutions)
                }
            },
            ResponseMessage::ImageEmbed { image_url } => image_url.clone(),
            ResponseMessage::NoMatchingSongsError => config.get_raw_message("response.no_matching_songs_error"),
            ResponseMessage::NotInVoiceChannelError => config.get_raw_message("response.not_in_voice_channel_error"),
            ResponseMessage::UnsupportedSiteError => config.get_raw_message("response.unsupported_site_error"),
            ResponseMessage::SkipAlreadyVotedError {
                song_title,
                song_url,
                voice_channel_id,
            } => {
                let mut substitutions = no_substitutions();
                substitute(&mut substitutions, "song_title", song_title.clone());
                substitute(&mut substitutions, "song_url", song_url.clone());
                substitute(&mut substitutions, "voice_channel_id", decimal_string(*voice_channel_id as u64));
                assert(pairs(substitutions@) =~= seq![
                    ("song_title"@, song_title@),
                    ("song_url"@, song_url@),
                    ("voice_channel_id"@, decimal(*voice_channel_id as nat)),
                ]);
                config.get_message("response.skip_already_voted_error", &substitutions)
            },
            ResponseMessage::StopAlreadyVotedError { voice_channel_id } => {
                let mut substitutions = no_substitutions();
                substitute(&mut substitutions, "voice_channel_id", decimal_string(*voice_channel_id as u64));
                assert(pairs(substitutions@) =~= seq![
                    ("voice_channel_id"@, decimal(*voice_channel_id as nat)),
                ]);
                config.get_message("response.stop_already_voted_error", &substitutions)
            },
            ResponseMessage::NothingIsQueuedError { voice_channel_id } => {
                let mut substitutions = no_substitutions();
                substitute(&mut substitutions, "voice_channel_id", decimal_string(*voice_channel_id as u64));
                assert(pairs(substitutions@) =~= seq![
                    ("voice_channel_id"@, decimal(*voice_channel_id as nat)),
                ]);
                config.get_message("response.nothing_is_queued_error", &substitutions)
            },
            ResponseMessage::NothingIsPlayingError { voice_channel_id } => {
                let mut substitutions = no_substitutions();
                substitute(&mut substitutions, "voice_channel_id", decimal_string(*voice_channel_id as u64));
                assert(pairs(substitutions@) =~= seq![
                    ("voice_channel_id"@, decimal(*voice_channel_id as nat)),
                ]);
                config.get_message("response.nothing_is_playing_error", &substitutions)
            },
            ResponseMessage::AlreadyPlayingError { voice_channel_id } => {
                let mut substitutions = no_substitutions();
                substitute(&mut substitutions, "voice_channel_id", decimal_string(*voice_channel_id as u64));
                assert(pairs(substitutions@) =~= seq![
                    ("voice_channel_id"@, decimal(*voice_channel_id as nat)),
                ]);
                config.get_message("response.already_playing_error", &substitutions)
            },
            ResponseMessage::Pet => config.get_raw_message("response.pet"),
            ResponseMessage::ShinyPet => config.get_raw_message("response.shiny_pet"),
            ResponseMessage::NowPlaying {
                song_title,
                song_url,
                voice_channel_id,
                user_id,
            } => {
                let mut substitutions = no_substitutions();
                substitute(&mut substitutions, "song_title", song_title.clone());
                substitute(&mut substitutions, "song_url", song_url.clone());
                substitute(&mut substitutions, "voice_channel_id", decimal_string(*voice_channel_id as u64));
                substitute(&mut substitutions, "user_id", decimal_string(*user_id as u64));
                assert(pairs(substitutions@) =~= seq![
                    ("song_title"@, song_title@),
                    ("song_url"@, song_url@),
                    ("voice_channel_id"@, decimal(*voice_channel_id as nat)),
                    ("user_id"@, decimal(*user_id as nat)),
                ]);
                config.get_message("response.now_playing", &substitutions)
            },
        }
    }
}


} // verus!
