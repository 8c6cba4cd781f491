//! The frontend: handles commands and the ends of playbacks.
//!
//! Every function here decides and records; none of them plays anything.
//! Where a song has to be played, the function returns [`Step::Play`]: the
//! caller tries to play and reports what came of it to
//! [`Frontend::play_finished`], which returns the next step. Where a speaker
//! has to be paused, stopped or taken out of its channel, [`Step::Done`] says
//! so beside the messages to send. What each function decides is written
//! down in [`crate::decisions`].

use crate::config::Config;
use crate::decisions::{
    advance, continue_channel_playback, ended_report, guild_command, nothing_found,
    nothing_is_playing, nowplaying, pause, pet_message, play_finished, playback_ended,
    playing_message, queue_play, queued_message, queued_no_speakers_message, replace,
    result_view, say, select_to_play, skip, songs_view, started_messages, stop, tell, unpause,
    voice_view,
};
use crate::error::{BackendError, Error, ResolveError};
use crate::message::{ActionMessage, Message, ResponseMessage};
use crate::model::{GuildModel, ModelView, NextEntry, ReplaceStatus};
use crate::song::{Song, SongMetadata};
use crate::speaker::{
    active_at, after_play, lemma_active_in, may_play_in, GuildSpeakers, PlaybackError,
    SpeakerHandle,
};
use crate::voice::VoiceStates;
use crate::vote::{VoteStatus, VoteType};
use rand::distributions::{Distribution, Uniform};
use vstd::prelude::*;

verus! {

/// What a play command has queued.
#[derive(Debug, PartialEq, Eq)]
pub enum QueuedSongsMetadata {
    Single(SongMetadata),
    Multiple(usize),
}

/// Why a song is to be played, with what the messages will need once it plays.
#[derive(Debug, PartialEq, Eq)]
pub enum PlayContext {
    /// A play command queued songs, and the channel was not playing.
    QueuePlay(QueuedSongsMetadata),
    /// A resume command found nothing paused, and the channel was not playing.
    Unpause,
    /// A replace command put `new_song` in the place of `playing`.
    Replace { new_song: SongMetadata, playing: SongMetadata },
    /// The playback before has ended.
    Continue,
}

/// A song that is to be played, less what the backend plays from.
#[derive(Debug, PartialEq, Eq)]
pub struct PendingPlay {
    pub speaker: SpeakerHandle,
    pub channel_id: u64,
    pub metadata: SongMetadata,
    pub context: PlayContext,
}

/// What a speaker is to be told.
#[derive(Clone, Copy, Debug, PartialEq, Eq, Structural)]
pub enum SpeakerCommand {
    Pause(SpeakerHandle),
    Unpause(SpeakerHandle),
    Stop(SpeakerHandle),
    /// Take the speaker out of its channel.
    Release(SpeakerHandle),
}

/// What the caller is to do next.
#[derive(Debug, PartialEq, Eq)]
pub enum Step<P> {
    /// Tell the speaker what `command` says, if anything, and send `messages`.
    Done { messages: Vec<Message>, command: Option<SpeakerCommand> },
    /// Try to play `payload` as `pending` says, and report to
    /// [`Frontend::play_finished`].
    Play { payload: P, pending: PendingPlay },
}

/// A [`Step`] with its messages as a sequence.
pub enum StepView<P> {
    Done { messages: Seq<Message>, command: Option<SpeakerCommand> },
    Play { payload: P, pending: PendingPlay },
}

impl<P> View for Step<P> {
    type V = StepView<P>;

    open spec fn view(&self) -> StepView<P> {
        match *self {
            Step::Done { messages, command } => StepView::Done { messages: messages@, command },
            Step::Play { payload, pending } => StepView::Play { payload, pending },
        }
    }
}

/// What came of looking for a speaker and a song for a channel.
#[derive(Debug, PartialEq, Eq)]
pub enum Selection<P> {
    /// No speaker can take up playing in the channel.
    NoSpeakers,
    /// Another speaker plays in the channel, of which the model knows nothing.
    Desync,
    AlreadyPlaying,
    NoneAvailable,
    Start { speaker: SpeakerHandle, song: Song<P> },
}

fn make_say<P>(messages: Vec<Message>) -> (step: Step<P>)
    ensures
        step@ == say::<P>(messages@),
{
    Step::Done { messages, command: None }
}

fn make_tell<P>(messages: Vec<Message>, command: SpeakerCommand) -> (step: Step<P>)
    ensures
        step@ == tell::<P>(messages@, command),
{
    Step::Done { messages, command: Some(command) }
}

fn one_message(message: Message) -> (messages: Vec<Message>)
    ensures
        messages@ == seq![message],
{
    let mut messages: Vec<Message> = Vec::new();
    messages.push(message);
    assert(messages@ =~= seq![message]);
    messages
}

fn two_messages(first: Message, second: Message) -> (messages: Vec<Message>)
    ensures
        messages@ == seq![first, second],
{
    let mut messages: Vec<Message> = Vec::new();
    messages.push(first);
    messages.push(second);
    assert(messages@ =~= seq![first, second]);
    messages
}

fn make_playing_message(item: SongMetadata, channel_id: u64) -> (message: Message)
    ensures
        message == playing_message(item, channel_id),
{
    Message::Action(
        ActionMessage::Playing {
            song_title: item.title,
            song_url: item.url,
            voice_channel_id: channel_id,
            user_id: item.user_id,
        },
    )
}

fn make_queued_message(queued: QueuedSongsMetadata) -> (message: Message)
    ensures
        message == queued_message(queued),
{
    Message::Response(
        match queued {
            QueuedSongsMetadata::Single(item) => ResponseMessage::Queued {
                song_title: item.title,
                song_url: item.url,
            },
            QueuedSongsMetadata::Multiple(count) => ResponseMessage::QueuedMultiple { count },
        },
    )
}

fn make_queued_no_speakers_message(queued: QueuedSongsMetadata) -> (message: Message)
    ensures
        message == queued_no_speakers_message(queued),
{
    Message::Response(
        match queued {
            QueuedSongsMetadata::Single(item) => ResponseMessage::QueuedNoSpeakers {
                song_title: item.title,
                song_url: item.url,
            },
            QueuedSongsMetadata::Multiple(count) => ResponseMessage::QueuedMultipleNoSpeakers {
                count,
            },
        },
    )
}

fn make_nothing_is_playing<P>(channel_id: u64) -> (step: Step<P>)
    ensures
        step@ == nothing_is_playing::<P>(channel_id),
{
    make_say(
        one_message(
            Message::Response(ResponseMessage::NothingIsPlayingError { voice_channel_id: channel_id }),
        ),
    )
}

fn make_not_in_voice_channel<P>() -> (step: Step<P>)
    ensures
        step@ == say::<P>(seq![Message::Response(ResponseMessage::NotInVoiceChannelError)]),
{
    make_say(one_message(Message::Response(ResponseMessage::NotInVoiceChannelError)))
}

fn make_started_messages(context: PlayContext, next: SongMetadata, channel_id: u64) -> (messages:
    Vec<Message>)
    ensures
        messages@ == started_messages(context, next, channel_id),
{
    match context {
        PlayContext::QueuePlay(QueuedSongsMetadata::Single(item)) => {
            if next.url == item.url {
                one_message(
                    Message::Action(
                        ActionMessage::PlayingResponse {
                            song_title: item.title,
                            song_url: item.url,
                            voice_channel_id: channel_id,
                        },
                    ),
                )
            } else {
                two_messages(
                    make_queued_message(QueuedSongsMetadata::Single(item)),
                    make_playing_message(next, channel_id),
                )
            }
        },
        PlayContext::QueuePlay(QueuedSongsMetadata::Multiple(count)) => two_messages(
            make_queued_message(QueuedSongsMetadata::Multiple(count)),
            make_playing_message(next, channel_id),
        ),
        PlayContext::Unpause => one_message(make_playing_message(next, channel_id)),
        PlayContext::Replace { new_song, playing } => {
            if next.url == new_song.url {
                one_message(
                    Message::Action(
                        ActionMessage::PlayingResponse {
                            song_title: new_song.title,
                            song_url: new_song.url,
                            voice_channel_id: channel_id,
                        },
                    ),
                )
            } else {
                two_messages(
                    Message::Response(
                        ResponseMessage::ReplaceSkipped {
                            new_song_title: new_song.title,
                            new_song_url: new_song.url,
                            old_song_title: playing.title,
                            old_song_url: playing.url,
                            voice_channel_id: channel_id,
                        },
                    ),
                    make_playing_message(next, channel_id),
                )
            }
        },
        PlayContext::Continue => one_message(make_playing_message(next, channel_id)),
    }
}

/// Answers a lookup that found no song to queue, or hands back the songs.
fn found_songs<P>(songs: Result<Vec<Song<P>>, BackendError>) -> (found: Result<
    Vec<Song<P>>,
    Result<Step<P>, Error>,
>)
    ensures
        match found {
            Ok(found) => nothing_found(songs_view(songs)) is None && songs == Ok::<
                Vec<Song<P>>,
                BackendError,
            >(found) && found@.len() > 0,
            Err(answer) => nothing_found(songs_view(songs)) == Some(result_view(answer)),
        },
{
    match songs {
        Err(BackendError::Resolve(ResolveError::UnsupportedSource)) => Err(
            Ok(make_say(one_message(Message::Response(ResponseMessage::UnsupportedSiteError)))),
        ),
        Err(BackendError::Resolve(ResolveError::NoResults)) => Err(
            Ok(make_say(one_message(Message::Response(ResponseMessage::NoMatchingSongsError)))),
        ),
        Err(why) => Err(Err(Error::Backend(why))),
        Ok(songs) => {
            if songs.len() == 0 {
                Err(
                    Ok(
                        make_say(
                            one_message(Message::Response(ResponseMessage::NoMatchingSongsError)),
                        ),
                    ),
                )
            } else {
                Ok(songs)
            }
        },
    }
}

/// A command with what was looked up for it.
#[derive(Debug, PartialEq, Eq)]
pub enum GuildCommand<P> {
    Play { songs: Result<Vec<Song<P>>, BackendError> },
    Resume,
    Replace { songs: Result<Vec<Song<P>>, BackendError> },
    Pause,
    Skip,
    Stop,
    Pet,
    NowPlaying,
}

/// Why a command was given up, and how the user is to be told: by a new
/// answer, or by editing the answer that says that the bot is working.
#[derive(Debug, PartialEq, Eq)]
pub enum HandleCommandError {
    CreateError(Error),
    EditError(Error),
}

impl HandleCommandError {
    /// The error for a command that failed with `why`, where
    /// `has_sent_deferred` says whether the user was told that the bot is working.
    pub fn new(why: Error, has_sent_deferred: bool) -> (error: HandleCommandError)
        ensures
            error == if has_sent_deferred {
                HandleCommandError::EditError(why)
            } else {
                HandleCommandError::CreateError(why)
            },
    {
        if has_sent_deferred {
            HandleCommandError::EditError(why)
        } else {
            HandleCommandError::CreateError(why)
        }
    }
}

/// The number of outcomes of a pet, of which one is shiny.
pub const PET_OUTCOMES: i32 = 8192;

/// Draws a number with `Uniform::from(low..high)` and
/// `Distribution::sample`, from the generator that `rand::thread_rng` hands
/// out: the number is at least `low` and less than `high`.
#[verifier::external_body]
fn sample_uniform(low: i32, high: i32) -> (sample: i32)
    requires
        low < high,
    ensures
        low <= sample < high,
{
    Uniform::from(low..high).sample(&mut rand::thread_rng())
}

/// Decides what follows from commands and from the end of playbacks.
pub struct Frontend {
    pub config: Config,
}

impl Frontend {
    /// A frontend that answers with what `config` has set up.
    pub fn new(config: Config) -> (frontend: Frontend)
        ensures
            frontend.config == config,
    {
        Frontend { config }
    }

    /// The answer to a pet that drew `roll`: a shiny one for a one.
    pub fn pet_response(roll: i32) -> (message: ResponseMessage)
        ensures
            message == pet_message(roll),
    {
        if roll == 1 {
            ResponseMessage::ShinyPet
        } else {
            ResponseMessage::Pet
        }
    }

    /// Handles a pet command: draws one of [`PET_OUTCOMES`] less one
    /// numbers, and answers with a pet, a shiny one where it drew a one.
    pub fn handle_pet_command<P>(&self) -> (result: Result<Step<P>, Error>)
        ensures
            result is Ok,
            exists|roll: i32|
                1 <= roll < PET_OUTCOMES && result->Ok_0@ == say::<P>(
                    seq![Message::Response(#[trigger] pet_message(roll))],
                ),
    {
        let roll = sample_uniform(1, PET_OUTCOMES);
        Ok(make_say(one_message(Message::Response(Self::pet_response(roll)))))
    }

    /// Handles a command of `user_id` with what was looked up for it.
    pub fn handle_guild_command<P>(
        &self,
        model: &mut GuildModel<Song<P>>,
        speakers: &mut GuildSpeakers,
        delegate: &VoiceStates,
        user_id: u64,
        command: GuildCommand<P>,
    ) -> (result: Result<Step<P>, Error>)
        requires
            old(model).wf(),
            old(speakers).wf(),
            delegate.wf(),
        ensures
            final(model).wf(),
            final(speakers).wf(),
            exists|roll: i32|
                1 <= roll < PET_OUTCOMES && (final(model)@, final(speakers)@, result_view(result))
                    == guild_command(
                    old(model)@,
                    old(speakers)@,
                    delegate@,
                    user_id,
                    command,
                    #[trigger] pet_message(roll),
                ),
            result matches Ok(Step::Play { pending, .. }) ==> may_play_in(
                final(speakers)@,
                pending.channel_id,
                pending.speaker.index as int,
            ),
    {
        let ghost given = command;
        let ghost model_before = model@;
        let ghost pool_before = speakers@;
        match command {
            GuildCommand::Play { songs } => {
                let result = self.handle_queue_play_command(
                    model,
                    speakers,
                    delegate,
                    user_id,
                    songs,
                );
                assert((model@, speakers@, result_view(result)) == guild_command(
                    model_before,
                    pool_before,
                    delegate@,
                    user_id,
                    given,
                    pet_message(1),
                ));
                result
            },
            GuildCommand::Resume => {
                let result = self.handle_unpause_command(model, speakers, delegate, user_id);
                assert((model@, speakers@, result_view(result)) == guild_command(
                    model_before,
                    pool_before,
                    delegate@,
                    user_id,
                    given,
                    pet_message(1),
                ));
                result
            },
            GuildCommand::Replace { songs } => {
                let result = self.handle_replace_command(
                    model,
                    speakers,
                    delegate,
                    user_id,
                    songs,
                );
                assert((model@, speakers@, result_view(result)) == guild_command(
                    model_before,
                    pool_before,
                    delegate@,
                    user_id,
                    given,
                    pet_message(1),
                ));
                result
            },
            GuildCommand::Pause => {
                let result = self.handle_pause_command(speakers, delegate, user_id);
                assert((model@, speakers@, result_view(result)) == guild_command(
                    model_before,
                    pool_before,
                    delegate@,
                    user_id,
                    given,
                    pet_message(1),
                ));
                result
            },
            GuildCommand::Skip => {
                let result = self.handle_skip_command(model, speakers, delegate, user_id);
                assert((model@, speakers@, result_view(result)) == guild_command(
                    model_before,
                    pool_before,
                    delegate@,
                    user_id,
                    given,
                    pet_message(1),
                ));
                result
            },
            GuildCommand::Stop => {
                let result = self.handle_stop_command(model, speakers, delegate, user_id);
                assert((model@, speakers@, result_view(result)) == guild_command(
                    model_before,
                    pool_before,
                    delegate@,
                    user_id,
                    given,
                    pet_message(1),
                ));
                result
            },
            GuildCommand::Pet => {
                let result = self.handle_pet_command();
                proof {
                    let roll = choose|roll: i32|
                        1 <= roll < PET_OUTCOMES && result->Ok_0@ == say::<P>(
                            seq![Message::Response(#[trigger] pet_message(roll))],
                        );
                    assert((model@, speakers@, result_view(result)) == guild_command(
                        model_before,
                        pool_before,
                        delegate@,
                        user_id,
                        given,
                        pet_message(roll),
                    ));
                }
                result
            },
            GuildCommand::NowPlaying => {
                let result = self.handle_nowplaying_command(speakers, delegate, user_id);
                assert((model@, speakers@, result_view(result)) == guild_command(
                    model_before,
                    pool_before,
                    delegate@,
                    user_id,
                    given,
                    pet_message(1),
                ));
                result
            },
        }
    }

    /// Handles a command that `user_id` gave in the channel
    /// `message_channel_id`: messages that answer no command go to that
    /// channel from now on. Then as [`Frontend::handle_guild_command`].
    pub fn handle_command<P>(
        &self,
        model: &mut GuildModel<Song<P>>,
        speakers: &mut GuildSpeakers,
        delegate: &VoiceStates,
        message_channel_id: u64,
        user_id: u64,
        command: GuildCommand<P>,
    ) -> (result: Result<Step<P>, Error>)
        requires
            old(model).wf(),
            old(speakers).wf(),
            delegate.wf(),
        ensures
            final(model).wf(),
            final(speakers).wf(),
            exists|roll: i32|
                1 <= roll < PET_OUTCOMES && (final(model)@, final(speakers)@, result_view(result))
                    == guild_command(
                    (ModelView { message_channel: Some(message_channel_id), ..old(model)@ }),
                    old(speakers)@,
                    delegate@,
                    user_id,
                    command,
                    #[trigger] pet_message(roll),
                ),
            result matches Ok(Step::Play { pending, .. }) ==> may_play_in(
                final(speakers)@,
                pending.channel_id,
                pending.speaker.index as int,
            ),
    {
        model.set_message_channel(Some(message_channel_id));
        self.handle_guild_command(model, speakers, delegate, user_id, command)
    }

    /// Looks for a speaker and a song for `channel_id`.
    fn select_to_play<P>(
        model: &mut GuildModel<Song<P>>,
        speakers: &GuildSpeakers,
        delegate: &VoiceStates,
        channel_id: u64,
    ) -> (selection: Selection<P>)
        requires
            old(model).wf(),
            speakers.wf(),
            delegate.wf(),
        ensures
            final(model).wf(),
            (final(model)@, selection) == select_to_play(
                old(model)@,
                speakers@,
                delegate@,
                channel_id,
            ),
            selection matches Selection::Start { speaker, .. } ==> may_play_in(
                speakers@,
                channel_id,
                speaker.index as int,
            ),
    {
        let speaker = match speakers.find_to_play_in_channel(channel_id) {
            Some(speaker) => speaker,
            None => {
                return Selection::NoSpeakers;
            },
        };
        if !model.is_channel_active(channel_id) && !speakers.can_play_in_channel(
            speaker,
            channel_id,
        ) {
            return Selection::Desync;
        }
        match model.next_channel_entry(delegate, channel_id) {
            NextEntry::Entry(song) => Selection::Start { speaker, song },
            NextEntry::AlreadyPlaying => Selection::AlreadyPlaying,
            NextEntry::NoneAvailable => Selection::NoneAvailable,
        }
    }

    /// Handles a play command of `user_id` that came with `songs`. The
    /// songs are queued. Where the user is in a voice channel that plays
    /// nothing and a speaker can take it up, the channel's next song is to be
    /// played: the first in turn, which need not be one of `songs`.
    pub fn handle_queue_play_command<P>(
        &self,
        model: &mut GuildModel<Song<P>>,
        speakers: &GuildSpeakers,
        delegate: &VoiceStates,
        user_id: u64,
        songs: Result<Vec<Song<P>>, BackendError>,
    ) -> (result: Result<Step<P>, Error>)
        requires
            old(model).wf(),
            speakers.wf(),
            delegate.wf(),
        ensures
            final(model).wf(),
            (final(model)@, result_view(result)) == queue_play(
                old(model)@,
                speakers@,
                delegate@,
                user_id,
                songs_view(songs),
            ),
            result matches Ok(Step::Play { pending, .. }) ==> may_play_in(
                speakers@,
                pending.channel_id,
                pending.speaker.index as int,
            ),
    {
        let songs = match found_songs(songs) {
            Ok(songs) => songs,
            Err(answer) => {
                return answer;
            },
        };
        let queued = if songs.len() == 1 {
            QueuedSongsMetadata::Single(songs[0].metadata.clone())
        } else {
            QueuedSongsMetadata::Multiple(songs.len())
        };
        model.push_entries(user_id, songs);
        let channel_id = match delegate.get_user_voice_channel(user_id) {
            Some(channel_id) => channel_id,
            None => {
                return Ok(make_say(one_message(make_queued_message(queued))));
            },
        };
        match Self::select_to_play(model, speakers, delegate, channel_id) {
            Selection::NoSpeakers => Ok(
                make_say(one_message(make_queued_no_speakers_message(queued))),
            ),
            Selection::Desync => Err(Error::ModelPlayingSpeakerNotDesync),
            Selection::AlreadyPlaying => Ok(make_say(one_message(make_queued_message(queued)))),
            Selection::NoneAvailable => Ok(make_say(one_message(make_queued_message(queued)))),
            Selection::Start { speaker, song } => Ok(
                Step::Play {
                    payload: song.payload,
                    pending: PendingPlay {
                        speaker,
                        channel_id,
                        metadata: song.metadata,
                        context: PlayContext::QueuePlay(queued),
                    },
                },
            ),
        }
    }

    /// Handles a resume command of `user_id`. A paused speaker in the user's
    /// voice channel plays on. Where no speaker plays or is paused there, the
    /// channel's next song is to be played, if a speaker can take it up.
    pub fn handle_unpause_command<P>(
        &self,
        model: &mut GuildModel<Song<P>>,
        speakers: &mut GuildSpeakers,
        delegate: &VoiceStates,
        user_id: u64,
    ) -> (result: Result<Step<P>, Error>)
        requires
            old(model).wf(),
            old(speakers).wf(),
            delegate.wf(),
        ensures
            final(model).wf(),
            final(speakers).wf(),
            (final(model)@, final(speakers)@, result_view(result)) == unpause(
                old(model)@,
                old(speakers)@,
                delegate@,
                user_id,
            ),
            result matches Ok(Step::Play { pending, .. }) ==> may_play_in(
                final(speakers)@,
                pending.channel_id,
                pending.speaker.index as int,
            ),
    {
        let channel_id = match delegate.get_user_voice_channel(user_id) {
            Some(channel_id) => channel_id,
            None => {
                return Ok(make_not_in_voice_channel());
            },
        };
        match speakers.find_active_in_channel(channel_id) {
            Some((speaker, item)) => {
                return if speakers.is_paused(speaker) {
                    speakers.unpause(speaker);
                    Ok(
                        make_tell(
                            one_message(make_playing_message(item, channel_id)),
                            SpeakerCommand::Unpause(speaker),
                        ),
                    )
                } else {
                    Ok(
                        make_say(
                            one_message(
                                Message::Response(
                                    ResponseMessage::AlreadyPlayingError {
                                        voice_channel_id: channel_id,
                                    },
                                ),
                            ),
                        ),
                    )
                };
            },
            None => {},
        }
        let speaker = match speakers.find_to_play_in_channel(channel_id) {
            Some(speaker) => speaker,
            None => {
                return Ok(
                    make_say(
                        one_message(
                            Message::Action(
                                ActionMessage::NoSpeakersError { voice_channel_id: channel_id },
                            ),
                        ),
                    ),
                );
            },
        };
        assert(may_play_in(speakers@, channel_id, speaker.index as int)) by {
            assert forall|j: int| 0 <= j < speakers@.len() implies !(
            #[trigger] speakers@[j]).is_active_in(channel_id) by {
                if speakers@[j].is_active_in(channel_id) {
                    assert(active_at(speakers@, channel_id, j));
                }
            }
        }
        match model.next_channel_entry(delegate, channel_id) {
            NextEntry::Entry(song) => Ok(
                Step::Play {
                    payload: song.payload,
                    pending: PendingPlay {
                        speaker,
                        channel_id,
                        metadata: song.metadata,
                        context: PlayContext::Unpause,
                    },
                },
            ),
            _ => Ok(
                make_say(
                    one_message(
                        Message::Response(
                            ResponseMessage::NothingIsQueuedError { voice_channel_id: channel_id },
                        ),
                    ),
                ),
            ),
        }
    }

    /// Handles a pause command of `user_id`: a speaker that plays in the
    /// user's voice channel is paused.
    pub fn handle_pause_command<P>(
        &self,
        speakers: &mut GuildSpeakers,
        delegate: &VoiceStates,
        user_id: u64,
    ) -> (result: Result<Step<P>, Error>)
        requires
            old(speakers).wf(),
            delegate.wf(),
        ensures
            final(speakers).wf(),
            result is Ok,
            (final(speakers)@, result->Ok_0@) == pause::<P>(old(speakers)@, delegate@, user_id),
    {
        let channel_id = match delegate.get_user_voice_channel(user_id) {
            Some(channel_id) => channel_id,
            None => {
                return Ok(make_not_in_voice_channel());
            },
        };
        match speakers.find_active_in_channel(channel_id) {
            Some((speaker, item)) => {
                if speakers.is_paused(speaker) {
                    Ok(make_nothing_is_playing(channel_id))
                } else {
                    speakers.pause(speaker);
                    Ok(
                        make_tell(
                            one_message(
                                Message::Response(
                                    ResponseMessage::Paused {
                                        song_title: item.title,
                                        song_url: item.url,
                                        voice_channel_id: channel_id,
                                        user_id: item.user_id,
                                    },
                                ),
                            ),
                            SpeakerCommand::Pause(speaker),
                        ),
                    )
                }
            },
            None => Ok(make_nothing_is_playing(channel_id)),
        }
    }

    /// Handles a now-playing command of `user_id`: says what plays in the
    /// user's voice channel.
    pub fn handle_nowplaying_command<P>(
        &self,
        speakers: &GuildSpeakers,
        delegate: &VoiceStates,
        user_id: u64,
    ) -> (result: Result<Step<P>, Error>)
        requires
            speakers.wf(),
            delegate.wf(),
        ensures
            result is Ok,
            result->Ok_0@ == nowplaying::<P>(speakers@, delegate@, user_id),
    {
        let channel_id = match delegate.get_user_voice_channel(user_id) {
            Some(channel_id) => channel_id,
            None => {
                return Ok(make_not_in_voice_channel());
            },
        };
        match speakers.find_active_in_channel(channel_id) {
            Some((_, item)) => Ok(
                make_say(
                    one_message(
                        Message::Response(
                            ResponseMessage::NowPlaying {
                                song_title: item.title,
                                song_url: item.url,
                                voice_channel_id: channel_id,
                                user_id: item.user_id,
                            },
                        ),
                    ),
                ),
            ),
            None => Ok(make_nothing_is_playing(channel_id)),
        }
    }

    /// Handles a skip command of `user_id`: counts the user's vote to skip
    /// what plays in the user's voice channel. Where the vote carries, the
    /// speaker is told to stop; the end of its playback brings the next song.
    pub fn handle_skip_command<P>(
        &self,
        model: &mut GuildModel<Song<P>>,
        speakers: &mut GuildSpeakers,
        delegate: &VoiceStates,
        user_id: u64,
    ) -> (result: Result<Step<P>, Error>)
        requires
            old(model).wf(),
            old(speakers).wf(),
            delegate.wf(),
        ensures
            final(model).wf(),
            final(speakers).wf(),
            (final(model)@, final(speakers)@, result_view(result)) == skip(
                old(model)@,
                old(speakers)@,
                delegate@,
                user_id,
            ),
    {
        let channel_id = match delegate.get_user_voice_channel(user_id) {
            Some(channel_id) => channel_id,
            None => {
                return Ok(make_not_in_voice_channel());
            },
        };
        let skip_status = model.vote_for_skip(delegate, VoteType::Skip, channel_id, user_id);
        let maybe_speaker = speakers.find_active_in_channel(channel_id);
        match skip_status {
            VoteStatus::NothingPlaying => Ok(make_nothing_is_playing(channel_id)),
            VoteStatus::Success => match maybe_speaker {
                Some((speaker, item)) => {
                    speakers.stop(speaker);
                    Ok(
                        make_tell(
                            one_message(
                                Message::Response(
                                    ResponseMessage::Skipped {
                                        song_title: item.title,
                                        song_url: item.url,
                                        voice_channel_id: channel_id,
                                        user_id: item.user_id,
                                    },
                                ),
                            ),
                            SpeakerCommand::Stop(speaker),
                        ),
                    )
                },
                None => Err(Error::ModelPlayingSpeakerNotDesync),
            },
            VoteStatus::AlreadyVoted => match maybe_speaker {
                Some((_, item)) => Ok(
                    make_say(
                        one_message(
                            Message::Response(
                                ResponseMessage::SkipAlreadyVotedError {
                                    song_title: item.title,
                                    song_url: item.url,
                                    voice_channel_id: channel_id,
                                },
                            ),
                        ),
                    ),
                ),
                None => Err(Error::ModelPlayingSpeakerNotDesync),
            },
            VoteStatus::NeedsMoreVotes(count) => match maybe_speaker {
                Some((_, item)) => Ok(
                    make_say(
                        one_message(
                            Message::Response(
                                ResponseMessage::SkipMoreVotesNeeded {
                                    song_title: item.title,
                                    song_url: item.url,
                                    voice_channel_id: channel_id,
                                    count,
                                },
                            ),
                        ),
                    ),
                ),
                None => Err(Error::ModelPlayingSpeakerNotDesync),
            },
        }
    }

    /// Handles a stop command of `user_id`: counts the user's vote to stop
    /// what plays in the user's voice channel. Where the vote carries, the
    /// channel is stopped and its speaker is told to stop: the end of its
    /// playback then brings no next song.
    pub fn handle_stop_command<P>(
        &self,
        model: &mut GuildModel<Song<P>>,
        speakers: &mut GuildSpeakers,
        delegate: &VoiceStates,
        user_id: u64,
    ) -> (result: Result<Step<P>, Error>)
        requires
            old(model).wf(),
            old(speakers).wf(),
            delegate.wf(),
        ensures
            final(model).wf(),
            final(speakers).wf(),
            (final(model)@, final(speakers)@, result_view(result)) == stop(
                old(model)@,
                old(speakers)@,
                delegate@,
                user_id,
            ),
    {
        let channel_id = match delegate.get_user_voice_channel(user_id) {
            Some(channel_id) => channel_id,
            None => {
                return Ok(make_not_in_voice_channel());
            },
        };
        match model.vote_for_skip(delegate, VoteType::Stop, channel_id, user_id) {
            VoteStatus::Success => match speakers.find_active_in_channel(channel_id) {
                Some((speaker, item)) => {
                    model.set_channel_stopped(channel_id);
                    speakers.stop(speaker);
                    Ok(
                        make_tell(
                            one_message(
                                Message::Response(
                                    ResponseMessage::Stopped {
                                        song_title: item.title,
                                        song_url: item.url,
                                        voice_channel_id: channel_id,
                                        user_id: item.user_id,
                                    },
                                ),
                            ),
                            SpeakerCommand::Stop(speaker),
                        ),
                    )
                },
                None => Err(Error::ModelPlayingSpeakerNotDesync),
            },
            VoteStatus::AlreadyVoted => Ok(
                make_say(
                    one_message(
                        Message::Response(
                            ResponseMessage::StopAlreadyVotedError { voice_channel_id: channel_id },
                        ),
                    ),
                ),
            ),
            VoteStatus::NeedsMoreVotes(count) => Ok(
                make_say(
                    one_message(
                        Message::Response(
                            ResponseMessage::StopMoreVotesNeeded {
                                voice_channel_id: channel_id,
                                count,
                            },
                        ),
                    ),
                ),
            ),
            VoteStatus::NothingPlaying => Ok(make_nothing_is_playing(channel_id)),
        }
    }

    /// Handles a replace command of `user_id` that came with `songs`. The
    /// first song takes the place of the latest song that the user has
    /// queued; the others are queued behind it. Where the user has nothing
    /// queued and the user's song plays in the user's voice channel, the
    /// channel's next song is to be played in its place.
    pub fn handle_replace_command<P>(
        &self,
        model: &mut GuildModel<Song<P>>,
        speakers: &GuildSpeakers,
        delegate: &VoiceStates,
        user_id: u64,
        songs: Result<Vec<Song<P>>, BackendError>,
    ) -> (result: Result<Step<P>, Error>)
        requires
            old(model).wf(),
            speakers.wf(),
            delegate.wf(),
        ensures
            final(model).wf(),
            (final(model)@, result_view(result)) == replace(
                old(model)@,
                speakers@,
                delegate@,
                user_id,
                songs_view(songs),
            ),
            result matches Ok(Step::Play { pending, .. }) ==> may_play_in(
                speakers@,
                pending.channel_id,
                pending.speaker.index as int,
            ),
    {
        let mut songs = match found_songs(songs) {
            Ok(songs) => songs,
            Err(answer) => {
                return answer;
            },
        };
        let ghost all = songs@;
        let song = songs.remove(0);
        assert(songs@ =~= all.skip(1));
        let song_metadata = song.metadata.clone();
        let maybe_channel_id = delegate.get_user_voice_channel(user_id);
        let replace_status = model.replace_entry(user_id, maybe_channel_id, song);
        model.push_entries(user_id, songs);
        let channel_id = match replace_status {
            ReplaceStatus::Queued => {
                return Ok(
                    make_say(
                        one_message(make_queued_message(QueuedSongsMetadata::Single(song_metadata))),
                    ),
                );
            },
            ReplaceStatus::ReplacedInQueue(old_song) => {
                return Ok(
                    make_say(
                        one_message(
                            Message::Response(
                                ResponseMessage::Replaced {
                                    old_song_title: old_song.metadata.title,
                                    old_song_url: old_song.metadata.url,
                                    new_song_title: song_metadata.title,
                                    new_song_url: song_metadata.url,
                                },
                            ),
                        ),
                    ),
                );
            },
            ReplaceStatus::ReplacedCurrent(channel_id) => channel_id,
        };
        let (speaker, playing) = match speakers.find_active_in_channel(channel_id) {
            Some(found) => found,
            None => {
                return Err(Error::ModelPlayingSpeakerNotDesync);
            },
        };
        proof {
            lemma_active_in(speakers@, channel_id, speaker.index as int);
            assert forall|j: int| 0 <= j < speakers@.len() && j != speaker.index implies !(
            #[trigger] speakers@[j]).is_active_in(channel_id) by {
                if speakers@[j].is_active_in(channel_id) {
                    assert(active_at(speakers@, channel_id, j));
                }
            }
        }
        match model.next_channel_entry_finished(delegate, channel_id) {
            Some(next_song) => Ok(
                Step::Play {
                    payload: next_song.payload,
                    pending: PendingPlay {
                        speaker,
                        channel_id,
                        metadata: next_song.metadata,
                        context: PlayContext::Replace { new_song: song_metadata, playing },
                    },
                },
            ),
            None => Ok(
                make_say(
                    one_message(
                        Message::Response(
                            ResponseMessage::NothingIsQueuedError { voice_channel_id: channel_id },
                        ),
                    ),
                ),
            ),
        }
    }

    /// Records what came of an attempt to play after a command. A failure
    /// stops the channel, so that nothing is started there when a playback
    /// ends, and fails the command.
    fn play_to_speaker<P>(
        model: &mut GuildModel<Song<P>>,
        speakers: &mut GuildSpeakers,
        speaker: SpeakerHandle,
        channel_id: u64,
        metadata: SongMetadata,
        outcome: Result<(), PlaybackError>,
    ) -> (result: Result<(), Error>)
        requires
            old(model).wf(),
            old(speakers).wf(),
            may_play_in(old(speakers)@, channel_id, speaker.index as int),
        ensures
            final(model).wf(),
            final(speakers).wf(),
            final(speakers)@ == after_play(
                old(speakers)@,
                speaker.index as int,
                channel_id,
                metadata,
                outcome,
            ),
            match outcome {
                Ok(_) => result is Ok && final(model)@ == old(model)@,
                Err(why) => result == Err::<(), Error>(
                    Error::Backend(BackendError::Playback(why)),
                ) && final(model)@ == old(model)@.set_channel_stopped(channel_id),
            },
    {
        match speakers.play(speaker, channel_id, metadata, outcome) {
            Ok(_) => Ok(()),
            Err(why) => {
                model.set_channel_stopped(channel_id);
                Err(Error::Backend(BackendError::Playback(why)))
            },
        }
    }

    /// Moves on in `channel_id` with a speaker whose playback has ended or
    /// has failed to start.
    fn advance<P>(
        model: &mut GuildModel<Song<P>>,
        speakers: &mut GuildSpeakers,
        delegate: &VoiceStates,
        speaker: SpeakerHandle,
        channel_id: u64,
    ) -> (step: Step<P>)
        requires
            old(model).wf(),
            old(speakers).wf(),
            old(speakers).has(speaker),
            delegate.wf(),
        ensures
            final(model).wf(),
            final(speakers).wf(),
            (final(model)@, final(speakers)@, step@) == advance(
                old(model)@,
                old(speakers)@,
                delegate@,
                speaker,
                channel_id,
            ),
            step matches Step::Play { pending, .. } ==> may_play_in(
                final(speakers)@,
                pending.channel_id,
                pending.speaker.index as int,
            ),
    {
        if !speakers.can_play_in_channel(speaker, channel_id) {
            speakers.release(speaker);
            return make_tell(Vec::new(), SpeakerCommand::Release(speaker));
        }
        match model.next_channel_entry_finished(delegate, channel_id) {
            Some(song) => Step::Play {
                payload: song.payload,
                pending: PendingPlay {
                    speaker,
                    channel_id,
                    metadata: song.metadata,
                    context: PlayContext::Continue,
                },
            },
            None => {
                speakers.release(speaker);
                make_tell(
                    one_message(
                        Message::Action(ActionMessage::Finished { voice_channel_id: channel_id }),
                    ),
                    SpeakerCommand::Release(speaker),
                )
            },
        }
    }

    /// Records what came of the attempt to play that `pending` describes, and
    /// decides what follows. A song that plays is announced. A song that
    /// failed to play after a command stops the channel and fails the
    /// command. A song that failed to play after the playback before had
    /// ended is passed over: the channel's next song is to be played, and the
    /// failed one is not queued again. An attempt that would have made a
    /// second speaker play in the channel is refused, and nothing changes.
    pub fn play_finished<P>(
        &self,
        model: &mut GuildModel<Song<P>>,
        speakers: &mut GuildSpeakers,
        delegate: &VoiceStates,
        pending: PendingPlay,
        outcome: Result<(), PlaybackError>,
    ) -> (result: Result<Step<P>, Error>)
        requires
            old(model).wf(),
            old(speakers).wf(),
            delegate.wf(),
        ensures
            final(model).wf(),
            final(speakers).wf(),
            (final(model)@, final(speakers)@, result_view(result)) == play_finished(
                old(model)@,
                old(speakers)@,
                delegate@,
                pending,
                outcome,
            ),
            result matches Ok(Step::Play { pending, .. }) ==> may_play_in(
                final(speakers)@,
                pending.channel_id,
                pending.speaker.index as int,
            ),
    {
        if !speakers.can_play_in_channel(pending.speaker, pending.channel_id) {
            return Err(Error::ModelPlayingSpeakerNotDesync);
        }
        let PendingPlay { speaker, channel_id, metadata, context } = pending;
        match context {
            PlayContext::Continue => {
                match speakers.play(speaker, channel_id, metadata.clone(), outcome) {
                    Ok(_) => Ok(
                        make_say(make_started_messages(PlayContext::Continue, metadata, channel_id)),
                    ),
                    Err(_) => Ok(Self::advance(model, speakers, delegate, speaker, channel_id)),
                }
            },
            context => {
                match Self::play_to_speaker(
                    model,
                    speakers,
                    speaker,
                    channel_id,
                    metadata.clone(),
                    outcome,
                ) {
                    Ok(_) => Ok(make_say(make_started_messages(context, metadata, channel_id))),
                    Err(why) => Err(why),
                }
            },
        }
    }

    /// Decides what follows the end of a playback once the speaker is known
    /// to be in `current_channel_id`. Where that is not the channel the
    /// playback was started in, that channel is stopped; where the channel
    /// was stopped, nothing is started: either way the speaker is taken out
    /// of its channel, whatever is queued. Otherwise the channel's next song
    /// is to be played, for which the voice channels must be known.
    pub fn continue_channel_playback<P>(
        &self,
        model: &mut GuildModel<Song<P>>,
        speakers: &mut GuildSpeakers,
        delegate: Option<&VoiceStates>,
        started_channel_id: u64,
        current_channel_id: u64,
        speaker: SpeakerHandle,
    ) -> (result: Result<Step<P>, Error>)
        requires
            old(model).wf(),
            old(speakers).wf(),
            old(speakers).has(speaker),
            delegate matches Some(voice) ==> voice.wf(),
        ensures
            final(model).wf(),
            final(speakers).wf(),
            (final(model)@, final(speakers)@, result_view(result)) == continue_channel_playback(
                old(model)@,
                old(speakers)@,
                voice_view(delegate),
                started_channel_id,
                current_channel_id,
                speaker,
            ),
            result matches Ok(Step::Play { pending, .. }) ==> may_play_in(
                final(speakers)@,
                pending.channel_id,
                pending.speaker.index as int,
            ),
    {
        if started_channel_id != current_channel_id {
            model.set_channel_stopped(started_channel_id);
            speakers.release(speaker);
            return Ok(make_tell(Vec::new(), SpeakerCommand::Release(speaker)));
        }
        if model.is_channel_stopped(current_channel_id) {
            speakers.release(speaker);
            return Ok(make_tell(Vec::new(), SpeakerCommand::Release(speaker)));
        }
        match delegate {
            Some(voice) => Ok(Self::advance(model, speakers, voice, speaker, current_channel_id)),
            None => Err(Error::NoGuild),
        }
    }

    /// Handles the report that the playback of `speaker`, started in
    /// `started_channel_id`, has ended, the speaker now being in
    /// `current_channel_id`. The end of a playback counts once: a report for
    /// a speaker that plays nothing changes nothing. A speaker that is in no
    /// channel any more was stopped by force: the channel it played in is
    /// stopped. Otherwise as [`Frontend::continue_channel_playback`].
    pub fn handle_playback_ended<P>(
        &self,
        model: &mut GuildModel<Song<P>>,
        speakers: &mut GuildSpeakers,
        delegate: Option<&VoiceStates>,
        started_channel_id: u64,
        speaker: SpeakerHandle,
        current_channel_id: Option<u64>,
    ) -> (result: Result<Step<P>, Error>)
        requires
            old(model).wf(),
            old(speakers).wf(),
            old(speakers).has(speaker),
            delegate matches Some(voice) ==> voice.wf(),
        ensures
            final(model).wf(),
            final(speakers).wf(),
            (final(model)@, final(speakers)@, result_view(result)) == playback_ended(
                old(model)@,
                old(speakers)@,
                voice_view(delegate),
                started_channel_id,
                speaker,
                current_channel_id,
            ),
            result matches Ok(Step::Play { pending, .. }) ==> may_play_in(
                final(speakers)@,
                pending.channel_id,
                pending.speaker.index as int,
            ),
    {
        assert(speakers@[speaker.index as int].wf());
        let item = match speakers.end_playback(speaker) {
            Some(item) => item,
            None => {
                assert(speakers@ =~= old(speakers)@);
                return Ok(make_say(Vec::new()));
            },
        };
        match current_channel_id {
            Some(channel_id) => self.continue_channel_playback(
                model,
                speakers,
                delegate,
                started_channel_id,
                channel_id,
                speaker,
            ),
            None => {
                model.set_channel_stopped(started_channel_id);
                speakers.release(speaker);
                Ok(
                    make_tell(
                        one_message(
                            Message::Response(
                                ResponseMessage::Stopped {
                                    song_title: item.title,
                                    song_url: item.url,
                                    voice_channel_id: started_channel_id,
                                    user_id: item.user_id,
                                },
                            ),
                        ),
                        SpeakerCommand::Release(speaker),
                    ),
                )
            },
        }
    }

    /// Decides where the messages that follow the end of a playback go.
    /// Without a message channel nothing is sent, and a failure is handed
    /// on; with one, a failure is reported there as an unknown error.
    pub fn playback_ended_report(
        &self,
        message_channel: Option<u64>,
        outcome: Result<Vec<Message>, Error>,
    ) -> (report: Result<Option<(u64, Vec<Message>)>, Error>)
        ensures
            match ended_report(
                message_channel,
                match outcome {
                    Ok(messages) => Ok(messages@),
                    Err(why) => Err(why),
                },
            ) {
                Ok(Some((channel_id, messages))) => report matches Ok(Some(sent)) && sent.0
                    == channel_id && sent.1@ == messages,
                Ok(None) => report matches Ok(None),
                Err(why) => report matches Err(reported) && reported == why,
            },
    {
        match message_channel {
            Some(channel_id) => match outcome {
                Ok(messages) => Ok(Some((channel_id, messages))),
                Err(_) => Ok(
                    Some((channel_id, one_message(Message::Action(ActionMessage::UnknownError)))),
                ),
            },
            None => match outcome {
                Ok(_) => Ok(None),
                Err(why) => Err(why),
            },
        }
    }
}


} // verus!
