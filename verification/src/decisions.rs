//! What the frontend decides, as functions of the state of a guild.
//!
//! Each function takes the model and the speakers as they are, with what is
//! known of the voice channels, and gives the model and the speakers as they
//! are to be afterwards, with the step that the caller is to take.

use crate::error::{BackendError, Error, ResolveError};
use crate::frontend::{
    GuildCommand, PendingPlay, PlayContext, QueuedSongsMetadata, Selection, SpeakerCommand, Step,
    StepView,
};
use crate::message::{ActionMessage, Message, ResponseMessage};
use crate::model::{ModelView, NextEntry, ReplaceStatus};
use crate::song::{Song, SongMetadata};
use crate::speaker::{
    active_in, after_play, may_play_in, to_play_in, PlaybackError, PlaybackState, Speaker,
    SpeakerHandle,
};
use crate::voice::{voice_channel, VoiceStates};
use crate::vote::{VoteStatus, VoteType};
use vstd::prelude::*;

verus! {

/// The step that sends `messages` and tells no speaker anything.
pub open spec fn say<P>(messages: Seq<Message>) -> StepView<P> {
    StepView::Done { messages, command: None }
}

/// The step that tells a speaker what `command` says and sends `messages`.
pub open spec fn tell<P>(messages: Seq<Message>, command: SpeakerCommand) -> StepView<P> {
    StepView::Done { messages, command: Some(command) }
}

/// The handle of the speaker at `i`.
pub open spec fn handle_at(i: int) -> SpeakerHandle {
    SpeakerHandle { index: i as usize }
}

/// The message that `item` is playing in `channel_id`.
pub open spec fn playing_message(item: SongMetadata, channel_id: u64) -> Message {
    Message::Action(
        ActionMessage::Playing {
            song_title: item.title,
            song_url: item.url,
            voice_channel_id: channel_id,
            user_id: item.user_id,
        },
    )
}

/// The message that what a command has queued stays queued.
pub open spec fn queued_message(queued: QueuedSongsMetadata) -> Message {
    Message::Response(
        match queued {
            QueuedSongsMetadata::Single(item) => ResponseMessage::Queued {
                song_title: item.title,
                song_url: item.url,
            },
            QueuedSongsMetadata::Multiple(count) => ResponseMessage::QueuedMultiple { count },
        },
    )
}

/// The message that what a command has queued stays queued for want of a speaker.
pub open spec fn queued_no_speakers_message(queued: QueuedSongsMetadata) -> Message {
    Message::Response(
        match queued {
            QueuedSongsMetadata::Single(item) => ResponseMessage::QueuedNoSpeakers {
                song_title: item.title,
                song_url: item.url,
            },
            QueuedSongsMetadata::Multiple(count) => ResponseMessage::QueuedMultipleNoSpeakers {
                count,
            },
        },
    )
}

/// What a play command has queued with `songs`.
pub open spec fn queued_metadata<P>(songs: Seq<Song<P>>) -> QueuedSongsMetadata {
    if songs.len() == 1 {
        QueuedSongsMetadata::Single(songs[0].metadata)
    } else {
        QueuedSongsMetadata::Multiple(songs.len() as usize)
    }
}

/// The messages once `next` plays in `channel_id`. A command that queued one
/// song, or a replacement, is answered by one message where the song that
/// plays has the link of the song that the command brought; else by what
/// became of that song, and then what plays.
pub open spec fn started_messages(context: PlayContext, next: SongMetadata, channel_id: u64) -> Seq<
    Message,
> {
    match context {
        PlayContext::QueuePlay(QueuedSongsMetadata::Single(item)) => if next.url@ == item.url@ {
            seq![
                Message::Action(
                    ActionMessage::PlayingResponse {
                        song_title: item.title,
                        song_url: item.url,
                        voice_channel_id: channel_id,
                    },
                ),
            ]
        } else {
            seq![
                queued_message(QueuedSongsMetadata::Single(item)),
                playing_message(next, channel_id),
            ]
        },
        PlayContext::QueuePlay(QueuedSongsMetadata::Multiple(count)) => seq![
            queued_message(QueuedSongsMetadata::Multiple(count)),
            playing_message(next, channel_id),
        ],
        PlayContext::Unpause => seq![playing_message(next, channel_id)],
        PlayContext::Replace { new_song, playing } => if next.url@ == new_song.url@ {
            seq![
                Message::Action(
                    ActionMessage::PlayingResponse {
                        song_title: new_song.title,
                        song_url: new_song.url,
                        voice_channel_id: channel_id,
                    },
                ),
            ]
        } else {
            seq![
                Message::Response(
                    ResponseMessage::ReplaceSkipped {
                        new_song_title: new_song.title,
                        new_song_url: new_song.url,
                        old_song_title: playing.title,
                        old_song_url: playing.url,
                        voice_channel_id: channel_id,
                    },
                ),
                playing_message(next, channel_id),
            ]
        },
        PlayContext::Continue => seq![playing_message(next, channel_id)],
    }
}

/// Looking for a speaker and a song for `channel_id`: the model afterwards,
/// and what was found. The speaker is looked for first, so that a song stays
/// queued where there is none.
pub open spec fn select_to_play<P>(
    model: ModelView<Song<P>>,
    pool: Seq<Speaker>,
    voice: Map<u64, u64>,
    channel_id: u64,
) -> (ModelView<Song<P>>, Selection<P>) {
    match to_play_in(pool, channel_id) {
        None => (model, Selection::NoSpeakers),
        Some(i) => if !model.is_active(channel_id) && !may_play_in(pool, channel_id, i) {
            (model, Selection::Desync)
        } else {
            let (next, entry) = model.next_channel_entry(voice, channel_id);
            match entry {
                NextEntry::Entry(song) => (next, Selection::Start { speaker: handle_at(i), song }),
                NextEntry::AlreadyPlaying => (next, Selection::AlreadyPlaying),
                NextEntry::NoneAvailable => (next, Selection::NoneAvailable),
            }
        },
    }
}

/// The songs of a lookup as a sequence.
pub open spec fn songs_view<P>(songs: Result<Vec<Song<P>>, BackendError>) -> Result<
    Seq<Song<P>>,
    BackendError,
> {
    match songs {
        Ok(songs) => Ok(songs@),
        Err(why) => Err(why),
    }
}

/// A result with its step as a [`StepView`].
pub open spec fn result_view<P>(result: Result<Step<P>, Error>) -> Result<StepView<P>, Error> {
    match result {
        Ok(step) => Ok(step@),
        Err(why) => Err(why),
    }
}

/// What a lookup that found no song to queue is answered with, if it is answered.
pub open spec fn nothing_found<P>(songs: Result<Seq<Song<P>>, BackendError>) -> Option<
    Result<StepView<P>, Error>,
> {
    match songs {
        Err(BackendError::Resolve(ResolveError::UnsupportedSource)) => Some(
            Ok(say(seq![Message::Response(ResponseMessage::UnsupportedSiteError)])),
        ),
        Err(BackendError::Resolve(ResolveError::NoResults)) => Some(
            Ok(say(seq![Message::Response(ResponseMessage::NoMatchingSongsError)])),
        ),
        Err(why) => Some(Err(Error::Backend(why))),
        Ok(songs) => if songs.len() == 0 {
            Some(Ok(say(seq![Message::Response(ResponseMessage::NoMatchingSongsError)])))
        } else {
            None
        },
    }
}

/// A play command of `user_id` that came with `songs`: the model afterwards
/// and the step. The songs are queued; where the user is in a channel that
/// is not playing and a speaker can take it up, the channel's next song is
/// to be played.
pub open spec fn queue_play<P>(
    model: ModelView<Song<P>>,
    pool: Seq<Speaker>,
    voice: Map<u64, u64>,
    user_id: u64,
    songs: Result<Seq<Song<P>>, BackendError>,
) -> (ModelView<Song<P>>, Result<StepView<P>, Error>) {
    match nothing_found(songs) {
        Some(answer) => (model, answer),
        None => {
            let songs = songs->Ok_0;
            let queued = queued_metadata(songs);
            let model = model.push_entries(user_id, songs);
            match voice_channel(voice, user_id) {
                None => (model, Ok(say(seq![queued_message(queued)]))),
                Some(channel_id) => {
                    let (model, selection) = select_to_play(model, pool, voice, channel_id);
                    match selection {
                        Selection::NoSpeakers => (
                            model,
                            Ok(say(seq![queued_no_speakers_message(queued)])),
                        ),
                        Selection::Desync => (model, Err(Error::ModelPlayingSpeakerNotDesync)),
                        Selection::AlreadyPlaying | Selection::NoneAvailable => (
                            model,
                            Ok(say(seq![queued_message(queued)])),
                        ),
                        Selection::Start { speaker, song } => (
                            model,
                            Ok(
                                StepView::Play {
                                    payload: song.payload,
                                    pending: PendingPlay {
                                        speaker,
                                        channel_id,
                                        metadata: song.metadata,
                                        context: PlayContext::QueuePlay(queued),
                                    },
                                },
                            ),
                        ),
                    }
                },
            }
        },
    }
}

/// A resume command of `user_id`: the model and the speakers afterwards, and
/// the step. A paused speaker in the user's channel plays on; where none
/// plays there, the channel's next song is to be played.
pub open spec fn unpause<P>(
    model: ModelView<Song<P>>,
    pool: Seq<Speaker>,
    voice: Map<u64, u64>,
    user_id: u64,
) -> (ModelView<Song<P>>, Seq<Speaker>, Result<StepView<P>, Error>) {
    match voice_channel(voice, user_id) {
        None => (
            model,
            pool,
            Ok(say(seq![Message::Response(ResponseMessage::NotInVoiceChannelError)])),
        ),
        Some(channel_id) => match active_in(pool, channel_id) {
            Some(i) => if pool[i].playback_state == PlaybackState::Paused {
                (
                    model,
                    pool.update(i, pool[i].in_state(PlaybackState::Playing)),
                    Ok(
                        tell(
                            seq![playing_message(pool[i].current_item->0, channel_id)],
                            SpeakerCommand::Unpause(handle_at(i)),
                        ),
                    ),
                )
            } else {
                (
                    model,
                    pool,
                    Ok(
                        say(
                            seq![
                                Message::Response(
                                    ResponseMessage::AlreadyPlayingError {
                                        voice_channel_id: channel_id,
                                    },
                                ),
                            ],
                        ),
                    ),
                )
            },
            None => match to_play_in(pool, channel_id) {
                None => (
                    model,
                    pool,
                    Ok(
                        say(
                            seq![
                                Message::Action(
                                    ActionMessage::NoSpeakersError { voice_channel_id: channel_id },
                                ),
                            ],
                        ),
                    ),
                ),
                Some(i) => {
                    let (model, entry) = model.next_channel_entry(voice, channel_id);
                    match entry {
                        NextEntry::Entry(song) => (
                            model,
                            pool,
                            Ok(
                                StepView::Play {
                                    payload: song.payload,
                                    pending: PendingPlay {
                                        speaker: handle_at(i),
                                        channel_id,
                                        metadata: song.metadata,
                                        context: PlayContext::Unpause,
                                    },
                                },
                            ),
                        ),
                        _ => (
                            model,
                            pool,
                            Ok(
                                say(
                                    seq![
                                        Message::Response(
                                            ResponseMessage::NothingIsQueuedError {
                                                voice_channel_id: channel_id,
                                            },
                                        ),
                                    ],
                                ),
                            ),
                        ),
                    }
                },
            },
        },
    }
}

/// The answer that nothing is playing in `channel_id`.
pub open spec fn nothing_is_playing<P>(channel_id: u64) -> StepView<P> {
    say(
        seq![
            Message::Response(ResponseMessage::NothingIsPlayingError { voice_channel_id: channel_id }),
        ],
    )
}

/// A pause command of `user_id`: the speakers afterwards and the step. A
/// speaker that plays in the user's channel is paused.
pub open spec fn pause<P>(pool: Seq<Speaker>, voice: Map<u64, u64>, user_id: u64) -> (
    Seq<Speaker>,
    StepView<P>,
) {
    match voice_channel(voice, user_id) {
        None => (pool, say(seq![Message::Response(ResponseMessage::NotInVoiceChannelError)])),
        Some(channel_id) => match active_in(pool, channel_id) {
            Some(i) => if pool[i].playback_state == PlaybackState::Paused {
                (pool, nothing_is_playing(channel_id))
            } else {
                let item = pool[i].current_item->0;
                (
                    pool.update(i, pool[i].in_state(PlaybackState::Paused)),
                    tell(
                        seq![
                            Message::Response(
                                ResponseMessage::Paused {
                                    song_title: item.title,
                                    song_url: item.url,
                                    voice_channel_id: channel_id,
                                    user_id: item.user_id,
                                },
                            ),
                        ],
                        SpeakerCommand::Pause(handle_at(i)),
                    ),
                )
            },
            None => (pool, nothing_is_playing(channel_id)),
        },
    }
}

/// A now-playing command of `user_id`: the step.
pub open spec fn nowplaying<P>(pool: Seq<Speaker>, voice: Map<u64, u64>, user_id: u64) -> StepView<
    P,
> {
    match voice_channel(voice, user_id) {
        None => say(seq![Message::Response(ResponseMessage::NotInVoiceChannelError)]),
        Some(channel_id) => match active_in(pool, channel_id) {
            Some(i) => {
                let item = pool[i].current_item->0;
                say(
                    seq![
                        Message::Response(
                            ResponseMessage::NowPlaying {
                                song_title: item.title,
                                song_url: item.url,
                                voice_channel_id: channel_id,
                                user_id: item.user_id,
                            },
                        ),
                    ],
                )
            },
            None => nothing_is_playing(channel_id),
        },
    }
}

/// A skip command of `user_id`: the model and the speakers afterwards, and
/// the step. The vote is counted; where it carries, the speaker in the
/// user's channel is told to stop, and the end of its playback brings the
/// next song.
pub open spec fn skip<P>(
    model: ModelView<Song<P>>,
    pool: Seq<Speaker>,
    voice: Map<u64, u64>,
    user_id: u64,
) -> (ModelView<Song<P>>, Seq<Speaker>, Result<StepView<P>, Error>) {
    match voice_channel(voice, user_id) {
        None => (
            model,
            pool,
            Ok(say(seq![Message::Response(ResponseMessage::NotInVoiceChannelError)])),
        ),
        Some(channel_id) => {
            let (model, status) = model.vote_for_skip(voice, VoteType::Skip, channel_id, user_id);
            match (status, active_in(pool, channel_id)) {
                (VoteStatus::Success, Some(i)) => {
                    let item = pool[i].current_item->0;
                    (
                        model,
                        pool.update(i, pool[i].stopped()),
                        Ok(
                            tell(
                                seq![
                                    Message::Response(
                                        ResponseMessage::Skipped {
                                            song_title: item.title,
                                            song_url: item.url,
                                            voice_channel_id: channel_id,
                                            user_id: item.user_id,
                                        },
                                    ),
                                ],
                                SpeakerCommand::Stop(handle_at(i)),
                            ),
                        ),
                    )
                },
                (VoteStatus::AlreadyVoted, Some(i)) => {
                    let item = pool[i].current_item->0;
                    (
                        model,
                        pool,
                        Ok(
                            say(
                                seq![
                                    Message::Response(
                                        ResponseMessage::SkipAlreadyVotedError {
                                            song_title: item.title,
                                            song_url: item.url,
                                            voice_channel_id: channel_id,
                                        },
                                    ),
                                ],
                            ),
                        ),
                    )
                },
                (VoteStatus::NeedsMoreVotes(count), Some(i)) => {
                    let item = pool[i].current_item->0;
                    (
                        model,
                        pool,
                        Ok(
                            say(
                                seq![
                                    Message::Response(
                                        ResponseMessage::SkipMoreVotesNeeded {
                                            song_title: item.title,
                                            song_url: item.url,
                                            voice_channel_id: channel_id,
                                            count,
                                        },
                                    ),
                                ],
                            ),
                        ),
                    )
                },
                (VoteStatus::NothingPlaying, _) => (model, pool, Ok(nothing_is_playing(channel_id))),
                (_, None) => (model, pool, Err(Error::ModelPlayingSpeakerNotDesync)),
            }
        },
    }
}

/// A stop command of `user_id`: the model and the speakers afterwards, and
/// the step. The vote is counted; where it carries, the channel is stopped
/// and its speaker is told to stop.
pub open spec fn stop<P>(
    model: ModelView<Song<P>>,
    pool: Seq<Speaker>,
    voice: Map<u64, u64>,
    user_id: u64,
) -> (ModelView<Song<P>>, Seq<Speaker>, Result<StepView<P>, Error>) {
    match voice_channel(voice, user_id) {
        None => (
            model,
            pool,
            Ok(say(seq![Message::Response(ResponseMessage::NotInVoiceChannelError)])),
        ),
        Some(channel_id) => {
            let (model, status) = model.vote_for_skip(voice, VoteType::Stop, channel_id, user_id);
            match status {
                VoteStatus::Success => match active_in(pool, channel_id) {
                    Some(i) => {
                        let item = pool[i].current_item->0;
                        (
                            model.set_channel_stopped(channel_id),
                            pool.update(i, pool[i].stopped()),
                            Ok(
                                tell(
                                    seq![
                                        Message::Response(
                                            ResponseMessage::Stopped {
                                                song_title: item.title,
                                                song_url: item.url,
                                                voice_channel_id: channel_id,
                                                user_id: item.user_id,
                                            },
                                        ),
                                    ],
                                    SpeakerCommand::Stop(handle_at(i)),
                                ),
                            ),
                        )
                    },
                    None => (model, pool, Err(Error::ModelPlayingSpeakerNotDesync)),
                },
                VoteStatus::AlreadyVoted => (
                    model,
                    pool,
                    Ok(
                        say(
                            seq![
                                Message::Response(
                                    ResponseMessage::StopAlreadyVotedError {
                                        voice_channel_id: channel_id,
                                    },
                                ),
                            ],
                        ),
                    ),
                ),
                VoteStatus::NeedsMoreVotes(count) => (
                    model,
                    pool,
                    Ok(
                        say(
                            seq![
                                Message::Response(
                                    ResponseMessage::StopMoreVotesNeeded {
                                        voice_channel_id: channel_id,
                                        count,
                                    },
                                ),
                            ],
                        ),
                    ),
                ),
                VoteStatus::NothingPlaying => (model, pool, Ok(nothing_is_playing(channel_id))),
            }
        },
    }
}

/// A replace command of `user_id` that came with `songs`: the model
/// afterwards and the step. The first song takes the place of the user's
/// latest one, the others are queued. Where the user's latest song is the one
/// that plays, the channel's next song is to be played in its place.
pub open spec fn replace<P>(
    model: ModelView<Song<P>>,
    pool: Seq<Speaker>,
    voice: Map<u64, u64>,
    user_id: u64,
    songs: Result<Seq<Song<P>>, BackendError>,
) -> (ModelView<Song<P>>, Result<StepView<P>, Error>) {
    match nothing_found(songs) {
        Some(answer) => (model, answer),
        None => {
            let songs = songs->Ok_0;
            let song = songs[0];
            let (model, status) = model.replace_entry(
                user_id,
                voice_channel(voice, user_id),
                song,
            );
            let model = model.push_entries(user_id, songs.skip(1));
            match status {
                ReplaceStatus::Queued => (
                    model,
                    Ok(say(seq![queued_message(QueuedSongsMetadata::Single(song.metadata))])),
                ),
                ReplaceStatus::ReplacedInQueue(old_song) => (
                    model,
                    Ok(
                        say(
                            seq![
                                Message::Response(
                                    ResponseMessage::Replaced {
                                        old_song_title: old_song.metadata.title,
                                        old_song_url: old_song.metadata.url,
                                        new_song_title: song.metadata.title,
                                        new_song_url: song.metadata.url,
                                    },
                                ),
                            ],
                        ),
                    ),
                ),
                ReplaceStatus::ReplacedCurrent(channel_id) => match active_in(pool, channel_id) {
                    None => (model, Err(Error::ModelPlayingSpeakerNotDesync)),
                    Some(i) => {
                        let (model, entry) = model.next_channel_entry_finished(voice, channel_id);
                        match entry {
                            None => (
                                model,
                                Ok(
                                    say(
                                        seq![
                                            Message::Response(
                                                ResponseMessage::NothingIsQueuedError {
                                                    voice_channel_id: channel_id,
                                                },
                                            ),
                                        ],
                                    ),
                                ),
                            ),
                            Some(next_song) => (
                                model,
                                Ok(
                                    StepView::Play {
                                        payload: next_song.payload,
                                        pending: PendingPlay {
                                            speaker: handle_at(i),
                                            channel_id,
                                            metadata: next_song.metadata,
                                            context: PlayContext::Replace {
                                                new_song: song.metadata,
                                                playing: pool[i].current_item->0,
                                            },
                                        },
                                    },
                                ),
                            ),
                        }
                    },
                },
            }
        },
    }
}

/// The speakers with the one at `i` taken out of its channel.
pub open spec fn release_at(pool: Seq<Speaker>, i: int) -> Seq<Speaker> {
    pool.update(i, Speaker::released(pool[i].id))
}

/// Moving on in `channel_id` with the speaker `speaker`, whose playback has
/// ended or has failed to start: the model and the speakers afterwards, and
/// the step. The channel's next song is to be played. Where nothing is
/// queued for the channel, the speaker is taken out of it and the channel has
/// finished. Where another speaker plays in the channel, this one is taken
/// out and nothing else changes.
pub open spec fn advance<P>(
    model: ModelView<Song<P>>,
    pool: Seq<Speaker>,
    voice: Map<u64, u64>,
    speaker: SpeakerHandle,
    channel_id: u64,
) -> (ModelView<Song<P>>, Seq<Speaker>, StepView<P>) {
    let i = speaker.index as int;
    if !may_play_in(pool, channel_id, i) {
        (model, release_at(pool, i), tell(Seq::empty(), SpeakerCommand::Release(speaker)))
    } else {
        let (model, entry) = model.next_channel_entry_finished(voice, channel_id);
        match entry {
            Some(song) => (
                model,
                pool,
                StepView::Play {
                    payload: song.payload,
                    pending: PendingPlay {
                        speaker,
                        channel_id,
                        metadata: song.metadata,
                        context: PlayContext::Continue,
                    },
                },
            ),
            None => (
                model,
                release_at(pool, i),
                tell(
                    seq![
                        Message::Action(ActionMessage::Finished { voice_channel_id: channel_id }),
                    ],
                    SpeakerCommand::Release(speaker),
                ),
            ),
        }
    }
}

/// What follows an attempt to play: the model and the speakers afterwards,
/// and the step. A song that plays is announced. A song that failed to play
/// after a command stops the channel and fails the command; one that failed
/// after the playback before had ended is passed over for the channel's next
/// song, and is not queued again.
pub open spec fn play_finished<P>(
    model: ModelView<Song<P>>,
    pool: Seq<Speaker>,
    voice: Map<u64, u64>,
    pending: PendingPlay,
    outcome: Result<(), PlaybackError>,
) -> (ModelView<Song<P>>, Seq<Speaker>, Result<StepView<P>, Error>) {
    let i = pending.speaker.index as int;
    if !may_play_in(pool, pending.channel_id, i) {
        (model, pool, Err(Error::ModelPlayingSpeakerNotDesync))
    } else {
        let pool = after_play(pool, i, pending.channel_id, pending.metadata, outcome);
        match outcome {
            Ok(_) => (
                model,
                pool,
                Ok(say(started_messages(pending.context, pending.metadata, pending.channel_id))),
            ),
            Err(why) => match pending.context {
                PlayContext::Continue => {
                    let (model, pool, step) = advance(
                        model,
                        pool,
                        voice,
                        pending.speaker,
                        pending.channel_id,
                    );
                    (model, pool, Ok(step))
                },
                _ => (
                    model.set_channel_stopped(pending.channel_id),
                    pool,
                    Err(Error::Backend(BackendError::Playback(why))),
                ),
            },
        }
    }
}

/// What follows the end of a playback that was started in
/// `started_channel_id`, on a speaker that is now in `current_channel_id`:
/// the model and the speakers afterwards, and the step. A channel that the
/// speaker has left, or that was stopped, is not played in any further: the
/// speaker is taken out of its channel. Otherwise the channel moves on to its
/// next song, for which the voice channels must be known.
pub open spec fn continue_channel_playback<P>(
    model: ModelView<Song<P>>,
    pool: Seq<Speaker>,
    voice: Option<Map<u64, u64>>,
    started_channel_id: u64,
    current_channel_id: u64,
    speaker: SpeakerHandle,
) -> (ModelView<Song<P>>, Seq<Speaker>, Result<StepView<P>, Error>) {
    let i = speaker.index as int;
    if started_channel_id != current_channel_id {
        (
            model.set_channel_stopped(started_channel_id),
            release_at(pool, i),
            Ok(tell(Seq::empty(), SpeakerCommand::Release(speaker))),
        )
    } else if model.is_stopped(current_channel_id) {
        (model, release_at(pool, i), Ok(tell(Seq::empty(), SpeakerCommand::Release(speaker))))
    } else {
        match voice {
            None => (model, pool, Err(Error::NoGuild)),
            Some(voice) => {
                let (model, pool, step) = advance(model, pool, voice, speaker, current_channel_id);
                (model, pool, Ok(step))
            },
        }
    }
}

/// What follows the report that the playback of `speaker` has ended: the
/// model and the speakers afterwards, and the step. A report for a speaker
/// that plays nothing changes nothing. A speaker that is in no channel any
/// more has been stopped by force: the channel it played in is stopped.
pub open spec fn playback_ended<P>(
    model: ModelView<Song<P>>,
    pool: Seq<Speaker>,
    voice: Option<Map<u64, u64>>,
    started_channel_id: u64,
    speaker: SpeakerHandle,
    current_channel_id: Option<u64>,
) -> (ModelView<Song<P>>, Seq<Speaker>, Result<StepView<P>, Error>) {
    let i = speaker.index as int;
    match pool[i].current_item {
        None => (model, pool, Ok(say(Seq::empty()))),
        Some(item) => {
            let pool = pool.update(i, pool[i].ended());
            match current_channel_id {
                Some(channel_id) => continue_channel_playback(
                    model,
                    pool,
                    voice,
                    started_channel_id,
                    channel_id,
                    speaker,
                ),
                None => (
                    model.set_channel_stopped(started_channel_id),
                    release_at(pool, i),
                    Ok(
                        tell(
                            seq![
                                Message::Response(
                                    ResponseMessage::Stopped {
                                        song_title: item.title,
                                        song_url: item.url,
                                        voice_channel_id: started_channel_id,
                                        user_id: item.user_id,
                                    },
                                ),
                            ],
                            SpeakerCommand::Release(speaker),
                        ),
                    ),
                ),
            }
        },
    }
}

/// The voice channels, where they are known, as a map.
pub open spec fn voice_view(delegate: Option<&VoiceStates>) -> Option<Map<u64, u64>> {
    match delegate {
        Some(voice) => Some(voice@),
        None => None,
    }
}

/// Where the messages that follow the end of a playback go, and what they
/// are. Without a message channel nothing is sent, and a failure is handed
/// on; with one, a failure is reported there as an unknown error.
pub open spec fn ended_report(
    message_channel: Option<u64>,
    outcome: Result<Seq<Message>, Error>,
) -> Result<Option<(u64, Seq<Message>)>, Error> {
    match (outcome, message_channel) {
        (Ok(messages), Some(channel_id)) => Ok(Some((channel_id, messages))),
        (Err(_), Some(channel_id)) => Ok(
            Some((channel_id, seq![Message::Action(ActionMessage::UnknownError)])),
        ),
        (Err(why), None) => Err(why),
        (Ok(_), None) => Ok(None),
    }
}

/// The answer to a pet that drew `roll`: a shiny one for a one.
pub open spec fn pet_message(roll: i32) -> ResponseMessage {
    if roll == 1 {
        ResponseMessage::ShinyPet
    } else {
        ResponseMessage::Pet
    }
}

/// A command of `user_id`: the model and the speakers afterwards, and the
/// step. A pet is answered by `pet`.
pub open spec fn guild_command<P>(
    model: ModelView<Song<P>>,
    pool: Seq<Speaker>,
    voice: Map<u64, u64>,
    user_id: u64,
    command: GuildCommand<P>,
    pet: ResponseMessage,
) -> (ModelView<Song<P>>, Seq<Speaker>, Result<StepView<P>, Error>) {
    match command {
        GuildCommand::Play { songs } => {
            let (model, result) = queue_play(model, pool, voice, user_id, songs_view(songs));
            (model, pool, result)
        },
        GuildCommand::Resume => unpause(model, pool, voice, user_id),
        GuildCommand::Replace { songs } => {
            let (model, result) = replace(model, pool, voice, user_id, songs_view(songs));
            (model, pool, result)
        },
        GuildCommand::Pause => {
            let (pool, step) = pause(pool, voice, user_id);
            (model, pool, Ok(step))
        },
        GuildCommand::Skip => skip(model, pool, voice, user_id),
        GuildCommand::Stop => stop(model, pool, voice, user_id),
        GuildCommand::Pet => (model, pool, Ok(say(seq![Message::Response(pet)]))),
        GuildCommand::NowPlaying => (model, pool, Ok(nowplaying(pool, voice, user_id))),
    }
}

} // verus!
