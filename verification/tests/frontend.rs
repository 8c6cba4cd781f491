use mrvn_front_discord::config::Config;
use mrvn_front_discord::error::{BackendError, Error, ResolveError};
use mrvn_front_discord::frontend::{
    Frontend, GuildCommand, HandleCommandError, PendingPlay, PlayContext, QueuedSongsMetadata,
    SpeakerCommand, Step,
};
use mrvn_front_discord::message::{ActionMessage, Message, ResponseMessage};
use mrvn_front_discord::model::{GuildModel, NextEntry};
use mrvn_front_discord::song::{Song, SongMetadata};
use mrvn_front_discord::speaker::{GuildSpeakers, PlaybackError, PlaybackState, SpeakerHandle};
use mrvn_front_discord::voice::VoiceStates;
use mrvn_front_discord::vote::ThresholdPolicy;

fn frontend() -> Frontend {
    Frontend::new(Config {
        messages: Vec::new(),
        action_embed_color: 1,
        response_embed_color: 2,
        error_embed_color: 3,
        greets: None,
    })
}

fn new_model() -> GuildModel<Song<u32>> {
    GuildModel::new(ThresholdPolicy::HalfRoundedUp)
}

fn voice_of(members: &[(u64, u64)]) -> VoiceStates {
    let mut voice = VoiceStates::new();
    for (user_id, channel_id) in members {
        voice.insert(*user_id, *channel_id);
    }
    voice
}

fn item(title: &str, user_id: u64) -> SongMetadata {
    SongMetadata { title: title.to_string(), url: format!("https://songs.example/{}", title), user_id }
}

fn song(title: &str, user_id: u64, payload: u32) -> Song<u32> {
    Song { metadata: item(title, user_id), payload }
}

fn handle(index: usize) -> SpeakerHandle {
    SpeakerHandle { index }
}

fn say(messages: Vec<Message>) -> Step<u32> {
    Step::Done { messages, command: None }
}

fn playing(title: &str, channel_id: u64, user_id: u64) -> Message {
    let item = item(title, user_id);
    Message::Action(ActionMessage::Playing {
        song_title: item.title,
        song_url: item.url,
        voice_channel_id: channel_id,
        user_id,
    })
}

fn playing_response(title: &str, channel_id: u64) -> Message {
    let item = item(title, 0);
    Message::Action(ActionMessage::PlayingResponse {
        song_title: item.title,
        song_url: item.url,
        voice_channel_id: channel_id,
    })
}

fn queued(title: &str) -> Message {
    let item = item(title, 0);
    Message::Response(ResponseMessage::Queued { song_title: item.title, song_url: item.url })
}

/// Plays what the steps ask for, with the outcomes given, until a step is done.
fn run(
    frontend: &Frontend,
    model: &mut GuildModel<Song<u32>>,
    speakers: &mut GuildSpeakers,
    voice: &VoiceStates,
    first: Result<Step<u32>, Error>,
    outcomes: Vec<Result<(), PlaybackError>>,
    played: &mut Vec<(u32, bool)>,
) -> Result<(Vec<Message>, Option<SpeakerCommand>), Error> {
    let mut outcomes = outcomes.into_iter();
    let mut step = first;
    loop {
        match step? {
            Step::Done { messages, command } => return Ok((messages, command)),
            Step::Play { payload, pending } => {
                let outcome = outcomes.next().expect("an outcome for every attempt");
                played.push((payload, outcome.is_ok()));
                step = frontend.play_finished(model, speakers, voice, pending, outcome);
            },
        }
    }
}

/// Starts a song of `user_id` in `channel_id` on the first speaker that can take it up.
fn start(
    frontend: &Frontend,
    model: &mut GuildModel<Song<u32>>,
    speakers: &mut GuildSpeakers,
    voice: &VoiceStates,
    user_id: u64,
    songs: Vec<Song<u32>>,
) {
    let first = frontend.handle_queue_play_command(model, speakers, voice, user_id, Ok(songs));
    let mut played = Vec::new();
    run(frontend, model, speakers, voice, first, vec![Ok(())], &mut played).unwrap();
    assert_eq!(played.len(), 1);
}

#[test]
fn a_song_of_a_user_in_no_channel_stays_queued() {
    let frontend = frontend();
    let mut model = new_model();
    let speakers = GuildSpeakers::new(vec![1]);
    let nobody = voice_of(&[]);
    let step = frontend.handle_queue_play_command(&mut model, &speakers, &nobody, 1, Ok(vec![song("a", 1, 100)]));
    assert_eq!(step, Ok(say(vec![queued("a")])));
    let step = frontend.handle_queue_play_command(
        &mut model,
        &speakers,
        &nobody,
        1,
        Ok(vec![song("b", 1, 101), song("c", 1, 102)]),
    );
    assert_eq!(step, Ok(say(vec![Message::Response(ResponseMessage::QueuedMultiple { count: 2 })])));
    let there = voice_of(&[(1, 10)]);
    assert_eq!(model.next_channel_entry(&there, 10), NextEntry::Entry(song("a", 1, 100)));
}

#[test]
fn a_song_waits_where_no_speaker_is_free() {
    let frontend = frontend();
    let mut model = new_model();
    let mut speakers = GuildSpeakers::new(vec![1]);
    let voice = voice_of(&[(1, 10), (2, 20)]);
    start(&frontend, &mut model, &mut speakers, &voice, 2, vec![song("other", 2, 1)]);
    let step = frontend.handle_queue_play_command(&mut model, &speakers, &voice, 1, Ok(vec![song("a", 1, 100)]));
    let waiting = item("a", 0);
    assert_eq!(
        step,
        Ok(say(vec![Message::Response(ResponseMessage::QueuedNoSpeakers {
            song_title: waiting.title,
            song_url: waiting.url,
        })]))
    );
    let step = frontend.handle_queue_play_command(
        &mut model,
        &speakers,
        &voice,
        1,
        Ok(vec![song("b", 1, 101), song("c", 1, 102)]),
    );
    assert_eq!(step, Ok(say(vec![Message::Response(ResponseMessage::QueuedMultipleNoSpeakers { count: 2 })])));
    assert!(!model.is_channel_active(10));
    assert_eq!(model.next_channel_entry(&voice, 10), NextEntry::Entry(song("a", 1, 100)));
}

#[test]
fn a_queued_song_is_played_at_once_in_an_idle_channel() {
    let frontend = frontend();
    let mut model = new_model();
    let mut speakers = GuildSpeakers::new(vec![1, 2]);
    let voice = voice_of(&[(1, 10)]);
    let step = frontend.handle_queue_play_command(&mut model, &speakers, &voice, 1, Ok(vec![song("a", 1, 100)]));
    let pending = match step {
        Ok(Step::Play { payload, pending }) => {
            assert_eq!(payload, 100);
            pending
        },
        other => panic!("{:?}", other),
    };
    assert_eq!(
        pending,
        PendingPlay {
            speaker: handle(0),
            channel_id: 10,
            metadata: item("a", 1),
            context: PlayContext::QueuePlay(QueuedSongsMetadata::Single(item("a", 1))),
        }
    );
    assert!(model.is_channel_active(10));
    assert_eq!(speakers.speaker(handle(0)).playback_state, PlaybackState::Idle);
    let step = frontend.play_finished(&mut model, &mut speakers, &voice, pending, Ok(()));
    assert_eq!(step, Ok(say(vec![playing_response("a", 10)])));
    assert_eq!(speakers.find_active_in_channel(10), Some((handle(0), item("a", 1))));
}

#[test]
fn a_song_queued_while_the_channel_plays_stays_queued() {
    let frontend = frontend();
    let mut model = new_model();
    let mut speakers = GuildSpeakers::new(vec![1, 2]);
    let voice = voice_of(&[(1, 10), (2, 10)]);
    start(&frontend, &mut model, &mut speakers, &voice, 1, vec![song("a", 1, 100)]);
    let step = frontend.handle_queue_play_command(&mut model, &speakers, &voice, 2, Ok(vec![song("b", 2, 200)]));
    assert_eq!(step, Ok(say(vec![queued("b")])));
    assert_eq!(speakers.speaker(handle(1)).bound_channel, None);
    assert_eq!(speakers.find_active_in_channel(10), Some((handle(0), item("a", 1))));
}

#[test]
fn the_song_that_starts_need_not_be_the_one_that_was_queued() {
    let frontend = frontend();
    let mut model = new_model();
    let mut speakers = GuildSpeakers::new(vec![1]);
    let voice = voice_of(&[(1, 10), (2, 10)]);
    model.push_entries(1, vec![song("waiting", 1, 100)]);
    let first = frontend.handle_queue_play_command(&mut model, &speakers, &voice, 2, Ok(vec![song("b", 2, 200)]));
    let mut played = Vec::new();
    let done = run(&frontend, &mut model, &mut speakers, &voice, first, vec![Ok(())], &mut played);
    assert_eq!(played, vec![(100, true)]);
    assert_eq!(done, Ok((vec![queued("b"), playing("waiting", 10, 1)], None)));
}

#[test]
fn several_queued_songs_are_announced_with_the_one_that_starts() {
    let frontend = frontend();
    let mut model = new_model();
    let mut speakers = GuildSpeakers::new(vec![1]);
    let voice = voice_of(&[(1, 10)]);
    let first = frontend.handle_queue_play_command(
        &mut model,
        &speakers,
        &voice,
        1,
        Ok(vec![song("a", 1, 100), song("b", 1, 101), song("c", 1, 102)]),
    );
    let mut played = Vec::new();
    let done = run(&frontend, &mut model, &mut speakers, &voice, first, vec![Ok(())], &mut played);
    assert_eq!(played, vec![(100, true)]);
    assert_eq!(
        done,
        Ok((vec![Message::Response(ResponseMessage::QueuedMultiple { count: 3 }), playing("a", 10, 1)], None))
    );
}

#[test]
fn a_lookup_that_found_nothing_changes_nothing() {
    let frontend = frontend();
    let mut model = new_model();
    let speakers = GuildSpeakers::new(vec![1]);
    let voice = voice_of(&[(1, 10)]);
    let cases = vec![
        (
            Err(BackendError::Resolve(ResolveError::UnsupportedSource)),
            Ok(say(vec![Message::Response(ResponseMessage::UnsupportedSiteError)])),
        ),
        (
            Err(BackendError::Resolve(ResolveError::NoResults)),
            Ok(say(vec![Message::Response(ResponseMessage::NoMatchingSongsError)])),
        ),
        (Ok(Vec::new()), Ok(say(vec![Message::Response(ResponseMessage::NoMatchingSongsError)]))),
        (
            Err(BackendError::Resolve(ResolveError::TransientFailure)),
            Err(Error::Backend(BackendError::Resolve(ResolveError::TransientFailure))),
        ),
        (
            Err(BackendError::Playback(PlaybackError::StreamFailed)),
            Err(Error::Backend(BackendError::Playback(PlaybackError::StreamFailed))),
        ),
    ];
    for (songs, expected) in cases {
        let again = match &songs {
            Ok(_) => Ok(Vec::new()),
            Err(why) => Err(*why),
        };
        assert_eq!(frontend.handle_queue_play_command(&mut model, &speakers, &voice, 1, songs), expected);
        assert_eq!(frontend.handle_replace_command(&mut model, &speakers, &voice, 1, again), expected);
    }
    assert_eq!(model.next_channel_entry(&voice, 10), NextEntry::NoneAvailable);
}

#[test]
fn a_failed_start_after_a_command_stops_the_channel() {
    let frontend = frontend();
    let mut model = new_model();
    let mut speakers = GuildSpeakers::new(vec![1]);
    let voice = voice_of(&[(1, 10)]);
    let first = frontend.handle_queue_play_command(
        &mut model,
        &speakers,
        &voice,
        1,
        Ok(vec![song("a", 1, 100), song("b", 1, 101)]),
    );
    let mut played = Vec::new();
    let done = run(
        &frontend,
        &mut model,
        &mut speakers,
        &voice,
        first,
        vec![Err(PlaybackError::ConnectFailed)],
        &mut played,
    );
    assert_eq!(done, Err(Error::Backend(BackendError::Playback(PlaybackError::ConnectFailed))));
    assert_eq!(played, vec![(100, false)]);
    assert!(model.is_channel_stopped(10));
    assert!(!model.is_channel_active(10));
    assert_eq!(speakers.speaker(handle(0)).bound_channel, None);
    assert_eq!(speakers.speaker(handle(0)).playback_state, PlaybackState::Idle);
    assert_eq!(model.next_channel_entry(&voice, 10), NextEntry::Entry(song("b", 1, 101)));
}

#[test]
fn songs_that_fail_after_a_playback_has_ended_are_passed_over() {
    let frontend = frontend();
    let mut model = new_model();
    let mut speakers = GuildSpeakers::new(vec![1]);
    let voice = voice_of(&[(1, 10)]);
    start(&frontend, &mut model, &mut speakers, &voice, 1, vec![song("first", 1, 1)]);
    model.push_entries(1, vec![song("a", 1, 100), song("b", 1, 101), song("c", 1, 102)]);
    let first = frontend.handle_playback_ended(&mut model, &mut speakers, Some(&voice), 10, handle(0), Some(10));
    let mut played = Vec::new();
    let done = run(
        &frontend,
        &mut model,
        &mut speakers,
        &voice,
        first,
        vec![Err(PlaybackError::StreamFailed), Err(PlaybackError::ConnectFailed), Ok(())],
        &mut played,
    );
    assert_eq!(played, vec![(100, false), (101, false), (102, true)]);
    assert_eq!(done, Ok((vec![playing("c", 10, 1)], None)));
    assert_eq!(speakers.find_active_in_channel(10), Some((handle(0), item("c", 1))));
    assert!(model.is_channel_active(10));
    assert_eq!(model.next_channel_entry_finished(&voice, 10), None);
}

#[test]
fn a_channel_whose_songs_all_fail_has_finished() {
    let frontend = frontend();
    let mut model = new_model();
    let mut speakers = GuildSpeakers::new(vec![1]);
    let voice = voice_of(&[(1, 10)]);
    start(&frontend, &mut model, &mut speakers, &voice, 1, vec![song("first", 1, 1)]);
    model.push_entries(1, vec![song("a", 1, 100), song("b", 1, 101)]);
    let first = frontend.handle_playback_ended(&mut model, &mut speakers, Some(&voice), 10, handle(0), Some(10));
    let mut played = Vec::new();
    let done = run(
        &frontend,
        &mut model,
        &mut speakers,
        &voice,
        first,
        vec![Err(PlaybackError::StreamFailed), Err(PlaybackError::StreamFailed)],
        &mut played,
    );
    assert_eq!(played, vec![(100, false), (101, false)]);
    assert_eq!(
        done,
        Ok((
            vec![Message::Action(ActionMessage::Finished { voice_channel_id: 10 })],
            Some(SpeakerCommand::Release(handle(0)))
        ))
    );
    assert!(!model.is_channel_active(10));
    assert!(!model.is_channel_stopped(10));
    assert_eq!(speakers.speaker(handle(0)).bound_channel, None);
}

#[test]
fn the_end_of_a_playback_brings_the_next_song() {
    let frontend = frontend();
    let mut model = new_model();
    let mut speakers = GuildSpeakers::new(vec![1]);
    let voice = voice_of(&[(1, 10), (2, 10)]);
    start(&frontend, &mut model, &mut speakers, &voice, 1, vec![song("a1", 1, 100), song("a2", 1, 101)]);
    model.push_entries(2, vec![song("b1", 2, 200)]);
    let mut played = Vec::new();
    for expected in [("b1", 2), ("a2", 1)] {
        let first = frontend.handle_playback_ended(&mut model, &mut speakers, Some(&voice), 10, handle(0), Some(10));
        let done = run(&frontend, &mut model, &mut speakers, &voice, first, vec![Ok(())], &mut played);
        assert_eq!(done, Ok((vec![playing(expected.0, 10, expected.1)], None)));
    }
    assert_eq!(played, vec![(200, true), (101, true)]);
    let last = frontend.handle_playback_ended(&mut model, &mut speakers, Some(&voice), 10, handle(0), Some(10));
    assert_eq!(
        last,
        Ok(Step::Done {
            messages: vec![Message::Action(ActionMessage::Finished { voice_channel_id: 10 })],
            command: Some(SpeakerCommand::Release(handle(0))),
        })
    );
    assert_eq!(speakers.speaker(handle(0)).playback_state, PlaybackState::Idle);
    assert_eq!(speakers.speaker(handle(0)).bound_channel, None);
}

#[test]
fn a_stopped_channel_starts_nothing_when_a_playback_ends() {
    let frontend = frontend();
    let mut model = new_model();
    let mut speakers = GuildSpeakers::new(vec![1]);
    let voice = voice_of(&[(1, 10)]);
    start(&frontend, &mut model, &mut speakers, &voice, 1, vec![song("a", 1, 100), song("b", 1, 101)]);
    model.set_channel_stopped(10);
    let step = frontend.handle_playback_ended(&mut model, &mut speakers, Some(&voice), 10, handle(0), Some(10));
    assert_eq!(
        step,
        Ok(Step::Done { messages: Vec::new(), command: Some(SpeakerCommand::Release(handle(0))) })
    );
    assert_eq!(speakers.speaker(handle(0)).bound_channel, None);
    assert_eq!(speakers.speaker(handle(0)).playback_state, PlaybackState::Idle);
    assert!(model.is_channel_stopped(10));

    let first = frontend.handle_queue_play_command(&mut model, &speakers, &voice, 1, Ok(vec![song("c", 1, 102)]));
    let mut played = Vec::new();
    let done = run(&frontend, &mut model, &mut speakers, &voice, first, vec![Ok(())], &mut played);
    assert_eq!(played, vec![(101, true)]);
    assert_eq!(done, Ok((vec![queued("c"), playing("b", 10, 1)], None)));
    assert!(!model.is_channel_stopped(10));
    assert!(model.is_channel_active(10));
}

#[test]
fn a_speaker_that_was_moved_stops_the_channel_it_left() {
    let frontend = frontend();
    let mut model = new_model();
    let mut speakers = GuildSpeakers::new(vec![1]);
    let voice = voice_of(&[(1, 10)]);
    start(&frontend, &mut model, &mut speakers, &voice, 1, vec![song("a", 1, 100), song("b", 1, 101)]);
    let step = frontend.handle_playback_ended(&mut model, &mut speakers, Some(&voice), 10, handle(0), Some(20));
    assert_eq!(
        step,
        Ok(Step::Done { messages: Vec::new(), command: Some(SpeakerCommand::Release(handle(0))) })
    );
    assert!(model.is_channel_stopped(10));
    assert!(!model.is_channel_stopped(20));
    assert_eq!(speakers.speaker(handle(0)).bound_channel, None);
    assert_eq!(model.next_channel_entry(&voice, 10), NextEntry::Entry(song("b", 1, 101)));
}

#[test]
fn a_speaker_that_was_thrown_out_reports_the_stop() {
    let frontend = frontend();
    let mut model = new_model();
    let mut speakers = GuildSpeakers::new(vec![1]);
    let voice = voice_of(&[(1, 10)]);
    start(&frontend, &mut model, &mut speakers, &voice, 1, vec![song("a", 1, 100), song("b", 1, 101)]);
    let step = frontend.handle_playback_ended(&mut model, &mut speakers, None, 10, handle(0), None);
    let stopped = item("a", 1);
    assert_eq!(
        step,
        Ok(Step::Done {
            messages: vec![Message::Response(ResponseMessage::Stopped {
                song_title: stopped.title,
                song_url: stopped.url,
                voice_channel_id: 10,
                user_id: 1,
            })],
            command: Some(SpeakerCommand::Release(handle(0))),
        })
    );
    assert!(model.is_channel_stopped(10));
    assert_eq!(speakers.speaker(handle(0)).bound_channel, None);
}

#[test]
fn an_end_without_a_playback_changes_nothing() {
    let frontend = frontend();
    let mut model = new_model();
    let mut speakers = GuildSpeakers::new(vec![1]);
    let voice = voice_of(&[(1, 10)]);
    model.push_entries(1, vec![song("a", 1, 100)]);
    let step = frontend.handle_playback_ended(&mut model, &mut speakers, Some(&voice), 10, handle(0), Some(10));
    assert_eq!(step, Ok(say(Vec::new())));
    assert!(!model.is_channel_stopped(10));
    assert!(!model.is_channel_active(10));
    start(&frontend, &mut model, &mut speakers, &voice, 1, vec![song("b", 1, 101)]);
    assert_eq!(speakers.find_active_in_channel(10), Some((handle(0), item("a", 1))));
    let first = frontend.handle_playback_ended(&mut model, &mut speakers, Some(&voice), 10, handle(0), Some(10));
    assert!(matches!(first, Ok(Step::Play { payload: 101, .. })));
    let again = frontend.handle_playback_ended(&mut model, &mut speakers, Some(&voice), 10, handle(0), Some(10));
    assert_eq!(again, Ok(say(Vec::new())));
    assert!(model.is_channel_active(10));
}

#[test]
fn the_next_song_needs_the_voice_channels() {
    let frontend = frontend();
    let mut model = new_model();
    let mut speakers = GuildSpeakers::new(vec![1]);
    let voice = voice_of(&[(1, 10)]);
    start(&frontend, &mut model, &mut speakers, &voice, 1, vec![song("a", 1, 100), song("b", 1, 101)]);
    let step = frontend.handle_playback_ended(&mut model, &mut speakers, None, 10, handle(0), Some(10));
    assert_eq!(step, Err(Error::NoGuild));
    assert_eq!(model.next_channel_entry_finished(&voice, 10), Some(song("b", 1, 101)));
}

#[test]
fn a_speaker_whose_channel_was_taken_over_leaves_quietly() {
    let frontend = frontend();
    let mut model = new_model();
    let mut speakers = GuildSpeakers::new(vec![1, 2]);
    let voice = voice_of(&[(1, 10)]);
    start(&frontend, &mut model, &mut speakers, &voice, 1, vec![song("a", 1, 100), song("b", 1, 101), song("c", 1, 102)]);
    model.set_channel_stopped(10);
    speakers.stop(handle(0));
    start(&frontend, &mut model, &mut speakers, &voice, 1, vec![song("d", 1, 103)]);
    assert_eq!(speakers.find_active_in_channel(10), Some((handle(1), item("b", 1))));
    let step = frontend.handle_playback_ended(&mut model, &mut speakers, Some(&voice), 10, handle(0), Some(10));
    assert_eq!(
        step,
        Ok(Step::Done { messages: Vec::new(), command: Some(SpeakerCommand::Release(handle(0))) })
    );
    assert_eq!(speakers.find_active_in_channel(10), Some((handle(1), item("b", 1))));
    assert_eq!(model.next_channel_entry_finished(&voice, 10), Some(song("c", 1, 102)));
}

#[test]
fn a_second_speaker_is_never_started_in_a_channel() {
    let frontend = frontend();
    let mut model = new_model();
    let mut speakers = GuildSpeakers::new(vec![1, 2]);
    let voice = voice_of(&[(1, 10)]);
    assert_eq!(speakers.play(handle(0), 10, item("unknown", 9), Ok(())), Ok(()));
    let step = frontend.handle_queue_play_command(&mut model, &speakers, &voice, 1, Ok(vec![song("a", 1, 100)]));
    assert_eq!(step, Err(Error::ModelPlayingSpeakerNotDesync));
    assert_eq!(model.next_channel_entry(&voice, 10), NextEntry::Entry(song("a", 1, 100)));
    let pending = PendingPlay {
        speaker: handle(1),
        channel_id: 10,
        metadata: item("a", 1),
        context: PlayContext::Unpause,
    };
    let step = frontend.play_finished(&mut model, &mut speakers, &voice, pending, Ok(()));
    assert_eq!(step, Err(Error::ModelPlayingSpeakerNotDesync));
    assert_eq!(speakers.speaker(handle(1)).bound_channel, None);
    let stale = PendingPlay {
        speaker: handle(5),
        channel_id: 20,
        metadata: item("a", 1),
        context: PlayContext::Continue,
    };
    assert_eq!(
        frontend.play_finished(&mut model, &mut speakers, &voice, stale, Ok(())),
        Err(Error::ModelPlayingSpeakerNotDesync)
    );
}

#[test]
fn resume_lets_a_paused_speaker_play_on() {
    let frontend = frontend();
    let mut model = new_model();
    let mut speakers = GuildSpeakers::new(vec![1]);
    let voice = voice_of(&[(1, 10), (2, 10)]);
    assert_eq!(
        frontend.handle_unpause_command(&mut model, &mut speakers, &voice, 5),
        Ok(say(vec![Message::Response(ResponseMessage::NotInVoiceChannelError)]))
    );
    assert_eq!(
        frontend.handle_unpause_command(&mut model, &mut speakers, &voice, 1),
        Ok(say(vec![Message::Response(ResponseMessage::NothingIsQueuedError { voice_channel_id: 10 })]))
    );
    start(&frontend, &mut model, &mut speakers, &voice, 1, vec![song("a", 1, 100)]);
    assert_eq!(
        frontend.handle_unpause_command(&mut model, &mut speakers, &voice, 2),
        Ok(say(vec![Message::Response(ResponseMessage::AlreadyPlayingError { voice_channel_id: 10 })]))
    );
    speakers.pause(handle(0));
    assert_eq!(
        frontend.handle_unpause_command(&mut model, &mut speakers, &voice, 2),
        Ok(Step::Done {
            messages: vec![playing("a", 10, 1)],
            command: Some(SpeakerCommand::Unpause(handle(0))),
        })
    );
    assert_eq!(speakers.speaker(handle(0)).playback_state, PlaybackState::Playing);
}

#[test]
fn resume_starts_what_is_queued() {
    let frontend = frontend();
    let mut model = new_model();
    let mut speakers = GuildSpeakers::new(vec![1]);
    let voice = voice_of(&[(1, 10), (2, 20)]);
    model.push_entries(1, vec![song("a", 1, 100)]);
    let first = frontend.handle_unpause_command(&mut model, &mut speakers, &voice, 1);
    let mut played = Vec::new();
    let done = run(&frontend, &mut model, &mut speakers, &voice, first, vec![Ok(())], &mut played);
    assert_eq!(played, vec![(100, true)]);
    assert_eq!(done, Ok((vec![playing("a", 10, 1)], None)));
    model.push_entries(2, vec![song("b", 2, 200)]);
    assert_eq!(
        frontend.handle_unpause_command(&mut model, &mut speakers, &voice, 2),
        Ok(say(vec![Message::Action(ActionMessage::NoSpeakersError { voice_channel_id: 20 })]))
    );
    assert_eq!(model.next_channel_entry(&voice, 20), NextEntry::Entry(song("b", 2, 200)));
}

#[test]
fn pause_pauses_what_plays() {
    let frontend = frontend();
    let mut model = new_model();
    let mut speakers = GuildSpeakers::new(vec![1]);
    let voice = voice_of(&[(1, 10), (2, 20)]);
    assert_eq!(
        frontend.handle_pause_command::<u32>(&mut speakers, &voice, 5),
        Ok(say(vec![Message::Response(ResponseMessage::NotInVoiceChannelError)]))
    );
    let nothing = Ok(say(vec![Message::Response(ResponseMessage::NothingIsPlayingError { voice_channel_id: 10 })]));
    assert_eq!(frontend.handle_pause_command::<u32>(&mut speakers, &voice, 1), nothing);
    start(&frontend, &mut model, &mut speakers, &voice, 1, vec![song("a", 1, 100)]);
    let paused = item("a", 1);
    assert_eq!(
        frontend.handle_pause_command::<u32>(&mut speakers, &voice, 1),
        Ok(Step::Done {
            messages: vec![Message::Response(ResponseMessage::Paused {
                song_title: paused.title,
                song_url: paused.url,
                voice_channel_id: 10,
                user_id: 1,
            })],
            command: Some(SpeakerCommand::Pause(handle(0))),
        })
    );
    assert!(speakers.is_paused(handle(0)));
    assert_eq!(frontend.handle_pause_command::<u32>(&mut speakers, &voice, 1), nothing);
    assert_eq!(
        frontend.handle_pause_command::<u32>(&mut speakers, &voice, 2),
        Ok(say(vec![Message::Response(ResponseMessage::NothingIsPlayingError { voice_channel_id: 20 })]))
    );
}

#[test]
fn nowplaying_says_what_plays() {
    let frontend = frontend();
    let mut model = new_model();
    let mut speakers = GuildSpeakers::new(vec![1]);
    let voice = voice_of(&[(1, 10), (2, 20)]);
    start(&frontend, &mut model, &mut speakers, &voice, 1, vec![song("a", 1, 100)]);
    let now = item("a", 1);
    assert_eq!(
        frontend.handle_nowplaying_command::<u32>(&speakers, &voice, 1),
        Ok(say(vec![Message::Response(ResponseMessage::NowPlaying {
            song_title: now.title,
            song_url: now.url,
            voice_channel_id: 10,
            user_id: 1,
        })]))
    );
    assert_eq!(
        frontend.handle_nowplaying_command::<u32>(&speakers, &voice, 2),
        Ok(say(vec![Message::Response(ResponseMessage::NothingIsPlayingError { voice_channel_id: 20 })]))
    );
    assert_eq!(
        frontend.handle_nowplaying_command::<u32>(&speakers, &voice, 3),
        Ok(say(vec![Message::Response(ResponseMessage::NotInVoiceChannelError)]))
    );
}

#[test]
fn skip_votes_are_counted_and_carry() {
    let frontend = frontend();
    let mut model = new_model();
    let mut speakers = GuildSpeakers::new(vec![1]);
    let voice = voice_of(&[(1, 10), (2, 10), (3, 10), (4, 20)]);
    assert_eq!(
        frontend.handle_skip_command(&mut model, &mut speakers, &voice, 9),
        Ok(say(vec![Message::Response(ResponseMessage::NotInVoiceChannelError)]))
    );
    assert_eq!(
        frontend.handle_skip_command(&mut model, &mut speakers, &voice, 4),
        Ok(say(vec![Message::Response(ResponseMessage::NothingIsPlayingError { voice_channel_id: 20 })]))
    );
    start(&frontend, &mut model, &mut speakers, &voice, 1, vec![song("a", 1, 100), song("b", 1, 101)]);
    let voted = item("a", 1);
    assert_eq!(
        frontend.handle_skip_command(&mut model, &mut speakers, &voice, 2),
        Ok(say(vec![Message::Response(ResponseMessage::SkipMoreVotesNeeded {
            song_title: voted.title.clone(),
            song_url: voted.url.clone(),
            voice_channel_id: 10,
            count: 1,
        })]))
    );
    assert_eq!(
        frontend.handle_skip_command(&mut model, &mut speakers, &voice, 2),
        Ok(say(vec![Message::Response(ResponseMessage::SkipAlreadyVotedError {
            song_title: voted.title.clone(),
            song_url: voted.url.clone(),
            voice_channel_id: 10,
        })]))
    );
    assert_eq!(
        frontend.handle_skip_command(&mut model, &mut speakers, &voice, 3),
        Ok(Step::Done {
            messages: vec![Message::Response(ResponseMessage::Skipped {
                song_title: voted.title,
                song_url: voted.url,
                voice_channel_id: 10,
                user_id: 1,
            })],
            command: Some(SpeakerCommand::Stop(handle(0))),
        })
    );
    assert_eq!(speakers.speaker(handle(0)).playback_state, PlaybackState::Stopping);
    assert!(!model.is_channel_stopped(10));
    let first = frontend.handle_playback_ended(&mut model, &mut speakers, Some(&voice), 10, handle(0), Some(10));
    let mut played = Vec::new();
    let done = run(&frontend, &mut model, &mut speakers, &voice, first, vec![Ok(())], &mut played);
    assert_eq!(played, vec![(101, true)]);
    assert_eq!(done, Ok((vec![playing("b", 10, 1)], None)));
}

#[test]
fn stop_votes_are_counted_and_stop_the_channel() {
    let frontend = frontend();
    let mut model = new_model();
    let mut speakers = GuildSpeakers::new(vec![1]);
    let voice = voice_of(&[(1, 10), (2, 10), (3, 10), (4, 20)]);
    assert_eq!(
        frontend.handle_stop_command(&mut model, &mut speakers, &voice, 9),
        Ok(say(vec![Message::Response(ResponseMessage::NotInVoiceChannelError)]))
    );
    assert_eq!(
        frontend.handle_stop_command(&mut model, &mut speakers, &voice, 4),
        Ok(say(vec![Message::Response(ResponseMessage::NothingIsPlayingError { voice_channel_id: 20 })]))
    );
    start(&frontend, &mut model, &mut speakers, &voice, 1, vec![song("a", 1, 100), song("b", 1, 101)]);
    assert_eq!(
        frontend.handle_stop_command(&mut model, &mut speakers, &voice, 2),
        Ok(say(vec![Message::Response(ResponseMessage::StopMoreVotesNeeded { voice_channel_id: 10, count: 1 })]))
    );
    assert_eq!(
        frontend.handle_stop_command(&mut model, &mut speakers, &voice, 2),
        Ok(say(vec![Message::Response(ResponseMessage::StopAlreadyVotedError { voice_channel_id: 10 })]))
    );
    let stopped = item("a", 1);
    assert_eq!(
        frontend.handle_stop_command(&mut model, &mut speakers, &voice, 1),
        Ok(Step::Done {
            messages: vec![Message::Response(ResponseMessage::Stopped {
                song_title: stopped.title,
                song_url: stopped.url,
                voice_channel_id: 10,
                user_id: 1,
            })],
            command: Some(SpeakerCommand::Stop(handle(0))),
        })
    );
    assert!(model.is_channel_stopped(10));
    assert_eq!(speakers.speaker(handle(0)).playback_state, PlaybackState::Stopping);
    let ended = frontend.handle_playback_ended(&mut model, &mut speakers, Some(&voice), 10, handle(0), Some(10));
    assert_eq!(
        ended,
        Ok(Step::Done { messages: Vec::new(), command: Some(SpeakerCommand::Release(handle(0))) })
    );
    assert_eq!(model.next_channel_entry(&voice, 10), NextEntry::Entry(song("b", 1, 101)));
}

#[test]
fn a_vote_without_a_speaker_is_a_disagreement() {
    let frontend = frontend();
    let mut model = new_model();
    let mut speakers = GuildSpeakers::new(vec![1]);
    let voice = voice_of(&[(1, 10), (2, 10), (3, 10)]);
    model.push_entries(1, vec![song("a", 1, 100)]);
    assert_eq!(model.next_channel_entry(&voice, 10), NextEntry::Entry(song("a", 1, 100)));
    assert_eq!(
        frontend.handle_skip_command(&mut model, &mut speakers, &voice, 1),
        Err(Error::ModelPlayingSpeakerNotDesync)
    );
    assert_eq!(
        frontend.handle_skip_command(&mut model, &mut speakers, &voice, 1),
        Err(Error::ModelPlayingSpeakerNotDesync)
    );
    assert_eq!(
        frontend.handle_stop_command(&mut model, &mut speakers, &voice, 1),
        Ok(say(vec![Message::Response(ResponseMessage::StopMoreVotesNeeded { voice_channel_id: 10, count: 1 })]))
    );
    assert_eq!(
        frontend.handle_stop_command(&mut model, &mut speakers, &voice, 2),
        Err(Error::ModelPlayingSpeakerNotDesync)
    );
    assert!(!model.is_channel_stopped(10));
}

#[test]
fn replace_swaps_the_latest_queued_song() {
    let frontend = frontend();
    let mut model = new_model();
    let speakers = GuildSpeakers::new(vec![1]);
    let nobody = voice_of(&[]);
    assert_eq!(
        frontend.handle_replace_command(&mut model, &speakers, &nobody, 1, Ok(vec![song("a", 1, 100)])),
        Ok(say(vec![queued("a")]))
    );
    let old = item("a", 1);
    let new = item("b", 1);
    assert_eq!(
        frontend.handle_replace_command(
            &mut model,
            &speakers,
            &nobody,
            1,
            Ok(vec![song("b", 1, 101), song("c", 1, 102)])
        ),
        Ok(say(vec![Message::Response(ResponseMessage::Replaced {
            old_song_title: old.title,
            old_song_url: old.url,
            new_song_title: new.title,
            new_song_url: new.url,
        })]))
    );
    let there = voice_of(&[(1, 10)]);
    assert_eq!(model.next_channel_entry_finished(&there, 10), Some(song("b", 1, 101)));
    assert_eq!(model.next_channel_entry_finished(&there, 10), Some(song("c", 1, 102)));
    assert_eq!(model.next_channel_entry_finished(&there, 10), None);
}

#[test]
fn replace_takes_the_place_of_the_song_that_plays() {
    let frontend = frontend();
    let mut model = new_model();
    let mut speakers = GuildSpeakers::new(vec![1, 2]);
    let voice = voice_of(&[(1, 10)]);
    start(&frontend, &mut model, &mut speakers, &voice, 1, vec![song("a", 1, 100)]);
    let first = frontend.handle_replace_command(&mut model, &speakers, &voice, 1, Ok(vec![song("b", 1, 101)]));
    match &first {
        Ok(Step::Play { payload, pending }) => {
            assert_eq!(*payload, 101);
            assert_eq!(pending.speaker, handle(0));
            assert_eq!(
                pending.context,
                PlayContext::Replace { new_song: item("b", 1), playing: item("a", 1) }
            );
        },
        other => panic!("{:?}", other),
    }
    let mut played = Vec::new();
    let done = run(&frontend, &mut model, &mut speakers, &voice, first, vec![Ok(())], &mut played);
    assert_eq!(done, Ok((vec![playing_response("b", 10)], None)));
    assert_eq!(speakers.find_active_in_channel(10), Some((handle(0), item("b", 1))));
    assert_eq!(speakers.speaker(handle(1)).bound_channel, None);
}

#[test]
fn replace_may_bring_the_song_of_another_user() {
    let frontend = frontend();
    let mut model = new_model();
    let mut speakers = GuildSpeakers::new(vec![1]);
    let voice = voice_of(&[(1, 10), (2, 10)]);
    start(&frontend, &mut model, &mut speakers, &voice, 1, vec![song("a", 1, 100)]);
    model.push_entries(2, vec![song("other", 2, 200)]);
    let first = frontend.handle_replace_command(&mut model, &speakers, &voice, 1, Ok(vec![song("b", 1, 101)]));
    let mut played = Vec::new();
    let done = run(&frontend, &mut model, &mut speakers, &voice, first, vec![Ok(())], &mut played);
    assert_eq!(played, vec![(200, true)]);
    let new = item("b", 1);
    let old = item("a", 1);
    assert_eq!(
        done,
        Ok((
            vec![
                Message::Response(ResponseMessage::ReplaceSkipped {
                    new_song_title: new.title,
                    new_song_url: new.url,
                    old_song_title: old.title,
                    old_song_url: old.url,
                    voice_channel_id: 10,
                }),
                playing("other", 10, 2),
            ],
            None
        ))
    );
}

#[test]
fn replace_of_a_playing_song_needs_its_speaker() {
    let frontend = frontend();
    let mut model = new_model();
    let speakers = GuildSpeakers::new(vec![1]);
    let voice = voice_of(&[(1, 10)]);
    model.push_entries(1, vec![song("a", 1, 100)]);
    assert_eq!(model.next_channel_entry(&voice, 10), NextEntry::Entry(song("a", 1, 100)));
    assert_eq!(
        frontend.handle_replace_command(&mut model, &speakers, &voice, 1, Ok(vec![song("b", 1, 101)])),
        Err(Error::ModelPlayingSpeakerNotDesync)
    );
    assert_eq!(model.next_channel_entry_finished(&voice, 10), Some(song("b", 1, 101)));
}

#[test]
fn a_replacement_that_is_out_of_reach_plays_nothing() {
    let frontend = frontend();
    let mut model = new_model();
    let mut speakers = GuildSpeakers::new(vec![1]);
    let voice = voice_of(&[(1, 10)]);
    start(&frontend, &mut model, &mut speakers, &voice, 1, vec![song("a", 1, 100)]);
    let mut left = VoiceStates::new();
    left.insert(2, 10);
    assert_eq!(
        frontend.handle_replace_command(&mut model, &speakers, &left, 1, Ok(vec![song("b", 1, 101)])),
        Ok(say(vec![queued("b")]))
    );
    let mut model = new_model();
    let mut speakers = GuildSpeakers::new(vec![1]);
    start(&frontend, &mut model, &mut speakers, &voice, 1, vec![song("a", 1, 100)]);
    let mut elsewhere = VoiceStates::new();
    elsewhere.insert(1, 10);
    let first = frontend.handle_replace_command(&mut model, &speakers, &elsewhere, 1, Ok(vec![song("b", 1, 101)]));
    assert!(matches!(first, Ok(Step::Play { .. })));
}

#[test]
fn the_report_of_an_end_goes_to_the_message_channel() {
    let frontend = frontend();
    let messages = vec![playing("a", 10, 1)];
    assert_eq!(
        frontend.playback_ended_report(Some(5), Ok(messages.clone())),
        Ok(Some((5, messages.clone())))
    );
    assert_eq!(
        frontend.playback_ended_report(Some(5), Err(Error::NoGuild)),
        Ok(Some((5, vec![Message::Action(ActionMessage::UnknownError)])))
    );
    assert_eq!(frontend.playback_ended_report(None, Ok(messages)), Ok(None));
    assert_eq!(
        frontend.playback_ended_report(None, Err(Error::ModelPlayingSpeakerNotDesync)),
        Err(Error::ModelPlayingSpeakerNotDesync)
    );
}

#[test]
fn a_pet_is_shiny_for_a_one() {
    assert_eq!(Frontend::pet_response(1), ResponseMessage::ShinyPet);
    assert_eq!(Frontend::pet_response(2), ResponseMessage::Pet);
    assert_eq!(Frontend::pet_response(8191), ResponseMessage::Pet);
    assert_eq!(Frontend::pet_response(0), ResponseMessage::Pet);
}

#[test]
fn pets_are_not_all_shiny() {
    let frontend = frontend();
    let mut plain = 0;
    for _ in 0..300 {
        match frontend.handle_pet_command::<u32>() {
            Ok(Step::Done { messages, command: None }) => {
                assert_eq!(messages.len(), 1);
                match &messages[0] {
                    Message::Response(ResponseMessage::Pet) => plain += 1,
                    Message::Response(ResponseMessage::ShinyPet) => {},
                    other => panic!("{:?}", other),
                }
            },
            other => panic!("{:?}", other),
        }
    }
    assert!(plain > 0);
}

#[test]
fn a_command_sets_the_message_channel() {
    let frontend = frontend();
    let mut model = new_model();
    let mut speakers = GuildSpeakers::new(vec![1]);
    let voice = voice_of(&[(1, 10)]);
    let step = frontend.handle_command(&mut model, &mut speakers, &voice, 77, 1, GuildCommand::NowPlaying);
    assert_eq!(
        step,
        Ok(say(vec![Message::Response(ResponseMessage::NothingIsPlayingError { voice_channel_id: 10 })]))
    );
    assert_eq!(model.message_channel(), Some(77));
    frontend.handle_command(&mut model, &mut speakers, &voice, 78, 1, GuildCommand::Pet).unwrap();
    assert_eq!(model.message_channel(), Some(78));
}

#[test]
fn commands_reach_their_handlers() {
    let frontend = frontend();
    let mut model = new_model();
    let mut speakers = GuildSpeakers::new(vec![1]);
    let voice = voice_of(&[(1, 10), (2, 10)]);
    let first = frontend.handle_guild_command(
        &mut model,
        &mut speakers,
        &voice,
        1,
        GuildCommand::Play { songs: Ok(vec![song("a", 1, 100)]) },
    );
    let mut played = Vec::new();
    let done = run(&frontend, &mut model, &mut speakers, &voice, first, vec![Ok(())], &mut played);
    assert_eq!(done, Ok((vec![playing_response("a", 10)], None)));
    let paused = frontend.handle_guild_command(&mut model, &mut speakers, &voice, 1, GuildCommand::Pause);
    assert!(matches!(paused, Ok(Step::Done { command: Some(SpeakerCommand::Pause(_)), .. })));
    let resumed = frontend.handle_guild_command(&mut model, &mut speakers, &voice, 1, GuildCommand::Resume);
    assert!(matches!(resumed, Ok(Step::Done { command: Some(SpeakerCommand::Unpause(_)), .. })));
    let replaced = frontend.handle_guild_command(
        &mut model,
        &mut speakers,
        &voice,
        2,
        GuildCommand::Replace { songs: Ok(vec![song("b", 2, 200)]) },
    );
    assert_eq!(replaced, Ok(say(vec![queued("b")])));
    let skipped = frontend.handle_guild_command(&mut model, &mut speakers, &voice, 1, GuildCommand::Skip);
    assert!(matches!(skipped, Ok(Step::Done { command: Some(SpeakerCommand::Stop(_)), .. })));
    let stopped = frontend.handle_guild_command(&mut model, &mut speakers, &voice, 2, GuildCommand::Stop);
    assert_eq!(stopped, Err(Error::ModelPlayingSpeakerNotDesync));
    let ended = frontend.handle_playback_ended(&mut model, &mut speakers, Some(&voice), 10, handle(0), Some(10));
    assert!(matches!(ended, Ok(Step::Play { payload: 200, .. })));
    let now = frontend.handle_guild_command(&mut model, &mut speakers, &voice, 2, GuildCommand::NowPlaying);
    assert_eq!(
        now,
        Ok(say(vec![Message::Response(ResponseMessage::NothingIsPlayingError { voice_channel_id: 10 })]))
    );
}

#[test]
fn a_failed_command_is_told_by_a_new_or_an_edited_answer() {
    assert_eq!(
        HandleCommandError::new(Error::NoGuild, false),
        HandleCommandError::CreateError(Error::NoGuild)
    );
    assert_eq!(
        HandleCommandError::new(Error::UnknownCommand("x".to_string()), true),
        HandleCommandError::EditError(Error::UnknownCommand("x".to_string()))
    );
}
