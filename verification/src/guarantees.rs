//! What the decisions of the frontend guarantee, whatever the backend does.

use crate::decisions::{
    advance, handle_at, nothing_found, play_finished, playback_ended, playing_message, queue_play,
    release_at, say, select_to_play, tell,
};
use crate::error::{BackendError, Error};
use crate::fairness::{after_turns, entry_of_turn, lemma_first_serving_queue};
use crate::frontend::{PendingPlay, PlayContext, Selection, SpeakerCommand, StepView};
use crate::message::Message;
use crate::model::ModelView;
use crate::song::Song;
use crate::speaker::{may_play_in, pool_wf, to_play_in, PlaybackError, Speaker, SpeakerHandle};
use crate::voice::voice_channel;
use vstd::prelude::*;

verus! {

impl<T> ModelView<T> {
    /// Handing out the next entry for a channel takes the oldest entry of one
    /// user and leaves what every other user has queued as it is.
    pub proof fn lemma_next_takes_oldest(self, voice: Map<u64, u64>, channel_id: u64, user_id: u64)
        requires
            self.wf(),
        ensures
            ({
                let (next, entry) = self.next_channel_entry_finished(voice, channel_id);
                if self.has_next(voice, channel_id) && self.queues[self.next_index(
                    voice,
                    channel_id,
                )].user_id == user_id {
                    &&& self.pending(user_id).len() > 0
                    &&& entry == Some(self.pending(user_id)[0])
                    &&& next.pending(user_id) == self.pending(user_id).drop_first()
                } else {
                    next.pending(user_id) == self.pending(user_id)
                }
            }),
    {
        let (next, entry) = self.next_channel_entry_finished(voice, channel_id);
        self.lemma_operations_keep_wf(
            voice,
            0,
            channel_id,
            None,
            crate::vote::VoteType::Skip,
            Seq::empty(),
            arbitrary(),
        );
        if self.has_next(voice, channel_id) {
            let i = self.next_index(voice, channel_id);
            assert(self.serves_first(voice, channel_id, i));
            if self.queues[i].user_id == user_id {
                self.lemma_queue_index(user_id, i);
                assert(next.is_queue_of(user_id, i));
                next.lemma_queue_index(user_id, i);
            }
        }
        if self.has_queue(user_id) {
            let k = self.queue_index(user_id);
            assert(self.is_queue_of(user_id, k));
            assert(next.is_queue_of(user_id, k));
            next.lemma_queue_index(user_id, k);
        } else {
            if next.has_queue(user_id) {
                let k = next.queue_index(user_id);
                assert(next.is_queue_of(user_id, k));
                assert(self.is_queue_of(user_id, k));
            }
        }
    }
}

/// While a channel is playing, nothing more is started there: whoever looks
/// for a speaker and a song finds the channel playing already, or no
/// speaker, and the model stays as it is.
pub proof fn lemma_playing_channel_starts_nothing<P>(
    model: ModelView<Song<P>>,
    pool: Seq<Speaker>,
    voice: Map<u64, u64>,
    channel_id: u64,
)
    requires
        model.wf(),
        model.is_active(channel_id),
    ensures
        select_to_play(model, pool, voice, channel_id).0 == model,
        select_to_play(model, pool, voice, channel_id).1 is AlreadyPlaying || select_to_play(
            model,
            pool,
            voice,
            channel_id,
        ).1 is NoSpeakers,
{
}

/// An attempt to start playing in `channel_id`, where the playback starts
/// once a speaker and a song are found: the model and the speakers
/// afterwards, and what was found.
pub open spec fn attempt<P>(
    model: ModelView<Song<P>>,
    pool: Seq<Speaker>,
    voice: Map<u64, u64>,
    channel_id: u64,
) -> (ModelView<Song<P>>, Seq<Speaker>, Selection<P>) {
    let (model, selection) = select_to_play(model, pool, voice, channel_id);
    match selection {
        Selection::Start { speaker, song } => {
            let pending = PendingPlay {
                speaker,
                channel_id,
                metadata: song.metadata,
                context: PlayContext::Unpause,
            };
            let (model, pool, result) = play_finished::<P>(model, pool, voice, pending, Ok(()));
            (model, pool, selection)
        },
        _ => (model, pool, selection),
    }
}

/// The model and the speakers after the first `made` of the attempts to
/// start playing in `channel_id`, one attempt for each of `voices`, which
/// says who is in which channel when the attempt is made.
pub open spec fn after_attempts<P>(
    model: ModelView<Song<P>>,
    pool: Seq<Speaker>,
    voices: Seq<Map<u64, u64>>,
    channel_id: u64,
    made: nat,
) -> (ModelView<Song<P>>, Seq<Speaker>)
    decreases made,
{
    if made == 0 {
        (model, pool)
    } else {
        let (model, pool) = after_attempts(model, pool, voices, channel_id, (made - 1) as nat);
        let (model, pool, selection) = attempt(model, pool, voices[made - 1], channel_id);
        (model, pool)
    }
}

/// What the attempt with the number `i` finds.
pub open spec fn attempt_finds<P>(
    model: ModelView<Song<P>>,
    pool: Seq<Speaker>,
    voices: Seq<Map<u64, u64>>,
    channel_id: u64,
    i: nat,
) -> Selection<P> {
    let (model, pool) = after_attempts(model, pool, voices, channel_id, i);
    attempt(model, pool, voices[i as int], channel_id).2
}

/// Of any number of attempts to start playing in one channel, made one after
/// the other in any order, at most one starts a playback: every attempt
/// after it finds the channel playing already, or no speaker.
pub proof fn lemma_one_attempt_starts<P>(
    model: ModelView<Song<P>>,
    pool: Seq<Speaker>,
    voices: Seq<Map<u64, u64>>,
    channel_id: u64,
    first: nat,
    later: nat,
)
    requires
        first < later < voices.len(),
        attempt_finds(model, pool, voices, channel_id, first) is Start,
    ensures
        attempt_finds(model, pool, voices, channel_id, later) is AlreadyPlaying || attempt_finds(
            model,
            pool,
            voices,
            channel_id,
            later,
        ) is NoSpeakers,
        after_attempts(model, pool, voices, channel_id, later).0.is_active(channel_id),
    decreases later,
{
    if later > first + 1 {
        lemma_one_attempt_starts(model, pool, voices, channel_id, first, (later - 1) as nat);
    }
}

/// A song is started only on a speaker that may play in the channel, and
/// the channel counts as playing from then on: once the attempt has
/// succeeded, that speaker is the one that plays there, and the speakers are
/// well formed, so that no second one plays in the channel.
pub proof fn lemma_one_speaker_per_channel<P>(
    model: ModelView<Song<P>>,
    pool: Seq<Speaker>,
    voice: Map<u64, u64>,
    channel_id: u64,
)
    requires
        model.wf(),
        pool_wf(pool),
        pool.len() <= usize::MAX,
        select_to_play(model, pool, voice, channel_id).1 is Start,
    ensures
        ({
            let (started, selection) = select_to_play(model, pool, voice, channel_id);
            let speaker = selection->Start_speaker;
            let song = selection->Start_song;
            let pending = PendingPlay {
                speaker,
                channel_id,
                metadata: song.metadata,
                context: PlayContext::Unpause,
            };
            let (after, speakers, result) = play_finished::<P>(
                started,
                pool,
                voice,
                pending,
                Ok(()),
            );
            &&& may_play_in(pool, channel_id, speaker.index as int)
            &&& started.is_active(channel_id)
            &&& pool_wf(speakers)
            &&& crate::speaker::active_in(speakers, channel_id) == Some(speaker.index as int)
            &&& select_to_play(after, speakers, voice, channel_id).1 is AlreadyPlaying
                || select_to_play(after, speakers, voice, channel_id).1 is NoSpeakers
        }),
{
    let (started, selection) = select_to_play(model, pool, voice, channel_id);
    let speaker = selection->Start_speaker;
    let song = selection->Start_song;
    let i = to_play_in(pool, channel_id)->0;
    assert(speaker == handle_at(i));
    assert(0 <= i < pool.len()) by {
        if exists|k: int| crate::speaker::first_idle_in(pool, channel_id, k) {
            let k = choose|k: int| crate::speaker::first_idle_in(pool, channel_id, k);
            assert(crate::speaker::first_idle_in(pool, channel_id, k));
        } else {
            let k = choose|k: int| crate::speaker::first_free(pool, k);
            assert(crate::speaker::first_free(pool, k));
        }
    }
    crate::speaker::lemma_after_play_wf(pool, i, channel_id, song.metadata, Ok(()));
}

/// A song that failed to play after the playback before had ended is not
/// queued again: afterwards every user has queued what the user had queued
/// before, less at most the oldest entry, which is the song to be tried next.
pub proof fn lemma_failed_song_is_dropped<P>(
    model: ModelView<Song<P>>,
    pool: Seq<Speaker>,
    voice: Map<u64, u64>,
    pending: PendingPlay,
    why: PlaybackError,
    user_id: u64,
)
    requires
        model.wf(),
        pool_wf(pool),
        pending.context is Continue,
    ensures
        ({
            let (after, speakers, result) = play_finished::<P>(
                model,
                pool,
                voice,
                pending,
                Err(why),
            );
            &&& pool_wf(speakers) || !may_play_in(
                pool,
                pending.channel_id,
                pending.speaker.index as int,
            )
            &&& after.pending(user_id) == model.pending(user_id) || (model.pending(user_id).len()
                > 0 && after.pending(user_id) == model.pending(user_id).drop_first() && (
            result matches Ok(StepView::Play { payload, pending: next }) && payload
                == model.pending(user_id)[0].payload && next.metadata == model.pending(
                user_id,
            )[0].metadata && next.context is Continue))
        }),
{
    let i = pending.speaker.index as int;
    if may_play_in(pool, pending.channel_id, i) {
        crate::speaker::lemma_after_play_wf(
            pool,
            i,
            pending.channel_id,
            pending.metadata,
            Err(why),
        );
        let failed = crate::speaker::after_play(
            pool,
            i,
            pending.channel_id,
            pending.metadata,
            Err(why),
        );
        model.lemma_next_takes_oldest(voice, pending.channel_id, user_id);
        lemma_release_keeps_wf(failed, i);
    }
}

/// What comes of taking the steps from `step` on, where the attempts to play
/// end as `outcomes` say, one after the other: the model and the speakers
/// afterwards, and the step that is reached when the outcomes are used up or
/// a step is done or has failed.
pub open spec fn play_through<P>(
    model: ModelView<Song<P>>,
    pool: Seq<Speaker>,
    voice: Map<u64, u64>,
    step: StepView<P>,
    outcomes: Seq<Result<(), PlaybackError>>,
) -> (ModelView<Song<P>>, Seq<Speaker>, Result<StepView<P>, Error>)
    decreases outcomes.len(),
{
    if outcomes.len() == 0 {
        (model, pool, Ok(step))
    } else {
        match step {
            StepView::Done { .. } => (model, pool, Ok(step)),
            StepView::Play { payload, pending } => {
                let (model, pool, result) = play_finished::<P>(
                    model,
                    pool,
                    voice,
                    pending,
                    outcomes[0],
                );
                match result {
                    Ok(next) => play_through(model, pool, voice, next, outcomes.drop_first()),
                    Err(why) => (model, pool, Err(why)),
                }
            },
        }
    }
}

/// Attempts that fail as `failures` say, and then one that succeeds.
pub open spec fn failing_then_playing(failures: Seq<PlaybackError>) -> Seq<
    Result<(), PlaybackError>,
> {
    Seq::new(
        failures.len() + 1,
        |i: int|
            if i < failures.len() {
                Err(failures[i])
            } else {
                Ok(())
            },
    )
}

/// The turns of a channel after its first are the turns once the first was taken.
proof fn lemma_turns_shift<T>(
    model: ModelView<T>,
    voice: Map<u64, u64>,
    channel_id: u64,
    turns: nat,
)
    ensures
        after_turns(model, voice, channel_id, turns + 1) == after_turns(
            model.next_channel_entry_finished(voice, channel_id).0,
            voice,
            channel_id,
            turns,
        ),
    decreases turns,
{
    if turns > 0 {
        lemma_turns_shift(model, voice, channel_id, (turns - 1) as nat);
    } else {
        assert(after_turns(model, voice, channel_id, 0) == model);
    }
}

/// After the end of a playback the songs of the channel are tried in their
/// turns until one plays. Where the first attempts fail and the next one
/// succeeds, that one song plays and is announced, on the speaker whose
/// playback had ended; the songs that failed have left the queues like songs
/// that were played, and none of them is queued again.
pub proof fn lemma_retry_until_playing<P>(
    model: ModelView<Song<P>>,
    pool: Seq<Speaker>,
    voice: Map<u64, u64>,
    channel_id: u64,
    speaker: SpeakerHandle,
    failures: Seq<PlaybackError>,
)
    requires
        model.wf(),
        pool_wf(pool),
        may_play_in(pool, channel_id, speaker.index as int),
        forall|turn: nat|
            turn <= failures.len() ==> (#[trigger] entry_of_turn(model, voice, channel_id, turn))
                is Some,
    ensures
        ({
            let (asked, speakers, step) = advance(model, pool, voice, speaker, channel_id);
            let (after, speakers, result) = play_through(
                asked,
                speakers,
                voice,
                step,
                failing_then_playing(failures),
            );
            let played = entry_of_turn(model, voice, channel_id, failures.len())->0;
            &&& after == after_turns(model, voice, channel_id, failures.len() + 1)
            &&& after.wf()
            &&& speakers == pool.update(
                speaker.index as int,
                pool[speaker.index as int].playing(channel_id, played.metadata),
            )
            &&& pool_wf(speakers)
            &&& result == Ok::<StepView<P>, Error>(
                say(seq![playing_message(played.metadata, channel_id)]),
            )
        }),
    decreases failures.len(),
{
    let i = speaker.index as int;
    let outcomes = failing_then_playing(failures);
    let (asked, same, step) = advance(model, pool, voice, speaker, channel_id);
    assert(entry_of_turn(model, voice, channel_id, 0) is Some);
    assert(after_turns(model, voice, channel_id, 0) == model);
    let first = entry_of_turn(model, voice, channel_id, 0)->0;
    assert(asked == after_turns(model, voice, channel_id, 1));
    model.lemma_operations_keep_wf(
        voice,
        0,
        channel_id,
        None,
        crate::vote::VoteType::Skip,
        Seq::empty(),
        arbitrary(),
    );
    let pending = PendingPlay {
        speaker,
        channel_id,
        metadata: first.metadata,
        context: PlayContext::Continue,
    };
    assert(step == StepView::Play { payload: first.payload, pending });
    crate::speaker::lemma_after_play_wf(pool, i, channel_id, first.metadata, outcomes[0]);
    reveal_with_fuel(play_through, 2);
    let played = entry_of_turn(model, voice, channel_id, failures.len())->0;
    let (after, speakers, result) = play_through(asked, pool, voice, step, outcomes);
    if failures.len() == 0 {
        assert(outcomes[0] == Ok::<(), PlaybackError>(()));
        assert(outcomes.drop_first().len() == 0);
        assert(played == first);
        assert(after == asked);
    } else {
        assert(outcomes[0] == Err::<(), PlaybackError>(failures[0]));
        let failed = crate::speaker::after_play(
            pool,
            i,
            channel_id,
            first.metadata,
            Err(failures[0]),
        );
        let rest = failures.drop_first();
        assert(outcomes.drop_first() =~= failing_then_playing(rest));
        assert forall|turn: nat| turn <= rest.len() implies (#[trigger] entry_of_turn(
            asked,
            voice,
            channel_id,
            turn,
        )) is Some by {
            lemma_turns_shift(model, voice, channel_id, turn);
            assert(entry_of_turn(model, voice, channel_id, turn + 1) is Some);
        }
        assert(may_play_in(failed, channel_id, i));
        lemma_retry_until_playing(asked, failed, voice, channel_id, speaker, rest);
        let (again, retried, next) = advance(asked, failed, voice, speaker, channel_id);
        assert((after, speakers, result) == play_through(
            again,
            retried,
            voice,
            next,
            failing_then_playing(rest),
        ));
        lemma_turns_shift(model, voice, channel_id, rest.len());
        lemma_turns_shift(model, voice, channel_id, rest.len() + 1);
        assert(entry_of_turn(asked, voice, channel_id, rest.len()) == entry_of_turn(
            model,
            voice,
            channel_id,
            failures.len(),
        ));
        assert(after_turns(asked, voice, channel_id, rest.len() + 1) == after_turns(
            model,
            voice,
            channel_id,
            failures.len() + 1,
        ));
        assert(failed.update(i, failed[i].playing(channel_id, played.metadata)) =~= pool.update(
            i,
            pool[i].playing(channel_id, played.metadata),
        ));
    }
}

/// Taking a speaker out of its channel keeps the speakers well formed.
pub proof fn lemma_release_keeps_wf(pool: Seq<Speaker>, i: int)
    requires
        pool_wf(pool),
        0 <= i < pool.len(),
    ensures
        pool_wf(release_at(pool, i)),
{
    let after = release_at(pool, i);
    assert forall|a: int| 0 <= a < after.len() implies (#[trigger] after[a]).wf() by {
        if a != i {
            assert(pool[a].wf());
        }
    }
    assert forall|a: int, b: int|
        0 <= a < b < after.len() && (#[trigger] after[a]).is_active() && (
        #[trigger] after[b]).is_active() implies after[a].bound_channel
        != after[b].bound_channel by {
        assert(pool[a].is_active() && pool[b].is_active());
        assert(pool[a].bound_channel != pool[b].bound_channel);
    }
}

/// A stopped channel is not played in when a playback ends there: the
/// speaker is taken out of its channel, no song is started and no message is
/// sent, and what is queued stays queued.
pub proof fn lemma_stopped_channel_stays_silent<P>(
    model: ModelView<Song<P>>,
    pool: Seq<Speaker>,
    voice: Option<Map<u64, u64>>,
    channel_id: u64,
    speaker: SpeakerHandle,
)
    requires
        model.wf(),
        pool_wf(pool),
        speaker.index < pool.len(),
        pool[speaker.index as int].current_item is Some,
    ensures
        ({
            let stopped = model.set_channel_stopped(channel_id);
            let (after, speakers, result) = playback_ended::<P>(
                stopped,
                pool,
                voice,
                channel_id,
                speaker,
                Some(channel_id),
            );
            &&& after == stopped
            &&& after.queues == model.queues
            &&& after.is_stopped(channel_id)
            &&& speakers[speaker.index as int] == Speaker::released(pool[speaker.index as int].id)
            &&& result == Ok::<StepView<P>, Error>(
                tell(Seq::<Message>::empty(), SpeakerCommand::Release(speaker)),
            )
        }),
{
}

/// A play command starts a stopped channel again: where the user is in the
/// channel with something queued, nothing plays there, and a speaker can take
/// the channel up, a song is to be played, and the channel is no longer
/// stopped.
pub proof fn lemma_play_command_restarts<P>(
    model: ModelView<Song<P>>,
    pool: Seq<Speaker>,
    voice: Map<u64, u64>,
    user_id: u64,
    channel_id: u64,
    songs: Seq<Song<P>>,
)
    requires
        model.wf(),
        songs.len() > 0,
        voice_channel(voice, user_id) == Some(channel_id),
        !model.is_active(channel_id),
        to_play_in(pool, channel_id) is Some,
        may_play_in(pool, channel_id, to_play_in(pool, channel_id)->0),
    ensures
        ({
            let (after, result) = queue_play(
                model,
                pool,
                voice,
                user_id,
                Ok::<Seq<Song<P>>, BackendError>(songs),
            );
            &&& result matches Ok(StepView::Play { pending, .. }) && pending.channel_id
                == channel_id && pending.speaker == handle_at(to_play_in(pool, channel_id)->0)
            &&& !after.is_stopped(channel_id)
            &&& after.is_active(channel_id)
        }),
{
    assert(nothing_found(Ok::<Seq<Song<P>>, BackendError>(songs)) is None);
    let queued = model.push_entries(user_id, songs);
    model.lemma_pending_after_push(user_id, songs);
    model.lemma_operations_keep_wf(
        voice,
        user_id,
        channel_id,
        None,
        crate::vote::VoteType::Skip,
        songs,
        arbitrary(),
    );
    assert(queued.has_queue(user_id)) by {
        if !queued.has_queue(user_id) {
            assert(queued.pending(user_id).len() == 0);
        }
    }
    let k = queued.queue_index(user_id);
    assert(queued.is_queue_of(user_id, k));
    assert(queued.serves(voice, channel_id, k));
    assert(queued.channels == model.channels);
    assert(queued.channel(channel_id).cursor <= queued.queues.len()) by {
        if queued.channels.contains_key(channel_id) {
            assert(queued.channels[channel_id].cursor <= queued.queues.len());
        }
    }
    lemma_first_serving_queue(queued, voice, channel_id, k);
}

} // verus!
