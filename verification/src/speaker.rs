//! The speakers of one guild: which channel each is bound to and what it plays.
//!
//! A speaker plays in one channel at a time. No channel ever has two speakers
//! that play or are paused.

use crate::song::SongMetadata;
use vstd::prelude::*;

verus! {

/// What a speaker is doing.
#[derive(Clone, Copy, Debug, PartialEq, Eq, Structural)]
pub enum PlaybackState {
    /// Nothing is playing.
    Idle,
    Playing,
    Paused,
    /// Playback was told to stop and has not ended yet.
    Stopping,
}

/// Why a playback did not start.
#[derive(Clone, Copy, Debug, PartialEq, Eq, Structural)]
pub enum PlaybackError {
    /// The speaker could not join the channel.
    ConnectFailed,
    /// The stream of the song could not be started.
    StreamFailed,
}

/// One speaker.
#[derive(Debug, PartialEq, Eq)]
pub struct Speaker {
    pub id: u64,
    /// The channel that the speaker is in.
    pub bound_channel: Option<u64>,
    pub playback_state: PlaybackState,
    /// What the speaker plays, unless it is idle.
    pub current_item: Option<SongMetadata>,
}

/// Names a speaker of a pool by its place in the pool.
#[derive(Clone, Copy, Debug, PartialEq, Eq, Structural)]
pub struct SpeakerHandle {
    pub index: usize,
}

impl Speaker {
    /// A speaker that is in no channel and plays nothing.
    pub open spec fn released(id: u64) -> Speaker {
        Speaker {
            id,
            bound_channel: None,
            playback_state: PlaybackState::Idle,
            current_item: None,
        }
    }

    /// Whether the speaker plays or is paused.
    pub open spec fn is_active(self) -> bool {
        self.playback_state == PlaybackState::Playing || self.playback_state
            == PlaybackState::Paused
    }

    /// Whether the speaker plays or is paused in `channel_id`.
    pub open spec fn is_active_in(self, channel_id: u64) -> bool {
        self.is_active() && self.bound_channel == Some(channel_id)
    }

    /// Whether the speaker is in `channel_id` and idle.
    pub open spec fn is_idle_in(self, channel_id: u64) -> bool {
        self.playback_state == PlaybackState::Idle && self.bound_channel == Some(channel_id)
    }

    /// Whether the speaker is in no channel.
    pub open spec fn is_free(self) -> bool {
        self.bound_channel is None
    }

    /// A speaker that is not idle is in a channel and has an item; an idle one has none.
    pub open spec fn wf(self) -> bool {
        &&& self.playback_state == PlaybackState::Idle <==> self.current_item is None
        &&& self.playback_state != PlaybackState::Idle ==> self.bound_channel is Some
    }

    /// The speaker once it plays `item` in `channel_id`.
    pub open spec fn playing(self, channel_id: u64, item: SongMetadata) -> Speaker {
        Speaker {
            id: self.id,
            bound_channel: Some(channel_id),
            playback_state: PlaybackState::Playing,
            current_item: Some(item),
        }
    }

    /// The speaker in another state of playback.
    pub open spec fn in_state(self, playback_state: PlaybackState) -> Speaker {
        Speaker { playback_state, ..self }
    }

    /// The speaker once it was told to stop: one that plays or is paused is stopping.
    pub open spec fn stopped(self) -> Speaker {
        if self.is_active() {
            self.in_state(PlaybackState::Stopping)
        } else {
            self
        }
    }

    /// The speaker once its playback has ended: idle, in the channel it was in.
    pub open spec fn ended(self) -> Speaker {
        Speaker { playback_state: PlaybackState::Idle, current_item: None, ..self }
    }
}

/// No two speakers of `pool` play or are paused in one channel, and each is well formed.
pub open spec fn pool_wf(pool: Seq<Speaker>) -> bool {
    &&& forall|i: int| 0 <= i < pool.len() ==> (#[trigger] pool[i]).wf()
    &&& forall|i: int, j: int|
        0 <= i < j < pool.len() && (#[trigger] pool[i]).is_active() && (#[trigger] pool[j]).is_active()
            ==> pool[i].bound_channel != pool[j].bound_channel
}

/// Whether the speaker at `i` is the first that is idle in `channel_id`.
pub open spec fn first_idle_in(pool: Seq<Speaker>, channel_id: u64, i: int) -> bool {
    &&& 0 <= i < pool.len()
    &&& pool[i].is_idle_in(channel_id)
    &&& forall|j: int| 0 <= j < i ==> !(#[trigger] pool[j]).is_idle_in(channel_id)
}

/// Whether the speaker at `i` is the first that is in no channel.
pub open spec fn first_free(pool: Seq<Speaker>, i: int) -> bool {
    &&& 0 <= i < pool.len()
    &&& pool[i].is_free()
    &&& forall|j: int| 0 <= j < i ==> !(#[trigger] pool[j]).is_free()
}

/// Whether the speaker at `i` plays or is paused in `channel_id`.
pub open spec fn active_at(pool: Seq<Speaker>, channel_id: u64, i: int) -> bool {
    0 <= i < pool.len() && pool[i].is_active_in(channel_id)
}

/// The speaker that can take up playing in `channel_id`: the first that is
/// idle in that channel, else the first that is in no channel.
pub open spec fn to_play_in(pool: Seq<Speaker>, channel_id: u64) -> Option<int> {
    if exists|i: int| first_idle_in(pool, channel_id, i) {
        Some(choose|i: int| first_idle_in(pool, channel_id, i))
    } else if exists|i: int| first_free(pool, i) {
        Some(choose|i: int| first_free(pool, i))
    } else {
        None
    }
}

/// The speaker that plays or is paused in `channel_id`.
pub open spec fn active_in(pool: Seq<Speaker>, channel_id: u64) -> Option<int> {
    if exists|i: int| active_at(pool, channel_id, i) {
        Some(choose|i: int| active_at(pool, channel_id, i))
    } else {
        None
    }
}

/// Whether the speaker at `i` may start to play in `channel_id`: no other
/// speaker plays or is paused there.
pub open spec fn may_play_in(pool: Seq<Speaker>, channel_id: u64, i: int) -> bool {
    &&& 0 <= i < pool.len()
    &&& forall|j: int| 0 <= j < pool.len() && j != i ==> !(#[trigger] pool[j]).is_active_in(channel_id)
}

/// The pool after the speaker at `i` has tried to play `item` in
/// `channel_id`. On success it plays there; on failure it is in no channel
/// and idle.
pub open spec fn after_play(
    pool: Seq<Speaker>,
    i: int,
    channel_id: u64,
    item: SongMetadata,
    outcome: Result<(), PlaybackError>,
) -> Seq<Speaker> {
    match outcome {
        Ok(_) => pool.update(i, pool[i].playing(channel_id, item)),
        Err(_) => pool.update(i, Speaker::released(pool[i].id)),
    }
}

/// In a well-formed pool at most one speaker plays or is paused in a channel.
pub proof fn lemma_active_in(pool: Seq<Speaker>, channel_id: u64, i: int)
    requires
        pool_wf(pool),
        active_at(pool, channel_id, i),
    ensures
        active_in(pool, channel_id) == Some(i),
        forall|j: int| active_at(pool, channel_id, j) ==> j == i,
{
    assert forall|j: int| active_at(pool, channel_id, j) implies j == i by {
        if j < i {
            assert(pool[j].bound_channel != pool[i].bound_channel);
        } else if i < j {
            assert(pool[i].bound_channel != pool[j].bound_channel);
        }
    }
}

/// Playing where no other speaker plays keeps the pool well formed, and so
/// does every failure to play.
pub proof fn lemma_after_play_wf(
    pool: Seq<Speaker>,
    i: int,
    channel_id: u64,
    item: SongMetadata,
    outcome: Result<(), PlaybackError>,
)
    requires
        pool_wf(pool),
        may_play_in(pool, channel_id, i),
    ensures
        pool_wf(after_play(pool, i, channel_id, item, outcome)),
        outcome is Ok ==> active_in(after_play(pool, i, channel_id, item, outcome), channel_id)
            == Some(i),
{
    let after = after_play(pool, i, channel_id, item, outcome);
    assert forall|a: int, b: int|
        0 <= a < b < after.len() && (#[trigger] after[a]).is_active() && (
        #[trigger] after[b]).is_active() implies after[a].bound_channel
        != after[b].bound_channel by {
        if a != i && b != i {
            assert(pool[a].bound_channel != pool[b].bound_channel);
        } else if a == i {
            assert(!pool[b].is_active_in(channel_id));
        } else {
            assert(!pool[a].is_active_in(channel_id));
        }
    }
    assert forall|a: int| 0 <= a < after.len() implies (#[trigger] after[a]).wf() by {
        if a != i {
            assert(pool[a].wf());
        }
    }
    if outcome is Ok {
        assert(active_at(after, channel_id, i));
        lemma_active_in(after, channel_id, i);
    }
}

/// The speakers of one guild. The view is the speakers in their order.
pub struct GuildSpeakers {
    speakers: Vec<Speaker>,
}

impl View for GuildSpeakers {
    type V = Seq<Speaker>;

    closed spec fn view(&self) -> Seq<Speaker> {
        self.speakers@
    }
}

impl GuildSpeakers {
    /// The pool is well formed.
    pub open spec fn wf(&self) -> bool {
        pool_wf(self@)
    }

    /// Whether `handle` names a speaker of this pool.
    pub open spec fn has(&self, handle: SpeakerHandle) -> bool {
        handle.index < self@.len()
    }

    /// A pool with one speaker for each of `ids`, all in no channel and idle.
    pub fn new(ids: Vec<u64>) -> (pool: GuildSpeakers)
        ensures
            pool.wf(),
            pool@.len() == ids@.len(),
            forall|i: int| 0 <= i < ids@.len() ==> #[trigger] pool@[i] == Speaker::released(ids@[i]),
    {
        let mut speakers: Vec<Speaker> = Vec::new();
        let n = ids.len();
        let mut i: usize = 0;
        while i < n
            invariant
                i <= n,
                n == ids@.len(),
                speakers@.len() == i,
                forall|k: int| 0 <= k < i ==> #[trigger] speakers@[k] == Speaker::released(ids@[k]),
            decreases n - i,
        {
            speakers.push(
                Speaker {
                    id: ids[i],
                    bound_channel: None,
                    playback_state: PlaybackState::Idle,
                    current_item: None,
                },
            );
            i += 1;
        }
        GuildSpeakers { speakers }
    }

    /// The number of speakers.
    pub fn len(&self) -> (n: usize)
        ensures
            n == self@.len(),
    {
        self.speakers.len()
    }

    /// The speaker that `handle` names.
    pub fn speaker(&self, handle: SpeakerHandle) -> (speaker: &Speaker)
        requires
            self.has(handle),
        ensures
            *speaker == self@[handle.index as int],
    {
        &self.speakers[handle.index]
    }

    /// A speaker that can take up playing in `channel_id`: the first that is
    /// in that channel and idle, else the first that is in no channel. The
    /// speaker is not taken until it is told to play.
    pub fn find_to_play_in_channel(&self, channel_id: u64) -> (found: Option<SpeakerHandle>)
        ensures
            match found {
                Some(handle) => to_play_in(self@, channel_id) == Some(handle.index as int),
                None => to_play_in(self@, channel_id) is None,
            },
            found matches Some(handle) ==> self.has(handle),
    {
        let n = self.speakers.len();
        let mut free: Option<usize> = None;
        let mut i: usize = 0;
        while i < n
            invariant
                i <= n,
                n == self@.len(),
                forall|k: int| 0 <= k < i ==> !(#[trigger] self@[k]).is_idle_in(channel_id),
                match free {
                    Some(f) => f < i && first_free(self@, f as int),
                    None => forall|k: int| 0 <= k < i ==> !(#[trigger] self@[k]).is_free(),
                },
            decreases n - i,
        {
            let speaker = &self.speakers[i];
            match speaker.bound_channel {
                Some(bound) => {
                    if bound == channel_id && speaker.playback_state == PlaybackState::Idle {
                        assert(first_idle_in(self@, channel_id, i as int));
                        proof {
                            let k = choose|k: int| first_idle_in(self@, channel_id, k);
                            assert(k == i);
                        }
                        return Some(SpeakerHandle { index: i });
                    }
                },
                None => {
                    if free.is_none() {
                        free = Some(i);
                    }
                },
            }
            i += 1;
        }
        assert(forall|k: int| !first_idle_in(self@, channel_id, k));
        match free {
            Some(f) => {
                proof {
                    let k = choose|k: int| first_free(self@, k);
                    assert(first_free(self@, f as int));
                    assert(k == f);
                }
                Some(SpeakerHandle { index: f })
            },
            None => {
                assert(forall|k: int| !first_free(self@, k));
                None
            },
        }
    }

    /// The speaker that plays or is paused in `channel_id`, with what it plays.
    pub fn find_active_in_channel(&self, channel_id: u64) -> (found: Option<
        (SpeakerHandle, SongMetadata),
    >)
        requires
            self.wf(),
        ensures
            match found {
                Some((handle, item)) => active_in(self@, channel_id) == Some(handle.index as int)
                    && self.has(handle) && Some(item) == self@[handle.index as int].current_item
                    && self@[handle.index as int].is_active_in(channel_id),
                None => active_in(self@, channel_id) is None,
            },
    {
        let n = self.speakers.len();
        let mut i: usize = 0;
        while i < n
            invariant
                i <= n,
                n == self@.len(),
                self.wf(),
                forall|k: int| 0 <= k < i ==> !active_at(self@, channel_id, k),
            decreases n - i,
        {
            let speaker = &self.speakers[i];
            let active = match speaker.playback_state {
                PlaybackState::Playing => true,
                PlaybackState::Paused => true,
                _ => false,
            };
            if active {
                match speaker.bound_channel {
                    Some(bound) => {
                        if bound == channel_id {
                            assert(self@[i as int].wf());
                            match &speaker.current_item {
                                Some(item) => {
                                    proof {
                                        assert(active_at(self@, channel_id, i as int));
                                        lemma_active_in(self@, channel_id, i as int);
                                    }
                                    return Some((SpeakerHandle { index: i }, item.clone()));
                                },
                                None => {},
                            }
                        }
                    },
                    None => {},
                }
            }
            i += 1;
        }
        None
    }

    /// Whether the speaker that `handle` names may start to play in
    /// `channel_id`: no other speaker plays or is paused there.
    pub fn can_play_in_channel(&self, handle: SpeakerHandle, channel_id: u64) -> (allowed: bool)
        ensures
            allowed == may_play_in(self@, channel_id, handle.index as int),
    {
        let n = self.speakers.len();
        if handle.index >= n {
            return false;
        }
        let mut i: usize = 0;
        while i < n
            invariant
                i <= n,
                n == self@.len(),
                handle.index < n,
                forall|k: int|
                    0 <= k < i && k != handle.index ==> !(#[trigger] self@[k]).is_active_in(
                        channel_id,
                    ),
            decreases n - i,
        {
            if i != handle.index {
                let speaker = &self.speakers[i];
                let active = match speaker.playback_state {
                    PlaybackState::Playing => true,
                    PlaybackState::Paused => true,
                    _ => false,
                };
                let here = match speaker.bound_channel {
                    Some(bound) => bound == channel_id,
                    None => false,
                };
                if active && here {
                    assert(self@[i as int].is_active_in(channel_id));
                    return false;
                }
            }
            i += 1;
        }
        true
    }

    /// Records what became of the attempt of a speaker to play `item` in
    /// `channel_id`. After a success the speaker is in that channel and plays
    /// the item, and the end of this playback is reported once. After a
    /// failure the speaker is in no channel and idle, and no end is reported.
    pub fn play(
        &mut self,
        handle: SpeakerHandle,
        channel_id: u64,
        item: SongMetadata,
        outcome: Result<(), PlaybackError>,
    ) -> (result: Result<(), PlaybackError>)
        requires
            old(self).wf(),
            may_play_in(old(self)@, channel_id, handle.index as int),
        ensures
            final(self).wf(),
            result == outcome,
            final(self)@ == after_play(old(self)@, handle.index as int, channel_id, item, outcome),
    {
        let id = self.speakers[handle.index].id;
        proof {
            lemma_after_play_wf(self@, handle.index as int, channel_id, item, outcome);
        }
        if outcome.is_ok() {
            self.speakers[handle.index] = Speaker {
                id,
                bound_channel: Some(channel_id),
                playback_state: PlaybackState::Playing,
                current_item: Some(item),
            };
        } else {
            self.speakers[handle.index] = Speaker {
                id,
                bound_channel: None,
                playback_state: PlaybackState::Idle,
                current_item: None,
            };
        }
        outcome
    }

    /// Whether the speaker is paused.
    pub fn is_paused(&self, handle: SpeakerHandle) -> (paused: bool)
        requires
            self.has(handle),
        ensures
            paused == (self@[handle.index as int].playback_state == PlaybackState::Paused),
    {
        match self.speakers[handle.index].playback_state {
            PlaybackState::Paused => true,
            _ => false,
        }
    }

    /// Pauses a speaker that plays.
    pub fn pause(&mut self, handle: SpeakerHandle)
        requires
            old(self).wf(),
            old(self).has(handle),
            old(self)@[handle.index as int].playback_state == PlaybackState::Playing,
        ensures
            final(self).wf(),
            final(self)@ == old(self)@.update(
                handle.index as int,
                old(self)@[handle.index as int].in_state(PlaybackState::Paused),
            ),
    {
        self.speakers[handle.index].playback_state = PlaybackState::Paused;
        proof {
            self.lemma_same_activity(*old(self), handle);
        }
    }

    /// Lets a paused speaker play on.
    pub fn unpause(&mut self, handle: SpeakerHandle)
        requires
            old(self).wf(),
            old(self).has(handle),
            old(self)@[handle.index as int].playback_state == PlaybackState::Paused,
        ensures
            final(self).wf(),
            final(self)@ == old(self)@.update(
                handle.index as int,
                old(self)@[handle.index as int].in_state(PlaybackState::Playing),
            ),
    {
        self.speakers[handle.index].playback_state = PlaybackState::Playing;
        proof {
            self.lemma_same_activity(*old(self), handle);
        }
    }

    /// Tells a speaker to stop. One that plays or is paused is stopping from
    /// now on; for any other nothing changes.
    pub fn stop(&mut self, handle: SpeakerHandle)
        requires
            old(self).wf(),
            old(self).has(handle),
        ensures
            final(self).wf(),
            final(self)@ == old(self)@.update(
                handle.index as int,
                old(self)@[handle.index as int].stopped(),
            ),
    {
        let active = match self.speakers[handle.index].playback_state {
            PlaybackState::Playing => true,
            PlaybackState::Paused => true,
            _ => false,
        };
        if active {
            self.speakers[handle.index].playback_state = PlaybackState::Stopping;
        }
        proof {
            assert(self@ =~= old(self)@.update(
                handle.index as int,
                old(self)@[handle.index as int].stopped(),
            ));
            self.lemma_less_activity(*old(self), handle);
        }
    }

    /// Takes note that the playback of a speaker has ended, and hands back
    /// what it played. The speaker is idle from now on, in the channel it was
    /// in. The end of a playback is taken note of once: for an idle speaker
    /// nothing changes and nothing is handed back.
    pub fn end_playback(&mut self, handle: SpeakerHandle) -> (ended: Option<SongMetadata>)
        requires
            old(self).wf(),
            old(self).has(handle),
        ensures
            final(self).wf(),
            ended == old(self)@[handle.index as int].current_item,
            final(self)@ == old(self)@.update(
                handle.index as int,
                old(self)@[handle.index as int].ended(),
            ),
    {
        assert(self@[handle.index as int].wf());
        let ended = self.speakers[handle.index].current_item.take();
        self.speakers[handle.index].playback_state = PlaybackState::Idle;
        proof {
            assert(self@ =~= old(self)@.update(
                handle.index as int,
                old(self)@[handle.index as int].ended(),
            ));
            self.lemma_less_activity(*old(self), handle);
        }
        ended
    }

    /// Takes a speaker out of its channel: it is in no channel and idle.
    pub fn release(&mut self, handle: SpeakerHandle)
        requires
            old(self).wf(),
            old(self).has(handle),
        ensures
            final(self).wf(),
            final(self)@ == old(self)@.update(
                handle.index as int,
                Speaker::released(old(self)@[handle.index as int].id),
            ),
    {
        let id = self.speakers[handle.index].id;
        self.speakers[handle.index] = Speaker {
            id,
            bound_channel: None,
            playback_state: PlaybackState::Idle,
            current_item: None,
        };
        proof {
            self.lemma_less_activity(*old(self), handle);
        }
    }

    /// A pool that differs from a well-formed one in one speaker, which is
    /// well formed and active only if it was, in the same channel, is well formed.
    proof fn lemma_less_activity(&self, before: GuildSpeakers, handle: SpeakerHandle)
        requires
            before.wf(),
            before.has(handle),
            self@.len() == before@.len(),
            forall|k: int| 0 <= k < self@.len() && k != handle.index ==> self@[k] == before@[k],
            self@[handle.index as int].wf(),
            self@[handle.index as int].is_active() ==> before@[handle.index as int].is_active()
                && self@[handle.index as int].bound_channel
                == before@[handle.index as int].bound_channel,
        ensures
            self.wf(),
    {
        let pool = self@;
        let old_pool = before@;
        assert forall|a: int| 0 <= a < pool.len() implies (#[trigger] pool[a]).wf() by {
            if a != handle.index {
                assert(old_pool[a].wf());
            }
        }
        assert forall|a: int, b: int|
            0 <= a < b < pool.len() && (#[trigger] pool[a]).is_active() && (
            #[trigger] pool[b]).is_active() implies pool[a].bound_channel
            != pool[b].bound_channel by {
            assert(old_pool[a].is_active() && old_pool[b].is_active());
            assert(old_pool[a].bound_channel != old_pool[b].bound_channel);
        }
    }

    proof fn lemma_same_activity(&self, before: GuildSpeakers, handle: SpeakerHandle)
        requires
            before.wf(),
            before.has(handle),
            before@[handle.index as int].is_active(),
            self@ == before@.update(
                handle.index as int,
                before@[handle.index as int].in_state(self@[handle.index as int].playback_state),
            ),
            self@[handle.index as int].playback_state != PlaybackState::Idle,
        ensures
            self.wf(),
    {
        assert(before@[handle.index as int].wf());
        self.lemma_less_activity(before, handle);
    }
}

} // verus!
