//! The queues and votes of one guild.
//!
//! Every user has a queue of entries. The queues stand in the order in which
//! their users first queued something, and stay there. Every channel has a
//! cursor into that order: the queues are asked in turn from the cursor on,
//! around the end of the order, and the cursor moves behind the queue that
//! was served. A channel is either idle, playing the entry of some user, or
//! stopped.

use crate::voice::{occupancy, voice_channel, VoiceStates};
use crate::vote::{tally, ThresholdPolicy, VoteStatus, VoteTracker, VoteType};
use std::collections::HashMap;
use vstd::prelude::*;

verus! {

/// What a channel gets when it asks for its next entry.
#[derive(Debug, PartialEq, Eq)]
pub enum NextEntry<T> {
    /// This entry is to be played now.
    Entry(T),
    /// The channel is playing already.
    AlreadyPlaying,
    /// No user of the channel has anything queued.
    NoneAvailable,
}

/// What became of an entry that was to replace a user's latest one.
#[derive(Debug, PartialEq, Eq)]
pub enum ReplaceStatus<T> {
    /// The user had nothing to replace: the entry was queued.
    Queued,
    /// The entry took the place of this one, the user's latest in the queue.
    ReplacedInQueue(T),
    /// The user's latest entry is playing in this channel: the new entry was
    /// queued, and the channel has to move on to its next entry.
    ReplacedCurrent(u64),
}

/// The queue of one user.
#[verifier::ext_equal]
pub struct QueueView<T> {
    pub user_id: u64,
    pub entries: Seq<T>,
}

/// The state of one channel.
#[verifier::ext_equal]
pub struct ChannelView {
    /// The user whose entry is playing, if one is.
    pub playing: Option<u64>,
    /// Whether playback was stopped and nothing has been started since.
    pub stopped: bool,
    /// Who has voted to skip what is playing.
    pub skip_votes: Set<u64>,
    /// Who has voted to stop what is playing.
    pub stop_votes: Set<u64>,
    /// Where in the order of the queues the channel asks first for its next entry.
    pub cursor: nat,
}

/// The state of a guild.
#[verifier::ext_equal]
pub struct ModelView<T> {
    pub policy: ThresholdPolicy,
    /// Where messages that answer no command are sent.
    pub message_channel: Option<u64>,
    /// The queues, in the order in which their users first queued something.
    pub queues: Seq<QueueView<T>>,
    /// The channels that are not idle.
    pub channels: Map<u64, ChannelView>,
}

impl ChannelView {
    /// A channel in which nothing plays, nothing was stopped and nobody has
    /// voted, and which asks the first queue first.
    pub open spec fn idle() -> ChannelView {
        ChannelView {
            playing: None,
            stopped: false,
            skip_votes: Set::empty(),
            stop_votes: Set::empty(),
            cursor: 0,
        }
    }

    /// A channel that plays an entry of `user_id`, with no votes yet.
    pub open spec fn started(user_id: u64, cursor: nat) -> ChannelView {
        ChannelView {
            playing: Some(user_id),
            stopped: false,
            skip_votes: Set::empty(),
            stop_votes: Set::empty(),
            cursor,
        }
    }

    /// A channel that was stopped.
    pub open spec fn halted(cursor: nat) -> ChannelView {
        ChannelView {
            playing: None,
            stopped: true,
            skip_votes: Set::empty(),
            stop_votes: Set::empty(),
            cursor,
        }
    }

    /// The votes of one kind.
    pub open spec fn votes(self, vote_type: VoteType) -> Set<u64> {
        match vote_type {
            VoteType::Skip => self.skip_votes,
            VoteType::Stop => self.stop_votes,
        }
    }

    /// This channel with the votes of one kind replaced.
    pub open spec fn with_votes(self, vote_type: VoteType, votes: Set<u64>) -> ChannelView {
        match vote_type {
            VoteType::Skip => ChannelView { skip_votes: votes, ..self },
            VoteType::Stop => ChannelView { stop_votes: votes, ..self },
        }
    }

    pub open spec fn wf(self) -> bool {
        &&& self.skip_votes.finite()
        &&& self.stop_votes.finite()
    }
}

impl<T> ModelView<T> {
    /// No user has two queues, every set of votes is finite, and no cursor
    /// stands behind the end of the queues.
    pub open spec fn wf(self) -> bool {
        &&& forall|i: int, j: int|
            0 <= i < j < self.queues.len() ==> (#[trigger] self.queues[i]).user_id != (
            #[trigger] self.queues[j]).user_id
        &&& forall|channel_id: u64| #[trigger]
            self.channels.contains_key(channel_id) ==> self.channels[channel_id].wf()
                && self.channels[channel_id].cursor <= self.queues.len()
    }

    /// The state with no queues, in which every channel is idle.
    pub open spec fn empty(policy: ThresholdPolicy) -> ModelView<T> {
        ModelView { policy, message_channel: None, queues: Seq::empty(), channels: Map::empty() }
    }

    /// The state of `channel_id`.
    pub open spec fn channel(self, channel_id: u64) -> ChannelView {
        if self.channels.contains_key(channel_id) {
            self.channels[channel_id]
        } else {
            ChannelView::idle()
        }
    }

    /// Whether an entry is playing in `channel_id`.
    pub open spec fn is_active(self, channel_id: u64) -> bool {
        self.channel(channel_id).playing is Some
    }

    /// Whether `channel_id` was stopped and nothing has been started since.
    pub open spec fn is_stopped(self, channel_id: u64) -> bool {
        self.channel(channel_id).stopped
    }

    /// Whether the queue at `i` belongs to `user_id`.
    pub open spec fn is_queue_of(self, user_id: u64, i: int) -> bool {
        0 <= i < self.queues.len() && self.queues[i].user_id == user_id
    }

    /// Whether `user_id` has a queue.
    pub open spec fn has_queue(self, user_id: u64) -> bool {
        exists|i: int| self.is_queue_of(user_id, i)
    }

    /// Where the queue of `user_id` stands.
    pub open spec fn queue_index(self, user_id: u64) -> int {
        choose|i: int| self.is_queue_of(user_id, i)
    }

    /// What `user_id` has queued, oldest first.
    pub open spec fn pending(self, user_id: u64) -> Seq<T> {
        if self.has_queue(user_id) {
            self.queues[self.queue_index(user_id)].entries
        } else {
            Seq::empty()
        }
    }

    /// The state after `user_id` has queued `entries`.
    pub open spec fn push_entries(self, user_id: u64, entries: Seq<T>) -> ModelView<T> {
        if self.has_queue(user_id) {
            let i = self.queue_index(user_id);
            ModelView {
                queues: self.queues.update(
                    i,
                    QueueView { user_id, entries: self.queues[i].entries + entries },
                ),
                ..self
            }
        } else {
            ModelView { queues: self.queues.push(QueueView { user_id, entries }), ..self }
        }
    }

    /// The state after `user_id` has put `entry` in the place of the user's
    /// latest one, and what became of it.
    pub open spec fn replace_entry(self, user_id: u64, channel_id: Option<u64>, entry: T) -> (
        ModelView<T>,
        ReplaceStatus<T>,
    ) {
        let pending = self.pending(user_id);
        if pending.len() > 0 {
            let i = self.queue_index(user_id);
            (
                ModelView {
                    queues: self.queues.update(
                        i,
                        QueueView { user_id, entries: pending.update(pending.len() - 1, entry) },
                    ),
                    ..self
                },
                ReplaceStatus::ReplacedInQueue(pending.last()),
            )
        } else if channel_id is Some && self.channel(channel_id->0).playing == Some(user_id) {
            (self.push_entries(user_id, seq![entry]), ReplaceStatus::ReplacedCurrent(channel_id->0))
        } else {
            (self.push_entries(user_id, seq![entry]), ReplaceStatus::Queued)
        }
    }

    /// Whether the queue at `i` can serve `channel_id`: it is not empty, and
    /// its user is in that channel.
    pub open spec fn serves(self, voice: Map<u64, u64>, channel_id: u64, i: int) -> bool {
        &&& 0 <= i < self.queues.len()
        &&& self.queues[i].entries.len() > 0
        &&& voice_channel(voice, self.queues[i].user_id) == Some(channel_id)
    }

    /// How many queues `channel_id` asks before it asks the queue at `i`:
    /// it asks from its cursor on to the last queue, then from the first
    /// queue on.
    pub open spec fn turn_of(self, channel_id: u64, i: int) -> int {
        let cursor = self.channel(channel_id).cursor as int;
        if i >= cursor {
            i - cursor
        } else {
            i + self.queues.len() - cursor
        }
    }

    /// Whether the queue at `i` is the first that can serve `channel_id`,
    /// of the queues in the order in which the channel asks them.
    pub open spec fn serves_first(self, voice: Map<u64, u64>, channel_id: u64, i: int) -> bool {
        &&& self.serves(voice, channel_id, i)
        &&& forall|j: int|
            0 <= j < self.queues.len() && self.turn_of(channel_id, j) < self.turn_of(channel_id, i)
                ==> !self.serves(voice, channel_id, j)
    }

    /// Whether any queue can serve `channel_id`.
    pub open spec fn has_next(self, voice: Map<u64, u64>, channel_id: u64) -> bool {
        exists|i: int| self.serves_first(voice, channel_id, i)
    }

    /// The first queue that can serve `channel_id`.
    pub open spec fn next_index(self, voice: Map<u64, u64>, channel_id: u64) -> int {
        choose|i: int| self.serves_first(voice, channel_id, i)
    }

    /// The queues after the queue at `i` has given its oldest entry.
    pub open spec fn served(self, i: int) -> Seq<QueueView<T>> {
        self.queues.update(
            i,
            QueueView {
                user_id: self.queues[i].user_id,
                entries: self.queues[i].entries.drop_first(),
            },
        )
    }

    /// The state after `channel_id` has finished what it played and asked for
    /// its next entry, and that entry. Whether the channel was playing is not
    /// asked. The first queue that can serve the channel gives its oldest
    /// entry: the channel then plays it, is no longer stopped and has no
    /// votes, and its cursor stands behind that queue. Where no queue can
    /// serve it, the channel plays nothing.
    pub open spec fn next_channel_entry_finished(self, voice: Map<u64, u64>, channel_id: u64) -> (
        ModelView<T>,
        Option<T>,
    ) {
        if self.has_next(voice, channel_id) {
            let i = self.next_index(voice, channel_id);
            (
                ModelView {
                    queues: self.served(i),
                    channels: self.channels.insert(
                        channel_id,
                        ChannelView::started(self.queues[i].user_id, (i + 1) as nat),
                    ),
                    ..self
                },
                Some(self.queues[i].entries[0]),
            )
        } else if self.is_active(channel_id) {
            (
                ModelView {
                    channels: self.channels.insert(
                        channel_id,
                        ChannelView {
                            playing: None,
                            skip_votes: Set::empty(),
                            stop_votes: Set::empty(),
                            ..self.channel(channel_id)
                        },
                    ),
                    ..self
                },
                None,
            )
        } else {
            (self, None)
        }
    }

    /// The state after `channel_id` has asked for an entry to play, and what
    /// it got. A channel that is playing gets nothing and nothing changes.
    pub open spec fn next_channel_entry(self, voice: Map<u64, u64>, channel_id: u64) -> (
        ModelView<T>,
        NextEntry<T>,
    ) {
        if self.is_active(channel_id) {
            (self, NextEntry::AlreadyPlaying)
        } else {
            let (next, entry) = self.next_channel_entry_finished(voice, channel_id);
            match entry {
                Some(entry) => (next, NextEntry::Entry(entry)),
                None => (next, NextEntry::NoneAvailable),
            }
        }
    }

    /// The state after `channel_id` was stopped: it plays nothing and has no
    /// votes. Its cursor stays where it is.
    pub open spec fn set_channel_stopped(self, channel_id: u64) -> ModelView<T> {
        ModelView {
            channels: self.channels.insert(
                channel_id,
                ChannelView::halted(self.channel(channel_id).cursor),
            ),
            ..self
        }
    }

    /// The number of votes that carries a motion in `channel_id`.
    pub open spec fn votes_needed(self, voice: Map<u64, u64>, channel_id: u64) -> nat {
        self.policy.spec_threshold(occupancy(voice, channel_id))
    }

    /// The state after `voter` has voted in `channel_id`, and what became of the vote.
    pub open spec fn vote_for_skip(
        self,
        voice: Map<u64, u64>,
        vote_type: VoteType,
        channel_id: u64,
        voter: u64,
    ) -> (ModelView<T>, VoteStatus) {
        let channel = self.channel(channel_id);
        if channel.playing is None {
            (self, VoteStatus::NothingPlaying)
        } else {
            let (votes, status) = tally(
                channel.votes(vote_type),
                voter,
                self.votes_needed(voice, channel_id),
            );
            (
                ModelView {
                    channels: self.channels.insert(channel_id, channel.with_votes(vote_type, votes)),
                    ..self
                },
                status,
            )
        }
    }
}

/// The queue of one user, oldest entry first.
struct UserQueue<T> {
    user_id: u64,
    entries: Vec<T>,
}

impl<T> View for UserQueue<T> {
    type V = QueueView<T>;

    closed spec fn view(&self) -> QueueView<T> {
        QueueView { user_id: self.user_id, entries: self.entries@ }
    }
}

/// The state of one channel.
struct ChannelState {
    playing: Option<u64>,
    stopped: bool,
    skip_votes: VoteTracker,
    stop_votes: VoteTracker,
    cursor: usize,
}

impl View for ChannelState {
    type V = ChannelView;

    closed spec fn view(&self) -> ChannelView {
        ChannelView {
            playing: self.playing,
            stopped: self.stopped,
            skip_votes: self.skip_votes@,
            stop_votes: self.stop_votes@,
            cursor: self.cursor as nat,
        }
    }
}

impl ChannelState {
    spec fn wf(&self) -> bool {
        self.skip_votes.wf() && self.stop_votes.wf()
    }

    fn started(user_id: u64, cursor: usize) -> (state: ChannelState)
        ensures
            state.wf(),
            state@ == ChannelView::started(user_id, cursor as nat),
    {
        ChannelState {
            playing: Some(user_id),
            stopped: false,
            skip_votes: VoteTracker::new(),
            stop_votes: VoteTracker::new(),
            cursor,
        }
    }

    fn halted(cursor: usize) -> (state: ChannelState)
        ensures
            state.wf(),
            state@ == ChannelView::halted(cursor as nat),
    {
        ChannelState {
            playing: None,
            stopped: true,
            skip_votes: VoteTracker::new(),
            stop_votes: VoteTracker::new(),
            cursor,
        }
    }
}

/// The queues and votes of one guild. The view is the state as a
/// [`ModelView`].
pub struct GuildModel<T> {
    policy: ThresholdPolicy,
    message_channel: Option<u64>,
    queues: Vec<UserQueue<T>>,
    channels: HashMap<u64, ChannelState>,
}

impl<T> View for GuildModel<T> {
    type V = ModelView<T>;

    closed spec fn view(&self) -> ModelView<T> {
        ModelView {
            policy: self.policy,
            message_channel: self.message_channel,
            queues: Seq::new(self.queues@.len(), |i: int| self.queues@[i]@),
            channels: Map::new(
                |channel_id: u64| self.channels@.contains_key(channel_id),
                |channel_id: u64| self.channels@[channel_id]@,
            ),
        }
    }
}

impl<T> GuildModel<T> {
    /// The state is well formed.
    pub closed spec fn wf(&self) -> bool {
        &&& self@.wf()
        &&& forall|channel_id: u64| #[trigger]
            self.channels@.contains_key(channel_id) ==> self.channels@[channel_id].wf()
    }

    /// What `wf` says of the view.
    pub proof fn lemma_wf_view(&self)
        requires
            self.wf(),
        ensures
            self@.wf(),
    {
    }

    /// A guild with no queues, in which every channel is idle.
    pub fn new(policy: ThresholdPolicy) -> (model: GuildModel<T>)
        ensures
            model.wf(),
            model@ == ModelView::<T>::empty(policy),
    {
        let model = GuildModel {
            policy,
            message_channel: None,
            queues: Vec::new(),
            channels: HashMap::new(),
        };
        assert(model@ =~= ModelView::<T>::empty(policy));
        model
    }

    /// Sets where messages that answer no command are sent. The last call counts.
    pub fn set_message_channel(&mut self, message_channel: Option<u64>)
        requires
            old(self).wf(),
        ensures
            final(self).wf(),
            final(self)@ == (ModelView { message_channel, ..old(self)@ }),
    {
        self.message_channel = message_channel;
    }

    /// Where messages that answer no command are sent.
    pub fn message_channel(&self) -> (message_channel: Option<u64>)
        ensures
            message_channel == self@.message_channel,
    {
        self.message_channel
    }

    /// Marks `channel_id` as stopped: nothing plays there, and nothing is
    /// started when a playback ends, until an entry is asked for again.
    pub fn set_channel_stopped(&mut self, channel_id: u64)
        requires
            old(self).wf(),
        ensures
            final(self).wf(),
            final(self)@ == old(self)@.set_channel_stopped(channel_id),
    {
        let cursor = self.cursor_of(channel_id);
        self.channels.insert(channel_id, ChannelState::halted(cursor));
        assert(self@ =~= old(self)@.set_channel_stopped(channel_id));
    }

    /// Where `channel_id` asks first for its next entry.
    fn cursor_of(&self, channel_id: u64) -> (cursor: usize)
        ensures
            cursor == self@.channel(channel_id).cursor,
    {
        match self.channels.get(&channel_id) {
            Some(state) => state.cursor,
            None => 0,
        }
    }

    /// Whether `channel_id` was stopped and nothing has been started since.
    pub fn is_channel_stopped(&self, channel_id: u64) -> (stopped: bool)
        ensures
            stopped == self@.is_stopped(channel_id),
    {
        match self.channels.get(&channel_id) {
            Some(state) => state.stopped,
            None => false,
        }
    }

    /// Whether an entry is playing in `channel_id`.
    pub fn is_channel_active(&self, channel_id: u64) -> (active: bool)
        ensures
            active == self@.is_active(channel_id),
    {
        match self.channels.get(&channel_id) {
            Some(state) => state.playing.is_some(),
            None => false,
        }
    }
}

impl<T> ModelView<T> {
    /// In a well-formed state the queue of a user is found where it stands.
    pub proof fn lemma_queue_index(self, user_id: u64, i: int)
        requires
            self.wf(),
            self.is_queue_of(user_id, i),
        ensures
            self.has_queue(user_id),
            self.queue_index(user_id) == i,
    {
        let k = self.queue_index(user_id);
        assert(self.is_queue_of(user_id, k));
        if k < i {
            assert(self.queues[k].user_id != self.queues[i].user_id);
        } else if i < k {
            assert(self.queues[i].user_id != self.queues[k].user_id);
        }
    }

    /// The first queue that can serve a channel is the one `next_index` names.
    pub proof fn lemma_next_index(self, voice: Map<u64, u64>, channel_id: u64, i: int)
        requires
            self.serves_first(voice, channel_id, i),
        ensures
            self.has_next(voice, channel_id),
            self.next_index(voice, channel_id) == i,
    {
        let k = self.next_index(voice, channel_id);
        assert(self.serves_first(voice, channel_id, k));
        if k != i {
            if self.turn_of(channel_id, k) < self.turn_of(channel_id, i) {
                assert(!self.serves(voice, channel_id, k));
            } else {
                assert(self.turn_of(channel_id, i) < self.turn_of(channel_id, k));
                assert(!self.serves(voice, channel_id, i));
            }
        }
    }
}

impl<T> GuildModel<T> {
    /// Where the queue of `user_id` stands, if the user has one.
    fn find_queue(&self, user_id: u64) -> (found: Option<usize>)
        requires
            self.wf(),
        ensures
            match found {
                Some(i) => self@.is_queue_of(user_id, i as int),
                None => !self@.has_queue(user_id),
            },
    {
        let n = self.queues.len();
        let mut i: usize = 0;
        while i < n
            invariant
                i <= n,
                n == self.queues@.len(),
                forall|k: int| 0 <= k < i ==> !self@.is_queue_of(user_id, k),
            decreases n - i,
        {
            if self.queues[i].user_id == user_id {
                return Some(i);
            }
            i += 1;
        }
        None
    }

    /// Queues `entries` for `user_id`, behind what the user has queued already.
    /// A user without a queue gets one, which stands last.
    pub fn push_entries(&mut self, user_id: u64, entries: Vec<T>)
        requires
            old(self).wf(),
        ensures
            final(self).wf(),
            final(self)@ == old(self)@.push_entries(user_id, entries@),
    {
        let ghost queued = entries@;
        let mut entries = entries;
        match self.find_queue(user_id) {
            Some(i) => {
                proof {
                    self@.lemma_queue_index(user_id, i as int);
                }
                let mut queue = self.queues.remove(i);
                queue.entries.append(&mut entries);
                self.queues.insert(i, queue);
                assert(self@.queues =~= old(self)@.push_entries(user_id, queued).queues);
                assert(self@ =~= old(self)@.push_entries(user_id, queued));
            },
            None => {
                self.queues.push(UserQueue { user_id, entries });
                assert(self@.queues =~= old(self)@.push_entries(user_id, queued).queues);
                assert(self@ =~= old(self)@.push_entries(user_id, queued));
                assert(self@.wf()) by {
                    assert forall|i: int, j: int| 0 <= i < j < self@.queues.len() implies (
                    #[trigger] self@.queues[i]).user_id != (#[trigger] self@.queues[j]).user_id by {
                        if j == self@.queues.len() - 1 {
                            assert(!old(self)@.is_queue_of(user_id, i));
                        } else {
                            assert(old(self)@.queues[i].user_id != old(self)@.queues[j].user_id);
                        }
                    }
                }
            },
        }
    }

    /// Puts `entry` in the place of the latest entry that `user_id` has
    /// queued, and hands that one back. Where the user has nothing queued,
    /// `entry` is queued; where the user's entry is playing in `channel_id`,
    /// the channel has to move on to its next entry, and the status says so.
    pub fn replace_entry(&mut self, user_id: u64, channel_id: Option<u64>, entry: T) -> (status:
        ReplaceStatus<T>)
        requires
            old(self).wf(),
        ensures
            final(self).wf(),
            (final(self)@, status) == old(self)@.replace_entry(user_id, channel_id, entry),
    {
        match self.find_queue(user_id) {
            Some(i) => {
                proof {
                    self@.lemma_queue_index(user_id, i as int);
                }
                if self.queues[i].entries.len() > 0 {
                    let mut queue = self.queues.remove(i);
                    let replaced = queue.entries.pop().unwrap();
                    queue.entries.push(entry);
                    proof {
                        let pending = old(self)@.pending(user_id);
                        assert(queue.entries@ =~= pending.update(pending.len() - 1, entry));
                    }
                    self.queues.insert(i, queue);
                    assert(self@.queues =~= old(self)@.replace_entry(
                        user_id,
                        channel_id,
                        entry,
                    ).0.queues);
                    assert(self@ =~= old(self)@.replace_entry(user_id, channel_id, entry).0);
                    return ReplaceStatus::ReplacedInQueue(replaced);
                }
            },
            None => {},
        }
        let playing_here = match channel_id {
            Some(channel_id) => self.is_playing_for(channel_id, user_id),
            None => false,
        };
        let mut entries: Vec<T> = Vec::new();
        entries.push(entry);
        assert(entries@ =~= seq![entry]);
        self.push_entries(user_id, entries);
        if playing_here {
            ReplaceStatus::ReplacedCurrent(channel_id.unwrap())
        } else {
            ReplaceStatus::Queued
        }
    }

    /// Whether an entry of `user_id` is playing in `channel_id`.
    fn is_playing_for(&self, channel_id: u64, user_id: u64) -> (playing: bool)
        ensures
            playing == (self@.channel(channel_id).playing == Some(user_id)),
    {
        match self.channels.get(&channel_id) {
            Some(state) => match state.playing {
                Some(owner) => owner == user_id,
                None => false,
            },
            None => false,
        }
    }

    /// The first queue that can serve `channel_id`, if any can.
    fn find_next(&self, voice: &VoiceStates, channel_id: u64) -> (found: Option<usize>)
        requires
            self.wf(),
            voice.wf(),
        ensures
            match found {
                Some(i) => self@.serves_first(voice@, channel_id, i as int),
                None => !self@.has_next(voice@, channel_id),
            },
    {
        let n = self.queues.len();
        let cursor = self.cursor_of(channel_id);
        proof {
            if self.channels@.contains_key(channel_id) {
                assert(self@.channels.contains_key(channel_id));
            }
        }
        let mut i: usize = cursor;
        while i < n
            invariant
                cursor <= i <= n,
                n == self.queues@.len(),
                cursor == self@.channel(channel_id).cursor,
                voice.wf(),
                forall|k: int| cursor <= k < i ==> !self@.serves(voice@, channel_id, k),
            decreases n - i,
        {
            if self.queues[i].entries.len() > 0 && voice.is_user_in_voice_channel(
                self.queues[i].user_id,
                channel_id,
            ) {
                return Some(i);
            }
            i += 1;
        }
        i = 0;
        while i < cursor
            invariant
                i <= cursor <= n,
                n == self.queues@.len(),
                cursor == self@.channel(channel_id).cursor,
                voice.wf(),
                forall|k: int| cursor <= k < n ==> !self@.serves(voice@, channel_id, k),
                forall|k: int| 0 <= k < i ==> !self@.serves(voice@, channel_id, k),
            decreases cursor - i,
        {
            if self.queues[i].entries.len() > 0 && voice.is_user_in_voice_channel(
                self.queues[i].user_id,
                channel_id,
            ) {
                return Some(i);
            }
            i += 1;
        }
        assert forall|k: int| !self@.serves_first(voice@, channel_id, k) by {
            if self@.serves(voice@, channel_id, k) {
                assert(0 <= k < n);
            }
        }
        None
    }

    /// Hands out the next entry for `channel_id`, whose playback has ended;
    /// whether the channel counts as playing is not asked. The queues are
    /// asked in turn, from the one behind the queue that served the channel
    /// last, around the end of the queues: the first whose user is in the
    /// channel and has something queued gives its oldest entry. The channel
    /// then plays that entry, is no longer stopped, and has no votes. Where
    /// no queue can serve the channel, it plays nothing from now on.
    pub fn next_channel_entry_finished(&mut self, voice: &VoiceStates, channel_id: u64) -> (entry:
        Option<T>)
        requires
            old(self).wf(),
            voice.wf(),
        ensures
            final(self).wf(),
            (final(self)@, entry) == old(self)@.next_channel_entry_finished(voice@, channel_id),
    {
        match self.find_next(voice, channel_id) {
            Some(i) => {
                proof {
                    self@.lemma_next_index(voice@, channel_id, i as int);
                }
                assert(i < self.queues@.len()) by {
                    assert(self@.serves(voice@, channel_id, i as int));
                }
                let n = self.queues.len();
                assert(i < n);
                let cursor = i + 1;
                let mut queue = self.queues.remove(i);
                let entry = queue.entries.remove(0);
                let user_id = queue.user_id;
                self.queues.insert(i, queue);
                self.channels.insert(channel_id, ChannelState::started(user_id, cursor));
                assert(self@.queues =~= old(self)@.served(i as int));
                assert(self@ =~= old(self)@.next_channel_entry_finished(voice@, channel_id).0);
                proof {
                    old(self)@.lemma_operations_keep_wf(
                        voice@,
                        0,
                        channel_id,
                        None,
                        VoteType::Skip,
                        Seq::empty(),
                        entry,
                    );
                }
                Some(entry)
            },
            None => {
                match self.channels.remove(&channel_id) {
                    Some(state) => {
                        if state.playing.is_some() {
                            self.channels.insert(
                                channel_id,
                                ChannelState {
                                    playing: None,
                                    stopped: state.stopped,
                                    skip_votes: VoteTracker::new(),
                                    stop_votes: VoteTracker::new(),
                                    cursor: state.cursor,
                                },
                            );
                        } else {
                            self.channels.insert(channel_id, state);
                        }
                    },
                    None => {},
                }
                assert(self@ =~= old(self)@.next_channel_entry_finished(voice@, channel_id).0);
                None
            },
        }
    }

    /// Hands out an entry for `channel_id` to play, unless the channel is
    /// playing already: then nothing changes. Otherwise as
    /// [`GuildModel::next_channel_entry_finished`].
    pub fn next_channel_entry(&mut self, voice: &VoiceStates, channel_id: u64) -> (next: NextEntry<
        T,
    >)
        requires
            old(self).wf(),
            voice.wf(),
        ensures
            final(self).wf(),
            (final(self)@, next) == old(self)@.next_channel_entry(voice@, channel_id),
    {
        if self.is_channel_active(channel_id) {
            return NextEntry::AlreadyPlaying;
        }
        match self.next_channel_entry_finished(voice, channel_id) {
            Some(entry) => NextEntry::Entry(entry),
            None => NextEntry::NoneAvailable,
        }
    }

    /// Counts the vote of `voter` on what is playing in `channel_id`. The
    /// number of votes needed follows from the number of users that `voice`
    /// shows in the channel. A vote that carries the motion clears the votes
    /// of its kind.
    pub fn vote_for_skip(
        &mut self,
        voice: &VoiceStates,
        vote_type: VoteType,
        channel_id: u64,
        voter: u64,
    ) -> (status: VoteStatus)
        requires
            old(self).wf(),
            voice.wf(),
        ensures
            final(self).wf(),
            (final(self)@, status) == old(self)@.vote_for_skip(voice@, vote_type, channel_id, voter),
    {
        let needed = self.policy.threshold(voice.channel_occupancy(channel_id));
        match self.channels.remove(&channel_id) {
            Some(state) => {
                let mut state = state;
                let status = if state.playing.is_none() {
                    VoteStatus::NothingPlaying
                } else {
                    match vote_type {
                        VoteType::Skip => state.skip_votes.vote(voter, needed),
                        VoteType::Stop => state.stop_votes.vote(voter, needed),
                    }
                };
                self.channels.insert(channel_id, state);
                assert(self@ =~= old(self)@.vote_for_skip(voice@, vote_type, channel_id, voter).0);
                status
            },
            None => {
                assert(self@ =~= old(self)@);
                VoteStatus::NothingPlaying
            },
        }
    }
}


impl<T> ModelView<T> {
    /// Every operation keeps a well-formed state well formed.
    pub proof fn lemma_operations_keep_wf(
        self,
        voice: Map<u64, u64>,
        user_id: u64,
        channel_id: u64,
        maybe_channel_id: Option<u64>,
        vote_type: VoteType,
        entries: Seq<T>,
        entry: T,
    )
        requires
            self.wf(),
        ensures
            self.push_entries(user_id, entries).wf(),
            self.replace_entry(user_id, maybe_channel_id, entry).0.wf(),
            self.next_channel_entry_finished(voice, channel_id).0.wf(),
            self.next_channel_entry(voice, channel_id).0.wf(),
            self.set_channel_stopped(channel_id).wf(),
            self.vote_for_skip(voice, vote_type, channel_id, user_id).0.wf(),
    {
        self.lemma_push_entries_keeps_wf(user_id, entries);
        self.lemma_push_entries_keeps_wf(user_id, seq![entry]);
        if self.has_queue(user_id) {
            let i = self.queue_index(user_id);
            assert(self.is_queue_of(user_id, i));
        }
        self.lemma_next_keeps_wf(voice, channel_id);
    }

    proof fn lemma_push_entries_keeps_wf(self, user_id: u64, entries: Seq<T>)
        requires
            self.wf(),
        ensures
            self.push_entries(user_id, entries).wf(),
    {
        let after = self.push_entries(user_id, entries);
        if self.has_queue(user_id) {
            let i = self.queue_index(user_id);
            assert(self.is_queue_of(user_id, i));
        } else {
            assert forall|i: int, j: int| 0 <= i < j < after.queues.len() implies (
            #[trigger] after.queues[i]).user_id != (#[trigger] after.queues[j]).user_id by {
                if j == after.queues.len() - 1 {
                    assert(!self.is_queue_of(user_id, i));
                } else {
                    assert(self.queues[i].user_id != self.queues[j].user_id);
                }
            }
        }
    }

    proof fn lemma_next_keeps_wf(self, voice: Map<u64, u64>, channel_id: u64)
        requires
            self.wf(),
        ensures
            self.next_channel_entry_finished(voice, channel_id).0.wf(),
    {
        let next = self.next_channel_entry_finished(voice, channel_id).0;
        if self.has_next(voice, channel_id) {
            let i = self.next_index(voice, channel_id);
            assert(self.serves_first(voice, channel_id, i));
            let before = self.queues;
            let after = self.served(i);
            assert forall|a: int, b: int| 0 <= a < b < after.len() implies (
            #[trigger] after[a]).user_id != (#[trigger] after[b]).user_id by {
                assert(after[a].user_id == before[a].user_id);
                assert(after[b].user_id == before[b].user_id);
            }
        }
        assert forall|other: u64| #[trigger] next.channels.contains_key(other) implies next.channels[other].wf()
            && next.channels[other].cursor <= next.queues.len() by {
            if other != channel_id {
                assert(self.channels.contains_key(other));
            } else if self.channels.contains_key(channel_id) {
                assert(self.channels[channel_id].cursor <= self.queues.len());
            }
        }
    }

    /// A channel that was handed an entry is playing: until its playback
    /// ends, it is handed no second one, whoever is in the channel by then.
    pub proof fn lemma_one_entry_at_a_time(
        self,
        voice: Map<u64, u64>,
        later_voice: Map<u64, u64>,
        channel_id: u64,
    )
        requires
            self.wf(),
            self.next_channel_entry(voice, channel_id).1 is Entry,
        ensures
            ({
                let started = self.next_channel_entry(voice, channel_id).0;
                &&& started.is_active(channel_id)
                &&& started.next_channel_entry(later_voice, channel_id) == (
                    started,
                    NextEntry::<T>::AlreadyPlaying,
                )
            }),
    {
    }

    /// A voter whose vote was counted and did not carry the motion has voted:
    /// the same vote again is not counted, however many users the channel
    /// holds by then.
    pub proof fn lemma_vote_counts_once(
        self,
        voice: Map<u64, u64>,
        later_voice: Map<u64, u64>,
        vote_type: VoteType,
        channel_id: u64,
        voter: u64,
    )
        requires
            self.wf(),
            self.vote_for_skip(voice, vote_type, channel_id, voter).1 is NeedsMoreVotes,
        ensures
            ({
                let counted = self.vote_for_skip(voice, vote_type, channel_id, voter).0;
                &&& counted.channel(channel_id).votes(vote_type).contains(voter)
                &&& counted.vote_for_skip(later_voice, vote_type, channel_id, voter) == (
                    counted,
                    VoteStatus::AlreadyVoted,
                )
            }),
    {
        let counted = self.vote_for_skip(voice, vote_type, channel_id, voter).0;
        let again = counted.vote_for_skip(later_voice, vote_type, channel_id, voter).0;
        assert(again.channels =~= counted.channels);
    }

    /// Whoever has voted in a channel that is playing is told so on voting
    /// again, and nothing changes.
    pub proof fn lemma_voted_is_already_voted(
        self,
        voice: Map<u64, u64>,
        vote_type: VoteType,
        channel_id: u64,
        voter: u64,
    )
        requires
            self.wf(),
            self.is_active(channel_id),
            self.channel(channel_id).votes(vote_type).contains(voter),
        ensures
            self.vote_for_skip(voice, vote_type, channel_id, voter) == (
                self,
                VoteStatus::AlreadyVoted,
            ),
    {
        let again = self.vote_for_skip(voice, vote_type, channel_id, voter).0;
        assert(again.channels =~= self.channels);
    }

    /// The vote of another voter, of either kind and in any channel, leaves a
    /// voter's vote in place, unless it carries the very motion that the
    /// voter voted for.
    pub proof fn lemma_other_votes_keep_vote(
        self,
        voice: Map<u64, u64>,
        vote_type: VoteType,
        channel_id: u64,
        voter: u64,
        other_type: VoteType,
        other_channel_id: u64,
        other_voter: u64,
    )
        requires
            self.wf(),
            self.is_active(channel_id),
            self.channel(channel_id).votes(vote_type).contains(voter),
            !(other_type == vote_type && other_channel_id == channel_id && self.vote_for_skip(
                voice,
                other_type,
                other_channel_id,
                other_voter,
            ).1 is Success),
        ensures
            ({
                let after = self.vote_for_skip(voice, other_type, other_channel_id, other_voter).0;
                &&& after.is_active(channel_id)
                &&& after.channel(channel_id).votes(vote_type).contains(voter)
            }),
    {
    }

    /// A vote that carries its motion clears the votes of its kind in the channel.
    pub proof fn lemma_success_clears_votes(
        self,
        voice: Map<u64, u64>,
        vote_type: VoteType,
        channel_id: u64,
        voter: u64,
    )
        requires
            self.wf(),
            self.vote_for_skip(voice, vote_type, channel_id, voter).1 is Success,
        ensures
            self.vote_for_skip(voice, vote_type, channel_id, voter).0.channel(channel_id).votes(
                vote_type,
            ) == Set::<u64>::empty(),
    {
    }

    /// What a user has queued after queueing `entries`: what was queued
    /// before, then `entries`.
    pub proof fn lemma_pending_after_push(self, user_id: u64, entries: Seq<T>)
        requires
            self.wf(),
        ensures
            self.push_entries(user_id, entries).pending(user_id) == self.pending(user_id)
                + entries,
    {
        let after = self.push_entries(user_id, entries);
        if self.has_queue(user_id) {
            let i = self.queue_index(user_id);
            assert(self.is_queue_of(user_id, i));
            assert(after.is_queue_of(user_id, i));
            self.lemma_push_entries_keeps_wf(user_id, entries);
            after.lemma_queue_index(user_id, i);
        } else {
            let i = self.queues.len() as int;
            assert(after.is_queue_of(user_id, i));
            self.lemma_push_entries_keeps_wf(user_id, entries);
            after.lemma_queue_index(user_id, i);
            assert(Seq::<T>::empty() + entries =~= entries);
        }
    }

    /// Replacing the only entry that a user has queued hands back that very
    /// entry, and the new one stands in its place.
    pub proof fn lemma_replace_only_queued(
        self,
        user_id: u64,
        channel_id: Option<u64>,
        queued: T,
        entry: T,
    )
        requires
            self.wf(),
            self.pending(user_id) == seq![queued],
        ensures
            self.replace_entry(user_id, channel_id, entry).1 == ReplaceStatus::ReplacedInQueue(
                queued,
            ),
            self.replace_entry(user_id, channel_id, entry).0.pending(user_id) == seq![entry],
    {
        let after = self.replace_entry(user_id, channel_id, entry).0;
        assert(self.has_queue(user_id));
        let i = self.queue_index(user_id);
        assert(self.is_queue_of(user_id, i));
        assert(after.is_queue_of(user_id, i));
        self.lemma_operations_keep_wf(
            Map::empty(),
            user_id,
            0,
            channel_id,
            VoteType::Skip,
            Seq::empty(),
            entry,
        );
        after.lemma_queue_index(user_id, i);
        assert(after.pending(user_id) =~= seq![entry]);
    }

    /// Replacing when nothing is queued, while an entry of the user is
    /// playing in the user's channel, queues the new entry and names that channel.
    pub proof fn lemma_replace_playing(self, user_id: u64, channel_id: u64, entry: T)
        requires
            self.wf(),
            self.pending(user_id).len() == 0,
            self.channel(channel_id).playing == Some(user_id),
        ensures
            self.replace_entry(user_id, Some(channel_id), entry).1
                == ReplaceStatus::<T>::ReplacedCurrent(channel_id),
            self.replace_entry(user_id, Some(channel_id), entry).0.pending(user_id) == seq![entry],
            self.replace_entry(user_id, Some(channel_id), entry).0.channels == self.channels,
    {
        self.lemma_pending_after_push(user_id, seq![entry]);
        assert(self.pending(user_id) + seq![entry] =~= seq![entry]);
    }

    /// Replacing when nothing is queued and nothing of the user is playing in
    /// the user's channel, or the user is in none, queues the new entry.
    pub proof fn lemma_replace_nothing(self, user_id: u64, channel_id: Option<u64>, entry: T)
        requires
            self.wf(),
            self.pending(user_id).len() == 0,
            channel_id is Some ==> self.channel(channel_id->0).playing != Some(user_id),
        ensures
            self.replace_entry(user_id, channel_id, entry).1 == ReplaceStatus::<T>::Queued,
            self.replace_entry(user_id, channel_id, entry).0.pending(user_id) == seq![entry],
            self.replace_entry(user_id, channel_id, entry).0.channels == self.channels,
    {
        self.lemma_pending_after_push(user_id, seq![entry]);
        assert(self.pending(user_id) + seq![entry] =~= seq![entry]);
    }

    /// A stopped channel is stopped and plays nothing; it stays stopped until
    /// it is handed an entry, and is no longer stopped once it is.
    pub proof fn lemma_stopped_until_started(self, voice: Map<u64, u64>, channel_id: u64)
        requires
            self.wf(),
        ensures
            self.set_channel_stopped(channel_id).is_stopped(channel_id),
            !self.set_channel_stopped(channel_id).is_active(channel_id),
            self.set_channel_stopped(channel_id).queues == self.queues,
            ({
                let (next, entry) = self.next_channel_entry_finished(voice, channel_id);
                next.is_stopped(channel_id) == (entry is None && self.is_stopped(channel_id))
            }),
            ({
                let (next, entry) = self.next_channel_entry(voice, channel_id);
                next.is_stopped(channel_id) == (!(entry is Entry) && self.is_stopped(channel_id))
            }),
    {
    }
}


} // verus!
