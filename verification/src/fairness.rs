//! Fairness of the queues: the users of a channel are served in turns.

use crate::model::{ModelView, QueueView};
use crate::voice::voice_channel;
use crate::vote::VoteType;
use vstd::prelude::*;

verus! {

/// The state after a channel has asked `turns` times for its next entry, its
/// playback having ended each time.
pub open spec fn after_turns<T>(
    model: ModelView<T>,
    voice: Map<u64, u64>,
    channel_id: u64,
    turns: nat,
) -> ModelView<T>
    decreases turns,
{
    if turns == 0 {
        model
    } else {
        after_turns(model, voice, channel_id, (turns - 1) as nat).next_channel_entry_finished(
            voice,
            channel_id,
        ).0
    }
}

/// The entry that a channel is handed when it asks after `turns` earlier turns.
pub open spec fn entry_of_turn<T>(
    model: ModelView<T>,
    voice: Map<u64, u64>,
    channel_id: u64,
    turns: nat,
) -> Option<T> {
    after_turns(model, voice, channel_id, turns).next_channel_entry_finished(voice, channel_id).1
}

/// Whether every user with a queue is in `channel_id` and has `each` entries queued.
pub open spec fn all_queued<T>(
    model: ModelView<T>,
    voice: Map<u64, u64>,
    channel_id: u64,
    each: nat,
) -> bool {
    forall|i: int|
        0 <= i < model.queues.len() ==> voice_channel(voice, (#[trigger] model.queues[i]).user_id)
            == Some(channel_id) && model.queues[i].entries.len() == each
}

/// Whether `later` keeps the turn of `channel_id` as it is in `earlier`: the
/// cursor of the channel stands where it stood, and every queue stands where
/// it stood.
pub open spec fn keeps_turn<T>(earlier: ModelView<T>, later: ModelView<T>, channel_id: u64) -> bool {
    &&& later.channel(channel_id).cursor == earlier.channel(channel_id).cursor
    &&& earlier.queues.len() <= later.queues.len()
    &&& forall|i: int|
        0 <= i < earlier.queues.len() ==> (#[trigger] later.queues[i]).user_id
            == earlier.queues[i].user_id
}

impl<T> ModelView<T> {
    /// Whatever happens in a guild keeps the turn of a channel, but for
    /// handing an entry to that very channel: queueing and replacing, votes
    /// and stops in any channel, and entries handed to other channels.
    pub proof fn lemma_operations_keep_turn(
        self,
        voice: Map<u64, u64>,
        channel_id: u64,
        user_id: u64,
        other_channel_id: u64,
        maybe_channel_id: Option<u64>,
        vote_type: VoteType,
        entries: Seq<T>,
        entry: T,
    )
        requires
            self.wf(),
        ensures
            keeps_turn(self, self.push_entries(user_id, entries), channel_id),
            keeps_turn(self, self.replace_entry(user_id, maybe_channel_id, entry).0, channel_id),
            keeps_turn(self, self.set_channel_stopped(other_channel_id), channel_id),
            keeps_turn(
                self,
                self.vote_for_skip(voice, vote_type, other_channel_id, user_id).0,
                channel_id,
            ),
            other_channel_id != channel_id || !self.has_next(voice, channel_id) ==> keeps_turn(
                self,
                self.next_channel_entry_finished(voice, other_channel_id).0,
                channel_id,
            ),
            other_channel_id != channel_id || !(self.next_channel_entry(voice, channel_id).1
                is Entry) ==> keeps_turn(
                self,
                self.next_channel_entry(voice, other_channel_id).0,
                channel_id,
            ),
    {
        if self.has_queue(user_id) {
            let i = self.queue_index(user_id);
            assert(self.is_queue_of(user_id, i));
        }
        if self.has_next(voice, other_channel_id) {
            let i = self.next_index(voice, other_channel_id);
            assert(self.serves_first(voice, other_channel_id, i));
        }
    }
}

/// Where some queue can serve a channel, one is the first to do so, and the
/// channel asks it no later than that queue.
pub proof fn lemma_first_serving_queue<T>(
    model: ModelView<T>,
    voice: Map<u64, u64>,
    channel_id: u64,
    i: int,
)
    requires
        model.channel(channel_id).cursor <= model.queues.len(),
        model.serves(voice, channel_id, i),
    ensures
        model.has_next(voice, channel_id),
        model.serves_first(voice, channel_id, model.next_index(voice, channel_id)),
        model.turn_of(channel_id, model.next_index(voice, channel_id)) <= model.turn_of(
            channel_id,
            i,
        ),
    decreases model.turn_of(channel_id, i),
{
    if exists|j: int|
        0 <= j < model.queues.len() && model.turn_of(channel_id, j) < model.turn_of(channel_id, i)
            && model.serves(voice, channel_id, j) {
        let j = choose|j: int|
            0 <= j < model.queues.len() && model.turn_of(channel_id, j) < model.turn_of(
                channel_id,
                i,
            ) && model.serves(voice, channel_id, j);
        lemma_first_serving_queue(model, voice, channel_id, j);
    } else {
        assert(model.serves_first(voice, channel_id, i));
        model.lemma_next_index(voice, channel_id, i);
    }
}

/// No user is served twice in a row while another user of the channel has
/// something queued. After an entry of one user was handed to a channel, and
/// whatever was queued, replaced, voted, stopped or handed to other channels
/// since, the next entry for the channel is that of another user, if by then
/// any other user in the channel has an entry queued.
pub proof fn lemma_turns_alternate<T>(
    model: ModelView<T>,
    voice: Map<u64, u64>,
    later: ModelView<T>,
    later_voice: Map<u64, u64>,
    channel_id: u64,
    waiting: int,
)
    requires
        model.wf(),
        later.wf(),
        model.has_next(voice, channel_id),
        keeps_turn(model.next_channel_entry_finished(voice, channel_id).0, later, channel_id),
        later.serves(later_voice, channel_id, waiting),
        later.queues[waiting].user_id != model.queues[model.next_index(voice, channel_id)].user_id,
    ensures
        later.has_next(later_voice, channel_id),
        later.queues[later.next_index(later_voice, channel_id)].user_id
            != model.queues[model.next_index(voice, channel_id)].user_id,
        later.next_channel_entry_finished(later_voice, channel_id).1 == Some(
            later.queues[later.next_index(later_voice, channel_id)].entries[0],
        ),
{
    let i = model.next_index(voice, channel_id);
    assert(model.serves_first(voice, channel_id, i));
    let served = model.next_channel_entry_finished(voice, channel_id).0;
    assert(served.channel(channel_id).cursor == i + 1);
    assert(later.queues[i].user_id == model.queues[i].user_id);
    assert(later.channel(channel_id).cursor <= later.queues.len()) by {
        if later.channels.contains_key(channel_id) {
            assert(later.channels[channel_id].cursor <= later.queues.len());
        }
    }
    lemma_first_serving_queue(later, later_voice, channel_id, waiting);
    let k = later.next_index(later_voice, channel_id);
    assert(later.serves(later_voice, channel_id, k));
    assert(waiting != i);
    assert(later.turn_of(channel_id, i) == later.queues.len() - 1);
    assert(later.turn_of(channel_id, waiting) < later.queues.len() - 1);
    assert(k != i);
    if k < i {
        assert(later.queues[k].user_id != later.queues[i].user_id);
    } else {
        assert(later.queues[i].user_id != later.queues[k].user_id);
    }
}

/// The queues after `round` whole rounds and `turn` more turns, when every
/// queue is served in its turn: the queues before `turn` have given one
/// entry more than `round`, the others `round`.
spec fn progressed<T>(model: ModelView<T>, round: nat, turn: nat) -> Seq<QueueView<T>> {
    Seq::new(
        model.queues.len(),
        |i: int|
            QueueView {
                user_id: model.queues[i].user_id,
                entries: model.queues[i].entries.skip(
                    if i < turn {
                        round as int + 1
                    } else {
                        round as int
                    },
                ),
            },
    )
}

/// Whether the cursor of the channel stands at `turn`, or, before the first
/// turn of a round, at the end of the queues.
spec fn cursor_at<T>(state: ModelView<T>, channel_id: u64, turn: nat) -> bool {
    let cursor = state.channel(channel_id).cursor;
    cursor == turn || (turn == 0 && cursor == state.queues.len())
}

/// The queues at the start are those after no round.
proof fn lemma_progressed_start<T>(model: ModelView<T>)
    ensures
        progressed(model, 0, 0) == model.queues,
{
    assert forall|i: int| 0 <= i < model.queues.len() implies progressed(model, 0, 0)[i]
        == model.queues[i] by {
        assert(model.queues[i].entries.skip(0) =~= model.queues[i].entries);
    }
    assert(progressed(model, 0, 0) =~= model.queues);
}

/// The queues after the last turn of a round are those at the start of the next.
proof fn lemma_progressed_round<T>(model: ModelView<T>, round: nat)
    ensures
        progressed(model, round, model.queues.len()) == progressed(model, round + 1, 0),
{
    assert(progressed(model, round, model.queues.len()) =~= progressed(model, round + 1, 0));
}

/// One turn: the queue whose turn it is gives its oldest entry.
proof fn lemma_progressed_step<T>(
    model: ModelView<T>,
    state: ModelView<T>,
    voice: Map<u64, u64>,
    channel_id: u64,
    each: nat,
    round: nat,
    turn: nat,
)
    requires
        state.wf(),
        all_queued(model, voice, channel_id, each),
        round < each,
        turn < model.queues.len(),
        state.queues == progressed(model, round, turn),
        cursor_at(state, channel_id, turn),
    ensures
        state.next_channel_entry_finished(voice, channel_id).1 == Some(
            model.queues[turn as int].entries[round as int],
        ),
        state.next_channel_entry_finished(voice, channel_id).0.wf(),
        state.next_channel_entry_finished(voice, channel_id).0.queues == progressed(
            model,
            round,
            turn + 1,
        ),
        state.next_channel_entry_finished(voice, channel_id).0.channel(channel_id).cursor == turn
            + 1,
{
    let n = model.queues.len();
    let asked = state.queues[turn as int];
    assert(asked.user_id == model.queues[turn as int].user_id);
    assert(asked.entries == model.queues[turn as int].entries.skip(round as int));
    assert(model.queues[turn as int].entries.len() == each);
    assert(asked.entries.len() > 0);
    assert(state.serves(voice, channel_id, turn as int));
    assert(state.turn_of(channel_id, turn as int) == 0);
    assert forall|j: int| 0 <= j < n implies state.turn_of(channel_id, j) >= 0 by {}
    assert(state.serves_first(voice, channel_id, turn as int));
    state.lemma_next_index(voice, channel_id, turn as int);
    state.lemma_operations_keep_wf(
        voice,
        0,
        channel_id,
        None,
        VoteType::Skip,
        Seq::empty(),
        arbitrary(),
    );
    let next = state.next_channel_entry_finished(voice, channel_id).0;
    assert(next.queues == state.served(turn as int));
    let target = progressed(model, round, turn + 1);
    assert forall|i: int| 0 <= i < n implies next.queues[i] == target[i] by {
        if i == turn {
            assert(next.queues[i].entries == asked.entries.drop_first());
            assert(model.queues[i].entries.skip(round as int).drop_first()
                =~= model.queues[i].entries.skip(round as int + 1));
        } else {
            assert(next.queues[i] == state.queues[i]);
        }
    }
    assert(next.queues =~= target);
}

/// The state before turn `turn` of round `round`, and the entry of that turn.
proof fn lemma_progressed_turn<T>(
    model: ModelView<T>,
    voice: Map<u64, u64>,
    channel_id: u64,
    each: nat,
    round: nat,
    turn: nat,
)
    requires
        model.wf(),
        model.channel(channel_id).cursor == 0,
        all_queued(model, voice, channel_id, each),
        round < each,
        turn < model.queues.len(),
    ensures
        entry_of_turn(model, voice, channel_id, round * model.queues.len() + turn) == Some(
            model.queues[turn as int].entries[round as int],
        ),
        after_turns(model, voice, channel_id, round * model.queues.len() + turn + 1).wf(),
        after_turns(model, voice, channel_id, round * model.queues.len() + turn + 1).queues
            == progressed(model, round, turn + 1),
        after_turns(model, voice, channel_id, round * model.queues.len() + turn + 1).channel(
            channel_id,
        ).cursor == turn + 1,
    decreases round, turn,
{
    let n = model.queues.len();
    let turns = round * n + turn;
    let state = after_turns(model, voice, channel_id, turns);
    if turn > 0 {
        lemma_progressed_turn(model, voice, channel_id, each, round, (turn - 1) as nat);
    } else if round > 0 {
        lemma_progressed_turn(model, voice, channel_id, each, (round - 1) as nat, (n - 1) as nat);
        assert((round - 1) * n + (n - 1) + 1 == round * n) by (nonlinear_arith);
        lemma_progressed_round(model, (round - 1) as nat);
        assert(state.queues.len() == n);
    } else {
        assert(round * n == 0) by (nonlinear_arith)
            requires
                round == 0,
        ;
        lemma_progressed_start(model);
    }
    assert(state.wf());
    assert(state.queues == progressed(model, round, turn));
    assert(cursor_at(state, channel_id, turn));
    lemma_progressed_step(model, state, voice, channel_id, each, round, turn);
    assert(after_turns(model, voice, channel_id, turns + 1) == state.next_channel_entry_finished(
        voice,
        channel_id,
    ).0);
}

/// The users of a channel are served in rounds. Where every user with a queue
/// is in the channel and has `each` entries queued, and the channel has not
/// been served yet, the channel is handed, in round `round`, entry `round` of
/// the first user, then of the second, and so on to the last; turn `turn` of
/// round `round` is the channel's turn number `round * users + turn`. After
/// `each` rounds the channel is handed nothing.
pub proof fn lemma_round_robin<T>(
    model: ModelView<T>,
    voice: Map<u64, u64>,
    channel_id: u64,
    each: nat,
)
    requires
        model.wf(),
        model.channel(channel_id).cursor == 0,
        all_queued(model, voice, channel_id, each),
    ensures
        forall|round: nat, turn: nat|
            round < each && turn < model.queues.len() ==> #[trigger] entry_of_turn(
                model,
                voice,
                channel_id,
                round * model.queues.len() + turn,
            ) == Some(model.queues[turn as int].entries[round as int]),
        entry_of_turn(model, voice, channel_id, each * model.queues.len()) == None::<T>,
{
    let n = model.queues.len();
    assert forall|round: nat, turn: nat| round < each && turn < n implies #[trigger] entry_of_turn(
        model,
        voice,
        channel_id,
        round * n + turn,
    ) == Some(model.queues[turn as int].entries[round as int]) by {
        lemma_progressed_turn(model, voice, channel_id, each, round, turn);
    }
    let done = after_turns(model, voice, channel_id, each * n);
    if n == 0 || each == 0 {
        assert(each * n == 0) by (nonlinear_arith)
            requires
                n == 0 || each == 0,
        ;
        assert(done == model);
        assert forall|i: int| !model.serves_first(voice, channel_id, i) by {}
    } else {
        lemma_progressed_turn(model, voice, channel_id, each, (each - 1) as nat, (n - 1) as nat);
        assert((each - 1) * n + (n - 1) + 1 == each * n) by (nonlinear_arith);
        lemma_progressed_round(model, (each - 1) as nat);
        assert(done.queues == progressed(model, each, 0));
        assert forall|i: int| !done.serves_first(voice, channel_id, i) by {
            if 0 <= i < n {
                assert(done.queues[i].entries == model.queues[i].entries.skip(each as int));
                assert(model.queues[i].entries.len() == each);
            }
        }
    }
}

} // verus!
