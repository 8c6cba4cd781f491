//! A snapshot of the voice channels of one guild: which user sits in which
//! channel, and how many users a channel holds.

use vstd::prelude::*;

verus! {

/// A user and the voice channel the user is connected to.
#[derive(Clone, Copy, Debug, PartialEq, Eq)]
pub struct VoiceState {
    pub user_id: u64,
    pub channel_id: u64,
}

/// Who is in which voice channel. The view is the map from each connected user
/// to that user's channel.
pub struct VoiceStates {
    states: Vec<VoiceState>,
}

/// The users of `voice` that are connected to `channel_id`.
pub open spec fn members(voice: Map<u64, u64>, channel_id: u64) -> Set<u64> {
    voice.dom().filter(|user_id: u64| voice[user_id] == channel_id)
}

/// The number of users of `voice` that are connected to `channel_id`.
pub open spec fn occupancy(voice: Map<u64, u64>, channel_id: u64) -> nat {
    members(voice, channel_id).len()
}

/// The channel that `user_id` is connected to, if any.
pub open spec fn voice_channel(voice: Map<u64, u64>, user_id: u64) -> Option<u64> {
    if voice.contains_key(user_id) {
        Some(voice[user_id])
    } else {
        None
    }
}

/// Whether the user at `i` of `states` is listed at no other index.
spec fn listed_once(states: Seq<VoiceState>) -> bool {
    forall|i: int, j: int|
        0 <= i < j < states.len() ==> (#[trigger] states[i]).user_id != (#[trigger] states[j]).user_id
}

/// Whether `user_id` is among the first `n` entries of `states`.
spec fn listed(states: Seq<VoiceState>, n: int, user_id: u64) -> bool {
    exists|i: int| 0 <= i < n && i < states.len() && (#[trigger] states[i]).user_id == user_id
}

/// An index among the first `n` entries of `states` that lists `user_id`.
spec fn index_of(states: Seq<VoiceState>, n: int, user_id: u64) -> int {
    choose|i: int| 0 <= i < n && i < states.len() && (#[trigger] states[i]).user_id == user_id
}

/// The map that the first `n` entries of `states` describe.
spec fn map_of(states: Seq<VoiceState>, n: int) -> Map<u64, u64> {
    Map::new(
        |user_id: u64| listed(states, n, user_id),
        |user_id: u64| states[index_of(states, n, user_id)].channel_id,
    )
}

/// How many of the first `n` entries of `states` are connected to `channel_id`.
spec fn count_in(states: Seq<VoiceState>, n: int, channel_id: u64) -> nat
    decreases n,
{
    if n <= 0 {
        0
    } else {
        count_in(states, n - 1, channel_id) + if states[n - 1].channel_id == channel_id {
            1nat
        } else {
            0nat
        }
    }
}

proof fn lemma_map_of_entry(states: Seq<VoiceState>, n: int, i: int)
    requires
        listed_once(states),
        0 <= i < n <= states.len(),
    ensures
        map_of(states, n).contains_key(states[i].user_id),
        map_of(states, n)[states[i].user_id] == states[i].channel_id,
{
    let user_id = states[i].user_id;
    assert(listed(states, n, user_id));
    let k = index_of(states, n, user_id);
    assert(k == i);
}

proof fn lemma_count_in(states: Seq<VoiceState>, n: int, channel_id: u64)
    requires
        listed_once(states),
        0 <= n <= states.len(),
    ensures
        members(map_of(states, n), channel_id).finite(),
        occupancy(map_of(states, n), channel_id) == count_in(states, n, channel_id),
        count_in(states, n, channel_id) <= n,
    decreases n,
{
    if n == 0 {
        assert(members(map_of(states, 0), channel_id) =~= Set::<u64>::empty());
    } else {
        lemma_count_in(states, n - 1, channel_id);
        let before = members(map_of(states, n - 1), channel_id);
        let after = members(map_of(states, n), channel_id);
        let last = states[n - 1];
        assert forall|user_id: u64| listed(states, n, user_id) <==> (listed(states, n - 1, user_id)
            || user_id == last.user_id) by {
            if listed(states, n, user_id) {
                let k = index_of(states, n, user_id);
                if k < n - 1 {
                    assert(listed(states, n - 1, user_id));
                }
            }
            if listed(states, n - 1, user_id) {
                let k = index_of(states, n - 1, user_id);
                assert(0 <= k < n && states[k].user_id == user_id);
            }
            if user_id == last.user_id {
                assert(states[n - 1].user_id == user_id);
            }
        }
        assert(!listed(states, n - 1, last.user_id)) by {
            if listed(states, n - 1, last.user_id) {
                let k = index_of(states, n - 1, last.user_id);
                assert(states[k].user_id == states[n - 1].user_id);
            }
        }
        assert forall|user_id: u64| listed(states, n - 1, user_id) implies map_of(states, n)[user_id]
            == map_of(states, n - 1)[user_id] by {
            let k = index_of(states, n - 1, user_id);
            lemma_map_of_entry(states, n, k);
            lemma_map_of_entry(states, n - 1, k);
        }
        lemma_map_of_entry(states, n, n - 1);
        if last.channel_id == channel_id {
            assert(after =~= before.insert(last.user_id));
        } else {
            assert(after =~= before);
        }
    }
}

impl View for VoiceStates {
    type V = Map<u64, u64>;

    closed spec fn view(&self) -> Map<u64, u64> {
        map_of(self.states@, self.states@.len() as int)
    }
}

impl VoiceStates {
    /// Every user is listed once.
    pub closed spec fn wf(&self) -> bool {
        listed_once(self.states@)
    }

    /// A snapshot in which nobody is connected.
    pub fn new() -> (voice: VoiceStates)
        ensures
            voice.wf(),
            voice@ == Map::<u64, u64>::empty(),
    {
        let voice = VoiceStates { states: Vec::new() };
        assert(voice@ =~= Map::<u64, u64>::empty());
        voice
    }

    /// Records that `user_id` is connected to `channel_id`, and to no other channel.
    pub fn insert(&mut self, user_id: u64, channel_id: u64)
        requires
            old(self).wf(),
        ensures
            final(self).wf(),
            final(self)@ == old(self)@.insert(user_id, channel_id),
    {
        let ghost before = self.states@;
        let n = self.states.len();
        let mut i: usize = 0;
        while i < n
            invariant
                i <= n,
                n == self.states@.len(),
                self.states@ == before,
                before == old(self).states@,
                listed_once(before),
                forall|k: int| 0 <= k < i ==> (#[trigger] before[k]).user_id != user_id,
            decreases n - i,
        {
            if self.states[i].user_id == user_id {
                self.states[i] = VoiceState { user_id, channel_id };
                proof {
                    let after = self.states@;
                    let m = after.len() as int;
                    assert(listed_once(after));
                    assert forall|u: u64| listed(after, m, u) <==> listed(
                        before,
                        m,
                        u,
                    ) by {
                        if listed(after, m, u) {
                            let k = index_of(after, m, u);
                            assert(before[k].user_id == u);
                        }
                        if listed(before, m, u) {
                            let k = index_of(before, m, u);
                            assert(after[k].user_id == u);
                        }
                    }
                    assert(listed(before, m, user_id)) by {
                        assert(before[i as int].user_id == user_id);
                    }
                    assert forall|u: u64| listed(after, m, u) implies map_of(
                        after,
                        m,
                    )[u] == old(self)@.insert(user_id, channel_id)[u] by {
                        let k = index_of(after, m, u);
                        lemma_map_of_entry(after, m, k);
                        if u != user_id {
                            assert(k != i);
                            lemma_map_of_entry(before, m, k);
                        } else {
                            assert(k == i);
                        }
                    }
                    assert(self@ =~= old(self)@.insert(user_id, channel_id));
                }
                return ;
            }
            i += 1;
        }
        self.states.push(VoiceState { user_id, channel_id });
        proof {
            let after = self.states@;
            let m = after.len() as int;
            let b = before.len() as int;
            assert(listed_once(after));
            assert forall|u: u64| listed(after, m, u) <==> (listed(before, b, u) || u
                == user_id) by {
                if listed(after, m, u) {
                    let k = index_of(after, m, u);
                    if k < b {
                        assert(before[k].user_id == u);
                    }
                }
                if listed(before, b, u) {
                    let k = index_of(before, b, u);
                    assert(after[k].user_id == u);
                }
                if u == user_id {
                    assert(after[b].user_id == u);
                }
            }
            assert forall|u: u64| listed(after, m, u) implies map_of(after, m)[u] == old(
                self,
            )@.insert(user_id, channel_id)[u] by {
                let k = index_of(after, m, u);
                lemma_map_of_entry(after, m, k);
                if u != user_id {
                    assert(k != b);
                    lemma_map_of_entry(before, b, k);
                } else {
                    assert(k == b);
                }
            }
            assert(self@ =~= old(self)@.insert(user_id, channel_id));
        }
    }

    /// The voice channel that `user_id` is connected to, if any.
    pub fn get_user_voice_channel(&self, user_id: u64) -> (channel: Option<u64>)
        requires
            self.wf(),
        ensures
            channel == voice_channel(self@, user_id),
    {
        let n = self.states.len();
        let mut i: usize = 0;
        while i < n
            invariant
                i <= n,
                n == self.states@.len(),
                self.wf(),
                forall|k: int| 0 <= k < i ==> (#[trigger] self.states@[k]).user_id != user_id,
            decreases n - i,
        {
            if self.states[i].user_id == user_id {
                proof {
                    lemma_map_of_entry(self.states@, self.states@.len() as int, i as int);
                }
                return Some(self.states[i].channel_id);
            }
            i += 1;
        }
        proof {
            let m = self.states@.len() as int;
            if listed(self.states@, m, user_id) {
                let k = index_of(self.states@, m, user_id);
                assert(self.states@[k].user_id == user_id);
            }
        }
        None
    }

    /// Whether `user_id` is connected to `channel_id`.
    pub fn is_user_in_voice_channel(&self, user_id: u64, channel_id: u64) -> (present: bool)
        requires
            self.wf(),
        ensures
            present == (voice_channel(self@, user_id) == Some(channel_id)),
    {
        match self.get_user_voice_channel(user_id) {
            Some(found) => found == channel_id,
            None => false,
        }
    }

    /// The number of users connected to `channel_id`.
    pub fn channel_occupancy(&self, channel_id: u64) -> (count: usize)
        requires
            self.wf(),
        ensures
            count == occupancy(self@, channel_id),
    {
        let n = self.states.len();
        let mut count: usize = 0;
        let mut i: usize = 0;
        while i < n
            invariant
                i <= n,
                n == self.states@.len(),
                self.wf(),
                count == count_in(self.states@, i as int, channel_id),
                count <= i,
            decreases n - i,
        {
            if self.states[i].channel_id == channel_id {
                count += 1;
            }
            i += 1;
        }
        proof {
            lemma_count_in(self.states@, self.states@.len() as int, channel_id);
        }
        count
    }
}

} // verus!
