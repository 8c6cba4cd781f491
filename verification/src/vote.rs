//! Votes of the listeners of a channel: who has voted, and how many votes it
//! takes.

use std::collections::HashSet;
use vstd::prelude::*;

verus! {

/// What a vote is cast for.
#[derive(Clone, Copy, Debug, PartialEq, Eq, Structural)]
pub enum VoteType {
    Skip,
    Stop,
}

/// What became of a vote.
#[derive(Clone, Copy, Debug, PartialEq, Eq, Structural)]
pub enum VoteStatus {
    /// The vote carried the motion.
    Success,
    /// The voter had voted before; nothing was counted.
    AlreadyVoted,
    /// The vote was counted, and this many more are needed.
    NeedsMoreVotes(usize),
    /// Nothing is playing in the channel, so there is nothing to vote on.
    NothingPlaying,
}

/// How the number of votes that carries a motion follows from the number of
/// users in the channel. Every policy asks for at least one vote.
#[derive(Clone, Copy, Debug, PartialEq, Eq, Structural)]
pub enum ThresholdPolicy {
    /// Half of the users, rounded down.
    HalfRoundedDown,
    /// Half of the users, rounded up.
    HalfRoundedUp,
    /// More than half of the users.
    StrictMajority,
}

impl ThresholdPolicy {
    /// The number of votes needed in a channel of `occupants` users.
    pub open spec fn spec_threshold(self, occupants: nat) -> nat {
        let half = match self {
            ThresholdPolicy::HalfRoundedDown => occupants / 2,
            ThresholdPolicy::HalfRoundedUp => (occupants + 1) / 2,
            ThresholdPolicy::StrictMajority => occupants / 2 + 1,
        };
        if half < 1 {
            1
        } else {
            half
        }
    }

    /// The number of votes needed in a channel of `occupants` users.
    pub fn threshold(&self, occupants: usize) -> (needed: usize)
        ensures
            needed == self.spec_threshold(occupants as nat),
            needed >= 1,
    {
        let half: usize = match self {
            ThresholdPolicy::HalfRoundedDown => occupants / 2,
            ThresholdPolicy::HalfRoundedUp => occupants / 2 + occupants % 2,
            ThresholdPolicy::StrictMajority => occupants / 2 + 1,
        };
        if half < 1 {
            1
        } else {
            half
        }
    }
}

impl Default for ThresholdPolicy {
    fn default() -> (policy: ThresholdPolicy)
        ensures
            policy == ThresholdPolicy::HalfRoundedUp,
    {
        ThresholdPolicy::HalfRoundedUp
    }
}

/// What a vote of `voter` does to the set `voters` of those who have voted,
/// where `needed` votes carry the motion: the new set and the status. A vote
/// that carries the motion empties the set.
pub open spec fn tally(voters: Set<u64>, voter: u64, needed: nat) -> (Set<u64>, VoteStatus) {
    if voters.contains(voter) {
        (voters, VoteStatus::AlreadyVoted)
    } else if voters.insert(voter).len() >= needed {
        (Set::empty(), VoteStatus::Success)
    } else {
        (
            voters.insert(voter),
            VoteStatus::NeedsMoreVotes((needed - voters.insert(voter).len()) as usize),
        )
    }
}

/// The voters for one motion. The view is the set of those who have voted.
pub struct VoteTracker {
    voters: HashSet<u64>,
}

impl View for VoteTracker {
    type V = Set<u64>;

    closed spec fn view(&self) -> Set<u64> {
        self.voters@
    }
}

impl VoteTracker {
    /// The set of voters is finite.
    pub closed spec fn wf(&self) -> bool {
        self.voters@.finite()
    }

    /// A tracker in which nobody has voted.
    pub fn new() -> (tracker: VoteTracker)
        ensures
            tracker.wf(),
            tracker@ == Set::<u64>::empty(),
    {
        VoteTracker { voters: HashSet::new() }
    }

    /// Forgets every vote.
    pub fn reset(&mut self)
        ensures
            final(self).wf(),
            final(self)@ == Set::<u64>::empty(),
    {
        self.voters.clear();
    }

    /// Whether `voter` has voted.
    pub fn has_voted(&self, voter: u64) -> (voted: bool)
        ensures
            voted == self@.contains(voter),
    {
        self.voters.contains(&voter)
    }

    /// Counts the vote of `voter`, where `needed` votes carry the motion.
    pub fn vote(&mut self, voter: u64, needed: usize) -> (status: VoteStatus)
        requires
            old(self).wf(),
        ensures
            final(self).wf(),
            (final(self)@, status) == tally(old(self)@, voter, needed as nat),
    {
        if !self.voters.insert(voter) {
            return VoteStatus::AlreadyVoted;
        }
        let count = self.voters.len();
        if count >= needed {
            self.voters.clear();
            VoteStatus::Success
        } else {
            VoteStatus::NeedsMoreVotes(needed - count)
        }
    }
}

} // verus!
