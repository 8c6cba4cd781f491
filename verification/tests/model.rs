use mrvn_front_discord::model::{GuildModel, NextEntry, ReplaceStatus};
use mrvn_front_discord::voice::VoiceStates;
use mrvn_front_discord::vote::{ThresholdPolicy, VoteStatus, VoteType};

fn voice_of(members: &[(u64, u64)]) -> VoiceStates {
    let mut voice = VoiceStates::new();
    for (user_id, channel_id) in members {
        voice.insert(*user_id, *channel_id);
    }
    voice
}

fn drain(model: &mut GuildModel<&'static str>, voice: &VoiceStates, channel_id: u64) -> Vec<&'static str> {
    let mut entries = Vec::new();
    while let Some(entry) = model.next_channel_entry_finished(voice, channel_id) {
        entries.push(entry);
    }
    entries
}

#[test]
fn users_are_served_in_rounds() {
    let mut model = GuildModel::new(ThresholdPolicy::HalfRoundedUp);
    let voice = voice_of(&[(1, 10), (2, 10), (3, 10)]);
    model.push_entries(1, vec!["a1", "a2"]);
    model.push_entries(2, vec!["b1", "b2"]);
    model.push_entries(3, vec!["c1", "c2"]);
    assert_eq!(drain(&mut model, &voice, 10), vec!["a1", "b1", "c1", "a2", "b2", "c2"]);
    assert_eq!(model.next_channel_entry_finished(&voice, 10), None);
}

#[test]
fn interleaved_enqueues_keep_the_order_of_first_enqueue() {
    let mut model = GuildModel::new(ThresholdPolicy::HalfRoundedUp);
    let voice = voice_of(&[(1, 10), (2, 10)]);
    model.push_entries(2, vec!["b1"]);
    model.push_entries(1, vec!["a1"]);
    model.push_entries(2, vec!["b2"]);
    model.push_entries(1, vec!["a2"]);
    assert_eq!(drain(&mut model, &voice, 10), vec!["b1", "a1", "b2", "a2"]);
}

#[test]
fn a_bulk_of_one_user_does_not_starve_another() {
    let mut model = GuildModel::new(ThresholdPolicy::HalfRoundedUp);
    let voice = voice_of(&[(1, 10), (2, 10)]);
    model.push_entries(1, vec!["a1", "a2", "a3", "a4"]);
    model.push_entries(2, vec!["b1"]);
    assert_eq!(drain(&mut model, &voice, 10), vec!["a1", "b1", "a2", "a3", "a4"]);
}

#[test]
fn the_user_served_last_waits_for_a_late_comer() {
    let mut model = GuildModel::new(ThresholdPolicy::HalfRoundedUp);
    let voice = voice_of(&[(1, 10), (2, 10)]);
    model.push_entries(1, vec!["a1", "a2"]);
    assert_eq!(model.next_channel_entry_finished(&voice, 10), Some("a1"));
    model.push_entries(2, vec!["b1"]);
    assert_eq!(model.next_channel_entry_finished(&voice, 10), Some("b1"));
    assert_eq!(model.next_channel_entry_finished(&voice, 10), Some("a2"));
}

#[test]
fn users_of_other_channels_are_passed_over() {
    let mut model = GuildModel::new(ThresholdPolicy::HalfRoundedUp);
    let voice = voice_of(&[(1, 10), (2, 20)]);
    model.push_entries(1, vec!["a1"]);
    model.push_entries(2, vec!["b1"]);
    model.push_entries(3, vec!["c1"]);
    assert_eq!(drain(&mut model, &voice, 20), vec!["b1"]);
    assert_eq!(drain(&mut model, &voice, 10), vec!["a1"]);
    let later = voice_of(&[(3, 10)]);
    assert_eq!(drain(&mut model, &later, 10), vec!["c1"]);
}

#[test]
fn a_playing_channel_is_handed_nothing() {
    let mut model = GuildModel::new(ThresholdPolicy::HalfRoundedUp);
    let voice = voice_of(&[(1, 10)]);
    model.push_entries(1, vec![7, 8]);
    assert_eq!(model.next_channel_entry(&voice, 10), NextEntry::Entry(7));
    assert!(model.is_channel_active(10));
    assert_eq!(model.next_channel_entry(&voice, 10), NextEntry::AlreadyPlaying);
    assert_eq!(model.next_channel_entry_finished(&voice, 10), Some(8));
    assert_eq!(model.next_channel_entry_finished(&voice, 10), None);
    assert!(!model.is_channel_active(10));
    assert_eq!(model.next_channel_entry(&voice, 10), NextEntry::NoneAvailable);
}

#[test]
fn nothing_queued_is_none_available() {
    let mut model: GuildModel<u32> = GuildModel::new(ThresholdPolicy::HalfRoundedUp);
    let voice = voice_of(&[(1, 10)]);
    assert_eq!(model.next_channel_entry(&voice, 10), NextEntry::NoneAvailable);
    assert!(!model.is_channel_active(10));
    model.push_entries(1, Vec::new());
    assert_eq!(model.next_channel_entry(&voice, 10), NextEntry::NoneAvailable);
}

#[test]
fn replacing_the_only_queued_entry_hands_it_back() {
    let mut model = GuildModel::new(ThresholdPolicy::HalfRoundedUp);
    let voice = voice_of(&[(1, 10)]);
    model.push_entries(1, vec!["old"]);
    assert_eq!(model.replace_entry(1, Some(10), "new"), ReplaceStatus::ReplacedInQueue("old"));
    assert_eq!(drain(&mut model, &voice, 10), vec!["new"]);
}

#[test]
fn replacing_takes_the_latest_of_several() {
    let mut model = GuildModel::new(ThresholdPolicy::HalfRoundedUp);
    let voice = voice_of(&[(1, 10)]);
    model.push_entries(1, vec!["first", "second", "third"]);
    assert_eq!(model.replace_entry(1, None, "new"), ReplaceStatus::ReplacedInQueue("third"));
    assert_eq!(drain(&mut model, &voice, 10), vec!["first", "second", "new"]);
}

#[test]
fn replacing_the_playing_entry_names_the_channel() {
    let mut model = GuildModel::new(ThresholdPolicy::HalfRoundedUp);
    let voice = voice_of(&[(1, 10)]);
    model.push_entries(1, vec!["playing"]);
    assert_eq!(model.next_channel_entry(&voice, 10), NextEntry::Entry("playing"));
    assert_eq!(model.replace_entry(1, Some(10), "new"), ReplaceStatus::ReplacedCurrent(10));
    assert_eq!(model.next_channel_entry_finished(&voice, 10), Some("new"));
}

#[test]
fn replacing_with_nothing_before_queues() {
    let mut model = GuildModel::new(ThresholdPolicy::HalfRoundedUp);
    let voice = voice_of(&[(1, 10), (2, 10)]);
    assert_eq!(model.replace_entry(1, Some(10), "new"), ReplaceStatus::Queued);
    assert_eq!(model.replace_entry(2, None, "other"), ReplaceStatus::Queued);
    assert_eq!(drain(&mut model, &voice, 10), vec!["new", "other"]);
}

#[test]
fn replacing_while_another_users_entry_plays_queues() {
    let mut model = GuildModel::new(ThresholdPolicy::HalfRoundedUp);
    let voice = voice_of(&[(1, 10), (2, 10)]);
    model.push_entries(1, vec!["playing"]);
    assert_eq!(model.next_channel_entry(&voice, 10), NextEntry::Entry("playing"));
    assert_eq!(model.replace_entry(2, Some(10), "new"), ReplaceStatus::Queued);
    model.push_entries(1, vec!["again"]);
    assert_eq!(model.replace_entry(1, None, "newer"), ReplaceStatus::ReplacedInQueue("again"));
}

#[test]
fn a_vote_needs_something_playing() {
    let mut model: GuildModel<u32> = GuildModel::new(ThresholdPolicy::HalfRoundedUp);
    let voice = voice_of(&[(1, 10)]);
    assert_eq!(model.vote_for_skip(&voice, VoteType::Skip, 10, 1), VoteStatus::NothingPlaying);
    model.set_channel_stopped(10);
    assert_eq!(model.vote_for_skip(&voice, VoteType::Stop, 10, 1), VoteStatus::NothingPlaying);
}

#[test]
fn a_solo_listener_skips_alone() {
    let mut model = GuildModel::new(ThresholdPolicy::HalfRoundedDown);
    let voice = voice_of(&[(1, 10)]);
    model.push_entries(1, vec![1]);
    model.next_channel_entry(&voice, 10);
    assert_eq!(model.vote_for_skip(&voice, VoteType::Skip, 10, 1), VoteStatus::Success);
}

#[test]
fn votes_count_once_whatever_the_order() {
    let mut model = GuildModel::new(ThresholdPolicy::StrictMajority);
    let voice = voice_of(&[(1, 10), (2, 10), (3, 10), (4, 10), (5, 10)]);
    model.push_entries(1, vec![1]);
    model.next_channel_entry(&voice, 10);
    assert_eq!(model.vote_for_skip(&voice, VoteType::Skip, 10, 2), VoteStatus::NeedsMoreVotes(2));
    assert_eq!(model.vote_for_skip(&voice, VoteType::Skip, 10, 2), VoteStatus::AlreadyVoted);
    assert_eq!(model.vote_for_skip(&voice, VoteType::Skip, 10, 3), VoteStatus::NeedsMoreVotes(1));
    assert_eq!(model.vote_for_skip(&voice, VoteType::Skip, 10, 2), VoteStatus::AlreadyVoted);
    assert_eq!(model.vote_for_skip(&voice, VoteType::Skip, 10, 3), VoteStatus::AlreadyVoted);
    assert_eq!(model.vote_for_skip(&voice, VoteType::Stop, 10, 2), VoteStatus::NeedsMoreVotes(2));
    assert_eq!(model.vote_for_skip(&voice, VoteType::Skip, 10, 2), VoteStatus::AlreadyVoted);
    assert_eq!(model.vote_for_skip(&voice, VoteType::Skip, 10, 4), VoteStatus::Success);
}

#[test]
fn a_vote_that_carries_clears_the_votes() {
    let mut model = GuildModel::new(ThresholdPolicy::HalfRoundedUp);
    let voice = voice_of(&[(1, 10), (2, 10), (3, 10)]);
    model.push_entries(1, vec![1]);
    model.next_channel_entry(&voice, 10);
    assert_eq!(model.vote_for_skip(&voice, VoteType::Skip, 10, 1), VoteStatus::NeedsMoreVotes(1));
    assert_eq!(model.vote_for_skip(&voice, VoteType::Skip, 10, 2), VoteStatus::Success);
    assert_eq!(model.vote_for_skip(&voice, VoteType::Skip, 10, 1), VoteStatus::NeedsMoreVotes(1));
}

#[test]
fn the_threshold_follows_the_occupancy_of_each_call() {
    let mut model = GuildModel::new(ThresholdPolicy::HalfRoundedUp);
    let crowded = voice_of(&[(1, 10), (2, 10), (3, 10), (4, 10), (5, 10), (6, 10)]);
    let emptied = voice_of(&[(1, 10), (2, 10)]);
    model.push_entries(1, vec![1]);
    model.next_channel_entry(&crowded, 10);
    assert_eq!(model.vote_for_skip(&crowded, VoteType::Skip, 10, 1), VoteStatus::NeedsMoreVotes(2));
    assert_eq!(model.vote_for_skip(&emptied, VoteType::Skip, 10, 2), VoteStatus::Success);
}

#[test]
fn a_new_entry_starts_with_no_votes() {
    let mut model = GuildModel::new(ThresholdPolicy::HalfRoundedUp);
    let voice = voice_of(&[(1, 10), (2, 10), (3, 10)]);
    model.push_entries(1, vec![1, 2]);
    model.next_channel_entry(&voice, 10);
    assert_eq!(model.vote_for_skip(&voice, VoteType::Skip, 10, 1), VoteStatus::NeedsMoreVotes(1));
    assert_eq!(model.next_channel_entry_finished(&voice, 10), Some(2));
    assert_eq!(model.vote_for_skip(&voice, VoteType::Skip, 10, 1), VoteStatus::NeedsMoreVotes(1));
}

#[test]
fn a_stopped_channel_stays_stopped_until_an_entry_is_handed_out() {
    let mut model = GuildModel::new(ThresholdPolicy::HalfRoundedUp);
    let voice = voice_of(&[(1, 10)]);
    assert!(!model.is_channel_stopped(10));
    model.set_channel_stopped(10);
    assert!(model.is_channel_stopped(10));
    assert!(!model.is_channel_stopped(11));
    assert_eq!(model.next_channel_entry(&voice, 10), NextEntry::NoneAvailable);
    assert!(model.is_channel_stopped(10));
    model.push_entries(1, vec![1]);
    assert!(model.is_channel_stopped(10));
    assert_eq!(model.next_channel_entry(&voice, 10), NextEntry::Entry(1));
    assert!(!model.is_channel_stopped(10));
}

#[test]
fn stopping_a_playing_channel_makes_it_idle() {
    let mut model = GuildModel::new(ThresholdPolicy::HalfRoundedUp);
    let voice = voice_of(&[(1, 10)]);
    model.push_entries(1, vec![1, 2]);
    model.next_channel_entry(&voice, 10);
    model.set_channel_stopped(10);
    assert!(!model.is_channel_active(10));
    assert_eq!(model.next_channel_entry(&voice, 10), NextEntry::Entry(2));
}

#[test]
fn the_last_message_channel_counts() {
    let mut model: GuildModel<u32> = GuildModel::new(ThresholdPolicy::HalfRoundedUp);
    assert_eq!(model.message_channel(), None);
    model.set_message_channel(Some(5));
    model.set_message_channel(Some(6));
    assert_eq!(model.message_channel(), Some(6));
    model.set_message_channel(None);
    assert_eq!(model.message_channel(), None);
}

#[test]
fn thresholds_of_each_policy() {
    let down: Vec<usize> = (0..7).map(|n| ThresholdPolicy::HalfRoundedDown.threshold(n)).collect();
    let up: Vec<usize> = (0..7).map(|n| ThresholdPolicy::HalfRoundedUp.threshold(n)).collect();
    let strict: Vec<usize> = (0..7).map(|n| ThresholdPolicy::StrictMajority.threshold(n)).collect();
    assert_eq!(down, vec![1, 1, 1, 1, 2, 2, 3]);
    assert_eq!(up, vec![1, 1, 1, 2, 2, 3, 3]);
    assert_eq!(strict, vec![1, 1, 2, 2, 3, 3, 4]);
    assert_eq!(ThresholdPolicy::HalfRoundedUp.threshold(usize::MAX), usize::MAX / 2 + 1);
    assert_eq!(ThresholdPolicy::default(), ThresholdPolicy::HalfRoundedUp);
}

#[test]
fn voice_states_know_who_is_where() {
    let mut voice = VoiceStates::new();
    assert_eq!(voice.get_user_voice_channel(1), None);
    assert_eq!(voice.channel_occupancy(10), 0);
    voice.insert(1, 10);
    voice.insert(2, 10);
    voice.insert(3, 20);
    assert_eq!(voice.get_user_voice_channel(1), Some(10));
    assert_eq!(voice.get_user_voice_channel(3), Some(20));
    assert!(voice.is_user_in_voice_channel(2, 10));
    assert!(!voice.is_user_in_voice_channel(2, 20));
    assert!(!voice.is_user_in_voice_channel(4, 10));
    assert_eq!(voice.channel_occupancy(10), 2);
    assert_eq!(voice.channel_occupancy(20), 1);
    voice.insert(1, 20);
    assert_eq!(voice.get_user_voice_channel(1), Some(20));
    assert_eq!(voice.channel_occupancy(10), 1);
    assert_eq!(voice.channel_occupancy(20), 2);
    assert_eq!(voice.channel_occupancy(30), 0);
}

#[test]
fn a_user_who_changes_channel_does_not_lose_the_turn_to_the_one_just_served() {
    let mut model = GuildModel::new(ThresholdPolicy::HalfRoundedUp);
    let voice = voice_of(&[(1, 10), (2, 20)]);
    model.push_entries(1, vec!["a1", "a2"]);
    model.push_entries(2, vec!["b1", "b2"]);
    assert_eq!(model.next_channel_entry_finished(&voice, 10), Some("a1"));
    assert_eq!(model.next_channel_entry_finished(&voice, 20), Some("b1"));
    let moved = voice_of(&[(1, 10), (2, 10)]);
    assert_eq!(model.next_channel_entry_finished(&moved, 10), Some("b2"));
    assert_eq!(model.next_channel_entry_finished(&moved, 10), Some("a2"));
}

#[test]
fn the_turn_survives_a_stop() {
    let mut model = GuildModel::new(ThresholdPolicy::HalfRoundedUp);
    let voice = voice_of(&[(1, 10), (2, 10)]);
    model.push_entries(1, vec!["a1", "a2"]);
    model.push_entries(2, vec!["b1"]);
    assert_eq!(model.next_channel_entry(&voice, 10), NextEntry::Entry("a1"));
    model.set_channel_stopped(10);
    assert_eq!(model.next_channel_entry(&voice, 10), NextEntry::Entry("b1"));
}
