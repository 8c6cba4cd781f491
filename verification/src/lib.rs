//! Playback orchestration for a guild of a voice chat: fair queues of songs,
//! votes, a pool of speakers, and the decisions that connect them.
//!
//! - [`model`] holds the queues of the users and the state of each channel,
//!   [`vote`] the votes, [`voice`] who is in which voice channel.
//! - [`speaker`] holds the speakers of a guild and what each of them plays.
//! - [`frontend`] handles commands and the ends of playbacks; what it decides
//!   is written down in [`decisions`].
//! - [`fairness`] and [`guarantees`] prove what holds of all of this.
//! - [`message`], [`text`], [`embed`], [`config`] and [`commands`] are what
//!   the bot says, and what it is called by.

pub mod commands;
pub mod config;
pub mod decisions;
pub mod embed;
pub mod error;
pub mod fairness;
pub mod frontend;
pub mod guarantees;
pub mod message;
pub mod model;
pub mod song;
pub mod speaker;
pub mod text;
pub mod voice;
pub mod vote;
