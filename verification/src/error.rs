//! What can go wrong while a command or the end of a playback is handled.

use crate::speaker::PlaybackError;
use vstd::prelude::*;

verus! {

/// Why a search term or link gave no songs.
#[derive(Clone, Copy, Debug, PartialEq, Eq, Structural)]
pub enum ResolveError {
    /// The link points to a site that cannot be played from.
    UnsupportedSource,
    /// Nothing matches the term.
    NoResults,
    /// The lookup failed; it may work when tried again.
    TransientFailure,
}

/// A failure of the backend that finds and plays songs.
#[derive(Clone, Copy, Debug, PartialEq, Eq, Structural)]
pub enum BackendError {
    Resolve(ResolveError),
    Playback(PlaybackError),
}

/// Why a request was given up.
#[derive(Debug, PartialEq, Eq)]
pub enum Error {
    /// The request belongs to no guild, or the guild's voice channels are not known.
    NoGuild,
    /// No command has this name.
    UnknownCommand(String),
    Backend(BackendError),
    /// The model and the speakers disagree about what plays in a channel.
    ModelPlayingSpeakerNotDesync,
}

} // verus!
