//! What is queued and played.

use vstd::prelude::*;

verus! {

/// What is known of a song: its title, where it comes from, and who asked for it.
#[derive(Debug, PartialEq, Eq)]
pub struct SongMetadata {
    pub title: String,
    pub url: String,
    pub user_id: u64,
}

impl Clone for SongMetadata {
    fn clone(&self) -> (copy: SongMetadata)
        ensures
            copy == *self,
    {
        SongMetadata { title: self.title.clone(), url: self.url.clone(), user_id: self.user_id }
    }
}

/// A song that can be queued: its metadata, and what the backend needs to
/// play it. The library never looks into the payload.
#[derive(Debug, PartialEq, Eq)]
pub struct Song<P> {
    pub metadata: SongMetadata,
    pub payload: P,
}

} // verus!
