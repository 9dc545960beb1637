//! The playlist layer's metadata record and error kinds. Playlist file
//! persistence is I/O glue and lives outside this crate.
use vstd::prelude::*;

verus! {

/// Extra metadata a playlist entry carries.
#[derive(Debug, Clone, PartialEq)]
pub struct TrackMetadata {
    pub year: Option<u32>,
    pub genre: Option<String>,
    pub track_number: Option<u32>,
    pub album_art: Option<String>,
}

/// Errors of playlist persistence.
#[derive(Debug)]
pub enum PlaylistError {
    Io(String),
    Serialization(String),
    NotFound(String),
}

} // verus!
