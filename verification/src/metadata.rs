//! The track metadata record of the audio-file extractor, with its
//! completeness checks. The tag readers themselves are file-format glue
//! and live outside this crate.
use vstd::prelude::*;

verus! {

/// Track metadata extracted from audio files.
#[derive(Debug, Clone, PartialEq)]
pub struct TrackMetadata {
    pub title: Option<String>,
    pub artist: Option<String>,
    pub album: Option<String>,
    pub year: Option<u32>,
    pub genre: Option<String>,
    pub track_number: Option<u32>,
    pub duration: Option<u32>,
}

impl TrackMetadata {
    /// Check if metadata has all standard fields populated (the duration
    /// is not among them).
    pub fn is_complete(&self) -> (r: bool)
        ensures
            r == (self.title is Some && self.artist is Some && self.album is Some && self.year
                is Some && self.genre is Some && self.track_number is Some),
    {
        self.title.is_some() && self.artist.is_some() && self.album.is_some()
            && self.year.is_some() && self.genre.is_some() && self.track_number.is_some()
    }

    /// Check if metadata is empty (all fields are absent).
    pub fn is_empty(&self) -> (r: bool)
        ensures
            r == (self.title is None && self.artist is None && self.album is None && self.year
                is None && self.genre is None && self.track_number is None && self.duration
                is None),
    {
        self.title.is_none() && self.artist.is_none() && self.album.is_none()
            && self.year.is_none() && self.genre.is_none() && self.track_number.is_none()
            && self.duration.is_none()
    }
}

/// Errors of metadata extraction.
#[derive(Debug)]
pub enum MetadataError {
    IoError(String),
    Id3Error(String),
    FlacError(String),
    UnsupportedFormat,
}

} // verus!
