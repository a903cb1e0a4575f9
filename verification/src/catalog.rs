//! Plain-value records of what the catalog reports about tracks and
//! artists, as far as resolution and download read them.

use vstd::prelude::*;
use crate::base62::CatalogId;

verus! {

/// Number of bytes in a file handle.
pub const FILE_HANDLE_LEN: usize = 20;

/// Number of bytes in a decryption key.
pub const KEY_LEN: usize = 16;

/// Names one encrypted audio blob. It is of no use without the key that
/// belongs to it.
#[derive(Clone, Copy, PartialEq, Eq, Debug, Hash)]
pub struct FileHandle {
    pub bytes: [u8; 20],
}

/// The secret that decrypts one file of one track.
#[derive(Clone, Copy, PartialEq, Eq, Debug)]
pub struct AudioKey {
    pub bytes: [u8; 16],
}

/// The encodings a track can be offered in. Only the three Vorbis bitrates
/// are ever downloaded; every other encoding is `Other`.
#[derive(Clone, Copy, PartialEq, Eq, Structural, Debug, Hash)]
pub enum AudioFormat {
    Vorbis96,
    Vorbis160,
    Vorbis320,
    Other,
}

/// What the catalog reports about one track.
#[derive(Clone, Debug)]
pub struct TrackRecord {
    pub id: CatalogId,
    pub name: String,
    pub album: String,
    /// Artist names, main artist first.
    pub artists: Vec<String>,
    /// The file of each encoding the track is offered in.
    pub files: Vec<(AudioFormat, FileHandle)>,
    /// Other tracks that stand for the same recording.
    pub alternatives: Vec<CatalogId>,
}

/// What the catalog reports about one artist: two named collections of
/// groupings, each grouping a list of album identifiers.
#[derive(Clone, Debug)]
pub struct ArtistRecord {
    pub albums: Vec<Vec<CatalogId>>,
    pub singles: Vec<Vec<CatalogId>>,
}

/// A failed catalog lookup, with the provider's description of the cause.
#[derive(Clone, Debug)]
pub struct FetchError {
    pub message: String,
}

} // verus!
