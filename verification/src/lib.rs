//! Resolution of catalog references into tracks and the per-track download
//! decisions: reference grammar, track-set accumulation, encoding selection,
//! output-path derivation, container rewriting and run accounting.

pub mod base62;
pub mod catalog;
pub mod decrypt;
pub mod options;
pub mod path;
pub mod pipeline;
pub mod reference;
pub mod resolve;
pub mod search;
pub mod summary;
pub mod text;
pub mod track_set;
pub mod vorbis;
