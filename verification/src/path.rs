//! Where a track is written: the path that a template gives for a track
//! record, and the folder that holds it.

use vstd::prelude::*;
use crate::catalog::TrackRecord;
use crate::text::{
    char_replaced, chars_of, copy_range, find_last, last_position, replaced, string_of,
    substitute, substitute_char,
};

verus! {

/// Why no output path could be derived.
#[derive(Clone, Copy, PartialEq, Eq, Structural, Debug)]
pub enum PathError {
    /// The record names no artist, so `{author}` stands for nothing.
    NoArtist,
    /// The path holds no `/` after substitution.
    NoSeparator,
}

/// The file to write and the folder it lies in. The folder is the path up
/// to and including its last `/`.
#[derive(Clone, Debug)]
pub struct OutputPath {
    pub path: String,
    pub folder: String,
}

/// A template with its four placeholders filled in, one after the other:
/// `{author}`, `{album}`, `{name}` with every `/` of the name turned into a
/// space, and `{ext}` as `ogg`.
pub open spec fn substituted(
    template: Seq<char>,
    author: Seq<char>,
    album: Seq<char>,
    name: Seq<char>,
) -> Seq<char> {
    let with_author = replaced(template, "{author}"@, author);
    let with_album = replaced(with_author, "{album}"@, album);
    let with_name = replaced(with_album, "{name}"@, char_replaced(name, '/', ' '));
    replaced(with_name, "{ext}"@, "ogg"@)
}

/// The path and folder that a template gives for a record. The author is
/// the record's first artist.
pub open spec fn derived_path(template: Seq<char>, record: TrackRecord) -> Result<
    (Seq<char>, Seq<char>),
    PathError,
> {
    if record.artists@.len() == 0 {
        Err(PathError::NoArtist)
    } else {
        let path = substituted(template, record.artists@[0]@, record.album@, record.name@);
        match last_position(path, '/') {
            Some(at) => Ok((path, path.take(at + 1))),
            None => Err(PathError::NoSeparator),
        }
    }
}

/// Derives the output path of a track from a template.
pub fn output_path(template: &str, record: &TrackRecord) -> (r: Result<OutputPath, PathError>)
    ensures
        match derived_path(template@, *record) {
            Ok((path, folder)) => r matches Ok(out) && out.path@ == path && out.folder@ == folder,
            Err(e) => r matches Err(f) && f == e,
        },
{
    if record.artists.len() == 0 {
        return Err(PathError::NoArtist);
    }
    let author = chars_of(record.artists[0].as_str());
    let album = chars_of(record.album.as_str());
    let name = substitute_char(&chars_of(record.name.as_str()), '/', ' ');
    let with_author = substitute(&chars_of(template), &chars_of("{author}"), &author);
    let with_album = substitute(&with_author, &chars_of("{album}"), &album);
    let with_name = substitute(&with_album, &chars_of("{name}"), &name);
    let path = substitute(&with_name, &chars_of("{ext}"), &chars_of("ogg"));
    match find_last(&path, '/') {
        Some(at) => {
            let folder = copy_range(&path, 0, at + 1);
            Ok(OutputPath { path: string_of(&path), folder: string_of(&folder) })
        },
        None => Err(PathError::NoSeparator),
    }
}

} // verus!
