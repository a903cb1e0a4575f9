//! The search for a playable file: a track that offers none of the wanted
//! encodings is replaced by its alternatives, first come first served.

use std::collections::VecDeque;
use vstd::prelude::*;
use crate::base62::CatalogId;
use crate::catalog::{AudioFormat, FetchError, FileHandle, TrackRecord};

verus! {

/// The file listed for an encoding: the first entry that names it.
pub open spec fn file_for(files: Seq<(AudioFormat, FileHandle)>, format: AudioFormat) -> Option<
    FileHandle,
>
    decreases files.len(),
{
    if files.len() == 0 {
        None
    } else if files[0].0 == format {
        Some(files[0].1)
    } else {
        file_for(files.drop_first(), format)
    }
}

/// The file to download: the 320 kbit/s Vorbis file if there is one, else
/// the 160 kbit/s one, else the 96 kbit/s one.
pub open spec fn preferred_file(files: Seq<(AudioFormat, FileHandle)>) -> Option<FileHandle> {
    if file_for(files, AudioFormat::Vorbis320) is Some {
        file_for(files, AudioFormat::Vorbis320)
    } else if file_for(files, AudioFormat::Vorbis160) is Some {
        file_for(files, AudioFormat::Vorbis160)
    } else {
        file_for(files, AudioFormat::Vorbis96)
    }
}

/// Looks up the file listed for an encoding.
pub fn find_file(files: &Vec<(AudioFormat, FileHandle)>, format: AudioFormat) -> (r: Option<
    FileHandle,
>)
    ensures
        r == file_for(files@, format),
{
    let mut i: usize = 0;
    assert(files@.skip(0) == files@);
    while i < files.len()
        invariant
            i <= files.len(),
            file_for(files@, format) == file_for(files@.skip(i as int), format),
        decreases files.len() - i,
    {
        assert(files@.skip(i as int)[0] == files@[i as int]);
        assert(files@.skip(i as int).drop_first() == files@.skip(i + 1));
        if files[i].0 == format {
            return Some(files[i].1);
        }
        i += 1;
    }
    None
}

/// Picks the file to download from a track's encodings.
pub fn pick_file(record: &TrackRecord) -> (r: Option<FileHandle>)
    ensures
        r == preferred_file(record.files@),
{
    if let Some(f) = find_file(&record.files, AudioFormat::Vorbis320) {
        Some(f)
    } else if let Some(f) = find_file(&record.files, AudioFormat::Vorbis160) {
        Some(f)
    } else {
        find_file(&record.files, AudioFormat::Vorbis96)
    }
}

/// Why no playable file was found for a track.
#[derive(Debug)]
pub enum ResolveError {
    /// A lookup failed; the search stopped there.
    Fetch(FetchError),
    /// Every candidate was looked up and none offers a wanted encoding.
    NoSuitableTrack,
}

/// A search that waits for the record of one track.
pub struct FormatSearch {
    asked: CatalogId,
    queue: VecDeque<CatalogId>,
}

/// How a search goes on after an answer.
pub enum SearchStep {
    /// Another record is needed: the search waits for the track it asks for.
    Ask(FormatSearch),
    /// The record that offers a wanted encoding, and the file chosen from it.
    Found(TrackRecord, FileHandle),
    /// The search is over without a file.
    Failed(ResolveError),
}

/// The outcome of one answer, as plain values: the track asked for and the
/// candidates behind it, or the end of the search.
pub enum StepModel {
    Ask(CatalogId, Seq<CatalogId>),
    Found(TrackRecord, FileHandle),
    Failed(ResolveError),
}

/// What an answer leads to, given the candidates waiting behind the track
/// that was asked for. A failed lookup ends the search. A record with a
/// wanted encoding is the result. Otherwise the record's alternatives join
/// the back of the queue and its front is asked next; an empty queue ends
/// the search.
pub open spec fn search_step(
    waiting: Seq<CatalogId>,
    answer: Result<TrackRecord, FetchError>,
) -> StepModel {
    match answer {
        Err(e) => StepModel::Failed(ResolveError::Fetch(e)),
        Ok(record) => match preferred_file(record.files@) {
            Some(file) => StepModel::Found(record, file),
            None => {
                let queue = waiting + record.alternatives@;
                if queue.len() == 0 {
                    StepModel::Failed(ResolveError::NoSuitableTrack)
                } else {
                    StepModel::Ask(queue[0], queue.drop_first())
                }
            },
        },
    }
}

impl SearchStep {
    /// The step as plain values.
    pub open spec fn model(self) -> StepModel {
        match self {
            SearchStep::Ask(search) => StepModel::Ask(search.asked(), search.waiting()),
            SearchStep::Found(record, file) => StepModel::Found(record, file),
            SearchStep::Failed(e) => StepModel::Failed(e),
        }
    }
}

impl FormatSearch {
    /// The track whose record the search waits for.
    pub closed spec fn asked(&self) -> CatalogId {
        self.asked
    }

    /// The candidates behind it, in the order they will be asked.
    pub closed spec fn waiting(&self) -> Seq<CatalogId> {
        self.queue@
    }

    /// The track to look up now.
    pub fn wanted(&self) -> (id: CatalogId)
        ensures
            id == self.asked(),
    {
        self.asked
    }

    /// Takes the answer to the lookup of the wanted track.
    pub fn fetched(self, answer: Result<TrackRecord, FetchError>) -> (step: SearchStep)
        ensures
            step.model() == search_step(self.waiting(), answer),
    {
        let mut queue = self.queue;
        match answer {
            Err(e) => SearchStep::Failed(ResolveError::Fetch(e)),
            Ok(record) => match pick_file(&record) {
                Some(file) => SearchStep::Found(record, file),
                None => {
                    let mut i: usize = 0;
                    while i < record.alternatives.len()
                        invariant
                            i <= record.alternatives.len(),
                            queue@ == self.queue@ + record.alternatives@.take(i as int),
                        decreases record.alternatives.len() - i,
                    {
                        queue.push_back(record.alternatives[i]);
                        i += 1;
                    }
                    assert(record.alternatives@.take(record.alternatives.len() as int)
                        == record.alternatives@);
                    match queue.pop_front() {
                        Some(next) => SearchStep::Ask(FormatSearch { asked: next, queue }),
                        None => SearchStep::Failed(ResolveError::NoSuitableTrack),
                    }
                },
            },
        }
    }
}

/// Starts the search for a playable file of a track: the track itself is
/// asked first and nothing waits behind it.
pub fn get_track_from_id(id: CatalogId) -> (search: FormatSearch)
    ensures
        search.asked() == id,
        search.waiting() == Seq::<CatalogId>::empty(),
{
    FormatSearch { asked: id, queue: VecDeque::new() }
}

/// A track that offers the 320 kbit/s encoding yields that file, whatever
/// lower bitrates it offers beside it.
pub proof fn lemma_highest_bitrate_wins(
    waiting: Seq<CatalogId>,
    record: TrackRecord,
)
    requires
        file_for(record.files@, AudioFormat::Vorbis320) is Some,
    ensures
        preferred_file(record.files@) == file_for(record.files@, AudioFormat::Vorbis320),
        search_step(waiting, Ok(record)) == StepModel::Found(
            record,
            file_for(record.files@, AudioFormat::Vorbis320)->0,
        ),
{
}

/// Without the 320 kbit/s encoding the 160 kbit/s file is taken before the
/// 96 kbit/s one.
pub proof fn lemma_medium_before_low(record: TrackRecord)
    requires
        file_for(record.files@, AudioFormat::Vorbis320) is None,
        file_for(record.files@, AudioFormat::Vorbis160) is Some,
    ensures
        preferred_file(record.files@) == file_for(record.files@, AudioFormat::Vorbis160),
{
}

/// A track without any encoding whose one alternative offers a wanted
/// encoding resolves to the alternative: the search started on the track
/// asks for the alternative next, and the alternative's record is the result.
pub proof fn lemma_alternative_fallback(track: TrackRecord, alternative: TrackRecord)
    requires
        track.files@.len() == 0,
        track.alternatives@ == seq![alternative.id],
        preferred_file(alternative.files@) is Some,
    ensures
        search_step(Seq::empty(), Ok(track)) == StepModel::Ask(alternative.id, Seq::empty()),
        search_step(Seq::empty(), Ok(alternative)) == StepModel::Found(
            alternative,
            preferred_file(alternative.files@)->0,
        ),
{
    let queue = Seq::<CatalogId>::empty() + track.alternatives@;
    assert(queue == seq![alternative.id]);
    assert(queue.drop_first() == Seq::<CatalogId>::empty());
}

} // verus!
