//! The download of one track as a sequence of decisions. Each decision
//! takes what the outside world answered to the last request and says what
//! to request next, or how the download ended.

use vstd::prelude::*;
use crate::base62::CatalogId;
use crate::catalog::{AudioKey, FileHandle, TrackRecord};
use crate::decrypt::{audio_plaintext, read_decrypted};
use crate::path::{derived_path, output_path, OutputPath, PathError};
use crate::vorbis::{rewrite_comments, rewritten, splice_admits};

verus! {

/// Number of bytes in front of the audio container in a decrypted file.
pub const PREAMBLE_LEN: usize = 167;

/// Which step of a download failed.
#[derive(Clone, Copy, PartialEq, Eq, Structural, Debug)]
pub enum SkipReason {
    /// No decryption key was obtained.
    Key,
    /// The encrypted stream could not be opened.
    Stream,
    /// The encrypted stream could not be read to its end.
    Read,
    /// The cipher failed.
    Decrypt,
    /// The decrypted file is shorter than the preamble, or its payload or
    /// the track's tags are too long for the splice.
    Container,
    /// The output file could not be written.
    Write,
}

/// How the download of one track ended.
#[derive(Clone, Copy, PartialEq, Eq, Structural, Debug)]
pub enum Outcome {
    Written,
    AlreadyExists,
    Skipped(SkipReason),
}

/// A failure that ends the whole run.
#[derive(Clone, Copy, PartialEq, Eq, Structural, Debug)]
pub enum RunError {
    /// The template gives no usable path.
    Template(PathError),
    /// The output folder could not be created.
    CreateDir,
}

/// What the outside world answered.
pub enum Event {
    /// Whether the output path exists already.
    Exists(bool),
    /// Whether the output folder exists now.
    DirCreated(bool),
    /// The decryption key, if one was obtained.
    Key(Option<AudioKey>),
    /// Whether the encrypted stream was opened.
    Opened(bool),
    /// The whole encrypted stream, if it could be read.
    Read(Option<Vec<u8>>),
    /// Whether the output file was written.
    Written(bool),
}

/// What a download waits for.
pub enum Progress {
    /// To learn whether the output path exists.
    CheckExists,
    /// For the output folder to be created.
    CreateDir,
    /// For the decryption key of the record's track and the chosen file.
    RequestKey,
    /// For the encrypted stream of the chosen file to be opened.
    OpenStream { key: AudioKey },
    /// For the encrypted stream to be read to its end.
    ReadStream { key: AudioKey },
    /// For the finished bytes to be written to the output path.
    Write { output: Vec<u8> },
}

/// A download under way.
pub struct Download {
    /// The track that was asked for.
    pub requested: CatalogId,
    /// The record that is downloaded: that of the requested track, or of
    /// the alternative that stands in for it.
    pub record: TrackRecord,
    /// The file chosen from the record.
    pub file: FileHandle,
    /// Where the file goes.
    pub target: OutputPath,
    pub progress: Progress,
}

/// How a download goes on after an answer.
pub enum Step {
    Next(Download),
    Done(Outcome),
    Abort(RunError),
}

/// What a download waits for, as plain values.
pub enum ProgressModel {
    CheckExists,
    CreateDir,
    RequestKey,
    OpenStream { key: AudioKey },
    ReadStream { key: AudioKey },
    Write { output: Seq<u8> },
}

/// A download under way, as plain values.
pub struct DownloadModel {
    pub requested: CatalogId,
    pub record: TrackRecord,
    pub file: FileHandle,
    pub path: Seq<char>,
    pub folder: Seq<char>,
    pub progress: ProgressModel,
}

/// A step, as plain values.
pub enum StepModel {
    Next(DownloadModel),
    Done(Outcome),
    Abort(RunError),
}

impl View for Progress {
    type V = ProgressModel;

    open spec fn view(&self) -> ProgressModel {
        match *self {
            Progress::CheckExists => ProgressModel::CheckExists,
            Progress::CreateDir => ProgressModel::CreateDir,
            Progress::RequestKey => ProgressModel::RequestKey,
            Progress::OpenStream { key } => ProgressModel::OpenStream { key },
            Progress::ReadStream { key } => ProgressModel::ReadStream { key },
            Progress::Write { output } => ProgressModel::Write { output: output@ },
        }
    }
}

impl View for Download {
    type V = DownloadModel;

    open spec fn view(&self) -> DownloadModel {
        DownloadModel {
            requested: self.requested,
            record: self.record,
            file: self.file,
            path: self.target.path@,
            folder: self.target.folder@,
            progress: self.progress@,
        }
    }
}

impl View for Step {
    type V = StepModel;

    open spec fn view(&self) -> StepModel {
        match *self {
            Step::Next(download) => StepModel::Next(download@),
            Step::Done(outcome) => StepModel::Done(outcome),
            Step::Abort(error) => StepModel::Abort(error),
        }
    }
}

/// The payload of a decrypted file: everything after the preamble.
pub open spec fn payload_of(plain: Seq<u8>) -> Seq<u8> {
    plain.skip(PREAMBLE_LEN as int)
}

/// Drops the preamble of a decrypted file. A file shorter than the
/// preamble has no payload.
pub fn strip_preamble(plain: &Vec<u8>) -> (r: Option<Vec<u8>>)
    ensures
        r is Some <==> plain@.len() >= PREAMBLE_LEN,
        r matches Some(payload) ==> payload@ == payload_of(plain@),
{
    if plain.len() < PREAMBLE_LEN {
        return None;
    }
    let mut payload: Vec<u8> = Vec::new();
    let mut i: usize = PREAMBLE_LEN;
    while i < plain.len()
        invariant
            PREAMBLE_LEN <= i <= plain.len(),
            payload@ == plain@.subrange(PREAMBLE_LEN as int, i as int),
        decreases plain.len() - i,
    {
        payload.push(plain[i]);
        i += 1;
    }
    Some(payload)
}

/// The bytes to write for a decrypted file: its payload with the track's
/// comment header spliced in. There are none when the file is shorter than
/// the preamble, or the splice does not take the payload and the track.
pub open spec fn prepared(plain: Seq<u8>, record: TrackRecord) -> Option<Seq<u8>> {
    if plain.len() >= PREAMBLE_LEN && splice_admits(payload_of(plain), record) {
        Some(rewritten(payload_of(plain), record))
    } else {
        None
    }
}

/// Turns a decrypted file into the bytes to write.
pub fn prepare_output(plain: &Vec<u8>, record: &TrackRecord) -> (r: Option<Vec<u8>>)
    ensures
        match prepared(plain@, *record) {
            Some(output) => r matches Some(out) && out@ == output,
            None => r is None,
        },
{
    match strip_preamble(plain) {
        Some(payload) => rewrite_comments(&payload, record),
        None => None,
    }
}

/// How a download begins: with the check of the derived output path, or
/// with the end of the run when the template gives no path.
pub open spec fn first_step(
    requested: CatalogId,
    record: TrackRecord,
    file: FileHandle,
    template: Seq<char>,
) -> StepModel {
    match derived_path(template, record) {
        Ok((path, folder)) => StepModel::Next(
            DownloadModel {
                requested,
                record,
                file,
                path,
                folder,
                progress: ProgressModel::CheckExists,
            },
        ),
        Err(e) => StepModel::Abort(RunError::Template(e)),
    }
}

/// A download that has moved on to waiting for something else.
pub open spec fn moved_to(download: DownloadModel, progress: ProgressModel) -> StepModel {
    StepModel::Next(DownloadModel { progress, ..download })
}

/// What an answer leads to. `decrypted` is what the cipher gave for the
/// stream, `None` for a cipher that failed; it is read only when the answer
/// is a stream that was read. An answer that the download does not wait for
/// changes nothing.
pub open spec fn next_step(
    download: DownloadModel,
    event: Event,
    decrypted: Option<Seq<u8>>,
) -> StepModel {
    match (download.progress, event) {
        (ProgressModel::CheckExists, Event::Exists(true)) => StepModel::Done(
            Outcome::AlreadyExists,
        ),
        (ProgressModel::CheckExists, Event::Exists(false)) => moved_to(
            download,
            ProgressModel::CreateDir,
        ),
        (ProgressModel::CreateDir, Event::DirCreated(true)) => moved_to(
            download,
            ProgressModel::RequestKey,
        ),
        (ProgressModel::CreateDir, Event::DirCreated(false)) => StepModel::Abort(
            RunError::CreateDir,
        ),
        (ProgressModel::RequestKey, Event::Key(Some(key))) => moved_to(
            download,
            ProgressModel::OpenStream { key },
        ),
        (ProgressModel::RequestKey, Event::Key(None)) => StepModel::Done(
            Outcome::Skipped(SkipReason::Key),
        ),
        (ProgressModel::OpenStream { key }, Event::Opened(true)) => moved_to(
            download,
            ProgressModel::ReadStream { key },
        ),
        (ProgressModel::OpenStream { .. }, Event::Opened(false)) => StepModel::Done(
            Outcome::Skipped(SkipReason::Stream),
        ),
        (ProgressModel::ReadStream { .. }, Event::Read(None)) => StepModel::Done(
            Outcome::Skipped(SkipReason::Read),
        ),
        (ProgressModel::ReadStream { .. }, Event::Read(Some(_))) => after_decrypt(
            download,
            decrypted,
        ),
        (ProgressModel::Write { .. }, Event::Written(true)) => StepModel::Done(Outcome::Written),
        (ProgressModel::Write { .. }, Event::Written(false)) => StepModel::Done(
            Outcome::Skipped(SkipReason::Write),
        ),
        _ => StepModel::Next(download),
    }
}

/// What the cipher's result leads to: the write of the prepared bytes, or
/// a skipped track when the cipher failed or no bytes can be prepared.
pub open spec fn after_decrypt(download: DownloadModel, decrypted: Option<Seq<u8>>) -> StepModel {
    match decrypted {
        None => StepModel::Done(Outcome::Skipped(SkipReason::Decrypt)),
        Some(plain) => match prepared(plain, download.record) {
            Some(output) => moved_to(download, ProgressModel::Write { output }),
            None => StepModel::Done(Outcome::Skipped(SkipReason::Container)),
        },
    }
}

/// Starts the download of a track: derives the output path from the
/// template and asks whether it exists.
pub fn download_one(
    requested: CatalogId,
    record: TrackRecord,
    file: FileHandle,
    template: &str,
) -> (step: Step)
    ensures
        step@ == first_step(requested, record, file, template@),
{
    match output_path(template, &record) {
        Ok(target) => Step::Next(
            Download { requested, record, file, target, progress: Progress::CheckExists },
        ),
        Err(e) => Step::Abort(RunError::Template(e)),
    }
}

impl Download {
    /// The track and the file that the decryption key is asked for: the
    /// track of the record, which an alternative may have replaced, and the
    /// file chosen from it.
    pub fn key_request(&self) -> (r: (CatalogId, FileHandle))
        ensures
            r == (self.record.id, self.file),
    {
        (self.record.id, self.file)
    }

    /// Whether an alternative stands in for the track that was asked for:
    /// the record downloaded is that of another track.
    pub fn stands_in(&self) -> (r: bool)
        ensures
            r == (self.record.id != self.requested),
    {
        self.record.id.value != self.requested.value
    }

    /// Goes on with the cipher's result for the stream that was read.
    pub fn decrypted(self, plain: Option<Vec<u8>>) -> (step: Step)
        ensures
            step@ == after_decrypt(
                self@,
                match plain {
                    Some(bytes) => Some(bytes@),
                    None => None,
                },
            ),
    {
        match plain {
            None => Step::Done(Outcome::Skipped(SkipReason::Decrypt)),
            Some(bytes) => match prepare_output(&bytes, &self.record) {
                Some(output) => Step::Next(
                    Download {
                        requested: self.requested,
                        record: self.record,
                        file: self.file,
                        target: self.target,
                        progress: Progress::Write { output },
                    },
                ),
                None => Step::Done(Outcome::Skipped(SkipReason::Container)),
            },
        }
    }

    /// Takes an answer and decides how the download goes on. A stream that
    /// was read is decrypted here with the key obtained before; the
    /// plaintext is as long as the stream.
    pub fn step(self, event: Event) -> (step: Step)
        ensures
            match (self.progress, event) {
                (Progress::ReadStream { key }, Event::Read(Some(encrypted))) => {
                    &&& step@ == next_step(
                        self@,
                        event,
                        Some(audio_plaintext(key.bytes@, encrypted@)),
                    )
                    &&& audio_plaintext(key.bytes@, encrypted@).len() == encrypted@.len()
                },
                _ => step@ == next_step(self@, event, None),
            },
    {
        let Download { requested, record, file, target, progress } = self;
        match (progress, event) {
            (Progress::CheckExists, Event::Exists(true)) => Step::Done(Outcome::AlreadyExists),
            (Progress::CheckExists, Event::Exists(false)) => Step::Next(
                Download { requested, record, file, target, progress: Progress::CreateDir },
            ),
            (Progress::CreateDir, Event::DirCreated(true)) => Step::Next(
                Download { requested, record, file, target, progress: Progress::RequestKey },
            ),
            (Progress::CreateDir, Event::DirCreated(false)) => Step::Abort(RunError::CreateDir),
            (Progress::RequestKey, Event::Key(Some(key))) => Step::Next(
                Download { requested, record, file, target, progress: Progress::OpenStream { key } },
            ),
            (Progress::RequestKey, Event::Key(None)) => Step::Done(
                Outcome::Skipped(SkipReason::Key),
            ),
            (Progress::OpenStream { key }, Event::Opened(true)) => Step::Next(
                Download { requested, record, file, target, progress: Progress::ReadStream { key } },
            ),
            (Progress::OpenStream { key }, Event::Opened(false)) => Step::Done(
                Outcome::Skipped(SkipReason::Stream),
            ),
            (Progress::ReadStream { key }, Event::Read(None)) => Step::Done(
                Outcome::Skipped(SkipReason::Read),
            ),
            (Progress::ReadStream { key }, Event::Read(Some(encrypted))) => {
                let plain = read_decrypted(&key, &encrypted);
                let waiting = Download {
                    requested,
                    record,
                    file,
                    target,
                    progress: Progress::ReadStream { key },
                };
                assert(waiting@ == self@);
                waiting.decrypted(plain)
            },
            (Progress::Write { output }, Event::Written(true)) => Step::Done(Outcome::Written),
            (Progress::Write { output }, Event::Written(false)) => Step::Done(
                Outcome::Skipped(SkipReason::Write),
            ),
            (progress, _) => Step::Next(Download { requested, record, file, target, progress }),
        }
    }
}

/// The payload is the decrypted file without its first 167 bytes: byte
/// for byte what follows the preamble, so its first byte is the file's byte
/// at offset 167 and not the file's first byte, unless the two are alike.
pub proof fn lemma_payload_starts_after_preamble(plain: Seq<u8>)
    requires
        plain.len() > PREAMBLE_LEN,
    ensures
        payload_of(plain).len() == plain.len() - PREAMBLE_LEN,
        forall|i: int|
            0 <= i < payload_of(plain).len() ==> payload_of(plain)[i] == plain[PREAMBLE_LEN + i],
        payload_of(plain)[0] == plain[PREAMBLE_LEN as int],
        plain[0] != plain[PREAMBLE_LEN as int] ==> payload_of(plain)[0] != plain[0],
{
}

/// What the outside world answers in the course of one download, apart
/// from whether the output path exists.
pub struct Answers {
    pub dir_created: bool,
    pub key: Option<AudioKey>,
    pub opened: bool,
    pub read: Option<Vec<u8>>,
    pub decrypted: Option<Seq<u8>>,
    pub written: bool,
}

/// A step taken from a step: an ended download stays ended.
pub open spec fn advance(step: StepModel, event: Event, decrypted: Option<Seq<u8>>) -> StepModel {
    match step {
        StepModel::Next(download) => next_step(download, event, decrypted),
        ended => ended,
    }
}

/// A download run to its end against a set of existing files: every
/// request is answered in turn, the first by whether the path is among the
/// files.
pub open spec fn run_to_end(files: Set<Seq<char>>, first: StepModel, answers: Answers) -> StepModel {
    match first {
        StepModel::Next(download) => {
            let checked = next_step(download, Event::Exists(files.contains(download.path)), None);
            let with_dir = advance(checked, Event::DirCreated(answers.dir_created), None);
            let with_key = advance(with_dir, Event::Key(answers.key), None);
            let opened = advance(with_key, Event::Opened(answers.opened), None);
            let read = advance(opened, Event::Read(answers.read), answers.decrypted);
            advance(read, Event::Written(answers.written), None)
        },
        ended => ended,
    }
}

/// The files that exist after a download was run to its end: a written
/// download adds its path.
pub open spec fn files_after(files: Set<Seq<char>>, first: StepModel, answers: Answers) -> Set<
    Seq<char>,
> {
    match first {
        StepModel::Next(download) if run_to_end(files, first, answers) == StepModel::Done(
            Outcome::Written,
        ) => files.insert(download.path),
        _ => files,
    }
}

/// A download run to its end has ended.
pub proof fn lemma_run_ends(files: Set<Seq<char>>, first: StepModel, answers: Answers)
    ensures
        !(run_to_end(files, first, answers) is Next),
{
}

/// A download whose path exists ends as `AlreadyExists` at once, whatever
/// else would be answered, and adds no file.
pub proof fn lemma_existing_file_is_kept(
    files: Set<Seq<char>>,
    download: DownloadModel,
    answers: Answers,
)
    requires
        download.progress == ProgressModel::CheckExists,
        files.contains(download.path),
    ensures
        run_to_end(files, StepModel::Next(download), answers) == StepModel::Done(
            Outcome::AlreadyExists,
        ),
        files_after(files, StepModel::Next(download), answers) == files,
{
}

/// Running the same track against the same template twice: when the first
/// run ends as `Written`, the second ends as `AlreadyExists`, whatever is
/// answered to it, and the files stay as the first run left them.
pub proof fn lemma_second_run_finds_the_file(
    files: Set<Seq<char>>,
    requested: CatalogId,
    record: TrackRecord,
    file: FileHandle,
    template: Seq<char>,
    first_answers: Answers,
    second_answers: Answers,
)
    requires
        run_to_end(files, first_step(requested, record, file, template), first_answers)
            == StepModel::Done(Outcome::Written),
    ensures
        ({
            let first = first_step(requested, record, file, template);
            let left = files_after(files, first, first_answers);
            &&& run_to_end(left, first, second_answers) == StepModel::Done(Outcome::AlreadyExists)
            &&& files_after(left, first, second_answers) == left
        }),
{
}

/// A run ends as `Written` only if the path did not exist, every request
/// was answered with success and bytes could be prepared from what the
/// cipher gave.
pub proof fn lemma_written_needs_every_step(
    files: Set<Seq<char>>,
    download: DownloadModel,
    answers: Answers,
)
    requires
        download.progress == ProgressModel::CheckExists,
        run_to_end(files, StepModel::Next(download), answers) == StepModel::Done(Outcome::Written),
    ensures
        !files.contains(download.path),
        answers.dir_created,
        answers.key is Some,
        answers.opened,
        answers.read is Some,
        answers.decrypted matches Some(plain) && prepared(plain, download.record) is Some,
        answers.written,
{
}

} // verus!
