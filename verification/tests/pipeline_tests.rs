use librespot_audio::AudioDecrypt;
use librespot_core::audio_key::AudioKey as CipherKey;
use ogg::writing::{PacketWriteEndInfo, PacketWriter};
use oggvorbismeta::{make_comment_header, read_comment_header, CommentHeader, VorbisComments};
use std::collections::HashSet;
use std::io::{Cursor, Read};
use trackdl::base62::CatalogId;
use trackdl::catalog::{AudioFormat, AudioKey, FileHandle, TrackRecord};
use trackdl::pipeline::{
    download_one, prepare_output, strip_preamble, Download, Event, Outcome, Progress, RunError,
    SkipReason, Step, PREAMBLE_LEN,
};
use trackdl::path::PathError;
use trackdl::reference::{classify, ResourceKind};
use trackdl::search::{get_track_from_id, SearchStep};
use trackdl::summary::{summarize, RunSummary};
use trackdl::track_set::TrackSet;
use trackdl::vorbis::{header_within_limit, rewrite_comments};

const TEMPLATE: &str = "{author}/{album}/{name}.{ext}";

fn record(artists: &[&str]) -> TrackRecord {
    TrackRecord {
        id: CatalogId { value: 77 },
        name: "T".to_string(),
        album: "A".to_string(),
        artists: artists.iter().map(|a| a.to_string()).collect(),
        files: vec![(AudioFormat::Vorbis320, FileHandle { bytes: [3; 20] })],
        alternatives: vec![],
    }
}

fn container(old_title: &str) -> Vec<u8> {
    let mut old = CommentHeader::new();
    old.set_vendor("somebody");
    old.add_tag_single("title", old_title);
    old.add_tag_single("comment", "to be dropped");
    let mut ident = vec![1u8];
    ident.extend_from_slice(b"vorbis");
    ident.extend_from_slice(&[0u8; 23]);
    let mut out = Cursor::new(Vec::new());
    {
        let mut writer = PacketWriter::new(&mut out);
        writer.write_packet(ident.into_boxed_slice(), 9, PacketWriteEndInfo::EndPage, 0).unwrap();
        writer
            .write_packet(make_comment_header(&old).into_boxed_slice(), 9, PacketWriteEndInfo::EndPage, 0)
            .unwrap();
        writer
            .write_packet(vec![5u8; 700].into_boxed_slice(), 9, PacketWriteEndInfo::EndStream, 64)
            .unwrap();
    }
    out.into_inner()
}

fn with_preamble(payload: &[u8]) -> Vec<u8> {
    let mut plain: Vec<u8> = (0..PREAMBLE_LEN).map(|i| (i % 251) as u8 + 1).collect();
    plain.extend_from_slice(payload);
    plain
}

fn cipher(key: [u8; 16], data: &[u8]) -> Vec<u8> {
    let mut out = Vec::new();
    AudioDecrypt::new(CipherKey(key), data).read_to_end(&mut out).unwrap();
    out
}

fn tags_of(bytes: &[u8]) -> (String, Vec<(String, String)>) {
    let header = read_comment_header(Cursor::new(bytes.to_vec()));
    (header.vendor.clone(), header.comment_list.clone())
}

fn pair(a: &str, b: &str) -> (String, String) {
    (a.to_string(), b.to_string())
}

fn next(step: Step) -> Download {
    match step {
        Step::Next(d) => d,
        Step::Done(o) => panic!("ended as {:?}", o),
        Step::Abort(e) => panic!("aborted with {:?}", e),
    }
}

fn done(step: Step) -> Outcome {
    match step {
        Step::Done(o) => o,
        Step::Next(_) => panic!("still under way"),
        Step::Abort(e) => panic!("aborted with {:?}", e),
    }
}

fn begin() -> Download {
    next(download_one(CatalogId { value: 77 }, record(&["X", "Y"]), FileHandle { bytes: [3; 20] }, TEMPLATE))
}

fn up_to_read(key: [u8; 16]) -> Download {
    let d = next(begin().step(Event::Exists(false)));
    let d = next(d.step(Event::DirCreated(true)));
    let d = next(d.step(Event::Key(Some(AudioKey { bytes: key }))));
    next(d.step(Event::Opened(true)))
}

#[test]
fn strip_preamble_drops_exactly_167_bytes() {
    let buf: Vec<u8> = (0..300usize).map(|i| (i % 251) as u8).collect();
    let payload = strip_preamble(&buf).unwrap();
    assert_eq!(PREAMBLE_LEN, 167);
    assert_eq!(payload.len(), 133);
    assert_eq!(payload[0], buf[167]);
    assert_ne!(payload[0], buf[0]);
    assert_eq!(&payload[..], &buf[167..]);
}

#[test]
fn strip_preamble_at_the_limits() {
    assert_eq!(strip_preamble(&vec![1u8; 167]), Some(vec![]));
    assert_eq!(strip_preamble(&vec![1u8; 168]), Some(vec![1u8]));
    assert_eq!(strip_preamble(&vec![1u8; 166]), None);
    assert_eq!(strip_preamble(&vec![]), None);
}

#[test]
fn the_comment_header_is_read_back_as_written() {
    let out = rewrite_comments(&container("old"), &record(&["X", "Y"])).unwrap();
    let (vendor, tags) = tags_of(&out);
    assert_eq!(vendor, "Ogg");
    assert_eq!(tags, vec![pair("title", "T"), pair("album", "A"), pair("artist", "X"), pair("artist", "Y")]);
    let header = read_comment_header(Cursor::new(out));
    assert_eq!(header.get_tag_multi("title"), vec!["T".to_string()]);
    assert_eq!(header.get_tag_multi("album"), vec!["A".to_string()]);
    assert_eq!(header.get_tag_multi("artist"), vec!["X".to_string(), "Y".to_string()]);
    assert!(header.get_tag_multi("comment").is_empty());
}

#[test]
fn a_track_without_artists_gets_no_artist_tag() {
    let out = rewrite_comments(&container("old"), &record(&[])).unwrap();
    let (vendor, tags) = tags_of(&out);
    assert_eq!(vendor, "Ogg");
    assert_eq!(tags, vec![pair("title", "T"), pair("album", "A")]);
}

#[test]
fn only_the_comment_header_changes() {
    let before = container("old");
    let out = rewrite_comments(&before, &record(&["X"])).unwrap();
    assert_ne!(out, before);
    assert_eq!(&out[..4], b"OggS");
    let again = rewrite_comments(&out, &record(&["X"])).unwrap();
    assert_eq!(again, out);
}

#[test]
fn bytes_that_are_no_container_give_nothing_to_write() {
    let out = rewrite_comments(&vec![7u8; 64], &record(&["X"])).unwrap();
    assert!(out.is_empty());
}

#[test]
fn prepare_output_strips_then_splices() {
    let plain = with_preamble(&container("old"));
    let out = prepare_output(&plain, &record(&["X", "Y"])).unwrap();
    assert_eq!(Some(out.clone()), rewrite_comments(&container("old"), &record(&["X", "Y"])));
    assert_eq!(out[0], plain[167]);
    assert_ne!(out[0], plain[0]);
    assert_eq!(prepare_output(&vec![0u8; 100], &record(&["X"])), None);
}

#[test]
fn a_download_begins_with_the_check_of_its_path() {
    let d = begin();
    assert_eq!(d.target.path, "X/A/T.ogg");
    assert_eq!(d.target.folder, "X/A/");
    assert_eq!(d.requested, CatalogId { value: 77 });
    assert_eq!(d.record.id, CatalogId { value: 77 });
    assert_eq!(d.file, FileHandle { bytes: [3; 20] });
    assert!(matches!(d.progress, Progress::CheckExists));
}

#[test]
fn a_template_without_separator_ends_the_run() {
    match download_one(CatalogId { value: 1 }, record(&["X"]), FileHandle { bytes: [0; 20] }, "{name}") {
        Step::Abort(e) => assert_eq!(e, RunError::Template(PathError::NoSeparator)),
        _ => panic!("expected the run to end"),
    }
    match download_one(CatalogId { value: 1 }, record(&[]), FileHandle { bytes: [0; 20] }, TEMPLATE) {
        Step::Abort(e) => assert_eq!(e, RunError::Template(PathError::NoArtist)),
        _ => panic!("expected the run to end"),
    }
}

#[test]
fn an_existing_file_is_not_downloaded_again() {
    assert_eq!(done(begin().step(Event::Exists(true))), Outcome::AlreadyExists);
}

#[test]
fn a_folder_that_cannot_be_created_ends_the_run() {
    let d = next(begin().step(Event::Exists(false)));
    assert!(matches!(d.progress, Progress::CreateDir));
    match d.step(Event::DirCreated(false)) {
        Step::Abort(e) => assert_eq!(e, RunError::CreateDir),
        _ => panic!("expected the run to end"),
    }
}

#[test]
fn each_failed_step_skips_the_track() {
    let d = next(begin().step(Event::Exists(false)));
    let d = next(d.step(Event::DirCreated(true)));
    assert!(matches!(d.progress, Progress::RequestKey));
    assert_eq!(done(d.step(Event::Key(None))), Outcome::Skipped(SkipReason::Key));

    let d = next(begin().step(Event::Exists(false)));
    let d = next(d.step(Event::DirCreated(true)));
    let d = next(d.step(Event::Key(Some(AudioKey { bytes: [1; 16] }))));
    assert!(matches!(d.progress, Progress::OpenStream { .. }));
    assert_eq!(done(d.step(Event::Opened(false))), Outcome::Skipped(SkipReason::Stream));

    let d = up_to_read([1; 16]);
    assert!(matches!(d.progress, Progress::ReadStream { .. }));
    assert_eq!(done(d.step(Event::Read(None))), Outcome::Skipped(SkipReason::Read));

    let d = up_to_read([1; 16]);
    assert_eq!(done(d.step(Event::Read(Some(vec![0u8; 10])))), Outcome::Skipped(SkipReason::Container));

    let d = up_to_read([1; 16]);
    let d = next(d.step(Event::Read(Some(cipher([1; 16], &with_preamble(&container("old")))))));
    assert_eq!(done(d.step(Event::Written(false))), Outcome::Skipped(SkipReason::Write));
}

#[test]
fn a_failed_cipher_skips_the_track() {
    assert_eq!(done(up_to_read([1; 16]).decrypted(None)), Outcome::Skipped(SkipReason::Decrypt));
}

#[test]
fn an_answer_nobody_waits_for_changes_nothing() {
    let d = next(begin().step(Event::Written(true)));
    assert!(matches!(d.progress, Progress::CheckExists));
    let d = next(d.step(Event::Key(None)));
    assert!(matches!(d.progress, Progress::CheckExists));
    let d = next(d.step(Event::Exists(false)));
    let d = next(d.step(Event::Exists(true)));
    assert!(matches!(d.progress, Progress::CreateDir));
    assert_eq!(d.target.path, "X/A/T.ogg");
}

#[test]
fn the_stream_is_decrypted_stripped_and_tagged() {
    let key = [0x42u8; 16];
    let plain = with_preamble(&container("old"));
    let encrypted = cipher(key, &plain);
    assert_eq!(encrypted.len(), plain.len());
    assert_ne!(encrypted, plain);
    assert_eq!(cipher(key, &encrypted), plain);

    let d = next(up_to_read(key).step(Event::Read(Some(encrypted))));
    let output = match &d.progress {
        Progress::Write { output } => output.clone(),
        _ => panic!("not ready to write"),
    };
    assert_eq!(Some(output.clone()), prepare_output(&plain, &record(&["X", "Y"])));
    let (vendor, tags) = tags_of(&output);
    assert_eq!(vendor, "Ogg");
    assert_eq!(tags, vec![pair("title", "T"), pair("album", "A"), pair("artist", "X"), pair("artist", "Y")]);
    assert_eq!(done(d.step(Event::Written(true))), Outcome::Written);
}

#[test]
fn the_wrong_key_gives_no_container() {
    let plain = with_preamble(&container("old"));
    let encrypted = cipher([0x42; 16], &plain);
    let d = next(up_to_read([0x43; 16]).step(Event::Read(Some(encrypted))));
    match &d.progress {
        Progress::Write { output } => assert!(output.is_empty()),
        _ => panic!("not ready to write"),
    }
}

fn run(files: &mut HashSet<String>, encrypted: &[u8], key: [u8; 16]) -> Outcome {
    let mut step = download_one(CatalogId { value: 77 }, record(&["X", "Y"]), FileHandle { bytes: [3; 20] }, TEMPLATE);
    loop {
        let d = match step {
            Step::Next(d) => d,
            Step::Done(o) => return o,
            Step::Abort(e) => panic!("aborted with {:?}", e),
        };
        let event = match &d.progress {
            Progress::CheckExists => Event::Exists(files.contains(&d.target.path)),
            Progress::CreateDir => Event::DirCreated(true),
            Progress::RequestKey => Event::Key(Some(AudioKey { bytes: key })),
            Progress::OpenStream { .. } => Event::Opened(true),
            Progress::ReadStream { .. } => Event::Read(Some(encrypted.to_vec())),
            Progress::Write { output } => {
                assert!(!output.is_empty());
                files.insert(d.target.path.clone());
                Event::Written(true)
            }
        };
        step = d.step(event);
    }
}

#[test]
fn a_second_run_finds_the_file_of_the_first() {
    let key = [9u8; 16];
    let encrypted = cipher(key, &with_preamble(&container("old")));
    let mut files = HashSet::new();
    assert_eq!(run(&mut files, &encrypted, key), Outcome::Written);
    assert_eq!(files.len(), 1);
    assert!(files.contains("X/A/T.ogg"));
    assert_eq!(run(&mut files, &encrypted, key), Outcome::AlreadyExists);
    assert_eq!(files.len(), 1);
}

#[test]
fn one_track_reference_from_line_to_summary() {
    let line = "spotify:track:0000000000000000000017";
    let reference = classify(line).unwrap();
    assert_eq!(reference.kind, ResourceKind::Track);
    assert_eq!(reference.id, CatalogId { value: 69 });
    let mut set = TrackSet::new();
    set.insert(reference.id);
    let ids = set.to_vec();
    assert_eq!(ids, vec![CatalogId { value: 69 }]);

    let key = [7u8; 16];
    let encrypted = cipher(key, &with_preamble(&container("old")));
    let mut files = HashSet::new();
    let mut outcomes = Vec::new();
    for id in &ids {
        let mut fetched = record(&["X", "Y"]);
        fetched.id = *id;
        let (found, file) = match get_track_from_id(*id).fetched(Ok(fetched)) {
            SearchStep::Found(r, f) => (r, f),
            _ => panic!("not found"),
        };
        assert_eq!(found.id, *id);
        assert_eq!(file, FileHandle { bytes: [3; 20] });
        outcomes.push(run(&mut files, &encrypted, key));
    }
    assert_eq!(outcomes, vec![Outcome::Written]);
    assert_eq!(
        summarize(ids.len(), &outcomes),
        RunSummary { errored: 0, existing: 0, written: 1, total: 1 }
    );
}

#[test]
fn the_key_is_asked_for_the_record_that_is_downloaded() {
    let mut stand_in = record(&["X"]);
    stand_in.id = CatalogId { value: 78 };
    let d = next(download_one(CatalogId { value: 77 }, stand_in, FileHandle { bytes: [4; 20] }, TEMPLATE));
    assert!(d.stands_in());
    assert_eq!(d.key_request(), (CatalogId { value: 78 }, FileHandle { bytes: [4; 20] }));
    assert_eq!(d.requested, CatalogId { value: 77 });
    let same = begin();
    assert!(!same.stands_in());
    assert_eq!(same.key_request(), (CatalogId { value: 77 }, FileHandle { bytes: [3; 20] }));
}

#[test]
fn ordinary_headers_are_within_the_limit() {
    assert!(header_within_limit(&record(&["X", "Y"])));
    assert!(header_within_limit(&record(&[])));
    let mut long = record(&["X"]);
    long.name = "\u{e9}".repeat(100_000);
    assert!(header_within_limit(&long));
}
