use trackdl::base62::CatalogId;
use trackdl::catalog::TrackRecord;
use trackdl::path::{output_path, PathError};

fn record(name: &str, album: &str, artists: &[&str]) -> TrackRecord {
    TrackRecord {
        id: CatalogId { value: 1 },
        name: name.to_string(),
        album: album.to_string(),
        artists: artists.iter().map(|a| a.to_string()).collect(),
        files: vec![],
        alternatives: vec![],
    }
}

fn by_the_standard_library(template: &str, r: &TrackRecord) -> String {
    template
        .replace("{author}", &r.artists[0])
        .replace("{album}", &r.album)
        .replace("{name}", &r.name.replace('/', " "))
        .replace("{ext}", "ogg")
}

#[test]
fn the_default_template() {
    let r = record("Song", "Album", &["Main", "Guest"]);
    let out = output_path("{author}/{album}/{name}.{ext}", &r).unwrap();
    assert_eq!(out.path, "Main/Album/Song.ogg");
    assert_eq!(out.folder, "Main/Album/");
}

#[test]
fn a_slash_in_the_name_becomes_a_space() {
    let r = record("AC/DC live", "A/B", &["X"]);
    let out = output_path("out/{name}.{ext}", &r).unwrap();
    assert_eq!(out.path, "out/AC DC live.ogg");
    assert_eq!(out.folder, "out/");
    let kept = output_path("{album}/{name}", &r).unwrap();
    assert_eq!(kept.path, "A/B/AC DC live");
    assert_eq!(kept.folder, "A/B/");
}

#[test]
fn a_template_without_separator_fails() {
    let r = record("a/b", "Album", &["X"]);
    assert_eq!(output_path("{name}.{ext}", &r).unwrap_err(), PathError::NoSeparator);
    assert_eq!(output_path("", &r).unwrap_err(), PathError::NoSeparator);
}

#[test]
fn a_record_without_artist_fails() {
    let r = record("Song", "Album", &[]);
    assert_eq!(output_path("{author}/{name}", &r).unwrap_err(), PathError::NoArtist);
    assert_eq!(output_path("x", &r).unwrap_err(), PathError::NoArtist);
}

#[test]
fn placeholders_are_filled_one_after_the_other() {
    let r = record("{ext}", "{name}", &["{album}"]);
    let out = output_path("{author}/x", &r).unwrap();
    assert_eq!(out.path, "ogg/x");
    assert_eq!(out.folder, "ogg/");
}

#[test]
fn repeated_and_unknown_placeholders() {
    let r = record("N", "A", &["M"]);
    let out = output_path("/{author}{author}/{other}/{name}.{ext}.{ext}", &r).unwrap();
    assert_eq!(out.path, "/MM/{other}/N.ogg.ogg");
    assert_eq!(out.folder, "/MM/{other}/");
    let end = output_path("{author}/", &r).unwrap();
    assert_eq!(end.path, "M/");
    assert_eq!(end.folder, "M/");
}

#[test]
fn paths_agree_with_the_standard_library() {
    let records = [
        record("Song", "Album", &["Main"]),
        record("a/b/c", "\u{e9}t\u{e9}", &["{name}", "z"]),
        record("{author}", "{ext}/{ext}", &["/"]),
        record("", "", &[""]),
    ];
    let templates = [
        "{author}/{album}/{name}.{ext}", "{name}/{name}", "x/{ext}{ext}", "{author}{album}/",
        "/{", "{{author}}/{album", "a/b/c/{name}",
    ];
    for r in &records {
        for t in templates {
            let expected = by_the_standard_library(t, r);
            match output_path(t, r) {
                Ok(out) => {
                    assert_eq!(out.path, expected);
                    let at = expected.rfind('/').unwrap();
                    assert_eq!(out.folder, &expected[..at + 1]);
                }
                Err(e) => {
                    assert_eq!(e, PathError::NoSeparator);
                    assert!(!expected.contains('/'));
                }
            }
        }
    }
}
