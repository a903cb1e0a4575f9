//! The reference grammar: a whole line names a track, playlist, album or
//! artist either as a URI, `spotify:<kind>:<id>`, or as a URL,
//! `http://open.spotify.com/<kind>/<id>` or
//! `https://open.spotify.com/<kind>/<id>`; `<id>` is 22 base-62 digits.

use vstd::prelude::*;
use crate::base62::{base62_decoded, decode_chars, CatalogId};
use crate::text::{append_chars, chars_of, copy_range, same_text, string_of};

verus! {

/// The four kinds of resource a reference can name.
#[derive(Clone, Copy, PartialEq, Eq, Structural, Debug)]
pub enum ResourceKind {
    Track,
    Playlist,
    Album,
    Artist,
}

/// The schemes a URL form can begin with.
#[derive(Clone, Copy, PartialEq, Eq, Structural, Debug)]
pub enum UrlScheme {
    Http,
    Https,
}

/// A classified reference: its kind, the decoded identifier and the
/// identifier's text exactly as it stood in the line.
#[derive(Debug)]
pub struct Reference {
    pub kind: ResourceKind,
    pub id: CatalogId,
    pub id_text: String,
}

/// Number of characters in an identifier's text.
pub const ID_LEN: usize = 22;

/// The word that stands for a kind in both forms.
pub open spec fn kind_name(kind: ResourceKind) -> Seq<char> {
    match kind {
        ResourceKind::Track => "track"@,
        ResourceKind::Playlist => "playlist"@,
        ResourceKind::Album => "album"@,
        ResourceKind::Artist => "artist"@,
    }
}

/// What precedes the identifier in the URI form.
pub open spec fn uri_prefix(kind: ResourceKind) -> Seq<char> {
    "spotify:"@ + kind_name(kind) + ":"@
}

/// The text of a URL scheme, separator included.
pub open spec fn scheme_text(scheme: UrlScheme) -> Seq<char> {
    match scheme {
        UrlScheme::Http => "http://"@,
        UrlScheme::Https => "https://"@,
    }
}

/// What precedes the identifier in the URL form.
pub open spec fn url_prefix(scheme: UrlScheme, kind: ResourceKind) -> Seq<char> {
    scheme_text(scheme) + "open.spotify.com/"@ + kind_name(kind) + "/"@
}

/// The URI form of a resource.
pub open spec fn uri_form(kind: ResourceKind, id_text: Seq<char>) -> Seq<char> {
    uri_prefix(kind) + id_text
}

/// The URL form of a resource.
pub open spec fn url_form(scheme: UrlScheme, kind: ResourceKind, id_text: Seq<char>) -> Seq<char> {
    url_prefix(scheme, kind) + id_text
}

/// `p` is what one of the accepted forms puts in front of the identifier.
pub open spec fn is_reference_prefix(p: Seq<char>, kind: ResourceKind) -> bool {
    ||| p == uri_prefix(kind)
    ||| p == url_prefix(UrlScheme::Http, kind)
    ||| p == url_prefix(UrlScheme::Https, kind)
}

/// The resource of the given kind that the whole line names: the decoded
/// identifier and its text. The line must be one of the accepted prefixes
/// followed by exactly 22 characters that decode as a base-62 identifier.
pub open spec fn resource_in(line: Seq<char>, kind: ResourceKind) -> Option<(u128, Seq<char>)> {
    if line.len() >= ID_LEN && is_reference_prefix(line.take(line.len() - ID_LEN), kind) {
        let id_text = line.skip(line.len() - ID_LEN);
        match base62_decoded(id_text) {
            Some(value) => Some((value, id_text)),
            None => None,
        }
    } else {
        None
    }
}

/// The classification of a line: the first kind, in the order track,
/// playlist, album, artist, of which the line names a resource.
pub open spec fn classified(line: Seq<char>) -> Option<(ResourceKind, u128, Seq<char>)> {
    if let Some((value, id_text)) = resource_in(line, ResourceKind::Track) {
        Some((ResourceKind::Track, value, id_text))
    } else if let Some((value, id_text)) = resource_in(line, ResourceKind::Playlist) {
        Some((ResourceKind::Playlist, value, id_text))
    } else if let Some((value, id_text)) = resource_in(line, ResourceKind::Album) {
        Some((ResourceKind::Album, value, id_text))
    } else if let Some((value, id_text)) = resource_in(line, ResourceKind::Artist) {
        Some((ResourceKind::Artist, value, id_text))
    } else {
        None
    }
}

fn kind_word(kind: ResourceKind) -> (w: Vec<char>)
    ensures
        w@ == kind_name(kind),
{
    match kind {
        ResourceKind::Track => chars_of("track"),
        ResourceKind::Playlist => chars_of("playlist"),
        ResourceKind::Album => chars_of("album"),
        ResourceKind::Artist => chars_of("artist"),
    }
}

fn uri_prefix_chars(kind: ResourceKind) -> (p: Vec<char>)
    ensures
        p@ == uri_prefix(kind),
{
    let mut p = chars_of("spotify:");
    append_chars(&mut p, &kind_word(kind));
    append_chars(&mut p, &chars_of(":"));
    p
}

fn url_prefix_chars(scheme: UrlScheme, kind: ResourceKind) -> (p: Vec<char>)
    ensures
        p@ == url_prefix(scheme, kind),
{
    let mut p = match scheme {
        UrlScheme::Http => chars_of("http://"),
        UrlScheme::Https => chars_of("https://"),
    };
    append_chars(&mut p, &chars_of("open.spotify.com/"));
    append_chars(&mut p, &kind_word(kind));
    append_chars(&mut p, &chars_of("/"));
    p
}

/// Reads a line as a reference of the given kind. Returns the identifier
/// and its text when the whole line is one of the accepted forms for that
/// kind and the identifier decodes; `None` otherwise.
pub fn get_resource_from_line(line: &str, kind: ResourceKind) -> (r: Option<(CatalogId, String)>)
    ensures
        match resource_in(line@, kind) {
            Some((value, id_text)) => r matches Some((id, text)) && id.value == value && text@
                == id_text,
            None => r is None,
        },
{
    let chars = chars_of(line);
    if chars.len() < ID_LEN {
        return None;
    }
    let split = chars.len() - ID_LEN;
    let head = copy_range(&chars, 0, split);
    assert(head@ == line@.take(line@.len() - ID_LEN));
    let known = same_text(&head, &uri_prefix_chars(kind)) || same_text(
        &head,
        &url_prefix_chars(UrlScheme::Http, kind),
    ) || same_text(&head, &url_prefix_chars(UrlScheme::Https, kind));
    if !known {
        return None;
    }
    match decode_chars(&chars, split) {
        Some(value) => {
            let tail = copy_range(&chars, split, chars.len());
            assert(tail@ == line@.skip(line@.len() - ID_LEN));
            Some((CatalogId { value }, string_of(&tail)))
        },
        None => None,
    }
}

/// Classifies a line, trying the kinds in the order track, playlist, album,
/// artist. `None` means the line is not a reference.
pub fn classify(line: &str) -> (r: Option<Reference>)
    ensures
        match classified(line@) {
            Some((kind, value, id_text)) => r matches Some(found) && found.kind == kind
                && found.id.value == value && found.id_text@ == id_text,
            None => r is None,
        },
{
    if let Some((id, id_text)) = get_resource_from_line(line, ResourceKind::Track) {
        Some(Reference { kind: ResourceKind::Track, id, id_text })
    } else if let Some((id, id_text)) = get_resource_from_line(line, ResourceKind::Playlist) {
        Some(Reference { kind: ResourceKind::Playlist, id, id_text })
    } else if let Some((id, id_text)) = get_resource_from_line(line, ResourceKind::Album) {
        Some(Reference { kind: ResourceKind::Album, id, id_text })
    } else if let Some((id, id_text)) = get_resource_from_line(line, ResourceKind::Artist) {
        Some(Reference { kind: ResourceKind::Artist, id, id_text })
    } else {
        None
    }
}

/// The first two letters of a kind's word tell the kinds apart.
proof fn lemma_kind_words(kind: ResourceKind)
    ensures
        kind_name(kind).len() >= 5,
        kind == ResourceKind::Track <==> kind_name(kind)[0] == 't',
        kind == ResourceKind::Playlist <==> kind_name(kind)[0] == 'p',
        kind == ResourceKind::Album <==> kind_name(kind)[0] == 'a' && kind_name(kind)[1] == 'l',
        kind == ResourceKind::Artist <==> kind_name(kind)[0] == 'a' && kind_name(kind)[1] == 'r',
{
    reveal_strlit("track");
    reveal_strlit("playlist");
    reveal_strlit("album");
    reveal_strlit("artist");
}

/// Where the kind's word stands in a URI prefix, and how the prefix begins.
proof fn lemma_uri_prefix_shape(kind: ResourceKind)
    ensures
        uri_prefix(kind).len() == 9 + kind_name(kind).len(),
        uri_prefix(kind)[0] == 's',
        uri_prefix(kind)[8] == kind_name(kind)[0],
        uri_prefix(kind)[9] == kind_name(kind)[1],
{
    reveal_strlit("spotify:");
    reveal_strlit(":");
    lemma_kind_words(kind);
}

/// Where the kind's word stands in a URL prefix, and how the prefix begins.
proof fn lemma_url_prefix_shape(scheme: UrlScheme, kind: ResourceKind)
    ensures
        url_prefix(scheme, kind).len() == scheme_text(scheme).len() + 18 + kind_name(kind).len(),
        scheme == UrlScheme::Http ==> scheme_text(scheme).len() == 7 && url_prefix(scheme, kind)[0]
            == 'h' && url_prefix(scheme, kind)[4] == ':',
        scheme == UrlScheme::Https ==> scheme_text(scheme).len() == 8 && url_prefix(
            scheme,
            kind,
        )[0] == 'h' && url_prefix(scheme, kind)[4] == 's',
        url_prefix(scheme, kind)[scheme_text(scheme).len() as int + 17] == kind_name(kind)[0],
        url_prefix(scheme, kind)[scheme_text(scheme).len() as int + 18] == kind_name(kind)[1],
{
    reveal_strlit("http://");
    reveal_strlit("https://");
    reveal_strlit("open.spotify.com/");
    reveal_strlit("/");
    lemma_kind_words(kind);
}

/// A prefix belongs to one kind only.
pub proof fn lemma_prefix_names_one_kind(p: Seq<char>, a: ResourceKind, b: ResourceKind)
    requires
        is_reference_prefix(p, a),
        is_reference_prefix(p, b),
    ensures
        a == b,
{
    lemma_kind_words(a);
    lemma_kind_words(b);
    lemma_uri_prefix_shape(a);
    lemma_uri_prefix_shape(b);
    lemma_url_prefix_shape(UrlScheme::Http, a);
    lemma_url_prefix_shape(UrlScheme::Http, b);
    lemma_url_prefix_shape(UrlScheme::Https, a);
    lemma_url_prefix_shape(UrlScheme::Https, b);
}

/// A line made of an accepted prefix for `kind` and 22 further characters
/// classifies as that kind with that identifier, or not at all when the
/// characters do not decode.
pub proof fn lemma_classified_form(prefix: Seq<char>, kind: ResourceKind, id_text: Seq<char>)
    requires
        is_reference_prefix(prefix, kind),
        id_text.len() == ID_LEN,
    ensures
        classified(prefix + id_text) == match base62_decoded(id_text) {
            Some(value) => Some((kind, value, id_text)),
            None => None,
        },
{
    let line = prefix + id_text;
    assert(line.take(line.len() - ID_LEN) == prefix);
    assert(line.skip(line.len() - ID_LEN) == id_text);
    if kind != ResourceKind::Track && is_reference_prefix(prefix, ResourceKind::Track) {
        lemma_prefix_names_one_kind(prefix, kind, ResourceKind::Track);
    }
    if kind != ResourceKind::Playlist && is_reference_prefix(prefix, ResourceKind::Playlist) {
        lemma_prefix_names_one_kind(prefix, kind, ResourceKind::Playlist);
    }
    if kind != ResourceKind::Album && is_reference_prefix(prefix, ResourceKind::Album) {
        lemma_prefix_names_one_kind(prefix, kind, ResourceKind::Album);
    }
    if kind != ResourceKind::Artist && is_reference_prefix(prefix, ResourceKind::Artist) {
        lemma_prefix_names_one_kind(prefix, kind, ResourceKind::Artist);
    }
}

/// The URI form and every URL form of one resource classify alike: as the
/// same kind with the same identifier.
pub proof fn lemma_forms_agree(kind: ResourceKind, id_text: Seq<char>, scheme: UrlScheme)
    requires
        id_text.len() == ID_LEN,
    ensures
        classified(uri_form(kind, id_text)) == classified(url_form(scheme, kind, id_text)),
        classified(uri_form(kind, id_text)) == match base62_decoded(id_text) {
            Some(value) => Some((kind, value, id_text)),
            None => None,
        },
{
    lemma_classified_form(uri_prefix(kind), kind, id_text);
    lemma_classified_form(url_prefix(scheme, kind), kind, id_text);
}

/// A URL without a scheme is no reference: a line that starts with the
/// host classifies as nothing, whatever follows the host.
pub proof fn lemma_url_needs_scheme(kind: ResourceKind, id_text: Seq<char>)
    requires
        id_text.len() == ID_LEN,
    ensures
        classified("open.spotify.com/"@ + kind_name(kind) + "/"@ + id_text) is None,
{
    let bare = "open.spotify.com/"@ + kind_name(kind) + "/"@;
    let line = bare + id_text;
    assert(line.take(line.len() - ID_LEN) == bare);
    reveal_strlit("open.spotify.com/");
    assert(bare[0] == 'o');
    assert forall|other: ResourceKind| !is_reference_prefix(bare, other) by {
        lemma_uri_prefix_shape(other);
        lemma_url_prefix_shape(UrlScheme::Http, other);
        lemma_url_prefix_shape(UrlScheme::Https, other);
    }
}

/// Only an accepted form classifies: a classified line is an accepted
/// prefix for the reported kind followed by the reported identifier text.
pub proof fn lemma_classified_is_form(line: Seq<char>)
    requires
        classified(line) is Some,
    ensures
        ({
            let (kind, value, id_text) = classified(line)->0;
            &&& id_text.len() == ID_LEN
            &&& base62_decoded(id_text) == Some(value)
            &&& exists|prefix: Seq<char>|
                is_reference_prefix(prefix, kind) && line == #[trigger] (prefix + id_text)
        }),
{
    let (kind, value, id_text) = classified(line)->0;
    let prefix = line.take(line.len() - ID_LEN);
    assert(line == prefix + id_text);
}

} // verus!
