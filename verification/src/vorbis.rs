//! The comment header of the audio container: which tags a track gets, and
//! the splice that puts them in place of the container's own.

use oggvorbismeta::{replace_comment_header, CommentHeader, VorbisComments};
use std::io::Cursor;
use vstd::prelude::*;
use vstd::utf8::encode_utf8;
use crate::catalog::TrackRecord;

verus! {

/// The comment header type of `oggvorbismeta`: a vendor string and a list
/// of tags, each a name and a value.
#[verifier::external_type_specification]
#[verifier::external_body]
pub struct ExCommentHeader(CommentHeader);

/// The vendor string that a comment header holds.
pub uninterp spec fn header_vendor(header: CommentHeader) -> Seq<char>;

/// The tags that a comment header holds, as name and value, in the order
/// they were added.
pub uninterp spec fn header_tags(header: CommentHeader) -> Seq<(Seq<char>, Seq<char>)>;

/// The bytes that `oggvorbismeta::replace_comment_header` gives for a
/// container and a comment header with the given vendor and tags.
pub uninterp spec fn spliced(
    container: Seq<u8>,
    vendor: Seq<char>,
    tags: Seq<(Seq<char>, Seq<char>)>,
) -> Seq<u8>;

/// Only the letters `a` to `z`.
pub open spec fn is_lower_word(s: Seq<char>) -> bool {
    forall|i: int| 0 <= i < s.len() ==> 97 <= (#[trigger] s[i]) as u32 <= 122
}

/// Most bytes that the text of a comment header may take, and most bytes
/// that a container may have, for the splice.
pub const SPLICE_LIMIT: u64 = 0x7FFF_FFFF;

/// Number of bytes that a tag takes in the comment packet as `name=value`.
pub open spec fn tag_size(tag: (Seq<char>, Seq<char>)) -> nat {
    encode_utf8(tag.0).len() + 1 + encode_utf8(tag.1).len()
}

/// Number of bytes that the tags take together.
pub open spec fn tags_size(tags: Seq<(Seq<char>, Seq<char>)>) -> nat
    decreases tags.len(),
{
    if tags.len() == 0 {
        0
    } else {
        tags_size(tags.drop_last()) + tag_size(tags.last())
    }
}

/// A header whose text, vendor and tags together, stays within the limit.
/// Then the vendor's length, the number of tags and each tag's length fit
/// in the 32 bits that the comment packet gives them.
pub open spec fn header_fits(vendor: Seq<char>, tags: Seq<(Seq<char>, Seq<char>)>) -> bool {
    encode_utf8(vendor).len() + tags_size(tags) <= SPLICE_LIMIT
}

/// The tags of a header that fits are no more than the limit, and none is
/// longer than it.
pub proof fn lemma_fitting_header(vendor: Seq<char>, tags: Seq<(Seq<char>, Seq<char>)>)
    requires
        header_fits(vendor, tags),
    ensures
        encode_utf8(vendor).len() <= SPLICE_LIMIT,
        tags.len() <= SPLICE_LIMIT,
        forall|i: int| 0 <= i < tags.len() ==> tag_size(#[trigger] tags[i]) <= SPLICE_LIMIT,
{
    lemma_tags_size_bounds(tags);
}

/// The tags take at least one byte each, and no tag takes more than all
/// together.
pub proof fn lemma_tags_size_bounds(tags: Seq<(Seq<char>, Seq<char>)>)
    ensures
        tags.len() <= tags_size(tags),
        forall|i: int| 0 <= i < tags.len() ==> tag_size(#[trigger] tags[i]) <= tags_size(tags),
    decreases tags.len(),
{
    if tags.len() > 0 {
        lemma_tags_size_bounds(tags.drop_last());
        assert forall|i: int| 0 <= i < tags.len() implies tag_size(#[trigger] tags[i])
            <= tags_size(tags) by {
            if i < tags.len() - 1 {
                assert(tags.drop_last()[i] == tags[i]);
            }
        }
    }
}

/// The first tags of a list take no more bytes than the whole list.
pub proof fn lemma_tags_size_grows(tags: Seq<(Seq<char>, Seq<char>)>, k: int)
    requires
        0 <= k <= tags.len(),
    ensures
        tags_size(tags.take(k)) <= tags_size(tags),
    decreases tags.len(),
{
    if k == tags.len() {
        assert(tags.take(k) == tags);
    } else {
        lemma_tags_size_grows(tags.drop_last(), k);
        assert(tags.drop_last().take(k) == tags.take(k));
    }
}

/// `VorbisComments::new` of `oggvorbismeta`: a header with an empty vendor
/// string and no tags.
#[verifier::external_body]
fn new_header() -> (header: CommentHeader)
    ensures
        header_vendor(header) == Seq::<char>::empty(),
        header_tags(header) == Seq::<(Seq<char>, Seq<char>)>::empty(),
{
    CommentHeader::new()
}

/// `VorbisComments::set_vendor` of `oggvorbismeta`: the vendor string
/// becomes the given one; the tags stay.
#[verifier::external_body]
fn set_vendor(header: &mut CommentHeader, vendor: &str)
    ensures
        header_vendor(*final(header)) == vendor@,
        header_tags(*final(header)) == header_tags(*old(header)),
{
    header.set_vendor(vendor)
}

/// `VorbisComments::add_tag_single` of `oggvorbismeta`: appends one tag. The
/// outside function lowercases the name first, which leaves a name of the
/// letters `a` to `z` as it is; other names are not admitted here.
#[verifier::external_body]
fn add_tag_single(header: &mut CommentHeader, name: &str, value: &str)
    requires
        is_lower_word(name@),
    ensures
        header_vendor(*final(header)) == header_vendor(*old(header)),
        header_tags(*final(header)) == header_tags(*old(header)).push((name@, value@)),
{
    header.add_tag_single(name, value)
}

/// `replace_comment_header` of `oggvorbismeta`, on a container held in
/// memory: the result is named, not described. The outside function stops
/// the program when the vendor's length, the number of tags or a tag's
/// length does not fit in 32 bits, and the writer beneath it counts pages in
/// 32 bits; a header and a container within the limit stay clear of both.
#[verifier::external_body]
fn replace_header(container: &Vec<u8>, header: CommentHeader) -> (out: Vec<u8>)
    requires
        container@.len() <= SPLICE_LIMIT,
        header_fits(header_vendor(header), header_tags(header)),
    ensures
        out@ == spliced(container@, header_vendor(header), header_tags(header)),
{
    replace_comment_header(Cursor::new(&container[..]), header).into_inner()
}

/// The vendor string written into every file.
pub open spec fn vendor_tag() -> Seq<char> {
    "Ogg"@
}

/// One `artist` tag for each artist, in the artists' order.
pub open spec fn artist_tags(artists: Seq<String>) -> Seq<(Seq<char>, Seq<char>)> {
    Seq::new(artists.len(), |i: int| ("artist"@, artists[i]@))
}

/// The tags of a track: its title, its album, then its artists.
pub open spec fn comment_tags(record: TrackRecord) -> Seq<(Seq<char>, Seq<char>)> {
    seq![("title"@, record.name@), ("album"@, record.album@)] + artist_tags(record.artists@)
}

/// Adds the size of a tag to a running size, as long as the sum stays
/// within the limit.
fn add_tag_size(so_far: u64, name: &str, value: &str) -> (r: Option<u64>)
    requires
        so_far <= SPLICE_LIMIT,
    ensures
        match r {
            Some(sum) => sum == so_far + tag_size((name@, value@)) && sum <= SPLICE_LIMIT,
            None => so_far + tag_size((name@, value@)) > SPLICE_LIMIT,
        },
{
    let n = name.as_bytes().len() as u64;
    let v = value.as_bytes().len() as u64;
    if n > SPLICE_LIMIT || v > SPLICE_LIMIT || so_far + n + 1 + v > SPLICE_LIMIT {
        None
    } else {
        Some(so_far + n + 1 + v)
    }
}

/// Tests whether the comment header of a track stays within the limit.
pub fn header_within_limit(record: &TrackRecord) -> (r: bool)
    ensures
        r == header_fits(vendor_tag(), comment_tags(*record)),
{
    proof {
        reveal_strlit("Ogg");
        vstd::utf8::is_ascii_chars_encode_utf8("Ogg"@);
    }
    let ghost wanted = comment_tags(*record);
    let ghost vendor_len = encode_utf8(vendor_tag()).len();
    let vendor_size = "Ogg".as_bytes().len() as u64;
    proof {
        assert(wanted.take(0).len() == 0);
        assert(tags_size(wanted.take(0)) == 0);
        assert(wanted.take(1).drop_last() == wanted.take(0));
        assert(wanted.take(1).last() == ("title"@, record.name@));
        assert(tags_size(wanted.take(1)) == tag_size(("title"@, record.name@)));
        assert(wanted.take(2).drop_last() == wanted.take(1));
        assert(wanted.take(2).last() == ("album"@, record.album@));
        assert(tags_size(wanted.take(2)) == tags_size(wanted.take(1)) + tag_size(
            ("album"@, record.album@),
        ));
    }
    let with_title = match add_tag_size(vendor_size, "title", record.name.as_str()) {
        Some(sum) => sum,
        None => {
            proof {
                lemma_tags_size_grows(wanted, 1);
            }
            return false;
        },
    };
    let mut total = match add_tag_size(with_title, "album", record.album.as_str()) {
        Some(sum) => sum,
        None => {
            proof {
                lemma_tags_size_grows(wanted, 2);
            }
            return false;
        },
    };
    let mut i: usize = 0;
    while i < record.artists.len()
        invariant
            i <= record.artists.len(),
            wanted == comment_tags(*record),
            vendor_len == encode_utf8(vendor_tag()).len(),
            total == vendor_len + tags_size(wanted.take(i + 2)),
            total <= SPLICE_LIMIT,
        decreases record.artists.len() - i,
    {
        proof {
            assert(wanted.take(i + 3).drop_last() == wanted.take(i + 2));
            assert(wanted.take(i + 3).last() == ("artist"@, record.artists@[i as int]@));
        }
        total = match add_tag_size(total, "artist", record.artists[i].as_str()) {
            Some(sum) => sum,
            None => {
                proof {
                    lemma_tags_size_grows(wanted, i + 3);
                }
                return false;
            },
        };
        i += 1;
    }
    assert(wanted.take(record.artists.len() + 2) == wanted);
    true
}

/// Builds the comment header of a track: vendor `Ogg`, one `title` tag, one
/// `album` tag and one `artist` tag per artist, in that order.
pub fn build_comment_header(record: &TrackRecord) -> (header: CommentHeader)
    ensures
        header_vendor(header) == vendor_tag(),
        header_tags(header) == comment_tags(*record),
{
    proof {
        reveal_strlit("title");
        reveal_strlit("album");
        reveal_strlit("artist");
    }
    let mut header = new_header();
    set_vendor(&mut header, "Ogg");
    add_tag_single(&mut header, "title", record.name.as_str());
    add_tag_single(&mut header, "album", record.album.as_str());
    let mut k: usize = 0;
    while k < record.artists.len()
        invariant
            k <= record.artists.len(),
            is_lower_word("artist"@),
            header_vendor(header) == vendor_tag(),
            header_tags(header) == seq![("title"@, record.name@), ("album"@, record.album@)]
                + artist_tags(record.artists@).take(k as int),
        decreases record.artists.len() - k,
    {
        add_tag_single(&mut header, "artist", record.artists[k].as_str());
        assert(artist_tags(record.artists@).take(k + 1) == artist_tags(record.artists@).take(
            k as int,
        ).push(("artist"@, record.artists@[k as int]@)));
        k += 1;
    }
    assert(artist_tags(record.artists@).take(record.artists.len() as int) == artist_tags(
        record.artists@,
    ));
    header
}

/// A container with the comment header of a track in place of its own.
pub open spec fn rewritten(container: Seq<u8>, record: TrackRecord) -> Seq<u8> {
    spliced(container, vendor_tag(), comment_tags(record))
}

/// Whether the splice takes a container and a track: both within the
/// limit.
pub open spec fn splice_admits(container: Seq<u8>, record: TrackRecord) -> bool {
    container.len() <= SPLICE_LIMIT && header_fits(vendor_tag(), comment_tags(record))
}

/// Replaces the comment header of a container by that of a track. `None`
/// when the container or the track's header is beyond the limit.
pub fn rewrite_comments(container: &Vec<u8>, record: &TrackRecord) -> (r: Option<Vec<u8>>)
    ensures
        r is Some <==> splice_admits(container@, *record),
        r matches Some(out) ==> out@ == rewritten(container@, *record),
{
    if container.len() as u64 > SPLICE_LIMIT || !header_within_limit(record) {
        return None;
    }
    let header = build_comment_header(record);
    proof {
        // Within the limit, each length that the comment packet records in
        // 32 bits fits.
        lemma_fitting_header(header_vendor(header), header_tags(header));
    }
    Some(replace_header(container, header))
}

} // verus!
