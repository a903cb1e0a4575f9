//! Expansion of references into the accumulating track set. The catalog
//! lookups themselves happen elsewhere; the functions here take what a
//! lookup returned and decide what enters the set and what is asked next.

use vstd::prelude::*;
use crate::base62::CatalogId;
use crate::catalog::{ArtistRecord, FetchError};
use crate::reference::{Reference, ResourceKind};
use crate::track_set::{id_values, TrackSet};

verus! {

/// The catalog lookup that a reference calls for.
#[derive(Clone, Copy, PartialEq, Eq, Structural, Debug)]
pub enum Lookup {
    /// None: the reference named a track, which is in the set now.
    Nothing,
    /// The track list of a playlist, for `get_playlist_from_id`.
    Playlist(CatalogId),
    /// The track list of an album, for `get_album_from_id`.
    Album(CatalogId),
    /// The record of an artist, for `get_artist_from_id`.
    Artist(CatalogId),
}

/// The lookup that a reference of a kind calls for.
pub open spec fn lookup_of(kind: ResourceKind, id: CatalogId) -> Lookup {
    match kind {
        ResourceKind::Track => Lookup::Nothing,
        ResourceKind::Playlist => Lookup::Playlist(id),
        ResourceKind::Album => Lookup::Album(id),
        ResourceKind::Artist => Lookup::Artist(id),
    }
}

/// Takes up one reference. A track enters the set at once; every other
/// kind leaves the set as it is and calls for a lookup.
pub fn resolve_reference(reference: &Reference, existing: &mut TrackSet) -> (lookup: Lookup)
    ensures
        lookup == lookup_of(reference.kind, reference.id),
        final(existing)@ == if reference.kind == ResourceKind::Track {
            old(existing)@.insert(reference.id.value)
        } else {
            old(existing)@
        },
        final(existing)@.finite(),
{
    proof {
        existing.lemma_view_finite();
    }
    match reference.kind {
        ResourceKind::Track => {
            existing.insert(reference.id);
            Lookup::Nothing
        },
        ResourceKind::Playlist => Lookup::Playlist(reference.id),
        ResourceKind::Album => Lookup::Album(reference.id),
        ResourceKind::Artist => Lookup::Artist(reference.id),
    }
}

/// Adds the tracks of a fetched collection to the set. A failed fetch
/// leaves the set as it was and hands the failure back.
pub fn add_collection(fetched: Result<Vec<CatalogId>, FetchError>, existing: &mut TrackSet) -> (r:
    Result<(), FetchError>)
    ensures
        match fetched {
            Ok(tracks) => r is Ok && final(existing)@ == old(existing)@ + id_values(tracks@),
            Err(e) => r == Err::<(), FetchError>(e) && final(existing)@ == old(existing)@,
        },
        final(existing)@.finite(),
{
    proof {
        existing.lemma_view_finite();
    }
    match fetched {
        Ok(tracks) => {
            existing.insert_all(&tracks);
            Ok(())
        },
        Err(e) => Err(e),
    }
}

/// Takes the answer to a playlist lookup: its tracks enter the set.
pub fn get_playlist_from_id(
    fetched: Result<Vec<CatalogId>, FetchError>,
    existing: &mut TrackSet,
) -> (r: Result<(), FetchError>)
    ensures
        match fetched {
            Ok(tracks) => r is Ok && final(existing)@ == old(existing)@ + id_values(tracks@),
            Err(e) => r == Err::<(), FetchError>(e) && final(existing)@ == old(existing)@,
        },
        final(existing)@.finite(),
{
    add_collection(fetched, existing)
}

/// Takes the answer to an album lookup: its tracks enter the set.
pub fn get_album_from_id(
    fetched: Result<Vec<CatalogId>, FetchError>,
    existing: &mut TrackSet,
) -> (r: Result<(), FetchError>)
    ensures
        match fetched {
            Ok(tracks) => r is Ok && final(existing)@ == old(existing)@ + id_values(tracks@),
            Err(e) => r == Err::<(), FetchError>(e) && final(existing)@ == old(existing)@,
        },
        final(existing)@.finite(),
{
    add_collection(fetched, existing)
}

/// The albums of a list of groupings, grouping after grouping, each in its
/// own order.
pub open spec fn flattened(groups: Seq<Vec<CatalogId>>) -> Seq<CatalogId>
    decreases groups.len(),
{
    if groups.len() == 0 {
        Seq::empty()
    } else {
        flattened(groups.drop_last()) + groups.last()@
    }
}

/// The order in which an artist's albums are looked up: every grouping of
/// `albums` first, then every grouping of `singles`.
pub open spec fn album_order(artist: ArtistRecord) -> Seq<CatalogId> {
    flattened(artist.albums@) + flattened(artist.singles@)
}

fn flatten_into(groups: &Vec<Vec<CatalogId>>, out: &mut Vec<CatalogId>)
    ensures
        final(out)@ == old(out)@ + flattened(groups@),
{
    let mut g: usize = 0;
    assert(old(out)@ + flattened(groups@.take(0)) == old(out)@);
    while g < groups.len()
        invariant
            g <= groups.len(),
            out@ == old(out)@ + flattened(groups@.take(g as int)),
        decreases groups.len() - g,
    {
        let group = &groups[g];
        let ghost base = out@;
        let mut k: usize = 0;
        while k < group.len()
            invariant
                k <= group.len(),
                out@ == base + group@.take(k as int),
            decreases group.len() - k,
        {
            out.push(group[k]);
            assert(group@.take(k + 1) == group@.take(k as int).push(group@[k as int]));
            k += 1;
        }
        proof {
            assert(group@.take(group.len() as int) == group@);
            assert(groups@.take(g + 1).drop_last() == groups@.take(g as int));
            assert(groups@.take(g + 1).last() == groups@[g as int]);
            assert(out@ == old(out)@ + (flattened(groups@.take(g as int)) + group@));
        }
        g += 1;
    }
    assert(groups@.take(groups.len() as int) == groups@);
}

/// The albums of an artist in the order they are to be looked up.
pub fn artist_albums(artist: &ArtistRecord) -> (order: Vec<CatalogId>)
    ensures
        order@ == album_order(*artist),
{
    let mut order: Vec<CatalogId> = Vec::new();
    flatten_into(&artist.albums, &mut order);
    flatten_into(&artist.singles, &mut order);
    order
}

/// The albums still pending and the track set after one answer. With
/// nothing pending the answer is dropped; a fetched album contributes its
/// tracks and leaves the pending list; a failure empties the pending list
/// and contributes nothing.
pub open spec fn after_album(
    pending: Seq<CatalogId>,
    tracks: Set<u128>,
    fetched: Result<Vec<CatalogId>, FetchError>,
) -> (Seq<CatalogId>, Set<u128>) {
    if pending.len() == 0 {
        (pending, tracks)
    } else {
        match fetched {
            Ok(album) => (pending.drop_first(), tracks + id_values(album@)),
            Err(_) => (Seq::empty(), tracks),
        }
    }
}

/// What the walk reports for one answer: the failure of a wanted album,
/// otherwise success.
pub open spec fn album_verdict(
    pending: Seq<CatalogId>,
    fetched: Result<Vec<CatalogId>, FetchError>,
) -> Result<(), FetchError> {
    match fetched {
        Err(e) if pending.len() > 0 => Err(e),
        _ => Ok(()),
    }
}

/// The expansion of one artist: the albums still to be looked up. Once an
/// album lookup has failed nothing more is asked.
pub struct ArtistWalk {
    order: Vec<CatalogId>,
    next: usize,
}

impl ArtistWalk {
    /// The albums not yet answered, the one to ask next in front.
    pub closed spec fn pending(&self) -> Seq<CatalogId> {
        if self.next <= self.order@.len() {
            self.order@.skip(self.next as int)
        } else {
            Seq::empty()
        }
    }

    /// The album to look up next; `None` when the expansion is over.
    pub fn wanted(&self) -> (r: Option<CatalogId>)
        ensures
            r == if self.pending().len() > 0 {
                Some(self.pending()[0])
            } else {
                None
            },
    {
        if self.next < self.order.len() {
            Some(self.order[self.next])
        } else {
            None
        }
    }

    /// Takes the answer to the lookup of the wanted album. Its tracks enter
    /// the set and the walk moves on; a failure ends the walk, leaves the
    /// set as it is and is handed back. An answer that comes when nothing is
    /// wanted changes nothing.
    pub fn album_fetched(
        &mut self,
        fetched: Result<Vec<CatalogId>, FetchError>,
        existing: &mut TrackSet,
    ) -> (r: Result<(), FetchError>)
        ensures
            (final(self).pending(), final(existing)@) == after_album(
                old(self).pending(),
                old(existing)@,
                fetched,
            ),
            r == album_verdict(old(self).pending(), fetched),
            final(existing)@.finite(),
    {
        proof {
            existing.lemma_view_finite();
        }
        if self.next >= self.order.len() {
            return Ok(());
        }
        match get_album_from_id(fetched, existing) {
            Ok(()) => {
                self.next = self.next + 1;
                Ok(())
            },
            Err(e) => {
                self.next = self.order.len();
                Err(e)
            },
        }
    }
}

/// Takes the answer to an artist lookup and starts the expansion of the
/// artist's albums: `albums` groupings before `singles` groupings. A failed
/// lookup is handed back.
pub fn get_artist_from_id(fetched: Result<ArtistRecord, FetchError>) -> (r: Result<
    ArtistWalk,
    FetchError,
>)
    ensures
        match fetched {
            Ok(artist) => r matches Ok(walk) && walk.pending() == album_order(artist),
            Err(e) => r matches Err(f) && f == e,
        },
{
    match fetched {
        Ok(artist) => {
            let order = artist_albums(&artist);
            assert(order@.skip(0) == order@);
            Ok(ArtistWalk { order, next: 0 })
        },
        Err(e) => Err(e),
    }
}

/// Every album of the `albums` groupings is looked up before any album of
/// the `singles` groupings, and within each the returned order is kept.
pub proof fn lemma_albums_before_singles(artist: ArtistRecord)
    ensures
        album_order(artist).len() == flattened(artist.albums@).len() + flattened(
            artist.singles@,
        ).len(),
        forall|i: int|
            0 <= i < flattened(artist.albums@).len() ==> album_order(artist)[i] == flattened(
                artist.albums@,
            )[i],
        forall|j: int|
            0 <= j < flattened(artist.singles@).len() ==> album_order(artist)[flattened(
                artist.albums@,
            ).len() + j] == flattened(artist.singles@)[j],
{
}

/// A failed album lookup ends the artist's expansion: nothing is pending
/// afterwards, the failing album contributes no track, and whatever is
/// answered later changes neither the pending list nor the set.
pub proof fn lemma_failed_album_ends_walk(
    pending: Seq<CatalogId>,
    tracks: Set<u128>,
    failure: FetchError,
    later: Result<Vec<CatalogId>, FetchError>,
)
    requires
        pending.len() > 0,
    ensures
        after_album(pending, tracks, Err(failure)) == (Seq::<CatalogId>::empty(), tracks),
        album_verdict(pending, Err(failure)) == Err::<(), FetchError>(failure),
        after_album(Seq::empty(), tracks, later) == (Seq::<CatalogId>::empty(), tracks),
        album_verdict(Seq::empty(), later) is Ok,
{
}

} // verus!
