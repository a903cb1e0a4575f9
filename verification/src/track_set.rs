//! The accumulating set of track identifiers. An identifier contributed
//! several times, by whatever references, is held once.

use std::collections::HashSet;
use vstd::prelude::*;
use vstd::std_specs::iter::IteratorSpec;
use crate::base62::CatalogId;
use crate::catalog::FetchError;

verus! {

broadcast use vstd::std_specs::hash::group_hash_axioms;

/// A set of track identifiers without any order.
pub struct TrackSet {
    ids: HashSet<u128>,
}

/// The numbers of the identifiers in a list.
pub open spec fn id_values(ids: Seq<CatalogId>) -> Set<u128> {
    Set::new(|v: u128| exists|i: int| 0 <= i < ids.len() && #[trigger] ids[i].value == v)
}

impl View for TrackSet {
    type V = Set<u128>;

    closed spec fn view(&self) -> Set<u128> {
        self.ids@
    }
}

/// `out` follows, item by item, a duplicate-free walk of `members`.
spec fn follows_walk(out: Seq<CatalogId>, walked: Seq<u128>, members: Set<u128>) -> bool {
    &&& out.len() == walked.len()
    &&& forall|j: int| 0 <= j < out.len() ==> out[j].value == walked[j]
    &&& walked.to_set() == members
    &&& walked.no_duplicates()
}

/// A list that follows a duplicate-free walk of a set holds the set's
/// members, each once.
proof fn lemma_listing(out: Seq<CatalogId>, walked: Seq<u128>, members: Set<u128>)
    requires
        follows_walk(out, walked, members),
    ensures
        out.no_duplicates(),
        id_values(out) == members,
{
    assert forall|i: int, j: int| 0 <= i < out.len() && 0 <= j < out.len() && i != j implies out[i]
        != out[j] by {
        assert(walked[i] == out[i].value);
        assert(walked[j] == out[j].value);
    }
    assert forall|v: u128| id_values(out).contains(v) == members.contains(v) by {
        if id_values(out).contains(v) {
            let j = choose|j: int| 0 <= j < out.len() && out[j].value == v;
            assert(walked[j] == v);
            assert(walked.to_set().contains(v));
        }
        if members.contains(v) {
            assert(walked.to_set().contains(v));
            let j = choose|j: int| 0 <= j < walked.len() && walked[j] == v;
            assert(out[j].value == v);
        }
    }
    assert(id_values(out) == members);
}

proof fn lemma_listing_of_any_walk(out: Seq<CatalogId>, members: Set<u128>)
    ensures
        forall|walked: Seq<u128>| #[trigger]
            follows_walk(out, walked, members) ==> out.no_duplicates() && id_values(out)
                == members,
{
    assert forall|walked: Seq<u128>| #[trigger]
        follows_walk(out, walked, members) implies out.no_duplicates() && id_values(out)
        == members by {
        lemma_listing(out, walked, members);
    }
}

/// The members of a hash set are finitely many: they are what a walk of the
/// set yields.
proof fn lemma_members_finite(ids: &HashSet<u128>)
    ensures
        ids@.finite(),
{
    let walk = vstd::std_specs::hash::spec_hash_keys_iter(ids).remaining();
    assert(walk.unref().to_set() == ids@);
    vstd::seq_lib::seq_to_set_is_finite(walk.unref());
}

impl TrackSet {
    /// A track set holds finitely many identifiers.
    pub proof fn lemma_view_finite(&self)
        ensures
            self@.finite(),
    {
        lemma_members_finite(&self.ids);
    }

    /// The empty set.
    pub fn new() -> (s: TrackSet)
        ensures
            s@ == Set::<u128>::empty(),
            s@.finite(),
    {
        let s = TrackSet { ids: HashSet::new() };
        proof {
            s.lemma_view_finite();
        }
        s
    }

    /// Adds an identifier; returns whether it was new.
    pub fn insert(&mut self, id: CatalogId) -> (fresh: bool)
        ensures
            final(self)@ == old(self)@.insert(id.value),
            fresh == !old(self)@.contains(id.value),
            final(self)@.finite(),
    {
        let fresh = self.ids.insert(id.value);
        proof {
            self.lemma_view_finite();
        }
        fresh
    }

    /// Adds every identifier of a list.
    pub fn insert_all(&mut self, ids: &Vec<CatalogId>)
        ensures
            final(self)@ == old(self)@ + id_values(ids@),
            final(self)@.finite(),
    {
        let mut i: usize = 0;
        assert(id_values(ids@.take(0)) == Set::<u128>::empty());
        assert(self@ + Set::<u128>::empty() == self@);
        while i < ids.len()
            invariant
                i <= ids.len(),
                self@ == old(self)@ + id_values(ids@.take(i as int)),
            decreases ids.len() - i,
        {
            let ghost before = ids@.take(i as int);
            let ghost after = ids@.take(i + 1);
            self.ids.insert(ids[i].value);
            proof {
                assert forall|v: u128|
                    id_values(after).contains(v) == (id_values(before).contains(v) || v
                        == ids@[i as int].value) by {
                    if id_values(after).contains(v) {
                        let j = choose|j: int| 0 <= j < after.len() && after[j].value == v;
                        if j < i {
                            assert(before[j].value == v);
                        }
                    }
                    if id_values(before).contains(v) {
                        let j = choose|j: int| 0 <= j < before.len() && before[j].value == v;
                        assert(after[j].value == v);
                    }
                    if v == ids@[i as int].value {
                        assert(after[i as int].value == v);
                    }
                }
                assert(self@ == old(self)@ + id_values(after));
            }
            i += 1;
        }
        assert(ids@.take(ids.len() as int) == ids@);
        proof {
            self.lemma_view_finite();
        }
    }

    /// Tests whether an identifier is in the set.
    pub fn contains(&self, id: CatalogId) -> (r: bool)
        ensures
            r == self@.contains(id.value),
    {
        self.ids.contains(&id.value)
    }

    /// Number of distinct identifiers.
    pub fn len(&self) -> (n: usize)
        ensures
            n == self@.len(),
            self@.finite(),
    {
        proof {
            self.lemma_view_finite();
        }
        self.ids.len()
    }

    /// Tests whether the set holds nothing.
    pub fn is_empty(&self) -> (r: bool)
        ensures
            r == self@.is_empty(),
    {
        self.ids.is_empty()
    }

    /// The identifiers, each once, in no particular order.
    pub fn to_vec(&self) -> (out: Vec<CatalogId>)
        ensures
            out@.no_duplicates(),
            id_values(out@) == self@,
            out@.len() == self@.len(),
    {
        let mut out: Vec<CatalogId> = Vec::new();
        for v in it: self.ids.iter()
            invariant
                out@.len() == it.index(),
                forall|j: int| 0 <= j < out@.len() ==> out@[j].value == *it.seq()[j],
                it.seq().unref().to_set() == self@,
                it.seq().no_duplicates(),
                it.seq().len() == self@.len(),
                it.index() == it.seq().len() ==> out@.no_duplicates() && id_values(out@) == self@,
        {
            out.push(CatalogId { value: *v });
            proof {
                lemma_listing_of_any_walk(out@, self@);
            }
            assert(it.index() + 1 == it.seq().len() ==> follows_walk(
                out@,
                it.seq().unref(),
                self@,
            ));
        }
        out
    }
}

/// An identifier contributed twice, once by itself and once inside a
/// collection, is held once: adding it again changes neither the set nor its
/// size, in whichever order the two arrive.
pub proof fn lemma_contributed_twice_held_once(
    before: Set<u128>,
    id: CatalogId,
    collection: Seq<CatalogId>,
)
    requires
        collection.contains(id),
    ensures
        before.insert(id.value) + id_values(collection) == before + id_values(collection),
        (before + id_values(collection)).insert(id.value) == before + id_values(collection),
        (before + id_values(collection)).insert(id.value).len() == (before + id_values(
            collection,
        )).len(),
{
    let i = choose|i: int| 0 <= i < collection.len() && collection[i] == id;
    assert(collection[i].value == id.value);
    assert(id_values(collection).contains(id.value));
    assert(before.insert(id.value) + id_values(collection) =~= before + id_values(collection));
    assert((before + id_values(collection)).insert(id.value) =~= before + id_values(collection));
}

/// Inserting an identifier that is already held changes nothing.
pub proof fn lemma_insert_is_idempotent(before: Set<u128>, id: CatalogId)
    ensures
        before.insert(id.value).insert(id.value) == before.insert(id.value),
{
    assert(before.insert(id.value).insert(id.value) =~= before.insert(id.value));
}

/// The numbers of the identifiers in a list, in the list's order.
pub open spec fn values_of(ids: Seq<CatalogId>) -> Seq<u128> {
    Seq::new(ids.len(), |i: int| ids[i].value)
}

/// The identifiers of a list, as a set, are the set of the list's numbers:
/// finitely many, and no more than the list is long.
pub proof fn lemma_id_values_of_list(ids: Seq<CatalogId>)
    ensures
        id_values(ids) == values_of(ids).to_set(),
        id_values(ids).finite(),
        id_values(ids).len() <= ids.len(),
        ids.no_duplicates() <==> id_values(ids).len() == ids.len(),
{
    let values = values_of(ids);
    assert forall|v: u128| id_values(ids).contains(v) == values.to_set().contains(v) by {
        if id_values(ids).contains(v) {
            let i = choose|i: int| 0 <= i < ids.len() && ids[i].value == v;
            assert(values[i] == v);
        }
        if values.to_set().contains(v) {
            let i = choose|i: int| 0 <= i < values.len() && values[i] == v;
            assert(ids[i].value == v);
        }
    }
    assert(id_values(ids) == values.to_set());
    vstd::seq_lib::seq_to_set_is_finite(values);
    values.lemma_cardinality_of_set();
    if ids.no_duplicates() {
        assert forall|i: int, j: int|
            0 <= i < values.len() && 0 <= j < values.len() && i != j implies values[i]
            != values[j] by {
            assert(ids[i] != ids[j]);
        }
        values.unique_seq_to_set();
    }
    if id_values(ids).len() == ids.len() {
        values.lemma_no_dup_set_cardinality();
        assert forall|i: int, j: int|
            0 <= i < ids.len() && 0 <= j < ids.len() && i != j implies ids[i] != ids[j] by {
            assert(values[i] != values[j]);
        }
    }
}

/// The size of a set after a collection was added: no more than the set's
/// size and the collection's length together, and exactly that when, and
/// only when, the collection repeats no identifier and shares none with the
/// set.
pub proof fn lemma_size_after_collection(before: Set<u128>, collection: Seq<CatalogId>)
    requires
        before.finite(),
    ensures
        (before + id_values(collection)).finite(),
        (before + id_values(collection)).len() <= before.len() + collection.len(),
        (before + id_values(collection)).len() == before.len() + collection.len() <==> (
        collection.no_duplicates() && before.disjoint(id_values(collection))),
{
    let added = id_values(collection);
    lemma_id_values_of_list(collection);
    vstd::set::axiom_set_union_finite(before, added);
    vstd::set_lib::lemma_set_intersect_union_lens(before, added);
    vstd::set::axiom_set_intersect_finite(before, added);
    let shared = before.intersect(added);
    if before.disjoint(added) {
        assert(shared =~= Set::<u128>::empty());
    }
    if shared.len() == 0 {
        shared.lemma_len0_is_empty();
        assert forall|v: u128| !(before.contains(v) && added.contains(v)) by {
            assert(!shared.contains(v));
        }
    }
}

} // verus!
