//! The artifact store: encoded images kept under random identifiers.
//!
//! Entries are written once and never changed or removed. The store is a
//! plain value; whoever shares it between requests serialises access to it,
//! which `&mut self` on the writing methods enforces.

use vstd::prelude::*;
use vstd::string::StringExecFns;
use crate::ident::{image_id, image_prefix, is_nonce, random_uuid_text};
use crate::model::bytes_of;

verus! {

/// An immutable byte blob under an opaque identifier.
pub struct Artifact {
    pub id: String,
    pub bytes: Vec<u8>,
}

/// The mapping that a list of artifacts stands for.
spec fn contents(entries: Seq<Artifact>) -> Map<Seq<char>, Seq<u8>>
    decreases entries.len(),
{
    if entries.len() == 0 {
        Map::empty()
    } else {
        contents(entries.drop_last()).insert(entries.last().id@, entries.last().bytes@)
    }
}

/// No identifier occurs twice.
spec fn distinct_ids(entries: Seq<Artifact>) -> bool {
    forall|i: int, j: int| 0 <= i < j < entries.len() ==> entries[i].id@ != entries[j].id@
}

/// What a lookup of `id` gives on contents `m`.
pub open spec fn lookup(m: Map<Seq<char>, Seq<u8>>, id: Seq<char>) -> Option<Seq<u8>> {
    if m.contains_key(id) {
        Some(m[id])
    } else {
        None
    }
}

/// The contents after an attempt to store `bytes` under `id`: a new entry
/// where `id` is free, no change where it is taken.
pub open spec fn stored(m: Map<Seq<char>, Seq<u8>>, id: Seq<char>, bytes: Seq<u8>) -> Map<
    Seq<char>,
    Seq<u8>,
> {
    if m.contains_key(id) {
        m
    } else {
        m.insert(id, bytes)
    }
}

/// The contents after storing `blobs[i]` under `ids[i]`, in order.
pub open spec fn stored_all(
    m: Map<Seq<char>, Seq<u8>>,
    ids: Seq<Seq<char>>,
    blobs: Seq<Seq<u8>>,
) -> Map<Seq<char>, Seq<u8>>
    recommends
        ids.len() == blobs.len(),
    decreases ids.len(),
{
    if ids.len() == 0 {
        m
    } else {
        stored(stored_all(m, ids.drop_last(), blobs.drop_last()), ids.last(), blobs.last())
    }
}

proof fn lemma_contents_absent(entries: Seq<Artifact>, id: Seq<char>)
    requires
        forall|i: int| 0 <= i < entries.len() ==> entries[i].id@ != id,
    ensures
        !contents(entries).contains_key(id),
    decreases entries.len(),
{
    if entries.len() > 0 {
        lemma_contents_absent(entries.drop_last(), id);
    }
}

proof fn lemma_contents_at(entries: Seq<Artifact>, i: int)
    requires
        distinct_ids(entries),
        0 <= i < entries.len(),
    ensures
        contents(entries).contains_key(entries[i].id@),
        contents(entries)[entries[i].id@] == entries[i].bytes@,
    decreases entries.len(),
{
    if i < entries.len() - 1 {
        lemma_contents_at(entries.drop_last(), i);
    }
}

proof fn lemma_contents_size(entries: Seq<Artifact>)
    requires
        distinct_ids(entries),
    ensures
        contents(entries).dom().finite(),
        contents(entries).dom().len() == entries.len(),
    decreases entries.len(),
{
    if entries.len() > 0 {
        lemma_contents_size(entries.drop_last());
        lemma_contents_absent(entries.drop_last(), entries.last().id@);
    }
}

/// In-process mapping from identifiers to encoded image bytes.
pub struct ArtifactStore {
    entries: Vec<Artifact>,
}

impl View for ArtifactStore {
    type V = Map<Seq<char>, Seq<u8>>;

    closed spec fn view(&self) -> Map<Seq<char>, Seq<u8>> {
        contents(self.entries@)
    }
}

impl ArtifactStore {
    #[verifier::type_invariant]
    spec fn well_formed(self) -> bool {
        distinct_ids(self.entries@)
    }

    /// An empty store.
    pub fn new() -> (store: ArtifactStore)
        ensures
            store@ == Map::<Seq<char>, Seq<u8>>::empty(),
    {
        ArtifactStore { entries: Vec::new() }
    }

    /// The number of artifacts held.
    pub fn len(&self) -> (n: usize)
        ensures
            self@.dom().finite(),
            n == self@.dom().len(),
    {
        proof {
            use_type_invariant(self);
            lemma_contents_size(self.entries@);
        }
        self.entries.len()
    }

    /// Whether the store holds nothing.
    pub fn is_empty(&self) -> (b: bool)
        ensures
            b == (self@.dom().len() == 0),
    {
        self.len() == 0
    }

    /// A copy of the bytes stored under `id`, if any. The entry stays.
    pub fn get(&self, id: &str) -> (r: Option<Vec<u8>>)
        ensures
            bytes_of(r) == lookup(self@, id@),
    {
        proof {
            use_type_invariant(self);
        }
        let key = String::from_str(id);
        let mut i: usize = 0;
        while i < self.entries.len()
            invariant
                i <= self.entries.len(),
                key@ == id@,
                distinct_ids(self.entries@),
                forall|j: int| 0 <= j < i ==> self.entries[j].id@ != id@,
            decreases self.entries.len() - i,
        {
            if self.entries[i].id == key {
                proof {
                    lemma_contents_at(self.entries@, i as int);
                }
                return Some(self.entries[i].bytes.clone());
            }
            i += 1;
        }
        proof {
            lemma_contents_absent(self.entries@, id@);
        }
        None
    }

    /// Whether an artifact is stored under `id`.
    pub fn contains(&self, id: &str) -> (b: bool)
        ensures
            b == self@.contains_key(id@),
    {
        self.get(id).is_some()
    }

    /// Stores `bytes` under the identifier made from `nonce`, unless that
    /// identifier is taken: an existing entry is never overwritten.
    pub fn put_with_nonce(&mut self, nonce: &str, bytes: Vec<u8>) -> (r: Option<String>)
        ensures
            final(self)@ == stored(old(self)@, image_prefix() + nonce@, bytes@),
            r is Some <==> !old(self)@.contains_key(image_prefix() + nonce@),
            r matches Some(id) ==> id@ == image_prefix() + nonce@,
    {
        let id = image_id(nonce);
        if self.contains(id.as_str()) {
            return None;
        }
        let handed_out = id.clone();
        // The list is moved out and back in whole, so that the store is at no
        // point seen with a change half made.
        let mut taken = ArtifactStore::new();
        std::mem::swap(self, &mut taken);
        proof {
            use_type_invariant(&taken);
        }
        let ArtifactStore { entries: mut list } = taken;
        proof {
            let before = list@;
            let entry = Artifact { id, bytes };
            assert(before.push(entry).drop_last() =~= before);
            assert forall|i: int, j: int| 0 <= i < j < before.push(entry).len() implies before.push(
                entry,
            )[i].id@ != before.push(entry)[j].id@ by {
                if j == before.len() {
                    lemma_contents_at(before, i);
                }
            }
        }
        list.push(Artifact { id, bytes });
        *self = ArtifactStore { entries: list };
        Some(handed_out)
    }

    /// Stores `bytes` under a fresh random identifier and returns it.
    ///
    /// The identifier is the image prefix followed by a random nonce. Should
    /// the nonce drawn already name an entry, nothing is stored and `None`
    /// is returned; on a store that holds no identifier of that shape this
    /// cannot happen.
    pub fn put(&mut self, bytes: Vec<u8>) -> (r: Option<String>)
        ensures
            match r {
                Some(id) => {
                    &&& exists|t: Seq<char>| is_nonce(t) && id@ == image_prefix() + t
                    &&& !old(self)@.contains_key(id@)
                    &&& final(self)@ == old(self)@.insert(id@, bytes@)
                    &&& lookup(final(self)@, id@) == Some(bytes@)
                },
                None => {
                    &&& final(self)@ == old(self)@
                    &&& exists|t: Seq<char>|
                        is_nonce(t) && old(self)@.contains_key(image_prefix() + t)
                },
            },
    {
        let nonce = random_uuid_text();
        self.put_with_nonce(nonce.as_str(), bytes)
    }
}

/// After a successful store, a lookup of the identifier gives exactly the
/// bytes stored, and a lookup of any other identifier gives what it gave
/// before: nothing, where that identifier was never stored.
pub proof fn lemma_put_then_get(
    m: Map<Seq<char>, Seq<u8>>,
    id: Seq<char>,
    bytes: Seq<u8>,
    other: Seq<char>,
)
    requires
        !m.contains_key(id),
    ensures
        lookup(stored(m, id, bytes), id) == Some(bytes),
        other != id ==> lookup(stored(m, id, bytes), other) == lookup(m, other),
        other != id && !m.contains_key(other) ==> lookup(stored(m, id, bytes), other) is None,
{
}

/// Entries are written once: whatever is stored later, under whatever
/// identifier, a lookup that found bytes keeps finding the same bytes.
pub proof fn lemma_entries_are_immutable(
    m: Map<Seq<char>, Seq<u8>>,
    id: Seq<char>,
    bytes: Seq<u8>,
    held: Seq<char>,
)
    requires
        m.contains_key(held),
    ensures
        lookup(stored(m, id, bytes), held) == lookup(m, held),
{
}

/// Every entry of the starting contents survives any series of stores.
pub proof fn lemma_stored_all_keeps(
    m: Map<Seq<char>, Seq<u8>>,
    ids: Seq<Seq<char>>,
    blobs: Seq<Seq<u8>>,
    held: Seq<char>,
)
    requires
        ids.len() == blobs.len(),
        m.contains_key(held),
    ensures
        lookup(stored_all(m, ids, blobs), held) == lookup(m, held),
    decreases ids.len(),
{
    if ids.len() > 0 {
        lemma_stored_all_keeps(m, ids.drop_last(), blobs.drop_last(), held);
    }
}

/// The identifiers handed out by a series of successful stores are pairwise
/// distinct, and each of them still leads to the bytes stored under it.
///
/// A store succeeds exactly when its identifier is free at that moment, so
/// the series is one in which each `ids[k]` is free in the contents reached
/// by the `k` stores before it.
pub proof fn lemma_identifiers_are_distinct(
    m: Map<Seq<char>, Seq<u8>>,
    ids: Seq<Seq<char>>,
    blobs: Seq<Seq<u8>>,
)
    requires
        ids.len() == blobs.len(),
        forall|k: int|
            0 <= k < ids.len() ==> !(#[trigger] stored_all(
                m,
                ids.take(k),
                blobs.take(k),
            )).contains_key(ids[k]),
    ensures
        forall|i: int, j: int| 0 <= i < j < ids.len() ==> ids[i] != ids[j],
        forall|i: int|
            0 <= i < ids.len() ==> lookup(stored_all(m, ids, blobs), #[trigger] ids[i]) == Some(
                blobs[i],
            ),
    decreases ids.len(),
{
    if ids.len() > 0 {
        let n = ids.len() - 1;
        let front_ids = ids.drop_last();
        let front_blobs = blobs.drop_last();
        assert forall|k: int| 0 <= k < front_ids.len() implies !(#[trigger] stored_all(
            m,
            front_ids.take(k),
            front_blobs.take(k),
        )).contains_key(front_ids[k]) by {
            assert(front_ids.take(k) =~= ids.take(k));
            assert(front_blobs.take(k) =~= blobs.take(k));
        }
        lemma_identifiers_are_distinct(m, front_ids, front_blobs);
        assert(ids.take(n) =~= front_ids);
        assert(blobs.take(n) =~= front_blobs);
        let reached = stored_all(m, front_ids, front_blobs);
        assert(!reached.contains_key(ids[n]));
        assert forall|i: int, j: int| 0 <= i < j < ids.len() implies ids[i] != ids[j] by {
            if j == n {
                assert(lookup(reached, front_ids[i]) == Some(front_blobs[i]));
            } else {
                assert(front_ids[i] != front_ids[j]);
            }
        }
        assert forall|i: int| 0 <= i < ids.len() implies lookup(
            stored_all(m, ids, blobs),
            #[trigger] ids[i],
        ) == Some(blobs[i]) by {
            if i < n {
                assert(lookup(reached, front_ids[i]) == Some(front_blobs[i]));
            }
        }
    }
}

} // verus!
