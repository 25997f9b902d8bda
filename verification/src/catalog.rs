//! The catalog: a map from track id to track record, held as a list in
//! which no id occurs twice.

use vstd::prelude::*;
use crate::ident::{id_for_stamp, id_text, lemma_ids_differ};
use crate::track::{MusicMetadata, TrackView};

verus! {

/// Some record of `s` has the id `k`.
pub open spec fn has_id(s: Seq<MusicMetadata>, k: Seq<char>) -> bool {
    exists|i: int| 0 <= i < s.len() && (#[trigger] s[i]).id@ == k
}

/// No two records of `s` share an id.
pub open spec fn distinct_ids(s: Seq<MusicMetadata>) -> bool {
    forall|i: int, j: int|
        0 <= i < j < s.len() ==> (#[trigger] s[i]).id@ != (#[trigger] s[j]).id@
}

/// The map that results from inserting the records of `s` one after the
/// other, a later record replacing an earlier one with the same id.
pub open spec fn catalog_of(s: Seq<MusicMetadata>) -> Map<Seq<char>, TrackView>
    decreases s.len(),
{
    if s.len() == 0 {
        Map::empty()
    } else {
        catalog_of(s.drop_last()).insert(s.last().id@, s.last()@)
    }
}

/// The keys of `catalog_of(s)` are the ids that occur in `s`.
pub proof fn lemma_catalog_keys(s: Seq<MusicMetadata>, k: Seq<char>)
    ensures
        catalog_of(s).dom().contains(k) <==> has_id(s, k),
    decreases s.len(),
{
    if s.len() > 0 {
        let t = s.drop_last();
        lemma_catalog_keys(t, k);
        if has_id(t, k) {
            let i = choose|i: int| 0 <= i < t.len() && (#[trigger] t[i]).id@ == k;
            assert(s[i].id@ == k);
        }
        if has_id(s, k) {
            let i = choose|i: int| 0 <= i < s.len() && (#[trigger] s[i]).id@ == k;
            if i < t.len() {
                assert(t[i].id@ == k);
            }
        }
        if s.last().id@ == k {
            assert(s[s.len() - 1].id@ == k);
        }
    }
}

/// Where ids are distinct, each record is found under its own id.
pub proof fn lemma_catalog_lookup(s: Seq<MusicMetadata>, i: int)
    requires
        distinct_ids(s),
        0 <= i < s.len(),
    ensures
        catalog_of(s).dom().contains(s[i].id@),
        catalog_of(s)[s[i].id@] == s[i]@,
    decreases s.len(),
{
    let t = s.drop_last();
    if i < t.len() {
        assert forall|a: int, b: int| 0 <= a < b < t.len() implies (#[trigger] t[a]).id@ != (
        #[trigger] t[b]).id@ by {
            assert(t[a] == s[a] && t[b] == s[b]);
        }
        lemma_catalog_lookup(t, i);
        assert(t[i] == s[i]);
        assert(s[i].id@ != s[s.len() - 1].id@);
    }
}

/// A list with distinct ids stands for exactly the map that holds each of
/// its records under its id and nothing else.
pub proof fn lemma_catalog_is(s: Seq<MusicMetadata>, m: Map<Seq<char>, TrackView>)
    requires
        distinct_ids(s),
        forall|i: int|
            0 <= i < s.len() ==> m.dom().contains((#[trigger] s[i]).id@) && m[s[i].id@] == s[i]@,
        forall|k: Seq<char>| m.dom().contains(k) ==> has_id(s, k),
    ensures
        catalog_of(s) == m,
{
    assert forall|k: Seq<char>| catalog_of(s).dom().contains(k) <==> m.dom().contains(k) by {
        lemma_catalog_keys(s, k);
        if has_id(s, k) {
            let i = choose|i: int| 0 <= i < s.len() && (#[trigger] s[i]).id@ == k;
            assert(m.dom().contains(s[i].id@));
        }
    }
    assert forall|k: Seq<char>| catalog_of(s).dom().contains(k) implies catalog_of(s)[k] == m[k] by {
        lemma_catalog_keys(s, k);
        let i = choose|i: int| 0 <= i < s.len() && (#[trigger] s[i]).id@ == k;
        lemma_catalog_lookup(s, i);
    }
    assert(catalog_of(s) =~= m);
}

/// A list with distinct ids stands for a finite map with one key for each
/// of its records.
pub proof fn lemma_catalog_size(s: Seq<MusicMetadata>)
    requires
        distinct_ids(s),
    ensures
        catalog_of(s).dom().finite(),
        catalog_of(s).dom().len() == s.len(),
    decreases s.len(),
{
    if s.len() > 0 {
        let t = s.drop_last();
        assert forall|a: int, b: int| 0 <= a < b < t.len() implies (#[trigger] t[a]).id@ != (
        #[trigger] t[b]).id@ by {
            assert(t[a] == s[a] && t[b] == s[b]);
        }
        lemma_catalog_size(t);
        lemma_catalog_keys(t, s.last().id@);
        if has_id(t, s.last().id@) {
            let i = choose|i: int| 0 <= i < t.len() && (#[trigger] t[i]).id@ == s.last().id@;
            assert(s[i].id@ == s[s.len() - 1].id@);
        }
    }
}

/// Replacing a record by one with the same id replaces it in the map.
pub proof fn lemma_catalog_update(s: Seq<MusicMetadata>, i: int, x: MusicMetadata)
    requires
        distinct_ids(s),
        0 <= i < s.len(),
        x.id@ == s[i].id@,
    ensures
        distinct_ids(s.update(i, x)),
        catalog_of(s.update(i, x)) == catalog_of(s).insert(x.id@, x@),
{
    let after = s.update(i, x);
    let m = catalog_of(s).insert(x.id@, x@);
    assert forall|a: int, b: int| 0 <= a < b < after.len() implies (#[trigger] after[a]).id@ != (
    #[trigger] after[b]).id@ by {
        assert(after[a].id@ == s[a].id@ && after[b].id@ == s[b].id@);
    }
    assert forall|j: int| 0 <= j < after.len() implies m.dom().contains((#[trigger] after[j]).id@)
        && m[after[j].id@] == after[j]@ by {
        lemma_catalog_lookup(s, j);
        if j != i {
            assert(s[j].id@ != s[i].id@);
        }
    }
    assert forall|k: Seq<char>| m.dom().contains(k) implies has_id(after, k) by {
        lemma_catalog_keys(s, k);
        if k == x.id@ {
            assert(after[i].id@ == k);
        } else {
            let j = choose|j: int| 0 <= j < s.len() && (#[trigger] s[j]).id@ == k;
            assert(after[j].id@ == k);
        }
    }
    lemma_catalog_is(after, m);
}

/// Appending a record with an id that the list does not hold adds it to
/// the map.
pub proof fn lemma_catalog_push(s: Seq<MusicMetadata>, x: MusicMetadata)
    requires
        distinct_ids(s),
        !has_id(s, x.id@),
    ensures
        distinct_ids(s.push(x)),
        catalog_of(s.push(x)) == catalog_of(s).insert(x.id@, x@),
{
    let after = s.push(x);
    assert(after.drop_last() =~= s);
    assert forall|a: int, b: int| 0 <= a < b < after.len() implies (#[trigger] after[a]).id@ != (
    #[trigger] after[b]).id@ by {
        assert(after[a] == s[a]);
        if b < s.len() {
            assert(after[b] == s[b]);
        }
    }
}

/// Taking a record out of the list takes its id out of the map.
pub proof fn lemma_catalog_remove(s: Seq<MusicMetadata>, i: int)
    requires
        distinct_ids(s),
        0 <= i < s.len(),
    ensures
        distinct_ids(s.remove(i)),
        catalog_of(s.remove(i)) == catalog_of(s).remove(s[i].id@),
{
    let after = s.remove(i);
    let m = catalog_of(s).remove(s[i].id@);
    assert forall|a: int, b: int| 0 <= a < b < after.len() implies (#[trigger] after[a]).id@ != (
    #[trigger] after[b]).id@ by {
        let a0 = if a < i { a } else { a + 1 };
        let b0 = if b < i { b } else { b + 1 };
        assert(after[a] == s[a0] && after[b] == s[b0]);
    }
    assert forall|j: int| 0 <= j < after.len() implies m.dom().contains((#[trigger] after[j]).id@)
        && m[after[j].id@] == after[j]@ by {
        let j0 = if j < i { j } else { j + 1 };
        assert(after[j] == s[j0]);
        lemma_catalog_lookup(s, j0);
        assert(s[j0].id@ != s[i].id@);
    }
    assert forall|k: Seq<char>| m.dom().contains(k) implies has_id(after, k) by {
        lemma_catalog_keys(s, k);
        let j = choose|j: int| 0 <= j < s.len() && (#[trigger] s[j]).id@ == k;
        let j1 = if j < i { j } else { j - 1 };
        assert(after[j1] == s[j]);
    }
    lemma_catalog_is(after, m);
}

/// `s` lists the records of `m`: each record of `m` once, under its own id,
/// and nothing else.
pub open spec fn is_snapshot(m: Map<Seq<char>, TrackView>, s: Seq<MusicMetadata>) -> bool {
    &&& distinct_ids(s)
    &&& forall|i: int|
        0 <= i < s.len() ==> m.dom().contains((#[trigger] s[i]).id@) && m[s[i].id@] == s[i]@
    &&& forall|k: Seq<char>| m.dom().contains(k) ==> has_id(s, k)
}

/// The map after the favorite flag of the record under `id` is set: the
/// record keeps all its other fields, and a map without that id is unchanged.
pub open spec fn favorite_set(m: Map<Seq<char>, TrackView>, id: Seq<char>, favorite: bool) -> Map<
    Seq<char>,
    TrackView,
> {
    if m.dom().contains(id) {
        m.insert(id, (TrackView { favorite: favorite, ..m[id] }))
    } else {
        m
    }
}

/// The stamp from which the search for a free id starts: the time of the
/// import, but not below the floor that earlier ids have set. Where the
/// search, which tries one stamp more than the catalog holds records, could
/// run past the largest stamp, it starts that much below the largest.
pub open spec fn first_stamp(millis: nat, floor: nat, held: nat) -> nat {
    let wanted = if millis >= floor {
        millis
    } else {
        floor
    };
    if wanted + held <= u128::MAX {
        wanted
    } else {
        (u128::MAX - held) as nat
    }
}

/// `stamp` is the first stamp from `from` upward whose id `m` does not hold.
pub open spec fn is_first_free(m: Map<Seq<char>, TrackView>, from: nat, stamp: nat) -> bool {
    &&& from <= stamp
    &&& !m.dom().contains(id_text(stamp))
    &&& forall|s: nat| from <= s < stamp ==> m.dom().contains(#[trigger] id_text(s))
}

/// The floor after an id with the given stamp was handed out: one above
/// the stamp, as far as stamps go.
pub open spec fn floor_after(stamp: nat) -> nat {
    if stamp < u128::MAX {
        stamp + 1
    } else {
        stamp
    }
}

/// The catalog of tracks.
#[derive(Debug)]
pub struct MusicDatabase {
    tracks: Vec<MusicMetadata>,
    /// Above every stamp that `generate_id` has handed out on this value.
    issued: u128,
}

impl View for MusicDatabase {
    type V = Map<Seq<char>, TrackView>;

    closed spec fn view(&self) -> Map<Seq<char>, TrackView> {
        catalog_of(self.tracks@)
    }
}

impl Default for MusicDatabase {
    fn default() -> (db: Self)
        ensures
            db@ == Map::<Seq<char>, TrackView>::empty(),
            db.stamp_floor() == 0,
    {
        MusicDatabase::new()
    }
}

impl MusicDatabase {
    /// No id occurs twice in the list behind the map.
    #[verifier::type_invariant]
    spec fn wf(self) -> bool {
        distinct_ids(self.tracks@)
    }

    /// The stamp below which `generate_id` hands out no id any more.
    pub closed spec fn stamp_floor(&self) -> nat {
        self.issued as nat
    }

    /// An empty catalog.
    pub fn new() -> (db: Self)
        ensures
            db@ == Map::<Seq<char>, TrackView>::empty(),
            db.stamp_floor() == 0,
    {
        MusicDatabase { tracks: Vec::new(), issued: 0 }
    }

    /// An id for a track imported at `millis` milliseconds after the epoch
    /// that the catalog does not hold and that was not handed out before:
    /// the id of the first free stamp from `millis`, or from the floor where
    /// that is higher. The floor then lies above the stamp.
    pub fn generate_id(&mut self, millis: u128) -> (id: String)
        ensures
            final(self)@ == old(self)@,
            old(self)@.dom().finite(),
            !old(self)@.dom().contains(id@),
            exists|stamp: nat|
                #![trigger id_text(stamp)]
                is_first_free(
                    old(self)@,
                    first_stamp(millis as nat, old(self).stamp_floor(), old(self)@.dom().len()),
                    stamp,
                ) && id@ == id_text(stamp) && final(self).stamp_floor() == floor_after(stamp),
    {
        proof {
            use_type_invariant(&*self);
            lemma_catalog_size(self.tracks@);
        }
        let n = self.tracks.len();
        let wanted = if millis >= self.issued {
            millis
        } else {
            self.issued
        };
        let start: u128 = if wanted > u128::MAX - (n as u128) {
            u128::MAX - (n as u128)
        } else {
            wanted
        };
        let mut k: usize = 0;
        let ghost mut seen: Set<Seq<char>> = Set::empty();
        loop
            invariant
                *self == *old(self),
                distinct_ids(self.tracks@),
                n == self.tracks@.len(),
                self@.dom().finite(),
                self@.dom().len() == n,
                k <= n,
                start + n <= u128::MAX,
                start == first_stamp(millis as nat, self.stamp_floor(), n as nat),
                seen.finite(),
                seen.len() == k,
                seen.subset_of(self@.dom()),
                forall|id: Seq<char>|
                    seen.contains(id) ==> exists|s: nat|
                        start <= s < start + k && id == #[trigger] id_text(s),
                forall|s: nat| start <= s < start + k ==> self@.dom().contains(#[trigger] id_text(s)),
            decreases n - k,
        {
            let stamp: u128 = start + (k as u128);
            let id = id_for_stamp(stamp);
            if self.position(id.as_str()).is_none() {
                self.issued = if stamp < u128::MAX {
                    stamp + 1
                } else {
                    stamp
                };
                proof {
                    assert(is_first_free(old(self)@, start as nat, stamp as nat));
                }
                return id;
            }
            proof {
                if seen.contains(id@) {
                    let s = choose|s: nat| start <= s < start + k && id@ == #[trigger] id_text(s);
                    lemma_ids_differ(s, stamp as nat);
                }
                seen = seen.insert(id@);
                vstd::set_lib::lemma_len_subset(seen, self@.dom());
            }
            k += 1;
        }
    }

    /// Where in the list the record with this id stands, if anywhere.
    fn position(&self, id: &str) -> (r: Option<usize>)
        ensures
            match r {
                Some(i) => i < self.tracks@.len() && self.tracks@[i as int].id@ == id@
                    && self@.dom().contains(id@) && self@[id@] == self.tracks@[i as int]@,
                None => !self@.dom().contains(id@) && !has_id(self.tracks@, id@),
            },
    {
        proof {
            use_type_invariant(self);
        }
        let key = String::from_str(id);
        let mut i: usize = 0;
        while i < self.tracks.len()
            invariant
                distinct_ids(self.tracks@),
                i <= self.tracks@.len(),
                key@ == id@,
                forall|j: int| 0 <= j < i ==> (#[trigger] self.tracks@[j]).id@ != id@,
            decreases self.tracks@.len() - i,
        {
            if self.tracks[i].id == key {
                proof {
                    lemma_catalog_lookup(self.tracks@, i as int);
                }
                return Some(i);
            }
            i += 1;
        }
        proof {
            lemma_catalog_keys(self.tracks@, id@);
        }
        None
    }

    /// The record with this id, if the catalog holds one.
    pub fn get_track(&self, id: &str) -> (r: Option<&MusicMetadata>)
        ensures
            r is Some <==> self@.dom().contains(id@),
            r is Some ==> r.unwrap()@ == self@[id@] && r.unwrap().id@ == id@,
    {
        match self.position(id) {
            Some(i) => Some(&self.tracks[i]),
            None => None,
        }
    }

    /// Inserts the record under its id, replacing the record that stood there.
    pub fn add_track(&mut self, metadata: MusicMetadata)
        ensures
            final(self)@ == old(self)@.insert(metadata.id@, metadata@),
            final(self).stamp_floor() == old(self).stamp_floor(),
    {
        proof {
            use_type_invariant(&*self);
        }
        let found = self.position(metadata.id.as_str());
        let mut tracks: Vec<MusicMetadata> = Vec::new();
        std::mem::swap(&mut tracks, &mut self.tracks);
        match found {
            Some(i) => {
                proof {
                    lemma_catalog_update(tracks@, i as int, metadata);
                }
                tracks.set(i, metadata);
            },
            None => {
                proof {
                    lemma_catalog_push(tracks@, metadata);
                }
                tracks.push(metadata);
            },
        }
        self.tracks = tracks;
    }

    /// Takes the record with this id out of the catalog and returns it.
    /// Where there is none, the catalog stays as it was.
    pub fn remove_track(&mut self, id: &str) -> (r: Option<MusicMetadata>)
        ensures
            r is Some <==> old(self)@.dom().contains(id@),
            r is Some ==> r.unwrap()@ == old(self)@[id@] && final(self)@ == old(self)@.remove(id@),
            r is None ==> *final(self) == *old(self),
            final(self).stamp_floor() == old(self).stamp_floor(),
    {
        proof {
            use_type_invariant(&*self);
        }
        match self.position(id) {
            Some(i) => {
                let mut tracks: Vec<MusicMetadata> = Vec::new();
                std::mem::swap(&mut tracks, &mut self.tracks);
                proof {
                    lemma_catalog_remove(tracks@, i as int);
                }
                let taken = tracks.remove(i);
                self.tracks = tracks;
                Some(taken)
            },
            None => None,
        }
    }

    /// Sets the favorite flag of the record with this id and says whether
    /// the catalog holds such a record. Nothing else changes.
    pub fn set_favorite(&mut self, id: &str, favorite: bool) -> (found: bool)
        ensures
            found == old(self)@.dom().contains(id@),
            final(self)@ == favorite_set(old(self)@, id@, favorite),
            !found ==> *final(self) == *old(self),
            final(self).stamp_floor() == old(self).stamp_floor(),
    {
        proof {
            use_type_invariant(&*self);
        }
        match self.position(id) {
            Some(i) => {
                let mut tracks: Vec<MusicMetadata> = Vec::new();
                std::mem::swap(&mut tracks, &mut self.tracks);
                let ghost before = tracks@;
                let mut track = tracks.remove(i);
                track.favorite = favorite;
                proof {
                    lemma_catalog_update(before, i as int, track);
                    assert(tracks@.insert(i as int, track) =~= before.update(i as int, track));
                }
                tracks.insert(i, track);
                self.tracks = tracks;
                true
            },
            None => false,
        }
    }

    /// Every record of the catalog, each once, in no order that callers
    /// may rely on.
    pub fn get_all_tracks(&self) -> (all: Vec<&MusicMetadata>)
        ensures
            all@.len() == self@.dom().len(),
            forall|i: int|
                0 <= i < all@.len() ==> self@.dom().contains((#[trigger] all@[i]).id@)
                    && self@[all@[i].id@] == all@[i]@,
            forall|i: int, j: int|
                0 <= i < j < all@.len() ==> (#[trigger] all@[i]).id@ != (#[trigger] all@[j]).id@,
            forall|k: Seq<char>|
                self@.dom().contains(k) ==> exists|i: int|
                    0 <= i < all@.len() && (#[trigger] all@[i]).id@ == k,
    {
        let mut all: Vec<&MusicMetadata> = Vec::new();
        let mut i: usize = 0;
        while i < self.tracks.len()
            invariant
                i <= self.tracks@.len(),
                all@.len() == i,
                forall|j: int| 0 <= j < i ==> *(#[trigger] all@[j]) == self.tracks@[j],
            decreases self.tracks@.len() - i,
        {
            all.push(&self.tracks[i]);
            i += 1;
        }
        proof {
            use_type_invariant(self);
            let s = self.tracks@;
            lemma_catalog_size(s);
            assert forall|j: int| 0 <= j < all@.len() implies self@.dom().contains(
                (#[trigger] all@[j]).id@,
            ) && self@[all@[j].id@] == all@[j]@ by {
                lemma_catalog_lookup(s, j);
            }
            assert forall|a: int, b: int| 0 <= a < b < all@.len() implies (#[trigger] all@[a]).id@
                != (#[trigger] all@[b]).id@ by {
                assert(s[a].id@ != s[b].id@);
            }
            assert forall|k: Seq<char>| self@.dom().contains(k) implies exists|j: int|
                0 <= j < all@.len() && (#[trigger] all@[j]).id@ == k by {
                lemma_catalog_keys(s, k);
                let j = choose|j: int| 0 <= j < s.len() && (#[trigger] s[j]).id@ == k;
                assert(all@[j].id@ == k);
            }
        }
        all
    }

    /// How many records the catalog holds.
    pub fn len(&self) -> (n: usize)
        ensures
            n == self@.dom().len(),
            self@.dom().finite(),
    {
        proof {
            use_type_invariant(self);
            lemma_catalog_size(self.tracks@);
        }
        self.tracks.len()
    }
    /// A copy of every record of the catalog, each once.
    pub fn snapshot(&self) -> (all: Vec<MusicMetadata>)
        ensures
            is_snapshot(self@, all@),
            all@.len() == self@.dom().len(),
    {
        let mut all: Vec<MusicMetadata> = Vec::new();
        let mut i: usize = 0;
        while i < self.tracks.len()
            invariant
                i <= self.tracks@.len(),
                all@.len() == i,
                forall|j: int| 0 <= j < i ==> (#[trigger] all@[j]) == self.tracks@[j],
            decreases self.tracks@.len() - i,
        {
            all.push(self.tracks[i].clone());
            i += 1;
        }
        proof {
            use_type_invariant(self);
            let s = self.tracks@;
            assert(all@ =~= s);
            lemma_catalog_size(s);
            assert forall|j: int| 0 <= j < s.len() implies self@.dom().contains(
                (#[trigger] s[j]).id@,
            ) && self@[s[j].id@] == s[j]@ by {
                lemma_catalog_lookup(s, j);
            }
            assert forall|k: Seq<char>| self@.dom().contains(k) implies has_id(s, k) by {
                lemma_catalog_keys(s, k);
            }
        }
        all
    }

    /// The catalog that results from adding the given records in turn, a
    /// later record replacing an earlier one with the same id.
    pub fn from_tracks(records: &Vec<MusicMetadata>) -> (db: Self)
        ensures
            db@ == catalog_of(records@),
            db.stamp_floor() == 0,
    {
        let mut db = MusicDatabase::new();
        let mut i: usize = 0;
        while i < records.len()
            invariant
                i <= records@.len(),
                db@ == catalog_of(records@.take(i as int)),
                db.stamp_floor() == 0,
            decreases records@.len() - i,
        {
            let record = records[i].clone();
            db.add_track(record);
            proof {
                let next = records@.take(i + 1);
                assert(next.drop_last() =~= records@.take(i as int));
                assert(next.last() == records@[i as int]);
            }
            i += 1;
        }
        proof {
            assert(records@.take(records@.len() as int) =~= records@);
        }
        db
    }
}

} // verus!
