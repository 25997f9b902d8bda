//! What holds of the catalog across several operations.

use vstd::prelude::*;
use crate::catalog::{
    catalog_of, favorite_set, first_stamp, floor_after, has_id, is_first_free, is_snapshot,
    lemma_catalog_is,
};
use crate::extract::ExtractedView;
use crate::ident::{id_text, lemma_ids_differ};
use crate::ops::imported_view;
use crate::track::{MusicMetadata, TrackView};

verus! {

/// An import gets an id that the catalog does not hold, whatever the clock
/// reads: committing it adds one record and leaves every other record as
/// it was.
pub proof fn lemma_import_is_fresh(
    m: Map<Seq<char>, TrackView>,
    from: nat,
    stamp: nat,
    path: Seq<char>,
    fields: ExtractedView,
    duration: Option<u64>,
)
    requires
        m.dom().finite(),
        is_first_free(m, from, stamp),
    ensures
        !m.dom().contains(id_text(stamp)),
        m.insert(
            id_text(stamp),
            imported_view(id_text(stamp), path, fields, duration),
        ).dom().len() == m.dom().len() + 1,
        forall|k: Seq<char>|
            m.dom().contains(k) ==> #[trigger] m.insert(
                id_text(stamp),
                imported_view(id_text(stamp), path, fields, duration),
            )[k] == m[k],
{
}

/// An id is not handed out twice, whether or not its track was deleted in
/// between and whatever the clock reads: a later import starts its search
/// at the floor that the earlier one left, which no operation lowers. This
/// holds as long as stamps stay below the largest 128-bit number.
pub proof fn lemma_ids_are_not_reused(
    earlier: nat,
    floor: nat,
    millis: nat,
    m: Map<Seq<char>, TrackView>,
    later: nat,
)
    requires
        earlier < u128::MAX,
        floor_after(earlier) <= floor,
        floor + m.dom().len() <= u128::MAX,
        is_first_free(m, first_stamp(millis, floor, m.dom().len()), later),
    ensures
        earlier < later,
        id_text(earlier) != id_text(later),
{
    lemma_ids_differ(earlier, later);
}

/// A record is created as no favorite, and the flag of a record changes
/// only when it is set for that record's id: adding, replacing or removing
/// another record, or setting the flag of another record, leaves it alone,
/// and setting it changes no other field.
pub proof fn lemma_favorite_changes_only_when_set(
    m: Map<Seq<char>, TrackView>,
    k: Seq<char>,
    other: Seq<char>,
    record: TrackView,
    favorite: bool,
    path: Seq<char>,
    fields: ExtractedView,
    duration: Option<u64>,
)
    requires
        m.dom().contains(k),
        other != k,
    ensures
        !imported_view(k, path, fields, duration).favorite,
        m.insert(other, record)[k] == m[k],
        m.remove(other)[k] == m[k],
        favorite_set(m, other, favorite)[k] == m[k],
        favorite_set(m, k, favorite)[k] == (TrackView { favorite: favorite, ..m[k] }),
        favorite_set(m, k, favorite).dom() == m.dom(),
{
    assert(favorite_set(m, k, favorite).dom() =~= m.dom());
}

/// A catalog that is written out as the list of its records and built
/// again from that list is the same catalog, field for field.
pub proof fn lemma_snapshot_reloads(m: Map<Seq<char>, TrackView>, s: Seq<MusicMetadata>)
    requires
        is_snapshot(m, s),
    ensures
        catalog_of(s) == m,
{
    lemma_catalog_is(s, m);
}

/// Setting the favorite flag twice to the same value gives the catalog
/// that setting it once gives.
pub proof fn lemma_set_favorite_idempotent(
    m: Map<Seq<char>, TrackView>,
    id: Seq<char>,
    favorite: bool,
)
    ensures
        favorite_set(favorite_set(m, id, favorite), id, favorite) == favorite_set(m, id, favorite),
{
    assert(favorite_set(favorite_set(m, id, favorite), id, favorite) =~= favorite_set(
        m,
        id,
        favorite,
    ));
}

/// Removing an id that the catalog does not hold changes nothing.
pub proof fn lemma_remove_absent(m: Map<Seq<char>, TrackView>, id: Seq<char>)
    requires
        !m.dom().contains(id),
    ensures
        m.remove(id) == m,
{
    assert(m.remove(id) =~= m);
}

/// After a track is deleted, no list of the catalog's records holds its id,
/// and every other record is listed as before.
pub proof fn lemma_deleted_is_not_listed(
    m: Map<Seq<char>, TrackView>,
    id: Seq<char>,
    s: Seq<MusicMetadata>,
)
    requires
        is_snapshot(m.remove(id), s),
    ensures
        !has_id(s, id),
        forall|k: Seq<char>| m.dom().contains(k) && k != id ==> has_id(s, k),
{
    if has_id(s, id) {
        let i = choose|i: int| 0 <= i < s.len() && (#[trigger] s[i]).id@ == id;
        assert(m.remove(id).dom().contains(s[i].id@));
    }
    assert forall|k: Seq<char>| m.dom().contains(k) && k != id implies has_id(s, k) by {
        assert(m.remove(id).dom().contains(k));
    }
}

} // verus!
