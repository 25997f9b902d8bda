//! The operations that a front end calls, as far as they concern the
//! catalog in memory. Reading and writing files is the caller's part: each
//! operation says what the caller is to do on disk afterwards.

use vstd::prelude::*;
use crate::catalog::{
    catalog_of, favorite_set, first_stamp, floor_after, is_first_free, is_snapshot, MusicDatabase,
};
use crate::ident::id_text;
use crate::error::MusicError;
use crate::extract::{Extracted, ExtractedView};
use crate::track::{MusicMetadata, TrackView};

verus! {

/// The record of a freshly imported track: the resolved fields, with the
/// playing time that was measured on import, and not marked as favorite.
pub open spec fn imported_view(
    id: Seq<char>,
    path: Seq<char>,
    fields: ExtractedView,
    duration: Option<u64>,
) -> TrackView {
    TrackView {
        id: id,
        title: fields.title,
        artist: fields.artist,
        path: path,
        favorite: false,
        genre: fields.genre,
        album: fields.album,
        album_art: fields.album_art,
        duration: duration,
    }
}

/// Builds the record of a freshly imported track.
pub fn new_track(id: String, path: String, fields: Extracted, duration: Option<u64>) -> (r:
    MusicMetadata)
    ensures
        r@ == imported_view(id@, path@, fields@, duration),
{
    MusicMetadata {
        id: id,
        title: fields.title,
        artist: fields.artist,
        path: path,
        favorite: false,
        genre: fields.genre,
        album: fields.album,
        album_art: fields.album_art,
        duration: duration,
    }
}

/// Commits an imported file to the catalog under an id that the catalog
/// does not hold and that was not handed out before, and returns its
/// record. `millis` is the time of the import, `path` where the managed
/// copy lies, `duration` the playing time measured on import. The catalog
/// grows by this one record. The caller then persists the catalog.
pub fn upload_music_file(
    db: &mut MusicDatabase,
    millis: u128,
    path: String,
    fields: Extracted,
    duration: Option<u64>,
) -> (r: MusicMetadata)
    ensures
        !old(db)@.dom().contains(r.id@),
        exists|stamp: nat|
            #![trigger id_text(stamp)]
            is_first_free(
                old(db)@,
                first_stamp(millis as nat, old(db).stamp_floor(), old(db)@.dom().len()),
                stamp,
            ) && r.id@ == id_text(stamp) && final(db).stamp_floor() == floor_after(stamp),
        r@ == imported_view(r.id@, path@, fields@, duration),
        final(db)@ == old(db)@.insert(r.id@, r@),
        final(db)@.dom().len() == old(db)@.dom().len() + 1,
{
    let id = db.generate_id(millis);
    let record = new_track(id, path, fields, duration);
    let copy = record.clone();
    db.add_track(record);
    copy
}

/// A copy of the record with this id, or `NotFound` with the id.
pub fn get_music_metadata(db: &MusicDatabase, id: &str) -> (r: Result<MusicMetadata, MusicError>)
    ensures
        r is Ok <==> db@.dom().contains(id@),
        r is Ok ==> r.unwrap()@ == db@[id@] && r.unwrap().id@ == id@,
        r is Err ==> r.unwrap_err() is NotFound && r.unwrap_err()->NotFound_0@ == id@,
{
    match db.get_track(id) {
        Some(track) => Ok(track.clone()),
        None => Err(MusicError::NotFound(String::from_str(id))),
    }
}

/// Removes the record with this id and returns the path of its managed
/// file, which the caller deletes before persisting the catalog. Where the
/// catalog holds no such record it is unchanged, and the caller touches
/// nothing on disk.
pub fn delete_music(db: &mut MusicDatabase, id: &str) -> (r: Result<String, MusicError>)
    ensures
        r is Ok <==> old(db)@.dom().contains(id@),
        r is Ok ==> r.unwrap()@ == old(db)@[id@].path && final(db)@ == old(db)@.remove(id@),
        final(db).stamp_floor() == old(db).stamp_floor(),
        r is Err ==> *final(db) == *old(db) && r.unwrap_err() is NotFound
            && r.unwrap_err()->NotFound_0@ == id@,
{
    match db.remove_track(id) {
        Some(track) => Ok(track.path),
        None => Err(MusicError::NotFound(String::from_str(id))),
    }
}

/// Sets the favorite flag of the record with this id; the caller then
/// persists the catalog. Where the catalog holds no such record it is
/// unchanged.
pub fn set_favorite(db: &mut MusicDatabase, id: &str, favorite: bool) -> (r: Result<
    (),
    MusicError,
>)
    ensures
        r is Ok <==> old(db)@.dom().contains(id@),
        final(db)@ == favorite_set(old(db)@, id@, favorite),
        final(db).stamp_floor() == old(db).stamp_floor(),
        r is Err ==> *final(db) == *old(db) && r.unwrap_err() is NotFound
            && r.unwrap_err()->NotFound_0@ == id@,
{
    if db.set_favorite(id, favorite) {
        Ok(())
    } else {
        Err(MusicError::NotFound(String::from_str(id)))
    }
}

/// A copy of every record, each once, in no order that callers may rely on.
pub fn get_all_music(db: &MusicDatabase) -> (all: Vec<MusicMetadata>)
    ensures
        is_snapshot(db@, all@),
        all@.len() == db@.dom().len(),
{
    db.snapshot()
}

/// The catalog at start-up: the records that were read from the stored
/// catalog, or an empty catalog where there was none or it could not be
/// understood.
pub fn init_music_state(stored: Option<Vec<MusicMetadata>>) -> (db: MusicDatabase)
    ensures
        db@ == match stored {
            Some(records) => catalog_of(records@),
            None => Map::<Seq<char>, TrackView>::empty(),
        },
{
    match stored {
        Some(records) => MusicDatabase::from_tracks(&records),
        None => MusicDatabase::new(),
    }
}

/// What a delete reports once the caller has tried to delete the managed
/// file and, whatever came of that, to persist the catalog: the failure to
/// delete the file if there was one, else that of persisting, else success.
pub fn finish_delete(removed: Result<(), MusicError>, saved: Result<(), MusicError>) -> (r:
    Result<(), MusicError>)
    ensures
        r == match removed {
            Err(e) => Err::<(), MusicError>(e),
            Ok(_) => saved,
        },
{
    match removed {
        Err(e) => Err(e),
        Ok(_) => saved,
    }
}

} // verus!
