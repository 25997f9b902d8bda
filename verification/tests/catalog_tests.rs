use music_catalog::catalog::MusicDatabase;
use music_catalog::track::MusicMetadata;

fn track(id: &str, title: &str) -> MusicMetadata {
    MusicMetadata {
        id: id.to_string(),
        title: title.to_string(),
        artist: "Artist".to_string(),
        path: format!("/data/music/{}.mp3", title),
        favorite: false,
        genre: Some("Rock".to_string()),
        album: None,
        album_art: None,
        duration: Some(180),
    }
}

#[test]
fn new_catalog_is_empty() {
    let db = MusicDatabase::new();
    assert_eq!(db.len(), 0);
    assert!(db.get_all_tracks().is_empty());
    assert!(db.get_track("music_1").is_none());
}

#[test]
fn added_track_is_found_under_its_id() {
    let mut db = MusicDatabase::new();
    db.add_track(track("music_1", "one"));
    db.add_track(track("music_2", "two"));
    assert_eq!(db.len(), 2);
    assert_eq!(db.get_track("music_1"), Some(&track("music_1", "one")));
    assert_eq!(db.get_track("music_2"), Some(&track("music_2", "two")));
    assert!(db.get_track("music_3").is_none());
}

#[test]
fn adding_under_a_held_id_replaces_the_record() {
    let mut db = MusicDatabase::new();
    db.add_track(track("music_1", "one"));
    db.add_track(track("music_2", "two"));
    db.add_track(track("music_1", "uno"));
    assert_eq!(db.len(), 2);
    assert_eq!(db.get_track("music_1").unwrap().title, "uno");
    assert_eq!(db.get_track("music_2").unwrap().title, "two");
}

#[test]
fn removing_returns_the_record_and_drops_it() {
    let mut db = MusicDatabase::new();
    db.add_track(track("music_1", "one"));
    db.add_track(track("music_2", "two"));
    db.add_track(track("music_3", "three"));
    let taken = db.remove_track("music_2");
    assert_eq!(taken, Some(track("music_2", "two")));
    assert_eq!(db.len(), 2);
    assert!(db.get_track("music_2").is_none());
    assert_eq!(db.get_track("music_1"), Some(&track("music_1", "one")));
    assert_eq!(db.get_track("music_3"), Some(&track("music_3", "three")));
}

#[test]
fn removing_an_unknown_id_changes_nothing() {
    let mut db = MusicDatabase::new();
    db.add_track(track("music_1", "one"));
    assert_eq!(db.remove_track("music_9"), None);
    assert_eq!(db.len(), 1);
    assert_eq!(db.get_track("music_1"), Some(&track("music_1", "one")));
}

#[test]
fn set_favorite_changes_only_the_flag_of_that_record() {
    let mut db = MusicDatabase::new();
    db.add_track(track("music_1", "one"));
    db.add_track(track("music_2", "two"));
    assert!(db.set_favorite("music_1", true));
    let mut expected = track("music_1", "one");
    expected.favorite = true;
    assert_eq!(db.get_track("music_1"), Some(&expected));
    assert_eq!(db.get_track("music_2"), Some(&track("music_2", "two")));
    assert!(db.set_favorite("music_1", false));
    assert_eq!(db.get_track("music_1"), Some(&track("music_1", "one")));
}

#[test]
fn set_favorite_on_an_unknown_id_reports_it() {
    let mut db = MusicDatabase::new();
    db.add_track(track("music_1", "one"));
    assert!(!db.set_favorite("music_2", true));
    assert_eq!(db.get_track("music_1"), Some(&track("music_1", "one")));
    assert_eq!(db.len(), 1);
}

#[test]
fn set_favorite_twice_is_as_once() {
    let mut once = MusicDatabase::new();
    once.add_track(track("music_1", "one"));
    once.set_favorite("music_1", true);
    let mut twice = MusicDatabase::new();
    twice.add_track(track("music_1", "one"));
    twice.set_favorite("music_1", true);
    twice.set_favorite("music_1", true);
    assert_eq!(once.snapshot(), twice.snapshot());
}

#[test]
fn get_all_tracks_lists_each_record_once() {
    let mut db = MusicDatabase::new();
    db.add_track(track("music_1", "one"));
    db.add_track(track("music_2", "two"));
    db.add_track(track("music_1", "uno"));
    let all = db.get_all_tracks();
    assert_eq!(all.len(), 2);
    let mut ids: Vec<&str> = all.iter().map(|t| t.id.as_str()).collect();
    ids.sort();
    assert_eq!(ids, vec!["music_1", "music_2"]);
}

#[test]
fn snapshot_rebuilds_the_same_catalog() {
    let mut db = MusicDatabase::new();
    db.add_track(track("music_1", "one"));
    db.add_track(track("music_2", "two"));
    db.set_favorite("music_2", true);
    let saved = db.snapshot();
    let again = MusicDatabase::from_tracks(&saved);
    assert_eq!(again.len(), 2);
    assert_eq!(again.get_track("music_1"), db.get_track("music_1"));
    assert_eq!(again.get_track("music_2"), db.get_track("music_2"));
    assert_eq!(again.snapshot(), saved);
}

#[test]
fn from_tracks_keeps_the_later_of_two_records_with_one_id() {
    let records = vec![track("music_1", "one"), track("music_2", "two"), track("music_1", "uno")];
    let db = MusicDatabase::from_tracks(&records);
    assert_eq!(db.len(), 2);
    assert_eq!(db.get_track("music_1").unwrap().title, "uno");
}

#[test]
fn a_cloned_record_equals_the_record() {
    let mut t = track("music_1", "one");
    t.album = Some("Album".to_string());
    t.album_art = Some("data:image/png;base64,AAAA".to_string());
    assert_eq!(t.clone(), t);
}

#[test]
fn default_catalog_is_empty() {
    let db = MusicDatabase::default();
    assert_eq!(db.len(), 0);
    assert!(db.snapshot().is_empty());
}
