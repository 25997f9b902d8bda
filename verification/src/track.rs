//! The track record and its mathematical view.

use vstd::prelude::*;

verus! {

/// One imported audio file as the catalog knows it.
#[derive(Debug, PartialEq, Eq)]
pub struct MusicMetadata {
    pub id: String,
    pub title: String,
    pub artist: String,
    pub path: String,
    pub favorite: bool,
    pub genre: Option<String>,
    pub album: Option<String>,
    /// A data URI holding the cover image, if any was found.
    pub album_art: Option<String>,
    /// Whole seconds.
    pub duration: Option<u64>,
}

/// A track record as plain mathematical values.
pub struct TrackView {
    pub id: Seq<char>,
    pub title: Seq<char>,
    pub artist: Seq<char>,
    pub path: Seq<char>,
    pub favorite: bool,
    pub genre: Option<Seq<char>>,
    pub album: Option<Seq<char>>,
    pub album_art: Option<Seq<char>>,
    pub duration: Option<u64>,
}

/// The characters of an optional string.
pub open spec fn text_of(o: Option<String>) -> Option<Seq<char>> {
    match o {
        Some(s) => Some(s@),
        None => None,
    }
}

impl View for MusicMetadata {
    type V = TrackView;

    open spec fn view(&self) -> TrackView {
        TrackView {
            id: self.id@,
            title: self.title@,
            artist: self.artist@,
            path: self.path@,
            favorite: self.favorite,
            genre: text_of(self.genre),
            album: text_of(self.album),
            album_art: text_of(self.album_art),
            duration: self.duration,
        }
    }
}

/// Copies an optional string.
pub fn clone_text(o: &Option<String>) -> (r: Option<String>)
    ensures
        r == *o,
{
    match o {
        Some(s) => Some(s.clone()),
        None => None,
    }
}

impl Clone for MusicMetadata {
    fn clone(&self) -> (r: Self)
        ensures
            r == *self,
    {
        MusicMetadata {
            id: self.id.clone(),
            title: self.title.clone(),
            artist: self.artist.clone(),
            path: self.path.clone(),
            favorite: self.favorite,
            genre: clone_text(&self.genre),
            album: clone_text(&self.album),
            album_art: clone_text(&self.album_art),
            duration: self.duration,
        }
    }
}

} // verus!
