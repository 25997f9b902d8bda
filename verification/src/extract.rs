//! From what the tag readers found to the fields of a track record.

use vstd::prelude::*;
use crate::encode::{base64_encode, base64_standard, can_encode};
use crate::error::MusicError;
use crate::track::text_of;

verus! {

/// The picture formats that the general tag reader tells apart.
#[derive(Debug, Clone, Copy)]
pub enum CoverFormat {
    Jpeg,
    Png,
    Tiff,
    Bmp,
    Gif,
}

/// A cover picture as the general tag reader hands it out.
#[derive(Debug)]
pub struct CoverImage {
    pub format: CoverFormat,
    pub data: Vec<u8>,
}

/// What the general, multi-format tag reader found in a file.
#[derive(Debug)]
pub struct GeneralTags {
    pub title: Option<String>,
    pub artist: Option<String>,
    pub genre: Option<String>,
    pub album: Option<String>,
    pub cover: Option<CoverImage>,
    pub duration: Option<u64>,
}

/// The text fields that the format-specific tag reader found in a file.
#[derive(Debug)]
pub struct SpecificTags {
    pub title: Option<String>,
    pub artist: Option<String>,
    pub genre: Option<String>,
    pub album: Option<String>,
}

/// A picture as the format-specific tag reader hands it out.
#[derive(Debug)]
pub struct EmbeddedPicture {
    /// The picture's media type, such as `image/png`.
    pub mime_type: String,
    pub data: Vec<u8>,
}

/// The descriptive fields of a track, resolved.
#[derive(Debug, PartialEq, Eq)]
pub struct Extracted {
    pub title: String,
    pub artist: String,
    pub genre: Option<String>,
    pub album: Option<String>,
    pub album_art: Option<String>,
    pub duration: Option<u64>,
}

/// The resolved fields as plain mathematical values.
pub struct ExtractedView {
    pub title: Seq<char>,
    pub artist: Seq<char>,
    pub genre: Option<Seq<char>>,
    pub album: Option<Seq<char>>,
    pub album_art: Option<Seq<char>>,
    pub duration: Option<u64>,
}

impl View for Extracted {
    type V = ExtractedView;

    open spec fn view(&self) -> ExtractedView {
        ExtractedView {
            title: self.title@,
            artist: self.artist@,
            genre: text_of(self.genre),
            album: text_of(self.album),
            album_art: text_of(self.album_art),
            duration: self.duration,
        }
    }
}

/// The index of the first `/` at or after `from`, or the length of `s`.
pub open spec fn slash_at(s: Seq<char>, from: int) -> int
    decreases s.len() - from,
{
    if from < 0 || from >= s.len() {
        s.len() as int
    } else if s[from] == '/' {
        from
    } else {
        slash_at(s, from + 1)
    }
}

/// What stands between the first `/` of a media type and the next one, or
/// `jpeg` where the media type has no `/`.
pub open spec fn mime_subtype_text(mime: Seq<char>) -> Seq<char> {
    let first = slash_at(mime, 0);
    if first >= mime.len() {
        "jpeg"@
    } else {
        mime.subrange(first + 1, slash_at(mime, first + 1))
    }
}

/// The subtype under which each picture format goes into a data URI.
pub open spec fn cover_subtype_text(format: CoverFormat) -> Seq<char> {
    match format {
        CoverFormat::Jpeg => "jpeg"@,
        CoverFormat::Png => "png"@,
        CoverFormat::Tiff => "tiff"@,
        CoverFormat::Bmp => "bmp"@,
        CoverFormat::Gif => "gif"@,
    }
}

/// A picture as a data URI: the image subtype, then the bytes in base64.
pub open spec fn data_uri_text(subtype: Seq<char>, data: Seq<u8>) -> Seq<char> {
    "data:image/"@ + subtype + ";base64,"@ + base64_standard(data)
}

/// The album art that the general reader's cover gives.
pub open spec fn cover_art_text(cover: Option<CoverImage>) -> Option<Seq<char>> {
    match cover {
        Some(c) => if can_encode(c.data@) {
            Some(data_uri_text(cover_subtype_text(c.format), c.data@))
        } else {
            None
        },
        None => None,
    }
}

/// The album art that the format-specific reader's pictures give: the
/// first of them.
pub open spec fn picture_art_text(pictures: Seq<EmbeddedPicture>) -> Option<Seq<char>> {
    if pictures.len() > 0 && can_encode(pictures[0].data@) {
        Some(data_uri_text(mime_subtype_text(pictures[0].mime_type@), pictures[0].data@))
    } else {
        None
    }
}

/// The title: the tag's, else the file's base name without its extension,
/// else a fixed placeholder.
pub open spec fn title_text(title: Option<String>, stem: Option<String>) -> Seq<char> {
    match title {
        Some(t) => t@,
        None => match stem {
            Some(s) => s@,
            None => "Unknown Title"@,
        },
    }
}

/// The artist: the tag's, else a fixed placeholder.
pub open spec fn artist_text(artist: Option<String>) -> Seq<char> {
    match artist {
        Some(a) => a@,
        None => "Unknown Artist"@,
    }
}

/// The fields that the general reader's tags resolve to.
pub open spec fn general_view(tags: GeneralTags, stem: Option<String>) -> ExtractedView {
    ExtractedView {
        title: title_text(tags.title, stem),
        artist: artist_text(tags.artist),
        genre: text_of(tags.genre),
        album: text_of(tags.album),
        album_art: cover_art_text(tags.cover),
        duration: tags.duration,
    }
}

/// The fields that the format-specific reader's tags resolve to, with the
/// album art and the playing time that were found beside them.
pub open spec fn specific_view(
    tags: SpecificTags,
    stem: Option<String>,
    album_art: Option<Seq<char>>,
    duration: Option<u64>,
) -> ExtractedView {
    ExtractedView {
        title: title_text(tags.title, stem),
        artist: artist_text(tags.artist),
        genre: text_of(tags.genre),
        album: text_of(tags.album),
        album_art: album_art,
        duration: duration,
    }
}

fn find_slash(s: &str, from: usize) -> (r: usize)
    requires
        from <= s@.len(),
    ensures
        r == slash_at(s@, from as int),
        from <= r <= s@.len(),
{
    let n = s.unicode_len();
    let mut i = from;
    while i < n
        invariant
            from <= i <= n,
            n == s@.len(),
            slash_at(s@, from as int) == slash_at(s@, i as int),
        decreases n - i,
    {
        if s.get_char(i) == '/' {
            return i;
        }
        i += 1;
    }
    i
}

/// The subtype of a media type.
pub fn mime_subtype(mime: &str) -> (r: String)
    ensures
        r@ == mime_subtype_text(mime@),
{
    let n = mime.unicode_len();
    let first = find_slash(mime, 0);
    if first >= n {
        String::from_str("jpeg")
    } else {
        let second = find_slash(mime, first + 1);
        String::from_str(mime.substring_char(first + 1, second))
    }
}

/// The subtype for a picture format.
pub fn cover_subtype(format: CoverFormat) -> (r: &'static str)
    ensures
        r@ == cover_subtype_text(format),
{
    match format {
        CoverFormat::Jpeg => "jpeg",
        CoverFormat::Png => "png",
        CoverFormat::Tiff => "tiff",
        CoverFormat::Bmp => "bmp",
        CoverFormat::Gif => "gif",
    }
}

/// A picture as a data URI, or `None` for a picture too large to encode.
pub fn data_uri(subtype: &str, data: &Vec<u8>) -> (r: Option<String>)
    ensures
        r is Some <==> can_encode(data@),
        r is Some ==> r.unwrap()@ == data_uri_text(subtype@, data@),
{
    if data.len() <= usize::MAX / 2 {
        let payload = base64_encode(data.as_slice());
        Some(
            String::from_str("data:image/").concat(subtype).concat(";base64,").concat(
                payload.as_str(),
            ),
        )
    } else {
        None
    }
}

/// The album art in the general reader's cover, if it found one.
pub fn album_art_from_cover(cover: &Option<CoverImage>) -> (r: Option<String>)
    ensures
        text_of(r) == cover_art_text(*cover),
{
    match cover {
        Some(c) => data_uri(cover_subtype(c.format), &c.data),
        None => None,
    }
}

/// Why a list of pictures gives no album art.
pub open spec fn no_art_text(pictures: Seq<EmbeddedPicture>) -> Seq<char> {
    if pictures.len() == 0 {
        "No album art found with id3"@
    } else {
        "Album art too large"@
    }
}

/// The album art in the format-specific reader's pictures: the first of
/// them, or an extraction error that says why there is none.
pub fn album_art_from_pictures(pictures: &Vec<EmbeddedPicture>) -> (r: Result<String, MusicError>)
    ensures
        r is Ok <==> picture_art_text(pictures@) is Some,
        r is Ok ==> Some(r.unwrap()@) == picture_art_text(pictures@),
        r is Err ==> r.unwrap_err() is Extraction && r.unwrap_err()->Extraction_0@ == no_art_text(
            pictures@,
        ),
{
    if pictures.len() > 0 {
        let subtype = mime_subtype(pictures[0].mime_type.as_str());
        match data_uri(subtype.as_str(), &pictures[0].data) {
            Some(uri) => Ok(uri),
            None => Err(MusicError::Extraction(String::from_str("Album art too large"))),
        }
    } else {
        Err(MusicError::Extraction(String::from_str("No album art found with id3")))
    }
}

/// The title for a track.
pub fn resolve_title(title: Option<String>, stem: &Option<String>) -> (r: String)
    ensures
        r@ == title_text(title, *stem),
{
    match title {
        Some(t) => t,
        None => match stem {
            Some(s) => s.clone(),
            None => String::from_str("Unknown Title"),
        },
    }
}

/// The artist for a track.
pub fn resolve_artist(artist: Option<String>) -> (r: String)
    ensures
        r@ == artist_text(artist),
{
    match artist {
        Some(a) => a,
        None => String::from_str("Unknown Artist"),
    }
}

/// Resolves what the general reader found. `stem` is the file's base name
/// without its extension, where it has one.
pub fn extract_with_general(tags: GeneralTags, stem: &Option<String>) -> (r: Extracted)
    ensures
        r@ == general_view(tags, *stem),
{
    let album_art = album_art_from_cover(&tags.cover);
    Extracted {
        title: resolve_title(tags.title, stem),
        artist: resolve_artist(tags.artist),
        genre: tags.genre,
        album: tags.album,
        album_art: album_art,
        duration: tags.duration,
    }
}

/// Resolves what the format-specific reader found, with the album art and
/// the playing time that were looked up beside it.
pub fn extract_with_specific(
    tags: SpecificTags,
    stem: &Option<String>,
    album_art: Option<String>,
    duration: Option<u64>,
) -> (r: Extracted)
    ensures
        r@ == specific_view(tags, *stem, text_of(album_art), duration),
{
    Extracted {
        title: resolve_title(tags.title, stem),
        artist: resolve_artist(tags.artist),
        genre: tags.genre,
        album: tags.album,
        album_art: album_art,
        duration: duration,
    }
}

} // verus!
