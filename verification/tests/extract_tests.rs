use music_catalog::error::MusicError;
use music_catalog::extract::{
    album_art_from_cover, album_art_from_pictures, cover_subtype, data_uri, extract_with_general,
    extract_with_specific, mime_subtype, resolve_artist, resolve_title, CoverFormat, CoverImage,
    EmbeddedPicture, Extracted, GeneralTags, SpecificTags,
};

#[test]
fn subtype_is_what_follows_the_first_slash() {
    assert_eq!(mime_subtype("image/png"), "png");
    assert_eq!(mime_subtype("image/jpeg"), "jpeg");
    assert_eq!(mime_subtype("a/b/c"), "b");
    assert_eq!(mime_subtype("image/"), "");
    assert_eq!(mime_subtype("/gif"), "gif");
    assert_eq!(mime_subtype("/"), "");
    assert_eq!(mime_subtype("bild/späße/x"), "späße");
}

#[test]
fn subtype_without_a_slash_is_jpeg() {
    assert_eq!(mime_subtype("png"), "jpeg");
    assert_eq!(mime_subtype(""), "jpeg");
}

#[test]
fn subtype_of_each_cover_format() {
    assert_eq!(cover_subtype(CoverFormat::Jpeg), "jpeg");
    assert_eq!(cover_subtype(CoverFormat::Png), "png");
    assert_eq!(cover_subtype(CoverFormat::Tiff), "tiff");
    assert_eq!(cover_subtype(CoverFormat::Bmp), "bmp");
    assert_eq!(cover_subtype(CoverFormat::Gif), "gif");
}

#[test]
fn data_uri_holds_the_bytes_in_base64() {
    assert_eq!(
        data_uri("png", &b"hello".to_vec()),
        Some("data:image/png;base64,aGVsbG8=".to_string())
    );
    assert_eq!(data_uri("jpeg", &vec![0xff, 0xd8, 0xff]), Some("data:image/jpeg;base64,/9j/".to_string()));
    assert_eq!(data_uri("gif", &Vec::new()), Some("data:image/gif;base64,".to_string()));
    assert_eq!(data_uri("bmp", &vec![0xfb, 0xef]), Some("data:image/bmp;base64,++8=".to_string()));
}

#[test]
fn album_art_from_a_cover() {
    let cover = Some(CoverImage { format: CoverFormat::Tiff, data: b"Man".to_vec() });
    assert_eq!(album_art_from_cover(&cover), Some("data:image/tiff;base64,TWFu".to_string()));
    assert_eq!(album_art_from_cover(&None), None);
}

#[test]
fn album_art_is_the_first_picture() {
    let pictures = vec![
        EmbeddedPicture { mime_type: "image/png".to_string(), data: b"Ma".to_vec() },
        EmbeddedPicture { mime_type: "image/gif".to_string(), data: b"other".to_vec() },
    ];
    assert_eq!(album_art_from_pictures(&pictures), Ok("data:image/png;base64,TWE=".to_string()));
}

#[test]
fn album_art_of_a_picture_without_subtype_is_jpeg() {
    let pictures = vec![EmbeddedPicture { mime_type: "PNG".to_string(), data: b"M".to_vec() }];
    assert_eq!(album_art_from_pictures(&pictures), Ok("data:image/jpeg;base64,TQ==".to_string()));
}

#[test]
fn no_picture_is_an_extraction_error() {
    let got = album_art_from_pictures(&Vec::new());
    assert_eq!(got, Err(MusicError::Extraction("No album art found with id3".to_string())));
}

#[test]
fn title_falls_back_to_stem_then_placeholder() {
    let stem = Some("song".to_string());
    assert_eq!(resolve_title(Some("Test Song".to_string()), &stem), "Test Song");
    assert_eq!(resolve_title(None, &stem), "song");
    assert_eq!(resolve_title(None, &None), "Unknown Title");
}

#[test]
fn artist_falls_back_to_placeholder() {
    assert_eq!(resolve_artist(Some("Test Artist".to_string())), "Test Artist");
    assert_eq!(resolve_artist(None), "Unknown Artist");
}

#[test]
fn general_tags_resolve_field_by_field() {
    let tags = GeneralTags {
        title: Some("Test Song".to_string()),
        artist: None,
        genre: Some("Jazz".to_string()),
        album: Some("Album".to_string()),
        cover: Some(CoverImage { format: CoverFormat::Png, data: b"hello".to_vec() }),
        duration: Some(42),
    };
    let got = extract_with_general(tags, &Some("song".to_string()));
    assert_eq!(
        got,
        Extracted {
            title: "Test Song".to_string(),
            artist: "Unknown Artist".to_string(),
            genre: Some("Jazz".to_string()),
            album: Some("Album".to_string()),
            album_art: Some("data:image/png;base64,aGVsbG8=".to_string()),
            duration: Some(42),
        }
    );
}

#[test]
fn specific_tags_resolve_field_by_field() {
    let tags = SpecificTags {
        title: None,
        artist: Some("Someone".to_string()),
        genre: None,
        album: Some("Album".to_string()),
    };
    let got = extract_with_specific(
        tags,
        &Some("track01".to_string()),
        Some("data:image/png;base64,TWFu".to_string()),
        Some(7),
    );
    assert_eq!(
        got,
        Extracted {
            title: "track01".to_string(),
            artist: "Someone".to_string(),
            genre: None,
            album: Some("Album".to_string()),
            album_art: Some("data:image/png;base64,TWFu".to_string()),
            duration: Some(7),
        }
    );
}
