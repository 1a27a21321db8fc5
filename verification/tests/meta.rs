use ncm_unbox::meta::{
    album_image_mime_type, artist_list, combine_file, join_names, joined_artist_names,
    output_file_name, ArtistField, Meta, MimeType,
};
use ncm_unbox::paths::{pre_opt, PathError, PathFacts};

const PNG: [u8; 8] = [0x89, 0x50, 0x4E, 0x47, 0x0D, 0x0A, 0x1A, 0x0A];

fn pair(name: &str, id: i64) -> Vec<ArtistField> {
    vec![ArtistField::Text(name.to_string()), ArtistField::Number(id)]
}

fn record(artist: Vec<Vec<ArtistField>>) -> Meta {
    Meta {
        format: "mp3".to_string(),
        music_name: "Song".to_string(),
        artist,
        album: "Album".to_string(),
        bitrate: None,
        trans_names: None,
        album_pic: None,
    }
}

#[test]
fn mime_exact_signature_is_png() {
    assert_eq!(album_image_mime_type(&PNG.to_vec()), MimeType::Png);
}

#[test]
fn mime_seven_bytes_is_jpeg() {
    assert_eq!(album_image_mime_type(&PNG[..7].to_vec()), MimeType::Jpeg);
    assert_eq!(album_image_mime_type(&vec![0u8; 7]), MimeType::Jpeg);
    assert_eq!(album_image_mime_type(&Vec::new()), MimeType::Jpeg);
}

#[test]
fn mime_last_byte_differs_is_jpeg() {
    let mut image = PNG.to_vec();
    image[7] = 0x0B;
    assert_eq!(album_image_mime_type(&image), MimeType::Jpeg);
}

#[test]
fn mime_longer_images() {
    let mut png = PNG.to_vec();
    png.extend_from_slice(&[1, 2, 3, 4]);
    assert_eq!(album_image_mime_type(&png), MimeType::Png);
    let jpeg = vec![0xFF, 0xD8, 0xFF, 0xE0, 0, 0x10, 0x4A, 0x46, 0x49, 0x46];
    assert_eq!(album_image_mime_type(&jpeg), MimeType::Jpeg);
    let mut first_differs = png.clone();
    first_differs[0] = 0x88;
    assert_eq!(album_image_mime_type(&first_differs), MimeType::Jpeg);
}

#[test]
fn mime_names() {
    assert_eq!(MimeType::Png.name(), "image/png");
    assert_eq!(MimeType::Jpeg.name(), "image/jpeg");
}

#[test]
fn artist_join_two_names() {
    let meta = record(vec![pair("A", 1), pair("B", 2)]);
    assert_eq!(joined_artist_names(&meta), "A,B");
}

#[test]
fn artist_join_skips_non_string() {
    let meta = record(vec![vec![ArtistField::Number(42), ArtistField::Number(1)]]);
    assert_eq!(joined_artist_names(&meta), "");
    assert_eq!(artist_list(&meta.artist), Vec::<String>::new());
}

#[test]
fn artist_join_mixed_pairs() {
    let artist = vec![
        pair("First", 1),
        vec![],
        vec![ArtistField::Other, ArtistField::Text("hidden".to_string())],
        vec![ArtistField::Text("Second".to_string())],
        vec![ArtistField::Number(7)],
        pair("Third", 3),
    ];
    assert_eq!(artist_list(&artist), vec!["First", "Second", "Third"]);
    assert_eq!(joined_artist_names(&record(artist)), "First,Second,Third");
}

#[test]
fn join_names_cases() {
    assert_eq!(join_names(&vec![]), "");
    assert_eq!(join_names(&vec!["solo".to_string()]), "solo");
    assert_eq!(join_names(&vec!["".to_string(), "".to_string()]), ",");
    assert_eq!(
        join_names(&vec!["a".to_string(), "b".to_string(), "c".to_string()]),
        "a,b,c"
    );
}

#[test]
fn output_file_name_cases() {
    assert_eq!(output_file_name(&record(vec![pair("Artist", 1)])), "Song - Artist.mp3");
    assert_eq!(output_file_name(&record(vec![pair("A", 1), pair("B", 2)])), "Song - A,B.mp3");
    assert_eq!(output_file_name(&record(vec![])), "Song - .mp3");
    let mut flac = record(vec![pair("X", 9)]);
    flac.format = "flac".to_string();
    flac.music_name = "Other Title".to_string();
    assert_eq!(output_file_name(&flac), "Other Title - X.flac");
}

#[test]
fn tag_values_follow_record() {
    let meta = record(vec![pair("Artist", 1), vec![ArtistField::Number(2)], pair("Guest", 3)]);
    let tags = combine_file(&meta, &PNG.to_vec());
    assert_eq!(tags.title, "Song");
    assert_eq!(tags.album, "Album");
    assert_eq!(tags.artists, vec!["Artist", "Guest"]);
    assert_eq!(tags.cover_mime, MimeType::Png);
    let tags = combine_file(&meta, &vec![1, 2, 3]);
    assert_eq!(tags.cover_mime, MimeType::Jpeg);
}

#[test]
fn paths_verdicts() {
    let facts = |input_exists, input_is_dir, output_exists, output_is_file| PathFacts {
        input_exists,
        input_is_dir,
        output_exists,
        output_is_file,
    };
    assert_eq!(pre_opt(facts(false, false, true, false)), Err(PathError::InputMissing));
    assert_eq!(pre_opt(facts(false, true, true, true)), Err(PathError::InputMissing));
    assert_eq!(pre_opt(facts(true, true, true, false)), Err(PathError::InputIsDirectory));
    assert_eq!(pre_opt(facts(true, true, true, true)), Err(PathError::InputIsDirectory));
    assert_eq!(pre_opt(facts(true, false, true, true)), Err(PathError::OutputIsFile));
    assert_eq!(pre_opt(facts(true, false, true, false)), Ok(false));
    assert_eq!(pre_opt(facts(true, false, false, false)), Ok(true));
    assert_eq!(pre_opt(facts(true, false, false, true)), Ok(true));
}
