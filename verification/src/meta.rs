//! The metadata record of a container, and what is derived from it: the
//! artist names, the name of the output file, and the values for the tags.

use vstd::prelude::*;
use vstd::string::StringExecFns;
use crate::constants::{PNG_SIGNATURE, PNG_SIGNATURE_LEN};

verus! {

/// One element of an artist pair, as far as the decoder reads it.
#[derive(Debug)]
pub enum ArtistField {
    /// A string: as first element of a pair, the artist's name.
    Text(String),
    /// An integer: the artist's id.
    Number(i64),
    /// Anything else.
    Other,
}

/// The metadata record. `bitrate`, `trans_names` and `album_pic` may be
/// absent and are not used.
#[derive(Debug)]
pub struct Meta {
    pub format: String,
    pub music_name: String,
    pub artist: Vec<Vec<ArtistField>>,
    pub album: String,
    pub bitrate: Option<i64>,
    pub trans_names: Option<Vec<String>>,
    pub album_pic: Option<String>,
}

/// The kind of the cover image.
#[derive(Clone, Copy, Debug, PartialEq, Eq, Structural)]
pub enum MimeType {
    Png,
    Jpeg,
}

/// The values that go into the tags of the decoded file.
#[derive(Debug)]
pub struct TagValues {
    pub title: String,
    pub album: String,
    pub artists: Vec<String>,
    pub cover_mime: MimeType,
}

/// The name that an artist pair gives: its first element, if that is a
/// string.
pub open spec fn pair_name(pair: Seq<ArtistField>) -> Option<Seq<char>> {
    if pair.len() == 0 {
        None
    } else {
        match pair[0] {
            ArtistField::Text(name) => Some(name@),
            _ => None,
        }
    }
}

/// The names that a list of artist pairs gives, in order; a pair without a
/// name contributes nothing.
pub open spec fn artist_names(artist: Seq<Vec<ArtistField>>) -> Seq<Seq<char>>
    decreases artist.len(),
{
    if artist.len() == 0 {
        Seq::empty()
    } else {
        let before = artist_names(artist.drop_last());
        match pair_name(artist.last()@) {
            Some(name) => before.push(name),
            None => before,
        }
    }
}

/// `names` with a comma between each two neighbours.
pub open spec fn comma_joined(names: Seq<Seq<char>>) -> Seq<char>
    decreases names.len(),
{
    if names.len() == 0 {
        Seq::empty()
    } else if names.len() == 1 {
        names[0]
    } else {
        comma_joined(names.drop_last()) + seq![','] + names.last()
    }
}

/// The texts of a list of strings.
pub open spec fn texts(names: Seq<String>) -> Seq<Seq<char>> {
    Seq::new(names.len(), |i: int| names[i]@)
}

/// The output file's name: title, artists and format.
pub open spec fn file_name_of(music_name: Seq<char>, artists: Seq<char>, format: Seq<char>) -> Seq<char> {
    music_name + seq![' ', '-', ' '] + artists + seq!['.'] + format
}

/// The image starts with the PNG signature.
pub open spec fn starts_with_png_signature(image: Seq<u8>) -> bool {
    image.len() >= PNG_SIGNATURE_LEN && image.take(PNG_SIGNATURE_LEN as int) == PNG_SIGNATURE@
}

/// The kind of a cover image: PNG where it starts with the PNG signature,
/// JPEG in every other case.
pub open spec fn sniffed_mime(image: Seq<u8>) -> MimeType {
    if starts_with_png_signature(image) {
        MimeType::Png
    } else {
        MimeType::Jpeg
    }
}

impl MimeType {
    /// The MIME type's name.
    pub fn name(&self) -> (text: &'static str)
        ensures
            text@ == (match *self {
                MimeType::Png => "image/png"@,
                MimeType::Jpeg => "image/jpeg"@,
            }),
    {
        match self {
            MimeType::Png => "image/png",
            MimeType::Jpeg => "image/jpeg",
        }
    }
}

/// The artists' names, one for each pair whose first element is a string.
pub fn artist_list(artist: &Vec<Vec<ArtistField>>) -> (names: Vec<String>)
    ensures
        texts(names@) == artist_names(artist@),
{
    let mut names: Vec<String> = Vec::new();
    let mut i: usize = 0;
    while i < artist.len()
        invariant
            i <= artist@.len(),
            texts(names@) == artist_names(artist@.take(i as int)),
        decreases artist@.len() - i,
    {
        let pair = &artist[i];
        assert(artist@.take(i + 1).drop_last() =~= artist@.take(i as int));
        if pair.len() > 0 {
            match &pair[0] {
                ArtistField::Text(name) => {
                    names.push(name.clone());
                },
                _ => {},
            }
        }
        i += 1;
    }
    assert(artist@.take(artist@.len() as int) =~= artist@);
    names
}

/// Joins names with commas; no names give the empty string.
pub fn join_names(names: &Vec<String>) -> (joined: String)
    ensures
        joined@ == comma_joined(texts(names@)),
{
    let mut joined = String::new();
    let mut i: usize = 0;
    proof {
        reveal_strlit(",");
    }
    while i < names.len()
        invariant
            i <= names@.len(),
            ","@ == seq![','],
            joined@ == comma_joined(texts(names@).take(i as int)),
        decreases names@.len() - i,
    {
        let ghost all = texts(names@);
        assert(all.take(i + 1).drop_last() =~= all.take(i as int));
        if i > 0 {
            joined.append(",");
        }
        joined.append(names[i].as_str());
        i += 1;
    }
    assert(texts(names@).take(names@.len() as int) =~= texts(names@));
    joined
}

/// The artists' names of a record, joined with commas.
pub fn joined_artist_names(meta: &Meta) -> (joined: String)
    ensures
        joined@ == comma_joined(artist_names(meta.artist@)),
{
    let names = artist_list(&meta.artist);
    join_names(&names)
}

/// The name of the output file: `<title> - <artists>.<format>`.
pub fn output_file_name(meta: &Meta) -> (name: String)
    ensures
        name@ == file_name_of(
            meta.music_name@,
            comma_joined(artist_names(meta.artist@)),
            meta.format@,
        ),
{
    let artists = joined_artist_names(meta);
    proof {
        reveal_strlit(" - ");
        reveal_strlit(".");
    }
    let mut name = meta.music_name.clone();
    name.append(" - ");
    name.append(artists.as_str());
    name.append(".");
    name.append(meta.format.as_str());
    name
}

/// Tells a PNG cover from any other by the signature at its start: an image
/// that starts with it is PNG, every other image is taken for JPEG, one
/// shorter than the signature too.
pub fn album_image_mime_type(album_image: &Vec<u8>) -> (mime: MimeType)
    ensures
        mime == sniffed_mime(album_image@),
{
    if album_image.len() < PNG_SIGNATURE_LEN {
        return MimeType::Jpeg;
    }
    let png: [u8; 8] = PNG_SIGNATURE;
    let ghost start = album_image@.take(PNG_SIGNATURE_LEN as int);
    let mut i: usize = 0;
    while i < PNG_SIGNATURE_LEN
        invariant
            i <= PNG_SIGNATURE_LEN,
            album_image@.len() >= PNG_SIGNATURE_LEN,
            png == PNG_SIGNATURE,
            start == album_image@.take(PNG_SIGNATURE_LEN as int),
            forall|m: int| 0 <= m < i ==> start[m] == png@[m],
        decreases PNG_SIGNATURE_LEN - i,
    {
        if album_image[i] != png[i] {
            assert(start[i as int] != PNG_SIGNATURE@[i as int]);
            return MimeType::Jpeg;
        }
        i += 1;
    }
    assert(start =~= PNG_SIGNATURE@);
    MimeType::Png
}

/// The values for the tags of the decoded file: title, album, one artist for
/// each pair that names one, and the kind of the cover image.
pub fn combine_file(meta: &Meta, image_data: &Vec<u8>) -> (tags: TagValues)
    ensures
        tags.title@ == meta.music_name@,
        tags.album@ == meta.album@,
        texts(tags.artists@) == artist_names(meta.artist@),
        tags.cover_mime == sniffed_mime(image_data@),
{
    TagValues {
        title: meta.music_name.clone(),
        album: meta.album.clone(),
        artists: artist_list(&meta.artist),
        cover_mime: album_image_mime_type(image_data),
    }
}

} // verus!
