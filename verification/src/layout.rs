//! The local library layout: album directory names, per-track file
//! names, cover file names, temporary-file names, and the tag fields
//! applied to a downloaded track.

use vstd::prelude::*;
use vstd::string::*;
use crate::models::Album;
use crate::models::AlbumData;
use crate::models::Song;
use crate::models::SongData;
use crate::models::clone_opt_string;
use crate::text::spec_padded_dec;
use crate::text::spec_join_comma;
use crate::text::spec_extension_of_path;
use crate::text::padded_dec_string;
use crate::text::join_comma;
use crate::text::extension_of_path;
use crate::utils::spec_get_file_extension;
use crate::utils::get_file_extension;
use crate::utils::sanitize_spec;

verus! {

/// Compares two string slices by their characters.
pub fn str_eq(a: &str, b: &str) -> (r: bool)
    ensures
        r == (a@ == b@),
{
    let x = a.to_owned();
    let y = b.to_owned();
    x == y
}

/// An album directory is named `NNN - <sanitized name>`: the ordinal
/// zero-padded to three digits, a dash, and the directory-safe album
/// name.
pub open spec fn spec_album_dir_name(ordinal: nat, a: AlbumData) -> Seq<char> {
    spec_padded_dec(ordinal, 3) + " - "@ + a.dir_safe_name()
}

/// The name of the album's directory under the library root.
pub fn album_dir_name(ordinal: u64, album: &Album) -> (r: String)
    ensures
        r@ == spec_album_dir_name(ordinal as nat, album@),
{
    let mut s = padded_dec_string(ordinal, 3);
    s.append(" - ");
    let n = album.sanitized_name();
    s.append(n.as_str());
    s
}

/// The extension a downloaded audio file gets: the one named by its
/// URL, or `.mp3` when the URL names none.
pub open spec fn spec_audio_ext(url: Seq<char>) -> Seq<char> {
    match spec_get_file_extension(url) {
        Some(e) => e,
        None => ".mp3"@,
    }
}

/// The extension a downloaded cover file gets: the one named by its
/// URL, or `.jpg` when the URL names none.
pub open spec fn spec_cover_ext(url: Seq<char>) -> Seq<char> {
    match spec_get_file_extension(url) {
        Some(e) => e,
        None => ".jpg"@,
    }
}

/// An audio file is named `NN.<sanitized song name><ext>`, the track
/// number zero-padded to two digits.
pub open spec fn spec_audio_filename(n: nat, name: Seq<char>, url: Seq<char>) -> Seq<char> {
    spec_padded_dec(n, 2) + "."@ + sanitize_spec(name) + spec_audio_ext(url)
}

/// A lyric file is named `NN.<sanitized song name>.lrc`.
pub open spec fn spec_lyric_filename(n: nat, name: Seq<char>) -> Seq<char> {
    spec_padded_dec(n, 2) + "."@ + sanitize_spec(name) + ".lrc"@
}

/// The name of the audio file of `song` at valid-track position
/// `track_no`, downloaded from `url`.
pub fn audio_filename(track_no: u64, song: &Song, url: &str) -> (r: String)
    ensures
        r@ == spec_audio_filename(track_no as nat, song@.name, url@),
{
    let mut s = padded_dec_string(track_no, 2);
    s.append(".");
    let n = song.sanitized_name();
    s.append(n.as_str());
    match get_file_extension(url) {
        Some(e) => s.append(e.as_str()),
        None => s.append(".mp3"),
    }
    s
}

/// The name of the lyric file of `song` at valid-track position
/// `track_no`.
pub fn lyric_filename(track_no: u64, song: &Song) -> (r: String)
    ensures
        r@ == spec_lyric_filename(track_no as nat, song@.name),
{
    let mut s = padded_dec_string(track_no, 2);
    s.append(".");
    let n = song.sanitized_name();
    s.append(n.as_str());
    s.append(".lrc");
    s
}

/// The primary cover file is named `Album Cover<ext>`.
pub open spec fn spec_cover_filename(url: Seq<char>) -> Seq<char> {
    "Album Cover"@ + spec_cover_ext(url)
}

/// The alternate (detail) cover file is named `Cover<ext>`.
pub open spec fn spec_detail_cover_filename(url: Seq<char>) -> Seq<char> {
    "Cover"@ + spec_cover_ext(url)
}

/// The name of the primary cover file downloaded from `url`.
pub fn cover_filename(url: &str) -> (r: String)
    ensures
        r@ == spec_cover_filename(url@),
{
    let mut s = String::new();
    s.append("Album Cover");
    match get_file_extension(url) {
        Some(e) => s.append(e.as_str()),
        None => s.append(".jpg"),
    }
    s
}

/// The name of the alternate cover file downloaded from `url`.
pub fn detail_cover_filename(url: &str) -> (r: String)
    ensures
        r@ == spec_detail_cover_filename(url@),
{
    let mut s = String::new();
    s.append("Cover");
    match get_file_extension(url) {
        Some(e) => s.append(e.as_str()),
        None => s.append(".jpg"),
    }
    s
}

/// A download in progress is staged under the target's name with a
/// `.tmp` suffix appended; the finished file is renamed over the
/// target only once complete.
pub fn temp_name(filename: &str) -> (r: String)
    ensures
        r@ == filename@ + ".tmp"@,
{
    let mut s = filename.to_owned();
    s.append(".tmp");
    s
}

/// The genre label an album's `belong` category maps to: the one
/// recognised category gets its display label, every other category
/// the generic one.
pub open spec fn spec_genre_label(belong: Seq<char>) -> Seq<char> {
    if belong == "arknights"@ {
        "Arknights"@
    } else {
        "Unknown Genre"@
    }
}

/// The genre label for an album's `belong` category.
pub fn genre_label(belong: &str) -> (r: String)
    ensures
        r@ == spec_genre_label(belong@),
{
    if str_eq(belong, "arknights") {
        let mut s = String::new();
        s.append("Arknights");
        s
    } else {
        let mut s = String::new();
        s.append("Unknown Genre");
        s
    }
}

/// The image formats embedded cover art may declare.
#[derive(Clone, Copy, Debug, PartialEq, Eq, Structural)]
pub enum MimeKind {
    Jpeg,
    Png,
    Gif,
    Bmp,
}

/// The MIME kind inferred from an image file's extension; anything
/// unrecognised defaults to JPEG.
pub open spec fn spec_mime_of_path(path: Seq<char>) -> MimeKind {
    match spec_extension_of_path(path) {
        Some(e) => if e == "jpg"@ || e == "jpeg"@ {
            MimeKind::Jpeg
        } else if e == "png"@ {
            MimeKind::Png
        } else if e == "gif"@ {
            MimeKind::Gif
        } else if e == "bmp"@ {
            MimeKind::Bmp
        } else {
            MimeKind::Jpeg
        },
        None => MimeKind::Jpeg,
    }
}

/// Infers the MIME kind of an image file from its extension.
pub fn image_mime_kind(path: &str) -> (r: MimeKind)
    ensures
        r == spec_mime_of_path(path@),
{
    match extension_of_path(path) {
        Some(e) => {
            if str_eq(e.as_str(), "jpg") || str_eq(e.as_str(), "jpeg") {
                MimeKind::Jpeg
            } else if str_eq(e.as_str(), "png") {
                MimeKind::Png
            } else if str_eq(e.as_str(), "gif") {
                MimeKind::Gif
            } else if str_eq(e.as_str(), "bmp") {
                MimeKind::Bmp
            } else {
                MimeKind::Jpeg
            }
        },
        None => MimeKind::Jpeg,
    }
}

/// Cover art to embed: the image file and its declared MIME kind.
pub struct CoverArt {
    pub path: String,
    pub mime: MimeKind,
}

/// Every tag field applied to a downloaded track.
pub struct TagData {
    pub title: String,
    pub album: String,
    pub artist: Option<String>,
    pub track_number: u32,
    pub total_tracks: u32,
    pub comment: Option<String>,
    pub genre: Option<String>,
    pub cover: Option<CoverArt>,
}

/// Computes the tag fields for one track: title from the song, album
/// and comment from the album, the comma-joined artist line when the
/// song has artists, track N of M, the genre label when the album has
/// a category, and the cover art with its inferred MIME kind when a
/// cover file is at hand.
pub fn build_tag_data(
    song: &Song,
    album: &Album,
    track_number: u32,
    total_tracks: u32,
    cover_path: Option<&String>,
) -> (r: TagData)
    ensures
        r.title@ == song@.name,
        r.album@ == album@.name,
        song@.artist_list().len() > 0 ==> (r.artist matches Some(a) && a@ == spec_join_comma(
            song@.artist_list(),
        )),
        song@.artist_list().len() == 0 ==> r.artist is None,
        r.track_number == track_number,
        r.total_tracks == total_tracks,
        r.comment.deep_view() == album@.intro,
        match album@.belong {
            Some(b) => r.genre matches Some(g) && g@ == spec_genre_label(b),
            None => r.genre is None,
        },
        match cover_path {
            Some(p) => r.cover matches Some(c) && c.path@ == p@ && c.mime == spec_mime_of_path(
                p@,
            ),
            None => r.cover is None,
        },
{
    let artists = song.get_artists();
    let artist = if artists.len() > 0 {
        Some(join_comma(&artists))
    } else {
        None
    };
    let genre = match &album.belong {
        Some(b) => Some(genre_label(b.as_str())),
        None => None,
    };
    let cover = match cover_path {
        Some(p) => Some(CoverArt { path: p.clone(), mime: image_mime_kind(p.as_str()) }),
        None => None,
    };
    TagData {
        title: song.name.clone(),
        album: album.name.clone(),
        artist,
        track_number,
        total_tracks,
        comment: clone_opt_string(&album.intro),
        genre,
        cover,
    }
}

} // verus!
