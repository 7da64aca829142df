//! The catalog data model: songs, albums, and the response envelopes
//! the remote catalog wraps them in, together with the fallback rules
//! (artist-list selection, summary-artist merge) and the envelope
//! decoding logic.

use vstd::prelude::*;
use vstd::string::*;
use crate::error::Error;
use crate::text::spec_replace_dot_suffix;
use crate::utils::sanitize_filename;
use crate::utils::sanitize_spec;
use crate::utils::spec_sanitary;
use crate::utils::lemma_replace_dot_suffix_sanitary;
use crate::utils::replace_dot_suffix;

verus! {

/// Spec-level image of a song record.
pub ghost struct SongData {
    pub cid: Seq<char>,
    pub name: Seq<char>,
    pub album_cid: Option<Seq<char>>,
    pub source_url: Option<Seq<char>>,
    pub lyric_url: Option<Seq<char>>,
    pub mv_url: Option<Seq<char>>,
    pub mv_cover_url: Option<Seq<char>>,
    pub artists: Option<Seq<Seq<char>>>,
    pub artistes: Option<Seq<Seq<char>>>,
}

impl SongData {
    /// A song is valid exactly when its identifier is non-empty.
    pub open spec fn valid(self) -> bool {
        self.cid.len() > 0
    }

    /// The song's artist list: of the two near-duplicate fields the
    /// first non-empty one wins; with neither, the list is empty.
    pub open spec fn artist_list(self) -> Seq<Seq<char>> {
        if self.artists matches Some(a) && a.len() > 0 {
            self.artists->0
        } else if self.artistes matches Some(a) && a.len() > 0 {
            self.artistes->0
        } else {
            Seq::empty()
        }
    }
}

/// One song of the catalog.
pub struct Song {
    pub cid: String,
    pub name: String,
    pub album_cid: Option<String>,
    pub source_url: Option<String>,
    pub lyric_url: Option<String>,
    pub mv_url: Option<String>,
    pub mv_cover_url: Option<String>,
    pub artists: Option<Vec<String>>,
    pub artistes: Option<Vec<String>>,
}

impl View for Song {
    type V = SongData;

    open spec fn view(&self) -> SongData {
        SongData {
            cid: self.cid@,
            name: self.name@,
            album_cid: self.album_cid.deep_view(),
            source_url: self.source_url.deep_view(),
            lyric_url: self.lyric_url.deep_view(),
            mv_url: self.mv_url.deep_view(),
            mv_cover_url: self.mv_cover_url.deep_view(),
            artists: self.artists.deep_view(),
            artistes: self.artistes.deep_view(),
        }
    }
}

impl DeepView for Song {
    type V = SongData;

    open spec fn deep_view(&self) -> SongData {
        self@
    }
}

/// Clones a string vector, keeping its contents.
pub fn clone_string_vec(v: &Vec<String>) -> (r: Vec<String>)
    ensures
        r.deep_view() == v.deep_view(),
{
    let mut r: Vec<String> = Vec::new();
    let mut i: usize = 0;
    while i < v.len()
        invariant
            i <= v.len(),
            r@.len() == i,
            forall|j: int| 0 <= j < i ==> r@[j]@ == v@[j]@,
        decreases v.len() - i,
    {
        r.push(v[i].clone());
        i = i + 1;
    }
    proof {
        assert(r.deep_view() =~= v.deep_view());
    }
    r
}

/// Clones an optional string, keeping its contents.
pub fn clone_opt_string(v: &Option<String>) -> (r: Option<String>)
    ensures
        r.deep_view() == v.deep_view(),
{
    match v {
        Some(s) => Some(s.clone()),
        None => None,
    }
}

/// Clones an optional string vector, keeping its contents.
pub fn clone_opt_string_vec(v: &Option<Vec<String>>) -> (r: Option<Vec<String>>)
    ensures
        r.deep_view() == v.deep_view(),
{
    match v {
        Some(s) => Some(clone_string_vec(s)),
        None => None,
    }
}

impl Clone for Song {
    /// The clone carries the same record.
    fn clone(&self) -> (r: Self)
        ensures
            r@ == self@,
    {
        let r = Song {
            cid: self.cid.clone(),
            name: self.name.clone(),
            album_cid: clone_opt_string(&self.album_cid),
            source_url: clone_opt_string(&self.source_url),
            lyric_url: clone_opt_string(&self.lyric_url),
            mv_url: clone_opt_string(&self.mv_url),
            mv_cover_url: clone_opt_string(&self.mv_cover_url),
            artists: clone_opt_string_vec(&self.artists),
            artistes: clone_opt_string_vec(&self.artistes),
        };
        r
    }
}

impl Song {
    /// A song is valid exactly when its identifier is non-empty.
    pub fn is_valid(&self) -> (r: bool)
        ensures
            r == self@.valid(),
    {
        !self.cid.as_str().is_empty()
    }

    /// The song's name made safe for use as a filename: no character
    /// illegal in a file name, and at most 255 characters.
    pub fn sanitized_name(&self) -> (r: String)
        ensures
            r@ == sanitize_spec(self@.name),
            spec_sanitary(r@),
    {
        sanitize_filename(self.name.as_str())
    }

    /// The song's artist list, first non-empty field winning.
    pub fn get_artists(&self) -> (r: Vec<String>)
        ensures
            r.deep_view() == self@.artist_list(),
    {
        match &self.artists {
            Some(a) if a.len() > 0 => clone_string_vec(a),
            _ => match &self.artistes {
                Some(a) if a.len() > 0 => clone_string_vec(a),
                _ => Vec::new(),
            },
        }
    }
}

/// Spec-level image of an album record.
pub ghost struct AlbumData {
    pub cid: Seq<char>,
    pub name: Seq<char>,
    pub intro: Option<Seq<char>>,
    pub belong: Option<Seq<char>>,
    pub cover_url: Option<Seq<char>>,
    pub cover_de_url: Option<Seq<char>>,
    pub artistes: Option<Seq<Seq<char>>>,
    pub songs: Option<Seq<SongData>>,
}

impl AlbumData {
    /// An album is valid exactly when its identifier is non-empty.
    pub open spec fn valid(self) -> bool {
        self.cid.len() > 0
    }

    /// The album's artist list; empty when the field is absent.
    pub open spec fn artiste_list(self) -> Seq<Seq<char>> {
        match self.artistes {
            Some(a) => a,
            None => Seq::empty(),
        }
    }

    /// The album's song list; empty when the field is absent.
    pub open spec fn song_list(self) -> Seq<SongData> {
        match self.songs {
            Some(s) => s,
            None => Seq::empty(),
        }
    }

    /// The album's directory-safe name.
    pub open spec fn dir_safe_name(self) -> Seq<char> {
        spec_replace_dot_suffix(sanitize_spec(self.name))
    }

    /// The detail record completed from its summary: when the detail's
    /// artist list is absent or empty and the summary carries one, the
    /// summary's list is adopted; every other field keeps the detail's
    /// value.
    pub open spec fn merged_with_summary(self, summary: AlbumData) -> AlbumData {
        if (match self.artistes {
            Some(a) => a.len() == 0,
            None => true,
        }) && summary.artistes is Some {
            AlbumData { artistes: summary.artistes, ..self }
        } else {
            self
        }
    }
}

/// One album of the catalog; the summary and detail forms share this
/// shape, the summary merely leaving more fields absent.
pub struct Album {
    pub cid: String,
    pub name: String,
    pub intro: Option<String>,
    pub belong: Option<String>,
    pub cover_url: Option<String>,
    pub cover_de_url: Option<String>,
    pub artistes: Option<Vec<String>>,
    pub songs: Option<Vec<Song>>,
}

impl View for Album {
    type V = AlbumData;

    open spec fn view(&self) -> AlbumData {
        AlbumData {
            cid: self.cid@,
            name: self.name@,
            intro: self.intro.deep_view(),
            belong: self.belong.deep_view(),
            cover_url: self.cover_url.deep_view(),
            cover_de_url: self.cover_de_url.deep_view(),
            artistes: self.artistes.deep_view(),
            songs: self.songs.deep_view(),
        }
    }
}

impl DeepView for Album {
    type V = AlbumData;

    open spec fn deep_view(&self) -> AlbumData {
        self@
    }
}

/// Clones a song vector, keeping its contents.
pub fn clone_song_vec(v: &Vec<Song>) -> (r: Vec<Song>)
    ensures
        r.deep_view() == v.deep_view(),
{
    let mut r: Vec<Song> = Vec::new();
    let mut i: usize = 0;
    while i < v.len()
        invariant
            i <= v.len(),
            r@.len() == i,
            forall|j: int| 0 <= j < i ==> r@[j]@ == v@[j]@,
        decreases v.len() - i,
    {
        r.push(v[i].clone());
        i = i + 1;
    }
    proof {
        assert(r.deep_view() =~= v.deep_view());
    }
    r
}

impl Album {
    /// An album is valid exactly when its identifier is non-empty.
    pub fn is_valid(&self) -> (r: bool)
        ensures
            r == self@.valid(),
    {
        !self.cid.as_str().is_empty()
    }

    /// The album's name made safe for use as a directory name: the
    /// sanitized name, with a trailing run of dots replaced by an
    /// underscore. No character illegal in a file name survives, at
    /// most 255 characters remain, and the result never ends with a
    /// dot.
    pub fn sanitized_name(&self) -> (r: String)
        ensures
            r@ == self@.dir_safe_name(),
            spec_sanitary(r@),
            r@.len() > 0 ==> r@.last() != '.',
    {
        let name = sanitize_filename(self.name.as_str());
        proof {
            lemma_replace_dot_suffix_sanitary(name@);
        }
        replace_dot_suffix(name.as_str())
    }

    /// The album's artist list; empty when the field is absent.
    pub fn get_artistes(&self) -> (r: Vec<String>)
        ensures
            r.deep_view() == self@.artiste_list(),
    {
        match &self.artistes {
            Some(a) => clone_string_vec(a),
            None => Vec::new(),
        }
    }

    /// The album's song list; empty when the field is absent.
    pub fn get_songs(&self) -> (r: Vec<Song>)
        ensures
            r.deep_view() == self@.song_list(),
    {
        match &self.songs {
            Some(s) => clone_song_vec(s),
            None => Vec::new(),
        }
    }
}

/// Completes a detail album from its summary: when the detail's artist
/// list is absent or empty and the summary carries one, the summary's
/// list is adopted.
pub fn merge_summary_artistes(detail: Album, summary: &Album) -> (r: Album)
    ensures
        r@ == detail@.merged_with_summary(summary@),
{
    let absent = match &detail.artistes {
        Some(a) => a.len() == 0,
        None => true,
    };
    if absent && summary.artistes.is_some() {
        Album { artistes: clone_opt_string_vec(&summary.artistes), ..detail }
    } else {
        detail
    }
}

/// Outcome of asking the catalog for an album's detail record: the
/// merged detail, or None when the catalog does not know the album
/// (the caller then skips it).
pub fn resolve_album_detail(detail: Option<Album>, summary: &Album) -> (r: Option<Album>)
    ensures
        detail is None <==> r is None,
        detail matches Some(d) ==> (r matches Some(m) && m@ == d@.merged_with_summary(summary@)),
{
    match detail {
        Some(d) => Some(merge_summary_artistes(d, summary)),
        None => None,
    }
}

/// Envelope of the song-list endpoint.
pub struct SongsResponse {
    pub code: i32,
    pub msg: String,
    pub data: Option<SongsData>,
}

/// Payload of the song-list endpoint.
pub struct SongsData {
    pub list: Vec<Song>,
    pub autoplay: String,
}

/// Envelope of the single-song endpoint.
pub struct SongResponse {
    pub code: i32,
    pub msg: String,
    pub data: Option<Song>,
}

/// Envelope of the album-list endpoint.
pub struct AlbumsResponse {
    pub code: i32,
    pub msg: String,
    pub data: Option<Vec<Album>>,
}

/// Envelope of the album-detail endpoints.
pub struct AlbumResponse {
    pub code: i32,
    pub msg: String,
    pub data: Option<Album>,
}

impl SongsResponse {
    /// A zero application status yields the song list and autoplay id
    /// (both empty when the payload is absent); any other status is the
    /// API error carrying the envelope's message.
    pub fn into_result(self) -> (r: Result<(Vec<Song>, String), Error>)
        ensures
            r is Ok <==> self.code == 0,
            self.code == 0 ==> (r matches Ok(v) && (match self.data {
                Some(d) => v.0.deep_view() == d.list.deep_view() && v.1@ == d.autoplay@,
                None => v.0@.len() == 0 && v.1@.len() == 0,
            })),
            self.code != 0 ==> r == Err::<(Vec<Song>, String), Error>(
                Error::Api { message: self.msg },
            ),
{
        if self.code != 0 {
            return Err(Error::Api { message: self.msg });
        }
        match self.data {
            Some(d) => Ok((d.list, d.autoplay)),
            None => Ok((Vec::new(), String::new())),
        }
    }
}

impl SongResponse {
    /// A zero application status yields the song, present or not; any
    /// other status is the API error carrying the envelope's message.
    pub fn into_result(self) -> (r: Result<Option<Song>, Error>)
        ensures
            r is Ok <==> self.code == 0,
            self.code == 0 ==> r == Ok::<Option<Song>, Error>(self.data),
            self.code != 0 ==> r == Err::<Option<Song>, Error>(
                Error::Api { message: self.msg },
            ),
    {
        if self.code != 0 {
            return Err(Error::Api { message: self.msg });
        }
        Ok(self.data)
    }
}

impl AlbumsResponse {
    /// A zero application status yields the album list (empty when the
    /// payload is absent); any other status is the API error carrying
    /// the envelope's message.
    pub fn into_result(self) -> (r: Result<Vec<Album>, Error>)
        ensures
            r is Ok <==> self.code == 0,
            self.code == 0 ==> (r matches Ok(v) && (match self.data {
                Some(d) => v.deep_view() == d.deep_view(),
                None => v@.len() == 0,
            })),
            self.code != 0 ==> r == Err::<Vec<Album>, Error>(Error::Api { message: self.msg }),
    {
        if self.code != 0 {
            return Err(Error::Api { message: self.msg });
        }
        match self.data {
            Some(d) => Ok(d),
            None => Ok(Vec::new()),
        }
    }
}

impl AlbumResponse {
    /// A zero application status yields the album, present or not; any
    /// other status is the API error carrying the envelope's message.
    pub fn into_result(self) -> (r: Result<Option<Album>, Error>)
        ensures
            r is Ok <==> self.code == 0,
            self.code == 0 ==> r == Ok::<Option<Album>, Error>(self.data),
            self.code != 0 ==> r == Err::<Option<Album>, Error>(
                Error::Api { message: self.msg },
            ),
    {
        if self.code != 0 {
            return Err(Error::Api { message: self.msg });
        }
        Ok(self.data)
    }
}

} // verus!
