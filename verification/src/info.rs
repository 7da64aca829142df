//! The info sidecar: the plain-text album summary written next to the
//! downloaded assets. The renderer is verified to produce exactly the
//! document the spec functions describe.

use vstd::prelude::*;
use vstd::string::*;
use crate::models::Album;
use crate::models::AlbumData;
use crate::models::Song;
use crate::models::SongData;
use crate::text::spec_padded_dec;
use crate::text::spec_join_comma;
use crate::text::spec_trim;
use crate::text::padded_dec_string;
use crate::text::join_comma;
use crate::text::trim_ws;

verus! {

/// The placeholder line body for a song record lacking its identifier.
pub open spec fn spec_unknown_song_label() -> Seq<char> {
    "<unknown: missing data>"@
}

/// One track-list entry: `- NN. <name>` (or the placeholder for an
/// invalid song), followed for a valid song with artists by an
/// indented artist line. Numbering runs over all songs, valid or not.
pub open spec fn spec_track_line(s: SongData, n: nat) -> Seq<char> {
    "- "@ + spec_padded_dec(n, 2) + ". "@ + (if s.valid() {
        s.name
    } else {
        spec_unknown_song_label()
    }) + "\n"@ + (if s.valid() && s.artist_list().len() > 0 {
        "  Artists: "@ + spec_join_comma(s.artist_list()) + "\n"@
    } else {
        Seq::empty()
    })
}

/// The track-list entries for `songs`, numbered from `n` upward.
pub open spec fn spec_track_list(songs: Seq<SongData>, n: nat) -> Seq<char>
    decreases songs.len(),
{
    if songs.len() == 0 {
        Seq::empty()
    } else {
        spec_track_line(songs[0], n) + spec_track_list(songs.drop_first(), n + 1)
    }
}

/// The sidecar before trimming: the album name line, the optional
/// belongs-to line, the optional comma-joined artist line, the
/// optional introduction paragraph, and the numbered track list.
pub open spec fn spec_info_body(a: AlbumData) -> Seq<char> {
    "Album Name: "@ + a.name + "\n"@ + (match a.belong {
        Some(b) => "Album Belongs To: "@ + b + "\n"@,
        None => Seq::empty(),
    }) + (if a.artiste_list().len() > 0 {
        "Album Artists: "@ + spec_join_comma(a.artiste_list()) + "\n"@
    } else {
        Seq::empty()
    }) + (match a.intro {
        Some(i) => "Album Introduction:\n"@ + i + "\n\n"@,
        None => Seq::empty(),
    }) + "Track List:\n"@ + spec_track_list(a.song_list(), 1)
}

/// The sidecar document: the body with surrounding whitespace
/// trimmed.
pub open spec fn spec_album_info(a: AlbumData) -> Seq<char> {
    spec_trim(spec_info_body(a))
}

/// Renders one track-list entry.
fn track_line(song: &Song, n: u64) -> (r: String)
    ensures
        r@ == spec_track_line(song@, n as nat),
{
    let mut s = String::new();
    s.append("- ");
    let p = padded_dec_string(n, 2);
    s.append(p.as_str());
    s.append(". ");
    if song.is_valid() {
        s.append(song.name.as_str());
    } else {
        s.append("<unknown: missing data>");
    }
    s.append("\n");
    if song.is_valid() {
        let artists = song.get_artists();
        if artists.len() > 0 {
            s.append("  Artists: ");
            let j = join_comma(&artists);
            s.append(j.as_str());
            s.append("\n");
        }
    }
    proof {
        assert(s@ =~= spec_track_line(song@, n as nat));
    }
    s
}

/// Renders the info sidecar for `album`.
pub fn render_album_info(album: &Album) -> (r: String)
    ensures
        r@ == spec_album_info(album@),
{
    let mut c = String::new();
    c.append("Album Name: ");
    c.append(album.name.as_str());
    c.append("\n");
    match &album.belong {
        Some(b) => {
            c.append("Album Belongs To: ");
            c.append(b.as_str());
            c.append("\n");
        },
        None => {},
    }
    let artistes = album.get_artistes();
    if artistes.len() > 0 {
        c.append("Album Artists: ");
        let j = join_comma(&artistes);
        c.append(j.as_str());
        c.append("\n");
    }
    match &album.intro {
        Some(i) => {
            c.append("Album Introduction:\n");
            c.append(i.as_str());
            c.append("\n\n");
        },
        None => {},
    }
    c.append("Track List:\n");
    let ghost sl = album@.song_list();
    let ghost header = c@;
    proof {
        assert(header + spec_track_list(sl, 1) =~= spec_info_body(album@));
    }
    let songs = album.get_songs();
    let mut idx: usize = 0;
    proof {
        assert(sl.skip(0) =~= sl);
    }
    while idx < songs.len()
        invariant
            idx <= songs.len(),
            songs.deep_view() == sl,
            songs@.len() == sl.len(),
            spec_info_body(album@) == c@ + spec_track_list(sl.skip(idx as int), (idx + 1) as nat),
        decreases songs.len() - idx,
    {
        let line = track_line(&songs[idx], (idx as u64) + 1);
        c.append(line.as_str());
        proof {
            assert(sl.skip(idx as int).drop_first() =~= sl.skip(idx as int + 1));
            assert(sl.skip(idx as int)[0] == songs@[idx as int]@);
            assert(c@ + spec_track_list(sl.skip(idx as int + 1), (idx + 2) as nat)
                =~= spec_info_body(album@));
        }
        idx = idx + 1;
    }
    proof {
        assert(sl.skip(idx as int) =~= Seq::<SongData>::empty());
        assert(c@ + spec_track_list(sl.skip(idx as int), (idx + 1) as nat) =~= c@);
    }
    trim_ws(c.as_str())
}

} // verus!
