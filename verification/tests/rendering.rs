use msr_downloader::info::render_album_info;
use msr_downloader::models::{Album, Song};

fn base_song(cid: &str, name: &str) -> Song {
    Song {
        cid: cid.to_string(),
        name: name.to_string(),
        album_cid: None,
        source_url: None,
        lyric_url: None,
        mv_url: None,
        mv_cover_url: None,
        artists: None,
        artistes: None,
    }
}

fn base_album(name: &str) -> Album {
    Album {
        cid: "9".to_string(),
        name: name.to_string(),
        intro: None,
        belong: None,
        cover_url: None,
        cover_de_url: None,
        artistes: None,
        songs: None,
    }
}

#[test]
fn sidecar_numbers_all_songs_and_marks_invalid_ones() {
    let mut a = base_album("Vigilo");
    a.songs = Some(vec![
        base_song("a1", "A"),
        base_song("", "B"),
        base_song("c1", "C"),
    ]);
    let text = render_album_info(&a);
    assert_eq!(
        text,
        "Album Name: Vigilo\n\
         Track List:\n\
         - 01. A\n\
         - 02. <unknown: missing data>\n\
         - 03. C"
    );
}

#[test]
fn sidecar_full_header() {
    let mut a = base_album("Untitled World");
    a.belong = Some("arknights".to_string());
    a.artistes = Some(vec!["Alpha".to_string(), "Beta".to_string()]);
    a.intro = Some("An album.".to_string());
    let mut s = base_song("s1", "Opening");
    s.artists = Some(vec!["Alpha".to_string()]);
    a.songs = Some(vec![s]);
    let text = render_album_info(&a);
    assert_eq!(
        text,
        "Album Name: Untitled World\n\
         Album Belongs To: arknights\n\
         Album Artists: Alpha, Beta\n\
         Album Introduction:\nAn album.\n\n\
         Track List:\n\
         - 01. Opening\n\
         \x20 Artists: Alpha"
    );
}

#[test]
fn sidecar_without_songs_ends_at_track_list_heading() {
    let a = base_album("Empty");
    let text = render_album_info(&a);
    assert_eq!(text, "Album Name: Empty\nTrack List:");
}

#[test]
fn sidecar_omits_empty_artist_lists() {
    let mut a = base_album("Solo");
    a.artistes = Some(vec![]);
    let mut s = base_song("s1", "One");
    s.artists = Some(vec![]);
    a.songs = Some(vec![s]);
    let text = render_album_info(&a);
    assert_eq!(text, "Album Name: Solo\nTrack List:\n- 01. One");
}

#[test]
fn sidecar_song_artist_line_joins_with_commas() {
    let mut a = base_album("Duo");
    let mut s = base_song("s1", "Pair");
    s.artists = Some(vec!["L".to_string(), "R".to_string()]);
    a.songs = Some(vec![s]);
    let text = render_album_info(&a);
    assert_eq!(
        text,
        "Album Name: Duo\nTrack List:\n- 01. Pair\n  Artists: L, R"
    );
}

#[test]
fn sidecar_two_digit_numbering_past_nine() {
    let mut a = base_album("Long");
    let songs: Vec<Song> = (1..=11)
        .map(|i| base_song(&format!("c{}", i), &format!("T{}", i)))
        .collect();
    a.songs = Some(songs);
    let text = render_album_info(&a);
    assert!(text.contains("- 09. T9\n"));
    assert!(text.contains("- 10. T10\n"));
    assert!(text.ends_with("- 11. T11"));
}

#[test]
fn sidecar_trims_trailing_whitespace() {
    let mut a = base_album("Tail");
    a.songs = Some(vec![base_song("s1", "End   ")]);
    let text = render_album_info(&a);
    assert_eq!(text, "Album Name: Tail\nTrack List:\n- 01. End");
}
