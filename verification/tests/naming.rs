use msr_downloader::layout::{
    album_dir_name, audio_filename, build_tag_data, cover_filename, detail_cover_filename,
    image_mime_kind, lyric_filename, MimeKind,
};
use msr_downloader::models::{Album, Song};
use msr_downloader::pipeline::{cover_jobs, song_asset_jobs};
use msr_downloader::utils::{get_file_extension, replace_dot_suffix, sanitize_filename};

fn base_song(cid: &str, name: &str) -> Song {
    Song {
        cid: cid.to_string(),
        name: name.to_string(),
        album_cid: None,
        source_url: None,
        lyric_url: None,
        mv_url: None,
        mv_cover_url: None,
        artists: None,
        artistes: None,
    }
}

fn base_album(name: &str) -> Album {
    Album {
        cid: "9".to_string(),
        name: name.to_string(),
        intro: None,
        belong: None,
        cover_url: None,
        cover_de_url: None,
        artistes: None,
        songs: None,
    }
}

#[test]
fn sanitizer_replaces_illegal_characters() {
    assert_eq!(sanitize_filename("a/b"), "a_b");
    assert_eq!(sanitize_filename("He say?"), "He say_");
    assert_eq!(sanitize_filename("plain name"), "plain name");
    assert_eq!(sanitize_filename("a:b*c"), "a_b_c");
    assert_eq!(sanitize_filename("a\u{1}b"), "a_b");
}

#[test]
fn sanitizer_caps_length() {
    let long: String = std::iter::repeat('x').take(300).collect();
    let out = sanitize_filename(&long);
    assert_eq!(out.chars().count(), 255);
}

#[test]
fn dot_suffix_replacement() {
    assert_eq!(replace_dot_suffix("abc"), "abc");
    assert_eq!(replace_dot_suffix("abc."), "abc_");
    assert_eq!(replace_dot_suffix("ab..."), "ab_");
    assert_eq!(replace_dot_suffix(""), "");
    assert_eq!(replace_dot_suffix("..."), "_");
}

#[test]
fn url_extension_extraction() {
    assert_eq!(
        get_file_extension("https://example.com/res/track.mp3"),
        Some(".mp3".to_string())
    );
    assert_eq!(
        get_file_extension("https://example.com/res/track.wav?sig=abc"),
        Some(".wav".to_string())
    );
    assert_eq!(get_file_extension("https://example.com/res/track"), None);
    assert_eq!(get_file_extension("not a url"), None);
}

#[test]
fn album_directory_name_zero_pads_ordinal() {
    let a = base_album("Spirit of the Light");
    assert_eq!(album_dir_name(7, &a), "007 - Spirit of the Light");
    assert_eq!(album_dir_name(123, &a), "123 - Spirit of the Light");
    assert_eq!(album_dir_name(1000, &a), "1000 - Spirit of the Light");
}

#[test]
fn album_directory_name_handles_trailing_dot() {
    let a = base_album("Vol. 1.");
    assert_eq!(album_dir_name(2, &a), "002 - Vol. 1_");
}

#[test]
fn track_file_names() {
    let s = base_song("c1", "Speed of Light");
    assert_eq!(
        audio_filename(3, &s, "https://x.com/a/b.wav"),
        "03.Speed of Light.wav"
    );
    assert_eq!(
        audio_filename(3, &s, "https://x.com/a/b"),
        "03.Speed of Light.mp3"
    );
    assert_eq!(lyric_filename(3, &s), "03.Speed of Light.lrc");
}

#[test]
fn cover_file_names() {
    assert_eq!(cover_filename("https://x.com/c.png"), "Album Cover.png");
    assert_eq!(cover_filename("https://x.com/c"), "Album Cover.jpg");
    assert_eq!(detail_cover_filename("https://x.com/d.jpg"), "Cover.jpg");
}

#[test]
fn mime_kind_from_extension() {
    assert_eq!(image_mime_kind("dir/Album Cover.jpg"), MimeKind::Jpeg);
    assert_eq!(image_mime_kind("dir/Album Cover.jpeg"), MimeKind::Jpeg);
    assert_eq!(image_mime_kind("dir/Cover.png"), MimeKind::Png);
    assert_eq!(image_mime_kind("dir/c.gif"), MimeKind::Gif);
    assert_eq!(image_mime_kind("dir/c.bmp"), MimeKind::Bmp);
    assert_eq!(image_mime_kind("dir/c.webp"), MimeKind::Jpeg);
    assert_eq!(image_mime_kind("dir/noext"), MimeKind::Jpeg);
}

#[test]
fn song_artist_fallback_first_nonempty_wins() {
    let mut s = base_song("c1", "S");
    assert!(s.get_artists().is_empty());
    s.artistes = Some(vec!["B".to_string()]);
    assert_eq!(s.get_artists(), vec!["B".to_string()]);
    s.artists = Some(vec![]);
    assert_eq!(s.get_artists(), vec!["B".to_string()]);
    s.artists = Some(vec!["A".to_string()]);
    assert_eq!(s.get_artists(), vec!["A".to_string()]);
}

#[test]
fn song_asset_jobs_cover_audio_and_lyrics() {
    let mut s = base_song("c1", "Tune");
    s.source_url = Some("https://x.com/t.flac".to_string());
    s.lyric_url = Some("https://x.com/t.lrc".to_string());
    let jobs = song_asset_jobs(&s, 4);
    assert_eq!(jobs.len(), 2);
    assert_eq!(jobs[0].url, "https://x.com/t.flac");
    assert_eq!(jobs[0].filename, "04.Tune.flac");
    assert_eq!(jobs[1].url, "https://x.com/t.lrc");
    assert_eq!(jobs[1].filename, "04.Tune.lrc");

    let bare = base_song("c2", "Silent");
    assert!(song_asset_jobs(&bare, 1).is_empty());
}

#[test]
fn cover_jobs_for_both_urls() {
    let mut a = base_album("A");
    a.cover_url = Some("https://x.com/main.png".to_string());
    a.cover_de_url = Some("https://x.com/alt".to_string());
    let jobs = cover_jobs(&a);
    assert_eq!(jobs.len(), 2);
    assert_eq!(jobs[0].filename, "Album Cover.png");
    assert_eq!(jobs[1].filename, "Cover.jpg");

    let plain = base_album("B");
    assert!(cover_jobs(&plain).is_empty());
}

#[test]
fn tag_data_fields() {
    let mut s = base_song("c1", "Title Song");
    s.artists = Some(vec!["One".to_string(), "Two".to_string()]);
    let mut a = base_album("The Album");
    a.intro = Some("Liner notes".to_string());
    a.belong = Some("arknights".to_string());
    let cover = "dir/Album Cover.png".to_string();
    let t = build_tag_data(&s, &a, 2, 9, Some(&cover));
    assert_eq!(t.title, "Title Song");
    assert_eq!(t.album, "The Album");
    assert_eq!(t.artist, Some("One, Two".to_string()));
    assert_eq!(t.track_number, 2);
    assert_eq!(t.total_tracks, 9);
    assert_eq!(t.comment, Some("Liner notes".to_string()));
    assert_eq!(t.genre, Some("Arknights".to_string()));
    let c = t.cover.unwrap();
    assert_eq!(c.path, "dir/Album Cover.png");
    assert_eq!(c.mime, MimeKind::Png);
}

#[test]
fn tag_data_omits_absent_fields() {
    let s = base_song("c1", "T");
    let a = base_album("A");
    let t = build_tag_data(&s, &a, 1, 1, None);
    assert_eq!(t.artist, None);
    assert_eq!(t.comment, None);
    assert_eq!(t.genre, None);
    assert!(t.cover.is_none());
}
