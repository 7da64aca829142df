use msr_downloader::error::Error;
use msr_downloader::models::{
    resolve_album_detail, Album, AlbumResponse, AlbumsResponse, Song, SongResponse,
    SongsData, SongsResponse,
};
use msr_downloader::pipeline::{apply_enrichment, check_download_status, enriched_song, SongFetchOutcome};

fn song(cid: &str, name: &str) -> Song {
    Song {
        cid: cid.to_string(),
        name: name.to_string(),
        album_cid: None,
        source_url: None,
        lyric_url: None,
        mv_url: None,
        mv_cover_url: None,
        artists: None,
        artistes: None,
    }
}

fn album(cid: &str, name: &str) -> Album {
    Album {
        cid: cid.to_string(),
        name: name.to_string(),
        intro: None,
        belong: None,
        cover_url: None,
        cover_de_url: None,
        artistes: None,
        songs: None,
    }
}

#[test]
fn songs_envelope_success() {
    let r = SongsResponse {
        code: 0,
        msg: String::new(),
        data: Some(SongsData {
            list: vec![song("a", "A")],
            autoplay: "a".to_string(),
        }),
    };
    let (list, autoplay) = r.into_result().unwrap();
    assert_eq!(list.len(), 1);
    assert_eq!(list[0].name, "A");
    assert_eq!(autoplay, "a");
}

#[test]
fn songs_envelope_missing_payload_is_empty() {
    let r = SongsResponse {
        code: 0,
        msg: String::new(),
        data: None,
    };
    let (list, autoplay) = r.into_result().unwrap();
    assert!(list.is_empty());
    assert!(autoplay.is_empty());
}

#[test]
fn nonzero_code_is_api_error() {
    let r = AlbumsResponse {
        code: 5,
        msg: "backend unhappy".to_string(),
        data: Some(vec![album("x", "X")]),
    };
    match r.into_result() {
        Err(Error::Api { message }) => assert_eq!(message, "backend unhappy"),
        _ => panic!("expected an API error"),
    }
}

#[test]
fn albums_envelope_success() {
    let r = AlbumsResponse {
        code: 0,
        msg: String::new(),
        data: Some(vec![album("x", "X"), album("y", "Y")]),
    };
    let list = r.into_result().unwrap();
    assert_eq!(list.len(), 2);

    let empty = AlbumsResponse {
        code: 0,
        msg: String::new(),
        data: None,
    };
    assert!(empty.into_result().unwrap().is_empty());
}

#[test]
fn album_envelope_passes_payload_through() {
    let found = AlbumResponse {
        code: 0,
        msg: String::new(),
        data: Some(album("x", "X")),
    };
    assert_eq!(found.into_result().unwrap().unwrap().name, "X");

    let missing = AlbumResponse {
        code: 0,
        msg: String::new(),
        data: None,
    };
    assert!(missing.into_result().unwrap().is_none());

    let failed = AlbumResponse {
        code: 1,
        msg: "nope".to_string(),
        data: None,
    };
    assert!(matches!(
        failed.into_result(),
        Err(Error::Api { message }) if message == "nope"
    ));
}

#[test]
fn song_envelope_passes_payload_through() {
    let found = SongResponse {
        code: 0,
        msg: String::new(),
        data: Some(song("s", "S")),
    };
    assert_eq!(found.into_result().unwrap().unwrap().cid, "s");

    let failed = SongResponse {
        code: 8,
        msg: "gone".to_string(),
        data: None,
    };
    assert!(matches!(
        failed.into_result(),
        Err(Error::Api { message }) if message == "gone"
    ));
}

#[test]
fn download_status_check() {
    assert!(check_download_status(200, "https://x.com/a").is_ok());
    assert!(check_download_status(299, "https://x.com/a").is_ok());
    match check_download_status(404, "https://x.com/a") {
        Err(Error::Download(m)) => assert_eq!(m, "HTTP status 404 for https://x.com/a"),
        _ => panic!("expected a download error"),
    }
    assert!(check_download_status(301, "u").is_err());
    assert!(check_download_status(199, "u").is_err());
}

#[test]
fn enrichment_keeps_original_on_failure() {
    let original = song("c", "Plain");
    let detailed = song("c", "Detailed");
    let kept = enriched_song(original.clone(), SongFetchOutcome::Found(detailed));
    assert_eq!(kept.name, "Detailed");
    let kept = enriched_song(original.clone(), SongFetchOutcome::NotFound);
    assert_eq!(kept.name, "Plain");
    let kept = enriched_song(original, SongFetchOutcome::FetchFailed);
    assert_eq!(kept.name, "Plain");
}

#[test]
fn unavailable_album_detail_is_skipped() {
    let summary = album("x", "X");
    assert!(resolve_album_detail(None, &summary).is_none());
    let detail = album("x", "X full");
    let resolved = resolve_album_detail(Some(detail), &summary).unwrap();
    assert_eq!(resolved.name, "X full");
}

#[test]
fn enrichment_of_a_list_keeps_order_and_length() {
    let originals = vec![song("a", "A"), song("b", "B"), song("c", "C")];
    let outcomes = vec![
        SongFetchOutcome::Found(song("a", "A detailed")),
        SongFetchOutcome::NotFound,
        SongFetchOutcome::FetchFailed,
    ];
    let enriched = apply_enrichment(&originals, &outcomes);
    let names: Vec<&str> = enriched.iter().map(|s| s.name.as_str()).collect();
    assert_eq!(names, vec!["A detailed", "B", "C"]);
}
