use msr_downloader::layout::{genre_label, temp_name};
use msr_downloader::models::{merge_summary_artistes, Album, Song};
use msr_downloader::pipeline::{
    album_ordinal, choose_cover, plan_asset, should_write_sidecar, track_jobs, AssetStep, FanOut,
    MAX_CONCURRENT_DOWNLOADS,
};

fn song(cid: &str, name: &str) -> Song {
    Song {
        cid: cid.to_string(),
        name: name.to_string(),
        album_cid: None,
        source_url: None,
        lyric_url: None,
        mv_url: None,
        mv_cover_url: None,
        artists: None,
        artistes: None,
    }
}

fn album(name: &str, songs: Vec<Song>) -> Album {
    Album {
        cid: "1".to_string(),
        name: name.to_string(),
        intro: None,
        belong: None,
        cover_url: None,
        cover_de_url: None,
        artistes: None,
        songs: Some(songs),
    }
}

#[test]
fn existing_target_plans_no_steps() {
    assert!(plan_asset(true, false).is_empty());
    assert!(plan_asset(true, true).is_empty());
}

#[test]
fn fresh_target_plans_two_phase_write() {
    let plan = plan_asset(false, false);
    assert_eq!(plan, vec![AssetStep::DownloadToTemp, AssetStep::PromoteTemp]);
}

#[test]
fn stale_temp_is_discarded_first() {
    let plan = plan_asset(false, true);
    assert_eq!(
        plan,
        vec![
            AssetStep::RemoveTemp,
            AssetStep::DownloadToTemp,
            AssetStep::PromoteTemp
        ]
    );
}

#[test]
fn download_always_precedes_promote() {
    for temp in [false, true] {
        let plan = plan_asset(false, temp);
        let dl = plan
            .iter()
            .position(|s| *s == AssetStep::DownloadToTemp)
            .unwrap();
        let pr = plan
            .iter()
            .position(|s| *s == AssetStep::PromoteTemp)
            .unwrap();
        assert!(dl < pr);
        assert_eq!(plan.last(), Some(&AssetStep::PromoteTemp));
    }
}

#[test]
fn temp_name_appends_tmp_suffix() {
    assert_eq!(temp_name("01.Song.mp3"), "01.Song.mp3.tmp");
    assert_eq!(temp_name("Album Cover.jpg"), "Album Cover.jpg.tmp");
}

#[test]
fn invalid_song_excluded_from_valid_track_index() {
    let a = album(
        "Test",
        vec![song("a1", "A"), song("", "B"), song("c1", "C")],
    );
    let jobs = track_jobs(&a);
    assert_eq!(jobs.len(), 2);
    assert_eq!(jobs[0].track_no, 1);
    assert_eq!(jobs[0].song.name, "A");
    assert_eq!(jobs[1].track_no, 2);
    assert_eq!(jobs[1].song.name, "C");
}

#[test]
fn artist_fallback_adopts_summary_list() {
    let detail = album("X", vec![]);
    let mut summary = album("X", vec![]);
    summary.artistes = Some(vec!["X".to_string()]);
    let merged = merge_summary_artistes(detail, &summary);
    assert_eq!(merged.artistes, Some(vec!["X".to_string()]));
}

#[test]
fn detail_artists_kept_when_present() {
    let mut detail = album("X", vec![]);
    detail.artistes = Some(vec!["D".to_string()]);
    let mut summary = album("X", vec![]);
    summary.artistes = Some(vec!["S".to_string()]);
    let merged = merge_summary_artistes(detail, &summary);
    assert_eq!(merged.artistes, Some(vec!["D".to_string()]));
}

#[test]
fn genre_mapping() {
    assert_eq!(genre_label("arknights"), "Arknights");
    assert_eq!(genre_label("terra"), "Unknown Genre");
    assert_eq!(genre_label("ARKNIGHTS"), "Unknown Genre");
}

#[test]
fn fan_out_never_exceeds_bound() {
    let mut f = FanOut::new(12);
    let mut started = 0usize;
    // Start as many as the scheduler allows: it stops at the bound.
    while f.try_start() {
        started += 1;
        assert!(started - f.completed <= MAX_CONCURRENT_DOWNLOADS);
    }
    assert_eq!(started, MAX_CONCURRENT_DOWNLOADS);
    // As jobs settle, the scheduler tops back up, one for one.
    while f.completed < 12 {
        f.complete_one();
        assert!(f.started - f.completed < MAX_CONCURRENT_DOWNLOADS);
        if f.try_start() {
            started += 1;
        }
        assert!(f.started - f.completed <= MAX_CONCURRENT_DOWNLOADS);
    }
    assert_eq!(started, 12);
    assert!(f.all_settled());
}

#[test]
fn ordinals_reverse_listing_order() {
    let total = 4;
    let ordinals: Vec<usize> = (0..total).map(|i| album_ordinal(total, i)).collect();
    assert_eq!(ordinals, vec![4, 3, 2, 1]);
}

#[test]
fn cover_choice_takes_first_present_candidate() {
    let d = "lib/003 - X";
    assert_eq!(
        choose_cover(d, true, true, true, true),
        Some("lib/003 - X/Album Cover.jpg".to_string())
    );
    assert_eq!(
        choose_cover(d, false, true, true, true),
        Some("lib/003 - X/Album Cover.png".to_string())
    );
    assert_eq!(
        choose_cover(d, false, false, true, true),
        Some("lib/003 - X/Cover.jpg".to_string())
    );
    assert_eq!(
        choose_cover(d, false, false, false, true),
        Some("lib/003 - X/Cover.png".to_string())
    );
    assert_eq!(choose_cover(d, false, false, false, false), None);
}

#[test]
fn sidecar_written_only_when_absent() {
    assert!(should_write_sidecar(false));
    assert!(!should_write_sidecar(true));
}
