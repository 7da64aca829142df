//! The download pipeline's coordination logic: the skip-if-complete
//! two-phase asset protocol and its atomicity argument, the bounded
//! concurrent fan-out, the per-album job planners, the song-enrichment
//! decision, and the response-status check. The shells around the
//! library perform the I/O these plans call for.

use vstd::prelude::*;
use vstd::string::*;
use crate::error::Error;
use crate::models::Album;
use crate::models::AlbumData;
use crate::models::Song;
use crate::models::SongData;
use crate::layout::spec_audio_filename;
use crate::layout::spec_lyric_filename;
use crate::layout::spec_cover_filename;
use crate::layout::spec_detail_cover_filename;
use crate::layout::audio_filename;
use crate::layout::lyric_filename;
use crate::layout::cover_filename;
use crate::layout::detail_cover_filename;
use crate::text::spec_dec;
use crate::text::dec_string;
use crate::utils::file_exists;

verus! {

/// At most this many asset downloads are in flight at once.
pub const MAX_CONCURRENT_DOWNLOADS: usize = 5;

/// Ordinal assigned to an album's directory: albums are numbered in
/// reverse of listing order, so the album at zero-based position
/// `index` of a catalog of `total` albums gets `total - index`.
pub fn album_ordinal(total: usize, index: usize) -> (r: usize)
    requires
        index < total,
    ensures
        r == total - index,
{
    total - index
}

// ------------------------------------------------------------------
// The two-phase asset write.
// ------------------------------------------------------------------

/// One step of the asset-write protocol. `RemoveTemp` discards a stale
/// staging file, `DownloadToTemp` streams the body into the staging
/// file, `PromoteTemp` renames the staging file onto the target.
#[derive(Clone, Copy, Debug, PartialEq, Eq, Structural)]
pub enum AssetStep {
    RemoveTemp,
    DownloadToTemp,
    PromoteTemp,
}

/// The steps that fetch one asset: nothing when the target is already
/// on disk; otherwise discard any stale staging file, stream into the
/// staging file, and rename it onto the target.
pub open spec fn spec_plan_asset(target_exists: bool, temp_exists: bool) -> Seq<AssetStep> {
    if target_exists {
        Seq::empty()
    } else if temp_exists {
        seq![AssetStep::RemoveTemp, AssetStep::DownloadToTemp, AssetStep::PromoteTemp]
    } else {
        seq![AssetStep::DownloadToTemp, AssetStep::PromoteTemp]
    }
}

/// Plans the fetch of one asset from what is on disk.
pub fn plan_asset(target_exists: bool, temp_exists: bool) -> (r: Vec<AssetStep>)
    ensures
        r@ == spec_plan_asset(target_exists, temp_exists),
{
    let mut v: Vec<AssetStep> = Vec::new();
    if target_exists {
        proof {
            assert(v@ =~= spec_plan_asset(target_exists, temp_exists));
        }
        return v;
    }
    if temp_exists {
        v.push(AssetStep::RemoveTemp);
    }
    v.push(AssetStep::DownloadToTemp);
    v.push(AssetStep::PromoteTemp);
    proof {
        assert(v@ =~= spec_plan_asset(target_exists, temp_exists));
    }
    v
}

/// Idempotence of the write protocol: a target already on disk asks
/// for no step at all, in particular for no download, whatever state
/// the staging file is in.
pub proof fn lemma_existing_target_downloads_nothing(temp_exists: bool)
    ensures
        spec_plan_asset(true, temp_exists).len() == 0,
        !spec_plan_asset(true, temp_exists).contains(AssetStep::DownloadToTemp),
{
}

/// Idempotence of a re-run: when every asset of a run is already on
/// disk, no asset plans any step at all — the second run performs
/// zero network downloads, whatever staging files linger.
pub proof fn lemma_second_run_downloads_nothing(targets: Seq<bool>, temps: Seq<bool>)
    requires
        targets.len() == temps.len(),
        forall|i: int| 0 <= i < targets.len() ==> targets[i],
    ensures
        forall|i: int|
            0 <= i < targets.len() ==> (#[trigger] spec_plan_asset(targets[i], temps[i])).len()
                == 0,
{
}

/// What a file can look like on disk in the protocol's model.
#[derive(Clone, Copy, Debug, PartialEq, Eq, Structural)]
pub enum FileState {
    Absent,
    Partial,
    Complete,
}

/// The on-disk state the protocol manipulates: the target name and its
/// staging (`.tmp`) name.
pub ghost struct FsModel {
    pub target: FileState,
    pub temp: FileState,
}

/// Effect of one step on the model. `finished` tells whether a
/// download's stream ran to its end; the staging file holds partial
/// content otherwise.
pub open spec fn spec_apply_step(s: FsModel, step: AssetStep, finished: bool) -> FsModel {
    match step {
        AssetStep::RemoveTemp => FsModel { temp: FileState::Absent, ..s },
        AssetStep::DownloadToTemp => FsModel {
            temp: if finished {
                FileState::Complete
            } else {
                FileState::Partial
            },
            ..s
        },
        AssetStep::PromoteTemp => FsModel { target: s.temp, temp: FileState::Absent },
    }
}

/// The state after running `steps` in order, where `finished == false`
/// means the run is cut short at its download: the stream stops with
/// partial content in the staging file and no later step executes.
pub open spec fn spec_run_steps(s: FsModel, steps: Seq<AssetStep>, finished: bool) -> FsModel
    decreases steps.len(),
{
    if steps.len() == 0 {
        s
    } else if steps[0] == AssetStep::DownloadToTemp && !finished {
        spec_apply_step(s, steps[0], false)
    } else {
        spec_run_steps(spec_apply_step(s, steps[0], true), steps.drop_first(), finished)
    }
}

/// Atomicity of the two-phase write: start from an absent target and
/// cut the planned fetch anywhere — between any two steps (`k` steps
/// ran) or inside the download itself (`finished == false`) — and the
/// target name never holds partial content: it is still absent, or it
/// holds the complete asset moved onto it by the rename.
pub proof fn lemma_asset_write_atomic(s0: FsModel, k: int, finished: bool)
    requires
        s0.target == FileState::Absent,
        0 <= k <= spec_plan_asset(false, s0.temp != FileState::Absent).len(),
    ensures
        spec_run_steps(
            s0,
            spec_plan_asset(false, s0.temp != FileState::Absent).take(k),
            finished,
        ).target != FileState::Partial,
{
    reveal_with_fuel(spec_run_steps, 5);
    let plan = spec_plan_asset(false, s0.temp != FileState::Absent);
    if s0.temp != FileState::Absent {
        assert(plan =~= seq![
            AssetStep::RemoveTemp,
            AssetStep::DownloadToTemp,
            AssetStep::PromoteTemp,
        ]);
        if k == 0 {
            assert(plan.take(0) =~= Seq::<AssetStep>::empty());
        } else if k == 1 {
            assert(plan.take(1) =~= seq![AssetStep::RemoveTemp]);
            assert(plan.take(1).drop_first() =~= Seq::<AssetStep>::empty());
        } else if k == 2 {
            assert(plan.take(2) =~= seq![AssetStep::RemoveTemp, AssetStep::DownloadToTemp]);
            assert(plan.take(2).drop_first() =~= seq![AssetStep::DownloadToTemp]);
            assert(plan.take(2).drop_first().drop_first() =~= Seq::<AssetStep>::empty());
        } else {
            assert(plan.take(3) =~= plan);
            assert(plan.drop_first() =~= seq![AssetStep::DownloadToTemp, AssetStep::PromoteTemp]);
            assert(plan.drop_first().drop_first() =~= seq![AssetStep::PromoteTemp]);
            assert(plan.drop_first().drop_first().drop_first() =~= Seq::<AssetStep>::empty());
        }
    } else {
        assert(plan =~= seq![AssetStep::DownloadToTemp, AssetStep::PromoteTemp]);
        if k == 0 {
            assert(plan.take(0) =~= Seq::<AssetStep>::empty());
        } else if k == 1 {
            assert(plan.take(1) =~= seq![AssetStep::DownloadToTemp]);
            assert(plan.take(1).drop_first() =~= Seq::<AssetStep>::empty());
        } else {
            assert(plan.take(2) =~= plan);
            assert(plan.drop_first() =~= seq![AssetStep::PromoteTemp]);
            assert(plan.drop_first().drop_first() =~= Seq::<AssetStep>::empty());
        }
    }
}

/// A full, uninterrupted run of the plan leaves the complete asset
/// under the target name and no staging file behind.
pub proof fn lemma_asset_write_completes(s0: FsModel)
    requires
        s0.target == FileState::Absent,
    ensures
        spec_run_steps(
            s0,
            spec_plan_asset(false, s0.temp != FileState::Absent),
            true,
        ).target == FileState::Complete,
        spec_run_steps(
            s0,
            spec_plan_asset(false, s0.temp != FileState::Absent),
            true,
        ).temp == FileState::Absent,
{
    reveal_with_fuel(spec_run_steps, 5);
    let plan = spec_plan_asset(false, s0.temp != FileState::Absent);
    if s0.temp != FileState::Absent {
        assert(plan.drop_first() =~= seq![AssetStep::DownloadToTemp, AssetStep::PromoteTemp]);
        assert(plan.drop_first().drop_first() =~= seq![AssetStep::PromoteTemp]);
        assert(plan.drop_first().drop_first().drop_first() =~= Seq::<AssetStep>::empty());
    } else {
        assert(plan.drop_first() =~= seq![AssetStep::PromoteTemp]);
        assert(plan.drop_first().drop_first() =~= Seq::<AssetStep>::empty());
    }
}

// ------------------------------------------------------------------
// The bounded concurrent fan-out.
// ------------------------------------------------------------------

/// The state of one album's download fan-out: how many of its jobs
/// have been handed to the scheduler and how many have settled.
pub struct FanOut {
    pub total: usize,
    pub started: usize,
    pub completed: usize,
}

impl FanOut {
    /// Every job settles only after it started; no more start than
    /// exist.
    pub open spec fn wf(self) -> bool {
        self.completed <= self.started <= self.total
    }

    /// Jobs started and not yet settled.
    pub open spec fn in_flight(self) -> int {
        self.started - self.completed
    }

    /// The concurrency bound holds.
    pub open spec fn bound_ok(self) -> bool {
        self.in_flight() <= MAX_CONCURRENT_DOWNLOADS as int
    }

    /// A fresh fan-out over `total` jobs.
    pub fn new(total: usize) -> (r: FanOut)
        ensures
            r.wf(),
            r.bound_ok(),
            r.total == total,
            r.started == 0,
            r.completed == 0,
    {
        FanOut { total, started: 0, completed: 0 }
    }

    /// Starts the next job if one is pending and fewer than the bound
    /// are in flight; reports whether one was started.
    pub fn try_start(&mut self) -> (r: bool)
        requires
            old(self).wf(),
            old(self).bound_ok(),
        ensures
            final(self).wf(),
            final(self).bound_ok(),
            r == (old(self).started < old(self).total && old(self).in_flight()
                < MAX_CONCURRENT_DOWNLOADS as int),
            r ==> *final(self) == (FanOut { started: (old(self).started + 1) as usize, ..*old(self) }),
            r ==> spec_fan_out_start(*old(self), *final(self)),
            !r ==> *final(self) == *old(self),
    {
        if self.started < self.total && self.started - self.completed < MAX_CONCURRENT_DOWNLOADS {
            self.started = self.started + 1;
            true
        } else {
            false
        }
    }

    /// Records that one in-flight job settled, by success or failure.
    pub fn complete_one(&mut self)
        requires
            old(self).wf(),
            old(self).bound_ok(),
            old(self).in_flight() > 0,
        ensures
            final(self).wf(),
            final(self).bound_ok(),
            *final(self) == (FanOut { completed: (old(self).completed + 1) as usize, ..*old(self) }),
            spec_fan_out_complete(*old(self), *final(self)),
    {
        self.completed = self.completed + 1;
    }

    /// Whether every job has settled.
    pub fn all_settled(&self) -> (r: bool)
        ensures
            r == (self.completed == self.total),
    {
        self.completed == self.total
    }
}

/// A legal start transition: below the bound, with jobs pending.
pub open spec fn spec_fan_out_start(pre: FanOut, post: FanOut) -> bool {
    &&& pre.started < pre.total
    &&& pre.in_flight() < MAX_CONCURRENT_DOWNLOADS as int
    &&& post.started == pre.started + 1
    &&& post.completed == pre.completed
    &&& post.total == pre.total
}

/// A legal settle transition: one in-flight job finishes.
pub open spec fn spec_fan_out_complete(pre: FanOut, post: FanOut) -> bool {
    &&& pre.in_flight() > 0
    &&& post.completed == pre.completed + 1
    &&& post.started == pre.started
    &&& post.total == pre.total
}

/// A run of the fan-out: the fresh state followed by legal
/// transitions only.
pub open spec fn spec_fan_out_trace(tr: Seq<FanOut>, total: usize) -> bool {
    &&& tr.len() > 0
    &&& tr[0] == (FanOut { total, started: 0, completed: 0 })
    &&& forall|i: int|
        0 <= i < tr.len() - 1 ==> (spec_fan_out_start(#[trigger] tr[i], tr[i + 1])
            || spec_fan_out_complete(tr[i], tr[i + 1]))
}

proof fn lemma_fan_out_state_ok(tr: Seq<FanOut>, total: usize, i: int)
    requires
        spec_fan_out_trace(tr, total),
        0 <= i < tr.len(),
    ensures
        tr[i].wf(),
        tr[i].bound_ok(),
    decreases i,
{
    if i > 0 {
        lemma_fan_out_state_ok(tr, total, i - 1);
    }
}

/// The concurrency bound: however the fan-out is driven — any
/// interleaving of starts and settlings — no state of the run ever has
/// more than the bounded number of downloads in flight.
pub proof fn lemma_fan_out_bounded(tr: Seq<FanOut>, total: usize)
    requires
        spec_fan_out_trace(tr, total),
    ensures
        forall|i: int|
            0 <= i < tr.len() ==> (#[trigger] tr[i].in_flight())
                <= MAX_CONCURRENT_DOWNLOADS as int,
{
    assert forall|i: int|
        0 <= i < tr.len() implies (#[trigger] tr[i].in_flight())
        <= MAX_CONCURRENT_DOWNLOADS as int by {
        lemma_fan_out_state_ok(tr, total, i);
    }
}

// ------------------------------------------------------------------
// Job planning.
// ------------------------------------------------------------------

/// Spec-level image of a track job.
pub ghost struct TrackJobData {
    pub track_no: nat,
    pub song: SongData,
}

/// One valid song together with its 1-based position among the
/// album's valid songs, which numbers its files and its N-of-M tag.
pub struct TrackJob {
    pub track_no: usize,
    pub song: Song,
}

impl View for TrackJob {
    type V = TrackJobData;

    open spec fn view(&self) -> TrackJobData {
        TrackJobData { track_no: self.track_no as nat, song: self.song@ }
    }
}

impl DeepView for TrackJob {
    type V = TrackJobData;

    open spec fn deep_view(&self) -> TrackJobData {
        self@
    }
}

/// The track jobs of `songs`: one per valid song, in album order,
/// numbered from `n` upward over the valid songs alone.
pub open spec fn spec_track_jobs(songs: Seq<SongData>, n: nat) -> Seq<TrackJobData>
    decreases songs.len(),
{
    if songs.len() == 0 {
        Seq::empty()
    } else if songs[0].valid() {
        seq![TrackJobData { track_no: n, song: songs[0] }] + spec_track_jobs(
            songs.drop_first(),
            n + 1,
        )
    } else {
        spec_track_jobs(songs.drop_first(), n)
    }
}

/// How many songs of `songs` are valid.
pub open spec fn spec_valid_count(songs: Seq<SongData>) -> nat
    decreases songs.len(),
{
    if songs.len() == 0 {
        0
    } else {
        (if songs[0].valid() {
            1nat
        } else {
            0nat
        }) + spec_valid_count(songs.drop_first())
    }
}

/// Ordering of the download work: a song list yields one job per
/// valid song — an invalid song yields none — every job's song is
/// valid, and the jobs are numbered consecutively from `n` over the
/// valid songs alone, so an invalid song shifts no number.
pub proof fn lemma_track_jobs_shape(songs: Seq<SongData>, n: nat)
    ensures
        spec_track_jobs(songs, n).len() == spec_valid_count(songs),
        forall|k: int|
            0 <= k < spec_track_jobs(songs, n).len() ==> (#[trigger] spec_track_jobs(songs, n)[k]).track_no
                == n + k && spec_track_jobs(songs, n)[k].song.valid(),
    decreases songs.len(),
{
    if songs.len() > 0 {
        if songs[0].valid() {
            lemma_track_jobs_shape(songs.drop_first(), n + 1);
        } else {
            lemma_track_jobs_shape(songs.drop_first(), n);
        }
    }
}

/// Plans the download work of one album: exactly its valid songs, in
/// album order, numbered 1 upward over the valid songs alone — an
/// invalid song gets no number and no job.
pub fn track_jobs(album: &Album) -> (r: Vec<TrackJob>)
    ensures
        r.deep_view() == spec_track_jobs(album@.song_list(), 1),
{
    let songs = album.get_songs();
    let ghost sl = album@.song_list();
    let mut jobs: Vec<TrackJob> = Vec::new();
    let mut i: usize = 0;
    proof {
        assert(sl.skip(0) =~= sl);
        assert(jobs.deep_view() + spec_track_jobs(sl, 1) =~= spec_track_jobs(sl, 1));
    }
    while i < songs.len()
        invariant
            i <= songs.len(),
            songs.deep_view() == sl,
            songs@.len() == sl.len(),
            jobs@.len() <= i,
            spec_track_jobs(sl, 1) == jobs.deep_view() + spec_track_jobs(
                sl.skip(i as int),
                (jobs@.len() + 1) as nat,
            ),
        decreases songs.len() - i,
    {
        let ghost pre = jobs.deep_view();
        proof {
            assert(sl.skip(i as int).drop_first() =~= sl.skip(i as int + 1));
            assert(sl.skip(i as int)[0] == songs@[i as int]@);
        }
        if songs[i].is_valid() {
            let n = jobs.len() + 1;
            jobs.push(TrackJob { track_no: n, song: songs[i].clone() });
            proof {
                assert(jobs.deep_view() =~= pre.push(
                    TrackJobData { track_no: n as nat, song: songs@[i as int]@ },
                ));
                assert(pre + (seq![
                    TrackJobData { track_no: n as nat, song: sl.skip(i as int)[0] },
                ] + spec_track_jobs(sl.skip(i as int + 1), (n + 1) as nat)) =~= jobs.deep_view()
                    + spec_track_jobs(sl.skip(i as int + 1), (n + 1) as nat));
            }
        }
        i = i + 1;
    }
    proof {
        assert(sl.skip(i as int) =~= Seq::<SongData>::empty());
        assert(jobs.deep_view() + spec_track_jobs(
            sl.skip(i as int),
            (jobs@.len() + 1) as nat,
        ) =~= jobs.deep_view());
    }
    jobs
}

/// Spec-level image of one asset to fetch.
pub ghost struct AssetJobData {
    pub url: Seq<char>,
    pub filename: Seq<char>,
}

/// One asset to fetch: a URL and the file name it lands under inside
/// the album directory.
pub struct AssetJob {
    pub url: String,
    pub filename: String,
}

impl View for AssetJob {
    type V = AssetJobData;

    open spec fn view(&self) -> AssetJobData {
        AssetJobData { url: self.url@, filename: self.filename@ }
    }
}

impl DeepView for AssetJob {
    type V = AssetJobData;

    open spec fn deep_view(&self) -> AssetJobData {
        self@
    }
}

/// The assets of one track: its audio file when it has a source URL,
/// then its lyric file when it has a lyric URL.
pub open spec fn spec_song_asset_jobs(s: SongData, n: nat) -> Seq<AssetJobData> {
    (match s.source_url {
        Some(u) => seq![AssetJobData { url: u, filename: spec_audio_filename(n, s.name, u) }],
        None => Seq::empty(),
    }) + (match s.lyric_url {
        Some(u) => seq![AssetJobData { url: u, filename: spec_lyric_filename(n, s.name) }],
        None => Seq::empty(),
    })
}

/// Plans the asset fetches of the song at valid-track position
/// `track_no`.
pub fn song_asset_jobs(song: &Song, track_no: usize) -> (r: Vec<AssetJob>)
    ensures
        r.deep_view() == spec_song_asset_jobs(song@, track_no as nat),
{
    let mut v: Vec<AssetJob> = Vec::new();
    match &song.source_url {
        Some(u) => {
            let f = audio_filename(track_no as u64, song, u.as_str());
            v.push(AssetJob { url: u.clone(), filename: f });
        },
        None => {},
    }
    match &song.lyric_url {
        Some(u) => {
            let f = lyric_filename(track_no as u64, song);
            v.push(AssetJob { url: u.clone(), filename: f });
        },
        None => {},
    }
    proof {
        assert(v.deep_view() =~= spec_song_asset_jobs(song@, track_no as nat));
    }
    v
}

/// The cover assets of one album: the primary cover when it has a
/// cover URL, then the alternate (detail) cover when it has one.
pub open spec fn spec_cover_jobs(a: AlbumData) -> Seq<AssetJobData> {
    (match a.cover_url {
        Some(u) => seq![AssetJobData { url: u, filename: spec_cover_filename(u) }],
        None => Seq::empty(),
    }) + (match a.cover_de_url {
        Some(u) => seq![AssetJobData { url: u, filename: spec_detail_cover_filename(u) }],
        None => Seq::empty(),
    })
}

/// Plans the cover fetches of one album.
pub fn cover_jobs(album: &Album) -> (r: Vec<AssetJob>)
    ensures
        r.deep_view() == spec_cover_jobs(album@),
{
    let mut v: Vec<AssetJob> = Vec::new();
    match &album.cover_url {
        Some(u) => {
            let f = cover_filename(u.as_str());
            v.push(AssetJob { url: u.clone(), filename: f });
        },
        None => {},
    }
    match &album.cover_de_url {
        Some(u) => {
            let f = detail_cover_filename(u.as_str());
            v.push(AssetJob { url: u.clone(), filename: f });
        },
        None => {},
    }
    proof {
        assert(v.deep_view() =~= spec_cover_jobs(album@));
    }
    v
}

// ------------------------------------------------------------------
// Per-song enrichment and the status check.
// ------------------------------------------------------------------

/// What asking the catalog for one song's detail record can come to.
pub enum SongFetchOutcome {
    /// The catalog returned the detailed record.
    Found(Song),
    /// The catalog does not know the song.
    NotFound,
    /// The call itself failed.
    FetchFailed,
}

/// The record the pipeline keeps for a song after its enrichment
/// fetch: the detailed record when the catalog returned one, else the
/// original — a missing or failed fetch never drops a track.
pub fn enriched_song(original: Song, outcome: SongFetchOutcome) -> (r: Song)
    ensures
        outcome matches SongFetchOutcome::Found(d) ==> r == d,
        !(outcome is Found) ==> r == original,
{
    match outcome {
        SongFetchOutcome::Found(d) => d,
        SongFetchOutcome::NotFound => original,
        SongFetchOutcome::FetchFailed => original,
    }
}

/// Combines a song list with its enrichment outcomes, in order: the
/// song at each position becomes the detailed record when its fetch
/// found one, and stays the original record otherwise. No song is
/// dropped and none is reordered.
pub fn apply_enrichment(originals: &Vec<Song>, outcomes: &Vec<SongFetchOutcome>) -> (r: Vec<Song>)
    requires
        originals@.len() == outcomes@.len(),
    ensures
        r@.len() == originals@.len(),
        forall|i: int|
            0 <= i < r@.len() ==> (#[trigger] r@[i])@ == (match outcomes@[i] {
                SongFetchOutcome::Found(d) => d@,
                SongFetchOutcome::NotFound => originals@[i]@,
                SongFetchOutcome::FetchFailed => originals@[i]@,
            }),
{
    let mut r: Vec<Song> = Vec::new();
    let mut i: usize = 0;
    while i < originals.len()
        invariant
            i <= originals.len(),
            originals@.len() == outcomes@.len(),
            r@.len() == i,
            forall|j: int|
                0 <= j < i ==> (#[trigger] r@[j])@ == (match outcomes@[j] {
                    SongFetchOutcome::Found(d) => d@,
                    SongFetchOutcome::NotFound => originals@[j]@,
                    SongFetchOutcome::FetchFailed => originals@[j]@,
                }),
        decreases originals.len() - i,
    {
        match &outcomes[i] {
            SongFetchOutcome::Found(d) => r.push(d.clone()),
            SongFetchOutcome::NotFound => r.push(originals[i].clone()),
            SongFetchOutcome::FetchFailed => r.push(originals[i].clone()),
        }
        i = i + 1;
    }
    r
}

/// Whether an HTTP status code reports success.
pub open spec fn spec_status_ok(status: u16) -> bool {
    200 <= status < 300
}

/// The message of the error a failed download raises.
pub open spec fn spec_download_error_msg(status: u16, url: Seq<char>) -> Seq<char> {
    "HTTP status "@ + spec_dec(status as nat) + " for "@ + url
}

/// Judges the HTTP status of a download response: any non-2xx status
/// is a download failure, surfaced and never retried.
pub fn check_download_status(status: u16, url: &str) -> (r: Result<(), Error>)
    ensures
        r is Ok <==> spec_status_ok(status),
        !spec_status_ok(status) ==> (r matches Err(e) && e matches Error::Download(m) && m@
            == spec_download_error_msg(status, url@)),
{
    if 200 <= status && status < 300 {
        Ok(())
    } else {
        let mut m = String::new();
        m.append("HTTP status ");
        let d = dec_string(status as u64);
        m.append(d.as_str());
        m.append(" for ");
        m.append(url);
        Err(Error::Download(m))
    }
}

// ------------------------------------------------------------------
// Locating an already-downloaded cover.
// ------------------------------------------------------------------

/// Whether `p` is one of the four cover files the tagger looks for
/// inside the album directory `dir`.
pub open spec fn spec_is_cover_candidate(dir: Seq<char>, p: Seq<char>) -> bool {
    ||| p == dir + "/Album Cover.jpg"@
    ||| p == dir + "/Album Cover.png"@
    ||| p == dir + "/Cover.jpg"@
    ||| p == dir + "/Cover.png"@
}

/// Selects the cover file to embed from the four known candidate
/// names, given for each whether it is present: the first present
/// name in the fixed priority order wins, and with none present there
/// is no cover.
pub fn choose_cover(
    dir: &str,
    album_cover_jpg: bool,
    album_cover_png: bool,
    cover_jpg: bool,
    cover_png: bool,
) -> (r: Option<String>)
    ensures
        r is Some <==> (album_cover_jpg || album_cover_png || cover_jpg || cover_png),
        album_cover_jpg ==> (r matches Some(p) && p@ == dir@ + "/Album Cover.jpg"@),
        !album_cover_jpg && album_cover_png ==> (r matches Some(p) && p@ == dir@
            + "/Album Cover.png"@),
        !album_cover_jpg && !album_cover_png && cover_jpg ==> (r matches Some(p) && p@ == dir@
            + "/Cover.jpg"@),
        !album_cover_jpg && !album_cover_png && !cover_jpg && cover_png ==> (r matches Some(p)
            && p@ == dir@ + "/Cover.png"@),
        r matches Some(p) ==> spec_is_cover_candidate(dir@, p@),
{
    if album_cover_jpg {
        let mut c = dir.to_owned();
        c.append("/Album Cover.jpg");
        Some(c)
    } else if album_cover_png {
        let mut c = dir.to_owned();
        c.append("/Album Cover.png");
        Some(c)
    } else if cover_jpg {
        let mut c = dir.to_owned();
        c.append("/Cover.jpg");
        Some(c)
    } else if cover_png {
        let mut c = dir.to_owned();
        c.append("/Cover.png");
        Some(c)
    } else {
        None
    }
}

/// Looks inside the album directory for a cover image to embed: probes
/// the four known cover names and hands the answers to `choose_cover`,
/// which picks the first present one. The probes' answers depend on
/// the disk, so of the result only this much is promised: a found
/// path is one of the four candidates.
pub fn find_album_cover(album_dir: &str) -> (r: Option<String>)
    ensures
        r matches Some(p) ==> spec_is_cover_candidate(album_dir@, p@),
{
    let mut c1 = album_dir.to_owned();
    c1.append("/Album Cover.jpg");
    let mut c2 = album_dir.to_owned();
    c2.append("/Album Cover.png");
    let mut c3 = album_dir.to_owned();
    c3.append("/Cover.jpg");
    let mut c4 = album_dir.to_owned();
    c4.append("/Cover.png");
    choose_cover(
        album_dir,
        file_exists(c1.as_str()),
        file_exists(c2.as_str()),
        file_exists(c3.as_str()),
        file_exists(c4.as_str()),
    )
}

/// Whether the info sidecar is to be written: only when no file
/// stands under its name yet. An existing sidecar is never
/// overwritten and never merged, so a re-run writes nothing.
pub fn should_write_sidecar(sidecar_exists: bool) -> (r: bool)
    ensures
        r == !sidecar_exists,
{
    !sidecar_exists
}

} // verus!
