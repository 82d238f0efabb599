use goes_arch::accumulate::{Accumulator, PathKind};
use goes_arch::archive::Archive;
use goes_arch::bucket::route_bucket_at;
use goes_arch::download::{file_job, BucketDownload, FileOutcome};
use goes_arch::error::GoesArchError;
use goes_arch::jobs::PipelineJob;
use goes_arch::listing::DirEntry;
use goes_arch::product::Product;
use goes_arch::remote::RemoteArchive;
use goes_arch::satellite::Satellite;
use goes_arch::save::{saved_job, SaveOutcome};
use goes_arch::timestamp::Timestamp;
use std::collections::{BTreeMap, BTreeSet};
use std::sync::atomic::{AtomicUsize, Ordering};
use std::sync::Arc;

const HOUR: i64 = 3_600;
const T0: i64 = 1_621_252_800;
const DIR_12: &str = "/data/G16/ABI-L2-FDCF/2021/137/12";
const DIR_13: &str = "/data/G16/ABI-L2-FDCF/2021/137/13";
const MARKER: &str = "hour_complete.txt";

fn stamp(secs: i64) -> Timestamp {
    Timestamp::from_seconds(secs).unwrap()
}

/// A remote that serves a fixed set of files per hour and counts its calls.
#[derive(Clone)]
struct FakeRemote {
    files: BTreeMap<i64, Vec<String>>,
    failing_listings: BTreeSet<i64>,
    failing_files: BTreeSet<String>,
    listings: Arc<AtomicUsize>,
    fetches: Arc<AtomicUsize>,
}

impl FakeRemote {
    fn new() -> Self {
        FakeRemote {
            files: BTreeMap::new(),
            failing_listings: BTreeSet::new(),
            failing_files: BTreeSet::new(),
            listings: Arc::new(AtomicUsize::new(0)),
            fetches: Arc::new(AtomicUsize::new(0)),
        }
    }

    fn with_hour(mut self, hour: i64, names: &[&str]) -> Self {
        self.files.insert(hour, names.iter().map(|n| n.to_string()).collect());
        self
    }

    fn calls(&self) -> usize {
        self.listings.load(Ordering::SeqCst) + self.fetches.load(Ordering::SeqCst)
    }
}

impl RemoteArchive for FakeRemote {
    fn connect() -> Result<Self, GoesArchError> {
        Ok(FakeRemote::new())
    }

    fn retrieve_remote_filenames(
        &self,
        _sat: Satellite,
        _prod: Product,
        valid_hour: Timestamp,
    ) -> Result<Vec<String>, GoesArchError> {
        self.listings.fetch_add(1, Ordering::SeqCst);
        if self.failing_listings.contains(&valid_hour.seconds()) {
            return Err(GoesArchError::new("listing failed"));
        }
        Ok(self.files.get(&valid_hour.seconds()).cloned().unwrap_or_default())
    }

    fn retrieve_remote_file(
        &self,
        _sat: Satellite,
        _prod: Product,
        valid_hour: Timestamp,
        remote_path: &str,
    ) -> Result<Vec<u8>, GoesArchError> {
        self.fetches.fetch_add(1, Ordering::SeqCst);
        if self.failing_files.contains(remote_path) {
            return Err(GoesArchError::new("fetch failed"));
        }
        Ok(format!("{}@{}", remote_path, valid_hour.seconds()).into_bytes())
    }
}

/// A directory tree in memory: each directory maps names to file contents,
/// or to `None` for a subdirectory.
#[derive(Default)]
struct Tree {
    dirs: BTreeMap<String, BTreeMap<String, Option<Vec<u8>>>>,
    read_only: BTreeSet<String>,
}

fn split(path: &str) -> (String, String) {
    let at = path.rfind('/').unwrap();
    (path[..at].to_string(), path[at + 1..].to_string())
}

impl Tree {
    fn with_files(mut self, dir: &str, names: &[&str]) -> Self {
        let entries = self.dirs.entry(dir.to_string()).or_default();
        for name in names {
            entries.insert(name.to_string(), Some(b"old".to_vec()));
        }
        self
    }

    fn with_subdir(mut self, dir: &str, name: &str) -> Self {
        self.dirs.entry(dir.to_string()).or_default().insert(name.to_string(), None);
        self
    }

    fn listing(&self, dir: &str) -> Option<Vec<DirEntry>> {
        self.dirs.get(dir).map(|entries| {
            entries
                .iter()
                .map(|(name, content)| DirEntry { name: name.clone(), is_dir: content.is_none() })
                .collect()
        })
    }

    fn has_path(&self, path: &str) -> bool {
        let (dir, name) = split(path);
        self.dirs.get(&dir).map(|entries| entries.contains_key(&name)).unwrap_or(false)
    }

    fn content(&self, path: &str) -> Option<Vec<u8>> {
        let (dir, name) = split(path);
        self.dirs.get(&dir).and_then(|entries| entries.get(&name).cloned().flatten())
    }

    fn names(&self, dir: &str) -> Vec<String> {
        self.dirs.get(dir).map(|entries| entries.keys().cloned().collect()).unwrap_or_default()
    }

    fn save(&mut self, path: &str, bytes: Vec<u8>) -> SaveOutcome {
        let (dir, name) = split(path);
        if self.read_only.contains(&name) {
            return SaveOutcome::CreateFailed;
        }
        match self.dirs.get_mut(&dir) {
            Some(entries) => {
                entries.insert(name, Some(bytes));
                SaveOutcome::Written
            }
            None => SaveOutcome::CreateFailed,
        }
    }

    fn kind(&self, path: &str) -> PathKind {
        match self.listing(path) {
            Some(entries) => PathKind::Directory { entries },
            None => PathKind::File,
        }
    }
}

/// Runs the stages one after the other on the tree, as a caller of the
/// library drives them, with the clock held at `now`.
fn retrieve(
    archive: &Archive<FakeRemote>,
    tree: &mut Tree,
    prod: Product,
    start: i64,
    end: i64,
    now: i64,
) -> Result<Vec<String>, String> {
    let sat = Satellite::GOES16;
    let now = stamp(now);
    let mut walk = match archive.retrieve_paths(sat, prod, stamp(start), stamp(end)) {
        Ok(walk) => walk,
        Err(err) => return Err(err.message()),
    };
    let mut to_download: Vec<(String, Timestamp)> = vec![];
    let mut to_save: Vec<(String, Vec<u8>)> = vec![];
    let mut ready: Vec<String> = vec![];
    let mut sort = |job: PipelineJob,
                    to_download: &mut Vec<(String, Timestamp)>,
                    to_save: &mut Vec<(String, Vec<u8>)>| {
        match job {
            PipelineJob::BucketToCheck { dir, hour } => to_download.push((dir, hour)),
            PipelineJob::SaveRequest { path, bytes } => to_save.push((path, bytes)),
            PipelineJob::PathReady { path } => ready.push(path),
        }
    };
    while let Some(bucket) = walk.next_bucket() {
        let listing = tree.listing(&bucket.dir);
        let routing = route_bucket_at(bucket.dir.clone(), bucket.hour, listing.as_ref(), prod, now);
        if routing.create_dir {
            tree.dirs.insert(bucket.dir, BTreeMap::new());
        }
        if let Some(marker) = routing.marker {
            sort(marker, &mut to_download, &mut to_save);
        }
        sort(routing.forward, &mut to_download, &mut to_save);
    }
    let buckets: Vec<(String, Timestamp)> = to_download.drain(..).collect();
    for (dir, hour) in buckets {
        let mut download = match BucketDownload::begin(archive.remote(), sat, prod, dir, hour) {
            Some(download) => download,
            None => continue,
        };
        while let Some(path) = download.pending_path() {
            let present = tree.has_path(&path);
            if let Some(job) = download.step(archive.remote(), sat, prod, present) {
                sort(job, &mut to_download, &mut to_save);
            }
        }
        if let Some(marker) = download.completion_at(now) {
            sort(marker, &mut to_download, &mut to_save);
        }
    }
    assert!(to_download.is_empty());
    for (path, bytes) in to_save {
        let outcome = tree.save(&path, bytes);
        if let Some(job) = saved_job(path, outcome) {
            match job {
                PipelineJob::PathReady { path } => ready.push(path),
                other => panic!("the save stage only reports paths: {:?}", other),
            }
        }
    }
    let mut acc = Accumulator::new();
    for path in ready {
        let kind = tree.kind(&path);
        acc.accept(path, kind);
    }
    Ok(acc.into_paths())
}

fn sorted(mut paths: Vec<String>) -> Vec<String> {
    paths.sort();
    paths
}

fn in_dir(dir: &str, names: &[&str]) -> Vec<String> {
    sorted(names.iter().map(|n| format!("{}/{}", dir, n)).collect())
}

const LATER: i64 = T0 + 30 * 86_400;

#[test]
fn prepopulated_full_bucket_is_marked_without_remote_calls() {
    let names = ["a.nc", "b.nc", "c.nc", "d.nc", "e.nc", "f.nc"];
    let remote = FakeRemote::new().with_hour(T0, &["remote.nc"]);
    let archive = Archive::connect("/data", remote.clone());
    let mut tree = Tree::default().with_files(DIR_12, &names);
    let paths = retrieve(&archive, &mut tree, Product::FDCF, T0, T0, LATER).unwrap();
    assert_eq!(sorted(paths), in_dir(DIR_12, &names));
    assert_eq!(remote.calls(), 0);
    assert!(tree.has_path(&format!("{}/{}", DIR_12, MARKER)));
    assert_eq!(
        tree.content(&format!("{}/{}", DIR_12, MARKER)).unwrap(),
        b"2021-06-16 12:00:00\n".to_vec()
    );
}

#[test]
fn empty_bucket_is_downloaded_and_marked() {
    let names = ["x.nc", "y.nc", "z.nc"];
    let remote = FakeRemote::new().with_hour(T0, &names);
    let archive = Archive::connect("/data", remote.clone());
    let mut tree = Tree::default();
    let paths = retrieve(&archive, &mut tree, Product::FDCF, T0, T0, LATER).unwrap();
    assert_eq!(sorted(paths), in_dir(DIR_12, &names));
    assert_eq!(remote.listings.load(Ordering::SeqCst), 1);
    assert_eq!(remote.fetches.load(Ordering::SeqCst), 3);
    assert_eq!(tree.names(DIR_12), vec![MARKER, "x.nc", "y.nc", "z.nc"]);
    assert_eq!(tree.content(&format!("{}/x.nc", DIR_12)).unwrap(), format!("x.nc@{}", T0).into_bytes());
}

#[test]
fn second_retrieval_of_a_downloaded_range_makes_no_remote_call() {
    let remote = FakeRemote::new()
        .with_hour(T0, &["a.nc", "b.nc"])
        .with_hour(T0 + HOUR, &["c.nc"]);
    let archive = Archive::connect("/data", remote.clone());
    let mut tree = Tree::default();
    let first = retrieve(&archive, &mut tree, Product::FDCF, T0, T0 + HOUR, LATER).unwrap();
    let calls_after_first = remote.calls();
    assert_eq!(calls_after_first, 2 + 3);
    let second = retrieve(&archive, &mut tree, Product::FDCF, T0, T0 + HOUR, LATER + 5).unwrap();
    assert_eq!(remote.calls(), calls_after_first);
    assert_eq!(sorted(first.clone()), sorted(second));
    let mut expected = in_dir(DIR_12, &["a.nc", "b.nc"]);
    expected.extend(in_dir(DIR_13, &["c.nc"]));
    assert_eq!(sorted(first), sorted(expected));
}

#[test]
fn marked_bucket_is_never_downloaded_again_even_when_emptied() {
    let remote = FakeRemote::new().with_hour(T0, &["a.nc", "b.nc"]);
    let archive = Archive::connect("/data", remote.clone());
    let mut tree = Tree::default().with_files(DIR_12, &[MARKER]);
    let paths = retrieve(&archive, &mut tree, Product::FDCF, T0, T0, LATER).unwrap();
    assert_eq!(paths, Vec::<String>::new());
    assert_eq!(remote.calls(), 0);
    assert_eq!(tree.names(DIR_12), vec![MARKER]);
    assert_eq!(tree.content(&format!("{}/{}", DIR_12, MARKER)).unwrap(), b"old".to_vec());
    // Once the marker is removed from outside, the bucket is fetched again.
    tree.dirs.get_mut(DIR_12).unwrap().remove(MARKER);
    let paths = retrieve(&archive, &mut tree, Product::FDCF, T0, T0, LATER).unwrap();
    assert_eq!(sorted(paths), in_dir(DIR_12, &["a.nc", "b.nc"]));
    assert_eq!(remote.calls(), 3);
}

#[test]
fn one_failed_fetch_does_not_stop_the_others() {
    let names = ["a.nc", "b.nc", "c.nc", "d.nc", "e.nc"];
    let mut remote = FakeRemote::new().with_hour(T0, &names);
    remote.failing_files.insert("c.nc".to_string());
    let archive = Archive::connect("/data", remote.clone());
    let mut tree = Tree::default();
    // The hour is within a day of the clock, so the bucket stays unmarked.
    let now = T0 + 2 * HOUR;
    let paths = retrieve(&archive, &mut tree, Product::FDCF, T0, T0, now).unwrap();
    assert_eq!(sorted(paths), in_dir(DIR_12, &["a.nc", "b.nc", "d.nc", "e.nc"]));
    assert_eq!(remote.fetches.load(Ordering::SeqCst), 5);
    assert_eq!(tree.names(DIR_12), vec!["a.nc", "b.nc", "d.nc", "e.nc"]);
    assert!(!tree.has_path(&format!("{}/{}", DIR_12, MARKER)));
    // The next retrieval asks only for the file that is still missing.
    let mut healed = remote.clone();
    healed.failing_files.clear();
    let archive = Archive::connect("/data", healed.clone());
    let paths = retrieve(&archive, &mut tree, Product::FDCF, T0, T0, now).unwrap();
    assert_eq!(sorted(paths), in_dir(DIR_12, &names));
    assert_eq!(healed.fetches.load(Ordering::SeqCst), 6);
}

#[test]
fn stale_bucket_is_marked_after_its_names_are_dealt_with() {
    let mut remote = FakeRemote::new().with_hour(T0, &["a.nc", "b.nc"]);
    remote.failing_files.insert("b.nc".to_string());
    let archive = Archive::connect("/data", remote.clone());
    let mut tree = Tree::default();
    let paths = retrieve(&archive, &mut tree, Product::FDCF, T0, T0, LATER).unwrap();
    assert_eq!(paths, in_dir(DIR_12, &["a.nc"]));
    assert_eq!(tree.names(DIR_12), vec!["a.nc", MARKER]);
}

#[test]
fn failed_listing_abandons_only_its_bucket() {
    let mut remote = FakeRemote::new()
        .with_hour(T0, &["a.nc"])
        .with_hour(T0 + HOUR, &["b.nc"]);
    remote.failing_listings.insert(T0 + HOUR);
    let archive = Archive::connect("/data", remote.clone());
    let mut tree = Tree::default();
    let paths = retrieve(&archive, &mut tree, Product::FDCF, T0, T0 + HOUR, LATER).unwrap();
    assert_eq!(paths, in_dir(DIR_12, &["a.nc"]));
    assert_eq!(tree.names(DIR_13), Vec::<String>::new());
    assert_eq!(tree.names(DIR_12), vec!["a.nc", MARKER]);
    assert_eq!(remote.fetches.load(Ordering::SeqCst), 1);
}

#[test]
fn files_already_on_disk_are_not_fetched() {
    let remote = FakeRemote::new().with_hour(T0, &["a.nc", "b.nc", "c.nc"]);
    let archive = Archive::connect("/data", remote.clone());
    let mut tree = Tree::default().with_files(DIR_12, &["b.nc"]);
    let paths = retrieve(&archive, &mut tree, Product::FDCF, T0, T0, LATER).unwrap();
    assert_eq!(sorted(paths), in_dir(DIR_12, &["a.nc", "b.nc", "c.nc"]));
    assert_eq!(remote.fetches.load(Ordering::SeqCst), 2);
    assert_eq!(tree.content(&format!("{}/b.nc", DIR_12)).unwrap(), b"old".to_vec());
}

#[test]
fn failed_save_leaves_the_file_out_of_the_result() {
    let remote = FakeRemote::new().with_hour(T0, &["a.nc", "b.nc"]);
    let archive = Archive::connect("/data", remote.clone());
    let mut tree = Tree::default();
    tree.read_only.insert("a.nc".to_string());
    let paths = retrieve(&archive, &mut tree, Product::FDCF, T0, T0, T0 + HOUR).unwrap();
    assert_eq!(paths, in_dir(DIR_12, &["b.nc"]));
    assert_eq!(tree.names(DIR_12), vec!["b.nc"]);
}

#[test]
fn complete_directory_contributes_only_its_data_files() {
    let remote = FakeRemote::new();
    let archive = Archive::connect("/data", remote.clone());
    let mut tree = Tree::default()
        .with_files(DIR_12, &["a.nc", "b.nc", MARKER, "notes.txt"])
        .with_subdir(DIR_12, "stray");
    let paths = retrieve(&archive, &mut tree, Product::FDCF, T0, T0, LATER).unwrap();
    assert_eq!(sorted(paths), in_dir(DIR_12, &["a.nc", "b.nc"]));
    assert_eq!(remote.calls(), 0);
}

#[test]
fn invalid_range_fails_before_any_stage_runs() {
    let remote = FakeRemote::new().with_hour(T0, &["a.nc"]);
    let archive = Archive::connect("/data", remote.clone());
    let mut tree = Tree::default();
    assert_eq!(
        retrieve(&archive, &mut tree, Product::FDCF, T0 + HOUR, T0, LATER),
        Err("Invalid satellite dates.".to_string())
    );
    assert_eq!(remote.calls(), 0);
    assert!(tree.dirs.is_empty());
}

#[test]
fn download_steps_through_the_listing_in_order() {
    let listing = Ok(vec!["a.nc".to_string(), "b.nc".to_string(), "c.nc".to_string()]);
    let mut download = BucketDownload::of_listing("/b".to_string(), stamp(T0), listing).unwrap();
    assert!(download.completion_at(stamp(LATER)).is_none());
    assert_eq!(download.pending_path().unwrap(), "/b/a.nc");
    let job = download.resolve(FileOutcome::AlreadyLocal).unwrap();
    assert!(matches!(job, PipelineJob::PathReady { path } if path == "/b/a.nc"));
    assert_eq!(download.pending_path().unwrap(), "/b/b.nc");
    assert!(download.resolve(FileOutcome::FetchFailed).is_none());
    assert_eq!(download.pending_path().unwrap(), "/b/c.nc");
    let job = download.resolve(FileOutcome::Fetched { bytes: vec![1, 2] }).unwrap();
    assert!(matches!(job, PipelineJob::SaveRequest { path, bytes } if path == "/b/c.nc" && bytes == vec![1, 2]));
    assert!(download.pending_path().is_none());
    assert!(download.resolve(FileOutcome::AlreadyLocal).is_none());
    assert!(download.pending_path().is_none());
    let marker = download.completion_at(stamp(LATER)).unwrap();
    assert!(matches!(marker, PipelineJob::SaveRequest { path, bytes }
        if path == "/b/hour_complete.txt" && bytes == b"2021-06-16 12:00:00\n".to_vec()));
    assert!(download.completion_at(stamp(T0 + 86_400)).is_none());
    assert!(download.completion_at(stamp(T0 + 86_401)).is_some());
}

#[test]
fn download_of_a_failed_listing_does_not_start() {
    let failed = Err(GoesArchError::new("no listing"));
    assert!(BucketDownload::of_listing("/b".to_string(), stamp(T0), failed).is_none());
    let empty = BucketDownload::of_listing("/b".to_string(), stamp(T0), Ok(vec![])).unwrap();
    assert!(empty.pending_path().is_none());
    assert!(empty.completion_at(stamp(LATER)).is_some());
}

#[test]
fn download_completion_by_the_system_clock_obeys_the_threshold() {
    let now = Timestamp::now().unwrap();
    let recent = BucketDownload::of_listing("/b".to_string(), now.hours_before(2).unwrap(), Ok(vec![]))
        .unwrap();
    assert!(recent.completion().is_none());
    let old = BucketDownload::of_listing("/b".to_string(), stamp(T0), Ok(vec![])).unwrap();
    let marker = old.completion().unwrap();
    assert!(matches!(marker, PipelineJob::SaveRequest { path, .. } if path == "/b/hour_complete.txt"));
    let unfinished =
        BucketDownload::of_listing("/b".to_string(), stamp(T0), Ok(vec!["a.nc".to_string()])).unwrap();
    assert!(unfinished.completion().is_none());
}

#[test]
fn file_job_follows_the_outcome() {
    let job = file_job("/b/a.nc".to_string(), FileOutcome::AlreadyLocal).unwrap();
    assert!(matches!(job, PipelineJob::PathReady { path } if path == "/b/a.nc"));
    let job = file_job("/b/a.nc".to_string(), FileOutcome::Fetched { bytes: vec![9] }).unwrap();
    assert!(matches!(job, PipelineJob::SaveRequest { path, bytes } if path == "/b/a.nc" && bytes == vec![9]));
    assert!(file_job("/b/a.nc".to_string(), FileOutcome::FetchFailed).is_none());
}

#[test]
fn remote_is_asked_for_the_bucket_s_own_hour() {
    let remote = FakeRemote::new().with_hour(T0, &["a.nc"]).with_hour(T0 + HOUR, &["b.nc"]);
    let mut download =
        BucketDownload::begin(&remote, Satellite::GOES16, Product::FDCF, "/b".to_string(), stamp(T0 + HOUR))
            .unwrap();
    assert_eq!(download.pending_path().unwrap(), "/b/b.nc");
    let job = download.step(&remote, Satellite::GOES16, Product::FDCF, false).unwrap();
    assert!(matches!(job, PipelineJob::SaveRequest { path, bytes }
        if path == "/b/b.nc" && bytes == format!("b.nc@{}", T0 + HOUR).into_bytes()));
    assert!(download.step(&remote, Satellite::GOES16, Product::FDCF, false).is_none());
    assert_eq!(remote.fetches.load(Ordering::SeqCst), 1);
}
