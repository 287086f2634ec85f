use icon_cache::check::check_icon;
use icon_cache::fetch::ActiveFetches;
use icon_cache::get::get_icon;
use icon_cache::protocol::{Action, Event, FileStat, IconResponse, Lookup};
use icon_cache::request::{AssetIconCheck, AssetIconRequest};
use icon_cache::status::IconStatus;
use std::collections::{HashMap, HashSet};

/// XDAI belongs to the DAI collection, so its own path and its collection
/// path differ.
const TEST_ASSET: &str = "XDAI";
const TEST_COLLECTION: &str = "eip155:1/erc20:0x6B175474E89094C44Da98b954EedeAC495271d0F";
const OWN_ICON_FILENAME: &str = "XDAI_small.png";
const COLLECTION_ICON_FILENAME: &str =
    "eip155%3A1%2Ferc20%3A0x6B175474E89094C44Da98b954EedeAC495271d0F_small.png";
const HOUR: u64 = 3600;

struct CachedFile {
    bytes: Vec<u8>,
    age_secs: Option<u64>,
}

/// A cache directory, a metadata store and a remote source, all in memory.
struct Bench {
    files: HashMap<String, CachedFile>,
    unreadable: HashSet<String>,
    unremovable: HashSet<String>,
    broken_reads: HashSet<String>,
    collections: HashMap<String, String>,
    underlying: HashMap<String, String>,
    store_down: bool,
    active: ActiveFetches,
    started: Vec<(String, String)>,
    removed: Vec<String>,
    trail: Vec<String>,
}

impl Bench {
    fn new() -> Bench {
        let mut collections = HashMap::new();
        collections.insert(TEST_ASSET.to_string(), TEST_COLLECTION.to_string());
        Bench {
            files: HashMap::new(),
            unreadable: HashSet::new(),
            unremovable: HashSet::new(),
            broken_reads: HashSet::new(),
            collections,
            underlying: HashMap::new(),
            store_down: false,
            active: ActiveFetches::new(),
            started: Vec::new(),
            removed: Vec::new(),
            trail: Vec::new(),
        }
    }

    fn write(&mut self, path: &str, bytes: &[u8]) {
        self.write_aged(path, bytes, Some(0));
    }

    fn write_aged(&mut self, path: &str, bytes: &[u8], age_secs: Option<u64>) {
        self.files.insert(path.to_string(), CachedFile { bytes: bytes.to_vec(), age_secs });
    }

    fn stat(&self, path: &str) -> FileStat {
        if self.unreadable.contains(path) {
            return FileStat::Unreadable;
        }
        match self.files.get(path) {
            Some(file) => FileStat::Exists { len: file.bytes.len() as u64, age_secs: file.age_secs },
            None => FileStat::Missing,
        }
    }

    fn lookup(&self, table: &HashMap<String, String>, asset_id: &str) -> Lookup {
        if self.store_down {
            return Lookup::Failed;
        }
        match table.get(asset_id) {
            Some(id) => Lookup::Known(id.clone()),
            None => Lookup::Unknown,
        }
    }

    /// Carries out one action. `Err` holds the answer for the client.
    fn perform(&mut self, action: Action) -> Result<Event, IconResponse> {
        match action {
            Action::Stat { path } => {
                self.trail.push(format!("stat {}", path));
                Ok(Event::Stat(self.stat(&path)))
            }
            Action::Remove { path } => {
                self.trail.push(format!("remove {}", path));
                if self.unremovable.contains(&path) || !self.files.contains_key(&path) {
                    Ok(Event::Removed(false))
                } else {
                    self.files.remove(&path);
                    self.removed.push(path);
                    Ok(Event::Removed(true))
                }
            }
            Action::Read { path } => {
                self.trail.push(format!("read {}", path));
                if self.broken_reads.contains(&path) {
                    return Ok(Event::Content(None));
                }
                Ok(Event::Content(self.files.get(&path).map(|file| file.bytes.clone())))
            }
            Action::FindCollection { asset_id } => {
                self.trail.push(format!("collection {}", asset_id));
                Ok(Event::Collection(self.lookup(&self.collections, &asset_id)))
            }
            Action::FindUnderlying { asset_id } => {
                self.trail.push(format!("underlying {}", asset_id));
                Ok(Event::Underlying(self.lookup(&self.underlying, &asset_id)))
            }
            Action::Fetch { asset_id, path } => {
                self.trail.push(format!("fetch {} {}", asset_id, path));
                let ticket = self.active.trigger_fetch(&asset_id);
                if ticket.spawn {
                    self.started.push((asset_id, path));
                }
                Err(IconResponse::bare(ticket.status))
            }
            Action::Reply { response } => {
                self.trail.push("reply".to_string());
                Err(response)
            }
        }
    }

    fn check(&mut self, asset_id: &str, force_refresh: Option<bool>) -> IconStatus {
        self.trail.clear();
        let request = AssetIconCheck { asset_id: asset_id.to_string(), force_refresh };
        let (mut flow, mut action) = check_icon(&request);
        loop {
            match self.perform(action) {
                Ok(event) => action = flow.advance(event),
                Err(response) => {
                    assert!(flow.is_done());
                    assert!(response.fingerprint.is_none());
                    assert!(response.body.is_none());
                    return response.status;
                }
            }
        }
    }

    fn get(&mut self, asset_id: &str, match_header: Option<String>) -> IconResponse {
        self.trail.clear();
        let request = AssetIconRequest { asset_id: asset_id.to_string(), match_header };
        let (mut flow, mut action) = get_icon(&request);
        loop {
            match self.perform(action) {
                Ok(event) => action = flow.advance(event),
                Err(response) => {
                    assert!(flow.is_done());
                    return response;
                }
            }
        }
    }

    /// Lets the remote source finish the fetch of `asset_id` without an icon:
    /// it leaves a marker at the path it was given.
    fn fail_fetch(&mut self, asset_id: &str) {
        let at: usize = self.started.iter().position(|(id, _)| id == asset_id).unwrap();
        let (id, path) = self.started.remove(at);
        self.write(&path, b"");
        let ticket_key = icon_cache::fetch::make_fetch_key(&id);
        self.active.complete_fetch(&ticket_key);
    }
}

/// Computes the MD5 hex string for given bytes, the way a client would.
fn md5_hash(data: &[u8]) -> String {
    format!("{:x}", md5::compute(data))
}

fn trail(steps: &[&str]) -> Vec<String> {
    steps.iter().map(|s| s.to_string()).collect()
}

// Reads

#[test]
fn test_get_own_present() {
    let mut bench = Bench::new();
    let own_data = b"own_icon_data";
    bench.write(OWN_ICON_FILENAME, own_data);

    let response = bench.get(TEST_ASSET, None);

    assert_eq!(response.status, IconStatus::Found);
}

#[test]
fn test_get_both_missing() {
    let mut bench = Bench::new();

    let response = bench.get(TEST_ASSET, None);

    assert_eq!(response.status, IconStatus::NotFound);
}

#[test]
fn test_get_own_takes_priority() {
    let mut bench = Bench::new();
    let own_data = b"own_icon_data";
    let collection_data = b"collection_icon_data";
    bench.write(OWN_ICON_FILENAME, own_data);
    bench.write(COLLECTION_ICON_FILENAME, collection_data);

    // Pass the own icon's MD5 as match_header. If the own icon is served,
    // the hash matches and we get NotModified, proving it took priority.
    let response = bench.get(TEST_ASSET, Some(md5_hash(own_data)));

    assert_eq!(
        response.status,
        IconStatus::NotModified,
        "Own icon should take priority over collection icon"
    );
}

#[test]
fn test_get_falls_back_to_collection() {
    let mut bench = Bench::new();
    let collection_data = b"collection_icon_data";
    bench.write(COLLECTION_ICON_FILENAME, collection_data);

    // Pass the collection icon's MD5 as match_header. If the collection icon
    // is served as fallback, the hash matches and we get NotModified.
    let response = bench.get(TEST_ASSET, Some(md5_hash(collection_data)));

    assert_eq!(response.status, IconStatus::NotModified);
}

#[test]
fn get_returns_own_bytes_and_fingerprint() {
    let mut bench = Bench::new();
    bench.write(OWN_ICON_FILENAME, b"own_icon_data");
    bench.write(COLLECTION_ICON_FILENAME, b"collection_icon_data");

    let response = bench.get(TEST_ASSET, None);

    assert_eq!(response.status, IconStatus::Found);
    assert_eq!(response.body, Some(b"own_icon_data".to_vec()));
    assert_eq!(response.fingerprint, Some(md5_hash(b"own_icon_data")));
    assert_eq!(bench.trail, trail(&["stat XDAI_small.png", "read XDAI_small.png", "reply"]));
}

#[test]
fn get_returns_collection_bytes_when_own_is_absent() {
    let mut bench = Bench::new();
    bench.write(COLLECTION_ICON_FILENAME, b"collection_icon_data");

    let response = bench.get(TEST_ASSET, None);

    assert_eq!(response.status, IconStatus::Found);
    assert_eq!(response.body, Some(b"collection_icon_data".to_vec()));
    assert_eq!(response.fingerprint, Some(md5_hash(b"collection_icon_data")));
    assert_eq!(
        bench.trail,
        vec![
            "stat XDAI_small.png".to_string(),
            "collection XDAI".to_string(),
            format!("stat {}", COLLECTION_ICON_FILENAME),
            format!("read {}", COLLECTION_ICON_FILENAME),
            "reply".to_string(),
        ]
    );
}

#[test]
fn get_with_matching_fingerprint_sends_no_body() {
    let mut bench = Bench::new();
    bench.write(OWN_ICON_FILENAME, b"abc");

    let response = bench.get(TEST_ASSET, Some("900150983cd24fb0d6963f7d28e17f72".to_string()));

    assert_eq!(response.status, IconStatus::NotModified);
    assert_eq!(response.fingerprint, Some("900150983cd24fb0d6963f7d28e17f72".to_string()));
    assert_eq!(response.body, None);
}

#[test]
fn get_with_upper_case_fingerprint_sends_no_body() {
    let mut bench = Bench::new();
    bench.write(OWN_ICON_FILENAME, b"abc");

    let response = bench.get(TEST_ASSET, Some("900150983CD24FB0D6963F7D28E17F72".to_string()));

    assert_eq!(response.status, IconStatus::NotModified);
    assert_eq!(response.body, None);
}

#[test]
fn get_with_wrong_fingerprint_sends_content() {
    let mut bench = Bench::new();
    bench.write(OWN_ICON_FILENAME, b"abc");

    let response = bench.get(TEST_ASSET, Some("wrong".to_string()));

    assert_eq!(response.status, IconStatus::Found);
    assert_eq!(response.body, Some(b"abc".to_vec()));
    assert_eq!(response.fingerprint, Some("900150983cd24fb0d6963f7d28e17f72".to_string()));
}

#[test]
fn get_with_fingerprint_of_other_content_sends_content() {
    let mut bench = Bench::new();
    bench.write(OWN_ICON_FILENAME, b"own_icon_data");

    let response = bench.get(TEST_ASSET, Some(md5_hash(b"collection_icon_data")));

    assert_eq!(response.status, IconStatus::Found);
    assert_eq!(response.body, Some(b"own_icon_data".to_vec()));
}

#[test]
fn get_never_serves_a_marker() {
    let mut bench = Bench::new();
    bench.write(OWN_ICON_FILENAME, b"");

    let response = bench.get(TEST_ASSET, None);

    assert_eq!(response.status, IconStatus::NotFound);
    assert_eq!(response.body, None);
    assert_eq!(response.fingerprint, None);
}

#[test]
fn get_skips_own_marker_and_serves_collection() {
    let mut bench = Bench::new();
    bench.write(OWN_ICON_FILENAME, b"");
    bench.write(COLLECTION_ICON_FILENAME, b"collection_icon_data");

    let response = bench.get(TEST_ASSET, None);

    assert_eq!(response.status, IconStatus::Found);
    assert_eq!(response.body, Some(b"collection_icon_data".to_vec()));
}

#[test]
fn get_without_collection_is_not_found_after_one_stat() {
    let mut bench = Bench::new();

    let response = bench.get("ETH", None);

    assert_eq!(response.status, IconStatus::NotFound);
    assert_eq!(bench.trail, trail(&["stat ETH_small.png", "collection ETH", "reply"]));
}

#[test]
fn get_treats_failed_collection_lookup_as_no_collection() {
    let mut bench = Bench::new();
    bench.write(COLLECTION_ICON_FILENAME, b"collection_icon_data");
    bench.store_down = true;

    let response = bench.get(TEST_ASSET, None);

    assert_eq!(response.status, IconStatus::NotFound);
    assert_eq!(bench.trail, trail(&["stat XDAI_small.png", "collection XDAI", "reply"]));
}

#[test]
fn get_reports_failed_read_as_internal_error() {
    let mut bench = Bench::new();
    bench.write(OWN_ICON_FILENAME, b"own_icon_data");
    bench.write(COLLECTION_ICON_FILENAME, b"collection_icon_data");
    bench.broken_reads.insert(OWN_ICON_FILENAME.to_string());

    let response = bench.get(TEST_ASSET, None);

    assert_eq!(response.status, IconStatus::InternalError);
    assert_eq!(response.body, None);
    assert_eq!(response.fingerprint, None);
}

#[test]
fn get_reports_undated_marker_as_internal_error() {
    let mut bench = Bench::new();
    bench.write_aged(OWN_ICON_FILENAME, b"", None);

    let response = bench.get(TEST_ASSET, None);

    assert_eq!(response.status, IconStatus::InternalError);
}

#[test]
fn get_treats_unreadable_path_as_not_found() {
    let mut bench = Bench::new();
    bench.unreadable.insert(OWN_ICON_FILENAME.to_string());

    let response = bench.get("ETH", None);
    assert_eq!(response.status, IconStatus::NotFound);

    let response = bench.get(TEST_ASSET, None);
    assert_eq!(response.status, IconStatus::NotFound);
}

#[test]
fn get_does_not_follow_the_underlying_asset() {
    let mut bench = Bench::new();
    bench.underlying.insert("WETH".to_string(), "ETH".to_string());
    bench.write("ETH_small.png", b"eth_icon_data");

    let response = bench.get("WETH", None);

    assert_eq!(response.status, IconStatus::NotFound);
    assert!(bench.started.is_empty());
}

#[test]
fn get_ends_with_internal_error_on_a_report_it_did_not_ask_for() {
    let request = AssetIconRequest { asset_id: TEST_ASSET.to_string(), match_header: None };
    let (mut flow, _first) = get_icon(&request);

    let action = flow.advance(Event::Removed(true));

    assert!(flow.is_done());
    match action {
        Action::Reply { response } => assert_eq!(response.status, IconStatus::InternalError),
        _ => panic!("a reply was expected"),
    }
}

// Checks

#[test]
fn test_check_own_present() {
    let mut bench = Bench::new();
    bench.write(OWN_ICON_FILENAME, b"own_icon_data");

    let status = bench.check(TEST_ASSET, None);

    assert_eq!(status, IconStatus::Found);
}

#[test]
fn test_check_falls_back_to_collection() {
    let mut bench = Bench::new();
    bench.write(COLLECTION_ICON_FILENAME, b"collection_icon_data");

    let status = bench.check(TEST_ASSET, None);

    assert_eq!(status, IconStatus::Found);
}

#[test]
fn check_of_cached_icon_touches_nothing_else() {
    let mut bench = Bench::new();
    bench.write(OWN_ICON_FILENAME, b"own_icon_data");

    let status = bench.check(TEST_ASSET, Some(false));

    assert_eq!(status, IconStatus::Found);
    assert_eq!(bench.trail, trail(&["stat XDAI_small.png", "reply"]));
    assert!(bench.started.is_empty());
}

#[test]
fn check_probes_own_then_collection_then_underlying() {
    let mut bench = Bench::new();
    bench.underlying.insert(TEST_ASSET.to_string(), "DAI".to_string());
    bench.write_aged(COLLECTION_ICON_FILENAME, b"", Some(HOUR));
    bench.write("DAI_small.png", b"dai_icon_data");

    let status = bench.check(TEST_ASSET, None);

    assert_eq!(status, IconStatus::Found);
    assert_eq!(
        bench.trail,
        vec![
            "stat XDAI_small.png".to_string(),
            "collection XDAI".to_string(),
            format!("stat {}", COLLECTION_ICON_FILENAME),
            "underlying XDAI".to_string(),
            "stat DAI_small.png".to_string(),
            "reply".to_string(),
        ]
    );
}

#[test]
fn check_of_unseen_asset_fetches_into_collection_path() {
    let mut bench = Bench::new();

    let status = bench.check(TEST_ASSET, None);

    assert_eq!(status, IconStatus::Accepted);
    assert_eq!(
        bench.started,
        vec![(TEST_ASSET.to_string(), COLLECTION_ICON_FILENAME.to_string())]
    );
}

#[test]
fn check_of_unseen_asset_without_relations_fetches_own_icon() {
    let mut bench = Bench::new();

    let status = bench.check("ETH", None);

    assert_eq!(status, IconStatus::Accepted);
    assert_eq!(bench.started, vec![("ETH".to_string(), "ETH_small.png".to_string())]);
    assert_eq!(
        bench.trail,
        trail(&[
            "stat ETH_small.png",
            "collection ETH",
            "underlying ETH",
            "fetch ETH ETH_small.png"
        ])
    );
}

#[test]
fn check_of_unseen_wrapped_asset_fetches_the_underlying_icon() {
    let mut bench = Bench::new();
    bench.underlying.insert("WETH".to_string(), "ETH".to_string());

    let status = bench.check("WETH", None);

    assert_eq!(status, IconStatus::Accepted);
    assert_eq!(bench.started, vec![("ETH".to_string(), "ETH_small.png".to_string())]);
}

#[test]
fn concurrent_checks_start_one_fetch() {
    let mut bench = Bench::new();

    for _ in 0..5 {
        assert_eq!(bench.check("ETH", None), IconStatus::Accepted);
    }

    assert_eq!(bench.started, vec![("ETH".to_string(), "ETH_small.png".to_string())]);
}

#[test]
fn checks_after_a_finished_fetch_may_fetch_again() {
    let mut bench = Bench::new();
    assert_eq!(bench.check("ETH", None), IconStatus::Accepted);
    bench.fail_fetch("ETH");
    assert!(bench.started.is_empty());
    assert!(!bench.active.is_active("ETH"));

    assert_eq!(bench.check("ETH", None), IconStatus::Accepted);

    assert_eq!(bench.started, vec![("ETH".to_string(), "ETH_small.png".to_string())]);
}

#[test]
fn marker_of_underlying_asset_holds_for_twelve_hours() {
    let mut bench = Bench::new();
    bench.underlying.insert("WETH".to_string(), "ETH".to_string());
    assert_eq!(bench.check("WETH", None), IconStatus::Accepted);
    bench.fail_fetch("ETH");

    assert_eq!(bench.check("WETH", None), IconStatus::NotFound);
    bench.write_aged("ETH_small.png", b"", Some(12 * HOUR - 1));
    assert_eq!(bench.check("WETH", None), IconStatus::NotFound);
    assert_eq!(bench.check("WETH", Some(false)), IconStatus::NotFound);
    assert!(bench.started.is_empty());
    assert!(bench.removed.is_empty());

    bench.write_aged("ETH_small.png", b"", Some(12 * HOUR));
    assert_eq!(bench.check("WETH", None), IconStatus::Accepted);
    assert_eq!(bench.removed, vec!["ETH_small.png".to_string()]);
    assert_eq!(bench.started, vec![("ETH".to_string(), "ETH_small.png".to_string())]);
}

#[test]
fn expired_marker_is_refetched_even_if_it_cannot_be_deleted() {
    let mut bench = Bench::new();
    bench.underlying.insert("WETH".to_string(), "ETH".to_string());
    bench.write_aged("ETH_small.png", b"", Some(13 * HOUR));
    bench.unremovable.insert("ETH_small.png".to_string());

    assert_eq!(bench.check("WETH", None), IconStatus::Accepted);

    assert_eq!(bench.started, vec![("ETH".to_string(), "ETH_small.png".to_string())]);
}

#[test]
fn fresh_collection_marker_passes_the_check_on() {
    let mut bench = Bench::new();
    bench.write_aged(COLLECTION_ICON_FILENAME, b"", Some(HOUR));

    let status = bench.check(TEST_ASSET, None);

    assert_eq!(status, IconStatus::Accepted);
    assert_eq!(bench.started, vec![(TEST_ASSET.to_string(), OWN_ICON_FILENAME.to_string())]);
    assert!(bench.removed.is_empty());
}

#[test]
fn expired_collection_marker_is_deleted_and_refetched() {
    let mut bench = Bench::new();
    bench.write_aged(COLLECTION_ICON_FILENAME, b"", Some(12 * HOUR));

    let status = bench.check(TEST_ASSET, None);

    assert_eq!(status, IconStatus::Accepted);
    assert_eq!(bench.removed, vec![COLLECTION_ICON_FILENAME.to_string()]);
    assert_eq!(
        bench.started,
        vec![(TEST_ASSET.to_string(), COLLECTION_ICON_FILENAME.to_string())]
    );
}

#[test]
fn own_marker_does_not_stop_a_fetch() {
    let mut bench = Bench::new();
    bench.write_aged("ETH_small.png", b"", Some(HOUR));

    let status = bench.check("ETH", None);

    assert_eq!(status, IconStatus::Accepted);
    assert_eq!(bench.started, vec![("ETH".to_string(), "ETH_small.png".to_string())]);
    assert!(bench.removed.is_empty());
}

#[test]
fn forced_refresh_deletes_cached_icon_and_fetches() {
    let mut bench = Bench::new();
    bench.write(OWN_ICON_FILENAME, b"own_icon_data");

    let status = bench.check(TEST_ASSET, Some(true));

    assert_eq!(status, IconStatus::Accepted);
    assert_eq!(bench.removed, vec![OWN_ICON_FILENAME.to_string()]);
    assert_eq!(bench.started, vec![(TEST_ASSET.to_string(), OWN_ICON_FILENAME.to_string())]);
    assert_eq!(
        bench.trail,
        trail(&["stat XDAI_small.png", "remove XDAI_small.png", "fetch XDAI XDAI_small.png"])
    );
}

#[test]
fn forced_refresh_fails_where_the_file_cannot_be_deleted() {
    let mut bench = Bench::new();
    bench.write(OWN_ICON_FILENAME, b"own_icon_data");
    bench.unremovable.insert(OWN_ICON_FILENAME.to_string());

    let status = bench.check(TEST_ASSET, Some(true));

    assert_eq!(status, IconStatus::InternalError);
    assert!(bench.started.is_empty());
    assert!(bench.files.contains_key(OWN_ICON_FILENAME));
}

#[test]
fn forced_refresh_ignores_the_age_of_a_marker() {
    let mut bench = Bench::new();
    bench.underlying.insert("WETH".to_string(), "ETH".to_string());
    bench.write_aged("ETH_small.png", b"", Some(1));

    let status = bench.check("WETH", Some(true));

    assert_eq!(status, IconStatus::Accepted);
    assert_eq!(bench.removed, vec!["ETH_small.png".to_string()]);
    assert_eq!(bench.started, vec![("ETH".to_string(), "ETH_small.png".to_string())]);
}

#[test]
fn forced_refresh_of_collection_icon() {
    let mut bench = Bench::new();
    bench.write(COLLECTION_ICON_FILENAME, b"collection_icon_data");

    let status = bench.check(TEST_ASSET, Some(true));

    assert_eq!(status, IconStatus::Accepted);
    assert_eq!(bench.removed, vec![COLLECTION_ICON_FILENAME.to_string()]);
    assert_eq!(
        bench.started,
        vec![(TEST_ASSET.to_string(), COLLECTION_ICON_FILENAME.to_string())]
    );
}

#[test]
fn undated_marker_is_an_internal_error() {
    let mut bench = Bench::new();
    bench.write_aged(COLLECTION_ICON_FILENAME, b"", None);

    assert_eq!(bench.check(TEST_ASSET, None), IconStatus::InternalError);
    assert_eq!(bench.check(TEST_ASSET, Some(true)), IconStatus::InternalError);
    assert!(bench.started.is_empty());
}

#[test]
fn unreadable_underlying_path_is_not_found() {
    let mut bench = Bench::new();
    bench.underlying.insert("WETH".to_string(), "ETH".to_string());
    bench.unreadable.insert("ETH_small.png".to_string());

    let status = bench.check("WETH", None);

    assert_eq!(status, IconStatus::NotFound);
    assert!(bench.started.is_empty());
}

#[test]
fn unreadable_collection_path_passes_the_check_on() {
    let mut bench = Bench::new();
    bench.unreadable.insert(COLLECTION_ICON_FILENAME.to_string());

    let status = bench.check(TEST_ASSET, None);

    assert_eq!(status, IconStatus::Accepted);
    assert_eq!(bench.started, vec![(TEST_ASSET.to_string(), OWN_ICON_FILENAME.to_string())]);
}

#[test]
fn failed_lookups_count_as_no_relation() {
    let mut bench = Bench::new();
    bench.underlying.insert(TEST_ASSET.to_string(), "DAI".to_string());
    bench.write(COLLECTION_ICON_FILENAME, b"collection_icon_data");
    bench.write("DAI_small.png", b"dai_icon_data");
    bench.store_down = true;

    let status = bench.check(TEST_ASSET, None);

    assert_eq!(status, IconStatus::Accepted);
    assert_eq!(bench.started, vec![(TEST_ASSET.to_string(), OWN_ICON_FILENAME.to_string())]);
    assert_eq!(
        bench.trail,
        trail(&[
            "stat XDAI_small.png",
            "collection XDAI",
            "underlying XDAI",
            "fetch XDAI XDAI_small.png"
        ])
    );
}

#[test]
fn collection_that_is_the_asset_itself_is_skipped() {
    let mut bench = Bench::new();
    bench.collections.insert("DAI".to_string(), "DAI".to_string());

    let status = bench.check("DAI", None);

    assert_eq!(status, IconStatus::Accepted);
    assert_eq!(
        bench.trail,
        trail(&[
            "stat DAI_small.png",
            "collection DAI",
            "underlying DAI",
            "fetch DAI DAI_small.png"
        ])
    );
}

#[test]
fn check_ends_with_internal_error_on_a_report_it_did_not_ask_for() {
    let request = AssetIconCheck { asset_id: TEST_ASSET.to_string(), force_refresh: None };
    let (mut flow, _first) = check_icon(&request);

    let action = flow.advance(Event::Content(Some(vec![1, 2, 3])));

    assert!(flow.is_done());
    match action {
        Action::Reply { response } => assert_eq!(response.status, IconStatus::InternalError),
        _ => panic!("a reply was expected"),
    }
}

#[test]
fn check_that_is_over_stays_over() {
    let request = AssetIconCheck { asset_id: TEST_ASSET.to_string(), force_refresh: None };
    let (mut flow, _first) = check_icon(&request);
    let _ = flow.advance(Event::Stat(FileStat::Exists { len: 3, age_secs: Some(0) }));
    assert!(flow.is_done());

    let action = flow.advance(Event::Stat(FileStat::Missing));

    assert!(flow.is_done());
    match action {
        Action::Reply { response } => assert_eq!(response.status, IconStatus::InternalError),
        _ => panic!("a reply was expected"),
    }
}

#[test]
fn first_action_inspects_the_own_path() {
    let request = AssetIconCheck { asset_id: TEST_ASSET.to_string(), force_refresh: None };
    let (flow, first) = check_icon(&request);

    assert!(!flow.is_done());
    assert_eq!(first, Action::Stat { path: OWN_ICON_FILENAME.to_string() });
}

#[test]
fn check_step_by_step() {
    let request = AssetIconCheck { asset_id: TEST_ASSET.to_string(), force_refresh: None };
    let (mut flow, _first) = check_icon(&request);

    let action = flow.advance(Event::Stat(FileStat::Missing));
    assert_eq!(action, Action::FindCollection { asset_id: TEST_ASSET.to_string() });

    let action = flow.advance(Event::Collection(Lookup::Known(TEST_COLLECTION.to_string())));
    assert_eq!(action, Action::Stat { path: COLLECTION_ICON_FILENAME.to_string() });

    let action = flow.advance(Event::Stat(FileStat::Exists { len: 0, age_secs: Some(12 * HOUR - 1) }));
    assert_eq!(action, Action::FindUnderlying { asset_id: TEST_ASSET.to_string() });

    let action = flow.advance(Event::Underlying(Lookup::Known("DAI".to_string())));
    assert_eq!(action, Action::Stat { path: "DAI_small.png".to_string() });

    let action = flow.advance(Event::Stat(FileStat::Exists { len: 0, age_secs: Some(12 * HOUR) }));
    assert_eq!(action, Action::Remove { path: "DAI_small.png".to_string() });
    assert!(!flow.is_done());

    let action = flow.advance(Event::Removed(false));
    assert_eq!(
        action,
        Action::Fetch { asset_id: "DAI".to_string(), path: "DAI_small.png".to_string() }
    );
    assert!(flow.is_done());
}

#[test]
fn get_step_by_step() {
    let request = AssetIconRequest {
        asset_id: TEST_ASSET.to_string(),
        match_header: Some("900150983CD24FB0D6963F7D28E17F72".to_string()),
    };
    let (mut flow, first) = get_icon(&request);
    assert_eq!(first, Action::Stat { path: OWN_ICON_FILENAME.to_string() });

    let action = flow.advance(Event::Stat(FileStat::Exists { len: 0, age_secs: Some(5) }));
    assert_eq!(action, Action::FindCollection { asset_id: TEST_ASSET.to_string() });

    let action = flow.advance(Event::Collection(Lookup::Known(TEST_COLLECTION.to_string())));
    assert_eq!(action, Action::Stat { path: COLLECTION_ICON_FILENAME.to_string() });

    let action = flow.advance(Event::Stat(FileStat::Exists { len: 3, age_secs: None }));
    assert_eq!(action, Action::Read { path: COLLECTION_ICON_FILENAME.to_string() });
    assert!(!flow.is_done());

    let action = flow.advance(Event::Content(Some(b"abc".to_vec())));
    assert_eq!(
        action,
        Action::Reply {
            response: IconResponse {
                status: IconStatus::NotModified,
                fingerprint: Some("900150983cd24fb0d6963f7d28e17f72".to_string()),
                body: None,
            }
        }
    );
    assert!(flow.is_done());
}

#[test]
fn get_falls_back_when_the_own_file_turns_out_empty() {
    let request = AssetIconRequest { asset_id: TEST_ASSET.to_string(), match_header: None };
    let (mut flow, _first) = get_icon(&request);

    let action = flow.advance(Event::Stat(FileStat::Exists { len: 3, age_secs: Some(0) }));
    assert_eq!(action, Action::Read { path: OWN_ICON_FILENAME.to_string() });

    let action = flow.advance(Event::Content(Some(Vec::new())));
    assert_eq!(action, Action::FindCollection { asset_id: TEST_ASSET.to_string() });

    let action = flow.advance(Event::Collection(Lookup::Unknown));
    assert_eq!(action, Action::Reply { response: IconResponse::bare(IconStatus::NotFound) });
}

#[test]
fn forced_refresh_deletes_a_marker_at_the_own_path() {
    let mut bench = Bench::new();
    bench.write_aged("ETH_small.png", b"", Some(HOUR));

    let status = bench.check("ETH", Some(true));

    assert_eq!(status, IconStatus::Accepted);
    assert_eq!(bench.removed, vec!["ETH_small.png".to_string()]);
    assert!(!bench.files.contains_key("ETH_small.png"));
    assert_eq!(bench.started, vec![("ETH".to_string(), "ETH_small.png".to_string())]);
    assert_eq!(
        bench.trail,
        trail(&[
            "stat ETH_small.png",
            "remove ETH_small.png",
            "collection ETH",
            "underlying ETH",
            "fetch ETH ETH_small.png"
        ])
    );
}

#[test]
fn forced_refresh_deletes_an_own_marker_of_any_age() {
    for age in [0, 1, 12 * HOUR - 1, 12 * HOUR, 100 * HOUR] {
        let mut bench = Bench::new();
        bench.write_aged("ETH_small.png", b"", Some(age));

        let status = bench.check("ETH", Some(true));

        assert_eq!(status, IconStatus::Accepted);
        assert_eq!(bench.removed, vec!["ETH_small.png".to_string()]);
        assert_eq!(bench.started, vec![("ETH".to_string(), "ETH_small.png".to_string())]);
    }
}

#[test]
fn forced_refresh_fails_where_the_own_marker_cannot_be_deleted() {
    let mut bench = Bench::new();
    bench.write_aged("ETH_small.png", b"", Some(HOUR));
    bench.unremovable.insert("ETH_small.png".to_string());

    let status = bench.check("ETH", Some(true));

    assert_eq!(status, IconStatus::InternalError);
    assert!(bench.started.is_empty());
    assert!(bench.removed.is_empty());
    assert!(bench.files.contains_key("ETH_small.png"));
    assert_eq!(bench.trail, trail(&["stat ETH_small.png", "remove ETH_small.png", "reply"]));
}

#[test]
fn forced_refresh_goes_on_to_the_collection_after_the_own_marker() {
    let mut bench = Bench::new();
    bench.write_aged(OWN_ICON_FILENAME, b"", Some(HOUR));
    bench.write(COLLECTION_ICON_FILENAME, b"collection_icon_data");

    let status = bench.check(TEST_ASSET, Some(true));

    assert_eq!(status, IconStatus::Accepted);
    assert_eq!(
        bench.removed,
        vec![OWN_ICON_FILENAME.to_string(), COLLECTION_ICON_FILENAME.to_string()]
    );
    assert_eq!(
        bench.started,
        vec![(TEST_ASSET.to_string(), COLLECTION_ICON_FILENAME.to_string())]
    );
    assert_eq!(
        bench.trail,
        vec![
            "stat XDAI_small.png".to_string(),
            "remove XDAI_small.png".to_string(),
            "collection XDAI".to_string(),
            format!("stat {}", COLLECTION_ICON_FILENAME),
            format!("remove {}", COLLECTION_ICON_FILENAME),
            format!("fetch XDAI {}", COLLECTION_ICON_FILENAME),
        ]
    );
}

#[test]
fn forced_refresh_stops_at_an_own_marker_it_cannot_delete() {
    let mut bench = Bench::new();
    bench.write_aged(OWN_ICON_FILENAME, b"", Some(13 * HOUR));
    bench.write(COLLECTION_ICON_FILENAME, b"collection_icon_data");
    bench.unremovable.insert(OWN_ICON_FILENAME.to_string());

    let status = bench.check(TEST_ASSET, Some(true));

    assert_eq!(status, IconStatus::InternalError);
    assert!(bench.removed.is_empty());
    assert!(bench.started.is_empty());
    assert!(bench.files.contains_key(COLLECTION_ICON_FILENAME));
}

#[test]
fn unforced_check_leaves_an_own_marker_alone() {
    let mut bench = Bench::new();
    bench.write_aged("ETH_small.png", b"", Some(13 * HOUR));

    assert_eq!(bench.check("ETH", Some(false)), IconStatus::Accepted);

    assert!(bench.removed.is_empty());
    assert_eq!(
        bench.trail,
        trail(&[
            "stat ETH_small.png",
            "collection ETH",
            "underlying ETH",
            "fetch ETH ETH_small.png"
        ])
    );
}

#[test]
fn forced_refresh_over_an_own_marker_step_by_step() {
    let request = AssetIconCheck { asset_id: "ETH".to_string(), force_refresh: Some(true) };
    let (mut flow, first) = check_icon(&request);
    assert_eq!(first, Action::Stat { path: "ETH_small.png".to_string() });

    let action = flow.advance(Event::Stat(FileStat::Exists { len: 0, age_secs: Some(5) }));
    assert_eq!(action, Action::Remove { path: "ETH_small.png".to_string() });
    assert!(!flow.is_done());

    let action = flow.advance(Event::Removed(true));
    assert_eq!(action, Action::FindCollection { asset_id: "ETH".to_string() });
    assert!(!flow.is_done());

    let action = flow.advance(Event::Collection(Lookup::Unknown));
    assert_eq!(action, Action::FindUnderlying { asset_id: "ETH".to_string() });

    let action = flow.advance(Event::Underlying(Lookup::Unknown));
    assert_eq!(
        action,
        Action::Fetch { asset_id: "ETH".to_string(), path: "ETH_small.png".to_string() }
    );
    assert!(flow.is_done());
}

#[test]
fn forced_refresh_over_an_undated_own_marker_deletes_nothing() {
    let mut bench = Bench::new();
    bench.write_aged("ETH_small.png", b"", None);

    let status = bench.check("ETH", Some(true));

    assert_eq!(status, IconStatus::Accepted);
    assert!(bench.removed.is_empty());
}
