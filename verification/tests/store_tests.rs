use edgars::cache::LookupCache;
use edgars::disk::DiskCache;
use edgars::errors::{EdgarError, NetworkError};
use edgars::store::{cik_to_detail_db, ticker_to_cik_db, CompanyDetail, DurableStore, RefreshResponse};

fn rows() -> Vec<CompanyDetail> {
    vec![
        CompanyDetail::from_entry(320193, "aapl", Some("Apple Inc.".to_string())),
        CompanyDetail::from_entry(789019, "Msft", None),
    ]
}

#[test]
fn test_lookup_and_cache() {
    let store = DurableStore::new(rows(), None);
    let mut cache = LookupCache::with_defaults();

    // Initial read (store)
    let cik = ticker_to_cik_db(&store, &mut cache, "AAPL").unwrap();
    assert_eq!(cik.len(), 10);

    // Cached read: an empty store no longer matters.
    let empty = DurableStore::new(vec![], None);
    let cached = ticker_to_cik_db(&empty, &mut cache, "aapl").unwrap();
    assert_eq!(cached, cik);

    // Reverse lookup
    let detail = cik_to_detail_db(&store, &cik).unwrap();
    assert_eq!(detail.ticker, "AAPL");
    assert_eq!(detail.title, Some("Apple Inc.".to_string()));
    let detail2 = cik_to_detail_db(&store, "CIK 320193").unwrap();
    assert_eq!(detail2.cik, "0000320193");
}

#[test]
fn unknown_ticker_and_cik() {
    let store = DurableStore::new(rows(), None);
    let mut cache = LookupCache::with_defaults();
    match ticker_to_cik_db(&store, &mut cache, "zzzz") {
        Err(EdgarError::NotFound(m)) => assert_eq!(m, "Unknown ticker: zzzz"),
        other => panic!("unexpected result: {:?}", other),
    }
    match cik_to_detail_db(&store, "42") {
        Err(EdgarError::NotFound(m)) => assert_eq!(m, "Unknown CIK: 42"),
        other => panic!("unexpected result: {:?}", other),
    }
}

#[test]
fn rows_are_canonical() {
    let row = CompanyDetail::from_entry(1, "brk.b", None);
    assert_eq!(row.cik, "0000000001");
    assert_eq!(row.ticker, "BRK.B");
    assert_eq!(row.title, None);
    assert_eq!(CompanyDetail::from_entry(u64::MAX, "", None).cik, "18446744073709551615");
    assert_eq!(CompanyDetail::from_entry(0, "x", None).cik, "0000000000");
}

#[test]
fn refresh_replaces_everything_or_nothing() {
    let mut store = DurableStore::new(rows(), Some("\"v1\"".to_string()));
    assert_eq!(store.etag(), &Some("\"v1\"".to_string()));

    assert_eq!(store.refresh(RefreshResponse::NotModified).unwrap(), false);
    assert_eq!(store.rows().len(), 2);
    assert_eq!(store.etag(), &Some("\"v1\"".to_string()));

    let failed = store.refresh(RefreshResponse::Failed(503));
    assert!(matches!(failed, Err(NetworkError::Status { code: 503 })));
    assert!(matches!(store.refresh(RefreshResponse::Failed(429)), Err(NetworkError::RateLimited)));
    assert_eq!(store.rows().len(), 2);

    let fresh = vec![CompanyDetail::from_entry(7, "new", None)];
    assert_eq!(store.refresh(RefreshResponse::Fresh(fresh, Some("\"v2\"".to_string()))).unwrap(), true);
    assert_eq!(store.rows().len(), 1);
    assert_eq!(store.etag(), &Some("\"v2\"".to_string()));
    assert!(store.find_ticker("aapl").is_none());
    assert_eq!(store.find_ticker("NEW").unwrap().cik, "0000000007");
    assert_eq!(store.find_cik("7").unwrap().ticker, "NEW");

    store.replace_all(vec![], None);
    assert!(store.rows().is_empty());
    assert_eq!(store.etag(), &None);
}

#[test]
fn entries_are_files_below_the_directory() {
    let cache = DiskCache::with_default_ttl("/tmp/cache".to_string());
    assert_eq!(cache.cache_path("test_key"), "/tmp/cache/test_key.json");
    assert_eq!(cache.ttl_secs(), 3600);
    assert_eq!(cache.cache_dir(), "/tmp/cache");
}

#[test]
fn keys_are_made_safe_for_file_names() {
    let cache = DiskCache::new("cache/".to_string(), 10);
    assert_eq!(cache.cache_path("a/b\\c:d"), "cache/a_b_c_d.json");
    assert_eq!(DiskCache::new(String::new(), 10).cache_path("k"), "k.json");
    assert_eq!(DiskCache::new("/".to_string(), 10).cache_path(""), "/.json");
}

#[test]
fn entries_expire_after_their_time() {
    let cache = DiskCache::new("d".to_string(), 10);
    assert!(!cache.is_expired(0, 0));
    assert!(!cache.is_expired(9, 999_999_999));
    assert!(!cache.is_expired(10, 0));
    assert!(cache.is_expired(10, 1));
    assert!(cache.is_expired(11, 0));
    assert!(DiskCache::new("d".to_string(), 0).is_expired(0, 1));
    assert!(!DiskCache::new("d".to_string(), u64::MAX).is_expired(u64::MAX, 0));
}

#[test]
fn the_store_decides_on_a_miss_and_the_cache_on_a_hit() {
    let store = DurableStore::new(rows(), None);
    let mut cache = LookupCache::with_defaults();
    assert_eq!(ticker_to_cik_db(&store, &mut cache, "msft").unwrap(), "0000789019");
    assert_eq!(cache.lookup("MSFT"), Some("0000789019".to_string()));
    // A cached value wins over a store that has changed since.
    let changed = DurableStore::new(vec![CompanyDetail::from_entry(5, "MSFT", None)], None);
    assert_eq!(ticker_to_cik_db(&changed, &mut cache, "Msft").unwrap(), "0000789019");
    // The first row of a ticker counts.
    let twice = DurableStore::new(
        vec![CompanyDetail::from_entry(1, "dup", None), CompanyDetail::from_entry(2, "DUP", None)],
        None,
    );
    assert_eq!(ticker_to_cik_db(&twice, &mut cache, "dup").unwrap(), "0000000001");
    let detail = cik_to_detail_db(&store, "789019").unwrap();
    assert_eq!((detail.cik.as_str(), detail.ticker.as_str(), detail.title), ("0000789019", "MSFT", None));
}
