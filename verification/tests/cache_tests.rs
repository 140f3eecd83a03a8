use edgars::cache::LookupCache;
use edgars::errors::{FetchError, LookupError, NetworkError};
use edgars::tickers::{lookup_in, parse_line, parse_ticker_data, TickerEntry};
use std::cell::Cell;
use std::time::Instant;

const DATASET: &str = "aapl\t320193\nmsft\t789019\n";

fn entry(ticker: &str, cik: &str) -> TickerEntry {
    TickerEntry { ticker: ticker.to_string(), cik: cik.to_string() }
}

#[test]
fn populated_cache_resolves_without_fetching() {
    let mut cache = LookupCache::with_defaults();
    cache.populate(&vec![entry("AAPL", "0000320193"), entry("MSFT", "0000789019")]);
    let fetches = Cell::new(0);
    let cik = cache.resolve("aapl", || {
        fetches.set(fetches.get() + 1);
        Ok(DATASET.to_string())
    });
    assert_eq!(cik.unwrap(), "0000320193");
    assert_eq!(fetches.get(), 0);
    assert_eq!(cache.lookup("MSFT"), Some("0000789019".to_string()));
    assert_eq!(cache.lookup("Msft"), Some("0000789019".to_string()));
}

#[test]
fn unknown_key_is_not_found() {
    let mut cache = LookupCache::with_defaults();
    cache.populate(&vec![entry("AAPL", "0000320193"), entry("MSFT", "0000789019")]);
    let fetches = Cell::new(0);
    let result = cache.resolve("ZZZZ", || {
        fetches.set(fetches.get() + 1);
        Ok(DATASET.to_string())
    });
    match result {
        Err(LookupError::NotFound(m)) => assert_eq!(m, "Ticker not found: ZZZZ"),
        other => panic!("unexpected result: {:?}", other),
    }
    assert_eq!(fetches.get(), 1);
}

#[test]
fn test_ticker_to_cik() {
    let mut cache = LookupCache::with_defaults();
    let fetches = Cell::new(0);
    let fetch = || {
        fetches.set(fetches.get() + 1);
        Ok(DATASET.to_string())
    };
    // A miss fetches the dataset once and populates all of it.
    assert_eq!(cache.resolve("AAPL", &fetch).unwrap(), "0000320193");
    assert_eq!(fetches.get(), 1);
    assert_eq!(cache.resolve("msft", &fetch).unwrap(), "0000789019");
    assert_eq!(fetches.get(), 1);
}

#[test]
fn test_case_insensitive() {
    let mut cache = LookupCache::with_defaults();
    let fetch = || Ok(DATASET.to_string());
    let cik1 = cache.resolve("AAPL", &fetch).unwrap();
    let cik2 = cache.resolve("aapl", &fetch).unwrap();
    assert_eq!(cik1, cik2);
}

#[test]
fn test_batch_lookup() {
    let mut cache = LookupCache::with_defaults();
    let keys = vec!["AAPL".to_string(), "nope".to_string(), "msft".to_string()];
    let results = cache.resolve_many(&keys, || Ok(DATASET.to_string()));
    assert_eq!(
        results,
        vec![
            ("AAPL".to_string(), "0000320193".to_string()),
            ("MSFT".to_string(), "0000789019".to_string())
        ]
    );
    for (_, cik) in results {
        assert_eq!(cik.len(), 10);
        assert!(cik.starts_with('0'));
    }
}

#[test]
fn test_invalid_ticker() {
    let mut cache = LookupCache::with_defaults();
    let result = cache.resolve("NOTREAL123456", || Ok(DATASET.to_string()));
    assert!(result.is_err());
}

#[test]
fn test_cik_formatting() {
    let mut cache = LookupCache::with_defaults();
    let cik = cache.resolve("AAPL", || Ok(DATASET.to_string())).unwrap();
    assert_eq!(cik.len(), 10);
    assert!(cik.chars().all(|c| c.is_ascii_digit()));
}

#[test]
fn fetch_errors_come_back_unchanged() {
    let mut cache = LookupCache::with_defaults();
    let result = cache.resolve("AAPL", || Err(FetchError::Network(NetworkError::Status { code: 503 })));
    assert!(matches!(
        result,
        Err(LookupError::Fetch(FetchError::Network(NetworkError::Status { code: 503 })))
    ));
    let result = cache.resolve("AAPL", || Ok("no entries here\n".to_string()));
    assert!(matches!(result, Err(LookupError::EmptyDataset)));
}

#[test]
fn a_cleared_cache_fetches_again() {
    let mut cache = LookupCache::new(100, 60);
    cache.insert("AAPL", "0000320193");
    assert_eq!(cache.lookup("aapl"), Some("0000320193".to_string()));
    // The cache tells old entries by its clock: let the clock move on.
    let inserted = Instant::now();
    while Instant::now() == inserted {}
    cache.clear_cache();
    assert_eq!(cache.lookup("aapl"), None);
    let fetches = Cell::new(0);
    let cik = cache.resolve("aapl", || {
        fetches.set(fetches.get() + 1);
        Ok("AAPL\t1\n".to_string())
    });
    assert_eq!(cik.unwrap(), "0000000001");
    assert_eq!(fetches.get(), 1);
    assert!(cache.cache_size() <= 100);
}

#[test]
fn extract_entities_finds_all_expected() {
    let text = "aapl\t320193\n\n  msft \t 789019  \r\nbad line\nx\ty\tz\nbrk.b\t+1067983\ngoog\t-5\n\tnum\t\nq\t18446744073709551616\n";
    let entries = parse_ticker_data(text).unwrap();
    let pairs: Vec<(&str, &str)> =
        entries.iter().map(|e| (e.ticker.as_str(), e.cik.as_str())).collect();
    assert_eq!(
        pairs,
        vec![("AAPL", "0000320193"), ("MSFT", "0000789019"), ("BRK.B", "0001067983")]
    );
    assert!(matches!(parse_ticker_data(""), Err(LookupError::EmptyDataset)));
    assert!(matches!(parse_ticker_data("a b\n"), Err(LookupError::EmptyDataset)));
    let big = parse_line(&"x\t18446744073709551615".chars().collect()).unwrap();
    assert_eq!(big.cik, "18446744073709551615");
    // The line is trimmed before it is split.
    assert!(parse_line(&"\t5".chars().collect()).is_none());
    assert!(parse_line(&"x\t".chars().collect()).is_none());
}

#[test]
fn deduplicate_entities_removes_duplicates() {
    let entries = parse_ticker_data("aapl\t1\nmsft\t2\nAAPL\t3\n").unwrap();
    assert_eq!(entries.len(), 3);
    // The last line of a ticker counts.
    assert_eq!(lookup_in(&entries, "AAPL"), Some(&"0000000003".to_string()));
    assert_eq!(lookup_in(&entries, "MSFT"), Some(&"0000000002".to_string()));
    assert_eq!(lookup_in(&entries, "aapl"), None);
    let mut cache = LookupCache::with_defaults();
    cache.populate(&entries);
    assert_eq!(cache.lookup("aapl"), Some("0000000003".to_string()));
}

#[test]
fn a_dataset_is_taken_in_after_a_miss() {
    let mut cache = LookupCache::with_defaults();
    assert_eq!(cache.lookup("msft"), None);
    assert_eq!(cache.absorb("msft", DATASET).unwrap(), "0000789019");
    // All of the dataset is in the cache, not only the key that was asked for.
    assert_eq!(cache.lookup("AAPL"), Some("0000320193".to_string()));
    match cache.absorb("zzzz", "aapl\t7\n") {
        Err(LookupError::NotFound(m)) => assert_eq!(m, "Ticker not found: ZZZZ"),
        other => panic!("unexpected result: {:?}", other),
    }
    // A later dataset replaces the entries of an earlier one.
    assert_eq!(cache.lookup("aapl"), Some("0000000007".to_string()));
    assert_eq!(cache.lookup("msft"), Some("0000789019".to_string()));
    assert!(matches!(cache.absorb("aapl", "nothing\n"), Err(LookupError::EmptyDataset)));
    assert_eq!(cache.lookup("aapl"), Some("0000000007".to_string()));
}
