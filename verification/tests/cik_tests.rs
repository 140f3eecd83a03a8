use edgars::cik::{format_cik, normalize_cik};
use std::time::Instant;

#[test]
fn test_normalize_cik_various_formats() {
    assert_eq!(normalize_cik("320193"), "0000320193");
    assert_eq!(normalize_cik("0000320193"), "0000320193");
    assert_eq!(normalize_cik("1"), "0000000001");
    assert_eq!(normalize_cik("1234567890"), "1234567890");
    assert_eq!(normalize_cik("CIK0000320193"), "0000320193");
    assert_eq!(normalize_cik("0000-320193"), "0000320193");
}

#[test]
fn test_normalize_cik_performance() {
    let start = Instant::now();
    for i in 0..10_000 {
        let _ = normalize_cik(&i.to_string());
    }
    let elapsed = start.elapsed();

    assert!(elapsed.as_millis() < 100, "CIK normalization too slow: {:?}", elapsed);
}

#[test]
fn test_readme_examples() {
    let cik = normalize_cik("320193");
    assert_eq!(cik, "0000320193");
}

#[test]
fn test_no_sql_injection() {
    let malicious = "320193; DROP TABLE companies;--";
    let normalized = normalize_cik(malicious);
    assert_eq!(normalized, "0000320193");
    assert!(!normalized.contains(";"));
    assert!(!normalized.contains("DROP"));
}

#[test]
fn test_format_cik() {
    assert_eq!(format_cik("320193"), "0000320193");
    assert_eq!(format_cik("0000320193"), "0000320193");
    assert_eq!(format_cik("1"), "0000000001");
}

#[test]
fn normalize_cik_edge_cases() {
    assert_eq!(normalize_cik(""), "0000000000");
    assert_eq!(normalize_cik("no digits"), "0000000000");
    assert_eq!(normalize_cik("12345678901234"), "12345678901234");
    assert_eq!(normalize_cik("CIK-0000320193"), "0000320193");
    assert_eq!(normalize_cik("320,193"), "0000320193");
    assert_eq!(normalize_cik("٣٢٠193"), "0000000193");
    assert_eq!(format_cik("CIK1"), "000000CIK1");
    assert_eq!(format_cik("12345678901"), "12345678901");
}
