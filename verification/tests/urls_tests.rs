use edgars::cik::normalize_cik;
use edgars::urls::{
    build_document_url, build_filing_url, build_full_text_url, company_facts_url,
    submissions_url, FACTS_BASE, SUBMISSIONS_BASE,
};

#[test]
fn urls_test_build_filing_url() {
    let url = build_filing_url("320193", "0000320193-23-000077");
    assert_eq!(
        url,
        "https://www.sec.gov/Archives/edgar/data/320193/000032019323000077-index.html"
    );
}

#[test]
fn urls_test_build_document_url() {
    let url = build_document_url("320193", "0000320193-23-000077", "aapl-20230930.htm");
    assert_eq!(
        url,
        "https://www.sec.gov/Archives/edgar/data/320193/000032019323000077/aapl-20230930.htm"
    );
}

#[test]
fn urls_test_build_full_text_url() {
    let url = build_full_text_url("320193", "0000320193-23-000077");
    assert_eq!(
        url,
        "https://www.sec.gov/Archives/edgar/data/320193/0000320193-23-000077.txt"
    );
}

#[test]
fn urls_test_url_builders_normalize_cik() {
    // Should work with non-padded CIK
    let url1 = build_filing_url("320193", "0000320193-23-000077");
    let url2 = build_filing_url("0000320193", "0000320193-23-000077");

    assert_eq!(url1, url2);
}

#[test]
fn main_tests_test_build_filing_url() {
    let url = build_filing_url("320193", "0000320193-23-000077");

    assert_eq!(
        url,
        "https://www.sec.gov/Archives/edgar/data/320193/000032019323000077-index.html"
    );
}

#[test]
fn main_tests_test_build_document_url() {
    let url = build_document_url("320193", "0000320193-23-000077", "aapl-20230930.htm");

    assert_eq!(
        url,
        "https://www.sec.gov/Archives/edgar/data/320193/000032019323000077/aapl-20230930.htm"
    );
}

#[test]
fn main_tests_test_build_full_text_url() {
    let url = build_full_text_url("320193", "0000320193-23-000077");

    assert_eq!(
        url,
        "https://www.sec.gov/Archives/edgar/data/320193/0000320193-23-000077.txt"
    );
}

#[test]
fn main_tests_test_url_builders_normalize_cik() {
    // Should work with non-padded CIK
    let url1 = build_filing_url("320193", "0000320193-23-000077");
    let url2 = build_filing_url("0000320193", "0000320193-23-000077");

    assert_eq!(url1, url2);
}

#[test]
fn test_accession_number_formats() {
    let test_cases = vec![
        ("0000320193-23-000077", "000032019323000077"),
        ("0000320193-23-000077", "000032019323000077"),
    ];

    for (accession, expected_stripped) in test_cases {
        let url = build_filing_url("320193", accession);
        assert!(url.contains(expected_stripped));
    }
}

#[test]
fn test_facts_url() {
    let cik = "320193";
    let url = format!("{}/CIK{}.json", FACTS_BASE, normalize_cik(cik));
    assert_eq!(url, "https://data.sec.gov/api/xbrl/companyfacts/CIK0000320193.json");
    assert_eq!(company_facts_url(cik), url);
}

#[test]
fn submissions_test_submissions_url() {
    let cik = "320193";
    let normalized_cik = normalize_cik(cik);
    let url = format!("{}/CIK{}.json", SUBMISSIONS_BASE, normalized_cik);
    assert_eq!(url, "https://data.sec.gov/submissions/CIK0000320193.json");
    assert_eq!(submissions_url(cik), url);
}

#[test]
fn url_builders_edge_cases() {
    // A CIK without digits leaves the path segment empty.
    assert_eq!(
        build_full_text_url("", "a-b"),
        "https://www.sec.gov/Archives/edgar/data//a-b.txt"
    );
    assert_eq!(
        build_filing_url("CIK0000000042", "--1--"),
        "https://www.sec.gov/Archives/edgar/data/42/1-index.html"
    );
    assert_eq!(
        build_document_url("7", "", "x/y.htm"),
        "https://www.sec.gov/Archives/edgar/data/7//x/y.htm"
    );
}

#[test]
fn test_build_filing_url() {
    let url = build_filing_url("320193", "0000320193-23-000077");
    assert_eq!(
        url,
        "https://www.sec.gov/Archives/edgar/data/320193/000032019323000077-index.html"
    );
}

#[test]
fn test_build_document_url() {
    let url = build_document_url("320193", "0000320193-23-000077", "aapl-20230930.htm");
    assert_eq!(
        url,
        "https://www.sec.gov/Archives/edgar/data/320193/000032019323000077/aapl-20230930.htm"
    );
}

#[test]
fn test_build_full_text_url() {
    let url = build_full_text_url("320193", "0000320193-23-000077");
    assert_eq!(
        url,
        "https://www.sec.gov/Archives/edgar/data/320193/0000320193-23-000077.txt"
    );
}

#[test]
fn test_url_builders_normalize_cik() {
    // Should work with non-padded CIK
    let url1 = build_filing_url("320193", "0000320193-23-000077");
    let url2 = build_filing_url("0000320193", "0000320193-23-000077");

    assert_eq!(url1, url2);
}

#[test]
fn test_submissions_url() {
    let cik = "320193";
    let normalized_cik = normalize_cik(cik);
    let url = format!("{}/CIK{}.json", SUBMISSIONS_BASE, normalized_cik);
    assert_eq!(url, "https://data.sec.gov/submissions/CIK0000320193.json");
}

#[test]
fn every_builder_takes_the_cik_in_any_form() {
    assert_eq!(
        build_filing_url("0000320193", "0000320193-23-000077"),
        "https://www.sec.gov/Archives/edgar/data/320193/000032019323000077-index.html"
    );
    let url1 = build_document_url("320193", "0000320193-23-000077", "a.htm");
    let url2 = build_document_url("0000320193", "0000320193-23-000077", "a.htm");
    assert_eq!(url1, url2);
    assert_eq!(
        build_full_text_url("CIK0000320193", "0000320193-23-000077"),
        "https://www.sec.gov/Archives/edgar/data/320193/0000320193-23-000077.txt"
    );
    assert_eq!(submissions_url("CIK320193"), "https://data.sec.gov/submissions/CIK0000320193.json");
    assert_eq!(submissions_url("1"), "https://data.sec.gov/submissions/CIK0000000001.json");
}
