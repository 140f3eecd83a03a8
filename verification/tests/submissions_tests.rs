use edgars::filings::FormType;
use edgars::submissions::{
    filter_by_form, filter_by_form_type, filter_xbrl, parse_timestamp, str_to_utc_datetime,
    CompanySubmissions, Filing, Filings, RecentFilings, Submissions, Timestamp,
};

fn strings(items: &[&str]) -> Vec<String> {
    items.iter().map(|s| s.to_string()).collect()
}

fn recent() -> RecentFilings {
    RecentFilings {
        accession_number: strings(&["0001-23-001", "0001-23-002", "0001-23-003", "0001-23-004", "0001-23-005"]),
        filing_date: strings(&["2023-01-01", "2023-04-01", "2023-04-02", "2023-05-01", "2023-06-01"]),
        report_date: vec![],
        acceptance_date_time: strings(&[
            "2023-01-01T00:00:00.000Z",
            "2023-04-01T12:00:00.000Z",
            "not a date",
            "2023-04-01T08:00:00-04:00",
            "2024-01-01T00:30:00+01:00",
        ]),
        act: vec![],
        form: strings(&["10-K", "10-Q", "8-K", "10-Q", "8-K"]),
        file_number: vec![],
        film_number: vec![],
        items: vec![],
        size: vec![],
        is_xbrl: vec![1, 0, 1],
        is_inline_xbrl: vec![],
        primary_document: strings(&["a.htm", "b.htm", "c.htm", "d.htm", "e.htm"]),
        primary_doc_description: vec![],
    }
}

fn filing(accession: &str, form: &str, date: &str, is_xbrl: bool) -> Filing {
    Filing {
        cik: "123".to_string(),
        accession_number: accession.to_string(),
        form_type: form.to_string(),
        acceptance_date: str_to_utc_datetime(date)
            .expect("An invalid UTC datetime was provided as an acceptance date."),
        primary_document: "doc.xml".to_string(),
        is_xbrl,
    }
}

#[test]
fn test_filing_urls() {
    let filing = Filing {
        cik: "320193".to_string(),
        accession_number: "0000320193-23-000106".to_string(),
        form_type: "10-K".to_string(),
        acceptance_date: str_to_utc_datetime("2023-11-03T00:00:00.000Z")
            .expect("An invalid UTC date was provided as an acceptance date."),
        primary_document: "aapl-20230930.htm".to_string(),
        is_xbrl: true,
    };

    assert_eq!(
        filing.base_url(),
        "https://www.sec.gov/Archives/edgar/data/320193/000032019323000106/"
    );

    assert_eq!(
        filing.primary_document_url(),
        "https://www.sec.gov/Archives/edgar/data/320193/000032019323000106/aapl-20230930.htm"
    );
    assert_eq!(
        filing.submission_text_url(),
        "https://www.sec.gov/Archives/edgar/data/320193/000032019323000106/0000320193-23-000106.txt"
    );
}

#[test]
fn test_filter_by_form() {
    let filings = vec![
        filing("0001-23-001", "10-K", "2023-01-01T00:00:00.000Z", true),
        filing("0001-23-002", "10-Q", "2023-04-01T00:00:00.000Z", true),
    ];

    let ten_ks = filter_by_form(&filings, "10-K");
    assert_eq!(ten_ks.len(), 1);
    assert_eq!(ten_ks[0].form_type, "10-K");
}

#[test]
fn test_str_utc_datetime_full() {
    let dt = str_to_utc_datetime("2023-11-03T18:30:00.000Z").unwrap();
    assert_eq!(dt, Timestamp { secs: 1_699_036_200, nanos: 0, year: 2023 });
}

#[test]
fn test_str_utc_datetime_date_only() {
    let dt = str_to_utc_datetime("2023-11-03").unwrap();
    assert_eq!(dt, Timestamp { secs: 1_698_969_600, nanos: 0, year: 2023 });
}

#[test]
fn test_str_utc_datetime_invalid() {
    let result = str_to_utc_datetime("2023/11/31");
    assert!(result.is_err());
    assert!(str_to_utc_datetime("2023-13-45").is_err());
    assert!(str_to_utc_datetime("").is_err());
    assert!(str_to_utc_datetime("2023-11-3").is_err());
}

#[test]
fn timestamps_are_in_utc() {
    let t = parse_timestamp("2024-01-01T00:30:00.25+01:00").unwrap();
    assert_eq!(t, Timestamp { secs: 1_704_065_400, nanos: 250_000_000, year: 2023 });
    assert!(parse_timestamp("2024-01-01").is_none());
    let earlier = parse_timestamp("2023-12-31T23:30:00Z").unwrap();
    assert!(earlier.is_before(&t));
    assert!(!t.is_before(&earlier));
    assert!(!t.is_before(&t));
}

#[test]
fn filings_come_newest_first_and_invalid_ones_are_skipped() {
    let filings = recent().to_filings("123");
    let order: Vec<&str> = filings.iter().map(|f| f.accession_number.as_str()).collect();
    // The fourth and the second are of the same instant and keep their order.
    assert_eq!(order, vec!["0001-23-005", "0001-23-002", "0001-23-004", "0001-23-001"]);
    assert!(filings.iter().all(|f| f.cik == "123"));
    let xbrl: Vec<bool> = filings.iter().map(|f| f.is_xbrl).collect();
    assert_eq!(xbrl, vec![false, false, false, true]);
    assert_eq!(filings[0].year(), 2023);
    assert_eq!(filings[0].primary_document, "e.htm");
    assert_eq!(recent().len(), 5);
    assert!(!recent().is_empty());
}

#[test]
fn short_arrays_end_the_list() {
    let mut r = recent();
    r.primary_document.truncate(1);
    let filings = r.to_filings("1");
    assert_eq!(filings.len(), 1);
    assert_eq!(filings[0].accession_number, "0001-23-001");
    r.accession_number.clear();
    assert!(r.to_filings("1").is_empty());
    assert!(r.is_empty());
    assert_eq!(r.len(), 0);
    assert!(r.filing_at("1", 0).is_none());
}

#[test]
fn recent_filings_are_filtered() {
    let r = recent();
    let ten_qs = r.filter_by_form("123", "10-Q");
    let order: Vec<&str> = ten_qs.iter().map(|f| f.accession_number.as_str()).collect();
    assert_eq!(order, vec!["0001-23-002", "0001-23-004"]);
    assert!(r.filter_by_form("123", "10-q").is_empty());
    let start = str_to_utc_datetime("2023-04-01T12:00:00Z").unwrap();
    let end = str_to_utc_datetime("2023-12-31T23:30:00Z").unwrap();
    let in_range = r.filter_by_date_range("123", start, end);
    let order: Vec<&str> = in_range.iter().map(|f| f.accession_number.as_str()).collect();
    // Both ends are included.
    assert_eq!(order, vec!["0001-23-005", "0001-23-002", "0001-23-004"]);
    let both = r.filter_by_form_and_date("123", "8-K", start, end);
    assert_eq!(both.len(), 1);
    assert_eq!(both[0].accession_number, "0001-23-005");
    let xbrl = r.filter_xbrl("123");
    assert_eq!(xbrl.len(), 1);
    assert_eq!(xbrl[0].accession_number, "0001-23-001");
    assert!(r.filter_by_date_range("123", end, start).is_empty());
}

#[test]
fn filing_predicates() {
    let f = filing("0001-23-001", "10-K", "2023-06-15T10:00:00Z", true);
    assert!(f.is_form("10-K"));
    assert!(!f.is_form("10-K/A"));
    assert!(f.is_annual_report());
    assert!(!f.is_quarterly_report());
    assert!(!f.is_current_report());
    assert!(filing("x", "10-Q", "2023-06-15", false).is_quarterly_report());
    assert!(filing("x", "8-K", "2023-06-15", false).is_current_report());
    assert!(f.is_from_year(2023));
    assert!(!f.is_from_year(2024));
    assert_eq!(f.year(), 2023);
    let same = f.acceptance_date;
    assert!(f.is_in_date_range(same, same));
    let later = str_to_utc_datetime("2023-06-15T10:00:01Z").unwrap();
    assert!(!f.is_in_date_range(later, later));
    assert!(f.is_in_date_range(same, later));
    let both = vec![f.clone(), filing("y", "8-K", "2023-06-15", false)];
    assert_eq!(filter_xbrl(&both).len(), 1);
    assert_eq!(filter_xbrl(&both)[0].accession_number, "0001-23-001");
}

#[test]
fn submissions_list_their_filings() {
    let s = Submissions {
        cik: "0000000123".to_string(),
        entity_type: "operating".to_string(),
        sic: "3571".to_string(),
        sic_description: "Computers".to_string(),
        name: "Example".to_string(),
        tickers: strings(&["EX"]),
        exchanges: strings(&["NYSE"]),
        filings: Filings { recent: recent(), files: vec![] },
    };
    assert_eq!(s.recent_filings().len(), 4);
    assert!(s.recent_filings().iter().all(|f| f.cik == "0000000123"));
    assert_eq!(s.recent_filings_by_form("10-K").len(), 1);
    let start = str_to_utc_datetime("2023-01-01").unwrap();
    let end = str_to_utc_datetime("2023-01-31").unwrap();
    assert_eq!(s.recent_filings_by_date(start, end).len(), 1);
}

#[test]
fn summaries_by_form_type() {
    let s = CompanySubmissions {
        cik: "0000000123".to_string(),
        entity_type: "operating".to_string(),
        sic: "3571".to_string(),
        sic_description: "Computers".to_string(),
        name: "Example".to_string(),
        tickers: None,
        exchanges: None,
        filings: Filings { recent: recent(), files: vec![] },
    };
    let ten_qs = filter_by_form_type(&s, FormType::TenQ);
    let order: Vec<(&str, &str)> =
        ten_qs.iter().map(|f| (f.accession_number.as_str(), f.filing_date.as_str())).collect();
    assert_eq!(order, vec![("0001-23-002", "2023-04-01"), ("0001-23-004", "2023-05-01")]);
    assert!(ten_qs.iter().all(|f| f.form == "10-Q"));
    assert!(filter_by_form_type(&s, FormType::TenQA).is_empty());
}
