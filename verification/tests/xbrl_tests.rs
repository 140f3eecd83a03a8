use edgars::infer::infer_form_type;
use edgars::filings::FormType;
use edgars::submissions::{str_to_utc_datetime, Filing};
use edgars::xbrl::{
    download_xbrl_instance, download_xbrl_package, extract_filename_from_xml_tag,
    instance_candidates, is_xbrl_content, listed_files,
};
use std::cell::RefCell;

const BASE: &str = "https://www.sec.gov/Archives/edgar/data/320193/000032019323000106/";

fn filing(is_xbrl: bool) -> Filing {
    Filing {
        cik: "320193".to_string(),
        accession_number: "0000320193-23-000106".to_string(),
        form_type: "10-K".to_string(),
        acceptance_date: str_to_utc_datetime("2023-11-03").unwrap(),
        primary_document: "aapl-20230930.htm".to_string(),
        is_xbrl,
    }
}

#[test]
fn test_extract_filename() {
    assert_eq!(
        extract_filename_from_xml_tag("<HtmlFileName>test.htm</HtmlFileName>"),
        Some("test.htm".to_string())
    );
    assert_eq!(
        extract_filename_from_xml_tag("  <XmlFileName>data.xml</XmlFileName>  "),
        Some("data.xml".to_string())
    );
}

#[test]
fn file_names_need_a_tag_around_them() {
    assert_eq!(extract_filename_from_xml_tag(""), None);
    assert_eq!(extract_filename_from_xml_tag("plain"), None);
    assert_eq!(extract_filename_from_xml_tag("<a>"), None);
    assert_eq!(extract_filename_from_xml_tag("a<b>c"), None);
    assert_eq!(extract_filename_from_xml_tag("><"), Some(String::new()));
    assert_eq!(extract_filename_from_xml_tag("<a>b>c<d<e>"), Some("b>c<d".to_string()));
}

#[test]
fn regression_known_issue_123_is_fixed() {
    // A "d" inside a word is not the form D, and an amendment in a header
    // is read in full.
    assert_eq!(
        infer_form_type("Prospectus supplement filed pursuant to Rule 424B5"),
        Some(FormType::FourTwoFourB5)
    );
    assert_eq!(infer_form_type("<html><body>Dividend declared</body></html>"), None);
    assert_eq!(infer_form_type("CONFORMED SUBMISSION TYPE:\t10-K/A\n"), Some(FormType::TenKA));
}

#[test]
fn summary_lists_xbrl_files() {
    let summary = "<FilingSummary>\n  <HtmlFileName>R1.htm</HtmlFileName>\n  <XmlFileName>R2.xml</XmlFileName>\r\n<OriginalDocument>aapl.xsd</OriginalDocument>\n<Other>x.xml</Other>\n<XmlFileName>R3.XML</XmlFileName>\n</FilingSummary>";
    assert_eq!(listed_files(summary), vec!["R2.xml".to_string(), "aapl.xsd".to_string()]);
    assert!(listed_files("").is_empty());
}

#[test]
fn xbrl_content_is_recognized() {
    assert!(is_xbrl_content("<xbrl>"));
    assert!(is_xbrl_content("xmlns=\"http://www.xbrl.org/2003/instance\""));
    assert!(is_xbrl_content("<xbrli:context>"));
    assert!(!is_xbrl_content("<html>XBRL</html>"));
    assert!(!is_xbrl_content(""));
}

#[test]
fn instance_is_the_first_candidate_that_is_xbrl() {
    let f = filing(true);
    assert_eq!(
        instance_candidates(&f),
        vec![
            format!("{}000032019323000106_htm.xml", BASE),
            format!("{}000032019323000106.xml", BASE),
            format!("{}aapl-20230930.htm", BASE),
        ]
    );
    let asked = RefCell::new(Vec::new());
    let found = download_xbrl_instance(&f, |url: &str| {
        asked.borrow_mut().push(url.to_string());
        if url.ends_with("_htm.xml") {
            Some("<html>not it</html>".to_string())
        } else if url.ends_with("106.xml") {
            None
        } else {
            Some("<xbrl>yes</xbrl>".to_string())
        }
    });
    assert_eq!(found, Some("<xbrl>yes</xbrl>".to_string()));
    assert_eq!(asked.borrow().len(), 3);
    let none = download_xbrl_instance(&filing(false), |_url: &str| panic!("nothing is fetched"));
    assert_eq!(none, None);
    assert_eq!(download_xbrl_instance(&f, |_url: &str| None), None);
}

#[test]
fn package_follows_the_summary() {
    let f = filing(true);
    let files = download_xbrl_package(&f, |url: &str| {
        if url == format!("{}FilingSummary.xml", BASE) {
            Some("<XmlFileName>a.xml</XmlFileName>\n<XmlFileName>gone.xml</XmlFileName>\n<XmlFileName>b.xsd</XmlFileName>".to_string())
        } else if url == format!("{}a.xml", BASE) {
            Some("A".to_string())
        } else if url == format!("{}b.xsd", BASE) {
            Some("B".to_string())
        } else {
            None
        }
    })
    .unwrap();
    let names: Vec<&str> = files.iter().map(|f| f.0.as_str()).collect();
    assert_eq!(names, vec!["FilingSummary.xml", "a.xml", "b.xsd"]);
    assert_eq!(files[1].1, "A");
}

#[test]
fn package_falls_back_to_the_usual_names() {
    let f = filing(true);
    let asked = RefCell::new(Vec::new());
    let files = download_xbrl_package(&f, |url: &str| {
        asked.borrow_mut().push(url.to_string());
        if url.ends_with("_cal.xml") || url.ends_with(".xsd") {
            Some(url.len().to_string())
        } else {
            None
        }
    })
    .unwrap();
    let names: Vec<&str> = files.iter().map(|f| f.0.as_str()).collect();
    assert_eq!(names, vec!["000032019323000106.xsd", "000032019323000106_cal.xml"]);
    assert_eq!(asked.borrow().len(), 7);
    assert_eq!(download_xbrl_package(&f, |_url: &str| None), None);
    assert_eq!(download_xbrl_package(&filing(false), |_url: &str| panic!("nothing is fetched")), None);
}
