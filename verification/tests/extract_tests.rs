use edgars::extract::{
    decode_entities, extract_primary_document, extract_section, normalize_whitespace,
    remove_sec_header, replace_text, strip_html,
};
use edgars::tickers::{parse_bar_line, parse_ticker_cik_fast};

fn chars(s: &str) -> Vec<char> {
    s.chars().collect()
}

fn text(v: Vec<char>) -> String {
    v.into_iter().collect()
}

#[test]
fn test_strip_html() {
    let html = "<html><body><p>Hello <b>world</b>!</p></body></html>";
    let text = strip_html(html);
    assert!(text.contains("Hello"));
    assert!(text.contains("world"));
    assert!(!text.contains("<"));
    assert_eq!(text, "Hello world !");
}

#[test]
fn test_normalize_whitespace() {
    let text = "Hello    world\n\n\ntest";
    assert_eq!(normalize_whitespace(text), "Hello world test");
}

#[test]
fn test_strip_html_entities() {
    let html = "AT&amp;T &nbsp; Test &lt;tag&gt;";
    let text = strip_html(html);
    assert_eq!(text, "AT&T Test <tag>");
}

#[test]
fn test_extract_section() {
    let filing = "ITEM 1. BUSINESS\n\nWe are a company...\n\nITEM 2. PROPERTIES\n\nWe own...";
    let section = extract_section(filing, r"ITEM\s+1\.\s+BUSINESS");

    assert!(section.is_some());
    let section_text = section.unwrap();
    assert!(section_text.contains("We are a company"));
    assert!(!section_text.contains("We own"));
    assert_eq!(section_text, "ITEM 1. BUSINESS\n\nWe are a company...");
}

#[test]
fn sections_run_to_the_end_without_a_next_header() {
    let filing = "intro\nITEM 7A. RISK\nlast words";
    assert_eq!(extract_section(filing, "ITEM 7A"), Some("ITEM 7A. RISK\nlast words".to_string()));
    assert_eq!(extract_section(filing, "ITEM 9"), None);
    // A header that is no regular expression finds nothing.
    assert_eq!(extract_section(filing, "ITEM ("), None);
}

#[test]
fn primary_document_is_the_text_of_a_document() {
    let submission = "x <DOCUMENT><TYPE>10-K<TEXT>first</TEXT></DOCUMENT> y";
    assert_eq!(extract_primary_document(submission), Some("first".to_string()));
    // The type runs as far as it can on its line.
    let two = "<DOCUMENT><TYPE>10-K<TEXT>first</TEXT></DOCUMENT><DOCUMENT><TYPE>EX-1<TEXT>second</TEXT></DOCUMENT>";
    assert_eq!(extract_primary_document(two), Some("second".to_string()));
    // A document that spans lines is not found.
    let lines = "<DOCUMENT>\n<TYPE>10-K\n<TEXT>\nbody\n</TEXT>\n</DOCUMENT>";
    assert_eq!(extract_primary_document(lines), None);
    assert_eq!(extract_primary_document("nothing"), None);
}

#[test]
fn sec_header_is_removed() {
    let dashes = "-".repeat(40);
    let filing = format!("HEADER\n{}\nBODY\n{}\nMORE", dashes, dashes);
    assert_eq!(remove_sec_header(&filing), format!("BODY\n{}\nMORE", dashes));
    let short = format!("HEADER\n{}\nBODY", "=".repeat(39));
    assert_eq!(remove_sec_header(&short), short);
    let mixed = format!("H\n{}{}\nB", "=".repeat(20), "-".repeat(20));
    assert_eq!(remove_sec_header(&mixed), "B");
}

#[test]
fn replacement_runs_left_to_right_without_overlap() {
    assert_eq!(text(replace_text(&chars("aaaa"), "aa", "b")), "bb");
    assert_eq!(text(replace_text(&chars("aaa"), "aa", "b")), "ba");
    assert_eq!(text(replace_text(&chars("abc"), "", "x")), "abc");
    assert_eq!(text(replace_text(&chars(""), "a", "x")), "");
    assert_eq!(text(replace_text(&chars("xyz"), "xyz", "")), "");
    assert_eq!(text(replace_text(&chars("a-b-c"), "-", "--")), "a--b--c");
    // Entities are decoded one kind after the other.
    assert_eq!(text(decode_entities(&chars("&amp;lt; &quot;x&#39; &amp;nbsp;"))), "< \"x' &nbsp;");
}

#[test]
fn whitespace_of_all_kinds_is_normalized() {
    assert_eq!(normalize_whitespace("\u{a0}a\u{2003}\u{3000}b\t\r\n"), "a b");
    assert_eq!(normalize_whitespace(""), "");
    assert_eq!(normalize_whitespace(" \n "), "");
    assert_eq!(strip_html("<p></p>"), "");
    assert_eq!(strip_html("a<b"), "a<b");
    assert_eq!(strip_html("1 &lt; 2 <br/> 3 > 2"), "1 < 2 3 > 2");
}

#[test]
fn bar_lines_are_read() {
    let entries = parse_ticker_cik_fast("aapl|320193\r\n\n msft | CIK789019 \nnobar\n|5\nx|\ny|1|2");
    let pairs: Vec<(&str, &str)> =
        entries.iter().map(|e| (e.ticker.as_str(), e.cik.as_str())).collect();
    assert_eq!(
        pairs,
        vec![
            ("AAPL", "0000320193"),
            ("MSFT", "0000789019"),
            ("X", "0000000000"),
            ("Y", "0000000012"),
        ]
    );
    assert!(parse_ticker_cik_fast("").is_empty());
    assert!(parse_ticker_cik_fast("\n\r\n").is_empty());
    assert!(parse_bar_line(b"a|1").is_some());
    assert!(parse_bar_line(b"\xff|1").is_none());
    assert!(parse_bar_line(b"a|\xff").is_none());
    assert!(parse_bar_line(b" |1").is_none());
    assert!(parse_bar_line(b"").is_none());
    let e = parse_bar_line("é|٣1".as_bytes()).unwrap();
    assert_eq!((e.ticker.as_str(), e.cik.as_str()), ("é", "0000000001"));
}
