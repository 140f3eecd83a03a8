use edgars::errors::{EdgarError, ParserError};
use edgars::filings::SecFormType;
use edgars::parse::{
    detect_format, extract_tables, parse, parse_auto, parse_html, parse_json, parse_text,
    DataFormat, Document, DocumentFormat, HtmlParser, JsonParser,
};

#[test]
fn test_parse_html_with_title() {
    let html = r#"
<!DOCTYPE html>
<html>
<head><title>Test Filing</title></head>
<body>FORM 10-K content here</body>
</html>
        "#;
    let result = parse(DataFormat::Html, html).unwrap();
    assert_eq!(result.title, Some("Test Filing".to_string()));
    assert_eq!(result.format, DataFormat::Html);
    assert_eq!(result.form_type, SecFormType::TenK);
}

#[test]
fn test_parse_json() {
    let json = r#"{"title":"Filing Document","submissionType":"8-K"}"#;
    let result = parse(DataFormat::Json, json).unwrap();
    assert_eq!(result.title, Some("Filing Document".to_string()));
    assert_eq!(result.format, DataFormat::Json);
    assert_eq!(result.form_type, SecFormType::EightK);
}

#[test]
fn test_parse_xbrl_not_implemented() {
    let result = parse(DataFormat::Xbrl, "<xbrl>data</xbrl>");
    assert!(result.is_err());
    assert!(matches!(result.unwrap_err(), ParserError::NotImplemented(_)));
}

#[test]
fn test_extract_tables() {
    let text = "Header\n2023    100    50\n2022    90     45\n\nFooter";
    let tables = extract_tables(text, 3);

    assert_eq!(tables.len(), 1);
    assert_eq!(tables[0].len(), 2); // 2 rows
    assert_eq!(tables[0][0].len(), 3); // 3 columns
}

#[test]
fn test_parse_html_10k() {
    let html = r#"
<!DOCTYPE html>
<html>
<head><title>Apple Inc. 10-K</title></head>
<body>
<div>FORM 10-K</div>
<p>Annual Report</p>
</body>
</html>
    "#;

    let doc = parse_html(html).unwrap();

    assert_eq!(doc.form_type.to_string(), "10-K");
    assert_eq!(doc.title, Some("Apple Inc. 10-K".to_string()));
    assert_eq!(doc.format.to_string(), "HTML");
    assert!(doc.size_bytes > 0);
}

#[test]
fn test_parse_html_8k() {
    let html = r#"
<html>
<head><title>Current Report</title></head>
<body>FORM 8-K</body>
</html>
    "#;

    let doc = parse_html(html).unwrap();
    assert_eq!(doc.form_type.to_string(), "8-K");
}

#[test]
fn test_parse_json_submission() {
    let json = r#"{
        "submissionType": "10-Q",
        "entityName": "Test Company Inc.",
        "cik": "0001234567"
    }"#;

    let doc = parse_json(json).unwrap();

    assert_eq!(doc.form_type.to_string(), "10-Q");
    assert_eq!(doc.format.to_string(), "JSON");
    assert!(doc.title.is_some());
}

#[test]
fn test_parse_auto_detection_json() {
    let json = r#"{"submissionType": "8-K"}"#;

    let doc = parse_auto(json).unwrap();
    assert_eq!(doc.format.to_string(), "JSON");
    assert_eq!(doc.form_type.to_string(), "8-K");
}

#[test]
fn test_parse_auto_detection_html() {
    let html = r#"<!DOCTYPE html><html><body>FORM 10-K</body></html>"#;

    let doc = parse_auto(html).unwrap();
    assert_eq!(doc.format.to_string(), "HTML");
    assert_eq!(doc.form_type.to_string(), "10-K");
}

#[test]
fn test_parse_auto_detection_text() {
    let text = "CONFORMED SUBMISSION TYPE: 10-Q\nPUBLIC DOCUMENT COUNT: 50";

    let doc = parse_auto(text).unwrap();
    assert_eq!(doc.format.to_string(), "Text");
    assert_eq!(doc.form_type.to_string(), "10-Q");
}

#[test]
fn test_parse_invalid_html() {
    let html = "<html><body>No form type here</body></html>";

    let result = parse_html(html);
    assert!(result.is_err(), "Should fail when no form type found");
}

#[test]
fn test_parse_invalid_json() {
    let json = r#"{"invalid": json"#;

    let result = parse_json(json);
    assert!(result.is_err(), "Should fail on malformed JSON");
}

#[test]
fn test_empty_input_parsing() {
    let result = parse_auto("");
    assert!(result.is_err(), "Should fail on empty input");
}

#[test]
fn test_very_large_input() {
    let large_html = format!("<html><body>FORM 10-K\n{}</body></html>", "x".repeat(1_000_000));

    let doc = parse_html(&large_html).unwrap();
    assert_eq!(doc.form_type.to_string(), "10-K");
    assert!(doc.size_bytes > 1_000_000);
}

#[test]
fn test_unicode_in_documents() {
    let html = r#"
<html>
<head><title>Test 测试 Company</title></head>
<body>FORM 10-K with unicode: café, naïve, 日本語</body>
</html>
    "#;

    let doc = parse_html(html).unwrap();
    assert_eq!(doc.form_type.to_string(), "10-K");
    assert!(doc.title.unwrap().contains("测试"));
}

#[test]
fn test_form_type_parsing_regression() {
    let test_cases = vec![
        ("10-K", "10-K"),
        ("10-Q", "10-Q"),
        ("8-K", "8-K"),
        ("SC 13D", "SC 13D"),
        ("SC 13G", "SC 13G"),
        ("DEF 14A", "DEF 14A"),
    ];

    for (input, expected) in test_cases {
        let html = format!("<html><body>FORM {}</body></html>", input);
        let doc = parse_html(&html).unwrap();
        assert_eq!(doc.form_type.to_string(), expected);
    }
}

#[test]
fn test_parse_html_basic() {
    let html = "<html><body>FORM 10-K</body></html>";
    let doc = parse_html(html).unwrap();
    assert_eq!(doc.form_type, "10-K");
}

#[test]
fn test_parse_json_basic() {
    let json = r#"{"submissionType":"8-K"}"#;
    let doc = parse_json(json).unwrap();
    assert_eq!(doc.form_type, "8-K");
}

#[test]
fn test_parse_json_with_entity() {
    let json = r#"{"submissionType":"10-K","entityName":"Test Corp"}"#;
    let doc = parse_json(json).unwrap();
    assert_eq!(doc.form_type, "10-K");
    assert_eq!(doc.title.unwrap(), "Test Corp");
}

#[test]
fn parse_valid_input_returns_expected_structure() {
    let json = r#"{"submissionType":"10-K","entityName":"Test Corp","cik":"1"}"#;
    let doc = parse_json(json).unwrap();
    assert_eq!(doc.form_type, "10-K");
    assert_eq!(doc.format, DocumentFormat::Json);
    assert_eq!(doc.title, Some("Test Corp".to_string()));
    assert_eq!(doc.size_bytes, json.len());
}

#[test]
fn parse_invalid_input_returns_error() {
    match parse_json("{\"submissionType\": ") {
        Err(EdgarError::Parse { format, .. }) => assert_eq!(format, "JSON"),
        other => panic!("unexpected result: {:?}", other),
    }
    match parse_json("{\"other\": 1}") {
        Err(EdgarError::Parse { format, reason }) => {
            assert_eq!(format, "JSON");
            assert_eq!(reason, "Missing submissionType in JSON");
        }
        other => panic!("unexpected result: {:?}", other),
    }
    match parse_text("nothing to see") {
        Err(EdgarError::Parse { format, reason }) => {
            assert_eq!(format, "Text");
            assert_eq!(reason, "Could not determine form type from document");
        }
        other => panic!("unexpected result: {:?}", other),
    }
}

#[test]
fn handle_empty_input_gracefully() {
    assert!(parse_html("").is_err());
    assert!(parse_json("").is_err());
    assert!(parse_text("").is_err());
    assert!(extract_tables("", 0).is_empty());
    assert!(extract_tables("", 3).is_empty());
    assert_eq!(detect_format(""), DocumentFormat::Text);
    assert!(matches!(HtmlParser.parse(""), Err(ParserError::Parse(_))));
    assert!(matches!(JsonParser.parse(""), Err(ParserError::ParseDetail(_))));
}

#[test]
fn unicode_handling_preserves_non_ascii() {
    let html = "<html><head><title>\u{3000}Société Générale – 年次報告\u{a0}</title></head><body>FORM 20-F</body></html>";
    let doc = parse_html(html).unwrap();
    assert_eq!(doc.title, Some("Société Générale – 年次報告".to_string()));
    assert_eq!(doc.form_type, "20-F");
    assert_eq!(doc.size_bytes, html.len());
    let tables = extract_tables("año\u{2003}2023 más\nx", 2);
    assert_eq!(tables, vec![vec![vec!["año".to_string(), "2023".to_string(), "más".to_string()]]]);
}

#[test]
fn large_input_processing_completes_within_reasonable_limits() {
    let mut text = String::new();
    for i in 0..20_000 {
        text.push_str(&format!("{} {} {}\n", i, i + 1, i + 2));
        if i % 1000 == 999 {
            text.push_str("break\n");
        }
    }
    let tables = extract_tables(&text, 3);
    assert_eq!(tables.len(), 20);
    assert!(tables.iter().all(|t| t.len() == 1000));
    assert_eq!(tables[19][999], vec!["19999".to_string(), "20000".to_string(), "20001".to_string()]);
}

#[test]
fn tables_are_runs_of_wide_lines() {
    let text = "a b\nc d e\n\nf g\nh\ni j\n";
    assert_eq!(
        extract_tables(text, 2),
        vec![
            vec![
                vec!["a".to_string(), "b".to_string()],
                vec!["c".to_string(), "d".to_string(), "e".to_string()],
            ],
            vec![vec!["f".to_string(), "g".to_string()]],
            vec![vec!["i".to_string(), "j".to_string()]],
        ]
    );
    // With no minimum every line is a row, the empty ones too.
    let all = extract_tables("a\n\nb\n", 0);
    assert_eq!(all.len(), 1);
    assert_eq!(all[0].len(), 3);
    assert!(all[0][1].is_empty());
    // Windows line ends do not show in the cells.
    assert_eq!(
        extract_tables("1 2\r\n3 4\r\n", 2),
        vec![vec![
            vec!["1".to_string(), "2".to_string()],
            vec!["3".to_string(), "4".to_string()]
        ]]
    );
}

#[test]
fn data_format_names() {
    assert_eq!(DataFormat::from_str(" HTML ").unwrap(), DataFormat::Html);
    assert_eq!(DataFormat::from_str("json").unwrap(), DataFormat::Json);
    assert_eq!(DataFormat::from_str("xml").unwrap(), DataFormat::Xbrl);
    assert_eq!(DataFormat::from_str("XBRL").unwrap(), DataFormat::Xbrl);
    match DataFormat::from_str(" PDF ") {
        Err(edgars::errors::ValidationError::UnknownFormat(other)) => assert_eq!(other, "pdf"),
        other => panic!("unexpected result: {:?}", other),
    }
    assert_eq!(DataFormat::Html.to_string(), "html");
    assert_eq!(DataFormat::Json.to_string(), "json");
    assert_eq!(DataFormat::Xbrl.to_string(), "xbrl");
    assert_eq!(DocumentFormat::Xml.to_string(), "XML");
}

#[test]
fn json_documents_default_to_10q() {
    let doc = JsonParser.parse(r#"{"title": 5}"#).unwrap();
    assert_eq!(doc.form_type, SecFormType::TenQ);
    assert_eq!(doc.title, None);
    assert_eq!(doc.bytes, 12);
}

#[test]
fn html_titles_are_trimmed_and_blank_titles_dropped() {
    let doc = HtmlParser.parse("<title>  Padded\n</title>FORM 8-K").unwrap();
    assert_eq!(doc.title, Some("Padded".to_string()));
    let doc = HtmlParser.parse("<title>   </title>FORM 8-K").unwrap();
    assert_eq!(doc.title, None);
    let doc = HtmlParser.parse("FORM 8-K").unwrap();
    assert_eq!(doc.title, None);
}

#[test]
fn document_builders() {
    let doc = Document::new("10-K", DocumentFormat::Html);
    assert_eq!(doc.form_type, "10-K");
    assert_eq!(doc.format, DocumentFormat::Html);
    assert_eq!(doc.title, None);
    assert_eq!(doc.size_bytes, 0);
    let doc = doc.with_title("Annual Report").with_size(42);
    assert_eq!(doc.title, Some("Annual Report".to_string()));
    assert_eq!(doc.size_bytes, 42);
    assert_eq!(doc.form_type, "10-K");
}

#[test]
fn formats_are_detected_by_the_first_character() {
    assert_eq!(detect_format("  {\"a\": 1}"), DocumentFormat::Json);
    assert_eq!(detect_format("[1]"), DocumentFormat::Json);
    assert_eq!(detect_format("\n<html>"), DocumentFormat::Html);
    assert_eq!(detect_format("FORM 10-K"), DocumentFormat::Text);
}
