use edgars::errors::{NetworkError, ValidationError};
use edgars::validation::{
    find_header, is_valid_sec_url, validate_response_headers, validate_sec_url, validate_status,
    validate_user_agent, RequestValidator, ResponseInfo, UrlParts, UrlRefusal,
};

#[test]
fn test_valid_sec_urls() {
    assert!(validate_sec_url("https://www.sec.gov/cgi-bin/browse-edgar").is_ok());
    assert!(validate_sec_url("https://data.sec.gov/submissions/CIK0000320193.json").is_ok());
    assert!(validate_sec_url("https://sec.gov/Archives/edgar/data/320193/0000320193-23-000077.txt").is_ok());
}

#[test]
fn test_invalid_urls() {
    // HTTP not allowed
    assert!(validate_sec_url("http://www.sec.gov/test").is_err());

    // Wrong domain
    assert!(validate_sec_url("https://www.example.com/test").is_err());

    // Invalid URL format
    assert!(validate_sec_url("not a url").is_err());
}

#[test]
fn test_validate_user_agent_valid() {
    assert!(validate_user_agent("MyApp contact@example.com").is_ok());
    assert!(validate_user_agent("Company/1.0 admin@company.com").is_ok());
}

#[test]
fn test_validate_user_agent_invalid() {
    assert!(validate_user_agent("").is_err());
    assert!(validate_user_agent("MyApp").is_err()); // Missing email
    assert!(validate_user_agent("a@b.c").is_err()); // Too short
}

#[test]
fn test_validate_status() {
    assert!(validate_status(200).is_ok());
    assert!(validate_status(429).is_err());
    assert!(validate_status(404).is_err());
    assert!(validate_status(500).is_err());
}

#[test]
fn test_validate_sec_url() {
    assert!(validate_sec_url("https://data.sec.gov/api/xbrl/companyfacts/CIK0000320193.json").is_ok());
    assert!(validate_sec_url("https://www.sec.gov/cgi-bin/browse-edgar").is_ok());

    assert!(validate_sec_url("http://data.sec.gov/api").is_err()); // Not HTTPS
    assert!(validate_sec_url("https://evil.com/fake").is_err()); // Wrong domain
}

#[test]
fn test_response_info_rate_limit_low() {
    let mut info = ResponseInfo::default();

    info.rate_limit_remaining = Some(5);
    assert!(!info.is_rate_limit_low());

    info.rate_limit_remaining = Some(1);
    assert!(info.is_rate_limit_low());

    info.rate_limit_remaining = None;
    assert!(!info.is_rate_limit_low());
}

#[test]
fn validator_with_configured_domain() {
    let v = RequestValidator::new(vec!["example.org".to_string()]);
    assert!(matches!(v.validate("http://example.com/test"), Err(UrlRefusal::InsecureScheme)));
    match v.validate("https://example.com/test") {
        Err(UrlRefusal::ForeignHost(host)) => assert_eq!(host, "example.com"),
        other => panic!("unexpected result: {:?}", other),
    }
    assert!(v.validate("https://api.example.org/x").is_ok());
}

#[test]
fn verdict_is_a_function_of_scheme_and_host() {
    let v = RequestValidator::sec();
    for path in ["", "/", "/a/b?c=d&e=f", "/x#frag", "/%20?q=http://evil.com"] {
        assert!(v.validate(&format!("https://www.sec.gov{}", path)).is_ok());
        assert!(v.validate(&format!("https://data.sec.gov{}", path)).is_ok());
        assert!(v.validate(&format!("http://www.sec.gov{}", path)).is_err());
        assert!(v.validate(&format!("https://example.com{}", path)).is_err());
    }
    // The same URL always gets the same verdict.
    for _ in 0..3 {
        assert!(v.validate("https://www.sec.gov/x").is_ok());
        assert!(v.validate("ftp://www.sec.gov/x").is_err());
    }
}

#[test]
fn refusals_in_order() {
    let v = RequestValidator::sec();
    assert!(matches!(v.validate("not a url"), Err(UrlRefusal::Malformed(_))));
    assert!(matches!(v.validate("http://example.com/"), Err(UrlRefusal::InsecureScheme)));
    assert!(matches!(v.validate("https:///"), Err(UrlRefusal::Malformed(_))));
    assert!(matches!(v.validate("https://10.0.0.1/test"), Err(UrlRefusal::ForeignHost(_))));
    assert!(matches!(v.validate("https://localhost/test"), Err(UrlRefusal::ForeignHost(_))));
    assert!(v.validate("HTTPS://WWW.SEC.GOV/").is_ok());
    assert!(v.allows_host("sec.gov"));
    assert!(!v.allows_host("sec.gov.example.com"));
}

#[test]
fn parts_are_judged_exactly() {
    let v = RequestValidator::new(vec!["sec.gov".to_string(), "example.org".to_string()]);
    let parts = |scheme: &str, host: Option<&str>| UrlParts {
        scheme: scheme.to_string(),
        host: host.map(|h| h.to_string()),
    };
    assert!(v.check(&parts("https", Some("www.sec.gov"))).is_ok());
    assert!(v.check(&parts("https", Some("example.org"))).is_ok());
    assert!(matches!(v.check(&parts("http", Some("www.sec.gov"))), Err(UrlRefusal::InsecureScheme)));
    assert!(matches!(v.check(&parts("http", None)), Err(UrlRefusal::InsecureScheme)));
    assert!(matches!(v.check(&parts("https", None)), Err(UrlRefusal::MissingHost)));
    assert!(matches!(v.check(&parts("https", Some("sec.gov.evil.com"))), Err(UrlRefusal::ForeignHost(_))));
    let nobody = RequestValidator::new(vec![]);
    assert!(nobody.check(&parts("https", Some("www.sec.gov"))).is_err());
}

#[test]
fn sec_url_messages() {
    let message = |url: &str| match validate_sec_url(url) {
        Err(ValidationError::Invalid(m)) => m,
        other => panic!("unexpected result: {:?}", other),
    };
    assert_eq!(message("http://www.sec.gov/test"), "Only HTTPS URLs allowed for SEC requests");
    assert_eq!(message("https://www.example.com/test"), "Only sec.gov URLs allowed, got: www.example.com");
    assert!(message("not a url").starts_with("Invalid URL: "));
    assert!(is_valid_sec_url("https://efts.sec.gov/LATEST/search-index?q=x"));
    assert!(!is_valid_sec_url("https://example.com/sec.gov"));
}

#[test]
fn user_agent_messages() {
    let message = |ua: &str| match validate_user_agent(ua) {
        Err(ValidationError::Invalid(m)) => m,
        other => panic!("unexpected result: {:?}", other),
    };
    assert_eq!(message(""), "User-Agent cannot be empty");
    assert_eq!(message("MyApp"), "User-Agent must include contact email per SEC requirements");
    assert_eq!(message("a@b.c"), "User-Agent must include company name and contact information");
    // The length is counted in bytes.
    assert!(validate_user_agent("é@éé.éé").is_ok());
    assert!(validate_user_agent("123456@89").is_err());
    assert!(validate_user_agent("123456@890").is_ok());
}

#[test]
fn statuses_map_to_errors() {
    assert!(matches!(validate_status(429), Err(NetworkError::RateLimited)));
    assert!(matches!(validate_status(404), Err(NetworkError::NotFound)));
    assert!(matches!(validate_status(500), Err(NetworkError::Status { code: 500 })));
    assert!(matches!(validate_status(201), Err(NetworkError::Status { code: 201 })));
    assert!(matches!(validate_status(304), Err(NetworkError::Status { code: 304 })));
}

#[test]
fn response_headers_are_read() {
    let headers = vec![
        ("Content-Type".to_string(), "application/json".to_string()),
        ("X-RateLimit-Remaining".to_string(), "7".to_string()),
        ("x-ratelimit-remaining".to_string(), "1".to_string()),
        ("x-ratelimit-reset".to_string(), "+1700000000".to_string()),
    ];
    let info = validate_response_headers(&headers);
    assert_eq!(info.rate_limit_remaining, Some(7));
    assert_eq!(info.rate_limit_reset, Some(1_700_000_000));
    assert_eq!(info.content_type, Some("application/json".to_string()));
    assert!(!info.is_rate_limit_low());
    assert_eq!(find_header(&headers, "CONTENT-TYPE"), Some(&"application/json".to_string()));
    assert_eq!(find_header(&headers, "etag"), None);

    let odd = vec![
        ("x-ratelimit-remaining".to_string(), "4294967296".to_string()),
        ("x-ratelimit-reset".to_string(), "-5".to_string()),
    ];
    let info = validate_response_headers(&odd);
    assert_eq!(info.rate_limit_remaining, None);
    assert_eq!(info.rate_limit_reset, None);
    assert_eq!(info.content_type, None);

    let edge = vec![
        ("x-ratelimit-remaining".to_string(), "4294967295".to_string()),
        ("x-ratelimit-reset".to_string(), "18446744073709551615".to_string()),
    ];
    let info = validate_response_headers(&edge);
    assert_eq!(info.rate_limit_remaining, Some(u32::MAX));
    assert_eq!(info.rate_limit_reset, Some(u64::MAX));

    let over = vec![("x-ratelimit-reset".to_string(), "18446744073709551616".to_string())];
    assert_eq!(validate_response_headers(&over).rate_limit_reset, None);
    let blank = vec![("x-ratelimit-reset".to_string(), "+".to_string())];
    assert_eq!(validate_response_headers(&blank).rate_limit_reset, None);
}
