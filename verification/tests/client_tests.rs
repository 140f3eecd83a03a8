use edgars::client::{classify, Attempt, FetchOutcome, FetchStep, RequestDescriptor, SecClient};
use edgars::errors::{FetchError, NetworkError, ParseError, ValidationError};
use edgars::rate_limit::Admission;
use std::cell::{Cell, RefCell};

const GZIPPED: [u8; 43] = [
    31, 139, 8, 0, 0, 0, 0, 0, 2, 255, 43, 201, 76, 206, 78, 45, 226, 76, 206, 204, 230, 74, 76,
    44, 200, 225, 52, 54, 50, 48, 180, 52, 230, 2, 0, 85, 88, 94, 207, 23, 0, 0, 0,
];

fn ok_response(body: &[u8]) -> Attempt {
    Attempt::Response { status: 200, content_encoding: None, body: body.to_vec() }
}

fn status(code: u16) -> Attempt {
    Attempt::Response { status: code, content_encoding: None, body: Vec::new() }
}

#[test]
fn mod_test_client_creation() {
    let client = SecClient::new();
    assert_eq!(client.timeout_ms(), 30_000);
}

#[test]
fn test_client_builder() {
    let client = SecClient::new()
        .user_agent("custom/1.0".to_string())
        .timeout(60_000)
        .without_rate_limit();

    assert_eq!(client.timeout_ms(), 60_000);
    assert_eq!(client.user_agent_str(), "custom/1.0");
    assert!(!client.is_rate_limited());
}

#[test]
fn client_test_client_creation() {
    let client = SecClient::with_contact("TestApp/1.0", "test@example.com");
    assert!(client.user_agent_str().contains("TestApp/1.0"));
    assert!(client.user_agent_str().contains("test@example.com"));
}

#[test]
fn test_client_creation() {
    let client = SecClient::with_contact("TestApp", "test@example.com");
    assert_eq!(client.user_agent_str(), "TestApp test@example.com");
    assert!(client.is_rate_limited());
    assert!(client.retries());
    let client = SecClient::with_user_agent("a b@c".to_string()).without_retry();
    assert_eq!(client.user_agent_str(), "a b@c");
    assert!(!client.retries());
    assert_eq!(SecClient::with_timeout(5).timeout_ms(), 5);
}

#[test]
fn requests_are_described() {
    let client = SecClient::with_contact("MyApp", "contact@example.com").timeout(1_500);
    let request = client.prepare("https://www.sec.gov/include/ticker.txt", "text/plain").unwrap();
    assert_eq!(request.url, "https://www.sec.gov/include/ticker.txt");
    assert_eq!(request.user_agent, "MyApp contact@example.com");
    assert_eq!(request.accept, "text/plain");
    assert_eq!(request.accept_encoding, "gzip, deflate");
    assert_eq!(request.timeout_ms, 1_500);
}

#[test]
fn test_invalid_url_rejected() {
    let client = SecClient::new();
    let result = client.prepare("https://example.com/test", "*/*");
    assert!(result.is_err());
}

#[test]
fn test_client_invalid_domain() {
    let client = SecClient::new();
    match client.prepare("https://example.com/test", "*/*") {
        Err(FetchError::Validation(ValidationError::Invalid(m))) => assert!(m.contains("sec.gov")),
        other => panic!("unexpected result: {:?}", other),
    }
}

#[test]
fn test_client_http_rejected() {
    let client = SecClient::new();
    assert!(client.prepare("http://www.sec.gov/test", "*/*").is_err());
}

#[test]
fn test_url_validation_prevents_ssrf() {
    let client = SecClient::new();
    let internal_urls = vec![
        "https://localhost/test",
        "https://127.0.0.1/test",
        "https://10.0.0.1/test",
        "https://192.168.1.1/test",
    ];

    for url in internal_urls {
        let result = client.prepare(url, "*/*");
        assert!(result.is_err(), "Should reject internal URL: {}", url);
    }
}

#[test]
fn a_client_without_contact_sends_nothing() {
    let client = SecClient::new().user_agent("custom/1.0".to_string());
    match client.prepare("https://www.sec.gov/x", "*/*") {
        Err(FetchError::Validation(ValidationError::Invalid(m))) => {
            assert_eq!(m, "User-Agent must include contact email per SEC requirements")
        }
        other => panic!("unexpected result: {:?}", other),
    }
    // The URL is judged first.
    match client.prepare("http://www.sec.gov/x", "*/*") {
        Err(FetchError::Validation(ValidationError::Invalid(m))) => {
            assert_eq!(m, "Only HTTPS URLs allowed for SEC requests")
        }
        other => panic!("unexpected result: {:?}", other),
    }
}

#[test]
fn attempts_are_classified() {
    assert!(matches!(classify(ok_response(b"abc")), FetchOutcome::Success(b) if b == b"abc"));
    let zipped = Attempt::Response {
        status: 200,
        content_encoding: Some("gzip".to_string()),
        body: GZIPPED.to_vec(),
    };
    assert!(matches!(classify(zipped), FetchOutcome::Success(b) if b == b"ticker\tcik\naapl\t320193\n"));
    let odd = Attempt::Response {
        status: 200,
        content_encoding: Some("zstd".to_string()),
        body: vec![1],
    };
    assert!(matches!(
        classify(odd),
        FetchOutcome::FatalFailure(FetchError::Parse(ParseError::UnsupportedEncoding(_)))
    ));
    let damaged = Attempt::Response {
        status: 200,
        content_encoding: Some("gzip".to_string()),
        body: vec![1, 2, 3],
    };
    assert!(matches!(
        classify(damaged),
        FetchOutcome::FatalFailure(FetchError::Parse(ParseError::Decompress))
    ));
    assert!(matches!(
        classify(status(429)),
        FetchOutcome::RetryableFailure(FetchError::Network(NetworkError::RateLimited))
    ));
    assert!(matches!(
        classify(status(404)),
        FetchOutcome::FatalFailure(FetchError::Network(NetworkError::NotFound))
    ));
    assert!(matches!(
        classify(status(503)),
        FetchOutcome::RetryableFailure(FetchError::Network(NetworkError::Status { code: 503 }))
    ));
    assert!(matches!(
        classify(status(403)),
        FetchOutcome::FatalFailure(FetchError::Network(NetworkError::Status { code: 403 }))
    ));
    // Success is the one status 200, not the whole range.
    assert!(matches!(
        classify(status(204)),
        FetchOutcome::FatalFailure(FetchError::Network(NetworkError::Status { code: 204 }))
    ));
    assert!(matches!(
        classify(Attempt::Failed("connection reset".to_string())),
        FetchOutcome::RetryableFailure(FetchError::Network(NetworkError::General(m))) if m == "connection reset"
    ));
    assert!(matches!(
        classify(Attempt::TimedOut),
        FetchOutcome::RetryableFailure(FetchError::Network(NetworkError::Timeout))
    ));
}

fn request() -> RequestDescriptor {
    SecClient::with_contact("MyApp", "contact@example.com")
        .prepare("https://www.sec.gov/x", "*/*")
        .unwrap()
}

#[test]
fn two_failures_then_success_take_three_attempts() {
    let client = SecClient::new();
    let calls = Cell::new(0);
    let pauses = RefCell::new(Vec::new());
    let result = client.send(
        &request(),
        |_r| {
            calls.set(calls.get() + 1);
            if calls.get() < 3 {
                status(503)
            } else {
                ok_response(b"done")
            }
        },
        |ms| pauses.borrow_mut().push(ms),
    );
    assert_eq!(result.unwrap(), b"done");
    assert_eq!(calls.get(), 3);
    assert_eq!(*pauses.borrow(), vec![100, 200]);
}

#[test]
fn the_last_error_comes_back_verbatim() {
    let client = SecClient::new();
    let calls = Cell::new(0);
    let result = client.send(
        &request(),
        |_r| {
            calls.set(calls.get() + 1);
            match calls.get() {
                1 => Attempt::TimedOut,
                2 => status(502),
                _ => Attempt::Failed("reset".to_string()),
            }
        },
        |_ms| {},
    );
    assert!(matches!(result, Err(FetchError::Network(NetworkError::General(m))) if m == "reset"));
    assert_eq!(calls.get(), 3);
}

#[test]
fn test_client_404_handling() {
    let client = SecClient::new();
    let calls = Cell::new(0);
    let result = client.send(
        &request(),
        |_r| {
            calls.set(calls.get() + 1);
            status(404)
        },
        |_ms| panic!("a missing resource is not retried"),
    );
    assert!(matches!(result, Err(FetchError::Network(NetworkError::NotFound))));
    assert_eq!(calls.get(), 1);
}

#[test]
fn test_client_timeout() {
    let client = SecClient::new().without_retry();
    let calls = Cell::new(0);
    let result = client.send(
        &request(),
        |_r| {
            calls.set(calls.get() + 1);
            Attempt::TimedOut
        },
        |_ms| panic!("retrying is disabled"),
    );
    assert!(matches!(result, Err(FetchError::Network(NetworkError::Timeout))));
    assert_eq!(calls.get(), 1);
}

#[test]
fn every_attempt_gets_the_same_request() {
    let client = SecClient::new();
    let seen = RefCell::new(Vec::new());
    let req = request();
    let _ = client.send(
        &req,
        |r| {
            seen.borrow_mut().push((r.url.clone(), r.user_agent.clone(), r.timeout_ms));
            status(500)
        },
        |_ms| {},
    );
    let seen = seen.borrow();
    assert_eq!(seen.len(), 3);
    assert!(seen.iter().all(|s| *s == (req.url.clone(), req.user_agent.clone(), req.timeout_ms)));
}

#[test]
fn steps_are_decided() {
    let client = SecClient::new();
    let mut state = client.begin();
    assert_eq!((state.attempt, state.delay_ms), (1, 100));
    let retryable = || FetchOutcome::RetryableFailure(FetchError::Network(NetworkError::Timeout));
    assert!(matches!(client.settle(&mut state, retryable()), FetchStep::Retry(100)));
    assert!(matches!(client.settle(&mut state, retryable()), FetchStep::Retry(200)));
    assert_eq!((state.attempt, state.delay_ms), (3, 400));
    assert!(matches!(
        client.settle(&mut state, retryable()),
        FetchStep::Done(Err(FetchError::Network(NetworkError::Timeout)))
    ));
    let mut state = client.begin();
    let fatal = FetchOutcome::FatalFailure(FetchError::Parse(ParseError::Utf8));
    assert!(matches!(client.settle(&mut state, fatal), FetchStep::Done(Err(FetchError::Parse(ParseError::Utf8)))));
    assert_eq!(state.attempt, 1);
    assert!(matches!(
        client.settle(&mut state, FetchOutcome::Success(vec![7])),
        FetchStep::Done(Ok(b)) if b == vec![7]
    ));
}

#[test]
fn test_rate_limiting() {
    let mut client = SecClient::new();
    for _ in 0..10 {
        assert_eq!(client.acquire(0), Admission::Granted);
    }
    assert_eq!(client.acquire(0), Admission::Wait(100_000_000));
    assert_eq!(client.acquire(100_000_000), Admission::Granted);
    let mut free = SecClient::new().without_rate_limit();
    for _ in 0..100 {
        assert_eq!(free.acquire(0), Admission::Granted);
    }
}
