//! Request and response validation.
//!
//! A request goes out only to an HTTPS URL whose host is on an allowlist,
//! and only with a User-Agent that names a contact. This is checked before
//! the rate limiter is asked and before any network I/O.

use crate::errors::{NetworkError, ValidationError, STATUS_OK};
use crate::numbers::{parse_u32, parse_u64, parse_unsigned};
use crate::text::{chars_of, ends_with, has_suffix, is_text, lower, same, to_lower};
use vstd::prelude::*;
use vstd::string::StringExecFns;
use vstd::utf8::encode_utf8;

verus! {

/// What the `url` crate makes of a string: the scheme and the host of the
/// URL, or the parser's message where the string is no absolute URL.
pub uninterp spec fn url_components(input: Seq<char>) -> Result<
    (Seq<char>, Option<Seq<char>>),
    Seq<char>,
>;

/// The parts of a URL that validation reads.
#[derive(Debug)]
pub struct UrlParts {
    /// The scheme, in lower case, without the colon.
    pub scheme: String,
    /// The host, if the URL has one.
    pub host: Option<String>,
}

impl UrlParts {
    /// The scheme and the host as sequences of characters.
    pub open spec fn components(self) -> (Seq<char>, Option<Seq<char>>) {
        (
            self.scheme@,
            match self.host {
                Some(h) => Some(h@),
                None => None,
            },
        )
    }
}

/// Parses `input` with `url::Url::parse` and copies out the scheme
/// (`Url::scheme`) and the host (`Url::host_str`); on failure, the text of
/// the parser's error. The contract only names the result: it is whatever
/// the `url` crate computes from the characters of `input`.
#[verifier::external_body]
fn parse_url(input: &str) -> (r: Result<UrlParts, String>)
    ensures
        match r {
            Ok(parts) => url_components(input@) == Ok::<
                (Seq<char>, Option<Seq<char>>),
                Seq<char>,
            >(parts.components()),
            Err(message) => url_components(input@) == Err::<
                (Seq<char>, Option<Seq<char>>),
                Seq<char>,
            >(message@),
        },
{
    match url::Url::parse(input) {
        Ok(u) => Ok(
            UrlParts { scheme: u.scheme().to_string(), host: u.host_str().map(|h| h.to_string()) },
        ),
        Err(e) => Err(e.to_string()),
    }
}

/// The verdict on a URL.
pub enum UrlVerdict {
    /// The request may be made.
    Accepted,
    /// The string is no absolute URL; the parser's message.
    Malformed(Seq<char>),
    /// The scheme is not HTTPS.
    InsecureScheme,
    /// The URL has no host.
    MissingHost,
    /// The host is not on the allowlist.
    ForeignHost(Seq<char>),
}

/// Why a URL was refused.
#[derive(Debug)]
pub enum UrlRefusal {
    /// The string is no absolute URL; the parser's message.
    Malformed(String),
    /// The scheme is not HTTPS.
    InsecureScheme,
    /// The URL has no host.
    MissingHost,
    /// The host is not on the allowlist.
    ForeignHost(String),
}

impl UrlRefusal {
    /// The refusal as a verdict.
    pub open spec fn verdict(self) -> UrlVerdict {
        match self {
            UrlRefusal::Malformed(m) => UrlVerdict::Malformed(m@),
            UrlRefusal::InsecureScheme => UrlVerdict::InsecureScheme,
            UrlRefusal::MissingHost => UrlVerdict::MissingHost,
            UrlRefusal::ForeignHost(h) => UrlVerdict::ForeignHost(h@),
        }
    }
}

/// The verdict that a result of validation stands for.
pub open spec fn verdict_of(r: Result<(), UrlRefusal>) -> UrlVerdict {
    match r {
        Ok(()) => UrlVerdict::Accepted,
        Err(e) => e.verdict(),
    }
}

/// Whether `host` ends with one of `domains`.
pub open spec fn host_allowed(host: Seq<char>, domains: Seq<Seq<char>>) -> bool {
    exists|i: int| 0 <= i < domains.len() && ends_with(host, #[trigger] domains[i])
}

/// The verdict on a scheme and a host: the scheme has to be `https`, the
/// host has to be there and has to end with one of `domains`. Nothing else
/// of the URL is looked at.
pub open spec fn judge_components(
    scheme: Seq<char>,
    host: Option<Seq<char>>,
    domains: Seq<Seq<char>>,
) -> UrlVerdict {
    if scheme != "https"@ {
        UrlVerdict::InsecureScheme
    } else {
        match host {
            None => UrlVerdict::MissingHost,
            Some(h) => if host_allowed(h, domains) {
                UrlVerdict::Accepted
            } else {
                UrlVerdict::ForeignHost(h)
            },
        }
    }
}

/// The verdict on what the parser made of a URL.
pub open spec fn judge(
    parsed: Result<(Seq<char>, Option<Seq<char>>), Seq<char>>,
    domains: Seq<Seq<char>>,
) -> UrlVerdict {
    match parsed {
        Err(message) => UrlVerdict::Malformed(message),
        Ok((scheme, host)) => judge_components(scheme, host, domains),
    }
}

/// Validator determinism. The verdict on a parsed URL is a function of its
/// scheme and host alone: two URLs that agree on both get the same verdict,
/// whatever their paths and queries.
pub proof fn lemma_verdict_depends_on_scheme_and_host(
    a: (Seq<char>, Option<Seq<char>>),
    b: (Seq<char>, Option<Seq<char>>),
    domains: Seq<Seq<char>>,
)
    requires
        a.0 == b.0,
        a.1 == b.1,
    ensures
        judge(Ok(a), domains) == judge(Ok(b), domains),
{
}

/// Plain HTTP is rejected for every host and every allowlist.
pub proof fn lemma_http_always_rejected(host: Option<Seq<char>>, domains: Seq<Seq<char>>)
    ensures
        judge(Ok(("http"@, host)), domains) == UrlVerdict::InsecureScheme,
{
    reveal_strlit("http");
    reveal_strlit("https");
    assert("http"@.len() != "https"@.len());
}

/// An HTTPS URL whose host ends with an allowlisted domain is accepted,
/// whatever else the URL holds.
pub proof fn lemma_allowed_https_accepted(host: Seq<char>, domains: Seq<Seq<char>>, i: int)
    requires
        0 <= i < domains.len(),
        ends_with(host, domains[i]),
    ensures
        judge(Ok(("https"@, Some(host))), domains) == UrlVerdict::Accepted,
{
}

/// Enforces the transport and domain allowlist on request URLs.
#[derive(Debug)]
pub struct RequestValidator {
    allowed: Vec<String>,
}

impl RequestValidator {
    /// The allowlisted domains.
    pub closed spec fn domains(&self) -> Seq<Seq<char>> {
        Seq::new(self.allowed@.len(), |i: int| self.allowed@[i]@)
    }

    /// A validator that allows hosts that end with one of `allowed`.
    pub fn new(allowed: Vec<String>) -> (r: RequestValidator)
        ensures
            r.domains() == Seq::new(allowed@.len(), |i: int| allowed@[i]@),
    {
        RequestValidator { allowed }
    }

    /// The validator for the SEC: hosts that end with `sec.gov`.
    pub fn sec() -> (r: RequestValidator)
        ensures
            r.domains() == seq!["sec.gov"@],
    {
        let mut allowed: Vec<String> = Vec::new();
        allowed.push(String::from_str("sec.gov"));
        let r = RequestValidator { allowed };
        assert(r.domains() =~= seq!["sec.gov"@]);
        r
    }

    /// Whether `host` ends with an allowlisted domain.
    pub fn allows_host(&self, host: &str) -> (r: bool)
        ensures
            r == host_allowed(host@, self.domains()),
    {
        let h = chars_of(host);
        let mut i: usize = 0;
        while i < self.allowed.len()
            invariant
                i <= self.allowed.len(),
                h@ == host@,
                forall|j: int| 0 <= j < i ==> !ends_with(host@, #[trigger] self.domains()[j]),
            decreases self.allowed.len() - i,
        {
            let d = chars_of(self.allowed[i].as_str());
            assert(d@ == self.domains()[i as int]);
            if has_suffix(&h, &d) {
                return true;
            }
            i += 1;
        }
        false
    }

    /// Judges the parts of a parsed URL.
    pub fn check(&self, parts: &UrlParts) -> (r: Result<(), UrlRefusal>)
        ensures
            verdict_of(r) == judge_components(
                parts.components().0,
                parts.components().1,
                self.domains(),
            ),
    {
        let scheme = chars_of(parts.scheme.as_str());
        if !is_text(&scheme, "https") {
            return Err(UrlRefusal::InsecureScheme);
        }
        match &parts.host {
            None => Err(UrlRefusal::MissingHost),
            Some(h) => {
                if self.allows_host(h.as_str()) {
                    Ok(())
                } else {
                    Err(UrlRefusal::ForeignHost(h.clone()))
                }
            },
        }
    }

    /// Validates a URL: it has to parse, its scheme has to be HTTPS, and its
    /// host has to be there and on the allowlist, in this order.
    pub fn validate(&self, url: &str) -> (r: Result<(), UrlRefusal>)
        ensures
            verdict_of(r) == judge(url_components(url@), self.domains()),
    {
        match parse_url(url) {
            Err(message) => Err(UrlRefusal::Malformed(message)),
            Ok(parts) => self.check(&parts),
        }
    }
}

/// The text of the validation error for a refused SEC URL.
pub open spec fn sec_url_message(verdict: UrlVerdict) -> Seq<char> {
    match verdict {
        UrlVerdict::Accepted => Seq::empty(),
        UrlVerdict::Malformed(m) => "Invalid URL: "@ + m,
        UrlVerdict::InsecureScheme => "Only HTTPS URLs allowed for SEC requests"@,
        UrlVerdict::MissingHost => "URL missing host"@,
        UrlVerdict::ForeignHost(h) => "Only sec.gov URLs allowed, got: "@ + h,
    }
}

/// The verdict of the SEC validator on a URL.
pub open spec fn sec_url_verdict(url: Seq<char>) -> UrlVerdict {
    judge(url_components(url), seq!["sec.gov"@])
}

/// Validate that a URL is suitable for SEC API requests: an HTTPS URL whose
/// host ends with `sec.gov`.
pub fn validate_sec_url(url: &str) -> (r: Result<(), ValidationError>)
    ensures
        match r {
            Ok(()) => sec_url_verdict(url@) is Accepted,
            Err(ValidationError::Invalid(m)) => !(sec_url_verdict(url@) is Accepted) && m@
                == sec_url_message(sec_url_verdict(url@)),
            Err(ValidationError::UnknownFormat(_)) => false,
        },
{
    let validator = RequestValidator::sec();
    match validator.validate(url) {
        Ok(()) => Ok(()),
        Err(UrlRefusal::Malformed(m)) => {
            let mut text = String::from_str("Invalid URL: ");
            text.append(m.as_str());
            Err(ValidationError::Invalid(text))
        },
        Err(UrlRefusal::InsecureScheme) => Err(
            ValidationError::Invalid(String::from_str("Only HTTPS URLs allowed for SEC requests")),
        ),
        Err(UrlRefusal::MissingHost) => Err(
            ValidationError::Invalid(String::from_str("URL missing host")),
        ),
        Err(UrlRefusal::ForeignHost(h)) => {
            let mut text = String::from_str("Only sec.gov URLs allowed, got: ");
            text.append(h.as_str());
            Err(ValidationError::Invalid(text))
        },
    }
}

/// Check if a URL is a valid SEC URL without returning an error.
pub fn is_valid_sec_url(url: &str) -> (r: bool)
    ensures
        r == (sec_url_verdict(url@) is Accepted),
{
    validate_sec_url(url).is_ok()
}

/// What is wrong with a User-Agent, if anything: it is empty, it holds no
/// `@`, or it is shorter than ten bytes, in this order.
pub open spec fn user_agent_problem(user_agent: Seq<char>) -> Option<Seq<char>> {
    if user_agent.len() == 0 {
        Some("User-Agent cannot be empty"@)
    } else if !user_agent.contains('@') {
        Some("User-Agent must include contact email per SEC requirements"@)
    } else if encode_utf8(user_agent).len() < 10 {
        Some("User-Agent must include company name and contact information"@)
    } else {
        None
    }
}

/// Whether `c` occurs in `s`.
pub fn has_char(s: &str, c: char) -> (r: bool)
    ensures
        r == s@.contains(c),
{
    let v = chars_of(s);
    let mut i: usize = 0;
    while i < v.len()
        invariant
            i <= v.len(),
            v@ == s@,
            forall|j: int| 0 <= j < i ==> v@[j] != c,
        decreases v.len() - i,
    {
        if v[i] == c {
            return true;
        }
        i += 1;
    }
    false
}

/// Validate that a User-Agent header meets SEC requirements: it names the
/// application and a contact address.
pub fn validate_user_agent(user_agent: &str) -> (r: Result<(), ValidationError>)
    ensures
        match r {
            Ok(()) => user_agent_problem(user_agent@) is None,
            Err(ValidationError::Invalid(m)) => user_agent_problem(user_agent@) == Some(m@),
            Err(ValidationError::UnknownFormat(_)) => false,
        },
{
    if user_agent.is_empty() {
        return Err(ValidationError::Invalid(String::from_str("User-Agent cannot be empty")));
    }
    if !has_char(user_agent, '@') {
        return Err(
            ValidationError::Invalid(
                String::from_str("User-Agent must include contact email per SEC requirements"),
            ),
        );
    }
    if user_agent.as_bytes().len() < 10 {
        return Err(
            ValidationError::Invalid(
                String::from_str("User-Agent must include company name and contact information"),
            ),
        );
    }
    Ok(())
}

/// Validate that a response status is acceptable: 200 is, and every other
/// status is the network error that stands for it.
pub fn validate_status(status: u16) -> (r: Result<(), NetworkError>)
    ensures
        match r {
            Ok(()) => status == STATUS_OK,
            Err(e) => status != STATUS_OK && e == NetworkError::of_status(status),
        },
{
    if status == STATUS_OK {
        Ok(())
    } else {
        Err(NetworkError::from_status(status))
    }
}

/// Information extracted from response headers.
#[derive(Debug)]
pub struct ResponseInfo {
    /// Number of requests remaining in rate limit window.
    pub rate_limit_remaining: Option<u32>,
    /// Timestamp when rate limit resets.
    pub rate_limit_reset: Option<u64>,
    /// Content-Type of the response.
    pub content_type: Option<String>,
}

impl ResponseInfo {
    /// Check if rate limit is close to being exceeded: fewer than 2 requests
    /// remain.
    pub fn is_rate_limit_low(&self) -> (r: bool)
        ensures
            r == (self.rate_limit_remaining matches Some(n) && n < 2),
    {
        match self.rate_limit_remaining {
            Some(n) => n < 2,
            None => false,
        }
    }
}

impl Default for ResponseInfo {
    fn default() -> (r: ResponseInfo)
        ensures
            r.rate_limit_remaining is None,
            r.rate_limit_reset is None,
            r.content_type is None,
    {
        ResponseInfo { rate_limit_remaining: None, rate_limit_reset: None, content_type: None }
    }
}

/// The index of the first header of `headers` whose name is `name` without
/// regard to ASCII case, from index `from` on.
pub open spec fn header_index(headers: Seq<(String, String)>, name: Seq<char>, from: int) -> Option<
    int,
>
    decreases headers.len() - from,
{
    if from < 0 || from >= headers.len() {
        None
    } else if lower(headers[from].0@) == lower(name) {
        Some(from)
    } else {
        header_index(headers, name, from + 1)
    }
}

/// The value of the first header named `name`, without regard to ASCII case.
pub open spec fn header_value(headers: Seq<(String, String)>, name: Seq<char>) -> Option<
    Seq<char>,
> {
    match header_index(headers, name, 0) {
        Some(i) => Some(headers[i].1@),
        None => None,
    }
}

/// The value of the first header named `name`, without regard to ASCII case.
pub fn find_header<'a>(headers: &'a Vec<(String, String)>, name: &str) -> (r: Option<&'a String>)
    ensures
        match r {
            Some(v) => header_value(headers@, name@) == Some(v@),
            None => header_value(headers@, name@) is None,
        },
{
    let wanted = to_lower(&chars_of(name));
    let mut i: usize = 0;
    while i < headers.len()
        invariant
            i <= headers.len(),
            wanted@ == lower(name@),
            header_index(headers@, name@, 0) == header_index(headers@, name@, i as int),
        decreases headers.len() - i,
    {
        let n = to_lower(&chars_of(headers[i].0.as_str()));
        if same(&n, &wanted) {
            return Some(&headers[i].1);
        }
        i += 1;
    }
    None
}

/// The number that a header value spells, if it spells one of at most `max`.
pub open spec fn header_number(value: Option<Seq<char>>, max: nat) -> Option<nat> {
    match value {
        Some(v) => parse_unsigned(v, max),
        None => None,
    }
}

/// Validate response headers: reads the rate-limit headers
/// `x-ratelimit-remaining` and `x-ratelimit-reset`, where they hold a
/// number, and the content type.
pub fn validate_response_headers(headers: &Vec<(String, String)>) -> (r: ResponseInfo)
    ensures
        match r.rate_limit_remaining {
            Some(n) => header_number(
                header_value(headers@, "x-ratelimit-remaining"@),
                u32::MAX as nat,
            ) == Some(n as nat),
            None => header_number(
                header_value(headers@, "x-ratelimit-remaining"@),
                u32::MAX as nat,
            ) is None,
        },
        match r.rate_limit_reset {
            Some(n) => header_number(header_value(headers@, "x-ratelimit-reset"@), u64::MAX as nat)
                == Some(n as nat),
            None => header_number(header_value(headers@, "x-ratelimit-reset"@), u64::MAX as nat)
                is None,
        },
        match r.content_type {
            Some(t) => header_value(headers@, "content-type"@) == Some(t@),
            None => header_value(headers@, "content-type"@) is None,
        },
{
    let rate_limit_remaining = match find_header(headers, "x-ratelimit-remaining") {
        Some(v) => parse_u32(&chars_of(v.as_str())),
        None => None,
    };
    let rate_limit_reset = match find_header(headers, "x-ratelimit-reset") {
        Some(v) => parse_u64(&chars_of(v.as_str())),
        None => None,
    };
    let content_type = match find_header(headers, "content-type") {
        Some(v) => Some(v.clone()),
        None => None,
    };
    ResponseInfo { rate_limit_remaining, rate_limit_reset, content_type }
}

} // verus!
