//! A compliant data-access client core for the SEC EDGAR service.
//!
//! The crate holds the decision logic of the client: admission control by a
//! token bucket, capped exponential backoff, request validation, response
//! classification and decoding, the identifier lookup cache, and the small
//! string utilities that surround them. Every function states its behaviour
//! in a contract that Verus proves.

use vstd::prelude::*;

pub mod cache;
pub mod cik;
pub mod client;
pub mod decode;
pub mod disk;
pub mod errors;
pub mod extract;
pub mod filings;
pub mod infer;
pub mod numbers;
pub mod parse;
pub mod pattern;
pub mod rate_limit;
pub mod retry;
pub mod store;
pub mod submissions;
pub mod text;
pub mod tickers;
pub mod urls;
pub mod validation;
pub mod xbrl;

pub use cache::LookupCache;
pub use cik::{format_cik, normalize_cik};
pub use client::SecClient;
pub use errors::{EdgarError, FetchError};
pub use filings::{is_valid_filing_type, FormType};
pub use parse::{parse_auto, parse_html, parse_json, parse_text, Document, DocumentFormat};
pub use rate_limit::{RateLimiter, SecRateLimiter};
pub use retry::RetryPolicy;
pub use urls::{build_document_url, build_filing_url, build_full_text_url};
pub use validation::{validate_sec_url, RequestValidator};

verus! {

/// Library version.
pub const VERSION: &'static str = "0.1.0";

/// Library name.
pub const NAME: &'static str = "edgars";

} // verus!
