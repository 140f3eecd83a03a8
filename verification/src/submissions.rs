//! Company submissions and filing history.
//!
//! The SEC reports the recent filings of a company as parallel arrays: index
//! `i` of each array belongs to the `i`-th filing. This module turns them
//! into filing records, newest first, and filters them.

use crate::errors::EdgarError;
use crate::filings::FormType;
use crate::text::{chars_of, push_all, push_text, same, string_of};
use crate::urls::{remove_char, without};
use chrono::Datelike;
use vstd::prelude::*;
use vstd::string::StringExecFns;

verus! {

/// An instant in UTC.
#[derive(Debug, Clone, Copy, PartialEq, Eq, Structural)]
pub struct Timestamp {
    /// Seconds since the start of 1970.
    pub secs: i64,
    /// Nanoseconds since the last whole second.
    pub nanos: u32,
    /// The calendar year in UTC.
    pub year: i32,
}

impl Timestamp {
    /// Whether `self` is earlier than `other`.
    pub open spec fn earlier_than(self, other: Timestamp) -> bool {
        self.secs < other.secs || (self.secs == other.secs && self.nanos < other.nanos)
    }

    /// Whether `self` is not later than `other`.
    pub open spec fn not_after(self, other: Timestamp) -> bool {
        !other.earlier_than(self)
    }

    /// Whether `self` is earlier than `other`.
    pub fn is_before(&self, other: &Timestamp) -> (r: bool)
        ensures
            r == self.earlier_than(*other),
    {
        self.secs < other.secs || (self.secs == other.secs && self.nanos < other.nanos)
    }
}

/// The instant that an RFC 3339 date and time denotes, as the `chrono` crate
/// reads it: seconds, nanoseconds and the year in UTC; `None` where the text
/// is no such date and time.
pub uninterp spec fn rfc3339_instant(text: Seq<char>) -> Option<(i64, u32, i32)>;

/// Parses `text` with `chrono::DateTime::parse_from_rfc3339`, moves the
/// result to UTC (`with_timezone`), and copies out `timestamp`,
/// `timestamp_subsec_nanos` and `year`. The contract only names the result.
#[verifier::external_body]
fn parse_rfc3339(text: &str) -> (r: Option<(i64, u32, i32)>)
    ensures
        r == rfc3339_instant(text@),
{
    chrono::DateTime::parse_from_rfc3339(text).ok().map(
        |d| {
            let utc = d.with_timezone(&chrono::Utc);
            (utc.timestamp(), utc.timestamp_subsec_nanos(), utc.year())
        },
    )
}

/// The instant that a piece of text denotes: an RFC 3339 date and time, or
/// a date of ten characters with two dashes, which stands for its midnight
/// in UTC.
pub open spec fn instant_of(text: Seq<char>) -> Option<(i64, u32, i32)> {
    if rfc3339_instant(text) is Some {
        rfc3339_instant(text)
    } else if text.len() == 10 && without(text, '-').len() == 8 {
        rfc3339_instant(text + "T00:00:00.000Z"@)
    } else {
        None
    }
}

/// The timestamp of seconds, nanoseconds and year.
pub open spec fn timestamp_of(parts: (i64, u32, i32)) -> Timestamp {
    Timestamp { secs: parts.0, nanos: parts.1, year: parts.2 }
}

/// Reads the acceptance time of a filing.
pub fn parse_timestamp(text: &str) -> (r: Option<Timestamp>)
    ensures
        match r {
            Some(t) => rfc3339_instant(text@) == Some((t.secs, t.nanos, t.year)),
            None => rfc3339_instant(text@) is None,
        },
{
    match parse_rfc3339(text) {
        Some((secs, nanos, year)) => Some(Timestamp { secs, nanos, year }),
        None => None,
    }
}

/// Parse a date string into a UTC instant. Accepts a full RFC 3339 date and
/// time, and a date alone in the form YYYY-MM-DD, which stands for its
/// midnight in UTC.
pub fn str_to_utc_datetime(date_str: &str) -> (r: Result<Timestamp, EdgarError>)
    ensures
        match r {
            Ok(t) => instant_of(date_str@) == Some((t.secs, t.nanos, t.year)),
            Err(EdgarError::Validation(_)) => instant_of(date_str@) is None,
            Err(_) => false,
        },
{
    match parse_timestamp(date_str) {
        Some(t) => {
            return Ok(t);
        },
        None => {},
    }
    let chars = chars_of(date_str);
    if chars.len() == 10 && remove_char(&chars, '-').len() == 8 {
        let mut full = String::from_str(date_str);
        full.append("T00:00:00.000Z");
        match parse_timestamp(full.as_str()) {
            Some(t) => Ok(t),
            None => {
                let mut message = String::from_str("Failed to parse date '");
                message.append(date_str);
                message.append("'");
                Err(EdgarError::Validation(message))
            },
        }
    } else {
        let mut message = String::from_str("Invalid date format: '");
        message.append(date_str);
        message.append("'. Expected ISO 8601 datetime or YYYY-MM-DD");
        Err(EdgarError::Validation(message))
    }
}

/// Historical filing archive metadata.
#[derive(Debug, Clone)]
pub struct HistoricalFile {
    /// Archive filename.
    pub name: String,
    /// Number of filings in archive.
    pub filing_count: i32,
    /// Earliest filing date.
    pub filing_from: String,
    /// Latest filing date.
    pub filing_to: String,
}

/// Recent filing data arrays. Index N of each array belongs to the Nth
/// filing; an array may be shorter than the list of accession numbers.
#[derive(Debug, Clone)]
pub struct RecentFilings {
    /// Accession numbers.
    pub accession_number: Vec<String>,
    /// Filing dates.
    pub filing_date: Vec<String>,
    /// Report dates.
    pub report_date: Vec<String>,
    /// Acceptance timestamps.
    pub acceptance_date_time: Vec<String>,
    /// Act under which filed.
    pub act: Vec<String>,
    /// Form types.
    pub form: Vec<String>,
    /// File numbers.
    pub file_number: Vec<String>,
    /// Film numbers.
    pub film_number: Vec<String>,
    /// Items reported (for 8-K).
    pub items: Vec<String>,
    /// Filing size in bytes.
    pub size: Vec<i64>,
    /// XBRL indicator (1 = true, 0 = false).
    pub is_xbrl: Vec<i32>,
    /// Inline XBRL indicator.
    pub is_inline_xbrl: Vec<i32>,
    /// Primary document filename.
    pub primary_document: Vec<String>,
    /// Primary document description.
    pub primary_doc_description: Vec<String>,
}

/// Container for filing history.
#[derive(Debug, Clone)]
pub struct Filings {
    /// Recent filings (most recent first).
    pub recent: RecentFilings,
    /// Historical filing archives.
    pub files: Vec<HistoricalFile>,
}

/// Company submissions data: a company and its complete filing history.
#[derive(Debug, Clone)]
pub struct CompanySubmissions {
    /// Company CIK (10-digit format).
    pub cik: String,
    /// Entity type (e.g., "operating", "non-operating").
    pub entity_type: String,
    /// Standard Industrial Classification code.
    pub sic: String,
    /// SIC description.
    pub sic_description: String,
    /// Company name.
    pub name: String,
    /// Trading ticker symbols.
    pub tickers: Option<Vec<String>>,
    /// Stock exchanges where traded.
    pub exchanges: Option<Vec<String>>,
    /// Filing history.
    pub filings: Filings,
}

/// Company submissions metadata from the SEC API.
#[derive(Debug, Clone)]
pub struct Submissions {
    /// Company's Central Index Key (10-digit format).
    pub cik: String,
    /// Entity type (e.g., "operating", "foreign").
    pub entity_type: String,
    /// Standard Industrial Classification code.
    pub sic: String,
    /// Human-readable description of the SIC code.
    pub sic_description: String,
    /// Company name as registered with the SEC.
    pub name: String,
    /// List of ticker symbols (can be multiple or empty).
    pub tickers: Vec<String>,
    /// List of exchanges where the company is listed.
    pub exchanges: Vec<String>,
    /// Filing history for this company.
    pub filings: Filings,
}

/// Simplified filing record.
#[derive(Debug, Clone)]
pub struct FilingSummary {
    /// Accession number.
    pub accession_number: String,
    /// Filing date.
    pub filing_date: String,
    /// Form type.
    pub form: String,
    /// Primary document filename.
    pub primary_document: String,
}

/// A specific filing document.
#[derive(Debug)]
pub struct Filing {
    /// Company's Central Index Key.
    pub cik: String,
    /// Unique filing identifier (e.g., "0000320193-23-000106").
    pub accession_number: String,
    /// Form type (e.g., "10-K", "8-K").
    pub form_type: String,
    /// Acceptance date.
    pub acceptance_date: Timestamp,
    /// Primary document filename.
    pub primary_document: String,
    /// Whether this filing contains XBRL data.
    pub is_xbrl: bool,
}

/// A filing as plain values.
pub struct FilingView {
    /// Company's Central Index Key.
    pub cik: Seq<char>,
    /// Unique filing identifier.
    pub accession_number: Seq<char>,
    /// Form type.
    pub form_type: Seq<char>,
    /// Acceptance date.
    pub acceptance_date: Timestamp,
    /// Primary document filename.
    pub primary_document: Seq<char>,
    /// Whether this filing contains XBRL data.
    pub is_xbrl: bool,
}

impl View for Filing {
    type V = FilingView;

    open spec fn view(&self) -> FilingView {
        FilingView {
            cik: self.cik@,
            accession_number: self.accession_number@,
            form_type: self.form_type@,
            acceptance_date: self.acceptance_date,
            primary_document: self.primary_document@,
            is_xbrl: self.is_xbrl,
        }
    }
}

/// The views of a sequence of filings.
pub open spec fn filing_views(filings: Seq<Filing>) -> Seq<FilingView> {
    Seq::new(filings.len(), |i: int| filings[i]@)
}

/// The base URL of a filing's documents.
pub open spec fn filing_base_url(f: FilingView) -> Seq<char> {
    "https://www.sec.gov/Archives/edgar/data/"@ + f.cik + "/"@ + without(f.accession_number, '-')
        + "/"@
}

impl Clone for Filing {
    fn clone(&self) -> (r: Filing)
        ensures
            r@ == self@,
    {
        Filing {
            cik: self.cik.clone(),
            accession_number: self.accession_number.clone(),
            form_type: self.form_type.clone(),
            acceptance_date: self.acceptance_date,
            primary_document: self.primary_document.clone(),
            is_xbrl: self.is_xbrl,
        }
    }
}

impl Filing {
    /// Get the base URL for this filing's documents.
    pub fn base_url(&self) -> (r: String)
        ensures
            r@ == filing_base_url(self@),
    {
        let mut out = chars_of("https://www.sec.gov/Archives/edgar/data/");
        push_text(&mut out, self.cik.as_str());
        push_text(&mut out, "/");
        push_all(&mut out, &remove_char(&chars_of(self.accession_number.as_str()), '-'));
        push_text(&mut out, "/");
        string_of(&out)
    }

    /// Get the URL for the primary document.
    pub fn primary_document_url(&self) -> (r: String)
        ensures
            r@ == filing_base_url(self@) + self@.primary_document,
    {
        let mut out = self.base_url();
        out.append(self.primary_document.as_str());
        out
    }

    /// Get the URL for the full submission text file.
    pub fn submission_text_url(&self) -> (r: String)
        ensures
            r@ == filing_base_url(self@) + self@.accession_number + ".txt"@,
    {
        let mut out = self.base_url();
        out.append(self.accession_number.as_str());
        out.append(".txt");
        out
    }

    /// Get the year from the acceptance date.
    pub fn year(&self) -> (r: i32)
        ensures
            r == self@.acceptance_date.year,
    {
        self.acceptance_date.year
    }

    /// Check if this filing matches a specific form type.
    pub fn is_form(&self, form_type: &str) -> (r: bool)
        ensures
            r == (self@.form_type == form_type@),
    {
        same(&chars_of(self.form_type.as_str()), &chars_of(form_type))
    }

    /// Check if this is an annual report (10-K).
    pub fn is_annual_report(&self) -> (r: bool)
        ensures
            r == (self@.form_type == "10-K"@),
    {
        self.is_form("10-K")
    }

    /// Check if this is a quarterly report (10-Q).
    pub fn is_quarterly_report(&self) -> (r: bool)
        ensures
            r == (self@.form_type == "10-Q"@),
    {
        self.is_form("10-Q")
    }

    /// Check if this is a current report (8-K).
    pub fn is_current_report(&self) -> (r: bool)
        ensures
            r == (self@.form_type == "8-K"@),
    {
        self.is_form("8-K")
    }

    /// Check if this filing is from a specific year.
    pub fn is_from_year(&self, year: i32) -> (r: bool)
        ensures
            r == (self@.acceptance_date.year == year),
    {
        self.acceptance_date.year == year
    }

    /// Check if acceptance date falls within a date range (inclusive).
    pub fn is_in_date_range(&self, start: Timestamp, end: Timestamp) -> (r: bool)
        ensures
            r == in_range(self@, start, end),
    {
        !self.acceptance_date.is_before(&start) && !end.is_before(&self.acceptance_date)
    }
}

/// Whether the acceptance date of `f` lies between `start` and `end`, both
/// included.
pub open spec fn in_range(f: FilingView, start: Timestamp, end: Timestamp) -> bool {
    start.not_after(f.acceptance_date) && f.acceptance_date.not_after(end)
}

/// The filing at index `i` of the arrays, if the arrays hold its form type,
/// a valid acceptance time and its primary document. A missing XBRL
/// indicator counts as 0.
pub open spec fn record_at(recent: RecentFilings, cik: Seq<char>, i: int) -> Option<FilingView> {
    if 0 <= i < recent.accession_number@.len() && i < recent.form@.len() && i
        < recent.acceptance_date_time@.len() && i < recent.primary_document@.len() {
        match rfc3339_instant(recent.acceptance_date_time@[i]@) {
            Some(parts) => Some(
                FilingView {
                    cik,
                    accession_number: recent.accession_number@[i]@,
                    form_type: recent.form@[i]@,
                    acceptance_date: timestamp_of(parts),
                    primary_document: recent.primary_document@[i]@,
                    is_xbrl: i < recent.is_xbrl@.len() && recent.is_xbrl@[i] == 1,
                },
            ),
            None => None,
        }
    } else {
        None
    }
}

/// The number of leading filings of `s` that are not earlier than `t`.
pub open spec fn rank(s: Seq<FilingView>, t: Timestamp) -> nat
    decreases s.len(),
{
    if s.len() > 0 && !s[0].acceptance_date.earlier_than(t) {
        1 + rank(s.drop_first(), t)
    } else {
        0
    }
}

/// `s` with `f` put in after the leading filings that are not earlier than
/// it.
pub open spec fn placed(s: Seq<FilingView>, f: FilingView) -> Seq<FilingView> {
    if rank(s, f.acceptance_date) <= s.len() {
        s.insert(rank(s, f.acceptance_date) as int, f)
    } else {
        s
    }
}

/// The filings of the first `n` indices, newest first; filings of the same
/// acceptance time keep the order of their indices.
pub open spec fn collected(recent: RecentFilings, cik: Seq<char>, n: nat) -> Seq<FilingView>
    decreases n,
{
    if n == 0 {
        Seq::empty()
    } else {
        match record_at(recent, cik, n - 1) {
            Some(f) => placed(collected(recent, cik, (n - 1) as nat), f),
            None => collected(recent, cik, (n - 1) as nat),
        }
    }
}

/// Whether no filing of `s` is earlier than one that follows it: that is,
/// whether `s` runs from the newest to the oldest.
pub open spec fn newest_first(s: Seq<FilingView>) -> bool {
    forall|i: int, j: int|
        0 <= i < j < s.len() ==> !(#[trigger] s[i]).acceptance_date.earlier_than(
            (#[trigger] s[j]).acceptance_date,
        )
}

/// `rank` counts a prefix: it is within bounds, the filings before it are
/// not earlier than `t`, and the one at it, if any, is.
pub proof fn lemma_rank(s: Seq<FilingView>, t: Timestamp)
    ensures
        rank(s, t) <= s.len(),
        forall|j: int| 0 <= j < rank(s, t) ==> !(#[trigger] s[j]).acceptance_date.earlier_than(t),
        rank(s, t) < s.len() ==> s[rank(s, t) as int].acceptance_date.earlier_than(t),
    decreases s.len(),
{
    if s.len() > 0 && !s[0].acceptance_date.earlier_than(t) {
        let r = s.drop_first();
        lemma_rank(r, t);
        assert forall|j: int| 0 <= j < rank(s, t) implies !(
        #[trigger] s[j]).acceptance_date.earlier_than(t) by {
            if j > 0 {
                assert(s[j] == r[j - 1]);
            }
        }
        if rank(s, t) < s.len() {
            assert(s[rank(s, t) as int] == r[rank(r, t) as int]);
        }
    }
}

/// A count of leading filings that are not earlier than `t`, which stops at
/// one that is, is `rank`.
pub proof fn lemma_rank_is(s: Seq<FilingView>, t: Timestamp, n: int)
    requires
        0 <= n <= s.len(),
        forall|j: int| 0 <= j < n ==> !(#[trigger] s[j]).acceptance_date.earlier_than(t),
        n < s.len() ==> s[n].acceptance_date.earlier_than(t),
    ensures
        rank(s, t) == n,
    decreases s.len(),
{
    if n > 0 {
        let r = s.drop_first();
        assert(!s[0].acceptance_date.earlier_than(t));
        assert forall|j: int| 0 <= j < n - 1 implies !(
        #[trigger] r[j]).acceptance_date.earlier_than(t) by {
            assert(r[j] == s[j + 1]);
        }
        if n - 1 < r.len() {
            assert(r[n - 1] == s[n]);
        }
        lemma_rank_is(r, t, n - 1);
    }
}

/// Putting a filing into a list that runs newest first gives a list that
/// runs newest first.
pub proof fn lemma_placed_newest_first(s: Seq<FilingView>, f: FilingView)
    requires
        newest_first(s),
    ensures
        newest_first(placed(s, f)),
        placed(s, f).len() == s.len() + 1,
{
    let t = f.acceptance_date;
    lemma_rank(s, t);
    let p = rank(s, t) as int;
    let out = placed(s, f);
    assert forall|i: int, j: int| 0 <= i < j < out.len() implies !(
    #[trigger] out[i]).acceptance_date.earlier_than((#[trigger] out[j]).acceptance_date) by {
        if j < p {
            assert(out[i] == s[i] && out[j] == s[j]);
        } else if j == p {
            assert(out[i] == s[i]);
        } else if i < p {
            assert(out[i] == s[i] && out[j] == s[j - 1]);
        } else if i == p {
            assert(out[j] == s[j - 1]);
            assert(s[p].acceptance_date.earlier_than(t));
            if j - 1 > p {
                assert(!s[p].acceptance_date.earlier_than(s[j - 1].acceptance_date));
            }
        } else {
            assert(out[i] == s[i - 1] && out[j] == s[j - 1]);
        }
    }
}

/// The collected filings run from the newest to the oldest.
pub proof fn lemma_collected_newest_first(recent: RecentFilings, cik: Seq<char>, n: nat)
    ensures
        newest_first(collected(recent, cik, n)),
        collected(recent, cik, n).len() <= n,
    decreases n,
{
    if n > 0 {
        lemma_collected_newest_first(recent, cik, (n - 1) as nat);
        match record_at(recent, cik, n - 1) {
            Some(f) => {
                lemma_placed_newest_first(collected(recent, cik, (n - 1) as nat), f);
            },
            None => {},
        }
    }
}

/// What a selection of filings asks for.
pub struct Selection<'a> {
    /// The form type that a filing has to have, if any.
    pub form_type: Option<&'a str>,
    /// The first and the last acceptance time that a filing may have, if
    /// any.
    pub range: Option<(Timestamp, Timestamp)>,
    /// Whether a filing has to contain XBRL data.
    pub xbrl_only: bool,
}

/// Whether a filing is of the form type, within the range and with XBRL
/// data, as far as each is asked for.
pub open spec fn selected(
    f: FilingView,
    form_type: Option<Seq<char>>,
    range: Option<(Timestamp, Timestamp)>,
    xbrl_only: bool,
) -> bool {
    &&& form_type matches Some(t) ==> f.form_type == t
    &&& range matches Some((start, end)) ==> in_range(f, start, end)
    &&& xbrl_only ==> f.is_xbrl
}

/// The filings of `s` that are selected, in order.
pub open spec fn selection(
    s: Seq<FilingView>,
    form_type: Option<Seq<char>>,
    range: Option<(Timestamp, Timestamp)>,
    xbrl_only: bool,
) -> Seq<FilingView>
    decreases s.len(),
{
    if s.len() == 0 {
        Seq::empty()
    } else if selected(s.last(), form_type, range, xbrl_only) {
        selection(s.drop_last(), form_type, range, xbrl_only).push(s.last())
    } else {
        selection(s.drop_last(), form_type, range, xbrl_only)
    }
}

/// The characters of an optional string.
pub open spec fn form_view(form_type: Option<&str>) -> Option<Seq<char>> {
    match form_type {
        Some(t) => Some(t@),
        None => None,
    }
}

/// The filings that are selected, in order.
pub fn select(filings: &Vec<Filing>, wanted: &Selection) -> (r: Vec<Filing>)
    ensures
        filing_views(r@) == selection(
            filing_views(filings@),
            form_view(wanted.form_type),
            wanted.range,
            wanted.xbrl_only,
        ),
{
    let mut out: Vec<Filing> = Vec::new();
    let mut i: usize = 0;
    let ghost all = filing_views(filings@);
    assert(all.take(0) =~= Seq::<FilingView>::empty());
    assert(filing_views(out@) =~= Seq::<FilingView>::empty());
    while i < filings.len()
        invariant
            i <= filings.len(),
            all == filing_views(filings@),
            filing_views(out@) == selection(
                all.take(i as int),
                form_view(wanted.form_type),
                wanted.range,
                wanted.xbrl_only,
            ),
        decreases filings.len() - i,
    {
        let f = &filings[i];
        proof {
            assert(all.take(i + 1).drop_last() == all.take(i as int));
            assert(all.take(i + 1).last() == f@);
        }
        let form_ok = match wanted.form_type {
            Some(t) => f.is_form(t),
            None => true,
        };
        let range_ok = match wanted.range {
            Some((start, end)) => f.is_in_date_range(start, end),
            None => true,
        };
        if form_ok && range_ok && (!wanted.xbrl_only || f.is_xbrl) {
            let ghost before = filing_views(out@);
            out.push(f.clone());
            assert(filing_views(out@) =~= before.push(f@));
        }
        i += 1;
    }
    assert(all.take(filings.len() as int) == all);
    out
}

/// Filter filings by form type.
pub fn filter_by_form(filings: &Vec<Filing>, form_type: &str) -> (r: Vec<Filing>)
    ensures
        filing_views(r@) == selection(filing_views(filings@), Some(form_type@), None, false),
{
    select(filings, &Selection { form_type: Some(form_type), range: None, xbrl_only: false })
}

/// Filter filings that contain XBRL data.
pub fn filter_xbrl(filings: &Vec<Filing>) -> (r: Vec<Filing>)
    ensures
        filing_views(r@) == selection(filing_views(filings@), None, None, true),
{
    select(filings, &Selection { form_type: None, range: None, xbrl_only: true })
}

impl RecentFilings {
    /// Number of recent filings.
    pub fn len(&self) -> (r: usize)
        ensures
            r == self.accession_number@.len(),
    {
        self.accession_number.len()
    }

    /// Check if there are no recent filings.
    pub fn is_empty(&self) -> (r: bool)
        ensures
            r == (self.accession_number@.len() == 0),
    {
        self.accession_number.len() == 0
    }

    /// The filing at index `i`, if the arrays hold what it needs.
    pub fn filing_at(&self, cik: &str, i: usize) -> (r: Option<Filing>)
        ensures
            match r {
                Some(f) => record_at(*self, cik@, i as int) == Some(f@),
                None => record_at(*self, cik@, i as int) is None,
            },
    {
        if i < self.accession_number.len() && i < self.form.len() && i
            < self.acceptance_date_time.len() && i < self.primary_document.len() {
            match parse_timestamp(self.acceptance_date_time[i].as_str()) {
                Some(t) => Some(
                    Filing {
                        cik: String::from_str(cik),
                        accession_number: self.accession_number[i].clone(),
                        form_type: self.form[i].clone(),
                        acceptance_date: t,
                        primary_document: self.primary_document[i].clone(),
                        is_xbrl: i < self.is_xbrl.len() && self.is_xbrl[i] == 1,
                    },
                ),
                None => None,
            }
        } else {
            None
        }
    }

    /// Convert the parallel arrays into filings, sorted by acceptance date,
    /// newest first. An index whose form type, acceptance time or primary
    /// document is missing or invalid is skipped.
    pub fn to_filings(&self, cik: &str) -> (r: Vec<Filing>)
        ensures
            filing_views(r@) == collected(*self, cik@, self.accession_number@.len()),
            newest_first(filing_views(r@)),
    {
        let mut out: Vec<Filing> = Vec::new();
        let n = self.accession_number.len();
        let mut i: usize = 0;
        assert(filing_views(out@) =~= Seq::<FilingView>::empty());
        while i < n
            invariant
                i <= n,
                n == self.accession_number@.len(),
                filing_views(out@) == collected(*self, cik@, i as nat),
            decreases n - i,
        {
            match self.filing_at(cik, i) {
                Some(f) => {
                    let ghost held = filing_views(out@);
                    let mut p: usize = 0;
                    while p < out.len() && !out[p].acceptance_date.is_before(&f.acceptance_date)
                        invariant
                            p <= out.len(),
                            held == filing_views(out@),
                            forall|j: int|
                                0 <= j < p ==> !(#[trigger] held[j]).acceptance_date.earlier_than(
                                    f.acceptance_date,
                                ),
                        decreases out.len() - p,
                    {
                        assert(held[p as int] == out@[p as int]@);
                        p += 1;
                    }
                    proof {
                        if p < out.len() {
                            assert(held[p as int] == out@[p as int]@);
                        }
                        lemma_rank_is(held, f.acceptance_date, p as int);
                    }
                    let ghost fv = f@;
                    out.insert(p, f);
                    assert(filing_views(out@) =~= held.insert(p as int, fv));
                },
                None => {},
            }
            i += 1;
        }
        proof {
            lemma_collected_newest_first(*self, cik@, n as nat);
        }
        out
    }

    /// Get filings filtered by form type.
    pub fn filter_by_form(&self, cik: &str, form_type: &str) -> (r: Vec<Filing>)
        ensures
            filing_views(r@) == selection(
                collected(*self, cik@, self.accession_number@.len()),
                Some(form_type@),
                None,
                false,
            ),
    {
        filter_by_form(&self.to_filings(cik), form_type)
    }

    /// Get filings within a date range (inclusive).
    pub fn filter_by_date_range(&self, cik: &str, start: Timestamp, end: Timestamp) -> (r: Vec<
        Filing,
    >)
        ensures
            filing_views(r@) == selection(
                collected(*self, cik@, self.accession_number@.len()),
                None,
                Some((start, end)),
                false,
            ),
    {
        select(
            &self.to_filings(cik),
            &Selection { form_type: None, range: Some((start, end)), xbrl_only: false },
        )
    }

    /// Get filings by form type within a date range.
    pub fn filter_by_form_and_date(
        &self,
        cik: &str,
        form_type: &str,
        start: Timestamp,
        end: Timestamp,
    ) -> (r: Vec<Filing>)
        ensures
            filing_views(r@) == selection(
                collected(*self, cik@, self.accession_number@.len()),
                Some(form_type@),
                Some((start, end)),
                false,
            ),
    {
        select(
            &self.to_filings(cik),
            &Selection { form_type: Some(form_type), range: Some((start, end)), xbrl_only: false },
        )
    }

    /// Get only XBRL filings.
    pub fn filter_xbrl(&self, cik: &str) -> (r: Vec<Filing>)
        ensures
            filing_views(r@) == selection(
                collected(*self, cik@, self.accession_number@.len()),
                None,
                None,
                true,
            ),
    {
        filter_xbrl(&self.to_filings(cik))
    }
}

impl Submissions {
    /// Get all recent filings, newest first.
    pub fn recent_filings(&self) -> (r: Vec<Filing>)
        ensures
            filing_views(r@) == collected(
                self.filings.recent,
                self.cik@,
                self.filings.recent.accession_number@.len(),
            ),
    {
        self.filings.recent.to_filings(self.cik.as_str())
    }

    /// Get recent filings of a specific form type.
    pub fn recent_filings_by_form(&self, form_type: &str) -> (r: Vec<Filing>)
        ensures
            filing_views(r@) == selection(
                collected(
                    self.filings.recent,
                    self.cik@,
                    self.filings.recent.accession_number@.len(),
                ),
                Some(form_type@),
                None,
                false,
            ),
    {
        self.filings.recent.filter_by_form(self.cik.as_str(), form_type)
    }

    /// Get recent filings within a date range.
    pub fn recent_filings_by_date(&self, start: Timestamp, end: Timestamp) -> (r: Vec<Filing>)
        ensures
            filing_views(r@) == selection(
                collected(
                    self.filings.recent,
                    self.cik@,
                    self.filings.recent.accession_number@.len(),
                ),
                None,
                Some((start, end)),
                false,
            ),
    {
        self.filings.recent.filter_by_date_range(self.cik.as_str(), start, end)
    }
}

/// Whether the arrays hold a filing of form `label` at index `i`, with its
/// accession number, filing date and primary document.
pub open spec fn summary_at(recent: RecentFilings, label: Seq<char>, i: int) -> bool {
    &&& 0 <= i < recent.form@.len()
    &&& recent.form@[i]@ == label
    &&& i < recent.accession_number@.len()
    &&& i < recent.filing_date@.len()
    &&& i < recent.primary_document@.len()
}

/// A filing summary as plain values: accession number, filing date, form
/// and primary document.
pub open spec fn summary_view(f: FilingSummary) -> (Seq<char>, Seq<char>, Seq<char>, Seq<char>) {
    (f.accession_number@, f.filing_date@, f.form@, f.primary_document@)
}

/// The views of a sequence of filing summaries.
pub open spec fn summary_views(list: Seq<FilingSummary>) -> Seq<
    (Seq<char>, Seq<char>, Seq<char>, Seq<char>),
> {
    Seq::new(list.len(), |i: int| summary_view(list[i]))
}

/// The summaries of the filings of form `label` at the indices below `n`, in
/// order.
pub open spec fn summaries(recent: RecentFilings, label: Seq<char>, n: nat) -> Seq<
    (Seq<char>, Seq<char>, Seq<char>, Seq<char>),
>
    decreases n,
{
    if n == 0 {
        Seq::empty()
    } else if summary_at(recent, label, n - 1) {
        summaries(recent, label, (n - 1) as nat).push(
            (
                recent.accession_number@[n - 1]@,
                recent.filing_date@[n - 1]@,
                recent.form@[n - 1]@,
                recent.primary_document@[n - 1]@,
            ),
        )
    } else {
        summaries(recent, label, (n - 1) as nat)
    }
}

/// Filter filings by form type: the records of the filings whose form is
/// the canonical label of `form_type`, in the order of the arrays. An index
/// that one of the arrays does not reach is skipped.
pub fn filter_by_form_type(submissions: &CompanySubmissions, form_type: FormType) -> (r: Vec<
    FilingSummary,
>)
    ensures
        summary_views(r@) == summaries(
            submissions.filings.recent,
            form_type.label(),
            submissions.filings.recent.form@.len(),
        ),
{
    let recent = &submissions.filings.recent;
    let label = chars_of(form_type.as_str());
    let mut out: Vec<FilingSummary> = Vec::new();
    let mut i: usize = 0;
    assert(summary_views(out@) =~= Seq::<(Seq<char>, Seq<char>, Seq<char>, Seq<char>)>::empty());
    while i < recent.form.len()
        invariant
            i <= recent.form.len(),
            label@ == form_type.label(),
            *recent == submissions.filings.recent,
            summary_views(out@) == summaries(*recent, form_type.label(), i as nat),
        decreases recent.form.len() - i,
    {
        if same(&chars_of(recent.form[i].as_str()), &label) && i < recent.accession_number.len()
            && i < recent.filing_date.len() && i < recent.primary_document.len() {
            let ghost before = summary_views(out@);
            let summary = FilingSummary {
                accession_number: recent.accession_number[i].clone(),
                filing_date: recent.filing_date[i].clone(),
                form: recent.form[i].clone(),
                primary_document: recent.primary_document[i].clone(),
            };
            let ghost view = summary_view(summary);
            out.push(summary);
            assert(summary_views(out@) =~= before.push(view));
        }
        i += 1;
    }
    out
}

} // verus!
