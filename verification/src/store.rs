//! The durable company index: the table behind the lookup cache.
//!
//! The table holds one row per company and is replaced as a whole when the
//! source dataset is fetched anew. The freshness token of the dataset is
//! kept with it, so that an unchanged dataset is not downloaded again. The
//! caller persists the table; this module decides what it holds.

use crate::cache::LookupCache;
use crate::cik::{normalize_cik, normalized_cik};
use crate::errors::{EdgarError, NetworkError};
use crate::numbers::{decimal_digits, pad_left, to_decimal, zero_padded};
use crate::text::{chars_of, same, string_of, to_upper, upper};
use vstd::prelude::*;
use vstd::string::StringExecFns;

verus! {

/// The status code of a response that says the dataset has not changed.
pub const STATUS_NOT_MODIFIED: u16 = 304;

/// Core company details stored in cache and database.
#[derive(Debug, Clone)]
pub struct CompanyDetail {
    /// The CIK, 10 digits, zero-padded.
    pub cik: String,
    /// The ticker, in upper case.
    pub ticker: String,
    /// The company name.
    pub title: Option<String>,
}

impl CompanyDetail {
    /// The row of an entry of the source dataset: the CIK number
    /// zero-padded to ten digits, and the ticker in upper case.
    pub fn from_entry(cik_number: u64, ticker: &str, title: Option<String>) -> (r: CompanyDetail)
        ensures
            r.cik@ == pad_left(decimal_digits(cik_number as nat), 10, '0'),
            r.ticker@ == upper(ticker@),
            r.title == title,
    {
        CompanyDetail {
            cik: string_of(&zero_padded(&to_decimal(cik_number), 10)),
            ticker: string_of(&to_upper(&chars_of(ticker))),
            title,
        }
    }
}

/// The index of the first row from `from` on whose ticker is `ticker`.
pub open spec fn row_by_ticker(rows: Seq<CompanyDetail>, ticker: Seq<char>, from: int) -> Option<
    int,
>
    decreases rows.len() - from,
{
    if from < 0 || from >= rows.len() {
        None
    } else if rows[from].ticker@ == ticker {
        Some(from)
    } else {
        row_by_ticker(rows, ticker, from + 1)
    }
}

/// The index of the first row from `from` on whose CIK is `cik`.
pub open spec fn row_by_cik(rows: Seq<CompanyDetail>, cik: Seq<char>, from: int) -> Option<int>
    decreases rows.len() - from,
{
    if from < 0 || from >= rows.len() {
        None
    } else if rows[from].cik@ == cik {
        Some(from)
    } else {
        row_by_cik(rows, cik, from + 1)
    }
}

/// What came of asking the source whether the dataset has changed.
#[derive(Debug)]
pub enum RefreshResponse {
    /// The dataset is the one that the freshness token names.
    NotModified,
    /// The dataset, parsed, with its freshness token if it has one.
    Fresh(Vec<CompanyDetail>, Option<String>),
    /// The source answered with another status.
    Failed(u16),
}

/// The persisted company table with its freshness token.
#[derive(Debug)]
pub struct DurableStore {
    rows: Vec<CompanyDetail>,
    etag: Option<String>,
}

impl DurableStore {
    /// The rows of the table.
    pub closed spec fn table(&self) -> Seq<CompanyDetail> {
        self.rows@
    }

    /// The freshness token of the dataset that the table was filled from.
    pub closed spec fn token(&self) -> Option<String> {
        self.etag
    }

    /// A store with the given rows and freshness token, as they were
    /// persisted.
    pub fn new(rows: Vec<CompanyDetail>, etag: Option<String>) -> (r: DurableStore)
        ensures
            r.table() == rows@,
            r.token() == etag,
    {
        DurableStore { rows, etag }
    }

    /// The rows of the table.
    pub fn rows(&self) -> (r: &Vec<CompanyDetail>)
        ensures
            r@ == self.table(),
    {
        &self.rows
    }

    /// The freshness token to send with a conditional request, if one is
    /// kept.
    pub fn etag(&self) -> (r: &Option<String>)
        ensures
            *r == self.token(),
    {
        &self.etag
    }

    /// Replaces the whole table and its freshness token.
    pub fn replace_all(&mut self, rows: Vec<CompanyDetail>, etag: Option<String>)
        ensures
            final(self).table() == rows@,
            final(self).token() == etag,
    {
        self.rows = rows;
        self.etag = etag;
    }

    /// Takes in the answer to a conditional request. An unchanged dataset
    /// leaves the store as it is; a fresh one replaces the table and the
    /// token; any other status leaves the store as it is and is an error.
    /// `Ok(true)` says that the table was replaced.
    pub fn refresh(&mut self, response: RefreshResponse) -> (r: Result<bool, NetworkError>)
        ensures
            match response {
                RefreshResponse::NotModified => {
                    &&& r == Ok::<bool, NetworkError>(false)
                    &&& *final(self) == *old(self)
                },
                RefreshResponse::Fresh(rows, etag) => r == Ok::<bool, NetworkError>(true)
                    && final(self).table() == rows@ && final(self).token() == etag,
                RefreshResponse::Failed(status) => {
                    &&& r == Err::<bool, NetworkError>(NetworkError::of_status(status))
                    &&& *final(self) == *old(self)
                },
            },
    {
        match response {
            RefreshResponse::NotModified => Ok(false),
            RefreshResponse::Fresh(rows, etag) => {
                self.replace_all(rows, etag);
                Ok(true)
            },
            RefreshResponse::Failed(status) => Err(NetworkError::from_status(status)),
        }
    }

    /// The row of the company with this ticker, without regard to ASCII
    /// case.
    pub fn find_ticker(&self, ticker: &str) -> (r: Option<&CompanyDetail>)
        ensures
            match r {
                Some(row) => row_by_ticker(self.table(), upper(ticker@), 0) matches Some(i)
                    && *row == self.table()[i],
                None => row_by_ticker(self.table(), upper(ticker@), 0) is None,
            },
    {
        let wanted = to_upper(&chars_of(ticker));
        let mut i: usize = 0;
        while i < self.rows.len()
            invariant
                i <= self.rows.len(),
                wanted@ == upper(ticker@),
                row_by_ticker(self.table(), upper(ticker@), 0) == row_by_ticker(
                    self.table(),
                    upper(ticker@),
                    i as int,
                ),
            decreases self.rows.len() - i,
        {
            if same(&chars_of(self.rows[i].ticker.as_str()), &wanted) {
                return Some(&self.rows[i]);
            }
            i += 1;
        }
        None
    }

    /// The row of the company with this CIK, in whatever form the CIK is
    /// written.
    pub fn find_cik(&self, cik: &str) -> (r: Option<&CompanyDetail>)
        ensures
            match r {
                Some(row) => row_by_cik(self.table(), normalized_cik(cik@), 0) matches Some(i)
                    && *row == self.table()[i],
                None => row_by_cik(self.table(), normalized_cik(cik@), 0) is None,
            },
    {
        let wanted = chars_of(normalize_cik(cik).as_str());
        let mut i: usize = 0;
        while i < self.rows.len()
            invariant
                i <= self.rows.len(),
                wanted@ == normalized_cik(cik@),
                row_by_cik(self.table(), normalized_cik(cik@), 0) == row_by_cik(
                    self.table(),
                    normalized_cik(cik@),
                    i as int,
                ),
            decreases self.rows.len() - i,
        {
            if same(&chars_of(self.rows[i].cik.as_str()), &wanted) {
                return Some(&self.rows[i]);
            }
            i += 1;
        }
        None
    }
}

/// Whether `r` is what looking `ticker` up gives, where the store holds
/// `table` and the cache was populated with `before` and afterwards with
/// `after`. A CIK that comes back is either the one that the cache was
/// populated with for the ticker in upper case, the cache staying as it
/// was; or that of the first row of the table with this ticker, which is
/// then put into the cache. Where the table has no such row, the ticker may
/// be unknown: the error quotes it, and the cache stays as it was.
pub open spec fn is_ticker_lookup(
    table: Seq<CompanyDetail>,
    before: Map<Seq<char>, Seq<char>>,
    after: Map<Seq<char>, Seq<char>>,
    ticker: Seq<char>,
    r: Result<String, EdgarError>,
) -> bool {
    match r {
        Ok(cik) => {
            ||| before.contains_pair(upper(ticker), cik@) && after == before
            ||| {
                &&& row_by_ticker(table, upper(ticker), 0) matches Some(i)
                &&& cik@ == table[i].cik@
                &&& after == before.insert(upper(ticker), cik@)
            }
        },
        Err(EdgarError::NotFound(m)) => {
            &&& row_by_ticker(table, upper(ticker), 0) is None
            &&& m@ == "Unknown ticker: "@ + ticker
            &&& after == before
        },
        Err(_) => false,
    }
}

/// Lookup: ticker to CIK, without regard to ASCII case. The cache is asked
/// first, then the store; what the store gives is put into the cache. A
/// ticker that neither knows is a not-found error, and the cache does not
/// hold it afterwards.
pub fn ticker_to_cik_db(store: &DurableStore, cache: &mut LookupCache, ticker: &str) -> (r: Result<
    String,
    EdgarError,
>)
    requires
        old(cache).wf(),
    ensures
        final(cache).wf(),
        is_ticker_lookup(store.table(), old(cache).known(), final(cache).known(), ticker@, r),
        r matches Ok(cik) ==> final(cache).known().contains_pair(upper(ticker@), cik@),
        r is Err ==> !final(cache).held().contains_key(upper(ticker@)),
{
    match cache.lookup(ticker) {
        Some(cik) => {
            return Ok(cik);
        },
        None => {},
    }
    match store.find_ticker(ticker) {
        Some(row) => {
            let key = string_of(&to_upper(&chars_of(ticker)));
            cache.insert(key.as_str(), row.cik.as_str());
            Ok(row.cik.clone())
        },
        None => {
            let mut message = String::from_str("Unknown ticker: ");
            message.append(ticker);
            Err(EdgarError::NotFound(message))
        },
    }
}

/// Lookup: CIK to company detail. The CIK may be written in any form. The
/// detail is the first row of the table with this CIK in canonical form.
pub fn cik_to_detail_db(store: &DurableStore, cik: &str) -> (r: Result<CompanyDetail, EdgarError>)
    ensures
        match r {
            Ok(detail) => {
                &&& row_by_cik(store.table(), normalized_cik(cik@), 0) matches Some(i)
                &&& detail == store.table()[i]
                &&& detail.cik@ == normalized_cik(cik@)
            },
            Err(EdgarError::NotFound(m)) => row_by_cik(store.table(), normalized_cik(cik@), 0)
                is None && m@ == "Unknown CIK: "@ + cik@,
            Err(_) => false,
        },
{
    proof {
        lemma_row_by_cik(store.table(), normalized_cik(cik@), 0);
    }
    match store.find_cik(cik) {
        Some(row) => {
            let title = match &row.title {
                Some(t) => Some(t.clone()),
                None => None,
            };
            Ok(CompanyDetail { cik: row.cik.clone(), ticker: row.ticker.clone(), title })
        },
        None => {
            let mut message = String::from_str("Unknown CIK: ");
            message.append(cik);
            Err(EdgarError::NotFound(message))
        },
    }
}

/// The row that `row_by_cik` finds is within the table and has the CIK.
pub proof fn lemma_row_by_cik(rows: Seq<CompanyDetail>, cik: Seq<char>, from: int)
    requires
        0 <= from,
    ensures
        row_by_cik(rows, cik, from) matches Some(i) ==> from <= i < rows.len() && rows[i].cik@
            == cik,
    decreases rows.len() - from,
{
    if from < rows.len() && rows[from].cik@ != cik {
        lemma_row_by_cik(rows, cik, from + 1);
    }
}

} // verus!
