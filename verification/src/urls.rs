//! URL construction for EDGAR archive resources.

use crate::cik::{normalized_cik, only_digits, CIK_WIDTH};
use crate::numbers::zero_padded;
use crate::text::{
    chars_of, lemma_prefix_len_is, push_all, push_text, slice, string_of, strip_front,
};
use vstd::prelude::*;

verus! {

/// The directory of the EDGAR archives.
pub const ARCHIVES_BASE: &'static str = "https://www.sec.gov/Archives/edgar/data";

/// The directory of the company facts of the XBRL API.
pub const FACTS_BASE: &'static str = "https://data.sec.gov/api/xbrl/companyfacts";

/// The directory of the submissions API.
pub const SUBMISSIONS_BASE: &'static str = "https://data.sec.gov/submissions";

/// The predicate that holds of the digit zero.
pub open spec fn zero() -> spec_fn(char) -> bool {
    |c: char| c == '0'
}

/// `s` without every occurrence of `c`.
pub open spec fn without(s: Seq<char>, c: char) -> Seq<char>
    decreases s.len(),
{
    if s.len() == 0 {
        Seq::empty()
    } else if s.last() == c {
        without(s.drop_last(), c)
    } else {
        without(s.drop_last(), c).push(s.last())
    }
}

/// The CIK as it stands in an archive path: in canonical form, without its
/// leading zeros.
pub open spec fn path_cik(cik: Seq<char>) -> Seq<char> {
    strip_front(normalized_cik(cik), zero())
}

/// The URL of the index page of a filing.
pub open spec fn filing_url(cik: Seq<char>, accession_number: Seq<char>) -> Seq<char> {
    ARCHIVES_BASE@ + "/"@ + path_cik(cik) + "/"@ + without(accession_number, '-')
        + "-index.html"@
}

/// The URL of a document of a filing.
pub open spec fn document_url(
    cik: Seq<char>,
    accession_number: Seq<char>,
    document: Seq<char>,
) -> Seq<char> {
    ARCHIVES_BASE@ + "/"@ + path_cik(cik) + "/"@ + without(accession_number, '-') + "/"@
        + document
}

/// The URL of the full text of a filing.
pub open spec fn full_text_url(cik: Seq<char>, accession_number: Seq<char>) -> Seq<char> {
    ARCHIVES_BASE@ + "/"@ + path_cik(cik) + "/"@ + accession_number + ".txt"@
}

/// `v` without every occurrence of `c`.
pub fn remove_char(v: &Vec<char>, c: char) -> (r: Vec<char>)
    ensures
        r@ == without(v@, c),
{
    let mut out: Vec<char> = Vec::new();
    let mut i: usize = 0;
    while i < v.len()
        invariant
            i <= v.len(),
            out@ == without(v@.take(i as int), c),
        decreases v.len() - i,
    {
        assert(v@.take(i + 1).drop_last() == v@.take(i as int));
        if v[i] != c {
            out.push(v[i]);
        }
        i += 1;
    }
    assert(v@.take(v.len() as int) == v@);
    out
}

/// `v` without its leading zeros.
pub fn without_leading_zeros(v: &Vec<char>) -> (r: Vec<char>)
    ensures
        r@ == strip_front(v@, zero()),
{
    let mut a: usize = 0;
    while a < v.len() && v[a] == '0'
        invariant
            a <= v.len(),
            forall|j: int| 0 <= j < a ==> v@[j] == '0',
        decreases v.len() - a,
    {
        a += 1;
    }
    proof {
        let p = zero();
        assert forall|j: int| 0 <= j < a implies p(#[trigger] v@[j]) by {
            assert(v@[j] == '0');
        }
        lemma_prefix_len_is(v@, p, a as int);
    }
    slice(v, a, v.len())
}

/// The start of every archive URL: the base, the CIK and a slash.
fn archive_prefix(cik: &str) -> (r: Vec<char>)
    ensures
        r@ == ARCHIVES_BASE@ + "/"@ + path_cik(cik@) + "/"@,
{
    let digits = only_digits(&chars_of(cik));
    let normalized = zero_padded(&digits, CIK_WIDTH);
    let short = without_leading_zeros(&normalized);
    let mut out = chars_of(ARCHIVES_BASE);
    push_text(&mut out, "/");
    push_all(&mut out, &short);
    push_text(&mut out, "/");
    out
}

/// Build URL for a filing index page.
pub fn build_filing_url(cik: &str, accession_number: &str) -> (r: String)
    ensures
        r@ == filing_url(cik@, accession_number@),
{
    let mut out = archive_prefix(cik);
    push_all(&mut out, &remove_char(&chars_of(accession_number), '-'));
    push_text(&mut out, "-index.html");
    string_of(&out)
}

/// Build URL for a specific document.
pub fn build_document_url(cik: &str, accession_number: &str, document: &str) -> (r: String)
    ensures
        r@ == document_url(cik@, accession_number@, document@),
{
    let mut out = archive_prefix(cik);
    push_all(&mut out, &remove_char(&chars_of(accession_number), '-'));
    push_text(&mut out, "/");
    push_text(&mut out, document);
    string_of(&out)
}

/// Build URL for full text filing.
pub fn build_full_text_url(cik: &str, accession_number: &str) -> (r: String)
    ensures
        r@ == full_text_url(cik@, accession_number@),
{
    let mut out = archive_prefix(cik);
    push_text(&mut out, accession_number);
    push_text(&mut out, ".txt");
    string_of(&out)
}

/// The URL of the XBRL facts of a company.
pub fn company_facts_url(cik: &str) -> (r: String)
    ensures
        r@ == FACTS_BASE@ + "/CIK"@ + normalized_cik(cik@) + ".json"@,
{
    let mut out = chars_of(FACTS_BASE);
    push_text(&mut out, "/CIK");
    push_all(&mut out, &zero_padded(&only_digits(&chars_of(cik)), CIK_WIDTH));
    push_text(&mut out, ".json");
    string_of(&out)
}

/// The URL of the submissions of a company.
pub fn submissions_url(cik: &str) -> (r: String)
    ensures
        r@ == SUBMISSIONS_BASE@ + "/CIK"@ + normalized_cik(cik@) + ".json"@,
{
    let mut out = chars_of(SUBMISSIONS_BASE);
    push_text(&mut out, "/CIK");
    push_all(&mut out, &zero_padded(&only_digits(&chars_of(cik)), CIK_WIDTH));
    push_text(&mut out, ".json");
    string_of(&out)
}

} // verus!
