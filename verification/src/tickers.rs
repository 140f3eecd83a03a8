//! The ticker dataset: the bulk document that maps ticker symbols to CIKs.
//!
//! Each line of the document holds a ticker and a CIK, separated by a tab.
//! A line that does not have this form is skipped. Where a ticker occurs
//! more than once, its last line counts.

use crate::cik::{normalize_cik, normalized_cik};
use crate::decode::utf8_string;
use crate::errors::LookupError;
use crate::numbers::{
    decimal_digits, pad_left, parse_u64, parse_unsigned, to_decimal, zero_padded,
};
use crate::text::{
    chars_of, split, split_on, string_of, to_upper, trim, trimmed, upper, views,
};
use vstd::prelude::*;
use vstd::slice::{slice_subrange, slice_to_vec};
use vstd::utf8::{decode_utf8, encode_utf8, valid_utf8};

verus! {

/// One line of the ticker dataset.
#[derive(Debug)]
pub struct TickerEntry {
    /// The ticker symbol, in upper case.
    pub ticker: String,
    /// The CIK, zero-padded to ten digits.
    pub cik: String,
}

/// The entries as pairs of ticker and CIK.
pub open spec fn pairs_of(entries: Seq<TickerEntry>) -> Seq<(Seq<char>, Seq<char>)> {
    Seq::new(entries.len(), |i: int| (entries[i].ticker@, entries[i].cik@))
}

/// The entry that a line of the dataset holds. The line is trimmed and has
/// to consist of two fields separated by one tab. The first field, trimmed
/// and in upper case, is the ticker; the second, trimmed, has to be a
/// decimal number and is the CIK, zero-padded to ten digits.
pub open spec fn line_entry(line: Seq<char>) -> Option<(Seq<char>, Seq<char>)> {
    let fields = split(trim(line), '\t');
    if trim(line).len() == 0 || fields.len() != 2 {
        None
    } else {
        match parse_unsigned(trim(fields[1]), u64::MAX as nat) {
            Some(n) => Some((upper(trim(fields[0])), pad_left(decimal_digits(n), 10, '0'))),
            None => None,
        }
    }
}

/// The entries that a sequence of lines holds, in order.
pub open spec fn entries_of(lines: Seq<Seq<char>>) -> Seq<(Seq<char>, Seq<char>)>
    decreases lines.len(),
{
    if lines.len() == 0 {
        Seq::empty()
    } else {
        match line_entry(lines.last()) {
            Some(e) => entries_of(lines.drop_last()).push(e),
            None => entries_of(lines.drop_last()),
        }
    }
}

/// The entries of a dataset document.
pub open spec fn dataset(text: Seq<char>) -> Seq<(Seq<char>, Seq<char>)> {
    entries_of(split(text, '\n'))
}

/// The CIK that the entries give for `ticker`: that of the last entry with
/// this ticker.
pub open spec fn table_lookup(entries: Seq<(Seq<char>, Seq<char>)>, ticker: Seq<char>) -> Option<
    Seq<char>,
>
    decreases entries.len(),
{
    if entries.len() == 0 {
        None
    } else if entries.last().0 == ticker {
        Some(entries.last().1)
    } else {
        table_lookup(entries.drop_last(), ticker)
    }
}

/// The entries as a map from ticker to CIK; a later entry replaces an
/// earlier one with the same ticker.
pub open spec fn table_map(entries: Seq<(Seq<char>, Seq<char>)>) -> Map<Seq<char>, Seq<char>>
    decreases entries.len(),
{
    if entries.len() == 0 {
        Map::empty()
    } else {
        table_map(entries.drop_last()).insert(entries.last().0, entries.last().1)
    }
}

/// The map of the entries holds exactly what a lookup in them finds.
pub proof fn lemma_table_map(entries: Seq<(Seq<char>, Seq<char>)>, ticker: Seq<char>)
    ensures
        table_map(entries).contains_key(ticker) <==> table_lookup(entries, ticker) is Some,
        table_map(entries).contains_key(ticker) ==> table_lookup(entries, ticker) == Some(
            table_map(entries)[ticker],
        ),
    decreases entries.len(),
{
    if entries.len() > 0 {
        lemma_table_map(entries.drop_last(), ticker);
    }
}

/// Reads one line of the dataset.
pub fn parse_line(line: &Vec<char>) -> (r: Option<TickerEntry>)
    ensures
        match r {
            Some(e) => line_entry(line@) == Some((e.ticker@, e.cik@)),
            None => line_entry(line@) is None,
        },
{
    let core = trimmed(line);
    if core.len() == 0 {
        return None;
    }
    let fields = split_on(&core, '\t');
    assert(views(fields@).len() == fields@.len());
    if fields.len() != 2 {
        return None;
    }
    assert(views(fields@)[0] == fields@[0]@);
    assert(views(fields@)[1] == fields@[1]@);
    match parse_u64(&trimmed(&fields[1])) {
        Some(n) => {
            let ticker = string_of(&to_upper(&trimmed(&fields[0])));
            let cik = string_of(&zero_padded(&to_decimal(n), 10));
            Some(TickerEntry { ticker, cik })
        },
        None => None,
    }
}

/// Reads the ticker dataset. A document without a single entry is refused.
pub fn parse_ticker_data(text: &str) -> (r: Result<Vec<TickerEntry>, LookupError>)
    ensures
        match r {
            Ok(entries) => pairs_of(entries@) == dataset(text@) && entries@.len() > 0,
            Err(e) => dataset(text@).len() == 0 && e is EmptyDataset,
        },
{
    let lines = split_on(&chars_of(text), '\n');
    let mut out: Vec<TickerEntry> = Vec::new();
    let mut i: usize = 0;
    assert(views(lines@).len() == lines@.len());
    assert(views(lines@).take(0) =~= Seq::<Seq<char>>::empty());
    assert(pairs_of(out@) =~= Seq::<(Seq<char>, Seq<char>)>::empty());
    while i < lines.len()
        invariant
            i <= lines.len(),
            views(lines@) == split(text@, '\n'),
            pairs_of(out@) == entries_of(views(lines@).take(i as int)),
        decreases lines.len() - i,
    {
        let ghost before = pairs_of(out@);
        proof {
            let all = views(lines@);
            assert(all.take(i + 1).drop_last() == all.take(i as int));
            assert(all.take(i + 1).last() == lines@[i as int]@);
        }
        match parse_line(&lines[i]) {
            Some(e) => {
                let ghost pair = (e.ticker@, e.cik@);
                out.push(e);
                assert(pairs_of(out@) =~= before.push(pair));
            },
            None => {},
        }
        i += 1;
    }
    assert(views(lines@).take(lines.len() as int) == views(lines@));
    if out.len() == 0 {
        Err(LookupError::EmptyDataset)
    } else {
        Ok(out)
    }
}

/// The CIK that the entries give for `ticker`.
pub fn lookup_in<'a>(entries: &'a Vec<TickerEntry>, ticker: &str) -> (r: Option<&'a String>)
    ensures
        match r {
            Some(cik) => table_lookup(pairs_of(entries@), ticker@) == Some(cik@),
            None => table_lookup(pairs_of(entries@), ticker@) is None,
        },
{
    let wanted = chars_of(ticker);
    let mut i: usize = entries.len();
    assert(pairs_of(entries@).take(i as int) == pairs_of(entries@));
    while i > 0
        invariant
            i <= entries.len(),
            wanted@ == ticker@,
            table_lookup(pairs_of(entries@), ticker@) == table_lookup(
                pairs_of(entries@).take(i as int),
                ticker@,
            ),
        decreases i,
    {
        let ghost part = pairs_of(entries@).take(i as int);
        assert(part.last() == (entries@[i - 1].ticker@, entries@[i - 1].cik@));
        assert(part.drop_last() == pairs_of(entries@).take(i - 1));
        if crate::text::same(&chars_of(entries[i - 1].ticker.as_str()), &wanted) {
            return Some(&entries[i - 1].cik);
        }
        i -= 1;
    }
    None
}

/// `memchr::memchr`: the index of the first occurrence of `needle` in
/// `haystack`, or `None` if there is none.
#[verifier::external_body]
fn memchr(needle: u8, haystack: &[u8]) -> (r: Option<usize>)
    ensures
        match r {
            Some(i) => i < haystack@.len() && haystack@[i as int] == needle && forall|j: int|
                0 <= j < i ==> haystack@[j] != needle,
            None => forall|j: int| 0 <= j < haystack@.len() ==> haystack@[j] != needle,
        },
{
    memchr::memchr(needle, haystack)
}

/// The byte of the bar that separates ticker and CIK.
pub const BAR: u8 = 124;

/// Whether a byte ends a line: a line feed or a carriage return.
pub open spec fn is_line_end(b: u8) -> bool {
    b == 10 || b == 13
}

/// The entry that a line of the form `ticker|cik` holds. Both parts have to
/// be UTF-8. The ticker is trimmed and put in upper case and must not be
/// empty; the CIK is put in canonical form.
pub open spec fn bar_entry(line: Seq<u8>) -> Option<(Seq<char>, Seq<char>)> {
    if exists|pos: int| is_first_bar(line, pos) {
        let pos = choose|pos: int| is_first_bar(line, pos);
        if valid_utf8(line.take(pos)) && valid_utf8(line.skip(pos + 1)) && upper(
            trim(decode_utf8(line.take(pos))),
        ).len() > 0 {
            Some(
                (
                    upper(trim(decode_utf8(line.take(pos)))),
                    normalized_cik(trim(decode_utf8(line.skip(pos + 1)))),
                ),
            )
        } else {
            None
        }
    } else {
        None
    }
}

/// Whether the first bar of `line` stands at index `pos`.
pub open spec fn is_first_bar(line: Seq<u8>, pos: int) -> bool {
    &&& 0 <= pos < line.len()
    &&& line[pos] == BAR
    &&& forall|j: int| 0 <= j < pos ==> line[j] != BAR
}

/// The entries of the lines of `bytes` from index `i` on, where the line
/// that holds index `i` starts at index `start`. Lines are separated by line
/// feeds and carriage returns; an empty line holds no entry.
pub open spec fn bar_entries(bytes: Seq<u8>, i: int, start: int) -> Seq<(Seq<char>, Seq<char>)>
    decreases bytes.len() - i,
{
    if i < 0 || start < 0 || start > i {
        Seq::empty()
    } else if i >= bytes.len() {
        if start < bytes.len() {
            entry_seq(bar_entry(bytes.subrange(start, bytes.len() as int)))
        } else {
            Seq::empty()
        }
    } else if is_line_end(bytes[i]) {
        (if i > start {
            entry_seq(bar_entry(bytes.subrange(start, i)))
        } else {
            Seq::empty()
        }) + bar_entries(bytes, i + 1, i + 1)
    } else {
        bar_entries(bytes, i + 1, start)
    }
}

/// The entry of a line, if it holds one, as a sequence.
pub open spec fn entry_seq(entry: Option<(Seq<char>, Seq<char>)>) -> Seq<(Seq<char>, Seq<char>)> {
    match entry {
        Some(e) => seq![e],
        None => Seq::empty(),
    }
}

/// Reads one line of the form `ticker|cik`.
pub fn parse_bar_line(line: &[u8]) -> (r: Option<TickerEntry>)
    ensures
        match r {
            Some(e) => bar_entry(line@) == Some((e.ticker@, e.cik@)),
            None => bar_entry(line@) is None,
        },
{
    let pos = match memchr(BAR, line) {
        Some(pos) => pos,
        None => {
            assert(forall|p: int| !is_first_bar(line@, p));
            return None;
        },
    };
    proof {
        assert(is_first_bar(line@, pos as int));
        let chosen = choose|p: int| is_first_bar(line@, p);
        assert(chosen == pos) by {
            if chosen < pos {
                assert(line@[chosen] != BAR);
            } else if pos < chosen {
                assert(line@[pos as int] != BAR);
            }
        }
        assert(line@.take(pos as int) == line@.subrange(0, pos as int));
        assert(line@.skip(pos + 1) == line@.subrange(pos + 1, line@.len() as int));
    }
    let ticker_text = match utf8_string(slice_to_vec(slice_subrange(line, 0, pos))) {
        Some(t) => t,
        None => {
            return None;
        },
    };
    let end = line.len();
    assert(pos < end);
    let cik_text = match utf8_string(slice_to_vec(slice_subrange(line, pos + 1, end))) {
        Some(t) => t,
        None => {
            return None;
        },
    };
    let ticker = to_upper(&trimmed(&chars_of(ticker_text.as_str())));
    if ticker.len() == 0 {
        return None;
    }
    let cik = normalize_cik(string_of(&trimmed(&chars_of(cik_text.as_str()))).as_str());
    Some(TickerEntry { ticker: string_of(&ticker), cik })
}

/// Reads a ticker dataset whose lines have the form `ticker|cik`. Lines
/// without a bar or without a ticker are skipped.
pub fn parse_ticker_cik_fast(s: &str) -> (r: Vec<TickerEntry>)
    ensures
        pairs_of(r@) == bar_entries(encode_utf8(s@), 0, 0),
{
    let bytes = s.as_bytes();
    let mut out: Vec<TickerEntry> = Vec::new();
    let mut start: usize = 0;
    let mut i: usize = 0;
    assert(pairs_of(out@) =~= Seq::<(Seq<char>, Seq<char>)>::empty());
    assert(pairs_of(out@) + bar_entries(bytes@, 0, 0) == bar_entries(bytes@, 0, 0));
    while i < bytes.len()
        invariant
            start <= i <= bytes.len(),
            bytes@ == encode_utf8(s@),
            bar_entries(bytes@, 0, 0) == pairs_of(out@) + bar_entries(
                bytes@,
                i as int,
                start as int,
            ),
        decreases bytes.len() - i,
    {
        let b = bytes[i];
        if b == 10 || b == 13 {
            let ghost before = pairs_of(out@);
            let ghost rest = bar_entries(bytes@, i + 1, i + 1);
            if i > start {
                match parse_bar_line(slice_subrange(bytes, start, i)) {
                    Some(e) => {
                        let ghost pair = (e.ticker@, e.cik@);
                        out.push(e);
                        assert(pairs_of(out@) =~= before + seq![pair]);
                        assert(before + (seq![pair] + rest) == (before + seq![pair]) + rest);
                    },
                    None => {
                        assert(before + (Seq::<(Seq<char>, Seq<char>)>::empty() + rest) == before
                            + rest);
                    },
                }
            } else {
                assert(before + (Seq::<(Seq<char>, Seq<char>)>::empty() + rest) == before + rest);
            }
            start = i + 1;
        }
        i += 1;
    }
    let ghost before = pairs_of(out@);
    if start < bytes.len() {
        match parse_bar_line(slice_subrange(bytes, start, bytes.len())) {
            Some(e) => {
                let ghost pair = (e.ticker@, e.cik@);
                out.push(e);
                assert(pairs_of(out@) =~= before + seq![pair]);
            },
            None => {
                assert(before + Seq::<(Seq<char>, Seq<char>)>::empty() == before);
            },
        }
    } else {
        assert(before + Seq::<(Seq<char>, Seq<char>)>::empty() == before);
    }
    out
}

} // verus!
