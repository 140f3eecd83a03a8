//! Text extraction from filing documents: markup removed, whitespace
//! normalized, sections and the primary document cut out.

use crate::pattern::{
    capture, find_split, regex_capture, regex_replaced, regex_split, replace_all,
};
use crate::text::{
    chars_of, find, find_from_index, lemma_find_from, occurs_at, push_all, string_of, trim,
    trimmed,
};
use vstd::prelude::*;
use vstd::string::StringExecFns;

verus! {

/// The pattern of a document of a submission, with its text as the second
/// group.
pub const DOCUMENT_PATTERN: &'static str =
    r"<DOCUMENT>.*?<TYPE>([^\n]+).*?<TEXT>(.*?)</TEXT>.*?</DOCUMENT>";

/// The pattern of an HTML tag.
pub const TAG_PATTERN: &'static str = r"<[^>]+>";

/// The pattern of a run of whitespace.
pub const WHITESPACE_PATTERN: &'static str = r"\s+";

/// The pattern of the header of the next section.
pub const NEXT_SECTION_PATTERN: &'static str = r"\n\s*ITEM\s+\d+[A-Z]?\.";

/// The pattern of the line that ends the SEC header.
pub const HEADER_END_PATTERN: &'static str = r"\n[-=]{40,}\n";

/// Extract the primary document from a complete submission text file: the
/// text of the first document of the submission.
pub fn extract_primary_document(submission_text: &str) -> (r: Option<String>)
    ensures
        match r {
            Some(text) => regex_capture(DOCUMENT_PATTERN@, submission_text@, 2) == Some(text@),
            None => regex_capture(DOCUMENT_PATTERN@, submission_text@, 2) is None,
        },
{
    capture(DOCUMENT_PATTERN, submission_text, 2)
}

/// `s` with every occurrence of `needle` replaced by `with`, from left to
/// right and without overlap. An empty `needle` replaces nothing.
pub open spec fn replaced(s: Seq<char>, needle: Seq<char>, with: Seq<char>) -> Seq<char>
    decreases s.len(),
{
    match find(s, needle) {
        Some(i) if needle.len() > 0 && 0 <= i && i + needle.len() <= s.len() => s.take(i) + with
            + replaced(s.skip(i + needle.len()), needle, with),
        _ => s,
    }
}

/// `s` with every occurrence of `needle` replaced by `with`.
pub fn replace_text(s: &Vec<char>, needle: &str, with: &str) -> (r: Vec<char>)
    ensures
        r@ == replaced(s@, needle@, with@),
{
    let n = chars_of(needle);
    let w = chars_of(with);
    let mut out: Vec<char> = Vec::new();
    if n.len() == 0 {
        push_all(&mut out, s);
        return out;
    }
    let mut from: usize = 0;
    assert(s@.skip(0) == s@);
    assert(out@ + replaced(s@, needle@, with@) == replaced(s@, needle@, with@));
    loop
        invariant
            from <= s.len(),
            n@ == needle@,
            w@ == with@,
            n.len() > 0,
            replaced(s@, needle@, with@) == out@ + replaced(s@.skip(from as int), needle@, with@),
        decreases s.len() - from,
    {
        let ghost rest = s@.skip(from as int);
        let ghost before = out@;
        proof {
            lemma_find_from(s@, n@, from as int);
            lemma_find_from(rest, n@, 0);
        }
        match find_from_index(s, &n, from) {
            Some(i) => {
                proof {
                    assert(occurs_at(s@, n@, i as int));
                    assert(rest.subrange(i - from, i - from + n@.len()) == s@.subrange(
                        i as int,
                        i + n@.len(),
                    ));
                    assert(occurs_at(rest, n@, i - from));
                    assert forall|j: int| 0 <= j < i - from implies !occurs_at(rest, n@, j) by {
                        if occurs_at(rest, n@, j) {
                            assert(rest.subrange(j, j + n@.len()) == s@.subrange(
                                j + from,
                                j + from + n@.len(),
                            ));
                            assert(occurs_at(s@, n@, j + from));
                        }
                    }
                    assert(find(rest, n@) == Some(i - from));
                    assert(rest.take(i - from) == s@.subrange(from as int, i as int));
                    assert(rest.skip(i - from + n@.len()) == s@.skip(i + n@.len()));
                }
                let mut k: usize = from;
                while k < i
                    invariant
                        from <= k <= i <= s.len(),
                        out@ == before + s@.subrange(from as int, k as int),
                    decreases i - k,
                {
                    out.push(s[k]);
                    k += 1;
                }
                push_all(&mut out, &w);
                assert(out@ + replaced(s@.skip(i + n@.len()), needle@, with@) == before + (
                rest.take(i - from) + with@ + replaced(
                    rest.skip(i - from + n@.len()),
                    needle@,
                    with@,
                )));
                from = i + n.len();
            },
            None => {
                proof {
                    assert forall|j: int| 0 <= j implies !occurs_at(rest, n@, j) by {
                        if occurs_at(rest, n@, j) {
                            assert(rest.subrange(j, j + n@.len()) == s@.subrange(
                                j + from,
                                j + from + n@.len(),
                            ));
                            assert(occurs_at(s@, n@, j + from));
                        }
                    }
                    assert(find(rest, n@) is None);
                }
                let mut k: usize = from;
                while k < s.len()
                    invariant
                        from <= k <= s.len(),
                        out@ == before + s@.subrange(from as int, k as int),
                    decreases s.len() - k,
                {
                    out.push(s[k]);
                    k += 1;
                }
                assert(s@.subrange(from as int, s.len() as int) == rest);
                return out;
            },
        }
    }
}

/// `s` with the entities `&nbsp;`, `&amp;`, `&lt;`, `&gt;`, `&quot;` and
/// `&#39;` decoded, in this order.
pub open spec fn decoded_entities(s: Seq<char>) -> Seq<char> {
    replaced(
        replaced(
            replaced(
                replaced(replaced(replaced(s, "&nbsp;"@, " "@), "&amp;"@, "&"@), "&lt;"@, "<"@),
                "&gt;"@,
                ">"@,
            ),
            "&quot;"@,
            "\""@,
        ),
        "&#39;"@,
        "'"@,
    )
}

/// Decodes the common HTML entities.
pub fn decode_entities(s: &Vec<char>) -> (r: Vec<char>)
    ensures
        r@ == decoded_entities(s@),
{
    let a = replace_text(s, "&nbsp;", " ");
    let b = replace_text(&a, "&amp;", "&");
    let c = replace_text(&b, "&lt;", "<");
    let d = replace_text(&c, "&gt;", ">");
    let e = replace_text(&d, "&quot;", "\"");
    replace_text(&e, "&#39;", "'")
}

/// The text with every run of whitespace replaced by one space, and
/// without whitespace at its ends.
pub open spec fn normalized_whitespace(text: Seq<char>) -> Seq<char> {
    match regex_replaced(WHITESPACE_PATTERN@, text, " "@) {
        Some(t) => trim(t),
        None => trim(text),
    }
}

/// Normalize whitespace in text: runs of whitespace become a single space,
/// and leading and trailing whitespace is dropped.
pub fn normalize_whitespace(text: &str) -> (r: String)
    ensures
        r@ == normalized_whitespace(text@),
{
    match replace_all(WHITESPACE_PATTERN, text, " ") {
        Some(t) => string_of(&trimmed(&chars_of(t.as_str()))),
        None => string_of(&trimmed(&chars_of(text))),
    }
}

/// The text of an HTML document: every tag replaced by a space, the common
/// entities decoded, and whitespace normalized.
pub open spec fn stripped_html(html: Seq<char>) -> Seq<char> {
    let untagged = match regex_replaced(TAG_PATTERN@, html, " "@) {
        Some(t) => t,
        None => html,
    };
    normalized_whitespace(decoded_entities(untagged))
}

/// Strip HTML tags from text and decode common HTML entities.
pub fn strip_html(html: &str) -> (r: String)
    ensures
        r@ == stripped_html(html@),
{
    let untagged = match replace_all(TAG_PATTERN, html, " ") {
        Some(t) => t,
        None => String::from_str(html),
    };
    let decoded = string_of(&decode_entities(&chars_of(untagged.as_str())));
    normalize_whitespace(decoded.as_str())
}

/// The section that starts at a match of the header: the match and what
/// follows it, up to the header of the next section if there is one.
pub open spec fn section_from(
    header_split: Option<(Seq<char>, Seq<char>, Seq<char>)>,
    next_split: Option<(Seq<char>, Seq<char>, Seq<char>)>,
) -> Option<Seq<char>> {
    match header_split {
        Some((_, matched, after)) => match next_split {
            Some((body, _, _)) => Some(matched + body),
            None => Some(matched + after),
        },
        None => None,
    }
}

/// The section of `text` whose header matches `section_header`.
pub open spec fn section_of(text: Seq<char>, section_header: Seq<char>) -> Option<Seq<char>> {
    let header_split = regex_split(section_header, text);
    match header_split {
        Some((_, _, after)) => section_from(header_split, regex_split(NEXT_SECTION_PATTERN@, after)),
        None => None,
    }
}

/// Extract section from filing by header pattern: the text from the first
/// match of the header up to the next section header.
pub fn extract_section(text: &str, section_header: &str) -> (r: Option<String>)
    ensures
        match r {
            Some(section) => section_of(text@, section_header@) == Some(section@),
            None => section_of(text@, section_header@) is None,
        },
{
    match find_split(section_header, text) {
        Some((_, matched, after)) => {
            let mut section = matched;
            match find_split(NEXT_SECTION_PATTERN, after.as_str()) {
                Some((body, _, _)) => {
                    section.append(body.as_str());
                },
                None => {
                    section.append(after.as_str());
                },
            }
            Some(section)
        },
        None => None,
    }
}

/// The text after the line of dashes or equals signs that ends the SEC
/// header; all of the text where there is no such line.
pub open spec fn without_sec_header(text: Seq<char>) -> Seq<char> {
    match regex_split(HEADER_END_PATTERN@, text) {
        Some((_, _, after)) => after,
        None => text,
    }
}

/// Remove SEC header information from filing text.
pub fn remove_sec_header(text: &str) -> (r: String)
    ensures
        r@ == without_sec_header(text@),
{
    match find_split(HEADER_END_PATTERN, text) {
        Some((_, _, after)) => after,
        None => String::from_str(text),
    }
}

} // verus!
