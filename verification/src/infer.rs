//! Form type inference.
//!
//! The form type of a document is looked for in three places, in this order:
//! after one of the labels that headers and JSON exports carry, as a form
//! name anywhere in the text, and after the word "Form". Only the start of a
//! document is scanned: that is where these signals stand.

use crate::filings::{form_named, uppercase, FormType};
use crate::pattern::{capture, regex_capture};
use crate::text::{
    chars_of, find, find_index, first_index, first_word, has_prefix, index_of_char, is_text,
    is_whitespace, leading, leading_word, lemma_find_from, find_from, lower, padding, prefix, slice,
    squeeze, squeezed, starts_with, string_of, strip, strip_front, to_lower, to_upper, trim,
    trimmed, unpadded, upper, whitespace, char_is_whitespace, lemma_prefix_len_is,
};
use vstd::prelude::*;
use vstd::string::StringExecFns;

verus! {

/// The number of characters at the start of a document that are scanned.
pub const HEAD_CHARS: usize = 65536;

/// The pattern of a form name anywhere in the text.
pub const TOKEN_PATTERN: &'static str =
    r"(?ix)\b(10-K|10Q|10\-Q|8-K|DEF\s*14A|S\-1|S\-3|S\-4|S\-8|20\-F|6\-K|11\-K|13F\-HR|144|SC\s*13D|SC\s*13G|424B5|425)\b";

/// The pattern of a form name after the word "Form".
pub const FORM_WORD_PATTERN: &'static str = r"(?i)\bFORM\s+([A-Z0-9\- ]{1,8})\b";

/// The labels that may precede the filing type in a header or a JSON export,
/// in the order in which they are tried.
pub open spec fn labels() -> Seq<Seq<char>> {
    seq![
        "CONFORMED SUBMISSION TYPE"@,
        "CONFORMED-SUBMISSION-TYPE"@,
        "SUBMISSION TYPE"@,
        "SUBMISSION-TYPE"@,
        "FORM TYPE"@,
        "FORM-TYPE"@,
        "\"submissionType\""@,
        "\"conformedSubmissionType\""@,
        "\"formType\""@,
        "\"form_type\""@,
        "\"form\""@,
        "\"type\""@,
    ]
}

/// The labels of [`labels`].
pub fn label_list() -> (r: Vec<&'static str>)
    ensures
        r@.len() == labels().len(),
        forall|i: int| 0 <= i < r@.len() ==> (#[trigger] r@[i])@ == labels()[i],
{
    let mut v: Vec<&'static str> = Vec::new();
    v.push("CONFORMED SUBMISSION TYPE");
    v.push("CONFORMED-SUBMISSION-TYPE");
    v.push("SUBMISSION TYPE");
    v.push("SUBMISSION-TYPE");
    v.push("FORM TYPE");
    v.push("FORM-TYPE");
    v.push("\"submissionType\"");
    v.push("\"conformedSubmissionType\"");
    v.push("\"formType\"");
    v.push("\"form_type\"");
    v.push("\"form\"");
    v.push("\"type\"");
    v
}

/// The start of a document: its first [`HEAD_CHARS`] characters.
pub open spec fn head_of(s: Seq<char>) -> Seq<char> {
    prefix(s, HEAD_CHARS as nat)
}

/// Return the start of a document, for faster scanning.
pub fn head(s: &str) -> (r: String)
    ensures
        r@ == head_of(s@),
{
    string_of(&leading(&chars_of(s), HEAD_CHARS))
}

/// The first line of `s`: what stands before its first line feed.
pub open spec fn first_line(s: Seq<char>) -> Seq<char> {
    s.take(first_index(s, '\n'))
}

/// The token that follows the first `sep` of `tail` on the same line: the
/// line's rest without surrounding whitespace, quotes and commas, up to its
/// first whitespace. Empty where `tail` holds no `sep`.
pub open spec fn token_after(tail: Seq<char>, sep: char) -> Seq<char> {
    let pos = first_index(tail, sep);
    if pos < tail.len() {
        first_word(strip(first_line(tail.skip(pos + 1)), padding()))
    } else {
        Seq::empty()
    }
}

/// The first token that appears after `label` in `hay`. The label is found
/// without regard to ASCII case. After it a colon is looked for, then a
/// double quote, then a space; the first of these that is followed by a
/// token decides.
pub open spec fn value_after_label(hay: Seq<char>, label: Seq<char>) -> Option<Seq<char>> {
    match find(lower(hay), lower(label)) {
        None => None,
        Some(idx) => {
            let tail = hay.skip(idx + label.len());
            if token_after(tail, ':').len() > 0 {
                Some(token_after(tail, ':'))
            } else if token_after(tail, '"').len() > 0 {
                Some(token_after(tail, '"'))
            } else if token_after(tail, ' ').len() > 0 {
                Some(token_after(tail, ' '))
            } else {
                None
            }
        },
    }
}

/// The token that follows the first `sep` of `tail` on the same line.
fn token_following(tail: &Vec<char>, sep: char) -> (r: Vec<char>)
    ensures
        r@ == token_after(tail@, sep),
{
    let pos = index_of_char(tail, sep, 0);
    assert(tail@.skip(0) == tail@);
    if pos < tail.len() {
        let after = slice(tail, pos + 1, tail.len());
        assert(after@ == tail@.skip(pos + 1));
        let end = index_of_char(&after, '\n', 0);
        assert(after@.skip(0) == after@);
        let line = slice(&after, 0, end);
        leading_word(&unpadded(&line))
    } else {
        Vec::new()
    }
}

/// Extract the first token that appears after a label (e.g. `LABEL: value`,
/// `"label":"value"`).
pub fn extract_after_label(hay: &str, label: &str) -> (r: Option<String>)
    ensures
        match r {
            Some(token) => value_after_label(hay@, label@) == Some(token@),
            None => value_after_label(hay@, label@) is None,
        },
{
    let h = chars_of(hay);
    let l = chars_of(label);
    proof {
        lemma_find_from(lower(h@), lower(l@), 0);
    }
    let idx = match find_index(&to_lower(&h), &to_lower(&l)) {
        None => {
            return None;
        },
        Some(i) => i,
    };
    assert(find_from(lower(h@), lower(l@), 0) == Some(idx as int));
    assert(crate::text::occurs_at(lower(h@), lower(l@), idx as int));
    assert(lower(l@).len() == l.len() && lower(h@).len() == h.len());
    let tail = slice(&h, idx + l.len(), h.len());
    assert(tail@ == hay@.skip(idx + label@.len()));
    let by_colon = token_following(&tail, ':');
    if by_colon.len() > 0 {
        return Some(string_of(&by_colon));
    }
    let by_quote = token_following(&tail, '"');
    if by_quote.len() > 0 {
        return Some(string_of(&by_quote));
    }
    let by_space = token_following(&tail, ' ');
    if by_space.len() > 0 {
        return Some(string_of(&by_space));
    }
    None
}

/// `s` without leading whitespace and without the words "FORM" that it
/// begins with.
pub open spec fn without_form_words(s: Seq<char>) -> Seq<char>
    decreases s.len(),
{
    let t = strip_front(s, whitespace());
    if t.len() <= s.len() && starts_with(t, "FORM"@) && "FORM"@.len() == 4 && (t.len() == 4
        || is_whitespace(t[4])) {
        without_form_words(t.skip(4))
    } else {
        t
    }
}

/// The canonical spelling of a compact token.
pub open spec fn canonical(compact: Seq<char>) -> Seq<char> {
    if compact == "10K"@ {
        "10-K"@
    } else if compact == "10Q"@ {
        "10-Q"@
    } else if compact == "8K"@ {
        "8-K"@
    } else if compact == "SC13D"@ {
        "SC 13D"@
    } else if compact == "SC13G"@ {
        "SC 13G"@
    } else {
        compact
    }
}

/// A token in canonical-ish form: trimmed, in upper case, without the words
/// "FORM" in front and without whitespace inside, and with `10K`, `10Q`,
/// `8K`, `SC13D` and `SC13G` spelled `10-K`, `10-Q`, `8-K`, `SC 13D` and
/// `SC 13G`.
pub open spec fn normalized_token(tok: Seq<char>) -> Seq<char> {
    canonical(squeeze(without_form_words(upper(trim(tok)))))
}

/// `v` without leading whitespace and without the words "FORM" that it
/// begins with.
fn drop_form_words(v: &Vec<char>) -> (r: Vec<char>)
    ensures
        r@ == without_form_words(v@),
{
    let form = chars_of("FORM");
    proof {
        reveal_strlit("FORM");
    }
    let mut from: usize = 0;
    assert(v@.skip(0) == v@);
    loop
        invariant
            from <= v.len(),
            form@ == "FORM"@,
            "FORM"@.len() == 4,
            without_form_words(v@) == without_form_words(v@.skip(from as int)),
        decreases v.len() - from,
    {
        let ghost s = v@.skip(from as int);
        let mut a: usize = from;
        while a < v.len() && char_is_whitespace(v[a])
            invariant
                from <= a <= v.len(),
                forall|j: int| from <= j < a ==> is_whitespace(#[trigger] v@[j]),
            decreases v.len() - a,
        {
            a += 1;
        }
        proof {
            let p = whitespace();
            assert forall|j: int| 0 <= j < a - from implies p(#[trigger] s[j]) by {
                assert(s[j] == v@[j + from]);
                assert(is_whitespace(v@[j + from]));
            }
            if a - from < s.len() {
                assert(s[a - from] == v@[a as int]);
            }
            lemma_prefix_len_is(s, p, a - from);
            assert(strip_front(s, p) == v@.skip(a as int));
        }
        let t = slice(v, a, v.len());
        assert(t@ == v@.skip(a as int));
        if has_prefix(&t, &form) && (t.len() == 4 || char_is_whitespace(t[4])) {
            assert(t@.skip(4) == v@.skip(a + 4));
            from = a + 4;
        } else {
            return t;
        }
    }
}

/// Normalize a token (e.g., `10K`, `SC13D`, `DEF 14A`) into a canonical-ish
/// string.
pub fn normalize_token(tok: &str) -> (r: String)
    ensures
        r@ == normalized_token(tok@),
{
    let up = to_upper(&trimmed(&chars_of(tok)));
    let compact = squeezed(&drop_form_words(&up));
    if is_text(&compact, "10K") {
        String::from_str("10-K")
    } else if is_text(&compact, "10Q") {
        String::from_str("10-Q")
    } else if is_text(&compact, "8K") {
        String::from_str("8-K")
    } else if is_text(&compact, "SC13D") {
        String::from_str("SC 13D")
    } else if is_text(&compact, "SC13G") {
        String::from_str("SC 13G")
    } else {
        string_of(&compact)
    }
}

/// The form that a piece of text spells, as [`FormType::from_str`] reads it.
pub open spec fn form_spelled(s: Seq<char>) -> Option<FormType> {
    form_named(uppercase(trim(s)))
}

/// The form that a token from a header or a JSON member names.
pub open spec fn form_of_token(tok: Seq<char>) -> Option<FormType> {
    form_spelled(normalized_token(tok))
}

/// The form that `text` spells, if it spells one.
fn spelled(text: &str) -> (r: Option<FormType>)
    ensures
        r == form_spelled(text@),
{
    match FormType::from_str(text) {
        Ok(form) => Some(form),
        Err(_) => None,
    }
}

/// Map a token (from header/JSON) to a [`FormType`], after normalization.
pub fn form_from_token(tok: &str) -> (r: Option<FormType>)
    ensures
        r == form_of_token(tok@),
{
    let norm = normalize_token(tok);
    spelled(norm.as_str())
}

/// The form that the value after one of the labels from index `from` on
/// names: the first label, in order, whose value names a form decides.
pub open spec fn labeled_form(s: Seq<char>, from: int) -> Option<FormType>
    decreases labels().len() - from,
{
    if from < 0 || from >= labels().len() {
        None
    } else {
        match value_after_label(s, labels()[from]) {
            Some(token) if form_of_token(token) is Some => form_of_token(token),
            _ => labeled_form(s, from + 1),
        }
    }
}

/// The form that a piece of matched text spells, if there is a match and it
/// spells one.
pub open spec fn matched_form(matched: Option<Seq<char>>) -> Option<FormType> {
    match matched {
        Some(text) => form_spelled(text),
        None => None,
    }
}

/// The form type of a document head, given what the two patterns matched:
/// the labeled value decides if there is one; else the form name found
/// anywhere in the text; else the one found after the word "Form".
pub open spec fn inferred_form(
    s: Seq<char>,
    token: Option<Seq<char>>,
    form_word: Option<Seq<char>>,
) -> Option<FormType> {
    if labeled_form(s, 0) is Some {
        labeled_form(s, 0)
    } else if matched_form(token) is Some {
        matched_form(token)
    } else {
        matched_form(form_word)
    }
}

/// The form that the value after one of the labels names.
pub fn form_by_label(s: &str) -> (r: Option<FormType>)
    ensures
        r == labeled_form(s@, 0),
{
    let list = label_list();
    let mut i: usize = 0;
    while i < list.len()
        invariant
            i <= list.len(),
            list@.len() == labels().len(),
            forall|k: int| 0 <= k < list@.len() ==> (#[trigger] list@[k])@ == labels()[k],
            labeled_form(s@, 0) == labeled_form(s@, i as int),
        decreases list.len() - i,
    {
        let key: &str = list[i];
        assert(key@ == labels()[i as int]);
        match extract_after_label(s, key) {
            Some(token) => {
                match form_from_token(token.as_str()) {
                    Some(form) => {
                        return Some(form);
                    },
                    None => {},
                }
            },
            None => {},
        }
        i += 1;
    }
    None
}

/// The characters of an optional string.
pub open spec fn text_view(value: Option<&str>) -> Option<Seq<char>> {
    match value {
        Some(s) => Some(s@),
        None => None,
    }
}

/// Infers the form type of a document head from its labels and from what
/// the token pattern and the form-word pattern matched in it.
pub fn infer_from(s: &str, token: Option<&str>, form_word: Option<&str>) -> (r: Option<FormType>)
    ensures
        r == inferred_form(s@, text_view(token), text_view(form_word)),
{
    match form_by_label(s) {
        Some(form) => {
            return Some(form);
        },
        None => {},
    }
    match token {
        Some(text) => {
            match spelled(text) {
                Some(form) => {
                    return Some(form);
                },
                None => {},
            }
        },
        None => {},
    }
    match form_word {
        Some(text) => spelled(text),
        None => None,
    }
}

/// The form type of a document: that of its head, with what the token
/// pattern and the form-word pattern match in the head.
pub open spec fn inferred_type(input: Seq<char>) -> Option<FormType> {
    inferred_form(
        head_of(input),
        regex_capture(TOKEN_PATTERN@, head_of(input), 1),
        regex_capture(FORM_WORD_PATTERN@, head_of(input), 1),
    )
}

/// Infer a [`FormType`] from the input: from a labeled header or JSON value,
/// from a form name in the text, or from what follows the word "Form".
pub fn infer_form_type(input: &str) -> (r: Option<FormType>)
    ensures
        r == inferred_type(input@),
{
    let s = head(input);
    let token = capture(TOKEN_PATTERN, s.as_str(), 1);
    let form_word = capture(FORM_WORD_PATTERN, s.as_str(), 1);
    let token_ref: Option<&str> = match &token {
        Some(t) => Some(t.as_str()),
        None => None,
    };
    let word_ref: Option<&str> = match &form_word {
        Some(t) => Some(t.as_str()),
        None => None,
    };
    infer_from(s.as_str(), token_ref, word_ref)
}

} // verus!
