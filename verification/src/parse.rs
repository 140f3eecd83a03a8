//! Document parsing: form type, title and size of a filing document.

use crate::errors::{EdgarError, ParseError, ParserError, ValidationError};
use crate::filings::FormType;
use crate::infer::{infer_form_type, inferred_type};
use crate::text::{
    chars_of, is_text, lines, lower, split_lines, split_words, string_of, to_lower, trim,
    trimmed, views, words,
};
use vstd::prelude::*;
use vstd::string::StringExecFns;
use vstd::utf8::encode_utf8;

verus! {

/// The text of the first element of an HTML document that a CSS selector
/// selects, as the `scraper` crate finds it: `Ok(None)` where no element is
/// selected, and the error's message where the selector does not parse.
pub uninterp spec fn selected_text(html: Seq<char>, selector: Seq<char>) -> Result<
    Option<Seq<char>>,
    Seq<char>,
>;

/// The string value of a member of a JSON object, as `serde_json` reads it:
/// `Ok(None)` where the document has no such member or the member is no
/// string, and the error's message where the text is not JSON.
pub uninterp spec fn json_member(json: Seq<char>, key: Seq<char>) -> Result<
    Option<Seq<char>>,
    Seq<char>,
>;

/// The characters of an optional string.
pub open spec fn optional_text(value: Option<String>) -> Option<Seq<char>> {
    match value {
        Some(s) => Some(s@),
        None => None,
    }
}

/// The characters of a looked-up text or of the message of the failure.
pub open spec fn lookup_view(r: Result<Option<String>, String>) -> Result<
    Option<Seq<char>>,
    Seq<char>,
> {
    match r {
        Ok(value) => Ok(optional_text(value)),
        Err(message) => Err(message@),
    }
}

/// Parses `html` with `scraper::Html::parse_document`, parses `selector`
/// with `Selector::parse`, and joins the text (`ElementRef::text`) of the
/// first element that `Html::select` yields. The contract only names the
/// result.
#[verifier::external_body]
fn select_text(html: &str, selector: &str) -> (r: Result<Option<String>, String>)
    ensures
        lookup_view(r) == selected_text(html@, selector@),
{
    let document = scraper::Html::parse_document(html);
    match scraper::Selector::parse(selector) {
        Ok(sel) => Ok(document.select(&sel).next().map(|n| n.text().collect::<String>())),
        Err(e) => Err(e.to_string()),
    }
}

/// Parses `json` with `serde_json::from_str` into a `Value` and copies the
/// string (`Value::as_str`) of the member `key` (`Value::get`). The contract
/// only names the result.
#[verifier::external_body]
fn string_member(json: &str, key: &str) -> (r: Result<Option<String>, String>)
    ensures
        lookup_view(r) == json_member(json@, key@),
{
    match serde_json::from_str::<serde_json::Value>(json) {
        Ok(value) => Ok(value.get(key).and_then(|t| t.as_str()).map(str::to_string)),
        Err(e) => Err(e.to_string()),
    }
}

/// Structural format of the input data (not the SEC form type).
#[derive(Debug, Copy, Clone, PartialEq, Eq, Hash, Structural)]
pub enum DataFormat {
    /// An HTML document.
    Html,
    /// A JSON document.
    Json,
    /// An XBRL document.
    Xbrl,
}

/// The format that a name in lower case stands for.
pub open spec fn format_named(name: Seq<char>) -> Option<DataFormat> {
    if name == "html"@ {
        Some(DataFormat::Html)
    } else if name == "json"@ {
        Some(DataFormat::Json)
    } else if name == "xbrl"@ || name == "xml"@ {
        Some(DataFormat::Xbrl)
    } else {
        None
    }
}

impl DataFormat {
    /// The name of the format.
    pub open spec fn name(self) -> Seq<char> {
        match self {
            DataFormat::Html => "html"@,
            DataFormat::Json => "json"@,
            DataFormat::Xbrl => "xbrl"@,
        }
    }

    /// The name of the format.
    pub fn as_str(&self) -> (r: &'static str)
        ensures
            r@ == self.name(),
    {
        match self {
            DataFormat::Html => "html",
            DataFormat::Json => "json",
            DataFormat::Xbrl => "xbrl",
        }
    }

    /// The name of the format, as a new string.
    pub fn to_string(&self) -> (r: String)
        ensures
            r@ == self.name(),
    {
        String::from_str(self.as_str())
    }

    /// Reads the name of a format, without regard to surrounding whitespace
    /// and ASCII case. An unknown name is an error that carries the name in
    /// lower case.
    pub fn from_str(s: &str) -> (r: Result<DataFormat, ValidationError>)
        ensures
            match r {
                Ok(format) => format_named(lower(trim(s@))) == Some(format),
                Err(ValidationError::UnknownFormat(other)) => format_named(lower(trim(s@)))
                    is None && other@ == lower(trim(s@)),
                Err(_) => false,
            },
    {
        let name = to_lower(&trimmed(&chars_of(s)));
        if is_text(&name, "html") {
            Ok(DataFormat::Html)
        } else if is_text(&name, "json") {
            Ok(DataFormat::Json)
        } else if is_text(&name, "xbrl") || is_text(&name, "xml") {
            Ok(DataFormat::Xbrl)
        } else {
            Err(ValidationError::UnknownFormat(string_of(&name)))
        }
    }
}

/// Normalized representation of a parsed filing document.
#[derive(Debug, Clone)]
pub struct ParsedDocument {
    /// SEC filing form type (e.g., 10-K, 8-K, DEF 14A).
    pub form_type: FormType,
    /// Structural format of the parsed content.
    pub format: DataFormat,
    /// Optional title extracted from the content/metadata.
    pub title: Option<String>,
    /// Size in bytes of the input payload.
    pub bytes: usize,
}

/// The title that a selected `<title>` text gives: the text without
/// surrounding whitespace, unless nothing is left of it.
pub open spec fn title_from(selected: Option<Seq<char>>) -> Option<Seq<char>> {
    match selected {
        Some(t) => if trim(t).len() > 0 {
            Some(trim(t))
        } else {
            None
        },
        None => None,
    }
}

/// The title that a selected `<title>` text gives.
pub fn clean_title(selected: Option<String>) -> (r: Option<String>)
    ensures
        optional_text(r) == title_from(optional_text(selected)),
{
    match selected {
        Some(t) => {
            let core = trimmed(&chars_of(t.as_str()));
            if core.len() > 0 {
                Some(string_of(&core))
            } else {
                None
            }
        },
        None => None,
    }
}

/// The selector of the title of an HTML document.
pub const TITLE_SELECTOR: &'static str = "title";

/// The message of a document whose form type cannot be found.
pub const NO_FORM_TYPE: &'static str = "Could not determine form type from document";

/// Whether `r` is what parsing `input` as an HTML document gives: the title
/// of its `<title>` element and its inferred form type; a failure of the
/// selector; or the refusal of a document whose form type cannot be found.
pub open spec fn is_html_parse(input: Seq<char>, r: Result<ParsedDocument, ParserError>) -> bool {
    match r {
        Ok(doc) => {
            &&& selected_text(input, TITLE_SELECTOR@) matches Ok(selected)
            &&& optional_text(doc.title) == title_from(selected)
            &&& inferred_type(input) == Some(doc.form_type)
            &&& doc.format == DataFormat::Html
            &&& doc.bytes == encode_utf8(input).len()
        },
        Err(ParserError::ParseDetail(ParseError::Selector(m))) => selected_text(
            input,
            TITLE_SELECTOR@,
        ) == Err::<Option<Seq<char>>, Seq<char>>(m@),
        Err(ParserError::Parse(m)) => selected_text(input, TITLE_SELECTOR@) is Ok
            && inferred_type(input) is None && m@ == NO_FORM_TYPE@,
        Err(_) => false,
    }
}

/// Whether `r` is what parsing `input` as a JSON document gives: its string
/// member `title` and its inferred form type, 10-Q where none is found; or
/// the refusal of text that is not JSON.
pub open spec fn is_json_parse(input: Seq<char>, r: Result<ParsedDocument, ParserError>) -> bool {
    match r {
        Ok(doc) => {
            &&& json_member(input, TITLE_MEMBER@) == Ok::<Option<Seq<char>>, Seq<char>>(
                optional_text(doc.title),
            )
            &&& doc.form_type == match inferred_type(input) {
                Some(form) => form,
                None => FormType::TenQ,
            }
            &&& doc.format == DataFormat::Json
            &&& doc.bytes == encode_utf8(input).len()
        },
        Err(ParserError::ParseDetail(ParseError::Json(m))) => json_member(
            input,
            TITLE_MEMBER@,
        ) == Err::<Option<Seq<char>>, Seq<char>>(m@),
        Err(_) => false,
    }
}

/// Parser of HTML documents.
#[derive(Debug, Default)]
pub struct HtmlParser;

/// Parser of JSON documents.
#[derive(Debug, Default)]
pub struct JsonParser;

impl HtmlParser {
    /// Parses an HTML document: its title is the text of its `<title>`
    /// element, trimmed, if that is not empty; its form type is inferred
    /// from its text, and a document without one is refused.
    pub fn parse(&self, input: &str) -> (r: Result<ParsedDocument, ParserError>)
        ensures
            is_html_parse(input@, r),
    {
        let title = match select_text(input, TITLE_SELECTOR) {
            Ok(selected) => clean_title(selected),
            Err(m) => {
                return Err(ParserError::ParseDetail(ParseError::Selector(m)));
            },
        };
        match infer_form_type(input) {
            Some(form_type) => Ok(
                ParsedDocument {
                    form_type,
                    format: DataFormat::Html,
                    title,
                    bytes: input.as_bytes().len(),
                },
            ),
            None => Err(ParserError::Parse(String::from_str(NO_FORM_TYPE))),
        }
    }
}

/// The name of the JSON member that holds the title.
pub const TITLE_MEMBER: &'static str = "title";

impl JsonParser {
    /// Parses a JSON document: its title is the string member `title`, if
    /// there is one; its form type is inferred from its text, and is 10-Q
    /// where none is found. Text that is not JSON is refused.
    pub fn parse(&self, input: &str) -> (r: Result<ParsedDocument, ParserError>)
        ensures
            is_json_parse(input@, r),
    {
        let title = match string_member(input, TITLE_MEMBER) {
            Ok(title) => title,
            Err(m) => {
                return Err(ParserError::ParseDetail(ParseError::Json(m)));
            },
        };
        let form_type = match infer_form_type(input) {
            Some(form) => form,
            None => FormType::TenQ,
        };
        Ok(
            ParsedDocument {
                form_type,
                format: DataFormat::Json,
                title,
                bytes: input.as_bytes().len(),
            },
        )
    }
}

/// The message of the format that has no parser.
pub const NO_XBRL: &'static str = "XBRL parsing not implemented";

/// Parses a document of the given format. There is no parser for XBRL.
pub fn parse(format: DataFormat, input: &str) -> (r: Result<ParsedDocument, ParserError>)
    ensures
        match format {
            DataFormat::Html => is_html_parse(input@, r),
            DataFormat::Json => is_json_parse(input@, r),
            DataFormat::Xbrl => r matches Err(ParserError::NotImplemented(m)) && m@ == NO_XBRL@,
        },
{
    match format {
        DataFormat::Html => HtmlParser.parse(input),
        DataFormat::Json => JsonParser.parse(input),
        DataFormat::Xbrl => Err(ParserError::NotImplemented(String::from_str(NO_XBRL))),
    }
}

/// Document format type.
#[derive(Debug, Clone, Copy, PartialEq, Eq, Structural)]
pub enum DocumentFormat {
    /// An HTML document.
    Html,
    /// A JSON document.
    Json,
    /// An XML document.
    Xml,
    /// A plain text document.
    Text,
}

impl DocumentFormat {
    /// The name of the format.
    pub open spec fn name(self) -> Seq<char> {
        match self {
            DocumentFormat::Html => "HTML"@,
            DocumentFormat::Json => "JSON"@,
            DocumentFormat::Xml => "XML"@,
            DocumentFormat::Text => "Text"@,
        }
    }

    /// The name of the format, as a new string.
    pub fn to_string(&self) -> (r: String)
        ensures
            r@ == self.name(),
    {
        match self {
            DocumentFormat::Html => String::from_str("HTML"),
            DocumentFormat::Json => String::from_str("JSON"),
            DocumentFormat::Xml => String::from_str("XML"),
            DocumentFormat::Text => String::from_str("Text"),
        }
    }
}

/// Parsed document metadata.
#[derive(Debug, Clone)]
pub struct Document {
    /// SEC form type (e.g., "10-K", "8-K").
    pub form_type: String,
    /// Document format.
    pub format: DocumentFormat,
    /// Document title if available.
    pub title: Option<String>,
    /// Document size in bytes.
    pub size_bytes: usize,
}

impl Document {
    /// Create a new document, without a title and of size 0.
    pub fn new(form_type: &str, format: DocumentFormat) -> (r: Document)
        ensures
            r.form_type@ == form_type@,
            r.format == format,
            r.title is None,
            r.size_bytes == 0,
    {
        Document { form_type: String::from_str(form_type), format, title: None, size_bytes: 0 }
    }

    /// Set document title.
    pub fn with_title(self, title: &str) -> (r: Document)
        ensures
            r.form_type == self.form_type,
            r.format == self.format,
            optional_text(r.title) == Some(title@),
            r.size_bytes == self.size_bytes,
    {
        Document {
            form_type: self.form_type,
            format: self.format,
            title: Some(String::from_str(title)),
            size_bytes: self.size_bytes,
        }
    }

    /// Set document size.
    pub fn with_size(self, size: usize) -> (r: Document)
        ensures
            r.form_type == self.form_type,
            r.format == self.format,
            r.title == self.title,
            r.size_bytes == size,
    {
        Document {
            form_type: self.form_type,
            format: self.format,
            title: self.title,
            size_bytes: size,
        }
    }
}

/// Whether `r` is the document that `html` parses to as HTML, or the
/// refusal that is due.
pub open spec fn is_html_document(html: Seq<char>, r: Result<Document, EdgarError>) -> bool {
    match r {
        Ok(doc) => {
            &&& selected_text(html, TITLE_SELECTOR@) matches Ok(selected)
            &&& optional_text(doc.title) == title_from(selected)
            &&& inferred_type(html) matches Some(form)
            &&& doc.form_type@ == form.label()
            &&& doc.format == DocumentFormat::Html
            &&& doc.size_bytes == encode_utf8(html).len()
        },
        Err(EdgarError::Parse { format, reason }) => format@ == "HTML"@ && match selected_text(
            html,
            TITLE_SELECTOR@,
        ) {
            Ok(_) => inferred_type(html) is None && reason@ == NO_FORM_TYPE@,
            Err(m) => reason@ == m,
        },
        Err(_) => false,
    }
}

/// Parse HTML SEC document: the canonical label of its form type, its
/// title and its size. A document whose form type cannot be found is
/// refused.
pub fn parse_html(html: &str) -> (r: Result<Document, EdgarError>)
    ensures
        is_html_document(html@, r),
{
    match HtmlParser.parse(html) {
        Ok(doc) => Ok(
            Document {
                form_type: doc.form_type.to_string(),
                format: DocumentFormat::Html,
                title: doc.title,
                size_bytes: doc.bytes,
            },
        ),
        Err(ParserError::ParseDetail(ParseError::Selector(m))) => Err(
            EdgarError::Parse { format: String::from_str("HTML"), reason: m },
        ),
        Err(_) => Err(
            EdgarError::Parse {
                format: String::from_str("HTML"),
                reason: String::from_str(NO_FORM_TYPE),
            },
        ),
    }
}

/// The name of the JSON member that holds the form type of a submission.
pub const SUBMISSION_TYPE_MEMBER: &'static str = "submissionType";

/// The name of the JSON member that holds the name of the filer.
pub const ENTITY_NAME_MEMBER: &'static str = "entityName";

/// Whether `r` is the document that `json` parses to as JSON, or the
/// refusal that is due.
pub open spec fn is_json_document(json: Seq<char>, r: Result<Document, EdgarError>) -> bool {
    match r {
        Ok(doc) => {
            &&& json_member(json, SUBMISSION_TYPE_MEMBER@) == Ok::<
                Option<Seq<char>>,
                Seq<char>,
            >(Some(doc.form_type@))
            &&& json_member(json, ENTITY_NAME_MEMBER@) matches Ok(name)
            &&& optional_text(doc.title) == name
            &&& doc.format == DocumentFormat::Json
            &&& doc.size_bytes == encode_utf8(json).len()
        },
        Err(EdgarError::Parse { format, reason }) => format@ == "JSON"@ && match json_member(
            json,
            SUBMISSION_TYPE_MEMBER@,
        ) {
            Ok(Some(_)) => json_member(json, ENTITY_NAME_MEMBER@) == Err::<
                Option<Seq<char>>,
                Seq<char>,
            >(reason@),
            Ok(None) => reason@ == "Missing submissionType in JSON"@,
            Err(m) => reason@ == m,
        },
        Err(_) => false,
    }
}

/// Parse JSON SEC document: its form type is the string member
/// `submissionType`, which has to be there; its title is the string member
/// `entityName`, if there is one.
pub fn parse_json(json: &str) -> (r: Result<Document, EdgarError>)
    ensures
        is_json_document(json@, r),
{
    let form_type = match string_member(json, SUBMISSION_TYPE_MEMBER) {
        Ok(Some(form_type)) => form_type,
        Ok(None) => {
            return Err(
                EdgarError::Parse {
                    format: String::from_str("JSON"),
                    reason: String::from_str("Missing submissionType in JSON"),
                },
            );
        },
        Err(m) => {
            return Err(EdgarError::Parse { format: String::from_str("JSON"), reason: m });
        },
    };
    let title = match string_member(json, ENTITY_NAME_MEMBER) {
        Ok(title) => title,
        Err(m) => {
            return Err(EdgarError::Parse { format: String::from_str("JSON"), reason: m });
        },
    };
    Ok(
        Document {
            form_type,
            format: DocumentFormat::Json,
            title,
            size_bytes: json.as_bytes().len(),
        },
    )
}

/// Whether `r` is the document that `text` parses to as plain text, or the
/// refusal that is due.
pub open spec fn is_text_document(text: Seq<char>, r: Result<Document, EdgarError>) -> bool {
    match r {
        Ok(doc) => {
            &&& inferred_type(text) matches Some(form)
            &&& doc.form_type@ == form.label()
            &&& doc.format == DocumentFormat::Text
            &&& doc.title is None
            &&& doc.size_bytes == encode_utf8(text).len()
        },
        Err(EdgarError::Parse { format, reason }) => format@ == "Text"@ && reason@
            == NO_FORM_TYPE@ && inferred_type(text) is None,
        Err(_) => false,
    }
}

/// Parse a plain text SEC document: the canonical label of its form type
/// and its size. A document whose form type cannot be found is refused.
pub fn parse_text(text: &str) -> (r: Result<Document, EdgarError>)
    ensures
        is_text_document(text@, r),
{
    match infer_form_type(text) {
        Some(form) => Ok(
            Document {
                form_type: form.to_string(),
                format: DocumentFormat::Text,
                title: None,
                size_bytes: text.as_bytes().len(),
            },
        ),
        None => Err(
            EdgarError::Parse {
                format: String::from_str("Text"),
                reason: String::from_str(NO_FORM_TYPE),
            },
        ),
    }
}

/// The format that a document appears to have: JSON where its first
/// character after whitespace is a brace or a bracket, HTML where it is an
/// angle bracket, and plain text otherwise.
pub open spec fn apparent_format(input: Seq<char>) -> DocumentFormat {
    let t = trim(input);
    if t.len() > 0 && (t[0] == '{' || t[0] == '[') {
        DocumentFormat::Json
    } else if t.len() > 0 && t[0] == '<' {
        DocumentFormat::Html
    } else {
        DocumentFormat::Text
    }
}

/// Detects the format that a document appears to have.
pub fn detect_format(input: &str) -> (r: DocumentFormat)
    ensures
        r == apparent_format(input@),
{
    let t = trimmed(&chars_of(input));
    if t.len() > 0 && (t[0] == '{' || t[0] == '[') {
        DocumentFormat::Json
    } else if t.len() > 0 && t[0] == '<' {
        DocumentFormat::Html
    } else {
        DocumentFormat::Text
    }
}

/// Parse a document of whatever format it appears to have.
pub fn parse_auto(input: &str) -> (r: Result<Document, EdgarError>)
    ensures
        match apparent_format(input@) {
            DocumentFormat::Json => is_json_document(input@, r),
            DocumentFormat::Html => is_html_document(input@, r),
            _ => is_text_document(input@, r),
        },
{
    match detect_format(input) {
        DocumentFormat::Json => parse_json(input),
        DocumentFormat::Html => parse_html(input),
        _ => parse_text(input),
    }
}

/// The rows of a text: the words of each of its lines.
pub open spec fn rows_of(text_lines: Seq<Seq<char>>) -> Seq<Seq<Seq<char>>> {
    Seq::new(text_lines.len(), |i: int| words(text_lines[i]))
}

/// The tables that a sequence of rows holds, given the rows `current` of the
/// table that is being collected. A row of at least `min_columns` cells
/// belongs to a table; any other row ends the table before it.
pub open spec fn grouped(
    rows: Seq<Seq<Seq<char>>>,
    min_columns: nat,
    current: Seq<Seq<Seq<char>>>,
) -> Seq<Seq<Seq<Seq<char>>>>
    decreases rows.len(),
{
    if rows.len() == 0 {
        if current.len() > 0 {
            seq![current]
        } else {
            Seq::empty()
        }
    } else if rows[0].len() >= min_columns {
        grouped(rows.drop_first(), min_columns, current.push(rows[0]))
    } else if current.len() > 0 {
        seq![current] + grouped(rows.drop_first(), min_columns, Seq::empty())
    } else {
        grouped(rows.drop_first(), min_columns, Seq::empty())
    }
}

/// The tables of a text: the maximal runs of lines that each have at least
/// `min_columns` words.
pub open spec fn tables_of(text: Seq<char>, min_columns: nat) -> Seq<Seq<Seq<Seq<char>>>> {
    grouped(rows_of(lines(text)), min_columns, Seq::empty())
}

/// The cells of a row.
pub open spec fn row_view(row: Vec<String>) -> Seq<Seq<char>> {
    Seq::new(row@.len(), |i: int| row@[i]@)
}

/// The rows of a table.
pub open spec fn table_view(table: Seq<Vec<String>>) -> Seq<Seq<Seq<char>>> {
    Seq::new(table.len(), |i: int| row_view(table[i]))
}

/// The tables of a list of tables.
pub open spec fn tables_view(tables: Seq<Vec<Vec<String>>>) -> Seq<Seq<Seq<Seq<char>>>> {
    Seq::new(tables.len(), |i: int| table_view(tables[i]@))
}

/// The words of a line as strings.
fn cells_of(line: &Vec<char>) -> (r: Vec<String>)
    ensures
        row_view(r) == words(line@),
{
    let parts = split_words(line);
    let mut out: Vec<String> = Vec::new();
    let mut i: usize = 0;
    assert(views(parts@).len() == parts@.len());
    while i < parts.len()
        invariant
            i <= parts.len(),
            out@.len() == i,
            forall|k: int| 0 <= k < i ==> (#[trigger] out@[k])@ == parts@[k]@,
        decreases parts.len() - i,
    {
        out.push(string_of(&parts[i]));
        i += 1;
    }
    assert(row_view(out) =~= views(parts@));
    out
}

/// Extract tabular data from text: every maximal run of lines that each
/// have at least `min_columns` words is a table, each such line is a row,
/// and each word is a cell.
pub fn extract_tables(text: &str, min_columns: usize) -> (r: Vec<Vec<Vec<String>>>)
    ensures
        tables_view(r@) == tables_of(text@, min_columns as nat),
{
    let all = split_lines(&chars_of(text));
    let ghost rows = rows_of(lines(text@));
    let mut tables: Vec<Vec<Vec<String>>> = Vec::new();
    let mut current: Vec<Vec<String>> = Vec::new();
    let mut i: usize = 0;
    assert(views(all@).len() == all@.len());
    assert(rows.skip(0) == rows);
    assert(table_view(current@) =~= Seq::<Seq<Seq<char>>>::empty());
    assert(tables_view(tables@) + grouped(rows, min_columns as nat, Seq::empty()) == grouped(
        rows,
        min_columns as nat,
        Seq::empty(),
    ));
    while i < all.len()
        invariant
            i <= all.len(),
            views(all@) == lines(text@),
            rows == rows_of(lines(text@)),
            rows.len() == all.len(),
            tables_of(text@, min_columns as nat) == tables_view(tables@) + grouped(
                rows.skip(i as int),
                min_columns as nat,
                table_view(current@),
            ),
        decreases all.len() - i,
    {
        let cells = cells_of(&all[i]);
        proof {
            assert(views(all@)[i as int] == all@[i as int]@);
            assert(rows.skip(i as int)[0] == words(all@[i as int]@));
            assert(rows.skip(i as int).drop_first() == rows.skip(i + 1));
        }
        let ghost done = tables_view(tables@);
        let ghost held = table_view(current@);
        if cells.len() >= min_columns {
            let ghost row = row_view(cells);
            current.push(cells);
            assert(table_view(current@) =~= held.push(row));
        } else if current.len() > 0 {
            let finished = current;
            current = Vec::new();
            tables.push(finished);
            assert(tables_view(tables@) =~= done + seq![held]);
            assert(table_view(current@) =~= Seq::<Seq<Seq<char>>>::empty());
            assert(done + (seq![held] + grouped(rows.skip(i + 1), min_columns as nat, Seq::empty()))
                == (done + seq![held]) + grouped(rows.skip(i + 1), min_columns as nat, Seq::empty()));
        } else {
            assert(table_view(current@) =~= Seq::<Seq<Seq<char>>>::empty());
        }
        i += 1;
    }
    let ghost done = tables_view(tables@);
    let ghost held = table_view(current@);
    assert(rows.skip(all.len() as int).len() == 0);
    if current.len() > 0 {
        tables.push(current);
        assert(tables_view(tables@) =~= done + seq![held]);
    } else {
        assert(done + Seq::<Seq<Seq<Seq<char>>>>::empty() == done);
    }
    tables
}

} // verus!
