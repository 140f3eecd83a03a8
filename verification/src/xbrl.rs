//! XBRL downloads: which files of a filing to ask for, and whether what
//! came back is XBRL.

use crate::submissions::{filing_base_url, Filing, FilingView};
use crate::text::{
    chars_of, contains, ends_with, find_index, first_index, has_suffix, index_of_char, lines,
    push_all, push_text, slice, split_lines, string_of, trim, trimmed, views,
};
use crate::urls::{remove_char, without};
use vstd::prelude::*;
use vstd::string::StringExecFns;

verus! {

/// The name of the file that lists the files of an XBRL filing.
pub const FILING_SUMMARY: &'static str = "FilingSummary.xml";

/// The index of the last `c` in `s`, or -1 where there is none.
pub open spec fn last_index(s: Seq<char>, c: char) -> int
    decreases s.len(),
{
    if s.len() == 0 {
        -1
    } else if s.last() == c {
        s.len() - 1
    } else {
        last_index(s.drop_last(), c)
    }
}

/// The text between the first `>` and the last `<` of a line, without the
/// whitespace around the line; `None` where the one does not stand before
/// the other.
pub open spec fn filename_in_tag(line: Seq<char>) -> Option<Seq<char>> {
    let t = trim(line);
    let start = first_index(t, '>');
    let end = last_index(t, '<');
    if start < t.len() && start < end {
        Some(t.subrange(start + 1, end))
    } else {
        None
    }
}

/// The index of the last `c` in `v`, if there is one.
pub fn last_index_of(v: &Vec<char>, c: char) -> (r: Option<usize>)
    ensures
        match r {
            Some(i) => last_index(v@, c) == i as int && i < v.len(),
            None => last_index(v@, c) == -1,
        },
{
    let mut i: usize = v.len();
    assert(v@.take(i as int) == v@);
    while i > 0
        invariant
            i <= v.len(),
            last_index(v@, c) == last_index(v@.take(i as int), c),
        decreases i,
    {
        let ghost part = v@.take(i as int);
        assert(part.last() == v@[i - 1]);
        assert(part.drop_last() == v@.take(i - 1));
        if v[i - 1] == c {
            return Some(i - 1);
        }
        i -= 1;
    }
    None
}

/// Extract the file name from a line such as
/// `<HtmlFileName>file.htm</HtmlFileName>`.
pub fn extract_filename_from_xml_tag(line: &str) -> (r: Option<String>)
    ensures
        match r {
            Some(name) => filename_in_tag(line@) == Some(name@),
            None => filename_in_tag(line@) is None,
        },
{
    let t = trimmed(&chars_of(line));
    let start = index_of_char(&t, '>', 0);
    assert(t@.skip(0) == t@);
    match last_index_of(&t, '<') {
        Some(end) => {
            if start < t.len() && start < end {
                Some(string_of(&slice(&t, start + 1, end)))
            } else {
                None
            }
        },
        None => None,
    }
}

/// Whether a line of the filing summary names a file.
pub open spec fn names_file(line: Seq<char>) -> bool {
    contains(line, "<HtmlFileName>"@) || contains(line, "<XmlFileName>"@) || contains(
        line,
        "<OriginalDocument>"@,
    )
}

/// The XBRL file that a line of the filing summary lists: the file name in
/// its tag, if the line names a file and the name ends in `.xml` or `.xsd`.
pub open spec fn listed_file(line: Seq<char>) -> Option<Seq<char>> {
    if names_file(line) {
        match filename_in_tag(line) {
            Some(name) if ends_with(name, ".xml"@) || ends_with(name, ".xsd"@) => Some(name),
            _ => None,
        }
    } else {
        None
    }
}

/// The XBRL files that lines of the filing summary list, in order.
pub open spec fn listed_in(summary_lines: Seq<Seq<char>>) -> Seq<Seq<char>>
    decreases summary_lines.len(),
{
    if summary_lines.len() == 0 {
        Seq::empty()
    } else {
        match listed_file(summary_lines.last()) {
            Some(name) => listed_in(summary_lines.drop_last()).push(name),
            None => listed_in(summary_lines.drop_last()),
        }
    }
}

/// The names of the strings of `names`.
pub open spec fn names_view(names: Seq<String>) -> Seq<Seq<char>> {
    Seq::new(names.len(), |i: int| names[i]@)
}

/// Whether `line` holds `needle`.
fn holds(line: &Vec<char>, needle: &str) -> (r: bool)
    ensures
        r == contains(line@, needle@),
{
    find_index(line, &chars_of(needle)).is_some()
}

/// The XBRL files that the filing summary lists, in order.
pub fn listed_files(summary: &str) -> (r: Vec<String>)
    ensures
        names_view(r@) == listed_in(lines(summary@)),
{
    let all = split_lines(&chars_of(summary));
    let mut out: Vec<String> = Vec::new();
    let mut i: usize = 0;
    assert(views(all@).len() == all@.len());
    assert(views(all@).take(0) =~= Seq::<Seq<char>>::empty());
    assert(names_view(out@) =~= Seq::<Seq<char>>::empty());
    while i < all.len()
        invariant
            i <= all.len(),
            views(all@) == lines(summary@),
            names_view(out@) == listed_in(views(all@).take(i as int)),
        decreases all.len() - i,
    {
        let line = &all[i];
        proof {
            let ls = views(all@);
            assert(ls.take(i + 1).drop_last() == ls.take(i as int));
            assert(ls.take(i + 1).last() == line@);
        }
        if holds(line, "<HtmlFileName>") || holds(line, "<XmlFileName>") || holds(
            line,
            "<OriginalDocument>",
        ) {
            match extract_filename_from_xml_tag(string_of(line).as_str()) {
                Some(name) => {
                    let n = chars_of(name.as_str());
                    if has_suffix(&n, &chars_of(".xml")) || has_suffix(&n, &chars_of(".xsd")) {
                        let ghost before = names_view(out@);
                        let ghost nv = name@;
                        out.push(name);
                        assert(names_view(out@) =~= before.push(nv));
                    }
                },
                None => {},
            }
        }
        i += 1;
    }
    assert(views(all@).take(all.len() as int) == views(all@));
    out
}

/// Whether a document looks like XBRL: it holds the XBRL namespace, the
/// `xbrli:` prefix or an `<xbrl` tag.
pub open spec fn looks_like_xbrl(content: Seq<char>) -> bool {
    contains(content, "http://www.xbrl.org"@) || contains(content, "xbrli:"@) || contains(
        content,
        "<xbrl"@,
    )
}

/// Whether a document looks like XBRL.
pub fn is_xbrl_content(content: &str) -> (r: bool)
    ensures
        r == looks_like_xbrl(content@),
{
    let c = chars_of(content);
    holds(&c, "http://www.xbrl.org") || holds(&c, "xbrli:") || holds(&c, "<xbrl")
}

/// The suffixes of the files of an XBRL package, tried where the filing
/// summary lists none.
pub open spec fn package_suffixes() -> Seq<Seq<char>> {
    seq!["_htm.xml"@, ".xsd"@, "_cal.xml"@, "_def.xml"@, "_lab.xml"@, "_pre.xml"@]
}

/// The suffixes of [`package_suffixes`].
pub fn package_suffix_list() -> (r: Vec<&'static str>)
    ensures
        r@.len() == package_suffixes().len(),
        forall|i: int| 0 <= i < r@.len() ==> (#[trigger] r@[i])@ == package_suffixes()[i],
{
    let mut v: Vec<&'static str> = Vec::new();
    v.push("_htm.xml");
    v.push(".xsd");
    v.push("_cal.xml");
    v.push("_def.xml");
    v.push("_lab.xml");
    v.push("_pre.xml");
    v
}

/// The URLs at which the XBRL instance of a filing may stand, in the order
/// in which they are tried: the inline instance, the traditional instance,
/// and the primary document.
pub open spec fn candidate_urls(f: FilingView) -> Seq<Seq<char>> {
    seq![
        filing_base_url(f) + without(f.accession_number, '-') + "_htm.xml"@,
        filing_base_url(f) + without(f.accession_number, '-') + ".xml"@,
        filing_base_url(f) + f.primary_document,
    ]
}

/// The URLs at which the XBRL instance of a filing may stand, in the order
/// in which they are tried: the inline instance, the traditional instance,
/// and the primary document.
pub fn instance_candidates(filing: &Filing) -> (r: Vec<String>)
    ensures
        names_view(r@) == candidate_urls(filing@),
{
    let base = chars_of(filing.base_url().as_str());
    let acc = remove_char(&chars_of(filing.accession_number.as_str()), '-');
    let mut inline = base.clone();
    push_all(&mut inline, &acc);
    push_text(&mut inline, "_htm.xml");
    let mut traditional = base.clone();
    push_all(&mut traditional, &acc);
    push_text(&mut traditional, ".xml");
    let mut out: Vec<String> = Vec::new();
    out.push(string_of(&inline));
    out.push(string_of(&traditional));
    out.push(filing.primary_document_url());
    assert(names_view(out@) =~= candidate_urls(filing@));
    out
}

/// Whether `answer` is what `fetch` gave for the URL `url`.
pub open spec fn fetched<F: Fn(&str) -> Option<String>>(
    fetch: F,
    url: Seq<char>,
    answer: Option<String>,
) -> bool {
    exists|u: &str| u@ == url && #[trigger] fetch.ensures((u,), answer)
}

/// Whether an answer is a document that looks like XBRL.
pub open spec fn is_instance(answer: Option<String>) -> bool {
    answer matches Some(content) && looks_like_xbrl(content@)
}

/// Whether `r` is what a search for the XBRL instance at `urls` gives, where
/// `answers[i]` is what `fetch` gave for `urls[i]`. The URLs are asked in
/// order, up to the first whose answer is a document that looks like XBRL:
/// that document is the result. Where all URLs were asked and none gave
/// one, there is no result.
pub open spec fn is_instance_search<F: Fn(&str) -> Option<String>>(
    fetch: F,
    urls: Seq<Seq<char>>,
    answers: Seq<Option<String>>,
    r: Option<String>,
) -> bool {
    &&& 1 <= answers.len() <= urls.len()
    &&& forall|i: int| 0 <= i < answers.len() ==> fetched(fetch, urls[i], #[trigger] answers[i])
    &&& forall|i: int| 0 <= i < answers.len() - 1 ==> !is_instance(#[trigger] answers[i])
    &&& if is_instance(answers.last()) {
        r == answers.last()
    } else {
        answers.len() == urls.len() && r is None
    }
}

/// Download the XBRL instance of a filing: the first candidate that can be
/// fetched and looks like XBRL. A filing without XBRL data has none, and
/// nothing is fetched for it.
pub fn download_xbrl_instance<F>(filing: &Filing, fetch: F) -> (r: Option<String>) where
    F: Fn(&str) -> Option<String>,
    requires
        forall|url: &str| fetch.requires((url,)),
    ensures
        !filing@.is_xbrl ==> r is None,
        filing@.is_xbrl ==> exists|answers: Seq<Option<String>>|
            is_instance_search(fetch, candidate_urls(filing@), answers, r),
        r matches Some(content) ==> looks_like_xbrl(content@),
{
    if !filing.is_xbrl {
        return None;
    }
    let candidates = instance_candidates(filing);
    let ghost urls = candidate_urls(filing@);
    let ghost mut answers: Seq<Option<String>> = Seq::empty();
    let mut i: usize = 0;
    assert(names_view(candidates@).len() == candidates@.len());
    while i < candidates.len()
        invariant
            i <= candidates.len(),
            candidates@.len() == 3,
            filing@.is_xbrl,
            urls == candidate_urls(filing@),
            names_view(candidates@) == urls,
            forall|url: &str| fetch.requires((url,)),
            answers.len() == i,
            forall|j: int| 0 <= j < i ==> fetched(fetch, urls[j], #[trigger] answers[j]),
            forall|j: int| 0 <= j < i ==> !is_instance(#[trigger] answers[j]),
        decreases candidates.len() - i,
    {
        let url: &str = candidates[i].as_str();
        let answer = fetch(url);
        let ghost earlier = answers;
        proof {
            assert(url@ == names_view(candidates@)[i as int]);
            assert(fetch.ensures((url,), answer));
            assert(fetched(fetch, urls[i as int], answer));
            answers = earlier.push(answer);
            assert forall|j: int| 0 <= j < i + 1 implies fetched(
                fetch,
                urls[j],
                #[trigger] answers[j],
            ) by {
                if j < i {
                    assert(answers[j] == earlier[j]);
                }
            }
            assert forall|j: int| 0 <= j < i implies !is_instance(#[trigger] answers[j]) by {
                assert(answers[j] == earlier[j]);
            }
        }
        match answer {
            Some(content) => {
                if is_xbrl_content(content.as_str()) {
                    assert(is_instance_search(fetch, urls, answers, Some(content)));
                    return Some(content);
                }
            },
            None => {},
        }
        i += 1;
    }
    assert(is_instance_search(fetch, urls, answers, None));
    None
}

/// The files that were fetched, each with its name, in order: `answers[i]`
/// is what was fetched for `names[i]`, and a name without an answer is left
/// out.
pub open spec fn kept(names: Seq<Seq<char>>, answers: Seq<Option<String>>) -> Seq<
    (Seq<char>, Seq<char>),
>
    decreases answers.len(),
{
    if answers.len() == 0 || names.len() < answers.len() {
        Seq::empty()
    } else {
        match answers.last() {
            Some(content) => kept(names, answers.drop_last()).push(
                (names[answers.len() - 1], content@),
            ),
            None => kept(names, answers.drop_last()),
        }
    }
}

/// The names of the files of an XBRL package that are tried where there is
/// no filing summary: the accession number without dashes, followed by each
/// of the usual suffixes.
pub open spec fn fallback_names(accession: Seq<char>) -> Seq<Seq<char>> {
    Seq::new(package_suffixes().len(), |i: int| accession + package_suffixes()[i])
}

/// The names and contents of a list of files.
pub open spec fn file_views(files: Seq<(String, String)>) -> Seq<(Seq<char>, Seq<char>)> {
    Seq::new(files.len(), |i: int| (files[i].0@, files[i].1@))
}

/// Whether `r` is the XBRL package of the filing `f`, where `summary` is
/// what `fetch` gave for the filing summary and `answers` is what it gave
/// for each file that was asked for then. With a summary, the files that it
/// lists are asked for, and the package is the summary followed by the files
/// that were fetched. Without one, the files with the usual names are asked
/// for, and the package is the files that were fetched, or none where
/// nothing was.
pub open spec fn is_package<F: Fn(&str) -> Option<String>>(
    fetch: F,
    f: FilingView,
    summary: Option<String>,
    answers: Seq<Option<String>>,
    r: Option<Vec<(String, String)>>,
) -> bool {
    &&& fetched(fetch, filing_base_url(f) + FILING_SUMMARY@, summary)
    &&& answers.len() == package_names(f, summary).len()
    &&& forall|i: int|
        0 <= i < answers.len() ==> fetched(
            fetch,
            filing_base_url(f) + package_names(f, summary)[i],
            #[trigger] answers[i],
        )
    &&& match summary {
        Some(text) => r matches Some(files) && file_views(files@) == seq![
            (FILING_SUMMARY@, text@),
        ] + kept(package_names(f, summary), answers),
        None => if kept(package_names(f, summary), answers).len() == 0 {
            r is None
        } else {
            r matches Some(files) && file_views(files@) == kept(package_names(f, summary), answers)
        },
    }
}

/// The names of the files of a package that are asked for after the filing
/// summary: the files that the summary lists, or the usual names where
/// there is no summary.
pub open spec fn package_names(f: FilingView, summary: Option<String>) -> Seq<Seq<char>> {
    match summary {
        Some(text) => listed_in(lines(text@)),
        None => fallback_names(without(f.accession_number, '-')),
    }
}

/// Download every file of the XBRL package of a filing, each with its name.
/// The filing summary and the files that it lists are fetched; where not
/// even the summary is there, the files with the usual suffixes are tried.
/// A filing without XBRL data has no package, and nothing is fetched for
/// it; nor has one of which no file can be fetched.
pub fn download_xbrl_package<F>(filing: &Filing, fetch: F) -> (r: Option<
    Vec<(String, String)>,
>) where F: Fn(&str) -> Option<String>
    requires
        forall|url: &str| fetch.requires((url,)),
    ensures
        !filing@.is_xbrl ==> r is None,
        filing@.is_xbrl ==> exists|summary: Option<String>, answers: Seq<Option<String>>|
            is_package(fetch, filing@, summary, answers, r),
        r matches Some(files) ==> files@.len() > 0,
{
    if !filing.is_xbrl {
        return None;
    }
    let base = filing.base_url();
    let acc = string_of(&remove_char(&chars_of(filing.accession_number.as_str()), '-'));
    let mut files: Vec<(String, String)> = Vec::new();
    let mut summary_url = base.clone();
    summary_url.append(FILING_SUMMARY);
    let ghost mut answers: Seq<Option<String>> = Seq::empty();
    let first_url: &str = summary_url.as_str();
    let first = fetch(first_url);
    let ghost summary = first;
    proof {
        assert(fetch.ensures((first_url,), first));
        assert(fetched(fetch, filing_base_url(filing@) + FILING_SUMMARY@, summary));
    }
    match first {
        Some(text) => {
            let names = listed_files(text.as_str());
            let ghost listed = listed_in(lines(text@));
            let ghost head = seq![(FILING_SUMMARY@, text@)];
            files.push((String::from_str(FILING_SUMMARY), text));
            assert(file_views(files@) =~= head + kept(listed, answers));
            assert(names_view(names@).len() == names@.len());
            let mut i: usize = 0;
            while i < names.len()
                invariant
                    i <= names.len(),
                    base@ == filing_base_url(filing@),
                    names_view(names@) == listed,
                    forall|url: &str| fetch.requires((url,)),
                    answers.len() == i,
                    forall|j: int|
                        0 <= j < i ==> fetched(
                            fetch,
                            filing_base_url(filing@) + listed[j],
                            #[trigger] answers[j],
                        ),
                    file_views(files@) == head + kept(listed, answers),
                decreases names.len() - i,
            {
                let mut url = base.clone();
                url.append(names[i].as_str());
                let file_url: &str = url.as_str();
                let answer = fetch(file_url);
                let ghost earlier = answers;
                let ghost held = file_views(files@);
                proof {
                    assert(names_view(names@)[i as int] == names@[i as int]@);
                    assert(fetch.ensures((file_url,), answer));
                    assert(fetched(fetch, filing_base_url(filing@) + listed[i as int], answer));
                    answers = earlier.push(answer);
                    assert(answers.drop_last() == earlier);
                    assert forall|j: int| 0 <= j < i + 1 implies fetched(
                        fetch,
                        filing_base_url(filing@) + listed[j],
                        #[trigger] answers[j],
                    ) by {
                        if j < i {
                            assert(answers[j] == earlier[j]);
                        }
                    }
                }
                match answer {
                    Some(content) => {
                        let ghost pair = (names@[i as int]@, content@);
                        files.push((names[i].clone(), content));
                        assert(file_views(files@) =~= held.push(pair));
                        assert(held.push(pair) =~= head + kept(listed, earlier).push(pair));
                    },
                    None => {},
                }
                i += 1;
            }
            let r = Some(files);
            assert(is_package(fetch, filing@, summary, answers, r));
            return r;
        },
        None => {},
    }
    let suffixes = package_suffix_list();
    let ghost usual = fallback_names(without(filing@.accession_number, '-'));
    assert(file_views(files@) =~= kept(usual, answers));
    let mut k: usize = 0;
    while k < suffixes.len()
        invariant
            k <= suffixes.len(),
            base@ == filing_base_url(filing@),
            acc@ == without(filing@.accession_number, '-'),
            usual == fallback_names(without(filing@.accession_number, '-')),
            suffixes@.len() == package_suffixes().len(),
            forall|j: int| 0 <= j < suffixes@.len() ==> (#[trigger] suffixes@[j])@ == package_suffixes()[j],
            forall|url: &str| fetch.requires((url,)),
            answers.len() == k,
            forall|j: int|
                0 <= j < k ==> fetched(
                    fetch,
                    filing_base_url(filing@) + usual[j],
                    #[trigger] answers[j],
                ),
            file_views(files@) == kept(usual, answers),
        decreases suffixes.len() - k,
    {
        let mut name = acc.clone();
        name.append(suffixes[k]);
        let mut url = base.clone();
        url.append(name.as_str());
        let file_url: &str = url.as_str();
        let answer = fetch(file_url);
        let ghost earlier = answers;
        let ghost held = file_views(files@);
        proof {
            assert(name@ == usual[k as int]);
            assert(fetch.ensures((file_url,), answer));
            assert(fetched(fetch, filing_base_url(filing@) + usual[k as int], answer));
            answers = earlier.push(answer);
            assert(answers.drop_last() == earlier);
            assert forall|j: int| 0 <= j < k + 1 implies fetched(
                fetch,
                filing_base_url(filing@) + usual[j],
                #[trigger] answers[j],
            ) by {
                if j < k {
                    assert(answers[j] == earlier[j]);
                }
            }
        }
        match answer {
            Some(content) => {
                let ghost pair = (name@, content@);
                files.push((name, content));
                assert(file_views(files@) =~= held.push(pair));
            },
            None => {},
        }
        k += 1;
    }
    assert(file_views(files@).len() == files@.len());
    if files.len() == 0 {
        assert(is_package(fetch, filing@, summary, answers, None));
        None
    } else {
        let r = Some(files);
        assert(is_package(fetch, filing@, summary, answers, r));
        r
    }
}

} // verus!
