//! What the book reader decides about a package document: its title, the
//! id under which the application keeps the book's highlights, and the
//! document that carries a new id. Opening the book and writing it back are
//! the caller's part.

use crate::functions::{decimal, decimal_string};
use crate::time::{millis_of, now, Moment, NANOS_PER_MILLI};
use regex::Regex;
use vstd::prelude::*;

verus! {

/// What group 1 of the first match of the regular expression `pattern` in
/// `text` holds, as the `regex` crate finds it; nothing where the pattern is
/// not well formed, where it matches nowhere, or where group 1 has no part
/// in the match.
pub uninterp spec fn regex_first_group(pattern: Seq<char>, text: Seq<char>) -> Option<Seq<char>>;

/// `regex::Regex::new`, then `Regex::captures` and `Captures::get(1)`: the
/// text of group 1 in the leftmost match. The contract gives that result its
/// name and claims no more of it.
#[verifier::external_body]
fn first_group(pattern: &str, text: &str) -> (r: Option<String>)
    ensures
        r is Some <==> regex_first_group(pattern@, text@) is Some,
        r is Some ==> r->0@ == regex_first_group(pattern@, text@)->0,
{
    match Regex::new(pattern) {
        Ok(re) => match re.captures(text) {
            Some(found) => match found.get(1) {
                Some(group) => Some(group.as_str().to_string()),
                None => None,
            },
            None => None,
        },
        Err(_) => None,
    }
}

/// `text` with every occurrence of `from` replaced by `to`. Occurrences are
/// taken from the left and do not overlap.
pub open spec fn replaced(text: Seq<char>, from: Seq<char>, to: Seq<char>) -> Seq<char>
    decreases text.len(),
{
    if from.len() == 0 || text.len() < from.len() {
        text
    } else if text.take(from.len() as int) == from {
        to + replaced(text.skip(from.len() as int), from, to)
    } else {
        seq![text[0]] + replaced(text.skip(1), from, to)
    }
}

/// `str::replace` with a pattern that is not empty: all matches of the
/// pattern, which are found from the left and do not overlap, are replaced.
#[verifier::external_body]
fn replace_all(text: &str, from: &str, to: &str) -> (r: String)
    requires
        from@.len() > 0,
    ensures
        r@ == replaced(text@, from@, to@),
{
    text.replace(from, to)
}

/// The pattern that finds the title of a package document.
pub open spec fn title_pattern() -> Seq<char> {
    "<dc:title>(.*?)</dc:title>"@
}

/// The pattern that finds the application's id in a package document.
pub open spec fn uid_pattern() -> Seq<char> {
    "<meta\\s+name=\"hub.students.adnarayan\"\\s+content=\"([^\"]*)\"\\s*/?>"@
}

/// The element that carries the id `uid`.
pub open spec fn uid_element(uid: Seq<char>) -> Seq<char> {
    "<meta name=\"hub.students.adnarayan\" content=\""@ + uid + "\"/>"@
}

/// The title of the package document `opf_data`: what stands in its first
/// title element.
pub fn extract_title(opf_data: &str) -> (r: Option<String>)
    ensures
        r is Some <==> regex_first_group(title_pattern(), opf_data@) is Some,
        r is Some ==> r->0@ == regex_first_group(title_pattern(), opf_data@)->0,
{
    first_group("<dc:title>(.*?)</dc:title>", opf_data)
}

/// The id that the application once wrote into the package document
/// `opf_data`, if it did.
pub fn extract_uid(opf_data: &str) -> (r: Option<String>)
    ensures
        r is Some <==> regex_first_group(uid_pattern(), opf_data@) is Some,
        r is Some ==> r->0@ == regex_first_group(uid_pattern(), opf_data@)->0,
{
    first_group(
        "<meta\\s+name=\"hub.students.adnarayan\"\\s+content=\"([^\"]*)\"\\s*/?>",
        opf_data,
    )
}

/// The id for a book first opened at `now`: the whole milliseconds of `now`
/// in decimal.
pub fn uid_at(now: Moment) -> (r: String)
    ensures
        r@ == decimal(millis_of(now@)),
{
    decimal_string(now.nanos / NANOS_PER_MILLI)
}

/// A new id, made of what the system clock gives.
pub fn generate_uid() -> (r: String)
    ensures
        exists|now: nat| r@ == #[trigger] decimal(millis_of(now)),
{
    let at = now();
    let r = uid_at(at);
    assert(r@ == decimal(millis_of(at@)));
    r
}

/// The package document `opf_data` with the element that carries `uid`
/// put in front of every end of the metadata.
pub fn update_opf_with_uid(opf_data: &str, uid: &str) -> (r: String)
    ensures
        r@ == replaced(opf_data@, "</metadata>"@, uid_element(uid@) + "</metadata>"@),
{
    let mut element = String::from_str("<meta name=\"hub.students.adnarayan\" content=\"");
    element.append(uid);
    element.append("\"/>");
    element.append("</metadata>");
    proof {
        reveal_strlit("</metadata>");
    }
    replace_all(opf_data, "</metadata>", element.as_str())
}

/// What the reader needs of a book.
#[derive(Debug)]
pub struct BookDetails {
    /// The id under which the book's highlights are kept.
    pub uid: String,
    /// The book's title; empty where the document names none.
    pub title: String,
    /// The package document to write back into the book, where the id is new.
    pub updated_opf: Option<String>,
}

/// Whether `d` is what `book_details` gives for `opf` at `now`.
pub open spec fn is_book_details(d: BookDetails, opf: Seq<char>, now: nat) -> bool {
    &&& d.title@ == (match regex_first_group(title_pattern(), opf) {
        Some(title) => title,
        None => Seq::<char>::empty(),
    })
    &&& match regex_first_group(uid_pattern(), opf) {
        Some(uid) => d.uid@ == uid && d.updated_opf is None,
        None => {
            &&& d.uid@ == decimal(millis_of(now))
            &&& d.updated_opf is Some
            &&& d.updated_opf->0@ == replaced(
                opf,
                "</metadata>"@,
                uid_element(d.uid@) + "</metadata>"@,
            )
        },
    }
}

/// The title and the id of the book whose package document is `opf_data`.
/// A book without an id gets the one that `now` gives, and with it the
/// document to write back.
pub fn book_details(opf_data: &str, now: Moment) -> (r: BookDetails)
    ensures
        is_book_details(r, opf_data@, now@),
{
    let title = match extract_title(opf_data) {
        Some(title) => title,
        None => String::new(),
    };
    match extract_uid(opf_data) {
        Some(uid) => BookDetails { uid, title, updated_opf: None },
        None => {
            let uid = uid_at(now);
            let updated = update_opf_with_uid(opf_data, uid.as_str());
            BookDetails { uid, title, updated_opf: Some(updated) }
        },
    }
}

} // verus!
