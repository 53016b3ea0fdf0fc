//! Fetching a page and reading the links off it.
//!
//! The transport is not part of this library: a `CrawlClient` stands for
//! it. What the library does itself is to turn an answer, once it is there,
//! into the `href`s of its anchors.

use crate::client::error::CrawlClientError;
use crate::text::{lemma_texts_push, option_text, texts};
use vstd::prelude::*;
use vstd::utf8::{decode_utf8, valid_utf8};

verus! {

/// Fetches a page and returns the raw `href` of each of its anchors, in the
/// order of the document. What comes back is up to the implementation; the
/// library is verified for every answer.
pub trait CrawlClient: Sync + Send {
    fn crawl_and_fetch_links(&self, link: &str) -> Result<Vec<String>, CrawlClientError>;
}

/// Whether an HTTP status code reports success: 200 to 299.
pub open spec fn is_success(status: u16) -> bool {
    200 <= status < 300
}

/// The views of a sequence of optional strings, in the same order.
pub open spec fn option_texts(values: Seq<Option<String>>) -> Seq<Option<Seq<char>>> {
    Seq::new(values.len(), |i: int| option_text(values[i]))
}

/// The values that are there, in order.
pub open spec fn present_of(values: Seq<Option<Seq<char>>>) -> Seq<Seq<char>>
    decreases values.len(),
{
    if values.len() == 0 {
        Seq::empty()
    } else {
        let earlier = present_of(values.drop_last());
        match values.last() {
            Some(value) => earlier.push(value),
            None => earlier,
        }
    }
}

/// For each `a` element of the HTML document `body`, in document order, its
/// `href` attribute, where it has one: what the `select` crate finds.
pub uninterp spec fn anchor_hrefs(body: Seq<char>) -> Seq<Option<Seq<char>>>;

/// The links of a page with the text `body`: the `href`s of its anchors, in
/// document order; an anchor without one is passed over.
pub open spec fn page_links(body: Seq<char>) -> Seq<Seq<char>> {
    present_of(anchor_hrefs(body))
}

/// The links of an answer with the given status and body, or the error that
/// the answer amounts to.
pub open spec fn response_links(status: u16, body: Seq<u8>) -> Result<
    Seq<Seq<char>>,
    CrawlClientError,
> {
    if !is_success(status) {
        Err(CrawlClientError::ConnectionError)
    } else if !valid_utf8(body) {
        Err(CrawlClientError::EncodingError)
    } else {
        Ok(page_links(decode_utf8(body)))
    }
}

/// Calls `select::document::Document::from` on `body`, then `find` with the
/// predicate `Name("a")`, and `attr("href")` on each node found.
///
/// Trusted: the result is a function of `body` alone, named `anchor_hrefs`.
/// The parser builds the whole tree before anything is found, and walks it
/// by recursion: a document nested deeply enough exhausts the stack.
#[verifier::external_body]
pub(crate) fn anchor_href_attributes(body: &str) -> (hrefs: Vec<Option<String>>)
    ensures
        option_texts(hrefs@) == anchor_hrefs(body@),
{
    select::document::Document::from(body).find(select::predicate::Name("a")).map(
        |anchor| anchor.attr("href").map(|href| href.to_string()),
    ).collect()
}

/// Calls `String::from_utf8`.
///
/// Trusted: the result is there exactly if the bytes are valid UTF-8, and
/// then it is the text that they encode.
#[verifier::external_body]
pub(crate) fn utf8_text(bytes: Vec<u8>) -> (text: Option<String>)
    ensures
        text is Some <==> valid_utf8(bytes@),
        text is Some ==> text->Some_0@ == decode_utf8(bytes@),
{
    match String::from_utf8(bytes) {
        Ok(text) => Some(text),
        Err(_) => None,
    }
}

/// Whether an HTTP status code reports success.
pub fn status_is_success(status: u16) -> (success: bool)
    ensures
        success == is_success(status),
{
    200 <= status && status < 300
}

/// The values of `attributes` that are there, in order.
pub fn present_hrefs(attributes: Vec<Option<String>>) -> (links: Vec<String>)
    ensures
        texts(links@) == present_of(option_texts(attributes@)),
{
    let mut links: Vec<String> = Vec::new();
    let mut i: usize = 0;
    assert(option_texts(attributes@).take(0) =~= Seq::<Option<Seq<char>>>::empty());
    assert(texts(links@) =~= Seq::<Seq<char>>::empty());
    while i < attributes.len()
        invariant
            i <= attributes@.len(),
            texts(links@) == present_of(option_texts(attributes@).take(i as int)),
        decreases attributes@.len() - i,
    {
        assert(option_texts(attributes@).take(i as int + 1).drop_last() =~= option_texts(
            attributes@,
        ).take(i as int));
        match &attributes[i] {
            Some(href) => {
                let link = href.clone();
                proof {
                    lemma_texts_push(links@, link);
                }
                links.push(link);
            },
            None => {},
        }
        i += 1;
    }
    assert(option_texts(attributes@).take(attributes@.len() as int) =~= option_texts(
        attributes@,
    ));
    links
}

/// The links of a page with the text `body`.
pub fn extract_links(body: &str) -> (links: Vec<String>)
    ensures
        texts(links@) == page_links(body@),
{
    present_hrefs(anchor_href_attributes(body))
}

/// What a client makes of an answer: a status other than success is a
/// `ConnectionError`, a body that is not UTF-8 an `EncodingError`, and
/// otherwise the result is the links of the page.
pub fn links_of_response(status: u16, body: Vec<u8>) -> (links: Result<
    Vec<String>,
    CrawlClientError,
>)
    ensures
        match links {
            Ok(found) => response_links(status, body@) == Ok::<_, CrawlClientError>(
                texts(found@),
            ),
            Err(error) => response_links(status, body@) == Err::<Seq<Seq<char>>, _>(error),
        },
{
    if !status_is_success(status) {
        return Err(CrawlClientError::ConnectionError);
    }
    match utf8_text(body) {
        None => Err(CrawlClientError::EncodingError),
        Some(text) => Ok(extract_links(text.as_str())),
    }
}

} // verus!
