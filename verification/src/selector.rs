//! Compiling a structural query (a CSS-style selector) into a shareable
//! matcher.
//!
//! The query language itself is an external capability: the engine treats a
//! compiled selector as an opaque matcher over a parsed document tree.
//! Whether a query string compiles, and what a given matcher extracts, are
//! functions of the strings alone, and the contracts here speak of them
//! through the names `selector_valid` and `extraction_of`.

use vstd::prelude::*;

use crate::error::ScrapeError;

verus! {

/// The selector type of the external query engine, opaque to the proofs here.
#[verifier::external_type_specification]
#[verifier::external_body]
pub struct ExSelector(scraper::Selector);

/// Whether `scraper::Selector::parse` accepts the query string; a function of
/// the string alone.
pub uninterp spec fn selector_valid(query: Seq<char>) -> bool;

/// The fragments that extraction yields for a document and a query: the text
/// content of each node the compiled query selects, in document order. A
/// function of the document bytes and the query string alone.
pub uninterp spec fn extraction_of(body: Seq<u8>, query: Seq<char>) -> Seq<Seq<char>>;

/// Relies on scraper::Selector::parse: it accepts or rejects a selector group
/// string depending on the string alone.
#[verifier::external_body]
fn parse_selector_raw(query: &str) -> (r: Option<scraper::Selector>)
    ensures
        r is Some <==> selector_valid(query@),
{
    scraper::Selector::parse(query).ok()
}

/// Relies on scraper::Html::parse_document and scraper's selector matching:
/// parsing is tolerant (it never fails; malformed markup yields a best-effort
/// tree), matching walks the tree in document order, and the extracted text
/// is a function of the document bytes and the selector source alone. The
/// `sel` field of a `CompiledMatcher` is always the compiled form of its
/// `source` field: `CompiledMatcher::compile` is the sole constructor.
#[verifier::external_body]
fn extract_raw(body: &[u8], matcher: &CompiledMatcher) -> (r: Vec<String>)
    ensures
        r.deep_view() == extraction_of(body@, matcher.query()),
{
    let text = String::from_utf8_lossy(body);
    let document = scraper::Html::parse_document(&text);
    document
        .select(&matcher.sel)
        .map(|element| element.text().collect::<String>())
        .collect()
}

/// An immutable matcher compiled once per batch from the selector string and
/// then shared by reference across all of the batch's concurrent tasks.
pub struct CompiledMatcher {
    sel: scraper::Selector,
    source: String,
}

impl CompiledMatcher {
    /// The query string this matcher was compiled from.
    pub closed spec fn query(self) -> Seq<char> {
        self.source@
    }

    /// Compile the selector string. A malformed query is rejected here, as
    /// `MalformedQuery`, before any network activity can start.
    pub fn compile(query: &str) -> (r: Result<CompiledMatcher, ScrapeError>)
        ensures
            r is Ok <==> selector_valid(query@),
            r matches Ok(m) ==> m.query() == query@,
            r is Err ==> r == Err::<CompiledMatcher, ScrapeError>(ScrapeError::MalformedQuery),
    {
        match parse_selector_raw(query) {
            Some(sel) => Ok(CompiledMatcher { sel, source: String::from_str(query) }),
            None => Err(ScrapeError::MalformedQuery),
        }
    }
}

/// Extract the matched fragments from a document body: the text content of
/// each selected node, in document order. Parsing is tolerant, so extraction
/// is total: malformed markup yields a (possibly empty) fragment list, never
/// an error.
pub fn extract(body: &[u8], matcher: &CompiledMatcher) -> (r: Vec<String>)
    ensures
        r.deep_view() == extraction_of(body@, matcher.query()),
{
    extract_raw(body, matcher)
}

/// Extraction is idempotent: any two extractions from identical bytes with
/// the same query yield identical fragment sequences.
pub proof fn lemma_extraction_idempotent(
    r1: Seq<Seq<char>>,
    r2: Seq<Seq<char>>,
    body: Seq<u8>,
    query: Seq<char>,
)
    requires
        r1 == extraction_of(body, query),
        r2 == extraction_of(body, query),
    ensures
        r1 == r2,
{
}

} // verus!
