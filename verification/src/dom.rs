//! Access to the HTML document tree. The scraper crate parses the text into
//! an opaque tree; parsing is total and deterministic, and the queries made
//! here are fixed, so everything the extractor reads is a function of the
//! text alone. Those readings are given names: `rows_of` and `msg_spans_of`
//! stand for what the fixed queries yield on a given text, and each trusted
//! reader below states its result over them. The readers only navigate and
//! convert; every rule of the extraction — which rows count, how cells are
//! interpreted — stays in verified code.
//!
//! Each reader's selector literals are fixed and valid, so the selector
//! parses inside the trusted bodies cannot fail.
use vstd::prelude::*;

use crate::extract::{RawCell, RawRow, RawRowV, spec_body_rows, spec_msg_text};
use crate::text::{join_with, view_opt};

verus! {

#[verifier::external_type_specification]
#[verifier::external_body]
pub struct ExHtml(scraper::Html);

/// The rows of the first result table of a document, header included, each
/// as the plain values the extractor reads: the row's id attribute, its
/// text fragments, and for every data cell the first child element's
/// `title` attribute, the cell's text fragments, and the text fragments of
/// its first `span`. Empty when the document has no result table.
pub uninterp spec fn doc_rows(doc: scraper::Html) -> Seq<RawRowV>;

/// The text fragments of each `span` under the first pagination-message
/// element of a document; empty when the document has none.
pub uninterp spec fn doc_msg_spans(doc: scraper::Html) -> Seq<Seq<Seq<char>>>;

/// What `doc_rows` yields on the document parsed from a text.
pub uninterp spec fn rows_of(html: Seq<char>) -> Seq<RawRowV>;

/// What `doc_msg_spans` yields on the document parsed from a text.
pub uninterp spec fn msg_spans_of(html: Seq<char>) -> Seq<Seq<Seq<char>>>;

/// Relies on scraper's `Html::parse_document`: parsing never fails —
/// malformed input yields a best-effort tree — and is deterministic, so
/// what the fixed queries read from the tree is a function of the text
/// alone.
#[verifier::external_body]
fn parse_document(html: &str) -> (doc: scraper::Html)
    ensures
        doc_rows(doc) == rows_of(html@),
        doc_msg_spans(doc) == msg_spans_of(html@),
{
    scraper::Html::parse_document(html)
}

/// Relies on scraper's `Selector::parse`, `Html::select` and
/// `ElementRef::select`: how many rows the first result table has.
#[verifier::external_body]
fn row_count(doc: &scraper::Html) -> (r: usize)
    ensures
        r == doc_rows(*doc).len(),
{
    let table = scraper::Selector::parse("table#search_results").unwrap();
    let tr = scraper::Selector::parse("tr").unwrap();
    doc.select(&table).next().map(|t| t.select(&tr).count()).unwrap_or(0)
}

/// Relies on scraper's select iterators and `ElementRef::attr`: the `id`
/// attribute of one row of the result table.
#[verifier::external_body]
fn row_id_attr(doc: &scraper::Html, i: usize) -> (r: Option<String>)
    requires
        i < doc_rows(*doc).len(),
    ensures
        view_opt(r) == doc_rows(*doc)[i as int].id_attr,
{
    let table = scraper::Selector::parse("table#search_results").unwrap();
    let tr = scraper::Selector::parse("tr").unwrap();
    doc.select(&table)
        .next()
        .and_then(|t| t.select(&tr).nth(i))
        .and_then(|row| row.attr("id"))
        .map(str::to_string)
}

/// Relies on scraper's select iterators and `ElementRef::text`: the text
/// fragments of one row of the result table, in document order.
#[verifier::external_body]
fn row_texts(doc: &scraper::Html, i: usize) -> (r: Vec<String>)
    requires
        i < doc_rows(*doc).len(),
    ensures
        r.deep_view() == doc_rows(*doc)[i as int].texts,
{
    let table = scraper::Selector::parse("table#search_results").unwrap();
    let tr = scraper::Selector::parse("tr").unwrap();
    doc.select(&table)
        .next()
        .and_then(|t| t.select(&tr).nth(i))
        .map(|row| row.text().map(str::to_string).collect())
        .unwrap_or_default()
}

/// Relies on scraper's select iterators: how many data cells one row of the
/// result table has.
#[verifier::external_body]
fn cell_count(doc: &scraper::Html, i: usize) -> (r: usize)
    requires
        i < doc_rows(*doc).len(),
    ensures
        r == doc_rows(*doc)[i as int].cells.len(),
{
    let table = scraper::Selector::parse("table#search_results").unwrap();
    let tr = scraper::Selector::parse("tr").unwrap();
    let td = scraper::Selector::parse("td").unwrap();
    doc.select(&table)
        .next()
        .and_then(|t| t.select(&tr).nth(i))
        .map(|row| row.select(&td).count())
        .unwrap_or(0)
}

/// Relies on scraper's select iterators, ego-tree's `NodeRef::first_child`,
/// and scraper's `Node::as_element` and `Element::attr`: the `title`
/// attribute of the first child of one data cell, when that child is an
/// element carrying one.
#[verifier::external_body]
fn cell_title(doc: &scraper::Html, i: usize, j: usize) -> (r: Option<String>)
    requires
        i < doc_rows(*doc).len(),
        j < doc_rows(*doc)[i as int].cells.len(),
    ensures
        view_opt(r) == doc_rows(*doc)[i as int].cells[j as int].first_child_title,
{
    let table = scraper::Selector::parse("table#search_results").unwrap();
    let tr = scraper::Selector::parse("tr").unwrap();
    let td = scraper::Selector::parse("td").unwrap();
    doc.select(&table)
        .next()
        .and_then(|t| t.select(&tr).nth(i))
        .and_then(|row| row.select(&td).nth(j))
        .and_then(|c| c.first_child())
        .and_then(|n| n.value().as_element())
        .and_then(|e| e.attr("title"))
        .map(str::to_string)
}

/// Relies on scraper's select iterators and `ElementRef::text`: the text
/// fragments of one data cell, in document order.
#[verifier::external_body]
fn cell_texts(doc: &scraper::Html, i: usize, j: usize) -> (r: Vec<String>)
    requires
        i < doc_rows(*doc).len(),
        j < doc_rows(*doc)[i as int].cells.len(),
    ensures
        r.deep_view() == doc_rows(*doc)[i as int].cells[j as int].texts,
{
    let table = scraper::Selector::parse("table#search_results").unwrap();
    let tr = scraper::Selector::parse("tr").unwrap();
    let td = scraper::Selector::parse("td").unwrap();
    doc.select(&table)
        .next()
        .and_then(|t| t.select(&tr).nth(i))
        .and_then(|row| row.select(&td).nth(j))
        .map(|c| c.text().map(str::to_string).collect())
        .unwrap_or_default()
}

/// Relies on scraper's select iterators and `ElementRef::text`: the text
/// fragments of the first `span` of one data cell, when the cell has one.
#[verifier::external_body]
fn cell_span_texts(doc: &scraper::Html, i: usize, j: usize) -> (r: Option<Vec<String>>)
    requires
        i < doc_rows(*doc).len(),
        j < doc_rows(*doc)[i as int].cells.len(),
    ensures
        (match r {
            Some(v) => Some(v.deep_view()),
            None => None,
        }) == doc_rows(*doc)[i as int].cells[j as int].first_span_texts,
{
    let table = scraper::Selector::parse("table#search_results").unwrap();
    let tr = scraper::Selector::parse("tr").unwrap();
    let td = scraper::Selector::parse("td").unwrap();
    let span = scraper::Selector::parse("span").unwrap();
    doc.select(&table)
        .next()
        .and_then(|t| t.select(&tr).nth(i))
        .and_then(|row| row.select(&td).nth(j))
        .and_then(|c| c.select(&span).next())
        .map(|s| s.text().map(str::to_string).collect())
}

/// Relies on scraper's select iterators: how many `span` elements stand
/// under the first pagination-message element.
#[verifier::external_body]
fn msg_span_count(doc: &scraper::Html) -> (r: usize)
    ensures
        r == doc_msg_spans(*doc).len(),
{
    let msg = scraper::Selector::parse("div#msg").unwrap();
    let span = scraper::Selector::parse("span").unwrap();
    doc.select(&msg).next().map(|m| m.select(&span).count()).unwrap_or(0)
}

/// Relies on scraper's select iterators and `ElementRef::text`: the text
/// fragments of one `span` under the first pagination-message element.
#[verifier::external_body]
fn msg_span_texts(doc: &scraper::Html, k: usize) -> (r: Vec<String>)
    requires
        k < doc_msg_spans(*doc).len(),
    ensures
        r.deep_view() == doc_msg_spans(*doc)[k as int],
{
    let msg = scraper::Selector::parse("div#msg").unwrap();
    let span = scraper::Selector::parse("span").unwrap();
    doc.select(&msg)
        .next()
        .and_then(|m| m.select(&span).nth(k))
        .map(|s| s.text().map(str::to_string).collect())
        .unwrap_or_default()
}

/// A parsed result page.
pub struct PageDoc {
    doc: scraper::Html,
}

impl PageDoc {
    /// The rows of the document's result table, as named by `doc_rows`.
    pub closed spec fn rows(self) -> Seq<RawRowV> {
        doc_rows(self.doc)
    }

    /// The pagination spans of the document, as named by `doc_msg_spans`.
    pub closed spec fn msg_spans(self) -> Seq<Seq<Seq<char>>> {
        doc_msg_spans(self.doc)
    }

    /// Parse a result page.
    pub fn parse(html: &str) -> (r: PageDoc)
        ensures
            r.rows() == rows_of(html@),
            r.msg_spans() == msg_spans_of(html@),
    {
        PageDoc { doc: parse_document(html) }
    }

    fn read_row(&self, i: usize) -> (r: RawRow)
        requires
            i < self.rows().len(),
        ensures
            r@ == self.rows()[i as int],
    {
        let id_attr = row_id_attr(&self.doc, i);
        let texts = row_texts(&self.doc, i);
        let m = cell_count(&self.doc, i);
        let mut cells: Vec<RawCell> = Vec::new();
        let mut j: usize = 0;
        while j < m
            invariant
                j <= m,
                i < self.rows().len(),
                m == self.rows()[i as int].cells.len(),
                self.rows() == doc_rows(self.doc),
                cells.deep_view() == self.rows()[i as int].cells.take(j as int),
            decreases m - j,
        {
            let c = RawCell {
                first_child_title: cell_title(&self.doc, i, j),
                texts: cell_texts(&self.doc, i, j),
                first_span_texts: cell_span_texts(&self.doc, i, j),
            };
            proof {
                assert(c@ =~= self.rows()[i as int].cells[j as int]);
            }
            let ghost prev = cells.deep_view();
            cells.push(c);
            proof {
                assert(cells.deep_view() =~= prev.push(c@));
                assert(self.rows()[i as int].cells.take(j + 1) =~= self.rows()[
                    i as int
                ].cells.take(j as int).push(self.rows()[i as int].cells[j as int]));
            }
            j += 1;
        }
        proof {
            assert(self.rows()[i as int].cells.take(m as int) =~= self.rows()[i as int].cells);
        }
        let r = RawRow { id_attr, texts, cells };
        proof {
            assert(r@ =~= self.rows()[i as int]);
        }
        r
    }

    /// The raw data rows of the document's result table, header row
    /// skipped; empty when the page has no result table.
    pub fn read_body_rows(&self) -> (r: Vec<RawRow>)
        ensures
            r.deep_view() == spec_body_rows(self.rows()),
    {
        let n = row_count(&self.doc);
        let mut rows: Vec<RawRow> = Vec::new();
        if n == 0 {
            proof {
                assert(rows.deep_view() =~= spec_body_rows(self.rows()));
            }
            return rows;
        }
        let mut i: usize = 1;
        while i < n
            invariant
                1 <= i <= n,
                n == self.rows().len(),
                self.rows() == doc_rows(self.doc),
                rows.deep_view() == self.rows().subrange(1, i as int),
            decreases n - i,
        {
            let row = self.read_row(i);
            let ghost prev = rows.deep_view();
            rows.push(row);
            proof {
                assert(rows.deep_view() =~= prev.push(row@));
                assert(self.rows().subrange(1, i + 1) =~= self.rows().subrange(1, i as int).push(
                    self.rows()[i as int],
                ));
            }
            i += 1;
        }
        proof {
            assert(self.rows().subrange(1, n as int) =~= spec_body_rows(self.rows()));
        }
        rows
    }

    /// The text of the document's pagination message: the joined text of
    /// the second `span` under the message element, when both exist.
    pub fn read_msg_text(&self) -> (r: Option<String>)
        ensures
            view_opt(r) == spec_msg_text(self.msg_spans()),
    {
        let k = msg_span_count(&self.doc);
        if k < 2 {
            None
        } else {
            let texts = msg_span_texts(&self.doc, 1);
            Some(join_with(&texts, " "))
        }
    }
}

} // verus!
