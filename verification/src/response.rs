//! The parsed response: either a list of candidate movies or a paginated
//! list of subtitles, together with the pagination window.
use vstd::prelude::*;
use vstd::string::*;

use crate::dom::{PageDoc, msg_spans_of, rows_of};
use crate::error::Error;
use crate::extract::{
    movies_from_rows, spec_body_rows, spec_movies_from_rows, spec_msg_text,
    spec_subtitles_from_rows, subtitles_from_rows,
};
use crate::model::{Movie, Subtitle};
use crate::params::{
    Filter, is_listing_url, spec_is_listing, spec_languages_str, spec_offset_suffix,
    spec_sort_suffix,
};
use crate::text::{scan_numbers, spec_scan_numbers, view_opt};

verus! {

/// The pagination window of a subtitle listing.
#[derive(Debug, Default, PartialEq, Eq, Structural)]
pub struct Page {
    /// The index of the first entry shown.
    pub from: u32,
    /// The index of the last entry shown.
    pub to: u32,
    /// The total number of entries available.
    pub total: u32,
}

/// The page parsed from the pagination message: the first three numeric
/// tokens of the text, or all zeroes when the text is absent or holds fewer
/// than three numbers.
pub open spec fn spec_page_from_text(t: Option<Seq<char>>) -> Page {
    match t {
        Some(s) => {
            let nums = spec_scan_numbers(s, 0);
            if nums.len() < 3 {
                (Page { from: 0, to: 0, total: 0 })
            } else {
                (Page { from: nums[0], to: nums[1], total: nums[2] })
            }
        },
        None => (Page { from: 0, to: 0, total: 0 }),
    }
}

impl Page {
    /// Parse the pagination message: the first three numbers found become
    /// `from`, `to` and `total`; fewer than three numbers give all zeroes.
    pub fn from_text(text: Option<&str>) -> (r: Page)
        ensures
            r == spec_page_from_text(match text {
                Some(t) => Some(t@),
                None => None,
            }),
    {
        match text {
            Some(t) => {
                let nums = scan_numbers(t);
                if nums.len() < 3 {
                    Page { from: 0, to: 0, total: 0 }
                } else {
                    Page { from: nums[0], to: nums[1], total: nums[2] }
                }
            },
            None => Page { from: 0, to: 0, total: 0 },
        }
    }
}

/// The language codes a derived listing URL is scoped to: the filter's
/// codes, or the site's catch-all word without a filter.
pub open spec fn spec_link_languages(filter: Option<Filter>) -> Seq<char> {
    match filter {
        Some(f) => spec_languages_str(f.languages@),
        None => "all"@,
    }
}

/// The pagination suffix a derived listing URL carries.
pub open spec fn spec_link_offset(filter: Option<Filter>) -> Seq<char> {
    match filter {
        Some(f) => match spec_offset_suffix(f.page) {
            Some(o) => o,
            None => Seq::empty(),
        },
        None => Seq::empty(),
    }
}

/// The sort suffix a derived listing URL carries.
pub open spec fn spec_link_sort(filter: Option<Filter>) -> Seq<char> {
    match filter {
        Some(f) => spec_sort_suffix(f.order_by),
        None => Seq::empty(),
    }
}

/// A parsed search-result page.
#[derive(Debug, PartialEq)]
pub enum Response {
    /// A list of candidate movies from a disambiguation page.
    Movie(Vec<Movie>),
    /// A paginated list of subtitles from a listing page.
    Subtitle(Page, Vec<Subtitle>),
}

impl Response {
    /// Parse a result page; parsing never fails, whatever the text. A
    /// listing URL yields the subtitle table with its pagination window;
    /// any other URL yields the candidate movies of a disambiguation page,
    /// each with a listing URL derived from the filter. Missing pieces of
    /// markup degrade to defaults. The error type records that a page whose
    /// structure cannot be queried would be a `MarkupError`; the queries
    /// made here are fixed and well-formed, so every call returns `Ok`.
    pub fn create(url: &str, html: &str, filter: Option<&Filter>) -> (r: Result<Response, Error>)
        ensures
            r matches Ok(resp) && {
                &&& resp is Subtitle <==> spec_is_listing(url@)
                &&& resp is Movie <==> !spec_is_listing(url@)
                &&& resp matches Response::Subtitle(page, subs) ==> page == spec_page_from_text(
                    spec_msg_text(msg_spans_of(html@)),
                ) && subs.deep_view() == spec_subtitles_from_rows(spec_body_rows(rows_of(html@)))
                &&& resp matches Response::Movie(movies) ==> movies.deep_view()
                    == spec_movies_from_rows(
                    spec_body_rows(rows_of(html@)),
                    spec_link_languages(match filter {
                        Some(f) => Some(*f),
                        None => None,
                    }),
                    spec_link_offset(match filter {
                        Some(f) => Some(*f),
                        None => None,
                    }),
                    spec_link_sort(match filter {
                        Some(f) => Some(*f),
                        None => None,
                    }),
                )
            },
    {
        let doc = PageDoc::parse(html);
        if is_listing_url(url) {
            let msg = doc.read_msg_text();
            proof {
                assert((match msg {
                    Some(s) => Some(s@),
                    None => None,
                }) == view_opt(msg));
            }
            let page = Page::from_text(
                match &msg {
                    Some(s) => Some(s.as_str()),
                    None => None,
                },
            );
            let rows = doc.read_body_rows();
            let subs = subtitles_from_rows(&rows);
            Ok(Response::Subtitle(page, subs))
        } else {
            let rows = doc.read_body_rows();
            let languages = match filter {
                Some(f) => f.languages_to_str(),
                None => String::from_str("all"),
            };
            let offset = match filter {
                Some(f) => match f.offset() {
                    Some(o) => o,
                    None => String::new(),
                },
                None => String::new(),
            };
            let sort: &str = match filter {
                Some(f) => match f.sort() {
                    Some(s) => s,
                    None => "",
                },
                None => "",
            };
            let movies = movies_from_rows(&rows, languages.as_str(), offset.as_str(), sort);
            proof {
                reveal_strlit("");
                let gf = match filter {
                    Some(f) => Some(*f),
                    None => None,
                };
                assert(languages@ == spec_link_languages(gf));
                assert(offset@ == spec_link_offset(gf));
                assert(sort@ == spec_link_sort(gf));
            }
            Ok(Response::Movie(movies))
        }
    }
}

} // verus!
