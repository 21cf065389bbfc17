//! Search parameters and the URLs they produce: the search request, the
//! filter set with its builder, the sort order, and the listing-URL suffix
//! rules.
use vstd::prelude::*;
use vstd::string::*;

use crate::lang::Language;
use crate::text::{
    contains_sub, join_with, spec_contains, spec_dec, spec_join, spec_trim, trim, u64_to_dec,
};

verus! {

/// Sorting order for the entries of a subtitle listing.
#[derive(Debug, Clone, Copy, PartialEq, Eq, Structural)]
pub enum OrderBy {
    /// Sort by upload date (the default).
    Uploaded,
    /// Sort by number of downloads.
    Downloads,
    /// Sort by rating.
    Rating,
}

/// The site-specific path suffix that selects a sort order.
pub open spec fn spec_sort_suffix(o: OrderBy) -> Seq<char> {
    match o {
        OrderBy::Uploaded => "/sort-5/asc-0"@,
        OrderBy::Downloads => "/sort-7/asc-0"@,
        OrderBy::Rating => "/sort-6/asc-0"@,
    }
}

impl OrderBy {
    /// The path suffix that selects this sort order.
    pub fn sort(&self) -> (r: Option<&str>)
        ensures
            r matches Some(s) && s@ == spec_sort_suffix(*self),
    {
        match self {
            Self::Uploaded => Some("/sort-5/asc-0"),
            Self::Downloads => Some("/sort-7/asc-0"),
            Self::Rating => Some("/sort-6/asc-0"),
        }
    }
}

/// Search filters: year, languages, page and sort order.
#[derive(Debug)]
pub struct Filter {
    /// Year to filter by; zero means no year filter.
    pub year: u32,
    /// Languages to filter by; empty means no language filter.
    pub languages: Vec<Language>,
    /// Page number, starting from one.
    pub page: u32,
    /// Sorting order.
    pub order_by: OrderBy,
}

/// Builder for a [`Filter`].
#[derive(Debug)]
pub struct Filters(pub Filter);

impl Default for Filters {
    /// The default filter set: no year, no languages, first page, sorted by
    /// upload date.
    fn default() -> (r: Self)
        ensures
            r.0.year == 0,
            r.0.languages@ == Seq::<Language>::empty(),
            r.0.page == 1,
            r.0.order_by is Uploaded,
    {
        Filters(
            Filter {
                year: 0,
                languages: Vec::new(),
                page: 1,
                order_by: OrderBy::Uploaded,
            },
        )
    }
}

impl Filters {
    /// Sets the year filter.
    pub fn year(self, year: u32) -> (r: Self)
        ensures
            r.0.year == year,
            r.0.languages == self.0.languages,
            r.0.page == self.0.page,
            r.0.order_by == self.0.order_by,
    {
        let mut f = self.0;
        f.year = year;
        Filters(f)
    }

    /// Sets the language filter.
    pub fn languages(self, languages: Vec<Language>) -> (r: Self)
        ensures
            r.0.year == self.0.year,
            r.0.languages == languages,
            r.0.page == self.0.page,
            r.0.order_by == self.0.order_by,
    {
        let mut f = self.0;
        f.languages = languages;
        Filters(f)
    }

    /// Sets the pagination page.
    pub fn page(self, page: u32) -> (r: Self)
        ensures
            r.0.year == self.0.year,
            r.0.languages == self.0.languages,
            r.0.page == page,
            r.0.order_by == self.0.order_by,
    {
        let mut f = self.0;
        f.page = page;
        Filters(f)
    }

    /// Sets the sorting order.
    pub fn order_by(self, order_by: OrderBy) -> (r: Self)
        ensures
            r.0.year == self.0.year,
            r.0.languages == self.0.languages,
            r.0.page == self.0.page,
            r.0.order_by == order_by,
    {
        let mut f = self.0;
        f.order_by = order_by;
        Filters(f)
    }

    /// Builds and returns the configured [`Filter`].
    pub fn build(self) -> (r: Filter)
        ensures
            r == self.0,
    {
        self.0
    }
}

/// The comma-joined site codes of a language list.
pub open spec fn spec_languages_str(langs: Seq<Language>) -> Seq<char> {
    spec_join(langs.map_values(|l: Language| l.spec_code()), ","@)
}

/// The year as text, or nothing when the year filter is off.
pub open spec fn spec_year_str(year: u32) -> Seq<char> {
    if year == 0 {
        Seq::empty()
    } else {
        spec_dec(year as int)
    }
}

/// The query-string fragment that a filter adds to a search URL.
pub open spec fn spec_filter_query(f: Filter) -> Seq<char> {
    "&SubLanguageID="@ + spec_languages_str(f.languages@) + "&MovieYearSign=1&MovieYear="@
        + spec_year_str(f.year)
}

/// The pagination suffix: 40 entries are skipped for every page beyond the
/// first, and the first page has no suffix at all.
pub open spec fn spec_offset_suffix(page: u32) -> Option<Seq<char>> {
    if page > 1 {
        Some("/offset="@ + spec_dec((page - 1) * 40))
    } else {
        None
    }
}

/// The full path suffix a filter appends to a listing URL: the pagination
/// offset, when any, followed by the sort suffix.
pub open spec fn spec_listing_suffix(f: Filter) -> Seq<char> {
    (match spec_offset_suffix(f.page) {
        Some(o) => o,
        None => Seq::<char>::empty(),
    }) + spec_sort_suffix(f.order_by)
}

impl Filter {
    /// The comma-joined site codes of the filter's languages.
    pub fn languages_to_str(&self) -> (r: String)
        ensures
            r@ == spec_languages_str(self.languages@),
    {
        let mut codes: Vec<String> = Vec::new();
        let mut i: usize = 0;
        while i < self.languages.len()
            invariant
                i <= self.languages.len(),
                codes@.len() == i,
                forall|k: int|
                    0 <= k < i ==> (#[trigger] codes@[k])@ == self.languages@[k].spec_code(),
            decreases self.languages.len() - i,
        {
            let code = self.languages[i].code();
            codes.push(String::from_str(code));
            i += 1;
        }
        proof {
            assert(codes.deep_view() =~= self.languages@.map_values(
                |l: Language| l.spec_code(),
            ));
        }
        join_with(&codes, ",")
    }

    /// The query-string fragment for this filter.
    pub fn create(&self) -> (r: String)
        ensures
            r@ == spec_filter_query(*self),
    {
        let mut out = String::from_str("&SubLanguageID=");
        let langs = self.languages_to_str();
        out.append(langs.as_str());
        out.append("&MovieYearSign=1&MovieYear=");
        if self.year != 0 {
            let y = u64_to_dec(self.year as u64);
            out.append(y.as_str());
        }
        out
    }

    /// The pagination suffix for the filter's page, if the page is past the
    /// first.
    pub fn offset(&self) -> (r: Option<String>)
        ensures
            match r {
                Some(s) => self.page > 1 && Some(s@) == spec_offset_suffix(self.page),
                None => self.page <= 1,
            },
    {
        if self.page > 1 {
            let mut out = String::from_str("/offset=");
            let n = u64_to_dec((self.page as u64 - 1) * 40);
            out.append(n.as_str());
            Some(out)
        } else {
            None
        }
    }

    /// The sort suffix for the filter's order.
    pub fn sort(&self) -> (r: Option<&str>)
        ensures
            r matches Some(s) && s@ == spec_sort_suffix(self.order_by),
    {
        self.order_by.sort()
    }
}

/// The search request: a direct URL, a title, or a title with filters.
#[derive(Debug)]
pub enum SearchBy<'a> {
    /// Search using a direct URL.
    Url(&'a str),
    /// Search by movie title.
    Movie(&'a str),
    /// Search by movie title with additional filters.
    MovieAndFilter(&'a str, Filter),
}

impl<'a> SearchBy<'a> {
    /// The filter of the request, if it carries one.
    pub fn filter(&self) -> (r: Option<&Filter>)
        ensures
            match *self {
                SearchBy::MovieAndFilter(_, f) => r matches Some(g) && *g == f,
                _ => r is None,
            },
    {
        match self {
            SearchBy::MovieAndFilter(_, filter) => Some(filter),
            _ => None,
        }
    }
}

/// The URL a search request first asks for.
pub open spec fn spec_initial_url(sb: SearchBy) -> Seq<char> {
    match sb {
        SearchBy::Url(u) => u@,
        SearchBy::Movie(t) => "https://www.opensubtitles.org/en/search2?MovieName="@
            + spec_trim(t@) + "&id=8&action=search"@,
        SearchBy::MovieAndFilter(t, f) => "https://www.opensubtitles.org/en/search2?MovieName="@
            + spec_trim(t@) + "&id=8&action=search"@ + spec_filter_query(f),
    }
}

/// Build the URL a search request first asks for: a direct URL passes
/// through; a title search inserts the trimmed title into the site's search
/// endpoint, with the filter's query fragment appended when one is given.
pub fn build_initial_url(sb: &SearchBy) -> (r: String)
    ensures
        r@ == spec_initial_url(*sb),
{
    match sb {
        SearchBy::Url(u) => String::from_str(u),
        SearchBy::Movie(t) => {
            let mut out = String::from_str("https://www.opensubtitles.org/en/search2?MovieName=");
            out.append(trim(t));
            out.append("&id=8&action=search");
            out
        },
        SearchBy::MovieAndFilter(t, f) => {
            let mut out = String::from_str("https://www.opensubtitles.org/en/search2?MovieName=");
            out.append(trim(t));
            out.append("&id=8&action=search");
            let q = f.create();
            out.append(q.as_str());
            out
        },
    }
}

/// A listing URL: one whose path already names a concrete movie, by either
/// of the site's two tokens.
pub open spec fn spec_is_listing(url: Seq<char>) -> bool {
    spec_contains(url, "imdbid"@) || spec_contains(url, "idmovie"@)
}

/// Whether `url` is a subtitle-listing URL, by case-sensitive substring
/// search for the site's two movie-path tokens.
pub fn is_listing_url(url: &str) -> (r: bool)
    ensures
        r == spec_is_listing(url@),
{
    contains_sub(url, "imdbid") || contains_sub(url, "idmovie")
}

/// Append the filter's pagination and sort suffixes to `url`, but only when
/// `url` is already a listing URL; any other URL is left unchanged.
pub fn apply_listing_suffix(url: &mut String, filter: Option<&Filter>)
    ensures
        final(url)@ == if spec_is_listing(old(url)@) {
            old(url)@ + (match filter {
                Some(f) => spec_listing_suffix(*f),
                None => Seq::<char>::empty(),
            })
        } else {
            old(url)@
        },
{
    if is_listing_url(url.as_str()) {
        match filter {
            Some(f) => {
                match f.offset() {
                    Some(o) => {
                        url.append(o.as_str());
                    },
                    None => {},
                }
                match f.sort() {
                    Some(s) => {
                        url.append(s);
                    },
                    None => {},
                }
            },
            None => {},
        }
    }
}

} // verus!
