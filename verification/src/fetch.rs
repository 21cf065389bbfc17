//! The redirect-following request pipeline, as a state machine. The caller
//! performs each request and feeds back what came of it; every decision in
//! between — suffixing listing URLs, absolutizing redirect targets, bounding
//! the chain — is made here.
use vstd::prelude::*;
use vstd::string::*;

use crate::error::Error;
use crate::params::{
    Filter, SearchBy, apply_listing_suffix, build_initial_url, spec_initial_url,
    spec_is_listing, spec_listing_suffix,
};
use crate::text::{spec_starts_with, starts_with};

verus! {

/// The redirect chain is cut off after this many hops.
pub const MAX_REDIRECTS: u32 = 10;

/// The site origin that path-only redirect targets are resolved against.
pub open spec fn spec_site_origin() -> Seq<char> {
    "https://www.opensubtitles.org"@
}

/// A redirect target as an absolute URL: a target that does not already
/// start with the site's scheme and host gets the site origin prefixed.
pub open spec fn spec_absolutize(loc: Seq<char>) -> Seq<char> {
    if spec_starts_with(loc, spec_site_origin()) {
        loc
    } else {
        spec_site_origin() + loc
    }
}

/// Resolve a redirect target against the site origin.
pub fn absolutize_location(loc: &str) -> (r: String)
    ensures
        r@ == spec_absolutize(loc@),
{
    if starts_with(loc, "https://www.opensubtitles.org") {
        String::from_str(loc)
    } else {
        let mut out = String::from_str("https://www.opensubtitles.org");
        out.append(loc);
        out
    }
}

/// The listing suffix a filter contributes, when one is given.
pub open spec fn spec_filter_suffix(filter: Option<Filter>) -> Seq<char> {
    match filter {
        Some(f) => spec_listing_suffix(f),
        None => Seq::empty(),
    }
}

/// The state of one request chain: the URL the next request goes to, and
/// how many redirects have been followed.
#[derive(Debug)]
pub struct FetchState {
    /// The current URL.
    pub url: String,
    /// The number of redirect hops followed so far.
    pub hops: u32,
}

impl FetchState {
    /// Start a chain at the initial URL of a search request.
    pub fn begin(sb: &SearchBy) -> (r: FetchState)
        ensures
            r.url@ == spec_initial_url(*sb),
            r.hops == 0,
    {
        FetchState { url: build_initial_url(sb), hops: 0 }
    }

    /// The URL the next request must go to: the current URL, with the
    /// filter's pagination and sort suffixes appended first if it is a
    /// listing URL. This runs before every hop, not only the first, since a
    /// redirect may land on a listing URL that did not start as one.
    pub fn next_request_url(&mut self, filter: Option<&Filter>) -> (r: String)
        ensures
            final(self).url@ == if spec_is_listing(old(self).url@) {
                old(self).url@ + spec_filter_suffix(match filter {
                    Some(f) => Some(*f),
                    None => None,
                })
            } else {
                old(self).url@
            },
            r@ == final(self).url@,
            final(self).hops == old(self).hops,
    {
        apply_listing_suffix(&mut self.url, filter);
        self.url.clone()
    }

    /// Record a redirect hop: the chain fails on a missing target or past
    /// the hop limit, and otherwise continues at the absolutized target.
    pub fn on_redirect(&mut self, location: Option<String>) -> (r: Result<(), Error>)
        ensures
            match r {
                Ok(()) => {
                    &&& location matches Some(l) && final(self).url@ == spec_absolutize(l@)
                    &&& old(self).hops < MAX_REDIRECTS
                    &&& final(self).hops == old(self).hops + 1
                },
                Err(e) => {
                    &&& *final(self) == *old(self)
                    &&& (e is MissingRedirectTarget <==> location is None)
                    &&& location is Some ==> (e is TooManyRedirects && old(self).hops
                        >= MAX_REDIRECTS)
                },
            },
    {
        match location {
            None => Err(Error::MissingRedirectTarget),
            Some(l) => {
                if self.hops >= MAX_REDIRECTS {
                    Err(Error::TooManyRedirects)
                } else {
                    self.url = absolutize_location(l.as_str());
                    self.hops = self.hops + 1;
                    Ok(())
                }
            },
        }
    }

    /// The URL the chain currently stands at.
    pub fn current_url(&self) -> (r: &str)
        ensures
            r@ == self.url@,
    {
        self.url.as_str()
    }
}

} // verus!
