//! The error cases a search can surface. Per-row data problems are never
//! errors: they degrade to default values during extraction.
use vstd::prelude::*;

verus! {

/// Why a search failed. Transport and protocol failures propagate to the
/// caller at once; nothing is retried.
#[derive(Debug, PartialEq)]
pub enum Error {
    /// A transport-level failure: DNS, connection, or timeout.
    NetworkError(String),
    /// A redirect's `Location` value was not valid text.
    HeaderParseError,
    /// The page structure could not be queried at all.
    MarkupError,
    /// The redirect chain went past the hop limit.
    TooManyRedirects,
    /// A redirect response carried no `Location` header.
    MissingRedirectTarget,
}

} // verus!
