//! A verified client core for a subtitle-hosting site: URL building from
//! search criteria, the redirect-following request state machine, and the
//! extraction of typed records from result pages.
pub mod dom;
pub mod error;
pub mod extract;
pub mod fetch;
pub mod lang;
pub mod model;
pub mod params;
pub mod response;
pub mod text;

pub use error::Error;
pub use fetch::FetchState;
pub use lang::Language;
pub use model::{Movie, Subtitle};
pub use params::{Filter, Filters, OrderBy, SearchBy};
pub use response::{Page, Response};
