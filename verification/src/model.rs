//! The result records: a candidate movie with its derived listing URL, and a
//! subtitle entry with its derived download URL.
use vstd::prelude::*;
use vstd::string::*;

use crate::text::{spec_dec, view_opt};

verus! {

/// The mathematical view of a [`Movie`].
pub struct MovieV {
    pub id: u64,
    pub name: Seq<char>,
    pub subtitles_link: Seq<char>,
}

/// The mathematical view of a [`Subtitle`].
pub struct SubtitleV {
    pub id: u64,
    pub movie: Seq<char>,
    pub name: Option<Seq<char>>,
    pub language: Seq<char>,
    pub cd: Seq<char>,
    pub uploaded: Seq<char>,
    pub downloads: u32,
    pub rating_tenths: u32,
    pub uploader: Option<Seq<char>>,
    pub download_link: Seq<char>,
}

/// The listing URL derived for a movie: the site's listing path for the
/// movie's id, scoped to the given language codes and carrying the given
/// pagination and sort suffixes.
pub open spec fn spec_movie_link(
    id: u64,
    languages: Seq<char>,
    offset: Seq<char>,
    sort: Seq<char>,
) -> Seq<char> {
    "https://www.opensubtitles.org/en/search/sublanguageid-"@ + languages + "/idmovie-"@
        + spec_dec(id as int) + offset + sort
}

/// The download URL derived for a subtitle id.
pub open spec fn spec_download_link(id: u64) -> Seq<char> {
    "https://dl.opensubtitles.org/en/download/sub/"@ + spec_dec(id as int)
}

/// A movie's derived listing URL is itself a listing URL: it carries the
/// site's movie-path token, so feeding it back as a follow-up search always
/// reaches the subtitle-listing parse, whatever the id, language codes and
/// suffixes were.
pub proof fn lemma_movie_link_is_listing(
    id: u64,
    languages: Seq<char>,
    offset: Seq<char>,
    sort: Seq<char>,
)
    ensures
        crate::params::spec_is_listing(spec_movie_link(id, languages, offset, sort)),
{
    reveal_strlit("idmovie");
    reveal_strlit("/idmovie-");
    let link = spec_movie_link(id, languages, offset, sort);
    let i: int = "https://www.opensubtitles.org/en/search/sublanguageid-"@.len() as int
        + languages.len() as int + 1;
    assert(link.subrange(i, i + "idmovie"@.len() as int) =~= "idmovie"@);
}

/// A movie on a disambiguation page, with the listing URL that leads to its
/// subtitles.
#[derive(Debug, PartialEq)]
pub struct Movie {
    /// Unique identifier for the movie.
    pub id: u64,
    /// Movie title.
    pub name: String,
    /// URL of the movie's subtitle listing, usable as a follow-up search.
    pub subtitles_link: String,
}

impl Movie {
    /// A movie record with its listing URL derived from the id, the language
    /// codes, and the pagination and sort suffixes of the active filter.
    pub fn new(id: u64, name: String, languages: &str, offset: &str, sort: &str) -> (m: Movie)
        ensures
            m.id == id,
            m.name == name,
            m.subtitles_link@ == spec_movie_link(id, languages@, offset@, sort@),
    {
        let mut link = String::from_str("https://www.opensubtitles.org/en/search/sublanguageid-");
        link.append(languages);
        link.append("/idmovie-");
        let d = crate::text::u64_to_dec(id);
        link.append(d.as_str());
        link.append(offset);
        link.append(sort);
        Movie { id, name, subtitles_link: link }
    }

    /// The listing URL to follow for this movie's subtitles; running a
    /// search on it yields the subtitle table.
    pub fn get_subtitles2(&self) -> (r: &str)
        ensures
            r@ == self.subtitles_link@,
    {
        self.subtitles_link.as_str()
    }
}

impl View for Movie {
    type V = MovieV;

    open spec fn view(&self) -> MovieV {
        MovieV { id: self.id, name: self.name@, subtitles_link: self.subtitles_link@ }
    }
}

impl DeepView for Movie {
    type V = MovieV;

    open spec fn deep_view(&self) -> MovieV {
        self.view()
    }
}

/// A subtitle entry of a listing page, with its derived download URL.
#[derive(Debug, PartialEq)]
pub struct Subtitle {
    /// Unique identifier for the subtitle.
    pub id: u64,
    /// Movie title associated with the subtitle.
    pub movie: String,
    /// Release name of the subtitle, when the row carries one.
    pub name: Option<String>,
    /// Language of the subtitle, as the site names it.
    pub language: String,
    /// CD or disc information for multi-disc releases.
    pub cd: String,
    /// Upload date, truncated to the form DD/MM/YY.
    pub uploaded: String,
    /// Number of times the subtitle has been downloaded.
    pub downloads: u32,
    /// Rating in tenths: 79 stands for a rating of 7.9; zero when the cell
    /// is absent or malformed.
    pub rating_tenths: u32,
    /// Uploader's username, when the row names one.
    pub uploader: Option<String>,
    /// Direct download link for the subtitle file.
    pub download_link: String,
}

impl View for Subtitle {
    type V = SubtitleV;

    open spec fn view(&self) -> SubtitleV {
        SubtitleV {
            id: self.id,
            movie: self.movie@,
            name: view_opt(self.name),
            language: self.language@,
            cd: self.cd@,
            uploaded: self.uploaded@,
            downloads: self.downloads,
            rating_tenths: self.rating_tenths,
            uploader: view_opt(self.uploader),
            download_link: self.download_link@,
        }
    }
}

impl DeepView for Subtitle {
    type V = SubtitleV;

    open spec fn deep_view(&self) -> SubtitleV {
        self.view()
    }
}

impl Subtitle {
    /// A subtitle record with its download link derived from the id.
    pub fn new(
        id: u64,
        movie: String,
        name: Option<String>,
        language: String,
        cd: String,
        uploaded: String,
        downloads: u32,
        rating_tenths: u32,
        uploader: Option<String>,
    ) -> (s: Subtitle)
        ensures
            s.id == id,
            s.movie == movie,
            s.name == name,
            s.language == language,
            s.cd == cd,
            s.uploaded == uploaded,
            s.downloads == downloads,
            s.rating_tenths == rating_tenths,
            s.uploader == uploader,
            s.download_link@ == spec_download_link(id),
    {
        let mut link = String::from_str("https://dl.opensubtitles.org/en/download/sub/");
        let d = crate::text::u64_to_dec(id);
        link.append(d.as_str());
        Subtitle {
            id,
            movie,
            name,
            language,
            cd,
            uploaded,
            downloads,
            rating_tenths,
            uploader,
            download_link: link,
        }
    }
}

} // verus!
