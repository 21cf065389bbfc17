use opensubs::fetch::FetchState;
use opensubs::params::{build_initial_url, is_listing_url};
use opensubs::{Error, Filters, Language, OrderBy, Response, SearchBy};

fn godfather_filter() -> opensubs::Filter {
    Filters::default()
        .year(1972)
        .languages(vec![Language::French, Language::German])
        .order_by(OrderBy::Downloads)
        .build()
}

const MOVIE_PAGE: &str = "<html><body>\
<table id=\"search_results\">\
<tr><th>Movie</th></tr>\
<tr id=\"name1196\"><td><a href=\"/x\">The Godfather (1972)</a></td></tr>\
<tr id=\"name2099\"><td><a href=\"/y\">The Godfather Part II</a></td></tr>\
</table></body></html>";

const LISTING_PAGE: &str = "<html><body>\
<div id=\"msg\"><span>hide</span><span>Showing 1 to 2 of 2 results</span></div>\
<table id=\"search_results\">\
<tr><th>Subtitles</th></tr>\
<tr id=\"name4821\"><td><a href=\"/s\">The Godfather</a><br>GF.1972.BluRay</td>\
<td><a href=\"/f\" title=\"French\">fr</a></td>\
<td>CD1</td>\
<td>10/03/24 12:00</td>\
<td><a href=\"/d\">150x</a></td>\
<td><span>7.9</span></td>\
<td></td><td></td>\
<td>uploaderguy</td></tr>\
<tr id=\"name77\"><td><a href=\"/s\">The Godfather</a></td>\
<td><a href=\"/f\" title=\"German\">de</a></td>\
<td>CD1</td>\
<td>11/03/24</td>\
<td><a href=\"/d\">many</a></td>\
<td><span>N/A</span></td>\
<td></td><td></td>\
<td></td></tr>\
<tr id=\"ihtr99\"><td>advert</td></tr>\
</table></body></html>";

#[test]
fn movie_page_parses_to_movie_list() {
    let filter = godfather_filter();
    let url = build_initial_url(&SearchBy::MovieAndFilter("the godfather", filter));
    assert!(url.contains("SubLanguageID=fre,ger"));
    assert!(url.contains("MovieYear=1972"));
    assert!(!is_listing_url(&url));

    let filter = godfather_filter();
    let result = Response::create(&url, MOVIE_PAGE, Some(&filter)).unwrap();
    match result {
        Response::Movie(movies) => {
            assert!(movies.len() >= 1);
            assert_eq!(movies[0].name, "The Godfather (1972)");
            assert!(movies[0].subtitles_link.contains("sublanguageid-fre,ger"));
            assert!(movies[0].subtitles_link.contains("/sort-7/asc-0"));
            assert!(is_listing_url(&movies[0].subtitles_link));
        }
        Response::Subtitle(_, _) => panic!("expected a movie list"),
    }
}

#[test]
fn listing_page_parses_to_subtitle_list() {
    let filter = godfather_filter();
    let url =
        "https://www.opensubtitles.org/en/search/sublanguageid-fre,ger/idmovie-1196/sort-7/asc-0";
    let result = Response::create(url, LISTING_PAGE, Some(&filter)).unwrap();
    match result {
        Response::Subtitle(page, subs) => {
            assert_eq!(page.from, 1);
            assert_eq!(page.to, 2);
            assert_eq!(page.total, 2);
            assert_eq!(subs.len(), 2);

            assert_eq!(subs[0].id, 4821);
            assert_eq!(subs[0].movie, "The Godfather");
            assert_eq!(subs[0].name, Some("GF.1972.BluRay".to_string()));
            assert_eq!(subs[0].language, "French");
            assert_eq!(subs[0].cd, "CD1");
            assert_eq!(subs[0].uploaded, "10/03/24");
            assert_eq!(subs[0].downloads, 150);
            assert_eq!(subs[0].rating_tenths, 79);
            assert_eq!(subs[0].uploader, Some("uploaderguy".to_string()));
            assert_eq!(
                subs[0].download_link,
                "https://dl.opensubtitles.org/en/download/sub/4821"
            );

            assert_eq!(subs[1].language, "German");
            assert_eq!(subs[1].downloads, 0);
            assert_eq!(subs[1].rating_tenths, 0);
            assert_eq!(subs[1].uploader, None);
            assert!(!subs[1].download_link.is_empty());
        }
        Response::Movie(_) => panic!("expected a subtitle list"),
    }
}

#[test]
fn parsing_never_fails_on_malformed_markup() {
    let garbage = "<<<]] not even <html ... \u{0} <table><tr zzz";
    let listing = Response::create("x/imdbid-1", garbage, None).unwrap();
    match listing {
        Response::Subtitle(page, subs) => {
            assert_eq!(page, opensubs::Page { from: 0, to: 0, total: 0 });
            assert!(subs.is_empty());
        }
        Response::Movie(_) => panic!("expected a subtitle list"),
    }
    let disambiguation = Response::create("x/plain", garbage, None).unwrap();
    assert!(matches!(disambiguation, Response::Movie(m) if m.is_empty()));
}

#[test]
fn empty_page_parses_to_empty_movie_list() {
    let result = Response::create("https://example.invalid/none", "<html></html>", None).unwrap();
    match result {
        Response::Movie(movies) => assert!(movies.is_empty()),
        Response::Subtitle(_, _) => panic!("expected a movie list"),
    }
}

#[test]
fn fetch_applies_suffix_after_redirect_to_listing() {
    let filter = godfather_filter();
    let mut st = FetchState::begin(&SearchBy::Movie("the godfather"));
    let first = st.next_request_url(Some(&filter));
    assert_eq!(
        first,
        "https://www.opensubtitles.org/en/search2?MovieName=the godfather&id=8&action=search"
    );

    st.on_redirect(Some("/en/search/sublanguageid-fre,ger/idmovie-1196".to_string())).unwrap();
    let second = st.next_request_url(Some(&filter));
    assert_eq!(
        second,
        "https://www.opensubtitles.org/en/search/sublanguageid-fre,ger/idmovie-1196/sort-7/asc-0"
    );
    assert_eq!(st.current_url(), second.as_str());
}

#[test]
fn fetch_keeps_absolute_redirect_targets() {
    let mut st = FetchState::begin(&SearchBy::Url("https://www.opensubtitles.org/en/a"));
    st.on_redirect(Some("https://www.opensubtitles.org/en/b".to_string())).unwrap();
    assert_eq!(st.current_url(), "https://www.opensubtitles.org/en/b");
}

#[test]
fn fetch_fails_on_missing_location() {
    let mut st = FetchState::begin(&SearchBy::Url("https://www.opensubtitles.org/en/a"));
    assert_eq!(st.on_redirect(None), Err(Error::MissingRedirectTarget));
}

#[test]
fn fetch_fails_past_the_hop_limit() {
    let mut st = FetchState::begin(&SearchBy::Url("https://www.opensubtitles.org/en/a"));
    for _ in 0..10 {
        st.on_redirect(Some("/en/hop".to_string())).unwrap();
    }
    assert_eq!(
        st.on_redirect(Some("/en/hop".to_string())),
        Err(Error::TooManyRedirects)
    );
}
