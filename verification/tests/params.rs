use opensubs::params::{apply_listing_suffix, build_initial_url, is_listing_url};
use opensubs::{Filters, Language, OrderBy, SearchBy};

#[test]
fn offset_absent_on_first_page() {
    let f = Filters::default().page(1).build();
    assert_eq!(f.offset(), None);
}

#[test]
fn offset_counts_forty_per_page() {
    let f = Filters::default().page(2).build();
    assert_eq!(f.offset(), Some("/offset=40".to_string()));
    let f = Filters::default().page(5).build();
    assert_eq!(f.offset(), Some("/offset=160".to_string()));
    let f = Filters::default().page(11).build();
    assert_eq!(f.offset(), Some("/offset=400".to_string()));
}

#[test]
fn sort_suffix_mapping() {
    assert_eq!(OrderBy::Uploaded.sort(), Some("/sort-5/asc-0"));
    assert_eq!(OrderBy::Downloads.sort(), Some("/sort-7/asc-0"));
    assert_eq!(OrderBy::Rating.sort(), Some("/sort-6/asc-0"));
}

#[test]
fn listing_url_detection() {
    assert!(is_listing_url("https://www.opensubtitles.org/en/search/imdbid-68646"));
    assert!(is_listing_url("https://www.opensubtitles.org/en/search/sublanguageid-all/idmovie-1196"));
    assert!(is_listing_url("idmovie"));
    assert!(!is_listing_url("https://www.opensubtitles.org/en/search2?MovieName=heat"));
    assert!(!is_listing_url("IMDBID"));
    assert!(!is_listing_url("IdMovie"));
    assert!(!is_listing_url(""));
}

#[test]
fn initial_url_by_url_passes_through() {
    let url = build_initial_url(&SearchBy::Url("https://example.invalid/x?y=1"));
    assert_eq!(url, "https://example.invalid/x?y=1");
}

#[test]
fn initial_url_by_title_trims() {
    let url = build_initial_url(&SearchBy::Movie("  the godfather \n"));
    assert_eq!(
        url,
        "https://www.opensubtitles.org/en/search2?MovieName=the godfather&id=8&action=search"
    );
}

#[test]
fn initial_url_with_filter_carries_query() {
    let filter = Filters::default()
        .year(1972)
        .languages(vec![Language::French, Language::German])
        .order_by(OrderBy::Downloads)
        .build();
    let url = build_initial_url(&SearchBy::MovieAndFilter("the godfather", filter));
    assert_eq!(
        url,
        "https://www.opensubtitles.org/en/search2?MovieName=the godfather&id=8&action=search\
         &SubLanguageID=fre,ger&MovieYearSign=1&MovieYear=1972"
    );
}

#[test]
fn filter_query_without_year_leaves_year_empty() {
    let filter = Filters::default().languages(vec![Language::English]).build();
    assert_eq!(
        filter.create(),
        "&SubLanguageID=eng&MovieYearSign=1&MovieYear="
    );
}

#[test]
fn languages_join_with_commas() {
    let f = Filters::default()
        .languages(vec![Language::Spanish, Language::SpanishLA, Language::English])
        .build();
    assert_eq!(f.languages_to_str(), "spa,spl,eng");
    let empty = Filters::default().build();
    assert_eq!(empty.languages_to_str(), "");
}

#[test]
fn suffix_applied_only_to_listing_urls() {
    let filter = Filters::default().page(3).order_by(OrderBy::Rating).build();
    let mut listing = String::from("https://www.opensubtitles.org/en/search/idmovie-7");
    apply_listing_suffix(&mut listing, Some(&filter));
    assert_eq!(
        listing,
        "https://www.opensubtitles.org/en/search/idmovie-7/offset=80/sort-6/asc-0"
    );

    let mut plain = String::from("https://www.opensubtitles.org/en/search2?MovieName=heat");
    apply_listing_suffix(&mut plain, Some(&filter));
    assert_eq!(plain, "https://www.opensubtitles.org/en/search2?MovieName=heat");

    let mut unfiltered = String::from("https://www.opensubtitles.org/en/search/idmovie-7");
    apply_listing_suffix(&mut unfiltered, None);
    assert_eq!(unfiltered, "https://www.opensubtitles.org/en/search/idmovie-7");
}

#[test]
fn builder_defaults() {
    let f = Filters::default().build();
    assert_eq!(f.year, 0);
    assert!(f.languages.is_empty());
    assert_eq!(f.page, 1);
    assert!(matches!(f.order_by, OrderBy::Uploaded));
}

#[test]
fn language_codes() {
    assert_eq!(Language::English.code(), "eng");
    assert_eq!(Language::PortugueseBr.code(), "pob");
    assert_eq!(Language::French.code(), "fre");
    assert_eq!(Language::German.code(), "ger");
    assert_eq!(Language::Welsch.code(), "wel");
}

#[test]
fn language_lookup_ignores_case() {
    assert!(matches!(Language::from_name("English"), Some(Language::English)));
    assert!(matches!(Language::from_name("SPANISH LA"), Some(Language::SpanishLA)));
    assert!(matches!(Language::from_name("toki pona"), Some(Language::TokiPona)));
    assert!(Language::from_name("klingon").is_none());
    assert!(Language::from_name("").is_none());
}
