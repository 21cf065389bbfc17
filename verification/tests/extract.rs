use opensubs::extract::{
    RawCell, RawRow, movie_from_row, movies_from_rows, subtitle_from_row, subtitles_from_rows,
};
use opensubs::params::is_listing_url;
use opensubs::Page;

fn cell(texts: &[&str]) -> RawCell {
    RawCell {
        first_child_title: None,
        texts: texts.iter().map(|t| t.to_string()).collect(),
        first_span_texts: None,
    }
}

fn full_row(id: &str) -> RawRow {
    RawRow {
        id_attr: Some(id.to_string()),
        texts: vec!["The Movie".to_string(), "Release.Name".to_string()],
        cells: vec![
            cell(&["The Movie"]),
            RawCell {
                first_child_title: Some("French".to_string()),
                texts: vec!["fr".to_string()],
                first_span_texts: None,
            },
            cell(&["CD1"]),
            cell(&[" 10/03/24 12:00 "]),
            cell(&["150x"]),
            RawCell {
                first_child_title: None,
                texts: vec![],
                first_span_texts: Some(vec!["7.9".to_string()]),
            },
            cell(&[]),
            cell(&[]),
            cell(&[" uploaderguy "]),
        ],
    }
}

#[test]
fn pagination_parses_three_numbers() {
    let p = Page::from_text(Some("Showing 1 to 40 of 123 results"));
    assert_eq!(p, Page { from: 1, to: 40, total: 123 });
}

#[test]
fn pagination_defaults_on_few_numbers() {
    assert_eq!(Page::from_text(Some("no results")), Page { from: 0, to: 0, total: 0 });
    assert_eq!(Page::from_text(None), Page { from: 0, to: 0, total: 0 });
    assert_eq!(Page::from_text(Some("1 and 2")), Page { from: 0, to: 0, total: 0 });
}

#[test]
fn pagination_skips_fractional_tokens() {
    let p = Page::from_text(Some("Showing 1 to 40 of 123 (0.012 seconds)"));
    assert_eq!(p, Page { from: 1, to: 40, total: 123 });
}

#[test]
fn footer_row_is_excluded() {
    let mut row = full_row("ihtr99");
    assert!(subtitle_from_row(&row).is_none());
    row.id_attr = None;
    assert!(subtitle_from_row(&row).is_none());
}

#[test]
fn name_prefix_strips_to_numeric_id() {
    let row = full_row("name4821");
    let s = subtitle_from_row(&row).unwrap();
    assert_eq!(s.id, 4821);
    assert_eq!(s.download_link, "https://dl.opensubtitles.org/en/download/sub/4821");
}

#[test]
fn unparsable_id_defaults_to_zero() {
    let row = full_row("namegarbage");
    let s = subtitle_from_row(&row).unwrap();
    assert_eq!(s.id, 0);
}

#[test]
fn subtitle_fields_are_read_from_cells() {
    let row = full_row("name7");
    let s = subtitle_from_row(&row).unwrap();
    assert_eq!(s.movie, "The Movie");
    assert_eq!(s.name, Some("Release.Name".to_string()));
    assert_eq!(s.language, "French");
    assert_eq!(s.cd, "CD1");
    assert_eq!(s.uploaded, "10/03/24");
    assert_eq!(s.downloads, 150);
    assert_eq!(s.rating_tenths, 79);
    assert_eq!(s.uploader, Some("uploaderguy".to_string()));
}

#[test]
fn download_count_strips_x_and_defaults() {
    let mut row = full_row("name7");
    row.cells[4] = cell(&["150x"]);
    assert_eq!(subtitle_from_row(&row).unwrap().downloads, 150);
    row.cells[4] = cell(&["garbage"]);
    assert_eq!(subtitle_from_row(&row).unwrap().downloads, 0);
    row.cells[4] = cell(&[]);
    assert_eq!(subtitle_from_row(&row).unwrap().downloads, 0);
}

#[test]
fn rating_defaults_on_malformed_text() {
    let mut row = full_row("name7");
    row.cells[5].first_span_texts = Some(vec!["N/A".to_string()]);
    assert_eq!(subtitle_from_row(&row).unwrap().rating_tenths, 0);
    row.cells[5].first_span_texts = None;
    assert_eq!(subtitle_from_row(&row).unwrap().rating_tenths, 0);
    row.cells[5].first_span_texts = Some(vec!["10.0".to_string()]);
    assert_eq!(subtitle_from_row(&row).unwrap().rating_tenths, 100);
}

#[test]
fn missing_cells_degrade_to_defaults() {
    let row = RawRow {
        id_attr: Some("name5".to_string()),
        texts: vec!["Bare".to_string()],
        cells: vec![],
    };
    let s = subtitle_from_row(&row).unwrap();
    assert_eq!(s.movie, "Bare");
    assert_eq!(s.name, None);
    assert_eq!(s.language, "Not Available");
    assert_eq!(s.cd, "");
    assert_eq!(s.uploaded, "");
    assert_eq!(s.downloads, 0);
    assert_eq!(s.rating_tenths, 0);
    assert_eq!(s.uploader, None);
}

#[test]
fn watch_online_fragments_are_dropped() {
    let row = RawRow {
        id_attr: Some("name5".to_string()),
        texts: vec!["Watch online now".to_string(), "Actual\nTitle\t".to_string()],
        cells: vec![],
    };
    let s = subtitle_from_row(&row).unwrap();
    assert_eq!(s.movie, "ActualTitle");
    assert_eq!(s.name, None);
}

#[test]
fn subtitle_rows_keep_order_and_skip_footers() {
    let rows = vec![full_row("name1"), full_row("ihtr2"), full_row("name3")];
    let subs = subtitles_from_rows(&rows);
    assert_eq!(subs.len(), 2);
    assert_eq!(subs[0].id, 1);
    assert_eq!(subs[1].id, 3);
}

#[test]
fn movie_row_derives_listing_url() {
    let row = RawRow {
        id_attr: Some("name1196".to_string()),
        texts: vec!["The Godfather (1972)".to_string()],
        cells: vec![],
    };
    let m = movie_from_row(&row, "fre,ger", "", "/sort-7/asc-0").unwrap();
    assert_eq!(m.id, 1196);
    assert_eq!(m.name, "The Godfather (1972)");
    assert_eq!(
        m.subtitles_link,
        "https://www.opensubtitles.org/en/search/sublanguageid-fre,ger/idmovie-1196/sort-7/asc-0"
    );
    assert!(is_listing_url(&m.subtitles_link));
}

#[test]
fn movie_rows_without_id_are_skipped() {
    let with_id = RawRow {
        id_attr: Some("7".to_string()),
        texts: vec!["A".to_string()],
        cells: vec![],
    };
    let without_id = RawRow { id_attr: None, texts: vec!["B".to_string()], cells: vec![] };
    let movies = movies_from_rows(&vec![without_id, with_id], "all", "/offset=40", "/sort-5/asc-0");
    assert_eq!(movies.len(), 1);
    assert_eq!(movies[0].id, 7);
    assert_eq!(
        movies[0].subtitles_link,
        "https://www.opensubtitles.org/en/search/sublanguageid-all/idmovie-7/offset=40/sort-5/asc-0"
    );
}
