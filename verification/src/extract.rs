//! Turning raw table rows into typed records. A raw row holds, as plain
//! values, exactly what the extractor reads from a result-table row: the
//! row's id attribute, its first text fragments, and its data cells. The
//! functions here are total: a missing or malformed piece degrades to a
//! default value and never fails.
use vstd::prelude::*;
use vstd::string::*;

use crate::model::{Movie, MovieV, Subtitle, SubtitleV, spec_download_link, spec_movie_link};

use crate::text::{
    all_digits, contains_sub, digit_run_end, digit_val, digits_val, drop2, is_digit,
    is_digit_char, join_with, lemma_digit_run_end, lemma_digit_run_end_unique, parse_digit_run,
    parse_u32_or_zero, parse_u64_or_zero, spec_contains, spec_drop2, spec_join,
    spec_parse_u32_or_zero, spec_parse_u64_or_zero, spec_starts_with, spec_trim, starts_with,
    trim, view_opt,
};

verus! {

/// What the extractor reads from one data cell of a result-table row.
#[derive(Debug)]
pub struct RawCell {
    /// The `title` attribute of the cell's first child element, if the cell
    /// has a child element carrying one.
    pub first_child_title: Option<String>,
    /// The cell's text fragments, in document order.
    pub texts: Vec<String>,
    /// The text fragments of the first `span` inside the cell, if any.
    pub first_span_texts: Option<Vec<String>>,
}

/// What the extractor reads from one result-table row.
#[derive(Debug)]
pub struct RawRow {
    /// The row's `id` attribute, if present.
    pub id_attr: Option<String>,
    /// The row's text fragments, in document order.
    pub texts: Vec<String>,
    /// The row's data cells, in order.
    pub cells: Vec<RawCell>,
}

/// The mathematical view of a [`RawCell`].
#[verifier::ext_equal]
pub struct RawCellV {
    pub first_child_title: Option<Seq<char>>,
    pub texts: Seq<Seq<char>>,
    pub first_span_texts: Option<Seq<Seq<char>>>,
}

/// The mathematical view of a [`RawRow`].
#[verifier::ext_equal]
pub struct RawRowV {
    pub id_attr: Option<Seq<char>>,
    pub texts: Seq<Seq<char>>,
    pub cells: Seq<RawCellV>,
}

impl View for RawCell {
    type V = RawCellV;

    open spec fn view(&self) -> RawCellV {
        RawCellV {
            first_child_title: view_opt(self.first_child_title),
            texts: self.texts.deep_view(),
            first_span_texts: match self.first_span_texts {
                Some(v) => Some(v.deep_view()),
                None => None,
            },
        }
    }
}

impl DeepView for RawCell {
    type V = RawCellV;

    open spec fn deep_view(&self) -> RawCellV {
        self.view()
    }
}

impl View for RawRow {
    type V = RawRowV;

    open spec fn view(&self) -> RawRowV {
        RawRowV {
            id_attr: view_opt(self.id_attr),
            texts: self.texts.deep_view(),
            cells: self.cells.deep_view(),
        }
    }
}

impl DeepView for RawRow {
    type V = RawRowV;

    open spec fn deep_view(&self) -> RawRowV {
        self.view()
    }
}

/// The data rows of a result table: everything after the header row.
pub open spec fn spec_body_rows(rows: Seq<RawRowV>) -> Seq<RawRowV> {
    if rows.len() > 0 {
        rows.skip(1)
    } else {
        rows
    }
}

/// The pagination message of a result page: the joined text of the second
/// `span` under the message element, when there is one.
pub open spec fn spec_msg_text(spans: Seq<Seq<Seq<char>>>) -> Option<Seq<char>> {
    if spans.len() >= 2 {
        Some(spec_join(spans[1], " "@))
    } else {
        None
    }
}

/// A row text fragment is kept unless it belongs to a streaming link.
pub open spec fn keep_frag(t: Seq<char>) -> bool {
    !spec_contains(t, "Watch online"@)
}

/// The kept fragments among the first two text fragments of a row.
pub open spec fn spec_fragments(texts: Seq<Seq<char>>) -> Seq<Seq<char>> {
    if texts.len() == 0 {
        Seq::empty()
    } else {
        let a: Seq<Seq<char>> = if keep_frag(texts[0]) {
            seq![texts[0]]
        } else {
            Seq::empty()
        };
        if texts.len() == 1 {
            a
        } else {
            a + (if keep_frag(texts[1]) {
                seq![texts[1]]
            } else {
                Seq::<Seq<char>>::empty()
            })
        }
    }
}

/// The movie title of a row: the first kept fragment, with newlines and
/// tabs removed; empty when no fragment is kept.
pub open spec fn spec_movie_title(texts: Seq<Seq<char>>) -> Seq<char> {
    let f = spec_fragments(texts);
    if f.len() > 0 {
        spec_drop2(f[0], '\n', '\t')
    } else {
        Seq::empty()
    }
}

/// The release name of a row: the second kept fragment, with newlines and
/// tabs removed, when there is one.
pub open spec fn spec_release_name(texts: Seq<Seq<char>>) -> Option<Seq<char>> {
    let f = spec_fragments(texts);
    if f.len() > 1 {
        Some(spec_drop2(f[1], '\n', '\t'))
    } else {
        None
    }
}

fn kept_fragments(texts: &Vec<String>) -> (r: Vec<String>)
    ensures
        r.deep_view() == spec_fragments(texts.deep_view()),
{
    let mut out: Vec<String> = Vec::new();
    if texts.len() >= 1 && !contains_sub(texts[0].as_str(), "Watch online") {
        out.push(texts[0].clone());
    }
    if texts.len() >= 2 && !contains_sub(texts[1].as_str(), "Watch online") {
        out.push(texts[1].clone());
    }
    proof {
        assert(out.deep_view() =~= spec_fragments(texts.deep_view()));
    }
    out
}

/// The movie title of a row's text fragments.
pub fn movie_title(texts: &Vec<String>) -> (r: String)
    ensures
        r@ == spec_movie_title(texts.deep_view()),
{
    let f = kept_fragments(texts);
    if f.len() > 0 {
        proof {
            assert(f.deep_view()[0] == f@[0]@);
        }
        drop2(f[0].as_str(), '\n', '\t')
    } else {
        String::new()
    }
}

/// The release name of a row's text fragments, when one is present.
pub fn release_name(texts: &Vec<String>) -> (r: Option<String>)
    ensures
        view_opt(r) == spec_release_name(texts.deep_view()),
{
    let f = kept_fragments(texts);
    if f.len() > 1 {
        proof {
            assert(f.deep_view()[1] == f@[1]@);
        }
        Some(drop2(f[1].as_str(), '\n', '\t'))
    } else {
        None
    }
}

/// A row id with a leading `name` marker stripped.
pub open spec fn spec_strip_name(id: Seq<char>) -> Seq<char> {
    if spec_starts_with(id, "name"@) {
        id.skip(4)
    } else {
        id
    }
}

/// Strip a leading `name` marker from a row id.
pub fn strip_name(id: &str) -> (r: &str)
    ensures
        r@ == spec_strip_name(id@),
{
    proof {
        reveal_strlit("name");
    }
    if starts_with(id, "name") {
        let n = id.unicode_len();
        let r = id.substring_char(4, n);
        proof {
            assert(id@.subrange(4, n as int) =~= id@.skip(4));
        }
        r
    } else {
        id
    }
}

/// The numeric id of a subtitle-listing row: `None` when the row has no id
/// attribute or carries the footer marker `ihtr` and is to be skipped;
/// otherwise the id with any `name` prefix stripped, read as a number and
/// defaulting to zero.
pub open spec fn spec_sub_row_id(id_attr: Option<Seq<char>>) -> Option<u64> {
    match id_attr {
        Some(id) => if spec_contains(id, "ihtr"@) {
            None
        } else {
            Some(spec_parse_u64_or_zero(spec_strip_name(id)))
        },
        None => None,
    }
}

/// The numeric id of a disambiguation row: as for listing rows, but without
/// the footer-marker exclusion.
pub open spec fn spec_movie_row_id(id_attr: Option<Seq<char>>) -> Option<u64> {
    match id_attr {
        Some(id) => Some(spec_parse_u64_or_zero(spec_strip_name(id))),
        None => None,
    }
}

/// Read a listing row's id attribute, excluding footer rows.
pub fn sub_row_id(id_attr: &Option<String>) -> (r: Option<u64>)
    ensures
        r == spec_sub_row_id(view_opt(*id_attr)),
{
    match id_attr {
        Some(id) => {
            if contains_sub(id.as_str(), "ihtr") {
                None
            } else {
                Some(parse_u64_or_zero(strip_name(id.as_str())))
            }
        },
        None => None,
    }
}

/// Read a disambiguation row's id attribute.
pub fn movie_row_id(id_attr: &Option<String>) -> (r: Option<u64>)
    ensures
        r == spec_movie_row_id(view_opt(*id_attr)),
{
    match id_attr {
        Some(id) => Some(parse_u64_or_zero(strip_name(id.as_str()))),
        None => None,
    }
}

/// The language of a row: the `title` attribute of the first data cell's
/// first child element, or the site's placeholder when absent.
pub open spec fn spec_language(cells: Seq<RawCellV>) -> Seq<char> {
    if cells.len() >= 2 {
        match cells[1].first_child_title {
            Some(t) => t,
            None => "Not Available"@,
        }
    } else {
        "Not Available"@
    }
}

/// The disc label of a row: the joined, trimmed text of the second data
/// cell; empty when the cell is absent.
pub open spec fn spec_cd(cells: Seq<RawCellV>) -> Seq<char> {
    if cells.len() >= 3 {
        spec_trim(spec_join(cells[2].texts, " "@))
    } else {
        Seq::empty()
    }
}

/// The upload date of a row: the joined, trimmed text of the third data
/// cell, cut to its first eight characters to keep only the DD/MM/YY form.
pub open spec fn spec_uploaded(cells: Seq<RawCellV>) -> Seq<char> {
    if cells.len() >= 4 {
        let d = spec_trim(spec_join(cells[3].texts, " "@));
        if d.len() > 8 {
            d.take(8)
        } else {
            d
        }
    } else {
        Seq::empty()
    }
}

/// The download count of a row: the first text fragment of the fourth data
/// cell, trimmed, with every `x` removed, read as a number; zero when the
/// cell is absent or the text is not a number.
pub open spec fn spec_downloads(cells: Seq<RawCellV>) -> u32 {
    if cells.len() >= 5 && cells[4].texts.len() > 0 {
        spec_parse_u32_or_zero(spec_drop2(spec_trim(cells[4].texts[0]), 'x', 'x'))
    } else {
        0
    }
}

/// A rating text read as a fixed-point number of tenths: a digit run,
/// optionally followed by a dot and more digits, of which the first names
/// the tenths; any other shape, or a value out of range, reads as zero.
pub open spec fn spec_rating_tenths(s: Seq<char>) -> u32 {
    let p = digit_run_end(s, 0);
    if p == 0 {
        0
    } else if p == s.len() {
        if digits_val(s) * 10 <= u32::MAX {
            (digits_val(s) * 10) as u32
        } else {
            0
        }
    } else if s[p] == '.' && all_digits(s.skip(p + 1)) {
        let frac = s.skip(p + 1);
        let tenth = if frac.len() > 0 {
            digit_val(frac[0])
        } else {
            0
        };
        if digits_val(s.take(p)) * 10 + tenth <= u32::MAX {
            (digits_val(s.take(p)) * 10 + tenth) as u32
        } else {
            0
        }
    } else {
        0
    }
}

/// Read a rating text as tenths.
pub fn rating_tenths(s: &str) -> (r: u32)
    ensures
        r == spec_rating_tenths(s@),
{
    let n = s.unicode_len();
    let mut p: usize = 0;
    while p < n && is_digit_char(s.get_char(p))
        invariant
            p <= n,
            n == s@.len(),
            forall|k: int| 0 <= k < p ==> is_digit(#[trigger] s@[k]),
        decreases n - p,
    {
        p += 1;
    }
    proof {
        lemma_digit_run_end_unique(s@, 0, p as int);
    }
    if p == 0 {
        return 0;
    }
    if p == n {
        proof {
            assert(s@.subrange(0, n as int) =~= s@);
        }
        return match parse_digit_run(s, 0, n) {
            Some(v) => {
                if v <= u32::MAX / 10 {
                    v * 10
                } else {
                    0
                }
            },
            None => 0,
        };
    }
    if s.get_char(p) != '.' {
        return 0;
    }
    let mut m: usize = p + 1;
    while m < n && is_digit_char(s.get_char(m))
        invariant
            p + 1 <= m <= n,
            n == s@.len(),
            forall|k: int| p + 1 <= k < m ==> is_digit(#[trigger] s@[k]),
        decreases n - m,
    {
        m += 1;
    }
    if m < n {
        proof {
            assert(s@.skip(p + 1)[m - p - 1] == s@[m as int]);
            assert(!all_digits(s@.skip(p + 1)));
        }
        return 0;
    }
    proof {
        assert(forall|j: int|
            0 <= j < s@.skip(p + 1).len() ==> #[trigger] s@.skip(p + 1)[j] == s@[p + 1 + j]);
        assert(all_digits(s@.skip(p + 1)));
    }
    let tenth: u32 = if p + 1 < n {
        let c = s.get_char(p + 1);
        proof {
            assert(s@.skip(p + 1)[0] == s@[p + 1]);
        }
        (c as u32) - ('0' as u32)
    } else {
        0
    };
    match parse_digit_run(s, 0, p) {
        Some(v) => {
            let total: u64 = (v as u64) * 10 + (tenth as u64);
            if total <= u32::MAX as u64 {
                total as u32
            } else {
                0
            }
        },
        None => 0,
    }
}

/// The rating of a row, in tenths: the first text of the first `span` of
/// the fifth data cell, read as a decimal; zero when absent or malformed.
pub open spec fn spec_rating(cells: Seq<RawCellV>) -> u32 {
    if cells.len() >= 6 {
        match cells[5].first_span_texts {
            Some(sts) => if sts.len() > 0 {
                spec_rating_tenths(sts[0])
            } else {
                0
            },
            None => 0,
        }
    } else {
        0
    }
}

/// The uploader of a row: the joined, trimmed text of the eighth data cell;
/// absent when the cell is missing or its text is empty.
pub open spec fn spec_uploader(cells: Seq<RawCellV>) -> Option<Seq<char>> {
    if cells.len() >= 9 {
        let u = spec_trim(spec_join(cells[8].texts, " "@));
        if u.len() == 0 {
            None
        } else {
            Some(u)
        }
    } else {
        None
    }
}

/// Read a row's language cell.
pub fn cell_language(cells: &Vec<RawCell>) -> (r: String)
    ensures
        r@ == spec_language(cells.deep_view()),
{
    if cells.len() >= 2 {
        proof {
            assert(cells.deep_view()[1] == cells@[1]@);
        }
        match &cells[1].first_child_title {
            Some(t) => t.clone(),
            None => String::from_str("Not Available"),
        }
    } else {
        String::from_str("Not Available")
    }
}

/// Read a row's disc-label cell.
pub fn cell_cd(cells: &Vec<RawCell>) -> (r: String)
    ensures
        r@ == spec_cd(cells.deep_view()),
{
    if cells.len() >= 3 {
        proof {
            assert(cells.deep_view()[2] == cells@[2]@);
        }
        let j = join_with(&cells[2].texts, " ");
        String::from_str(trim(j.as_str()))
    } else {
        String::new()
    }
}

/// Read a row's upload-date cell.
pub fn cell_uploaded(cells: &Vec<RawCell>) -> (r: String)
    ensures
        r@ == spec_uploaded(cells.deep_view()),
{
    if cells.len() >= 4 {
        proof {
            assert(cells.deep_view()[3] == cells@[3]@);
        }
        let j = join_with(&cells[3].texts, " ");
        let t = trim(j.as_str());
        let n = t.unicode_len();
        if n > 8 {
            String::from_str(t.substring_char(0, 8))
        } else {
            String::from_str(t)
        }
    } else {
        String::new()
    }
}

/// Read a row's download-count cell.
pub fn cell_downloads(cells: &Vec<RawCell>) -> (r: u32)
    ensures
        r == spec_downloads(cells.deep_view()),
{
    if cells.len() >= 5 {
        proof {
            assert(cells.deep_view()[4] == cells@[4]@);
        }
        if cells[4].texts.len() > 0 {
            proof {
                assert(cells@[4].texts.deep_view()[0] == cells@[4].texts@[0]@);
            }
            let t = trim(cells[4].texts[0].as_str());
            let u = drop2(t, 'x', 'x');
            parse_u32_or_zero(u.as_str())
        } else {
            0
        }
    } else {
        0
    }
}

/// Read a row's rating cell, in tenths.
pub fn cell_rating(cells: &Vec<RawCell>) -> (r: u32)
    ensures
        r == spec_rating(cells.deep_view()),
{
    if cells.len() >= 6 {
        proof {
            assert(cells.deep_view()[5] == cells@[5]@);
        }
        match &cells[5].first_span_texts {
            Some(sts) => {
                if sts.len() > 0 {
                    proof {
                        assert(sts.deep_view()[0] == sts@[0]@);
                    }
                    rating_tenths(sts[0].as_str())
                } else {
                    0
                }
            },
            None => 0,
        }
    } else {
        0
    }
}

/// Read a row's uploader cell.
pub fn cell_uploader(cells: &Vec<RawCell>) -> (r: Option<String>)
    ensures
        view_opt(r) == spec_uploader(cells.deep_view()),
{
    if cells.len() >= 9 {
        proof {
            assert(cells.deep_view()[8] == cells@[8]@);
        }
        let j = join_with(&cells[8].texts, " ");
        let t = trim(j.as_str());
        if t.unicode_len() == 0 {
            None
        } else {
            Some(String::from_str(t))
        }
    } else {
        None
    }
}

/// The subtitle record of a listing row, or nothing when the row is to be
/// skipped.
pub open spec fn spec_subtitle_from_row(r: RawRowV) -> Option<SubtitleV> {
    match spec_sub_row_id(r.id_attr) {
        None => None,
        Some(id) => Some(
            SubtitleV {
                id,
                movie: spec_movie_title(r.texts),
                name: spec_release_name(r.texts),
                language: spec_language(r.cells),
                cd: spec_cd(r.cells),
                uploaded: spec_uploaded(r.cells),
                downloads: spec_downloads(r.cells),
                rating_tenths: spec_rating(r.cells),
                uploader: spec_uploader(r.cells),
                download_link: spec_download_link(id),
            },
        ),
    }
}

/// Turn one listing row into a subtitle record; a row without an id, or a
/// footer row, yields nothing.
pub fn subtitle_from_row(row: &RawRow) -> (r: Option<Subtitle>)
    ensures
        (match r {
            Some(s) => Some(s@),
            None => None,
        }) == spec_subtitle_from_row(row@),
{
    match sub_row_id(&row.id_attr) {
        None => None,
        Some(id) => Some(
            Subtitle::new(
                id,
                movie_title(&row.texts),
                release_name(&row.texts),
                cell_language(&row.cells),
                cell_cd(&row.cells),
                cell_uploaded(&row.cells),
                cell_downloads(&row.cells),
                cell_rating(&row.cells),
                cell_uploader(&row.cells),
            ),
        ),
    }
}

/// The movie record of a disambiguation row, or nothing when the row has no
/// id attribute.
pub open spec fn spec_movie_from_row(
    r: RawRowV,
    languages: Seq<char>,
    offset: Seq<char>,
    sort: Seq<char>,
) -> Option<MovieV> {
    match spec_movie_row_id(r.id_attr) {
        None => None,
        Some(id) => Some(
            MovieV {
                id,
                name: spec_movie_title(r.texts),
                subtitles_link: spec_movie_link(id, languages, offset, sort),
            },
        ),
    }
}

/// Turn one disambiguation row into a movie record, deriving its listing
/// URL from the given language codes and suffixes.
pub fn movie_from_row(row: &RawRow, languages: &str, offset: &str, sort: &str) -> (r: Option<
    Movie,
>)
    ensures
        (match r {
            Some(m) => Some(m@),
            None => None,
        }) == spec_movie_from_row(row@, languages@, offset@, sort@),
{
    match movie_row_id(&row.id_attr) {
        None => None,
        Some(id) => Some(Movie::new(id, movie_title(&row.texts), languages, offset, sort)),
    }
}

/// The subtitle records of a sequence of listing rows, in order, with the
/// skipped rows left out.
pub open spec fn spec_subtitles_from_rows(rows: Seq<RawRowV>) -> Seq<SubtitleV>
    decreases rows.len(),
{
    if rows.len() == 0 {
        Seq::empty()
    } else {
        spec_subtitles_from_rows(rows.drop_last()) + (match spec_subtitle_from_row(rows.last()) {
            Some(s) => seq![s],
            None => Seq::<SubtitleV>::empty(),
        })
    }
}

/// Turn the rows of a listing table into subtitle records.
pub fn subtitles_from_rows(rows: &Vec<RawRow>) -> (r: Vec<Subtitle>)
    ensures
        r.deep_view() == spec_subtitles_from_rows(rows.deep_view()),
{
    let mut out: Vec<Subtitle> = Vec::new();
    let mut i: usize = 0;
    proof {
        assert(out.deep_view() =~= spec_subtitles_from_rows(rows.deep_view().take(0)));
    }
    while i < rows.len()
        invariant
            i <= rows.len(),
            rows.deep_view().len() == rows.len(),
            out.deep_view() == spec_subtitles_from_rows(rows.deep_view().take(i as int)),
        decreases rows.len() - i,
    {
        proof {
            assert(rows.deep_view().take(i + 1).drop_last() =~= rows.deep_view().take(i as int));
            assert(rows.deep_view().take(i + 1).last() == rows@[i as int]@);
        }
        match subtitle_from_row(&rows[i]) {
            Some(s) => {
                let ghost prev = out.deep_view();
                out.push(s);
                proof {
                    assert(out.deep_view() =~= prev + seq![s@]);
                }
            },
            None => {
                proof {
                    assert(out.deep_view() =~= out.deep_view() + Seq::<SubtitleV>::empty());
                }
            },
        }
        i += 1;
    }
    proof {
        assert(rows.deep_view().take(rows.len() as int) =~= rows.deep_view());
    }
    out
}

/// The movie records of a sequence of disambiguation rows, in order, with
/// rows lacking an id left out.
pub open spec fn spec_movies_from_rows(
    rows: Seq<RawRowV>,
    languages: Seq<char>,
    offset: Seq<char>,
    sort: Seq<char>,
) -> Seq<MovieV>
    decreases rows.len(),
{
    if rows.len() == 0 {
        Seq::empty()
    } else {
        spec_movies_from_rows(rows.drop_last(), languages, offset, sort) + (match spec_movie_from_row(
            rows.last(),
            languages,
            offset,
            sort,
        ) {
            Some(m) => seq![m],
            None => Seq::<MovieV>::empty(),
        })
    }
}

/// Every subtitle extracted from listing rows carries the download URL
/// derived from its own id.
pub proof fn lemma_download_links_derived(rows: Seq<RawRowV>)
    ensures
        forall|i: int|
            0 <= i < spec_subtitles_from_rows(rows).len() ==> (#[trigger] spec_subtitles_from_rows(
                rows,
            )[i]).download_link == spec_download_link(spec_subtitles_from_rows(rows)[i].id),
    decreases rows.len(),
{
    if rows.len() > 0 {
        lemma_download_links_derived(rows.drop_last());
    }
}

/// Every movie extracted from disambiguation rows carries the listing URL
/// derived from its own id and the given language codes and suffixes.
pub proof fn lemma_movie_links_derived(
    rows: Seq<RawRowV>,
    languages: Seq<char>,
    offset: Seq<char>,
    sort: Seq<char>,
)
    ensures
        forall|i: int|
            0 <= i < spec_movies_from_rows(rows, languages, offset, sort).len() ==> (
            #[trigger] spec_movies_from_rows(rows, languages, offset, sort)[i]).subtitles_link
                == spec_movie_link(
                spec_movies_from_rows(rows, languages, offset, sort)[i].id,
                languages,
                offset,
                sort,
            ),
    decreases rows.len(),
{
    if rows.len() > 0 {
        lemma_movie_links_derived(rows.drop_last(), languages, offset, sort);
        let prev = spec_movies_from_rows(rows.drop_last(), languages, offset, sort);
        let all = spec_movies_from_rows(rows, languages, offset, sort);
        assert forall|i: int| 0 <= i < all.len() implies (#[trigger] all[i]).subtitles_link
            == spec_movie_link(all[i].id, languages, offset, sort) by {
            if i < prev.len() {
                assert(all[i] == prev[i]);
            }
        }
    }
}

/// Turn the rows of a disambiguation table into movie records.
pub fn movies_from_rows(rows: &Vec<RawRow>, languages: &str, offset: &str, sort: &str) -> (r:
    Vec<Movie>)
    ensures
        r.deep_view() == spec_movies_from_rows(rows.deep_view(), languages@, offset@, sort@),
{
    let mut out: Vec<Movie> = Vec::new();
    let mut i: usize = 0;
    proof {
        assert(out.deep_view() =~= spec_movies_from_rows(
            rows.deep_view().take(0),
            languages@,
            offset@,
            sort@,
        ));
    }
    while i < rows.len()
        invariant
            i <= rows.len(),
            rows.deep_view().len() == rows.len(),
            out.deep_view() == spec_movies_from_rows(
                rows.deep_view().take(i as int),
                languages@,
                offset@,
                sort@,
            ),
        decreases rows.len() - i,
    {
        proof {
            assert(rows.deep_view().take(i + 1).drop_last() =~= rows.deep_view().take(i as int));
            assert(rows.deep_view().take(i + 1).last() == rows@[i as int]@);
        }
        match movie_from_row(&rows[i], languages, offset, sort) {
            Some(m) => {
                let ghost prev = out.deep_view();
                out.push(m);
                proof {
                    assert(out.deep_view() =~= prev + seq![m@]);
                }
            },
            None => {
                proof {
                    assert(out.deep_view() =~= out.deep_view() + Seq::<MovieV>::empty());
                }
            },
        }
        i += 1;
    }
    proof {
        assert(rows.deep_view().take(rows.len() as int) =~= rows.deep_view());
    }
    out
}

} // verus!
