//! Character-level text utilities: substring search, trimming, joining,
//! decimal formatting and parsing. Everything is specified over `Seq<char>`
//! views.
use vstd::prelude::*;
use vstd::string::*;

verus! {

/// Relies on `String::push`: appends one character to the string.
#[verifier::external_body]
pub(crate) fn push_char(s: &mut String, c: char)
    ensures
        final(s)@ == old(s)@.push(c),
{
    s.push(c);
}

/// The view of an optional string.
pub open spec fn view_opt(o: Option<String>) -> Option<Seq<char>> {
    match o {
        Some(s) => Some(s@),
        None => None,
    }
}

/// `pat` occurs in `s` as a contiguous run of characters.
pub open spec fn spec_contains(s: Seq<char>, pat: Seq<char>) -> bool {
    exists|i: int| 0 <= i && i + pat.len() <= s.len() && #[trigger] s.subrange(i, i + pat.len())
        == pat
}

/// `s` begins with the characters of `pre`.
pub open spec fn spec_starts_with(s: Seq<char>, pre: Seq<char>) -> bool {
    pre.len() <= s.len() && s.subrange(0, pre.len() as int) == pre
}

/// Whether `pat` stands at position `i` of `s`.
fn matches_at(s: &str, pat: &str, i: usize) -> (r: bool)
    requires
        i + pat@.len() <= s@.len(),
        s@.len() <= usize::MAX,
    ensures
        r == (s@.subrange(i as int, i + pat@.len()) == pat@),
{
    let m = pat.unicode_len();
    let mut j: usize = 0;
    while j < m
        invariant
            j <= m,
            m == pat@.len(),
            i + m <= s@.len(),
            s@.len() <= usize::MAX,
            forall|k: int| 0 <= k < j ==> s@[i + k] == pat@[k],
        decreases m - j,
    {
        if s.get_char(i + j) != pat.get_char(j) {
            proof {
                assert(s@.subrange(i as int, i + pat@.len())[j as int] != pat@[j as int]);
            }
            return false;
        }
        j += 1;
    }
    proof {
        assert(s@.subrange(i as int, i + pat@.len()) =~= pat@);
    }
    true
}

/// Substring search by characters.
pub fn contains_sub(s: &str, pat: &str) -> (r: bool)
    ensures
        r == spec_contains(s@, pat@),
{
    let n = s.unicode_len();
    let m = pat.unicode_len();
    if m > n {
        return false;
    }
    if m == 0 {
        proof {
            assert(s@.subrange(0, 0 + pat@.len() as int) =~= pat@);
        }
        return true;
    }
    let mut i: usize = 0;
    while i <= n - m
        invariant
            0 < m <= n,
            n == s@.len(),
            m == pat@.len(),
            i <= n - m + 1,
            forall|k: int| 0 <= k < i ==> #[trigger] s@.subrange(k, k + pat@.len()) != pat@,
        decreases n - i,
    {
        if matches_at(s, pat, i) {
            return true;
        }
        i += 1;
    }
    false
}

/// Prefix test by characters.
pub fn starts_with(s: &str, pre: &str) -> (r: bool)
    ensures
        r == spec_starts_with(s@, pre@),
{
    let n = s.unicode_len();
    let m = pre.unicode_len();
    if m > n {
        return false;
    }
    matches_at(s, pre, 0)
}

/// Character-for-character string equality.
pub fn str_eq(a: &str, b: &str) -> (r: bool)
    ensures
        r == (a@ == b@),
{
    let n = a.unicode_len();
    if n != b.unicode_len() {
        return false;
    }
    proof {
        assert(a@.subrange(0, b@.len() as int) =~= a@);
    }
    matches_at(a, b, 0)
}

/// Whitespace for trimming purposes: space, tab, newline, carriage return.
pub open spec fn is_ws(c: char) -> bool {
    c == ' ' || c == '\t' || c == '\n' || c == '\r'
}

fn is_ws_char(c: char) -> (r: bool)
    ensures
        r == is_ws(c),
{
    c == ' ' || c == '\t' || c == '\n' || c == '\r'
}

/// `s` with leading whitespace removed.
pub open spec fn spec_trim_start(s: Seq<char>) -> Seq<char>
    decreases s.len(),
{
    if s.len() > 0 && is_ws(s[0]) {
        spec_trim_start(s.drop_first())
    } else {
        s
    }
}

/// `s` with trailing whitespace removed.
pub open spec fn spec_trim_end(s: Seq<char>) -> Seq<char>
    decreases s.len(),
{
    if s.len() > 0 && is_ws(s.last()) {
        spec_trim_end(s.drop_last())
    } else {
        s
    }
}

/// `s` with whitespace removed at both ends.
pub open spec fn spec_trim(s: Seq<char>) -> Seq<char> {
    spec_trim_end(spec_trim_start(s))
}

proof fn lemma_trim_start_skip(s: Seq<char>, a: int)
    requires
        0 <= a <= s.len(),
        forall|k: int| 0 <= k < a ==> is_ws(s[k]),
        a == s.len() || !is_ws(s[a]),
    ensures
        spec_trim_start(s) == s.skip(a),
    decreases a,
{
    if a == 0 {
        assert(s.skip(0) =~= s);
    } else {
        lemma_trim_start_skip(s.drop_first(), a - 1);
        assert(s.drop_first().skip(a - 1) =~= s.skip(a));
    }
}

proof fn lemma_trim_end_take(s: Seq<char>, b: int)
    requires
        0 <= b <= s.len(),
        forall|k: int| b <= k < s.len() ==> is_ws(s[k]),
        b == 0 || !is_ws(s[b - 1]),
    ensures
        spec_trim_end(s) == s.take(b),
    decreases s.len() - b,
{
    if b == s.len() {
        assert(s.take(b) =~= s);
    } else {
        lemma_trim_end_take(s.drop_last(), b);
        assert(s.drop_last().take(b) =~= s.take(b));
    }
}

/// Remove whitespace from both ends of `s`.
pub fn trim(s: &str) -> (r: &str)
    ensures
        r@ == spec_trim(s@),
{
    let n = s.unicode_len();
    let mut a: usize = 0;
    while a < n && is_ws_char(s.get_char(a))
        invariant
            a <= n,
            n == s@.len(),
            forall|k: int| 0 <= k < a ==> is_ws(s@[k]),
        decreases n - a,
    {
        a += 1;
    }
    let mut b: usize = n;
    while b > a && is_ws_char(s.get_char(b - 1))
        invariant
            a <= b <= n,
            n == s@.len(),
            forall|k: int| b <= k < n ==> is_ws(s@[k]),
        decreases b,
    {
        b -= 1;
    }
    proof {
        lemma_trim_start_skip(s@, a as int);
        let t = s@.skip(a as int);
        lemma_trim_end_take(t, b - a);
        assert(t.take(b - a) =~= s@.subrange(a as int, b as int));
    }
    s.substring_char(a, b)
}

/// `s` without any occurrence of `a` or `b`.
pub open spec fn spec_drop2(s: Seq<char>, a: char, b: char) -> Seq<char>
    decreases s.len(),
{
    if s.len() == 0 {
        Seq::empty()
    } else {
        let rest = spec_drop2(s.drop_last(), a, b);
        if s.last() == a || s.last() == b {
            rest
        } else {
            rest.push(s.last())
        }
    }
}

/// Remove every occurrence of the characters `a` and `b` from `s`.
pub fn drop2(s: &str, a: char, b: char) -> (r: String)
    ensures
        r@ == spec_drop2(s@, a, b),
{
    let n = s.unicode_len();
    let mut out = String::new();
    let mut i: usize = 0;
    while i < n
        invariant
            i <= n,
            n == s@.len(),
            out@ == spec_drop2(s@.take(i as int), a, b),
        decreases n - i,
    {
        let c = s.get_char(i);
        proof {
            assert(s@.take(i + 1).drop_last() =~= s@.take(i as int));
            assert(s@.take(i + 1).last() == s@[i as int]);
        }
        if c != a && c != b {
            push_char(&mut out, c);
        }
        i += 1;
    }
    proof {
        assert(s@.take(n as int) =~= s@);
    }
    out
}

/// The parts joined with `sep` between consecutive parts.
pub open spec fn spec_join(parts: Seq<Seq<char>>, sep: Seq<char>) -> Seq<char>
    decreases parts.len(),
{
    if parts.len() == 0 {
        Seq::empty()
    } else if parts.len() == 1 {
        parts[0]
    } else {
        spec_join(parts.drop_last(), sep) + sep + parts.last()
    }
}

/// Join the strings of `parts` with `sep` between consecutive elements.
pub fn join_with(parts: &Vec<String>, sep: &str) -> (r: String)
    ensures
        r@ == spec_join(parts.deep_view(), sep@),
{
    let mut out = String::new();
    let mut i: usize = 0;
    proof {
        assert(parts.deep_view().take(0) =~= Seq::<Seq<char>>::empty());
    }
    while i < parts.len()
        invariant
            i <= parts.len(),
            parts.deep_view().len() == parts.len(),
            forall|k: int|
                0 <= k < parts.len() ==> parts.deep_view()[k] == #[trigger] parts@[k]@,
            out@ == spec_join(parts.deep_view().take(i as int), sep@),
        decreases parts.len() - i,
    {
        if i > 0 {
            out.append(sep);
        }
        out.append(parts[i].as_str());
        proof {
            assert(parts.deep_view().take(i + 1).drop_last() =~= parts.deep_view().take(
                i as int,
            ));
            assert(parts.deep_view().take(i + 1).last() == parts.deep_view()[i as int]);
        }
        i += 1;
    }
    proof {
        assert(parts.deep_view().take(parts.len() as int) =~= parts.deep_view());
    }
    out
}

/// The decimal digit character for a value below ten.
pub open spec fn spec_digit_char(d: int) -> char {
    if d == 0 {
        '0'
    } else if d == 1 {
        '1'
    } else if d == 2 {
        '2'
    } else if d == 3 {
        '3'
    } else if d == 4 {
        '4'
    } else if d == 5 {
        '5'
    } else if d == 6 {
        '6'
    } else if d == 7 {
        '7'
    } else if d == 8 {
        '8'
    } else {
        '9'
    }
}

/// The decimal notation of `n`, without sign or leading zeros.
pub open spec fn spec_dec(n: int) -> Seq<char>
    decreases n,
{
    if n < 10 {
        seq![spec_digit_char(n)]
    } else {
        spec_dec(n / 10).push(spec_digit_char(n % 10))
    }
}

fn digit_char(d: u64) -> (c: char)
    requires
        d < 10,
    ensures
        c == spec_digit_char(d as int),
{
    if d == 0 {
        '0'
    } else if d == 1 {
        '1'
    } else if d == 2 {
        '2'
    } else if d == 3 {
        '3'
    } else if d == 4 {
        '4'
    } else if d == 5 {
        '5'
    } else if d == 6 {
        '6'
    } else if d == 7 {
        '7'
    } else if d == 8 {
        '8'
    } else {
        '9'
    }
}

/// Write `n` in decimal notation.
pub fn u64_to_dec(n: u64) -> (s: String)
    ensures
        s@ == spec_dec(n as int),
    decreases n,
{
    if n < 10 {
        let mut s = String::new();
        push_char(&mut s, digit_char(n));
        proof {
            assert(Seq::<char>::empty().push(spec_digit_char(n as int)) =~= seq![
                spec_digit_char(n as int),
            ]);
        }
        s
    } else {
        let mut s = u64_to_dec(n / 10);
        push_char(&mut s, digit_char(n % 10));
        s
    }
}

/// `c` is a decimal digit.
pub open spec fn is_digit(c: char) -> bool {
    '0' <= c && c <= '9'
}

pub(crate) fn is_digit_char(c: char) -> (r: bool)
    ensures
        r == is_digit(c),
{
    '0' <= c && c <= '9'
}

/// The numeric value of a digit character.
pub open spec fn digit_val(c: char) -> int {
    c as int - '0' as int
}

/// Every character of `s` is a decimal digit.
pub open spec fn all_digits(s: Seq<char>) -> bool {
    forall|i: int| 0 <= i < s.len() ==> is_digit(#[trigger] s[i])
}

/// The value of a digit string, most significant digit first.
pub open spec fn digits_val(s: Seq<char>) -> int
    decreases s.len(),
{
    if s.len() == 0 {
        0
    } else {
        digits_val(s.drop_last()) * 10 + digit_val(s.last())
    }
}

proof fn lemma_digits_val_nonneg(s: Seq<char>)
    requires
        all_digits(s),
    ensures
        digits_val(s) >= 0,
    decreases s.len(),
{
    if s.len() > 0 {
        assert(all_digits(s.drop_last()));
        lemma_digits_val_nonneg(s.drop_last());
    }
}

proof fn lemma_digits_val_prefix_mono(s: Seq<char>, j: int)
    requires
        0 <= j <= s.len(),
        all_digits(s),
    ensures
        digits_val(s.take(j)) <= digits_val(s),
    decreases s.len(),
{
    if j == s.len() {
        assert(s.take(j) =~= s);
    } else {
        assert(all_digits(s.drop_last()));
        lemma_digits_val_prefix_mono(s.drop_last(), j);
        assert(s.drop_last().take(j) =~= s.take(j));
        lemma_digits_val_nonneg(s.drop_last());
    }
}

/// The value of a nonempty all-digit string, or `None` on any other text or
/// on a value out of range.
pub fn try_parse_u64(s: &str) -> (r: Option<u64>)
    ensures
        match r {
            Some(v) => s@.len() > 0 && all_digits(s@) && digits_val(s@) == v,
            None => !(s@.len() > 0 && all_digits(s@) && digits_val(s@) <= u64::MAX),
        },
{
    let n = s.unicode_len();
    if n == 0 {
        return None;
    }
    let mut acc: u64 = 0;
    let mut i: usize = 0;
    proof {
        assert(s@.take(0) =~= Seq::<char>::empty());
    }
    while i < n
        invariant
            i <= n,
            n == s@.len(),
            all_digits(s@.take(i as int)),
            acc == digits_val(s@.take(i as int)),
        decreases n - i,
    {
        let c = s.get_char(i);
        if !is_digit_char(c) {
            return None;
        }
        let d: u64 = char_digit_val(c);
        proof {
            assert(s@.take(i + 1).drop_last() =~= s@.take(i as int));
            assert(s@.take(i + 1).last() == s@[i as int]);
            assert(forall|k: int|
                0 <= k < i + 1 ==> is_digit(#[trigger] s@.take(i + 1)[k]));
        }
        if acc > u64::MAX / 10 || (acc == u64::MAX / 10 && d > u64::MAX % 10) {
            proof {
                assert(digits_val(s@.take(i + 1)) > u64::MAX);
                if all_digits(s@) {
                    lemma_digits_val_prefix_mono(s@, i + 1);
                }
            }
            return None;
        }
        acc = acc * 10 + d;
        i += 1;
    }
    proof {
        assert(s@.take(n as int) =~= s@);
    }
    Some(acc)
}

fn char_digit_val(c: char) -> (d: u64)
    requires
        is_digit(c),
    ensures
        d == digit_val(c),
        d < 10,
{
    (c as u32 - '0' as u32) as u64
}

/// The value of `s` as an unsigned number, or zero when `s` is not a digit
/// string or does not fit: the tolerant reading used for scraped cells.
pub open spec fn spec_parse_u64_or_zero(s: Seq<char>) -> u64 {
    if s.len() > 0 && all_digits(s) && digits_val(s) <= u64::MAX {
        digits_val(s) as u64
    } else {
        0
    }
}

/// As `spec_parse_u64_or_zero`, with the `u32` range.
pub open spec fn spec_parse_u32_or_zero(s: Seq<char>) -> u32 {
    if s.len() > 0 && all_digits(s) && digits_val(s) <= u32::MAX {
        digits_val(s) as u32
    } else {
        0
    }
}

/// Parse `s` as a `u64`, defaulting to zero.
pub fn parse_u64_or_zero(s: &str) -> (r: u64)
    ensures
        r == spec_parse_u64_or_zero(s@),
{
    match try_parse_u64(s) {
        Some(v) => v,
        None => 0,
    }
}

/// Parse `s` as a `u32`, defaulting to zero.
pub fn parse_u32_or_zero(s: &str) -> (r: u32)
    ensures
        r == spec_parse_u32_or_zero(s@),
{
    match try_parse_u64(s) {
        Some(v) => {
            if v <= u32::MAX as u64 {
                v as u32
            } else {
                0
            }
        },
        None => 0,
    }
}

/// The index just past the run of digits that starts at `i`.
pub open spec fn digit_run_end(s: Seq<char>, i: int) -> int
    decreases s.len() - i,
    when 0 <= i <= s.len()
{
    if i < s.len() && is_digit(s[i]) {
        digit_run_end(s, i + 1)
    } else {
        i
    }
}

pub proof fn lemma_digit_run_end(s: Seq<char>, i: int)
    requires
        0 <= i <= s.len(),
    ensures
        i <= digit_run_end(s, i) <= s.len(),
        forall|k: int| i <= k < digit_run_end(s, i) ==> is_digit(#[trigger] s[k]),
        digit_run_end(s, i) == s.len() || !is_digit(s[digit_run_end(s, i)]),
    decreases s.len() - i,
{
    if i < s.len() && is_digit(s[i]) {
        lemma_digit_run_end(s, i + 1);
    }
}

pub(crate) proof fn lemma_digit_run_end_unique(s: Seq<char>, i: int, j: int)
    requires
        0 <= i <= j <= s.len(),
        forall|k: int| i <= k < j ==> is_digit(#[trigger] s[k]),
        j == s.len() || !is_digit(s[j]),
    ensures
        digit_run_end(s, i) == j,
    decreases j - i,
{
    if i < j {
        lemma_digit_run_end_unique(s, i + 1, j);
    }
}

/// The numeric tokens of `s`, scanned left to right: each maximal digit run
/// stands for its value, except that a run continued by a dot and at least
/// one more digit forms a fractional token and yields no number, and a run
/// whose value exceeds the `u32` range is passed over.
pub open spec fn spec_scan_numbers(s: Seq<char>, i: int) -> Seq<u32>
    decreases s.len() - i,
    when 0 <= i <= s.len()
{
    if i >= s.len() {
        Seq::empty()
    } else if !is_digit(s[i]) {
        spec_scan_numbers(s, i + 1)
    } else {
        let j = digit_run_end(s, i);
        proof {
            lemma_digit_run_end(s, i);
        }
        if j < s.len() && s[j] == '.' && j + 1 < s.len() && is_digit(s[j + 1]) {
            proof {
                lemma_digit_run_end(s, j + 1);
            }
            spec_scan_numbers(s, digit_run_end(s, j + 1))
        } else {
            let v = digits_val(s.subrange(i, j));
            let rest = spec_scan_numbers(s, j);
            if v <= u32::MAX {
                seq![v as u32] + rest
            } else {
                rest
            }
        }
    }
}

/// The value of the all-digit range `[i, j)` of `s`, or `None` when it does
/// not fit in a `u32`.
pub(crate) fn parse_digit_run(s: &str, i: usize, j: usize) -> (r: Option<u32>)
    requires
        i <= j,
        j <= s@.len(),
        s@.len() <= usize::MAX,
        forall|k: int| i <= k < j ==> is_digit(#[trigger] s@[k]),
    ensures
        match r {
            Some(v) => digits_val(s@.subrange(i as int, j as int)) == v,
            None => digits_val(s@.subrange(i as int, j as int)) > u32::MAX,
        },
{
    let ghost tok = s@.subrange(i as int, j as int);
    let mut acc: u32 = 0;
    let mut k: usize = i;
    proof {
        assert(tok.take(0) =~= Seq::<char>::empty());
    }
    while k < j
        invariant
            i <= k <= j,
            j <= s@.len(),
            s@.len() <= usize::MAX,
            forall|m: int| i <= m < j ==> is_digit(#[trigger] s@[m]),
            tok == s@.subrange(i as int, j as int),
            acc == digits_val(tok.take(k - i)),
        decreases j - k,
    {
        let c = s.get_char(k);
        let d: u64 = char_digit_val(c);
        proof {
            assert(tok.take(k - i + 1).drop_last() =~= tok.take(k - i));
            assert(tok.take(k - i + 1).last() == s@[k as int]);
        }
        if acc > u32::MAX / 10 || (acc == u32::MAX / 10 && d > (u32::MAX % 10) as u64) {
            proof {
                assert(all_digits(tok));
                assert(digits_val(tok.take(k - i + 1)) > u32::MAX);
                lemma_digits_val_prefix_mono(tok, k - i + 1);
            }
            return None;
        }
        acc = acc * 10 + (d as u32);
        k += 1;
    }
    proof {
        assert(tok.take(j - i) =~= tok);
    }
    Some(acc)
}

/// Collect the numeric tokens of `s` in order.
pub fn scan_numbers(s: &str) -> (r: Vec<u32>)
    ensures
        r@ == spec_scan_numbers(s@, 0),
{
    let n = s.unicode_len();
    let mut out: Vec<u32> = Vec::new();
    let mut i: usize = 0;
    while i < n
        invariant
            i <= n,
            n == s@.len(),
            out@ + spec_scan_numbers(s@, i as int) == spec_scan_numbers(s@, 0),
        decreases n - i,
    {
        if !is_digit_char(s.get_char(i)) {
            i += 1;
        } else {
            let mut j: usize = i;
            while j < n && is_digit_char(s.get_char(j))
                invariant
                    i <= j <= n,
                    n == s@.len(),
                    forall|k: int| i <= k < j ==> is_digit(#[trigger] s@[k]),
                decreases n - j,
            {
                j += 1;
            }
            proof {
                lemma_digit_run_end_unique(s@, i as int, j as int);
            }
            if j < n && s.get_char(j) == '.' && j + 1 < n && is_digit_char(s.get_char(j + 1)) {
                let mut m: usize = j + 1;
                while m < n && is_digit_char(s.get_char(m))
                    invariant
                        j + 1 <= m <= n,
                        n == s@.len(),
                        forall|k: int| j + 1 <= k < m ==> is_digit(#[trigger] s@[k]),
                    decreases n - m,
                {
                    m += 1;
                }
                proof {
                    lemma_digit_run_end_unique(s@, j + 1, m as int);
                }
                i = m;
            } else {
                match parse_digit_run(s, i, j) {
                    Some(v) => {
                        proof {
                            assert((out@ + seq![v]) + spec_scan_numbers(s@, j as int) =~= out@
                                + (seq![v] + spec_scan_numbers(s@, j as int)));
                        }
                        out.push(v);
                    },
                    None => {},
                }
                i = j;
            }
        }
    }
    proof {
        assert(out@ + spec_scan_numbers(s@, n as int) =~= out@);
    }
    out
}

} // verus!
