//! The layout of the memory-view window: a title line, one line per query
//! result with the address on the left and the value on the right, and
//! alternating background shades.

use vstd::prelude::*;
use vstd::utf8::encode_utf8;
use crate::app::{results_view, App, AppView};
use crate::list::{lines_view, VListView};
use crate::text::{joined, padded, spaces};

verus! {

/// At most this many query results are shown.
pub const MAX_SHOWN_RESULTS: usize = 200;

/// The width that the labels of the title line take ("Address" and "Value").
pub const TITLE_LABELS_WIDTH: usize = 12;

/// The columns of a line that are not padding or text: the indentation and
/// the space kept free at the right edge.
pub const LINE_MARGIN: usize = 3;

/// The background of a result line.
#[derive(Debug, Clone, Copy, PartialEq, Eq, Structural)]
pub enum RowShade {
    /// The darker shade, for results first seen at an even position.
    Dark,
    /// The lighter shade, for results first seen at an odd position.
    Light,
}

/// One result line: the address, the spaces between address and value, and
/// the value shown.
#[derive(Debug)]
pub struct MemRow {
    pub address: String,
    pub padding: usize,
    pub value: String,
    pub shade: RowShade,
}

/// The layout of the window: the spaces between the two title labels and
/// the result lines (none: the window says that no results are available).
#[derive(Debug)]
pub struct MemView {
    pub title_padding: usize,
    pub rows: Vec<MemRow>,
}

/// The number of bytes of the UTF-8 encoding of a text, as the `usize` that
/// `str::len` returns (the length of a text in memory always fits).
pub open spec fn utf8_len(s: Seq<char>) -> usize {
    encode_utf8(s).len() as usize
}

/// The results shown: the first `MAX_SHOWN_RESULTS` of them.
pub open spec fn shown_results(results: Seq<Seq<char>>) -> Seq<Seq<char>> {
    if results.len() <= MAX_SHOWN_RESULTS {
        results
    } else {
        results.take(MAX_SHOWN_RESULTS as int)
    }
}

/// Whether `j` is the first position at which `x` occurs in `s`.
pub open spec fn is_first_position(s: Seq<Seq<char>>, x: Seq<char>, j: int) -> bool {
    &&& 0 <= j < s.len()
    &&& s[j] == x
    &&& forall|k: int| 0 <= k < j ==> s[k] != x
}

/// The first position of `s[i]` in `s`.
pub open spec fn first_position(s: Seq<Seq<char>>, i: int) -> int {
    choose|j: int| is_first_position(s, s[i], j)
}

/// The shade for a position: dark at even positions, light at odd ones.
pub open spec fn shade_at(j: int) -> RowShade {
    if j % 2 == 0 {
        RowShade::Dark
    } else {
        RowShade::Light
    }
}

/// Whether the window is wide enough for the title and for every shown
/// result next to the value `query`; narrower windows cannot be laid out.
pub open spec fn fits(width: int, query: Seq<char>, results: Seq<Seq<char>>) -> bool {
    &&& width >= TITLE_LABELS_WIDTH + LINE_MARGIN
    &&& forall|i: int|
        0 <= i < shown_results(results).len() ==> utf8_len(#[trigger] shown_results(results)[i])
            + utf8_len(query) + LINE_MARGIN <= width
}

/// Whether `row` is the line for the `i`-th shown result.
pub open spec fn row_is(
    row: MemRow,
    width: int,
    query: Seq<char>,
    shown: Seq<Seq<char>>,
    i: int,
) -> bool {
    &&& row.address@ == shown[i]
    &&& row.value@ == query
    &&& row.padding == width - utf8_len(shown[i]) - utf8_len(query) - LINE_MARGIN
    &&& row.shade == shade_at(first_position(shown, i))
}

/// Whether `v` is the layout of the window of width `width` for the query
/// `query` and the results `results`: the title labels are spread over the
/// width, and each shown result has its line, the value at the right.
pub open spec fn is_layout(v: MemView, width: int, query: Seq<char>, results: Seq<Seq<char>>) -> bool {
    let shown = shown_results(results);
    &&& v.title_padding == width - TITLE_LABELS_WIDTH - LINE_MARGIN
    &&& v.rows@.len() == shown.len()
    &&& forall|i: int| 0 <= i < shown.len() ==> row_is(#[trigger] v.rows@[i], width, query, shown, i)
}

/// The number of bytes of the UTF-8 encoding of `s`.
fn byte_len(s: &String) -> (n: usize)
    ensures
        n == utf8_len(s@),
{
    s.as_str().len()
}

/// The first position at which `results[i]` occurs in `results`.
fn first_position_of(results: &Vec<String>, i: usize) -> (j: usize)
    requires
        i < results@.len(),
    ensures
        is_first_position(lines_view(results@), lines_view(results@)[i as int], j as int),
        j as int == first_position(lines_view(results@), i as int),
{
    let ghost s = lines_view(results@);
    let mut j: usize = 0;
    while j < i && !(results[j] == results[i])
        invariant
            i < results@.len(),
            s == lines_view(results@),
            j <= i,
            forall|k: int| 0 <= k < j ==> s[k] != s[i as int],
        decreases i - j,
    {
        j = j + 1;
    }
    proof {
        assert(is_first_position(s, s[i as int], j as int));
        let j2 = first_position(s, i as int);
        assert(is_first_position(s, s[i as int], j2));
        if j2 < j {
            assert(s[j2] != s[i as int]);
        }
        if j < j2 {
            assert(s[j as int] != s[i as int]);
        }
    }
    j
}

/// A copy of the first `n` lines of `lines`.
fn copy_prefix(lines: &Vec<String>, n: usize) -> (r: Vec<String>)
    requires
        n <= lines@.len(),
    ensures
        lines_view(r@) == lines_view(lines@).take(n as int),
{
    let mut r: Vec<String> = Vec::new();
    let mut i: usize = 0;
    while i < n
        invariant
            n <= lines@.len(),
            i <= n,
            r@.len() == i,
            forall|j: int| 0 <= j < i ==> #[trigger] r@[j]@ == lines@[j]@,
        decreases n - i,
    {
        r.push(lines[i].clone());
        i = i + 1;
    }
    assert(lines_view(r@) =~= lines_view(lines@).take(n as int));
    r
}

/// The layout of the memory view of width `width`, showing the value
/// `query` next to each of the first `MAX_SHOWN_RESULTS` addresses in
/// `results` (see `is_layout`).
pub fn mem_view_layout(width: u16, query: &String, results: &Vec<String>) -> (v: MemView)
    requires
        fits(width as int, query@, lines_view(results@)),
    ensures
        is_layout(v, width as int, query@, lines_view(results@)),
{
    let ghost all = lines_view(results@);
    let n = if results.len() <= MAX_SHOWN_RESULTS {
        results.len()
    } else {
        MAX_SHOWN_RESULTS
    };
    let shown = copy_prefix(results, n);
    proof {
        assert(all.take(all.len() as int) =~= all);
        assert(lines_view(shown@) == shown_results(all));
    }
    let ghost sv = lines_view(shown@);
    let query_len = byte_len(query);
    let title_padding = width as usize - TITLE_LABELS_WIDTH - LINE_MARGIN;
    let mut rows: Vec<MemRow> = Vec::new();
    let mut i: usize = 0;
    while i < n
        invariant
            n == shown@.len(),
            sv == lines_view(shown@),
            sv == shown_results(all),
            query_len == utf8_len(query@),
            fits(width as int, query@, all),
            i <= n,
            rows@.len() == i,
            forall|k: int| 0 <= k < i ==> row_is(#[trigger] rows@[k], width as int, query@, sv, k),
        decreases n - i,
    {
        let address_len = byte_len(&shown[i]);
        assert(utf8_len(shown_results(all)[i as int]) + utf8_len(query@) + LINE_MARGIN <= width);
        let padding = width as usize - (address_len + query_len) - LINE_MARGIN;
        let first = first_position_of(&shown, i);
        let shade = if first % 2 == 0 {
            RowShade::Dark
        } else {
            RowShade::Light
        };
        rows.push(MemRow { address: shown[i].clone(), padding, value: query.clone(), shade });
        i = i + 1;
    }
    MemView { title_padding, rows }
}

/// The text of a result line: a space, the address, the padding and the value.
pub open spec fn row_text(row: MemRow) -> Seq<char> {
    seq![' '] + row.address@ + spaces(row.padding as nat) + row.value@
}

/// The texts of the result lines.
pub open spec fn rows_text(rows: Seq<MemRow>) -> Seq<Seq<char>> {
    rows.map_values(|r: MemRow| row_text(r))
}

/// The addresses of query results (the first element of each).
pub open spec fn result_addresses(r: Seq<(Seq<char>, Seq<char>)>) -> Seq<Seq<char>> {
    r.map_values(|p: (Seq<char>, Seq<char>)| p.0)
}

/// The texts of the lines of a layout.
fn row_texts(rows: &Vec<MemRow>) -> (r: Vec<String>)
    ensures
        lines_view(r@) == rows_text(rows@),
{
    let mut r: Vec<String> = Vec::new();
    let mut i: usize = 0;
    while i < rows.len()
        invariant
            i <= rows@.len(),
            r@.len() == i,
            forall|j: int| 0 <= j < i ==> #[trigger] r@[j]@ == row_text(rows@[j]),
        decreases rows.len() - i,
    {
        let head = joined(" ", rows[i].address.as_str());
        let line = padded(head.as_str(), rows[i].padding, rows[i].value.as_str());
        assert(" "@ =~= seq![' ']) by {
            reveal_strlit(" ");
        }
        r.push(line);
        i = i + 1;
    }
    assert(lines_view(r@) =~= rows_text(rows@));
    r
}

/// The addresses of the query results.
fn addresses_of(results: &Vec<(String, String)>) -> (a: Vec<String>)
    ensures
        lines_view(a@) == result_addresses(results_view(results@)),
{
    let mut a: Vec<String> = Vec::new();
    let mut i: usize = 0;
    while i < results.len()
        invariant
            i <= results@.len(),
            a@.len() == i,
            forall|j: int| 0 <= j < i ==> #[trigger] a@[j]@ == results@[j].0@,
        decreases results.len() - i,
    {
        a.push(results[i].0.clone());
        i = i + 1;
    }
    assert(lines_view(a@) =~= result_addresses(results_view(results@)));
    a
}

impl App {
    /// Lays out the memory view of width `width` for the current query and
    /// the addresses of the query results (see `mem_view_layout`). When there
    /// are results, their lines become the lines of the memory-view list;
    /// the selection is kept.
    pub fn show_mem_view(&mut self, width: u16) -> (v: MemView)
        requires
            fits(width as int, old(self)@.query.1, result_addresses(old(self)@.query_results)),
        ensures
            is_layout(v, width as int, old(self)@.query.1, result_addresses(old(self)@.query_results)),
            final(self)@ == if v.rows@.len() == 0 {
                old(self)@
            } else {
                AppView {
                    mem_view_list: VListView { list: rows_text(v.rows@), ..old(self)@.mem_view_list },
                    ..old(self)@
                }
            },
    {
        let addresses = addresses_of(&self.query_results);
        let v = mem_view_layout(width, &self.query.1, &addresses);
        if v.rows.len() > 0 {
            let lines = row_texts(&v.rows);
            proof {
                reveal_strlit("set");
                reveal_strlit("prev");
                reveal_strlit("next");
                assert("set"@.len() == 3 && "prev"@.len() == 4 && "next"@.len() == 4);
            }
            self.modify_mem_view_list("set", Some(lines));
        }
        v
    }
}

/// Whether the memory view of width `width` can be laid out for the current
/// query and results (see `fits`).
pub fn mem_view_fits(app: &App, width: u16) -> (r: bool)
    ensures
        r == fits(width as int, app@.query.1, result_addresses(app@.query_results)),
{
    let ghost all = result_addresses(app@.query_results);
    if (width as usize) < TITLE_LABELS_WIDTH + LINE_MARGIN {
        return false;
    }
    let addresses = addresses_of(&app.query_results);
    let n = if addresses.len() <= MAX_SHOWN_RESULTS {
        addresses.len()
    } else {
        MAX_SHOWN_RESULTS
    };
    proof {
        assert(all.take(all.len() as int) =~= all);
    }
    let query_len = byte_len(&app.query.1);
    let mut i: usize = 0;
    while i < n
        invariant
            all == result_addresses(app@.query_results),
            lines_view(addresses@) == all,
            n == shown_results(all).len(),
            n <= addresses@.len(),
            query_len == utf8_len(app@.query.1),
            i <= n,
            forall|k: int|
                0 <= k < i ==> utf8_len(#[trigger] shown_results(all)[k]) + utf8_len(
                    app@.query.1,
                ) + LINE_MARGIN <= width,
        decreases n - i,
    {
        let address_len = byte_len(&addresses[i]);
        assert(shown_results(all)[i as int] == all[i as int]);
        assert(all[i as int] == addresses@[i as int]@);
        if address_len as u128 + query_len as u128 + LINE_MARGIN as u128 > width as u128 {
            return false;
        }
        i = i + 1;
    }
    true
}

} // verus!
