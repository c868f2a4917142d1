//! Row layout for the entry table: the wrapped text of each row, its height, and
//! the running totals that map a selected row to a scrollbar position.
use vstd::prelude::*;
use crate::entry::FeedItem;
use crate::text::{views, wrap_text, wrapped_lines};
use crate::timestamp::{humanized, relative_label, relative_seconds, Timestamp};

verus! {

/// `x`, held at `usize::MAX`.
pub open spec fn sat(x: int) -> int {
    if x > usize::MAX {
        usize::MAX as int
    } else {
        x
    }
}

/// A row is as tall as its taller column.
pub open spec fn row_height(counts: (usize, usize)) -> int {
    if counts.0 >= counts.1 {
        counts.0 as int
    } else {
        counts.1 as int
    }
}

/// The lines row `i` takes: its height plus a one-line margin below every row but the
/// last.
pub open spec fn row_extent(counts: Seq<(usize, usize)>, i: int) -> int {
    row_height(counts[i]) + if i + 1 < counts.len() {
        1int
    } else {
        0int
    }
}

/// The lines the first `k` rows take.
pub open spec fn extent_sum(counts: Seq<(usize, usize)>, k: int) -> int
    decreases k,
{
    if k <= 0 {
        0
    } else {
        extent_sum(counts, k - 1) + row_extent(counts, k - 1)
    }
}

/// Heights and running totals of a table's rows.
pub struct RowGeometry {
    /// The height of each row, margin not included.
    pub heights: Vec<usize>,
    /// For each row, the lines taken by it and every row above it, margins included.
    pub cumulative: Vec<usize>,
    /// The lines taken by all rows.
    pub total: usize,
}

/// The geometry of rows whose columns wrap to the given line counts (content,
/// date). Totals beyond `usize::MAX` are held there.
pub open spec fn geometry_of(g: RowGeometry, counts: Seq<(usize, usize)>) -> bool {
    &&& g.heights@.len() == counts.len()
    &&& g.cumulative@.len() == counts.len()
    &&& forall|i: int| 0 <= i < counts.len() ==> #[trigger] g.heights@[i] == row_height(counts[i])
    &&& forall|i: int|
        0 <= i < counts.len() ==> #[trigger] g.cumulative@[i] == sat(extent_sum(counts, i + 1))
    &&& g.total == sat(extent_sum(counts, counts.len() as int))
}

/// Computes row heights and running totals from each row's line counts.
pub fn row_geometry(counts: &Vec<(usize, usize)>) -> (r: RowGeometry)
    ensures
        geometry_of(r, counts@),
{
    let n = counts.len();
    let mut heights: Vec<usize> = Vec::new();
    let mut cumulative: Vec<usize> = Vec::new();
    let mut acc: usize = 0;
    let mut i: usize = 0;
    while i < n
        invariant
            n == counts@.len(),
            i <= n,
            heights@.len() == i,
            cumulative@.len() == i,
            acc == sat(extent_sum(counts@, i as int)),
            forall|j: int| 0 <= j < i ==> #[trigger] heights@[j] == row_height(counts@[j]),
            forall|j: int| 0 <= j < i ==> #[trigger] cumulative@[j] == sat(extent_sum(counts@, j + 1)),
        decreases n - i,
    {
        let (c, d) = counts[i];
        let h = if c >= d {
            c
        } else {
            d
        };
        let extent = if i + 1 < n {
            h.saturating_add(1)
        } else {
            h
        };
        proof {
            assert(extent_sum(counts@, i + 1) == extent_sum(counts@, i as int) + row_extent(counts@, i as int));
            assert(extent_sum(counts@, i as int) >= 0) by {
                lemma_extent_sum_nonneg(counts@, i as int);
            }
        }
        acc = acc.saturating_add(extent);
        heights.push(h);
        cumulative.push(acc);
        i = i + 1;
    }
    RowGeometry { heights, cumulative, total: acc }
}

proof fn lemma_extent_sum_nonneg(counts: Seq<(usize, usize)>, k: int)
    ensures
        extent_sum(counts, k) >= 0,
    decreases k,
{
    if k > 0 {
        lemma_extent_sum_nonneg(counts, k - 1);
    }
}

/// The scrollbar position for a selected row: the lines taken by the rows above it.
pub open spec fn scrollbar_for(cumulative: Seq<usize>, selected: int) -> int {
    if selected <= 0 || selected > cumulative.len() {
        0
    } else {
        cumulative[selected - 1] as int
    }
}

/// The first row reads as position zero, whatever the heights of the rows.
pub proof fn lemma_scrollbar_at_top(cumulative: Seq<usize>)
    ensures
        scrollbar_for(cumulative, 0) == 0,
{
}

/// The title shown for an entry, with a placeholder where it has none.
pub open spec fn title_text(item: FeedItem) -> Seq<char> {
    match item.title {
        Some(t) => t@,
        None => "untitled"@,
    }
}

/// The lines of a row's first column: the wrapped title, then the link on a line of
/// its own.
pub open spec fn row_content(item: FeedItem, width: nat) -> Seq<Seq<char>> {
    wrapped_lines(title_text(item), width) + match item.url {
        Some(u) => seq![u@],
        None => Seq::empty(),
    }
}

/// The lines of a row's date column: how long ago the entry was published, wrapped.
pub open spec fn row_date(item: FeedItem, now: Timestamp, width: nat) -> Seq<Seq<char>> {
    wrapped_lines(humanized(relative_seconds(item.published_at, now)), width)
}

/// The text of one row.
pub struct RowText {
    pub content: Vec<String>,
    pub date: Vec<String>,
}

/// The laid-out table.
pub struct RowLayout {
    pub rows: Vec<RowText>,
    pub geometry: RowGeometry,
}

/// The line counts of laid-out rows.
pub open spec fn counts_of(rows: Seq<RowText>) -> Seq<(usize, usize)> {
    rows.map_values(|r: RowText| (r.content@.len() as usize, r.date@.len() as usize))
}

/// The placeholder title.
pub fn untitled() -> (r: String)
    ensures
        r@ == "untitled"@,
{
    "untitled".to_owned()
}

/// Lays out one row.
pub fn layout_row(item: &FeedItem, now: &Timestamp, title_width: usize, date_width: usize) -> (r:
    RowText)
    ensures
        views(r.content@) == row_content(*item, title_width as nat),
        views(r.date@) == row_date(*item, *now, date_width as nat),
{
    let mut content = match &item.title {
        Some(t) => wrap_text(t.as_str(), title_width),
        None => {
            let u = untitled();
            wrap_text(u.as_str(), title_width)
        },
    };
    match &item.url {
        Some(u) => {
            let ghost before = content@;
            content.push(u.clone());
            proof {
                assert(views(content@) =~= views(before) + seq![u@]);
            }
        },
        None => {
            proof {
                assert(views(content@) =~= views(content@) + Seq::<Seq<char>>::empty());
            }
        },
    }
    let label = relative_label(&item.published_at, now);
    let date = wrap_text(label.as_str(), date_width);
    RowText { content, date }
}

/// Lays the entries out as table rows for the given column widths: every row's
/// wrapped text, its height, and the running totals.
pub fn layout_rows(items: &[FeedItem], now: &Timestamp, title_width: usize, date_width: usize) -> (r:
    RowLayout)
    ensures
        r.rows@.len() == items@.len(),
        forall|i: int|
            0 <= i < items@.len() ==> views(#[trigger] r.rows@[i].content@) == row_content(
                items@[i],
                title_width as nat,
            ),
        forall|i: int|
            0 <= i < items@.len() ==> views(#[trigger] r.rows@[i].date@) == row_date(
                items@[i],
                *now,
                date_width as nat,
            ),
        geometry_of(r.geometry, counts_of(r.rows@)),
{
    let mut rows: Vec<RowText> = Vec::new();
    let mut counts: Vec<(usize, usize)> = Vec::new();
    let mut i: usize = 0;
    while i < items.len()
        invariant
            i <= items@.len(),
            rows@.len() == i,
            counts@ == counts_of(rows@),
            forall|j: int|
                0 <= j < i ==> views(#[trigger] rows@[j].content@) == row_content(
                    items@[j],
                    title_width as nat,
                ),
            forall|j: int|
                0 <= j < i ==> views(#[trigger] rows@[j].date@) == row_date(
                    items@[j],
                    *now,
                    date_width as nat,
                ),
        decreases items@.len() - i,
    {
        let row = layout_row(&items[i], now, title_width, date_width);
        let ghost before = rows@;
        counts.push((row.content.len(), row.date.len()));
        rows.push(row);
        proof {
            assert(counts_of(rows@) =~= counts_of(before).push(
                (rows@[i as int].content@.len() as usize, rows@[i as int].date@.len() as usize),
            ));
        }
        i = i + 1;
    }
    let geometry = row_geometry(&counts);
    RowLayout { rows, geometry }
}

} // verus!
