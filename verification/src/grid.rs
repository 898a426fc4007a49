//! The grid renderer's decision logic: a pure projection of the
//! session (current table or error) and the scroll viewport onto what
//! one frame draws. It owns the display ceiling of 1000 rows, the
//! per-column alignment policy (numeric columns right-align, all
//! others left-align, headers center), single-line cell truncation
//! with a trailing ellipsis, and the fixed-row-height virtualization
//! window: only rows intersecting the viewport are materialized, the
//! rest contribute only their height to the scrollable extent.

use vstd::prelude::*;
use vstd::arithmetic::div_mod::{
    lemma_div_is_ordered, lemma_fundamental_div_mod, lemma_mod_division_less_than_divisor,
};
use vstd::string::StringExecFns;
use vstd::string::StrSliceExecFns;
use crate::session::Session;
use crate::table::{ColumnType, Table};

verus! {

/// Horizontal alignment of the text within a cell.
#[derive(Clone, Copy, Debug, PartialEq, Eq, Structural)]
pub enum Align {
    Left,
    Right,
    Center,
}

/// Hard display ceiling: rows past this index are never rendered.
pub const MAX_DISPLAY_ROWS: usize = 1000;

/// Alignment of a column's data cells: a pure function of the type
/// tag alone, so it is the same for every row of the column, rendered
/// or not.
pub open spec fn spec_alignment(t: ColumnType) -> Align {
    match t {
        ColumnType::Numeric => Align::Right,
        _ => Align::Left,
    }
}

/// How many data rows a table shows: its row count, capped at 1000.
pub open spec fn spec_display_rows(height: nat) -> nat {
    if height < 1000 {
        height
    } else {
        1000
    }
}

/// Single-line clipping: text within the budget is kept whole; longer
/// text is cut and terminated with one trailing ellipsis, never
/// wrapped.
pub open spec fn spec_clip(s: Seq<char>, max: nat) -> Seq<char>
    recommends
        max >= 1,
{
    if s.len() <= max {
        s
    } else {
        s.subrange(0, max - 1) + seq!['…']
    }
}

/// The tag a column's type shows in its header.
pub open spec fn spec_type_tag(t: ColumnType) -> Seq<char> {
    match t {
        ColumnType::Numeric => "numeric"@,
        ColumnType::Textual => "textual"@,
        ColumnType::Temporal => "temporal"@,
        ColumnType::Boolean => "boolean"@,
        ColumnType::Other => "other"@,
    }
}

/// A header cell's label: the column name, then its type tag in
/// brackets on a second line.
pub open spec fn spec_header_label(name: Seq<char>, t: ColumnType) -> Seq<char> {
    name + "\n["@ + spec_type_tag(t) + "]"@
}

/// Whether row `i` (at fixed height `row_h`) intersects the vertical
/// viewport `[scroll, scroll + view_h)`.
pub open spec fn row_overlaps(i: int, scroll: int, view_h: int, row_h: int) -> bool {
    i * row_h < scroll + view_h && (i + 1) * row_h > scroll
}

/// Alignment of a column's data cells.
pub fn alignment(t: ColumnType) -> (a: Align)
    ensures
        a == spec_alignment(t),
{
    match t {
        ColumnType::Numeric => Align::Right,
        _ => Align::Left,
    }
}

/// Header cells are centered whatever the column's type.
pub fn header_alignment() -> (a: Align)
    ensures
        a == Align::Center,
{
    Align::Center
}

/// How many data rows a table of `height` rows shows.
pub fn display_rows(height: usize) -> (n: usize)
    ensures
        n == spec_display_rows(height as nat),
        n <= MAX_DISPLAY_ROWS,
        n <= height,
{
    if height < MAX_DISPLAY_ROWS {
        height
    } else {
        MAX_DISPLAY_ROWS
    }
}

/// The tag a column's type shows in its header.
pub fn type_tag(t: ColumnType) -> (r: &'static str)
    ensures
        r@ == spec_type_tag(t),
{
    match t {
        ColumnType::Numeric => "numeric",
        ColumnType::Textual => "textual",
        ColumnType::Temporal => "temporal",
        ColumnType::Boolean => "boolean",
        ColumnType::Other => "other",
    }
}

/// Builds a header cell's label.
pub fn header_label(name: &str, t: ColumnType) -> (r: String)
    ensures
        r@ == spec_header_label(name@, t),
{
    name.to_owned().concat("\n[").concat(type_tag(t)).concat("]")
}

/// Clips one cell's display text to a single line of at most `max`
/// characters, marking an overflow with one trailing ellipsis.
pub fn clip_cell(text: &str, max: usize) -> (r: String)
    requires
        max >= 1,
    ensures
        r@ == spec_clip(text@, max as nat),
        r@.len() <= max,
{
    let n = text.unicode_len();
    if n <= max {
        text.to_owned()
    } else {
        let head = text.substring_char(0, max - 1);
        let clipped = head.to_owned().concat("…");
        proof {
            reveal_strlit("…");
            assert(clipped@ =~= text@.subrange(0, max as int - 1) + seq!['…']);
        }
        clipped
    }
}

/// The rows intersecting the viewport, as a half-open index range
/// into the capped display rows: exactly the rows that `row_overlaps`
/// admits, and no row at or past `nrows`.
pub fn visible_range(scroll: usize, view_h: usize, row_h: usize, nrows: usize) -> (r: (
    usize,
    usize,
))
    requires
        row_h >= 1,
        scroll + view_h <= usize::MAX,
    ensures
        r.0 <= r.1 <= nrows,
        forall|i: int|
            0 <= i < nrows ==> ((r.0 <= i < r.1) <==> row_overlaps(
                i,
                scroll as int,
                view_h as int,
                row_h as int,
            )),
{
    let q: usize = scroll / row_h;
    let start: usize = if q < nrows {
        q
    } else {
        nrows
    };
    let sum: usize = scroll + view_h;
    let qe: usize = sum / row_h;
    let re: usize = sum % row_h;
    let end: usize = if qe >= nrows {
        nrows
    } else if re > 0 {
        qe + 1
    } else {
        qe
    };
    proof {
        let s = scroll as int;
        let v = view_h as int;
        let h = row_h as int;
        lemma_fundamental_div_mod(s, h);
        lemma_mod_division_less_than_divisor(s, h);
        lemma_fundamental_div_mod(s + v, h);
        lemma_mod_division_less_than_divisor(s + v, h);
        lemma_div_is_ordered(s, s + v, h);
        let eprime: int = if re > 0 {
            qe + 1
        } else {
            qe as int
        };
        assert forall|i: int| 0 <= i < nrows implies ((start <= i < end) <==> row_overlaps(
            i,
            s,
            v,
            h,
        )) by {
            if i >= q {
                assert((i + 1) * h > s) by (nonlinear_arith)
                    requires
                        i >= q,
                        h >= 1,
                        s == h * (q as int) + (s % h),
                        s % h < h;
            } else {
                assert(!((i + 1) * h > s)) by (nonlinear_arith)
                    requires
                        i < q,
                        h >= 1,
                        s == h * (q as int) + (s % h),
                        0 <= s % h;
            }
            if i < eprime {
                assert(i * h < s + v) by (nonlinear_arith)
                    requires
                        i < eprime,
                        h >= 1,
                        s + v == h * (qe as int) + (re as int),
                        re > 0 ==> eprime == (qe as int) + 1,
                        re == 0 ==> eprime == qe as int,
                        0 <= re as int,
                        (re as int) < h;
            } else {
                assert(!(i * h < s + v)) by (nonlinear_arith)
                    requires
                        i >= eprime,
                        h >= 1,
                        s + v == h * (qe as int) + (re as int),
                        re > 0 ==> eprime == (qe as int) + 1,
                        re == 0 ==> eprime == qe as int,
                        0 <= re as int,
                        (re as int) < h;
            }
        }
    }
    (start, end)
}

/// The aggregate height of the capped display rows: what the rows
/// outside the viewport contribute to the scrollable extent.
pub fn scroll_extent(total_rows: usize, row_height: usize) -> (e: usize)
    requires
        total_rows * row_height <= usize::MAX,
    ensures
        e == total_rows * row_height,
{
    total_rows * row_height
}

/// The vertical scroll viewport and the per-cell text budget of one
/// render pass.
pub struct Viewport {
    /// Vertical scroll offset, in pixels from the top of row 0.
    pub scroll: usize,
    /// Height of the visible area, in pixels.
    pub height: usize,
    /// The fixed height of one data row, in pixels.
    pub row_height: usize,
    /// How many characters fit on one line of a cell.
    pub max_chars: usize,
}

/// A viewport the renderer can work with: positive row height, a
/// positive text budget, and extents that fit the machine word.
pub open spec fn viewport_wf(vp: Viewport) -> bool {
    &&& vp.row_height >= 1
    &&& vp.max_chars >= 1
    &&& vp.scroll + vp.height <= usize::MAX
}

/// What one frame draws of a loaded table: per-column headers and
/// alignments for all columns, but cell text only for the rows that
/// intersect the viewport.
pub struct GridFrame {
    /// One label per column, in table order.
    pub headers: Vec<String>,
    /// One data-cell alignment per column, in table order.
    pub aligns: Vec<Align>,
    /// Index (within the capped display rows) of the first
    /// materialized row.
    pub first_row: usize,
    /// The clipped cell text of the materialized rows, top to bottom.
    pub rows: Vec<Vec<String>>,
    /// Total display rows: the table's row count capped at 1000.
    pub total_rows: usize,
}

/// What a correct frame says of its table and viewport.
pub open spec fn grid_frame_ok(g: GridFrame, t: Table, vp: Viewport) -> bool {
    &&& g.total_rows == spec_display_rows(t.spec_height())
    &&& g.headers@.len() == t.spec_width()
    &&& g.aligns@.len() == t.spec_width()
    &&& (forall|c: int|
        0 <= c < t.spec_width() ==> (#[trigger] g.headers@[c])@ == spec_header_label(
            t.spec_cols()[c].name@,
            t.spec_cols()[c].ctype,
        ))
    &&& (forall|c: int|
        0 <= c < t.spec_width() ==> (#[trigger] g.aligns@[c]) == spec_alignment(
            t.spec_cols()[c].ctype,
        ))
    &&& g.first_row + g.rows@.len() <= g.total_rows
    &&& (forall|i: int|
        0 <= i < g.total_rows ==> ((g.first_row <= i < g.first_row + g.rows@.len())
            <==> row_overlaps(i, vp.scroll as int, vp.height as int, vp.row_height as int)))
    &&& (forall|k: int| 0 <= k < g.rows@.len() ==> (#[trigger] g.rows@[k])@.len() == t.spec_width())
    &&& (forall|k: int, c: int|
        0 <= k < g.rows@.len() && 0 <= c < t.spec_width() ==> (#[trigger] g.rows@[k]@[c])@
            == spec_clip(t.spec_cell(g.first_row + k, c), vp.max_chars as nat))
}

/// In any frame of a loaded table, a column's cells are right-aligned
/// exactly when the column is tagged numeric, and left-aligned
/// otherwise — for the whole column, so for every row, materialized
/// or beyond the visible window.
pub proof fn lemma_numeric_columns_right_align(g: GridFrame, t: Table, vp: Viewport)
    requires
        grid_frame_ok(g, t, vp),
    ensures
        forall|c: int|
            0 <= c < t.spec_width() ==> ((#[trigger] g.aligns@[c]) == Align::Right <==> t.spec_cols()[c].ctype
                == ColumnType::Numeric),
        forall|c: int|
            0 <= c < t.spec_width() ==> (g.aligns@[c] == Align::Right || (#[trigger] g.aligns@[c])
                == Align::Left),
{
}

/// Clipped text stays on one line: text over the budget comes back at
/// exactly the budget, its tail is one ellipsis, and what precedes
/// the ellipsis is the text's own prefix, unchanged.
pub proof fn lemma_clip_single_line(s: Seq<char>, max: nat)
    requires
        max >= 1,
        s.len() > max,
    ensures
        spec_clip(s, max).len() == max,
        spec_clip(s, max)[max - 1] == '…',
        spec_clip(s, max).subrange(0, max - 1) == s.subrange(0, max - 1),
{
    assert(spec_clip(s, max).subrange(0, max - 1) =~= s.subrange(0, max - 1));
}

/// What the render area shows: nothing, the pending error's message
/// as plain text, or the grid of the loaded table.
pub enum RenderOutput {
    Blank,
    ErrorText(String),
    Grid(GridFrame),
}

/// Builds the frame of one render pass over a loaded table.
fn build_frame(t: &Table, vp: &Viewport) -> (g: GridFrame)
    requires
        t.wf(),
        viewport_wf(*vp),
    ensures
        grid_frame_ok(g, *t, *vp),
{
    let width = t.width();
    let height = t.height();
    let total = display_rows(height);
    let range = visible_range(vp.scroll, vp.height, vp.row_height, total);
    let first = range.0;
    let last = range.1;
    let mut headers: Vec<String> = Vec::new();
    let mut aligns: Vec<Align> = Vec::new();
    let mut c: usize = 0;
    while c < width
        invariant
            c <= width,
            width == t.spec_width(),
            headers@.len() == c,
            aligns@.len() == c,
            forall|j: int|
                0 <= j < c ==> (#[trigger] headers@[j])@ == spec_header_label(
                    t.spec_cols()[j].name@,
                    t.spec_cols()[j].ctype,
                ),
            forall|j: int|
                0 <= j < c ==> (#[trigger] aligns@[j]) == spec_alignment(t.spec_cols()[j].ctype),
        decreases width - c,
    {
        let col = t.col(c);
        headers.push(header_label(col.name.as_str(), col.ctype));
        aligns.push(alignment(col.ctype));
        c += 1;
    }
    let mut rows: Vec<Vec<String>> = Vec::new();
    let mut rix: usize = first;
    while rix < last
        invariant
            first <= rix <= last,
            last <= total,
            t.wf(),
            width == t.spec_width(),
            total <= t.spec_height(),
            vp.max_chars >= 1,
            rows@.len() == rix - first,
            forall|k: int| 0 <= k < rows@.len() ==> (#[trigger] rows@[k])@.len() == width,
            forall|k: int, cc: int|
                0 <= k < rows@.len() && 0 <= cc < width ==> (#[trigger] rows@[k]@[cc])@
                    == spec_clip(t.spec_cell(first + k, cc), vp.max_chars as nat),
        decreases last - rix,
    {
        let mut row: Vec<String> = Vec::new();
        let mut cc: usize = 0;
        while cc < width
            invariant
                cc <= width,
                rix < total,
                total <= t.spec_height(),
                t.wf(),
                width == t.spec_width(),
                vp.max_chars >= 1,
                row@.len() == cc,
                forall|j: int|
                    0 <= j < cc ==> (#[trigger] row@[j])@ == spec_clip(
                        t.spec_cell(rix as int, j),
                        vp.max_chars as nat,
                    ),
            decreases width - cc,
        {
            let cell = t.cell(rix, cc);
            row.push(clip_cell(cell.as_str(), vp.max_chars));
            cc += 1;
        }
        rows.push(row);
        rix += 1;
    }
    GridFrame { headers, aligns, first_row: first, rows, total_rows: total }
}

/// One render pass: a pure projection of the session and the viewport
/// onto drawn output. An error suppresses the grid and shows its
/// message as plain text; with no table and no error the area is
/// blank; a loaded table is shown as a grid frame.
pub fn render(s: &Session, vp: &Viewport) -> (out: RenderOutput)
    requires
        s.wf(),
        viewport_wf(*vp),
    ensures
        s.spec_error() matches Some(e) ==> (out matches RenderOutput::ErrorText(m) && m@
            == e.spec_message()),
        s.spec_error() is None ==> (match s.spec_table() {
            None => out is Blank,
            Some(t) => out matches RenderOutput::Grid(g) && grid_frame_ok(g, t, *vp),
        }),
{
    match s.error_ref() {
        Some(e) => RenderOutput::ErrorText(e.message()),
        None => match s.table_ref() {
            None => RenderOutput::Blank,
            Some(t) => RenderOutput::Grid(build_frame(t, vp)),
        },
    }
}

} // verus!
