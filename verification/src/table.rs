//! The normalized in-memory columnar table that ingestion produces and
//! the grid renderer consumes: an ordered sequence of named, typed
//! columns, every column holding the same number of cells. Cells are
//! kept only as their display-string projection; the renderer never
//! sees raw decoded values.

use vstd::prelude::*;

verus! {

/// How the cells of a column are interpreted for alignment and
/// formatting. Derived once from the decoder's declared schema at
/// ingestion time; never re-inferred while rendering.
#[derive(Clone, Copy, Debug, PartialEq, Eq, Structural)]
pub enum ColumnType {
    Numeric,
    Textual,
    Temporal,
    Boolean,
    Other,
}

/// A named, typed array of cell display strings.
pub struct Column {
    pub name: String,
    pub ctype: ColumnType,
    pub cells: Vec<String>,
}

impl Column {
    /// Number of cells (rows) the column holds.
    pub open spec fn len(&self) -> nat {
        self.cells@.len()
    }
}

/// An immutable columnar table. The columns stay in the order the
/// decoder reported them, and every column has the same length; the
/// only constructor checks this, so a value of this type always
/// satisfies `wf`.
pub struct Table {
    cols: Vec<Column>,
}

impl Table {
    /// The columns, in presentation order.
    pub closed spec fn spec_cols(&self) -> Seq<Column> {
        self.cols@
    }

    /// Number of columns.
    pub open spec fn spec_width(&self) -> nat {
        self.spec_cols().len()
    }

    /// Number of rows: the shared length of the columns.
    pub open spec fn spec_height(&self) -> nat {
        if self.spec_cols().len() == 0 {
            0
        } else {
            self.spec_cols()[0].len()
        }
    }

    /// Every column holds exactly one cell per row.
    pub open spec fn wf(&self) -> bool {
        forall|c: int|
            0 <= c < self.spec_cols().len() ==> (#[trigger] self.spec_cols()[c]).len()
                == self.spec_height()
    }

    /// The display text of the cell at `row` within column `col`.
    pub open spec fn spec_cell(&self, row: int, col: int) -> Seq<char> {
        self.spec_cols()[col].cells@[row]@
    }

    /// Builds a table from decoder output. Succeeds exactly when the
    /// columns all have the same length, and keeps them in the order
    /// given.
    pub fn new(cols: Vec<Column>) -> (r: Option<Table>)
        ensures
            r matches Some(t) ==> t.wf() && t.spec_cols() == cols@,
            r is Some <==> (forall|c: int|
                0 <= c < cols@.len() ==> (#[trigger] cols@[c]).len() == cols@[0].len()),
    {
        if cols.len() == 0 {
            return Some(Table { cols });
        }
        let height = cols[0].cells.len();
        let mut c: usize = 1;
        while c < cols.len()
            invariant
                1 <= c <= cols@.len(),
                height == cols@[0].len(),
                forall|j: int| 0 <= j < c ==> (#[trigger] cols@[j]).len() == height,
            decreases cols@.len() - c,
        {
            if cols[c].cells.len() != height {
                return None;
            }
            c += 1;
        }
        Some(Table { cols })
    }

    /// Number of columns.
    pub fn width(&self) -> (w: usize)
        ensures
            w == self.spec_width(),
    {
        self.cols.len()
    }

    /// Number of rows.
    pub fn height(&self) -> (h: usize)
        ensures
            h == self.spec_height(),
    {
        if self.cols.len() == 0 {
            0
        } else {
            self.cols[0].cells.len()
        }
    }

    /// The column at index `c`.
    pub fn col(&self, c: usize) -> (col: &Column)
        requires
            c < self.spec_width(),
        ensures
            *col == self.spec_cols()[c as int],
    {
        &self.cols[c]
    }

    /// The display text of one cell.
    pub fn cell(&self, row: usize, col: usize) -> (s: &String)
        requires
            self.wf(),
            col < self.spec_width(),
            row < self.spec_height(),
        ensures
            s@ == self.spec_cell(row as int, col as int),
    {
        &self.cols[col].cells[row]
    }
}

/// In a well-formed table every pair of columns has the same length:
/// a successfully built table never has ragged columns.
pub proof fn lemma_columns_uniform(t: Table)
    requires
        t.wf(),
    ensures
        forall|i: int, j: int|
            0 <= i < t.spec_cols().len() && 0 <= j < t.spec_cols().len()
                ==> (#[trigger] t.spec_cols()[i]).len() == (#[trigger] t.spec_cols()[j]).len(),
{
}

} // verus!
