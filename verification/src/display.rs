//! Character-grid display model.
//!
//! The panel is an addressable character grid: a two-row header region above
//! a body of menu rows, each row a fixed number of cells. The primitives the
//! core needs — clear one row, position the cursor, write text from the
//! cursor — mutate this model; pushing the cells out over the panel's bus is
//! the surrounding program's business.

use vstd::prelude::*;

verus! {

/// Amount of character rows on the display
pub const TOTAL_ROWS: u8 = 8;
/// The first 2 rows are header rows, the rest are body rows
pub const BODY_START_ROW: u8 = 2;
/// Amount of rows available in the body section of the display
pub const BODY_ROW_COUNT: u8 = 6;
/// A single row is 16 characters across
pub const ROW_LENGTH: u8 = 16;
/// The character that an empty cell shows
pub const BLANK: u8 = 32;

/// The grid with `text` written into row `row` from column `col` on; every
/// other cell keeps its value.
pub open spec fn written(cells: Seq<u8>, row: int, col: int, text: Seq<u8>) -> Seq<u8> {
    Seq::new(
        cells.len(),
        |i: int|
            if row * ROW_LENGTH + col <= i < row * ROW_LENGTH + col + text.len() {
                text[i - (row * ROW_LENGTH + col)]
            } else {
                cells[i]
            },
    )
}

/// A full row of blank cells.
pub open spec fn blank_row() -> Seq<u8> {
    Seq::new(ROW_LENGTH as nat, |i: int| BLANK)
}

/// A whole grid of blank cells.
pub open spec fn blank_grid() -> Seq<u8> {
    Seq::new((TOTAL_ROWS as int * ROW_LENGTH as int) as nat, |i: int| BLANK)
}

/// The addressable character grid, with a write cursor.
pub struct Display {
    /// Character cells, row-major: cell (column, row) is `cells[row * ROW_LENGTH + column]`
    pub cells: Vec<u8>,
    /// Column the next write starts at
    pub cursor_col: u8,
    /// Row the next write goes to
    pub cursor_row: u8,
}

impl Display {
    /// The grid has all its cells and the cursor is on it.
    pub open spec fn wf(&self) -> bool {
        &&& self.cells@.len() == TOTAL_ROWS as int * ROW_LENGTH as int
        &&& self.cursor_row < TOTAL_ROWS
        &&& self.cursor_col <= ROW_LENGTH
    }

    /// The text that row `r` shows.
    pub open spec fn row_text(&self, r: int) -> Seq<u8> {
        self.cells@.subrange(r * ROW_LENGTH, r * ROW_LENGTH + ROW_LENGTH)
    }

    /// A blank display with the cursor in the top-left corner.
    pub fn new() -> (r: Self)
        ensures
            r.wf(),
            r.cells@ == blank_grid(),
            r.cursor_col == 0,
            r.cursor_row == 0,
    {
        let mut cells: Vec<u8> = Vec::new();
        let total: usize = TOTAL_ROWS as usize * ROW_LENGTH as usize;
        let mut i: usize = 0;
        while i < total
            invariant
                i <= total,
                total == TOTAL_ROWS as int * ROW_LENGTH as int,
                cells@.len() == i,
                forall|j: int| 0 <= j < i ==> cells@[j] == BLANK,
            decreases total - i,
        {
            cells.push(BLANK);
            i = i + 1;
        }
        let r = Self { cells, cursor_col: 0, cursor_row: 0 };
        proof {
            assert(r.cells@ =~= blank_grid());
        }
        r
    }

    /// Clear the whole grid back to blanks; the cursor keeps its place.
    pub fn init(&mut self)
        requires
            old(self).wf(),
        ensures
            final(self).wf(),
            final(self).cells@ == blank_grid(),
            final(self).cursor_col == old(self).cursor_col,
            final(self).cursor_row == old(self).cursor_row,
    {
        let mut i: usize = 0;
        let total: usize = self.cells.len();
        while i < total
            invariant
                i <= total,
                self.cells@.len() == total,
                self.cursor_col == old(self).cursor_col,
                self.cursor_row == old(self).cursor_row,
                forall|j: int| 0 <= j < i ==> self.cells@[j] == BLANK,
                forall|j: int| i <= j < total ==> self.cells@[j] == old(self).cells@[j],
            decreases total - i,
        {
            self.cells.set(i, BLANK);
            i = i + 1;
        }
        proof {
            assert(self.cells@ =~= blank_grid());
        }
    }

    /// Clear one row back to blanks; the cursor keeps its place.
    pub fn clear_row(&mut self, row: u8)
        requires
            old(self).wf(),
            row < TOTAL_ROWS,
        ensures
            final(self).wf(),
            final(self).cells@ == written(old(self).cells@, row as int, 0, blank_row()),
            final(self).cursor_col == old(self).cursor_col,
            final(self).cursor_row == old(self).cursor_row,
    {
        let base: usize = row as usize * ROW_LENGTH as usize;
        let mut i: usize = 0;
        while i < ROW_LENGTH as usize
            invariant
                i <= ROW_LENGTH as int,
                base == row as int * ROW_LENGTH as int,
                row < TOTAL_ROWS,
                self.cells@.len() == TOTAL_ROWS as int * ROW_LENGTH as int,
                self.cursor_col == old(self).cursor_col,
                self.cursor_row == old(self).cursor_row,
                forall|j: int| base <= j < base + i ==> self.cells@[j] == BLANK,
                forall|j: int|
                    0 <= j < self.cells@.len() && !(base <= j < base + i) ==> self.cells@[j] == old(
                        self,
                    ).cells@[j],
            decreases ROW_LENGTH as int - i,
        {
            self.cells.set(base + i, BLANK);
            i = i + 1;
        }
        proof {
            assert(self.cells@ =~= written(old(self).cells@, row as int, 0, blank_row()));
        }
    }

    /// Clear the body region: every row below the header back to blanks.
    pub fn clear_body(&mut self)
        requires
            old(self).wf(),
        ensures
            final(self).wf(),
            final(self).cells@ == cleared_body(old(self).cells@, BODY_ROW_COUNT as int),
            final(self).cursor_col == old(self).cursor_col,
            final(self).cursor_row == old(self).cursor_row,
    {
        let mut row: u8 = 0;
        while row < BODY_ROW_COUNT
            invariant
                row <= BODY_ROW_COUNT,
                self.wf(),
                self.cells@ == cleared_body(old(self).cells@, row as int),
                self.cursor_col == old(self).cursor_col,
                self.cursor_row == old(self).cursor_row,
            decreases BODY_ROW_COUNT as int - row,
        {
            self.clear_row(BODY_START_ROW + row);
            row = row + 1;
        }
    }

    /// Move the write cursor; the cells keep their values.
    pub fn set_position(&mut self, column: u8, row: u8)
        requires
            old(self).wf(),
            column < ROW_LENGTH,
            row < TOTAL_ROWS,
        ensures
            final(self).wf(),
            final(self).cells@ == old(self).cells@,
            final(self).cursor_col == column,
            final(self).cursor_row == row,
    {
        self.cursor_col = column;
        self.cursor_row = row;
    }

    /// Write text from the cursor on, advancing the cursor past it. The text
    /// must fit on the cursor's row.
    pub fn write_text(&mut self, text: &Vec<u8>)
        requires
            old(self).wf(),
            old(self).cursor_col + text@.len() <= ROW_LENGTH,
        ensures
            final(self).wf(),
            final(self).cells@ == written(
                old(self).cells@,
                old(self).cursor_row as int,
                old(self).cursor_col as int,
                text@,
            ),
            final(self).cursor_col == old(self).cursor_col + text@.len(),
            final(self).cursor_row == old(self).cursor_row,
    {
        let base: usize = self.cursor_row as usize * ROW_LENGTH as usize + self.cursor_col as usize;
        let mut i: usize = 0;
        while i < text.len()
            invariant
                i <= text@.len(),
                base == old(self).cursor_row as int * ROW_LENGTH as int + old(self).cursor_col as int,
                old(self).wf(),
                old(self).cursor_col + text@.len() <= ROW_LENGTH,
                self.cells@.len() == TOTAL_ROWS as int * ROW_LENGTH as int,
                self.cursor_col == old(self).cursor_col,
                self.cursor_row == old(self).cursor_row,
                forall|j: int| base <= j < base + i ==> self.cells@[j] == text@[j - base],
                forall|j: int|
                    0 <= j < self.cells@.len() && !(base <= j < base + i) ==> self.cells@[j] == old(
                        self,
                    ).cells@[j],
            decreases text@.len() - i,
        {
            self.cells.set(base + i, text[i]);
            i = i + 1;
        }
        self.cursor_col = self.cursor_col + text.len() as u8;
        proof {
            assert(self.cells@ =~= written(
                old(self).cells@,
                old(self).cursor_row as int,
                old(self).cursor_col as int,
                text@,
            ));
        }
    }

    /// One row of the grid as plain bytes, for the code that pushes the model
    /// out to the panel.
    pub fn row_bytes(&self, row: u8) -> (r: Vec<u8>)
        requires
            self.wf(),
            row < TOTAL_ROWS,
        ensures
            r@ == self.row_text(row as int),
    {
        proof {
            lemma_row_bound(row as int);
        }
        let base: usize = row as usize * ROW_LENGTH as usize;
        let mut r: Vec<u8> = Vec::new();
        let mut i: usize = 0;
        while i < ROW_LENGTH as usize
            invariant
                i <= ROW_LENGTH as int,
                base == row as int * ROW_LENGTH as int,
                row < TOTAL_ROWS,
                self.wf(),
                r@.len() == i,
                forall|j: int| 0 <= j < i ==> r@[j] == self.cells@[base + j],
            decreases ROW_LENGTH as int - i,
        {
            r.push(self.cells[base + i]);
            i = i + 1;
        }
        proof {
            lemma_row_bound(row as int);
            let rt = self.row_text(row as int);
            assert forall|k: int| 0 <= k < ROW_LENGTH as int implies r@[k] == rt[k] by {
                assert(rt[k] == self.cells@[row as int * ROW_LENGTH as int + k]);
            }
            assert(r@ =~= rt);
        }
        r
    }
}

/// A row on the grid starts at a cell offset that its cells fit behind.
pub proof fn lemma_row_bound(row: int)
    requires
        0 <= row < TOTAL_ROWS as int,
    ensures
        0 <= row * ROW_LENGTH as int,
        row * ROW_LENGTH as int + ROW_LENGTH as int <= TOTAL_ROWS as int * ROW_LENGTH as int,
{
    assert(0 <= row * ROW_LENGTH as int) by (nonlinear_arith)
        requires 0 <= row && 0 <= ROW_LENGTH as int;
    assert(row * ROW_LENGTH as int + ROW_LENGTH as int <= TOTAL_ROWS as int * ROW_LENGTH as int)
        by (nonlinear_arith)
        requires row < TOTAL_ROWS as int && 0 <= ROW_LENGTH as int;
}

/// The grid with the first `n` body rows cleared back to blanks.
pub open spec fn cleared_body(cells: Seq<u8>, n: int) -> Seq<u8>
    decreases n,
{
    if n <= 0 {
        cells
    } else {
        written(cleared_body(cells, n - 1), BODY_START_ROW + n - 1, 0, blank_row())
    }
}

} // verus!
