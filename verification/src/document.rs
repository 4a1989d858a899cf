//! One window's text model: a bounded character grid, a write cursor,
//! and the wrap rules by which appended text fills it.

use vstd::prelude::*;

use crate::display::{BUFFER_HEIGHT, BUFFER_WIDTH};

verus! {

/// Columns at the right of the display reserved for a task manager strip.
pub const TASK_MANAGER_WIDTH: usize = 10;

/// Width of the display region in which the four windows sit.
pub const WIN_REGION_WIDTH: usize = BUFFER_WIDTH - TASK_MANAGER_WIDTH;

/// On-screen width of every window, in cells.
pub const WIN_WIDTH: usize = (WIN_REGION_WIDTH - 3) / 2;

/// On-screen height of every window, in cells.
pub const WIN_HEIGHT: usize = 10;

/// The mathematical state of one window: its footprint, its grid of
/// written cells (row-major, `WIN_WIDTH` cells per row), the write
/// cursor, and the top-left display coordinate it is drawn at.
pub struct DocView {
    pub width: int,
    pub height: int,
    pub grid: Seq<char>,
    pub cursor_col: int,
    pub cursor_row: int,
    pub origin_col: int,
    pub origin_row: int,
}

/// Index of grid cell `(r, c)` in the row-major grid sequence.
pub open spec fn cell_index(r: int, c: int) -> int {
    r * (WIN_WIDTH as int) + c
}

/// The character stored at grid cell `(r, c)`.
pub open spec fn cell_at(d: DocView, r: int, c: int) -> char {
    d.grid[cell_index(r, c)]
}

impl DocView {
    /// Well-formedness: the footprint is the fixed layout's, the grid holds
    /// one cell per footprint cell, the cursor sits inside the writable
    /// region (four columns of right margin, two rows of bottom margin
    /// below the last writable row), and the window lies on the display.
    pub open spec fn inv(self) -> bool {
        &&& self.width == WIN_WIDTH
        &&& self.height == WIN_HEIGHT
        &&& self.grid.len() == WIN_WIDTH * WIN_HEIGHT
        &&& 0 <= self.cursor_col <= self.width - 4
        &&& 0 <= self.cursor_row <= self.height - 3
        &&& 0 <= self.origin_col
        &&& self.origin_col + self.width <= BUFFER_WIDTH
        &&& 0 <= self.origin_row
        &&& self.origin_row + self.height <= BUFFER_HEIGHT
    }

    /// Nothing has been typed into this window yet.
    pub open spec fn is_empty(self) -> bool {
        self.cursor_col == 0 && self.cursor_row == 0
    }
}

/// A document as first constructed: blank grid, cursor at the top left,
/// drawn at the default origin.
pub open spec fn default_doc() -> DocView {
    DocView {
        width: WIN_WIDTH as int,
        height: WIN_HEIGHT as int,
        grid: Seq::new((WIN_WIDTH * WIN_HEIGHT) as nat, |i: int| ' '),
        cursor_col: 0,
        cursor_row: 0,
        origin_col: 3,
        origin_row: 4,
    }
}

/// What appending one character does to a document. A newline, or a
/// column already at the right margin, asks for a wrap: if a row remains
/// below, the cursor moves to the start of the next row, and a character
/// that is not itself a newline is relocated to that row's first cell
/// (a newline is consumed and never occupies a grid cell); if no row
/// remains, the character is dropped and nothing changes. Otherwise the
/// character is written at the cursor and the column advances.
pub open spec fn spec_append(d: DocView, c: char) -> DocView {
    if c == '\n' || d.cursor_col + 1 > d.width - 4 {
        if d.cursor_row < d.height - 3 {
            if c == '\n' {
                DocView { cursor_row: d.cursor_row + 1, cursor_col: 0, ..d }
            } else {
                DocView {
                    cursor_row: d.cursor_row + 1,
                    cursor_col: 1,
                    grid: d.grid.update(cell_index(d.cursor_row + 1, 0), c),
                    ..d
                }
            }
        } else {
            d
        }
    } else {
        DocView {
            grid: d.grid.update(cell_index(d.cursor_row, d.cursor_col), c),
            cursor_col: d.cursor_col + 1,
            ..d
        }
    }
}

/// Grid cells outside the written region are blank: every cell of the
/// cursor's row from the cursor on, and every cell of every row below it.
pub open spec fn blank_outside(d: DocView) -> bool {
    forall|r: int, c: int|
        0 <= r < WIN_HEIGHT && 0 <= c < WIN_WIDTH && (r > d.cursor_row || (r == d.cursor_row && c
            >= d.cursor_col)) ==> cell_at(d, r, c) == ' '
}

/// A cell of the grid has its index inside the grid sequence.
proof fn lemma_cell_index_bounds(r: int, c: int)
    requires
        0 <= r < WIN_HEIGHT,
        0 <= c < WIN_WIDTH,
    ensures
        0 <= cell_index(r, c) < WIN_WIDTH * WIN_HEIGHT,
{
    assert(0 <= r * (WIN_WIDTH as int) + c < WIN_WIDTH * WIN_HEIGHT) by (nonlinear_arith)
        requires
            0 <= r < WIN_HEIGHT,
            0 <= c < WIN_WIDTH,
            WIN_WIDTH == 33,
            WIN_HEIGHT == 10,
    ;
}

/// Two distinct cells have distinct indices in the grid sequence.
proof fn lemma_cell_index_injective(r1: int, c1: int, r2: int, c2: int)
    requires
        0 <= c1 < WIN_WIDTH,
        0 <= c2 < WIN_WIDTH,
        (r1, c1) != (r2, c2),
    ensures
        cell_index(r1, c1) != cell_index(r2, c2),
{
    assert(r1 * (WIN_WIDTH as int) + c1 != r2 * (WIN_WIDTH as int) + c2) by (nonlinear_arith)
        requires
            0 <= c1 < WIN_WIDTH,
            0 <= c2 < WIN_WIDTH,
            WIN_WIDTH == 33,
            !(r1 == r2 && c1 == c2),
    ;
}

/// Appending keeps a document well formed: the wrap rules never move the
/// cursor out of the writable region, and a write never changes the
/// grid's extent.
pub proof fn lemma_append_preserves_inv(d: DocView, c: char)
    requires
        d.inv(),
    ensures
        spec_append(d, c).inv(),
{
    if c == '\n' || d.cursor_col + 1 > d.width - 4 {
        if d.cursor_row < d.height - 3 && c != '\n' {
            lemma_cell_index_bounds(d.cursor_row + 1, 0);
        }
    } else {
        lemma_cell_index_bounds(d.cursor_row, d.cursor_col);
    }
}

/// A blank document has nothing written anywhere.
pub proof fn lemma_default_blank_outside()
    ensures
        blank_outside(default_doc()),
{
    assert forall|r: int, c: int|
        0 <= r < WIN_HEIGHT && 0 <= c < WIN_WIDTH && (r > default_doc().cursor_row || (r
            == default_doc().cursor_row && c >= default_doc().cursor_col)) implies cell_at(
        default_doc(),
        r,
        c,
    ) == ' ' by {
        lemma_cell_index_bounds(r, c);
    }
}

/// Appending keeps every cell outside the written region blank: the write
/// cursor only ever advances, and each append writes at most one cell,
/// always inside the new written region.
pub proof fn lemma_append_preserves_blank_outside(d: DocView, c: char)
    requires
        d.inv(),
        blank_outside(d),
    ensures
        blank_outside(spec_append(d, c)),
{
    let d2 = spec_append(d, c);
    assert forall|r: int, cc: int|
        0 <= r < WIN_HEIGHT && 0 <= cc < WIN_WIDTH && (r > d2.cursor_row || (r == d2.cursor_row
            && cc >= d2.cursor_col)) implies cell_at(d2, r, cc) == ' ' by {
        lemma_cell_index_bounds(r, cc);
        if c == '\n' || d.cursor_col + 1 > d.width - 4 {
            if d.cursor_row < d.height - 3 && c != '\n' {
                lemma_cell_index_bounds(d.cursor_row + 1, 0);
                lemma_cell_index_injective(r, cc, d.cursor_row + 1, 0);
            }
        } else {
            lemma_cell_index_bounds(d.cursor_row, d.cursor_col);
            lemma_cell_index_injective(r, cc, d.cursor_row, d.cursor_col);
        }
        assert(cell_at(d, r, cc) == ' ');
    }
}

/// One window's text buffer, cursor state, and on-screen placement.
pub struct Document {
    window_size: (usize, usize),
    contents: Vec<char>,
    num_letters_row: usize,
    cur_row: usize,
    col: usize,
    row: usize,
}

impl View for Document {
    type V = DocView;

    closed spec fn view(&self) -> DocView {
        DocView {
            width: self.window_size.0 as int,
            height: self.window_size.1 as int,
            grid: self.contents@,
            cursor_col: self.num_letters_row as int,
            cursor_row: self.cur_row as int,
            origin_col: self.col as int,
            origin_row: self.row as int,
        }
    }
}

impl Default for Document {
    /// A blank document at the default origin.
    fn default() -> (d: Self)
        ensures
            d@ == default_doc(),
            d@.inv(),
    {
        let total: usize = WIN_WIDTH * WIN_HEIGHT;
        let mut contents: Vec<char> = Vec::new();
        while contents.len() < total
            invariant
                contents@.len() <= total,
                forall|i: int| 0 <= i < contents@.len() ==> contents@[i] == ' ',
            decreases total - contents@.len(),
        {
            contents.push(' ');
        }
        let d = Document {
            window_size: (WIN_WIDTH, WIN_HEIGHT),
            contents,
            num_letters_row: 0,
            cur_row: 0,
            col: 3,
            row: 4,
        };
        proof {
            assert(d@.grid =~= default_doc().grid);
            assert(d@ =~= default_doc());
        }
        d
    }
}

impl Document {
    /// Number of characters already placed on the cursor's row; also the
    /// horizontal offset at which the next character is drawn.
    pub fn cursor_col(&self) -> (r: usize)
        ensures
            r == self@.cursor_col,
    {
        self.num_letters_row
    }

    /// Index of the grid row currently being written.
    pub fn cursor_row(&self) -> (r: usize)
        ensures
            r == self@.cursor_row,
    {
        self.cur_row
    }

    /// Display column of the window's top-left corner.
    pub fn origin_col(&self) -> (r: usize)
        ensures
            r == self@.origin_col,
    {
        self.col
    }

    /// Display row of the window's top-left corner.
    pub fn origin_row(&self) -> (r: usize)
        ensures
            r == self@.origin_row,
    {
        self.row
    }

    /// Width of the window's on-screen footprint.
    pub fn width(&self) -> (r: usize)
        ensures
            r == self@.width,
    {
        self.window_size.0
    }

    /// Height of the window's on-screen footprint.
    pub fn height(&self) -> (r: usize)
        ensures
            r == self@.height,
    {
        self.window_size.1
    }

    /// True while nothing has been typed into this document.
    pub fn is_empty(&self) -> (r: bool)
        ensures
            r == self@.is_empty(),
    {
        self.num_letters_row == 0 && self.cur_row == 0
    }

    /// The character stored at grid cell `(r, c)`.
    pub fn char_at(&self, r: usize, c: usize) -> (ch: char)
        requires
            self@.inv(),
            r < self@.height,
            c < self@.width,
        ensures
            ch == cell_at(self@, r as int, c as int),
    {
        proof {
            assert(r * WIN_WIDTH + c < 330) by (nonlinear_arith)
                requires r <= 9 && c <= 32 && WIN_WIDTH == 33;
        }
        self.contents[r * WIN_WIDTH + c]
    }

    /// Move the window's left edge to display column `col`.
    pub fn set_origin_col(&mut self, col: usize)
        requires
            old(self)@.inv(),
            col + old(self)@.width <= BUFFER_WIDTH,
        ensures
            final(self)@ == (DocView { origin_col: col as int, ..old(self)@ }),
            final(self)@.inv(),
    {
        self.col = col;
    }

    /// Move the window's top edge to display row `row`.
    pub fn set_origin_row(&mut self, row: usize)
        requires
            old(self)@.inv(),
            row + old(self)@.height <= BUFFER_HEIGHT,
        ensures
            final(self)@ == (DocView { origin_row: row as int, ..old(self)@ }),
            final(self)@.inv(),
    {
        self.row = row;
    }

    /// Append one character under the wrap rules of [`spec_append`].
    /// Within the margin the column advances by one, the row stands, and
    /// the glyph lands at the prior cursor cell; at the margin, or on a
    /// newline, the cursor wraps to the next row while rows remain, a
    /// non-newline glyph landing in that row's first cell; a wrap asked
    /// for on the last writable row leaves the document unchanged.
    pub fn append(&mut self, c: char)
        requires
            old(self)@.inv(),
        ensures
            final(self)@ == spec_append(old(self)@, c),
            final(self)@.inv(),
            (c != '\n' && old(self)@.cursor_col < old(self)@.width - 4) ==> (
                final(self)@.cursor_col == old(self)@.cursor_col + 1
                && final(self)@.cursor_row == old(self)@.cursor_row
                && cell_at(final(self)@, old(self)@.cursor_row, old(self)@.cursor_col) == c
            ),
            ((c == '\n' || old(self)@.cursor_col == old(self)@.width - 4)
                && old(self)@.cursor_row < old(self)@.height - 3) ==> (
                final(self)@.cursor_row == old(self)@.cursor_row + 1
                && (c == '\n' ==> final(self)@.cursor_col == 0
                    && final(self)@.grid == old(self)@.grid)
                && (c != '\n' ==> final(self)@.cursor_col == 1
                    && cell_at(final(self)@, old(self)@.cursor_row + 1, 0) == c)
            ),
            ((c == '\n' || old(self)@.cursor_col == old(self)@.width - 4)
                && old(self)@.cursor_row == old(self)@.height - 3) ==> final(self)@ == old(self)@,
    {
        proof {
            assert(WIN_WIDTH == 33 && WIN_HEIGHT == 10);
            assert(self.cur_row <= 7 && self.num_letters_row <= 29);
        }
        if c == '\n' || self.num_letters_row + 1 > self.window_size.0 - 4 {
            if self.cur_row < self.window_size.1 - 3 {
                self.cur_row = self.cur_row + 1;
                if c == '\n' {
                    self.num_letters_row = 0;
                } else {
                    proof {
                        assert(self.cur_row <= 7);
                        assert(self.cur_row * WIN_WIDTH <= 231) by (nonlinear_arith)
                            requires self.cur_row <= 7 && WIN_WIDTH == 33;
                    }
                    self.contents.set(self.cur_row * WIN_WIDTH, c);
                    self.num_letters_row = 1;
                }
            }
        } else {
            self.contents.set(self.cur_row * WIN_WIDTH + self.num_letters_row, c);
            self.num_letters_row = self.num_letters_row + 1;
        }
    }
}

} // verus!

