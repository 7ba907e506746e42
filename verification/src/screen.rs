//! The grid of cells with its logical cursor.
//!
//! The grid has `rows × cols` cells, where `rows` is the height of the
//! viewport divided by the height of a character cell and `cols` its width
//! divided by the width of a character cell. The cursor names the cell that
//! the next character goes to and never leaves the grid: a move past the last
//! column or the last row stops there. Nothing scrolls.

use crate::cell::{display_width, Cell, Color};
use vstd::prelude::*;

verus! {

/// What a [`Screen`] is, as a mathematical value.
pub struct ScreenView {
    /// The cells, row by row.
    pub glyphs: Seq<Seq<Cell>>,
    /// The row of the cursor.
    pub row_index: int,
    /// The column of the cursor.
    pub column_index: int,
    /// The height of a character cell, in pixels.
    pub font_size: int,
    /// The width of a character cell, in pixels.
    pub char_width: int,
    /// The width of the viewport, in pixels.
    pub screen_width: int,
    /// The height of the viewport, in pixels.
    pub screen_height: int,
    /// The distance of the first column from the left edge, in pixels.
    pub offset_from_left: int,
    /// The distance of the first row from the top edge, in pixels.
    pub offset_from_top: int,
}

/// A grid of `rows × cols` cells that show nothing.
pub open spec fn blank_glyphs(rows: int, cols: int) -> Seq<Seq<Cell>> {
    Seq::new(rows as nat, |r: int| Seq::new(cols as nat, |c: int| Cell::blank()))
}

/// The cells of `glyphs` laid on a grid of `rows × cols` cells: a cell that
/// `glyphs` has keeps what it shows, every other cell shows nothing.
pub open spec fn resized_glyphs(glyphs: Seq<Seq<Cell>>, rows: int, cols: int) -> Seq<Seq<Cell>> {
    Seq::new(
        rows as nat,
        |r: int|
            Seq::new(
                cols as nat,
                |c: int|
                    if r < glyphs.len() && c < glyphs[r].len() {
                        glyphs[r][c]
                    } else {
                        Cell::blank()
                    },
            ),
    )
}

impl ScreenView {
    /// The number of rows.
    pub open spec fn rows(self) -> int {
        self.glyphs.len() as int
    }

    /// The number of columns.
    pub open spec fn cols(self) -> int {
        if self.glyphs.len() > 0 {
            self.glyphs[0].len() as int
        } else {
            0
        }
    }

    /// The grid is a rectangle of at least one cell, cut from the viewport by
    /// the size of a character cell, and the cursor is on it. The sizes and
    /// offsets are pixel counts of 32 bits.
    pub open spec fn wf(self) -> bool {
        &&& 0 < self.font_size <= self.screen_height <= u32::MAX
        &&& 0 < self.char_width <= self.screen_width <= u32::MAX
        &&& 0 <= self.offset_from_left <= u32::MAX
        &&& 0 <= self.offset_from_top <= u32::MAX
        &&& self.rows() == self.screen_height / self.font_size
        &&& self.cols() == self.screen_width / self.char_width
        &&& forall|r: int| 0 <= r < self.rows() ==> (#[trigger] self.glyphs[r]).len() == self.cols()
        &&& 0 <= self.row_index < self.rows()
        &&& 0 <= self.column_index < self.cols()
    }

    /// The empty grid for a viewport, with the cursor in the top-left cell.
    pub open spec fn blank(
        font_size: int,
        char_width: int,
        screen_width: int,
        screen_height: int,
        offset_from_left: int,
        offset_from_top: int,
    ) -> ScreenView {
        ScreenView {
            glyphs: blank_glyphs(screen_height / font_size, screen_width / char_width),
            row_index: 0,
            column_index: 0,
            font_size,
            char_width,
            screen_width,
            screen_height,
            offset_from_left,
            offset_from_top,
        }
    }

    /// The cell in row `r` and column `c`.
    pub open spec fn glyph(self, r: int, c: int) -> Cell {
        self.glyphs[r][c]
    }

    /// The horizontal pixel position of column `c`.
    pub open spec fn glyph_x(self, c: int) -> int {
        self.offset_from_left + c * self.char_width
    }

    /// The vertical pixel position of row `r`.
    pub open spec fn glyph_y(self, r: int) -> int {
        self.offset_from_top + r * self.font_size
    }

    /// The grid with `cell` in place of the cell under the cursor.
    pub open spec fn put(self, cell: Cell) -> ScreenView {
        ScreenView {
            glyphs: self.glyphs.update(
                self.row_index,
                self.glyphs[self.row_index].update(self.column_index, cell),
            ),
            ..self
        }
    }

    /// The grid with the cursor `n` columns further right, or in the last
    /// column if that is nearer.
    pub open spec fn advance(self, n: int) -> ScreenView {
        ScreenView {
            column_index: if self.column_index + n < self.cols() {
                self.column_index + n
            } else {
                self.cols() - 1
            },
            ..self
        }
    }

    /// The grid after `c` was written in `color` at the cursor: the cell
    /// under the cursor shows it, and the cursor has advanced by its width.
    pub open spec fn write_char(self, c: char, color: Color) -> ScreenView {
        self.put(Cell::showing(c, color)).advance(display_width(c))
    }

    /// The grid with the cursor one row further down, or in the last row if
    /// it was there.
    pub open spec fn line_feed(self) -> ScreenView {
        ScreenView {
            row_index: if self.row_index + 1 < self.rows() {
                self.row_index + 1
            } else {
                self.rows() - 1
            },
            ..self
        }
    }

    /// The grid with the cursor in the first column.
    pub open spec fn carriage_return(self) -> ScreenView {
        ScreenView { column_index: 0, ..self }
    }

    /// The grid with the cursor `n` columns further left, or in the first
    /// column if that is nearer.
    pub open spec fn move_left(self, n: int) -> ScreenView {
        ScreenView {
            column_index: if n <= self.column_index {
                self.column_index - n
            } else {
                0
            },
            ..self
        }
    }

    /// The grid after a backspace: unless the cursor is in the first column,
    /// it moves one column left and the cell it comes to shows nothing.
    pub open spec fn backspace(self) -> ScreenView {
        if self.column_index > 0 {
            self.move_left(1).put(Cell::blank())
        } else {
            self
        }
    }

    /// The grid with every cell showing nothing and the cursor in the
    /// top-left cell.
    pub open spec fn clear(self) -> ScreenView {
        ScreenView {
            glyphs: blank_glyphs(self.rows(), self.cols()),
            row_index: 0,
            column_index: 0,
            ..self
        }
    }

    /// Whether a viewport of the given size holds at least one cell.
    pub open spec fn fits(self, screen_width: int, screen_height: int) -> bool {
        self.char_width <= screen_width && self.font_size <= screen_height
    }

    /// The grid rebuilt for a viewport of the given size. A cell that lies
    /// on both grids keeps what it shows, the others of the old grid are
    /// dropped and the new ones show nothing. The cursor stays where it is,
    /// or goes to the last row or column if the grid ends before it.
    pub open spec fn resize(self, screen_width: int, screen_height: int) -> ScreenView {
        let rows = screen_height / self.font_size;
        let cols = screen_width / self.char_width;
        ScreenView {
            glyphs: resized_glyphs(self.glyphs, rows, cols),
            row_index: if self.row_index < rows {
                self.row_index
            } else {
                rows - 1
            },
            column_index: if self.column_index < cols {
                self.column_index
            } else {
                cols - 1
            },
            screen_width,
            screen_height,
            ..self
        }
    }
}

/// The rows of a grid as sequences of cells.
pub closed spec fn lines_view(lines: Seq<Vec<Cell>>) -> Seq<Seq<Cell>> {
    Seq::new(lines.len(), |r: int| lines[r]@)
}

/// Puts `cell` in row `r` and column `c` of `lines`.
fn put_cell(lines: &mut Vec<Vec<Cell>>, r: usize, c: usize, cell: Cell)
    requires
        r < old(lines).len(),
        c < old(lines)[r as int].len(),
    ensures
        lines_view(final(lines)@) == lines_view(old(lines)@).update(
            r as int,
            lines_view(old(lines)@)[r as int].update(c as int, cell),
        ),
    no_unwind
{
    lines[r][c] = cell;
    assert(lines_view(lines@) =~~= lines_view(old(lines)@).update(
        r as int,
        lines_view(old(lines)@)[r as int].update(c as int, cell),
    ));
}

/// A row of `cols` cells that show nothing.
fn blank_line(cols: usize) -> (line: Vec<Cell>)
    ensures
        line@ == Seq::new(cols as nat, |c: int| Cell::blank()),
{
    let mut line: Vec<Cell> = Vec::new();
    let mut c: usize = 0;
    while c < cols
        invariant
            c <= cols,
            line.len() == c,
            forall|j: int| 0 <= j < c ==> line[j] == Cell::blank(),
        decreases cols - c,
    {
        line.push(Cell::empty());
        c += 1;
    }
    assert(line@ =~= Seq::new(cols as nat, |c: int| Cell::blank()));
    line
}

/// `rows` rows of `cols` cells that show nothing.
fn blank_lines(rows: usize, cols: usize) -> (lines: Vec<Vec<Cell>>)
    ensures
        lines_view(lines@) == blank_glyphs(rows as int, cols as int),
{
    let mut lines: Vec<Vec<Cell>> = Vec::new();
    let mut r: usize = 0;
    while r < rows
        invariant
            r <= rows,
            lines.len() == r,
            forall|i: int|
                0 <= i < r ==> (#[trigger] lines[i])@ == Seq::new(
                    cols as nat,
                    |c: int| Cell::blank(),
                ),
        decreases rows - r,
    {
        lines.push(blank_line(cols));
        r += 1;
    }
    assert(lines_view(lines@) =~~= blank_glyphs(rows as int, cols as int));
    lines
}

/// The first `cols` cells of `line`, followed by cells that show nothing
/// where `line` is shorter.
fn resized_line(line: &Vec<Cell>, cols: usize) -> (resized: Vec<Cell>)
    ensures
        resized@ == Seq::new(
            cols as nat,
            |c: int|
                if c < line@.len() {
                    line@[c]
                } else {
                    Cell::blank()
                },
        ),
{
    let mut resized: Vec<Cell> = Vec::new();
    let mut c: usize = 0;
    while c < cols
        invariant
            c <= cols,
            resized.len() == c,
            forall|j: int|
                0 <= j < c ==> resized[j] == if j < line@.len() {
                    line@[j]
                } else {
                    Cell::blank()
                },
        decreases cols - c,
    {
        let cell = if c < line.len() {
            line[c]
        } else {
            Cell::empty()
        };
        resized.push(cell);
        c += 1;
    }
    assert(resized@ =~= Seq::new(
        cols as nat,
        |c: int|
            if c < line@.len() {
                line@[c]
            } else {
                Cell::blank()
            },
    ));
    resized
}

/// The cells of `lines` laid on a grid of `rows × cols` cells.
fn resized_lines(lines: &Vec<Vec<Cell>>, rows: usize, cols: usize) -> (resized: Vec<Vec<Cell>>)
    ensures
        lines_view(resized@) == resized_glyphs(lines_view(lines@), rows as int, cols as int),
{
    let mut resized: Vec<Vec<Cell>> = Vec::new();
    let mut r: usize = 0;
    while r < rows
        invariant
            r <= rows,
            resized.len() == r,
            forall|i: int|
                0 <= i < r ==> (#[trigger] resized[i])@ == resized_glyphs(
                    lines_view(lines@),
                    rows as int,
                    cols as int,
                )[i],
        decreases rows - r,
    {
        let line = if r < lines.len() {
            resized_line(&lines[r], cols)
        } else {
            blank_line(cols)
        };
        assert(line@ =~= resized_glyphs(lines_view(lines@), rows as int, cols as int)[r as int]);
        resized.push(line);
        r += 1;
    }
    assert(lines_view(resized@) =~~= resized_glyphs(
        lines_view(lines@),
        rows as int,
        cols as int,
    ));
    resized
}

/// The grid of cells that the terminal shows, with the logical cursor: the
/// place where the next character is written.
pub struct Screen {
    glyphs: Vec<Vec<Cell>>,
    row_index: usize,
    column_index: usize,
    font_size: u32,
    char_width: u32,
    screen_width: u32,
    screen_height: u32,
    offset_from_left: u32,
    offset_from_top: u32,
}

impl View for Screen {
    type V = ScreenView;

    closed spec fn view(&self) -> ScreenView {
        ScreenView {
            glyphs: lines_view(self.glyphs@),
            row_index: self.row_index as int,
            column_index: self.column_index as int,
            font_size: self.font_size as int,
            char_width: self.char_width as int,
            screen_width: self.screen_width as int,
            screen_height: self.screen_height as int,
            offset_from_left: self.offset_from_left as int,
            offset_from_top: self.offset_from_top as int,
        }
    }
}

impl Screen {
    /// What holds of every grid: its view is well formed.
    #[verifier::type_invariant]
    pub open spec fn inv(self) -> bool {
        self@.wf()
    }

    /// The empty grid for a viewport of `screen_width × screen_height`
    /// pixels and character cells of `char_width × font_size` pixels, drawn
    /// from the pixel (`offset_from_left`, `offset_from_top`) on. The
    /// viewport must hold at least one cell.
    pub fn new(
        font_size: u32,
        char_width: u32,
        screen_width: u32,
        screen_height: u32,
        offset_from_left: u32,
        offset_from_top: u32,
    ) -> (screen: Screen)
        requires
            0 < font_size <= screen_height,
            0 < char_width <= screen_width,
        ensures
            screen@ == ScreenView::blank(
                font_size as int,
                char_width as int,
                screen_width as int,
                screen_height as int,
                offset_from_left as int,
                offset_from_top as int,
            ),
            screen@.wf(),
    {
        let rows = (screen_height / font_size) as usize;
        let cols = (screen_width / char_width) as usize;
        proof {
            lemma_quotient_positive(screen_height as int, font_size as int);
            lemma_quotient_positive(screen_width as int, char_width as int);
        }
        let glyphs = blank_lines(rows, cols);
        Screen {
            glyphs,
            row_index: 0,
            column_index: 0,
            font_size,
            char_width,
            screen_width,
            screen_height,
            offset_from_left,
            offset_from_top,
        }
    }

    /// Writes `c` in `color` into the cell under the cursor and advances the
    /// cursor by the width of `c`, as far as the last column.
    pub fn write_char(&mut self, c: char, color: Color)
        ensures
            final(self)@ == old(self)@.write_char(c, color),
        no_unwind
    {
        proof {
            use_type_invariant(&*self);
        }
        let cell = Cell::with_char(c, color);
        let row = self.row_index;
        let column = self.column_index;
        let cols = self.glyphs[0].len();
        assert(self@.glyphs[row as int].len() == self@.cols());
        put_cell(&mut self.glyphs, row, column, cell);
        let width = cell.width as usize;
        self.column_index = if width < cols - column {
            column + width
        } else {
            cols - 1
        };
    }

    /// Moves the cursor one row down, unless it is in the last row.
    pub fn line_feed(&mut self)
        ensures
            final(self)@ == old(self)@.line_feed(),
        no_unwind
    {
        proof {
            use_type_invariant(&*self);
        }
        let rows = self.glyphs.len();
        if self.row_index + 1 < rows {
            self.row_index = self.row_index + 1;
        }
    }

    /// Moves the cursor to the first column.
    pub fn carriage_return(&mut self)
        ensures
            final(self)@ == old(self)@.carriage_return(),
        no_unwind
    {
        proof {
            use_type_invariant(&*self);
        }
        self.column_index = 0;
    }

    /// Moves the cursor `n` columns left, as far as the first column.
    pub fn move_left(&mut self, n: usize)
        ensures
            final(self)@ == old(self)@.move_left(n as int),
        no_unwind
    {
        proof {
            use_type_invariant(&*self);
        }
        self.column_index = if n <= self.column_index {
            self.column_index - n
        } else {
            0
        };
    }

    /// Unless the cursor is in the first column, moves it one column left
    /// and empties the cell it comes to. Returns whether it moved.
    pub fn backspace(&mut self) -> (moved: bool)
        ensures
            moved == (old(self)@.column_index > 0),
            final(self)@ == old(self)@.backspace(),
        no_unwind
    {
        proof {
            use_type_invariant(&*self);
        }
        if self.column_index > 0 {
            let row = self.row_index;
            let column = self.column_index - 1;
            self.column_index = column;
            assert(self@.glyphs[row as int].len() == self@.cols());
            put_cell(&mut self.glyphs, row, column, Cell::empty());
            true
        } else {
            false
        }
    }

    /// This grid with every cell emptied and the cursor in the top-left cell.
    pub fn cleared(&self) -> (screen: Screen)
        ensures
            screen@ == self@.clear(),
    {
        proof {
            use_type_invariant(self);
        }
        let rows = self.glyphs.len();
        let cols = self.glyphs[0].len();
        Screen {
            glyphs: blank_lines(rows, cols),
            row_index: 0,
            column_index: 0,
            font_size: self.font_size,
            char_width: self.char_width,
            screen_width: self.screen_width,
            screen_height: self.screen_height,
            offset_from_left: self.offset_from_left,
            offset_from_top: self.offset_from_top,
        }
    }

    /// Empties every cell and moves the cursor to the top-left cell.
    pub fn clear(&mut self)
        ensures
            final(self)@ == old(self)@.clear(),
    {
        *self = self.cleared();
    }

    /// This grid rebuilt for a viewport of `screen_width × screen_height`
    /// pixels, or nothing if that viewport holds no cell. Cells that lie on
    /// both grids keep what they show; the cursor stays on the grid.
    pub fn resized(&self, screen_width: u32, screen_height: u32) -> (screen: Option<Screen>)
        ensures
            screen is Some <==> self@.fits(screen_width as int, screen_height as int),
            screen is Some ==> screen->0@ == self@.resize(
                screen_width as int,
                screen_height as int,
            ),
    {
        proof {
            use_type_invariant(self);
        }
        if screen_width < self.char_width || screen_height < self.font_size {
            return None;
        }
        let rows = (screen_height / self.font_size) as usize;
        let cols = (screen_width / self.char_width) as usize;
        proof {
            lemma_quotient_positive(screen_height as int, self.font_size as int);
            lemma_quotient_positive(screen_width as int, self.char_width as int);
        }
        let glyphs = resized_lines(&self.glyphs, rows, cols);
        let row_index = if self.row_index < rows {
            self.row_index
        } else {
            rows - 1
        };
        let column_index = if self.column_index < cols {
            self.column_index
        } else {
            cols - 1
        };
        Some(
            Screen {
                glyphs,
                row_index,
                column_index,
                font_size: self.font_size,
                char_width: self.char_width,
                screen_width,
                screen_height,
                offset_from_left: self.offset_from_left,
                offset_from_top: self.offset_from_top,
            },
        )
    }

    /// Rebuilds the grid for a viewport of `screen_width × screen_height`
    /// pixels, if that holds at least one cell, and says whether it did.
    pub fn resize(&mut self, screen_width: u32, screen_height: u32) -> (resized: bool)
        ensures
            resized == old(self)@.fits(screen_width as int, screen_height as int),
            resized ==> final(self)@ == old(self)@.resize(
                screen_width as int,
                screen_height as int,
            ),
            !resized ==> final(self)@ == old(self)@,
    {
        match self.resized(screen_width, screen_height) {
            Some(screen) => {
                *self = screen;
                true
            },
            None => false,
        }
    }

    /// The number of rows.
    pub fn rows(&self) -> (rows: usize)
        ensures
            rows == self@.rows(),
            rows >= 1,
        no_unwind
    {
        proof {
            use_type_invariant(self);
        }
        self.glyphs.len()
    }

    /// The number of columns.
    pub fn cols(&self) -> (cols: usize)
        ensures
            cols == self@.cols(),
            cols >= 1,
        no_unwind
    {
        proof {
            use_type_invariant(self);
        }
        self.glyphs[0].len()
    }

    /// The row of the cursor.
    pub fn row_index(&self) -> (row: usize)
        ensures
            row == self@.row_index,
            row < self@.rows(),
        no_unwind
    {
        proof {
            use_type_invariant(self);
        }
        self.row_index
    }

    /// The column of the cursor.
    pub fn column_index(&self) -> (column: usize)
        ensures
            column == self@.column_index,
            column < self@.cols(),
        no_unwind
    {
        proof {
            use_type_invariant(self);
        }
        self.column_index
    }

    /// The height of a character cell, in pixels.
    pub fn font_size(&self) -> (font_size: u32)
        ensures
            font_size == self@.font_size,
            font_size > 0,
        no_unwind
    {
        proof {
            use_type_invariant(self);
        }
        self.font_size
    }

    /// The width of a character cell, in pixels.
    pub fn char_width(&self) -> (char_width: u32)
        ensures
            char_width == self@.char_width,
            char_width > 0,
        no_unwind
    {
        proof {
            use_type_invariant(self);
        }
        self.char_width
    }

    /// The width of the viewport, in pixels.
    pub fn screen_width(&self) -> (screen_width: u32)
        ensures
            screen_width == self@.screen_width,
        no_unwind
    {
        self.screen_width
    }

    /// The height of the viewport, in pixels.
    pub fn screen_height(&self) -> (screen_height: u32)
        ensures
            screen_height == self@.screen_height,
        no_unwind
    {
        self.screen_height
    }

    /// The distance of the first column from the left edge, in pixels.
    pub fn offset_from_left(&self) -> (offset: u32)
        ensures
            offset == self@.offset_from_left,
        no_unwind
    {
        self.offset_from_left
    }

    /// The distance of the first row from the top edge, in pixels.
    pub fn offset_from_top(&self) -> (offset: u32)
        ensures
            offset == self@.offset_from_top,
        no_unwind
    {
        self.offset_from_top
    }

    /// The pixel at which the cell under the cursor is drawn: its horizontal,
    /// then its vertical position.
    pub fn cursor_position(&self) -> (position: (u64, u64))
        ensures
            position.0 == self@.glyph_x(self@.column_index),
            position.1 == self@.glyph_y(self@.row_index),
            position.0 <= 2 * u32::MAX,
            position.1 <= 2 * u32::MAX,
        no_unwind
    {
        proof {
            use_type_invariant(self);
            lemma_grid_in_viewport(self@, self@.row_index, self@.column_index);
        }
        let column = self.column_index as u64;
        let width = self.char_width as u64;
        let row = self.row_index as u64;
        let height = self.font_size as u64;
        assert(column * width == self@.column_index * self@.char_width);
        assert(row * height == self@.row_index * self@.font_size);
        (self.offset_from_left as u64 + column * width, self.offset_from_top as u64 + row * height)
    }

    /// The cell in row `row` and column `column`, if the grid has it.
    pub fn glyph(&self, row: usize, column: usize) -> (cell: Option<Cell>)
        ensures
            cell is Some <==> row < self@.rows() && column < self@.cols(),
            cell is Some ==> cell->0 == self@.glyph(row as int, column as int),
        no_unwind
    {
        proof {
            use_type_invariant(self);
        }
        if row < self.glyphs.len() && column < self.glyphs[0].len() {
            assert(self@.glyphs[row as int].len() == self@.cols());
            Some(self.glyphs[row][column])
        } else {
            None
        }
    }

    /// The pixel at which the cell in row `row` and column `column` is
    /// drawn, if the grid has that cell: its horizontal, then its vertical
    /// position.
    pub fn glyph_position(&self, row: usize, column: usize) -> (position: Option<(u64, u64)>)
        ensures
            position is Some <==> row < self@.rows() && column < self@.cols(),
            position matches Some(pixel) ==> pixel.0 == self@.glyph_x(column as int) && pixel.1
                == self@.glyph_y(row as int),
        no_unwind
    {
        proof {
            use_type_invariant(self);
        }
        if row < self.glyphs.len() && column < self.glyphs[0].len() {
            proof {
                lemma_grid_in_viewport(self@, row as int, column as int);
            }
            let x = self.offset_from_left as u64 + column as u64 * self.char_width as u64;
            let y = self.offset_from_top as u64 + row as u64 * self.font_size as u64;
            Some((x, y))
        } else {
            None
        }
    }
}

/// A dividend that is at least its positive divisor has a positive quotient.
pub proof fn lemma_quotient_positive(a: int, b: int)
    requires
        0 < b <= a,
    ensures
        a / b >= 1,
{
    assert(a / b >= 1) by (nonlinear_arith)
        requires
            0 < b <= a,
    ;
}

/// The product of a quotient and its divisor is at most the dividend.
pub proof fn lemma_quotient_times_divisor(a: int, b: int)
    requires
        0 <= a,
        0 < b,
    ensures
        0 <= (a / b) * b <= a,
{
    assert(0 <= (a / b) * b <= a) by (nonlinear_arith)
        requires
            0 <= a,
            0 < b,
    ;
}

/// A cell of the grid begins inside the viewport: its distance from the
/// first cell is at most the size of the viewport less one cell.
pub proof fn lemma_grid_in_viewport(screen: ScreenView, r: int, c: int)
    requires
        screen.wf(),
        0 <= r < screen.rows(),
        0 <= c < screen.cols(),
    ensures
        0 <= c * screen.char_width <= screen.screen_width - screen.char_width,
        0 <= r * screen.font_size <= screen.screen_height - screen.font_size,
{
    lemma_quotient_times_divisor(screen.screen_width, screen.char_width);
    lemma_quotient_times_divisor(screen.screen_height, screen.font_size);
    let cols = screen.cols();
    let rows = screen.rows();
    let cw = screen.char_width;
    let fs = screen.font_size;
    assert(0 <= c * cw <= cols * cw - cw) by (nonlinear_arith)
        requires
            0 <= c < cols,
            0 < cw,
    ;
    assert(0 <= r * fs <= rows * fs - fs) by (nonlinear_arith)
        requires
            0 <= r < rows,
            0 < fs,
    ;
}

} // verus!
