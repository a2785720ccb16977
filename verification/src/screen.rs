//! The character grid a windowed terminal draws: a buffer of cells, each
//! a character with its colours, and the renderer that sizes it to the
//! window.

use vstd::prelude::*;
use crate::theme::Color;
use crate::cache::strings_view;

verus! {

/// One character cell of the terminal.
#[derive(Debug, Clone, Copy, PartialEq, Eq, Structural)]
pub struct TerminalCell {
    pub ch: char,
    pub fg: Color,
    pub bg: Color,
}

/// The empty cell: a space, white on black.
pub open spec fn blank_cell() -> TerminalCell {
    TerminalCell { ch: ' ', fg: Color::White, bg: Color::Black }
}

impl Default for TerminalCell {
    fn default() -> (r: Self)
        ensures
            r == blank_cell(),
    {
        TerminalCell { ch: ' ', fg: Color::White, bg: Color::Black }
    }
}

/// A grid of `height` rows of `width` cells.
#[derive(Debug)]
pub struct TerminalBuffer {
    cells: Vec<Vec<TerminalCell>>,
    width: usize,
    height: usize,
}

/// The grid of `height` rows of `width` blank cells.
pub open spec fn blank_grid(width: nat, height: nat) -> Seq<Seq<TerminalCell>> {
    Seq::new(height, |_y: int| Seq::new(width, |_x: int| blank_cell()))
}

/// A row of `width` blank cells.
fn blank_row(width: usize) -> (r: Vec<TerminalCell>)
    ensures
        r@ == Seq::new(width as nat, |_x: int| blank_cell()),
{
    let mut row: Vec<TerminalCell> = Vec::new();
    let mut i: usize = 0;
    while i < width
        invariant
            i <= width,
            row@ == Seq::new(i as nat, |_x: int| blank_cell()),
        decreases width - i,
    {
        row.push(TerminalCell::default());
        i = i + 1;
        assert(row@ =~= Seq::new(i as nat, |_x: int| blank_cell()));
    }
    row
}

/// `height` rows of `width` blank cells.
fn blank_rows(width: usize, height: usize) -> (r: Vec<Vec<TerminalCell>>)
    ensures
        r@.map_values(|r: Vec<TerminalCell>| r@) == blank_grid(width as nat, height as nat),
{
    let mut cells: Vec<Vec<TerminalCell>> = Vec::new();
    let mut i: usize = 0;
    while i < height
        invariant
            i <= height,
            cells@.len() == i,
            forall|j: int| 0 <= j < i ==> #[trigger] cells@[j]@ == Seq::new(width as nat, |_x: int| blank_cell()),
        decreases height - i,
    {
        cells.push(blank_row(width));
        i = i + 1;
    }
    assert(cells@.map_values(|r: Vec<TerminalCell>| r@) =~~= blank_grid(width as nat, height as nat));
    cells
}

impl TerminalBuffer {
    /// The cells, row by row.
    pub closed spec fn grid(&self) -> Seq<Seq<TerminalCell>> {
        self.cells@.map_values(|r: Vec<TerminalCell>| r@)
    }

    /// The number of columns.
    pub closed spec fn columns(&self) -> nat {
        self.width as nat
    }

    /// The number of rows.
    pub closed spec fn rows(&self) -> nat {
        self.height as nat
    }

    /// The grid has `rows()` rows of `columns()` cells.
    pub open spec fn wf(&self) -> bool {
        &&& self.grid().len() == self.rows()
        &&& forall|y: int| 0 <= y < self.rows() ==> #[trigger] self.grid()[y].len() == self.columns()
    }

    /// A buffer of blank cells.
    pub fn new(width: usize, height: usize) -> (r: Self)
        ensures
            r.wf(),
            r.columns() == width,
            r.rows() == height,
            r.grid() == blank_grid(width as nat, height as nat),
    {
        let cells = blank_rows(width, height);
        TerminalBuffer { cells, width, height }
    }

    /// Blanks every cell.
    pub fn clear(&mut self)
        requires
            old(self).wf(),
        ensures
            final(self).wf(),
            final(self).columns() == old(self).columns(),
            final(self).rows() == old(self).rows(),
            final(self).grid() == blank_grid(old(self).columns(), old(self).rows()),
    {
        let cells = blank_rows(self.width, self.height);
        self.cells = cells;
    }

    /// Writes a cell; a position outside the grid is ignored.
    pub fn set_cell(&mut self, x: usize, y: usize, cell: TerminalCell)
        requires
            old(self).wf(),
        ensures
            final(self).wf(),
            final(self).columns() == old(self).columns(),
            final(self).rows() == old(self).rows(),
            final(self).grid() == (if x < old(self).columns() && y < old(self).rows() {
                old(self).grid().update(y as int, old(self).grid()[y as int].update(x as int, cell))
            } else {
                old(self).grid()
            }),
    {
        if x < self.width && y < self.height {
            let ghost g = self.grid();
            assert(g[y as int] == self.cells@[y as int]@);
            let mut row = self.cells.remove(y);
            row.set(x, cell);
            self.cells.insert(y, row);
            assert(self.grid() =~~= g.update(y as int, g[y as int].update(x as int, cell)));
        }
    }

    /// The cell at a position, if it lies in the grid.
    pub fn get_cell(&self, x: usize, y: usize) -> (r: Option<&TerminalCell>)
        requires
            self.wf(),
        ensures
            x < self.columns() && y < self.rows() ==> (r matches Some(c) && *c == self.grid()[y as int][x as int]),
            !(x < self.columns() && y < self.rows()) ==> r is None,
    {
        if x < self.width && y < self.height {
            Some(&self.cells[y][x])
        } else {
            None
        }
    }
}

/// The characters of each row of a grid.
pub open spec fn grid_text(g: Seq<Seq<TerminalCell>>) -> Seq<Seq<char>> {
    g.map_values(|row: Seq<TerminalCell>| row.map_values(|c: TerminalCell| c.ch))
}

impl TerminalBuffer {
    /// The text of the grid, one string per row.
    pub fn screen_lines(&self) -> (r: Vec<String>)
        requires
            self.wf(),
        ensures
            strings_view(r@) == grid_text(self.grid()),
    {
        let mut r: Vec<String> = Vec::new();
        let mut y: usize = 0;
        while y < self.cells.len()
            invariant
                self.wf(),
                y <= self.cells@.len(),
                strings_view(r@) == grid_text(self.grid()).subrange(0, y as int),
            decreases self.cells@.len() - y,
        {
            let row = &self.cells[y];
            let mut line = String::new();
            let mut x: usize = 0;
            while x < row.len()
                invariant
                    x <= row@.len(),
                    line@ == row@.subrange(0, x as int).map_values(|c: TerminalCell| c.ch),
                decreases row@.len() - x,
            {
                crate::text::push_char(&mut line, row[x].ch);
                x = x + 1;
                assert(line@ =~= row@.subrange(0, x as int).map_values(|c: TerminalCell| c.ch));
            }
            assert(row@.subrange(0, x as int) =~= row@);
            assert(self.grid()[y as int] == row@);
            let ghost l = line@;
            assert(l =~= grid_text(self.grid())[y as int]);
            let ghost before = strings_view(r@);
            r.push(line);
            assert(strings_view(r@) =~= before.push(l));
            y = y + 1;
            assert(strings_view(r@) =~= grid_text(self.grid()).subrange(0, y as int));
        }
        assert(grid_text(self.grid()).subrange(0, y as int) =~= grid_text(self.grid()));
        r
    }
}

/// A cell read back after it was written holds what was written; the
/// other cells keep theirs.
pub proof fn law_set_then_get(b: TerminalBuffer, x: nat, y: nat, cell: TerminalCell, x2: nat, y2: nat)
    requires
        b.wf(),
        x < b.columns(),
        y < b.rows(),
        x2 < b.columns(),
        y2 < b.rows(),
    ensures
        ({
            let g = b.grid().update(y as int, b.grid()[y as int].update(x as int, cell));
            &&& g[y as int][x as int] == cell
            &&& (x2 != x || y2 != y) ==> g[y2 as int][x2 as int] == b.grid()[y2 as int][x2 as int]
        }),
{
}

/// Sizes the character grid to a window: cells are 9 by 18 pixels.
pub struct TerminalRenderer {
    pub char_width: usize,
    pub char_height: usize,
    pub width_in_chars: usize,
    pub height_in_chars: usize,
    pub buffer: TerminalBuffer,
    pub window_width: u32,
    pub window_height: u32,
}

/// Whether a renderer fits a window of the given size: whole cells of its
/// cell size, and a blank buffer of that many columns and rows.
pub open spec fn fitted(r: TerminalRenderer, w: u32, h: u32) -> bool {
    &&& r.window_width == w
    &&& r.window_height == h
    &&& r.width_in_chars == (w as int) / (r.char_width as int)
    &&& r.height_in_chars == (h as int) / (r.char_height as int)
    &&& r.buffer.wf()
    &&& r.buffer.columns() == r.width_in_chars
    &&& r.buffer.rows() == r.height_in_chars
    &&& r.buffer.grid() == blank_grid(r.width_in_chars as nat, r.height_in_chars as nat)
}

impl TerminalRenderer {
    /// A renderer for a window of the given size in pixels.
    pub fn new(window_width: u32, window_height: u32) -> (r: Self)
        ensures
            r.char_width == 9,
            r.char_height == 18,
            fitted(r, window_width, window_height),
    {
        let char_width: usize = 9;
        let char_height: usize = 18;
        let width_in_chars = window_width as usize / char_width;
        let height_in_chars = window_height as usize / char_height;
        let buffer = TerminalBuffer::new(width_in_chars, height_in_chars);
        TerminalRenderer {
            char_width,
            char_height,
            width_in_chars,
            height_in_chars,
            buffer,
            window_width,
            window_height,
        }
    }

    /// Fits the renderer to a new window size; the buffer starts blank.
    pub fn resize(&mut self, new_width: u32, new_height: u32)
        requires
            old(self).char_width > 0,
            old(self).char_height > 0,
        ensures
            final(self).char_width == old(self).char_width,
            final(self).char_height == old(self).char_height,
            fitted(*final(self), new_width, new_height),
    {
        self.window_width = new_width;
        self.window_height = new_height;
        let width_in_chars = new_width as usize / self.char_width;
        let height_in_chars = new_height as usize / self.char_height;
        self.width_in_chars = width_in_chars;
        self.height_in_chars = height_in_chars;
        self.buffer = TerminalBuffer::new(width_in_chars, height_in_chars);
    }

    /// Blanks the grid.
    pub fn clear(&mut self)
        requires
            old(self).buffer.wf(),
        ensures
            final(self).buffer.wf(),
            final(self).buffer.columns() == old(self).buffer.columns(),
            final(self).buffer.rows() == old(self).buffer.rows(),
            final(self).buffer.grid() == blank_grid(old(self).buffer.columns(), old(self).buffer.rows()),
            final(self).width_in_chars == old(self).width_in_chars,
            final(self).height_in_chars == old(self).height_in_chars,
            final(self).window_width == old(self).window_width,
            final(self).window_height == old(self).window_height,
            final(self).char_width == old(self).char_width,
            final(self).char_height == old(self).char_height,
    {
        self.buffer.clear();
    }
}

} // verus!
