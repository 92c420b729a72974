//! The shared terminal grid: what the engine holds, its size, and the copies
//! handed to readers.
use vstd::prelude::*;

use alacritty_terminal::event::VoidListener;
use alacritty_terminal::Term;

use crate::engine::{
    advance, cell_at, has_shape, new_parser, new_screen, resize_screen, screen_after, screen_of,
    screen_resized,
    EscapeParser,
};

verus! {

/// A point-in-time copy of the visible grid: `rows` rows of `columns`
/// characters, stored row after row.
pub struct Snapshot {
    pub columns: u16,
    pub rows: u16,
    pub cells: Vec<char>,
}

impl Snapshot {
    /// The declared size matches the number of cells held.
    pub open spec fn wf(&self) -> bool {
        self.cells@.len() == self.columns as int * self.rows as int
    }

    /// The character at row `i`, column `j`.
    pub open spec fn cell(&self, i: int, j: int) -> char {
        self.cells@[i * self.columns as int + j]
    }

    /// Row `i` as a sequence of characters.
    pub open spec fn line(&self, i: int) -> Seq<char> {
        self.cells@.subrange(i * self.columns as int, i * self.columns as int + self.columns as int)
    }
}

impl Snapshot {
    /// The character at `row`, `col`, or `None` where the position lies
    /// outside the snapshot, as it may when a resize races a reader.
    pub fn char_at(&self, row: u16, col: u16) -> (r: Option<char>)
        requires
            self.wf(),
        ensures
            row < self.rows && col < self.columns ==> r == Some(self.cell(row as int, col as int)),
            !(row < self.rows && col < self.columns) ==> r.is_none(),
    {
        if row < self.rows && col < self.columns {
            proof {
                assert((row as int) * (self.columns as int) + (col as int) < (self.rows as int) * (self.columns as int)) by (nonlinear_arith)
                    requires
                        row < self.rows,
                        col < self.columns,
                ;
                assert(self.rows as int * self.columns as int <= 0xffff * 0xffff) by (nonlinear_arith)
                    requires
                        self.rows <= 0xffff,
                        self.columns <= 0xffff,
                ;
                assert(self.rows as int * self.columns as int == self.columns as int * self.rows as int) by (nonlinear_arith);
            }
            let k: usize = row as usize * self.columns as usize + col as usize;
            Some(self.cells[k])
        } else {
            None
        }
    }
}

/// Row-major positions of earlier rows stay below the start of row `i`.
proof fn lemma_row_major(a: int, b: int, i: int, cols: int)
    requires
        0 <= a < i,
        0 <= b < cols,
    ensures
        0 <= a * cols + b < i * cols,
        a * cols + b >= 0,
{
    assert(a * cols + b < i * cols) by (nonlinear_arith)
        requires
            0 <= a < i,
            0 <= b < cols,
    ;
    assert(a * cols >= 0) by (nonlinear_arith)
        requires
            0 <= a,
            0 <= cols,
    ;
}

/// The terminal grid: the engine's screen, the parser feeding it, and the
/// size last negotiated. Every byte that reached the parser is recorded in
/// the ghost log `fed`, in order.
pub struct GridModel {
    screen: Term<VoidListener>,
    parser: EscapeParser,
    columns: u16,
    rows: u16,
    fed: Ghost<Seq<u8>>,
}

impl GridModel {
    /// Columns of the grid.
    pub closed spec fn width(&self) -> nat {
        self.columns as nat
    }

    /// Rows of the grid.
    pub closed spec fn height(&self) -> nat {
        self.rows as nat
    }

    /// The characters on screen, row by row.
    pub closed spec fn contents(&self) -> Seq<Seq<char>> {
        screen_of(self.screen)
    }

    /// The characters on screen once `bytes` have been fed to the engine.
    pub closed spec fn contents_after(&self, bytes: Seq<u8>) -> Seq<Seq<char>> {
        screen_after(self.screen, self.parser, bytes)
    }

    /// The characters on screen once the grid is resized to `columns` by
    /// `rows`.
    pub closed spec fn contents_resized(&self, columns: u16, rows: u16) -> Seq<Seq<char>> {
        screen_resized(self.screen, columns, rows)
    }

    /// Every byte applied so far, in the order applied.
    pub closed spec fn fed(&self) -> Seq<u8> {
        self.fed@
    }

    /// The screen has exactly the negotiated size, which is never empty.
    pub closed spec fn wf(&self) -> bool {
        &&& self.columns >= 2
        &&& self.rows >= 1
        &&& has_shape(screen_of(self.screen), self.columns as nat, self.rows as nat)
    }

    /// A blank grid of `columns` by `rows` cells that has seen no bytes. The
    /// engine needs two columns at least.
    pub fn new(columns: u16, rows: u16) -> (r: GridModel)
        requires
            columns >= 2,
            rows >= 1,
        ensures
            r.wf(),
            r.width() == columns,
            r.height() == rows,
            r.fed() == Seq::<u8>::empty(),
            forall|i: int, j: int|
                0 <= i < rows && 0 <= j < columns ==> r.contents()[i][j] == ' ',
    {
        GridModel {
            screen: new_screen(columns, rows),
            parser: new_parser(),
            columns,
            rows,
            fed: Ghost(Seq::empty()),
        }
    }

    /// Number of columns.
    pub fn columns(&self) -> (r: u16)
        ensures
            r == self.width(),
    {
        self.columns
    }

    /// Number of rows.
    pub fn rows(&self) -> (r: u16)
        ensures
            r == self.height(),
    {
        self.rows
    }

    /// Feeds bytes read from the process to the engine in one call, so a
    /// reader holding the grid sees the screen before or after the whole
    /// call. What the screen shows is the engine's business: text inside a
    /// synchronized update, for one, appears only once its end arrives.
    pub fn apply(&mut self, bytes: &[u8])
        requires
            old(self).wf(),
        ensures
            final(self).wf(),
            final(self).contents() == old(self).contents_after(bytes@),
            final(self).width() == old(self).width(),
            final(self).height() == old(self).height(),
            final(self).fed() == old(self).fed() + bytes@,
    {
        proof {
            assert(screen_of(self.screen).len() >= 1);
        }
        advance(&mut self.parser, &mut self.screen, bytes);
        self.fed = Ghost(self.fed@ + bytes@);
    }

    /// Changes the grid's size. The grid is resized before the process's
    /// terminal is told, so bytes written for the old size land in a grid
    /// that is already the new size and never index out of it.
    pub fn resize(&mut self, columns: u16, rows: u16)
        requires
            old(self).wf(),
            columns >= 2,
            rows >= 1,
        ensures
            final(self).wf(),
            final(self).width() == columns,
            final(self).height() == rows,
            final(self).contents() == old(self).contents_resized(columns, rows),
            old(self).width() == columns && old(self).height() == rows ==> final(self).contents()
                == old(self).contents(),
            final(self).fed() == old(self).fed(),
    {
        resize_screen(&mut self.screen, columns, rows);
        self.columns = columns;
        self.rows = rows;
    }

    /// Copies the visible cells out, row after row.
    pub fn snapshot(&self) -> (r: Snapshot)
        requires
            self.wf(),
        ensures
            r.wf(),
            r.columns == self.width(),
            r.rows == self.height(),
            forall|i: int, j: int|
                0 <= i < r.rows && 0 <= j < r.columns ==> #[trigger] r.cell(i, j)
                    == self.contents()[i][j],
    {
        let ghost s = screen_of(self.screen);
        let ghost cols = self.columns as int;
        let mut cells: Vec<char> = Vec::new();
        let mut i: u16 = 0;
        while i < self.rows
            invariant
                self.wf(),
                s == screen_of(self.screen),
                cols == self.columns as int,
                0 <= i <= self.rows,
                cells@.len() == i as int * cols,
                forall|a: int, b: int|
                    0 <= a < i && 0 <= b < cols ==> cells@[a * cols + b] == #[trigger] s[a][b],
            decreases self.rows - i,
        {
            let mut j: u16 = 0;
            while j < self.columns
                invariant
                    self.wf(),
                    s == screen_of(self.screen),
                    cols == self.columns as int,
                    0 <= i < self.rows,
                    0 <= j <= self.columns,
                    cells@.len() == i as int * cols + j,
                    forall|a: int, b: int|
                        0 <= a < i && 0 <= b < cols ==> cells@[a * cols + b] == #[trigger] s[a][b],
                    forall|b: int| 0 <= b < j ==> cells@[i as int * cols + b] == #[trigger] s[i as int][b],
                decreases self.columns - j,
            {
                let c = cell_at(&self.screen, i, j);
                let ghost before = cells@;
                cells.push(c);
                assert forall|a: int, b: int| 0 <= a < i && 0 <= b < cols implies cells@[a * cols + b]
                    == #[trigger] s[a][b] by {
                    lemma_row_major(a, b, i as int, cols);
                    assert(before[a * cols + b] == s[a][b]);
                }
                j = j + 1;
            }
            proof {
                assert(cells@.len() == (i as int + 1) * cols) by (nonlinear_arith)
                    requires
                        cells@.len() == i as int * cols + cols,
                ;
            }
            i = i + 1;
        }
        assert(cells@.len() == self.columns as int * self.rows as int) by (nonlinear_arith)
            requires
                cells@.len() == self.rows as int * cols,
                cols == self.columns as int,
        ;
        let r = Snapshot { columns: self.columns, rows: self.rows, cells };
        assert forall|a: int, b: int| 0 <= a < r.rows && 0 <= b < r.columns implies #[trigger] r.cell(a, b)
            == self.contents()[a][b] by {
            assert(cells@[a * cols + b] == s[a][b]);
        }
        r
    }
}

/// A snapshot of a grid resized to `columns` by `rows` reports exactly that
/// size, and holds exactly as many cells as that size declares.
pub proof fn lemma_resize_consistency(g: GridModel, s: Snapshot, columns: u16, rows: u16)
    requires
        g.wf(),
        g.width() == columns,
        g.height() == rows,
        s.wf(),
        s.columns == g.width(),
        s.rows == g.height(),
    ensures
        s.columns == columns,
        s.rows == rows,
        s.cells@.len() == columns as int * rows as int,
        columns >= 2 && rows >= 1,
{
}

} // verus!
