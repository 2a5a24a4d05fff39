//! A grid of character cells with a cursor: the screen that the shell
//! writes into. Lines are added at the bottom as the cursor moves down and
//! are never dropped, so a line's index identifies it for as long as the
//! grid is not erased.

use vstd::prelude::*;

verus! {

/// An opaque color, eight bits per channel.
#[derive(Clone, Copy, Debug, PartialEq, Eq, Structural)]
pub struct Color {
    pub r: u8,
    pub g: u8,
    pub b: u8,
}

/// One character position: what is shown there and in which colors.
#[derive(Clone, Copy, Debug, PartialEq, Eq, Structural)]
pub struct Cell {
    /// The character shown.
    pub ch: char,
    /// Color of the character.
    pub fg: Color,
    /// Color behind the character.
    pub bg: Color,
}

/// A cell that shows `ch` in the default colors.
pub open spec fn plain_cell(ch: char) -> Cell {
    Cell { ch, fg: Color { r: 255, g: 255, b: 255 }, bg: Color { r: 0, g: 0, b: 0 } }
}

/// `column` cells that each show a space in the default colors.
pub open spec fn blank_cells(column: int) -> Seq<Cell> {
    Seq::new(column as nat, |i: int| plain_cell(' '))
}

/// The first `column` of the cells, with blank cells where there are
/// fewer.
pub open spec fn fitted(cells: Seq<Cell>, column: int) -> Seq<Cell> {
    Seq::new(
        column as nat,
        |i: int|
            if i < cells.len() {
                cells[i]
            } else {
                plain_cell(' ')
            },
    )
}

impl Cell {
    /// A cell that shows `ch` in the default colors.
    pub fn new(ch: char) -> (cell: Self)
        ensures
            cell == plain_cell(ch),
    {
        Self { ch, fg: Color { r: 255, g: 255, b: 255 }, bg: Color { r: 0, g: 0, b: 0 } }
    }
}

/// What a line is: its cells from left to right, and the sequence number
/// of the last change to any of them.
pub struct LineModel {
    pub cells: Seq<Cell>,
    pub seqno: int,
}

/// What the grid is: its lines from the oldest down, the cursor as
/// `(column, line)`, the number of columns, and the sequence number of the
/// last change.
pub struct GridModel {
    pub lines: Seq<LineModel>,
    pub cursor: (int, int),
    pub column: int,
    pub seqno: int,
}

/// One thing that the shell's output asks of the grid.
#[derive(Clone, Debug, PartialEq, Eq)]
pub enum GridAction {
    /// Show one character at the cursor and advance.
    Print(char),
    /// Show a run of characters, one after the other.
    PrintString(Vec<char>),
    /// Move the cursor one column left.
    Backspace,
    /// Move the cursor one line down.
    LineFeed,
    /// Move the cursor to the first column.
    CarriageReturn,
    /// Erase the whole grid.
    EraseDisplay,
    /// Blank the cursor's line from the cursor to its end.
    EraseToEndOfLine,
    /// Move the cursor to a zero-based column and line.
    CursorPosition { col: u32, line: u32 },
    /// Move the cursor up by so many lines.
    CursorUp(u32),
    /// Move the cursor down by so many lines.
    CursorDown(u32),
    /// Move the cursor right by so many columns.
    CursorRight(u32),
    /// Move the cursor left by so many columns.
    CursorLeft(u32),
    /// Anything the grid does not act on.
    Ignored,
}

impl GridModel {
    /// The grid is well formed: it has at least one column and one line,
    /// every line is as wide as the grid, the cursor is on a cell, and no
    /// line changed after the grid's last change.
    pub open spec fn wf(self) -> bool {
        &&& self.column > 0
        &&& self.lines.len() > 0
        &&& 0 <= self.cursor.0 < self.column
        &&& 0 <= self.cursor.1 < self.lines.len()
        &&& 0 <= self.seqno <= u64::MAX
        &&& forall|i: int|
            0 <= i < self.lines.len() ==> {
                &&& (#[trigger] self.lines[i]).cells.len() == self.column
                &&& 0 <= self.lines[i].seqno <= self.seqno
            }
    }

    /// The sequence number that the next change gets. It stops at the
    /// largest `u64`.
    pub open spec fn next_seqno(self) -> int {
        if self.seqno < u64::MAX {
            self.seqno + 1
        } else {
            self.seqno
        }
    }

    /// A grid of one blank line with the cursor at its start.
    pub open spec fn fresh(column: int) -> GridModel {
        GridModel {
            lines: seq![LineModel { cells: blank_cells(column), seqno: 0 }],
            cursor: (0, 0),
            column,
            seqno: 0,
        }
    }

    /// The cell under the cursor.
    pub open spec fn current_cell(self) -> Cell {
        self.lines[self.cursor.1].cells[self.cursor.0]
    }

    /// The cursor's position counted in cells from the top-left.
    pub open spec fn cursor_pos(self) -> int {
        self.cursor.0 + self.cursor.1 * self.column
    }

    /// A blank line is added at the bottom.
    pub open spec fn new_row(self) -> GridModel {
        GridModel {
            lines: self.lines.push(
                LineModel { cells: blank_cells(self.column), seqno: self.next_seqno() },
            ),
            seqno: self.next_seqno(),
            ..self
        }
    }

    /// `count` blank lines are added at the bottom, one after the other.
    pub open spec fn new_rows(self, count: nat) -> GridModel
        decreases count,
    {
        if count == 0 {
            self
        } else {
            self.new_row().new_rows((count - 1) as nat)
        }
    }

    /// The cursor moves one column left, unless it is in the first.
    pub open spec fn bs(self) -> GridModel {
        GridModel {
            cursor: (
                if self.cursor.0 > 0 {
                    self.cursor.0 - 1
                } else {
                    0
                },
                self.cursor.1,
            ),
            ..self
        }
    }

    /// The cursor moves one line down; from the last line, onto a new
    /// blank one.
    pub open spec fn lf(self) -> GridModel {
        let grown = if self.lines.len() == self.cursor.1 + 1 {
            self.new_row()
        } else {
            self
        };
        GridModel { cursor: (self.cursor.0, self.cursor.1 + 1), ..grown }
    }

    /// The cursor moves to the first column.
    pub open spec fn cr(self) -> GridModel {
        GridModel { cursor: (0, self.cursor.1), ..self }
    }

    /// The cursor moves one column right; from the last column, to the
    /// start of the next line.
    pub open spec fn advance_cursor(self) -> GridModel {
        if self.cursor.0 == self.column - 1 {
            self.cr().lf()
        } else {
            GridModel { cursor: (self.cursor.0 + 1, self.cursor.1), ..self }
        }
    }

    /// The cursor moves up by `n` lines, at most to the first.
    pub open spec fn cursor_up(self, n: int) -> GridModel {
        GridModel {
            cursor: (
                self.cursor.0,
                if self.cursor.1 >= n {
                    self.cursor.1 - n
                } else {
                    0
                },
            ),
            ..self
        }
    }

    /// The cursor moves down `n` times by one line.
    pub open spec fn cursor_down(self, n: nat) -> GridModel
        decreases n,
    {
        if n == 0 {
            self
        } else {
            self.lf().cursor_down((n - 1) as nat)
        }
    }

    /// The cursor moves right by `n` columns, at most to the last.
    pub open spec fn cursor_right(self, n: int) -> GridModel {
        GridModel {
            cursor: (
                if self.cursor.0 + n < self.column - 1 {
                    self.cursor.0 + n
                } else {
                    self.column - 1
                },
                self.cursor.1,
            ),
            ..self
        }
    }

    /// The cursor moves left by `n` columns, at most to the first.
    pub open spec fn cursor_left(self, n: int) -> GridModel {
        GridModel {
            cursor: (
                if self.cursor.0 >= n {
                    self.cursor.0 - n
                } else {
                    0
                },
                self.cursor.1,
            ),
            ..self
        }
    }

    /// The cell under the cursor becomes `cell`; this counts as a change
    /// to its line.
    pub open spec fn with_cell(self, cell: Cell) -> GridModel {
        let line = self.lines[self.cursor.1];
        GridModel {
            lines: self.lines.update(
                self.cursor.1,
                LineModel { cells: line.cells.update(self.cursor.0, cell), seqno: self.next_seqno() },
            ),
            seqno: self.next_seqno(),
            ..self
        }
    }

    /// The cell under the cursor shows `c`, in the colors it had, and the
    /// cursor advances.
    pub open spec fn text(self, c: char) -> GridModel {
        self.with_cell(Cell { ch: c, ..self.current_cell() }).advance_cursor()
    }

    /// The characters are shown one after the other.
    pub open spec fn text_run(self, run: Seq<char>) -> GridModel
        decreases run.len(),
    {
        if run.len() == 0 {
            self
        } else {
            self.text(run[0]).text_run(run.skip(1))
        }
    }

    /// Only one blank line is left, with the cursor at its start.
    pub open spec fn erase_all(self) -> GridModel {
        GridModel {
            lines: seq![LineModel { cells: blank_cells(self.column), seqno: self.next_seqno() }],
            cursor: (0, 0),
            seqno: self.next_seqno(),
            ..self
        }
    }

    /// The cells of the cursor's line from the cursor on show a space, in
    /// the colors they had.
    pub open spec fn erase_to_end_of_line(self) -> GridModel {
        let line = self.lines[self.cursor.1];
        let cells = Seq::new(
            line.cells.len(),
            |i: int|
                if i >= self.cursor.0 {
                    Cell { ch: ' ', ..line.cells[i] }
                } else {
                    line.cells[i]
                },
        );
        GridModel {
            lines: self.lines.update(self.cursor.1, LineModel { cells, seqno: self.next_seqno() }),
            seqno: self.next_seqno(),
            ..self
        }
    }

    /// The cursor moves to line `line`, which is created with all lines
    /// before it where the grid is too short, and to column `col` or the
    /// last column.
    pub open spec fn set_position(self, col: int, line: int) -> GridModel {
        let grown = if line >= self.lines.len() - 1 {
            self.new_rows((line - (self.lines.len() - 1)) as nat)
        } else {
            self
        };
        GridModel {
            cursor: (
                if col < self.column - 1 {
                    col
                } else {
                    self.column - 1
                },
                line,
            ),
            ..grown
        }
    }

    /// The grid with `column` columns: every line is cut or filled up with
    /// blank cells at its end, which counts as a change to it, and the
    /// cursor stays on the grid. A grid that has `column` columns stays
    /// as it is.
    pub open spec fn resized(self, column: int) -> GridModel {
        if column == self.column {
            self
        } else {
            GridModel {
                lines: Seq::new(
                    self.lines.len(),
                    |i: int|
                        LineModel {
                            cells: fitted(self.lines[i].cells, column),
                            seqno: self.next_seqno(),
                        },
                ),
                cursor: (
                    if self.cursor.0 < column {
                        self.cursor.0
                    } else {
                        column - 1
                    },
                    self.cursor.1,
                ),
                column,
                seqno: self.next_seqno(),
            }
        }
    }

    /// The grid after one action.
    pub open spec fn apply(self, action: GridAction) -> GridModel {
        match action {
            GridAction::Print(c) => self.text(c),
            GridAction::PrintString(run) => self.text_run(run@),
            GridAction::Backspace => self.bs(),
            GridAction::LineFeed => self.lf(),
            GridAction::CarriageReturn => self.cr(),
            GridAction::EraseDisplay => self.erase_all(),
            GridAction::EraseToEndOfLine => self.erase_to_end_of_line(),
            GridAction::CursorPosition { col, line } => self.set_position(col as int, line as int),
            GridAction::CursorUp(n) => self.cursor_up(n as int),
            GridAction::CursorDown(n) => self.cursor_down(n as nat),
            GridAction::CursorRight(n) => self.cursor_right(n as int),
            GridAction::CursorLeft(n) => self.cursor_left(n as int),
            GridAction::Ignored => self,
        }
    }

    /// The grid after a batch of actions, applied in order.
    pub open spec fn apply_all(self, actions: Seq<GridAction>) -> GridModel
        decreases actions.len(),
    {
        if actions.len() == 0 {
            self
        } else {
            self.apply(actions[0]).apply_all(actions.skip(1))
        }
    }
}

/// `String::push`: the character is appended.
pub assume_specification[ String::push ](text: &mut String, ch: char)
    ensures
        final(text)@ == old(text)@.push(ch),
;

/// One line of the grid.
#[derive(Clone)]
pub struct Line {
    raw: Vec<Cell>,
    seqno: u64,
}

impl View for Line {
    type V = LineModel;

    closed spec fn view(&self) -> LineModel {
        LineModel { cells: self.raw@, seqno: self.seqno as int }
    }
}

/// The characters that the cells show, from left to right.
pub open spec fn cell_chars(cells: Seq<Cell>) -> Seq<char> {
    Seq::new(cells.len(), |i: int| cells[i].ch)
}

impl Line {
    /// A line of `col` blank cells that has never changed.
    pub fn new(col: usize) -> (line: Self)
        ensures
            line@ == (LineModel { cells: blank_cells(col as int), seqno: 0 }),
    {
        Self::blank(col, 0)
    }

    /// A line of `col` blank cells, last changed at `seqno`.
    fn blank(col: usize, seqno: u64) -> (line: Self)
        ensures
            line@ == (LineModel { cells: blank_cells(col as int), seqno: seqno as int }),
    {
        let mut raw: Vec<Cell> = Vec::new();
        let mut i: usize = 0;
        while i < col
            invariant
                i <= col,
                raw@ =~= blank_cells(i as int),
            decreases col - i,
        {
            raw.push(Cell::new(' '));
            i += 1;
        }
        Line { raw, seqno }
    }

    /// Appends the line's characters to `out`.
    pub fn write_text(&self, out: &mut String)
        ensures
            final(out)@ == old(out)@ + cell_chars(self@.cells),
    {
        let mut i: usize = 0;
        while i < self.raw.len()
            invariant
                i <= self.raw.len(),
                out@ =~= old(out)@ + cell_chars(self.raw@.take(i as int)),
            decreases self.raw.len() - i,
        {
            out.push(self.raw[i].ch);
            i += 1;
        }
        assert(self.raw@.take(i as int) =~= self.raw@);
    }

    /// Cuts the line or fills it up with blank cells to `col` cells, and
    /// records `seqno` as its last change.
    fn fit(&mut self, col: usize, seqno: u64)
        ensures
            final(self)@ == (LineModel { cells: fitted(old(self)@.cells, col as int), seqno: seqno as int }),
    {
        self.raw.truncate(col);
        while self.raw.len() < col
            invariant
                self.raw.len() <= col,
                self.raw.len() < col ==> old(self).raw@.len() <= self.raw.len(),
                forall|i: int|
                    0 <= i < self.raw.len() ==> #[trigger] self.raw@[i] == fitted(
                        old(self)@.cells,
                        col as int,
                    )[i],
            decreases col - self.raw.len(),
        {
            self.raw.push(Cell::new(' '));
        }
        self.seqno = seqno;
        assert(self.raw@ =~= fitted(old(self)@.cells, col as int));
    }

    /// The cells from left to right.
    pub fn cells(&self) -> (cells: &Vec<Cell>)
        ensures
            cells@ == self@.cells,
    {
        &self.raw
    }

    /// Sequence number of the last change to the line.
    pub fn seqno(&self) -> (seqno: u64)
        ensures
            seqno == self@.seqno,
    {
        self.seqno
    }
}

/// The grid and its cursor.
#[derive(Clone)]
pub struct Terminal {
    grid: Vec<Line>,
    cursor_col: usize,
    cursor_line: usize,
    column: usize,
    seqno: u64,
}

impl View for Terminal {
    type V = GridModel;

    closed spec fn view(&self) -> GridModel {
        GridModel {
            lines: Seq::new(self.grid@.len(), |i: int| self.grid@[i]@),
            cursor: (self.cursor_col as int, self.cursor_line as int),
            column: self.column as int,
            seqno: self.seqno as int,
        }
    }
}

impl Terminal {
    /// The grid is well formed.
    pub open spec fn wf(&self) -> bool {
        self@.wf()
    }

    /// A grid of `column` columns: one blank line, the cursor at its start.
    pub fn new(column: usize) -> (term: Self)
        requires
            column > 0,
        ensures
            term.wf(),
            term@ == GridModel::fresh(column as int),
    {
        let mut grid: Vec<Line> = Vec::new();
        grid.push(Line::new(column));
        let term = Self { grid, cursor_col: 0, cursor_line: 0, column, seqno: 0 };
        assert(term@.lines =~= GridModel::fresh(column as int).lines);
        term
    }

    /// The cursor as `(column, line)`.
    pub fn cursor(&self) -> (cursor: (usize, usize))
        ensures
            cursor.0 == self@.cursor.0,
            cursor.1 == self@.cursor.1,
    {
        (self.cursor_col, self.cursor_line)
    }

    /// Number of columns.
    pub fn column(&self) -> (column: usize)
        ensures
            column == self@.column,
    {
        self.column
    }

    /// Sequence number of the last change to the grid.
    pub fn current_seqno(&self) -> (seqno: u64)
        ensures
            seqno == self@.seqno,
    {
        self.seqno
    }

    /// The cursor's position counted in cells from the top-left.
    pub fn cursor_pos(&self) -> (pos: usize)
        requires
            self@.cursor_pos() <= usize::MAX,
        ensures
            pos == self@.cursor_pos(),
    {
        assert(self.cursor_line * self.column <= self@.cursor_pos()) by (nonlinear_arith)
            requires
                self@.cursor_pos() == self.cursor_col + self.cursor_line * self.column,
        ;
        self.cursor_col + self.cursor_line * self.column
    }

    /// The lines from the oldest down.
    pub fn rows(&self) -> (rows: &Vec<Line>)
        ensures
            rows@.len() == self@.lines.len(),
            forall|i: int| 0 <= i < rows@.len() ==> (#[trigger] rows@[i])@ == self@.lines[i],
    {
        &self.grid
    }

    /// The next sequence number is taken.
    fn bump(&mut self) -> (seqno: u64)
        ensures
            seqno == old(self)@.next_seqno(),
            final(self)@ == (GridModel { seqno: seqno as int, ..old(self)@ }),
    {
        if self.seqno < u64::MAX {
            self.seqno = self.seqno + 1;
        }
        assert(self@.lines =~= old(self)@.lines);
        self.seqno
    }

    /// Adds a blank line at the bottom.
    pub fn new_row(&mut self)
        requires
            old(self).wf(),
        ensures
            final(self).wf(),
            final(self)@ == old(self)@.new_row(),
    {
        let seqno = self.bump();
        self.grid.push(Line::blank(self.column, seqno));
        assert(self@.lines =~= old(self)@.new_row().lines);
    }

    /// Backspace: the cursor moves one column left, unless it is in the
    /// first.
    pub fn bs(&mut self)
        requires
            old(self).wf(),
        ensures
            final(self).wf(),
            final(self)@ == old(self)@.bs(),
    {
        if self.cursor_col > 0 {
            self.cursor_col = self.cursor_col - 1;
        }
        assert(self@.lines =~= old(self)@.lines);
    }

    /// Line feed: the cursor moves one line down; from the last line, onto
    /// a new blank one.
    pub fn lf(&mut self)
        requires
            old(self).wf(),
        ensures
            final(self).wf(),
            final(self)@ == old(self)@.lf(),
    {
        assert(self.cursor_line < self.grid.len());
        let new_y = self.cursor_line + 1;
        if self.grid.len() == new_y {
            self.new_row();
        }
        let ghost grown = self@;
        self.cursor_line = new_y;
        assert(self@.lines =~= grown.lines);
    }

    /// Carriage return: the cursor moves to the first column.
    pub fn cr(&mut self)
        requires
            old(self).wf(),
        ensures
            final(self).wf(),
            final(self)@ == old(self)@.cr(),
    {
        self.cursor_col = 0;
        assert(self@.lines =~= old(self)@.lines);
    }

    /// The cursor moves one column right; from the last column, to the
    /// start of the next line.
    pub fn advance_cursor(&mut self)
        requires
            old(self).wf(),
        ensures
            final(self).wf(),
            final(self)@ == old(self)@.advance_cursor(),
    {
        if self.cursor_col == self.column - 1 {
            self.cr();
            self.lf();
        } else {
            self.cursor_col += 1;
            assert(self@.lines =~= old(self)@.lines);
        }
    }

    /// The cursor moves up by `n` lines, at most to the first.
    pub fn cursor_up(&mut self, n: usize)
        requires
            old(self).wf(),
        ensures
            final(self).wf(),
            final(self)@ == old(self)@.cursor_up(n as int),
    {
        self.cursor_line = if self.cursor_line >= n {
            self.cursor_line - n
        } else {
            0
        };
        assert(self@.lines =~= old(self)@.lines);
    }

    /// The cursor moves down `n` times by one line, onto new lines where
    /// the grid ends.
    pub fn cursor_down(&mut self, n: usize)
        requires
            old(self).wf(),
        ensures
            final(self).wf(),
            final(self)@ == old(self)@.cursor_down(n as nat),
    {
        let mut done: usize = 0;
        while done < n
            invariant
                done <= n,
                self.wf(),
                self@.cursor_down((n - done) as nat) == old(self)@.cursor_down(n as nat),
            decreases n - done,
        {
            self.lf();
            done += 1;
        }
    }

    /// The cursor moves right by `n` columns, at most to the last.
    pub fn cursor_right(&mut self, n: usize)
        requires
            old(self).wf(),
        ensures
            final(self).wf(),
            final(self)@ == old(self)@.cursor_right(n as int),
    {
        let last = self.column - 1;
        self.cursor_col = if n < last - self.cursor_col {
            self.cursor_col + n
        } else {
            last
        };
        assert(self@.lines =~= old(self)@.lines);
    }

    /// The cursor moves left by `n` columns, at most to the first.
    pub fn cursor_left(&mut self, n: usize)
        requires
            old(self).wf(),
        ensures
            final(self).wf(),
            final(self)@ == old(self)@.cursor_left(n as int),
    {
        self.cursor_col = if self.cursor_col >= n {
            self.cursor_col - n
        } else {
            0
        };
        assert(self@.lines =~= old(self)@.lines);
    }

    /// The cell under the cursor, to be written. Handing it out counts as
    /// a change to its line.
    pub fn current_cell_mut(&mut self) -> (cell: &mut Cell)
        requires
            old(self).wf(),
        ensures
            *cell == old(self)@.current_cell(),
            final(self)@ == old(self)@.with_cell(*final(cell)),
            final(self).wf(),
    {
        let seqno = self.bump();
        let ghost before = *self;
        let ghost at = self.cursor_line as int;
        assert(before.grid@[at]@ == old(self)@.lines[at]);
        assert forall|after: Terminal, put: Cell|
            after.column == before.column && after.cursor_col == before.cursor_col
                && after.cursor_line == before.cursor_line && after.seqno == before.seqno
                && after.grid@ == before.grid@.update(at, after.grid@[at]) && after.grid@[at].seqno
                == seqno && after.grid@[at].raw@ == before.grid@[at].raw@.update(
                before.cursor_col as int,
                put,
            ) implies #[trigger] after@ == #[trigger] old(self)@.with_cell(put) by {
            assert(after@.lines =~= old(self)@.with_cell(put).lines);
        }
        let line = &mut self.grid[self.cursor_line];
        line.seqno = seqno;
        &mut line.raw[self.cursor_col]
    }

    /// Shows `c` in the cell under the cursor and advances the cursor.
    pub fn text(&mut self, c: char)
        requires
            old(self).wf(),
        ensures
            final(self).wf(),
            final(self)@ == old(self)@.text(c),
    {
        let cell = self.current_cell_mut();
        cell.ch = c;
        self.advance_cursor();
    }

    /// Erases the grid: one blank line is left, with the cursor at its
    /// start.
    pub fn erase_all(&mut self)
        requires
            old(self).wf(),
        ensures
            final(self).wf(),
            final(self)@ == old(self)@.erase_all(),
    {
        let seqno = self.bump();
        self.grid.clear();
        self.grid.push(Line::blank(self.column, seqno));
        self.cursor_col = 0;
        self.cursor_line = 0;
        assert(self.grid@[0]@ == old(self)@.erase_all().lines[0]);
        assert(self@.lines =~= old(self)@.erase_all().lines);
    }

    /// Blanks the cursor's line from the cursor to its end.
    pub fn erase_to_end_of_line(&mut self)
        requires
            old(self).wf(),
        ensures
            final(self).wf(),
            final(self)@ == old(self)@.erase_to_end_of_line(),
    {
        let seqno = self.bump();
        let ghost before = *self;
        let ghost at = self.cursor_line as int;
        let from = self.cursor_col;
        let width = self.column;
        assert(before.grid@[at]@ == old(self)@.lines[at]);
        assert forall|after: Terminal|
            after.column == before.column && after.cursor_col == before.cursor_col
                && after.cursor_line == before.cursor_line && after.seqno == before.seqno
                && after.grid@ == before.grid@.update(at, after.grid@[at]) && after.grid@[at].seqno
                == seqno && after.grid@[at].raw@ == old(self)@.erase_to_end_of_line().lines[at].cells implies
            #[trigger] after@ == old(self)@.erase_to_end_of_line() by {
            assert(after@.lines =~= old(self)@.erase_to_end_of_line().lines);
        }
        let line = &mut self.grid[self.cursor_line];
        line.seqno = seqno;
        let ghost cells = line.raw@;
        let mut i: usize = from;
        while i < width
            invariant
                from <= i <= width == line.raw@.len() == cells.len(),
                line.seqno == seqno,
                forall|k: int|
                    0 <= k < width ==> #[trigger] line.raw@[k] == if from <= k < i {
                        Cell { ch: ' ', ..cells[k] }
                    } else {
                        cells[k]
                    },
            decreases width - i,
        {
            line.raw[i].ch = ' ';
            i += 1;
        }
        assert(line.raw@ =~= old(self)@.erase_to_end_of_line().lines[at].cells);
    }

    /// Moves the cursor to line `line`, adding blank lines down to it where
    /// the grid is too short, and to column `col` or the last column.
    pub fn set_position(&mut self, col: usize, line: usize)
        requires
            old(self).wf(),
        ensures
            final(self).wf(),
            final(self)@ == old(self)@.set_position(col as int, line as int),
    {
        let last_line = self.grid.len() - 1;
        if line >= last_line {
            let missing = line - last_line;
            let mut added: usize = 0;
            while added < missing
                invariant
                    added <= missing,
                    self.wf(),
                    self@.lines.len() == old(self)@.lines.len() + added,
                    self@.column == old(self)@.column,
                    self@.new_rows((missing - added) as nat) == old(self)@.new_rows(missing as nat),
                decreases missing - added,
            {
                self.new_row();
                added += 1;
            }
        }
        let ghost grown = self@;
        assert(grown.column == old(self)@.column);
        self.cursor_col = if col < self.column - 1 {
            col
        } else {
            self.column - 1
        };
        self.cursor_line = line;
        assert(self@.lines =~= grown.lines);
    }

    /// Gives the grid `column` columns: every line is cut or filled up at
    /// its end, and the cursor stays on the grid.
    pub fn resize(&mut self, column: usize)
        requires
            old(self).wf(),
            column > 0,
        ensures
            final(self).wf(),
            final(self)@ == old(self)@.resized(column as int),
    {
        if column == self.column {
            return ;
        }
        let seqno = self.bump();
        let count = self.grid.len();
        let mut at: usize = 0;
        assert forall|i: int| 0 <= i < count implies (#[trigger] self.grid@[i])@ == old(
            self,
        )@.lines[i] by {
            assert(self@.lines[i] == old(self)@.lines[i]);
        }
        while at < count
            invariant
                at <= count == self.grid@.len() == old(self).grid@.len(),
                self.column == old(self).column,
                self.column != column,
                self.cursor_col == old(self).cursor_col,
                self.cursor_line == old(self).cursor_line,
                self.seqno == seqno == old(self)@.next_seqno(),
                forall|i: int|
                    0 <= i < at ==> (#[trigger] self.grid@[i])@ == old(self)@.resized(
                        column as int,
                    ).lines[i],
                forall|i: int|
                    at <= i < count ==> (#[trigger] self.grid@[i])@ == old(self)@.lines[i],
            decreases count - at,
        {
            self.grid[at].fit(column, seqno);
            at += 1;
        }
        self.column = column;
        if self.cursor_col >= column {
            self.cursor_col = column - 1;
        }
        assert(self@.lines =~= old(self)@.resized(column as int).lines);
    }

    /// Carries out one action.
    pub fn apply(&mut self, action: &GridAction)
        requires
            old(self).wf(),
        ensures
            final(self).wf(),
            final(self)@ == old(self)@.apply(*action),
    {
        match action {
            GridAction::Print(c) => self.text(*c),
            GridAction::PrintString(run) => {
                let mut shown: usize = 0;
                assert(run@.skip(0) =~= run@);
                while shown < run.len()
                    invariant
                        shown <= run.len(),
                        self.wf(),
                        self@.text_run(run@.skip(shown as int)) == old(self)@.text_run(run@),
                    decreases run.len() - shown,
                {
                    assert(run@.skip(shown as int).skip(1) =~= run@.skip(shown + 1));
                    self.text(run[shown]);
                    shown += 1;
                }
            },
            GridAction::Backspace => self.bs(),
            GridAction::LineFeed => self.lf(),
            GridAction::CarriageReturn => self.cr(),
            GridAction::EraseDisplay => self.erase_all(),
            GridAction::EraseToEndOfLine => self.erase_to_end_of_line(),
            GridAction::CursorPosition { col, line } => self.set_position(
                *col as usize,
                *line as usize,
            ),
            GridAction::CursorUp(n) => self.cursor_up(*n as usize),
            GridAction::CursorDown(n) => self.cursor_down(*n as usize),
            GridAction::CursorRight(n) => self.cursor_right(*n as usize),
            GridAction::CursorLeft(n) => self.cursor_left(*n as usize),
            GridAction::Ignored => {},
        }
    }

    /// Carries out a batch of actions in order.
    pub fn apply_all(&mut self, actions: &Vec<GridAction>)
        requires
            old(self).wf(),
        ensures
            final(self).wf(),
            final(self)@ == old(self)@.apply_all(actions@),
    {
        let mut done: usize = 0;
        assert(actions@.skip(0) =~= actions@);
        while done < actions.len()
            invariant
                done <= actions.len(),
                self.wf(),
                self@.apply_all(actions@.skip(done as int)) == old(self)@.apply_all(actions@),
            decreases actions.len() - done,
        {
            assert(actions@.skip(done as int).skip(1) =~= actions@.skip(done + 1));
            self.apply(&actions[done]);
            done += 1;
        }
    }
}

impl GridModel {
    /// `self` is a later state of the grid `earlier`: the sequence number
    /// did not go back, and, as long as it has not reached its end, every
    /// line that is new or differs from the earlier one carries a sequence
    /// number that the earlier grid had not yet reached.
    pub open spec fn evolved_from(self, earlier: GridModel) -> bool {
        &&& earlier.seqno <= self.seqno
        &&& self.seqno < u64::MAX ==> forall|i: int|
            0 <= i < self.lines.len() && (i >= earlier.lines.len() || self.lines[i]
                != earlier.lines[i]) ==> (#[trigger] self.lines[i]).seqno > earlier.seqno
    }
}

/// Every grid is a later state of itself.
pub proof fn lemma_evolved_reflexive(grid: GridModel)
    ensures
        grid.evolved_from(grid),
{
}

/// A later state of a later state is a later state.
pub proof fn lemma_evolved_transitive(first: GridModel, second: GridModel, third: GridModel)
    requires
        second.evolved_from(first),
        third.evolved_from(second),
    ensures
        third.evolved_from(first),
{
    if third.seqno < u64::MAX {
        assert forall|i: int|
            0 <= i < third.lines.len() && (i >= first.lines.len() || third.lines[i]
                != first.lines[i]) implies (#[trigger] third.lines[i]).seqno > first.seqno by {
            if i >= second.lines.len() || third.lines[i] != second.lines[i] {
            } else {
                assert(second.lines[i].seqno > first.seqno);
            }
        }
    }
}

/// Adding blank lines keeps the grid well formed and yields a later state
/// with that many more lines.
pub proof fn lemma_new_rows(grid: GridModel, count: nat)
    requires
        grid.wf(),
    ensures
        grid.new_rows(count).wf(),
        grid.new_rows(count).evolved_from(grid),
        grid.new_rows(count).lines.len() == grid.lines.len() + count,
        grid.new_rows(count).column == grid.column,
        grid.new_rows(count).cursor == grid.cursor,
    decreases count,
{
    if count > 0 {
        lemma_new_rows(grid.new_row(), (count - 1) as nat);
        lemma_evolved_transitive(grid, grid.new_row(), grid.new_rows(count));
    }
}

/// Moving the cursor down keeps the grid well formed and yields a later
/// state.
pub proof fn lemma_cursor_down(grid: GridModel, n: nat)
    requires
        grid.wf(),
    ensures
        grid.cursor_down(n).wf(),
        grid.cursor_down(n).evolved_from(grid),
    decreases n,
{
    if n > 0 {
        lemma_cursor_down(grid.lf(), (n - 1) as nat);
        lemma_evolved_transitive(grid, grid.lf(), grid.cursor_down(n));
    }
}

/// Showing one character keeps the grid well formed and yields a later
/// state.
pub proof fn lemma_text(grid: GridModel, c: char)
    requires
        grid.wf(),
    ensures
        grid.text(c).wf(),
        grid.text(c).evolved_from(grid),
{
    let put = grid.with_cell(Cell { ch: c, ..grid.current_cell() });
    assert(put.wf());
    assert(put.evolved_from(grid));
    assert(put.advance_cursor().evolved_from(put));
    lemma_evolved_transitive(grid, put, grid.text(c));
}

/// Showing a run of characters keeps the grid well formed and yields a
/// later state.
pub proof fn lemma_text_run(grid: GridModel, run: Seq<char>)
    requires
        grid.wf(),
    ensures
        grid.text_run(run).wf(),
        grid.text_run(run).evolved_from(grid),
    decreases run.len(),
{
    if run.len() > 0 {
        lemma_text(grid, run[0]);
        lemma_text_run(grid.text(run[0]), run.skip(1));
        lemma_evolved_transitive(grid, grid.text(run[0]), grid.text_run(run));
    }
}

/// A change of the number of columns keeps the grid well formed and
/// yields a later state of the grid.
pub proof fn lemma_resized(grid: GridModel, column: int)
    requires
        grid.wf(),
        column > 0,
    ensures
        grid.resized(column).wf(),
        grid.resized(column).evolved_from(grid),
        grid.resized(column).lines.len() == grid.lines.len(),
{
}

/// Whatever the action, the grid stays well formed and the result is a
/// later state of the grid.
pub proof fn lemma_apply(grid: GridModel, action: GridAction)
    requires
        grid.wf(),
    ensures
        grid.apply(action).wf(),
        grid.apply(action).evolved_from(grid),
{
    match action {
        GridAction::Print(c) => lemma_text(grid, c),
        GridAction::PrintString(run) => lemma_text_run(grid, run@),
        GridAction::CursorDown(n) => lemma_cursor_down(grid, n as nat),
        GridAction::CursorPosition { col, line } => {
            if line >= grid.lines.len() - 1 {
                lemma_new_rows(grid, (line - (grid.lines.len() - 1)) as nat);
            }
        },
        _ => {},
    }
}

/// Whatever the batch, the grid stays well formed and the result is a
/// later state of the grid.
pub proof fn lemma_apply_all(grid: GridModel, actions: Seq<GridAction>)
    requires
        grid.wf(),
    ensures
        grid.apply_all(actions).wf(),
        grid.apply_all(actions).evolved_from(grid),
    decreases actions.len(),
{
    if actions.len() > 0 {
        lemma_apply(grid, actions[0]);
        lemma_apply_all(grid.apply(actions[0]), actions.skip(1));
        lemma_evolved_transitive(grid, grid.apply(actions[0]), grid.apply_all(actions));
    }
}

/// An empty batch changes nothing.
pub proof fn lemma_empty_batch(grid: GridModel)
    ensures
        grid.apply_all(Seq::<GridAction>::empty()) == grid,
{
}

/// A line whose sequence number is the same in an earlier and a later
/// state of the grid is the same line in both, as long as the grid's
/// sequence number has not reached the largest `u64`.
pub proof fn lemma_same_seqno_same_line(earlier: GridModel, later: GridModel, line: int)
    requires
        earlier.wf(),
        later.evolved_from(earlier),
        later.seqno < u64::MAX,
        0 <= line < earlier.lines.len(),
        line < later.lines.len(),
        later.lines[line].seqno == earlier.lines[line].seqno,
    ensures
        later.lines[line] == earlier.lines[line],
{
}

/// The character at a position of a run.
proof fn char_at(run: Seq<char>, at: int) -> (c: char)
    requires
        0 <= at < run.len(),
    ensures
        c == run[at],
{
    run[at]
}

/// What showing one character does in full: the cell under the cursor
/// shows it in the colors it had, nothing else on the grid changes but for
/// a blank line that is added when the cursor leaves the last cell of the
/// last line, and the cursor moves on.
pub proof fn lemma_text_step(grid: GridModel, c: char)
    requires
        grid.wf(),
    ensures
        ({
            let after = grid.text(c);
            let line = grid.cursor.1;
            let col = grid.cursor.0;
            let wraps = col == grid.column - 1;
            &&& after.wf()
            &&& after.column == grid.column
            &&& after.cursor == if wraps {
                (0int, line + 1)
            } else {
                (col + 1, line)
            }
            &&& after.lines.len() == if wraps && line + 1 == grid.lines.len() {
                line + 2
            } else {
                grid.lines.len() as int
            }
            &&& forall|i: int|
                0 <= i < grid.lines.len() && i != line ==> #[trigger] after.lines[i]
                    == grid.lines[i]
            &&& after.lines[line].cells == grid.lines[line].cells.update(
                col,
                Cell { ch: c, ..grid.lines[line].cells[col] },
            )
            &&& wraps && line + 1 == grid.lines.len() ==> after.lines[line + 1].cells
                == blank_cells(grid.column)
        }),
{
    lemma_text(grid, c);
}

/// Text that ends exactly at the last column fills the cursor's line and
/// nothing else: the cells from the cursor on show the text in the colors
/// they had, every other line that was there stays as it was, the cursor
/// goes to the start of the next line, and where that line is new it is
/// blank.
pub proof fn lemma_fill_line(grid: GridModel, run: Seq<char>)
    requires
        grid.wf(),
        run.len() == grid.column - grid.cursor.0,
    ensures
        ({
            let after = grid.text_run(run);
            let line = grid.cursor.1;
            &&& after.cursor == (0int, line + 1)
            &&& after.column == grid.column
            &&& after.lines.len() == if line + 1 == grid.lines.len() {
                line + 2
            } else {
                grid.lines.len() as int
            }
            &&& forall|i: int|
                0 <= i < grid.lines.len() && i != line ==> #[trigger] after.lines[i]
                    == grid.lines[i]
            &&& after.lines[line].cells.len() == grid.column
            &&& forall|c: int|
                0 <= c < grid.cursor.0 ==> #[trigger] after.lines[line].cells[c]
                    == grid.lines[line].cells[c]
            &&& forall|c: int|
                grid.cursor.0 <= c < grid.column ==> #[trigger] after.lines[line].cells[c] == (Cell {
                    ch: run[c - grid.cursor.0],
                    ..grid.lines[line].cells[c]
                })
            &&& line + 1 == grid.lines.len() ==> after.lines[line + 1].cells == blank_cells(
                grid.column,
            )
        }),
    decreases run.len(),
{
    let line = grid.cursor.1;
    let col = grid.cursor.0;
    let next = grid.text(run[0]);
    let after = grid.text_run(run);
    let first = char_at(run, 0);
    lemma_text_step(grid, first);
    assert(after == next.text_run(run.skip(1)));
    if col == grid.column - 1 {
        assert(run.skip(1).len() == 0);
        assert(after == next);
    } else {
        let rest = run.skip(1);
        lemma_fill_line(next, rest);
        assert(next.cursor == (col + 1, line));
        assert(next.lines.len() == grid.lines.len());
        let shown = Cell { ch: run[0], ..grid.lines[line].cells[col] };
        assert(next.lines[line].cells == grid.lines[line].cells.update(col, shown));
        assert forall|c: int| col <= c < grid.column implies #[trigger] after.lines[line].cells[c]
            == (Cell { ch: run[c - col], ..grid.lines[line].cells[c] }) by {
            if c > col {
                assert(rest[c - (col + 1)] == run[c - col]);
                assert(after.lines[line].cells[c] == (Cell {
                    ch: rest[c - (col + 1)],
                    ..next.lines[line].cells[c]
                }));
                assert(next.lines[line].cells[c] == grid.lines[line].cells[c]);
            } else {
                assert(after.lines[line].cells[c] == next.lines[line].cells[c]);
            }
        }
        assert forall|c: int| 0 <= c < col implies #[trigger] after.lines[line].cells[c]
            == grid.lines[line].cells[c] by {
            assert(after.lines[line].cells[c] == next.lines[line].cells[c]);
        }
        assert forall|i: int| 0 <= i < grid.lines.len() && i != line implies #[trigger] after.lines[i]
            == grid.lines[i] by {
            assert(after.lines[i] == next.lines[i]);
        }
    }
}

/// A run of exactly as many characters as the grid has columns, written
/// from the start of a line, shows in that line and leaves the next one
/// untouched or blank.
pub proof fn lemma_full_line_no_wrap(grid: GridModel, run: Seq<char>)
    requires
        grid.wf(),
        grid.cursor.0 == 0,
        run.len() == grid.column,
    ensures
        cell_chars(grid.text_run(run).lines[grid.cursor.1].cells) == run,
        grid.text_run(run).cursor == (0int, grid.cursor.1 + 1),
        grid.cursor.1 + 1 < grid.lines.len() ==> grid.text_run(run).lines[grid.cursor.1 + 1]
            == grid.lines[grid.cursor.1 + 1],
        grid.cursor.1 + 1 == grid.lines.len() ==> grid.text_run(run).lines[grid.cursor.1
            + 1].cells == blank_cells(grid.column),
{
    lemma_fill_line(grid, run);
    assert(cell_chars(grid.text_run(run).lines[grid.cursor.1].cells) =~= run);
}

} // verus!
