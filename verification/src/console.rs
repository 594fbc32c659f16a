//! The boot console as a state machine: a fixed grid of characters, a
//! cursor, line wrap and scroll. What it owns and guarantees is the text
//! state; painting glyphs for it is the rendering layer's work, which reads
//! the grid back out.

use vstd::prelude::*;

use crate::graphics::PixelColor;

verus! {

/// Rows of the console grid.
pub const CONSOLE_ROWS: usize = 25;

/// Columns of the console grid; each stored row keeps one extra byte so a
/// row is always a terminated C-style string.
pub const CONSOLE_COLUMNS: usize = 80;

/// The console's text state: the character grid and the cursor.
pub struct ConsoleState {
    pub rows: Seq<Seq<u8>>,
    pub cursor_row: int,
    pub cursor_column: int,
}

/// An all-zero row.
pub open spec fn spec_blank_row() -> Seq<u8> {
    Seq::new((CONSOLE_COLUMNS + 1) as nat, |j: int| 0u8)
}

/// The grid after scrolling one line: every row takes the one below it and
/// the last row clears.
pub open spec fn spec_scrolled(rows: Seq<Seq<u8>>) -> Seq<Seq<u8>> {
    Seq::new(
        CONSOLE_ROWS as nat,
        |i: int|
            if i < CONSOLE_ROWS - 1 {
                rows[i + 1]
            } else {
                spec_blank_row()
            },
    )
}

/// A line break: the cursor returns to column zero and moves down a row,
/// scrolling once the bottom row is reached.
pub open spec fn spec_newline(s: ConsoleState) -> ConsoleState {
    if s.cursor_row < CONSOLE_ROWS - 1 {
        ConsoleState { rows: s.rows, cursor_row: s.cursor_row + 1, cursor_column: 0 }
    } else {
        ConsoleState { rows: spec_scrolled(s.rows), cursor_row: s.cursor_row, cursor_column: 0 }
    }
}

/// One printable character: a newline breaks the line; anything else is
/// stored at the cursor — after a break when the line is at its last usable
/// column — and the cursor advances.
pub open spec fn spec_put_char(s: ConsoleState, c: char) -> ConsoleState {
    if c == '\n' {
        spec_newline(s)
    } else {
        let t = if s.cursor_column >= CONSOLE_COLUMNS - 1 {
            spec_newline(s)
        } else {
            s
        };
        ConsoleState {
            rows: t.rows.update(
                t.cursor_row,
                t.rows[t.cursor_row].update(t.cursor_column, (c as u32) as u8),
            ),
            cursor_row: t.cursor_row,
            cursor_column: t.cursor_column + 1,
        }
    }
}

/// A whole string, character by character; a NUL stops the processing of
/// everything after it.
pub open spec fn spec_put_chars(s: ConsoleState, chars: Seq<char>) -> ConsoleState
    decreases chars.len(),
{
    if chars.len() == 0 {
        s
    } else if chars[0] == '\0' {
        s
    } else {
        spec_put_chars(spec_put_char(s, chars[0]), chars.drop_first())
    }
}

/// The console: the character grid, the cursor, and the colours the
/// rendering layer draws it with.
pub struct Console {
    fg_color: PixelColor,
    bg_color: PixelColor,
    buffer: Vec<Vec<u8>>,
    cursor_row: usize,
    cursor_column: usize,
}

fn blank_row() -> (r: Vec<u8>)
    ensures
        r@ == spec_blank_row(),
{
    let mut row: Vec<u8> = Vec::new();
    let mut j: usize = 0;
    while j < CONSOLE_COLUMNS + 1
        invariant
            j <= CONSOLE_COLUMNS + 1,
            row@.len() == j,
            forall|k: int| 0 <= k < j ==> row@[k] == 0u8,
        decreases CONSOLE_COLUMNS + 1 - j,
    {
        row.push(0);
        j = j + 1;
    }
    proof {
        assert(row@ =~= spec_blank_row());
    }
    row
}

impl Console {
    /// The text state, as contracts see it.
    pub closed spec fn spec_state(&self) -> ConsoleState {
        ConsoleState {
            rows: self.buffer@.map_values(|row: Vec<u8>| row@),
            cursor_row: self.cursor_row as int,
            cursor_column: self.cursor_column as int,
        }
    }

    /// The foreground colour, as contracts see it.
    pub closed spec fn spec_fg_color(&self) -> PixelColor {
        self.fg_color
    }

    /// The background colour, as contracts see it.
    pub closed spec fn spec_bg_color(&self) -> PixelColor {
        self.bg_color
    }

    /// The grid keeps its dimensions and the cursor stays inside it.
    pub open spec fn wf(&self) -> bool {
        &&& self.spec_state().rows.len() == CONSOLE_ROWS
        &&& (forall|i: int|
            0 <= i < CONSOLE_ROWS ==> (#[trigger] self.spec_state().rows[i]).len()
                == CONSOLE_COLUMNS + 1)
        &&& 0 <= self.spec_state().cursor_row < CONSOLE_ROWS
        &&& 0 <= self.spec_state().cursor_column < CONSOLE_COLUMNS
    }

    /// A blank console with the cursor in the top-left corner.
    pub fn new(fg_color: PixelColor, bg_color: PixelColor) -> (r: Console)
        ensures
            r.wf(),
            r.spec_state().rows =~= Seq::new(CONSOLE_ROWS as nat, |i: int| spec_blank_row()),
            r.spec_state().cursor_row == 0,
            r.spec_state().cursor_column == 0,
            r.spec_fg_color() == fg_color,
            r.spec_bg_color() == bg_color,
    {
        let mut buffer: Vec<Vec<u8>> = Vec::new();
        let mut i: usize = 0;
        while i < CONSOLE_ROWS
            invariant
                i <= CONSOLE_ROWS,
                buffer@.len() == i,
                forall|k: int| 0 <= k < i ==> #[trigger] buffer@[k]@ == spec_blank_row(),
            decreases CONSOLE_ROWS - i,
        {
            buffer.push(blank_row());
            i = i + 1;
        }
        let r = Console { fg_color, bg_color, buffer, cursor_row: 0, cursor_column: 0 };
        proof {
            assert(r.spec_state().rows =~= Seq::new(CONSOLE_ROWS as nat, |i: int| spec_blank_row()));
        }
        r
    }

    /// The character byte stored at a grid cell.
    pub fn char_at(&self, row: usize, column: usize) -> (r: u8)
        requires
            self.wf(),
            row < CONSOLE_ROWS,
            column < CONSOLE_COLUMNS + 1,
        ensures
            r == self.spec_state().rows[row as int][column as int],
    {
        proof {
            assert(self.spec_state().rows[row as int] == self.buffer@[row as int]@);
        }
        self.buffer[row][column]
    }

    /// The cursor's row.
    pub fn cursor_row(&self) -> (r: usize)
        ensures
            r == self.spec_state().cursor_row,
    {
        self.cursor_row
    }

    /// The cursor's column.
    pub fn cursor_column(&self) -> (r: usize)
        ensures
            r == self.spec_state().cursor_column,
    {
        self.cursor_column
    }

    /// Breaks the line, scrolling at the bottom row.
    fn newline(&mut self)
        requires
            old(self).wf(),
        ensures
            final(self).wf(),
            final(self).spec_state() == spec_newline(old(self).spec_state()),
            final(self).spec_fg_color() == old(self).spec_fg_color(),
            final(self).spec_bg_color() == old(self).spec_bg_color(),
    {
        self.cursor_column = 0;
        if self.cursor_row < CONSOLE_ROWS - 1 {
            self.cursor_row = self.cursor_row + 1;
        } else {
            self.buffer.remove(0);
            self.buffer.push(blank_row());
            proof {
                assert(self.spec_state().rows =~= spec_scrolled(old(self).spec_state().rows));
            }
        }
    }

    /// Writes a string at the cursor: printable characters fill the grid
    /// left to right, `\n` breaks the line, a full line wraps, the bottom
    /// row scrolls, and a NUL cuts the string short.
    pub fn put_string(&mut self, s: &str)
        requires
            old(self).wf(),
        ensures
            final(self).wf(),
            final(self).spec_state() == spec_put_chars(old(self).spec_state(), s@),
            final(self).spec_fg_color() == old(self).spec_fg_color(),
            final(self).spec_bg_color() == old(self).spec_bg_color(),
    {
        let n = s.unicode_len();
        let mut i: usize = 0;
        proof {
            assert(s@.skip(0) =~= s@);
        }
        while i < n
            invariant
                self.wf(),
                i <= n,
                n == s@.len(),
                self.spec_fg_color() == old(self).spec_fg_color(),
                self.spec_bg_color() == old(self).spec_bg_color(),
                spec_put_chars(old(self).spec_state(), s@) == spec_put_chars(
                    self.spec_state(),
                    s@.skip(i as int),
                ),
            decreases n - i,
        {
            let ghost entry_state = self.spec_state();
            let c = s.get_char(i);
            proof {
                assert(s@.skip(i as int)[0] == c);
                assert(s@.skip(i as int).drop_first() =~= s@.skip(i as int + 1));
            }
            if c == '\0' {
                return ;
            }
            if c == '\n' {
                self.newline();
            } else {
                if self.cursor_column >= CONSOLE_COLUMNS - 1 {
                    self.newline();
                }
                let ghost t = self.spec_state();
                let row_idx = self.cursor_row;
                let col_idx = self.cursor_column;
                let mut row = self.buffer.remove(row_idx);
                row.set(col_idx, (c as u32) as u8);
                self.buffer.insert(row_idx, row);
                self.cursor_column = col_idx + 1;
                proof {
                    assert(self.spec_state().rows =~= t.rows.update(
                        t.cursor_row,
                        t.rows[t.cursor_row].update(t.cursor_column, (c as u32) as u8),
                    ));
                    assert(self.spec_state() == spec_put_char(entry_state, c));
                }
            }
            i = i + 1;
        }
        proof {
            assert(s@.skip(n as int).len() == 0);
        }
    }
}

} // verus!
