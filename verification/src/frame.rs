//! Composing a frame: from the heights and tones of the bars to the text that
//! a terminal shows.

use crate::palette::Tone;
use crate::{MID_ROW, NUM_BARS, TOTAL_ROWS};
use vstd::prelude::*;
use vstd::string::StringExecFns;

verus! {

/// One half of a column: how many rows it fills, and in which tone.
#[derive(Clone, Copy, Debug, PartialEq, Eq, Structural)]
pub struct Bar {
    pub rows: usize,
    pub tone: Tone,
}

/// One column of the frame. `above` grows upward from the centre line and
/// shows the signal above zero; `below` grows downward and shows the signal
/// below zero.
#[derive(Clone, Copy, Debug, PartialEq, Eq, Structural)]
pub struct Column {
    pub above: Bar,
    pub below: Bar,
}

/// What stands at one place of the frame.
#[derive(Clone, Copy, Debug, PartialEq, Eq, Structural)]
pub enum Cell {
    Blank,
    Divider,
    Filled(Tone),
}

impl Column {
    /// The cell of this column in row `row`, rows counted from the top. The
    /// centre line is the divider. Above it the `above.rows` rows nearest to
    /// the line are filled, below it the `below.rows` nearest; a bar taller
    /// than its half fills the half.
    pub open spec fn cell_at(self, row: int) -> Cell {
        if row < MID_ROW {
            if MID_ROW - self.above.rows <= row {
                Cell::Filled(self.above.tone)
            } else {
                Cell::Blank
            }
        } else if row == MID_ROW {
            Cell::Divider
        } else {
            if row - MID_ROW - 1 < self.below.rows {
                Cell::Filled(self.below.tone)
            } else {
                Cell::Blank
            }
        }
    }

    /// The cell of this column in row `row`.
    pub fn cell(&self, row: usize) -> (cell: Cell)
        ensures
            cell == self.cell_at(row as int),
    {
        if row < MID_ROW {
            let reach: usize = if self.above.rows < MID_ROW {
                MID_ROW - self.above.rows
            } else {
                0
            };
            if row >= reach {
                Cell::Filled(self.above.tone)
            } else {
                Cell::Blank
            }
        } else if row == MID_ROW {
            Cell::Divider
        } else {
            let offset: usize = row - MID_ROW - 1;
            if offset < self.below.rows {
                Cell::Filled(self.below.tone)
            } else {
                Cell::Blank
            }
        }
    }
}

/// The sequence that clears the screen and sends the cursor home.
pub open spec fn clear_text() -> Seq<char> {
    "\x1B[2J\x1B[H"@
}

/// The sequence that ends a tone.
pub open spec fn reset_text() -> Seq<char> {
    "\x1B[0m"@
}

impl Cell {
    /// The text of a cell: one glyph, and around a filled one its tone.
    pub open spec fn text(self) -> Seq<char> {
        match self {
            Cell::Blank => " "@,
            Cell::Divider => "\u{2500}"@,
            Cell::Filled(tone) => tone.escape_text() + "\u{2588}"@ + reset_text(),
        }
    }

    /// Appends the cell's text to `out`.
    pub fn write_to(self, out: &mut String)
        ensures
            final(out)@ == old(out)@ + self.text(),
    {
        match self {
            Cell::Blank => {
                out.append(" ");
            },
            Cell::Divider => {
                out.append("\u{2500}");
            },
            Cell::Filled(tone) => {
                out.append(tone.escape());
                out.append("\u{2588}");
                out.append("\x1B[0m");
            },
        }
    }
}

/// The text of the first `upto` cells of row `row`, left to right.
pub open spec fn cells_text(columns: Seq<Column>, row: int, upto: int) -> Seq<char>
    decreases upto,
{
    if upto <= 0 {
        Seq::empty()
    } else {
        cells_text(columns, row, upto - 1) + columns[upto - 1].cell_at(row).text()
    }
}

/// The text of row `row`: one cell for each column, then a line break.
pub open spec fn line_text(columns: Seq<Column>, row: int) -> Seq<char> {
    cells_text(columns, row, columns.len() as int) + "\n"@
}

/// The text of the first `upto` rows, top to bottom.
pub open spec fn lines_text(columns: Seq<Column>, upto: int) -> Seq<char>
    decreases upto,
{
    if upto <= 0 {
        Seq::empty()
    } else {
        lines_text(columns, upto - 1) + line_text(columns, upto - 1)
    }
}

/// The text of a whole frame: the clearing sequence, then `TOTAL_ROWS` rows.
pub open spec fn frame_text(columns: Seq<Column>) -> Seq<char> {
    clear_text() + lines_text(columns, TOTAL_ROWS as int)
}

/// Whether `c` is one of the three glyphs that a cell can show.
pub open spec fn is_glyph(c: char) -> bool {
    c == ' ' || c == '\u{2500}' || c == '\u{2588}'
}

/// Number of cell glyphs in a text.
pub open spec fn glyphs(text: Seq<char>) -> nat {
    text.filter(|c: char| is_glyph(c)).len()
}

/// Number of line breaks in a text.
pub open spec fn line_breaks(text: Seq<char>) -> nat {
    text.filter(|c: char| c == '\n').len()
}

/// Appends row `row` of the frame to `out`.
pub fn write_line(columns: &[Column; NUM_BARS], row: usize, out: &mut String)
    ensures
        final(out)@ == old(out)@ + line_text(columns@, row as int),
{
    let ghost before = out@;
    let mut at: usize = 0;
    while at < NUM_BARS
        invariant
            at <= NUM_BARS,
            columns@.len() == NUM_BARS,
            out@ == before + cells_text(columns@, row as int, at as int),
        decreases NUM_BARS - at,
    {
        columns[at].cell(row).write_to(out);
        at += 1;
    }
    out.append("\n");
}

/// Composes the frame that shows `columns`.
pub fn compose(columns: &[Column; NUM_BARS]) -> (frame: String)
    ensures
        frame@ == frame_text(columns@),
        line_breaks(frame@) == TOTAL_ROWS,
        glyphs(frame@) == TOTAL_ROWS * NUM_BARS,
{
    proof {
        lemma_frame_shape(*columns);
    }
    let mut frame = String::new();
    frame.append("\x1B[2J\x1B[H");
    let mut row: usize = 0;
    while row < TOTAL_ROWS
        invariant
            row <= TOTAL_ROWS,
            frame@ == clear_text() + lines_text(columns@, row as int),
        decreases TOTAL_ROWS - row,
    {
        write_line(columns, row, &mut frame);
        row += 1;
    }
    frame
}

proof fn lemma_counts_add(a: Seq<char>, b: Seq<char>)
    ensures
        glyphs(a + b) == glyphs(a) + glyphs(b),
        line_breaks(a + b) == line_breaks(a) + line_breaks(b),
{
    Seq::filter_distributes_over_add(a, b, |c: char| is_glyph(c));
    Seq::filter_distributes_over_add(a, b, |c: char| c == '\n');
}

proof fn lemma_counts_empty()
    ensures
        glyphs(Seq::empty()) == 0,
        line_breaks(Seq::empty()) == 0,
{
    reveal(Seq::filter);
}

/// A text without glyphs and line breaks counts nothing.
proof fn lemma_counts_plain(text: Seq<char>)
    requires
        forall|i: int| 0 <= i < text.len() ==> !is_glyph(text[i]) && text[i] != '\n',
    ensures
        glyphs(text) == 0,
        line_breaks(text) == 0,
    decreases text.len(),
{
    reveal(Seq::filter);
    if text.len() > 0 {
        lemma_counts_plain(text.drop_last());
    }
}

proof fn lemma_counts_single(text: Seq<char>)
    requires
        text.len() == 1,
    ensures
        glyphs(text) == if is_glyph(text[0]) { 1nat } else { 0nat },
        line_breaks(text) == if text[0] == '\n' { 1nat } else { 0nat },
{
    reveal(Seq::filter);
    lemma_counts_empty();
    assert(text.drop_last() =~= Seq::empty());
}

proof fn lemma_tone_counts(tone: Tone)
    ensures
        glyphs(tone.escape_text()) == 0,
        line_breaks(tone.escape_text()) == 0,
{
    reveal_strlit("\x1B[38;5;39m");
    reveal_strlit("\x1B[38;5;48m");
    reveal_strlit("\x1B[38;5;190m");
    reveal_strlit("\x1B[38;5;208m");
    reveal_strlit("\x1B[38;5;196m");
    lemma_counts_plain(tone.escape_text());
}

/// A cell shows exactly one glyph and never breaks the line.
pub proof fn lemma_cell_counts(cell: Cell)
    ensures
        glyphs(cell.text()) == 1,
        line_breaks(cell.text()) == 0,
{
    reveal_strlit(" ");
    reveal_strlit("\u{2500}");
    reveal_strlit("\u{2588}");
    match cell {
        Cell::Blank => {
            lemma_counts_single(" "@);
        },
        Cell::Divider => {
            lemma_counts_single("\u{2500}"@);
        },
        Cell::Filled(tone) => {
            reveal_strlit("\x1B[0m");
            lemma_tone_counts(tone);
            lemma_counts_plain(reset_text());
            lemma_counts_single("\u{2588}"@);
            lemma_counts_add(tone.escape_text(), "\u{2588}"@);
            lemma_counts_add(tone.escape_text() + "\u{2588}"@, reset_text());
        },
    }
}

proof fn lemma_cells_counts(columns: Seq<Column>, row: int, upto: int)
    requires
        0 <= upto,
    ensures
        glyphs(cells_text(columns, row, upto)) == upto,
        line_breaks(cells_text(columns, row, upto)) == 0,
    decreases upto,
{
    if upto == 0 {
        lemma_counts_empty();
    } else {
        lemma_cells_counts(columns, row, upto - 1);
        lemma_cell_counts(columns[upto - 1].cell_at(row));
        lemma_counts_add(
            cells_text(columns, row, upto - 1),
            columns[upto - 1].cell_at(row).text(),
        );
    }
}

/// A row of the frame shows one glyph for each column and ends with its only
/// line break.
pub proof fn lemma_line_shape(columns: Seq<Column>, row: int)
    ensures
        glyphs(line_text(columns, row)) == columns.len(),
        line_breaks(line_text(columns, row)) == 1,
        line_text(columns, row).last() == '\n',
{
    reveal_strlit("\n");
    lemma_cells_counts(columns, row, columns.len() as int);
    lemma_counts_single("\n"@);
    lemma_counts_add(cells_text(columns, row, columns.len() as int), "\n"@);
}

proof fn lemma_lines_counts(columns: Seq<Column>, upto: int)
    requires
        0 <= upto,
    ensures
        glyphs(lines_text(columns, upto)) == upto * columns.len(),
        line_breaks(lines_text(columns, upto)) == upto,
    decreases upto,
{
    if upto == 0 {
        lemma_counts_empty();
    } else {
        lemma_lines_counts(columns, upto - 1);
        lemma_line_shape(columns, upto - 1);
        lemma_counts_add(lines_text(columns, upto - 1), line_text(columns, upto - 1));
        assert(upto * columns.len() == (upto - 1) * columns.len() + columns.len())
            by (nonlinear_arith);
    }
}

/// The shape of a frame. Behind the clearing sequence it has `TOTAL_ROWS`
/// lines and no more, and each line shows exactly `NUM_BARS` glyphs, one for
/// each column, before its line break.
pub proof fn lemma_frame_shape(columns: [Column; NUM_BARS])
    ensures
        frame_text(columns@) == clear_text() + lines_text(columns@, TOTAL_ROWS as int),
        line_breaks(frame_text(columns@)) == TOTAL_ROWS,
        glyphs(frame_text(columns@)) == TOTAL_ROWS * NUM_BARS,
        forall|row: int|
            glyphs(#[trigger] line_text(columns@, row)) == NUM_BARS && line_breaks(
                line_text(columns@, row),
            ) == 1 && line_text(columns@, row).last() == '\n',
{
    reveal_strlit("\x1B[2J\x1B[H");
    lemma_counts_plain(clear_text());
    lemma_lines_counts(columns@, TOTAL_ROWS as int);
    lemma_counts_add(clear_text(), lines_text(columns@, TOTAL_ROWS as int));
    assert forall|row: int|
        glyphs(#[trigger] line_text(columns@, row)) == NUM_BARS && line_breaks(
            line_text(columns@, row),
        ) == 1 && line_text(columns@, row).last() == '\n' by {
        lemma_line_shape(columns@, row);
    }
}

} // verus!
