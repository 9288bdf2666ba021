//! How the console treats the keys it reads, and where its cursor goes at the
//! end of a line.
use vstd::prelude::*;

verus! {

/// Whether a key that is read is written back to the console.
#[derive(Copy, Clone, PartialEq, Eq, Debug)]
pub enum EchoOptions {
    /// The key is written back.
    EchoOn,
    /// The key is not written back.
    EchoOff,
}

/// What the console does at a line break. In raw mode a line feed alone does
/// not bring the cursor back to the first column.
#[derive(Copy, Clone, PartialEq, Eq, Debug)]
pub enum LineBreak {
    /// The screen is full: it scrolls up by one line, and the cursor moves
    /// to the first column.
    ScrollUp,
    /// The cursor moves to the start of the next line.
    MoveToNextLine,
}

/// The largest row that a text can stand on: one more than the largest row of
/// a cursor.
pub const MAX_ROW: u32 = 0x1_0000;

/// The row on which a text starts that is written with the cursor on
/// `cursor_row`: rows of texts count from one.
pub fn first_row(cursor_row: u16) -> (row: u32)
    ensures
        row == cursor_row + 1,
        row <= MAX_ROW,
{
    cursor_row as u32 + 1
}

/// What a line break does on `row` of a screen of `row_count` rows, and the
/// row on which the text goes on.
pub open spec fn line_break_on(row: u32, row_count: u16) -> (LineBreak, u32) {
    if row + 1 >= row_count {
        (LineBreak::ScrollUp, row)
    } else {
        (LineBreak::MoveToNextLine, (row + 1) as u32)
    }
}

/// What the console does at a line break on `row` of a screen of `row_count`
/// rows, and the row on which the text goes on: the next one, or the same
/// where there is no next one and the screen scrolls.
pub fn line_break(row: u32, row_count: u16) -> (step: (LineBreak, u32))
    requires
        row <= MAX_ROW,
    ensures
        step == line_break_on(row, row_count),
        step.1 <= MAX_ROW,
{
    if row + 1 >= row_count as u32 {
        (LineBreak::ScrollUp, row)
    } else {
        (LineBreak::MoveToNextLine, row + 1)
    }
}

} // verus!
