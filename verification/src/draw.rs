//! Drawing instructions: what the shell asks the terminal device to do.
//!
//! The shell never writes to the device. It hands the host a list of
//! instructions, and the host carries them out in order.

use vstd::prelude::*;

verus! {

/// A foreground colour.
#[derive(Clone, Copy, Debug, PartialEq, Eq, Structural)]
pub enum Color {
    /// The terminal's default colour.
    Reset,
    Red,
    Yellow,
}

/// How much of the line a clear instruction erases.
#[derive(Clone, Copy, Debug, PartialEq, Eq, Structural)]
pub enum ClearType {
    /// The whole line the cursor is on.
    CurrentLine,
    /// From the cursor to the end of the line.
    UntilNewLine,
}

/// One instruction to the terminal device.
#[derive(Clone, Debug, PartialEq, Eq)]
pub enum Draw {
    /// Put the cursor in the given column of its line.
    MoveToColumn(u16),
    /// Move the cursor the given number of columns to the left.
    MoveLeft(u16),
    /// Erase part of the cursor's line.
    Clear(ClearType),
    /// Write what follows in the given colour.
    SetForegroundColor(Color),
    /// Write what follows in the default colours again.
    ResetColor,
    /// Write the text at the cursor.
    Print(String),
}

/// The mathematical value of a [`Draw`]: the instruction with its text as a
/// sequence of characters.
pub ghost enum DrawView {
    MoveToColumn(u16),
    MoveLeft(u16),
    Clear(ClearType),
    SetForegroundColor(Color),
    ResetColor,
    Print(Seq<char>),
}

impl View for Draw {
    type V = DrawView;

    open spec fn view(&self) -> DrawView {
        match *self {
            Draw::MoveToColumn(column) => DrawView::MoveToColumn(column),
            Draw::MoveLeft(columns) => DrawView::MoveLeft(columns),
            Draw::Clear(part) => DrawView::Clear(part),
            Draw::SetForegroundColor(color) => DrawView::SetForegroundColor(color),
            Draw::ResetColor => DrawView::ResetColor,
            Draw::Print(text) => DrawView::Print(text@),
        }
    }
}

impl DeepView for Draw {
    type V = DrawView;

    open spec fn deep_view(&self) -> DrawView {
        self@
    }
}

/// The prompt that starts the input line.
pub open spec fn prompt() -> Seq<char> {
    "> "@
}

/// The instruction that writes the prompt and after it `line`, the line
/// being typed.
pub fn prompt_line(line: &str) -> (draw: Draw)
    ensures
        draw@ == DrawView::Print(prompt() + line@),
{
    let mut text = "> ".to_string();
    text.append(line);
    Draw::Print(text)
}

} // verus!
