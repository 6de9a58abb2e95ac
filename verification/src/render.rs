//! Drawing commands: what a tick asks the renderer to do.

use vstd::prelude::*;

verus! {

/// The colors the game draws with.
#[derive(Debug, Clone, Copy, PartialEq, Eq, Structural)]
pub enum Color {
    Black,
    White,
    Green,
    Red,
    Orange,
    Blue,
}

/// One request to the renderer.
#[derive(Debug, PartialEq, Eq)]
pub enum DrawCommand {
    /// Wipe the whole screen.
    Clear,
    /// Put a glyph into one cell.
    SetCell { x: i32, y: i32, fg: Color, bg: Color, glyph: char },
    /// Write a text that starts at a cell.
    Print { x: i32, y: i32, text: String },
    /// Write a text in the middle of a row.
    PrintCentered { row: i32, text: String },
    /// Write a colored text in the middle of a row.
    PrintColorCentered { row: i32, fg: Color, bg: Color, text: String },
    /// Draw a box with a single-line border between two corner cells.
    DrawBox { x0: i32, y0: i32, x1: i32, y1: i32, fg: Color, bg: Color },
}

/// What a drawing command says, with texts as sequences of characters.
pub ghost enum Drawing {
    Clear,
    SetCell { x: int, y: int, fg: Color, bg: Color, glyph: char },
    Print { x: int, y: int, text: Seq<char> },
    PrintCentered { row: int, text: Seq<char> },
    PrintColorCentered { row: int, fg: Color, bg: Color, text: Seq<char> },
    DrawBox { x0: int, y0: int, x1: int, y1: int, fg: Color, bg: Color },
}

impl View for DrawCommand {
    type V = Drawing;

    open spec fn view(&self) -> Drawing {
        match *self {
            DrawCommand::Clear => Drawing::Clear,
            DrawCommand::SetCell { x, y, fg, bg, glyph } => Drawing::SetCell {
                x: x as int,
                y: y as int,
                fg,
                bg,
                glyph,
            },
            DrawCommand::Print { x, y, text } => Drawing::Print {
                x: x as int,
                y: y as int,
                text: text@,
            },
            DrawCommand::PrintCentered { row, text } => Drawing::PrintCentered {
                row: row as int,
                text: text@,
            },
            DrawCommand::PrintColorCentered { row, fg, bg, text } => Drawing::PrintColorCentered {
                row: row as int,
                fg,
                bg,
                text: text@,
            },
            DrawCommand::DrawBox { x0, y0, x1, y1, fg, bg } => Drawing::DrawBox {
                x0: x0 as int,
                y0: y0 as int,
                x1: x1 as int,
                y1: y1 as int,
                fg,
                bg,
            },
        }
    }
}

/// What a list of drawing commands says, command by command.
pub open spec fn drawings(commands: Seq<DrawCommand>) -> Seq<Drawing> {
    commands.map_values(|c: DrawCommand| c@)
}

/// Appends one command to a frame.
pub fn emit(frame: &mut Vec<DrawCommand>, command: DrawCommand)
    ensures
        drawings(final(frame)@) == drawings(old(frame)@).push(command@),
{
    frame.push(command);
    assert(drawings(frame@) =~= drawings(old(frame)@).push(command@));
}

/// Appends all commands of `more` to a frame, in their order.
pub fn emit_all(frame: &mut Vec<DrawCommand>, more: Vec<DrawCommand>)
    ensures
        drawings(final(frame)@) == drawings(old(frame)@) + drawings(more@),
{
    let mut rest = more;
    frame.append(&mut rest);
    assert(drawings(frame@) =~= drawings(old(frame)@) + drawings(more@));
}

} // verus!
