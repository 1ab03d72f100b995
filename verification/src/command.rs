//! What a backend asks of its host: the drawing calls of the surface, and the
//! flush of the diagnostic sink.

use vstd::prelude::*;

verus! {

/// One call for the host to make. Coordinates and extents are in the pixels of
/// the surface, but for `MoveTo`, which takes a grid position as it is.
#[derive(Clone, Debug, PartialEq, Eq)]
pub enum Command {
    /// Sets the colour of the fills that follow.
    SetFillStyle(String),
    /// Fills a rectangle in the current fill style.
    FillRect { x: u32, y: u32, width: u32, height: u32 },
    /// Moves the position of the surface's path.
    MoveTo { x: u32, y: u32 },
    /// Sets the font of the texts that follow.
    SetFont(String),
    /// Paints a text in the current fill style and font, on the baseline `y`.
    FillText { text: String, x: u32, y: u32 },
    /// Clears a rectangle to empty.
    ClearRect { x: u32, y: u32, width: u32, height: u32 },
    /// Sets the size of the surface's pixel buffer.
    ResizeBuffer { width: u32, height: u32 },
    /// Flushes the diagnostic sink; the surface is not touched.
    FlushSink,
}

/// A command as a value of mathematics: texts as sequences of characters,
/// numbers unbounded.
pub enum CommandView {
    SetFillStyle(Seq<char>),
    FillRect { x: int, y: int, width: int, height: int },
    MoveTo { x: int, y: int },
    SetFont(Seq<char>),
    FillText { text: Seq<char>, x: int, y: int },
    ClearRect { x: int, y: int, width: int, height: int },
    ResizeBuffer { width: int, height: int },
    FlushSink,
}

impl View for Command {
    type V = CommandView;

    open spec fn view(&self) -> CommandView {
        match *self {
            Command::SetFillStyle(style) => CommandView::SetFillStyle(style@),
            Command::FillRect { x, y, width, height } => CommandView::FillRect {
                x: x as int,
                y: y as int,
                width: width as int,
                height: height as int,
            },
            Command::MoveTo { x, y } => CommandView::MoveTo { x: x as int, y: y as int },
            Command::SetFont(font) => CommandView::SetFont(font@),
            Command::FillText { text, x, y } => CommandView::FillText {
                text: text@,
                x: x as int,
                y: y as int,
            },
            Command::ClearRect { x, y, width, height } => CommandView::ClearRect {
                x: x as int,
                y: y as int,
                width: width as int,
                height: height as int,
            },
            Command::ResizeBuffer { width, height } => CommandView::ResizeBuffer {
                width: width as int,
                height: height as int,
            },
            Command::FlushSink => CommandView::FlushSink,
        }
    }
}

/// The views of a list of commands, in order.
pub open spec fn views(commands: Seq<Command>) -> Seq<CommandView> {
    commands.map_values(|command: Command| command@)
}

/// Appending a command appends its view.
pub proof fn views_push(commands: Seq<Command>, command: Command)
    ensures
        views(commands.push(command)) == views(commands).push(command@),
{
    assert(views(commands.push(command)) =~= views(commands).push(command@));
}

} // verus!
