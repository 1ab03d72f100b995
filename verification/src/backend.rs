//! The backend: what a text interface asks of its terminal, answered for a
//! drawing surface.
//!
//! A backend is attached to its surface or detached from it. It starts
//! attached. It detaches when the host can no longer reach the surface, and
//! stays so: from then on every operation fails.

use crate::cell::Cell;
use crate::command::{views, views_push, Command, CommandView};
use crate::geometry::{grid_of, grid_size, pixel_size, pixels_of, Size, Viewport, WindowSize};
use crate::paint::{frame, paint_frame};
use crate::surface::Surface;
use vstd::prelude::*;

verus! {

/// Why an operation failed.
#[derive(Clone, Copy, Debug, PartialEq, Eq, Structural)]
pub enum BackendError {
    /// The surface cannot be reached: the backend is detached.
    SurfaceUnavailable,
    /// The surface refused a command of the frame; the frame is abandoned.
    PaintRejected,
}

/// The region that a clear is asked for.
#[derive(Clone, Copy, Debug, PartialEq, Eq, Structural)]
pub enum ClearType {
    All,
    AfterCursor,
    BeforeCursor,
    CurrentLine,
    UntilNewLine,
}

/// How the host fared with the commands of one operation.
#[derive(Clone, Copy, Debug, PartialEq, Eq, Structural)]
pub enum PaintOutcome {
    /// Every command was performed.
    Painted,
    /// The surface refused a command; those after it were not performed.
    Rejected,
}

/// What a backend knows: whether it is attached, where the cursor is, and
/// whether the cursor is shown.
pub struct BackendState {
    pub attached: bool,
    pub cursor: (u16, u16),
    pub cursor_visible: bool,
}

/// A rendering backend for one drawing surface.
#[derive(Clone, Debug, PartialEq, Eq)]
pub struct CanvasBackend {
    attached: bool,
    cursor_column: u16,
    cursor_row: u16,
    cursor_visible: bool,
}

/// `Ok(value)` where the operation may go ahead, the surface's error where
/// not.
pub open spec fn answer<T>(usable: bool, value: T) -> Result<T, BackendError> {
    if usable {
        Ok(value)
    } else {
        Err(BackendError::SurfaceUnavailable)
    }
}

/// The reply of an operation that lists commands, by the commands' views.
pub open spec fn reply(result: Result<Vec<Command>, BackendError>) -> Result<
    Seq<CommandView>,
    BackendError,
> {
    match result {
        Ok(commands) => Ok(views(commands@)),
        Err(error) => Err(error),
    }
}

/// The reply of a measurement, by the commands' views.
pub open spec fn measured(result: Result<(Size, Vec<Command>), BackendError>) -> Result<
    (Size, Seq<CommandView>),
    BackendError,
> {
    match result {
        Ok(pair) => Ok((pair.0, views(pair.1@))),
        Err(error) => Err(error),
    }
}

/// The command that sets the pixel buffer to the size of the viewport.
pub open spec fn resize_commands(viewport: Viewport) -> Seq<CommandView> {
    seq![
        CommandView::ResizeBuffer {
            width: viewport.width as int,
            height: viewport.height as int,
        },
    ]
}

/// The command that clears the whole viewport.
pub open spec fn clear_commands(viewport: Viewport) -> Seq<CommandView> {
    seq![
        CommandView::ClearRect {
            x: 0,
            y: 0,
            width: viewport.width as int,
            height: viewport.height as int,
        },
    ]
}

/// The commands of a clear of one region: whatever the region, those of a
/// clear of the whole viewport.
pub open spec fn clear_region_commands(clear_type: ClearType, viewport: Viewport) -> Seq<
    CommandView,
> {
    clear_commands(viewport)
}

/// The command that moves the path to the cursor.
pub open spec fn cursor_commands(x: u16, y: u16) -> Seq<CommandView> {
    seq![CommandView::MoveTo { x: x as int, y: y as int }]
}

/// The text painted for each appended line.
pub open spec fn line_text() -> Seq<char> {
    "lineeeeeeeeee"@
}

/// The commands of `n` appended lines: a text at the origin for each, then the
/// flush of the sink.
pub open spec fn append_commands(n: u16) -> Seq<CommandView> {
    Seq::new(n as nat, |i: int| CommandView::FillText { text: line_text(), x: 0, y: 0 }).push(
        CommandView::FlushSink,
    )
}

/// The command that flushes the sink.
pub open spec fn flush_commands() -> Seq<CommandView> {
    seq![CommandView::FlushSink]
}

/// What the host is told after it has performed the commands.
pub open spec fn settled(outcome: PaintOutcome) -> Result<(), BackendError> {
    match outcome {
        PaintOutcome::Painted => Ok(()),
        PaintOutcome::Rejected => Err(BackendError::PaintRejected),
    }
}

impl BackendState {
    /// The state of a new backend: attached, the cursor at the origin and
    /// shown.
    pub open spec fn fresh() -> BackendState {
        BackendState { attached: true, cursor: (0, 0), cursor_visible: true }
    }

    /// Whether an operation that reads the surface may go ahead: the backend
    /// is attached and the host has reached the surface.
    pub open spec fn usable(self, reading: Option<Viewport>) -> bool {
        self.attached && reading is Some
    }

    /// The state after an operation that reads the surface: as before where
    /// the operation went ahead, detached where not.
    pub open spec fn after_reading(self, reading: Option<Viewport>) -> BackendState {
        BackendState { attached: self.usable(reading), ..self }
    }

    /// The state after the cursor was set: the cursor moved, if the backend is
    /// attached.
    pub open spec fn with_cursor(self, x: u16, y: u16) -> BackendState {
        if self.attached {
            BackendState { cursor: (x, y), ..self }
        } else {
            self
        }
    }

    /// The state after the cursor was shown or hidden, if the backend is
    /// attached.
    pub open spec fn with_visibility(self, visible: bool) -> BackendState {
        if self.attached {
            BackendState { cursor_visible: visible, ..self }
        } else {
            self
        }
    }

    /// What a draw returns.
    pub open spec fn draw_reply(self, reading: Option<Viewport>, cells: Seq<(u16, u16, Cell)>)
        -> Result<Seq<CommandView>, BackendError> {
        answer(self.usable(reading), frame(reading.unwrap(), cells))
    }

    /// What a clear returns.
    pub open spec fn clear_reply(self, reading: Option<Viewport>) -> Result<
        Seq<CommandView>,
        BackendError,
    > {
        answer(self.usable(reading), clear_commands(reading.unwrap()))
    }

    /// What a clear of one region returns.
    pub open spec fn clear_region_reply(self, reading: Option<Viewport>, clear_type: ClearType)
        -> Result<Seq<CommandView>, BackendError> {
        answer(self.usable(reading), clear_region_commands(clear_type, reading.unwrap()))
    }

    /// What a measurement returns.
    pub open spec fn size_reply(self, reading: Option<Viewport>) -> Result<
        (Size, Seq<CommandView>),
        BackendError,
    > {
        answer(
            self.usable(reading),
            (grid_of(reading.unwrap()), resize_commands(reading.unwrap())),
        )
    }

    /// What a measurement in cells and device pixels returns.
    pub open spec fn window_size_reply(self, reading: Option<Viewport>) -> Result<
        WindowSize,
        BackendError,
    > {
        answer(
            self.usable(reading),
            WindowSize {
                columns_rows: grid_of(reading.unwrap()),
                pixels: pixels_of(reading.unwrap()),
            },
        )
    }

    /// What asking for the cursor returns.
    pub open spec fn cursor_reply(self) -> Result<(u16, u16), BackendError> {
        answer(self.attached, self.cursor)
    }
}

impl View for CanvasBackend {
    type V = BackendState;

    closed spec fn view(&self) -> BackendState {
        BackendState {
            attached: self.attached,
            cursor: (self.cursor_column, self.cursor_row),
            cursor_visible: self.cursor_visible,
        }
    }
}

impl BackendError {
    /// The error in words.
    pub fn message(&self) -> (text: String)
        ensures
            text@ == match *self {
                BackendError::SurfaceUnavailable => "the drawing surface is unavailable"@,
                BackendError::PaintRejected => "the drawing surface rejected a command"@,
            },
    {
        match self {
            BackendError::SurfaceUnavailable => "the drawing surface is unavailable".to_owned(),
            BackendError::PaintRejected => "the drawing surface rejected a command".to_owned(),
        }
    }
}

impl CanvasBackend {
    /// Makes a backend for the surface that the host has just read, and lists
    /// the command that sets the surface's pixel buffer to its bounds. There is
    /// no backend without a surface.
    pub fn new(reading: Option<Viewport>) -> (made: Result<
        (CanvasBackend, Vec<Command>),
        BackendError,
    >)
        ensures
            reading is Some ==> made is Ok && made.unwrap().0@ == BackendState::fresh() && views(
                made.unwrap().1@,
            ) == resize_commands(reading.unwrap()),
            reading is None ==> made == Err::<(CanvasBackend, Vec<Command>), BackendError>(
                BackendError::SurfaceUnavailable,
            ),
    {
        match reading {
            Some(viewport) => {
                let backend = CanvasBackend {
                    attached: true,
                    cursor_column: 0,
                    cursor_row: 0,
                    cursor_visible: true,
                };
                Ok((backend, resize_buffer(&viewport)))
            },
            None => Err(BackendError::SurfaceUnavailable),
        }
    }

    /// Whether the backend is attached to its surface.
    pub fn is_attached(&self) -> (attached: bool)
        ensures
            attached == self@.attached,
    {
        self.attached
    }

    /// Whether the cursor is shown.
    pub fn is_cursor_visible(&self) -> (visible: bool)
        ensures
            visible == self@.cursor_visible,
    {
        self.cursor_visible
    }

    /// Takes the host's reading of the surface: the viewport where the
    /// operation may go ahead. Where it may not, the backend is detached from
    /// now on.
    fn resolve(&mut self, reading: Option<Viewport>) -> (resolved: Result<Viewport, BackendError>)
        ensures
            final(self)@ == old(self)@.after_reading(reading),
            resolved == answer(old(self)@.usable(reading), reading.unwrap()),
    {
        match reading {
            Some(viewport) if self.attached => Ok(viewport),
            _ => {
                self.attached = false;
                Err(BackendError::SurfaceUnavailable)
            },
        }
    }

    /// Lists the commands that paint a frame: the backdrop over the whole
    /// surface, then every cell, in the order given.
    pub fn draw(&mut self, reading: Option<Viewport>, cells: &Vec<(u16, u16, Cell)>) -> (result:
        Result<Vec<Command>, BackendError>)
        ensures
            final(self)@ == old(self)@.after_reading(reading),
            reply(result) == old(self)@.draw_reply(reading, cells@),
    {
        match self.resolve(reading) {
            Ok(viewport) => Ok(paint_frame(&viewport, cells)),
            Err(error) => Err(error),
        }
    }

    /// Hides the cursor. Nothing is painted for it.
    pub fn hide_cursor(&mut self) -> (result: Result<(), BackendError>)
        ensures
            final(self)@ == old(self)@.with_visibility(false),
            result == answer(old(self)@.attached, ()),
    {
        if self.attached {
            self.cursor_visible = false;
            Ok(())
        } else {
            Err(BackendError::SurfaceUnavailable)
        }
    }

    /// Shows the cursor. Nothing is painted for it.
    pub fn show_cursor(&mut self) -> (result: Result<(), BackendError>)
        ensures
            final(self)@ == old(self)@.with_visibility(true),
            result == answer(old(self)@.attached, ()),
    {
        if self.attached {
            self.cursor_visible = true;
            Ok(())
        } else {
            Err(BackendError::SurfaceUnavailable)
        }
    }

    /// The position of the cursor: where it was last set, the origin if it
    /// never was.
    pub fn get_cursor(&self) -> (result: Result<(u16, u16), BackendError>)
        ensures
            result == self@.cursor_reply(),
    {
        if self.attached {
            Ok((self.cursor_column, self.cursor_row))
        } else {
            Err(BackendError::SurfaceUnavailable)
        }
    }

    /// Sets the cursor, and lists the command that moves the surface's path
    /// there.
    pub fn set_cursor(&mut self, x: u16, y: u16) -> (result: Result<Vec<Command>, BackendError>)
        ensures
            final(self)@ == old(self)@.with_cursor(x, y),
            reply(result) == answer(old(self)@.attached, cursor_commands(x, y)),
    {
        if self.attached {
            self.cursor_column = x;
            self.cursor_row = y;
            let mut out: Vec<Command> = Vec::new();
            let command = Command::MoveTo { x: x as u32, y: y as u32 };
            proof {
                views_push(out@, command);
            }
            out.push(command);
            assert(views(out@) =~= cursor_commands(x, y));
            Ok(out)
        } else {
            Err(BackendError::SurfaceUnavailable)
        }
    }

    /// Lists the command that clears the whole surface.
    pub fn clear(&mut self, reading: Option<Viewport>) -> (result: Result<
        Vec<Command>,
        BackendError,
    >)
        ensures
            final(self)@ == old(self)@.after_reading(reading),
            reply(result) == old(self)@.clear_reply(reading),
    {
        self.clear_region(reading, ClearType::All)
    }

    /// Lists the commands that clear a region of the surface. Every region is
    /// taken for the whole surface.
    pub fn clear_region(&mut self, reading: Option<Viewport>, clear_type: ClearType) -> (result:
        Result<Vec<Command>, BackendError>)
        ensures
            final(self)@ == old(self)@.after_reading(reading),
            reply(result) == old(self)@.clear_region_reply(reading, clear_type),
    {
        match self.resolve(reading) {
            Ok(viewport) => {
                let mut out: Vec<Command> = Vec::new();
                let command = Command::ClearRect {
                    x: 0,
                    y: 0,
                    width: viewport.width,
                    height: viewport.height,
                };
                proof {
                    views_push(out@, command);
                }
                out.push(command);
                assert(views(out@) =~= clear_commands(viewport));
                Ok(out)
            },
            Err(error) => Err(error),
        }
    }

    /// Lists the commands of `n` appended lines. Nothing scrolls: a text is
    /// painted at the origin for each line, and the sink is flushed.
    pub fn append_lines(&mut self, n: u16) -> (result: Result<Vec<Command>, BackendError>)
        ensures
            final(self)@ == old(self)@,
            reply(result) == answer(old(self)@.attached, append_commands(n)),
    {
        if !self.attached {
            return Err(BackendError::SurfaceUnavailable);
        }
        let mut out: Vec<Command> = Vec::new();
        let mut i: u16 = 0;
        while i < n
            invariant
                i <= n,
                views(out@) == Seq::new(
                    i as nat,
                    |k: int| CommandView::FillText { text: line_text(), x: 0, y: 0 },
                ),
            decreases n - i,
        {
            let command = Command::FillText { text: "lineeeeeeeeee".to_owned(), x: 0, y: 0 };
            proof {
                views_push(out@, command);
            }
            out.push(command);
            i = i + 1;
        }
        proof {
            views_push(out@, Command::FlushSink);
        }
        out.push(Command::FlushSink);
        Ok(out)
    }

    /// The grid that fits in the surface, with the command that sets the
    /// surface's pixel buffer to its bounds: a surface that is measured is
    /// sized anew.
    pub fn size(&mut self, reading: Option<Viewport>) -> (result: Result<
        (Size, Vec<Command>),
        BackendError,
    >)
        ensures
            final(self)@ == old(self)@.after_reading(reading),
            measured(result) == old(self)@.size_reply(reading),
    {
        match self.resolve(reading) {
            Ok(viewport) => Ok((grid_size(&viewport), resize_buffer(&viewport))),
            Err(error) => Err(error),
        }
    }

    /// The grid that fits in the surface, and the surface's size in device
    /// pixels.
    pub fn window_size(&mut self, reading: Option<Viewport>) -> (result: Result<
        WindowSize,
        BackendError,
    >)
        ensures
            final(self)@ == old(self)@.after_reading(reading),
            result == old(self)@.window_size_reply(reading),
    {
        match self.resolve(reading) {
            Ok(viewport) => Ok(
                WindowSize { columns_rows: grid_size(&viewport), pixels: pixel_size(&viewport) },
            ),
            Err(error) => Err(error),
        }
    }

    /// Lists the command that flushes the diagnostic sink. The surface is
    /// painted as soon as it is told, and has nothing to flush.
    pub fn flush(&mut self) -> (result: Result<Vec<Command>, BackendError>)
        ensures
            final(self)@ == old(self)@,
            reply(result) == answer(old(self)@.attached, flush_commands()),
    {
        if self.attached {
            let mut out: Vec<Command> = Vec::new();
            proof {
                views_push(out@, Command::FlushSink);
            }
            out.push(Command::FlushSink);
            assert(views(out@) =~= flush_commands());
            Ok(out)
        } else {
            Err(BackendError::SurfaceUnavailable)
        }
    }

    /// Takes the host's report on the commands of the last operation. A
    /// refused command fails the frame and nothing else: the backend stays as
    /// it is, and nothing is tried again.
    pub fn settle(&self, outcome: PaintOutcome) -> (result: Result<(), BackendError>)
        ensures
            self@.attached ==> result == settled(outcome),
            !self@.attached ==> result == Err::<(), BackendError>(BackendError::SurfaceUnavailable),
    {
        if !self.attached {
            return Err(BackendError::SurfaceUnavailable);
        }
        match outcome {
            PaintOutcome::Painted => Ok(()),
            PaintOutcome::Rejected => Err(BackendError::PaintRejected),
        }
    }
}

/// Lists the command that sets the pixel buffer to the size of the viewport.
fn resize_buffer(viewport: &Viewport) -> (out: Vec<Command>)
    ensures
        views(out@) == resize_commands(*viewport),
{
    let mut out: Vec<Command> = Vec::new();
    let command = Command::ResizeBuffer { width: viewport.width, height: viewport.height };
    proof {
        views_push(out@, command);
    }
    out.push(command);
    out
}

/// A new backend has its cursor at the origin. Once set, the cursor is where
/// it was set, and stays there through every operation that does not set it.
pub proof fn cursor_is_where_it_was_set(
    state: BackendState,
    x: u16,
    y: u16,
    reading: Option<Viewport>,
    visible: bool,
)
    requires
        state.attached,
    ensures
        BackendState::fresh().cursor_reply() == Ok::<(u16, u16), BackendError>((0, 0)),
        state.with_cursor(x, y).cursor_reply() == Ok::<(u16, u16), BackendError>((x, y)),
        state.with_cursor(x, y).with_visibility(visible).cursor == (x, y),
        state.with_cursor(x, y).after_reading(reading).cursor == (x, y),
{
}

/// Showing or hiding the cursor twice is showing or hiding it once, and
/// neither moves the cursor.
pub proof fn visibility_is_idempotent(state: BackendState, visible: bool)
    ensures
        state.with_visibility(visible).with_visibility(visible) == state.with_visibility(visible),
        state.with_visibility(visible).cursor == state.cursor,
{
}

/// Once detached, a backend stays detached, whatever the host reads later.
pub proof fn detached_is_final(state: BackendState, reading: Option<Viewport>)
    requires
        !state.attached,
    ensures
        !state.after_reading(reading).attached,
        state.after_reading(reading) == state,
{
}

/// A measurement repeated on the same bounds returns what it returned before,
/// and leaves backend and surface as the first one left them.
pub proof fn size_is_idempotent(state: BackendState, reading: Option<Viewport>, surface: Surface)
    ensures
        state.after_reading(reading).size_reply(reading) == state.size_reply(reading),
        state.after_reading(reading).after_reading(reading) == state.after_reading(reading),
        reading is Some ==> surface.run(resize_commands(reading.unwrap())).run(
            resize_commands(reading.unwrap()),
        ) == surface.run(resize_commands(reading.unwrap())),
{
    if reading is Some {
        let commands = resize_commands(reading.unwrap());
        let once = surface.run(commands);
        surface.run_one(commands[0]);
        once.run_one(commands[0]);
        assert(commands =~= seq![commands[0]]);
    }
}

/// A measurement sets the pixel buffer of the surface to the bounds just read.
pub proof fn size_asserts_the_buffer(viewport: Viewport, surface: Surface)
    ensures
        surface.run(resize_commands(viewport)).width == viewport.width,
        surface.run(resize_commands(viewport)).height == viewport.height,
{
    let commands = resize_commands(viewport);
    surface.run_one(commands[0]);
    assert(commands =~= seq![commands[0]]);
}

/// The grid of a measurement in cells and device pixels is the grid of a plain
/// measurement.
pub proof fn window_size_agrees_with_size(state: BackendState, reading: Option<Viewport>)
    requires
        state.usable(reading),
    ensures
        state.window_size_reply(reading).unwrap().columns_rows == state.size_reply(
            reading,
        ).unwrap().0,
{
}

/// A clear of any region is a clear of the whole surface: it returns what a
/// plain clear returns, and nothing is left in the viewport.
pub proof fn clear_region_is_clear(
    state: BackendState,
    reading: Option<Viewport>,
    clear_type: ClearType,
    surface: Surface,
)
    ensures
        state.clear_region_reply(reading, clear_type) == state.clear_reply(reading),
        reading matches Some(viewport) ==> surface.run(
            clear_region_commands(clear_type, viewport),
        ).blank_in(0, 0, viewport.width as int, viewport.height as int),
{
    if let Some(viewport) = reading {
        let commands = clear_commands(viewport);
        surface.run_one(commands[0]);
        assert(commands =~= seq![commands[0]]);
    }
}

/// Clearing twice is clearing once: the second clear returns what the first
/// returned, and leaves backend and surface as the first one left them.
pub proof fn clear_is_idempotent(state: BackendState, reading: Option<Viewport>, surface: Surface)
    ensures
        state.after_reading(reading).clear_reply(reading) == state.clear_reply(reading),
        state.after_reading(reading).after_reading(reading) == state.after_reading(reading),
        reading matches Some(viewport) ==> surface.run(clear_commands(viewport)).run(
            clear_commands(viewport),
        ) == surface.run(clear_commands(viewport)),
{
    if let Some(viewport) = reading {
        let commands = clear_commands(viewport);
        let once = surface.run(commands);
        let twice = once.run(commands);
        surface.run_one(commands[0]);
        once.run_one(commands[0]);
        assert(commands =~= seq![commands[0]]);
        assert(twice.fills =~= once.fills);
        assert(twice.texts =~= once.texts);
    }
}

} // verus!
