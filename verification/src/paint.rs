//! From the cells of one frame to the commands that paint them.
//!
//! A frame is painted in one pass: first the backdrop over the whole surface,
//! then the cells in the order given. While it goes, the painter remembers the
//! style it applied last and the position it painted last, and leaves out what
//! a cell would only repeat.

use crate::cell::{Cell, Modifier};
use crate::color::{color_text, Color};
use crate::command::{views, views_push, Command, CommandView};
use crate::geometry::{
    baseline, cell_baseline, cell_left, cell_origin, cell_top, saturated, Viewport, CELL_WIDTH,
    LINE_HEIGHT, MAX_EXTENT,
};
use crate::surface::{within, Mark, Surface};
use vstd::prelude::*;

verus! {

/// Rows that a reposition lies below the cell it is issued for.
pub const PATH_DROP: u16 = 10;

/// The style applied last and the cell painted last, within one frame.
#[derive(Clone, Copy, Debug, PartialEq, Eq)]
pub struct StyleDiff {
    pub fg: Color,
    pub bg: Color,
    pub underline_color: Color,
    pub modifier: Modifier,
    pub last: Option<(u16, u16)>,
}

/// A change of text attributes between two cells.
#[derive(Clone, Copy, Debug, PartialEq, Eq)]
pub struct ModifierDiff {
    pub from: Modifier,
    pub to: Modifier,
}

/// The colour of the backdrop.
pub open spec fn backdrop_text() -> Seq<char> {
    "#263238"@
}

/// The font of every glyph.
pub open spec fn font_text() -> Seq<char> {
    "16px monospace"@
}

/// The state at the start of a frame: default colours, no attribute, no cell
/// painted yet.
pub open spec fn initial_state() -> StyleDiff {
    StyleDiff {
        fg: Color::Reset,
        bg: Color::Reset,
        underline_color: Color::Reset,
        modifier: Modifier { bits: 0 },
        last: None,
    }
}

/// The state that painting a cell leaves behind: whatever went before, it is
/// the cell's own style and position.
pub open spec fn state_after(column: u16, row: u16, cell: Cell) -> StyleDiff {
    StyleDiff {
        fg: cell.fg,
        bg: cell.bg,
        underline_color: cell.underline_color,
        modifier: cell.modifier,
        last: Some((column, row)),
    }
}

/// Whether a cell stands directly right of the cell painted last, in its row.
pub open spec fn follows(last: Option<(u16, u16)>, column: u16, row: u16) -> bool {
    last matches Some(p) && column == p.0 + 1 && row == p.1
}

/// The commands that fill the whole surface with the backdrop.
pub open spec fn backdrop(viewport: Viewport) -> Seq<CommandView> {
    seq![
        CommandView::SetFillStyle(backdrop_text()),
        CommandView::FillRect {
            x: 0,
            y: 0,
            width: viewport.width as int,
            height: viewport.height as int,
        },
    ]
}

/// The reposition of a cell: none where the cell follows the last one.
pub open spec fn reposition(state: StyleDiff, column: u16, row: u16) -> Seq<CommandView> {
    if follows(state.last, column, row) {
        Seq::empty()
    } else {
        seq![CommandView::MoveTo { x: column as int, y: saturated(row + PATH_DROP) }]
    }
}

/// The commands for a change of text attributes: none. Attributes are
/// remembered and compared, and nothing is painted for them.
pub open spec fn attributes(diff: ModifierDiff) -> Seq<CommandView> {
    Seq::empty()
}

/// The fill of a cell's rectangle.
pub open spec fn cell_fill(column: u16, row: u16) -> CommandView {
    CommandView::FillRect {
        x: cell_left(column),
        y: cell_top(row),
        width: CELL_WIDTH as int,
        height: LINE_HEIGHT as int,
    }
}

/// The background of a cell: its colour and the fill of its rectangle, or
/// nothing where the colour is the one applied last.
pub open spec fn background(state: StyleDiff, column: u16, row: u16, cell: Cell) -> Seq<
    CommandView,
> {
    if cell.bg != state.bg {
        seq![CommandView::SetFillStyle(color_text(cell.bg)), cell_fill(column, row)]
    } else {
        Seq::empty()
    }
}

/// The foreground of a cell: its colour, or nothing where it is the one
/// applied last.
pub open spec fn foreground(state: StyleDiff, cell: Cell) -> Seq<CommandView> {
    if cell.fg != state.fg {
        seq![CommandView::SetFillStyle(color_text(cell.fg))]
    } else {
        Seq::empty()
    }
}

/// The paint of a cell's glyph on the baseline of its row.
pub open spec fn glyph(column: u16, row: u16, cell: Cell) -> CommandView {
    CommandView::FillText { text: cell.symbol@, x: cell_left(column), y: baseline(row) }
}

/// All commands of one cell, in order: reposition, attributes, background,
/// font, foreground, glyph.
pub open spec fn cell_commands(state: StyleDiff, column: u16, row: u16, cell: Cell) -> Seq<
    CommandView,
> {
    reposition(state, column, row) + attributes(
        ModifierDiff { from: state.modifier, to: cell.modifier },
    ) + background(state, column, row, cell) + seq![CommandView::SetFont(font_text())]
        + foreground(state, cell) + seq![glyph(column, row, cell)]
}

/// The state in which cell `i` of a frame is painted.
pub open spec fn state_before(cells: Seq<(u16, u16, Cell)>, i: int) -> StyleDiff {
    if i <= 0 {
        initial_state()
    } else {
        state_after(cells[i - 1].0, cells[i - 1].1, cells[i - 1].2)
    }
}

/// The commands of cell `i` of a frame.
pub open spec fn segment(cells: Seq<(u16, u16, Cell)>, i: int) -> Seq<CommandView> {
    cell_commands(state_before(cells, i), cells[i].0, cells[i].1, cells[i].2)
}

/// The commands of the first `n` cells of a frame, cell after cell.
pub open spec fn segments(cells: Seq<(u16, u16, Cell)>, n: int) -> Seq<Seq<CommandView>> {
    Seq::new(n as nat, |i: int| segment(cells, i))
}

/// The commands of a whole frame: the backdrop, then every cell.
pub open spec fn frame(viewport: Viewport, cells: Seq<(u16, u16, Cell)>) -> Seq<CommandView> {
    backdrop(viewport) + segments(cells, cells.len() as int).flatten()
}

impl ModifierDiff {
    /// Appends the commands for this change of attributes to `out`: there are
    /// none.
    pub fn queue(&self, out: &mut Vec<Command>)
        ensures
            views(final(out)@) == views(old(out)@) + attributes(*self),
    {
    }
}

impl StyleDiff {
    /// The state at the start of a frame.
    pub fn new() -> (state: StyleDiff)
        ensures
            state == initial_state(),
    {
        StyleDiff {
            fg: Color::Reset,
            bg: Color::Reset,
            underline_color: Color::Reset,
            modifier: Modifier::empty(),
            last: None,
        }
    }

    /// Whether a cell at this position follows the cell painted last.
    pub fn follows(&self, column: u16, row: u16) -> (yes: bool)
        ensures
            yes == follows(self.last, column, row),
    {
        match self.last {
            Some(p) => p.0 < MAX_EXTENT && column == p.0 + 1 && row == p.1,
            None => false,
        }
    }
}

/// Appends the commands of one cell to `out` and moves the state on.
pub fn paint_cell(
    state: &mut StyleDiff,
    column: u16,
    row: u16,
    cell: &Cell,
    out: &mut Vec<Command>,
)
    ensures
        views(final(out)@) == views(old(out)@) + cell_commands(*old(state), column, row, *cell),
        *final(state) == state_after(column, row, *cell),
{
    if !state.follows(column, row) {
        let command = Command::MoveTo { x: column as u32, y: row.saturating_add(PATH_DROP) as u32 };
        proof {
            views_push(out@, command);
        }
        out.push(command);
    }
    if cell.modifier != state.modifier {
        let diff = ModifierDiff { from: state.modifier, to: cell.modifier };
        diff.queue(out);
        state.modifier = cell.modifier;
    }
    let (x, y) = cell_origin(column, row);
    if cell.bg != state.bg {
        let style = Command::SetFillStyle(cell.bg.text());
        let fill = Command::FillRect { x, y, width: CELL_WIDTH, height: LINE_HEIGHT };
        proof {
            views_push(out@, style);
            views_push(out@.push(style), fill);
        }
        out.push(style);
        out.push(fill);
        state.bg = cell.bg;
    }
    state.underline_color = cell.underline_color;
    let font = Command::SetFont("16px monospace".to_owned());
    proof {
        views_push(out@, font);
    }
    out.push(font);
    if cell.fg != state.fg {
        let style = Command::SetFillStyle(cell.fg.text());
        proof {
            views_push(out@, style);
        }
        out.push(style);
        state.fg = cell.fg;
    }
    let text = Command::FillText { text: cell.symbol.clone(), x, y: cell_baseline(row) };
    proof {
        views_push(out@, text);
    }
    out.push(text);
    state.last = Some((column, row));
}

/// Lists the commands that paint a frame: the backdrop over the whole
/// viewport, then each cell in the order given.
pub fn paint_frame(viewport: &Viewport, cells: &Vec<(u16, u16, Cell)>) -> (out: Vec<Command>)
    ensures
        views(out@) == frame(*viewport, cells@),
{
    let mut out: Vec<Command> = Vec::new();
    let style = Command::SetFillStyle("#263238".to_owned());
    let fill = Command::FillRect { x: 0, y: 0, width: viewport.width, height: viewport.height };
    proof {
        views_push(out@, style);
        views_push(out@.push(style), fill);
    }
    out.push(style);
    out.push(fill);
    let mut state = StyleDiff::new();
    let mut i: usize = 0;
    proof {
        if cells@.len() > 0 {
            frame_grows_by_segments(*viewport, cells@, 0);
        } else {
            assert(segments(cells@, 0) =~= Seq::<Seq<CommandView>>::empty());
        }
        assert(views(out@) =~= frame_prefix(*viewport, cells@, 0));
    }
    while i < cells.len()
        invariant
            i <= cells.len(),
            state == state_before(cells@, i as int),
            views(out@) == frame_prefix(*viewport, cells@, i as int),
        decreases cells.len() - i,
    {
        let placed = &cells[i];
        paint_cell(&mut state, placed.0, placed.1, &placed.2, &mut out);
        proof {
            frame_grows_by_segments(*viewport, cells@, i as int);
        }
        i = i + 1;
    }
    out
}

/// Whether cell `i` of a frame stands directly right of the cell before it.
pub open spec fn continues_row(cells: Seq<(u16, u16, Cell)>, i: int) -> bool {
    i > 0 && cells[i].1 == cells[i - 1].1 && cells[i].0 == cells[i - 1].0 + 1
}

/// Whether the background of cell `i` of a frame is filled: it is not the
/// background applied last.
pub open spec fn fills_background(cells: Seq<(u16, u16, Cell)>, i: int) -> bool {
    cells[i].2.bg != state_before(cells, i).bg
}

/// Whether no two cells of a frame stand at the same position.
pub open spec fn distinct_positions(cells: Seq<(u16, u16, Cell)>) -> bool {
    forall|a: int, b: int|
        0 <= a < b < cells.len() ==> !(#[trigger] cells[a].0 == #[trigger] cells[b].0
            && cells[a].1 == cells[b].1)
}

/// The commands of a frame up to cell `n`: the backdrop and the cells before
/// `n`.
pub open spec fn frame_prefix(viewport: Viewport, cells: Seq<(u16, u16, Cell)>, n: int) -> Seq<
    CommandView,
> {
    backdrop(viewport) + segments(cells, n).flatten()
}

/// A frame is painted cell after cell: the commands up to cell `n + 1` are
/// those up to cell `n`, then those of cell `n`; the whole frame is the
/// commands up to its length.
pub proof fn frame_grows_by_segments(viewport: Viewport, cells: Seq<(u16, u16, Cell)>, n: int)
    requires
        0 <= n < cells.len(),
    ensures
        frame_prefix(viewport, cells, n + 1) == frame_prefix(viewport, cells, n) + segment(
            cells,
            n,
        ),
        frame_prefix(viewport, cells, 0) == backdrop(viewport),
        frame_prefix(viewport, cells, cells.len() as int) == frame(viewport, cells),
{
    let done = segments(cells, n);
    assert(segments(cells, n + 1) =~= done.push(segment(cells, n)));
    done.lemma_flatten_push(segment(cells, n));
    assert(segments(cells, 0) =~= Seq::<Seq<CommandView>>::empty());
    assert(frame_prefix(viewport, cells, 0) =~= backdrop(viewport));
    assert(frame_prefix(viewport, cells, n + 1) =~= frame_prefix(viewport, cells, n) + segment(
        cells,
        n,
    ));
}

/// Between a cell and the cell directly right of it in its row no reposition
/// is issued. Everywhere else, at a row break, after a gap and for the first
/// cell, exactly one is issued, before anything else of the cell.
pub proof fn reposition_only_on_gaps(cells: Seq<(u16, u16, Cell)>, i: int)
    requires
        0 <= i < cells.len(),
    ensures
        continues_row(cells, i) ==> forall|k: int|
            0 <= k < segment(cells, i).len() ==> !(#[trigger] segment(cells, i)[k]
                is MoveTo),
        !continues_row(cells, i) ==> segment(cells, i)[0] == (CommandView::MoveTo {
            x: cells[i].0 as int,
            y: saturated(cells[i].1 + PATH_DROP),
        }) && forall|k: int|
            1 <= k < segment(cells, i).len() ==> !(#[trigger] segment(cells, i)[k] is MoveTo),
{
}

/// Whether a pixel lies in the rectangle of a cell.
pub open spec fn in_cell(p: (int, int), column: u16, row: u16) -> bool {
    within(p, cell_left(column), cell_top(row), CELL_WIDTH as int, LINE_HEIGHT as int)
}

/// The pixel at which the glyph of a cell starts.
pub open spec fn anchor(column: u16, row: u16) -> (int, int) {
    (cell_left(column), baseline(row))
}

/// Whether a surface shows the glyph of a cell: its text lies at the cell's
/// anchor, in the font of the frame.
pub open spec fn shows_glyph(surface: Surface, column: u16, row: u16, cell: Cell) -> bool {
    surface.text_at(anchor(column, row)) matches Some(mark) && mark.text == cell.symbol@
        && mark.font == font_text()
}

/// Whether a surface shows the background of a cell on every pixel of the
/// cell's rectangle.
pub open spec fn shows_background(surface: Surface, column: u16, row: u16, cell: Cell) -> bool {
    forall|p: (int, int)|
        in_cell(p, column, row) ==> #[trigger] surface.pixel(p) == Some(color_text(cell.bg))
}

/// What the commands of one cell make of a surface. The pixels of the cell's
/// rectangle show the cell's background, unless that was the background
/// applied last; every other pixel is as before. The cell's glyph lies at its
/// anchor; every other text is as before.
pub proof fn cell_on_surface(
    surface: Surface,
    state: StyleDiff,
    column: u16,
    row: u16,
    cell: Cell,
)
    ensures
        ({
            let after = surface.run(cell_commands(state, column, row, cell));
            &&& cell.bg != state.bg ==> shows_background(after, column, row, cell)
            &&& forall|p: (int, int)|
                !(cell.bg != state.bg && in_cell(p, column, row)) ==> #[trigger] after.pixel(p)
                    == surface.pixel(p)
            &&& shows_glyph(after, column, row, cell)
            &&& forall|p: (int, int)|
                p != anchor(column, row) ==> #[trigger] after.text_at(p) == surface.text_at(p)
        }),
{
    let moved = reposition(state, column, row);
    let styled = attributes(ModifierDiff { from: state.modifier, to: cell.modifier });
    let filled = background(state, column, row, cell);
    let font = seq![CommandView::SetFont(font_text())];
    let inked = foreground(state, cell);
    let text = seq![glyph(column, row, cell)];
    let s1 = surface.run(moved);
    let s2 = s1.run(styled);
    let s3 = s2.run(filled);
    let s4 = s3.run(font);
    let s5 = s4.run(inked);
    let s6 = s5.run(text);
    surface.run_append(moved, styled);
    surface.run_append(moved + styled, filled);
    surface.run_append(moved + styled + filled, font);
    surface.run_append(moved + styled + filled + font, inked);
    surface.run_append(moved + styled + filled + font + inked, text);
    assert(s6 == surface.run(cell_commands(state, column, row, cell)));
    if moved.len() > 0 {
        surface.run_one(moved[0]);
        assert(moved =~= seq![moved[0]]);
    }
    assert(s1.fills == surface.fills && s1.texts == surface.texts);
    assert(s2 == s1);
    if cell.bg != state.bg {
        let style = seq![filled[0]];
        let rect = seq![filled[1]];
        assert(filled =~= style + rect);
        s2.run_append(style, rect);
        s2.run_one(filled[0]);
        s2.run(style).run_one(filled[1]);
        assert(s3.texts == s2.texts);
        assert forall|p: (int, int)| in_cell(p, column, row) implies #[trigger] s3.pixel(p)
            == Some(color_text(cell.bg)) by {}
        assert forall|p: (int, int)| !in_cell(p, column, row) implies #[trigger] s3.pixel(p)
            == s2.pixel(p) by {}
    } else {
        assert(s3 == s2);
    }
    s3.run_one(font[0]);
    assert(s4.fills == s3.fills && s4.texts == s3.texts && s4.font == font_text());
    if inked.len() > 0 {
        s4.run_one(inked[0]);
        assert(inked =~= seq![inked[0]]);
    }
    assert(s5.fills == s4.fills && s5.texts == s4.texts && s5.font == s4.font);
    s5.run_one(text[0]);
    assert(s6.fills == s5.fills);
    assert(s6.texts == s5.texts.insert(
        anchor(column, row),
        Mark { text: cell.symbol@, font: s5.font, style: s5.fill_style },
    ));
    assert forall|p: (int, int)| p != anchor(column, row) implies #[trigger] s6.text_at(p)
        == surface.text_at(p) by {}
    assert forall|p: (int, int)|
        !(cell.bg != state.bg && in_cell(p, column, row)) implies #[trigger] s6.pixel(p)
        == surface.pixel(p) by {
        assert(s6.pixel(p) == s3.pixel(p));
        assert(s2.pixel(p) == surface.pixel(p));
    }
    if cell.bg != state.bg {
        assert forall|p: (int, int)| in_cell(p, column, row) implies #[trigger] s6.pixel(p)
            == Some(color_text(cell.bg)) by {
            assert(s6.pixel(p) == s3.pixel(p));
        }
    }
}

/// The surface after the commands of a frame up to cell `n`, for a cell `i`
/// before `n`: what `frame_paints_every_cell` says of the whole frame.
proof fn prefix_paints_cell(
    surface: Surface,
    viewport: Viewport,
    cells: Seq<(u16, u16, Cell)>,
    i: int,
    n: int,
)
    requires
        distinct_positions(cells),
        0 <= i < n <= cells.len(),
    ensures
        ({
            let after = surface.run(frame_prefix(viewport, cells, n));
            &&& shows_glyph(after, cells[i].0, cells[i].1, cells[i].2)
            &&& fills_background(cells, i) ==> shows_background(
                after,
                cells[i].0,
                cells[i].1,
                cells[i].2,
            )
        }),
    decreases n,
{
    let last = n - 1;
    let before = surface.run(frame_prefix(viewport, cells, last));
    let after = surface.run(frame_prefix(viewport, cells, n));
    frame_grows_by_segments(viewport, cells, last);
    surface.run_append(frame_prefix(viewport, cells, last), segment(cells, last));
    cell_on_surface(before, state_before(cells, last), cells[last].0, cells[last].1, cells[last].2);
    if i < last {
        prefix_paints_cell(surface, viewport, cells, i, last);
        assert(!(cells[i].0 == cells[last].0 && cells[i].1 == cells[last].1));
        assert(anchor(cells[i].0, cells[i].1) != anchor(cells[last].0, cells[last].1));
        assert(after.text_at(anchor(cells[i].0, cells[i].1)) == before.text_at(
            anchor(cells[i].0, cells[i].1),
        ));
        if fills_background(cells, i) {
            assert forall|p: (int, int)| in_cell(p, cells[i].0, cells[i].1) implies #[trigger] after.pixel(
                p,
            ) == Some(color_text(cells[i].2.bg)) by {
                assert(before.pixel(p) == Some(color_text(cells[i].2.bg)));
                assert(!in_cell(p, cells[last].0, cells[last].1));
                assert(after.pixel(p) == before.pixel(p));
            }
        }
    }
}

/// Every cell of a frame is painted, whatever its glyph, a blank as much as a
/// letter. After the commands of a frame whose cells stand at distinct
/// positions, the surface shows the glyph of each cell; and of each cell whose
/// background is filled, it shows that background on every pixel of the cell's
/// rectangle.
pub proof fn frame_paints_every_cell(
    surface: Surface,
    viewport: Viewport,
    cells: Seq<(u16, u16, Cell)>,
    i: int,
)
    requires
        distinct_positions(cells),
        0 <= i < cells.len(),
    ensures
        shows_glyph(surface.run(frame(viewport, cells)), cells[i].0, cells[i].1, cells[i].2),
        fills_background(cells, i) ==> shows_background(
            surface.run(frame(viewport, cells)),
            cells[i].0,
            cells[i].1,
            cells[i].2,
        ),
{
    frame_grows_by_segments(viewport, cells, i);
    prefix_paints_cell(surface, viewport, cells, i, cells.len() as int);
}

/// The surface after the commands of a frame up to cell `n`, at a pixel of the
/// viewport that no fill of a cell before `n` covers: what
/// `frame_shows_backdrop_elsewhere` says of the whole frame.
proof fn prefix_keeps_backdrop(
    surface: Surface,
    viewport: Viewport,
    cells: Seq<(u16, u16, Cell)>,
    p: (int, int),
    n: int,
)
    requires
        0 <= n <= cells.len(),
        within(p, 0, 0, viewport.width as int, viewport.height as int),
        forall|i: int|
            0 <= i < n ==> !(#[trigger] fills_background(cells, i) && in_cell(
                p,
                cells[i].0,
                cells[i].1,
            )),
    ensures
        surface.run(frame_prefix(viewport, cells, n)).pixel(p) == Some(backdrop_text()),
    decreases n,
{
    if n == 0 {
        let paint = backdrop(viewport);
        assert(segments(cells, 0) =~= Seq::<Seq<CommandView>>::empty());
        assert(frame_prefix(viewport, cells, 0) =~= paint);
        let style = seq![paint[0]];
        let rect = seq![paint[1]];
        assert(paint =~= style + rect);
        surface.run_append(style, rect);
        surface.run_one(paint[0]);
        surface.run(style).run_one(paint[1]);
    } else {
        let last = n - 1;
        let before = surface.run(frame_prefix(viewport, cells, last));
        prefix_keeps_backdrop(surface, viewport, cells, p, last);
        frame_grows_by_segments(viewport, cells, last);
        surface.run_append(frame_prefix(viewport, cells, last), segment(cells, last));
        cell_on_surface(
            before,
            state_before(cells, last),
            cells[last].0,
            cells[last].1,
            cells[last].2,
        );
        assert(!(fills_background(cells, last) && in_cell(p, cells[last].0, cells[last].1)));
        assert(surface.run(frame_prefix(viewport, cells, n)).pixel(p) == before.pixel(p));
    }
}

/// A frame covers the whole surface: after its commands, every pixel of the
/// viewport that no cell has filled shows the backdrop, whatever the surface
/// showed before.
pub proof fn frame_shows_backdrop_elsewhere(
    surface: Surface,
    viewport: Viewport,
    cells: Seq<(u16, u16, Cell)>,
    p: (int, int),
)
    requires
        within(p, 0, 0, viewport.width as int, viewport.height as int),
        forall|i: int|
            0 <= i < cells.len() ==> !(#[trigger] fills_background(cells, i) && in_cell(
                p,
                cells[i].0,
                cells[i].1,
            )),
    ensures
        surface.run(frame(viewport, cells)).pixel(p) == Some(backdrop_text()),
{
    prefix_keeps_backdrop(surface, viewport, cells, p, cells.len() as int);
}

} // verus!
