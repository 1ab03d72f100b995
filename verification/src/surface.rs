//! A drawing surface as a value of mathematics, and what a list of commands
//! makes of it. Nothing here runs: the model gives the words in which the
//! backend's laws speak of what is seen.
//!
//! The surface is an unbounded plane of pixels. A pixel is empty or holds the
//! colour of the last fill that covered it; a text lies at the pixel where its
//! baseline starts. Setting the size of the pixel buffer empties the plane, as
//! the surfaces do that this backend is written for.

use crate::command::CommandView;
use vstd::prelude::*;

verus! {

/// A text as it was painted.
pub struct Mark {
    pub text: Seq<char>,
    pub font: Seq<char>,
    pub style: Seq<char>,
}

/// The state of a surface.
pub struct Surface {
    /// Size of the pixel buffer.
    pub width: int,
    pub height: int,
    /// The fill style and the font in force.
    pub fill_style: Seq<char>,
    pub font: Seq<char>,
    /// The position of the path.
    pub path: (int, int),
    /// The colour of every pixel that is not empty.
    pub fills: Map<(int, int), Seq<char>>,
    /// The text at every pixel where one starts.
    pub texts: Map<(int, int), Mark>,
}

/// Whether a pixel lies in a rectangle.
pub open spec fn within(p: (int, int), x: int, y: int, width: int, height: int) -> bool {
    x <= p.0 < x + width && y <= p.1 < y + height
}

impl Surface {
    /// The surface after one command.
    pub open spec fn apply(self, command: CommandView) -> Surface {
        match command {
            CommandView::SetFillStyle(style) => Surface { fill_style: style, ..self },
            CommandView::FillRect { x, y, width, height } => Surface {
                fills: Map::new(
                    |p: (int, int)| self.fills.dom().contains(p) || within(p, x, y, width, height),
                    |p: (int, int)|
                        if within(p, x, y, width, height) {
                            self.fill_style
                        } else {
                            self.fills[p]
                        },
                ),
                ..self
            },
            CommandView::MoveTo { x, y } => Surface { path: (x, y), ..self },
            CommandView::SetFont(font) => Surface { font: font, ..self },
            CommandView::FillText { text, x, y } => Surface {
                texts: self.texts.insert(
                    (x, y),
                    Mark { text: text, font: self.font, style: self.fill_style },
                ),
                ..self
            },
            CommandView::ClearRect { x, y, width, height } => Surface {
                fills: Map::new(
                    |p: (int, int)| self.fills.dom().contains(p) && !within(p, x, y, width, height),
                    |p: (int, int)| self.fills[p],
                ),
                texts: Map::new(
                    |p: (int, int)| self.texts.dom().contains(p) && !within(p, x, y, width, height),
                    |p: (int, int)| self.texts[p],
                ),
                ..self
            },
            CommandView::ResizeBuffer { width, height } => Surface {
                width: width,
                height: height,
                fills: Map::empty(),
                texts: Map::empty(),
                ..self
            },
            CommandView::FlushSink => self,
        }
    }

    /// The surface after a list of commands, performed in order.
    pub open spec fn run(self, commands: Seq<CommandView>) -> Surface
        decreases commands.len(),
    {
        if commands.len() == 0 {
            self
        } else {
            self.run(commands.drop_last()).apply(commands.last())
        }
    }

    /// Whether nothing is painted in a rectangle: no fill and no text.
    pub open spec fn blank_in(self, x: int, y: int, width: int, height: int) -> bool {
        forall|p: (int, int)|
            within(p, x, y, width, height) ==> (#[trigger] self.pixel(p)) is None && self.text_at(
                p,
            ) is None
    }

    /// The colour of a pixel, if it is not empty.
    pub open spec fn pixel(self, p: (int, int)) -> Option<Seq<char>> {
        if self.fills.dom().contains(p) {
            Some(self.fills[p])
        } else {
            None
        }
    }

    /// The text that starts at a pixel, if there is one.
    pub open spec fn text_at(self, p: (int, int)) -> Option<Mark> {
        if self.texts.dom().contains(p) {
            Some(self.texts[p])
        } else {
            None
        }
    }

    /// Performing one command is applying it.
    pub proof fn run_one(self, command: CommandView)
        ensures
            self.run(seq![command]) == self.apply(command),
    {
        let one = seq![command];
        assert(one.drop_last() =~= Seq::<CommandView>::empty());
        assert(self.run(one.drop_last()) == self);
        assert(one.last() == command);
    }

    /// Performing two lists one after the other is performing them joined.
    pub proof fn run_append(self, first: Seq<CommandView>, second: Seq<CommandView>)
        ensures
            self.run(first + second) == self.run(first).run(second),
        decreases second.len(),
    {
        if second.len() == 0 {
            assert(first + second =~= first);
        } else {
            self.run_append(first, second.drop_last());
            assert((first + second).drop_last() =~= first + second.drop_last());
            assert((first + second).last() == second.last());
        }
    }
}

} // verus!
