//! The render target: a frame is an ordered batch of glyph cells, built up
//! by the entities each render pass and handed to the embedding program to
//! emit as one atomic terminal update. Later cells overdraw earlier ones, so
//! the order of drawing is the z-order.

use vstd::prelude::*;

use crate::Viewport;

verus! {

/// What to print at a cell: the character's body or one row of a pipe's bar.
#[derive(Clone, Copy, Debug, PartialEq, Eq, Structural)]
pub enum Glyph {
    BirbBody,
    PipeBar,
}

/// One queued draw command: a glyph at a grid coordinate.
#[derive(Clone, Copy, Debug, PartialEq, Eq, Structural)]
pub struct Cell {
    pub col: u16,
    pub row: u16,
    pub glyph: Glyph,
}

/// One frame's worth of draw commands, in z-order.
#[derive(Clone, Debug)]
pub struct Frame {
    pub cells: Vec<Cell>,
}

impl Frame {
    /// A cleared frame: no cells queued yet.
    pub fn new() -> (f: Self)
        ensures
            f.cells@ == Seq::<Cell>::empty(),
    {
        Frame { cells: Vec::new() }
    }
}

/// Makes an object drawable on a screen: `draw` queues exactly the object's
/// cells, in order, after whatever the frame already holds.
pub trait Draw {
    /// When the object can be drawn on a viewport of this size.
    spec fn drawable(&self, vp: Viewport) -> bool;

    /// Exactly the cells the object draws.
    spec fn cells_of(&self, vp: Viewport) -> Seq<Cell>;

    /// Appends the object's cells to the frame.
    fn draw(&self, frame: &mut Frame, vp: Viewport)
        requires
            self.drawable(vp),
        ensures
            final(frame).cells@ == old(frame).cells@ + self.cells_of(vp),
    ;
}

} // verus!
