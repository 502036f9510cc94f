//! A single gated pipe: a full-height bar with a fixed-size opening, which
//! scrolls one column to the left per tick and saturates at the left edge.

use vstd::prelude::*;

use crate::fits;
use crate::frame::Cell;
use crate::frame::Draw;
use crate::frame::Frame;
use crate::frame::Glyph;
use crate::ConfigError;
use crate::Viewport;
use crate::GAP_SIZE;
use crate::PIPE_WIDTH;

verus! {

/// One vertical gated pipe. `pos` is the column of its left edge;
/// `split_height` is the row where its opening begins.
#[derive(Clone, Copy, Debug, PartialEq, Eq, Structural)]
pub struct Pipe {
    pub pos: u16,
    pub split_height: u16,
}

/// The pipe's gap fits inside a viewport of `rows` rows.
pub open spec fn wf_pipe(p: Pipe, rows: u16) -> bool {
    p.split_height + GAP_SIZE <= rows
}

/// A pipe as `new` places it for viewport `vp`: at the right margin, with a
/// gap start drawn from `[0, vp.rows - GAP_SIZE - 1)`.
pub open spec fn freshly_spawned(p: Pipe, vp: Viewport) -> bool {
    &&& p.pos == vp.cols - PIPE_WIDTH
    &&& p.split_height + GAP_SIZE + 2 <= vp.rows
}

/// One tick of horizontal motion: one column leftward, stopping at 0.
pub open spec fn step_x(x: int) -> int {
    if x > 0 {
        x - 1
    } else {
        0
    }
}

/// The pipe after one tick: moved one column, gap unchanged.
pub open spec fn stepped_pipe(p: Pipe) -> Pipe {
    Pipe { pos: step_x(p.pos as int) as u16, split_height: p.split_height }
}

/// The pipe's column after `n` ticks from column `x`.
pub open spec fn x_after(x: int, n: nat) -> int
    decreases n,
{
    if n == 0 {
        x
    } else {
        step_x(x_after(x, (n - 1) as nat))
    }
}

/// Law: after any number of ticks the column is the initial column less the
/// tick count, saturating at zero — it never goes negative.
pub proof fn lemma_position_after_ticks(x: int, n: nat)
    requires
        x >= 0,
    ensures
        x_after(x, n) == if x - n >= 0 { x - n } else { 0int },
    decreases n,
{
    if n > 0 {
        lemma_position_after_ticks(x, (n - 1) as nat);
    }
}

/// Relies on rand::random_range over `0..bound`: a uniform sample from a
/// non-empty half-open range, so the result is strictly below the bound.
#[verifier::external_body]
fn random_below(bound: u16) -> (r: u16)
    requires
        bound > 0,
    ensures
        r < bound,
{
    rand::random_range(0..bound)
}

impl Pipe {
    /// Places a new pipe at the right margin of the viewport, with the gap
    /// start chosen uniformly at random among the rows that leave the gap
    /// and a bottom margin on screen. Rejects a viewport too small for that.
    pub fn new(vp: Viewport) -> (r: Result<Self, ConfigError>)
        ensures
            r is Ok <==> fits(vp),
            r is Ok ==> freshly_spawned(r->Ok_0, vp),
    {
        if vp.cols < PIPE_WIDTH + 1 || vp.rows < GAP_SIZE + 2 {
            return Err(ConfigError::TerminalTooSmall);
        }
        let pos = vp.cols - PIPE_WIDTH;
        let split_height = random_below(vp.rows - GAP_SIZE - 1);
        Ok(Pipe { pos, split_height })
    }

    /// The column of the pipe's left edge.
    pub fn pos(&self) -> (r: u16)
        ensures
            r == self.pos,
    {
        self.pos
    }

    /// The row where the pipe's opening begins; the opening spans
    /// `GAP_SIZE` rows from here.
    pub fn gap_start(&self) -> (r: u16)
        ensures
            r == self.split_height,
    {
        self.split_height
    }

    /// Moves the pipe one column leftward, saturating at column 0, and
    /// returns the resulting column so the caller can detect the left edge
    /// without a second query.
    pub fn update(&mut self) -> (r: u16)
        ensures
            *final(self) == stepped_pipe(*old(self)),
            r == final(self).pos,
    {
        if self.pos > 0 {
            self.pos -= 1;
        } else {
            self.pos = 0;
        }
        self.pos
    }
}

/// One row of a pipe's bar, as a frame cell.
pub open spec fn bar_cell(p: Pipe, row: int) -> Cell {
    Cell { col: p.pos, row: row as u16, glyph: Glyph::PipeBar }
}

/// The cells a pipe draws on `rows` rows: a full-width bar from the top row
/// down to the gap start (exclusive), `GAP_SIZE` blank rows, then a bar from
/// below the gap down to the bottom row inclusive. The gap is the only
/// passable region.
pub open spec fn pipe_cells(p: Pipe, rows: u16) -> Seq<Cell> {
    Seq::new(p.split_height as nat, |i: int| bar_cell(p, i)) + Seq::new(
        (rows - p.split_height - GAP_SIZE) as nat,
        |i: int| bar_cell(p, p.split_height + GAP_SIZE + i),
    )
}

impl Draw for Pipe {
    open spec fn drawable(&self, vp: Viewport) -> bool {
        wf_pipe(*self, vp.rows)
    }

    open spec fn cells_of(&self, vp: Viewport) -> Seq<Cell> {
        pipe_cells(*self, vp.rows)
    }

    fn draw(&self, frame: &mut Frame, vp: Viewport) {
        let mut row: u16 = 0;
        while row < self.split_height
            invariant
                row <= self.split_height,
                frame.cells@ == old(frame).cells@ + Seq::new(
                    row as nat,
                    |i: int| bar_cell(*self, i),
                ),
            decreases self.split_height - row,
        {
            frame.cells.push(Cell { col: self.pos, row, glyph: Glyph::PipeBar });
            row += 1;
            proof {
                assert(frame.cells@ =~= old(frame).cells@ + Seq::new(
                    row as nat,
                    |i: int| bar_cell(*self, i),
                ));
            }
        }
        let base = self.split_height + GAP_SIZE;
        let mut row2: u16 = base;
        while row2 < vp.rows
            invariant
                wf_pipe(*self, vp.rows),
                base == self.split_height + GAP_SIZE,
                base <= row2 <= vp.rows,
                frame.cells@ == old(frame).cells@ + Seq::new(
                    self.split_height as nat,
                    |i: int| bar_cell(*self, i),
                ) + Seq::new((row2 - base) as nat, |i: int| bar_cell(*self, base + i)),
            decreases vp.rows - row2,
        {
            frame.cells.push(Cell { col: self.pos, row: row2, glyph: Glyph::PipeBar });
            row2 += 1;
            proof {
                assert(frame.cells@ =~= old(frame).cells@ + Seq::new(
                    self.split_height as nat,
                    |i: int| bar_cell(*self, i),
                ) + Seq::new((row2 - base) as nat, |i: int| bar_cell(*self, base + i)));
            }
        }
        proof {
            assert(frame.cells@ =~= old(frame).cells@ + pipe_cells(*self, vp.rows));
        }
    }
}

} // verus!
