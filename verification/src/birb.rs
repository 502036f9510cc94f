//! The controllable character: falls under gravity, jumps on demand, and is
//! clamped to the viewport's rows. Velocity is fixed-point, in tenths of a
//! row per tick, so one gravity step of `4` adds 0.4 rows per tick of fall
//! speed; a row moves only once the accumulated speed passes a whole row.

use vstd::prelude::*;

use crate::frame::Cell;
use crate::frame::Draw;
use crate::frame::Frame;
use crate::frame::Glyph;
use crate::Viewport;

verus! {

/// The column the character always occupies, a little in from the left edge.
pub const BIRB_COL: u16 = 10;

/// Width in columns of the character's glyph.
pub const BIRB_WIDTH: u16 = 2;

/// Height in rows of the character's glyph.
pub const GLYPH_HEIGHT: u16 = 1;

/// Upward impulse set by a jump, in tenths of a row per tick (negative is
/// upward, toward row 0).
pub const JUMP_VEL: i16 = -22;

/// Gravity: added to the velocity once per tick, in tenths of a row.
pub const GRAVITY: i16 = 4;

/// Terminal fall speed: the velocity never relaxes past this.
pub const TERMINAL_VEL: i16 = 12;

/// A very flappy birb. `pos` is `(column, row)`; `rows` is the height of
/// the viewport it was created for, which clamps its motion.
#[derive(Clone, Copy, Debug)]
pub struct Birb {
    pub pos: (u16, u16),
    pub vel: i16,
    pub rows: u16,
}

/// The character's invariant: it sits on a row of its viewport (leaving room
/// for its glyph) and its velocity stays between a fresh jump impulse and the
/// terminal fall speed.
pub open spec fn wf_birb(b: Birb) -> bool {
    &&& GLYPH_HEIGHT <= b.rows
    &&& b.pos.1 + GLYPH_HEIGHT <= b.rows
    &&& JUMP_VEL <= b.vel <= TERMINAL_VEL
}

/// Whole rows moved in one tick at velocity `vel`: the magnitude of the
/// fixed-point velocity, truncated to whole rows.
pub open spec fn fall_mag(vel: int) -> int {
    (if vel < 0 {
        -vel
    } else {
        vel
    }) / 10
}

/// One tick of vertical motion: the row moves by the whole-row part of the
/// velocity, clamped to `[0, rows - GLYPH_HEIGHT]`.
pub open spec fn stepped_row(row: int, vel: int, rows: int) -> int {
    let floor = rows - GLYPH_HEIGHT;
    if vel < 0 {
        if row >= fall_mag(vel) {
            row - fall_mag(vel)
        } else {
            0
        }
    } else {
        if row + fall_mag(vel) <= floor {
            row + fall_mag(vel)
        } else {
            floor
        }
    }
}

/// One tick of gravity: the velocity relaxes toward the terminal fall speed
/// and is clamped there.
pub open spec fn stepped_vel(vel: int) -> int {
    if vel + GRAVITY <= TERMINAL_VEL {
        vel + GRAVITY
    } else {
        TERMINAL_VEL as int
    }
}

/// The character after one tick.
pub open spec fn stepped_birb(b: Birb) -> Birb {
    Birb {
        pos: (b.pos.0, stepped_row(b.pos.1 as int, b.vel as int, b.rows as int) as u16),
        vel: stepped_vel(b.vel as int) as i16,
        rows: b.rows,
    }
}

/// The character right after a jump: same cell, velocity reset to the
/// upward impulse.
pub open spec fn jumped_birb(b: Birb) -> Birb {
    Birb { pos: b.pos, vel: JUMP_VEL, rows: b.rows }
}

/// Law: ticking or jumping keeps the character well formed — in particular
/// its row stays within `[0, rows - GLYPH_HEIGHT]`, whatever sequence of
/// ticks and jumps led to the current state.
pub proof fn lemma_step_stays_in_bounds(b: Birb)
    requires
        wf_birb(b),
    ensures
        wf_birb(stepped_birb(b)),
        wf_birb(jumped_birb(b)),
{
}

/// Law: a jump followed immediately by one tick moves the character to a
/// strictly smaller row (upward), from any velocity state, as long as it is
/// not already at the ceiling.
pub proof fn lemma_jump_then_tick_rises(b: Birb)
    requires
        wf_birb(b),
        b.pos.1 > 0,
    ensures
        stepped_birb(jumped_birb(b)).pos.1 < b.pos.1,
{
}

impl Birb {
    /// Gives a new birb at mid-height, a little in from the left margin,
    /// at rest.
    pub fn new(vp: Viewport) -> (r: Self)
        requires
            vp.rows >= GLYPH_HEIGHT,
        ensures
            wf_birb(r),
            r.pos == (BIRB_COL, vp.rows / 2),
            r.vel == 0,
            r.rows == vp.rows,
    {
        let y = vp.rows / 2;
        Birb { pos: (BIRB_COL, y), vel: 0, rows: vp.rows }
    }

    /// Gives the current position of the birb as `(column, row)`.
    pub fn pos(&self) -> (r: (u16, u16))
        ensures
            r == self.pos,
    {
        self.pos
    }

    /// Gets the vertical velocity of the birb, in tenths of a row per tick;
    /// negative is upward.
    pub fn velocity(&self) -> (r: i16)
        ensures
            r == self.vel,
    {
        self.vel
    }

    /// Makes the birb go jump: resets the velocity to the upward impulse.
    pub fn jump(&mut self)
        ensures
            *final(self) == jumped_birb(*old(self)),
    {
        self.vel = JUMP_VEL;
    }

    /// Time tick: applies the velocity to the row, clamped to the viewport,
    /// then relaxes the velocity toward the terminal fall speed.
    pub fn update(&mut self)
        requires
            wf_birb(*old(self)),
        ensures
            *final(self) == stepped_birb(*old(self)),
            wf_birb(*final(self)),
    {
        let mag: u16 = if self.vel < 0 {
            (-self.vel) as u16
        } else {
            self.vel as u16
        };
        let to_apply: u16 = mag / 10;

        if self.vel < 0 {
            if self.pos.1 >= to_apply {
                self.pos.1 -= to_apply;
            } else {
                self.pos.1 = 0;
            }
        } else {
            let floor = self.rows - GLYPH_HEIGHT;
            if self.pos.1 + to_apply <= floor {
                self.pos.1 += to_apply;
            } else {
                self.pos.1 = floor;
            }
        }

        if self.vel + GRAVITY <= TERMINAL_VEL {
            self.vel += GRAVITY;
        } else {
            self.vel = TERMINAL_VEL;
        }
    }
}

/// The one cell the character draws: its glyph at its position.
pub open spec fn birb_cell(b: Birb) -> Cell {
    Cell { col: b.pos.0, row: b.pos.1, glyph: Glyph::BirbBody }
}

impl Draw for Birb {
    open spec fn drawable(&self, vp: Viewport) -> bool {
        true
    }

    open spec fn cells_of(&self, vp: Viewport) -> Seq<Cell> {
        seq![birb_cell(*self)]
    }

    fn draw(&self, frame: &mut Frame, vp: Viewport) {
        frame.cells.push(Cell { col: self.pos.0, row: self.pos.1, glyph: Glyph::BirbBody });
        proof {
            assert(frame.cells@ =~= old(frame).cells@ + seq![birb_cell(*self)]);
        }
    }
}

} // verus!
