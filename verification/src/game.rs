//! The composition root: owns the character and the obstacle field, runs the
//! three independently clocked cadences (render, obstacle tick, character
//! tick), routes input signals, and detects the collision that ends a
//! session. The embedding program drives it: it polls input, hands each
//! signal to `handle_input`, calls `step` with the current clock reading,
//! and emits any frame `step` produced as one atomic terminal update.

use vstd::prelude::*;

use crate::birb::birb_cell;
use crate::birb::jumped_birb;
use crate::birb::stepped_birb;
use crate::birb::wf_birb;
use crate::birb::Birb;
use crate::birb::BIRB_COL;
use crate::birb::BIRB_WIDTH;
use crate::fits;
use crate::frame::Draw;
use crate::frame::Frame;
use crate::pipe::freshly_spawned;
use crate::pipe::Pipe;
use crate::pipes::field_cells;
use crate::pipes::step_rel;
use crate::pipes::wf_field;
use crate::pipes::PipeVec;
use crate::pipes::DEFAULT_SPAWN_RATE_MS;
use crate::ConfigError;
use crate::Viewport;
use crate::GAP_SIZE;
use crate::PIPE_WIDTH;

verus! {

/// Minimum milliseconds between renders: a target of roughly sixty frames
/// per second.
pub const RENDER_PERIOD_MS: u64 = 16;

/// Minimum milliseconds between simulation ticks of either kind: ten ticks
/// per second. The obstacle and character cadences share the target rate but
/// run on independent timers, so one can be retuned without the other.
pub const TICK_PERIOD_MS: u64 = 100;

/// An abstract input signal, already decoded from whatever the platform's
/// keyboard events look like.
#[derive(Clone, Copy, Debug, PartialEq, Eq, Structural)]
pub enum Signal {
    Jump,
    Quit,
    Other,
}

/// What one loop iteration produced: a frame to emit (when the render
/// cadence fired), whether a due spawn had to be skipped because the
/// viewport is too small, and whether the session has ended in a collision.
pub struct StepOutput {
    pub frame: Option<Frame>,
    pub spawn_failed: bool,
    pub game_over: bool,
}

/// The game session: character, obstacle field, the viewport they were
/// built for, one timer per cadence, and the game-over latch.
pub struct GameLoop {
    pub birb: Birb,
    pub pipes: PipeVec,
    pub vp: Viewport,
    pub last_draw: u64,
    pub last_pipe_update: u64,
    pub last_birb_update: u64,
    pub over: bool,
}

/// The session invariant: both entities are well formed for the session's
/// viewport.
pub open spec fn wf_game(g: GameLoop) -> bool {
    &&& wf_birb(g.birb)
    &&& g.birb.rows == g.vp.rows
    &&& wf_field(g.pipes, g.vp)
}

/// The character's glyph and the pipe's bar share at least one column.
pub open spec fn overlaps(b: Birb, p: Pipe) -> bool {
    b.pos.0 < p.pos + PIPE_WIDTH && p.pos < b.pos.0 + BIRB_WIDTH
}

/// The character's row lies inside the pipe's gap band, the only passable
/// region of the pipe's column.
pub open spec fn in_gap(b: Birb, p: Pipe) -> bool {
    p.split_height <= b.pos.1 < p.split_height + GAP_SIZE
}

/// The character collides with the pipe: their columns overlap and the
/// character is outside the gap band.
pub open spec fn hits(b: Birb, p: Pipe) -> bool {
    overlaps(b, p) && !in_gap(b, p)
}

/// The character collides with some pipe of the field.
pub open spec fn hits_any(b: Birb, s: Seq<Pipe>) -> bool {
    exists|i: int| 0 <= i < s.len() && hits(b, #[trigger] s[i])
}

/// The obstacle-tick cadence is due.
pub open spec fn pipe_tick_due(g: GameLoop, now: u64) -> bool {
    now - g.last_pipe_update >= TICK_PERIOD_MS
}

/// The character-tick cadence is due.
pub open spec fn birb_tick_due(g: GameLoop, now: u64) -> bool {
    now - g.last_birb_update >= TICK_PERIOD_MS
}

/// The render cadence is due.
pub open spec fn render_due(g: GameLoop, now: u64) -> bool {
    now - g.last_draw >= RENDER_PERIOD_MS
}

/// Handle one decoded input signal: a jump is routed to the birb, a quit
/// asks the caller to end the session cleanly, anything else is ignored.
pub fn handle_input(sig: Signal, birb: &mut Birb) -> (quit: bool)
    ensures
        quit == (sig is Quit),
        sig is Jump ==> *final(birb) == jumped_birb(*old(birb)),
        !(sig is Jump) ==> *final(birb) == *old(birb),
{
    match sig {
        Signal::Quit => true,
        Signal::Jump => {
            birb.jump();
            false
        },
        Signal::Other => false,
    }
}

/// Whether the character collides with this one pipe, from their positions
/// and the pipe's gap bounds.
pub fn collides(birb: &Birb, pipe: &Pipe) -> (r: bool)
    ensures
        r == hits(*birb, *pipe),
{
    let birb_col = birb.pos.0 as u32;
    let pipe_col = pipe.pos as u32;
    let overlap = birb_col < pipe_col + (PIPE_WIDTH as u32) && pipe_col < birb_col + (
    BIRB_WIDTH as u32);
    let row = birb.pos.1 as u32;
    let gap_top = pipe.split_height as u32;
    let gap = gap_top <= row && row < gap_top + (GAP_SIZE as u32);
    overlap && !gap
}

impl GameLoop {
    /// Builds a session for the given viewport, with all cadence timers
    /// baselined at `now`: a birb at mid-height and a field holding one
    /// pipe. Rejects a viewport too small to hold a pipe.
    pub fn new(vp: Viewport, now: u64) -> (r: Result<Self, ConfigError>)
        ensures
            r is Ok <==> fits(vp),
            r is Ok ==> {
                let g = r->Ok_0;
                &&& wf_game(g)
                &&& g.vp == vp
                &&& !g.over
                &&& g.last_draw == now
                &&& g.last_pipe_update == now
                &&& g.last_birb_update == now
                &&& g.birb.vel == 0
                &&& g.birb.pos.0 == BIRB_COL
                &&& g.birb.pos.1 == vp.rows / 2
                &&& g.pipes.pipes@.len() == 1
                &&& freshly_spawned(g.pipes.pipes@[0], vp)
                &&& g.pipes.last_pipe == now
                &&& g.pipes.spawn_rate == DEFAULT_SPAWN_RATE_MS
            },
    {
        let pipes = PipeVec::new(vp, now)?;
        let birb = Birb::new(vp);
        Ok(
            GameLoop {
                birb,
                pipes,
                vp,
                last_draw: now,
                last_pipe_update: now,
                last_birb_update: now,
                over: false,
            },
        )
    }

    /// Whether the character currently collides with any pipe of the field.
    pub fn collided(&self) -> (r: bool)
        ensures
            r == hits_any(self.birb, self.pipes.pipes@),
    {
        let n = self.pipes.len();
        let mut i: usize = 0;
        while i < n
            invariant
                n == self.pipes.pipes@.len(),
                i <= n,
                forall|k: int| 0 <= k < i ==> !hits(self.birb, #[trigger] self.pipes.pipes@[k]),
            decreases n - i,
        {
            let p = self.pipes.pipe_at(i);
            if collides(&self.birb, &p) {
                return true;
            }
            i += 1;
        }
        false
    }

    /// One iteration of the loop at clock reading `now`. Each cadence fires
    /// independently when its minimum interval has passed: the obstacle tick
    /// advances the field (a due spawn that the viewport cannot hold is
    /// reported, not fatal), the character tick advances the physics, and the
    /// render builds a fresh frame — field first, character above it. A
    /// collision latches the game-over state; once over, the session no
    /// longer changes.
    pub fn step(&mut self, now: u64) -> (r: StepOutput)
        requires
            wf_game(*old(self)),
            old(self).last_draw <= now,
            old(self).last_pipe_update <= now,
            old(self).last_birb_update <= now,
            old(self).pipes.last_pipe <= now,
        ensures
            wf_game(*final(self)),
            final(self).vp == old(self).vp,
            r.game_over == final(self).over,
            old(self).over ==> *final(self) == *old(self) && r.frame is None && !r.spawn_failed,
            !old(self).over ==> {
                &&& if pipe_tick_due(*old(self), now) {
                    &&& step_rel(
                        old(self).pipes,
                        final(self).pipes,
                        old(self).vp,
                        now,
                        !r.spawn_failed,
                    )
                    &&& final(self).last_pipe_update == now
                } else {
                    &&& final(self).pipes == old(self).pipes
                    &&& final(self).last_pipe_update == old(self).last_pipe_update
                    &&& !r.spawn_failed
                }
                &&& if birb_tick_due(*old(self), now) {
                    &&& final(self).birb == stepped_birb(old(self).birb)
                    &&& final(self).last_birb_update == now
                } else {
                    &&& final(self).birb == old(self).birb
                    &&& final(self).last_birb_update == old(self).last_birb_update
                }
                &&& final(self).over == hits_any(final(self).birb, final(self).pipes.pipes@)
                &&& if render_due(*old(self), now) {
                    &&& r.frame matches Some(f) && f.cells@ == field_cells(
                        final(self).pipes.pipes@,
                        old(self).vp.rows,
                    ) + seq![birb_cell(final(self).birb)]
                    &&& final(self).last_draw == now
                } else {
                    &&& r.frame is None
                    &&& final(self).last_draw == old(self).last_draw
                }
            },
    {
        if self.over {
            return StepOutput { frame: None, spawn_failed: false, game_over: true };
        }

        let mut spawn_failed = false;
        if now - self.last_pipe_update >= TICK_PERIOD_MS {
            match self.pipes.update(self.vp, now) {
                Ok(()) => {},
                Err(_) => {
                    spawn_failed = true;
                },
            }
            self.last_pipe_update = now;
        }

        if now - self.last_birb_update >= TICK_PERIOD_MS {
            self.birb.update();
            self.last_birb_update = now;
        }

        if self.collided() {
            self.over = true;
        }

        let frame = if now - self.last_draw >= RENDER_PERIOD_MS {
            let mut frame = Frame::new();
            self.pipes.draw(&mut frame, self.vp);
            self.birb.draw(&mut frame, self.vp);
            self.last_draw = now;
            proof {
                assert(frame.cells@ =~= field_cells(self.pipes.pipes@, self.vp.rows) + seq![
                    birb_cell(self.birb),
                ]);
            }
            Some(frame)
        } else {
            None
        };

        StepOutput { frame, spawn_failed, game_over: self.over }
    }
}

} // verus!
