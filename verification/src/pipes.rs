//! The obstacle field: an ordered collection of pipes, oldest (leftmost)
//! first. Each tick moves every pipe one column left, retires the front pipe
//! once it reaches the left edge, and spawns a fresh pipe at the right margin
//! when the spawn timer is due. Time is an injected millisecond clock.

use vstd::prelude::*;

use crate::fits;
use crate::frame::Cell;
use crate::frame::Draw;
use crate::frame::Frame;
use crate::pipe::freshly_spawned;
use crate::pipe::pipe_cells;
use crate::pipe::stepped_pipe;
use crate::pipe::wf_pipe;
use crate::pipe::Pipe;
use crate::ConfigError;
use crate::Viewport;
use crate::PIPE_WIDTH;

verus! {

/// How long the field waits between spawns unless tuned, in milliseconds.
pub const DEFAULT_SPAWN_RATE_MS: u64 = 5000;

/// Contains multiple pipes, makes it easier to do logic with all pipes at
/// once. `last_pipe` is the clock reading at the most recent spawn;
/// `spawn_rate` the minimum milliseconds between spawns.
#[derive(Clone, Debug)]
pub struct PipeVec {
    pub pipes: Vec<Pipe>,
    pub last_pipe: u64,
    pub spawn_rate: u64,
}

/// Pipes stand in strictly increasing column order: front of the sequence is
/// the leftmost, soonest-to-retire pipe.
pub open spec fn sorted_strict(s: Seq<Pipe>) -> bool {
    forall|i: int, j: int| 0 <= i < j < s.len() ==> s[i].pos < s[j].pos
}

/// The field's invariant for viewport `vp`: every pipe's gap fits the rows,
/// every pipe stands fully right of the left edge and within the columns,
/// and the sequence is strictly ordered left to right.
pub open spec fn wf_field(f: PipeVec, vp: Viewport) -> bool {
    &&& forall|i: int|
        0 <= i < f.pipes@.len() ==> {
            &&& wf_pipe(#[trigger] f.pipes@[i], vp.rows)
            &&& 1 <= f.pipes@[i].pos
            &&& f.pipes@[i].pos + PIPE_WIDTH <= vp.cols
        }
    &&& sorted_strict(f.pipes@)
}

/// The spawn timer is due: at least `rate` milliseconds have passed since
/// the last spawn.
pub open spec fn spawn_due(last: int, rate: int, now: int) -> bool {
    now - last >= rate
}

/// Every pipe moved one column left.
pub open spec fn moved_pipes(s: Seq<Pipe>) -> Seq<Pipe> {
    s.map_values(|p: Pipe| stepped_pipe(p))
}

/// One tick of motion and retirement: every pipe moves one column left, and
/// the front pipe is dropped if it thereby reached the left edge.
pub open spec fn after_retire(s: Seq<Pipe>) -> Seq<Pipe> {
    let m = moved_pipes(s);
    if m.len() > 0 && m[0].pos == 0 {
        m.drop_first()
    } else {
        m
    }
}

/// What one field tick does, for a pre state, a post state and a clock
/// reading: motion and retirement always happen; a spawn appends exactly one
/// fresh pipe and resets the timer exactly when it is due and the viewport
/// can hold a pipe (`ok` reports a spawn that was due but impossible).
pub open spec fn step_rel(pre: PipeVec, post: PipeVec, vp: Viewport, now: u64, ok: bool) -> bool {
    let kept = after_retire(pre.pipes@);
    &&& post.spawn_rate == pre.spawn_rate
    &&& if spawn_due(pre.last_pipe as int, pre.spawn_rate as int, now as int) {
        if fits(vp) {
            &&& ok
            &&& post.pipes@.len() == kept.len() + 1
            &&& post.pipes@.take(kept.len() as int) == kept
            &&& freshly_spawned(post.pipes@.last(), vp)
            &&& post.last_pipe == now
        } else {
            &&& !ok
            &&& post.pipes@ == kept
            &&& post.last_pipe == pre.last_pipe
        }
    } else {
        &&& ok
        &&& post.pipes@ == kept
        &&& post.last_pipe == pre.last_pipe
    }
}

/// Law: one tick preserves the field invariant — motion, retirement and a
/// spawn at the right margin all keep the pipes strictly ordered, on screen
/// and clear of the left edge.
pub proof fn lemma_step_preserves_wf(pre: PipeVec, post: PipeVec, vp: Viewport, now: u64, ok: bool)
    requires
        wf_field(pre, vp),
        step_rel(pre, post, vp, now, ok),
    ensures
        wf_field(post, vp),
{
    let s = pre.pipes@;
    let m = moved_pipes(s);
    let kept = after_retire(s);
    assert forall|i: int| 0 <= i < kept.len() implies {
        &&& wf_pipe(#[trigger] kept[i], vp.rows)
        &&& 1 <= kept[i].pos
        &&& kept[i].pos + PIPE_WIDTH < vp.cols
    } by {
        if m.len() > 0 && m[0].pos == 0 {
            assert(kept[i] == m[i + 1]);
            assert(m[i + 1] == stepped_pipe(s[i + 1]));
            assert(s[0].pos < s[i + 1].pos);
        } else {
            assert(kept[i] == m[i]);
            assert(m[i] == stepped_pipe(s[i]));
            if i > 0 {
                assert(s[0].pos < s[i].pos);
            }
        }
    };
    assert(sorted_strict(kept)) by {
        assert forall|i: int, j: int| 0 <= i < j < kept.len() implies kept[i].pos < kept[j].pos by {
            if m.len() > 0 && m[0].pos == 0 {
                assert(kept[i] == stepped_pipe(s[i + 1]));
                assert(kept[j] == stepped_pipe(s[j + 1]));
                assert(s[i + 1].pos < s[j + 1].pos);
                assert(1 <= s[i + 1].pos);
            } else {
                assert(kept[i] == stepped_pipe(s[i]));
                assert(kept[j] == stepped_pipe(s[j]));
                assert(s[i].pos < s[j].pos);
                assert(1 <= s[i].pos);
            }
        };
    };
    let due = spawn_due(pre.last_pipe as int, pre.spawn_rate as int, now as int);
    if due && fits(vp) {
        let n = kept.len() as int;
        assert forall|i: int| 0 <= i < post.pipes@.len() implies {
            &&& wf_pipe(#[trigger] post.pipes@[i], vp.rows)
            &&& 1 <= post.pipes@[i].pos
            &&& post.pipes@[i].pos + PIPE_WIDTH <= vp.cols
        } by {
            if i < n {
                assert(post.pipes@[i] == post.pipes@.take(n)[i]);
                assert(kept[i].pos + PIPE_WIDTH < vp.cols);
            } else {
                assert(post.pipes@[i] == post.pipes@.last());
            }
        };
        assert forall|i: int, j: int|
            0 <= i < j < post.pipes@.len() implies post.pipes@[i].pos < post.pipes@[j].pos by {
            assert(post.pipes@[i] == post.pipes@.take(n)[i]);
            if j < n {
                assert(post.pipes@[j] == post.pipes@.take(n)[j]);
            } else {
                assert(post.pipes@[j] == post.pipes@.last());
                assert(kept[i].pos + PIPE_WIDTH < vp.cols);
            }
        };
    }
}

/// Law: a field whose pipes are strictly ordered holds at most one pipe at
/// any one column — in particular at most one pipe whose position is exactly
/// 0. (The field invariant is stronger still: after a tick no pipe at all
/// sits at column 0, since the front pipe retires on reaching it.)
pub proof fn lemma_at_most_one_at_edge(s: Seq<Pipe>)
    requires
        sorted_strict(s),
    ensures
        forall|i: int, j: int|
            0 <= i < s.len() && 0 <= j < s.len() && s[i].pos == 0 && s[j].pos == 0 ==> i == j,
{
    assert forall|i: int, j: int|
        0 <= i < s.len() && 0 <= j < s.len() && s[i].pos == 0 && s[j].pos == 0 implies i == j by {
        if i < j {
            assert(s[i].pos < s[j].pos);
        }
        if j < i {
            assert(s[j].pos < s[i].pos);
        }
    };
}

/// Law: when a spawn fires, the timer resets to the tick's clock reading, so
/// a second tick at the same instant is never due again for any positive
/// spawn interval — at most one pipe is appended per due interval.
pub proof fn lemma_spawn_resets_timer(last: int, rate: int, now: int)
    requires
        rate > 0,
        spawn_due(last, rate, now),
    ensures
        !spawn_due(now, rate, now),
{
}

/// Law: a tick that spawned leaves the timer at `now`, so a second tick at
/// the same clock reading appends nothing — the field can only move and
/// shrink by retirement, never grow twice in one instant.
pub proof fn lemma_no_double_spawn(
    pre: PipeVec,
    mid: PipeVec,
    post: PipeVec,
    vp: Viewport,
    now: u64,
    ok2: bool,
)
    requires
        pre.spawn_rate > 0,
        spawn_due(pre.last_pipe as int, pre.spawn_rate as int, now as int),
        fits(vp),
        step_rel(pre, mid, vp, now, true),
        step_rel(mid, post, vp, now, ok2),
    ensures
        post.pipes@.len() <= mid.pipes@.len(),
        post.last_pipe == mid.last_pipe,
{
}

impl PipeVec {
    /// Creates a new field holding a single freshly placed pipe, with the
    /// spawn timer baselined at `now` and the default spawn interval.
    /// Rejects a viewport too small to hold a pipe.
    pub fn new(vp: Viewport, now: u64) -> (r: Result<Self, ConfigError>)
        ensures
            r is Ok <==> fits(vp),
            r is Ok ==> {
                let f = r->Ok_0;
                &&& wf_field(f, vp)
                &&& f.pipes@.len() == 1
                &&& freshly_spawned(f.pipes@[0], vp)
                &&& f.last_pipe == now
                &&& f.spawn_rate == DEFAULT_SPAWN_RATE_MS
            },
    {
        let pipe = Pipe::new(vp)?;
        let mut pipes: Vec<Pipe> = Vec::new();
        pipes.push(pipe);
        Ok(PipeVec { pipes, last_pipe: now, spawn_rate: DEFAULT_SPAWN_RATE_MS })
    }

    /// How many pipes the field currently holds.
    pub fn len(&self) -> (r: usize)
        ensures
            r == self.pipes@.len(),
    {
        self.pipes.len()
    }

    /// The pipe at index `i`, front (leftmost) first.
    pub fn pipe_at(&self, i: usize) -> (r: Pipe)
        requires
            i < self.pipes@.len(),
        ensures
            r == self.pipes@[i as int],
    {
        self.pipes[i]
    }

    /// Updates all pipes: moves each one column left, retires the front pipe
    /// if it thereby reached the left edge (at most one retirement per tick),
    /// and, if the spawn timer is due, appends one freshly placed pipe and
    /// resets the timer. A viewport too small to place the new pipe skips
    /// that tick's spawn and reports the error; motion still happened.
    pub fn update(&mut self, vp: Viewport, now: u64) -> (r: Result<(), ConfigError>)
        requires
            wf_field(*old(self), vp),
            old(self).last_pipe <= now,
        ensures
            step_rel(*old(self), *final(self), vp, now, r is Ok),
            wf_field(*final(self), vp),
    {
        let ghost s = old(self).pipes@;
        let mut moved: Vec<Pipe> = Vec::new();
        let mut i: usize = 0;
        while i < self.pipes.len()
            invariant
                *self == *old(self),
                i <= self.pipes@.len(),
                moved@.len() == i,
                forall|k: int| 0 <= k < i ==> moved@[k] == stepped_pipe(self.pipes@[k]),
            decreases self.pipes@.len() - i,
        {
            let mut p = self.pipes[i];
            p.update();
            moved.push(p);
            i += 1;
        }
        proof {
            assert(moved@ =~= moved_pipes(s));
        }
        if moved.len() > 0 && moved[0].pos() == 0 {
            moved.remove(0);
            proof {
                assert(moved@ =~= after_retire(s));
            }
        }
        let ghost kept = after_retire(s);
        assert(moved@ == kept);

        let result: Result<(), ConfigError> = if now - self.last_pipe >= self.spawn_rate {
            match Pipe::new(vp) {
                Ok(new_pipe) => {
                    moved.push(new_pipe);
                    self.last_pipe = now;
                    proof {
                        assert(moved@.take(kept.len() as int) =~= kept);
                    }
                    Ok(())
                },
                Err(e) => Err(e),
            }
        } else {
            Ok(())
        };
        self.pipes = moved;
        proof {
            lemma_step_preserves_wf(*old(self), *self, vp, now, result is Ok);
        }
        result
    }

    /// Changes the spawn interval of pipes, in milliseconds, for difficulty
    /// tuning; pipes and the running timer are untouched.
    pub fn set_spawn_rate(&mut self, rate: u64)
        ensures
            final(self).spawn_rate == rate,
            final(self).pipes == old(self).pipes,
            final(self).last_pipe == old(self).last_pipe,
    {
        self.spawn_rate = rate;
    }
}

/// The cells the whole field draws: each pipe's cells, front (leftmost)
/// pipe first.
pub open spec fn field_cells(s: Seq<Pipe>, rows: u16) -> Seq<Cell>
    decreases s.len(),
{
    if s.len() == 0 {
        Seq::empty()
    } else {
        field_cells(s.drop_last(), rows) + pipe_cells(s.last(), rows)
    }
}

impl Draw for PipeVec {
    open spec fn drawable(&self, vp: Viewport) -> bool {
        forall|i: int| 0 <= i < self.pipes@.len() ==> wf_pipe(#[trigger] self.pipes@[i], vp.rows)
    }

    open spec fn cells_of(&self, vp: Viewport) -> Seq<Cell> {
        field_cells(self.pipes@, vp.rows)
    }

    fn draw(&self, frame: &mut Frame, vp: Viewport) {
        let mut i: usize = 0;
        while i < self.pipes.len()
            invariant
                self.drawable(vp),
                i <= self.pipes@.len(),
                frame.cells@ == old(frame).cells@ + field_cells(
                    self.pipes@.take(i as int),
                    vp.rows,
                ),
            decreases self.pipes@.len() - i,
        {
            let p = self.pipes[i];
            p.draw(frame, vp);
            i += 1;
            proof {
                let t = self.pipes@.take(i as int);
                assert(t.drop_last() =~= self.pipes@.take(i - 1));
                assert(t.last() == self.pipes@[i - 1]);
                assert(frame.cells@ =~= old(frame).cells@ + field_cells(t, vp.rows));
            }
        }
        proof {
            assert(self.pipes@.take(self.pipes@.len() as int) =~= self.pipes@);
        }
    }
}

} // verus!
