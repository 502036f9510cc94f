//! A terminal flappy-bird game core: a gravity-bound character, a scrolling
//! field of gated pipes, and a fixed-tick game loop, all on a character-cell
//! grid. Terminal I/O, input decoding and wall-clock reads live outside the
//! library; the core works on an injected viewport and a millisecond clock.

use vstd::prelude::*;

pub mod birb;
pub mod frame;
pub mod game;
pub mod pipe;
pub mod pipes;

verus! {

/// Width in columns of a pipe's glyph; pipes also spawn this many columns
/// in from the right edge of the viewport.
pub const PIPE_WIDTH: u16 = 4;

/// Height in rows of a pipe's passable opening.
pub const GAP_SIZE: u16 = 7;

/// The terminal dimensions, in character cells, queried once per frame by
/// the embedding program and passed in explicitly.
#[derive(Clone, Copy, Debug, PartialEq, Eq, Structural)]
pub struct Viewport {
    pub cols: u16,
    pub rows: u16,
}

/// The one way construction can fail: the terminal has too few rows to fit
/// a gap or too few columns to place a pipe.
#[derive(Clone, Copy, Debug, PartialEq, Eq, Structural)]
pub enum ConfigError {
    TerminalTooSmall,
}

/// A viewport large enough to place a pipe: room for the glyph column plus
/// a margin on the right, and rows for the gap, a bottom margin, and at
/// least one choice of gap start.
pub open spec fn fits(vp: Viewport) -> bool {
    vp.cols >= PIPE_WIDTH + 1 && vp.rows >= GAP_SIZE + 2
}

} // verus!
