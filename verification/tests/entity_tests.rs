use flappy_birb::birb::Birb;
use flappy_birb::pipe::Pipe;
use flappy_birb::pipes::PipeVec;
use flappy_birb::ConfigError;
use flappy_birb::Viewport;

fn vp_80x24() -> Viewport {
    Viewport { cols: 80, rows: 24 }
}

#[test]
fn pipe_spawns_at_right_margin() {
    let p = Pipe::new(vp_80x24()).unwrap();
    assert_eq!(p.pos(), 76);
}

#[test]
fn pipe_moves_left_and_saturates_at_zero() {
    let mut p = Pipe::new(vp_80x24()).unwrap();
    // position after n ticks is max(0, 76 - n)
    for n in 1..=76u16 {
        let x = p.update();
        assert_eq!(x, 76 - n);
        assert_eq!(p.pos(), 76 - n);
    }
    assert_eq!(p.pos(), 0);
    assert_eq!(p.update(), 0);
    assert_eq!(p.update(), 0);
    assert_eq!(p.pos(), 0);
}

#[test]
fn pipe_new_rejects_too_small_terminal() {
    assert_eq!(
        Pipe::new(Viewport { cols: 4, rows: 24 }),
        Err(ConfigError::TerminalTooSmall)
    );
    assert_eq!(
        Pipe::new(Viewport { cols: 80, rows: 8 }),
        Err(ConfigError::TerminalTooSmall)
    );
    assert!(Pipe::new(Viewport { cols: 5, rows: 9 }).is_ok());
}

#[test]
fn pipe_gap_start_is_drawn_within_range() {
    // gap start is random, but always strictly below rows - GAP_SIZE - 1;
    // a draw that simply echoed its bound back would land on 16 every time
    for _ in 0..64 {
        let p = Pipe::new(vp_80x24()).unwrap();
        assert!(p.gap_start() < 16);
    }
}

#[test]
fn field_starts_with_one_pipe() {
    let f = PipeVec::new(vp_80x24(), 0).unwrap();
    assert_eq!(f.len(), 1);
    assert_eq!(f.pipe_at(0).pos(), 76);
}

#[test]
fn field_new_rejects_too_small_terminal() {
    assert!(matches!(
        PipeVec::new(Viewport { cols: 80, rows: 8 }, 0),
        Err(ConfigError::TerminalTooSmall)
    ));
}

#[test]
fn field_spawns_exactly_once_when_due_and_timer_resets() {
    let vp = vp_80x24();
    let mut f = PipeVec::new(vp, 0).unwrap();
    // not yet due: motion only
    assert!(f.update(vp, 4999).is_ok());
    assert_eq!(f.len(), 1);
    assert_eq!(f.pipe_at(0).pos(), 75);
    // due: exactly one pipe appended at the right margin
    assert!(f.update(vp, 5000).is_ok());
    assert_eq!(f.len(), 2);
    assert_eq!(f.pipe_at(0).pos(), 74);
    assert_eq!(f.pipe_at(1).pos(), 76);
    // the timer was reset: an immediate second tick cannot spawn again
    assert!(f.update(vp, 5000).is_ok());
    assert_eq!(f.len(), 2);
    assert_eq!(f.pipe_at(0).pos(), 73);
    assert_eq!(f.pipe_at(1).pos(), 75);
}

#[test]
fn field_set_spawn_rate_tunes_spawning() {
    let vp = vp_80x24();
    let mut f = PipeVec::new(vp, 0).unwrap();
    f.set_spawn_rate(1000);
    assert!(f.update(vp, 999).is_ok());
    assert_eq!(f.len(), 1);
    assert!(f.update(vp, 1000).is_ok());
    assert_eq!(f.len(), 2);
}

#[test]
fn field_skips_spawn_on_shrunken_terminal_but_still_moves() {
    // a field that is valid for a terminal whose rows cannot fit a new gap:
    // a due spawn is reported as a configuration error, motion still happens
    let vp = Viewport { cols: 80, rows: 8 };
    let mut f = PipeVec {
        pipes: vec![Pipe {
            pos: 10,
            split_height: 1,
        }],
        last_pipe: 0,
        spawn_rate: 100,
    };
    assert_eq!(f.update(vp, 200), Err(ConfigError::TerminalTooSmall));
    assert_eq!(f.len(), 1);
    assert_eq!(f.pipe_at(0).pos(), 9);
    assert_eq!(f.last_pipe, 0);
}

#[test]
fn field_retires_front_pipe_at_left_edge() {
    // terminal 80x24, spawn interval 5 s, one pipe at x = 76 at t = 0,
    // obstacle ticks at 10 Hz: a new pipe is appended at t = 5 s, and the
    // original pipe reaches the left edge and retires on tick 76 (t = 7.6 s)
    let vp = vp_80x24();
    let mut f = PipeVec::new(vp, 0).unwrap();
    for i in 1..=75u64 {
        assert!(f.update(vp, i * 100).is_ok());
        // never more than one pipe at the left edge
        let mut at_edge = 0;
        for j in 0..f.len() {
            if f.pipe_at(j).pos() == 0 {
                at_edge += 1;
            }
        }
        assert!(at_edge <= 1);
    }
    assert_eq!(f.len(), 2); // the spawn at t = 5 s happened
    assert_eq!(f.pipe_at(0).pos(), 1);
    assert_eq!(f.pipe_at(1).pos(), 76 - 25);
    assert!(f.update(vp, 7600).is_ok());
    assert_eq!(f.len(), 1); // the front pipe reached 0 and retired
    assert_eq!(f.pipe_at(0).pos(), 76 - 26);
}

#[test]
fn birb_starts_at_mid_height_at_rest() {
    let b = Birb::new(vp_80x24());
    assert_eq!(b.pos(), (10, 12));
    assert_eq!(b.velocity(), 0);
}

#[test]
fn birb_jump_then_tick_rises() {
    // row 12 of 24, velocity 0: one jump plus one tick strictly decreases
    // the row
    let mut b = Birb::new(vp_80x24());
    b.jump();
    assert_eq!(b.velocity(), -22);
    b.update();
    assert!(b.pos().1 < 12);
    assert_eq!(b.pos().1, 10);
    assert_eq!(b.velocity(), -18);
}

#[test]
fn birb_relaxes_to_terminal_velocity_and_clamps_at_floor() {
    let mut b = Birb::new(vp_80x24());
    b.jump();
    let mut last_vel = b.velocity();
    for _ in 0..60 {
        b.update();
        // gravity relaxes the velocity monotonically toward the cap
        assert!(b.velocity() >= last_vel);
        assert!(b.velocity() <= 12);
        last_vel = b.velocity();
    }
    assert_eq!(b.velocity(), 12);
    // the position has clamped at the bottom row and stays there
    assert_eq!(b.pos().1, 23);
    b.update();
    assert_eq!(b.pos().1, 23);
}

#[test]
fn birb_stays_in_bounds_under_any_mix_of_jumps_and_ticks() {
    let vp = vp_80x24();
    let mut b = Birb::new(vp);
    for i in 0..400u32 {
        if i % 3 == 0 || i % 7 == 0 {
            b.jump();
        }
        b.update();
        let (_, row) = b.pos();
        assert!(row <= 23);
    }
    // hammering jump pins it to the ceiling, never past it
    for _ in 0..40 {
        b.jump();
        b.update();
    }
    assert_eq!(b.pos().1, 0);
}
