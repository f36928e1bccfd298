//! A game: one frame and the ball that bounces in it.
use vstd::prelude::*;

use crate::ball::{Ball, Frame, MIN_FRAME_SIDE};

verus! {

/// Difference between the window's size and the frame's interior size.
pub const WINDOW_FRAME_DIFF: i32 = 4;

/// A frame together with the ball moving in it.
#[derive(Clone, Copy, Debug, PartialEq, Eq, Structural)]
pub struct Game {
    pub frame: Frame,
    pub ball: Ball,
}

/// The window is too small for a frame: the interior size it would give.
#[derive(Clone, Copy, Debug, PartialEq, Eq, Structural)]
pub struct SizeError {
    pub width: i64,
    pub height: i64,
}

impl Game {
    /// A fresh game in `f`, with the ball in its initial state.
    pub open spec fn started(f: Frame) -> Game {
        Game { frame: f, ball: Ball::initial() }
    }

    /// The frame is valid and the ball lies between its walls.
    pub open spec fn wf(self) -> bool {
        self.frame.valid() && self.ball.inside(self.frame)
    }

    /// The game after `n` ticks.
    pub open spec fn after(self, n: nat) -> Game
        decreases n,
    {
        if n == 0 {
            self
        } else {
            Game { frame: self.frame, ball: self.after((n - 1) as nat).ball.stepped(self.frame) }
        }
    }

    /// A game in `frame` with the ball in its initial state.
    pub fn new(frame: Frame) -> (r: Game)
        ensures
            r == Game::started(frame),
            frame.valid() ==> r.wf(),
    {
        Game { frame, ball: Ball::default() }
    }

    /// One tick: the ball bounces against the frame's walls, then moves.
    /// The move must keep the coordinates representable, which holds in every
    /// well-formed game.
    pub fn step(&mut self)
        requires
            old(self).wf() || old(self).ball.bounced(old(self).frame).can_move(),
        ensures
            *final(self) == old(self).after(1),
            final(self).ball == old(self).ball.stepped(old(self).frame),
            final(self).frame == old(self).frame,
            old(self).wf() ==> final(self).wf(),
    {
        let ghost start = *self;
        proof {
            if self.wf() {
                crate::ball::lemma_step_stays_inside(self.ball, self.frame);
            }
        }
        self.ball.bounce(&self.frame);
        self.ball.mv();
        assert(start.after(0) == start);
    }
}

/// Builds a game for a window of `max_y` rows and `max_x` columns. The frame's
/// interior is the window less `WINDOW_FRAME_DIFF` on each axis; a window whose
/// frame would be narrower or lower than `MIN_FRAME_SIDE` is refused.
pub fn create_game(max_y: i32, max_x: i32) -> (r: Result<Game, SizeError>)
    ensures
        r is Err <==> (max_x - WINDOW_FRAME_DIFF < MIN_FRAME_SIDE || max_y - WINDOW_FRAME_DIFF
            < MIN_FRAME_SIDE),
        r matches Ok(g) ==> g == Game::started(
            (Frame { width: (max_x - WINDOW_FRAME_DIFF) as i32, height: (max_y - WINDOW_FRAME_DIFF) as i32 }),
        ) && g.wf(),
        r matches Err(e) ==> e.width == max_x - WINDOW_FRAME_DIFF && e.height == max_y
            - WINDOW_FRAME_DIFF,
{
    let width: i64 = max_x as i64 - WINDOW_FRAME_DIFF as i64;
    let height: i64 = max_y as i64 - WINDOW_FRAME_DIFF as i64;
    if width < MIN_FRAME_SIDE as i64 || height < MIN_FRAME_SIDE as i64 {
        return Err(SizeError { width, height });
    }
    Ok(Game::new(Frame { width: width as i32, height: height as i32 }))
}

/// Every state reached from a fresh game in a valid frame keeps the ball
/// between the walls.
pub proof fn lemma_reachable_inside(f: Frame, n: nat)
    requires
        f.valid(),
    ensures
        Game::started(f).after(n).wf(),
    decreases n,
{
    if n > 0 {
        lemma_reachable_inside(f, (n - 1) as nat);
        crate::ball::lemma_step_stays_inside(Game::started(f).after((n - 1) as nat).ball, f);
    }
}

/// Ticking is deterministic: equal games stay equal tick after tick, and
/// `m` ticks followed by `n` ticks are the same as `m + n` ticks. A well-formed
/// game stays well-formed all along.
pub proof fn lemma_runs_deterministic(a: Game, b: Game, m: nat, n: nat)
    requires
        a == b,
        a.wf(),
    ensures
        a.after(n) == b.after(n),
        a.after(m).after(n) == a.after(m + n),
        a.after(n).wf(),
    decreases n,
{
    if n > 0 {
        lemma_runs_deterministic(a, b, m, (n - 1) as nat);
        assert(a.after(m).after(n).frame == a.frame) by {
            lemma_frame_kept(a.after(m), n);
            lemma_frame_kept(a, m);
        }
        crate::ball::lemma_step_stays_inside(a.after((n - 1) as nat).ball, a.frame);
        lemma_frame_kept(a, (n - 1) as nat);
    }
}

proof fn lemma_frame_kept(g: Game, n: nat)
    ensures
        g.after(n).frame == g.frame,
    decreases n,
{
    if n > 0 {
        lemma_frame_kept(g, (n - 1) as nat);
    }
}

} // verus!
