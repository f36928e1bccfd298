//! The ball, the frame it bounces in, and the per-tick update.
use vstd::prelude::*;

verus! {

/// Smallest interior width or height a frame may be played in.
pub const MIN_FRAME_SIDE: i32 = 10;

/// Horizontal direction of travel.
#[derive(Clone, Copy, Debug, PartialEq, Eq, Structural)]
pub enum HorizDir {
    Left,
    Right,
}

/// Vertical direction of travel.
#[derive(Clone, Copy, Debug, PartialEq, Eq, Structural)]
pub enum VertDir {
    Up,
    Down,
}

impl HorizDir {
    /// Change of `x` in one move.
    pub open spec fn delta(self) -> int {
        match self {
            HorizDir::Left => -1,
            HorizDir::Right => 1,
        }
    }
}

impl VertDir {
    /// Change of `y` in one move.
    pub open spec fn delta(self) -> int {
        match self {
            VertDir::Up => -1,
            VertDir::Down => 1,
        }
    }
}

/// Interior size of the playing area, border excluded.
#[derive(Clone, Copy, Debug, PartialEq, Eq, Structural)]
pub struct Frame {
    pub width: i32,
    pub height: i32,
}

impl Frame {
    /// A frame that a game may be played in: at least `MIN_FRAME_SIDE` on each
    /// side, and small enough that its walls are representable.
    pub open spec fn valid(self) -> bool {
        &&& MIN_FRAME_SIDE <= self.width <= i32::MAX - 2
        &&& MIN_FRAME_SIDE <= self.height <= i32::MAX - 2
    }

    /// Column of the right wall.
    pub open spec fn right_wall(self) -> int {
        self.width + 2
    }

    /// Row of the bottom wall.
    pub open spec fn bottom_wall(self) -> int {
        self.height + 2
    }
}

/// Horizontal direction after checking column `x` against the walls.
pub open spec fn bounced_horiz(x: int, d: HorizDir, right_wall: int) -> HorizDir {
    if x == 1 {
        HorizDir::Right
    } else if x == right_wall {
        HorizDir::Left
    } else {
        d
    }
}

/// Vertical direction after checking row `y` against the walls.
pub open spec fn bounced_vert(y: int, d: VertDir, bottom_wall: int) -> VertDir {
    if y == 1 {
        VertDir::Down
    } else if y == bottom_wall {
        VertDir::Up
    } else {
        d
    }
}

/// The moving point: its cell and its direction on each axis.
#[derive(Clone, Copy, Debug, PartialEq, Eq, Structural)]
pub struct Ball {
    pub x: i32,
    pub y: i32,
    pub vert_dir: VertDir,
    pub horiz_dir: HorizDir,
}

impl Ball {
    /// The state every game starts from.
    pub open spec fn initial() -> Ball {
        Ball { x: 3, y: 5, vert_dir: VertDir::Up, horiz_dir: HorizDir::Left }
    }

    /// The ball lies between the walls of `f`, walls included.
    pub open spec fn inside(self, f: Frame) -> bool {
        &&& 1 <= self.x <= f.right_wall()
        &&& 1 <= self.y <= f.bottom_wall()
    }

    /// The ball after `bounce` against `f`: same cell, directions turned at walls.
    pub open spec fn bounced(self, f: Frame) -> Ball {
        Ball {
            horiz_dir: bounced_horiz(self.x as int, self.horiz_dir, f.right_wall()),
            vert_dir: bounced_vert(self.y as int, self.vert_dir, f.bottom_wall()),
            ..self
        }
    }

    /// One move keeps both coordinates representable.
    pub open spec fn can_move(self) -> bool {
        &&& i32::MIN <= self.x + self.horiz_dir.delta() <= i32::MAX
        &&& i32::MIN <= self.y + self.vert_dir.delta() <= i32::MAX
    }

    /// The ball after `mv`: one cell along each axis, directions unchanged.
    pub open spec fn moved(self) -> Ball {
        Ball {
            x: (self.x + self.horiz_dir.delta()) as i32,
            y: (self.y + self.vert_dir.delta()) as i32,
            ..self
        }
    }

    /// The ball after one tick in `f`: `bounce`, then `mv`.
    pub open spec fn stepped(self, f: Frame) -> Ball {
        self.bounced(f).moved()
    }

    /// Turns each direction whose wall the ball is on: right at the left wall,
    /// left at the right wall, down at the top wall, up at the bottom wall.
    pub fn bounce(&mut self, frame: &Frame)
        ensures
            *final(self) == old(self).bounced(*frame),
    {
        if self.x == 1 {
            self.horiz_dir = HorizDir::Right;
        } else if self.x as i64 == frame.width as i64 + 2 {
            self.horiz_dir = HorizDir::Left;
        }
        if self.y == 1 {
            self.vert_dir = VertDir::Down;
        } else if self.y as i64 == frame.height as i64 + 2 {
            self.vert_dir = VertDir::Up;
        }
    }

    /// Advances one cell along each axis in the current directions.
    pub fn mv(&mut self)
        requires
            old(self).can_move(),
        ensures
            final(self).x == old(self).x + old(self).horiz_dir.delta(),
            final(self).y == old(self).y + old(self).vert_dir.delta(),
            final(self).horiz_dir == old(self).horiz_dir,
            final(self).vert_dir == old(self).vert_dir,
    {
        match self.horiz_dir {
            HorizDir::Left => self.x = self.x - 1,
            HorizDir::Right => self.x = self.x + 1,
        }
        match self.vert_dir {
            VertDir::Up => self.y = self.y - 1,
            VertDir::Down => self.y = self.y + 1,
        }
    }
}

impl Default for Ball {
    /// A ball at (3, 5) heading left and up.
    fn default() -> (r: Self)
        ensures
            r == Ball::initial(),
    {
        Ball { x: 3, y: 5, vert_dir: VertDir::Up, horiz_dir: HorizDir::Left }
    }
}

/// A ball between the walls of a valid frame stays between them after a tick,
/// and the move of that tick never overflows.
pub proof fn lemma_step_stays_inside(b: Ball, f: Frame)
    requires
        f.valid(),
        b.inside(f),
    ensures
        b.bounced(f).can_move(),
        b.stepped(f).inside(f),
{
}

/// On a wall, `bounce` points the ball away from it: right at `x == 1`, left at
/// `x == width + 2`, down at `y == 1`, up at `y == height + 2`. Off the walls
/// the directions are kept.
pub proof fn lemma_direction_flips(b: Ball, f: Frame)
    requires
        f.valid(),
    ensures
        b.x == 1 ==> b.bounced(f).horiz_dir == HorizDir::Right,
        b.x == f.right_wall() ==> b.bounced(f).horiz_dir == HorizDir::Left,
        b.y == 1 ==> b.bounced(f).vert_dir == VertDir::Down,
        b.y == f.bottom_wall() ==> b.bounced(f).vert_dir == VertDir::Up,
        1 < b.x < f.right_wall() ==> b.bounced(f).horiz_dir == b.horiz_dir,
        1 < b.y < f.bottom_wall() ==> b.bounced(f).vert_dir == b.vert_dir,
        b.bounced(f).x == b.x && b.bounced(f).y == b.y,
{
}

/// A ball in the top-left corner heading left and up turns on both axes at
/// once and leaves the corner diagonally to (2, 2), heading right and down.
pub proof fn lemma_corner_bounce(b: Ball, f: Frame)
    requires
        f.valid(),
        b.x == 1,
        b.y == 1,
        b.horiz_dir == HorizDir::Left,
        b.vert_dir == VertDir::Up,
    ensures
        b.stepped(f) == (Ball { x: 2, y: 2, vert_dir: VertDir::Down, horiz_dir: HorizDir::Right }),
{
}

} // verus!
