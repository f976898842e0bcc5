//! The piece under the player's control: where it stands and when it falls.

use crate::point::Point;
use crate::tetrimino::Tetrimino;
use vstd::prelude::*;

verus! {

/// Column of the spawn point.
pub const SPAWN_X: u32 = 4;

/// Row of the spawn point.
pub const SPAWN_Y: u32 = 0;

/// Speed of the first piece of a game.
pub const INITIAL_SPEED: usize = 1;

/// What the gravity clock has to gather between two drops.
pub const DROP_THRESHOLD: usize = 100;

/// A piece with its place on the board and its gravity clock.
///
/// `position` is the top left corner of the piece's box. Every tick adds
/// `speed` to `frame`; once `frame` has reached `last_dropped` the piece is due
/// to fall a row, and `last_dropped` moves on by `threshold`.
#[derive(Clone, Copy, Debug, PartialEq, Eq, PartialOrd, Ord)]
pub struct ControlledTetrimino {
    pub mino: Tetrimino,
    pub position: Point,
    pub speed: usize,
    pub frame: usize,
    pub last_dropped: usize,
    pub threshold: usize,
}

impl ControlledTetrimino {
    /// Where every piece enters the board.
    pub open spec fn spawn_point() -> Point {
        Point { x: SPAWN_X, y: SPAWN_Y }
    }

    /// The first piece of a game: at the spawn point, with a clock that has
    /// not run yet.
    pub open spec fn start(mino: Tetrimino) -> ControlledTetrimino {
        ControlledTetrimino {
            mino,
            position: Self::spawn_point(),
            speed: INITIAL_SPEED,
            frame: 0,
            last_dropped: 0,
            threshold: DROP_THRESHOLD,
        }
    }

    /// The piece turned a quarter turn to the left, in place.
    pub open spec fn rotated_left(self) -> ControlledTetrimino {
        ControlledTetrimino { mino: self.mino.rotated_left(), ..self }
    }

    /// The piece turned a quarter turn to the right, in place.
    pub open spec fn rotated_right(self) -> ControlledTetrimino {
        ControlledTetrimino { mino: self.mino.rotated_right(), ..self }
    }

    /// The piece one column further left.
    pub open spec fn moved_left(self) -> ControlledTetrimino
        recommends
            self.position.x >= 1,
    {
        ControlledTetrimino {
            position: Point { x: (self.position.x - 1) as u32, y: self.position.y },
            ..self
        }
    }

    /// The piece one column further right.
    pub open spec fn moved_right(self) -> ControlledTetrimino
        recommends
            self.position.x < u32::MAX,
    {
        ControlledTetrimino {
            position: Point { x: (self.position.x + 1) as u32, y: self.position.y },
            ..self
        }
    }

    /// The piece `line` rows further down.
    pub open spec fn lowered(self, line: u32) -> ControlledTetrimino
        recommends
            self.position.y + line <= u32::MAX,
    {
        ControlledTetrimino {
            position: Point { x: self.position.x, y: (self.position.y + line) as u32 },
            ..self
        }
    }

    /// The next tick of the clock makes the piece fall.
    pub open spec fn drop_due(self) -> bool {
        self.frame + self.speed >= self.last_dropped
    }

    /// The next tick of the clock stays within the machine's integers.
    pub open spec fn clock_in_range(self) -> bool {
        &&& self.frame + self.speed <= usize::MAX
        &&& self.drop_due() ==> self.last_dropped + self.threshold <= usize::MAX
    }

    /// The piece after one tick of the clock; its place is not touched.
    pub open spec fn ticked(self) -> ControlledTetrimino {
        ControlledTetrimino {
            frame: (self.frame + self.speed) as usize,
            last_dropped: if self.drop_due() {
                (self.last_dropped + self.threshold) as usize
            } else {
                self.last_dropped
            },
            ..self
        }
    }

    /// The piece after one tick of the clock and, where the tick made it due,
    /// a fall of `line` rows.
    pub open spec fn fallen(self, line: u32) -> ControlledTetrimino {
        if self.drop_due() {
            self.ticked().lowered(line)
        } else {
            self.ticked()
        }
    }

    /// The piece that follows: `mino` at the spawn point, one step faster, the
    /// clock running on.
    pub open spec fn regenerated(self, mino: Tetrimino) -> ControlledTetrimino
        recommends
            self.speed < usize::MAX,
    {
        ControlledTetrimino {
            mino,
            position: Self::spawn_point(),
            speed: (self.speed + 1) as usize,
            ..self
        }
    }

    /// The piece `steps` steps faster.
    pub open spec fn sped_up(self, steps: nat) -> ControlledTetrimino
        recommends
            self.speed + steps <= usize::MAX,
    {
        ControlledTetrimino { speed: (self.speed + steps) as usize, ..self }
    }

    /// The piece one step faster.
    pub open spec fn accelerated(self) -> ControlledTetrimino
        recommends
            self.speed < usize::MAX,
    {
        self.sped_up(1)
    }

    pub fn init_position() -> (point: Point)
        ensures
            point == Self::spawn_point(),
    {
        Point::new(SPAWN_X, SPAWN_Y)
    }

    pub fn new(mino: Tetrimino) -> (piece: ControlledTetrimino)
        ensures
            piece == Self::start(mino),
    {
        ControlledTetrimino {
            mino,
            position: ControlledTetrimino::init_position(),
            speed: INITIAL_SPEED,
            frame: 0,
            last_dropped: 0,
            threshold: DROP_THRESHOLD,
        }
    }

    pub fn rotate_left(&mut self)
        ensures
            *final(self) == old(self).rotated_left(),
            old(self).mino.wf() ==> final(self).mino.wf(),
    {
        self.mino.rotate_left();
    }

    pub fn rotate_right(&mut self)
        ensures
            *final(self) == old(self).rotated_right(),
            old(self).mino.wf() ==> final(self).mino.wf(),
    {
        self.mino.rotate_right();
    }

    /// Moves the piece one column to the left, whatever stands there. The
    /// piece must not stand in column zero: there is no column left of it.
    pub fn move_left(&mut self)
        requires
            old(self).position.x >= 1,
        ensures
            *final(self) == old(self).moved_left(),
    {
        self.position.sub_x(1);
    }

    /// Moves the piece one column to the right, whatever stands there.
    pub fn move_right(&mut self)
        requires
            old(self).position.x < u32::MAX,
        ensures
            *final(self) == old(self).moved_right(),
    {
        self.position.add_x(1);
    }

    /// Lets the clock tick and tells whether the piece is due to fall. The
    /// clock moves on whether it is or not.
    pub fn is_dropped(&mut self) -> (due: bool)
        requires
            old(self).clock_in_range(),
        ensures
            due == old(self).drop_due(),
            *final(self) == old(self).ticked(),
    {
        self.frame += self.speed;
        if self.frame < self.last_dropped {
            return false;
        }
        self.last_dropped += self.threshold;

        true
    }

    /// Moves the piece `line` rows down without asking the clock.
    pub fn drop_by_force(&mut self, line: u32)
        requires
            old(self).position.y + line <= u32::MAX,
        ensures
            *final(self) == old(self).lowered(line),
    {
        self.position.add_y(line);
    }

    /// Lets the clock tick and moves the piece `line` rows down if the tick
    /// made it due.
    pub fn dropdown(&mut self, line: u32)
        requires
            old(self).clock_in_range(),
            old(self).drop_due() ==> old(self).position.y + line <= u32::MAX,
        ensures
            *final(self) == old(self).fallen(line),
    {
        if self.is_dropped() {
            self.position.add_y(line);
        }
    }

    /// Puts `mino` at the spawn point in place of the piece that was there,
    /// and makes the game one step faster.
    pub fn regenerate(&mut self, mino: Tetrimino)
        requires
            old(self).speed < usize::MAX,
        ensures
            *final(self) == old(self).regenerated(mino),
    {
        self.position = ControlledTetrimino::init_position();
        self.mino = mino;
        self.speed += 1;
    }

    /// Makes the game one step faster.
    pub fn accel(&mut self)
        requires
            old(self).speed < usize::MAX,
        ensures
            *final(self) == old(self).accelerated(),
    {
        self.speed += 1;
    }
}

} // verus!
