//! Tiles and piece kinds.

use crate::random::random_below;
use vstd::prelude::*;
use vstd::std_specs::convert::FromSpecImpl;

verus! {

/// One tile of the board or of the display buffer.
///
/// `Tetrion` is the frame of the well: walls, floor and the filler beside the
/// spawn gap. The other seven tiles mark the blocks of one kind of piece.
#[derive(Clone, Copy, Debug, PartialEq, Eq, PartialOrd, Ord, Structural)]
pub enum Cell {
    Empty,
    Tetrion,
    IMino,
    JMino,
    LMino,
    OMino,
    SMino,
    TMino,
    ZMino,
}

/// The seven one-sided tetrominoes.
#[derive(Clone, Copy, Debug, PartialEq, Eq, PartialOrd, Ord, Structural)]
pub enum TetriminoKind {
    I,
    J,
    L,
    O,
    S,
    T,
    Z,
}

/// The phases a piece goes through between spawning and locking.
#[derive(Clone, Copy, Debug, PartialEq, Eq, PartialOrd, Ord, Structural)]
pub enum TetriminoState {
    Prepare,
    Falling,
    Stopped,
}

/// How many kinds of piece there are.
pub const KIND_COUNT: u32 = 7;

impl TetriminoKind {
    /// The tile that marks the blocks of a piece of this kind.
    pub open spec fn tag(self) -> Cell {
        match self {
            TetriminoKind::I => Cell::IMino,
            TetriminoKind::J => Cell::JMino,
            TetriminoKind::L => Cell::LMino,
            TetriminoKind::O => Cell::OMino,
            TetriminoKind::S => Cell::SMino,
            TetriminoKind::T => Cell::TMino,
            TetriminoKind::Z => Cell::ZMino,
        }
    }

    /// The kind that stands at `index` in the order I, J, L, O, S, T, Z; every
    /// index from six on gives Z.
    pub open spec fn at(index: u32) -> TetriminoKind {
        if index == 0 {
            TetriminoKind::I
        } else if index == 1 {
            TetriminoKind::J
        } else if index == 2 {
            TetriminoKind::L
        } else if index == 3 {
            TetriminoKind::O
        } else if index == 4 {
            TetriminoKind::S
        } else if index == 5 {
            TetriminoKind::T
        } else {
            TetriminoKind::Z
        }
    }
}

impl From<TetriminoKind> for Cell {
    fn from(value: TetriminoKind) -> (cell: Cell) {
        match value {
            TetriminoKind::I => Cell::IMino,
            TetriminoKind::J => Cell::JMino,
            TetriminoKind::L => Cell::LMino,
            TetriminoKind::O => Cell::OMino,
            TetriminoKind::S => Cell::SMino,
            TetriminoKind::T => Cell::TMino,
            TetriminoKind::Z => Cell::ZMino,
        }
    }
}

impl FromSpecImpl<TetriminoKind> for Cell {
    open spec fn obeys_from_spec() -> bool {
        true
    }

    open spec fn from_spec(value: TetriminoKind) -> Cell {
        value.tag()
    }
}

impl From<u32> for TetriminoKind {
    fn from(value: u32) -> (kind: TetriminoKind) {
        match value {
            0 => TetriminoKind::I,
            1 => TetriminoKind::J,
            2 => TetriminoKind::L,
            3 => TetriminoKind::O,
            4 => TetriminoKind::S,
            5 => TetriminoKind::T,
            _ => TetriminoKind::Z,
        }
    }
}

impl FromSpecImpl<u32> for TetriminoKind {
    open spec fn obeys_from_spec() -> bool {
        true
    }

    open spec fn from_spec(value: u32) -> TetriminoKind {
        TetriminoKind::at(value)
    }
}

impl Default for TetriminoKind {
    /// A kind drawn at random, each of the seven with the same chance.
    fn default() -> (kind: TetriminoKind) {
        let drawn: u32 = random_below(KIND_COUNT);
        TetriminoKind::from(drawn)
    }
}

} // verus!
