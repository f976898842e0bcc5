//! The shapes of the seven pieces and the quarter turns of a shape.

use crate::cell::{Cell, TetriminoKind};
use vstd::prelude::*;

verus! {

/// Side of the square box that holds a piece.
pub const MINO_CELL_SIZE: usize = 4;

/// One row of a piece's box.
pub type MinoLine = [Cell; MINO_CELL_SIZE];

/// The box of a piece: four rows of four tiles, row `y` and column `x` at
/// `[y][x]`.
pub type MinoData = [MinoLine; MINO_CELL_SIZE];

pub const EMPTY_MINO: MinoData = [
    [Cell::Empty, Cell::Empty, Cell::Empty, Cell::Empty],
    [Cell::Empty, Cell::Empty, Cell::Empty, Cell::Empty],
    [Cell::Empty, Cell::Empty, Cell::Empty, Cell::Empty],
    [Cell::Empty, Cell::Empty, Cell::Empty, Cell::Empty],
];

pub const I_MINO: MinoData = [
    [Cell::Empty, Cell::Empty, Cell::Empty, Cell::Empty],
    [Cell::IMino, Cell::IMino, Cell::IMino, Cell::IMino],
    [Cell::Empty, Cell::Empty, Cell::Empty, Cell::Empty],
    [Cell::Empty, Cell::Empty, Cell::Empty, Cell::Empty],
];

pub const O_MINO: MinoData = [
    [Cell::Empty, Cell::Empty, Cell::Empty, Cell::Empty],
    [Cell::Empty, Cell::OMino, Cell::OMino, Cell::Empty],
    [Cell::Empty, Cell::OMino, Cell::OMino, Cell::Empty],
    [Cell::Empty, Cell::Empty, Cell::Empty, Cell::Empty],
];

pub const S_MINO: MinoData = [
    [Cell::Empty, Cell::Empty, Cell::Empty, Cell::Empty],
    [Cell::Empty, Cell::SMino, Cell::SMino, Cell::Empty],
    [Cell::SMino, Cell::SMino, Cell::Empty, Cell::Empty],
    [Cell::Empty, Cell::Empty, Cell::Empty, Cell::Empty],
];

pub const Z_MINO: MinoData = [
    [Cell::Empty, Cell::Empty, Cell::Empty, Cell::Empty],
    [Cell::Empty, Cell::ZMino, Cell::ZMino, Cell::Empty],
    [Cell::Empty, Cell::Empty, Cell::ZMino, Cell::ZMino],
    [Cell::Empty, Cell::Empty, Cell::Empty, Cell::Empty],
];

pub const J_MINO: MinoData = [
    [Cell::Empty, Cell::Empty, Cell::Empty, Cell::Empty],
    [Cell::JMino, Cell::JMino, Cell::JMino, Cell::Empty],
    [Cell::Empty, Cell::Empty, Cell::JMino, Cell::Empty],
    [Cell::Empty, Cell::Empty, Cell::Empty, Cell::Empty],
];

pub const L_MINO: MinoData = [
    [Cell::Empty, Cell::Empty, Cell::Empty, Cell::Empty],
    [Cell::Empty, Cell::Empty, Cell::Empty, Cell::LMino],
    [Cell::Empty, Cell::LMino, Cell::LMino, Cell::LMino],
    [Cell::Empty, Cell::Empty, Cell::Empty, Cell::Empty],
];

pub const T_MINO: MinoData = [
    [Cell::Empty, Cell::Empty, Cell::Empty, Cell::Empty],
    [Cell::Empty, Cell::TMino, Cell::Empty, Cell::Empty],
    [Cell::TMino, Cell::TMino, Cell::TMino, Cell::Empty],
    [Cell::Empty, Cell::Empty, Cell::Empty, Cell::Empty],
];

/// The shape in which a piece of the given kind enters the game.
pub open spec fn template(kind: TetriminoKind) -> MinoData {
    match kind {
        TetriminoKind::I => I_MINO,
        TetriminoKind::J => J_MINO,
        TetriminoKind::L => L_MINO,
        TetriminoKind::O => O_MINO,
        TetriminoKind::S => S_MINO,
        TetriminoKind::T => T_MINO,
        TetriminoKind::Z => Z_MINO,
    }
}

/// Row `y`, column `x` lies inside the box.
pub open spec fn in_box(y: int, x: int) -> bool {
    0 <= y < MINO_CELL_SIZE && 0 <= x < MINO_CELL_SIZE
}

/// The box holds a block at row `y`, column `x`.
pub open spec fn occupied(cells: MinoData, y: int, x: int) -> bool {
    in_box(y, x) && cells[y][x] != Cell::Empty
}

/// The box after a quarter turn to the left: the tile at `[y][x]` goes to
/// `[3 - x][y]`.
pub open spec fn rotated_left(cells: MinoData) -> MinoData {
    [
        [cells[0][3], cells[1][3], cells[2][3], cells[3][3]],
        [cells[0][2], cells[1][2], cells[2][2], cells[3][2]],
        [cells[0][1], cells[1][1], cells[2][1], cells[3][1]],
        [cells[0][0], cells[1][0], cells[2][0], cells[3][0]],
    ]
}

/// The box after a quarter turn to the right: the tile at `[y][x]` goes to
/// `[x][3 - y]`.
pub open spec fn rotated_right(cells: MinoData) -> MinoData {
    [
        [cells[3][0], cells[2][0], cells[1][0], cells[0][0]],
        [cells[3][1], cells[2][1], cells[1][1], cells[0][1]],
        [cells[3][2], cells[2][2], cells[1][2], cells[0][2]],
        [cells[3][3], cells[2][3], cells[1][3], cells[0][3]],
    ]
}

/// Where each tile goes in a quarter turn to the left.
pub proof fn lemma_rotated_left_cells(cells: MinoData)
    ensures
        forall|y: int, x: int| in_box(y, x) ==> rotated_left(cells)[3 - x][y] == cells[y][x],
{
}

/// Where each tile goes in a quarter turn to the right.
pub proof fn lemma_rotated_right_cells(cells: MinoData)
    ensures
        forall|y: int, x: int| in_box(y, x) ==> rotated_right(cells)[x][3 - y] == cells[y][x],
{
}

/// Two boxes that agree tile by tile are the same box.
pub proof fn lemma_box_equal(a: MinoData, b: MinoData)
    requires
        forall|y: int, x: int| in_box(y, x) ==> a[y][x] == b[y][x],
    ensures
        a == b,
{
    assert forall|y: int| 0 <= y < MINO_CELL_SIZE implies a[y] == b[y] by {
        assert forall|x: int| 0 <= x < MINO_CELL_SIZE implies a[y][x] == b[y][x] by {
            assert(in_box(y, x));
        }
    }
}

/// Four quarter turns to the left bring every box back to itself.
pub proof fn lemma_rotate_left_four_times(cells: MinoData)
    ensures
        rotated_left(rotated_left(rotated_left(rotated_left(cells)))) == cells,
{
    lemma_box_equal(rotated_left(rotated_left(rotated_left(rotated_left(cells)))), cells);
}

/// Four quarter turns to the right bring every box back to itself.
pub proof fn lemma_rotate_right_four_times(cells: MinoData)
    ensures
        rotated_right(rotated_right(rotated_right(rotated_right(cells)))) == cells,
{
    lemma_box_equal(rotated_right(rotated_right(rotated_right(rotated_right(cells)))), cells);
}

/// A quarter turn to the right undoes one to the left, and the other way round.
pub proof fn lemma_rotations_are_inverse(cells: MinoData)
    ensures
        rotated_right(rotated_left(cells)) == cells,
        rotated_left(rotated_right(cells)) == cells,
{
    lemma_box_equal(rotated_right(rotated_left(cells)), cells);
    lemma_box_equal(rotated_left(rotated_right(cells)), cells);
}

} // verus!
