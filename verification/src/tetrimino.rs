//! A piece: a kind and the box that holds its blocks.

use crate::cell::{Cell, TetriminoKind};
use crate::mino::{
    in_box, lemma_box_equal, occupied, rotated_left, rotated_right, template, MinoData,
    EMPTY_MINO, I_MINO, J_MINO, L_MINO, MINO_CELL_SIZE, O_MINO, S_MINO, T_MINO, Z_MINO,
};
use vstd::prelude::*;

verus! {

/// A piece in some orientation.
#[derive(Clone, Copy, Debug, PartialEq, Eq, PartialOrd, Ord)]
pub struct Tetrimino {
    pub kind: TetriminoKind,
    pub cells: MinoData,
}

/// Every tile of the box is empty or is `tag`.
pub open spec fn tiled_with(cells: MinoData, tag: Cell) -> bool {
    forall|y: int, x: int| in_box(y, x) ==> cells[y][x] == Cell::Empty || cells[y][x] == tag
}

/// The box holds at least one block.
pub open spec fn has_block(cells: MinoData) -> bool {
    exists|y: int, x: int| occupied(cells, y, x)
}

impl Tetrimino {
    /// The piece of the given kind as it enters the game.
    pub open spec fn of(kind: TetriminoKind) -> Tetrimino {
        Tetrimino { kind, cells: template(kind) }
    }

    /// The piece stands in its entry shape.
    pub open spec fn is_fresh(self) -> bool {
        self == Tetrimino::of(self.kind)
    }

    /// The box holds the entry shape of the piece's kind, turned by zero to
    /// three quarter turns.
    pub open spec fn wf(self) -> bool {
        let shape = template(self.kind);
        ||| self.cells == shape
        ||| self.cells == rotated_right(shape)
        ||| self.cells == rotated_right(rotated_right(shape))
        ||| self.cells == rotated_right(rotated_right(rotated_right(shape)))
    }

    /// The piece after a quarter turn to the left.
    pub open spec fn rotated_left(self) -> Tetrimino {
        Tetrimino { kind: self.kind, cells: rotated_left(self.cells) }
    }

    /// The piece after a quarter turn to the right.
    pub open spec fn rotated_right(self) -> Tetrimino {
        Tetrimino { kind: self.kind, cells: rotated_right(self.cells) }
    }

    /// The piece of the given kind in its entry shape.
    pub fn new(kind: TetriminoKind) -> (piece: Tetrimino)
        ensures
            piece == Tetrimino::of(kind),
            piece.wf(),
    {
        Tetrimino {
            kind,
            cells: match kind {
                TetriminoKind::I => I_MINO,
                TetriminoKind::J => J_MINO,
                TetriminoKind::L => L_MINO,
                TetriminoKind::O => O_MINO,
                TetriminoKind::S => S_MINO,
                TetriminoKind::T => T_MINO,
                TetriminoKind::Z => Z_MINO,
            },
        }
    }

    /// Turns the piece a quarter turn to the left, wherever it stands: whether
    /// the turned piece has room on a board is the caller's concern.
    pub fn rotate_left(&mut self)
        ensures
            *final(self) == old(self).rotated_left(),
            old(self).wf() ==> final(self).wf(),
    {
        let mut new_blocks: MinoData = EMPTY_MINO;
        let mut y: usize = 0;
        while y < MINO_CELL_SIZE
            invariant
                y <= MINO_CELL_SIZE,
                *self == *old(self),
                forall|j: int, i: int|
                    0 <= j < y && 0 <= i < MINO_CELL_SIZE ==> new_blocks[3 - i][j]
                        == self.cells[j][i],
            decreases MINO_CELL_SIZE - y,
        {
            let mut x: usize = 0;
            while x < MINO_CELL_SIZE
                invariant
                    y < MINO_CELL_SIZE,
                    x <= MINO_CELL_SIZE,
                    *self == *old(self),
                    forall|j: int, i: int|
                        0 <= j < y && 0 <= i < MINO_CELL_SIZE ==> new_blocks[3 - i][j]
                            == self.cells[j][i],
                    forall|i: int|
                        0 <= i < x ==> new_blocks[3 - i][y as int] == self.cells[y as int][i],
                decreases MINO_CELL_SIZE - x,
            {
                new_blocks[MINO_CELL_SIZE - 1 - x][y] = self.cells[y][x];
                x += 1;
            }
            y += 1;
        }
        proof {
            lemma_box_equal(new_blocks, rotated_left(self.cells));
            if self.wf() {
                lemma_turn_left_keeps_shape(*self);
            }
        }
        self.cells = new_blocks;
    }

    /// Turns the piece a quarter turn to the right, wherever it stands.
    pub fn rotate_right(&mut self)
        ensures
            *final(self) == old(self).rotated_right(),
            old(self).wf() ==> final(self).wf(),
    {
        let mut new_blocks: MinoData = EMPTY_MINO;
        let mut y: usize = 0;
        while y < MINO_CELL_SIZE
            invariant
                y <= MINO_CELL_SIZE,
                *self == *old(self),
                forall|j: int, i: int|
                    0 <= j < y && 0 <= i < MINO_CELL_SIZE ==> new_blocks[i][3 - j]
                        == self.cells[j][i],
            decreases MINO_CELL_SIZE - y,
        {
            let mut x: usize = 0;
            while x < MINO_CELL_SIZE
                invariant
                    y < MINO_CELL_SIZE,
                    x <= MINO_CELL_SIZE,
                    *self == *old(self),
                    forall|j: int, i: int|
                        0 <= j < y && 0 <= i < MINO_CELL_SIZE ==> new_blocks[i][3 - j]
                            == self.cells[j][i],
                    forall|i: int| 0 <= i < x ==> new_blocks[i][3 - y] == self.cells[y as int][i],
                decreases MINO_CELL_SIZE - x,
            {
                new_blocks[x][MINO_CELL_SIZE - 1 - y] = self.cells[y][x];
                x += 1;
            }
            y += 1;
        }
        proof {
            lemma_box_equal(new_blocks, rotated_right(self.cells));
            if self.wf() {
                lemma_turn_right_keeps_shape(*self);
            }
        }
        self.cells = new_blocks;
    }
}

impl Default for Tetrimino {
    /// A piece of a kind drawn at random, in its entry shape.
    fn default() -> (piece: Tetrimino)
        ensures
            piece.is_fresh(),
            piece.wf(),
    {
        let kind = TetriminoKind::default();
        Tetrimino::new(kind)
    }
}

/// Four quarter turns in the same direction bring a piece back to where it
/// was.
pub proof fn lemma_four_turns_come_round(piece: Tetrimino)
    ensures
        piece.rotated_left().rotated_left().rotated_left().rotated_left() == piece,
        piece.rotated_right().rotated_right().rotated_right().rotated_right() == piece,
{
    crate::mino::lemma_rotate_left_four_times(piece.cells);
    crate::mino::lemma_rotate_right_four_times(piece.cells);
}

/// A quarter turn one way undoes a quarter turn the other way.
pub proof fn lemma_turn_and_turn_back(piece: Tetrimino)
    ensures
        piece.rotated_left().rotated_right() == piece,
        piece.rotated_right().rotated_left() == piece,
{
    crate::mino::lemma_rotations_are_inverse(piece.cells);
}

/// A well-formed piece stays well-formed under a quarter turn to the right.
pub proof fn lemma_turn_right_keeps_shape(piece: Tetrimino)
    requires
        piece.wf(),
    ensures
        piece.rotated_right().wf(),
{
    crate::mino::lemma_rotate_right_four_times(template(piece.kind));
}

/// A well-formed piece stays well-formed under a quarter turn to the left.
pub proof fn lemma_turn_left_keeps_shape(piece: Tetrimino)
    requires
        piece.wf(),
    ensures
        piece.rotated_left().wf(),
{
    let shape = template(piece.kind);
    crate::mino::lemma_rotate_right_four_times(shape);
    crate::mino::lemma_rotations_are_inverse(shape);
    crate::mino::lemma_rotations_are_inverse(rotated_right(shape));
    crate::mino::lemma_rotations_are_inverse(rotated_right(rotated_right(shape)));
}

/// A quarter turn moves the tiles of a box and changes none of them.
pub proof fn lemma_turn_keeps_tiles(cells: MinoData, tag: Cell)
    requires
        tiled_with(cells, tag),
    ensures
        tiled_with(rotated_right(cells), tag),
        tiled_with(rotated_left(cells), tag),
{
    assert forall|y: int, x: int| in_box(y, x) implies rotated_right(cells)[y][x] == Cell::Empty
        || rotated_right(cells)[y][x] == tag by {
        assert(in_box(3 - x, y));
    }
    assert forall|y: int, x: int| in_box(y, x) implies rotated_left(cells)[y][x] == Cell::Empty
        || rotated_left(cells)[y][x] == tag by {
        assert(in_box(x, 3 - y));
    }
}

/// A quarter turn to the right takes no block out of a box.
pub proof fn lemma_turn_keeps_a_block(cells: MinoData)
    requires
        has_block(cells),
    ensures
        has_block(rotated_right(cells)),
{
    let (y, x) = choose|y: int, x: int| occupied(cells, y, x);
    assert(occupied(rotated_right(cells), x, 3 - y));
}

/// The entry shape of every kind is made of the kind's own tile and holds a
/// block.
pub proof fn lemma_template_shape(kind: TetriminoKind)
    ensures
        tiled_with(template(kind), kind.tag()),
        has_block(template(kind)),
{
    assert(occupied(template(kind), 1, 1) || occupied(template(kind), 1, 3));
}

/// A well-formed piece is made of its kind's tile alone and holds a block.
pub proof fn lemma_shape(piece: Tetrimino)
    requires
        piece.wf(),
    ensures
        tiled_with(piece.cells, piece.kind.tag()),
        has_block(piece.cells),
{
    let tag = piece.kind.tag();
    let s0 = template(piece.kind);
    let s1 = rotated_right(s0);
    let s2 = rotated_right(s1);
    lemma_template_shape(piece.kind);
    lemma_turn_keeps_tiles(s0, tag);
    lemma_turn_keeps_tiles(s1, tag);
    lemma_turn_keeps_tiles(s2, tag);
    lemma_turn_keeps_a_block(s0);
    lemma_turn_keeps_a_block(s1);
    lemma_turn_keeps_a_block(s2);
}

} // verus!
