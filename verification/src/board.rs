//! The board as a mathematical object: rows of tiles, the frame of the well,
//! collision, locking and the removal of completed rows.

use crate::cell::Cell;
use crate::controlled::{SPAWN_X, SPAWN_Y};
use crate::mino::{occupied, MinoData};
use crate::tetrimino::tiled_with;
use vstd::prelude::*;

verus! {

/// The rows of a board from top to bottom, each from left to right.
pub type Board = Seq<Seq<Cell>>;

/// First column of the gap through which pieces enter.
pub const GAP_LEFT: u32 = 4;

/// Last column of the gap through which pieces enter.
pub const GAP_RIGHT: u32 = 7;

/// The gap is open in the rows above this one.
pub const GAP_ROWS: u32 = 2;

/// The board has `height` rows of `width` tiles.
pub open spec fn has_size(board: Board, width: int, height: int) -> bool {
    &&& board.len() == height
    &&& forall|r: int| 0 <= r < height ==> (#[trigger] board[r]).len() == width
}

/// A board of this size has room for the gap, for a well below it and for a
/// piece at the spawn point, and its tiles can be counted in 32 bits.
pub open spec fn valid_size(width: int, height: int) -> bool {
    &&& 10 <= width
    &&& 5 <= height
    &&& width * height <= u32::MAX
}

/// The tile at row `r`, column `c` belongs to the frame of a well of the given
/// size: everything beside the gap in the top rows, the floor, and the first
/// and last column in between.
pub open spec fn frame_at(width: int, height: int, r: int, c: int) -> bool {
    if r < GAP_ROWS {
        !(GAP_LEFT <= c <= GAP_RIGHT)
    } else if r == height - 1 {
        true
    } else {
        !(1 <= c <= width - 2)
    }
}

/// The tile at row `r`, column `c` of a board on which nothing has landed.
pub open spec fn initial_cell(width: int, height: int, r: int, c: int) -> Cell {
    if frame_at(width, height, r, c) {
        Cell::Tetrion
    } else {
        Cell::Empty
    }
}

/// The board on which nothing has landed.
pub open spec fn initial_board(width: int, height: int) -> Board {
    Seq::new(
        height as nat,
        |r: int| Seq::new(width as nat, |c: int| initial_cell(width, height, r, c)),
    )
}

/// The board has the given size, and its frame tiles are exactly those of the
/// well of that size.
pub open spec fn framed(board: Board, width: int, height: int) -> bool {
    &&& has_size(board, width, height)
    &&& forall|r: int, c: int|
        0 <= r < height && 0 <= c < width ==> ((#[trigger] board[r][c]) == Cell::Tetrion)
            == frame_at(width, height, r, c)
}

/// A block cannot stand at row `r`, column `c`: the place is off the board or
/// holds something.
pub open spec fn blocked(board: Board, r: int, c: int) -> bool {
    !(0 <= r < board.len() && 0 <= c < board[r].len() && board[r][c] == Cell::Empty)
}

/// A piece whose box has its top left corner at column `px`, row `py` has a
/// block where none can stand.
pub open spec fn collides(board: Board, cells: MinoData, px: int, py: int) -> bool {
    exists|y: int, x: int| #[trigger] occupied(cells, y, x) && blocked(board, py + y, px + x)
}

/// Every block of the piece stands on the board and on no tile of the frame.
pub open spec fn clear_of_frame(board: Board, cells: MinoData, px: int, py: int) -> bool {
    forall|y: int, x: int| #[trigger]
        occupied(cells, y, x) ==> {
            &&& 0 <= py + y < board.len()
            &&& 0 <= px + x < board[py + y].len()
            &&& board[py + y][px + x] != Cell::Tetrion
        }
}

/// The piece has a block at row `r`, column `c` of the board.
pub open spec fn covers(cells: MinoData, px: int, py: int, r: int, c: int) -> bool {
    occupied(cells, r - py, c - px)
}

/// The board with the blocks of the piece written into it.
pub open spec fn locked(board: Board, cells: MinoData, px: int, py: int) -> Board {
    Seq::new(
        board.len(),
        |r: int|
            Seq::new(
                board[r].len(),
                |c: int|
                    if covers(cells, px, py, r, c) {
                        cells[r - py][c - px]
                    } else {
                        board[r][c]
                    },
            ),
    )
}

/// No tile of row `r` is empty. Frame tiles count as filled.
pub open spec fn row_complete(board: Board, r: int) -> bool {
    forall|c: int| 0 <= c < board[r].len() ==> (#[trigger] board[r][c]) != Cell::Empty
}

/// The rows above `limit` that are complete, from top to bottom.
pub open spec fn completed_rows(board: Board, limit: nat) -> Seq<int>
    decreases limit,
{
    if limit == 0 {
        Seq::empty()
    } else {
        let above = completed_rows(board, (limit - 1) as nat);
        if row_complete(board, limit - 1) {
            above.push(limit - 1)
        } else {
            above
        }
    }
}

/// What is left at row `r`, column `c` once its tile has moved a row down
/// while row `row` collapsed and nothing has come from above yet.
pub open spec fn vacated_cell(board: Board, row: int, r: int, c: int) -> Cell {
    if r < row && board[r][c] != Cell::Tetrion && board[r + 1][c] != Cell::Tetrion {
        Cell::Empty
    } else {
        board[r][c]
    }
}

/// The tile at row `r`, column `c` after row `row` has collapsed.
///
/// Rows below `row` and frame tiles stay. A tile takes what stood above it,
/// unless that is a frame tile. A tile that gets nothing from above is empty if
/// its own content has moved down, and stays as it is if a frame tile or the
/// collapsed row's lower neighbour stands below it.
pub open spec fn shifted_cell(board: Board, row: int, r: int, c: int) -> Cell {
    if r > row || board[r][c] == Cell::Tetrion {
        board[r][c]
    } else if r >= 1 && board[r - 1][c] != Cell::Tetrion {
        board[r - 1][c]
    } else {
        vacated_cell(board, row, r, c)
    }
}

/// The board after row `row` has collapsed: the rows above it have moved one
/// row down.
pub open spec fn shift_down(board: Board, row: int) -> Board {
    Seq::new(
        board.len(),
        |r: int| Seq::new(board[r].len(), |c: int| shifted_cell(board, row, r, c)),
    )
}

/// The board after the given rows have collapsed one after the other.
pub open spec fn shift_all(board: Board, rows: Seq<int>) -> Board
    decreases rows.len(),
{
    if rows.len() == 0 {
        board
    } else {
        shift_down(shift_all(board, rows.drop_last()), rows.last())
    }
}

/// The board after every completed row above the floor has collapsed, the
/// topmost first.
pub open spec fn cleared(board: Board) -> Board {
    shift_all(board, completed_rows(board, (board.len() - 1) as nat))
}

/// What the player sees at row `r`, column `c`: the piece's tile where the
/// piece has a block, the board elsewhere.
pub open spec fn visible(
    board: Board,
    cells: MinoData,
    tag: Cell,
    px: int,
    py: int,
    r: int,
    c: int,
) -> Cell {
    if covers(cells, px, py, r, c) {
        tag
    } else {
        board[r][c]
    }
}

/// Place of row `r`, column `c` in a buffer that holds the rows one after the
/// other.
pub open spec fn cell_index(width: int, r: int, c: int) -> int {
    r * width + c
}

/// The display buffer: what the player sees, row after row.
pub open spec fn rendered(
    board: Board,
    width: int,
    height: int,
    cells: MinoData,
    tag: Cell,
    px: int,
    py: int,
) -> Seq<Cell> {
    Seq::new(
        (width * height) as nat,
        |i: int| visible(board, cells, tag, px, py, i / width, i % width),
    )
}

/// The board on which nothing has landed has the frame of its well.
pub proof fn lemma_initial_board_framed(width: int, height: int)
    requires
        0 <= width,
        0 <= height,
    ensures
        framed(initial_board(width, height), width, height),
{
}

/// A piece that collides with nothing stands on the board and on no frame
/// tile.
pub proof fn lemma_free_is_clear(board: Board, cells: MinoData, px: int, py: int)
    requires
        !collides(board, cells, px, py),
    ensures
        clear_of_frame(board, cells, px, py),
{
}

/// Whether a piece is clear of the frame depends on the frame alone: two
/// boards with the frame of the same well agree on it.
pub proof fn lemma_clear_by_frame(
    a: Board,
    b: Board,
    width: int,
    height: int,
    cells: MinoData,
    px: int,
    py: int,
)
    requires
        framed(a, width, height),
        framed(b, width, height),
        clear_of_frame(a, cells, px, py),
    ensures
        clear_of_frame(b, cells, px, py),
{
}

/// On a board with the frame of a well of valid size, the box of a piece at
/// the spawn point lies clear of the frame, whatever the piece.
pub proof fn lemma_spawn_is_clear(board: Board, width: int, height: int, cells: MinoData)
    requires
        valid_size(width, height),
        framed(board, width, height),
    ensures
        clear_of_frame(board, cells, SPAWN_X as int, SPAWN_Y as int),
{
}

/// Locking a piece that is clear of the frame writes its blocks and nothing
/// else, and leaves the frame as it was.
pub proof fn lemma_locked_keeps_frame(
    board: Board,
    width: int,
    height: int,
    cells: MinoData,
    tag: Cell,
    px: int,
    py: int,
)
    requires
        framed(board, width, height),
        clear_of_frame(board, cells, px, py),
        tiled_with(cells, tag),
        tag != Cell::Tetrion,
    ensures
        framed(locked(board, cells, px, py), width, height),
        clear_of_frame(locked(board, cells, px, py), cells, px, py),
{
}

/// The lock invariant: after locking, the board holds the piece's tile
/// wherever the piece had a block, and what it held before everywhere else.
pub proof fn lemma_locked_cells(board: Board, cells: MinoData, px: int, py: int)
    requires
        clear_of_frame(board, cells, px, py),
    ensures
        locked(board, cells, px, py).len() == board.len(),
        forall|y: int, x: int| #[trigger]
            occupied(cells, y, x) ==> locked(board, cells, px, py)[py + y][px + x] == cells[y][x],
        forall|r: int, c: int|
            0 <= r < board.len() && 0 <= c < board[r].len() && !covers(cells, px, py, r, c)
                ==> (#[trigger] locked(board, cells, px, py)[r][c]) == board[r][c],
{
}

/// A collapsing row moves no frame tile and puts none anywhere.
pub proof fn lemma_shift_keeps_frame(board: Board, width: int, height: int, row: int)
    requires
        has_size(board, width, height),
        0 <= row < height,
    ensures
        has_size(shift_down(board, row), width, height),
        forall|r: int, c: int|
            0 <= r < height && 0 <= c < width ==> ((#[trigger] shift_down(board, row)[r][c])
                == Cell::Tetrion) == (board[r][c] == Cell::Tetrion),
{
}

/// Every completed row that the list holds lies above the limit.
pub proof fn lemma_completed_rows_in_range(board: Board, limit: nat)
    ensures
        completed_rows(board, limit).len() <= limit,
        forall|k: int|
            0 <= k < completed_rows(board, limit).len() ==> 0 <= (#[trigger] completed_rows(
                board,
                limit,
            )[k]) < limit,
    decreases limit,
{
    if limit > 0 {
        lemma_completed_rows_in_range(board, (limit - 1) as nat);
    }
}

/// Rows that collapse one after the other move no frame tile.
pub proof fn lemma_shift_all_keeps_frame(board: Board, width: int, height: int, rows: Seq<int>)
    requires
        has_size(board, width, height),
        forall|k: int| 0 <= k < rows.len() ==> 0 <= (#[trigger] rows[k]) < height,
    ensures
        has_size(shift_all(board, rows), width, height),
        forall|r: int, c: int|
            0 <= r < height && 0 <= c < width ==> ((#[trigger] shift_all(board, rows)[r][c])
                == Cell::Tetrion) == (board[r][c] == Cell::Tetrion),
    decreases rows.len(),
{
    if rows.len() > 0 {
        lemma_shift_all_keeps_frame(board, width, height, rows.drop_last());
        lemma_shift_keeps_frame(shift_all(board, rows.drop_last()), width, height, rows.last());
    }
}

/// Frame tiles never move: clearing the completed rows leaves the frame of
/// the well where it was.
pub proof fn lemma_cleared_keeps_frame(board: Board, width: int, height: int)
    requires
        framed(board, width, height),
        1 <= height,
    ensures
        framed(cleared(board), width, height),
        forall|r: int, c: int|
            0 <= r < height && 0 <= c < width ==> ((#[trigger] cleared(board)[r][c])
                == Cell::Tetrion) == (board[r][c] == Cell::Tetrion),
{
    lemma_completed_rows_in_range(board, (height - 1) as nat);
    lemma_shift_all_keeps_frame(
        board,
        width,
        height,
        completed_rows(board, (height - 1) as nat),
    );
}

/// How many of the rows strictly between row `r` and row `limit` are
/// complete.
pub open spec fn cleared_below(board: Board, r: int, limit: int) -> nat
    decreases limit - r,
{
    if limit <= r + 1 {
        0
    } else if row_complete(board, limit - 1) {
        cleared_below(board, r, limit - 1) + 1
    } else {
        cleared_below(board, r, limit - 1)
    }
}

/// The board after the completed rows above row `limit` have collapsed, the
/// topmost first.
pub open spec fn cleared_above(board: Board, limit: nat) -> Board {
    shift_all(board, completed_rows(board, limit))
}

/// Moving the limit down by a row lets that row collapse if it is complete,
/// and changes nothing if it is not.
pub proof fn lemma_cleared_above_step(board: Board, limit: nat)
    ensures
        cleared_above(board, limit + 1) == if row_complete(board, limit as int) {
            shift_down(cleared_above(board, limit), limit as int)
        } else {
            cleared_above(board, limit)
        },
{
    let above = completed_rows(board, limit);
    assert(above.push(limit as int).drop_last() =~= above);
}

/// While rows collapse above a limit, the board keeps its frame.
pub proof fn lemma_cleared_above_framed(board: Board, width: int, height: int, limit: nat)
    requires
        framed(board, width, height),
        limit <= height,
    ensures
        framed(cleared_above(board, limit), width, height),
{
    lemma_completed_rows_in_range(board, limit);
    lemma_shift_all_keeps_frame(board, width, height, completed_rows(board, limit));
}

/// Rows at and below the limit are as they were.
pub proof fn lemma_rows_below_stay(board: Board, width: int, height: int, limit: nat, y: int)
    requires
        has_size(board, width, height),
        limit <= y < height,
    ensures
        cleared_above(board, limit)[y] == board[y],
    decreases limit,
{
    if limit > 0 {
        lemma_rows_below_stay(board, width, height, (limit - 1) as nat, y);
        lemma_cleared_above_step(board, (limit - 1) as nat);
        lemma_completed_rows_in_range(board, (limit - 1) as nat);
        lemma_shift_all_keeps_frame(
            board,
            width,
            height,
            completed_rows(board, (limit - 1) as nat),
        );
    }
}

/// Below the gap a well has the same frame in every row, so a row that moves
/// down there arrives whole: when row `row` collapses, each row from the
/// second of the well down to `row` becomes the row that stood above it.
pub proof fn lemma_well_row_moves(board: Board, width: int, height: int, row: int, y: int)
    requires
        valid_size(width, height),
        framed(board, width, height),
        GAP_ROWS < y <= row < height - 1,
    ensures
        shift_down(board, row)[y] == board[y - 1],
{
}

/// A row of the well that is not complete stands, once the completed rows
/// above `limit` have collapsed, as many rows further down as completed rows
/// lay between it and the limit.
pub proof fn lemma_survivor_below_limit(
    board: Board,
    width: int,
    height: int,
    r: int,
    limit: nat,
)
    requires
        valid_size(width, height),
        framed(board, width, height),
        GAP_ROWS <= r < limit <= height - 1,
        !row_complete(board, r),
    ensures
        r + cleared_below(board, r, limit as int) < limit,
        cleared_above(board, limit)[r + cleared_below(board, r, limit as int)] == board[r],
    decreases limit,
{
    lemma_cleared_above_step(board, (limit - 1) as nat);
    if limit == r + 1 {
        lemma_rows_below_stay(board, width, height, r as nat, r);
    } else {
        lemma_survivor_below_limit(board, width, height, r, (limit - 1) as nat);
        if row_complete(board, limit - 1) {
            lemma_cleared_above_framed(board, width, height, (limit - 1) as nat);
            lemma_well_row_moves(
                cleared_above(board, (limit - 1) as nat),
                width,
                height,
                limit - 1,
                r + cleared_below(board, r, limit - 1) + 1,
            );
        }
    }
}

/// Rows above a cleared row move down by exactly the number of rows cleared
/// below them: a row of the well that is not complete is found again, tile
/// for tile, as many rows further down as there were completed rows between
/// it and the floor.
pub proof fn lemma_survivors_move_down(board: Board, width: int, height: int, r: int)
    requires
        valid_size(width, height),
        framed(board, width, height),
        GAP_ROWS <= r < height - 1,
        !row_complete(board, r),
    ensures
        r + cleared_below(board, r, height - 1) < height - 1,
        cleared(board)[r + cleared_below(board, r, height - 1)] == board[r],
{
    lemma_survivor_below_limit(board, width, height, r, (height - 1) as nat);
}

/// Once the completed rows above `limit` have collapsed, every row of the
/// well from the `k`-th down, `k` being the number of completed rows of the
/// well above the limit, is a row that was not complete.
pub proof fn lemma_rows_left_below_limit(
    board: Board,
    width: int,
    height: int,
    d: int,
    limit: nat,
) -> (r: int)
    requires
        valid_size(width, height),
        framed(board, width, height),
        limit <= height - 1,
        GAP_ROWS + cleared_below(board, GAP_ROWS - 1, limit as int) <= d < limit,
    ensures
        GAP_ROWS <= r <= d,
        !row_complete(board, r),
        d == r + cleared_below(board, r, limit as int),
        cleared_above(board, limit)[d] == board[r],
    decreases limit,
{
    if row_complete(board, limit - 1) {
        let r = lemma_rows_left_below_limit(board, width, height, d - 1, (limit - 1) as nat);
        lemma_survivor_below_limit(board, width, height, r, limit);
        r
    } else if d == limit - 1 {
        lemma_survivor_below_limit(board, width, height, d, limit);
        d
    } else {
        let r = lemma_rows_left_below_limit(board, width, height, d, (limit - 1) as nat);
        lemma_survivor_below_limit(board, width, height, r, limit);
        r
    }
}

/// No completed row of the well is left: after clearing, every row of the
/// well from the `k`-th down, `k` being the number of completed rows of the
/// well, holds a row that was not complete, moved down by the number of
/// completed rows that lay below it.
pub proof fn lemma_rows_left_are_survivors(board: Board, width: int, height: int, d: int)
    requires
        valid_size(width, height),
        framed(board, width, height),
        GAP_ROWS + cleared_below(board, GAP_ROWS - 1, height - 1) <= d < height - 1,
    ensures
        exists|r: int|
            {
                &&& GAP_ROWS <= r <= d
                &&& !row_complete(board, r)
                &&& d == r + #[trigger] cleared_below(board, r, height - 1)
                &&& cleared(board)[d] == board[r]
            },
{
    lemma_rows_left_below_limit(board, width, height, d, (height - 1) as nat);
}

/// Where a tile of the board lies in the display buffer: inside it, at a
/// place that tells its row and its column.
pub proof fn lemma_cell_index(width: int, height: int, r: int, c: int)
    requires
        0 <= r < height,
        0 <= c < width,
    ensures
        0 <= cell_index(width, r, c) < width * height,
        cell_index(width, r, c) / width == r,
        cell_index(width, r, c) % width == c,
{
    assert(r * width + c < width * height) by (nonlinear_arith)
        requires
            0 <= r < height,
            0 <= c < width,
    ;
    vstd::arithmetic::div_mod::lemma_fundamental_div_mod_converse(
        cell_index(width, r, c),
        width,
        r,
        c,
    );
}

/// Every place of the display buffer belongs to one tile of the board.
pub proof fn lemma_cell_of_index(width: int, height: int, i: int)
    requires
        0 < width,
        0 <= i < width * height,
    ensures
        0 <= i / width < height,
        0 <= i % width < width,
        cell_index(width, i / width, i % width) == i,
{
    vstd::arithmetic::div_mod::lemma_fundamental_div_mod(i, width);
    vstd::arithmetic::div_mod::lemma_mod_bound(i, width);
    let q = i / width;
    let m = i % width;
    assert(width * q == q * width) by (nonlinear_arith);
    assert(0 <= q < height) by (nonlinear_arith)
        requires
            0 < width,
            0 <= i < width * height,
            i == width * q + m,
            0 <= m < width,
    ;
}

} // verus!
