//! The game: the board, the piece under control, the piece that follows, and
//! the lifecycle that ties them together.

use crate::board::{
    blocked, cell_index, cleared, completed_rows, covers, has_size, initial_board, initial_cell,
    lemma_cell_index, lemma_cell_of_index, lemma_clear_by_frame, lemma_cleared_keeps_frame,
    lemma_free_is_clear, lemma_initial_board_framed, lemma_locked_keeps_frame,
    lemma_spawn_is_clear, locked, rendered, row_complete, shift_all, shift_down, shifted_cell,
    vacated_cell, valid_size, Board, GAP_LEFT, GAP_RIGHT, GAP_ROWS,
};
use crate::cell::{Cell, TetriminoKind};
use crate::controlled::ControlledTetrimino;
use crate::mino::{occupied, MinoData, MINO_CELL_SIZE};
use crate::model::{GameState, GameView};
use crate::point::Point;
use crate::tetrimino::{lemma_shape, Tetrimino};
use vstd::prelude::*;

verus! {

/// Width of the board of a game made by `Game::new`, frame included.
pub const WIDTH: u32 = 12;

/// Height of the board of a game made by `Game::new`, frame included.
pub const HEIGHT: u32 = 23;

/// A game.
///
/// `playfield` is the board proper, `cells` the buffer that a host draws:
/// the board with the current piece laid over it, row after row.
pub struct Game {
    pub width: u32,
    pub height: u32,
    pub cells: Vec<Cell>,
    pub playfield: Vec<Vec<Cell>>,
    pub current: ControlledTetrimino,
    pub next: Tetrimino,
    pub state: GameState,
}

/// The rows of a stored board.
pub open spec fn rows_of(playfield: Vec<Vec<Cell>>) -> Board {
    Seq::new(playfield.len() as nat, |r: int| playfield[r]@)
}

impl View for Game {
    type V = GameView;

    open spec fn view(&self) -> GameView {
        GameView {
            width: self.width,
            height: self.height,
            cells: self.cells@,
            playfield: rows_of(self.playfield),
            current: self.current,
            next: self.next,
            state: self.state,
        }
    }
}

/// Tells whether no tile of the row is empty.
fn is_completed(playfield: &Vec<Vec<Cell>>, y: usize) -> (complete: bool)
    requires
        y < playfield.len(),
    ensures
        complete == row_complete(rows_of(*playfield), y as int),
{
    let width: usize = playfield[y].len();
    let mut x: usize = 0;
    while x < width
        invariant
            y < playfield.len(),
            width == playfield[y as int].len(),
            x <= width,
            forall|c: int| 0 <= c < x ==> (#[trigger] playfield[y as int][c]) != Cell::Empty,
        decreases width - x,
    {
        let cell = playfield[y][x];
        if cell == Cell::Empty {
            return false;
        }
        x += 1;
    }
    true
}

/// The tile at row `r`, column `c` while row `row` collapses: the rows from
/// `row` up to the one below `y` have taken what stood above them, and so has
/// row `y` in the columns left of `x`.
spec fn shift_progress(board: Board, row: int, y: int, x: int, r: int, c: int) -> Cell {
    if r > row {
        board[r][c]
    } else if r > y {
        shifted_cell(board, row, r, c)
    } else if r == y {
        if c < x {
            shifted_cell(board, row, r, c)
        } else {
            vacated_cell(board, row, r, c)
        }
    } else if r == y - 1 {
        if c < x {
            vacated_cell(board, row, r, c)
        } else {
            board[r][c]
        }
    } else {
        board[r][c]
    }
}

/// The tile at row `r`, column `c` of the board while a piece is locked: the
/// columns of its box left of `x` are written, and so is column `x` above row
/// `y`.
spec fn lock_progress(
    board: Board,
    cells: MinoData,
    px: int,
    py: int,
    x: int,
    y: int,
    r: int,
    c: int,
) -> Cell {
    if covers(cells, px, py, r, c) && (c - px < x || (c - px == x && r - py < y)) {
        cells[r - py][c - px]
    } else {
        board[r][c]
    }
}

/// The tile shown at row `r`, column `c` while a piece is drawn over the
/// board: the rows of its box above `y` are drawn, and so is row `y` left of
/// column `x`.
spec fn draw_progress(
    board: Board,
    cells: MinoData,
    tag: Cell,
    px: int,
    py: int,
    y: int,
    x: int,
    r: int,
    c: int,
) -> Cell {
    if covers(cells, px, py, r, c) && (r - py < y || (r - py == y && c - px < x)) {
        tag
    } else {
        board[r][c]
    }
}

/// The rows that a scan has found complete, as the board's model counts
/// them.
spec fn found(lines: Seq<usize>) -> Seq<int> {
    lines.map_values(|line: usize| line as int)
}

/// Lets row `row` collapse: every tile from that row upwards takes the tile
/// above it and leaves an empty one there, frame tiles apart.
fn collapse_row(playfield: &mut Vec<Vec<Cell>>, row: usize, width: usize)
    requires
        has_size(rows_of(*old(playfield)), width as int, old(playfield).len() as int),
        row < old(playfield).len(),
    ensures
        rows_of(*final(playfield)) == shift_down(rows_of(*old(playfield)), row as int),
        final(playfield).len() == old(playfield).len(),
        has_size(rows_of(*final(playfield)), width as int, old(playfield).len() as int),
{
    let ghost before = rows_of(*playfield);
    let height: usize = playfield.len();
    let mut y: usize = row;
    while y >= 1
        invariant
            y <= row < height,
            playfield.len() == height,
            has_size(before, width as int, height as int),
            has_size(rows_of(*playfield), width as int, height as int),
            forall|r: int, c: int|
                0 <= r < height && 0 <= c < width ==> (#[trigger] playfield[r][c])
                    == shift_progress(before, row as int, y as int, 0, r, c),
        decreases y,
    {
        let mut x: usize = 0;
        while x < width
            invariant
                1 <= y <= row < height,
                x <= width,
                playfield.len() == height,
                has_size(before, width as int, height as int),
                has_size(rows_of(*playfield), width as int, height as int),
                forall|r: int, c: int|
                    0 <= r < height && 0 <= c < width ==> (#[trigger] playfield[r][c])
                        == shift_progress(before, row as int, y as int, x as int, r, c),
            decreases width - x,
        {
            assert(rows_of(*playfield)[y as int].len() == width);
            assert(rows_of(*playfield)[y - 1].len() == width);
            let ghost mid = rows_of(*playfield);
            if playfield[y][x] != Cell::Tetrion && playfield[y - 1][x] != Cell::Tetrion {
                let above = playfield[y - 1][x];
                playfield[y][x] = above;
                playfield[y - 1][x] = Cell::Empty;
            }
            proof {
                assert forall|r: int| 0 <= r < height implies (#[trigger] rows_of(
                    *playfield,
                )[r]).len() == width by {
                    assert(mid[r].len() == width);
                }
            }
            x += 1;
        }
        y -= 1;
    }
    proof {
        assert forall|r: int| 0 <= r < height implies rows_of(*playfield)[r] =~= shift_down(
            before,
            row as int,
        )[r] by {}
    }
}

impl Game {
    /// The game is one that play can have led to.
    pub open spec fn wf(&self) -> bool {
        self@.wf()
    }

    /// A display buffer for a board of the given size, every tile a frame
    /// tile.
    pub fn init_cells(width: u32, height: u32) -> (cells: Vec<Cell>)
        requires
            width * height <= u32::MAX,
        ensures
            cells@ == Seq::new((width * height) as nat, |i: int| Cell::Tetrion),
    {
        let mut cells: Vec<Cell> = Vec::new();
        let count: u32 = width * height;
        let mut i: u32 = 0;
        while i < count
            invariant
                i <= count,
                cells@ == Seq::new(i as nat, |k: int| Cell::Tetrion),
            decreases count - i,
        {
            cells.push(Cell::Tetrion);
            i += 1;
        }
        cells
    }

    /// The board of a well of the given size on which nothing has landed.
    pub fn init_playfield(width: u32, height: u32) -> (playfield: Vec<Vec<Cell>>)
        ensures
            rows_of(playfield) == initial_board(width as int, height as int),
    {
        let mut playfield: Vec<Vec<Cell>> = Vec::new();
        let mut row: u32 = 0;
        while row < height
            invariant
                row <= height,
                playfield.len() == row,
                forall|r: int|
                    0 <= r < row ==> (#[trigger] playfield[r])@ == initial_board(
                        width as int,
                        height as int,
                    )[r],
            decreases height - row,
        {
            let mut line: Vec<Cell> = Vec::new();
            let mut column: u32 = 0;
            while column < width
                invariant
                    column <= width,
                    row < height,
                    line.len() == column,
                    forall|c: int|
                        0 <= c < column ==> (#[trigger] line[c]) == initial_cell(
                            width as int,
                            height as int,
                            row as int,
                            c,
                        ),
                decreases width - column,
            {
                if row < GAP_ROWS {
                    if GAP_LEFT <= column && column <= GAP_RIGHT {
                        line.push(Cell::Empty);
                    } else {
                        line.push(Cell::Tetrion);
                    }
                } else if row == height - 1 {
                    line.push(Cell::Tetrion);
                } else if 1 <= column && column + 1 < width {
                    line.push(Cell::Empty);
                } else {
                    line.push(Cell::Tetrion);
                }
                column += 1;
            }
            playfield.push(line);
            row += 1;
        }
        playfield
    }

    /// A game that has not begun, on a board of the given size, with
    /// `current` at the spawn point and `next` waiting.
    pub fn with_pieces(
        width: u32,
        height: u32,
        current: Tetrimino,
        next: Tetrimino,
    ) -> (game: Game)
        requires
            valid_size(width as int, height as int),
            current.wf(),
            next.wf(),
        ensures
            game@ == GameView::start(width, height, current, next),
            game.wf(),
    {
        let game = Game {
            width,
            height,
            cells: Game::init_cells(width, height),
            playfield: Game::init_playfield(width, height),
            current: ControlledTetrimino::new(current),
            next,
            state: GameState::Startup,
        };
        proof {
            lemma_initial_board_framed(width as int, height as int);
            lemma_spawn_is_clear(game@.playfield, width as int, height as int, current.cells);
        }
        game
    }

    /// A game that has not begun, on a board of twelve columns and
    /// twenty-three rows, with two pieces drawn at random.
    pub fn new() -> (game: Game)
        ensures
            exists|a: TetriminoKind, b: TetriminoKind|
                game@ == GameView::start(WIDTH, HEIGHT, Tetrimino::of(a), Tetrimino::of(b)),
            game.wf(),
    {
        let current = Tetrimino::default();
        let next = Tetrimino::default();
        let game = Game::with_pieces(WIDTH, HEIGHT, current, next);
        assert(game@ == GameView::start(
            WIDTH,
            HEIGHT,
            Tetrimino::of(current.kind),
            Tetrimino::of(next.kind),
        ));
        game
    }

    /// Lets a game that has not begun begin. A game that runs, pauses or is
    /// over stays as it is.
    pub fn run(&mut self)
        ensures
            final(self)@ == old(self)@.run(),
            old(self).wf() ==> final(self).wf(),
    {
        if self.state == GameState::Startup {
            self.state = GameState::Running;
        }
    }

    pub fn width(&self) -> (width: u32)
        ensures
            width == self.width,
    {
        self.width
    }

    pub fn height(&self) -> (height: u32)
        ensures
            height == self.height,
    {
        self.height
    }

    /// The display buffer: one tile for each tile of the board, row after
    /// row, as the last tick or `update_cells` drew it.
    pub fn cells_ptr(&self) -> (cells: &[Cell])
        ensures
            cells@ == self.cells@,
    {
        self.cells.as_slice()
    }

    /// Draws the display buffer afresh: the board, and over it the current
    /// piece in the tile of its kind.
    pub fn update_cells(&mut self)
        requires
            old(self).wf(),
        ensures
            final(self)@ == old(self)@.update_cells(),
            final(self).wf(),
    {
        let width: usize = self.width as usize;
        let rows: usize = self.height as usize;
        let ghost board = rows_of(self.playfield);
        let ghost w = self.width as int;
        let ghost h = self.height as int;

        let mut y: usize = 0;
        while y < rows
            invariant
                y <= rows,
                width == w,
                rows == h,
                old(self).wf(),
                board == rows_of(old(self).playfield),
                w == old(self).width,
                h == old(self).height,
                self.cells.len() == w * h,
                *self == (Game { cells: self.cells, ..*old(self) }),
                forall|r: int, c: int|
                    0 <= r < y && 0 <= c < w ==> self.cells[#[trigger] cell_index(w, r, c)]
                        == board[r][c],
            decreases rows - y,
        {
            let mut x: usize = 0;
            while x < width
                invariant
                    y < rows,
                    x <= width,
                    width == w,
                    rows == h,
                    old(self).wf(),
                    board == rows_of(old(self).playfield),
                    w == old(self).width,
                    h == old(self).height,
                    self.cells.len() == w * h,
                    *self == (Game { cells: self.cells, ..*old(self) }),
                    forall|r: int, c: int|
                        0 <= r < y && 0 <= c < w ==> self.cells[#[trigger] cell_index(w, r, c)]
                            == board[r][c],
                    forall|c: int|
                        0 <= c < x ==> self.cells[#[trigger] cell_index(w, y as int, c)]
                            == board[y as int][c],
                decreases width - x,
            {
                proof {
                    lemma_cell_index(w, h, y as int, x as int);
                    assert(board[y as int].len() == w);
                }
                let i: usize = y * width + x;
                self.cells[i] = self.playfield[y][x];
                proof {
                    assert forall|r: int, c: int| 0 <= r < y && 0 <= c < w implies self.cells[
                    #[trigger] cell_index(w, r, c)] == board[r][c] by {
                        lemma_cell_index(w, h, r, c);
                    }
                }
                x += 1;
            }
            y += 1;
        }

        let position = self.current.position;
        let blocks = self.current.mino.cells;
        let kind = self.current.mino.kind;
        let ghost px = position.x as int;
        let ghost py = position.y as int;
        let ghost tag = kind.tag();

        let mut y: usize = 0;
        while y < MINO_CELL_SIZE
            invariant
                y <= MINO_CELL_SIZE,
                old(self).wf(),
                board == rows_of(old(self).playfield),
                w == old(self).width,
                h == old(self).height,
                position == old(self).current.position,
                blocks == old(self).current.mino.cells,
                kind == old(self).current.mino.kind,
                px == position.x,
                py == position.y,
                tag == kind.tag(),
                self.cells.len() == w * h,
                *self == (Game { cells: self.cells, ..*old(self) }),
                forall|r: int, c: int|
                    0 <= r < h && 0 <= c < w ==> self.cells[#[trigger] cell_index(w, r, c)]
                        == draw_progress(board, blocks, tag, px, py, y as int, 0, r, c),
            decreases MINO_CELL_SIZE - y,
        {
            let mut x: usize = 0;
            while x < MINO_CELL_SIZE
                invariant
                    y < MINO_CELL_SIZE,
                    x <= MINO_CELL_SIZE,
                    old(self).wf(),
                    board == rows_of(old(self).playfield),
                    w == old(self).width,
                    h == old(self).height,
                    position == old(self).current.position,
                    blocks == old(self).current.mino.cells,
                    kind == old(self).current.mino.kind,
                    px == position.x,
                    py == position.y,
                    tag == kind.tag(),
                    self.cells.len() == w * h,
                    *self == (Game { cells: self.cells, ..*old(self) }),
                    forall|r: int, c: int|
                        0 <= r < h && 0 <= c < w ==> self.cells[#[trigger] cell_index(w, r, c)]
                            == draw_progress(board, blocks, tag, px, py, y as int, x as int, r, c),
                decreases MINO_CELL_SIZE - x,
            {
                let cell = blocks[y][x];
                if cell != Cell::Empty {
                    proof {
                        assert(occupied(blocks, y as int, x as int));
                        lemma_cell_index(w, h, py + y, px + x);
                    }
                    let point = Point::new(x as u32, y as u32) + position;
                    let i: u32 = point.y * self.width + point.x;
                    self.cells[i as usize] = Cell::from(kind);
                    proof {
                        assert forall|r: int, c: int| 0 <= r < h && 0 <= c < w implies self.cells[
                        #[trigger] cell_index(w, r, c)] == draw_progress(
                            board,
                            blocks,
                            tag,
                            px,
                            py,
                            y as int,
                            x + 1,
                            r,
                            c,
                        ) by {
                            lemma_cell_index(w, h, r, c);
                        }
                    }
                }
                x += 1;
            }
            y += 1;
        }
        proof {
            let goal = rendered(board, w, h, blocks, tag, px, py);
            assert forall|i: int| 0 <= i < w * h implies self.cells@[i] == goal[i] by {
                lemma_cell_of_index(w, h, i);
            }
        }
    }

    /// Tells whether the clock has room for one more tick or drop. A host
    /// that asks before each `update`, `dropdown` by one row or `soft_drop`
    /// never takes the clock past the machine's integers.
    pub fn has_room(&self) -> (room: bool)
        ensures
            room == self@.has_room(),
    {
        let height: usize = self.height as usize;
        if self.current.speed > usize::MAX - height {
            return false;
        }
        let step: usize = self.current.speed + height;
        if self.current.frame > usize::MAX - step {
            return false;
        }
        self.current.last_dropped <= usize::MAX - self.current.threshold
    }

    /// Place of row `row`, column `column` in the display buffer.
    pub fn get_cells_index(&self, row: u32, column: u32) -> (index: usize)
        requires
            row * self.width + column <= u32::MAX,
        ensures
            index == cell_index(self.width as int, row as int, column as int),
    {
        (row * self.width + column) as usize
    }

    /// Tells whether the current piece has a block where none can stand: off
    /// the board, or on a tile that is not empty.
    pub fn is_collision(&self) -> (hit: bool)
        requires
            self@.sized(),
        ensures
            hit == self@.collides(),
    {
        let rows: usize = self.playfield.len();
        let start_x: usize = self.current.position.x as usize;
        let start_y: usize = self.current.position.y as usize;
        let ghost board = rows_of(self.playfield);
        let ghost cells = self.current.mino.cells;

        let mut x: usize = 0;
        while x < MINO_CELL_SIZE
            invariant
                x <= MINO_CELL_SIZE,
                rows == self.playfield.len(),
                start_x == self.current.position.x,
                start_y == self.current.position.y,
                board == rows_of(self.playfield),
                cells == self.current.mino.cells,
                forall|j: int, i: int|
                    0 <= i < x && 0 <= j < MINO_CELL_SIZE ==> !(#[trigger] occupied(cells, j, i)
                        && blocked(board, start_y + j, start_x + i)),
            decreases MINO_CELL_SIZE - x,
        {
            let mut y: usize = 0;
            while y < MINO_CELL_SIZE
                invariant
                    x < MINO_CELL_SIZE,
                    y <= MINO_CELL_SIZE,
                    rows == self.playfield.len(),
                    start_x == self.current.position.x,
                    start_y == self.current.position.y,
                    board == rows_of(self.playfield),
                    cells == self.current.mino.cells,
                    forall|j: int, i: int|
                        0 <= i < x && 0 <= j < MINO_CELL_SIZE ==> !(#[trigger] occupied(
                            cells,
                            j,
                            i,
                        ) && blocked(board, start_y + j, start_x + i)),
                    forall|j: int|
                        0 <= j < y ==> !(#[trigger] occupied(cells, j, x as int) && blocked(
                            board,
                            start_y + j,
                            start_x + x,
                        )),
                decreases MINO_CELL_SIZE - y,
            {
                if self.current.mino.cells[y][x] != Cell::Empty {
                    assert(occupied(cells, y as int, x as int));
                    if y >= rows || start_y >= rows - y {
                        return true;
                    }
                    let row = &self.playfield[start_y + y];
                    if x >= row.len() || start_x >= row.len() - x {
                        return true;
                    }
                    if row[start_x + x] != Cell::Empty {
                        return true;
                    }
                }
                y += 1;
            }
            x += 1;
        }
        false
    }

    /// Locks the current piece: writes each of its blocks into the board
    /// where it stands.
    pub fn fix(&mut self)
        requires
            old(self).wf(),
        ensures
            final(self)@ == old(self)@.fix(),
            final(self).wf(),
    {
        let start_x: usize = self.current.position.x as usize;
        let start_y: usize = self.current.position.y as usize;
        let ghost before = rows_of(self.playfield);
        let ghost cells = self.current.mino.cells;
        let ghost px = self.current.position.x as int;
        let ghost py = self.current.position.y as int;
        let ghost w = self.width as int;
        let ghost h = self.height as int;

        let mut x: usize = 0;
        while x < MINO_CELL_SIZE
            invariant
                x <= MINO_CELL_SIZE,
                old(self).wf(),
                before == rows_of(old(self).playfield),
                cells == old(self).current.mino.cells,
                px == start_x == old(self).current.position.x,
                py == start_y == old(self).current.position.y,
                w == old(self).width,
                h == old(self).height,
                self.playfield.len() == h,
                has_size(rows_of(self.playfield), w, h),
                *self == (Game { playfield: self.playfield, ..*old(self) }),
                forall|r: int, c: int|
                    0 <= r < h && 0 <= c < w ==> (#[trigger] self.playfield[r][c])
                        == lock_progress(before, cells, px, py, x as int, 0, r, c),
            decreases MINO_CELL_SIZE - x,
        {
            let mut y: usize = 0;
            while y < MINO_CELL_SIZE
                invariant
                    x < MINO_CELL_SIZE,
                    y <= MINO_CELL_SIZE,
                    old(self).wf(),
                    before == rows_of(old(self).playfield),
                    cells == old(self).current.mino.cells,
                    px == start_x == old(self).current.position.x,
                    py == start_y == old(self).current.position.y,
                    w == old(self).width,
                    h == old(self).height,
                    self.playfield.len() == h,
                    has_size(rows_of(self.playfield), w, h),
                    *self == (Game { playfield: self.playfield, ..*old(self) }),
                    forall|r: int, c: int|
                        0 <= r < h && 0 <= c < w ==> (#[trigger] self.playfield[r][c])
                            == lock_progress(before, cells, px, py, x as int, y as int, r, c),
                decreases MINO_CELL_SIZE - y,
            {
                if self.current.mino.cells[y][x] != Cell::Empty {
                    assert(occupied(cells, y as int, x as int));
                    assert(rows_of(self.playfield)[py + y].len() == w);
                    let ghost mid = rows_of(self.playfield);
                    self.playfield[start_y + y][start_x + x] = self.current.mino.cells[y][x];
                    proof {
                        assert forall|r: int| 0 <= r < h implies (#[trigger] rows_of(
                            self.playfield,
                        )[r]).len() == w by {
                            assert(mid[r].len() == w);
                        }
                    }
                }
                y += 1;
            }
            x += 1;
        }
        proof {
            assert forall|r: int| 0 <= r < h implies rows_of(self.playfield)[r] =~= locked(
                before,
                cells,
                px,
                py,
            )[r] by {}
            lemma_shape(self.current.mino);
            lemma_locked_keeps_frame(before, w, h, cells, self.current.mino.kind.tag(), px, py);
        }
    }

    /// Tries to move the piece a column to the left. The move stands if the
    /// piece has room there; if not, the game is as it was.
    pub fn move_left(&mut self)
        requires
            old(self).wf(),
        ensures
            final(self)@ == old(self)@.move_left(),
            final(self).wf(),
            old(self).current.position.x == 0 || old(self)@.with_current(
                old(self).current.moved_left(),
            ).collides() ==> final(self)@ == old(self)@,
    {
        let prev = self.current.position;
        if prev.x == 0 {
            return;
        }
        self.current.move_left();
        if self.is_collision() {
            self.current.position = prev;
        } else {
            proof {
                lemma_free_is_clear(
                    self@.playfield,
                    self.current.mino.cells,
                    self.current.position.x as int,
                    self.current.position.y as int,
                );
            }
        }
    }

    /// Tries to move the piece a column to the right. The move stands if the
    /// piece has room there; if not, the game is as it was.
    pub fn move_right(&mut self)
        requires
            old(self).wf(),
        ensures
            final(self)@ == old(self)@.move_right(),
            final(self).wf(),
            old(self)@.with_current(old(self).current.moved_right()).collides() ==> final(self)@
                == old(self)@,
    {
        let prev = self.current.position;
        proof {
            self@.lemma_piece_on_board();
        }
        self.current.move_right();
        if self.is_collision() {
            self.current.position = prev;
        } else {
            proof {
                lemma_free_is_clear(
                    self@.playfield,
                    self.current.mino.cells,
                    self.current.position.x as int,
                    self.current.position.y as int,
                );
            }
        }
    }

    /// Tries to turn the piece a quarter turn to the left. The turn stands if
    /// the piece has room; if not, the game is as it was.
    pub fn rotate_left(&mut self)
        requires
            old(self).wf(),
        ensures
            final(self)@ == old(self)@.rotate_left(),
            final(self).wf(),
            old(self)@.with_current(old(self).current.rotated_left()).collides() ==> final(self)@
                == old(self)@,
    {
        let prev = self.current.mino;
        self.current.rotate_left();

        if self.is_collision() {
            self.current.mino = prev;
        } else {
            proof {
                lemma_free_is_clear(
                    self@.playfield,
                    self.current.mino.cells,
                    self.current.position.x as int,
                    self.current.position.y as int,
                );
            }
        }
    }

    /// Tries to turn the piece a quarter turn to the right. The turn stands if
    /// the piece has room; if not, the game is as it was.
    pub fn rotate_right(&mut self)
        requires
            old(self).wf(),
        ensures
            final(self)@ == old(self)@.rotate_right(),
            final(self).wf(),
            old(self)@.with_current(old(self).current.rotated_right()).collides() ==> final(self)@
                == old(self)@,
    {
        let prev = self.current.mino;
        self.current.rotate_right();

        if self.is_collision() {
            self.current.mino = prev;
        } else {
            proof {
                lemma_free_is_clear(
                    self@.playfield,
                    self.current.mino.cells,
                    self.current.position.x as int,
                    self.current.position.y as int,
                );
            }
        }
    }

    /// Drops the piece by `line` rows, at once if `force` is set, else after a
    /// tick of its clock and only if the tick made it due. A piece that has
    /// no room there goes back to where it stood and is locked. Tells whether
    /// it was.
    fn land(&mut self, line: u32, force: bool) -> (landed: bool)
        requires
            old(self).wf(),
            !force ==> old(self).current.clock_in_range(),
            force || old(self).current.drop_due() ==> old(self).current.position.y + line
                <= u32::MAX,
        ensures
            landed == old(self)@.lands(line, force),
            final(self)@ == old(self)@.land(line, force),
            final(self).wf(),
    {
        let prev = self.current.position;

        if force {
            self.current.drop_by_force(line);
        } else {
            self.current.dropdown(line);
        }

        if self.is_collision() {
            self.current.position = prev;
            self.fix();
            true
        } else {
            proof {
                lemma_free_is_clear(
                    self@.playfield,
                    self.current.mino.cells,
                    self.current.position.x as int,
                    self.current.position.y as int,
                );
            }
            false
        }
    }

    /// Brings the waiting piece under control at the spawn point and puts
    /// `fresh` in its place in the queue.
    fn advance(&mut self, fresh: Tetrimino)
        requires
            old(self).wf(),
            old(self).current.speed < usize::MAX,
            fresh.wf(),
        ensures
            final(self)@ == old(self)@.advance(fresh),
            final(self).wf(),
    {
        self.current.regenerate(self.next);
        self.next = fresh;
        proof {
            lemma_spawn_is_clear(
                self@.playfield,
                self.width as int,
                self.height as int,
                self.current.mino.cells,
            );
        }
    }

    /// Drops the piece by `line` rows, at once if `force` is set, else after a
    /// tick of its clock and only if the tick made it due. A piece that has
    /// no room there goes back to where it stood and is locked; the waiting
    /// piece follows it at the spawn point, and `fresh` waits next.
    pub fn dropdown_with(&mut self, line: u32, force: bool, fresh: Tetrimino)
        requires
            old(self).wf(),
            old(self)@.dropdown_in_range(line, force),
            fresh.wf(),
        ensures
            final(self)@ == old(self)@.dropdown(line, force, fresh),
            final(self).wf(),
            old(self)@.lands(line, force) ==> {
                &&& final(self)@.holds(old(self).current)
                &&& final(self).current.position == ControlledTetrimino::spawn_point()
                &&& final(self).current.mino == old(self).next
                &&& final(self).next == fresh
            },
    {
        proof {
            if self@.lands(line, force) {
                self@.lemma_lock_invariant(line, force, fresh);
            }
        }
        if self.land(line, force) {
            self.advance(fresh);
        }
    }

    /// Drops the piece as `dropdown_with` does, with a piece drawn at random
    /// to wait next.
    pub fn dropdown(&mut self, line: u32, force: bool)
        requires
            old(self).wf(),
            old(self)@.dropdown_in_range(line, force),
        ensures
            exists|kind: TetriminoKind|
                final(self)@ == old(self)@.dropdown(line, force, #[trigger] Tetrimino::of(kind)),
            final(self).wf(),
            old(self)@.lands(line, force) ==> {
                &&& final(self)@.holds(old(self).current)
                &&& final(self).current.position == ControlledTetrimino::spawn_point()
                &&& final(self).current.mino == old(self).next
                &&& final(self).next.is_fresh()
            },
    {
        if self.land(line, force) {
            let fresh = Tetrimino::default();
            proof {
                old(self)@.lemma_lock_invariant(line, force, fresh);
            }
            self.advance(fresh);
            assert(final(self)@ == old(self)@.dropdown(line, force, Tetrimino::of(fresh.kind)));
        } else {
            assert(final(self)@ == old(self)@.dropdown(
                line,
                force,
                Tetrimino::of(TetriminoKind::I),
            ));
        }
    }

    /// Pauses a running game and lets a paused one run on. A game that has
    /// not begun or is over stays as it is.
    pub fn toggle_pause(&mut self)
        ensures
            final(self)@ == old(self)@.toggle_pause(),
            old(self).wf() ==> final(self).wf(),
    {
        match self.state {
            GameState::Pause => self.state = GameState::Running,
            GameState::Running => self.state = GameState::Pause,
            _ => {},
        }
    }

    /// Lets every completed row above the floor collapse, the topmost first,
    /// and makes the game one step faster for each.
    pub fn complete_lines(&mut self)
        requires
            old(self).wf(),
            old(self)@.lines_in_range(),
        ensures
            final(self)@ == old(self)@.complete_lines(),
            final(self).wf(),
    {
        let ghost before = rows_of(self.playfield);
        let mut completed_lines: Vec<usize> = Vec::new();
        let rows: usize = self.playfield.len();
        let width: usize = self.width as usize;

        let mut y: usize = 0;
        while y < rows - 1
            invariant
                rows == self.height,
                5 <= rows,
                y <= rows - 1,
                rows_of(self.playfield) == before,
                self.playfield.len() == rows,
                found(completed_lines@) == completed_rows(before, y as nat),
                forall|k: int| 0 <= k < completed_lines.len() ==> completed_lines[k] < y,
                before == old(self)@.playfield,
                old(self)@.lines_in_range(),
                old(self).current.speed + completed_lines.len() <= usize::MAX,
                *self == (Game {
                    current: old(self).current.sped_up(completed_lines.len() as nat),
                    ..*old(self)
                }),
            decreases rows - y,
        {
            if is_completed(&self.playfield, y) {
                proof {
                    lemma_completed_rows_grow(before, (y + 1) as nat, (rows - 1) as nat);
                }
                completed_lines.push(y);
                self.current.accel();
            }
            y += 1;
        }

        let mut i: usize = 0;
        while i < completed_lines.len()
            invariant
                i <= completed_lines.len(),
                rows == self.height,
                width == self.width,
                self.playfield.len() == rows,
                has_size(rows_of(self.playfield), width as int, rows as int),
                has_size(before, width as int, rows as int),
                forall|k: int| 0 <= k < completed_lines.len() ==> completed_lines[k] < rows,
                rows_of(self.playfield) == shift_all(
                    before,
                    found(completed_lines@).take(i as int),
                ),
                self.width == old(self).width,
                self.height == old(self).height,
                self.cells == old(self).cells,
                self.next == old(self).next,
                self.state == old(self).state,
                self.current == old(self).current.sped_up(completed_lines.len() as nat),
            decreases completed_lines.len() - i,
        {
            let line: usize = completed_lines[i];
            proof {
                let lines = found(completed_lines@);
                assert(lines.take(i + 1).drop_last() =~= lines.take(i as int));
            }
            collapse_row(&mut self.playfield, line, width);
            i += 1;
        }
        proof {
            let lines = found(completed_lines@);
            assert(lines.take(lines.len() as int) =~= lines);
            lemma_cleared_keeps_frame(before, self.width as int, self.height as int);
            lemma_clear_by_frame(
                before,
                cleared(before),
                self.width as int,
                self.height as int,
                self.current.mino.cells,
                self.current.position.x as int,
                self.current.position.y as int,
            );
        }
    }

    /// Lets the game tick as `update` does, with `fresh` as the piece that
    /// joins the queue if the current one lands.
    pub fn update_with(&mut self, fresh: Tetrimino)
        requires
            old(self).wf(),
            old(self)@.update_in_range(),
            fresh.wf(),
        ensures
            final(self)@ == old(self)@.update(fresh),
            final(self).wf(),
            old(self).state == GameState::Running && old(self)@.spawn_blocked() ==> final(self)@
                == (GameView { state: GameState::Gameover, ..old(self)@ }),
            old(self).state != GameState::Running ==> final(self)@ == old(self)@,
    {
        if self.state != GameState::Running {
            return;
        }
        if self.current.position.y == 0 && self.is_collision() {
            self.state = GameState::Gameover;
            return;
        }
        self.complete_lines();
        self.dropdown_with(1, false, fresh);
        self.update_cells();
    }

    /// Lets the game tick. A game that does not run stays as it is. A running
    /// game whose piece has no room at the top is over, and nothing else
    /// changes. Otherwise the completed rows collapse, gravity acts on the
    /// piece, and the display buffer is drawn afresh. If the piece lands, a
    /// piece drawn at random joins the queue.
    pub fn update(&mut self)
        requires
            old(self).wf(),
            old(self)@.update_in_range(),
        ensures
            exists|kind: TetriminoKind|
                final(self)@ == old(self)@.update(#[trigger] Tetrimino::of(kind)),
            final(self).wf(),
            old(self).state == GameState::Running && old(self)@.spawn_blocked() ==> final(self)@
                == (GameView { state: GameState::Gameover, ..old(self)@ }),
            old(self).state != GameState::Running ==> final(self)@ == old(self)@,
    {
        if self.state != GameState::Running {
            assert(final(self)@ == old(self)@.update(Tetrimino::of(TetriminoKind::I)));
            return;
        }
        if self.current.position.y == 0 && self.is_collision() {
            self.state = GameState::Gameover;
            assert(final(self)@ == old(self)@.update(Tetrimino::of(TetriminoKind::I)));
            return;
        }
        self.complete_lines();
        let ghost cleared = self@;
        self.dropdown(1, false);
        let ghost kind = choose|kind: TetriminoKind|
            self@ == cleared.dropdown(1, false, #[trigger] Tetrimino::of(kind));
        self.update_cells();
        assert(final(self)@ == old(self)@.update(Tetrimino::of(kind)));
    }

    pub fn is_gameover(&self) -> (over: bool)
        ensures
            over == (self.state == GameState::Gameover),
    {
        self.state == GameState::Gameover
    }

    pub fn is_pause(&self) -> (paused: bool)
        ensures
            paused == (self.state == GameState::Pause),
    {
        self.state == GameState::Pause
    }

    pub fn is_startup(&self) -> (fresh: bool)
        ensures
            fresh == (self.state == GameState::Startup),
    {
        self.state == GameState::Startup
    }

    pub fn is_running(&self) -> (running: bool)
        ensures
            running == (self.state == GameState::Running),
    {
        self.state == GameState::Running
    }

    /// Begins anew on a board of the same size with the given pieces. The
    /// game has then not begun.
    pub fn restart_with(&mut self, current: Tetrimino, next: Tetrimino)
        requires
            valid_size(old(self).width as int, old(self).height as int),
            current.wf(),
            next.wf(),
        ensures
            final(self)@ == GameView::start(old(self).width, old(self).height, current, next),
            final(self).wf(),
    {
        *self = Game::with_pieces(self.width, self.height, current, next);
    }

    /// Begins anew on a board of the same size with two pieces drawn at
    /// random. The game has then not begun.
    pub fn restart(&mut self)
        requires
            valid_size(old(self).width as int, old(self).height as int),
        ensures
            exists|a: TetriminoKind, b: TetriminoKind|
                final(self)@ == GameView::start(
                    old(self).width,
                    old(self).height,
                    Tetrimino::of(a),
                    Tetrimino::of(b),
                ),
            final(self).wf(),
    {
        let current = Tetrimino::default();
        let next = Tetrimino::default();
        self.restart_with(current, next);
        assert(final(self)@ == GameView::start(
            old(self).width,
            old(self).height,
            Tetrimino::of(current.kind),
            Tetrimino::of(next.kind),
        ));
    }
}

/// The list of completed rows only grows as the limit moves down.
proof fn lemma_completed_rows_grow(board: Board, from: nat, to: nat)
    requires
        from <= to,
    ensures
        completed_rows(board, from).len() <= completed_rows(board, to).len(),
    decreases to,
{
    if from < to {
        lemma_completed_rows_grow(board, from, (to - 1) as nat);
    }
}

} // verus!
