//! The game as a mathematical value, and what each command makes of it.

use crate::board::{
    cleared, clear_of_frame, collides, completed_rows, framed, has_size, initial_board,
    lemma_completed_rows_in_range, lemma_locked_cells, locked, rendered, valid_size, Board,
};
use crate::cell::Cell;
use crate::controlled::ControlledTetrimino;
use crate::mino::occupied;
use crate::tetrimino::{lemma_shape, Tetrimino};
use vstd::prelude::*;

verus! {

/// Where a game stands in its life.
#[derive(Clone, Copy, Debug, PartialEq, Eq, PartialOrd, Ord, Structural)]
pub enum GameState {
    Startup,
    Running,
    Pause,
    Gameover,
}

/// A game as a mathematical value.
#[verifier::ext_equal]
pub struct GameView {
    pub width: u32,
    pub height: u32,
    pub cells: Seq<Cell>,
    pub playfield: Board,
    pub current: ControlledTetrimino,
    pub next: Tetrimino,
    pub state: GameState,
}

impl GameView {
    /// The game is one that play can have led to: the board has the size the
    /// game says and the frame of a well of that size, the display buffer has
    /// a tile for each of the board's, both pieces are pieces, and the
    /// current one stands on the board and on no tile of the frame.
    pub open spec fn wf(self) -> bool {
        &&& valid_size(self.width as int, self.height as int)
        &&& self.cells.len() == self.width * self.height
        &&& framed(self.playfield, self.width as int, self.height as int)
        &&& self.current.mino.wf()
        &&& self.next.wf()
        &&& clear_of_frame(
            self.playfield,
            self.current.mino.cells,
            self.current.position.x as int,
            self.current.position.y as int,
        )
    }

    /// The board has the size the game says.
    pub open spec fn sized(self) -> bool {
        has_size(self.playfield, self.width as int, self.height as int)
    }

    /// A game that has not begun: an untouched board of the given size, a
    /// display buffer of frame tiles, `current` at the spawn point and `next`
    /// waiting.
    pub open spec fn start(
        width: u32,
        height: u32,
        current: Tetrimino,
        next: Tetrimino,
    ) -> GameView {
        GameView {
            width,
            height,
            cells: Seq::new((width * height) as nat, |i: int| Cell::Tetrion),
            playfield: initial_board(width as int, height as int),
            current: ControlledTetrimino::start(current),
            next,
            state: GameState::Startup,
        }
    }

    /// The same game with another piece, or the same piece elsewhere, under
    /// control.
    pub open spec fn with_current(self, current: ControlledTetrimino) -> GameView {
        GameView { current, ..self }
    }

    /// The current piece has a block where none can stand: off the board or
    /// on a tile that is not empty.
    pub open spec fn collides(self) -> bool {
        collides(
            self.playfield,
            self.current.mino.cells,
            self.current.position.x as int,
            self.current.position.y as int,
        )
    }

    /// A game that has not begun begins; any other stays as it is.
    pub open spec fn run(self) -> GameView {
        if self.state == GameState::Startup {
            GameView { state: GameState::Running, ..self }
        } else {
            self
        }
    }

    /// A running game pauses and a paused one runs on; any other stays as it
    /// is.
    pub open spec fn toggle_pause(self) -> GameView {
        match self.state {
            GameState::Pause => GameView { state: GameState::Running, ..self },
            GameState::Running => GameView { state: GameState::Pause, ..self },
            _ => self,
        }
    }

    /// The game after an attempt to move the piece: the attempt stands if the
    /// piece collides with nothing where it then is, and leaves no trace if it
    /// does.
    pub open spec fn attempt(self, moved: ControlledTetrimino) -> GameView {
        if self.with_current(moved).collides() {
            self
        } else {
            self.with_current(moved)
        }
    }

    /// The game after an attempt to move the piece a column to the left. In
    /// column zero there is nothing to attempt.
    pub open spec fn move_left(self) -> GameView {
        if self.current.position.x == 0 {
            self
        } else {
            self.attempt(self.current.moved_left())
        }
    }

    /// The game after an attempt to move the piece a column to the right.
    pub open spec fn move_right(self) -> GameView {
        self.attempt(self.current.moved_right())
    }

    /// The game after an attempt to turn the piece to the left.
    pub open spec fn rotate_left(self) -> GameView {
        self.attempt(self.current.rotated_left())
    }

    /// The game after an attempt to turn the piece to the right.
    pub open spec fn rotate_right(self) -> GameView {
        self.attempt(self.current.rotated_right())
    }

    /// The board holds the tile of the piece's kind wherever the piece, where
    /// it stands, has a block.
    pub open spec fn holds(self, piece: ControlledTetrimino) -> bool {
        forall|y: int, x: int| #[trigger]
            occupied(piece.mino.cells, y, x) ==> self.playfield[piece.position.y
                + y][piece.position.x + x] == piece.mino.kind.tag()
    }

    /// The game with the blocks of the current piece written into the board.
    pub open spec fn fix(self) -> GameView {
        GameView {
            playfield: locked(
                self.playfield,
                self.current.mino.cells,
                self.current.position.x as int,
                self.current.position.y as int,
            ),
            ..self
        }
    }

    /// The game with its display buffer drawn afresh: the board, and over it
    /// the current piece in the tile of its kind.
    pub open spec fn update_cells(self) -> GameView {
        GameView {
            cells: rendered(
                self.playfield,
                self.width as int,
                self.height as int,
                self.current.mino.cells,
                self.current.mino.kind.tag(),
                self.current.position.x as int,
                self.current.position.y as int,
            ),
            ..self
        }
    }

    /// The current piece after a drop of `line` rows: at once if `force` is
    /// set, else after a tick of its clock and only if the tick made it due.
    pub open spec fn descended(self, line: u32, force: bool) -> ControlledTetrimino {
        if force {
            self.current.lowered(line)
        } else {
            self.current.fallen(line)
        }
    }

    /// The piece has no room where the drop takes it.
    pub open spec fn lands(self, line: u32, force: bool) -> bool {
        self.with_current(self.descended(line, force)).collides()
    }

    /// The game after the drop itself: the piece stands lower, or, where it
    /// has no room there, stands where it stood and is locked into the board.
    /// The clock keeps its tick either way.
    pub open spec fn land(self, line: u32, force: bool) -> GameView {
        let moved = self.descended(line, force);
        if self.lands(line, force) {
            self.with_current(
                ControlledTetrimino { position: self.current.position, ..moved },
            ).fix()
        } else {
            self.with_current(moved)
        }
    }

    /// The game after the waiting piece has come under control and `fresh` has
    /// taken its place in the queue.
    pub open spec fn advance(self, fresh: Tetrimino) -> GameView {
        GameView { current: self.current.regenerated(self.next), next: fresh, ..self }
    }

    /// The drop stays within the machine's integers: the tick of the clock,
    /// the row the piece is taken to, and the step in speed if it lands.
    pub open spec fn dropdown_in_range(self, line: u32, force: bool) -> bool {
        &&& !force ==> self.current.clock_in_range()
        &&& force || self.current.drop_due() ==> self.current.position.y + line <= u32::MAX
        &&& self.lands(line, force) ==> self.current.speed < usize::MAX
    }

    /// The game after a drop of `line` rows. A piece that lands is locked, the
    /// waiting piece follows it at the spawn point, and `fresh` waits next.
    pub open spec fn dropdown(self, line: u32, force: bool, fresh: Tetrimino) -> GameView {
        if self.lands(line, force) {
            self.land(line, force).advance(fresh)
        } else {
            self.land(line, force)
        }
    }

    /// The piece stands in the top row and has no room there: the game is
    /// over.
    pub open spec fn spawn_blocked(self) -> bool {
        self.current.position.y == 0 && self.collides()
    }

    /// The tick does something: the game runs and is not over.
    pub open spec fn ticks(self) -> bool {
        self.state == GameState::Running && !self.spawn_blocked()
    }

    /// The tick stays within the machine's integers.
    pub open spec fn update_in_range(self) -> bool {
        self.ticks() ==> {
            &&& self.lines_in_range()
            &&& self.complete_lines().dropdown_in_range(1, false)
        }
    }

    /// The game after one tick. A game that does not run stays as it is. A
    /// running game whose piece has no room at the top is over, and nothing
    /// else changes. Otherwise the completed rows collapse, gravity acts, and
    /// the display buffer is drawn afresh; `fresh` is the piece that joins the
    /// queue if the current one lands.
    pub open spec fn update(self, fresh: Tetrimino) -> GameView {
        if self.state != GameState::Running {
            self
        } else if self.spawn_blocked() {
            GameView { state: GameState::Gameover, ..self }
        } else {
            self.complete_lines().dropdown(1, false, fresh).update_cells()
        }
    }

    /// The clock has room for whatever one tick or one drop can add to it:
    /// a step in speed for every row above the floor and one for a piece that
    /// lands, a tick at that speed, and a new deadline.
    pub open spec fn has_room(self) -> bool {
        &&& self.current.speed + self.height <= usize::MAX
        &&& self.current.frame + self.current.speed + self.height <= usize::MAX
        &&& self.current.last_dropped + self.current.threshold <= usize::MAX
    }

    /// How many rows above the floor are complete.
    pub open spec fn completed_count(self) -> nat {
        completed_rows(self.playfield, (self.height - 1) as nat).len()
    }

    /// The speed can take a step for each completed row.
    pub open spec fn lines_in_range(self) -> bool {
        self.current.speed + self.completed_count() <= usize::MAX
    }

    /// The game after its completed rows have collapsed: the rows above each
    /// have moved down, and the game is one step faster for each.
    pub open spec fn complete_lines(self) -> GameView {
        GameView {
            playfield: cleared(self.playfield),
            current: self.current.sped_up(self.completed_count()),
            ..self
        }
    }

    /// The lock invariant: where a drop makes the piece land, the board
    /// afterwards holds the tile of the piece's kind wherever the piece had a
    /// block, and the piece that waited stands at the spawn point.
    pub proof fn lemma_lock_invariant(self, line: u32, force: bool, fresh: Tetrimino)
        requires
            self.wf(),
            self.lands(line, force),
        ensures
            self.dropdown(line, force, fresh).holds(self.current),
            self.dropdown(line, force, fresh).current.position
                == ControlledTetrimino::spawn_point(),
            self.dropdown(line, force, fresh).current.mino == self.next,
            self.dropdown(line, force, fresh).next == fresh,
    {
        lemma_shape(self.current.mino);
        lemma_locked_cells(
            self.playfield,
            self.current.mino.cells,
            self.current.position.x as int,
            self.current.position.y as int,
        );
    }

    /// The piece of a well-formed game has its corner on the board.
    pub proof fn lemma_piece_on_board(self)
        requires
            self.wf(),
        ensures
            self.current.position.x < self.width,
            self.current.position.y < self.height,
    {
        lemma_shape(self.current.mino);
        let cells = self.current.mino.cells;
        let (y, x) = choose|y: int, x: int| occupied(cells, y, x);
        assert(occupied(cells, y, x));
        assert(self.playfield[self.current.position.y + y].len() == self.width);
    }

    /// A game with room on its clock can tick and can drop a row.
    pub proof fn lemma_room_suffices(self)
        requires
            self.wf(),
            self.has_room(),
        ensures
            self.lines_in_range(),
            self.update_in_range(),
            self.dropdown_in_range(1, true),
            self.dropdown_in_range(1, false),
    {
        lemma_completed_rows_in_range(self.playfield, (self.height - 1) as nat);
        self.lemma_piece_on_board();
    }
}

} // verus!
