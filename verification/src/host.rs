//! The surface a host talks to: what it may ask and what it may command.

use crate::board::cell_index;
use crate::cell::{Cell, TetriminoKind};
use crate::game::{Game, HEIGHT, WIDTH};
use crate::model::{GameState, GameView};
use crate::tetrimino::Tetrimino;
use vstd::prelude::*;

verus! {

/// A game behind the calls that a host makes: one per timer tick, one per
/// key, and the questions it asks to draw the board.
pub struct GameIO {
    pub game: Game,
}

impl View for GameIO {
    type V = GameView;

    open spec fn view(&self) -> GameView {
        self.game@
    }
}

impl Default for GameIO {
    /// A game that has not begun, with two pieces drawn at random.
    fn default() -> (io: GameIO)
        ensures
            exists|a: TetriminoKind, b: TetriminoKind|
                io@ == GameView::start(WIDTH, HEIGHT, Tetrimino::of(a), Tetrimino::of(b)),
            io.wf(),
    {
        GameIO { game: Game::new() }
    }
}

impl GameIO {
    /// The game behind the surface is one that play can have led to.
    pub open spec fn wf(&self) -> bool {
        self.game.wf()
    }

    /// A game that has not begun, with two pieces drawn at random.
    pub fn new() -> (io: GameIO)
        ensures
            exists|a: TetriminoKind, b: TetriminoKind|
                io@ == GameView::start(WIDTH, HEIGHT, Tetrimino::of(a), Tetrimino::of(b)),
            io.wf(),
    {
        GameIO::default()
    }

    /// Columns of the board, frame included.
    pub fn width(&self) -> (width: u32)
        ensures
            width == self@.width,
    {
        self.game.width()
    }

    /// Rows of the board, frame included.
    pub fn height(&self) -> (height: u32)
        ensures
            height == self@.height,
    {
        self.game.height()
    }

    /// The display buffer, row after row.
    pub fn cells_ptr(&self) -> (cells: &[Cell])
        ensures
            cells@ == self@.cells,
    {
        self.game.cells_ptr()
    }

    /// Place of row `row`, column `column` in the display buffer.
    pub fn get_index(&self, row: u32, column: u32) -> (index: usize)
        requires
            row * self@.width + column <= u32::MAX,
        ensures
            index == cell_index(self@.width as int, row as int, column as int),
    {
        self.game.get_cells_index(row, column)
    }

    /// Lets a game that has not begun begin.
    pub fn run(&mut self)
        ensures
            final(self)@ == old(self)@.run(),
            old(self).wf() ==> final(self).wf(),
    {
        self.game.run();
    }

    /// Begins anew with two pieces drawn at random.
    pub fn restart(&mut self)
        requires
            old(self).wf(),
        ensures
            exists|a: TetriminoKind, b: TetriminoKind|
                final(self)@ == GameView::start(
                    old(self)@.width,
                    old(self)@.height,
                    Tetrimino::of(a),
                    Tetrimino::of(b),
                ),
            final(self).wf(),
    {
        self.game.restart();
    }

    /// Lets the game tick.
    pub fn update(&mut self)
        requires
            old(self).wf(),
            old(self)@.update_in_range(),
        ensures
            exists|kind: TetriminoKind|
                final(self)@ == old(self)@.update(#[trigger] Tetrimino::of(kind)),
            final(self).wf(),
    {
        self.game.update();
    }

    pub fn is_gameover(&self) -> (over: bool)
        ensures
            over == (self@.state == GameState::Gameover),
    {
        self.game.is_gameover()
    }

    pub fn is_pause(&self) -> (paused: bool)
        ensures
            paused == (self@.state == GameState::Pause),
    {
        self.game.is_pause()
    }

    pub fn is_startup(&self) -> (fresh: bool)
        ensures
            fresh == (self@.state == GameState::Startup),
    {
        self.game.is_startup()
    }

    pub fn is_running(&self) -> (running: bool)
        ensures
            running == (self@.state == GameState::Running),
    {
        self.game.is_running()
    }

    /// Pauses a running game and lets a paused one run on.
    pub fn toggle_pause(&mut self)
        ensures
            final(self)@ == old(self)@.toggle_pause(),
            old(self).wf() ==> final(self).wf(),
    {
        self.game.toggle_pause();
    }

    /// Tries to move the piece a column to the left.
    pub fn move_left(&mut self)
        requires
            old(self).wf(),
        ensures
            final(self)@ == old(self)@.move_left(),
            final(self).wf(),
    {
        self.game.move_left();
    }

    /// Tries to move the piece a column to the right.
    pub fn move_right(&mut self)
        requires
            old(self).wf(),
        ensures
            final(self)@ == old(self)@.move_right(),
            final(self).wf(),
    {
        self.game.move_right();
    }

    /// Drops the piece a row at once. A piece that cannot fall is locked,
    /// and the next one enters.
    pub fn soft_drop(&mut self)
        requires
            old(self).wf(),
            old(self)@.dropdown_in_range(1, true),
        ensures
            exists|kind: TetriminoKind|
                final(self)@ == old(self)@.dropdown(1, true, #[trigger] Tetrimino::of(kind)),
            final(self).wf(),
    {
        self.game.dropdown(1, true);
    }

    /// Tries to turn the piece a quarter turn to the left.
    pub fn rotate_left(&mut self)
        requires
            old(self).wf(),
        ensures
            final(self)@ == old(self)@.rotate_left(),
            final(self).wf(),
    {
        self.game.rotate_left();
    }

    /// Tries to turn the piece a quarter turn to the right.
    pub fn rotate_right(&mut self)
        requires
            old(self).wf(),
        ensures
            final(self)@ == old(self)@.rotate_right(),
            final(self).wf(),
    {
        self.game.rotate_right();
    }
}

} // verus!
