use tetris::{Cell, Game, GameIO, GameState, Point, Tetrimino, TetriminoKind};

fn game_with(current: TetriminoKind, next: TetriminoKind) -> Game {
    Game::with_pieces(12, 23, Tetrimino::new(current), Tetrimino::new(next))
}

#[test]
fn update_does_nothing_before_the_game_runs() {
    let mut game = Game::new();
    let board = game.playfield.clone();
    let shown = game.cells.clone();
    let piece = game.current;
    let next = game.next;
    game.update();
    assert!(game.is_startup());
    assert_eq!(game.playfield, board);
    assert_eq!(game.cells, shown);
    assert_eq!(game.current, piece);
    assert_eq!(game.next, next);
}

#[test]
fn a_running_game_ticks() {
    let mut game = Game::new();
    game.update();
    game.run();
    assert!(game.is_running());
    game.update();
    assert!(game.is_running());
    assert_eq!(game.current.frame, 1);
    assert_eq!(game.current.last_dropped, 100);
    assert_eq!(game.current.position, Point::new(4, 1));
    assert_eq!(game.current.speed, 1);
    assert_eq!(game.playfield, Game::init_playfield(12, 23));
    let tag = Cell::from(game.current.mino.kind);
    let shown = game.cells.iter().filter(|cell| **cell == tag).count();
    assert_eq!(shown, 4);
    assert_eq!(game.cells[0], Cell::Tetrion);
    assert_eq!(game.cells[5 * 12 + 5], Cell::Empty);
}

#[test]
fn a_tick_with_a_chosen_piece_does_the_same() {
    let mut game = game_with(TetriminoKind::I, TetriminoKind::O);
    game.update_with(Tetrimino::new(TetriminoKind::T));
    assert_eq!(game.state, GameState::Startup);
    assert_eq!(game.current.frame, 0);
    game.run();
    game.update_with(Tetrimino::new(TetriminoKind::T));
    assert_eq!(game.state, GameState::Running);
    assert_eq!(game.current.position, Point::new(4, 1));
    assert_eq!(game.current.frame, 1);
    for c in 4..8 {
        assert_eq!(game.cells[2 * 12 + c], Cell::IMino);
        assert_eq!(game.cells[12 + c], Cell::Empty);
    }
    assert_eq!(game.cells[2 * 12 + 3], Cell::Empty);
    assert_eq!(game.cells[2 * 12 + 8], Cell::Empty);
    assert_eq!(game.cells[2 * 12], Cell::Tetrion);
}

#[test]
fn gravity_takes_a_hundred_ticks_for_the_second_row() {
    let mut game = game_with(TetriminoKind::I, TetriminoKind::O);
    game.run();
    game.update_with(Tetrimino::new(TetriminoKind::T));
    for tick in 2..100 {
        game.update_with(Tetrimino::new(TetriminoKind::T));
        assert_eq!(game.current.position, Point::new(4, 1));
        assert_eq!(game.current.frame, tick);
    }
    game.update_with(Tetrimino::new(TetriminoKind::T));
    assert_eq!(game.current.position, Point::new(4, 2));
    assert_eq!(game.current.frame, 100);
    assert_eq!(game.current.last_dropped, 200);
    assert_eq!(game.cells[3 * 12 + 4], Cell::IMino);
    assert_eq!(game.cells[2 * 12 + 4], Cell::Empty);
}

#[test]
fn a_tick_clears_full_rows_before_gravity_acts() {
    let mut game = game_with(TetriminoKind::I, TetriminoKind::O);
    for c in 1..11 {
        game.playfield[21][c] = Cell::ZMino;
    }
    game.playfield[20][9] = Cell::SMino;
    game.run();
    game.update_with(Tetrimino::new(TetriminoKind::T));
    assert_eq!(game.current.speed, 2);
    assert_eq!(game.current.frame, 2);
    assert_eq!(game.current.position, Point::new(4, 1));
    assert_eq!(game.playfield[21][9], Cell::SMino);
    assert_eq!(game.playfield[21][1], Cell::Empty);
    assert_eq!(game.playfield[20][9], Cell::Empty);
    assert_eq!(game.cells[21 * 12 + 9], Cell::SMino);
    assert_eq!(game.cells[21 * 12 + 1], Cell::Empty);
}

#[test]
fn the_game_is_over_when_the_piece_has_no_room_at_the_top() {
    let mut game = game_with(TetriminoKind::I, TetriminoKind::O);
    game.playfield[1][6] = Cell::JMino;
    for c in 1..11 {
        game.playfield[21][c] = Cell::ZMino;
    }
    let board = game.playfield.clone();
    let shown = game.cells.clone();
    let piece = game.current;
    game.run();
    game.update_with(Tetrimino::new(TetriminoKind::T));
    assert!(game.is_gameover());
    assert!(!game.is_running());
    assert_eq!(game.playfield, board);
    assert_eq!(game.cells, shown);
    assert_eq!(game.current, piece);
    assert_eq!(game.next, Tetrimino::new(TetriminoKind::O));
}

#[test]
fn a_game_that_is_over_stays_over() {
    let mut game = game_with(TetriminoKind::I, TetriminoKind::O);
    game.playfield[1][6] = Cell::JMino;
    game.run();
    game.update();
    assert!(game.is_gameover());
    let board = game.playfield.clone();
    game.update();
    game.toggle_pause();
    game.run();
    game.update_with(Tetrimino::new(TetriminoKind::T));
    assert!(game.is_gameover());
    assert_eq!(game.playfield, board);
    assert_eq!(game.current.frame, 0);
}

#[test]
fn a_stack_that_reaches_the_top_ends_the_game() {
    let mut game = game_with(TetriminoKind::O, TetriminoKind::O);
    game.run();
    let mut ticks = 0;
    while !game.is_gameover() {
        game.dropdown_with(1, true, Tetrimino::new(TetriminoKind::O));
        game.update_with(Tetrimino::new(TetriminoKind::O));
        ticks += 1;
        assert!(ticks < 1000);
    }
    assert_eq!(game.current.position, Point::new(4, 0));
    assert!(game.is_collision());
    assert_eq!(game.playfield[21][5], Cell::OMino);
    assert_eq!(game.playfield[2][5], Cell::OMino);
    assert_eq!(game.playfield[21][4], Cell::Empty);
}

#[test]
fn run_begins_a_game_once() {
    let mut game = game_with(TetriminoKind::I, TetriminoKind::O);
    game.run();
    assert_eq!(game.state, GameState::Running);
    game.run();
    assert_eq!(game.state, GameState::Running);
    game.toggle_pause();
    game.run();
    assert_eq!(game.state, GameState::Pause);
}

#[test]
fn pause_toggles_a_running_game() {
    let mut game = game_with(TetriminoKind::I, TetriminoKind::O);
    game.toggle_pause();
    assert!(game.is_startup());
    game.run();
    game.toggle_pause();
    assert!(game.is_pause());
    assert!(!game.is_running());
    game.toggle_pause();
    assert!(game.is_running());
    assert!(!game.is_pause());
}

#[test]
fn a_paused_game_does_not_tick() {
    let mut game = game_with(TetriminoKind::I, TetriminoKind::O);
    game.run();
    game.update_with(Tetrimino::new(TetriminoKind::T));
    game.toggle_pause();
    let shown = game.cells.clone();
    let piece = game.current;
    for _ in 0..5 {
        game.update();
    }
    assert!(game.is_pause());
    assert_eq!(game.current, piece);
    assert_eq!(game.cells, shown);
    game.toggle_pause();
    game.update();
    assert_eq!(game.current.frame, 2);
}

#[test]
fn restart_begins_anew() {
    let mut game = game_with(TetriminoKind::O, TetriminoKind::I);
    game.run();
    for _ in 0..20 {
        game.dropdown_with(1, true, Tetrimino::new(TetriminoKind::T));
    }
    game.update_with(Tetrimino::new(TetriminoKind::T));
    assert_eq!(game.playfield[21][5], Cell::OMino);
    game.restart();
    assert!(game.is_startup());
    assert_eq!(game.width(), 12);
    assert_eq!(game.height(), 23);
    assert_eq!(game.playfield, Game::init_playfield(12, 23));
    assert_eq!(game.cells, Game::init_cells(12, 23));
    assert_eq!(game.current.position, Point::new(4, 0));
    assert_eq!(game.current.speed, 1);
    assert_eq!(game.current.frame, 0);
    assert_eq!(game.current.last_dropped, 0);
    assert_eq!(game.current.mino, Tetrimino::new(game.current.mino.kind));
    assert_eq!(game.next, Tetrimino::new(game.next.kind));
}

#[test]
fn restart_with_chosen_pieces_keeps_the_size() {
    let mut game = Game::with_pieces(
        10,
        6,
        Tetrimino::new(TetriminoKind::S),
        Tetrimino::new(TetriminoKind::Z),
    );
    game.run();
    game.update_with(Tetrimino::new(TetriminoKind::T));
    game.restart_with(Tetrimino::new(TetriminoKind::J), Tetrimino::new(TetriminoKind::L));
    assert_eq!(game.state, GameState::Startup);
    assert_eq!(game.width(), 10);
    assert_eq!(game.height(), 6);
    assert_eq!(game.playfield, Game::init_playfield(10, 6));
    assert_eq!(game.cells.len(), 60);
    assert_eq!(game.current.mino, Tetrimino::new(TetriminoKind::J));
    assert_eq!(game.next, Tetrimino::new(TetriminoKind::L));
}

#[test]
fn the_host_sees_a_game_that_has_not_begun() {
    let io = GameIO::new();
    assert_eq!(io.width(), 12);
    assert_eq!(io.height(), 23);
    assert!(io.is_startup());
    assert!(!io.is_running());
    assert!(!io.is_pause());
    assert!(!io.is_gameover());
    assert_eq!(io.cells_ptr().len(), 276);
    assert_eq!(io.get_index(0, 0), 0);
    assert_eq!(io.get_index(3, 5), 41);
    assert_eq!(io.get_index(22, 11), 275);
    let other = GameIO::default();
    assert!(other.is_startup());
    assert_eq!(other.game.playfield, io.game.playfield);
}

#[test]
fn the_host_drives_the_game() {
    let mut io = GameIO::new();
    io.update();
    assert!(io.is_startup());
    io.run();
    assert!(io.is_running());
    io.update();
    assert_eq!(io.game.current.position, Point::new(4, 1));
    io.soft_drop();
    assert_eq!(io.game.current.position, Point::new(4, 2));
    io.move_left();
    assert_eq!(io.game.current.position, Point::new(3, 2));
    io.move_right();
    io.move_right();
    assert_eq!(io.game.current.position, Point::new(5, 2));
    let mut turned = io.game.current.mino;
    turned.rotate_left();
    io.rotate_left();
    assert_eq!(io.game.current.mino, turned);
    io.rotate_right();
    turned.rotate_right();
    assert_eq!(io.game.current.mino, turned);
    io.toggle_pause();
    assert!(io.is_pause());
    io.update();
    assert_eq!(io.game.current.frame, 1);
    io.toggle_pause();
    assert!(io.is_running());
    io.update();
    assert_eq!(io.game.current.frame, 2);
    let tag = Cell::from(io.game.current.mino.kind);
    assert_eq!(io.cells_ptr().iter().filter(|cell| **cell == tag).count(), 4);
}

#[test]
fn soft_drops_lock_the_piece_at_the_floor() {
    let mut io = GameIO::new();
    io.run();
    let first = io.game.current.mino;
    let second = io.game.next;
    let mut drops = 0;
    while io.game.current.speed == 1 {
        io.soft_drop();
        drops += 1;
        assert!(drops <= 21);
    }
    assert!(drops >= 19);
    assert_eq!(io.game.current.mino, second);
    assert_eq!(io.game.current.position, Point::new(4, 0));
    assert_eq!(io.game.current.speed, 2);
    let tag = Cell::from(first.kind);
    let locked = io
        .game
        .playfield
        .iter()
        .flatten()
        .filter(|cell| **cell == tag)
        .count();
    assert_eq!(locked, 4);
}

#[test]
fn the_host_can_begin_anew() {
    let mut io = GameIO::new();
    io.run();
    for _ in 0..30 {
        io.soft_drop();
    }
    io.update();
    io.restart();
    assert!(io.is_startup());
    assert_eq!(io.game.playfield, Game::init_playfield(12, 23));
    assert_eq!(io.game.current.speed, 1);
    assert_eq!(io.game.current.position, Point::new(4, 0));
    assert_eq!(io.cells_ptr(), Game::init_cells(12, 23).as_slice());
}
