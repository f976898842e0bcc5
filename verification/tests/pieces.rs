use tetris::mino::{
    MinoData, EMPTY_MINO, I_MINO, J_MINO, L_MINO, MINO_CELL_SIZE, O_MINO, S_MINO, T_MINO, Z_MINO,
};
use tetris::{Cell, ControlledTetrimino, Point, Tetrimino, TetriminoKind, TetriminoState};

const KINDS: [TetriminoKind; 7] = [
    TetriminoKind::I,
    TetriminoKind::J,
    TetriminoKind::L,
    TetriminoKind::O,
    TetriminoKind::S,
    TetriminoKind::T,
    TetriminoKind::Z,
];

fn blocks(cells: &MinoData) -> usize {
    let mut count = 0;
    for row in cells.iter() {
        for cell in row.iter() {
            if *cell != Cell::Empty {
                count += 1;
            }
        }
    }
    count
}

#[test]
fn every_kind_has_its_own_tile() {
    assert_eq!(Cell::from(TetriminoKind::I), Cell::IMino);
    assert_eq!(Cell::from(TetriminoKind::J), Cell::JMino);
    assert_eq!(Cell::from(TetriminoKind::L), Cell::LMino);
    assert_eq!(Cell::from(TetriminoKind::O), Cell::OMino);
    assert_eq!(Cell::from(TetriminoKind::S), Cell::SMino);
    assert_eq!(Cell::from(TetriminoKind::T), Cell::TMino);
    assert_eq!(Cell::from(TetriminoKind::Z), Cell::ZMino);
}

#[test]
fn kinds_are_numbered_in_order() {
    assert_eq!(TetriminoKind::from(0), TetriminoKind::I);
    assert_eq!(TetriminoKind::from(1), TetriminoKind::J);
    assert_eq!(TetriminoKind::from(2), TetriminoKind::L);
    assert_eq!(TetriminoKind::from(3), TetriminoKind::O);
    assert_eq!(TetriminoKind::from(4), TetriminoKind::S);
    assert_eq!(TetriminoKind::from(5), TetriminoKind::T);
    assert_eq!(TetriminoKind::from(6), TetriminoKind::Z);
}

#[test]
fn numbers_past_the_last_kind_give_z() {
    assert_eq!(TetriminoKind::from(7), TetriminoKind::Z);
    assert_eq!(TetriminoKind::from(1000), TetriminoKind::Z);
    assert_eq!(TetriminoKind::from(u32::MAX), TetriminoKind::Z);
}

#[test]
fn random_kinds_are_not_all_the_same() {
    let first = TetriminoKind::default();
    let mut differs = false;
    for _ in 0..500 {
        if TetriminoKind::default() != first {
            differs = true;
        }
    }
    assert!(differs);
}

#[test]
fn random_kinds_reach_all_seven() {
    let mut seen = [false; 7];
    for _ in 0..5000 {
        let kind = TetriminoKind::default();
        for (i, k) in KINDS.iter().enumerate() {
            if *k == kind {
                seen[i] = true;
            }
        }
    }
    assert_eq!(seen, [true; 7]);
}

#[test]
fn a_random_piece_enters_in_the_shape_of_its_kind() {
    for _ in 0..50 {
        let piece = Tetrimino::default();
        assert_eq!(piece, Tetrimino::new(piece.kind));
    }
}

#[test]
fn piece_states_are_distinct() {
    assert_ne!(TetriminoState::Prepare, TetriminoState::Falling);
    assert_ne!(TetriminoState::Falling, TetriminoState::Stopped);
    assert_ne!(TetriminoState::Prepare, TetriminoState::Stopped);
}

#[test]
fn the_box_is_four_by_four() {
    assert_eq!(MINO_CELL_SIZE, 4);
    assert_eq!(blocks(&EMPTY_MINO), 0);
}

#[test]
fn every_shape_has_four_blocks_of_its_own_tile() {
    for kind in KINDS.iter() {
        let piece = Tetrimino::new(*kind);
        assert_eq!(piece.kind, *kind);
        assert_eq!(blocks(&piece.cells), 4);
        for row in piece.cells.iter() {
            for cell in row.iter() {
                assert!(*cell == Cell::Empty || *cell == Cell::from(*kind));
            }
        }
    }
}

#[test]
fn new_pieces_take_the_shape_tables() {
    assert_eq!(Tetrimino::new(TetriminoKind::I).cells, I_MINO);
    assert_eq!(Tetrimino::new(TetriminoKind::J).cells, J_MINO);
    assert_eq!(Tetrimino::new(TetriminoKind::L).cells, L_MINO);
    assert_eq!(Tetrimino::new(TetriminoKind::O).cells, O_MINO);
    assert_eq!(Tetrimino::new(TetriminoKind::S).cells, S_MINO);
    assert_eq!(Tetrimino::new(TetriminoKind::T).cells, T_MINO);
    assert_eq!(Tetrimino::new(TetriminoKind::Z).cells, Z_MINO);
}

#[test]
fn the_i_piece_lies_in_the_second_row() {
    let e = Cell::Empty;
    let i = Cell::IMino;
    assert_eq!(
        I_MINO,
        [[e, e, e, e], [i, i, i, i], [e, e, e, e], [e, e, e, e]]
    );
}

#[test]
fn rotate_left_stands_the_i_piece_in_the_second_column() {
    let e = Cell::Empty;
    let i = Cell::IMino;
    let mut piece = Tetrimino::new(TetriminoKind::I);
    piece.rotate_left();
    assert_eq!(piece.kind, TetriminoKind::I);
    assert_eq!(
        piece.cells,
        [[e, i, e, e], [e, i, e, e], [e, i, e, e], [e, i, e, e]]
    );
}

#[test]
fn rotate_right_stands_the_i_piece_in_the_third_column() {
    let e = Cell::Empty;
    let i = Cell::IMino;
    let mut piece = Tetrimino::new(TetriminoKind::I);
    piece.rotate_right();
    assert_eq!(
        piece.cells,
        [[e, e, i, e], [e, e, i, e], [e, e, i, e], [e, e, i, e]]
    );
}

#[test]
fn rotate_right_turns_the_t_piece() {
    let e = Cell::Empty;
    let t = Cell::TMino;
    let mut piece = Tetrimino::new(TetriminoKind::T);
    piece.rotate_right();
    assert_eq!(
        piece.cells,
        [[e, t, e, e], [e, t, t, e], [e, t, e, e], [e, e, e, e]]
    );
}

#[test]
fn rotate_left_turns_the_t_piece() {
    let e = Cell::Empty;
    let t = Cell::TMino;
    let mut piece = Tetrimino::new(TetriminoKind::T);
    piece.rotate_left();
    assert_eq!(
        piece.cells,
        [[e, e, e, e], [e, e, t, e], [e, t, t, e], [e, e, t, e]]
    );
}

#[test]
fn rotate_left_sends_each_tile_to_its_place() {
    for kind in KINDS.iter() {
        let before = Tetrimino::new(*kind);
        let mut after = before;
        after.rotate_left();
        for y in 0..4 {
            for x in 0..4 {
                assert_eq!(after.cells[3 - x][y], before.cells[y][x]);
            }
        }
    }
}

#[test]
fn rotate_right_sends_each_tile_to_its_place() {
    for kind in KINDS.iter() {
        let before = Tetrimino::new(*kind);
        let mut after = before;
        after.rotate_right();
        for y in 0..4 {
            for x in 0..4 {
                assert_eq!(after.cells[x][3 - y], before.cells[y][x]);
            }
        }
    }
}

#[test]
fn four_turns_to_the_left_come_round() {
    for kind in KINDS.iter() {
        let mut piece = Tetrimino::new(*kind);
        for turn in 0..4 {
            piece.rotate_left();
            if turn < 3 && *kind != TetriminoKind::O {
                assert_ne!(piece, Tetrimino::new(*kind));
            }
        }
        assert_eq!(piece, Tetrimino::new(*kind));
    }
}

#[test]
fn four_turns_to_the_right_come_round() {
    for kind in KINDS.iter() {
        let mut piece = Tetrimino::new(*kind);
        for _ in 0..4 {
            piece.rotate_right();
        }
        assert_eq!(piece, Tetrimino::new(*kind));
    }
}

#[test]
fn a_turn_to_the_right_undoes_one_to_the_left() {
    for kind in KINDS.iter() {
        let mut piece = Tetrimino::new(*kind);
        piece.rotate_right();
        let turned = piece;
        piece.rotate_left();
        assert_eq!(piece, Tetrimino::new(*kind));
        piece.rotate_left();
        piece.rotate_right();
        assert_eq!(piece, Tetrimino::new(*kind));
        piece.rotate_right();
        assert_eq!(piece, turned);
    }
}

#[test]
fn the_o_piece_looks_the_same_after_a_turn() {
    let mut piece = Tetrimino::new(TetriminoKind::O);
    piece.rotate_left();
    assert_eq!(piece.cells, O_MINO);
    piece.rotate_right();
    piece.rotate_right();
    assert_eq!(piece.cells, O_MINO);
}

#[test]
fn points_move_by_columns_and_rows() {
    let mut point = Point::new(4, 0);
    assert_eq!(point.x, 4);
    assert_eq!(point.y, 0);
    point.add_x(3);
    assert_eq!(point, Point::new(7, 0));
    point.sub_x(7);
    assert_eq!(point, Point::new(0, 0));
    point.add_y(21);
    assert_eq!(point, Point::new(0, 21));
}

#[test]
fn points_add_coordinate_by_coordinate() {
    assert_eq!(Point::new(3, 2) + Point::new(4, 19), Point::new(7, 21));
    assert_eq!(Point::new(0, 0) + Point::new(0, 0), Point::new(0, 0));
    assert_eq!(
        Point::new(u32::MAX - 1, 5) + Point::new(1, 0),
        Point::new(u32::MAX, 5)
    );
}

#[test]
fn a_piece_starts_at_the_spawn_point_with_a_still_clock() {
    assert_eq!(ControlledTetrimino::init_position(), Point::new(4, 0));
    let piece = ControlledTetrimino::new(Tetrimino::new(TetriminoKind::S));
    assert_eq!(piece.mino, Tetrimino::new(TetriminoKind::S));
    assert_eq!(piece.position, Point::new(4, 0));
    assert_eq!(piece.speed, 1);
    assert_eq!(piece.frame, 0);
    assert_eq!(piece.last_dropped, 0);
    assert_eq!(piece.threshold, 100);
}

#[test]
fn a_controlled_piece_moves_one_column_at_a_time() {
    let mut piece = ControlledTetrimino::new(Tetrimino::new(TetriminoKind::J));
    piece.move_left();
    assert_eq!(piece.position, Point::new(3, 0));
    piece.move_right();
    piece.move_right();
    assert_eq!(piece.position, Point::new(5, 0));
    assert_eq!(piece.mino, Tetrimino::new(TetriminoKind::J));
    assert_eq!(piece.frame, 0);
}

#[test]
fn a_controlled_piece_turns_in_place() {
    let mut piece = ControlledTetrimino::new(Tetrimino::new(TetriminoKind::L));
    let mut turned = Tetrimino::new(TetriminoKind::L);
    piece.rotate_left();
    turned.rotate_left();
    assert_eq!(piece.mino, turned);
    assert_eq!(piece.position, Point::new(4, 0));
    piece.rotate_right();
    piece.rotate_right();
    turned.rotate_right();
    turned.rotate_right();
    assert_eq!(piece.mino, turned);
}

#[test]
fn the_first_tick_makes_the_piece_due() {
    let mut piece = ControlledTetrimino::new(Tetrimino::new(TetriminoKind::I));
    assert!(piece.is_dropped());
    assert_eq!(piece.frame, 1);
    assert_eq!(piece.last_dropped, 100);
    assert_eq!(piece.position, Point::new(4, 0));
}

#[test]
fn the_clock_needs_a_hundred_ticks_at_speed_one() {
    let mut piece = ControlledTetrimino::new(Tetrimino::new(TetriminoKind::I));
    assert!(piece.is_dropped());
    for tick in 2..100 {
        assert!(!piece.is_dropped());
        assert_eq!(piece.frame, tick);
        assert_eq!(piece.last_dropped, 100);
    }
    assert!(piece.is_dropped());
    assert_eq!(piece.frame, 100);
    assert_eq!(piece.last_dropped, 200);
}

#[test]
fn a_faster_clock_comes_due_sooner() {
    let mut piece = ControlledTetrimino::new(Tetrimino::new(TetriminoKind::I));
    piece.speed = 30;
    assert!(piece.is_dropped());
    assert!(!piece.is_dropped());
    assert!(!piece.is_dropped());
    assert_eq!(piece.frame, 90);
    assert!(piece.is_dropped());
    assert_eq!(piece.frame, 120);
    assert_eq!(piece.last_dropped, 200);
}

#[test]
fn gravity_drops_only_when_the_clock_is_due() {
    let mut piece = ControlledTetrimino::new(Tetrimino::new(TetriminoKind::I));
    piece.dropdown(1);
    assert_eq!(piece.position, Point::new(4, 1));
    assert_eq!(piece.frame, 1);
    piece.dropdown(1);
    assert_eq!(piece.position, Point::new(4, 1));
    assert_eq!(piece.frame, 2);
    assert_eq!(piece.last_dropped, 100);
}

#[test]
fn a_forced_drop_does_not_ask_the_clock() {
    let mut piece = ControlledTetrimino::new(Tetrimino::new(TetriminoKind::I));
    piece.drop_by_force(1);
    piece.drop_by_force(3);
    assert_eq!(piece.position, Point::new(4, 4));
    assert_eq!(piece.frame, 0);
    assert_eq!(piece.last_dropped, 0);
}

#[test]
fn regenerate_puts_the_next_piece_at_the_spawn_point_and_speeds_up() {
    let mut piece = ControlledTetrimino::new(Tetrimino::new(TetriminoKind::I));
    piece.move_left();
    piece.drop_by_force(7);
    piece.dropdown(1);
    piece.regenerate(Tetrimino::new(TetriminoKind::Z));
    assert_eq!(piece.mino, Tetrimino::new(TetriminoKind::Z));
    assert_eq!(piece.position, Point::new(4, 0));
    assert_eq!(piece.speed, 2);
    assert_eq!(piece.frame, 1);
    assert_eq!(piece.last_dropped, 100);
    assert_eq!(piece.threshold, 100);
}

#[test]
fn accel_adds_one_to_the_speed() {
    let mut piece = ControlledTetrimino::new(Tetrimino::new(TetriminoKind::I));
    piece.accel();
    piece.accel();
    assert_eq!(piece.speed, 3);
    assert_eq!(piece.position, Point::new(4, 0));
    assert_eq!(piece.frame, 0);
}
