use tetris_core_rs::{
    AttackedLine, Cell, Field, LineClear, MinoQueue, MinoState, MinoType, MovementCommand,
    TetrisConfig, TetrisManager, DEFAULT_BOARD_SIZE,
};

use MinoType::{MinoI, MinoJ, MinoL, MinoO, MinoS, MinoT, MinoZ};

fn session(seed: u64) -> TetrisManager {
    TetrisManager::new(
        TetrisConfig::default(),
        &seed,
        DEFAULT_BOARD_SIZE.0,
        DEFAULT_BOARD_SIZE.1,
    )
}

fn seed_that_starts_with(mino_type: MinoType) -> u64 {
    for seed in 0..1000u64 {
        if MinoQueue::new(&seed).get_current() == mino_type {
            return seed;
        }
    }
    panic!("no seed below 1000 starts with {:?}", mino_type);
}

fn cells_of(field: &Field, wanted: Cell) -> Vec<(usize, usize)> {
    let mut found = Vec::new();
    for (y, row) in field.iter().enumerate() {
        for (x, cell) in row.iter().enumerate() {
            if *cell == wanted {
                found.push((x, y));
            }
        }
    }
    found
}

fn garbage(holes: &[usize], can_be_cleared: bool) -> MovementCommand {
    MovementCommand::Attacked(AttackedLine {
        hole_indexes: Some(holes.to_vec()),
        can_be_cleared,
    })
}

fn garbage_row(holes: &[usize], can_be_cleared: bool) -> Vec<Cell> {
    (0..10)
        .map(|x| {
            if holes.contains(&x) {
                Cell::Empty
            } else {
                Cell::Obstruction(can_be_cleared)
            }
        })
        .collect()
}

fn no_lock(state: MinoState) -> (Result<MinoState, ()>, Option<LineClear>) {
    (Ok(state), None)
}

#[test]
fn the_default_rules_are_the_standard_ones() {
    assert_eq!(
        TetrisConfig::default(),
        TetrisConfig {
            move_reset_limit: Some(15),
            appearance_position: (3, 19),
            can_hold_infinity: false,
        }
    );
    assert_eq!(DEFAULT_BOARD_SIZE, (10, 42));
}

#[test]
fn a_new_session_has_an_empty_field_and_a_piece_in_play() {
    let mut manager = session(0);
    let field = manager.get_field();
    assert_eq!(field.len(), 42);
    for row in &field {
        assert_eq!(row, &vec![Cell::Empty; 10]);
    }
    assert_eq!(manager.get_hold_mino(), None);
    assert_eq!(manager.get_minimum_y(), 42);
    assert_eq!(manager.get_mino_state(), MinoState::AirBorne);
    assert_eq!(
        manager.get_next_minos(6),
        vec![MinoI, MinoS, MinoO, MinoL, MinoT, MinoJ]
    );
    let shown = manager.get_field_to_draw();
    assert_eq!(
        cells_of(&shown, Cell::MinoInMotion(MinoZ)),
        vec![(3, 19), (4, 19), (4, 20), (5, 20)]
    );
}

#[test]
fn a_session_may_have_any_size_that_lets_pieces_spawn() {
    let config = TetrisConfig {
        move_reset_limit: None,
        appearance_position: (0, 1),
        can_hold_infinity: true,
    };
    let manager = TetrisManager::new(config, &"small", 4, 6);
    let field = manager.get_field();
    assert_eq!(field.len(), 6);
    assert!(field.iter().all(|row| row.len() == 4));
    assert_eq!(manager.get_minimum_y(), 6);
}

#[test]
fn the_spawn_point_of_the_square_is_one_row_higher() {
    let manager = session(0);
    assert_eq!(manager.get_spawn_point(MinoO), (3, 18));
    for mino_type in [MinoI, MinoS, MinoZ, MinoJ, MinoL, MinoT] {
        assert_eq!(manager.get_spawn_point(mino_type), (3, 19));
    }
}

#[test]
fn a_hard_drop_of_the_long_bar_on_an_empty_field_clears_nothing() {
    let seed = seed_that_starts_with(MinoI);
    let mut manager = session(seed);
    let following = manager.get_next_minos(1)[0];
    let outcome = manager.command(MovementCommand::HardDrop);
    assert_eq!(
        outcome,
        (
            Ok(MinoState::AirBorne),
            Some(LineClear {
                cleared_line_count: None,
                is_perfect: false,
                mino_type: MinoI,
                is_spin: false,
                is_spin_mini: false,
            })
        )
    );
    let field = manager.get_field();
    assert_eq!(
        cells_of(&field, Cell::MinoBlock(MinoI)),
        vec![(3, 41), (4, 41), (5, 41), (6, 41)]
    );
    assert_eq!(cells_of(&field, Cell::Empty).len(), 416);
    assert_eq!(manager.get_minimum_y(), 41);
    let shown = manager.get_field_to_draw();
    assert_eq!(cells_of(&shown, Cell::MinoInMotion(following)).len(), 4);
}

#[test]
fn a_piece_that_completes_a_row_clears_it() {
    let mut manager = session(0);
    assert_eq!(
        manager.command(garbage(&[3, 4, 5, 6], true)),
        no_lock(MinoState::AirBorne)
    );
    for _ in 0..3 {
        assert_eq!(
            manager.command(MovementCommand::Left),
            no_lock(MinoState::AirBorne)
        );
    }
    let first = manager.command(MovementCommand::HardDrop);
    assert_eq!(
        first,
        (
            Ok(MinoState::AirBorne),
            Some(LineClear {
                cleared_line_count: None,
                is_perfect: false,
                mino_type: MinoZ,
                is_spin: false,
                is_spin_mini: false,
            })
        )
    );
    let field = manager.get_field();
    assert_eq!(field[41], garbage_row(&[3, 4, 5, 6], true));
    assert_eq!(
        cells_of(&field, Cell::MinoBlock(MinoZ)),
        vec![(0, 39), (1, 39), (1, 40), (2, 40)]
    );
    let second = manager.command(MovementCommand::HardDrop);
    assert_eq!(
        second,
        (
            Ok(MinoState::AirBorne),
            Some(LineClear {
                cleared_line_count: Some(1),
                is_perfect: false,
                mino_type: MinoI,
                is_spin: false,
                is_spin_mini: false,
            })
        )
    );
    let field = manager.get_field();
    assert_eq!(
        cells_of(&field, Cell::MinoBlock(MinoZ)),
        vec![(0, 40), (1, 40), (1, 41), (2, 41)]
    );
    assert_eq!(cells_of(&field, Cell::Empty).len(), 416);
    assert_eq!(field[0], vec![Cell::Empty; 10]);
}

#[test]
fn a_row_with_garbage_that_cannot_be_cleared_stays() {
    let mut manager = session(0);
    manager.command(garbage(&[3, 4, 5, 6], false));
    for _ in 0..3 {
        manager.command(MovementCommand::Left);
    }
    manager.command(MovementCommand::HardDrop);
    let outcome = manager.command(MovementCommand::HardDrop);
    assert_eq!(
        outcome.1,
        Some(LineClear {
            cleared_line_count: None,
            is_perfect: false,
            mino_type: MinoI,
            is_spin: false,
            is_spin_mini: false,
        })
    );
    let field = manager.get_field();
    let mut expected = garbage_row(&[3, 4, 5, 6], false);
    for x in 3..7 {
        expected[x] = Cell::MinoBlock(MinoI);
    }
    assert_eq!(field[41], expected);
}

#[test]
fn a_full_row_of_clearable_garbage_goes_with_the_next_lock() {
    let mut manager = session(0);
    manager.command(MovementCommand::Attacked(AttackedLine {
        hole_indexes: None,
        can_be_cleared: true,
    }));
    let first = manager.command(MovementCommand::HardDrop);
    assert_eq!(first.1.map(|clear| clear.cleared_line_count), Some(None));
    assert_eq!(manager.get_field()[41], vec![Cell::Obstruction(true); 10]);
    let second = manager.command(MovementCommand::HardDrop);
    assert_eq!(second.1.map(|clear| clear.cleared_line_count), Some(Some(1)));
    let field = manager.get_field();
    assert_eq!(cells_of(&field, Cell::Obstruction(true)), vec![]);
    assert_eq!(
        cells_of(&field, Cell::MinoBlock(MinoZ)),
        vec![(3, 40), (4, 40), (4, 41), (5, 41)]
    );
    assert_eq!(
        cells_of(&field, Cell::MinoBlock(MinoI)),
        vec![(3, 39), (4, 39), (5, 39), (6, 39)]
    );
}

#[test]
fn waiting_garbage_comes_in_with_the_next_lock_in_the_order_it_was_sent() {
    let mut manager = session(0);
    assert_eq!(manager.command(garbage(&[1], true)), no_lock(MinoState::AirBorne));
    assert_eq!(manager.command(garbage(&[8], false)), no_lock(MinoState::AirBorne));
    assert_eq!(cells_of(&manager.get_field(), Cell::Empty).len(), 420);
    assert_eq!(manager.command(MovementCommand::Down), no_lock(MinoState::AirBorne));
    assert_eq!(cells_of(&manager.get_field(), Cell::Empty).len(), 420);
    let outcome = manager.command(MovementCommand::Lock);
    assert_eq!(
        outcome,
        (
            Ok(MinoState::AirBorne),
            Some(LineClear {
                cleared_line_count: None,
                is_perfect: false,
                mino_type: MinoZ,
                is_spin: false,
                is_spin_mini: false,
            })
        )
    );
    let field = manager.get_field();
    assert_eq!(field.len(), 42);
    assert_eq!(field[40], garbage_row(&[1], true));
    assert_eq!(field[41], garbage_row(&[8], false));
    assert_eq!(
        cells_of(&field, Cell::MinoBlock(MinoZ)),
        vec![(3, 18), (4, 18), (4, 19), (5, 19)]
    );
    assert_eq!(cells_of(&field, Cell::Empty).len(), 420 - 4 - 18);
    manager.command(MovementCommand::HardDrop);
    let field = manager.get_field();
    assert_eq!(field[40], garbage_row(&[1], true));
    assert_eq!(field[41], garbage_row(&[8], false));
}

#[test]
fn garbage_with_several_holes_and_with_none() {
    let mut manager = session(0);
    manager.command(garbage(&[0, 9, 4, 4], true));
    manager.command(garbage(&[], false));
    manager.command(MovementCommand::HardDrop);
    let field = manager.get_field();
    assert_eq!(field[40], garbage_row(&[0, 4, 9], true));
    assert_eq!(field[41], vec![Cell::Obstruction(false); 10]);
}

#[test]
fn a_second_hold_before_the_next_lock_does_nothing() {
    let mut manager = session(0);
    assert_eq!(
        manager.command(MovementCommand::Hold),
        no_lock(MinoState::AirBorne)
    );
    assert_eq!(manager.get_hold_mino(), Some(MinoZ));
    assert_eq!(
        cells_of(&manager.get_field_to_draw(), Cell::MinoInMotion(MinoI)),
        vec![(3, 20), (4, 20), (5, 20), (6, 20)]
    );
    assert_eq!(manager.command(MovementCommand::Left), no_lock(MinoState::AirBorne));
    let shown = manager.get_field_to_draw();
    let nexts = manager.get_next_minos(5);
    assert_eq!(
        manager.command(MovementCommand::Hold),
        no_lock(MinoState::AirBorne)
    );
    assert_eq!(manager.get_hold_mino(), Some(MinoZ));
    assert_eq!(manager.get_field_to_draw(), shown);
    assert_eq!(manager.get_next_minos(5), nexts);
    assert_eq!(nexts, vec![MinoS, MinoO, MinoL, MinoT, MinoJ]);
}

#[test]
fn a_hold_is_allowed_again_after_a_lock() {
    let mut manager = session(0);
    manager.command(MovementCommand::Hold);
    manager.command(MovementCommand::HardDrop);
    assert_eq!(manager.get_hold_mino(), Some(MinoZ));
    assert_eq!(
        manager.command(MovementCommand::Hold),
        no_lock(MinoState::AirBorne)
    );
    assert_eq!(manager.get_hold_mino(), Some(MinoS));
    assert_eq!(
        cells_of(&manager.get_field_to_draw(), Cell::MinoInMotion(MinoZ)),
        vec![(3, 19), (4, 19), (4, 20), (5, 20)]
    );
    assert_eq!(manager.get_next_minos(2), vec![MinoO, MinoL]);
}

#[test]
fn a_hold_respawns_the_piece_where_pieces_appear() {
    let mut manager = session(0);
    for _ in 0..5 {
        manager.command(MovementCommand::Down);
    }
    manager.command(MovementCommand::Right);
    manager.command(MovementCommand::Hold);
    manager.command(MovementCommand::HardDrop);
    manager.command(MovementCommand::Hold);
    assert_eq!(
        cells_of(&manager.get_field_to_draw(), Cell::MinoInMotion(MinoZ)),
        vec![(3, 19), (4, 19), (4, 20), (5, 20)]
    );
}

#[test]
fn holds_without_end_swap_back_and_forth() {
    let config = TetrisConfig {
        can_hold_infinity: true,
        ..TetrisConfig::default()
    };
    let mut manager = TetrisManager::new(config, &0u64, 10, 42);
    manager.command(MovementCommand::Hold);
    assert_eq!(manager.get_hold_mino(), Some(MinoZ));
    manager.command(MovementCommand::Hold);
    assert_eq!(manager.get_hold_mino(), Some(MinoI));
    manager.command(MovementCommand::Hold);
    assert_eq!(manager.get_hold_mino(), Some(MinoZ));
    assert_eq!(manager.get_next_minos(1), vec![MinoS]);
}

#[test]
fn moves_and_turns_act_on_the_piece_in_play() {
    let mut manager = session(0);
    manager.command(MovementCommand::Right);
    manager.command(MovementCommand::Down);
    manager.command(MovementCommand::RotateClockWise);
    assert_eq!(
        cells_of(&manager.get_field_to_draw(), Cell::MinoInMotion(MinoZ)),
        vec![(6, 20), (5, 21), (6, 21), (5, 22)]
    );
    manager.command(MovementCommand::RotateCounterClockWise);
    manager.command(MovementCommand::Rotate180);
    assert_eq!(
        cells_of(&manager.get_field_to_draw(), Cell::MinoInMotion(MinoZ)),
        vec![(4, 21), (5, 21), (5, 22), (6, 22)]
    );
    assert_eq!(cells_of(&manager.get_field(), Cell::Empty).len(), 420);
}

#[test]
fn the_field_to_draw_shows_the_ghost_under_the_piece() {
    let manager = session(0);
    let shown = manager.get_field_to_draw();
    assert_eq!(
        cells_of(&shown, Cell::MinoGhost(MinoZ)),
        vec![(3, 40), (4, 40), (4, 41), (5, 41)]
    );
    assert_eq!(
        cells_of(&shown, Cell::MinoInMotion(MinoZ)),
        vec![(3, 19), (4, 19), (4, 20), (5, 20)]
    );
    assert_eq!(cells_of(&shown, Cell::Empty).len(), 412);
    assert_eq!(cells_of(&manager.get_field(), Cell::Empty).len(), 420);
}

#[test]
fn the_piece_is_drawn_over_its_ghost() {
    let mut manager = session(0);
    for _ in 0..20 {
        manager.command(MovementCommand::Down);
    }
    let shown = manager.get_field_to_draw();
    assert_eq!(
        cells_of(&shown, Cell::MinoInMotion(MinoZ)),
        vec![(3, 39), (4, 39), (4, 40), (5, 40)]
    );
    assert_eq!(
        cells_of(&shown, Cell::MinoGhost(MinoZ)),
        vec![(3, 40), (4, 41), (5, 41)]
    );
}

#[test]
fn the_preview_flags_where_the_next_piece_will_appear() {
    let mut manager = session(0);
    let flagged = manager.get_field_to_draw_with_preview_next_mino();
    let shown = manager.get_field_to_draw();
    assert_eq!(flagged.len(), 42);
    for y in 0..42 {
        assert_eq!(flagged[y].len(), 10);
        for x in 0..10 {
            let covered = y == 20 && (3..7).contains(&x);
            assert_eq!(flagged[y][x], (covered, shown[y][x]));
        }
    }
    assert_eq!(flagged[20][4], (true, Cell::MinoInMotion(MinoZ)));
    assert_eq!(flagged[20][3], (true, Cell::Empty));
    assert_eq!(flagged[19][3], (false, Cell::MinoInMotion(MinoZ)));
    assert_eq!(manager.get_next_minos(1), vec![MinoI]);
}

#[test]
fn a_soft_drop_to_the_floor_does_not_lock() {
    let mut manager = session(0);
    for _ in 0..20 {
        assert_eq!(manager.command(MovementCommand::Down), no_lock(MinoState::AirBorne));
    }
    assert_eq!(
        manager.command(MovementCommand::Down),
        no_lock(MinoState::JustLanded)
    );
    assert_eq!(
        manager.command(MovementCommand::Down),
        no_lock(MinoState::Grounded)
    );
    assert_eq!(manager.get_mino_state(), MinoState::Grounded);
    assert_eq!(cells_of(&manager.get_field(), Cell::Empty).len(), 420);
    let outcome = manager.command(MovementCommand::Lock);
    assert_eq!(outcome.0, Ok(MinoState::AirBorne));
    assert_eq!(
        cells_of(&manager.get_field(), Cell::MinoBlock(MinoZ)),
        vec![(3, 40), (4, 40), (4, 41), (5, 41)]
    );
}

#[test]
fn the_status_check_of_the_session_turns_a_landing_stale() {
    let mut manager = session(0);
    for _ in 0..21 {
        manager.command(MovementCommand::Down);
    }
    manager.command(MovementCommand::Left);
    assert_eq!(manager.get_mino_state(), MinoState::Grounded);
    assert_eq!(manager.get_mino_state(), MinoState::Grounded);
}

#[test]
fn a_grounded_piece_locks_itself_once_the_move_budget_is_exceeded() {
    let mut manager = session(0);
    for _ in 0..21 {
        manager.command(MovementCommand::Down);
    }
    for step in 0..15 {
        let command = if step % 2 == 0 {
            MovementCommand::Left
        } else {
            MovementCommand::Right
        };
        assert_eq!(manager.command(command), no_lock(MinoState::JustLanded));
    }
    assert_eq!(cells_of(&manager.get_field(), Cell::Empty).len(), 420);
    let outcome = manager.command(MovementCommand::Right);
    assert_eq!(
        outcome,
        (
            Ok(MinoState::AirBorne),
            Some(LineClear {
                cleared_line_count: None,
                is_perfect: false,
                mino_type: MinoZ,
                is_spin: false,
                is_spin_mini: false,
            })
        )
    );
    assert_eq!(
        cells_of(&manager.get_field(), Cell::MinoBlock(MinoZ)),
        vec![(2, 40), (3, 40), (3, 41), (4, 41)]
    );
}

#[test]
fn without_a_move_limit_a_grounded_piece_never_locks_itself() {
    let config = TetrisConfig {
        move_reset_limit: None,
        ..TetrisConfig::default()
    };
    let mut manager = TetrisManager::new(config, &0u64, 10, 42);
    manager.command(MovementCommand::HardDrop);
    for _ in 0..21 {
        manager.command(MovementCommand::Down);
    }
    for _ in 0..50 {
        assert_eq!(
            manager.command(MovementCommand::Left).1,
            None
        );
        assert_eq!(
            manager.command(MovementCommand::Right).1,
            None
        );
    }
    assert_eq!(cells_of(&manager.get_field(), Cell::MinoBlock(MinoI)), vec![]);
}

#[test]
fn a_row_across_a_narrow_field_is_a_perfect_clear() {
    let config = TetrisConfig {
        move_reset_limit: Some(15),
        appearance_position: (0, 1),
        can_hold_infinity: false,
    };
    let seed = seed_that_starts_with(MinoI);
    let mut manager = TetrisManager::new(config, &seed, 4, 8);
    let outcome = manager.command(MovementCommand::HardDrop);
    assert_eq!(
        outcome.1,
        Some(LineClear {
            cleared_line_count: Some(1),
            is_perfect: true,
            mino_type: MinoI,
            is_spin: false,
            is_spin_mini: false,
        })
    );
    assert!(outcome.0.is_ok());
    let field = manager.get_field();
    assert_eq!(field, vec![vec![Cell::Empty; 4]; 8]);
    assert_eq!(manager.get_minimum_y(), 8);
}

#[test]
fn the_topmost_occupied_row_is_found() {
    let mut manager = session(0);
    assert_eq!(manager.get_minimum_y(), 42);
    manager.command(MovementCommand::HardDrop);
    assert_eq!(manager.get_minimum_y(), 40);
    manager.command(MovementCommand::HardDrop);
    assert_eq!(manager.get_minimum_y(), 39);
    manager.command(garbage(&[0], true));
    manager.command(MovementCommand::HardDrop);
    assert_eq!(manager.get_minimum_y(), 36);
}

#[test]
fn a_field_that_is_full_to_the_spawn_rows_ends_the_session() {
    let mut manager = session(0);
    let mut locks = 0;
    let failure = loop {
        let outcome = manager.command(MovementCommand::HardDrop);
        locks += 1;
        assert!(outcome.1.is_some());
        if outcome.0.is_err() {
            break outcome;
        }
        assert!(locks < 40);
    };
    assert_eq!(failure.0, Err(()));
    let clear = match failure.1 {
        Some(clear) => clear,
        None => panic!("a lock reports what it did"),
    };
    assert_eq!(clear.cleared_line_count, None);
    assert!(locks > 5);
    let field = manager.get_field();
    assert_eq!(field.len(), 42);
    assert!(manager.get_minimum_y() <= 21);
    let blocks = field
        .iter()
        .flatten()
        .filter(|cell| matches!(cell, Cell::MinoBlock(_)))
        .count();
    assert_eq!(blocks, 4 * locks);
}

#[test]
fn garbage_can_push_the_stack_into_the_spawn_rows() {
    let mut manager = session(0);
    for _ in 0..20 {
        assert_eq!(
            manager.command(garbage(&[9], false)),
            no_lock(MinoState::AirBorne)
        );
    }
    let outcome = manager.command(MovementCommand::HardDrop);
    assert_eq!(
        outcome,
        (
            Err(()),
            Some(LineClear {
                cleared_line_count: None,
                is_perfect: false,
                mino_type: MinoZ,
                is_spin: false,
                is_spin_mini: false,
            })
        )
    );
    let field = manager.get_field();
    for y in 22..42 {
        assert_eq!(field[y], garbage_row(&[9], false));
    }
    assert_eq!(
        cells_of(&field, Cell::MinoBlock(MinoZ)),
        vec![(3, 20), (4, 20), (4, 21), (5, 21)]
    );
    assert_eq!(manager.get_minimum_y(), 20);
    assert_eq!(manager.get_next_minos(1), vec![MinoS]);
}

#[test]
fn the_same_seed_and_commands_give_the_same_game() {
    let commands = [
        MovementCommand::Left,
        MovementCommand::RotateClockWise,
        MovementCommand::HardDrop,
        garbage(&[2, 7], true),
        MovementCommand::Hold,
        MovementCommand::Right,
        MovementCommand::Right,
        MovementCommand::Rotate180,
        MovementCommand::Down,
        MovementCommand::HardDrop,
        MovementCommand::RotateCounterClockWise,
        MovementCommand::Down,
        MovementCommand::Down,
        MovementCommand::Down,
        MovementCommand::Down,
        MovementCommand::Lock,
        MovementCommand::Hold,
        MovementCommand::HardDrop,
    ];
    let mut first = session(42);
    let mut second = session(42);
    for command in commands {
        let one = first.command(command.clone());
        let two = second.command(command);
        assert_eq!(one, two);
        assert!(one.0.is_ok());
        assert_eq!(first.get_field(), second.get_field());
        assert_eq!(first.get_field_to_draw(), second.get_field_to_draw());
        assert_eq!(first.get_hold_mino(), second.get_hold_mino());
    }
    assert_eq!(first.get_next_minos(20), second.get_next_minos(20));
}

#[test]
fn a_copy_of_a_session_plays_the_same_game() {
    let mut manager = session(5);
    manager.command(garbage(&[3], true));
    manager.command(MovementCommand::HardDrop);
    manager.command(MovementCommand::Hold);
    manager.command(garbage(&[6], false));
    let mut copy = manager.clone();
    assert_eq!(copy.get_field(), manager.get_field());
    assert_eq!(copy.get_hold_mino(), manager.get_hold_mino());
    for command in [
        MovementCommand::Left,
        MovementCommand::HardDrop,
        MovementCommand::HardDrop,
    ] {
        assert_eq!(copy.command(command.clone()), manager.command(command));
        assert_eq!(copy.get_field(), manager.get_field());
    }
    assert_eq!(copy.get_next_minos(10), manager.get_next_minos(10));
}

#[test]
fn the_default_session_waits_with_a_square_in_the_corner() {
    let mut manager = TetrisManager::default();
    assert_eq!(manager.get_field(), vec![vec![Cell::Empty; 10]; 42]);
    assert_eq!(manager.get_hold_mino(), None);
    assert_eq!(manager.get_mino_state(), MinoState::AirBorne);
    assert_eq!(
        cells_of(&manager.get_field_to_draw(), Cell::MinoInMotion(MinoO)),
        vec![(1, 1), (2, 1), (1, 2), (2, 2)]
    );
    assert_eq!(manager.get_spawn_point(MinoT), (3, 19));
}

#[test]
fn garbage_is_released_on_demand() {
    let mut manager = session(0);
    manager.command(MovementCommand::HardDrop);
    manager.command(garbage(&[5], true));
    manager.release_stock_attacked_line();
    let field = manager.get_field();
    assert_eq!(field[41], garbage_row(&[5], true));
    assert_eq!(
        cells_of(&field, Cell::MinoBlock(MinoZ)),
        vec![(3, 39), (4, 39), (4, 40), (5, 40)]
    );
    manager.release_stock_attacked_line();
    assert_eq!(manager.get_field(), field);
    assert_eq!(manager.spawn_current_mino(), Ok(()));
    assert_eq!(
        cells_of(&manager.get_field_to_draw(), Cell::MinoInMotion(MinoI)),
        vec![(3, 20), (4, 20), (5, 20), (6, 20)]
    );
    let _ = (MinoJ, MinoL, MinoT);
}

#[test]
fn a_hold_fails_when_the_piece_that_comes_in_does_not_fit() {
    let mut manager = session(0);
    manager.command(garbage(&[0, 1, 2, 3, 4, 5, 6, 7, 8, 9], true));
    for _ in 0..21 {
        manager.command(garbage(&[9], false));
    }
    let locked = manager.command(MovementCommand::HardDrop);
    assert_eq!(locked.0, Ok(MinoState::JustLanded));
    let field = manager.get_field();
    assert_eq!(
        cells_of(&field, Cell::MinoBlock(MinoZ)),
        vec![(3, 18), (4, 18), (4, 19), (5, 19)]
    );
    assert_eq!(field[20], vec![Cell::Empty; 10]);
    assert_eq!(field[21], garbage_row(&[9], false));
    let held = manager.command(MovementCommand::Hold);
    assert_eq!(held, (Err(()), None));
    assert_eq!(manager.get_hold_mino(), Some(MinoI));
    assert_eq!(manager.get_field(), field);
    assert_eq!(manager.get_next_minos(1), vec![MinoO]);
}

#[test]
fn a_t_spin_into_a_slot_clears_two_rows_and_is_reported() {
    let mut manager = session(0);
    manager.command(garbage(&[4, 5], true));
    manager.command(garbage(&[3, 4, 5], true));
    manager.command(garbage(&[4], true));
    for _ in 0..4 {
        manager.command(MovementCommand::Right);
    }
    assert!(manager.command(MovementCommand::HardDrop).0.is_ok());
    let field = manager.get_field();
    assert_eq!(field[39], garbage_row(&[4, 5], true));
    assert_eq!(field[40], garbage_row(&[3, 4, 5], true));
    assert_eq!(field[41], garbage_row(&[4], true));
    assert_eq!(manager.command(MovementCommand::Hold), no_lock(MinoState::AirBorne));
    for _ in 0..3 {
        manager.command(MovementCommand::Left);
    }
    assert!(manager.command(MovementCommand::HardDrop).0.is_ok());
    for _ in 0..4 {
        manager.command(MovementCommand::Right);
    }
    assert!(manager.command(MovementCommand::HardDrop).0.is_ok());
    for _ in 0..3 {
        manager.command(MovementCommand::Left);
    }
    assert!(manager.command(MovementCommand::HardDrop).0.is_ok());
    assert_eq!(
        cells_of(&manager.get_field_to_draw(), Cell::MinoInMotion(MinoT)),
        vec![(4, 19), (3, 20), (4, 20), (5, 20)]
    );
    manager.command(MovementCommand::RotateClockWise);
    for _ in 0..19 {
        assert_eq!(manager.command(MovementCommand::Down), no_lock(MinoState::AirBorne));
    }
    assert_eq!(
        manager.command(MovementCommand::Down),
        no_lock(MinoState::JustLanded)
    );
    assert_eq!(
        manager.command(MovementCommand::RotateClockWise),
        no_lock(MinoState::JustLanded)
    );
    assert_eq!(
        cells_of(&manager.get_field_to_draw(), Cell::MinoInMotion(MinoT)),
        vec![(3, 40), (4, 40), (5, 40), (4, 41)]
    );
    let outcome = manager.command(MovementCommand::HardDrop);
    assert_eq!(
        outcome,
        (
            Ok(MinoState::AirBorne),
            Some(LineClear {
                cleared_line_count: Some(2),
                is_perfect: false,
                mino_type: MinoT,
                is_spin: true,
                is_spin_mini: false,
            })
        )
    );
    let field = manager.get_field();
    assert_eq!(field[41], garbage_row(&[4, 5], true));
    assert_eq!(cells_of(&field, Cell::MinoBlock(MinoT)), vec![]);
    assert_eq!(field[0], vec![Cell::Empty; 10]);
    assert_eq!(field[1], vec![Cell::Empty; 10]);
}

#[test]
fn a_turn_into_a_slot_without_an_overhang_is_no_spin() {
    let mut manager = session(0);
    manager.command(garbage(&[3, 4, 5], true));
    manager.command(garbage(&[3, 4, 5], true));
    manager.command(garbage(&[4], true));
    for _ in 0..4 {
        manager.command(MovementCommand::Right);
    }
    manager.command(MovementCommand::HardDrop);
    manager.command(MovementCommand::Hold);
    for side in [MovementCommand::Left, MovementCommand::Right, MovementCommand::Left] {
        for _ in 0..3 {
            manager.command(side.clone());
        }
        manager.command(MovementCommand::HardDrop);
    }
    manager.command(MovementCommand::RotateClockWise);
    for _ in 0..20 {
        manager.command(MovementCommand::Down);
    }
    manager.command(MovementCommand::RotateClockWise);
    assert_eq!(
        cells_of(&manager.get_field_to_draw(), Cell::MinoInMotion(MinoT)),
        vec![(3, 40), (4, 40), (5, 40), (4, 41)]
    );
    let outcome = manager.command(MovementCommand::Lock);
    assert_eq!(
        outcome.1,
        Some(LineClear {
            cleared_line_count: Some(2),
            is_perfect: false,
            mino_type: MinoT,
            is_spin: false,
            is_spin_mini: false,
        })
    );
}
