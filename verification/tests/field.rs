use tetris_core_rs::cell::{copy_field, create_empty_field, create_row, is_free_field, is_full_row};
use tetris_core_rs::garbage::inject_garbage;
use tetris_core_rs::lines::delete_row;
use tetris_core_rs::{AttackedLine, Cell, MinoType};

#[test]
fn an_empty_field_has_the_asked_size() {
    let field = create_empty_field(10, 42);
    assert_eq!(field, vec![vec![Cell::Empty; 10]; 42]);
    assert_eq!(create_empty_field(3, 0), Vec::<Vec<Cell>>::new());
    assert_eq!(create_empty_field(0, 2), vec![Vec::<Cell>::new(); 2]);
    assert_eq!(create_row(Cell::Wall, 3), vec![Cell::Wall; 3]);
    assert!(is_free_field(&field));
}

#[test]
fn a_copy_of_a_field_holds_the_same_cells() {
    let mut field = create_empty_field(4, 3);
    field[1][2] = Cell::MinoBlock(MinoType::MinoS);
    field[2].pop();
    let copy = copy_field(&field);
    assert_eq!(copy, field);
}

#[test]
fn a_row_is_full_when_every_cell_is_clearable() {
    let block = Cell::MinoBlock(MinoType::MinoL);
    assert!(is_full_row(&vec![block, Cell::Wall, Cell::Obstruction(true)]));
    assert!(!is_full_row(&vec![block, Cell::Wall, Cell::Obstruction(false)]));
    assert!(!is_full_row(&vec![block, Cell::Empty, block]));
    assert!(!is_full_row(&vec![block, Cell::MinoInMotion(MinoType::MinoL), block]));
    assert!(!is_full_row(&vec![block, Cell::MinoGhost(MinoType::MinoL), block]));
    assert!(is_full_row(&Vec::new()));
}

#[test]
fn a_field_is_free_when_nothing_collides() {
    let mut field = create_empty_field(4, 3);
    field[2][1] = Cell::MinoGhost(MinoType::MinoT);
    field[0][0] = Cell::MinoInMotion(MinoType::MinoT);
    assert!(is_free_field(&field));
    field[1][3] = Cell::Obstruction(false);
    assert!(!is_free_field(&field));
}

#[test]
fn deleting_a_row_lets_the_rows_above_drop() {
    let mut field = create_empty_field(3, 4);
    field[0][0] = Cell::Wall;
    field[1][1] = Cell::MinoBlock(MinoType::MinoJ);
    field[2] = vec![Cell::Obstruction(true); 3];
    field[3][2] = Cell::MinoBlock(MinoType::MinoZ);
    delete_row(&mut field, 2, 3);
    assert_eq!(
        field,
        vec![
            vec![Cell::Empty, Cell::Empty, Cell::Empty],
            vec![Cell::Wall, Cell::Empty, Cell::Empty],
            vec![Cell::Empty, Cell::MinoBlock(MinoType::MinoJ), Cell::Empty],
            vec![Cell::Empty, Cell::Empty, Cell::MinoBlock(MinoType::MinoZ)],
        ]
    );
    delete_row(&mut field, 0, 3);
    assert_eq!(field[0], vec![Cell::Empty; 3]);
    assert_eq!(field[1][0], Cell::Wall);
    delete_row(&mut field, 3, 3);
    assert_eq!(
        field,
        vec![
            vec![Cell::Empty, Cell::Empty, Cell::Empty],
            vec![Cell::Empty, Cell::Empty, Cell::Empty],
            vec![Cell::Wall, Cell::Empty, Cell::Empty],
            vec![Cell::Empty, Cell::MinoBlock(MinoType::MinoJ), Cell::Empty],
        ]
    );
}

#[test]
fn garbage_comes_in_from_below() {
    let mut field = create_empty_field(4, 3);
    field[1][0] = Cell::MinoBlock(MinoType::MinoS);
    let line = AttackedLine {
        hole_indexes: Some(vec![2]),
        can_be_cleared: true,
    };
    assert!(line.has_holes_within(4));
    assert!(line.has_holes_within(3));
    assert!(!line.has_holes_within(2));
    inject_garbage(&mut field, &line, 4);
    let garbage = Cell::Obstruction(true);
    assert_eq!(
        field,
        vec![
            vec![Cell::MinoBlock(MinoType::MinoS), Cell::Empty, Cell::Empty, Cell::Empty],
            vec![Cell::Empty; 4],
            vec![garbage, garbage, Cell::Empty, garbage],
        ]
    );
    assert_eq!(line.build_row(4), vec![garbage, garbage, Cell::Empty, garbage]);
    assert_eq!(line.duplicate(), line);
    let solid = AttackedLine {
        hole_indexes: None,
        can_be_cleared: false,
    };
    assert!(solid.has_holes_within(0));
    assert_eq!(solid.build_row(2), vec![Cell::Obstruction(false); 2]);
}
