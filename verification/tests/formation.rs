use space_invaders::coords::Position;
use space_invaders::formation::{checked_enemy_x_pos, get_enemy_x_pos, Formation};

#[test]
fn works_with_odd_screen_width_odd_padding_and_odd_enemies() {
    assert_eq!(get_enemy_x_pos(13, 1, 5, 0), 2);
    assert_eq!(get_enemy_x_pos(13, 1, 5, 2), 6);
    assert_eq!(get_enemy_x_pos(13, 1, 5, 4), 10);
}

#[test]
fn works_with_odd_screen_width_odd_padding_and_even_enemies() {
    assert_eq!(get_enemy_x_pos(5, 1, 2, 0), 1);
    assert_eq!(get_enemy_x_pos(5, 1, 2, 1), 3);
}

#[test]
fn works_with_odd_screen_width_even_padding_and_odd_enemies() {
    assert_eq!(get_enemy_x_pos(7, 2, 3, 0), 0);
    assert_eq!(get_enemy_x_pos(7, 2, 3, 1), 3);
    assert_eq!(get_enemy_x_pos(7, 2, 3, 2), 6);
}

#[test]
fn works_with_even_screen_width_even_padding_and_even_enemies() {
    assert_eq!(get_enemy_x_pos(6, 2, 2, 0), 1);
    assert_eq!(get_enemy_x_pos(6, 2, 2, 1), 4);
}

#[test]
fn checked_position_agrees_with_the_formula() {
    assert_eq!(checked_enemy_x_pos(13, 1, 5, 4), Some(10));
    assert_eq!(checked_enemy_x_pos(6, 2, 2, 1), Some(4));
    assert_eq!(checked_enemy_x_pos(50, 2, 10, 0), Some(11));
    assert_eq!(checked_enemy_x_pos(50, 2, 10, 9), Some(38));
}

#[test]
fn checked_position_refuses_what_cannot_be_placed() {
    // no screen, no enemy
    assert_eq!(checked_enemy_x_pos(0, 1, 5, 0), None);
    assert_eq!(checked_enemy_x_pos(13, 1, 0, 0), None);
    // a row wider than the screen
    assert_eq!(checked_enemy_x_pos(5, 2, 3, 0), None);
    // numbers that leave u64
    assert_eq!(checked_enemy_x_pos(13, u64::MAX, 5, 0), None);
    assert_eq!(checked_enemy_x_pos(u64::MAX, u64::MAX - 1, 3, 0), None);
    assert_eq!(checked_enemy_x_pos(13, 1, 5, u64::MAX), None);
}

#[test]
fn a_single_enemy_stands_on_the_center_cell() {
    assert_eq!(get_enemy_x_pos(13, 1, 1, 0), 6);
    assert_eq!(get_enemy_x_pos(1, 0, 1, 0), 0);
    assert_eq!(get_enemy_x_pos(6, 3, 1, 0), 2);
}

#[test]
fn rows_are_centered_up_to_one_cell() {
    for width in 1u64..40 {
        for padding in 0u64..4 {
            for cols in 1u64..8 {
                let first = checked_enemy_x_pos(width, padding, cols, 0);
                let last = checked_enemy_x_pos(width, padding, cols, cols - 1);
                if let (Some(first), Some(last)) = (first, last) {
                    let center = (width - 1) / 2;
                    let right_gap = last - center;
                    let left_gap = center - first;
                    assert!(right_gap == left_gap || right_gap == left_gap + 1);
                    assert_eq!(last - first, cols + (cols - 1) * padding - 1);
                }
            }
        }
    }
}

#[test]
fn formation_cells_come_row_by_row() {
    let formation = Formation {
        total_area_width: 13,
        padding: 1,
        num_enemies_in_row: 5,
        num_rows: 2,
        row_origin: 1,
        row_padding: 2,
    };
    assert!(formation.is_placeable());
    let cells = formation.cells();
    assert_eq!(cells.len(), 10);
    assert_eq!(cells[0], Position { x: 2, y: 1 });
    assert_eq!(cells[1], Position { x: 4, y: 1 });
    assert_eq!(cells[4], Position { x: 10, y: 1 });
    assert_eq!(cells[5], Position { x: 2, y: 3 });
    assert_eq!(cells[9], Position { x: 10, y: 3 });
    assert_eq!(formation.cell(1, 2), Position { x: 6, y: 3 });
}

#[test]
fn formations_that_do_not_fit_are_not_placeable() {
    let too_wide = Formation {
        total_area_width: 5,
        padding: 2,
        num_enemies_in_row: 3,
        num_rows: 1,
        row_origin: 0,
        row_padding: 1,
    };
    assert!(!too_wide.is_placeable());
    let no_columns = Formation {
        total_area_width: 5,
        padding: 2,
        num_enemies_in_row: 0,
        num_rows: 1,
        row_origin: 0,
        row_padding: 1,
    };
    assert!(!no_columns.is_placeable());
    let too_low = Formation {
        total_area_width: 13,
        padding: 1,
        num_enemies_in_row: 5,
        num_rows: 2,
        row_origin: u64::MAX,
        row_padding: 2,
    };
    assert!(!too_low.is_placeable());
}

#[test]
fn a_formation_without_rows_has_no_cells() {
    let formation = Formation {
        total_area_width: 13,
        padding: 1,
        num_enemies_in_row: 5,
        num_rows: 0,
        row_origin: 0,
        row_padding: 1,
    };
    assert!(formation.is_placeable());
    assert_eq!(formation.cells().len(), 0);
}
