use space_invaders::chance::{flip_coin, roll_percent};
use space_invaders::cooldown::has_elapsed;
use space_invaders::coords::Position;
use space_invaders::layers::{base_layer, bullet_render_layer, star_render_layer};

#[test]
fn percent_roll_stays_in_range() {
    for _ in 0..500 {
        let roll = roll_percent();
        assert!(1 <= roll && roll <= 100);
    }
}

#[test]
fn coin_has_two_sides() {
    let mut seen = [false, false];
    for _ in 0..500 {
        let side = flip_coin();
        assert!(side <= 1);
        seen[side as usize] = true;
    }
    assert!(seen[0] && seen[1]);
}

#[test]
fn unit_steps_are_those_of_the_engine() {
    assert_eq!(Position::zero(), Position { x: 0, y: 0 });
    assert_eq!(Position::left(), Position { x: -1, y: 0 });
    assert_eq!(Position::right(), Position { x: 1, y: 0 });
    assert_eq!(Position::up(), Position { x: 0, y: 1 });
    assert_eq!(Position::down(), Position { x: 0, y: -1 });
    assert_eq!(Position::new(3, -4), Position { x: 3, y: -4 });
}

#[test]
fn translate_adds_coordinate_by_coordinate() {
    let from = Position { x: 7, y: -2 };
    let delta = Position { x: -3, y: 5 };
    assert_eq!(from.translate(&delta), Position { x: 4, y: 3 });
    assert_eq!(from.translate(&Position::zero()), from);
    assert_eq!(from.translate(&Position::up()), Position { x: 7, y: -1 });
}

#[test]
fn fits_tells_when_a_sum_leaves_the_grid() {
    let edge = Position { x: i64::MAX, y: i64::MIN };
    assert!(!edge.fits(&Position::right()));
    assert!(!edge.fits(&Position::down()));
    assert!(edge.fits(&Position::left()));
    assert!(edge.fits(&Position::up()));
    assert!(edge.fits(&Position::zero()));
}

#[test]
fn named_layers_have_their_numbers() {
    assert_eq!(base_layer(), 0);
    assert_eq!(bullet_render_layer(), -1);
    assert_eq!(star_render_layer(), i32::MIN + 1);
}

#[test]
fn a_cooldown_expires_when_the_reading_reaches_the_wait() {
    assert!(!has_elapsed(0, 50));
    assert!(!has_elapsed(49, 50));
    assert!(has_elapsed(50, 50));
    assert!(has_elapsed(51, 50));
    assert!(has_elapsed(0, 0));
}
