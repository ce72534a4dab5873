use space_invaders::behaviours::commands::{Blueprint, Command, CommandQueue};
use space_invaders::behaviours::enemy_spawner_behaviour::{
    can_move_left, can_move_right, enemy_id, get_leftmost_enemy_pos, get_rightmost_enemy_pos,
    march_displacement, spawner_formation, EnemySpawnerBehaviour,
};
use space_invaders::behaviours::messages::{
    ChangeTextPayload, EnemyDiedPayload, Message, MoveEnemyPayload,
};
use space_invaders::behaviours::text_behaviour::TextBehaviour;
use space_invaders::coords::Position;
use space_invaders::entities::{make_char_entity, make_enemy};
use std::time::{Duration, Instant};

fn pause(millis: u64) {
    let start = Instant::now();
    while start.elapsed() < Duration::from_millis(millis) {}
}

fn died(id: &str) -> Message {
    Message::EnemyDied(EnemyDiedPayload { enemy_id: id.to_string() })
}

fn change_text(text: &str) -> Message {
    Message::ChangeText(ChangeTextPayload { new_text: text.to_string() })
}

fn at(x: i64, y: i64) -> Position {
    Position { x, y }
}

#[test]
fn enemies_are_numbered() {
    assert_eq!(enemy_id(0), "enemy-0");
    assert_eq!(enemy_id(35), "enemy-35");
    assert_eq!(enemy_id(u64::MAX), "enemy-18446744073709551615");
}

#[test]
fn the_spawner_formation_is_twelve_by_three() {
    let formation = spawner_formation();
    assert!(formation.is_placeable());
    let cells = formation.cells();
    assert_eq!(cells.len(), 36);
    assert_eq!(cells[0], at(8, 1));
    assert_eq!(cells[1], at(11, 1));
    assert_eq!(cells[11], at(41, 1));
    assert_eq!(cells[12], at(8, 3));
    assert_eq!(cells[35], at(41, 5));
}

#[test]
fn an_empty_list_is_refilled_with_a_whole_formation() {
    let mut spawner = EnemySpawnerBehaviour::new();
    spawner.init();
    assert_eq!(spawner.num_remaining_enemies(), 0);
    assert!(spawner.can_spawn());
    let mut commands = CommandQueue::new();
    assert_eq!(spawner.wave(), 0);
    let step = spawner.update(&vec![], &vec![], &vec![], &mut commands);
    assert_eq!(step, None);
    assert_eq!(spawner.num_remaining_enemies(), 36);
    assert_eq!(spawner.wave(), 1);
    let queued = commands.drain();
    assert_eq!(queued.len(), 36);
    let cells = spawner_formation().cells();
    for (k, command) in queued.iter().enumerate() {
        assert_eq!(
            *command,
            Command::AddEntity(make_enemy(format!("enemy-{}", k), cells[k]))
        );
        assert_eq!(spawner.existing_enemy_entity_ids()[k], format!("enemy-{}", k));
    }
    // the formation stands: the next frame does not put it up again
    spawner.update(&vec![], &vec![], &vec![], &mut commands);
    assert_eq!(spawner.num_remaining_enemies(), 36);
    assert_eq!(spawner.wave(), 1);
    assert!(commands.queue().is_empty());
}

#[test]
fn the_last_death_respawns_once_whatever_the_order_of_the_notices() {
    let mut forward = EnemySpawnerBehaviour::new();
    let mut backward = EnemySpawnerBehaviour::new();
    let mut commands = CommandQueue::new();
    forward.spawn_enemies(&mut commands);
    backward.spawn_enemies(&mut commands);
    commands.drain();
    for k in 0..36 {
        forward.on_message(&died(&format!("enemy-{}", k)));
        backward.on_message(&died(&format!("enemy-{}", 35 - k)));
        assert_eq!(forward.num_remaining_enemies(), 35 - k);
        assert_eq!(backward.num_remaining_enemies(), 35 - k);
    }
    for spawner in [&mut forward, &mut backward] {
        assert_eq!(spawner.wave(), 1);
        spawner.update(&vec![], &vec![], &vec![], &mut commands);
        let queued = commands.drain();
        assert_eq!(queued.len(), 36);
        assert_eq!(queued[0], Command::AddEntity(make_enemy("enemy-36".to_string(), at(8, 1))));
        assert_eq!(spawner.num_remaining_enemies(), 36);
        assert_eq!(spawner.wave(), 2);
        spawner.update(&vec![], &vec![], &vec![], &mut commands);
        assert!(commands.queue().is_empty());
        assert_eq!(spawner.wave(), 2);
    }
}

#[test]
fn a_death_is_counted_once_and_only_of_a_known_enemy() {
    let mut spawner = EnemySpawnerBehaviour::new();
    let mut commands = CommandQueue::new();
    spawner.spawn_enemies(&mut commands);
    spawner.on_message(&died("enemy-7"));
    assert_eq!(spawner.num_remaining_enemies(), 35);
    spawner.on_message(&died("enemy-7"));
    spawner.on_message(&died("enemy-700"));
    spawner.on_message(&died(""));
    spawner.on_message(&change_text("enemy-8"));
    spawner.on_message(&Message::PlayerKilledEnemy);
    assert_eq!(spawner.num_remaining_enemies(), 35);
    assert_eq!(spawner.existing_enemy_entity_ids()[6], "enemy-6");
    assert_eq!(spawner.existing_enemy_entity_ids()[7], "enemy-8");
    assert!(!spawner.should_reset());
}

#[test]
fn a_reset_destroys_every_enemy_and_every_bullet_of_the_world() {
    let mut spawner = EnemySpawnerBehaviour::new();
    let mut commands = CommandQueue::new();
    spawner.spawn_enemies(&mut commands);
    commands.drain();
    assert_eq!(spawner.wave(), 1);
    spawner.on_message(&Message::Reset);
    assert!(spawner.should_reset());
    let enemies = vec!["enemy-3".to_string(), "enemy-5".to_string()];
    let bullets = vec!["bullet-a".to_string(), "bullet-b".to_string(), "bullet-c".to_string()];
    spawner.update(&enemies, &bullets, &vec![at(10, 1), at(16, 1)], &mut commands);
    assert!(!spawner.should_reset());
    assert_eq!(spawner.wave(), 0);
    assert_eq!(
        commands.drain(),
        vec![
            Command::DestroyEntity("enemy-3".to_string()),
            Command::DestroyEntity("enemy-5".to_string()),
            Command::DestroyEntity("bullet-a".to_string()),
            Command::DestroyEntity("bullet-b".to_string()),
            Command::DestroyEntity("bullet-c".to_string()),
        ]
    );
    // without a reset pending, bullets and enemies are left alone
    spawner.update(&enemies, &bullets, &vec![at(10, 1), at(16, 1)], &mut commands);
    assert!(commands.queue().is_empty());
    // the list is emptied by the death notices, and only then refilled
    assert_eq!(spawner.num_remaining_enemies(), 36);
    for k in 0..36 {
        spawner.on_message(&died(&format!("enemy-{}", k)));
    }
    spawner.update(&vec![], &vec![], &vec![], &mut commands);
    assert_eq!(commands.queue().len(), 36);
    assert_eq!(spawner.wave(), 1);
}

#[test]
fn the_scan_ends_on_the_last_rightmost_and_the_first_leftmost() {
    let positions = vec![at(5, 0), at(9, 1), at(5, 2), at(9, 3), at(7, 4)];
    assert_eq!(get_rightmost_enemy_pos(&positions), Some(at(9, 3)));
    assert_eq!(get_leftmost_enemy_pos(&positions), Some(at(5, 0)));
    assert_eq!(get_rightmost_enemy_pos(&vec![at(2, 2)]), Some(at(2, 2)));
    assert_eq!(get_leftmost_enemy_pos(&vec![at(2, 2)]), Some(at(2, 2)));
    assert_eq!(get_rightmost_enemy_pos(&vec![]), None);
    assert_eq!(get_leftmost_enemy_pos(&vec![]), None);
}

#[test]
fn the_formation_keeps_out_of_the_margins() {
    assert!(can_move_right(&vec![at(44, 0), at(10, 0)]));
    assert!(!can_move_right(&vec![at(45, 0), at(10, 0)]));
    assert!(can_move_left(&vec![at(5, 0), at(10, 0)]));
    assert!(!can_move_left(&vec![at(4, 0), at(10, 0)]));
    assert!(!can_move_right(&vec![]));
    assert!(!can_move_left(&vec![]));
    let free = vec![at(20, 0), at(30, 0)];
    assert_eq!(march_displacement(&free, 0), Position::right());
    assert_eq!(march_displacement(&free, 1), Position::left());
    let at_right = vec![at(20, 0), at(45, 0)];
    assert_eq!(march_displacement(&at_right, 0), Position::left());
    assert_eq!(march_displacement(&at_right, 1), Position::left());
    let at_left = vec![at(4, 0), at(30, 0)];
    assert_eq!(march_displacement(&at_left, 0), Position::right());
    assert_eq!(march_displacement(&at_left, 1), Position::right());
    let spanning = vec![at(4, 0), at(45, 0)];
    assert_eq!(march_displacement(&spanning, 0), Position::right());
    assert_eq!(march_displacement(&spanning, 1), Position::right());
    assert_eq!(march_displacement(&vec![], 0), Position::zero());
    assert_eq!(march_displacement(&vec![], 1), Position::zero());
}

#[test]
fn the_march_waits_for_its_reading() {
    let mut spawner = EnemySpawnerBehaviour::new();
    let mut commands = CommandQueue::new();
    spawner.spawn_enemies(&mut commands);
    commands.drain();
    assert_eq!(spawner.march_after(&vec![at(4, 1)], 1499, &mut commands), None);
    assert!(commands.queue().is_empty());
    let step = spawner.march_after(&vec![at(4, 1)], 1500, &mut commands);
    assert_eq!(step, Some(Position::right()));
    assert_eq!(commands.queue().len(), 36);
}

#[test]
fn the_whole_list_is_told_the_same_step() {
    let mut spawner = EnemySpawnerBehaviour::new();
    let mut commands = CommandQueue::new();
    spawner.spawn_enemies(&mut commands);
    for k in 2..36 {
        spawner.on_message(&died(&format!("enemy-{}", k)));
    }
    commands.drain();
    let displacement = spawner.move_enemies(&vec![at(45, 1), at(42, 1)], &mut commands);
    assert_eq!(displacement, Position::left());
    let told = |id: &str| Command::SendMessage {
        entity_id: id.to_string(),
        message: Message::MoveEnemy(MoveEnemyPayload { displacement: Position::left() }),
    };
    assert_eq!(commands.drain(), vec![told("enemy-0"), told("enemy-1")]);
    let none = spawner.move_enemies(&vec![], &mut commands);
    assert_eq!(none, Position::zero());
    assert!(commands.queue().is_empty());
}

#[test]
fn the_spawner_marches_after_its_cooldown() {
    let mut spawner = EnemySpawnerBehaviour::new();
    spawner.init();
    let mut commands = CommandQueue::new();
    assert_eq!(spawner.update(&vec![], &vec![], &vec![at(20, 1)], &mut commands), None);
    commands.drain();
    pause(1510);
    let step = spawner.update(&vec![], &vec![], &vec![at(20, 1)], &mut commands);
    assert!(step == Some(Position::left()) || step == Some(Position::right()));
    assert_eq!(commands.queue().len(), 36);
    commands.drain();
    assert_eq!(spawner.update(&vec![], &vec![], &vec![at(20, 1)], &mut commands), None);
    assert!(commands.queue().is_empty());
}

#[test]
fn text_is_laid_out_one_entity_per_character() {
    let mut text = TextBehaviour::new("Hi!");
    assert_eq!(text.text(), "Hi!");
    assert!(text.char_entity_ids().is_empty());
    assert!(!text.should_generate_text());
    assert!(text.fits_on_row(at(3, 19)));
    let mut commands = CommandQueue::new();
    text.init("line", at(3, 19), &mut commands);
    assert_eq!(
        commands.queue(),
        &vec![
            Command::AddEntity(make_char_entity(at(3, 19), "line", 'H', 0)),
            Command::AddEntity(make_char_entity(at(4, 19), "line", 'i', 1)),
            Command::AddEntity(make_char_entity(at(5, 19), "line", '!', 2)),
        ]
    );
    assert_eq!(text.char_entity_ids(), &vec!["line-H-0", "line-i-1", "line-!-2"]);
}

#[test]
fn characters_are_indexed_by_the_byte_they_start_at() {
    let mut text = TextBehaviour::new("é€A");
    let mut commands = CommandQueue::new();
    text.generate_text("t", at(0, 0), &mut commands);
    assert_eq!(text.char_entity_ids(), &vec!["t-é-0", "t-€-2", "t-A-5"]);
    match &commands.queue()[2] {
        Command::AddEntity(Blueprint::TextChar { coords, character, .. }) => {
            assert_eq!(*coords, at(5, 0));
            assert_eq!(*character, 'A');
        }
        other => panic!("unexpected command {:?}", other),
    }
}

#[test]
fn the_same_text_is_not_generated_again() {
    let mut text = TextBehaviour::new("Score: 0");
    let mut commands = CommandQueue::new();
    text.init("score", at(0, 0), &mut commands);
    let ids_before = text.char_entity_ids().clone();
    commands.drain();

    text.on_message(&change_text("Score: 0"));
    assert!(!text.should_generate_text());
    text.on_message(&Message::Reset);
    text.on_message(&died("Score: 10"));
    assert!(!text.should_generate_text());
    text.update("score", at(0, 0), &mut commands);
    assert!(commands.queue().is_empty());
    assert_eq!(text.char_entity_ids(), &ids_before);
    assert_eq!(text.text(), "Score: 0");
}

#[test]
fn another_text_replaces_the_characters_on_the_next_frame() {
    let mut text = TextBehaviour::new("ab");
    let mut commands = CommandQueue::new();
    text.init("t", at(1, 1), &mut commands);
    commands.drain();
    text.on_message(&change_text("c"));
    assert!(text.should_generate_text());
    assert_eq!(text.text(), "c");
    assert_eq!(text.char_entity_ids(), &vec!["t-a-0", "t-b-1"]);
    assert!(commands.queue().is_empty());
    text.update("t", at(1, 1), &mut commands);
    assert_eq!(
        commands.drain(),
        vec![
            Command::DestroyEntity("t-a-0".to_string()),
            Command::DestroyEntity("t-b-1".to_string()),
            Command::AddEntity(make_char_entity(at(1, 1), "t", 'c', 0)),
        ]
    );
    assert!(!text.should_generate_text());
    assert_eq!(text.char_entity_ids(), &vec!["t-c-0"]);
    text.update("t", at(1, 1), &mut commands);
    assert!(commands.queue().is_empty());
}

#[test]
fn deleting_the_characters_forgets_them() {
    let mut text = TextBehaviour::new("ab");
    let mut commands = CommandQueue::new();
    text.init("t", at(1, 1), &mut commands);
    commands.drain();
    text.delete_existing_character_entities(&mut commands);
    assert_eq!(
        commands.drain(),
        vec![
            Command::DestroyEntity("t-a-0".to_string()),
            Command::DestroyEntity("t-b-1".to_string()),
        ]
    );
    assert!(text.char_entity_ids().is_empty());
    assert_eq!(text.text(), "ab");
}

#[test]
fn a_line_that_would_fall_off_the_grid_does_not_fit() {
    let text = TextBehaviour::new("abc");
    assert!(text.fits_on_row(at(i64::MAX - 3, 0)));
    assert!(!text.fits_on_row(at(i64::MAX - 2, 0)));
    assert!(text.fits_on_row(at(i64::MIN, 0)));
    assert!(TextBehaviour::new("").fits_on_row(at(i64::MAX, 0)));
}
