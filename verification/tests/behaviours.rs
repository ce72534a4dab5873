use space_invaders::behaviours::bullet_behaviour::{BulletBehaviour, Overlap};
use space_invaders::behaviours::commands::{Blueprint, Command, CommandQueue};
use space_invaders::behaviours::enemy_behaviour::EnemyBehaviour;
use space_invaders::behaviours::enemy_combat_behaviour::EnemyCombatBehaviour;
use space_invaders::behaviours::game_manager_behaviour::{GameManagerBehaviour, SCORE_TEXT_ID};
use space_invaders::behaviours::messages::{
    BulletHitPayload, ChangeTextPayload, EnemyDiedPayload, Message, MoveEnemyPayload,
};
use space_invaders::behaviours::player_combat_behaviour::{PlayerCombatBehaviour, MAX_LIVES};
use space_invaders::behaviours::player_life_display_behaviour::{
    PlayerLifeDisplayBehaviour, PLAYER_LIVES_TEXT_ID,
};
use space_invaders::behaviours::player_move_behaviour::PlayerMoveBehaviour;
use space_invaders::behaviours::star_behaviour::StarBehaviour;
use space_invaders::behaviours::star_spawner_behaviour::StarSpawnerBehaviour;
use space_invaders::behaviours::{ENEMY_SPAWNER_ID, GAME_MANAGER_ID, PLAYER_ID};
use space_invaders::coords::Position;
use space_invaders::entities::{
    get_char_entity_id, make_bullet, make_char_entity, make_enemy, make_star, make_text,
};
use space_invaders::input::InputSnapshot;
use space_invaders::prefabs::BulletType;
use std::time::{Duration, Instant};

fn pause(millis: u64) {
    let start = Instant::now();
    while start.elapsed() < Duration::from_millis(millis) {}
}

fn send(entity_id: &str, message: Message) -> Command {
    Command::SendMessage { entity_id: entity_id.to_string(), message }
}

fn change_text(text: &str) -> Message {
    Message::ChangeText(ChangeTextPayload { new_text: text.to_string() })
}

fn hit_by(bullet_type: BulletType) -> Message {
    Message::BulletHit(BulletHitPayload { bullet_type })
}

fn keys(move_left: bool, move_right: bool, shoot: bool) -> InputSnapshot {
    InputSnapshot { move_left, move_right, shoot }
}

#[test]
fn messages_travel_under_their_names() {
    assert_eq!(hit_by(BulletType::Enemy).type_tag(), "bullethit");
    assert_eq!(
        Message::EnemyDied(EnemyDiedPayload { enemy_id: "e".to_string() }).type_tag(),
        "enemydied"
    );
    assert_eq!(Message::PlayerKilledEnemy.type_tag(), "enemydiedbyplayer");
    assert_eq!(Message::Reset.type_tag(), "reset");
    assert_eq!(change_text("x").type_tag(), "updatetxt");
    assert_eq!(
        Message::MoveEnemy(MoveEnemyPayload { displacement: Position::left() }).type_tag(),
        "moveenemy"
    );
}

#[test]
fn the_queue_keeps_the_order_of_issue() {
    let mut commands = CommandQueue::new();
    commands.issue(Command::DestroyEntity("a".to_string()));
    commands.issue(send("b", Message::Reset));
    assert_eq!(
        commands.queue(),
        &vec![Command::DestroyEntity("a".to_string()), send("b", Message::Reset)]
    );
    let drained = commands.drain();
    assert_eq!(drained.len(), 2);
    assert!(commands.queue().is_empty());
}

#[test]
fn blueprints_carry_glyph_and_layer() {
    assert_eq!(
        make_bullet(Position { x: 1, y: 2 }, BulletType::Player, Position::down()),
        Blueprint::Bullet {
            coords: Position { x: 1, y: 2 },
            bullet_type: BulletType::Player,
            travel_direction: Position { x: 0, y: -1 },
            display: '.',
            layer: -1,
        }
    );
    assert_eq!(
        make_bullet(Position { x: 1, y: 2 }, BulletType::Enemy, Position::up()),
        Blueprint::Bullet {
            coords: Position { x: 1, y: 2 },
            bullet_type: BulletType::Enemy,
            travel_direction: Position { x: 0, y: 1 },
            display: 'o',
            layer: -1,
        }
    );
    assert_eq!(
        make_enemy("enemy-3".to_string(), Position { x: 8, y: 1 }),
        Blueprint::Enemy {
            id: "enemy-3".to_string(),
            coords: Position { x: 8, y: 1 },
            display: '@',
            layer: 0,
        }
    );
    assert_eq!(
        make_text(Position { x: 0, y: 19 }, "id", "Lives:"),
        Blueprint::Text {
            id: "id".to_string(),
            coords: Position { x: 0, y: 19 },
            text: "Lives:".to_string(),
        }
    );
    assert_eq!(
        make_star(Position { x: 3, y: 0 }),
        Blueprint::Star { coords: Position { x: 3, y: 0 }, display: '*', layer: -10 }
    );
    assert_eq!(
        make_char_entity(Position { x: 3, y: 0 }, "line", 'S', 12),
        Blueprint::TextChar {
            id: "line-S-12".to_string(),
            coords: Position { x: 3, y: 0 },
            character: 'S',
            layer: 10,
        }
    );
}

#[test]
fn character_identities_join_line_character_and_index() {
    assert_eq!(get_char_entity_id("player-score-text", 'S', 0), "player-score-text-S-0");
    assert_eq!(get_char_entity_id("t", ' ', 6), "t- -6");
    assert_eq!(get_char_entity_id("", '-', 10), "---10");
    assert_eq!(get_char_entity_id("t", 'é', 123), "t-é-123");
}

#[test]
fn the_bookkeeper_collects_points_and_adds_them_once() {
    let mut manager = GameManagerBehaviour::new();
    assert_eq!(manager, GameManagerBehaviour { score: 0, score_addition: 0 });
    manager.on_message(&Message::PlayerKilledEnemy);
    manager.on_message(&Message::Reset);
    manager.on_message(&hit_by(BulletType::Player));
    manager.on_message(&Message::PlayerKilledEnemy);
    assert_eq!(manager, GameManagerBehaviour { score: 0, score_addition: 20 });
    let mut commands = CommandQueue::new();
    manager.update(Some(3), Some(ENEMY_SPAWNER_ID), Some(PLAYER_ID), &mut commands);
    assert_eq!(manager, GameManagerBehaviour { score: 20, score_addition: 0 });
    assert_eq!(commands.queue(), &vec![send(SCORE_TEXT_ID, change_text("Score: 20"))]);
    manager.update(Some(3), None, Some(PLAYER_ID), &mut commands);
    manager.update(None, None, None, &mut commands);
    assert_eq!(commands.queue().len(), 1);
    assert_eq!(manager.score, 20);
}

#[test]
fn the_bookkeeper_creates_the_score_line() {
    let manager = GameManagerBehaviour { score: 40, score_addition: 0 };
    let mut commands = CommandQueue::new();
    manager.init(&mut commands);
    assert_eq!(
        commands.queue(),
        &vec![Command::AddEntity(make_text(
            Position { x: 0, y: 0 },
            "player-score-text",
            "Score: 40"
        ))]
    );
}

#[test]
fn a_dead_player_resets_the_game_in_one_batch() {
    let mut manager = GameManagerBehaviour { score: 70, score_addition: 30 };
    assert!(manager.should_reset(Some(0)));
    assert!(!manager.should_reset(Some(1)));
    assert!(!manager.should_reset(None));
    let mut commands = CommandQueue::new();
    manager.update(Some(0), Some(ENEMY_SPAWNER_ID), Some(PLAYER_ID), &mut commands);
    assert_eq!(manager, GameManagerBehaviour { score: 0, score_addition: 0 });
    assert_eq!(
        commands.queue(),
        &vec![
            send("player-score-text", change_text("Score: 0")),
            send(ENEMY_SPAWNER_ID, Message::Reset),
            send(PLAYER_ID, Message::Reset),
        ]
    );
    assert_eq!(ENEMY_SPAWNER_ID, "enemy-spawner");
    assert_eq!(PLAYER_ID, "player");
    assert_eq!(GAME_MANAGER_ID, "game-manager");
}

#[test]
fn the_player_loses_a_life_per_enemy_hit_and_none_below_zero() {
    let mut player = PlayerCombatBehaviour::new();
    assert_eq!(player.lives(), MAX_LIVES);
    player.on_message(&hit_by(BulletType::Player));
    player.on_message(&Message::PlayerKilledEnemy);
    assert_eq!(player.lives(), 3);
    for expected in [2u8, 1, 0, 0, 0] {
        player.on_message(&hit_by(BulletType::Enemy));
        assert_eq!(player.lives(), expected);
    }
    assert!(!player.should_reset);
}

#[test]
fn a_reset_gives_the_player_its_lives_back_on_the_next_frame() {
    let mut player = PlayerCombatBehaviour::new();
    player.init();
    for _ in 0..3 {
        player.on_message(&hit_by(BulletType::Enemy));
    }
    assert_eq!(player.lives(), 0);
    player.on_message(&Message::Reset);
    assert_eq!(player.lives(), 0);
    assert!(player.should_reset);
    let mut commands = CommandQueue::new();
    let shot = player.update(Position { x: 25, y: 18 }, &keys(false, false, false), &mut commands);
    assert!(!shot);
    assert_eq!(player.lives(), MAX_LIVES);
    assert!(!player.should_reset);
    assert!(commands.queue().is_empty());
}

#[test]
fn the_player_gun_fires_down_after_its_cooldown() {
    let mut player = PlayerCombatBehaviour::new();
    player.init();
    let mut commands = CommandQueue::new();
    let at = Position { x: 25, y: 18 };
    assert!(!player.update(at, &keys(false, false, true), &mut commands));
    assert!(!PlayerCombatBehaviour::player_shoots(&keys(false, false, true), 249));
    assert!(PlayerCombatBehaviour::player_shoots(&keys(false, false, true), 250));
    assert!(!PlayerCombatBehaviour::player_shoots(&keys(true, true, false), 250));
    pause(260);
    assert!(!player.update(at, &keys(true, false, false), &mut commands));
    assert!(player.update(at, &keys(false, false, true), &mut commands));
    assert_eq!(
        commands.queue(),
        &vec![Command::AddEntity(make_bullet(
            Position { x: 25, y: 17 },
            BulletType::Player,
            Position::down()
        ))]
    );
    assert!(!player.update(at, &keys(false, false, true), &mut commands));
    assert_eq!(commands.queue().len(), 1);
}

#[test]
fn the_life_display_speaks_only_when_the_lives_change() {
    let mut display = PlayerLifeDisplayBehaviour::new();
    let mut commands = CommandQueue::new();
    display.init(&mut commands);
    assert_eq!(
        commands.drain(),
        vec![Command::AddEntity(make_text(Position { x: 0, y: 19 }, "player-lives-text", "Lives:"))]
    );
    assert_eq!(display.get_player_lives(None), 0);
    assert_eq!(display.get_player_lives(Some(2)), 2);
    display.update(None, &mut commands);
    assert!(commands.queue().is_empty());
    display.update(Some(3), &mut commands);
    display.update(Some(3), &mut commands);
    display.update(Some(2), &mut commands);
    assert_eq!(
        commands.queue(),
        &vec![
            send(PLAYER_LIVES_TEXT_ID, change_text("Lives: AAA")),
            send(PLAYER_LIVES_TEXT_ID, change_text("Lives: AA")),
        ]
    );
    assert_eq!(display.current_lives_displayed, 2);
}

#[test]
fn the_player_starts_in_the_middle_and_is_pulled_back_onto_the_screen() {
    let mut mover = PlayerMoveBehaviour::new();
    let mut coords = Position { x: 0, y: 0 };
    mover.init(&mut coords);
    assert_eq!(coords, Position { x: 25, y: 18 });
    let mut off_left = Position { x: -1, y: 18 };
    mover.clamp_position(&mut off_left);
    assert_eq!(off_left, Position { x: 0, y: 18 });
    let mut off_right = Position { x: 50, y: 18 };
    mover.clamp_position(&mut off_right);
    assert_eq!(off_right, Position { x: 49, y: 18 });
    let mut inside = Position { x: 49, y: 18 };
    mover.clamp_position(&mut inside);
    assert_eq!(inside, Position { x: 49, y: 18 });
    assert_eq!(PlayerMoveBehaviour::move_direction(&keys(true, true, false)), Some(Position::left()));
    assert_eq!(PlayerMoveBehaviour::move_direction(&keys(false, true, false)), Some(Position::right()));
    assert_eq!(PlayerMoveBehaviour::move_direction(&keys(false, false, true)), None);
}

#[test]
fn a_step_needs_a_key_and_both_readings() {
    let left = keys(true, false, false);
    let right = keys(false, true, false);
    assert_eq!(PlayerMoveBehaviour::step_after(&left, 100, 100), None);
    assert_eq!(PlayerMoveBehaviour::step_after(&left, 101, 99), None);
    assert_eq!(PlayerMoveBehaviour::step_after(&left, 101, 100), Some(Position::left()));
    assert_eq!(PlayerMoveBehaviour::step_after(&right, 500, 500), Some(Position::right()));
    assert_eq!(PlayerMoveBehaviour::step_after(&keys(false, false, true), 500, 500), None);
}

#[test]
fn a_star_is_due_once_the_wait_is_over() {
    assert!(!StarSpawnerBehaviour::is_due(0));
    assert!(!StarSpawnerBehaviour::is_due(500));
    assert!(StarSpawnerBehaviour::is_due(501));
}

#[test]
fn the_player_steps_after_its_cooldown_and_not_before() {
    let mut mover = PlayerMoveBehaviour::new();
    let mut coords = Position { x: 0, y: 0 };
    mover.init(&mut coords);
    mover.update(&mut coords, &keys(true, false, false));
    assert_eq!(coords, Position { x: 25, y: 18 });
    pause(110);
    mover.update(&mut coords, &keys(false, false, false));
    assert_eq!(coords, Position { x: 25, y: 18 });
    mover.update(&mut coords, &keys(true, false, false));
    assert_eq!(coords, Position { x: 24, y: 18 });
    mover.update(&mut coords, &keys(true, false, false));
    assert_eq!(coords, Position { x: 24, y: 18 });
}

fn overlap(id: &str, layer: Option<i32>, player: bool, enemy: bool) -> Overlap {
    Overlap {
        entity_id: id.to_string(),
        render_layer: layer,
        has_player_combat: player,
        has_enemy_combat: enemy,
    }
}

#[test]
fn a_bullet_hits_only_the_other_side_on_the_base_layer() {
    let from_player = BulletBehaviour::new(BulletType::Player, Position::down());
    let from_enemy = BulletBehaviour::new(BulletType::Enemy, Position::up());
    let enemy = overlap("e", Some(0), false, true);
    let player = overlap("p", Some(0), true, false);
    let ghost_enemy = overlap("g", None, false, true);
    let far_enemy = overlap("f", Some(-1), false, true);
    let star = overlap("s", Some(0), false, false);
    assert!(from_player.is_hit(&enemy));
    assert!(!from_player.is_hit(&player));
    assert!(!from_player.is_hit(&ghost_enemy));
    assert!(!from_player.is_hit(&far_enemy));
    assert!(!from_player.is_hit(&star));
    assert!(from_enemy.is_hit(&player));
    assert!(!from_enemy.is_hit(&enemy));
}

#[test]
fn a_bullet_hits_its_first_victim_only() {
    let bullet = BulletBehaviour::new(BulletType::Player, Position::down());
    let overlaps = vec![
        overlap("p", Some(0), true, false),
        overlap("e1", Some(0), false, true),
        overlap("s", Some(-10), false, false),
        overlap("e2", Some(0), false, true),
    ];
    let mut commands = CommandQueue::new();
    bullet.handle_collisions("b", &overlaps, &mut commands);
    assert_eq!(
        commands.queue(),
        &vec![send("e1", hit_by(BulletType::Player)), Command::DestroyEntity("b".to_string())]
    );
}

#[test]
fn a_bullet_that_hits_nothing_does_nothing() {
    let bullet = BulletBehaviour::new(BulletType::Enemy, Position::up());
    let overlaps = vec![
        overlap("e1", Some(0), false, true),
        overlap("s", Some(-10), false, false),
        overlap("p", None, true, false),
    ];
    let mut commands = CommandQueue::new();
    bullet.handle_collisions("b", &overlaps, &mut commands);
    bullet.handle_collisions("b", &vec![], &mut commands);
    assert!(commands.queue().is_empty());
}

#[test]
fn a_behaviour_bullet_waits_for_its_cooldown() {
    let at = Position { x: 4, y: 7 };
    assert_eq!(BulletBehaviour::flown(at, Position::up(), 49), at);
    assert_eq!(BulletBehaviour::flown(at, Position::up(), 50), Position { x: 4, y: 8 });
    assert_eq!(BulletBehaviour::flown(at, Position::down(), 900), Position { x: 4, y: 6 });
    assert_eq!(StarBehaviour::drifted(at, 499), at);
    assert_eq!(StarBehaviour::drifted(at, 500), Position { x: 4, y: 8 });
}

#[test]
fn a_pending_reset_is_settled_once() {
    let mut player = PlayerCombatBehaviour::new();
    player.on_message(&hit_by(BulletType::Enemy));
    player.settle_reset();
    assert_eq!(player.lives(), 2);
    player.on_message(&Message::Reset);
    player.settle_reset();
    assert_eq!(player.lives(), MAX_LIVES);
    assert!(!player.should_reset);
}

#[test]
fn a_behaviour_bullet_flies_and_leaves_the_screen() {
    let mut bullet = BulletBehaviour::new(BulletType::Enemy, Position::up());
    bullet.init();
    let mut coords = Position { x: 4, y: 20 };
    let mut commands = CommandQueue::new();
    bullet.update("b", &mut coords, &vec![], &mut commands);
    assert_eq!(coords, Position { x: 4, y: 20 });
    assert!(commands.queue().is_empty());
    pause(60);
    bullet.update("b", &mut coords, &vec![overlap("p", Some(0), true, false)], &mut commands);
    assert_eq!(coords, Position { x: 4, y: 21 });
    assert_eq!(
        commands.queue(),
        &vec![
            Command::DestroyEntity("b".to_string()),
            send("p", hit_by(BulletType::Enemy)),
            Command::DestroyEntity("b".to_string()),
        ]
    );
    assert_eq!(bullet.typ, BulletType::Enemy);
    assert_eq!(bullet.travel_direction, Position::up());
}

#[test]
fn an_enemy_reports_its_death_once_per_destruction() {
    let enemy = EnemyBehaviour::new();
    let mut commands = CommandQueue::new();
    enemy.on_destroy("enemy-4", &mut commands);
    assert_eq!(
        commands.queue(),
        &vec![send(
            "enemy-spawner",
            Message::EnemyDied(EnemyDiedPayload { enemy_id: "enemy-4".to_string() })
        )]
    );
}

#[test]
fn a_hit_enemy_dies_and_blames_the_player() {
    let mut enemy = EnemyCombatBehaviour::new();
    enemy.init();
    assert_eq!(enemy.health, 1);
    assert!(2500 <= enemy.shoot_roll_wait_time && enemy.shoot_roll_wait_time <= 3500);
    enemy.on_message(&hit_by(BulletType::Enemy));
    enemy.on_message(&Message::Reset);
    assert_eq!(enemy.health, 1);
    assert!(!enemy.killed_by_player);
    let mut coords = Position { x: 9, y: 3 };
    let mut commands = CommandQueue::new();
    assert!(!enemy.update("enemy-0", &mut coords, &mut commands));
    assert!(commands.queue().is_empty());

    enemy.on_message(&hit_by(BulletType::Player));
    assert_eq!(enemy.health, 0);
    assert!(enemy.killed_by_player);
    enemy.on_message(&hit_by(BulletType::Enemy));
    assert_eq!(enemy.health, 0);
    assert!(!enemy.update("enemy-0", &mut coords, &mut commands));
    assert_eq!(commands.drain(), vec![Command::DestroyEntity("enemy-0".to_string())]);

    enemy.on_destroy("enemy-0", &mut commands);
    assert_eq!(
        commands.queue(),
        &vec![
            send(
                "enemy-spawner",
                Message::EnemyDied(EnemyDiedPayload { enemy_id: "enemy-0".to_string() })
            ),
            send("game-manager", Message::PlayerKilledEnemy),
        ]
    );
}

#[test]
fn an_enemy_that_was_not_shot_tells_only_the_spawner() {
    let enemy = EnemyCombatBehaviour::new();
    let mut commands = CommandQueue::new();
    enemy.on_destroy("enemy-9", &mut commands);
    assert_eq!(
        commands.queue(),
        &vec![send(
            "enemy-spawner",
            Message::EnemyDied(EnemyDiedPayload { enemy_id: "enemy-9".to_string() })
        )]
    );
}

#[test]
fn an_enemy_takes_the_step_it_was_told_once() {
    let mut enemy = EnemyCombatBehaviour::new();
    enemy.init();
    enemy.on_message(&Message::MoveEnemy(MoveEnemyPayload { displacement: Position::left() }));
    assert_eq!(enemy.move_by, Position::left());
    let mut coords = Position { x: 9, y: 3 };
    let mut commands = CommandQueue::new();
    enemy.update("enemy-0", &mut coords, &mut commands);
    assert_eq!(coords, Position { x: 8, y: 3 });
    assert_eq!(enemy.move_by, Position::zero());
    enemy.update("enemy-0", &mut coords, &mut commands);
    assert_eq!(coords, Position { x: 8, y: 3 });
    assert!(commands.queue().is_empty());
}

#[test]
fn an_enemy_shot_starts_one_cell_up() {
    let enemy = EnemyCombatBehaviour::new();
    let mut commands = CommandQueue::new();
    enemy.shoot(Position { x: 9, y: 3 }, &mut commands);
    assert_eq!(
        commands.queue(),
        &vec![Command::AddEntity(make_bullet(
            Position { x: 9, y: 4 },
            BulletType::Enemy,
            Position::up()
        ))]
    );
    assert!(EnemyCombatBehaviour::roll_fires(1));
    assert!(EnemyCombatBehaviour::roll_fires(50));
    assert!(!EnemyCombatBehaviour::roll_fires(51));
    let mut fired = [false, false];
    for _ in 0..300 {
        fired[enemy.should_shoot() as usize] = true;
    }
    assert!(fired[0] && fired[1]);
}

#[test]
fn an_enemy_never_fires_before_its_own_wait_is_over() {
    let enemy = EnemyCombatBehaviour::new();
    let wait = enemy.shoot_roll_wait_time;
    let mut commands = CommandQueue::new();
    for _ in 0..200 {
        assert!(!enemy.fire_after(Position { x: 9, y: 3 }, wait - 1, &mut commands));
    }
    assert!(commands.queue().is_empty());
    let mut shots = 0;
    for _ in 0..400 {
        if enemy.fire_after(Position { x: 9, y: 3 }, wait, &mut commands) {
            shots += 1;
        }
    }
    assert!(shots > 0 && shots < 400);
    assert_eq!(commands.queue().len(), shots);
    assert_eq!(
        commands.queue()[0],
        Command::AddEntity(make_bullet(Position { x: 9, y: 4 }, BulletType::Enemy, Position::up()))
    );
}

#[test]
fn a_behaviour_star_drifts_and_fades() {
    let mut star = StarBehaviour::new();
    star.init();
    let mut coords = Position { x: 4, y: 19 };
    let mut commands = CommandQueue::new();
    star.update("s", &mut coords, &mut commands);
    assert_eq!(coords, Position { x: 4, y: 19 });
    assert!(commands.queue().is_empty());
    pause(510);
    star.update("s", &mut coords, &mut commands);
    assert_eq!(coords, Position { x: 4, y: 20 });
    assert_eq!(commands.queue(), &vec![Command::DestroyEntity("s".to_string())]);
}

#[test]
fn the_star_spawner_scatters_one_star_on_every_third_column() {
    let mut spawner = StarSpawnerBehaviour::new();
    let mut commands = CommandQueue::new();
    spawner.init(&mut commands);
    let queued = commands.drain();
    assert_eq!(queued.len(), 17);
    for (k, command) in queued.iter().enumerate() {
        match command {
            Command::AddEntity(Blueprint::Star { coords, display, layer }) => {
                assert_eq!(coords.x, 3 * k as i64);
                assert!(0 <= coords.y && coords.y < 20);
                assert_eq!(*display, '*');
                assert_eq!(*layer, -10);
            }
            other => panic!("unexpected command {:?}", other),
        }
    }
    assert!(!spawner.update(&mut commands));
    assert!(commands.queue().is_empty());
    pause(510);
    assert!(spawner.update(&mut commands));
    match &commands.queue()[0] {
        Command::AddEntity(Blueprint::Star { coords, .. }) => {
            assert_eq!(coords.y, 0);
            assert!(0 <= coords.x && coords.x < 50);
        }
        other => panic!("unexpected command {:?}", other),
    }
}
