use space_invaders::commands::{GameCommand, GameCommandQueue};
use space_invaders::components::{Combat, Player, PlayerMovement, Scorekeeper};
use space_invaders::constants::{
    PLAYER_BULLET_COLLISION_LAYER, PLAYER_COLLISION_LAYER, PLAYER_STARTING_LIVES, SCREEN_WIDTH,
};
use space_invaders::coords::Position;
use space_invaders::input::{InputSnapshot, MovementKey};
use space_invaders::prefabs::{
    make_bullet, make_enemy, player_prefab, BulletPrefab, BulletType, PlayerPrefab, Prefab,
};
use space_invaders::systems::sys_enemies::{spawn_enemies, wave_formation};
use space_invaders::systems::sys_player::{
    combat, get_movement_direction, get_pressed_movement_key, handle_player_death, move_player,
    movement, player_shoots, player_step, setup_player, try_combat, try_movement,
    PlayerSystemsGenerator, MOVE_WAIT_TIME_MILLIS, SHOOT_WAIT_TIME_MILLIS, STARTING_HIGH_SCORE,
};
use space_invaders::systems::{GameEvent, ScheduledSystem, SystemId};
use std::time::{Duration, Instant};

fn pause(millis: u64) {
    let start = Instant::now();
    while start.elapsed() < Duration::from_millis(millis) {}
}

fn keys(move_left: bool, move_right: bool, shoot: bool) -> InputSnapshot {
    InputSnapshot { move_left, move_right, shoot }
}

#[test]
fn player_systems_move_then_shoot_then_look_for_death() {
    let systems = PlayerSystemsGenerator {}.generate();
    let expected = vec![
        ScheduledSystem { event: GameEvent::Init, system: SystemId::PlayerSetup },
        ScheduledSystem { event: GameEvent::Update, system: SystemId::PlayerMovement },
        ScheduledSystem { event: GameEvent::Update, system: SystemId::PlayerCombat },
        ScheduledSystem { event: GameEvent::Update, system: SystemId::PlayerDeath },
    ];
    assert_eq!(systems, expected);
}

#[test]
fn setup_creates_the_player_and_the_scorekeeper() {
    let mut commands = GameCommandQueue::new();
    setup_player(&mut commands);
    let expected_player = PlayerPrefab {
        lives: 3,
        coords: Position { x: 25, y: 17 },
        display: 'A',
        render_layer: 0,
        collision_layer: PLAYER_COLLISION_LAYER,
        collider_active: true,
    };
    assert_eq!(player_prefab(), expected_player);
    assert_eq!(
        commands.queue(),
        &vec![
            GameCommand::AddEntity(Prefab::Player(expected_player)),
            GameCommand::AddEntity(Prefab::Scorekeeper(Scorekeeper {
                score: 0,
                high_score: STARTING_HIGH_SCORE,
                level: 0,
            })),
        ]
    );
    assert_eq!(Player::new().lives, PLAYER_STARTING_LIVES);
}

#[test]
fn the_left_key_wins_over_the_right_key() {
    assert_eq!(get_pressed_movement_key(&keys(true, false, false)), Some(MovementKey::Left));
    assert_eq!(get_pressed_movement_key(&keys(false, true, false)), Some(MovementKey::Right));
    assert_eq!(get_pressed_movement_key(&keys(true, true, true)), Some(MovementKey::Left));
    assert_eq!(get_pressed_movement_key(&keys(false, false, true)), None);
    assert_eq!(get_movement_direction(&keys(true, false, false)), Some(Position { x: -1, y: 0 }));
    assert_eq!(get_movement_direction(&keys(false, true, false)), Some(Position { x: 1, y: 0 }));
    assert_eq!(get_movement_direction(&keys(false, false, false)), None);
}

#[test]
fn the_player_stays_on_the_screen() {
    let last = SCREEN_WIDTH as i64 - 1;
    assert_eq!(player_step(Position { x: 0, y: 17 }, Position::left()), Position { x: 0, y: 17 });
    assert_eq!(player_step(Position { x: 1, y: 17 }, Position::left()), Position { x: 0, y: 17 });
    assert_eq!(
        player_step(Position { x: last, y: 17 }, Position::right()),
        Position { x: last, y: 17 }
    );
    assert_eq!(
        player_step(Position { x: 24, y: 17 }, Position::right()),
        Position { x: 25, y: 17 }
    );
    assert_eq!(player_step(Position { x: -7, y: 3 }, Position::right()), Position { x: 0, y: 3 });
    assert_eq!(
        player_step(Position { x: 400, y: 3 }, Position::left()),
        Position { x: last, y: 3 }
    );
}

#[test]
fn the_player_moves_with_a_key_held_and_the_cooldown_expired() {
    let at = Position { x: 25, y: 17 };
    let left = keys(true, false, false);
    assert_eq!(move_player(at, &left, MOVE_WAIT_TIME_MILLIS - 1), at);
    assert_eq!(move_player(at, &left, MOVE_WAIT_TIME_MILLIS), Position { x: 24, y: 17 });
    assert_eq!(move_player(at, &keys(false, true, true), 1000), Position { x: 26, y: 17 });
    assert_eq!(move_player(at, &keys(false, false, true), 1000), at);
    assert_eq!(move_player(Position { x: 49, y: 17 }, &keys(false, true, false), 50), Position { x: 49, y: 17 });
}

#[test]
fn the_player_waits_for_its_move_cooldown() {
    let mut stopwatch = PlayerMovement::new();
    let mut coords = Position { x: 25, y: 17 };
    movement(&mut stopwatch, &mut coords, &keys(true, false, false));
    assert_eq!(coords, Position { x: 25, y: 17 });
}

#[test]
fn the_player_steps_once_per_cooldown() {
    let mut stopwatch = PlayerMovement::new();
    let mut coords = Position { x: 25, y: 17 };
    pause(60);
    movement(&mut stopwatch, &mut coords, &keys(false, false, false));
    assert_eq!(coords, Position { x: 25, y: 17 });
    movement(&mut stopwatch, &mut coords, &keys(false, true, false));
    assert_eq!(coords, Position { x: 26, y: 17 });
    movement(&mut stopwatch, &mut coords, &keys(false, true, false));
    assert_eq!(coords, Position { x: 26, y: 17 });
}

#[test]
fn the_player_shoots_with_the_key_held_and_the_cooldown_expired() {
    assert!(!player_shoots(&keys(false, false, false), 1000));
    assert!(!player_shoots(&keys(false, false, true), SHOOT_WAIT_TIME_MILLIS - 1));
    assert!(player_shoots(&keys(false, false, true), SHOOT_WAIT_TIME_MILLIS));
}

#[test]
fn a_player_bullet_starts_one_cell_down_and_flies_down() {
    let mut gun = Combat::new();
    let mut commands = GameCommandQueue::new();
    let at = Position { x: 25, y: 17 };
    assert!(!combat(at, &mut gun, &keys(false, false, true), &mut commands));
    assert!(commands.queue().is_empty());
    pause(110);
    assert!(!combat(at, &mut gun, &keys(true, true, false), &mut commands));
    assert!(commands.queue().is_empty());
    assert!(combat(at, &mut gun, &keys(false, false, true), &mut commands));
    let expected = BulletPrefab {
        start_pos: Position { x: 25, y: 16 },
        direction: Position { x: 0, y: -1 },
        bullet_type: BulletType::Player,
        display: '"',
        render_layer: -1,
        collision_layer: PLAYER_BULLET_COLLISION_LAYER,
        collider_active: true,
    };
    assert_eq!(make_bullet(Position { x: 25, y: 16 }, Position::down(), BulletType::Player), expected);
    assert_eq!(commands.queue(), &vec![GameCommand::AddEntity(Prefab::Bullet(expected))]);
    assert!(!combat(at, &mut gun, &keys(false, false, true), &mut commands));
    assert_eq!(commands.queue().len(), 1);
}

#[test]
fn a_player_on_the_edge_of_the_grid_fails_only_when_it_acts() {
    let edge = Position { x: i64::MIN, y: i64::MIN };
    let mut stopwatch = PlayerMovement::new();
    let mut coords = edge;
    assert!(try_movement(&mut stopwatch, &mut coords, &keys(true, false, false)));
    pause(60);
    assert!(try_movement(&mut stopwatch, &mut coords, &keys(false, false, false)));
    assert!(!try_movement(&mut stopwatch, &mut coords, &keys(true, false, false)));
    assert_eq!(coords, edge);
    assert!(try_movement(&mut stopwatch, &mut coords, &keys(false, true, false)));
    assert_eq!(coords, Position { x: 0, y: i64::MIN });

    let mut gun = Combat::new();
    let mut commands = GameCommandQueue::new();
    assert_eq!(try_combat(edge, &mut gun, &keys(false, false, true), &mut commands), Some(false));
    pause(110);
    assert_eq!(try_combat(edge, &mut gun, &keys(true, false, false), &mut commands), Some(false));
    assert_eq!(try_combat(edge, &mut gun, &keys(false, false, true), &mut commands), None);
    assert!(commands.queue().is_empty());
    let at = Position { x: 25, y: 17 };
    assert_eq!(try_combat(at, &mut gun, &keys(false, false, true), &mut commands), Some(true));
    assert_eq!(commands.queue().len(), 1);
}

#[test]
fn a_living_player_resets_nothing() {
    for lives in [1u8, 2, 3] {
        let mut player = Player { lives };
        let mut scorekeeper = Scorekeeper { score: 500, high_score: 10000, level: 3 };
        let mut commands = GameCommandQueue::new();
        handle_player_death(&mut player, &mut scorekeeper, &vec![1, 2], &vec![3], &mut commands);
        assert_eq!(player, Player { lives });
        assert_eq!(scorekeeper, Scorekeeper { score: 500, high_score: 10000, level: 3 });
        assert!(commands.queue().is_empty());
    }
}

#[derive(Clone, Copy, Debug, PartialEq)]
enum Tag {
    Player,
    Enemy,
    Bullet,
    Other,
}

fn apply(world: &mut Vec<(u64, Tag)>, next_id: &mut u64, batch: Vec<GameCommand>) {
    for command in batch {
        match command {
            GameCommand::DestroyEntity(entity) => world.retain(|(id, _)| *id != entity),
            GameCommand::AddEntity(prefab) => {
                let tag = match prefab {
                    Prefab::Player(_) => Tag::Player,
                    Prefab::Enemy(_) => Tag::Enemy,
                    Prefab::Bullet(_) => Tag::Bullet,
                    _ => Tag::Other,
                };
                world.push((*next_id, tag));
                *next_id += 1;
            }
        }
    }
}

fn ids(world: &Vec<(u64, Tag)>, tag: Tag) -> Vec<u64> {
    world.iter().filter(|(_, t)| *t == tag).map(|(id, _)| *id).collect()
}

#[test]
fn a_full_reset_leaves_a_fresh_formation_and_one_player() {
    let mut world: Vec<(u64, Tag)> = vec![];
    let mut next_id = 0u64;
    let mut commands = GameCommandQueue::new();
    setup_player(&mut commands);
    apply(&mut world, &mut next_id, commands.drain());
    let mut player = Player { lives: 0 };
    let mut scorekeeper = Scorekeeper { score: 1200, high_score: 10000, level: 3 };
    // a battle in progress: seven enemies left, five bullets in flight
    for i in 0..7 {
        commands.issue(GameCommand::AddEntity(Prefab::Enemy(make_enemy(Position { x: i, y: 0 }))));
    }
    for i in 0..5 {
        commands.issue(GameCommand::AddEntity(Prefab::Bullet(make_bullet(
            Position { x: i, y: 9 },
            Position::up(),
            BulletType::Enemy,
        ))));
    }
    apply(&mut world, &mut next_id, commands.drain());
    assert_eq!(ids(&world, Tag::Enemy).len(), 7);
    assert_eq!(ids(&world, Tag::Bullet).len(), 5);

    // the reset transaction
    handle_player_death(
        &mut player,
        &mut scorekeeper,
        &ids(&world, Tag::Enemy),
        &ids(&world, Tag::Bullet),
        &mut commands,
    );
    assert_eq!(commands.queue().len(), 12);
    apply(&mut world, &mut next_id, commands.drain());
    assert_eq!(player.lives, PLAYER_STARTING_LIVES);
    assert_eq!(scorekeeper, Scorekeeper { score: 0, high_score: 10000, level: 0 });
    assert_eq!(ids(&world, Tag::Enemy).len(), 0);
    assert_eq!(ids(&world, Tag::Bullet).len(), 0);
    assert_eq!(ids(&world, Tag::Player).len(), 1);

    // the next frame finds no enemy and puts up the formation
    spawn_enemies(
        ids(&world, Tag::Enemy).len(),
        &ids(&world, Tag::Bullet),
        &mut scorekeeper,
        &mut commands,
    );
    apply(&mut world, &mut next_id, commands.drain());
    assert_eq!(ids(&world, Tag::Enemy).len(), wave_formation().cells().len());
    assert_eq!(ids(&world, Tag::Enemy).len(), 40);
    assert_eq!(ids(&world, Tag::Bullet).len(), 0);
    assert_eq!(ids(&world, Tag::Player).len(), 1);
    assert_eq!(scorekeeper.score, 0);
    assert_eq!(player.lives, 3);
}
