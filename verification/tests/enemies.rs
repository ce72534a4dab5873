use space_invaders::commands::{GameCommand, GameCommandQueue};
use space_invaders::components::{Enemy, EnemyMovement, Scorekeeper};
use space_invaders::constants::{ENEMY_BULLET_COLLISION_LAYER, ENEMY_COLLISION_LAYER};
use space_invaders::coords::Position;
use space_invaders::prefabs::{make_bullet, make_enemy, BulletPrefab, BulletType, EnemyPrefab, Prefab};
use space_invaders::systems::sys_enemies::{
    any_at_max_x, any_at_min_x, enemy_shoot, enemy_shoots, forced_direction, free_direction,
    is_at_max_x, is_at_min_x, movement, setup_enemies, shift_all, shoot, shoot_after,
    spawn_enemies, step_formation, try_enemy_shoot, try_movement, try_shoot, try_shoot_after,
    wave_formation, all_can_step, EnemyMatch, EnemySystemsGenerator,
    ENEMY_GRID_HEIGHT, ENEMY_GRID_WIDTH, ENEMY_MAX_X, ENEMY_MIN_X, ENEMY_MOVE_WAIT_TIME,
    ENEMY_SHOOT_CHANCE, ENEMY_SHOOT_WAIT_TIME,
};
use space_invaders::systems::{GameEvent, ScheduledSystem, SystemId};
use std::time::{Duration, Instant};

fn pause(millis: u64) {
    let start = Instant::now();
    while start.elapsed() < Duration::from_millis(millis) {}
}

fn keeper(level: u64) -> Scorekeeper {
    Scorekeeper { score: 700, high_score: 10000, level }
}

#[test]
fn enemy_systems_spawn_before_they_shoot_and_move() {
    let systems = EnemySystemsGenerator {}.generate();
    let expected = vec![
        ScheduledSystem { event: GameEvent::Init, system: SystemId::EnemySetup },
        ScheduledSystem { event: GameEvent::Update, system: SystemId::SpawnEnemies },
        ScheduledSystem { event: GameEvent::Update, system: SystemId::EnemyShoot },
        ScheduledSystem { event: GameEvent::Update, system: SystemId::EnemyMovement },
    ];
    assert_eq!(systems, expected);
}

#[test]
fn setup_creates_the_formation_stopwatch() {
    let mut commands = GameCommandQueue::new();
    setup_enemies(&mut commands);
    assert_eq!(commands.queue(), &vec![GameCommand::AddEntity(Prefab::EnemyMovement)]);
}

#[test]
fn the_wave_formation_is_ten_by_four_and_centered() {
    let formation = wave_formation();
    assert!(formation.is_placeable());
    let cells = formation.cells();
    assert_eq!(cells.len() as u64, ENEMY_GRID_HEIGHT * ENEMY_GRID_WIDTH);
    assert_eq!(cells[0], Position { x: 11, y: 0 });
    assert_eq!(cells[1], Position { x: 14, y: 0 });
    assert_eq!(cells[9], Position { x: 38, y: 0 });
    assert_eq!(cells[10], Position { x: 11, y: 1 });
    assert_eq!(cells[39], Position { x: 38, y: 3 });
}

#[test]
fn an_enemy_prefab_is_drawn_on_the_base_layer() {
    assert_eq!(
        make_enemy(Position { x: 4, y: 2 }),
        EnemyPrefab {
            coords: Position { x: 4, y: 2 },
            display: '@',
            render_layer: 0,
            collision_layer: ENEMY_COLLISION_LAYER,
            collider_active: true,
        }
    );
}

#[test]
fn clearing_the_wave_respawns_once_and_raises_the_wave_once() {
    let mut scorekeeper = keeper(4);
    let mut commands = GameCommandQueue::new();
    let bullets = vec![31u64, 32];
    spawn_enemies(0, &bullets, &mut scorekeeper, &mut commands);
    assert_eq!(scorekeeper, Scorekeeper { score: 700, high_score: 10000, level: 5 });
    let queued = commands.drain();
    assert_eq!(queued.len(), 42);
    let cells = wave_formation().cells();
    for (i, cell) in cells.iter().enumerate() {
        assert_eq!(queued[i], GameCommand::AddEntity(Prefab::Enemy(make_enemy(*cell))));
    }
    assert_eq!(queued[40], GameCommand::DestroyEntity(31));
    assert_eq!(queued[41], GameCommand::DestroyEntity(32));

    // the next frame finds the new formation and leaves it alone
    spawn_enemies(40, &vec![], &mut scorekeeper, &mut commands);
    assert_eq!(scorekeeper.level, 5);
    assert!(commands.queue().is_empty());
}

#[test]
fn nothing_respawns_while_an_enemy_lives() {
    for alive in [1usize, 2, 39, 40, 1000] {
        let mut scorekeeper = keeper(1);
        let mut commands = GameCommandQueue::new();
        spawn_enemies(alive, &vec![5, 6], &mut scorekeeper, &mut commands);
        assert_eq!(scorekeeper, keeper(1));
        assert!(commands.queue().is_empty());
    }
}

#[test]
fn an_enemy_shoots_only_after_its_cooldown_and_within_its_chance() {
    assert!(!enemy_shoots(ENEMY_SHOOT_WAIT_TIME - 1, 1));
    assert!(enemy_shoots(ENEMY_SHOOT_WAIT_TIME, 1));
    assert!(enemy_shoots(ENEMY_SHOOT_WAIT_TIME, ENEMY_SHOOT_CHANCE));
    assert!(!enemy_shoots(ENEMY_SHOOT_WAIT_TIME, ENEMY_SHOOT_CHANCE + 1));
    assert!(!enemy_shoots(100000, 100));
}

#[test]
fn an_enemy_bullet_starts_one_cell_up_and_flies_up() {
    let prefab = make_bullet(Position { x: 5, y: 4 }, Position::up(), BulletType::Enemy);
    assert_eq!(
        prefab,
        BulletPrefab {
            start_pos: Position { x: 5, y: 4 },
            direction: Position { x: 0, y: 1 },
            bullet_type: BulletType::Enemy,
            display: 'o',
            render_layer: -1,
            collision_layer: ENEMY_BULLET_COLLISION_LAYER,
            collider_active: true,
        }
    );
}

#[test]
fn a_fresh_enemy_holds_its_fire() {
    let mut found = EnemyMatch { enemy: Enemy::new(), coords: Position { x: 5, y: 3 } };
    let mut commands = GameCommandQueue::new();
    assert!(!enemy_shoot(&mut found, &mut commands));
    assert!(commands.queue().is_empty());
    assert_eq!(found.coords, Position { x: 5, y: 3 });
}

#[test]
fn every_shot_is_a_bullet_of_its_enemy() {
    let mut shots = 0;
    let mut rounds = 0;
    while shots == 0 && rounds < 40 {
        let mut enemies: Vec<EnemyMatch> = (0..20)
            .map(|i| EnemyMatch { enemy: Enemy::new(), coords: Position { x: i, y: 2 } })
            .collect();
        pause(210);
        let mut commands = GameCommandQueue::new();
        shoot(&mut enemies, &mut commands);
        let queued = commands.drain();
        let mut last_column = -1;
        for command in queued.iter() {
            match command {
                GameCommand::AddEntity(Prefab::Bullet(bullet)) => {
                    assert_eq!(bullet.start_pos.y, 3);
                    assert!(0 <= bullet.start_pos.x && bullet.start_pos.x < 20);
                    assert!(bullet.start_pos.x > last_column);
                    last_column = bullet.start_pos.x;
                    assert_eq!(
                        *bullet,
                        make_bullet(bullet.start_pos, Position::up(), BulletType::Enemy)
                    );
                }
                other => panic!("unexpected command {:?}", other),
            }
        }
        for (i, found) in enemies.iter().enumerate() {
            assert_eq!(found.coords, Position { x: i as i64, y: 2 });
        }
        shots += queued.len();
        rounds += 1;
    }
    assert!(shots > 0);
}

#[test]
fn the_edges_of_the_range_are_inclusive() {
    assert!(is_at_min_x(Position { x: ENEMY_MIN_X as i64, y: 0 }));
    assert!(is_at_min_x(Position { x: 0, y: 0 }));
    assert!(!is_at_min_x(Position { x: ENEMY_MIN_X as i64 + 1, y: 0 }));
    assert!(is_at_max_x(Position { x: ENEMY_MAX_X as i64, y: 0 }));
    assert!(!is_at_max_x(Position { x: ENEMY_MAX_X as i64 - 1, y: 0 }));
    assert_eq!(ENEMY_MAX_X, 46);
}

#[test]
fn an_enemy_at_an_edge_turns_the_whole_formation() {
    let at_left = vec![Position { x: 10, y: 0 }, Position { x: 3, y: 1 }];
    let at_right = vec![Position { x: 46, y: 0 }, Position { x: 20, y: 1 }];
    let in_between = vec![Position { x: 10, y: 0 }, Position { x: 20, y: 1 }];
    let at_both = vec![Position { x: 46, y: 0 }, Position { x: 3, y: 1 }];
    assert!(any_at_min_x(&at_left) && !any_at_max_x(&at_left));
    assert!(!any_at_min_x(&at_right) && any_at_max_x(&at_right));
    assert_eq!(forced_direction(&at_left), Some(Position::right()));
    assert_eq!(forced_direction(&at_right), Some(Position::left()));
    assert_eq!(forced_direction(&in_between), None);
    assert_eq!(forced_direction(&at_both), Some(Position::right()));
    assert_eq!(forced_direction(&vec![]), None);
    assert_eq!(free_direction(0), Position::left());
    assert_eq!(free_direction(1), Position::right());
}

#[test]
fn the_formation_moves_as_one_block() {
    let mut coords = vec![Position { x: 10, y: 0 }, Position { x: 13, y: 0 }, Position { x: 10, y: 1 }];
    shift_all(&mut coords, Position::left());
    assert_eq!(
        coords,
        vec![Position { x: 9, y: 0 }, Position { x: 12, y: 0 }, Position { x: 9, y: 1 }]
    );
}

#[test]
fn the_formation_steps_once_its_reading_has_reached_the_wait() {
    let start = vec![Position { x: 3, y: 0 }, Position { x: 6, y: 1 }];
    let mut early = start.clone();
    assert!(!step_formation(&mut early, ENEMY_MOVE_WAIT_TIME - 1));
    assert_eq!(early, start);
    let mut due = start.clone();
    assert!(step_formation(&mut due, ENEMY_MOVE_WAIT_TIME));
    assert_eq!(due, vec![Position { x: 4, y: 0 }, Position { x: 7, y: 1 }]);
    let mut at_right = vec![Position { x: 46, y: 0 }, Position { x: 40, y: 1 }];
    assert!(step_formation(&mut at_right, 5000));
    assert_eq!(at_right, vec![Position { x: 45, y: 0 }, Position { x: 39, y: 1 }]);
    let mut free = vec![Position { x: 20, y: 0 }, Position { x: 23, y: 1 }];
    assert!(step_formation(&mut free, 800));
    let step = free[0].x - 20;
    assert!(step == 1 || step == -1);
    assert_eq!(free[1], Position { x: 23 + step, y: 1 });
    let mut nobody: Vec<Position> = vec![];
    assert!(step_formation(&mut nobody, 800));
    assert!(nobody.is_empty());
}

#[test]
fn an_enemy_never_shoots_before_its_reading_has_reached_the_wait() {
    let mut commands = GameCommandQueue::new();
    for _ in 0..200 {
        assert!(!shoot_after(Position { x: 5, y: 3 }, ENEMY_SHOOT_WAIT_TIME - 1, &mut commands));
    }
    assert!(commands.queue().is_empty());
    let mut shots = 0;
    for _ in 0..2000 {
        if shoot_after(Position { x: 5, y: 3 }, ENEMY_SHOOT_WAIT_TIME, &mut commands) {
            shots += 1;
        }
    }
    assert!(shots > 0 && shots < 2000);
    assert_eq!(commands.queue().len(), shots);
    assert_eq!(
        commands.queue()[0],
        GameCommand::AddEntity(Prefab::Bullet(make_bullet(
            Position { x: 5, y: 4 },
            Position::up(),
            BulletType::Enemy
        )))
    );
}

#[test]
fn enemies_on_the_edge_of_the_grid_fail_only_when_they_act() {
    let edge = Position { x: i64::MAX, y: i64::MAX };
    assert!(!all_can_step(&vec![Position { x: 5, y: 0 }, edge]));
    assert!(!all_can_step(&vec![Position { x: i64::MIN, y: 0 }]));
    assert!(all_can_step(&vec![Position { x: i64::MAX - 1, y: 0 }]));
    assert!(all_can_step(&vec![]));

    let mut coords = vec![edge];
    let mut stopwatch = EnemyMovement::new();
    assert!(try_movement(&mut coords, &mut stopwatch));
    assert_eq!(coords, vec![edge]);
    pause(810);
    assert!(!try_movement(&mut coords, &mut stopwatch));
    assert_eq!(coords, vec![edge]);
    let mut inside = vec![Position { x: 3, y: 0 }];
    assert!(try_movement(&mut inside, &mut stopwatch));
    assert_eq!(inside, vec![Position { x: 4, y: 0 }]);

    let mut commands = GameCommandQueue::new();
    assert_eq!(try_shoot_after(edge, ENEMY_SHOOT_WAIT_TIME - 1, &mut commands), Some(false));
    let mut refused = 0;
    for _ in 0..500 {
        match try_shoot_after(edge, ENEMY_SHOOT_WAIT_TIME, &mut commands) {
            None => refused += 1,
            Some(shot) => assert!(!shot),
        }
    }
    assert!(refused > 0 && refused < 500);
    assert!(commands.queue().is_empty());
    let mut found = EnemyMatch { enemy: Enemy::new(), coords: edge };
    assert_eq!(try_enemy_shoot(&mut found, &mut commands), Some(false));
    let mut enemies = vec![found];
    assert!(try_shoot(&mut enemies, &mut commands));
    assert!(commands.queue().is_empty());
}

#[test]
fn the_formation_waits_for_its_cooldown() {
    let mut coords = vec![Position { x: 3, y: 0 }, Position { x: 6, y: 0 }];
    let mut stopwatch = EnemyMovement::new();
    movement(&mut coords, &mut stopwatch);
    assert_eq!(coords, vec![Position { x: 3, y: 0 }, Position { x: 6, y: 0 }]);
}

#[test]
fn the_formation_steps_away_from_the_edge_after_its_cooldown() {
    let mut coords = vec![Position { x: 3, y: 0 }, Position { x: 6, y: 0 }];
    let mut stopwatch = EnemyMovement::new();
    pause(810);
    movement(&mut coords, &mut stopwatch);
    assert_eq!(coords, vec![Position { x: 4, y: 0 }, Position { x: 7, y: 0 }]);
    movement(&mut coords, &mut stopwatch);
    assert_eq!(coords, vec![Position { x: 4, y: 0 }, Position { x: 7, y: 0 }]);
}

#[test]
fn a_free_formation_steps_one_cell_either_way() {
    let mut coords = vec![Position { x: 20, y: 0 }, Position { x: 23, y: 2 }];
    let mut stopwatch = EnemyMovement::new();
    pause(810);
    movement(&mut coords, &mut stopwatch);
    let step = coords[0].x - 20;
    assert!(step == 1 || step == -1);
    assert_eq!(coords, vec![Position { x: 20 + step, y: 0 }, Position { x: 23 + step, y: 2 }]);
}

#[test]
fn no_enemy_no_step() {
    let mut coords: Vec<Position> = vec![];
    let mut stopwatch = EnemyMovement::new();
    pause(810);
    movement(&mut coords, &mut stopwatch);
    assert!(coords.is_empty());
}
