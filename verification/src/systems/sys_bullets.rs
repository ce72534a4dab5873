//! Bullets: flight, leaving the screen, and what a hit does.

use crate::collision::{
    enemy_hits, player_hits, select_enemy_hits, select_player_hits, select_spent_bullets,
    spent_bullets, Collision, CollisionBody,
};
use crate::commands::{destroy_all, destroyed_by, spec_destroys, GameCommand, GameCommandQueue};
use crate::components::{Bullet, Player, Scorekeeper};
use crate::constants::{
    ENEMY_BULLET_COLLISION_LAYER, ENEMY_COLLISION_LAYER, ENEMY_POINT_VALUE,
    PLAYER_BULLET_COLLISION_LAYER, SCREEN_HEIGHT,
};
use crate::cooldown::{has_elapsed, spec_has_elapsed};
use crate::coords::{can_translate, spec_translate, Position};
use crate::systems::{on_update, GameEvent, ScheduledSystem, SystemId};
use vstd::prelude::*;

verus! {

/// Time between two steps of a bullet.
pub const BULLET_MOVE_WAIT_TIME_MILLIS: u128 = 50;

/// The systems that move bullets and settle their collisions.
pub struct BulletSystemsGenerator {}

impl BulletSystemsGenerator {
    /// Flight comes first, then the two rules that name a victim, then the
    /// pass that removes spent bullets.
    pub open spec fn spec_generate() -> Seq<ScheduledSystem> {
        seq![
            on_update(SystemId::MoveBullets),
            on_update(SystemId::PlayerBulletHitsEnemy),
            on_update(SystemId::EnemyBulletHitsPlayer),
            on_update(SystemId::CleanupBullets),
        ]
    }

    /// The bullet systems in the order in which a frame runs them.
    pub fn generate(&self) -> (systems: Vec<ScheduledSystem>)
        ensures
            systems@ == Self::spec_generate(),
    {
        let mut systems: Vec<ScheduledSystem> = Vec::new();
        systems.push(ScheduledSystem { event: GameEvent::Update, system: SystemId::MoveBullets });
        systems.push(
            ScheduledSystem { event: GameEvent::Update, system: SystemId::PlayerBulletHitsEnemy },
        );
        systems.push(
            ScheduledSystem { event: GameEvent::Update, system: SystemId::EnemyBulletHitsPlayer },
        );
        systems.push(
            ScheduledSystem { event: GameEvent::Update, system: SystemId::CleanupBullets },
        );
        systems
    }
}

/// A bullet as a query finds it: the entity, its component and its place.
pub struct BulletMatch {
    pub entity: u64,
    pub bullet: Bullet,
    pub coords: Position,
}

/// A bullet is off the screen when its row is above the first or below the
/// last row.
pub open spec fn spec_is_out_of_bounds(coords: Position) -> bool {
    coords.y < 0 || coords.y > SCREEN_HEIGHT
}

pub fn is_out_of_bounds(coords: Position) -> (out: bool)
    ensures
        out == spec_is_out_of_bounds(coords),
{
    coords.y < 0 || coords.y > SCREEN_HEIGHT as i64
}

/// Where a bullet is after a frame in which its stopwatch read
/// `elapsed_millis`: one step further once the cooldown has expired, and where
/// it was before that.
pub open spec fn spec_step_bullet(
    coords: Position,
    direction: Position,
    elapsed_millis: u128,
) -> Position {
    if spec_has_elapsed(elapsed_millis, BULLET_MOVE_WAIT_TIME_MILLIS) {
        spec_translate(coords, direction)
    } else {
        coords
    }
}

/// Moves a bullet by one step if its cooldown has expired.
pub fn step_bullet(
    coords: Position,
    direction: Position,
    elapsed_millis: u128,
) -> (moved: Position)
    requires
        spec_has_elapsed(elapsed_millis, BULLET_MOVE_WAIT_TIME_MILLIS) ==> can_translate(
            coords,
            direction,
        ),
    ensures
        moved == spec_step_bullet(coords, direction, elapsed_millis),
{
    if has_elapsed(elapsed_millis, BULLET_MOVE_WAIT_TIME_MILLIS) {
        coords.translate(&direction)
    } else {
        coords
    }
}

/// What a frame may do to a bullet: it keeps its entity and its direction, and
/// either stays or takes one step.
pub open spec fn bullet_stepped(before: BulletMatch, after: BulletMatch) -> bool {
    &&& after.entity == before.entity
    &&& after.bullet.direction == before.bullet.direction
    &&& exists|elapsed_millis: u128|
        after.coords == spec_step_bullet(before.coords, before.bullet.direction, elapsed_millis)
}

/// The entities of the bullets that are off the screen, in their order.
pub open spec fn out_of_bounds_entities(bullets: Seq<BulletMatch>) -> Seq<u64> {
    bullets.filter(|b: BulletMatch| spec_is_out_of_bounds(b.coords)).map_values(
        |b: BulletMatch| b.entity,
    )
}

proof fn lemma_out_of_bounds_push(bullets: Seq<BulletMatch>, next: BulletMatch)
    ensures
        out_of_bounds_entities(bullets.push(next)) == if spec_is_out_of_bounds(next.coords) {
            out_of_bounds_entities(bullets).push(next.entity)
        } else {
            out_of_bounds_entities(bullets)
        },
{
    bullets.lemma_filter_push(next, |b: BulletMatch| spec_is_out_of_bounds(b.coords));
}

/// One frame of one bullet. A bullet that is off the screen is queued for
/// destruction, whether or not it moves. A bullet whose cooldown has expired
/// takes one step and starts waiting again.
pub fn move_bullet(bullet_match: &mut BulletMatch, commands: &mut GameCommandQueue)
    requires
        can_translate(old(bullet_match).coords, old(bullet_match).bullet.direction),
    ensures
        bullet_stepped(*old(bullet_match), *final(bullet_match)),
        final(commands)@ == if spec_is_out_of_bounds(old(bullet_match).coords) {
            old(commands)@.push(GameCommand::DestroyEntity(old(bullet_match).entity))
        } else {
            old(commands)@
        },
{
    try_move_bullet(bullet_match, commands);
}

/// One frame of one bullet, wherever on the grid it stands. It does what
/// `move_bullet` does, but a bullet whose step is due and would leave the
/// grid stays where it is, and `false` is handed back.
pub fn try_move_bullet(
    bullet_match: &mut BulletMatch,
    commands: &mut GameCommandQueue,
) -> (in_grid: bool)
    ensures
        bullet_stepped(*old(bullet_match), *final(bullet_match)),
        !in_grid ==> {
            &&& final(bullet_match).coords == old(bullet_match).coords
            &&& !can_translate(old(bullet_match).coords, old(bullet_match).bullet.direction)
        },
        final(commands)@ == if spec_is_out_of_bounds(old(bullet_match).coords) {
            old(commands)@.push(GameCommand::DestroyEntity(old(bullet_match).entity))
        } else {
            old(commands)@
        },
{
    if is_out_of_bounds(bullet_match.coords) {
        commands.issue(GameCommand::DestroyEntity(bullet_match.entity));
    }
    let elapsed_millis: u128 = bullet_match.bullet.move_timer.elapsed_millis();
    if has_elapsed(elapsed_millis, BULLET_MOVE_WAIT_TIME_MILLIS) {
        if !bullet_match.coords.fits(&bullet_match.bullet.direction) {
            assert(bullet_match.coords == spec_step_bullet(
                bullet_match.coords,
                bullet_match.bullet.direction,
                0,
            ));
            return false;
        }
        bullet_match.coords = step_bullet(
            bullet_match.coords,
            bullet_match.bullet.direction,
            elapsed_millis,
        );
        bullet_match.bullet.move_timer.restart();
    } else {
        assert(bullet_match.coords == spec_step_bullet(
            bullet_match.coords,
            bullet_match.bullet.direction,
            elapsed_millis,
        ));
    }
    true
}

/// One frame of every bullet, in the order of the matches.
pub fn move_bullets(bullets: &mut Vec<BulletMatch>, commands: &mut GameCommandQueue)
    requires
        forall|i: int|
            0 <= i < old(bullets).len() ==> can_translate(
                (#[trigger] old(bullets)[i]).coords,
                old(bullets)[i].bullet.direction,
            ),
    ensures
        final(bullets).len() == old(bullets).len(),
        forall|i: int|
            0 <= i < old(bullets).len() ==> bullet_stepped(
                old(bullets)[i],
                #[trigger] final(bullets)[i],
            ),
        final(commands)@ == old(commands)@ + destroy_all(out_of_bounds_entities(old(bullets)@)),
{
    try_move_bullets(bullets, commands);
}

/// One frame of every bullet, wherever on the grid they stand. It does what
/// `move_bullets` does, but a bullet whose step is due and would leave the
/// grid stays where it is, and `false` is handed back if there was one.
pub fn try_move_bullets(
    bullets: &mut Vec<BulletMatch>,
    commands: &mut GameCommandQueue,
) -> (in_grid: bool)
    ensures
        final(bullets).len() == old(bullets).len(),
        forall|i: int|
            0 <= i < old(bullets).len() ==> bullet_stepped(
                old(bullets)[i],
                #[trigger] final(bullets)[i],
            ),
        !in_grid ==> exists|i: int|
            0 <= i < old(bullets).len() && !can_translate(
                (#[trigger] old(bullets)[i]).coords,
                old(bullets)[i].bullet.direction,
            ),
        final(commands)@ == old(commands)@ + destroy_all(out_of_bounds_entities(old(bullets)@)),
{
    let count: usize = bullets.len();
    let mut i: usize = 0;
    let mut in_grid = true;
    assert(out_of_bounds_entities(old(bullets)@.take(0)) =~= Seq::<u64>::empty()) by {
        reveal(Seq::filter);
    }
    while i < count
        invariant
            i <= count,
            count == old(bullets).len(),
            bullets.len() == count,
            forall|j: int| i <= j < count ==> bullets[j] == old(bullets)[j],
            forall|j: int| 0 <= j < i ==> bullet_stepped(old(bullets)[j], #[trigger] bullets[j]),
            !in_grid ==> exists|j: int|
                0 <= j < i && !can_translate(
                    (#[trigger] old(bullets)[j]).coords,
                    old(bullets)[j].bullet.direction,
                ),
            commands@ == old(commands)@ + destroy_all(
                out_of_bounds_entities(old(bullets)@.take(i as int)),
            ),
        decreases count - i,
    {
        proof {
            lemma_out_of_bounds_push(old(bullets)@.take(i as int), old(bullets)@[i as int]);
            assert(old(bullets)@.take(i as int).push(old(bullets)@[i as int]) =~= old(
                bullets,
            )@.take(i + 1));
        }
        if !try_move_bullet(&mut bullets[i], commands) {
            assert(!can_translate(old(bullets)[i as int].coords, old(bullets)[i as int].bullet.direction));
            in_grid = false;
        }
        i += 1;
    }
    assert(old(bullets)@.take(count as int) =~= old(bullets)@);
    in_grid
}

/// The enemy of a collision in which a player's bullet meets an enemy.
pub open spec fn spec_enemy_of(collision: Collision) -> u64 {
    collision.spec_entity_on_layer(ENEMY_COLLISION_LAYER).unwrap()
}

/// The queue after the kills of `collisions` have been settled on `queue`, in
/// their order. An enemy dies once: a collision whose enemy already has its
/// destruction in the queue, from an earlier system of the frame or from an
/// earlier collision, adds nothing.
pub open spec fn settle_kills(queue: Seq<GameCommand>, collisions: Seq<Collision>) -> Seq<
    GameCommand,
>
    decreases collisions.len(),
{
    if collisions.len() == 0 {
        queue
    } else {
        let settled = settle_kills(queue, collisions.drop_last());
        if spec_destroys(settled, spec_enemy_of(collisions.last())) {
            settled
        } else {
            settled.push(GameCommand::DestroyEntity(spec_enemy_of(collisions.last())))
        }
    }
}

/// The number of enemies that `collisions` kill on top of what `queue`
/// already destroys.
pub open spec fn new_kills(queue: Seq<GameCommand>, collisions: Seq<Collision>) -> nat {
    (settle_kills(queue, collisions).len() - queue.len()) as nat
}

/// The score after `kills` enemies have been destroyed: each is worth the same
/// points, and the points add up.
pub open spec fn score_after(score: u64, kills: nat) -> int {
    score + ENEMY_POINT_VALUE * kills
}

/// Settling kills only adds to the queue, at most one command per collision,
/// and a longer batch adds at least what its beginning adds.
pub proof fn lemma_settle_kills_grows(
    queue: Seq<GameCommand>,
    collisions: Seq<Collision>,
    taken: int,
)
    requires
        0 <= taken <= collisions.len(),
    ensures
        queue.len() <= settle_kills(queue, collisions.take(taken)).len() <= settle_kills(
            queue,
            collisions,
        ).len() <= queue.len() + collisions.len(),
        settle_kills(queue, collisions).take(queue.len() as int) == queue,
        new_kills(queue, collisions.take(taken)) <= new_kills(queue, collisions),
    decreases collisions.len(),
{
    if collisions.len() == 0 {
        assert(collisions.take(taken) =~= collisions);
        assert(queue.take(queue.len() as int) =~= queue);
    } else {
        let earlier = collisions.drop_last();
        if taken == collisions.len() {
            assert(collisions.take(taken) =~= collisions);
            lemma_settle_kills_grows(queue, earlier, earlier.len() as int);
        } else {
            assert(earlier.take(taken) =~= collisions.take(taken));
            lemma_settle_kills_grows(queue, earlier, taken);
        }
        assert(settle_kills(queue, collisions).take(queue.len() as int) =~= settle_kills(
            queue,
            earlier,
        ).take(queue.len() as int));
    }
}

/// Whether every collision holds an enemy.
pub open spec fn spec_all_have_enemy(collisions: Seq<Collision>) -> bool {
    forall|i: int|
        0 <= i < collisions.len() ==> (#[trigger] collisions[i]).spec_has_layer(
            ENEMY_COLLISION_LAYER,
        )
}

/// Whether every collision holds an enemy.
pub fn all_have_enemy(collisions: &Vec<Collision>) -> (all: bool)
    ensures
        all == spec_all_have_enemy(collisions@),
{
    let mut i: usize = 0;
    while i < collisions.len()
        invariant
            i <= collisions.len(),
            forall|j: int|
                0 <= j < i ==> (#[trigger] collisions[j]).spec_has_layer(ENEMY_COLLISION_LAYER),
        decreases collisions.len() - i,
    {
        if !collisions[i].has_layer(ENEMY_COLLISION_LAYER) {
            return false;
        }
        i += 1;
    }
    true
}

/// Whether the points of the kills that `collisions` add to `commands` still
/// fit the score.
pub fn kills_fit(
    collisions: &Vec<Collision>,
    scorekeeper: &Scorekeeper,
    commands: &GameCommandQueue,
) -> (fit: bool)
    requires
        spec_all_have_enemy(collisions@),
    ensures
        fit == (score_after(scorekeeper.score, new_kills(commands@, collisions@)) <= u64::MAX),
{
    let mut scratch = commands.snapshot();
    let mut i: usize = 0;
    assert(collisions@.take(0) =~= Seq::<Collision>::empty());
    while i < collisions.len()
        invariant
            i <= collisions.len(),
            spec_all_have_enemy(collisions@),
            scratch@ == settle_kills(commands@, collisions@.take(i as int)),
        decreases collisions.len() - i,
    {
        proof {
            assert(collisions@.take(i + 1).drop_last() =~= collisions@.take(i as int));
            assert(collisions@.take(i + 1).last() == collisions@[i as int]);
        }
        let enemy = collisions[i].entity_on_layer(ENEMY_COLLISION_LAYER);
        assert(collisions[i as int].spec_has_layer(ENEMY_COLLISION_LAYER));
        if !scratch.destroys(enemy.unwrap()) {
            scratch.issue(GameCommand::DestroyEntity(enemy.unwrap()));
        }
        i += 1;
    }
    assert(collisions@.take(collisions.len() as int) =~= collisions@);
    proof {
        lemma_settle_kills_grows(commands@, collisions@, 0);
    }
    let kills: usize = scratch.len() - commands.len();
    match (kills as u64).checked_mul(ENEMY_POINT_VALUE) {
        Some(points) => scorekeeper.score.checked_add(points).is_some(),
        None => false,
    }
}

/// Settles the collisions in which a player's bullet meets an enemy. An enemy
/// whose destruction is not queued yet is queued for destruction and is worth
/// the points of one enemy; an enemy that is already on its way out is worth
/// nothing more, so that settling a collision again changes nothing. The
/// points add up, whatever the order of the collisions.
pub fn player_bullet_hits_enemy_collisions(
    collisions: &Vec<Collision>,
    scorekeeper: &mut Scorekeeper,
    commands: &mut GameCommandQueue,
)
    requires
        spec_all_have_enemy(collisions@),
        score_after(old(scorekeeper).score, new_kills(old(commands)@, collisions@)) <= u64::MAX,
    ensures
        final(commands)@ == settle_kills(old(commands)@, collisions@),
        *final(scorekeeper) == (Scorekeeper {
            score: score_after(
                old(scorekeeper).score,
                new_kills(old(commands)@, collisions@),
            ) as u64,
            ..*old(scorekeeper)
        }),
{
    let mut i: usize = 0;
    assert(collisions@.take(0) =~= Seq::<Collision>::empty());
    while i < collisions.len()
        invariant
            i <= collisions.len(),
            forall|j: int|
                0 <= j < collisions.len() ==> (#[trigger] collisions[j]).spec_has_layer(
                    ENEMY_COLLISION_LAYER,
                ),
            score_after(old(scorekeeper).score, new_kills(old(commands)@, collisions@))
                <= u64::MAX,
            commands@ == settle_kills(old(commands)@, collisions@.take(i as int)),
            *scorekeeper == (Scorekeeper {
                score: score_after(
                    old(scorekeeper).score,
                    new_kills(old(commands)@, collisions@.take(i as int)),
                ) as u64,
                ..*old(scorekeeper)
            }),
        decreases collisions.len() - i,
    {
        proof {
            lemma_settle_kills_grows(old(commands)@, collisions@, i as int);
            lemma_settle_kills_grows(old(commands)@, collisions@, i + 1);
            assert(collisions@.take(i + 1).drop_last() =~= collisions@.take(i as int));
            assert(collisions@.take(i + 1).last() == collisions@[i as int]);
        }
        let enemy = collisions[i].entity_on_layer(ENEMY_COLLISION_LAYER);
        assert(collisions[i as int].spec_has_layer(ENEMY_COLLISION_LAYER));
        if !commands.destroys(enemy.unwrap()) {
            commands.issue(GameCommand::DestroyEntity(enemy.unwrap()));
            proof {
                let so_far = new_kills(old(commands)@, collisions@.take(i as int));
                let with_this = new_kills(old(commands)@, collisions@.take(i + 1));
                let in_all = new_kills(old(commands)@, collisions@);
                assert(with_this == so_far + 1);
                assert(ENEMY_POINT_VALUE * with_this == ENEMY_POINT_VALUE * so_far
                    + ENEMY_POINT_VALUE) by (nonlinear_arith)
                    requires
                        with_this == so_far + 1,
                ;
                assert(ENEMY_POINT_VALUE * with_this <= ENEMY_POINT_VALUE * in_all)
                    by (nonlinear_arith)
                    requires
                        with_this <= in_all,
                ;
            }
            scorekeeper.score = scorekeeper.score + ENEMY_POINT_VALUE;
        }
        i += 1;
    }
    assert(collisions@.take(collisions.len() as int) =~= collisions@);
}

/// The lives left after `hits` hits: one life per hit, and never less than
/// none.
pub open spec fn lives_after(lives: u8, hits: nat) -> u8 {
    if hits >= lives {
        0
    } else {
        (lives - hits) as u8
    }
}

/// Settles the collisions in which an enemy's bullet meets the player: each
/// costs one life as long as there is one to lose.
pub fn enemy_bullet_hits_player_collisions(collisions: &Vec<Collision>, player: &mut Player)
    ensures
        final(player).lives == lives_after(old(player).lives, collisions@.len()),
{
    let mut i: usize = 0;
    while i < collisions.len()
        invariant
            i <= collisions.len(),
            player.lives == lives_after(old(player).lives, i as nat),
        decreases collisions.len() - i,
    {
        if player.lives > 0 {
            player.lives = player.lives - 1;
        }
        i += 1;
    }
}

/// Whether a body on `layer` is a bullet.
pub open spec fn spec_is_bullet_layer(layer: i32) -> bool {
    layer == ENEMY_BULLET_COLLISION_LAYER || layer == PLAYER_BULLET_COLLISION_LAYER
}

/// The commands that destroy the bullets of a collision: one for each body on
/// a bullet layer, the first body first.
pub open spec fn spent_in(collision: Collision) -> Seq<GameCommand> {
    let first = if spec_is_bullet_layer(collision.first.layer) {
        seq![GameCommand::DestroyEntity(collision.first.entity)]
    } else {
        Seq::empty()
    };
    if spec_is_bullet_layer(collision.second.layer) {
        first.push(GameCommand::DestroyEntity(collision.second.entity))
    } else {
        first
    }
}

/// The commands that destroy every bullet of every collision, in their order.
pub open spec fn cleanup_commands(collisions: Seq<Collision>) -> Seq<GameCommand>
    decreases collisions.len(),
{
    if collisions.len() == 0 {
        Seq::empty()
    } else {
        cleanup_commands(collisions.drop_last()) + spent_in(collisions.last())
    }
}

/// Whether a body on `layer` is a bullet.
pub fn is_bullet_layer(layer: i32) -> (bullet: bool)
    ensures
        bullet == spec_is_bullet_layer(layer),
{
    layer == ENEMY_BULLET_COLLISION_LAYER || layer == PLAYER_BULLET_COLLISION_LAYER
}

/// Removes every bullet of every collision: a bullet that has hit something
/// does not fly on to hit something else. A destruction that is queued twice
/// is carried out once.
pub fn cleanup_bullets_on_collision(collisions: &Vec<Collision>, commands: &mut GameCommandQueue)
    ensures
        final(commands)@ == old(commands)@ + cleanup_commands(collisions@),
{
    let mut i: usize = 0;
    assert(old(commands)@ + cleanup_commands(collisions@.take(0)) =~= old(commands)@);
    while i < collisions.len()
        invariant
            i <= collisions.len(),
            commands@ == old(commands)@ + cleanup_commands(collisions@.take(i as int)),
        decreases collisions.len() - i,
    {
        proof {
            assert(collisions@.take(i + 1).drop_last() =~= collisions@.take(i as int));
            assert(collisions@.take(i + 1).last() == collisions@[i as int]);
        }
        let ghost queued = commands@;
        if is_bullet_layer(collisions[i].first.layer) {
            commands.issue(GameCommand::DestroyEntity(collisions[i].first.entity));
        }
        if is_bullet_layer(collisions[i].second.layer) {
            commands.issue(GameCommand::DestroyEntity(collisions[i].second.entity));
        }
        assert(commands@ =~= queued + spent_in(collisions@[i as int]));
        i += 1;
    }
    assert(collisions@.take(collisions.len() as int) =~= collisions@);
}

/// Whether the system `system` settles the collision: each of the three
/// collision systems takes the collisions of its own rule, and no other
/// system takes any.
pub open spec fn spec_selects(system: SystemId, collision: Collision) -> bool {
    match system {
        SystemId::PlayerBulletHitsEnemy => collision.spec_is_enemy_hit(),
        SystemId::EnemyBulletHitsPlayer => collision.spec_is_player_hit(),
        SystemId::CleanupBullets => collision.spec_is_spent_bullet(),
        _ => false,
    }
}

/// Whether the system `system` settles the collision.
pub fn selects(system: SystemId, collision: &Collision) -> (selected: bool)
    ensures
        selected == spec_selects(system, *collision),
{
    match system {
        SystemId::PlayerBulletHitsEnemy => collision.is_enemy_hit(),
        SystemId::EnemyBulletHitsPlayer => collision.is_player_hit(),
        SystemId::CleanupBullets => collision.is_spent_bullet(),
        _ => false,
    }
}

/// One frame of combat. The collisions of the frame are sorted by the layers
/// they hold and settled rule by rule: a player's bullet on an enemy destroys
/// the enemy and scores; an enemy's bullet on the player costs a life; every
/// bullet that has hit something but a bullet of the other side is removed.
/// Two bullets of opposite sides pass through each other.
pub fn resolve_collisions(
    collisions: &Vec<Collision>,
    player: &mut Player,
    scorekeeper: &mut Scorekeeper,
    commands: &mut GameCommandQueue,
)
    requires
        score_after(
            old(scorekeeper).score,
            new_kills(old(commands)@, enemy_hits(collisions@)),
        ) <= u64::MAX,
    ensures
        final(commands)@ == settle_kills(old(commands)@, enemy_hits(collisions@))
            + cleanup_commands(spent_bullets(collisions@)),
        *final(scorekeeper) == (Scorekeeper {
            score: score_after(
                old(scorekeeper).score,
                new_kills(old(commands)@, enemy_hits(collisions@)),
            ) as u64,
            ..*old(scorekeeper)
        }),
        final(player).lives == lives_after(old(player).lives, player_hits(collisions@).len()),
{
    broadcast use vstd::seq_lib::group_filter_ensures;

    let killed = select_enemy_hits(collisions);
    let wounded = select_player_hits(collisions);
    let spent = select_spent_bullets(collisions);
    assert forall|i: int| 0 <= i < killed.len() implies (#[trigger] killed[i]).spec_has_layer(
        ENEMY_COLLISION_LAYER,
    ) by {
        collisions@.lemma_filter_pred(|c: Collision| c.spec_is_enemy_hit(), i);
    }
    player_bullet_hits_enemy_collisions(&killed, scorekeeper, commands);
    enemy_bullet_hits_player_collisions(&wounded, player);
    cleanup_bullets_on_collision(&spent, commands);
}

/// Where a bullet is after the frames whose stopwatch readings are
/// `readings`, oldest first.
pub open spec fn spec_fly(coords: Position, direction: Position, readings: Seq<u128>) -> Position
    decreases readings.len(),
{
    if readings.len() == 0 {
        coords
    } else {
        spec_step_bullet(
            spec_fly(coords, direction, readings.drop_last()),
            direction,
            readings.last(),
        )
    }
}

/// How many of the readings had reached the waiting time of a bullet.
pub open spec fn expired_readings(readings: Seq<u128>) -> nat
    decreases readings.len(),
{
    if readings.len() == 0 {
        0
    } else {
        expired_readings(readings.drop_last()) + if spec_has_elapsed(
            readings.last(),
            BULLET_MOVE_WAIT_TIME_MILLIS,
        ) {
            1nat
        } else {
            0nat
        }
    }
}

/// A bullet that starts on row 0 and flies up has climbed one row for each
/// frame in which its cooldown had expired, and none in any other frame. It is
/// off the screen exactly when it has climbed more rows than the screen is
/// high; `move_bullet` queues its destruction in the first frame that finds
/// it there.
pub proof fn lemma_bullet_climbs_once_per_cooldown(column: i64, readings: Seq<u128>)
    ensures
        expired_readings(readings) <= readings.len(),
        readings.len() <= i64::MAX ==> spec_fly(
            Position { x: column, y: 0 },
            crate::coords::spec_up(),
            readings,
        ) == (Position { x: column, y: expired_readings(readings) as i64 }),
        readings.len() <= i64::MAX ==> (spec_is_out_of_bounds(
            spec_fly(Position { x: column, y: 0 }, crate::coords::spec_up(), readings),
        ) <==> expired_readings(readings) > SCREEN_HEIGHT),
    decreases readings.len(),
{
    if readings.len() > 0 {
        lemma_bullet_climbs_once_per_cooldown(column, readings.drop_last());
    }
}

/// A frame that finds the cooldown of a bullet running leaves the bullet where
/// it is.
pub proof fn lemma_bullet_waits_for_cooldown(
    coords: Position,
    direction: Position,
    elapsed_millis: u128,
)
    requires
        elapsed_millis < BULLET_MOVE_WAIT_TIME_MILLIS,
    ensures
        spec_step_bullet(coords, direction, elapsed_millis) == coords,
{
}

/// Lives are lost one per hit and never fall below none, however many hits a
/// frame brings. Hits beyond the last life change nothing.
pub proof fn lemma_lives_never_below_zero(lives: u8, hits: nat, more_hits: nat)
    ensures
        0 <= lives_after(lives, hits) <= lives,
        lives_after(lives, hits) == if hits <= lives {
            lives - hits
        } else {
            0
        },
        lives_after(lives_after(lives, hits), more_hits) == lives_after(lives, hits + more_hits),
{
}

/// A collision of one bullet of the player with one enemy, in either order of
/// the two bodies, is settled by two rules. If the enemy is not on its way out
/// yet, it is queued for destruction, once, and scores once; the bullet is
/// spent; nothing happens to the player. Settling the same collision again on
/// the queue that the first pass left adds no kill and no points, and the
/// bullet's second destruction destroys nothing new.
pub proof fn lemma_player_bullet_on_enemy(
    collision: Collision,
    bullet: u64,
    enemy: u64,
    score: u64,
    queue: Seq<GameCommand>,
)
    requires
        ({
            let bullet_body = CollisionBody {
                entity: bullet,
                layer: PLAYER_BULLET_COLLISION_LAYER,
            };
            let enemy_body = CollisionBody { entity: enemy, layer: ENEMY_COLLISION_LAYER };
            ||| collision == (Collision { first: bullet_body, second: enemy_body })
            ||| collision == (Collision { first: enemy_body, second: bullet_body })
        }),
    ensures
        enemy_hits(seq![collision]) == seq![collision],
        player_hits(seq![collision]) == Seq::<Collision>::empty(),
        spent_bullets(seq![collision]) == seq![collision],
        cleanup_commands(seq![collision]) == seq![GameCommand::DestroyEntity(bullet)],
        !spec_destroys(queue, enemy) ==> {
            &&& settle_kills(queue, seq![collision]) == queue.push(
                GameCommand::DestroyEntity(enemy),
            )
            &&& score_after(score, new_kills(queue, seq![collision])) == score
                + ENEMY_POINT_VALUE
        },
        spec_destroys(queue, enemy) ==> {
            &&& settle_kills(queue, seq![collision]) == queue
            &&& score_after(score, new_kills(queue, seq![collision])) == score
        },
        ({
            let settled = settle_kills(queue, seq![collision]);
            &&& settle_kills(settled, seq![collision]) == settled
            &&& new_kills(settled, seq![collision]) == 0
            &&& destroyed_by(settled + cleanup_commands(seq![collision]) + cleanup_commands(
                seq![collision],
            )) == destroyed_by(settled + cleanup_commands(seq![collision]))
        }),
{
    reveal_with_fuel(Seq::filter, 2);
    reveal_with_fuel(settle_kills, 2);
    reveal_with_fuel(cleanup_commands, 2);
    let one = seq![collision];
    assert(one.drop_last() =~= Seq::<Collision>::empty());
    assert(one.last() == collision);
    assert(enemy_hits(one) =~= one);
    assert(player_hits(one) =~= Seq::<Collision>::empty());
    assert(spent_bullets(one) =~= one);
    assert(spec_enemy_of(collision) == enemy);
    assert(cleanup_commands(one) =~= seq![GameCommand::DestroyEntity(bullet)]);
    let settled = settle_kills(queue, one);
    assert(ENEMY_POINT_VALUE * 1 == ENEMY_POINT_VALUE) by (nonlinear_arith);
    assert(ENEMY_POINT_VALUE * 0 == 0) by (nonlinear_arith);
    if !spec_destroys(queue, enemy) {
        assert(settled == queue.push(GameCommand::DestroyEntity(enemy)));
        assert(settled[queue.len() as int] == GameCommand::DestroyEntity(enemy));
    }
    assert(spec_destroys(settled, enemy));
    let cleaned = settled + cleanup_commands(one);
    let again = cleaned + cleanup_commands(one);
    assert forall|entity: u64| destroyed_by(again).contains(entity) implies destroyed_by(
        cleaned,
    ).contains(entity) by {
        let i = choose|i: int|
            0 <= i < again.len() && again[i] == GameCommand::DestroyEntity(entity);
        if i < cleaned.len() {
            assert(cleaned[i] == GameCommand::DestroyEntity(entity));
        } else {
            assert(cleaned[settled.len() as int] == GameCommand::DestroyEntity(bullet));
        }
    }
    assert forall|entity: u64| destroyed_by(cleaned).contains(entity) implies destroyed_by(
        again,
    ).contains(entity) by {
        let i = choose|i: int|
            0 <= i < cleaned.len() && cleaned[i] == GameCommand::DestroyEntity(entity);
        assert(again[i] == GameCommand::DestroyEntity(entity));
    }
    assert(destroyed_by(again) =~= destroyed_by(cleaned));
}

/// A bullet is queued for destruction exactly when the frame finds it off the
/// screen, whether or not its cooldown has expired: among bullets that are
/// different entities, the commands of the frame name a bullet if and only if
/// it entered the frame above the first or below the last row.
pub proof fn lemma_bullet_is_culled_iff_off_screen(bullets: Seq<BulletMatch>, index: int)
    requires
        0 <= index < bullets.len(),
        forall|i: int, j: int|
            0 <= i < j < bullets.len() ==> bullets[i].entity != bullets[j].entity,
    ensures
        spec_destroys(destroy_all(out_of_bounds_entities(bullets)), bullets[index].entity)
            <==> spec_is_out_of_bounds(bullets[index].coords),
{
    broadcast use vstd::seq_lib::group_filter_ensures;

    let off_screen = |b: BulletMatch| spec_is_out_of_bounds(b.coords);
    let culled = bullets.filter(off_screen);
    let entities = out_of_bounds_entities(bullets);
    let batch = destroy_all(entities);
    let wanted = GameCommand::DestroyEntity(bullets[index].entity);
    if spec_is_out_of_bounds(bullets[index].coords) {
        bullets.lemma_filter_contains(off_screen, index);
        let k = choose|k: int| 0 <= k < culled.len() && culled[k] == bullets[index];
        assert(batch[k] == wanted);
    }
    if batch.contains(wanted) {
        let k = choose|k: int| 0 <= k < batch.len() && batch[k] == wanted;
        assert(culled[k].entity == bullets[index].entity);
        bullets.lemma_filter_pred(off_screen, k);
        assert(culled.contains(culled[k]));
        bullets.lemma_filter_contains_rev(off_screen, culled[k]);
        let i = choose|i: int| 0 <= i < bullets.len() && bullets[i] == culled[k];
        assert(i == index);
    }
}

} // verus!
