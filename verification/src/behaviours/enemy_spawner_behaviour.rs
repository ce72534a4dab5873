//! The spawner: keeper of the formation.
//!
//! The spawner knows the enemies of the current wave by their identities. It
//! strikes an enemy off its list when the enemy reports its death, and puts
//! up a new formation when the list is empty. A death that is reported twice,
//! or of an enemy the spawner does not know, changes nothing; the order of
//! the reports does not matter.

use crate::behaviours::commands::{
    destroy_all, issue_destroy_all, names, Command, CommandQueue, CommandView,
};
use crate::behaviours::messages::{Message, MessageView, MoveEnemyPayload};
use crate::chance::flip_coin;
use crate::constants::SCREEN_WIDTH;
use crate::cooldown::{has_elapsed, spec_has_elapsed};
use crate::coords::{spec_left, spec_right, spec_zero, Position};
use crate::entities::{make_enemy, spec_make_enemy};
use crate::formation::{spec_enemy_x_pos, Formation};
use crate::text::{push_decimal, spec_decimal};
use thomas::Timer;
use vstd::prelude::*;

verus! {

/// Time between two steps of the formation.
pub const ENEMY_MOVE_WAIT_TIME_MILLIS: u128 = 1500;

/// Enemies in a row of the formation.
pub const NUM_ENEMIES_IN_ROW: u64 = 12;

/// Rows of the formation.
pub const NUM_ENEMY_ROWS: u64 = 3;

/// Empty cells between two neighbours of a row, and between two rows.
pub const ENEMY_PADDING: u64 = 2;

/// Columns at either edge of the screen that the formation stays out of.
pub const SCREEN_EDGE_PADDING: u64 = 4;

/// The state of the spawner.
pub struct EnemySpawnerBehaviour {
    should_reset: bool,
    enemy_move_timer: Timer,
    existing_enemy_entity_ids: Vec<String>,
    next_enemy_serial: u64,
    wave: u64,
}

/// The state of the spawner, with identities as sequences of characters.
pub struct EnemySpawnerView {
    /// Whether a reset has been asked for.
    pub should_reset: bool,
    /// The enemies of the current wave that have not reported their death.
    pub existing_enemy_entity_ids: Seq<Seq<char>>,
    /// The number that the next enemy gets.
    pub next_enemy_serial: u64,
    /// The number of formations put up since the game started or was reset.
    pub wave: u64,
}

impl View for EnemySpawnerBehaviour {
    type V = EnemySpawnerView;

    closed spec fn view(&self) -> EnemySpawnerView {
        EnemySpawnerView {
            should_reset: self.should_reset,
            existing_enemy_entity_ids: names(self.existing_enemy_entity_ids@),
            next_enemy_serial: self.next_enemy_serial,
            wave: self.wave,
        }
    }
}

/// The identity of the enemy with the number `serial`.
pub open spec fn spec_enemy_id(serial: nat) -> Seq<char> {
    "enemy-"@ + spec_decimal(serial)
}

/// The identity of the enemy with the number `serial`.
pub fn enemy_id(serial: u64) -> (id: String)
    ensures
        id@ == spec_enemy_id(serial as nat),
{
    let mut id = String::from_str("enemy-");
    push_decimal(&mut id, serial);
    id
}

/// The formation of a wave: centred on the screen, the first row one below
/// the top, the rows one padding apart.
pub open spec fn spec_spawner_formation() -> Formation {
    Formation {
        total_area_width: SCREEN_WIDTH,
        padding: ENEMY_PADDING,
        num_enemies_in_row: NUM_ENEMIES_IN_ROW,
        num_rows: NUM_ENEMY_ROWS,
        row_origin: 1,
        row_padding: ENEMY_PADDING,
    }
}

/// The formation of a wave fits on the screen: its row is 34 cells wide and
/// stands on the columns 8 to 41.
pub proof fn lemma_spawner_formation_wf()
    ensures
        spec_spawner_formation().wf(),
        spec_spawner_formation().spec_cells().len() == NUM_ENEMY_ROWS * NUM_ENEMIES_IN_ROW,
        NUM_ENEMY_ROWS * NUM_ENEMIES_IN_ROW == 36,
        spec_enemy_x_pos(SCREEN_WIDTH as int, ENEMY_PADDING as int, NUM_ENEMIES_IN_ROW as int, 0)
            == 8,
        spec_enemy_x_pos(
            SCREEN_WIDTH as int,
            ENEMY_PADDING as int,
            NUM_ENEMIES_IN_ROW as int,
            NUM_ENEMIES_IN_ROW - 1,
        ) == 41,
{
    assert((NUM_ENEMIES_IN_ROW - 1) * ENEMY_PADDING == 22) by (nonlinear_arith)
        requires
            NUM_ENEMIES_IN_ROW == 12,
            ENEMY_PADDING == 2,
    ;
    assert((ENEMY_PADDING + 1) * (NUM_ENEMIES_IN_ROW - 1) == 33) by (nonlinear_arith)
        requires
            NUM_ENEMIES_IN_ROW == 12,
            ENEMY_PADDING == 2,
    ;
    assert((ENEMY_PADDING + 1) * 0 == 0) by (nonlinear_arith);
    assert(NUM_ENEMY_ROWS * ENEMY_PADDING == 6) by (nonlinear_arith)
        requires
            NUM_ENEMY_ROWS == 3,
            ENEMY_PADDING == 2,
    ;
    assert(NUM_ENEMY_ROWS * NUM_ENEMIES_IN_ROW == 36) by (nonlinear_arith)
        requires
            NUM_ENEMIES_IN_ROW == 12,
            NUM_ENEMY_ROWS == 3,
    ;
    spec_spawner_formation().lemma_rows_len(NUM_ENEMY_ROWS as nat);
}

/// The formation of a wave.
pub fn spawner_formation() -> (formation: Formation)
    ensures
        formation == spec_spawner_formation(),
        formation.wf(),
{
    proof {
        lemma_spawner_formation_wf();
    }
    Formation {
        total_area_width: SCREEN_WIDTH,
        padding: ENEMY_PADDING,
        num_enemies_in_row: NUM_ENEMIES_IN_ROW,
        num_rows: NUM_ENEMY_ROWS,
        row_origin: 1,
        row_padding: ENEMY_PADDING,
    }
}

/// The identities of `count` enemies numbered from `first_serial` on.
pub open spec fn spec_spawned_ids(count: nat, first_serial: nat) -> Seq<Seq<char>> {
    Seq::new(count, |k: int| spec_enemy_id((first_serial + k) as nat))
}

/// The commands that create an enemy on each of `cells`, numbered from
/// `first_serial` on.
pub open spec fn spec_spawn_commands(cells: Seq<Position>, first_serial: nat) -> Seq<CommandView> {
    Seq::new(
        cells.len(),
        |k: int|
            CommandView::AddEntity(
                spec_make_enemy(spec_enemy_id((first_serial + k) as nat), cells[k]),
            ),
    )
}

/// The test that every identity but `dead` passes.
pub open spec fn spec_is_other_than(dead: Seq<char>) -> spec_fn(Seq<char>) -> bool {
    |id: Seq<char>| id != dead
}

/// The identities in `ids` but `dead`, in their order.
pub open spec fn spec_without(ids: Seq<Seq<char>>, dead: Seq<char>) -> Seq<Seq<char>> {
    ids.filter(spec_is_other_than(dead))
}

/// The formation can step to the right while there is an enemy and none has
/// reached the right margin.
pub open spec fn spec_can_move_right(positions: Seq<Position>) -> bool {
    &&& positions.len() > 0
    &&& forall|i: int|
        0 <= i < positions.len() ==> (#[trigger] positions[i]).x < SCREEN_WIDTH - 1
            - SCREEN_EDGE_PADDING
}

/// The formation can step to the left while there is an enemy and none has
/// reached the left margin.
pub open spec fn spec_can_move_left(positions: Seq<Position>) -> bool {
    &&& positions.len() > 0
    &&& forall|i: int| 0 <= i < positions.len() ==> (#[trigger] positions[i]).x > SCREEN_EDGE_PADDING
}

/// The step of the formation. An enemy at the left margin forces it to the
/// right and, failing that, an enemy at the right margin forces it to the
/// left, whatever the coin shows; a formation with room on both sides goes
/// where the coin says. Only a formation without enemies takes no step.
pub open spec fn spec_march_displacement(positions: Seq<Position>, coin: u8) -> Position {
    if positions.len() == 0 {
        spec_zero()
    } else if !spec_can_move_left(positions) {
        spec_right()
    } else if !spec_can_move_right(positions) {
        spec_left()
    } else if coin == 0 {
        spec_right()
    } else {
        spec_left()
    }
}

/// The messages that tell every enemy in `ids` to take the step
/// `displacement`; none if there is no step to take.
pub open spec fn spec_march_commands(ids: Seq<Seq<char>>, displacement: Position) -> Seq<
    CommandView,
> {
    if displacement == spec_zero() {
        Seq::empty()
    } else {
        Seq::new(
            ids.len(),
            |i: int|
                CommandView::SendMessage {
                    entity_id: ids[i],
                    message: MessageView::MoveEnemy(displacement),
                },
        )
    }
}

/// Position `k` is the one that a scan for the largest column ends on: no
/// enemy stands further right, and none behind it in the order stands as far
/// right.
pub open spec fn spec_is_rightmost(positions: Seq<Position>, k: int) -> bool {
    &&& 0 <= k < positions.len()
    &&& forall|j: int| 0 <= j < positions.len() ==> (#[trigger] positions[j]).x <= positions[k].x
    &&& forall|j: int| k < j < positions.len() ==> (#[trigger] positions[j]).x < positions[k].x
}

/// Position `k` is the one that a scan for the smallest column ends on: no
/// enemy stands further left, and none before it in the order stands as far
/// left.
pub open spec fn spec_is_leftmost(positions: Seq<Position>, k: int) -> bool {
    &&& 0 <= k < positions.len()
    &&& forall|j: int| 0 <= j < positions.len() ==> (#[trigger] positions[j]).x >= positions[k].x
    &&& forall|j: int| 0 <= j < k ==> (#[trigger] positions[j]).x > positions[k].x
}

/// The place of the enemy that stands furthest to the right; of several, the
/// last in the order. `None` if there is no enemy.
pub fn get_rightmost_enemy_pos(positions: &Vec<Position>) -> (rightmost: Option<Position>)
    ensures
        rightmost is None <==> positions@.len() == 0,
        rightmost matches Some(found) ==> exists|k: int|
            spec_is_rightmost(positions@, k) && found == #[trigger] positions@[k],
{
    if positions.len() == 0 {
        return None;
    }
    let mut best: usize = 0;
    let mut i: usize = 1;
    while i < positions.len()
        invariant
            1 <= i <= positions.len(),
            best < i,
            forall|j: int| 0 <= j < i ==> (#[trigger] positions[j]).x <= positions[best as int].x,
            forall|j: int| best < j < i ==> (#[trigger] positions[j]).x < positions[best as int].x,
        decreases positions.len() - i,
    {
        if positions[i].x >= positions[best].x {
            best = i;
        }
        i += 1;
    }
    Some(positions[best])
}

/// The place of the enemy that stands furthest to the left; of several, the
/// first in the order. `None` if there is no enemy.
pub fn get_leftmost_enemy_pos(positions: &Vec<Position>) -> (leftmost: Option<Position>)
    ensures
        leftmost is None <==> positions@.len() == 0,
        leftmost matches Some(found) ==> exists|k: int|
            spec_is_leftmost(positions@, k) && found == #[trigger] positions@[k],
{
    if positions.len() == 0 {
        return None;
    }
    let mut best: usize = 0;
    let mut i: usize = 1;
    while i < positions.len()
        invariant
            1 <= i <= positions.len(),
            best < i,
            forall|j: int| 0 <= j < i ==> (#[trigger] positions[j]).x >= positions[best as int].x,
            forall|j: int| 0 <= j < best ==> (#[trigger] positions[j]).x > positions[best as int].x,
        decreases positions.len() - i,
    {
        if positions[i].x < positions[best].x {
            best = i;
        }
        i += 1;
    }
    Some(positions[best])
}

/// Whether the formation has room for a step to the right.
pub fn can_move_right(positions: &Vec<Position>) -> (room: bool)
    ensures
        room == spec_can_move_right(positions@),
{
    match get_rightmost_enemy_pos(positions) {
        Some(coords) => {
            proof {
                let k = choose|k: int|
                    spec_is_rightmost(positions@, k) && coords == #[trigger] positions@[k];
            }
            coords.x < (SCREEN_WIDTH - 1 - SCREEN_EDGE_PADDING) as i64
        },
        None => false,
    }
}

/// Whether the formation has room for a step to the left.
pub fn can_move_left(positions: &Vec<Position>) -> (room: bool)
    ensures
        room == spec_can_move_left(positions@),
{
    match get_leftmost_enemy_pos(positions) {
        Some(coords) => {
            proof {
                let k = choose|k: int|
                    spec_is_leftmost(positions@, k) && coords == #[trigger] positions@[k];
            }
            coords.x > SCREEN_EDGE_PADDING as i64
        },
        None => false,
    }
}

/// The step of the formation, given where its enemies stand and how the coin
/// fell.
pub fn march_displacement(positions: &Vec<Position>, coin: u8) -> (displacement: Position)
    ensures
        displacement == spec_march_displacement(positions@, coin),
{
    if positions.len() == 0 {
        Position::zero()
    } else if !can_move_left(positions) {
        Position::right()
    } else if !can_move_right(positions) {
        Position::left()
    } else if coin == 0 {
        Position::right()
    } else {
        Position::left()
    }
}

impl EnemySpawnerView {
    /// The state after `message` has arrived: a death strikes the enemy off
    /// the list, a reset is noted, and every other message changes nothing.
    pub open spec fn on_message(self, message: MessageView) -> EnemySpawnerView {
        match message {
            MessageView::EnemyDied(enemy_id) => EnemySpawnerView {
                existing_enemy_entity_ids: spec_without(self.existing_enemy_entity_ids, enemy_id),
                ..self
            },
            MessageView::Reset => EnemySpawnerView { should_reset: true, ..self },
            _ => self,
        }
    }

    /// The state after a formation has been put up.
    pub open spec fn spawned(self) -> EnemySpawnerView {
        EnemySpawnerView {
            existing_enemy_entity_ids: self.existing_enemy_entity_ids + spec_spawned_ids(
                spec_spawner_formation().spec_cells().len(),
                self.next_enemy_serial as nat,
            ),
            next_enemy_serial: (self.next_enemy_serial
                + spec_spawner_formation().spec_cells().len()) as u64,
            wave: (self.wave + 1) as u64,
            ..self
        }
    }

    /// The state after a reset has been carried out: the waves are counted
    /// anew.
    pub open spec fn reset_done(self) -> EnemySpawnerView {
        EnemySpawnerView { wave: 0, ..self }
    }

    /// The state after a pending reset, if there is one, has been carried
    /// out and noted as done.
    pub open spec fn settled(self) -> EnemySpawnerView {
        if self.should_reset {
            EnemySpawnerView { should_reset: false, ..self.reset_done() }
        } else {
            self
        }
    }

    /// Whether a formation can be put up: the numbers of its enemies and the
    /// number of the wave are still to be had.
    pub open spec fn can_spawn(self) -> bool {
        &&& self.next_enemy_serial + NUM_ENEMY_ROWS * NUM_ENEMIES_IN_ROW <= u64::MAX
        &&& self.wave < u64::MAX
    }

    /// The commands that put up a formation.
    pub open spec fn spawn_commands(self) -> Seq<CommandView> {
        spec_spawn_commands(spec_spawner_formation().spec_cells(), self.next_enemy_serial as nat)
    }

    /// Whether a frame puts up a formation: it does when no enemy is left on
    /// the list.
    pub open spec fn respawns(self) -> bool {
        self.existing_enemy_entity_ids.len() == 0
    }

    /// The state after the first two steps of a frame: a pending reset is
    /// carried out, and an empty list is refilled.
    pub open spec fn refilled(self) -> EnemySpawnerView {
        if self.settled().respawns() {
            self.settled().spawned()
        } else {
            self.settled()
        }
    }

    /// The commands of the first two steps of a frame that finds the enemies
    /// `world_enemy_ids` and the bullets `world_bullet_ids` in the world. A
    /// reset destroys every enemy and every bullet in one batch, so that no
    /// bullet survives into the new wave.
    pub open spec fn refill_commands(
        self,
        world_enemy_ids: Seq<Seq<char>>,
        world_bullet_ids: Seq<Seq<char>>,
    ) -> Seq<CommandView> {
        let reset = if self.should_reset {
            destroy_all(world_enemy_ids) + destroy_all(world_bullet_ids)
        } else {
            Seq::empty()
        };
        if self.respawns() {
            reset + self.spawn_commands()
        } else {
            reset
        }
    }
}

impl EnemySpawnerBehaviour {
    /// A spawner that knows no enemy yet.
    pub fn new() -> (behaviour: EnemySpawnerBehaviour)
        ensures
            behaviour@ == (EnemySpawnerView {
                should_reset: false,
                existing_enemy_entity_ids: Seq::empty(),
                next_enemy_serial: 0,
                wave: 0,
            }),
    {
        let behaviour = EnemySpawnerBehaviour {
            should_reset: false,
            enemy_move_timer: Timer::new(),
            existing_enemy_entity_ids: Vec::new(),
            next_enemy_serial: 0,
            wave: 0,
        };
        assert(behaviour@.existing_enemy_entity_ids =~= Seq::<Seq<char>>::empty());
        behaviour
    }

    /// The number of enemies of the current wave that have not reported their
    /// death.
    pub fn num_remaining_enemies(&self) -> (remaining: usize)
        ensures
            remaining == self@.existing_enemy_entity_ids.len(),
    {
        self.existing_enemy_entity_ids.len()
    }

    /// The enemies of the current wave that have not reported their death.
    pub fn existing_enemy_entity_ids(&self) -> (ids: &Vec<String>)
        ensures
            names(ids@) == self@.existing_enemy_entity_ids,
    {
        &self.existing_enemy_entity_ids
    }

    /// Whether a reset has been asked for.
    pub fn should_reset(&self) -> (pending: bool)
        ensures
            pending == self@.should_reset,
    {
        self.should_reset
    }

    /// The number of formations put up since the game started or was reset.
    pub fn wave(&self) -> (wave: u64)
        ensures
            wave == self@.wave,
    {
        self.wave
    }

    /// Whether a formation can be put up.
    pub fn can_spawn(&self) -> (ok: bool)
        ensures
            ok == self@.can_spawn(),
    {
        proof {
            lemma_spawner_formation_wf();
        }
        self.next_enemy_serial <= u64::MAX - NUM_ENEMY_ROWS * NUM_ENEMIES_IN_ROW && self.wave
            < u64::MAX
    }

    /// Queues the destruction of every enemy that the world holds.
    pub fn destroy_remaining_enemies(&self, world_enemy_ids: &Vec<String>, commands: &mut CommandQueue)
        ensures
            final(commands)@ == old(commands)@ + destroy_all(names(world_enemy_ids@)),
    {
        issue_destroy_all(world_enemy_ids, commands);
    }

    /// Puts up a formation: one enemy per cell, each with a fresh identity
    /// that goes on the list. The wave number goes up by one.
    pub fn spawn_enemies(&mut self, commands: &mut CommandQueue)
        requires
            old(self)@.can_spawn(),
        ensures
            final(self)@ == old(self)@.spawned(),
            final(commands)@ == old(commands)@ + old(self)@.spawn_commands(),
    {
        proof {
            lemma_spawner_formation_wf();
        }
        let cells = spawner_formation().cells();
        let ghost first_serial = self.next_enemy_serial as nat;
        let ghost listed = names(self.existing_enemy_entity_ids@);
        let mut k: usize = 0;
        while k < cells.len()
            invariant
                k <= cells.len(),
                cells@.len() == 36,
                first_serial + 36 <= u64::MAX,
                self.should_reset == old(self).should_reset,
                self.wave == old(self).wave,
                self.wave < u64::MAX,
                self.next_enemy_serial == first_serial + k,
                names(self.existing_enemy_entity_ids@) == listed + spec_spawned_ids(
                    cells@.len(),
                    first_serial,
                ).take(k as int),
                commands@ == old(commands)@ + spec_spawn_commands(cells@, first_serial).take(
                    k as int,
                ),
            decreases cells.len() - k,
        {
            let id = enemy_id(self.next_enemy_serial);
            let listed_id = enemy_id(self.next_enemy_serial);
            let ghost ids_before = names(self.existing_enemy_entity_ids@);
            commands.issue(Command::AddEntity(make_enemy(id, cells[k])));
            self.existing_enemy_entity_ids.push(listed_id);
            self.next_enemy_serial = self.next_enemy_serial + 1;
            assert(names(self.existing_enemy_entity_ids@) =~= ids_before.push(listed_id@));
            k += 1;
        }
        assert(spec_spawned_ids(cells@.len(), first_serial).take(cells@.len() as int)
            =~= spec_spawned_ids(cells@.len(), first_serial));
        self.wave = self.wave + 1;
    }

    /// Tells every enemy on the list to take the same step, forced by an
    /// enemy at a margin or, with room on both sides, chosen by a coin. The
    /// step is handed back; it is zero only if there is no enemy.
    pub fn move_enemies(
        &self,
        enemy_positions: &Vec<Position>,
        commands: &mut CommandQueue,
    ) -> (displacement: Position)
        ensures
            exists|coin: u8|
                coin <= 1 && displacement == #[trigger] spec_march_displacement(
                    enemy_positions@,
                    coin,
                ),
            final(commands)@ == old(commands)@ + spec_march_commands(
                self@.existing_enemy_entity_ids,
                displacement,
            ),
    {
        let coin: u8 = flip_coin();
        let displacement = march_displacement(enemy_positions, coin);
        if displacement != Position::zero() {
            let ghost ids = self@.existing_enemy_entity_ids;
            let mut i: usize = 0;
            while i < self.existing_enemy_entity_ids.len()
                invariant
                    i <= self.existing_enemy_entity_ids.len(),
                    ids == names(self.existing_enemy_entity_ids@),
                    displacement != spec_zero(),
                    commands@ == old(commands)@ + spec_march_commands(ids, displacement).take(
                        i as int,
                    ),
                decreases self.existing_enemy_entity_ids.len() - i,
            {
                commands.issue(
                    Command::SendMessage {
                        entity_id: self.existing_enemy_entity_ids[i].clone(),
                        message: Message::MoveEnemy(MoveEnemyPayload { displacement }),
                    },
                );
                i += 1;
            }
        }
        displacement
    }

    /// Carries out a reset: every enemy and every bullet that the world holds
    /// is queued for destruction in one batch, the waves are counted anew,
    /// and the formation's cooldown starts again. The list is left to the
    /// death notices.
    pub fn reset(
        &mut self,
        world_enemy_ids: &Vec<String>,
        world_bullet_ids: &Vec<String>,
        commands: &mut CommandQueue,
    )
        ensures
            final(self)@ == old(self)@.reset_done(),
            final(commands)@ == old(commands)@ + destroy_all(names(world_enemy_ids@))
                + destroy_all(names(world_bullet_ids@)),
    {
        self.destroy_remaining_enemies(world_enemy_ids, commands);
        issue_destroy_all(world_bullet_ids, commands);
        self.wave = 0;
        self.enemy_move_timer.restart();
    }

    /// The last step of a frame, given the stopwatch reading: once the
    /// formation's cooldown has expired the enemies on the list are told to
    /// take a step, which is handed back; before that nothing is told and
    /// `None` is handed back.
    pub fn march_after(
        &self,
        enemy_positions: &Vec<Position>,
        elapsed_millis: u128,
        commands: &mut CommandQueue,
    ) -> (step: Option<Position>)
        ensures
            step.is_some() == spec_has_elapsed(elapsed_millis, ENEMY_MOVE_WAIT_TIME_MILLIS),
            step matches Some(displacement) ==> exists|coin: u8|
                coin <= 1 && displacement == #[trigger] spec_march_displacement(
                    enemy_positions@,
                    coin,
                ),
            final(commands)@ == old(commands)@ + match step {
                Some(displacement) => spec_march_commands(
                    self@.existing_enemy_entity_ids,
                    displacement,
                ),
                None => Seq::empty(),
            },
    {
        if has_elapsed(elapsed_millis, ENEMY_MOVE_WAIT_TIME_MILLIS) {
            Some(self.move_enemies(enemy_positions, commands))
        } else {
            assert(commands@ =~= old(commands)@ + Seq::<CommandView>::empty());
            None
        }
    }

    /// Starts the cooldown of the first step.
    pub fn init(&mut self)
        ensures
            final(self)@ == old(self)@,
    {
        self.enemy_move_timer.start();
    }

    /// One frame. A pending reset is carried out; an empty list is refilled
    /// with a new formation, which raises the wave number by one; and once
    /// the formation's cooldown has expired, the enemies on the list are told
    /// to take a step. The step is handed back, or `None` if it was not time
    /// for one.
    pub fn update(
        &mut self,
        world_enemy_ids: &Vec<String>,
        world_bullet_ids: &Vec<String>,
        enemy_positions: &Vec<Position>,
        commands: &mut CommandQueue,
    ) -> (step: Option<Position>)
        requires
            old(self)@.respawns() ==> old(self)@.settled().can_spawn(),
        ensures
            final(self)@ == old(self)@.refilled(),
            step matches Some(displacement) ==> exists|coin: u8|
                coin <= 1 && displacement == #[trigger] spec_march_displacement(
                    enemy_positions@,
                    coin,
                ),
            final(commands)@ == old(commands)@ + old(self)@.refill_commands(
                names(world_enemy_ids@),
                names(world_bullet_ids@),
            ) + match step {
                Some(displacement) => spec_march_commands(
                    final(self)@.existing_enemy_entity_ids,
                    displacement,
                ),
                None => Seq::empty(),
            },
    {
        if self.should_reset {
            self.reset(world_enemy_ids, world_bullet_ids, commands);
            self.should_reset = false;
        }
        if self.num_remaining_enemies() == 0 {
            self.spawn_enemies(commands);
        }
        assert(commands@ =~= old(commands)@ + old(self)@.refill_commands(
            names(world_enemy_ids@),
            names(world_bullet_ids@),
        ));
        let elapsed_millis: u128 = self.enemy_move_timer.elapsed_millis();
        let step = self.march_after(enemy_positions, elapsed_millis, commands);
        if step.is_some() {
            self.enemy_move_timer.restart();
        }
        step
    }

    /// Takes a message: the death of an enemy strikes it off the list, a
    /// reset is noted for the next frame.
    pub fn on_message(&mut self, message: &Message)
        ensures
            final(self)@ == old(self)@.on_message(message@),
    {
        match message {
            Message::EnemyDied(payload) => {
                let mut kept: Vec<String> = Vec::new();
                let mut i: usize = 0;
                let ghost listed = names(self.existing_enemy_entity_ids@);
                let ghost dead = payload.enemy_id@;
                proof {
                    reveal(Seq::filter);
                }
                while i < self.existing_enemy_entity_ids.len()
                    invariant
                        i <= self.existing_enemy_entity_ids.len(),
                        listed == names(self.existing_enemy_entity_ids@),
                        dead == payload.enemy_id@,
                        self.should_reset == old(self).should_reset,
                        self.wave == old(self).wave,
                        self.next_enemy_serial == old(self).next_enemy_serial,
                        names(kept@) == spec_without(listed.take(i as int), dead),
                    decreases self.existing_enemy_entity_ids.len() - i,
                {
                    proof {
                        listed.take(i as int).lemma_filter_push(
                            listed[i as int],
                            spec_is_other_than(dead),
                        );
                        assert(listed.take(i as int).push(listed[i as int]) =~= listed.take(i + 1));
                    }
                    if !(self.existing_enemy_entity_ids[i] == payload.enemy_id) {
                        let id = self.existing_enemy_entity_ids[i].clone();
                        kept.push(id);
                    }
                    i += 1;
                }
                assert(listed.take(listed.len() as int) =~= listed);
                self.existing_enemy_entity_ids = kept;
            },
            Message::Reset => {
                self.should_reset = true;
            },
            _ => {},
        }
    }
}

/// Deaths can be reported in any order, and more than once: the list that is
/// left is the same. The list never grows by a death, and a formation is put
/// up exactly when the list is empty, so that a wave that has just been put
/// up is not put up again. Putting up a formation raises the wave number by
/// one; a frame that puts up none leaves it alone; a reset counts the waves
/// anew.
pub proof fn lemma_deaths_commute(state: EnemySpawnerView, first: Seq<char>, second: Seq<char>)
    ensures
        state.on_message(MessageView::EnemyDied(first)).on_message(
            MessageView::EnemyDied(second),
        ) == state.on_message(MessageView::EnemyDied(second)).on_message(
            MessageView::EnemyDied(first),
        ),
        state.on_message(MessageView::EnemyDied(first)).on_message(MessageView::EnemyDied(first))
            == state.on_message(MessageView::EnemyDied(first)),
        state.on_message(MessageView::EnemyDied(first)).existing_enemy_entity_ids.len()
            <= state.existing_enemy_entity_ids.len(),
        state.respawns() ==> !state.spawned().respawns(),
        state.respawns() ==> state.spawn_commands().len() == NUM_ENEMY_ROWS * NUM_ENEMIES_IN_ROW,
        !state.respawns() ==> state.refilled().existing_enemy_entity_ids
            == state.existing_enemy_entity_ids,
        state.wave < u64::MAX ==> state.spawned().wave == state.wave + 1,
        !state.respawns() ==> state.refilled().wave == state.settled().wave,
        state.respawns() && state.settled().wave < u64::MAX ==> state.refilled().wave
            == state.settled().wave + 1,
        state.should_reset ==> state.settled().wave == 0,
{
    let ids = state.existing_enemy_entity_ids;
    lemma_without_commutes(ids, first, second);
    lemma_without_commutes(ids, first, first);
    ids.lemma_filter_len(spec_is_other_than(first));
    lemma_spawner_formation_wf();
    lemma_without_twice(ids, first);
}

/// An enemy at a margin decides the step of the formation, whatever the coin
/// shows: away from the left margin first, else away from the right margin.
/// With room on both sides the coin decides. A formation with an enemy always
/// takes a step, and every enemy on the list is told the same one; a
/// formation without enemies takes none and nobody is told anything.
pub proof fn lemma_margin_forces_the_step(
    positions: Seq<Position>,
    ids: Seq<Seq<char>>,
    coin: u8,
    other_coin: u8,
)
    ensures
        positions.len() > 0 && !spec_can_move_left(positions) ==> spec_march_displacement(
            positions,
            coin,
        ) == spec_right(),
        spec_can_move_left(positions) && !spec_can_move_right(positions)
            ==> spec_march_displacement(positions, coin) == spec_left(),
        !spec_can_move_left(positions) || !spec_can_move_right(positions)
            ==> spec_march_displacement(positions, coin) == spec_march_displacement(
            positions,
            other_coin,
        ),
        spec_can_move_left(positions) && spec_can_move_right(positions)
            ==> spec_march_displacement(positions, 0) == spec_right() && spec_march_displacement(
            positions,
            1,
        ) == spec_left(),
        positions.len() > 0 ==> {
            &&& spec_march_displacement(positions, coin) != spec_zero()
            &&& spec_march_commands(ids, spec_march_displacement(positions, coin)).len()
                == ids.len()
        },
        positions.len() == 0 ==> {
            &&& spec_march_displacement(positions, coin) == spec_zero()
            &&& spec_march_commands(ids, spec_march_displacement(positions, coin))
                == Seq::<CommandView>::empty()
        },
{
}

/// Striking two identities off a list gives the same list in either order.
pub proof fn lemma_without_commutes(ids: Seq<Seq<char>>, first: Seq<char>, second: Seq<char>)
    ensures
        spec_without(spec_without(ids, first), second) == spec_without(
            spec_without(ids, second),
            first,
        ),
    decreases ids.len(),
{
    reveal(Seq::filter);
    if ids.len() > 0 {
        lemma_without_commutes(ids.drop_last(), first, second);
        let earlier = ids.drop_last();
        let last = ids.last();
        if last != first {
            spec_without(earlier, first).lemma_filter_push(last, spec_is_other_than(second));
        }
        if last != second {
            spec_without(earlier, second).lemma_filter_push(last, spec_is_other_than(first));
        }
    }
}

/// Striking an identity off a list twice is striking it off once.
pub proof fn lemma_without_twice(ids: Seq<Seq<char>>, dead: Seq<char>)
    ensures
        spec_without(spec_without(ids, dead), dead) == spec_without(ids, dead),
    decreases ids.len(),
{
    reveal(Seq::filter);
    if ids.len() > 0 {
        lemma_without_twice(ids.drop_last(), dead);
        let earlier = ids.drop_last();
        let last = ids.last();
        if last != dead {
            spec_without(earlier, dead).lemma_filter_push(last, spec_is_other_than(dead));
        }
    }
}

} // verus!
