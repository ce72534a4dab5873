//! The command queue: the only way the game changes which entities exist.
//!
//! Systems read a frozen snapshot of the world and write what should change to
//! a queue. The engine applies the queue, in order, after every system of the
//! frame has run. No system therefore sees an entity appear or disappear under
//! its feet.

use crate::prefabs::Prefab;
use vstd::prelude::*;

verus! {

/// One deferred change to the set of entities.
#[derive(Clone, Copy, Debug, PartialEq, Eq, Structural)]
pub enum GameCommand {
    AddEntity(Prefab),
    DestroyEntity(u64),
}

/// Commands in the order in which they were issued.
#[derive(Debug)]
pub struct GameCommandQueue {
    queue: Vec<GameCommand>,
}

impl View for GameCommandQueue {
    type V = Seq<GameCommand>;

    closed spec fn view(&self) -> Seq<GameCommand> {
        self.queue@
    }
}

impl GameCommandQueue {
    /// An empty queue.
    pub fn new() -> (commands: GameCommandQueue)
        ensures
            commands@ == Seq::<GameCommand>::empty(),
    {
        GameCommandQueue { queue: Vec::new() }
    }

    /// Puts `command` at the end of the queue. Nothing happens to the world
    /// until the queue is drained.
    pub fn issue(&mut self, command: GameCommand)
        ensures
            final(self)@ == old(self)@.push(command),
    {
        self.queue.push(command);
    }

    /// The commands issued so far, oldest first.
    pub fn queue(&self) -> (queue: &Vec<GameCommand>)
        ensures
            queue@ == self@,
    {
        &self.queue
    }

    /// A queue that holds what this one holds.
    pub fn snapshot(&self) -> (copy: GameCommandQueue)
        ensures
            copy@ == self@,
    {
        let mut copy = GameCommandQueue { queue: Vec::new() };
        let mut i: usize = 0;
        while i < self.queue.len()
            invariant
                i <= self.queue.len(),
                copy.queue@ == self.queue@.take(i as int),
            decreases self.queue.len() - i,
        {
            copy.queue.push(self.queue[i]);
            assert(copy.queue@ =~= self.queue@.take(i + 1));
            i += 1;
        }
        assert(self.queue@.take(self.queue.len() as int) =~= self.queue@);
        copy
    }

    /// The number of commands in the queue.
    pub fn len(&self) -> (len: usize)
        ensures
            len == self@.len(),
    {
        self.queue.len()
    }

    /// Whether the destruction of `entity` is already queued.
    pub fn destroys(&self, entity: u64) -> (queued: bool)
        ensures
            queued == spec_destroys(self@, entity),
    {
        let mut i: usize = 0;
        while i < self.queue.len()
            invariant
                i <= self.queue.len(),
                forall|j: int| 0 <= j < i ==> self.queue@[j] != GameCommand::DestroyEntity(entity),
            decreases self.queue.len() - i,
        {
            match self.queue[i] {
                GameCommand::DestroyEntity(queued) => {
                    if queued == entity {
                        return true;
                    }
                },
                GameCommand::AddEntity(_) => {},
            }
            i += 1;
        }
        false
    }

    /// Hands out the commands issued so far, oldest first, and leaves the
    /// queue empty for the next frame.
    pub fn drain(&mut self) -> (drained: Vec<GameCommand>)
        ensures
            drained@ == old(self)@,
            final(self)@ == Seq::<GameCommand>::empty(),
    {
        let mut drained: Vec<GameCommand> = Vec::new();
        std::mem::swap(&mut self.queue, &mut drained);
        drained
    }
}

/// Whether the commands hold the destruction of `entity`.
pub open spec fn spec_destroys(commands: Seq<GameCommand>, entity: u64) -> bool {
    commands.contains(GameCommand::DestroyEntity(entity))
}

/// The commands that destroy `entities`, one each, in their order.
pub open spec fn destroy_all(entities: Seq<u64>) -> Seq<GameCommand> {
    Seq::new(entities.len(), |i: int| GameCommand::DestroyEntity(entities[i]))
}

/// The entities that a batch of commands destroys. Destroying is idempotent:
/// an entity named twice is destroyed once.
pub open spec fn destroyed_by(commands: Seq<GameCommand>) -> Set<u64> {
    Set::new(
        |entity: u64|
            exists|i: int|
                0 <= i < commands.len() && commands[i] == GameCommand::DestroyEntity(entity),
    )
}

/// The world after a batch: what was alive and is not destroyed by it.
pub open spec fn survivors(alive: Set<u64>, commands: Seq<GameCommand>) -> Set<u64> {
    alive.difference(destroyed_by(commands))
}

/// Destroying is idempotent: a batch applied twice, or a batch in which every
/// command stands twice, leaves the world that the batch leaves.
pub proof fn lemma_destroy_is_idempotent(alive: Set<u64>, commands: Seq<GameCommand>)
    ensures
        destroyed_by(commands + commands) == destroyed_by(commands),
        survivors(survivors(alive, commands), commands) == survivors(alive, commands),
        survivors(alive, commands + commands) == survivors(alive, commands),
{
    assert forall|entity: u64|
        destroyed_by(commands + commands).contains(entity) implies destroyed_by(commands).contains(
        entity,
    ) by {
        let i = choose|i: int|
            0 <= i < (commands + commands).len() && (commands + commands)[i]
                == GameCommand::DestroyEntity(entity);
        if i < commands.len() {
            assert(commands[i] == GameCommand::DestroyEntity(entity));
        } else {
            assert(commands[i - commands.len()] == GameCommand::DestroyEntity(entity));
        }
    }
    assert forall|entity: u64| destroyed_by(commands).contains(entity) implies destroyed_by(
        commands + commands,
    ).contains(entity) by {
        let i = choose|i: int|
            0 <= i < commands.len() && commands[i] == GameCommand::DestroyEntity(entity);
        assert((commands + commands)[i] == GameCommand::DestroyEntity(entity));
    }
}

/// Queues a destroy command for each of `entities`, in their order.
pub fn issue_destroy_all(entities: &Vec<u64>, commands: &mut GameCommandQueue)
    ensures
        final(commands)@ == old(commands)@ + destroy_all(entities@),
{
    let mut i: usize = 0;
    while i < entities.len()
        invariant
            i <= entities.len(),
            commands@ == old(commands)@ + destroy_all(entities@.take(i as int)),
        decreases entities.len() - i,
    {
        commands.issue(GameCommand::DestroyEntity(entities[i]));
        i += 1;
    }
}

} // verus!
