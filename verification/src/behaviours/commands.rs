//! The command queue of the behaviours.
//!
//! Entities are named by strings here, so that a behaviour can address the
//! singletons of the game by their reserved identities.

use crate::behaviours::messages::{Message, MessageView};
use crate::coords::Position;
use crate::prefabs::BulletType;
use vstd::prelude::*;

verus! {

/// An entity to be created, with what its behaviours start from.
#[derive(Clone, Debug, PartialEq, Eq)]
pub enum Blueprint {
    /// A line of text with a fixed identity.
    Text { id: String, coords: Position, text: String },
    /// One character of a line of text.
    TextChar { id: String, coords: Position, character: char, layer: i32 },
    /// A bullet in flight.
    Bullet {
        coords: Position,
        bullet_type: BulletType,
        travel_direction: Position,
        display: char,
        layer: i32,
    },
    /// An enemy of the formation.
    Enemy { id: String, coords: Position, display: char, layer: i32 },
    /// A background star.
    Star { coords: Position, display: char, layer: i32 },
}

/// A blueprint with strings as sequences of characters.
pub enum BlueprintView {
    Text { id: Seq<char>, coords: Position, text: Seq<char> },
    TextChar { id: Seq<char>, coords: Position, character: char, layer: i32 },
    Bullet {
        coords: Position,
        bullet_type: BulletType,
        travel_direction: Position,
        display: char,
        layer: i32,
    },
    Enemy { id: Seq<char>, coords: Position, display: char, layer: i32 },
    Star { coords: Position, display: char, layer: i32 },
}

impl View for Blueprint {
    type V = BlueprintView;

    open spec fn view(&self) -> BlueprintView {
        match self {
            Blueprint::Text { id, coords, text } => BlueprintView::Text {
                id: id@,
                coords: *coords,
                text: text@,
            },
            Blueprint::TextChar { id, coords, character, layer } => BlueprintView::TextChar {
                id: id@,
                coords: *coords,
                character: *character,
                layer: *layer,
            },
            Blueprint::Bullet {
                coords,
                bullet_type,
                travel_direction,
                display,
                layer,
            } => BlueprintView::Bullet {
                coords: *coords,
                bullet_type: *bullet_type,
                travel_direction: *travel_direction,
                display: *display,
                layer: *layer,
            },
            Blueprint::Enemy { id, coords, display, layer } => BlueprintView::Enemy {
                id: id@,
                coords: *coords,
                display: *display,
                layer: *layer,
            },
            Blueprint::Star { coords, display, layer } => BlueprintView::Star {
                coords: *coords,
                display: *display,
                layer: *layer,
            },
        }
    }
}

/// One deferred request to the engine.
#[derive(Clone, Debug, PartialEq, Eq)]
pub enum Command {
    AddEntity(Blueprint),
    DestroyEntity(String),
    SendMessage { entity_id: String, message: Message },
}

/// A command with strings as sequences of characters.
pub enum CommandView {
    AddEntity(BlueprintView),
    DestroyEntity(Seq<char>),
    SendMessage { entity_id: Seq<char>, message: MessageView },
}

impl View for Command {
    type V = CommandView;

    open spec fn view(&self) -> CommandView {
        match self {
            Command::AddEntity(blueprint) => CommandView::AddEntity(blueprint@),
            Command::DestroyEntity(entity_id) => CommandView::DestroyEntity(entity_id@),
            Command::SendMessage { entity_id, message } => CommandView::SendMessage {
                entity_id: entity_id@,
                message: message@,
            },
        }
    }
}

/// Commands in the order in which they were issued.
#[derive(Debug)]
pub struct CommandQueue {
    queue: Vec<Command>,
}

impl View for CommandQueue {
    type V = Seq<CommandView>;

    closed spec fn view(&self) -> Seq<CommandView> {
        self.queue@.map_values(|command: Command| command@)
    }
}

impl CommandQueue {
    /// An empty queue.
    pub fn new() -> (commands: CommandQueue)
        ensures
            commands@ == Seq::<CommandView>::empty(),
    {
        let commands = CommandQueue { queue: Vec::new() };
        commands
    }

    /// Puts `command` at the end of the queue. Nothing happens to the world
    /// until the queue is drained.
    pub fn issue(&mut self, command: Command)
        ensures
            final(self)@ == old(self)@.push(command@),
    {
        self.queue.push(command);
    }

    /// The commands issued so far, oldest first.
    pub fn queue(&self) -> (queue: &Vec<Command>)
        ensures
            queue@.map_values(|command: Command| command@) == self@,
    {
        &self.queue
    }

    /// Hands out the commands issued so far, oldest first, and leaves the
    /// queue empty for the next frame.
    pub fn drain(&mut self) -> (drained: Vec<Command>)
        ensures
            drained@.map_values(|command: Command| command@) == old(self)@,
            final(self)@ == Seq::<CommandView>::empty(),
    {
        let mut drained: Vec<Command> = Vec::new();
        std::mem::swap(&mut self.queue, &mut drained);
        drained
    }
}

/// The commands that destroy the entities named `ids`, one each, in their
/// order.
pub open spec fn destroy_all(ids: Seq<Seq<char>>) -> Seq<CommandView> {
    Seq::new(ids.len(), |i: int| CommandView::DestroyEntity(ids[i]))
}

/// The names in `ids`, as sequences of characters.
pub open spec fn names(ids: Seq<String>) -> Seq<Seq<char>> {
    ids.map_values(|id: String| id@)
}

/// Queues a destroy command for each entity named in `ids`, in their order.
pub fn issue_destroy_all(ids: &Vec<String>, commands: &mut CommandQueue)
    ensures
        final(commands)@ == old(commands)@ + destroy_all(names(ids@)),
{
    let mut i: usize = 0;
    while i < ids.len()
        invariant
            i <= ids.len(),
            commands@ == old(commands)@ + destroy_all(names(ids@.take(i as int))),
        decreases ids.len() - i,
    {
        commands.issue(Command::DestroyEntity(ids[i].clone()));
        i += 1;
    }
}

} // verus!
