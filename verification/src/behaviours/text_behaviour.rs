//! A line of text, shown as one entity per character.
//!
//! The behaviour caches the text it shows. A request to show the same text
//! again changes nothing: no character entity is destroyed or created, and
//! the identities of the characters stay what they were.

use crate::behaviours::commands::{
    destroy_all, issue_destroy_all, names, Command, CommandQueue, CommandView,
};
use crate::behaviours::messages::{Message, MessageView};
use crate::coords::Position;
use crate::entities::{
    get_char_entity_id, make_char_entity, spec_char_entity_id, spec_make_char_entity,
};
use crate::text::{lemma_byte_offset_grows, spec_byte_offset, utf8_len};
use vstd::prelude::*;

verus! {

/// The state of a line of text.
#[derive(Clone, Debug)]
pub struct TextBehaviour {
    char_entity_ids: Vec<String>,
    text: String,
    should_generate_text: bool,
}

/// The state of a line of text, with strings as sequences of characters.
pub struct TextBehaviourView {
    /// The identities of the character entities on the screen, left to right.
    pub char_entity_ids: Seq<Seq<char>>,
    /// The text that was last asked for.
    pub text: Seq<char>,
    /// Whether the characters on the screen are out of date.
    pub should_generate_text: bool,
}

impl View for TextBehaviour {
    type V = TextBehaviourView;

    closed spec fn view(&self) -> TextBehaviourView {
        TextBehaviourView {
            char_entity_ids: names(self.char_entity_ids@),
            text: self.text@,
            should_generate_text: self.should_generate_text,
        }
    }
}

/// The most bytes that a line that starts at `origin` can have: their number
/// must fit the machine, and the last character must not fall off the grid.
pub open spec fn spec_row_limit(origin: Position) -> int {
    let to_the_edge = if origin.x <= 0 {
        i64::MAX as int
    } else {
        i64::MAX - origin.x
    };
    if usize::MAX <= to_the_edge {
        usize::MAX as int
    } else {
        to_the_edge
    }
}

/// Whether a line of `text` that starts at `origin` can be laid out.
pub open spec fn spec_fits_on_row(origin: Position, text: Seq<char>) -> bool {
    spec_byte_offset(text, text.len() as int) <= spec_row_limit(origin)
}

/// The cell of the character `index` of a line that starts at `origin`: as
/// many cells to the right as the character starts bytes into the text.
pub open spec fn spec_char_coords(origin: Position, text: Seq<char>, index: int) -> Position {
    Position { x: (origin.x + spec_byte_offset(text, index)) as i64, y: origin.y }
}

/// The identities of the characters of `text`, left to right.
pub open spec fn spec_char_ids(entity_id: Seq<char>, text: Seq<char>) -> Seq<Seq<char>> {
    Seq::new(
        text.len(),
        |i: int| spec_char_entity_id(entity_id, text[i], spec_byte_offset(text, i)),
    )
}

/// The commands that create the characters of `text`, left to right.
pub open spec fn spec_char_commands(
    entity_id: Seq<char>,
    origin: Position,
    text: Seq<char>,
) -> Seq<CommandView> {
    Seq::new(
        text.len(),
        |i: int|
            CommandView::AddEntity(
                spec_make_char_entity(
                    spec_char_coords(origin, text, i),
                    entity_id,
                    text[i],
                    spec_byte_offset(text, i),
                ),
            ),
    )
}

impl TextBehaviourView {
    /// The state after `message` has arrived. A request for another text is
    /// noted; a request for the text already shown, and every other message,
    /// changes nothing.
    pub open spec fn on_message(self, message: MessageView) -> TextBehaviourView {
        match message {
            MessageView::ChangeText(new_text) if new_text != self.text => TextBehaviourView {
                text: new_text,
                should_generate_text: true,
                ..self
            },
            _ => self,
        }
    }

    /// The state after the characters have been generated anew.
    pub open spec fn generated(self, entity_id: Seq<char>) -> TextBehaviourView {
        TextBehaviourView { char_entity_ids: spec_char_ids(entity_id, self.text), ..self }
    }

    /// The commands that generate the characters anew: the old characters
    /// go, the new ones come.
    pub open spec fn generate_commands(self, entity_id: Seq<char>, origin: Position) -> Seq<
        CommandView,
    > {
        destroy_all(self.char_entity_ids) + spec_char_commands(entity_id, origin, self.text)
    }

    /// The state after a frame.
    pub open spec fn update(self, entity_id: Seq<char>) -> TextBehaviourView {
        if self.should_generate_text {
            TextBehaviourView { should_generate_text: false, ..self.generated(entity_id) }
        } else {
            self
        }
    }

    /// The commands of a frame.
    pub open spec fn update_commands(self, entity_id: Seq<char>, origin: Position) -> Seq<
        CommandView,
    > {
        if self.should_generate_text {
            self.generate_commands(entity_id, origin)
        } else {
            Seq::empty()
        }
    }
}

impl TextBehaviour {
    /// A line that will show `text` once it is initialised.
    pub fn new(text: &str) -> (behaviour: TextBehaviour)
        ensures
            behaviour@ == (TextBehaviourView {
                char_entity_ids: Seq::empty(),
                text: text@,
                should_generate_text: false,
            }),
    {
        let behaviour = TextBehaviour {
            text: String::from_str(text),
            char_entity_ids: Vec::new(),
            should_generate_text: false,
        };
        assert(behaviour@.char_entity_ids =~= Seq::<Seq<char>>::empty());
        behaviour
    }

    /// The text that was last asked for.
    pub fn text(&self) -> (text: &String)
        ensures
            text@ == self@.text,
    {
        &self.text
    }

    /// The identities of the character entities on the screen.
    pub fn char_entity_ids(&self) -> (ids: &Vec<String>)
        ensures
            names(ids@) == self@.char_entity_ids,
    {
        &self.char_entity_ids
    }

    /// Whether the characters on the screen are out of date.
    pub fn should_generate_text(&self) -> (pending: bool)
        ensures
            pending == self@.should_generate_text,
    {
        self.should_generate_text
    }

    /// Whether the text can be laid out from `origin`.
    pub fn fits_on_row(&self, origin: Position) -> (fits: bool)
        ensures
            fits == spec_fits_on_row(origin, self@.text),
    {
        let count: usize = self.text.as_str().unicode_len();
        let mut i: usize = 0;
        let mut bytes: u64 = 0;
        let limit: u64 = if origin.x <= 0 {
            i64::MAX as u64
        } else {
            (i64::MAX - origin.x) as u64
        };
        let limit: u64 = if usize::MAX as u64 <= limit {
            usize::MAX as u64
        } else {
            limit
        };
        while i < count
            invariant
                i <= count,
                count == self.text@.len(),
                bytes == spec_byte_offset(self.text@, i as int),
                bytes <= limit,
                limit == spec_row_limit(origin),
            decreases count - i,
        {
            let len: usize = utf8_len(self.text.as_str().get_char(i));
            if len as u64 > limit - bytes {
                proof {
                    lemma_byte_offset_grows(self.text@, i + 1, count as int);
                }
                return false;
            }
            bytes = bytes + len as u64;
            i += 1;
        }
        true
    }

    /// Queues the destruction of every character on the screen and forgets
    /// them.
    pub fn delete_existing_character_entities(&mut self, commands: &mut CommandQueue)
        ensures
            final(commands)@ == old(commands)@ + destroy_all(old(self)@.char_entity_ids),
            final(self)@ == (TextBehaviourView { char_entity_ids: Seq::empty(), ..old(self)@ }),
    {
        issue_destroy_all(&self.char_entity_ids, commands);
        self.char_entity_ids.clear();
        assert(self@.char_entity_ids =~= Seq::<Seq<char>>::empty());
    }

    /// Replaces the characters on the screen by those of the cached text, one
    /// entity per character, left to right from `origin`.
    pub fn generate_text(&mut self, entity_id: &str, origin: Position, commands: &mut CommandQueue)
        requires
            spec_fits_on_row(origin, old(self)@.text),
        ensures
            final(commands)@ == old(commands)@ + old(self)@.generate_commands(entity_id@, origin),
            final(self)@ == old(self)@.generated(entity_id@),
    {
        self.delete_existing_character_entities(commands);
        let count: usize = self.text.as_str().unicode_len();
        let mut i: usize = 0;
        let mut offset: usize = 0;
        let ghost text = self.text@;
        let ghost gone = old(commands)@ + destroy_all(old(self)@.char_entity_ids);
        while i < count
            invariant
                i <= count,
                count == text.len(),
                self.text@ == text,
                self.should_generate_text == old(self).should_generate_text,
                spec_fits_on_row(origin, text),
                offset == spec_byte_offset(text, i as int),
                names(self.char_entity_ids@) == spec_char_ids(entity_id@, text).take(i as int),
                commands@ == gone + spec_char_commands(entity_id@, origin, text).take(i as int),
            decreases count - i,
        {
            proof {
                lemma_byte_offset_grows(text, i as int, count as int);
                lemma_byte_offset_grows(text, i + 1, count as int);
            }
            let character = self.text.as_str().get_char(i);
            let coords = Position { x: origin.x + offset as i64, y: origin.y };
            let blueprint = make_char_entity(coords, entity_id, character, offset);
            let id = get_char_entity_id(entity_id, character, offset);
            let ghost ids_before = names(self.char_entity_ids@);
            self.char_entity_ids.push(id);
            commands.issue(Command::AddEntity(blueprint));
            assert(names(self.char_entity_ids@) =~= ids_before.push(id@));
            offset = offset + utf8_len(character);
            i += 1;
        }
        assert(spec_char_ids(entity_id@, text).take(count as int) =~= spec_char_ids(
            entity_id@,
            text,
        ));
    }

    /// Puts the text on the screen for the first time.
    pub fn init(&mut self, entity_id: &str, origin: Position, commands: &mut CommandQueue)
        requires
            spec_fits_on_row(origin, old(self)@.text),
        ensures
            final(commands)@ == old(commands)@ + old(self)@.generate_commands(entity_id@, origin),
            final(self)@ == old(self)@.generated(entity_id@),
    {
        self.generate_text(entity_id, origin, commands);
    }

    /// One frame: the characters are generated anew if another text has been
    /// asked for since they were generated, and left alone otherwise.
    pub fn update(&mut self, entity_id: &str, origin: Position, commands: &mut CommandQueue)
        requires
            old(self)@.should_generate_text ==> spec_fits_on_row(origin, old(self)@.text),
        ensures
            final(commands)@ == old(commands)@ + old(self)@.update_commands(entity_id@, origin),
            final(self)@ == old(self)@.update(entity_id@),
    {
        if self.should_generate_text {
            self.generate_text(entity_id, origin, commands);
            self.should_generate_text = false;
        }
    }

    /// Takes a message: a request for another text is cached and the
    /// characters are marked as out of date.
    pub fn on_message(&mut self, message: &Message)
        ensures
            final(self)@ == old(self)@.on_message(message@),
    {
        match message {
            Message::ChangeText(payload) => {
                if !(payload.new_text == self.text) {
                    self.text = payload.new_text.clone();
                    self.should_generate_text = true;
                }
            },
            _ => {},
        }
    }
}

/// Asking a line of text to show what it shows changes nothing: its state is
/// what it was, and if its characters were up to date, the next frame issues
/// no command and keeps their identities.
pub proof fn lemma_same_text_is_ignored(
    state: TextBehaviourView,
    entity_id: Seq<char>,
    origin: Position,
)
    ensures
        state.on_message(MessageView::ChangeText(state.text)) == state,
        !state.should_generate_text ==> {
            let asked = state.on_message(MessageView::ChangeText(state.text));
            &&& asked.update_commands(entity_id, origin) == Seq::<CommandView>::empty()
            &&& asked.update(entity_id) == state
            &&& asked.update(entity_id).char_entity_ids == state.char_entity_ids
        },
{
}

/// A frame regenerates the characters only when another text is pending.
/// With nothing pending it issues no command and leaves the state as it is;
/// with a text pending it issues the commands that replace the characters
/// and leaves nothing pending.
pub proof fn lemma_text_is_generated_only_when_pending(
    state: TextBehaviourView,
    entity_id: Seq<char>,
    origin: Position,
)
    ensures
        !state.should_generate_text ==> {
            &&& state.update_commands(entity_id, origin) == Seq::<CommandView>::empty()
            &&& state.update(entity_id) == state
        },
        state.should_generate_text ==> {
            &&& state.update_commands(entity_id, origin) == state.generate_commands(
                entity_id,
                origin,
            )
            &&& state.update(entity_id).char_entity_ids == spec_char_ids(entity_id, state.text)
            &&& !state.update(entity_id).should_generate_text
        },
        !state.update(entity_id).update(entity_id).should_generate_text,
        state.update(entity_id).update_commands(entity_id, origin) == Seq::<CommandView>::empty(),
{
}

} // verus!
