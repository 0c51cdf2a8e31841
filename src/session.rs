use vstd::prelude::*;

use crate::action::{Action, Verb};
use crate::direction::Direction;
use crate::interpreter::{interpret, occurs_at, processCommandIntoAction};
use crate::loader::{build_rooms, lemma_seed_world_is_closed, seed_world, START_ROOM};
use crate::navigation::{lemma_exit_toward_is_exit, navigate, resolve_move, NavigationResult};
use crate::room::{Room, RoomView};
use crate::world::{is_closed, RoomMap};

verus! {

/// The key code of the key that submits the typed command.
pub const ENTER_KEY: u32 = 13;

/// The reply when the current room has no exit in the asked direction.
pub const BLOCKED_RESPONSE: &'static str = "You can't go that way!";

/// The reply when the typed text names no direction.
pub const NOT_UNDERSTOOD_RESPONSE: &'static str = "I did not understand!";

/// An input event of the game.
pub enum Event {
    /// The text being typed changed to this.
    EditChange(String),
    /// A key with this key code was pressed.
    KeyPressed(u32),
}

/// The mathematical value of a game session.
pub struct SessionView {
    pub world: Map<Seq<char>, RoomView>,
    pub current_room: Seq<char>,
    pub response_text: Seq<char>,
    pub edit_text: Seq<char>,
}

/// The session after the typed text is submitted: the text is read as a
/// direction; the player moves if the current room has an exit that way, and
/// otherwise is told why not; the typed text is cleared.
pub open spec fn commit(s: SessionView) -> SessionView {
    let after = match interpret(s.edit_text) {
        Some(d) => match navigate(s.world, s.current_room, d) {
            Some(to) => SessionView { current_room: to, response_text: Seq::empty(), ..s },
            None => SessionView { response_text: BLOCKED_RESPONSE@, ..s },
        },
        None => SessionView { response_text: NOT_UNDERSTOOD_RESPONSE@, ..s },
    };
    SessionView { edit_text: Seq::empty(), ..after }
}

/// The session after a key press: only Enter has an effect.
pub open spec fn key_press(s: SessionView, key_code: u32) -> SessionView {
    if key_code == ENTER_KEY {
        commit(s)
    } else {
        s
    }
}

/// The session after `n` submissions in a row.
pub open spec fn commit_times(s: SessionView, n: nat) -> SessionView
    decreases n,
{
    if n == 0 {
        s
    } else {
        commit(commit_times(s, (n - 1) as nat))
    }
}

/// Submitting empty text, any number of times, leaves the player where they
/// are and answers that the command was not understood.
pub proof fn lemma_empty_commit_repeats(s: SessionView, n: nat)
    requires
        s.edit_text.len() == 0,
        n >= 1,
    ensures
        commit_times(s, n).world == s.world,
        commit_times(s, n).current_room == s.current_room,
        commit_times(s, n).response_text == NOT_UNDERSTOOD_RESPONSE@,
        commit_times(s, n).edit_text.len() == 0,
    decreases n,
{
    let prev = commit_times(s, (n - 1) as nat);
    if n > 1 {
        lemma_empty_commit_repeats(s, (n - 1) as nat);
    }
    // Empty text holds no word of any length.
    assert forall|w: Seq<char>, i: int| w.len() > 0 implies !occurs_at(prev.edit_text, w, i) by {}
    assert(interpret(prev.edit_text) == None::<Direction>);
}

/// A game session: the world, where the player is, the last reply and the
/// text being typed.
pub struct Model {
    rooms: RoomMap,
    current_room: String,
    edit_text: String,
    response_text: String,
}

impl View for Model {
    type V = SessionView;

    closed spec fn view(&self) -> SessionView {
        SessionView {
            world: self.rooms@,
            current_room: self.current_room@,
            response_text: self.response_text@,
            edit_text: self.edit_text@,
        }
    }
}

impl Default for Model {
    /// A new game in the seed world, at its start room.
    fn default() -> (r: Model)
        ensures
            r@ == (SessionView {
                world: seed_world(),
                current_room: START_ROOM@,
                response_text: Seq::empty(),
                edit_text: Seq::empty(),
            }),
    {
        let mut rooms = RoomMap::new();
        build_rooms(&mut rooms);
        proof {
            lemma_seed_world_is_closed();
        }
        Model {
            rooms,
            current_room: String::from_str(START_ROOM),
            edit_text: String::new(),
            response_text: String::new(),
        }
    }
}

impl Model {
    /// Every exit leads to a room of the world, and the player is in one.
    #[verifier::type_invariant]
    closed spec fn in_world(self) -> bool {
        is_closed(self.rooms@) && self.rooms@.contains_key(self.current_room@)
    }

    /// The world. Every exit of it leads to one of its rooms, and the player
    /// stands in one of them.
    pub fn rooms(&self) -> (r: &RoomMap)
        ensures
            r@ == self@.world,
            is_closed(r@),
            r@.contains_key(self@.current_room),
    {
        proof {
            use_type_invariant(self);
        }
        &self.rooms
    }

    /// The id of the room the player is in.
    pub fn current_room(&self) -> (r: &String)
        ensures
            r@ == self@.current_room,
    {
        &self.current_room
    }

    /// The reply to the last submitted command.
    pub fn response_text(&self) -> (r: &String)
        ensures
            r@ == self@.response_text,
    {
        &self.response_text
    }

    /// The text being typed.
    pub fn edit_text(&self) -> (r: &String)
        ensures
            r@ == self@.edit_text,
    {
        &self.edit_text
    }

    /// The room the player is in.
    pub fn get_curr_room(&self) -> (r: &Room)
        ensures
            r@ == self@.world[self@.current_room],
    {
        proof {
            use_type_invariant(self);
        }
        self.rooms.lookup(&self.current_room)
    }

    fn move_in_direction(&mut self, direction: Direction)
        ensures
            final(self)@ == (match navigate(old(self)@.world, old(self)@.current_room, direction) {
                Some(to) => SessionView { current_room: to, ..old(self)@ },
                None => SessionView { response_text: BLOCKED_RESPONSE@, ..old(self)@ },
            }),
    {
        proof {
            use_type_invariant(&*self);
        }
        match resolve_move(&self.rooms, &self.current_room, direction) {
            NavigationResult::Moved(to) => {
                proof {
                    let exits = self.rooms@[self.current_room@].exits;
                    lemma_exit_toward_is_exit(exits, direction);
                    let j = choose|j: int|
                        0 <= j < exits.len() && exits[j].direction == direction
                            && exits[j].goes_to == to@;
                    assert(self.rooms@.contains_key(exits[j].goes_to));
                }
                self.current_room = to;
            },
            NavigationResult::Blocked => {
                self.response_text = String::from_str(BLOCKED_RESPONSE);
            },
        }
    }

    fn process_action(&mut self, action: &Action)
        ensures
            final(self)@ == (match action.verb {
                Verb::Move => match navigate(
                    old(self)@.world,
                    old(self)@.current_room,
                    action.direction,
                ) {
                    Some(to) => SessionView {
                        current_room: to,
                        response_text: Seq::empty(),
                        ..old(self)@
                    },
                    None => SessionView { response_text: BLOCKED_RESPONSE@, ..old(self)@ },
                },
                _ => SessionView { response_text: Seq::empty(), ..old(self)@ },
            }),
    {
        proof {
            use_type_invariant(&*self);
        }
        self.response_text = String::new();
        match action.verb {
            Verb::Move => self.move_in_direction(action.direction),
            _ => {},
        }
    }

    /// Handles a key press. Enter submits the typed text: the reply is
    /// cleared, the text is read as a direction, the player moves that way if
    /// the current room has an exit there ("You can't go that way!" if not,
    /// "I did not understand!" if the text names no direction), and the typed
    /// text is cleared. Other keys change nothing.
    pub fn process_key_press(&mut self, key_code: u32)
        ensures
            final(self)@ == key_press(old(self)@, key_code),
    {
        proof {
            use_type_invariant(&*self);
        }
        if key_code == ENTER_KEY {
            self.response_text = String::new();
            let command = self.edit_text.clone();
            match processCommandIntoAction(command) {
                Some(action) => self.process_action(&action),
                None => {
                    self.response_text = String::from_str(NOT_UNDERSTOOD_RESPONSE);
                },
            }
            proof {
                use_type_invariant(&*self);
            }
            self.edit_text = String::new();
        }
    }

    /// Applies one input event: a text change replaces the typed text; a key
    /// press is handled by `process_key_press`.
    pub fn update(&mut self, event: Event)
        ensures
            final(self)@ == (match event {
                Event::EditChange(text) => SessionView { edit_text: text@, ..old(self)@ },
                Event::KeyPressed(key_code) => key_press(old(self)@, key_code),
            }),
    {
        proof {
            use_type_invariant(&*self);
        }
        match event {
            Event::EditChange(text) => {
                self.edit_text = text;
            },
            Event::KeyPressed(key_code) => self.process_key_press(key_code),
        }
    }
}

} // verus!
