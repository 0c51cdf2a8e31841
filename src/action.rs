use vstd::prelude::*;

use crate::direction::Direction;

verus! {

/// What the player asks to do. Only `Move` is produced by the interpreter.
#[derive(Clone, Copy, PartialEq, Eq, Structural, Debug)]
pub enum Verb {
    Move,
    Take,
    Drop,
}

/// An object named in a command, kept for verbs that act on things.
pub struct Article {
    name: String,
}

/// A parsed command: a verb and the direction it applies to.
#[derive(Clone, Copy, PartialEq, Eq, Structural, Debug)]
pub struct Action {
    pub verb: Verb,
    pub direction: Direction,
}

} // verus!
