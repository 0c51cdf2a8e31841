use vstd::prelude::*;

use crate::action::{Action, Verb};
use crate::direction::Direction;

verus! {

/// An ASCII letter, upper or lower case.
pub open spec fn is_ascii_letter(c: char) -> bool {
    ('a' <= c && c <= 'z') || ('A' <= c && c <= 'Z')
}

/// The code point that `c` stands for when letters are compared without regard
/// to case: an upper-case ASCII letter stands for its lower-case letter, the
/// Kelvin sign for `k` and the long s for `s`; every other character for itself.
/// These are exactly the simple case foldings that reach an ASCII letter.
pub open spec fn fold_code(c: char) -> u32 {
    let n = c as u32;
    if 65 <= n && n <= 90 {
        (n + 32) as u32
    } else if n == 0x212A {
        107
    } else if n == 0x17F {
        115
    } else {
        n
    }
}

/// `text` holds `word` from position `i` on, letter case aside.
pub open spec fn occurs_at(text: Seq<char>, word: Seq<char>, i: int) -> bool {
    0 <= i && i + word.len() <= text.len() && forall|j: int|
        0 <= j < word.len() ==> fold_code(#[trigger] text[i + j]) == fold_code(word[j])
}

/// `text` holds `word` somewhere, letter case aside.
pub open spec fn mentions(text: Seq<char>, word: Seq<char>) -> bool {
    exists|i: int| occurs_at(text, word, i)
}

/// The direction that the player's text asks for: the first of North, South,
/// East and West whose name it mentions, letter case aside.
pub open spec fn interpret(text: Seq<char>) -> Option<Direction> {
    if mentions(text, Direction::North.name()) {
        Some(Direction::North)
    } else if mentions(text, Direction::South.name()) {
        Some(Direction::South)
    } else if mentions(text, Direction::East.name()) {
        Some(Direction::East)
    } else if mentions(text, Direction::West.name()) {
        Some(Direction::West)
    } else {
        None
    }
}

/// Relies on `regex::RegexBuilder` with `case_insensitive(true)` and
/// `Regex::is_match`: a pattern made of ASCII letters compiles, and matches
/// where the text holds the letters in a row, each one under simple case
/// folding (regex-syntax's `CASE_FOLDING_SIMPLE` table).
#[verifier::external_body]
fn mentions_ignoring_case(text: &str, word: &str) -> (r: bool)
    requires
        word@.len() <= 64,
        forall|j: int| 0 <= j < word@.len() ==> is_ascii_letter(#[trigger] word@[j]),
    ensures
        r == mentions(text@, word@),
{
    let pattern = regex::RegexBuilder::new(word).case_insensitive(true).build().unwrap();
    pattern.is_match(text)
}

fn mentions_direction(text: &str, d: Direction) -> (r: bool)
    ensures
        r == mentions(text@, d.name()),
{
    let word = d.as_str();
    assert forall|j: int| 0 <= j < word@.len() implies is_ascii_letter(#[trigger] word@[j]) by {
        match d {
            Direction::North => assert(0 <= j < 5),
            Direction::South => assert(0 <= j < 5),
            Direction::East => assert(0 <= j < 4),
            Direction::West => assert(0 <= j < 4),
        }
    }
    mentions_ignoring_case(text, word)
}

/// Reads a movement command from the player's text: the first of North,
/// South, East and West whose name occurs in it, letter case aside.
#[allow(non_snake_case)]
pub fn processCommandIntoAction(command: String) -> (r: Option<Action>)
    ensures
        match r {
            Some(a) => a.verb == Verb::Move && interpret(command@) == Some(a.direction),
            None => interpret(command@) == None::<Direction>,
        },
{
    let text = command.as_str();
    if mentions_direction(text, Direction::North) {
        return Some(Action { verb: Verb::Move, direction: Direction::North });
    }
    if mentions_direction(text, Direction::South) {
        return Some(Action { verb: Verb::Move, direction: Direction::South });
    }
    if mentions_direction(text, Direction::East) {
        return Some(Action { verb: Verb::Move, direction: Direction::East });
    }
    if mentions_direction(text, Direction::West) {
        return Some(Action { verb: Verb::Move, direction: Direction::West });
    }
    None
}

/// Any spelling of a direction's name that differs from it in letter case
/// alone is read as that direction.
pub proof fn lemma_interpret_ignores_case(d: Direction, text: Seq<char>)
    requires
        text.len() == d.name().len(),
        forall|j: int| 0 <= j < text.len() ==> fold_code(#[trigger] text[j]) == fold_code(d.name()[j]),
    ensures
        interpret(text) == Some(d),
{
    assert forall|j: int| 0 <= j < d.name().len() implies fold_code(#[trigger] text[0 + j])
        == fold_code(d.name()[j]) by {
        assert(text[0 + j] == text[j]);
    }
    assert(occurs_at(text, d.name(), 0));
    let n = Direction::North.name();
    let s = Direction::South.name();
    let e = Direction::East.name();
    match d {
        Direction::North => {},
        Direction::South => {
            assert forall|i: int| !occurs_at(text, n, i) by {
                if 0 <= i && i + n.len() <= text.len() {
                    assert(text[i + 0] == text[0]);
                }
            }
        },
        Direction::East => {},
        Direction::West => {
            assert forall|i: int| !occurs_at(text, e, i) by {
                if 0 <= i && i + e.len() <= text.len() {
                    assert(text[i + 0] == text[0]);
                }
            }
        },
    }
}

} // verus!
