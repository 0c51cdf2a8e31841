use vstd::prelude::*;

use crate::direction::Direction;
use crate::exit::ExitView;
use crate::room::{has_exit, RoomView};
use crate::world::RoomMap;

verus! {

/// The outcome of trying to leave a room in some direction.
#[derive(Debug, PartialEq, Eq)]
pub enum NavigationResult {
    /// The room has an exit that way; it leads to the room with this id.
    Moved(String),
    /// The room has no exit that way.
    Blocked,
}

/// The destination of the first exit of `exits` that goes in direction `d`.
pub open spec fn exit_toward(exits: Seq<ExitView>, d: Direction) -> Option<Seq<char>>
    decreases exits.len(),
{
    if exits.len() == 0 {
        None
    } else if exits[0].direction == d {
        Some(exits[0].goes_to)
    } else {
        exit_toward(exits.drop_first(), d)
    }
}

/// Where leaving room `from` of `world` in direction `d` leads, if anywhere.
pub open spec fn navigate(world: Map<Seq<char>, RoomView>, from: Seq<char>, d: Direction) -> Option<
    Seq<char>,
> {
    exit_toward(world[from].exits, d)
}

proof fn lemma_exit_toward_first(exits: Seq<ExitView>, i: int)
    requires
        0 <= i < exits.len(),
        forall|j: int| 0 <= j < i ==> exits[j].direction != exits[i].direction,
    ensures
        exit_toward(exits, exits[i].direction) == Some(exits[i].goes_to),
    decreases i,
{
    if i > 0 {
        assert(exits.drop_first()[i - 1] == exits[i]);
        lemma_exit_toward_first(exits.drop_first(), i - 1);
    }
}

proof fn lemma_exit_toward_absent(exits: Seq<ExitView>, d: Direction)
    requires
        !has_exit(exits, d),
    ensures
        exit_toward(exits, d) == None::<Seq<char>>,
    decreases exits.len(),
{
    if exits.len() > 0 {
        assert(exits[0].direction != d);
        assert forall|j: int| 0 <= j < exits.len() - 1 implies exits.drop_first()[j].direction
            != d by {
            assert(exits.drop_first()[j] == exits[j + 1]);
        }
        lemma_exit_toward_absent(exits.drop_first(), d);
    }
}

/// A destination found by `exit_toward` is the destination of one of the exits.
pub proof fn lemma_exit_toward_is_exit(exits: Seq<ExitView>, d: Direction)
    requires
        exit_toward(exits, d) is Some,
    ensures
        exists|j: int|
            0 <= j < exits.len() && exits[j].direction == d && exits[j].goes_to == exit_toward(
                exits,
                d,
            )->0,
    decreases exits.len(),
{
    if exits[0].direction != d {
        lemma_exit_toward_is_exit(exits.drop_first(), d);
        let j = choose|j: int|
            0 <= j < exits.len() - 1 && exits.drop_first()[j].direction == d
                && exits.drop_first()[j].goes_to == exit_toward(exits.drop_first(), d)->0;
        assert(exits[j + 1] == exits.drop_first()[j]);
    }
}

/// Leaving a room by one of its exits leads to that exit's destination.
pub proof fn lemma_move_follows_exit(world: Map<Seq<char>, RoomView>, id: Seq<char>, j: int)
    requires
        world.contains_key(id),
        world[id].wf(),
        0 <= j < world[id].exits.len(),
    ensures
        navigate(world, id, world[id].exits[j].direction) == Some(world[id].exits[j].goes_to),
{
    lemma_exit_toward_first(world[id].exits, j);
}

/// Leaving a room in a direction in which it has no exit is blocked.
pub proof fn lemma_move_without_exit_is_blocked(
    world: Map<Seq<char>, RoomView>,
    id: Seq<char>,
    d: Direction,
)
    requires
        world.contains_key(id),
        forall|j: int| 0 <= j < world[id].exits.len() ==> world[id].exits[j].direction != d,
    ensures
        navigate(world, id, d) == None::<Seq<char>>,
{
    lemma_exit_toward_absent(world[id].exits, d);
}

/// Looks up room `from` and follows the first of its exits that goes in
/// `direction`.
pub fn resolve_move(world: &RoomMap, from: &String, direction: Direction) -> (r: NavigationResult)
    requires
        world@.contains_key(from@),
    ensures
        match r {
            NavigationResult::Moved(to) => navigate(world@, from@, direction) == Some(to@),
            NavigationResult::Blocked => navigate(world@, from@, direction) == None::<Seq<char>>,
        },
{
    let room = world.lookup(from);
    let ghost exits = room@.exits;
    let mut i: usize = 0;
    assert(exits.subrange(0, exits.len() as int) =~= exits);
    while i < room.exits.len()
        invariant
            exits == room@.exits,
            exits == world@[from@].exits,
            0 <= i <= exits.len(),
            exit_toward(exits, direction) == exit_toward(
                exits.subrange(i as int, exits.len() as int),
                direction,
            ),
        decreases exits.len() - i,
    {
        let ghost rest = exits.subrange(i as int, exits.len() as int);
        assert(rest[0] == exits[i as int]);
        assert(exits[i as int] == room.exits@[i as int]@);
        if room.exits[i].direction == direction {
            let to = room.exits[i].goes_to();
            assert(exit_toward(rest, direction) == Some(rest[0].goes_to));
            return NavigationResult::Moved(to);
        }
        assert(rest.drop_first() =~= exits.subrange(i + 1, exits.len() as int));
        i += 1;
    }
    NavigationResult::Blocked
}

} // verus!
