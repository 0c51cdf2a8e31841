use vstd::prelude::*;

use crate::direction::Direction;
use crate::exit::{Exit, ExitView};
use crate::room::{Room, RoomView};
use crate::world::{is_closed, RoomMap};

verus! {

/// The room where a new game starts.
pub const START_ROOM: &'static str = "The Crater";

/// The wreck to the north of the start.
pub const CRASHED_SHIP: &'static str = "The Crashed Ship";

pub const CRATER_DESCRIPTION: &'static str = "   The last thing you remember is whistling through space and the phenonomal\n\
                                   pain you experienced after your (well, the central prisons') ship spun out of\n\
                                   control.  Astoundingly the safety measures on the prison craft worked better\n\
                                    than you could have hoped for, aside from a few cuts, bruises and a headache\n\
                                    worse than anyone in the universe could have had.\n\
                                       You look dazedly around.  A crater stretches for thirty metres around and\n\
                                    the craft that got you to this state is lying a short distance to the north\n\
                                    in a condition that puts your headache to shame.  It is buried several metres\n\
                                    under the level of the surrounding ground and is twisted and bent like a\n\
                                    screwed up piece of paper.  You yourself are crumpled up and resting next to\n\
                                    the craft.  \n\
                                       So, here you are.";

pub const CRASHED_SHIP_DESCRIPTION: &'static str = "   You are inside the debris that was your home for six months.  The impact \n
                            of the crash was such that it destroyed most every useful item on the craft.\n
                            You cannot see your hand in front of your face for the dark.  A string is\n
                            swinging against your ear.\n";

/// The start room: a crater with the wreck to the north.
pub open spec fn crater() -> RoomView {
    RoomView {
        name: START_ROOM@,
        description: CRATER_DESCRIPTION@,
        exits: seq![ExitView { direction: Direction::North, goes_to: CRASHED_SHIP@ }],
    }
}

/// The wreck, with the crater to the south.
pub open spec fn crashed_ship() -> RoomView {
    RoomView {
        name: CRASHED_SHIP@,
        description: CRASHED_SHIP_DESCRIPTION@,
        exits: seq![ExitView { direction: Direction::South, goes_to: START_ROOM@ }],
    }
}

/// The world that a new game is played in.
pub open spec fn seed_world() -> Map<Seq<char>, RoomView> {
    Map::<Seq<char>, RoomView>::empty().insert(START_ROOM@, crater()).insert(
        CRASHED_SHIP@,
        crashed_ship(),
    )
}

/// Adds the rooms of a new game to `room_map`. A map whose exits all lead to
/// rooms of it keeps that property.
pub fn build_rooms(room_map: &mut RoomMap)
    ensures
        final(room_map)@ == old(room_map)@.insert(START_ROOM@, crater()).insert(
            CRASHED_SHIP@,
            crashed_ship(),
        ),
        is_closed(old(room_map)@) ==> is_closed(final(room_map)@),
{
    let ship_room = Room {
        name: String::from_str(CRASHED_SHIP),
        description: String::from_str(CRASHED_SHIP_DESCRIPTION),
        exits: vec![Exit { direction: Direction::South, goes_to: String::from_str(START_ROOM) }],
    };
    let start_room = Room {
        name: String::from_str(START_ROOM),
        description: String::from_str(CRATER_DESCRIPTION),
        exits: vec![Exit { direction: Direction::North, goes_to: String::from_str(CRASHED_SHIP) }],
    };
    assert(start_room@.exits =~= crater().exits);
    assert(ship_room@.exits =~= crashed_ship().exits);
    room_map.insert(start_room);
    room_map.insert(ship_room);
    proof {
        lemma_seed_rooms_lead_to_each_other(old(room_map)@, room_map@);
    }
}

proof fn lemma_seed_rooms_lead_to_each_other(
    before: Map<Seq<char>, RoomView>,
    after: Map<Seq<char>, RoomView>,
)
    requires
        after == before.insert(START_ROOM@, crater()).insert(CRASHED_SHIP@, crashed_ship()),
    ensures
        is_closed(before) ==> is_closed(after),
{
    if is_closed(before) {
        assert forall|k: Seq<char>, j: int|
            after.contains_key(k) && 0 <= j < after[k].exits.len() implies #[trigger] after.contains_key(
            after[k].exits[j].goes_to,
        ) by {
            if k != START_ROOM@ && k != CRASHED_SHIP@ {
                assert(before.contains_key(before[k].exits[j].goes_to));
            }
        }
    }
}

/// The world of a new game has every exit lead to one of its rooms.
pub proof fn lemma_seed_world_is_closed()
    ensures
        is_closed(seed_world()),
        seed_world().contains_key(START_ROOM@),
        seed_world()[START_ROOM@].wf(),
        seed_world()[CRASHED_SHIP@].wf(),
{
    lemma_seed_rooms_lead_to_each_other(Map::empty(), seed_world());
}

} // verus!
