use vstd::prelude::*;

use crate::direction::Direction;
use crate::exit::{Exit, ExitView};

verus! {

/// A location of the world. Its `name` is also its id.
pub struct Room {
    pub name: String,
    pub description: String,
    pub exits: Vec<Exit>,
}

/// The mathematical value of a `Room`.
pub struct RoomView {
    pub name: Seq<char>,
    pub description: Seq<char>,
    pub exits: Seq<ExitView>,
}

impl View for Room {
    type V = RoomView;

    open spec fn view(&self) -> RoomView {
        RoomView {
            name: self.name@,
            description: self.description@,
            exits: self.exits@.map_values(|e: Exit| e@),
        }
    }
}

impl RoomView {
    /// No two exits of the room share a direction.
    pub open spec fn wf(self) -> bool {
        forall|i: int, j: int|
            0 <= i < j < self.exits.len() ==> self.exits[i].direction != self.exits[j].direction
    }
}

/// Some exit in `exits` goes in direction `d`.
pub open spec fn has_exit(exits: Seq<ExitView>, d: Direction) -> bool {
    exists|i: int| 0 <= i < exits.len() && exits[i].direction == d
}

/// The directions in which `exits` lead, each once, in the order of `Direction`.
pub open spec fn listed_directions(exits: Seq<ExitView>) -> Seq<Direction> {
    let pick = |d: Direction|
        if has_exit(exits, d) {
            seq![d]
        } else {
            Seq::<Direction>::empty()
        };
    pick(Direction::North) + pick(Direction::South) + pick(Direction::East) + pick(
        Direction::West,
    )
}

/// The names of `ds` separated by ", ".
pub open spec fn comma_list(ds: Seq<Direction>) -> Seq<char>
    decreases ds.len(),
{
    if ds.len() == 0 {
        Seq::empty()
    } else if ds.len() == 1 {
        ds[0].name()
    } else {
        comma_list(ds.drop_last()) + ", "@ + ds.last().name()
    }
}

/// The names of `ds` separated by ", ", the last two joined by " and ".
pub open spec fn direction_list(ds: Seq<Direction>) -> Seq<char> {
    if ds.len() <= 1 {
        comma_list(ds)
    } else {
        comma_list(ds.drop_last()) + " and "@ + ds.last().name()
    }
}

/// The sentence that tells the player where the exits of a room lead.
pub open spec fn exit_summary(exits: Seq<ExitView>) -> Seq<char> {
    let ds = listed_directions(exits);
    if ds.len() == 0 {
        "There is no way out!"@
    } else {
        "Exits are "@ + direction_list(ds)
    }
}

impl Room {
    fn has_exit(&self, d: Direction) -> (r: bool)
        ensures
            r == has_exit(self@.exits, d),
    {
        let mut i: usize = 0;
        while i < self.exits.len()
            invariant
                0 <= i <= self.exits.len(),
                forall|j: int| 0 <= j < i ==> self@.exits[j].direction != d,
            decreases self.exits.len() - i,
        {
            if self.exits[i].direction == d {
                assert(self@.exits[i as int].direction == d);
                return true;
            }
            i += 1;
        }
        false
    }

    fn listed_directions(&self) -> (r: Vec<Direction>)
        ensures
            r@ == listed_directions(self@.exits),
    {
        let mut r: Vec<Direction> = Vec::new();
        let ghost exits = self@.exits;
        let ghost none = Seq::<Direction>::empty();
        if self.has_exit(Direction::North) {
            r.push(Direction::North);
        }
        assert(r@ =~= if has_exit(exits, Direction::North) { seq![Direction::North] } else { none });
        let ghost r1 = r@;
        if self.has_exit(Direction::South) {
            r.push(Direction::South);
        }
        assert(r@ =~= r1 + if has_exit(exits, Direction::South) { seq![Direction::South] } else { none });
        let ghost r2 = r@;
        if self.has_exit(Direction::East) {
            r.push(Direction::East);
        }
        assert(r@ =~= r2 + if has_exit(exits, Direction::East) { seq![Direction::East] } else { none });
        let ghost r3 = r@;
        if self.has_exit(Direction::West) {
            r.push(Direction::West);
        }
        assert(r@ =~= r3 + if has_exit(exits, Direction::West) { seq![Direction::West] } else { none });
        r
    }

    /// The exit summary shown to the player: "There is no way out!" for a room
    /// without exits, otherwise "Exits are " and the directions in the order of
    /// `Direction`, separated by commas, the last two joined by "and".
    #[allow(non_snake_case)]
    pub fn describeExits(&self) -> (r: String)
        ensures
            r@ == exit_summary(self@.exits),
    {
        let listed = self.listed_directions();
        let n = listed.len();
        if n == 0 {
            return String::from_str("There is no way out!");
        }
        let ghost ds = listed@;
        let mut text = String::from_str("Exits are ");
        text.append(listed[0].as_str());
        assert(ds.take(1) =~= seq![ds[0]]);
        let mut i: usize = 1;
        while i + 1 < n
            invariant
                n == ds.len(),
                ds == listed@,
                1 <= i <= n,
                n >= 2 ==> i <= n - 1,
                text@ == "Exits are "@ + comma_list(ds.take(i as int)),
            decreases n - i,
        {
            text.append(", ");
            text.append(listed[i].as_str());
            assert(ds.take(i + 1).drop_last() =~= ds.take(i as int));
            assert(text@ =~= "Exits are "@ + comma_list(ds.take(i + 1)));
            i += 1;
        }
        if n >= 2 {
            text.append(" and ");
            text.append(listed[n - 1].as_str());
            assert(ds.drop_last() =~= ds.take(i as int));
            assert(text@ =~= "Exits are "@ + direction_list(ds));
        } else {
            assert(ds.take(1) =~= ds);
        }
        text
    }
}

} // verus!
