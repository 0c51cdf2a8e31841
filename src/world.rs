use vstd::prelude::*;

use crate::room::{Room, RoomView};

verus! {

/// The world: every room, keyed by its name.
pub struct RoomMap {
    rooms: Vec<Room>,
}

/// Every exit of every room of `m` leads to a room of `m`.
pub open spec fn is_closed(m: Map<Seq<char>, RoomView>) -> bool {
    forall|k: Seq<char>, j: int|
        m.contains_key(k) && 0 <= j < m[k].exits.len() ==> #[trigger] m.contains_key(
            m[k].exits[j].goes_to,
        )
}

impl View for RoomMap {
    type V = Map<Seq<char>, RoomView>;

    closed spec fn view(&self) -> Map<Seq<char>, RoomView> {
        Map::new(
            |k: Seq<char>| exists|i: int| 0 <= i < self.rooms.len() && self.rooms[i]@.name == k,
            |k: Seq<char>|
                self.rooms[choose|i: int| 0 <= i < self.rooms.len() && self.rooms[i]@.name == k]@,
        )
    }
}

impl RoomMap {
    #[verifier::type_invariant]
    closed spec fn names_unique(self) -> bool {
        forall|i: int, j: int|
            0 <= i < j < self.rooms.len() ==> self.rooms[i]@.name != self.rooms[j]@.name
    }

    pub fn new() -> (r: RoomMap)
        ensures
            r@ == Map::<Seq<char>, RoomView>::empty(),
    {
        let r = RoomMap { rooms: Vec::new() };
        assert(r@ =~= Map::<Seq<char>, RoomView>::empty());
        r
    }

    fn position(rooms: &Vec<Room>, id: &String) -> (r: Option<usize>)
        ensures
            match r {
                Some(i) => i < rooms.len() && rooms@[i as int]@.name == id@,
                None => forall|j: int| 0 <= j < rooms.len() ==> rooms@[j]@.name != id@,
            },
    {
        let mut i: usize = 0;
        while i < rooms.len()
            invariant
                0 <= i <= rooms.len(),
                forall|j: int| 0 <= j < i ==> rooms@[j]@.name != id@,
            decreases rooms.len() - i,
        {
            if rooms[i].name == *id {
                return Some(i);
            }
            i += 1;
        }
        None
    }

    /// The room with id `id`, if the world has one.
    pub fn get(&self, id: &String) -> (r: Option<&Room>)
        ensures
            match r {
                Some(room) => self@.contains_key(id@) && room@ == self@[id@],
                None => !self@.contains_key(id@),
            },
    {
        proof {
            use_type_invariant(self);
        }
        match Self::position(&self.rooms, id) {
            Some(i) => {
                assert(self.rooms@[i as int]@.name == id@);
                Some(&self.rooms[i])
            },
            None => None,
        }
    }

    /// The room with id `id`, which the world has.
    pub(crate) fn lookup(&self, id: &String) -> (r: &Room)
        requires
            self@.contains_key(id@),
        ensures
            r@ == self@[id@],
    {
        proof {
            use_type_invariant(self);
        }
        match Self::position(&self.rooms, id) {
            Some(i) => &self.rooms[i],
            None => &self.rooms[0],
        }
    }

    /// Adds `room` under its name, replacing a room of the same name.
    pub fn insert(&mut self, room: Room)
        ensures
            final(self)@ == old(self)@.insert(room@.name, room@),
    {
        proof {
            use_type_invariant(&*self);
        }
        let ghost key = room@.name;
        let ghost value = room@;
        let mut rooms: Vec<Room> = Vec::new();
        std::mem::swap(&mut rooms, &mut self.rooms);
        let ghost before = rooms@;
        match Self::position(&rooms, &room.name) {
            Some(i) => {
                rooms.set(i, room);
            },
            None => {
                rooms.push(room);
            },
        }
        proof {
            let after = rooms@;
            assert forall|i: int, j: int| 0 <= i < j < after.len() implies after[i]@.name
                != after[j]@.name by {
                if after[i]@.name == key {
                    assert(before.len() <= j || after[j] == before[j]);
                }
                if after[j]@.name == key {
                    assert(before.len() <= i || after[i] == before[i]);
                }
            }
        }
        self.rooms = rooms;
        proof {
            let m = self@;
            let o = old(self)@.insert(key, value);
            assert forall|k: Seq<char>| #[trigger] m.contains_key(k) <==> o.contains_key(k) by {
                if k != key {
                    if m.contains_key(k) {
                        let j = choose|j: int| 0 <= j < self.rooms.len() && self.rooms[j]@.name == k;
                        assert(before[j]@.name == k);
                    }
                    if old(self)@.contains_key(k) {
                        let j = choose|j: int| 0 <= j < before.len() && before[j]@.name == k;
                        assert(self.rooms[j]@.name == k);
                    }
                } else {
                    let j = if before.len() < self.rooms.len() { before.len() as int } else {
                        choose|j: int| 0 <= j < before.len() && before[j]@.name == key
                    };
                    assert(self.rooms[j]@.name == key);
                }
            }
            assert forall|k: Seq<char>| #[trigger] m.contains_key(k) implies m[k] == o[k] by {
                let j = choose|j: int| 0 <= j < self.rooms.len() && self.rooms[j]@.name == k;
                if k != key {
                    let j0 = choose|j: int| 0 <= j < before.len() && before[j]@.name == k;
                    assert(self.rooms[j0]@.name == k);
                }
            }
            assert(m =~= o);
        }
    }
}

} // verus!
