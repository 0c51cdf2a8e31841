use vstd::prelude::*;

verus! {

/// One of the four cardinal movement directions.
///
/// The derived order (North < South < East < West) fixes the order in which
/// exits are listed.
#[derive(Clone, Copy, PartialEq, Eq, Structural, Debug, PartialOrd, Ord, Hash)]
pub enum Direction {
    North,
    South,
    East,
    West,
}

impl Direction {
    /// The canonical display name of the direction.
    pub open spec fn name(self) -> Seq<char> {
        match self {
            Direction::North => seq!['N', 'o', 'r', 't', 'h'],
            Direction::South => seq!['S', 'o', 'u', 't', 'h'],
            Direction::East => seq!['E', 'a', 's', 't'],
            Direction::West => seq!['W', 'e', 's', 't'],
        }
    }

    pub fn as_str(&self) -> (r: &'static str)
        ensures
            r@ == self.name(),
    {
        match self {
            Direction::North => {
                proof {
                    reveal_strlit("North");
                }
                "North"
            },
            Direction::South => {
                proof {
                    reveal_strlit("South");
                }
                "South"
            },
            Direction::East => {
                proof {
                    reveal_strlit("East");
                }
                "East"
            },
            Direction::West => {
                proof {
                    reveal_strlit("West");
                }
                "West"
            },
        }
    }
}

} // verus!
