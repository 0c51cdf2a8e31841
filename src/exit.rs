use vstd::prelude::*;

use crate::direction::Direction;

verus! {

/// An edge of the world graph: a direction and the id of the room it leads to.
pub struct Exit {
    pub direction: Direction,
    pub goes_to: String,
}

/// The mathematical value of an `Exit`.
pub struct ExitView {
    pub direction: Direction,
    pub goes_to: Seq<char>,
}

impl View for Exit {
    type V = ExitView;

    open spec fn view(&self) -> ExitView {
        ExitView { direction: self.direction, goes_to: self.goes_to@ }
    }
}

impl Exit {
    pub fn get_direction(&self) -> (r: Direction)
        ensures
            r == self.direction,
    {
        self.direction
    }

    /// A fresh copy of the destination room id.
    pub fn goes_to(&self) -> (r: String)
        ensures
            r@ == self.goes_to@,
    {
        self.goes_to.clone()
    }
}

} // verus!
