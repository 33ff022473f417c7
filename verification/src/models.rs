use vstd::prelude::*;

verus! {

/// A row of the likes table: its id and the number of likes counted under it.
#[derive(Debug, Clone, Copy, PartialEq, Eq, Structural, Default)]
pub struct Like {
    pub id: i32,
    pub value: i32,
}

} // verus!
