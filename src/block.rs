use vstd::prelude::*;

verus! {

/// Identifier of a terrain material.
pub type BlockID = u32;

/// The intrinsic "unset" value of a block identifier: a cell that holds it
/// may be painted by any rule.
pub const UNSET_BLOCK: BlockID = 0;

/// A chunk's position in the chunk grid (not in world units).
#[derive(Clone, Copy, Debug, PartialEq, Eq, Structural)]
pub struct Coord(pub i64, pub i64);

impl Coord {
    pub fn new(x: i64, y: i64) -> (r: Coord)
        ensures
            r == Coord(x, y),
    {
        Coord(x, y)
    }
}

} // verus!
