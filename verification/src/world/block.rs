use vstd::prelude::*;

verus! {

/// The material of one cell of the world.
#[derive(Copy, Clone, Debug, PartialEq, Eq, Structural)]
pub enum Block {
    Air,
    Dirt,
    Grass,
    Stone,
}

impl Block {
    /// Whether the player stands on this block: everything but air.
    pub open spec fn is_solid(self) -> bool {
        self != Block::Air
    }

    /// Whether the player stands on this block: everything but air.
    pub fn solid(&self) -> (r: bool)
        ensures
            r == self.is_solid(),
    {
        match self {
            Block::Air => false,
            _ => true,
        }
    }
}

} // verus!
