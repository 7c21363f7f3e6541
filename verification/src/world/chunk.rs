use vstd::prelude::*;
use crate::world::block::Block;

verus! {

/// Width of a chunk along x, in blocks.
pub const CHUNK_W: usize = 16;
/// Depth of a chunk along z, in blocks.
pub const CHUNK_D: usize = 16;
/// Height of a chunk along y, in blocks.
pub const CHUNK_H: usize = 64;
/// Number of blocks in a chunk.
pub const CHUNK_LEN: usize = 16384;

/// Position of block (x, y, z) in a chunk's flat block list: layer by layer
/// (`CHUNK_W * CHUNK_D` = 256 blocks each), each layer row by row.
pub open spec fn flat_index(x: int, y: int, z: int) -> int {
    y * 256 + z * 16 + x
}

/// Whether (x, y, z) names a block inside a chunk.
pub open spec fn in_chunk(x: int, y: int, z: int) -> bool {
    0 <= x < 16 && 0 <= y < 64 && 0 <= z < 16
}

/// A column of 16 x 64 x 16 blocks whose corner sits at block
/// (16 * cx, 0, 16 * cz) of the world.
#[derive(Clone, Debug)]
pub struct Chunk {
    pub cx: i32,
    pub cz: i32,
    pub blocks: Vec<Block>,
}

impl Chunk {
    /// The block list has one entry per block of the chunk.
    pub open spec fn wf(&self) -> bool {
        self.blocks@.len() == CHUNK_LEN
    }

    /// The block at (x, y, z).
    pub open spec fn block_at(&self, x: int, y: int, z: int) -> Block {
        self.blocks@[flat_index(x, y, z)]
    }

    /// An empty chunk: every block is air.
    pub fn new(cx: i32, cz: i32) -> (c: Self)
        ensures
            c.wf(),
            c.cx == cx,
            c.cz == cz,
            forall|i: int| 0 <= i < CHUNK_LEN ==> c.blocks@[i] == Block::Air,
    {
        let mut blocks: Vec<Block> = Vec::new();
        while blocks.len() < CHUNK_LEN
            invariant
                blocks@.len() <= CHUNK_LEN,
                forall|i: int| 0 <= i < blocks@.len() ==> blocks@[i] == Block::Air,
            decreases CHUNK_LEN - blocks@.len(),
        {
            blocks.push(Block::Air);
        }
        Chunk { cx, cz, blocks }
    }

    fn idx(x: usize, y: usize, z: usize) -> (i: usize)
        requires
            flat_index(x as int, y as int, z as int) < CHUNK_LEN,
        ensures
            i == flat_index(x as int, y as int, z as int),
    {
        y * 256 + z * 16 + x
    }

    /// Puts `block` at (x, y, z); no other entry changes.
    pub fn set(&mut self, x: usize, y: usize, z: usize, block: Block)
        requires
            old(self).wf(),
            flat_index(x as int, y as int, z as int) < CHUNK_LEN,
        ensures
            final(self).wf(),
            final(self).cx == old(self).cx,
            final(self).cz == old(self).cz,
            final(self).blocks@ == old(self).blocks@.update(
                flat_index(x as int, y as int, z as int),
                block,
            ),
    {
        let i = Self::idx(x, y, z);
        self.blocks.set(i, block);
    }

    /// The block at (x, y, z).
    pub fn get(&self, x: usize, y: usize, z: usize) -> (b: Block)
        requires
            self.wf(),
            flat_index(x as int, y as int, z as int) < CHUNK_LEN,
        ensures
            b == self.block_at(x as int, y as int, z as int),
    {
        self.blocks[Self::idx(x, y, z)]
    }
}

/// Height of the highest solid block among the lowest `n` blocks of column
/// (x, z) of `c`, or 0 when all of them are air.
pub open spec fn surface_below(c: Chunk, x: int, z: int, n: int) -> int
    decreases n,
{
    if n <= 0 {
        0
    } else if c.block_at(x, n - 1, z).is_solid() {
        n - 1
    } else {
        surface_below(c, x, z, n - 1)
    }
}

/// Height of the highest solid block of column (x, z) of `c`, or 0 when the
/// column is all air.
pub open spec fn surface(c: Chunk, x: int, z: int) -> int {
    surface_below(c, x, z, CHUNK_H as int)
}

/// Two different positions inside a chunk have different places in the
/// block list.
pub proof fn lemma_flat_index_injective(x1: int, y1: int, z1: int, x2: int, y2: int, z2: int)
    requires
        in_chunk(x1, y1, z1),
        in_chunk(x2, y2, z2),
        (x1, y1, z1) != (x2, y2, z2),
    ensures
        flat_index(x1, y1, z1) != flat_index(x2, y2, z2),
        0 <= flat_index(x1, y1, z1) < CHUNK_LEN,
{
}

/// Reading a position after writing it gives back what was written, and
/// writing one position leaves every other position of the chunk as it was.
pub proof fn lemma_read_after_write(
    before: Chunk,
    after: Chunk,
    x: int,
    y: int,
    z: int,
    b: Block,
    qx: int,
    qy: int,
    qz: int,
)
    requires
        before.wf(),
        in_chunk(x, y, z),
        in_chunk(qx, qy, qz),
        after.blocks@ == before.blocks@.update(flat_index(x, y, z), b),
    ensures
        after.block_at(x, y, z) == b,
        (qx, qy, qz) != (x, y, z) ==> after.block_at(qx, qy, qz) == before.block_at(qx, qy, qz),
{
    if (qx, qy, qz) != (x, y, z) {
        lemma_flat_index_injective(x, y, z, qx, qy, qz);
    }
}

} // verus!
