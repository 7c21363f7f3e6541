use vstd::prelude::*;
use crate::world::block::Block;
use crate::world::chunk::{Chunk, CHUNK_D, CHUNK_H, CHUNK_W, flat_index, in_chunk, surface, surface_below};

verus! {

/// How a world's terrain is shaped.
#[derive(Copy, Clone, Debug, PartialEq, Eq, Structural)]
pub enum WorldGen {
    /// Every column is 20 blocks high.
    Flat,
    /// Column heights follow a relief map computed from the seed.
    Realistic,
}

impl WorldGen {
    /// The label shown for the terrain kind.
    pub open spec fn label_text(self) -> Seq<char> {
        match self {
            WorldGen::Flat => "PLANO"@,
            WorldGen::Realistic => "REALISTA"@,
        }
    }

    /// The label shown for the terrain kind.
    pub fn label(&self) -> (s: &'static str)
        ensures
            s@ == self.label_text(),
    {
        match self {
            WorldGen::Flat => "PLANO",
            WorldGen::Realistic => "REALISTA",
        }
    }
}

/// Height of every column of a flat world.
pub const FLAT_HEIGHT: i32 = 20;

/// Produces the chunks of a world from its seed.
pub struct Generator {
    pub seed: u32,
}

/// The block at height `y` of a column whose surface is at height `h`:
/// air above the surface, grass on it, three layers of dirt below, stone
/// under that.
pub open spec fn layer_block(y: int, h: int) -> Block {
    if y > h {
        Block::Air
    } else if y == h {
        Block::Grass
    } else if y > h - 4 {
        Block::Dirt
    } else {
        Block::Stone
    }
}

/// Surface height of column (x, z) of a chunk: 20 in a flat world, the
/// entry of the relief map (row z, column x) in a realistic one.
pub open spec fn column_height(mode: WorldGen, relief: Seq<i32>, x: int, z: int) -> int {
    match mode {
        WorldGen::Flat => FLAT_HEIGHT as int,
        WorldGen::Realistic => relief[z * 16 + x] as int,
    }
}

/// Whether `c` is the chunk at chunk coordinates (cx, cz) of a world of kind
/// `mode` whose relief map for that chunk is `relief`.
pub open spec fn is_generated(c: Chunk, cx: i32, cz: i32, mode: WorldGen, relief: Seq<i32>) -> bool {
    &&& c.wf()
    &&& c.cx == cx
    &&& c.cz == cz
    &&& forall|x: int, y: int, z: int|
        #![trigger c.block_at(x, y, z)]
        in_chunk(x, y, z) ==> c.block_at(x, y, z) == layer_block(
            y,
            column_height(mode, relief, x, z),
        )
}

/// The block that generation puts at place `i` of the flat block list.
pub open spec fn generated_at(mode: WorldGen, relief: Seq<i32>, i: int) -> Block {
    layer_block(i / 256, column_height(mode, relief, i % 16, (i / 16) % 16))
}

proof fn lemma_flat_index_parts(x: int, y: int, z: int)
    requires
        0 <= x < 16,
        0 <= z < 16,
        0 <= y,
    ensures
        flat_index(x, y, z) / 256 == y,
        flat_index(x, y, z) % 16 == x,
        (flat_index(x, y, z) / 16) % 16 == z,
{
    assert((y * 256 + z * 16 + x) / 256 == y) by (nonlinear_arith)
        requires
            0 <= x < 16,
            0 <= z < 16,
            0 <= y,
    ;
    assert((y * 256 + z * 16 + x) % 16 == x) by (nonlinear_arith)
        requires
            0 <= x < 16,
            0 <= z < 16,
            0 <= y,
    ;
    assert((y * 256 + z * 16 + x) / 16 == y * 16 + z) by (nonlinear_arith)
        requires
            0 <= x < 16,
            0 <= z < 16,
            0 <= y,
    ;
    assert((y * 16 + z) % 16 == z) by (nonlinear_arith)
        requires
            0 <= z < 16,
            0 <= y,
    ;
}

impl Generator {
    pub fn new(seed: u32) -> (g: Self)
        ensures
            g.seed == seed,
    {
        Generator { seed }
    }

    /// The chunk at chunk coordinates (cx, cz). Each column (x, z) is filled
    /// up to its surface height (see `column_height`) as `layer_block` says.
    /// A realistic world reads the surface heights from `relief`, 16 rows of
    /// 16 columns (index `z * 16 + x`); a flat world does not read it.
    pub fn generate_chunk(&self, cx: i32, cz: i32, mode: WorldGen, relief: &Vec<i32>) -> (c: Chunk)
        requires
            mode == WorldGen::Realistic ==> relief@.len() == CHUNK_W * CHUNK_D,
        ensures
            is_generated(c, cx, cz, mode, relief@),
    {
        let mut blocks: Vec<Block> = Vec::new();
        let mut y: usize = 0;
        while y < CHUNK_H
            invariant
                y <= CHUNK_H,
                blocks@.len() == y * 256,
                mode == WorldGen::Realistic ==> relief@.len() == 256,
                forall|i: int| 0 <= i < blocks@.len() ==> blocks@[i] == generated_at(mode, relief@, i),
            decreases CHUNK_H - y,
        {
            let mut z: usize = 0;
            while z < CHUNK_D
                invariant
                    y < CHUNK_H,
                    z <= CHUNK_D,
                    blocks@.len() == y * 256 + z * 16,
                    mode == WorldGen::Realistic ==> relief@.len() == 256,
                    forall|i: int|
                        0 <= i < blocks@.len() ==> blocks@[i] == generated_at(mode, relief@, i),
                decreases CHUNK_D - z,
            {
                let mut x: usize = 0;
                while x < CHUNK_W
                    invariant
                        y < CHUNK_H,
                        z < CHUNK_D,
                        x <= CHUNK_W,
                        blocks@.len() == y * 256 + z * 16 + x,
                        mode == WorldGen::Realistic ==> relief@.len() == 256,
                        forall|i: int|
                            0 <= i < blocks@.len() ==> blocks@[i] == generated_at(mode, relief@, i),
                    decreases CHUNK_W - x,
                {
                    let height: i32 = match mode {
                        WorldGen::Flat => FLAT_HEIGHT,
                        WorldGen::Realistic => relief[z * CHUNK_W + x],
                    };
                    let yy = y as i32;
                    let block = if yy > height {
                        Block::Air
                    } else if yy == height {
                        Block::Grass
                    } else if yy + 4 > height {
                        Block::Dirt
                    } else {
                        Block::Stone
                    };
                    proof {
                        lemma_flat_index_parts(x as int, y as int, z as int);
                    }
                    blocks.push(block);
                    x = x + 1;
                }
                z = z + 1;
            }
            y = y + 1;
        }
        let c = Chunk { cx, cz, blocks };
        assert forall|x: int, y: int, z: int| in_chunk(x, y, z) implies #[trigger] c.block_at(
            x,
            y,
            z,
        ) == layer_block(y, column_height(mode, relief@, x, z)) by {
            lemma_flat_index_parts(x, y, z);
        }
        c
    }
}

/// The integer core of the terrain noise: mixes a lattice point (x, y) with
/// the seed and keeps 31 bits. The relief code divides it by `0x7fffffff`
/// to get a value in [0, 1].
pub open spec fn lattice_hash(x: i32, y: i32, seed: u32) -> i32 {
    let a = x.wrapping_mul(374761393i32).wrapping_add(seed as i32);
    let b = y.wrapping_mul(668265263i32).wrapping_add((seed >> 16u32) as i32);
    let n = a ^ b;
    let m = (n ^ (n >> 13u32)).wrapping_mul(1274126177i32);
    (m ^ (m >> 16u32)) & 0x7fffffffi32
}

/// The integer core of the terrain noise at lattice point (x, y), in
/// [0, 0x7fffffff].
pub fn hash_bits(x: i32, y: i32, seed: u32) -> (r: i32)
    ensures
        r == lattice_hash(x, y, seed),
        0 <= r,
{
    let a = x.wrapping_mul(374761393i32).wrapping_add(seed as i32);
    let b = y.wrapping_mul(668265263i32).wrapping_add((seed >> 16u32) as i32);
    let n = a ^ b;
    let m = (n ^ (n >> 13u32)).wrapping_mul(1274126177i32);
    let r = (m ^ (m >> 16u32)) & 0x7fffffffi32;
    assert(((m ^ (m >> 16u32)) & 0x7fffffffi32) >= 0) by (bit_vector);
    r
}

} // verus!

verus! {

/// The highest solid block of a generated column sits at the column's
/// surface height, held to the chunk's height range; a column whose surface
/// lies below the chunk is all air and reads as 0.
pub proof fn lemma_generated_surface(
    c: Chunk,
    cx: i32,
    cz: i32,
    mode: WorldGen,
    relief: Seq<i32>,
    x: int,
    z: int,
)
    requires
        is_generated(c, cx, cz, mode, relief),
        0 <= x < 16,
        0 <= z < 16,
    ensures
        surface(c, x, z) == (if column_height(mode, relief, x, z) < 0 {
            0
        } else if column_height(mode, relief, x, z) > 63 {
            63
        } else {
            column_height(mode, relief, x, z)
        }),
{
    lemma_generated_surface_below(c, cx, cz, mode, relief, x, z, 64);
}

proof fn lemma_generated_surface_below(
    c: Chunk,
    cx: i32,
    cz: i32,
    mode: WorldGen,
    relief: Seq<i32>,
    x: int,
    z: int,
    n: int,
)
    requires
        is_generated(c, cx, cz, mode, relief),
        0 <= x < 16,
        0 <= z < 16,
        0 <= n <= 64,
    ensures
        surface_below(c, x, z, n) == (if n == 0 || column_height(mode, relief, x, z) < 0 {
            0
        } else if column_height(mode, relief, x, z) > n - 1 {
            n - 1
        } else {
            column_height(mode, relief, x, z)
        }),
    decreases n,
{
    if n > 0 {
        lemma_generated_surface_below(c, cx, cz, mode, relief, x, z, n - 1);
        assert(c.block_at(x, n - 1, z) == layer_block(n - 1, column_height(mode, relief, x, z)));
    }
}

} // verus!

verus! {

proof fn lemma_flat_index_cover(i: int)
    requires
        0 <= i < 16384,
    ensures
        in_chunk(i % 16, i / 256, (i / 16) % 16),
        flat_index(i % 16, i / 256, (i / 16) % 16) == i,
{
    assert(0 <= i / 256 < 64 && 0 <= i % 16 < 16 && 0 <= (i / 16) % 16 < 16) by (nonlinear_arith)
        requires
            0 <= i < 16384,
    ;
    assert((i / 256) * 256 + ((i / 16) % 16) * 16 + i % 16 == i) by (nonlinear_arith)
        requires
            0 <= i < 16384,
    ;
}

/// Generation is a function of the chunk coordinates, the terrain kind and
/// the relief map: two chunks generated from the same ones have the same
/// blocks, so a chunk generated again comes out as before.
pub proof fn lemma_generation_deterministic(
    c1: Chunk,
    c2: Chunk,
    cx: i32,
    cz: i32,
    mode: WorldGen,
    relief: Seq<i32>,
)
    requires
        is_generated(c1, cx, cz, mode, relief),
        is_generated(c2, cx, cz, mode, relief),
    ensures
        c1.blocks@ == c2.blocks@,
        c1.cx == c2.cx,
        c1.cz == c2.cz,
{
    assert forall|i: int| 0 <= i < c1.blocks@.len() implies c1.blocks@[i] == c2.blocks@[i] by {
        lemma_flat_index_cover(i);
        assert(c1.block_at(i % 16, i / 256, (i / 16) % 16) == c2.block_at(
            i % 16,
            i / 256,
            (i / 16) % 16,
        ));
    }
    assert(c1.blocks@ =~= c2.blocks@);
}

} // verus!

verus! {

/// The 32-bit two's-complement value congruent to `v` modulo 2^32.
pub open spec fn wrap32(v: int) -> i32 {
    let r = v % 0x1_0000_0000;
    if r >= 0x8000_0000 {
        (r - 0x1_0000_0000) as i32
    } else {
        r as i32
    }
}

/// The mixing that follows the two lattice terms of `lattice_hash`.
pub open spec fn lattice_mix(a: i32, b: i32) -> i32 {
    let n = a ^ b;
    let m = (n ^ (n >> 13u32)).wrapping_mul(1274126177i32);
    (m ^ (m >> 16u32)) & 0x7fffffffi32
}

/// The lattice terms are taken modulo 2^32, as 32-bit integers wrap: the x
/// term is `x * 374761393 + seed` and the y term is
/// `y * 668265263 + seed / 65536`, each reduced modulo 2^32 (never held at
/// the ends of the 32-bit range), before they are mixed.
#[verifier::rlimit(40)]
pub proof fn lemma_lattice_terms_wrap(x: i32, y: i32, seed: u32)
    ensures
        lattice_hash(x, y, seed) == lattice_mix(
            wrap32(x as int * 374761393 + seed as int),
            wrap32(y as int * 668265263 + seed as int / 65536),
        ),
{
    let sx = seed as i32;
    let sy = (seed >> 16u32) as i32;
    assert(seed > 0x7fff_ffffu32 ==> (seed as i32) as i64 + 0x1_0000_0000i64 == seed as i64)
        by (bit_vector);
    assert(seed <= 0x7fff_ffffu32 ==> (seed as i32) as i64 == seed as i64) by (bit_vector);
    assert((((seed >> 16u32) as i32) as i64) == (seed as i64) / 65536i64) by (bit_vector);
    let a = x.wrapping_mul(374761393i32).wrapping_add(sx);
    let b = y.wrapping_mul(668265263i32).wrapping_add(sy);
    lemma_wrap32_unique(a, x as int * 374761393 + seed as int);
    lemma_wrap32_unique(b, y as int * 668265263 + seed as int / 65536);
}

proof fn lemma_wrap32_unique(a: i32, v: int)
    requires
        (a as int - v) % 0x1_0000_0000 == 0,
    ensures
        wrap32(v) == a,
{
    let r = v % 0x1_0000_0000;
    assert(0 <= r < 0x1_0000_0000);
    assert((a as int - r) % 0x1_0000_0000 == 0) by (nonlinear_arith)
        requires
            (a as int - v) % 0x1_0000_0000 == 0,
            r == v % 0x1_0000_0000,
    ;
}

} // verus!
