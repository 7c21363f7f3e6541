use rustcraft::world::block::Block;
use rustcraft::world::chunk::{Chunk, CHUNK_D, CHUNK_H, CHUNK_LEN, CHUNK_W};
use rustcraft::world::generator::{hash_bits, Generator, WorldGen};
use rustcraft::world::save::{world_dir, WorldMeta};

fn flat_relief(h: i32) -> Vec<i32> {
    vec![h; CHUNK_W * CHUNK_D]
}

#[test]
fn solid_is_everything_but_air() {
    assert!(!Block::Air.solid());
    assert!(Block::Dirt.solid());
    assert!(Block::Grass.solid());
    assert!(Block::Stone.solid());
}

#[test]
fn new_chunk_is_all_air() {
    let c = Chunk::new(3, -4);
    assert_eq!(c.cx, 3);
    assert_eq!(c.cz, -4);
    assert_eq!(c.blocks.len(), CHUNK_LEN);
    assert_eq!(CHUNK_LEN, CHUNK_W * CHUNK_D * CHUNK_H);
    assert!(c.blocks.iter().all(|b| *b == Block::Air));
}

#[test]
fn get_after_set_reads_what_was_written() {
    let mut c = Chunk::new(0, 0);
    c.set(3, 10, 7, Block::Stone);
    assert_eq!(c.get(3, 10, 7), Block::Stone);
    assert_eq!(c.get(4, 10, 7), Block::Air);
    assert_eq!(c.get(3, 11, 7), Block::Air);
    c.set(3, 10, 7, Block::Dirt);
    assert_eq!(c.get(3, 10, 7), Block::Dirt);
}

#[test]
fn set_writes_the_flat_index() {
    let mut c = Chunk::new(0, 0);
    c.set(15, 63, 15, Block::Grass);
    assert_eq!(c.blocks[CHUNK_LEN - 1], Block::Grass);
    c.set(1, 2, 3, Block::Stone);
    assert_eq!(c.blocks[2 * 256 + 3 * 16 + 1], Block::Stone);
    c.set(0, 0, 0, Block::Dirt);
    assert_eq!(c.blocks[0], Block::Dirt);
}

#[test]
fn flat_chunk_has_grass_at_twenty() {
    let g = Generator::new(7);
    assert_eq!(g.seed, 7);
    let c = g.generate_chunk(2, -1, WorldGen::Flat, &Vec::new());
    assert_eq!((c.cx, c.cz), (2, -1));
    for x in 0..CHUNK_W {
        for z in 0..CHUNK_D {
            for y in 0..CHUNK_H {
                let expected = if y > 20 {
                    Block::Air
                } else if y == 20 {
                    Block::Grass
                } else if y > 16 {
                    Block::Dirt
                } else {
                    Block::Stone
                };
                assert_eq!(c.get(x, y, z), expected);
            }
        }
    }
}

#[test]
fn realistic_chunk_follows_the_relief() {
    let g = Generator::new(1);
    let mut relief = flat_relief(30);
    relief[5 * 16 + 2] = 0;
    relief[1 * 16 + 9] = -3;
    relief[15 * 16 + 15] = 70;
    let c = g.generate_chunk(0, 0, WorldGen::Realistic, &relief);
    assert_eq!(c.get(0, 30, 0), Block::Grass);
    assert_eq!(c.get(0, 31, 0), Block::Air);
    assert_eq!(c.get(0, 27, 0), Block::Dirt);
    assert_eq!(c.get(0, 26, 0), Block::Stone);
    // surface at the bottom of the chunk
    assert_eq!(c.get(2, 0, 5), Block::Grass);
    assert_eq!(c.get(2, 1, 5), Block::Air);
    // surface below the chunk: all air
    for y in 0..CHUNK_H {
        assert_eq!(c.get(9, y, 1), Block::Air);
    }
    // surface above the chunk: all stone (dirt starts at 67)
    for y in 0..CHUNK_H {
        assert_eq!(c.get(15, y, 15), Block::Stone);
    }
}

#[test]
fn terrain_labels() {
    assert_eq!(WorldGen::Flat.label(), "PLANO");
    assert_eq!(WorldGen::Realistic.label(), "REALISTA");
}

#[test]
fn lattice_hash_values() {
    assert_eq!(hash_bits(0, 0, 0), 0);
    assert_eq!(hash_bits(1, 0, 0), 2112582102);
    assert_eq!(hash_bits(0, 1, 0), 995271717);
    assert_eq!(hash_bits(3, -7, 12345), 1190250754);
    assert_eq!(hash_bits(-5, 9, 4000000000), 1752898701);
}

#[test]
fn world_directory() {
    assert_eq!(world_dir("novo_mundo"), "worlds/novo_mundo");
    assert_eq!(world_dir(""), "worlds/");
    assert_eq!(world_dir("/tmp/mundo"), "/tmp/mundo");
    assert_eq!(world_dir("a/b"), "worlds/a/b");
}

#[test]
fn world_meta_holds_its_fields() {
    let m = WorldMeta {
        name: "a".to_string(),
        seed: 5,
        mode: "SURVIVAL".to_string(),
        generator: WorldGen::Flat,
    };
    let c = m.clone();
    assert_eq!(c.name, "a");
    assert_eq!(c.seed, 5);
    assert_eq!(c.generator, WorldGen::Flat);
}

#[test]
fn generation_is_repeatable() {
    let relief: Vec<i32> = (0..256).map(|i| (i % 70) - 3).collect();
    let a = Generator::new(4).generate_chunk(-3, 8, WorldGen::Realistic, &relief);
    let b = Generator::new(4).generate_chunk(-3, 8, WorldGen::Realistic, &relief);
    assert_eq!(a.blocks, b.blocks);
    assert_eq!((a.cx, a.cz), (b.cx, b.cz));
}
