use lodestone::block::Block;
use lodestone::chunk::{Chunk, Vec3i};
use lodestone::entity::{BlockEntity, HasBlockEntity};
use lodestone::section::{ChunkSection, Light};
use quartz_nbt::NbtCompound;

fn allocated(chunk: &Chunk) -> Vec<usize> {
    let mut out = Vec::new();
    for (i, s) in chunk.chunk_sections.iter().enumerate() {
        if s.is_some() {
            out.push(i);
        }
    }
    out
}

#[test]
fn sparse_section_allocation() {
    let mut chunk = Chunk::new(256);
    assert_eq!(chunk.chunk_sections.len(), 16);
    chunk.set_block(0, 0, 0, Block::Air);
    assert!(allocated(&chunk).is_empty());
    chunk.set_block(0, 0, 0, Block::Stone);
    assert_eq!(allocated(&chunk), vec![0]);
    assert_eq!(chunk.get_height(0, 0), 1);
    assert_eq!(chunk.get_block(0, 0, 0), Block::Stone);
}

#[test]
fn write_high_allocates_only_its_band() {
    let mut chunk = Chunk::new(256);
    chunk.set_block(3, 100, 4, Block::Dirt);
    assert_eq!(allocated(&chunk), vec![6]);
    assert_eq!(chunk.get_height(3, 4), 101);
}

#[test]
fn light_clamp() {
    let mut section = ChunkSection::new();
    section.set_light(Light::BLOCK, 0, 0, 0, 20);
    assert_eq!(section.get_light(Light::BLOCK, 0, 0, 0), 15);
    assert_eq!(section.get_light(Light::SKY, 0, 0, 0), 0);
    section.set_light(Light::SKY, 1, 2, 3, 7);
    assert_eq!(section.get_light(Light::SKY, 1, 2, 3), 7);
}

#[test]
fn chunk_light_needs_a_section() {
    let mut chunk = Chunk::new(64);
    chunk.set_light(Light::BLOCK, 0, 0, 0, 20);
    assert_eq!(chunk.get_light(Light::BLOCK, 0, 0, 0), 0);
    chunk.set_block(0, 0, 0, Block::Glass);
    chunk.set_light(Light::BLOCK, 0, 0, 0, 20);
    assert_eq!(chunk.get_light(Light::BLOCK, 0, 0, 0), 15);
}

#[test]
fn column_top_removal() {
    let mut chunk = Chunk::new(256);
    chunk.set_block(2, 0, 3, Block::Stone);
    chunk.set_block(2, 5, 3, Block::Dirt);
    assert_eq!(chunk.get_height(2, 3), 6);
    chunk.set_block(2, 5, 3, Block::Air);
    assert_eq!(chunk.get_height(2, 3), 1);
    chunk.set_block(2, 0, 3, Block::Air);
    assert_eq!(chunk.get_height(2, 3), 0);
}

#[test]
fn heightmap_clamps_at_the_top() {
    let mut chunk = Chunk::new(32);
    chunk.set_block(0, 31, 0, Block::Stone);
    assert_eq!(chunk.get_height(0, 0), 31);
    chunk.set_block(0, 30, 0, Block::Stone);
    chunk.set_block(0, 4, 0, Block::Stone);
    chunk.set_block(0, 31, 0, Block::Air);
    assert_eq!(chunk.get_height(0, 0), 31);
    chunk.set_block(0, 30, 0, Block::Air);
    assert_eq!(chunk.get_height(0, 0), 5);
}

#[test]
fn incremental_heightmap_matches_rescan() {
    let mut chunk = Chunk::new(48);
    let mut seed: u32 = 12345;
    for _ in 0..2000 {
        seed = seed.wrapping_mul(1103515245).wrapping_add(12345);
        let x = ((seed >> 8) % 16) as i8;
        let z = ((seed >> 12) % 16) as i8;
        let y = ((seed >> 16) % 48) as i16;
        let block = if (seed >> 24) % 3 == 0 { Block::Stone } else { Block::Air };
        chunk.set_block(x, y, z, block);
        assert_eq!(chunk.get_heightmap().to_vec(), chunk.generate_heightmap());
    }
}

#[test]
fn total_addressing() {
    let mut chunk = Chunk::new(64);
    chunk.set_block(0, 0, 0, Block::Stone);
    assert_eq!(chunk.get_block(-1, 0, 0), Block::Air);
    assert_eq!(chunk.get_block(0, -1, 0), Block::Air);
    assert_eq!(chunk.get_block(0, 0, -1), Block::Air);
    assert_eq!(chunk.get_block(16, 0, 0), Block::Air);
    assert_eq!(chunk.get_block(0, 64, 0), Block::Air);
    assert_eq!(chunk.get_block(0, 0, 16), Block::Air);
    assert_eq!(chunk.get_block(127, 32767, -128), Block::Air);
    chunk.set_block(16, 0, 0, Block::Stone);
    chunk.set_block(0, 64, 0, Block::Stone);
    assert_eq!(allocated(&chunk), vec![0]);
    assert!(chunk.get_state(0, 70, 0).is_none());
    assert_eq!(chunk.get_light(Light::SKY, -3, 0, 0), 0);
}

#[test]
fn palette_isolation() {
    let mut section = ChunkSection::new();
    section.set_state(0, 0, 0, "facing".to_string(), "north".to_string());
    section.set_state(1, 0, 0, "facing".to_string(), "north".to_string());
    section.set_state(0, 0, 0, "facing".to_string(), "south".to_string());
    assert_eq!(section.get_state(1, 0, 0).unwrap().get("facing").unwrap(), "north");
    assert_eq!(section.get_state(0, 0, 0).unwrap().get("facing").unwrap(), "south");
    assert!(section.get_state(2, 0, 0).unwrap().is_empty());
    assert!(section.get_state(16, 0, 0).is_none());
}

#[test]
fn chunk_state_round_trip() {
    let mut chunk = Chunk::new(64);
    chunk.set_state(1, 20, 1, "k".to_string(), "v".to_string());
    assert!(chunk.get_state(1, 20, 1).is_none());
    chunk.set_block(1, 20, 1, Block::Log);
    chunk.set_state(1, 20, 1, "axis".to_string(), "y".to_string());
    let state = chunk.get_state(1, 20, 1).unwrap();
    assert_eq!(state.get("axis").unwrap(), "y");
    assert!(chunk.get_state(1, 21, 1).unwrap().is_empty());
    assert_eq!(chunk.get_height(1, 1), 21);
}

#[test]
fn section_index_order() {
    assert_eq!(ChunkSection::get_index(0, 0, 0), 0);
    assert_eq!(ChunkSection::get_index(1, 0, 0), 1);
    assert_eq!(ChunkSection::get_index(0, 0, 1), 16);
    assert_eq!(ChunkSection::get_index(0, 1, 0), 256);
    assert_eq!(ChunkSection::get_index(15, 15, 15), 4095);
    let chunk = Chunk::new(64);
    assert_eq!(chunk.get_index(1, 2, 3), 2 + 3 * 64 + 64 * 16);
}

#[test]
fn blockmap_and_all_blocks() {
    let mut chunk = Chunk::new(40);
    chunk.set_block(1, 2, 0, Block::Sand);
    chunk.set_block(1, 1, 0, Block::Stone);
    chunk.set_block(0, 35, 15, Block::Glass);
    let map = chunk.generate_blockmap();
    assert_eq!(map[1], Block::Sand);
    assert_eq!(map[15 * 16], Block::Glass);
    assert_eq!(map[2], Block::Air);
    let all = chunk.get_all_blocks();
    assert_eq!(all.len(), 3 * 4096);
    assert_eq!(all[2 * 256 + 1], Block::Sand);
    assert_eq!(all[2 * 4096 + 3 * 256 + 15 * 16], Block::Glass);
    assert_eq!(all[4096], Block::Air);
}

#[test]
fn recalc_keeps_heightmap() {
    let mut chunk = Chunk::new(64);
    chunk.set_block(4, 9, 4, Block::Planks);
    chunk.height_map[4 * 16 + 4] = 0;
    chunk.recalc_heightmap();
    assert_eq!(chunk.get_height(4, 4), 10);
}

#[test]
fn block_entity_registry() {
    let mut chunk = Chunk::new(64);
    let mut nbt = NbtCompound::new();
    nbt.insert("id", "Sign");
    let entity = BlockEntity {
        id: "Sign".to_string(),
        x: 1,
        y: 2,
        z: 3,
        keep_packed: false,
        data: HasBlockEntity::NotFound("Sign".to_string(), nbt),
    };
    let pos = Vec3i { x: 1, y: 2, z: 3 };
    chunk.add_block_entity(pos, entity);
    assert_eq!(chunk.block_entities.len(), 1);
    assert_eq!(chunk.block_entities.get(&(1, 2, 3)).unwrap().id, "Sign");
    assert_eq!(chunk.get_block(1, 2, 3), Block::Air);
    chunk.remove_block_entity(Vec3i { x: 9, y: 9, z: 9 });
    assert_eq!(chunk.block_entities.len(), 1);
    chunk.remove_block_entity(pos);
    assert!(chunk.block_entities.is_empty());
}

#[test]
fn set_block_keeps_light_state_and_bag() {
    let mut chunk = Chunk::new(64);
    chunk.set_block(1, 1, 1, Block::Stone);
    chunk.set_light(Light::SKY, 2, 2, 2, 9);
    chunk.set_state(2, 2, 2, "a".to_string(), "b".to_string());
    chunk.custom_data.insert("LastUpdate".to_string(), lodestone::chunk::CustomValue::Int(7));
    chunk.set_block(2, 2, 2, Block::Dirt);
    chunk.set_block(2, 40, 2, Block::Dirt);
    assert_eq!(chunk.get_light(Light::SKY, 2, 2, 2), 9);
    assert_eq!(chunk.get_state(2, 2, 2).unwrap().get("a").unwrap(), "b");
    assert!(chunk.get_state(2, 40, 2).unwrap().is_empty());
    assert_eq!(chunk.custom_data.len(), 1);
    assert!(chunk.check_wf());
}
