use vstd::prelude::*;

verus! {

/// The canonical in-memory block identity; every chunk stores this form only.
#[derive(PartialEq, Eq, Structural, Clone, Copy, Debug, Hash)]
pub enum Block {
    Air,
    Stone,
    Grass,
    Dirt,
    Cobblestone,
    Planks,
    Sapling,
    Bedrock,
    Water,
    Lava,
    Sand,
    Gravel,
    GoldOre,
    IronOre,
    CoalOre,
    Log,
    Leaves,
    Sponge,
    Glass,
    Chest,
}

/// A block identity in one of the historical numbering schemes.
#[derive(PartialEq, Eq, Structural, Clone, Copy, Debug, Hash)]
pub enum BlockId {
    /// A single numeric id, as used before auxiliary data existed.
    Numeric(u16),
    /// A numeric id with a small auxiliary data value.
    NumericAndFlattened(u16, u8),
    /// The canonical form, passed through unchanged.
    Internal(Block),
}

/// The on-disk format versions that have a block numbering scheme.
#[derive(PartialEq, Eq, Structural, Clone, Copy, Debug, Hash)]
pub enum McVersion {
    Classic0_0_12a,
    Classic0_0_14a,
    Classic0_30,
    Infdev20100630,
    Alpha1_2_6,
    Release1_1,
}

/// Whether the version's numbering carries an auxiliary data value.
pub open spec fn spec_uses_data_values(v: McVersion) -> bool {
    v == McVersion::Release1_1
}

/// Whether the version knows the chest block.
pub open spec fn spec_has_chests(v: McVersion) -> bool {
    match v {
        McVersion::Classic0_0_12a | McVersion::Classic0_0_14a | McVersion::Classic0_30 => false,
        _ => true,
    }
}

/// The legacy numeric id of a block (shared by every version that has it).
pub open spec fn spec_legacy_number(b: Block) -> u16 {
    match b {
        Block::Air => 0,
        Block::Stone => 1,
        Block::Grass => 2,
        Block::Dirt => 3,
        Block::Cobblestone => 4,
        Block::Planks => 5,
        Block::Sapling => 6,
        Block::Bedrock => 7,
        Block::Water => 9,
        Block::Lava => 11,
        Block::Sand => 12,
        Block::Gravel => 13,
        Block::GoldOre => 14,
        Block::IronOre => 15,
        Block::CoalOre => 16,
        Block::Log => 17,
        Block::Leaves => 18,
        Block::Sponge => 19,
        Block::Glass => 20,
        Block::Chest => 54,
    }
}

/// The block that a legacy numeric id stands for; flowing and still liquids
/// share one canonical block.
pub open spec fn spec_block_of_number(n: u16) -> Option<Block> {
    if n == 0 {
        Option::Some(Block::Air)
    } else if n == 1 {
        Option::Some(Block::Stone)
    } else if n == 2 {
        Option::Some(Block::Grass)
    } else if n == 3 {
        Option::Some(Block::Dirt)
    } else if n == 4 {
        Option::Some(Block::Cobblestone)
    } else if n == 5 {
        Option::Some(Block::Planks)
    } else if n == 6 {
        Option::Some(Block::Sapling)
    } else if n == 7 {
        Option::Some(Block::Bedrock)
    } else if n == 8 || n == 9 {
        Option::Some(Block::Water)
    } else if n == 10 || n == 11 {
        Option::Some(Block::Lava)
    } else if n == 12 {
        Option::Some(Block::Sand)
    } else if n == 13 {
        Option::Some(Block::Gravel)
    } else if n == 14 {
        Option::Some(Block::GoldOre)
    } else if n == 15 {
        Option::Some(Block::IronOre)
    } else if n == 16 {
        Option::Some(Block::CoalOre)
    } else if n == 17 {
        Option::Some(Block::Log)
    } else if n == 18 {
        Option::Some(Block::Leaves)
    } else if n == 19 {
        Option::Some(Block::Sponge)
    } else if n == 20 {
        Option::Some(Block::Glass)
    } else if n == 54 {
        Option::Some(Block::Chest)
    } else {
        Option::None
    }
}

/// Whether a version's numbering has the block at all.
pub open spec fn spec_version_has(v: McVersion, b: Block) -> bool {
    b != Block::Chest || spec_has_chests(v)
}

/// The canonical block that an external id stands for in a version.
pub open spec fn spec_to_internal(v: McVersion, id: BlockId) -> Option<Block> {
    match id {
        BlockId::Internal(b) => Option::Some(b),
        BlockId::Numeric(n) => if spec_uses_data_values(v) {
            Option::None
        } else {
            match spec_block_of_number(n) {
                Option::Some(b) => if spec_version_has(v, b) {
                    Option::Some(b)
                } else {
                    Option::None
                },
                Option::None => Option::None,
            }
        },
        BlockId::NumericAndFlattened(n, _) => if spec_uses_data_values(v) {
            spec_block_of_number(n)
        } else {
            Option::None
        },
    }
}

/// The external id of a canonical block in a version, if it has one.
pub open spec fn spec_to_external(v: McVersion, b: Block) -> Option<BlockId> {
    if !spec_version_has(v, b) {
        Option::None
    } else if spec_uses_data_values(v) {
        Option::Some(BlockId::NumericAndFlattened(spec_legacy_number(b), 0))
    } else {
        Option::Some(BlockId::Numeric(spec_legacy_number(b)))
    }
}

/// The id written for a block that a version cannot express: air.
pub open spec fn spec_fallback(v: McVersion) -> BlockId {
    if spec_uses_data_values(v) {
        BlockId::NumericAndFlattened(0, 0)
    } else {
        BlockId::Numeric(0)
    }
}

/// The id written for a block in a version: its mapping, or the fallback.
pub open spec fn spec_version_block_id(v: McVersion, b: Block) -> BlockId {
    match spec_to_external(v, b) {
        Option::Some(e) => e,
        Option::None => spec_fallback(v),
    }
}

/// Whether the version's numbering carries an auxiliary data value.
pub fn uses_data_values(v: McVersion) -> (r: bool)
    ensures
        r == spec_uses_data_values(v),
{
    match v {
        McVersion::Release1_1 => true,
        _ => false,
    }
}

/// Whether a version's numbering has the block at all.
pub fn version_has(v: McVersion, b: Block) -> (r: bool)
    ensures
        r == spec_version_has(v, b),
{
    match b {
        Block::Chest => match v {
            McVersion::Classic0_0_12a | McVersion::Classic0_0_14a | McVersion::Classic0_30 => false,
            _ => true,
        },
        _ => true,
    }
}

/// The legacy numeric id of a block.
pub fn legacy_number(b: Block) -> (r: u16)
    ensures
        r == spec_legacy_number(b),
{
    match b {
        Block::Air => 0,
        Block::Stone => 1,
        Block::Grass => 2,
        Block::Dirt => 3,
        Block::Cobblestone => 4,
        Block::Planks => 5,
        Block::Sapling => 6,
        Block::Bedrock => 7,
        Block::Water => 9,
        Block::Lava => 11,
        Block::Sand => 12,
        Block::Gravel => 13,
        Block::GoldOre => 14,
        Block::IronOre => 15,
        Block::CoalOre => 16,
        Block::Log => 17,
        Block::Leaves => 18,
        Block::Sponge => 19,
        Block::Glass => 20,
        Block::Chest => 54,
    }
}

/// The block that a legacy numeric id stands for.
pub fn block_of_number(n: u16) -> (r: Option<Block>)
    ensures
        r == spec_block_of_number(n),
{
    match n {
        0 => Some(Block::Air),
        1 => Some(Block::Stone),
        2 => Some(Block::Grass),
        3 => Some(Block::Dirt),
        4 => Some(Block::Cobblestone),
        5 => Some(Block::Planks),
        6 => Some(Block::Sapling),
        7 => Some(Block::Bedrock),
        8 | 9 => Some(Block::Water),
        10 | 11 => Some(Block::Lava),
        12 => Some(Block::Sand),
        13 => Some(Block::Gravel),
        14 => Some(Block::GoldOre),
        15 => Some(Block::IronOre),
        16 => Some(Block::CoalOre),
        17 => Some(Block::Log),
        18 => Some(Block::Leaves),
        19 => Some(Block::Sponge),
        20 => Some(Block::Glass),
        54 => Some(Block::Chest),
        _ => None,
    }
}

/// The canonical block that an external id stands for in a version; `None`
/// when the version has no mapping for it.
pub fn get_internal_block_id(version: McVersion, id: &BlockId) -> (r: Option<Block>)
    ensures
        r == spec_to_internal(version, *id),
{
    match id {
        BlockId::Internal(b) => Some(*b),
        BlockId::Numeric(n) => {
            if uses_data_values(version) {
                None
            } else {
                match block_of_number(*n) {
                    Some(b) => if version_has(version, b) {
                        Some(b)
                    } else {
                        None
                    },
                    None => None,
                }
            }
        },
        BlockId::NumericAndFlattened(n, _) => {
            if uses_data_values(version) {
                block_of_number(*n)
            } else {
                None
            }
        },
    }
}

/// The external id of a canonical block in a version; `None` when the
/// version cannot express it.
pub fn to_external(version: McVersion, block: &Block) -> (r: Option<BlockId>)
    ensures
        r == spec_to_external(version, *block),
{
    if !version_has(version, *block) {
        None
    } else if uses_data_values(version) {
        Some(BlockId::NumericAndFlattened(legacy_number(*block), 0))
    } else {
        Some(BlockId::Numeric(legacy_number(*block)))
    }
}

/// The id to write for a block in a version: its mapping, or air when the
/// version cannot express it.
pub fn get_version_block_id(version: McVersion, block: &Block) -> (r: BlockId)
    ensures
        r == spec_version_block_id(version, *block),
{
    match to_external(version, block) {
        Some(e) => e,
        None => if uses_data_values(version) {
            BlockId::NumericAndFlattened(0, 0)
        } else {
            BlockId::Numeric(0)
        },
    }
}

/// Converts a sequence of canonical blocks to a version's ids, one for one.
pub fn convert_blocks_from_internal_format(version: McVersion, blocks: Vec<Block>) -> (r: Vec<BlockId>)
    ensures
        r@.len() == blocks@.len(),
        forall|i: int| 0 <= i < blocks@.len() ==> r@[i] == spec_version_block_id(version, blocks@[i]),
{
    let mut out: Vec<BlockId> = Vec::with_capacity(blocks.len());
    let mut i: usize = 0;
    while i < blocks.len()
        invariant
            i <= blocks@.len(),
            out@.len() == i,
            forall|j: int| 0 <= j < i ==> out@[j] == spec_version_block_id(version, blocks@[j]),
        decreases blocks@.len() - i,
    {
        out.push(get_version_block_id(version, &blocks[i]));
        i = i + 1;
    }
    out
}

/// An id without a mapping always converts to the version's one fallback
/// value: conversion holds no hidden state.
pub proof fn lemma_fallback_determinism(version: McVersion, block: Block)
    requires
        spec_to_external(version, block) is None,
    ensures
        spec_version_block_id(version, block) == spec_fallback(version),
        spec_fallback(version) == spec_version_block_id(version, Block::Air),
{
}

} // verus!
