use vstd::prelude::*;
use std::collections::BTreeMap;
use crate::block::{Block, BlockId, McVersion, convert_blocks_from_internal_format, spec_version_block_id};
use crate::palette::{BlockPalette, StatePalette, block_slots, state_slots, insert_state};

verus! {

/// Width of a section and of a chunk along x.
pub const CHUNK_WIDTH: i8 = 16;

/// Length of a section and of a chunk along z.
pub const CHUNK_LENGTH: i8 = 16;

/// Height of one section along y.
pub const CHUNK_SECTION_HEIGHT: i8 = 16;

/// Number of voxels in one section.
pub const SECTION_VOLUME: usize = 4096;

/// Brightest light level; brighter input is clamped to it.
pub const MAX_LIGHT: u8 = 15;

/// The two light channels of a voxel.
#[derive(PartialEq, Eq, Structural, Clone, Copy, Debug)]
pub enum Light {
    BLOCK,
    SKY,
}

/// Whether section-local coordinates address a voxel.
pub open spec fn in_section(x: int, y: int, z: int) -> bool {
    0 <= x < 16 && 0 <= y < 16 && 0 <= z < 16
}

/// Linear slot of a voxel in YZX order.
pub open spec fn section_index(x: int, y: int, z: int) -> int {
    y * 256 + z * 16 + x
}

/// The stored light level clamped to the brightest level.
pub open spec fn clamp_light(level: u8) -> u8 {
    if level > 15 { 15 } else { level }
}

/// A 16×16×16 cell: palette-compressed blocks and state maps, and two light
/// channels, all indexed in YZX order.
pub struct ChunkSection {
    pub blocks: BlockPalette,
    pub data: StatePalette,
    pub block_light: Vec<u8>,
    pub sky_light: Vec<u8>,
}

proof fn lemma_index_bounds(x: int, y: int, z: int)
    requires
        in_section(x, y, z),
    ensures
        0 <= section_index(x, y, z) < 4096,
{
    assert(0 <= y * 256 <= 15 * 256) by (nonlinear_arith)
        requires
            0 <= y < 16,
    ;
}

/// Distinct voxels of a section have distinct slots.
pub proof fn lemma_index_injective(x1: int, y1: int, z1: int, x2: int, y2: int, z2: int)
    requires
        in_section(x1, y1, z1),
        in_section(x2, y2, z2),
        section_index(x1, y1, z1) == section_index(x2, y2, z2),
    ensures
        x1 == x2 && y1 == y2 && z1 == z2,
{
}

impl ChunkSection {
    /// Well-formedness: every channel has one entry per voxel, and light
    /// levels never exceed the brightest level.
    pub open spec fn wf(&self) -> bool {
        &&& block_slots(self.blocks).len() == 4096
        &&& state_slots(self.data).len() == 4096
        &&& self.block_light@.len() == 4096
        &&& self.sky_light@.len() == 4096
        &&& forall|i: int| 0 <= i < 4096 ==> self.block_light@[i] <= 15
        &&& forall|i: int| 0 <= i < 4096 ==> self.sky_light@[i] <= 15
    }

    /// The block at section-local coordinates; air outside the section.
    pub open spec fn spec_block(&self, x: int, y: int, z: int) -> Block {
        if in_section(x, y, z) {
            block_slots(self.blocks)[section_index(x, y, z)]
        } else {
            Block::Air
        }
    }

    /// The state map at section-local coordinates; none outside the section.
    pub open spec fn spec_state(&self, x: int, y: int, z: int) -> Option<Map<String, String>> {
        if in_section(x, y, z) {
            Option::Some(state_slots(self.data)[section_index(x, y, z)])
        } else {
            Option::None
        }
    }

    /// The light level of a channel at section-local coordinates; zero
    /// outside the section.
    pub open spec fn spec_light(&self, light_type: Light, x: int, y: int, z: int) -> u8 {
        if !in_section(x, y, z) {
            0
        } else if light_type == Light::SKY {
            self.sky_light@[section_index(x, y, z)]
        } else {
            self.block_light@[section_index(x, y, z)]
        }
    }

    /// A section of air with empty state maps and no light.
    pub fn new() -> (r: ChunkSection)
        ensures
            r.wf(),
            forall|x: int, y: int, z: int| #[trigger] r.spec_block(x, y, z) == Block::Air,
            forall|x: int, y: int, z: int|
                in_section(x, y, z) ==> #[trigger] r.spec_state(x, y, z) == Option::Some(
                    Map::<String, String>::empty(),
                ),
            forall|t: Light, x: int, y: int, z: int| #[trigger] r.spec_light(t, x, y, z) == 0,
    {
        let blocks = BlockPalette::filled(Block::Air, SECTION_VOLUME);
        let data = StatePalette::filled(BTreeMap::new(), SECTION_VOLUME);
        let r = ChunkSection {
            blocks,
            data,
            block_light: vec![0u8; SECTION_VOLUME],
            sky_light: vec![0u8; SECTION_VOLUME],
        };
        assert forall|x: int, y: int, z: int| #[trigger] r.spec_block(x, y, z) == Block::Air by {
            if in_section(x, y, z) {
                lemma_index_bounds(x, y, z);
            }
        }
        assert forall|x: int, y: int, z: int|
            in_section(x, y, z) implies #[trigger] r.spec_state(x, y, z) == Option::Some(
                Map::<String, String>::empty(),
            ) by {
            lemma_index_bounds(x, y, z);
        }
        assert forall|t: Light, x: int, y: int, z: int| #[trigger] r.spec_light(t, x, y, z) == 0 by {
            if in_section(x, y, z) {
                lemma_index_bounds(x, y, z);
            }
        }
        r
    }

    /// Whether section-local coordinates address a voxel.
    pub fn in_bounds(x: i8, y: i16, z: i8) -> (r: bool)
        ensures
            r == in_section(x as int, y as int, z as int),
    {
        0 <= x && x < CHUNK_WIDTH && 0 <= y && y < CHUNK_SECTION_HEIGHT as i16 && 0 <= z && z
            < CHUNK_LENGTH
    }

    /// Linear slot of a voxel in YZX order.
    pub fn get_index(x: i8, y: i16, z: i8) -> (r: usize)
        requires
            in_section(x as int, y as int, z as int),
        ensures
            r as int == section_index(x as int, y as int, z as int),
            r < SECTION_VOLUME,
    {
        proof {
            lemma_index_bounds(x as int, y as int, z as int);
        }
        y as usize * 256 + z as usize * 16 + x as usize
    }

    /// The block at section-local coordinates; air outside the section.
    pub fn get_block(&self, x: i8, y: i16, z: i8) -> (r: Block)
        requires
            self.wf(),
        ensures
            r == self.spec_block(x as int, y as int, z as int),
    {
        if !Self::in_bounds(x, y, z) {
            return Block::Air;
        }
        self.blocks.get(Self::get_index(x, y, z))
    }

    /// Writes a block; a write outside the section does nothing.
    pub fn set_block(&mut self, x: i8, y: i16, z: i8, block: Block)
        requires
            old(self).wf(),
        ensures
            final(self).wf(),
            forall|a: int, b: int, c: int| #[trigger] final(self).spec_block(a, b, c) == if in_section(
                x as int,
                y as int,
                z as int,
            ) && a == x && b == y && c == z {
                block
            } else {
                old(self).spec_block(a, b, c)
            },
            state_slots(final(self).data) == state_slots(old(self).data),
            final(self).block_light@ == old(self).block_light@,
            final(self).sky_light@ == old(self).sky_light@,
    {
        if !Self::in_bounds(x, y, z) {
            return;
        }
        let i = Self::get_index(x, y, z);
        self.blocks.set(i, &block);
        proof {
            assert forall|a: int, b: int, c: int| #[trigger] self.spec_block(a, b, c) == if in_section(
                x as int,
                y as int,
                z as int,
            ) && a == x && b == y && c == z {
                block
            } else {
                old(self).spec_block(a, b, c)
            } by {
                if in_section(a, b, c) {
                    lemma_index_bounds(a, b, c);
                    if section_index(a, b, c) == i {
                        lemma_index_injective(a, b, c, x as int, y as int, z as int);
                    }
                }
            }
        }
    }

    /// A copy of the state map at section-local coordinates; `None` outside
    /// the section.
    pub fn get_state(&self, x: i8, y: i16, z: i8) -> (r: Option<BTreeMap<String, String>>)
        requires
            self.wf(),
        ensures
            match r {
                Option::Some(m) => self.spec_state(x as int, y as int, z as int) == Option::Some(
                    m@,
                ),
                Option::None => self.spec_state(x as int, y as int, z as int) is None,
            },
    {
        if !Self::in_bounds(x, y, z) {
            return None;
        }
        Some(self.data.get(Self::get_index(x, y, z)))
    }

    /// Sets one key of one voxel's state map. The voxel gets a fresh copy of
    /// its map, so voxels that shared its palette entry keep their state; a
    /// write outside the section does nothing.
    pub fn set_state(&mut self, x: i8, y: i16, z: i8, key: String, value: String)
        requires
            old(self).wf(),
        ensures
            final(self).wf(),
            forall|a: int, b: int, c: int| #[trigger] final(self).spec_state(a, b, c) == if in_section(
                x as int,
                y as int,
                z as int,
            ) && a == x && b == y && c == z {
                Option::Some(old(self).spec_state(a, b, c).unwrap().insert(key, value))
            } else {
                old(self).spec_state(a, b, c)
            },
            block_slots(final(self).blocks) == block_slots(old(self).blocks),
            final(self).block_light@ == old(self).block_light@,
            final(self).sky_light@ == old(self).sky_light@,
    {
        if !Self::in_bounds(x, y, z) {
            return;
        }
        let i = Self::get_index(x, y, z);
        let mut s = self.data.get(i);
        insert_state(&mut s, key, value);
        self.data.set(i, &s);
        proof {
            assert forall|a: int, b: int, c: int| #[trigger] self.spec_state(a, b, c) == if in_section(
                x as int,
                y as int,
                z as int,
            ) && a == x && b == y && c == z {
                Option::Some(old(self).spec_state(a, b, c).unwrap().insert(key, value))
            } else {
                old(self).spec_state(a, b, c)
            } by {
                if in_section(a, b, c) {
                    lemma_index_bounds(a, b, c);
                    if section_index(a, b, c) == i {
                        lemma_index_injective(a, b, c, x as int, y as int, z as int);
                    }
                }
            }
        }
    }

    /// The light level of a channel; zero outside the section.
    pub fn get_light(&self, light_type: Light, x: i8, y: i16, z: i8) -> (r: u8)
        requires
            self.wf(),
        ensures
            r == self.spec_light(light_type, x as int, y as int, z as int),
            r <= MAX_LIGHT,
    {
        if !Self::in_bounds(x, y, z) {
            return 0;
        }
        let i = Self::get_index(x, y, z);
        if light_type == Light::SKY {
            self.sky_light[i]
        } else {
            self.block_light[i]
        }
    }

    /// Sets the light level of a channel, clamping it to the brightest
    /// level; a write outside the section does nothing.
    pub fn set_light(&mut self, light_type: Light, x: i8, y: i16, z: i8, level: u8)
        requires
            old(self).wf(),
        ensures
            final(self).wf(),
            forall|t: Light, a: int, b: int, c: int| #[trigger] final(self).spec_light(t, a, b, c)
                == if in_section(x as int, y as int, z as int) && t == light_type && a == x && b
                == y && c == z {
                clamp_light(level)
            } else {
                old(self).spec_light(t, a, b, c)
            },
            block_slots(final(self).blocks) == block_slots(old(self).blocks),
            state_slots(final(self).data) == state_slots(old(self).data),
    {
        if !Self::in_bounds(x, y, z) {
            return;
        }
        let level = if level > MAX_LIGHT {
            MAX_LIGHT
        } else {
            level
        };
        let i = Self::get_index(x, y, z);
        if light_type == Light::SKY {
            self.sky_light.set(i, level);
        } else {
            self.block_light.set(i, level);
        }
        proof {
            assert forall|t: Light, a: int, b: int, c: int| #[trigger] self.spec_light(t, a, b, c)
                == if in_section(x as int, y as int, z as int) && t == light_type && a == x && b
                == y && c == z {
                clamp_light(level)
            } else {
                old(self).spec_light(t, a, b, c)
            } by {
                if in_section(a, b, c) {
                    lemma_index_bounds(a, b, c);
                    if section_index(a, b, c) == i {
                        lemma_index_injective(a, b, c, x as int, y as int, z as int);
                    }
                }
            }
        }
    }

    /// Every block of the section in slot order.
    pub fn get_all_blocks(&self) -> (r: Vec<Block>)
        requires
            self.wf(),
        ensures
            r@ == block_slots(self.blocks),
    {
        let mut out: Vec<Block> = Vec::with_capacity(SECTION_VOLUME);
        let mut i: usize = 0;
        while i < SECTION_VOLUME
            invariant
                self.wf(),
                i <= 4096,
                out@ == block_slots(self.blocks).subrange(0, i as int),
            decreases 4096 - i,
        {
            out.push(self.blocks.get(i));
            i = i + 1;
            assert(out@ =~= block_slots(self.blocks).subrange(0, i as int));
        }
        assert(out@ =~= block_slots(self.blocks));
        out
    }

    /// Every block of the section in slot order, as a version's ids; blocks
    /// the version cannot express become its air id.
    pub fn get_all_blocks_converted(&self, version: McVersion) -> (r: Vec<BlockId>)
        requires
            self.wf(),
        ensures
            r@.len() == 4096,
            forall|i: int|
                0 <= i < 4096 ==> r@[i] == spec_version_block_id(version, block_slots(self.blocks)[i]),
    {
        let blocks = self.get_all_blocks();
        convert_blocks_from_internal_format(version, blocks)
    }
}

impl ChunkSection {
    /// Whether the section is well formed; for sections built outside this
    /// library's operations.
    pub fn check_wf(&self) -> (r: bool)
        ensures
            r == self.wf(),
    {
        if self.blocks.len() != SECTION_VOLUME || self.data.len() != SECTION_VOLUME
            || self.block_light.len() != SECTION_VOLUME || self.sky_light.len() != SECTION_VOLUME {
            return false;
        }
        let mut i: usize = 0;
        while i < SECTION_VOLUME
            invariant
                i <= 4096,
                self.block_light@.len() == 4096,
                self.sky_light@.len() == 4096,
                forall|j: int| 0 <= j < i ==> self.block_light@[j] <= 15,
                forall|j: int| 0 <= j < i ==> self.sky_light@[j] <= 15,
            decreases 4096 - i,
        {
            if self.block_light[i] > MAX_LIGHT || self.sky_light[i] > MAX_LIGHT {
                return false;
            }
            i = i + 1;
        }
        true
    }
}

} // verus!
