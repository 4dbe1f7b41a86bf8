use vstd::prelude::*;
use std::collections::{BTreeMap, HashMap};
use crate::block::{Block, BlockId, McVersion, convert_blocks_from_internal_format, spec_version_block_id};
use crate::palette::block_slots;
use crate::entity::BlockEntity;
use crate::section::{ChunkSection, Light, in_section, clamp_light, CHUNK_WIDTH, CHUNK_LENGTH, SECTION_VOLUME};

verus! {

/// The heightmap value of a column whose unclamped top is `t`: the top
/// itself, or `height - 1` when the topmost voxel is filled.
pub open spec fn clamp_top(t: int, height: int) -> int {
    if t > 0 && t >= height {
        height - 1
    } else {
        t
    }
}

/// A vertical column of lazily created sections, with a heightmap kept up
/// to date on every block write.
pub struct Chunk {
    pub height: i16,
    /// One slot per 16-voxel band of height; `None` until something other
    /// than air is written into the band.
    pub chunk_sections: Vec<Option<ChunkSection>>,
    /// Indexed by `z * 16 + x`.
    pub height_map: Vec<i16>,
    /// Block entities by exact position, in position order.
    pub block_entities: BTreeMap<(i32, i32, i32), BlockEntity>,
    /// Format-specific extras that have no field of their own.
    pub custom_data: HashMap<String, CustomValue>,
}

/// A typed value in a chunk's bag of format-specific extras.
#[derive(PartialEq, Eq, Clone, Debug)]
pub enum CustomValue {
    Flag(bool),
    Int(i64),
    Text(String),
    Bytes(Vec<u8>),
}

/// An integer block position.
#[derive(PartialEq, Eq, Structural, Clone, Copy, Debug, Hash, Default)]
pub struct Vec3i {
    pub x: i32,
    pub y: i32,
    pub z: i32,
}

impl Vec3i {
    /// The registry key of the position.
    pub open spec fn spec_key(self) -> (i32, i32, i32) {
        (self.x, self.y, self.z)
    }
}

impl Chunk {
    /// Whether chunk coordinates address a voxel.
    pub open spec fn in_chunk(&self, x: int, y: int, z: int) -> bool {
        0 <= x < 16 && 0 <= y < self.height && 0 <= z < 16
    }

    /// The block at chunk coordinates; air outside the chunk and in bands
    /// with no section.
    pub open spec fn spec_block(&self, x: int, y: int, z: int) -> Block {
        if !self.in_chunk(x, y, z) {
            Block::Air
        } else {
            match self.chunk_sections@[y / 16] {
                Option::Some(s) => s.spec_block(x, y % 16, z),
                Option::None => Block::Air,
            }
        }
    }

    /// One more than the highest non-air y below `y` in column (x, z), or 0.
    pub open spec fn col_top(&self, x: int, z: int, y: int) -> int
        decreases y,
    {
        if y <= 0 {
            0
        } else if self.spec_block(x, y - 1, z) != Block::Air {
            y
        } else {
            self.col_top(x, z, y - 1)
        }
    }

    /// The heightmap value that a full scan of column (x, z) gives.
    pub open spec fn spec_height(&self, x: int, z: int) -> int {
        clamp_top(self.col_top(x, z, self.height as int), self.height as int)
    }

    /// The storage is shaped for the chunk's height.
    pub open spec fn sections_wf(&self) -> bool {
        &&& self.height >= 0
        &&& self.chunk_sections@.len() == (self.height + 15) / 16
        &&& forall|s: int|
            0 <= s < self.chunk_sections@.len() && (#[trigger] self.chunk_sections@[s]) is Some
                ==> self.chunk_sections@[s].unwrap().wf()
        &&& self.height_map@.len() == 256
    }

    /// The heightmap agrees with a full scan of every column.
    pub open spec fn heights_ok(&self) -> bool {
        forall|x: int, z: int|
            0 <= x < 16 && 0 <= z < 16 ==> self.height_map@[z * 16 + x] == #[trigger] self.spec_height(
                x,
                z,
            )
    }

    pub open spec fn wf(&self) -> bool {
        self.sections_wf() && self.heights_ok()
    }

    /// The blocks of band `s`, air where it has no section.
    pub open spec fn section_blocks(&self, s: int) -> Seq<Block> {
        match self.chunk_sections@[s] {
            Option::Some(sec) => block_slots(sec.blocks),
            Option::None => Seq::new(4096, |_i: int| Block::Air),
        }
    }

    /// The blocks of the first `n` bands, band after band.
    pub open spec fn blocks_upto(&self, n: int) -> Seq<Block>
        decreases n,
    {
        if n <= 0 {
            Seq::empty()
        } else {
            self.blocks_upto(n - 1) + self.section_blocks(n - 1)
        }
    }

    /// The top non-air block of column (x, z), or air.
    pub open spec fn spec_top_block(&self, x: int, z: int) -> Block {
        let t = self.col_top(x, z, self.height as int);
        if t > 0 {
            self.spec_block(x, t - 1, z)
        } else {
            Block::Air
        }
    }
}

/// A column's scan stays between zero and the scanned height.
pub proof fn lemma_col_top_range(c: &Chunk, x: int, z: int, y: int)
    ensures
        0 <= c.col_top(x, z, y),
        y >= 0 ==> c.col_top(x, z, y) <= y,
        c.col_top(x, z, y) > 0 ==> c.spec_block(x, c.col_top(x, z, y) - 1, z) != Block::Air,
    decreases y,
{
    if y > 0 {
        lemma_col_top_range(c, x, z, y - 1);
    }
}

/// Columns with the same blocks scan alike.
pub proof fn lemma_col_top_frame(a: &Chunk, b: &Chunk, x: int, z: int, y: int)
    requires
        forall|yy: int| 0 <= yy < y ==> a.spec_block(x, yy, z) == b.spec_block(x, yy, z),
    ensures
        a.col_top(x, z, y) == b.col_top(x, z, y),
    decreases y,
{
    if y > 0 {
        lemma_col_top_frame(a, b, x, z, y - 1);
    }
}

/// Filling voxel y0 of a column raises its scan to at least y0 + 1.
pub proof fn lemma_col_top_raise(a: &Chunk, b: &Chunk, x: int, z: int, y0: int, y: int)
    requires
        0 <= y0,
        b.spec_block(x, y0, z) != Block::Air,
        forall|yy: int| yy != y0 ==> a.spec_block(x, yy, z) == b.spec_block(x, yy, z),
    ensures
        b.col_top(x, z, y) == if y > y0 {
            if a.col_top(x, z, y) > y0 + 1 {
                a.col_top(x, z, y)
            } else {
                y0 + 1
            }
        } else {
            a.col_top(x, z, y)
        },
    decreases y,
{
    lemma_col_top_range(a, x, z, y);
    if y > 0 {
        lemma_col_top_raise(a, b, x, z, y0, y - 1);
    }
}

/// Emptying voxel y0 of a column leaves its scan alone unless y0 was the top.
pub proof fn lemma_col_top_lower(a: &Chunk, b: &Chunk, x: int, z: int, y0: int, y: int)
    requires
        0 <= y0,
        b.spec_block(x, y0, z) == Block::Air,
        forall|yy: int| yy != y0 ==> a.spec_block(x, yy, z) == b.spec_block(x, yy, z),
        a.col_top(x, z, y) != y0 + 1,
    ensures
        b.col_top(x, z, y) == a.col_top(x, z, y),
    decreases y,
{
    if y > 0 {
        if y - 1 == y0 {
            lemma_col_top_frame(a, b, x, z, y - 1);
        } else if a.spec_block(x, y - 1, z) == Block::Air {
            lemma_col_top_lower(a, b, x, z, y0, y - 1);
        }
    }
}

impl Chunk {
    /// An empty chunk of the given height: no sections, a zero heightmap.
    pub fn new(height: i16) -> (r: Chunk)
        requires
            height >= 0,
        ensures
            r.wf(),
            r.height == height,
            forall|s: int| 0 <= s < r.chunk_sections@.len() ==> (#[trigger] r.chunk_sections@[s]) is None,
            forall|x: int, y: int, z: int| #[trigger] r.spec_block(x, y, z) == Block::Air,
            r.block_entities@ =~= Map::empty(),
            r.custom_data@ =~= Map::empty(),
    {
        let n: usize = ((height as usize) + 15) / 16;
        let mut chunk_sections: Vec<Option<ChunkSection>> = Vec::with_capacity(n);
        let mut i: usize = 0;
        while i < n
            invariant
                i <= n,
                chunk_sections@.len() == i,
                forall|s: int| 0 <= s < i ==> (#[trigger] chunk_sections@[s]) is None,
            decreases n - i,
        {
            chunk_sections.push(None);
            i = i + 1;
        }
        let r = Chunk {
            height,
            chunk_sections,
            height_map: vec![0i16; 256],
            block_entities: BTreeMap::new(),
            custom_data: HashMap::new(),
        };
        assert forall|x: int, z: int| 0 <= x < 16 && 0 <= z < 16 implies r.height_map@[z * 16 + x]
            == #[trigger] r.spec_height(x, z) by {
            lemma_col_top_frame(&r, &r, x, z, height as int);
            lemma_col_top_range(&r, x, z, height as int);
        }
        r
    }

    /// Whether chunk coordinates address a voxel.
    pub fn in_bounds(&self, x: i8, y: i16, z: i8) -> (r: bool)
        ensures
            r == self.in_chunk(x as int, y as int, z as int),
    {
        0 <= x && x < CHUNK_WIDTH && 0 <= y && y < self.height && 0 <= z && z < CHUNK_LENGTH
    }

    /// The block at chunk coordinates; air anywhere outside the chunk.
    pub fn get_block(&self, x: i8, y: i16, z: i8) -> (r: Block)
        requires
            self.sections_wf(),
        ensures
            r == self.spec_block(x as int, y as int, z as int),
    {
        if !self.in_bounds(x, y, z) {
            return Block::Air;
        }
        let si: usize = (y / 16) as usize;
        match &self.chunk_sections[si] {
            Some(s) => s.get_block(x, y % 16, z),
            None => Block::Air,
        }
    }

    /// One more than the highest non-air y of column (x, z), or 0.
    fn column_top(&self, x: i8, z: i8) -> (r: i16)
        requires
            self.sections_wf(),
            0 <= x < 16,
            0 <= z < 16,
        ensures
            r == self.col_top(x as int, z as int, self.height as int),
    {
        let mut y: i16 = self.height;
        while y > 0
            invariant
                self.sections_wf(),
                0 <= x < 16,
                0 <= z < 16,
                0 <= y <= self.height,
                self.col_top(x as int, z as int, self.height as int) == self.col_top(
                    x as int,
                    z as int,
                    y as int,
                ),
            decreases y,
        {
            if self.get_block(x, y - 1, z) != Block::Air {
                return y;
            }
            y = y - 1;
        }
        0
    }

    /// The heightmap value of an unclamped column top.
    fn clamp_top(&self, t: i16) -> (r: i16)
        requires
            0 <= t <= self.height,
        ensures
            r == clamp_top(t as int, self.height as int),
    {
        if t > 0 && t >= self.height {
            self.height - 1
        } else {
            t
        }
    }

    /// Recomputes the heightmap by scanning every column from the top.
    pub fn generate_heightmap(&self) -> (r: Vec<i16>)
        requires
            self.sections_wf(),
        ensures
            r@.len() == 256,
            forall|x: int, z: int|
                0 <= x < 16 && 0 <= z < 16 ==> r@[z * 16 + x] == #[trigger] self.spec_height(x, z),
    {
        let mut heightmap: Vec<i16> = Vec::with_capacity(256);
        let mut z: i8 = 0;
        while z < CHUNK_LENGTH
            invariant
                self.sections_wf(),
                0 <= z <= 16,
                heightmap@.len() == z * 16,
                forall|xx: int, zz: int|
                    0 <= xx < 16 && 0 <= zz < z ==> heightmap@[zz * 16 + xx]
                        == #[trigger] self.spec_height(xx, zz),
            decreases 16 - z,
        {
            let mut x: i8 = 0;
            while x < CHUNK_WIDTH
                invariant
                    self.sections_wf(),
                    0 <= z < 16,
                    0 <= x <= 16,
                    heightmap@.len() == z * 16 + x,
                    forall|xx: int, zz: int|
                        0 <= xx < 16 && 0 <= zz < z ==> heightmap@[zz * 16 + xx]
                            == #[trigger] self.spec_height(xx, zz),
                    forall|xx: int|
                        0 <= xx < x ==> heightmap@[z * 16 + xx] == #[trigger] self.spec_height(
                            xx,
                            z as int,
                        ),
                decreases 16 - x,
            {
                let t = self.column_top(x, z);
                proof {
                    lemma_col_top_range(self, x as int, z as int, self.height as int);
                }
                heightmap.push(self.clamp_top(t));
                x = x + 1;
            }
            z = z + 1;
        }
        heightmap
    }

    /// The top non-air block of every column, indexed by `z * 16 + x`; air
    /// for an empty column.
    pub fn generate_blockmap(&self) -> (r: Vec<Block>)
        requires
            self.sections_wf(),
        ensures
            r@.len() == 256,
            forall|x: int, z: int|
                0 <= x < 16 && 0 <= z < 16 ==> r@[z * 16 + x] == #[trigger] self.spec_top_block(x, z),
    {
        let mut blkmap: Vec<Block> = Vec::with_capacity(256);
        let mut z: i8 = 0;
        while z < CHUNK_LENGTH
            invariant
                self.sections_wf(),
                0 <= z <= 16,
                blkmap@.len() == z * 16,
                forall|xx: int, zz: int|
                    0 <= xx < 16 && 0 <= zz < z ==> blkmap@[zz * 16 + xx]
                        == #[trigger] self.spec_top_block(xx, zz),
            decreases 16 - z,
        {
            let mut x: i8 = 0;
            while x < CHUNK_WIDTH
                invariant
                    self.sections_wf(),
                    0 <= z < 16,
                    0 <= x <= 16,
                    blkmap@.len() == z * 16 + x,
                    forall|xx: int, zz: int|
                        0 <= xx < 16 && 0 <= zz < z ==> blkmap@[zz * 16 + xx]
                            == #[trigger] self.spec_top_block(xx, zz),
                    forall|xx: int|
                        0 <= xx < x ==> blkmap@[z * 16 + xx] == #[trigger] self.spec_top_block(
                            xx,
                            z as int,
                        ),
                decreases 16 - x,
            {
                let t = self.column_top(x, z);
                proof {
                    lemma_col_top_range(self, x as int, z as int, self.height as int);
                }
                if t > 0 {
                    blkmap.push(self.get_block(x, t - 1, z));
                } else {
                    blkmap.push(Block::Air);
                }
                x = x + 1;
            }
            z = z + 1;
        }
        blkmap
    }
}


impl Chunk {
    /// Writes a block. Outside the chunk nothing happens; writing air into a
    /// band with no section allocates nothing; otherwise the band's section
    /// is created on demand. The heightmap is kept equal to a full scan.
    pub fn set_block(&mut self, x: i8, y: i16, z: i8, block: Block)
        requires
            old(self).wf(),
        ensures
            final(self).wf(),
            final(self).height == old(self).height,
            forall|a: int, b: int, c: int| #[trigger] final(self).spec_block(a, b, c) == if old(self).in_chunk(a, b, c) && a == x && b == y && c == z {
                block
            } else {
                old(self).spec_block(a, b, c)
            },
            forall|s: int|
                0 <= s < old(self).chunk_sections@.len() ==> ((#[trigger] final(self).chunk_sections@[s]) is Some <==> (old(self).chunk_sections@[s] is Some || (old(self).in_chunk(x as int, y as int, z as int) && block != Block::Air && s == y / 16))),
            final(self).chunk_sections@.len() == old(self).chunk_sections@.len(),
            forall|s: int|
                0 <= s < old(self).chunk_sections@.len() && s != y / 16 ==> #[trigger] final(self).chunk_sections@[s] == old(self).chunk_sections@[s],
            forall|t: Light, a: int, b: int, c: int| #[trigger] final(self).spec_light(t, a, b, c) == old(self).spec_light(t, a, b, c),
            forall|a: int, b: int, c: int| #[trigger] final(self).spec_state(a, b, c) == if old(self).in_chunk(a, b, c)
                && old(self).chunk_sections@[b / 16] is None && final(self).chunk_sections@[b / 16] is Some {
                Option::Some(Map::<String, String>::empty())
            } else {
                old(self).spec_state(a, b, c)
            },
            final(self).block_entities@ == old(self).block_entities@,
            final(self).custom_data@ == old(self).custom_data@,
            !old(self).in_chunk(x as int, y as int, z as int) || (block == Block::Air && old(self).chunk_sections@[y / 16] is None)
                ==> *final(self) == *old(self),
    {
        if !self.in_bounds(x, y, z) {
            return;
        }
        let si: usize = (y / 16) as usize;
        if self.chunk_sections[si].is_none() && block == Block::Air {
            return;
        }
        let mut sec = match self.chunk_sections[si].take() {
            Some(s) => s,
            None => ChunkSection::new(),
        };
        let ghost before = sec;
        sec.set_block(x, y % 16, z, block);
        self.chunk_sections.set(si, Some(sec));
        let ghost mid: Chunk = *self;
        assert forall|a: int, b: int, c: int| #[trigger] mid.spec_block(a, b, c) == if old(self).in_chunk(a, b, c) && a == x && b == y && c == z {
            block
        } else {
            old(self).spec_block(a, b, c)
        } by {
            if old(self).in_chunk(a, b, c) && b / 16 == si as int {
                assert(in_section(a, b % 16, c));
            }
        }
        assert forall|t: Light, a: int, b: int, c: int| #[trigger] mid.spec_light(t, a, b, c) == old(self).spec_light(t, a, b, c) by {
            if old(self).in_chunk(a, b, c) && b / 16 == si as int {
                assert(in_section(a, b % 16, c));
                assert(mid.chunk_sections@[si as int].unwrap().spec_light(t, a, b % 16, c) == before.spec_light(t, a, b % 16, c));
                if old(self).chunk_sections@[si as int] is Some {
                    assert(before == old(self).chunk_sections@[si as int].unwrap());
                } else {
                    assert(before.spec_light(t, a, b % 16, c) == 0);
                }
            }
        }
        assert forall|a: int, b: int, c: int| #[trigger] mid.spec_state(a, b, c) == if old(self).in_chunk(a, b, c)
            && old(self).chunk_sections@[b / 16] is None && mid.chunk_sections@[b / 16] is Some {
            Option::Some(Map::<String, String>::empty())
        } else {
            old(self).spec_state(a, b, c)
        } by {
            if old(self).in_chunk(a, b, c) && b / 16 == si as int {
                assert(in_section(a, b % 16, c));
                assert(mid.chunk_sections@[si as int].unwrap().spec_state(a, b % 16, c) == before.spec_state(a, b % 16, c));
                if old(self).chunk_sections@[si as int] is Some {
                    assert(before == old(self).chunk_sections@[si as int].unwrap());
                } else {
                    assert(before.spec_state(a, b % 16, c) == Option::Some(Map::<String, String>::empty()));
                }
            }
        }
        let idx: usize = z as usize * 16 + x as usize;
        let hm = self.height_map[idx];
        proof {
            lemma_col_top_range(old(self), x as int, z as int, self.height as int);
            assert(hm == old(self).spec_height(x as int, z as int));
        }
        if block != Block::Air {
            proof {
                lemma_col_top_raise(old(self), &mid, x as int, z as int, y as int, self.height as int);
            }
            if y >= hm {
                let top = if y + 1 < self.height - 1 {
                    y + 1
                } else {
                    self.height - 1
                };
                self.height_map.set(idx, top);
            }
        } else if y + 1 >= hm {
            let t = self.column_top(x, z);
            proof {
                lemma_col_top_range(&mid, x as int, z as int, self.height as int);
            }
            let top = self.clamp_top(t);
            self.height_map.set(idx, top);
        } else {
            proof {
                lemma_col_top_lower(old(self), &mid, x as int, z as int, y as int, self.height as int);
            }
        }
        proof {
            assert forall|a: int, b: int, c: int| #[trigger] self.spec_block(a, b, c) == mid.spec_block(a, b, c) by {}
            assert forall|t: Light, a: int, b: int, c: int| #[trigger] self.spec_light(t, a, b, c) == mid.spec_light(t, a, b, c) by {}
            assert forall|a: int, b: int, c: int| #[trigger] self.spec_state(a, b, c) == mid.spec_state(a, b, c) by {}
            assert forall|xx: int, zz: int|
                0 <= xx < 16 && 0 <= zz < 16 implies self.height_map@[zz * 16 + xx]
                == #[trigger] self.spec_height(xx, zz) by {
                lemma_col_top_frame(self, &mid, xx, zz, self.height as int);
                if xx != x || zz != z {
                    lemma_col_top_frame(&mid, old(self), xx, zz, self.height as int);
                    assert(old(self).height_map@[zz * 16 + xx] == old(self).spec_height(xx, zz));
                }
            }
        }
    }
}


/// Chunks with the same blocks and heightmap agree on whether it is correct.
proof fn lemma_same_blocks_heights(a: &Chunk, b: &Chunk)
    requires
        a.heights_ok(),
        a.height == b.height,
        a.height_map@ == b.height_map@,
        forall|x: int, y: int, z: int| #[trigger] a.spec_block(x, y, z) == b.spec_block(x, y, z),
    ensures
        b.heights_ok(),
{
    assert forall|x: int, z: int| 0 <= x < 16 && 0 <= z < 16 implies b.height_map@[z * 16 + x]
        == #[trigger] b.spec_height(x, z) by {
        lemma_col_top_frame(a, b, x, z, a.height as int);
        assert(a.height_map@[z * 16 + x] == a.spec_height(x, z));
    }
}

/// The heightmap kept up to date by block writes is exactly what a full
/// rescan of the chunk produces.
pub proof fn lemma_heightmap_matches_rescan(c: &Chunk, rescan: Seq<i16>)
    requires
        c.wf(),
        rescan.len() == 256,
        forall|x: int, z: int|
            0 <= x < 16 && 0 <= z < 16 ==> rescan[z * 16 + x] == #[trigger] c.spec_height(x, z),
    ensures
        c.height_map@ == rescan,
{
    assert forall|i: int| 0 <= i < 256 implies c.height_map@[i] == rescan[i] by {
        let x = i % 16;
        let z = i / 16;
        assert(i == z * 16 + x);
        assert(c.height_map@[z * 16 + x] == c.spec_height(x, z));
    }
    assert(c.height_map@ =~= rescan);
}

/// Every position outside the chunk reads as air.
pub proof fn lemma_outside_is_air(c: &Chunk, x: int, y: int, z: int)
    requires
        !c.in_chunk(x, y, z),
    ensures
        c.spec_block(x, y, z) == Block::Air,
{
}

impl Chunk {
    /// The state map at chunk coordinates; none outside the chunk or where
    /// the band has no section.
    pub open spec fn spec_state(&self, x: int, y: int, z: int) -> Option<Map<String, String>> {
        if !self.in_chunk(x, y, z) {
            Option::None
        } else {
            match self.chunk_sections@[y / 16] {
                Option::Some(s) => s.spec_state(x, y % 16, z),
                Option::None => Option::None,
            }
        }
    }

    /// The light level of a channel at chunk coordinates; zero outside the
    /// chunk or where the band has no section.
    pub open spec fn spec_light(&self, t: Light, x: int, y: int, z: int) -> u8 {
        if !self.in_chunk(x, y, z) {
            0
        } else {
            match self.chunk_sections@[y / 16] {
                Option::Some(s) => s.spec_light(t, x, y % 16, z),
                Option::None => 0,
            }
        }
    }

    /// The linear index of a voxel in XZY order over the whole chunk.
    pub fn get_index(&self, x: i8, y: i16, z: i8) -> (r: usize)
        requires
            self.in_chunk(x as int, y as int, z as int),
        ensures
            r == y as int + z as int * self.height as int + x as int * self.height as int * 16,
    {
        proof {
            let h = self.height as int;
            assert(0 <= z as int * h <= 15 * h) by (nonlinear_arith)
                requires
                    0 <= z < 16,
                    0 <= h,
            ;
            assert(0 <= x as int * h * 16 <= 15 * h * 16) by (nonlinear_arith)
                requires
                    0 <= x < 16,
                    0 <= h,
            ;
        }
        (y as usize) + (z as usize) * (self.height as usize) + (x as usize) * (self.height as usize)
            * 16
    }

    /// The section of the band that holds y, if it has been created.
    pub fn get_chunk_section(&self, y: i16) -> (r: Option<&ChunkSection>)
        requires
            self.sections_wf(),
        ensures
            match r {
                Option::Some(s) => 0 <= y < self.height && self.chunk_sections@[y / 16]
                    == Option::Some(*s),
                Option::None => !(0 <= y < self.height) || self.chunk_sections@[y / 16] is None,
            },
    {
        if y < 0 || y >= self.height {
            return None;
        }
        let si: usize = (y / 16) as usize;
        self.chunk_sections[si].as_ref()
    }

    /// The heightmap value of column (x, z).
    pub fn get_height(&self, x: i8, z: i8) -> (r: i16)
        requires
            self.wf(),
            0 <= x < 16,
            0 <= z < 16,
        ensures
            r == self.spec_height(x as int, z as int),
    {
        let index = z as usize * 16 + x as usize;
        self.height_map[index]
    }

    /// The whole heightmap, indexed by `z * 16 + x`.
    pub fn get_heightmap(&self) -> (r: &[i16])
        ensures
            r@ == self.height_map@,
    {
        self.height_map.as_slice()
    }

    /// Replaces the heightmap by a full rescan; it already agrees with one,
    /// so this only repairs a heightmap that was written from outside.
    pub fn recalc_heightmap(&mut self)
        requires
            old(self).sections_wf(),
        ensures
            final(self).wf(),
            final(self).height == old(self).height,
            final(self).chunk_sections@ == old(self).chunk_sections@,
            final(self).block_entities@ == old(self).block_entities@,
            final(self).custom_data@ == old(self).custom_data@,
    {
        let hm = self.generate_heightmap();
        self.height_map = hm;
        assert forall|x: int, z: int| 0 <= x < 16 && 0 <= z < 16 implies self.height_map@[z * 16 + x]
            == #[trigger] self.spec_height(x, z) by {
            lemma_col_top_frame(self, old(self), x, z, self.height as int);
            assert(self.height_map@[z * 16 + x] == old(self).spec_height(x, z));
        }
    }

    /// A copy of the state map at chunk coordinates; `None` outside the
    /// chunk or where the band has no section.
    pub fn get_state(&self, x: i8, y: i16, z: i8) -> (r: Option<BTreeMap<String, String>>)
        requires
            self.sections_wf(),
        ensures
            match r {
                Option::Some(m) => self.spec_state(x as int, y as int, z as int) == Option::Some(m@),
                Option::None => self.spec_state(x as int, y as int, z as int) is None,
            },
    {
        if !self.in_bounds(x, y, z) {
            return None;
        }
        let si: usize = (y / 16) as usize;
        match &self.chunk_sections[si] {
            Some(s) => s.get_state(x, y % 16, z),
            None => None,
        }
    }

    /// Sets one key of one voxel's state map, leaving every other voxel's
    /// state alone; nothing happens outside the chunk or where the band has
    /// no section.
    pub fn set_state(&mut self, x: i8, y: i16, z: i8, key: String, value: String)
        requires
            old(self).wf(),
        ensures
            final(self).wf(),
            final(self).height == old(self).height,
            final(self).height_map@ == old(self).height_map@,
            final(self).block_entities@ == old(self).block_entities@,
            final(self).custom_data@ == old(self).custom_data@,
            forall|a: int, b: int, c: int| #[trigger] final(self).spec_block(a, b, c) == old(self).spec_block(a, b, c),
            forall|t: Light, a: int, b: int, c: int| #[trigger] final(self).spec_light(t, a, b, c) == old(self).spec_light(t, a, b, c),
            forall|a: int, b: int, c: int| #[trigger] final(self).spec_state(a, b, c) == if a == x
                && b == y && c == z && old(self).spec_state(a, b, c) is Some {
                Option::Some(old(self).spec_state(a, b, c).unwrap().insert(key, value))
            } else {
                old(self).spec_state(a, b, c)
            },
    {
        if !self.in_bounds(x, y, z) {
            return;
        }
        let si: usize = (y / 16) as usize;
        if self.chunk_sections[si].is_none() {
            return;
        }
        let mut sec = self.chunk_sections[si].take().unwrap();
        sec.set_state(x, y % 16, z, key, value);
        self.chunk_sections.set(si, Some(sec));
        proof {
            assert forall|a: int, b: int, c: int| #[trigger] self.spec_block(a, b, c) == old(self).spec_block(a, b, c) by {}
            assert forall|a: int, b: int, c: int| #[trigger] self.spec_state(a, b, c) == if a == x
                && b == y && c == z && old(self).spec_state(a, b, c) is Some {
                Option::Some(old(self).spec_state(a, b, c).unwrap().insert(key, value))
            } else {
                old(self).spec_state(a, b, c)
            } by {
                if self.in_chunk(a, b, c) && b / 16 == si as int {
                    assert(in_section(a, b % 16, c));
                }
            }
            lemma_same_blocks_heights(old(self), self);
        }
    }

    /// The light level of a channel at chunk coordinates; zero outside the
    /// chunk or where the band has no section.
    pub fn get_light(&self, light_type: Light, x: i8, y: i16, z: i8) -> (r: u8)
        requires
            self.sections_wf(),
        ensures
            r == self.spec_light(light_type, x as int, y as int, z as int),
    {
        if !self.in_bounds(x, y, z) {
            return 0;
        }
        let si: usize = (y / 16) as usize;
        match &self.chunk_sections[si] {
            Some(s) => s.get_light(light_type, x, y % 16, z),
            None => 0,
        }
    }

    /// Sets the light level of a channel, clamped to the brightest level;
    /// nothing happens outside the chunk or where the band has no section.
    pub fn set_light(&mut self, light_type: Light, x: i8, y: i16, z: i8, level: u8)
        requires
            old(self).wf(),
        ensures
            final(self).wf(),
            final(self).height == old(self).height,
            final(self).height_map@ == old(self).height_map@,
            final(self).block_entities@ == old(self).block_entities@,
            final(self).custom_data@ == old(self).custom_data@,
            forall|a: int, b: int, c: int| #[trigger] final(self).spec_block(a, b, c) == old(self).spec_block(a, b, c),
            forall|a: int, b: int, c: int| #[trigger] final(self).spec_state(a, b, c) == old(self).spec_state(a, b, c),
            forall|t: Light, a: int, b: int, c: int| #[trigger] final(self).spec_light(t, a, b, c)
                == if t == light_type && a == x && b == y && c == z && old(self).in_chunk(a, b, c)
                && old(self).chunk_sections@[b / 16] is Some {
                clamp_light(level)
            } else {
                old(self).spec_light(t, a, b, c)
            },
    {
        if !self.in_bounds(x, y, z) {
            return;
        }
        let si: usize = (y / 16) as usize;
        if self.chunk_sections[si].is_none() {
            return;
        }
        let mut sec = self.chunk_sections[si].take().unwrap();
        sec.set_light(light_type, x, y % 16, z, level);
        self.chunk_sections.set(si, Some(sec));
        proof {
            assert forall|a: int, b: int, c: int| #[trigger] self.spec_block(a, b, c) == old(self).spec_block(a, b, c) by {}
            assert forall|a: int, b: int, c: int| #[trigger] self.spec_state(a, b, c) == old(self).spec_state(a, b, c) by {}
            assert forall|t: Light, a: int, b: int, c: int| #[trigger] self.spec_light(t, a, b, c)
                == if t == light_type && a == x && b == y && c == z && old(self).in_chunk(a, b, c)
                && old(self).chunk_sections@[b / 16] is Some {
                clamp_light(level)
            } else {
                old(self).spec_light(t, a, b, c)
            } by {
                if self.in_chunk(a, b, c) && b / 16 == si as int {
                    assert(in_section(a, b % 16, c));
                }
            }
            lemma_same_blocks_heights(old(self), self);
        }
    }

    /// Every block of the chunk, band after band in slot order; a band with
    /// no section contributes 4096 air blocks.
    pub fn get_all_blocks(&self) -> (r: Vec<Block>)
        requires
            self.sections_wf(),
        ensures
            r@ == self.blocks_upto(self.chunk_sections@.len() as int),
    {
        let mut out: Vec<Block> = Vec::new();
        let mut s: usize = 0;
        while s < self.chunk_sections.len()
            invariant
                self.sections_wf(),
                s <= self.chunk_sections@.len(),
                out@ == self.blocks_upto(s as int),
            decreases self.chunk_sections@.len() - s,
        {
            let mut part: Vec<Block> = match &self.chunk_sections[s] {
                Some(sec) => sec.get_all_blocks(),
                None => vec![Block::Air; SECTION_VOLUME],
            };
            assert(part@ =~= self.section_blocks(s as int));
            out.append(&mut part);
            s = s + 1;
        }
        out
    }

    /// Every block of the chunk in the order of `get_all_blocks`, as a
    /// version's ids; blocks the version cannot express become its air id.
    pub fn get_all_blocks_converted(&self, version: McVersion) -> (r: Vec<BlockId>)
        requires
            self.sections_wf(),
        ensures
            r@.len() == self.blocks_upto(self.chunk_sections@.len() as int).len(),
            forall|i: int|
                0 <= i < r@.len() ==> r@[i] == spec_version_block_id(
                    version,
                    self.blocks_upto(self.chunk_sections@.len() as int)[i],
                ),
    {
        let blocks = self.get_all_blocks();
        convert_blocks_from_internal_format(version, blocks)
    }
}


impl Chunk {
    /// Attaches a block entity at a position, replacing any entity there.
    /// Blocks are not consulted: keeping a block and its entity in agreement
    /// is the caller's affair.
    pub fn add_block_entity(&mut self, coords: Vec3i, block_entity: BlockEntity)
        ensures
            final(self).block_entities@ == old(self).block_entities@.insert(coords.spec_key(), block_entity),
            final(self).height == old(self).height,
            final(self).chunk_sections@ == old(self).chunk_sections@,
            final(self).height_map@ == old(self).height_map@,
            final(self).custom_data@ == old(self).custom_data@,
            old(self).wf() ==> final(self).wf(),
    {
        proof {
            broadcast use vstd::laws_cmp::group_laws_cmp;
        }
        self.block_entities.insert((coords.x, coords.y, coords.z), block_entity);
        proof {
            if old(self).wf() {
                lemma_same_blocks_heights(old(self), self);
            }
        }
    }

    /// Detaches the block entity at a position, if there is one.
    pub fn remove_block_entity(&mut self, coords: Vec3i)
        ensures
            final(self).block_entities@ == old(self).block_entities@.remove(coords.spec_key()),
            final(self).height == old(self).height,
            final(self).chunk_sections@ == old(self).chunk_sections@,
            final(self).height_map@ == old(self).height_map@,
            final(self).custom_data@ == old(self).custom_data@,
            old(self).wf() ==> final(self).wf(),
    {
        proof {
            broadcast use vstd::laws_cmp::group_laws_cmp;
        }
        self.block_entities.remove(&(coords.x, coords.y, coords.z));
        proof {
            if old(self).wf() {
                lemma_same_blocks_heights(old(self), self);
            }
        }
    }
}

impl Chunk {
    /// Whether the chunk is well formed, its heightmap included; for chunks
    /// built outside this library's operations.
    pub fn check_wf(&self) -> (r: bool)
        ensures
            r == self.wf(),
    {
        if self.height < 0 || self.chunk_sections.len() != ((self.height as usize) + 15) / 16
            || self.height_map.len() != 256 {
            return false;
        }
        let mut s: usize = 0;
        while s < self.chunk_sections.len()
            invariant
                s <= self.chunk_sections@.len(),
                forall|j: int|
                    0 <= j < s && (#[trigger] self.chunk_sections@[j]) is Some
                        ==> self.chunk_sections@[j].unwrap().wf(),
            decreases self.chunk_sections@.len() - s,
        {
            match &self.chunk_sections[s] {
                Some(sec) => if !sec.check_wf() {
                    return false;
                },
                None => {},
            }
            s = s + 1;
        }
        let rescan = self.generate_heightmap();
        let mut i: usize = 0;
        while i < 256
            invariant
                self.sections_wf(),
                i <= 256,
                rescan@.len() == 256,
                self.height_map@.len() == 256,
                forall|x: int, z: int|
                    0 <= x < 16 && 0 <= z < 16 ==> rescan@[z * 16 + x] == #[trigger] self.spec_height(x, z),
                forall|j: int| 0 <= j < i ==> self.height_map@[j] == rescan@[j],
            decreases 256 - i,
        {
            if self.height_map[i] != rescan[i] {
                proof {
                    let x = i as int % 16;
                    let z = i as int / 16;
                    assert(i as int == z * 16 + x);
                    assert(rescan@[z * 16 + x] == self.spec_height(x, z));
                }
                return false;
            }
            i = i + 1;
        }
        proof {
            assert forall|x: int, z: int| 0 <= x < 16 && 0 <= z < 16 implies self.height_map@[z * 16 + x]
                == #[trigger] self.spec_height(x, z) by {
                assert(rescan@[z * 16 + x] == self.spec_height(x, z));
            }
        }
        true
    }
}

} // verus!
