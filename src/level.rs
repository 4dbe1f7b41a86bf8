use vstd::prelude::*;
use crate::block::Block;
use crate::chunk::Chunk;

verus! {

/// A finite world: a grid of chunks, rows along z, and its size in blocks.
pub struct Level {
    /// `chunks[cz][cx]` covers x in `[16 cx, 16 cx + 16)` and z in
    /// `[16 cz, 16 cz + 16)`.
    pub chunks: Vec<Vec<Chunk>>,
    pub width: i32,
    pub height: i16,
    pub length: i32,
}

impl Level {
    /// Whether world coordinates address a voxel of the level.
    pub open spec fn in_level(&self, x: int, y: int, z: int) -> bool {
        0 <= x < self.width && 0 <= y < self.height && 0 <= z < self.length
    }

    /// The grid has one chunk per 16×16 column band, each well formed and
    /// as tall as the level.
    pub open spec fn wf(&self) -> bool {
        &&& self.width >= 0
        &&& self.length >= 0
        &&& self.height >= 0
        &&& self.chunks@.len() == (self.length + 15) / 16
        &&& forall|cz: int|
            0 <= cz < self.chunks@.len() ==> (#[trigger] self.chunks@[cz])@.len() == (self.width
                + 15) / 16
        &&& forall|cz: int, cx: int|
            0 <= cz < self.chunks@.len() && 0 <= cx < self.chunks@[cz]@.len() ==> {
                &&& (#[trigger] self.chunks@[cz]@[cx]).wf()
                &&& self.chunks@[cz]@[cx].height == self.height
            }
    }

    /// The block at world coordinates; air outside the level.
    pub open spec fn spec_block(&self, x: int, y: int, z: int) -> Block {
        if self.in_level(x, y, z) {
            self.chunks@[z / 16]@[x / 16].spec_block(x % 16, y, z % 16)
        } else {
            Block::Air
        }
    }

    /// A level of the given size in blocks, filled with air.
    pub fn create_finite(width: i32, height: i16, length: i32) -> (r: Level)
        requires
            width >= 0,
            height >= 0,
            length >= 0,
        ensures
            r.wf(),
            r.width == width,
            r.height == height,
            r.length == length,
            forall|x: int, y: int, z: int| #[trigger] r.spec_block(x, y, z) == Block::Air,
    {
        let nx: usize = ((width as usize) + 15) / 16;
        let nz: usize = ((length as usize) + 15) / 16;
        let mut chunks: Vec<Vec<Chunk>> = Vec::with_capacity(nz);
        let mut cz: usize = 0;
        while cz < nz
            invariant
                cz <= nz,
                nx == (width + 15) / 16,
                height >= 0,
                chunks@.len() == cz,
                forall|i: int| 0 <= i < cz ==> (#[trigger] chunks@[i])@.len() == nx,
                forall|i: int, j: int|
                    0 <= i < cz && 0 <= j < nx ==> {
                        &&& (#[trigger] chunks@[i]@[j]).wf()
                        &&& chunks@[i]@[j].height == height
                        &&& forall|a: int, b: int, c: int| #[trigger] chunks@[i]@[j].spec_block(a, b, c) == Block::Air
                    },
            decreases nz - cz,
        {
            let mut row: Vec<Chunk> = Vec::with_capacity(nx);
            let mut cx: usize = 0;
            while cx < nx
                invariant
                    cx <= nx,
                    height >= 0,
                    row@.len() == cx,
                    forall|j: int|
                        0 <= j < cx ==> {
                            &&& (#[trigger] row@[j]).wf()
                            &&& row@[j].height == height
                            &&& forall|a: int, b: int, c: int| #[trigger] row@[j].spec_block(a, b, c) == Block::Air
                        },
                decreases nx - cx,
            {
                row.push(Chunk::new(height));
                cx = cx + 1;
            }
            chunks.push(row);
            cz = cz + 1;
        }
        Level { chunks, width, height, length }
    }

    /// Width of the level in blocks, along x.
    pub fn get_block_width(&self) -> (r: i32)
        ensures
            r == self.width,
    {
        self.width
    }

    /// Height of the level in blocks.
    pub fn get_block_height(&self) -> (r: i16)
        ensures
            r == self.height,
    {
        self.height
    }

    /// Length of the level in blocks, along z.
    pub fn get_block_length(&self) -> (r: i32)
        ensures
            r == self.length,
    {
        self.length
    }

    /// The block at world coordinates; air anywhere outside the level.
    pub fn get_block(&self, x: i32, y: i16, z: i32) -> (r: Block)
        requires
            self.wf(),
        ensures
            r == self.spec_block(x as int, y as int, z as int),
    {
        if x < 0 || x >= self.width || y < 0 || y >= self.height || z < 0 || z >= self.length {
            return Block::Air;
        }
        let cx: usize = (x / 16) as usize;
        let cz: usize = (z / 16) as usize;
        self.chunks[cz][cx].get_block((x % 16) as i8, y, (z % 16) as i8)
    }

    /// Writes a block at world coordinates; nothing happens outside the level.
    pub fn set_block(&mut self, x: i32, y: i16, z: i32, block: Block)
        requires
            old(self).wf(),
        ensures
            final(self).wf(),
            final(self).width == old(self).width,
            final(self).height == old(self).height,
            final(self).length == old(self).length,
            forall|a: int, b: int, c: int| #[trigger] final(self).spec_block(a, b, c) == if old(self).in_level(a, b, c) && a == x && b == y && c == z {
                block
            } else {
                old(self).spec_block(a, b, c)
            },
    {
        if x < 0 || x >= self.width || y < 0 || y >= self.height || z < 0 || z >= self.length {
            return;
        }
        let cx: usize = (x / 16) as usize;
        let cz: usize = (z / 16) as usize;
        self.chunks[cz][cx].set_block((x % 16) as i8, y, (z % 16) as i8, block);
        proof {
            assert forall|a: int, b: int, c: int| #[trigger] self.spec_block(a, b, c) == if old(self).in_level(a, b, c) && a == x && b == y && c == z {
                block
            } else {
                old(self).spec_block(a, b, c)
            } by {
                if old(self).in_level(a, b, c) && a / 16 == cx as int && c / 16 == cz as int {
                    assert(self.chunks@[cz as int]@[cx as int].spec_block(a % 16, b, c % 16)
                        == if a % 16 == x % 16 && b == y && c % 16 == z % 16 {
                        block
                    } else {
                        old(self).chunks@[cz as int]@[cx as int].spec_block(a % 16, b, c % 16)
                    });
                }
            }
        }
    }
}

impl Level {
    /// Whether the level is well formed, every chunk included; for levels
    /// built outside this library's operations.
    pub fn check_wf(&self) -> (r: bool)
        ensures
            r == self.wf(),
    {
        if self.width < 0 || self.length < 0 || self.height < 0 {
            return false;
        }
        let nx: usize = ((self.width as usize) + 15) / 16;
        if self.chunks.len() != ((self.length as usize) + 15) / 16 {
            return false;
        }
        let mut cz: usize = 0;
        while cz < self.chunks.len()
            invariant
                self.width >= 0,
                nx == (self.width + 15) / 16,
                cz <= self.chunks@.len(),
                forall|i: int| 0 <= i < cz ==> (#[trigger] self.chunks@[i])@.len() == nx,
                forall|i: int, j: int|
                    0 <= i < cz && 0 <= j < nx ==> {
                        &&& (#[trigger] self.chunks@[i]@[j]).wf()
                        &&& self.chunks@[i]@[j].height == self.height
                    },
            decreases self.chunks@.len() - cz,
        {
            let row = &self.chunks[cz];
            if row.len() != nx {
                return false;
            }
            let mut cx: usize = 0;
            while cx < nx
                invariant
                    cz < self.chunks@.len(),
                    *row == self.chunks@[cz as int],
                    row@.len() == nx,
                    cx <= nx,
                    forall|j: int|
                        0 <= j < cx ==> {
                            &&& (#[trigger] row@[j]).wf()
                            &&& row@[j].height == self.height
                        },
                decreases nx - cx,
            {
                if !row[cx].check_wf() || row[cx].height != self.height {
                    return false;
                }
                cx = cx + 1;
            }
            cz = cz + 1;
        }
        true
    }
}

} // verus!
