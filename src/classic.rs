use vstd::prelude::*;
use crate::block::{Block, BlockId, McVersion, get_internal_block_id, get_version_block_id, spec_to_internal, spec_version_block_id};
use crate::level::Level;

verus! {

/// Width of the fixed classic layout, along x.
pub const MINEV1_WIDTH: i32 = 256;

/// Height of the fixed classic layout.
pub const MINEV1_HEIGHT: i16 = 64;

/// Length of the fixed classic layout, along z.
pub const MINEV1_LENGTH: i32 = 256;

/// Size in bytes of a level in the fixed classic layout.
pub const MINEV1_FILE_SIZE: usize = 4194304;

/// Byte offset of a voxel in the fixed classic layout (y, then z, then x).
pub open spec fn minev1_index(x: int, y: int, z: int) -> int {
    y * 65536 + z * 256 + x
}

/// The byte that stands for an external id in the classic layout: its
/// numeric part, truncated to a byte; 0 for a canonical id.
pub open spec fn spec_id_byte(id: BlockId) -> u8 {
    match id {
        BlockId::Numeric(n) => n as u8,
        BlockId::NumericAndFlattened(n, _) => n as u8,
        BlockId::Internal(_) => 0,
    }
}

/// The block that a classic byte stands for in a version; air when unmapped.
pub open spec fn spec_decode_byte(version: McVersion, b: u8) -> Block {
    match spec_to_internal(version, BlockId::Numeric(b as u16)) {
        Option::Some(blk) => blk,
        Option::None => Block::Air,
    }
}

/// The byte written for a voxel of a level.
pub open spec fn minev1_byte(level: &Level, version: McVersion, x: int, y: int, z: int) -> u8 {
    spec_id_byte(spec_version_block_id(version, level.spec_block(x, y, z)))
}

/// Voxel (xx, yy, zz) comes before voxel (x, y, z) in file order.
pub open spec fn before(xx: int, yy: int, zz: int, x: int, y: int, z: int) -> bool {
    yy < y || (yy == y && zz < z) || (yy == y && zz == z && xx < x)
}

/// The byte that stands for an external id in the classic layout.
fn id_byte(id: BlockId) -> (r: u8)
    ensures
        r == spec_id_byte(id),
{
    match id {
        BlockId::Numeric(n) => n as u8,
        BlockId::NumericAndFlattened(n, _) => n as u8,
        BlockId::Internal(_) => 0,
    }
}

impl Level {
    /// Size in bytes of a level in the fixed classic layout.
    pub fn get_minev1_file_size() -> (r: usize)
        ensures
            r == 256 * 64 * 256,
    {
        MINEV1_FILE_SIZE
    }

    /// Whether the level is larger than the fixed classic layout, so that
    /// writing it drops what lies outside; the caller should warn.
    pub fn exceeds_minev1_bounds(&self) -> (r: bool)
        ensures
            r == (self.width > 256 || self.height > 64 || self.length > 256),
    {
        self.width > MINEV1_WIDTH || self.height > MINEV1_HEIGHT || self.length > MINEV1_LENGTH
    }

    /// Reads a level in the fixed classic layout. Each byte is mapped
    /// through the version's numbering; an unmapped byte leaves air. Fails
    /// when the data is shorter than the layout.
    pub fn read_minev1(version: McVersion, data: &Vec<u8>) -> (r: Result<Level, String>)
        ensures
            r is Err <==> data@.len() < 256 * 64 * 256,
            r matches Result::Ok(level) ==> {
                &&& level.wf()
                &&& level.width == 256 && level.height == 64 && level.length == 256
                &&& forall|x: int, y: int, z: int|
                    level.in_level(x, y, z) ==> #[trigger] level.spec_block(x, y, z)
                        == spec_decode_byte(version, data@[minev1_index(x, y, z)])
            },
    {
        if data.len() < MINEV1_FILE_SIZE {
            return Err("data is shorter than a classic level".to_owned());
        }
        let mut level = Level::create_finite(MINEV1_WIDTH, MINEV1_HEIGHT, MINEV1_LENGTH);
        let mut y: i16 = 0;
        while y < MINEV1_HEIGHT
            invariant
                data@.len() >= 256 * 64 * 256,
                0 <= y <= 64,
                level.wf(),
                level.width == 256 && level.height == 64 && level.length == 256,
                forall|xx: int, yy: int, zz: int|
                    level.in_level(xx, yy, zz) ==> #[trigger] level.spec_block(xx, yy, zz) == if before(
                        xx,
                        yy,
                        zz,
                        0,
                        y as int,
                        0,
                    ) {
                        spec_decode_byte(version, data@[minev1_index(xx, yy, zz)])
                    } else {
                        Block::Air
                    },
            decreases 64 - y,
        {
            let mut z: i32 = 0;
            while z < MINEV1_LENGTH
                invariant
                    data@.len() >= 256 * 64 * 256,
                    0 <= y < 64,
                    0 <= z <= 256,
                    level.wf(),
                    level.width == 256 && level.height == 64 && level.length == 256,
                    forall|xx: int, yy: int, zz: int|
                        level.in_level(xx, yy, zz) ==> #[trigger] level.spec_block(xx, yy, zz)
                            == if before(xx, yy, zz, 0, y as int, z as int) {
                            spec_decode_byte(version, data@[minev1_index(xx, yy, zz)])
                        } else {
                            Block::Air
                        },
                decreases 256 - z,
            {
                let mut x: i32 = 0;
                while x < MINEV1_WIDTH
                    invariant
                        data@.len() >= 256 * 64 * 256,
                        0 <= y < 64,
                        0 <= z < 256,
                        0 <= x <= 256,
                        level.wf(),
                        level.width == 256 && level.height == 64 && level.length == 256,
                        forall|xx: int, yy: int, zz: int|
                            level.in_level(xx, yy, zz) ==> #[trigger] level.spec_block(xx, yy, zz)
                                == if before(xx, yy, zz, x as int, y as int, z as int) {
                                spec_decode_byte(version, data@[minev1_index(xx, yy, zz)])
                            } else {
                                Block::Air
                            },
                    decreases 256 - x,
                {
                    let i: usize = (y as usize) * 65536 + (z as usize) * 256 + (x as usize);
                    let blk = match get_internal_block_id(version, &BlockId::Numeric(data[i] as u16)) {
                        Some(b) => b,
                        None => Block::Air,
                    };
                    level.set_block(x, y, z, blk);
                    x = x + 1;
                }
                z = z + 1;
            }
            y = y + 1;
        }
        Ok(level)
    }

    /// Writes the level in the fixed classic layout: one byte per voxel of
    /// the 256×64×256 box, the version's id of the block there; voxels
    /// outside the level are air, and what lies outside the box is dropped.
    pub fn write_minev1(&self, version: McVersion) -> (r: Vec<u8>)
        requires
            self.wf(),
        ensures
            r@.len() == 256 * 64 * 256,
            forall|x: int, y: int, z: int|
                0 <= x < 256 && 0 <= y < 64 && 0 <= z < 256 ==> r@[minev1_index(x, y, z)]
                    == #[trigger] minev1_byte(self, version, x, y, z),
    {
        let mut blocks: Vec<u8> = Vec::with_capacity(MINEV1_FILE_SIZE);
        let mut y: i16 = 0;
        while y < MINEV1_HEIGHT
            invariant
                self.wf(),
                0 <= y <= 64,
                blocks@.len() == y * 65536,
                forall|xx: int, yy: int, zz: int|
                    0 <= xx < 256 && 0 <= yy < y && 0 <= zz < 256 ==> blocks@[minev1_index(
                        xx,
                        yy,
                        zz,
                    )] == #[trigger] minev1_byte(self, version, xx, yy, zz),
            decreases 64 - y,
        {
            let mut z: i32 = 0;
            while z < MINEV1_LENGTH
                invariant
                    self.wf(),
                    0 <= y < 64,
                    0 <= z <= 256,
                    blocks@.len() == y * 65536 + z * 256,
                    forall|xx: int, yy: int, zz: int|
                        0 <= xx < 256 && 0 <= yy < 64 && 0 <= zz < 256 && before(xx, yy, zz, 0, y as int, z as int)
                            ==> blocks@[minev1_index(xx, yy, zz)] == #[trigger] minev1_byte(
                            self,
                            version,
                            xx,
                            yy,
                            zz,
                        ),
                decreases 256 - z,
            {
                let mut x: i32 = 0;
                while x < MINEV1_WIDTH
                    invariant
                        self.wf(),
                        0 <= y < 64,
                        0 <= z < 256,
                        0 <= x <= 256,
                        blocks@.len() == y * 65536 + z * 256 + x,
                        forall|xx: int, yy: int, zz: int|
                            0 <= xx < 256 && 0 <= yy < 64 && 0 <= zz < 256 && before(xx, yy, zz, x as int, y as int, z as int)
                                ==> blocks@[minev1_index(xx, yy, zz)] == #[trigger] minev1_byte(
                                self,
                                version,
                                xx,
                                yy,
                                zz,
                            ),
                    decreases 256 - x,
                {
                    let b = self.get_block(x, y, z);
                    blocks.push(id_byte(get_version_block_id(version, &b)));
                    x = x + 1;
                }
                z = z + 1;
            }
            y = y + 1;
        }
        blocks
    }
}

} // verus!
