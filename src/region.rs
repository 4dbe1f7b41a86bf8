use vstd::prelude::*;

verus! {

/// Compression codec of a chunk payload inside a region container.
#[derive(PartialEq, Eq, Structural, Clone, Copy, Debug)]
pub enum Compression {
    GZip,
    Zlib,
    Uncompressed,
    LZ4,
    Custom,
}

/// Why a compression tag cannot be used to decode a payload.
#[derive(PartialEq, Eq, Structural, Clone, Copy, Debug)]
pub enum CompressionError {
    /// The tag byte names no codec.
    UnknownTag(i8),
    /// The codec is recognised but this engine cannot decode it.
    Unsupported,
}

/// The codec that an on-disk tag byte names, if any.
pub open spec fn compression_of_tag(c: i8) -> Option<Compression> {
    if c == 1 {
        Option::Some(Compression::GZip)
    } else if c == 2 {
        Option::Some(Compression::Zlib)
    } else if c == 3 {
        Option::Some(Compression::Uncompressed)
    } else if c == 4 {
        Option::Some(Compression::LZ4)
    } else if c == 127 {
        Option::Some(Compression::Custom)
    } else {
        Option::None
    }
}

impl Compression {
    /// The on-disk tag byte of this codec.
    pub open spec fn spec_tag(self) -> i8 {
        match self {
            Compression::GZip => 1,
            Compression::Zlib => 2,
            Compression::Uncompressed => 3,
            Compression::LZ4 => 4,
            Compression::Custom => 127,
        }
    }

    /// The on-disk tag byte of this codec.
    pub fn tag(&self) -> (r: i8)
        ensures
            r == self.spec_tag(),
    {
        match self {
            Compression::GZip => 1,
            Compression::Zlib => 2,
            Compression::Uncompressed => 3,
            Compression::LZ4 => 4,
            Compression::Custom => 127,
        }
    }

    /// Reads a tag byte; `Err(())` when it names no codec.
    pub fn try_from(c: i8) -> (r: Result<Compression, ()>)
        ensures
            match compression_of_tag(c) {
                Option::Some(k) => r == Ok::<Compression, ()>(k),
                Option::None => r is Err,
            },
    {
        if c == 1 {
            Ok(Compression::GZip)
        } else if c == 2 {
            Ok(Compression::Zlib)
        } else if c == 3 {
            Ok(Compression::Uncompressed)
        } else if c == 4 {
            Ok(Compression::LZ4)
        } else if c == 127 {
            Ok(Compression::Custom)
        } else {
            Err(())
        }
    }

    /// Whether a payload in this codec can be decoded by this engine.
    pub open spec fn spec_is_decodable(self) -> bool {
        self != Compression::Custom
    }

    /// The codec named by a tag byte, refused when it is unknown or when it is
    /// the reserved custom codec, which is never decoded.
    pub fn decodable_from_tag(c: i8) -> (r: Result<Compression, CompressionError>)
        ensures
            match compression_of_tag(c) {
                Option::None => r == Err::<Compression, CompressionError>(
                    CompressionError::UnknownTag(c),
                ),
                Option::Some(k) => if k.spec_is_decodable() {
                    r == Ok::<Compression, CompressionError>(k)
                } else {
                    r == Err::<Compression, CompressionError>(CompressionError::Unsupported)
                },
            },
    {
        match Compression::try_from(c) {
            Err(()) => Err(CompressionError::UnknownTag(c)),
            Ok(Compression::Custom) => Err(CompressionError::Unsupported),
            Ok(k) => Ok(k),
        }
    }
}

/// Layout family of a region container.
#[derive(PartialEq, Eq, Structural, Clone, Copy, Debug)]
pub enum RegionType {
    MCR,
    MCA,
}

/// Position of a region container, in region-grid units.
#[derive(PartialEq, Eq, Structural, Clone, Copy, Debug, Hash, Default)]
pub struct RegionCoords {
    pub x: i32,
    pub z: i32,
}

/// Where one chunk payload lies in a region container: a byte offset and a
/// size in sectors.
#[derive(PartialEq, Eq, Structural, Clone, Copy, Debug, Default)]
pub struct ChunkLocation {
    pub offset: u32,
    pub size: u8,
}

} // verus!
