use lodestone::block::{
    convert_blocks_from_internal_format, get_internal_block_id, get_version_block_id, to_external,
    Block, BlockId, McVersion,
};
use lodestone::chunk::Chunk;
use lodestone::region::{Compression, CompressionError};

#[test]
fn numeric_ids_map_to_blocks() {
    let v = McVersion::Classic0_30;
    assert_eq!(get_internal_block_id(v, &BlockId::Numeric(1)), Some(Block::Stone));
    assert_eq!(get_internal_block_id(v, &BlockId::Numeric(8)), Some(Block::Water));
    assert_eq!(get_internal_block_id(v, &BlockId::Numeric(9)), Some(Block::Water));
    assert_eq!(get_internal_block_id(v, &BlockId::Numeric(54)), None);
    assert_eq!(get_internal_block_id(v, &BlockId::Numeric(200)), None);
    assert_eq!(get_internal_block_id(McVersion::Alpha1_2_6, &BlockId::Numeric(54)), Some(Block::Chest));
    assert_eq!(
        get_internal_block_id(McVersion::Release1_1, &BlockId::NumericAndFlattened(17, 2)),
        Some(Block::Log)
    );
    assert_eq!(get_internal_block_id(McVersion::Release1_1, &BlockId::Numeric(17)), None);
    assert_eq!(
        get_internal_block_id(v, &BlockId::Internal(Block::Chest)),
        Some(Block::Chest)
    );
}

#[test]
fn blocks_map_to_numeric_ids() {
    assert_eq!(to_external(McVersion::Classic0_0_12a, &Block::Glass), Some(BlockId::Numeric(20)));
    assert_eq!(to_external(McVersion::Classic0_0_12a, &Block::Chest), None);
    assert_eq!(
        to_external(McVersion::Release1_1, &Block::Chest),
        Some(BlockId::NumericAndFlattened(54, 0))
    );
    assert_eq!(get_version_block_id(McVersion::Alpha1_2_6, &Block::Lava), BlockId::Numeric(11));
}

#[test]
fn conversion_fallback_is_stable() {
    let first = get_version_block_id(McVersion::Classic0_30, &Block::Chest);
    for _ in 0..10 {
        assert_eq!(get_version_block_id(McVersion::Classic0_30, &Block::Chest), first);
    }
    assert_eq!(first, BlockId::Numeric(0));
}

#[test]
fn bulk_conversion() {
    let out = convert_blocks_from_internal_format(
        McVersion::Classic0_0_14a,
        vec![Block::Air, Block::Stone, Block::Chest, Block::Sand],
    );
    assert_eq!(
        out,
        vec![BlockId::Numeric(0), BlockId::Numeric(1), BlockId::Numeric(0), BlockId::Numeric(12)]
    );
    let mut chunk = Chunk::new(16);
    chunk.set_block(0, 0, 0, Block::Chest);
    chunk.set_block(1, 0, 0, Block::Stone);
    let conv = chunk.get_all_blocks_converted(McVersion::Infdev20100630);
    assert_eq!(conv.len(), 4096);
    assert_eq!(conv[0], BlockId::Numeric(54));
    assert_eq!(conv[1], BlockId::Numeric(1));
    let section = chunk.chunk_sections[0].as_ref().unwrap();
    let sconv = section.get_all_blocks_converted(McVersion::Classic0_30);
    assert_eq!(sconv[0], BlockId::Numeric(0));
    assert_eq!(sconv[1], BlockId::Numeric(1));
}

#[test]
fn compression_tags() {
    assert_eq!(Compression::try_from(1), Ok(Compression::GZip));
    assert_eq!(Compression::try_from(2), Ok(Compression::Zlib));
    assert_eq!(Compression::try_from(3), Ok(Compression::Uncompressed));
    assert_eq!(Compression::try_from(4), Ok(Compression::LZ4));
    assert_eq!(Compression::try_from(127), Ok(Compression::Custom));
    assert_eq!(Compression::try_from(0), Err(()));
    assert_eq!(Compression::try_from(5), Err(()));
    assert_eq!(Compression::Custom.tag(), 127);
    assert_eq!(Compression::decodable_from_tag(2), Ok(Compression::Zlib));
    assert_eq!(Compression::decodable_from_tag(127), Err(CompressionError::Unsupported));
    assert_eq!(Compression::decodable_from_tag(9), Err(CompressionError::UnknownTag(9)));
}
