use lodestone::block::{Block, McVersion};
use lodestone::entity::{AlphaBlockEntityParser, BlockEntityType, HasBlockEntity, Item, LockableContainer, LootTable, BlockEntity};
use lodestone::level::Level;
use quartz_nbt::{NbtCompound, NbtList};

fn sign_tag() -> NbtCompound {
    let mut nbt = NbtCompound::new();
    nbt.insert("id", "Sign");
    nbt.insert("x", 10i32);
    nbt.insert("y", 64i32);
    nbt.insert("z", -5i32);
    nbt.insert("Text1", "hello");
    let mut list = NbtList::new();
    list.push(3i32);
    nbt.insert("Extra", list);
    nbt
}

#[test]
fn raw_entity_round_trip() {
    let nbt = sign_tag();
    let parsed = AlphaBlockEntityParser::parse(McVersion::Alpha1_2_6, &nbt).unwrap();
    assert_eq!(parsed.id, "Sign");
    assert_eq!((parsed.x, parsed.y, parsed.z), (10, 64, -5));
    assert!(matches!(parsed.data, HasBlockEntity::NotFound(ref k, _) if k == "Sign"));
    let written = AlphaBlockEntityParser::write(McVersion::Alpha1_2_6, parsed);
    assert!(written == nbt);
}

#[test]
fn parse_needs_kind_and_position() {
    let mut nbt = NbtCompound::new();
    nbt.insert("id", "Sign");
    nbt.insert("x", 1i32);
    nbt.insert("y", 2i32);
    assert!(AlphaBlockEntityParser::parse(McVersion::Alpha1_2_6, &nbt).is_none());
    nbt.insert("z", 3i16);
    assert!(AlphaBlockEntityParser::parse(McVersion::Alpha1_2_6, &nbt).is_none());
    nbt.insert("z", 3i32);
    assert!(AlphaBlockEntityParser::parse(McVersion::Alpha1_2_6, &nbt).is_some());
}

#[test]
fn chest_parse_and_write() {
    let mut nbt = NbtCompound::new();
    nbt.insert("id", "Chest");
    nbt.insert("x", 1i32);
    nbt.insert("y", 2i32);
    nbt.insert("z", 3i32);
    let parsed = AlphaBlockEntityParser::parse(McVersion::Alpha1_2_6, &nbt).unwrap();
    match &parsed.data {
        HasBlockEntity::Found(BlockEntityType::Chest { items, lockable_container, loot_table }) => {
            assert!(items.is_empty());
            assert!(!lockable_container.lock);
            assert_eq!(loot_table.name, "");
            assert_eq!(loot_table.seed, 0);
        }
        _ => panic!("a chest is a modelled kind"),
    }
    let entity = BlockEntity {
        id: "Chest".to_string(),
        x: 1,
        y: 2,
        z: 3,
        keep_packed: false,
        data: HasBlockEntity::Found(BlockEntityType::Chest {
            items: vec![Item { id: 4, slot: 0, count: 64 }, Item { id: 1, slot: 5, count: 2 }],
            lockable_container: LockableContainer { lock: false },
            loot_table: LootTable { name: String::new(), seed: 0 },
        }),
    };
    let out = AlphaBlockEntityParser::write(McVersion::Alpha1_2_6, entity);
    assert_eq!(out.get::<_, &str>("id").unwrap(), "Chest");
    assert_eq!(out.get::<_, i32>("z").unwrap(), 3);
    let items: &NbtList = out.get("items").unwrap();
    assert_eq!(items.len(), 2);
    let first: &NbtCompound = items.get(0).unwrap();
    assert_eq!(first.get::<_, i16>("id").unwrap(), 4);
    assert_eq!(first.get::<_, i8>("Slot").unwrap(), 0);
    assert_eq!(first.get::<_, i16>("Count").unwrap(), 64);
    let second: &NbtCompound = items.get(1).unwrap();
    assert_eq!(second.get::<_, i16>("id").unwrap(), 1);
    assert_eq!(second.get::<_, i8>("Slot").unwrap(), 5);
    assert_eq!(second.get::<_, i16>("Count").unwrap(), 2);
}

#[test]
fn chest_in_other_version_gets_header_only() {
    let entity = BlockEntity {
        id: "Chest".to_string(),
        x: 7,
        y: 8,
        z: 9,
        keep_packed: false,
        data: HasBlockEntity::Found(BlockEntityType::Chest {
            items: vec![Item { id: 4, slot: 0, count: 1 }],
            lockable_container: LockableContainer { lock: true },
            loot_table: LootTable { name: String::new(), seed: 0 },
        }),
    };
    let out = AlphaBlockEntityParser::write(McVersion::Release1_1, entity);
    assert_eq!(out.len(), 4);
    assert_eq!(out.get::<_, i32>("x").unwrap(), 7);
    assert!(!out.contains_key("items"));
}

#[test]
fn fixed_format_truncation() {
    let mut level = Level::create_finite(300, 64, 20);
    level.set_block(10, 3, 4, Block::Stone);
    level.set_block(290, 3, 4, Block::Stone);
    assert_eq!(level.get_block(290, 3, 4), Block::Stone);
    assert!(level.exceeds_minev1_bounds());
    let bytes = level.write_minev1(McVersion::Classic0_0_12a);
    assert_eq!(bytes.len(), Level::get_minev1_file_size());
    assert_eq!(bytes[3 * 65536 + 4 * 256 + 10], 1);
    assert_eq!(bytes.iter().filter(|b| **b != 0).count(), 1);
}

#[test]
fn region_to_mine_v1() {
    let mut level = Level::create_finite(32, 64, 32);
    level.set_block(0, 0, 0, Block::Bedrock);
    level.set_block(31, 63, 31, Block::Chest);
    level.set_block(5, 10, 6, Block::Glass);
    assert!(!level.exceeds_minev1_bounds());
    let mv1 = level.write_minev1(McVersion::Classic0_0_12a);
    assert_eq!(mv1.len(), 256 * 64 * 256);
    assert_eq!(mv1[0], 7);
    assert_eq!(mv1[63 * 65536 + 31 * 256 + 31], 0);
    assert_eq!(mv1[10 * 65536 + 6 * 256 + 5], 20);
}

#[test]
fn mine_v1_read_round_trip() {
    assert!(Level::read_minev1(McVersion::Classic0_30, &vec![0u8; 100]).is_err());
    let mut data = vec![0u8; Level::get_minev1_file_size()];
    data[2 * 65536 + 3 * 256 + 4] = 1;
    data[65536 + 255] = 200;
    data[63 * 65536 + 255 * 256 + 255] = 12;
    let level = Level::read_minev1(McVersion::Classic0_30, &data).unwrap();
    assert_eq!(level.get_block(4, 2, 3), Block::Stone);
    assert_eq!(level.get_block(255, 1, 0), Block::Air);
    assert_eq!(level.get_block(255, 63, 255), Block::Sand);
    assert_eq!(level.write_minev1(McVersion::Classic0_30)[2 * 65536 + 3 * 256 + 4], 1);
}

#[test]
fn raw_entity_written_at_its_current_position() {
    let nbt = sign_tag();
    let mut parsed = AlphaBlockEntityParser::parse(McVersion::Alpha1_2_6, &nbt).unwrap();
    parsed.x = 11;
    let written = AlphaBlockEntityParser::write(McVersion::Alpha1_2_6, parsed);
    assert_eq!(written.get::<_, i32>("x").unwrap(), 11);
    assert_eq!(written.get::<_, i32>("z").unwrap(), -5);
    assert_eq!(written.get::<_, &str>("Text1").unwrap(), "hello");
    assert_eq!(written.len(), nbt.len());
}

#[test]
fn raw_capture_without_header_gets_one() {
    let mut capture = NbtCompound::new();
    capture.insert("Note", 5i32);
    let entity = BlockEntity {
        id: "Music".to_string(),
        x: 1,
        y: 2,
        z: 3,
        keep_packed: false,
        data: HasBlockEntity::NotFound("Music".to_string(), capture),
    };
    let written = AlphaBlockEntityParser::write(McVersion::Alpha1_2_6, entity);
    assert_eq!(written.get::<_, &str>("id").unwrap(), "Music");
    assert_eq!(written.get::<_, i32>("y").unwrap(), 2);
    assert_eq!(written.get::<_, i32>("Note").unwrap(), 5);
    assert_eq!(written.len(), 5);
}

#[test]
fn level_consistency_check() {
    let mut level = Level::create_finite(40, 32, 20);
    level.set_block(3, 4, 5, Block::Dirt);
    assert!(level.check_wf());
    level.chunks[0][0].height_map[0] = 9;
    assert!(!level.check_wf());
}
