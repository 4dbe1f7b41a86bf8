use vstd::prelude::*;
use quartz_nbt::{NbtCompound, NbtList, NbtTag};
use crate::block::McVersion;

verus! {

#[verifier::external_type_specification]
#[verifier::external_body]
pub struct ExNbtCompound(NbtCompound);

#[verifier::external_type_specification]
#[verifier::external_body]
pub struct ExNbtList(NbtList);

/// Needed because `NbtList` dereferences to a slice of tags.
#[verifier::external_type_specification]
#[verifier::external_body]
pub struct ExNbtTag(NbtTag);

/// A tag of a compound as the logic reads it.
pub enum NbtValue {
    Byte(i8),
    Short(i16),
    Int(i32),
    Str(Seq<char>),
    /// A list, element by element.
    List(Seq<NbtValue>),
    /// A nested compound, by tag name.
    Compound(Map<Seq<char>, NbtValue>),
    /// Any other kind of tag.
    Other,
}

/// What a compound holds, by tag name.
pub uninterp spec fn nbt_entries(c: NbtCompound) -> Map<Seq<char>, NbtValue>;

/// What a list holds, element by element.
pub uninterp spec fn nbt_list_items(l: NbtList) -> Seq<NbtValue>;

/// Relies on NbtCompound::new: an empty compound.
#[verifier::external_body]
fn nbt_new() -> (r: NbtCompound)
    ensures
        nbt_entries(r) =~= Map::empty(),
{
    NbtCompound::new()
}

/// Relies on NbtCompound's derived Clone: the copy equals the original.
#[verifier::external_body]
fn nbt_clone(c: &NbtCompound) -> (r: NbtCompound)
    ensures
        r == *c,
{
    c.clone()
}

/// Relies on NbtCompound::get into `&str`: the text of a string tag, and an
/// error when the tag is missing or of another kind.
#[verifier::external_body]
fn nbt_get_str(c: &NbtCompound, key: &str) -> (r: Option<String>)
    ensures
        r is Some <==> (nbt_entries(*c).contains_key(key@) && nbt_entries(*c)[key@] is Str),
        r is Some ==> nbt_entries(*c)[key@] == NbtValue::Str(r->0@),
{
    match c.get::<_, &str>(key) {
        Ok(s) => Some(s.to_owned()),
        Err(_) => None,
    }
}

/// Relies on NbtCompound::get into `i32`: the value of an int tag, and an
/// error when the tag is missing or of another kind.
#[verifier::external_body]
fn nbt_get_int(c: &NbtCompound, key: &str) -> (r: Option<i32>)
    ensures
        r is Some <==> (nbt_entries(*c).contains_key(key@) && nbt_entries(*c)[key@] is Int),
        r is Some ==> nbt_entries(*c)[key@] == NbtValue::Int(r->0),
{
    match c.get::<_, i32>(key) {
        Ok(v) => Some(v),
        Err(_) => None,
    }
}

/// Relies on NbtCompound::insert of a `&str`: a string tag under `key`,
/// replacing any tag of that name.
#[verifier::external_body]
fn nbt_insert_str(c: &mut NbtCompound, key: &str, value: &str)
    ensures
        nbt_entries(*final(c)) == nbt_entries(*old(c)).insert(key@, NbtValue::Str(value@)),
{
    c.insert(key, value)
}

/// Relies on NbtCompound::insert of an `i32`: an int tag under `key`.
#[verifier::external_body]
fn nbt_insert_int(c: &mut NbtCompound, key: &str, value: i32)
    ensures
        nbt_entries(*final(c)) == nbt_entries(*old(c)).insert(key@, NbtValue::Int(value)),
{
    c.insert(key, value)
}

/// Relies on NbtCompound::insert of an `i16`: a short tag under `key`.
#[verifier::external_body]
fn nbt_insert_short(c: &mut NbtCompound, key: &str, value: i16)
    ensures
        nbt_entries(*final(c)) == nbt_entries(*old(c)).insert(key@, NbtValue::Short(value)),
{
    c.insert(key, value)
}

/// Relies on NbtCompound::insert of an `i8`: a byte tag under `key`.
#[verifier::external_body]
fn nbt_insert_byte(c: &mut NbtCompound, key: &str, value: i8)
    ensures
        nbt_entries(*final(c)) == nbt_entries(*old(c)).insert(key@, NbtValue::Byte(value)),
{
    c.insert(key, value)
}

/// Relies on NbtCompound::insert of an `NbtList`: a list tag under `key`.
#[verifier::external_body]
fn nbt_insert_list(c: &mut NbtCompound, key: &str, value: NbtList)
    ensures
        nbt_entries(*final(c)) == nbt_entries(*old(c)).insert(key@, NbtValue::List(nbt_list_items(value))),
{
    c.insert(key, value)
}

/// Relies on NbtList::new: an empty list.
#[verifier::external_body]
fn nbt_list_new() -> (r: NbtList)
    ensures
        nbt_list_items(r) =~= Seq::empty(),
{
    NbtList::new()
}

/// Relies on NbtList::push of an `NbtCompound`: a compound tag appended at
/// the end.
#[verifier::external_body]
fn nbt_list_push(l: &mut NbtList, value: NbtCompound)
    ensures
        nbt_list_items(*final(l)) == nbt_list_items(*old(l)).push(NbtValue::Compound(nbt_entries(value))),
{
    l.push(value)
}

/// One stack of items in a container slot.
#[derive(PartialEq, Eq, Structural, Clone, Copy, Debug)]
pub struct Item {
    pub id: u16,
    pub slot: i8,
    pub count: u8,
}

/// Whether a container is locked.
#[derive(PartialEq, Eq, Structural, Clone, Copy, Debug)]
pub struct LockableContainer {
    pub lock: bool,
}

/// The loot table a container is filled from, and its seed.
#[derive(Debug)]
pub struct LootTable {
    pub name: String,
    pub seed: i64,
}

/// The block-entity kinds whose payload is modelled.
#[derive(Debug)]
pub enum BlockEntityType {
    Chest { items: Vec<Item>, lockable_container: LockableContainer, loot_table: LootTable },
}

/// A block entity's payload: a modelled kind, or the original compound of
/// a kind that is not modelled, kept whole so that it can be written back.
pub enum HasBlockEntity {
    Found(BlockEntityType),
    NotFound(String, NbtCompound),
}

/// Data attached to one block position that the block id cannot carry.
pub struct BlockEntity {
    pub id: String,
    pub x: i32,
    pub y: i32,
    pub z: i32,
    pub keep_packed: bool,
    pub data: HasBlockEntity,
}

/// The compound holds the kind and position tags that every entity needs.
pub open spec fn has_header(c: NbtCompound) -> bool {
    let m = nbt_entries(c);
    &&& m.contains_key("id"@) && m["id"@] is Str
    &&& m.contains_key("x"@) && m["x"@] is Int
    &&& m.contains_key("y"@) && m["y"@] is Int
    &&& m.contains_key("z"@) && m["z"@] is Int
}

/// `e` is what parsing the compound `c` yields.
pub open spec fn parsed_from(c: NbtCompound, e: BlockEntity) -> bool {
    let m = nbt_entries(c);
    &&& has_header(c)
    &&& m["id"@] == NbtValue::Str(e.id@)
    &&& m["x"@] == NbtValue::Int(e.x)
    &&& m["y"@] == NbtValue::Int(e.y)
    &&& m["z"@] == NbtValue::Int(e.z)
    &&& !e.keep_packed
    &&& if e.id@ == "Chest"@ {
        match e.data {
            HasBlockEntity::Found(BlockEntityType::Chest { items, lockable_container, loot_table }) => {
                &&& items@.len() == 0
                &&& !lockable_container.lock
                &&& loot_table.name@.len() == 0
                &&& loot_table.seed == 0
            },
            HasBlockEntity::NotFound(_, _) => false,
        }
    } else {
        match e.data {
            HasBlockEntity::NotFound(kind, raw) => kind@ == e.id@ && raw == c,
            HasBlockEntity::Found(_) => false,
        }
    }
}

/// The kind and position tags written for an entity.
pub open spec fn header_entries(e: BlockEntity) -> Map<Seq<char>, NbtValue> {
    Map::empty().insert("id"@, NbtValue::Str(e.id@)).insert("x"@, NbtValue::Int(e.x)).insert(
        "y"@,
        NbtValue::Int(e.y),
    ).insert("z"@, NbtValue::Int(e.z))
}

/// The tags of one item stack in the alpha layout.
pub open spec fn item_entries(item: Item) -> Map<Seq<char>, NbtValue> {
    Map::empty().insert("id"@, NbtValue::Short(item.id as i16)).insert(
        "Slot"@,
        NbtValue::Byte(item.slot),
    ).insert("Count"@, NbtValue::Short(item.count as i16))
}

/// The item list of a chest in the alpha layout, in slot-list order.
pub open spec fn items_value(items: Seq<Item>) -> NbtValue {
    NbtValue::List(Seq::new(items.len(), |i: int| NbtValue::Compound(item_entries(items[i]))))
}

/// The compound already carries exactly the entity's kind and position.
pub open spec fn header_matches(c: NbtCompound, e: BlockEntity) -> bool {
    header_entries(e).submap_of(nbt_entries(c))
}

/// `out` is what writing `e` for version `v` yields. Every output carries
/// the entity's kind and position. A captured compound keeps all its other
/// tags, and comes back unchanged when its kind and position already agree;
/// a chest in the alpha layout gets its item list; other kinds and versions
/// get the kind and position tags only.
pub open spec fn written_as(v: McVersion, e: BlockEntity, out: NbtCompound) -> bool {
    match e.data {
        HasBlockEntity::NotFound(_, raw) => {
            &&& nbt_entries(out) == nbt_entries(raw).union_prefer_right(header_entries(e))
            &&& header_matches(raw, e) ==> out == raw
        },
        HasBlockEntity::Found(BlockEntityType::Chest { items, .. }) => if v == McVersion::Alpha1_2_6
            && e.id@ == "Chest"@ {
            nbt_entries(out) == header_entries(e).insert("items"@, items_value(items@))
        } else {
            nbt_entries(out) == header_entries(e)
        },
    }
}

/// Reads and writes block entities in the alpha-era tag layout.
pub struct AlphaBlockEntityParser;

impl AlphaBlockEntityParser {
    /// Reads a block entity; `None` when the kind or a position tag is
    /// missing or of the wrong type. A kind that is not modelled keeps the
    /// whole compound.
    pub fn parse(version: McVersion, nbt: &NbtCompound) -> (r: Option<BlockEntity>)
        ensures
            r is None <==> !has_header(*nbt),
            r matches Option::Some(e) ==> parsed_from(*nbt, e),
    {
        let id = match nbt_get_str(nbt, "id") {
            Some(s) => s,
            None => return None,
        };
        let x = match nbt_get_int(nbt, "x") {
            Some(v) => v,
            None => return None,
        };
        let y = match nbt_get_int(nbt, "y") {
            Some(v) => v,
            None => return None,
        };
        let z = match nbt_get_int(nbt, "z") {
            Some(v) => v,
            None => return None,
        };
        let chest = "Chest".to_owned();
        proof {
            reveal_strlit("Chest");
        }
        let data = if id == chest {
            HasBlockEntity::Found(
                BlockEntityType::Chest {
                    items: Vec::new(),
                    lockable_container: LockableContainer { lock: false },
                    loot_table: LootTable { name: String::new(), seed: 0 },
                },
            )
        } else {
            HasBlockEntity::NotFound(id.clone(), nbt_clone(nbt))
        };
        Some(BlockEntity { id, x, y, z, keep_packed: false, data })
    }

    /// The tag of one item stack in the alpha layout.
    fn item_tag(item: &Item) -> (r: NbtCompound)
        ensures
            nbt_entries(r) == item_entries(*item),
    {
        let mut tag = nbt_new();
        nbt_insert_short(&mut tag, "id", item.id as i16);
        nbt_insert_byte(&mut tag, "Slot", item.slot);
        nbt_insert_short(&mut tag, "Count", item.count as i16);
        tag
    }

    /// Whether a compound already carries exactly this kind and position.
    fn header_matches(c: &NbtCompound, id: &String, x: i32, y: i32, z: i32) -> (r: bool)
        ensures
            r == header_entries(
                BlockEntity {
                    id: *id,
                    x,
                    y,
                    z,
                    keep_packed: false,
                    data: HasBlockEntity::NotFound(*id, *c),
                },
            ).submap_of(nbt_entries(*c)),
    {
        let ghost h = header_entries(
            BlockEntity {
                id: *id,
                x,
                y,
                z,
                keep_packed: false,
                data: HasBlockEntity::NotFound(*id, *c),
            },
        );
        let ghost m = nbt_entries(*c);
        proof {
            reveal_strlit("id");
            reveal_strlit("x");
            reveal_strlit("y");
            reveal_strlit("z");
            assert("id"@.len() == 2 && "x"@.len() == 1 && "y"@.len() == 1 && "z"@.len() == 1);
            assert("x"@[0] == 'x' && "y"@[0] == 'y' && "z"@[0] == 'z');
            assert("id"@ != "x"@ && "id"@ != "y"@ && "id"@ != "z"@);
            assert("x"@ != "y"@ && "x"@ != "z"@ && "y"@ != "z"@);
            assert(h.dom() =~= set!["id"@, "x"@, "y"@, "z"@]);
        }
        let same_id = match nbt_get_str(c, "id") {
            Some(s) => s == *id,
            None => false,
        };
        let same_x = match nbt_get_int(c, "x") {
            Some(v) => v == x,
            None => false,
        };
        let same_y = match nbt_get_int(c, "y") {
            Some(v) => v == y,
            None => false,
        };
        let same_z = match nbt_get_int(c, "z") {
            Some(v) => v == z,
            None => false,
        };
        assert(same_id == (m.contains_key("id"@) && m["id"@] == NbtValue::Str(id@)));
        assert(same_x == (m.contains_key("x"@) && m["x"@] == NbtValue::Int(x)));
        assert(same_y == (m.contains_key("y"@) && m["y"@] == NbtValue::Int(y)));
        assert(same_z == (m.contains_key("z"@) && m["z"@] == NbtValue::Int(z)));
        let r = same_id && same_x && same_y && same_z;
        proof {
            assert(h["id"@] == NbtValue::Str(id@));
            assert(h["x"@] == NbtValue::Int(x));
            assert(h["y"@] == NbtValue::Int(y));
            assert(h["z"@] == NbtValue::Int(z));
            if r {
                assert forall|k: Seq<char>| #[trigger] h.contains_key(k) implies m.contains_key(k)
                    && m[k] == h[k] by {
                    assert(k == "id"@ || k == "x"@ || k == "y"@ || k == "z"@);
                }
            } else if h.submap_of(m) {
                assert(h.contains_key("id"@) && h.contains_key("x"@) && h.contains_key("y"@)
                    && h.contains_key("z"@));
                assert(m["id"@] == h["id"@]);
                assert(m["x"@] == h["x"@]);
                assert(m["y"@] == h["y"@]);
                assert(m["z"@] == h["z"@]);
            }
        }
        r
    }

    /// Writes a block entity for a version. Every output carries the
    /// entity's kind and position. A captured compound keeps all its other
    /// tags (and is returned as it is when its kind and position already
    /// agree); a chest in the alpha layout gets its item list; other kinds
    /// and versions get the kind and position tags only.
    pub fn write(version: McVersion, block_entity: BlockEntity) -> (r: NbtCompound)
        ensures
            written_as(version, block_entity, r),
    {
        let ghost e = block_entity;
        let BlockEntity { id, x, y, z, keep_packed: _, data } = block_entity;
        match data {
            HasBlockEntity::NotFound(_, raw) => {
                let matches = Self::header_matches(&raw, &id, x, y, z);
                proof {
                    assert(header_entries(
                        BlockEntity {
                            id,
                            x,
                            y,
                            z,
                            keep_packed: false,
                            data: HasBlockEntity::NotFound(id, raw),
                        },
                    ) == header_entries(e));
                }
                if matches {
                    proof {
                        assert(nbt_entries(raw).union_prefer_right(header_entries(e)) =~= nbt_entries(raw));
                    }
                    raw
                } else {
                    let mut nbt = raw;
                    nbt_insert_str(&mut nbt, "id", id.as_str());
                    nbt_insert_int(&mut nbt, "x", x);
                    nbt_insert_int(&mut nbt, "y", y);
                    nbt_insert_int(&mut nbt, "z", z);
                    proof {
                        assert(nbt_entries(nbt) =~= nbt_entries(raw).union_prefer_right(header_entries(e)));
                    }
                    nbt
                }
            },
            HasBlockEntity::Found(BlockEntityType::Chest { items, .. }) => {
                let mut nbt = nbt_new();
                nbt_insert_str(&mut nbt, "id", id.as_str());
                nbt_insert_int(&mut nbt, "x", x);
                nbt_insert_int(&mut nbt, "y", y);
                nbt_insert_int(&mut nbt, "z", z);
                assert(nbt_entries(nbt) == header_entries(e));
                let chest = "Chest".to_owned();
                proof {
                    reveal_strlit("Chest");
                }
                if version == McVersion::Alpha1_2_6 && id == chest {
                    let mut item_list = nbt_list_new();
                    let mut i: usize = 0;
                    while i < items.len()
                        invariant
                            i <= items@.len(),
                            nbt_list_items(item_list) =~= Seq::new(
                                i as nat,
                                |j: int| NbtValue::Compound(item_entries(items@[j])),
                            ),
                        decreases items@.len() - i,
                    {
                        let tag = Self::item_tag(&items[i]);
                        nbt_list_push(&mut item_list, tag);
                        i = i + 1;
                    }
                    nbt_insert_list(&mut nbt, "items", item_list);
                }
                nbt
            },
        }
    }
}

/// Writing back a block entity whose kind is not modelled gives exactly the
/// compound it was parsed from, for the same version.
pub proof fn lemma_raw_round_trip(
    version: McVersion,
    nbt: NbtCompound,
    parsed: BlockEntity,
    written: NbtCompound,
)
    requires
        parsed_from(nbt, parsed),
        parsed.data is NotFound,
        written_as(version, parsed, written),
    ensures
        written == nbt,
{
}

} // verus!
