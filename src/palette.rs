use vstd::prelude::*;
use std::collections::BTreeMap;
use crate::block::Block;
use palettevec::PaletteVec;
use palettevec::palette::hybrid::HybridPalette;
use palettevec::index_buffer::aligned::AlignedIndexBuffer;

verus! {

/// A palette-compressed sequence of blocks, backed by `palettevec`.
#[verifier::external_body]
pub struct BlockPalette {
    inner: PaletteVec<Block, HybridPalette<64, Block>, AlignedIndexBuffer>,
}

/// A palette-compressed sequence of string-keyed state maps, backed by
/// `palettevec`; equal maps share one palette entry.
#[verifier::external_body]
pub struct StatePalette {
    inner: PaletteVec<
        BTreeMap<String, String>,
        HybridPalette<64, BTreeMap<String, String>>,
        AlignedIndexBuffer,
    >,
}

/// What a block palette holds, slot by slot.
pub uninterp spec fn block_slots(v: BlockPalette) -> Seq<Block>;

/// What a state palette holds, slot by slot.
pub uninterp spec fn state_slots(v: StatePalette) -> Seq<Map<String, String>>;

impl BlockPalette {
    /// Relies on PaletteVec::filled: `len` slots, each holding `value`. The
    /// palette entry's count is a `u32` and must not be zero.
    #[verifier::external_body]
    pub(crate) fn filled(value: Block, len: usize) -> (r: BlockPalette)
        requires
            0 < len <= 4294967295,
        ensures
            block_slots(r) == Seq::new(len as nat, |_i: int| value),
    {
        BlockPalette { inner: PaletteVec::filled(value, len) }
    }

    /// Relies on PaletteVec::len: the number of slots.
    #[verifier::external_body]
    pub(crate) fn len(&self) -> (r: usize)
        ensures
            r == block_slots(*self).len(),
    {
        self.inner.len()
    }

    /// Relies on PaletteVec::get: the value in slot `i`, which exists.
    #[verifier::external_body]
    pub(crate) fn get(&self, i: usize) -> (r: Block)
        requires
            i < block_slots(*self).len(),
        ensures
            r == block_slots(*self)[i as int],
    {
        *self.inner.get(i).unwrap()
    }

    /// Relies on PaletteVec::set: slot `i` holds `value`, the others are kept.
    #[verifier::external_body]
    pub(crate) fn set(&mut self, i: usize, value: &Block)
        requires
            i < block_slots(*old(self)).len(),
        ensures
            block_slots(*final(self)) == block_slots(*old(self)).update(i as int, *value),
    {
        self.inner.set(i, value)
    }
}

impl StatePalette {
    /// Relies on PaletteVec::filled: `len` slots, each holding `value`. The
    /// palette entry's count is a `u32` and must not be zero.
    #[verifier::external_body]
    pub(crate) fn filled(value: BTreeMap<String, String>, len: usize) -> (r: StatePalette)
        requires
            0 < len <= 4294967295,
        ensures
            state_slots(r) == Seq::new(len as nat, |_i: int| value@),
    {
        StatePalette { inner: PaletteVec::filled(value, len) }
    }

    /// Relies on PaletteVec::len: the number of slots.
    #[verifier::external_body]
    pub(crate) fn len(&self) -> (r: usize)
        ensures
            r == state_slots(*self).len(),
    {
        self.inner.len()
    }

    /// Relies on PaletteVec::get: a copy of the map in slot `i`, which exists.
    #[verifier::external_body]
    pub(crate) fn get(&self, i: usize) -> (r: BTreeMap<String, String>)
        requires
            i < state_slots(*self).len(),
        ensures
            r@ == state_slots(*self)[i as int],
    {
        self.inner.get(i).unwrap().clone()
    }

    /// Relies on PaletteVec::set: slot `i` holds a map equal to `value`, the
    /// others are kept; the palette entry that other slots share is untouched.
    #[verifier::external_body]
    pub(crate) fn set(&mut self, i: usize, value: &BTreeMap<String, String>)
        requires
            i < state_slots(*old(self)).len(),
        ensures
            state_slots(*final(self)) == state_slots(*old(self)).update(i as int, value@),
    {
        self.inner.set(i, value)
    }
}

/// Relies on BTreeMap::insert: the key maps to the value afterwards and every
/// other key keeps its value (String's order agrees with its equality).
#[verifier::external_body]
pub(crate) fn insert_state(m: &mut BTreeMap<String, String>, key: String, value: String)
    ensures
        final(m)@ == old(m)@.insert(key, value),
{
    m.insert(key, value);
}

} // verus!
