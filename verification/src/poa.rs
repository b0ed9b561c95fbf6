//! The storage-backed port the consensus verifier reads blocks through:
//! a block header lookup by height, composed from the height index and
//! the blocks column.

use vstd::prelude::*;

use crate::column::Column;
use crate::errors::DatabaseResult;
use crate::kv::column_lookup;
use crate::kv::opt_value_view;
use crate::memory::MemoryStore;
use crate::types::BlockHeight;

verus! {

/// The big-endian storage key of a block height.
pub open spec fn height_key_spec(h: u32) -> Seq<u8> {
    seq![
        ((h / 0x1000000) % 0x100) as u8,
        ((h / 0x10000) % 0x100) as u8,
        ((h / 0x100) % 0x100) as u8,
        (h % 0x100) as u8,
    ]
}

/// Executable form of [`height_key_spec`].
pub fn height_key(height: BlockHeight) -> (r: Vec<u8>)
    ensures
        r@ == height_key_spec(height.0),
{
    let h = height.0;
    let mut r: Vec<u8> = Vec::new();
    r.push(((h / 0x1000000) % 0x100) as u8);
    r.push(((h / 0x10000) % 0x100) as u8);
    r.push(((h / 0x100) % 0x100) as u8);
    r.push((h % 0x100) as u8);
    proof {
        assert(r@ =~= height_key_spec(height.0));
    }
    r
}

/// What a header lookup by height denotes over the store model: the
/// height index names the block id, and the blocks column holds the
/// serialized header under that id.
pub open spec fn block_header_lookup(
    v: Seq<Map<Seq<u8>, Seq<u8>>>,
    height: BlockHeight,
) -> Option<Seq<u8>> {
    match column_lookup(
        v[Column::FuelBlockSecondaryKeyBlockHeights.id_spec()],
        height_key_spec(height.0),
    ) {
        Some(block_id) => column_lookup(v[Column::FuelBlocks.id_spec()], block_id),
        None => None,
    }
}

/// The serialized header of the block at `height`, or `None` when no
/// block is committed there: the height index names the block id, and
/// the blocks column is read under that id.
pub fn block_header(store: &MemoryStore, height: BlockHeight) -> (r: DatabaseResult<
    Option<Vec<u8>>,
>)
    requires
        store.inv(),
    ensures
        r matches Ok(header) && opt_value_view(header) == block_header_lookup(
            store.store_view(),
            height,
        ),
{
    let key = height_key(height);
    match store.get(&key, Column::FuelBlockSecondaryKeyBlockHeights) {
        Ok(Some(block_id)) => store.get(&block_id, Column::FuelBlocks),
        Ok(None) => Ok(None),
        Err(e) => {
            proof {
                assert(false);
            }
            Err(e)
        }
    }
}

} // verus!
