//! The column schema: a closed, enumerable set of logical namespaces.
//!
//! Each column is an independent keyspace identified by a stable small
//! integer. The identifier of an existing column must never change across
//! releases: the on-disk namespace name is derived from it, and renumbering
//! silently orphans persisted data. New columns are appended at the end.

use vstd::prelude::*;

verus! {

/// Number of declared columns.
pub const COLUMN_COUNT: usize = 16;

/// Length, in bytes, of the fixed entity-identifier prefix of composite keys
/// (an address or contract id), used for prefix-bounded iteration.
pub const COMPOSITE_KEY_PREFIX_LEN: usize = 32;

/// A logical table of the store. The declaration order fixes the stable
/// numeric identifier of each column: do not reorder or remove variants.
#[derive(Copy, Clone, Debug, PartialEq, Eq, Structural)]
pub enum Column {
    /// Database metadata (versioning, chain identity).
    Metadata,
    /// Contract bytecode, keyed by contract id.
    ContractsRawCode,
    /// Contract salt and root metadata, keyed by contract id.
    ContractsInfo,
    /// Contract storage slots, keyed by contract id followed by slot key.
    ContractsState,
    /// Latest utxo of each contract, keyed by contract id.
    ContractsLatestUtxo,
    /// Contract asset balances, keyed by contract id followed by asset id.
    ContractsAssets,
    /// Coins, keyed by utxo id.
    Coins,
    /// Owner index of coins, keyed by owner address followed by utxo id.
    OwnedCoins,
    /// Transactions, keyed by transaction id.
    Transactions,
    /// Owner index of transactions, keyed by owner address followed by
    /// block and transaction index.
    TransactionsByOwnerBlockIdx,
    /// Transaction receipts, keyed by transaction id.
    Receipts,
    /// Blocks, keyed by block id.
    FuelBlocks,
    /// Secondary index from block height to block id.
    FuelBlockSecondaryKeyBlockHeights,
    /// Consensus seal of each block, keyed by block id.
    SealedBlockConsensus,
    /// Bridged messages, keyed by nonce.
    Messages,
    /// Owner index of messages, keyed by owner address followed by nonce.
    OwnedMessageIds,
}

impl Column {
    /// The stable numeric identifier of the column.
    pub open spec fn id_spec(self) -> int {
        match self {
            Column::Metadata => 0,
            Column::ContractsRawCode => 1,
            Column::ContractsInfo => 2,
            Column::ContractsState => 3,
            Column::ContractsLatestUtxo => 4,
            Column::ContractsAssets => 5,
            Column::Coins => 6,
            Column::OwnedCoins => 7,
            Column::Transactions => 8,
            Column::TransactionsByOwnerBlockIdx => 9,
            Column::Receipts => 10,
            Column::FuelBlocks => 11,
            Column::FuelBlockSecondaryKeyBlockHeights => 12,
            Column::SealedBlockConsensus => 13,
            Column::Messages => 14,
            Column::OwnedMessageIds => 15,
        }
    }

    /// The stable numeric identifier of the column.
    pub fn id(self) -> (r: u32)
        ensures
            r as int == self.id_spec(),
            0 <= self.id_spec() < COLUMN_COUNT as int,
    {
        match self {
            Column::Metadata => 0,
            Column::ContractsRawCode => 1,
            Column::ContractsInfo => 2,
            Column::ContractsState => 3,
            Column::ContractsLatestUtxo => 4,
            Column::ContractsAssets => 5,
            Column::Coins => 6,
            Column::OwnedCoins => 7,
            Column::Transactions => 8,
            Column::TransactionsByOwnerBlockIdx => 9,
            Column::Receipts => 10,
            Column::FuelBlocks => 11,
            Column::FuelBlockSecondaryKeyBlockHeights => 12,
            Column::SealedBlockConsensus => 13,
            Column::Messages => 14,
            Column::OwnedMessageIds => 15,
        }
    }

    /// The identifier of every column lies below `COLUMN_COUNT`.
    pub proof fn lemma_id_in_range(self)
        ensures
            0 <= self.id_spec() < COLUMN_COUNT as int,
    {
    }

    /// Whether the column carries composite keys (a 32-byte entity
    /// identifier followed by a suffix) and is therefore configured with a
    /// fixed-width prefix extractor in the backing engine.
    pub open spec fn is_prefix_indexed_spec(self) -> bool {
        match self {
            Column::OwnedCoins => true,
            Column::TransactionsByOwnerBlockIdx => true,
            Column::OwnedMessageIds => true,
            Column::ContractsAssets => true,
            Column::ContractsState => true,
            _ => false,
        }
    }

    /// Executable form of [`Column::is_prefix_indexed_spec`].
    pub fn is_prefix_indexed(self) -> (r: bool)
        ensures
            r == self.is_prefix_indexed_spec(),
    {
        match self {
            Column::OwnedCoins => true,
            Column::TransactionsByOwnerBlockIdx => true,
            Column::OwnedMessageIds => true,
            Column::ContractsAssets => true,
            Column::ContractsState => true,
            _ => false,
        }
    }

    /// Every declared column, in identifier order.
    pub fn all() -> (r: Vec<Column>)
        ensures
            r@.len() == COLUMN_COUNT as int,
            forall|i: int| 0 <= i < r@.len() ==> (#[trigger] r@[i]).id_spec() == i,
    {
        let mut r: Vec<Column> = Vec::new();
        r.push(Column::Metadata);
        r.push(Column::ContractsRawCode);
        r.push(Column::ContractsInfo);
        r.push(Column::ContractsState);
        r.push(Column::ContractsLatestUtxo);
        r.push(Column::ContractsAssets);
        r.push(Column::Coins);
        r.push(Column::OwnedCoins);
        r.push(Column::Transactions);
        r.push(Column::TransactionsByOwnerBlockIdx);
        r.push(Column::Receipts);
        r.push(Column::FuelBlocks);
        r.push(Column::FuelBlockSecondaryKeyBlockHeights);
        r.push(Column::SealedBlockConsensus);
        r.push(Column::Messages);
        r.push(Column::OwnedMessageIds);
        r
    }
}

} // verus!
