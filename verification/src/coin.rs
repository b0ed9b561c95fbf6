//! A user's coin and its compressed on-disk form.

use vstd::prelude::*;

use crate::types::Address;
use crate::types::AssetId;
use crate::types::BlockHeight;
use crate::types::TxPointer;
use crate::types::UtxoId;
use crate::types::Word;

verus! {

/// Represents the user's coin for some asset with `asset_id`.
#[derive(Debug, Copy, Clone, PartialEq, Eq, PartialOrd)]
pub struct Coin {
    /// The coin utxo id.
    pub utxo_id: UtxoId,
    /// The address with permission to spend this coin.
    pub owner: Address,
    /// Amount of coins.
    pub amount: Word,
    /// Different incompatible coins can coexist with different asset ids.
    /// This is the "color" of the coin.
    pub asset_id: AssetId,
    /// This coin cannot be spent until the given height.
    pub maturity: BlockHeight,
    /// Indexes the block and transaction this coin originated from.
    pub tx_pointer: TxPointer,
}

impl Coin {
    /// Compress the coin to minimize the serialized size: every field but
    /// the utxo id carries over, and the utxo id is dropped because the
    /// storage key already holds it.
    pub fn compress(self) -> (r: CompressedCoin)
        ensures
            r.owner == self.owner,
            r.amount == self.amount,
            r.asset_id == self.asset_id,
            r.maturity == self.maturity,
            r.tx_pointer == self.tx_pointer,
    {
        CompressedCoin {
            owner: self.owner,
            amount: self.amount,
            asset_id: self.asset_id,
            maturity: self.maturity,
            tx_pointer: self.tx_pointer,
        }
    }
}

/// The compressed version of the `Coin` with minimum fields required for
/// the proper work of the blockchain.
#[derive(Debug, Copy, Clone, PartialEq, Eq)]
pub struct CompressedCoin {
    /// The address with permission to spend this coin.
    pub owner: Address,
    /// Amount of coins.
    pub amount: Word,
    /// Different incompatible coins can coexist with different asset ids.
    /// This is the "color" of the coin.
    pub asset_id: AssetId,
    /// This coin cannot be spent until the given height.
    pub maturity: BlockHeight,
    /// Indexes the block and transaction this coin originated from.
    pub tx_pointer: TxPointer,
}

impl CompressedCoin {
    /// Uncompress the coin: every field carries over and the utxo id the
    /// coin is stored under is restored.
    pub fn uncompress(self, utxo_id: UtxoId) -> (r: Coin)
        ensures
            r.utxo_id == utxo_id,
            r.owner == self.owner,
            r.amount == self.amount,
            r.asset_id == self.asset_id,
            r.maturity == self.maturity,
            r.tx_pointer == self.tx_pointer,
    {
        Coin {
            utxo_id,
            owner: self.owner,
            amount: self.amount,
            asset_id: self.asset_id,
            maturity: self.maturity,
            tx_pointer: self.tx_pointer,
        }
    }
}

} // verus!
