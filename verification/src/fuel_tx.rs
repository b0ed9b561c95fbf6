//! The transaction-input domain type: every kind of input a transaction
//! can spend, with the fields each kind carries.

use vstd::prelude::*;

use crate::types::Address;
use crate::types::AssetId;
use crate::types::BlockHeight;
use crate::types::Bytes32;
use crate::types::ContractId;
use crate::types::Nonce;
use crate::types::TxPointer;
use crate::types::UtxoId;
use crate::types::Word;

verus! {

/// One input of a transaction.
#[derive(Clone, Debug)]
pub enum Input {
    /// A coin spent with a witness signature.
    CoinSigned {
        /// The coin's utxo id.
        utxo_id: UtxoId,
        /// The coin's owner.
        owner: Address,
        /// Amount carried.
        amount: Word,
        /// Asset of the coin.
        asset_id: AssetId,
        /// Origin of the coin.
        tx_pointer: TxPointer,
        /// Index of the witness that signs.
        witness_index: u8,
        /// The coin cannot be spent before this height.
        maturity: BlockHeight,
    },
    /// A coin spent under a predicate.
    CoinPredicate {
        /// The coin's utxo id.
        utxo_id: UtxoId,
        /// The coin's owner.
        owner: Address,
        /// Amount carried.
        amount: Word,
        /// Asset of the coin.
        asset_id: AssetId,
        /// Origin of the coin.
        tx_pointer: TxPointer,
        /// The coin cannot be spent before this height.
        maturity: BlockHeight,
        /// The predicate bytecode.
        predicate: Vec<u8>,
        /// The predicate's input data.
        predicate_data: Vec<u8>,
    },
    /// A contract the transaction touches.
    Contract {
        /// The contract's current utxo id.
        utxo_id: UtxoId,
        /// Root of the contract's balances.
        balance_root: Bytes32,
        /// Root of the contract's state.
        state_root: Bytes32,
        /// Origin of the contract's utxo.
        tx_pointer: TxPointer,
        /// The contract's id.
        contract_id: ContractId,
    },
    /// A bridged message coin spent with a witness signature.
    MessageCoinSigned {
        /// The message's sender.
        sender: Address,
        /// The message's recipient.
        recipient: Address,
        /// Amount carried.
        amount: Word,
        /// The message's nonce.
        nonce: Nonce,
        /// Index of the witness that signs.
        witness_index: u8,
    },
    /// A bridged message coin spent under a predicate.
    MessageCoinPredicate {
        /// The message's sender.
        sender: Address,
        /// The message's recipient.
        recipient: Address,
        /// Amount carried.
        amount: Word,
        /// The message's nonce.
        nonce: Nonce,
        /// The predicate bytecode.
        predicate: Vec<u8>,
        /// The predicate's input data.
        predicate_data: Vec<u8>,
    },
    /// A bridged message with data, spent with a witness signature.
    MessageDataSigned {
        /// The message's sender.
        sender: Address,
        /// The message's recipient.
        recipient: Address,
        /// Amount carried.
        amount: Word,
        /// The message's nonce.
        nonce: Nonce,
        /// Index of the witness that signs.
        witness_index: u8,
        /// The message's data.
        data: Vec<u8>,
    },
    /// A bridged message with data, spent under a predicate.
    MessageDataPredicate {
        /// The message's sender.
        sender: Address,
        /// The message's recipient.
        recipient: Address,
        /// Amount carried.
        amount: Word,
        /// The message's nonce.
        nonce: Nonce,
        /// The message's data.
        data: Vec<u8>,
        /// The predicate bytecode.
        predicate: Vec<u8>,
        /// The predicate's input data.
        predicate_data: Vec<u8>,
    },
}

} // verus!
