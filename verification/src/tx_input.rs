//! The query schema's view of a transaction input, and the conversion
//! from the domain type: signed and predicate coins collapse into one
//! coin shape, the message kinds into one message shape, with absent
//! fields defaulted.

use vstd::prelude::*;

use crate::fuel_tx;
use crate::types::Address;
use crate::types::AssetId;
use crate::types::Bytes32;
use crate::types::ContractId;
use crate::types::HexString;
use crate::types::Nonce;
use crate::types::TxPointer;
use crate::types::U64;
use crate::types::UtxoId;

verus! {

/// A transaction input as the query schema carries it.
#[derive(Clone, Debug)]
pub enum Input {
    /// A spent coin.
    Coin(InputCoin),
    /// A touched contract.
    Contract(InputContract),
    /// A spent bridged message.
    Message(InputMessage),
}

/// A spent coin as the query schema carries it.
#[derive(Clone, Debug)]
pub struct InputCoin {
    /// The coin's utxo id.
    pub utxo_id: UtxoId,
    /// The coin's owner.
    pub owner: Address,
    /// Amount carried.
    pub amount: U64,
    /// Asset of the coin.
    pub asset_id: AssetId,
    /// Origin of the coin.
    pub tx_pointer: TxPointer,
    /// Index of the witness that signs, zero under a predicate.
    pub witness_index: u8,
    /// The coin cannot be spent before this height.
    pub maturity: U64,
    /// The predicate bytecode, empty for a signed coin.
    pub predicate: HexString,
    /// The predicate's input data, empty for a signed coin.
    pub predicate_data: HexString,
}

impl InputCoin {
    /// The coin's utxo id.
    pub fn utxo_id(&self) -> (r: UtxoId)
        ensures
            r == self.utxo_id,
    {
        self.utxo_id
    }

    /// The coin's owner.
    pub fn owner(&self) -> (r: Address)
        ensures
            r == self.owner,
    {
        self.owner
    }

    /// Amount carried.
    pub fn amount(&self) -> (r: U64)
        ensures
            r == self.amount,
    {
        self.amount
    }

    /// Asset of the coin.
    pub fn asset_id(&self) -> (r: AssetId)
        ensures
            r == self.asset_id,
    {
        self.asset_id
    }

    /// Origin of the coin.
    pub fn tx_pointer(&self) -> (r: TxPointer)
        ensures
            r == self.tx_pointer,
    {
        self.tx_pointer
    }

    /// Index of the witness that signs.
    pub fn witness_index(&self) -> (r: u8)
        ensures
            r == self.witness_index,
    {
        self.witness_index
    }

    /// The coin cannot be spent before this height.
    pub fn maturity(&self) -> (r: U64)
        ensures
            r == self.maturity,
    {
        self.maturity
    }

    /// The predicate bytecode.
    pub fn predicate(&self) -> (r: &HexString)
        ensures
            r == self.predicate,
    {
        &self.predicate
    }

    /// The predicate's input data.
    pub fn predicate_data(&self) -> (r: &HexString)
        ensures
            r == self.predicate_data,
    {
        &self.predicate_data
    }
}

/// A touched contract as the query schema carries it.
#[derive(Clone, Debug)]
pub struct InputContract {
    /// The contract's current utxo id.
    pub utxo_id: UtxoId,
    /// Root of the contract's balances.
    pub balance_root: Bytes32,
    /// Root of the contract's state.
    pub state_root: Bytes32,
    /// Origin of the contract's utxo.
    pub tx_pointer: TxPointer,
    /// The contract's id.
    pub contract_id: ContractId,
}

impl InputContract {
    /// The contract's current utxo id.
    pub fn utxo_id(&self) -> (r: UtxoId)
        ensures
            r == self.utxo_id,
    {
        self.utxo_id
    }

    /// Root of the contract's balances.
    pub fn balance_root(&self) -> (r: Bytes32)
        ensures
            r == self.balance_root,
    {
        self.balance_root
    }

    /// Root of the contract's state.
    pub fn state_root(&self) -> (r: Bytes32)
        ensures
            r == self.state_root,
    {
        self.state_root
    }

    /// Origin of the contract's utxo.
    pub fn tx_pointer(&self) -> (r: TxPointer)
        ensures
            r == self.tx_pointer,
    {
        self.tx_pointer
    }

    /// The contract's id.
    pub fn contract(&self) -> (r: ContractId)
        ensures
            r == self.contract_id,
    {
        self.contract_id
    }
}

/// A spent bridged message as the query schema carries it.
#[derive(Clone, Debug)]
pub struct InputMessage {
    /// The message's sender.
    pub sender: Address,
    /// The message's recipient.
    pub recipient: Address,
    /// Amount carried.
    pub amount: U64,
    /// The message's nonce.
    pub nonce: Nonce,
    /// Index of the witness that signs, zero under a predicate.
    pub witness_index: u8,
    /// The message's data, empty for a plain message coin.
    pub data: HexString,
    /// The predicate bytecode, empty for a signed message.
    pub predicate: HexString,
    /// The predicate's input data, empty for a signed message.
    pub predicate_data: HexString,
}

impl InputMessage {
    /// The message's sender.
    pub fn sender(&self) -> (r: Address)
        ensures
            r == self.sender,
    {
        self.sender
    }

    /// The message's recipient.
    pub fn recipient(&self) -> (r: Address)
        ensures
            r == self.recipient,
    {
        self.recipient
    }

    /// Amount carried.
    pub fn amount(&self) -> (r: U64)
        ensures
            r == self.amount,
    {
        self.amount
    }

    /// The message's nonce.
    pub fn nonce(&self) -> (r: Nonce)
        ensures
            r == self.nonce,
    {
        self.nonce
    }

    /// Index of the witness that signs.
    pub fn witness_index(&self) -> (r: u8)
        ensures
            r == self.witness_index,
    {
        self.witness_index
    }

    /// The message's data.
    pub fn data(&self) -> (r: &HexString)
        ensures
            r == self.data,
    {
        &self.data
    }

    /// The predicate bytecode.
    pub fn predicate(&self) -> (r: &HexString)
        ensures
            r == self.predicate,
    {
        &self.predicate
    }

    /// The predicate's input data.
    pub fn predicate_data(&self) -> (r: &HexString)
        ensures
            r == self.predicate_data,
    {
        &self.predicate_data
    }
}

impl Input {
    /// The schema's view of one domain input: both coin kinds become a
    /// schema coin (a signed coin with empty predicate fields, a
    /// predicate coin with witness index zero), the contract carries
    /// over field for field, and the three message kinds become a schema
    /// message with their absent fields empty or zero.
    pub fn from(input: &fuel_tx::Input) -> (r: Self)
        ensures
            match *input {
                fuel_tx::Input::CoinSigned {
                    utxo_id,
                    owner,
                    amount,
                    asset_id,
                    tx_pointer,
                    witness_index,
                    maturity,
                } => {
                    &&& r matches Input::Coin(c)
                    &&& c.utxo_id == utxo_id
                    &&& c.owner == owner
                    &&& c.amount == U64(amount)
                    &&& c.asset_id == asset_id
                    &&& c.tx_pointer == tx_pointer
                    &&& c.witness_index == witness_index
                    &&& c.maturity == U64(maturity.0 as u64)
                    &&& c.predicate.0@ == Seq::<u8>::empty()
                    &&& c.predicate_data.0@ == Seq::<u8>::empty()
                },
                fuel_tx::Input::CoinPredicate {
                    utxo_id,
                    owner,
                    amount,
                    asset_id,
                    tx_pointer,
                    maturity,
                    predicate,
                    predicate_data,
                } => {
                    &&& r matches Input::Coin(c)
                    &&& c.utxo_id == utxo_id
                    &&& c.owner == owner
                    &&& c.amount == U64(amount)
                    &&& c.asset_id == asset_id
                    &&& c.tx_pointer == tx_pointer
                    &&& c.witness_index == 0
                    &&& c.maturity == U64(maturity.0 as u64)
                    &&& c.predicate.0@ == predicate@
                    &&& c.predicate_data.0@ == predicate_data@
                },
                fuel_tx::Input::Contract {
                    utxo_id,
                    balance_root,
                    state_root,
                    tx_pointer,
                    contract_id,
                } => {
                    &&& r matches Input::Contract(c)
                    &&& c.utxo_id == utxo_id
                    &&& c.balance_root == balance_root
                    &&& c.state_root == state_root
                    &&& c.tx_pointer == tx_pointer
                    &&& c.contract_id == contract_id
                },
                fuel_tx::Input::MessageCoinSigned {
                    sender,
                    recipient,
                    amount,
                    nonce,
                    witness_index,
                } => {
                    &&& r matches Input::Message(m)
                    &&& m.sender == sender
                    &&& m.recipient == recipient
                    &&& m.amount == U64(amount)
                    &&& m.nonce == nonce
                    &&& m.witness_index == witness_index
                    &&& m.data.0@ == Seq::<u8>::empty()
                    &&& m.predicate.0@ == Seq::<u8>::empty()
                    &&& m.predicate_data.0@ == Seq::<u8>::empty()
                },
                fuel_tx::Input::MessageCoinPredicate {
                    sender,
                    recipient,
                    amount,
                    nonce,
                    predicate,
                    predicate_data,
                } => {
                    &&& r matches Input::Message(m)
                    &&& m.sender == sender
                    &&& m.recipient == recipient
                    &&& m.amount == U64(amount)
                    &&& m.nonce == nonce
                    &&& m.witness_index == 0
                    &&& m.data.0@ == Seq::<u8>::empty()
                    &&& m.predicate.0@ == predicate@
                    &&& m.predicate_data.0@ == predicate_data@
                },
                fuel_tx::Input::MessageDataSigned {
                    sender,
                    recipient,
                    amount,
                    nonce,
                    witness_index,
                    data,
                } => {
                    &&& r matches Input::Message(m)
                    &&& m.sender == sender
                    &&& m.recipient == recipient
                    &&& m.amount == U64(amount)
                    &&& m.nonce == nonce
                    &&& m.witness_index == witness_index
                    &&& m.data.0@ == data@
                    &&& m.predicate.0@ == Seq::<u8>::empty()
                    &&& m.predicate_data.0@ == Seq::<u8>::empty()
                },
                fuel_tx::Input::MessageDataPredicate {
                    sender,
                    recipient,
                    amount,
                    nonce,
                    data,
                    predicate,
                    predicate_data,
                } => {
                    &&& r matches Input::Message(m)
                    &&& m.sender == sender
                    &&& m.recipient == recipient
                    &&& m.amount == U64(amount)
                    &&& m.nonce == nonce
                    &&& m.witness_index == 0
                    &&& m.data.0@ == data@
                    &&& m.predicate.0@ == predicate@
                    &&& m.predicate_data.0@ == predicate_data@
                },
            },
    {
        match input {
            fuel_tx::Input::CoinSigned {
                utxo_id,
                owner,
                amount,
                asset_id,
                tx_pointer,
                witness_index,
                maturity,
            } => Input::Coin(InputCoin {
                utxo_id: *utxo_id,
                owner: *owner,
                amount: U64(*amount),
                asset_id: *asset_id,
                tx_pointer: *tx_pointer,
                witness_index: *witness_index,
                maturity: U64(maturity.0 as u64),
                predicate: HexString(Vec::new()),
                predicate_data: HexString(Vec::new()),
            }),
            fuel_tx::Input::CoinPredicate {
                utxo_id,
                owner,
                amount,
                asset_id,
                tx_pointer,
                maturity,
                predicate,
                predicate_data,
            } => Input::Coin(InputCoin {
                utxo_id: *utxo_id,
                owner: *owner,
                amount: U64(*amount),
                asset_id: *asset_id,
                tx_pointer: *tx_pointer,
                witness_index: 0,
                maturity: U64(maturity.0 as u64),
                predicate: HexString(crate::bytes::clone_bytes(predicate)),
                predicate_data: HexString(crate::bytes::clone_bytes(predicate_data)),
            }),
            fuel_tx::Input::Contract {
                utxo_id,
                balance_root,
                state_root,
                tx_pointer,
                contract_id,
            } => Input::Contract(InputContract {
                utxo_id: *utxo_id,
                balance_root: *balance_root,
                state_root: *state_root,
                tx_pointer: *tx_pointer,
                contract_id: *contract_id,
            }),
            fuel_tx::Input::MessageCoinSigned {
                sender,
                recipient,
                amount,
                nonce,
                witness_index,
            } => Input::Message(InputMessage {
                sender: *sender,
                recipient: *recipient,
                amount: U64(*amount),
                nonce: *nonce,
                witness_index: *witness_index,
                data: HexString(Vec::new()),
                predicate: HexString(Vec::new()),
                predicate_data: HexString(Vec::new()),
            }),
            fuel_tx::Input::MessageCoinPredicate {
                sender,
                recipient,
                amount,
                nonce,
                predicate,
                predicate_data,
            } => Input::Message(InputMessage {
                sender: *sender,
                recipient: *recipient,
                amount: U64(*amount),
                nonce: *nonce,
                witness_index: 0,
                data: HexString(Vec::new()),
                predicate: HexString(crate::bytes::clone_bytes(predicate)),
                predicate_data: HexString(crate::bytes::clone_bytes(predicate_data)),
            }),
            fuel_tx::Input::MessageDataSigned {
                sender,
                recipient,
                amount,
                nonce,
                witness_index,
                data,
            } => Input::Message(InputMessage {
                sender: *sender,
                recipient: *recipient,
                amount: U64(*amount),
                nonce: *nonce,
                witness_index: *witness_index,
                data: HexString(crate::bytes::clone_bytes(data)),
                predicate: HexString(Vec::new()),
                predicate_data: HexString(Vec::new()),
            }),
            fuel_tx::Input::MessageDataPredicate {
                sender,
                recipient,
                amount,
                nonce,
                data,
                predicate,
                predicate_data,
            } => Input::Message(InputMessage {
                sender: *sender,
                recipient: *recipient,
                amount: U64(*amount),
                nonce: *nonce,
                witness_index: 0,
                data: HexString(crate::bytes::clone_bytes(data)),
                predicate: HexString(crate::bytes::clone_bytes(predicate)),
                predicate_data: HexString(crate::bytes::clone_bytes(predicate_data)),
            }),
        }
    }
}

} // verus!
