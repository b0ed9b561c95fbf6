//! Column-namespaced, byte-oriented key-value storage core for a blockchain
//! full node: the storage interface contract, an in-memory backing store with
//! directional, prefix-bounded iteration and atomic batch application, the
//! planning logic for an on-disk backing engine, and the nested transactional
//! view used to stage speculative state changes before committing them.

pub mod backend;
pub mod bytes;
pub mod client;
pub mod coin;
pub mod column;
pub mod errors;
pub mod fuel_tx;
pub mod iterate;
pub mod kv;
pub mod laws;
pub mod memory;
pub mod metrics;
pub mod p2p_messages;
pub mod poa;
pub mod producer;
pub mod transaction;
pub mod tx_input;
pub mod types;
