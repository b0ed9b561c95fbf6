//! Decision logic of block production: which heights may be produced,
//! which data-availability height a new block may commit to, and how a
//! new block's header is assembled. The surrounding orchestration (locks,
//! the transaction pool, the executor, the relayer) performs these
//! decisions' outcomes.

use vstd::prelude::*;

use crate::types::BlockHeight;
use crate::types::Bytes32;
use crate::types::DaBlockHeight;
use crate::types::Tai64;

verus! {

/// Failure of block production.
#[derive(Copy, Clone, Debug, PartialEq, Eq, Structural)]
pub enum Error {
    /// 0 is an invalid block height for production. It is reserved for
    /// genesis data.
    GenesisBlock,
    /// The previous block at this height doesn't exist.
    MissingBlock(BlockHeight),
    /// The best finalized da height is behind the previous block's.
    InvalidDaFinalizationState {
        /// The relayer's best finalized height.
        best: DaBlockHeight,
        /// The previous block's da height.
        previous_block: DaBlockHeight,
    },
}

/// What a new block inherits from its predecessor.
#[derive(Copy, Clone, Debug, PartialEq, Eq)]
pub struct PreviousBlockInfo {
    /// Merkle root over the chain up to the previous block.
    pub prev_root: Bytes32,
    /// The previous block's data-availability height.
    pub da_height: DaBlockHeight,
}

/// The application half of a block header under construction.
#[derive(Copy, Clone, Debug, PartialEq, Eq)]
pub struct ApplicationHeader {
    /// The data-availability height the block commits to.
    pub da_height: DaBlockHeight,
}

/// The consensus half of a block header under construction.
#[derive(Copy, Clone, Debug, PartialEq, Eq)]
pub struct ConsensusHeader {
    /// Merkle root over the chain up to the previous block.
    pub prev_root: Bytes32,
    /// The new block's height.
    pub height: BlockHeight,
    /// The new block's timestamp.
    pub time: Tai64,
}

/// A block header under construction: what is known before execution.
#[derive(Copy, Clone, Debug, PartialEq, Eq)]
pub struct PartialBlockHeader {
    /// The application half.
    pub application: ApplicationHeader,
    /// The consensus half.
    pub consensus: ConsensusHeader,
}

/// The height whose block a production attempt at `height` builds on.
/// Height 0 is reserved for genesis and cannot be produced.
pub fn previous_height(height: BlockHeight) -> (r: Result<BlockHeight, Error>)
    ensures
        r == if height.0 == 0 {
            Err::<BlockHeight, Error>(Error::GenesisBlock)
        } else {
            Ok::<BlockHeight, Error>(BlockHeight((height.0 - 1) as u32))
        },
{
    if height.0 == 0 {
        Err(Error::GenesisBlock)
    } else {
        Ok(BlockHeight(height.0 - 1))
    }
}

/// Accept the relayer's best finalized data-availability height for a new
/// block, unless it fell behind the previous block's: a block must never
/// commit to an earlier da height than its predecessor.
pub fn select_new_da_height(
    best_height: DaBlockHeight,
    previous_da_height: DaBlockHeight,
) -> (r: Result<DaBlockHeight, Error>)
    ensures
        r == if best_height.0 < previous_da_height.0 {
            Err::<DaBlockHeight, Error>(Error::InvalidDaFinalizationState {
                best: best_height,
                previous_block: previous_da_height,
            })
        } else {
            Ok::<DaBlockHeight, Error>(best_height)
        },
{
    if best_height.0 < previous_da_height.0 {
        Err(Error::InvalidDaFinalizationState {
            best: best_height,
            previous_block: previous_da_height,
        })
    } else {
        Ok(best_height)
    }
}

/// What a new block at `height` inherits: height 0 is reserved for
/// genesis and cannot be produced, and a missing predecessor is its own
/// failure; otherwise the fetched context passes through.
pub fn previous_block_info(
    height: BlockHeight,
    fetched: Option<PreviousBlockInfo>,
) -> (r: Result<PreviousBlockInfo, Error>)
    ensures
        r == if height.0 == 0 {
            Err::<PreviousBlockInfo, Error>(Error::GenesisBlock)
        } else {
            match fetched {
                Some(info) => Ok::<PreviousBlockInfo, Error>(info),
                None => Err::<PreviousBlockInfo, Error>(
                    Error::MissingBlock(BlockHeight((height.0 - 1) as u32)),
                ),
            }
        },
{
    if height.0 == 0 {
        Err(Error::GenesisBlock)
    } else {
        match fetched {
            Some(info) => Ok(info),
            None => Err(Error::MissingBlock(BlockHeight(height.0 - 1))),
        }
    }
}

/// The height a dry run simulates at: one above the explicitly requested
/// height, or one above the current committed height when none is given.
pub fn dry_run_height(height: Option<BlockHeight>, current_height: BlockHeight) -> (r:
    BlockHeight)
    requires
        (match height {
            Some(h) => h.0,
            None => current_height.0,
        }) < u32::MAX,
    ensures
        r.0 == (match height {
            Some(h) => h.0,
            None => current_height.0,
        }) + 1,
{
    match height {
        Some(h) => BlockHeight(h.0 + 1),
        None => BlockHeight(current_height.0 + 1),
    }
}

/// Whether a finished dry run came back without the receipts it owes: a
/// script must produce at least one set of receipts; any other
/// transaction may produce none.
pub fn dry_run_missing_receipts(is_script: bool, receipt_sets: usize) -> (r: bool)
    ensures
        r == (is_script && receipt_sets == 0),
{
    is_script && receipt_sets == 0
}

/// Assemble the header for a new block at `height`: it commits to the
/// selected data-availability height and chains over the previous
/// block's root at the given time.
pub fn new_header(
    height: BlockHeight,
    block_time: Tai64,
    previous_block: PreviousBlockInfo,
    new_da_height: DaBlockHeight,
) -> (r: PartialBlockHeader)
    ensures
        r.application.da_height == new_da_height,
        r.consensus.prev_root == previous_block.prev_root,
        r.consensus.height == height,
        r.consensus.time == block_time,
{
    PartialBlockHeader {
        application: ApplicationHeader { da_height: new_da_height },
        consensus: ConsensusHeader {
            prev_root: previous_block.prev_root,
            height,
            time: block_time,
        },
    }
}

} // verus!
