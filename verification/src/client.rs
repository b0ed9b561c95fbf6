//! Client-side query schema for coins: the argument and result shapes of
//! the coin queries, pagination, and the conversions that build them.

use vstd::prelude::*;
use vstd::string::StringSliceAdditionalSpecFns;

use crate::types::Address;
use crate::types::AssetId;
use crate::types::ConversionError;
use crate::types::hex_str_wf;
use crate::types::hex_byte_at;
use crate::types::Nonce;
use crate::types::utxo_id_str_wf;
use crate::types::U64;
use crate::types::UtxoId;

verus! {

/// Which way a paginated query walks its results.
#[derive(Copy, Clone, Debug, PartialEq, Eq, Structural)]
pub enum PageDirection {
    /// Ascending, from the cursor onward.
    Forward,
    /// Descending, from the cursor backward.
    Backward,
}

/// One page request of a paginated query.
#[derive(Clone, Debug)]
pub struct PaginationRequest<T> {
    /// The cursor to resume from, if any.
    pub cursor: Option<T>,
    /// Number of results requested.
    pub results: usize,
    /// Which way to walk.
    pub direction: PageDirection,
}

/// One page of results of a paginated query.
#[derive(Clone, Debug)]
pub struct PaginatedResult<T, C> {
    /// The cursor at the end of this page, if any.
    pub cursor: Option<C>,
    /// The results of this page.
    pub results: Vec<T>,
    /// Whether a page follows this one.
    pub has_next_page: bool,
    /// Whether a page precedes this one.
    pub has_previous_page: bool,
}

/// Page metadata of a connection.
#[derive(Clone, Debug)]
pub struct PageInfo {
    /// Cursor of the last edge of the page.
    pub end_cursor: Option<String>,
    /// Whether a page follows.
    pub has_next_page: bool,
    /// Whether a page precedes.
    pub has_previous_page: bool,
    /// Cursor of the first edge of the page.
    pub start_cursor: Option<String>,
}

/// Arguments of the coin-by-id query.
#[derive(Clone, Debug)]
pub struct CoinByIdArgs {
    /// The utxo id to look up.
    pub utxo_id: UtxoId,
}

/// The coin-by-id query result.
#[derive(Clone, Debug)]
pub struct CoinByIdQuery {
    /// The coin, if one exists under the id.
    pub coin: Option<Coin>,
}

/// Filter of the coins query.
#[derive(Clone, Debug)]
pub struct CoinFilterInput {
    /// Filter coins based on the `owner` field.
    pub owner: Address,
    /// Filter coins based on the `asset_id` field.
    pub asset_id: Option<AssetId>,
}

/// Arguments of the paginated coins query.
#[derive(Clone, Debug)]
pub struct CoinsConnectionArgs {
    /// Filter coins based on a filter.
    pub filter: CoinFilterInput,
    /// Skip until coin id (forward pagination).
    pub after: Option<String>,
    /// Skip until coin id (backward pagination).
    pub before: Option<String>,
    /// Retrieve the first n coins in order (forward pagination).
    pub first: Option<i32>,
    /// Retrieve the last n coins in order (backward pagination).
    /// Can't be used at the same time as `first`.
    pub last: Option<i32>,
}

impl CoinsConnectionArgs {
    /// Build the query arguments from an owner, an asset and a page
    /// request: a forward request paginates with `after`/`first`, a
    /// backward one with `before`/`last`.
    pub fn from(r: (Address, AssetId, PaginationRequest<String>)) -> (s: Self)
        ensures
            s.filter.owner == r.0,
            s.filter.asset_id == Some(r.1),
            r.2.direction is Forward ==> {
                &&& s.after == r.2.cursor
                &&& s.before is None
                &&& s.first == Some(r.2.results as i32)
                &&& s.last is None
            },
            r.2.direction is Backward ==> {
                &&& s.after is None
                &&& s.before == r.2.cursor
                &&& s.first is None
                &&& s.last == Some(r.2.results as i32)
            },
    {
        match r.2.direction {
            PageDirection::Forward => CoinsConnectionArgs {
                filter: CoinFilterInput { owner: r.0, asset_id: Some(r.1) },
                after: r.2.cursor,
                before: None,
                first: Some(#[verifier::truncate] (r.2.results as i32)),
                last: None,
            },
            PageDirection::Backward => CoinsConnectionArgs {
                filter: CoinFilterInput { owner: r.0, asset_id: Some(r.1) },
                after: None,
                before: r.2.cursor,
                first: None,
                last: Some(#[verifier::truncate] (r.2.results as i32)),
            },
        }
    }
}

/// The paginated coins query result.
#[derive(Clone, Debug)]
pub struct CoinsQuery {
    /// The page of coins.
    pub coins: CoinConnection,
}

/// One page of coin edges with its page metadata.
#[derive(Clone, Debug)]
pub struct CoinConnection {
    /// The page's edges.
    pub edges: Vec<CoinEdge>,
    /// The page's metadata.
    pub page_info: PageInfo,
}

/// One edge of a coin connection.
#[derive(Clone, Debug)]
pub struct CoinEdge {
    /// Cursor of this edge.
    pub cursor: String,
    /// The coin at this edge.
    pub node: Coin,
}

/// A coin as the query schema carries it.
#[derive(Copy, Clone, Debug)]
pub struct Coin {
    /// Amount of coins.
    pub amount: U64,
    /// Height of the block the coin was created at.
    pub block_created: U64,
    /// The asset the coin is of.
    pub asset_id: AssetId,
    /// The coin's utxo id.
    pub utxo_id: UtxoId,
    /// The coin cannot be spent until this height.
    pub maturity: U64,
    /// The address with permission to spend the coin.
    pub owner: Address,
}

/// The utxo id of a coin, alone.
#[derive(Copy, Clone, Debug)]
pub struct CoinIdFragment {
    /// The coin's utxo id.
    pub utxo_id: UtxoId,
}

impl PaginatedResult<Coin, String> {
    /// Strip a connection down to a page of results: the nodes of its
    /// edges, in order, with the page metadata carried over.
    pub fn from(conn: CoinConnection) -> (r: PaginatedResult<Coin, String>)
        ensures
            r.cursor == conn.page_info.end_cursor,
            r.has_next_page == conn.page_info.has_next_page,
            r.has_previous_page == conn.page_info.has_previous_page,
            r.results@.len() == conn.edges@.len(),
            forall|i: int|
                0 <= i < conn.edges@.len() ==> r.results@[i] == (#[trigger] conn.edges@[
                    i
                ]).node,
    {
        let mut results: Vec<Coin> = Vec::new();
        let mut i: usize = 0;
        let edges = conn.edges;
        while i < edges.len()
            invariant
                i <= edges@.len(),
                results@.len() == i,
                forall|j: int|
                    0 <= j < i ==> results@[j] == (#[trigger] edges@[j]).node,
            decreases edges@.len() - i,
        {
            results.push(edges[i].node);
            i = i + 1;
        }
        PaginatedResult {
            cursor: conn.page_info.end_cursor,
            has_next_page: conn.page_info.has_next_page,
            has_previous_page: conn.page_info.has_previous_page,
            results,
        }
    }
}

/// Utxos and messages to leave out of coin selection.
#[derive(Clone, Debug)]
pub struct ExcludeInput {
    /// Utxos to exclude from the result.
    pub utxos: Vec<UtxoId>,
    /// Messages to exclude from the result.
    pub messages: Vec<Nonce>,
}

impl ExcludeInput {
    /// Read the exclusion lists from their string forms. Succeeds
    /// precisely when every utxo id and every nonce parses.
    pub fn from_tuple(tuple: (Vec<&str>, Vec<&str>)) -> (r: Result<Self, ConversionError>)
        ensures
            r is Ok ==> {
                &&& forall|i: int|
                    0 <= i < tuple.0@.len() ==> utxo_id_str_wf(
                        (#[trigger] tuple.0@[i]).spec_bytes(),
                    )
                &&& forall|i: int|
                    0 <= i < tuple.1@.len() ==> hex_str_wf(
                        (#[trigger] tuple.1@[i]).spec_bytes(),
                        32,
                    )
            },
            r matches Ok(e) ==> {
                &&& e.utxos@.len() == tuple.0@.len()
                &&& e.messages@.len() == tuple.1@.len()
                &&& forall|i: int, j: int|
                    #![trigger e.utxos@[i].tx_id.0@[j]]
                    0 <= i < tuple.0@.len() && 0 <= j < 32
                        ==> e.utxos@[i].tx_id.0@[j] == hex_byte_at(
                        tuple.0@[i].spec_bytes(),
                        j,
                    )
                &&& forall|i: int|
                    0 <= i < tuple.0@.len() ==> (#[trigger] e.utxos@[i]).output_index
                        == hex_byte_at(tuple.0@[i].spec_bytes(), 32)
                &&& forall|i: int, j: int|
                    #![trigger e.messages@[i].0@[j]]
                    0 <= i < tuple.1@.len() && 0 <= j < 32
                        ==> e.messages@[i].0@[j] == hex_byte_at(
                        tuple.1@[i].spec_bytes(),
                        j,
                    )
            },
            r is Err ==> (exists|i: int|
                0 <= i < tuple.0@.len() && !utxo_id_str_wf(
                    (#[trigger] tuple.0@[i]).spec_bytes(),
                )) || (exists|i: int|
                0 <= i < tuple.1@.len() && !hex_str_wf(
                    (#[trigger] tuple.1@[i]).spec_bytes(),
                    32,
                )),
    {
        let mut utxos: Vec<UtxoId> = Vec::new();
        let mut i: usize = 0;
        while i < tuple.0.len()
            invariant
                i <= tuple.0@.len(),
                utxos@.len() == i,
                forall|m: int|
                    0 <= m < i ==> utxo_id_str_wf((#[trigger] tuple.0@[m]).spec_bytes()),
                forall|m: int, j: int|
                    #![trigger utxos@[m].tx_id.0@[j]]
                    0 <= m < i && 0 <= j < 32 ==> utxos@[m].tx_id.0@[j]
                        == hex_byte_at(tuple.0@[m].spec_bytes(), j),
                forall|m: int|
                    0 <= m < i ==> (#[trigger] utxos@[m]).output_index == hex_byte_at(
                        tuple.0@[m].spec_bytes(),
                        32,
                    ),
            decreases tuple.0@.len() - i,
        {
            match UtxoId::from_str(tuple.0[i]) {
                Ok(u) => {
                    utxos.push(u);
                }
                Err(e) => {
                    return Err(e);
                }
            }
            i = i + 1;
        }
        let mut messages: Vec<Nonce> = Vec::new();
        let mut i2: usize = 0;
        while i2 < tuple.1.len()
            invariant
                i2 <= tuple.1@.len(),
                messages@.len() == i2,
                forall|m: int|
                    0 <= m < i2 ==> hex_str_wf((#[trigger] tuple.1@[m]).spec_bytes(), 32),
                forall|m: int, j: int|
                    #![trigger messages@[m].0@[j]]
                    0 <= m < i2 && 0 <= j < 32 ==> messages@[m].0@[j]
                        == hex_byte_at(tuple.1@[m].spec_bytes(), j),
            decreases tuple.1@.len() - i2,
        {
            match Nonce::from_str(tuple.1[i2]) {
                Ok(n) => {
                    messages.push(n);
                }
                Err(e) => {
                    return Err(e);
                }
            }
            i2 = i2 + 1;
        }
        Ok(ExcludeInput { utxos, messages })
    }
}

/// How much of one asset to cover in coin selection.
#[derive(Clone, Debug)]
pub struct SpendQueryElementInput {
    /// Asset id of the coins.
    pub asset_id: AssetId,
    /// The total amount of the asset to cover.
    pub amount: U64,
    /// The maximum number of coins per asset from the owner to return.
    pub max: Option<U64>,
}

/// A bridged message spendable as a coin.
#[derive(Copy, Clone, Debug)]
pub struct MessageCoin {
    /// Amount carried by the message.
    pub amount: U64,
    /// The message's sender.
    pub sender: Address,
    /// The message's recipient, with permission to spend it.
    pub recipient: Address,
    /// The message's nonce.
    pub nonce: Nonce,
    /// Height of the data-availability block the message arrived at.
    pub da_height: U64,
}

/// Either kind of spendable coin, or a kind this client does not know.
#[derive(Clone, Debug)]
pub enum CoinType {
    /// An ordinary coin.
    Coin(Coin),
    /// A bridged message spendable as a coin.
    MessageCoin(MessageCoin),
    /// A kind unknown to this client.
    Unknown,
}

impl CoinType {
    /// The amount the coin carries; an unknown kind carries nothing.
    pub fn amount(&self) -> (r: u64)
        ensures
            r == match self {
                CoinType::Coin(c) => c.amount.0,
                CoinType::MessageCoin(m) => m.amount.0,
                CoinType::Unknown => 0u64,
            },
    {
        match self {
            CoinType::Coin(c) => c.amount.0,
            CoinType::MessageCoin(m) => m.amount.0,
            CoinType::Unknown => 0,
        }
    }
}

/// Arguments of the coins-to-spend query.
#[derive(Clone, Debug)]
pub struct CoinsToSpendArgs {
    /// The address of the assets' coins owner.
    pub owner: Address,
    /// The total amount of each asset type to spend.
    pub query_per_asset: Vec<SpendQueryElementInput>,
    /// A list of ids to exclude from the selection.
    pub excluded_ids: Option<ExcludeInput>,
}

/// The tuple form the coins-to-spend arguments are built from.
pub(crate) type CoinsToSpendArgsTuple = (
    Address,
    Vec<SpendQueryElementInput>,
    Option<ExcludeInput>,
);

impl CoinsToSpendArgs {
    /// Build the query arguments from their tuple form.
    pub fn from(r: CoinsToSpendArgsTuple) -> (s: Self)
        ensures
            s.owner == r.0,
            s.query_per_asset == r.1,
            s.excluded_ids == r.2,
    {
        CoinsToSpendArgs { owner: r.0, query_per_asset: r.1, excluded_ids: r.2 }
    }
}

/// The coins-to-spend query result: one selection per queried asset.
#[derive(Clone, Debug)]
pub struct CoinsToSpendQuery {
    /// The selected coins, grouped per queried asset.
    pub coins_to_spend: Vec<Vec<CoinType>>,
}

} // verus!
