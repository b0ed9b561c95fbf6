use fuel_core::backend::cf_descriptor_plan;
use fuel_core::backend::cf_opts;
use fuel_core::backend::col_name;
use fuel_core::backend::iter_plan;
use fuel_core::backend::u32_decimal;
use fuel_core::backend::IterPlan;
use fuel_core::backend::OpenFlow;
use fuel_core::backend::OpenPhase;
use fuel_core::backend::ScanMode;
use fuel_core::bytes::key_has_prefix;
use fuel_core::bytes::key_le;
use fuel_core::bytes::key_lt;
use fuel_core::client::CoinType;
use fuel_core::client::CoinConnection;
use fuel_core::client::CoinEdge;
use fuel_core::client::CoinsConnectionArgs;
use fuel_core::client::CoinsToSpendArgs;
use fuel_core::client::ExcludeInput;
use fuel_core::client::MessageCoin;
use fuel_core::client::PageDirection;
use fuel_core::client::PageInfo;
use fuel_core::client::PaginatedResult;
use fuel_core::client::PaginationRequest;
use fuel_core::coin::Coin;
use fuel_core::column::Column;
use fuel_core::column::COLUMN_COUNT;
use fuel_core::fuel_tx;
use fuel_core::iterate::IterDirection;
use fuel_core::producer::dry_run_height;
use fuel_core::producer::dry_run_missing_receipts;
use fuel_core::producer::new_header;
use fuel_core::producer::previous_block_info;
use fuel_core::producer::previous_height;
use fuel_core::producer::select_new_da_height;
use fuel_core::producer::Error;
use fuel_core::producer::PreviousBlockInfo;
use fuel_core::tx_input::Input;
use fuel_core::types::Address;
use fuel_core::types::AssetId;
use fuel_core::types::BlockHeight;
use fuel_core::types::Bytes32;
use fuel_core::types::ContractId;
use fuel_core::types::DaBlockHeight;
use fuel_core::types::Nonce;
use fuel_core::types::Tai64;
use fuel_core::types::TxPointer;
use fuel_core::types::UtxoId;
use fuel_core::types::U64;

#[test]
fn column_ids_are_stable_and_distinct() {
    let all = Column::all();
    assert_eq!(all.len(), COLUMN_COUNT);
    for (i, c) in all.iter().enumerate() {
        assert_eq!(c.id() as usize, i);
    }
    assert_eq!(Column::Metadata.id(), 0);
    assert_eq!(Column::OwnedCoins.id(), 7);
    assert_eq!(Column::OwnedMessageIds.id(), 15);
}

#[test]
fn prefix_indexed_columns_are_the_composite_key_ones() {
    assert!(Column::OwnedCoins.is_prefix_indexed());
    assert!(Column::TransactionsByOwnerBlockIdx.is_prefix_indexed());
    assert!(Column::OwnedMessageIds.is_prefix_indexed());
    assert!(Column::ContractsAssets.is_prefix_indexed());
    assert!(Column::ContractsState.is_prefix_indexed());
    assert!(!Column::Metadata.is_prefix_indexed());
    assert!(!Column::Coins.is_prefix_indexed());
}

#[test]
fn column_names_derive_from_stable_ids() {
    assert_eq!(col_name(Column::Metadata).as_str(), "column-0");
    assert_eq!(col_name(Column::OwnedCoins).as_str(), "column-7");
    assert_eq!(col_name(Column::OwnedMessageIds).as_str(), "column-15");
}

#[test]
fn decimal_formatting_is_exact() {
    assert_eq!(u32_decimal(0).as_str(), "0");
    assert_eq!(u32_decimal(10).as_str(), "10");
    assert_eq!(u32_decimal(255).as_str(), "255");
    assert_eq!(u32_decimal(4294967295).as_str(), "4294967295");
}

#[test]
fn cf_options_enable_compression_and_prefix_extraction() {
    let plain = cf_opts(Column::Metadata);
    assert!(plain.compression_enabled);
    assert_eq!(plain.prefix_extractor_len, None);

    let indexed = cf_opts(Column::OwnedCoins);
    assert!(indexed.compression_enabled);
    assert_eq!(indexed.prefix_extractor_len, Some(32));

    let plan = cf_descriptor_plan(&Column::all());
    assert_eq!(plan.len(), COLUMN_COUNT);
    assert_eq!(plan[0].0.as_str(), "column-0");
    assert_eq!(plan[7].1.prefix_extractor_len, Some(32));
}

#[test]
fn iter_plan_compiles_the_four_cases() {
    let p = vec![0xAA; 32];
    let mut inside = p.clone();
    inside.push(1);
    let outside = vec![0xBB; 33];

    assert!(matches!(
        iter_plan(None, None, IterDirection::Forward),
        IterPlan::Scan { mode: ScanMode::Start, prefix_same_as_start: false, bound: None }
    ));
    assert!(matches!(
        iter_plan(None, None, IterDirection::Reverse),
        IterPlan::Scan { mode: ScanMode::End, .. }
    ));
    match iter_plan(Some(&p), None, IterDirection::Forward) {
        IterPlan::Scan { mode: ScanMode::From(k, d), prefix_same_as_start, bound } => {
            assert_eq!(k, p);
            assert_eq!(d, IterDirection::Forward);
            assert!(prefix_same_as_start);
            assert!(bound.is_none());
        }
        _ => panic!("expected a positioned scan"),
    }
    match iter_plan(Some(&p), Some(&inside), IterDirection::Forward) {
        IterPlan::Scan { mode: ScanMode::From(k, _), prefix_same_as_start, bound } => {
            assert_eq!(k, inside);
            assert!(!prefix_same_as_start);
            assert_eq!(bound, Some(p.clone()));
        }
        _ => panic!("expected a bounded scan"),
    }
    assert!(matches!(
        iter_plan(Some(&p), Some(&outside), IterDirection::Forward),
        IterPlan::Empty
    ));
}

#[test]
fn open_flow_walks_the_fallback_path() {
    let mut flow = OpenFlow::new(vec![Column::Metadata, Column::Coins]);
    assert_eq!(flow.phase(), OpenPhase::Descriptors);

    flow.on_result(false);
    assert_eq!(flow.phase(), OpenPhase::Plain);

    flow.on_result(true);
    assert_eq!(flow.phase(), OpenPhase::Creating(0));
    assert_eq!(flow.creating_column(), Some(Column::Metadata));

    flow.on_result(true);
    assert_eq!(flow.phase(), OpenPhase::Creating(1));
    assert_eq!(flow.creating_column(), Some(Column::Coins));

    flow.on_result(true);
    assert_eq!(flow.phase(), OpenPhase::Ready);
    assert_eq!(flow.creating_column(), None);
}

#[test]
fn open_flow_succeeds_directly_and_fails_fatally() {
    let mut direct = OpenFlow::new(vec![Column::Metadata]);
    direct.on_result(true);
    assert_eq!(direct.phase(), OpenPhase::Ready);

    let mut fatal = OpenFlow::new(vec![Column::Metadata]);
    fatal.on_result(false);
    fatal.on_result(false);
    assert_eq!(fatal.phase(), OpenPhase::Failed);
}

#[test]
fn byte_order_is_lexicographic() {
    assert!(key_lt(&vec![], &vec![0]));
    assert!(key_lt(&vec![1, 2], &vec![1, 2, 0]));
    assert!(key_lt(&vec![1, 2], &vec![2]));
    assert!(!key_lt(&vec![2], &vec![1, 255]));
    assert!(key_le(&vec![1], &vec![1]));
    assert!(key_has_prefix(&vec![1, 2, 3], &vec![1, 2]));
    assert!(!key_has_prefix(&vec![1, 2], &vec![1, 2, 3]));
}

fn hex32(byte: u8) -> String {
    let mut s = String::from("0x");
    for _ in 0..32 {
        s.push_str(&format!("{byte:02x}"));
    }
    s
}

#[test]
fn from_tuple_parses_utxos_and_messages() {
    let mut utxo_str = hex32(0xab);
    utxo_str.push_str("05");
    let nonce_str = hex32(0xcd);

    let parsed = ExcludeInput::from_tuple((vec![utxo_str.as_str()], vec![nonce_str.as_str()]))
        .unwrap();

    assert_eq!(parsed.utxos.len(), 1);
    assert_eq!(parsed.utxos[0].tx_id, Bytes32([0xab; 32]));
    assert_eq!(parsed.utxos[0].output_index, 5);
    assert_eq!(parsed.messages.len(), 1);
    assert_eq!(parsed.messages[0], Nonce([0xcd; 32]));
}

#[test]
fn from_tuple_rejects_malformed_strings() {
    assert!(ExcludeInput::from_tuple((vec!["0x1234"], vec![])).is_err());
    assert!(ExcludeInput::from_tuple((vec![], vec!["not hex"])).is_err());
    let no_prefix = hex32(0x11).replace("0x", "zz");
    assert!(ExcludeInput::from_tuple((vec![], vec![no_prefix.as_str()])).is_err());
}

#[test]
fn coin_type_amounts() {
    let coin = fuel_core::client::Coin {
        amount: U64(15),
        block_created: U64(1),
        asset_id: AssetId([0; 32]),
        utxo_id: UtxoId { tx_id: Bytes32([0; 32]), output_index: 0 },
        maturity: U64(0),
        owner: Address([0; 32]),
    };
    let message = MessageCoin {
        amount: U64(27),
        sender: Address([1; 32]),
        recipient: Address([2; 32]),
        nonce: Nonce([3; 32]),
        da_height: U64(4),
    };
    assert_eq!(CoinType::Coin(coin).amount(), 15);
    assert_eq!(CoinType::MessageCoin(message).amount(), 27);
    assert_eq!(CoinType::Unknown.amount(), 0);
}

#[test]
fn connection_args_follow_the_page_direction() {
    let owner = Address([1; 32]);
    let asset = AssetId([2; 32]);

    let forward = CoinsConnectionArgs::from((
        owner,
        asset,
        PaginationRequest {
            cursor: Some(String::from("cursor")),
            results: 10,
            direction: PageDirection::Forward,
        },
    ));
    assert_eq!(forward.after.as_deref(), Some("cursor"));
    assert_eq!(forward.before, None);
    assert_eq!(forward.first, Some(10));
    assert_eq!(forward.last, None);

    let backward = CoinsConnectionArgs::from((
        owner,
        asset,
        PaginationRequest {
            cursor: Some(String::from("cursor")),
            results: 5,
            direction: PageDirection::Backward,
        },
    ));
    assert_eq!(backward.after, None);
    assert_eq!(backward.before.as_deref(), Some("cursor"));
    assert_eq!(backward.first, None);
    assert_eq!(backward.last, Some(5));
}

#[test]
fn paginated_result_keeps_the_nodes_in_order() {
    let coin = |amount: u64| fuel_core::client::Coin {
        amount: U64(amount),
        block_created: U64(0),
        asset_id: AssetId([0; 32]),
        utxo_id: UtxoId { tx_id: Bytes32([0; 32]), output_index: 0 },
        maturity: U64(0),
        owner: Address([0; 32]),
    };
    let conn = CoinConnection {
        edges: vec![
            CoinEdge { cursor: String::from("a"), node: coin(1) },
            CoinEdge { cursor: String::from("b"), node: coin(2) },
        ],
        page_info: PageInfo {
            end_cursor: Some(String::from("b")),
            has_next_page: true,
            has_previous_page: false,
            start_cursor: Some(String::from("a")),
        },
    };

    let page: PaginatedResult<fuel_core::client::Coin, String> = PaginatedResult::from(conn);
    assert_eq!(page.cursor.as_deref(), Some("b"));
    assert!(page.has_next_page);
    assert!(!page.has_previous_page);
    assert_eq!(page.results.len(), 2);
    assert_eq!(page.results[0].amount, U64(1));
    assert_eq!(page.results[1].amount, U64(2));
}

#[test]
fn coins_to_spend_args_carry_their_tuple() {
    let owner = Address([9; 32]);
    let args = CoinsToSpendArgs::from((owner, vec![], None));
    assert_eq!(args.owner, owner);
    assert!(args.query_per_asset.is_empty());
    assert!(args.excluded_ids.is_none());
}

#[test]
fn coin_compression_round_trips() {
    let coin = Coin {
        utxo_id: UtxoId { tx_id: Bytes32([7; 32]), output_index: 1 },
        owner: Address([1; 32]),
        amount: 1000,
        asset_id: AssetId([2; 32]),
        maturity: BlockHeight(10),
        tx_pointer: TxPointer { block_height: 5, tx_index: 3 },
    };

    let compressed = coin.compress();
    assert_eq!(compressed.owner, coin.owner);
    assert_eq!(compressed.amount, coin.amount);
    assert_eq!(compressed.asset_id, coin.asset_id);
    assert_eq!(compressed.maturity, coin.maturity);
    assert_eq!(compressed.tx_pointer, coin.tx_pointer);

    let restored = compressed.uncompress(coin.utxo_id);
    assert_eq!(restored, coin);
}

#[test]
fn signed_coin_input_maps_to_schema_coin() {
    let domain = fuel_tx::Input::CoinSigned {
        utxo_id: UtxoId { tx_id: Bytes32([1; 32]), output_index: 2 },
        owner: Address([3; 32]),
        amount: 500,
        asset_id: AssetId([4; 32]),
        tx_pointer: TxPointer { block_height: 1, tx_index: 0 },
        witness_index: 7,
        maturity: BlockHeight(9),
    };

    match Input::from(&domain) {
        Input::Coin(c) => {
            assert_eq!(c.utxo_id().output_index, 2);
            assert_eq!(c.owner(), Address([3; 32]));
            assert_eq!(c.amount(), U64(500));
            assert_eq!(c.asset_id(), AssetId([4; 32]));
            assert_eq!(c.witness_index(), 7);
            assert_eq!(c.maturity(), U64(9));
            assert!(c.predicate().0.is_empty());
            assert!(c.predicate_data().0.is_empty());
        }
        _ => panic!("a signed coin maps to a schema coin"),
    }
}

#[test]
fn message_data_predicate_input_maps_to_schema_message() {
    let domain = fuel_tx::Input::MessageDataPredicate {
        sender: Address([1; 32]),
        recipient: Address([2; 32]),
        amount: 77,
        nonce: Nonce([3; 32]),
        data: vec![1, 2],
        predicate: vec![3, 4, 5],
        predicate_data: vec![6],
    };

    match Input::from(&domain) {
        Input::Message(m) => {
            assert_eq!(m.sender(), Address([1; 32]));
            assert_eq!(m.recipient(), Address([2; 32]));
            assert_eq!(m.amount(), U64(77));
            assert_eq!(m.nonce(), Nonce([3; 32]));
            assert_eq!(m.witness_index(), 0);
            assert_eq!(m.data().0, vec![1, 2]);
            assert_eq!(m.predicate().0, vec![3, 4, 5]);
            assert_eq!(m.predicate_data().0, vec![6]);
        }
        _ => panic!("a message input maps to a schema message"),
    }
}

#[test]
fn contract_input_maps_field_for_field() {
    let domain = fuel_tx::Input::Contract {
        utxo_id: UtxoId { tx_id: Bytes32([1; 32]), output_index: 0 },
        balance_root: Bytes32([2; 32]),
        state_root: Bytes32([3; 32]),
        tx_pointer: TxPointer { block_height: 4, tx_index: 5 },
        contract_id: ContractId([6; 32]),
    };

    match Input::from(&domain) {
        Input::Contract(c) => {
            assert_eq!(c.balance_root(), Bytes32([2; 32]));
            assert_eq!(c.state_root(), Bytes32([3; 32]));
            assert_eq!(c.contract(), ContractId([6; 32]));
        }
        _ => panic!("a contract input maps to a schema contract"),
    }
}

#[test]
fn genesis_height_cannot_be_produced() {
    assert_eq!(previous_height(BlockHeight(0)), Err(Error::GenesisBlock));
    assert_eq!(previous_height(BlockHeight(5)), Ok(BlockHeight(4)));
}

#[test]
fn da_height_must_not_move_backwards() {
    assert_eq!(
        select_new_da_height(DaBlockHeight(9), DaBlockHeight(10)),
        Err(Error::InvalidDaFinalizationState {
            best: DaBlockHeight(9),
            previous_block: DaBlockHeight(10),
        })
    );
    assert_eq!(
        select_new_da_height(DaBlockHeight(12), DaBlockHeight(10)),
        Ok(DaBlockHeight(12))
    );
}

#[test]
fn previous_block_context_is_owed_above_genesis() {
    let info = PreviousBlockInfo {
        prev_root: Bytes32([1; 32]),
        da_height: DaBlockHeight(2),
    };
    assert_eq!(
        previous_block_info(BlockHeight(0), Some(info)),
        Err(Error::GenesisBlock)
    );
    assert_eq!(previous_block_info(BlockHeight(5), Some(info)), Ok(info));
    assert_eq!(
        previous_block_info(BlockHeight(5), None),
        Err(Error::MissingBlock(BlockHeight(4)))
    );
}

#[test]
fn dry_run_simulates_one_block_ahead() {
    assert_eq!(
        dry_run_height(Some(BlockHeight(7)), BlockHeight(3)),
        BlockHeight(8)
    );
    assert_eq!(dry_run_height(None, BlockHeight(3)), BlockHeight(4));
}

#[test]
fn a_script_dry_run_owes_receipts() {
    assert!(dry_run_missing_receipts(true, 0));
    assert!(!dry_run_missing_receipts(true, 2));
    assert!(!dry_run_missing_receipts(false, 0));
}

#[test]
fn metrics_count_operations_and_bytes() {
    let mut m = fuel_core::metrics::DatabaseMetrics::new();
    m.record_read(10);
    m.record_read(5);
    m.record_write(3);
    assert_eq!(m.read_ops, 2);
    assert_eq!(m.bytes_read, 15);
    assert_eq!(m.write_ops, 1);
    assert_eq!(m.bytes_written, 3);

    let mut s = fuel_core::metrics::DatabaseMetrics {
        read_ops: u64::MAX,
        write_ops: 0,
        bytes_read: u64::MAX - 1,
        bytes_written: 0,
    };
    s.record_read(10);
    assert_eq!(s.read_ops, u64::MAX);
    assert_eq!(s.bytes_read, u64::MAX);
}

#[test]
fn new_header_chains_over_the_previous_block() {
    let header = new_header(
        BlockHeight(8),
        Tai64(1234),
        PreviousBlockInfo { prev_root: Bytes32([9; 32]), da_height: DaBlockHeight(3) },
        DaBlockHeight(4),
    );
    assert_eq!(header.application.da_height, DaBlockHeight(4));
    assert_eq!(header.consensus.prev_root, Bytes32([9; 32]));
    assert_eq!(header.consensus.height, BlockHeight(8));
    assert_eq!(header.consensus.time, Tai64(1234));
}
