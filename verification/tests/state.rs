use fuel_core::column::Column;
use fuel_core::errors::DatabaseError;
use fuel_core::iterate::IterDirection;
use fuel_core::kv::WriteOperation;
use fuel_core::memory::MemoryStore;
use fuel_core::poa::block_header;
use fuel_core::poa::height_key;
use fuel_core::types::BlockHeight;
use fuel_core::transaction::MemoryTransactionView;
use fuel_core::transaction::Transaction;
use fuel_core::transaction::TransactionError;

fn create_db() -> MemoryStore {
    MemoryStore::new()
}

#[test]
fn can_put_and_read() {
    let key = vec![0xA, 0xB, 0xC];

    let mut db = create_db();
    db.put(&key, Column::Metadata, vec![1, 2, 3]).unwrap();

    assert_eq!(
        db.get(&key, Column::Metadata).unwrap().unwrap(),
        vec![1, 2, 3]
    )
}

#[test]
fn put_returns_previous_value() {
    let key = vec![0xA, 0xB, 0xC];

    let mut db = create_db();
    db.put(&key, Column::Metadata, vec![1, 2, 3]).unwrap();
    let prev = db.put(&key, Column::Metadata, vec![2, 4, 6]).unwrap();

    assert_eq!(prev, Some(vec![1, 2, 3]));
}

#[test]
fn delete_and_get() {
    let key = vec![0xA, 0xB, 0xC];

    let mut db = create_db();
    db.put(&key, Column::Metadata, vec![1, 2, 3]).unwrap();
    assert_eq!(
        db.get(&key, Column::Metadata).unwrap().unwrap(),
        vec![1, 2, 3]
    );

    db.delete(&key, Column::Metadata).unwrap();
    assert_eq!(db.get(&key, Column::Metadata).unwrap(), None);
}

#[test]
fn key_exists() {
    let key = vec![0xA, 0xB, 0xC];

    let mut db = create_db();
    db.put(&key, Column::Metadata, vec![1, 2, 3]).unwrap();
    assert!(db.key_exists(&key, Column::Metadata).unwrap());
}

#[test]
fn batch_write_inserts() {
    let key = vec![0xA, 0xB, 0xC];
    let value = vec![1, 2, 3];

    let mut db = create_db();
    let ops = vec![WriteOperation::Insert(
        key.clone(),
        Column::Metadata,
        value.clone(),
    )];

    db.batch_write(&ops).unwrap();
    assert_eq!(db.get(&key, Column::Metadata).unwrap().unwrap(), value)
}

#[test]
fn batch_write_removes() {
    let key = vec![0xA, 0xB, 0xC];
    let value = vec![1, 2, 3];

    let mut db = create_db();
    db.put(&key, Column::Metadata, value).unwrap();

    let ops = vec![WriteOperation::Remove(key.clone(), Column::Metadata)];
    db.batch_write(&ops).unwrap();

    assert_eq!(db.get(&key, Column::Metadata).unwrap(), None);
}

#[test]
fn can_use_unit_value() {
    let key = vec![0x00];

    let mut db = create_db();
    db.put(&key, Column::Metadata, vec![]).unwrap();

    assert_eq!(
        db.get(&key, Column::Metadata).unwrap().unwrap(),
        Vec::<u8>::with_capacity(0)
    );

    assert!(db.key_exists(&key, Column::Metadata).unwrap());

    assert_eq!(
        db.iter_all(Column::Metadata, None, None, IterDirection::Forward)
            .unwrap()[0],
        (key.clone(), Vec::<u8>::with_capacity(0))
    );

    assert_eq!(
        db.delete(&key, Column::Metadata).unwrap().unwrap(),
        Vec::<u8>::with_capacity(0)
    );

    assert!(!db.key_exists(&key, Column::Metadata).unwrap());
}

#[test]
fn can_use_unit_key() {
    let key: Vec<u8> = Vec::with_capacity(0);

    let mut db = create_db();
    db.put(&key, Column::Metadata, vec![1, 2, 3]).unwrap();

    assert_eq!(
        db.get(&key, Column::Metadata).unwrap().unwrap(),
        vec![1, 2, 3]
    );

    assert!(db.key_exists(&key, Column::Metadata).unwrap());

    assert_eq!(
        db.iter_all(Column::Metadata, None, None, IterDirection::Forward)
            .unwrap()[0],
        (key.clone(), vec![1, 2, 3])
    );

    assert_eq!(
        db.delete(&key, Column::Metadata).unwrap().unwrap(),
        vec![1, 2, 3]
    );

    assert!(!db.key_exists(&key, Column::Metadata).unwrap());
}

#[test]
fn can_use_unit_key_and_value() {
    let key: Vec<u8> = Vec::with_capacity(0);

    let mut db = create_db();
    db.put(&key, Column::Metadata, vec![]).unwrap();

    assert_eq!(
        db.get(&key, Column::Metadata).unwrap().unwrap(),
        Vec::<u8>::with_capacity(0)
    );

    assert!(db.key_exists(&key, Column::Metadata).unwrap());

    assert_eq!(
        db.iter_all(Column::Metadata, None, None, IterDirection::Forward)
            .unwrap()[0],
        (key.clone(), Vec::<u8>::with_capacity(0))
    );

    assert_eq!(
        db.delete(&key, Column::Metadata).unwrap().unwrap(),
        Vec::<u8>::with_capacity(0)
    );

    assert!(!db.key_exists(&key, Column::Metadata).unwrap());
}

#[test]
fn exists_agrees_with_get() {
    let key = vec![7, 7];
    let absent = vec![8];

    let mut db = create_db();
    db.put(&key, Column::Coins, vec![1]).unwrap();

    assert_eq!(
        db.key_exists(&key, Column::Coins).unwrap(),
        db.get(&key, Column::Coins).unwrap().is_some()
    );
    assert_eq!(
        db.key_exists(&absent, Column::Coins).unwrap(),
        db.get(&absent, Column::Coins).unwrap().is_some()
    );
}

#[test]
fn delete_missing_key_returns_none_and_changes_nothing() {
    let present = vec![1];
    let absent = vec![2];

    let mut db = create_db();
    db.put(&present, Column::Metadata, vec![9]).unwrap();

    assert_eq!(db.delete(&absent, Column::Metadata).unwrap(), None);
    assert_eq!(
        db.get(&present, Column::Metadata).unwrap().unwrap(),
        vec![9]
    );
    assert_eq!(
        db.iter_all(Column::Metadata, None, None, IterDirection::Forward)
            .unwrap()
            .len(),
        1
    );
}

#[test]
fn batch_applies_every_operation() {
    let mut db = create_db();
    db.put(&vec![1], Column::Metadata, vec![10]).unwrap();
    db.put(&vec![2], Column::Metadata, vec![20]).unwrap();

    let ops = vec![
        WriteOperation::Insert(vec![3], Column::Metadata, vec![30]),
        WriteOperation::Remove(vec![1], Column::Metadata),
        WriteOperation::Insert(vec![2], Column::Metadata, vec![21]),
    ];
    db.batch_write(&ops).unwrap();

    assert_eq!(db.get(&vec![1], Column::Metadata).unwrap(), None);
    assert_eq!(db.get(&vec![2], Column::Metadata).unwrap(), Some(vec![21]));
    assert_eq!(db.get(&vec![3], Column::Metadata).unwrap(), Some(vec![30]));
}

#[test]
fn prefix_iteration_yields_only_the_prefix_group() {
    let prefix_a = vec![0xAA; 32];
    let prefix_b = vec![0xBB; 32];
    let mut key_a1 = prefix_a.clone();
    key_a1.push(1);
    let mut key_a2 = prefix_a.clone();
    key_a2.push(2);
    let mut key_b1 = prefix_b.clone();
    key_b1.push(1);

    let mut db = create_db();
    db.put(&key_a2, Column::OwnedCoins, vec![2]).unwrap();
    db.put(&key_b1, Column::OwnedCoins, vec![3]).unwrap();
    db.put(&key_a1, Column::OwnedCoins, vec![1]).unwrap();

    let items = db
        .iter_all(
            Column::OwnedCoins,
            Some(&prefix_a),
            None,
            IterDirection::Forward,
        )
        .unwrap();

    assert_eq!(
        items,
        vec![(key_a1.clone(), vec![1]), (key_a2.clone(), vec![2])]
    );
}

#[test]
fn prefix_start_mismatch_yields_nothing() {
    let prefix_a = vec![0xAA; 32];
    let prefix_b = vec![0xBB; 32];
    let mut key_b1 = prefix_b.clone();
    key_b1.push(1);

    let mut db = create_db();
    let mut key_a1 = prefix_a.clone();
    key_a1.push(1);
    db.put(&key_a1, Column::OwnedCoins, vec![1]).unwrap();
    db.put(&key_b1, Column::OwnedCoins, vec![3]).unwrap();

    let forward = db
        .iter_all(
            Column::OwnedCoins,
            Some(&prefix_a),
            Some(&key_b1),
            IterDirection::Forward,
        )
        .unwrap();
    let reverse = db
        .iter_all(
            Column::OwnedCoins,
            Some(&prefix_a),
            Some(&key_b1),
            IterDirection::Reverse,
        )
        .unwrap();

    assert!(forward.is_empty());
    assert!(reverse.is_empty());
}

#[test]
fn reverse_scan_yields_descending_keys() {
    let mut db = create_db();
    db.put(&vec![1], Column::Metadata, vec![10]).unwrap();
    db.put(&vec![2], Column::Metadata, vec![20]).unwrap();
    db.put(&vec![3], Column::Metadata, vec![30]).unwrap();

    let items = db
        .iter_all(Column::Metadata, None, None, IterDirection::Reverse)
        .unwrap();

    assert_eq!(
        items,
        vec![
            (vec![3], vec![30]),
            (vec![2], vec![20]),
            (vec![1], vec![10]),
        ]
    );
}

#[test]
fn scan_from_start_key_onward() {
    let mut db = create_db();
    db.put(&vec![1], Column::Metadata, vec![10]).unwrap();
    db.put(&vec![2], Column::Metadata, vec![20]).unwrap();
    db.put(&vec![3], Column::Metadata, vec![30]).unwrap();

    let from_two = db
        .iter_all(Column::Metadata, None, Some(&vec![2]), IterDirection::Forward)
        .unwrap();
    assert_eq!(from_two, vec![(vec![2], vec![20]), (vec![3], vec![30])]);

    let down_from_two = db
        .iter_all(Column::Metadata, None, Some(&vec![2]), IterDirection::Reverse)
        .unwrap();
    assert_eq!(down_from_two, vec![(vec![2], vec![20]), (vec![1], vec![10])]);
}

#[test]
fn read_fills_the_buffer_front() {
    let key = vec![5];
    let mut db = create_db();
    db.put(&key, Column::Metadata, vec![1, 2, 3]).unwrap();

    let mut buf = vec![0xFF; 5];
    let n = db.read(&key, Column::Metadata, &mut buf).unwrap();
    assert_eq!(n, Some(3));
    assert_eq!(buf, vec![1, 2, 3, 0xFF, 0xFF]);
}

#[test]
fn read_of_missing_key_returns_none() {
    let db = create_db();
    let mut buf = vec![0u8; 4];
    assert_eq!(db.read(&vec![9], Column::Metadata, &mut buf).unwrap(), None);
    assert_eq!(buf, vec![0u8; 4]);
}

#[test]
fn read_into_too_small_buffer_fails() {
    let key = vec![5];
    let mut db = create_db();
    db.put(&key, Column::Metadata, vec![1, 2, 3]).unwrap();

    let mut buf = vec![0u8; 2];
    let r = db.read(&key, Column::Metadata, &mut buf);
    assert!(matches!(r, Err(DatabaseError::Other(_))));
    assert_eq!(buf, vec![0u8; 2]);
}

#[test]
fn write_reports_bytes_written() {
    let key = vec![6];
    let mut db = create_db();
    let n = db.write(&key, Column::Metadata, vec![1, 2, 3, 4]).unwrap();
    assert_eq!(n, 4);
    assert_eq!(db.read_alloc(&key, Column::Metadata).unwrap(), Some(vec![1, 2, 3, 4]));
}

#[test]
fn replace_returns_size_and_previous_value() {
    let key = vec![7];
    let mut db = create_db();
    db.put(&key, Column::Metadata, vec![1]).unwrap();

    let (n, prev) = db.replace(&key, Column::Metadata, vec![2, 3]).unwrap();
    assert_eq!(n, 2);
    assert_eq!(prev, Some(vec![1]));
    assert_eq!(db.get(&key, Column::Metadata).unwrap(), Some(vec![2, 3]));
}

#[test]
fn take_removes_and_returns_the_value() {
    let key = vec![8];
    let mut db = create_db();
    db.put(&key, Column::Metadata, vec![4, 5]).unwrap();

    assert_eq!(db.take(&key, Column::Metadata).unwrap(), Some(vec![4, 5]));
    assert_eq!(db.get(&key, Column::Metadata).unwrap(), None);
    assert_eq!(db.take(&key, Column::Metadata).unwrap(), None);
}

#[test]
fn size_of_value_reports_length_without_value() {
    let key = vec![9];
    let mut db = create_db();
    db.put(&key, Column::Metadata, vec![1, 2, 3]).unwrap();

    assert_eq!(db.size_of_value(&key, Column::Metadata).unwrap(), Some(3));
    assert_eq!(db.size_of_value(&vec![10], Column::Metadata).unwrap(), None);
}

#[test]
fn columns_are_independent_keyspaces() {
    let key = vec![1];
    let mut db = create_db();
    db.put(&key, Column::Coins, vec![1]).unwrap();

    assert_eq!(db.get(&key, Column::Metadata).unwrap(), None);
    assert_eq!(db.get(&key, Column::Coins).unwrap(), Some(vec![1]));
}

#[test]
fn uncommitted_view_is_invisible_to_base_readers() {
    let key = vec![1];
    let db = create_db();

    let mut view = MemoryTransactionView::new();
    view.put(&db, &key, Column::Metadata, vec![42]).unwrap();

    assert_eq!(db.get(&key, Column::Metadata).unwrap(), None);
    assert_eq!(
        view.get(&db, &key, Column::Metadata).unwrap(),
        Some(vec![42])
    );
}

#[test]
fn committed_view_becomes_visible() {
    let key = vec![1];
    let mut db = create_db();

    let mut view = MemoryTransactionView::new();
    view.put(&db, &key, Column::Metadata, vec![42]).unwrap();
    view.commit(&mut db).unwrap();

    assert_eq!(db.get(&key, Column::Metadata).unwrap(), Some(vec![42]));
}

#[test]
fn aborted_view_never_becomes_visible() {
    let key = vec![1];
    let mut db = create_db();

    let mut view = MemoryTransactionView::new();
    view.put(&db, &key, Column::Metadata, vec![42]).unwrap();
    view.abort();

    assert_eq!(db.get(&key, Column::Metadata).unwrap(), None);
}

#[test]
fn view_reads_its_own_writes_over_the_base() {
    let key = vec![1];
    let other = vec![2];
    let mut db = create_db();
    db.put(&key, Column::Metadata, vec![1]).unwrap();
    db.put(&other, Column::Metadata, vec![2]).unwrap();

    let mut view = MemoryTransactionView::new();
    let prev = view.put(&db, &key, Column::Metadata, vec![9]).unwrap();
    assert_eq!(prev, Some(vec![1]));

    assert_eq!(view.get(&db, &key, Column::Metadata).unwrap(), Some(vec![9]));
    assert_eq!(
        view.get(&db, &other, Column::Metadata).unwrap(),
        Some(vec![2])
    );

    let removed = view.delete(&db, &other, Column::Metadata).unwrap();
    assert_eq!(removed, Some(vec![2]));
    assert_eq!(view.get(&db, &other, Column::Metadata).unwrap(), None);
    assert!(!view.key_exists(&db, &other, Column::Metadata).unwrap());
}

#[test]
fn nested_abort_discards_only_the_inner_level() {
    let outer_key = vec![1];
    let inner_key = vec![2];
    let mut db = create_db();

    let mut view = MemoryTransactionView::new();
    view.put(&db, &outer_key, Column::Metadata, vec![1]).unwrap();

    view.begin_nested();
    view.put(&db, &inner_key, Column::Metadata, vec![2]).unwrap();
    assert_eq!(
        view.get(&db, &inner_key, Column::Metadata).unwrap(),
        Some(vec![2])
    );
    view.abort_nested();

    assert_eq!(view.get(&db, &inner_key, Column::Metadata).unwrap(), None);
    assert_eq!(
        view.get(&db, &outer_key, Column::Metadata).unwrap(),
        Some(vec![1])
    );

    view.commit(&mut db).unwrap();
    assert_eq!(db.get(&outer_key, Column::Metadata).unwrap(), Some(vec![1]));
    assert_eq!(db.get(&inner_key, Column::Metadata).unwrap(), None);
}

#[test]
fn nested_commit_keeps_the_inner_writes_pending() {
    let inner_key = vec![2];
    let mut db = create_db();

    let mut view = MemoryTransactionView::new();
    view.begin_nested();
    view.put(&db, &inner_key, Column::Metadata, vec![2]).unwrap();
    view.commit_nested();

    assert_eq!(
        view.get(&db, &inner_key, Column::Metadata).unwrap(),
        Some(vec![2])
    );
    assert_eq!(db.get(&inner_key, Column::Metadata).unwrap(), None);

    view.commit(&mut db).unwrap();
    assert_eq!(db.get(&inner_key, Column::Metadata).unwrap(), Some(vec![2]));
}

#[test]
fn view_offers_the_full_storage_surface() {
    let key = vec![1];
    let mut db = create_db();
    db.put(&key, Column::Metadata, vec![1]).unwrap();

    let mut view = MemoryTransactionView::new();
    let n = view.write(&db, &key, Column::Metadata, vec![2, 3]).unwrap();
    assert_eq!(n, 2);
    assert_eq!(view.size_of_value(&db, &key, Column::Metadata).unwrap(), Some(2));
    assert_eq!(
        view.read_alloc(&db, &key, Column::Metadata).unwrap(),
        Some(vec![2, 3])
    );

    let mut buf = vec![0u8; 3];
    assert_eq!(view.read(&db, &key, Column::Metadata, &mut buf).unwrap(), Some(2));
    assert_eq!(buf, vec![2, 3, 0]);

    let (n, prev) = view.replace(&db, &key, Column::Metadata, vec![4]).unwrap();
    assert_eq!((n, prev), (1, Some(vec![2, 3])));

    assert_eq!(view.take(&db, &key, Column::Metadata).unwrap(), Some(vec![4]));
    assert_eq!(view.get(&db, &key, Column::Metadata).unwrap(), None);
    assert_eq!(db.get(&key, Column::Metadata).unwrap(), Some(vec![1]));
}

#[test]
fn transaction_applies_on_success_and_discards_on_failure() {
    let key = vec![1];
    let mut db = create_db();

    let mut view = MemoryTransactionView::new();
    view.put(&db, &key, Column::Metadata, vec![1]).unwrap();
    let r = db.transaction(view, Ok(()));
    assert!(r.is_ok());
    assert_eq!(db.get(&key, Column::Metadata).unwrap(), Some(vec![1]));

    let mut failing = MemoryTransactionView::new();
    failing
        .put(&db, &key, Column::Metadata, vec![2])
        .unwrap();
    let r = db.transaction::<()>(failing, Err(TransactionError::Aborted));
    assert_eq!(r, Err(TransactionError::Aborted));
    assert_eq!(db.get(&key, Column::Metadata).unwrap(), Some(vec![1]));
}

#[test]
fn block_header_composes_the_height_index_and_the_blocks_column() {
    let mut db = create_db();
    let block_id = vec![0xEE; 32];
    let header_bytes = vec![1, 2, 3, 4];

    db.put(
        &height_key(BlockHeight(7)),
        Column::FuelBlockSecondaryKeyBlockHeights,
        block_id.clone(),
    )
    .unwrap();
    db.put(&block_id, Column::FuelBlocks, header_bytes.clone())
        .unwrap();

    assert_eq!(height_key(BlockHeight(7)), vec![0, 0, 0, 7]);
    assert_eq!(height_key(BlockHeight(0x01020304)), vec![1, 2, 3, 4]);
    assert_eq!(
        block_header(&db, BlockHeight(7)).unwrap(),
        Some(header_bytes)
    );
    assert_eq!(block_header(&db, BlockHeight(8)).unwrap(), None);
}

#[test]
fn backend_error_carries_its_message() {
    let e = DatabaseError::other("backend failure");
    assert_eq!(e.message(), "backend failure");
}
