use rusqlite::Connection;
use sqlite_async_bench::workload::{
    block_to_write, can_write, count_rows_read, pause_before_write, seed_database,
    transactions_to_write, BlockRow, ReadRow, TransactionRow, INSERT_BLOCK, INSERT_TRANSACTION,
    READ_AFTER, READ_TRANSACTIONS, SCHEMA,
};

fn insert_block(conn: &Connection, row: &BlockRow) {
    conn.execute(
        INSERT_BLOCK,
        (&row.hash, &row.parent_hash, row.timestamp, &row.data),
    )
    .unwrap();
}

fn insert_transaction(conn: &Connection, row: &TransactionRow) {
    conn.execute(
        INSERT_TRANSACTION,
        (row.block_id, &row.from_account, &row.to_account, row.amount),
    )
    .unwrap();
}

fn new_database() -> Connection {
    let conn = Connection::open_in_memory().unwrap();
    conn.execute_batch(SCHEMA).unwrap();
    for seed in seed_database() {
        insert_block(&conn, &seed.block);
        for row in &seed.transactions {
            insert_transaction(&conn, row);
        }
    }
    conn
}

fn read(conn: &Connection) -> Vec<Option<ReadRow>> {
    let mut statement = conn.prepare_cached(READ_TRANSACTIONS).unwrap();
    statement
        .query_map((READ_AFTER,), |row| {
            Ok(ReadRow {
                hash: row.get(0)?,
                timestamp: row.get(1)?,
                from_account: row.get(2)?,
                to_account: row.get(3)?,
                amount: row.get(4)?,
            })
        })
        .unwrap()
        .map(|row| row.ok())
        .collect()
}

fn count(conn: &Connection, table: &str) -> i64 {
    conn.query_row(&format!("SELECT COUNT(*) FROM {}", table), (), |row| row.get(0)).unwrap()
}

#[test]
fn first_seed_block_has_no_parent() {
    let seeds = seed_database();
    assert_eq!(seeds.len(), 100);
    assert_eq!(seeds[0].block.hash, "hash_0");
    assert_eq!(seeds[0].block.parent_hash, None);
    assert_eq!(seeds[0].block.timestamp, 1000000);
    assert_eq!(seeds[0].block.data, vec![0u8; 256]);
}

#[test]
fn seed_blocks_point_at_their_predecessors() {
    let seeds = seed_database();
    for i in 1..seeds.len() {
        assert_eq!(seeds[i].block.parent_hash.as_ref(), Some(&seeds[i - 1].block.hash));
        assert_eq!(seeds[i].block.timestamp, seeds[i - 1].block.timestamp + 1);
    }
    assert_eq!(seeds[99].block.hash, "hash_99");
    assert_eq!(seeds[99].block.timestamp, 1000099);
}

#[test]
fn seed_transactions_of_a_block() {
    let seeds = seed_database();
    let rows = &seeds[47].transactions;
    assert_eq!(rows.len(), 5);
    assert_eq!(rows[0].block_id, 48);
    assert_eq!(rows[0].from_account, "account_47");
    assert_eq!(rows[0].to_account, "account_48");
    assert_eq!(rows[0].amount, 1000);
    assert_eq!(rows[2].from_account, "account_49");
    assert_eq!(rows[2].to_account, "account_0");
    assert_eq!(rows[4].from_account, "account_1");
    assert_eq!(rows[4].amount, 1004);
}

#[test]
fn seed_transactions_pass_money_on() {
    for seed in seed_database() {
        for pair in seed.transactions.windows(2) {
            assert_eq!(pair[0].to_account, pair[1].from_account);
            assert_ne!(pair[0].from_account, pair[0].to_account);
        }
    }
}

#[test]
fn writes_pause_only_for_a_delay() {
    assert_eq!(pause_before_write(0), None);
    assert_eq!(pause_before_write(1), Some(1));
    assert_eq!(pause_before_write(10000), Some(10000));
}

#[test]
fn written_block_by_number() {
    assert!(can_write(20005));
    let row = block_to_write(20005);
    assert_eq!(row.hash, "hash_21005");
    assert_eq!(row.parent_hash, Some(String::from("hash_21004")));
    assert_eq!(row.timestamp, 2020005);
    assert_eq!(row.data, vec![0u8; 256]);
}

#[test]
fn written_blocks_point_at_their_predecessors() {
    let (first, second) = (block_to_write(10), block_to_write(11));
    assert_eq!(second.parent_hash, Some(first.hash));
    assert_eq!(second.timestamp, first.timestamp + 1);
}

#[test]
fn written_transactions_by_number() {
    let rows = transactions_to_write(101, 48);
    assert_eq!(rows.len(), 3);
    let flat: Vec<(i64, &str, &str, i64)> = rows
        .iter()
        .map(|r| (r.block_id, r.from_account.as_str(), r.to_account.as_str(), r.amount))
        .collect();
    assert_eq!(
        flat,
        vec![
            (101, "account_48", "account_49", 2000),
            (101, "account_49", "account_0", 2001),
            (101, "account_0", "account_1", 2002),
        ]
    );
}

#[test]
fn block_numbers_at_the_limits() {
    let top = i64::MAX as u64;
    assert!(can_write(0));
    assert!(can_write(top - 2000000));
    assert!(!can_write(top - 1999999));
    assert!(!can_write(top));
    assert!(can_write(top + 1));
    assert!(can_write(u64::MAX - 1000));
    assert!(!can_write(u64::MAX - 999));
    assert_eq!(block_to_write(top - 2000000).timestamp, i64::MAX);
    assert_eq!(block_to_write(top + 1).timestamp, i64::MIN + 2000000);
    assert_eq!(block_to_write(u64::MAX - 1000).timestamp, 2000000 - 1001);
}

#[test]
fn unreadable_rows_are_passed_over() {
    let row = || {
        Some(ReadRow {
            hash: String::from("hash_1"),
            timestamp: 1000001,
            from_account: String::from("account_1"),
            to_account: String::from("account_2"),
            amount: 1000,
        })
    };
    assert_eq!(count_rows_read(&vec![]), 0);
    assert_eq!(count_rows_read(&vec![None, None]), 0);
    assert_eq!(count_rows_read(&vec![row(), None, row(), row()]), 3);
}

#[test]
fn new_database_holds_the_seed() {
    let conn = new_database();
    assert_eq!(count(&conn, "blocks"), 100);
    assert_eq!(count(&conn, "transactions"), 500);
    let orphans: i64 = conn
        .query_row(
            "SELECT COUNT(*) FROM transactions t LEFT JOIN blocks b ON b.id = t.block_id
             WHERE b.id IS NULL",
            (),
            |row| row.get(0),
        )
        .unwrap();
    assert_eq!(orphans, 0);
}

#[test]
fn reading_gives_the_latest_fifty() {
    let conn = new_database();
    let rows = read(&conn);
    assert_eq!(count_rows_read(&rows), 50);
    let first = rows[0].as_ref().unwrap();
    assert_eq!(first.hash, "hash_99");
    assert_eq!(first.timestamp, 1000099);
    assert_eq!(rows[49].as_ref().unwrap().hash, "hash_90");
}

#[test]
fn written_blocks_are_read_first() {
    let conn = new_database();
    for block_num in 0..2 {
        insert_block(&conn, &block_to_write(block_num));
        for row in &transactions_to_write(conn.last_insert_rowid(), block_num) {
            insert_transaction(&conn, row);
        }
    }
    assert_eq!(count(&conn, "blocks"), 102);
    assert_eq!(count(&conn, "transactions"), 506);
    let rows = read(&conn);
    assert_eq!(count_rows_read(&rows), 50);
    let hashes: Vec<&str> =
        rows.iter().take(7).map(|row| row.as_ref().unwrap().hash.as_str()).collect();
    assert_eq!(
        hashes,
        vec![
            "hash_1001",
            "hash_1001",
            "hash_1001",
            "hash_1000",
            "hash_1000",
            "hash_1000",
            "hash_99",
        ]
    );
}
