//! The rows with which a database is filled, written to and read from.

use crate::text;
use vstd::prelude::*;

verus! {

// ---------------------------------------------------------------------------
// Statements
// ---------------------------------------------------------------------------

/// Creates the tables and their indexes.
pub const SCHEMA: &'static str = "
        CREATE TABLE IF NOT EXISTS blocks (
            id INTEGER PRIMARY KEY,
            hash TEXT NOT NULL,
            parent_hash TEXT,
            timestamp INTEGER NOT NULL,
            data BLOB
        );
        CREATE INDEX IF NOT EXISTS idx_blocks_timestamp ON blocks(timestamp);
        CREATE INDEX IF NOT EXISTS idx_blocks_hash ON blocks(hash);
        
        CREATE TABLE IF NOT EXISTS transactions (
            id INTEGER PRIMARY KEY,
            block_id INTEGER NOT NULL,
            from_account TEXT NOT NULL,
            to_account TEXT NOT NULL,
            amount INTEGER NOT NULL,
            FOREIGN KEY (block_id) REFERENCES blocks(id)
        );
        CREATE INDEX IF NOT EXISTS idx_tx_from ON transactions(from_account);
        CREATE INDEX IF NOT EXISTS idx_tx_to ON transactions(to_account);
        ";

/// Adds a block: hash, parent hash, timestamp and data.
pub const INSERT_BLOCK: &'static str = "INSERT INTO blocks (hash, parent_hash, timestamp, data) VALUES (?1, ?2, ?3, ?4)";

/// Adds a transaction: block, sender, receiver and amount.
pub const INSERT_TRANSACTION: &'static str = "INSERT INTO transactions (block_id, from_account, to_account, amount) VALUES (?1, ?2, ?3, ?4)";

/// Reads the latest transactions together with their blocks.
pub const READ_TRANSACTIONS: &'static str = "SELECT b.hash, b.timestamp, t.from_account, t.to_account, t.amount 
             FROM blocks b 
             JOIN transactions t ON t.block_id = b.id 
             WHERE b.timestamp > ?1 
             ORDER BY b.timestamp DESC 
             LIMIT 50";

/// The timestamp after which transactions are read.
pub const READ_AFTER: i64 = 1000000;

/// How many blocks a database starts with.
pub const SEED_BLOCKS: usize = 100;

/// How many transactions each of them has.
pub const SEED_TRANSACTIONS: usize = 5;

/// How many transactions each written block has.
pub const WRITTEN_TRANSACTIONS: usize = 3;

/// How many bytes of data each block has.
pub const BLOCK_BYTES: usize = 256;

// ---------------------------------------------------------------------------
// Models
// ---------------------------------------------------------------------------

/// A block as the database stores it.
pub struct Block {
    /// Its hash.
    pub hash: Seq<char>,
    /// The hash of the block before, if there is one.
    pub parent_hash: Option<Seq<char>>,
    /// When it was made.
    pub timestamp: int,
    /// Its contents.
    pub data: Seq<u8>,
}

/// A transaction as the database stores it.
pub struct Transfer {
    /// The block that it belongs to.
    pub block_id: int,
    /// Who pays.
    pub from_account: Seq<char>,
    /// Who is paid.
    pub to_account: Seq<char>,
    /// How much is paid.
    pub amount: int,
}

/// The hash of the block with this number.
pub open spec fn hash_name(n: nat) -> Seq<char> {
    "hash_"@ + text::decimal(n)
}

/// The account that comes up for this number; there are fifty.
pub open spec fn account_name(n: nat) -> Seq<char> {
    "account_"@ + text::decimal(n % 50)
}

/// The contents of every block.
pub open spec fn block_data() -> Seq<u8> {
    Seq::new(BLOCK_BYTES as nat, |i: int| 0u8)
}

/// The block at place `i` of a new database.
pub open spec fn seed_block(i: nat) -> Block {
    Block {
        hash: hash_name(i),
        parent_hash: if i > 0 {
            Some(hash_name((i - 1) as nat))
        } else {
            None
        },
        timestamp: 1000000 + i as int,
        data: block_data(),
    }
}

/// The transaction at place `j` of the block at place `i` of a new database.
pub open spec fn seed_transfer(i: nat, j: nat) -> Transfer {
    Transfer {
        block_id: i as int + 1,
        from_account: account_name(i + j),
        to_account: account_name(i + j + 1),
        amount: 1000 + j as int,
    }
}

/// `n` read as a signed number of 64 bits.
pub open spec fn as_signed(n: u64) -> int {
    if n <= i64::MAX {
        n as int
    } else {
        n - 0x1_0000_0000_0000_0000
    }
}

/// The block that a writer adds under the number `n`.
pub open spec fn written_block(n: u64) -> Block {
    Block {
        hash: hash_name(n as nat + 1000),
        parent_hash: Some(hash_name(n as nat + 999)),
        timestamp: 2000000 + as_signed(n),
        data: block_data(),
    }
}

/// The transaction at place `j` of the block that a writer adds under the number `n`.
pub open spec fn written_transfer(block_id: i64, n: u64, j: nat) -> Transfer {
    Transfer {
        block_id: block_id as int,
        from_account: account_name(n as nat + j),
        to_account: account_name(n as nat + j + 1),
        amount: 2000 + j as int,
    }
}

/// All numbers in the block with this number are machine numbers.
pub open spec fn writable(n: u64) -> bool {
    n + 1000 <= u64::MAX && 2000000 + as_signed(n) <= i64::MAX
}

// ---------------------------------------------------------------------------
// Rows
// ---------------------------------------------------------------------------

/// A row of the table of blocks.
#[derive(Debug)]
pub struct BlockRow {
    /// Its hash.
    pub hash: String,
    /// The hash of the block before, if there is one.
    pub parent_hash: Option<String>,
    /// When it was made.
    pub timestamp: i64,
    /// Its contents.
    pub data: Vec<u8>,
}

impl View for BlockRow {
    type V = Block;

    open spec fn view(&self) -> Block {
        Block {
            hash: self.hash@,
            parent_hash: match self.parent_hash {
                Some(hash) => Some(hash@),
                None => None,
            },
            timestamp: self.timestamp as int,
            data: self.data@,
        }
    }
}

/// A row of the table of transactions.
#[derive(Debug)]
pub struct TransactionRow {
    /// The block that it belongs to.
    pub block_id: i64,
    /// Who pays.
    pub from_account: String,
    /// Who is paid.
    pub to_account: String,
    /// How much is paid.
    pub amount: i64,
}

impl View for TransactionRow {
    type V = Transfer;

    open spec fn view(&self) -> Transfer {
        Transfer {
            block_id: self.block_id as int,
            from_account: self.from_account@,
            to_account: self.to_account@,
            amount: self.amount as int,
        }
    }
}

/// A block together with its transactions.
#[derive(Debug)]
pub struct SeedBlock {
    /// The block.
    pub block: BlockRow,
    /// Its transactions.
    pub transactions: Vec<TransactionRow>,
}

/// The transactions that the rows hold.
pub open spec fn transfers(rows: Seq<TransactionRow>) -> Seq<Transfer> {
    Seq::new(rows.len(), |j: int| rows[j]@)
}

/// The name of the block with this number.
fn hash_text(n: u64) -> (s: String)
    ensures
        s@ == hash_name(n as nat),
{
    let number = text::decimal_text(n);
    let mut s = String::from_str("hash_");
    s.append(number.as_str());
    s
}

/// The account that comes up for this number.
fn account_text(n: u64) -> (s: String)
    ensures
        s@ == account_name(n as nat),
{
    let number = text::decimal_text(n % 50);
    let mut s = String::from_str("account_");
    s.append(number.as_str());
    s
}

/// The contents of every block.
fn zeros() -> (data: Vec<u8>)
    ensures
        data@ == block_data(),
{
    let data: Vec<u8> = vec![0u8; BLOCK_BYTES];
    assert(data@ =~= block_data());
    data
}

// ---------------------------------------------------------------------------
// A new database
// ---------------------------------------------------------------------------

/// One block of a new database, with its transactions.
fn seed_row(i: usize) -> (row: SeedBlock)
    requires
        i < SEED_BLOCKS,
    ensures
        row.block@ == seed_block(i as nat),
        transfers(row.transactions@) == Seq::new(
            SEED_TRANSACTIONS as nat,
            |j: int| seed_transfer(i as nat, j as nat),
        ),
{
    let parent_hash = if i > 0 {
        Some(hash_text(i as u64 - 1))
    } else {
        None
    };
    let block = BlockRow {
        hash: hash_text(i as u64),
        parent_hash,
        timestamp: 1000000 + i as i64,
        data: zeros(),
    };
    let mut transactions: Vec<TransactionRow> = Vec::new();
    let mut j: usize = 0;
    while j < SEED_TRANSACTIONS
        invariant
            i < SEED_BLOCKS,
            j <= SEED_TRANSACTIONS,
            transactions@.len() == j,
            forall|k: int|
                0 <= k < j ==> (#[trigger] transactions@[k])@ == seed_transfer(i as nat, k as nat),
        decreases SEED_TRANSACTIONS - j,
    {
        transactions.push(
            TransactionRow {
                block_id: i as i64 + 1,
                from_account: account_text((i + j) as u64),
                to_account: account_text((i + j + 1) as u64),
                amount: 1000 + j as i64,
            },
        );
        j = j + 1;
    }
    assert(transfers(transactions@) =~= Seq::new(
        SEED_TRANSACTIONS as nat,
        |j: int| seed_transfer(i as nat, j as nat),
    ));
    SeedBlock { block, transactions }
}

/// What a new database is filled with: the blocks in order, each followed by its transactions.
pub fn seed_database() -> (seeds: Vec<SeedBlock>)
    ensures
        seeds@.len() == SEED_BLOCKS,
        forall|i: int|
            0 <= i < SEED_BLOCKS ==> (#[trigger] seeds@[i]).block@ == seed_block(i as nat),
        forall|i: int|
            0 <= i < SEED_BLOCKS ==> transfers((#[trigger] seeds@[i]).transactions@) == Seq::new(
                SEED_TRANSACTIONS as nat,
                |j: int| seed_transfer(i as nat, j as nat),
            ),
{
    let mut seeds: Vec<SeedBlock> = Vec::new();
    let mut i: usize = 0;
    while i < SEED_BLOCKS
        invariant
            i <= SEED_BLOCKS,
            seeds@.len() == i,
            forall|k: int| 0 <= k < i ==> (#[trigger] seeds@[k]).block@ == seed_block(k as nat),
            forall|k: int|
                0 <= k < i ==> transfers((#[trigger] seeds@[k]).transactions@) == Seq::new(
                    SEED_TRANSACTIONS as nat,
                    |j: int| seed_transfer(k as nat, j as nat),
                ),
        decreases SEED_BLOCKS - i,
    {
        seeds.push(seed_row(i));
        i = i + 1;
    }
    seeds
}

// ---------------------------------------------------------------------------
// Writing
// ---------------------------------------------------------------------------

/// How long a write is held up before it begins, in milliseconds; nothing where it is not.
pub fn pause_before_write(delay_ms: u64) -> (pause: Option<u64>)
    ensures
        pause == if delay_ms > 0 {
            Some(delay_ms)
        } else {
            None
        },
{
    if delay_ms > 0 {
        Some(delay_ms)
    } else {
        None
    }
}

/// Whether a block can be written under this number.
pub fn can_write(block_num: u64) -> (ok: bool)
    ensures
        ok == writable(block_num),
{
    block_num <= u64::MAX - 1000 && (block_num <= 0x7fff_ffff_ffff_ffff - 2000000 || block_num
        > 0x7fff_ffff_ffff_ffff)
}

/// The block that a writer adds under this number.
pub fn block_to_write(block_num: u64) -> (row: BlockRow)
    requires
        writable(block_num),
    ensures
        row@ == written_block(block_num),
{
    let signed: i64 = if block_num <= 0x7fff_ffff_ffff_ffff {
        block_num as i64
    } else {
        (block_num - 0x8000_0000_0000_0000) as i64 + i64::MIN
    };
    BlockRow {
        hash: hash_text(block_num + 1000),
        parent_hash: Some(hash_text(block_num + 999)),
        timestamp: 2000000 + signed,
        data: zeros(),
    }
}

/// The transactions of the block that a writer has added under this number, once the database has
/// given the block an identifier.
pub fn transactions_to_write(block_id: i64, block_num: u64) -> (rows: Vec<TransactionRow>)
    requires
        writable(block_num),
    ensures
        transfers(rows@) == Seq::new(
            WRITTEN_TRANSACTIONS as nat,
            |j: int| written_transfer(block_id, block_num, j as nat),
        ),
{
    let mut rows: Vec<TransactionRow> = Vec::new();
    let mut j: usize = 0;
    while j < WRITTEN_TRANSACTIONS
        invariant
            writable(block_num),
            j <= WRITTEN_TRANSACTIONS,
            rows@.len() == j,
            forall|k: int|
                0 <= k < j ==> (#[trigger] rows@[k])@ == written_transfer(
                    block_id,
                    block_num,
                    k as nat,
                ),
        decreases WRITTEN_TRANSACTIONS - j,
    {
        rows.push(
            TransactionRow {
                block_id,
                from_account: account_text(block_num + j as u64),
                to_account: account_text(block_num + j as u64 + 1),
                amount: 2000 + j as i64,
            },
        );
        j = j + 1;
    }
    assert(transfers(rows@) =~= Seq::new(
        WRITTEN_TRANSACTIONS as nat,
        |j: int| written_transfer(block_id, block_num, j as nat),
    ));
    rows
}

// ---------------------------------------------------------------------------
// Reading
// ---------------------------------------------------------------------------

/// A transaction together with its block, as it is read.
#[derive(Debug)]
pub struct ReadRow {
    /// The hash of the block.
    pub hash: String,
    /// When the block was made.
    pub timestamp: i64,
    /// Who pays.
    pub from_account: String,
    /// Who is paid.
    pub to_account: String,
    /// How much is paid.
    pub amount: i64,
}

/// How many of the rows could be read.
pub open spec fn rows_read(outcomes: Seq<Option<ReadRow>>) -> nat {
    outcomes.filter(|outcome: Option<ReadRow>| outcome is Some).len()
}

/// How many of the rows could be read; those that could not are passed over.
pub fn count_rows_read(outcomes: &Vec<Option<ReadRow>>) -> (n: usize)
    ensures
        n == rows_read(outcomes@),
{
    let ghost readable = |outcome: Option<ReadRow>| outcome is Some;
    let mut n: usize = 0;
    let mut i: usize = 0;
    while i < outcomes.len()
        invariant
            i <= outcomes@.len(),
            n <= i,
            readable == (|outcome: Option<ReadRow>| outcome is Some),
            n == outcomes@.take(i as int).filter(readable).len(),
        decreases outcomes.len() - i,
    {
        proof {
            reveal(Seq::filter);
            assert(outcomes@.take(i + 1).drop_last() =~= outcomes@.take(i as int));
        }
        if outcomes[i].is_some() {
            n = n + 1;
        }
        i = i + 1;
    }
    assert(outcomes@.take(outcomes@.len() as int) =~= outcomes@);
    n
}

// ---------------------------------------------------------------------------
// Laws
// ---------------------------------------------------------------------------

/// In a new database each block but the first names the block before it as its parent, and comes
/// one step after it in time.
pub proof fn seed_blocks_form_a_chain(i: nat)
    ensures
        seed_block(0).parent_hash is None,
        seed_block(i + 1).parent_hash == Some(seed_block(i).hash),
        seed_block(i + 1).timestamp == seed_block(i).timestamp + 1,
{
}

/// Blocks written one after the other form a chain too.
pub proof fn written_blocks_form_a_chain(n: u64)
    requires
        n < u64::MAX,
        writable(n),
        writable((n + 1) as u64),
    ensures
        written_block((n + 1) as u64).parent_hash == Some(written_block(n).hash),
        n != i64::MAX ==> written_block((n + 1) as u64).timestamp == written_block(n).timestamp + 1,
{
}

/// Different numbers name different blocks.
pub proof fn hash_names_differ(a: nat, b: nat)
    ensures
        hash_name(a) == hash_name(b) <==> a == b,
{
    reveal_strlit("hash_");
    if hash_name(a) == hash_name(b) {
        assert(hash_name(a).skip(5) =~= text::decimal(a));
        assert(hash_name(b).skip(5) =~= text::decimal(b));
        text::decimal_injective(a, b);
    }
}

/// No written block has the hash of a block that the database started with.
pub proof fn written_blocks_are_new(i: nat, n: u64)
    requires
        i < SEED_BLOCKS,
    ensures
        seed_block(i).hash != written_block(n).hash,
{
    hash_names_differ(i, n as nat + 1000);
}

/// Consecutive numbers bring up different accounts.
proof fn neighbouring_accounts_differ(n: nat)
    ensures
        account_name(n) != account_name(n + 1),
{
    reveal_strlit("account_");
    if account_name(n) == account_name(n + 1) {
        assert(account_name(n).skip(8) =~= text::decimal(n % 50));
        assert(account_name(n + 1).skip(8) =~= text::decimal((n + 1) % 50));
        text::decimal_injective(n % 50, (n + 1) % 50);
    }
}

/// In a new database nobody pays themselves, whoever is paid in a transaction pays in the next one
/// of the block, and each transaction belongs to the block that comes before it.
pub proof fn seed_transfers_pass_money_on(i: nat, j: nat)
    ensures
        seed_transfer(i, j).from_account != seed_transfer(i, j).to_account,
        seed_transfer(i, j).to_account == seed_transfer(i, j + 1).from_account,
        seed_transfer(i, j).block_id == i + 1,
{
    neighbouring_accounts_differ(i + j);
}

/// The same holds of the transactions of a written block.
pub proof fn written_transfers_pass_money_on(block_id: i64, n: u64, j: nat)
    ensures
        written_transfer(block_id, n, j).from_account != written_transfer(
            block_id,
            n,
            j,
        ).to_account,
        written_transfer(block_id, n, j).to_account == written_transfer(
            block_id,
            n,
            j + 1,
        ).from_account,
        written_transfer(block_id, n, j).block_id == block_id,
{
    neighbouring_accounts_differ(n as nat + j);
}

/// There are exactly fifty accounts, and they come up in turn: every fiftieth number brings up the
/// same one, and a number below fifty brings up the account that is called after it.
pub proof fn accounts_come_up_in_turn(n: nat)
    ensures
        account_name(n + 50) == account_name(n),
        n < 50 ==> account_name(n) == "account_"@ + text::decimal(n),
{
    assert((n + 50) % 50 == n % 50);
}

/// An account is called after a number below fifty, from which the number that brings it up is a
/// whole number of turns away.
pub proof fn account_names_are_below_fifty(n: nat)
    ensures
        account_name(n).len() > 8,
        account_name(n).take(8) == "account_"@,
        text::digits_value(account_name(n).skip(8)) < 50,
        exists|turns: nat|
            #![trigger turns * 50]
            n == turns * 50 + text::digits_value(account_name(n).skip(8)),
        text::digits_value(account_name(n).skip(8)) > 0 ==> account_name(n)[8] != '0',
{
    reveal_strlit("account_");
    text::decimal_reads_back(n % 50);
    text::decimal_has_no_leading_zero(n % 50);
    assert(account_name(n).take(8) =~= "account_"@);
    assert(account_name(n).skip(8) =~= text::decimal(n % 50));
    let turns = n / 50;
    assert(n == turns * 50 + n % 50);
}

/// The hash of a block tells its number.
pub proof fn hash_names_tell_the_number(n: nat)
    ensures
        hash_name(n).len() > 5,
        hash_name(n).take(5) == "hash_"@,
        text::digits_value(hash_name(n).skip(5)) == n,
        n > 0 ==> hash_name(n)[5] != '0',
{
    reveal_strlit("hash_");
    text::decimal_reads_back(n);
    text::decimal_has_no_leading_zero(n);
    assert(hash_name(n).take(5) =~= "hash_"@);
    assert(hash_name(n).skip(5) =~= text::decimal(n));
}

/// Every block holds two hundred and fifty-six bytes, all zero.
pub proof fn blocks_hold_zeros(i: nat, n: u64, k: int)
    ensures
        seed_block(i).data.len() == 256,
        written_block(n).data.len() == 256,
        0 <= k < 256 ==> seed_block(i).data[k] == 0,
        0 <= k < 256 ==> written_block(n).data[k] == 0,
{
}

/// The block at place `i` of a new database has the hash with that number and the timestamp that
/// many after a million; its transaction at place `j` belongs to it, goes from the account that
/// `i + j` brings up to the next one, and moves `j` more than a thousand.
pub proof fn seed_goes_by_place(i: nat, j: nat)
    ensures
        text::digits_value(seed_block(i).hash.skip(5)) == i,
        seed_block(i).timestamp - i == 1000000,
        seed_transfer(i, j).block_id - i == 1,
        seed_transfer(i, j).from_account == account_name(i + j),
        seed_transfer(i, j).to_account == account_name(i + j + 1),
        seed_transfer(i, j).amount - j == 1000,
{
    hash_names_tell_the_number(i);
}

/// The block written under the number `n` has the hash a thousand further on, names the one before
/// that as its parent, and has the timestamp that many after two million; its transaction at place
/// `j` goes from the account that `n + j` brings up to the next one, and moves `j` more than two
/// thousand.
pub proof fn written_blocks_go_by_number(block_id: i64, n: u64, j: nat)
    ensures
        text::digits_value(written_block(n).hash.skip(5)) == n + 1000,
        written_block(n).parent_hash matches Some(parent) && parent.take(5) == "hash_"@
            && text::digits_value(parent.skip(5)) == n + 999,
        n <= i64::MAX ==> written_block(n).timestamp - n == 2000000,
        n > i64::MAX ==> written_block(n).timestamp - n == 2000000 - 0x1_0000_0000_0000_0000,
        written_transfer(block_id, n, j).block_id == block_id,
        written_transfer(block_id, n, j).from_account == account_name(n as nat + j),
        written_transfer(block_id, n, j).to_account == account_name(n as nat + j + 1),
        written_transfer(block_id, n, j).amount - j == 2000,
{
    hash_names_tell_the_number(n as nat + 1000);
    hash_names_tell_the_number(n as nat + 999);
}

/// A block can be written exactly where the number of its hash fits 64 bits and its timestamp fits
/// a signed number of 64 bits.
pub proof fn blocks_are_writable_where_their_numbers_fit(n: u64)
    ensures
        writable(n) <==> n + 1000 <= u64::MAX && i64::MIN <= written_block(n).timestamp
            <= i64::MAX,
{
}

/// Of two batches as many rows are read as of each one, and of a single row one or none.
pub proof fn rows_read_add_up(a: Seq<Option<ReadRow>>, b: Seq<Option<ReadRow>>, row: ReadRow)
    ensures
        rows_read(a + b) == rows_read(a) + rows_read(b),
        rows_read(seq![Some(row)]) == 1,
        rows_read(seq![None]) == 0,
        rows_read(Seq::empty()) == 0,
    decreases b.len(),
{
    reveal_with_fuel(Seq::filter, 2);
    let readable = |outcome: Option<ReadRow>| outcome is Some;
    let (one, none) = (seq![Some(row)], seq![None::<ReadRow>]);
    assert(one.drop_last() =~= Seq::<Option<ReadRow>>::empty());
    assert(none.drop_last() =~= Seq::<Option<ReadRow>>::empty());
    if b.len() == 0 {
        assert(a + b =~= a);
    } else {
        rows_read_add_up(a, b.drop_last(), row);
        assert((a + b).drop_last() =~= a + b.drop_last());
    }
}

/// What is stated of a row is stated of its fields.
pub proof fn rows_hold_their_fields(
    block: BlockRow,
    transaction: TransactionRow,
    rows: Seq<TransactionRow>,
    j: int,
)
    ensures
        block@.hash == block.hash@,
        block@.parent_hash is Some <==> block.parent_hash is Some,
        block.parent_hash matches Some(hash) ==> block@.parent_hash == Some(hash@),
        block@.timestamp == block.timestamp,
        block@.data == block.data@,
        transaction@.block_id == transaction.block_id,
        transaction@.from_account == transaction.from_account@,
        transaction@.to_account == transaction.to_account@,
        transaction@.amount == transaction.amount,
        transfers(rows).len() == rows.len(),
        0 <= j < rows.len() ==> transfers(rows)[j] == rows[j]@,
{
}

} // verus!
