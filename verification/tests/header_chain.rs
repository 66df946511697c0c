use mocknet::chain::{BlockHeader, BlockSnapshot};
use mocknet::clock::seconds_or_zero;
use mocknet::controller::MocknetController;
use mocknet::header::{chain_header, next_block_header};

fn snapshot(height: u64, hash: [u8; 32], sortition: [u8; 32]) -> BlockSnapshot {
    BlockSnapshot { block_height: height, burn_header_hash: hash, sortition_id: sortition }
}

// SHA-256 of thirty-two zero bytes.
const HASH_OF_ZEROS: [u8; 32] = [
    0x66, 0x68, 0x7a, 0xad, 0xf8, 0x62, 0xbd, 0x77, 0x6c, 0x8f, 0xc1, 0x8b, 0x8e, 0x9f, 0x8e, 0x20,
    0x08, 0x97, 0x14, 0x85, 0x6e, 0xe2, 0x33, 0xb3, 0x90, 0x2a, 0x59, 0x1d, 0x0d, 0x5f, 0x29, 0x25,
];

// SHA-256 of the digest above.
const HASH_OF_HASH_OF_ZEROS: [u8; 32] = [
    0x2b, 0x32, 0xdb, 0x6c, 0x2c, 0x0a, 0x62, 0x35, 0xfb, 0x13, 0x97, 0xe8, 0x22, 0x5e, 0xa8, 0x5e,
    0x0f, 0x0e, 0x6e, 0x8c, 0x7b, 0x12, 0x6d, 0x00, 0x16, 0xcc, 0xbd, 0xe0, 0xe6, 0x67, 0x15, 0x1e,
];

#[test]
fn next_header_stands_one_above_its_parent() {
    let genesis = snapshot(0, [0u8; 32], [0u8; 32]);
    let header = next_block_header(&genesis, 1_600_000_000);
    assert_eq!(header.block_height, 1);
    assert_eq!(header.parent_block_hash, [0u8; 32]);
    assert_eq!(header.num_txs, 0);
    assert_eq!(header.timestamp, 1_600_000_000);
    assert_eq!(header.block_hash, HASH_OF_ZEROS);
}

#[test]
fn next_header_hash_is_not_the_parent_hash() {
    let genesis = snapshot(0, [7u8; 32], [0u8; 32]);
    let header = next_block_header(&genesis, 5);
    let expected: [u8; 32] = [
        0x4b, 0xb0, 0x6f, 0x8e, 0x4e, 0x3a, 0x77, 0x15, 0xd2, 0x01, 0xd5, 0x73, 0xd0, 0xaa, 0x42,
        0x37, 0x62, 0xe5, 0x5d, 0xab, 0xd6, 0x1a, 0x2c, 0x02, 0x27, 0x8f, 0xa5, 0x6c, 0xc6, 0xd2,
        0x94, 0xe0,
    ];
    assert_eq!(header.block_hash, expected);
    assert_ne!(header.block_hash, genesis.burn_header_hash);
    assert_eq!(header.parent_block_hash, [7u8; 32]);
}

#[test]
fn next_header_is_the_same_when_built_twice() {
    let tip = snapshot(41, [3u8; 32], [9u8; 32]);
    let first = next_block_header(&tip, 77);
    let second = next_block_header(&tip, 77);
    assert_eq!(first, second);
    assert_eq!(first.block_height, 42);
}

#[test]
fn next_header_ignores_the_sortition_id() {
    let one = snapshot(10, [5u8; 32], [1u8; 32]);
    let other = snapshot(10, [5u8; 32], [2u8; 32]);
    assert_eq!(next_block_header(&one, 3), next_block_header(&other, 3));
}

#[test]
fn headers_chain_from_genesis() {
    let genesis = snapshot(0, [0u8; 32], [0u8; 32]);
    let first = next_block_header(&genesis, 1);
    let tip = snapshot(first.block_height, first.block_hash, [1u8; 32]);
    let second = next_block_header(&tip, 2);
    assert_eq!(second.block_height, 2);
    assert_eq!(second.parent_block_hash, HASH_OF_ZEROS);
    assert_eq!(second.block_hash, HASH_OF_HASH_OF_ZEROS);
}

#[test]
fn next_header_at_the_last_height_with_a_successor() {
    let tip = snapshot(u64::MAX - 1, [0u8; 32], [0u8; 32]);
    assert_eq!(next_block_header(&tip, 0).block_height, u64::MAX);
}

#[test]
fn clock_stamped_header_agrees_but_for_the_time() {
    let tip = snapshot(3, [0u8; 32], [4u8; 32]);
    let first = MocknetController::build_next_block_header(&tip);
    let second = MocknetController::build_next_block_header(&tip);
    assert_eq!(first.block_height, 4);
    assert_eq!(first.block_hash, HASH_OF_ZEROS);
    assert_eq!(first.parent_block_hash, [0u8; 32]);
    assert_eq!(first.num_txs, 0);
    assert_eq!(first.block_height, second.block_height);
    assert_eq!(first.block_hash, second.block_hash);
    assert_eq!(first.parent_block_hash, second.parent_block_hash);
    assert!(first.timestamp <= second.timestamp);
    // The clock reads some time after the year 2001.
    assert!(first.timestamp > 1_000_000_000);
}

#[test]
fn chained_header_holds_the_hash_it_is_given() {
    let tip = snapshot(6, [1u8; 32], [2u8; 32]);
    let expected = BlockHeader {
        block_height: 7,
        block_hash: [3u8; 32],
        parent_block_hash: [1u8; 32],
        num_txs: 0,
        timestamp: 44,
    };
    assert_eq!(chain_header(&tip, [3u8; 32], 44), expected);
}

#[test]
fn clock_after_the_epoch_reads_its_whole_seconds() {
    assert_eq!(seconds_or_zero(Some(1_600_000_000)), 1_600_000_000);
    assert_eq!(seconds_or_zero(Some(1)), 1);
    assert_eq!(seconds_or_zero(Some(u64::MAX)), u64::MAX);
}

#[test]
fn clock_at_or_before_the_epoch_reads_zero() {
    assert_eq!(seconds_or_zero(Some(0)), 0);
    assert_eq!(seconds_or_zero(None), 0);
}
