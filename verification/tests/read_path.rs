use ledger_query::ledger::BlockRecord;
use ledger_query::ledger::Ledger;
use ledger_query::ledger::TxOutLocation;
use ledger_query::ledger::TxOutRecord;
use ledger_query::ledger::UntrustedReadPath;
use ledger_query::sharding::BlockRange;
use ledger_query::types::TimestampResultCode;
use ledger_query::types::TxOutPublicKey;
use ledger_query::types::TxOutResultCode;
use ledger_query::watcher::SignedBlockTimestamp;
use ledger_query::watcher::SourceSync;
use ledger_query::watcher::WatcherTimestampResolver;

fn pk(n: u64) -> TxOutPublicKey {
    TxOutPublicKey { w0: n, w1: 0, w2: 5, w3: n }
}

fn block_of(keys: &[u64]) -> BlockRecord {
    BlockRecord { outputs: keys.iter().map(|&n| TxOutRecord { public_key: pk(n) }).collect() }
}

/// Four blocks with 2, 1, 3 and 1 outputs; no watcher data.
fn four_block_path() -> UntrustedReadPath {
    UntrustedReadPath {
        ledger: Ledger {
            blocks: vec![
                block_of(&[10, 11]),
                block_of(&[12]),
                block_of(&[13, 14, 15]),
                block_of(&[16]),
            ],
        },
        watcher: WatcherTimestampResolver { timestamps: vec![], sources: vec![] },
    }
}

#[test]
fn origin_block_of_a_four_block_ledger() {
    // One range [0, 1): one block back, with its index, its output count,
    // and BlockIndexOutOfBounds for the origin block (no signer covers it).
    let path = four_block_path();
    let response = path.get_blocks(&vec![BlockRange { start: 0, end: 1 }]);
    assert_eq!(response.num_blocks, 4);
    assert_eq!(response.global_txo_count, 7);
    assert_eq!(response.blocks.len(), 1);
    assert_eq!(response.blocks[0].block_index, 0);
    assert_eq!(response.blocks[0].output_count, 2);
    assert_eq!(
        response.blocks[0].timestamp_result_code,
        TimestampResultCode::BlockIndexOutOfBounds
    );
    assert_eq!(response.blocks[0].timestamp, u64::MAX);
}

#[test]
fn out_of_range_indices_are_absent_not_an_error() {
    let path = four_block_path();
    let response = path.get_blocks(&vec![
        BlockRange { start: 2, end: 9 },
        BlockRange { start: 100, end: 200 },
    ]);
    // Only blocks 2 and 3 exist; the metadata is accurate regardless.
    assert_eq!(response.blocks.len(), 2);
    assert_eq!(response.blocks[0].block_index, 2);
    assert_eq!(response.blocks[1].block_index, 3);
    assert_eq!(response.num_blocks, 4);
    assert_eq!(response.global_txo_count, 7);
}

#[test]
fn several_ranges_come_back_in_request_order() {
    let path = four_block_path();
    let response = path.get_blocks(&vec![
        BlockRange { start: 3, end: 4 },
        BlockRange { start: 0, end: 2 },
    ]);
    let indices: Vec<u64> = response.blocks.iter().map(|b| b.block_index).collect();
    assert_eq!(indices, vec![3, 0, 1]);
}

#[test]
fn an_empty_range_yields_no_blocks() {
    let path = four_block_path();
    let response = path.get_blocks(&vec![BlockRange { start: 2, end: 2 }]);
    assert_eq!(response.blocks.len(), 0);
    assert_eq!(response.num_blocks, 4);
}

#[test]
fn block_timestamps_resolve_through_the_watcher() {
    let mut path = four_block_path();
    path.watcher = WatcherTimestampResolver {
        timestamps: vec![SignedBlockTimestamp { block_index: 1, signer: 1, signed_at: 1234 }],
        sources: vec![SourceSync { signer: 1, synced_height: 4 }],
    };
    let response = path.get_blocks(&vec![BlockRange { start: 1, end: 2 }]);
    assert_eq!(response.blocks[0].timestamp, 1234);
    assert_eq!(response.blocks[0].timestamp_result_code, TimestampResultCode::TimestampFound);
}

#[test]
fn found_outputs_carry_their_position_and_block() {
    let path = four_block_path();
    let response = path.get_tx_outs(&vec![pk(10), pk(14), pk(16)]);
    assert_eq!(response.num_blocks, 4);
    assert_eq!(response.results.len(), 3);
    assert_eq!(response.results[0].result_code, TxOutResultCode::Found);
    assert_eq!(
        response.results[0].location,
        Some(TxOutLocation { global_index: 0, block_index: 0 })
    );
    assert_eq!(
        response.results[1].location,
        Some(TxOutLocation { global_index: 4, block_index: 2 })
    );
    assert_eq!(
        response.results[2].location,
        Some(TxOutLocation { global_index: 6, block_index: 3 })
    );
}

#[test]
fn a_missing_output_is_not_found_not_an_error() {
    let path = four_block_path();
    let response = path.get_tx_outs(&vec![pk(99)]);
    assert_eq!(response.results[0].result_code, TxOutResultCode::NotFound);
    assert_eq!(response.results[0].location, None);
    assert_eq!(response.results[0].public_key, pk(99));
}

#[test]
fn ledger_metadata_is_computed_from_the_blocks() {
    let ledger = four_block_path().ledger;
    assert_eq!(ledger.num_blocks(), 4);
    assert_eq!(ledger.total_outputs(), 7);
    assert_eq!(
        ledger.locate_tx_out(&pk(12)),
        Some(TxOutLocation { global_index: 2, block_index: 1 })
    );
    assert_eq!(ledger.locate_tx_out(&pk(42)), None);
}
