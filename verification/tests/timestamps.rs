use ledger_query::types::TimestampResultCode;
use ledger_query::types::TxOutResultCode;
use ledger_query::watcher::SignedBlockTimestamp;
use ledger_query::watcher::SourceSync;
use ledger_query::watcher::WatcherTimestampResolver;

fn signed(block_index: u64, signer: u64, signed_at: u64) -> SignedBlockTimestamp {
    SignedBlockTimestamp { block_index, signer, signed_at }
}

#[test]
fn earliest_signature_wins() {
    let watcher = WatcherTimestampResolver {
        timestamps: vec![signed(2, 1, 1500), signed(2, 2, 1400), signed(2, 3, 1450)],
        sources: vec![SourceSync { signer: 1, synced_height: 5 }],
    };
    assert_eq!(watcher.resolve(2), (1400, TimestampResultCode::TimestampFound));
}

#[test]
fn no_source_synced_past_the_block_is_out_of_bounds() {
    let watcher = WatcherTimestampResolver {
        timestamps: vec![],
        sources: vec![SourceSync { signer: 1, synced_height: 3 }],
    };
    assert_eq!(watcher.resolve(3), (u64::MAX, TimestampResultCode::BlockIndexOutOfBounds));
    assert_eq!(watcher.resolve(9), (u64::MAX, TimestampResultCode::BlockIndexOutOfBounds));
}

#[test]
fn empty_watcher_is_out_of_bounds_everywhere() {
    let watcher = WatcherTimestampResolver { timestamps: vec![], sources: vec![] };
    assert_eq!(watcher.resolve(0), (u64::MAX, TimestampResultCode::BlockIndexOutOfBounds));
}

#[test]
fn one_source_behind_another_ahead_is_watcher_behind() {
    let watcher = WatcherTimestampResolver {
        timestamps: vec![],
        sources: vec![
            SourceSync { signer: 1, synced_height: 2 },
            SourceSync { signer: 2, synced_height: 5 },
        ],
    };
    assert_eq!(watcher.resolve(3), (u64::MAX, TimestampResultCode::WatcherBehind));
}

#[test]
fn every_source_past_without_signature_is_unavailable() {
    let watcher = WatcherTimestampResolver {
        timestamps: vec![signed(1, 1, 900)],
        sources: vec![
            SourceSync { signer: 1, synced_height: 5 },
            SourceSync { signer: 2, synced_height: 6 },
        ],
    };
    assert_eq!(watcher.resolve(2), (u64::MAX, TimestampResultCode::Unavailable));
}

#[test]
fn a_recorded_signature_beats_sync_state() {
    let watcher = WatcherTimestampResolver {
        timestamps: vec![signed(4, 1, 2000)],
        sources: vec![],
    };
    assert_eq!(watcher.resolve(4), (2000, TimestampResultCode::TimestampFound));
}

#[test]
fn timestamp_codes_round_trip_over_the_wire() {
    let codes = [
        TimestampResultCode::TimestampFound,
        TimestampResultCode::WatcherBehind,
        TimestampResultCode::Unavailable,
        TimestampResultCode::BlockIndexOutOfBounds,
    ];
    for code in codes {
        assert_eq!(TimestampResultCode::from_wire(code.wire_value()), Some(code));
    }
    assert_eq!(TimestampResultCode::from_wire(0), None);
    assert_eq!(TimestampResultCode::from_wire(5), None);
}

#[test]
fn timestamp_codes_have_stable_wire_values() {
    assert_eq!(TimestampResultCode::TimestampFound.wire_value(), 1);
    assert_eq!(TimestampResultCode::WatcherBehind.wire_value(), 2);
    assert_eq!(TimestampResultCode::Unavailable.wire_value(), 3);
    assert_eq!(TimestampResultCode::BlockIndexOutOfBounds.wire_value(), 4);
}

#[test]
fn txout_codes_round_trip_over_the_wire() {
    for code in [TxOutResultCode::Found, TxOutResultCode::NotFound] {
        assert_eq!(TxOutResultCode::from_wire(code.wire_value()), Some(code));
    }
    assert_eq!(TxOutResultCode::from_wire(0), None);
    assert_eq!(TxOutResultCode::from_wire(3), None);
}
