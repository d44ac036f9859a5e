use ledger_query::errors::Error;
use ledger_query::errors::QueryError;
use ledger_query::errors::RpcError;
use ledger_query::router::aggregate_shard_outcomes;
use ledger_query::router::collect_shard_outcomes;
use ledger_query::router::merge_responses;
use ledger_query::router::RouterServer;
use ledger_query::store::CheckKeyImagesResponse;
use ledger_query::store::KeyImageLookup;
use ledger_query::store::SpentRecord;
use ledger_query::store::StoreServer;
use ledger_query::types::KeyImage;
use ledger_query::types::KeyImageResult;
use ledger_query::types::TimestampResultCode;
use ledger_query::watcher::SourceSync;
use ledger_query::watcher::WatcherTimestampResolver;

fn ki(n: u64) -> KeyImage {
    KeyImage { w0: n, w1: 3, w2: n, w3: 0 }
}

fn spent(key_image: KeyImage, spent_at: u64, timestamp: u64) -> KeyImageResult {
    KeyImageResult {
        key_image,
        spent_at: Some(spent_at),
        timestamp,
        timestamp_result_code: TimestampResultCode::TimestampFound,
    }
}

fn not_spent(key_image: KeyImage) -> KeyImageResult {
    KeyImageResult {
        key_image,
        spent_at: None,
        timestamp: u64::MAX,
        timestamp_result_code: TimestampResultCode::TimestampFound,
    }
}

fn shard(chain_id: &[u8], num_blocks: u64, spends: Vec<(KeyImage, u64)>) -> StoreServer {
    let records: Vec<SpentRecord> = spends
        .into_iter()
        .map(|(key_image, spent_at)| SpentRecord { key_image, spent_at })
        .collect();
    StoreServer {
        chain_id: chain_id.to_vec(),
        num_blocks,
        global_txo_count: 4 * num_blocks,
        lookup: KeyImageLookup { capacity: 8, records },
        watcher: WatcherTimestampResolver {
            timestamps: vec![],
            sources: vec![SourceSync { signer: 1, synced_height: num_blocks }],
        },
    }
}

#[test]
fn merge_picks_the_earliest_spending_block() {
    // Two shards report the same image spent at block 5 and block 9: the
    // aggregated result reports block 5.
    let image = ki(1);
    let images = vec![image];
    let first = CheckKeyImagesResponse {
        num_blocks: 10,
        global_txo_count: 40,
        results: vec![spent(image, 9, 900)],
    };
    let second = CheckKeyImagesResponse {
        num_blocks: 12,
        global_txo_count: 44,
        results: vec![spent(image, 5, 500)],
    };
    let merged = merge_responses(&images, &vec![first, second]);
    assert_eq!(merged.results.len(), 1);
    assert_eq!(merged.results[0].spent_at, Some(5));
    assert_eq!(merged.results[0].timestamp, 500);
}

#[test]
fn merge_prefers_any_spend_over_none() {
    let image = ki(1);
    let images = vec![image];
    let first = CheckKeyImagesResponse {
        num_blocks: 10,
        global_txo_count: 40,
        results: vec![not_spent(image)],
    };
    let second = CheckKeyImagesResponse {
        num_blocks: 8,
        global_txo_count: 32,
        results: vec![spent(image, 7, 700)],
    };
    let merged = merge_responses(&images, &vec![first, second]);
    assert_eq!(merged.results[0].spent_at, Some(7));
}

#[test]
fn merge_reports_the_sentinel_when_no_shard_saw_a_spend() {
    let image = ki(1);
    let images = vec![image];
    let responses = vec![
        CheckKeyImagesResponse {
            num_blocks: 10,
            global_txo_count: 40,
            results: vec![not_spent(image)],
        },
        CheckKeyImagesResponse {
            num_blocks: 11,
            global_txo_count: 44,
            results: vec![not_spent(image)],
        },
    ];
    let merged = merge_responses(&images, &responses);
    assert_eq!(merged.results[0], not_spent(image));
}

#[test]
fn merged_num_blocks_is_the_maximum_reported() {
    let images: Vec<KeyImage> = vec![];
    let responses = vec![
        CheckKeyImagesResponse { num_blocks: 10, global_txo_count: 40, results: vec![] },
        CheckKeyImagesResponse { num_blocks: 13, global_txo_count: 39, results: vec![] },
        CheckKeyImagesResponse { num_blocks: 11, global_txo_count: 44, results: vec![] },
    ];
    let merged = merge_responses(&images, &responses);
    assert_eq!(merged.num_blocks, 13);
    assert_eq!(merged.global_txo_count, 44);
}

#[test]
fn num_blocks_never_decreases_as_the_ledger_grows() {
    let images = vec![ki(2)];
    let chain = b"main".to_vec();
    let before = RouterServer {
        chain_id: chain.clone(),
        shards: vec![shard(b"main", 3, vec![]), shard(b"main", 5, vec![])],
    };
    let after = RouterServer {
        chain_id: chain.clone(),
        shards: vec![shard(b"main", 4, vec![]), shard(b"main", 7, vec![])],
    };
    let first = before.check_key_images(&chain, &images).unwrap();
    let second = after.check_key_images(&chain, &images).unwrap();
    assert_eq!(first.num_blocks, 5);
    assert_eq!(second.num_blocks, 7);
    assert!(second.num_blocks >= first.num_blocks);
}

#[test]
fn router_merges_across_its_shards() {
    let image = ki(4);
    let chain = b"main".to_vec();
    let router = RouterServer {
        chain_id: chain.clone(),
        shards: vec![
            shard(b"main", 12, vec![(image, 9)]),
            shard(b"main", 10, vec![(image, 5)]),
        ],
    };
    let response = router.check_key_images(&chain, &vec![image]).unwrap();
    assert_eq!(response.num_blocks, 12);
    assert_eq!(response.results.len(), 1);
    assert_eq!(response.results[0].spent_at, Some(5));
}

#[test]
fn router_repeats_identical_answers_on_an_unchanged_ledger() {
    let chain = b"main".to_vec();
    let router = RouterServer {
        chain_id: chain.clone(),
        shards: vec![shard(b"main", 6, vec![(ki(1), 2)]), shard(b"main", 6, vec![])],
    };
    let images = vec![ki(1), ki(2)];
    let first = router.check_key_images(&chain, &images).unwrap();
    let second = router.check_key_images(&chain, &images).unwrap();
    assert_eq!(first, second);
}

#[test]
fn router_rejects_a_mismatched_chain_identifier() {
    let router = RouterServer { chain_id: b"main".to_vec(), shards: vec![] };
    let outcome = router.check_key_images(&b"test".to_vec(), &vec![ki(1)]);
    assert_eq!(outcome, Err(QueryError::IdentityMismatch));
}

#[test]
fn one_unreachable_shard_fails_the_whole_query() {
    let image = ki(1);
    let images = vec![image];
    let good = CheckKeyImagesResponse {
        num_blocks: 10,
        global_txo_count: 40,
        results: vec![spent(image, 4, 400)],
    };
    let outcomes: Vec<Result<CheckKeyImagesResponse, Error>> = vec![
        Ok(good),
        Err(Error::Rpc(RpcError::ChannelFailure)),
    ];
    let aggregated = aggregate_shard_outcomes(&images, outcomes);
    assert_eq!(aggregated, Err(QueryError::ShardUnavailable { shard: 1 }));
}

#[test]
fn all_shards_answering_yields_the_merge() {
    let image = ki(1);
    let images = vec![image];
    let outcomes: Vec<Result<CheckKeyImagesResponse, Error>> = vec![
        Ok(CheckKeyImagesResponse {
            num_blocks: 10,
            global_txo_count: 40,
            results: vec![spent(image, 9, 900)],
        }),
        Ok(CheckKeyImagesResponse {
            num_blocks: 12,
            global_txo_count: 48,
            results: vec![spent(image, 5, 500)],
        }),
    ];
    let aggregated = aggregate_shard_outcomes(&images, outcomes).unwrap();
    assert_eq!(aggregated.num_blocks, 12);
    assert_eq!(aggregated.results[0].spent_at, Some(5));
}

#[test]
fn a_router_with_no_shards_answers_with_sentinels() {
    let chain = b"main".to_vec();
    let router = RouterServer { chain_id: chain.clone(), shards: vec![] };
    let response = router.check_key_images(&chain, &vec![ki(1)]).unwrap();
    assert_eq!(response.num_blocks, 0);
    assert_eq!(response.global_txo_count, 0);
    assert_eq!(response.results, vec![not_spent(ki(1))]);
}

#[test]
fn collect_keeps_every_response_in_shard_order() {
    let a = CheckKeyImagesResponse { num_blocks: 1, global_txo_count: 2, results: vec![] };
    let b = CheckKeyImagesResponse { num_blocks: 3, global_txo_count: 4, results: vec![] };
    let collected =
        collect_shard_outcomes(vec![Ok(a.clone()), Ok(b.clone())]).unwrap();
    assert_eq!(collected, vec![a, b]);
}
