use ledger_query::sharding::plan_query;
use ledger_query::sharding::BlockRange;
use ledger_query::sharding::ShardAssignment;
use ledger_query::sharding::ShardDirectory;
use ledger_query::sharding::ShardingStrategy;

fn strategy() -> ShardingStrategy {
    ShardingStrategy { epoch_width: 10 }
}

#[test]
fn blocks_map_to_fixed_width_epochs() {
    let s = strategy();
    assert_eq!(s.epoch_for(0), 0);
    assert_eq!(s.epoch_for(9), 0);
    assert_eq!(s.epoch_for(10), 1);
    assert_eq!(s.epoch_for(25), 2);
}

#[test]
fn a_range_splits_into_one_part_per_epoch() {
    let parts = strategy().split_by_epoch(&BlockRange { start: 5, end: 25 });
    assert_eq!(
        parts,
        vec![
            BlockRange { start: 5, end: 10 },
            BlockRange { start: 10, end: 20 },
            BlockRange { start: 20, end: 25 },
        ]
    );
}

#[test]
fn a_range_within_one_epoch_stays_whole() {
    let parts = strategy().split_by_epoch(&BlockRange { start: 11, end: 19 });
    assert_eq!(parts, vec![BlockRange { start: 11, end: 19 }]);
}

#[test]
fn an_aligned_range_splits_on_its_boundaries() {
    let parts = strategy().split_by_epoch(&BlockRange { start: 10, end: 30 });
    assert_eq!(
        parts,
        vec![BlockRange { start: 10, end: 20 }, BlockRange { start: 20, end: 30 }]
    );
}

#[test]
fn an_empty_range_splits_into_nothing() {
    let parts = strategy().split_by_epoch(&BlockRange { start: 7, end: 7 });
    assert_eq!(parts, vec![]);
}

#[test]
fn the_directory_lists_every_owner_of_an_epoch() {
    let directory = ShardDirectory {
        assignments: vec![
            ShardAssignment { epoch: 2, shard_id: 7 },
            ShardAssignment { epoch: 3, shard_id: 9 },
            // Transient overlap during handoff: a second owner of epoch 2.
            ShardAssignment { epoch: 2, shard_id: 8 },
        ],
    };
    assert_eq!(directory.shards_for(2), vec![7, 8]);
    assert_eq!(directory.shards_for(3), vec![9]);
    // No owner yet: not yet available, not an error.
    assert_eq!(directory.shards_for(4), vec![]);
}

#[test]
fn a_plan_pairs_each_epoch_with_its_owners() {
    let directory = ShardDirectory {
        assignments: vec![
            ShardAssignment { epoch: 0, shard_id: 1 },
            ShardAssignment { epoch: 1, shard_id: 2 },
        ],
    };
    let plan = plan_query(&strategy(), &directory, &BlockRange { start: 5, end: 25 });
    assert_eq!(plan.len(), 3);
    assert_eq!(plan[0].range, BlockRange { start: 5, end: 10 });
    assert_eq!(plan[0].epoch, 0);
    assert_eq!(plan[0].shards, vec![1]);
    assert_eq!(plan[1].range, BlockRange { start: 10, end: 20 });
    assert_eq!(plan[1].epoch, 1);
    assert_eq!(plan[1].shards, vec![2]);
    assert_eq!(plan[2].range, BlockRange { start: 20, end: 25 });
    assert_eq!(plan[2].epoch, 2);
    assert_eq!(plan[2].shards, vec![]);
}
