//! Epoch-based sharding of the ledger.
//!
//! The ledger is partitioned into fixed-width contiguous epochs of block
//! indices; each epoch is owned by one active store server at a time, but
//! the directory tolerates transient overlap during handoff (old and new
//! owner both briefly listed) and absence (no owner yet for the newest
//! epoch) — no shard listed for an epoch means "not yet available", not an
//! error. A query spanning several epochs is split into one sub-query per
//! epoch.

use vstd::prelude::*;

verus! {

/// A contiguous range of block indices: `start` inclusive, `end`
/// exclusive.
#[derive(Clone, Copy, Debug, PartialEq, Eq, Structural)]
pub struct BlockRange {
    /// First block index of the range.
    pub start: u64,
    /// First block index past the range.
    pub end: u64,
}

impl BlockRange {
    /// Whether the block index lies within the range.
    pub open spec fn contains(self, block_index: u64) -> bool {
        self.start <= block_index < self.end
    }

    /// Whether the range holds no block index at all.
    pub open spec fn is_empty(self) -> bool {
        self.start >= self.end
    }
}

/// The fixed-width epoch strategy: block index `b` belongs to epoch
/// `b / epoch_width`.
#[derive(Clone, Copy, Debug, PartialEq, Eq, Structural)]
pub struct ShardingStrategy {
    /// Number of blocks of each epoch; configured, and never zero.
    pub epoch_width: u64,
}

impl ShardingStrategy {
    /// Well-formed: epochs are not degenerate.
    pub open spec fn wf(self) -> bool {
        self.epoch_width > 0
    }

    /// The epoch a block index belongs to.
    pub open spec fn spec_epoch_for(self, block_index: u64) -> u64 {
        block_index / self.epoch_width
    }

    /// The epoch a block index belongs to.
    pub fn epoch_for(&self, block_index: u64) -> (e: u64)
        requires
            self.wf(),
        ensures
            e == self.spec_epoch_for(block_index),
    {
        block_index / self.epoch_width
    }

    /// The end of the sub-range that starts at `cursor`: the first index
    /// past `cursor`'s epoch, or `end` when that comes first.
    fn part_end_at(&self, cursor: u64, end: u64) -> (part_end: u64)
        requires
            self.wf(),
            cursor < end,
        ensures
            cursor < part_end <= end,
            self.spec_epoch_for(cursor) == self.spec_epoch_for((part_end - 1) as u64),
            part_end % self.epoch_width == 0 || part_end == end,
    {
        let left_in_epoch = self.epoch_width - cursor % self.epoch_width;
        let part_end = if end - cursor <= left_in_epoch {
            end
        } else {
            cursor + left_in_epoch
        };
        proof {
            let w = self.epoch_width as int;
            let q = cursor as int / w;
            vstd::arithmetic::div_mod::lemma_fundamental_div_mod(cursor as int, w);
            vstd::arithmetic::div_mod::lemma_mod_bound(cursor as int, w);
            assert((q + 1) * w == q * w + w) by (nonlinear_arith);
            assert(w * q == q * w) by (nonlinear_arith);
            assert(cursor + left_in_epoch == (q + 1) * w);
            let x = part_end as int - 1;
            vstd::arithmetic::div_mod::lemma_fundamental_div_mod_converse(x, w, q, x - q * w);
            assert(self.spec_epoch_for(cursor) == q);
            assert(self.spec_epoch_for((part_end - 1) as u64) == q);
            if part_end != end {
                vstd::arithmetic::div_mod::lemma_fundamental_div_mod_converse(
                    part_end as int,
                    w,
                    q + 1,
                    0,
                );
                assert(part_end % self.epoch_width == 0);
            }
        }
        part_end
    }

    /// Splits a queried block range into sub-queries, one per epoch.
    ///
    /// The parts chain without gap from the range's start to its end, each
    /// part is non-empty and lies within a single epoch, and each cut
    /// falls on an epoch boundary — so the split is exactly one part per
    /// epoch the range touches. An empty range splits into no parts.
    pub fn split_by_epoch(&self, range: &BlockRange) -> (parts: Vec<BlockRange>)
        requires
            self.wf(),
        ensures
            range.is_empty() ==> parts@.len() == 0,
            !range.is_empty() ==> {
                &&& parts@.len() > 0
                &&& parts@[0].start == range.start
                &&& parts@[parts@.len() - 1].end == range.end
            },
            forall|i: int| 0 <= i < parts@.len() ==> !(#[trigger] parts@[i]).is_empty(),
            forall|i: int, j: int|
                0 <= i && j == i + 1 && j < parts@.len() ==> (#[trigger] parts@[i]).end == (
                #[trigger] parts@[j]).start,
            forall|i: int|
                0 <= i < parts@.len() ==> self.spec_epoch_for((#[trigger] parts@[i]).start)
                    == self.spec_epoch_for((parts@[i].end - 1) as u64),
            forall|i: int|
                0 <= i < parts@.len() - 1 ==> (#[trigger] parts@[i]).end % self.epoch_width == 0,
    {
        let mut parts: Vec<BlockRange> = Vec::new();
        if range.start >= range.end {
            return parts;
        }
        let mut cursor: u64 = range.start;
        while cursor < range.end
            invariant
                self.wf(),
                range.start <= cursor <= range.end,
                range.start < range.end,
                cursor == range.start ==> parts@.len() == 0,
                cursor > range.start ==> parts@.len() > 0 && parts@[0].start == range.start
                    && parts@[parts@.len() - 1].end == cursor,
                forall|i: int| 0 <= i < parts@.len() ==> !(#[trigger] parts@[i]).is_empty(),
                forall|i: int, j: int|
                    0 <= i && j == i + 1 && j < parts@.len() ==> (#[trigger] parts@[i]).end == (
                    #[trigger] parts@[j]).start,
                forall|i: int|
                    0 <= i < parts@.len() ==> self.spec_epoch_for((#[trigger] parts@[i]).start)
                        == self.spec_epoch_for((parts@[i].end - 1) as u64),
                forall|i: int|
                    0 <= i < parts@.len() - 1 ==> (#[trigger] parts@[i]).end % self.epoch_width
                        == 0,
                cursor > range.start ==> (cursor % self.epoch_width == 0 || cursor == range.end),
            decreases range.end - cursor,
        {
            let part_end = self.part_end_at(cursor, range.end);
            proof {
                if parts@.len() > 0 {
                    assert(parts@[parts@.len() - 1].end == cursor);
                    assert(cursor % self.epoch_width == 0);
                }
            }
            parts.push(BlockRange { start: cursor, end: part_end });
            cursor = part_end;
        }
        parts
    }
}

/// In a chain of non-empty parts, an earlier part ends no later than a
/// later part starts.
pub proof fn lemma_chained_parts_ordered(parts: Seq<BlockRange>, i: int, j: int)
    requires
        forall|a: int| 0 <= a < parts.len() ==> !(#[trigger] parts[a]).is_empty(),
        forall|a: int, b: int|
            0 <= a && b == a + 1 && b < parts.len() ==> (#[trigger] parts[a]).end == (
            #[trigger] parts[b]).start,
        0 <= i < j < parts.len(),
    ensures
        parts[i].end <= parts[j].start,
    decreases j - i,
{
    if j == i + 1 {
    } else {
        lemma_chained_parts_ordered(parts, i, j - 1);
    }
}

/// A chained split covers each block of its range exactly once: a block
/// index lies in the range exactly when it lies in some part, and never
/// in two parts.
pub proof fn lemma_split_partitions_range(parts: Seq<BlockRange>, range: BlockRange, block_index: u64)
    requires
        range.is_empty() ==> parts.len() == 0,
        !range.is_empty() ==> parts.len() > 0 && parts[0].start == range.start && parts[parts.len()
            - 1].end == range.end,
        forall|a: int| 0 <= a < parts.len() ==> !(#[trigger] parts[a]).is_empty(),
        forall|a: int, b: int|
            0 <= a && b == a + 1 && b < parts.len() ==> (#[trigger] parts[a]).end == (
            #[trigger] parts[b]).start,
    ensures
        range.contains(block_index) <==> exists|i: int|
            0 <= i < parts.len() && (#[trigger] parts[i]).contains(block_index),
        forall|i: int, j: int|
            0 <= i < j < parts.len() ==> !((#[trigger] parts[i]).contains(block_index) && (
            #[trigger] parts[j]).contains(block_index)),
    decreases parts.len(),
{
    assert forall|i: int, j: int|
        0 <= i < j < parts.len() implies !((#[trigger] parts[i]).contains(block_index) && (
    #[trigger] parts[j]).contains(block_index)) by {
        lemma_chained_parts_ordered(parts, i, j);
    }
    if parts.len() == 0 {
    } else if parts.len() == 1 {
    } else {
        let last = parts[parts.len() - 1];
        let prefix = parts.drop_last();
        let front = BlockRange { start: range.start, end: last.start };
        assert(forall|a: int| 0 <= a < prefix.len() ==> prefix[a] == parts[a]);
        assert(parts[prefix.len() as int - 1].end == parts[prefix.len() as int].start);
        lemma_chained_parts_ordered(parts, 0, parts.len() as int - 1);
        assert(!front.is_empty());
        lemma_split_partitions_range(prefix, front, block_index);
        if range.contains(block_index) {
            if block_index < last.start {
                assert(front.contains(block_index));
                let w = choose|i: int|
                    0 <= i < prefix.len() && (#[trigger] prefix[i]).contains(block_index);
                assert(parts[w].contains(block_index));
            } else {
                assert(last.contains(block_index));
            }
        }
        if exists|i: int| 0 <= i < parts.len() && (#[trigger] parts[i]).contains(block_index) {
            let w = choose|i: int|
                0 <= i < parts.len() && (#[trigger] parts[i]).contains(block_index);
            if w > 0 {
                lemma_chained_parts_ordered(parts, 0, w);
            }
            assert(range.start <= parts[w].start);
            if w < parts.len() - 1 {
                lemma_chained_parts_ordered(parts, w, parts.len() - 1);
            }
            assert(parts[w].end <= range.end);
            assert(range.contains(block_index));
        }
    }
}

/// One directory entry: a shard listed as an owner of an epoch.
#[derive(Clone, Copy, Debug, PartialEq, Eq, Structural)]
pub struct ShardAssignment {
    /// The epoch owned.
    pub epoch: u64,
    /// The owning store server.
    pub shard_id: u64,
}

/// The shards a directory lists for an epoch, in directory order.
pub open spec fn spec_shards_for(assignments: Seq<ShardAssignment>, epoch: u64) -> Seq<u64>
    decreases assignments.len(),
{
    if assignments.len() == 0 {
        Seq::empty()
    } else {
        let rest = spec_shards_for(assignments.drop_last(), epoch);
        if assignments.last().epoch == epoch {
            rest.push(assignments.last().shard_id)
        } else {
            rest
        }
    }
}

/// A shard is listed for an epoch exactly when some directory entry
/// assigns that epoch to it; an epoch with no entry gets the empty list —
/// "not yet available", never an error.
pub proof fn lemma_spec_shards_for(assignments: Seq<ShardAssignment>, epoch: u64, shard_id: u64)
    ensures
        spec_shards_for(assignments, epoch).contains(shard_id) <==> exists|i: int|
            0 <= i < assignments.len() && #[trigger] assignments[i] == (ShardAssignment {
                epoch,
                shard_id,
            }),
    decreases assignments.len(),
{
    if assignments.len() == 0 {
    } else {
        let prefix = assignments.drop_last();
        lemma_spec_shards_for(prefix, epoch, shard_id);
        assert(forall|i: int| 0 <= i < prefix.len() ==> prefix[i] == assignments[i]);
        let shards = spec_shards_for(assignments, epoch);
        let rest = spec_shards_for(prefix, epoch);
        assert(assignments.last() == assignments[assignments.len() - 1]);
        if rest.contains(shard_id) {
            let w = choose|i: int|
                0 <= i < prefix.len() && #[trigger] prefix[i] == (ShardAssignment {
                    epoch,
                    shard_id,
                });
            assert(assignments[w] == (ShardAssignment { epoch, shard_id }));
        }
        if shards.contains(shard_id) && !rest.contains(shard_id) {
            let w = choose|k: int| 0 <= k < shards.len() && shards[k] == shard_id;
            if assignments.last().epoch == epoch {
                assert(shards == rest.push(assignments.last().shard_id));
                if w < rest.len() {
                    assert(rest.contains(shard_id));
                }
            }
        }
        if exists|i: int|
            0 <= i < assignments.len() && #[trigger] assignments[i] == (ShardAssignment {
                epoch,
                shard_id,
            }) {
            let w = choose|i: int|
                0 <= i < assignments.len() && #[trigger] assignments[i] == (ShardAssignment {
                    epoch,
                    shard_id,
                });
            if w < prefix.len() {
                assert(prefix[w] == (ShardAssignment { epoch, shard_id }));
                assert(rest.contains(shard_id));
                if assignments.last().epoch == epoch {
                    assert(spec_shards_for(assignments, epoch) == rest.push(
                        assignments.last().shard_id,
                    ));
                    let k = choose|k: int| 0 <= k < rest.len() && rest[k] == shard_id;
                    assert(spec_shards_for(assignments, epoch)[k] == shard_id);
                }
            } else {
                if assignments.last().epoch == epoch {
                    let shards2 = rest.push(assignments.last().shard_id);
                    assert(shards2[shards2.len() - 1] == shard_id);
                }
            }
        }
    }
}

/// The directory mapping epochs to their owning shards: a read-mostly
/// immutable snapshot, swapped whole on refresh; in-flight queries keep
/// the snapshot they started with.
#[derive(Clone, Debug, PartialEq, Eq)]
pub struct ShardDirectory {
    /// Every current epoch-to-shard assignment.
    pub assignments: Vec<ShardAssignment>,
}

impl ShardDirectory {
    /// The shards responsible for an epoch, in directory order: several
    /// during a handoff, none when the epoch has no owner yet.
    pub fn shards_for(&self, epoch: u64) -> (r: Vec<u64>)
        ensures
            r@ == spec_shards_for(self.assignments@, epoch),
    {
        let mut shards: Vec<u64> = Vec::new();
        let mut i: usize = 0;
        while i < self.assignments.len()
            invariant
                i <= self.assignments@.len(),
                shards@ == spec_shards_for(self.assignments@.take(i as int), epoch),
            decreases self.assignments@.len() - i,
        {
            proof {
                assert(self.assignments@.take(i + 1).drop_last() =~= self.assignments@.take(
                    i as int,
                ));
                assert(self.assignments@.take(i + 1).last() == self.assignments@[i as int]);
            }
            let entry = self.assignments[i];
            if entry.epoch == epoch {
                shards.push(entry.shard_id);
            }
            i = i + 1;
        }
        proof {
            assert(self.assignments@.take(self.assignments@.len() as int) =~= self.assignments@);
        }
        shards
    }
}

/// One sub-query of a split block range: the blocks to ask for, the epoch
/// they lie in, and the shards currently listed for that epoch.
#[derive(Clone, Debug, PartialEq, Eq)]
pub struct SubQuery {
    /// The blocks this sub-query asks for; within a single epoch.
    pub range: BlockRange,
    /// The epoch those blocks lie in.
    pub epoch: u64,
    /// The shards listed for that epoch; empty means not yet available.
    pub shards: Vec<u64>,
}

/// Plans a ranged query: splits the range into one sub-query per epoch and
/// looks the owning shards of each up in the directory snapshot.
pub fn plan_query(strategy: &ShardingStrategy, directory: &ShardDirectory, range: &BlockRange) -> (plan:
    Vec<SubQuery>)
    requires
        strategy.wf(),
    ensures
        range.is_empty() ==> plan@.len() == 0,
        !range.is_empty() ==> {
            &&& plan@.len() > 0
            &&& plan@[0].range.start == range.start
            &&& plan@[plan@.len() - 1].range.end == range.end
        },
        forall|i: int| 0 <= i < plan@.len() ==> !(#[trigger] plan@[i]).range.is_empty(),
        forall|i: int, j: int|
            0 <= i && j == i + 1 && j < plan@.len() ==> (#[trigger] plan@[i]).range.end == (
            #[trigger] plan@[j]).range.start,
        forall|i: int|
            0 <= i < plan@.len() ==> (#[trigger] plan@[i]).epoch == strategy.spec_epoch_for(
                plan@[i].range.start,
            ) && plan@[i].epoch == strategy.spec_epoch_for((plan@[i].range.end - 1) as u64),
        forall|i: int|
            0 <= i < plan@.len() ==> (#[trigger] plan@[i]).shards@ == spec_shards_for(
                directory.assignments@,
                plan@[i].epoch,
            ),
{
    let parts = strategy.split_by_epoch(range);
    let mut plan: Vec<SubQuery> = Vec::new();
    let mut i: usize = 0;
    while i < parts.len()
        invariant
            i <= parts@.len(),
            plan@.len() == i,
            strategy.wf(),
            forall|k: int| 0 <= k < parts@.len() ==> !(#[trigger] parts@[k]).is_empty(),
            forall|k: int|
                0 <= k < parts@.len() ==> strategy.spec_epoch_for((#[trigger] parts@[k]).start)
                    == strategy.spec_epoch_for((parts@[k].end - 1) as u64),
            forall|k: int| 0 <= k < i ==> (#[trigger] plan@[k]).range == parts@[k],
            forall|k: int|
                0 <= k < i ==> (#[trigger] plan@[k]).epoch == strategy.spec_epoch_for(
                    parts@[k].start,
                ),
            forall|k: int|
                0 <= k < i ==> (#[trigger] plan@[k]).shards@ == spec_shards_for(
                    directory.assignments@,
                    plan@[k].epoch,
                ),
        decreases parts@.len() - i,
    {
        let part = parts[i];
        let epoch = strategy.epoch_for(part.start);
        let shards = directory.shards_for(epoch);
        plan.push(SubQuery { range: part, epoch, shards });
        i = i + 1;
    }
    plan
}

} // verus!
