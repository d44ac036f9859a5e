//! Resolution of block signing timestamps from watcher records.
//!
//! Independent observers ("sources") watch the ledger, record signed
//! timestamps for the blocks they see, and report how far they have
//! synced. Given a block index, the resolver answers with the earliest
//! recorded signing timestamp — the most conservative estimate of when the
//! block became final — or with a code saying why none is available: every
//! source may still be short of the block, one source may be behind while
//! another has passed it, or every source may have passed it without ever
//! signing it.

use vstd::prelude::*;
use crate::types::TimestampResultCode;

verus! {

/// One signed timestamp on record: an observer signed the block at the
/// given wall-clock time. Several may exist for one block index, one per
/// independent observer; each is immutable once recorded.
#[derive(Clone, Copy, Debug, PartialEq, Eq, Structural)]
pub struct SignedBlockTimestamp {
    /// The block the signature is for.
    pub block_index: u64,
    /// The observer that signed it.
    pub signer: u64,
    /// When the observer signed it, in seconds since the epoch.
    pub signed_at: u64,
}

/// How far one timestamp source has synced: it has seen every block with
/// index below `synced_height`.
#[derive(Clone, Copy, Debug, PartialEq, Eq, Structural)]
pub struct SourceSync {
    /// The observer whose progress this is.
    pub signer: u64,
    /// The observer has synced all blocks with index below this height.
    pub synced_height: u64,
}

/// Whether some record holds a timestamp for the block.
pub open spec fn has_timestamp_for(entries: Seq<SignedBlockTimestamp>, block_index: u64) -> bool {
    exists|i: int| 0 <= i < entries.len() && (#[trigger] entries[i]).block_index == block_index
}

/// The earliest `signed_at` among the records for the block, or `None`
/// when no record holds one.
pub open spec fn earliest_timestamp_for(entries: Seq<SignedBlockTimestamp>, block_index: u64) -> Option<
    u64,
>
    decreases entries.len(),
{
    if entries.len() == 0 {
        None
    } else {
        let rest = earliest_timestamp_for(entries.drop_last(), block_index);
        let last = entries.last();
        if last.block_index == block_index {
            match rest {
                Option::None => Some(last.signed_at),
                Option::Some(t) => if last.signed_at < t {
                    Some(last.signed_at)
                } else {
                    Some(t)
                },
            }
        } else {
            rest
        }
    }
}

/// Whether some source has synced past the block.
pub open spec fn some_source_covers(sources: Seq<SourceSync>, block_index: u64) -> bool {
    exists|i: int| 0 <= i < sources.len() && (#[trigger] sources[i]).synced_height > block_index
}

/// Whether some source has not yet reached the block.
pub open spec fn some_source_behind(sources: Seq<SourceSync>, block_index: u64) -> bool {
    exists|i: int| 0 <= i < sources.len() && (#[trigger] sources[i]).synced_height <= block_index
}

/// The earliest recorded timestamp is a recorded timestamp, is no later
/// than any recorded timestamp for the block, and exists exactly when some
/// record covers the block.
pub proof fn lemma_earliest_timestamp_for(entries: Seq<SignedBlockTimestamp>, block_index: u64)
    ensures
        earliest_timestamp_for(entries, block_index) is None <==> !has_timestamp_for(
            entries,
            block_index,
        ),
        earliest_timestamp_for(entries, block_index) matches Some(t) ==> exists|i: int|
            0 <= i < entries.len() && (#[trigger] entries[i]).block_index == block_index
                && entries[i].signed_at == t,
        earliest_timestamp_for(entries, block_index) matches Some(t) ==> forall|i: int|
            0 <= i < entries.len() && (#[trigger] entries[i]).block_index == block_index
                ==> t <= entries[i].signed_at,
    decreases entries.len(),
{
    if entries.len() == 0 {
    } else {
        let prefix = entries.drop_last();
        lemma_earliest_timestamp_for(prefix, block_index);
        assert(forall|i: int| 0 <= i < prefix.len() ==> prefix[i] == entries[i]);
        if has_timestamp_for(entries, block_index) {
            let w = choose|i: int|
                0 <= i < entries.len() && (#[trigger] entries[i]).block_index == block_index;
            if w < prefix.len() {
                assert(has_timestamp_for(prefix, block_index));
            }
        }
        if has_timestamp_for(prefix, block_index) {
            let w = choose|i: int|
                0 <= i < prefix.len() && (#[trigger] prefix[i]).block_index == block_index;
            assert(entries[w].block_index == block_index);
            assert(has_timestamp_for(entries, block_index));
        }
        if earliest_timestamp_for(prefix, block_index) is Some {
            let t = earliest_timestamp_for(prefix, block_index)->Some_0;
            let w = choose|i: int|
                0 <= i < prefix.len() && (#[trigger] prefix[i]).block_index == block_index
                    && prefix[i].signed_at == t;
            assert(entries[w].block_index == block_index && entries[w].signed_at == t);
        }
    }
}

/// The watcher's records, read-only to the query layer: the signed block
/// timestamps observed so far, and each source's sync progress.
#[derive(Clone, Debug, PartialEq, Eq)]
pub struct WatcherTimestampResolver {
    /// Every signed timestamp on record.
    pub timestamps: Vec<SignedBlockTimestamp>,
    /// Each source's sync height.
    pub sources: Vec<SourceSync>,
}

impl WatcherTimestampResolver {
    /// The timestamp and result code resolved for a block index.
    pub open spec fn spec_resolve(self, block_index: u64) -> (u64, TimestampResultCode) {
        match earliest_timestamp_for(self.timestamps@, block_index) {
            Option::Some(t) => (t, TimestampResultCode::TimestampFound),
            Option::None => if !some_source_covers(self.sources@, block_index) {
                (u64::MAX, TimestampResultCode::BlockIndexOutOfBounds)
            } else if some_source_behind(self.sources@, block_index) {
                (u64::MAX, TimestampResultCode::WatcherBehind)
            } else {
                (u64::MAX, TimestampResultCode::Unavailable)
            },
        }
    }

    /// Resolves the best-known signing timestamp of one block.
    ///
    /// When at least one signed timestamp is on record for the block, the
    /// earliest one is returned with `TimestampFound`. Otherwise the
    /// timestamp is `u64::MAX` ("unbounded future, unknown") and the code
    /// says why: `BlockIndexOutOfBounds` when no source has synced past the
    /// block, `WatcherBehind` when a source is still short of it although
    /// another has passed it (the absence may be temporary), and
    /// `Unavailable` when every source has passed it without signing it
    /// (the absence is permanent).
    pub fn resolve(&self, block_index: u64) -> (r: (u64, TimestampResultCode))
        ensures
            r == self.spec_resolve(block_index),
            has_timestamp_for(self.timestamps@, block_index) ==> {
                &&& r.1 == TimestampResultCode::TimestampFound
                &&& exists|i: int|
                    0 <= i < self.timestamps@.len() && (#[trigger] self.timestamps@[i]).block_index
                        == block_index && self.timestamps@[i].signed_at == r.0
                &&& forall|i: int|
                    0 <= i < self.timestamps@.len() && (#[trigger] self.timestamps@[i]).block_index
                        == block_index ==> r.0 <= self.timestamps@[i].signed_at
            },
            !has_timestamp_for(self.timestamps@, block_index) ==> r.0 == u64::MAX,
    {
        proof {
            lemma_earliest_timestamp_for(self.timestamps@, block_index);
        }
        let mut best: Option<u64> = None;
        let mut i: usize = 0;
        while i < self.timestamps.len()
            invariant
                i <= self.timestamps@.len(),
                best == earliest_timestamp_for(self.timestamps@.take(i as int), block_index),
            decreases self.timestamps@.len() - i,
        {
            proof {
                assert(self.timestamps@.take(i + 1).drop_last() =~= self.timestamps@.take(i as int));
                assert(self.timestamps@.take(i + 1).last() == self.timestamps@[i as int]);
            }
            let e = self.timestamps[i];
            if e.block_index == block_index {
                best = match best {
                    Option::None => Some(e.signed_at),
                    Option::Some(t) => if e.signed_at < t {
                        Some(e.signed_at)
                    } else {
                        Some(t)
                    },
                };
            }
            i = i + 1;
        }
        proof {
            assert(self.timestamps@.take(self.timestamps@.len() as int) =~= self.timestamps@);
        }
        match best {
            Option::Some(t) => (t, TimestampResultCode::TimestampFound),
            Option::None => {
                let mut covers = false;
                let mut behind = false;
                let mut j: usize = 0;
                while j < self.sources.len()
                    invariant
                        j <= self.sources@.len(),
                        covers == exists|k: int|
                            0 <= k < j && (#[trigger] self.sources@[k]).synced_height > block_index,
                        behind == exists|k: int|
                            0 <= k < j && (#[trigger] self.sources@[k]).synced_height <= block_index,
                    decreases self.sources@.len() - j,
                {
                    let s = self.sources[j];
                    if s.synced_height > block_index {
                        covers = true;
                    } else {
                        behind = true;
                    }
                    proof {
                        assert((self.sources@[j as int]).synced_height == s.synced_height);
                    }
                    j = j + 1;
                }
                if !covers {
                    (u64::MAX, TimestampResultCode::BlockIndexOutOfBounds)
                } else if behind {
                    (u64::MAX, TimestampResultCode::WatcherBehind)
                } else {
                    (u64::MAX, TimestampResultCode::Unavailable)
                }
            },
        }
    }
}

} // verus!
