//! Per-shard key-image queries.
//!
//! A store server owns the spend records within its epoch coverage and the
//! watcher records that timestamp spending blocks, and answers one query:
//! for each key image, whether it was spent within this shard's coverage,
//! in which block, and the resolved signing timestamp of that block. The
//! shard reports its own locally known ledger height; taking the maximum
//! across shards is the router's job.
//!
//! The spend records stand behind the same interface the enclave's
//! oblivious lookup structure offers — a fixed capacity chosen at
//! construction, and a lookup from key image to spending block. The
//! access-pattern-hiding guarantee belongs to that collaborator and is not
//! re-derived here.

use vstd::prelude::*;
use crate::errors::QueryError;
use crate::types::KeyImage;
use crate::types::KeyImageResult;
use crate::types::TimestampResultCode;
use crate::watcher::WatcherTimestampResolver;

verus! {

/// One recorded spend: a key image and the block that consumed it.
#[derive(Clone, Copy, Debug, PartialEq, Eq, Structural)]
pub struct SpentRecord {
    /// The spent key image.
    pub key_image: KeyImage,
    /// The block in which it was spent.
    pub spent_at: u64,
}

/// The block recorded as spending the key image — the first record for it,
/// and with unique keys the only one — or `None` when no record names it.
pub open spec fn spent_at_in(records: Seq<SpentRecord>, key_image: KeyImage) -> Option<u64>
    decreases records.len(),
{
    if records.len() == 0 {
        None
    } else if records[0].key_image == key_image {
        Some(records[0].spent_at)
    } else {
        spent_at_in(records.skip(1), key_image)
    }
}

/// A lookup answers `None` exactly when no record names the key image, and
/// a found block is always one some record holds for it.
pub proof fn lemma_spent_at_in(records: Seq<SpentRecord>, key_image: KeyImage)
    ensures
        spent_at_in(records, key_image) is None <==> forall|i: int|
            0 <= i < records.len() ==> (#[trigger] records[i]).key_image != key_image,
        spent_at_in(records, key_image) matches Some(b) ==> exists|i: int|
            0 <= i < records.len() && (#[trigger] records[i]).key_image == key_image
                && records[i].spent_at == b,
    decreases records.len(),
{
    if records.len() == 0 {
    } else {
        let rest = records.skip(1);
        lemma_spent_at_in(rest, key_image);
        assert(forall|i: int| 0 <= i < rest.len() ==> rest[i] == records[i + 1]);
        if spent_at_in(records, key_image) is None {
            assert forall|i: int|
                0 <= i < records.len() implies (#[trigger] records[i]).key_image != key_image by {
                if i > 0 {
                    assert(rest[i - 1] == records[i]);
                    assert(rest[i - 1].key_image != key_image);
                }
            }
        }
        if forall|i: int| 0 <= i < records.len() ==> (#[trigger] records[i]).key_image != key_image {
            assert forall|i: int|
                0 <= i < rest.len() implies (#[trigger] rest[i]).key_image != key_image by {
                assert(records[i + 1].key_image != key_image);
            }
            assert(spent_at_in(rest, key_image) is None);
        }
        if records[0].key_image != key_image {
            if spent_at_in(rest, key_image) is Some {
                let b = spent_at_in(rest, key_image)->Some_0;
                let w = choose|i: int|
                    0 <= i < rest.len() && (#[trigger] rest[i]).key_image == key_image
                        && rest[i].spent_at == b;
                assert(records[w + 1].key_image == key_image && records[w + 1].spent_at == b);
            }
        }
    }
}

/// The query layer's handle on the key-image lookup structure: spend
/// records behind a fixed capacity chosen at construction, each key image
/// recorded at most once.
#[derive(Clone, Debug, PartialEq, Eq)]
pub struct KeyImageLookup {
    /// Greatest number of records the structure can hold.
    pub capacity: usize,
    /// The spend records loaded so far.
    pub records: Vec<SpentRecord>,
}

impl KeyImageLookup {
    /// Well-formed: within capacity, and no key image recorded twice.
    pub open spec fn wf(self) -> bool {
        &&& self.records@.len() <= self.capacity
        &&& forall|i: int, j: int|
            0 <= i < j < self.records@.len() ==> (#[trigger] self.records@[i]).key_image != (
            #[trigger] self.records@[j]).key_image
    }

    /// An empty lookup structure with the given fixed capacity.
    pub fn new(capacity: usize) -> (r: Self)
        ensures
            r.wf(),
            r.capacity == capacity,
            r.records@.len() == 0,
    {
        KeyImageLookup { capacity, records: Vec::new() }
    }

    /// Records one spend. The record is taken exactly when the key image
    /// is not yet recorded and the structure is not full; otherwise the
    /// structure is unchanged.
    pub fn record_spend(&mut self, key_image: KeyImage, spent_at: u64) -> (taken: bool)
        requires
            old(self).wf(),
        ensures
            final(self).wf(),
            final(self).capacity == old(self).capacity,
            taken == (spent_at_in(old(self).records@, key_image) is None && old(self).records@.len()
                < old(self).capacity),
            taken ==> final(self).records@ == old(self).records@.push(
                SpentRecord { key_image, spent_at },
            ),
            !taken ==> *final(self) == *old(self),
    {
        proof {
            lemma_spent_at_in(self.records@, key_image);
        }
        if self.records.len() >= self.capacity {
            return false;
        }
        if self.check(&key_image).is_some() {
            return false;
        }
        self.records.push(SpentRecord { key_image, spent_at });
        true
    }

    /// Looks one key image up: the block recorded as spending it, or
    /// `None` when it was never recorded as spent.
    pub fn check(&self, key_image: &KeyImage) -> (r: Option<u64>)
        ensures
            r == spent_at_in(self.records@, *key_image),
    {
        proof {
            assert(self.records@.skip(0) =~= self.records@);
        }
        let mut i: usize = 0;
        while i < self.records.len()
            invariant
                i <= self.records@.len(),
                spent_at_in(self.records@, *key_image) == spent_at_in(
                    self.records@.skip(i as int),
                    *key_image,
                ),
            decreases self.records@.len() - i,
        {
            proof {
                assert(self.records@.skip(i as int)[0] == self.records@[i as int]);
                assert(self.records@.skip(i as int).skip(1) =~= self.records@.skip(i + 1));
            }
            let rec = self.records[i];
            if rec.key_image == *key_image {
                return Some(rec.spent_at);
            }
            i = i + 1;
        }
        None
    }
}

/// Repeating an identical key-image query against an unchanged shard
/// yields identical results: the answer is a function of the shard's
/// records and the query alone.
pub proof fn lemma_check_key_images_idempotent(
    store: StoreServer,
    images: Seq<KeyImage>,
    repeat: Seq<KeyImage>,
)
    requires
        repeat == images,
    ensures
        forall|j: int|
            0 <= j < images.len() ==> store.spec_result_for(#[trigger] images[j])
                == store.spec_result_for(repeat[j]),
{
}

/// Whether two chain identifiers are the same byte string.
pub fn chain_ids_match(a: &Vec<u8>, b: &Vec<u8>) -> (r: bool)
    ensures
        r == (a@ == b@),
{
    let r = *a == *b;
    proof {
        if r {
            assert(a@ =~= b@);
        } else {
            if a@ == b@ {
                assert(forall|i: int| #![auto] 0 <= i < a@.len() ==> a@[i] == b@[i]);
            }
        }
    }
    r
}

/// One shard's answer to a key-image query.
#[derive(Clone, Debug, PartialEq, Eq)]
pub struct CheckKeyImagesResponse {
    /// The ledger height as the answering shard knows it.
    pub num_blocks: u64,
    /// Total transaction outputs in the ledger as the answering shard
    /// knows it.
    pub global_txo_count: u64,
    /// One result per queried key image, in query order.
    pub results: Vec<KeyImageResult>,
}

/// What the router may assume of a shard's response to `images`: one
/// result per queried image in order, each echoing its image, and every
/// never-spent image carrying the fixed sentinel `(u64::MAX,
/// TimestampFound)`.
pub open spec fn response_wf(resp: CheckKeyImagesResponse, images: Seq<KeyImage>) -> bool {
    &&& resp.results@.len() == images.len()
    &&& forall|j: int|
        0 <= j < images.len() ==> (#[trigger] resp.results@[j]).key_image == images[j]
    &&& forall|j: int|
        0 <= j < images.len() ==> ((#[trigger] resp.results@[j]).spent_at is None
            ==> resp.results@[j].timestamp == u64::MAX && resp.results@[j].timestamp_result_code
            == TimestampResultCode::TimestampFound)
}

/// One shard of the deployment: the spend records and watcher records for
/// its epoch coverage, and the ledger metadata it locally knows.
#[derive(Clone, Debug, PartialEq, Eq)]
pub struct StoreServer {
    /// Chain identifier of the deployment this store belongs to.
    pub chain_id: Vec<u8>,
    /// The ledger height this shard has locally seen.
    pub num_blocks: u64,
    /// Total transaction outputs in the ledger as this shard has seen it.
    pub global_txo_count: u64,
    /// The spend records within this shard's epoch coverage.
    pub lookup: KeyImageLookup,
    /// The watcher records used to timestamp spending blocks.
    pub watcher: WatcherTimestampResolver,
}

impl StoreServer {
    /// Well-formed: the lookup structure is, and every recorded spend lies
    /// in a block this shard has seen.
    pub open spec fn wf(self) -> bool {
        &&& self.lookup.wf()
        &&& forall|i: int|
            0 <= i < self.lookup.records@.len() ==> (#[trigger] self.lookup.records@[i]).spent_at
                < self.num_blocks
    }

    /// The result this shard gives for one key image: the recorded
    /// spending block with its resolved timestamp, or `None` with the
    /// fixed sentinel `(u64::MAX, TimestampFound)` when the image was
    /// never recorded as spent — the resolver is not consulted then.
    pub open spec fn spec_result_for(self, key_image: KeyImage) -> KeyImageResult {
        match spent_at_in(self.lookup.records@, key_image) {
            Option::Some(b) => KeyImageResult {
                key_image,
                spent_at: Some(b),
                timestamp: self.watcher.spec_resolve(b).0,
                timestamp_result_code: self.watcher.spec_resolve(b).1,
            },
            Option::None => crate::types::never_spent_result(key_image),
        }
    }

    /// Answers a key-image query against this shard's coverage.
    ///
    /// A client whose chain identifier differs from the deployment's is
    /// rejected with `IdentityMismatch` and nothing is looked up. Otherwise
    /// the response holds, in query order, one result per image: the
    /// spending block and its resolved timestamp for a recorded spend, and
    /// `spent_at = None` with the sentinel `(u64::MAX, TimestampFound)`
    /// for a key image never recorded as spent.
    pub fn check_key_images(&self, chain_id: &Vec<u8>, images: &Vec<KeyImage>) -> (r: Result<
        CheckKeyImagesResponse,
        QueryError,
    >)
        requires
            self.wf(),
        ensures
            r is Ok <==> chain_id@ == self.chain_id@,
            r matches Err(e) ==> e == QueryError::IdentityMismatch,
            r matches Ok(resp) ==> {
                &&& resp.num_blocks == self.num_blocks
                &&& resp.global_txo_count == self.global_txo_count
                &&& resp.results@.len() == images@.len()
                &&& forall|j: int|
                    0 <= j < images@.len() ==> (#[trigger] resp.results@[j]) == self.spec_result_for(
                        images@[j],
                    )
                &&& response_wf(resp, images@)
                &&& forall|j: int|
                    0 <= j < images@.len() && spent_at_in(self.lookup.records@, images@[j]) is None
                        ==> {
                        &&& (#[trigger] resp.results@[j]).spent_at is None
                        &&& resp.results@[j].timestamp == u64::MAX
                        &&& resp.results@[j].timestamp_result_code
                            == TimestampResultCode::TimestampFound
                    }
                &&& forall|j: int|
                    0 <= j < images@.len() && spent_at_in(self.lookup.records@, images@[j]) is Some
                        ==> ((#[trigger] resp.results@[j]).spent_at matches Some(b) && b
                        < self.num_blocks)
            },
    {
        if !chain_ids_match(chain_id, &self.chain_id) {
            return Err(QueryError::IdentityMismatch);
        }
        let mut results: Vec<KeyImageResult> = Vec::new();
        let mut i: usize = 0;
        while i < images.len()
            invariant
                i <= images@.len(),
                results@.len() == i,
                forall|j: int|
                    0 <= j < i ==> (#[trigger] results@[j]) == self.spec_result_for(images@[j]),
                self.wf(),
            decreases images@.len() - i,
        {
            let image = images[i];
            match self.lookup.check(&image) {
                Option::Some(spent_at) => {
                    proof {
                        lemma_spent_at_in(self.lookup.records@, image);
                    }
                    let (timestamp, timestamp_result_code) = self.watcher.resolve(spent_at);
                    results.push(
                        KeyImageResult {
                            key_image: image,
                            spent_at: Some(spent_at),
                            timestamp,
                            timestamp_result_code,
                        },
                    );
                },
                Option::None => {
                    results.push(
                        KeyImageResult {
                            key_image: image,
                            spent_at: None,
                            timestamp: u64::MAX,
                            timestamp_result_code: TimestampResultCode::TimestampFound,
                        },
                    );
                },
            }
            i = i + 1;
        }
        proof {
            assert forall|j: int|
                0 <= j < images@.len() && spent_at_in(self.lookup.records@, images@[j]) is Some
                implies ((#[trigger] results@[j]).spent_at matches Some(b) && b
                < self.num_blocks) by {
                lemma_spent_at_in(self.lookup.records@, images@[j]);
            }
        }
        Ok(
            CheckKeyImagesResponse {
                num_blocks: self.num_blocks,
                global_txo_count: self.global_txo_count,
                results,
            },
        )
    }
}

} // verus!
