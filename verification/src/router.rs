//! Client-facing aggregation across shards.
//!
//! Any key image could have been spent within any shard's coverage, so the
//! router sends the full image set to every shard and merges the answers:
//! for each image the earliest reported spending block is authoritative,
//! and the merged ledger height is the largest any shard reported — the
//! freshest view, never a stale minority one. The merge is fail-closed: a
//! shard that stayed unreachable after its retry budget fails the whole
//! query, since silently omitting its view could turn a spent key image
//! into a false "not spent". A chain-identity mismatch aborts before any
//! shard is consulted.

use vstd::prelude::*;
use crate::errors::Error;
use crate::errors::QueryError;
use crate::store::CheckKeyImagesResponse;
use crate::store::StoreServer;
use crate::store::chain_ids_match;
use crate::store::response_wf;
use crate::types::KeyImage;
use crate::types::KeyImageResult;
use crate::types::never_spent_result;

verus! {

/// The merged answer the router hands the client: global ledger metadata
/// as known by the most up-to-date responding shard, and one merged result
/// per queried key image.
#[derive(Clone, Debug, PartialEq, Eq)]
pub struct AggregatedQueryResponse {
    /// Largest ledger height any contributing shard reported.
    pub num_blocks: u64,
    /// Largest total output count any contributing shard reported.
    pub global_txo_count: u64,
    /// One merged result per queried key image, in query order.
    pub results: Vec<KeyImageResult>,
}

/// Of two results for the same key image, the one reporting the earlier
/// spending block; a result without a spend defers to the other. On a tie
/// the first keeps its place.
pub open spec fn spec_pick_earlier_spend(a: KeyImageResult, b: KeyImageResult) -> KeyImageResult {
    match (a.spent_at, b.spent_at) {
        (Option::Some(x), Option::Some(y)) => if y < x {
            b
        } else {
            a
        },
        (Option::Some(_), Option::None) => a,
        (Option::None, _) => b,
    }
}

/// The merged result for the key image at query position `j`: the fold of
/// the shard responses under [`spec_pick_earlier_spend`], starting from
/// the never-spent sentinel.
pub open spec fn spec_merged_result(
    responses: Seq<CheckKeyImagesResponse>,
    j: int,
    key_image: KeyImage,
) -> KeyImageResult
    decreases responses.len(),
{
    if responses.len() == 0 {
        never_spent_result(key_image)
    } else {
        spec_pick_earlier_spend(
            spec_merged_result(responses.drop_last(), j, key_image),
            responses.last().results@[j],
        )
    }
}

/// Largest ledger height any response reports; 0 with no responses.
pub open spec fn spec_max_num_blocks(responses: Seq<CheckKeyImagesResponse>) -> u64
    decreases responses.len(),
{
    if responses.len() == 0 {
        0
    } else {
        let rest = spec_max_num_blocks(responses.drop_last());
        if responses.last().num_blocks > rest {
            responses.last().num_blocks
        } else {
            rest
        }
    }
}

/// Largest total output count any response reports; 0 with no responses.
pub open spec fn spec_max_txo_count(responses: Seq<CheckKeyImagesResponse>) -> u64
    decreases responses.len(),
{
    if responses.len() == 0 {
        0
    } else {
        let rest = spec_max_txo_count(responses.drop_last());
        if responses.last().global_txo_count > rest {
            responses.last().global_txo_count
        } else {
            rest
        }
    }
}

/// The merged ledger height is the maximum any contributing shard
/// reported: no smaller than each, and attained by one of them.
pub proof fn lemma_max_num_blocks(responses: Seq<CheckKeyImagesResponse>)
    ensures
        forall|i: int|
            0 <= i < responses.len() ==> (#[trigger] responses[i]).num_blocks <= spec_max_num_blocks(
                responses,
            ),
        responses.len() > 0 ==> exists|i: int|
            0 <= i < responses.len() && (#[trigger] responses[i]).num_blocks
                == spec_max_num_blocks(responses),
    decreases responses.len(),
{
    if responses.len() == 0 {
    } else {
        let prefix = responses.drop_last();
        lemma_max_num_blocks(prefix);
        assert(forall|i: int| 0 <= i < prefix.len() ==> prefix[i] == responses[i]);
        if prefix.len() > 0 {
            let w = choose|i: int|
                0 <= i < prefix.len() && (#[trigger] prefix[i]).num_blocks == spec_max_num_blocks(
                    prefix,
                );
            assert(responses[w].num_blocks == spec_max_num_blocks(prefix));
        }
        assert(responses[responses.len() - 1] == responses.last());
    }
}

/// As the ledger grows, each shard's reported height only grows, and then
/// the aggregated height never decreases: repeated queries see a
/// monotonically non-decreasing `num_blocks`.
pub proof fn lemma_num_blocks_monotonic(
    earlier: Seq<CheckKeyImagesResponse>,
    later: Seq<CheckKeyImagesResponse>,
)
    requires
        earlier.len() == later.len(),
        forall|i: int|
            0 <= i < earlier.len() ==> (#[trigger] earlier[i]).num_blocks <= (
            #[trigger] later[i]).num_blocks,
    ensures
        spec_max_num_blocks(earlier) <= spec_max_num_blocks(later),
    decreases earlier.len(),
{
    if earlier.len() == 0 {
    } else {
        assert(forall|i: int|
            0 <= i < earlier.len() - 1 ==> earlier.drop_last()[i] == earlier[i]);
        assert(forall|i: int| 0 <= i < later.len() - 1 ==> later.drop_last()[i] == later[i]);
        lemma_num_blocks_monotonic(earlier.drop_last(), later.drop_last());
        assert(earlier.last() == earlier[earlier.len() - 1]);
        assert(later.last() == later[later.len() - 1]);
    }
}

/// The same monotonicity at the shard set: as every shard's ledger view
/// grows, the height the router aggregates never decreases.
pub proof fn lemma_router_num_blocks_monotonic(earlier: Seq<StoreServer>, later: Seq<StoreServer>)
    requires
        earlier.len() == later.len(),
        forall|i: int|
            0 <= i < earlier.len() ==> (#[trigger] earlier[i]).num_blocks <= (
            #[trigger] later[i]).num_blocks,
    ensures
        spec_shards_max_num_blocks(earlier) <= spec_shards_max_num_blocks(later),
    decreases earlier.len(),
{
    if earlier.len() == 0 {
    } else {
        assert(forall|i: int|
            0 <= i < earlier.len() - 1 ==> earlier.drop_last()[i] == earlier[i]);
        assert(forall|i: int| 0 <= i < later.len() - 1 ==> later.drop_last()[i] == later[i]);
        lemma_router_num_blocks_monotonic(earlier.drop_last(), later.drop_last());
        assert(earlier.last() == earlier[earlier.len() - 1]);
        assert(later.last() == later[later.len() - 1]);
    }
}

/// Merge correctness for one query position: the merged result reports
/// the smallest spending block any shard reported, it is one shard's
/// result whenever any shard reported a spend, and it is the never-spent
/// sentinel exactly when no shard did.
pub proof fn lemma_merged_result(
    responses: Seq<CheckKeyImagesResponse>,
    j: int,
    key_image: KeyImage,
)
    requires
        forall|i: int|
            0 <= i < responses.len() ==> j < (#[trigger] responses[i]).results@.len(),
        forall|i: int|
            0 <= i < responses.len() ==> ((#[trigger] responses[i]).results@[j].spent_at is None
                ==> responses[i].results@[j] == never_spent_result(key_image)),
    ensures
        spec_merged_result(responses, j, key_image).spent_at is None <==> forall|i: int|
            0 <= i < responses.len() ==> (#[trigger] responses[i]).results@[j].spent_at is None,
        spec_merged_result(responses, j, key_image).spent_at is None ==> spec_merged_result(
            responses,
            j,
            key_image,
        ) == never_spent_result(key_image),
        spec_merged_result(responses, j, key_image).spent_at is Some ==> exists|i: int|
            0 <= i < responses.len() && (#[trigger] responses[i]).results@[j]
                == spec_merged_result(responses, j, key_image),
        forall|i: int|
            0 <= i < responses.len() && (#[trigger] responses[i]).results@[j].spent_at is Some
                ==> spec_merged_result(responses, j, key_image).spent_at is Some
                && spec_merged_result(responses, j, key_image).spent_at->Some_0
                <= responses[i].results@[j].spent_at->Some_0,
    decreases responses.len(),
{
    if responses.len() == 0 {
    } else {
        let prefix = responses.drop_last();
        assert(forall|i: int| 0 <= i < prefix.len() ==> prefix[i] == responses[i]);
        lemma_merged_result(prefix, j, key_image);
        let merged_prefix = spec_merged_result(prefix, j, key_image);
        let last = responses.last();
        assert(last == responses[responses.len() - 1]);
        if merged_prefix.spent_at is Some {
            let w = choose|i: int|
                0 <= i < prefix.len() && (#[trigger] prefix[i]).results@[j] == merged_prefix;
            assert(responses[w].results@[j] == merged_prefix);
        }
        if spec_merged_result(responses, j, key_image).spent_at is None {
            assert forall|i: int|
                0 <= i < responses.len() implies (
            #[trigger] responses[i]).results@[j].spent_at is None by {
                if i < responses.len() - 1 {
                    assert(prefix[i] == responses[i]);
                }
            }
        }
    }
}

/// Of two per-image result lists that agree pointwise, the merges agree;
/// and of two response lists whose metadata agree pointwise, the maxima
/// agree. Stated for the router over the store contract: a response list
/// in which every entry is what its shard's records determine merges to
/// what the shard set's records determine.
pub proof fn lemma_merge_of_shard_responses(
    responses: Seq<CheckKeyImagesResponse>,
    shards: Seq<StoreServer>,
    images: Seq<KeyImage>,
    j: int,
)
    requires
        responses.len() == shards.len(),
        0 <= j < images.len(),
        forall|k: int|
            0 <= k < responses.len() ==> j < (#[trigger] responses[k]).results@.len(),
        forall|k: int|
            0 <= k < responses.len() ==> (#[trigger] responses[k]).results@[j] == shards[
                k
            ].spec_result_for(images[j]),
    ensures
        spec_merged_result(responses, j, images[j]) == spec_aggregate_result(shards, images[j]),
    decreases responses.len(),
{
    if responses.len() == 0 {
    } else {
        let rp = responses.drop_last();
        let sp = shards.drop_last();
        assert(forall|k: int| 0 <= k < rp.len() ==> rp[k] == responses[k]);
        assert(forall|k: int| 0 <= k < sp.len() ==> sp[k] == shards[k]);
        lemma_merge_of_shard_responses(rp, sp, images, j);
        assert(responses.last() == responses[responses.len() - 1]);
        assert(shards.last() == shards[shards.len() - 1]);
    }
}

/// The response metadata of a shard-matching response list folds to the
/// shard set's own maxima.
pub proof fn lemma_maxima_of_shard_responses(
    responses: Seq<CheckKeyImagesResponse>,
    shards: Seq<StoreServer>,
)
    requires
        responses.len() == shards.len(),
        forall|k: int|
            0 <= k < responses.len() ==> (#[trigger] responses[k]).num_blocks == shards[
                k
            ].num_blocks,
        forall|k: int|
            0 <= k < responses.len() ==> (#[trigger] responses[k]).global_txo_count == shards[
                k
            ].global_txo_count,
    ensures
        spec_max_num_blocks(responses) == spec_shards_max_num_blocks(shards),
        spec_max_txo_count(responses) == spec_shards_max_txo_count(shards),
    decreases responses.len(),
{
    if responses.len() == 0 {
    } else {
        let rp = responses.drop_last();
        let sp = shards.drop_last();
        assert(forall|k: int| 0 <= k < rp.len() ==> rp[k] == responses[k]);
        assert(forall|k: int| 0 <= k < sp.len() ==> sp[k] == shards[k]);
        lemma_maxima_of_shard_responses(rp, sp);
        assert(responses.last() == responses[responses.len() - 1]);
        assert(shards.last() == shards[shards.len() - 1]);
    }
}

/// The result the shard set's records determine for one key image: the
/// fold of each shard's own result under [`spec_pick_earlier_spend`].
pub open spec fn spec_aggregate_result(shards: Seq<StoreServer>, key_image: KeyImage) -> KeyImageResult
    decreases shards.len(),
{
    if shards.len() == 0 {
        never_spent_result(key_image)
    } else {
        spec_pick_earlier_spend(
            spec_aggregate_result(shards.drop_last(), key_image),
            shards.last().spec_result_for(key_image),
        )
    }
}

/// Largest ledger height any shard of the set has seen; 0 with no shards.
pub open spec fn spec_shards_max_num_blocks(shards: Seq<StoreServer>) -> u64
    decreases shards.len(),
{
    if shards.len() == 0 {
        0
    } else {
        let rest = spec_shards_max_num_blocks(shards.drop_last());
        if shards.last().num_blocks > rest {
            shards.last().num_blocks
        } else {
            rest
        }
    }
}

/// Largest total output count any shard of the set has seen; 0 with no
/// shards.
pub open spec fn spec_shards_max_txo_count(shards: Seq<StoreServer>) -> u64
    decreases shards.len(),
{
    if shards.len() == 0 {
        0
    } else {
        let rest = spec_shards_max_txo_count(shards.drop_last());
        if shards.last().global_txo_count > rest {
            shards.last().global_txo_count
        } else {
            rest
        }
    }
}

/// Repeating an identical query against an unchanged shard set yields
/// identical merged results: the aggregated answer is a function of the
/// shard records and the query alone.
pub proof fn lemma_aggregate_idempotent(
    shards: Seq<StoreServer>,
    images: Seq<KeyImage>,
    repeat: Seq<KeyImage>,
)
    requires
        repeat == images,
    ensures
        forall|j: int|
            0 <= j < images.len() ==> spec_aggregate_result(shards, #[trigger] images[j])
                == spec_aggregate_result(shards, repeat[j]),
{
}

/// Of two results for the same key image, the one reporting the earlier
/// spending block.
pub fn pick_earlier_spend(a: KeyImageResult, b: KeyImageResult) -> (r: KeyImageResult)
    ensures
        r == spec_pick_earlier_spend(a, b),
{
    match (a.spent_at, b.spent_at) {
        (Option::Some(x), Option::Some(y)) => if y < x {
            b
        } else {
            a
        },
        (Option::Some(_), Option::None) => a,
        (Option::None, _) => b,
    }
}

/// Merges the responses of all queried shards into one answer.
///
/// For each key image the merged result is the one reporting the earliest
/// spending block — a later or absent spend never overrides an earlier
/// one — and the merged metadata is the largest height and output count
/// any shard reported.
pub fn merge_responses(images: &Vec<KeyImage>, responses: &Vec<CheckKeyImagesResponse>) -> (agg:
    AggregatedQueryResponse)
    requires
        forall|i: int|
            0 <= i < responses@.len() ==> response_wf(#[trigger] responses@[i], images@),
    ensures
        agg.num_blocks == spec_max_num_blocks(responses@),
        agg.global_txo_count == spec_max_txo_count(responses@),
        agg.results@.len() == images@.len(),
        forall|j: int|
            0 <= j < images@.len() ==> (#[trigger] agg.results@[j]) == spec_merged_result(
                responses@,
                j,
                images@[j],
            ),
        forall|i: int|
            0 <= i < responses@.len() ==> (#[trigger] responses@[i]).num_blocks <= agg.num_blocks,
        responses@.len() > 0 ==> exists|i: int|
            0 <= i < responses@.len() && (#[trigger] responses@[i]).num_blocks == agg.num_blocks,
        forall|j: int|
            0 <= j < images@.len() ==> (#[trigger] agg.results@[j]).key_image == images@[j],
        forall|j: int|
            0 <= j < images@.len() ==> ((#[trigger] agg.results@[j]).spent_at is None
                ==> agg.results@[j] == never_spent_result(images@[j])),
{
    proof {
        lemma_max_num_blocks(responses@);
    }
    let mut num_blocks: u64 = 0;
    let mut global_txo_count: u64 = 0;
    let mut i: usize = 0;
    while i < responses.len()
        invariant
            i <= responses@.len(),
            num_blocks == spec_max_num_blocks(responses@.take(i as int)),
            global_txo_count == spec_max_txo_count(responses@.take(i as int)),
        decreases responses@.len() - i,
    {
        proof {
            assert(responses@.take(i + 1).drop_last() =~= responses@.take(i as int));
            assert(responses@.take(i + 1).last() == responses@[i as int]);
        }
        if responses[i].num_blocks > num_blocks {
            num_blocks = responses[i].num_blocks;
        }
        if responses[i].global_txo_count > global_txo_count {
            global_txo_count = responses[i].global_txo_count;
        }
        i = i + 1;
    }
    proof {
        assert(responses@.take(responses@.len() as int) =~= responses@);
    }
    let mut results: Vec<KeyImageResult> = Vec::new();
    let mut j: usize = 0;
    while j < images.len()
        invariant
            j <= images@.len(),
            results@.len() == j,
            forall|q: int|
                0 <= q < j ==> (#[trigger] results@[q]) == spec_merged_result(
                    responses@,
                    q,
                    images@[q],
                ),
            forall|i2: int|
                0 <= i2 < responses@.len() ==> response_wf(#[trigger] responses@[i2], images@),
        decreases images@.len() - j,
    {
        let key_image = images[j];
        let mut merged = KeyImageResult {
            key_image,
            spent_at: None,
            timestamp: u64::MAX,
            timestamp_result_code: crate::types::TimestampResultCode::TimestampFound,
        };
        let mut k: usize = 0;
        while k < responses.len()
            invariant
                k <= responses@.len(),
                j < images@.len(),
                key_image == images@[j as int],
                merged == spec_merged_result(responses@.take(k as int), j as int, key_image),
                forall|i2: int|
                    0 <= i2 < responses@.len() ==> response_wf(#[trigger] responses@[i2], images@),
            decreases responses@.len() - k,
        {
            proof {
                assert(responses@.take(k + 1).drop_last() =~= responses@.take(k as int));
                assert(responses@.take(k + 1).last() == responses@[k as int]);
                assert(response_wf(responses@[k as int], images@));
            }
            let shard_result = responses[k].results[j];
            merged = pick_earlier_spend(merged, shard_result);
            k = k + 1;
        }
        proof {
            assert(responses@.take(responses@.len() as int) =~= responses@);
        }
        results.push(merged);
        j = j + 1;
    }
    proof {
        assert forall|q: int|
            0 <= q < images@.len() implies ((#[trigger] results@[q]).key_image == images@[q] && (
        results@[q].spent_at is None ==> results@[q] == never_spent_result(images@[q]))) by {
            assert forall|i2: int|
                0 <= i2 < responses@.len() implies q < (#[trigger] responses@[i2]).results@.len()
                && responses@[i2].results@[q].key_image == images@[q] && (
            responses@[i2].results@[q].spent_at is None ==> responses@[i2].results@[q]
                == never_spent_result(images@[q])) by {
                assert(response_wf(responses@[i2], images@));
            }
            lemma_merged_result(responses@, q, images@[q]);
            let m = spec_merged_result(responses@, q, images@[q]);
            if m.spent_at is Some {
                let w = choose|i2: int|
                    0 <= i2 < responses@.len() && (#[trigger] responses@[i2]).results@[q] == m;
                assert(responses@[w].results@[q].key_image == images@[q]);
            }
        }
    }
    AggregatedQueryResponse { num_blocks, global_txo_count, results }
}

/// Decides the fate of a fan-out from the per-shard outcomes: the
/// responses when every required shard answered, and the position of the
/// first shard that did not otherwise — the whole query then fails, and no
/// partial result is passed on.
pub fn collect_shard_outcomes(outcomes: Vec<Result<CheckKeyImagesResponse, Error>>) -> (r: Result<
    Vec<CheckKeyImagesResponse>,
    QueryError,
>)
    ensures
        r is Ok <==> forall|i: int| 0 <= i < outcomes@.len() ==> (#[trigger] outcomes@[i]) is Ok,
        r matches Ok(responses) ==> {
            &&& responses@.len() == outcomes@.len()
            &&& forall|i: int|
                0 <= i < outcomes@.len() ==> (#[trigger] responses@[i]) == outcomes@[i]->Ok_0
        },
        r matches Err(e) ==> (e matches QueryError::ShardUnavailable { shard } && 0 <= shard
            < outcomes@.len() && outcomes@[shard as int] is Err && forall|i: int|
            0 <= i < shard ==> (#[trigger] outcomes@[i]) is Ok),
{
    let ghost all = outcomes@;
    let mut rest = outcomes;
    let mut responses: Vec<CheckKeyImagesResponse> = Vec::new();
    while rest.len() > 0
        invariant
            all == outcomes@,
            responses@.len() + rest@.len() == all.len(),
            rest@ =~= all.skip(responses@.len() as int),
            forall|i: int|
                0 <= i < responses@.len() ==> (#[trigger] all[i]) is Ok && responses@[i] == all[
                    i
                ]->Ok_0,
        decreases rest@.len(),
    {
        proof {
            assert(rest@[0] == all[responses@.len() as int]);
        }
        let outcome = rest.remove(0);
        match outcome {
            Result::Ok(resp) => {
                responses.push(resp);
            },
            Result::Err(_) => {
                proof {
                    assert(all[responses@.len() as int] is Err);
                    assert(!(forall|i: int| 0 <= i < all.len() ==> (#[trigger] all[i]) is Ok));
                }
                return Err(QueryError::ShardUnavailable { shard: responses.len() });
            },
        }
    }
    Ok(responses)
}

/// The responses of a fan-out whose outcomes are all successes, in shard
/// order.
pub open spec fn ok_responses_of(outcomes: Seq<Result<CheckKeyImagesResponse, Error>>) -> Seq<
    CheckKeyImagesResponse,
> {
    Seq::new(outcomes.len(), |i: int| outcomes[i]->Ok_0)
}

/// Aggregates a fan-out's per-shard outcomes, fail-closed.
///
/// The query succeeds only when every required shard delivered a
/// response: one shard unreachable after its retry budget fails the whole
/// query, and no partial merge is ever returned as authoritative — an
/// omitted shard's view could turn a spent key image into a false "not
/// spent".
pub fn aggregate_shard_outcomes(
    images: &Vec<KeyImage>,
    outcomes: Vec<Result<CheckKeyImagesResponse, Error>>,
) -> (r: Result<AggregatedQueryResponse, QueryError>)
    requires
        forall|i: int|
            0 <= i < outcomes@.len() ==> ((#[trigger] outcomes@[i]) matches Ok(resp)
                ==> response_wf(resp, images@)),
    ensures
        r is Ok <==> forall|i: int| 0 <= i < outcomes@.len() ==> (#[trigger] outcomes@[i]) is Ok,
        r matches Err(e) ==> (e matches QueryError::ShardUnavailable { shard } && 0 <= shard
            < outcomes@.len() && outcomes@[shard as int] is Err),
        r matches Ok(agg) ==> {
            &&& agg.num_blocks == spec_max_num_blocks(ok_responses_of(outcomes@))
            &&& agg.global_txo_count == spec_max_txo_count(ok_responses_of(outcomes@))
            &&& agg.results@.len() == images@.len()
            &&& forall|j: int|
                0 <= j < images@.len() ==> (#[trigger] agg.results@[j]) == spec_merged_result(
                    ok_responses_of(outcomes@),
                    j,
                    images@[j],
                )
        },
{
    match collect_shard_outcomes(outcomes) {
        Result::Ok(responses) => {
            proof {
                assert(responses@ =~= ok_responses_of(outcomes@));
                assert forall|i: int|
                    0 <= i < responses@.len() implies response_wf(
                    #[trigger] responses@[i],
                    images@,
                ) by {
                    assert(outcomes@[i] is Ok);
                    assert(responses@[i] == outcomes@[i]->Ok_0);
                }
            }
            Ok(merge_responses(images, &responses))
        },
        Result::Err(e) => Err(e),
    }
}

/// The client-facing router of one deployment: its chain identifier and
/// the shard set a query fans out to.
#[derive(Clone, Debug, PartialEq, Eq)]
pub struct RouterServer {
    /// Chain identifier of the deployment.
    pub chain_id: Vec<u8>,
    /// The active shard set; every key-image query is sent to all of them.
    pub shards: Vec<StoreServer>,
}

impl RouterServer {
    /// Well-formed: every shard is, and every shard belongs to the same
    /// deployment as the router.
    pub open spec fn wf(self) -> bool {
        &&& forall|i: int| 0 <= i < self.shards@.len() ==> (#[trigger] self.shards@[i]).wf()
        &&& forall|i: int|
            0 <= i < self.shards@.len() ==> (#[trigger] self.shards@[i]).chain_id@ == self.chain_id@
    }

    /// Answers a key-image query by fanning it out to every shard and
    /// merging the answers.
    ///
    /// A client whose chain identifier differs from the deployment's is
    /// rejected with `IdentityMismatch` before any shard is consulted.
    /// Otherwise every shard is queried with the full image set, and the
    /// merged response reports, per image, the earliest spending block any
    /// shard recorded, and as metadata the largest height and output count
    /// any shard has seen.
    pub fn check_key_images(&self, chain_id: &Vec<u8>, images: &Vec<KeyImage>) -> (r: Result<
        AggregatedQueryResponse,
        QueryError,
    >)
        requires
            self.wf(),
        ensures
            r is Ok <==> chain_id@ == self.chain_id@,
            r matches Err(e) ==> e == QueryError::IdentityMismatch,
            r matches Ok(agg) ==> {
                &&& agg.num_blocks == spec_shards_max_num_blocks(self.shards@)
                &&& agg.global_txo_count == spec_shards_max_txo_count(self.shards@)
                &&& agg.results@.len() == images@.len()
                &&& forall|j: int|
                    0 <= j < images@.len() ==> (#[trigger] agg.results@[j]) == spec_aggregate_result(
                        self.shards@,
                        images@[j],
                    )
            },
    {
        if !chain_ids_match(chain_id, &self.chain_id) {
            return Err(QueryError::IdentityMismatch);
        }
        let mut responses: Vec<CheckKeyImagesResponse> = Vec::new();
        let mut i: usize = 0;
        while i < self.shards.len()
            invariant
                i <= self.shards@.len(),
                responses@.len() == i,
                self.wf(),
                chain_id@ == self.chain_id@,
                forall|k: int|
                    0 <= k < i ==> response_wf(#[trigger] responses@[k], images@),
                forall|k: int|
                    0 <= k < i ==> (#[trigger] responses@[k]).num_blocks == self.shards@[k].num_blocks,
                forall|k: int|
                    0 <= k < i ==> (#[trigger] responses@[k]).global_txo_count
                        == self.shards@[k].global_txo_count,
                forall|k: int, j: int|
                    0 <= k < i && 0 <= j < images@.len() ==> (#[trigger] responses@[k].results@[j])
                        == self.shards@[k].spec_result_for(images@[j]),
            decreases self.shards@.len() - i,
        {
            let shard = &self.shards[i];
            match shard.check_key_images(chain_id, images) {
                Result::Ok(resp) => {
                    responses.push(resp);
                },
                Result::Err(e) => {
                    // Never taken: every shard of a well-formed router
                    // shares the chain identifier the client already
                    // matched.
                    proof {
                        assert(false);
                    }
                    return Err(e);
                },
            }
            i = i + 1;
        }
        let agg = merge_responses(images, &responses);
        proof {
            lemma_maxima_of_shard_responses(responses@, self.shards@);
            assert forall|j: int|
                0 <= j < images@.len() implies (#[trigger] agg.results@[j])
                == spec_aggregate_result(self.shards@, images@[j]) by {
                lemma_merge_of_shard_responses(responses@, self.shards@, images@, j);
            }
        }
        Ok(agg)
    }
}

} // verus!
