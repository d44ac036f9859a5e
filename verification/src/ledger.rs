//! Untrusted read path: blocks and outputs served without attestation.
//!
//! Raw blocks, output existence and output positions carry no
//! confidentiality requirement — a client that only needs authenticity
//! reads them directly, and checks any Merkle-proof material it fetches
//! against a locally recomputed root; the server never asserts proof
//! validity. Out-of-range block indices are answered with absent data
//! beside accurate ledger metadata, never with an error.

use vstd::prelude::*;
use crate::sharding::BlockRange;
use crate::types::TimestampResultCode;
use crate::types::TxOutPublicKey;
use crate::types::TxOutResultCode;
use crate::watcher::WatcherTimestampResolver;

verus! {

/// One transaction output as the read path serves it.
#[derive(Clone, Copy, Debug, PartialEq, Eq, Structural)]
pub struct TxOutRecord {
    /// The output's public key, unique to it.
    pub public_key: TxOutPublicKey,
}

/// One ledger block: the outputs it appended, in order.
#[derive(Clone, Debug, PartialEq, Eq)]
pub struct BlockRecord {
    /// The outputs the block appended to the ledger.
    pub outputs: Vec<TxOutRecord>,
}

/// Number of outputs in the blocks before `up_to`.
pub open spec fn outputs_before(blocks: Seq<BlockRecord>, up_to: int) -> int
    decreases up_to,
{
    if up_to <= 0 {
        0
    } else {
        outputs_before(blocks, up_to - 1) + blocks[up_to - 1].outputs@.len()
    }
}

/// Total outputs in the whole ledger.
pub open spec fn spec_total_outputs(blocks: Seq<BlockRecord>) -> int {
    outputs_before(blocks, blocks.len() as int)
}

/// Output counts of longer prefixes are no smaller.
pub proof fn lemma_outputs_before_monotonic(blocks: Seq<BlockRecord>, i: int, j: int)
    requires
        i <= j,
    ensures
        outputs_before(blocks, i) <= outputs_before(blocks, j),
    decreases j - i,
{
    if i < j {
        lemma_outputs_before_monotonic(blocks, i, j - 1);
    }
}

/// Where one output sits in the ledger.
#[derive(Clone, Copy, Debug, PartialEq, Eq, Structural)]
pub struct TxOutLocation {
    /// Position of the output in the whole ledger, counting from 0.
    pub global_index: u64,
    /// The block that appended it.
    pub block_index: u64,
}

/// Index of the first output at or after `from` that carries the key, or
/// `None` when none does.
pub open spec fn find_output_from(
    outputs: Seq<TxOutRecord>,
    public_key: TxOutPublicKey,
    from: int,
) -> Option<int>
    decreases outputs.len() - from,
{
    if !(0 <= from < outputs.len()) {
        None
    } else if outputs[from].public_key == public_key {
        Some(from)
    } else {
        find_output_from(outputs, public_key, from + 1)
    }
}

/// The first block at or after `from` holding an output with the key,
/// paired with that output's global position, or `None` when no block
/// does.
pub open spec fn locate_from(
    blocks: Seq<BlockRecord>,
    public_key: TxOutPublicKey,
    from: int,
) -> Option<(int, int)>
    decreases blocks.len() - from,
{
    if !(0 <= from < blocks.len()) {
        None
    } else {
        match find_output_from(blocks[from].outputs@, public_key, 0) {
            Option::Some(o) => Some((from, outputs_before(blocks, from) + o)),
            Option::None => locate_from(blocks, public_key, from + 1),
        }
    }
}

/// Where the first output with the key sits in the ledger, or `None` when
/// the ledger holds none.
pub open spec fn spec_locate(blocks: Seq<BlockRecord>, public_key: TxOutPublicKey) -> Option<
    (int, int),
> {
    locate_from(blocks, public_key, 0)
}

/// A search over one block's outputs fails exactly when no output from
/// `from` on carries the key, and a found index carries it.
pub proof fn lemma_find_output_from(outputs: Seq<TxOutRecord>, public_key: TxOutPublicKey, from: int)
    requires
        0 <= from <= outputs.len(),
    ensures
        find_output_from(outputs, public_key, from) is None <==> forall|o: int|
            from <= o < outputs.len() ==> (#[trigger] outputs[o]).public_key != public_key,
        find_output_from(outputs, public_key, from) matches Some(o) ==> from <= o < outputs.len()
            && outputs[o].public_key == public_key,
    decreases outputs.len() - from,
{
    if from < outputs.len() {
        lemma_find_output_from(outputs, public_key, from + 1);
    }
}

/// A ledger search fails exactly when no output of any block from `from`
/// on carries the key; a found location names a block that holds the key,
/// and its global position lies within the ledger's output count.
pub proof fn lemma_locate_from(blocks: Seq<BlockRecord>, public_key: TxOutPublicKey, from: int)
    requires
        0 <= from <= blocks.len(),
    ensures
        locate_from(blocks, public_key, from) is None <==> forall|b: int, o: int|
            from <= b < blocks.len() && 0 <= o < blocks[b].outputs@.len() ==> (#[trigger] blocks[
                b
            ].outputs@[o]).public_key != public_key,
        locate_from(blocks, public_key, from) matches Some((b, g)) ==> {
            &&& from <= b < blocks.len()
            &&& exists|o: int|
                0 <= o < blocks[b].outputs@.len() && (#[trigger] blocks[b].outputs@[o]).public_key
                    == public_key && g == outputs_before(blocks, b) + o
            &&& 0 <= g < spec_total_outputs(blocks)
        },
    decreases blocks.len() - from,
{
    if from < blocks.len() {
        lemma_find_output_from(blocks[from].outputs@, public_key, 0);
        lemma_locate_from(blocks, public_key, from + 1);
        if find_output_from(blocks[from].outputs@, public_key, 0) is Some {
            let o = find_output_from(blocks[from].outputs@, public_key, 0)->Some_0;
            assert(blocks[from].outputs@[o].public_key == public_key);
            lemma_outputs_before_monotonic(blocks, 0, from);
            lemma_outputs_before_monotonic(blocks, from + 1, blocks.len() as int);
            assert(outputs_before(blocks, from + 1) == outputs_before(blocks, from) + blocks[
                from
            ].outputs@.len());
        }
    }
}

/// Index of the first output in the block that carries the public key.
fn find_output(outputs: &Vec<TxOutRecord>, public_key: &TxOutPublicKey) -> (r: Option<usize>)
    ensures
        r matches Some(o) ==> find_output_from(outputs@, *public_key, 0) == Some(o as int),
        r is None ==> find_output_from(outputs@, *public_key, 0) is None,
{
    let mut oi: usize = 0;
    while oi < outputs.len()
        invariant
            oi <= outputs@.len(),
            find_output_from(outputs@, *public_key, 0) == find_output_from(
                outputs@,
                *public_key,
                oi as int,
            ),
        decreases outputs@.len() - oi,
    {
        if outputs[oi].public_key == *public_key {
            return Some(oi);
        }
        oi = oi + 1;
    }
    None
}

/// The append-only ledger as the read path sees it.
#[derive(Clone, Debug, PartialEq, Eq)]
pub struct Ledger {
    /// Every block, indexed by its position; block 0 is the origin block.
    pub blocks: Vec<BlockRecord>,
}

impl Ledger {
    /// Well-formed: the total output count fits the wire's 64-bit field.
    pub open spec fn wf(self) -> bool {
        spec_total_outputs(self.blocks@) <= u64::MAX
    }

    /// The ledger's height.
    pub fn num_blocks(&self) -> (n: u64)
        ensures
            n == self.blocks@.len(),
    {
        self.blocks.len() as u64
    }

    /// The total number of outputs across all blocks.
    pub fn total_outputs(&self) -> (n: u64)
        requires
            self.wf(),
        ensures
            n == spec_total_outputs(self.blocks@),
    {
        let mut n: u64 = 0;
        let mut i: usize = 0;
        while i < self.blocks.len()
            invariant
                i <= self.blocks@.len(),
                n == outputs_before(self.blocks@, i as int),
                self.wf(),
            decreases self.blocks@.len() - i,
        {
            proof {
                lemma_outputs_before_monotonic(self.blocks@, i + 1, self.blocks@.len() as int);
            }
            n = n + self.blocks[i].outputs.len() as u64;
            i = i + 1;
        }
        n
    }

    /// Finds the first output carrying the public key: its global
    /// position and owning block, or `None` when the ledger holds none.
    pub fn locate_tx_out(&self, public_key: &TxOutPublicKey) -> (r: Option<TxOutLocation>)
        requires
            self.wf(),
        ensures
            r matches Some(loc) ==> spec_locate(self.blocks@, *public_key) == Some(
                (loc.block_index as int, loc.global_index as int),
            ),
            r is None ==> spec_locate(self.blocks@, *public_key) is None,
    {
        let mut bi: usize = 0;
        let mut base: u64 = 0;
        while bi < self.blocks.len()
            invariant
                bi <= self.blocks@.len(),
                base == outputs_before(self.blocks@, bi as int),
                spec_locate(self.blocks@, *public_key) == locate_from(
                    self.blocks@,
                    *public_key,
                    bi as int,
                ),
                self.wf(),
            decreases self.blocks@.len() - bi,
        {
            let outputs = &self.blocks[bi].outputs;
            proof {
                assert(outputs_before(self.blocks@, bi + 1) == outputs_before(
                    self.blocks@,
                    bi as int,
                ) + self.blocks@[bi as int].outputs@.len());
                lemma_outputs_before_monotonic(self.blocks@, bi + 1, self.blocks@.len() as int);
            }
            match find_output(outputs, public_key) {
                Option::Some(oi) => {
                    proof {
                        lemma_find_output_from(outputs@, *public_key, 0);
                    }
                    return Some(
                        TxOutLocation { global_index: base + oi as u64, block_index: bi as u64 },
                    );
                },
                Option::None => {},
            }
            base = base + outputs.len() as u64;
            bi = bi + 1;
        }
        None
    }
}

/// One block as the read path returns it: its index, how many outputs it
/// appended, and its resolved signing timestamp.
#[derive(Clone, Copy, Debug, PartialEq, Eq, Structural)]
pub struct BlockInfo {
    /// The block's position in the ledger.
    pub block_index: u64,
    /// How many outputs the block appended.
    pub output_count: u64,
    /// The block's resolved signing timestamp.
    pub timestamp: u64,
    /// How the timestamp was resolved.
    pub timestamp_result_code: TimestampResultCode,
}

/// Answer to a ranged block query: the in-bounds blocks asked for, and
/// accurate ledger metadata whether or not any range was satisfiable.
#[derive(Clone, Debug, PartialEq, Eq)]
pub struct GetBlocksResponse {
    /// The returned blocks: for each requested range its in-bounds part,
    /// in request order.
    pub blocks: Vec<BlockInfo>,
    /// The ledger's height.
    pub num_blocks: u64,
    /// Total outputs in the whole ledger.
    pub global_txo_count: u64,
}

/// Answer for one queried output public key.
#[derive(Clone, Copy, Debug, PartialEq, Eq)]
pub struct TxOutResult {
    /// The queried public key, echoed back.
    pub public_key: TxOutPublicKey,
    /// Whether an output with that key exists.
    pub result_code: TxOutResultCode,
    /// Where the output sits; `None` exactly when it does not exist.
    pub location: Option<TxOutLocation>,
}

/// Answer to an output existence query.
#[derive(Clone, Debug, PartialEq, Eq)]
pub struct GetTxOutsResponse {
    /// One result per queried public key, in query order.
    pub results: Vec<TxOutResult>,
    /// The ledger's height.
    pub num_blocks: u64,
}

/// The unattested server over the ledger and the watcher records.
#[derive(Clone, Debug, PartialEq, Eq)]
pub struct UntrustedReadPath {
    /// The ledger served.
    pub ledger: Ledger,
    /// The watcher records used to timestamp blocks.
    pub watcher: WatcherTimestampResolver,
}

impl UntrustedReadPath {
    /// Well-formed: the ledger is.
    pub open spec fn wf(self) -> bool {
        self.ledger.wf()
    }

    /// What the read path returns for one in-bounds block index.
    pub open spec fn spec_block_info(self, block_index: u64) -> BlockInfo
        recommends
            block_index < self.ledger.blocks@.len(),
    {
        BlockInfo {
            block_index,
            output_count: self.ledger.blocks@[block_index as int].outputs@.len() as u64,
            timestamp: self.watcher.spec_resolve(block_index).0,
            timestamp_result_code: self.watcher.spec_resolve(block_index).1,
        }
    }

    /// The blocks one requested range yields: its in-bounds part, in
    /// index order; indices past the ledger's height yield nothing.
    pub open spec fn spec_blocks_in_range(self, range: BlockRange) -> Seq<BlockInfo> {
        let lo = range.start as int;
        let hi = if range.end <= self.ledger.blocks@.len() {
            range.end as int
        } else {
            self.ledger.blocks@.len() as int
        };
        if lo < hi {
            Seq::new((hi - lo) as nat, |k: int| self.spec_block_info((lo + k) as u64))
        } else {
            Seq::empty()
        }
    }

    /// The blocks a request's ranges yield, concatenated in request
    /// order.
    pub open spec fn spec_blocks_for_ranges(self, ranges: Seq<BlockRange>) -> Seq<BlockInfo>
        decreases ranges.len(),
    {
        if ranges.len() == 0 {
            Seq::empty()
        } else {
            self.spec_blocks_for_ranges(ranges.drop_last()) + self.spec_blocks_in_range(
                ranges.last(),
            )
        }
    }

    /// Serves a ranged block query.
    ///
    /// Every requested range contributes its in-bounds blocks, each with
    /// its output count and resolved signing timestamp; indices at or past
    /// the ledger's height are simply absent from the answer, never an
    /// error, and the metadata is accurate regardless.
    pub fn get_blocks(&self, ranges: &Vec<BlockRange>) -> (r: GetBlocksResponse)
        requires
            self.wf(),
        ensures
            r.num_blocks == self.ledger.blocks@.len(),
            r.global_txo_count == spec_total_outputs(self.ledger.blocks@),
            r.blocks@ == self.spec_blocks_for_ranges(ranges@),
    {
        let num_blocks = self.ledger.num_blocks();
        let global_txo_count = self.ledger.total_outputs();
        let mut infos: Vec<BlockInfo> = Vec::new();
        let mut i: usize = 0;
        while i < ranges.len()
            invariant
                i <= ranges@.len(),
                infos@ == self.spec_blocks_for_ranges(ranges@.take(i as int)),
                num_blocks == self.ledger.blocks@.len(),
                self.wf(),
            decreases ranges@.len() - i,
        {
            proof {
                assert(ranges@.take(i + 1).drop_last() =~= ranges@.take(i as int));
                assert(ranges@.take(i + 1).last() == ranges@[i as int]);
            }
            let range = ranges[i];
            let lo = range.start;
            let hi = if range.end <= num_blocks {
                range.end
            } else {
                num_blocks
            };
            if lo < hi {
                let mut idx: u64 = lo;
                while idx < hi
                    invariant
                        lo <= idx <= hi,
                        lo == range.start,
                        lo < hi <= self.ledger.blocks@.len(),
                        hi as int == (if range.end <= self.ledger.blocks@.len() {
                            range.end as int
                        } else {
                            self.ledger.blocks@.len() as int
                        }),
                        i < ranges@.len(),
                        range == ranges@[i as int],
                        infos@ == self.spec_blocks_for_ranges(ranges@.take(i as int))
                            + self.spec_blocks_in_range(range).take(idx - lo),
                        self.wf(),
                    decreases hi - idx,
                {
                    let ledger_len = self.ledger.blocks.len();
                    proof {
                        assert(idx < ledger_len);
                    }
                    let block = &self.ledger.blocks[idx as usize];
                    let resolved = self.watcher.resolve(idx);
                    let info = BlockInfo {
                        block_index: idx,
                        output_count: block.outputs.len() as u64,
                        timestamp: resolved.0,
                        timestamp_result_code: resolved.1,
                    };
                    proof {
                        let sbr = self.spec_blocks_in_range(range);
                        assert(sbr[idx - lo] == self.spec_block_info(idx));
                        assert(info == self.spec_block_info(idx));
                        assert(infos@.push(info) =~= self.spec_blocks_for_ranges(
                            ranges@.take(i as int),
                        ) + sbr.take(idx - lo + 1));
                    }
                    infos.push(info);
                    idx = idx + 1;
                }
                proof {
                    assert(self.spec_blocks_in_range(range).take(hi - lo)
                        =~= self.spec_blocks_in_range(range));
                }
            } else {
                proof {
                    assert(self.spec_blocks_in_range(range) =~= Seq::<BlockInfo>::empty());
                    assert(infos@ =~= self.spec_blocks_for_ranges(ranges@.take(i as int))
                        + self.spec_blocks_in_range(range));
                }
            }
            i = i + 1;
        }
        proof {
            assert(ranges@.take(ranges@.len() as int) =~= ranges@);
        }
        GetBlocksResponse { blocks: infos, num_blocks, global_txo_count }
    }

    /// What the read path answers for one queried public key.
    pub open spec fn spec_tx_out_result(self, public_key: TxOutPublicKey) -> TxOutResult {
        match spec_locate(self.ledger.blocks@, public_key) {
            Option::Some((b, g)) => TxOutResult {
                public_key,
                result_code: TxOutResultCode::Found,
                location: Some(
                    TxOutLocation { global_index: g as u64, block_index: b as u64 },
                ),
            },
            Option::None => TxOutResult {
                public_key,
                result_code: TxOutResultCode::NotFound,
                location: None,
            },
        }
    }

    /// Serves an output existence query.
    ///
    /// Each queried key is answered `Found` with the output's global
    /// position and owning block, or `NotFound` when no output of any
    /// block carries it — a legitimate empty answer, not an error. The
    /// Merkle-proof material for a found output is a separate fetch, and
    /// its verification is the client's.
    pub fn get_tx_outs(&self, public_keys: &Vec<TxOutPublicKey>) -> (r: GetTxOutsResponse)
        requires
            self.wf(),
        ensures
            r.num_blocks == self.ledger.blocks@.len(),
            r.results@.len() == public_keys@.len(),
            forall|j: int|
                0 <= j < public_keys@.len() ==> (#[trigger] r.results@[j])
                    == self.spec_tx_out_result(public_keys@[j]),
            forall|j: int|
                0 <= j < public_keys@.len() ==> ((#[trigger] r.results@[j]).result_code
                    == TxOutResultCode::Found <==> r.results@[j].location is Some),
    {
        let num_blocks = self.ledger.num_blocks();
        let mut results: Vec<TxOutResult> = Vec::new();
        let mut j: usize = 0;
        while j < public_keys.len()
            invariant
                j <= public_keys@.len(),
                results@.len() == j,
                forall|q: int|
                    0 <= q < j ==> (#[trigger] results@[q]) == self.spec_tx_out_result(
                        public_keys@[q],
                    ),
                self.wf(),
            decreases public_keys@.len() - j,
        {
            let public_key = public_keys[j];
            let result = match self.ledger.locate_tx_out(&public_key) {
                Option::Some(location) => TxOutResult {
                    public_key,
                    result_code: TxOutResultCode::Found,
                    location: Some(location),
                },
                Option::None => TxOutResult {
                    public_key,
                    result_code: TxOutResultCode::NotFound,
                    location: None,
                },
            };
            results.push(result);
            j = j + 1;
        }
        GetTxOutsResponse { results, num_blocks }
    }
}

} // verus!
