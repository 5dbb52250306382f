//! The graphs that are captured over the storage: which are there, which are
//! still to be captured and with what arguments.
use vstd::prelude::*;

use crate::device::{ByteViewError, Ds41rtDeviceBuffer};
use crate::dspark::entry::dspark_entry_graph_rows;
use crate::dspark::entry::entry_graph_rows;
use crate::dspark::launch::{args_are, keywords_are, KeywordView};
use crate::dspark::launch::{
    Keyword, PromptMetadataLaunch, PythonDeviceBufferArg, RmsNormLaunch,
};
use crate::dspark::plan::DSPARK_BLOCKS;
use crate::dspark::queries::DSPARK_CAPTURE_MODULE;
use crate::dspark::storage::{DeepseekV4DsparkDeviceStorage, StorageError};
use crate::dspark::terminal::dspark_terminal_request_buckets;
use crate::dspark::terminal::{buckets_ok, law_buckets_are_determined};
use crate::sparse_block::Ds4FlashSparseLayerResidentWeights;

verus! {

/// A graph of one block and one row count.
#[derive(Clone, Copy, Debug, PartialEq, Eq, Structural)]
pub struct BlockRows {
    pub block_index: usize,
    pub rows: usize,
}

/// A graph of one block and one request slot.
#[derive(Clone, Copy, Debug, PartialEq, Eq, Structural)]
pub struct BlockSlot {
    pub block_index: usize,
    pub request_slot: usize,
}

/// Which graph a capture makes.
#[derive(Clone, Copy, Debug, PartialEq, Eq, Structural)]
pub enum GraphKey {
    Entry { rows: usize },
    PromptPrime { block_index: usize, rows: usize },
    ProposalEntry { request_slot: usize },
    BlockAttention { block_index: usize, request_slot: usize },
    BlockPostDispatch { block_index: usize, request_slot: usize },
    TerminalCollapse { request_slot: usize },
    TerminalHead { request_bucket: usize },
}

/// Why graphs are not captured.
#[derive(Clone, Copy, Debug, PartialEq, Eq, Structural)]
pub enum GraphError {
    Epsilon,
    RopeTheta,
    Sinkhorn,
    PartiallyInitialized,
    View { error: ByteViewError },
    Storage { error: StorageError },
    WeightDevice,
    Bucket { rows: usize, max_rows: usize },
    TransferNodes { key: GraphKey },
}

/// One capture: the graph that it makes, the module of the functions that warm
/// and record it, these functions, and their arguments. Prompt metadata is
/// written before the graph is warmed; a norm is recorded behind what the second
/// function records.
#[derive(Debug)]
pub struct GraphCapture {
    pub key: GraphKey,
    pub module: &'static str,
    pub prepare_function: &'static str,
    pub capture_function: &'static str,
    pub buffers: Vec<PythonDeviceBufferArg>,
    pub keywords: Vec<Keyword>,
    pub metadata: Option<PromptMetadataLaunch>,
    pub norm: Option<RmsNormLaunch>,
}

/// Captures to carry out in order, and why the next one cannot be.
#[derive(Debug)]
pub struct GraphCaptures {
    pub steps: Vec<GraphCapture>,
    pub refusal: Option<GraphError>,
}

/// The step is made of its two functions alone.
pub open spec fn step_is_plain(step: GraphCapture) -> bool {
    step.metadata is None && step.norm is None
}

/// The step makes this graph with these functions and arguments.
pub open spec fn step_is(
    step: GraphCapture,
    key: GraphKey,
    prepare: Seq<char>,
    capture: Seq<char>,
    buffers: Seq<(Seq<char>, Ds41rtDeviceBuffer)>,
    keywords: Seq<(Seq<char>, KeywordView)>,
) -> bool {
    &&& step.key == key
    &&& step.module@ == DSPARK_CAPTURE_MODULE@
    &&& step.prepare_function@ == prepare
    &&& step.capture_function@ == capture
    &&& args_are(step.buffers@, buffers)
    &&& keywords_are(step.keywords@, keywords)
}

/// The graphs that have been captured, in the order of their capture, and the
/// resident sparse weights of the blocks.
#[derive(Debug)]
pub struct DeepseekV4DsparkGraphs {
    pub entry: Vec<usize>,
    pub prompt_prime: Vec<BlockRows>,
    pub proposal_entry: Vec<usize>,
    pub block_attention: Vec<BlockSlot>,
    pub block_post_dispatch: Vec<BlockSlot>,
    pub terminal_collapse: Vec<usize>,
    pub terminal_head: Vec<usize>,
    pub block_sparse_weights: Vec<Ds4FlashSparseLayerResidentWeights>,
}

/// Every block has resident sparse weights and none routes by token.
pub open spec fn sparse_weights_ready(weights: Seq<Ds4FlashSparseLayerResidentWeights>) -> bool {
    &&& weights.len() == DSPARK_BLOCKS
    &&& forall|i: int| 0 <= i < weights.len() ==> !(#[trigger] weights[i]).hash_routing
}

/// Every row count once for every block.
pub open spec fn all_block_rows() -> Seq<BlockRows> {
    Seq::new(
        27,
        |i: int|
            BlockRows { block_index: (i / 9) as usize, rows: entry_graph_rows()[i % 9] },
    )
}

/// Every slot once.
pub open spec fn all_slots(max_batch: int) -> Seq<usize> {
    Seq::new(max_batch as nat, |i: int| i as usize)
}

/// Every slot once for every block.
pub open spec fn all_block_slots(blocks: int, max_batch: int) -> Seq<BlockSlot> {
    Seq::new(
        (blocks * max_batch) as nat,
        |i: int|
            BlockSlot {
                block_index: (i / max_batch) as usize,
                request_slot: (i % max_batch) as usize,
            },
    )
}

/// Graphs that were captured block by block, slot by slot, are a complete set.
pub proof fn law_block_by_block_capture_is_complete(
    recorded: Seq<BlockSlot>,
    blocks: usize,
    max_batch: usize,
)
    requires
        max_batch > 0,
        recorded.len() == blocks * max_batch,
        forall|block: usize, slot: usize|
            block < blocks && slot < max_batch ==> #[trigger] recorded_at(
                recorded,
                max_batch,
                block,
                slot,
            ),
    ensures
        recorded == all_block_slots(blocks as int, max_batch as int),
{
    let all = all_block_slots(blocks as int, max_batch as int);
    assert forall|i: int| 0 <= i < recorded.len() implies recorded[i] == all[i] by {
        let m = max_batch as int;
        vstd::arithmetic::div_mod::lemma_fundamental_div_mod(i, m);
        vstd::arithmetic::div_mod::lemma_mod_bound(i, m);
        vstd::arithmetic::div_mod::lemma_div_pos_is_pos(i, m);
        let block = i / m;
        let slot = i % m;
        assert(block < blocks) by (nonlinear_arith)
            requires
                i < blocks * m,
                m > 0,
                slot >= 0,
                i == m * block + slot,
        ;
        assert(block * m == m * block) by (nonlinear_arith);
        assert(recorded_at(recorded, max_batch, block as usize, slot as usize));
    }
    assert(recorded =~= all);
}

/// Prompt graphs that were captured block by block, row count by row count, are
/// a complete set.
pub proof fn law_block_by_block_prompt_capture_is_complete(recorded: Seq<BlockRows>)
    requires
        recorded.len() == DSPARK_BLOCKS * entry_graph_rows().len(),
        forall|block: usize, place: usize|
            block < DSPARK_BLOCKS && place < entry_graph_rows().len()
                ==> #[trigger] prompt_recorded_at(recorded, block, place),
    ensures
        recorded == all_block_rows(),
{
    let all = all_block_rows();
    assert forall|i: int| 0 <= i < recorded.len() implies recorded[i] == all[i] by {
        let block = i / 9;
        let place = i % 9;
        assert(i == block * 9 + place);
        assert(prompt_recorded_at(recorded, block as usize, place as usize));
    }
    assert(recorded =~= all);
}

/// The prompt graph of a block and the row count at `place` stands where the
/// block and the place say.
pub open spec fn prompt_recorded_at(
    recorded: Seq<BlockRows>,
    block: usize,
    place: usize,
) -> bool {
    recorded[block * entry_graph_rows().len() + place] == (BlockRows {
        block_index: block,
        rows: entry_graph_rows()[place as int],
    })
}

/// The graph of a block and a slot stands where the block and the slot say.
pub open spec fn recorded_at(
    recorded: Seq<BlockSlot>,
    max_batch: usize,
    block: usize,
    slot: usize,
) -> bool {
    recorded[block * max_batch + slot] == (BlockSlot { block_index: block, request_slot: slot })
}

fn slots_complete(slots: &Vec<usize>, max_batch: usize) -> (r: bool)
    ensures
        r == (slots@ == all_slots(max_batch as int)),
{
    if slots.len() != max_batch {
        return false;
    }
    let mut i: usize = 0;
    while i < max_batch
        invariant
            i <= max_batch,
            slots@.len() == max_batch,
            forall|k: int| 0 <= k < i ==> #[trigger] slots@[k] == k,
        decreases max_batch - i,
    {
        if slots[i] != i {
            assert(slots@[i as int] != all_slots(max_batch as int)[i as int]);
            return false;
        }
        i = i + 1;
    }
    assert(slots@ =~= all_slots(max_batch as int));
    true
}

fn block_slots_complete(slots: &Vec<BlockSlot>, blocks: usize, max_batch: usize) -> (r: bool)
    requires
        max_batch > 0,
        blocks * max_batch <= usize::MAX,
    ensures
        r == (slots@ == all_block_slots(blocks as int, max_batch as int)),
{
    let count: usize = blocks * max_batch;
    if slots.len() != count {
        return false;
    }
    let ghost all = all_block_slots(blocks as int, max_batch as int);
    let mut i: usize = 0;
    while i < count
        invariant
            i <= count,
            max_batch > 0,
            count == blocks * max_batch,
            slots@.len() == count,
            all == all_block_slots(blocks as int, max_batch as int),
            forall|k: int| 0 <= k < i ==> #[trigger] slots@[k] == all[k],
        decreases count - i,
    {
        let expected = BlockSlot { block_index: i / max_batch, request_slot: i % max_batch };
        assert(expected == all[i as int]);
        if slots[i] != expected {
            assert(slots@[i as int] != all[i as int]);
            return false;
        }
        i = i + 1;
    }
    assert(slots@ =~= all);
    true
}

/// A captured graph joins the graphs of its kind; one that was refused joins none.
pub open spec fn graph_recorded(
    before: DeepseekV4DsparkGraphs,
    after: DeepseekV4DsparkGraphs,
    key: GraphKey,
    clean: bool,
) -> bool {
    &&& after.entry@ == (match key {
        GraphKey::Entry { rows } if clean => before.entry@.push(rows),
        _ => before.entry@,
    })
    &&& after.prompt_prime@ == (match key {
        GraphKey::PromptPrime { block_index, rows } if clean => before.prompt_prime@.push(
            BlockRows { block_index, rows },
        ),
        _ => before.prompt_prime@,
    })
    &&& after.proposal_entry@ == (match key {
        GraphKey::ProposalEntry { request_slot } if clean => before.proposal_entry@.push(
            request_slot,
        ),
        _ => before.proposal_entry@,
    })
    &&& after.block_attention@ == (match key {
        GraphKey::BlockAttention { block_index, request_slot } if clean =>
            before.block_attention@.push(BlockSlot { block_index, request_slot }),
        _ => before.block_attention@,
    })
    &&& after.block_post_dispatch@ == (match key {
        GraphKey::BlockPostDispatch { block_index, request_slot } if clean =>
            before.block_post_dispatch@.push(BlockSlot { block_index, request_slot }),
        _ => before.block_post_dispatch@,
    })
    &&& after.terminal_collapse@ == (match key {
        GraphKey::TerminalCollapse { request_slot } if clean => before.terminal_collapse@.push(
            request_slot,
        ),
        _ => before.terminal_collapse@,
    })
    &&& after.terminal_head@ == (match key {
        GraphKey::TerminalHead { request_bucket } if clean => before.terminal_head@.push(
            request_bucket,
        ),
        _ => before.terminal_head@,
    })
    &&& after.block_sparse_weights@ == before.block_sparse_weights@
}

impl DeepseekV4DsparkGraphs {
    /// No graph yet.
    pub fn new() -> (graphs: Self)
        ensures
            graphs.entry@.len() == 0,
            graphs.prompt_prime@.len() == 0,
            graphs.proposal_entry@.len() == 0,
            graphs.block_attention@.len() == 0,
            graphs.block_post_dispatch@.len() == 0,
            graphs.terminal_collapse@.len() == 0,
            graphs.terminal_head@.len() == 0,
            graphs.block_sparse_weights@.len() == 0,
    {
        DeepseekV4DsparkGraphs {
            entry: Vec::new(),
            prompt_prime: Vec::new(),
            proposal_entry: Vec::new(),
            block_attention: Vec::new(),
            block_post_dispatch: Vec::new(),
            terminal_collapse: Vec::new(),
            terminal_head: Vec::new(),
            block_sparse_weights: Vec::new(),
        }
    }

    /// Whether every entry graph is there.
    pub fn entry_projection_graphs_prepared(&self) -> (r: bool)
        ensures
            r == (self.entry@ == entry_graph_rows()),
    {
        let rows: Vec<usize> = dspark_entry_graph_rows();
        if self.entry.len() != rows.len() {
            return false;
        }
        let mut i: usize = 0;
        while i < rows.len()
            invariant
                i <= rows@.len(),
                rows@ == entry_graph_rows(),
                self.entry@.len() == rows@.len(),
                forall|k: int| 0 <= k < i ==> #[trigger] self.entry@[k] == rows@[k],
            decreases rows@.len() - i,
        {
            if self.entry[i] != rows[i] {
                assert(self.entry@[i as int] != rows@[i as int]);
                return false;
            }
            i = i + 1;
        }
        assert(self.entry@ =~= rows@);
        true
    }

    /// Whether every prompt graph is there.
    pub fn prompt_prime_graphs_prepared(&self) -> (r: bool)
        ensures
            r == (self.prompt_prime@ == all_block_rows()),
    {
        let rows: Vec<usize> = dspark_entry_graph_rows();
        if self.prompt_prime.len() != 27 {
            return false;
        }
        let mut i: usize = 0;
        while i < 27
            invariant
                i <= 27,
                rows@ == entry_graph_rows(),
                self.prompt_prime@.len() == 27,
                forall|k: int|
                    0 <= k < i ==> #[trigger] self.prompt_prime@[k] == all_block_rows()[k],
            decreases 27 - i,
        {
            let expected = BlockRows { block_index: i / 9, rows: rows[i % 9] };
            assert(expected == all_block_rows()[i as int]);
            if self.prompt_prime[i] != expected {
                assert(self.prompt_prime@[i as int] != all_block_rows()[i as int]);
                return false;
            }
            i = i + 1;
        }
        assert(self.prompt_prime@ =~= all_block_rows());
        true
    }

    /// Whether every slot has its proposal entry graph.
    pub fn proposal_entry_graphs_prepared(&self, storage: &DeepseekV4DsparkDeviceStorage) -> (r:
        bool)
        ensures
            r == (self.proposal_entry@ == all_slots(storage.plan.max_batch as int)),
    {
        slots_complete(&self.proposal_entry, storage.plan.max_batch)
    }

    /// Whether every block has an attention graph for every slot.
    pub fn block_attention_graphs_prepared(&self, storage: &DeepseekV4DsparkDeviceStorage) -> (r:
        bool)
        requires
            storage.wf(),
        ensures
            r == (self.block_attention@ == all_block_slots(3, storage.plan.max_batch as int)),
    {
        block_slots_complete(&self.block_attention, DSPARK_BLOCKS, storage.plan.max_batch)
    }

    /// Whether every block but the last has a post-dispatch graph for every
    /// slot.
    pub fn block_post_dispatch_graphs_prepared(
        &self,
        storage: &DeepseekV4DsparkDeviceStorage,
    ) -> (r: bool)
        requires
            storage.wf(),
        ensures
            r == (self.block_post_dispatch@ == all_block_slots(2, storage.plan.max_batch as int)),
    {
        block_slots_complete(&self.block_post_dispatch, DSPARK_BLOCKS - 1, storage.plan.max_batch)
    }

    /// Whether every slot has its collapse graph.
    pub fn terminal_collapse_graphs_prepared(&self, storage: &DeepseekV4DsparkDeviceStorage) -> (r:
        bool)
        ensures
            r == (self.terminal_collapse@ == all_slots(storage.plan.max_batch as int)),
    {
        slots_complete(&self.terminal_collapse, storage.plan.max_batch)
    }

    /// Whether every batch width has its head graph.
    pub fn terminal_head_graphs_prepared(&self, storage: &DeepseekV4DsparkDeviceStorage) -> (r:
        bool)
        ensures
            r == buckets_ok(self.terminal_head@, storage.plan.max_batch as int),
    {
        let expected: Vec<usize> = dspark_terminal_request_buckets(storage.plan.max_batch);
        proof {
            if buckets_ok(self.terminal_head@, storage.plan.max_batch as int) {
                law_buckets_are_determined(
                    self.terminal_head@,
                    expected@,
                    storage.plan.max_batch as int,
                );
            }
        }
        if self.terminal_head.len() != expected.len() {
            return false;
        }
        let mut i: usize = 0;
        while i < expected.len()
            invariant
                i <= expected@.len(),
                self.terminal_head@.len() == expected@.len(),
                buckets_ok(self.terminal_head@, storage.plan.max_batch as int)
                    ==> self.terminal_head@ == expected@,
                forall|k: int| 0 <= k < i ==> #[trigger] self.terminal_head@[k] == expected@[k],
            decreases expected@.len() - i,
        {
            if self.terminal_head[i] != expected[i] {
                assert(self.terminal_head@[i as int] != expected@[i as int]);
                return false;
            }
            i = i + 1;
        }
        assert(self.terminal_head@ =~= expected@);
        true
    }

    /// Whether every block has resident sparse weights and none routes by token.
    pub fn block_sparse_pre_dispatch_prepared(&self) -> (r: bool)
        ensures
            r == sparse_weights_ready(self.block_sparse_weights@),
    {
        if self.block_sparse_weights.len() != DSPARK_BLOCKS {
            return false;
        }
        let mut i: usize = 0;
        while i < DSPARK_BLOCKS
            invariant
                i <= DSPARK_BLOCKS,
                self.block_sparse_weights@.len() == DSPARK_BLOCKS,
                forall|k: int| 0 <= k < i ==> !(#[trigger] self.block_sparse_weights@[k]).hash_routing,
            decreases DSPARK_BLOCKS - i,
        {
            if self.block_sparse_weights[i].hash_routing {
                return false;
            }
            i = i + 1;
        }
        true
    }

    /// Takes a captured graph in. Its replay must not move data between host
    /// and device; a head graph must not clear memory either.
    pub fn record_capture(&mut self, key: GraphKey, memcpy_nodes: usize, memset_nodes: usize) -> (
    result: Result<(), GraphError>)
        ensures
            result is Ok <==> capture_clean(key, memcpy_nodes, memset_nodes),
            result matches Err(e) ==> e == (GraphError::TransferNodes { key }),
            graph_recorded(*old(self), *final(self), key, result is Ok),
    {
        let head: bool = match key {
            GraphKey::TerminalHead { .. } => true,
            _ => false,
        };
        if memcpy_nodes != 0 || (head && memset_nodes != 0) {
            return Err(GraphError::TransferNodes { key });
        }
        match key {
            GraphKey::Entry { rows } => self.entry.push(rows),
            GraphKey::PromptPrime { block_index, rows } => self.prompt_prime.push(
                BlockRows { block_index, rows },
            ),
            GraphKey::ProposalEntry { request_slot } => self.proposal_entry.push(request_slot),
            GraphKey::BlockAttention { block_index, request_slot } => self.block_attention.push(
                BlockSlot { block_index, request_slot },
            ),
            GraphKey::BlockPostDispatch { block_index, request_slot } =>
                self.block_post_dispatch.push(BlockSlot { block_index, request_slot }),
            GraphKey::TerminalCollapse { request_slot } => self.terminal_collapse.push(
                request_slot,
            ),
            GraphKey::TerminalHead { request_bucket } => self.terminal_head.push(request_bucket),
        }
        Ok(())
    }
}

/// The captured graph moves no data.
pub open spec fn capture_clean(key: GraphKey, memcpy_nodes: usize, memset_nodes: usize) -> bool {
    memcpy_nodes == 0 && (key is TerminalHead ==> memset_nodes == 0)
}

} // verus!
