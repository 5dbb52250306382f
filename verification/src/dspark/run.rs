//! What a proposal step launches: which captured graph, on which views, after
//! which copy.
use vstd::prelude::*;

use crate::device::Ds41rtDeviceBuffer;
use crate::dspark::graphs::DeepseekV4DsparkGraphs;
use crate::dspark::graphs::{all_block_slots, all_slots, sparse_weights_ready};
use crate::dspark::joint::{pre_dispatch_error, pre_dispatch_views_of};
use crate::dspark::launch::{
    block_attention_args, block_post_dispatch_args, proposal_entry_args, terminal_collapse_args,
};
use crate::dspark::plan::{
    DsparkVariant, DSPARK_BLOCKS, DSPARK_PROPOSAL_HC_MULT, DSPARK_PROPOSAL_ROWS_PER_REQUEST,
};
use crate::dspark::storage::{
    entry_views_of, proposal_views_of, request_bytes, request_views_of, terminal_views_of,
};
use crate::dspark::storage::{
    DeepseekV4DsparkBlockPreDispatchBuffers, DeepseekV4DsparkDeviceStorage,
    DeepseekV4DsparkProposalDeviceBuffers, DeviceCopy, StorageError,
};
use crate::dspark::terminal::buckets_ok;
use crate::dspark::terminal::{batch_accepted, batch_ok, batch_refused};
use crate::dspark::terminal::{
    dspark_terminal_request_buckets, prepare_terminal_batch, TerminalBatch, TerminalBatchError,
};
use crate::dspark::weights::DeepseekV4DsparkBlockAttentionWeights;
use crate::dspark::weights::{
    all_on_first_device, DeepseekV4DsparkBlockPostDispatchWeights,
    DeepseekV4DsparkTerminalCollapseWeights, DeepseekV4DsparkTerminalHeadWeights,
    ProposalEntryWeights,
};
use crate::dspark::weights::on_first_device;
use crate::model::{ModelFacts, ModelVariant};
use crate::sparse_block::{
    ds4_sparse_block_pre_dispatch_fixed_input_into, preload_ds4_sparse_layer_resident_weights,
    Ds4FlashSparseLayerResidentWeights, LayerWeightsError, PreDispatchError, SparseConstants,
    SparsePreDispatchLaunch, TensorRequirement,
};
use crate::sparse_block::{
    launch_of, Ds4FlashSparseBlockPreDispatchDeviceBuffers, RouterOutput, SharedExpertOutput,
};
use crate::sparse_block::{
    layer_names_ok, layer_refused, layer_requirements_ok, profile_accepted, router_kernel,
    variant_profile,
};

verus! {

/// What the router and the shared expert write of the views of a request.
pub open spec fn sparse_output_of(
    views: DeepseekV4DsparkBlockPreDispatchBuffers,
) -> Ds4FlashSparseBlockPreDispatchDeviceBuffers {
    Ds4FlashSparseBlockPreDispatchDeviceBuffers {
        router: RouterOutput {
            indices: views.route_indices,
            scores: views.route_scores,
            weights: views.route_weights,
        },
        shared: SharedExpertOutput {
            gate: views.shared_gate,
            up: views.shared_up,
            activated: views.shared_activated,
            output: views.shared_output,
        },
    }
}

/// What the router and the shared expert write of the views of a request.
pub fn sparse_output(views: &DeepseekV4DsparkBlockPreDispatchBuffers) -> (output:
    Ds4FlashSparseBlockPreDispatchDeviceBuffers)
    ensures
        output == sparse_output_of(*views),
{
    Ds4FlashSparseBlockPreDispatchDeviceBuffers {
        router: RouterOutput {
            indices: views.route_indices,
            scores: views.route_scores,
            weights: views.route_weights,
        },
        shared: SharedExpertOutput {
            gate: views.shared_gate,
            up: views.shared_up,
            activated: views.shared_activated,
            output: views.shared_output,
        },
    }
}

/// Why nothing is launched.
#[derive(Clone, Copy, Debug, PartialEq, Eq, Structural)]
pub enum RunError {
    NotPrepared,
    MissingBlock { block: usize },
    Storage { error: StorageError },
    PreDispatch { error: PreDispatchError },
}

/// A launch: the place of its graph in its set, and the views of the request.
#[derive(Clone, Copy, Debug, PartialEq, Eq, Structural)]
pub struct GraphLaunch {
    pub graph: usize,
    pub proposal: DeepseekV4DsparkProposalDeviceBuffers,
}

/// A copy of rows between two strided buffers.
#[derive(Clone, Copy, Debug, PartialEq, Eq, Structural)]
pub struct RowCopy {
    pub destination: Ds41rtDeviceBuffer,
    pub destination_pitch: usize,
    pub source: Ds41rtDeviceBuffer,
    pub source_pitch: usize,
    pub row_bytes: usize,
    pub rows: usize,
}

/// Why a graph of one slot is not launched, if it is not.
pub open spec fn slot_run_error(
    storage: DeepseekV4DsparkDeviceStorage,
    prepared: bool,
    slot: usize,
) -> Option<RunError> {
    if !prepared {
        Some(RunError::NotPrepared)
    } else if slot >= storage.plan.max_batch {
        Some(
            RunError::Storage {
                error: StorageError::Slot { slot, max_batch: storage.plan.max_batch },
            },
        )
    } else {
        None
    }
}

/// The first lane of every proposal row is gathered before the proposal entry.
pub open spec fn embedding_gather(
    storage: DeepseekV4DsparkDeviceStorage,
    slot: int,
) -> RowCopy {
    RowCopy {
        destination: entry_views_of(storage).projected_target_main,
        destination_pitch: (2 * storage.plan.hidden) as usize,
        source: request_views_of(storage, slot).residual_ping,
        source_pitch: (8 * storage.plan.hidden) as usize,
        row_bytes: (2 * storage.plan.hidden) as usize,
        rows: 5,
    }
}

/// Why the proposal entry of one slot is not launched, if it is not.
pub open spec fn proposal_entry_run_error(
    storage: DeepseekV4DsparkDeviceStorage,
    prepared: bool,
    slot: usize,
) -> Option<RunError> {
    if slot_run_error(storage, prepared, slot) is Some {
        slot_run_error(storage, prepared, slot)
    } else if storage.entry_view_error() is Some {
        Some(
            RunError::Storage {
                error: StorageError::View { error: storage.entry_view_error()->Some_0 },
            },
        )
    } else {
        None
    }
}

/// Why a graph of one block and slot is not launched, if it is not.
pub open spec fn block_run_error(
    storage: DeepseekV4DsparkDeviceStorage,
    prepared: bool,
    block: usize,
    slot: usize,
) -> Option<RunError> {
    if slot_run_error(storage, prepared, slot) is Some {
        slot_run_error(storage, prepared, slot)
    } else if block >= DSPARK_BLOCKS {
        Some(RunError::MissingBlock { block })
    } else {
        None
    }
}

/// A launch of the graph of a block and a slot.
pub open spec fn block_launch(
    storage: DeepseekV4DsparkDeviceStorage,
    block: int,
    slot: int,
) -> GraphLaunch {
    GraphLaunch {
        graph: (block * storage.plan.max_batch + slot) as usize,
        proposal: request_views_of(storage, slot),
    }
}

proof fn lemma_block_slot_index(blocks: int, max_batch: int, block: int, slot: int)
    requires
        0 <= block < blocks,
        0 <= slot < max_batch,
    ensures
        0 <= block * max_batch,
        block * max_batch + slot < blocks * max_batch,
        (block * max_batch + slot) / max_batch == block,
        (block * max_batch + slot) % max_batch == slot,
{
    assert(block * max_batch + max_batch <= blocks * max_batch) by (nonlinear_arith)
        requires
            block + 1 <= blocks,
            max_batch > 0,
    ;
    assert(0 <= block * max_batch) by (nonlinear_arith)
        requires
            0 <= block,
            max_batch > 0,
    ;
    vstd::arithmetic::div_mod::lemma_fundamental_div_mod_converse(
        block * max_batch + slot,
        max_batch,
        block,
        slot,
    );
    assert(max_batch * block == block * max_batch) by (nonlinear_arith);
}

impl DeepseekV4DsparkGraphs {
    /// The proposal entry of one request: the copy that gathers its base
    /// embeddings, and the launch.
    pub fn run_proposal_entry(
        &self,
        storage: &DeepseekV4DsparkDeviceStorage,
        request_slot: usize,
    ) -> (result: Result<(RowCopy, GraphLaunch), RunError>)
        requires
            storage.wf(),
        ensures
            match proposal_entry_run_error(
                *storage,
                self.proposal_entry@ == all_slots(storage.plan.max_batch as int),
                request_slot,
            ) {
                Some(e) => result is Err && result->Err_0 == e,
                None => {
                    &&& result is Ok
                    &&& result->Ok_0.0 == embedding_gather(*storage, request_slot as int)
                    &&& result->Ok_0.1 == block_launch(*storage, 0, request_slot as int)
                    &&& self.proposal_entry@[result->Ok_0.1.graph as int] == request_slot
                },
            },
    {
        if !self.proposal_entry_graphs_prepared(storage) {
            return Err(RunError::NotPrepared);
        }
        let proposal = match storage.proposal_request_buffers(request_slot) {
            Ok(proposal) => proposal,
            Err(error) => return Err(RunError::Storage { error }),
        };
        let row_bytes: usize = 2 * storage.plan.hidden;
        let entry = match storage.entry_buffers() {
            Ok(entry) => entry,
            Err(error) => return Err(RunError::Storage { error: StorageError::View { error } }),
        };
        let copy = RowCopy {
            destination: entry.projected_target_main,
            destination_pitch: row_bytes,
            source: proposal.residual_ping,
            source_pitch: DSPARK_PROPOSAL_HC_MULT * row_bytes,
            row_bytes,
            rows: DSPARK_PROPOSAL_ROWS_PER_REQUEST,
        };
        assert(0 * storage.plan.max_batch + request_slot == request_slot) by (nonlinear_arith);
        Ok((copy, GraphLaunch { graph: request_slot, proposal }))
    }

    /// The attention of one block for one request.
    pub fn run_block_attention(
        &self,
        storage: &DeepseekV4DsparkDeviceStorage,
        block_index: usize,
        request_slot: usize,
    ) -> (result: Result<GraphLaunch, RunError>)
        requires
            storage.wf(),
        ensures
            match block_run_error(
                *storage,
                self.block_attention@ == all_block_slots(3, storage.plan.max_batch as int),
                block_index,
                request_slot,
            ) {
                Some(e) => result is Err && result->Err_0 == e,
                None => {
                    &&& result is Ok
                    &&& result->Ok_0 == block_launch(
                        *storage,
                        block_index as int,
                        request_slot as int,
                    )
                    &&& self.block_attention@[result->Ok_0.graph as int].block_index == block_index
                    &&& self.block_attention@[result->Ok_0.graph as int].request_slot
                        == request_slot
                },
            },
    {
        if !self.block_attention_graphs_prepared(storage) {
            return Err(RunError::NotPrepared);
        }
        let proposal = match storage.proposal_request_buffers(request_slot) {
            Ok(proposal) => proposal,
            Err(error) => return Err(RunError::Storage { error }),
        };
        if block_index >= DSPARK_BLOCKS {
            return Err(RunError::MissingBlock { block: block_index });
        }
        proof {
            lemma_block_slot_index(
                3,
                storage.plan.max_batch as int,
                block_index as int,
                request_slot as int,
            );
        }
        Ok(GraphLaunch { graph: block_index * storage.plan.max_batch + request_slot, proposal })
    }

    /// What lies between one block and the next for one request.
    pub fn run_block_post_dispatch(
        &self,
        storage: &DeepseekV4DsparkDeviceStorage,
        block_index: usize,
        request_slot: usize,
    ) -> (result: Result<GraphLaunch, RunError>)
        requires
            storage.wf(),
        ensures
            match slot_run_error(
                *storage,
                self.block_post_dispatch@ == all_block_slots(2, storage.plan.max_batch as int)
                    && block_index + 1 < DSPARK_BLOCKS,
                request_slot,
            ) {
                Some(e) => result is Err && result->Err_0 == e,
                None => {
                    &&& result is Ok
                    &&& result->Ok_0 == block_launch(
                        *storage,
                        block_index as int,
                        request_slot as int,
                    )
                    &&& self.block_post_dispatch@[result->Ok_0.graph as int].block_index
                        == block_index
                    &&& self.block_post_dispatch@[result->Ok_0.graph as int].request_slot
                        == request_slot
                },
            },
    {
        if !self.block_post_dispatch_graphs_prepared(storage) || block_index >= DSPARK_BLOCKS - 1 {
            return Err(RunError::NotPrepared);
        }
        let proposal = match storage.proposal_request_buffers(request_slot) {
            Ok(proposal) => proposal,
            Err(error) => return Err(RunError::Storage { error }),
        };
        proof {
            lemma_block_slot_index(
                2,
                storage.plan.max_batch as int,
                block_index as int,
                request_slot as int,
            );
        }
        Ok(GraphLaunch { graph: block_index * storage.plan.max_batch + request_slot, proposal })
    }

    /// The terminal collapse of one request.
    pub fn run_terminal_collapse(
        &self,
        storage: &DeepseekV4DsparkDeviceStorage,
        request_slot: usize,
    ) -> (result: Result<GraphLaunch, RunError>)
        requires
            storage.wf(),
        ensures
            match slot_run_error(
                *storage,
                self.terminal_collapse@ == all_slots(storage.plan.max_batch as int),
                request_slot,
            ) {
                Some(e) => result is Err && result->Err_0 == e,
                None => {
                    &&& result is Ok
                    &&& result->Ok_0 == block_launch(*storage, 0, request_slot as int)
                    &&& self.terminal_collapse@[result->Ok_0.graph as int] == request_slot
                },
            },
    {
        if !self.terminal_collapse_graphs_prepared(storage) {
            return Err(RunError::NotPrepared);
        }
        let proposal = match storage.proposal_request_buffers(request_slot) {
            Ok(proposal) => proposal,
            Err(error) => return Err(RunError::Storage { error }),
        };
        assert(0 * storage.plan.max_batch + request_slot == request_slot) by (nonlinear_arith);
        Ok(GraphLaunch { graph: request_slot, proposal })
    }

    /// What follows a joint dispatch of a block: the copy that hands the reduced
    /// result back to the request, and the launch. A refused launch leaves the
    /// copy to be made.
    pub fn run_block_post_dispatch_from_joint(
        &self,
        storage: &DeepseekV4DsparkDeviceStorage,
        block_index: usize,
        active_request_index: usize,
        request_slot: usize,
    ) -> (result: Result<(DeviceCopy, Result<GraphLaunch, RunError>), StorageError>)
        requires
            storage.wf(),
        ensures
            match joint_load_error(*storage, active_request_index, request_slot) {
                Some(e) => result is Err && result->Err_0 == e,
                None => {
                    &&& result is Ok
                    &&& result->Ok_0.0 == joint_load(
                        *storage,
                        active_request_index as int,
                        request_slot as int,
                    )
                    &&& match slot_run_error(
                        *storage,
                        self.block_post_dispatch@ == all_block_slots(
                            2,
                            storage.plan.max_batch as int,
                        ) && block_index + 1 < DSPARK_BLOCKS,
                        request_slot,
                    ) {
                        Some(e) => result->Ok_0.1 is Err && result->Ok_0.1->Err_0 == e,
                        None => result->Ok_0.1 is Ok && result->Ok_0.1->Ok_0 == block_launch(
                            *storage,
                            block_index as int,
                            request_slot as int,
                        ),
                    }
                },
            },
    {
        match storage.load_joint_block_ffn_delta(active_request_index, request_slot) {
            Ok(copy) => Ok((copy, self.run_block_post_dispatch(storage, block_index, request_slot))),
            Err(error) => Err(error),
        }
    }

    /// The terminal collapse after the joint dispatch of the last block.
    pub fn run_terminal_collapse_from_joint(
        &self,
        storage: &DeepseekV4DsparkDeviceStorage,
        active_request_index: usize,
        request_slot: usize,
    ) -> (result: Result<(DeviceCopy, Result<GraphLaunch, RunError>), StorageError>)
        requires
            storage.wf(),
        ensures
            match joint_load_error(*storage, active_request_index, request_slot) {
                Some(e) => result is Err && result->Err_0 == e,
                None => {
                    &&& result is Ok
                    &&& result->Ok_0.0 == joint_load(
                        *storage,
                        active_request_index as int,
                        request_slot as int,
                    )
                    &&& match slot_run_error(
                        *storage,
                        self.terminal_collapse@ == all_slots(storage.plan.max_batch as int),
                        request_slot,
                    ) {
                        Some(e) => result->Ok_0.1 is Err && result->Ok_0.1->Err_0 == e,
                        None => result->Ok_0.1 is Ok && result->Ok_0.1->Ok_0 == block_launch(
                            *storage,
                            0,
                            request_slot as int,
                        ),
                    }
                },
            },
    {
        match storage.load_joint_block_ffn_delta(active_request_index, request_slot) {
            Ok(copy) => Ok((copy, self.run_terminal_collapse(storage, request_slot))),
            Err(error) => Err(error),
        }
    }

    /// The launches of a block's router and shared expert for one request on a
    /// stream, and the views on which they run. The views are read once the stream
    /// is done.
    pub fn run_block_sparse_pre_dispatch(
        &self,
        storage: &DeepseekV4DsparkDeviceStorage,
        block_index: usize,
        request_slot: usize,
        stream: usize,
    ) -> (result: Result<
        (SparsePreDispatchLaunch<'_>, DeepseekV4DsparkBlockPreDispatchBuffers),
        RunError,
    >)
        requires
            storage.wf(),
        ensures
            sparse_run_ok(*self, *storage, block_index, request_slot, stream, result),
    {
        if !self.block_attention_graphs_prepared(storage)
            || !self.block_sparse_pre_dispatch_prepared() {
            return Err(RunError::NotPrepared);
        }
        if block_index >= self.block_sparse_weights.len() {
            return Err(RunError::MissingBlock { block: block_index });
        }
        let buffers = match storage.block_pre_dispatch_buffers(request_slot) {
            Ok(buffers) => buffers,
            Err(error) => return Err(RunError::Storage { error }),
        };
        match ds4_sparse_block_pre_dispatch_fixed_input_into(
            &self.block_sparse_weights[block_index],
            buffers.dispatch_hidden,
            DSPARK_PROPOSAL_ROWS_PER_REQUEST,
            None,
            sparse_output(&buffers),
            stream,
        ) {
            Ok(launch) => Ok((launch, buffers)),
            Err(error) => Err(RunError::PreDispatch { error }),
        }
    }

    /// The batch that the terminal head runs for active requests.
    pub fn run_terminal_head_batch(
        &self,
        storage: &DeepseekV4DsparkDeviceStorage,
        active_slots: &[usize],
        anchor_token_ids: &[usize],
    ) -> (result: Result<TerminalBatch, TerminalRunError>)
        requires
            storage.wf(),
        ensures
            result is Ok <==> buckets_ok(self.terminal_head@, storage.plan.max_batch as int)
                && batch_accepted(
                active_slots@,
                anchor_token_ids@,
                storage.plan.max_batch,
                storage.plan.vocab,
                self.terminal_head@,
            ),
            result matches Ok(batch) ==> batch_ok(
                batch,
                active_slots@,
                anchor_token_ids@,
                self.terminal_head@,
            ),
            result matches Err(e) ==> match e {
                TerminalRunError::NotPrepared => !buckets_ok(
                    self.terminal_head@,
                    storage.plan.max_batch as int,
                ),
                TerminalRunError::Batch { error } => buckets_ok(
                    self.terminal_head@,
                    storage.plan.max_batch as int,
                ) && batch_refused(
                    active_slots@,
                    anchor_token_ids@,
                    storage.plan.max_batch,
                    storage.plan.vocab,
                    self.terminal_head@,
                    error,
                ),
            },
    {
        if !self.terminal_head_graphs_prepared(storage) {
            return Err(TerminalRunError::NotPrepared);
        }
        match prepare_terminal_batch(
            active_slots,
            anchor_token_ids,
            storage.plan.max_batch,
            storage.plan.vocab,
            self.terminal_head.as_slice(),
        ) {
            Ok(batch) => Ok(batch),
            Err(error) => Err(TerminalRunError::Batch { error }),
        }
    }
}

/// Why the terminal head does not run.
#[derive(Clone, Copy, Debug, PartialEq, Eq, Structural)]
pub enum TerminalRunError {
    NotPrepared,
    Batch { error: TerminalBatchError },
}

/// Why the reduced result of a request is not handed back, if it is not.
pub open spec fn joint_load_error(
    storage: DeepseekV4DsparkDeviceStorage,
    index: usize,
    slot: usize,
) -> Option<StorageError> {
    if index >= storage.plan.max_batch || slot >= storage.plan.max_batch {
        Some(StorageError::JointSource { index, slot, max_batch: storage.plan.max_batch })
    } else {
        pre_dispatch_error(storage, slot)
    }
}

/// The copy that hands the reduced result of a request back.
pub open spec fn joint_load(
    storage: DeepseekV4DsparkDeviceStorage,
    index: int,
    slot: int,
) -> DeviceCopy {
    let bytes = request_bytes(storage.plan.hidden as int);
    DeviceCopy {
        destination: pre_dispatch_views_of(storage, slot).ffn_delta,
        source: terminal_views_of(storage).compact_normalized_hidden.part(index * bytes, bytes),
        bytes: bytes as usize,
    }
}

/// Why a router does not run, if it does not.
pub open spec fn sparse_run_error(
    graphs: DeepseekV4DsparkGraphs,
    storage: DeepseekV4DsparkDeviceStorage,
    block: usize,
    slot: usize,
) -> Option<RunError> {
    if graphs.block_attention@ != all_block_slots(3, storage.plan.max_batch as int)
        || !sparse_weights_ready(graphs.block_sparse_weights@) {
        Some(RunError::NotPrepared)
    } else if block >= DSPARK_BLOCKS {
        Some(RunError::MissingBlock { block })
    } else if pre_dispatch_error(storage, slot) is Some {
        Some(RunError::Storage { error: pre_dispatch_error(storage, slot)->Some_0 })
    } else if router_kernel(graphs.block_sparse_weights@[block as int].variant) is None {
        Some(RunError::PreDispatch { error: PreDispatchError::CustomRouter })
    } else {
        None
    }
}

/// What running a block's router and shared expert gives: their launches over the
/// views of the slot with the weights of the block, or why there are none.
pub open spec fn sparse_run_ok(
    graphs: DeepseekV4DsparkGraphs,
    storage: DeepseekV4DsparkDeviceStorage,
    block: usize,
    slot: usize,
    stream: usize,
    result: Result<
        (SparsePreDispatchLaunch<'_>, DeepseekV4DsparkBlockPreDispatchBuffers),
        RunError,
    >,
) -> bool {
    match sparse_run_error(graphs, storage, block, slot) {
        Some(e) => result is Err && result->Err_0 == e,
        None => {
            let views = pre_dispatch_views_of(storage, slot as int);
            let weights = graphs.block_sparse_weights@[block as int];
            &&& result is Ok
            &&& result->Ok_0.0 == launch_of(
                &weights,
                router_kernel(weights.variant)->Some_0,
                views.dispatch_hidden,
                DSPARK_PROPOSAL_ROWS_PER_REQUEST,
                None,
                sparse_output_of(views),
                stream,
            )
            &&& result->Ok_0.1 == views
        },
    }
}

/// Every stage of a request reads the residual and the mixing factors that the
/// stage before it wrote: the entry hands over to the attention, the attention
/// to what follows the experts, and that to the next attention.
pub proof fn law_stages_hand_over(
    workspace: Ds41rtDeviceBuffer,
    embedding: Ds41rtDeviceBuffer,
    main_kv_cache: Ds41rtDeviceBuffer,
    ffn_delta: Ds41rtDeviceBuffer,
    proposal: DeepseekV4DsparkProposalDeviceBuffers,
    entry_weights: ProposalEntryWeights,
    attention_weights: DeepseekV4DsparkBlockAttentionWeights,
    post_weights: DeepseekV4DsparkBlockPostDispatchWeights,
    collapse_weights: DeepseekV4DsparkTerminalCollapseWeights,
)
    ensures
        ({
            let entry = proposal_entry_args(workspace, embedding, proposal, entry_weights);
            let attention = block_attention_args(
                workspace,
                main_kv_cache,
                proposal,
                attention_weights,
            );
            let post = block_post_dispatch_args(workspace, ffn_delta, proposal, post_weights);
            let collapse = terminal_collapse_args(
                workspace,
                ffn_delta,
                proposal,
                collapse_weights,
            );
            &&& passes(entry, "residual_output"@, attention, "residual"@)
            &&& passes(entry, "normalized_output"@, attention, "hidden_states"@)
            &&& passes(entry, "post_output"@, attention, "prev_post"@)
            &&& passes(entry, "comb_output"@, attention, "prev_comb"@)
            &&& passes(attention, "residual_out"@, post, "residual"@)
            &&& passes(attention, "post_out"@, post, "prev_post"@)
            &&& passes(attention, "comb_out"@, post, "prev_comb"@)
            &&& passes(post, "residual_out"@, attention, "residual"@)
            &&& passes(post, "hidden_states"@, attention, "hidden_states"@)
            &&& passes(post, "post_out"@, attention, "prev_post"@)
            &&& passes(post, "comb_out"@, attention, "prev_comb"@)
            &&& passes(attention, "residual_out"@, collapse, "residual"@)
            &&& passes(attention, "post_out"@, collapse, "prev_post"@)
            &&& passes(attention, "comb_out"@, collapse, "prev_comb"@)
        }),
{
    let entry = proposal_entry_args(workspace, embedding, proposal, entry_weights);
    let attention = block_attention_args(workspace, main_kv_cache, proposal, attention_weights);
    let post = block_post_dispatch_args(workspace, ffn_delta, proposal, post_weights);
    let collapse = terminal_collapse_args(workspace, ffn_delta, proposal, collapse_weights);
    assert(named_at(entry, "residual_output"@, 2) && named_at(attention, "residual"@, 8));
    assert(named_at(entry, "normalized_output"@, 3) && named_at(attention, "hidden_states"@, 1));
    assert(named_at(entry, "post_output"@, 4) && named_at(attention, "prev_post"@, 9));
    assert(named_at(entry, "comb_output"@, 5) && named_at(attention, "prev_comb"@, 10));
    assert(named_at(attention, "residual_out"@, 11) && named_at(post, "residual"@, 2));
    assert(named_at(attention, "post_out"@, 12) && named_at(post, "prev_post"@, 3));
    assert(named_at(attention, "comb_out"@, 13) && named_at(post, "prev_comb"@, 4));
    assert(named_at(post, "residual_out"@, 5) && named_at(post, "hidden_states"@, 6));
    assert(named_at(post, "post_out"@, 7) && named_at(post, "comb_out"@, 8));
    assert(named_at(collapse, "residual"@, 2) && named_at(collapse, "prev_post"@, 3) && named_at(
        collapse,
        "prev_comb"@,
        4,
    ));
}

/// Argument `i` has this name.
pub open spec fn named_at(
    args: Seq<(Seq<char>, Ds41rtDeviceBuffer)>,
    name: Seq<char>,
    i: int,
) -> bool {
    0 <= i < args.len() && args[i].0 == name
}

/// What one stage takes under a name is what another takes under a name of its
/// own.
pub open spec fn passes(
    from: Seq<(Seq<char>, Ds41rtDeviceBuffer)>,
    output: Seq<char>,
    to: Seq<(Seq<char>, Ds41rtDeviceBuffer)>,
    input: Seq<char>,
) -> bool {
    exists|i: int, j: int|
        #[trigger] named_at(from, output, i) && #[trigger] named_at(to, input, j) && from[i].1
            == to[j].1
}

/// Why proposal inputs are not prepared.
#[derive(Clone, Copy, Debug, PartialEq, Eq, Structural)]
pub enum ProposalInputError {
    Slot { slot: usize, max_batch: usize },
    TokenIds { anchor: usize, noise: usize, vocab: usize },
    Window { start: usize, end: usize },
    EmbeddingBytesOverflow,
    Device,
}

/// The tokens and the window of target positions of a proposal.
#[derive(Clone, Copy, Debug, PartialEq, Eq, Structural)]
pub struct ProposalInput {
    pub anchor_token_id: usize,
    pub noise_token_id: usize,
    pub request_slot: usize,
    pub cache_window_start: usize,
    pub main_context_end: usize,
    pub vocab_size: usize,
}

/// The first reason why inputs are not prepared, if any.
pub open spec fn proposal_input_error(
    storage: DeepseekV4DsparkDeviceStorage,
    input: ProposalInput,
) -> Option<ProposalInputError> {
    if input.request_slot >= storage.plan.max_batch {
        Some(
            ProposalInputError::Slot {
                slot: input.request_slot,
                max_batch: storage.plan.max_batch,
            },
        )
    } else if input.anchor_token_id >= input.vocab_size || input.noise_token_id
        >= input.vocab_size {
        Some(
            ProposalInputError::TokenIds {
                anchor: input.anchor_token_id,
                noise: input.noise_token_id,
                vocab: input.vocab_size,
            },
        )
    } else if !(0 < input.main_context_end - input.cache_window_start <= 128) {
        Some(
            ProposalInputError::Window {
                start: input.cache_window_start,
                end: input.main_context_end,
            },
        )
    } else if input.vocab_size * (2 * storage.plan.hidden) > usize::MAX {
        Some(ProposalInputError::EmbeddingBytesOverflow)
    } else {
        None
    }
}

impl DeepseekV4DsparkDeviceStorage {
    /// Checks the inputs of a proposal and gives the bytes of the embedding that
    /// they are looked up in.
    pub fn admit_proposal_inputs(&self, input: &ProposalInput) -> (result: Result<
        usize,
        ProposalInputError,
    >)
        requires
            self.wf(),
        ensures
            match proposal_input_error(*self, *input) {
                Some(e) => result is Err && result->Err_0 == e,
                None => result is Ok && result->Ok_0 == input.vocab_size * (2 * self.plan.hidden),
            },
    {
        if input.request_slot >= self.plan.max_batch {
            return Err(
                ProposalInputError::Slot {
                    slot: input.request_slot,
                    max_batch: self.plan.max_batch,
                },
            );
        }
        if input.anchor_token_id >= input.vocab_size || input.noise_token_id
            >= input.vocab_size {
            return Err(
                ProposalInputError::TokenIds {
                    anchor: input.anchor_token_id,
                    noise: input.noise_token_id,
                    vocab: input.vocab_size,
                },
            );
        }
        if input.cache_window_start >= input.main_context_end || input.main_context_end
            - input.cache_window_start > 128 {
            return Err(
                ProposalInputError::Window {
                    start: input.cache_window_start,
                    end: input.main_context_end,
                },
            );
        }
        match input.vocab_size.checked_mul(2 * self.plan.hidden) {
            Some(bytes) => Ok(bytes),
            None => Err(ProposalInputError::EmbeddingBytesOverflow),
        }
    }

    /// The views of the request that the inputs are written to, once the
    /// embedding has been found.
    pub fn prepare_proposal_inputs(
        &self,
        input: &ProposalInput,
        embedding: Ds41rtDeviceBuffer,
    ) -> (result: Result<DeepseekV4DsparkProposalDeviceBuffers, ProposalInputError>)
        requires
            self.wf(),
        ensures
            match proposal_input_error(*self, *input) {
                Some(e) => result is Err && result->Err_0 == e,
                None => if embedding.device_id != 0 {
                    result is Err && result->Err_0 == ProposalInputError::Device
                } else {
                    result is Ok && result->Ok_0 == request_views_of(
                        *self,
                        input.request_slot as int,
                    )
                },
            },
    {
        if let Err(error) = self.admit_proposal_inputs(input) {
            return Err(error);
        }
        if embedding.device_id != 0 {
            return Err(ProposalInputError::Device);
        }
        match self.proposal_request_buffers(input.request_slot) {
            Ok(proposal) => Ok(proposal),
            Err(_) => Err(
                ProposalInputError::Slot {
                    slot: input.request_slot,
                    max_batch: self.plan.max_batch,
                },
            ),
        }
    }

    /// The launch of the terminal head for a batch width.
    pub fn launch_terminal_head_native(
        &self,
        request_bucket: usize,
        weights: &DeepseekV4DsparkTerminalHeadWeights,
    ) -> (launch: TerminalHeadLaunch)
        requires
            self.wf(),
        ensures
            launch == terminal_head_launch(*self, request_bucket, *weights),
    {
        let proposal = self.proposal_buffers();
        let terminal = self.terminal_buffers();
        TerminalHeadLaunch {
            normalized_hidden: proposal.normalized_hidden,
            collapsed_hidden: proposal.collapsed_hidden,
            shared_head: weights.shared_head,
            markov_w1: weights.markov_w1,
            markov_w2: weights.markov_w2,
            confidence_weight: weights.confidence,
            active_slot_ids: terminal.active_slot_ids,
            anchor_token_ids: terminal.anchor_token_ids,
            compact_normalized_hidden: terminal.compact_normalized_hidden,
            shared_logits: terminal.shared_logits,
            markov_embeddings: terminal.markov_embeddings,
            markov_logits: terminal.markov_logits,
            output_token_ids: terminal.output_token_ids,
            confidence: terminal.confidence,
            request_bucket,
            max_batch: self.plan.max_batch,
            hidden: self.plan.hidden,
            vocab: self.plan.vocab,
            markov_rank: self.plan.markov_rank,
        }
    }
}

/// The arguments of the terminal head kernel.
#[derive(Clone, Copy, Debug, PartialEq, Eq, Structural)]
pub struct TerminalHeadLaunch {
    pub normalized_hidden: Ds41rtDeviceBuffer,
    pub collapsed_hidden: Ds41rtDeviceBuffer,
    pub shared_head: Ds41rtDeviceBuffer,
    pub markov_w1: Ds41rtDeviceBuffer,
    pub markov_w2: Ds41rtDeviceBuffer,
    pub confidence_weight: Ds41rtDeviceBuffer,
    pub active_slot_ids: Ds41rtDeviceBuffer,
    pub anchor_token_ids: Ds41rtDeviceBuffer,
    pub compact_normalized_hidden: Ds41rtDeviceBuffer,
    pub shared_logits: Ds41rtDeviceBuffer,
    pub markov_embeddings: Ds41rtDeviceBuffer,
    pub markov_logits: Ds41rtDeviceBuffer,
    pub output_token_ids: Ds41rtDeviceBuffer,
    pub confidence: Ds41rtDeviceBuffer,
    pub request_bucket: usize,
    pub max_batch: usize,
    pub hidden: usize,
    pub vocab: usize,
    pub markov_rank: usize,
}

/// The launch of the terminal head over the storage.
pub open spec fn terminal_head_launch(
    storage: DeepseekV4DsparkDeviceStorage,
    request_bucket: usize,
    weights: DeepseekV4DsparkTerminalHeadWeights,
) -> TerminalHeadLaunch {
    let proposal = proposal_views_of(storage);
    let terminal = terminal_views_of(storage);
    TerminalHeadLaunch {
        normalized_hidden: proposal.normalized_hidden,
        collapsed_hidden: proposal.collapsed_hidden,
        shared_head: weights.shared_head,
        markov_w1: weights.markov_w1,
        markov_w2: weights.markov_w2,
        confidence_weight: weights.confidence,
        active_slot_ids: terminal.active_slot_ids,
        anchor_token_ids: terminal.anchor_token_ids,
        compact_normalized_hidden: terminal.compact_normalized_hidden,
        shared_logits: terminal.shared_logits,
        markov_embeddings: terminal.markov_embeddings,
        markov_logits: terminal.markov_logits,
        output_token_ids: terminal.output_token_ids,
        confidence: terminal.confidence,
        request_bucket,
        max_batch: storage.plan.max_batch,
        hidden: storage.plan.hidden,
        vocab: storage.plan.vocab,
        markov_rank: storage.plan.markov_rank,
    }
}

/// Why sparse weights are not made resident.
#[derive(Debug)]
pub enum SparsePreparationError {
    Profile,
    PartiallyInitialized,
    Layer { block: usize, error: LayerWeightsError },
}

/// The sparse weights of one block and the tensors to load for them.
#[derive(Debug)]
pub struct BlockSparseWeights {
    pub weights: Ds4FlashSparseLayerResidentWeights,
    pub requirements: Vec<TensorRequirement>,
}

/// The model is the one that the storage was planned for.
pub open spec fn sparse_profile_matches(
    storage: DeepseekV4DsparkDeviceStorage,
    facts: ModelFacts,
) -> bool {
    &&& match storage.plan.variant {
        DsparkVariant::Flash => facts.variant == ModelVariant::Flash,
        DsparkVariant::Pro => facts.variant == ModelVariant::Pro,
    }
    &&& storage.plan.hidden == facts.hidden_size
}

/// The sparse weights of a block of the drafter.
pub open spec fn block_sparse_ok(
    block: BlockSparseWeights,
    facts: ModelFacts,
    constants: SparseConstants,
    index: int,
) -> bool {
    let layer = (facts.num_hidden_layers + index) as usize;
    &&& layer_names_ok(block.weights, facts, constants, layer)
    &&& layer_requirements_ok(
        block.requirements@,
        block.weights,
        variant_profile(facts.variant, constants),
    )
    &&& !block.weights.hash_routing
}

/// The sparse weights of all blocks can be listed: the model has a sparse
/// profile and at least three drafter blocks.
pub open spec fn sparse_blocks_accepted(facts: ModelFacts, constants: SparseConstants) -> bool {
    profile_accepted(facts, constants) && facts.dspark_blocks >= DSPARK_BLOCKS
}

/// The first block whose sparse weights cannot be listed.
pub open spec fn refused_sparse_block(facts: ModelFacts, constants: SparseConstants) -> int {
    if profile_accepted(facts, constants) {
        facts.dspark_blocks as int
    } else {
        0
    }
}

impl DeepseekV4DsparkGraphs {
    /// The sparse weights of the blocks that have to be made resident; none
    /// where they are.
    pub fn prepare_block_sparse_pre_dispatch(
        &self,
        storage: &DeepseekV4DsparkDeviceStorage,
        facts: &ModelFacts,
        constants: &SparseConstants,
    ) -> (result: Result<Vec<BlockSparseWeights>, SparsePreparationError>)
        requires
            facts.transformer_blocks() <= usize::MAX,
        ensures
            result is Ok <==> {
                &&& sparse_profile_matches(*storage, *facts)
                &&& self.block_sparse_weights@.len() == 3 || (self.block_sparse_weights@.len() == 0
                    && sparse_blocks_accepted(*facts, *constants))
            },
            result matches Ok(blocks) ==> if self.block_sparse_weights@.len() == 3 {
                blocks@.len() == 0
            } else {
                &&& blocks@.len() == 3
                &&& forall|i: int|
                    0 <= i < 3 ==> block_sparse_ok(
                        #[trigger] blocks@[i],
                        *facts,
                        *constants,
                        i,
                    )
            },
            result matches Err(e) ==> match e {
                SparsePreparationError::Profile => !sparse_profile_matches(*storage, *facts),
                SparsePreparationError::PartiallyInitialized => sparse_profile_matches(
                    *storage,
                    *facts,
                ) && self.block_sparse_weights@.len() != 0 && self.block_sparse_weights@.len() != 3,
                SparsePreparationError::Layer { block, error } => {
                    &&& sparse_profile_matches(*storage, *facts)
                    &&& self.block_sparse_weights@.len() == 0
                    &&& !sparse_blocks_accepted(*facts, *constants)
                    &&& block == refused_sparse_block(*facts, *constants)
                    &&& layer_refused(
                        *facts,
                        *constants,
                        (facts.num_hidden_layers + block) as usize,
                        error,
                    )
                },
            },
    {
        let variant_matches: bool = match (storage.plan.variant, facts.variant) {
            (DsparkVariant::Flash, ModelVariant::Flash) => true,
            (DsparkVariant::Pro, ModelVariant::Pro) => true,
            _ => false,
        };
        if !variant_matches || storage.plan.hidden != facts.hidden_size {
            return Err(SparsePreparationError::Profile);
        }
        let mut blocks: Vec<BlockSparseWeights> = Vec::new();
        if self.block_sparse_weights.len() != 0 {
            if self.block_sparse_weights.len() != DSPARK_BLOCKS {
                return Err(SparsePreparationError::PartiallyInitialized);
            }
            return Ok(blocks);
        }
        let mut block: usize = 0;
        while block < DSPARK_BLOCKS
            invariant
                block <= DSPARK_BLOCKS,
                facts.transformer_blocks() <= usize::MAX,
                sparse_profile_matches(*storage, *facts),
                self.block_sparse_weights@.len() == 0,
                blocks@.len() == block,
                forall|i: int|
                    0 <= i < block ==> block_sparse_ok(
                        #[trigger] blocks@[i],
                        *facts,
                        *constants,
                        i,
                    ),
                block > 0 ==> profile_accepted(*facts, *constants) && block
                    <= facts.dspark_blocks,
            decreases DSPARK_BLOCKS - block,
        {
            let layer: usize = facts.num_hidden_layers + block;
            match preload_ds4_sparse_layer_resident_weights(facts, constants, layer) {
                Ok((weights, requirements)) => {
                    blocks.push(BlockSparseWeights { weights, requirements });
                },
                Err(error) => return Err(SparsePreparationError::Layer { block, error }),
            }
            block = block + 1;
        }
        Ok(blocks)
    }

    /// Takes in the sparse weights of a block that have been made resident.
    pub fn record_sparse_block(&mut self, weights: Ds4FlashSparseLayerResidentWeights)
        ensures
            final(self).block_sparse_weights@ == old(self).block_sparse_weights@.push(weights),
            final(self).entry@ == old(self).entry@,
            final(self).prompt_prime@ == old(self).prompt_prime@,
            final(self).proposal_entry@ == old(self).proposal_entry@,
            final(self).block_attention@ == old(self).block_attention@,
            final(self).block_post_dispatch@ == old(self).block_post_dispatch@,
            final(self).terminal_collapse@ == old(self).terminal_collapse@,
            final(self).terminal_head@ == old(self).terminal_head@,
    {
        self.block_sparse_weights.push(weights);
    }
}

/// The warm-up and capture of the head for one batch width: slots in order,
/// anchors at zero.
#[derive(Debug)]
pub struct TerminalHeadCapture {
    pub request_bucket: usize,
    pub active_slots: Vec<u32>,
    pub anchors: Vec<u32>,
    pub launch: TerminalHeadLaunch,
}

/// The capture of one batch width.
pub open spec fn head_capture_ok(
    capture: TerminalHeadCapture,
    storage: DeepseekV4DsparkDeviceStorage,
    weights: DeepseekV4DsparkTerminalHeadWeights,
    bucket: usize,
) -> bool {
    &&& capture.request_bucket == bucket
    &&& capture.active_slots@ == Seq::new(bucket as nat, |i: int| i as u32)
    &&& capture.anchors@ == Seq::new(bucket as nat, |i: int| 0u32)
    &&& capture.launch == terminal_head_launch(storage, bucket, weights)
}

/// Why the head is not captured.
#[derive(Clone, Copy, Debug, PartialEq, Eq, Structural)]
pub enum TerminalHeadError {
    PartiallyInitialized,
    WeightDevice,
}

impl DeepseekV4DsparkGraphs {
    /// The captures of the head, one for every batch width; none where they are
    /// there.
    pub fn prepare_terminal_head_graphs(
        &self,
        storage: &DeepseekV4DsparkDeviceStorage,
        weights: &DeepseekV4DsparkTerminalHeadWeights,
    ) -> (result: Result<Vec<TerminalHeadCapture>, TerminalHeadError>)
        requires
            storage.wf(),
        ensures
            ({
                let complete = buckets_ok(self.terminal_head@, storage.plan.max_batch as int);
                if self.terminal_head@.len() != 0 && !complete {
                    result is Err && result->Err_0 == TerminalHeadError::PartiallyInitialized
                } else if complete {
                    result is Ok && result->Ok_0@.len() == 0
                } else if !on_first_device(weights.list()) {
                    result is Err && result->Err_0 == TerminalHeadError::WeightDevice
                } else {
                    &&& result is Ok
                    &&& head_captures_ok(result->Ok_0@, *storage, *weights)
                }
            }),
    {
        let mut captures: Vec<TerminalHeadCapture> = Vec::new();
        if self.terminal_head.len() != 0 {
            if !self.terminal_head_graphs_prepared(storage) {
                return Err(TerminalHeadError::PartiallyInitialized);
            }
            return Ok(captures);
        }
        let list = vec![
            weights.shared_head,
            weights.markov_w1,
            weights.markov_w2,
            weights.confidence,
        ];
        assert(list@ =~= weights.list());
        if !all_on_first_device(list.as_slice()) {
            return Err(TerminalHeadError::WeightDevice);
        }
        let buckets: Vec<usize> = dspark_terminal_request_buckets(storage.plan.max_batch);
        let mut i: usize = 0;
        while i < buckets.len()
            invariant
                i <= buckets@.len(),
                storage.wf(),
                self.terminal_head@.len() == 0,
                buckets_ok(buckets@, storage.plan.max_batch as int),
                captures@.len() == i,
                on_first_device(weights.list()),
                forall|k: int|
                    #![trigger captures@[k]]
                    0 <= k < i ==> head_capture_ok(captures@[k], *storage, *weights, buckets@[k]),
            decreases buckets@.len() - i,
        {
            let bucket: usize = buckets[i];
            let launch = storage.launch_terminal_head_native(bucket, weights);
            let mut active_slots: Vec<u32> = Vec::new();
            let mut anchors: Vec<u32> = Vec::new();
            let mut request: usize = 0;
            while request < bucket
                invariant
                    request <= bucket,
                    active_slots@ == Seq::new(request as nat, |i: int| i as u32),
                    anchors@ == Seq::new(request as nat, |i: int| 0u32),
                decreases bucket - request,
            {
                active_slots.push(
                    #[verifier::truncate]
                    (request as u32),
                );
                anchors.push(0);
                request = request + 1;
                assert(active_slots@ =~= Seq::new(request as nat, |i: int| i as u32));
                assert(anchors@ =~= Seq::new(request as nat, |i: int| 0u32));
            }
            captures.push(
                TerminalHeadCapture { request_bucket: bucket, active_slots, anchors, launch },
            );
            i = i + 1;
        }
        proof {
            assert(captures_follow(captures@, *storage, *weights, buckets@));
        }
        Ok(captures)
    }
}

/// One capture for every width, in order.
pub open spec fn captures_follow(
    captures: Seq<TerminalHeadCapture>,
    storage: DeepseekV4DsparkDeviceStorage,
    weights: DeepseekV4DsparkTerminalHeadWeights,
    buckets: Seq<usize>,
) -> bool {
    &&& buckets_ok(buckets, storage.plan.max_batch as int)
    &&& captures.len() == buckets.len()
    &&& forall|k: int|
        #![trigger captures[k]]
        0 <= k < captures.len() ==> head_capture_ok(captures[k], storage, weights, buckets[k])
}

/// The captures are those of the batch widths.
pub open spec fn head_captures_ok(
    captures: Seq<TerminalHeadCapture>,
    storage: DeepseekV4DsparkDeviceStorage,
    weights: DeepseekV4DsparkTerminalHeadWeights,
) -> bool {
    exists|buckets: Seq<usize>| captures_follow(captures, storage, weights, buckets)
}

} // verus!
