//! What is captured for every set of graphs, and whether it has to be.
use vstd::prelude::*;

use crate::device::{device_buffer_byte_view, Ds41rtDeviceBuffer};
use crate::dspark::entry::dspark_entry_graph_rows;
use crate::dspark::entry::{entry_graph_rows, positive_finite};
use crate::dspark::graphs::{
    all_block_rows, all_block_slots, all_slots, step_is, step_is_plain,
};
use crate::dspark::graphs::{
    DeepseekV4DsparkGraphs, GraphCapture, GraphCaptures, GraphError, GraphKey,
};
use crate::dspark::joint::{pre_dispatch_error, pre_dispatch_views_of};
use crate::dspark::launch::{
    block_attention_args, block_post_dispatch_args, entry_args, prompt_args, proposal_entry_args,
    terminal_collapse_args, KeywordView,
};
use crate::dspark::launch::{
    dspark_block_attention_python_buffers, dspark_block_post_dispatch_python_buffers,
    dspark_entry_python_buffers, dspark_prompt_python_buffers,
    dspark_proposal_entry_python_buffers, dspark_terminal_collapse_python_buffers,
    fraction_keyword, size_keyword, text_keyword, PromptMetadataLaunch, RmsNormLaunch,
};
use crate::dspark::pages::kv_block_view;
use crate::dspark::plan::DSPARK_BLOCKS;
use crate::dspark::queries::DSPARK_CAPTURE_MODULE;
use crate::dspark::storage::DeepseekV4DsparkDeviceStorage;
use crate::dspark::storage::{entry_views_of, request_bytes, request_views_of};
use crate::dspark::weights::on_first_device;
use crate::dspark::weights::{
    all_on_first_device, DeepseekV4DsparkBlockAttentionWeights,
    DeepseekV4DsparkBlockPostDispatchWeights, DeepseekV4DsparkTerminalCollapseWeights,
    EntryWeights, PromptWeights, ProposalEntryWeights,
};

verus! {

/// The parameters of captured graphs. Fractions are the bit patterns of 32-bit
/// floating-point values.
#[derive(Clone, Copy, Debug, PartialEq, Eq, Structural)]
pub struct GraphParameters {
    pub producer_eps_bits: u32,
    pub rms_eps_bits: u32,
    pub hc_eps_bits: u32,
    pub sinkhorn_iters: usize,
}

fn is_positive_finite(bits: u32) -> (r: bool)
    ensures
        r == positive_finite(bits),
{
    0 < bits && bits < 0x7f80_0000
}

/// Whether a set has to be captured: an empty one does, a complete one does
/// not, and any other is refused.
pub open spec fn admission(
    parameter_error: Option<GraphError>,
    captured: nat,
    complete: bool,
) -> Result<bool, GraphError> {
    match parameter_error {
        Some(e) => Err(e),
        None => if captured == 0 {
            Ok(true)
        } else if complete {
            Ok(false)
        } else {
            Err(GraphError::PartiallyInitialized)
        },
    }
}

pub open spec fn epsilon_error(bits: u32) -> Option<GraphError> {
    if positive_finite(bits) {
        None
    } else {
        Some(GraphError::Epsilon)
    }
}

pub open spec fn prompt_parameter_error(producer_eps_bits: u32, rope_theta_bits: u32) -> Option<
    GraphError,
> {
    if !positive_finite(producer_eps_bits) {
        Some(GraphError::Epsilon)
    } else if !positive_finite(rope_theta_bits) {
        Some(GraphError::RopeTheta)
    } else {
        None
    }
}

pub open spec fn proposal_parameter_error(parameters: GraphParameters) -> Option<GraphError> {
    if !positive_finite(parameters.rms_eps_bits) || !positive_finite(parameters.hc_eps_bits) {
        Some(GraphError::Epsilon)
    } else if parameters.sinkhorn_iters == 0 {
        Some(GraphError::Sinkhorn)
    } else {
        None
    }
}

pub open spec fn attention_parameter_error(parameters: GraphParameters) -> Option<GraphError> {
    if !positive_finite(parameters.producer_eps_bits) {
        Some(GraphError::Epsilon)
    } else {
        proposal_parameter_error(parameters)
    }
}

pub open spec fn collapse_parameter_error(parameters: GraphParameters) -> Option<GraphError> {
    if !positive_finite(parameters.rms_eps_bits) || !positive_finite(parameters.hc_eps_bits) {
        Some(GraphError::Epsilon)
    } else {
        None
    }
}

fn check_proposal_parameters(parameters: &GraphParameters) -> (error: Option<GraphError>)
    ensures
        error == proposal_parameter_error(*parameters),
{
    if !is_positive_finite(parameters.rms_eps_bits) || !is_positive_finite(
        parameters.hc_eps_bits,
    ) {
        Some(GraphError::Epsilon)
    } else if parameters.sinkhorn_iters == 0 {
        Some(GraphError::Sinkhorn)
    } else {
        None
    }
}

/// The number of row counts, smallest first, that fit the arena.
pub open spec fn fitting_row_counts(max_main_rows: int) -> int {
    if max_main_rows >= 2_048 {
        9
    } else if max_main_rows >= 1_024 {
        8
    } else if max_main_rows >= 512 {
        7
    } else if max_main_rows >= 256 {
        6
    } else if max_main_rows >= 128 {
        5
    } else if max_main_rows >= 64 {
        4
    } else if max_main_rows >= 32 {
        3
    } else if max_main_rows >= 16 {
        2
    } else {
        1
    }
}

/// Why the row count after the fitting ones is not captured.
pub open spec fn row_count_refusal(max_main_rows: usize) -> Option<GraphError> {
    let n = fitting_row_counts(max_main_rows as int);
    if n < 9 {
        Some(GraphError::Bucket { rows: entry_graph_rows()[n], max_rows: max_main_rows })
    } else {
        None
    }
}

pub open spec fn entry_keywords(
    storage: DeepseekV4DsparkDeviceStorage,
    rows: usize,
) -> Seq<(Seq<char>, KeywordView)> {
    seq![
        ("variant"@, KeywordView::Str(storage.plan.variant.label_text())),
        ("rows"@, KeywordView::Usize(rows)),
        ("max_rows"@, KeywordView::Usize(storage.plan.max_main_rows)),
        ("max_batch"@, KeywordView::Usize(storage.plan.max_batch)),
    ]
}

/// The projected rows are normalized in place.
pub open spec fn entry_norm(
    storage: DeepseekV4DsparkDeviceStorage,
    weights: EntryWeights,
    rows: usize,
    norm_eps_bits: u32,
) -> RmsNormLaunch {
    RmsNormLaunch {
        input: entry_views_of(storage).projected_target_main,
        weight: weights.main_norm_weight,
        output: entry_views_of(storage).projected_target_main,
        rows,
        hidden: storage.plan.hidden,
        eps_bits: norm_eps_bits,
    }
}

/// The step that captures the entry projection of a row count.
pub open spec fn entry_step_ok(
    step: GraphCapture,
    storage: DeepseekV4DsparkDeviceStorage,
    weights: EntryWeights,
    rows: usize,
    norm_eps_bits: u32,
) -> bool {
    &&& step.metadata is None
    &&& step.norm == Some(entry_norm(storage, weights, rows, norm_eps_bits))
    &&& step_is(
        step,
        GraphKey::Entry { rows },
        "prepare_deepseek_v4_dspark_entry_projection"@,
        "capture_deepseek_v4_dspark_entry_projection"@,
        entry_args(entry_views_of(storage), weights),
        entry_keywords(storage, rows),
    )
}

pub open spec fn entry_captures_ok(
    captures: GraphCaptures,
    storage: DeepseekV4DsparkDeviceStorage,
    weights: EntryWeights,
    norm_eps_bits: u32,
) -> bool {
    &&& captures.steps@.len() == fitting_row_counts(storage.plan.max_main_rows as int)
    &&& forall|i: int|
        #![trigger captures.steps@[i]]
        0 <= i < captures.steps@.len() ==> entry_step_ok(
            captures.steps@[i],
            storage,
            weights,
            entry_graph_rows()[i],
            norm_eps_bits,
        )
    &&& captures.refusal == row_count_refusal(storage.plan.max_main_rows)
}

/// Why no entry graph is captured, if none is.
pub open spec fn entry_capture_error(
    storage: DeepseekV4DsparkDeviceStorage,
    weights: EntryWeights,
) -> Option<GraphError> {
    if storage.entry_view_error() is Some {
        Some(GraphError::View { error: storage.entry_view_error()->Some_0 })
    } else if !on_first_device(
        seq![weights.main_proj_weight, weights.main_proj_scale, weights.main_norm_weight],
    ) {
        Some(GraphError::WeightDevice)
    } else {
        None
    }
}

pub open spec fn prompt_keywords(
    storage: DeepseekV4DsparkDeviceStorage,
    block: usize,
    rows: usize,
    producer_eps_bits: u32,
) -> Seq<(Seq<char>, KeywordView)> {
    seq![
        ("variant"@, KeywordView::Str(storage.plan.variant.label_text())),
        ("block_index"@, KeywordView::Usize(block)),
        ("rows"@, KeywordView::Usize(rows)),
        ("max_rows"@, KeywordView::Usize(storage.plan.max_main_rows)),
        ("max_batch"@, KeywordView::Usize(storage.plan.max_batch)),
        ("cache_format"@, KeywordView::Str(storage.plan.cache_label@)),
        ("producer_eps"@, KeywordView::Fraction(producer_eps_bits)),
    ]
}

/// The metadata with which prompt graphs are warmed: the first rows of the first
/// slot.
pub open spec fn warm_metadata(
    storage: DeepseekV4DsparkDeviceStorage,
    rows: usize,
    rope_theta_bits: u32,
) -> PromptMetadataLaunch {
    PromptMetadataLaunch {
        positions: entry_views_of(storage).prompt_positions,
        main_slots: entry_views_of(storage).prompt_main_slots,
        cos_sin: entry_views_of(storage).prompt_cos_sin,
        absolute_position_start: 0,
        request_slot: 0,
        rows,
        rope_theta_bits,
    }
}

/// The step that captures the prompt graph of a block and a row count.
pub open spec fn prompt_step_ok(
    step: GraphCapture,
    storage: DeepseekV4DsparkDeviceStorage,
    weights: PromptWeights,
    block: usize,
    rows: usize,
    producer_eps_bits: u32,
    rope_theta_bits: u32,
) -> bool {
    &&& step.metadata == Some(warm_metadata(storage, rows, rope_theta_bits))
    &&& step.norm is None
    &&& step_is(
        step,
        GraphKey::PromptPrime { block_index: block, rows },
        "prepare_deepseek_v4_dspark_prompt_prime"@,
        "capture_deepseek_v4_dspark_prompt_prime"@,
        prompt_args(entry_views_of(storage), kv_block_view(storage, block as int), weights),
        prompt_keywords(storage, block, rows, producer_eps_bits),
    )
}

pub open spec fn prompt_captures_ok(
    captures: GraphCaptures,
    storage: DeepseekV4DsparkDeviceStorage,
    weights: PromptWeights,
    block: usize,
    producer_eps_bits: u32,
    rope_theta_bits: u32,
) -> bool {
    &&& captures.steps@.len() == fitting_row_counts(storage.plan.max_main_rows as int)
    &&& forall|i: int|
        #![trigger captures.steps@[i]]
        0 <= i < captures.steps@.len() ==> prompt_step_ok(
            captures.steps@[i],
            storage,
            weights,
            block,
            entry_graph_rows()[i],
            producer_eps_bits,
            rope_theta_bits,
        )
    &&& captures.refusal == row_count_refusal(storage.plan.max_main_rows)
}

/// Why no prompt graph of a block is captured, if none is.
pub open spec fn prompt_capture_error(
    storage: DeepseekV4DsparkDeviceStorage,
    weights: PromptWeights,
) -> Option<GraphError> {
    if storage.entry_view_error() is Some {
        Some(GraphError::View { error: storage.entry_view_error()->Some_0 })
    } else if !on_first_device(
        seq![weights.wkv_weight, weights.wkv_scale, weights.kv_norm_weight],
    ) {
        Some(GraphError::WeightDevice)
    } else {
        None
    }
}

pub open spec fn proposal_keywords(
    storage: DeepseekV4DsparkDeviceStorage,
    parameters: GraphParameters,
) -> Seq<(Seq<char>, KeywordView)> {
    seq![
        ("variant"@, KeywordView::Str(storage.plan.variant.label_text())),
        ("max_batch"@, KeywordView::Usize(storage.plan.max_batch)),
        ("max_main_rows"@, KeywordView::Usize(storage.plan.max_main_rows)),
        ("rms_eps"@, KeywordView::Fraction(parameters.rms_eps_bits)),
        ("hc_eps"@, KeywordView::Fraction(parameters.hc_eps_bits)),
        ("sinkhorn_iters"@, KeywordView::Usize(parameters.sinkhorn_iters)),
        ("norm_eps"@, KeywordView::Fraction(parameters.rms_eps_bits)),
    ]
}

/// Where the base embeddings of one request are gathered.
pub open spec fn proposal_embedding_view(storage: DeepseekV4DsparkDeviceStorage) -> Ds41rtDeviceBuffer {
    entry_views_of(storage).projected_target_main.part(0, request_bytes(storage.plan.hidden as int))
}

/// The step that captures the proposal entry of one slot.
pub open spec fn proposal_step_ok(
    step: GraphCapture,
    storage: DeepseekV4DsparkDeviceStorage,
    weights: ProposalEntryWeights,
    parameters: GraphParameters,
    slot: usize,
) -> bool {
    &&& step_is_plain(step)
    &&& step_is(
        step,
        GraphKey::ProposalEntry { request_slot: slot },
        "prepare_deepseek_v4_dspark_proposal_entry"@,
        "capture_deepseek_v4_dspark_proposal_entry"@,
        proposal_entry_args(
            entry_views_of(storage).block_workspace,
            proposal_embedding_view(storage),
            request_views_of(storage, slot as int),
            weights,
        ),
        proposal_keywords(storage, parameters),
    )
}

pub open spec fn proposal_captures_ok(
    steps: Seq<GraphCapture>,
    storage: DeepseekV4DsparkDeviceStorage,
    weights: ProposalEntryWeights,
    parameters: GraphParameters,
) -> bool {
    &&& steps.len() == storage.plan.max_batch
    &&& forall|i: int|
        #![trigger steps[i]]
        0 <= i < steps.len() ==> proposal_step_ok(
            steps[i],
            storage,
            weights,
            parameters,
            i as usize,
        )
}

/// Why no proposal entry graph is captured, if none is.
pub open spec fn proposal_capture_error(
    storage: DeepseekV4DsparkDeviceStorage,
    weights: ProposalEntryWeights,
) -> Option<GraphError> {
    let projected = entry_views_of(storage).projected_target_main;
    let bytes = request_bytes(storage.plan.hidden as int);
    if storage.entry_view_error() is Some {
        Some(GraphError::View { error: storage.entry_view_error()->Some_0 })
    } else if bytes > projected.bytes {
        Some(
            GraphError::View {
                error: crate::device::ByteViewError {
                    offset: 0,
                    bytes: bytes as usize,
                    capacity: projected.bytes,
                },
            },
        )
    } else if !on_first_device(
        seq![weights.hc_fn, weights.hc_scale, weights.hc_base, weights.norm_weight],
    ) {
        Some(GraphError::WeightDevice)
    } else {
        None
    }
}

pub open spec fn attention_keywords(
    storage: DeepseekV4DsparkDeviceStorage,
    block: usize,
    parameters: GraphParameters,
) -> Seq<(Seq<char>, KeywordView)> {
    seq![
        ("variant"@, KeywordView::Str(storage.plan.variant.label_text())),
        ("block_index"@, KeywordView::Usize(block)),
        ("max_batch"@, KeywordView::Usize(storage.plan.max_batch)),
        ("max_main_rows"@, KeywordView::Usize(storage.plan.max_main_rows)),
        ("cache_format"@, KeywordView::Str(storage.plan.cache_label@)),
        ("producer_eps"@, KeywordView::Fraction(parameters.producer_eps_bits)),
        ("rms_eps"@, KeywordView::Fraction(parameters.rms_eps_bits)),
        ("hc_eps"@, KeywordView::Fraction(parameters.hc_eps_bits)),
        ("sinkhorn_iters"@, KeywordView::Usize(parameters.sinkhorn_iters)),
        ("norm_eps"@, KeywordView::Fraction(parameters.rms_eps_bits)),
    ]
}

/// The step that captures a block's attention for one slot.
pub open spec fn attention_step_ok(
    step: GraphCapture,
    storage: DeepseekV4DsparkDeviceStorage,
    weights: DeepseekV4DsparkBlockAttentionWeights,
    block: usize,
    parameters: GraphParameters,
    slot: usize,
) -> bool {
    &&& step_is_plain(step)
    &&& step_is(
        step,
        GraphKey::BlockAttention { block_index: block, request_slot: slot },
        "prepare_deepseek_v4_dspark_block_attention"@,
        "capture_deepseek_v4_dspark_block_attention"@,
        block_attention_args(
            entry_views_of(storage).block_workspace,
            kv_block_view(storage, block as int),
            request_views_of(storage, slot as int),
            weights,
        ),
        attention_keywords(storage, block, parameters),
    )
}

pub open spec fn attention_captures_ok(
    steps: Seq<GraphCapture>,
    storage: DeepseekV4DsparkDeviceStorage,
    weights: DeepseekV4DsparkBlockAttentionWeights,
    block: usize,
    parameters: GraphParameters,
) -> bool {
    &&& steps.len() == storage.plan.max_batch
    &&& forall|i: int|
        #![trigger steps[i]]
        0 <= i < steps.len() ==> attention_step_ok(
            steps[i],
            storage,
            weights,
            block,
            parameters,
            i as usize,
        )
}

/// Why no graph over the workspace is captured, if none is.
pub open spec fn workspace_capture_error(
    storage: DeepseekV4DsparkDeviceStorage,
    weights: Seq<Ds41rtDeviceBuffer>,
) -> Option<GraphError> {
    if storage.entry_view_error() is Some {
        Some(GraphError::View { error: storage.entry_view_error()->Some_0 })
    } else if !on_first_device(weights) {
        Some(GraphError::WeightDevice)
    } else {
        None
    }
}

/// Why no graph that reads a reduced result is captured, if none is.
pub open spec fn reduced_capture_error(
    storage: DeepseekV4DsparkDeviceStorage,
    weights: Seq<Ds41rtDeviceBuffer>,
) -> Option<GraphError> {
    if workspace_capture_error(storage, weights) is Some {
        workspace_capture_error(storage, weights)
    } else if pre_dispatch_error(storage, 0) is Some {
        Some(GraphError::Storage { error: pre_dispatch_error(storage, 0)->Some_0 })
    } else {
        None
    }
}

pub open spec fn post_dispatch_keywords(
    storage: DeepseekV4DsparkDeviceStorage,
    block: usize,
    parameters: GraphParameters,
) -> Seq<(Seq<char>, KeywordView)> {
    seq![
        ("variant"@, KeywordView::Str(storage.plan.variant.label_text())),
        ("block_index"@, KeywordView::Usize(block)),
        ("max_batch"@, KeywordView::Usize(storage.plan.max_batch)),
        ("max_main_rows"@, KeywordView::Usize(storage.plan.max_main_rows)),
        ("rms_eps"@, KeywordView::Fraction(parameters.rms_eps_bits)),
        ("hc_eps"@, KeywordView::Fraction(parameters.hc_eps_bits)),
        ("sinkhorn_iters"@, KeywordView::Usize(parameters.sinkhorn_iters)),
        ("norm_eps"@, KeywordView::Fraction(parameters.rms_eps_bits)),
    ]
}

/// The step that captures what lies between a block and the next for one slot.
pub open spec fn post_dispatch_step_ok(
    step: GraphCapture,
    storage: DeepseekV4DsparkDeviceStorage,
    weights: DeepseekV4DsparkBlockPostDispatchWeights,
    block: usize,
    parameters: GraphParameters,
    slot: usize,
) -> bool {
    &&& step_is_plain(step)
    &&& step_is(
        step,
        GraphKey::BlockPostDispatch { block_index: block, request_slot: slot },
        "prepare_deepseek_v4_dspark_block_post_dispatch"@,
        "capture_deepseek_v4_dspark_block_post_dispatch"@,
        block_post_dispatch_args(
            entry_views_of(storage).block_workspace,
            pre_dispatch_views_of(storage, slot as int).ffn_delta,
            request_views_of(storage, slot as int),
            weights,
        ),
        post_dispatch_keywords(storage, block, parameters),
    )
}

pub open spec fn post_dispatch_captures_ok(
    steps: Seq<GraphCapture>,
    storage: DeepseekV4DsparkDeviceStorage,
    weights: DeepseekV4DsparkBlockPostDispatchWeights,
    block: usize,
    parameters: GraphParameters,
) -> bool {
    &&& steps.len() == storage.plan.max_batch
    &&& forall|i: int|
        #![trigger steps[i]]
        0 <= i < steps.len() ==> post_dispatch_step_ok(
            steps[i],
            storage,
            weights,
            block,
            parameters,
            i as usize,
        )
}

pub open spec fn collapse_keywords(
    storage: DeepseekV4DsparkDeviceStorage,
    parameters: GraphParameters,
) -> Seq<(Seq<char>, KeywordView)> {
    seq![
        ("variant"@, KeywordView::Str(storage.plan.variant.label_text())),
        ("max_batch"@, KeywordView::Usize(storage.plan.max_batch)),
        ("max_main_rows"@, KeywordView::Usize(storage.plan.max_main_rows)),
        ("rms_eps"@, KeywordView::Fraction(parameters.rms_eps_bits)),
        ("hc_eps"@, KeywordView::Fraction(parameters.hc_eps_bits)),
        ("norm_eps"@, KeywordView::Fraction(parameters.rms_eps_bits)),
    ]
}

/// The step that captures the terminal collapse of one slot.
pub open spec fn collapse_step_ok(
    step: GraphCapture,
    storage: DeepseekV4DsparkDeviceStorage,
    weights: DeepseekV4DsparkTerminalCollapseWeights,
    parameters: GraphParameters,
    slot: usize,
) -> bool {
    &&& step_is_plain(step)
    &&& step_is(
        step,
        GraphKey::TerminalCollapse { request_slot: slot },
        "prepare_deepseek_v4_dspark_terminal_collapse"@,
        "capture_deepseek_v4_dspark_terminal_collapse"@,
        terminal_collapse_args(
            entry_views_of(storage).block_workspace,
            pre_dispatch_views_of(storage, slot as int).ffn_delta,
            request_views_of(storage, slot as int),
            weights,
        ),
        collapse_keywords(storage, parameters),
    )
}

pub open spec fn collapse_captures_ok(
    steps: Seq<GraphCapture>,
    storage: DeepseekV4DsparkDeviceStorage,
    weights: DeepseekV4DsparkTerminalCollapseWeights,
    parameters: GraphParameters,
) -> bool {
    &&& steps.len() == storage.plan.max_batch
    &&& forall|i: int|
        #![trigger steps[i]]
        0 <= i < steps.len() ==> collapse_step_ok(
            steps[i],
            storage,
            weights,
            parameters,
            i as usize,
        )
}

impl DeepseekV4DsparkGraphs {
    /// Whether the entry graphs have to be captured. A set of the right size
    /// counts as complete.
    pub fn entry_graphs_needed(&self, norm_eps_bits: u32) -> (result: Result<bool, GraphError>)
        ensures
            result == admission(
                epsilon_error(norm_eps_bits),
                self.entry@.len(),
                self.entry@.len() == 9,
            ),
    {
        if !is_positive_finite(norm_eps_bits) {
            return Err(GraphError::Epsilon);
        }
        if self.entry.len() == 0 {
            return Ok(true);
        }
        if self.entry.len() != 9 {
            return Err(GraphError::PartiallyInitialized);
        }
        Ok(false)
    }

    /// Whether the prompt graphs have to be captured.
    pub fn prompt_graphs_needed(&self, producer_eps_bits: u32, rope_theta_bits: u32) -> (result:
        Result<bool, GraphError>)
        ensures
            result == admission(
                prompt_parameter_error(producer_eps_bits, rope_theta_bits),
                self.prompt_prime@.len(),
                self.prompt_prime@ == all_block_rows(),
            ),
    {
        if !is_positive_finite(producer_eps_bits) {
            return Err(GraphError::Epsilon);
        }
        if !is_positive_finite(rope_theta_bits) {
            return Err(GraphError::RopeTheta);
        }
        if self.prompt_prime.len() == 0 {
            return Ok(true);
        }
        if !self.prompt_prime_graphs_prepared() {
            return Err(GraphError::PartiallyInitialized);
        }
        Ok(false)
    }

    /// Whether the proposal entry graphs have to be captured.
    pub fn proposal_entry_graphs_needed(
        &self,
        storage: &DeepseekV4DsparkDeviceStorage,
        parameters: &GraphParameters,
    ) -> (result: Result<bool, GraphError>)
        requires
            storage.wf(),
        ensures
            result == admission(
                proposal_parameter_error(*parameters),
                self.proposal_entry@.len(),
                self.proposal_entry@ == all_slots(storage.plan.max_batch as int),
            ),
    {
        if let Some(error) = check_proposal_parameters(parameters) {
            return Err(error);
        }
        if self.proposal_entry.len() == 0 {
            return Ok(true);
        }
        if !self.proposal_entry_graphs_prepared(storage) {
            return Err(GraphError::PartiallyInitialized);
        }
        Ok(false)
    }

    /// Whether the attention graphs have to be captured.
    pub fn block_attention_graphs_needed(
        &self,
        storage: &DeepseekV4DsparkDeviceStorage,
        parameters: &GraphParameters,
    ) -> (result: Result<bool, GraphError>)
        requires
            storage.wf(),
        ensures
            result == admission(
                attention_parameter_error(*parameters),
                self.block_attention@.len(),
                self.block_attention@ == all_block_slots(3, storage.plan.max_batch as int),
            ),
    {
        if !is_positive_finite(parameters.producer_eps_bits) {
            return Err(GraphError::Epsilon);
        }
        if let Some(error) = check_proposal_parameters(parameters) {
            return Err(error);
        }
        if self.block_attention.len() == 0 {
            return Ok(true);
        }
        if !self.block_attention_graphs_prepared(storage) {
            return Err(GraphError::PartiallyInitialized);
        }
        Ok(false)
    }

    /// Whether the post-dispatch graphs have to be captured.
    pub fn block_post_dispatch_graphs_needed(
        &self,
        storage: &DeepseekV4DsparkDeviceStorage,
        parameters: &GraphParameters,
    ) -> (result: Result<bool, GraphError>)
        requires
            storage.wf(),
        ensures
            result == admission(
                proposal_parameter_error(*parameters),
                self.block_post_dispatch@.len(),
                self.block_post_dispatch@ == all_block_slots(2, storage.plan.max_batch as int),
            ),
    {
        if let Some(error) = check_proposal_parameters(parameters) {
            return Err(error);
        }
        if self.block_post_dispatch.len() == 0 {
            return Ok(true);
        }
        if !self.block_post_dispatch_graphs_prepared(storage) {
            return Err(GraphError::PartiallyInitialized);
        }
        Ok(false)
    }

    /// Whether the collapse graphs have to be captured.
    pub fn terminal_collapse_graphs_needed(
        &self,
        storage: &DeepseekV4DsparkDeviceStorage,
        parameters: &GraphParameters,
    ) -> (result: Result<bool, GraphError>)
        ensures
            result == admission(
                collapse_parameter_error(*parameters),
                self.terminal_collapse@.len(),
                self.terminal_collapse@ == all_slots(storage.plan.max_batch as int),
            ),
    {
        if !is_positive_finite(parameters.rms_eps_bits) || !is_positive_finite(
            parameters.hc_eps_bits,
        ) {
            return Err(GraphError::Epsilon);
        }
        if self.terminal_collapse.len() == 0 {
            return Ok(true);
        }
        if !self.terminal_collapse_graphs_prepared(storage) {
            return Err(GraphError::PartiallyInitialized);
        }
        Ok(false)
    }
}

impl DeepseekV4DsparkDeviceStorage {
    /// The captures of the entry projection, one for every row count that fits
    /// the arena.
    pub fn prepare_entry_projection_graphs(
        &self,
        weights: &EntryWeights,
        norm_eps_bits: u32,
    ) -> (result: Result<GraphCaptures, GraphError>)
        requires
            self.wf(),
        ensures
            match entry_capture_error(*self, *weights) {
                Some(e) => result is Err && result->Err_0 == e,
                None => result is Ok && entry_captures_ok(
                    result->Ok_0,
                    *self,
                    *weights,
                    norm_eps_bits,
                ),
            },
    {
        let entry = match self.entry_buffers() {
            Ok(entry) => entry,
            Err(error) => return Err(GraphError::View { error }),
        };
        let list = vec![
            weights.main_proj_weight,
            weights.main_proj_scale,
            weights.main_norm_weight,
        ];
        assert(list@ =~= seq![
            weights.main_proj_weight,
            weights.main_proj_scale,
            weights.main_norm_weight,
        ]);
        if !all_on_first_device(list.as_slice()) {
            return Err(GraphError::WeightDevice);
        }
        let rows: Vec<usize> = dspark_entry_graph_rows();
        let mut steps: Vec<GraphCapture> = Vec::new();
        let mut i: usize = 0;
        while i < rows.len()
            invariant
                i <= rows@.len(),
                rows@ == entry_graph_rows(),
                self.wf(),
                entry == entry_views_of(*self),
                i <= fitting_row_counts(self.plan.max_main_rows as int),
                steps@.len() == i,
                entry_capture_error(*self, *weights) is None,
                forall|k: int|
                    #![trigger steps@[k]]
                    0 <= k < i ==> entry_step_ok(
                        steps@[k],
                        *self,
                        *weights,
                        entry_graph_rows()[k],
                        norm_eps_bits,
                    ),
            decreases rows@.len() - i,
        {
            let bucket: usize = rows[i];
            if bucket > self.plan.max_main_rows {
                let max_rows: usize = self.plan.max_main_rows;
                return Ok(
                    GraphCaptures {
                        steps,
                        refusal: Some(GraphError::Bucket { rows: bucket, max_rows }),
                    },
                );
            }
            let keywords = vec![
                text_keyword("variant", self.plan.variant.label()),
                size_keyword("rows", bucket),
                size_keyword("max_rows", self.plan.max_main_rows),
                size_keyword("max_batch", self.plan.max_batch),
            ];
            let step = GraphCapture {
                key: GraphKey::Entry { rows: bucket },
                module: DSPARK_CAPTURE_MODULE,
                prepare_function: "prepare_deepseek_v4_dspark_entry_projection",
                capture_function: "capture_deepseek_v4_dspark_entry_projection",
                buffers: dspark_entry_python_buffers(&entry, weights),
                keywords,
                metadata: None,
                norm: Some(
                    RmsNormLaunch {
                        input: entry.projected_target_main,
                        weight: weights.main_norm_weight,
                        output: entry.projected_target_main,
                        rows: bucket,
                        hidden: self.plan.hidden,
                        eps_bits: norm_eps_bits,
                    },
                ),
            };
            steps.push(step);
            i = i + 1;
        }
        Ok(GraphCaptures { steps, refusal: None })
    }

    /// The captures of one block's prompt graphs, one for every row count that
    /// fits the arena.
    pub fn prepare_prompt_prime_graphs(
        &self,
        block_index: usize,
        weights: &PromptWeights,
        producer_eps_bits: u32,
        rope_theta_bits: u32,
    ) -> (result: Result<GraphCaptures, GraphError>)
        requires
            self.wf(),
            block_index < DSPARK_BLOCKS,
        ensures
            match prompt_capture_error(*self, *weights) {
                Some(e) => result is Err && result->Err_0 == e,
                None => result is Ok && prompt_captures_ok(
                    result->Ok_0,
                    *self,
                    *weights,
                    block_index,
                    producer_eps_bits,
                    rope_theta_bits,
                ),
            },
    {
        let entry = match self.entry_buffers() {
            Ok(entry) => entry,
            Err(error) => return Err(GraphError::View { error }),
        };
        let main_kv_cache = match self.persistent_kv_block(block_index) {
            Ok(view) => view,
            Err(error) => return Err(GraphError::Storage { error }),
        };
        let list = vec![weights.wkv_weight, weights.wkv_scale, weights.kv_norm_weight];
        assert(list@ =~= seq![weights.wkv_weight, weights.wkv_scale, weights.kv_norm_weight]);
        if !all_on_first_device(list.as_slice()) {
            return Err(GraphError::WeightDevice);
        }
        let rows: Vec<usize> = dspark_entry_graph_rows();
        let mut steps: Vec<GraphCapture> = Vec::new();
        let mut i: usize = 0;
        while i < rows.len()
            invariant
                i <= rows@.len(),
                rows@ == entry_graph_rows(),
                self.wf(),
                entry == entry_views_of(*self),
                main_kv_cache == kv_block_view(*self, block_index as int),
                i <= fitting_row_counts(self.plan.max_main_rows as int),
                steps@.len() == i,
                prompt_capture_error(*self, *weights) is None,
                forall|k: int|
                    #![trigger steps@[k]]
                    0 <= k < i ==> prompt_step_ok(
                        steps@[k],
                        *self,
                        *weights,
                        block_index,
                        entry_graph_rows()[k],
                        producer_eps_bits,
                        rope_theta_bits,
                    ),
            decreases rows@.len() - i,
        {
            let bucket: usize = rows[i];
            if bucket > self.plan.max_main_rows {
                let max_rows: usize = self.plan.max_main_rows;
                return Ok(
                    GraphCaptures {
                        steps,
                        refusal: Some(GraphError::Bucket { rows: bucket, max_rows }),
                    },
                );
            }
            let keywords = vec![
                text_keyword("variant", self.plan.variant.label()),
                size_keyword("block_index", block_index),
                size_keyword("rows", bucket),
                size_keyword("max_rows", self.plan.max_main_rows),
                size_keyword("max_batch", self.plan.max_batch),
                text_keyword("cache_format", self.plan.cache_label),
                fraction_keyword("producer_eps", producer_eps_bits),
            ];
            let step = GraphCapture {
                key: GraphKey::PromptPrime { block_index, rows: bucket },
                module: DSPARK_CAPTURE_MODULE,
                prepare_function: "prepare_deepseek_v4_dspark_prompt_prime",
                capture_function: "capture_deepseek_v4_dspark_prompt_prime",
                buffers: dspark_prompt_python_buffers(&entry, main_kv_cache, weights),
                keywords,
                metadata: Some(
                    PromptMetadataLaunch {
                        positions: entry.prompt_positions,
                        main_slots: entry.prompt_main_slots,
                        cos_sin: entry.prompt_cos_sin,
                        absolute_position_start: 0,
                        request_slot: 0,
                        rows: bucket,
                        rope_theta_bits,
                    },
                ),
                norm: None,
            };
            steps.push(step);
            i = i + 1;
        }
        Ok(GraphCaptures { steps, refusal: None })
    }

    /// The captures of the proposal entry, one for every slot.
    pub fn prepare_proposal_entry_graphs(
        &self,
        weights: &ProposalEntryWeights,
        parameters: &GraphParameters,
    ) -> (result: Result<Vec<GraphCapture>, GraphError>)
        requires
            self.wf(),
        ensures
            match proposal_capture_error(*self, *weights) {
                Some(e) => result is Err && result->Err_0 == e,
                None => result is Ok && proposal_captures_ok(
                    result->Ok_0@,
                    *self,
                    *weights,
                    *parameters,
                ),
            },
    {
        let entry = match self.entry_buffers() {
            Ok(entry) => entry,
            Err(error) => return Err(GraphError::View { error }),
        };
        let proposal_embedding = match device_buffer_byte_view(
            entry.projected_target_main,
            0,
            10 * self.plan.hidden,
        ) {
            Ok(view) => view,
            Err(error) => return Err(GraphError::View { error }),
        };
        let list = vec![weights.hc_fn, weights.hc_scale, weights.hc_base, weights.norm_weight];
        assert(list@ =~= seq![
            weights.hc_fn,
            weights.hc_scale,
            weights.hc_base,
            weights.norm_weight,
        ]);
        if !all_on_first_device(list.as_slice()) {
            return Err(GraphError::WeightDevice);
        }
        let mut steps: Vec<GraphCapture> = Vec::new();
        let mut slot: usize = 0;
        while slot < self.plan.max_batch
            invariant
                slot <= self.plan.max_batch,
                self.wf(),
                entry == entry_views_of(*self),
                proposal_embedding == proposal_embedding_view(*self),
                proposal_capture_error(*self, *weights) is None,
                steps@.len() == slot,
                forall|k: int|
                    #![trigger steps@[k]]
                    0 <= k < slot ==> proposal_step_ok(
                        steps@[k],
                        *self,
                        *weights,
                        *parameters,
                        k as usize,
                    ),
            decreases self.plan.max_batch - slot,
        {
            let proposal = match self.proposal_request_buffers(slot) {
                Ok(proposal) => proposal,
                Err(error) => return Err(GraphError::Storage { error }),
            };
            let keywords = vec![
                text_keyword("variant", self.plan.variant.label()),
                size_keyword("max_batch", self.plan.max_batch),
                size_keyword("max_main_rows", self.plan.max_main_rows),
                fraction_keyword("rms_eps", parameters.rms_eps_bits),
                fraction_keyword("hc_eps", parameters.hc_eps_bits),
                size_keyword("sinkhorn_iters", parameters.sinkhorn_iters),
                fraction_keyword("norm_eps", parameters.rms_eps_bits),
            ];
            let step = GraphCapture {
                key: GraphKey::ProposalEntry { request_slot: slot },
                module: DSPARK_CAPTURE_MODULE,
                prepare_function: "prepare_deepseek_v4_dspark_proposal_entry",
                capture_function: "capture_deepseek_v4_dspark_proposal_entry",
                buffers: dspark_proposal_entry_python_buffers(
                    entry.block_workspace,
                    proposal_embedding,
                    &proposal,
                    weights,
                ),
                keywords,
                metadata: None,
                norm: None,
            };
            steps.push(step);
            slot = slot + 1;
        }
        Ok(steps)
    }

    /// The captures of one block's attention, one for every slot.
    pub fn prepare_block_attention_graphs(
        &self,
        block_index: usize,
        weights: &DeepseekV4DsparkBlockAttentionWeights,
        parameters: &GraphParameters,
    ) -> (result: Result<Vec<GraphCapture>, GraphError>)
        requires
            self.wf(),
            block_index < DSPARK_BLOCKS,
        ensures
            match workspace_capture_error(*self, weights.list()) {
                Some(e) => result is Err && result->Err_0 == e,
                None => result is Ok && attention_captures_ok(
                    result->Ok_0@,
                    *self,
                    *weights,
                    block_index,
                    *parameters,
                ),
            },
    {
        let workspace = match self.entry_buffers() {
            Ok(entry) => entry.block_workspace,
            Err(error) => return Err(GraphError::View { error }),
        };
        let main_kv_cache = match self.persistent_kv_block(block_index) {
            Ok(view) => view,
            Err(error) => return Err(GraphError::Storage { error }),
        };
        let list = weights.buffers();
        if !all_on_first_device(list.as_slice()) {
            return Err(GraphError::WeightDevice);
        }
        let mut steps: Vec<GraphCapture> = Vec::new();
        let mut slot: usize = 0;
        while slot < self.plan.max_batch
            invariant
                slot <= self.plan.max_batch,
                self.wf(),
                workspace == entry_views_of(*self).block_workspace,
                main_kv_cache == kv_block_view(*self, block_index as int),
                workspace_capture_error(*self, weights.list()) is None,
                steps@.len() == slot,
                forall|k: int|
                    #![trigger steps@[k]]
                    0 <= k < slot ==> attention_step_ok(
                        steps@[k],
                        *self,
                        *weights,
                        block_index,
                        *parameters,
                        k as usize,
                    ),
            decreases self.plan.max_batch - slot,
        {
            let proposal = match self.proposal_request_buffers(slot) {
                Ok(proposal) => proposal,
                Err(error) => return Err(GraphError::Storage { error }),
            };
            let keywords = vec![
                text_keyword("variant", self.plan.variant.label()),
                size_keyword("block_index", block_index),
                size_keyword("max_batch", self.plan.max_batch),
                size_keyword("max_main_rows", self.plan.max_main_rows),
                text_keyword("cache_format", self.plan.cache_label),
                fraction_keyword("producer_eps", parameters.producer_eps_bits),
                fraction_keyword("rms_eps", parameters.rms_eps_bits),
                fraction_keyword("hc_eps", parameters.hc_eps_bits),
                size_keyword("sinkhorn_iters", parameters.sinkhorn_iters),
                fraction_keyword("norm_eps", parameters.rms_eps_bits),
            ];
            let step = GraphCapture {
                key: GraphKey::BlockAttention { block_index, request_slot: slot },
                module: DSPARK_CAPTURE_MODULE,
                prepare_function: "prepare_deepseek_v4_dspark_block_attention",
                capture_function: "capture_deepseek_v4_dspark_block_attention",
                buffers: dspark_block_attention_python_buffers(
                    workspace,
                    main_kv_cache,
                    &proposal,
                    weights,
                ),
                keywords,
                metadata: None,
                norm: None,
            };
            steps.push(step);
            slot = slot + 1;
        }
        Ok(steps)
    }

    /// The captures between one block and the next, one for every slot.
    pub fn prepare_block_post_dispatch_graphs(
        &self,
        block_index: usize,
        weights: &DeepseekV4DsparkBlockPostDispatchWeights,
        parameters: &GraphParameters,
    ) -> (result: Result<Vec<GraphCapture>, GraphError>)
        requires
            self.wf(),
            block_index + 1 < DSPARK_BLOCKS,
        ensures
            match reduced_capture_error(*self, weights.list()) {
                Some(e) => result is Err && result->Err_0 == e,
                None => result is Ok && post_dispatch_captures_ok(
                    result->Ok_0@,
                    *self,
                    *weights,
                    block_index,
                    *parameters,
                ),
            },
    {
        let workspace = match self.entry_buffers() {
            Ok(entry) => entry.block_workspace,
            Err(error) => return Err(GraphError::View { error }),
        };
        let list = vec![
            weights.next_hc_fn,
            weights.next_hc_scale,
            weights.next_hc_base,
            weights.next_norm_weight,
        ];
        assert(list@ =~= weights.list());
        if !all_on_first_device(list.as_slice()) {
            return Err(GraphError::WeightDevice);
        }
        let mut steps: Vec<GraphCapture> = Vec::new();
        let mut slot: usize = 0;
        while slot < self.plan.max_batch
            invariant
                slot <= self.plan.max_batch,
                self.wf(),
                workspace == entry_views_of(*self).block_workspace,
                workspace_capture_error(*self, weights.list()) is None,
                slot > 0 ==> reduced_capture_error(*self, weights.list()) is None,
                steps@.len() == slot,
                forall|k: int|
                    #![trigger steps@[k]]
                    0 <= k < slot ==> post_dispatch_step_ok(
                        steps@[k],
                        *self,
                        *weights,
                        block_index,
                        *parameters,
                        k as usize,
                    ),
            decreases self.plan.max_batch - slot,
        {
            let proposal = match self.proposal_request_buffers(slot) {
                Ok(proposal) => proposal,
                Err(error) => return Err(GraphError::Storage { error }),
            };
            let pre_dispatch = match self.block_pre_dispatch_buffers(slot) {
                Ok(buffers) => buffers,
                Err(error) => return Err(GraphError::Storage { error }),
            };
            let keywords = vec![
                text_keyword("variant", self.plan.variant.label()),
                size_keyword("block_index", block_index),
                size_keyword("max_batch", self.plan.max_batch),
                size_keyword("max_main_rows", self.plan.max_main_rows),
                fraction_keyword("rms_eps", parameters.rms_eps_bits),
                fraction_keyword("hc_eps", parameters.hc_eps_bits),
                size_keyword("sinkhorn_iters", parameters.sinkhorn_iters),
                fraction_keyword("norm_eps", parameters.rms_eps_bits),
            ];
            let step = GraphCapture {
                key: GraphKey::BlockPostDispatch { block_index, request_slot: slot },
                module: DSPARK_CAPTURE_MODULE,
                prepare_function: "prepare_deepseek_v4_dspark_block_post_dispatch",
                capture_function: "capture_deepseek_v4_dspark_block_post_dispatch",
                buffers: dspark_block_post_dispatch_python_buffers(
                    workspace,
                    pre_dispatch.ffn_delta,
                    &proposal,
                    weights,
                ),
                keywords,
                metadata: None,
                norm: None,
            };
            steps.push(step);
            slot = slot + 1;
        }
        Ok(steps)
    }

    /// The captures of the terminal collapse, one for every slot.
    pub fn prepare_terminal_collapse_graphs(
        &self,
        weights: &DeepseekV4DsparkTerminalCollapseWeights,
        parameters: &GraphParameters,
    ) -> (result: Result<Vec<GraphCapture>, GraphError>)
        requires
            self.wf(),
        ensures
            match reduced_capture_error(*self, weights.list()) {
                Some(e) => result is Err && result->Err_0 == e,
                None => result is Ok && collapse_captures_ok(
                    result->Ok_0@,
                    *self,
                    *weights,
                    *parameters,
                ),
            },
    {
        let workspace = match self.entry_buffers() {
            Ok(entry) => entry.block_workspace,
            Err(error) => return Err(GraphError::View { error }),
        };
        let list = vec![weights.hc_fn, weights.hc_scale, weights.hc_base, weights.norm_weight];
        assert(list@ =~= weights.list());
        if !all_on_first_device(list.as_slice()) {
            return Err(GraphError::WeightDevice);
        }
        let mut steps: Vec<GraphCapture> = Vec::new();
        let mut slot: usize = 0;
        while slot < self.plan.max_batch
            invariant
                slot <= self.plan.max_batch,
                self.wf(),
                workspace == entry_views_of(*self).block_workspace,
                workspace_capture_error(*self, weights.list()) is None,
                slot > 0 ==> reduced_capture_error(*self, weights.list()) is None,
                steps@.len() == slot,
                forall|k: int|
                    #![trigger steps@[k]]
                    0 <= k < slot ==> collapse_step_ok(
                        steps@[k],
                        *self,
                        *weights,
                        *parameters,
                        k as usize,
                    ),
            decreases self.plan.max_batch - slot,
        {
            let proposal = match self.proposal_request_buffers(slot) {
                Ok(proposal) => proposal,
                Err(error) => return Err(GraphError::Storage { error }),
            };
            let pre_dispatch = match self.block_pre_dispatch_buffers(slot) {
                Ok(buffers) => buffers,
                Err(error) => return Err(GraphError::Storage { error }),
            };
            let keywords = vec![
                text_keyword("variant", self.plan.variant.label()),
                size_keyword("max_batch", self.plan.max_batch),
                size_keyword("max_main_rows", self.plan.max_main_rows),
                fraction_keyword("rms_eps", parameters.rms_eps_bits),
                fraction_keyword("hc_eps", parameters.hc_eps_bits),
                fraction_keyword("norm_eps", parameters.rms_eps_bits),
            ];
            let step = GraphCapture {
                key: GraphKey::TerminalCollapse { request_slot: slot },
                module: DSPARK_CAPTURE_MODULE,
                prepare_function: "prepare_deepseek_v4_dspark_terminal_collapse",
                capture_function: "capture_deepseek_v4_dspark_terminal_collapse",
                buffers: dspark_terminal_collapse_python_buffers(
                    workspace,
                    pre_dispatch.ffn_delta,
                    &proposal,
                    weights,
                ),
                keywords,
                metadata: None,
                norm: None,
            };
            steps.push(step);
            slot = slot + 1;
        }
        Ok(steps)
    }
}

} // verus!
