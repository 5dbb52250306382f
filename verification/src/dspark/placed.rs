//! What a storage plan needs to hold: how many bytes each buffer takes, in rows,
//! values and bytes per value, and where in the arena it may lie.
use vstd::prelude::*;

use crate::dspark::plan::{
    answered_plan, block_sizes_ok, block_views, entry_error, plan_accepted, plan_limits, plan_valid,
    planned, proposal_sizes_ok, proposal_views, size_error, terminal_sizes_ok, terminal_views,
    ArenaRange, DeepseekV4DsparkDeviceStoragePlan, DsparkVariant, StorageLimits, StoragePlanError,
};
use crate::dspark::queries::{DeepseekV4KvCacheFormat, LAYOUT_QUERIES};
use crate::model::ModelVariant;
use crate::sparse_block::{variant_profile, SparseConstants};

verus! {

/// The range has that many bytes, starts at a multiple of `alignment` and ends
/// within `limit`.
pub open spec fn lies(range: ArenaRange, bytes: int, alignment: int, limit: int) -> bool {
    &&& range.bytes == bytes
    &&& range.offset as int % alignment == 0
    &&& range.offset + range.bytes <= limit
}

/// The values of a hidden row.
pub open spec fn row_values(variant: DsparkVariant) -> int {
    match variant {
        DsparkVariant::Flash => 4_096,
        DsparkVariant::Pro => 7_168,
    }
}

/// The values of a Markov embedding.
pub open spec fn embedding_values(variant: DsparkVariant) -> int {
    match variant {
        DsparkVariant::Flash => 256,
        DsparkVariant::Pro => 512,
    }
}

/// The experts that a row is scored against.
pub open spec fn scored_experts(variant: DsparkVariant) -> int {
    match variant {
        DsparkVariant::Flash => 256,
        DsparkVariant::Pro => 384,
    }
}

/// The values between the two shared projections.
pub open spec fn shared_values(variant: DsparkVariant) -> int {
    match variant {
        DsparkVariant::Flash => 2_048,
        DsparkVariant::Pro => 3_072,
    }
}

/// The bytes of a page.
pub open spec fn page_size(format: DeepseekV4KvCacheFormat) -> int {
    match format {
        DeepseekV4KvCacheFormat::Fp8Ue8m0 => 149_760,
        DeepseekV4KvCacheFormat::Nvfp4 => 110_592,
    }
}

/// The buffers of the proposal rows: a word, or some values of two or four bytes,
/// for each of five rows per request.
pub open spec fn proposal_laid_out(plan: DeepseekV4DsparkDeviceStoragePlan) -> bool {
    let rows = 5 * plan.max_batch;
    let hidden = row_values(plan.variant);
    let arena = plan.arena_bytes as int;
    let p = plan.proposal;
    &&& lies(p.draft_token_ids, rows * 4, 16, arena)
    &&& lies(p.positions, rows * 4, 16, arena)
    &&& lies(p.main_slots, rows * 4, 16, arena)
    &&& lies(p.selected_lengths, rows * 4, 16, arena)
    &&& lies(p.residual_ping, rows * (4 * hidden * 2), 16, arena)
    &&& lies(p.residual_pong, rows * (4 * hidden * 2), 16, arena)
    &&& lies(p.collapsed_hidden, rows * (hidden * 2), 16, arena)
    &&& lies(p.normalized_hidden, rows * (hidden * 2), 16, arena)
    &&& lies(p.cos_sin, rows * 64 * 4, 16, arena)
    &&& lies(p.post_ping, rows * 4 * 4, 16, arena)
    &&& lies(p.post_pong, rows * 4 * 4, 16, arena)
    &&& lies(p.comb_ping, rows * 4 * 4 * 4, 16, arena)
    &&& lies(p.comb_pong, rows * 4 * 4 * 4, 16, arena)
    &&& lies(p.selected_indices, rows * 133 * 4, 16, arena)
}

/// The buffers of the head: rows and logits of the proposal, and words per request.
pub open spec fn terminal_laid_out(plan: DeepseekV4DsparkDeviceStoragePlan) -> bool {
    let requests = plan.max_batch as int;
    let rows = 5 * requests;
    let hidden = row_values(plan.variant);
    let arena = plan.arena_bytes as int;
    let t = plan.terminal;
    &&& lies(t.compact_normalized_hidden, rows * (hidden * 2), 16, arena)
    &&& lies(t.shared_logits, rows * 129_280 * 4, 16, arena)
    &&& lies(t.markov_logits, requests * 129_280 * 4, 16, arena)
    &&& lies(t.markov_embeddings, rows * (embedding_values(plan.variant) * 2), 16, arena)
    &&& lies(t.confidence, rows * 4, 16, arena)
    &&& lies(t.active_slot_ids, requests * 4, 16, arena)
    &&& lies(t.anchor_token_ids, requests * 4, 16, arena)
    &&& lies(t.output_token_ids, (requests + rows) * 4, 16, arena)
}

/// The buffers of a block, in the workspace that the blocks reuse.
pub open spec fn block_laid_out(plan: DeepseekV4DsparkDeviceStoragePlan) -> bool {
    let rows = 5 * plan.max_batch;
    let hidden = row_values(plan.variant);
    let shared = 8 * (shared_values(plan.variant) * 2);
    let workspace = plan.entry.block_workspace.bytes as int;
    let b = plan.block;
    &&& lies(b.route_indices, rows * 6 * 4, 1_024, workspace)
    &&& lies(b.route_scores, rows * ((6 + scored_experts(plan.variant)) * 4), 1_024, workspace)
    &&& lies(b.route_weights, rows * 6 * 4, 1_024, workspace)
    &&& lies(b.shared_gate, shared, 1_024, workspace)
    &&& lies(b.shared_up, shared, 1_024, workspace)
    &&& lies(b.shared_activated, shared, 1_024, workspace)
    &&& lies(b.shared_delta, rows * (hidden * 2), 1_024, workspace)
    &&& lies(b.reduction_f32, rows * (hidden * 4), 1_024, workspace)
    &&& lies(b.ffn_delta, rows * (hidden * 2), 1_024, workspace)
}

/// The regions of the entry: the projected rows and the workspace in the arena; in
/// the workspace the taps of three layers side by side, behind them the scratch of
/// the projection, and in place of the taps the metadata of the prompt.
pub open spec fn entry_laid_out(plan: DeepseekV4DsparkDeviceStoragePlan) -> bool {
    let rows = plan.max_main_rows as int;
    let hidden = row_values(plan.variant);
    let arena = plan.arena_bytes as int;
    let e = plan.entry;
    let taps_end = e.target_tap_concat.offset + e.target_tap_concat.bytes;
    &&& arena > 0
    &&& e.projected_target_main.bytes == rows * (hidden * 2)
    &&& e.projected_target_main.offset + e.projected_target_main.bytes <= arena
    &&& e.block_workspace.offset + e.block_workspace.bytes <= arena
    &&& plan.kv_producer_scratch.bytes > 0
    &&& plan.kv_producer_scratch.offset + plan.kv_producer_scratch.bytes <= arena
    &&& e.target_tap_concat.bytes == rows * (3 * hidden * 2)
    &&& e.target_tap_concat.offset as int % 1_024 == 0
    &&& e.projection_scratch.bytes > 0
    &&& e.projection_scratch.offset as int % 1_024 == 0
    &&& taps_end <= e.projection_scratch.offset
    &&& e.projection_scratch.offset + e.projection_scratch.bytes <= e.block_workspace.bytes
    &&& e.prompt_positions.bytes == rows * 4
    &&& e.prompt_positions.offset as int % 1_024 == 0
    &&& e.prompt_main_slots.bytes == rows * 4
    &&& e.prompt_main_slots.offset as int % 1_024 == 0
    &&& lies(e.prompt_cos_sin, rows * 64 * 4, 1_024, e.target_tap_concat.bytes as int)
}

/// The plan holds some requests and some rows, its pages and all its buffers.
pub open spec fn laid_out(plan: DeepseekV4DsparkDeviceStoragePlan) -> bool {
    &&& plan.max_batch > 0
    &&& plan.max_main_rows > 0
    &&& plan.persistent_kv_bytes == 3 * (plan.max_batch * page_size(plan.cache_format))
    &&& entry_laid_out(plan)
    &&& proposal_laid_out(plan)
    &&& terminal_laid_out(plan)
    &&& block_laid_out(plan)
}

proof fn lemma_times(x: int, y: int, z: int)
    requires
        y == z,
    ensures
        x * y == x * z,
{
}

/// The row sizes of a variant, as multiples of the rows.
proof fn lemma_row_sizes(plan: DeepseekV4DsparkDeviceStoragePlan, rows: int)
    ensures
        rows * (row_values(plan.variant) * 2) == (if plan.variant is Flash {
            rows * 8_192
        } else {
            rows * 14_336
        }),
        rows * (row_values(plan.variant) * 4) == (if plan.variant is Flash {
            rows * 16_384
        } else {
            rows * 28_672
        }),
        rows * (3 * row_values(plan.variant) * 2) == (if plan.variant is Flash {
            rows * 24_576
        } else {
            rows * 43_008
        }),
        rows * (4 * row_values(plan.variant) * 2) == (if plan.variant is Flash {
            rows * 32_768
        } else {
            rows * 57_344
        }),
        rows * (embedding_values(plan.variant) * 2) == (if plan.variant is Flash {
            rows * 512
        } else {
            rows * 1_024
        }),
        rows * ((6 + scored_experts(plan.variant)) * 4) == (if plan.variant is Flash {
            rows * 1_048
        } else {
            rows * 1_560
        }),
        plan.max_batch * page_size(plan.cache_format) == (if plan.cache_format is Fp8Ue8m0 {
            plan.max_batch * 149_760
        } else {
            plan.max_batch * 110_592
        }),
{
    match plan.variant {
        DsparkVariant::Flash => {
            lemma_times(rows, row_values(plan.variant) * 2, 8_192);
            lemma_times(rows, row_values(plan.variant) * 4, 16_384);
            lemma_times(rows, 3 * row_values(plan.variant) * 2, 24_576);
            lemma_times(rows, 4 * row_values(plan.variant) * 2, 32_768);
            lemma_times(rows, embedding_values(plan.variant) * 2, 512);
            lemma_times(rows, (6 + scored_experts(plan.variant)) * 4, 1_048);
        },
        DsparkVariant::Pro => {
            lemma_times(rows, row_values(plan.variant) * 2, 14_336);
            lemma_times(rows, row_values(plan.variant) * 4, 28_672);
            lemma_times(rows, 3 * row_values(plan.variant) * 2, 43_008);
            lemma_times(rows, 4 * row_values(plan.variant) * 2, 57_344);
            lemma_times(rows, embedding_values(plan.variant) * 2, 1_024);
            lemma_times(rows, (6 + scored_experts(plan.variant)) * 4, 1_560);
        },
    }
    match plan.cache_format {
        DeepseekV4KvCacheFormat::Fp8Ue8m0 => {
            lemma_times(plan.max_batch as int, page_size(plan.cache_format), 149_760);
        },
        DeepseekV4KvCacheFormat::Nvfp4 => {
            lemma_times(plan.max_batch as int, page_size(plan.cache_format), 110_592);
        },
    }
}

/// The views of a plan are its buffers.
proof fn lemma_views(plan: DeepseekV4DsparkDeviceStoragePlan)
    ensures
        ({
            let b = block_views(plan.block);
            &&& b.len() == 9
            &&& b[0] == plan.block.route_indices
            &&& b[1] == plan.block.route_scores
            &&& b[2] == plan.block.route_weights
            &&& b[3] == plan.block.shared_gate
            &&& b[4] == plan.block.shared_up
            &&& b[5] == plan.block.shared_activated
            &&& b[6] == plan.block.shared_delta
            &&& b[7] == plan.block.reduction_f32
            &&& b[8] == plan.block.ffn_delta
        }),
        ({
            let p = proposal_views(plan.proposal);
            &&& p.len() == 14
            &&& p[0] == plan.proposal.draft_token_ids
            &&& p[1] == plan.proposal.residual_ping
            &&& p[2] == plan.proposal.residual_pong
            &&& p[3] == plan.proposal.collapsed_hidden
            &&& p[4] == plan.proposal.normalized_hidden
            &&& p[5] == plan.proposal.positions
            &&& p[6] == plan.proposal.main_slots
            &&& p[7] == plan.proposal.cos_sin
            &&& p[8] == plan.proposal.post_ping
            &&& p[9] == plan.proposal.comb_ping
            &&& p[10] == plan.proposal.post_pong
            &&& p[11] == plan.proposal.comb_pong
            &&& p[12] == plan.proposal.selected_indices
            &&& p[13] == plan.proposal.selected_lengths
        }),
        ({
            let t = terminal_views(plan.terminal);
            &&& t.len() == 8
            &&& t[0] == plan.terminal.compact_normalized_hidden
            &&& t[1] == plan.terminal.shared_logits
            &&& t[2] == plan.terminal.markov_logits
            &&& t[3] == plan.terminal.markov_embeddings
            &&& t[4] == plan.terminal.confidence
            &&& t[5] == plan.terminal.active_slot_ids
            &&& t[6] == plan.terminal.anchor_token_ids
            &&& t[7] == plan.terminal.output_token_ids
        }),
{
}

/// A valid plan is laid out: every buffer has room for its rows and lies where the
/// kernels can reach it.
#[verifier::spinoff_prover]
#[verifier::rlimit(60)]
pub proof fn law_valid_plan_is_laid_out(plan: DeepseekV4DsparkDeviceStoragePlan)
    requires
        plan_valid(plan),
    ensures
        laid_out(plan),
{
    lemma_row_sizes(plan, 5 * plan.max_batch);
    lemma_row_sizes(plan, plan.max_main_rows as int);
    lemma_views(plan);
}

/// A plan that is laid out, with the widths of its variant, is valid.
#[verifier::spinoff_prover]
#[verifier::rlimit(60)]
pub proof fn law_laid_out_plan_is_valid(plan: DeepseekV4DsparkDeviceStoragePlan)
    requires
        laid_out(plan),
        plan.hidden == row_values(plan.variant),
        plan.markov_rank == embedding_values(plan.variant),
        plan.vocab == 129_280,
        plan.packed_page_bytes == page_size(plan.cache_format),
    ensures
        plan_valid(plan),
{
    lemma_row_sizes(plan, 5 * plan.max_batch);
    lemma_row_sizes(plan, plan.max_main_rows as int);
    lemma_views(plan);
    let limits = plan_limits(plan);
    assert(proposal_sizes_ok(limits, plan.proposal));
    assert(terminal_sizes_ok(limits, plan.terminal));
    assert(block_sizes_ok(limits, plan.block));
    assert(size_error(limits, plan) is None);
    assert(entry_error(limits, plan) is None);
}

/// The answers to the layout queries make a plan exactly if they lay out all
/// buffers for the asked requests and rows; the plan then has the widths of its
/// variant and the pages of its format.
pub proof fn law_answers_make_a_plan_if_laid_out(
    result: Result<DeepseekV4DsparkDeviceStoragePlan, StoragePlanError>,
    limits: StorageLimits,
    answers: Seq<usize>,
)
    requires
        planned(result, limits, answers),
        answers.len() == LAYOUT_QUERIES,
    ensures
        result is Ok <==> laid_out(answered_plan(limits, answers)),
        limits.max_batch == 0 ==> result == Err::<
            DeepseekV4DsparkDeviceStoragePlan,
            StoragePlanError,
        >(StoragePlanError::ZeroBatch),
        result matches Ok(plan) ==> {
            &&& plan.variant == limits.variant
            &&& plan.cache_format == limits.cache_format
            &&& plan.cache_label == limits.cache_label
            &&& plan.max_batch == limits.max_batch
            &&& plan.max_main_rows == limits.max_main_rows
            &&& plan.hidden == row_values(limits.variant)
            &&& plan.markov_rank == embedding_values(limits.variant)
            &&& plan.vocab == 129_280
            &&& plan.packed_page_bytes == page_size(limits.cache_format)
        },
{
    let plan = answered_plan(limits, answers);
    assert(plan_limits(plan) == limits);
    if plan_accepted(limits, answers) {
        law_valid_plan_is_laid_out(plan);
    }
    if laid_out(plan) {
        law_laid_out_plan_is_valid(plan);
    }
}

/// The drafter of a variant is made for the widths and the experts of the sparse
/// blocks of the model of that variant.
pub proof fn law_drafter_has_the_geometry_of_its_model(constants: SparseConstants)
    ensures
        ({
            let flash = variant_profile(ModelVariant::Flash, constants);
            let pro = variant_profile(ModelVariant::Pro, constants);
            &&& flash.hidden == DsparkVariant::Flash.hidden_spec()
            &&& pro.hidden == DsparkVariant::Pro.hidden_spec()
            &&& flash.routed_experts == DsparkVariant::Flash.routed_experts_spec()
            &&& pro.routed_experts == DsparkVariant::Pro.routed_experts_spec()
            &&& flash.shared_intermediate == DsparkVariant::Flash.shared_intermediate_spec()
            &&& pro.shared_intermediate == DsparkVariant::Pro.shared_intermediate_spec()
            &&& flash.hidden == row_values(DsparkVariant::Flash)
            &&& pro.hidden == row_values(DsparkVariant::Pro)
            &&& flash.routed_experts == scored_experts(DsparkVariant::Flash)
            &&& pro.routed_experts == scored_experts(DsparkVariant::Pro)
            &&& flash.shared_intermediate == shared_values(DsparkVariant::Flash)
            &&& pro.shared_intermediate == shared_values(DsparkVariant::Pro)
            &&& flash.top_k == constants.flash_top_k
            &&& pro.top_k == constants.pro_top_k
            &&& flash.variant == ModelVariant::Flash
            &&& pro.variant == ModelVariant::Pro
        }),
{
}

} // verus!
