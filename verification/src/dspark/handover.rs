//! What the stages of the drafter hand to each other: the buffer that one writes
//! is the buffer that the next reads.
use vstd::prelude::*;

use crate::device::Ds41rtDeviceBuffer;
use crate::dspark::capture::{
    attention_step_ok, collapse_step_ok, entry_step_ok, post_dispatch_step_ok, prompt_step_ok,
    proposal_embedding_view, proposal_step_ok, GraphParameters,
};
use crate::dspark::entry::{entry_chunk_ok, tap_copy, EntryChunk, EntryRequest, TargetTap};
use crate::dspark::graphs::GraphCapture;
use crate::dspark::joint::pre_dispatch_views_of;
use crate::dspark::launch::{PromptMetadataLaunch, PythonDeviceBufferArg};
use crate::dspark::pages::{kv_block_view, kv_page_view, lemma_page_view};
use crate::dspark::plan::{proposal_views, DsparkVariant, DSPARK_BLOCKS};
use crate::dspark::queries::DeepseekV4KvCacheFormat;
use crate::dspark::run::{
    embedding_gather, joint_load, sparse_output_of, terminal_head_launch, RowCopy,
};
use crate::dspark::storage::{
    entry_views_of, proposal_views_of, request_views_of, slot_view, DeepseekV4DsparkDeviceStorage,
    DeepseekV4DsparkProposalDeviceBuffers,
};
use crate::dspark::weights::{
    DeepseekV4DsparkBlockAttentionWeights, DeepseekV4DsparkBlockPostDispatchWeights,
    DeepseekV4DsparkTerminalCollapseWeights, DeepseekV4DsparkTerminalHeadWeights, EntryWeights,
    PromptWeights, ProposalEntryWeights,
};

verus! {

/// Argument `i` passes a buffer under a name.
pub open spec fn passed_at(
    args: Seq<PythonDeviceBufferArg>,
    i: int,
    name: Seq<char>,
    buffer: Ds41rtDeviceBuffer,
) -> bool {
    &&& 0 <= i < args.len()
    &&& args[i].name@ == name
    &&& args[i].ptr == buffer.ptr
    &&& args[i].bytes == buffer.bytes
    &&& args[i].device_id == buffer.device_id
    &&& args[i].flags == buffer.flags
}

/// A buffer is passed under a name.
pub open spec fn passed(
    args: Seq<PythonDeviceBufferArg>,
    name: Seq<char>,
    buffer: Ds41rtDeviceBuffer,
) -> bool {
    exists|i: int| #[trigger] passed_at(args, i, name, buffer)
}

/// Of `slots` equal shares into which a buffer is divided without a rest, the
/// part is the one of a slot: it starts behind the shares of the slots before.
pub open spec fn is_share(
    part: Ds41rtDeviceBuffer,
    whole: Ds41rtDeviceBuffer,
    slot: int,
    slots: int,
) -> bool {
    &&& part.ptr == whole.ptr + slot * part.bytes
    &&& part.bytes * slots == whole.bytes
    &&& part.device_id == whole.device_id
    &&& part.flags == whole.flags
}

/// The part starts with the buffer.
pub open spec fn starts(part: Ds41rtDeviceBuffer, whole: Ds41rtDeviceBuffer) -> bool {
    &&& part.ptr == whole.ptr
    &&& part.bytes <= whole.bytes
    &&& part.device_id == whole.device_id
    &&& part.flags == whole.flags
}

/// The part lies in the buffer.
pub open spec fn inside(part: Ds41rtDeviceBuffer, whole: Ds41rtDeviceBuffer) -> bool {
    &&& whole.ptr <= part.ptr
    &&& part.ptr + part.bytes <= whole.ptr + whole.bytes
    &&& part.device_id == whole.device_id
}

proof fn lemma_share(
    whole: Ds41rtDeviceBuffer,
    unit: int,
    slot: int,
    slots: int,
)
    requires
        0 <= slot < slots,
        unit >= 0,
        whole.bytes == slots * unit,
        whole.ptr + whole.bytes <= usize::MAX,
    ensures
        is_share(
            slot_view(whole, slot, slots),
            whole,
            slot,
            slots,
        ),
{
    vstd::arithmetic::div_mod::lemma_div_multiples_vanish(unit, slots);
    vstd::arithmetic::mul::lemma_mul_is_commutative(unit, slots);
    assert(whole.bytes as int / slots == unit);
    assert(0 <= slot * unit && slot * unit + unit <= slots * unit) by (nonlinear_arith)
        requires
            0 <= slot,
            slot + 1 <= slots,
            unit >= 0,
    ;
    assert(unit <= slots * unit) by (nonlinear_arith)
        requires
            slots >= 1,
            unit >= 0,
    ;
}

/// The views of one request are its shares of the views of all requests.
pub proof fn law_request_views_are_shares(storage: DeepseekV4DsparkDeviceStorage, slot: int)
    requires
        storage.wf(),
        0 <= slot < storage.plan.max_batch,
    ensures
        ({
            let own = request_views_of(storage, slot);
            let all = proposal_views_of(storage);
            let slots = storage.plan.max_batch as int;
            &&& is_share(own.draft_token_ids, all.draft_token_ids, slot, slots)
            &&& is_share(own.residual_ping, all.residual_ping, slot, slots)
            &&& is_share(own.residual_pong, all.residual_pong, slot, slots)
            &&& is_share(own.collapsed_hidden, all.collapsed_hidden, slot, slots)
            &&& is_share(own.normalized_hidden, all.normalized_hidden, slot, slots)
            &&& is_share(own.positions, all.positions, slot, slots)
            &&& is_share(own.main_slots, all.main_slots, slot, slots)
            &&& is_share(own.cos_sin, all.cos_sin, slot, slots)
            &&& is_share(own.post_ping, all.post_ping, slot, slots)
            &&& is_share(own.comb_ping, all.comb_ping, slot, slots)
            &&& is_share(own.post_pong, all.post_pong, slot, slots)
            &&& is_share(own.comb_pong, all.comb_pong, slot, slots)
            &&& is_share(own.selected_indices, all.selected_indices, slot, slots)
            &&& is_share(own.selected_lengths, all.selected_lengths, slot, slots)
        }),
{
    let all = proposal_views_of(storage);
    let slots = storage.plan.max_batch as int;
    let views = proposal_views(storage.plan.proposal);
    assert(views[0] == storage.plan.proposal.draft_token_ids);
    assert(views[1] == storage.plan.proposal.residual_ping);
    assert(views[2] == storage.plan.proposal.residual_pong);
    assert(views[3] == storage.plan.proposal.collapsed_hidden);
    assert(views[4] == storage.plan.proposal.normalized_hidden);
    assert(views[5] == storage.plan.proposal.positions);
    assert(views[6] == storage.plan.proposal.main_slots);
    assert(views[7] == storage.plan.proposal.cos_sin);
    assert(views[8] == storage.plan.proposal.post_ping);
    assert(views[9] == storage.plan.proposal.comb_ping);
    assert(views[10] == storage.plan.proposal.post_pong);
    assert(views[11] == storage.plan.proposal.comb_pong);
    assert(views[12] == storage.plan.proposal.selected_indices);
    assert(views[13] == storage.plan.proposal.selected_lengths);
    let hidden: int = match storage.plan.variant {
        DsparkVariant::Flash => 40_960,
        DsparkVariant::Pro => 71_680,
    };
    lemma_share(all.draft_token_ids, 20, slot, slots);
    lemma_share(all.residual_ping, 4 * hidden, slot, slots);
    lemma_share(all.residual_pong, 4 * hidden, slot, slots);
    lemma_share(all.collapsed_hidden, hidden, slot, slots);
    lemma_share(all.normalized_hidden, hidden, slot, slots);
    lemma_share(all.positions, 20, slot, slots);
    lemma_share(all.main_slots, 20, slot, slots);
    lemma_share(all.cos_sin, 1_280, slot, slots);
    lemma_share(all.post_ping, 80, slot, slots);
    lemma_share(all.comb_ping, 320, slot, slots);
    lemma_share(all.post_pong, 80, slot, slots);
    lemma_share(all.comb_pong, 320, slot, slots);
    lemma_share(all.selected_indices, 2_660, slot, slots);
    lemma_share(all.selected_lengths, 20, slot, slots);
}

/// What the collapse of a slot writes under a name is the slot's share of what
/// the head reads under the same name: the head scores the normalized rows and
/// judges its confidence by the collapsed ones.
pub proof fn law_collapse_hands_over_to_the_head(
    step: GraphCapture,
    storage: DeepseekV4DsparkDeviceStorage,
    weights: DeepseekV4DsparkTerminalCollapseWeights,
    parameters: GraphParameters,
    slot: usize,
    request_bucket: usize,
    head_weights: DeepseekV4DsparkTerminalHeadWeights,
) -> (shares: (Ds41rtDeviceBuffer, Ds41rtDeviceBuffer))
    requires
        storage.wf(),
        slot < storage.plan.max_batch,
        collapse_step_ok(step, storage, weights, parameters, slot),
    ensures
        ({
            let head = terminal_head_launch(storage, request_bucket, head_weights);
            let slots = head.max_batch as int;
            &&& slots == storage.plan.max_batch
            &&& passed(step.buffers@, "normalized_hidden"@, shares.0)
            &&& is_share(shares.0, head.normalized_hidden, slot as int, slots)
            &&& passed(step.buffers@, "collapsed_hidden"@, shares.1)
            &&& is_share(shares.1, head.collapsed_hidden, slot as int, slots)
        }),
{
    let own = request_views_of(storage, slot as int);
    law_request_views_are_shares(storage, slot as int);
    assert(passed_at(step.buffers@, 7, "normalized_hidden"@, own.normalized_hidden));
    assert(passed_at(step.buffers@, 6, "collapsed_hidden"@, own.collapsed_hidden));
    (own.normalized_hidden, own.collapsed_hidden)
}

/// A metadata launch fills what a prompt graph reads: its positions, its cache
/// slots and its rotary table.
pub open spec fn metadata_feeds(
    metadata: PromptMetadataLaunch,
    args: Seq<PythonDeviceBufferArg>,
) -> bool {
    &&& passed(args, "positions"@, metadata.positions)
    &&& passed(args, "main_slots"@, metadata.main_slots)
    &&& passed(args, "cos_sin_cache"@, metadata.cos_sin)
}

/// The metadata of every chunk, and that with which a prompt graph is warmed,
/// goes to the buffers that the prompt graph takes under the names of what they
/// hold.
pub proof fn law_metadata_hands_over_to_the_prompt_graph(
    chunk: EntryChunk,
    taps: [TargetTap; 3],
    request: EntryRequest,
    consumed: int,
    step: GraphCapture,
    storage: DeepseekV4DsparkDeviceStorage,
    weights: PromptWeights,
    block: usize,
    rows: usize,
    producer_eps_bits: u32,
    rope_theta_bits: u32,
)
    requires
        entry_chunk_ok(chunk, storage, taps, request, consumed),
        prompt_step_ok(step, storage, weights, block, rows, producer_eps_bits, rope_theta_bits),
    ensures
        metadata_feeds(chunk.metadata, step.buffers@),
        step.metadata is Some,
        metadata_feeds(step.metadata->Some_0, step.buffers@),
        step.metadata->Some_0.rows == rows,
        step.metadata->Some_0.rope_theta_bits == rope_theta_bits,
{
    assert(passed_at(step.buffers@, 1, "positions"@, chunk.metadata.positions));
    assert(passed_at(step.buffers@, 2, "main_slots"@, chunk.metadata.main_slots));
    assert(passed_at(step.buffers@, 3, "cos_sin_cache"@, chunk.metadata.cos_sin));
    assert(passed_at(step.buffers@, 1, "positions"@, step.metadata->Some_0.positions));
    assert(passed_at(step.buffers@, 2, "main_slots"@, step.metadata->Some_0.main_slots));
    assert(passed_at(step.buffers@, 3, "cos_sin_cache"@, step.metadata->Some_0.cos_sin));
}

/// The entry graph projects the rows that the copies of a chunk gathered,
/// normalizes what it projected, and leaves it where the prompt graphs and the
/// consumer of the chunk read it.
pub proof fn law_entry_graph_hands_over_to_the_prompt_graph(
    chunk: EntryChunk,
    taps: [TargetTap; 3],
    request: EntryRequest,
    consumed: int,
    entry_step: GraphCapture,
    entry_weights: EntryWeights,
    entry_rows: usize,
    norm_eps_bits: u32,
    prompt_step: GraphCapture,
    prompt_weights: PromptWeights,
    block: usize,
    rows: usize,
    producer_eps_bits: u32,
    rope_theta_bits: u32,
    storage: DeepseekV4DsparkDeviceStorage,
) -> (buffers: (Ds41rtDeviceBuffer, Ds41rtDeviceBuffer))
    requires
        storage.wf(),
        entry_chunk_ok(chunk, storage, taps, request, consumed),
        consumed >= 0,
        chunk.rows <= storage.plan.max_main_rows,
        entry_step_ok(entry_step, storage, entry_weights, entry_rows, norm_eps_bits),
        prompt_step_ok(
            prompt_step,
            storage,
            prompt_weights,
            block,
            rows,
            producer_eps_bits,
            rope_theta_bits,
        ),
    ensures
        passed(entry_step.buffers@, "target_tap_concat"@, buffers.0),
        chunk.copies@[0].destination.ptr == buffers.0.ptr,
        passed(entry_step.buffers@, "projected_target_main"@, buffers.1),
        passed(prompt_step.buffers@, "projected_target_main"@, buffers.1),
        entry_step.norm is Some,
        entry_step.norm->Some_0.input == buffers.1,
        entry_step.norm->Some_0.output == buffers.1,
        entry_step.norm->Some_0.weight == entry_weights.main_norm_weight,
        entry_step.norm->Some_0.rows == entry_rows,
        entry_step.norm->Some_0.hidden == storage.plan.hidden,
        entry_step.norm->Some_0.eps_bits == norm_eps_bits,
        starts(chunk.projected_target_main, buffers.1),
{
    let views = entry_views_of(storage);
    let concat = views.target_tap_concat;
    let main = views.projected_target_main;
    assert(passed_at(entry_step.buffers@, 0, "target_tap_concat"@, concat));
    assert(passed_at(entry_step.buffers@, 4, "projected_target_main"@, main));
    assert(passed_at(prompt_step.buffers@, 0, "projected_target_main"@, main));
    let row_bytes = 2 * storage.plan.hidden;
    assert(0 * row_bytes == 0);
    assert(chunk.copies@[0] == tap_copy(
        storage,
        taps,
        0,
        request.target_row_start + consumed,
        chunk.rows as int,
    ));
    let limit = storage.plan.max_main_rows as int;
    assert(0 <= chunk.rows * row_bytes <= limit * row_bytes) by (nonlinear_arith)
        requires
            0 <= chunk.rows <= limit,
            row_bytes >= 0,
    ;
    match storage.plan.variant {
        DsparkVariant::Flash => {
            assert(limit * row_bytes == limit * 8_192) by (nonlinear_arith)
                requires
                    row_bytes == 8_192,
            ;
        },
        DsparkVariant::Pro => {
            assert(limit * row_bytes == limit * 14_336) by (nonlinear_arith)
                requires
                    row_bytes == 14_336,
            ;
        },
    }
    (concat, main)
}

/// The prompt graph of a block writes the pages that the attention of the block
/// reads, and the page of every request is its share of them.
pub proof fn law_prompt_graph_hands_over_to_the_attention(
    prompt_step: GraphCapture,
    prompt_weights: PromptWeights,
    rows: usize,
    producer_eps_bits: u32,
    rope_theta_bits: u32,
    attention_step: GraphCapture,
    attention_weights: DeepseekV4DsparkBlockAttentionWeights,
    parameters: GraphParameters,
    slot: usize,
    block: usize,
    storage: DeepseekV4DsparkDeviceStorage,
) -> (pages: Ds41rtDeviceBuffer)
    requires
        storage.wf(),
        block < DSPARK_BLOCKS,
        slot < storage.plan.max_batch,
        prompt_step_ok(
            prompt_step,
            storage,
            prompt_weights,
            block,
            rows,
            producer_eps_bits,
            rope_theta_bits,
        ),
        attention_step_ok(attention_step, storage, attention_weights, block, parameters, slot),
    ensures
        passed(prompt_step.buffers@, "main_kv_cache"@, pages),
        passed(attention_step.buffers@, "main_kv_cache"@, pages),
        is_share(
            kv_page_view(storage, block as int, slot as int),
            pages,
            slot as int,
            storage.plan.max_batch as int,
        ),
        is_share(pages, storage.persistent_kv_used(), block as int, DSPARK_BLOCKS as int),
{
    let pages = kv_block_view(storage, block as int);
    assert(passed_at(prompt_step.buffers@, 4, "main_kv_cache"@, pages));
    assert(passed_at(attention_step.buffers@, 5, "main_kv_cache"@, pages));
    lemma_pages_share(storage, block as int, slot as int);
    pages
}

proof fn lemma_pages_share(storage: DeepseekV4DsparkDeviceStorage, block: int, slot: int)
    requires
        storage.wf(),
        0 <= block < DSPARK_BLOCKS,
        0 <= slot < storage.plan.max_batch,
    ensures
        is_share(
            kv_page_view(storage, block, slot),
            kv_block_view(storage, block),
            slot,
            storage.plan.max_batch as int,
        ),
        is_share(
            kv_block_view(storage, block),
            storage.persistent_kv_used(),
            block,
            DSPARK_BLOCKS as int,
        ),
{
    let page = storage.plan.packed_page_bytes as int;
    let batch = storage.plan.max_batch as int;
    lemma_page_view(storage, block, slot);
    lemma_page_view(storage, block, 0);
    assert(block * (batch * page) == (block * batch) * page) by (nonlinear_arith);
    assert(block * batch + 0 == block * batch);
    assert((block * batch + slot) * page == block * (batch * page) + slot * page)
        by (nonlinear_arith);
    match storage.plan.cache_format {
        DeepseekV4KvCacheFormat::Fp8Ue8m0 => {
            assert(batch * page == batch * 149_760) by (nonlinear_arith)
                requires
                    page == 149_760,
            ;
        },
        DeepseekV4KvCacheFormat::Nvfp4 => {
            assert(batch * page == batch * 110_592) by (nonlinear_arith)
                requires
                    page == 110_592,
            ;
        },
    }
    assert(page * batch == batch * page) by (nonlinear_arith);
    assert(0 <= slot * page && slot * page + page <= batch * page) by (nonlinear_arith)
        requires
            0 <= slot,
            slot + 1 <= batch,
            page >= 0,
    ;
    assert(0 <= block * (batch * page)) by (nonlinear_arith)
        requires
            0 <= block,
            0 <= batch * page,
    ;
    assert(block == 0 || block == 1 || block == 2);
}

impl DeepseekV4DsparkDeviceStorage {
    /// The part of the page memory that the plan uses.
    pub open spec fn persistent_kv_used(self) -> Ds41rtDeviceBuffer {
        Ds41rtDeviceBuffer {
            ptr: self.persistent_kv.ptr,
            bytes: self.plan.persistent_kv_bytes,
            device_id: self.persistent_kv.device_id,
            flags: self.persistent_kv.flags,
        }
    }
}

/// What is prepared of a proposal, the views of its request, is what its graphs
/// read: the positions, cache slots, rotary table and selection go to the
/// attention, and the embeddings of its rows through the gathering copy to the
/// proposal entry.
pub proof fn law_proposal_inputs_hand_over(
    prepared: DeepseekV4DsparkProposalDeviceBuffers,
    gather: RowCopy,
    entry_step: GraphCapture,
    entry_weights: ProposalEntryWeights,
    attention_step: GraphCapture,
    attention_weights: DeepseekV4DsparkBlockAttentionWeights,
    block: usize,
    parameters: GraphParameters,
    slot: usize,
    storage: DeepseekV4DsparkDeviceStorage,
) -> (gathered: Ds41rtDeviceBuffer)
    requires
        storage.wf(),
        slot < storage.plan.max_batch,
        10 * storage.plan.hidden <= entry_views_of(storage).projected_target_main.bytes,
        prepared == request_views_of(storage, slot as int),
        gather == embedding_gather(storage, slot as int),
        proposal_step_ok(entry_step, storage, entry_weights, parameters, slot),
        attention_step_ok(attention_step, storage, attention_weights, block, parameters, slot),
    ensures
        passed(attention_step.buffers@, "positions"@, prepared.positions),
        passed(attention_step.buffers@, "main_slots"@, prepared.main_slots),
        passed(attention_step.buffers@, "cos_sin_cache"@, prepared.cos_sin),
        passed(attention_step.buffers@, "selected_indices"@, prepared.selected_indices),
        passed(attention_step.buffers@, "selected_lengths"@, prepared.selected_lengths),
        gather.source == prepared.residual_ping,
        gather.source_pitch * gather.rows == prepared.residual_ping.bytes,
        gather.source_pitch == 4 * gather.row_bytes,
        gather.destination_pitch == gather.row_bytes,
        gather.row_bytes == 2 * storage.plan.hidden,
        passed(entry_step.buffers@, "residual_input"@, gathered),
        starts(gathered, gather.destination),
        gathered.bytes == gather.rows * gather.row_bytes,
{
    let embedding = proposal_embedding_view(storage);
    assert(passed_at(attention_step.buffers@, 2, "positions"@, prepared.positions));
    assert(passed_at(attention_step.buffers@, 3, "main_slots"@, prepared.main_slots));
    assert(passed_at(attention_step.buffers@, 4, "cos_sin_cache"@, prepared.cos_sin));
    assert(passed_at(attention_step.buffers@, 6, "selected_indices"@, prepared.selected_indices));
    assert(passed_at(attention_step.buffers@, 7, "selected_lengths"@, prepared.selected_lengths));
    assert(passed_at(entry_step.buffers@, 1, "residual_input"@, embedding));
    law_request_views_are_shares(storage, slot as int);
    let own = prepared.residual_ping;
    let batch = storage.plan.max_batch as int;
    let unit: int = match storage.plan.variant {
        DsparkVariant::Flash => 163_840,
        DsparkVariant::Pro => 286_720,
    };
    assert(own.bytes == unit) by (nonlinear_arith)
        requires
            own.bytes * batch == batch * unit,
            batch > 0,
    ;
    assert(gather.rows == 5);
    let (pitch, bytes) = (gather.source_pitch as int, gather.row_bytes as int);
    assert(pitch * gather.rows == pitch * 5 && gather.rows * bytes == 5 * bytes)
        by (nonlinear_arith)
        requires
            gather.rows == 5,
    ;
    embedding
}

/// The stages of one request read and write through names: what the attention
/// leaves for the experts, what the experts and the reduction leave for the next
/// stage.
pub proof fn law_attention_hands_over_to_the_experts(
    attention_step: GraphCapture,
    attention_weights: DeepseekV4DsparkBlockAttentionWeights,
    block: usize,
    post_step: GraphCapture,
    post_weights: DeepseekV4DsparkBlockPostDispatchWeights,
    post_block: usize,
    collapse_step: GraphCapture,
    collapse_weights: DeepseekV4DsparkTerminalCollapseWeights,
    parameters: GraphParameters,
    active_request_index: int,
    slot: usize,
    storage: DeepseekV4DsparkDeviceStorage,
)
    requires
        storage.wf(),
        slot < storage.plan.max_batch,
        attention_step_ok(attention_step, storage, attention_weights, block, parameters, slot),
        post_dispatch_step_ok(post_step, storage, post_weights, post_block, parameters, slot),
        collapse_step_ok(collapse_step, storage, collapse_weights, parameters, slot),
    ensures
        ({
            let views = pre_dispatch_views_of(storage, slot as int);
            let load = joint_load(storage, active_request_index, slot as int);
            &&& passed(attention_step.buffers@, "hidden_states"@, views.dispatch_hidden)
            &&& passed(post_step.buffers@, "ffn_delta"@, views.ffn_delta)
            &&& passed(collapse_step.buffers@, "ffn_delta"@, views.ffn_delta)
            &&& load.destination == views.ffn_delta
            &&& load.bytes == views.ffn_delta.bytes
            &&& load.source.bytes == load.bytes
            &&& sparse_output_of(views).shared.output == views.shared_output
            &&& sparse_output_of(views).shared.gate == views.shared_gate
            &&& sparse_output_of(views).shared.up == views.shared_up
            &&& sparse_output_of(views).shared.activated == views.shared_activated
            &&& sparse_output_of(views).router.indices == views.route_indices
            &&& sparse_output_of(views).router.scores == views.route_scores
            &&& sparse_output_of(views).router.weights == views.route_weights
        }),
{
    let views = pre_dispatch_views_of(storage, slot as int);
    assert(passed_at(attention_step.buffers@, 1, "hidden_states"@, views.dispatch_hidden));
    assert(passed_at(post_step.buffers@, 1, "ffn_delta"@, views.ffn_delta));
    assert(passed_at(collapse_step.buffers@, 1, "ffn_delta"@, views.ffn_delta));
}

} // verus!
