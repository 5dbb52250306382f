//! Which graphs are recorded, and what a dispatch between them carries: every
//! slot and every row count that a run can ask for has its graph, and what comes
//! back from the experts lands where the next graph reads.
use vstd::prelude::*;

use crate::dspark::capture::{
    attention_captures_ok, attention_step_ok, collapse_captures_ok, collapse_step_ok,
    entry_captures_ok, entry_step_ok, fitting_row_counts, post_dispatch_captures_ok,
    post_dispatch_step_ok, prompt_captures_ok, prompt_step_ok, proposal_captures_ok,
    proposal_step_ok, row_count_refusal, GraphParameters,
};
use crate::dspark::entry::{entry_graph_rows, largest_bucket};
use crate::dspark::graphs::{GraphCapture, GraphCaptures, GraphError, GraphKey};
use crate::dspark::handover::{passed, passed_at};
use crate::dspark::joint::pre_dispatch_views_of;
use crate::dspark::routes::{
    dispatch_accepted, dispatch_buffers_ok, dispatch_geometry, dispatch_input_ok, route_repeats,
    row_ok, DeepseekV4DsparkTp4DispatchInput, RouteImage,
};
use crate::dspark::run::sparse_output_of;
use crate::dspark::storage::DeepseekV4DsparkDeviceStorage;
use crate::dspark::weights::{
    DeepseekV4DsparkBlockAttentionWeights, DeepseekV4DsparkBlockPostDispatchWeights,
    DeepseekV4DsparkTerminalCollapseWeights, EntryWeights, PromptWeights, ProposalEntryWeights,
};

verus! {

/// A row count is captured exactly if it fits the arena, and capturing stops at
/// the least that does not.
pub proof fn law_row_counts_are_captured_while_they_fit(max_main_rows: usize, i: int)
    requires
        max_main_rows > 0,
        0 <= i < entry_graph_rows().len(),
    ensures
        ({
            let n = fitting_row_counts(max_main_rows as int);
            &&& i < n <==> entry_graph_rows()[i] <= max_main_rows
            &&& 1 <= n <= entry_graph_rows().len()
            &&& row_count_refusal(max_main_rows) is None <==> entry_graph_rows().last()
                <= max_main_rows
            &&& row_count_refusal(max_main_rows) matches Some(e) ==> {
                &&& e matches GraphError::Bucket { rows, max_rows }
                &&& max_rows == max_main_rows
                &&& rows > max_main_rows
                &&& entry_graph_rows().contains(rows)
                &&& entry_graph_rows()[i] > max_main_rows ==> rows <= entry_graph_rows()[i]
            }
        }),
{
    let n = fitting_row_counts(max_main_rows as int);
    if n < 9 {
        assert(entry_graph_rows()[n] == entry_graph_rows()[n]);
    }
}

/// Every chunk that a run of the entry takes has its entry graph and, per block,
/// its prompt graph.
pub proof fn law_every_chunk_has_its_graphs(
    entries: GraphCaptures,
    entry_weights: EntryWeights,
    norm_eps_bits: u32,
    prompts: GraphCaptures,
    prompt_weights: PromptWeights,
    block: usize,
    producer_eps_bits: u32,
    rope_theta_bits: u32,
    storage: DeepseekV4DsparkDeviceStorage,
    remaining: int,
)
    requires
        0 < remaining <= storage.plan.max_main_rows,
        entry_captures_ok(entries, storage, entry_weights, norm_eps_bits),
        prompt_captures_ok(
            prompts,
            storage,
            prompt_weights,
            block,
            producer_eps_bits,
            rope_theta_bits,
        ),
    ensures
        ({
            let rows = largest_bucket(remaining);
            &&& rows <= remaining
            &&& exists|i: int|
                0 <= i < entries.steps@.len() && (#[trigger] entries.steps@[i]).key
                    == (GraphKey::Entry { rows: rows as usize })
            &&& exists|i: int|
                0 <= i < prompts.steps@.len() && (#[trigger] prompts.steps@[i]).key
                    == (GraphKey::PromptPrime { block_index: block, rows: rows as usize })
        }),
{
    let rows = largest_bucket(remaining);
    let i = if rows == 2_048 {
        8int
    } else if rows == 1_024 {
        7
    } else if rows == 512 {
        6
    } else if rows == 256 {
        5
    } else if rows == 128 {
        4
    } else if rows == 64 {
        3
    } else if rows == 32 {
        2
    } else if rows == 16 {
        1
    } else {
        0
    };
    assert(entry_graph_rows()[i] == rows);
    law_row_counts_are_captured_while_they_fit(storage.plan.max_main_rows, i);
    assert(entries.steps@[i].key == (GraphKey::Entry { rows: rows as usize }));
    assert(prompts.steps@[i].key == (GraphKey::PromptPrime {
        block_index: block,
        rows: rows as usize,
    }));
}

/// Every slot has its graphs, one of each kind, and a slot's graph is that of no
/// other.
pub proof fn law_every_slot_has_its_graphs(
    proposals: Seq<GraphCapture>,
    proposal_weights: ProposalEntryWeights,
    attentions: Seq<GraphCapture>,
    attention_weights: DeepseekV4DsparkBlockAttentionWeights,
    posts: Seq<GraphCapture>,
    post_weights: DeepseekV4DsparkBlockPostDispatchWeights,
    collapses: Seq<GraphCapture>,
    collapse_weights: DeepseekV4DsparkTerminalCollapseWeights,
    block: usize,
    parameters: GraphParameters,
    storage: DeepseekV4DsparkDeviceStorage,
    slot: usize,
    other: int,
)
    requires
        slot < storage.plan.max_batch,
        0 <= other < storage.plan.max_batch,
        proposal_captures_ok(proposals, storage, proposal_weights, parameters),
        attention_captures_ok(attentions, storage, attention_weights, block, parameters),
        post_dispatch_captures_ok(posts, storage, post_weights, block, parameters),
        collapse_captures_ok(collapses, storage, collapse_weights, parameters),
    ensures
        proposals.len() == storage.plan.max_batch,
        attentions.len() == storage.plan.max_batch,
        posts.len() == storage.plan.max_batch,
        collapses.len() == storage.plan.max_batch,
        proposals[other].key == (GraphKey::ProposalEntry { request_slot: slot }) <==> other == slot,
        attentions[other].key == (GraphKey::BlockAttention {
            block_index: block,
            request_slot: slot,
        }) <==> other == slot,
        posts[other].key == (GraphKey::BlockPostDispatch {
            block_index: block,
            request_slot: slot,
        }) <==> other == slot,
        collapses[other].key == (GraphKey::TerminalCollapse { request_slot: slot })
            <==> other == slot,
{
    assert(proposal_step_ok(
        proposals[other],
        storage,
        proposal_weights,
        parameters,
        other as usize,
    ));
    assert(attention_step_ok(
        attentions[other],
        storage,
        attention_weights,
        block,
        parameters,
        other as usize,
    ));
    assert(post_dispatch_step_ok(
        posts[other],
        storage,
        post_weights,
        block,
        parameters,
        other as usize,
    ));
    assert(collapse_step_ok(
        collapses[other],
        storage,
        collapse_weights,
        parameters,
        other as usize,
    ));
}

/// The entry graph is followed by a normalization of the rows that it projected,
/// in place and over the width of the model.
pub proof fn law_projected_rows_are_normalized_in_place(
    step: GraphCapture,
    storage: DeepseekV4DsparkDeviceStorage,
    weights: EntryWeights,
    rows: usize,
    norm_eps_bits: u32,
)
    requires
        entry_step_ok(step, storage, weights, rows, norm_eps_bits),
    ensures
        step.norm matches Some(norm) && {
            &&& passed(step.buffers@, "projected_target_main"@, norm.input)
            &&& norm.output == norm.input
            &&& norm.weight == weights.main_norm_weight
            &&& step.key == (GraphKey::Entry { rows: norm.rows })
            &&& norm.hidden == storage.plan.hidden
            &&& norm.eps_bits == norm_eps_bits
        },
{
    assert(passed_at(step.buffers@, 4, "projected_target_main"@, step.norm->0.input));
}

/// A graph is prepared by the function that captures it: the two have one name
/// behind the word for what they do.
pub open spec fn same_graph(step: GraphCapture) -> bool {
    let prepare = step.prepare_function@;
    let capture = step.capture_function@;
    &&& prepare.len() == capture.len() > 8
    &&& prepare.take(8) =~= seq!['p', 'r', 'e', 'p', 'a', 'r', 'e', '_']
    &&& capture.take(8) =~= seq!['c', 'a', 'p', 't', 'u', 'r', 'e', '_']
    &&& prepare.skip(8) =~= capture.skip(8)
}

/// Every graph is prepared and captured by functions of one name.
#[verifier::rlimit(40)]
pub proof fn law_graphs_are_prepared_as_captured(
    entry: GraphCapture,
    entry_weights: EntryWeights,
    rows: usize,
    norm_eps_bits: u32,
    prompt: GraphCapture,
    prompt_weights: PromptWeights,
    block: usize,
    producer_eps_bits: u32,
    rope_theta_bits: u32,
    storage: DeepseekV4DsparkDeviceStorage,
)
    requires
        entry_step_ok(entry, storage, entry_weights, rows, norm_eps_bits),
        prompt_step_ok(
            prompt,
            storage,
            prompt_weights,
            block,
            rows,
            producer_eps_bits,
            rope_theta_bits,
        ),
    ensures
        same_graph(entry),
        same_graph(prompt),
{
    reveal_strlit("prepare_deepseek_v4_dspark_entry_projection");
    reveal_strlit("capture_deepseek_v4_dspark_entry_projection");
    reveal_strlit("prepare_deepseek_v4_dspark_prompt_prime");
    reveal_strlit("capture_deepseek_v4_dspark_prompt_prime");
    assert(entry.prepare_function@.skip(8) =~= entry.capture_function@.skip(8));
    assert(prompt.prepare_function@.skip(8) =~= prompt.capture_function@.skip(8));
    assert(same_graph(entry));
}

/// Every graph of a slot is prepared and captured by functions of one name.
#[verifier::rlimit(60)]
pub proof fn law_slot_graphs_are_prepared_as_captured(
    proposal: GraphCapture,
    proposal_weights: ProposalEntryWeights,
    attention: GraphCapture,
    attention_weights: DeepseekV4DsparkBlockAttentionWeights,
    post: GraphCapture,
    post_weights: DeepseekV4DsparkBlockPostDispatchWeights,
    collapse: GraphCapture,
    collapse_weights: DeepseekV4DsparkTerminalCollapseWeights,
    block: usize,
    parameters: GraphParameters,
    storage: DeepseekV4DsparkDeviceStorage,
    slot: usize,
)
    requires
        proposal_step_ok(proposal, storage, proposal_weights, parameters, slot),
        attention_step_ok(attention, storage, attention_weights, block, parameters, slot),
        post_dispatch_step_ok(post, storage, post_weights, block, parameters, slot),
        collapse_step_ok(collapse, storage, collapse_weights, parameters, slot),
    ensures
        same_graph(proposal),
        same_graph(attention),
        same_graph(post),
        same_graph(collapse),
{
    reveal_strlit("prepare_deepseek_v4_dspark_proposal_entry");
    reveal_strlit("capture_deepseek_v4_dspark_proposal_entry");
    assert(proposal.prepare_function@.skip(8) =~= proposal.capture_function@.skip(8));
    assert(same_graph(proposal));
    reveal_strlit("prepare_deepseek_v4_dspark_block_attention");
    reveal_strlit("capture_deepseek_v4_dspark_block_attention");
    assert(attention.prepare_function@.skip(8) =~= attention.capture_function@.skip(8));
    assert(same_graph(attention));
    reveal_strlit("prepare_deepseek_v4_dspark_block_post_dispatch");
    reveal_strlit("capture_deepseek_v4_dspark_block_post_dispatch");
    assert(post.prepare_function@.skip(8) =~= post.capture_function@.skip(8));
    assert(same_graph(post));
    reveal_strlit("prepare_deepseek_v4_dspark_terminal_collapse");
    reveal_strlit("capture_deepseek_v4_dspark_terminal_collapse");
    assert(collapse.prepare_function@.skip(8) =~= collapse.capture_function@.skip(8));
    assert(same_graph(collapse));
}

/// A dispatched request sends each of its five rows to six different experts of
/// the model, with weights that are numbers and not negative, and with rows of the
/// width of the model.
pub proof fn law_dispatched_rows_go_to_different_experts(
    input: DeepseekV4DsparkTp4DispatchInput,
    storage: DeepseekV4DsparkDeviceStorage,
    routed_experts: usize,
    image: RouteImage,
    slot: int,
    row: int,
    a: int,
    b: int,
)
    requires
        dispatch_accepted(storage, pre_dispatch_views_of(storage, slot), routed_experts, image),
        dispatch_input_ok(input, storage, pre_dispatch_views_of(storage, slot), image),
        0 <= row < 5,
        0 <= a < b < 6,
    ensures
        input.rows == 5,
        input.route_indices@.len() == 5 * 6,
        input.route_weight_bits@.len() == 5 * 6,
        input.hidden_bf16@.len() == input.rows * (2 * storage.plan.hidden),
        input.route_indices@[6 * row + a] != input.route_indices@[6 * row + b],
        input.route_indices@[6 * row + a] < routed_experts,
        input.route_indices@[6 * row + b] < routed_experts,
        input.route_weight_bits@[6 * row + a] < 0x7f80_0000u32
            || input.route_weight_bits@[6 * row + a] == 0x8000_0000u32,
        input.route_indices@ == image.indices@,
        input.route_weight_bits@ == image.weight_bits@,
        input.hidden_bf16@ == image.hidden_bf16@,
{
    let indices = image.indices@;
    assert(row_ok(indices, image.sums_ok@, row));
    assert(!route_repeats(indices, row, b));
    assert(indices[6 * row + a] < routed_experts);
    assert(image.weight_bits@[6 * row + a] == image.weight_bits@[6 * row + a]);
}

/// A dispatch is given up exactly if the request names another number of experts,
/// does not own its buffers, routes to no expert of the model, or has a row that
/// repeats an expert or whose weights do not add up.
pub proof fn law_different_experts_are_accepted(
    storage: DeepseekV4DsparkDeviceStorage,
    routed_experts: usize,
    image: RouteImage,
    slot: int,
)
    requires
        dispatch_geometry(storage, routed_experts),
        dispatch_buffers_ok(storage, pre_dispatch_views_of(storage, slot)),
        image.indices@.len() == 30,
        image.weight_bits@.len() == 30,
        image.sums_ok@ == seq![true, true, true, true, true],
        forall|i: int| 0 <= i < 30 ==> #[trigger] image.indices@[i] < routed_experts,
        forall|i: int| 0 <= i < 30 ==> #[trigger] image.weight_bits@[i] < 0x7f80_0000u32,
        forall|row: int, a: int, b: int|
            0 <= row < 5 && 0 <= a < b < 6 ==> #[trigger] image.indices@[6 * row + a]
                != #[trigger] image.indices@[6 * row + b],
    ensures
        dispatch_accepted(storage, pre_dispatch_views_of(storage, slot), routed_experts, image),
{
    let indices = image.indices@;
    assert forall|row: int| 0 <= row < 5 implies #[trigger] row_ok(
        indices,
        image.sums_ok@,
        row,
    ) by {
        assert forall|offset: int| 0 <= offset < 6 implies !#[trigger]
        route_repeats(indices, row, offset) by {
            if route_repeats(indices, row, offset) {
                let k = choose|k: int|
                    0 <= k < offset && #[trigger] indices[6 * row + k] == indices[6 * row + offset];
                assert(indices[6 * row + k] != indices[6 * row + offset]);
            }
        }
    }
}

/// What the experts give back for a slot lands in the buffer that the slot's next
/// graph reads, and the shared part is taken from where the sparse block left it.
pub proof fn law_dispatch_lands_where_the_next_graph_reads(
    input: DeepseekV4DsparkTp4DispatchInput,
    image: RouteImage,
    post: GraphCapture,
    post_weights: DeepseekV4DsparkBlockPostDispatchWeights,
    collapse: GraphCapture,
    collapse_weights: DeepseekV4DsparkTerminalCollapseWeights,
    block: usize,
    parameters: GraphParameters,
    storage: DeepseekV4DsparkDeviceStorage,
    slot: usize,
)
    requires
        dispatch_input_ok(input, storage, pre_dispatch_views_of(storage, slot as int), image),
        post_dispatch_step_ok(post, storage, post_weights, block, parameters, slot),
        collapse_step_ok(collapse, storage, collapse_weights, parameters, slot),
    ensures
        passed(post.buffers@, "ffn_delta"@, input.ffn_delta),
        passed(collapse.buffers@, "ffn_delta"@, input.ffn_delta),
        input.shared_delta == sparse_output_of(
            pre_dispatch_views_of(storage, slot as int),
        ).shared.output,
{
    assert(passed_at(post.buffers@, 1, "ffn_delta"@, input.ffn_delta));
    assert(passed_at(collapse.buffers@, 1, "ffn_delta"@, input.ffn_delta));
}

} // verus!
