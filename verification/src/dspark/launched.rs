//! What is launched for a block and a slot: the graph that was recorded for them,
//! the weights of the block, and nothing that was not prepared.
use vstd::prelude::*;

use crate::dspark::capture::{attention_step_ok, GraphParameters};
use crate::dspark::graphs::{
    all_block_slots, all_slots, graph_recorded, BlockRows, BlockSlot, DeepseekV4DsparkGraphs,
    GraphCapture, GraphKey,
};
use crate::dspark::handover::{passed, passed_at};
use crate::dspark::joint::pre_dispatch_views_of;
use crate::dspark::run::{
    block_launch, block_run_error, block_sparse_ok, proposal_input_error, slot_run_error,
    sparse_output_of, sparse_profile_matches, sparse_run_ok, BlockSparseWeights, ProposalInput,
    RunError,
};
use crate::dspark::storage::{
    DeepseekV4DsparkBlockPreDispatchBuffers, DeepseekV4DsparkDeviceStorage,
};
use crate::dspark::weights::DeepseekV4DsparkBlockAttentionWeights;
use crate::model::{ModelFacts, ModelVariant};
use crate::sparse_block::{router_kernel, SparseConstants, SparsePreDispatchLaunch};
use crate::sparse_launch::law_launches_name_the_tensors_of_their_block;
use crate::text::decimal;

verus! {

/// The graph that is launched for a block and a slot is the one that was recorded
/// for them, and runs on the views of the slot.
pub proof fn law_launch_is_of_the_recorded_graph(
    storage: DeepseekV4DsparkDeviceStorage,
    blocks: int,
    block: usize,
    slot: usize,
    step: GraphCapture,
    weights: DeepseekV4DsparkBlockAttentionWeights,
    parameters: GraphParameters,
)
    requires
        storage.wf(),
        block < blocks <= 3,
        slot < storage.plan.max_batch,
        3 * storage.plan.max_batch <= usize::MAX,
        attention_step_ok(step, storage, weights, block, parameters, slot),
    ensures
        ({
            let batch = storage.plan.max_batch as int;
            let launch = block_launch(storage, block as int, slot as int);
            &&& launch.graph < all_block_slots(blocks, batch).len()
            &&& all_block_slots(blocks, batch)[launch.graph as int] == (BlockSlot {
                block_index: block,
                request_slot: slot,
            })
            &&& all_slots(batch)[block_launch(storage, 0, slot as int).graph as int] == slot
            &&& passed(step.buffers@, "hidden_states"@, launch.proposal.collapsed_hidden)
            &&& passed(step.buffers@, "positions"@, launch.proposal.positions)
        }),
{
    let batch = storage.plan.max_batch as int;
    let b = block as int;
    let s = slot as int;
    assert(0 <= b * batch && b * batch + s < blocks * batch && blocks * batch <= 3 * batch && (b
        * batch + s) / batch == b && (b * batch + s) % batch == s) by (nonlinear_arith)
        requires
            0 <= b < blocks <= 3,
            0 <= s < batch,
    ;
    assert(0 * batch + s == s);
    let launch = block_launch(storage, b, s);
    assert(passed_at(step.buffers@, 1, "hidden_states"@, launch.proposal.collapsed_hidden));
    assert(passed_at(step.buffers@, 2, "positions"@, launch.proposal.positions));
}

/// Each graph of a complete set stands for a block and a slot of its own.
pub proof fn law_complete_sets_hold_every_block_and_slot(
    blocks: int,
    max_batch: int,
    i: int,
    j: int,
)
    requires
        0 < max_batch,
        0 <= blocks,
        blocks * max_batch <= usize::MAX,
        0 <= i < j < blocks * max_batch,
    ensures
        all_block_slots(blocks, max_batch).len() == blocks * max_batch,
        all_block_slots(blocks, max_batch)[i] != all_block_slots(blocks, max_batch)[j],
        all_block_slots(blocks, max_batch)[i].block_index < blocks,
        all_block_slots(blocks, max_batch)[i].request_slot < max_batch,
{
    assert(0 <= i / max_batch < blocks && 0 <= j / max_batch < blocks) by (nonlinear_arith)
        requires
            0 <= i < j < blocks * max_batch,
            0 < max_batch,
    ;
    assert(i == max_batch * (i / max_batch) + i % max_batch && j == max_batch * (j / max_batch) + j
        % max_batch) by (nonlinear_arith)
        requires
            0 < max_batch,
    ;
    assert(i / max_batch <= i && j / max_batch <= j) by (nonlinear_arith)
        requires
            0 <= i < j,
            0 < max_batch,
    ;
}

/// A launch is refused exactly if its graphs are not prepared, or if there is no
/// such slot or block.
pub proof fn law_launches_need_graphs_slots_and_blocks(
    storage: DeepseekV4DsparkDeviceStorage,
    prepared: bool,
    block: usize,
    slot: usize,
)
    ensures
        slot_run_error(storage, prepared, slot) is None <==> prepared && slot
            < storage.plan.max_batch,
        block_run_error(storage, prepared, block, slot) is None <==> prepared && slot
            < storage.plan.max_batch && block < 3,
        !prepared ==> block_run_error(storage, prepared, block, slot) == Some(
            RunError::NotPrepared,
        ),
{
}

/// The inputs of a proposal are taken exactly if its slot is one of the batch, its
/// tokens are of the vocabulary, and its window is not empty and no longer than
/// what attention selects.
pub proof fn law_proposal_inputs_are_in_bounds(
    storage: DeepseekV4DsparkDeviceStorage,
    input: ProposalInput,
)
    ensures
        proposal_input_error(storage, input) is None <==> {
            &&& input.request_slot < storage.plan.max_batch
            &&& input.anchor_token_id < input.vocab_size
            &&& input.noise_token_id < input.vocab_size
            &&& input.cache_window_start < input.main_context_end <= input.cache_window_start + 128
            &&& input.vocab_size * (2 * storage.plan.hidden) <= usize::MAX
        },
{
}

/// The router and the shared expert of a block run with the tensors of that block
/// of the drafter, behind the layers of the target, over the rows and into the
/// views of the slot.
pub proof fn law_sparse_run_is_of_its_block(
    graphs: DeepseekV4DsparkGraphs,
    storage: DeepseekV4DsparkDeviceStorage,
    facts: ModelFacts,
    constants: SparseConstants,
    blocks: Seq<BlockSparseWeights>,
    block: usize,
    slot: usize,
    stream: usize,
    result: Result<
        (SparsePreDispatchLaunch<'_>, DeepseekV4DsparkBlockPreDispatchBuffers),
        RunError,
    >,
)
    requires
        sparse_run_ok(graphs, storage, block, slot, stream, result),
        result is Ok,
        block < blocks.len(),
        graphs.block_sparse_weights@.len() == blocks.len(),
        forall|i: int|
            0 <= i < blocks.len() ==> graphs.block_sparse_weights@[i] == (
            #[trigger] blocks[i]).weights && block_sparse_ok(blocks[i], facts, constants, i),
        facts.num_hidden_layers + block <= usize::MAX,
    ensures
        ({
            let launch = result->Ok_0.0;
            let views = result->Ok_0.1;
            let name = "mtp."@ + decimal(block as nat);
            &&& launch.router.weight@ == name + ".ffn.gate.weight"@
            &&& launch.router.aux@ == name + ".ffn.gate.bias"@
            &&& launch.shared.w1_weight@ == name + ".ffn.shared_experts."@ + "w1.weight"@
            &&& launch.shared.w2_weight@ == name + ".ffn.shared_experts."@ + "w2.weight"@
            &&& launch.shared.w3_weight@ == name + ".ffn.shared_experts."@ + "w3.weight"@
            &&& views == pre_dispatch_views_of(storage, slot as int)
            &&& launch.router.hidden == views.dispatch_hidden
            &&& launch.shared.hidden == views.dispatch_hidden
            &&& launch.router.rows == 5
            &&& launch.shared.rows == 5
            &&& launch.router.stream == stream
            &&& launch.shared.stream == stream
            &&& launch.router.token_ids is None
        }),
{
    let own = blocks[block as int];
    let layer = (facts.num_hidden_layers + block) as usize;
    assert(block_sparse_ok(own, facts, constants, block as int));
    let launch = result->Ok_0.0;
    let views = pre_dispatch_views_of(storage, slot as int);
    law_launches_name_the_tensors_of_their_block(
        &own.weights,
        facts,
        constants,
        layer,
        router_kernel(own.weights.variant)->Some_0,
        views.dispatch_hidden,
        5,
        None,
        sparse_output_of(views),
        stream,
    );
}

/// Only a drafter of the model's own variant and width runs its sparse blocks.
pub proof fn law_drafter_is_of_the_model(
    storage: DeepseekV4DsparkDeviceStorage,
    facts: ModelFacts,
)
    requires
        sparse_profile_matches(storage, facts),
    ensures
        storage.plan.variant is Flash <==> facts.variant == ModelVariant::Flash,
        storage.plan.variant is Pro <==> facts.variant == ModelVariant::Pro,
        facts.variant != ModelVariant::Custom,
        storage.plan.hidden == facts.hidden_size,
{
}

/// A graph that was recorded is known from then on among those of its kind, behind
/// those recorded before it, and no other kind changes: a set that is complete up
/// to a slot is complete up to the next once that slot's graph is recorded.
pub proof fn law_recorded_slot_completes_the_set(
    before: DeepseekV4DsparkGraphs,
    entered: DeepseekV4DsparkGraphs,
    collapsed: DeepseekV4DsparkGraphs,
    slot: usize,
)
    requires
        slot < usize::MAX,
        before.proposal_entry@ == all_slots(slot as int),
        before.terminal_collapse@ == all_slots(slot as int),
        graph_recorded(before, entered, GraphKey::ProposalEntry { request_slot: slot }, true),
        graph_recorded(before, collapsed, GraphKey::TerminalCollapse { request_slot: slot }, true),
    ensures
        entered.proposal_entry@ =~= all_slots(slot + 1),
        collapsed.terminal_collapse@ =~= all_slots(slot + 1),
        entered.terminal_collapse@ == before.terminal_collapse@,
        collapsed.proposal_entry@ == before.proposal_entry@,
        entered.block_attention@ == before.block_attention@,
        entered.block_post_dispatch@ == before.block_post_dispatch@,
        entered.entry@ == before.entry@,
        entered.prompt_prime@ == before.prompt_prime@,
        entered.terminal_head@ == before.terminal_head@,
{
}

/// A block's graph of a slot is recorded behind those of the slots before it, and
/// the next block's behind those of all slots.
pub proof fn law_recorded_block_completes_the_set(
    before: DeepseekV4DsparkGraphs,
    attended: DeepseekV4DsparkGraphs,
    posted: DeepseekV4DsparkGraphs,
    block: usize,
    slot: usize,
    known: Seq<BlockSlot>,
)
    requires
        known == before.block_attention@,
        known == before.block_post_dispatch@,
        graph_recorded(
            before,
            attended,
            GraphKey::BlockAttention { block_index: block, request_slot: slot },
            true,
        ),
        graph_recorded(
            before,
            posted,
            GraphKey::BlockPostDispatch { block_index: block, request_slot: slot },
            true,
        ),
    ensures
        attended.block_attention@.last() == (BlockSlot { block_index: block, request_slot: slot }),
        attended.block_attention@.drop_last() =~= known,
        attended.block_post_dispatch@ == known,
        posted.block_post_dispatch@.last() == (BlockSlot { block_index: block, request_slot: slot }),
        posted.block_post_dispatch@.drop_last() =~= known,
        posted.block_attention@ == known,
        attended.proposal_entry@ == before.proposal_entry@,
        attended.terminal_collapse@ == before.terminal_collapse@,
{
}

/// The graphs of a row count and of a batch width are recorded among their own,
/// and a refused one nowhere.
pub proof fn law_recorded_rows_and_widths(
    before: DeepseekV4DsparkGraphs,
    entered: DeepseekV4DsparkGraphs,
    primed: DeepseekV4DsparkGraphs,
    headed: DeepseekV4DsparkGraphs,
    refused: DeepseekV4DsparkGraphs,
    key: GraphKey,
    block: usize,
    rows: usize,
)
    requires
        graph_recorded(before, entered, GraphKey::Entry { rows }, true),
        graph_recorded(before, primed, GraphKey::PromptPrime { block_index: block, rows }, true),
        graph_recorded(before, headed, GraphKey::TerminalHead { request_bucket: rows }, true),
        graph_recorded(before, refused, key, false),
    ensures
        entered.entry@ =~= before.entry@ + seq![rows],
        entered.prompt_prime@ == before.prompt_prime@,
        primed.prompt_prime@ =~= before.prompt_prime@ + seq![
            BlockRows { block_index: block, rows },
        ],
        primed.entry@ == before.entry@,
        headed.terminal_head@ =~= before.terminal_head@ + seq![rows],
        headed.entry@ == before.entry@,
        refused.entry@ == before.entry@,
        refused.prompt_prime@ == before.prompt_prime@,
        refused.proposal_entry@ == before.proposal_entry@,
        refused.block_attention@ == before.block_attention@,
        refused.block_post_dispatch@ == before.block_post_dispatch@,
        refused.terminal_collapse@ == before.terminal_collapse@,
        refused.terminal_head@ == before.terminal_head@,
{
}

} // verus!
