//! What is taken on and what is not: the conditions of each request, drafter input
//! and batch, whatever the order in which they are checked.
use vstd::prelude::*;

use crate::dspark::capture::{
    attention_parameter_error, collapse_parameter_error, epsilon_error, prompt_parameter_error,
    proposal_parameter_error, GraphParameters,
};
use crate::dspark::entry::{
    entry_chunk_error, entry_request_error, lane_offset, lane_sum_error, lane_sum_of,
    positive_finite, EntryRequest, TargetTap,
};
use crate::dspark::storage::DeepseekV4DsparkDeviceStorage;
use crate::dspark::terminal::{
    batch_accepted, batch_ok, entry_in_geometry, first_bucket, slot_is_new, TerminalBatch,
};
use crate::execution::batched::{row_sum, run_accepted, run_ok, BatchedLiveSchedulerRun};
use crate::execution::shape::{shape_error, token_id_error, RealFullSchedulerExecutionShape};
use crate::execution::state::{
    live_contract, model_binds, KvCacheConfig, RealFullSchedulerExecutionState,
};
use crate::model::ModelFacts;
use crate::sparse_block::{layer_accepted, profile_accepted, SparseConstants};

verus! {

/// The target states of a layer hold the rows of a request.
pub open spec fn holds_target_rows(
    storage: DeepseekV4DsparkDeviceStorage,
    tap: TargetTap,
    request: EntryRequest,
) -> bool {
    &&& request.target_row_start + request.committed_rows <= tap.rows
    &&& tap.values_per_row == storage.plan.hidden
    &&& tap.buffer.device_id == 0
}

/// The rows of a request enter the drafter exactly if the graphs are prepared, it
/// has rows and a slot, its angle base is a positive number, all three taps hold
/// its rows and the regions of the entry can be viewed.
pub proof fn law_entry_requests_are_taken(
    storage: DeepseekV4DsparkDeviceStorage,
    prepared: bool,
    taps: [TargetTap; 3],
    request: EntryRequest,
)
    requires
        request.target_row_start + request.committed_rows <= usize::MAX,
    ensures
        entry_request_error(storage, prepared, taps, request) is None <==> {
            &&& prepared
            &&& 0 < request.committed_rows
            &&& request.request_slot < storage.plan.max_batch
            &&& positive_finite(request.rope_theta_bits)
            &&& holds_target_rows(storage, taps@[0], request)
            &&& holds_target_rows(storage, taps@[1], request)
            &&& holds_target_rows(storage, taps@[2], request)
            &&& storage.entry_view_error() is None
        },
{
}

/// A chunk of a request runs exactly if its first row lies in every tap at an
/// address that can be written down, and its position can be counted.
pub proof fn law_entry_chunks_are_within_the_taps(
    storage: DeepseekV4DsparkDeviceStorage,
    taps: [TargetTap; 3],
    request: EntryRequest,
    consumed: int,
)
    requires
        consumed >= 0,
    ensures
        ({
            let start = (request.target_row_start + consumed) * (2 * storage.plan.hidden);
            entry_chunk_error(storage, taps, request, consumed) is None <==> {
                &&& start <= usize::MAX
                &&& forall|t: int|
                    0 <= t < 3 ==> start <= (#[trigger] taps@[t]).buffer.bytes && taps@[t].buffer.ptr
                        + start <= usize::MAX
                &&& request.absolute_context_start + consumed <= usize::MAX
            }
        }),
{
    let start = (request.target_row_start + consumed) * (2 * storage.plan.hidden);
    if entry_chunk_error(storage, taps, request, consumed) is None {
        assert forall|t: int| 0 <= t < 3 implies start <= (#[trigger] taps@[t]).buffer.bytes
            && taps@[t].buffer.ptr + start <= usize::MAX by {
            assert(t == 0 || t == 1 || t == 2);
        }
    } else {
        let first = taps@[0];
        let second = taps@[1];
        let third = taps@[2];
        assert(first == taps@[0] && second == taps@[1] && third == taps@[2]);
    }
}

/// The four lanes of a mix lie side by side, each with a value of four bytes for
/// every column, and the mixes one behind the other; so do the sums, with one lane.
pub proof fn law_lanes_lie_side_by_side(mix: int, lane: int, column: int, hidden: int)
    requires
        hidden > 0,
        0 <= mix < 24,
        0 <= column < hidden,
        384 * hidden <= usize::MAX,
    ensures
        lane_offset(0, 0, 0, hidden) == 0,
        lane_offset(mix, lane, column + 1, hidden) == lane_offset(mix, lane, column, hidden) + 4,
        lane_offset(mix, lane + 1, column, hidden) == lane_offset(mix, lane, column, hidden) + 4
            * hidden,
        lane_offset(mix + 1, lane, column, hidden) == lane_offset(mix, lane, column, hidden) + 4 * (
        4 * hidden),
        ({
            let sum = lane_sum_of(mix, column, hidden);
            &&& sum.first_lane == lane_offset(mix, 0, column, hidden)
            &&& sum.second_lane == sum.first_lane + 4 * hidden
            &&& sum.third_lane == sum.second_lane + 4 * hidden
            &&& sum.fourth_lane == sum.third_lane + 4 * hidden
            &&& sum.fourth_lane + 4 <= 384 * hidden
            &&& mix == 0 && column == 0 ==> sum.destination == 0
            &&& sum.destination + 4 <= 96 * hidden
            &&& column + 1 < hidden ==> lane_sum_of(mix, column + 1, hidden).destination
                == sum.destination + 4
            &&& mix + 1 < 24 ==> lane_sum_of(mix + 1, column, hidden).destination
                == sum.destination + 4 * hidden
        }),
{
    let m = mix * hidden;
    assert((mix + 1) * (4 * hidden) == mix * (4 * hidden) + 4 * hidden) by (nonlinear_arith);
    assert((lane + 1) * hidden == lane * hidden + hidden) by (nonlinear_arith);
    assert((mix + 1) * hidden == m + hidden) by (nonlinear_arith)
        requires
            m == mix * hidden,
    ;
    assert(mix * (4 * hidden) == 4 * m) by (nonlinear_arith)
        requires
            m == mix * hidden,
    ;
    assert(0 <= m <= 23 * hidden) by (nonlinear_arith)
        requires
            m == mix * hidden,
            0 <= mix < 24,
            hidden > 0,
    ;
    assert(mix + 1 < 24 ==> m + hidden <= 23 * hidden) by (nonlinear_arith)
        requires
            m == mix * hidden,
            0 <= mix < 24,
            hidden > 0,
    ;
    assert(0 * (4 * hidden) == 0 && 0 * hidden == 0);
    assert(1 * hidden == hidden && 2 * hidden == hidden + hidden && 3 * hidden == hidden + hidden
        + hidden);
}

/// Lanes are summed exactly if there are some, and the buffers hold the four lanes
/// of twenty-four mixes and their sums.
pub proof fn law_lane_buffers_fit(source_bytes: usize, destination_bytes: usize, hidden: usize)
    requires
        384 * hidden <= usize::MAX,
    ensures
        lane_sum_error(source_bytes, destination_bytes, hidden) is None <==> {
            &&& hidden > 0
            &&& source_bytes == 24 * (4 * (4 * hidden))
            &&& destination_bytes == 24 * (4 * hidden)
        },
{
}

/// Graphs are captured exactly with positive epsilons and, where streams are
/// mixed, some iterations.
pub proof fn law_graph_parameters_are_positive(parameters: GraphParameters, theta_bits: u32)
    ensures
        epsilon_error(parameters.rms_eps_bits) is None <==> positive_finite(
            parameters.rms_eps_bits,
        ),
        prompt_parameter_error(parameters.producer_eps_bits, theta_bits) is None
            <==> positive_finite(parameters.producer_eps_bits) && positive_finite(theta_bits),
        collapse_parameter_error(parameters) is None <==> positive_finite(parameters.rms_eps_bits)
            && positive_finite(parameters.hc_eps_bits),
        proposal_parameter_error(parameters) is None <==> collapse_parameter_error(parameters)
            is None && 0 < parameters.sinkhorn_iters,
        attention_parameter_error(parameters) is None <==> proposal_parameter_error(parameters)
            is None && positive_finite(parameters.producer_eps_bits),
{
}

/// A terminal batch is taken with one anchor of the vocabulary for each of its
/// slots, which are of the drafter and differ, and is padded to the least width
/// that holds it.
pub proof fn law_terminal_batches_have_slots_of_their_own(
    batch: TerminalBatch,
    slots: Seq<usize>,
    anchors: Seq<usize>,
    max_batch: usize,
    vocab: usize,
    buckets: Seq<usize>,
    a: int,
    b: int,
    width: int,
)
    requires
        batch_accepted(slots, anchors, max_batch, vocab, buckets),
        batch_ok(batch, slots, anchors, buckets),
        0 <= a < b < slots.len(),
        0 <= width < buckets.len(),
    ensures
        slots.len() == anchors.len(),
        slots.len() <= max_batch,
        slots[a] != slots[b],
        slots[a] < max_batch && slots[b] < max_batch,
        anchors[a] < vocab && anchors[b] < vocab,
        batch.request_bucket >= slots.len(),
        width < batch.graph_index ==> buckets[width] < slots.len(),
        buckets[batch.graph_index as int] == batch.request_bucket,
{
    assert(slot_is_new(slots, b));
    assert(entry_in_geometry(slots, anchors, max_batch, vocab, a));
    assert(entry_in_geometry(slots, anchors, max_batch, vocab, b));
}

/// A request joins a batched execution exactly if it is one decode row of its
/// state's sequence and model, with its tokens and no prompt; it then brings one
/// dispatch to every sparse layer, its first token to the decode row and the
/// others to its drafts.
pub proof fn law_batched_run_is_one_decode_row(
    run: BatchedLiveSchedulerRun,
    shape: RealFullSchedulerExecutionShape,
    state: RealFullSchedulerExecutionState,
    facts: ModelFacts,
    rolling_dispatches: Option<usize>,
)
    requires
        run_accepted(shape, state, facts),
        run_ok(run, shape, state, rolling_dispatches),
        shape.decode_token_ids->Some_0@.len() > 0,
    ensures
        run.decode_rows == 1,
        run.mtp_rows == shape.mtp_rows,
        run.sparse_iterations == 1,
        run.decode_seed@.len() == 1,
        run.decode_seed@ + run.draft_seed@ =~= shape.decode_token_ids->Some_0@,
        run.reservation_id == state.reservation_id,
        run.graph_bucket_rows >= run.decode_rows + run.mtp_rows + 1,
        shape.sequence_id@ == state.sequence_id@,
        shape.span() <= state.capacity_tokens,
        facts.num_hidden_layers == state.model_hidden_layers,
{
}

/// The rows of a cohort are those of all its runs.
pub proof fn law_cohort_rows_add_up(rows: Seq<usize>, next: usize)
    ensures
        row_sum(rows, 0) == 0,
        row_sum(rows.push(next), rows.len() as int + 1) == row_sum(rows, rows.len() as int) + next,
{
    lemma_row_prefix(rows, next, rows.len() as int);
}

proof fn lemma_row_prefix(rows: Seq<usize>, next: usize, n: int)
    requires
        0 <= n <= rows.len(),
    ensures
        row_sum(rows.push(next), n) == row_sum(rows, n),
    decreases n,
{
    if n > 0 {
        lemma_row_prefix(rows, next, n - 1);
        assert(rows.push(next)[n - 1] == rows[n - 1]);
    }
}

/// A request is well shaped exactly if it has chunks of some size and a decode
/// row, accepts no more drafts than it verifies, and comes with as many tokens as
/// rows where it comes with tokens.
pub proof fn law_requests_are_well_shaped(shape: RealFullSchedulerExecutionShape)
    ensures
        shape_error(shape) is None <==> 0 < shape.prefill_chunk_tokens && 0 < shape.decode_rows
            && shape.mtp_accepted_rows <= shape.mtp_rows,
        token_id_error(shape) is None <==> {
            &&& shape.prefill_token_ids matches Some(ids) ==> ids@.len() == shape.prefill_tokens
            &&& shape.decode_token_ids matches Some(ids) ==> ids@.len() == shape.decode_rows
                || ids@.len() == shape.decode_rows + shape.mtp_rows
        },
        shape.has_real_mtp_tokens() && token_id_error(shape) is None ==> shape.mtp_rows > 0,
{
}

/// The live scheduler runs over a cache of the model's own width that covers its
/// layers, or these and the drafter's.
pub proof fn law_live_cache_covers_the_model(kv_config: KvCacheConfig, facts: ModelFacts)
    requires
        live_contract(kv_config, facts),
    ensures
        kv_config.key_value_width == facts.head_dim,
        kv_config.layers == facts.num_hidden_layers || kv_config.layers == facts.num_hidden_layers
            + facts.dspark_blocks,
        facts.num_hidden_layers > 0 ==> model_binds(kv_config.layers, facts),
{
}

/// A layer has a sparse coordinator exactly if its model has one and the layer is
/// one of the target's or of the drafter's.
pub proof fn law_sparse_layers_are_those_of_the_model(
    facts: ModelFacts,
    constants: SparseConstants,
    layer_id: usize,
)
    ensures
        layer_accepted(facts, constants, layer_id) <==> profile_accepted(facts, constants)
            && layer_id < facts.num_hidden_layers + facts.dspark_blocks,
{
}

/// A batch is taken if it has some requests and no more than the drafter has
/// slots, with slots of their own and anchors of the vocabulary, and a width that
/// holds them.
pub proof fn law_terminal_batches_are_taken(
    slots: Seq<usize>,
    anchors: Seq<usize>,
    max_batch: usize,
    vocab: usize,
    buckets: Seq<usize>,
    width: int,
)
    requires
        slots.len() == anchors.len(),
        slots.len() <= max_batch <= u32::MAX,
        vocab <= u32::MAX,
        forall|r: int|
            0 <= r < slots.len() ==> #[trigger] slots[r] < max_batch && anchors[r] < vocab,
        forall|r: int, k: int| 0 <= k < r < slots.len() ==> slots[k] != slots[r],
        first_bucket(buckets, slots.len() as int, width),
    ensures
        batch_accepted(slots, anchors, max_batch, vocab, buckets) <==> slots.len() > 0,
{
    assert forall|r: int| 0 <= r < slots.len() implies #[trigger] entry_in_geometry(
        slots,
        anchors,
        max_batch,
        vocab,
        r,
    ) by {
        assert(slots[r] < max_batch && anchors[r] < vocab);
    }
    assert forall|r: int| 0 <= r < slots.len() implies #[trigger] slot_is_new(slots, r) by {
        assert forall|k: int| 0 <= k < r implies #[trigger] slots[k] != slots[r] by {}
    }
}

} // verus!
