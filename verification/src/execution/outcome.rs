//! What the outcome of an execution amounts to: when a sample counts, what its
//! status says, and how requests that run together pass the layers.
use vstd::prelude::*;

use crate::execution::accounting::{
    law_attention_is_accounted_for_by_the_waves, law_layer_offers_every_row_once, layer_admissions,
    offered, over_waves, rows_context, wave_context, wave_launches,
};
use crate::execution::attention::{attention_complete, RealFullSchedulerExecutionCounters};
use crate::execution::batched::{
    batched_program, dense_layer_steps, dense_steps, even_starts, finish_step, group_count,
    group_first, group_size, sparse_layer_steps, sparse_steps, start_step, start_steps, BatchedStep,
};
use crate::execution::chunks::{
    balanced_final, chunk_size, ordinary_counts, prefill_counts, rebalances,
};
use crate::execution::report::{
    kv_report, reported_sample_ok, request_graphs, sample_deferred, CoordinatorCudaGraphStats,
    ExecutionOutcome, KvStoreCounts, ReportSettings,
};
use crate::execution::shape::{sparse_iterations, RealFullSchedulerExecutionShape};
use crate::execution::terminal::{
    completion_gate, completion_status, finite_bits, positive_bits, unit_bits, LmHeadBackends,
    RealFullSchedulerTerminalLmHeadSample, RealLmHeadChunkScoreForHidden,
};
use crate::execution::waves::{decode_mtp_waves, LayerIteration, LayerWave};
use crate::model::ModelFacts;

verus! {

/// Attention is judged complete of an execution that went through the waves of
/// its layers: one launch for every wave or for every row of the verify block,
/// one projection per launch, every row queried once, all of the context read,
/// and one value per row and width.
pub proof fn law_attention_over_all_waves_is_complete(
    iterations: Seq<LayerIteration>,
    shape: RealFullSchedulerExecutionShape,
    layer: u32,
    reservation_id: u64,
    facts: ModelFacts,
    counters: RealFullSchedulerExecutionCounters,
    layer_count: int,
    hidden_size: int,
    fusion_max_rows: int,
    by_row: bool,
)
    requires
        shape.span() <= usize::MAX,
        layer_count >= 0,
        hidden_size >= 0,
        layer_admissions(
            iterations,
            shape,
            shape.prefill_chunk_tokens,
            layer,
            reservation_id,
            facts,
        ),
        counters.layer_order_verified,
        ({
            let waves = offered(iterations, iterations.len() as int);
            let all = waves.len() as int;
            let rows = over_waves(waves, |w: LayerWave| w.row_count as int, all);
            let context = over_waves(waves, |w: LayerWave| wave_context(w), all);
            let launches = if by_row {
                over_waves(waves, |w: LayerWave| wave_launches(w), all)
            } else {
                all
            };
            &&& counters.device_attention_launches == layer_count * launches
            &&& counters.device_attention_hidden_projection_launches == layer_count * launches
            &&& counters.device_attention_query_rows == layer_count * rows
            &&& counters.device_attention_rows == layer_count * context
            &&& counters.device_attention_kv_descriptors == layer_count * context
            &&& counters.device_attention_output_values == layer_count * rows * hidden_size
        }),
    ensures
        attention_complete(
            shape,
            counters,
            true,
            true,
            layer_count,
            hidden_size,
            fusion_max_rows,
        ),
{
    law_attention_is_accounted_for_by_the_waves(
        iterations,
        shape,
        layer,
        reservation_id,
        facts,
        fusion_max_rows,
    );
    let waves = offered(iterations, iterations.len() as int);
    let all = waves.len() as int;
    let rows = over_waves(waves, |w: LayerWave| w.row_count as int, all);
    let context = over_waves(waves, |w: LayerWave| wave_context(w), all);
    let most = over_waves(waves, |w: LayerWave| wave_launches(w), all);
    let launches = if by_row {
        most
    } else {
        all
    };
    law_layer_offers_every_row_once(
        iterations,
        shape,
        shape.prefill_chunk_tokens,
        layer,
        reservation_id,
        facts,
    );
    lemma_sums_order(waves, all);
    let least = all - (if shape.decode_rows == 1 && shape.mtp_rows >= 1 && 1 + shape.mtp_rows
        <= fusion_max_rows {
        1int
    } else {
        0int
    });
    assert(least <= launches <= most && launches <= context && rows <= context);
    assert(layer_count * least <= layer_count * launches <= layer_count * most && layer_count
        * launches <= layer_count * context && layer_count * rows <= layer_count * context)
        by (nonlinear_arith)
        requires
            layer_count >= 0,
            least <= launches <= most,
            launches <= context,
            rows <= context,
    ;
}

proof fn lemma_rows_context_bound(start: int, n: int)
    requires
        start >= 0,
        n >= 0,
    ensures
        rows_context(start, n) >= n,
    decreases n,
{
    if n > 0 {
        lemma_rows_context_bound(start, n - 1);
    }
}

/// Of waves that hold rows, there are at most as many as launches row by row, at
/// most as many launches as rows of context, and at most as many rows.
proof fn lemma_sums_order(waves: Seq<LayerWave>, n: int)
    requires
        0 <= n <= waves.len(),
        forall|i: int| 0 <= i < waves.len() ==> (#[trigger] waves[i]).row_count > 0,
    ensures
        n <= over_waves(waves, |w: LayerWave| wave_launches(w), n),
        over_waves(waves, |w: LayerWave| wave_launches(w), n) <= over_waves(
            waves,
            |w: LayerWave| wave_context(w),
            n,
        ),
        over_waves(waves, |w: LayerWave| w.row_count as int, n) <= over_waves(
            waves,
            |w: LayerWave| wave_context(w),
            n,
        ),
    decreases n,
{
    if n > 0 {
        lemma_sums_order(waves, n - 1);
        let wave = waves[n - 1];
        assert(wave.row_count > 0);
        lemma_rows_context_bound(wave.token_start as int, wave.row_count as int);
    }
}

/// Attention that is judged complete left nothing out: every row of every layer
/// was queried once and gave a value per width, no launch was without its
/// projection, and no more was read than there is.
pub proof fn law_complete_attention_left_nothing_out(
    iterations: Seq<LayerIteration>,
    shape: RealFullSchedulerExecutionShape,
    layer: u32,
    reservation_id: u64,
    facts: ModelFacts,
    counters: RealFullSchedulerExecutionCounters,
    numeric_progression_passed: bool,
    uses_device_kv_cache: bool,
    layer_count: int,
    hidden_size: int,
    fusion_max_rows: int,
)
    requires
        shape.span() <= usize::MAX,
        layer_admissions(
            iterations,
            shape,
            shape.prefill_chunk_tokens,
            layer,
            reservation_id,
            facts,
        ),
        attention_complete(
            shape,
            counters,
            numeric_progression_passed,
            uses_device_kv_cache,
            layer_count,
            hidden_size,
            fusion_max_rows,
        ),
    ensures
        ({
            let waves = offered(iterations, iterations.len() as int);
            let all = waves.len() as int;
            let rows = over_waves(waves, |w: LayerWave| w.row_count as int, all);
            let context = over_waves(waves, |w: LayerWave| wave_context(w), all);
            let most = over_waves(waves, |w: LayerWave| wave_launches(w), all);
            let launches = counters.device_attention_launches;
            &&& numeric_progression_passed
            &&& uses_device_kv_cache
            &&& counters.layer_order_verified
            &&& counters.device_attention_query_rows == layer_count * rows
            &&& counters.device_attention_output_values == layer_count * rows * hidden_size
            &&& counters.device_attention_hidden_projection_launches == launches
            &&& layer_count * rows <= counters.device_attention_rows <= layer_count * context
            &&& launches <= counters.device_attention_kv_descriptors <= layer_count * context
            &&& launches <= layer_count * most
            &&& launches >= layer_count * (all - (if shape.decode_rows == 1 && shape.mtp_rows
                >= 1 && 1 + shape.mtp_rows <= fusion_max_rows {
                1int
            } else {
                0int
            }))
        }),
{
    law_attention_is_accounted_for_by_the_waves(
        iterations,
        shape,
        layer,
        reservation_id,
        facts,
        fusion_max_rows,
    );
}

/// The sample of a report counts exactly if nothing stands against it, and is
/// called sampled only if it counts.
pub proof fn law_sample_counts_if_nothing_blocks_it(
    sample: RealFullSchedulerTerminalLmHeadSample,
    shape: RealFullSchedulerExecutionShape,
    outcome: ExecutionOutcome,
    settings: ReportSettings,
    backends: LmHeadBackends,
)
    requires
        reported_sample_ok(sample, shape, outcome, settings, backends),
    ensures
        sample.passed <==> sample.blocker is None,
        sample.status@ == "sampled"@ ==> sample.passed,
        sample.sampled_token_id is Some <==> sample.top_token_id is Some,
        sample.sampled_token_id is Some ==> !sample_deferred(shape, settings)
            && sample.uses_final_decode_device_hidden,
        sample.passed ==> sample.uses_final_decode_device_hidden && outcome.final_decode_hidden_dim
            is Some,
        outcome.final_decode_hidden_dim is None ==> sample.status@ == "not-run"@,
{
    reveal_strlit("sampled");
    reveal_strlit("blocked");
    reveal_strlit("not-run");
    reveal_strlit("deferred-target-batch");
    assert("blocked"@[0] == 'b' && "sampled"@[0] == 's' && "not-run"@[0] == 'n');
    assert("deferred-target-batch"@.len() != "sampled"@.len());
}

/// A sample that is not deferred carries the numbers of its score, and counts
/// where the score was taken over the whole vocabulary, among several tokens and
/// by the resident kernels.
pub proof fn law_scored_sample_carries_its_score(
    sample: RealFullSchedulerTerminalLmHeadSample,
    shape: RealFullSchedulerExecutionShape,
    outcome: ExecutionOutcome,
    settings: ReportSettings,
    backends: LmHeadBackends,
)
    requires
        reported_sample_ok(sample, shape, outcome, settings, backends),
        !sample_deferred(shape, settings),
        outcome.final_decode_hidden_dim is Some,
        outcome.sample_outcome is Ok,
    ensures
        ({
            let score = outcome.sample_outcome->Ok_0;
            &&& sample.sampled_token_id == Some(score.sampled_token_id)
            &&& sample.top_token_id == Some(score.top_token_id)
            &&& sample.vocab_size == score.vocab_size
            &&& sample.logits_evaluated == score.logits_evaluated
            &&& sample.hidden_dim == score.hidden_dim
            &&& sample.passed ==> sample.logits_evaluated == sample.vocab_size
                && sample.covers_full_vocabulary && score.sample_top_k >= 2
                && score.argmax_kernel_backend@ == backends.argmax@
            &&& sample.passed <==> sample.status@ == "sampled"@
            &&& !sample.passed <==> sample.status@ == "blocked"@
        }),
{
    reveal_strlit("sampled");
    reveal_strlit("blocked");
    assert("blocked"@[0] == 'b' && "sampled"@[0] == 's');
}

/// Sampling is left to the caller only where the caller keeps the hidden state,
/// and a drafted request never samples on its own there.
pub proof fn law_deferral_needs_a_retained_state(
    shape: RealFullSchedulerExecutionShape,
    settings: ReportSettings,
)
    ensures
        sample_deferred(shape, settings) ==> settings.retain_final_target_device_hidden,
        settings.retain_final_target_device_hidden && shape.mtp_rows > 0 ==> sample_deferred(
            shape,
            settings,
        ),
        shape.mtp_rows == 0 ==> (sample_deferred(shape, settings) <==> (
        settings.retain_final_target_device_hidden && settings.defer_terminal_lm_head_sample)),
{
}

/// An execution is called sampled exactly if its sample counts and its attention
/// is complete; without a final hidden state it is a dry run, and otherwise it is
/// blocked.
pub proof fn law_status_follows_from_sample_and_attention(
    sample: RealFullSchedulerTerminalLmHeadSample,
    complete: bool,
)
    ensures
        ({
            let status = completion_status(sample, complete);
            &&& status == "admitted-scheduler-terminal-lm-head-sampled"@ <==> sample.passed
                && complete
            &&& status == "admitted-scheduler-dry-run"@ <==> !(sample.passed && complete)
                && !sample.uses_final_decode_device_hidden
            &&& status == "admitted-scheduler-terminal-lm-head-blocked"@ <==> !(sample.passed
                && complete) && sample.uses_final_decode_device_hidden
        }),
{
    reveal_strlit("admitted-scheduler-terminal-lm-head-sampled");
    reveal_strlit("admitted-scheduler-terminal-lm-head-blocked");
    reveal_strlit("admitted-scheduler-dry-run");
    assert("admitted-scheduler-terminal-lm-head-sampled"@[36] == 's');
    assert("admitted-scheduler-terminal-lm-head-blocked"@[36] == 'b');
    assert("admitted-scheduler-dry-run"@.len() == 26);
    assert("admitted-scheduler-terminal-lm-head-sampled"@.len() == 43);
    assert("admitted-scheduler-terminal-lm-head-blocked"@.len() == 43);
}

/// What two requests in a row show of the graph pool adds up to what both show
/// together, where the pool only grows; the pool itself is shown as it is last.
pub proof fn law_graph_counts_add_up(
    first: CoordinatorCudaGraphStats,
    second: CoordinatorCudaGraphStats,
    third: CoordinatorCudaGraphStats,
)
    requires
        first.graph_captures <= second.graph_captures <= third.graph_captures,
        first.graph_launches <= second.graph_launches <= third.graph_launches,
    ensures
        ({
            let left = request_graphs(Some(first), Some(second));
            let right = request_graphs(Some(second), Some(third));
            let both = request_graphs(Some(first), Some(third));
            &&& both.graph_captures == left.graph_captures + right.graph_captures
            &&& both.graph_launches == left.graph_launches + right.graph_launches
            &&& both.slots == third.slots
            &&& both.captured_graphs == third.captured_graphs
            &&& first.graph_captures + both.graph_captures == third.graph_captures
            &&& first.graph_launches + both.graph_launches == third.graph_launches
        }),
{
}

/// A live request reports the bytes of its reservation, token by token; another
/// one is byte-backed only where everything that it committed is backed, within
/// what is resident.
pub proof fn law_kv_report_counts_the_reservation(
    store: KvStoreCounts,
    shape: RealFullSchedulerExecutionShape,
    longer: RealFullSchedulerExecutionShape,
    kv_bytes_per_token: usize,
    committed_kv_writes: usize,
)
    requires
        longer.span() == shape.span() + 1,
        longer.span() * kv_bytes_per_token <= usize::MAX,
    ensures
        ({
            let own = kv_report(store, shape, kv_bytes_per_token, committed_kv_writes, true);
            let next = kv_report(store, longer, kv_bytes_per_token, committed_kv_writes, true);
            let stored = kv_report(store, shape, kv_bytes_per_token, committed_kv_writes, false);
            &&& next.kv_reservation_bytes == own.kv_reservation_bytes + kv_bytes_per_token
            &&& shape.span() == 0 ==> own.kv_reservation_bytes == 0
            &&& own.backed_kv_writes == committed_kv_writes
            &&& !own.byte_backed_scheduler_trace
            &&& stored.byte_backed_scheduler_trace ==> stored.backed_kv_writes
                == committed_kv_writes + stored.committed_mtp_writes
                && stored.backed_bytes_after_discard <= stored.kv_reservation_bytes
                && store.active_reservations == 1
            &&& stored.committed_mtp_writes == store.committed_writes
            &&& stored.discarded_mtp_writes == store.discarded_writes
        }),
{
    let unit = kv_bytes_per_token as int;
    assert((shape.span() + 1) * unit == shape.span() * unit + unit) by (nonlinear_arith);
    assert(0 <= shape.span() * unit) by (nonlinear_arith)
        requires
            0 <= shape.span(),
            0 <= unit,
    ;
    assert(0 * unit == 0);
}

/// The groups of a batched execution are pairs of four or eight requests and
/// single requests else, and every request belongs to exactly one of them.
pub proof fn law_groups_part_the_requests(requests: int, run: int)
    requires
        2 <= requests <= 8,
        0 <= run < requests,
    ensures
        ({
            let size = group_size(requests);
            let g = run / size;
            &&& size == 2 <==> requests == 4 || requests == 8
            &&& 0 <= g < group_count(requests)
            &&& group_first(requests, g) <= run < group_first(requests, g) + size
            &&& forall|h: int|
                0 <= h < group_count(requests) && #[trigger] group_first(requests, h) <= run
                    < group_first(requests, h) + size ==> h == g
            &&& forall|h: int|
                0 <= h < group_count(requests) ==> 0 <= #[trigger] group_first(requests, h)
                    && group_first(requests, h) + size <= requests
            &&& size == 2 ==> even_starts(requests).len() == group_count(requests) && even_starts(
                requests,
            )[g] == group_first(requests, g)
        }),
{
}

proof fn lemma_dense_contains(requests: int, n: int, run: int, layer: int)
    requires
        0 <= run < requests,
        0 <= layer < n,
    ensures
        dense_steps(requests, n).contains(
            BatchedStep::Dense { run: run as usize, layer_id: layer as usize },
        ),
    decreases n,
{
    let step = BatchedStep::Dense { run: run as usize, layer_id: layer as usize };
    let before = dense_steps(requests, n - 1);
    let own = dense_layer_steps(n - 1, requests);
    let all = dense_steps(requests, n);
    assert(all == before + own);
    if layer == n - 1 {
        assert(own[run] == step);
        assert(all[before.len() + run] == step);
    } else {
        lemma_dense_contains(requests, n - 1, run, layer);
        let i = choose|i: int| 0 <= i < before.len() && before[i] == step;
        assert(all[i] == step);
    }
}

proof fn lemma_layer_contains(requests: int, layer: int, layers: int, n: int, g: int)
    requires
        0 <= g < n,
    ensures
        sparse_layer_steps(requests, layer, layers, n).contains(finish_step(requests, g, layer)),
        layer + 1 < layers ==> sparse_layer_steps(requests, layer, layers, n).contains(
            start_step(requests, g, layer + 1),
        ),
        sparse_layer_steps(requests, layer, layers, n).len() == (if layer + 1 < layers {
            2 * n
        } else {
            n
        }),
    decreases n,
{
    let before = sparse_layer_steps(requests, layer, layers, n - 1);
    let all = sparse_layer_steps(requests, layer, layers, n);
    if n > 1 {
        lemma_layer_contains(requests, layer, layers, n - 1, if g < n - 1 {
            g
        } else {
            0
        });
    } else {
        assert(before.len() == 0);
    }
    if g == n - 1 {
        assert(all[before.len() as int] == finish_step(requests, g, layer));
        if layer + 1 < layers {
            assert(all[before.len() as int + 1] == start_step(requests, g, layer + 1));
        }
    } else {
        let i = choose|i: int| 0 <= i < before.len() && before[i] == finish_step(requests, g, layer);
        assert(all[i] == finish_step(requests, g, layer));
        if layer + 1 < layers {
            let j = choose|j: int|
                0 <= j < before.len() && before[j] == start_step(requests, g, layer + 1);
            assert(all[j] == start_step(requests, g, layer + 1));
        }
    }
}

proof fn lemma_sparse_contains(
    requests: int,
    first: int,
    layers: int,
    to: int,
    g: int,
    layer: int,
)
    requires
        2 <= requests <= 8,
        0 <= g < group_count(requests),
        first <= layer < to <= layers,
    ensures
        sparse_steps(requests, first, layers, to).contains(finish_step(requests, g, layer)),
        layer + 1 < layers ==> sparse_steps(requests, first, layers, to).contains(
            start_step(requests, g, layer + 1),
        ),
    decreases to - first,
{
    let groups = group_count(requests);
    let before = sparse_steps(requests, first, layers, to - 1);
    let own = sparse_layer_steps(requests, to - 1, layers, groups);
    let all = sparse_steps(requests, first, layers, to);
    assert(all == before + own);
    let finish = finish_step(requests, g, layer);
    let start = start_step(requests, g, layer + 1);
    if layer == to - 1 {
        lemma_layer_contains(requests, layer, layers, groups, g);
        let i = choose|i: int| 0 <= i < own.len() && own[i] == finish;
        assert(all[before.len() + i] == finish);
        if layer + 1 < layers {
            let j = choose|j: int| 0 <= j < own.len() && own[j] == start;
            assert(all[before.len() + j] == start);
        }
    } else {
        lemma_sparse_contains(requests, first, layers, to - 1, g, layer);
        let i = choose|i: int| 0 <= i < before.len() && before[i] == finish;
        assert(all[i] == finish);
        if layer + 1 < layers {
            let j = choose|j: int| 0 <= j < before.len() && before[j] == start;
            assert(all[j] == start);
        }
    }
}

/// A batched execution takes every request through every layer: each request
/// through the dense layers, and its group through the sparse ones, which it
/// starts and finishes.
pub proof fn law_every_request_passes_every_layer(
    requests: int,
    first_sparse: int,
    layers: int,
    run: int,
    layer: int,
)
    requires
        2 <= requests <= 8,
        0 <= first_sparse < layers <= usize::MAX,
        0 <= run < requests,
        0 <= layer < layers,
    ensures
        ({
            let program = batched_program(requests, first_sparse, layers);
            let size = group_size(requests);
            let first = (run / size) * size;
            &&& layer < first_sparse ==> program.contains(
                BatchedStep::Dense { run: run as usize, layer_id: layer as usize },
            )
            &&& layer >= first_sparse ==> program.contains(
                BatchedStep::Start {
                    first: first as usize,
                    size: size as usize,
                    layer_id: layer as usize,
                },
            ) && program.contains(
                BatchedStep::Finish {
                    first: first as usize,
                    size: size as usize,
                    layer_id: layer as usize,
                },
            )
        }),
{
    let program = batched_program(requests, first_sparse, layers);
    let size = group_size(requests);
    let g = run / size;
    let groups = group_count(requests);
    law_groups_part_the_requests(requests, run);
    let dense = dense_steps(requests, first_sparse);
    let starts = start_steps(requests, first_sparse, groups);
    let sparse = sparse_steps(requests, first_sparse, layers, layers);
    assert(program == dense + starts + sparse);
    assert(group_first(requests, g) == g * size);
    if layer < first_sparse {
        lemma_dense_contains(requests, first_sparse, run, layer);
        let step = BatchedStep::Dense { run: run as usize, layer_id: layer as usize };
        let i = choose|i: int| 0 <= i < dense.len() && dense[i] == step;
        assert(program[i] == step);
    } else {
        lemma_sparse_contains(requests, first_sparse, layers, layers, g, layer);
        let finish = finish_step(requests, g, layer);
        let i = choose|i: int| 0 <= i < sparse.len() && sparse[i] == finish;
        assert(program[dense.len() + starts.len() + i] == finish);
        let start = start_step(requests, g, layer);
        if layer == first_sparse {
            assert(starts[g] == start);
            assert(program[dense.len() + g] == start);
        } else {
            lemma_sparse_contains(requests, first_sparse, layers, layers, g, layer - 1);
            let j = choose|j: int| 0 <= j < sparse.len() && sparse[j] == start;
            assert(program[dense.len() + starts.len() + j] == start);
        }
    }
}

proof fn lemma_dense_len(requests: int, n: int)
    requires
        requests >= 0,
        n >= 0,
    ensures
        dense_steps(requests, n).len() == requests * n,
    decreases n,
{
    if n > 0 {
        lemma_dense_len(requests, n - 1);
        assert(requests * n == requests * (n - 1) + requests) by (nonlinear_arith);
    } else {
        assert(requests * 0 == 0);
    }
}

proof fn lemma_sparse_len(requests: int, first: int, layers: int, to: int)
    requires
        2 <= requests <= 8,
        first < layers,
        first <= to <= layers,
    ensures
        sparse_steps(requests, first, layers, to).len() == 2 * group_count(requests) * (to - first)
            - (if to == layers {
            group_count(requests)
        } else {
            0
        }),
    decreases to - first,
{
    let groups = group_count(requests);
    if to > first {
        lemma_sparse_len(requests, first, layers, to - 1);
        lemma_layer_contains(requests, to - 1, layers, groups, 0);
        assert(2 * groups * (to - first) == 2 * groups * (to - 1 - first) + 2 * groups)
            by (nonlinear_arith);
    } else {
        assert(2 * groups * 0 == 0);
    }
}

/// No step of a batched execution is made twice: it has exactly as many steps as
/// there are dense layers of requests, and starts and finishes of groups.
pub proof fn law_batched_program_makes_no_step_twice(
    requests: int,
    first_sparse: int,
    layers: int,
)
    requires
        2 <= requests <= 8,
        0 <= first_sparse < layers,
    ensures
        batched_program(requests, first_sparse, layers).len() == requests * first_sparse + 2
            * group_count(requests) * (layers - first_sparse),
        group_count(requests) * group_size(requests) == requests,
{
    lemma_dense_len(requests, first_sparse);
    lemma_sparse_len(requests, first_sparse, layers, layers);
}

/// Without rolling packs a sparse layer dispatches once per admission of the
/// layer; with them, a request of several chunks that is not bounded dispatches
/// once per pack.
pub proof fn law_sparse_layer_dispatches_once_per_admission(
    iterations: Seq<LayerIteration>,
    shape: RealFullSchedulerExecutionShape,
    layer: u32,
    reservation_id: u64,
    facts: ModelFacts,
    packs: usize,
)
    requires
        shape.span() <= usize::MAX,
        layer_admissions(
            iterations,
            shape,
            shape.prefill_chunk_tokens,
            layer,
            reservation_id,
            facts,
        ),
    ensures
        sparse_iterations(shape, None) == iterations.len(),
        iterations.len() < 2 ==> sparse_iterations(shape, Some(packs)) == iterations.len(),
        iterations.len() >= 2 && shape.prefill_tokens + shape.decode_rows + shape.mtp_rows > 8_192
            ==> sparse_iterations(shape, Some(packs)) == iterations.len(),
        iterations.len() >= 2 && shape.prefill_tokens + shape.decode_rows + shape.mtp_rows <= 8_192
            ==> sparse_iterations(shape, Some(packs)) == packs,
{
    let waves = decode_mtp_waves(shape, layer, reservation_id, facts);
    assert(waves.len() > 0 <==> shape.decode_rows > 0 || shape.mtp_rows > 0);
}

/// Where the last chunk of a prefill is split to make room for the terminal rows,
/// it is split as evenly as the room allows: the last part is no larger than the
/// one before it, and smaller by more than one row only where it fills its chunk.
pub proof fn law_split_chunk_is_balanced(rows: int, chunk_tokens: int, terminal_rows: int)
    requires
        0 < rows <= usize::MAX,
        0 <= chunk_tokens <= usize::MAX,
        0 <= terminal_rows <= usize::MAX,
        rebalances(rows, chunk_size(chunk_tokens), terminal_rows),
        chunk_tokens < usize::MAX,
    ensures
        ({
            let counts = prefill_counts(rows, chunk_tokens, terminal_rows);
            let ordinary = ordinary_counts(rows, chunk_size(chunk_tokens));
            let last = counts.last();
            let before = counts[counts.len() - 2];
            &&& counts.len() == ordinary.len() + 1
            &&& forall|i: int|
                0 <= i < ordinary.len() - 1 ==> #[trigger] counts[i] == chunk_size(chunk_tokens)
            &&& 1 <= last <= before
            &&& before - last <= 1 || last + terminal_rows == chunk_size(chunk_tokens)
            &&& ordinary.last() + terminal_rows > chunk_size(chunk_tokens)
        }),
{
    let chunk = chunk_size(chunk_tokens);
    let ordinary = ordinary_counts(rows, chunk);
    lemma_ordinary(rows, chunk);
    let counts = prefill_counts(rows, chunk_tokens, terminal_rows);
    let overflowing = ordinary.last() as int;
    let kept = balanced_final(overflowing, chunk, terminal_rows);
    assert(counts =~= ordinary.drop_last().push((overflowing - kept) as usize).push(
        kept as usize,
    ));
    assert forall|i: int| 0 <= i < ordinary.len() - 1 implies #[trigger] counts[i] == chunk by {
        assert(counts[i] == ordinary[i]);
    }
}

proof fn lemma_ordinary(rows: int, chunk: int)
    requires
        0 < rows <= usize::MAX,
        1 <= chunk <= usize::MAX,
    ensures
        ({
            let counts = ordinary_counts(rows, chunk);
            &&& counts.len() >= 1
            &&& 1 <= counts.last() <= chunk
            &&& forall|i: int| 0 <= i < counts.len() - 1 ==> #[trigger] counts[i] == chunk
        }),
    decreases rows,
{
    let counts = ordinary_counts(rows, chunk);
    if rows > chunk {
        lemma_ordinary(rows - chunk, chunk);
        let rest = ordinary_counts(rows - chunk, chunk);
        assert(counts == seq![chunk as usize] + rest);
        assert(counts.last() == rest.last());
        assert forall|i: int| 0 <= i < counts.len() - 1 implies #[trigger] counts[i] == chunk by {
            if i > 0 {
                assert(counts[i] == rest[i - 1]);
            }
        }
    }
}

/// A prefill whose last chunk leaves room for the terminal rows is cut into full
/// chunks and what is left.
pub proof fn law_unsplit_chunks_are_full(rows: int, chunk_tokens: int, terminal_rows: int, i: int)
    requires
        0 < rows <= usize::MAX,
        0 <= chunk_tokens <= usize::MAX,
        !rebalances(rows, chunk_size(chunk_tokens), terminal_rows),
        0 <= i < prefill_counts(rows, chunk_tokens, terminal_rows).len() - 1,
    ensures
        prefill_counts(rows, chunk_tokens, terminal_rows)[i] == chunk_size(chunk_tokens),
{
    lemma_ordinary(rows, chunk_size(chunk_tokens));
}

/// A score counts exactly if it was taken over every entry of the vocabulary, is a
/// number, was sampled among several tokens with a probability, a share and a
/// temperature that can be, and came from the resident kernels.
pub proof fn law_complete_scores_count(
    score: RealLmHeadChunkScoreForHidden,
    backends: LmHeadBackends,
)
    ensures
        completion_gate(score, backends) <==> {
            &&& score.covers_full_vocabulary && score.logits_evaluated == score.vocab_size
            &&& finite_bits(score.top_logit_bits)
            &&& unit_bits(score.sampled_score_bits) && unit_bits(score.sample_top_p_bits)
            &&& positive_bits(score.sample_temperature_bits)
            &&& 2 <= score.sample_top_k
            &&& score.argmax_kernel_backend@ == backends.argmax@
            &&& score.sampler_kernel_backend@ != backends.sampler@
                ==> score.sampler_kernel_backend@ == backends.triton_sampler@
        },
{
}

} // verus!
