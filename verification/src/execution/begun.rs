//! How an execution is set up and what its report is of: which rows are seeded,
//! which way the chunks take, and in which order results are awaited.
use vstd::prelude::*;

use crate::execution::accounting::layer_admissions;
use crate::execution::outcome::law_status_follows_from_sample_and_attention;
use crate::execution::report::{
    executed_shape, layer_work, pipeline_starts, report_ok, setup_accepted, setup_ok,
    ExecutionOutcome, ExecutionSetup, LayerWork, PrefillPipeline, RealFullSchedulerExecutionDryRun,
    ReportSettings, SparseTcp,
};
use crate::execution::shape::{aligned_chunk_tokens, RealFullSchedulerExecutionShape};
use crate::execution::state::RealFullSchedulerExecutionState;
use crate::execution::terminal::LmHeadBackends;
use crate::execution::waves::LayerIteration;
use crate::model::ModelFacts;

verus! {

/// Every token that came with a request seeds one row: those of the prompt its
/// rows, unless they enter chunk by chunk, and those of the decode its decode rows
/// first and then all or none of its drafts. Rows without tokens are not seeded.
pub proof fn law_every_token_seeds_a_row(
    setup: ExecutionSetup,
    facts: ModelFacts,
    state: Option<&RealFullSchedulerExecutionState>,
    sparse_tcp: SparseTcp,
    packs_supported: bool,
)
    requires
        setup_accepted(setup.shape, facts, state, sparse_tcp),
        setup_ok(setup, state is Some, sparse_tcp, packs_supported),
    ensures
        setup.shape.prefill_token_ids matches Some(ids) ==> setup.seed_prefill_rows == (
        if setup.bounded_wavefront {
            0
        } else {
            ids@.len() as int
        }),
        setup.shape.prefill_token_ids is None ==> setup.seed_prefill_rows == 0,
        setup.shape.decode_token_ids matches Some(ids) ==> {
            &&& setup.seed_decode_rows + setup.seed_mtp_rows == ids@.len()
            &&& setup.seed_decode_rows == setup.shape.decode_rows
            &&& setup.seed_mtp_rows == 0 || setup.seed_mtp_rows == setup.shape.mtp_rows
        },
        setup.shape.decode_token_ids is None ==> setup.seed_decode_rows == 0 && setup.seed_mtp_rows
            == 0,
        setup.seed_prefill_rows <= setup.shape.prefill_tokens,
{
}

/// A live request with more rows than a window holds is bounded, whatever it
/// takes; only live requests of several chunks pass the sparse layers as a
/// wavefront; and only packed row counts roll.
pub proof fn law_long_live_requests_are_bounded(
    setup: ExecutionSetup,
    facts: ModelFacts,
    state: Option<&RealFullSchedulerExecutionState>,
    sparse_tcp: SparseTcp,
    packs_supported: bool,
)
    requires
        setup_accepted(setup.shape, facts, state, sparse_tcp),
        setup_ok(setup, state is Some, sparse_tcp, packs_supported),
        setup.shape.span() <= usize::MAX,
    ensures
        ({
            let rows = setup.shape.prefill_tokens + setup.shape.decode_rows + setup.shape.mtp_rows;
            &&& state is Some && rows > 8_192 ==> setup.bounded_wavefront
            &&& setup.bounded_wavefront ==> rows > 8_192 && setup.sparse_chunk_wavefront
            &&& setup.sparse_chunk_wavefront ==> state is Some && setup.shape.counts().len() > 1
                && !setup.record_sparse_host_partition
            &&& setup.rolling_wavefront ==> setup.sparse_chunk_wavefront && packs_supported
            &&& setup.sparse_chunk_wavefront && packs_supported ==> setup.rolling_wavefront
            &&& sparse_tcp is Absent <==> setup.record_sparse_host_partition
            &&& setup.bounded_wavefront ==> layer_work(setup, facts) == seq![LayerWork::Bounded]
        }),
{
}

/// An execution changes nothing of its request but the size of its chunks, and
/// that only to a smaller one.
pub proof fn law_executed_shape_is_the_request(
    shape: RealFullSchedulerExecutionShape,
    packs_supported: bool,
)
    requires
        shape.prefill_chunk_tokens > 0,
    ensures
        ({
            let executed = executed_shape(shape, packs_supported);
            &&& executed == (RealFullSchedulerExecutionShape {
                prefill_chunk_tokens: executed.prefill_chunk_tokens,
                ..shape
            })
            &&& 0 < executed.prefill_chunk_tokens <= shape.prefill_chunk_tokens
            &&& !packs_supported ==> executed == shape
            &&& executed.span() == shape.span()
        }),
        ({
            let aligned = aligned_chunk_tokens(shape.prefill_chunk_tokens as int);
            &&& aligned <= shape.prefill_chunk_tokens
            &&& aligned <= 2_048
            &&& aligned < 2_048 ==> shape.prefill_chunk_tokens < 2 * aligned
        }),
{
}

/// The results of a layer's chunks are awaited in the order in which the chunks
/// were started, each once, and with at most one outstanding behind.
pub proof fn law_results_are_awaited_in_order(
    before: PrefillPipeline,
    after: PrefillPipeline,
    outstanding: bool,
    due: Option<usize>,
)
    requires
        before.wf(),
        before.next_chunk < usize::MAX,
        pipeline_starts(before, after, outstanding, due),
    ensures
        after.next_chunk == before.next_chunk + 1,
        after.pending@.len() <= 1,
        due matches Some(oldest) ==> (forall|i: int|
            0 <= i < after.pending@.len() ==> oldest < #[trigger] after.pending@[i]),
        due matches Some(oldest) ==> seq![oldest] + after.pending@ =~= (if outstanding {
            before.pending@ + seq![before.next_chunk]
        } else {
            before.pending@
        }),
        due is None ==> after.pending@ =~= (if outstanding {
            before.pending@ + seq![before.next_chunk]
        } else {
            before.pending@
        }),
        due is Some <==> outstanding && before.pending@.len() == 1,
{
}

/// The report of an execution is that of its request: its rows, its chunks as they
/// were admitted, and, where attention was complete, every row of every layer.
pub proof fn law_report_is_of_its_request(
    report: RealFullSchedulerExecutionDryRun,
    facts: ModelFacts,
    shape: RealFullSchedulerExecutionShape,
    outcome: ExecutionOutcome,
    settings: ReportSettings,
    backends: LmHeadBackends,
    iterations: Seq<LayerIteration>,
    layer: u32,
    reservation_id: u64,
)
    requires
        shape.span() <= usize::MAX,
        report_ok(report, facts, shape, outcome, settings, backends),
        layer_admissions(
            iterations,
            shape,
            shape.prefill_chunk_tokens,
            layer,
            reservation_id,
            facts,
        ),
    ensures
        report.request_prefill_tokens == shape.prefill_tokens,
        report.request_decode_rows == shape.decode_rows,
        report.request_mtp_verify_rows == shape.mtp_rows,
        report.request_mtp_accepted_rows == shape.mtp_accepted_rows,
        report.request_prefill_chunks > 0 ==> report.request_prefill_chunks == iterations.len(),
        report.full_context_device_attention_complete ==> {
            &&& report.counters.device_attention_query_rows == facts.num_hidden_layers * (
            report.request_prefill_tokens + report.request_decode_rows
                + report.request_mtp_verify_rows)
            &&& report.layer_order_verified
            &&& report.numeric_progression_passed
            &&& report.device_kv.uses_device_kv_cache
        },
        report.status@ == "admitted-scheduler-terminal-lm-head-sampled"@ <==> {
            &&& report.terminal_lm_head_sample.passed
            &&& report.full_context_device_attention_complete
        },
        report.uses_device_kv_attention <==> report.counters.device_attention_launches > 0,
        report.kv.committed_mtp_writes == (if settings.live {
            0
        } else {
            outcome.store.committed_writes
        }),
        report.device_kv == outcome.device_kv,
        report.counters == outcome.counters,
{
    law_status_follows_from_sample_and_attention(
        report.terminal_lm_head_sample,
        report.full_context_device_attention_complete,
    );
}

} // verus!
