//! One execution of a request from end to end: how it is set up, which work
//! every layer gets, and what is reported of it.
use vstd::prelude::*;

use crate::execution::attention::{
    attention_complete, layer_context_rows, layer_launches_max, layer_query_rows,
    scheduler_full_context_device_attention_complete_for_layers,
    RealFullSchedulerExecutionCounters,
};
use crate::execution::shape::{
    aligned_chunk_tokens, bounded_long_prefill_wavefront_required,
    rolling_sparse_reclaim_aligned_chunk_tokens, scheduler_prefill_chunk_count, shape_error,
    token_id_error, validate_scheduler_execution_shape, validate_scheduler_token_ids,
    RealFullSchedulerExecutionShape, ShapeError, BOUNDED_LONG_PREFILL_ROWS,
};
use crate::execution::state::{
    ModelBindingError, RealFullSchedulerExecutionState, StateShapeError,
};
use crate::execution::terminal::{
    completion_status, scheduler_deferred_target_lm_head_sample,
    scheduler_execution_status_for_completion, scheduler_should_defer_target_lm_head_sample,
    scheduler_terminal_lm_head_sample, LmHeadBackends, RealFullSchedulerTerminalLmHeadSample,
    RealLmHeadChunkScoreForHidden,
};
use crate::execution::terminal::{
    empty_sample_ok, scored_sample_ok, TerminalBlocker,
};
use crate::model::ModelFacts;
use crate::text::{append_size, decimal};

verus! {

/// The dispatcher of routed experts, where the execution has one.
#[derive(Clone, Copy, Debug, PartialEq, Eq, Structural)]
pub enum SparseTcp {
    Absent,
    Present { supports_chunk_wavefront: bool },
}

/// Why an execution is not started.
#[derive(Clone, Debug)]
pub enum SetupError {
    Shape { error: ShapeError },
    State { error: StateShapeError },
    Model { error: ModelBindingError },
    BoundedWavefrontRequired { rows: usize },
}

impl SetupError {
    pub open spec fn text(self) -> Seq<char> {
        match self {
            SetupError::Shape { error } => error.text(),
            SetupError::State { error } => error.text(),
            SetupError::Model { error } => error.text(),
            SetupError::BoundedWavefrontRequired { rows } => "live prefill with "@ + decimal(
                rows as nat,
            ) + " rows requires the bounded sparse wavefront"@,
        }
    }

    pub fn message(&self) -> (out: String)
        ensures
            out@ == self.text(),
    {
        match self {
            SetupError::Shape { error } => error.message(),
            SetupError::State { error } => error.message(),
            SetupError::Model { error } => error.message(),
            SetupError::BoundedWavefrontRequired { rows } => {
                let mut out: String = "live prefill with ".to_owned();
                append_size(&mut out, *rows);
                out.append(" rows requires the bounded sparse wavefront");
                out
            },
        }
    }
}

/// How an execution proceeds. `seed_prefill_rows` prompt rows, then
/// `seed_decode_rows` decode rows and `seed_mtp_rows` draft rows get the
/// embeddings of their tokens before the first layer.
#[derive(Clone, Debug)]
pub struct ExecutionSetup {
    pub shape: RealFullSchedulerExecutionShape,
    pub record_sparse_host_partition: bool,
    pub sparse_chunk_wavefront: bool,
    pub bounded_wavefront: bool,
    pub rolling_wavefront: bool,
    pub seed_prefill_rows: usize,
    pub seed_decode_rows: usize,
    pub seed_mtp_rows: usize,
}

/// The shape with the chunk size that an execution works with: where the row
/// count is packed and not bounded, the one that frees whole parts of
/// accumulator pages.
pub open spec fn executed_shape(
    shape: RealFullSchedulerExecutionShape,
    packs_supported: bool,
) -> RealFullSchedulerExecutionShape {
    if packs_supported && shape.sparse_rows() <= BOUNDED_LONG_PREFILL_ROWS {
        RealFullSchedulerExecutionShape {
            prefill_chunk_tokens: aligned_chunk_tokens(shape.prefill_chunk_tokens as int) as usize,
            ..shape
        }
    } else {
        shape
    }
}

/// The chunks pass the sparse layers as a wavefront.
pub open spec fn wavefront_used(
    shape: RealFullSchedulerExecutionShape,
    live: bool,
    sparse_tcp: SparseTcp,
) -> bool {
    live && shape.counts().len() >= 2 && sparse_tcp == (SparseTcp::Present {
        supports_chunk_wavefront: true,
    })
}

/// A live request that has to be bounded cannot be.
pub open spec fn bound_missing(
    shape: RealFullSchedulerExecutionShape,
    live: bool,
    sparse_tcp: SparseTcp,
) -> bool {
    live && shape.sparse_rows() > BOUNDED_LONG_PREFILL_ROWS && !wavefront_used(
        shape,
        live,
        sparse_tcp,
    )
}

/// The state, where there is one, takes the request and the model.
pub open spec fn state_takes(
    state: Option<&RealFullSchedulerExecutionState>,
    shape: RealFullSchedulerExecutionShape,
    facts: ModelFacts,
) -> bool {
    match state {
        Some(state) => state.shape_fits(shape) && state.model_fits(facts),
        None => true,
    }
}

/// The execution of the shape, with its final chunk size, can start.
pub open spec fn setup_accepted(
    shape: RealFullSchedulerExecutionShape,
    facts: ModelFacts,
    state: Option<&RealFullSchedulerExecutionState>,
    sparse_tcp: SparseTcp,
) -> bool {
    &&& shape_error(shape) is None
    &&& token_id_error(shape) is None
    &&& state_takes(state, shape, facts)
    &&& !bound_missing(shape, state is Some, sparse_tcp)
}

/// The first reason why the execution does not start.
pub open spec fn setup_refused(
    shape: RealFullSchedulerExecutionShape,
    facts: ModelFacts,
    state: Option<&RealFullSchedulerExecutionState>,
    sparse_tcp: SparseTcp,
    error: SetupError,
) -> bool {
    if shape_error(shape) is Some {
        error == (SetupError::Shape { error: shape_error(shape)->Some_0 })
    } else if token_id_error(shape) is Some {
        error == (SetupError::Shape { error: token_id_error(shape)->Some_0 })
    } else if state is Some && !state->Some_0.shape_fits(shape) {
        error matches SetupError::State { error: inner } && state->Some_0.shape_refused(
            shape,
            inner,
        )
    } else if !state_takes(state, shape, facts) {
        error matches SetupError::Model { error: inner } && state->Some_0.model_refused(
            facts,
            inner,
        )
    } else {
        &&& bound_missing(shape, state is Some, sparse_tcp)
        &&& error == (SetupError::BoundedWavefrontRequired { rows: shape.sparse_rows() as usize })
    }
}

/// What the setup holds of an accepted shape.
pub open spec fn setup_ok(
    setup: ExecutionSetup,
    live: bool,
    sparse_tcp: SparseTcp,
    packs_supported: bool,
) -> bool {
    let shape = setup.shape;
    &&& setup.record_sparse_host_partition == (sparse_tcp == SparseTcp::Absent)
    &&& setup.sparse_chunk_wavefront == wavefront_used(shape, live, sparse_tcp)
    &&& setup.bounded_wavefront == (setup.sparse_chunk_wavefront && shape.sparse_rows()
        > BOUNDED_LONG_PREFILL_ROWS)
    &&& setup.rolling_wavefront == (setup.sparse_chunk_wavefront && packs_supported)
    &&& setup.seed_prefill_rows == (if !setup.bounded_wavefront && shape.prefill_token_ids is Some {
        shape.prefill_tokens
    } else {
        0
    })
    &&& setup.seed_decode_rows == (if shape.decode_token_ids is Some {
        shape.decode_rows
    } else {
        0
    })
    &&& setup.seed_mtp_rows == (if shape.decode_token_ids is Some {
        shape.decode_token_ids->Some_0@.len() - shape.decode_rows
    } else {
        0
    })
}

/// Sets an execution up. `state` is the state of the live sequence, if the
/// request is live; `packs_supported` says whether its row count is packed
/// into rolling dispatches.
pub fn prepare_scheduler_execution(
    mut shape: RealFullSchedulerExecutionShape,
    facts: &ModelFacts,
    state: Option<&RealFullSchedulerExecutionState>,
    sparse_tcp: SparseTcp,
    packs_supported: bool,
) -> (result: Result<ExecutionSetup, SetupError>)
    requires
        shape.span() <= usize::MAX,
    ensures
        result is Ok <==> setup_accepted(
            executed_shape(shape, packs_supported),
            *facts,
            state,
            sparse_tcp,
        ),
        result matches Ok(setup) ==> setup.shape == executed_shape(shape, packs_supported)
            && setup_ok(setup, state is Some, sparse_tcp, packs_supported),
        result matches Err(e) ==> setup_refused(
            executed_shape(shape, packs_supported),
            *facts,
            state,
            sparse_tcp,
            e,
        ),
{
    let rows: usize = shape.prefill_tokens.saturating_add(shape.decode_rows).saturating_add(
        shape.mtp_rows,
    );
    let bounded_required: bool = bounded_long_prefill_wavefront_required(rows);
    if packs_supported && !bounded_required {
        shape.prefill_chunk_tokens = rolling_sparse_reclaim_aligned_chunk_tokens(
            shape.prefill_chunk_tokens,
        );
    }
    if let Err(error) = validate_scheduler_execution_shape(&shape) {
        return Err(SetupError::Shape { error });
    }
    if let Err(error) = validate_scheduler_token_ids(&shape) {
        return Err(SetupError::Shape { error });
    }
    let live: bool = state.is_some();
    if let Some(state) = state {
        if let Err(error) = state.validate_shape(&shape) {
            return Err(SetupError::State { error });
        }
        if let Err(error) = state.validate_model(facts) {
            return Err(SetupError::Model { error });
        }
    }
    let supports_wavefront: bool = match sparse_tcp {
        SparseTcp::Absent => false,
        SparseTcp::Present { supports_chunk_wavefront } => supports_chunk_wavefront,
    };
    let sparse_chunk_wavefront: bool = live && scheduler_prefill_chunk_count(&shape) >= 2
        && supports_wavefront;
    let bounded_wavefront: bool = sparse_chunk_wavefront && bounded_required;
    if live && bounded_required && !bounded_wavefront {
        return Err(SetupError::BoundedWavefrontRequired { rows });
    }
    let rolling_wavefront: bool = sparse_chunk_wavefront && packs_supported;
    let seed_prefill_rows: usize = if !bounded_wavefront && shape.prefill_token_ids.is_some() {
        shape.prefill_tokens
    } else {
        0
    };
    let mut seed_decode_rows: usize = 0;
    let mut seed_mtp_rows: usize = 0;
    if let Some(ids) = &shape.decode_token_ids {
        seed_decode_rows = shape.decode_rows;
        seed_mtp_rows = ids.len() - shape.decode_rows;
    }
    let record_sparse_host_partition: bool = match sparse_tcp {
        SparseTcp::Absent => true,
        SparseTcp::Present { .. } => false,
    };
    Ok(
        ExecutionSetup {
            shape,
            record_sparse_host_partition,
            sparse_chunk_wavefront,
            bounded_wavefront,
            rolling_wavefront,
            seed_prefill_rows,
            seed_decode_rows,
            seed_mtp_rows,
        },
    )
}

/// One step of an execution: one layer on its own, or all layers from
/// `first_layer` on as a wavefront.
#[derive(Clone, Copy, Debug, PartialEq, Eq, Structural)]
pub enum LayerWork {
    Bounded,
    Ordinary { layer_id: usize },
    Rolling { first_layer: usize },
    Chunked { first_layer: usize },
}

/// The steps of an execution: the whole bounded wavefront, or the dense layers
/// one by one and a wavefront over the sparse ones, or all layers one by one.
pub open spec fn layer_work(setup: ExecutionSetup, facts: ModelFacts) -> Seq<LayerWork> {
    let ordinary = |n: nat|
        Seq::new(n, |i: int| LayerWork::Ordinary { layer_id: i as usize });
    if setup.bounded_wavefront {
        seq![LayerWork::Bounded]
    } else if setup.sparse_chunk_wavefront && facts.first_k_dense_replace
        < facts.num_hidden_layers {
        ordinary(facts.first_k_dense_replace as nat).push(
            if setup.rolling_wavefront {
                LayerWork::Rolling { first_layer: facts.first_k_dense_replace }
            } else {
                LayerWork::Chunked { first_layer: facts.first_k_dense_replace }
            },
        )
    } else {
        ordinary(facts.num_hidden_layers as nat)
    }
}

/// Plans the steps of an execution.
pub fn plan_layer_work(setup: &ExecutionSetup, facts: &ModelFacts) -> (work: Vec<LayerWork>)
    ensures
        work@ == layer_work(*setup, *facts),
{
    let mut work: Vec<LayerWork> = Vec::new();
    if setup.bounded_wavefront {
        work.push(LayerWork::Bounded);
        assert(work@ =~= layer_work(*setup, *facts));
        return work;
    }
    let mut layer_id: usize = 0;
    while layer_id < facts.num_hidden_layers
        invariant
            layer_id <= facts.num_hidden_layers,
            !setup.bounded_wavefront,
            setup.sparse_chunk_wavefront && facts.first_k_dense_replace < facts.num_hidden_layers
                ==> layer_id <= facts.first_k_dense_replace,
            work@ == Seq::new(
                layer_id as nat,
                |i: int| LayerWork::Ordinary { layer_id: i as usize },
            ),
        decreases facts.num_hidden_layers - layer_id,
    {
        if setup.sparse_chunk_wavefront && layer_id == facts.first_k_dense_replace {
            if setup.rolling_wavefront {
                work.push(LayerWork::Rolling { first_layer: layer_id });
            } else {
                work.push(LayerWork::Chunked { first_layer: layer_id });
            }
            assert(work@ =~= layer_work(*setup, *facts));
            return work;
        }
        work.push(LayerWork::Ordinary { layer_id });
        layer_id = layer_id + 1;
        assert(work@ =~= Seq::new(
            layer_id as nat,
            |i: int| LayerWork::Ordinary { layer_id: i as usize },
        ));
    }
    assert(work@ =~= layer_work(*setup, *facts));
    work
}

/// The step passes a layer.
pub open spec fn work_passes(work: LayerWork, layer: int) -> bool {
    match work {
        LayerWork::Bounded => true,
        LayerWork::Ordinary { layer_id } => layer == layer_id,
        LayerWork::Rolling { first_layer } => layer >= first_layer,
        LayerWork::Chunked { first_layer } => layer >= first_layer,
    }
}

/// Every target layer is passed by exactly one step of an execution.
pub proof fn law_every_layer_is_passed_once(setup: ExecutionSetup, facts: ModelFacts, layer: int)
    requires
        0 <= layer < facts.num_hidden_layers,
    ensures
        exists|i: int|
            0 <= i < layer_work(setup, facts).len() && work_passes(
                #[trigger] layer_work(setup, facts)[i],
                layer,
            ),
        forall|i: int, j: int|
            0 <= i < layer_work(setup, facts).len() && 0 <= j < layer_work(setup, facts).len()
                && work_passes(#[trigger] layer_work(setup, facts)[i], layer) && work_passes(
                #[trigger] layer_work(setup, facts)[j],
                layer,
            ) ==> i == j,
{
    let work = layer_work(setup, facts);
    if setup.bounded_wavefront {
        assert(work_passes(work[0], layer));
    } else if setup.sparse_chunk_wavefront && facts.first_k_dense_replace
        < facts.num_hidden_layers {
        if layer < facts.first_k_dense_replace {
            assert(work_passes(work[layer], layer));
        } else {
            assert(work_passes(work[facts.first_k_dense_replace as int], layer));
        }
    } else {
        assert(work_passes(work[layer], layer));
    }
}

/// The most prefill chunks of one layer whose expert results are outstanding.
pub const MAX_PIPELINED_PREFILL_DISPATCHES: usize = 2;

/// The chunks of one layer outside a wavefront: chunks are started in order,
/// and the results of a few may be outstanding while the next is started.
#[derive(Debug)]
pub struct PrefillPipeline {
    pub pending: Vec<usize>,
    pub next_chunk: usize,
}

/// What starting the next chunk does to a pipeline, and which result is due.
pub open spec fn pipeline_starts(
    before: PrefillPipeline,
    after: PrefillPipeline,
    outstanding: bool,
    due: Option<usize>,
) -> bool {
    let queue = if outstanding {
        before.pending@.push(before.next_chunk)
    } else {
        before.pending@
    };
    &&& after.next_chunk == before.next_chunk + 1
    &&& if queue.len() == MAX_PIPELINED_PREFILL_DISPATCHES {
        due == Some(queue[0]) && after.pending@ == queue.skip(1)
    } else {
        due is None && after.pending@ == queue
    }
}

impl PrefillPipeline {
    /// Fewer than the most chunks are outstanding, in the order in which they
    /// were started.
    pub open spec fn wf(&self) -> bool {
        &&& self.pending@.len() < MAX_PIPELINED_PREFILL_DISPATCHES
        &&& forall|i: int| 0 <= i < self.pending@.len() ==> #[trigger] self.pending@[i] < self.next_chunk
        &&& forall|i: int, j: int|
            0 <= i < j < self.pending@.len() ==> #[trigger] self.pending@[i] < #[trigger] self.pending@[j]
    }

    pub fn new() -> (pipeline: Self)
        ensures
            pipeline.wf(),
            pipeline.pending@ == Seq::<usize>::empty(),
            pipeline.next_chunk == 0,
    {
        PrefillPipeline { pending: Vec::new(), next_chunk: 0 }
    }

    /// Records that the next chunk was started; `outstanding` says whether its
    /// result is still to come. Gives the chunk whose result has to be awaited
    /// now: the oldest, where the most are outstanding.
    pub fn start(&mut self, outstanding: bool) -> (due: Option<usize>)
        requires
            old(self).wf(),
            old(self).next_chunk < usize::MAX,
        ensures
            final(self).wf(),
            pipeline_starts(*old(self), *final(self), outstanding, due),
    {
        if outstanding {
            self.pending.push(self.next_chunk);
        }
        self.next_chunk = self.next_chunk + 1;
        if self.pending.len() == MAX_PIPELINED_PREFILL_DISPATCHES {
            let ghost queue = self.pending@;
            let oldest: usize = self.pending.remove(0);
            assert(self.pending@ =~= queue.skip(1));
            Some(oldest)
        } else {
            None
        }
    }

    /// Records that the next chunk is applied at once. Gives the chunks whose
    /// results have to be awaited before, oldest first.
    pub fn apply(&mut self) -> (due: Vec<usize>)
        requires
            old(self).wf(),
            old(self).next_chunk < usize::MAX,
        ensures
            final(self).wf(),
            due@ == old(self).pending@,
            final(self).pending@ == Seq::<usize>::empty(),
            final(self).next_chunk == old(self).next_chunk + 1,
    {
        let due: Vec<usize> = self.drain();
        self.next_chunk = self.next_chunk + 1;
        due
    }

    /// Gives the chunks whose results have to be awaited at the end of the
    /// layer, oldest first.
    pub fn drain(&mut self) -> (due: Vec<usize>)
        requires
            old(self).wf(),
        ensures
            final(self).wf(),
            due@ == old(self).pending@,
            final(self).pending@ == Seq::<usize>::empty(),
            final(self).next_chunk == old(self).next_chunk,
    {
        let mut due: Vec<usize> = Vec::new();
        due.append(&mut self.pending);
        due
    }
}

/// What the graph pool of the coordinator counted.
#[derive(Clone, Copy, Debug, PartialEq, Eq, Structural)]
pub struct CoordinatorCudaGraphStats {
    pub slots: usize,
    pub captured_graphs: usize,
    pub graph_captures: usize,
    pub graph_launches: usize,
}

/// A difference that does not go below zero.
pub open spec fn gained(after: usize, before: usize) -> usize {
    if after >= before {
        (after - before) as usize
    } else {
        0
    }
}

/// What a request shows of the graph pool: the pool as it is, and the captures
/// and launches that the request added.
pub open spec fn request_graphs(
    before: Option<CoordinatorCudaGraphStats>,
    after: Option<CoordinatorCudaGraphStats>,
) -> CoordinatorCudaGraphStats {
    match (before, after) {
        (Some(before), Some(after)) => CoordinatorCudaGraphStats {
            slots: after.slots,
            captured_graphs: after.captured_graphs,
            graph_captures: gained(after.graph_captures, before.graph_captures),
            graph_launches: gained(after.graph_launches, before.graph_launches),
        },
        (None, Some(after)) => CoordinatorCudaGraphStats {
            slots: after.slots,
            captured_graphs: after.captured_graphs,
            graph_captures: 0,
            graph_launches: 0,
        },
        (_, None) => CoordinatorCudaGraphStats {
            slots: 0,
            captured_graphs: 0,
            graph_captures: 0,
            graph_launches: 0,
        },
    }
}

/// What a request shows of the graph pool.
pub fn request_graph_stats(
    before: Option<CoordinatorCudaGraphStats>,
    after: Option<CoordinatorCudaGraphStats>,
) -> (graphs: CoordinatorCudaGraphStats)
    ensures
        graphs == request_graphs(before, after),
{
    match after {
        None => CoordinatorCudaGraphStats {
            slots: 0,
            captured_graphs: 0,
            graph_captures: 0,
            graph_launches: 0,
        },
        Some(after) => match before {
            Some(before) => CoordinatorCudaGraphStats {
                slots: after.slots,
                captured_graphs: after.captured_graphs,
                graph_captures: after.graph_captures.saturating_sub(before.graph_captures),
                graph_launches: after.graph_launches.saturating_sub(before.graph_launches),
            },
            None => CoordinatorCudaGraphStats {
                slots: after.slots,
                captured_graphs: after.captured_graphs,
                graph_captures: 0,
                graph_launches: 0,
            },
        },
    }
}

/// What the key-value store of an execution counted.
#[derive(Clone, Copy, Debug, PartialEq, Eq, Structural)]
pub struct KvStoreCounts {
    pub committed_writes: usize,
    pub discarded_writes: usize,
    pub resident_bytes: usize,
    pub active_reservations: usize,
    pub backed_writes: usize,
    pub backed_bytes: usize,
}

/// What is reported of the key-value writes.
#[derive(Clone, Copy, Debug, PartialEq, Eq, Structural)]
pub struct SchedulerKvReportSummary {
    pub committed_mtp_writes: usize,
    pub discarded_mtp_writes: usize,
    pub backed_kv_writes: usize,
    pub backed_bytes_after_discard: usize,
    pub kv_reservation_bytes: usize,
    pub byte_backed_scheduler_trace: bool,
}

/// A live request reports its reservation and its committed writes; another
/// one what its own store counted.
pub open spec fn kv_report(
    store: KvStoreCounts,
    shape: RealFullSchedulerExecutionShape,
    kv_bytes_per_token: usize,
    committed_kv_writes: usize,
    live: bool,
) -> SchedulerKvReportSummary {
    if live {
        SchedulerKvReportSummary {
            committed_mtp_writes: 0,
            discarded_mtp_writes: 0,
            backed_kv_writes: committed_kv_writes,
            backed_bytes_after_discard: 0,
            kv_reservation_bytes: (shape.span() * kv_bytes_per_token) as usize,
            byte_backed_scheduler_trace: false,
        }
    } else {
        SchedulerKvReportSummary {
            committed_mtp_writes: store.committed_writes,
            discarded_mtp_writes: store.discarded_writes,
            backed_kv_writes: store.backed_writes,
            backed_bytes_after_discard: store.backed_bytes,
            kv_reservation_bytes: store.resident_bytes,
            byte_backed_scheduler_trace: store.backed_writes == committed_kv_writes
                + store.committed_writes && store.backed_bytes <= store.resident_bytes
                && store.active_reservations == 1,
        }
    }
}

/// What is reported of the key-value writes of an execution.
pub fn scheduler_kv_report_summary(
    store: &KvStoreCounts,
    shape: &RealFullSchedulerExecutionShape,
    kv_bytes_per_token: usize,
    counters: &RealFullSchedulerExecutionCounters,
    live: bool,
) -> (summary: SchedulerKvReportSummary)
    requires
        live ==> shape.span() <= usize::MAX && shape.span() * kv_bytes_per_token <= usize::MAX,
        !live ==> counters.committed_kv_writes + store.committed_writes <= usize::MAX,
    ensures
        summary == kv_report(
            *store,
            *shape,
            kv_bytes_per_token,
            counters.committed_kv_writes,
            live,
        ),
{
    if live {
        return SchedulerKvReportSummary {
            committed_mtp_writes: 0,
            discarded_mtp_writes: 0,
            backed_kv_writes: counters.committed_kv_writes,
            backed_bytes_after_discard: 0,
            kv_reservation_bytes: shape.reservation_tokens() * kv_bytes_per_token,
            byte_backed_scheduler_trace: false,
        };
    }
    let byte_backed: bool = store.backed_writes == counters.committed_kv_writes
        + store.committed_writes && store.backed_bytes <= store.resident_bytes
        && store.active_reservations == 1;
    SchedulerKvReportSummary {
        committed_mtp_writes: store.committed_writes,
        discarded_mtp_writes: store.discarded_writes,
        backed_kv_writes: store.backed_writes,
        backed_bytes_after_discard: store.backed_bytes,
        kv_reservation_bytes: store.resident_bytes,
        byte_backed_scheduler_trace: byte_backed,
    }
}

/// What the device cache of an execution shows.
#[derive(Clone, Copy, Debug)]
pub struct DeviceKvSummary {
    pub status: &'static str,
    pub writes: usize,
    pub reads: usize,
    pub bytes: usize,
    pub uses_device_kv_cache: bool,
    pub scheduler_attention_resident_uploads: usize,
    pub scheduler_attention_resident_buffer_uses: usize,
    pub scheduler_attention_resident_query_shapes: usize,
}

/// What the runtime hands over once all layers are done. `sample_outcome` is
/// the score of the final decode row, or what scoring it failed with; it is
/// not read where sampling is deferred.
#[derive(Debug)]
pub struct ExecutionOutcome {
    pub counters: RealFullSchedulerExecutionCounters,
    pub numeric_progression_passed: bool,
    pub final_decode_hidden_dim: Option<usize>,
    pub sample_outcome: Result<RealLmHeadChunkScoreForHidden, String>,
    pub store: KvStoreCounts,
    pub device_kv: DeviceKvSummary,
    pub graphs_before: Option<CoordinatorCudaGraphStats>,
    pub graphs_after: Option<CoordinatorCudaGraphStats>,
}

/// What the report needs to know of the runtime.
#[derive(Clone, Copy, Debug, PartialEq, Eq, Structural)]
pub struct ReportSettings {
    pub retain_final_target_device_hidden: bool,
    pub defer_terminal_lm_head_sample: bool,
    pub live: bool,
    pub kv_bytes_per_token: usize,
    pub fusion_max_rows: usize,
}

/// The report of an execution.
#[derive(Debug)]
pub struct RealFullSchedulerExecutionDryRun {
    pub status: &'static str,
    pub scope: &'static str,
    pub request_prefill_tokens: usize,
    pub request_prefill_chunks: usize,
    pub request_decode_rows: usize,
    pub request_mtp_verify_rows: usize,
    pub request_mtp_accepted_rows: usize,
    pub request_coordinator_graphs: CoordinatorCudaGraphStats,
    pub counters: RealFullSchedulerExecutionCounters,
    pub kv: SchedulerKvReportSummary,
    pub device_kv: DeviceKvSummary,
    pub device_attention_status: &'static str,
    pub uses_device_kv_attention: bool,
    pub full_context_device_attention_complete: bool,
    pub numeric_progression_passed: bool,
    pub terminal_lm_head_sample: RealFullSchedulerTerminalLmHeadSample,
    pub layer_order_verified: bool,
}

/// Sampling of the terminal row is left to the retained target batch.
pub open spec fn sample_deferred(
    shape: RealFullSchedulerExecutionShape,
    settings: ReportSettings,
) -> bool {
    settings.retain_final_target_device_hidden && (shape.mtp_rows > 0
        || settings.defer_terminal_lm_head_sample)
}

/// The terminal sample of a report.
pub open spec fn reported_sample_ok(
    sample: RealFullSchedulerTerminalLmHeadSample,
    shape: RealFullSchedulerExecutionShape,
    outcome: ExecutionOutcome,
    settings: ReportSettings,
    backends: LmHeadBackends,
) -> bool {
    let dim = outcome.final_decode_hidden_dim;
    if sample_deferred(shape, settings) {
        match dim {
            None => empty_sample_ok(
                sample,
                "not-run"@,
                "defer speculative terminal sampling to the retained target hidden batch"@,
                None,
                false,
            ) && sample.blocker == Some(TerminalBlocker::DeferredHiddenUnavailable),
            Some(_) => empty_sample_ok(
                sample,
                "deferred-target-batch"@,
                "defer speculative terminal sampling to the retained target hidden batch"@,
                dim,
                true,
            ) && sample.blocker is None,
        }
    } else {
        match (dim, outcome.sample_outcome) {
            (None, _) => empty_sample_ok(
                sample,
                "not-run"@,
                "sample from the scheduler final decode device hidden row through the full-resident BF16 lm_head sampler"@,
                None,
                false,
            ) && sample.blocker == Some(TerminalBlocker::HiddenUnavailable),
            (Some(_), Err(error)) => empty_sample_ok(
                sample,
                "blocked"@,
                "sample from the scheduler final-normed decode device hidden row through the full-resident BF16 lm_head sampler"@,
                dim,
                false,
            ) && sample.blocker == Some(TerminalBlocker::Failed(error)),
            (Some(_), Ok(score)) => scored_sample_ok(sample, score, backends),
        }
    }
}

/// The report says what the outcome shows.
pub open spec fn report_ok(
    report: RealFullSchedulerExecutionDryRun,
    facts: ModelFacts,
    shape: RealFullSchedulerExecutionShape,
    outcome: ExecutionOutcome,
    settings: ReportSettings,
    backends: LmHeadBackends,
) -> bool {
    let complete = attention_complete(
        shape,
        outcome.counters,
        outcome.numeric_progression_passed,
        outcome.device_kv.uses_device_kv_cache,
        facts.num_hidden_layers as int,
        facts.hidden_size as int,
        settings.fusion_max_rows as int,
    );
    &&& report.status@ == completion_status(report.terminal_lm_head_sample, complete)
    &&& report.scope@
        == "admit full-layer prefix-prefill, later-prefill, decode, and MTP waves, then apply selected host/device KV I/O and sparse ExpertBatch records"@
    &&& report.request_prefill_tokens == shape.prefill_tokens
    &&& report.request_prefill_chunks == shape.counts().len()
    &&& report.request_decode_rows == shape.decode_rows
    &&& report.request_mtp_verify_rows == shape.mtp_rows
    &&& report.request_mtp_accepted_rows == shape.mtp_accepted_rows
    &&& report.request_coordinator_graphs == request_graphs(
        outcome.graphs_before,
        outcome.graphs_after,
    )
    &&& report.counters == outcome.counters
    &&& report.kv == kv_report(
        outcome.store,
        shape,
        settings.kv_bytes_per_token,
        outcome.counters.committed_kv_writes,
        settings.live,
    )
    &&& report.device_kv == outcome.device_kv
    &&& report.device_attention_status@ == (match outcome.counters.device_attention_status {
        Some(status) => status@,
        None => "not-run"@,
    })
    &&& report.uses_device_kv_attention == (outcome.counters.device_attention_launches > 0)
    &&& report.full_context_device_attention_complete == complete
    &&& report.numeric_progression_passed == outcome.numeric_progression_passed
    &&& reported_sample_ok(
        report.terminal_lm_head_sample,
        shape,
        outcome,
        settings,
        backends,
    )
    &&& report.layer_order_verified == outcome.counters.layer_order_verified
}

/// The numbers of the report can be counted.
pub open spec fn report_countable(
    facts: ModelFacts,
    shape: RealFullSchedulerExecutionShape,
    outcome: ExecutionOutcome,
    settings: ReportSettings,
) -> bool {
    let layers = facts.num_hidden_layers;
    &&& shape.span() <= usize::MAX
    &&& layer_launches_max(shape) <= usize::MAX
    &&& layers * layer_launches_max(shape) <= usize::MAX
    &&& layer_context_rows(shape) <= usize::MAX
    &&& layers * layer_context_rows(shape) <= usize::MAX
    &&& layers * layer_query_rows(shape) <= usize::MAX
    &&& layers * layer_query_rows(shape) * facts.hidden_size <= usize::MAX
    &&& settings.live ==> shape.span() * settings.kv_bytes_per_token <= usize::MAX
    &&& !settings.live ==> outcome.counters.committed_kv_writes + outcome.store.committed_writes
        <= usize::MAX
}

/// The report of an execution whose layers are done.
pub fn finish_scheduler_execution(
    facts: &ModelFacts,
    shape: &RealFullSchedulerExecutionShape,
    outcome: ExecutionOutcome,
    settings: ReportSettings,
    backends: &LmHeadBackends,
) -> (report: RealFullSchedulerExecutionDryRun)
    requires
        report_countable(*facts, *shape, outcome, settings),
    ensures
        report_ok(report, *facts, *shape, outcome, settings, *backends),
{
    let complete: bool = scheduler_full_context_device_attention_complete_for_layers(
        shape,
        &outcome.counters,
        outcome.numeric_progression_passed,
        outcome.device_kv.uses_device_kv_cache,
        facts.num_hidden_layers,
        facts.hidden_size,
        settings.fusion_max_rows,
    );
    let kv: SchedulerKvReportSummary = scheduler_kv_report_summary(
        &outcome.store,
        shape,
        settings.kv_bytes_per_token,
        &outcome.counters,
        settings.live,
    );
    let sample = if scheduler_should_defer_target_lm_head_sample(
        settings.retain_final_target_device_hidden,
        shape.mtp_rows,
        settings.defer_terminal_lm_head_sample,
    ) {
        scheduler_deferred_target_lm_head_sample(outcome.final_decode_hidden_dim)
    } else {
        scheduler_terminal_lm_head_sample(
            outcome.final_decode_hidden_dim,
            outcome.sample_outcome,
            backends,
        )
    };
    let status: &'static str = scheduler_execution_status_for_completion(&sample, complete);
    let device_attention_status: &'static str = match outcome.counters.device_attention_status {
        Some(status) => status,
        None => "not-run",
    };
    RealFullSchedulerExecutionDryRun {
        status,
        scope: "admit full-layer prefix-prefill, later-prefill, decode, and MTP waves, then apply selected host/device KV I/O and sparse ExpertBatch records",
        request_prefill_tokens: shape.prefill_tokens,
        request_prefill_chunks: scheduler_prefill_chunk_count(shape),
        request_decode_rows: shape.decode_rows,
        request_mtp_verify_rows: shape.mtp_rows,
        request_mtp_accepted_rows: shape.mtp_accepted_rows,
        request_coordinator_graphs: request_graph_stats(
            outcome.graphs_before,
            outcome.graphs_after,
        ),
        kv,
        device_kv: outcome.device_kv,
        device_attention_status,
        uses_device_kv_attention: outcome.counters.device_attention_launches > 0,
        full_context_device_attention_complete: complete,
        numeric_progression_passed: outcome.numeric_progression_passed,
        terminal_lm_head_sample: sample,
        layer_order_verified: outcome.counters.layer_order_verified,
        counters: outcome.counters,
    }
}

/// The report of one request of a batched live execution, which never leaves
/// the terminal sample to the caller on its own account.
pub fn finish_stateful_scheduler_execution(
    facts: &ModelFacts,
    shape: &RealFullSchedulerExecutionShape,
    outcome: ExecutionOutcome,
    retain_final_target_device_hidden: bool,
    kv_bytes_per_token: usize,
    fusion_max_rows: usize,
    backends: &LmHeadBackends,
) -> (report: RealFullSchedulerExecutionDryRun)
    requires
        report_countable(
            *facts,
            *shape,
            outcome,
            (ReportSettings {
                retain_final_target_device_hidden,
                defer_terminal_lm_head_sample: false,
                live: true,
                kv_bytes_per_token,
                fusion_max_rows,
            }),
        ),
    ensures
        report_ok(
            report,
            *facts,
            *shape,
            outcome,
            (ReportSettings {
                retain_final_target_device_hidden,
                defer_terminal_lm_head_sample: false,
                live: true,
                kv_bytes_per_token,
                fusion_max_rows,
            }),
            *backends,
        ),
{
    finish_scheduler_execution(
        facts,
        shape,
        outcome,
        ReportSettings {
            retain_final_target_device_hidden,
            defer_terminal_lm_head_sample: false,
            live: true,
            kv_bytes_per_token,
            fusion_max_rows,
        },
        backends,
    )
}

/// A report says that its sample was taken only where attention covered the
/// full context and the sample passed.
pub proof fn law_sampled_status_needs_full_attention(
    report: RealFullSchedulerExecutionDryRun,
    facts: ModelFacts,
    shape: RealFullSchedulerExecutionShape,
    outcome: ExecutionOutcome,
    settings: ReportSettings,
    backends: LmHeadBackends,
)
    requires
        report_ok(report, facts, shape, outcome, settings, backends),
        report.status@ == "admitted-scheduler-terminal-lm-head-sampled"@,
    ensures
        report.terminal_lm_head_sample.passed,
        report.full_context_device_attention_complete,
        outcome.numeric_progression_passed,
        outcome.counters.layer_order_verified,
        outcome.final_decode_hidden_dim is Some,
{
    reveal_strlit("admitted-scheduler-terminal-lm-head-sampled");
    reveal_strlit("admitted-scheduler-terminal-lm-head-blocked");
    reveal_strlit("admitted-scheduler-dry-run");
    assert("admitted-scheduler-terminal-lm-head-sampled"@[36] == 's');
    assert("admitted-scheduler-terminal-lm-head-blocked"@[36] == 'b');
    assert("admitted-scheduler-dry-run"@.len() == 26);
}

} // verus!
