//! How an execution plan, the dry run of its scheduler and the dry run of its
//! residual stream agree: what is planned for a model is what the dry runs count.
use vstd::prelude::*;

use crate::execution_plan::{
    execution_plan_ok, layer_plan_ok, plan_fits, request_wire, PreflightRows, ProtocolLengths,
    RealFullExecutionPlan, RealFullLayerExecutionPlan,
};
use crate::model::ModelFacts;
use crate::residual::{
    law_planned_layers_are_in_order, mixed_state, residual_layer_ok, state_after, stream_dry_run_ok,
    RealFullResidualStreamDryRun, RESIDUAL_HASH_PRIME, RESIDUAL_HASH_SEED,
};
use crate::scheduler::{
    decode_reads, decode_writes, dry_run_ok, layers_with, prefill_reads, prefill_writes,
    tentative_writes, verify_reads, PreflightRequest, PreflightWaves, RealFullExpertBatchDryRun,
    RealFullLayerSchedulerDryRun, RealFullSchedulerDryRun,
};

verus! {

/// How many of the first `n` layers of a plan have a property.
pub open spec fn planned_with(
    layers: Seq<RealFullLayerExecutionPlan>,
    property: spec_fn(RealFullLayerExecutionPlan) -> bool,
    n: int,
) -> int
    decreases n,
{
    if n <= 0 {
        0
    } else {
        planned_with(layers, property, n - 1) + (if property(layers[n - 1]) {
            1int
        } else {
            0int
        })
    }
}

/// The residual additions of the first `n` layers of a plan.
pub open spec fn planned_adds(layers: Seq<RealFullLayerExecutionPlan>, n: int) -> int
    decreases n,
{
    if n <= 0 {
        0
    } else {
        planned_adds(layers, n - 1) + layers[n - 1].residual_adds
    }
}

/// Two requests for parts of a batch cost one header more than the request for
/// the whole batch; each row costs its descriptor, and each route its entry.
pub proof fn law_splitting_a_request_costs_a_header(
    lens: ProtocolLengths,
    rows: int,
    routes: int,
    payload: int,
    more_rows: int,
    more_routes: int,
    more_payload: int,
)
    ensures
        request_wire(lens, rows, routes, payload) + request_wire(
            lens,
            more_rows,
            more_routes,
            more_payload,
        ) == request_wire(lens, rows + more_rows, routes + more_routes, payload + more_payload)
            + lens.request_header,
        request_wire(lens, 0, 0, 0) == lens.request_header,
        request_wire(lens, rows + 1, routes, payload) == request_wire(lens, rows, routes, payload)
            + lens.row_descriptor,
        request_wire(lens, rows, routes + 1, payload) == request_wire(lens, rows, routes, payload)
            + lens.route_entry,
        request_wire(lens, rows, routes, payload + 1) == request_wire(lens, rows, routes, payload)
            + 1,
{
    let row = lens.row_descriptor as int;
    let entry = lens.route_entry as int;
    assert((rows + more_rows) * row == rows * row + more_rows * row) by (nonlinear_arith);
    assert((routes + more_routes) * entry == routes * entry + more_routes * entry)
        by (nonlinear_arith);
    assert((rows + 1) * row == rows * row + row) by (nonlinear_arith);
    assert((routes + 1) * entry == routes * entry + entry) by (nonlinear_arith);
    assert(0 * row == 0 && 0 * entry == 0);
}

/// What a plan says that one kind of batch moves to and from a host, in terms of
/// the rows of the batch.
pub open spec fn moves_rows(
    plan: RealFullExecutionPlan,
    top_k: int,
    rows: int,
    routes: int,
    host_routes: int,
    logical_request: int,
    logical_response: int,
    wire_request: int,
    wire_response: int,
    full_logical: int,
    full_wire: int,
) -> bool {
    let p = plan.protocol_payloads;
    let exchanges = plan.sparse_layer_count * p.max_touched_expert_hosts;
    &&& routes == rows * top_k
    &&& host_routes == routes
    &&& logical_request == rows * plan.hidden_bytes_per_row
    &&& logical_response == logical_request
    &&& wire_request - logical_request == p.request_header_bytes + rows * p.row_descriptor_bytes
        + routes * p.route_entry_bytes
    &&& wire_response - logical_response == p.response_header_bytes
    &&& full_logical == exchanges * (logical_request + logical_response)
    &&& full_wire == exchanges * (wire_request + wire_response)
}

/// Every host gets every row of a batch once per sparse layer and sends it back:
/// the numbers of each kind of batch follow from the rows of its own kind.
pub proof fn law_plan_moves_every_row_to_every_host(
    plan: RealFullExecutionPlan,
    hosts: int,
    kv_bytes_per_token: usize,
    facts: ModelFacts,
    rows: PreflightRows,
    lens: ProtocolLengths,
)
    requires
        hosts >= 0,
        plan_fits(facts, hosts, rows, lens),
        execution_plan_ok(plan, hosts, kv_bytes_per_token, facts, rows, lens),
    ensures
        ({
            let p = plan.protocol_payloads;
            let top_k = facts.top_k as int;
            &&& p.max_touched_expert_hosts == hosts
            &&& p.request_header_bytes == lens.request_header
            &&& p.response_header_bytes == lens.response_header
            &&& p.row_descriptor_bytes == lens.row_descriptor
            &&& p.route_entry_bytes == lens.route_entry
            &&& p.sparse_decode_roundtrips_per_token == plan.sparse_layer_count
            &&& p.sparse_prefill_roundtrips_per_chunk == plan.sparse_layer_count
            &&& plan.hidden_bytes_per_row == plan.hidden_dim + plan.hidden_dim
            &&& plan.decode_rows == rows.decode_rows
            &&& plan.prefill_chunk_rows == rows.prefill_rows
            &&& plan.mtp_verify_rows == rows.mtp_rows
            &&& plan.kv_semantics.bytes_per_token == kv_bytes_per_token
            &&& moves_rows(
                plan,
                top_k,
                plan.decode_rows as int,
                p.routes_per_decode_sparse_layer as int,
                p.routes_per_decode_touched_host as int,
                p.decode_logical_request_bytes_per_touched_host as int,
                p.decode_logical_response_bytes_per_touched_host as int,
                p.decode_wire_request_bytes_per_touched_host as int,
                p.decode_wire_response_bytes_per_touched_host as int,
                p.decode_full_sparse_roundtrip_logical_bytes as int,
                p.decode_full_sparse_roundtrip_wire_bytes as int,
            )
            &&& moves_rows(
                plan,
                top_k,
                plan.prefill_chunk_rows as int,
                p.routes_per_prefill_sparse_layer as int,
                p.routes_per_prefill_touched_host as int,
                p.prefill_logical_request_bytes_per_touched_host as int,
                p.prefill_logical_response_bytes_per_touched_host as int,
                p.prefill_wire_request_bytes_per_touched_host as int,
                p.prefill_wire_response_bytes_per_touched_host as int,
                p.prefill_full_sparse_roundtrip_logical_bytes as int,
                p.prefill_full_sparse_roundtrip_wire_bytes as int,
            )
            &&& moves_rows(
                plan,
                top_k,
                plan.mtp_verify_rows as int,
                p.routes_per_mtp_sparse_layer as int,
                p.routes_per_mtp_touched_host as int,
                p.mtp_logical_request_bytes_per_touched_host as int,
                p.mtp_logical_response_bytes_per_touched_host as int,
                p.mtp_wire_request_bytes_per_touched_host as int,
                p.mtp_wire_response_bytes_per_touched_host as int,
                p.mtp_full_sparse_roundtrip_logical_bytes as int,
                p.mtp_full_sparse_roundtrip_wire_bytes as int,
            )
        }),
{
    let spread = plan.sparse_layer_count * hosts;
    let width = plan.hidden_bytes_per_row as int;
    assert forall|n: int| #[trigger] (spread * (n * width) * 2) == spread * (n * width + n * width) by {
        let one = n * width;
        assert(spread * one * 2 == spread * (one + one)) by (nonlinear_arith);
    }
}

proof fn lemma_planned(layers: Seq<RealFullLayerExecutionPlan>, facts: ModelFacts, n: int)
    requires
        0 <= n <= layers.len(),
        forall|i: int| 0 <= i < layers.len() ==> layer_plan_ok(#[trigger] layers[i], i, facts),
    ensures
        planned_with(
            layers,
            |l: RealFullLayerExecutionPlan| l.mlp.dense_mlp_on_coordinator,
            n,
        ) == (if n <= facts.first_k_dense_replace {
            n
        } else {
            facts.first_k_dense_replace as int
        }),
        planned_with(
            layers,
            |l: RealFullLayerExecutionPlan| l.mlp.routed_nvfp4_expert_exchange,
            n,
        ) == (if n <= facts.first_k_dense_replace {
            0
        } else {
            n - facts.first_k_dense_replace
        }),
        planned_with(
            layers,
            |l: RealFullLayerExecutionPlan| l.attention.qkv_projection,
            n,
        ) == n,
        planned_with(
            layers,
            |l: RealFullLayerExecutionPlan| l.attention.compressed_kv_read_write,
            n,
        ) == n,
        planned_adds(layers, n) == 2 * n,
    decreases n,
{
    if n > 0 {
        lemma_planned(layers, facts, n - 1);
        assert(layer_plan_ok(layers[n - 1], n - 1, facts));
    }
}

/// The counts of a plan are the counts of its layers, which are either dense and
/// run on the coordinator alone, or sparse and route every row to the experts.
pub proof fn law_plan_counts_its_layers(
    plan: RealFullExecutionPlan,
    hosts: int,
    kv_bytes_per_token: usize,
    facts: ModelFacts,
    rows: PreflightRows,
    lens: ProtocolLengths,
)
    requires
        plan_fits(facts, hosts, rows, lens),
        execution_plan_ok(plan, hosts, kv_bytes_per_token, facts, rows, lens),
    ensures
        ({
            let layers = plan.layers@;
            let n = layers.len() as int;
            let dense = planned_with(
                layers,
                |l: RealFullLayerExecutionPlan| l.mlp.dense_mlp_on_coordinator,
                n,
            );
            let sparse = planned_with(
                layers,
                |l: RealFullLayerExecutionPlan| l.mlp.routed_nvfp4_expert_exchange,
                n,
            );
            let counts = plan.stage_counts;
            &&& plan.layer_count == n
            &&& dense + sparse == n
            &&& plan.dense_layer_count == dense
            &&& plan.sparse_layer_count == sparse
            &&& counts.dense_mlp_layers == dense
            &&& counts.sparse_moe_layers == sparse
            &&& counts.remote_expert_exchange_layers == sparse
            &&& counts.attention_layers == planned_with(
                layers,
                |l: RealFullLayerExecutionPlan| l.attention.qkv_projection,
                n,
            )
            &&& counts.compressed_kv_layers == planned_with(
                layers,
                |l: RealFullLayerExecutionPlan| l.attention.compressed_kv_read_write,
                n,
            )
            &&& counts.residual_add_boundaries == planned_adds(layers, n)
            &&& plan.scheduler_contract.dense_layers_run_on_coordinator == dense
            &&& plan.scheduler_contract.sparse_layers_require_expert_batches == sparse
            &&& plan.scheduler_contract.sampling_after_layer_count == n
            &&& forall|i: int|
                0 <= i < n ==> {
                    let layer = #[trigger] layers[i];
                    &&& layer.layer_id == i
                    &&& layer.mlp.dense_mlp_on_coordinator
                        <==> !layer.mlp.routed_nvfp4_expert_exchange
                    &&& layer.mlp.router_on_coordinator <==> layer.mlp.routed_nvfp4_expert_exchange
                    &&& layer.mlp.shared_expert_on_coordinator
                        <==> layer.mlp.routed_nvfp4_expert_exchange
                    &&& layer.mlp.dense_mlp_on_coordinator ==> layer.mlp.routes_per_row == 0
                    &&& layer.mlp.routed_nvfp4_expert_exchange ==> layer.mlp.routes_per_row
                        == facts.top_k
                    &&& i > 0 && layer.mlp.dense_mlp_on_coordinator
                        ==> layers[i - 1].mlp.dense_mlp_on_coordinator
                }
        }),
{
    lemma_planned(plan.layers@, facts, plan.layers@.len() as int);
    assert forall|i: int| 0 < i < plan.layers@.len() implies layer_plan_ok(
        #[trigger] plan.layers@[i - 1],
        i - 1,
        facts,
    ) by {}
}

/// The residual stream of a plan finds the layers of the plan in order and counts
/// its layers, additions and rows.
pub proof fn law_residual_run_counts_the_plan(
    run: RealFullResidualStreamDryRun,
    plan: RealFullExecutionPlan,
    hosts: int,
    kv_bytes_per_token: usize,
    facts: ModelFacts,
    rows: PreflightRows,
    lens: ProtocolLengths,
)
    requires
        plan_fits(facts, hosts, rows, lens),
        execution_plan_ok(plan, hosts, kv_bytes_per_token, facts, rows, lens),
        stream_dry_run_ok(run, plan, facts.hidden_size, facts.first_k_dense_replace, rows),
    ensures
        run.layer_order_verified,
        run.layer_count == plan.layer_count,
        run.dense_layers == plan.dense_layer_count,
        run.sparse_layers == plan.sparse_layer_count,
        run.remote_sparse_layers == plan.stage_counts.remote_expert_exchange_layers,
        run.attention_residual_adds == plan.stage_counts.attention_layers,
        run.attention_residual_adds + run.mlp_residual_adds
            == plan.stage_counts.residual_add_boundaries,
        run.total_residual_adds == plan.stage_counts.residual_add_boundaries,
        run.row_count == plan.decode_rows + plan.mtp_verify_rows + plan.prefill_chunk_rows,
        run.terminal_rows == run.row_count,
        run.hidden_dim == plan.hidden_dim,
        run.hidden_bytes_per_row == plan.hidden_bytes_per_row,
        run.residual_state_bytes == run.row_count * plan.hidden_bytes_per_row,
        run.layer_dry_runs@.len() == plan.layer_count,
{
    let layers = plan.layers@;
    law_planned_layers_are_in_order(layers, facts, layers.len() as int);
}

proof fn lemma_state_step(layers: Seq<RealFullLayerExecutionPlan>, rows: usize, n: int)
    requires
        n > 0,
    ensures
        state_after(layers, rows, n) == mixed_state(
            mixed_state(state_after(layers, rows, n - 1), layers[n - 1].layer_id, rows, false),
            layers[n - 1].layer_id,
            rows,
            true,
        ),
{
}

/// The residual stream passes the layers one after the other: each layer mixes
/// its attention and its MLP boundary into the state of the layer before it, the
/// first into the seed, and the last state is the final one.
pub proof fn law_residual_state_is_chained(
    run: RealFullResidualStreamDryRun,
    plan: RealFullExecutionPlan,
    hidden_size: usize,
    facts: ModelFacts,
    rows: PreflightRows,
    i: int,
)
    requires
        stream_dry_run_ok(run, plan, hidden_size, facts.first_k_dense_replace, rows),
        0 <= i < plan.layers@.len(),
        layer_plan_ok(plan.layers@[i], i, facts),
    ensures
        ({
            let layer = run.layer_dry_runs@[i];
            let entered = if i == 0 {
                RESIDUAL_HASH_SEED
            } else {
                run.layer_dry_runs@[i - 1].residual_state_hash
            };
            let attended = mixed_state(entered, layer.layer_id, run.row_count, false);
            &&& layer.layer_id == i
            &&& layer.layer_order_verified
            &&& layer.layer_kind@ == layer.mlp_kind@
            &&& layer.routed_expert_exchange == plan.layers@[i].mlp.routed_nvfp4_expert_exchange
            &&& layer.input_rows == run.row_count
            &&& layer.output_rows == run.row_count
            &&& layer.residual_state_bytes == run.residual_state_bytes
            &&& layer.attention_residual_boundary
            &&& layer.mlp_residual_boundary
            &&& layer.residual_state_hash == mixed_state(
                attended,
                layer.layer_id,
                run.row_count,
                true,
            )
            &&& i == plan.layers@.len() - 1 ==> run.final_residual_state_hash
                == layer.residual_state_hash
        }),
{
    let layers = plan.layers@;
    lemma_state_step(layers, run.row_count, i + 1);
    assert(residual_layer_ok(
        run.layer_dry_runs@[i],
        layers,
        run.row_count,
        run.residual_state_bytes,
        i,
    ));
    if i > 0 {
        assert(residual_layer_ok(
            run.layer_dry_runs@[i - 1],
            layers,
            run.row_count,
            run.residual_state_bytes,
            i - 1,
        ));
    }
}

/// How many of the first `n` layers of a dry run have a property.
pub open spec fn run_with(
    runs: Seq<RealFullLayerSchedulerDryRun>,
    property: spec_fn(RealFullLayerSchedulerDryRun) -> bool,
    n: int,
) -> int
    decreases n,
{
    if n <= 0 {
        0
    } else {
        run_with(runs, property, n - 1) + (if property(runs[n - 1]) {
            1int
        } else {
            0int
        })
    }
}

/// The tentative writes that the first `n` layers of a dry run show.
pub open spec fn run_tentative_writes(runs: Seq<RealFullLayerSchedulerDryRun>, n: int) -> int
    decreases n,
{
    if n <= 0 {
        0
    } else {
        run_tentative_writes(runs, n - 1) + runs[n - 1].mtp_verify.tentative_kv_writes
    }
}

/// A batch holds the rows of the three waves of a layer, and as many routes as a
/// row has for each of them.
pub open spec fn batch_holds_waves(
    batch: RealFullExpertBatchDryRun,
    layer: RealFullLayerSchedulerDryRun,
    top_k: int,
) -> bool {
    &&& batch.rows == layer.decode.rows + layer.prefill.rows + layer.mtp_verify.rows
    &&& batch.routes == batch.rows * top_k
}

proof fn lemma_run_counts(
    run: RealFullSchedulerDryRun,
    catalog_hash: Seq<char>,
    facts: ModelFacts,
    waves: Seq<PreflightWaves>,
    request: PreflightRequest,
    graph_bucket_rows: usize,
    n: int,
)
    requires
        0 <= n <= facts.num_hidden_layers,
        dry_run_ok(run, catalog_hash, facts, waves, request, graph_bucket_rows),
    ensures
        layers_with(waves, decode_reads(), n) == run_with(
            run.layer_dry_runs@,
            |l: RealFullLayerSchedulerDryRun| l.decode.kv_reads > 0,
            n,
        ),
        layers_with(waves, decode_writes(), n) == run_with(
            run.layer_dry_runs@,
            |l: RealFullLayerSchedulerDryRun| l.decode.kv_writes > 0,
            n,
        ),
        layers_with(waves, prefill_reads(), n) == run_with(
            run.layer_dry_runs@,
            |l: RealFullLayerSchedulerDryRun| l.prefill.kv_reads > 0,
            n,
        ),
        layers_with(waves, prefill_writes(), n) == run_with(
            run.layer_dry_runs@,
            |l: RealFullLayerSchedulerDryRun| l.prefill.kv_writes > 0,
            n,
        ),
        layers_with(waves, verify_reads(), n) == run_with(
            run.layer_dry_runs@,
            |l: RealFullLayerSchedulerDryRun| l.mtp_verify.kv_reads > 0,
            n,
        ),
        tentative_writes(waves, n) == run_tentative_writes(run.layer_dry_runs@, n),
        run_with(
            run.layer_dry_runs@,
            |l: RealFullLayerSchedulerDryRun| l.expert_batch is Some,
            n,
        ) == (if n <= facts.first_k_dense_replace {
            0
        } else {
            n - facts.first_k_dense_replace
        }),
        run_with(
            run.layer_dry_runs@,
            |l: RealFullLayerSchedulerDryRun| l.expert_batch is None,
            n,
        ) == (if n <= facts.first_k_dense_replace {
            n
        } else {
            facts.first_k_dense_replace as int
        }),
    decreases n,
{
    if n > 0 {
        lemma_run_counts(run, catalog_hash, facts, waves, request, graph_bucket_rows, n - 1);
        let last = run.layer_dry_runs@[n - 1];
        assert(last.layer_id == n - 1);
    }
}

/// The totals of a scheduler dry run are the counts over the layers that it
/// lists: three waves for every layer, a mixed batch of all three for every
/// sparse layer, and the layers that read and write keys and values.
pub proof fn law_dry_run_totals_are_counts_of_its_layers(
    run: RealFullSchedulerDryRun,
    catalog_hash: Seq<char>,
    facts: ModelFacts,
    waves: Seq<PreflightWaves>,
    request: PreflightRequest,
    graph_bucket_rows: usize,
)
    requires
        facts.first_k_dense_replace < facts.num_hidden_layers,
        dry_run_ok(run, catalog_hash, facts, waves, request, graph_bucket_rows),
    ensures
        ({
            let runs = run.layer_dry_runs@;
            let n = runs.len() as int;
            let top_k = facts.top_k as int;
            &&& run.decode_layerwaves == n
            &&& run.prefill_layerwaves == n
            &&& run.mtp_verify_layerwaves == n
            &&& run.total_layerwaves == run.decode_layerwaves + run.prefill_layerwaves
                + run.mtp_verify_layerwaves
            &&& run.sparse_expert_batches == run_with(
                runs,
                |l: RealFullLayerSchedulerDryRun| l.expert_batch is Some,
                n,
            )
            &&& run.dense_coordinator_layers == run_with(
                runs,
                |l: RealFullLayerSchedulerDryRun| l.expert_batch is None,
                n,
            )
            &&& run.decode_prefix_read_layers == run_with(
                runs,
                |l: RealFullLayerSchedulerDryRun| l.decode.kv_reads > 0,
                n,
            )
            &&& run.decode_kv_write_layers == run_with(
                runs,
                |l: RealFullLayerSchedulerDryRun| l.decode.kv_writes > 0,
                n,
            )
            &&& run.prefill_prefix_read_layers == run_with(
                runs,
                |l: RealFullLayerSchedulerDryRun| l.prefill.kv_reads > 0,
                n,
            )
            &&& run.prefill_kv_write_layers == run_with(
                runs,
                |l: RealFullLayerSchedulerDryRun| l.prefill.kv_writes > 0,
                n,
            )
            &&& run.mtp_prefix_read_layers == run_with(
                runs,
                |l: RealFullLayerSchedulerDryRun| l.mtp_verify.kv_reads > 0,
                n,
            )
            &&& run.mtp_tentative_write_records == run_tentative_writes(runs, n)
            &&& run.probe_layer < n
            &&& runs[run.probe_layer as int].expert_batch is Some
            &&& run.probe_layer > 0 ==> runs[run.probe_layer - 1].expert_batch is None
            &&& batch_holds_waves(
                run.protocol_v2_batch_probe,
                runs[run.probe_layer as int],
                top_k,
            )
            &&& runs.last().expert_batch is Some
            &&& run.rows_per_sparse_expert_batch == runs.last().expert_batch->0.rows
            &&& run.routes_per_sparse_expert_batch == runs.last().expert_batch->0.routes
            &&& forall|i: int|
                0 <= i < n ==> {
                    let layer = #[trigger] runs[i];
                    &&& layer.layer_id == i
                    &&& layer.expert_batch is Some ==> batch_holds_waves(
                        layer.expert_batch->0,
                        layer,
                        top_k,
                    ) && layer.expert_batch->0.graph_bucket_rows == run.graph_bucket_rows
                }
        }),
{
    let n = facts.num_hidden_layers as int;
    lemma_run_counts(run, catalog_hash, facts, waves, request, graph_bucket_rows, n);
    let runs = run.layer_dry_runs@;
    let first = facts.first_k_dense_replace as int;
    assert(runs[first].layer_id == first);
    assert(runs[n - 1].layer_id == n - 1);
    if first > 0 {
        assert(runs[first - 1].layer_id == first - 1);
    }
}

/// The dry run of a scheduler goes through the layers of the plan: a layer has a
/// batch exactly if the plan exchanges its rows with experts.
pub proof fn law_scheduler_run_follows_the_plan(
    run: RealFullSchedulerDryRun,
    catalog_hash: Seq<char>,
    waves: Seq<PreflightWaves>,
    request: PreflightRequest,
    graph_bucket_rows: usize,
    plan: RealFullExecutionPlan,
    hosts: int,
    kv_bytes_per_token: usize,
    facts: ModelFacts,
    rows: PreflightRows,
    lens: ProtocolLengths,
    i: int,
)
    requires
        plan_fits(facts, hosts, rows, lens),
        execution_plan_ok(plan, hosts, kv_bytes_per_token, facts, rows, lens),
        dry_run_ok(run, catalog_hash, facts, waves, request, graph_bucket_rows),
        0 <= i < plan.layers@.len(),
    ensures
        run.layer_dry_runs@.len() == plan.layers@.len(),
        run.dense_coordinator_layers == plan.dense_layer_count,
        run.sparse_expert_batches == plan.sparse_layer_count,
        run.total_layerwaves == plan.layer_count * plan.scheduler_contract.modes@.len(),
        run.layer_dry_runs@[i].layer_kind@ == plan.layers@[i].layer_kind@,
        run.layer_dry_runs@[i].expert_batch is Some
            <==> plan.layers@[i].mlp.routed_nvfp4_expert_exchange,
        run.layer_dry_runs@[i].expert_batch is Some
            ==> run.layer_dry_runs@[i].expert_batch->0.hidden_bytes_per_row
            == plan.hidden_bytes_per_row && run.layer_dry_runs@[i].expert_batch->0.hidden_dim
            == plan.hidden_dim,
{
    assert(layer_plan_ok(plan.layers@[i], i, facts));
    let layer = run.layer_dry_runs@[i];
    assert(layer.layer_id == i);
    assert(plan.scheduler_contract.modes@.len() == 3);
}

/// The waves of a dry run are named as the plan names its modes.
pub proof fn law_waves_are_named_as_planned(
    run: RealFullSchedulerDryRun,
    catalog_hash: Seq<char>,
    waves: Seq<PreflightWaves>,
    request: PreflightRequest,
    graph_bucket_rows: usize,
    plan: RealFullExecutionPlan,
    hosts: int,
    kv_bytes_per_token: usize,
    facts: ModelFacts,
    rows: PreflightRows,
    lens: ProtocolLengths,
    i: int,
)
    requires
        execution_plan_ok(plan, hosts, kv_bytes_per_token, facts, rows, lens),
        dry_run_ok(run, catalog_hash, facts, waves, request, graph_bucket_rows),
        0 <= i < facts.num_hidden_layers,
        waves[i].decode.mode is Decode,
        waves[i].prefill.mode is Prefill,
        waves[i].mtp_verify.mode is MtpVerify,
    ensures
        run.layer_dry_runs@[i].decode.mode@ == plan.scheduler_contract.modes@[0]@,
        run.layer_dry_runs@[i].prefill.mode@ == plan.scheduler_contract.modes@[1]@,
        run.layer_dry_runs@[i].mtp_verify.mode@ == plan.scheduler_contract.modes@[2]@,
        run.layer_dry_runs@[i].decode.rows == waves[i].decode.rows,
        run.layer_dry_runs@[i].prefill.rows == waves[i].prefill.rows,
        run.layer_dry_runs@[i].mtp_verify.rows == waves[i].mtp_verify.rows,
        run.layer_dry_runs@[i].decode.kv_reads == waves[i].decode.kv_reads,
        run.layer_dry_runs@[i].decode.kv_writes == waves[i].decode.kv_writes,
        run.layer_dry_runs@[i].prefill.payload_bytes == waves[i].prefill.payload_bytes,
{
    assert(run.layer_dry_runs@[i].layer_id == i);
}

/// The two boundaries of a layer, and row counts that differ, leave different
/// states.
pub proof fn law_residual_states_tell_boundaries_apart(
    previous: u64,
    layer_id: usize,
    rows: usize,
)
    ensures
        mixed_state(previous, layer_id, rows, true) != mixed_state(previous, layer_id, rows, false),
{
    let x: u64 = previous.wrapping_mul(RESIDUAL_HASH_PRIME).wrapping_add(
        layer_id as u64,
    ).wrapping_mul(RESIDUAL_HASH_PRIME).wrapping_add(rows as u64);
    assert(x ^ 0x9e37u64 != x ^ 0x85ebu64) by (bit_vector);
}

} // verus!
