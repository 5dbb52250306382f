//! The execution plan of a model: stages per layer and the bytes that the
//! expert protocol moves.
use vstd::prelude::*;

use crate::model::ModelFacts;

verus! {

/// The row counts of the preflight batch.
#[derive(Clone, Copy, Debug, PartialEq, Eq, Structural)]
pub struct PreflightRows {
    pub decode_rows: usize,
    pub mtp_rows: usize,
    pub prefill_rows: usize,
}

/// The fixed lengths of the expert protocol.
#[derive(Clone, Copy, Debug, PartialEq, Eq, Structural)]
pub struct ProtocolLengths {
    pub request_header: usize,
    pub response_header: usize,
    pub row_descriptor: usize,
    pub route_entry: usize,
}

#[derive(Clone, Copy, Debug, PartialEq, Eq, Structural)]
pub struct RealFullAttentionStagePlan {
    pub input_norm: bool,
    pub qkv_projection: bool,
    pub compressed_kv_read_write: bool,
    pub attention_output_projection: bool,
}

#[derive(Clone, Copy, Debug, PartialEq, Eq, Structural)]
pub struct RealFullMlpStagePlan {
    pub post_attention_norm: bool,
    pub dense_mlp_on_coordinator: bool,
    pub router_on_coordinator: bool,
    pub routed_nvfp4_expert_exchange: bool,
    pub shared_expert_on_coordinator: bool,
    pub routes_per_row: usize,
}

/// The plan of one layer.
#[derive(Clone, Copy, Debug)]
pub struct RealFullLayerExecutionPlan {
    pub layer_id: usize,
    pub layer_kind: &'static str,
    pub attention: RealFullAttentionStagePlan,
    pub mlp: RealFullMlpStagePlan,
    pub residual_adds: usize,
}

#[derive(Clone, Copy, Debug, PartialEq, Eq, Structural)]
pub struct RealFullExecutionStageCounts {
    pub attention_layers: usize,
    pub compressed_kv_layers: usize,
    pub dense_mlp_layers: usize,
    pub sparse_moe_layers: usize,
    pub remote_expert_exchange_layers: usize,
    pub residual_add_boundaries: usize,
}

/// What the expert protocol moves for one kind of batch.
#[derive(Clone, Copy, Debug, PartialEq, Eq, Structural)]
pub struct ModePayload {
    pub routes: usize,
    pub one_way_bytes: usize,
    pub request_wire: usize,
    pub response_wire: usize,
    pub full_logical: usize,
    pub full_wire: usize,
}

#[derive(Clone, Copy, Debug)]
pub struct RealFullProtocolPayloadPlan {
    pub protocol: &'static str,
    pub request_header_bytes: usize,
    pub response_header_bytes: usize,
    pub row_descriptor_bytes: usize,
    pub route_entry_bytes: usize,
    pub sparse_decode_roundtrips_per_token: usize,
    pub sparse_prefill_roundtrips_per_chunk: usize,
    pub max_touched_expert_hosts: usize,
    pub routes_per_decode_sparse_layer: usize,
    pub routes_per_prefill_sparse_layer: usize,
    pub routes_per_mtp_sparse_layer: usize,
    pub routes_per_decode_touched_host: usize,
    pub routes_per_prefill_touched_host: usize,
    pub routes_per_mtp_touched_host: usize,
    pub decode_logical_request_bytes_per_touched_host: usize,
    pub decode_logical_response_bytes_per_touched_host: usize,
    pub prefill_logical_request_bytes_per_touched_host: usize,
    pub prefill_logical_response_bytes_per_touched_host: usize,
    pub mtp_logical_request_bytes_per_touched_host: usize,
    pub mtp_logical_response_bytes_per_touched_host: usize,
    pub decode_wire_request_bytes_per_touched_host: usize,
    pub decode_wire_response_bytes_per_touched_host: usize,
    pub prefill_wire_request_bytes_per_touched_host: usize,
    pub prefill_wire_response_bytes_per_touched_host: usize,
    pub mtp_wire_request_bytes_per_touched_host: usize,
    pub mtp_wire_response_bytes_per_touched_host: usize,
    pub decode_full_sparse_roundtrip_logical_bytes: usize,
    pub prefill_full_sparse_roundtrip_logical_bytes: usize,
    pub mtp_full_sparse_roundtrip_logical_bytes: usize,
    pub decode_full_sparse_roundtrip_wire_bytes: usize,
    pub prefill_full_sparse_roundtrip_wire_bytes: usize,
    pub mtp_full_sparse_roundtrip_wire_bytes: usize,
}

#[derive(Clone, Copy, Debug)]
pub struct RealFullKvSemanticsPlan {
    pub layout: &'static str,
    pub bytes_per_token: usize,
    pub decode_reads_prefix_when_position_gt_zero: bool,
    pub decode_writes_committed_current_token: bool,
    pub prefill_chunk_zero_reads_prefix: bool,
    pub prefill_later_chunks_read_prefix: bool,
    pub prefill_writes_committed_chunk_range: bool,
    pub mtp_reads_accepted_prefix: bool,
    pub mtp_writes_tentative_draft_range: bool,
    pub mtp_commits_only_accepted_prefix: bool,
}

#[derive(Clone, Copy, Debug)]
pub struct RealFullSchedulerContract {
    pub layer_order_is_strict: bool,
    pub modes: [&'static str; 3],
    pub dense_layers_run_on_coordinator: usize,
    pub sparse_layers_require_expert_batches: usize,
    pub expert_batch_can_mix_compatible_sources: bool,
    pub sampling_after_layer_count: usize,
}

/// The execution plan of a model.
#[derive(Clone, Debug)]
pub struct RealFullExecutionPlan {
    pub status: &'static str,
    pub scope: &'static str,
    pub hidden_dim: usize,
    pub hidden_dtype: &'static str,
    pub hidden_bytes_per_row: usize,
    pub decode_rows: usize,
    pub mtp_verify_rows: usize,
    pub prefill_chunk_rows: usize,
    pub layer_count: usize,
    pub dense_layer_count: usize,
    pub sparse_layer_count: usize,
    pub stage_counts: RealFullExecutionStageCounts,
    pub protocol_payloads: RealFullProtocolPayloadPlan,
    pub kv_semantics: RealFullKvSemanticsPlan,
    pub scheduler_contract: RealFullSchedulerContract,
    pub terminal_stages: Vec<&'static str>,
    pub layers: Vec<RealFullLayerExecutionPlan>,
}

/// The bytes of one request: header, row descriptors, route entries, payload.
pub open spec fn request_wire(
    lens: ProtocolLengths,
    rows: int,
    routes: int,
    payload: int,
) -> int {
    lens.request_header + rows * lens.row_descriptor + routes * lens.route_entry + payload
}

/// The bytes of one request.
pub fn protocol_v2_request_wire_bytes(
    lens: ProtocolLengths,
    row_count: usize,
    route_count: usize,
    payload_bytes: usize,
) -> (bytes: usize)
    requires
        0 <= row_count * lens.row_descriptor <= usize::MAX,
        0 <= route_count * lens.route_entry <= usize::MAX,
        request_wire(lens, row_count as int, route_count as int, payload_bytes as int)
            <= usize::MAX,
    ensures
        bytes == request_wire(lens, row_count as int, route_count as int, payload_bytes as int),
{
    let descriptors: usize = row_count * lens.row_descriptor;
    let entries: usize = route_count * lens.route_entry;
    lens.request_header + descriptors + entries + payload_bytes
}

/// The bytes of one response.
pub fn protocol_v2_response_wire_bytes(lens: ProtocolLengths, payload_bytes: usize) -> (bytes: usize)
    requires
        lens.response_header + payload_bytes <= usize::MAX,
    ensures
        bytes == lens.response_header + payload_bytes,
{
    lens.response_header + payload_bytes
}

/// The payload numbers of a batch of `rows` rows fit the machine. `spread` is
/// the number of sparse layers times the number of hosts.
pub open spec fn mode_fits(
    rows: int,
    hidden_bytes: int,
    top_k: int,
    lens: ProtocolLengths,
    spread: int,
) -> bool {
    let one_way = rows * hidden_bytes;
    let routes = rows * top_k;
    let request = request_wire(lens, rows, routes, one_way);
    let response = lens.response_header + one_way;
    &&& 0 <= one_way <= usize::MAX
    &&& 0 <= routes <= usize::MAX
    &&& 0 <= rows * lens.row_descriptor <= usize::MAX
    &&& 0 <= routes * lens.route_entry <= usize::MAX
    &&& request + response <= usize::MAX
    &&& 0 <= spread * one_way
    &&& spread * one_way * 2 <= usize::MAX
    &&& 0 <= spread * (request + response) <= usize::MAX
}

/// What the expert protocol moves for a batch of `rows` rows: every host gets
/// every row and every route.
pub open spec fn mode_payload_of(
    rows: int,
    hidden_bytes: int,
    top_k: int,
    lens: ProtocolLengths,
    spread: int,
) -> ModePayload {
    let one_way = rows * hidden_bytes;
    let routes = rows * top_k;
    let request = request_wire(lens, rows, routes, one_way);
    let response = lens.response_header + one_way;
    ModePayload {
        routes: routes as usize,
        one_way_bytes: one_way as usize,
        request_wire: request as usize,
        response_wire: response as usize,
        full_logical: (spread * one_way * 2) as usize,
        full_wire: (spread * (request + response)) as usize,
    }
}

fn mode_payload(
    rows: usize,
    hidden_bytes: usize,
    top_k: usize,
    lens: ProtocolLengths,
    spread: usize,
) -> (payload: ModePayload)
    requires
        mode_fits(rows as int, hidden_bytes as int, top_k as int, lens, spread as int),
    ensures
        payload == mode_payload_of(
            rows as int,
            hidden_bytes as int,
            top_k as int,
            lens,
            spread as int,
        ),
{
    let one_way_bytes: usize = rows * hidden_bytes;
    let routes: usize = rows * top_k;
    let request_wire: usize = protocol_v2_request_wire_bytes(lens, rows, routes, one_way_bytes);
    let response_wire: usize = protocol_v2_response_wire_bytes(lens, one_way_bytes);
    ModePayload {
        routes,
        one_way_bytes,
        request_wire,
        response_wire,
        full_logical: spread * one_way_bytes * 2,
        full_wire: spread * (request_wire + response_wire),
    }
}

/// The kind of a layer.
pub open spec fn layer_kind_text(layer_id: int, first_sparse_layer: int) -> Seq<char> {
    if layer_id < first_sparse_layer {
        "dense-mlp"@
    } else {
        "sparse-routed-moe"@
    }
}

/// The kind of a layer.
pub fn real_full_layer_kind(layer_id: usize, first_sparse_layer: usize) -> (kind: &'static str)
    ensures
        kind@ == layer_kind_text(layer_id as int, first_sparse_layer as int),
{
    if layer_id < first_sparse_layer {
        "dense-mlp"
    } else {
        "sparse-routed-moe"
    }
}

/// The plan of layer `layer_id`: dense layers run on the coordinator, sparse
/// layers route their rows to experts.
pub open spec fn layer_plan_ok(
    plan: RealFullLayerExecutionPlan,
    layer_id: int,
    facts: ModelFacts,
) -> bool {
    let dense = layer_id < facts.first_k_dense_replace;
    &&& plan.layer_id == layer_id
    &&& plan.layer_kind@ == layer_kind_text(layer_id, facts.first_k_dense_replace as int)
    &&& plan.attention == (RealFullAttentionStagePlan {
        input_norm: true,
        qkv_projection: true,
        compressed_kv_read_write: true,
        attention_output_projection: true,
    })
    &&& plan.mlp == (RealFullMlpStagePlan {
        post_attention_norm: true,
        dense_mlp_on_coordinator: dense,
        router_on_coordinator: !dense,
        routed_nvfp4_expert_exchange: !dense,
        shared_expert_on_coordinator: !dense,
        routes_per_row: if dense {
            0
        } else {
            facts.top_k
        },
    })
    &&& plan.residual_adds == 2
}

/// The plan of one layer.
pub fn real_full_layer_execution_plan(layer_id: usize, facts: &ModelFacts) -> (plan:
    RealFullLayerExecutionPlan)
    ensures
        layer_plan_ok(plan, layer_id as int, *facts),
{
    let is_dense: bool = layer_id < facts.first_k_dense_replace;
    RealFullLayerExecutionPlan {
        layer_id,
        layer_kind: real_full_layer_kind(layer_id, facts.first_k_dense_replace),
        attention: RealFullAttentionStagePlan {
            input_norm: true,
            qkv_projection: true,
            compressed_kv_read_write: true,
            attention_output_projection: true,
        },
        mlp: RealFullMlpStagePlan {
            post_attention_norm: true,
            dense_mlp_on_coordinator: is_dense,
            router_on_coordinator: !is_dense,
            routed_nvfp4_expert_exchange: !is_dense,
            shared_expert_on_coordinator: !is_dense,
            routes_per_row: if is_dense {
                0
            } else {
                facts.top_k
            },
        },
        residual_adds: 2,
    }
}

/// Sparse layers times hosts.
pub open spec fn host_spread(facts: ModelFacts, hosts: int) -> int {
    (facts.num_hidden_layers - facts.first_k_dense_replace) * hosts
}

/// All numbers of a plan fit the machine.
pub open spec fn plan_fits(
    facts: ModelFacts,
    hosts: int,
    rows: PreflightRows,
    lens: ProtocolLengths,
) -> bool {
    let hidden_bytes = facts.hidden_size * 2;
    let spread = host_spread(facts, hosts);
    let top_k = facts.top_k as int;
    &&& facts.first_k_dense_replace <= facts.num_hidden_layers
    &&& facts.num_hidden_layers * 2 <= usize::MAX
    &&& hidden_bytes <= usize::MAX
    &&& 0 <= spread <= usize::MAX
    &&& mode_fits(rows.decode_rows as int, hidden_bytes, top_k, lens, spread)
    &&& mode_fits(rows.prefill_rows as int, hidden_bytes, top_k, lens, spread)
    &&& mode_fits(rows.mtp_rows as int, hidden_bytes, top_k, lens, spread)
}

/// The payload plan holds the numbers of the three kinds of batches.
pub open spec fn payload_plan_ok(
    p: RealFullProtocolPayloadPlan,
    sparse_layers: int,
    hosts: int,
    lens: ProtocolLengths,
    decode: ModePayload,
    prefill: ModePayload,
    mtp: ModePayload,
) -> bool {
    &&& p.protocol@ == "ExpertProtocolV2"@
    &&& p.request_header_bytes == lens.request_header
    &&& p.response_header_bytes == lens.response_header
    &&& p.row_descriptor_bytes == lens.row_descriptor
    &&& p.route_entry_bytes == lens.route_entry
    &&& p.sparse_decode_roundtrips_per_token == sparse_layers
    &&& p.sparse_prefill_roundtrips_per_chunk == sparse_layers
    &&& p.max_touched_expert_hosts == hosts
    &&& p.routes_per_decode_sparse_layer == decode.routes
    &&& p.routes_per_prefill_sparse_layer == prefill.routes
    &&& p.routes_per_mtp_sparse_layer == mtp.routes
    &&& p.routes_per_decode_touched_host == decode.routes
    &&& p.routes_per_prefill_touched_host == prefill.routes
    &&& p.routes_per_mtp_touched_host == mtp.routes
    &&& p.decode_logical_request_bytes_per_touched_host == decode.one_way_bytes
    &&& p.decode_logical_response_bytes_per_touched_host == decode.one_way_bytes
    &&& p.prefill_logical_request_bytes_per_touched_host == prefill.one_way_bytes
    &&& p.prefill_logical_response_bytes_per_touched_host == prefill.one_way_bytes
    &&& p.mtp_logical_request_bytes_per_touched_host == mtp.one_way_bytes
    &&& p.mtp_logical_response_bytes_per_touched_host == mtp.one_way_bytes
    &&& p.decode_wire_request_bytes_per_touched_host == decode.request_wire
    &&& p.decode_wire_response_bytes_per_touched_host == decode.response_wire
    &&& p.prefill_wire_request_bytes_per_touched_host == prefill.request_wire
    &&& p.prefill_wire_response_bytes_per_touched_host == prefill.response_wire
    &&& p.mtp_wire_request_bytes_per_touched_host == mtp.request_wire
    &&& p.mtp_wire_response_bytes_per_touched_host == mtp.response_wire
    &&& p.decode_full_sparse_roundtrip_logical_bytes == decode.full_logical
    &&& p.prefill_full_sparse_roundtrip_logical_bytes == prefill.full_logical
    &&& p.mtp_full_sparse_roundtrip_logical_bytes == mtp.full_logical
    &&& p.decode_full_sparse_roundtrip_wire_bytes == decode.full_wire
    &&& p.prefill_full_sparse_roundtrip_wire_bytes == prefill.full_wire
    &&& p.mtp_full_sparse_roundtrip_wire_bytes == mtp.full_wire
}

/// The key-value rules of a plan.
pub open spec fn kv_semantics_ok(k: RealFullKvSemanticsPlan, kv_bytes_per_token: int) -> bool {
    &&& k.layout@ == "deepseek-v4-compressed-bf16"@
    &&& k.bytes_per_token == kv_bytes_per_token
    &&& k.decode_reads_prefix_when_position_gt_zero
    &&& k.decode_writes_committed_current_token
    &&& !k.prefill_chunk_zero_reads_prefix
    &&& k.prefill_later_chunks_read_prefix
    &&& k.prefill_writes_committed_chunk_range
    &&& k.mtp_reads_accepted_prefix
    &&& k.mtp_writes_tentative_draft_range
    &&& k.mtp_commits_only_accepted_prefix
}

/// The scheduler rules of a plan.
pub open spec fn scheduler_contract_ok(s: RealFullSchedulerContract, facts: ModelFacts) -> bool {
    &&& s.layer_order_is_strict
    &&& s.modes@[0]@ == "decode"@
    &&& s.modes@[1]@ == "prefill"@
    &&& s.modes@[2]@ == "mtp_verify"@
    &&& s.dense_layers_run_on_coordinator == facts.first_k_dense_replace
    &&& s.sparse_layers_require_expert_batches == facts.num_hidden_layers
        - facts.first_k_dense_replace
    &&& s.expert_batch_can_mix_compatible_sources
    &&& s.sampling_after_layer_count == facts.num_hidden_layers
}

/// The execution plan of a model on that many expert hosts.
pub open spec fn execution_plan_ok(
    plan: RealFullExecutionPlan,
    hosts: int,
    kv_bytes_per_token: usize,
    facts: ModelFacts,
    rows: PreflightRows,
    lens: ProtocolLengths,
) -> bool {
    let hidden_bytes = facts.hidden_size * 2;
    let spread = host_spread(facts, hosts);
    let top_k = facts.top_k as int;
    let sparse = facts.num_hidden_layers - facts.first_k_dense_replace;
    &&& plan.status@ == "contract-only"@
    &&& plan.scope@ == "decode-prefill-dspark native DeepSeek V4 runtime plan"@
    &&& plan.hidden_dim == facts.hidden_size
    &&& plan.hidden_dtype@ == "bf16"@
    &&& plan.hidden_bytes_per_row == hidden_bytes
    &&& plan.decode_rows == rows.decode_rows
    &&& plan.mtp_verify_rows == rows.mtp_rows
    &&& plan.prefill_chunk_rows == rows.prefill_rows
    &&& plan.layer_count == facts.num_hidden_layers
    &&& plan.dense_layer_count == facts.first_k_dense_replace
    &&& plan.sparse_layer_count == sparse
    &&& plan.stage_counts == (RealFullExecutionStageCounts {
        attention_layers: facts.num_hidden_layers,
        compressed_kv_layers: facts.num_hidden_layers,
        dense_mlp_layers: facts.first_k_dense_replace,
        sparse_moe_layers: sparse as usize,
        remote_expert_exchange_layers: sparse as usize,
        residual_add_boundaries: (facts.num_hidden_layers * 2) as usize,
    })
    &&& payload_plan_ok(
        plan.protocol_payloads,
        sparse,
        hosts,
        lens,
        mode_payload_of(rows.decode_rows as int, hidden_bytes, top_k, lens, spread),
        mode_payload_of(rows.prefill_rows as int, hidden_bytes, top_k, lens, spread),
        mode_payload_of(rows.mtp_rows as int, hidden_bytes, top_k, lens, spread),
    )
    &&& kv_semantics_ok(plan.kv_semantics, kv_bytes_per_token as int)
    &&& scheduler_contract_ok(plan.scheduler_contract, facts)
    &&& plan.terminal_stages@ == seq!["final_norm", "lm_head", "full_vocab_sampling"]
    &&& plan.layers@.len() == facts.num_hidden_layers
    &&& forall|i: int|
        0 <= i < plan.layers@.len() ==> layer_plan_ok(
            #[trigger] plan.layers@[i],
            i,
            facts,
        )
}

/// The execution plan of a model on `expert_hosts`.
pub fn real_full_execution_plan(
    expert_hosts: &[String],
    kv_bytes_per_token: usize,
    facts: &ModelFacts,
    rows: PreflightRows,
    lens: ProtocolLengths,
) -> (plan: RealFullExecutionPlan)
    requires
        plan_fits(*facts, expert_hosts@.len() as int, rows, lens),
    ensures
        execution_plan_ok(
            plan,
            expert_hosts@.len() as int,
            kv_bytes_per_token,
            *facts,
            rows,
            lens,
        ),
{
    let hidden_bytes_per_row: usize = facts.hidden_size * 2;
    let sparse_layer_count: usize = facts.num_hidden_layers - facts.first_k_dense_replace;
    let hosts: usize = expert_hosts.len();
    let spread: usize = sparse_layer_count * hosts;
    let decode = mode_payload(rows.decode_rows, hidden_bytes_per_row, facts.top_k, lens, spread);
    let prefill = mode_payload(rows.prefill_rows, hidden_bytes_per_row, facts.top_k, lens, spread);
    let mtp = mode_payload(rows.mtp_rows, hidden_bytes_per_row, facts.top_k, lens, spread);
    let mut layers: Vec<RealFullLayerExecutionPlan> = Vec::new();
    let mut layer_id: usize = 0;
    while layer_id < facts.num_hidden_layers
        invariant
            layer_id <= facts.num_hidden_layers,
            layers@.len() == layer_id,
            forall|i: int|
                0 <= i < layer_id ==> layer_plan_ok(#[trigger] layers@[i], i, *facts),
        decreases facts.num_hidden_layers - layer_id,
    {
        layers.push(real_full_layer_execution_plan(layer_id, facts));
        layer_id = layer_id + 1;
    }
    let mut terminal_stages: Vec<&'static str> = Vec::new();
    terminal_stages.push("final_norm");
    terminal_stages.push("lm_head");
    terminal_stages.push("full_vocab_sampling");
    assert(terminal_stages@ =~= seq!["final_norm", "lm_head", "full_vocab_sampling"]);
    RealFullExecutionPlan {
        status: "contract-only",
        scope: "decode-prefill-dspark native DeepSeek V4 runtime plan",
        hidden_dim: facts.hidden_size,
        hidden_dtype: "bf16",
        hidden_bytes_per_row,
        decode_rows: rows.decode_rows,
        mtp_verify_rows: rows.mtp_rows,
        prefill_chunk_rows: rows.prefill_rows,
        layer_count: facts.num_hidden_layers,
        dense_layer_count: facts.first_k_dense_replace,
        sparse_layer_count,
        stage_counts: RealFullExecutionStageCounts {
            attention_layers: facts.num_hidden_layers,
            compressed_kv_layers: facts.num_hidden_layers,
            dense_mlp_layers: facts.first_k_dense_replace,
            sparse_moe_layers: sparse_layer_count,
            remote_expert_exchange_layers: sparse_layer_count,
            residual_add_boundaries: facts.num_hidden_layers * 2,
        },
        protocol_payloads: RealFullProtocolPayloadPlan {
            protocol: "ExpertProtocolV2",
            request_header_bytes: lens.request_header,
            response_header_bytes: lens.response_header,
            row_descriptor_bytes: lens.row_descriptor,
            route_entry_bytes: lens.route_entry,
            sparse_decode_roundtrips_per_token: sparse_layer_count,
            sparse_prefill_roundtrips_per_chunk: sparse_layer_count,
            max_touched_expert_hosts: hosts,
            routes_per_decode_sparse_layer: decode.routes,
            routes_per_prefill_sparse_layer: prefill.routes,
            routes_per_mtp_sparse_layer: mtp.routes,
            routes_per_decode_touched_host: decode.routes,
            routes_per_prefill_touched_host: prefill.routes,
            routes_per_mtp_touched_host: mtp.routes,
            decode_logical_request_bytes_per_touched_host: decode.one_way_bytes,
            decode_logical_response_bytes_per_touched_host: decode.one_way_bytes,
            prefill_logical_request_bytes_per_touched_host: prefill.one_way_bytes,
            prefill_logical_response_bytes_per_touched_host: prefill.one_way_bytes,
            mtp_logical_request_bytes_per_touched_host: mtp.one_way_bytes,
            mtp_logical_response_bytes_per_touched_host: mtp.one_way_bytes,
            decode_wire_request_bytes_per_touched_host: decode.request_wire,
            decode_wire_response_bytes_per_touched_host: decode.response_wire,
            prefill_wire_request_bytes_per_touched_host: prefill.request_wire,
            prefill_wire_response_bytes_per_touched_host: prefill.response_wire,
            mtp_wire_request_bytes_per_touched_host: mtp.request_wire,
            mtp_wire_response_bytes_per_touched_host: mtp.response_wire,
            decode_full_sparse_roundtrip_logical_bytes: decode.full_logical,
            prefill_full_sparse_roundtrip_logical_bytes: prefill.full_logical,
            mtp_full_sparse_roundtrip_logical_bytes: mtp.full_logical,
            decode_full_sparse_roundtrip_wire_bytes: decode.full_wire,
            prefill_full_sparse_roundtrip_wire_bytes: prefill.full_wire,
            mtp_full_sparse_roundtrip_wire_bytes: mtp.full_wire,
        },
        kv_semantics: RealFullKvSemanticsPlan {
            layout: "deepseek-v4-compressed-bf16",
            bytes_per_token: kv_bytes_per_token,
            decode_reads_prefix_when_position_gt_zero: true,
            decode_writes_committed_current_token: true,
            prefill_chunk_zero_reads_prefix: false,
            prefill_later_chunks_read_prefix: true,
            prefill_writes_committed_chunk_range: true,
            mtp_reads_accepted_prefix: true,
            mtp_writes_tentative_draft_range: true,
            mtp_commits_only_accepted_prefix: true,
        },
        scheduler_contract: RealFullSchedulerContract {
            layer_order_is_strict: true,
            modes: ["decode", "prefill", "mtp_verify"],
            dense_layers_run_on_coordinator: facts.first_k_dense_replace,
            sparse_layers_require_expert_batches: sparse_layer_count,
            expert_batch_can_mix_compatible_sources: true,
            sampling_after_layer_count: facts.num_hidden_layers,
        },
        terminal_stages,
        layers,
    }
}

} // verus!
