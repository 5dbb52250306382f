//! The execution plan, the residual stream and the scheduler dry run.
use real_full::execution::waves::WaveMode;
use real_full::execution_plan::{
    protocol_v2_request_wire_bytes, protocol_v2_response_wire_bytes, real_full_execution_plan,
    real_full_layer_kind, PreflightRows, ProtocolLengths,
};
use real_full::model::{ModelFacts, ModelVariant};
use real_full::residual::{
    apply_residual_delta, mix_residual_state, real_full_residual_stream_dry_run,
    residual_accumulator_self_test, ResidualDeltaError,
};
use real_full::scheduler::{
    real_full_scheduler_dry_run, real_full_wave_mode_label, PreflightRequest, PreflightWaves,
    WaveSummary,
};

const PREFLIGHT_DECODE_ROWS: usize = 1;
const PREFLIGHT_MTP_ROWS: usize = 4;
const PREFLIGHT_PREFILL_ROWS: usize = 512;
const PRO_HIDDEN_SIZE: usize = 7_168;
const PRO_NUM_HIDDEN_LAYERS: usize = 61;
const PRO_ROUTED_EXPERTS: usize = 384;
const PRO_MOE_INTERMEDIATE_SIZE: usize = 3_072;

fn flash_facts() -> ModelFacts {
    ModelFacts {
        model_type: "deepseek_v4".to_owned(),
        variant: ModelVariant::Flash,
        hidden_size: 4_096,
        num_hidden_layers: 43,
        first_k_dense_replace: 0,
        num_hash_layers: 3,
        dspark_blocks: 3,
        routed_experts: 256,
        shared_experts: 1,
        top_k: 6,
        moe_intermediate_size: 2_048,
        vocab_size: 129_280,
        head_dim: 512,
        scoring_function: "sqrtsoftplus".to_owned(),
        topk_method: "noaux_tc".to_owned(),
        routed_scaling_factor_bits: 1.5_f32.to_bits(),
        rms_norm_eps_bits: 1.0e-6_f32.to_bits(),
        quantization_recipe: "deepseek_v4_native_fp4_fp8_mixed_v1".to_owned(),
    }
}

fn preflight_rows() -> PreflightRows {
    PreflightRows {
        decode_rows: PREFLIGHT_DECODE_ROWS,
        mtp_rows: PREFLIGHT_MTP_ROWS,
        prefill_rows: PREFLIGHT_PREFILL_ROWS,
    }
}

fn lengths() -> ProtocolLengths {
    ProtocolLengths {
        request_header: 64,
        response_header: 48,
        row_descriptor: 16,
        route_entry: 12,
    }
}

fn tp4_hosts() -> Vec<String> {
    ["ostrich", "dodo", "emu", "kiwi"]
        .into_iter()
        .map(str::to_owned)
        .collect()
}

#[test]
fn execution_plan_uses_catalog_geometry_and_replicates_routes_to_every_tp_rank() {
    let hosts = tp4_hosts();
    let flash = flash_facts();
    let flash_plan = real_full_execution_plan(&hosts, 1_024, &flash, preflight_rows(), lengths());
    assert_eq!(flash_plan.hidden_dim, flash.hidden_size);
    assert_eq!(flash_plan.layer_count, flash.num_hidden_layers);
    assert_eq!(flash_plan.protocol_payloads.max_touched_expert_hosts, 4);
    assert_eq!(
        flash_plan.protocol_payloads.routes_per_decode_touched_host,
        PREFLIGHT_DECODE_ROWS * flash.top_k,
    );
    assert_eq!(
        flash_plan.protocol_payloads.routes_per_prefill_touched_host,
        PREFLIGHT_PREFILL_ROWS * flash.top_k,
    );
    assert_eq!(
        flash_plan.protocol_payloads.routes_per_mtp_touched_host,
        PREFLIGHT_MTP_ROWS * flash.top_k,
    );

    let mut pro = flash;
    pro.hidden_size = PRO_HIDDEN_SIZE;
    pro.num_hidden_layers = PRO_NUM_HIDDEN_LAYERS;
    pro.routed_experts = PRO_ROUTED_EXPERTS;
    pro.moe_intermediate_size = PRO_MOE_INTERMEDIATE_SIZE;
    let pro_plan = real_full_execution_plan(&hosts, 2_048, &pro, preflight_rows(), lengths());
    assert_eq!(pro_plan.hidden_dim, PRO_HIDDEN_SIZE);
    assert_eq!(pro_plan.layer_count, PRO_NUM_HIDDEN_LAYERS);
    assert_eq!(pro_plan.sparse_layer_count, PRO_NUM_HIDDEN_LAYERS);
    assert_eq!(
        pro_plan
            .protocol_payloads
            .decode_logical_request_bytes_per_touched_host,
        PRO_HIDDEN_SIZE * std::mem::size_of::<u16>(),
    );
    assert_eq!(
        pro_plan.protocol_payloads.routes_per_decode_touched_host,
        PREFLIGHT_DECODE_ROWS * pro.top_k,
    );
}

#[test]
fn wire_bytes_add_the_header_and_the_tables() {
    assert_eq!(
        protocol_v2_request_wire_bytes(lengths(), 2, 12, 16_384),
        64 + 2 * 16 + 12 * 12 + 16_384
    );
    assert_eq!(protocol_v2_response_wire_bytes(lengths(), 16_384), 16_432);
    let plan =
        real_full_execution_plan(&tp4_hosts(), 1_024, &flash_facts(), preflight_rows(), lengths());
    let payloads = plan.protocol_payloads;
    // One decode row: the hidden row, one descriptor and six routes.
    assert_eq!(
        payloads.decode_wire_request_bytes_per_touched_host,
        64 + 16 + 72 + 8_192
    );
    assert_eq!(
        payloads.decode_full_sparse_roundtrip_logical_bytes,
        2 * 8_192 * 43 * 4
    );
    assert_eq!(real_full_layer_kind(0, 0), real_full_layer_kind(9, 0));
    assert_ne!(real_full_layer_kind(0, 1), real_full_layer_kind(1, 1));
    assert_eq!(plan.layers.len(), 43);
}

/// Values in quarters, the unit of the residual accumulator.
fn quarters(values: &[f32]) -> Vec<i64> {
    values.iter().map(|value| (value * 4.0) as i64).collect()
}

#[test]
fn residual_accumulator_applies_deltas_in_place() {
    let mut residual = quarters(&[1.0, -2.0, 3.5]);
    apply_residual_delta(&mut residual, &quarters(&[0.5, 1.0, -1.5])).unwrap();
    assert_eq!(residual, quarters(&[1.5, -1.0, 2.0]));
}

#[test]
fn residual_accumulator_rejects_shape_mismatch() {
    let mut residual = quarters(&[1.0, 2.0]);
    let err = apply_residual_delta(&mut residual, &quarters(&[1.0])).unwrap_err();
    assert!(err.message().contains("residual delta length mismatch"));
    assert_eq!(
        err,
        ResidualDeltaError {
            residual: 2,
            delta: 1
        }
    );
}

#[test]
fn residual_accumulator_self_test_passes() {
    let self_test = residual_accumulator_self_test();
    assert!(self_test.passed);
    assert_eq!(self_test.layers, 3);
    assert_eq!(self_test.residual_adds, 6);
    assert_eq!(self_test.values_updated, 48);
    assert!((self_test.final_checksum_quarters as f32 / 4.0 - 12.0).abs() < 1.0e-6);
}

#[test]
fn residual_stream_passes_every_layer_twice() {
    let plan =
        real_full_execution_plan(&tp4_hosts(), 1_024, &flash_facts(), preflight_rows(), lengths());
    let run = real_full_residual_stream_dry_run(&plan, 4_096, 0, preflight_rows());
    let check = &run.numeric_kernel_self_test;
    assert_eq!((check.layers, check.rows, check.hidden_dim), (3, 2, 4));
    assert_eq!((check.residual_adds, check.values_updated), (6, 48));
    assert_eq!(check.final_checksum_quarters, 48);
    assert_eq!(check.first_value_quarters, 10);
    assert_eq!(check.last_value_quarters, -10);
    assert_eq!(run.row_count, 517);
    assert_eq!(run.residual_state_bytes, 517 * 8_192);
    assert_eq!(run.attention_residual_adds, 43);
    assert_eq!(run.mlp_residual_adds, 43);
    assert_eq!(run.total_residual_adds, 86);
    assert_eq!(run.sparse_layers, 43);
    assert!(run.layer_order_verified);
    assert_eq!(run.layer_dry_runs.len(), 43);
    assert_eq!(
        run.layer_dry_runs[42].residual_state_hash,
        run.final_residual_state_hash
    );
    let first = mix_residual_state(7, 0, 517, false);
    assert_ne!(first, mix_residual_state(7, 0, 517, true));
    assert_ne!(first, mix_residual_state(7, 1, 517, false));
}

fn summary(mode: WaveMode, rows: usize) -> WaveSummary {
    WaveSummary {
        mode,
        rows,
        graph_bucket_rows: rows,
        payload_bytes: rows * PRO_HIDDEN_SIZE * 2,
        kv_reads: 1,
        kv_writes: 1,
        tentative_kv_writes: match mode {
            WaveMode::MtpVerify => rows,
            _ => 0,
        },
    }
}

fn waves() -> PreflightWaves {
    PreflightWaves {
        decode: summary(WaveMode::Decode, PREFLIGHT_DECODE_ROWS),
        prefill: summary(WaveMode::Prefill, PREFLIGHT_PREFILL_ROWS),
        mtp_verify: summary(WaveMode::MtpVerify, PREFLIGHT_MTP_ROWS),
    }
}

fn request() -> PreflightRequest {
    PreflightRequest {
        request_id: "preflight-request",
        sequence_id: "preflight-sequence",
        kv_reservation_id: 7,
    }
}

#[test]
fn scheduler_dry_run_uses_pro_catalog_geometry() {
    let mut facts = flash_facts();
    facts.hidden_size = PRO_HIDDEN_SIZE;
    facts.num_hidden_layers = PRO_NUM_HIDDEN_LAYERS;
    facts.routed_experts = PRO_ROUTED_EXPERTS;
    facts.moe_intermediate_size = PRO_MOE_INTERMEDIATE_SIZE;
    facts.quantization_recipe = "deepseek_v4_exl3_calibrated".to_owned();

    let report = real_full_scheduler_dry_run(
        &"a".repeat(64),
        &facts,
        &vec![waves(); PRO_NUM_HIDDEN_LAYERS],
        request(),
        517,
    )
    .unwrap();
    let rows = PREFLIGHT_PREFILL_ROWS + PREFLIGHT_MTP_ROWS + PREFLIGHT_DECODE_ROWS;
    assert_eq!(report.placement_version, "catalog-aaaaaaaaaaaaaaaa");
    assert_eq!(report.decode_layerwaves, PRO_NUM_HIDDEN_LAYERS);
    assert_eq!(report.prefill_layerwaves, PRO_NUM_HIDDEN_LAYERS);
    assert_eq!(report.mtp_verify_layerwaves, PRO_NUM_HIDDEN_LAYERS);
    assert_eq!(report.sparse_expert_batches, PRO_NUM_HIDDEN_LAYERS);
    assert_eq!(report.rows_per_sparse_expert_batch, rows);
    assert_eq!(report.routes_per_sparse_expert_batch, rows * facts.top_k);
    assert_eq!(report.protocol_v2_batch_probe.hidden_dim, PRO_HIDDEN_SIZE);
    assert_eq!(
        report.protocol_v2_batch_probe.hidden_bytes_per_row,
        PRO_HIDDEN_SIZE * std::mem::size_of::<u16>(),
    );
    assert!(report.layer_dry_runs.iter().all(|layer| {
        layer
            .expert_batch
            .as_ref()
            .is_some_and(|batch| batch.hidden_dim == PRO_HIDDEN_SIZE)
    }));
}

#[test]
fn scheduler_dry_run_is_for_deepseek_only() {
    let mut facts = flash_facts();
    facts.first_k_dense_replace = 3;
    let mut by_layer = vec![waves(); 43];
    by_layer[0].decode.kv_reads = 0;
    by_layer[5].prefill.kv_reads = 0;
    by_layer[7].mtp_verify.kv_reads = 0;
    by_layer[42].decode.rows = 2;
    let report = real_full_scheduler_dry_run(
        &"b".repeat(16),
        &facts,
        &by_layer,
        request(),
        517,
    )
    .unwrap();
    assert_eq!(report.dense_coordinator_layers, 3);
    assert_eq!(report.sparse_expert_batches, 40);
    assert_eq!(report.total_layerwaves, 129);
    assert_eq!(
        report.mtp_tentative_write_records,
        43 * PREFLIGHT_MTP_ROWS
    );
    assert!(report.layer_dry_runs[2].expert_batch.is_none());
    assert_eq!(report.decode_prefix_read_layers, 42);
    assert_eq!(report.decode_kv_write_layers, 43);
    assert_eq!(report.prefill_prefix_read_layers, 42);
    assert_eq!(report.prefill_kv_write_layers, 43);
    assert_eq!(report.mtp_prefix_read_layers, 42);
    assert_eq!(report.rows_per_sparse_expert_batch, 518);
    assert_eq!(report.routes_per_sparse_expert_batch, 518 * 6);
    assert_eq!(report.probe_layer, 3);
    assert_eq!(report.protocol_v2_batch_probe.rows, 517);
    assert_eq!(
        report.protocol_v2_batch_probe.source_modes,
        ["prefill_chunk", "mtp_verify", "decode_step"]
    );
    assert_eq!(report.request_id, "preflight-request");
    assert_eq!(report.kv_reservation_id, 7);
    assert!(report.placement_version.contains("bbbbbbbbbbbbbbbb"));
    assert_ne!(
        real_full_wave_mode_label(WaveMode::Decode),
        real_full_wave_mode_label(WaveMode::Prefill)
    );
    // The prefix is sixteen bytes, not sixteen characters.
    let report = real_full_scheduler_dry_run(
        &"\u{e9}".repeat(20),
        &facts,
        &by_layer,
        request(),
        517,
    )
    .unwrap();
    assert_eq!(
        report.placement_version,
        format!("catalog-{}", "\u{e9}".repeat(8))
    );
    facts.model_type = "glm".to_owned();
    let error = real_full_scheduler_dry_run("", &facts, &[], request(), 517).unwrap_err();
    assert!(error.message().contains("glm"));
}
