//! Scheduling of one execution: shapes, waves, wavefronts, state and report.
use real_full::execution::attention::{
    scheduler_device_attention_launch_range_for_layers,
    scheduler_expected_device_attention_rows_for_layers,
    scheduler_full_context_device_attention_complete_for_layers, RealFullSchedulerExecutionCounters,
};
use real_full::execution::batched::{
    batched_cohort_rows, batched_scheduler_program, batched_sparse_pair_starts,
    validate_cohort_completion, BatchedError, BatchedLiveSchedulerRun, BatchedRunError,
    BatchedStep,
};
use real_full::execution::bounded::{BoundedError, BoundedPrefillWavefront};
use real_full::execution::chunks::{
    scheduler_prefill_chunk_count_for_rows, scheduler_prefill_chunk_token_counts_for_rows,
};
use real_full::execution::report::{
    finish_scheduler_execution, finish_stateful_scheduler_execution, plan_layer_work,
    prepare_scheduler_execution, request_graph_stats, scheduler_kv_report_summary,
    CoordinatorCudaGraphStats, DeviceKvSummary, ExecutionOutcome, KvStoreCounts, LayerWork,
    PrefillPipeline, ReportSettings, SetupError, SparseTcp,
};
use real_full::execution::rolling::{
    active_dispatch_limit, rolling_sparse_active_accumulators, rolling_sparse_active_dispatches,
    rolling_sparse_buffered_dispatches, rolling_sparse_max_active_dispatches,
    start_ready_rolling_sparse_dispatches, RollingAdmission, RollingDispatchRound, RollingError,
    RollingLayerStatus, RollingPeaks, RollingTurn, RollingWavefront,
};
use real_full::execution::settings::{
    scan_bf16_values, scheduler_execution_timing_enabled, scheduler_execution_timing_env_enabled,
    scheduler_execution_verbose_timing_enabled, scheduler_terminal_sample_validate_enabled,
    SchedulerExecutionStageTiming,
};
use real_full::execution::shape::{
    bounded_long_prefill_wavefront_required, rolling_sparse_reclaim_aligned_chunk_tokens,
    scheduler_prefill_chunk_count, scheduler_sparse_tcp_iterations_per_sparse_layer,
    validate_scheduler_execution_shape, validate_scheduler_token_ids, PreflightProfile,
    RealFullSchedulerExecutionShape, ShapeError,
};
use real_full::execution::state::{
    admit_scheduler_state, scheduler_state_model_hidden_layers,
    snapshot_layer_has_attention_visible_prefix, validate_live_native_scheduler_contract,
    DeviceKvBinding, KvCacheConfig, KvCacheDType, KvLayout, KvVisibleBlock, LiveContractError,
    ModelBindingError, RealFullSchedulerExecutionState, RebindError, StateError, StateShapeError,
    TokensError,
};
use real_full::execution::terminal::{
    gate_rejection_message, scheduler_deferred_target_lm_head_sample, scheduler_execution_status_for_completion,
    scheduler_final_norm_spec, scheduler_final_norm_tensor,
    scheduler_should_defer_target_lm_head_sample, scheduler_terminal_lm_head_completion_gate,
    scheduler_terminal_lm_head_sample, FinalNormError, LmHeadBackends,
    RealFullSchedulerTerminalLmHeadSample, RealLmHeadChunkScoreForHidden, TerminalBlocker,
    REAL_FULL_FINAL_NORM_EPS_BITS,
};
use real_full::execution::wavefront::{
    first_non_streaming, next_ready_sparse_wavefront_task, poll_outcome, PollOutcome,
    SparseChunkWavefront, WavefrontError, WavefrontVerdict,
    MAX_PENDING_SPARSE_WAVEFRONT_DISPATCHES,
};
use real_full::execution::waves::{
    plan_scheduler_chunk_layer_waves, plan_scheduler_layer_iterations,
    plan_scheduler_prefill_chunks, WaveMode,
};
use real_full::model::{DType, ModelFacts, ModelVariant, TensorCatalog, TensorInfo, TensorRole};

const FLASH_NUM_HIDDEN_LAYERS: usize = 43;
const FLASH_HIDDEN_SIZE: usize = 4_096;
const PRO_NUM_HIDDEN_LAYERS: usize = 61;
const PRO_HIDDEN_SIZE: usize = 7_168;
const PRO_ROUTED_EXPERTS: usize = 384;
const PRO_TOP_K: usize = 6;
/// The most rows that one fused target launch takes.
const FUSION_MAX_ROWS: usize = 9;
const PREFLIGHT_PREFILL_TOKEN_START: usize = 128;
const PREFLIGHT_PREFILL_ROWS: usize = 512;
const PREFLIGHT_DECODE_ROWS: usize = 1;
const PREFLIGHT_MTP_ROWS: usize = 4;
const FINAL_NORM_WEIGHT_NAME: &str = "norm.weight";
const LEGACY_FINAL_NORM_WEIGHT_NAME: &str = "model.norm.weight";
const ARGMAX_BACKEND: &str = "cuda-lm-head-argmax";
const SAMPLER_BACKEND: &str = "cuda-lm-head-sample";
const TRITON_BACKEND: &str = "triton-lm-head-sample";

fn flash_facts() -> ModelFacts {
    ModelFacts {
        model_type: "deepseek_v4".to_owned(),
        variant: ModelVariant::Flash,
        hidden_size: FLASH_HIDDEN_SIZE,
        num_hidden_layers: FLASH_NUM_HIDDEN_LAYERS,
        first_k_dense_replace: 0,
        num_hash_layers: 3,
        dspark_blocks: 3,
        routed_experts: 256,
        shared_experts: 1,
        top_k: 6,
        moe_intermediate_size: 2_048,
        vocab_size: 129_280,
        head_dim: 512,
        scoring_function: "sqrtsoftplus".to_owned(),
        topk_method: "noaux_tc".to_owned(),
        routed_scaling_factor_bits: 1.5_f32.to_bits(),
        rms_norm_eps_bits: 1.0e-6_f32.to_bits(),
        quantization_recipe: "deepseek_v4_native_fp4_fp8_mixed_v1".to_owned(),
    }
}

/// A shape from its prefix, prefill and chunk tokens, and its decode, verify
/// and accepted rows.
fn shape(name: &str, tokens: [usize; 3], rows: [usize; 3]) -> RealFullSchedulerExecutionShape {
    RealFullSchedulerExecutionShape {
        request_id: name.to_owned(),
        sequence_id: format!("{name}-sequence"),
        placement_version: format!("{name}-version"),
        prefix_tokens: tokens[0],
        prefill_tokens: tokens[1],
        prefill_chunk_tokens: tokens[2],
        decode_rows: rows[0],
        mtp_rows: rows[1],
        mtp_accepted_rows: rows[2],
        prefill_token_ids: None,
        decode_token_ids: None,
    }
}

fn preflight() -> RealFullSchedulerExecutionShape {
    RealFullSchedulerExecutionShape::preflight(&PreflightProfile {
        request_id: "preflight".to_owned(),
        sequence_id: "preflight-sequence".to_owned(),
        prefill_token_start: PREFLIGHT_PREFILL_TOKEN_START,
        prefill_rows: PREFLIGHT_PREFILL_ROWS,
        decode_rows: PREFLIGHT_DECODE_ROWS,
        mtp_rows: PREFLIGHT_MTP_ROWS,
        mtp_accepted_rows: 2,
    })
}

fn scheduler_device_attention_launch_range(
    shape: &RealFullSchedulerExecutionShape,
) -> (usize, usize) {
    scheduler_device_attention_launch_range_for_layers(
        shape,
        FLASH_NUM_HIDDEN_LAYERS,
        FUSION_MAX_ROWS,
    )
}

fn scheduler_expected_device_attention_rows(shape: &RealFullSchedulerExecutionShape) -> usize {
    scheduler_expected_device_attention_rows_for_layers(shape, FLASH_NUM_HIDDEN_LAYERS)
}

fn scheduler_full_context_device_attention_complete(
    shape: &RealFullSchedulerExecutionShape,
    counters: &RealFullSchedulerExecutionCounters,
    numeric_progression_passed: bool,
    uses_device_kv_cache: bool,
) -> bool {
    scheduler_full_context_device_attention_complete_for_layers(
        shape,
        counters,
        numeric_progression_passed,
        uses_device_kv_cache,
        FLASH_NUM_HIDDEN_LAYERS,
        FLASH_HIDDEN_SIZE,
        FUSION_MAX_ROWS,
    )
}

#[test]
fn rolling_sparse_chunks_align_to_reclaim_page_divisors() {
    assert_eq!(rolling_sparse_reclaim_aligned_chunk_tokens(1), 1);
    assert_eq!(rolling_sparse_reclaim_aligned_chunk_tokens(512), 512);
    assert_eq!(rolling_sparse_reclaim_aligned_chunk_tokens(1_026), 1_024);
    assert_eq!(rolling_sparse_reclaim_aligned_chunk_tokens(1_290), 1_024);
    assert_eq!(rolling_sparse_reclaim_aligned_chunk_tokens(2_032), 1_024);
    assert_eq!(rolling_sparse_reclaim_aligned_chunk_tokens(2_048), 2_048);
    assert_eq!(rolling_sparse_reclaim_aligned_chunk_tokens(4_096), 2_048);
}

#[test]
fn aligned_chunks_divide_a_page() {
    for planned in 1..5_000 {
        let aligned = rolling_sparse_reclaim_aligned_chunk_tokens(planned);
        assert_eq!(2_048 % aligned, 0);
        assert!(aligned <= planned);
    }
}

#[test]
fn scheduler_attention_launch_range_accounts_for_fused_mtp_target_rows() {
    let mut shape = preflight();
    shape.prefill_tokens = 0;
    shape.decode_rows = 1;
    shape.mtp_rows = 6;
    assert_eq!(
        scheduler_device_attention_launch_range(&shape),
        (FLASH_NUM_HIDDEN_LAYERS, FLASH_NUM_HIDDEN_LAYERS * 7)
    );

    shape.mtp_rows = 8;
    assert_eq!(
        scheduler_device_attention_launch_range(&shape),
        (FLASH_NUM_HIDDEN_LAYERS, FLASH_NUM_HIDDEN_LAYERS * 9)
    );

    shape.mtp_rows = 0;
    assert_eq!(
        scheduler_device_attention_launch_range(&shape),
        (FLASH_NUM_HIDDEN_LAYERS, FLASH_NUM_HIDDEN_LAYERS)
    );
}

#[test]
fn scheduler_attention_completion_gate_accepts_flash_and_pro_geometry() {
    let mut shape = preflight();
    shape.prefix_tokens = 0;
    shape.prefill_tokens = 0;
    shape.decode_rows = 1;
    shape.mtp_rows = 6;
    shape.mtp_accepted_rows = 6;

    for (layer_count, hidden_size) in [
        (FLASH_NUM_HIDDEN_LAYERS, FLASH_HIDDEN_SIZE),
        (PRO_NUM_HIDDEN_LAYERS, PRO_HIDDEN_SIZE),
    ] {
        let expected_query_rows = layer_count * 7;
        let (expected_launches, expected_launches_max) =
            scheduler_device_attention_launch_range_for_layers(
                &shape,
                layer_count,
                FUSION_MAX_ROWS,
            );
        assert_eq!(expected_launches, layer_count);
        assert_eq!(expected_launches_max, expected_query_rows);

        let counters = RealFullSchedulerExecutionCounters {
            device_attention_launches: expected_launches,
            device_attention_hidden_projection_launches: expected_launches,
            device_attention_rows: expected_query_rows,
            device_attention_query_rows: expected_query_rows,
            device_attention_kv_descriptors: expected_launches,
            device_attention_output_values: expected_query_rows * hidden_size,
            layer_order_verified: true,
            ..Default::default()
        };
        assert!(scheduler_full_context_device_attention_complete_for_layers(
            &shape,
            &counters,
            true,
            true,
            layer_count,
            hidden_size,
            FUSION_MAX_ROWS,
        ));
    }
}

fn hybrid_config(max_tokens: usize, facts: &ModelFacts) -> KvCacheConfig {
    KvCacheConfig {
        layout: KvLayout::DeepseekV4HybridBf16,
        layers: facts.num_hidden_layers,
        key_value_width: facts.head_dim,
        dtype: KvCacheDType::Bf16,
        mla_representation: 0,
        dsa_indexer_layers: 0,
        dsa_index_head_dim: 0,
        fp8_scale_metadata_bytes_per_token: 0,
        max_tokens,
    }
}

fn with_dspark_layers(config: &KvCacheConfig, facts: &ModelFacts) -> KvCacheConfig {
    let mut config = config.clone();
    config.layers = facts.total_transformer_blocks();
    config
}

#[test]
fn scheduler_arena_binds_target_layers_from_deepseek_catalog() {
    let facts = flash_facts();
    let target_config = hybrid_config(128, &facts);
    assert_eq!(
        scheduler_state_model_hidden_layers(&target_config, &facts).unwrap(),
        facts.num_hidden_layers
    );

    let dspark_config = with_dspark_layers(&target_config, &facts);
    assert_eq!(dspark_config.layers, facts.total_transformer_blocks());
    assert_eq!(
        scheduler_state_model_hidden_layers(&dspark_config, &facts).unwrap(),
        facts.num_hidden_layers
    );

    let mut drifted = facts.clone();
    drifted.num_hidden_layers += 1;
    assert!(scheduler_state_model_hidden_layers(&target_config, &drifted).is_err());

    let mut inherited = facts;
    inherited.model_type = "glm".to_owned();
    assert!(scheduler_state_model_hidden_layers(&target_config, &inherited).is_err());
}

#[test]
fn live_scheduler_contract_requires_deepseek_native_target_metadata() {
    let catalog = tiny_lm_head_catalog(4, 2, 0);
    let target_config = hybrid_config(128, &catalog.facts);
    validate_live_native_scheduler_contract(&target_config, &catalog).unwrap();
    validate_live_native_scheduler_contract(
        &with_dspark_layers(&target_config, &catalog.facts),
        &catalog,
    )
    .unwrap();

    let mut non_native = target_config.clone();
    non_native.layout = KvLayout::ExpandedDebugOnly;
    assert!(validate_live_native_scheduler_contract(&non_native, &catalog).is_err());

    let mut foreign_catalog = catalog;
    foreign_catalog.facts.model_type = "glm4_moe".to_owned();
    assert!(validate_live_native_scheduler_contract(&target_config, &foreign_catalog).is_err());
}

#[test]
fn live_contract_names_the_first_mismatch() {
    let catalog = tiny_lm_head_catalog(4, 2, 0);
    let good = hybrid_config(128, &catalog.facts);
    let mut config = good.clone();
    config.dtype = KvCacheDType::Other { code: 7 };
    assert!(matches!(
        validate_live_native_scheduler_contract(&config, &catalog),
        Err(LiveContractError::DType {
            dtype: KvCacheDType::Other { code: 7 }
        })
    ));
    let said = |config: &KvCacheConfig| {
        validate_live_native_scheduler_contract(config, &catalog)
            .unwrap_err()
            .message("expanded", "fp8")
    };
    assert_eq!(
        said(&config),
        "live DeepSeek scheduler transactional KV metadata must remain BF16, got fp8"
    );
    config = good.clone();
    config.layout = KvLayout::ExpandedDebugOnly;
    assert_eq!(
        said(&config),
        "live DeepSeek scheduler requires the native hybrid KV metadata layout, got expanded"
    );
    let mut legacy = tiny_lm_head_catalog(4, 2, 0);
    legacy.facts.model_type = "glm\n".to_owned();
    assert_eq!(
        validate_live_native_scheduler_contract(&good, &legacy)
            .unwrap_err()
            .message("", ""),
        "live scheduler requires a DeepSeek V4 catalog, got \"glm\\n\""
    );
    config = good.clone();
    config.key_value_width = 576;
    assert_eq!(
        said(&config),
        "live DeepSeek scheduler KV width 576 differs from model head dimension 512"
    );
    assert!(matches!(
        validate_live_native_scheduler_contract(&config, &catalog),
        Err(LiveContractError::Width {
            kv_width: 576,
            head_dim: 512
        })
    ));
    config = good;
    config.layers = 44;
    assert_eq!(
        said(&config),
        "live DeepSeek scheduler KV layer count 44 must cover 43 target blocks or all 46 target+dSpark blocks"
    );
    assert!(matches!(
        validate_live_native_scheduler_contract(&config, &catalog),
        Err(LiveContractError::Layers {
            kv_layers: 44,
            target_layers: 43,
            all_blocks: 46
        })
    ));
}

#[test]
fn scheduler_stage_timing_uses_active_model_sparse_boundary() {
    let flash = flash_facts();
    let flash_timing = SchedulerExecutionStageTiming::new(&flash);
    assert_eq!(flash_timing.layer_class(0), 1);
    assert_eq!(flash_timing.layer_class(flash.num_hidden_layers - 1), 1);

    let mut inherited_dense_prefix = flash;
    inherited_dense_prefix.first_k_dense_replace = 3;
    let inherited_timing = SchedulerExecutionStageTiming::new(&inherited_dense_prefix);
    assert_eq!(inherited_timing.layer_class(0), 0);
    assert_eq!(inherited_timing.layer_class(2), 0);
    assert_eq!(inherited_timing.layer_class(3), 1);
}

#[test]
fn c4_and_c8_preserve_interleaved_pair_wavefronts() {
    assert_eq!(batched_sparse_pair_starts(1), None);
    assert_eq!(batched_sparse_pair_starts(2), None);
    assert_eq!(batched_sparse_pair_starts(3), None);
    assert_eq!(batched_sparse_pair_starts(4), Some(vec![0, 2]));
    assert_eq!(batched_sparse_pair_starts(8), Some(vec![0, 2, 4, 6]));
}

#[test]
fn sparse_wavefront_preserves_chunk_and_layer_dependencies() {
    const LAYERS: usize = 3;
    const CHUNKS: usize = 4;

    let mut started = vec![vec![false; CHUNKS]; LAYERS];
    let mut finished = vec![vec![false; CHUNKS]; LAYERS];
    let mut pending = std::collections::VecDeque::new();
    let mut completed = 0;

    while completed < LAYERS * CHUNKS {
        while pending.len() < MAX_PENDING_SPARSE_WAVEFRONT_DISPATCHES {
            let Some(task) = next_ready_sparse_wavefront_task(&started, &finished) else {
                break;
            };
            assert!(task.layer_offset == 0 || finished[task.layer_offset - 1][task.chunk_index]);
            assert!(task.chunk_index == 0 || started[task.layer_offset][task.chunk_index - 1]);
            started[task.layer_offset][task.chunk_index] = true;
            pending.push_back(task);
        }

        let task = pending.pop_front().expect("wavefront must not stall");
        finished[task.layer_offset][task.chunk_index] = true;
        completed += 1;
    }

    assert!(started.iter().flatten().all(|started| *started));
    assert!(finished.iter().flatten().all(|finished| *finished));
}

fn tiny_lm_head_catalog(vocab: usize, hidden_dim: usize, byte_length: usize) -> TensorCatalog {
    TensorCatalog {
        facts: flash_facts(),
        tensors: vec![
            TensorInfo {
                name: "lm_head.weight".to_owned(),
                dtype: DType::Bf16,
                shape: vec![vocab, hidden_dim],
                byte_length: byte_length as u64,
                role: TensorRole::LmHead,
                layer_id: None,
                expert_id: None,
                is_quantization_metadata: false,
            },
            TensorInfo {
                name: FINAL_NORM_WEIGHT_NAME.to_owned(),
                dtype: DType::Bf16,
                shape: vec![hidden_dim],
                byte_length: (hidden_dim * std::mem::size_of::<u16>()) as u64,
                role: TensorRole::Norm,
                layer_id: None,
                expert_id: None,
                is_quantization_metadata: false,
            },
        ],
    }
}

fn tiny_legacy_lm_head_catalog(
    vocab: usize,
    hidden_dim: usize,
    byte_length: usize,
) -> TensorCatalog {
    let mut catalog = tiny_lm_head_catalog(vocab, hidden_dim, byte_length);
    catalog.facts.model_type = "glm4_moe".to_owned();
    catalog.facts.quantization_recipe = "test-synthetic-one-host".to_owned();
    catalog.tensors[1].name = LEGACY_FINAL_NORM_WEIGHT_NAME.to_owned();
    catalog
}

#[test]
fn scheduler_final_norm_uses_deepseek_root_name_and_checkpoint_epsilon() {
    let mut catalog = tiny_lm_head_catalog(4, 2, 0);
    catalog.facts.rms_norm_eps_bits = 3.0e-6_f32.to_bits();
    assert_eq!(
        scheduler_final_norm_spec(&catalog.facts),
        (FINAL_NORM_WEIGHT_NAME, 3.0e-6_f32.to_bits())
    );

    let catalog = tiny_legacy_lm_head_catalog(4, 2, 0);
    assert_eq!(
        scheduler_final_norm_spec(&catalog.facts),
        (LEGACY_FINAL_NORM_WEIGHT_NAME, REAL_FULL_FINAL_NORM_EPS_BITS)
    );
    assert_eq!(REAL_FULL_FINAL_NORM_EPS_BITS, 1.0e-5_f32.to_bits());
}

#[test]
fn final_norm_weight_has_to_fit_the_hidden_state() {
    let catalog = tiny_lm_head_catalog(4, 2, 0);
    assert_eq!(scheduler_final_norm_tensor(&catalog, 2), Ok(1));
    assert_eq!(
        scheduler_final_norm_tensor(&catalog, 3),
        Err(FinalNormError::Mismatch { tensor: 1 })
    );
    let mut missing = catalog;
    missing.tensors.pop();
    assert_eq!(
        scheduler_final_norm_tensor(&missing, 2),
        Err(FinalNormError::Missing)
    );
    assert_eq!(
        FinalNormError::Missing.message(&missing, 2, "", ""),
        "scheduler terminal sampling requires norm.weight"
    );
    let catalog = tiny_lm_head_catalog(4, 2, 0);
    assert_eq!(
        FinalNormError::Mismatch { tensor: 1 }.message(&catalog, 3, "", ""),
        "scheduler terminal final_norm tensor mismatch: name=norm.weight dtype=Bf16 role=Norm shape=[2] expected BF16 Norm [3]"
    );
    let mut other = catalog;
    other.tensors[1].dtype = DType::Other;
    other.tensors[1].role = TensorRole::Other;
    assert_eq!(
        FinalNormError::Mismatch { tensor: 1 }.message(&other, 2, "F16", "Unknown"),
        "scheduler terminal final_norm tensor mismatch: name=norm.weight dtype=F16 role=Unknown shape=[2] expected BF16 Norm [2]"
    );
}

#[test]
fn scheduler_execution_shape_places_mtp_after_decode_rows() {
    let shape = shape("request-shaped-mtp-placement", [0, 9, 4], [2, 3, 1]);

    assert_eq!(shape.decode_token_start(), 9);
    assert_eq!(shape.mtp_token_start(), 11);
    assert_eq!(shape.reservation_tokens(), 14);
}

#[test]
fn scheduler_execution_shape_offsets_active_rows_after_prefix_context() {
    let shape = shape("request-shaped-prefix-placement", [128, 3, 2], [2, 1, 1]);
    let chunks = plan_scheduler_prefill_chunks(&shape, 7, 99, 2);

    assert_eq!(shape.prefill_token_start(), 128);
    assert_eq!(shape.decode_token_start(), 131);
    assert_eq!(shape.mtp_token_start(), 133);
    assert_eq!(shape.reservation_tokens(), 134);
    assert_eq!(chunks.len(), 2);
    assert_eq!(chunks[0].token_start, 128);
    assert_eq!(chunks[0].token_count, 2);
    assert_eq!(chunks[1].token_start, 130);
    assert_eq!(chunks[1].token_count, 1);
}

#[test]
fn scheduler_prefill_chunks_cover_64_token_live_target() {
    let shape = shape("request-shaped-prefill-64", [0, 130, 64], [1, 0, 0]);
    let chunks = plan_scheduler_prefill_chunks(&shape, 7, 99, 64);

    assert_eq!(chunks.len(), 3);
    assert_eq!(chunks[0].token_start, 0);
    assert_eq!(chunks[0].token_count, 64);
    assert_eq!(chunks[1].token_start, 64);
    assert_eq!(chunks[1].token_count, 64);
    assert_eq!(chunks[2].token_start, 128);
    assert_eq!(chunks[2].token_count, 2);
}

#[test]
fn scheduler_prefill_chunks_reserve_final_joint_decode_capacity() {
    let shape = shape(
        "request-shaped-prefill-joint-terminal",
        [0, 8_192, 2_048],
        [1, 0, 0],
    );
    let chunks = plan_scheduler_prefill_chunks(&shape, 7, 99, 2_048);

    assert_eq!(chunks.len(), 5);
    assert_eq!(
        chunks.iter().map(|chunk| chunk.token_count).sum::<usize>(),
        shape.prefill_tokens
    );
    assert!(chunks
        .iter()
        .all(|chunk| chunk.token_count <= shape.prefill_chunk_tokens));
    assert!(
        chunks.last().unwrap().token_count + shape.decode_rows + shape.mtp_rows
            <= shape.prefill_chunk_tokens
    );
    assert_eq!(scheduler_prefill_chunk_count(&shape), chunks.len());
    assert_eq!(
        scheduler_sparse_tcp_iterations_per_sparse_layer(&shape, None),
        5
    );
    assert_eq!(
        scheduler_device_attention_launch_range(&shape),
        (FLASH_NUM_HIDDEN_LAYERS * 6, FLASH_NUM_HIDDEN_LAYERS * 6,)
    );
    assert_eq!(
        scheduler_expected_device_attention_rows(&shape),
        FLASH_NUM_HIDDEN_LAYERS * 35_841
    );
}

#[test]
fn scheduler_long_prefill_waves_preserve_pro_geometry() {
    let shape = shape("request-shaped-pro-prefill", [0, 8_192, 2_048], [1, 5, 0]);
    let mut facts = flash_facts();
    facts.hidden_size = PRO_HIDDEN_SIZE;
    facts.num_hidden_layers = PRO_NUM_HIDDEN_LAYERS;
    facts.routed_experts = PRO_ROUTED_EXPERTS;
    facts.top_k = PRO_TOP_K;

    let chunks = plan_scheduler_chunk_layer_waves(&shape, 0, 99, 2_048, &facts);

    assert_eq!(chunks.len(), 5);
    assert!(chunks.iter().flatten().all(|wave| {
        wave.geometry.hidden_dim == PRO_HIDDEN_SIZE
            && wave.geometry.bytes_per_row == PRO_HIDDEN_SIZE * std::mem::size_of::<u16>()
            && wave.geometry.routed_experts == PRO_ROUTED_EXPERTS
            && wave.geometry.top_k == PRO_TOP_K
    }));
}

#[test]
fn scheduler_sparse_tcp_execution_returns_residual_probe_when_cuda_disabled() {
    let shape = shape("scheduler-sparse-tcp-no-cuda", [0, 1, 1], [2, 0, 0]);

    assert_eq!(
        scheduler_sparse_tcp_iterations_per_sparse_layer(&shape, None),
        1
    );
}

#[test]
fn some_task_is_ready_when_none_is_under_way() {
    const LAYERS: usize = 2;
    const CHUNKS: usize = 3;
    for cells in 0..(1_u32 << (LAYERS * CHUNKS)) {
        let finished: Vec<Vec<bool>> = (0..LAYERS)
            .map(|layer| {
                (0..CHUNKS)
                    .map(|chunk| cells >> (layer * CHUNKS + chunk) & 1 == 1)
                    .collect()
            })
            .collect();
        let all = cells + 1 == 1 << (LAYERS * CHUNKS);
        assert_eq!(
            next_ready_sparse_wavefront_task(&finished, &finished).is_none(),
            all
        );
    }
}

#[test]
fn scheduler_expected_device_attention_rows_include_persistent_prefix() {
    let shape = shape("request-shaped-prefix-decode", [4, 0, 512], [1, 1, 1]);

    assert_eq!(
        scheduler_expected_device_attention_rows(&shape),
        FLASH_NUM_HIDDEN_LAYERS * 11
    );
}

#[test]
fn scheduler_expected_device_attention_rows_allow_sequential_mtp_queries() {
    let shape = shape(
        "request-shaped-prefix-sequential-mtp",
        [4, 0, 512],
        [1, 2, 2],
    );

    assert_eq!(
        scheduler_expected_device_attention_rows(&shape),
        FLASH_NUM_HIDDEN_LAYERS * 18
    );
}

#[test]
fn scheduler_expected_device_attention_rows_include_decode_only_prefix() {
    let shape = shape("request-shaped-prefix-decode-only", [4, 0, 512], [1, 0, 0]);

    assert_eq!(
        scheduler_expected_device_attention_rows(&shape),
        FLASH_NUM_HIDDEN_LAYERS * 5
    );
}

fn backends() -> LmHeadBackends {
    LmHeadBackends {
        argmax: ARGMAX_BACKEND.to_owned(),
        sampler: SAMPLER_BACKEND.to_owned(),
        triton_sampler: TRITON_BACKEND.to_owned(),
    }
}

#[test]
fn scheduler_terminal_lm_head_sample_reports_missing_final_device_hidden() {
    let sample = scheduler_terminal_lm_head_sample(
        None,
        Ok(terminal_lm_head_score_for_completion_gate_test()),
        &backends(),
    );

    assert_eq!(sample.status, "not-run");
    assert!(!sample.uses_final_decode_device_hidden);
    assert!(!sample.passed);
    assert!(sample.blocker.is_some());
    assert_eq!(
        scheduler_execution_status_for_completion(&sample, false),
        "admitted-scheduler-dry-run"
    );
}

#[test]
fn terminal_sample_follows_its_score() {
    let score = terminal_lm_head_score_for_completion_gate_test();
    let sample = scheduler_terminal_lm_head_sample(Some(2), Ok(score.clone()), &backends());
    assert_eq!(sample.status, "sampled");
    assert!(sample.passed);
    assert_eq!(sample.top_token_id, Some(2));
    assert_eq!(sample.sampled_token_id, Some(1));
    assert_eq!(sample.sample_top_p_bits, Some(0.95_f32.to_bits()));
    assert!(sample.blocker.is_none());
    let mut narrow = score;
    narrow.covers_full_vocabulary = false;
    let sample = scheduler_terminal_lm_head_sample(Some(2), Ok(narrow), &backends());
    assert!(!sample.passed);
    assert!(matches!(sample.blocker, Some(TerminalBlocker::GateRejected)));
    let sample =
        scheduler_terminal_lm_head_sample(Some(2), Err("no weight".to_owned()), &backends());
    assert!(!sample.passed);
    match sample.blocker {
        Some(TerminalBlocker::Failed(text)) => assert_eq!(text, "no weight"),
        _ => panic!("the failure is kept"),
    }
    let deferred = scheduler_deferred_target_lm_head_sample(Some(2));
    assert!(deferred.top_token_id.is_none() && deferred.sampled_token_id.is_none());
    let blocked = scheduler_deferred_target_lm_head_sample(None);
    assert!(matches!(
        blocked.blocker,
        Some(TerminalBlocker::DeferredHiddenUnavailable)
    ));
}

#[test]
fn scheduler_defers_only_retained_speculative_target_sampling() {
    assert!(scheduler_should_defer_target_lm_head_sample(true, 1, false));
    assert!(scheduler_should_defer_target_lm_head_sample(
        true, 15, false
    ));
    assert!(!scheduler_should_defer_target_lm_head_sample(
        true, 0, false
    ));
    assert!(scheduler_should_defer_target_lm_head_sample(true, 0, true));
    assert!(!scheduler_should_defer_target_lm_head_sample(
        false, 15, true
    ));
}

#[test]
fn scheduler_terminal_lm_head_completion_gate_rejects_greedy_or_non_cuda_sampling() {
    let backends = backends();
    let mut sample = terminal_lm_head_score_for_completion_gate_test();
    assert!(scheduler_terminal_lm_head_completion_gate(
        &sample, &backends
    ));

    sample.sample_top_k = 1;
    assert!(!scheduler_terminal_lm_head_completion_gate(
        &sample, &backends
    ));

    sample = terminal_lm_head_score_for_completion_gate_test();
    sample.sampler_kernel_backend = TRITON_BACKEND.to_owned();
    assert!(scheduler_terminal_lm_head_completion_gate(
        &sample, &backends
    ));

    sample = terminal_lm_head_score_for_completion_gate_test();
    sample.sampler_kernel_backend = "cpu-reference-lm-head-sample-topk-topp-bf16".to_owned();
    assert!(!scheduler_terminal_lm_head_completion_gate(
        &sample, &backends
    ));
}

#[test]
fn completion_gate_reads_the_float_fields() {
    let backends = backends();
    let with = |change: fn(&mut RealLmHeadChunkScoreForHidden)| {
        let mut score = terminal_lm_head_score_for_completion_gate_test();
        change(&mut score);
        scheduler_terminal_lm_head_completion_gate(&score, &backends)
    };
    assert!(with(|_| {}));
    assert!(!with(|s| s.top_logit_bits = f32::NAN.to_bits()));
    assert!(!with(|s| s.sampled_score_bits = f32::INFINITY.to_bits()));
    assert!(!with(|s| s.sample_temperature_bits = 0.0_f32.to_bits()));
    assert!(!with(|s| s.sample_top_p_bits = 1.5_f32.to_bits()));
    assert!(!with(|s| s.sample_top_p_bits = 0.0_f32.to_bits()));
    assert!(!with(|s| s.logits_evaluated = 3));
}

#[test]
fn scheduler_execution_status_tracks_terminal_lm_head_sample_gate() {
    let passed = RealFullSchedulerTerminalLmHeadSample {
        status: "sampled",
        scope: "test",
        uses_final_decode_device_hidden: true,
        covers_full_vocabulary: true,
        hidden_dim: 2,
        vocab_size: 4,
        logits_evaluated: 4,
        top_token_id: Some(2),
        sampled_token_id: Some(1),
        sample_top_k: Some(4),
        sample_top_p_bits: Some(0.95_f32.to_bits()),
        argmax_kernel_backend: Some(ARGMAX_BACKEND.to_owned()),
        sampler_kernel_backend: Some(SAMPLER_BACKEND.to_owned()),
        passed: true,
        blocker: None,
    };
    assert_eq!(
        scheduler_execution_status_for_completion(&passed, true),
        "admitted-scheduler-terminal-lm-head-sampled"
    );
    assert_eq!(
        scheduler_execution_status_for_completion(&passed, false),
        "admitted-scheduler-terminal-lm-head-blocked"
    );

    let mut blocked = passed;
    blocked.status = "blocked";
    blocked.passed = false;
    blocked.blocker = Some(TerminalBlocker::Failed(
        "full resident lm_head missing".to_owned(),
    ));
    assert_eq!(
        scheduler_execution_status_for_completion(&blocked, true),
        "admitted-scheduler-terminal-lm-head-blocked"
    );

    let not_run = RealFullSchedulerTerminalLmHeadSample {
        uses_final_decode_device_hidden: false,
        ..blocked
    };
    assert_eq!(
        scheduler_execution_status_for_completion(&not_run, true),
        "admitted-scheduler-dry-run"
    );
}

#[test]
fn scheduler_full_context_device_attention_gate_requires_hidden_projection_launches() {
    let shape = preflight();
    let expected_launches = FLASH_NUM_HIDDEN_LAYERS * 4;
    let expected_query_rows = FLASH_NUM_HIDDEN_LAYERS
        * (PREFLIGHT_PREFILL_TOKEN_START
            + PREFLIGHT_PREFILL_ROWS
            + PREFLIGHT_DECODE_ROWS
            + PREFLIGHT_MTP_ROWS);
    let mut counters = RealFullSchedulerExecutionCounters {
        device_attention_launches: expected_launches,
        device_attention_hidden_projection_launches: expected_launches,
        device_attention_rows: scheduler_expected_device_attention_rows(&shape),
        device_attention_query_rows: expected_query_rows,
        device_attention_kv_descriptors: expected_launches,
        device_attention_output_values: expected_query_rows * FLASH_HIDDEN_SIZE,
        device_attention_output_finite_values: expected_query_rows * FLASH_HIDDEN_SIZE,
        device_attention_output_nonzero_values: 1,
        device_attention_output_checksum_bits: 1.0_f64.to_bits(),
        layer_order_verified: true,
        ..Default::default()
    };

    assert!(scheduler_full_context_device_attention_complete(
        &shape, &counters, true, true
    ));
    counters.device_attention_output_finite_values = 0;
    counters.device_attention_output_nonzero_values = 0;
    counters.device_attention_output_checksum_bits = 0.0_f64.to_bits();
    assert!(scheduler_full_context_device_attention_complete(
        &shape, &counters, true, true
    ));

    counters.device_attention_hidden_projection_launches = expected_launches - 1;
    assert!(!scheduler_full_context_device_attention_complete(
        &shape, &counters, true, true
    ));
    counters.device_attention_hidden_projection_launches = expected_launches;
    counters.device_attention_kv_descriptors = expected_launches - 1;
    assert!(!scheduler_full_context_device_attention_complete(
        &shape, &counters, true, true
    ));
    counters.device_attention_kv_descriptors = scheduler_expected_device_attention_rows(&shape) + 1;
    assert!(!scheduler_full_context_device_attention_complete(
        &shape, &counters, true, true
    ));
}

#[test]
fn scheduler_full_context_device_attention_gate_accepts_compact_suffix_rows() {
    let shape = shape("request-shaped-compact-suffix", [0, 9, 1024], [1, 0, 0]);
    let expected_launches = FLASH_NUM_HIDDEN_LAYERS * 2;
    let expected_query_rows = FLASH_NUM_HIDDEN_LAYERS * 10;
    let expected_context_rows = FLASH_NUM_HIDDEN_LAYERS * 19;
    let mut counters = RealFullSchedulerExecutionCounters {
        device_attention_launches: expected_launches,
        device_attention_hidden_projection_launches: expected_launches,
        device_attention_rows: expected_query_rows,
        device_attention_query_rows: expected_query_rows,
        device_attention_kv_descriptors: expected_launches,
        device_attention_output_values: expected_query_rows * FLASH_HIDDEN_SIZE,
        device_attention_output_finite_values: expected_query_rows * FLASH_HIDDEN_SIZE,
        device_attention_output_nonzero_values: 1,
        device_attention_output_checksum_bits: 1.0_f64.to_bits(),
        layer_order_verified: true,
        ..Default::default()
    };

    assert_eq!(
        scheduler_expected_device_attention_rows(&shape),
        expected_context_rows
    );
    assert!(scheduler_full_context_device_attention_complete(
        &shape, &counters, true, true
    ));

    counters.device_attention_rows = expected_query_rows - 1;
    assert!(!scheduler_full_context_device_attention_complete(
        &shape, &counters, true, true
    ));
}

#[test]
fn scheduler_full_context_device_attention_gate_accepts_token_granular_decode_prefix() {
    let shape = shape(
        "request-shaped-token-granular-prefix",
        [18, 0, 512],
        [1, 0, 0],
    );
    let expected_launches = FLASH_NUM_HIDDEN_LAYERS;
    let expected_query_rows = FLASH_NUM_HIDDEN_LAYERS;
    let expected_rows = FLASH_NUM_HIDDEN_LAYERS * 19;
    let counters = RealFullSchedulerExecutionCounters {
        device_attention_launches: expected_launches,
        device_attention_hidden_projection_launches: expected_launches,
        device_attention_rows: expected_rows,
        device_attention_query_rows: expected_query_rows,
        device_attention_kv_descriptors: expected_rows,
        device_attention_output_values: expected_query_rows * FLASH_HIDDEN_SIZE,
        device_attention_output_finite_values: expected_query_rows * FLASH_HIDDEN_SIZE,
        device_attention_output_nonzero_values: 1,
        device_attention_output_checksum_bits: 1.0_f64.to_bits(),
        layer_order_verified: true,
        ..Default::default()
    };

    assert_eq!(
        scheduler_expected_device_attention_rows(&shape),
        expected_rows
    );
    assert!(scheduler_full_context_device_attention_complete(
        &shape, &counters, true, true
    ));
}

#[test]
fn bounded_long_prefill_probe_counts_physical_chunk_dispatches() {
    let shape = shape("bounded-long-prefill-probe", [0, 132_031, 2_032], [1, 0, 0]);

    assert!(bounded_long_prefill_wavefront_required(
        shape.prefill_tokens + shape.decode_rows
    ));
    assert_eq!(
        scheduler_sparse_tcp_iterations_per_sparse_layer(&shape, None),
        scheduler_prefill_chunk_count(&shape)
    );
}

fn terminal_lm_head_score_for_completion_gate_test() -> RealLmHeadChunkScoreForHidden {
    RealLmHeadChunkScoreForHidden {
        hidden_dim: 2,
        vocab_size: 4,
        logits_evaluated: 4,
        covers_full_vocabulary: true,
        argmax_kernel_backend: ARGMAX_BACKEND.to_owned(),
        sampler_kernel_backend: SAMPLER_BACKEND.to_owned(),
        top_token_id: 2,
        top_logit_bits: 3.0_f32.to_bits(),
        sampled_token_id: 1,
        sampled_score_bits: 0.25_f32.to_bits(),
        sample_temperature_bits: 0.7_f32.to_bits(),
        sample_top_k: 4,
        sample_top_p_bits: 0.95_f32.to_bits(),
    }
}

#[test]
fn chunk_counts_cover_all_rows_and_leave_room_for_the_last() {
    assert_eq!(
        scheduler_prefill_chunk_token_counts_for_rows(130, 64, 1),
        vec![64, 64, 2]
    );
    let counts = scheduler_prefill_chunk_token_counts_for_rows(8_192, 2_048, 6);
    assert_eq!(counts.iter().sum::<usize>(), 8_192);
    assert_eq!(counts.len(), 5);
    assert!(counts[4] + 6 <= 2_048);
    assert_eq!(scheduler_prefill_chunk_count_for_rows(8_192, 2_048, 6), 5);
    assert!(scheduler_prefill_chunk_token_counts_for_rows(0, 64, 1).is_empty());
}

#[test]
fn shapes_are_refused_for_a_named_reason() {
    let good = shape("shape", [0, 9, 4], [2, 3, 1]);
    assert_eq!(validate_scheduler_execution_shape(&good), Ok(()));
    let mut bad = good.clone();
    bad.prefill_chunk_tokens = 0;
    assert_eq!(
        validate_scheduler_execution_shape(&bad),
        Err(ShapeError::ZeroChunk)
    );
    bad = good.clone();
    bad.decode_rows = 0;
    assert_eq!(
        validate_scheduler_execution_shape(&bad),
        Err(ShapeError::NoDecodeRow)
    );
    bad = good.clone();
    bad.mtp_accepted_rows = 4;
    let error = validate_scheduler_execution_shape(&bad).unwrap_err();
    assert_eq!(error, ShapeError::AcceptedExceedsMtp);
    assert!(!error.message().is_empty());
    bad = good.clone();
    bad.prefill_token_ids = Some(vec![1; 8]);
    assert_eq!(
        validate_scheduler_token_ids(&bad),
        Err(ShapeError::PromptTokenCount {
            ids: 8,
            prefill_tokens: 9
        })
    );
    bad = good;
    bad.decode_token_ids = Some(vec![1; 4]);
    assert_eq!(
        validate_scheduler_token_ids(&bad),
        Err(ShapeError::DecodeTokenCount {
            ids: 4,
            decode_rows: 2,
            target_rows: 5
        })
    );
}

#[test]
fn layer_iterations_put_every_row_in_one_wave() {
    let shape = shape("iterations", [0, 10, 4], [1, 2, 1]);
    let iterations = plan_scheduler_layer_iterations(&shape, 3, 99, 4, &flash_facts());
    let mut prefill = 0;
    let mut decode = 0;
    let mut verify = 0;
    let mut next = 0;
    for wave in iterations.iter().flat_map(|iteration| &iteration.waves) {
        assert_eq!(wave.layer_id, 3);
        assert_eq!(wave.reservation_id, 99);
        match wave.mode {
            WaveMode::Prefill => {
                assert_eq!(wave.token_start, next);
                next += wave.row_count as u64;
                prefill += wave.row_count;
            }
            WaveMode::Decode => decode += wave.row_count,
            WaveMode::MtpVerify => verify += wave.row_count,
            WaveMode::Benchmark => panic!("no benchmark wave is planned"),
        }
    }
    assert_eq!((prefill, decode, verify), (10, 1, 2));
}

#[test]
fn chunk_wavefront_runs_to_its_end() {
    let mut wavefront = SparseChunkWavefront::new(3, 7, 5).unwrap();
    let mut captured = Vec::new();
    let mut finished = 0;
    while wavefront.verdict() != WavefrontVerdict::Done {
        while let Some(task) = wavefront.next_start() {
            wavefront.start(task);
        }
        assert_eq!(wavefront.verdict(), WavefrontVerdict::Working);
        assert!(wavefront.pending.len() <= MAX_PENDING_SPARSE_WAVEFRONT_DISPATCHES);
        // The youngest result comes first.
        let index = wavefront.pending.len() - 1;
        let done = wavefront.finish(index);
        finished += 1;
        if let Some(layer) = done.capture_tap {
            captured.push(layer);
        }
    }
    assert_eq!(finished, 20);
    assert_eq!(captured, vec![4, 5, 6, 7]);
    assert!(matches!(
        SparseChunkWavefront::new(0, 4, 1),
        Err(WavefrontError::TooFewChunks)
    ));
    assert_eq!(first_non_streaming(&[true, true, false, false]), Some(2));
    assert_eq!(first_non_streaming(&[true]), None);
    assert_eq!(
        poll_outcome(&[None, Some(false), Some(true), Some(true)]),
        PollOutcome::Complete(2)
    );
    assert_eq!(poll_outcome(&[None, Some(false)]), PollOutcome::Progress);
    assert_eq!(poll_outcome(&[None, None]), PollOutcome::Idle);
}

#[test]
fn bounded_wavefront_runs_to_its_end() {
    let mut shape = shape("bounded", [0, 20_000, 2_048], [1, 0, 0]);
    assert!(matches!(
        BoundedPrefillWavefront::new(&shape, 4, 1, vec![2, 3], 16, 3),
        Err(BoundedError::MissingTokenIds)
    ));
    shape.prefill_token_ids = Some(vec![1; 20_000]);
    shape.decode_token_ids = Some(vec![1]);
    let mut wavefront =
        BoundedPrefillWavefront::new(&shape, 4, 1, vec![2, 3], 16, 3).unwrap();
    let mut seeded = 0;
    let mut released = 0;
    let mut finished = 0;
    while wavefront.verdict() != WavefrontVerdict::Done {
        while let Some(task) = wavefront.next_start() {
            let action = wavefront.start(task);
            if let Some(rows) = action.seed {
                seeded += rows.row_count;
            }
            assert_eq!(action.dense, task.layer_offset < 1);
            if action.dense {
                finished += 1;
            }
            assert!(wavefront.active_count <= 3);
        }
        assert_ne!(wavefront.verdict(), WavefrontVerdict::Stalled);
        if !wavefront.pending.is_empty() {
            let done = wavefront.finish(0);
            finished += 1;
            if let Some(rows) = done.release {
                released += rows.row_count;
            }
        }
    }
    assert!(wavefront.is_clean());
    assert_eq!(wavefront.peak_active, 3);
    assert_eq!(finished, 4 * wavefront.chunk_count);
    assert_eq!(seeded, released);
    let mut short = shape;
    short.prefill_tokens = 100;
    short.prefill_token_ids = Some(vec![1; 100]);
    assert!(matches!(
        BoundedPrefillWavefront::new(&short, 4, 1, vec![], 16, 3),
        Err(BoundedError::NotQualified)
    ));
}

fn layer(active: usize, buffered: usize, queued: usize) -> Option<RollingLayerStatus> {
    Some(RollingLayerStatus {
        active_dispatches: active,
        buffered_dispatches: buffered,
        queued_dispatches: queued,
        accumulator_active_pages: 2,
        accumulator_active_rows: 100,
        complete: false,
    })
}

#[test]
fn rolling_dispatches_are_counted_and_shared_out() {
    let layers = [layer(1, 2, 3), None, layer(2, 0, 5)];
    assert_eq!(rolling_sparse_active_dispatches(&layers), 3);
    assert_eq!(rolling_sparse_buffered_dispatches(&layers), 2);
    assert_eq!(rolling_sparse_active_accumulators(&layers), (4, 200));
    let mut round = RollingDispatchRound::new(5, 3);
    let first = start_ready_rolling_sparse_dispatches(&mut round, &layers).unwrap();
    round.record(1);
    let second = start_ready_rolling_sparse_dispatches(&mut round, &layers).unwrap();
    round.record(1);
    assert_eq!((first, second), (0, 2));
    assert_eq!(start_ready_rolling_sparse_dispatches(&mut round, &layers), None);
    assert_eq!(round.started, 2);
}

#[test]
fn rolling_limit_reads_its_setting() {
    assert_eq!(rolling_sparse_max_active_dispatches(Some("3")), 3);
    assert_eq!(rolling_sparse_max_active_dispatches(Some("+5")), 5);
    assert_eq!(rolling_sparse_max_active_dispatches(Some("007")), 7);
    for text in ["", "+", "++5", "-5", " 5", "5_0", "0", "99999999999999999999999"] {
        assert_eq!(rolling_sparse_max_active_dispatches(Some(text)), 8);
    }
    assert_eq!(
        rolling_sparse_max_active_dispatches(Some("many")),
        active_dispatch_limit(None)
    );
    assert_eq!(
        rolling_sparse_max_active_dispatches(None),
        active_dispatch_limit(None)
    );
    assert_eq!(active_dispatch_limit(Some(1_000)), 8);
}

#[test]
fn rolling_wavefront_runs_to_its_end() {
    assert!(matches!(
        RollingWavefront::new(1, 4, 1, 8, 1, 1, true),
        Err(RollingError::NotEligible { rows: 10, chunks: 1 })
    ));
    assert!(matches!(
        RollingWavefront::new(1, 4, 3, 10, 0, 0, false),
        Err(RollingError::NotEligible { rows: 10, chunks: 3 })
    ));
    assert!(matches!(
        RollingWavefront::new(1, 4, 3, usize::MAX, 0, 1, true),
        Err(RollingError::RowOverflow)
    ));
    assert!(matches!(
        RollingWavefront::new(0, usize::MAX / 2, 3, 10, 0, 0, true),
        Err(RollingError::TaskCountOverflow)
    ));
    let mut wavefront = RollingWavefront::new(1, 4, 3, 6_000, 140, 4, true).unwrap();
    assert_eq!(wavefront.total_rows, 6_144);
    assert_eq!(wavefront.check_finished(), Err(RollingError::UnfinishedTasks));
    let mut inside: Vec<Vec<usize>> = vec![Vec::new(); 3];
    let mut captured = Vec::new();
    let mut opened = Vec::new();
    let mut planned = Vec::new();
    let mut idle = 0;
    let mut peaks = RollingPeaks {
        max_active_dispatches: 0,
        max_buffered_dispatches: 0,
        max_accumulator_pages_total: 0,
        max_accumulator_rows_total: 0,
    };
    assert_eq!(wavefront.admission(16), RollingAdmission::Full);
    let mut turn = 0;
    while wavefront.begin_turn(false) {
        turn += 1;
        let mut retiring = Vec::new();
        for layer_offset in 0..3 {
            if !wavefront.held[layer_offset] {
                continue;
            }
            // Chunks leave a layer on every third turn only.
            let completed = if turn % 3 == 0 {
                std::mem::take(&mut inside[layer_offset])
            } else {
                Vec::new()
            };
            let tap = wavefront
                .record_progress(layer_offset, !completed.is_empty(), &completed)
                .unwrap();
            captured.extend(tap);
            if wavefront.finished[layer_offset].iter().all(|left| *left) {
                retiring.push(layer_offset);
            }
        }
        for layer_offset in retiring {
            assert_eq!(wavefront.retire_layer(layer_offset), Ok(()));
        }
        if wavefront.is_done() {
            break;
        }
        wavefront.record_started(0);
        let buffered: usize = inside.iter().map(Vec::len).sum();
        if let RollingAdmission::Admit(start) = wavefront.admission(buffered) {
            assert_eq!(start.layer_id, 1 + start.task.layer_offset);
            assert_eq!(start.final_chunk, start.task.chunk_index == 2);
            if start.plan_layer {
                planned.push(start.layer_id);
                assert_eq!(wavefront.check_plan(start.task.layer_offset, 3), Ok(()));
            }
            if start.open_layer {
                opened.push(start.layer_id);
            }
            wavefront.start(start.task);
            inside[start.task.layer_offset].push(start.task.chunk_index);
        }
        let buffered: usize = inside.iter().map(Vec::len).sum();
        peaks.observe_dispatches(buffered, buffered);
        if wavefront.end_turn(buffered).unwrap() == RollingTurn::Idle {
            idle += 1;
        }
    }
    assert_eq!(captured, vec![2, 3, 4]);
    assert_eq!(planned, vec![1, 2, 3]);
    assert_eq!(opened, vec![1, 2, 3]);
    assert_eq!(wavefront.completed, 9);
    assert!(idle > 0);
    assert!(peaks.max_active_dispatches > 1);
    peaks.observe_accumulators(3, 100);
    peaks.observe_accumulators(2, 200);
    assert_eq!(peaks.max_accumulator_pages_total, 3);
    assert_eq!(peaks.max_accumulator_rows_total, 200);
    assert!(wavefront.is_done());
    assert_eq!(wavefront.check_finished(), Ok(()));
    assert!(!wavefront.begin_turn(false));
    assert!(wavefront.begin_turn(true));
    assert_eq!(wavefront.end_turn(0), Err(RollingError::Stalled));
    assert_eq!(wavefront.end_turn(1), Ok(RollingTurn::Idle));
    wavefront.record_started(1);
    assert_eq!(wavefront.end_turn(0), Ok(RollingTurn::Continue));
    assert_eq!(
        wavefront.record_progress(2, true, &[1]),
        Err(RollingError::CompletedTwice {
            layer_id: 3,
            chunk: 1
        })
    );
    let mut fresh = RollingWavefront::new(1, 4, 3, 6_144, 0, 0, true).unwrap();
    assert_eq!(
        fresh.retire_layer(1),
        Err(RollingError::UnfinishedLayer { layer_id: 2 })
    );
    assert_eq!(
        fresh.check_plan(2, 4),
        Err(RollingError::WrongPlan {
            layer_id: 3,
            planned: 4,
            expected: 3
        })
    );
    assert_eq!(
        fresh.record_progress(0, true, &[2, 0, 2]),
        Err(RollingError::CompletedTwice {
            layer_id: 1,
            chunk: 2
        })
    );
}

#[test]
fn timing_settings_are_trimmed_and_lowered() {
    assert!(scheduler_execution_timing_env_enabled(Some(" ON ")));
    assert!(scheduler_execution_timing_env_enabled(Some("1")));
    assert!(!scheduler_execution_timing_env_enabled(Some("off")));
    assert!(!scheduler_execution_timing_env_enabled(Some("")));
    assert!(!scheduler_execution_timing_env_enabled(None));
    assert!(scheduler_execution_timing_enabled(None, Some("True")));
    assert!(!scheduler_execution_verbose_timing_enabled(Some("no")));
    assert!(scheduler_terminal_sample_validate_enabled(Some(" true ")));
    assert!(!scheduler_terminal_sample_validate_enabled(Some("false")));
}

#[test]
fn bf16_scan_finds_the_first_value_that_is_not_finite() {
    let mut bytes = Vec::new();
    for value in [0.0_f32, 1.5, -0.0, f32::INFINITY, f32::NAN] {
        bytes.extend_from_slice(&((value.to_bits() >> 16) as u16).to_le_bytes());
    }
    let scan = scan_bf16_values(&bytes);
    assert_eq!(scan.values, 5);
    assert_eq!(scan.finite, 3);
    assert_eq!(scan.first_nonfinite, Some((3, 0x7f80)));
    let clean = scan_bf16_values(&bytes[..6]);
    assert_eq!(clean.first_nonfinite, None);
}

#[test]
fn batched_requests_pass_the_layers_in_pairs() {
    let steps = batched_scheduler_program(4, 1, 3).unwrap();
    assert_eq!(
        steps[..4],
        [
            BatchedStep::Dense { run: 0, layer_id: 0 },
            BatchedStep::Dense { run: 1, layer_id: 0 },
            BatchedStep::Dense { run: 2, layer_id: 0 },
            BatchedStep::Dense { run: 3, layer_id: 0 },
        ]
    );
    for first in [0, 2] {
        let mut next = 1;
        let mut open = false;
        for step in &steps {
            match step {
                BatchedStep::Start { first: f, size, layer_id } if *f == first => {
                    assert_eq!((*size, *layer_id), (2, next));
                    assert!(!open);
                    open = true;
                }
                BatchedStep::Finish { first: f, size, layer_id } if *f == first => {
                    assert_eq!((*size, *layer_id), (2, next));
                    assert!(open);
                    open = false;
                    next += 1;
                }
                _ => {}
            }
        }
        assert_eq!(next, 3);
        assert!(!open);
    }
    assert_eq!(
        batched_scheduler_program(1, 1, 3).unwrap_err(),
        BatchedError::RequestCount { requests: 1 }
    );
    assert_eq!(batched_cohort_rows(&[2, 3]), Ok(5));
    assert_eq!(
        batched_cohort_rows(&[2]),
        Err(BatchedError::TooFewRuns { runs: 1 })
    );
    assert_eq!(
        batched_cohort_rows(&[usize::MAX, 1]),
        Err(BatchedError::RowOverflow)
    );
    assert_eq!(validate_cohort_completion(2, 2, Some(2)), Ok(()));
    assert_eq!(
        validate_cohort_completion(2, 3, None),
        Err(BatchedError::MemberCount {
            joint: false,
            members: 3,
            runs: 2
        })
    );
    assert_eq!(
        validate_cohort_completion(2, 2, Some(1)),
        Err(BatchedError::DispatchCount {
            dispatches: 1,
            members: 2
        })
    );
}

fn state(capacity: usize, arena: usize) -> RealFullSchedulerExecutionState {
    let facts = flash_facts();
    let config = hybrid_config(4_096, &facts);
    RealFullSchedulerExecutionState::new_with_arena_capacity_and_storage(
        config.clone(),
        &facts,
        "sequence".to_owned(),
        capacity,
        arena,
        config,
        11,
    )
    .unwrap()
}

#[test]
fn state_admission_names_what_is_wrong() {
    let facts = flash_facts();
    let config = hybrid_config(4_096, &facts);
    let admission = |capacity: usize, arena: usize, pool: &KvCacheConfig| {
        admit_scheduler_state(&config, &facts, capacity, arena, pool, Some(64))
    };
    let admitted = admission(128, 256, &config).unwrap();
    assert_eq!(admitted.model_hidden_layers, 43);
    assert_eq!(admitted.store_config.max_tokens, 256);
    assert_eq!(
        admitted.device,
        DeviceKvBinding::SharedStorage {
            physical_token_base: 64,
            capacity_tokens: 128
        }
    );
    assert!(matches!(
        admission(0, 256, &config),
        Err(StateError::ZeroCapacity)
    ));
    assert!(matches!(
        admission(257, 256, &config),
        Err(StateError::ArenaSmallerThanSequence {
            arena: 256,
            sequence: 257
        })
    ));
    assert!(matches!(
        admission(128, 4_097, &config),
        Err(StateError::ArenaExceedsContext {
            arena: 4_097,
            context: 4_096
        })
    ));
    let mut other = config.clone();
    other.key_value_width = 1;
    assert!(matches!(
        admission(128, 256, &other),
        Err(StateError::DevicePoolMismatch)
    ));
    let mut inherited = facts.clone();
    inherited.model_type = "glm".to_owned();
    assert!(matches!(
        admit_scheduler_state(&config, &inherited, 128, 256, &config, None),
        Err(StateError::Model {
            error: ModelBindingError::NotDeepseek { .. }
        })
    ));
}

#[test]
fn processed_tokens_grow_at_the_frontier() {
    let mut state = state(8, 16);
    assert_eq!(state.arena_capacity_tokens(), 16);
    state.seed_processed_token_ids(&[1, 2, 3]).unwrap();
    state.record_processed_token_ids(3, &[4, 5]).unwrap();
    assert_eq!(state.processed_token_ids(), &[1, 2, 3, 4, 5]);
    assert!(matches!(
        state.record_processed_token_ids(4, &[6]),
        Err(TokensError::FrontierMismatch {
            frontier: 5,
            prefix: 4
        })
    ));
    assert!(matches!(
        state.record_processed_token_ids(5, &[6, 7, 8, 9]),
        Err(TokensError::FrontierExceedsCapacity {
            frontier: 9,
            capacity: 8
        })
    ));
    assert!(matches!(
        state.seed_processed_token_ids(&[0; 9]),
        Err(TokensError::PrefixExceedsCapacity {
            tokens: 9,
            capacity: 8
        })
    ));
    assert_eq!(state.processed_token_ids(), &[1, 2, 3, 4, 5]);
    assert!(matches!(
        state.set_restored_token_ids(vec![0; 9]),
        Err(TokensError::SnapshotExceedsCapacity {
            tokens: 9,
            capacity: 8
        })
    ));
    state.set_restored_token_ids(vec![7, 8]).unwrap();
    assert_eq!(state.processed_token_ids(), &[7, 8]);
    assert!(matches!(
        state.rebind_sequence("next".to_owned(), 17, true, 12),
        Err(RebindError::Capacity {
            arena: 16,
            requested: 17
        })
    ));
    assert!(matches!(
        state.rebind_sequence("next".to_owned(), 16, false, 12),
        Err(RebindError::OtherThread)
    ));
    state.rebind_sequence("next".to_owned(), 16, true, 12).unwrap();
    assert!(state.processed_token_ids().is_empty());
    assert_eq!(state.reservation_id, 12);
    let seeds = state.seed_blocks(4).unwrap();
    assert_eq!(seeds.len(), 43);
    assert_eq!(seeds[42].layer_id, 42);
    assert_eq!(seeds[42].token_count, 4);
    let resolutions = state.resolve_mtp_tentative_writes(4, 3, 2);
    assert!(resolutions
        .iter()
        .all(|r| r.token_start == 4 && r.draft_tokens == 3 && r.accepted_tokens == 2));
}

#[test]
fn states_refuse_other_shapes() {
    let state = state(8, 16);
    let mut shape = shape("x", [0, 5, 4], [1, 2, 0]);
    shape.sequence_id = "sequence".to_owned();
    assert!(state.validate_shape(&shape).is_ok());
    shape.prefill_tokens = 6;
    assert!(matches!(
        state.validate_shape(&shape),
        Err(StateShapeError::Capacity {
            capacity: 8,
            span: 9
        })
    ));
    shape.sequence_id = "other".to_owned();
    let error = state.validate_shape(&shape).unwrap_err();
    assert!(matches!(error, StateShapeError::Sequence { .. }));
    assert!(error.message().contains("other"));
    assert!(state.validate_model(&flash_facts()).is_ok());
    let mut deeper = flash_facts();
    deeper.num_hidden_layers = 44;
    assert!(matches!(
        state.validate_model(&deeper),
        Err(ModelBindingError::LayerCount {
            model_layers: 44,
            kv_layers: 43
        })
    ));
    let mut blocks = state;
    blocks.store_config.layers = 46;
    deeper.num_hidden_layers = 46;
    deeper.dspark_blocks = 0;
    assert!(matches!(
        blocks.validate_model(&deeper),
        Err(ModelBindingError::BoundLayers {
            bound: 43,
            declared: 46
        })
    ));
}

#[test]
fn a_visible_prefix_has_no_gap() {
    let block = |token_start: u64, token_count: usize| KvVisibleBlock {
        token_start,
        token_count,
    };
    let visible = snapshot_layer_has_attention_visible_prefix;
    assert!(visible(6, &[block(0, 4), block(4, 2)]));
    assert!(!visible(6, &[block(4, 2), block(0, 4)]));
    assert!(visible(6, &[block(0, 5), block(3, 9)]));
    assert!(!visible(6, &[block(0, 4), block(5, 1)]));
    assert!(!visible(6, &[block(1, 6)]));
    assert!(visible(0, &[]));
    let mut state = state(8, 16);
    let mut layers = vec![vec![block(0, 6)], vec![block(0, 6)], vec![block(0, 6)]];
    assert_eq!(state.snapshot_dspark_layer_token_count(6, &layers), 0);
    state.store_config.layers = 46;
    assert_eq!(state.snapshot_dspark_layer_token_count(6, &layers), 6);
    layers[1] = vec![block(0, 5)];
    assert_eq!(state.snapshot_dspark_layer_token_count(6, &layers), 0);
}

#[test]
fn batched_runs_are_recurrent() {
    let state = state(64, 64);
    let mut shape = shape("run", [4, 0, 4], [1, 2, 0]);
    shape.sequence_id = "sequence".to_owned();
    assert!(matches!(
        BatchedLiveSchedulerRun::new(&shape, &state, &flash_facts(), None),
        Err(BatchedRunError::MissingTokenIds)
    ));
    shape.decode_token_ids = Some(vec![7, 8, 9]);
    let run = BatchedLiveSchedulerRun::new(&shape, &state, &flash_facts(), None).unwrap();
    assert_eq!(run.decode_seed, vec![7]);
    assert_eq!(run.draft_seed, vec![8, 9]);
    assert_eq!(run.sparse_rows(), 3);
    assert_eq!(run.reservation_id, 11);
    shape.prefill_tokens = 1;
    shape.prefill_token_ids = Some(vec![1]);
    assert!(matches!(
        BatchedLiveSchedulerRun::new(&shape, &state, &flash_facts(), None),
        Err(BatchedRunError::NotRecurrent {
            prefill_tokens: 1,
            decode_rows: 1
        })
    ));
}

#[test]
fn layer_work_passes_every_layer_once() {
    let mut facts = flash_facts();
    facts.first_k_dense_replace = 3;
    let plain = prepare_scheduler_execution(
        shape("plain", [0, 10, 4], [1, 0, 0]),
        &facts,
        None,
        SparseTcp::Absent,
        false,
    )
    .unwrap();
    let work = plan_layer_work(&plain, &facts);
    assert_eq!(work.len(), 43);
    assert_eq!(work[5], LayerWork::Ordinary { layer_id: 5 });
    let live = state(64, 64);
    let mut chunks = shape("chunked", [0, 10, 4], [1, 0, 0]);
    chunks.sequence_id = "sequence".to_owned();
    let chunked = prepare_scheduler_execution(
        chunks,
        &facts,
        Some(&live),
        SparseTcp::Present {
            supports_chunk_wavefront: true,
        },
        false,
    )
    .unwrap();
    let work = plan_layer_work(&chunked, &facts);
    assert_eq!(work.len(), 4);
    assert_eq!(work[3], LayerWork::Chunked { first_layer: 3 });
    let refused = prepare_scheduler_execution(
        shape("zero", [0, 10, 0], [1, 0, 0]),
        &facts,
        None,
        SparseTcp::Absent,
        false,
    )
    .unwrap_err();
    assert!(matches!(
        refused,
        SetupError::Shape {
            error: ShapeError::ZeroChunk
        }
    ));
}

#[test]
fn pipelined_chunks_are_awaited_in_order() {
    let mut pipeline = PrefillPipeline::new();
    assert_eq!(pipeline.start(true), None);
    assert_eq!(pipeline.start(true), Some(0));
    assert_eq!(pipeline.start(false), None);
    assert_eq!(pipeline.start(true), Some(1));
    assert_eq!(pipeline.apply(), vec![3]);
    assert!(pipeline.drain().is_empty());
    assert_eq!(pipeline.next_chunk, 5);
}

#[test]
fn graph_and_cache_counts_are_reported() {
    let stats = |captures: usize, launches: usize| CoordinatorCudaGraphStats {
        slots: 2,
        captured_graphs: 3,
        graph_captures: captures,
        graph_launches: launches,
    };
    assert_eq!(
        request_graph_stats(Some(stats(5, 9)), Some(stats(7, 8))),
        stats(2, 0)
    );
    assert_eq!(request_graph_stats(None, Some(stats(7, 8))), stats(0, 0));
    assert_eq!(request_graph_stats(Some(stats(1, 1)), None).slots, 0);
    let shape = shape("kv", [4, 0, 4], [1, 2, 0]);
    let counters = RealFullSchedulerExecutionCounters {
        committed_kv_writes: 43,
        ..Default::default()
    };
    let live = scheduler_kv_report_summary(&store(), &shape, 100, &counters, true);
    assert_eq!(live.kv_reservation_bytes, 700);
    assert!(!live.byte_backed_scheduler_trace);
    let own = scheduler_kv_report_summary(&store(), &shape, 100, &counters, false);
    assert!(own.byte_backed_scheduler_trace);
    assert_eq!(own.committed_mtp_writes, 2);
}

fn store() -> KvStoreCounts {
    KvStoreCounts {
        committed_writes: 2,
        discarded_writes: 1,
        resident_bytes: 1_000,
        active_reservations: 1,
        backed_writes: 45,
        backed_bytes: 900,
    }
}

fn outcome(counters: RealFullSchedulerExecutionCounters) -> ExecutionOutcome {
    ExecutionOutcome {
        counters,
        numeric_progression_passed: true,
        final_decode_hidden_dim: Some(2),
        sample_outcome: Ok(terminal_lm_head_score_for_completion_gate_test()),
        store: store(),
        device_kv: DeviceKvSummary {
            status: "device",
            writes: 1,
            reads: 1,
            bytes: 1,
            uses_device_kv_cache: true,
            scheduler_attention_resident_uploads: 0,
            scheduler_attention_resident_buffer_uses: 0,
            scheduler_attention_resident_query_shapes: 0,
        },
        graphs_before: None,
        graphs_after: None,
    }
}

#[test]
fn sampled_reports_need_complete_attention() {
    let facts = flash_facts();
    let shape = shape("report", [18, 0, 512], [1, 0, 0]);
    let complete = RealFullSchedulerExecutionCounters {
        device_attention_launches: 43,
        device_attention_hidden_projection_launches: 43,
        device_attention_rows: 43 * 19,
        device_attention_query_rows: 43,
        device_attention_kv_descriptors: 43,
        device_attention_output_values: 43 * FLASH_HIDDEN_SIZE,
        layer_order_verified: true,
        ..Default::default()
    };
    let settings = ReportSettings {
        retain_final_target_device_hidden: false,
        defer_terminal_lm_head_sample: false,
        live: true,
        kv_bytes_per_token: 10,
        fusion_max_rows: FUSION_MAX_ROWS,
    };
    let report =
        finish_scheduler_execution(&facts, &shape, outcome(complete.clone()), settings, &backends());
    assert_eq!(report.status, "admitted-scheduler-terminal-lm-head-sampled");
    assert!(report.full_context_device_attention_complete);
    assert_eq!(report.kv.kv_reservation_bytes, 190);
    let mut partial = complete.clone();
    partial.device_attention_launches = 42;
    let report =
        finish_scheduler_execution(&facts, &shape, outcome(partial), settings, &backends());
    assert_eq!(report.status, "admitted-scheduler-terminal-lm-head-blocked");
    let report = finish_stateful_scheduler_execution(
        &facts,
        &shape,
        outcome(complete),
        false,
        10,
        FUSION_MAX_ROWS,
        &backends(),
    );
    assert!(report.terminal_lm_head_sample.passed);
}

#[test]
fn wavefront_errors_say_what_is_wrong() {
    assert_eq!(
        BatchedError::RequestCount { requests: 9 }.message(),
        "batched recurrent scheduler requires 2..=8 requests, got 9"
    );
    assert_eq!(
        BatchedError::TooFewRuns { runs: 1 }.message(),
        "batched sparse cohort requires at least two runs, got 1"
    );
    assert_eq!(
        BatchedError::RowOverflow.message(),
        "batched sparse cohort row count overflow"
    );
    assert_eq!(
        validate_cohort_completion(2, 3, None).unwrap_err().message(),
        "batched sparse independent completion has 3 members for 2 runs"
    );
    assert_eq!(
        validate_cohort_completion(2, 3, Some(3)).unwrap_err().message(),
        "batched sparse cohort completion has 3 members for 2 runs"
    );
    assert_eq!(
        validate_cohort_completion(2, 2, Some(1)).unwrap_err().message(),
        "batched sparse cohort returned 1 dispatches for 2 members"
    );
    assert_eq!(
        WavefrontError::TooFewChunks.message(),
        "sparse chunk wavefront requires at least two prefill chunks"
    );
    assert_eq!(
        WavefrontError::TaskCountOverflow.message(),
        "sparse wavefront task count overflow"
    );
    assert_eq!(
        BoundedError::NotQualified.message(),
        "bounded long-prefill wavefront requires a qualified multi-chunk shape"
    );
    assert_eq!(
        BoundedError::MissingTokenIds.message(),
        "bounded long-prefill wavefront requires prompt token IDs"
    );
    assert_eq!(
        RollingError::NotEligible { rows: 10, chunks: 1 }.message(),
        "rolling sparse wavefront rows=10 chunks=1 are not eligible"
    );
    assert_eq!(
        RollingError::CompletedTwice {
            layer_id: 3,
            chunk: 1
        }
        .message(),
        "rolling sparse layer 3 completed chunk 1 twice"
    );
    assert_eq!(
        RollingError::UnfinishedLayer { layer_id: 3 }.message(),
        "rolling sparse layer 3 completed with unfinished chunks"
    );
    assert_eq!(
        RollingError::WrongPlan {
            layer_id: 3,
            planned: 4,
            expected: 2
        }
        .message(),
        "rolling sparse layer 3 planned 4 chunks, expected 2"
    );
    assert_eq!(
        RollingError::Stalled.message(),
        "rolling sparse wavefront stalled without ready or buffered work"
    );
}

#[test]
fn terminal_blockers_say_what_is_wrong() {
    let score = RealLmHeadChunkScoreForHidden {
        hidden_dim: 4,
        vocab_size: 100,
        logits_evaluated: 99,
        covers_full_vocabulary: false,
        argmax_kernel_backend: "a".to_owned(),
        sampler_kernel_backend: "b".to_owned(),
        top_token_id: 1,
        top_logit_bits: 0,
        sampled_token_id: 1,
        sampled_score_bits: 0,
        sample_temperature_bits: 0,
        sample_top_k: 1,
        sample_top_p_bits: 0,
    };
    let rejection = gate_rejection_message(&score, "0.5", "1");
    assert_eq!(
        rejection,
        "scheduler terminal lm_head sample must use full-vocabulary preloaded-resident CUDA argmax plus non-greedy top-k/top-p sampler: full_vocab=false logits=99 vocab=100 top_k=1 top_p=0.5 temperature=1 argmax_backend=a sampler_backend=b"
    );
    assert_eq!(TerminalBlocker::GateRejected.message(&rejection), rejection);
    assert_eq!(
        TerminalBlocker::HiddenUnavailable.message(&rejection),
        "scheduler final decode device hidden is unavailable for terminal sampling"
    );
    assert_eq!(
        TerminalBlocker::DeferredHiddenUnavailable.message(&rejection),
        "scheduler final decode device hidden is unavailable for deferred target sampling"
    );
    assert_eq!(
        TerminalBlocker::Failed("out of memory".to_owned()).message(&rejection),
        "out of memory"
    );
}

#[test]
fn verify_rows_are_decided_unless_their_tokens_are_given() {
    let mut request = shape("verify", [0, 8, 4], [1, 3, 2]);
    assert_eq!(request.mtp_resolution_accepted_rows(), Some(2));
    request.decode_token_ids = Some(vec![1]);
    assert_eq!(request.mtp_resolution_accepted_rows(), Some(2));
    request.decode_token_ids = Some(vec![1, 2, 3, 4]);
    assert_eq!(request.mtp_resolution_accepted_rows(), None);
}
