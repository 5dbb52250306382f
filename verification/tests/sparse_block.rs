//! Sparse layers, and the four-rank reduction of their partial outputs.
use real_full::arena::{
    owned_reduction_completion, response_frames_recyclable, Ds4FlashTp4CoordinatorReductionArena,
    StageError, StageStep, StreamCompletion, Tp4ArenaAllocation, Tp4ArenaError,
};
use real_full::device::{device_buffer_byte_view, Ds41rtDeviceBuffer, Ds41rtHostBuffer};
use real_full::model::{DType, ModelFacts, ModelVariant, TensorCatalog, TensorInfo, TensorRole};
use real_full::sparse_block::{
    check_resident_read, ds4_flash_sparse_block_pre_dispatch_fixed_input_into,
    ds4_flash_sparse_layer_resident_weight_names, ds4_sparse_block_pre_dispatch_fixed_input_into,
    ds4_sparse_layer_resident_weight_names, preload_ds4_flash_sparse_layer_resident_weights,
    preload_ds4_sparse_block_tensor, preload_ds4_sparse_layer_resident_weights,
    shared_expert_scale_layouts, Ds4FlashSparseBlockPreDispatchDeviceBuffers, Ds4SparseProfile,
    LayerWeightsError, PreDispatchError, ProfileError, ResidentTensorError, RouterKernel,
    RouterOutput, SharedExpertOutput, SparseConstants, TensorRequirement,
    DS4_PRO_HIDDEN_SIZE, DS4_PRO_MOE_INTERMEDIATE_SIZE, DS4_PRO_ROUTED_EXPERTS,
};
use real_full::tp4::{
    ds4_flash_reduction_ranges_overlap, ds4_flash_tp4_reduce_bf16_device_inputs_into,
    validate_ds4_flash_tp4_host_partial_chunks, validate_ds4_flash_tp4_host_partial_layout,
    validate_ds4_flash_tp4_reduction_buffer_layout, validate_ds4_tp4_host_partial_chunks_for_hidden_size,
    validate_ds4_tp4_host_partial_layout_for_hidden_size,
    validate_ds4_tp4_reduction_buffer_layout_for_hidden_size, Ds4FlashTp4HostPartialChunk,
    Ds4FlashTp4ReductionDeviceBuffers, RangeAddressError, ReductionStep, Tp4HostChunkError,
    Tp4HostPartialError, Tp4ReductionError, DS4_FLASH_HIDDEN, DS4_FLASH_MAX_ROWS, DS4_FLASH_TP,
};

const EXL3_RECIPE: &str = "deepseek_v4_exl3_calibrated";
const PRO_HIDDEN_LAYERS: usize = 61;
const PRO_TOP_K: usize = 6;

fn flash_facts() -> ModelFacts {
    ModelFacts {
        model_type: "deepseek_v4".to_owned(),
        variant: ModelVariant::Flash,
        hidden_size: 4_096,
        num_hidden_layers: 43,
        first_k_dense_replace: 0,
        num_hash_layers: 3,
        dspark_blocks: 3,
        routed_experts: 256,
        shared_experts: 1,
        top_k: 6,
        moe_intermediate_size: 2_048,
        vocab_size: 129_280,
        head_dim: 512,
        scoring_function: "sqrtsoftplus".to_owned(),
        topk_method: "noaux_tc".to_owned(),
        routed_scaling_factor_bits: 1.5_f32.to_bits(),
        rms_norm_eps_bits: 1.0e-6_f32.to_bits(),
        quantization_recipe: "deepseek_v4_native_fp4_fp8_mixed_v1".to_owned(),
    }
}

fn constants() -> SparseConstants {
    SparseConstants {
        flash_top_k: 6,
        pro_top_k: PRO_TOP_K,
        shared_experts: 1,
        exl3_recipe: EXL3_RECIPE.to_owned(),
    }
}

#[test]
fn sparse_weight_names_distinguish_target_layers_from_native_dspark_blocks() {
    let facts = flash_facts();
    let target = ds4_flash_sparse_layer_resident_weight_names(&facts, &constants(), 2).unwrap();
    assert!(target.hash_routing);
    assert_eq!(target.router_weight_name, "layers.2.ffn.gate.weight");
    assert_eq!(target.router_aux_name, "layers.2.ffn.gate.tid2eid");

    let dspark = ds4_flash_sparse_layer_resident_weight_names(
        &facts,
        &constants(),
        facts.num_hidden_layers + 1,
    )
    .unwrap();
    assert!(!dspark.hash_routing);
    assert_eq!(dspark.ffn_norm_name, "mtp.1.ffn_norm.weight");
    assert_eq!(dspark.router_weight_name, "mtp.1.ffn.gate.weight");
    assert_eq!(dspark.router_aux_name, "mtp.1.ffn.gate.bias");
    assert_eq!(
        dspark.shared_w2_scale_name,
        "mtp.1.ffn.shared_experts.w2.scale"
    );
}

fn pro_facts() -> ModelFacts {
    let mut facts = flash_facts();
    facts.variant = ModelVariant::Pro;
    facts.hidden_size = DS4_PRO_HIDDEN_SIZE;
    facts.num_hidden_layers = PRO_HIDDEN_LAYERS;
    facts.routed_experts = DS4_PRO_ROUTED_EXPERTS;
    facts.top_k = PRO_TOP_K;
    facts.moe_intermediate_size = DS4_PRO_MOE_INTERMEDIATE_SIZE;
    facts.head_dim = 512;
    facts.routed_scaling_factor_bits = 2.5_f32.to_bits();
    facts.dspark_blocks = 3;
    facts.quantization_recipe = EXL3_RECIPE.to_owned();
    facts
}

#[test]
fn pro_sparse_names_preserve_one_global_router_and_mtp_namespace() {
    let facts = pro_facts();
    let target = ds4_sparse_layer_resident_weight_names(&facts, &constants(), 2).unwrap();
    assert_eq!(target.variant, ModelVariant::Pro);
    assert_eq!(target.hidden, DS4_PRO_HIDDEN_SIZE);
    assert!(target.hash_routing);
    assert_eq!(target.router_weight_name, "layers.2.ffn.gate.weight");
    assert_eq!(target.router_aux_name, "layers.2.ffn.gate.tid2eid");

    let dspark = ds4_sparse_layer_resident_weight_names(
        &facts,
        &constants(),
        facts.num_hidden_layers + 2,
    )
    .unwrap();
    assert!(!dspark.hash_routing);
    assert_eq!(dspark.ffn_norm_name, "mtp.2.ffn_norm.weight");
    assert_eq!(dspark.router_weight_name, "mtp.2.ffn.gate.weight");
    assert_eq!(dspark.router_aux_name, "mtp.2.ffn.gate.bias");
    assert_eq!(dspark.shared_intermediate, DS4_PRO_MOE_INTERMEDIATE_SIZE);
}

#[test]
fn pro_sparse_profile_fails_closed_without_calibrated_exl3() {
    let mut facts = pro_facts();
    facts.quantization_recipe = "deepseek_v4_native_fp4_fp8_mixed_v1".to_owned();
    let error = Ds4SparseProfile::from_facts(&facts, &constants()).unwrap_err();
    assert!(error
        .message(&facts, &constants(), "2.5")
        .contains(EXL3_RECIPE));
}

#[test]
fn sparse_profiles_refuse_other_checkpoints() {
    let mut facts = flash_facts();
    facts.model_type = "glm".to_owned();
    assert!(matches!(
        Ds4SparseProfile::from_facts(&facts, &constants()),
        Err(ProfileError::NotDeepseek { .. })
    ));
    facts = flash_facts();
    facts.variant = ModelVariant::Custom;
    assert!(matches!(
        Ds4SparseProfile::from_facts(&facts, &constants()),
        Err(ProfileError::CustomGeometry)
    ));
    facts = flash_facts();
    facts.routed_experts = 255;
    assert!(matches!(
        Ds4SparseProfile::from_facts(&facts, &constants()),
        Err(ProfileError::Geometry { .. })
    ));
    facts = flash_facts();
    facts.scoring_function = "softmax".to_owned();
    assert!(matches!(
        Ds4SparseProfile::from_facts(&facts, &constants()),
        Err(ProfileError::Router { .. })
    ));
    facts = flash_facts();
    assert!(matches!(
        ds4_sparse_layer_resident_weight_names(&facts, &constants(), 46),
        Err(LayerWeightsError::Depth {
            layer_id: 46,
            blocks: 46
        })
    ));
    assert!(matches!(
        ds4_flash_sparse_layer_resident_weight_names(&pro_facts(), &constants(), 0),
        Err(LayerWeightsError::NotFlash {
            preload: false,
            variant: ModelVariant::Pro
        })
    ));
}

#[test]
fn resident_requirements_follow_the_profile() {
    let (weights, requirements) =
        preload_ds4_flash_sparse_layer_resident_weights(&flash_facts(), &constants(), 7).unwrap();
    assert!(!weights.hash_routing);
    assert_eq!(requirements.len(), 8);
    assert_eq!(requirements[0].name, "layers.7.ffn.gate.weight");
    assert_eq!(requirements[0].shape, vec![256, 4_096]);
    assert_eq!(requirements[1].dtype, DType::F32);
    assert_eq!(requirements[1].shape, vec![256]);
    assert_eq!(requirements[3].name, "layers.7.ffn.shared_experts.w1.scale");
    assert_eq!(requirements[3].shape, vec![16, 32]);
    let (_, hashed) =
        preload_ds4_sparse_layer_resident_weights(&flash_facts(), &constants(), 0).unwrap();
    assert_eq!(hashed[1].dtype, DType::I64);
    assert_eq!(hashed[1].shape, vec![129_280, 6]);
    let hidden = Ds41rtDeviceBuffer {
        ptr: 4_096,
        bytes: 40_960,
        device_id: 0,
        flags: 0,
    };
    let buffers = Ds4FlashSparseBlockPreDispatchDeviceBuffers {
        router: RouterOutput {
            indices: buffer(0x1_0000, 120, 0),
            scores: buffer(0x1_1000, 5_120, 0),
            weights: buffer(0x1_3000, 120, 0),
        },
        shared: SharedExpertOutput {
            gate: buffer(0x2_0000, 20_480, 0),
            up: buffer(0x3_0000, 20_480, 0),
            activated: buffer(0x4_0000, 20_480, 0),
            output: buffer(0x5_0000, 40_960, 0),
        },
    };
    let stream = 0x77;
    let launch =
        ds4_sparse_block_pre_dispatch_fixed_input_into(&weights, hidden, 5, None, buffers, stream)
            .unwrap();
    assert_eq!(launch.router.kernel, RouterKernel::Flash);
    assert_eq!(launch.router.weight, "layers.7.ffn.gate.weight");
    assert_eq!(launch.router.aux, "layers.7.ffn.gate.bias");
    assert_eq!((launch.router.hidden, launch.router.rows), (hidden, 5));
    assert!(launch.router.token_ids.is_none() && !launch.router.hash_routing);
    assert_eq!(launch.router.output, buffers.router);
    let shared = launch.after_router(true).unwrap();
    assert_eq!(shared.w1_weight, "layers.7.ffn.shared_experts.w1.weight");
    assert_eq!(shared.w1_scale, "layers.7.ffn.shared_experts.w1.scale");
    assert_eq!(shared.w3_weight, "layers.7.ffn.shared_experts.w3.weight");
    assert_eq!(shared.w2_scale, "layers.7.ffn.shared_experts.w2.scale");
    assert_eq!((shared.hidden, shared.rows), (hidden, 5));
    assert_eq!((shared.hidden_size, shared.intermediate), (4_096, 2_048));
    assert_eq!(shared.output, buffers.shared);
    assert_eq!((launch.router.stream, shared.stream), (stream, stream));
    assert_eq!(
        launch.after_router(false).unwrap_err().message(),
        "launching DeepSeek V4 global router from fixed dSpark input"
    );
    assert_eq!(launch.after_shared_expert(true), Ok(()));
    assert_eq!(
        launch.after_shared_expert(false).unwrap_err().message(),
        "launching DeepSeek V4 shared expert from fixed dSpark input"
    );
    let pro = ds4_sparse_layer_resident_weight_names(&pro_facts(), &constants(), 7).unwrap();
    assert_eq!(
        ds4_sparse_block_pre_dispatch_fixed_input_into(
            &pro,
            hidden,
            5,
            Some(hidden),
            buffers,
            stream
        )
        .unwrap()
        .router
        .kernel,
        RouterKernel::Pro
    );
    let error =
        ds4_flash_sparse_block_pre_dispatch_fixed_input_into(&pro, hidden, 5, None, buffers, stream)
            .unwrap_err();
    assert_eq!(
        error,
        PreDispatchError::NotFlash {
            variant: ModelVariant::Pro
        }
    );
    assert_eq!(
        error.message(),
        "Flash sparse pre-dispatch received Pro resident weights"
    );
    let mut custom = weights.clone();
    custom.variant = ModelVariant::Custom;
    assert_eq!(
        ds4_sparse_block_pre_dispatch_fixed_input_into(&custom, hidden, 5, None, buffers, stream)
            .unwrap_err()
            .message(),
        "custom DeepSeek V4 router is unsupported"
    );
    let layouts = shared_expert_scale_layouts(&weights);
    assert_eq!(layouts.len(), 3);
    assert_eq!(layouts[2].scale_name, weights.shared_w2_scale_name);
    assert_eq!((layouts[0].rows, layouts[0].columns), (2_048, 4_096));
    assert_eq!((layouts[2].rows, layouts[2].columns), (4_096, 2_048));
}

#[test]
fn profile_errors_say_what_is_wrong() {
    let mut facts = flash_facts();
    facts.routed_experts = 255;
    let error = Ds4SparseProfile::from_facts(&facts, &constants()).unwrap_err();
    assert_eq!(
        error.message(&facts, &constants(), ""),
        "DeepSeek V4 Flash sparse coordinator requires hidden=4096/experts=256/top-k=6/shared=1x2048/vocab=129280; got hidden=4096/experts=255/top-k=6/shared=1x2048/vocab=129280"
    );
    facts = flash_facts();
    facts.scoring_function = "softmax".to_owned();
    let error = Ds4SparseProfile::from_facts(&facts, &constants()).unwrap_err();
    assert_eq!(
        error.message(&facts, &constants(), "1.5"),
        "DeepSeek V4 Flash router requires sqrtsoftplus/noaux_tc scaling=1.5; got softmax/noaux_tc/1.5"
    );
    facts = flash_facts();
    facts.model_type = "glm".to_owned();
    let error = ds4_sparse_layer_resident_weight_names(&facts, &constants(), 0).unwrap_err();
    assert_eq!(
        error.message(&facts, &constants(), ""),
        "DeepSeek V4 sparse coordinator requires model_type deepseek_v4, got \"glm\""
    );
    let error =
        preload_ds4_flash_sparse_layer_resident_weights(&pro_facts(), &constants(), 0).unwrap_err();
    assert_eq!(
        error.message(&pro_facts(), &constants(), ""),
        "Flash sparse preload received Pro model facts"
    );
}

fn catalog_with(name: &str, dtype: DType, shape: Vec<usize>, byte_length: u64) -> TensorCatalog {
    TensorCatalog {
        facts: flash_facts(),
        tensors: vec![TensorInfo {
            name: name.to_owned(),
            dtype,
            shape,
            byte_length,
            role: TensorRole::Norm,
            layer_id: Some(7),
            expert_id: None,
            is_quantization_metadata: false,
        }],
    }
}

#[test]
fn resident_tensors_are_checked_against_their_requirement() {
    let requirement = TensorRequirement {
        name: "layers.7.ffn_norm.weight".to_owned(),
        dtype: DType::Bf16,
        shape: vec![4_096],
        bytes_per_value: 2,
    };
    let name = "layers.7.ffn_norm.weight";
    let good = catalog_with(name, DType::Bf16, vec![4_096], 8_192);
    assert_eq!(
        preload_ds4_sparse_block_tensor(&good, &requirement).unwrap(),
        (0, 8_192)
    );
    let missing = catalog_with("layers.8.ffn_norm.weight", DType::Bf16, vec![4_096], 8_192);
    assert!(matches!(
        preload_ds4_sparse_block_tensor(&missing, &requirement),
        Err(ResidentTensorError::Missing { .. })
    ));
    let layout = catalog_with(name, DType::F32, vec![4_096], 8_192);
    assert_eq!(
        preload_ds4_sparse_block_tensor(&layout, &requirement)
            .unwrap_err()
            .message("U8"),
        "DeepSeek V4 tensor layers.7.ffn_norm.weight expected Bf16 [4096], got F32 [4096]"
    );
    let square = catalog_with(name, DType::Other, vec![64, 64], 8_192);
    assert_eq!(
        preload_ds4_sparse_block_tensor(&square, &requirement)
            .unwrap_err()
            .message("U8"),
        "DeepSeek V4 tensor layers.7.ffn_norm.weight expected Bf16 [4096], got U8 [64, 64]"
    );
    let flat = catalog_with(name, DType::F8E8M0, vec![], 8_192);
    assert_eq!(
        preload_ds4_sparse_block_tensor(&flat, &requirement)
            .unwrap_err()
            .message("U8"),
        "DeepSeek V4 tensor layers.7.ffn_norm.weight expected Bf16 [4096], got F8E8M0 []"
    );
    let read = |dtype: DType, shape: &[usize], bytes: u64| {
        check_resident_read(&requirement, 8_192, dtype, shape, bytes)
    };
    assert!(read(DType::Bf16, &[4_096], 8_192).is_ok());
    assert!(read(DType::F32, &[4_096], 8_192).is_err());
    assert!(read(DType::Bf16, &[4_096, 1], 8_192).is_err());
    assert_eq!(
        read(DType::Bf16, &[4_096], 8_191).unwrap_err().message("U8"),
        "DeepSeek V4 tensor layers.7.ffn_norm.weight changed during resident preload"
    );
    let short = catalog_with(name, DType::Bf16, vec![4_096], 8_190);
    assert!(matches!(
        preload_ds4_sparse_block_tensor(&short, &requirement),
        Err(ResidentTensorError::Bytes {
            got: 8_190,
            expected: 8_192,
            ..
        })
    ));
    let huge = TensorRequirement {
        name: name.to_owned(),
        dtype: DType::Bf16,
        shape: vec![usize::MAX],
        bytes_per_value: 2,
    };
    let wide = catalog_with(name, DType::Bf16, vec![usize::MAX], 8_192);
    assert!(matches!(
        preload_ds4_sparse_block_tensor(&wide, &huge),
        Err(ResidentTensorError::Overflow)
    ));
}

fn buffer(ptr: usize, bytes: usize, device_id: i32) -> Ds41rtDeviceBuffer {
    Ds41rtDeviceBuffer {
        ptr,
        bytes,
        device_id,
        flags: 0,
    }
}

fn valid_buffers_for_hidden(rows: usize, hidden_size: usize) -> Ds4FlashTp4ReductionDeviceBuffers {
    let values = rows * hidden_size;
    let bf16_bytes = values * std::mem::size_of::<u16>();
    let f32_bytes = values * std::mem::size_of::<f32>();
    Ds4FlashTp4ReductionDeviceBuffers {
        shared_delta: buffer(0x1000_0000, bf16_bytes, 0),
        rank_partials: [
            buffer(0x2000_0000, bf16_bytes, 0),
            buffer(0x3000_0000, bf16_bytes, 0),
            buffer(0x4000_0000, bf16_bytes, 0),
            buffer(0x5000_0000, bf16_bytes, 0),
        ],
        reduction_f32: buffer(0x6000_0000, f32_bytes, 0),
        ffn_delta: buffer(0x7000_0000, bf16_bytes, 0),
    }
}

fn valid_buffers(rows: usize) -> Ds4FlashTp4ReductionDeviceBuffers {
    valid_buffers_for_hidden(rows, DS4_FLASH_HIDDEN)
}

#[test]
fn flash_tp4_reduction_accepts_five_fixed_hidden_width_inputs() {
    let rows = 7;
    assert_eq!(
        validate_ds4_flash_tp4_reduction_buffer_layout(rows, valid_buffers(rows)).unwrap(),
        rows * DS4_FLASH_HIDDEN
    );
}

#[test]
fn pro_tp4_reduction_accepts_five_fixed_7168_wide_inputs() {
    const DS4_PRO_HIDDEN: usize = 7_168;
    let rows = 7;
    assert_eq!(
        validate_ds4_tp4_reduction_buffer_layout_for_hidden_size(
            rows,
            DS4_PRO_HIDDEN,
            valid_buffers_for_hidden(rows, DS4_PRO_HIDDEN),
        )
        .unwrap(),
        rows * DS4_PRO_HIDDEN
    );
    let error = validate_ds4_tp4_reduction_buffer_layout_for_hidden_size(
        rows,
        0,
        valid_buffers_for_hidden(rows, DS4_PRO_HIDDEN),
    )
    .unwrap_err();
    assert!(error.message().contains("hidden size must be positive"));
}

#[test]
fn flash_tp4_host_partials_require_four_complete_identity_row_payloads() {
    let rows = 3_usize;
    let rank_bytes = rows * DS4_FLASH_HIDDEN * std::mem::size_of::<u16>();
    let partials = (0..DS4_FLASH_TP)
        .map(|rank| vec![rank as u8; rank_bytes])
        .collect::<Vec<_>>();
    let row_maps = vec![(0..rows).collect::<Vec<_>>(); DS4_FLASH_TP];
    assert_eq!(
        validate_ds4_flash_tp4_host_partial_layout(rows, &partials, &row_maps).unwrap(),
        rank_bytes
    );

    let missing_rank = &partials[..DS4_FLASH_TP - 1];
    let error =
        validate_ds4_flash_tp4_host_partial_layout(rows, missing_rank, &row_maps).unwrap_err();
    assert!(error.message().contains("exactly 4 rank payloads"));

    let mut scattered_rows = row_maps.clone();
    scattered_rows[2].swap(0, 1);
    let error = validate_ds4_flash_tp4_host_partial_layout(rows, &partials, &scattered_rows)
        .unwrap_err();
    assert!(error
        .message()
        .contains("rank 2 must return the complete identity row map"));

    let mut short_payload = partials.clone();
    short_payload[3].pop();
    let error =
        validate_ds4_flash_tp4_host_partial_layout(rows, &short_payload, &row_maps).unwrap_err();
    assert!(error
        .message()
        .contains("rank 3 partial expected 24576 BF16 bytes"));
}

#[test]
fn flash_tp4_host_chunks_preserve_rank_and_cover_every_row_once() {
    let rows = 3_usize;
    let row_bytes = DS4_FLASH_HIDDEN * std::mem::size_of::<u16>();
    let ranks = [3_usize, 0, 2, 1, 3, 0, 2, 1];
    let row_maps = [
        vec![2, 0],
        vec![2, 0],
        vec![2, 0],
        vec![2, 0],
        vec![1],
        vec![1],
        vec![1],
        vec![1],
    ];
    let payloads = row_maps
        .iter()
        .enumerate()
        .map(|(chunk, row_map)| vec![chunk as u8; row_map.len() * row_bytes])
        .collect::<Vec<_>>();
    let chunks = (0..ranks.len())
        .map(|chunk| Ds4FlashTp4HostPartialChunk {
            rank: ranks[chunk],
            payload_bf16: &payloads[chunk],
            pinned_payload: None,
            global_row_indices: &row_maps[chunk],
        })
        .collect::<Vec<_>>();
    assert_eq!(
        validate_ds4_flash_tp4_host_partial_chunks(rows, &chunks).unwrap(),
        rows * row_bytes
    );

    let error = validate_ds4_flash_tp4_host_partial_chunks(rows, &chunks[..chunks.len() - 1])
        .unwrap_err();
    assert!(error.message().contains("missing rank 1 row 1"));

    let mut duplicate = chunks.clone();
    duplicate[7] = duplicate[3];
    let error = validate_ds4_flash_tp4_host_partial_chunks(rows, &duplicate).unwrap_err();
    assert!(error.message().contains("repeat rank 1 row 2"));

    let mut invalid_rank = chunks.clone();
    invalid_rank[0].rank = DS4_FLASH_TP;
    let error = validate_ds4_flash_tp4_host_partial_chunks(rows, &invalid_rank).unwrap_err();
    assert!(error.message().contains("invalid rank 4"));
}

#[test]
fn flash_tp4_reduction_rejects_ep_like_aliasing_and_wrong_device() {
    let mut aliased = valid_buffers(1);
    aliased.rank_partials[3] = aliased.rank_partials[0];
    let error = validate_ds4_flash_tp4_reduction_buffer_layout(1, aliased).unwrap_err();
    assert!(error
        .message()
        .contains("rank_0 and rank_3 buffers overlap"));

    let mut wrong_device = valid_buffers(1);
    wrong_device.rank_partials[2].device_id = 1;
    let error = validate_ds4_flash_tp4_reduction_buffer_layout(1, wrong_device).unwrap_err();
    assert!(error
        .message()
        .contains("rank_2 must be on coordinator device 0"));

    let mut wrong_coordinator = valid_buffers(1);
    wrong_coordinator.shared_delta.device_id = 1;
    let error = validate_ds4_flash_tp4_reduction_buffer_layout(1, wrong_coordinator).unwrap_err();
    assert!(error.message().contains("must reside on coordinator GPU0"));
}

#[test]
fn reduction_refuses_each_bad_layout() {
    let good = valid_buffers(1);
    let check = |rows: usize, hidden: usize, b: Ds4FlashTp4ReductionDeviceBuffers| {
        validate_ds4_tp4_reduction_buffer_layout_for_hidden_size(rows, hidden, b).unwrap_err()
    };
    assert_eq!(
        check(0, 4_096, good),
        Tp4ReductionError::RowsOutOfRange { rows: 0 }
    );
    assert_eq!(
        check(DS4_FLASH_MAX_ROWS + 1, 4_096, good),
        Tp4ReductionError::RowsOutOfRange {
            rows: DS4_FLASH_MAX_ROWS + 1
        }
    );
    assert_eq!(check(1, 0, good), Tp4ReductionError::HiddenSizeZero);
    assert_eq!(
        check(2, usize::MAX, good),
        Tp4ReductionError::ShapeOverflow
    );
    assert_eq!(
        check(1, usize::MAX / 2 + 1, good),
        Tp4ReductionError::Bf16Overflow
    );
    assert_eq!(
        check(1, usize::MAX / 4 + 1, good),
        Tp4ReductionError::F32Overflow
    );
    let mut small = good;
    small.reduction_f32.bytes -= 1;
    assert!(matches!(
        check(1, 4_096, small),
        Tp4ReductionError::BufferTooSmall { .. }
    ));
    let mut high = good;
    high.ffn_delta.ptr = usize::MAX - 10;
    assert!(matches!(
        check(1, 4_096, high),
        Tp4ReductionError::RightAddressOverflow { .. }
    ));
}

#[test]
fn ranges_meet_when_they_share_an_address() {
    let low = buffer(100, 50, 0);
    let touching = buffer(150, 50, 0);
    let inside = buffer(149, 1, 0);
    assert_eq!(ds4_flash_reduction_ranges_overlap(low, 50, touching, 50), Ok(false));
    assert_eq!(ds4_flash_reduction_ranges_overlap(low, 50, inside, 1), Ok(true));
    assert_eq!(ds4_flash_reduction_ranges_overlap(inside, 1, low, 50), Ok(true));
    assert_eq!(
        ds4_flash_reduction_ranges_overlap(buffer(usize::MAX, 2, 0), 2, low, 50),
        Err(RangeAddressError::Left)
    );
    assert_eq!(
        ds4_flash_reduction_ranges_overlap(low, 50, buffer(usize::MAX, 2, 0), 2),
        Err(RangeAddressError::Right)
    );
}

#[test]
fn reduction_adds_every_input_once() {
    let buffers = valid_buffers(2);
    let steps = ds4_flash_tp4_reduce_bf16_device_inputs_into(2, buffers).unwrap();
    assert_eq!(steps.len(), 7);
    assert_eq!(
        steps[0],
        ReductionStep::Zero {
            destination: buffers.reduction_f32,
            values: 8_192
        }
    );
    let mut sources = Vec::new();
    for step in &steps[1..6] {
        match step {
            ReductionStep::Accumulate {
                source,
                destination,
                values,
            } => {
                assert_eq!(*destination, buffers.reduction_f32);
                assert_eq!(*values, 8_192);
                sources.push(source.ptr);
            }
            _ => panic!("five inputs are accumulated"),
        }
    }
    sources.sort_unstable();
    assert_eq!(
        sources,
        vec![0x1000_0000, 0x2000_0000, 0x3000_0000, 0x4000_0000, 0x5000_0000]
    );
    assert_eq!(
        steps[6],
        ReductionStep::Cast {
            source: buffers.reduction_f32,
            destination: buffers.ffn_delta,
            values: 8_192
        }
    );
}

#[test]
fn host_partials_name_what_is_wrong() {
    let partials = vec![vec![0_u8; 8]; 4];
    let maps = vec![vec![0_usize, 1]; 4];
    let check = |rows: usize, hidden: usize, p: &[Vec<u8>], m: &[Vec<usize>]| {
        validate_ds4_tp4_host_partial_layout_for_hidden_size(rows, hidden, p, m)
    };
    assert_eq!(check(2, 2, &partials, &maps), Ok(8));
    assert_eq!(
        check(0, 2, &partials, &maps),
        Err(Tp4HostPartialError::RowsOutOfRange { rows: 0 })
    );
    assert_eq!(
        check(2, 0, &partials, &maps),
        Err(Tp4HostPartialError::HiddenSizeZero)
    );
    assert_eq!(
        check(2, 2, &partials, &maps[..3]),
        Err(Tp4HostPartialError::RankCount {
            payloads: 4,
            row_maps: 3
        })
    );
    assert_eq!(
        check(2, usize::MAX, &partials, &maps),
        Err(Tp4HostPartialError::ByteOverflow)
    );
    assert_eq!(
        check(2, 3, &partials, &maps),
        Err(Tp4HostPartialError::PayloadBytes {
            rank: 0,
            expected: 12,
            actual: 8
        })
    );
    let mut swapped = maps.clone();
    swapped[1] = vec![1, 0];
    assert_eq!(
        check(2, 2, &partials, &swapped),
        Err(Tp4HostPartialError::RowMap { rank: 1, rows: 2 })
    );
}

#[test]
fn host_chunks_name_what_is_wrong() {
    let payload = [0_u8; 4];
    let row = [0_usize];
    let far = [5_usize];
    let none: [usize; 0] = [];
    let chunk = |rank: usize| Ds4FlashTp4HostPartialChunk {
        rank,
        payload_bf16: &payload[..],
        pinned_payload: None,
        global_row_indices: &row[..],
    };
    let all = [chunk(0), chunk(1), chunk(2), chunk(3)];
    let check = |rows: usize, hidden: usize, chunks: &[Ds4FlashTp4HostPartialChunk<'_>]| {
        validate_ds4_tp4_host_partial_chunks_for_hidden_size(rows, hidden, chunks)
    };
    assert_eq!(check(1, 2, &all), Ok(4));
    assert_eq!(check(1, 2, &[]), Err(Tp4HostChunkError::NoChunks));
    assert_eq!(check(1, 0, &all), Err(Tp4HostChunkError::HiddenSizeZero));
    assert_eq!(
        check(2_049, 2, &all),
        Err(Tp4HostChunkError::RowsOutOfRange { rows: 2_049 })
    );
    assert_eq!(
        check(1, usize::MAX, &all),
        Err(Tp4HostChunkError::RowBytesOverflow)
    );
    assert_eq!(
        check(2, usize::MAX / 2, &all),
        Err(Tp4HostChunkError::RankBytesOverflow)
    );
    let mut empty = all;
    empty[2].global_row_indices = &none[..];
    assert_eq!(
        check(1, 2, &empty),
        Err(Tp4HostChunkError::NoRows { chunk: 2, rank: 2 })
    );
    assert_eq!(
        check(1, 3, &all),
        Err(Tp4HostChunkError::PayloadBytes {
            chunk: 0,
            rank: 0,
            expected: 6,
            actual: 4
        })
    );
    let mut outside = all;
    outside[1].global_row_indices = &far[..];
    assert_eq!(
        check(1, 2, &outside),
        Err(Tp4HostChunkError::RowOutOfRange {
            chunk: 1,
            rank: 1,
            row: 5,
            rows: 1
        })
    );
}

fn arena() -> Ds4FlashTp4CoordinatorReductionArena {
    let bytes = Ds4FlashTp4CoordinatorReductionArena::arena_bytes(8, 4).unwrap();
    assert_eq!(bytes.bf16_bytes, 64);
    assert_eq!(bytes.f32_bytes, 128);
    Ds4FlashTp4CoordinatorReductionArena::new_for_hidden_size(8, 4, allocation()).unwrap()
}

fn allocation() -> Tp4ArenaAllocation {
    Tp4ArenaAllocation {
        rank_partials: [
            buffer(0x2000, 64, 0),
            buffer(0x3000, 64, 0),
            buffer(0x4000, 64, 0),
            buffer(0x5000, 64, 0),
        ],
        reduction_f32: buffer(0x6000, 128, 0),
        ffn_delta: buffer(0x7000, 64, 0),
    }
}

#[test]
fn arenas_need_a_size_and_the_coordinator() {
    let new = |rows: usize, hidden: usize, a: Tp4ArenaAllocation| {
        Ds4FlashTp4CoordinatorReductionArena::new_for_hidden_size(rows, hidden, a).unwrap_err()
    };
    assert_eq!(
        new(0, 4, allocation()),
        Tp4ArenaError::RowsOutOfRange { max_rows: 0 }
    );
    assert_eq!(new(8, 0, allocation()), Tp4ArenaError::HiddenSizeZero);
    assert_eq!(
        new(8, usize::MAX, allocation()),
        Tp4ArenaError::ShapeOverflow
    );
    let mut elsewhere = allocation();
    elsewhere.ffn_delta.device_id = 1;
    assert_eq!(new(8, 4, elsewhere), Tp4ArenaError::NotOnCoordinator);
    assert_eq!(
        new(0, 4, allocation()).message(),
        "DeepSeek V4 TP4 coordinator arena rows 0 are outside 1..=2048"
    );
    assert_eq!(
        new(8, 4, elsewhere).message(),
        "DeepSeek V4 Flash TP4 coordinator arena must be allocated on GPU0"
    );
    assert_eq!(arena().hidden_size(), 4);
}

#[test]
fn host_partials_are_staged_rank_by_rank() {
    let arena = arena();
    let shared = buffer(0x1000, 64, 0);
    let partials = vec![vec![0_u8; 16]; 4];
    let maps = vec![vec![0_usize, 1]; 4];
    let staged = arena
        .stage_host_partials(2, &partials, &maps, shared)
        .unwrap();
    assert_eq!(staged.buffers.shared_delta, shared);
    assert_eq!(staged.steps.len(), 4);
    assert_eq!(
        staged.steps[3],
        StageStep::RankPayload {
            rank: 3,
            destination: arena.rank_partials[3],
            bytes: 16
        }
    );
    assert!(matches!(
        arena.stage_host_partials(9, &partials, &maps, shared),
        Err(StageError::CapacityExceeded {
            chunked: false,
            rows: 9,
            capacity: 8
        })
    ));
    assert!(matches!(
        arena.stage_host_partials(2, &partials[..3], &maps, shared),
        Err(StageError::Partials(Tp4HostPartialError::RankCount { .. }))
    ));
    assert!(matches!(
        arena.stage_host_partials(2, &partials, &maps, buffer(0x2000, 64, 0)),
        Err(StageError::Layout(Tp4ReductionError::Overlap { .. }))
    ));
}

#[test]
fn host_chunks_scatter_rows_into_rank_images() {
    let arena = arena();
    let shared = buffer(0x1000, 64, 0);
    let two: Vec<u8> = (0..16).collect();
    let one: Vec<u8> = (16..24).collect();
    let back = [2_usize, 0];
    let middle = [1_usize];
    let mut chunks = Vec::new();
    for rank in 0..4 {
        chunks.push(Ds4FlashTp4HostPartialChunk {
            rank,
            payload_bf16: &two[..],
            pinned_payload: None,
            global_row_indices: &back[..],
        });
        chunks.push(Ds4FlashTp4HostPartialChunk {
            rank,
            payload_bf16: &one[..],
            pinned_payload: None,
            global_row_indices: &middle[..],
        });
    }
    let run = arena
        .stage_host_partial_chunks_and_reduce_synchronized(3, &chunks, shared)
        .unwrap();
    assert_eq!(run.output, arena.ffn_delta);
    assert_eq!(run.reduction.len(), 7);
    let mut images = vec![vec![0_u8; 24]; 4];
    let mut uploads = 0;
    for step in &run.stage {
        match step {
            StageStep::HostRow {
                chunk,
                rank,
                src_offset,
                dst_offset,
                bytes,
            } => images[*rank][*dst_offset..*dst_offset + *bytes]
                .copy_from_slice(&chunks[*chunk].payload_bf16[*src_offset..*src_offset + *bytes]),
            StageStep::RankImage {
                rank,
                destination,
                bytes,
            } => {
                assert_eq!(*destination, arena.rank_partials[*rank]);
                assert_eq!(*bytes, 24);
                uploads += 1;
            }
            _ => panic!("unpinned chunks are gathered on the host"),
        }
    }
    assert_eq!(uploads, 4);
    for image in &images {
        let expected: Vec<u8> = (8..16).chain(16..24).chain(0..8).collect();
        assert_eq!(*image, expected);
    }
}

#[test]
fn pinned_chunks_are_copied_in_runs() {
    let arena = arena();
    let shared = buffer(0x1000, 64, 0);
    let payload = vec![0_u8; 32];
    let rows = [1_usize, 2, 0, 3];
    let mut chunks = Vec::new();
    for rank in 0..4 {
        chunks.push(Ds4FlashTp4HostPartialChunk {
            rank,
            payload_bf16: &payload[..],
            pinned_payload: Some(Ds41rtHostBuffer {
                ptr: 0x9000,
                bytes: 32,
                pinned: true,
            }),
            global_row_indices: &rows[..],
        });
    }
    let staged = arena.stage_host_partial_chunks(4, &chunks, shared).unwrap();
    assert_eq!(staged.steps.len(), 12);
    assert!(staged
        .steps
        .iter()
        .all(|step| matches!(step, StageStep::PinnedRun { .. })));
    let mut short = chunks.clone();
    short[1].pinned_payload = Some(Ds41rtHostBuffer {
        ptr: 0x9000,
        bytes: 31,
        pinned: true,
    });
    let error = arena
        .stage_host_partial_chunks(4, &short, shared)
        .err()
        .unwrap();
    assert_eq!(error, StageError::NotPinnedView { chunk: 1, rank: 1 });
    assert_eq!(
        error.message(),
        "DeepSeek V4 Flash TP4 rank 1 direct verbs payload is not an exact pinned view"
    );
    assert_eq!(
        arena
            .stage_host_partial_chunks(9, &chunks, shared)
            .err()
            .unwrap()
            .message(),
        "DeepSeek V4 Flash TP4 chunk rows 9 exceed fixed arena capacity 8"
    );
    let output = buffer(0x8000, 64, 0);
    let run = arena
        .stage_host_partial_chunks_and_reduce_async_owned(4, &chunks, shared, output)
        .unwrap();
    assert_eq!(run.output.buffer, output);
    assert_eq!((run.output.rows, run.output.values_per_row), (4, 4));
    assert_eq!(
        run.output.backend,
        "deepseek-v4-tp4-async-owned-bf16-reduction"
    );
    assert_eq!(run.completion, StreamCompletion::RecordReadyEvent);
    let waiting = arena
        .stage_host_partial_chunks_and_reduce_synchronized(4, &chunks, shared)
        .unwrap();
    assert_eq!(waiting.completion, StreamCompletion::Synchronize);
    assert_eq!(run.stage, waiting.stage);
    assert_eq!(run.reduction[..6], waiting.reduction[..6]);
    assert_eq!(
        run.reduction[6],
        ReductionStep::Cast {
            source: arena.reduction_f32,
            destination: output,
            values: 16
        }
    );
    let failed = arena
        .stage_host_partial_chunks_and_reduce_async_owned(4, &chunks, shared, shared)
        .err()
        .unwrap();
    assert!(matches!(failed.error, StageError::Layout(_)));
    assert_eq!(failed.completion, StreamCompletion::Synchronize);
    let failed = arena
        .stage_host_partial_chunks_and_reduce_async_owned(4, &short, shared, output)
        .err()
        .unwrap();
    assert_eq!(failed.error, error);
    assert!(failed.error.synchronizes());
    assert!(!StageError::CapacityExceeded {
        chunked: true,
        rows: 9,
        capacity: 8
    }
    .synchronizes());
    assert_eq!(failed.completion, owned_reduction_completion(false));
    assert_eq!(run.completion, owned_reduction_completion(true));
    assert!(!response_frames_recyclable(run.completion, false, true));
    assert!(response_frames_recyclable(run.completion, true, false));
    assert!(!response_frames_recyclable(failed.completion, true, false));
    assert!(response_frames_recyclable(failed.completion, false, true));
}

/// The rank images that the steps of chunks leave on the device.
fn landed(
    arena: &Ds4FlashTp4CoordinatorReductionArena,
    rows: usize,
    chunks: &[Ds4FlashTp4HostPartialChunk<'_>],
) -> Vec<Vec<u8>> {
    let staged = arena
        .stage_host_partial_chunks(rows, chunks, buffer(0x1000, 64, 0))
        .unwrap();
    let mut host = vec![vec![0_u8; rows * 8]; 4];
    let mut device = vec![vec![0_u8; rows * 8]; 4];
    for step in &staged.steps {
        match step {
            StageStep::HostRow {
                chunk,
                rank,
                src_offset,
                dst_offset,
                bytes,
            } => host[*rank][*dst_offset..*dst_offset + *bytes]
                .copy_from_slice(&chunks[*chunk].payload_bf16[*src_offset..*src_offset + *bytes]),
            StageStep::RankImage { rank, bytes, .. } => {
                device[*rank][..*bytes].copy_from_slice(&host[*rank][..*bytes])
            }
            StageStep::PinnedRun {
                chunk,
                rank,
                src_offset,
                destination,
                bytes,
            } => {
                let start = destination.ptr - arena.rank_partials[*rank].ptr;
                device[*rank][start..start + *bytes].copy_from_slice(
                    &chunks[*chunk].payload_bf16[*src_offset..*src_offset + *bytes],
                )
            }
            StageStep::RankPayload { .. } => panic!("chunks are not complete payloads"),
        }
    }
    device
}

#[test]
fn staged_rows_ignore_order_pieces_and_pinning() {
    let arena = arena();
    let whole: Vec<Vec<u8>> = (0..4_u8)
        .map(|rank| (0..24).map(|i| rank * 32 + i).collect())
        .collect();
    let back: Vec<Vec<u8>> = whole
        .iter()
        .map(|bytes| [&bytes[16..24], &bytes[0..8]].concat())
        .collect();
    let in_order = [0_usize, 1, 2];
    let outer = [2_usize, 0];
    let middle = [1_usize];
    let pinned = |bytes: usize| {
        Some(Ds41rtHostBuffer {
            ptr: 0x9000,
            bytes,
            pinned: true,
        })
    };
    let mut direct = Vec::new();
    let mut gathered = Vec::new();
    let mut pieces = Vec::new();
    for rank in 0..4 {
        direct.push(Ds4FlashTp4HostPartialChunk {
            rank,
            payload_bf16: &whole[rank][..],
            pinned_payload: pinned(24),
            global_row_indices: &in_order[..],
        });
        gathered.push(Ds4FlashTp4HostPartialChunk {
            pinned_payload: None,
            ..direct[rank]
        });
        pieces.push(Ds4FlashTp4HostPartialChunk {
            rank: 3 - rank,
            payload_bf16: &back[3 - rank][..],
            pinned_payload: pinned(16),
            global_row_indices: &outer[..],
        });
        pieces.push(Ds4FlashTp4HostPartialChunk {
            rank: 3 - rank,
            payload_bf16: &whole[3 - rank][8..16],
            pinned_payload: pinned(8),
            global_row_indices: &middle[..],
        });
    }
    assert_eq!(landed(&arena, 3, &direct), whole);
    assert_eq!(landed(&arena, 3, &gathered), whole);
    assert_eq!(landed(&arena, 3, &pieces), whole);
}

#[test]
fn byte_views_stay_inside_their_buffer() {
    let whole = buffer(0x1000, 64, 0);
    let view = device_buffer_byte_view(whole, 16, 48).unwrap();
    assert_eq!(view, buffer(0x1010, 48, 0));
    let error = device_buffer_byte_view(whole, 16, 49).unwrap_err();
    assert_eq!((error.offset, error.bytes, error.capacity), (16, 49, 64));
    assert!(device_buffer_byte_view(whole, usize::MAX, 2).is_err());
}
