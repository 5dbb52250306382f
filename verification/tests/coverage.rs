//! Which tensors a catalog has to hold.
use real_full::coverage::{
    catalog_supports_default_sparse_router_routed_nvfp4,
    catalog_supports_full_model_execution_tensors,
    catalog_supports_sparse_routed_and_shared_experts, tensor_coverage,
    DensePrefixCatalogCoverage, SparseExpertCatalogCoverage,
};
use real_full::model::{DType, ModelFacts, ModelVariant, TensorCatalog, TensorInfo, TensorRole};

const FLASH_FIRST_K_DENSE_REPLACE: usize = 0;
const FLASH_NUM_HIDDEN_LAYERS: usize = 43;
const FLASH_ROUTED_EXPERTS: usize = 256;

fn flash_facts() -> ModelFacts {
    ModelFacts {
        model_type: "deepseek_v4".to_owned(),
        variant: ModelVariant::Flash,
        hidden_size: 4_096,
        num_hidden_layers: FLASH_NUM_HIDDEN_LAYERS,
        first_k_dense_replace: FLASH_FIRST_K_DENSE_REPLACE,
        num_hash_layers: 3,
        dspark_blocks: 3,
        routed_experts: FLASH_ROUTED_EXPERTS,
        shared_experts: 1,
        top_k: 6,
        moe_intermediate_size: 2_048,
        vocab_size: 129_280,
        head_dim: 512,
        scoring_function: "sqrtsoftplus".to_owned(),
        topk_method: "noaux_tc".to_owned(),
        routed_scaling_factor_bits: 1.5_f32.to_bits(),
        rms_norm_eps_bits: 1.0e-6_f32.to_bits(),
        quantization_recipe: "deepseek_v4_native_fp4_fp8_mixed_v1".to_owned(),
    }
}

#[test]
fn default_real_probe_coverage_gates_require_complete_tensor_families() {
    let mut catalog = full_default_real_probe_catalog();
    assert!(catalog_supports_full_model_execution_tensors(&catalog));
    assert!(catalog_supports_default_sparse_router_routed_nvfp4(
        &catalog
    ));
    assert!(catalog_supports_sparse_routed_and_shared_experts(&catalog));
    assert!(catalog_supports_full_model_execution_tensors(&catalog));

    let sparse_layer = FLASH_FIRST_K_DENSE_REPLACE as u32;
    let missing_quant = remove_first_matching(&mut catalog, |tensor| {
        tensor.role == TensorRole::RoutedExpert
            && tensor.is_quantization_metadata
            && tensor.layer_id == Some(sparse_layer)
            && tensor.expert_id == Some(0)
    });
    assert!(!catalog_supports_default_sparse_router_routed_nvfp4(
        &catalog
    ));
    assert!(!catalog_supports_sparse_routed_and_shared_experts(&catalog));
    assert!(!catalog_supports_full_model_execution_tensors(&catalog));
    catalog.tensors.push(missing_quant);
    assert!(catalog_supports_default_sparse_router_routed_nvfp4(
        &catalog
    ));

    let missing_shared = remove_first_matching(&mut catalog, |tensor| {
        tensor.role == TensorRole::SharedExpert && tensor.layer_id == Some(sparse_layer)
    });
    assert!(catalog_supports_default_sparse_router_routed_nvfp4(
        &catalog
    ));
    assert!(!catalog_supports_sparse_routed_and_shared_experts(&catalog));
    assert!(!catalog_supports_full_model_execution_tensors(&catalog));
    catalog.tensors.push(missing_shared);
    assert!(catalog_supports_sparse_routed_and_shared_experts(&catalog));

    assert!(catalog_supports_sparse_routed_and_shared_experts(&catalog));
    assert!(catalog_supports_full_model_execution_tensors(&catalog));

    let missing_lm_head =
        remove_first_matching(&mut catalog, |tensor| tensor.role == TensorRole::LmHead);
    assert!(!catalog_supports_full_model_execution_tensors(&catalog));
    catalog.tensors.push(missing_lm_head);
    assert!(catalog_supports_full_model_execution_tensors(&catalog));
}

#[test]
fn canonical_exl3_trellises_satisfy_routed_weight_coverage() {
    let mut facts = flash_facts();
    facts.num_hidden_layers = 1;
    facts.dspark_blocks = 0;
    facts.routed_experts = 1;
    facts.quantization_recipe = "deepseek_v4_exl3_calibrated".to_owned();
    let mut tensors = (0..2)
        .map(|_| tensor("router.weight", TensorRole::Router, Some(0), None, false))
        .collect::<Vec<_>>();
    for projection in ["gate_proj", "up_proj", "down_proj"] {
        for suffix in ["trellis", "suh", "svh", "mcg"] {
            tensors.push(tensor(
                &format!("model.layers.0.mlp.experts.0.{projection}.{suffix}"),
                TensorRole::RoutedExpert,
                Some(0),
                Some(0),
                suffix != "trellis",
            ));
        }
    }
    let mut catalog = TensorCatalog { facts, tensors };

    assert!(catalog_supports_default_sparse_router_routed_nvfp4(
        &catalog
    ));
    catalog
        .tensors
        .iter_mut()
        .find(|tensor| tensor.name.ends_with("gate_proj.trellis"))
        .unwrap()
        .is_quantization_metadata = true;
    assert!(!catalog_supports_default_sparse_router_routed_nvfp4(
        &catalog
    ));
}

#[test]
fn dense_layers_need_a_norm_and_three_projections() {
    let mut facts = flash_facts();
    facts.num_hidden_layers = 2;
    facts.first_k_dense_replace = 2;
    let mut tensors = Vec::new();
    for layer_id in 0..2_u32 {
        tensors.push(tensor(
            &format!("model.layers.{layer_id}.post_attention_layernorm.weight"),
            TensorRole::Norm,
            Some(layer_id),
            None,
            false,
        ));
        for _ in 0..3 {
            tensors.push(tensor(
                "dense.weight",
                TensorRole::DenseMlp,
                Some(layer_id),
                None,
                false,
            ));
        }
    }
    let mut catalog = TensorCatalog { facts, tensors };
    assert!(DensePrefixCatalogCoverage::from_catalog(&catalog).supports_dense_prefix());
    // More tensors change nothing.
    catalog
        .tensors
        .push(tensor("extra", TensorRole::Other, Some(9), None, false));
    assert!(DensePrefixCatalogCoverage::from_catalog(&catalog).supports_dense_prefix());
    catalog.tensors[0].name = "model.layers.0.input_layernorm.weight".to_owned();
    assert!(!DensePrefixCatalogCoverage::from_catalog(&catalog).supports_dense_prefix());
}

#[test]
fn coverage_counts_each_family() {
    let mut facts = flash_facts();
    facts.num_hidden_layers = 2;
    facts.first_k_dense_replace = 1;
    let tensors = vec![
        tensor("embed", TensorRole::Embedding, None, None, false),
        tensor("a", TensorRole::Attention, Some(0), None, false),
        tensor("d", TensorRole::DenseMlp, Some(0), None, false),
        tensor("r", TensorRole::Router, Some(1), None, false),
        tensor("s", TensorRole::SharedExpert, Some(1), None, false),
        tensor("e", TensorRole::RoutedExpert, Some(1), Some(0), false),
        tensor("q", TensorRole::RoutedExpert, Some(1), Some(0), true),
        tensor("m", TensorRole::RoutedExpert, Some(2), Some(0), false),
        tensor("head", TensorRole::LmHead, None, None, false),
    ];
    let catalog = TensorCatalog { facts, tensors };
    let coverage = tensor_coverage(&catalog);
    assert_eq!(coverage.hidden_layers_with_any_tensor, 2);
    assert_eq!(coverage.sparse_layers_with_routed_experts, 1);
    assert_eq!(coverage.dense_layers_with_dense_mlp, 1);
    assert_eq!(coverage.routed_expert_tensors, 3);
    assert_eq!(coverage.routed_quant_metadata_tensors, 1);
    assert_eq!(coverage.attention_tensors, 1);
    assert_eq!(coverage.router_tensors, 1);
    assert_eq!(coverage.shared_expert_tensors, 1);
    assert_eq!(coverage.embedding_tensors, 1);
    assert_eq!(coverage.lm_head_tensors, 1);
    let sparse = SparseExpertCatalogCoverage::from_catalog(&catalog);
    assert!(!sparse.supports_sparse_router_routed_nvfp4());
    assert!(!sparse.supports_sparse_shared_experts());
}

fn full_default_real_probe_catalog() -> TensorCatalog {
    let mut tensors = vec![tensor(
        "lm_head.weight",
        TensorRole::LmHead,
        None,
        None,
        false,
    )];
    for layer_id in 0..FLASH_FIRST_K_DENSE_REPLACE as u32 {
        tensors.push(tensor(
            &format!("model.layers.{layer_id}.post_attention_layernorm.weight"),
            TensorRole::Norm,
            Some(layer_id),
            None,
            false,
        ));
        for _ in 0..3 {
            tensors.push(tensor(
                "dense.weight",
                TensorRole::DenseMlp,
                Some(layer_id),
                None,
                false,
            ));
        }
    }
    for layer_id in FLASH_FIRST_K_DENSE_REPLACE as u32..FLASH_NUM_HIDDEN_LAYERS as u32 {
        for _ in 0..2 {
            tensors.push(tensor(
                "router.weight",
                TensorRole::Router,
                Some(layer_id),
                None,
                false,
            ));
        }
        for _ in 0..3 {
            tensors.push(tensor(
                "shared.weight",
                TensorRole::SharedExpert,
                Some(layer_id),
                None,
                false,
            ));
        }
        for expert_id in 0..FLASH_ROUTED_EXPERTS as u32 {
            for _ in 0..3 {
                tensors.push(tensor(
                    "routed.weight",
                    TensorRole::RoutedExpert,
                    Some(layer_id),
                    Some(expert_id),
                    false,
                ));
            }
            for _ in 0..3 {
                tensors.push(tensor(
                    "routed.weight_scale",
                    TensorRole::RoutedExpert,
                    Some(layer_id),
                    Some(expert_id),
                    true,
                ));
            }
        }
    }
    TensorCatalog {
        facts: flash_facts(),
        tensors,
    }
}

fn tensor(
    name: &str,
    role: TensorRole,
    layer_id: Option<u32>,
    expert_id: Option<u32>,
    is_quantization_metadata: bool,
) -> TensorInfo {
    TensorInfo {
        name: name.to_owned(),
        dtype: DType::Bf16,
        shape: vec![1],
        byte_length: 2,
        role,
        layer_id,
        expert_id,
        is_quantization_metadata,
    }
}

fn remove_first_matching(
    catalog: &mut TensorCatalog,
    mut predicate: impl FnMut(&TensorInfo) -> bool,
) -> TensorInfo {
    let index = catalog
        .tensors
        .iter()
        .position(|tensor| predicate(tensor))
        .expect("test catalog contains matching tensor");
    catalog.tensors.remove(index)
}
