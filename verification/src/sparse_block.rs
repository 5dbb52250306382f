//! The coordinator half of a sparse block: which model geometries it serves,
//! the names of the weights it keeps resident, and the tensors it loads.
use vstd::prelude::*;

use crate::device::Ds41rtDeviceBuffer;
use crate::model::{
    dtype_label, dtype_text, find_tensor, first_named, same_shape, DType, ModelFacts, ModelVariant,
    TensorCatalog, TensorInfo,
};
use crate::text::{
    append_list, append_size, decimal, list_text, quote_text, quoted, same_text,
};

verus! {

pub const DS4_FLASH_HIDDEN_SIZE: usize = 4_096;

pub const DS4_PRO_HIDDEN_SIZE: usize = 7_168;

pub const DS4_FLASH_ROUTED_EXPERTS: usize = 256;

pub const DS4_PRO_ROUTED_EXPERTS: usize = 384;

pub const DS4_FLASH_MOE_INTERMEDIATE_SIZE: usize = 2_048;

pub const DS4_PRO_MOE_INTERMEDIATE_SIZE: usize = 3_072;

pub const DS4_VOCAB: usize = 129_280;

/// The values of one scale of a block-scaled weight, along either dimension.
pub const SCALE_BLOCK: usize = 128;

/// The bit pattern of 1.5 as a 32-bit floating-point value.
pub const FLASH_ROUTED_SCALING_BITS: u32 = 0x3fc0_0000;

/// The bit pattern of 2.5 as a 32-bit floating-point value.
pub const PRO_ROUTED_SCALING_BITS: u32 = 0x4020_0000;

/// The routing constants of the checkpoints, and the recipe that a Pro
/// checkpoint has to be quantized with.
#[derive(Clone, Debug)]
pub struct SparseConstants {
    pub flash_top_k: usize,
    pub pro_top_k: usize,
    pub shared_experts: usize,
    pub exl3_recipe: String,
}

/// The geometry of a sparse block.
#[derive(Clone, Copy, Debug, PartialEq, Eq, Structural)]
pub struct Ds4SparseProfile {
    pub variant: ModelVariant,
    pub hidden: usize,
    pub routed_experts: usize,
    pub top_k: usize,
    pub shared_intermediate: usize,
}

/// Why a model has no sparse coordinator.
#[derive(Clone, Debug)]
pub enum ProfileError {
    NotDeepseek { model_type: String },
    CustomGeometry,
    Geometry { expected: Ds4SparseProfile },
    Router { variant: ModelVariant },
    Recipe { required: String, got: String },
}

/// The name of a variant in messages.
pub open spec fn variant_label(variant: ModelVariant) -> Seq<char> {
    match variant {
        ModelVariant::Flash => "Flash"@,
        ModelVariant::Pro => "Pro"@,
        ModelVariant::Custom => "Custom"@,
    }
}

pub(crate) fn variant_name(variant: ModelVariant) -> (name: &'static str)
    ensures
        name@ == variant_label(variant),
{
    match variant {
        ModelVariant::Flash => "Flash",
        ModelVariant::Pro => "Pro",
        ModelVariant::Custom => "Custom",
    }
}

/// A geometry in messages.
pub open spec fn geometry_text(
    hidden: usize,
    experts: usize,
    top_k: usize,
    shared_experts: usize,
    intermediate: usize,
    vocab: usize,
) -> Seq<char> {
    "hidden="@ + decimal(hidden as nat) + "/experts="@ + decimal(experts as nat) + "/top-k="@
        + decimal(top_k as nat) + "/shared="@ + decimal(shared_experts as nat) + "x"@ + decimal(
        intermediate as nat,
    ) + "/vocab="@ + decimal(vocab as nat)
}

fn geometry_message(
    hidden: usize,
    experts: usize,
    top_k: usize,
    shared_experts: usize,
    intermediate: usize,
    vocab: usize,
) -> (out: String)
    ensures
        out@ == geometry_text(hidden, experts, top_k, shared_experts, intermediate, vocab),
{
    let mut out: String = "hidden=".to_owned();
    append_size(&mut out, hidden);
    out.append("/experts=");
    append_size(&mut out, experts);
    out.append("/top-k=");
    append_size(&mut out, top_k);
    out.append("/shared=");
    append_size(&mut out, shared_experts);
    out.append("x");
    append_size(&mut out, intermediate);
    out.append("/vocab=");
    append_size(&mut out, vocab);
    out
}

impl ProfileError {
    /// What is said of a model without a sparse coordinator; `scaling` is the
    /// text of its routed scaling factor.
    pub open spec fn text(
        self,
        facts: ModelFacts,
        constants: SparseConstants,
        scaling: Seq<char>,
    ) -> Seq<char> {
        match self {
            ProfileError::NotDeepseek { model_type } =>
                "DeepSeek V4 sparse coordinator requires model_type deepseek_v4, got "@ + quoted(
                model_type@,
            ),
            ProfileError::CustomGeometry =>
                "custom DeepSeek V4 sparse coordinator geometry is unsupported"@,
            ProfileError::Geometry { expected } => "DeepSeek V4 "@ + variant_label(expected.variant)
                + " sparse coordinator requires "@ + geometry_text(
                expected.hidden,
                expected.routed_experts,
                expected.top_k,
                constants.shared_experts,
                expected.shared_intermediate,
                DS4_VOCAB,
            ) + "; got "@ + geometry_text(
                facts.hidden_size,
                facts.routed_experts,
                facts.top_k,
                facts.shared_experts,
                facts.moe_intermediate_size,
                facts.vocab_size,
            ),
            ProfileError::Router { variant } => "DeepSeek V4 "@ + variant_label(variant)
                + " router requires sqrtsoftplus/noaux_tc scaling="@ + (if variant
                == ModelVariant::Pro {
                "2.5"@
            } else {
                "1.5"@
            }) + "; got "@ + facts.scoring_function@ + "/"@ + facts.topk_method@ + "/"@ + scaling,
            ProfileError::Recipe { required, got } =>
                "DeepSeek V4 Pro sparse coordinator requires calibrated recipe "@ + required@
                + ", got "@ + got@,
        }
    }

    pub fn message(
        &self,
        facts: &ModelFacts,
        constants: &SparseConstants,
        scaling: &str,
    ) -> (out: String)
        ensures
            out@ == self.text(*facts, *constants, scaling@),
    {
        match self {
            ProfileError::NotDeepseek { model_type } => {
                let mut out: String =
                    "DeepSeek V4 sparse coordinator requires model_type deepseek_v4, got ".to_owned();
                let shown: String = quote_text(model_type.as_str());
                out.append(shown.as_str());
                out
            },
            ProfileError::CustomGeometry => {
                "custom DeepSeek V4 sparse coordinator geometry is unsupported".to_owned()
            },
            ProfileError::Geometry { expected } => {
                let mut out: String = "DeepSeek V4 ".to_owned();
                out.append(variant_name(expected.variant));
                out.append(" sparse coordinator requires ");
                let wanted: String = geometry_message(
                    expected.hidden,
                    expected.routed_experts,
                    expected.top_k,
                    constants.shared_experts,
                    expected.shared_intermediate,
                    DS4_VOCAB,
                );
                out.append(wanted.as_str());
                out.append("; got ");
                let found: String = geometry_message(
                    facts.hidden_size,
                    facts.routed_experts,
                    facts.top_k,
                    facts.shared_experts,
                    facts.moe_intermediate_size,
                    facts.vocab_size,
                );
                out.append(found.as_str());
                out
            },
            ProfileError::Router { variant } => {
                let mut out: String = "DeepSeek V4 ".to_owned();
                out.append(variant_name(*variant));
                out.append(" router requires sqrtsoftplus/noaux_tc scaling=");
                if *variant == ModelVariant::Pro {
                    out.append("2.5");
                } else {
                    out.append("1.5");
                }
                out.append("; got ");
                out.append(facts.scoring_function.as_str());
                out.append("/");
                out.append(facts.topk_method.as_str());
                out.append("/");
                out.append(scaling);
                out
            },
            ProfileError::Recipe { required, got } => {
                let mut out: String =
                    "DeepSeek V4 Pro sparse coordinator requires calibrated recipe ".to_owned();
                out.append(required.as_str());
                out.append(", got ");
                out.append(got.as_str());
                out
            },
        }
    }
}

/// The geometry that a variant has to have.
pub open spec fn variant_profile(
    variant: ModelVariant,
    constants: SparseConstants,
) -> Ds4SparseProfile {
    if variant == ModelVariant::Flash {
        Ds4SparseProfile {
            variant,
            hidden: DS4_FLASH_HIDDEN_SIZE,
            routed_experts: DS4_FLASH_ROUTED_EXPERTS,
            top_k: constants.flash_top_k,
            shared_intermediate: DS4_FLASH_MOE_INTERMEDIATE_SIZE,
        }
    } else {
        Ds4SparseProfile {
            variant,
            hidden: DS4_PRO_HIDDEN_SIZE,
            routed_experts: DS4_PRO_ROUTED_EXPERTS,
            top_k: constants.pro_top_k,
            shared_intermediate: DS4_PRO_MOE_INTERMEDIATE_SIZE,
        }
    }
}

/// The model has the geometry of its variant.
pub open spec fn geometry_matches(facts: ModelFacts, constants: SparseConstants) -> bool {
    let profile = variant_profile(facts.variant, constants);
    &&& facts.hidden_size == profile.hidden
    &&& facts.routed_experts == profile.routed_experts
    &&& facts.top_k == profile.top_k
    &&& facts.moe_intermediate_size == profile.shared_intermediate
    &&& facts.shared_experts == constants.shared_experts
    &&& facts.vocab_size == DS4_VOCAB
}

/// The router scores and scales as the variant does.
pub open spec fn router_matches(facts: ModelFacts) -> bool {
    &&& facts.scoring_function@ == "sqrtsoftplus"@
    &&& facts.topk_method@ == "noaux_tc"@
    &&& facts.routed_scaling_factor_bits == (if facts.variant == ModelVariant::Flash {
        FLASH_ROUTED_SCALING_BITS
    } else {
        PRO_ROUTED_SCALING_BITS
    })
}

/// The recipe fits the variant: a Pro checkpoint has to be calibrated.
pub open spec fn recipe_matches(facts: ModelFacts, constants: SparseConstants) -> bool {
    facts.variant == ModelVariant::Pro ==> facts.quantization_recipe@ == constants.exl3_recipe@
}

/// The model has a sparse coordinator.
pub open spec fn profile_accepted(facts: ModelFacts, constants: SparseConstants) -> bool {
    &&& facts.model_type@ == "deepseek_v4"@
    &&& facts.variant != ModelVariant::Custom
    &&& geometry_matches(facts, constants)
    &&& router_matches(facts)
    &&& recipe_matches(facts, constants)
}

/// The first reason why the model has none.
pub open spec fn profile_refused(
    facts: ModelFacts,
    constants: SparseConstants,
    error: ProfileError,
) -> bool {
    if facts.model_type@ != "deepseek_v4"@ {
        error matches ProfileError::NotDeepseek { model_type } && model_type@ == facts.model_type@
    } else if facts.variant == ModelVariant::Custom {
        error == ProfileError::CustomGeometry
    } else if !geometry_matches(facts, constants) {
        error == (ProfileError::Geometry { expected: variant_profile(facts.variant, constants) })
    } else if !router_matches(facts) {
        error == (ProfileError::Router { variant: facts.variant })
    } else {
        &&& !recipe_matches(facts, constants)
        &&& error matches ProfileError::Recipe { required, got } && required@
            == constants.exl3_recipe@ && got@ == facts.quantization_recipe@
    }
}

impl Ds4SparseProfile {
    /// The geometry of the sparse blocks of a model.
    pub fn from_facts(facts: &ModelFacts, constants: &SparseConstants) -> (result: Result<
        Self,
        ProfileError,
    >)
        ensures
            result is Ok <==> profile_accepted(*facts, *constants),
            result matches Ok(profile) ==> profile == variant_profile(facts.variant, *constants),
            result matches Err(e) ==> profile_refused(*facts, *constants, e),
    {
        if !same_text(facts.model_type.as_str(), "deepseek_v4") {
            return Err(ProfileError::NotDeepseek { model_type: facts.model_type.clone() });
        }
        let profile = match facts.variant {
            ModelVariant::Flash => Ds4SparseProfile {
                variant: ModelVariant::Flash,
                hidden: DS4_FLASH_HIDDEN_SIZE,
                routed_experts: DS4_FLASH_ROUTED_EXPERTS,
                top_k: constants.flash_top_k,
                shared_intermediate: DS4_FLASH_MOE_INTERMEDIATE_SIZE,
            },
            ModelVariant::Pro => Ds4SparseProfile {
                variant: ModelVariant::Pro,
                hidden: DS4_PRO_HIDDEN_SIZE,
                routed_experts: DS4_PRO_ROUTED_EXPERTS,
                top_k: constants.pro_top_k,
                shared_intermediate: DS4_PRO_MOE_INTERMEDIATE_SIZE,
            },
            ModelVariant::Custom => return Err(ProfileError::CustomGeometry),
        };
        if facts.hidden_size != profile.hidden || facts.routed_experts != profile.routed_experts
            || facts.top_k != profile.top_k || facts.moe_intermediate_size
            != profile.shared_intermediate || facts.shared_experts != constants.shared_experts
            || facts.vocab_size != DS4_VOCAB {
            return Err(ProfileError::Geometry { expected: profile });
        }
        let expected_scaling: u32 = if profile.variant == ModelVariant::Flash {
            FLASH_ROUTED_SCALING_BITS
        } else {
            PRO_ROUTED_SCALING_BITS
        };
        if !same_text(facts.scoring_function.as_str(), "sqrtsoftplus") || !same_text(
            facts.topk_method.as_str(),
            "noaux_tc",
        ) || facts.routed_scaling_factor_bits != expected_scaling {
            return Err(ProfileError::Router { variant: facts.variant });
        }
        if profile.variant == ModelVariant::Pro && !same_text(
            facts.quantization_recipe.as_str(),
            constants.exl3_recipe.as_str(),
        ) {
            return Err(
                ProfileError::Recipe {
                    required: constants.exl3_recipe.clone(),
                    got: facts.quantization_recipe.clone(),
                },
            );
        }
        Ok(profile)
    }
}

/// The weights of one sparse layer that the coordinator keeps resident.
#[derive(Clone, Debug)]
pub struct Ds4FlashSparseLayerResidentWeights {
    pub variant: ModelVariant,
    pub hidden: usize,
    pub shared_intermediate: usize,
    pub ffn_norm_name: String,
    pub router_weight_name: String,
    pub router_aux_name: String,
    pub hash_routing: bool,
    pub shared_w1_weight_name: String,
    pub shared_w1_scale_name: String,
    pub shared_w3_weight_name: String,
    pub shared_w3_scale_name: String,
    pub shared_w2_weight_name: String,
    pub shared_w2_scale_name: String,
}

/// Why a layer has no resident weights.
#[derive(Clone, Debug)]
pub enum LayerWeightsError {
    Profile { error: ProfileError },
    Depth { layer_id: usize, blocks: usize },
    NotFlash { preload: bool, variant: ModelVariant },
}

impl LayerWeightsError {
    /// What is said of a layer without resident weights; `scaling` is the text of
    /// the model's routed scaling factor.
    pub open spec fn text(
        self,
        facts: ModelFacts,
        constants: SparseConstants,
        scaling: Seq<char>,
    ) -> Seq<char> {
        match self {
            LayerWeightsError::Profile { error } => error.text(facts, constants, scaling),
            LayerWeightsError::Depth { layer_id, blocks } => "DeepSeek V4 sparse layer "@
                + decimal(layer_id as nat) + " exceeds checkpoint depth "@ + decimal(blocks as nat),
            LayerWeightsError::NotFlash { preload, variant } => (if preload {
                "Flash sparse preload received "@
            } else {
                "Flash sparse names received "@
            }) + variant_label(variant) + " model facts"@,
        }
    }

    pub fn message(
        &self,
        facts: &ModelFacts,
        constants: &SparseConstants,
        scaling: &str,
    ) -> (out: String)
        ensures
            out@ == self.text(*facts, *constants, scaling@),
    {
        match self {
            LayerWeightsError::Profile { error } => error.message(facts, constants, scaling),
            LayerWeightsError::Depth { layer_id, blocks } => {
                let mut out: String = "DeepSeek V4 sparse layer ".to_owned();
                append_size(&mut out, *layer_id);
                out.append(" exceeds checkpoint depth ");
                append_size(&mut out, *blocks);
                out
            },
            LayerWeightsError::NotFlash { preload, variant } => {
                let mut out: String = if *preload {
                    "Flash sparse preload received ".to_owned()
                } else {
                    "Flash sparse names received ".to_owned()
                };
                out.append(variant_name(*variant));
                out.append(" model facts");
                out
            },
        }
    }
}

/// Where the weights of a block stand in a checkpoint: target layers under
/// their number, dSpark blocks in a namespace of their own.
pub open spec fn block_prefix(facts: ModelFacts, layer_id: usize) -> Seq<char> {
    if layer_id < facts.num_hidden_layers {
        "layers."@ + decimal(layer_id as nat)
    } else {
        "mtp."@ + decimal((layer_id - facts.num_hidden_layers) as nat)
    }
}

/// The layer routes by token: one of the first target layers.
pub open spec fn hash_routed(facts: ModelFacts, layer_id: usize) -> bool {
    layer_id < facts.num_hidden_layers && layer_id < facts.num_hash_layers
}

/// The layer is there and has a sparse coordinator.
pub open spec fn layer_accepted(
    facts: ModelFacts,
    constants: SparseConstants,
    layer_id: usize,
) -> bool {
    profile_accepted(facts, constants) && layer_id < facts.transformer_blocks()
}

/// The first reason why the layer has no resident weights.
pub open spec fn layer_refused(
    facts: ModelFacts,
    constants: SparseConstants,
    layer_id: usize,
    error: LayerWeightsError,
) -> bool {
    if !profile_accepted(facts, constants) {
        error matches LayerWeightsError::Profile { error: inner } && profile_refused(
            facts,
            constants,
            inner,
        )
    } else {
        &&& layer_id >= facts.transformer_blocks()
        &&& error == (LayerWeightsError::Depth {
            layer_id,
            blocks: facts.transformer_blocks() as usize,
        })
    }
}

/// The names of the weights of one layer.
pub open spec fn layer_names_ok(
    weights: Ds4FlashSparseLayerResidentWeights,
    facts: ModelFacts,
    constants: SparseConstants,
    layer_id: usize,
) -> bool {
    let block = block_prefix(facts, layer_id);
    let ffn = block + ".ffn"@;
    let profile = variant_profile(facts.variant, constants);
    &&& weights.variant == profile.variant
    &&& weights.hidden == profile.hidden
    &&& weights.shared_intermediate == profile.shared_intermediate
    &&& weights.hash_routing == hash_routed(facts, layer_id)
    &&& weights.ffn_norm_name@ == block + ".ffn_norm.weight"@
    &&& weights.router_weight_name@ == ffn + ".gate.weight"@
    &&& weights.router_aux_name@ == ffn + (if hash_routed(facts, layer_id) {
        ".gate.tid2eid"@
    } else {
        ".gate.bias"@
    })
    &&& weights.shared_w1_weight_name@ == ffn + ".shared_experts.w1.weight"@
    &&& weights.shared_w1_scale_name@ == ffn + ".shared_experts.w1.scale"@
    &&& weights.shared_w3_weight_name@ == ffn + ".shared_experts.w3.weight"@
    &&& weights.shared_w3_scale_name@ == ffn + ".shared_experts.w3.scale"@
    &&& weights.shared_w2_weight_name@ == ffn + ".shared_experts.w2.weight"@
    &&& weights.shared_w2_scale_name@ == ffn + ".shared_experts.w2.scale"@
}

fn joined(prefix: &String, suffix: &str) -> (out: String)
    ensures
        out@ == prefix@ + suffix@,
{
    let mut out: String = prefix.clone();
    out.append(suffix);
    out
}

/// The names of the weights of one sparse layer or dSpark block.
pub fn ds4_sparse_layer_resident_weight_names(
    facts: &ModelFacts,
    constants: &SparseConstants,
    layer_id: usize,
) -> (result: Result<Ds4FlashSparseLayerResidentWeights, LayerWeightsError>)
    requires
        facts.transformer_blocks() <= usize::MAX,
    ensures
        result is Ok <==> layer_accepted(*facts, *constants, layer_id),
        result matches Ok(weights) ==> layer_names_ok(weights, *facts, *constants, layer_id),
        result matches Err(e) ==> layer_refused(*facts, *constants, layer_id, e),
{
    let profile = match Ds4SparseProfile::from_facts(facts, constants) {
        Ok(profile) => profile,
        Err(error) => return Err(LayerWeightsError::Profile { error }),
    };
    let blocks: usize = facts.total_transformer_blocks();
    if layer_id >= blocks {
        return Err(LayerWeightsError::Depth { layer_id, blocks });
    }
    let target: bool = layer_id < facts.num_hidden_layers;
    let mut block: String = if target {
        "layers.".to_owned()
    } else {
        "mtp.".to_owned()
    };
    append_size(
        &mut block,
        if target {
            layer_id
        } else {
            layer_id - facts.num_hidden_layers
        },
    );
    let hash_routing: bool = target && layer_id < facts.num_hash_layers;
    let ffn: String = joined(&block, ".ffn");
    Ok(
        Ds4FlashSparseLayerResidentWeights {
            variant: profile.variant,
            hidden: profile.hidden,
            shared_intermediate: profile.shared_intermediate,
            ffn_norm_name: joined(&block, ".ffn_norm.weight"),
            router_weight_name: joined(&ffn, ".gate.weight"),
            router_aux_name: if hash_routing {
                joined(&ffn, ".gate.tid2eid")
            } else {
                joined(&ffn, ".gate.bias")
            },
            hash_routing,
            shared_w1_weight_name: joined(&ffn, ".shared_experts.w1.weight"),
            shared_w1_scale_name: joined(&ffn, ".shared_experts.w1.scale"),
            shared_w3_weight_name: joined(&ffn, ".shared_experts.w3.weight"),
            shared_w3_scale_name: joined(&ffn, ".shared_experts.w3.scale"),
            shared_w2_weight_name: joined(&ffn, ".shared_experts.w2.weight"),
            shared_w2_scale_name: joined(&ffn, ".shared_experts.w2.scale"),
        },
    )
}

/// The names of the weights of one Flash layer; a Pro model is refused.
pub fn ds4_flash_sparse_layer_resident_weight_names(
    facts: &ModelFacts,
    constants: &SparseConstants,
    layer_id: usize,
) -> (result: Result<Ds4FlashSparseLayerResidentWeights, LayerWeightsError>)
    requires
        facts.transformer_blocks() <= usize::MAX,
    ensures
        result is Ok <==> layer_accepted(*facts, *constants, layer_id) && facts.variant
            == ModelVariant::Flash,
        result matches Ok(weights) ==> layer_names_ok(weights, *facts, *constants, layer_id),
        result matches Err(e) ==> if layer_accepted(*facts, *constants, layer_id) {
            e == (LayerWeightsError::NotFlash { preload: false, variant: facts.variant })
        } else {
            layer_refused(*facts, *constants, layer_id, e)
        },
{
    match ds4_sparse_layer_resident_weight_names(facts, constants, layer_id) {
        Err(error) => Err(error),
        Ok(weights) => {
            if weights.variant == ModelVariant::Flash {
                Ok(weights)
            } else {
                Err(LayerWeightsError::NotFlash { preload: false, variant: weights.variant })
            }
        },
    }
}

/// No dSpark block routes by token: its expert choice is always learned.
pub proof fn law_dspark_blocks_are_not_hash_routed(facts: ModelFacts, layer_id: usize)
    requires
        layer_id >= facts.num_hidden_layers,
    ensures
        !hash_routed(facts, layer_id),
{
}

/// A tensor that has to be resident: its name, element type, shape and the
/// bytes of one value.
#[derive(Clone, Debug)]
pub struct TensorRequirement {
    pub name: String,
    pub dtype: DType,
    pub shape: Vec<usize>,
    pub bytes_per_value: usize,
}

pub open spec fn requirement_is(
    requirement: TensorRequirement,
    name: Seq<char>,
    dtype: DType,
    shape: Seq<usize>,
    bytes_per_value: usize,
) -> bool {
    &&& requirement.name@ == name
    &&& requirement.dtype == dtype
    &&& requirement.shape@ == shape
    &&& requirement.bytes_per_value == bytes_per_value
}

/// The tensors of one layer in the order in which they are loaded: the global
/// router, its table or bias, and the three projections of the shared expert,
/// each with its scales.
pub open spec fn layer_requirements_ok(
    requirements: Seq<TensorRequirement>,
    weights: Ds4FlashSparseLayerResidentWeights,
    profile: Ds4SparseProfile,
) -> bool {
    let h = profile.hidden;
    let s = profile.shared_intermediate;
    let hb = (h / SCALE_BLOCK) as usize;
    let sb = (s / SCALE_BLOCK) as usize;
    &&& requirements.len() == 8
    &&& requirement_is(
        requirements[0],
        weights.router_weight_name@,
        DType::Bf16,
        seq![profile.routed_experts, h],
        2,
    )
    &&& if weights.hash_routing {
        requirement_is(
            requirements[1],
            weights.router_aux_name@,
            DType::I64,
            seq![DS4_VOCAB, profile.top_k],
            8,
        )
    } else {
        requirement_is(
            requirements[1],
            weights.router_aux_name@,
            DType::F32,
            seq![profile.routed_experts],
            4,
        )
    }
    &&& requirement_is(
        requirements[2],
        weights.shared_w1_weight_name@,
        DType::F8E4M3,
        seq![s, h],
        1,
    )
    &&& requirement_is(
        requirements[3],
        weights.shared_w1_scale_name@,
        DType::F8E8M0,
        seq![sb, hb],
        1,
    )
    &&& requirement_is(
        requirements[4],
        weights.shared_w3_weight_name@,
        DType::F8E4M3,
        seq![s, h],
        1,
    )
    &&& requirement_is(
        requirements[5],
        weights.shared_w3_scale_name@,
        DType::F8E8M0,
        seq![sb, hb],
        1,
    )
    &&& requirement_is(
        requirements[6],
        weights.shared_w2_weight_name@,
        DType::F8E4M3,
        seq![h, s],
        1,
    )
    &&& requirement_is(
        requirements[7],
        weights.shared_w2_scale_name@,
        DType::F8E8M0,
        seq![hb, sb],
        1,
    )
}

fn requirement(name: &String, dtype: DType, rows: usize, columns: Option<usize>, bytes: usize) -> (r:
    TensorRequirement)
    ensures
        requirement_is(
            r,
            name@,
            dtype,
            match columns {
                Some(columns) => seq![rows, columns],
                None => seq![rows],
            },
            bytes,
        ),
{
    let mut shape: Vec<usize> = Vec::new();
    shape.push(rows);
    if let Some(columns) = columns {
        shape.push(columns);
    }
    assert(shape@ =~= match columns {
        Some(columns) => seq![rows, columns],
        None => seq![rows],
    });
    TensorRequirement { name: name.clone(), dtype, shape, bytes_per_value: bytes }
}

/// The names of the weights of one layer and the tensors to load for them.
pub fn preload_ds4_sparse_layer_resident_weights(
    facts: &ModelFacts,
    constants: &SparseConstants,
    layer_id: usize,
) -> (result: Result<
    (Ds4FlashSparseLayerResidentWeights, Vec<TensorRequirement>),
    LayerWeightsError,
>)
    requires
        facts.transformer_blocks() <= usize::MAX,
    ensures
        result is Ok <==> layer_accepted(*facts, *constants, layer_id),
        result matches Ok((weights, requirements)) ==> layer_names_ok(
            weights,
            *facts,
            *constants,
            layer_id,
        ) && layer_requirements_ok(
            requirements@,
            weights,
            variant_profile(facts.variant, *constants),
        ),
        result matches Err(e) ==> layer_refused(*facts, *constants, layer_id, e),
{
    let profile = match Ds4SparseProfile::from_facts(facts, constants) {
        Ok(profile) => profile,
        Err(error) => return Err(LayerWeightsError::Profile { error }),
    };
    let weights = match ds4_sparse_layer_resident_weight_names(facts, constants, layer_id) {
        Ok(weights) => weights,
        Err(error) => return Err(error),
    };
    let h: usize = profile.hidden;
    let s: usize = profile.shared_intermediate;
    let hb: usize = h / SCALE_BLOCK;
    let sb: usize = s / SCALE_BLOCK;
    let mut requirements: Vec<TensorRequirement> = Vec::new();
    requirements.push(
        requirement(
            &weights.router_weight_name,
            DType::Bf16,
            profile.routed_experts,
            Some(h),
            2,
        ),
    );
    if weights.hash_routing {
        requirements.push(
            requirement(
                &weights.router_aux_name,
                DType::I64,
                DS4_VOCAB,
                Some(profile.top_k),
                8,
            ),
        );
    } else {
        requirements.push(
            requirement(&weights.router_aux_name, DType::F32, profile.routed_experts, None, 4),
        );
    }
    requirements.push(
        requirement(&weights.shared_w1_weight_name, DType::F8E4M3, s, Some(h), 1),
    );
    requirements.push(
        requirement(&weights.shared_w1_scale_name, DType::F8E8M0, sb, Some(hb), 1),
    );
    requirements.push(
        requirement(&weights.shared_w3_weight_name, DType::F8E4M3, s, Some(h), 1),
    );
    requirements.push(
        requirement(&weights.shared_w3_scale_name, DType::F8E8M0, sb, Some(hb), 1),
    );
    requirements.push(
        requirement(&weights.shared_w2_weight_name, DType::F8E4M3, h, Some(s), 1),
    );
    requirements.push(
        requirement(&weights.shared_w2_scale_name, DType::F8E8M0, hb, Some(sb), 1),
    );
    Ok((weights, requirements))
}

/// As above, for a Flash model only.
pub fn preload_ds4_flash_sparse_layer_resident_weights(
    facts: &ModelFacts,
    constants: &SparseConstants,
    layer_id: usize,
) -> (result: Result<
    (Ds4FlashSparseLayerResidentWeights, Vec<TensorRequirement>),
    LayerWeightsError,
>)
    requires
        facts.transformer_blocks() <= usize::MAX,
    ensures
        result is Ok <==> layer_accepted(*facts, *constants, layer_id) && facts.variant
            == ModelVariant::Flash,
        result matches Ok((weights, requirements)) ==> layer_names_ok(
            weights,
            *facts,
            *constants,
            layer_id,
        ) && layer_requirements_ok(
            requirements@,
            weights,
            variant_profile(facts.variant, *constants),
        ),
        result matches Err(e) ==> if layer_accepted(*facts, *constants, layer_id) {
            e == (LayerWeightsError::NotFlash { preload: true, variant: facts.variant })
        } else {
            layer_refused(*facts, *constants, layer_id, e)
        },
{
    match preload_ds4_sparse_layer_resident_weights(facts, constants, layer_id) {
        Err(error) => Err(error),
        Ok(loaded) => {
            if loaded.0.variant == ModelVariant::Flash {
                Ok(loaded)
            } else {
                Err(LayerWeightsError::NotFlash { preload: true, variant: loaded.0.variant })
            }
        },
    }
}

/// The scales of a projection that are rearranged for its kernel: their name
/// and the rows and columns of the weight that they scale.
#[derive(Clone, Debug)]
pub struct ScaleLayout {
    pub scale_name: String,
    pub rows: usize,
    pub columns: usize,
}

/// The scales of the three projections of the shared expert.
pub open spec fn scale_layouts_ok(
    layouts: Seq<ScaleLayout>,
    weights: Ds4FlashSparseLayerResidentWeights,
) -> bool {
    &&& layouts.len() == 3
    &&& layouts[0].scale_name@ == weights.shared_w1_scale_name@
    &&& layouts[0].rows == weights.shared_intermediate
    &&& layouts[0].columns == weights.hidden
    &&& layouts[1].scale_name@ == weights.shared_w3_scale_name@
    &&& layouts[1].rows == weights.shared_intermediate
    &&& layouts[1].columns == weights.hidden
    &&& layouts[2].scale_name@ == weights.shared_w2_scale_name@
    &&& layouts[2].rows == weights.hidden
    &&& layouts[2].columns == weights.shared_intermediate
}

/// The scales to rearrange once the tensors of a layer are resident.
pub fn shared_expert_scale_layouts(weights: &Ds4FlashSparseLayerResidentWeights) -> (layouts: Vec<
    ScaleLayout,
>)
    ensures
        scale_layouts_ok(layouts@, *weights),
{
    let mut layouts: Vec<ScaleLayout> = Vec::new();
    layouts.push(
        ScaleLayout {
            scale_name: weights.shared_w1_scale_name.clone(),
            rows: weights.shared_intermediate,
            columns: weights.hidden,
        },
    );
    layouts.push(
        ScaleLayout {
            scale_name: weights.shared_w3_scale_name.clone(),
            rows: weights.shared_intermediate,
            columns: weights.hidden,
        },
    );
    layouts.push(
        ScaleLayout {
            scale_name: weights.shared_w2_scale_name.clone(),
            rows: weights.hidden,
            columns: weights.shared_intermediate,
        },
    );
    layouts
}

/// Why a tensor cannot be made resident.
#[derive(Clone, Debug)]
pub enum ResidentTensorError {
    Missing { name: String },
    Layout {
        name: String,
        dtype: DType,
        shape: Vec<usize>,
        found_dtype: DType,
        found_shape: Vec<usize>,
    },
    Overflow,
    Bytes { name: String, got: u64, expected: usize },
    Changed { name: String },
}

impl ResidentTensorError {
    /// What is said of the error; `other` names an element type that is not told
    /// apart.
    pub open spec fn text(self, other: Seq<char>) -> Seq<char> {
        match self {
            ResidentTensorError::Missing { name } =>
                "DeepSeek V4 tensor "@ + name@ + " is missing"@,
            ResidentTensorError::Layout { name, dtype, shape, found_dtype, found_shape } =>
                "DeepSeek V4 tensor "@ + name@ + " expected "@ + dtype_text(dtype, other) + " "@
                + list_text(shape@) + ", got "@ + dtype_text(found_dtype, other) + " "@
                + list_text(found_shape@),
            ResidentTensorError::Overflow => "DeepSeek V4 sparse tensor shape overflows usize"@,
            ResidentTensorError::Bytes { name, got, expected } =>
                "DeepSeek V4 tensor "@ + name@ + " has "@ + decimal(got as nat)
                + " bytes, expected "@ + decimal(expected as nat),
            ResidentTensorError::Changed { name } =>
                "DeepSeek V4 tensor "@ + name@ + " changed during resident preload"@,
        }
    }

    pub fn message(&self, other: &str) -> (out: String)
        ensures
            out@ == self.text(other@),
    {
        match self {
            ResidentTensorError::Missing { name } => {
                let mut out: String = "DeepSeek V4 tensor ".to_owned();
                out.append(name.as_str());
                out.append(" is missing");
                out
            },
            ResidentTensorError::Layout { name, dtype, shape, found_dtype, found_shape } => {
                let mut out: String = "DeepSeek V4 tensor ".to_owned();
                out.append(name.as_str());
                out.append(" expected ");
                out.append(dtype_label(*dtype, other));
                out.append(" ");
                append_list(&mut out, shape.as_slice());
                out.append(", got ");
                out.append(dtype_label(*found_dtype, other));
                out.append(" ");
                append_list(&mut out, found_shape.as_slice());
                out
            },
            ResidentTensorError::Overflow => {
                "DeepSeek V4 sparse tensor shape overflows usize".to_owned()
            },
            ResidentTensorError::Bytes { name, got, expected } => {
                let mut out: String = "DeepSeek V4 tensor ".to_owned();
                out.append(name.as_str());
                out.append(" has ");
                crate::text::append_decimal(&mut out, *got);
                out.append(" bytes, expected ");
                append_size(&mut out, *expected);
                out
            },
            ResidentTensorError::Changed { name } => {
                let mut out: String = "DeepSeek V4 tensor ".to_owned();
                out.append(name.as_str());
                out.append(" changed during resident preload");
                out
            },
        }
    }
}

/// The bytes of the first `n` dimensions of a shape, multiplied one after the
/// other; nothing where a product on the way cannot be counted.
pub open spec fn shape_bytes(bytes_per_value: usize, shape: Seq<usize>, n: int) -> Option<usize>
    decreases n,
{
    if n <= 0 {
        Some(bytes_per_value)
    } else {
        match shape_bytes(bytes_per_value, shape, n - 1) {
            Some(bytes) => if bytes * shape[n - 1] <= usize::MAX {
                Some((bytes * shape[n - 1]) as usize)
            } else {
                None
            },
            None => None,
        }
    }
}

proof fn lemma_shape_bytes_stays_lost(bytes_per_value: usize, shape: Seq<usize>, k: int, n: int)
    requires
        0 <= k <= n,
        shape_bytes(bytes_per_value, shape, k) is None,
    ensures
        shape_bytes(bytes_per_value, shape, n) is None,
    decreases n,
{
    if k < n {
        lemma_shape_bytes_stays_lost(bytes_per_value, shape, k, n - 1);
    }
}

/// The bytes that a required tensor takes.
pub fn requirement_bytes(requirement: &TensorRequirement) -> (bytes: Option<usize>)
    ensures
        bytes == shape_bytes(
            requirement.bytes_per_value,
            requirement.shape@,
            requirement.shape@.len() as int,
        ),
{
    let shape: &Vec<usize> = &requirement.shape;
    let mut bytes: usize = requirement.bytes_per_value;
    let mut i: usize = 0;
    while i < shape.len()
        invariant
            i <= shape@.len(),
            *shape == requirement.shape,
            shape_bytes(requirement.bytes_per_value, shape@, i as int) == Some(bytes),
        decreases shape@.len() - i,
    {
        match bytes.checked_mul(shape[i]) {
            Some(product) => {
                bytes = product;
            },
            None => {
                proof {
                    assert(shape_bytes(requirement.bytes_per_value, shape@, i + 1) is None);
                    lemma_shape_bytes_stays_lost(
                        requirement.bytes_per_value,
                        shape@,
                        i + 1,
                        shape@.len() as int,
                    );
                }
                return None;
            },
        }
        i = i + 1;
    }
    Some(bytes)
}

/// The tensor is there as it is required.
pub open spec fn resident_accepted(
    tensors: Seq<TensorInfo>,
    requirement: TensorRequirement,
    i: int,
) -> bool {
    &&& first_named(tensors, requirement.name@, i)
    &&& tensors[i].dtype == requirement.dtype
    &&& tensors[i].shape@ == requirement.shape@
    &&& shape_bytes(
        requirement.bytes_per_value,
        requirement.shape@,
        requirement.shape@.len() as int,
    ) == Some(tensors[i].byte_length as usize)
}

/// The first reason why a tensor cannot be made resident.
pub open spec fn resident_refused(
    tensors: Seq<TensorInfo>,
    requirement: TensorRequirement,
    error: ResidentTensorError,
) -> bool {
    let expected = shape_bytes(
        requirement.bytes_per_value,
        requirement.shape@,
        requirement.shape@.len() as int,
    );
    match error {
        ResidentTensorError::Missing { name } => name@ == requirement.name@ && forall|j: int|
            0 <= j < tensors.len() ==> (#[trigger] tensors[j]).name@ != requirement.name@,
        ResidentTensorError::Layout { name, dtype, shape, found_dtype, found_shape } => name@
            == requirement.name@ && dtype == requirement.dtype && shape@ == requirement.shape@
            && exists|i: int|
            #[trigger] first_named(tensors, requirement.name@, i) && found_dtype
                == tensors[i].dtype && found_shape@ == tensors[i].shape@ && (found_dtype != dtype
                || found_shape@ != shape@),
        ResidentTensorError::Overflow => expected is None && exists|i: int|
            #[trigger] first_named(tensors, requirement.name@, i) && tensors[i].dtype
                == requirement.dtype && tensors[i].shape@ == requirement.shape@,
        ResidentTensorError::Changed { .. } => false,
        ResidentTensorError::Bytes { name, got, expected: bytes } => name@ == requirement.name@
            && expected == Some(bytes) && exists|i: int|
            #[trigger] first_named(tensors, requirement.name@, i) && tensors[i].dtype
                == requirement.dtype && tensors[i].shape@ == requirement.shape@ && got
                == tensors[i].byte_length && bytes != tensors[i].byte_length as usize,
    }
}

/// Checks that a tensor is there as it is required, and gives its place and
/// its bytes.
pub fn preload_ds4_sparse_block_tensor(
    catalog: &TensorCatalog,
    requirement: &TensorRequirement,
) -> (
result: Result<(usize, usize), ResidentTensorError>)
    ensures
        result is Ok <==> exists|i: int|
            #[trigger] resident_accepted(catalog.tensors@, *requirement, i),
        result matches Ok((place, bytes)) ==> resident_accepted(
            catalog.tensors@,
            *requirement,
            place as int,
        ) && bytes == catalog.tensors@[place as int].byte_length as usize,
        result matches Err(e) ==> resident_refused(catalog.tensors@, *requirement, e),
{
    let place: usize = match find_tensor(&catalog.tensors, requirement.name.as_str()) {
        Some(place) => place,
        None => return Err(ResidentTensorError::Missing { name: requirement.name.clone() }),
    };
    let info = &catalog.tensors[place];
    assert(first_named(catalog.tensors@, requirement.name@, place as int));
    if info.dtype != requirement.dtype || !same_shape(
        info.shape.as_slice(),
        requirement.shape.as_slice(),
    ) {
        return Err(
            ResidentTensorError::Layout {
                name: requirement.name.clone(),
                dtype: requirement.dtype,
                shape: requirement.shape.clone(),
                found_dtype: info.dtype,
                found_shape: info.shape.clone(),
            },
        );
    }
    let bytes: usize = match requirement_bytes(requirement) {
        Some(bytes) => bytes,
        None => return Err(ResidentTensorError::Overflow),
    };
    if info.byte_length as usize != bytes {
        return Err(
            ResidentTensorError::Bytes {
                name: requirement.name.clone(),
                got: info.byte_length,
                expected: bytes,
            },
        );
    }
    assert(resident_accepted(catalog.tensors@, *requirement, place as int));
    Ok((place, bytes))
}

/// Checks what was read back of a tensor while it was made resident: it must
/// still have the required element type and shape, and as many bytes as the
/// requirement takes.
pub fn check_resident_read(
    requirement: &TensorRequirement,
    bytes: usize,
    read_dtype: DType,
    read_shape: &[usize],
    bytes_read: u64,
) -> (result: Result<(), ResidentTensorError>)
    ensures
        result is Ok <==> read_dtype == requirement.dtype && read_shape@ == requirement.shape@
            && bytes_read as usize == bytes,
        result matches Err(e) ==> (e matches ResidentTensorError::Changed { name } && name@
            == requirement.name@),
{
    if read_dtype == requirement.dtype && same_shape(read_shape, requirement.shape.as_slice())
        && bytes_read as usize == bytes {
        Ok(())
    } else {
        Err(ResidentTensorError::Changed { name: requirement.name.clone() })
    }
}

/// The router kernel of a variant.
#[derive(Clone, Copy, Debug, PartialEq, Eq, Structural)]
pub enum RouterKernel {
    Flash,
    Pro,
}

/// Why a sparse block is not launched, or which of its two launches failed.
#[derive(Clone, Copy, Debug, PartialEq, Eq, Structural)]
pub enum PreDispatchError {
    NotFlash { variant: ModelVariant },
    CustomRouter,
    Router,
    SharedExpert,
}

impl PreDispatchError {
    pub open spec fn text(self) -> Seq<char> {
        match self {
            PreDispatchError::NotFlash { variant } => "Flash sparse pre-dispatch received "@
                + variant_label(variant) + " resident weights"@,
            PreDispatchError::CustomRouter => "custom DeepSeek V4 router is unsupported"@,
            PreDispatchError::Router =>
                "launching DeepSeek V4 global router from fixed dSpark input"@,
            PreDispatchError::SharedExpert =>
                "launching DeepSeek V4 shared expert from fixed dSpark input"@,
        }
    }

    pub fn message(&self) -> (out: String)
        ensures
            out@ == self.text(),
    {
        match *self {
            PreDispatchError::NotFlash { variant } => {
                let mut out: String = "Flash sparse pre-dispatch received ".to_owned();
                out.append(variant_name(variant));
                out.append(" resident weights");
                out
            },
            PreDispatchError::CustomRouter => {
                "custom DeepSeek V4 router is unsupported".to_owned()
            },
            PreDispatchError::Router => {
                "launching DeepSeek V4 global router from fixed dSpark input".to_owned()
            },
            PreDispatchError::SharedExpert => {
                "launching DeepSeek V4 shared expert from fixed dSpark input".to_owned()
            },
        }
    }
}

/// Where the router leaves the routes of its rows.
#[derive(Clone, Copy, Debug, PartialEq, Eq, Structural)]
pub struct RouterOutput {
    pub indices: Ds41rtDeviceBuffer,
    pub scores: Ds41rtDeviceBuffer,
    pub weights: Ds41rtDeviceBuffer,
}

/// Where the shared expert works and leaves its output.
#[derive(Clone, Copy, Debug, PartialEq, Eq, Structural)]
pub struct SharedExpertOutput {
    pub gate: Ds41rtDeviceBuffer,
    pub up: Ds41rtDeviceBuffer,
    pub activated: Ds41rtDeviceBuffer,
    pub output: Ds41rtDeviceBuffer,
}

/// The memory that a sparse block writes before its dispatch.
#[derive(Clone, Copy, Debug, PartialEq, Eq, Structural)]
pub struct Ds4FlashSparseBlockPreDispatchDeviceBuffers {
    pub router: RouterOutput,
    pub shared: SharedExpertOutput,
}

/// The launch of a router: its kernel, the names of its resident weights, the
/// normalized rows, their tokens where it routes by token, and where it writes.
#[derive(Clone, Copy, Debug)]
pub struct RouterLaunch<'a> {
    pub kernel: RouterKernel,
    pub weight: &'a String,
    pub aux: &'a String,
    pub hidden: Ds41rtDeviceBuffer,
    pub rows: usize,
    pub token_ids: Option<Ds41rtDeviceBuffer>,
    pub hash_routing: bool,
    pub output: RouterOutput,
    pub stream: usize,
}

/// The launch of a shared expert: the names of its resident weights and scales,
/// the normalized rows, its geometry, and where it writes.
#[derive(Clone, Copy, Debug)]
pub struct SharedExpertLaunch<'a> {
    pub w1_weight: &'a String,
    pub w1_scale: &'a String,
    pub w3_weight: &'a String,
    pub w3_scale: &'a String,
    pub w2_weight: &'a String,
    pub w2_scale: &'a String,
    pub hidden: Ds41rtDeviceBuffer,
    pub rows: usize,
    pub hidden_size: usize,
    pub intermediate: usize,
    pub output: SharedExpertOutput,
    pub stream: usize,
}

/// The two launches of a sparse block, in the order in which they enter their
/// one stream.
#[derive(Clone, Copy, Debug)]
pub struct SparsePreDispatchLaunch<'a> {
    pub router: RouterLaunch<'a>,
    pub shared: SharedExpertLaunch<'a>,
}

/// The router kernel of a variant, where it has one.
pub open spec fn router_kernel(variant: ModelVariant) -> Option<RouterKernel> {
    match variant {
        ModelVariant::Flash => Some(RouterKernel::Flash),
        ModelVariant::Pro => Some(RouterKernel::Pro),
        ModelVariant::Custom => None,
    }
}

/// The router launch of a layer's weights.
pub open spec fn router_launch_of<'a>(
    weights: &'a Ds4FlashSparseLayerResidentWeights,
    kernel: RouterKernel,
    hidden: Ds41rtDeviceBuffer,
    rows: usize,
    token_ids: Option<Ds41rtDeviceBuffer>,
    output: RouterOutput,
    stream: usize,
) -> RouterLaunch<'a> {
    RouterLaunch {
        kernel,
        weight: &weights.router_weight_name,
        aux: &weights.router_aux_name,
        hidden,
        rows,
        token_ids,
        hash_routing: weights.hash_routing,
        output,
        stream,
    }
}

/// The shared expert launch of a layer's weights.
pub open spec fn shared_launch_of<'a>(
    weights: &'a Ds4FlashSparseLayerResidentWeights,
    hidden: Ds41rtDeviceBuffer,
    rows: usize,
    output: SharedExpertOutput,
    stream: usize,
) -> SharedExpertLaunch<'a> {
    SharedExpertLaunch {
        w1_weight: &weights.shared_w1_weight_name,
        w1_scale: &weights.shared_w1_scale_name,
        w3_weight: &weights.shared_w3_weight_name,
        w3_scale: &weights.shared_w3_scale_name,
        w2_weight: &weights.shared_w2_weight_name,
        w2_scale: &weights.shared_w2_scale_name,
        hidden,
        rows,
        hidden_size: weights.hidden,
        intermediate: weights.shared_intermediate,
        output,
        stream,
    }
}

/// Both launches of a layer's weights, over the same rows on the same stream.
pub open spec fn launch_of<'a>(
    weights: &'a Ds4FlashSparseLayerResidentWeights,
    kernel: RouterKernel,
    hidden: Ds41rtDeviceBuffer,
    rows: usize,
    token_ids: Option<Ds41rtDeviceBuffer>,
    buffers: Ds4FlashSparseBlockPreDispatchDeviceBuffers,
    stream: usize,
) -> SparsePreDispatchLaunch<'a> {
    SparsePreDispatchLaunch {
        router: router_launch_of(weights, kernel, hidden, rows, token_ids, buffers.router, stream),
        shared: shared_launch_of(weights, hidden, rows, buffers.shared, stream),
    }
}

impl<'a> SparsePreDispatchLaunch<'a> {
    /// The shared expert is launched only once the router was.
    pub fn after_router(&self, router_launched: bool) -> (result: Result<
        SharedExpertLaunch<'a>,
        PreDispatchError,
    >)
        ensures
            result == (if router_launched {
                Ok::<SharedExpertLaunch<'a>, PreDispatchError>(self.shared)
            } else {
                Err::<SharedExpertLaunch<'a>, PreDispatchError>(PreDispatchError::Router)
            }),
    {
        if router_launched {
            Ok(self.shared)
        } else {
            Err(PreDispatchError::Router)
        }
    }

    /// The block is launched once its shared expert was, after its router.
    pub fn after_shared_expert(&self, shared_launched: bool) -> (result: Result<
        (),
        PreDispatchError,
    >)
        ensures
            result == (if shared_launched {
                Ok::<(), PreDispatchError>(())
            } else {
                Err::<(), PreDispatchError>(PreDispatchError::SharedExpert)
            }),
    {
        if shared_launched {
            Ok(())
        } else {
            Err(PreDispatchError::SharedExpert)
        }
    }
}

/// The launches of a sparse block from fixed input: the router of its variant,
/// and after it the shared expert. Without a router nothing is launched.
pub fn ds4_sparse_block_pre_dispatch_fixed_input_into<'a>(
    weights: &'a Ds4FlashSparseLayerResidentWeights,
    hidden: Ds41rtDeviceBuffer,
    rows: usize,
    token_ids: Option<Ds41rtDeviceBuffer>,
    buffers: Ds4FlashSparseBlockPreDispatchDeviceBuffers,
    stream: usize,
) -> (result: Result<SparsePreDispatchLaunch<'a>, PreDispatchError>)
    ensures
        match router_kernel(weights.variant) {
            Some(kernel) => result is Ok && result->Ok_0 == launch_of(
                weights,
                kernel,
                hidden,
                rows,
                token_ids,
                buffers,
                stream,
            ),
            None => result is Err && result->Err_0 == PreDispatchError::CustomRouter,
        },
{
    let kernel = match weights.variant {
        ModelVariant::Flash => RouterKernel::Flash,
        ModelVariant::Pro => RouterKernel::Pro,
        ModelVariant::Custom => return Err(PreDispatchError::CustomRouter),
    };
    let router = RouterLaunch {
        kernel,
        weight: &weights.router_weight_name,
        aux: &weights.router_aux_name,
        hidden,
        rows,
        token_ids,
        hash_routing: weights.hash_routing,
        output: buffers.router,
        stream,
    };
    let shared = SharedExpertLaunch {
        w1_weight: &weights.shared_w1_weight_name,
        w1_scale: &weights.shared_w1_scale_name,
        w3_weight: &weights.shared_w3_weight_name,
        w3_scale: &weights.shared_w3_scale_name,
        w2_weight: &weights.shared_w2_weight_name,
        w2_scale: &weights.shared_w2_scale_name,
        hidden,
        rows,
        hidden_size: weights.hidden,
        intermediate: weights.shared_intermediate,
        output: buffers.shared,
        stream,
    };
    Ok(SparsePreDispatchLaunch { router, shared })
}

/// As above, for Flash weights only.
pub fn ds4_flash_sparse_block_pre_dispatch_fixed_input_into<'a>(
    weights: &'a Ds4FlashSparseLayerResidentWeights,
    hidden: Ds41rtDeviceBuffer,
    rows: usize,
    token_ids: Option<Ds41rtDeviceBuffer>,
    buffers: Ds4FlashSparseBlockPreDispatchDeviceBuffers,
    stream: usize,
) -> (result: Result<SparsePreDispatchLaunch<'a>, PreDispatchError>)
    ensures
        if weights.variant == ModelVariant::Flash {
            result is Ok && result->Ok_0 == launch_of(
                weights,
                RouterKernel::Flash,
                hidden,
                rows,
                token_ids,
                buffers,
                stream,
            )
        } else {
            result is Err && result->Err_0 == (PreDispatchError::NotFlash {
                variant: weights.variant,
            })
        },
{
    if weights.variant != ModelVariant::Flash {
        return Err(PreDispatchError::NotFlash { variant: weights.variant });
    }
    ds4_sparse_block_pre_dispatch_fixed_input_into(
        weights,
        hidden,
        rows,
        token_ids,
        buffers,
        stream,
    )
}

} // verus!
