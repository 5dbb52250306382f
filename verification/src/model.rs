//! What the runtime reads of a model and of the tensors of a checkpoint.
use vstd::prelude::*;

use crate::text::same_text;

verus! {

/// The model variants that have a fixed geometry, and any other.
#[derive(Clone, Copy, Debug, PartialEq, Eq, Structural)]
pub enum ModelVariant {
    Flash,
    Pro,
    Custom,
}

/// The facts of a model configuration. Fractions are held as the bit patterns
/// of their 32-bit floating-point values.
#[derive(Clone, Debug)]
pub struct ModelFacts {
    pub model_type: String,
    pub variant: ModelVariant,
    pub hidden_size: usize,
    pub num_hidden_layers: usize,
    pub first_k_dense_replace: usize,
    pub num_hash_layers: usize,
    pub dspark_blocks: usize,
    pub routed_experts: usize,
    pub shared_experts: usize,
    pub top_k: usize,
    pub moe_intermediate_size: usize,
    pub vocab_size: usize,
    pub head_dim: usize,
    pub scoring_function: String,
    pub topk_method: String,
    pub routed_scaling_factor_bits: u32,
    pub rms_norm_eps_bits: u32,
    pub quantization_recipe: String,
}

impl ModelFacts {
    /// The target layers and the dSpark blocks together.
    pub open spec fn transformer_blocks(self) -> int {
        self.num_hidden_layers + self.dspark_blocks
    }

    /// The target layers and the dSpark blocks together.
    pub fn total_transformer_blocks(&self) -> (blocks: usize)
        requires
            self.transformer_blocks() <= usize::MAX,
        ensures
            blocks == self.transformer_blocks(),
    {
        self.num_hidden_layers + self.dspark_blocks
    }
}

/// The element types of checkpoint tensors that the runtime tells apart.
#[derive(Clone, Copy, Debug, PartialEq, Eq, Structural)]
pub enum DType {
    Bf16,
    F32,
    I64,
    F8E4M3,
    F8E8M0,
    Other,
}

/// The name of an element type; `other` names one that is not told apart.
pub open spec fn dtype_text(dtype: DType, other: Seq<char>) -> Seq<char> {
    match dtype {
        DType::Bf16 => "Bf16"@,
        DType::F32 => "F32"@,
        DType::I64 => "I64"@,
        DType::F8E4M3 => "F8E4M3"@,
        DType::F8E8M0 => "F8E8M0"@,
        DType::Other => other,
    }
}

/// The name of an element type.
pub fn dtype_label<'a>(dtype: DType, other: &'a str) -> (label: &'a str)
    ensures
        label@ == dtype_text(dtype, other@),
{
    match dtype {
        DType::Bf16 => "Bf16",
        DType::F32 => "F32",
        DType::I64 => "I64",
        DType::F8E4M3 => "F8E4M3",
        DType::F8E8M0 => "F8E8M0",
        DType::Other => other,
    }
}

/// What a checkpoint tensor is for.
#[derive(Clone, Copy, Debug, PartialEq, Eq, Structural)]
pub enum TensorRole {
    RoutedExpert,
    SharedExpert,
    Router,
    DenseMlp,
    Attention,
    Norm,
    Embedding,
    LmHead,
    Other,
}

/// The name of a role; `other` names one that is not told apart.
pub open spec fn role_text(role: TensorRole, other: Seq<char>) -> Seq<char> {
    match role {
        TensorRole::RoutedExpert => "RoutedExpert"@,
        TensorRole::SharedExpert => "SharedExpert"@,
        TensorRole::Router => "Router"@,
        TensorRole::DenseMlp => "DenseMlp"@,
        TensorRole::Attention => "Attention"@,
        TensorRole::Norm => "Norm"@,
        TensorRole::Embedding => "Embedding"@,
        TensorRole::LmHead => "LmHead"@,
        TensorRole::Other => other,
    }
}

/// The name of a role.
pub fn role_label<'a>(role: TensorRole, other: &'a str) -> (label: &'a str)
    ensures
        label@ == role_text(role, other@),
{
    match role {
        TensorRole::RoutedExpert => "RoutedExpert",
        TensorRole::SharedExpert => "SharedExpert",
        TensorRole::Router => "Router",
        TensorRole::DenseMlp => "DenseMlp",
        TensorRole::Attention => "Attention",
        TensorRole::Norm => "Norm",
        TensorRole::Embedding => "Embedding",
        TensorRole::LmHead => "LmHead",
        TensorRole::Other => other,
    }
}

/// One tensor of a checkpoint.
#[derive(Clone, Debug)]
pub struct TensorInfo {
    pub name: String,
    pub dtype: DType,
    pub shape: Vec<usize>,
    pub byte_length: u64,
    pub role: TensorRole,
    pub layer_id: Option<u32>,
    pub expert_id: Option<u32>,
    pub is_quantization_metadata: bool,
}

/// The facts and tensors of a checkpoint.
#[derive(Clone, Debug)]
pub struct TensorCatalog {
    pub facts: ModelFacts,
    pub tensors: Vec<TensorInfo>,
}

/// `i` is the place of the first tensor called `name`.
pub open spec fn first_named(tensors: Seq<TensorInfo>, name: Seq<char>, i: int) -> bool {
    &&& 0 <= i < tensors.len()
    &&& tensors[i].name@ == name
    &&& forall|j: int| 0 <= j < i ==> (#[trigger] tensors[j]).name@ != name
}

/// The place of the first tensor called `name`.
pub fn find_tensor(tensors: &Vec<TensorInfo>, name: &str) -> (place: Option<usize>)
    ensures
        match place {
            Some(i) => first_named(tensors@, name@, i as int),
            None => forall|j: int|
                0 <= j < tensors@.len() ==> (#[trigger] tensors@[j]).name@ != name@,
        },
{
    let mut i: usize = 0;
    while i < tensors.len()
        invariant
            i <= tensors@.len(),
            forall|j: int| 0 <= j < i ==> (#[trigger] tensors@[j]).name@ != name@,
        decreases tensors@.len() - i,
    {
        if same_text(tensors[i].name.as_str(), name) {
            return Some(i);
        }
        i = i + 1;
    }
    None
}

/// Whether two shapes have the same dimensions.
pub fn same_shape(a: &[usize], b: &[usize]) -> (same: bool)
    ensures
        same == (a@ == b@),
{
    if a.len() != b.len() {
        return false;
    }
    let mut i: usize = 0;
    while i < a.len()
        invariant
            i <= a@.len(),
            a@.len() == b@.len(),
            forall|j: int| 0 <= j < i ==> a@[j] == b@[j],
        decreases a@.len() - i,
    {
        if a[i] != b[i] {
            return false;
        }
        i = i + 1;
    }
    assert(a@ =~= b@);
    true
}

} // verus!
