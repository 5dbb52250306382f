//! Whether a checkpoint holds all tensor families that full execution needs.
use std::collections::BTreeMap;
use vstd::prelude::*;

use crate::model::{ModelFacts, ModelVariant, TensorCatalog, TensorInfo, TensorRole};
use crate::text::same_text;

verus! {

broadcast use {
    vstd::std_specs::btree::group_btree_axioms,
    vstd::laws_cmp::group_laws_cmp,
};

/// How many tensors of each family a checkpoint holds, and on how many layers.
#[derive(Clone, Copy, Debug, PartialEq, Eq, Structural)]
pub struct FullModelTensorCoverage {
    pub hidden_layers_with_any_tensor: usize,
    pub sparse_layers_with_routed_experts: usize,
    pub dense_layers_with_dense_mlp: usize,
    pub routed_expert_tensors: usize,
    pub routed_quant_metadata_tensors: usize,
    pub attention_tensors: usize,
    pub router_tensors: usize,
    pub shared_expert_tensors: usize,
    pub embedding_tensors: usize,
    pub lm_head_tensors: usize,
}

/// How many of the first `n` tensors have the key `k`.
pub open spec fn count_key(
    tensors: Seq<TensorInfo>,
    key_of: spec_fn(TensorInfo) -> Option<u64>,
    k: u64,
    n: int,
) -> int
    decreases n,
{
    if n <= 0 {
        0
    } else {
        count_key(tensors, key_of, k, n - 1) + (if key_of(tensors[n - 1]) == Some(k) {
            1int
        } else {
            0int
        })
    }
}

/// The keys that occur among the first `n` tensors.
pub open spec fn key_set(
    tensors: Seq<TensorInfo>,
    key_of: spec_fn(TensorInfo) -> Option<u64>,
    n: int,
) -> Set<u64>
    decreases n,
{
    if n <= 0 {
        Set::empty()
    } else {
        match key_of(tensors[n - 1]) {
            Some(k) => key_set(tensors, key_of, n - 1).insert(k),
            None => key_set(tensors, key_of, n - 1),
        }
    }
}

/// How many of the first `n` tensors have the property `p`.
pub open spec fn count_where(
    tensors: Seq<TensorInfo>,
    p: spec_fn(TensorInfo) -> bool,
    n: int,
) -> int
    decreases n,
{
    if n <= 0 {
        0
    } else {
        count_where(tensors, p, n - 1) + (if p(tensors[n - 1]) {
            1int
        } else {
            0int
        })
    }
}

/// The tally of a key, zero where it has none.
pub open spec fn lookup(m: Map<u64, usize>, k: u64) -> int {
    if m.contains_key(k) {
        m[k] as int
    } else {
        0
    }
}

/// The tallies are those of the first `n` tensors.
pub open spec fn tallied(
    m: Map<u64, usize>,
    tensors: Seq<TensorInfo>,
    key_of: spec_fn(TensorInfo) -> Option<u64>,
    n: int,
) -> bool {
    &&& forall|k: u64| #[trigger] lookup(m, k) == count_key(tensors, key_of, k, n)
    &&& m.dom() == key_set(tensors, key_of, n)
}

/// The key of a layer.
pub open spec fn layer_key(layer_id: Option<u32>) -> Option<u64> {
    match layer_id {
        Some(l) => Some(l as u64),
        None => None,
    }
}

/// The number of an expert of a layer among all experts.
pub open spec fn expert_number(layer: u32, expert: u32) -> u64 {
    (layer * 0x1_0000_0000 + expert) as u64
}

/// The name ends as that of a post-attention norm does.
pub open spec fn is_post_attention_norm_name(name: Seq<char>) -> bool {
    let suffix = ".post_attention_layernorm.weight"@;
    name.len() >= suffix.len() && name.subrange(name.len() - suffix.len(), name.len() as int)
        == suffix
}

/// The layer whose post-attention norm a tensor is.
pub open spec fn norm_key() -> spec_fn(TensorInfo) -> Option<u64> {
    |t: TensorInfo|
        if t.role == TensorRole::Norm && is_post_attention_norm_name(t.name@) {
            layer_key(t.layer_id)
        } else {
            None
        }
}

/// The layer of a tensor with the given role.
pub open spec fn role_key(role: TensorRole) -> spec_fn(TensorInfo) -> Option<u64> {
    |t: TensorInfo|
        if t.role == role {
            layer_key(t.layer_id)
        } else {
            None
        }
}

/// The expert of a routed expert tensor, weights and metadata apart.
pub open spec fn expert_key(metadata: bool) -> spec_fn(TensorInfo) -> Option<u64> {
    |t: TensorInfo|
        if t.role == TensorRole::RoutedExpert && t.is_quantization_metadata == metadata
            && t.layer_id is Some && t.expert_id is Some {
            Some(expert_number(t.layer_id->Some_0, t.expert_id->Some_0))
        } else {
            None
        }
}

/// The layer of a tensor, where it is one of the first `layers` layers.
pub open spec fn hidden_layer_key(layers: usize) -> spec_fn(TensorInfo) -> Option<u64> {
    |t: TensorInfo|
        if t.layer_id is Some && (t.layer_id->Some_0 as int) < layers {
            layer_key(t.layer_id)
        } else {
            None
        }
}

/// The layer of a tensor with the given role among the first `layers` layers.
pub open spec fn hidden_role_key(role: TensorRole, layers: usize) -> spec_fn(TensorInfo) -> Option<
    u64,
> {
    |t: TensorInfo|
        if t.role == role && t.layer_id is Some && (t.layer_id->Some_0 as int) < layers {
            layer_key(t.layer_id)
        } else {
            None
        }
}

/// The tensor has the given role.
pub open spec fn has_role(role: TensorRole) -> spec_fn(TensorInfo) -> bool {
    |t: TensorInfo| t.role == role
}

/// The tensor is quantization metadata of a routed expert.
pub open spec fn is_routed_metadata() -> spec_fn(TensorInfo) -> bool {
    |t: TensorInfo| t.role == TensorRole::RoutedExpert && t.is_quantization_metadata
}

proof fn lemma_count_key_bound(
    tensors: Seq<TensorInfo>,
    key_of: spec_fn(TensorInfo) -> Option<u64>,
    k: u64,
    n: int,
)
    requires
        n >= 0,
    ensures
        0 <= count_key(tensors, key_of, k, n) <= n,
    decreases n,
{
    if n > 0 {
        lemma_count_key_bound(tensors, key_of, k, n - 1);
    }
}

proof fn lemma_count_where_bound(tensors: Seq<TensorInfo>, p: spec_fn(TensorInfo) -> bool, n: int)
    requires
        n >= 0,
    ensures
        0 <= count_where(tensors, p, n) <= n,
    decreases n,
{
    if n > 0 {
        lemma_count_where_bound(tensors, p, n - 1);
    }
}

/// Counts one more tensor with the key `key`.
fn tally(m: &mut BTreeMap<u64, usize>, key: u64)
    requires
        lookup(old(m)@, key) < usize::MAX,
    ensures
        final(m)@ == old(m)@.insert(key, (lookup(old(m)@, key) + 1) as usize),
{
    let count: usize = match m.get(&key) {
        Some(count) => *count,
        None => 0,
    };
    m.insert(key, count + 1);
}

/// The tally of a key.
fn tally_of(m: &BTreeMap<u64, usize>, key: u64) -> (count: usize)
    ensures
        count == lookup(m@, key),
{
    match m.get(&key) {
        Some(count) => *count,
        None => 0,
    }
}

/// Counts the next tensor, whose key is `key`.
fn tally_next(
    m: &mut BTreeMap<u64, usize>,
    key: Option<u64>,
    Ghost(tensors): Ghost<Seq<TensorInfo>>,
    Ghost(key_of): Ghost<spec_fn(TensorInfo) -> Option<u64>>,
    Ghost(n): Ghost<int>,
)
    requires
        0 <= n < usize::MAX,
        key == key_of(tensors[n]),
        tallied(old(m)@, tensors, key_of, n),
    ensures
        tallied(final(m)@, tensors, key_of, n + 1),
{
    let ghost before = m@;
    match key {
        Some(k) => {
            proof {
                assert(lookup(before, k) == count_key(tensors, key_of, k, n));
                lemma_count_key_bound(tensors, key_of, k, n);
            }
            tally(m, k);
            proof {
                assert forall|x: u64| #[trigger] lookup(m@, x) == count_key(
                    tensors,
                    key_of,
                    x,
                    n + 1,
                ) by {
                    assert(lookup(before, x) == count_key(tensors, key_of, x, n));
                }
                assert(m@.dom() =~= before.dom().insert(k));
            }
        },
        None => {
            proof {
                assert forall|x: u64| #[trigger] lookup(m@, x) == count_key(
                    tensors,
                    key_of,
                    x,
                    n + 1,
                ) by {
                    assert(lookup(before, x) == count_key(tensors, key_of, x, n));
                }
            }
        },
    }
}

fn key_of_layer(layer_id: Option<u32>) -> (key: Option<u64>)
    ensures
        key == layer_key(layer_id),
{
    match layer_id {
        Some(l) => Some(l as u64),
        None => None,
    }
}

fn number_of_expert(layer: u32, expert: u32) -> (number: u64)
    ensures
        number == expert_number(layer, expert),
{
    (layer as u64) * 0x1_0000_0000u64 + (expert as u64)
}

fn has_post_attention_norm_name(name: &str) -> (r: bool)
    ensures
        r == is_post_attention_norm_name(name@),
{
    let suffix: &str = ".post_attention_layernorm.weight";
    let length: usize = name.unicode_len();
    let suffix_length: usize = suffix.unicode_len();
    if length < suffix_length {
        return false;
    }
    same_text(name.substring_char(length - suffix_length, length), suffix)
}

/// Tallies of the dense prefix of a checkpoint.
pub struct DensePrefixCatalogCoverage {
    pub first_sparse_layer: usize,
    pub post_attention_norm_by_layer: BTreeMap<u64, usize>,
    pub dense_mlp_by_layer: BTreeMap<u64, usize>,
}

/// Every dense layer has a post-attention norm and three MLP tensors.
pub open spec fn dense_prefix_supported(facts: ModelFacts, tensors: Seq<TensorInfo>) -> bool {
    let n = tensors.len() as int;
    forall|l: u32|
        #![trigger dense_layer_supported(tensors, l, n)]
        l < facts.first_k_dense_replace as u32 ==> dense_layer_supported(tensors, l, n)
}

/// A dense layer has a post-attention norm and three MLP tensors.
pub open spec fn dense_layer_supported(tensors: Seq<TensorInfo>, l: u32, n: int) -> bool {
    count_key(tensors, norm_key(), l as u64, n) >= 1 && count_key(
        tensors,
        role_key(TensorRole::DenseMlp),
        l as u64,
        n,
    ) >= 3
}

impl DensePrefixCatalogCoverage {
    /// The tallies are those of the checkpoint.
    pub open spec fn matches(&self, facts: ModelFacts, tensors: Seq<TensorInfo>) -> bool {
        let n = tensors.len() as int;
        &&& self.first_sparse_layer == facts.first_k_dense_replace
        &&& tallied(self.post_attention_norm_by_layer@, tensors, norm_key(), n)
        &&& tallied(self.dense_mlp_by_layer@, tensors, role_key(TensorRole::DenseMlp), n)
    }

    pub fn from_catalog(catalog: &TensorCatalog) -> (coverage: Self)
        ensures
            coverage.matches(catalog.facts, catalog.tensors@),
    {
        let mut norms: BTreeMap<u64, usize> = BTreeMap::new();
        let mut dense: BTreeMap<u64, usize> = BTreeMap::new();
        let ghost tensors = catalog.tensors@;
        assert(norms@.dom() =~= Set::empty());
        assert(dense@.dom() =~= Set::empty());
        let mut i: usize = 0;
        while i < catalog.tensors.len()
            invariant
                i <= tensors.len(),
                tensors == catalog.tensors@,
                tallied(norms@, tensors, norm_key(), i as int),
                tallied(dense@, tensors, role_key(TensorRole::DenseMlp), i as int),
            decreases tensors.len() - i,
        {
            let tensor: &TensorInfo = &catalog.tensors[i];
            let is_norm: bool = tensor.role == TensorRole::Norm && has_post_attention_norm_name(
                tensor.name.as_str(),
            );
            let norm: Option<u64> = if is_norm {
                key_of_layer(tensor.layer_id)
            } else {
                None
            };
            tally_next(&mut norms, norm, Ghost(tensors), Ghost(norm_key()), Ghost(i as int));
            let mlp: Option<u64> = if tensor.role == TensorRole::DenseMlp {
                key_of_layer(tensor.layer_id)
            } else {
                None
            };
            tally_next(
                &mut dense,
                mlp,
                Ghost(tensors),
                Ghost(role_key(TensorRole::DenseMlp)),
                Ghost(i as int),
            );
            i = i + 1;
        }
        DensePrefixCatalogCoverage {
            first_sparse_layer: catalog.facts.first_k_dense_replace,
            post_attention_norm_by_layer: norms,
            dense_mlp_by_layer: dense,
        }
    }

    /// A dense layer has a post-attention norm and three MLP tensors.
    pub open spec fn layer_supported(&self, l: u32) -> bool {
        lookup(self.post_attention_norm_by_layer@, l as u64) >= 1 && lookup(
            self.dense_mlp_by_layer@,
            l as u64,
        ) >= 3
    }

    pub fn supports_dense_prefix(&self) -> (supported: bool)
        ensures
            supported == (forall|l: u32|
                l < self.first_sparse_layer as u32 ==> #[trigger] self.layer_supported(l)),
    {
        let limit: u32 = self.first_sparse_layer as u32;
        let mut l: u32 = 0;
        while l < limit
            invariant
                l <= limit,
                limit == self.first_sparse_layer as u32,
                forall|x: u32| x < l ==> #[trigger] self.layer_supported(x),
            decreases limit - l,
        {
            let norms: usize = tally_of(&self.post_attention_norm_by_layer, l as u64);
            let dense: usize = tally_of(&self.dense_mlp_by_layer, l as u64);
            if norms < 1 || dense < 3 {
                assert(!self.layer_supported(l));
                return false;
            }
            l = l + 1;
        }
        true
    }
}

/// Tallies of the sparse layers of a checkpoint.
pub struct SparseExpertCatalogCoverage {
    pub first_sparse_layer: usize,
    pub num_hidden_layers: usize,
    pub routed_experts: usize,
    pub routed_quant_metadata_per_expert: usize,
    pub shared_by_layer: BTreeMap<u64, usize>,
    pub router_by_layer: BTreeMap<u64, usize>,
    pub routed_weight_by_expert: BTreeMap<u64, usize>,
    pub routed_quant_metadata_by_expert: BTreeMap<u64, usize>,
}

/// How many metadata tensors one routed expert needs.
pub open spec fn metadata_per_expert(facts: ModelFacts) -> int {
    if facts.variant == ModelVariant::Flash && facts.quantization_recipe@
        == "deepseek_v4_native_fp4_fp8_mixed_v1"@ {
        3
    } else {
        9
    }
}

/// A layer is one of the sparse layers.
pub open spec fn is_sparse_layer(facts: ModelFacts, l: u32) -> bool {
    facts.first_k_dense_replace as u32 <= l < facts.num_hidden_layers as u32
}

/// An expert of a layer has three weights and its metadata.
pub open spec fn expert_supported(
    facts: ModelFacts,
    tensors: Seq<TensorInfo>,
    l: u32,
    x: u32,
) -> bool {
    let n = tensors.len() as int;
    count_key(tensors, expert_key(false), expert_number(l, x), n) >= 3 && count_key(
        tensors,
        expert_key(true),
        expert_number(l, x),
        n,
    ) >= metadata_per_expert(facts)
}

/// Every sparse layer has two router tensors, and every routed expert three
/// weights and its metadata.
pub open spec fn sparse_router_supported(facts: ModelFacts, tensors: Seq<TensorInfo>) -> bool {
    let n = tensors.len() as int;
    &&& forall|l: u32|
        #![trigger role_count(tensors, TensorRole::Router, l)]
        is_sparse_layer(facts, l) ==> role_count(tensors, TensorRole::Router, l) >= 2
    &&& forall|l: u32, x: u32|
        is_sparse_layer(facts, l) && x < facts.routed_experts as u32
            ==> #[trigger] expert_supported(facts, tensors, l, x)
}

/// How many tensors of a role a layer has.
pub open spec fn role_count(tensors: Seq<TensorInfo>, role: TensorRole, l: u32) -> int {
    count_key(tensors, role_key(role), l as u64, tensors.len() as int)
}

/// Every sparse layer has three shared expert tensors.
pub open spec fn sparse_shared_supported(facts: ModelFacts, tensors: Seq<TensorInfo>) -> bool {
    forall|l: u32|
        #![trigger role_count(tensors, TensorRole::SharedExpert, l)]
        is_sparse_layer(facts, l) ==> role_count(tensors, TensorRole::SharedExpert, l) >= 3
}

/// The checkpoint has an output head, a complete dense prefix and complete
/// sparse layers.
pub open spec fn full_execution_supported(facts: ModelFacts, tensors: Seq<TensorInfo>) -> bool {
    &&& exists|i: int|
        0 <= i < tensors.len() && (#[trigger] tensors[i]).role == TensorRole::LmHead
    &&& dense_prefix_supported(facts, tensors)
    &&& sparse_router_supported(facts, tensors)
    &&& sparse_shared_supported(facts, tensors)
}

impl SparseExpertCatalogCoverage {
    /// The tallies are those of the checkpoint.
    pub open spec fn matches(&self, facts: ModelFacts, tensors: Seq<TensorInfo>) -> bool {
        let n = tensors.len() as int;
        &&& self.first_sparse_layer == facts.first_k_dense_replace
        &&& self.num_hidden_layers == facts.num_hidden_layers
        &&& self.routed_experts == facts.routed_experts
        &&& self.routed_quant_metadata_per_expert == metadata_per_expert(facts)
        &&& tallied(self.shared_by_layer@, tensors, role_key(TensorRole::SharedExpert), n)
        &&& tallied(self.router_by_layer@, tensors, role_key(TensorRole::Router), n)
        &&& tallied(self.routed_weight_by_expert@, tensors, expert_key(false), n)
        &&& tallied(self.routed_quant_metadata_by_expert@, tensors, expert_key(true), n)
    }

    pub fn from_catalog(catalog: &TensorCatalog) -> (coverage: Self)
        ensures
            coverage.matches(catalog.facts, catalog.tensors@),
    {
        let native: bool = catalog.facts.variant == ModelVariant::Flash && same_text(
            catalog.facts.quantization_recipe.as_str(),
            "deepseek_v4_native_fp4_fp8_mixed_v1",
        );
        let per_expert: usize = if native {
            3
        } else {
            9
        };
        let mut shared: BTreeMap<u64, usize> = BTreeMap::new();
        let mut router: BTreeMap<u64, usize> = BTreeMap::new();
        let mut weights: BTreeMap<u64, usize> = BTreeMap::new();
        let mut metadata: BTreeMap<u64, usize> = BTreeMap::new();
        let ghost tensors = catalog.tensors@;
        assert(shared@.dom() =~= Set::empty());
        assert(router@.dom() =~= Set::empty());
        assert(weights@.dom() =~= Set::empty());
        assert(metadata@.dom() =~= Set::empty());
        let mut i: usize = 0;
        while i < catalog.tensors.len()
            invariant
                i <= tensors.len(),
                tensors == catalog.tensors@,
                tallied(shared@, tensors, role_key(TensorRole::SharedExpert), i as int),
                tallied(router@, tensors, role_key(TensorRole::Router), i as int),
                tallied(weights@, tensors, expert_key(false), i as int),
                tallied(metadata@, tensors, expert_key(true), i as int),
            decreases tensors.len() - i,
        {
            let tensor: &TensorInfo = &catalog.tensors[i];
            let shared_layer: Option<u64> = if tensor.role == TensorRole::SharedExpert {
                key_of_layer(tensor.layer_id)
            } else {
                None
            };
            tally_next(
                &mut shared,
                shared_layer,
                Ghost(tensors),
                Ghost(role_key(TensorRole::SharedExpert)),
                Ghost(i as int),
            );
            let router_layer: Option<u64> = if tensor.role == TensorRole::Router {
                key_of_layer(tensor.layer_id)
            } else {
                None
            };
            tally_next(
                &mut router,
                router_layer,
                Ghost(tensors),
                Ghost(role_key(TensorRole::Router)),
                Ghost(i as int),
            );
            let expert: Option<u64> = if tensor.role == TensorRole::RoutedExpert {
                match (tensor.layer_id, tensor.expert_id) {
                    (Some(l), Some(x)) => Some(number_of_expert(l, x)),
                    _ => None,
                }
            } else {
                None
            };
            let weight_expert: Option<u64> = if tensor.is_quantization_metadata {
                None
            } else {
                expert
            };
            tally_next(
                &mut weights,
                weight_expert,
                Ghost(tensors),
                Ghost(expert_key(false)),
                Ghost(i as int),
            );
            let metadata_expert: Option<u64> = if tensor.is_quantization_metadata {
                expert
            } else {
                None
            };
            tally_next(
                &mut metadata,
                metadata_expert,
                Ghost(tensors),
                Ghost(expert_key(true)),
                Ghost(i as int),
            );
            i = i + 1;
        }
        SparseExpertCatalogCoverage {
            first_sparse_layer: catalog.facts.first_k_dense_replace,
            num_hidden_layers: catalog.facts.num_hidden_layers,
            routed_experts: catalog.facts.routed_experts,
            routed_quant_metadata_per_expert: per_expert,
            shared_by_layer: shared,
            router_by_layer: router,
            routed_weight_by_expert: weights,
            routed_quant_metadata_by_expert: metadata,
        }
    }

    /// A layer is one of the sparse layers.
    pub open spec fn is_sparse(&self, l: u32) -> bool {
        self.first_sparse_layer as u32 <= l < self.num_hidden_layers as u32
    }

    /// An expert of a layer has three weights and its metadata.
    pub open spec fn has_expert(&self, l: u32, x: u32) -> bool {
        lookup(self.routed_weight_by_expert@, expert_number(l, x)) >= 3 && lookup(
            self.routed_quant_metadata_by_expert@,
            expert_number(l, x),
        ) >= self.routed_quant_metadata_per_expert
    }

    /// A layer has two router tensors and all its experts.
    pub open spec fn has_routing(&self, l: u32) -> bool {
        lookup(self.router_by_layer@, l as u64) >= 2 && forall|x: u32|
            x < self.routed_experts as u32 ==> #[trigger] self.has_expert(l, x)
    }

    pub fn supports_sparse_router_routed_nvfp4(&self) -> (supported: bool)
        ensures
            supported == (forall|l: u32| self.is_sparse(l) ==> #[trigger] self.has_routing(l)),
    {
        let limit: u32 = self.num_hidden_layers as u32;
        let experts: u32 = self.routed_experts as u32;
        let first: u32 = self.first_sparse_layer as u32;
        let mut l: u32 = first;
        while l < limit
            invariant
                first <= l,
                first == self.first_sparse_layer as u32,
                limit == self.num_hidden_layers as u32,
                experts == self.routed_experts as u32,
                forall|k: u32| first <= k < l ==> #[trigger] self.has_routing(k),
            decreases limit - l,
        {
            if tally_of(&self.router_by_layer, l as u64) < 2 {
                assert(!self.has_routing(l));
                return false;
            }
            let mut x: u32 = 0;
            while x < experts
                invariant
                    x <= experts,
                    l < limit,
                    first <= l,
                    first == self.first_sparse_layer as u32,
                    limit == self.num_hidden_layers as u32,
                    experts == self.routed_experts as u32,
                    forall|y: u32| y < x ==> #[trigger] self.has_expert(l, y),
                decreases experts - x,
            {
                let number: u64 = number_of_expert(l, x);
                if tally_of(&self.routed_weight_by_expert, number) < 3 {
                    assert(!self.has_expert(l, x));
                    assert(!self.has_routing(l));
                    return false;
                }
                if tally_of(&self.routed_quant_metadata_by_expert, number)
                    < self.routed_quant_metadata_per_expert {
                    assert(!self.has_expert(l, x));
                    assert(!self.has_routing(l));
                    return false;
                }
                x = x + 1;
            }
            assert(self.has_routing(l));
            l = l + 1;
        }
        true
    }

    pub fn supports_sparse_shared_experts(&self) -> (supported: bool)
        ensures
            supported == (forall|l: u32|
                self.is_sparse(l) ==> #[trigger] lookup(self.shared_by_layer@, l as u64) >= 3),
    {
        let limit: u32 = self.num_hidden_layers as u32;
        let first: u32 = self.first_sparse_layer as u32;
        let mut l: u32 = first;
        while l < limit
            invariant
                first <= l,
                first == self.first_sparse_layer as u32,
                limit == self.num_hidden_layers as u32,
                forall|k: u32|
                    first <= k < l ==> #[trigger] lookup(self.shared_by_layer@, k as u64) >= 3,
            decreases limit - l,
        {
            if tally_of(&self.shared_by_layer, l as u64) < 3 {
                assert(self.is_sparse(l));
                return false;
            }
            l = l + 1;
        }
        true
    }
}

proof fn lemma_routing_matches(
    coverage: SparseExpertCatalogCoverage,
    facts: ModelFacts,
    tensors: Seq<TensorInfo>,
)
    requires
        coverage.matches(facts, tensors),
    ensures
        (forall|l: u32| coverage.is_sparse(l) ==> #[trigger] coverage.has_routing(l))
            <==> sparse_router_supported(facts, tensors),
        (forall|l: u32|
            coverage.is_sparse(l) ==> #[trigger] lookup(coverage.shared_by_layer@, l as u64) >= 3)
            <==> sparse_shared_supported(facts, tensors),
{
    let n = tensors.len() as int;
    assert forall|l: u32| #[trigger] coverage.is_sparse(l) == is_sparse_layer(facts, l) by {}
    assert forall|l: u32, x: u32| #[trigger] coverage.has_expert(l, x) == expert_supported(
        facts,
        tensors,
        l,
        x,
    ) by {
        assert(lookup(coverage.routed_weight_by_expert@, expert_number(l, x)) == count_key(
            tensors,
            expert_key(false),
            expert_number(l, x),
            n,
        ));
        assert(lookup(coverage.routed_quant_metadata_by_expert@, expert_number(l, x)) == count_key(
            tensors,
            expert_key(true),
            expert_number(l, x),
            n,
        ));
    }
    assert forall|l: u32| #[trigger]
        lookup(coverage.router_by_layer@, l as u64) == role_count(tensors, TensorRole::Router, l) by {
        assert(lookup(coverage.router_by_layer@, l as u64) == count_key(
            tensors,
            role_key(TensorRole::Router),
            l as u64,
            n,
        ));
    }
    assert forall|l: u32| #[trigger]
        lookup(coverage.shared_by_layer@, l as u64) == role_count(
            tensors,
            TensorRole::SharedExpert,
            l,
        ) by {
        assert(lookup(coverage.shared_by_layer@, l as u64) == count_key(
            tensors,
            role_key(TensorRole::SharedExpert),
            l as u64,
            n,
        ));
    }
    if forall|l: u32| coverage.is_sparse(l) ==> #[trigger] coverage.has_routing(l) {
        assert forall|l: u32| is_sparse_layer(facts, l) implies #[trigger] role_count(
            tensors,
            TensorRole::Router,
            l,
        ) >= 2 by {
            assert(coverage.is_sparse(l));
            assert(coverage.has_routing(l));
            assert(lookup(coverage.router_by_layer@, l as u64) >= 2);
        }
        assert forall|l: u32, x: u32|
            is_sparse_layer(facts, l) && x < facts.routed_experts as u32 implies #[trigger]
        expert_supported(facts, tensors, l, x) by {
            assert(coverage.is_sparse(l));
            assert(coverage.has_routing(l));
            assert(coverage.has_expert(l, x));
        }
    }
    if sparse_router_supported(facts, tensors) {
        assert forall|l: u32| coverage.is_sparse(l) implies #[trigger] coverage.has_routing(l) by {
            assert(is_sparse_layer(facts, l));
            assert(lookup(coverage.router_by_layer@, l as u64) == role_count(
                tensors,
                TensorRole::Router,
                l,
            ));
            assert forall|x: u32| x < coverage.routed_experts as u32 implies #[trigger]
            coverage.has_expert(l, x) by {
                assert(expert_supported(facts, tensors, l, x));
            }
        }
    }
    if forall|l: u32|
        coverage.is_sparse(l) ==> #[trigger] lookup(coverage.shared_by_layer@, l as u64) >= 3 {
        assert forall|l: u32| is_sparse_layer(facts, l) implies #[trigger] role_count(
            tensors,
            TensorRole::SharedExpert,
            l,
        ) >= 3 by {
            assert(coverage.is_sparse(l));
            assert(lookup(coverage.shared_by_layer@, l as u64) >= 3);
        }
    }
    if sparse_shared_supported(facts, tensors) {
        assert forall|l: u32| coverage.is_sparse(l) implies #[trigger] lookup(
            coverage.shared_by_layer@,
            l as u64,
        ) >= 3 by {
            assert(is_sparse_layer(facts, l));
            assert(role_count(tensors, TensorRole::SharedExpert, l) >= 3);
        }
    }
}

/// Whether the sparse layers have their routers and routed experts.
pub fn catalog_supports_default_sparse_router_routed_nvfp4(catalog: &TensorCatalog) -> (supported:
    bool)
    ensures
        supported == sparse_router_supported(catalog.facts, catalog.tensors@),
{
    let coverage = SparseExpertCatalogCoverage::from_catalog(catalog);
    proof {
        lemma_routing_matches(coverage, catalog.facts, catalog.tensors@);
    }
    coverage.supports_sparse_router_routed_nvfp4()
}

/// Whether the sparse layers have their routers, routed and shared experts.
pub fn catalog_supports_sparse_routed_and_shared_experts(catalog: &TensorCatalog) -> (supported:
    bool)
    ensures
        supported == (sparse_router_supported(catalog.facts, catalog.tensors@)
            && sparse_shared_supported(catalog.facts, catalog.tensors@)),
{
    let coverage = SparseExpertCatalogCoverage::from_catalog(catalog);
    proof {
        lemma_routing_matches(coverage, catalog.facts, catalog.tensors@);
    }
    coverage.supports_sparse_router_routed_nvfp4() && coverage.supports_sparse_shared_experts()
}

fn has_lm_head(tensors: &Vec<TensorInfo>) -> (r: bool)
    ensures
        r == (exists|i: int|
            0 <= i < tensors@.len() && (#[trigger] tensors@[i]).role == TensorRole::LmHead),
{
    let mut i: usize = 0;
    while i < tensors.len()
        invariant
            i <= tensors@.len(),
            forall|j: int| 0 <= j < i ==> (#[trigger] tensors@[j]).role != TensorRole::LmHead,
        decreases tensors@.len() - i,
    {
        if tensors[i].role == TensorRole::LmHead {
            assert(tensors@[i as int].role == TensorRole::LmHead);
            return true;
        }
        i = i + 1;
    }
    false
}

/// Whether the checkpoint holds all that full execution needs.
pub fn catalog_supports_full_model_execution_tensors(catalog: &TensorCatalog) -> (supported: bool)
    ensures
        supported == full_execution_supported(catalog.facts, catalog.tensors@),
{
    if !has_lm_head(&catalog.tensors) {
        return false;
    }
    let coverage = DensePrefixCatalogCoverage::from_catalog(catalog);
    let ghost n = catalog.tensors@.len() as int;
    proof {
        assert forall|l: u32| #[trigger] coverage.layer_supported(l) == dense_layer_supported(
            catalog.tensors@,
            l,
            n,
        ) by {
            assert(lookup(coverage.post_attention_norm_by_layer@, l as u64) == count_key(
                catalog.tensors@,
                norm_key(),
                l as u64,
                n,
            ));
            assert(lookup(coverage.dense_mlp_by_layer@, l as u64) == count_key(
                catalog.tensors@,
                role_key(TensorRole::DenseMlp),
                l as u64,
                n,
            ));
        }
    }
    let dense: bool = coverage.supports_dense_prefix();
    proof {
        if dense {
            assert forall|l: u32| l < catalog.facts.first_k_dense_replace as u32 implies #[trigger]
            dense_layer_supported(catalog.tensors@, l, n) by {
                assert(coverage.layer_supported(l));
            }
        } else {
            let l = choose|l: u32|
                l < coverage.first_sparse_layer as u32 && !#[trigger] coverage.layer_supported(l);
            assert(!dense_layer_supported(catalog.tensors@, l, n));
        }
    }
    dense && catalog_supports_sparse_routed_and_shared_experts(catalog)
}

/// The coverage counts of a checkpoint.
pub open spec fn coverage_counts(
    c: FullModelTensorCoverage,
    facts: ModelFacts,
    tensors: Seq<TensorInfo>,
) -> bool {
    let n = tensors.len() as int;
    let layers = facts.num_hidden_layers;
    &&& c.hidden_layers_with_any_tensor == key_set(tensors, hidden_layer_key(layers), n).len()
    &&& c.sparse_layers_with_routed_experts == key_set(
        tensors,
        hidden_role_key(TensorRole::RoutedExpert, layers),
        n,
    ).len()
    &&& c.dense_layers_with_dense_mlp == key_set(
        tensors,
        hidden_role_key(TensorRole::DenseMlp, layers),
        n,
    ).len()
    &&& c.routed_expert_tensors == count_where(tensors, has_role(TensorRole::RoutedExpert), n)
    &&& c.routed_quant_metadata_tensors == count_where(tensors, is_routed_metadata(), n)
    &&& c.attention_tensors == count_where(tensors, has_role(TensorRole::Attention), n)
    &&& c.router_tensors == count_where(tensors, has_role(TensorRole::Router), n)
    &&& c.shared_expert_tensors == count_where(tensors, has_role(TensorRole::SharedExpert), n)
    &&& c.embedding_tensors == count_where(tensors, has_role(TensorRole::Embedding), n)
    &&& c.lm_head_tensors == count_where(tensors, has_role(TensorRole::LmHead), n)
}

/// How many tensors have a role.
fn count_role(tensors: &Vec<TensorInfo>, role: TensorRole) -> (count: usize)
    ensures
        count == count_where(tensors@, has_role(role), tensors@.len() as int),
{
    let mut count: usize = 0;
    let mut i: usize = 0;
    while i < tensors.len()
        invariant
            i <= tensors@.len(),
            count == count_where(tensors@, has_role(role), i as int),
            count <= i,
        decreases tensors@.len() - i,
    {
        if tensors[i].role == role {
            count = count + 1;
        }
        i = i + 1;
    }
    count
}

fn count_routed_metadata(tensors: &Vec<TensorInfo>) -> (count: usize)
    ensures
        count == count_where(tensors@, is_routed_metadata(), tensors@.len() as int),
{
    let mut count: usize = 0;
    let mut i: usize = 0;
    while i < tensors.len()
        invariant
            i <= tensors@.len(),
            count == count_where(tensors@, is_routed_metadata(), i as int),
            count <= i,
        decreases tensors@.len() - i,
    {
        if tensors[i].role == TensorRole::RoutedExpert && tensors[i].is_quantization_metadata {
            count = count + 1;
        }
        i = i + 1;
    }
    count
}

/// Counts the tensors of each family and the layers that have them.
pub fn tensor_coverage(catalog: &TensorCatalog) -> (coverage: FullModelTensorCoverage)
    ensures
        coverage_counts(coverage, catalog.facts, catalog.tensors@),
{
    let ghost tensors = catalog.tensors@;
    let layers: usize = catalog.facts.num_hidden_layers;
    let mut any: BTreeMap<u64, usize> = BTreeMap::new();
    let mut sparse: BTreeMap<u64, usize> = BTreeMap::new();
    let mut dense: BTreeMap<u64, usize> = BTreeMap::new();
    assert(any@.dom() =~= Set::empty());
    assert(sparse@.dom() =~= Set::empty());
    assert(dense@.dom() =~= Set::empty());
    let mut i: usize = 0;
    while i < catalog.tensors.len()
        invariant
            i <= tensors.len(),
            tensors == catalog.tensors@,
            layers == catalog.facts.num_hidden_layers,
            tallied(any@, tensors, hidden_layer_key(layers), i as int),
            tallied(
                sparse@,
                tensors,
                hidden_role_key(TensorRole::RoutedExpert, layers),
                i as int,
            ),
            tallied(dense@, tensors, hidden_role_key(TensorRole::DenseMlp, layers), i as int),
        decreases tensors.len() - i,
    {
        let tensor: &TensorInfo = &catalog.tensors[i];
        let hidden: Option<u64> = match tensor.layer_id {
            Some(l) => if (l as u64) < (layers as u64) {
                Some(l as u64)
            } else {
                None
            },
            None => None,
        };
        tally_next(
            &mut any,
            hidden,
            Ghost(tensors),
            Ghost(hidden_layer_key(layers)),
            Ghost(i as int),
        );
        let routed: Option<u64> = if tensor.role == TensorRole::RoutedExpert {
            hidden
        } else {
            None
        };
        tally_next(
            &mut sparse,
            routed,
            Ghost(tensors),
            Ghost(hidden_role_key(TensorRole::RoutedExpert, layers)),
            Ghost(i as int),
        );
        let mlp: Option<u64> = if tensor.role == TensorRole::DenseMlp {
            hidden
        } else {
            None
        };
        tally_next(
            &mut dense,
            mlp,
            Ghost(tensors),
            Ghost(hidden_role_key(TensorRole::DenseMlp, layers)),
            Ghost(i as int),
        );
        i = i + 1;
    }
    FullModelTensorCoverage {
        hidden_layers_with_any_tensor: any.len(),
        sparse_layers_with_routed_experts: sparse.len(),
        dense_layers_with_dense_mlp: dense.len(),
        routed_expert_tensors: count_role(&catalog.tensors, TensorRole::RoutedExpert),
        routed_quant_metadata_tensors: count_routed_metadata(&catalog.tensors),
        attention_tensors: count_role(&catalog.tensors, TensorRole::Attention),
        router_tensors: count_role(&catalog.tensors, TensorRole::Router),
        shared_expert_tensors: count_role(&catalog.tensors, TensorRole::SharedExpert),
        embedding_tensors: count_role(&catalog.tensors, TensorRole::Embedding),
        lm_head_tensors: count_role(&catalog.tensors, TensorRole::LmHead),
    }
}

proof fn lemma_count_key_prefix(
    tensors: Seq<TensorInfo>,
    extra: TensorInfo,
    key_of: spec_fn(TensorInfo) -> Option<u64>,
    k: u64,
    n: int,
)
    requires
        0 <= n <= tensors.len(),
    ensures
        count_key(tensors.push(extra), key_of, k, n) == count_key(tensors, key_of, k, n),
    decreases n,
{
    if n > 0 {
        lemma_count_key_prefix(tensors, extra, key_of, k, n - 1);
    }
}

proof fn lemma_count_key_grows(
    tensors: Seq<TensorInfo>,
    extra: TensorInfo,
    key_of: spec_fn(TensorInfo) -> Option<u64>,
    k: u64,
)
    ensures
        count_key(tensors.push(extra), key_of, k, (tensors.len() + 1) as int) >= count_key(
            tensors,
            key_of,
            k,
            tensors.len() as int,
        ),
{
    lemma_count_key_prefix(tensors, extra, key_of, k, tensors.len() as int);
}

/// A checkpoint that supports full execution still does with one tensor more.
pub proof fn law_more_tensors_keep_support(
    facts: ModelFacts,
    tensors: Seq<TensorInfo>,
    extra: TensorInfo,
)
    requires
        full_execution_supported(facts, tensors),
    ensures
        full_execution_supported(facts, tensors.push(extra)),
{
    let more = tensors.push(extra);
    let n = tensors.len() as int;
    let head = choose|i: int|
        0 <= i < tensors.len() && (#[trigger] tensors[i]).role == TensorRole::LmHead;
    assert(more[head].role == TensorRole::LmHead);
    assert forall|l: u32| l < facts.first_k_dense_replace as u32 implies #[trigger]
    dense_layer_supported(more, l, n + 1) by {
        assert(dense_layer_supported(tensors, l, n));
        lemma_count_key_grows(tensors, extra, norm_key(), l as u64);
        lemma_count_key_grows(tensors, extra, role_key(TensorRole::DenseMlp), l as u64);
    }
    assert forall|l: u32| is_sparse_layer(facts, l) implies #[trigger] role_count(
        more,
        TensorRole::Router,
        l,
    ) >= 2 by {
        assert(role_count(tensors, TensorRole::Router, l) >= 2);
        lemma_count_key_grows(tensors, extra, role_key(TensorRole::Router), l as u64);
    }
    assert forall|l: u32| is_sparse_layer(facts, l) implies #[trigger] role_count(
        more,
        TensorRole::SharedExpert,
        l,
    ) >= 3 by {
        assert(role_count(tensors, TensorRole::SharedExpert, l) >= 3);
        lemma_count_key_grows(tensors, extra, role_key(TensorRole::SharedExpert), l as u64);
    }
    assert forall|l: u32, x: u32|
        is_sparse_layer(facts, l) && x < facts.routed_experts as u32 implies #[trigger]
    expert_supported(facts, more, l, x) by {
        assert(expert_supported(facts, tensors, l, x));
        lemma_count_key_grows(tensors, extra, expert_key(false), expert_number(l, x));
        lemma_count_key_grows(tensors, extra, expert_key(true), expert_number(l, x));
    }
}

/// The gates nest: full execution needs the shared experts, which come after
/// the routers and routed experts.
pub proof fn law_gates_nest(facts: ModelFacts, tensors: Seq<TensorInfo>)
    ensures
        full_execution_supported(facts, tensors) ==> sparse_router_supported(facts, tensors)
            && sparse_shared_supported(facts, tensors),
{
}

} // verus!
