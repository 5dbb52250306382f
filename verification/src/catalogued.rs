//! What a checkpoint has to hold, tensor by tensor: which tensors make a layer
//! complete, and what one tensor more changes in the counts.
use vstd::prelude::*;

use crate::coverage::{
    count_key, count_where, coverage_counts, dense_layer_supported, dense_prefix_supported,
    expert_key, expert_number, expert_supported, full_execution_supported, has_role,
    hidden_layer_key, hidden_role_key, is_post_attention_norm_name, is_routed_metadata,
    is_sparse_layer, key_set, metadata_per_expert, norm_key, role_count, role_key,
    sparse_router_supported, sparse_shared_supported, FullModelTensorCoverage,
};
use crate::model::{ModelFacts, TensorInfo, TensorRole};

verus! {

/// The places are in order, among the first `n`, and hold tensors with a property.
pub open spec fn are_places(
    places: Seq<int>,
    tensors: Seq<TensorInfo>,
    property: spec_fn(TensorInfo) -> bool,
    n: int,
) -> bool {
    &&& forall|a: int, b: int| 0 <= a < b < places.len() ==> places[a] < places[b]
    &&& forall|a: int|
        0 <= a < places.len() ==> 0 <= #[trigger] places[a] < n && property(tensors[places[a]])
}

/// At least `m` tensors have a property.
pub open spec fn at_least(
    tensors: Seq<TensorInfo>,
    property: spec_fn(TensorInfo) -> bool,
    m: int,
) -> bool {
    exists|places: Seq<int>|
        places.len() == m && #[trigger] are_places(
            places,
            tensors,
            property,
            tensors.len() as int,
        )
}

proof fn lemma_counted_have_places(
    tensors: Seq<TensorInfo>,
    key_of: spec_fn(TensorInfo) -> Option<u64>,
    k: u64,
    property: spec_fn(TensorInfo) -> bool,
    m: int,
    n: int,
) -> (places: Seq<int>)
    requires
        0 <= m <= count_key(tensors, key_of, k, n),
        0 <= n <= tensors.len(),
        forall|t: TensorInfo| #[trigger] key_of(t) == Some(k) <==> property(t),
    ensures
        places.len() == m,
        are_places(places, tensors, property, n),
    decreases n,
{
    if m == 0 {
        Seq::empty()
    } else if key_of(tensors[n - 1]) == Some(k) {
        let before = lemma_counted_have_places(tensors, key_of, k, property, m - 1, n - 1);
        let places = before.push(n - 1);
        assert forall|a: int, b: int| 0 <= a < b < places.len() implies places[a] < places[b] by {
            assert(places[a] == before[a]);
        }
        places
    } else {
        lemma_counted_have_places(tensors, key_of, k, property, m, n - 1)
    }
}

proof fn lemma_places_are_counted(
    places: Seq<int>,
    tensors: Seq<TensorInfo>,
    key_of: spec_fn(TensorInfo) -> Option<u64>,
    k: u64,
    property: spec_fn(TensorInfo) -> bool,
    n: int,
)
    requires
        0 <= n <= tensors.len(),
        are_places(places, tensors, property, n),
        forall|t: TensorInfo| #[trigger] key_of(t) == Some(k) <==> property(t),
    ensures
        count_key(tensors, key_of, k, n) >= places.len(),
    decreases n,
{
    if n > 0 {
        if places.len() > 0 && places.last() == n - 1 {
            let shorter = places.drop_last();
            assert forall|a: int| 0 <= a < shorter.len() implies 0 <= #[trigger] shorter[a] < n - 1
                && property(tensors[shorter[a]]) by {
                assert(places[a] < places[places.len() - 1]);
            }
            lemma_places_are_counted(shorter, tensors, key_of, k, property, n - 1);
            assert(property(tensors[places[places.len() - 1]]));
            assert(key_of(tensors[n - 1]) == Some(k));
        } else {
            assert forall|a: int| 0 <= a < places.len() implies 0 <= #[trigger] places[a] < n - 1
                && property(tensors[places[a]]) by {
                if a < places.len() - 1 {
                    assert(places[a] < places[places.len() - 1]);
                }
            }
            lemma_places_are_counted(places, tensors, key_of, k, property, n - 1);
        }
    } else if places.len() > 0 {
        assert(0 <= places[0] < n && property(tensors[places[0]]));
    }
}

proof fn lemma_count(
    tensors: Seq<TensorInfo>,
    key_of: spec_fn(TensorInfo) -> Option<u64>,
    k: u64,
    property: spec_fn(TensorInfo) -> bool,
    m: int,
)
    requires
        m >= 0,
        forall|t: TensorInfo| #[trigger] key_of(t) == Some(k) <==> property(t),
    ensures
        count_key(tensors, key_of, k, tensors.len() as int) >= m <==> at_least(
            tensors,
            property,
            m,
        ),
{
    let n = tensors.len() as int;
    if count_key(tensors, key_of, k, n) >= m {
        let places = lemma_counted_have_places(tensors, key_of, k, property, m, n);
        assert(are_places(places, tensors, property, n));
    }
    if at_least(tensors, property, m) {
        let places = choose|places: Seq<int>|
            places.len() == m && #[trigger] are_places(places, tensors, property, n);
        lemma_places_are_counted(places, tensors, key_of, k, property, n);
    }
}

/// The tensor has a role in a layer.
pub open spec fn serves(role: TensorRole, layer: u32) -> spec_fn(TensorInfo) -> bool {
    |t: TensorInfo| t.role == role && t.layer_id == Some(layer)
}

/// The tensor is the norm behind the attention of a layer.
pub open spec fn norms_attention_of(layer: u32) -> spec_fn(TensorInfo) -> bool {
    |t: TensorInfo|
        t.role == TensorRole::Norm && t.layer_id == Some(layer) && is_post_attention_norm_name(
            t.name@,
        )
}

/// The tensor is a weight of an expert of a layer, or says how it is quantized.
pub open spec fn is_of_expert(layer: u32, expert: u32, metadata: bool) -> spec_fn(
    TensorInfo,
) -> bool {
    |t: TensorInfo|
        t.role == TensorRole::RoutedExpert && t.layer_id == Some(layer) && t.expert_id == Some(
            expert,
        ) && t.is_quantization_metadata == metadata
}

/// A name is that of a post-attention norm exactly if some text stands before the
/// words for it.
pub proof fn law_norm_names_end_alike(name: Seq<char>, before: Seq<char>)
    ensures
        is_post_attention_norm_name(before + ".post_attention_layernorm.weight"@),
        is_post_attention_norm_name(name) ==> exists|p: Seq<char>|
            name == #[trigger] (p + ".post_attention_layernorm.weight"@),
{
    let suffix = ".post_attention_layernorm.weight"@;
    let whole = before + suffix;
    assert(whole.subrange(whole.len() - suffix.len(), whole.len() as int) =~= suffix);
    if is_post_attention_norm_name(name) {
        let p = name.subrange(0, name.len() - suffix.len());
        assert(name =~= p + suffix);
    }
}

/// The dense layers are complete exactly if each has the norm behind its
/// attention and three tensors of its MLP.
pub proof fn law_dense_layers_need_norm_and_projections(
    facts: ModelFacts,
    tensors: Seq<TensorInfo>,
    layer: u32,
)
    ensures
        dense_layer_supported(tensors, layer, tensors.len() as int) <==> at_least(
            tensors,
            norms_attention_of(layer),
            1,
        ) && at_least(tensors, serves(TensorRole::DenseMlp, layer), 3),
        dense_prefix_supported(facts, tensors) && layer < facts.first_k_dense_replace as u32
            ==> at_least(tensors, norms_attention_of(layer), 1) && at_least(
            tensors,
            serves(TensorRole::DenseMlp, layer),
            3,
        ),
{
    let n = tensors.len() as int;
    lemma_count(tensors, norm_key(), layer as u64, norms_attention_of(layer), 1);
    lemma_count(
        tensors,
        role_key(TensorRole::DenseMlp),
        layer as u64,
        serves(TensorRole::DenseMlp, layer),
        3,
    );
    if dense_prefix_supported(facts, tensors) && layer < facts.first_k_dense_replace as u32 {
        assert(dense_layer_supported(tensors, layer, n));
    }
}

/// No two experts share a number.
pub proof fn law_expert_numbers_tell_experts_apart(l: u32, x: u32, k: u32, y: u32)
    ensures
        expert_number(l, x) == expert_number(k, y) <==> l == k && x == y,
{
}

/// A sparse layer routes if it has two tensors of its router, and if every expert
/// of the model has its three weights there and as many tensors that say how they
/// are quantized as the recipe leaves: three in the native one of Flash, else nine.
pub proof fn law_sparse_layers_need_routers_and_experts(
    facts: ModelFacts,
    tensors: Seq<TensorInfo>,
    layer: u32,
    expert: u32,
)
    ensures
        role_count(tensors, TensorRole::Router, layer) >= 2 <==> at_least(
            tensors,
            serves(TensorRole::Router, layer),
            2,
        ),
        expert_supported(facts, tensors, layer, expert) <==> at_least(
            tensors,
            is_of_expert(layer, expert, false),
            3,
        ) && at_least(
            tensors,
            is_of_expert(layer, expert, true),
            if facts.variant is Flash && facts.quantization_recipe@
                == "deepseek_v4_native_fp4_fp8_mixed_v1"@ {
                3
            } else {
                9
            },
        ),
        sparse_router_supported(facts, tensors) && facts.first_k_dense_replace as u32 <= layer
            < facts.num_hidden_layers as u32 ==> at_least(
            tensors,
            serves(TensorRole::Router, layer),
            2,
        ) && (expert < facts.routed_experts as u32 ==> at_least(
            tensors,
            is_of_expert(layer, expert, false),
            3,
        )),
{
    lemma_count(
        tensors,
        role_key(TensorRole::Router),
        layer as u64,
        serves(TensorRole::Router, layer),
        2,
    );
    lemma_count(
        tensors,
        expert_key(false),
        expert_number(layer, expert),
        is_of_expert(layer, expert, false),
        3,
    );
    lemma_count(
        tensors,
        expert_key(true),
        expert_number(layer, expert),
        is_of_expert(layer, expert, true),
        metadata_per_expert(facts),
    );
    if sparse_router_supported(facts, tensors) && is_sparse_layer(facts, layer) {
        assert(role_count(tensors, TensorRole::Router, layer) >= 2);
        if expert < facts.routed_experts as u32 {
            assert(expert_supported(facts, tensors, layer, expert));
        }
    }
}

/// A sparse layer has its shared expert if it has three tensors of it.
pub proof fn law_sparse_layers_need_shared_experts(
    facts: ModelFacts,
    tensors: Seq<TensorInfo>,
    layer: u32,
)
    ensures
        role_count(tensors, TensorRole::SharedExpert, layer) >= 3 <==> at_least(
            tensors,
            serves(TensorRole::SharedExpert, layer),
            3,
        ),
        sparse_shared_supported(facts, tensors) && facts.first_k_dense_replace as u32 <= layer
            < facts.num_hidden_layers as u32 ==> at_least(
            tensors,
            serves(TensorRole::SharedExpert, layer),
            3,
        ),
{
    lemma_count(
        tensors,
        role_key(TensorRole::SharedExpert),
        layer as u64,
        serves(TensorRole::SharedExpert, layer),
        3,
    );
    if sparse_shared_supported(facts, tensors) && is_sparse_layer(facts, layer) {
        assert(role_count(tensors, TensorRole::SharedExpert, layer) >= 3);
    }
}

/// A checkpoint with an output head whose every layer is complete can be executed.
pub proof fn law_complete_checkpoint_is_supported(
    facts: ModelFacts,
    tensors: Seq<TensorInfo>,
    head: int,
)
    requires
        0 <= head < tensors.len(),
        tensors[head].role == TensorRole::LmHead,
        forall|l: u32|
            l < facts.first_k_dense_replace as u32 ==> #[trigger] at_least(
                tensors,
                norms_attention_of(l),
                1,
            ) && at_least(tensors, serves(TensorRole::DenseMlp, l), 3),
        forall|l: u32|
            facts.first_k_dense_replace as u32 <= l < facts.num_hidden_layers as u32
                ==> #[trigger] at_least(tensors, serves(TensorRole::Router, l), 2) && at_least(
                tensors,
                serves(TensorRole::SharedExpert, l),
                3,
            ),
        forall|l: u32, x: u32|
            facts.first_k_dense_replace as u32 <= l < facts.num_hidden_layers as u32 && x
                < facts.routed_experts as u32 ==> #[trigger] at_least(
                tensors,
                is_of_expert(l, x, false),
                3,
            ) && at_least(tensors, is_of_expert(l, x, true), metadata_per_expert(facts)),
    ensures
        full_execution_supported(facts, tensors),
{
    let n = tensors.len() as int;
    assert forall|l: u32| l < facts.first_k_dense_replace as u32 implies #[trigger]
    dense_layer_supported(tensors, l, n) by {
        assert(at_least(tensors, norms_attention_of(l), 1));
        law_dense_layers_need_norm_and_projections(facts, tensors, l);
    }
    assert forall|l: u32| is_sparse_layer(facts, l) implies #[trigger] role_count(
        tensors,
        TensorRole::Router,
        l,
    ) >= 2 by {
        assert(at_least(tensors, serves(TensorRole::Router, l), 2));
        law_sparse_layers_need_routers_and_experts(facts, tensors, l, 0);
    }
    assert forall|l: u32| is_sparse_layer(facts, l) implies #[trigger] role_count(
        tensors,
        TensorRole::SharedExpert,
        l,
    ) >= 3 by {
        assert(at_least(tensors, serves(TensorRole::Router, l), 2));
        law_sparse_layers_need_shared_experts(facts, tensors, l);
    }
    assert forall|l: u32, x: u32|
        is_sparse_layer(facts, l) && x < facts.routed_experts as u32 implies #[trigger]
    expert_supported(facts, tensors, l, x) by {
        assert(at_least(tensors, is_of_expert(l, x, false), 3));
        law_sparse_layers_need_routers_and_experts(facts, tensors, l, x);
    }
}

proof fn lemma_where_prefix(
    tensors: Seq<TensorInfo>,
    extra: TensorInfo,
    property: spec_fn(TensorInfo) -> bool,
    n: int,
)
    requires
        0 <= n <= tensors.len(),
    ensures
        count_where(tensors.push(extra), property, n) == count_where(tensors, property, n),
    decreases n,
{
    if n > 0 {
        lemma_where_prefix(tensors, extra, property, n - 1);
    }
}

proof fn lemma_keys(
    tensors: Seq<TensorInfo>,
    extra: TensorInfo,
    key_of: spec_fn(TensorInfo) -> Option<u64>,
    n: int,
)
    requires
        0 <= n <= tensors.len(),
    ensures
        key_set(tensors.push(extra), key_of, n) == key_set(tensors, key_of, n),
        key_set(tensors, key_of, n).finite(),
        forall|k: u64| #[trigger]
            key_set(tensors, key_of, n).contains(k) <==> exists|i: int|
                0 <= i < n && key_of(#[trigger] tensors[i]) == Some(k),
    decreases n,
{
    if n > 0 {
        lemma_keys(tensors, extra, key_of, n - 1);
        let before = key_set(tensors, key_of, n - 1);
        assert(tensors.push(extra)[n - 1] == tensors[n - 1]);
        assert forall|k: u64| #[trigger]
            key_set(tensors, key_of, n).contains(k) <==> exists|i: int|
                0 <= i < n && key_of(#[trigger] tensors[i]) == Some(k) by {
            if before.contains(k) {
                let i = choose|i: int| 0 <= i < n - 1 && key_of(#[trigger] tensors[i]) == Some(k);
                assert(key_of(tensors[i]) == Some(k));
            }
            if key_of(tensors[n - 1]) == Some(k) {
                assert(key_set(tensors, key_of, n).contains(k));
            }
        }
    }
}

/// A role occurs among the tensors of a layer; any role where none is named.
pub open spec fn layer_has(tensors: Seq<TensorInfo>, role: Option<TensorRole>, layer: u32) -> bool {
    exists|i: int|
        0 <= i < tensors.len() && (#[trigger] tensors[i]).layer_id == Some(layer) && (role is None
            || tensors[i].role == role->0)
}

/// One where a condition holds, else zero.
pub open spec fn one(condition: bool) -> int {
    if condition {
        1
    } else {
        0
    }
}

proof fn lemma_new_layer(
    tensors: Seq<TensorInfo>,
    extra: TensorInfo,
    role: Option<TensorRole>,
    key_of: spec_fn(TensorInfo) -> Option<u64>,
    layers: usize,
)
    requires
        forall|t: TensorInfo, l: u32|
            (#[trigger] key_of(t) == Some(#[trigger] (l as u64))) <==> t.layer_id == Some(l) && l
                < layers && (role is None || t.role == role->0),
        forall|t: TensorInfo|
            #[trigger] key_of(t) is Some ==> t.layer_id is Some && key_of(t) == Some(
                t.layer_id->0 as u64,
            ),
    ensures
        key_set(tensors.push(extra), key_of, tensors.len() as int + 1).len() == key_set(
            tensors,
            key_of,
            tensors.len() as int,
        ).len() + one(
            extra.layer_id is Some && extra.layer_id->0 < layers && (role is None || extra.role
                == role->0) && !layer_has(tensors, role, extra.layer_id->0),
        ),
{
    let n = tensors.len() as int;
    lemma_keys(tensors, extra, key_of, n);
    let before = key_set(tensors, key_of, n);
    assert(tensors.push(extra)[n] == extra);
    if extra.layer_id is Some {
        let l = extra.layer_id->0;
        assert((key_of(extra) == Some(l as u64)) <==> l < layers && (role is None || extra.role
            == role->0));
        if key_of(extra) == Some(l as u64) {
            if layer_has(tensors, role, l) {
                let i = choose|i: int|
                    0 <= i < tensors.len() && (#[trigger] tensors[i]).layer_id == Some(l) && (role
                        is None || tensors[i].role == role->0);
                assert(key_of(tensors[i]) == Some(l as u64));
                assert(before.contains(l as u64));
                assert(before.insert(l as u64) =~= before);
            } else {
                if before.contains(l as u64) {
                    let i = choose|i: int|
                        0 <= i < n && key_of(#[trigger] tensors[i]) == Some(l as u64);
                    assert(tensors[i].layer_id == Some(l));
                    assert(layer_has(tensors, role, l));
                }
            }
        }
    }
}

/// One tensor more adds one to the count of its role, and to no other, and to the
/// layers that have a tensor, routed experts or a dense MLP if its layer had none.
pub proof fn law_each_tensor_is_counted_once(
    before: FullModelTensorCoverage,
    after: FullModelTensorCoverage,
    facts: ModelFacts,
    tensors: Seq<TensorInfo>,
    extra: TensorInfo,
)
    requires
        coverage_counts(before, facts, tensors),
        coverage_counts(after, facts, tensors.push(extra)),
    ensures
        after.routed_expert_tensors == before.routed_expert_tensors + one(
            extra.role is RoutedExpert,
        ),
        after.routed_quant_metadata_tensors == before.routed_quant_metadata_tensors + one(
            extra.role is RoutedExpert && extra.is_quantization_metadata,
        ),
        after.attention_tensors == before.attention_tensors + one(extra.role is Attention),
        after.router_tensors == before.router_tensors + one(extra.role is Router),
        after.shared_expert_tensors == before.shared_expert_tensors + one(
            extra.role is SharedExpert,
        ),
        after.embedding_tensors == before.embedding_tensors + one(extra.role is Embedding),
        after.lm_head_tensors == before.lm_head_tensors + one(extra.role is LmHead),
        ({
            let inside = extra.layer_id is Some && extra.layer_id->0 < facts.num_hidden_layers;
            let l = extra.layer_id->0;
            &&& after.hidden_layers_with_any_tensor == before.hidden_layers_with_any_tensor + one(
                inside && !layer_has(tensors, None, l),
            )
            &&& after.sparse_layers_with_routed_experts == before.sparse_layers_with_routed_experts
                + one(
                inside && extra.role is RoutedExpert && !layer_has(
                    tensors,
                    Some(TensorRole::RoutedExpert),
                    l,
                ),
            )
            &&& after.dense_layers_with_dense_mlp == before.dense_layers_with_dense_mlp + one(
                inside && extra.role is DenseMlp && !layer_has(
                    tensors,
                    Some(TensorRole::DenseMlp),
                    l,
                ),
            )
        }),
{
    let n = tensors.len() as int;
    let layers = facts.num_hidden_layers;
    assert(tensors.push(extra)[n] == extra);
    lemma_where_prefix(tensors, extra, has_role(TensorRole::RoutedExpert), n);
    lemma_where_prefix(tensors, extra, is_routed_metadata(), n);
    lemma_where_prefix(tensors, extra, has_role(TensorRole::Attention), n);
    lemma_where_prefix(tensors, extra, has_role(TensorRole::Router), n);
    lemma_where_prefix(tensors, extra, has_role(TensorRole::SharedExpert), n);
    lemma_where_prefix(tensors, extra, has_role(TensorRole::Embedding), n);
    lemma_where_prefix(tensors, extra, has_role(TensorRole::LmHead), n);
    lemma_new_layer(tensors, extra, None, hidden_layer_key(layers), layers);
    lemma_new_layer(
        tensors,
        extra,
        Some(TensorRole::RoutedExpert),
        hidden_role_key(TensorRole::RoutedExpert, layers),
        layers,
    );
    lemma_new_layer(
        tensors,
        extra,
        Some(TensorRole::DenseMlp),
        hidden_role_key(TensorRole::DenseMlp, layers),
        layers,
    );
}

/// An empty checkpoint counts nothing.
pub proof fn law_empty_checkpoint_counts_nothing(
    counts: FullModelTensorCoverage,
    facts: ModelFacts,
)
    requires
        coverage_counts(counts, facts, Seq::<TensorInfo>::empty()),
    ensures
        counts.routed_expert_tensors == 0,
        counts.routed_quant_metadata_tensors == 0,
        counts.attention_tensors == 0,
        counts.router_tensors == 0,
        counts.shared_expert_tensors == 0,
        counts.embedding_tensors == 0,
        counts.lm_head_tensors == 0,
        counts.hidden_layers_with_any_tensor == 0,
        counts.sparse_layers_with_routed_experts == 0,
        counts.dense_layers_with_dense_mlp == 0,
{
}

} // verus!
