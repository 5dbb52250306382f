//! What the launches of a sparse block are made of: which tensor of the
//! checkpoint stands behind every weight that they name.
use vstd::prelude::*;

use crate::device::Ds41rtDeviceBuffer;
use crate::model::{DType, ModelFacts, ModelVariant, TensorInfo};
use crate::sparse_block::{
    block_prefix, launch_of, layer_names_ok, layer_requirements_ok, profile_accepted,
    resident_accepted, router_kernel, scale_layouts_ok, shape_bytes, variant_profile,
    Ds4FlashSparseBlockPreDispatchDeviceBuffers, Ds4FlashSparseLayerResidentWeights, RouterKernel,
    ScaleLayout, SharedExpertLaunch, SparseConstants, TensorRequirement,
};

verus! {

/// The tensor that scales a weight: it has the name of the weight with `scale` in
/// place of `weight` at the end.
pub open spec fn scales(weight: Seq<char>, scale: Seq<char>) -> bool {
    exists|stem: Seq<char>|
        weight == #[trigger] joined_name(stem, "weight"@) && scale == joined_name(stem, "scale"@)
}

/// A name made of a stem and an ending.
pub open spec fn joined_name(stem: Seq<char>, ending: Seq<char>) -> Seq<char> {
    stem + ending
}

/// The six names of a shared expert launch.
pub open spec fn launch_names(shared: SharedExpertLaunch<'_>) -> Seq<Seq<char>> {
    seq![
        shared.w1_weight@,
        shared.w1_scale@,
        shared.w3_weight@,
        shared.w3_scale@,
        shared.w2_weight@,
        shared.w2_scale@,
    ]
}

proof fn lemma_stems(prefix: Seq<char>)
    ensures
        scales(
            prefix + ".ffn"@ + ".shared_experts.w1.weight"@,
            prefix + ".ffn"@ + ".shared_experts.w1.scale"@,
        ),
        scales(
            prefix + ".ffn"@ + ".shared_experts.w3.weight"@,
            prefix + ".ffn"@ + ".shared_experts.w3.scale"@,
        ),
        scales(
            prefix + ".ffn"@ + ".shared_experts.w2.weight"@,
            prefix + ".ffn"@ + ".shared_experts.w2.scale"@,
        ),
{
    reveal_strlit("weight");
    reveal_strlit("scale");
    reveal_strlit(".shared_experts.w1.");
    reveal_strlit(".shared_experts.w3.");
    reveal_strlit(".shared_experts.w2.");
    reveal_strlit(".shared_experts.w1.weight");
    reveal_strlit(".shared_experts.w1.scale");
    reveal_strlit(".shared_experts.w3.weight");
    reveal_strlit(".shared_experts.w3.scale");
    reveal_strlit(".shared_experts.w2.weight");
    reveal_strlit(".shared_experts.w2.scale");
    let ffn = prefix + ".ffn"@;
    assert(".shared_experts.w1.weight"@ =~= ".shared_experts.w1."@ + "weight"@);
    assert(".shared_experts.w1.scale"@ =~= ".shared_experts.w1."@ + "scale"@);
    assert(".shared_experts.w3.weight"@ =~= ".shared_experts.w3."@ + "weight"@);
    assert(".shared_experts.w3.scale"@ =~= ".shared_experts.w3."@ + "scale"@);
    assert(".shared_experts.w2.weight"@ =~= ".shared_experts.w2."@ + "weight"@);
    assert(".shared_experts.w2.scale"@ =~= ".shared_experts.w2."@ + "scale"@);
    let s1 = ffn + ".shared_experts.w1."@;
    let s3 = ffn + ".shared_experts.w3."@;
    let s2 = ffn + ".shared_experts.w2."@;
    assert(ffn + ".shared_experts.w1.weight"@ =~= joined_name(s1, "weight"@));
    assert(ffn + ".shared_experts.w1.scale"@ =~= joined_name(s1, "scale"@));
    assert(ffn + ".shared_experts.w3.weight"@ =~= joined_name(s3, "weight"@));
    assert(ffn + ".shared_experts.w3.scale"@ =~= joined_name(s3, "scale"@));
    assert(ffn + ".shared_experts.w2.weight"@ =~= joined_name(s2, "weight"@));
    assert(ffn + ".shared_experts.w2.scale"@ =~= joined_name(s2, "scale"@));
}

/// Every projection of a shared expert launch has the scales of its own weight,
/// and no tensor is named twice.
pub proof fn law_projections_have_their_own_scales(
    weights: &Ds4FlashSparseLayerResidentWeights,
    facts: ModelFacts,
    constants: SparseConstants,
    layer_id: usize,
    kernel: RouterKernel,
    hidden: Ds41rtDeviceBuffer,
    rows: usize,
    token_ids: Option<Ds41rtDeviceBuffer>,
    buffers: Ds4FlashSparseBlockPreDispatchDeviceBuffers,
    stream: usize,
)
    requires
        layer_names_ok(*weights, facts, constants, layer_id),
    ensures
        ({
            let shared = launch_of(
                weights,
                kernel,
                hidden,
                rows,
                token_ids,
                buffers,
                stream,
            ).shared;
            &&& scales(shared.w1_weight@, shared.w1_scale@)
            &&& scales(shared.w3_weight@, shared.w3_scale@)
            &&& scales(shared.w2_weight@, shared.w2_scale@)
            &&& launch_names(shared).no_duplicates()
        }),
{
    let shared = launch_of(weights, kernel, hidden, rows, token_ids, buffers, stream).shared;
    let prefix = block_prefix(facts, layer_id);
    lemma_stems(prefix);
    lemma_names_differ(prefix + ".ffn"@);
    assert(launch_names(shared) =~= shared_names(prefix + ".ffn"@));
}

spec fn shared_names(ffn: Seq<char>) -> Seq<Seq<char>> {
    seq![
        ffn + ".shared_experts.w1.weight"@,
        ffn + ".shared_experts.w1.scale"@,
        ffn + ".shared_experts.w3.weight"@,
        ffn + ".shared_experts.w3.scale"@,
        ffn + ".shared_experts.w2.weight"@,
        ffn + ".shared_experts.w2.scale"@,
    ]
}

/// The character that tells the projection, and the one that tells a weight from
/// a scale.
proof fn lemma_names_differ(ffn: Seq<char>)
    ensures
        shared_names(ffn).no_duplicates(),
{
    reveal_strlit(".shared_experts.w1.weight");
    reveal_strlit(".shared_experts.w1.scale");
    reveal_strlit(".shared_experts.w3.weight");
    reveal_strlit(".shared_experts.w3.scale");
    reveal_strlit(".shared_experts.w2.weight");
    reveal_strlit(".shared_experts.w2.scale");
    let names = shared_names(ffn);
    let place = ffn.len() as int + 17;
    let ending = ffn.len() as int + 19;
    assert(names[0][place] == '1' && names[0][ending] == 'w');
    assert(names[1][place] == '1' && names[1][ending] == 's');
    assert(names[2][place] == '3' && names[2][ending] == 'w');
    assert(names[3][place] == '3' && names[3][ending] == 's');
    assert(names[4][place] == '2' && names[4][ending] == 'w');
    assert(names[5][place] == '2' && names[5][ending] == 's');
    assert forall|i: int, j: int|
        0 <= i < names.len() && 0 <= j < names.len() && i != j implies names[i] != names[j] by {
        assert(i == 0 || i == 1 || i == 2 || i == 3 || i == 4 || i == 5);
        assert(j == 0 || j == 1 || j == 2 || j == 3 || j == 4 || j == 5);
    }
}

/// The launches of a block read the tensors of that block, each under its own
/// name: the router its gate, with the table of token routes or the learned bias;
/// the shared expert its three projections.
pub proof fn law_launches_name_the_tensors_of_their_block(
    weights: &Ds4FlashSparseLayerResidentWeights,
    facts: ModelFacts,
    constants: SparseConstants,
    layer_id: usize,
    kernel: RouterKernel,
    hidden: Ds41rtDeviceBuffer,
    rows: usize,
    token_ids: Option<Ds41rtDeviceBuffer>,
    buffers: Ds4FlashSparseBlockPreDispatchDeviceBuffers,
    stream: usize,
)
    requires
        layer_names_ok(*weights, facts, constants, layer_id),
    ensures
        ({
            let launch = launch_of(weights, kernel, hidden, rows, token_ids, buffers, stream);
            let block = block_prefix(facts, layer_id);
            let experts = block + ".ffn.shared_experts."@;
            &&& launch.router.weight@ == block + ".ffn.gate.weight"@
            &&& launch.router.hash_routing <==> launch.router.aux@ == block
                + ".ffn.gate.tid2eid"@
            &&& !launch.router.hash_routing <==> launch.router.aux@ == block + ".ffn.gate.bias"@
            &&& launch.router.hash_routing ==> layer_id < facts.num_hash_layers
            &&& launch.shared.w1_weight@ == experts + "w1.weight"@
            &&& launch.shared.w1_scale@ == experts + "w1.scale"@
            &&& launch.shared.w3_weight@ == experts + "w3.weight"@
            &&& launch.shared.w3_scale@ == experts + "w3.scale"@
            &&& launch.shared.w2_weight@ == experts + "w2.weight"@
            &&& launch.shared.w2_scale@ == experts + "w2.scale"@
        }),
{
    let block = block_prefix(facts, layer_id);
    let ffn = block + ".ffn"@;
    let experts = block + ".ffn.shared_experts."@;
    reveal_strlit(".ffn");
    reveal_strlit(".ffn.shared_experts.");
    reveal_strlit(".ffn.gate.weight");
    reveal_strlit(".ffn.gate.tid2eid");
    reveal_strlit(".ffn.gate.bias");
    reveal_strlit(".gate.weight");
    reveal_strlit(".gate.tid2eid");
    reveal_strlit(".gate.bias");
    reveal_strlit("w1.weight");
    reveal_strlit("w1.scale");
    reveal_strlit("w3.weight");
    reveal_strlit("w3.scale");
    reveal_strlit("w2.weight");
    reveal_strlit("w2.scale");
    reveal_strlit(".shared_experts.w1.weight");
    reveal_strlit(".shared_experts.w1.scale");
    reveal_strlit(".shared_experts.w3.weight");
    reveal_strlit(".shared_experts.w3.scale");
    reveal_strlit(".shared_experts.w2.weight");
    reveal_strlit(".shared_experts.w2.scale");
    assert(ffn + ".gate.weight"@ =~= block + ".ffn.gate.weight"@);
    assert(ffn + ".gate.tid2eid"@ =~= block + ".ffn.gate.tid2eid"@);
    assert(ffn + ".gate.bias"@ =~= block + ".ffn.gate.bias"@);
    assert((block + ".ffn.gate.tid2eid"@).len() != (block + ".ffn.gate.bias"@).len());
    assert(ffn + ".shared_experts.w1.weight"@ =~= experts + "w1.weight"@);
    assert(ffn + ".shared_experts.w1.scale"@ =~= experts + "w1.scale"@);
    assert(ffn + ".shared_experts.w3.weight"@ =~= experts + "w3.weight"@);
    assert(ffn + ".shared_experts.w3.scale"@ =~= experts + "w3.scale"@);
    assert(ffn + ".shared_experts.w2.weight"@ =~= experts + "w2.weight"@);
    assert(ffn + ".shared_experts.w2.scale"@ =~= experts + "w2.scale"@);
}

/// Both launches take the same rows and enter the same stream, and each writes
/// its own part of the output. Tokens go to the router.
pub proof fn law_launches_share_their_input(
    weights: &Ds4FlashSparseLayerResidentWeights,
    kernel: RouterKernel,
    hidden: Ds41rtDeviceBuffer,
    rows: usize,
    token_ids: Option<Ds41rtDeviceBuffer>,
    buffers: Ds4FlashSparseBlockPreDispatchDeviceBuffers,
    stream: usize,
)
    ensures
        ({
            let launch = launch_of(weights, kernel, hidden, rows, token_ids, buffers, stream);
            &&& launch.router.hidden == hidden
            &&& launch.shared.hidden == launch.router.hidden
            &&& launch.router.rows == rows
            &&& launch.shared.rows == launch.router.rows
            &&& launch.router.stream == stream
            &&& launch.shared.stream == launch.router.stream
            &&& launch.router.token_ids == token_ids
            &&& (Ds4FlashSparseBlockPreDispatchDeviceBuffers {
                router: launch.router.output,
                shared: launch.shared.output,
            }) == buffers
        }),
{
}

/// The kernel that a layer is launched with fits the width of its model: a
/// narrow model takes the one, a wide model the other, and no model both.
pub proof fn law_router_kernel_fits_the_width(
    weights: Ds4FlashSparseLayerResidentWeights,
    facts: ModelFacts,
    constants: SparseConstants,
    layer_id: usize,
)
    requires
        layer_names_ok(weights, facts, constants, layer_id),
        facts.variant != ModelVariant::Custom,
    ensures
        router_kernel(weights.variant) == Some(RouterKernel::Flash) <==> weights.hidden == 4_096,
        router_kernel(weights.variant) == Some(RouterKernel::Pro) <==> weights.hidden == 7_168,
        weights.hidden == 4_096 <==> weights.shared_intermediate == 2_048,
        weights.hidden == 7_168 <==> weights.shared_intermediate == 3_072,
        weights.hidden == 4_096 || weights.hidden == 7_168,
{
}

/// Requirement `i` asks for a tensor of this name, element type and shape, and
/// for as many bytes per value as the element type has.
pub open spec fn required_at(
    requirements: Seq<TensorRequirement>,
    i: int,
    name: Seq<char>,
    dtype: DType,
    shape: Seq<usize>,
) -> bool {
    &&& 0 <= i < requirements.len()
    &&& requirements[i].name@ == name
    &&& requirements[i].dtype == dtype
    &&& requirements[i].shape@ == shape
    &&& requirements[i].bytes_per_value == (match dtype {
        DType::Bf16 => 2usize,
        DType::F32 => 4,
        DType::I64 => 8,
        _ => 1,
    })
}

/// A tensor is asked for.
pub open spec fn required(
    requirements: Seq<TensorRequirement>,
    name: Seq<char>,
    dtype: DType,
    shape: Seq<usize>,
) -> bool {
    exists|i: int| #[trigger] required_at(requirements, i, name, dtype, shape)
}

/// A block-scaled projection of `rows` by `columns` is asked for, with one scale
/// for every 128 by 128 of its values.
pub open spec fn projection_required(
    requirements: Seq<TensorRequirement>,
    weight: Seq<char>,
    scale: Seq<char>,
    rows: usize,
    columns: usize,
    scale_rows: usize,
    scale_columns: usize,
) -> bool {
    &&& required(requirements, weight, DType::F8E4M3, seq![rows, columns])
    &&& required(requirements, scale, DType::F8E8M0, seq![scale_rows, scale_columns])
    &&& scale_rows * 128 == rows
    &&& scale_columns * 128 == columns
}

/// What is made resident for a layer is what its launches read, and in the shape
/// in which they read it: the router has a row for every expert, the outer
/// projections of the shared expert lead from the hidden width to the inner one,
/// the third leads back, and every projection comes with its scales.
pub proof fn law_launched_tensors_are_required(
    requirements: Seq<TensorRequirement>,
    layouts: Seq<ScaleLayout>,
    weights: &Ds4FlashSparseLayerResidentWeights,
    facts: ModelFacts,
    constants: SparseConstants,
    layer_id: usize,
    kernel: RouterKernel,
    hidden: Ds41rtDeviceBuffer,
    rows: usize,
    token_ids: Option<Ds41rtDeviceBuffer>,
    buffers: Ds4FlashSparseBlockPreDispatchDeviceBuffers,
    stream: usize,
) -> (experts: (usize, usize, usize))
    requires
        profile_accepted(facts, constants),
        layer_names_ok(*weights, facts, constants, layer_id),
        layer_requirements_ok(
            requirements,
            *weights,
            variant_profile(facts.variant, constants),
        ),
        scale_layouts_ok(layouts, *weights),
    ensures
        ({
            let launch = launch_of(weights, kernel, hidden, rows, token_ids, buffers, stream);
            let shared = launch.shared;
            let (h, s) = (shared.hidden_size, shared.intermediate);
            let (routed, hb, sb) = experts;
            &&& h == facts.hidden_size
            &&& s == facts.moe_intermediate_size
            &&& routed == facts.routed_experts
            &&& requirements.len() == 8
            &&& required(requirements, launch.router.weight@, DType::Bf16, seq![routed, h])
            &&& !launch.router.hash_routing ==> required(
                requirements,
                launch.router.aux@,
                DType::F32,
                seq![routed],
            )
            &&& launch.router.hash_routing ==> required(
                requirements,
                launch.router.aux@,
                DType::I64,
                seq![facts.vocab_size, facts.top_k],
            )
            &&& projection_required(
                requirements,
                shared.w1_weight@,
                shared.w1_scale@,
                s,
                h,
                sb,
                hb,
            )
            &&& projection_required(
                requirements,
                shared.w3_weight@,
                shared.w3_scale@,
                s,
                h,
                sb,
                hb,
            )
            &&& projection_required(
                requirements,
                shared.w2_weight@,
                shared.w2_scale@,
                h,
                s,
                hb,
                sb,
            )
            &&& layouts.len() == 3
            &&& layouts[0].scale_name@ == shared.w1_scale@ && layouts[0].rows == s
                && layouts[0].columns == h
            &&& layouts[1].scale_name@ == shared.w3_scale@ && layouts[1].rows == s
                && layouts[1].columns == h
            &&& layouts[2].scale_name@ == shared.w2_scale@ && layouts[2].rows == h
                && layouts[2].columns == s
        }),
{
    let launch = launch_of(weights, kernel, hidden, rows, token_ids, buffers, stream);
    let shared = launch.shared;
    let profile = variant_profile(facts.variant, constants);
    let (h, s) = (shared.hidden_size, shared.intermediate);
    let hb = (h / 128) as usize;
    let sb = (s / 128) as usize;
    assert(required_at(
        requirements,
        0,
        launch.router.weight@,
        DType::Bf16,
        seq![profile.routed_experts, h],
    ));
    if launch.router.hash_routing {
        assert(required_at(
            requirements,
            1,
            launch.router.aux@,
            DType::I64,
            seq![facts.vocab_size, facts.top_k],
        ));
    } else {
        assert(required_at(
            requirements,
            1,
            launch.router.aux@,
            DType::F32,
            seq![profile.routed_experts],
        ));
    }
    assert(required_at(requirements, 2, shared.w1_weight@, DType::F8E4M3, seq![s, h]));
    assert(required_at(requirements, 3, shared.w1_scale@, DType::F8E8M0, seq![sb, hb]));
    assert(required_at(requirements, 4, shared.w3_weight@, DType::F8E4M3, seq![s, h]));
    assert(required_at(requirements, 5, shared.w3_scale@, DType::F8E8M0, seq![sb, hb]));
    assert(required_at(requirements, 6, shared.w2_weight@, DType::F8E4M3, seq![h, s]));
    assert(required_at(requirements, 7, shared.w2_scale@, DType::F8E8M0, seq![hb, sb]));
    (profile.routed_experts, hb, sb)
}

/// The bytes of a tensor are those of a value times all its dimensions, and are
/// lost where a product cannot be counted.
pub proof fn law_tensor_bytes_are_a_product(
    bytes_per_value: usize,
    shape: Seq<usize>,
    next: usize,
)
    ensures
        shape_bytes(bytes_per_value, Seq::<usize>::empty(), 0) == Some(bytes_per_value),
        ({
            let n = shape.len() as int;
            let whole = shape_bytes(bytes_per_value, shape.push(next), n + 1);
            match shape_bytes(bytes_per_value, shape, n) {
                Some(bytes) => {
                    &&& bytes * next <= usize::MAX ==> whole == Some((bytes * next) as usize)
                    &&& bytes * next > usize::MAX ==> whole is None
                },
                None => whole is None,
            }
        }),
{
    lemma_shape_prefix(bytes_per_value, shape, next, shape.len() as int);
}

proof fn lemma_shape_prefix(bytes_per_value: usize, shape: Seq<usize>, next: usize, n: int)
    requires
        0 <= n <= shape.len(),
    ensures
        shape_bytes(bytes_per_value, shape.push(next), n) == shape_bytes(
            bytes_per_value,
            shape,
            n,
        ),
    decreases n,
{
    if n > 0 {
        lemma_shape_prefix(bytes_per_value, shape, next, n - 1);
        assert(shape.push(next)[n - 1] == shape[n - 1]);
    }
}

/// A tensor is made resident exactly if it is the first of its name and has the
/// asked type, shape and bytes.
pub proof fn law_resident_tensor_is_as_required(
    tensors: Seq<TensorInfo>,
    requirement: TensorRequirement,
    i: int,
    j: int,
)
    requires
        resident_accepted(tensors, requirement, i),
        0 <= j < tensors.len(),
        tensors[j].name@ == requirement.name@,
    ensures
        0 <= i <= j,
        tensors[i].name@ == requirement.name@,
        tensors[i].dtype == requirement.dtype,
        tensors[i].shape@ == requirement.shape@,
        requirement.shape@.len() == 1 ==> tensors[i].byte_length as usize
            == requirement.bytes_per_value * requirement.shape@[0],
        requirement.shape@.len() == 2 ==> tensors[i].byte_length as usize
            == requirement.bytes_per_value * requirement.shape@[0] * requirement.shape@[1],
{
    reveal_with_fuel(shape_bytes, 3);
}

} // verus!
