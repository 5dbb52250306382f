//! What a captured graph is told: the tensor of the checkpoint that stands behind
//! every weight it takes, and the numbers that it is captured with.
use vstd::prelude::*;

use crate::device::Ds41rtDeviceBuffer;
use crate::dspark::capture::{
    attention_step_ok, collapse_step_ok, entry_step_ok, post_dispatch_step_ok, prompt_step_ok,
    proposal_step_ok, GraphParameters,
};
use crate::dspark::graphs::{GraphCapture, GraphKey};
use crate::dspark::handover::{passed, passed_at};
use crate::dspark::launch::{Keyword, KeywordView, PythonDeviceBufferArg};
use crate::dspark::plan::DsparkVariant;
use crate::dspark::run::terminal_head_launch;
use crate::dspark::storage::DeepseekV4DsparkDeviceStorage;
use crate::dspark::weights::{
    attention_geometry, block_attention_weight_list, block_post_dispatch_weight_list,
    entry_weight_list, prompt_weight_list, proposal_entry_weight_list,
    terminal_collapse_weight_list, terminal_head_weight_list, weights_are,
    DeepseekV4DsparkBlockAttentionWeights, DeepseekV4DsparkBlockPostDispatchWeights,
    DeepseekV4DsparkTerminalCollapseWeights, DeepseekV4DsparkTerminalHeadWeights, EntryWeights,
    PromptWeights, ProposalEntryWeights, ResidentWeight,
};
use crate::text::decimal;

verus! {

/// Buffer `i` holds the resident tensor of this name, which is as long as asked
/// for.
pub open spec fn holds_tensor(
    resident: Seq<ResidentWeight>,
    buffers: Seq<Ds41rtDeviceBuffer>,
    i: int,
    tensor: Seq<char>,
) -> bool {
    0 <= i < resident.len() && i < buffers.len() && resident[i].name@ == tensor
}

/// The graph takes a tensor under a name of its own.
pub open spec fn takes_tensor(
    args: Seq<PythonDeviceBufferArg>,
    argument: Seq<char>,
    resident: Seq<ResidentWeight>,
    buffers: Seq<Ds41rtDeviceBuffer>,
    tensor: Seq<char>,
) -> bool {
    exists|i: int|
        #[trigger] holds_tensor(resident, buffers, i, tensor) && passed(args, argument, buffers[i])
}

/// The name of a tensor of a block of the drafter.
pub open spec fn drafter_tensor(block: int, tensor: Seq<char>) -> Seq<char> {
    "mtp."@ + decimal(block as nat) + "."@ + tensor
}

/// The attention of a block takes the tensors of that block: every projection with
/// its own scales, its norms and its sink, and the mixing of what goes to the
/// experts.
pub proof fn law_attention_takes_the_tensors_of_its_block(
    step: GraphCapture,
    weights: DeepseekV4DsparkBlockAttentionWeights,
    block: usize,
    parameters: GraphParameters,
    slot: usize,
    resident: Seq<ResidentWeight>,
    buffers: Seq<Ds41rtDeviceBuffer>,
    storage: DeepseekV4DsparkDeviceStorage,
)
    requires
        attention_step_ok(step, storage, weights, block, parameters, slot),
        weights_are(resident, block_attention_weight_list(storage.plan.variant, block as int)),
        weights.list() == buffers,
    ensures
        ({
            let args = step.buffers@;
            &&& args.len() == 31
            &&& takes_tensor(
                args,
                "wq_a_weight"@,
                resident,
                buffers,
                drafter_tensor(block as int, "attn.wq_a.weight"@),
            )
            &&& takes_tensor(
                args,
                "wq_a_scale"@,
                resident,
                buffers,
                drafter_tensor(block as int, "attn.wq_a.scale"@),
            )
            &&& takes_tensor(
                args,
                "wq_b_weight"@,
                resident,
                buffers,
                drafter_tensor(block as int, "attn.wq_b.weight"@),
            )
            &&& takes_tensor(
                args,
                "wq_b_scale"@,
                resident,
                buffers,
                drafter_tensor(block as int, "attn.wq_b.scale"@),
            )
            &&& takes_tensor(
                args,
                "wkv_weight"@,
                resident,
                buffers,
                drafter_tensor(block as int, "attn.wkv.weight"@),
            )
            &&& takes_tensor(
                args,
                "wkv_scale"@,
                resident,
                buffers,
                drafter_tensor(block as int, "attn.wkv.scale"@),
            )
            &&& takes_tensor(
                args,
                "q_norm_weight"@,
                resident,
                buffers,
                drafter_tensor(block as int, "attn.q_norm.weight"@),
            )
            &&& takes_tensor(
                args,
                "kv_norm_weight"@,
                resident,
                buffers,
                drafter_tensor(block as int, "attn.kv_norm.weight"@),
            )
            &&& takes_tensor(
                args,
                "wo_a_weight"@,
                resident,
                buffers,
                drafter_tensor(block as int, "attn.wo_a.weight"@),
            )
            &&& takes_tensor(
                args,
                "wo_a_scale"@,
                resident,
                buffers,
                drafter_tensor(block as int, "attn.wo_a.scale"@),
            )
            &&& takes_tensor(
                args,
                "wo_b_weight"@,
                resident,
                buffers,
                drafter_tensor(block as int, "attn.wo_b.weight"@),
            )
            &&& takes_tensor(
                args,
                "wo_b_scale"@,
                resident,
                buffers,
                drafter_tensor(block as int, "attn.wo_b.scale"@),
            )
            &&& takes_tensor(
                args,
                "attn_sink"@,
                resident,
                buffers,
                drafter_tensor(block as int, "attn.attn_sink"@),
            )
            &&& takes_tensor(
                args,
                "hc_fn"@,
                resident,
                buffers,
                drafter_tensor(block as int, "hc_ffn_fn"@),
            )
            &&& takes_tensor(
                args,
                "hc_scale"@,
                resident,
                buffers,
                drafter_tensor(block as int, "hc_ffn_scale"@),
            )
            &&& takes_tensor(
                args,
                "hc_base"@,
                resident,
                buffers,
                drafter_tensor(block as int, "hc_ffn_base"@),
            )
            &&& takes_tensor(
                args,
                "norm_weight"@,
                resident,
                buffers,
                drafter_tensor(block as int, "ffn_norm.weight"@),
            )
        }),
{
    let args = step.buffers@;
    assert(passed_at(args, 14, "wq_a_weight"@, buffers[0]));
    assert(holds_tensor(resident, buffers, 0, drafter_tensor(block as int, "attn.wq_a.weight"@)));
    assert(passed_at(args, 15, "wq_a_scale"@, buffers[1]));
    assert(holds_tensor(resident, buffers, 1, drafter_tensor(block as int, "attn.wq_a.scale"@)));
    assert(passed_at(args, 16, "wq_b_weight"@, buffers[2]));
    assert(holds_tensor(resident, buffers, 2, drafter_tensor(block as int, "attn.wq_b.weight"@)));
    assert(passed_at(args, 17, "wq_b_scale"@, buffers[3]));
    assert(holds_tensor(resident, buffers, 3, drafter_tensor(block as int, "attn.wq_b.scale"@)));
    assert(passed_at(args, 18, "wkv_weight"@, buffers[4]));
    assert(holds_tensor(resident, buffers, 4, drafter_tensor(block as int, "attn.wkv.weight"@)));
    assert(passed_at(args, 19, "wkv_scale"@, buffers[5]));
    assert(holds_tensor(resident, buffers, 5, drafter_tensor(block as int, "attn.wkv.scale"@)));
    assert(passed_at(args, 20, "q_norm_weight"@, buffers[6]));
    assert(holds_tensor(resident, buffers, 6, drafter_tensor(block as int, "attn.q_norm.weight"@)));
    assert(passed_at(args, 21, "kv_norm_weight"@, buffers[7]));
    assert(holds_tensor(resident, buffers, 7, drafter_tensor(block as int, "attn.kv_norm.weight"@)));
    assert(passed_at(args, 22, "wo_a_weight"@, buffers[8]));
    assert(holds_tensor(resident, buffers, 8, drafter_tensor(block as int, "attn.wo_a.weight"@)));
    assert(passed_at(args, 23, "wo_a_scale"@, buffers[9]));
    assert(holds_tensor(resident, buffers, 9, drafter_tensor(block as int, "attn.wo_a.scale"@)));
    assert(passed_at(args, 24, "wo_b_weight"@, buffers[10]));
    assert(holds_tensor(resident, buffers, 10, drafter_tensor(block as int, "attn.wo_b.weight"@)));
    assert(passed_at(args, 25, "wo_b_scale"@, buffers[11]));
    assert(holds_tensor(resident, buffers, 11, drafter_tensor(block as int, "attn.wo_b.scale"@)));
    assert(passed_at(args, 26, "attn_sink"@, buffers[12]));
    assert(holds_tensor(resident, buffers, 12, drafter_tensor(block as int, "attn.attn_sink"@)));
    assert(passed_at(args, 27, "hc_fn"@, buffers[13]));
    assert(holds_tensor(resident, buffers, 13, drafter_tensor(block as int, "hc_ffn_fn"@)));
    assert(passed_at(args, 28, "hc_scale"@, buffers[14]));
    assert(holds_tensor(resident, buffers, 14, drafter_tensor(block as int, "hc_ffn_scale"@)));
    assert(passed_at(args, 29, "hc_base"@, buffers[15]));
    assert(holds_tensor(resident, buffers, 15, drafter_tensor(block as int, "hc_ffn_base"@)));
    assert(passed_at(args, 30, "norm_weight"@, buffers[16]));
    assert(holds_tensor(resident, buffers, 16, drafter_tensor(block as int, "ffn_norm.weight"@)));
}

/// What follows the experts of a block mixes and normalizes with the tensors of
/// the next block.
pub proof fn law_post_dispatch_takes_the_tensors_of_the_next_block(
    step: GraphCapture,
    weights: DeepseekV4DsparkBlockPostDispatchWeights,
    block: usize,
    parameters: GraphParameters,
    slot: usize,
    resident: Seq<ResidentWeight>,
    buffers: Seq<Ds41rtDeviceBuffer>,
    storage: DeepseekV4DsparkDeviceStorage,
)
    requires
        post_dispatch_step_ok(step, storage, weights, block, parameters, slot),
        weights_are(resident, block_post_dispatch_weight_list(storage.plan.variant, block as int)),
        weights.list() == buffers,
    ensures
        ({
            let args = step.buffers@;
            &&& args.len() == 13
            &&& takes_tensor(
                args,
                "next_hc_fn"@,
                resident,
                buffers,
                drafter_tensor(block + 1, "hc_attn_fn"@),
            )
            &&& takes_tensor(
                args,
                "next_hc_scale"@,
                resident,
                buffers,
                drafter_tensor(block + 1, "hc_attn_scale"@),
            )
            &&& takes_tensor(
                args,
                "next_hc_base"@,
                resident,
                buffers,
                drafter_tensor(block + 1, "hc_attn_base"@),
            )
            &&& takes_tensor(
                args,
                "next_norm_weight"@,
                resident,
                buffers,
                drafter_tensor(block + 1, "attn_norm.weight"@),
            )
        }),
{
    let args = step.buffers@;
    assert(passed_at(args, 9, "next_hc_fn"@, buffers[0]));
    assert(holds_tensor(resident, buffers, 0, drafter_tensor(block + 1, "hc_attn_fn"@)));
    assert(passed_at(args, 10, "next_hc_scale"@, buffers[1]));
    assert(holds_tensor(resident, buffers, 1, drafter_tensor(block + 1, "hc_attn_scale"@)));
    assert(passed_at(args, 11, "next_hc_base"@, buffers[2]));
    assert(holds_tensor(resident, buffers, 2, drafter_tensor(block + 1, "hc_attn_base"@)));
    assert(passed_at(args, 12, "next_norm_weight"@, buffers[3]));
    assert(holds_tensor(resident, buffers, 3, drafter_tensor(block + 1, "attn_norm.weight"@)));
}

/// The prompt graph of a block makes keys and values with the tensors of that
/// block, those with which its attention does.
pub proof fn law_prompt_graph_takes_the_tensors_of_its_block(
    step: GraphCapture,
    weights: PromptWeights,
    block: usize,
    rows: usize,
    producer_eps_bits: u32,
    rope_theta_bits: u32,
    resident: Seq<ResidentWeight>,
    buffers: Seq<Ds41rtDeviceBuffer>,
    storage: DeepseekV4DsparkDeviceStorage,
)
    requires
        prompt_step_ok(step, storage, weights, block, rows, producer_eps_bits, rope_theta_bits),
        weights_are(resident, prompt_weight_list(storage.plan.variant, block as int)),
        weights.list() == buffers,
    ensures
        ({
            let args = step.buffers@;
            &&& args.len() == 9
            &&& takes_tensor(
                args,
                "wkv_weight"@,
                resident,
                buffers,
                drafter_tensor(block as int, "attn.wkv.weight"@),
            )
            &&& takes_tensor(
                args,
                "wkv_scale"@,
                resident,
                buffers,
                drafter_tensor(block as int, "attn.wkv.scale"@),
            )
            &&& takes_tensor(
                args,
                "kv_norm_weight"@,
                resident,
                buffers,
                drafter_tensor(block as int, "attn.kv_norm.weight"@),
            )
        }),
{
    let args = step.buffers@;
    assert(passed_at(args, 6, "wkv_weight"@, buffers[0]));
    assert(holds_tensor(resident, buffers, 0, drafter_tensor(block as int, "attn.wkv.weight"@)));
    assert(passed_at(args, 7, "wkv_scale"@, buffers[1]));
    assert(holds_tensor(resident, buffers, 1, drafter_tensor(block as int, "attn.wkv.scale"@)));
    assert(passed_at(args, 8, "kv_norm_weight"@, buffers[2]));
    assert(holds_tensor(resident, buffers, 2, drafter_tensor(block as int, "attn.kv_norm.weight"@)));
}

/// The collapse takes the head mixing and the norm of the last block.
pub proof fn law_collapse_takes_the_tensors_of_the_last_block(
    step: GraphCapture,
    weights: DeepseekV4DsparkTerminalCollapseWeights,
    parameters: GraphParameters,
    slot: usize,
    resident: Seq<ResidentWeight>,
    buffers: Seq<Ds41rtDeviceBuffer>,
    storage: DeepseekV4DsparkDeviceStorage,
)
    requires
        collapse_step_ok(step, storage, weights, parameters, slot),
        weights_are(resident, terminal_collapse_weight_list(storage.plan.variant)),
        weights.list() == buffers,
    ensures
        ({
            let args = step.buffers@;
            &&& args.len() == 12
            &&& takes_tensor(
                args,
                "hc_head_fn"@,
                resident,
                buffers,
                "mtp.2.hc_head_fn"@,
            )
            &&& takes_tensor(
                args,
                "hc_head_scale"@,
                resident,
                buffers,
                "mtp.2.hc_head_scale"@,
            )
            &&& takes_tensor(
                args,
                "hc_head_base"@,
                resident,
                buffers,
                "mtp.2.hc_head_base"@,
            )
            &&& takes_tensor(
                args,
                "norm_weight"@,
                resident,
                buffers,
                "mtp.2.norm.weight"@,
            )
        }),
{
    let args = step.buffers@;
    assert(passed_at(args, 8, "hc_head_fn"@, buffers[0]));
    assert(holds_tensor(resident, buffers, 0, "mtp.2.hc_head_fn"@));
    assert(passed_at(args, 9, "hc_head_scale"@, buffers[1]));
    assert(holds_tensor(resident, buffers, 1, "mtp.2.hc_head_scale"@));
    assert(passed_at(args, 10, "hc_head_base"@, buffers[2]));
    assert(holds_tensor(resident, buffers, 2, "mtp.2.hc_head_base"@));
    assert(passed_at(args, 11, "norm_weight"@, buffers[3]));
    assert(holds_tensor(resident, buffers, 3, "mtp.2.norm.weight"@));
}

/// The proposal entry takes the attention mixing of the first block, its lanes
/// summed, and the norm before that attention.
pub proof fn law_proposal_entry_takes_the_tensors_of_the_first_block(
    step: GraphCapture,
    weights: ProposalEntryWeights,
    parameters: GraphParameters,
    slot: usize,
    resident: Seq<ResidentWeight>,
    buffers: Seq<Ds41rtDeviceBuffer>,
    storage: DeepseekV4DsparkDeviceStorage,
)
    requires
        proposal_step_ok(step, storage, weights, parameters, slot),
        weights_are(resident, proposal_entry_weight_list(storage.plan.variant)),
        weights.list() == buffers,
    ensures
        ({
            let args = step.buffers@;
            &&& args.len() == 10
            &&& takes_tensor(
                args,
                "hc_fn"@,
                resident,
                buffers,
                "ds41rt#deepseek-v4-dspark-block0-hc-attn-fn-lane-sum"@,
            )
            &&& takes_tensor(
                args,
                "hc_scale"@,
                resident,
                buffers,
                "mtp.0.hc_attn_scale"@,
            )
            &&& takes_tensor(
                args,
                "hc_base"@,
                resident,
                buffers,
                "mtp.0.hc_attn_base"@,
            )
            &&& takes_tensor(
                args,
                "norm_weight"@,
                resident,
                buffers,
                "mtp.0.attn_norm.weight"@,
            )
        }),
{
    let args = step.buffers@;
    assert(passed_at(args, 6, "hc_fn"@, buffers[0]));
    assert(holds_tensor(resident, buffers, 0, "ds41rt#deepseek-v4-dspark-block0-hc-attn-fn-lane-sum"@));
    assert(passed_at(args, 7, "hc_scale"@, buffers[1]));
    assert(holds_tensor(resident, buffers, 1, "mtp.0.hc_attn_scale"@));
    assert(passed_at(args, 8, "hc_base"@, buffers[2]));
    assert(holds_tensor(resident, buffers, 2, "mtp.0.hc_attn_base"@));
    assert(passed_at(args, 9, "norm_weight"@, buffers[3]));
    assert(holds_tensor(resident, buffers, 3, "mtp.0.attn_norm.weight"@));
}

/// The entry projects with the main projection of the first block and its scales,
/// and normalizes with its main norm.
pub proof fn law_entry_takes_the_tensors_of_the_first_block(
    step: GraphCapture,
    weights: EntryWeights,
    rows: usize,
    norm_eps_bits: u32,
    resident: Seq<ResidentWeight>,
    buffers: Seq<Ds41rtDeviceBuffer>,
    storage: DeepseekV4DsparkDeviceStorage,
)
    requires
        entry_step_ok(step, storage, weights, rows, norm_eps_bits),
        weights_are(resident, entry_weight_list(storage.plan.variant)),
        weights.list() == buffers,
    ensures
        ({
            let args = step.buffers@;
            &&& args.len() == 5
            &&& takes_tensor(
                args,
                "main_proj_weight"@,
                resident,
                buffers,
                "mtp.0.main_proj.weight"@,
            )
            &&& takes_tensor(
                args,
                "main_proj_scale"@,
                resident,
                buffers,
                "mtp.0.main_proj.scale"@,
            )
            &&& step.norm is Some
            &&& holds_tensor(resident, buffers, 2, "mtp.0.main_norm.weight"@)
            &&& step.norm->Some_0.weight == buffers[2]
        }),
{
    let args = step.buffers@;
    assert(passed_at(args, 1, "main_proj_weight"@, buffers[0]));
    assert(holds_tensor(resident, buffers, 0, "mtp.0.main_proj.weight"@));
    assert(passed_at(args, 2, "main_proj_scale"@, buffers[1]));
    assert(holds_tensor(resident, buffers, 1, "mtp.0.main_proj.scale"@));
}

/// The head scores with the shared head of the model and with the Markov and
/// confidence heads of the last block.
pub proof fn law_head_takes_the_tensors_of_the_last_block(
    weights: DeepseekV4DsparkTerminalHeadWeights,
    request_bucket: usize,
    resident: Seq<ResidentWeight>,
    buffers: Seq<Ds41rtDeviceBuffer>,
    storage: DeepseekV4DsparkDeviceStorage,
)
    requires
        weights_are(resident, terminal_head_weight_list(storage.plan.variant)),
        weights.list() == buffers,
    ensures
        ({
            let head = terminal_head_launch(storage, request_bucket, weights);
            &&& holds_tensor(resident, buffers, 0, "head.weight"@)
            &&& head.shared_head == buffers[0]
            &&& holds_tensor(resident, buffers, 1, "mtp.2.markov_head.markov_w1.weight"@)
            &&& head.markov_w1 == buffers[1]
            &&& holds_tensor(resident, buffers, 2, "mtp.2.markov_head.markov_w2.weight"@)
            &&& head.markov_w2 == buffers[2]
            &&& holds_tensor(resident, buffers, 3, "mtp.2.confidence_head.proj.weight"@)
            &&& head.confidence_weight == buffers[3]
        }),
{
}

/// Every scaled projection of a block has one scale for every 128 by 128 of its
/// values, and the lengths of the projections chain: the query goes through its
/// rank, the output through its groups, and both norms have the widths that they
/// normalize.
pub proof fn law_attention_tensors_have_matching_lengths(
    variant: DsparkVariant,
    block: int,
    resident: Seq<ResidentWeight>,
)
    requires
        weights_are(resident, block_attention_weight_list(variant, block)),
    ensures
        resident[0].bytes == 16_384 * resident[1].bytes,
        resident[2].bytes == 16_384 * resident[3].bytes,
        resident[4].bytes == 16_384 * resident[5].bytes,
        resident[8].bytes == 16_384 * resident[9].bytes,
        resident[10].bytes == 16_384 * resident[11].bytes,
        // The query rank, in two-byte values, times the hidden width.
        4 * resident[0].bytes == resident[6].bytes * resident[16].bytes,
        // One four-byte sink per head of 512 values, times the query rank.
        8 * resident[2].bytes == (resident[12].bytes * 512) * resident[6].bytes,
        // The key and value width times the hidden width.
        4 * resident[4].bytes == resident[7].bytes * resident[16].bytes,
        resident[7].bytes == 2 * 512,
        // All heads, projected to a rank of 1024 group by group.
        4 * resident[8].bytes == 1_024 * (resident[12].bytes * 512),
        // The mixing of four lanes: 24 rows of four-byte values.
        resident[13].bytes == 24 * 4 * 4 * (resident[16].bytes as int / 2),
        resident[14].bytes == 3 * 4,
        resident[15].bytes == 24 * 4,
        resident[16].bytes == 2 * variant.hidden_spec(),
{
    let geometry = attention_geometry(variant);
    let group = (geometry.heads / geometry.output_groups) * 512;
    let projected = geometry.output_groups * 1_024;
    match variant {
        DsparkVariant::Flash => {
            assert(1024 * 4096 == 4194304int) by (nonlinear_arith);
            assert(resident[0].bytes == 4194304);
            assert(resident[1].bytes == 256);
            assert(32768 * 1024 == 33554432int) by (nonlinear_arith);
            assert(resident[2].bytes == 33554432);
            assert(resident[3].bytes == 2048);
            assert(resident[4].bytes == 2097152);
            assert(resident[5].bytes == 128);
            assert(resident[6].bytes == 2048);
            assert(resident[7].bytes == 1024);
            assert(64int / 8 == 8 && 128int / 16 == 8);
            assert(group == 4096 && projected == 8192);
            assert(projected * group == 33554432) by (nonlinear_arith)
                requires
                    group == 4096,
                    projected == 8192,
            ;
            assert((projected + 127) / 128 == 64 && (group + 127) / 128 == 32);
            assert(resident[8].bytes == 33554432);
            assert(resident[9].bytes == 2048);
            assert(4096 * 8192 == 33554432int) by (nonlinear_arith);
            assert(resident[10].bytes == 33554432);
            assert(resident[11].bytes == 2048);
            assert(resident[12].bytes == 256);
            assert(resident[13].bytes == 1572864);
            assert(resident[14].bytes == 12);
            assert(resident[15].bytes == 96);
            assert(resident[16].bytes == 8192);
        },
        DsparkVariant::Pro => {
            assert(1536 * 7168 == 11010048int) by (nonlinear_arith);
            assert(resident[0].bytes == 11010048);
            assert((1_536int + 127) / 128 == 12 && (7_168int + 127) / 128 == 56);
            assert(resident[1].bytes == 672);
            assert(65536 * 1536 == 100663296int) by (nonlinear_arith);
            assert(resident[2].bytes == 100663296);
            assert(resident[3].bytes == 6144);
            assert(resident[4].bytes == 3670016);
            assert(resident[5].bytes == 224);
            assert(resident[6].bytes == 3072);
            assert(resident[7].bytes == 1024);
            assert(64int / 8 == 8 && 128int / 16 == 8);
            assert(group == 4096 && projected == 16384);
            assert(projected * group == 67108864) by (nonlinear_arith)
                requires
                    group == 4096,
                    projected == 16384,
            ;
            assert((projected + 127) / 128 == 128 && (group + 127) / 128 == 32);
            assert(resident[8].bytes == 67108864);
            assert(resident[9].bytes == 4096);
            assert(7168 * 16384 == 117440512int) by (nonlinear_arith);
            assert(resident[10].bytes == 117440512);
            assert(resident[11].bytes == 7168);
            assert(resident[12].bytes == 512);
            assert(resident[13].bytes == 2752512);
            assert(resident[14].bytes == 12);
            assert(resident[15].bytes == 96);
            assert(resident[16].bytes == 14336);
        },
    }
}

/// A keyword of a graph has a value.
pub open spec fn told_at(
    keywords: Seq<Keyword>,
    i: int,
    name: Seq<char>,
    value: KeywordView,
) -> bool {
    0 <= i < keywords.len() && keywords[i].name@ == name && keywords[i].value@ == value
}

/// A graph is told a value under a name.
pub open spec fn told(keywords: Seq<Keyword>, name: Seq<char>, value: KeywordView) -> bool {
    exists|i: int| #[trigger] told_at(keywords, i, name, value)
}

/// The graph is told the variant and the limits that its storage was planned
/// with.
pub open spec fn told_the_plan(
    keywords: Seq<Keyword>,
    storage: DeepseekV4DsparkDeviceStorage,
    rows_name: Seq<char>,
) -> bool {
    &&& told(keywords, "variant"@, KeywordView::Str(storage.plan.variant.label_text()))
    &&& told(keywords, "max_batch"@, KeywordView::Usize(storage.plan.max_batch))
    &&& told(keywords, rows_name, KeywordView::Usize(storage.plan.max_main_rows))
}

/// The graph is told how rows are normalized and lanes are mixed; its own norm
/// uses the epsilon of all norms.
pub open spec fn told_the_epsilons(keywords: Seq<Keyword>, parameters: GraphParameters) -> bool {
    &&& told(keywords, "rms_eps"@, KeywordView::Fraction(parameters.rms_eps_bits))
    &&& told(keywords, "norm_eps"@, KeywordView::Fraction(parameters.rms_eps_bits))
    &&& told(keywords, "hc_eps"@, KeywordView::Fraction(parameters.hc_eps_bits))
}

/// An entry graph is captured for the rows that its key names.
pub proof fn law_entry_graph_is_told_its_rows(
    step: GraphCapture,
    weights: EntryWeights,
    rows: usize,
    norm_eps_bits: u32,
    storage: DeepseekV4DsparkDeviceStorage,
)
    requires
        entry_step_ok(step, storage, weights, rows, norm_eps_bits),
    ensures
        step.keywords@.len() == 4,
        told_the_plan(step.keywords@, storage, "max_rows"@),
        step.key matches GraphKey::Entry { rows: named } && told(
            step.keywords@,
            "rows"@,
            KeywordView::Usize(named),
        ) && named == rows,
{
    let keywords = step.keywords@;
    assert(told_at(keywords, 0, "variant"@, KeywordView::Str(storage.plan.variant.label_text())));
    assert(told_at(keywords, 1, "rows"@, KeywordView::Usize(rows)));
    assert(told_at(keywords, 2, "max_rows"@, KeywordView::Usize(storage.plan.max_main_rows)));
    assert(told_at(keywords, 3, "max_batch"@, KeywordView::Usize(storage.plan.max_batch)));
}

/// A prompt graph is captured for the block and the rows that its key names, and
/// for the format of the pages of its storage.
pub proof fn law_prompt_graph_is_told_its_block_and_rows(
    step: GraphCapture,
    weights: PromptWeights,
    block: usize,
    rows: usize,
    producer_eps_bits: u32,
    rope_theta_bits: u32,
    storage: DeepseekV4DsparkDeviceStorage,
)
    requires
        prompt_step_ok(step, storage, weights, block, rows, producer_eps_bits, rope_theta_bits),
    ensures
        step.keywords@.len() == 7,
        told_the_plan(step.keywords@, storage, "max_rows"@),
        step.key matches GraphKey::PromptPrime { block_index, rows: named } && told(
            step.keywords@,
            "block_index"@,
            KeywordView::Usize(block_index),
        ) && told(step.keywords@, "rows"@, KeywordView::Usize(named)) && block_index == block
            && named == rows,
        told(step.keywords@, "cache_format"@, KeywordView::Str(storage.plan.cache_label@)),
        told(step.keywords@, "producer_eps"@, KeywordView::Fraction(producer_eps_bits)),
{
    let keywords = step.keywords@;
    assert(told_at(keywords, 0, "variant"@, KeywordView::Str(storage.plan.variant.label_text())));
    assert(told_at(keywords, 1, "block_index"@, KeywordView::Usize(block)));
    assert(told_at(keywords, 2, "rows"@, KeywordView::Usize(rows)));
    assert(told_at(keywords, 3, "max_rows"@, KeywordView::Usize(storage.plan.max_main_rows)));
    assert(told_at(keywords, 4, "max_batch"@, KeywordView::Usize(storage.plan.max_batch)));
    assert(told_at(keywords, 5, "cache_format"@, KeywordView::Str(storage.plan.cache_label@)));
    assert(told_at(keywords, 6, "producer_eps"@, KeywordView::Fraction(producer_eps_bits)));
}

/// The proposal entry of a slot is captured with the parameters of the model.
pub proof fn law_proposal_entry_is_told_its_parameters(
    step: GraphCapture,
    weights: ProposalEntryWeights,
    parameters: GraphParameters,
    slot: usize,
    storage: DeepseekV4DsparkDeviceStorage,
)
    requires
        proposal_step_ok(step, storage, weights, parameters, slot),
    ensures
        step.keywords@.len() == 7,
        told_the_plan(step.keywords@, storage, "max_main_rows"@),
        told_the_epsilons(step.keywords@, parameters),
        told(step.keywords@, "sinkhorn_iters"@, KeywordView::Usize(parameters.sinkhorn_iters)),
        step.key == (GraphKey::ProposalEntry { request_slot: slot }),
{
    let keywords = step.keywords@;
    assert(told_at(keywords, 0, "variant"@, KeywordView::Str(storage.plan.variant.label_text())));
    assert(told_at(keywords, 1, "max_batch"@, KeywordView::Usize(storage.plan.max_batch)));
    assert(told_at(keywords, 2, "max_main_rows"@, KeywordView::Usize(storage.plan.max_main_rows)));
    assert(told_at(keywords, 3, "rms_eps"@, KeywordView::Fraction(parameters.rms_eps_bits)));
    assert(told_at(keywords, 4, "hc_eps"@, KeywordView::Fraction(parameters.hc_eps_bits)));
    assert(told_at(keywords, 5, "sinkhorn_iters"@, KeywordView::Usize(parameters.sinkhorn_iters)));
    assert(told_at(keywords, 6, "norm_eps"@, KeywordView::Fraction(parameters.rms_eps_bits)));
}

/// The attention of a block is captured for the block that its key names, for the
/// format of the pages, and with the parameters of the model.
pub proof fn law_attention_is_told_its_block_and_parameters(
    step: GraphCapture,
    weights: DeepseekV4DsparkBlockAttentionWeights,
    block: usize,
    parameters: GraphParameters,
    slot: usize,
    storage: DeepseekV4DsparkDeviceStorage,
)
    requires
        attention_step_ok(step, storage, weights, block, parameters, slot),
    ensures
        step.keywords@.len() == 10,
        told_the_plan(step.keywords@, storage, "max_main_rows"@),
        told_the_epsilons(step.keywords@, parameters),
        told(step.keywords@, "sinkhorn_iters"@, KeywordView::Usize(parameters.sinkhorn_iters)),
        told(step.keywords@, "producer_eps"@, KeywordView::Fraction(parameters.producer_eps_bits)),
        told(step.keywords@, "cache_format"@, KeywordView::Str(storage.plan.cache_label@)),
        step.key matches GraphKey::BlockAttention { block_index, request_slot } && told(
            step.keywords@,
            "block_index"@,
            KeywordView::Usize(block_index),
        ) && block_index == block && request_slot == slot,
{
    let keywords = step.keywords@;
    assert(told_at(keywords, 0, "variant"@, KeywordView::Str(storage.plan.variant.label_text())));
    assert(told_at(keywords, 1, "block_index"@, KeywordView::Usize(block)));
    assert(told_at(keywords, 2, "max_batch"@, KeywordView::Usize(storage.plan.max_batch)));
    assert(told_at(keywords, 3, "max_main_rows"@, KeywordView::Usize(storage.plan.max_main_rows)));
    assert(told_at(keywords, 4, "cache_format"@, KeywordView::Str(storage.plan.cache_label@)));
    assert(told_at(keywords, 5, "producer_eps"@, KeywordView::Fraction(parameters.producer_eps_bits)));
    assert(told_at(keywords, 6, "rms_eps"@, KeywordView::Fraction(parameters.rms_eps_bits)));
    assert(told_at(keywords, 7, "hc_eps"@, KeywordView::Fraction(parameters.hc_eps_bits)));
    assert(told_at(keywords, 8, "sinkhorn_iters"@, KeywordView::Usize(parameters.sinkhorn_iters)));
    assert(told_at(keywords, 9, "norm_eps"@, KeywordView::Fraction(parameters.rms_eps_bits)));
}

/// What follows the experts of a block is captured for the block that its key
/// names and with the parameters of the model.
pub proof fn law_post_dispatch_is_told_its_block_and_parameters(
    step: GraphCapture,
    weights: DeepseekV4DsparkBlockPostDispatchWeights,
    block: usize,
    parameters: GraphParameters,
    slot: usize,
    storage: DeepseekV4DsparkDeviceStorage,
)
    requires
        post_dispatch_step_ok(step, storage, weights, block, parameters, slot),
    ensures
        step.keywords@.len() == 8,
        told_the_plan(step.keywords@, storage, "max_main_rows"@),
        told_the_epsilons(step.keywords@, parameters),
        told(step.keywords@, "sinkhorn_iters"@, KeywordView::Usize(parameters.sinkhorn_iters)),
        step.key matches GraphKey::BlockPostDispatch { block_index, request_slot } && told(
            step.keywords@,
            "block_index"@,
            KeywordView::Usize(block_index),
        ) && block_index == block && request_slot == slot,
{
    let keywords = step.keywords@;
    assert(told_at(keywords, 0, "variant"@, KeywordView::Str(storage.plan.variant.label_text())));
    assert(told_at(keywords, 1, "block_index"@, KeywordView::Usize(block)));
    assert(told_at(keywords, 2, "max_batch"@, KeywordView::Usize(storage.plan.max_batch)));
    assert(told_at(keywords, 3, "max_main_rows"@, KeywordView::Usize(storage.plan.max_main_rows)));
    assert(told_at(keywords, 4, "rms_eps"@, KeywordView::Fraction(parameters.rms_eps_bits)));
    assert(told_at(keywords, 5, "hc_eps"@, KeywordView::Fraction(parameters.hc_eps_bits)));
    assert(told_at(keywords, 6, "sinkhorn_iters"@, KeywordView::Usize(parameters.sinkhorn_iters)));
    assert(told_at(keywords, 7, "norm_eps"@, KeywordView::Fraction(parameters.rms_eps_bits)));
}

/// The collapse of a slot is captured with the parameters of the model; it mixes
/// without iterating.
pub proof fn law_collapse_is_told_its_parameters(
    step: GraphCapture,
    weights: DeepseekV4DsparkTerminalCollapseWeights,
    parameters: GraphParameters,
    slot: usize,
    storage: DeepseekV4DsparkDeviceStorage,
)
    requires
        collapse_step_ok(step, storage, weights, parameters, slot),
    ensures
        step.keywords@.len() == 6,
        told_the_plan(step.keywords@, storage, "max_main_rows"@),
        told_the_epsilons(step.keywords@, parameters),
        step.key == (GraphKey::TerminalCollapse { request_slot: slot }),
{
    let keywords = step.keywords@;
    assert(told_at(keywords, 0, "variant"@, KeywordView::Str(storage.plan.variant.label_text())));
    assert(told_at(keywords, 1, "max_batch"@, KeywordView::Usize(storage.plan.max_batch)));
    assert(told_at(keywords, 2, "max_main_rows"@, KeywordView::Usize(storage.plan.max_main_rows)));
    assert(told_at(keywords, 3, "rms_eps"@, KeywordView::Fraction(parameters.rms_eps_bits)));
    assert(told_at(keywords, 4, "hc_eps"@, KeywordView::Fraction(parameters.hc_eps_bits)));
    assert(told_at(keywords, 5, "norm_eps"@, KeywordView::Fraction(parameters.rms_eps_bits)));
}

} // verus!
