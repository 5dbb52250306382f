//! The arguments of captured kernels: named device buffers and keyword values.
use vstd::prelude::*;

use crate::device::Ds41rtDeviceBuffer;
use crate::dspark::storage::{
    DeepseekV4DsparkEntryDeviceBuffers, DeepseekV4DsparkProposalDeviceBuffers,
};
use crate::dspark::weights::{
    DeepseekV4DsparkBlockAttentionWeights, DeepseekV4DsparkBlockPostDispatchWeights,
    DeepseekV4DsparkTerminalCollapseWeights, EntryWeights, PromptWeights, ProposalEntryWeights,
};

verus! {

/// The kernel that writes the positions, the cache slots and the rotary table of
/// `rows` prompt rows. The bit pattern of the rotary base is that of a 32-bit
/// floating-point value.
#[derive(Clone, Copy, Debug, PartialEq, Eq, Structural)]
pub struct PromptMetadataLaunch {
    pub positions: Ds41rtDeviceBuffer,
    pub main_slots: Ds41rtDeviceBuffer,
    pub cos_sin: Ds41rtDeviceBuffer,
    pub absolute_position_start: usize,
    pub request_slot: usize,
    pub rows: usize,
    pub rope_theta_bits: u32,
}

/// The kernel that normalizes `rows` rows of `hidden` values.
#[derive(Clone, Copy, Debug, PartialEq, Eq, Structural)]
pub struct RmsNormLaunch {
    pub input: Ds41rtDeviceBuffer,
    pub weight: Ds41rtDeviceBuffer,
    pub output: Ds41rtDeviceBuffer,
    pub rows: usize,
    pub hidden: usize,
    pub eps_bits: u32,
}


/// A named device buffer.
#[derive(Clone, Copy, Debug)]
pub struct PythonDeviceBufferArg {
    pub name: &'static str,
    pub ptr: usize,
    pub bytes: usize,
    pub device_id: i32,
    pub flags: u32,
}

/// The argument passes a buffer under a name.
pub open spec fn arg_is(
    arg: PythonDeviceBufferArg,
    name: Seq<char>,
    buffer: Ds41rtDeviceBuffer,
) -> bool {
    &&& arg.name@ == name
    &&& arg.ptr == buffer.ptr
    &&& arg.bytes == buffer.bytes
    &&& arg.device_id == buffer.device_id
    &&& arg.flags == buffer.flags
}

/// The arguments pass these buffers under these names, in order.
pub open spec fn args_are(
    args: Seq<PythonDeviceBufferArg>,
    expected: Seq<(Seq<char>, Ds41rtDeviceBuffer)>,
) -> bool {
    &&& args.len() == expected.len()
    &&& forall|i: int|
        #![trigger args[i]]
        0 <= i < args.len() ==> arg_is(args[i], expected[i].0, expected[i].1)
}

/// The argument that passes a buffer under a name.
pub fn python_device_buffer(name: &'static str, buffer: Ds41rtDeviceBuffer) -> (arg:
    PythonDeviceBufferArg)
    ensures
        arg_is(arg, name@, buffer),
{
    PythonDeviceBufferArg {
        name,
        ptr: buffer.ptr,
        bytes: buffer.bytes,
        device_id: buffer.device_id,
        flags: buffer.flags,
    }
}

/// The value of a keyword. A fraction is the bit pattern of a 32-bit
/// floating-point value.
#[derive(Clone, Copy, Debug)]
pub enum PythonKernelArg {
    Str { text: &'static str },
    Usize { value: usize },
    Fraction { bits: u32 },
}

/// A keyword and its value.
#[derive(Clone, Copy, Debug)]
pub struct Keyword {
    pub name: &'static str,
    pub value: PythonKernelArg,
}

/// What a keyword argument says.
pub enum KeywordView {
    Str(Seq<char>),
    Usize(usize),
    Fraction(u32),
}

impl PythonKernelArg {
    pub open spec fn view(&self) -> KeywordView {
        match *self {
            PythonKernelArg::Str { text } => KeywordView::Str(text@),
            PythonKernelArg::Usize { value } => KeywordView::Usize(value),
            PythonKernelArg::Fraction { bits } => KeywordView::Fraction(bits),
        }
    }
}

/// The keywords have these names and values, in order.
pub open spec fn keywords_are(
    keywords: Seq<Keyword>,
    expected: Seq<(Seq<char>, KeywordView)>,
) -> bool {
    &&& keywords.len() == expected.len()
    &&& forall|i: int|
        #![trigger keywords[i]]
        0 <= i < keywords.len() ==> keywords[i].name@ == expected[i].0 && keywords[i].value@
            == expected[i].1
}

/// A keyword with a text.
pub fn text_keyword(name: &'static str, text: &'static str) -> (keyword: Keyword)
    ensures
        keyword.name@ == name@,
        keyword.value@ == KeywordView::Str(text@),
{
    Keyword { name, value: PythonKernelArg::Str { text } }
}

/// A keyword with a size.
pub fn size_keyword(name: &'static str, value: usize) -> (keyword: Keyword)
    ensures
        keyword.name@ == name@,
        keyword.value@ == KeywordView::Usize(value),
{
    Keyword { name, value: PythonKernelArg::Usize { value } }
}

/// A keyword with a fraction.
pub fn fraction_keyword(name: &'static str, bits: u32) -> (keyword: Keyword)
    ensures
        keyword.name@ == name@,
        keyword.value@ == KeywordView::Fraction(bits),
{
    Keyword { name, value: PythonKernelArg::Fraction { bits } }
}

/// The buffers of the entry projection.
pub open spec fn entry_args(
    entry: DeepseekV4DsparkEntryDeviceBuffers,
    weights: EntryWeights,
) -> Seq<(Seq<char>, Ds41rtDeviceBuffer)> {
    seq![
        ("target_tap_concat"@, entry.target_tap_concat),
        ("main_proj_weight"@, weights.main_proj_weight),
        ("main_proj_scale"@, weights.main_proj_scale),
        ("projection_scratch"@, entry.projection_scratch),
        ("projected_target_main"@, entry.projected_target_main),
    ]
}

/// The buffers of the entry projection.
pub fn dspark_entry_python_buffers(
    entry: &DeepseekV4DsparkEntryDeviceBuffers,
    weights: &EntryWeights,
) -> (args: Vec<PythonDeviceBufferArg>)
    ensures
        args_are(args@, entry_args(*entry, *weights)),
{
    vec![
        python_device_buffer("target_tap_concat", entry.target_tap_concat),
        python_device_buffer("main_proj_weight", weights.main_proj_weight),
        python_device_buffer("main_proj_scale", weights.main_proj_scale),
        python_device_buffer("projection_scratch", entry.projection_scratch),
        python_device_buffer("projected_target_main", entry.projected_target_main),
    ]
}

/// The buffers of the prompt graphs of one block.
pub open spec fn prompt_args(
    entry: DeepseekV4DsparkEntryDeviceBuffers,
    main_kv_cache: Ds41rtDeviceBuffer,
    weights: PromptWeights,
) -> Seq<(Seq<char>, Ds41rtDeviceBuffer)> {
    seq![
        ("projected_target_main"@, entry.projected_target_main),
        ("positions"@, entry.prompt_positions),
        ("main_slots"@, entry.prompt_main_slots),
        ("cos_sin_cache"@, entry.prompt_cos_sin),
        ("main_kv_cache"@, main_kv_cache),
        ("producer_scratch"@, entry.kv_producer_scratch),
        ("wkv_weight"@, weights.wkv_weight),
        ("wkv_scale"@, weights.wkv_scale),
        ("kv_norm_weight"@, weights.kv_norm_weight),
    ]
}

/// The buffers of the prompt graphs of one block.
pub fn dspark_prompt_python_buffers(
    entry: &DeepseekV4DsparkEntryDeviceBuffers,
    main_kv_cache: Ds41rtDeviceBuffer,
    weights: &PromptWeights,
) -> (args: Vec<PythonDeviceBufferArg>)
    ensures
        args_are(args@, prompt_args(*entry, main_kv_cache, *weights)),
{
    vec![
        python_device_buffer("projected_target_main", entry.projected_target_main),
        python_device_buffer("positions", entry.prompt_positions),
        python_device_buffer("main_slots", entry.prompt_main_slots),
        python_device_buffer("cos_sin_cache", entry.prompt_cos_sin),
        python_device_buffer("main_kv_cache", main_kv_cache),
        python_device_buffer("producer_scratch", entry.kv_producer_scratch),
        python_device_buffer("wkv_weight", weights.wkv_weight),
        python_device_buffer("wkv_scale", weights.wkv_scale),
        python_device_buffer("kv_norm_weight", weights.kv_norm_weight),
    ]
}

/// The buffers of the proposal entry of one request.
pub open spec fn proposal_entry_args(
    workspace: Ds41rtDeviceBuffer,
    proposal_embedding: Ds41rtDeviceBuffer,
    proposal: DeepseekV4DsparkProposalDeviceBuffers,
    weights: ProposalEntryWeights,
) -> Seq<(Seq<char>, Ds41rtDeviceBuffer)> {
    seq![
        ("scratch"@, workspace),
        ("residual_input"@, proposal_embedding),
        ("residual_output"@, proposal.residual_pong),
        ("normalized_output"@, proposal.collapsed_hidden),
        ("post_output"@, proposal.post_ping),
        ("comb_output"@, proposal.comb_ping),
        ("hc_fn"@, weights.hc_fn),
        ("hc_scale"@, weights.hc_scale),
        ("hc_base"@, weights.hc_base),
        ("norm_weight"@, weights.norm_weight),
    ]
}

/// The buffers of the proposal entry of one request.
pub fn dspark_proposal_entry_python_buffers(
    workspace: Ds41rtDeviceBuffer,
    proposal_embedding: Ds41rtDeviceBuffer,
    proposal: &DeepseekV4DsparkProposalDeviceBuffers,
    weights: &ProposalEntryWeights,
) -> (args: Vec<PythonDeviceBufferArg>)
    ensures
        args_are(
            args@,
            proposal_entry_args(workspace, proposal_embedding, *proposal, *weights),
        ),
{
    vec![
        python_device_buffer("scratch", workspace),
        python_device_buffer("residual_input", proposal_embedding),
        python_device_buffer("residual_output", proposal.residual_pong),
        python_device_buffer("normalized_output", proposal.collapsed_hidden),
        python_device_buffer("post_output", proposal.post_ping),
        python_device_buffer("comb_output", proposal.comb_ping),
        python_device_buffer("hc_fn", weights.hc_fn),
        python_device_buffer("hc_scale", weights.hc_scale),
        python_device_buffer("hc_base", weights.hc_base),
        python_device_buffer("norm_weight", weights.norm_weight),
    ]
}

/// The buffers of one block's attention for one request.
pub open spec fn block_attention_args(
    workspace: Ds41rtDeviceBuffer,
    main_kv_cache: Ds41rtDeviceBuffer,
    proposal: DeepseekV4DsparkProposalDeviceBuffers,
    weights: DeepseekV4DsparkBlockAttentionWeights,
) -> Seq<(Seq<char>, Ds41rtDeviceBuffer)> {
    seq![
        ("workspace"@, workspace),
        ("hidden_states"@, proposal.collapsed_hidden),
        ("positions"@, proposal.positions),
        ("main_slots"@, proposal.main_slots),
        ("cos_sin_cache"@, proposal.cos_sin),
        ("main_kv_cache"@, main_kv_cache),
        ("selected_indices"@, proposal.selected_indices),
        ("selected_lengths"@, proposal.selected_lengths),
        ("residual"@, proposal.residual_pong),
        ("prev_post"@, proposal.post_ping),
        ("prev_comb"@, proposal.comb_ping),
        ("residual_out"@, proposal.residual_ping),
        ("post_out"@, proposal.post_pong),
        ("comb_out"@, proposal.comb_pong),
        ("wq_a_weight"@, weights.wq_a_weight),
        ("wq_a_scale"@, weights.wq_a_scale),
        ("wq_b_weight"@, weights.wq_b_weight),
        ("wq_b_scale"@, weights.wq_b_scale),
        ("wkv_weight"@, weights.wkv_weight),
        ("wkv_scale"@, weights.wkv_scale),
        ("q_norm_weight"@, weights.q_norm_weight),
        ("kv_norm_weight"@, weights.kv_norm_weight),
        ("wo_a_weight"@, weights.wo_a_weight),
        ("wo_a_scale"@, weights.wo_a_scale),
        ("wo_b_weight"@, weights.wo_b_weight),
        ("wo_b_scale"@, weights.wo_b_scale),
        ("attn_sink"@, weights.attn_sink),
        ("hc_fn"@, weights.hc_fn),
        ("hc_scale"@, weights.hc_scale),
        ("hc_base"@, weights.hc_base),
        ("norm_weight"@, weights.norm_weight),
    ]
}

/// The buffers of one block's attention for one request.
pub fn dspark_block_attention_python_buffers(
    workspace: Ds41rtDeviceBuffer,
    main_kv_cache: Ds41rtDeviceBuffer,
    proposal: &DeepseekV4DsparkProposalDeviceBuffers,
    weights: &DeepseekV4DsparkBlockAttentionWeights,
) -> (args: Vec<PythonDeviceBufferArg>)
    ensures
        args_are(args@, block_attention_args(workspace, main_kv_cache, *proposal, *weights)),
{
    vec![
        python_device_buffer("workspace", workspace),
        python_device_buffer("hidden_states", proposal.collapsed_hidden),
        python_device_buffer("positions", proposal.positions),
        python_device_buffer("main_slots", proposal.main_slots),
        python_device_buffer("cos_sin_cache", proposal.cos_sin),
        python_device_buffer("main_kv_cache", main_kv_cache),
        python_device_buffer("selected_indices", proposal.selected_indices),
        python_device_buffer("selected_lengths", proposal.selected_lengths),
        python_device_buffer("residual", proposal.residual_pong),
        python_device_buffer("prev_post", proposal.post_ping),
        python_device_buffer("prev_comb", proposal.comb_ping),
        python_device_buffer("residual_out", proposal.residual_ping),
        python_device_buffer("post_out", proposal.post_pong),
        python_device_buffer("comb_out", proposal.comb_pong),
        python_device_buffer("wq_a_weight", weights.wq_a_weight),
        python_device_buffer("wq_a_scale", weights.wq_a_scale),
        python_device_buffer("wq_b_weight", weights.wq_b_weight),
        python_device_buffer("wq_b_scale", weights.wq_b_scale),
        python_device_buffer("wkv_weight", weights.wkv_weight),
        python_device_buffer("wkv_scale", weights.wkv_scale),
        python_device_buffer("q_norm_weight", weights.q_norm_weight),
        python_device_buffer("kv_norm_weight", weights.kv_norm_weight),
        python_device_buffer("wo_a_weight", weights.wo_a_weight),
        python_device_buffer("wo_a_scale", weights.wo_a_scale),
        python_device_buffer("wo_b_weight", weights.wo_b_weight),
        python_device_buffer("wo_b_scale", weights.wo_b_scale),
        python_device_buffer("attn_sink", weights.attn_sink),
        python_device_buffer("hc_fn", weights.hc_fn),
        python_device_buffer("hc_scale", weights.hc_scale),
        python_device_buffer("hc_base", weights.hc_base),
        python_device_buffer("norm_weight", weights.norm_weight),
    ]
}

/// The buffers between one block and the next attention for one request.
pub open spec fn block_post_dispatch_args(
    workspace: Ds41rtDeviceBuffer,
    ffn_delta: Ds41rtDeviceBuffer,
    proposal: DeepseekV4DsparkProposalDeviceBuffers,
    weights: DeepseekV4DsparkBlockPostDispatchWeights,
) -> Seq<(Seq<char>, Ds41rtDeviceBuffer)> {
    seq![
        ("workspace"@, workspace),
        ("ffn_delta"@, ffn_delta),
        ("residual"@, proposal.residual_ping),
        ("prev_post"@, proposal.post_pong),
        ("prev_comb"@, proposal.comb_pong),
        ("residual_out"@, proposal.residual_pong),
        ("hidden_states"@, proposal.collapsed_hidden),
        ("post_out"@, proposal.post_ping),
        ("comb_out"@, proposal.comb_ping),
        ("next_hc_fn"@, weights.next_hc_fn),
        ("next_hc_scale"@, weights.next_hc_scale),
        ("next_hc_base"@, weights.next_hc_base),
        ("next_norm_weight"@, weights.next_norm_weight),
    ]
}

/// The buffers between one block and the next attention for one request.
pub fn dspark_block_post_dispatch_python_buffers(
    workspace: Ds41rtDeviceBuffer,
    ffn_delta: Ds41rtDeviceBuffer,
    proposal: &DeepseekV4DsparkProposalDeviceBuffers,
    weights: &DeepseekV4DsparkBlockPostDispatchWeights,
) -> (args: Vec<PythonDeviceBufferArg>)
    ensures
        args_are(args@, block_post_dispatch_args(workspace, ffn_delta, *proposal, *weights)),
{
    vec![
        python_device_buffer("workspace", workspace),
        python_device_buffer("ffn_delta", ffn_delta),
        python_device_buffer("residual", proposal.residual_ping),
        python_device_buffer("prev_post", proposal.post_pong),
        python_device_buffer("prev_comb", proposal.comb_pong),
        python_device_buffer("residual_out", proposal.residual_pong),
        python_device_buffer("hidden_states", proposal.collapsed_hidden),
        python_device_buffer("post_out", proposal.post_ping),
        python_device_buffer("comb_out", proposal.comb_ping),
        python_device_buffer("next_hc_fn", weights.next_hc_fn),
        python_device_buffer("next_hc_scale", weights.next_hc_scale),
        python_device_buffer("next_hc_base", weights.next_hc_base),
        python_device_buffer("next_norm_weight", weights.next_norm_weight),
    ]
}

/// The buffers of the terminal collapse of one request.
pub open spec fn terminal_collapse_args(
    workspace: Ds41rtDeviceBuffer,
    ffn_delta: Ds41rtDeviceBuffer,
    proposal: DeepseekV4DsparkProposalDeviceBuffers,
    weights: DeepseekV4DsparkTerminalCollapseWeights,
) -> Seq<(Seq<char>, Ds41rtDeviceBuffer)> {
    seq![
        ("workspace"@, workspace),
        ("ffn_delta"@, ffn_delta),
        ("residual"@, proposal.residual_ping),
        ("prev_post"@, proposal.post_pong),
        ("prev_comb"@, proposal.comb_pong),
        ("terminal_residual"@, proposal.residual_pong),
        ("collapsed_hidden"@, proposal.collapsed_hidden),
        ("normalized_hidden"@, proposal.normalized_hidden),
        ("hc_head_fn"@, weights.hc_fn),
        ("hc_head_scale"@, weights.hc_scale),
        ("hc_head_base"@, weights.hc_base),
        ("norm_weight"@, weights.norm_weight),
    ]
}

/// The buffers of the terminal collapse of one request.
pub fn dspark_terminal_collapse_python_buffers(
    workspace: Ds41rtDeviceBuffer,
    ffn_delta: Ds41rtDeviceBuffer,
    proposal: &DeepseekV4DsparkProposalDeviceBuffers,
    weights: &DeepseekV4DsparkTerminalCollapseWeights,
) -> (args: Vec<PythonDeviceBufferArg>)
    ensures
        args_are(args@, terminal_collapse_args(workspace, ffn_delta, *proposal, *weights)),
{
    vec![
        python_device_buffer("workspace", workspace),
        python_device_buffer("ffn_delta", ffn_delta),
        python_device_buffer("residual", proposal.residual_ping),
        python_device_buffer("prev_post", proposal.post_pong),
        python_device_buffer("prev_comb", proposal.comb_pong),
        python_device_buffer("terminal_residual", proposal.residual_pong),
        python_device_buffer("collapsed_hidden", proposal.collapsed_hidden),
        python_device_buffer("normalized_hidden", proposal.normalized_hidden),
        python_device_buffer("hc_head_fn", weights.hc_fn),
        python_device_buffer("hc_head_scale", weights.hc_scale),
        python_device_buffer("hc_head_base", weights.hc_base),
        python_device_buffer("norm_weight", weights.norm_weight),
    ]
}

} // verus!
