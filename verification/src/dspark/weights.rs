//! The resident weights of the drafter: what they are called and how long they
//! are.
use vstd::prelude::*;

use crate::device::Ds41rtDeviceBuffer;
use crate::dspark::entry::DSPARK_HC_MIXES;
use crate::dspark::plan::{
    DsparkVariant, DSPARK_BLOCKS, DSPARK_PROPOSAL_HC_MULT,
};
use crate::dspark::storage::DeepseekV4DsparkDeviceStorage;
use crate::text::{append_size, decimal};

verus! {

/// The width of a key or value vector.
pub const DSPARK_KV_WIDTH: usize = 512;

/// The rank of the output projection of one group.
pub const DSPARK_OUTPUT_RANK: usize = 1_024;

/// The attention geometry of a block: the query rank, the heads and the output
/// groups.
#[derive(Clone, Copy, Debug, PartialEq, Eq, Structural)]
pub struct AttentionGeometry {
    pub query_rank: usize,
    pub heads: usize,
    pub output_groups: usize,
}

pub open spec fn attention_geometry(variant: DsparkVariant) -> AttentionGeometry {
    match variant {
        DsparkVariant::Flash => AttentionGeometry { query_rank: 1_024, heads: 64, output_groups: 8 },
        DsparkVariant::Pro => AttentionGeometry { query_rank: 1_536, heads: 128, output_groups: 16 },
    }
}

/// The attention geometry of a named variant, which is there for "flash" and
/// "pro" alone.
pub fn dspark_block_attention_geometry(variant: &str) -> (geometry: Option<AttentionGeometry>)
    ensures
        geometry == (if variant@ == "flash"@ {
            Some(attention_geometry(DsparkVariant::Flash))
        } else if variant@ == "pro"@ {
            Some(attention_geometry(DsparkVariant::Pro))
        } else {
            None
        }),
{
    match DsparkVariant::from_label(variant) {
        Some(variant) => Some(geometry_of(variant)),
        None => None,
    }
}

fn geometry_of(variant: DsparkVariant) -> (geometry: AttentionGeometry)
    ensures
        geometry == attention_geometry(variant),
{
    match variant {
        DsparkVariant::Flash => AttentionGeometry { query_rank: 1_024, heads: 64, output_groups: 8 },
        DsparkVariant::Pro => AttentionGeometry { query_rank: 1_536, heads: 128, output_groups: 16 },
    }
}

/// A weight that is looked up by name and has to have a length.
#[derive(Debug)]
pub struct ResidentWeight {
    pub name: String,
    pub bytes: usize,
}

/// The weights have these names and lengths.
pub open spec fn weights_are(
    weights: Seq<ResidentWeight>,
    expected: Seq<(Seq<char>, int)>,
) -> bool {
    &&& weights.len() == expected.len()
    &&& forall|i: int|
        #![trigger weights[i]]
        0 <= i < weights.len() ==> weights[i].name@ == expected[i].0 && weights[i].bytes
            == expected[i].1
}

/// The name of a weight of a block.
pub open spec fn block_weight_name(block: int, suffix: Seq<char>) -> Seq<char> {
    "mtp."@ + decimal(block as nat) + "."@ + suffix
}

/// The scale tiles of a matrix, 128 by 128 values each.
pub open spec fn scale_tiles(rows: int, columns: int) -> int {
    ((rows + 127) / 128) * ((columns + 127) / 128)
}

/// The weights of a block's attention and of the norm before its experts.
pub open spec fn block_attention_weight_list(variant: DsparkVariant, block: int) -> Seq<
    (Seq<char>, int),
> {
    let geometry = attention_geometry(variant);
    let hidden = variant.hidden_spec();
    let query_width = geometry.heads * 512;
    let group_width = (geometry.heads / geometry.output_groups) * 512;
    let projected = geometry.output_groups * 1_024;
    seq![
        (
            block_weight_name(block, "attn.wq_a.weight"@),
            geometry.query_rank * hidden,
        ),
        (
            block_weight_name(block, "attn.wq_a.scale"@),
            scale_tiles(geometry.query_rank as int, hidden),
        ),
        (
            block_weight_name(block, "attn.wq_b.weight"@),
            query_width * geometry.query_rank,
        ),
        (
            block_weight_name(block, "attn.wq_b.scale"@),
            scale_tiles(query_width, geometry.query_rank as int),
        ),
        (block_weight_name(block, "attn.wkv.weight"@), 512 * hidden),
        (block_weight_name(block, "attn.wkv.scale"@), scale_tiles(512, hidden)),
        (block_weight_name(block, "attn.q_norm.weight"@), geometry.query_rank * 2),
        (block_weight_name(block, "attn.kv_norm.weight"@), 1_024),
        (block_weight_name(block, "attn.wo_a.weight"@), projected * group_width),
        (block_weight_name(block, "attn.wo_a.scale"@), scale_tiles(projected, group_width)),
        (block_weight_name(block, "attn.wo_b.weight"@), hidden * projected),
        (block_weight_name(block, "attn.wo_b.scale"@), scale_tiles(hidden, projected)),
        (block_weight_name(block, "attn.attn_sink"@), geometry.heads * 4),
        (block_weight_name(block, "hc_ffn_fn"@), 384 * hidden),
        (block_weight_name(block, "hc_ffn_scale"@), 12),
        (block_weight_name(block, "hc_ffn_base"@), 96),
        (block_weight_name(block, "ffn_norm.weight"@), hidden * 2),
    ]
}

/// The weights that carry a block's output into the attention of the next one.
pub open spec fn block_post_dispatch_weight_list(variant: DsparkVariant, block: int) -> Seq<
    (Seq<char>, int),
> {
    let hidden = variant.hidden_spec();
    seq![
        (block_weight_name(block + 1, "hc_attn_fn"@), 384 * hidden),
        (block_weight_name(block + 1, "hc_attn_scale"@), 12),
        (block_weight_name(block + 1, "hc_attn_base"@), 96),
        (block_weight_name(block + 1, "attn_norm.weight"@), hidden * 2),
    ]
}

/// The weights that collapse the residual lanes after the last block.
pub open spec fn terminal_collapse_weight_list(variant: DsparkVariant) -> Seq<(Seq<char>, int)> {
    let hidden = variant.hidden_spec();
    seq![
        ("mtp.2.hc_head_fn"@, 64 * hidden),
        ("mtp.2.hc_head_scale"@, 4),
        ("mtp.2.hc_head_base"@, 16),
        ("mtp.2.norm.weight"@, hidden * 2),
    ]
}

/// The weights of the terminal head.
pub open spec fn terminal_head_weight_list(variant: DsparkVariant) -> Seq<(Seq<char>, int)> {
    let hidden = variant.hidden_spec();
    let rank = variant.markov_rank_spec();
    seq![
        ("head.weight"@, 258_560 * hidden),
        ("mtp.2.markov_head.markov_w1.weight"@, 258_560 * rank),
        ("mtp.2.markov_head.markov_w2.weight"@, 258_560 * rank),
        ("mtp.2.confidence_head.proj.weight"@, (hidden + rank) * 2),
    ]
}

/// The weights of the entry projection.
pub open spec fn entry_weight_list(variant: DsparkVariant) -> Seq<(Seq<char>, int)> {
    let hidden = variant.hidden_spec();
    seq![
        ("mtp.0.main_proj.weight"@, hidden * (3 * hidden)),
        ("mtp.0.main_proj.scale"@, scale_tiles(hidden, 3 * hidden)),
        ("mtp.0.main_norm.weight"@, hidden * 2),
    ]
}

/// The weights that produce the keys and values of a prompt for one block.
pub open spec fn prompt_weight_list(variant: DsparkVariant, block: int) -> Seq<(Seq<char>, int)> {
    let hidden = variant.hidden_spec();
    seq![
        (block_weight_name(block, "attn.wkv.weight"@), 512 * hidden),
        (block_weight_name(block, "attn.wkv.scale"@), scale_tiles(512, hidden)),
        (block_weight_name(block, "attn.kv_norm.weight"@), 1_024),
    ]
}

/// The weights of the proposal entry. The first is the mixing function of the
/// first block with its repeated lanes summed.
pub open spec fn proposal_entry_weight_list(variant: DsparkVariant) -> Seq<(Seq<char>, int)> {
    let hidden = variant.hidden_spec();
    seq![
        ("ds41rt#deepseek-v4-dspark-block0-hc-attn-fn-lane-sum"@, 96 * hidden),
        ("mtp.0.hc_attn_scale"@, 12),
        ("mtp.0.hc_attn_base"@, 96),
        ("mtp.0.attn_norm.weight"@, hidden * 2),
    ]
}

/// A block that is asked for does not exist.
#[derive(Clone, Copy, Debug, PartialEq, Eq, Structural)]
pub enum BlockWeightError {
    AttentionBlock { block: usize },
    PostDispatchBlock { block: usize },
}

impl BlockWeightError {
    pub open spec fn text(self) -> Seq<char> {
        match self {
            BlockWeightError::AttentionBlock { block } =>
                "integrated dSpark attention block index "@ + decimal(block as nat)
                + " is out of range"@,
            BlockWeightError::PostDispatchBlock { block } =>
                "integrated dSpark post-dispatch block index "@ + decimal(block as nat)
                + " has no next attention block"@,
        }
    }

    pub fn message(&self) -> (out: String)
        ensures
            out@ == self.text(),
    {
        match *self {
            BlockWeightError::AttentionBlock { block } => {
                let mut out: String = "integrated dSpark attention block index ".to_owned();
                append_size(&mut out, block);
                out.append(" is out of range");
                out
            },
            BlockWeightError::PostDispatchBlock { block } => {
                let mut out: String = "integrated dSpark post-dispatch block index ".to_owned();
                append_size(&mut out, block);
                out.append(" has no next attention block");
                out
            },
        }
    }
}

fn block_weight(block: usize, suffix: &str, bytes: usize) -> (weight: ResidentWeight)
    ensures
        weight.name@ == block_weight_name(block as int, suffix@),
        weight.bytes == bytes,
{
    let mut name: String = "mtp.".to_owned();
    append_size(&mut name, block);
    name.append(".");
    name.append(suffix);
    ResidentWeight { name, bytes }
}

fn named_weight(name: &str, bytes: usize) -> (weight: ResidentWeight)
    ensures
        weight.name@ == name@,
        weight.bytes == bytes,
{
    ResidentWeight { name: name.to_owned(), bytes }
}

fn tiles(rows: usize, columns: usize) -> (count: usize)
    requires
        rows <= 65_536,
        columns <= 65_536,
    ensures
        count == scale_tiles(rows as int, columns as int),
{
    let high: usize = (rows + 127) / 128;
    let wide: usize = (columns + 127) / 128;
    assert(0 <= high * wide <= 512 * 512) by (nonlinear_arith)
        requires
            0 <= high <= 512,
            0 <= wide <= 512,
    ;
    high * wide
}

fn area(rows: usize, columns: usize) -> (count: usize)
    requires
        rows <= 65_536,
        columns <= 32_768,
    ensures
        count == rows * columns,
{
    assert(0 <= rows * columns <= 65_536 * 32_768) by (nonlinear_arith)
        requires
            0 <= rows <= 65_536,
            0 <= columns <= 32_768,
    ;
    rows * columns
}

fn mixing_bytes(hidden: usize) -> (bytes: usize)
    requires
        hidden <= 32_768,
    ensures
        bytes == 384 * hidden,
{
    let lanes: usize = DSPARK_HC_MIXES * DSPARK_PROPOSAL_HC_MULT;
    assert(lanes * hidden == 96 * hidden) by (nonlinear_arith)
        requires
            lanes == 96,
    ;
    lanes * hidden * 4
}

impl DeepseekV4DsparkDeviceStorage {
    /// The weights of a block's attention, in a fixed order.
    pub fn block_attention_weights(&self, block_index: usize) -> (result: Result<
        Vec<ResidentWeight>,
        BlockWeightError,
    >)
        requires
            self.wf(),
        ensures
            result is Ok <==> block_index < DSPARK_BLOCKS,
            result matches Ok(weights) ==> weights_are(
                weights@,
                block_attention_weight_list(self.plan.variant, block_index as int),
            ),
            result matches Err(e) ==> e == (BlockWeightError::AttentionBlock {
                block: block_index,
            }),
    {
        if block_index >= DSPARK_BLOCKS {
            return Err(BlockWeightError::AttentionBlock { block: block_index });
        }
        let geometry = geometry_of(self.plan.variant);
        let hidden: usize = self.plan.hidden;
        let rank: usize = geometry.query_rank;
        let query_width: usize = geometry.heads * DSPARK_KV_WIDTH;
        let group_width: usize = (geometry.heads / geometry.output_groups) * DSPARK_KV_WIDTH;
        let projected: usize = geometry.output_groups * DSPARK_OUTPUT_RANK;
        let weights = vec![
            block_weight(block_index, "attn.wq_a.weight", area(rank, hidden)),
            block_weight(block_index, "attn.wq_a.scale", tiles(rank, hidden)),
            block_weight(block_index, "attn.wq_b.weight", area(query_width, rank)),
            block_weight(block_index, "attn.wq_b.scale", tiles(query_width, rank)),
            block_weight(block_index, "attn.wkv.weight", area(DSPARK_KV_WIDTH, hidden)),
            block_weight(block_index, "attn.wkv.scale", tiles(DSPARK_KV_WIDTH, hidden)),
            block_weight(block_index, "attn.q_norm.weight", rank * 2),
            block_weight(block_index, "attn.kv_norm.weight", DSPARK_KV_WIDTH * 2),
            block_weight(block_index, "attn.wo_a.weight", area(projected, group_width)),
            block_weight(block_index, "attn.wo_a.scale", tiles(projected, group_width)),
            block_weight(block_index, "attn.wo_b.weight", area(hidden, projected)),
            block_weight(block_index, "attn.wo_b.scale", tiles(hidden, projected)),
            block_weight(block_index, "attn.attn_sink", geometry.heads * 4),
            block_weight(
                block_index,
                "hc_ffn_fn",
                mixing_bytes(hidden),
            ),
            block_weight(block_index, "hc_ffn_scale", 12),
            block_weight(block_index, "hc_ffn_base", DSPARK_HC_MIXES * 4),
            block_weight(block_index, "ffn_norm.weight", hidden * 2),
        ];
        proof {
            let expected = block_attention_weight_list(self.plan.variant, block_index as int);
            assert forall|i: int|
                #![trigger weights@[i]]
                0 <= i < weights@.len() implies weights@[i].name@ == expected[i].0
                && weights@[i].bytes == expected[i].1 by {
                assert(0 <= i < 17);
            }
        }
        Ok(weights)
    }

    /// The weights that carry a block's output into the next attention.
    pub fn block_post_dispatch_weights(&self, block_index: usize) -> (result: Result<
        Vec<ResidentWeight>,
        BlockWeightError,
    >)
        requires
            self.wf(),
        ensures
            result is Ok <==> block_index + 1 < DSPARK_BLOCKS,
            result matches Ok(weights) ==> weights_are(
                weights@,
                block_post_dispatch_weight_list(self.plan.variant, block_index as int),
            ),
            result matches Err(e) ==> e == (BlockWeightError::PostDispatchBlock {
                block: block_index,
            }),
    {
        if block_index >= DSPARK_BLOCKS - 1 {
            return Err(BlockWeightError::PostDispatchBlock { block: block_index });
        }
        let hidden: usize = self.plan.hidden;
        let next: usize = block_index + 1;
        let weights = vec![
            block_weight(
                next,
                "hc_attn_fn",
                mixing_bytes(hidden),
            ),
            block_weight(next, "hc_attn_scale", 12),
            block_weight(next, "hc_attn_base", DSPARK_HC_MIXES * 4),
            block_weight(next, "attn_norm.weight", hidden * 2),
        ];
        Ok(weights)
    }

    /// The weights that collapse the residual lanes after the last block.
    pub fn terminal_collapse_weights(&self) -> (weights: Vec<ResidentWeight>)
        requires
            self.wf(),
        ensures
            weights_are(weights@, terminal_collapse_weight_list(self.plan.variant)),
    {
        let hidden: usize = self.plan.hidden;
        vec![
            named_weight(
                "mtp.2.hc_head_fn",
                DSPARK_PROPOSAL_HC_MULT * DSPARK_PROPOSAL_HC_MULT * hidden * 4,
            ),
            named_weight("mtp.2.hc_head_scale", 4),
            named_weight("mtp.2.hc_head_base", DSPARK_PROPOSAL_HC_MULT * 4),
            named_weight("mtp.2.norm.weight", hidden * 2),
        ]
    }

    /// The weights of the terminal head.
    pub fn terminal_head_weights(&self) -> (weights: Vec<ResidentWeight>)
        requires
            self.wf(),
        ensures
            weights_are(weights@, terminal_head_weight_list(self.plan.variant)),
    {
        let hidden: usize = self.plan.hidden;
        let rank: usize = self.plan.markov_rank;
        vec![
            named_weight("head.weight", 258_560 * hidden),
            named_weight("mtp.2.markov_head.markov_w1.weight", 258_560 * rank),
            named_weight("mtp.2.markov_head.markov_w2.weight", 258_560 * rank),
            named_weight("mtp.2.confidence_head.proj.weight", (hidden + rank) * 2),
        ]
    }

    /// The weights of the entry projection.
    pub fn entry_weights(&self) -> (weights: Vec<ResidentWeight>)
        requires
            self.wf(),
        ensures
            weights_are(weights@, entry_weight_list(self.plan.variant)),
    {
        let hidden: usize = self.plan.hidden;
        vec![
            named_weight("mtp.0.main_proj.weight", area(hidden, 3 * hidden)),
            named_weight("mtp.0.main_proj.scale", tiles(hidden, 3 * hidden)),
            named_weight("mtp.0.main_norm.weight", hidden * 2),
        ]
    }

    /// The weights that produce the keys and values of a prompt for one block.
    pub fn prompt_weights(&self, block_index: usize) -> (weights: Vec<ResidentWeight>)
        requires
            self.wf(),
        ensures
            weights_are(weights@, prompt_weight_list(self.plan.variant, block_index as int)),
    {
        let hidden: usize = self.plan.hidden;
        vec![
            block_weight(block_index, "attn.wkv.weight", area(DSPARK_KV_WIDTH, hidden)),
            block_weight(block_index, "attn.wkv.scale", tiles(DSPARK_KV_WIDTH, hidden)),
            block_weight(block_index, "attn.kv_norm.weight", DSPARK_KV_WIDTH * 2),
        ]
    }

    /// The weights of the proposal entry.
    pub fn proposal_entry_weights(&self) -> (weights: Vec<ResidentWeight>)
        requires
            self.wf(),
        ensures
            weights_are(weights@, proposal_entry_weight_list(self.plan.variant)),
    {
        let hidden: usize = self.plan.hidden;
        vec![
            named_weight(
                "ds41rt#deepseek-v4-dspark-block0-hc-attn-fn-lane-sum",
                DSPARK_HC_MIXES * hidden * 4,
            ),
            named_weight("mtp.0.hc_attn_scale", 12),
            named_weight("mtp.0.hc_attn_base", DSPARK_HC_MIXES * 4),
            named_weight("mtp.0.attn_norm.weight", hidden * 2),
        ]
    }

    /// The shared embedding of the target model, one two-byte vector per
    /// vocabulary entry. It is not there where its length cannot be counted.
    pub fn embedding_weight(&self, vocab_size: usize) -> (weight: Option<ResidentWeight>)
        requires
            self.wf(),
        ensures
            match weight {
                Some(w) => w.name@ == "embed.weight"@ && w.bytes == vocab_size * (2
                    * self.plan.hidden),
                None => vocab_size * (2 * self.plan.hidden) > usize::MAX,
            },
    {
        match vocab_size.checked_mul(2 * self.plan.hidden) {
            Some(bytes) => Some(named_weight("embed.weight", bytes)),
            None => None,
        }
    }
}

/// The attention weights of a block on the device.
#[derive(Clone, Copy, Debug, PartialEq, Eq, Structural)]
pub struct DeepseekV4DsparkBlockAttentionWeights {
    pub wq_a_weight: Ds41rtDeviceBuffer,
    pub wq_a_scale: Ds41rtDeviceBuffer,
    pub wq_b_weight: Ds41rtDeviceBuffer,
    pub wq_b_scale: Ds41rtDeviceBuffer,
    pub wkv_weight: Ds41rtDeviceBuffer,
    pub wkv_scale: Ds41rtDeviceBuffer,
    pub q_norm_weight: Ds41rtDeviceBuffer,
    pub kv_norm_weight: Ds41rtDeviceBuffer,
    pub wo_a_weight: Ds41rtDeviceBuffer,
    pub wo_a_scale: Ds41rtDeviceBuffer,
    pub wo_b_weight: Ds41rtDeviceBuffer,
    pub wo_b_scale: Ds41rtDeviceBuffer,
    pub attn_sink: Ds41rtDeviceBuffer,
    pub hc_fn: Ds41rtDeviceBuffer,
    pub hc_scale: Ds41rtDeviceBuffer,
    pub hc_base: Ds41rtDeviceBuffer,
    pub norm_weight: Ds41rtDeviceBuffer,
}

/// The weights between a block and the next attention, on the device.
#[derive(Clone, Copy, Debug, PartialEq, Eq, Structural)]
pub struct DeepseekV4DsparkBlockPostDispatchWeights {
    pub next_hc_fn: Ds41rtDeviceBuffer,
    pub next_hc_scale: Ds41rtDeviceBuffer,
    pub next_hc_base: Ds41rtDeviceBuffer,
    pub next_norm_weight: Ds41rtDeviceBuffer,
}

/// The collapse weights on the device.
#[derive(Clone, Copy, Debug, PartialEq, Eq, Structural)]
pub struct DeepseekV4DsparkTerminalCollapseWeights {
    pub hc_fn: Ds41rtDeviceBuffer,
    pub hc_scale: Ds41rtDeviceBuffer,
    pub hc_base: Ds41rtDeviceBuffer,
    pub norm_weight: Ds41rtDeviceBuffer,
}

/// The head weights on the device.
#[derive(Clone, Copy, Debug, PartialEq, Eq, Structural)]
pub struct DeepseekV4DsparkTerminalHeadWeights {
    pub shared_head: Ds41rtDeviceBuffer,
    pub markov_w1: Ds41rtDeviceBuffer,
    pub markov_w2: Ds41rtDeviceBuffer,
    pub confidence: Ds41rtDeviceBuffer,
}

/// The entry weights on the device.
#[derive(Clone, Copy, Debug, PartialEq, Eq, Structural)]
pub struct EntryWeights {
    pub main_proj_weight: Ds41rtDeviceBuffer,
    pub main_proj_scale: Ds41rtDeviceBuffer,
    pub main_norm_weight: Ds41rtDeviceBuffer,
}

/// The prompt weights of a block on the device.
#[derive(Clone, Copy, Debug, PartialEq, Eq, Structural)]
pub struct PromptWeights {
    pub wkv_weight: Ds41rtDeviceBuffer,
    pub wkv_scale: Ds41rtDeviceBuffer,
    pub kv_norm_weight: Ds41rtDeviceBuffer,
}

/// The proposal entry weights on the device.
#[derive(Clone, Copy, Debug, PartialEq, Eq, Structural)]
pub struct ProposalEntryWeights {
    pub hc_fn: Ds41rtDeviceBuffer,
    pub hc_scale: Ds41rtDeviceBuffer,
    pub hc_base: Ds41rtDeviceBuffer,
    pub norm_weight: Ds41rtDeviceBuffer,
}

/// All buffers are on the first device.
pub open spec fn on_first_device(buffers: Seq<Ds41rtDeviceBuffer>) -> bool {
    forall|i: int| 0 <= i < buffers.len() ==> (#[trigger] buffers[i]).device_id == 0
}

/// Whether all buffers are on the first device.
pub fn all_on_first_device(buffers: &[Ds41rtDeviceBuffer]) -> (r: bool)
    ensures
        r == on_first_device(buffers@),
{
    let mut i: usize = 0;
    while i < buffers.len()
        invariant
            i <= buffers@.len(),
            forall|k: int| 0 <= k < i ==> (#[trigger] buffers@[k]).device_id == 0,
        decreases buffers@.len() - i,
    {
        if buffers[i].device_id != 0 {
            assert(buffers@[i as int].device_id != 0);
            return false;
        }
        i = i + 1;
    }
    true
}

impl DeepseekV4DsparkBlockAttentionWeights {
    /// The buffers in the order of the weight list.
    pub open spec fn list(self) -> Seq<Ds41rtDeviceBuffer> {
        seq![
            self.wq_a_weight,
            self.wq_a_scale,
            self.wq_b_weight,
            self.wq_b_scale,
            self.wkv_weight,
            self.wkv_scale,
            self.q_norm_weight,
            self.kv_norm_weight,
            self.wo_a_weight,
            self.wo_a_scale,
            self.wo_b_weight,
            self.wo_b_scale,
            self.attn_sink,
            self.hc_fn,
            self.hc_scale,
            self.hc_base,
            self.norm_weight,
        ]
    }

    /// The buffers in the order of the weight list.
    pub fn buffers(&self) -> (buffers: Vec<Ds41rtDeviceBuffer>)
        ensures
            buffers@ == self.list(),
    {
        let buffers = vec![
            self.wq_a_weight,
            self.wq_a_scale,
            self.wq_b_weight,
            self.wq_b_scale,
            self.wkv_weight,
            self.wkv_scale,
            self.q_norm_weight,
            self.kv_norm_weight,
            self.wo_a_weight,
            self.wo_a_scale,
            self.wo_b_weight,
            self.wo_b_scale,
            self.attn_sink,
            self.hc_fn,
            self.hc_scale,
            self.hc_base,
            self.norm_weight,
        ];
        assert(buffers@ =~= self.list());
        buffers
    }

    /// The weights from buffers in the order of the weight list.
    pub fn from_buffers(buffers: &[Ds41rtDeviceBuffer]) -> (weights: Option<Self>)
        ensures
            match weights {
                Some(w) => w.list() == buffers@,
                None => buffers@.len() != 17,
            },
    {
        if buffers.len() != 17 {
            return None;
        }
        let weights = DeepseekV4DsparkBlockAttentionWeights {
            wq_a_weight: buffers[0],
            wq_a_scale: buffers[1],
            wq_b_weight: buffers[2],
            wq_b_scale: buffers[3],
            wkv_weight: buffers[4],
            wkv_scale: buffers[5],
            q_norm_weight: buffers[6],
            kv_norm_weight: buffers[7],
            wo_a_weight: buffers[8],
            wo_a_scale: buffers[9],
            wo_b_weight: buffers[10],
            wo_b_scale: buffers[11],
            attn_sink: buffers[12],
            hc_fn: buffers[13],
            hc_scale: buffers[14],
            hc_base: buffers[15],
            norm_weight: buffers[16],
        };
        assert(weights.list() =~= buffers@);
        Some(weights)
    }
}

impl DeepseekV4DsparkBlockPostDispatchWeights {
    /// The buffers in the order of the weight list.
    pub open spec fn list(self) -> Seq<Ds41rtDeviceBuffer> {
        seq![self.next_hc_fn, self.next_hc_scale, self.next_hc_base, self.next_norm_weight]
    }
}

impl DeepseekV4DsparkTerminalCollapseWeights {
    /// The buffers in the order of the weight list.
    pub open spec fn list(self) -> Seq<Ds41rtDeviceBuffer> {
        seq![self.hc_fn, self.hc_scale, self.hc_base, self.norm_weight]
    }
}

impl DeepseekV4DsparkTerminalHeadWeights {
    /// The buffers in the order of the weight list.
    pub open spec fn list(self) -> Seq<Ds41rtDeviceBuffer> {
        seq![self.shared_head, self.markov_w1, self.markov_w2, self.confidence]
    }
}

impl EntryWeights {
    /// The buffers in the order of the weight list.
    pub open spec fn list(self) -> Seq<Ds41rtDeviceBuffer> {
        seq![self.main_proj_weight, self.main_proj_scale, self.main_norm_weight]
    }
}

impl PromptWeights {
    /// The buffers in the order of the weight list.
    pub open spec fn list(self) -> Seq<Ds41rtDeviceBuffer> {
        seq![self.wkv_weight, self.wkv_scale, self.kv_norm_weight]
    }
}

impl ProposalEntryWeights {
    /// The buffers in the order of the weight list.
    pub open spec fn list(self) -> Seq<Ds41rtDeviceBuffer> {
        seq![self.hc_fn, self.hc_scale, self.hc_base, self.norm_weight]
    }
}

} // verus!
