//! The startup queries that ask the kernel planner for the arena layout.
use vstd::prelude::*;

use crate::dspark::plan::DsparkVariant;

verus! {

/// The ranges of the layout that are queried.
pub const LAYOUT_RANGES: usize = 39;

/// The queries of a layout: two totals, then the offset and the length of
/// every range.
pub const LAYOUT_QUERIES: usize = 80;

/// The module of the planner and of the capture functions.
pub const DSPARK_CAPTURE_MODULE: &'static str = "deepseek_v4_dspark_capture";

/// How the packed key-value pages are encoded.
#[derive(Clone, Copy, Debug, PartialEq, Eq, Structural)]
pub enum DeepseekV4KvCacheFormat {
    Fp8Ue8m0,
    Nvfp4,
}

impl DeepseekV4KvCacheFormat {
    /// The name by which the kernels know the format; `fp8_label` is that of the
    /// 8-bit format.
    pub open spec fn label_for(self, fp8_label: &'static str) -> &'static str {
        match self {
            DeepseekV4KvCacheFormat::Fp8Ue8m0 => fp8_label,
            DeepseekV4KvCacheFormat::Nvfp4 => "nvfp4",
        }
    }

    /// The name by which the kernels know the format.
    pub fn kernel_label(self, fp8_label: &'static str) -> (label: &'static str)
        ensures
            label == self.label_for(fp8_label),
            self is Nvfp4 ==> label@ == "nvfp4"@,
    {
        match self {
            DeepseekV4KvCacheFormat::Fp8Ue8m0 => fp8_label,
            DeepseekV4KvCacheFormat::Nvfp4 => "nvfp4",
        }
    }
}

/// One startup query: a function of the planner with its keyword arguments.
/// Every query names the variant and the two limits; `extra` is a further
/// keyword and its value.
#[derive(Clone, Copy, Debug)]
pub struct PythonUsizeQuery {
    pub module: &'static str,
    pub function: &'static str,
    pub variant: &'static str,
    pub max_batch: usize,
    pub max_main_rows: usize,
    pub extra: Option<(&'static str, &'static str)>,
}

pub open spec fn query_is(
    query: PythonUsizeQuery,
    function: Seq<char>,
    variant: DsparkVariant,
    max_batch: usize,
    max_main_rows: usize,
) -> bool {
    &&& query.module@ == DSPARK_CAPTURE_MODULE@
    &&& query.function@ == function
    &&& query.variant@ == variant.label_text()
    &&& query.max_batch == max_batch
    &&& query.max_main_rows == max_main_rows
}

/// A query of a total.
pub fn query_dspark_usize(
    variant: DsparkVariant,
    max_batch: usize,
    max_main_rows: usize,
    function: &'static str,
) -> (query: PythonUsizeQuery)
    ensures
        query_is(query, function@, variant, max_batch, max_main_rows),
        query.extra is None,
{
    PythonUsizeQuery {
        module: DSPARK_CAPTURE_MODULE,
        function,
        variant: variant.label(),
        max_batch,
        max_main_rows,
        extra: None,
    }
}

/// A query about something named.
pub fn query_dspark_named_usize(
    variant: DsparkVariant,
    max_batch: usize,
    max_main_rows: usize,
    function: &'static str,
    name: &'static str,
    value: &'static str,
) -> (query: PythonUsizeQuery)
    ensures
        query_is(query, function@, variant, max_batch, max_main_rows),
        query.extra is Some,
        query.extra->Some_0.0@ == name@,
        query.extra->Some_0.1@ == value@,
{
    PythonUsizeQuery {
        module: DSPARK_CAPTURE_MODULE,
        function,
        variant: variant.label(),
        max_batch,
        max_main_rows,
        extra: Some((name, value)),
    }
}

/// Which part of the layout a range belongs to.
#[derive(Clone, Copy, Debug, PartialEq, Eq, Structural)]
pub enum LayoutPart {
    ArenaRegion,
    EntryBuffer,
    PromptBuffer,
    ProposalBuffer,
    BlockBuffer,
}

impl LayoutPart {
    /// The function that tells where a range of the part starts.
    pub open spec fn offset_text(self) -> Seq<char> {
        match self {
            LayoutPart::ArenaRegion => "deepseek_v4_dspark_arena_region_offset"@,
            LayoutPart::EntryBuffer => "deepseek_v4_dspark_entry_buffer_offset"@,
            LayoutPart::PromptBuffer => "deepseek_v4_dspark_prompt_buffer_offset"@,
            LayoutPart::ProposalBuffer => "deepseek_v4_dspark_proposal_buffer_offset"@,
            LayoutPart::BlockBuffer => "deepseek_v4_dspark_block_buffer_offset"@,
        }
    }

    /// The function that tells how long a range of the part is.
    pub open spec fn bytes_text(self) -> Seq<char> {
        match self {
            LayoutPart::ArenaRegion => "deepseek_v4_dspark_arena_region_nbytes"@,
            LayoutPart::EntryBuffer => "deepseek_v4_dspark_entry_buffer_nbytes"@,
            LayoutPart::PromptBuffer => "deepseek_v4_dspark_prompt_buffer_nbytes"@,
            LayoutPart::ProposalBuffer => "deepseek_v4_dspark_proposal_buffer_nbytes"@,
            LayoutPart::BlockBuffer => "deepseek_v4_dspark_block_buffer_nbytes"@,
        }
    }

    /// The keyword that names a range of the part.
    pub open spec fn keyword_text(self) -> Seq<char> {
        match self {
            LayoutPart::ArenaRegion => "region"@,
            _ => "buffer"@,
        }
    }

    fn offset_function(self) -> (function: &'static str)
        ensures
            function@ == self.offset_text(),
    {
        match self {
            LayoutPart::ArenaRegion => "deepseek_v4_dspark_arena_region_offset",
            LayoutPart::EntryBuffer => "deepseek_v4_dspark_entry_buffer_offset",
            LayoutPart::PromptBuffer => "deepseek_v4_dspark_prompt_buffer_offset",
            LayoutPart::ProposalBuffer => "deepseek_v4_dspark_proposal_buffer_offset",
            LayoutPart::BlockBuffer => "deepseek_v4_dspark_block_buffer_offset",
        }
    }

    fn bytes_function(self) -> (function: &'static str)
        ensures
            function@ == self.bytes_text(),
    {
        match self {
            LayoutPart::ArenaRegion => "deepseek_v4_dspark_arena_region_nbytes",
            LayoutPart::EntryBuffer => "deepseek_v4_dspark_entry_buffer_nbytes",
            LayoutPart::PromptBuffer => "deepseek_v4_dspark_prompt_buffer_nbytes",
            LayoutPart::ProposalBuffer => "deepseek_v4_dspark_proposal_buffer_nbytes",
            LayoutPart::BlockBuffer => "deepseek_v4_dspark_block_buffer_nbytes",
        }
    }

    fn keyword(self) -> (keyword: &'static str)
        ensures
            keyword@ == self.keyword_text(),
    {
        match self {
            LayoutPart::ArenaRegion => "region",
            _ => "buffer",
        }
    }
}

/// The part of range `k`.
pub open spec fn range_part(k: int) -> LayoutPart {
    if k < 3 || 12 <= k <= 20 {
        LayoutPart::ArenaRegion
    } else if k < 5 {
        LayoutPart::EntryBuffer
    } else if k < 8 {
        LayoutPart::PromptBuffer
    } else if k < 30 {
        LayoutPart::ProposalBuffer
    } else {
        LayoutPart::BlockBuffer
    }
}

/// The name of range `k`.
pub open spec fn range_name(k: int) -> Seq<char> {
    if k == 0 {
        "projected_target_main"@
    } else if k == 1 {
        "reused_sparse_block_workspace"@
    } else if k == 2 {
        "reused_target_main_kv_producer_scratch"@
    } else if k == 3 {
        "target_tap_concat"@
    } else if k == 4 {
        "projection_scratch"@
    } else if k == 5 {
        "positions"@
    } else if k == 6 {
        "main_slots"@
    } else if k == 7 {
        "cos_sin_cache"@
    } else if k == 8 {
        "draft_input_token_ids"@
    } else if k == 9 {
        "residual_ping"@
    } else if k == 10 {
        "residual_pong"@
    } else if k == 11 {
        "collapsed_hidden"@
    } else if k == 12 {
        "proposal_normalized_hidden"@
    } else if k == 13 {
        "terminal_compact_normalized_hidden"@
    } else if k == 14 {
        "shared_lm_logits"@
    } else if k == 15 {
        "terminal_markov_logits"@
    } else if k == 16 {
        "markov_embeddings"@
    } else if k == 17 {
        "confidence"@
    } else if k == 18 {
        "terminal_active_slot_ids"@
    } else if k == 19 {
        "terminal_anchor_token_ids"@
    } else if k == 20 {
        "terminal_output_token_ids"@
    } else if k == 21 {
        "positions"@
    } else if k == 22 {
        "main_slots"@
    } else if k == 23 {
        "cos_sin_cache"@
    } else if k == 24 {
        "post_ping"@
    } else if k == 25 {
        "comb_ping"@
    } else if k == 26 {
        "post_pong"@
    } else if k == 27 {
        "comb_pong"@
    } else if k == 28 {
        "selected_indices"@
    } else if k == 29 {
        "selected_lengths"@
    } else if k == 30 {
        "route_indices"@
    } else if k == 31 {
        "route_scores"@
    } else if k == 32 {
        "route_weights"@
    } else if k == 33 {
        "shared_gate"@
    } else if k == 34 {
        "shared_up"@
    } else if k == 35 {
        "shared_activated"@
    } else if k == 36 {
        "shared_delta"@
    } else if k == 37 {
        "reduction_f32"@
    } else {
        "ffn_delta"@
    }
}

fn layout_part(k: usize) -> (part: LayoutPart)
    ensures
        part == range_part(k as int),
{
    if k < 3 || (12 <= k && k <= 20) {
        LayoutPart::ArenaRegion
    } else if k < 5 {
        LayoutPart::EntryBuffer
    } else if k < 8 {
        LayoutPart::PromptBuffer
    } else if k < 30 {
        LayoutPart::ProposalBuffer
    } else {
        LayoutPart::BlockBuffer
    }
}

fn layout_name(k: usize) -> (name: &'static str)
    ensures
        name@ == range_name(k as int),
{
    if k == 0 {
        "projected_target_main"
    } else if k == 1 {
        "reused_sparse_block_workspace"
    } else if k == 2 {
        "reused_target_main_kv_producer_scratch"
    } else if k == 3 {
        "target_tap_concat"
    } else if k == 4 {
        "projection_scratch"
    } else if k == 5 {
        "positions"
    } else if k == 6 {
        "main_slots"
    } else if k == 7 {
        "cos_sin_cache"
    } else if k == 8 {
        "draft_input_token_ids"
    } else if k == 9 {
        "residual_ping"
    } else if k == 10 {
        "residual_pong"
    } else if k == 11 {
        "collapsed_hidden"
    } else if k == 12 {
        "proposal_normalized_hidden"
    } else if k == 13 {
        "terminal_compact_normalized_hidden"
    } else if k == 14 {
        "shared_lm_logits"
    } else if k == 15 {
        "terminal_markov_logits"
    } else if k == 16 {
        "markov_embeddings"
    } else if k == 17 {
        "confidence"
    } else if k == 18 {
        "terminal_active_slot_ids"
    } else if k == 19 {
        "terminal_anchor_token_ids"
    } else if k == 20 {
        "terminal_output_token_ids"
    } else if k == 21 {
        "positions"
    } else if k == 22 {
        "main_slots"
    } else if k == 23 {
        "cos_sin_cache"
    } else if k == 24 {
        "post_ping"
    } else if k == 25 {
        "comb_ping"
    } else if k == 26 {
        "post_pong"
    } else if k == 27 {
        "comb_pong"
    } else if k == 28 {
        "selected_indices"
    } else if k == 29 {
        "selected_lengths"
    } else if k == 30 {
        "route_indices"
    } else if k == 31 {
        "route_scores"
    } else if k == 32 {
        "route_weights"
    } else if k == 33 {
        "shared_gate"
    } else if k == 34 {
        "shared_up"
    } else if k == 35 {
        "shared_activated"
    } else if k == 36 {
        "shared_delta"
    } else if k == 37 {
        "reduction_f32"
    } else {
        "ffn_delta"
    }
}

/// Query `i` of the layout.
pub open spec fn layout_query_ok(
    query: PythonUsizeQuery,
    variant: DsparkVariant,
    max_batch: usize,
    max_main_rows: usize,
    cache_label: Seq<char>,
    i: int,
) -> bool {
    if i == 0 {
        &&& query_is(
            query,
            "deepseek_v4_dspark_arena_nbytes"@,
            variant,
            max_batch,
            max_main_rows,
        )
        &&& query.extra is None
    } else if i == 1 {
        &&& query_is(
            query,
            "deepseek_v4_dspark_persistent_kv_nbytes"@,
            variant,
            max_batch,
            max_main_rows,
        )
        &&& query.extra is Some
        &&& query.extra->Some_0.0@ == "cache_format"@
        &&& query.extra->Some_0.1@ == cache_label
    } else {
        let k = (i - 2) / 2;
        let part = range_part(k);
        &&& query_is(
            query,
            if i % 2 == 0 {
                part.offset_text()
            } else {
                part.bytes_text()
            },
            variant,
            max_batch,
            max_main_rows,
        )
        &&& query.extra is Some
        &&& query.extra->Some_0.0@ == part.keyword_text()
        &&& query.extra->Some_0.1@ == range_name(k)
    }
}

/// The queries of a layout, in the order in which their answers are read.
/// `fp8_label` is the name by which the kernels know the 8-bit format of the
/// packed pages.
pub fn dspark_layout_queries(
    variant: DsparkVariant,
    max_batch: usize,
    max_main_rows: usize,
    cache_format: DeepseekV4KvCacheFormat,
    fp8_label: &'static str,
) -> (queries: Vec<PythonUsizeQuery>)
    ensures
        queries@.len() == LAYOUT_QUERIES,
        forall|i: int|
            0 <= i < LAYOUT_QUERIES ==> layout_query_ok(
                #[trigger] queries@[i],
                variant,
                max_batch,
                max_main_rows,
                cache_format.label_for(fp8_label)@,
                i,
            ),
{
    let cache_label: &'static str = cache_format.kernel_label(fp8_label);
    let mut queries: Vec<PythonUsizeQuery> = Vec::new();
    queries.push(
        query_dspark_usize(variant, max_batch, max_main_rows, "deepseek_v4_dspark_arena_nbytes"),
    );
    queries.push(
        query_dspark_named_usize(
            variant,
            max_batch,
            max_main_rows,
            "deepseek_v4_dspark_persistent_kv_nbytes",
            "cache_format",
            cache_label,
        ),
    );
    let mut k: usize = 0;
    while k < LAYOUT_RANGES
        invariant
            k <= LAYOUT_RANGES,
            cache_label == cache_format.label_for(fp8_label),
            queries@.len() == 2 + 2 * k,
            forall|i: int|
                0 <= i < queries@.len() ==> layout_query_ok(
                    #[trigger] queries@[i],
                    variant,
                    max_batch,
                    max_main_rows,
                    cache_format.label_for(fp8_label)@,
                    i,
                ),
        decreases LAYOUT_RANGES - k,
    {
        let part: LayoutPart = layout_part(k);
        let name: &'static str = layout_name(k);
        queries.push(
            query_dspark_named_usize(
                variant,
                max_batch,
                max_main_rows,
                part.offset_function(),
                part.keyword(),
                name,
            ),
        );
        queries.push(
            query_dspark_named_usize(
                variant,
                max_batch,
                max_main_rows,
                part.bytes_function(),
                part.keyword(),
                name,
            ),
        );
        k = k + 1;
    }
    queries
}

} // verus!
