//! The device storage plan: what the kernel planner answered, checked against
//! the sizes that the native kernels rely on.
use vstd::prelude::*;

use crate::dspark::queries::{DeepseekV4KvCacheFormat, LAYOUT_QUERIES};
use crate::text::{append_size, decimal, quote_text, quoted, same_text};

verus! {

/// The blocks of the drafter.
pub const DSPARK_BLOCKS: usize = 3;

/// The bytes of one packed page of one request in the 8-bit format.
pub const DSPARK_FP8_PACKED_PAGE_BYTES: usize = 149_760;

/// The bytes of one packed page of one request in the 4-bit format: 256 rows
/// of 432 bytes.
pub const DSPARK_NVFP4_PACKED_PAGE_BYTES: usize = 110_592;

/// The alignment of buffers in the reused block workspace.
pub const DSPARK_ENTRY_ALIGNMENT: usize = 1_024;

/// The alignment of buffers in the arena.
pub const DSPARK_ARENA_ALIGNMENT: usize = 16;

/// The rows that one request proposes.
pub const DSPARK_PROPOSAL_ROWS_PER_REQUEST: usize = 5;

/// The residual lanes of one proposal row.
pub const DSPARK_PROPOSAL_HC_MULT: usize = 4;

/// The indices that one proposal row selects.
pub const DSPARK_PROPOSAL_SELECTION_WIDTH: usize = 133;

/// The experts that one row is routed to.
pub const DSPARK_TOP_K: usize = 6;

/// The vocabulary of both variants.
pub const DSPARK_VOCAB: usize = 129_280;

/// The model variants that have a drafter.
#[derive(Clone, Copy, Debug, PartialEq, Eq, Structural)]
pub enum DsparkVariant {
    Flash,
    Pro,
}

impl DsparkVariant {
    pub open spec fn label_text(self) -> Seq<char> {
        match self {
            DsparkVariant::Flash => "flash"@,
            DsparkVariant::Pro => "pro"@,
        }
    }

    pub open spec fn hidden_spec(self) -> int {
        match self {
            DsparkVariant::Flash => 4_096,
            DsparkVariant::Pro => 7_168,
        }
    }

    pub open spec fn markov_rank_spec(self) -> int {
        match self {
            DsparkVariant::Flash => 256,
            DsparkVariant::Pro => 512,
        }
    }

    pub open spec fn routed_experts_spec(self) -> int {
        match self {
            DsparkVariant::Flash => 256,
            DsparkVariant::Pro => 384,
        }
    }

    pub open spec fn shared_intermediate_spec(self) -> int {
        match self {
            DsparkVariant::Flash => 2_048,
            DsparkVariant::Pro => 3_072,
        }
    }

    pub fn label(self) -> (label: &'static str)
        ensures
            label@ == self.label_text(),
    {
        match self {
            DsparkVariant::Flash => "flash",
            DsparkVariant::Pro => "pro",
        }
    }

    pub fn hidden(self) -> (width: usize)
        ensures
            width == self.hidden_spec(),
    {
        match self {
            DsparkVariant::Flash => 4_096,
            DsparkVariant::Pro => 7_168,
        }
    }

    pub fn markov_rank(self) -> (rank: usize)
        ensures
            rank == self.markov_rank_spec(),
    {
        match self {
            DsparkVariant::Flash => 256,
            DsparkVariant::Pro => 512,
        }
    }

    pub fn routed_experts(self) -> (experts: usize)
        ensures
            experts == self.routed_experts_spec(),
    {
        match self {
            DsparkVariant::Flash => 256,
            DsparkVariant::Pro => 384,
        }
    }

    pub fn shared_intermediate(self) -> (width: usize)
        ensures
            width == self.shared_intermediate_spec(),
    {
        match self {
            DsparkVariant::Flash => 2_048,
            DsparkVariant::Pro => 3_072,
        }
    }

    /// The variant with a given name.
    pub fn from_label(label: &str) -> (variant: Option<Self>)
        ensures
            variant == (if label@ == "flash"@ {
                Some(DsparkVariant::Flash)
            } else if label@ == "pro"@ {
                Some(DsparkVariant::Pro)
            } else {
                None
            }),
    {
        if same_text(label, "flash") {
            Some(DsparkVariant::Flash)
        } else if same_text(label, "pro") {
            Some(DsparkVariant::Pro)
        } else {
            None
        }
    }
}

/// A byte range of the arena or of a buffer in it.
#[derive(Clone, Copy, Debug, PartialEq, Eq, Structural)]
pub struct ArenaRange {
    pub offset: usize,
    pub bytes: usize,
}

impl ArenaRange {
    /// The range lies in `limit` bytes.
    pub open spec fn within(self, limit: usize) -> bool {
        self.offset + self.bytes <= limit
    }

    /// The range starts at a multiple of `alignment` and lies in `limit` bytes.
    pub open spec fn placed(self, alignment: usize, limit: usize) -> bool {
        self.offset % alignment == 0 && self.within(limit)
    }

    pub fn is_within(self, limit: usize) -> (r: bool)
        ensures
            r == self.within(limit),
    {
        match self.offset.checked_add(self.bytes) {
            Some(end) => end <= limit,
            None => false,
        }
    }

    pub fn is_placed(self, alignment: usize, limit: usize) -> (r: bool)
        requires
            alignment > 0,
        ensures
            r == self.placed(alignment, limit),
    {
        self.offset % alignment == 0 && self.is_within(limit)
    }
}

/// The ranges of the entry projection and of the prompt metadata.
#[derive(Clone, Copy, Debug, PartialEq, Eq, Structural)]
pub struct DeepseekV4DsparkEntryDeviceStoragePlan {
    pub projected_target_main: ArenaRange,
    pub block_workspace: ArenaRange,
    pub target_tap_concat: ArenaRange,
    pub projection_scratch: ArenaRange,
    pub prompt_positions: ArenaRange,
    pub prompt_main_slots: ArenaRange,
    pub prompt_cos_sin: ArenaRange,
}

/// The ranges of the proposal rows.
#[derive(Clone, Copy, Debug, PartialEq, Eq, Structural)]
pub struct DeepseekV4DsparkProposalDeviceStoragePlan {
    pub draft_token_ids: ArenaRange,
    pub residual_ping: ArenaRange,
    pub residual_pong: ArenaRange,
    pub collapsed_hidden: ArenaRange,
    pub normalized_hidden: ArenaRange,
    pub positions: ArenaRange,
    pub main_slots: ArenaRange,
    pub cos_sin: ArenaRange,
    pub post_ping: ArenaRange,
    pub comb_ping: ArenaRange,
    pub post_pong: ArenaRange,
    pub comb_pong: ArenaRange,
    pub selected_indices: ArenaRange,
    pub selected_lengths: ArenaRange,
}

/// The ranges of the terminal head.
#[derive(Clone, Copy, Debug, PartialEq, Eq, Structural)]
pub struct DeepseekV4DsparkTerminalDeviceStoragePlan {
    pub compact_normalized_hidden: ArenaRange,
    pub shared_logits: ArenaRange,
    pub markov_logits: ArenaRange,
    pub markov_embeddings: ArenaRange,
    pub confidence: ArenaRange,
    pub active_slot_ids: ArenaRange,
    pub anchor_token_ids: ArenaRange,
    pub output_token_ids: ArenaRange,
}

/// The ranges of a sparse block in the reused workspace.
#[derive(Clone, Copy, Debug, PartialEq, Eq, Structural)]
pub struct DeepseekV4DsparkBlockDeviceStoragePlan {
    pub route_indices: ArenaRange,
    pub route_scores: ArenaRange,
    pub route_weights: ArenaRange,
    pub shared_gate: ArenaRange,
    pub shared_up: ArenaRange,
    pub shared_activated: ArenaRange,
    pub shared_delta: ArenaRange,
    pub reduction_f32: ArenaRange,
    pub ffn_delta: ArenaRange,
}

/// The storage of the drafter on the device. `cache_label` is the name by which
/// the kernels know the format of the packed pages.
#[derive(Clone, Copy, Debug)]
pub struct DeepseekV4DsparkDeviceStoragePlan {
    pub variant: DsparkVariant,
    pub cache_format: DeepseekV4KvCacheFormat,
    pub cache_label: &'static str,
    pub packed_page_bytes: usize,
    pub hidden: usize,
    pub vocab: usize,
    pub markov_rank: usize,
    pub max_batch: usize,
    pub max_main_rows: usize,
    pub arena_bytes: usize,
    pub persistent_kv_bytes: usize,
    pub kv_producer_scratch: ArenaRange,
    pub entry: DeepseekV4DsparkEntryDeviceStoragePlan,
    pub proposal: DeepseekV4DsparkProposalDeviceStoragePlan,
    pub terminal: DeepseekV4DsparkTerminalDeviceStoragePlan,
    pub block: DeepseekV4DsparkBlockDeviceStoragePlan,
}

/// What cannot be counted, or which part of the answers does not hold.
#[derive(Clone, Debug, PartialEq, Eq)]
pub enum StoragePlanError {
    Variant { variant: String },
    ZeroBatch,
    ZeroMainRows,
    AnswerCount { answers: usize },
    KvOverflow,
    KvBytes { got: usize, expected: usize },
    EmptyArena,
    ProjectedOverflow,
    ConcatOverflow,
    ProjectedBytes { got: usize, expected: usize },
    ConcatBytes { got: usize, expected: usize },
    EntryAlignment,
    ConcatRangeOverflow,
    ProjectionRangeOverflow,
    EntryScratch,
    PromptPositionsOverflow,
    PromptCosSinOverflow,
    PromptRangeOverflow,
    PromptMetadata,
    EntryRegions,
    ProposalRowsOverflow,
    ProposalMetadataOverflow,
    ProposalResidualOverflow,
    SharedLogitsOverflow,
    ProposalSizes,
    TerminalSizes,
    BlockSizes,
    BlockView { view: usize },
    ProposalView { view: usize },
    TerminalView { view: usize },
}

/// The name of a checked range.
pub open spec fn block_view_text(view: int) -> Seq<char> {
    if view == 0 {
        "route indices"@
    } else if view == 1 {
        "route scores"@
    } else if view == 2 {
        "route weights"@
    } else if view == 3 {
        "shared gate"@
    } else if view == 4 {
        "shared up"@
    } else if view == 5 {
        "shared activated"@
    } else if view == 6 {
        "shared delta"@
    } else if view == 7 {
        "reduction f32"@
    } else {
        "FFN delta"@
    }
}

fn block_view_name(view: usize) -> (name: &'static str)
    ensures
        name@ == block_view_text(view as int),
{
    if view == 0 {
        "route indices"
    } else if view == 1 {
        "route scores"
    } else if view == 2 {
        "route weights"
    } else if view == 3 {
        "shared gate"
    } else if view == 4 {
        "shared up"
    } else if view == 5 {
        "shared activated"
    } else if view == 6 {
        "shared delta"
    } else if view == 7 {
        "reduction f32"
    } else {
        "FFN delta"
    }
}

/// The name of a checked range.
pub open spec fn proposal_view_text(view: int) -> Seq<char> {
    if view == 0 {
        "draft token ids"@
    } else if view == 1 {
        "residual ping"@
    } else if view == 2 {
        "residual pong"@
    } else if view == 3 {
        "collapsed hidden"@
    } else if view == 4 {
        "normalized hidden"@
    } else if view == 5 {
        "positions"@
    } else if view == 6 {
        "main slots"@
    } else if view == 7 {
        "cos/sin"@
    } else if view == 8 {
        "post ping"@
    } else if view == 9 {
        "comb ping"@
    } else if view == 10 {
        "post pong"@
    } else if view == 11 {
        "comb pong"@
    } else if view == 12 {
        "selected indices"@
    } else {
        "selected lengths"@
    }
}

fn proposal_view_name(view: usize) -> (name: &'static str)
    ensures
        name@ == proposal_view_text(view as int),
{
    if view == 0 {
        "draft token ids"
    } else if view == 1 {
        "residual ping"
    } else if view == 2 {
        "residual pong"
    } else if view == 3 {
        "collapsed hidden"
    } else if view == 4 {
        "normalized hidden"
    } else if view == 5 {
        "positions"
    } else if view == 6 {
        "main slots"
    } else if view == 7 {
        "cos/sin"
    } else if view == 8 {
        "post ping"
    } else if view == 9 {
        "comb ping"
    } else if view == 10 {
        "post pong"
    } else if view == 11 {
        "comb pong"
    } else if view == 12 {
        "selected indices"
    } else {
        "selected lengths"
    }
}

/// The name of a checked range.
pub open spec fn terminal_view_text(view: int) -> Seq<char> {
    if view == 0 {
        "compact normalized hidden"@
    } else if view == 1 {
        "shared logits"@
    } else if view == 2 {
        "Markov logits"@
    } else if view == 3 {
        "Markov embeddings"@
    } else if view == 4 {
        "confidence"@
    } else if view == 5 {
        "active slot IDs"@
    } else if view == 6 {
        "anchor token IDs"@
    } else {
        "output token IDs"@
    }
}

fn terminal_view_name(view: usize) -> (name: &'static str)
    ensures
        name@ == terminal_view_text(view as int),
{
    if view == 0 {
        "compact normalized hidden"
    } else if view == 1 {
        "shared logits"
    } else if view == 2 {
        "Markov logits"
    } else if view == 3 {
        "Markov embeddings"
    } else if view == 4 {
        "confidence"
    } else if view == 5 {
        "active slot IDs"
    } else if view == 6 {
        "anchor token IDs"
    } else {
        "output token IDs"
    }
}

impl StoragePlanError {
    pub open spec fn text(self) -> Seq<char> {
        match self {
            StoragePlanError::Variant { variant } =>
                "DeepSeek V4 dSpark device storage variant must be flash or pro, got "@ + quoted(
                variant@,
            ),
            StoragePlanError::ZeroBatch => "dSpark device storage max_batch must be positive"@,
            StoragePlanError::ZeroMainRows =>
                "dSpark device storage max_main_rows must be positive"@,
            StoragePlanError::AnswerCount { answers } =>
                "DeepSeek V4 dSpark layout has "@ + decimal(answers as nat) + " answers"@,
            StoragePlanError::KvOverflow =>
                "DeepSeek V4 dSpark persistent KV byte count overflow"@,
            StoragePlanError::KvBytes { got, expected } =>
                "DeepSeek V4 dSpark Python plan returned "@ + decimal(got as nat)
                + " persistent KV bytes, expected "@ + decimal(expected as nat),
            StoragePlanError::EmptyArena => "DeepSeek V4 dSpark arena plan is empty"@,
            StoragePlanError::ProjectedOverflow =>
                "DeepSeek V4 dSpark projected-main byte count overflow"@,
            StoragePlanError::ConcatOverflow =>
                "DeepSeek V4 dSpark target-tap concat byte count overflow"@,
            StoragePlanError::ProjectedBytes { got, expected } =>
                "DeepSeek V4 dSpark projected-main region has "@ + decimal(got as nat)
                + " bytes, expected "@ + decimal(expected as nat),
            StoragePlanError::ConcatBytes { got, expected } =>
                "DeepSeek V4 dSpark target-tap concat has "@ + decimal(got as nat)
                + " bytes, expected "@ + decimal(expected as nat),
            StoragePlanError::EntryAlignment =>
                "DeepSeek V4 dSpark entry buffers lost 1024-byte alignment"@,
            StoragePlanError::ConcatRangeOverflow =>
                "DeepSeek V4 dSpark target-tap concat range overflow"@,
            StoragePlanError::ProjectionRangeOverflow =>
                "DeepSeek V4 dSpark projection scratch range overflow"@,
            StoragePlanError::EntryScratch =>
                "DeepSeek V4 dSpark entry scratch does not fit the reused block workspace"@,
            StoragePlanError::PromptPositionsOverflow =>
                "DeepSeek V4 dSpark prompt-position byte count overflow"@,
            StoragePlanError::PromptCosSinOverflow =>
                "DeepSeek V4 dSpark prompt cos/sin byte count overflow"@,
            StoragePlanError::PromptRangeOverflow =>
                "DeepSeek V4 dSpark prompt metadata range overflow"@,
            StoragePlanError::PromptMetadata =>
                "DeepSeek V4 dSpark prompt metadata lost its target-concat reuse contract"@,
            StoragePlanError::EntryRegions =>
                "DeepSeek V4 dSpark entry regions exceed the startup arena"@,
            StoragePlanError::ProposalRowsOverflow =>
                "DeepSeek V4 dSpark proposal row count overflow"@,
            StoragePlanError::ProposalMetadataOverflow =>
                "DeepSeek V4 dSpark proposal metadata bytes overflow"@,
            StoragePlanError::ProposalResidualOverflow =>
                "DeepSeek V4 dSpark proposal residual bytes overflow"@,
            StoragePlanError::SharedLogitsOverflow =>
                "DeepSeek V4 dSpark shared-logits bytes overflow"@,
            StoragePlanError::ProposalSizes =>
                "DeepSeek V4 dSpark proposal buffer sizes disagree with the fixed five-row native ABI"@,
            StoragePlanError::TerminalSizes =>
                "DeepSeek V4 dSpark terminal buffers disagree with the joint batch ABI"@,
            StoragePlanError::BlockSizes =>
                "DeepSeek V4 dSpark sparse workspace disagrees with its global-route/shared-expert ABI"@,
            StoragePlanError::BlockView { view } => "DeepSeek V4 dSpark block "@
                + block_view_text(view as int)
                + " view exceeds or loses alignment in the reused workspace"@,
            StoragePlanError::ProposalView { view } => "DeepSeek V4 dSpark proposal "@
                + proposal_view_text(view as int)
                + " view exceeds or loses alignment in the startup arena"@,
            StoragePlanError::TerminalView { view } => "DeepSeek V4 dSpark terminal "@
                + terminal_view_text(view as int)
                + " view exceeds or loses alignment in the startup arena"@,
        }
    }

    pub fn message(&self) -> (out: String)
        ensures
            out@ == self.text(),
    {
        match self {
            StoragePlanError::Variant { variant } => {
                let mut out: String =
                    "DeepSeek V4 dSpark device storage variant must be flash or pro, got ".to_owned();
                let shown: String = quote_text(variant.as_str());
                out.append(shown.as_str());
                out
            },
            StoragePlanError::ZeroBatch => {
                "dSpark device storage max_batch must be positive".to_owned()
            },
            StoragePlanError::ZeroMainRows => {
                "dSpark device storage max_main_rows must be positive".to_owned()
            },
            StoragePlanError::AnswerCount { answers } => {
                let mut out: String = "DeepSeek V4 dSpark layout has ".to_owned();
                append_size(&mut out, *answers);
                out.append(" answers");
                out
            },
            StoragePlanError::KvOverflow => {
                "DeepSeek V4 dSpark persistent KV byte count overflow".to_owned()
            },
            StoragePlanError::KvBytes { got, expected } => {
                let mut out: String = "DeepSeek V4 dSpark Python plan returned ".to_owned();
                append_size(&mut out, *got);
                out.append(" persistent KV bytes, expected ");
                append_size(&mut out, *expected);
                out
            },
            StoragePlanError::EmptyArena => {
                "DeepSeek V4 dSpark arena plan is empty".to_owned()
            },
            StoragePlanError::ProjectedOverflow => {
                "DeepSeek V4 dSpark projected-main byte count overflow".to_owned()
            },
            StoragePlanError::ConcatOverflow => {
                "DeepSeek V4 dSpark target-tap concat byte count overflow".to_owned()
            },
            StoragePlanError::ProjectedBytes { got, expected } => {
                let mut out: String = "DeepSeek V4 dSpark projected-main region has ".to_owned();
                append_size(&mut out, *got);
                out.append(" bytes, expected ");
                append_size(&mut out, *expected);
                out
            },
            StoragePlanError::ConcatBytes { got, expected } => {
                let mut out: String = "DeepSeek V4 dSpark target-tap concat has ".to_owned();
                append_size(&mut out, *got);
                out.append(" bytes, expected ");
                append_size(&mut out, *expected);
                out
            },
            StoragePlanError::EntryAlignment => {
                "DeepSeek V4 dSpark entry buffers lost 1024-byte alignment".to_owned()
            },
            StoragePlanError::ConcatRangeOverflow => {
                "DeepSeek V4 dSpark target-tap concat range overflow".to_owned()
            },
            StoragePlanError::ProjectionRangeOverflow => {
                "DeepSeek V4 dSpark projection scratch range overflow".to_owned()
            },
            StoragePlanError::EntryScratch => {
                "DeepSeek V4 dSpark entry scratch does not fit the reused block workspace".to_owned()
            },
            StoragePlanError::PromptPositionsOverflow => {
                "DeepSeek V4 dSpark prompt-position byte count overflow".to_owned()
            },
            StoragePlanError::PromptCosSinOverflow => {
                "DeepSeek V4 dSpark prompt cos/sin byte count overflow".to_owned()
            },
            StoragePlanError::PromptRangeOverflow => {
                "DeepSeek V4 dSpark prompt metadata range overflow".to_owned()
            },
            StoragePlanError::PromptMetadata => {
                "DeepSeek V4 dSpark prompt metadata lost its target-concat reuse contract".to_owned()
            },
            StoragePlanError::EntryRegions => {
                "DeepSeek V4 dSpark entry regions exceed the startup arena".to_owned()
            },
            StoragePlanError::ProposalRowsOverflow => {
                "DeepSeek V4 dSpark proposal row count overflow".to_owned()
            },
            StoragePlanError::ProposalMetadataOverflow => {
                "DeepSeek V4 dSpark proposal metadata bytes overflow".to_owned()
            },
            StoragePlanError::ProposalResidualOverflow => {
                "DeepSeek V4 dSpark proposal residual bytes overflow".to_owned()
            },
            StoragePlanError::SharedLogitsOverflow => {
                "DeepSeek V4 dSpark shared-logits bytes overflow".to_owned()
            },
            StoragePlanError::ProposalSizes => {
                "DeepSeek V4 dSpark proposal buffer sizes disagree with the fixed five-row native ABI".to_owned()
            },
            StoragePlanError::TerminalSizes => {
                "DeepSeek V4 dSpark terminal buffers disagree with the joint batch ABI".to_owned()
            },
            StoragePlanError::BlockSizes => {
                "DeepSeek V4 dSpark sparse workspace disagrees with its global-route/shared-expert ABI".to_owned()
            },
            StoragePlanError::BlockView { view } => {
                let mut out: String = "DeepSeek V4 dSpark block ".to_owned();
                out.append(block_view_name(*view));
                out.append(" view exceeds or loses alignment in the reused workspace");
                out
            },
            StoragePlanError::ProposalView { view } => {
                let mut out: String = "DeepSeek V4 dSpark proposal ".to_owned();
                out.append(proposal_view_name(*view));
                out.append(" view exceeds or loses alignment in the startup arena");
                out
            },
            StoragePlanError::TerminalView { view } => {
                let mut out: String = "DeepSeek V4 dSpark terminal ".to_owned();
                out.append(terminal_view_name(*view));
                out.append(" view exceeds or loses alignment in the startup arena");
                out
            },
        }
    }
}

/// The limits of a plan.
#[derive(Clone, Copy, Debug)]
pub struct StorageLimits {
    pub variant: DsparkVariant,
    pub max_batch: usize,
    pub max_main_rows: usize,
    pub cache_format: DeepseekV4KvCacheFormat,
    pub cache_label: &'static str,
}

impl StorageLimits {
    /// The bytes of one packed page of one request.
    pub open spec fn page_bytes(self) -> int {
        match self.cache_format {
            DeepseekV4KvCacheFormat::Fp8Ue8m0 => DSPARK_FP8_PACKED_PAGE_BYTES as int,
            DeepseekV4KvCacheFormat::Nvfp4 => DSPARK_NVFP4_PACKED_PAGE_BYTES as int,
        }
    }

    /// Three blocks of one packed page per request.
    pub open spec fn kv_bytes(self) -> int {
        match self.cache_format {
            DeepseekV4KvCacheFormat::Fp8Ue8m0 => self.max_batch * 449_280,
            DeepseekV4KvCacheFormat::Nvfp4 => self.max_batch * 331_776,
        }
    }

    /// One hidden vector of two-byte values per main row.
    pub open spec fn projected_bytes(self) -> int {
        match self.variant {
            DsparkVariant::Flash => self.max_main_rows * 8_192,
            DsparkVariant::Pro => self.max_main_rows * 14_336,
        }
    }

    /// One word per main row.
    pub open spec fn prompt_word_bytes(self) -> int {
        self.max_main_rows * 4
    }

    /// Sixty-four four-byte values per main row.
    pub open spec fn prompt_cos_sin_bytes(self) -> int {
        self.max_main_rows * 256
    }

    /// One word per proposal row.
    pub open spec fn row_word_bytes(self) -> int {
        self.max_batch * 20
    }

    /// One hidden vector of two-byte values per proposal row.
    pub open spec fn row_hidden_bytes(self) -> int {
        match self.variant {
            DsparkVariant::Flash => self.max_batch * 40_960,
            DsparkVariant::Pro => self.max_batch * 71_680,
        }
    }

    /// Four residual lanes of two-byte values per proposal row.
    pub open spec fn residual_bytes(self) -> int {
        match self.variant {
            DsparkVariant::Flash => self.max_batch * 163_840,
            DsparkVariant::Pro => self.max_batch * 286_720,
        }
    }

    /// One four-byte score per proposal row and vocabulary entry.
    pub open spec fn shared_logits_bytes(self) -> int {
        self.max_batch * 2_585_600
    }

    /// One four-byte score per request and vocabulary entry.
    pub open spec fn markov_logits_bytes(self) -> int {
        self.max_batch * 517_120
    }

    /// One Markov embedding of two-byte values per proposal row.
    pub open spec fn markov_embeddings_bytes(self) -> int {
        match self.variant {
            DsparkVariant::Flash => self.max_batch * 2_560,
            DsparkVariant::Pro => self.max_batch * 5_120,
        }
    }

    /// Six words per request: the anchor and its proposals.
    pub open spec fn output_token_bytes(self) -> int {
        self.max_batch * 24
    }

    /// One word per request.
    pub open spec fn slot_word_bytes(self) -> int {
        self.max_batch * 4
    }

    /// Four four-byte values per proposal row.
    pub open spec fn post_bytes(self) -> int {
        self.max_batch * 80
    }

    /// Sixteen four-byte values per proposal row.
    pub open spec fn comb_bytes(self) -> int {
        self.max_batch * 320
    }

    /// Sixty-four four-byte values per proposal row.
    pub open spec fn cos_sin_bytes(self) -> int {
        self.max_batch * 1_280
    }

    /// One hundred and thirty-three words per proposal row.
    pub open spec fn selection_bytes(self) -> int {
        self.max_batch * 2_660
    }

    /// Six words per proposal row.
    pub open spec fn route_bytes(self) -> int {
        self.max_batch * 120
    }

    /// Six chosen scores and one of every expert, per proposal row.
    pub open spec fn route_score_bytes(self) -> int {
        match self.variant {
            DsparkVariant::Flash => self.max_batch * 5_240,
            DsparkVariant::Pro => self.max_batch * 7_800,
        }
    }

    /// Eight rows of the shared intermediate width, of two-byte values.
    pub open spec fn shared_workspace_bytes(self) -> int {
        match self.variant {
            DsparkVariant::Flash => 32_768,
            DsparkVariant::Pro => 49_152,
        }
    }
}

/// Range `k` of the answers.
pub open spec fn answered_range(answers: Seq<usize>, k: int) -> ArenaRange {
    ArenaRange { offset: answers[2 + 2 * k], bytes: answers[3 + 2 * k] }
}

/// The plan that the answers describe.
pub open spec fn answered_plan(
    limits: StorageLimits,
    answers: Seq<usize>,
) -> DeepseekV4DsparkDeviceStoragePlan {
    DeepseekV4DsparkDeviceStoragePlan {
        variant: limits.variant,
        cache_format: limits.cache_format,
        cache_label: limits.cache_label,
        packed_page_bytes: limits.page_bytes() as usize,
        hidden: limits.variant.hidden_spec() as usize,
        vocab: DSPARK_VOCAB,
        markov_rank: limits.variant.markov_rank_spec() as usize,
        max_batch: limits.max_batch,
        max_main_rows: limits.max_main_rows,
        arena_bytes: answers[0],
        persistent_kv_bytes: answers[1],
        kv_producer_scratch: answered_range(answers, 2),
        entry: DeepseekV4DsparkEntryDeviceStoragePlan {
            projected_target_main: answered_range(answers, 0),
            block_workspace: answered_range(answers, 1),
            target_tap_concat: answered_range(answers, 3),
            projection_scratch: answered_range(answers, 4),
            prompt_positions: answered_range(answers, 5),
            prompt_main_slots: answered_range(answers, 6),
            prompt_cos_sin: answered_range(answers, 7),
        },
        proposal: DeepseekV4DsparkProposalDeviceStoragePlan {
            draft_token_ids: answered_range(answers, 8),
            residual_ping: answered_range(answers, 9),
            residual_pong: answered_range(answers, 10),
            collapsed_hidden: answered_range(answers, 11),
            normalized_hidden: answered_range(answers, 12),
            positions: answered_range(answers, 21),
            main_slots: answered_range(answers, 22),
            cos_sin: answered_range(answers, 23),
            post_ping: answered_range(answers, 24),
            comb_ping: answered_range(answers, 25),
            post_pong: answered_range(answers, 26),
            comb_pong: answered_range(answers, 27),
            selected_indices: answered_range(answers, 28),
            selected_lengths: answered_range(answers, 29),
        },
        terminal: DeepseekV4DsparkTerminalDeviceStoragePlan {
            compact_normalized_hidden: answered_range(answers, 13),
            shared_logits: answered_range(answers, 14),
            markov_logits: answered_range(answers, 15),
            markov_embeddings: answered_range(answers, 16),
            confidence: answered_range(answers, 17),
            active_slot_ids: answered_range(answers, 18),
            anchor_token_ids: answered_range(answers, 19),
            output_token_ids: answered_range(answers, 20),
        },
        block: DeepseekV4DsparkBlockDeviceStoragePlan {
            route_indices: answered_range(answers, 30),
            route_scores: answered_range(answers, 31),
            route_weights: answered_range(answers, 32),
            shared_gate: answered_range(answers, 33),
            shared_up: answered_range(answers, 34),
            shared_activated: answered_range(answers, 35),
            shared_delta: answered_range(answers, 36),
            reduction_f32: answered_range(answers, 37),
            ffn_delta: answered_range(answers, 38),
        },
    }
}

/// The limits that a plan was made with.
pub open spec fn plan_limits(plan: DeepseekV4DsparkDeviceStoragePlan) -> StorageLimits {
    StorageLimits {
        variant: plan.variant,
        max_batch: plan.max_batch,
        max_main_rows: plan.max_main_rows,
        cache_format: plan.cache_format,
        cache_label: plan.cache_label,
    }
}

/// The entry scratch follows the concatenated taps inside the workspace.
pub open spec fn entry_scratch_ok(entry: DeepseekV4DsparkEntryDeviceStoragePlan) -> bool {
    &&& entry.projection_scratch.bytes > 0
    &&& entry.projection_scratch.offset >= entry.target_tap_concat.offset
        + entry.target_tap_concat.bytes
    &&& entry.projection_scratch.within(entry.block_workspace.bytes)
}

/// The prompt metadata has its sizes and lies where the taps are concatenated.
pub open spec fn prompt_metadata_ok(
    limits: StorageLimits,
    entry: DeepseekV4DsparkEntryDeviceStoragePlan,
) -> bool {
    &&& entry.prompt_positions.bytes == limits.prompt_word_bytes()
    &&& entry.prompt_main_slots.bytes == limits.prompt_word_bytes()
    &&& entry.prompt_cos_sin.bytes == limits.prompt_cos_sin_bytes()
    &&& entry.prompt_positions.offset % DSPARK_ENTRY_ALIGNMENT == 0
    &&& entry.prompt_main_slots.offset % DSPARK_ENTRY_ALIGNMENT == 0
    &&& entry.prompt_cos_sin.offset % DSPARK_ENTRY_ALIGNMENT == 0
    &&& entry.prompt_cos_sin.within(entry.target_tap_concat.bytes)
}

/// The regions of the entry lie in the arena.
pub open spec fn entry_regions_ok(plan: DeepseekV4DsparkDeviceStoragePlan) -> bool {
    &&& plan.entry.projected_target_main.within(plan.arena_bytes)
    &&& plan.entry.block_workspace.within(plan.arena_bytes)
    &&& plan.kv_producer_scratch.bytes > 0
    &&& plan.kv_producer_scratch.within(plan.arena_bytes)
}

pub open spec fn proposal_sizes_ok(
    limits: StorageLimits,
    proposal: DeepseekV4DsparkProposalDeviceStoragePlan,
) -> bool {
    &&& proposal.draft_token_ids.bytes == limits.row_word_bytes()
    &&& proposal.positions.bytes == limits.row_word_bytes()
    &&& proposal.main_slots.bytes == limits.row_word_bytes()
    &&& proposal.selected_lengths.bytes == limits.row_word_bytes()
    &&& proposal.residual_ping.bytes == limits.residual_bytes()
    &&& proposal.residual_pong.bytes == limits.residual_bytes()
    &&& proposal.collapsed_hidden.bytes == limits.row_hidden_bytes()
    &&& proposal.normalized_hidden.bytes == limits.row_hidden_bytes()
    &&& proposal.cos_sin.bytes == limits.cos_sin_bytes()
    &&& proposal.post_ping.bytes == limits.post_bytes()
    &&& proposal.post_pong.bytes == limits.post_bytes()
    &&& proposal.comb_ping.bytes == limits.comb_bytes()
    &&& proposal.comb_pong.bytes == limits.comb_bytes()
    &&& proposal.selected_indices.bytes == limits.selection_bytes()
}

pub open spec fn terminal_sizes_ok(
    limits: StorageLimits,
    terminal: DeepseekV4DsparkTerminalDeviceStoragePlan,
) -> bool {
    &&& terminal.compact_normalized_hidden.bytes == limits.row_hidden_bytes()
    &&& terminal.shared_logits.bytes == limits.shared_logits_bytes()
    &&& terminal.markov_logits.bytes == limits.markov_logits_bytes()
    &&& terminal.markov_embeddings.bytes == limits.markov_embeddings_bytes()
    &&& terminal.confidence.bytes == limits.row_word_bytes()
    &&& terminal.active_slot_ids.bytes == limits.slot_word_bytes()
    &&& terminal.anchor_token_ids.bytes == limits.slot_word_bytes()
    &&& terminal.output_token_ids.bytes == limits.output_token_bytes()
}

pub open spec fn block_sizes_ok(
    limits: StorageLimits,
    block: DeepseekV4DsparkBlockDeviceStoragePlan,
) -> bool {
    &&& block.route_indices.bytes == limits.route_bytes()
    &&& block.route_scores.bytes == limits.route_score_bytes()
    &&& block.route_weights.bytes == limits.route_bytes()
    &&& block.shared_gate.bytes == limits.shared_workspace_bytes()
    &&& block.shared_up.bytes == limits.shared_workspace_bytes()
    &&& block.shared_activated.bytes == limits.shared_workspace_bytes()
    &&& block.shared_delta.bytes == limits.row_hidden_bytes()
    &&& block.reduction_f32.bytes == limits.row_hidden_bytes() * 2
    &&& block.ffn_delta.bytes == limits.row_hidden_bytes()
}

/// The ranges of a sparse block in the order in which they are checked.
pub open spec fn block_views(block: DeepseekV4DsparkBlockDeviceStoragePlan) -> Seq<ArenaRange> {
    seq![
        block.route_indices,
        block.route_scores,
        block.route_weights,
        block.shared_gate,
        block.shared_up,
        block.shared_activated,
        block.shared_delta,
        block.reduction_f32,
        block.ffn_delta,
    ]
}

/// The ranges of the proposal rows in the order in which they are checked.
pub open spec fn proposal_views(
    proposal: DeepseekV4DsparkProposalDeviceStoragePlan,
) -> Seq<ArenaRange> {
    seq![
        proposal.draft_token_ids,
        proposal.residual_ping,
        proposal.residual_pong,
        proposal.collapsed_hidden,
        proposal.normalized_hidden,
        proposal.positions,
        proposal.main_slots,
        proposal.cos_sin,
        proposal.post_ping,
        proposal.comb_ping,
        proposal.post_pong,
        proposal.comb_pong,
        proposal.selected_indices,
        proposal.selected_lengths,
    ]
}

/// The ranges of the terminal head in the order in which they are checked.
pub open spec fn terminal_views(
    terminal: DeepseekV4DsparkTerminalDeviceStoragePlan,
) -> Seq<ArenaRange> {
    seq![
        terminal.compact_normalized_hidden,
        terminal.shared_logits,
        terminal.markov_logits,
        terminal.markov_embeddings,
        terminal.confidence,
        terminal.active_slot_ids,
        terminal.anchor_token_ids,
        terminal.output_token_ids,
    ]
}

/// Every range is aligned and lies in `limit` bytes.
pub open spec fn all_placed(views: Seq<ArenaRange>, alignment: usize, limit: usize) -> bool {
    forall|i: int| 0 <= i < views.len() ==> (#[trigger] views[i]).placed(alignment, limit)
}

/// `i` is the first range that is not.
pub open spec fn first_misplaced(
    views: Seq<ArenaRange>,
    alignment: usize,
    limit: usize,
    i: int,
) -> bool {
    &&& 0 <= i < views.len()
    &&& !views[i].placed(alignment, limit)
    &&& forall|j: int| 0 <= j < i ==> (#[trigger] views[j]).placed(alignment, limit)
}

/// The first thing that does not hold of the pages, the entry and the prompt
/// metadata of a plan.
pub open spec fn entry_error(
    limits: StorageLimits,
    plan: DeepseekV4DsparkDeviceStoragePlan,
) -> Option<StoragePlanError> {
    let entry = plan.entry;
    let projected = limits.projected_bytes();
    if limits.kv_bytes() > usize::MAX {
        Some(StoragePlanError::KvOverflow)
    } else if plan.persistent_kv_bytes != limits.kv_bytes() {
        Some(
            StoragePlanError::KvBytes {
                got: plan.persistent_kv_bytes,
                expected: limits.kv_bytes() as usize,
            },
        )
    } else if plan.arena_bytes == 0 {
        Some(StoragePlanError::EmptyArena)
    } else if projected > usize::MAX {
        Some(StoragePlanError::ProjectedOverflow)
    } else if 3 * projected > usize::MAX {
        Some(StoragePlanError::ConcatOverflow)
    } else if entry.projected_target_main.bytes != projected {
        Some(
            StoragePlanError::ProjectedBytes {
                got: entry.projected_target_main.bytes,
                expected: projected as usize,
            },
        )
    } else if entry.target_tap_concat.bytes != 3 * projected {
        Some(
            StoragePlanError::ConcatBytes {
                got: entry.target_tap_concat.bytes,
                expected: (3 * projected) as usize,
            },
        )
    } else if entry.target_tap_concat.offset % DSPARK_ENTRY_ALIGNMENT != 0
        || entry.projection_scratch.offset % DSPARK_ENTRY_ALIGNMENT != 0 {
        Some(StoragePlanError::EntryAlignment)
    } else if entry.target_tap_concat.offset + entry.target_tap_concat.bytes > usize::MAX {
        Some(StoragePlanError::ConcatRangeOverflow)
    } else if entry.projection_scratch.offset + entry.projection_scratch.bytes > usize::MAX {
        Some(StoragePlanError::ProjectionRangeOverflow)
    } else if !entry_scratch_ok(entry) {
        Some(StoragePlanError::EntryScratch)
    } else if limits.prompt_word_bytes() > usize::MAX {
        Some(StoragePlanError::PromptPositionsOverflow)
    } else if limits.prompt_cos_sin_bytes() > usize::MAX {
        Some(StoragePlanError::PromptCosSinOverflow)
    } else if entry.prompt_cos_sin.offset + entry.prompt_cos_sin.bytes > usize::MAX {
        Some(StoragePlanError::PromptRangeOverflow)
    } else if !prompt_metadata_ok(limits, entry) {
        Some(StoragePlanError::PromptMetadata)
    } else if !entry_regions_ok(plan) {
        Some(StoragePlanError::EntryRegions)
    } else {
        None
    }
}

/// The first thing that does not hold of the sizes of the proposal, terminal
/// and block ranges.
pub open spec fn size_error(
    limits: StorageLimits,
    plan: DeepseekV4DsparkDeviceStoragePlan,
) -> Option<StoragePlanError> {
    if limits.max_batch * 5 > usize::MAX {
        Some(StoragePlanError::ProposalRowsOverflow)
    } else if limits.row_word_bytes() > usize::MAX {
        Some(StoragePlanError::ProposalMetadataOverflow)
    } else if limits.residual_bytes() > usize::MAX {
        Some(StoragePlanError::ProposalResidualOverflow)
    } else if limits.shared_logits_bytes() > usize::MAX {
        Some(StoragePlanError::SharedLogitsOverflow)
    } else if !proposal_sizes_ok(limits, plan.proposal) {
        Some(StoragePlanError::ProposalSizes)
    } else if !terminal_sizes_ok(limits, plan.terminal) {
        Some(StoragePlanError::TerminalSizes)
    } else if !block_sizes_ok(limits, plan.block) {
        Some(StoragePlanError::BlockSizes)
    } else {
        None
    }
}

/// The first range that is not placed.
pub open spec fn view_refused(
    plan: DeepseekV4DsparkDeviceStoragePlan,
    error: StoragePlanError,
) -> bool {
    let workspace = plan.entry.block_workspace.bytes;
    let blocks = block_views(plan.block);
    let proposals = proposal_views(plan.proposal);
    let terminals = terminal_views(plan.terminal);
    if !all_placed(blocks, DSPARK_ENTRY_ALIGNMENT, workspace) {
        error matches StoragePlanError::BlockView { view } && first_misplaced(
            blocks,
            DSPARK_ENTRY_ALIGNMENT,
            workspace,
            view as int,
        )
    } else if !all_placed(proposals, DSPARK_ARENA_ALIGNMENT, plan.arena_bytes) {
        error matches StoragePlanError::ProposalView { view } && first_misplaced(
            proposals,
            DSPARK_ARENA_ALIGNMENT,
            plan.arena_bytes,
            view as int,
        )
    } else {
        error matches StoragePlanError::TerminalView { view } && first_misplaced(
            terminals,
            DSPARK_ARENA_ALIGNMENT,
            plan.arena_bytes,
            view as int,
        )
    }
}

/// All ranges are placed.
pub open spec fn views_placed(plan: DeepseekV4DsparkDeviceStoragePlan) -> bool {
    &&& all_placed(
        block_views(plan.block),
        DSPARK_ENTRY_ALIGNMENT,
        plan.entry.block_workspace.bytes,
    )
    &&& all_placed(proposal_views(plan.proposal), DSPARK_ARENA_ALIGNMENT, plan.arena_bytes)
    &&& all_placed(terminal_views(plan.terminal), DSPARK_ARENA_ALIGNMENT, plan.arena_bytes)
}

/// The plan meets everything that the native kernels rely on.
pub open spec fn plan_valid(plan: DeepseekV4DsparkDeviceStoragePlan) -> bool {
    let limits = plan_limits(plan);
    &&& plan.max_batch > 0
    &&& plan.max_main_rows > 0
    &&& plan.packed_page_bytes == limits.page_bytes()
    &&& plan.hidden == plan.variant.hidden_spec()
    &&& plan.vocab == DSPARK_VOCAB
    &&& plan.markov_rank == plan.variant.markov_rank_spec()
    &&& entry_error(limits, plan) is None
    &&& size_error(limits, plan) is None
    &&& views_placed(plan)
}

/// The answers make a plan.
pub open spec fn plan_accepted(limits: StorageLimits, answers: Seq<usize>) -> bool {
    let plan = answered_plan(limits, answers);
    &&& limits.max_batch > 0
    &&& limits.max_main_rows > 0
    &&& answers.len() == LAYOUT_QUERIES
    &&& entry_error(limits, plan) is None
    &&& size_error(limits, plan) is None
    &&& views_placed(plan)
}

/// The first reason why the answers make no plan.
pub open spec fn plan_refused(
    limits: StorageLimits,
    answers: Seq<usize>,
    error: StoragePlanError,
) -> bool {
    let plan = answered_plan(limits, answers);
    if limits.max_batch == 0 {
        error == StoragePlanError::ZeroBatch
    } else if limits.max_main_rows == 0 {
        error == StoragePlanError::ZeroMainRows
    } else if answers.len() != LAYOUT_QUERIES {
        error == (StoragePlanError::AnswerCount { answers: answers.len() as usize })
    } else if entry_error(limits, plan) is Some {
        error == entry_error(limits, plan)->Some_0
    } else if size_error(limits, plan) is Some {
        error == size_error(limits, plan)->Some_0
    } else {
        !views_placed(plan) && view_refused(plan, error)
    }
}

fn misplaced_view(views: &Vec<ArenaRange>, alignment: usize, limit: usize) -> (view: Option<usize>)
    requires
        alignment > 0,
    ensures
        match view {
            Some(i) => first_misplaced(views@, alignment, limit, i as int),
            None => all_placed(views@, alignment, limit),
        },
{
    let mut i: usize = 0;
    while i < views.len()
        invariant
            i <= views@.len(),
            alignment > 0,
            forall|j: int| 0 <= j < i ==> (#[trigger] views@[j]).placed(alignment, limit),
        decreases views@.len() - i,
    {
        if !views[i].is_placed(alignment, limit) {
            return Some(i);
        }
        i = i + 1;
    }
    None
}

fn range_at(answers: &[usize], k: usize) -> (range: ArenaRange)
    requires
        answers@.len() == LAYOUT_QUERIES,
        k < 39,
    ensures
        range == answered_range(answers@, k as int),
{
    ArenaRange { offset: answers[2 + 2 * k], bytes: answers[3 + 2 * k] }
}

fn read_plan(limits: StorageLimits, answers: &[usize]) -> (plan: DeepseekV4DsparkDeviceStoragePlan)
    requires
        answers@.len() == LAYOUT_QUERIES,
    ensures
        plan == answered_plan(limits, answers@),
{
    let packed_page_bytes: usize = match limits.cache_format {
        DeepseekV4KvCacheFormat::Fp8Ue8m0 => DSPARK_FP8_PACKED_PAGE_BYTES,
        DeepseekV4KvCacheFormat::Nvfp4 => DSPARK_NVFP4_PACKED_PAGE_BYTES,
    };
    DeepseekV4DsparkDeviceStoragePlan {
        variant: limits.variant,
        cache_format: limits.cache_format,
        cache_label: limits.cache_label,
        packed_page_bytes,
        hidden: limits.variant.hidden(),
        vocab: DSPARK_VOCAB,
        markov_rank: limits.variant.markov_rank(),
        max_batch: limits.max_batch,
        max_main_rows: limits.max_main_rows,
        arena_bytes: answers[0],
        persistent_kv_bytes: answers[1],
        kv_producer_scratch: range_at(answers, 2),
        entry: DeepseekV4DsparkEntryDeviceStoragePlan {
            projected_target_main: range_at(answers, 0),
            block_workspace: range_at(answers, 1),
            target_tap_concat: range_at(answers, 3),
            projection_scratch: range_at(answers, 4),
            prompt_positions: range_at(answers, 5),
            prompt_main_slots: range_at(answers, 6),
            prompt_cos_sin: range_at(answers, 7),
        },
        proposal: DeepseekV4DsparkProposalDeviceStoragePlan {
            draft_token_ids: range_at(answers, 8),
            residual_ping: range_at(answers, 9),
            residual_pong: range_at(answers, 10),
            collapsed_hidden: range_at(answers, 11),
            normalized_hidden: range_at(answers, 12),
            positions: range_at(answers, 21),
            main_slots: range_at(answers, 22),
            cos_sin: range_at(answers, 23),
            post_ping: range_at(answers, 24),
            comb_ping: range_at(answers, 25),
            post_pong: range_at(answers, 26),
            comb_pong: range_at(answers, 27),
            selected_indices: range_at(answers, 28),
            selected_lengths: range_at(answers, 29),
        },
        terminal: DeepseekV4DsparkTerminalDeviceStoragePlan {
            compact_normalized_hidden: range_at(answers, 13),
            shared_logits: range_at(answers, 14),
            markov_logits: range_at(answers, 15),
            markov_embeddings: range_at(answers, 16),
            confidence: range_at(answers, 17),
            active_slot_ids: range_at(answers, 18),
            anchor_token_ids: range_at(answers, 19),
            output_token_ids: range_at(answers, 20),
        },
        block: DeepseekV4DsparkBlockDeviceStoragePlan {
            route_indices: range_at(answers, 30),
            route_scores: range_at(answers, 31),
            route_weights: range_at(answers, 32),
            shared_gate: range_at(answers, 33),
            shared_up: range_at(answers, 34),
            shared_activated: range_at(answers, 35),
            shared_delta: range_at(answers, 36),
            reduction_f32: range_at(answers, 37),
            ffn_delta: range_at(answers, 38),
        },
    }
}

fn check_entry(limits: StorageLimits, plan: &DeepseekV4DsparkDeviceStoragePlan) -> (error: Option<
    StoragePlanError,
>)
    ensures
        error == entry_error(limits, *plan),
{
    let entry = plan.entry;
    let page_set: usize = match limits.cache_format {
        DeepseekV4KvCacheFormat::Fp8Ue8m0 => 449_280,
        DeepseekV4KvCacheFormat::Nvfp4 => 331_776,
    };
    let kv_bytes: usize = match limits.max_batch.checked_mul(page_set) {
        Some(bytes) => bytes,
        None => return Some(StoragePlanError::KvOverflow),
    };
    if plan.persistent_kv_bytes != kv_bytes {
        return Some(
            StoragePlanError::KvBytes { got: plan.persistent_kv_bytes, expected: kv_bytes },
        );
    }
    if plan.arena_bytes == 0 {
        return Some(StoragePlanError::EmptyArena);
    }
    let row_bytes: usize = match limits.variant {
        DsparkVariant::Flash => 8_192,
        DsparkVariant::Pro => 14_336,
    };
    let projected: usize = match limits.max_main_rows.checked_mul(row_bytes) {
        Some(bytes) => bytes,
        None => return Some(StoragePlanError::ProjectedOverflow),
    };
    let concat: usize = match projected.checked_mul(3) {
        Some(bytes) => bytes,
        None => return Some(StoragePlanError::ConcatOverflow),
    };
    if entry.projected_target_main.bytes != projected {
        return Some(
            StoragePlanError::ProjectedBytes {
                got: entry.projected_target_main.bytes,
                expected: projected,
            },
        );
    }
    if entry.target_tap_concat.bytes != concat {
        return Some(
            StoragePlanError::ConcatBytes { got: entry.target_tap_concat.bytes, expected: concat },
        );
    }
    if entry.target_tap_concat.offset % DSPARK_ENTRY_ALIGNMENT != 0
        || entry.projection_scratch.offset % DSPARK_ENTRY_ALIGNMENT != 0 {
        return Some(StoragePlanError::EntryAlignment);
    }
    let concat_end: usize = match entry.target_tap_concat.offset.checked_add(
        entry.target_tap_concat.bytes,
    ) {
        Some(end) => end,
        None => return Some(StoragePlanError::ConcatRangeOverflow),
    };
    let projection_end: usize = match entry.projection_scratch.offset.checked_add(
        entry.projection_scratch.bytes,
    ) {
        Some(end) => end,
        None => return Some(StoragePlanError::ProjectionRangeOverflow),
    };
    if entry.projection_scratch.bytes == 0 || entry.projection_scratch.offset < concat_end
        || projection_end > entry.block_workspace.bytes {
        return Some(StoragePlanError::EntryScratch);
    }
    let word_bytes: usize = match limits.max_main_rows.checked_mul(4) {
        Some(bytes) => bytes,
        None => return Some(StoragePlanError::PromptPositionsOverflow),
    };
    let cos_sin_bytes: usize = match limits.max_main_rows.checked_mul(256) {
        Some(bytes) => bytes,
        None => return Some(StoragePlanError::PromptCosSinOverflow),
    };
    let prompt_end: usize = match entry.prompt_cos_sin.offset.checked_add(
        entry.prompt_cos_sin.bytes,
    ) {
        Some(end) => end,
        None => return Some(StoragePlanError::PromptRangeOverflow),
    };
    if entry.prompt_positions.bytes != word_bytes || entry.prompt_main_slots.bytes != word_bytes
        || entry.prompt_cos_sin.bytes != cos_sin_bytes || entry.prompt_positions.offset
        % DSPARK_ENTRY_ALIGNMENT != 0 || entry.prompt_main_slots.offset % DSPARK_ENTRY_ALIGNMENT
        != 0 || entry.prompt_cos_sin.offset % DSPARK_ENTRY_ALIGNMENT != 0 || prompt_end
        > entry.target_tap_concat.bytes {
        return Some(StoragePlanError::PromptMetadata);
    }
    if !entry.projected_target_main.is_within(plan.arena_bytes)
        || !entry.block_workspace.is_within(plan.arena_bytes) || plan.kv_producer_scratch.bytes == 0
        || !plan.kv_producer_scratch.is_within(plan.arena_bytes) {
        return Some(StoragePlanError::EntryRegions);
    }
    None
}

fn proposal_sizes_hold(
    limits: StorageLimits,
    proposal: &DeepseekV4DsparkProposalDeviceStoragePlan,
    row_hidden: usize,
    residual: usize,
) -> (r: bool)
    requires
        limits.shared_logits_bytes() <= usize::MAX,
        row_hidden == limits.row_hidden_bytes(),
        residual == limits.residual_bytes(),
    ensures
        r == proposal_sizes_ok(limits, *proposal),
{
    let batch: usize = limits.max_batch;
    let words: usize = batch * 20;
    proposal.draft_token_ids.bytes == words && proposal.positions.bytes == words
        && proposal.main_slots.bytes == words && proposal.selected_lengths.bytes == words
        && proposal.residual_ping.bytes == residual && proposal.residual_pong.bytes == residual
        && proposal.collapsed_hidden.bytes == row_hidden && proposal.normalized_hidden.bytes
        == row_hidden && proposal.cos_sin.bytes == batch * 1_280 && proposal.post_ping.bytes
        == batch * 80 && proposal.post_pong.bytes == batch * 80 && proposal.comb_ping.bytes == batch
        * 320 && proposal.comb_pong.bytes == batch * 320 && proposal.selected_indices.bytes == batch
        * 2_660
}

fn terminal_sizes_hold(
    limits: StorageLimits,
    terminal: &DeepseekV4DsparkTerminalDeviceStoragePlan,
    row_hidden: usize,
) -> (r: bool)
    requires
        limits.shared_logits_bytes() <= usize::MAX,
        row_hidden == limits.row_hidden_bytes(),
    ensures
        r == terminal_sizes_ok(limits, *terminal),
{
    let batch: usize = limits.max_batch;
    let embeddings: usize = match limits.variant {
        DsparkVariant::Flash => batch * 2_560,
        DsparkVariant::Pro => batch * 5_120,
    };
    terminal.compact_normalized_hidden.bytes == row_hidden && terminal.shared_logits.bytes == batch
        * 2_585_600 && terminal.markov_logits.bytes == batch * 517_120
        && terminal.markov_embeddings.bytes == embeddings && terminal.confidence.bytes == batch * 20
        && terminal.active_slot_ids.bytes == batch * 4 && terminal.anchor_token_ids.bytes == batch
        * 4 && terminal.output_token_ids.bytes == batch * 24
}

fn block_sizes_hold(
    limits: StorageLimits,
    block: &DeepseekV4DsparkBlockDeviceStoragePlan,
    row_hidden: usize,
) -> (r: bool)
    requires
        limits.shared_logits_bytes() <= usize::MAX,
        row_hidden == limits.row_hidden_bytes(),
        row_hidden * 2 <= usize::MAX,
    ensures
        r == block_sizes_ok(limits, *block),
{
    let batch: usize = limits.max_batch;
    let scores: usize = match limits.variant {
        DsparkVariant::Flash => batch * 5_240,
        DsparkVariant::Pro => batch * 7_800,
    };
    let shared: usize = match limits.variant {
        DsparkVariant::Flash => 32_768,
        DsparkVariant::Pro => 49_152,
    };
    block.route_indices.bytes == batch * 120 && block.route_scores.bytes == scores
        && block.route_weights.bytes == batch * 120 && block.shared_gate.bytes == shared
        && block.shared_up.bytes == shared && block.shared_activated.bytes == shared
        && block.shared_delta.bytes == row_hidden && block.reduction_f32.bytes == row_hidden * 2
        && block.ffn_delta.bytes == row_hidden
}

fn check_sizes(limits: StorageLimits, plan: &DeepseekV4DsparkDeviceStoragePlan) -> (error: Option<
    StoragePlanError,
>)
    ensures
        error == size_error(limits, *plan),
{
    let batch: usize = limits.max_batch;
    if batch.checked_mul(5).is_none() {
        return Some(StoragePlanError::ProposalRowsOverflow);
    }
    if batch.checked_mul(20).is_none() {
        return Some(StoragePlanError::ProposalMetadataOverflow);
    }
    let residual_unit: usize = match limits.variant {
        DsparkVariant::Flash => 163_840,
        DsparkVariant::Pro => 286_720,
    };
    let residual: usize = match batch.checked_mul(residual_unit) {
        Some(bytes) => bytes,
        None => return Some(StoragePlanError::ProposalResidualOverflow),
    };
    if batch.checked_mul(2_585_600).is_none() {
        return Some(StoragePlanError::SharedLogitsOverflow);
    }
    let row_hidden: usize = match limits.variant {
        DsparkVariant::Flash => batch * 40_960,
        DsparkVariant::Pro => batch * 71_680,
    };
    if !proposal_sizes_hold(limits, &plan.proposal, row_hidden, residual) {
        return Some(StoragePlanError::ProposalSizes);
    }
    if !terminal_sizes_hold(limits, &plan.terminal, row_hidden) {
        return Some(StoragePlanError::TerminalSizes);
    }
    if !block_sizes_hold(limits, &plan.block, row_hidden) {
        return Some(StoragePlanError::BlockSizes);
    }
    None
}

fn check_views(plan: &DeepseekV4DsparkDeviceStoragePlan) -> (error: Option<StoragePlanError>)
    ensures
        match error {
            Some(e) => !views_placed(*plan) && view_refused(*plan, e),
            None => views_placed(*plan),
        },
{
    let block = plan.block;
    let blocks: Vec<ArenaRange> = vec![
        block.route_indices,
        block.route_scores,
        block.route_weights,
        block.shared_gate,
        block.shared_up,
        block.shared_activated,
        block.shared_delta,
        block.reduction_f32,
        block.ffn_delta,
    ];
    assert(blocks@ =~= block_views(plan.block));
    if let Some(view) = misplaced_view(
        &blocks,
        DSPARK_ENTRY_ALIGNMENT,
        plan.entry.block_workspace.bytes,
    ) {
        return Some(StoragePlanError::BlockView { view });
    }
    let proposal = plan.proposal;
    let proposals: Vec<ArenaRange> = vec![
        proposal.draft_token_ids,
        proposal.residual_ping,
        proposal.residual_pong,
        proposal.collapsed_hidden,
        proposal.normalized_hidden,
        proposal.positions,
        proposal.main_slots,
        proposal.cos_sin,
        proposal.post_ping,
        proposal.comb_ping,
        proposal.post_pong,
        proposal.comb_pong,
        proposal.selected_indices,
        proposal.selected_lengths,
    ];
    assert(proposals@ =~= proposal_views(plan.proposal));
    if let Some(view) = misplaced_view(&proposals, DSPARK_ARENA_ALIGNMENT, plan.arena_bytes) {
        return Some(StoragePlanError::ProposalView { view });
    }
    let terminal = plan.terminal;
    let terminals: Vec<ArenaRange> = vec![
        terminal.compact_normalized_hidden,
        terminal.shared_logits,
        terminal.markov_logits,
        terminal.markov_embeddings,
        terminal.confidence,
        terminal.active_slot_ids,
        terminal.anchor_token_ids,
        terminal.output_token_ids,
    ];
    assert(terminals@ =~= terminal_views(plan.terminal));
    if let Some(view) = misplaced_view(&terminals, DSPARK_ARENA_ALIGNMENT, plan.arena_bytes) {
        return Some(StoragePlanError::TerminalView { view });
    }
    None
}

/// The limits of a plan for the variant with a given name.
pub open spec fn limits_of(
    variant: DsparkVariant,
    max_batch: usize,
    max_main_rows: usize,
    cache_format: DeepseekV4KvCacheFormat,
    cache_label: &'static str,
) -> StorageLimits {
    StorageLimits { variant, max_batch, max_main_rows, cache_format, cache_label }
}

/// The storage plan of a variant, from the answers to its layout queries.
/// `fp8_label` is the name by which the kernels know the 8-bit format.
pub fn plan_deepseek_v4_dspark_device_storage_with_cache_format(
    variant: &str,
    max_batch: usize,
    max_main_rows: usize,
    cache_format: DeepseekV4KvCacheFormat,
    fp8_label: &'static str,
    answers: &[usize],
) -> (result: Result<DeepseekV4DsparkDeviceStoragePlan, StoragePlanError>)
    ensures
        variant@ != "flash"@ && variant@ != "pro"@ ==> (result matches Err(e) && e matches
            StoragePlanError::Variant { variant: named } && named@ == variant@),
        variant@ == "flash"@ ==> planned(
            result,
            limits_of(
                DsparkVariant::Flash,
                max_batch,
                max_main_rows,
                cache_format,
                cache_format.label_for(fp8_label),
            ),
            answers@,
        ),
        variant@ == "pro"@ && variant@ != "flash"@ ==> planned(
            result,
            limits_of(
                DsparkVariant::Pro,
                max_batch,
                max_main_rows,
                cache_format,
                cache_format.label_for(fp8_label),
            ),
            answers@,
        ),
        cache_format is Nvfp4 ==> (result matches Ok(plan) ==> plan.cache_label@ == "nvfp4"@),
{
    let variant: DsparkVariant = match DsparkVariant::from_label(variant) {
        Some(variant) => variant,
        None => return Err(StoragePlanError::Variant { variant: variant.to_owned() }),
    };
    if max_batch == 0 {
        return Err(StoragePlanError::ZeroBatch);
    }
    if max_main_rows == 0 {
        return Err(StoragePlanError::ZeroMainRows);
    }
    if answers.len() != LAYOUT_QUERIES {
        return Err(StoragePlanError::AnswerCount { answers: answers.len() });
    }
    let limits = StorageLimits {
        variant,
        max_batch,
        max_main_rows,
        cache_format,
        cache_label: cache_format.kernel_label(fp8_label),
    };
    let plan = read_plan(limits, answers);
    if let Some(error) = check_entry(limits, &plan) {
        return Err(error);
    }
    if let Some(error) = check_sizes(limits, &plan) {
        return Err(error);
    }
    if let Some(error) = check_views(&plan) {
        return Err(error);
    }
    Ok(plan)
}

/// The result is the plan of the answers, or the first reason against it.
pub open spec fn planned(
    result: Result<DeepseekV4DsparkDeviceStoragePlan, StoragePlanError>,
    limits: StorageLimits,
    answers: Seq<usize>,
) -> bool {
    match result {
        Ok(plan) => plan_accepted(limits, answers) && plan == answered_plan(limits, answers)
            && plan_valid(plan),
        Err(e) => !plan_accepted(limits, answers) && plan_refused(limits, answers, e),
    }
}

/// The storage plan with pages in the 8-bit format.
pub fn plan_deepseek_v4_dspark_device_storage(
    variant: &str,
    max_batch: usize,
    max_main_rows: usize,
    fp8_label: &'static str,
    answers: &[usize],
) -> (result: Result<DeepseekV4DsparkDeviceStoragePlan, StoragePlanError>)
    ensures
        variant@ != "flash"@ && variant@ != "pro"@ ==> (result matches Err(e) && e matches
            StoragePlanError::Variant { variant: named } && named@ == variant@),
        variant@ == "flash"@ ==> planned(
            result,
            limits_of(
                DsparkVariant::Flash,
                max_batch,
                max_main_rows,
                DeepseekV4KvCacheFormat::Fp8Ue8m0,
                fp8_label,
            ),
            answers@,
        ),
        variant@ == "pro"@ && variant@ != "flash"@ ==> planned(
            result,
            limits_of(
                DsparkVariant::Pro,
                max_batch,
                max_main_rows,
                DeepseekV4KvCacheFormat::Fp8Ue8m0,
                fp8_label,
            ),
            answers@,
        ),
{
    plan_deepseek_v4_dspark_device_storage_with_cache_format(
        variant,
        max_batch,
        max_main_rows,
        DeepseekV4KvCacheFormat::Fp8Ue8m0,
        fp8_label,
        answers,
    )
}

/// The byte counts of a plan follow from the geometry: rows per request times
/// values per row times bytes per value.
pub proof fn law_sizes_follow_geometry(limits: StorageLimits)
    ensures
        limits.kv_bytes() == limits.max_batch * (DSPARK_BLOCKS * limits.page_bytes()),
        limits.projected_bytes() == limits.max_main_rows * (limits.variant.hidden_spec() * 2),
        limits.row_word_bytes() == limits.max_batch * (DSPARK_PROPOSAL_ROWS_PER_REQUEST * 4),
        limits.row_hidden_bytes() == limits.max_batch * (DSPARK_PROPOSAL_ROWS_PER_REQUEST
            * limits.variant.hidden_spec() * 2),
        limits.residual_bytes() == limits.max_batch * (DSPARK_PROPOSAL_ROWS_PER_REQUEST
            * DSPARK_PROPOSAL_HC_MULT * limits.variant.hidden_spec() * 2),
        limits.shared_logits_bytes() == limits.max_batch * (DSPARK_PROPOSAL_ROWS_PER_REQUEST
            * DSPARK_VOCAB * 4),
        limits.markov_logits_bytes() == limits.max_batch * (DSPARK_VOCAB * 4),
        limits.markov_embeddings_bytes() == limits.max_batch * (DSPARK_PROPOSAL_ROWS_PER_REQUEST
            * limits.variant.markov_rank_spec() * 2),
        limits.post_bytes() == limits.max_batch * (DSPARK_PROPOSAL_ROWS_PER_REQUEST
            * DSPARK_PROPOSAL_HC_MULT * 4),
        limits.comb_bytes() == limits.max_batch * (DSPARK_PROPOSAL_ROWS_PER_REQUEST
            * DSPARK_PROPOSAL_HC_MULT * DSPARK_PROPOSAL_HC_MULT * 4),
        limits.selection_bytes() == limits.max_batch * (DSPARK_PROPOSAL_ROWS_PER_REQUEST
            * DSPARK_PROPOSAL_SELECTION_WIDTH * 4),
        limits.route_bytes() == limits.max_batch * (DSPARK_PROPOSAL_ROWS_PER_REQUEST * DSPARK_TOP_K
            * 4),
        limits.route_score_bytes() == limits.max_batch * (DSPARK_PROPOSAL_ROWS_PER_REQUEST * (
        DSPARK_TOP_K + limits.variant.routed_experts_spec()) * 4),
        limits.shared_workspace_bytes() == 8 * limits.variant.shared_intermediate_spec() * 2,
{
    match limits.variant {
        DsparkVariant::Flash => {},
        DsparkVariant::Pro => {},
    }
}

} // verus!
