//! What is said of the errors of the drafter.
use vstd::prelude::*;

use crate::dspark::entry::{
    EntryError, EntryRequest, LaneSumPreloadError, NoEntryRows, TargetTap,
};
use crate::dspark::graphs::{GraphError, GraphKey};
use crate::dspark::plan::DsparkVariant;
use crate::dspark::routes::RouteError;
use crate::dspark::run::{
    ProposalInputError, RunError, SparsePreparationError, TerminalHeadError, TerminalRunError,
};
use crate::model::ModelFacts;
use crate::sparse_block::{variant_label, variant_name, SparseConstants};
use crate::text::{append_decimal, append_signed, append_size, decimal, signed_decimal};

verus! {

impl NoEntryRows {
    pub open spec fn text(self) -> Seq<char> {
        "dSpark entry chunk remaining row count must be positive"@
    }

    pub fn message(&self) -> (out: String)
        ensures
            out@ == self.text(),
    {
        "dSpark entry chunk remaining row count must be positive".to_owned()
    }
}

impl EntryError {
    /// What is said of a request that is not projected: `width` is the width of
    /// the plan and `rope_theta` the text of the rotary base.
    pub open spec fn text(
        self,
        request: EntryRequest,
        taps: [TargetTap; 3],
        width: usize,
        rope_theta: Seq<char>,
    ) -> Seq<char> {
        match self {
            EntryError::NotPrepared =>
                "integrated dSpark entry and prompt-prime graphs are not prepared"@,
            EntryError::NoRows =>
                "integrated dSpark entry projection requires at least one committed row"@,
            EntryError::Slot { slot, max_batch } =>
                "integrated dSpark request slot "@ + decimal(slot as nat) + " exceeds max batch "@
                + decimal(max_batch as nat),
            EntryError::RopeTheta =>
                "integrated dSpark RoPE theta must be finite and positive, got "@ + rope_theta,
            EntryError::RowRangeOverflow => "integrated dSpark target row range overflow"@,
            EntryError::Tap { tap } =>
                "integrated dSpark target tap "@ + decimal(tap as nat) + " must cover rows "@
                + decimal(request.target_row_start as nat) + ".."@
                + decimal((request.target_row_start + request.committed_rows) as nat)
                + " at width "@ + decimal(width as nat) + " on GPU0, got "@
                + decimal(taps@[tap as int].rows as nat) + "x"@
                + decimal(taps@[tap as int].values_per_row as nat) + " on device "@
                + signed_decimal(taps@[tap as int].buffer.device_id as int),
            EntryError::Views { error } => error.text(),
            EntryError::SourceOffsetOverflow => "integrated dSpark source byte offset overflow"@,
            EntryError::SourceOffset { tap: _ } =>
                "integrated dSpark target tap source offset exceeds buffer"@,
            EntryError::PositionOverflow => "integrated dSpark absolute prompt position overflow"@,
        }
    }

    pub fn message(
        &self,
        request: &EntryRequest,
        taps: &[TargetTap; 3],
        width: usize,
        rope_theta: &str,
    ) -> (out: String)
        requires
            *self matches EntryError::Tap { tap } ==> tap < 3 && request.target_row_start
                + request.committed_rows <= usize::MAX,
        ensures
            out@ == self.text(*request, *taps, width, rope_theta@),
    {
        match self {
            EntryError::NotPrepared => {
                "integrated dSpark entry and prompt-prime graphs are not prepared".to_owned()
            },
            EntryError::NoRows => {
                "integrated dSpark entry projection requires at least one committed row".to_owned()
            },
            EntryError::Slot { slot, max_batch } => {
                let mut out: String = "integrated dSpark request slot ".to_owned();
                append_size(&mut out, *slot);
                out.append(" exceeds max batch ");
                append_size(&mut out, *max_batch);
                out
            },
            EntryError::RopeTheta => {
                let mut out: String =
                    "integrated dSpark RoPE theta must be finite and positive, got ".to_owned();
                out.append(rope_theta);
                out
            },
            EntryError::RowRangeOverflow => {
                "integrated dSpark target row range overflow".to_owned()
            },
            EntryError::Tap { tap } => {
                let mut out: String = "integrated dSpark target tap ".to_owned();
                append_size(&mut out, *tap);
                out.append(" must cover rows ");
                append_size(&mut out, request.target_row_start);
                out.append("..");
                append_size(&mut out, request.target_row_start + request.committed_rows);
                out.append(" at width ");
                append_size(&mut out, width);
                out.append(" on GPU0, got ");
                append_size(&mut out, taps[*tap].rows);
                out.append("x");
                append_size(&mut out, taps[*tap].values_per_row);
                out.append(" on device ");
                append_signed(&mut out, taps[*tap].buffer.device_id);
                out
            },
            EntryError::Views { error } => error.message(),
            EntryError::SourceOffsetOverflow => {
                "integrated dSpark source byte offset overflow".to_owned()
            },
            EntryError::SourceOffset { tap: _ } => {
                "integrated dSpark target tap source offset exceeds buffer".to_owned()
            },
            EntryError::PositionOverflow => {
                "integrated dSpark absolute prompt position overflow".to_owned()
            },
        }
    }
}

impl LaneSumPreloadError {
    /// What is said of a function that is not made resident, for a model of a
    /// hidden width.
    pub open spec fn text(self, hidden: usize) -> Seq<char> {
        match self {
            LaneSumPreloadError::SourceBytesOverflow => if 4 * hidden > usize::MAX {
                "integrated dSpark block-zero HC source width overflow"@
            } else if 96 * hidden > usize::MAX {
                "integrated dSpark block-zero HC source values overflow"@
            } else {
                "integrated dSpark block-zero HC source bytes overflow"@
            },
            LaneSumPreloadError::Tensor { columns } =>
                "integrated dSpark block-zero attention HC function must be F32 [24, "@
                + decimal(columns as nat) + "]"@,
        }
    }

    pub fn message(&self, hidden: usize) -> (out: String)
        ensures
            out@ == self.text(hidden),
    {
        match self {
            LaneSumPreloadError::SourceBytesOverflow => if hidden > usize::MAX / 4 {
                "integrated dSpark block-zero HC source width overflow".to_owned()
            } else if hidden > usize::MAX / 96 {
                "integrated dSpark block-zero HC source values overflow".to_owned()
            } else {
                "integrated dSpark block-zero HC source bytes overflow".to_owned()
            },
            LaneSumPreloadError::Tensor { columns } => {
                let mut out: String =
                    "integrated dSpark block-zero attention HC function must be F32 [24, ".to_owned();
                append_size(&mut out, *columns);
                out.append("]");
                out
            },
        }
    }
}

impl RouteError {
    /// What is said of a refused dispatch of a plan; `weight_sum` is the text of
    /// the sum that was found.
    pub open spec fn text(
        self,
        variant: DsparkVariant,
        hidden: usize,
        weight_sum: Seq<char>,
    ) -> Seq<char> {
        match self {
            RouteError::Geometry { routed_experts } =>
                "integrated dSpark TP4 dispatch requires exact Flash 4096/256 or Pro 7168/384 geometry; got "@
                + variant.label_text() + "/"@ + decimal(hidden as nat) + "/"@
                + decimal(routed_experts as nat),
            RouteError::Buffers =>
                "integrated dSpark TP4 dispatch buffers lost the fixed five-row GPU0 ABI"@,
            RouteError::RouteImage =>
                "integrated dSpark router produced an invalid global top-6 route image"@,
            RouteError::RepeatedExpert { row, expert } =>
                "integrated dSpark router repeated expert "@ + decimal(expert as nat) + " in row "@
                + decimal(row as nat),
            RouteError::WeightSum { row } =>
                "integrated dSpark "@ + variant.label_text() + " router row "@
                + decimal(row as nat) + " weights sum to "@ + weight_sum + ", expected "@
                + (match variant {
                    DsparkVariant::Pro => "2.5"@,
                    DsparkVariant::Flash => "1.5"@,
                }),
        }
    }

    pub fn message(&self, variant: DsparkVariant, hidden: usize, weight_sum: &str) -> (out: String)
        ensures
            out@ == self.text(variant, hidden, weight_sum@),
    {
        match self {
            RouteError::Geometry { routed_experts } => {
                let mut out: String =
                    "integrated dSpark TP4 dispatch requires exact Flash 4096/256 or Pro 7168/384 geometry; got ".to_owned();
                out.append(variant.label());
                out.append("/");
                append_size(&mut out, hidden);
                out.append("/");
                append_size(&mut out, *routed_experts);
                out
            },
            RouteError::Buffers => {
                "integrated dSpark TP4 dispatch buffers lost the fixed five-row GPU0 ABI".to_owned()
            },
            RouteError::RouteImage => {
                "integrated dSpark router produced an invalid global top-6 route image".to_owned()
            },
            RouteError::RepeatedExpert { row, expert } => {
                let mut out: String = "integrated dSpark router repeated expert ".to_owned();
                append_decimal(&mut out, *expert as u64);
                out.append(" in row ");
                append_size(&mut out, *row);
                out
            },
            RouteError::WeightSum { row } => {
                let mut out: String = "integrated dSpark ".to_owned();
                out.append(variant.label());
                out.append(" router row ");
                append_size(&mut out, *row);
                out.append(" weights sum to ");
                out.append(weight_sum);
                out.append(", expected ");
                match variant {
                    DsparkVariant::Pro => out.append("2.5"),
                    DsparkVariant::Flash => out.append("1.5"),
                }
                out
            },
        }
    }
}

/// The sets of captured graphs that are prepared one by one.
#[derive(Clone, Copy, Debug, PartialEq, Eq, Structural)]
pub enum GraphSet {
    Entry,
    PromptPrime,
    ProposalEntry,
    BlockAttention,
    PostDispatch,
    TerminalCollapse,
}

impl GraphKey {
    /// What is said of a capture of the graph that holds transfers.
    pub open spec fn transfer_text(self) -> Seq<char> {
        match self {
            GraphKey::Entry { rows } =>
                "integrated dSpark entry graph bucket "@ + decimal(rows as nat)
                + " unexpectedly captured memcpy nodes"@,
            GraphKey::PromptPrime { block_index, rows } =>
                "integrated dSpark prompt block "@ + decimal(block_index as nat) + " bucket "@
                + decimal(rows as nat) + " unexpectedly captured memcpy nodes"@,
            GraphKey::ProposalEntry { request_slot } =>
                "integrated dSpark proposal-entry slot "@ + decimal(request_slot as nat)
                + " unexpectedly captured memcpy nodes"@,
            GraphKey::BlockAttention { block_index, request_slot } =>
                "integrated dSpark block "@ + decimal(block_index as nat) + " attention slot "@
                + decimal(request_slot as nat) + " unexpectedly captured memcpy nodes"@,
            GraphKey::BlockPostDispatch { block_index, request_slot } =>
                "integrated dSpark block "@ + decimal(block_index as nat) + " post-dispatch slot "@
                + decimal(request_slot as nat) + " unexpectedly captured memcpy nodes"@,
            GraphKey::TerminalCollapse { request_slot } =>
                "integrated dSpark terminal collapse slot "@ + decimal(request_slot as nat)
                + " unexpectedly captured memcpy nodes"@,
            GraphKey::TerminalHead { request_bucket } =>
                "integrated dSpark terminal bucket "@ + decimal(request_bucket as nat)
                + " captured host-transfer nodes"@,
        }
    }

    pub fn transfer_message(&self) -> (out: String)
        ensures
            out@ == self.transfer_text(),
    {
        match self {
            GraphKey::Entry { rows } => {
                let mut out: String = "integrated dSpark entry graph bucket ".to_owned();
                append_size(&mut out, *rows);
                out.append(" unexpectedly captured memcpy nodes");
                out
            },
            GraphKey::PromptPrime { block_index, rows } => {
                let mut out: String = "integrated dSpark prompt block ".to_owned();
                append_size(&mut out, *block_index);
                out.append(" bucket ");
                append_size(&mut out, *rows);
                out.append(" unexpectedly captured memcpy nodes");
                out
            },
            GraphKey::ProposalEntry { request_slot } => {
                let mut out: String = "integrated dSpark proposal-entry slot ".to_owned();
                append_size(&mut out, *request_slot);
                out.append(" unexpectedly captured memcpy nodes");
                out
            },
            GraphKey::BlockAttention { block_index, request_slot } => {
                let mut out: String = "integrated dSpark block ".to_owned();
                append_size(&mut out, *block_index);
                out.append(" attention slot ");
                append_size(&mut out, *request_slot);
                out.append(" unexpectedly captured memcpy nodes");
                out
            },
            GraphKey::BlockPostDispatch { block_index, request_slot } => {
                let mut out: String = "integrated dSpark block ".to_owned();
                append_size(&mut out, *block_index);
                out.append(" post-dispatch slot ");
                append_size(&mut out, *request_slot);
                out.append(" unexpectedly captured memcpy nodes");
                out
            },
            GraphKey::TerminalCollapse { request_slot } => {
                let mut out: String = "integrated dSpark terminal collapse slot ".to_owned();
                append_size(&mut out, *request_slot);
                out.append(" unexpectedly captured memcpy nodes");
                out
            },
            GraphKey::TerminalHead { request_bucket } => {
                let mut out: String = "integrated dSpark terminal bucket ".to_owned();
                append_size(&mut out, *request_bucket);
                out.append(" captured host-transfer nodes");
                out
            },
        }
    }
}

impl GraphError {
    /// What is said of a set of graphs that is not captured; `value` is the text
    /// of the number that was refused.
    pub open spec fn text(self, set: GraphSet, value: Seq<char>) -> Seq<char> {
        match (self, set) {
            (GraphError::Epsilon, GraphSet::Entry) =>
                "integrated dSpark entry RMSNorm epsilon must be finite and positive, got "@
                + value,
            (GraphError::Epsilon, GraphSet::PromptPrime) =>
                "integrated dSpark KV producer epsilon must be finite and positive, got "@ + value,
            (GraphError::Epsilon, GraphSet::ProposalEntry) =>
                "integrated dSpark proposal-entry epsilons must be finite and positive"@,
            (GraphError::Epsilon, GraphSet::BlockAttention) =>
                "integrated dSpark block-attention epsilons must be finite and positive"@,
            (GraphError::Epsilon, GraphSet::PostDispatch) =>
                "integrated dSpark post-dispatch graph parameters must be positive"@,
            (GraphError::Epsilon, GraphSet::TerminalCollapse) =>
                "integrated dSpark terminal collapse epsilons must be finite and positive"@,
            (GraphError::RopeTheta, _) =>
                "integrated dSpark RoPE theta must be finite and positive, got "@ + value,
            (GraphError::Sinkhorn, GraphSet::PostDispatch) =>
                "integrated dSpark post-dispatch graph parameters must be positive"@,
            (GraphError::Sinkhorn, GraphSet::BlockAttention) =>
                "integrated dSpark block-attention Sinkhorn iterations must be positive"@,
            (GraphError::Sinkhorn, _) =>
                "integrated dSpark proposal-entry Sinkhorn iterations must be positive"@,
            (GraphError::PartiallyInitialized, GraphSet::Entry) =>
                "integrated dSpark entry graph set is partially initialized"@,
            (GraphError::PartiallyInitialized, GraphSet::PromptPrime) =>
                "integrated dSpark prompt-prime graph set is partially initialized"@,
            (GraphError::PartiallyInitialized, GraphSet::ProposalEntry) =>
                "integrated dSpark proposal-entry graph set is partially initialized"@,
            (GraphError::PartiallyInitialized, GraphSet::BlockAttention) =>
                "integrated dSpark block-attention graph set is partially initialized"@,
            (GraphError::PartiallyInitialized, GraphSet::PostDispatch) =>
                "integrated dSpark post-dispatch graph set is partially initialized"@,
            (GraphError::PartiallyInitialized, GraphSet::TerminalCollapse) =>
                "integrated dSpark terminal collapse graph set is partially initialized"@,
            (GraphError::View { error }, _) => error.text(),
            (GraphError::Storage { error }, _) => error.text(),
            (GraphError::WeightDevice, GraphSet::Entry) =>
                "integrated dSpark entry projection requires every weight and arena view on GPU0"@,
            (GraphError::WeightDevice, GraphSet::PromptPrime) =>
                "integrated dSpark prompt-prime graph requires every weight and arena view on GPU0"@,
            (GraphError::WeightDevice, GraphSet::ProposalEntry) =>
                "integrated dSpark proposal-entry graph requires every weight and arena view on GPU0"@,
            (GraphError::WeightDevice, GraphSet::BlockAttention) =>
                "integrated dSpark block-attention graph requires every weight and persistent view on GPU0"@,
            (GraphError::WeightDevice, GraphSet::PostDispatch) =>
                "integrated dSpark post-dispatch graph requires every weight and arena view on GPU0"@,
            (GraphError::WeightDevice, GraphSet::TerminalCollapse) =>
                "integrated dSpark terminal collapse requires every weight and arena view on GPU0"@,
            (GraphError::Bucket { rows, max_rows }, GraphSet::PromptPrime) =>
                "integrated dSpark prompt graph bucket "@ + decimal(rows as nat)
                + " exceeds max rows "@ + decimal(max_rows as nat),
            (GraphError::Bucket { rows, max_rows }, _) =>
                "integrated dSpark entry graph bucket "@ + decimal(rows as nat)
                + " exceeds max rows "@ + decimal(max_rows as nat),
            (GraphError::TransferNodes { key }, _) => key.transfer_text(),
        }
    }

    pub fn message(&self, set: GraphSet, value: &str) -> (out: String)
        ensures
            out@ == self.text(set, value@),
    {
        match (self, set) {
            (GraphError::Epsilon, GraphSet::Entry) => {
                let mut out: String =
                    "integrated dSpark entry RMSNorm epsilon must be finite and positive, got ".to_owned();
                out.append(value);
                out
            },
            (GraphError::Epsilon, GraphSet::PromptPrime) => {
                let mut out: String =
                    "integrated dSpark KV producer epsilon must be finite and positive, got ".to_owned();
                out.append(value);
                out
            },
            (GraphError::Epsilon, GraphSet::ProposalEntry) => {
                "integrated dSpark proposal-entry epsilons must be finite and positive".to_owned()
            },
            (GraphError::Epsilon, GraphSet::BlockAttention) => {
                "integrated dSpark block-attention epsilons must be finite and positive".to_owned()
            },
            (GraphError::Epsilon, GraphSet::PostDispatch) => {
                "integrated dSpark post-dispatch graph parameters must be positive".to_owned()
            },
            (GraphError::Epsilon, GraphSet::TerminalCollapse) => {
                "integrated dSpark terminal collapse epsilons must be finite and positive".to_owned()
            },
            (GraphError::RopeTheta, _) => {
                let mut out: String =
                    "integrated dSpark RoPE theta must be finite and positive, got ".to_owned();
                out.append(value);
                out
            },
            (GraphError::Sinkhorn, GraphSet::PostDispatch) => {
                "integrated dSpark post-dispatch graph parameters must be positive".to_owned()
            },
            (GraphError::Sinkhorn, GraphSet::BlockAttention) => {
                "integrated dSpark block-attention Sinkhorn iterations must be positive".to_owned()
            },
            (GraphError::Sinkhorn, _) => {
                "integrated dSpark proposal-entry Sinkhorn iterations must be positive".to_owned()
            },
            (GraphError::PartiallyInitialized, GraphSet::Entry) => {
                "integrated dSpark entry graph set is partially initialized".to_owned()
            },
            (GraphError::PartiallyInitialized, GraphSet::PromptPrime) => {
                "integrated dSpark prompt-prime graph set is partially initialized".to_owned()
            },
            (GraphError::PartiallyInitialized, GraphSet::ProposalEntry) => {
                "integrated dSpark proposal-entry graph set is partially initialized".to_owned()
            },
            (GraphError::PartiallyInitialized, GraphSet::BlockAttention) => {
                "integrated dSpark block-attention graph set is partially initialized".to_owned()
            },
            (GraphError::PartiallyInitialized, GraphSet::PostDispatch) => {
                "integrated dSpark post-dispatch graph set is partially initialized".to_owned()
            },
            (GraphError::PartiallyInitialized, GraphSet::TerminalCollapse) => {
                "integrated dSpark terminal collapse graph set is partially initialized".to_owned()
            },
            (GraphError::View { error }, _) => error.message(),
            (GraphError::Storage { error }, _) => error.message(),
            (GraphError::WeightDevice, GraphSet::Entry) => {
                "integrated dSpark entry projection requires every weight and arena view on GPU0".to_owned()
            },
            (GraphError::WeightDevice, GraphSet::PromptPrime) => {
                "integrated dSpark prompt-prime graph requires every weight and arena view on GPU0".to_owned()
            },
            (GraphError::WeightDevice, GraphSet::ProposalEntry) => {
                "integrated dSpark proposal-entry graph requires every weight and arena view on GPU0".to_owned()
            },
            (GraphError::WeightDevice, GraphSet::BlockAttention) => {
                "integrated dSpark block-attention graph requires every weight and persistent view on GPU0".to_owned()
            },
            (GraphError::WeightDevice, GraphSet::PostDispatch) => {
                "integrated dSpark post-dispatch graph requires every weight and arena view on GPU0".to_owned()
            },
            (GraphError::WeightDevice, GraphSet::TerminalCollapse) => {
                "integrated dSpark terminal collapse requires every weight and arena view on GPU0".to_owned()
            },
            (GraphError::Bucket { rows, max_rows }, GraphSet::PromptPrime) => {
                let mut out: String = "integrated dSpark prompt graph bucket ".to_owned();
                append_size(&mut out, *rows);
                out.append(" exceeds max rows ");
                append_size(&mut out, *max_rows);
                out
            },
            (GraphError::Bucket { rows, max_rows }, _) => {
                let mut out: String = "integrated dSpark entry graph bucket ".to_owned();
                append_size(&mut out, *rows);
                out.append(" exceeds max rows ");
                append_size(&mut out, *max_rows);
                out
            },
            (GraphError::TransferNodes { key }, _) => key.transfer_message(),
        }
    }
}

/// The launches of one block, or of one slot, that need graphs or weights.
#[derive(Clone, Copy, Debug, PartialEq, Eq, Structural)]
pub enum RunStage {
    ProposalEntry,
    BlockAttention,
    PostDispatch,
    TerminalCollapse,
    SparsePreDispatch,
}

impl RunError {
    /// What is said where nothing is launched for a block and a slot.
    pub open spec fn text(self, stage: RunStage, block: usize, slot: usize) -> Seq<char> {
        match (self, stage) {
            (RunError::NotPrepared, RunStage::ProposalEntry) =>
                "integrated dSpark proposal-entry graphs are not prepared"@,
            (RunError::NotPrepared, RunStage::BlockAttention) =>
                "integrated dSpark block-attention graphs are not prepared"@,
            (RunError::NotPrepared, RunStage::PostDispatch) =>
                "integrated dSpark inter-block post-dispatch graphs are not prepared"@,
            (RunError::NotPrepared, RunStage::TerminalCollapse) =>
                "integrated dSpark terminal collapse graphs are not prepared"@,
            (RunError::NotPrepared, RunStage::SparsePreDispatch) =>
                "integrated dSpark sparse pre-dispatch is not prepared"@,
            (RunError::MissingBlock { block }, RunStage::SparsePreDispatch) =>
                "integrated dSpark sparse block "@ + decimal(block as nat) + " is missing"@,
            (RunError::MissingBlock { block }, RunStage::PostDispatch) =>
                "integrated dSpark block "@ + decimal(block as nat) + " post-dispatch graph slot "@
                + decimal(slot as nat) + " is missing"@,
            (RunError::MissingBlock { block }, _) =>
                "integrated dSpark block "@ + decimal(block as nat) + " attention graph slot "@
                + decimal(slot as nat) + " is missing"@,
            (RunError::Storage { error }, _) => error.text(),
            (RunError::PreDispatch { error }, _) =>
                "running integrated dSpark block "@ + decimal(block as nat)
                + " global router and shared expert: "@ + error.text(),
        }
    }

    pub fn message(&self, stage: RunStage, block: usize, slot: usize) -> (out: String)
        ensures
            out@ == self.text(stage, block, slot),
    {
        match (self, stage) {
            (RunError::NotPrepared, RunStage::ProposalEntry) => {
                "integrated dSpark proposal-entry graphs are not prepared".to_owned()
            },
            (RunError::NotPrepared, RunStage::BlockAttention) => {
                "integrated dSpark block-attention graphs are not prepared".to_owned()
            },
            (RunError::NotPrepared, RunStage::PostDispatch) => {
                "integrated dSpark inter-block post-dispatch graphs are not prepared".to_owned()
            },
            (RunError::NotPrepared, RunStage::TerminalCollapse) => {
                "integrated dSpark terminal collapse graphs are not prepared".to_owned()
            },
            (RunError::NotPrepared, RunStage::SparsePreDispatch) => {
                "integrated dSpark sparse pre-dispatch is not prepared".to_owned()
            },
            (RunError::MissingBlock { block }, RunStage::SparsePreDispatch) => {
                let mut out: String = "integrated dSpark sparse block ".to_owned();
                append_size(&mut out, *block);
                out.append(" is missing");
                out
            },
            (RunError::MissingBlock { block }, RunStage::PostDispatch) => {
                let mut out: String = "integrated dSpark block ".to_owned();
                append_size(&mut out, *block);
                out.append(" post-dispatch graph slot ");
                append_size(&mut out, slot);
                out.append(" is missing");
                out
            },
            (RunError::MissingBlock { block }, _) => {
                let mut out: String = "integrated dSpark block ".to_owned();
                append_size(&mut out, *block);
                out.append(" attention graph slot ");
                append_size(&mut out, slot);
                out.append(" is missing");
                out
            },
            (RunError::Storage { error }, _) => error.message(),
            (RunError::PreDispatch { error }, _) => {
                let mut out: String = "running integrated dSpark block ".to_owned();
                append_size(&mut out, block);
                out.append(" global router and shared expert: ");
                let cause: String = error.message();
                out.append(cause.as_str());
                out
            },
        }
    }
}

impl TerminalRunError {
    pub open spec fn text(self) -> Seq<char> {
        match self {
            TerminalRunError::NotPrepared =>
                "integrated dSpark terminal head graphs are not prepared"@,
            TerminalRunError::Batch { error } => error.text(),
        }
    }

    pub fn message(&self) -> (out: String)
        ensures
            out@ == self.text(),
    {
        match self {
            TerminalRunError::NotPrepared => {
                "integrated dSpark terminal head graphs are not prepared".to_owned()
            },
            TerminalRunError::Batch { error } => error.message(),
        }
    }
}

impl ProposalInputError {
    pub open spec fn text(self) -> Seq<char> {
        match self {
            ProposalInputError::Slot { slot, max_batch } =>
                "integrated dSpark proposal request slot "@ + decimal(slot as nat)
                + " exceeds max batch "@ + decimal(max_batch as nat),
            ProposalInputError::TokenIds { anchor, noise, vocab } =>
                "integrated dSpark proposal token ids "@ + decimal(anchor as nat) + "/"@
                + decimal(noise as nat) + " exceed vocabulary "@ + decimal(vocab as nat),
            ProposalInputError::Window { start, end } =>
                "integrated dSpark proposal target window must contain 1..=128 tokens, got "@
                + decimal(start as nat) + ".."@ + decimal(end as nat),
            ProposalInputError::EmbeddingBytesOverflow =>
                "integrated dSpark embedding byte count overflow"@,
            ProposalInputError::Device =>
                "integrated dSpark proposal preparation requires every weight and arena view on GPU0"@,
        }
    }

    pub fn message(&self) -> (out: String)
        ensures
            out@ == self.text(),
    {
        match self {
            ProposalInputError::Slot { slot, max_batch } => {
                let mut out: String = "integrated dSpark proposal request slot ".to_owned();
                append_size(&mut out, *slot);
                out.append(" exceeds max batch ");
                append_size(&mut out, *max_batch);
                out
            },
            ProposalInputError::TokenIds { anchor, noise, vocab } => {
                let mut out: String = "integrated dSpark proposal token ids ".to_owned();
                append_size(&mut out, *anchor);
                out.append("/");
                append_size(&mut out, *noise);
                out.append(" exceed vocabulary ");
                append_size(&mut out, *vocab);
                out
            },
            ProposalInputError::Window { start, end } => {
                let mut out: String =
                    "integrated dSpark proposal target window must contain 1..=128 tokens, got ".to_owned();
                append_size(&mut out, *start);
                out.append("..");
                append_size(&mut out, *end);
                out
            },
            ProposalInputError::EmbeddingBytesOverflow => {
                "integrated dSpark embedding byte count overflow".to_owned()
            },
            ProposalInputError::Device => {
                "integrated dSpark proposal preparation requires every weight and arena view on GPU0".to_owned()
            },
        }
    }
}

impl SparsePreparationError {
    /// What is said where the sparse weights of a model are not made resident
    /// for a plan of a hidden width; `scaling` is the text of the model's routed
    /// scaling factor.
    pub open spec fn text(
        self,
        facts: ModelFacts,
        constants: SparseConstants,
        hidden: usize,
        scaling: Seq<char>,
    ) -> Seq<char> {
        match self {
            SparsePreparationError::Profile =>
                "integrated dSpark "@ + variant_label(facts.variant) + "/"@
                + decimal(facts.hidden_size as nat) + " sparse profile does not match its "@
                + decimal(hidden as nat) + "-wide device plan"@,
            SparsePreparationError::PartiallyInitialized =>
                "integrated dSpark sparse pre-dispatch weights are partially initialized"@,
            SparsePreparationError::Layer { block, error } =>
                "preloading integrated dSpark block "@ + decimal(block as nat)
                + " sparse coordinator weights: "@ + error.text(facts, constants, scaling),
        }
    }

    pub fn message(
        &self,
        facts: &ModelFacts,
        constants: &SparseConstants,
        hidden: usize,
        scaling: &str,
    ) -> (out: String)
        ensures
            out@ == self.text(*facts, *constants, hidden, scaling@),
    {
        match self {
            SparsePreparationError::Profile => {
                let mut out: String = "integrated dSpark ".to_owned();
                out.append(variant_name(facts.variant));
                out.append("/");
                append_size(&mut out, facts.hidden_size);
                out.append(" sparse profile does not match its ");
                append_size(&mut out, hidden);
                out.append("-wide device plan");
                out
            },
            SparsePreparationError::PartiallyInitialized => {
                "integrated dSpark sparse pre-dispatch weights are partially initialized".to_owned()
            },
            SparsePreparationError::Layer { block, error } => {
                let mut out: String = "preloading integrated dSpark block ".to_owned();
                append_size(&mut out, *block);
                out.append(" sparse coordinator weights: ");
                let cause: String = error.message(facts, constants, scaling);
                out.append(cause.as_str());
                out
            },
        }
    }
}

impl TerminalHeadError {
    pub open spec fn text(self) -> Seq<char> {
        match self {
            TerminalHeadError::PartiallyInitialized =>
                "integrated dSpark terminal head graph set is partially initialized"@,
            TerminalHeadError::WeightDevice =>
                "integrated dSpark joint terminal head requires all storage and weights on GPU0"@,
        }
    }

    pub fn message(&self) -> (out: String)
        ensures
            out@ == self.text(),
    {
        match self {
            TerminalHeadError::PartiallyInitialized => {
                "integrated dSpark terminal head graph set is partially initialized".to_owned()
            },
            TerminalHeadError::WeightDevice => {
                "integrated dSpark joint terminal head requires all storage and weights on GPU0".to_owned()
            },
        }
    }
}

} // verus!
