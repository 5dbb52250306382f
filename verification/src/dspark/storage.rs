//! The device storage of the drafter: views of the arena, the packed key-value
//! pages of a request and the joint buffers of several requests.
use vstd::prelude::*;

use crate::device::{device_buffer_byte_view, ByteViewError, Ds41rtDeviceBuffer};
use crate::dspark::plan::{ArenaRange, DeepseekV4DsparkDeviceStoragePlan, DsparkVariant};
use crate::dspark::plan::{plan_valid, proposal_views, terminal_views};
use crate::text::{
    address_text, append_address, append_signed, append_size, decimal, signed_decimal,
};

verus! {

/// Why a request is not served from the storage.
#[derive(Clone, Copy, Debug, PartialEq, Eq, Structural)]
pub enum StorageError {
    Allocation { arena: Ds41rtDeviceBuffer, persistent_kv: Ds41rtDeviceBuffer },
    Slot { slot: usize, max_batch: usize },
    PageSlot { slot: usize, max_batch: usize },
    BlockIndex { block: usize },
    View { error: ByteViewError },
    WorkspaceViews,
    SnapshotBytes { got: usize, expected: usize },
    JointSlot { index: usize, rows: usize, max_batch: usize },
    JointSource { index: usize, slot: usize, max_batch: usize },
    JointSpan { error: JointSpanError },
}

/// Why a range of requests has no joint span.
#[derive(Clone, Copy, Debug, PartialEq, Eq, Structural)]
pub enum JointSpanError {
    Range { start: usize, end: usize, max_batch: usize },
    RequestBytesOverflow,
    OffsetOverflow,
    BytesOverflow,
    EndOverflow,
}

impl JointSpanError {
    pub open spec fn text(self) -> Seq<char> {
        match self {
            JointSpanError::Range { start, end, max_batch } =>
                "integrated dSpark joint expert range "@ + decimal(start as nat) + ".."@ + decimal(
                end as nat,
            ) + " exceeds max batch "@ + decimal(max_batch as nat),
            JointSpanError::RequestBytesOverflow =>
                "integrated dSpark joint expert request byte count overflow"@,
            JointSpanError::OffsetOverflow =>
                "integrated dSpark joint expert buffer offset overflow"@,
            JointSpanError::BytesOverflow =>
                "integrated dSpark joint expert buffer byte count overflow"@,
            JointSpanError::EndOverflow => "integrated dSpark joint expert buffer end overflow"@,
        }
    }

    pub fn message(&self) -> (out: String)
        ensures
            out@ == self.text(),
    {
        match *self {
            JointSpanError::Range { start, end, max_batch } => {
                let mut out: String = "integrated dSpark joint expert range ".to_owned();
                append_size(&mut out, start);
                out.append("..");
                append_size(&mut out, end);
                out.append(" exceeds max batch ");
                append_size(&mut out, max_batch);
                out
            },
            JointSpanError::RequestBytesOverflow => {
                "integrated dSpark joint expert request byte count overflow".to_owned()
            },
            JointSpanError::OffsetOverflow => {
                "integrated dSpark joint expert buffer offset overflow".to_owned()
            },
            JointSpanError::BytesOverflow => {
                "integrated dSpark joint expert buffer byte count overflow".to_owned()
            },
            JointSpanError::EndOverflow => {
                "integrated dSpark joint expert buffer end overflow".to_owned()
            },
        }
    }
}

impl StorageError {
    pub open spec fn text(self) -> Seq<char> {
        match self {
            StorageError::Allocation { arena, persistent_kv } =>
                "integrated dSpark storage lost its GPU0 allocation contract: arena_ptr="@
                + address_text(arena.ptr as nat) + " arena_bytes="@ + decimal(arena.bytes as nat)
                + " arena_device="@ + signed_decimal(arena.device_id as int) + " kv_ptr="@
                + address_text(persistent_kv.ptr as nat) + " kv_bytes="@ + decimal(
                persistent_kv.bytes as nat,
            ) + " kv_device="@ + signed_decimal(persistent_kv.device_id as int),
            StorageError::Slot { slot, max_batch } => "integrated dSpark proposal request slot "@
                + decimal(slot as nat) + " exceeds max batch "@ + decimal(max_batch as nat),
            StorageError::PageSlot { slot, max_batch } => "integrated dSpark request slot "@
                + decimal(slot as nat) + " exceeds batch "@ + decimal(max_batch as nat),
            StorageError::BlockIndex { block } => "integrated dSpark KV block index "@ + decimal(
                block as nat,
            ) + " is out of range"@,
            StorageError::View { error } => error.text(),
            StorageError::WorkspaceViews =>
                "integrated dSpark request-local sparse views exceed the planned workspace"@,
            StorageError::SnapshotBytes { got, expected } =>
                "integrated dSpark request snapshot has "@ + decimal(got as nat)
                + " bytes, expected "@ + decimal(expected as nat),
            StorageError::JointSlot { index, rows, max_batch } =>
                "integrated dSpark joint shared-delta slot "@ + decimal(index as nat) + " has "@
                + decimal(rows as nat) + " rows for max batch "@ + decimal(max_batch as nat),
            StorageError::JointSource { index, slot, max_batch } =>
                "integrated dSpark joint FFN source "@ + decimal(index as nat) + " or slot "@
                + decimal(slot as nat) + " exceeds max batch "@ + decimal(max_batch as nat),
            StorageError::JointSpan { error } => error.text(),
        }
    }

    pub fn message(&self) -> (out: String)
        ensures
            out@ == self.text(),
    {
        match *self {
            StorageError::Allocation { arena, persistent_kv } => {
                let mut out: String =
                    "integrated dSpark storage lost its GPU0 allocation contract: arena_ptr=".to_owned();
                append_address(&mut out, arena.ptr as u64);
                out.append(" arena_bytes=");
                append_size(&mut out, arena.bytes);
                out.append(" arena_device=");
                append_signed(&mut out, arena.device_id);
                out.append(" kv_ptr=");
                append_address(&mut out, persistent_kv.ptr as u64);
                out.append(" kv_bytes=");
                append_size(&mut out, persistent_kv.bytes);
                out.append(" kv_device=");
                append_signed(&mut out, persistent_kv.device_id);
                out
            },
            StorageError::Slot { slot, max_batch } => {
                let mut out: String = "integrated dSpark proposal request slot ".to_owned();
                append_size(&mut out, slot);
                out.append(" exceeds max batch ");
                append_size(&mut out, max_batch);
                out
            },
            StorageError::PageSlot { slot, max_batch } => {
                let mut out: String = "integrated dSpark request slot ".to_owned();
                append_size(&mut out, slot);
                out.append(" exceeds batch ");
                append_size(&mut out, max_batch);
                out
            },
            StorageError::BlockIndex { block } => {
                let mut out: String = "integrated dSpark KV block index ".to_owned();
                append_size(&mut out, block);
                out.append(" is out of range");
                out
            },
            StorageError::View { error } => error.message(),
            StorageError::WorkspaceViews => {
                "integrated dSpark request-local sparse views exceed the planned workspace".to_owned()
            },
            StorageError::SnapshotBytes { got, expected } => {
                let mut out: String = "integrated dSpark request snapshot has ".to_owned();
                append_size(&mut out, got);
                out.append(" bytes, expected ");
                append_size(&mut out, expected);
                out
            },
            StorageError::JointSlot { index, rows, max_batch } => {
                let mut out: String = "integrated dSpark joint shared-delta slot ".to_owned();
                append_size(&mut out, index);
                out.append(" has ");
                append_size(&mut out, rows);
                out.append(" rows for max batch ");
                append_size(&mut out, max_batch);
                out
            },
            StorageError::JointSource { index, slot, max_batch } => {
                let mut out: String = "integrated dSpark joint FFN source ".to_owned();
                append_size(&mut out, index);
                out.append(" or slot ");
                append_size(&mut out, slot);
                out.append(" exceeds max batch ");
                append_size(&mut out, max_batch);
                out
            },
            StorageError::JointSpan { error } => error.message(),
        }
    }
}

/// A byte span, its end not included.
#[derive(Clone, Copy, Debug, PartialEq, Eq, Structural)]
pub struct ByteSpan {
    pub start: usize,
    pub end: usize,
}

/// The bytes that one request has in a joint buffer.
pub open spec fn request_bytes(hidden: int) -> int {
    10 * hidden
}

/// What is wrong with a range of requests, if anything.
pub open spec fn joint_span_error(
    start: usize,
    end: usize,
    max_batch: usize,
    hidden: usize,
) -> Option<JointSpanError> {
    let unit = request_bytes(hidden as int);
    if !(start < end <= max_batch) {
        Some(JointSpanError::Range { start, end, max_batch })
    } else if unit > usize::MAX {
        Some(JointSpanError::RequestBytesOverflow)
    } else if start * unit > usize::MAX {
        Some(JointSpanError::OffsetOverflow)
    } else if (end - start) * unit > usize::MAX {
        Some(JointSpanError::BytesOverflow)
    } else if end * unit > usize::MAX {
        Some(JointSpanError::EndOverflow)
    } else {
        None
    }
}

/// The span of a range of requests in a joint buffer that holds the requests
/// one after the other.
pub fn dspark_joint_request_range_byte_span(
    start: usize,
    end: usize,
    max_batch: usize,
    hidden: usize,
) -> (result: Result<ByteSpan, JointSpanError>)
    ensures
        match joint_span_error(start, end, max_batch, hidden) {
            Some(e) => result is Err && result->Err_0 == e,
            None => {
                &&& result is Ok
                &&& result->Ok_0.start == start * request_bytes(hidden as int)
                &&& result->Ok_0.end == end * request_bytes(hidden as int)
            },
        },
{
    if start >= end || end > max_batch {
        return Err(JointSpanError::Range { start, end, max_batch });
    }
    let unit: usize = match hidden.checked_mul(10) {
        Some(unit) => unit,
        None => return Err(JointSpanError::RequestBytesOverflow),
    };
    let first: usize = match start.checked_mul(unit) {
        Some(first) => first,
        None => return Err(JointSpanError::OffsetOverflow),
    };
    let bytes: usize = match (end - start).checked_mul(unit) {
        Some(bytes) => bytes,
        None => return Err(JointSpanError::BytesOverflow),
    };
    assert(start * unit + (end - start) * unit == end * unit) by (nonlinear_arith);
    match first.checked_add(bytes) {
        Some(last) => Ok(ByteSpan { start: first, end: last }),
        None => Err(JointSpanError::EndOverflow),
    }
}

/// The byte belongs to the span of a range of requests.
pub open spec fn in_joint_span(byte: int, start: int, end: int, hidden: int) -> bool {
    start * request_bytes(hidden) <= byte < end * request_bytes(hidden)
}

/// Ranges of requests that do not meet have spans that share no byte.
pub proof fn law_joint_spans_are_disjoint(
    start: int,
    end: int,
    other_start: int,
    other_end: int,
    hidden: int,
    byte: int,
)
    requires
        0 <= start <= end <= other_start <= other_end,
        hidden >= 0,
        in_joint_span(byte, start, end, hidden),
    ensures
        !in_joint_span(byte, other_start, other_end, hidden),
{
    let unit = request_bytes(hidden);
    assert(end * unit <= other_start * unit) by (nonlinear_arith)
        requires
            end <= other_start,
            unit >= 0,
    ;
}

/// Views for the entry projection and the prompt metadata.
#[derive(Clone, Copy, Debug, PartialEq, Eq, Structural)]
pub struct DeepseekV4DsparkEntryDeviceBuffers {
    pub projected_target_main: Ds41rtDeviceBuffer,
    pub block_workspace: Ds41rtDeviceBuffer,
    pub target_tap_concat: Ds41rtDeviceBuffer,
    pub projection_scratch: Ds41rtDeviceBuffer,
    pub prompt_positions: Ds41rtDeviceBuffer,
    pub prompt_main_slots: Ds41rtDeviceBuffer,
    pub prompt_cos_sin: Ds41rtDeviceBuffer,
    pub kv_producer_scratch: Ds41rtDeviceBuffer,
}

/// Views for the proposal rows.
#[derive(Clone, Copy, Debug, PartialEq, Eq, Structural)]
pub struct DeepseekV4DsparkProposalDeviceBuffers {
    pub draft_token_ids: Ds41rtDeviceBuffer,
    pub residual_ping: Ds41rtDeviceBuffer,
    pub residual_pong: Ds41rtDeviceBuffer,
    pub collapsed_hidden: Ds41rtDeviceBuffer,
    pub normalized_hidden: Ds41rtDeviceBuffer,
    pub positions: Ds41rtDeviceBuffer,
    pub main_slots: Ds41rtDeviceBuffer,
    pub cos_sin: Ds41rtDeviceBuffer,
    pub post_ping: Ds41rtDeviceBuffer,
    pub comb_ping: Ds41rtDeviceBuffer,
    pub post_pong: Ds41rtDeviceBuffer,
    pub comb_pong: Ds41rtDeviceBuffer,
    pub selected_indices: Ds41rtDeviceBuffer,
    pub selected_lengths: Ds41rtDeviceBuffer,
}

/// Views for the terminal head.
#[derive(Clone, Copy, Debug, PartialEq, Eq, Structural)]
pub struct DeepseekV4DsparkTerminalDeviceBuffers {
    pub compact_normalized_hidden: Ds41rtDeviceBuffer,
    pub shared_logits: Ds41rtDeviceBuffer,
    pub markov_logits: Ds41rtDeviceBuffer,
    pub markov_embeddings: Ds41rtDeviceBuffer,
    pub confidence: Ds41rtDeviceBuffer,
    pub active_slot_ids: Ds41rtDeviceBuffer,
    pub anchor_token_ids: Ds41rtDeviceBuffer,
    pub output_token_ids: Ds41rtDeviceBuffer,
}

/// Views for the router and the shared expert of one request.
#[derive(Clone, Copy, Debug, PartialEq, Eq, Structural)]
pub struct DeepseekV4DsparkBlockPreDispatchBuffers {
    pub dispatch_hidden: Ds41rtDeviceBuffer,
    pub route_indices: Ds41rtDeviceBuffer,
    pub route_scores: Ds41rtDeviceBuffer,
    pub route_weights: Ds41rtDeviceBuffer,
    pub shared_gate: Ds41rtDeviceBuffer,
    pub shared_up: Ds41rtDeviceBuffer,
    pub shared_activated: Ds41rtDeviceBuffer,
    pub shared_output: Ds41rtDeviceBuffer,
    pub ffn_delta: Ds41rtDeviceBuffer,
}

/// A copy between the host and one packed page.
#[derive(Clone, Copy, Debug, PartialEq, Eq, Structural)]
pub struct PageCopy {
    pub page: Ds41rtDeviceBuffer,
    pub host_offset: usize,
}

/// A copy between two device buffers.
#[derive(Clone, Copy, Debug, PartialEq, Eq, Structural)]
pub struct DeviceCopy {
    pub destination: Ds41rtDeviceBuffer,
    pub source: Ds41rtDeviceBuffer,
    pub bytes: usize,
}

/// The storage of the drafter on the device.
#[derive(Clone, Copy, Debug)]
pub struct DeepseekV4DsparkDeviceStorage {
    pub plan: DeepseekV4DsparkDeviceStoragePlan,
    pub arena: Ds41rtDeviceBuffer,
    pub persistent_kv: Ds41rtDeviceBuffer,
}

/// The view of a range.
pub open spec fn range_view(buffer: Ds41rtDeviceBuffer, range: ArenaRange) -> Ds41rtDeviceBuffer {
    buffer.part(range.offset as int, range.bytes as int)
}

/// The share of one slot in a buffer that is divided evenly among `slots`.
pub open spec fn slot_view(buffer: Ds41rtDeviceBuffer, slot: int, slots: int) -> Ds41rtDeviceBuffer {
    buffer.part(slot * (buffer.bytes as int / slots), buffer.bytes as int / slots)
}

fn view_in(buffer: Ds41rtDeviceBuffer, range: ArenaRange) -> (view: Ds41rtDeviceBuffer)
    requires
        range.within(buffer.bytes),
        buffer.ptr + buffer.bytes <= usize::MAX,
    ensures
        view == range_view(buffer, range),
{
    Ds41rtDeviceBuffer {
        ptr: buffer.ptr + range.offset,
        bytes: range.bytes,
        device_id: buffer.device_id,
        flags: buffer.flags,
    }
}

proof fn lemma_even_share(unit: int, slots: int, slot: int)
    requires
        unit >= 0,
        slots > 0,
        0 <= slot < slots,
    ensures
        (slots * unit) / slots == unit,
        (slots * unit) % slots == 0,
        0 <= slot * unit,
        slot * unit + unit <= slots * unit,
{
    vstd::arithmetic::div_mod::lemma_div_multiples_vanish(unit, slots);
    vstd::arithmetic::div_mod::lemma_mod_multiples_basic(unit, slots);
    vstd::arithmetic::mul::lemma_mul_is_commutative(unit, slots);
    assert(slot * unit + unit <= slots * unit) by (nonlinear_arith)
        requires
            slot + 1 <= slots,
            unit >= 0,
    ;
    assert(0 <= slot * unit) by (nonlinear_arith)
        requires
            0 <= slot,
            unit >= 0,
    ;
}

fn slot_share(buffer: Ds41rtDeviceBuffer, slot: usize, slots: usize, Ghost(unit): Ghost<int>) -> (view:
    Ds41rtDeviceBuffer)
    requires
        unit >= 0,
        slot < slots,
        buffer.bytes == slots * unit,
        buffer.ptr + buffer.bytes <= usize::MAX,
    ensures
        view == slot_view(buffer, slot as int, slots as int),
        view.bytes == unit,
{
    proof {
        lemma_even_share(unit, slots as int, slot as int);
    }
    let bytes: usize = buffer.bytes / slots;
    let offset: usize = slot * bytes;
    Ds41rtDeviceBuffer {
        ptr: buffer.ptr + offset,
        bytes,
        device_id: buffer.device_id,
        flags: buffer.flags,
    }
}

/// Two slots of one buffer share no address.
pub proof fn law_slot_views_are_disjoint(
    buffer: Ds41rtDeviceBuffer,
    a: int,
    b: int,
    slots: int,
    address: int,
)
    requires
        0 <= a < slots,
        0 <= b < slots,
        a != b,
        buffer.ptr + buffer.bytes <= usize::MAX,
        slot_view(buffer, a, slots).covers_address(
            slot_view(buffer, a, slots).bytes as int,
            address,
        ),
    ensures
        !slot_view(buffer, b, slots).covers_address(
            slot_view(buffer, b, slots).bytes as int,
            address,
        ),
{
    let unit = buffer.bytes as int / slots;
    vstd::arithmetic::div_mod::lemma_fundamental_div_mod(buffer.bytes as int, slots);
    vstd::arithmetic::div_mod::lemma_div_pos_is_pos(buffer.bytes as int, slots);
    vstd::arithmetic::div_mod::lemma_mod_bound(buffer.bytes as int, slots);
    assert(slots * unit <= buffer.bytes);
    lemma_even_share(unit, slots, a);
    lemma_even_share(unit, slots, b);
    if a < b {
        assert(a * unit + unit <= b * unit) by (nonlinear_arith)
            requires
                a + 1 <= b,
                unit >= 0,
        ;
    } else {
        assert(b * unit + unit <= a * unit) by (nonlinear_arith)
            requires
                b + 1 <= a,
                unit >= 0,
        ;
    }
}

/// The views of the proposal rows of all requests.
pub open spec fn proposal_views_of(storage: DeepseekV4DsparkDeviceStorage) -> DeepseekV4DsparkProposalDeviceBuffers {
    let plan = storage.plan.proposal;
    DeepseekV4DsparkProposalDeviceBuffers {
        draft_token_ids: range_view(storage.arena, plan.draft_token_ids),
        residual_ping: range_view(storage.arena, plan.residual_ping),
        residual_pong: range_view(storage.arena, plan.residual_pong),
        collapsed_hidden: range_view(storage.arena, plan.collapsed_hidden),
        normalized_hidden: range_view(storage.arena, plan.normalized_hidden),
        positions: range_view(storage.arena, plan.positions),
        main_slots: range_view(storage.arena, plan.main_slots),
        cos_sin: range_view(storage.arena, plan.cos_sin),
        post_ping: range_view(storage.arena, plan.post_ping),
        comb_ping: range_view(storage.arena, plan.comb_ping),
        post_pong: range_view(storage.arena, plan.post_pong),
        comb_pong: range_view(storage.arena, plan.comb_pong),
        selected_indices: range_view(storage.arena, plan.selected_indices),
        selected_lengths: range_view(storage.arena, plan.selected_lengths),
    }
}

/// The views of the proposal rows of one request.
pub open spec fn request_views_of(
    storage: DeepseekV4DsparkDeviceStorage,
    slot: int,
) -> DeepseekV4DsparkProposalDeviceBuffers {
    let full = proposal_views_of(storage);
    let slots = storage.plan.max_batch as int;
    DeepseekV4DsparkProposalDeviceBuffers {
        draft_token_ids: slot_view(full.draft_token_ids, slot, slots),
        residual_ping: slot_view(full.residual_ping, slot, slots),
        residual_pong: slot_view(full.residual_pong, slot, slots),
        collapsed_hidden: slot_view(full.collapsed_hidden, slot, slots),
        normalized_hidden: slot_view(full.normalized_hidden, slot, slots),
        positions: slot_view(full.positions, slot, slots),
        main_slots: slot_view(full.main_slots, slot, slots),
        cos_sin: slot_view(full.cos_sin, slot, slots),
        post_ping: slot_view(full.post_ping, slot, slots),
        comb_ping: slot_view(full.comb_ping, slot, slots),
        post_pong: slot_view(full.post_pong, slot, slots),
        comb_pong: slot_view(full.comb_pong, slot, slots),
        selected_indices: slot_view(full.selected_indices, slot, slots),
        selected_lengths: slot_view(full.selected_lengths, slot, slots),
    }
}

/// The views of the terminal head.
pub open spec fn terminal_views_of(storage: DeepseekV4DsparkDeviceStorage) -> DeepseekV4DsparkTerminalDeviceBuffers {
    let plan = storage.plan.terminal;
    DeepseekV4DsparkTerminalDeviceBuffers {
        compact_normalized_hidden: range_view(storage.arena, plan.compact_normalized_hidden),
        shared_logits: range_view(storage.arena, plan.shared_logits),
        markov_logits: range_view(storage.arena, plan.markov_logits),
        markov_embeddings: range_view(storage.arena, plan.markov_embeddings),
        confidence: range_view(storage.arena, plan.confidence),
        active_slot_ids: range_view(storage.arena, plan.active_slot_ids),
        anchor_token_ids: range_view(storage.arena, plan.anchor_token_ids),
        output_token_ids: range_view(storage.arena, plan.output_token_ids),
    }
}

/// The views of the entry. The prompt metadata lies where the taps are
/// concatenated.
pub open spec fn entry_views_of(storage: DeepseekV4DsparkDeviceStorage) -> DeepseekV4DsparkEntryDeviceBuffers {
    let plan = storage.plan.entry;
    let workspace = range_view(storage.arena, plan.block_workspace);
    let concat = range_view(workspace, plan.target_tap_concat);
    DeepseekV4DsparkEntryDeviceBuffers {
        projected_target_main: range_view(storage.arena, plan.projected_target_main),
        block_workspace: workspace,
        target_tap_concat: concat,
        projection_scratch: range_view(workspace, plan.projection_scratch),
        prompt_positions: range_view(concat, plan.prompt_positions),
        prompt_main_slots: range_view(concat, plan.prompt_main_slots),
        prompt_cos_sin: range_view(concat, plan.prompt_cos_sin),
        kv_producer_scratch: range_view(storage.arena, storage.plan.kv_producer_scratch),
    }
}

impl DeepseekV4DsparkDeviceStorage {
    /// The plan is valid and both allocations hold what it plans.
    pub open spec fn wf(&self) -> bool {
        &&& plan_valid(self.plan)
        &&& allocation_ok(self.arena, self.plan.arena_bytes)
        &&& allocation_ok(self.persistent_kv, self.plan.persistent_kv_bytes)
        &&& self.arena.ptr + self.arena.bytes <= usize::MAX
        &&& self.persistent_kv.ptr + self.persistent_kv.bytes <= usize::MAX
    }

    /// The storage over two allocations.
    pub fn new(
        plan: DeepseekV4DsparkDeviceStoragePlan,
        arena: Ds41rtDeviceBuffer,
        persistent_kv: Ds41rtDeviceBuffer,
    ) -> (result: Result<Self, StorageError>)
        requires
            plan_valid(plan),
            arena.ptr + arena.bytes <= usize::MAX,
            persistent_kv.ptr + persistent_kv.bytes <= usize::MAX,
        ensures
            result is Ok <==> allocation_ok(arena, plan.arena_bytes) && allocation_ok(
                persistent_kv,
                plan.persistent_kv_bytes,
            ),
            result matches Ok(storage) ==> storage.wf() && storage == (
            DeepseekV4DsparkDeviceStorage { plan, arena, persistent_kv }),
            result matches Err(e) ==> e == (StorageError::Allocation {
                arena,
                persistent_kv,
            }),
    {
        if arena.ptr == 0 || persistent_kv.ptr == 0 || arena.bytes < plan.arena_bytes
            || persistent_kv.bytes < plan.persistent_kv_bytes || arena.device_id != 0
            || persistent_kv.device_id != 0 {
            return Err(StorageError::Allocation { arena, persistent_kv });
        }
        Ok(DeepseekV4DsparkDeviceStorage { plan, arena, persistent_kv })
    }

    /// The first view of the entry that cannot be made, if any.
    pub open spec fn entry_view_error(&self) -> Option<ByteViewError> {
        let entry = self.plan.entry;
        let capacity = entry.target_tap_concat.bytes;
        if !entry.prompt_positions.within(capacity) {
            Some(
                ByteViewError {
                    offset: entry.prompt_positions.offset,
                    bytes: entry.prompt_positions.bytes,
                    capacity,
                },
            )
        } else if !entry.prompt_main_slots.within(capacity) {
            Some(
                ByteViewError {
                    offset: entry.prompt_main_slots.offset,
                    bytes: entry.prompt_main_slots.bytes,
                    capacity,
                },
            )
        } else {
            None
        }
    }

    /// The views of the entry.
    pub fn entry_buffers(&self) -> (result: Result<
        DeepseekV4DsparkEntryDeviceBuffers,
        ByteViewError,
    >)
        requires
            self.wf(),
        ensures
            match self.entry_view_error() {
                Some(e) => result is Err && result->Err_0 == e,
                None => result is Ok && result->Ok_0 == entry_views_of(*self),
            },
    {
        let plan = self.plan.entry;
        let projected_target_main = view_in(self.arena, plan.projected_target_main);
        let block_workspace = view_in(self.arena, plan.block_workspace);
        let target_tap_concat = view_in(block_workspace, plan.target_tap_concat);
        let projection_scratch = view_in(block_workspace, plan.projection_scratch);
        let prompt_positions = match device_buffer_byte_view(
            target_tap_concat,
            plan.prompt_positions.offset,
            plan.prompt_positions.bytes,
        ) {
            Ok(view) => view,
            Err(error) => return Err(error),
        };
        let prompt_main_slots = match device_buffer_byte_view(
            target_tap_concat,
            plan.prompt_main_slots.offset,
            plan.prompt_main_slots.bytes,
        ) {
            Ok(view) => view,
            Err(error) => return Err(error),
        };
        let prompt_cos_sin = view_in(target_tap_concat, plan.prompt_cos_sin);
        let kv_producer_scratch = view_in(self.arena, self.plan.kv_producer_scratch);
        Ok(
            DeepseekV4DsparkEntryDeviceBuffers {
                projected_target_main,
                block_workspace,
                target_tap_concat,
                projection_scratch,
                prompt_positions,
                prompt_main_slots,
                prompt_cos_sin,
                kv_producer_scratch,
            },
        )
    }

    /// The views of the proposal rows of all requests.
    pub fn proposal_buffers(&self) -> (buffers: DeepseekV4DsparkProposalDeviceBuffers)
        requires
            self.wf(),
        ensures
            buffers == proposal_views_of(*self),
    {
        let plan = self.plan.proposal;
        proof {
            let views = proposal_views(plan);
            assert(views[0] == plan.draft_token_ids && views[1] == plan.residual_ping && views[2]
                == plan.residual_pong && views[3] == plan.collapsed_hidden && views[4]
                == plan.normalized_hidden && views[5] == plan.positions && views[6]
                == plan.main_slots && views[7] == plan.cos_sin && views[8] == plan.post_ping
                && views[9] == plan.comb_ping && views[10] == plan.post_pong && views[11]
                == plan.comb_pong && views[12] == plan.selected_indices && views[13]
                == plan.selected_lengths);
        }
        DeepseekV4DsparkProposalDeviceBuffers {
            draft_token_ids: view_in(self.arena, plan.draft_token_ids),
            residual_ping: view_in(self.arena, plan.residual_ping),
            residual_pong: view_in(self.arena, plan.residual_pong),
            collapsed_hidden: view_in(self.arena, plan.collapsed_hidden),
            normalized_hidden: view_in(self.arena, plan.normalized_hidden),
            positions: view_in(self.arena, plan.positions),
            main_slots: view_in(self.arena, plan.main_slots),
            cos_sin: view_in(self.arena, plan.cos_sin),
            post_ping: view_in(self.arena, plan.post_ping),
            comb_ping: view_in(self.arena, plan.comb_ping),
            post_pong: view_in(self.arena, plan.post_pong),
            comb_pong: view_in(self.arena, plan.comb_pong),
            selected_indices: view_in(self.arena, plan.selected_indices),
            selected_lengths: view_in(self.arena, plan.selected_lengths),
        }
    }

    /// The views of the proposal rows of one request.
    pub fn proposal_request_buffers(&self, request_slot: usize) -> (result: Result<
        DeepseekV4DsparkProposalDeviceBuffers,
        StorageError,
    >)
        requires
            self.wf(),
        ensures
            result is Ok <==> request_slot < self.plan.max_batch,
            result matches Ok(buffers) ==> buffers == request_views_of(*self, request_slot as int),
            result matches Err(e) ==> e == (StorageError::Slot {
                slot: request_slot,
                max_batch: self.plan.max_batch,
            }),
    {
        let slots: usize = self.plan.max_batch;
        if request_slot >= slots {
            return Err(StorageError::Slot { slot: request_slot, max_batch: slots });
        }
        let full = self.proposal_buffers();
        let ghost flash = self.plan.variant == DsparkVariant::Flash;
        let ghost row: int = if flash {
            40_960
        } else {
            71_680
        };
        let ghost residual: int = if flash {
            163_840
        } else {
            286_720
        };
        proof {
            let views = proposal_views(self.plan.proposal);
            assert(views[0] == self.plan.proposal.draft_token_ids && views[1]
                == self.plan.proposal.residual_ping && views[2] == self.plan.proposal.residual_pong
                && views[3] == self.plan.proposal.collapsed_hidden && views[4]
                == self.plan.proposal.normalized_hidden && views[5] == self.plan.proposal.positions
                && views[6] == self.plan.proposal.main_slots && views[7]
                == self.plan.proposal.cos_sin && views[8] == self.plan.proposal.post_ping
                && views[9] == self.plan.proposal.comb_ping && views[10]
                == self.plan.proposal.post_pong && views[11] == self.plan.proposal.comb_pong
                && views[12] == self.plan.proposal.selected_indices && views[13]
                == self.plan.proposal.selected_lengths);
            if flash {
                assert(slots * row == slots * 40_960);
                assert(slots * residual == slots * 163_840);
            } else {
                assert(slots * row == slots * 71_680);
                assert(slots * residual == slots * 286_720);
            }
        }
        Ok(
            DeepseekV4DsparkProposalDeviceBuffers {
                draft_token_ids: slot_share(full.draft_token_ids, request_slot, slots, Ghost(20)),
                residual_ping: slot_share(
                    full.residual_ping,
                    request_slot,
                    slots,
                    Ghost(residual),
                ),
                residual_pong: slot_share(
                    full.residual_pong,
                    request_slot,
                    slots,
                    Ghost(residual),
                ),
                collapsed_hidden: slot_share(
                    full.collapsed_hidden,
                    request_slot,
                    slots,
                    Ghost(row),
                ),
                normalized_hidden: slot_share(
                    full.normalized_hidden,
                    request_slot,
                    slots,
                    Ghost(row),
                ),
                positions: slot_share(full.positions, request_slot, slots, Ghost(20)),
                main_slots: slot_share(full.main_slots, request_slot, slots, Ghost(20)),
                cos_sin: slot_share(full.cos_sin, request_slot, slots, Ghost(1_280)),
                post_ping: slot_share(full.post_ping, request_slot, slots, Ghost(80)),
                comb_ping: slot_share(full.comb_ping, request_slot, slots, Ghost(320)),
                post_pong: slot_share(full.post_pong, request_slot, slots, Ghost(80)),
                comb_pong: slot_share(full.comb_pong, request_slot, slots, Ghost(320)),
                selected_indices: slot_share(
                    full.selected_indices,
                    request_slot,
                    slots,
                    Ghost(2_660),
                ),
                selected_lengths: slot_share(
                    full.selected_lengths,
                    request_slot,
                    slots,
                    Ghost(20),
                ),
            },
        )
    }

    /// The views of the terminal head.
    pub fn terminal_buffers(&self) -> (buffers: DeepseekV4DsparkTerminalDeviceBuffers)
        requires
            self.wf(),
        ensures
            buffers == terminal_views_of(*self),
    {
        let plan = self.plan.terminal;
        proof {
            let views = terminal_views(plan);
            assert(views[0] == plan.compact_normalized_hidden && views[1] == plan.shared_logits
                && views[2] == plan.markov_logits && views[3] == plan.markov_embeddings && views[4]
                == plan.confidence && views[5] == plan.active_slot_ids && views[6]
                == plan.anchor_token_ids && views[7] == plan.output_token_ids);
        }
        DeepseekV4DsparkTerminalDeviceBuffers {
            compact_normalized_hidden: view_in(self.arena, plan.compact_normalized_hidden),
            shared_logits: view_in(self.arena, plan.shared_logits),
            markov_logits: view_in(self.arena, plan.markov_logits),
            markov_embeddings: view_in(self.arena, plan.markov_embeddings),
            confidence: view_in(self.arena, plan.confidence),
            active_slot_ids: view_in(self.arena, plan.active_slot_ids),
            anchor_token_ids: view_in(self.arena, plan.anchor_token_ids),
            output_token_ids: view_in(self.arena, plan.output_token_ids),
        }
    }
}

/// The allocation is there, on the first device and large enough.
pub open spec fn allocation_ok(buffer: Ds41rtDeviceBuffer, bytes: usize) -> bool {
    buffer.ptr != 0 && buffer.bytes >= bytes && buffer.device_id == 0
}

} // verus!
