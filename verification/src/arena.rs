//! The long-lived receive arena of the coordinator: which bytes land where
//! before the four-rank reduction.
use vstd::prelude::*;

use crate::device::{device_buffer_byte_view, Ds41rtDeviceBuffer};
use crate::tp4::{
    ds4_tp4_reduce_bf16_device_inputs_into_for_hidden_size,
    validate_ds4_tp4_host_partial_chunks_for_hidden_size,
    validate_ds4_tp4_host_partial_layout_for_hidden_size,
    validate_ds4_tp4_reduction_buffer_layout_for_hidden_size, Ds4FlashTp4HostPartialChunk,
    Ds4FlashTp4ReductionDeviceBuffers, ReductionStep, Tp4HostChunkError, Tp4HostPartialError,
    Tp4ReductionError, DS4_FLASH_HIDDEN, DS4_FLASH_MAX_ROWS, DS4_FLASH_TP,
};
use crate::tp4::{
    accumulate_step, chunk_entries, chunk_header_ok, chunks_accepted, chunks_refused, entries,
    entries_distinct, host_partials_accepted, host_partials_refused, reduction_accepted, reduction_buffer,
    reduction_pair_disjoint, reduction_program, reduction_refused, reduction_buffer_fits,
};
use crate::text::{append_size, decimal};

verus! {

/// The device memory of an arena.
#[derive(Clone, Copy, Debug)]
pub struct Tp4ArenaAllocation {
    pub rank_partials: [Ds41rtDeviceBuffer; 4],
    pub reduction_f32: Ds41rtDeviceBuffer,
    pub ffn_delta: Ds41rtDeviceBuffer,
}

/// The sizes of the device memory of an arena.
#[derive(Clone, Copy, Debug, PartialEq, Eq, Structural)]
pub struct Tp4ArenaBytes {
    pub bf16_bytes: usize,
    pub f32_bytes: usize,
}

/// Why an arena is refused.
#[derive(Clone, Copy, Debug, PartialEq, Eq, Structural)]
pub enum Tp4ArenaError {
    RowsOutOfRange { max_rows: usize },
    HiddenSizeZero,
    ShapeOverflow,
    Bf16Overflow,
    F32Overflow,
    NotOnCoordinator,
}

impl Tp4ArenaError {
    pub open spec fn text(self) -> Seq<char> {
        match self {
            Tp4ArenaError::RowsOutOfRange { max_rows } =>
                "DeepSeek V4 TP4 coordinator arena rows "@ + decimal(max_rows as nat)
                + " are outside 1..=2048"@,
            Tp4ArenaError::HiddenSizeZero =>
                "DeepSeek V4 TP4 coordinator arena hidden size must be positive"@,
            Tp4ArenaError::ShapeOverflow =>
                "DeepSeek V4 TP4 coordinator arena shape overflows usize"@,
            Tp4ArenaError::Bf16Overflow =>
                "DeepSeek V4 Flash TP4 coordinator arena BF16 bytes overflow usize"@,
            Tp4ArenaError::F32Overflow =>
                "DeepSeek V4 Flash TP4 coordinator arena FP32 bytes overflow usize"@,
            Tp4ArenaError::NotOnCoordinator =>
                "DeepSeek V4 Flash TP4 coordinator arena must be allocated on GPU0"@,
        }
    }

    pub fn message(&self) -> (out: String)
        ensures
            out@ == self.text(),
    {
        match self {
            Tp4ArenaError::RowsOutOfRange { max_rows } => {
                let mut out: String = "DeepSeek V4 TP4 coordinator arena rows ".to_owned();
                append_size(&mut out, *max_rows);
                out.append(" are outside 1..=2048");
                out
            },
            Tp4ArenaError::HiddenSizeZero => {
                "DeepSeek V4 TP4 coordinator arena hidden size must be positive".to_owned()
            },
            Tp4ArenaError::ShapeOverflow => {
                "DeepSeek V4 TP4 coordinator arena shape overflows usize".to_owned()
            },
            Tp4ArenaError::Bf16Overflow => {
                "DeepSeek V4 Flash TP4 coordinator arena BF16 bytes overflow usize".to_owned()
            },
            Tp4ArenaError::F32Overflow => {
                "DeepSeek V4 Flash TP4 coordinator arena FP32 bytes overflow usize".to_owned()
            },
            Tp4ArenaError::NotOnCoordinator => {
                "DeepSeek V4 Flash TP4 coordinator arena must be allocated on GPU0".to_owned()
            },
        }
    }
}

/// What is wrong with the size of an arena, if anything.
pub open spec fn arena_size_error(max_rows: int, hidden_size: int) -> Option<Tp4ArenaError> {
    let values = max_rows * hidden_size;
    if !(1 <= max_rows <= DS4_FLASH_MAX_ROWS) {
        Some(Tp4ArenaError::RowsOutOfRange { max_rows: max_rows as usize })
    } else if hidden_size <= 0 {
        Some(Tp4ArenaError::HiddenSizeZero)
    } else if values > usize::MAX {
        Some(Tp4ArenaError::ShapeOverflow)
    } else if values * 2 > usize::MAX {
        Some(Tp4ArenaError::Bf16Overflow)
    } else if values * 4 > usize::MAX {
        Some(Tp4ArenaError::F32Overflow)
    } else {
        None
    }
}

/// All memory of an arena is on device zero.
pub open spec fn allocation_on_coordinator(a: Tp4ArenaAllocation) -> bool {
    &&& forall|k: int| 0 <= k < DS4_FLASH_TP ==> (#[trigger] a.rank_partials@[k]).device_id == 0
    &&& a.reduction_f32.device_id == 0
    &&& a.ffn_delta.device_id == 0
}

/// The memory of an arena holds what its rows take: two bytes per value in
/// each rank buffer and in the output, four in the accumulator.
pub open spec fn allocation_sized(a: Tp4ArenaAllocation, max_rows: int, hidden_size: int) -> bool {
    &&& forall|k: int|
        0 <= k < DS4_FLASH_TP ==> (#[trigger] a.rank_partials@[k]).bytes >= max_rows * hidden_size
            * 2
    &&& a.ffn_delta.bytes >= max_rows * hidden_size * 2
    &&& a.reduction_f32.bytes >= max_rows * hidden_size * 4
}

/// The receive arena.
#[derive(Clone, Copy, Debug)]
pub struct Ds4FlashTp4CoordinatorReductionArena {
    pub max_rows: usize,
    pub hidden_size: usize,
    pub rank_partials: [Ds41rtDeviceBuffer; 4],
    pub reduction_f32: Ds41rtDeviceBuffer,
    pub ffn_delta: Ds41rtDeviceBuffer,
}

/// One copy that brings response bytes to the device.
#[derive(Clone, Copy, Debug, PartialEq, Eq, Structural)]
pub enum StageStep {
    /// Copy the whole payload of a rank through its host staging.
    RankPayload { rank: usize, destination: Ds41rtDeviceBuffer, bytes: usize },
    /// Copy one row of a chunk into the host image of its rank.
    HostRow { chunk: usize, rank: usize, src_offset: usize, dst_offset: usize, bytes: usize },
    /// Copy the host image of a rank to the device.
    RankImage { rank: usize, destination: Ds41rtDeviceBuffer, bytes: usize },
    /// Copy a run of rows of a pinned chunk directly to the device.
    PinnedRun {
        chunk: usize,
        rank: usize,
        src_offset: usize,
        destination: Ds41rtDeviceBuffer,
        bytes: usize,
    },
}

/// Why response bytes are not staged.
#[derive(Clone, Copy, Debug, PartialEq, Eq, Structural)]
pub enum StageError {
    CapacityExceeded { chunked: bool, rows: usize, capacity: usize },
    Partials(Tp4HostPartialError),
    Chunks(Tp4HostChunkError),
    Layout(Tp4ReductionError),
    NotPinnedView { chunk: usize, rank: usize },
}

impl StageError {
    pub open spec fn text(self) -> Seq<char> {
        match self {
            StageError::CapacityExceeded { chunked, rows, capacity } => (if chunked {
                "DeepSeek V4 Flash TP4 chunk rows "@
            } else {
                "DeepSeek V4 Flash TP4 receive rows "@
            }) + decimal(rows as nat) + " exceed fixed arena capacity "@ + decimal(capacity as nat),
            StageError::Partials(error) => error.text(),
            StageError::Chunks(error) => error.text(),
            StageError::Layout(error) => error.text(),
            StageError::NotPinnedView { chunk, rank } => "DeepSeek V4 Flash TP4 rank "@ + decimal(
                rank as nat,
            ) + " direct verbs payload is not an exact pinned view"@,
        }
    }

    pub fn message(&self) -> (out: String)
        ensures
            out@ == self.text(),
    {
        match self {
            StageError::CapacityExceeded { chunked, rows, capacity } => {
                let mut out: String = if *chunked {
                    "DeepSeek V4 Flash TP4 chunk rows ".to_owned()
                } else {
                    "DeepSeek V4 Flash TP4 receive rows ".to_owned()
                };
                append_size(&mut out, *rows);
                out.append(" exceed fixed arena capacity ");
                append_size(&mut out, *capacity);
                out
            },
            StageError::Partials(error) => error.message(),
            StageError::Chunks(error) => error.message(),
            StageError::Layout(error) => error.message(),
            StageError::NotPinnedView { chunk: _, rank } => {
                let mut out: String = "DeepSeek V4 Flash TP4 rank ".to_owned();
                append_size(&mut out, *rank);
                out.append(" direct verbs payload is not an exact pinned view");
                out
            },
        }
    }
}

/// Staged response bytes: the buffers of the reduction and the copies.
pub struct Staged {
    pub buffers: Ds4FlashTp4ReductionDeviceBuffers,
    pub steps: Vec<StageStep>,
}

/// What the host does with the arena's stream behind what was enqueued.
#[derive(Clone, Copy, Debug, PartialEq, Eq, Structural)]
pub enum StreamCompletion {
    /// Record an event, after which the output can be read.
    RecordReadyEvent,
    /// Wait until the stream is done.
    Synchronize,
}

/// Copies, then the reduction, then the buffer that holds the result once the
/// stream is completed.
pub struct StagedReduction {
    pub stage: Vec<StageStep>,
    pub reduction: Vec<ReductionStep>,
    pub completion: StreamCompletion,
    pub output: Ds41rtDeviceBuffer,
}

pub const DS4_TP4_ASYNC_OWNED_REDUCTION_BACKEND: &'static str =
    "deepseek-v4-tp4-async-owned-bf16-reduction";

/// An output that a reduction fills: its rows, its width, what fills it, and
/// its memory.
#[derive(Clone, Copy, Debug)]
pub struct OwnedReductionOutput {
    pub rows: usize,
    pub values_per_row: usize,
    pub backend: &'static str,
    pub buffer: Ds41rtDeviceBuffer,
}

/// Copies, then the reduction into an owned output, then the event that says
/// that the output can be read.
pub struct OwnedReduction {
    pub stage: Vec<StageStep>,
    pub reduction: Vec<ReductionStep>,
    pub completion: StreamCompletion,
    pub output: OwnedReductionOutput,
}

/// A reduction that is not enqueued: why, and how the stream is completed
/// before the error is returned.
#[derive(Clone, Copy, Debug, PartialEq, Eq, Structural)]
pub struct FailedReduction {
    pub error: StageError,
    pub completion: StreamCompletion,
}

/// How the stream is completed behind an owned reduction: with an event if
/// everything was enqueued, else by waiting, since a copy that was enqueued
/// before the failure may still read a response frame.
pub fn owned_reduction_completion(enqueued: bool) -> (completion: StreamCompletion)
    ensures
        completion == (if enqueued {
            StreamCompletion::RecordReadyEvent
        } else {
            StreamCompletion::Synchronize
        }),
{
    if enqueued {
        StreamCompletion::RecordReadyEvent
    } else {
        StreamCompletion::Synchronize
    }
}

/// The response frames and the shared input may be used again: behind an event
/// once the event has come, behind a wait once the stream is done.
pub open spec fn recyclable(
    completion: StreamCompletion,
    event_completed: bool,
    stream_done: bool,
) -> bool {
    match completion {
        StreamCompletion::RecordReadyEvent => event_completed,
        StreamCompletion::Synchronize => stream_done,
    }
}

/// Whether the response frames and the shared input may be used again.
pub fn response_frames_recyclable(
    completion: StreamCompletion,
    event_completed: bool,
    stream_done: bool,
) -> (free: bool)
    ensures
        free == recyclable(completion, event_completed, stream_done),
{
    match completion {
        StreamCompletion::RecordReadyEvent => event_completed,
        StreamCompletion::Synchronize => stream_done,
    }
}

impl StageError {
    /// Whether the stream is waited for before the error of staging is returned:
    /// copies of earlier pinned chunks may have been enqueued.
    pub fn synchronizes(&self) -> (waits: bool)
        ensures
            waits == (*self is NotPinnedView),
    {
        match self {
            StageError::NotPinnedView { chunk: _, rank: _ } => true,
            _ => false,
        }
    }
}

/// The copies of complete payloads, one per rank.
pub open spec fn rank_payload_steps(
    b: Ds4FlashTp4ReductionDeviceBuffers,
    bytes: usize,
    n: int,
) -> Seq<StageStep> {
    Seq::new(
        n as nat,
        |k: int|
            StageStep::RankPayload { rank: k as usize, destination: b.rank_partials@[k], bytes },
    )
}

/// The copies of complete rank images, one per rank.
pub open spec fn rank_image_steps(
    b: Ds4FlashTp4ReductionDeviceBuffers,
    bytes: usize,
    n: int,
) -> Seq<StageStep> {
    Seq::new(
        n as nat,
        |k: int| StageStep::RankImage { rank: k as usize, destination: b.rank_partials@[k], bytes },
    )
}

/// The copies of the first `n` rows of a chunk into the image of its rank.
pub open spec fn chunk_row_steps(
    index: int,
    chunk: Ds4FlashTp4HostPartialChunk<'_>,
    row_bytes: int,
    n: int,
) -> Seq<StageStep> {
    Seq::new(
        n as nat,
        |i: int|
            StageStep::HostRow {
                chunk: index as usize,
                rank: chunk.rank,
                src_offset: (i * row_bytes) as usize,
                dst_offset: (chunk.global_row_indices@[i] * row_bytes) as usize,
                bytes: row_bytes as usize,
            },
    )
}

/// The copies of all rows of the first `n` chunks.
pub open spec fn host_row_steps(
    chunks: Seq<Ds4FlashTp4HostPartialChunk<'_>>,
    row_bytes: int,
    n: int,
) -> Seq<StageStep>
    decreases n,
{
    if n <= 0 {
        Seq::empty()
    } else {
        host_row_steps(chunks, row_bytes, n - 1) + chunk_row_steps(
            n - 1,
            chunks[n - 1],
            row_bytes,
            chunks[n - 1].global_row_indices@.len() as int,
        )
    }
}

/// Where a run of consecutive rows that reaches up to `end` stops.
pub open spec fn run_end(rows: Seq<usize>, end: int) -> int
    decreases rows.len() - end,
{
    if 0 < end < rows.len() && rows[end] == rows[end - 1] + 1 {
        run_end(rows, end + 1)
    } else {
        end
    }
}

/// The copy of the run of rows `start..end` of a pinned chunk.
pub open spec fn pinned_run_step(
    index: int,
    chunk: Ds4FlashTp4HostPartialChunk<'_>,
    partial: Ds41rtDeviceBuffer,
    row_bytes: int,
    start: int,
    end: int,
) -> StageStep {
    StageStep::PinnedRun {
        chunk: index as usize,
        rank: chunk.rank,
        src_offset: (start * row_bytes) as usize,
        destination: partial.part(
            chunk.global_row_indices@[start] * row_bytes,
            (end - start) * row_bytes,
        ),
        bytes: ((end - start) * row_bytes) as usize,
    }
}

pub(crate) proof fn lemma_run_end_bounds(rows: Seq<usize>, end: int)
    requires
        end <= rows.len(),
    ensures
        end <= run_end(rows, end) <= rows.len(),
    decreases rows.len() - end,
{
    if 0 < end < rows.len() && rows[end] == rows[end - 1] + 1 {
        lemma_run_end_bounds(rows, end + 1);
    }
}

/// The copies of a pinned chunk from row place `start` on, one per run of
/// consecutive rows.
pub open spec fn pinned_runs(
    index: int,
    chunk: Ds4FlashTp4HostPartialChunk<'_>,
    partial: Ds41rtDeviceBuffer,
    row_bytes: int,
    start: int,
) -> Seq<StageStep>
    decreases chunk.global_row_indices@.len() - start,
    via pinned_runs_decreases
{
    let rows = chunk.global_row_indices@;
    if start < 0 || start >= rows.len() {
        Seq::empty()
    } else {
        let end = run_end(rows, start + 1);
        seq![pinned_run_step(index, chunk, partial, row_bytes, start, end)] + pinned_runs(
            index,
            chunk,
            partial,
            row_bytes,
            end,
        )
    }
}

#[via_fn]
proof fn pinned_runs_decreases(
    index: int,
    chunk: Ds4FlashTp4HostPartialChunk<'_>,
    partial: Ds41rtDeviceBuffer,
    row_bytes: int,
    start: int,
) {
    let rows = chunk.global_row_indices@;
    if !(start < 0 || start >= rows.len()) {
        lemma_run_end_bounds(rows, start + 1);
    }
}

/// The copies of the first `n` pinned chunks.
pub open spec fn pinned_steps(
    chunks: Seq<Ds4FlashTp4HostPartialChunk<'_>>,
    b: Ds4FlashTp4ReductionDeviceBuffers,
    row_bytes: int,
    n: int,
) -> Seq<StageStep>
    decreases n,
{
    if n <= 0 {
        Seq::empty()
    } else {
        pinned_steps(chunks, b, row_bytes, n - 1) + pinned_runs(
            n - 1,
            chunks[n - 1],
            b.rank_partials@[chunks[n - 1].rank as int],
            row_bytes,
            0,
        )
    }
}

/// Every row of a run follows the row before it, so one contiguous copy puts
/// every row of the run in its place.
pub proof fn law_run_is_consecutive(rows: Seq<usize>, start: int, k: int)
    requires
        0 <= start < rows.len(),
        start <= k < run_end(rows, start + 1),
    ensures
        rows[k] == rows[start] + (k - start),
{
    lemma_run_consecutive_from(rows, start, start + 1, k);
}

proof fn lemma_run_consecutive_from(rows: Seq<usize>, start: int, end: int, k: int)
    requires
        0 <= start < end <= rows.len(),
        forall|i: int| start <= i < end ==> #[trigger] rows[i] == rows[start] + (i - start),
        start <= k < run_end(rows, end),
    ensures
        rows[k] == rows[start] + (k - start),
    decreases rows.len() - end,
{
    if end < rows.len() && rows[end] == rows[end - 1] + 1 {
        assert(rows[end - 1] == rows[start] + (end - 1 - start));
        lemma_run_consecutive_from(rows, start, end + 1, k);
    }
}

/// The direct copies of a pinned chunk land every row: each row place from
/// `start` on lies in a run `s..e` that is copied, as far behind the start of
/// the run as its row is behind the first row of the run.
pub proof fn law_pinned_runs_land_every_row(
    index: int,
    chunk: Ds4FlashTp4HostPartialChunk<'_>,
    partial: Ds41rtDeviceBuffer,
    row_bytes: int,
    start: int,
    place: int,
)
    requires
        0 <= start <= place < chunk.global_row_indices@.len(),
    ensures
        exists|k: int, s: int, e: int|
            0 <= k < pinned_runs(index, chunk, partial, row_bytes, start).len() && 0 <= s <= place
                < e && #[trigger] pinned_runs(index, chunk, partial, row_bytes, start)[k]
                == #[trigger] pinned_run_step(index, chunk, partial, row_bytes, s, e)
                && chunk.global_row_indices@[place] == chunk.global_row_indices@[s] + (place - s),
    decreases chunk.global_row_indices@.len() - start,
{
    let rows = chunk.global_row_indices@;
    let end = run_end(rows, start + 1);
    lemma_run_end_bounds(rows, start + 1);
    let runs = pinned_runs(index, chunk, partial, row_bytes, start);
    let rest = pinned_runs(index, chunk, partial, row_bytes, end);
    let step = pinned_run_step(index, chunk, partial, row_bytes, start, end);
    assert(runs == seq![step] + rest);
    if place < end {
        law_run_is_consecutive(rows, start, place);
        assert(runs[0] == step);
    } else {
        law_pinned_runs_land_every_row(index, chunk, partial, row_bytes, end, place);
        let (k, s, e) = choose|k: int, s: int, e: int|
            0 <= k < rest.len() && 0 <= s <= place < e && #[trigger] rest[k]
                == #[trigger] pinned_run_step(index, chunk, partial, row_bytes, s, e)
                && rows[place] == rows[s] + (place - s);
        assert(runs[k + 1] == pinned_run_step(index, chunk, partial, row_bytes, s, e));
    }
}

/// All chunks carry a pinned payload.
pub open spec fn all_pinned(chunks: Seq<Ds4FlashTp4HostPartialChunk<'_>>) -> bool {
    forall|i: int| 0 <= i < chunks.len() ==> (#[trigger] chunks[i]).pinned_payload is Some
}

/// The pinned payload of a chunk is an exact pinned view of its bytes.
pub open spec fn exact_pinned_view(chunk: Ds4FlashTp4HostPartialChunk<'_>) -> bool {
    &&& chunk.pinned_payload is Some
    &&& chunk.pinned_payload->Some_0.ptr != 0
    &&& chunk.pinned_payload->Some_0.bytes == chunk.payload_bf16@.len()
    &&& chunk.pinned_payload->Some_0.pinned
}

pub(crate) proof fn lemma_row_fits(row: int, count: int, rows: int, row_bytes: int)
    by (nonlinear_arith)
    requires
        0 <= row,
        0 <= count,
        row + count <= rows,
        row_bytes >= 0,
    ensures
        0 <= row * row_bytes,
        0 <= count * row_bytes,
        row * row_bytes + count * row_bytes <= rows * row_bytes,
{
}

impl Ds4FlashTp4CoordinatorReductionArena {
    /// The buffers of a reduction whose shared input is `shared_delta`.
    pub open spec fn buffers_with(
        self,
        shared_delta: Ds41rtDeviceBuffer,
    ) -> Ds4FlashTp4ReductionDeviceBuffers {
        Ds4FlashTp4ReductionDeviceBuffers {
            shared_delta,
            rank_partials: self.rank_partials,
            reduction_f32: self.reduction_f32,
            ffn_delta: self.ffn_delta,
        }
    }

    /// The memory that the arena is made of.
    pub open spec fn allocation(self) -> Tp4ArenaAllocation {
        Tp4ArenaAllocation {
            rank_partials: self.rank_partials,
            reduction_f32: self.reduction_f32,
            ffn_delta: self.ffn_delta,
        }
    }

    /// The size of the arena can be counted, and its memory is on device zero
    /// and holds it.
    pub open spec fn wf(self) -> bool {
        &&& arena_size_error(self.max_rows as int, self.hidden_size as int) is None
        &&& allocation_on_coordinator(self.allocation())
        &&& allocation_sized(self.allocation(), self.max_rows as int, self.hidden_size as int)
    }

    /// The sizes of the memory that an arena needs.
    pub fn arena_bytes(max_rows: usize, hidden_size: usize) -> (result: Result<
        Tp4ArenaBytes,
        Tp4ArenaError,
    >)
        ensures
            match arena_size_error(max_rows as int, hidden_size as int) {
                Some(e) => result == Err::<Tp4ArenaBytes, Tp4ArenaError>(e),
                None => result is Ok && result->Ok_0.bf16_bytes == max_rows * hidden_size * 2
                    && result->Ok_0.f32_bytes == max_rows * hidden_size * 4,
            },
    {
        if max_rows < 1 || max_rows > DS4_FLASH_MAX_ROWS {
            return Err(Tp4ArenaError::RowsOutOfRange { max_rows });
        }
        if hidden_size == 0 {
            return Err(Tp4ArenaError::HiddenSizeZero);
        }
        let values: usize = match max_rows.checked_mul(hidden_size) {
            Some(values) => values,
            None => return Err(Tp4ArenaError::ShapeOverflow),
        };
        let bf16_bytes: usize = match values.checked_mul(2) {
            Some(bytes) => bytes,
            None => return Err(Tp4ArenaError::Bf16Overflow),
        };
        let f32_bytes: usize = match values.checked_mul(4) {
            Some(bytes) => bytes,
            None => return Err(Tp4ArenaError::F32Overflow),
        };
        Ok(Tp4ArenaBytes { bf16_bytes, f32_bytes })
    }

    /// An arena of Flash width over memory of the sizes that `arena_bytes` gives.
    pub fn new(max_rows: usize, allocation: Tp4ArenaAllocation) -> (result: Result<
        Self,
        Tp4ArenaError,
    >)
        requires
            arena_size_error(max_rows as int, DS4_FLASH_HIDDEN as int) is None ==> allocation_sized(
                allocation,
                max_rows as int,
                DS4_FLASH_HIDDEN as int,
            ),
        ensures
            result matches Ok(arena) ==> arena.wf(),
            match arena_size_error(max_rows as int, DS4_FLASH_HIDDEN as int) {
                Some(e) => result == Err::<Self, Tp4ArenaError>(e),
                None => result == (if allocation_on_coordinator(allocation) {
                    Ok::<Self, Tp4ArenaError>(
                        Ds4FlashTp4CoordinatorReductionArena {
                            max_rows,
                            hidden_size: DS4_FLASH_HIDDEN,
                            rank_partials: allocation.rank_partials,
                            reduction_f32: allocation.reduction_f32,
                            ffn_delta: allocation.ffn_delta,
                        },
                    )
                } else {
                    Err::<Self, Tp4ArenaError>(Tp4ArenaError::NotOnCoordinator)
                }),
            },
    {
        Self::new_for_hidden_size(max_rows, DS4_FLASH_HIDDEN, allocation)
    }

    /// An arena over memory of the sizes that `arena_bytes` gives, which must be
    /// on device zero.
    pub fn new_for_hidden_size(
        max_rows: usize,
        hidden_size: usize,
        allocation: Tp4ArenaAllocation,
    ) -> (result: Result<Self, Tp4ArenaError>)
        requires
            arena_size_error(max_rows as int, hidden_size as int) is None ==> allocation_sized(
                allocation,
                max_rows as int,
                hidden_size as int,
            ),
        ensures
            result matches Ok(arena) ==> arena.wf(),
            match arena_size_error(max_rows as int, hidden_size as int) {
                Some(e) => result == Err::<Self, Tp4ArenaError>(e),
                None => result == (if allocation_on_coordinator(allocation) {
                    Ok::<Self, Tp4ArenaError>(
                        Ds4FlashTp4CoordinatorReductionArena {
                            max_rows,
                            hidden_size,
                            rank_partials: allocation.rank_partials,
                            reduction_f32: allocation.reduction_f32,
                            ffn_delta: allocation.ffn_delta,
                        },
                    )
                } else {
                    Err::<Self, Tp4ArenaError>(Tp4ArenaError::NotOnCoordinator)
                }),
            },
    {
        match Self::arena_bytes(max_rows, hidden_size) {
            Ok(_) => {},
            Err(e) => return Err(e),
        }
        let mut k: usize = 0;
        while k < DS4_FLASH_TP
            invariant
                k <= DS4_FLASH_TP,
                arena_size_error(max_rows as int, hidden_size as int) is None,
                forall|i: int|
                    0 <= i < k ==> (#[trigger] allocation.rank_partials@[i]).device_id == 0,
            decreases DS4_FLASH_TP - k,
        {
            if allocation.rank_partials[k].device_id != 0 {
                assert(allocation.rank_partials@[k as int].device_id != 0);
                return Err(Tp4ArenaError::NotOnCoordinator);
            }
            k = k + 1;
        }
        if allocation.reduction_f32.device_id != 0 || allocation.ffn_delta.device_id != 0 {
            return Err(Tp4ArenaError::NotOnCoordinator);
        }
        Ok(
            Ds4FlashTp4CoordinatorReductionArena {
                max_rows,
                hidden_size,
                rank_partials: allocation.rank_partials,
                reduction_f32: allocation.reduction_f32,
                ffn_delta: allocation.ffn_delta,
            },
        )
    }

    pub fn hidden_size(&self) -> (r: usize)
        ensures
            r == self.hidden_size,
    {
        self.hidden_size
    }

    /// The buffers of a reduction of `rows` rows, refused where their layout is.
    pub fn reduction_device_buffers(
        &self,
        rows: usize,
        shared_delta: Ds41rtDeviceBuffer,
    ) -> (result: Result<Ds4FlashTp4ReductionDeviceBuffers, Tp4ReductionError>)
        ensures
            result is Ok <==> reduction_accepted(
                rows as int,
                self.hidden_size as int,
                self.buffers_with(shared_delta),
            ),
            result matches Ok(b) ==> b == self.buffers_with(shared_delta),
            result matches Err(e) ==> reduction_refused(
                rows as int,
                self.hidden_size as int,
                self.buffers_with(shared_delta),
                e,
            ),
    {
        let buffers = Ds4FlashTp4ReductionDeviceBuffers {
            shared_delta,
            rank_partials: self.rank_partials,
            reduction_f32: self.reduction_f32,
            ffn_delta: self.ffn_delta,
        };
        match validate_ds4_tp4_reduction_buffer_layout_for_hidden_size(
            rows,
            self.hidden_size,
            buffers,
        ) {
            Ok(_) => Ok(buffers),
            Err(e) => Err(e),
        }
    }

    /// The operations of a reduction on the arena's width, and the buffer that
    /// holds the result once they have completed.
    pub fn reduce_synchronized(
        &self,
        rows: usize,
        buffers: Ds4FlashTp4ReductionDeviceBuffers,
    ) -> (result: Result<(Vec<ReductionStep>, Ds41rtDeviceBuffer), Tp4ReductionError>)
        ensures
            result is Ok <==> reduction_accepted(rows as int, self.hidden_size as int, buffers),
            result matches Ok(run) ==> run.0@ == reduction_program(
                buffers,
                (rows * self.hidden_size) as usize,
            ) && run.1 == buffers.ffn_delta,
            result matches Err(e) ==> reduction_refused(
                rows as int,
                self.hidden_size as int,
                buffers,
                e,
            ),
    {
        match ds4_tp4_reduce_bf16_device_inputs_into_for_hidden_size(
            rows,
            self.hidden_size,
            buffers,
        ) {
            Ok(steps) => Ok((steps, buffers.ffn_delta)),
            Err(e) => Err(e),
        }
    }

    /// The copies that bring four complete payloads to the device.
    pub fn stage_host_partials(
        &self,
        rows: usize,
        partial_outputs_bf16_by_rank: &[Vec<u8>],
        global_row_indices_by_rank: &[Vec<usize>],
        shared_delta: Ds41rtDeviceBuffer,
    ) -> (result: Result<Staged, StageError>)
        ensures
            ({
                let hidden = self.hidden_size as int;
                let b = self.buffers_with(shared_delta);
                let payloads = partial_outputs_bf16_by_rank@;
                let maps = global_row_indices_by_rank@;
                if rows > self.max_rows {
                    result == Err::<Staged, StageError>(
                        StageError::CapacityExceeded { chunked: false, rows, capacity: self.max_rows },
                    )
                } else if !host_partials_accepted(rows as int, hidden, payloads, maps) {
                    result matches Err(StageError::Partials(e)) && host_partials_refused(
                        rows as int,
                        hidden,
                        payloads,
                        maps,
                        e,
                    )
                } else if !reduction_accepted(rows as int, hidden, b) {
                    result matches Err(StageError::Layout(e)) && reduction_refused(
                        rows as int,
                        hidden,
                        b,
                        e,
                    )
                } else {
                    result matches Ok(staged) && staged.buffers == b && staged.steps@
                        == rank_payload_steps(b, (rows * hidden * 2) as usize, DS4_FLASH_TP as int)
                }
            }),
    {
        if rows > self.max_rows {
            return Err(StageError::CapacityExceeded { chunked: false, rows, capacity: self.max_rows });
        }
        let rank_bytes: usize = match validate_ds4_tp4_host_partial_layout_for_hidden_size(
            rows,
            self.hidden_size,
            partial_outputs_bf16_by_rank,
            global_row_indices_by_rank,
        ) {
            Ok(bytes) => bytes,
            Err(e) => return Err(StageError::Partials(e)),
        };
        let buffers = match self.reduction_device_buffers(rows, shared_delta) {
            Ok(buffers) => buffers,
            Err(e) => return Err(StageError::Layout(e)),
        };
        let mut steps: Vec<StageStep> = Vec::new();
        let mut rank: usize = 0;
        while rank < DS4_FLASH_TP
            invariant
                rank <= DS4_FLASH_TP,
                steps@ == rank_payload_steps(buffers, rank_bytes, rank as int),
            decreases DS4_FLASH_TP - rank,
        {
            steps.push(
                StageStep::RankPayload {
                    rank,
                    destination: buffers.rank_partials[rank],
                    bytes: rank_bytes,
                },
            );
            rank = rank + 1;
            assert(steps@ =~= rank_payload_steps(buffers, rank_bytes, rank as int));
        }
        Ok(Staged { buffers, steps })
    }

    /// The copies that bring accepted chunks to the device: direct copies of
    /// runs where every chunk is pinned, else rows through host images.
    pub open spec fn chunk_stage_steps(
        self,
        rows: int,
        chunks: Seq<Ds4FlashTp4HostPartialChunk<'_>>,
        shared_delta: Ds41rtDeviceBuffer,
    ) -> Seq<StageStep> {
        let b = self.buffers_with(shared_delta);
        let row_bytes = self.hidden_size * 2;
        if all_pinned(chunks) {
            pinned_steps(chunks, b, row_bytes, chunks.len() as int)
        } else {
            host_row_steps(chunks, row_bytes, chunks.len() as int) + rank_image_steps(
                b,
                (rows * row_bytes) as usize,
                DS4_FLASH_TP as int,
            )
        }
    }

    /// Response chunks can be staged.
    pub open spec fn chunks_stageable(
        self,
        rows: int,
        chunks: Seq<Ds4FlashTp4HostPartialChunk<'_>>,
        shared_delta: Ds41rtDeviceBuffer,
    ) -> bool {
        &&& rows <= self.max_rows
        &&& chunks_accepted(rows, self.hidden_size as int, chunks)
        &&& reduction_accepted(rows, self.hidden_size as int, self.buffers_with(shared_delta))
        &&& all_pinned(chunks) ==> forall|i: int|
            0 <= i < chunks.len() ==> exact_pinned_view(#[trigger] chunks[i])
    }

    /// Response chunks are not staged for the reason `e`, the first that applies.
    pub open spec fn chunks_not_staged(
        self,
        rows: int,
        chunks: Seq<Ds4FlashTp4HostPartialChunk<'_>>,
        shared_delta: Ds41rtDeviceBuffer,
        e: StageError,
    ) -> bool {
        let hidden = self.hidden_size as int;
        let b = self.buffers_with(shared_delta);
        match e {
            StageError::CapacityExceeded { chunked, rows: r, capacity } => chunked && r == rows && capacity
                == self.max_rows && rows > self.max_rows,
            StageError::Partials(_) => false,
            StageError::Chunks(c) => rows <= self.max_rows && !chunks_accepted(rows, hidden, chunks)
                && chunks_refused(rows, hidden, chunks, c),
            StageError::Layout(l) => rows <= self.max_rows && chunks_accepted(rows, hidden, chunks)
                && !reduction_accepted(rows, hidden, b) && reduction_refused(rows, hidden, b, l),
            StageError::NotPinnedView { chunk, rank } => {
                &&& rows <= self.max_rows
                &&& chunks_accepted(rows, hidden, chunks)
                &&& reduction_accepted(rows, hidden, b)
                &&& all_pinned(chunks)
                &&& chunk < chunks.len()
                &&& rank == chunks[chunk as int].rank
                &&& !exact_pinned_view(chunks[chunk as int])
                &&& forall|i: int| 0 <= i < chunk ==> exact_pinned_view(#[trigger] chunks[i])
            },
        }
    }

    /// The copies that bring response chunks to the device.
    pub fn stage_host_partial_chunks(
        &self,
        rows: usize,
        chunks: &[Ds4FlashTp4HostPartialChunk<'_>],
        shared_delta: Ds41rtDeviceBuffer,
    ) -> (result: Result<Staged, StageError>)
        ensures
            result is Ok <==> self.chunks_stageable(rows as int, chunks@, shared_delta),
            result matches Ok(staged) ==> staged.buffers == self.buffers_with(shared_delta)
                && staged.steps@ == self.chunk_stage_steps(rows as int, chunks@, shared_delta),
            result matches Err(e) ==> self.chunks_not_staged(
                rows as int,
                chunks@,
                shared_delta,
                e,
            ),
    {
        if rows > self.max_rows {
            return Err(StageError::CapacityExceeded { chunked: true, rows, capacity: self.max_rows });
        }
        let rank_bytes: usize = match validate_ds4_tp4_host_partial_chunks_for_hidden_size(
            rows,
            self.hidden_size,
            chunks,
        ) {
            Ok(bytes) => bytes,
            Err(e) => return Err(StageError::Chunks(e)),
        };
        let buffers = match self.reduction_device_buffers(rows, shared_delta) {
            Ok(buffers) => buffers,
            Err(e) => return Err(StageError::Layout(e)),
        };
        let mut every_pinned: bool = true;
        let mut at: usize = 0;
        while at < chunks.len()
            invariant
                at <= chunks@.len(),
                every_pinned == (forall|i: int|
                    0 <= i < at ==> (#[trigger] chunks@[i]).pinned_payload is Some),
            decreases chunks@.len() - at,
        {
            let pinned: bool = chunks[at].pinned_payload.is_some();
            if !pinned {
                assert(!(chunks@[at as int].pinned_payload is Some));
            }
            every_pinned = every_pinned && pinned;
            at = at + 1;
        }
        if every_pinned {
            return self.stage_pinned_host_partial_chunks(rows, chunks, buffers);
        }
        proof {
            lemma_row_bytes_fit(rows as int, self.hidden_size as int);
        }
        let row_bytes: usize = self.hidden_size * 2;
        let mut steps: Vec<StageStep> = Vec::new();
        let mut index: usize = 0;
        while index < chunks.len()
            invariant
                index <= chunks@.len(),
                row_bytes == self.hidden_size * 2,
                rank_bytes == rows * row_bytes,
                chunks_accepted(rows as int, self.hidden_size as int, chunks@),
                steps@ == host_row_steps(chunks@, row_bytes as int, index as int),
            decreases chunks@.len() - index,
        {
            let chunk: Ds4FlashTp4HostPartialChunk<'_> = chunks[index];
            let ghost before = steps@;
            let mut place: usize = 0;
            assert(steps@ =~= before + chunk_row_steps(index as int, chunk, row_bytes as int, 0));
            while place < chunk.global_row_indices.len()
                invariant
                    place <= chunk.global_row_indices@.len(),
                    index < chunks@.len(),
                    chunk == chunks@[index as int],
                    row_bytes == self.hidden_size * 2,
                    rank_bytes == rows * row_bytes,
                    chunks_accepted(rows as int, self.hidden_size as int, chunks@),
                    steps@ == before + chunk_row_steps(
                        index as int,
                        chunk,
                        row_bytes as int,
                        place as int,
                    ),
                decreases chunk.global_row_indices@.len() - place,
            {
                let row: usize = chunk.global_row_indices[place];
                proof {
                    assert(chunk_header_ok(chunks@[index as int], row_bytes as int));
                    let total_bytes = chunk.payload_bf16.len();
                    lemma_row_fits(
                        place as int,
                        1,
                        chunk.global_row_indices@.len() as int,
                        row_bytes as int,
                    );
                    lemma_chunk_rows_in_range(chunks@, rows as int, index as int, place as int);
                    lemma_row_fits(row as int, 1, rows as int, row_bytes as int);
                }
                let payload_bytes: usize = chunk.payload_bf16.len();
                let src_offset: usize = place * row_bytes;
                let dst_offset: usize = row * row_bytes;
                steps.push(
                    StageStep::HostRow {
                        chunk: index,
                        rank: chunk.rank,
                        src_offset,
                        dst_offset,
                        bytes: row_bytes,
                    },
                );
                place = place + 1;
                assert(steps@ =~= before + chunk_row_steps(
                    index as int,
                    chunk,
                    row_bytes as int,
                    place as int,
                ));
            }
            index = index + 1;
        }
        let ghost row_steps = steps@;
        let mut rank: usize = 0;
        assert(steps@ =~= row_steps + rank_image_steps(buffers, rank_bytes, 0));
        while rank < DS4_FLASH_TP
            invariant
                rank <= DS4_FLASH_TP,
                steps@ == row_steps + rank_image_steps(buffers, rank_bytes, rank as int),
            decreases DS4_FLASH_TP - rank,
        {
            steps.push(
                StageStep::RankImage {
                    rank,
                    destination: buffers.rank_partials[rank],
                    bytes: rank_bytes,
                },
            );
            rank = rank + 1;
            assert(steps@ =~= row_steps + rank_image_steps(buffers, rank_bytes, rank as int));
        }
        Ok(Staged { buffers, steps })
    }

    /// The direct copies of pinned chunks.
    fn stage_pinned_host_partial_chunks(
        &self,
        rows: usize,
        chunks: &[Ds4FlashTp4HostPartialChunk<'_>],
        buffers: Ds4FlashTp4ReductionDeviceBuffers,
    ) -> (result: Result<Staged, StageError>)
        requires
            chunks_accepted(rows as int, self.hidden_size as int, chunks@),
            reduction_accepted(rows as int, self.hidden_size as int, buffers),
            all_pinned(chunks@),
        ensures
            result is Ok <==> forall|i: int|
                0 <= i < chunks@.len() ==> exact_pinned_view(#[trigger] chunks@[i]),
            result matches Ok(staged) ==> staged.buffers == buffers && staged.steps@
                == pinned_steps(chunks@, buffers, self.hidden_size * 2, chunks@.len() as int),
            result matches Err(e) ==> (e matches StageError::NotPinnedView { chunk, rank } && chunk
                < chunks@.len() && rank == chunks@[chunk as int].rank && !exact_pinned_view(
                chunks@[chunk as int],
            ) && forall|i: int| 0 <= i < chunk ==> exact_pinned_view(#[trigger] chunks@[i])),
    {
        proof {
            lemma_row_bytes_fit(rows as int, self.hidden_size as int);
        }
        let row_bytes: usize = self.hidden_size * 2;
        let mut steps: Vec<StageStep> = Vec::new();
        let mut index: usize = 0;
        while index < chunks.len()
            invariant
                index <= chunks@.len(),
                row_bytes == self.hidden_size * 2,
                chunks_accepted(rows as int, self.hidden_size as int, chunks@),
                reduction_accepted(rows as int, self.hidden_size as int, buffers),
                all_pinned(chunks@),
                forall|i: int| 0 <= i < index ==> exact_pinned_view(#[trigger] chunks@[i]),
                steps@ == pinned_steps(chunks@, buffers, row_bytes as int, index as int),
            decreases chunks@.len() - index,
        {
            let chunk: Ds4FlashTp4HostPartialChunk<'_> = chunks[index];
            let rank: usize = chunk.rank;
            let payload_bytes: usize = chunk.payload_bf16.len();
            let exact: bool = match chunk.pinned_payload {
                Some(pinned) => pinned.ptr != 0 && pinned.bytes == payload_bytes && pinned.pinned,
                None => false,
            };
            assert(exact == exact_pinned_view(chunks@[index as int]));
            if !exact {
                return Err(StageError::NotPinnedView { chunk: index, rank });
            }
            assert(chunk_header_ok(chunks@[index as int], row_bytes as int));
            let partial: Ds41rtDeviceBuffer = buffers.rank_partials[rank];
            let ghost before = steps@;
            let ghost rows_of = chunk.global_row_indices@;
            let count: usize = chunk.global_row_indices.len();
            let mut run_start: usize = 0;
            while run_start < count
                invariant
                    run_start <= count,
                    count == rows_of.len(),
                    rows_of == chunk.global_row_indices@,
                    index < chunks@.len(),
                    chunk == chunks@[index as int],
                    rank == chunk.rank,
                    rank < DS4_FLASH_TP,
                    partial == buffers.rank_partials@[rank as int],
                    row_bytes == self.hidden_size * 2,
                    payload_bytes == chunk.payload_bf16@.len(),
                    payload_bytes == count * row_bytes,
                    chunks_accepted(rows as int, self.hidden_size as int, chunks@),
                    reduction_accepted(rows as int, self.hidden_size as int, buffers),
                    steps@ + pinned_runs(
                        index as int,
                        chunk,
                        partial,
                        row_bytes as int,
                        run_start as int,
                    ) == before + pinned_runs(index as int, chunk, partial, row_bytes as int, 0),
                decreases count - run_start,
            {
                let mut run_stop: usize = run_start + 1;
                let mut going: bool = true;
                while going && run_stop < count
                    invariant
                        run_start < run_stop <= count,
                        count == rows_of.len(),
                        rows_of == chunk.global_row_indices@,
                        chunk == chunks@[index as int],
                        index < chunks@.len(),
                        chunks_accepted(rows as int, self.hidden_size as int, chunks@),
                        run_end(rows_of, run_start + 1) == run_end(rows_of, run_stop as int),
                        !going ==> run_end(rows_of, run_stop as int) == run_stop,
                    decreases (count - run_stop) + (if going { 1int } else { 0int }),
                {
                    proof {
                        lemma_chunk_rows_in_range(
                            chunks@,
                            rows as int,
                            index as int,
                            run_stop - 1,
                        );
                    }
                    if chunk.global_row_indices[run_stop] == chunk.global_row_indices[run_stop - 1]
                        + 1 {
                        run_stop = run_stop + 1;
                    } else {
                        going = false;
                    }
                }
                assert(run_stop == run_end(rows_of, run_start + 1));
                let first_row: usize = chunk.global_row_indices[run_start];
                let run_rows: usize = run_stop - run_start;
                proof {
                    law_run_is_consecutive(rows_of, run_start as int, run_stop - 1);
                    lemma_chunk_rows_in_range(chunks@, rows as int, index as int, run_stop - 1);
                    lemma_row_fits(
                        run_start as int,
                        run_rows as int,
                        count as int,
                        row_bytes as int,
                    );
                    lemma_row_fits(
                        first_row as int,
                        run_rows as int,
                        rows as int,
                        row_bytes as int,
                    );
                    lemma_rank_partial_holds(
                        rows as int,
                        self.hidden_size as int,
                        buffers,
                        rank as int,
                    );
                }
                let src_offset: usize = run_start * row_bytes;
                let dst_offset: usize = first_row * row_bytes;
                let bytes: usize = run_rows * row_bytes;
                let destination: Ds41rtDeviceBuffer = match device_buffer_byte_view(
                    partial,
                    dst_offset,
                    bytes,
                ) {
                    Ok(view) => view,
                    Err(_) => partial,
                };
                let ghost steps_before = steps@;
                steps.push(
                    StageStep::PinnedRun { chunk: index, rank, src_offset, destination, bytes },
                );
                proof {
                    let rest = pinned_runs(
                        index as int,
                        chunk,
                        partial,
                        row_bytes as int,
                        run_stop as int,
                    );
                    let step = pinned_run_step(
                        index as int,
                        chunk,
                        partial,
                        row_bytes as int,
                        run_start as int,
                        run_stop as int,
                    );
                    assert(steps@ == steps_before.push(step));
                    assert(pinned_runs(
                        index as int,
                        chunk,
                        partial,
                        row_bytes as int,
                        run_start as int,
                    ) == seq![step] + rest);
                    assert(steps@ + rest =~= steps_before + (seq![step] + rest));
                }
                run_start = run_stop;
            }
            assert(pinned_runs(index as int, chunk, partial, row_bytes as int, count as int)
                =~= Seq::<StageStep>::empty());
            assert(steps@ =~= pinned_steps(chunks@, buffers, row_bytes as int, index + 1));
            index = index + 1;
        }
        Ok(Staged { buffers, steps })
    }

    /// Stages response chunks and reduces them into the arena's output.
    pub fn stage_host_partial_chunks_and_reduce_synchronized(
        &self,
        rows: usize,
        chunks: &[Ds4FlashTp4HostPartialChunk<'_>],
        shared_delta: Ds41rtDeviceBuffer,
    ) -> (result: Result<StagedReduction, StageError>)
        ensures
            result is Ok <==> self.chunks_stageable(rows as int, chunks@, shared_delta),
            result matches Ok(run) ==> run.stage@ == self.chunk_stage_steps(
                rows as int,
                chunks@,
                shared_delta,
            ) && run.reduction@ == reduction_program(
                self.buffers_with(shared_delta),
                (rows * self.hidden_size) as usize,
            ) && run.completion == StreamCompletion::Synchronize && run.output == self.ffn_delta,
            result matches Err(e) ==> self.chunks_not_staged(
                rows as int,
                chunks@,
                shared_delta,
                e,
            ),
    {
        let staged = match self.stage_host_partial_chunks(rows, chunks, shared_delta) {
            Ok(staged) => staged,
            Err(e) => return Err(e),
        };
        match self.reduce_synchronized(rows, staged.buffers) {
            Ok(run) => Ok(
                StagedReduction {
                    stage: staged.steps,
                    reduction: run.0,
                    completion: StreamCompletion::Synchronize,
                    output: run.1,
                },
            ),
            Err(e) => Err(StageError::Layout(e)),
        }
    }

    /// The buffers of a reduction into an output of the caller's.
    pub open spec fn buffers_into(
        self,
        shared_delta: Ds41rtDeviceBuffer,
        output: Ds41rtDeviceBuffer,
    ) -> Ds4FlashTp4ReductionDeviceBuffers {
        Ds4FlashTp4ReductionDeviceBuffers {
            shared_delta,
            rank_partials: self.rank_partials,
            reduction_f32: self.reduction_f32,
            ffn_delta: output,
        }
    }

    /// Stages response chunks and reduces them into an output of the caller's,
    /// without waiting. The response frames and the shared input are kept until
    /// the recorded event has come; on an error the stream is waited for first.
    pub fn stage_host_partial_chunks_and_reduce_async_owned(
        &self,
        rows: usize,
        chunks: &[Ds4FlashTp4HostPartialChunk<'_>],
        shared_delta: Ds41rtDeviceBuffer,
        output: Ds41rtDeviceBuffer,
    ) -> (result: Result<OwnedReduction, FailedReduction>)
        ensures
            result is Ok <==> self.chunks_stageable(rows as int, chunks@, shared_delta)
                && reduction_accepted(
                rows as int,
                self.hidden_size as int,
                self.buffers_into(shared_delta, output),
            ),
            result matches Ok(run) ==> run.stage@ == self.chunk_stage_steps(
                rows as int,
                chunks@,
                shared_delta,
            ) && run.reduction@ == reduction_program(
                self.buffers_into(shared_delta, output),
                (rows * self.hidden_size) as usize,
            ) && run.completion == StreamCompletion::RecordReadyEvent && run.output == (
            OwnedReductionOutput {
                rows,
                values_per_row: self.hidden_size,
                backend: DS4_TP4_ASYNC_OWNED_REDUCTION_BACKEND,
                buffer: output,
            }),
            result matches Err(failed) ==> failed.completion == StreamCompletion::Synchronize,
            result matches Err(failed) ==> if self.chunks_stageable(
                rows as int,
                chunks@,
                shared_delta,
            ) {
                failed.error matches StageError::Layout(l) && reduction_refused(
                    rows as int,
                    self.hidden_size as int,
                    self.buffers_into(shared_delta, output),
                    l,
                )
            } else {
                self.chunks_not_staged(rows as int, chunks@, shared_delta, failed.error)
            },
    {
        let staged = match self.stage_host_partial_chunks(rows, chunks, shared_delta) {
            Ok(staged) => staged,
            Err(error) => return Err(
                FailedReduction { error, completion: owned_reduction_completion(false) },
            ),
        };
        let mut buffers = staged.buffers;
        buffers.ffn_delta = output;
        match self.reduce_synchronized(rows, buffers) {
            Ok(run) => Ok(
                OwnedReduction {
                    stage: staged.steps,
                    reduction: run.0,
                    completion: owned_reduction_completion(true),
                    output: OwnedReductionOutput {
                        rows,
                        values_per_row: self.hidden_size,
                        backend: DS4_TP4_ASYNC_OWNED_REDUCTION_BACKEND,
                        buffer: run.1,
                    },
                },
            ),
            Err(e) => Err(
                FailedReduction {
                    error: StageError::Layout(e),
                    completion: owned_reduction_completion(false),
                },
            ),
        }
    }
}

/// What a step of a reduction writes.
pub open spec fn step_destination(step: ReductionStep) -> Ds41rtDeviceBuffer {
    match step {
        ReductionStep::Zero { destination, .. } => destination,
        ReductionStep::Accumulate { destination, .. } => destination,
        ReductionStep::Cast { destination, .. } => destination,
    }
}

/// The value at one place of what a reduction last wrote, after its first `n`
/// operations. `read` gives the value of an input there; `zero`, `sum` and
/// `narrow` are the arithmetic of the device.
pub open spec fn reduced_value(
    program: Seq<ReductionStep>,
    read: spec_fn(Ds41rtDeviceBuffer) -> int,
    zero: int,
    sum: spec_fn(int, int) -> int,
    narrow: spec_fn(int) -> int,
    n: int,
) -> int
    decreases n,
{
    if n <= 0 {
        zero
    } else {
        let before = reduced_value(program, read, zero, sum, narrow, n - 1);
        match program[n - 1] {
            ReductionStep::Zero { .. } => zero,
            ReductionStep::Accumulate { source, .. } => sum(before, read(source)),
            ReductionStep::Cast { .. } => narrow(before),
        }
    }
}

proof fn lemma_reduced_value_same(
    left: Seq<ReductionStep>,
    right: Seq<ReductionStep>,
    read: spec_fn(Ds41rtDeviceBuffer) -> int,
    zero: int,
    sum: spec_fn(int, int) -> int,
    narrow: spec_fn(int) -> int,
    n: int,
)
    requires
        forall|i: int| 0 <= i < n ==> #[trigger] left[i] == right[i],
    ensures
        reduced_value(left, read, zero, sum, narrow, n) == reduced_value(
            right,
            read,
            zero,
            sum,
            narrow,
            n,
        ),
    decreases n,
{
    if n > 0 {
        lemma_reduced_value_same(left, right, read, zero, sum, narrow, n - 1);
        assert(left[n - 1] == right[n - 1]);
    }
}

/// An owned reduction differs from the waiting one in where the result goes
/// alone: every operation but the last is the same, the last rounds the same
/// accumulator, and nothing but the accumulator and the owned output is written,
/// so the arena's own output keeps what it held.
pub proof fn law_owned_reduction_differs_in_its_output_alone(
    arena: Ds4FlashTp4CoordinatorReductionArena,
    rows: usize,
    shared_delta: Ds41rtDeviceBuffer,
    output: Ds41rtDeviceBuffer,
)
    ensures
        ({
            let values = (rows * arena.hidden_size) as usize;
            let owned = reduction_program(arena.buffers_into(shared_delta, output), values);
            let waiting = reduction_program(arena.buffers_with(shared_delta), values);
            let last = waiting.len() - 1;
            &&& owned.len() == waiting.len()
            &&& forall|i: int| 0 <= i < last ==> #[trigger] owned[i] == waiting[i]
            &&& waiting[last] == (ReductionStep::Cast {
                source: arena.reduction_f32,
                destination: arena.ffn_delta,
                values,
            })
            &&& owned[last] == (ReductionStep::Cast {
                source: arena.reduction_f32,
                destination: output,
                values,
            })
            &&& forall|i: int|
                0 <= i < last ==> step_destination(#[trigger] owned[i]) == arena.reduction_f32
        }),
{
    let values = (rows * arena.hidden_size) as usize;
    let b = arena.buffers_into(shared_delta, output);
    let w = arena.buffers_with(shared_delta);
    assert forall|k: int| 0 <= k < 5 implies accumulate_step(b, k, values) == accumulate_step(
        w,
        k,
        values,
    ) by {
        assert(reduction_buffer(b, k) == reduction_buffer(w, k));
    }
    assert(reduction_program(b, values)[1] == accumulate_step(b, 0, values));
}

/// An owned reduction leaves in its output, at every place, the value that the
/// waiting one leaves in the arena's, whatever the inputs hold there and however
/// the device adds and rounds.
pub proof fn law_owned_reduction_computes_the_same(
    arena: Ds4FlashTp4CoordinatorReductionArena,
    rows: usize,
    shared_delta: Ds41rtDeviceBuffer,
    output: Ds41rtDeviceBuffer,
    read: spec_fn(Ds41rtDeviceBuffer) -> int,
    zero: int,
    sum: spec_fn(int, int) -> int,
    narrow: spec_fn(int) -> int,
)
    ensures
        ({
            let values = (rows * arena.hidden_size) as usize;
            let owned = reduction_program(arena.buffers_into(shared_delta, output), values);
            let waiting = reduction_program(arena.buffers_with(shared_delta), values);
            let value = reduced_value(owned, read, zero, sum, narrow, owned.len() as int);
            &&& value == reduced_value(
                waiting,
                read,
                zero,
                sum,
                narrow,
                waiting.len() as int,
            )
            &&& value == narrow(
                sum(
                    sum(
                        sum(
                            sum(
                                sum(zero, read(shared_delta)),
                                read(arena.rank_partials@[0]),
                            ),
                            read(arena.rank_partials@[1]),
                        ),
                        read(arena.rank_partials@[2]),
                    ),
                    read(arena.rank_partials@[3]),
                ),
            )
        }),
{
    let values = (rows * arena.hidden_size) as usize;
    let owned = reduction_program(arena.buffers_into(shared_delta, output), values);
    let waiting = reduction_program(arena.buffers_with(shared_delta), values);
    law_owned_reduction_differs_in_its_output_alone(arena, rows, shared_delta, output);
    lemma_reduced_value_same(owned, waiting, read, zero, sum, narrow, waiting.len() - 1);
    reveal_with_fuel(reduced_value, 8);
}

proof fn lemma_row_bytes_fit(rows: int, hidden_size: int)
    by (nonlinear_arith)
    requires
        rows >= 1,
        hidden_size > 0,
        rows * (hidden_size * 2) <= usize::MAX,
    ensures
        hidden_size * 2 <= usize::MAX,
{
}

pub(crate) proof fn lemma_rank_partial_holds(
    rows: int,
    hidden_size: int,
    b: Ds4FlashTp4ReductionDeviceBuffers,
    rank: int,
)
    requires
        reduction_accepted(rows, hidden_size, b),
        0 <= rank < DS4_FLASH_TP,
    ensures
        rows * (hidden_size * 2) <= b.rank_partials@[rank].bytes,
        b.rank_partials@[rank].ptr + rows * (hidden_size * 2) <= usize::MAX,
{
    let values = rows * hidden_size;
    assert(reduction_buffer_fits(b, values, rank + 1));
    assert(reduction_pair_disjoint(b, values, 0, rank + 1));
    assert(reduction_buffer(b, rank + 1) == b.rank_partials@[rank]);
    assert(rows * (hidden_size * 2) == values * 2) by (nonlinear_arith)
        requires
            values == rows * hidden_size,
    ;
}

/// The entries of chunk `n` stand in the entries of all chunks.
pub(crate) proof fn lemma_chunk_entry_present(
    chunks: Seq<Ds4FlashTp4HostPartialChunk<'_>>,
    n: int,
    m: int,
    p: int,
)
    requires
        0 <= n < m,
        0 <= p < chunks[n].global_row_indices@.len(),
    ensures
        entries(chunks, m).contains((chunks[n].rank, chunks[n].global_row_indices@[p])),
    decreases m,
{
    let entry = (chunks[n].rank, chunks[n].global_row_indices@[p]);
    let all = entries(chunks, m);
    let front = entries(chunks, m - 1);
    assert(all == front + chunk_entries(chunks[m - 1]));
    if n == m - 1 {
        assert(all[front.len() + p] == entry);
    } else {
        lemma_chunk_entry_present(chunks, n, m - 1, p);
        let i = choose|i: int| 0 <= i < front.len() && front[i] == entry;
        assert(all[i] == entry);
    }
}

pub(crate) proof fn lemma_chunk_rows_in_range(
    chunks: Seq<Ds4FlashTp4HostPartialChunk<'_>>,
    rows: int,
    n: int,
    p: int,
)
    requires
        entries_distinct(entries(chunks, chunks.len() as int), rows),
        0 <= n < chunks.len(),
        0 <= p < chunks[n].global_row_indices@.len(),
    ensures
        chunks[n].global_row_indices@[p] < rows,
{
    let all = entries(chunks, chunks.len() as int);
    lemma_chunk_entry_present(chunks, n, chunks.len() as int, p);
    let entry = (chunks[n].rank, chunks[n].global_row_indices@[p]);
    let i = choose|i: int| 0 <= i < all.len() && all[i] == entry;
    assert(all[i].1 < rows);
}

} // verus!
