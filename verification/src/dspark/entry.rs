//! The entry projection: target taps are projected and primed chunk by chunk,
//! every chunk with the row count of a captured graph.
use vstd::prelude::*;

use crate::device::{device_buffer_byte_view, ByteViewError, Ds41rtDeviceBuffer};
use crate::dspark::graphs::all_block_rows;
use crate::dspark::graphs::{BlockRows, DeepseekV4DsparkGraphs};
use crate::dspark::launch::PromptMetadataLaunch;
use crate::dspark::plan::{DsparkVariant, DSPARK_PROPOSAL_HC_MULT};
use crate::dspark::storage::entry_views_of;
use crate::dspark::storage::{DeepseekV4DsparkDeviceStorage, DeepseekV4DsparkEntryDeviceBuffers};
use crate::model::DType;
use crate::text::{append_size, decimal};

verus! {

/// The row counts for which entry graphs are captured, in order.
pub open spec fn entry_graph_rows() -> Seq<usize> {
    seq![1, 16, 32, 64, 128, 256, 512, 1_024, 2_048]
}

/// The largest captured row count that does not exceed `remaining`.
pub open spec fn largest_bucket(remaining: int) -> int {
    if remaining >= 2_048 {
        2_048
    } else if remaining >= 1_024 {
        1_024
    } else if remaining >= 512 {
        512
    } else if remaining >= 256 {
        256
    } else if remaining >= 128 {
        128
    } else if remaining >= 64 {
        64
    } else if remaining >= 32 {
        32
    } else if remaining >= 16 {
        16
    } else {
        1
    }
}

/// The row counts for which entry graphs are captured, in order.
pub fn dspark_entry_graph_rows() -> (rows: Vec<usize>)
    ensures
        rows@ == entry_graph_rows(),
{
    let rows: Vec<usize> = vec![1, 16, 32, 64, 128, 256, 512, 1_024, 2_048];
    assert(rows@ =~= entry_graph_rows());
    rows
}

/// The place of a captured row count among the row counts.
pub open spec fn bucket_place(rows: int) -> int {
    if rows == 2_048 {
        8
    } else if rows == 1_024 {
        7
    } else if rows == 512 {
        6
    } else if rows == 256 {
        5
    } else if rows == 128 {
        4
    } else if rows == 64 {
        3
    } else if rows == 32 {
        2
    } else if rows == 16 {
        1
    } else {
        0
    }
}

fn place_of_bucket(rows: usize) -> (place: usize)
    ensures
        place == bucket_place(rows as int),
{
    if rows == 2_048 {
        8
    } else if rows == 1_024 {
        7
    } else if rows == 512 {
        6
    } else if rows == 256 {
        5
    } else if rows == 128 {
        4
    } else if rows == 64 {
        3
    } else if rows == 32 {
        2
    } else if rows == 16 {
        1
    } else {
        0
    }
}

/// No rows are left to cut a chunk from.
#[derive(Clone, Copy, Debug, PartialEq, Eq, Structural)]
pub struct NoEntryRows;

/// The rows of the next chunk of `remaining` rows.
pub fn dspark_entry_chunk_rows(remaining: usize) -> (result: Result<usize, NoEntryRows>)
    ensures
        result is Ok <==> remaining > 0,
        result matches Ok(rows) ==> rows == largest_bucket(remaining as int),
{
    if remaining == 0 {
        return Err(NoEntryRows);
    }
    let rows: Vec<usize> = dspark_entry_graph_rows();
    let mut i: usize = rows.len() - 1;
    while rows[i] > remaining
        invariant
            i < 9,
            rows@ == entry_graph_rows(),
            remaining > 0,
            i < 8 ==> remaining < rows@[i + 1],
        decreases i,
    {
        i = i - 1;
    }
    Ok(rows[i])
}

/// The chunk is that of a captured graph, and the largest that fits.
pub proof fn law_chunk_is_the_largest_captured(remaining: int)
    requires
        remaining > 0,
    ensures
        1 <= largest_bucket(remaining) <= remaining,
        exists|i: int|
            0 <= i < entry_graph_rows().len() && #[trigger] entry_graph_rows()[i]
                == largest_bucket(remaining),
        forall|i: int|
            0 <= i < entry_graph_rows().len() && #[trigger] entry_graph_rows()[i] <= remaining
                ==> entry_graph_rows()[i] <= largest_bucket(remaining),
{
    let rows = entry_graph_rows();
    assert(rows[0] == 1 && rows[1] == 16 && rows[2] == 32 && rows[3] == 64 && rows[4] == 128
        && rows[5] == 256 && rows[6] == 512 && rows[7] == 1_024 && rows[8] == 2_048);
}

/// The rows of the next chunk where `remaining` rows are left and at most
/// `max_main_rows` fit the arena.
pub open spec fn next_chunk(remaining: int, max_main_rows: int) -> int {
    largest_bucket(
        if remaining < max_main_rows {
            remaining
        } else {
            max_main_rows
        },
    )
}

/// The chunks that `remaining` rows are cut into.
pub open spec fn entry_chunks(remaining: int, max_main_rows: int) -> Seq<int>
    decreases remaining,
{
    if remaining <= 0 || max_main_rows <= 0 {
        Seq::empty()
    } else {
        seq![next_chunk(remaining, max_main_rows)] + entry_chunks(
            remaining - next_chunk(remaining, max_main_rows),
            max_main_rows,
        )
    }
}

/// The sum of the first `n` chunks.
pub open spec fn chunk_sum(chunks: Seq<int>, n: int) -> int
    decreases n,
{
    if n <= 0 {
        0
    } else {
        chunk_sum(chunks, n - 1) + chunks[n - 1]
    }
}

proof fn lemma_chunk_sum_shift(first: int, rest: Seq<int>, n: int)
    requires
        0 <= n <= rest.len(),
    ensures
        chunk_sum(seq![first] + rest, n + 1) == first + chunk_sum(rest, n),
    decreases n,
{
    let all = seq![first] + rest;
    if n > 0 {
        lemma_chunk_sum_shift(first, rest, n - 1);
        assert(all[n] == rest[n - 1]);
    } else {
        assert(chunk_sum(all, 0) == 0);
        assert(all[0] == first);
    }
}

/// The chunks of any number of rows cover exactly those rows, each with the
/// row count of a captured graph that fits the arena.
pub proof fn law_entry_chunks_cover_all_rows(remaining: int, max_main_rows: int)
    requires
        remaining >= 0,
        max_main_rows > 0,
    ensures
        chunk_sum(
            entry_chunks(remaining, max_main_rows),
            entry_chunks(remaining, max_main_rows).len() as int,
        ) == remaining,
        forall|i: int|
            0 <= i < entry_chunks(remaining, max_main_rows).len() ==> 1 <= #[trigger] entry_chunks(
                remaining,
                max_main_rows,
            )[i] <= max_main_rows,
    decreases remaining,
{
    if remaining > 0 {
        let first = next_chunk(remaining, max_main_rows);
        let rest = entry_chunks(remaining - first, max_main_rows);
        law_entry_chunks_cover_all_rows(remaining - first, max_main_rows);
        lemma_chunk_sum_shift(first, rest, rest.len() as int);
        assert forall|i: int|
            0 <= i < entry_chunks(remaining, max_main_rows).len() implies 1 <= #[trigger]
        entry_chunks(remaining, max_main_rows)[i] <= max_main_rows by {
            if i > 0 {
                assert(entry_chunks(remaining, max_main_rows)[i] == rest[i - 1]);
            }
        }
    }
}

/// A tapped hidden state on the device.
#[derive(Clone, Copy, Debug, PartialEq, Eq, Structural)]
pub struct TargetTap {
    pub rows: usize,
    pub values_per_row: usize,
    pub buffer: Ds41rtDeviceBuffer,
}

/// Why taps are not projected.
#[derive(Clone, Copy, Debug, PartialEq, Eq, Structural)]
pub enum EntryError {
    NotPrepared,
    NoRows,
    Slot { slot: usize, max_batch: usize },
    RopeTheta,
    RowRangeOverflow,
    Tap { tap: usize },
    Views { error: ByteViewError },
    SourceOffsetOverflow,
    SourceOffset { tap: usize },
    PositionOverflow,
}

/// A request to project and prime the rows of three taps. The bit pattern of
/// the rotary base is that of a 32-bit floating-point value.
#[derive(Clone, Copy, Debug, PartialEq, Eq, Structural)]
pub struct EntryRequest {
    pub target_row_start: usize,
    pub committed_rows: usize,
    pub absolute_context_start: usize,
    pub request_slot: usize,
    pub rope_theta_bits: u32,
}

/// The bit pattern is that of a finite number above zero.
pub open spec fn positive_finite(bits: u32) -> bool {
    0 < bits < 0x7f80_0000
}

/// The tap holds the rows of the request.
pub open spec fn tap_ok(
    storage: DeepseekV4DsparkDeviceStorage,
    tap: TargetTap,
    row_end: int,
) -> bool {
    &&& tap.rows >= row_end
    &&& tap.values_per_row == storage.plan.hidden
    &&& tap.buffer.device_id == 0
}

/// Every entry graph and every prompt graph is there.
pub open spec fn entry_graphs_ready(graphs: DeepseekV4DsparkGraphs) -> bool {
    graphs.entry@ == entry_graph_rows() && graphs.prompt_prime@ == all_block_rows()
}

/// The first reason why a request is not taken, if any.
pub open spec fn entry_request_error(
    storage: DeepseekV4DsparkDeviceStorage,
    graphs_prepared: bool,
    taps: [TargetTap; 3],
    request: EntryRequest,
) -> Option<EntryError> {
    let row_end = request.target_row_start + request.committed_rows;
    if !graphs_prepared {
        Some(EntryError::NotPrepared)
    } else if request.committed_rows == 0 {
        Some(EntryError::NoRows)
    } else if request.request_slot >= storage.plan.max_batch {
        Some(
            EntryError::Slot { slot: request.request_slot, max_batch: storage.plan.max_batch },
        )
    } else if !positive_finite(request.rope_theta_bits) {
        Some(EntryError::RopeTheta)
    } else if row_end > usize::MAX {
        Some(EntryError::RowRangeOverflow)
    } else if !tap_ok(storage, taps@[0], row_end) {
        Some(EntryError::Tap { tap: 0 })
    } else if !tap_ok(storage, taps@[1], row_end) {
        Some(EntryError::Tap { tap: 1 })
    } else if !tap_ok(storage, taps@[2], row_end) {
        Some(EntryError::Tap { tap: 2 })
    } else if storage.entry_view_error() is Some {
        Some(EntryError::Views { error: storage.entry_view_error()->Some_0 })
    } else {
        None
    }
}

fn tap_holds(storage: &DeepseekV4DsparkDeviceStorage, tap: &TargetTap, row_end: usize) -> (r: bool)
    ensures
        r == tap_ok(*storage, *tap, row_end as int),
{
    tap.rows >= row_end && tap.values_per_row == storage.plan.hidden && tap.buffer.device_id == 0
}

/// One strided copy of a tap into the concatenated rows.
#[derive(Clone, Copy, Debug, PartialEq, Eq, Structural)]
pub struct TapCopy {
    pub destination: Ds41rtDeviceBuffer,
    pub destination_pitch: usize,
    pub source: Ds41rtDeviceBuffer,
    pub source_pitch: usize,
    pub row_bytes: usize,
    pub rows: usize,
}

/// One chunk: its rows, where they come from, and what runs in this order: the
/// copies that gather the taps, the entry graph, the prompt metadata and the
/// prompt graph of every block. A graph is given by its place in its set. At the
/// end, the view of the projection.
#[derive(Debug)]
pub struct EntryChunk {
    pub source_row_start: usize,
    pub rows: usize,
    pub copies: Vec<TapCopy>,
    pub entry_graph: usize,
    pub metadata: PromptMetadataLaunch,
    pub prompt_graphs: [usize; 3],
    pub projected_target_main: Ds41rtDeviceBuffer,
}

/// The copy of tap `t` for a chunk that starts at a source row.
pub open spec fn tap_copy(
    storage: DeepseekV4DsparkDeviceStorage,
    taps: [TargetTap; 3],
    t: int,
    source_row: int,
    rows: int,
) -> TapCopy {
    let row_bytes = 2 * storage.plan.hidden;
    let concat = entry_views_of(storage).target_tap_concat;
    let buffer = taps@[t].buffer;
    TapCopy {
        destination: concat.part(t * row_bytes, concat.bytes - t * row_bytes),
        destination_pitch: (3 * row_bytes) as usize,
        source: buffer.part(source_row * row_bytes, buffer.bytes - source_row * row_bytes),
        source_pitch: row_bytes as usize,
        row_bytes: row_bytes as usize,
        rows: rows as usize,
    }
}

/// The metadata of the rows that follow `consumed` rows of a request.
pub open spec fn chunk_metadata(
    storage: DeepseekV4DsparkDeviceStorage,
    request: EntryRequest,
    consumed: int,
    rows: int,
) -> PromptMetadataLaunch {
    PromptMetadataLaunch {
        positions: entry_views_of(storage).prompt_positions,
        main_slots: entry_views_of(storage).prompt_main_slots,
        cos_sin: entry_views_of(storage).prompt_cos_sin,
        absolute_position_start: (request.absolute_context_start + consumed) as usize,
        request_slot: request.request_slot,
        rows: rows as usize,
        rope_theta_bits: request.rope_theta_bits,
    }
}

/// In complete sets of graphs, the graphs of a chunk are those of its row count:
/// the entry graph, and one prompt graph for every block.
pub proof fn law_chunk_graphs_have_its_rows(remaining: int)
    requires
        remaining > 0,
    ensures
        ({
            let rows = largest_bucket(remaining);
            let place = bucket_place(rows);
            &&& 0 <= place < entry_graph_rows().len()
            &&& entry_graph_rows()[place] == rows
            &&& forall|block: int|
                0 <= block < 3 ==> #[trigger] all_block_rows()[9 * block + place] == (BlockRows {
                    block_index: block as usize,
                    rows: rows as usize,
                })
        }),
{
    let rows = largest_bucket(remaining);
    let place = bucket_place(rows);
    assert(entry_graph_rows()[place] == rows);
    assert forall|block: int| 0 <= block < 3 implies #[trigger] all_block_rows()[9 * block + place]
        == (BlockRows { block_index: block as usize, rows: rows as usize }) by {
        assert((9 * block + place) / 9 == block && (9 * block + place) % 9 == place);
    }
}

/// What a chunk does, once `consumed` rows are done.
pub open spec fn entry_chunk_ok(
    chunk: EntryChunk,
    storage: DeepseekV4DsparkDeviceStorage,
    taps: [TargetTap; 3],
    request: EntryRequest,
    consumed: int,
) -> bool {
    let rows = next_chunk(
        request.committed_rows - consumed,
        storage.plan.max_main_rows as int,
    );
    let row = request.target_row_start + consumed;
    &&& chunk.rows == rows
    &&& chunk.source_row_start == row
    &&& chunk.entry_graph == bucket_place(rows)
    &&& chunk.metadata == chunk_metadata(storage, request, consumed, rows)
    &&& chunk.prompt_graphs@ == seq![
        bucket_place(rows) as usize,
        (9 + bucket_place(rows)) as usize,
        (18 + bucket_place(rows)) as usize,
    ]
    &&& chunk.copies@.len() == 3
    &&& forall|t: int|
        0 <= t < 3 ==> #[trigger] chunk.copies@[t] == tap_copy(storage, taps, t, row, rows)
    &&& chunk.projected_target_main == entry_views_of(storage).projected_target_main.part(
        0,
        rows * (2 * storage.plan.hidden),
    )
}

/// Why a tap has no rows from a byte offset on, if it has none.
pub open spec fn tap_source_error(tap: TargetTap, t: usize, offset: int) -> Option<EntryError> {
    if offset > tap.buffer.bytes {
        Some(EntryError::SourceOffset { tap: t })
    } else if tap.buffer.ptr + offset > usize::MAX {
        Some(
            EntryError::Views {
                error: ByteViewError {
                    offset: offset as usize,
                    bytes: (tap.buffer.bytes - offset) as usize,
                    capacity: tap.buffer.bytes,
                },
            },
        )
    } else {
        None
    }
}

/// The first reason why a chunk cannot run, if any: a tap that ends before its
/// rows, or a position that cannot be counted.
pub open spec fn entry_chunk_error(
    storage: DeepseekV4DsparkDeviceStorage,
    taps: [TargetTap; 3],
    request: EntryRequest,
    consumed: int,
) -> Option<EntryError> {
    let offset = (request.target_row_start + consumed) * (2 * storage.plan.hidden);
    if offset > usize::MAX {
        Some(EntryError::SourceOffsetOverflow)
    } else if tap_source_error(taps@[0], 0, offset) is Some {
        tap_source_error(taps@[0], 0, offset)
    } else if tap_source_error(taps@[1], 1, offset) is Some {
        tap_source_error(taps@[1], 1, offset)
    } else if tap_source_error(taps@[2], 2, offset) is Some {
        tap_source_error(taps@[2], 2, offset)
    } else if request.absolute_context_start + consumed > usize::MAX {
        Some(EntryError::PositionOverflow)
    } else {
        None
    }
}

/// The chunks that can run, in order, and why the next one cannot.
#[derive(Debug)]
pub struct EntryRun {
    pub chunks: Vec<EntryChunk>,
    pub refusal: Option<EntryError>,
}

/// Where the chunk number `k` of a request starts.
pub open spec fn chunk_start(
    storage: DeepseekV4DsparkDeviceStorage,
    request: EntryRequest,
    k: int,
) -> int {
    chunk_sum(
        entry_chunks(request.committed_rows as int, storage.plan.max_main_rows as int),
        k,
    )
}

/// The chunks of a run are those of the request up to the first that cannot
/// run.
pub open spec fn entry_run_ok(
    run: EntryRun,
    storage: DeepseekV4DsparkDeviceStorage,
    taps: [TargetTap; 3],
    request: EntryRequest,
) -> bool {
    let all = entry_chunks(request.committed_rows as int, storage.plan.max_main_rows as int);
    let done = run.chunks@.len() as int;
    &&& done <= all.len()
    &&& forall|k: int|
        #![trigger run.chunks@[k]]
        0 <= k < done ==> entry_chunk_ok(
            run.chunks@[k],
            storage,
            taps,
            request,
            chunk_start(storage, request, k),
        ) && entry_chunk_error(storage, taps, request, chunk_start(storage, request, k)) is None
    &&& match run.refusal {
        Some(e) => done < all.len() && entry_chunk_error(
            storage,
            taps,
            request,
            chunk_start(storage, request, done),
        ) == Some(e),
        None => done == all.len(),
    }
}

/// The chunks are those of the request from its start on, and each can run.
#[verifier::opaque]
spec fn chunks_ran(
    chunks: Seq<EntryChunk>,
    storage: DeepseekV4DsparkDeviceStorage,
    taps: [TargetTap; 3],
    request: EntryRequest,
) -> bool {
    forall|k: int|
        #![trigger chunks[k]]
        0 <= k < chunks.len() ==> entry_chunk_ok(
            chunks[k],
            storage,
            taps,
            request,
            chunk_start(storage, request, k),
        ) && entry_chunk_error(storage, taps, request, chunk_start(storage, request, k)) is None
}

proof fn lemma_chunks_ran_empty(
    storage: DeepseekV4DsparkDeviceStorage,
    taps: [TargetTap; 3],
    request: EntryRequest,
)
    ensures
        chunks_ran(Seq::empty(), storage, taps, request),
{
    reveal(chunks_ran);
}

proof fn lemma_chunks_ran_push(
    chunks: Seq<EntryChunk>,
    chunk: EntryChunk,
    storage: DeepseekV4DsparkDeviceStorage,
    taps: [TargetTap; 3],
    request: EntryRequest,
)
    requires
        chunks_ran(chunks, storage, taps, request),
        entry_chunk_ok(
            chunk,
            storage,
            taps,
            request,
            chunk_start(storage, request, chunks.len() as int),
        ),
        entry_chunk_error(
            storage,
            taps,
            request,
            chunk_start(storage, request, chunks.len() as int),
        ) is None,
    ensures
        chunks_ran(chunks.push(chunk), storage, taps, request),
{
    reveal(chunks_ran);
    let all = chunks.push(chunk);
    assert forall|k: int|
        #![trigger all[k]]
        0 <= k < all.len() implies entry_chunk_ok(
        all[k],
        storage,
        taps,
        request,
        chunk_start(storage, request, k),
    ) && entry_chunk_error(storage, taps, request, chunk_start(storage, request, k)) is None by {
        if k < chunks.len() {
            assert(all[k] == chunks[k]);
        }
    }
}

proof fn lemma_run_ok(
    run: EntryRun,
    storage: DeepseekV4DsparkDeviceStorage,
    taps: [TargetTap; 3],
    request: EntryRequest,
)
    requires
        chunks_ran(run.chunks@, storage, taps, request),
        ({
            let all = entry_chunks(
                request.committed_rows as int,
                storage.plan.max_main_rows as int,
            );
            let done = run.chunks@.len() as int;
            &&& done <= all.len()
            &&& match run.refusal {
                Some(e) => done < all.len() && entry_chunk_error(
                    storage,
                    taps,
                    request,
                    chunk_start(storage, request, done),
                ) == Some(e),
                None => done == all.len(),
            }
        }),
    ensures
        entry_run_ok(run, storage, taps, request),
{
    reveal(chunks_ran);
}

proof fn lemma_chunk_at(remaining: int, max_main_rows: int, k: int)
    requires
        remaining >= 0,
        max_main_rows > 0,
        0 <= k <= entry_chunks(remaining, max_main_rows).len(),
    ensures
        0 <= chunk_sum(entry_chunks(remaining, max_main_rows), k) <= remaining,
        k < entry_chunks(remaining, max_main_rows).len() <==> chunk_sum(
            entry_chunks(remaining, max_main_rows),
            k,
        ) < remaining,
        k < entry_chunks(remaining, max_main_rows).len() ==> entry_chunks(
            remaining,
            max_main_rows,
        )[k] == next_chunk(
            remaining - chunk_sum(entry_chunks(remaining, max_main_rows), k),
            max_main_rows,
        ),
    decreases remaining,
{
    if remaining > 0 && k > 0 {
        let first = next_chunk(remaining, max_main_rows);
        let rest = entry_chunks(remaining - first, max_main_rows);
        lemma_chunk_at(remaining - first, max_main_rows, k - 1);
        lemma_chunk_sum_shift(first, rest, k - 1);
        assert(entry_chunks(remaining, max_main_rows) == seq![first] + rest);
    }
}

fn source_view(tap: &TargetTap, t: usize, offset: usize) -> (result: Result<
    Ds41rtDeviceBuffer,
    EntryError,
>)
    ensures
        match tap_source_error(*tap, t, offset as int) {
            Some(e) => result is Err && result->Err_0 == e,
            None => result is Ok && result->Ok_0 == tap.buffer.part(
                offset as int,
                tap.buffer.bytes - offset,
            ),
        },
{
    if offset > tap.buffer.bytes {
        return Err(EntryError::SourceOffset { tap: t });
    }
    match device_buffer_byte_view(tap.buffer, offset, tap.buffer.bytes - offset) {
        Ok(view) => Ok(view),
        Err(error) => Err(EntryError::Views { error }),
    }
}

impl DeepseekV4DsparkDeviceStorage {
    /// Checks that the taps hold the rows of a request.
    pub fn admit_entry_projection(
        &self,
        graphs_prepared: bool,
        taps: &[TargetTap; 3],
        request: EntryRequest,
    ) -> (result: Result<DeepseekV4DsparkEntryDeviceBuffers, EntryError>)
        requires
            self.wf(),
        ensures
            match entry_request_error(*self, graphs_prepared, *taps, request) {
                Some(e) => result is Err && result->Err_0 == e,
                None => result is Ok && result->Ok_0 == entry_views_of(*self),
            },
    {
        if !graphs_prepared {
            return Err(EntryError::NotPrepared);
        }
        if request.committed_rows == 0 {
            return Err(EntryError::NoRows);
        }
        if request.request_slot >= self.plan.max_batch {
            return Err(
                EntryError::Slot { slot: request.request_slot, max_batch: self.plan.max_batch },
            );
        }
        if request.rope_theta_bits == 0 || request.rope_theta_bits >= 0x7f80_0000 {
            return Err(EntryError::RopeTheta);
        }
        let row_end: usize = match request.target_row_start.checked_add(request.committed_rows) {
            Some(row_end) => row_end,
            None => return Err(EntryError::RowRangeOverflow),
        };
        let mut tap: usize = 0;
        while tap < 3
            invariant
                tap <= 3,
                row_end == request.target_row_start + request.committed_rows,
                forall|t: int| 0 <= t < tap ==> tap_ok(*self, #[trigger] taps@[t], row_end as int),
                entry_request_error(*self, graphs_prepared, *taps, request) == (if !tap_ok(
                    *self,
                    taps@[0],
                    row_end as int,
                ) {
                    Some(EntryError::Tap { tap: 0 })
                } else if !tap_ok(*self, taps@[1], row_end as int) {
                    Some(EntryError::Tap { tap: 1 })
                } else if !tap_ok(*self, taps@[2], row_end as int) {
                    Some(EntryError::Tap { tap: 2 })
                } else if self.entry_view_error() is Some {
                    Some(EntryError::Views { error: self.entry_view_error()->Some_0 })
                } else {
                    None
                }),
            decreases 3 - tap,
        {
            if !tap_holds(self, &taps[tap], row_end) {
                return Err(EntryError::Tap { tap });
            }
            tap = tap + 1;
        }
        match self.entry_buffers() {
            Ok(entry) => Ok(entry),
            Err(error) => Err(EntryError::Views { error }),
        }
    }

    /// The chunk that follows once `consumed` rows of a request are done.
    pub fn entry_chunk(
        &self,
        entry: &DeepseekV4DsparkEntryDeviceBuffers,
        taps: &[TargetTap; 3],
        request: EntryRequest,
        consumed: usize,
    ) -> (result: Result<EntryChunk, EntryError>)
        requires
            self.wf(),
            *entry == entry_views_of(*self),
            consumed < request.committed_rows,
            request.target_row_start + request.committed_rows <= usize::MAX,
        ensures
            match entry_chunk_error(*self, *taps, request, consumed as int) {
                Some(e) => result is Err && result->Err_0 == e,
                None => result is Ok && entry_chunk_ok(
                    result->Ok_0,
                    *self,
                    *taps,
                    request,
                    consumed as int,
                ),
            },
    {
        let remaining: usize = request.committed_rows - consumed;
        let bound: usize = if remaining < self.plan.max_main_rows {
            remaining
        } else {
            self.plan.max_main_rows
        };
        let rows: usize = match dspark_entry_chunk_rows(bound) {
            Ok(rows) => rows,
            Err(_) => 1,
        };
        let row_bytes: usize = 2 * self.plan.hidden;
        let source_row_start: usize = request.target_row_start + consumed;
        let source_offset: usize = match source_row_start.checked_mul(row_bytes) {
            Some(offset) => offset,
            None => return Err(EntryError::SourceOffsetOverflow),
        };
        proof {
            lemma_entry_room(*self, rows as int);
        }
        let mut copies: Vec<TapCopy> = Vec::new();
        let mut tap: usize = 0;
        while tap < 3
            invariant
                tap <= 3,
                self.wf(),
                *entry == entry_views_of(*self),
                row_bytes == 2 * self.plan.hidden,
                source_offset == source_row_start * row_bytes,
                source_row_start == request.target_row_start + consumed,
                3 * row_bytes <= entry.target_tap_concat.bytes,
                entry.target_tap_concat.ptr + entry.target_tap_concat.bytes <= usize::MAX,
                copies@.len() == tap,
                forall|t: int|
                    0 <= t < tap ==> tap_source_error(
                        #[trigger] taps@[t],
                        t as usize,
                        source_offset as int,
                    ) is None,
                forall|t: int|
                    0 <= t < tap ==> #[trigger] copies@[t] == tap_copy(
                        *self,
                        *taps,
                        t,
                        source_row_start as int,
                        rows as int,
                    ),
            decreases 3 - tap,
        {
            let source = match source_view(&taps[tap], tap, source_offset) {
                Ok(source) => source,
                Err(error) => {
                    proof {
                        assert(taps@[0] == taps@[0] && taps@[1] == taps@[1]);
                    }
                    return Err(error);
                },
            };
            let shift: usize = tap * row_bytes;
            proof {
                assert(tap * row_bytes <= 2 * row_bytes) by (nonlinear_arith)
                    requires
                        tap <= 2,
                ;
            }
            let destination = Ds41rtDeviceBuffer {
                ptr: entry.target_tap_concat.ptr + shift,
                bytes: entry.target_tap_concat.bytes - shift,
                device_id: entry.target_tap_concat.device_id,
                flags: entry.target_tap_concat.flags,
            };
            copies.push(
                TapCopy {
                    destination,
                    destination_pitch: 3 * row_bytes,
                    source,
                    source_pitch: row_bytes,
                    row_bytes,
                    rows,
                },
            );
            tap = tap + 1;
        }
        assert(taps@[0] == taps@[0] && taps@[1] == taps@[1] && taps@[2] == taps@[2]);
        let absolute_position_start: usize = match request.absolute_context_start.checked_add(
            consumed,
        ) {
            Some(start) => start,
            None => return Err(EntryError::PositionOverflow),
        };
        let projected_target_main = Ds41rtDeviceBuffer {
            ptr: entry.projected_target_main.ptr,
            bytes: rows * row_bytes,
            device_id: entry.projected_target_main.device_id,
            flags: entry.projected_target_main.flags,
        };
        let place: usize = place_of_bucket(rows);
        let prompt_graphs: [usize; 3] = [place, 9 + place, 18 + place];
        assert(prompt_graphs@ =~= seq![place, (9 + place) as usize, (18 + place) as usize]);
        Ok(
            EntryChunk {
                source_row_start,
                rows,
                copies,
                entry_graph: place,
                metadata: PromptMetadataLaunch {
                    positions: entry.prompt_positions,
                    main_slots: entry.prompt_main_slots,
                    cos_sin: entry.prompt_cos_sin,
                    absolute_position_start,
                    request_slot: request.request_slot,
                    rows,
                    rope_theta_bits: request.rope_theta_bits,
                },
                prompt_graphs,
                projected_target_main,
            },
        )
    }

    /// The chunks in which the rows of three taps are projected and primed. The
    /// copies of a chunk gather its taps side by side; the entry graph of its
    /// row count, the prompt metadata and the prompt graphs of all blocks follow.
    /// A chunk that is refused is not among them.
    pub fn project_and_prime_target_taps_in_chunks(
        &self,
        graphs: &DeepseekV4DsparkGraphs,
        taps: &[TargetTap; 3],
        request: EntryRequest,
    ) -> (result: Result<EntryRun, EntryError>)
        requires
            self.wf(),
        ensures
            match entry_request_error(*self, entry_graphs_ready(*graphs), *taps, request) {
                Some(e) => result is Err && result->Err_0 == e,
                None => result is Ok && entry_run_ok(result->Ok_0, *self, *taps, request),
            },
    {
        let graphs_prepared: bool = graphs.entry_projection_graphs_prepared()
            && graphs.prompt_prime_graphs_prepared();
        let entry = match self.admit_entry_projection(graphs_prepared, taps, request) {
            Ok(entry) => entry,
            Err(error) => return Err(error),
        };
        let ghost committed = request.committed_rows as int;
        let ghost limit = self.plan.max_main_rows as int;
        let ghost all = entry_chunks(committed, limit);
        let mut chunks: Vec<EntryChunk> = Vec::new();
        let mut consumed: usize = 0;
        proof {
            lemma_chunks_ran_empty(*self, *taps, request);
        }
        while consumed < request.committed_rows
            invariant
                self.wf(),
                entry == entry_views_of(*self),
                graphs_prepared == entry_graphs_ready(*graphs),
                entry_request_error(*self, graphs_prepared, *taps, request) is None,
                request.target_row_start + request.committed_rows <= usize::MAX,
                committed == request.committed_rows,
                limit == self.plan.max_main_rows,
                all == entry_chunks(committed, limit),
                chunks@.len() <= all.len(),
                consumed == chunk_sum(all, chunks@.len() as int),
                consumed <= request.committed_rows,
                chunks_ran(chunks@, *self, *taps, request),
            decreases request.committed_rows - consumed,
        {
            proof {
                lemma_chunk_at(committed, limit, chunks@.len() as int);
            }
            let chunk = match self.entry_chunk(&entry, taps, request, consumed) {
                Ok(chunk) => chunk,
                Err(error) => {
                    let run = EntryRun { chunks, refusal: Some(error) };
                    proof {
                        lemma_run_ok(run, *self, *taps, request);
                    }
                    return Ok(run);
                },
            };
            let rows: usize = chunk.rows;
            let ghost k = chunks@.len() as int;
            proof {
                lemma_chunks_ran_push(chunks@, chunk, *self, *taps, request);
                law_chunk_is_the_largest_captured(
                    if committed - consumed < limit {
                        committed - consumed
                    } else {
                        limit
                    },
                );
            }
            chunks.push(chunk);
            consumed = consumed + rows;
            proof {
                assert(chunk_sum(all, k + 1) == chunk_sum(all, k) + all[k]);
            }
        }
        proof {
            lemma_chunk_at(committed, limit, chunks@.len() as int);
        }
        let run = EntryRun { chunks, refusal: None };
        proof {
            lemma_run_ok(run, *self, *taps, request);
        }
        Ok(run)
    }
}

proof fn lemma_entry_room(storage: DeepseekV4DsparkDeviceStorage, rows: int)
    requires
        storage.wf(),
        1 <= rows <= storage.plan.max_main_rows,
    ensures
        6 * storage.plan.hidden <= entry_views_of(storage).target_tap_concat.bytes,
        entry_views_of(storage).target_tap_concat.ptr + entry_views_of(
            storage,
        ).target_tap_concat.bytes <= usize::MAX,
        0 <= rows * (2 * storage.plan.hidden) <= entry_views_of(
            storage,
        ).projected_target_main.bytes <= usize::MAX,
{
    let unit = 2 * storage.plan.hidden;
    let limit = storage.plan.max_main_rows as int;
    assert(0 <= rows * unit <= limit * unit) by (nonlinear_arith)
        requires
            0 <= rows <= limit,
            unit >= 0,
    ;
    match storage.plan.variant {
        DsparkVariant::Flash => {
            assert(limit * unit == limit * 8_192) by (nonlinear_arith)
                requires
                    unit == 8_192,
            ;
        },
        DsparkVariant::Pro => {
            assert(limit * unit == limit * 14_336) by (nonlinear_arith)
                requires
                    unit == 14_336,
            ;
        },
    }
}

/// The rows of the mixing function of a residual.
pub const DSPARK_HC_MIXES: usize = 24;

/// Why lanes are not summed.
#[derive(Clone, Copy, Debug, PartialEq, Eq, Structural)]
pub enum LaneSumError {
    SourceWidthOverflow,
    SourceBytesOverflow,
    DestinationBytesOverflow,
    Buffers { hidden: usize },
}

impl LaneSumError {
    pub open spec fn text(self) -> Seq<char> {
        match self {
            LaneSumError::SourceWidthOverflow => "dSpark HC lane-sum source width overflow"@,
            LaneSumError::SourceBytesOverflow => "dSpark HC lane-sum source bytes overflow"@,
            LaneSumError::DestinationBytesOverflow =>
                "dSpark HC lane-sum destination bytes overflow"@,
            LaneSumError::Buffers { hidden } =>
                "dSpark HC lane-sum buffers do not match 24 x 4 x "@ + decimal(hidden as nat)
                + " F32"@,
        }
    }

    pub fn message(&self) -> (out: String)
        ensures
            out@ == self.text(),
    {
        match *self {
            LaneSumError::SourceWidthOverflow => {
                "dSpark HC lane-sum source width overflow".to_owned()
            },
            LaneSumError::SourceBytesOverflow => {
                "dSpark HC lane-sum source bytes overflow".to_owned()
            },
            LaneSumError::DestinationBytesOverflow => {
                "dSpark HC lane-sum destination bytes overflow".to_owned()
            },
            LaneSumError::Buffers { hidden } => {
                let mut out: String = "dSpark HC lane-sum buffers do not match 24 x 4 x ".to_owned();
                append_size(&mut out, hidden);
                out.append(" F32");
                out
            },
        }
    }
}

/// One sum: the byte offsets of four values that are added in order, and the
/// byte offset that their sum is written to.
#[derive(Clone, Copy, Debug, PartialEq, Eq, Structural)]
pub struct LaneSum {
    pub first_lane: usize,
    pub second_lane: usize,
    pub third_lane: usize,
    pub fourth_lane: usize,
    pub destination: usize,
}

/// The byte offset of a value of the source: four lanes of `hidden` columns per
/// mix.
pub open spec fn lane_offset(mix: int, lane: int, column: int, hidden: int) -> int {
    4 * (mix * (4 * hidden) + lane * hidden + column)
}

/// The sum of one column of one mix.
pub open spec fn lane_sum_of(mix: int, column: int, hidden: int) -> LaneSum {
    LaneSum {
        first_lane: lane_offset(mix, 0, column, hidden) as usize,
        second_lane: lane_offset(mix, 1, column, hidden) as usize,
        third_lane: lane_offset(mix, 2, column, hidden) as usize,
        fourth_lane: lane_offset(mix, 3, column, hidden) as usize,
        destination: (4 * (mix * hidden + column)) as usize,
    }
}

/// Why lanes are not summed, if they are not.
pub open spec fn lane_sum_error(
    source_bytes: usize,
    destination_bytes: usize,
    hidden: usize,
) -> Option<LaneSumError> {
    if 4 * hidden > usize::MAX {
        Some(LaneSumError::SourceWidthOverflow)
    } else if 384 * hidden > usize::MAX {
        Some(LaneSumError::SourceBytesOverflow)
    } else if hidden == 0 || source_bytes != 384 * hidden || destination_bytes != 96 * hidden {
        Some(LaneSumError::Buffers { hidden })
    } else {
        None
    }
}

proof fn lemma_lane_offset_fits(mix: int, lane: int, column: int, hidden: int)
    requires
        0 <= mix < 24,
        0 <= lane < 4,
        0 <= column < hidden,
    ensures
        0 <= mix * (4 * hidden) <= 92 * hidden,
        mix * (4 * hidden) == 4 * (mix * hidden),
        0 <= lane * hidden <= 3 * hidden,
        0 <= mix * hidden <= 23 * hidden,
        0 <= lane_offset(mix, lane, column, hidden),
        lane_offset(mix, lane, column, hidden) + 4 <= 384 * hidden,
{
    assert(0 <= mix * (4 * hidden) <= 23 * (4 * hidden)) by (nonlinear_arith)
        requires
            0 <= mix <= 23,
            hidden >= 0,
    ;
    assert(mix * (4 * hidden) == 4 * (mix * hidden)) by (nonlinear_arith);
    assert(0 <= lane * hidden <= 3 * hidden) by (nonlinear_arith)
        requires
            0 <= lane <= 3,
            hidden >= 0,
    ;
}

/// The sums that fold four repeated lanes of every mix into one: for every mix
/// and column, in order, the four values and where their sum goes.
pub fn dspark_sum_repeated_hc_input_lanes(
    source_bytes: usize,
    destination_bytes: usize,
    hidden: usize,
) -> (result: Result<Vec<LaneSum>, LaneSumError>)
    ensures
        match lane_sum_error(source_bytes, destination_bytes, hidden) {
            Some(e) => result is Err && result->Err_0 == e,
            None => result is Ok && result->Ok_0@ == Seq::new(
                (24 * hidden) as nat,
                |i: int| lane_sum_of(i / hidden as int, i % hidden as int, hidden as int),
            ),
        },
{
    let source_columns: usize = match hidden.checked_mul(DSPARK_PROPOSAL_HC_MULT) {
        Some(columns) => columns,
        None => return Err(LaneSumError::SourceWidthOverflow),
    };
    let expected_source_bytes: usize = match source_columns.checked_mul(96) {
        Some(bytes) => bytes,
        None => return Err(LaneSumError::SourceBytesOverflow),
    };
    let expected_destination_bytes: usize = match hidden.checked_mul(96) {
        Some(bytes) => bytes,
        None => return Err(LaneSumError::DestinationBytesOverflow),
    };
    if hidden == 0 || source_bytes != expected_source_bytes || destination_bytes
        != expected_destination_bytes {
        return Err(LaneSumError::Buffers { hidden });
    }
    let ghost sums_of = |i: int| lane_sum_of(i / hidden as int, i % hidden as int, hidden as int);
    let mut sums: Vec<LaneSum> = Vec::new();
    let mut mix: usize = 0;
    while mix < DSPARK_HC_MIXES
        invariant
            mix <= DSPARK_HC_MIXES,
            hidden > 0,
            384 * hidden <= usize::MAX,
            source_columns == 4 * hidden,
            sums_of == (|i: int| lane_sum_of(i / hidden as int, i % hidden as int, hidden as int)),
            sums@ == Seq::new((mix * hidden) as nat, sums_of),
        decreases DSPARK_HC_MIXES - mix,
    {
        let mut column: usize = 0;
        while column < hidden
            invariant
                mix < DSPARK_HC_MIXES,
                column <= hidden,
                hidden > 0,
                384 * hidden <= usize::MAX,
                source_columns == 4 * hidden,
                sums_of == (|i: int| lane_sum_of(i / hidden as int, i % hidden as int, hidden as int)),
                sums@ == Seq::new((mix * hidden + column) as nat, sums_of),
            decreases hidden - column,
        {
            proof {
                lemma_lane_offset_fits(mix as int, 0, column as int, hidden as int);
                lemma_lane_offset_fits(mix as int, 1, column as int, hidden as int);
                lemma_lane_offset_fits(mix as int, 2, column as int, hidden as int);
                lemma_lane_offset_fits(mix as int, 3, column as int, hidden as int);
                vstd::arithmetic::div_mod::lemma_fundamental_div_mod_converse(
                    mix * hidden + column,
                    hidden as int,
                    mix as int,
                    column as int,
                );
                assert(hidden * mix == mix * hidden) by (nonlinear_arith);
            }
            let first: usize = mix * source_columns + column;
            let sum = LaneSum {
                first_lane: 4 * first,
                second_lane: 4 * (first + hidden),
                third_lane: 4 * (first + 2 * hidden),
                fourth_lane: 4 * (first + 3 * hidden),
                destination: 4 * (mix * hidden + column),
            };
            assert(sum == sums_of(mix * hidden + column));
            sums.push(sum);
            column = column + 1;
            assert(sums@ =~= Seq::new((mix * hidden + column) as nat, sums_of));
        }
        assert((mix + 1) * hidden == mix * hidden + hidden) by (nonlinear_arith);
        mix = mix + 1;
    }
    Ok(sums)
}

/// The values of a source are read by sums of their own: two different places
/// have different offsets, four bytes apart at least.
pub proof fn law_lanes_are_read_once(
    mix: int,
    lane: int,
    column: int,
    other_mix: int,
    other_lane: int,
    other_column: int,
    hidden: int,
)
    requires
        0 <= mix < 24 && 0 <= other_mix < 24,
        0 <= lane < 4 && 0 <= other_lane < 4,
        0 <= column < hidden && 0 <= other_column < hidden,
        (mix, lane, column) != (other_mix, other_lane, other_column),
    ensures
        lane_offset(mix, lane, column, hidden) + 4 <= lane_offset(
            other_mix,
            other_lane,
            other_column,
            hidden,
        ) || lane_offset(other_mix, other_lane, other_column, hidden) + 4 <= lane_offset(
            mix,
            lane,
            column,
            hidden,
        ),
{
    let a = 4 * mix + lane;
    let b = 4 * other_mix + other_lane;
    assert(lane_offset(mix, lane, column, hidden) == 4 * (a * hidden + column))
        by (nonlinear_arith)
        requires
            a == 4 * mix + lane,
            lane_offset(mix, lane, column, hidden) == 4 * (mix * (4 * hidden) + lane * hidden
                + column),
    ;
    assert(lane_offset(other_mix, other_lane, other_column, hidden) == 4 * (b * hidden
        + other_column)) by (nonlinear_arith)
        requires
            b == 4 * other_mix + other_lane,
            lane_offset(other_mix, other_lane, other_column, hidden) == 4 * (other_mix * (4
                * hidden) + other_lane * hidden + other_column),
    ;
    if a < b {
        assert(a * hidden + hidden <= b * hidden) by (nonlinear_arith)
            requires
                a + 1 <= b,
                hidden >= 0,
        ;
    } else if b < a {
        assert(b * hidden + hidden <= a * hidden) by (nonlinear_arith)
            requires
                b + 1 <= a,
                hidden >= 0,
        ;
    }
}

/// Why the lane-summed mixing function is not made resident.
#[derive(Clone, Copy, Debug, PartialEq, Eq, Structural)]
pub enum LaneSumPreloadError {
    SourceBytesOverflow,
    Tensor { columns: usize },
}

/// The byte counts of the mixing function before and after its lanes are
/// summed.
pub fn dspark_block0_lane_sum_bytes(hidden: usize) -> (bytes: Result<
    (usize, usize),
    LaneSumPreloadError,
>)
    ensures
        bytes == (if 384 * hidden > usize::MAX {
            Err::<(usize, usize), LaneSumPreloadError>(LaneSumPreloadError::SourceBytesOverflow)
        } else {
            Ok::<(usize, usize), LaneSumPreloadError>(
                ((384 * hidden) as usize, (96 * hidden) as usize),
            )
        }),
{
    match hidden.checked_mul(384) {
        Some(source) => Ok((source, 96 * hidden)),
        None => Err(LaneSumPreloadError::SourceBytesOverflow),
    }
}

/// Checks the mixing function that was read: 24 rows of four lanes of 32-bit
/// values. The result is the byte count of its lane sum.
pub fn preload_dspark_block0_hc_attn_lane_sum(
    dtype: DType,
    shape: &[usize],
    bytes_read: u64,
    hidden: usize,
) -> (result: Result<usize, LaneSumPreloadError>)
    ensures
        result == (if 384 * hidden > usize::MAX {
            Err::<usize, LaneSumPreloadError>(LaneSumPreloadError::SourceBytesOverflow)
        } else if dtype == DType::F32 && shape@ == seq![24usize, (4 * hidden) as usize]
            && bytes_read == 384 * hidden {
            Ok::<usize, LaneSumPreloadError>((96 * hidden) as usize)
        } else {
            Err::<usize, LaneSumPreloadError>(
                LaneSumPreloadError::Tensor { columns: (4 * hidden) as usize },
            )
        }),
{
    let (source, reduced) = match dspark_block0_lane_sum_bytes(hidden) {
        Ok(bytes) => bytes,
        Err(error) => return Err(error),
    };
    let columns: usize = DSPARK_PROPOSAL_HC_MULT * hidden;
    let shape_ok: bool = shape.len() == 2 && shape[0] == DSPARK_HC_MIXES && shape[1] == columns;
    proof {
        if shape_ok {
            assert(shape@ =~= seq![24usize, columns]);
        }
    }
    if dtype != DType::F32 || !shape_ok || bytes_read != source as u64 {
        return Err(LaneSumPreloadError::Tensor { columns });
    }
    Ok(reduced)
}

} // verus!
