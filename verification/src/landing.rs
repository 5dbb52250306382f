//! What the rank images on the device hold once response chunks have landed.
use vstd::prelude::*;

use crate::arena::{
    all_pinned, chunk_row_steps, host_row_steps, law_run_is_consecutive,
    lemma_chunk_rows_in_range, lemma_rank_partial_holds, lemma_row_fits, lemma_run_end_bounds,
    pinned_run_step, pinned_runs, pinned_steps, rank_image_steps, run_end,
    Ds4FlashTp4CoordinatorReductionArena, StageStep,
};
use crate::device::Ds41rtDeviceBuffer;
use crate::tp4::{
    chunk_entries, chunk_header_ok, chunks_accepted, entries, reduction_buffer,
    reduction_pair_disjoint, Ds4FlashTp4HostPartialChunk, DS4_FLASH_TP,
};

verus! {

/// The step writes the byte at `offset` of the host image of a rank.
pub open spec fn host_covers(step: StageStep, rank: int, offset: int) -> bool {
    match step {
        StageStep::HostRow { rank: written, dst_offset, bytes, .. } => written == rank && dst_offset
            <= offset < dst_offset + bytes,
        _ => false,
    }
}

/// The byte that such a step writes there.
pub open spec fn host_value(
    step: StageStep,
    chunks: Seq<Ds4FlashTp4HostPartialChunk<'_>>,
    offset: int,
) -> u8 {
    match step {
        StageStep::HostRow { chunk, src_offset, dst_offset, .. } =>
            chunks[chunk as int].payload_bf16@[src_offset + (offset - dst_offset)],
        _ => 0,
    }
}

/// The byte at `offset` of the host image of a rank after the first `n` steps,
/// where one of them wrote it: the last that did counts.
pub open spec fn host_byte(
    steps: Seq<StageStep>,
    chunks: Seq<Ds4FlashTp4HostPartialChunk<'_>>,
    rank: int,
    offset: int,
    n: int,
) -> Option<u8>
    decreases n,
{
    if n <= 0 {
        None
    } else if host_covers(steps[n - 1], rank, offset) {
        Some(host_value(steps[n - 1], chunks, offset))
    } else {
        host_byte(steps, chunks, rank, offset, n - 1)
    }
}

/// The step writes the byte of the device at an address.
pub open spec fn device_covers(step: StageStep, address: int) -> bool {
    match step {
        StageStep::RankPayload { destination, bytes, .. } => destination.covers_address(
            bytes as int,
            address,
        ),
        StageStep::RankImage { destination, bytes, .. } => destination.covers_address(
            bytes as int,
            address,
        ),
        StageStep::PinnedRun { destination, bytes, .. } => destination.covers_address(
            bytes as int,
            address,
        ),
        StageStep::HostRow { .. } => false,
    }
}

/// The byte that step `k` writes at an address, where it comes from a chunk.
pub open spec fn device_value(
    steps: Seq<StageStep>,
    chunks: Seq<Ds4FlashTp4HostPartialChunk<'_>>,
    k: int,
    address: int,
) -> Option<u8> {
    match steps[k] {
        StageStep::RankImage { rank, destination, .. } => host_byte(
            steps,
            chunks,
            rank as int,
            address - destination.ptr,
            k,
        ),
        StageStep::PinnedRun { chunk, src_offset, destination, .. } => Some(
            chunks[chunk as int].payload_bf16@[src_offset + (address - destination.ptr)],
        ),
        _ => None,
    }
}

/// The byte of the device at an address after the first `n` steps, where it
/// comes from a chunk: the last step that wrote it counts.
pub open spec fn device_byte(
    steps: Seq<StageStep>,
    chunks: Seq<Ds4FlashTp4HostPartialChunk<'_>>,
    address: int,
    n: int,
) -> Option<u8>
    decreases n,
{
    if n <= 0 {
        None
    } else if device_covers(steps[n - 1], address) {
        device_value(steps, chunks, n - 1, address)
    } else {
        device_byte(steps, chunks, address, n - 1)
    }
}

/// Place `p` of chunk `i` carries row `row` of a rank.
pub open spec fn carries(
    chunks: Seq<Ds4FlashTp4HostPartialChunk<'_>>,
    i: int,
    p: int,
    rank: int,
    row: int,
) -> bool {
    &&& 0 <= i < chunks.len()
    &&& 0 <= p < chunks[i].global_row_indices@.len()
    &&& chunks[i].rank == rank
    &&& chunks[i].global_row_indices@[p] == row
}

proof fn lemma_host_byte_known(
    steps: Seq<StageStep>,
    chunks: Seq<Ds4FlashTp4HostPartialChunk<'_>>,
    rank: int,
    offset: int,
    n: int,
    k: int,
    value: u8,
)
    requires
        0 <= k < n,
        host_covers(steps[k], rank, offset),
        forall|j: int|
            0 <= j < n && host_covers(#[trigger] steps[j], rank, offset) ==> host_value(
                steps[j],
                chunks,
                offset,
            ) == value,
    ensures
        host_byte(steps, chunks, rank, offset, n) == Some(value),
    decreases n,
{
    if !host_covers(steps[n - 1], rank, offset) {
        lemma_host_byte_known(steps, chunks, rank, offset, n - 1, k, value);
    }
}

proof fn lemma_device_byte_known(
    steps: Seq<StageStep>,
    chunks: Seq<Ds4FlashTp4HostPartialChunk<'_>>,
    address: int,
    n: int,
    k: int,
    value: u8,
)
    requires
        0 <= k < n,
        device_covers(steps[k], address),
        forall|j: int|
            0 <= j < n && device_covers(#[trigger] steps[j], address) ==> device_value(
                steps,
                chunks,
                j,
                address,
            ) == Some(value),
    ensures
        device_byte(steps, chunks, address, n) == Some(value),
    decreases n,
{
    if !device_covers(steps[n - 1], address) {
        lemma_device_byte_known(steps, chunks, address, n - 1, k, value);
    }
}

proof fn lemma_entry_position(
    chunks: Seq<Ds4FlashTp4HostPartialChunk<'_>>,
    i: int,
    p: int,
    m: int,
)
    requires
        0 <= i < m,
        0 <= p < chunks[i].global_row_indices@.len(),
    ensures
        entries(chunks, i).len() + p < entries(chunks, i + 1).len() <= entries(chunks, m).len(),
        entries(chunks, m)[entries(chunks, i).len() + p] == (
            chunks[i].rank,
            chunks[i].global_row_indices@[p],
        ),
    decreases m,
{
    assert(entries(chunks, m) == entries(chunks, m - 1) + chunk_entries(chunks[m - 1]));
    if i < m - 1 {
        lemma_entry_position(chunks, i, p, m - 1);
    }
}

/// No two places of accepted chunks carry the same row of the same rank.
proof fn lemma_place_unique(
    chunks: Seq<Ds4FlashTp4HostPartialChunk<'_>>,
    rows: int,
    hidden_size: int,
    i: int,
    p: int,
    j: int,
    q: int,
    rank: int,
    row: int,
)
    requires
        chunks_accepted(rows, hidden_size, chunks),
        carries(chunks, i, p, rank, row),
        carries(chunks, j, q, rank, row),
    ensures
        i == j,
        p == q,
{
    let all = entries(chunks, chunks.len() as int);
    lemma_entry_position(chunks, i, p, chunks.len() as int);
    lemma_entry_position(chunks, j, q, chunks.len() as int);
    if i < j {
        lemma_entry_position(chunks, i, p, j);
    }
    if j < i {
        lemma_entry_position(chunks, j, q, i);
    }
    assert(all.no_duplicates());
}

proof fn lemma_place_of_entry(
    chunks: Seq<Ds4FlashTp4HostPartialChunk<'_>>,
    m: int,
    rank: usize,
    row: usize,
) -> (place: (int, int))
    requires
        0 <= m <= chunks.len(),
        entries(chunks, m).contains((rank, row)),
    ensures
        carries(chunks, place.0, place.1, rank as int, row as int),
        place.0 < m,
    decreases m,
{
    let all = entries(chunks, m);
    let at = choose|at: int| 0 <= at < all.len() && all[at] == (rank, row);
    let front = entries(chunks, m - 1);
    assert(all == front + chunk_entries(chunks[m - 1]));
    if at < front.len() {
        assert(front[at] == (rank, row));
        lemma_place_of_entry(chunks, m - 1, rank, row)
    } else {
        (m - 1, at - front.len())
    }
}

/// Every row of every rank stands at a place of accepted chunks.
pub proof fn law_every_row_is_carried(
    chunks: Seq<Ds4FlashTp4HostPartialChunk<'_>>,
    rows: int,
    hidden_size: int,
    rank: usize,
    row: usize,
) -> (place: (int, int))
    requires
        chunks_accepted(rows, hidden_size, chunks),
        rank < DS4_FLASH_TP,
        row < rows,
    ensures
        carries(chunks, place.0, place.1, rank as int, row as int),
{
    lemma_place_of_entry(chunks, chunks.len() as int, rank, row)
}

proof fn lemma_host_step_at(
    chunks: Seq<Ds4FlashTp4HostPartialChunk<'_>>,
    row_bytes: int,
    m: int,
    j: int,
) -> (place: (int, int))
    requires
        0 <= m <= chunks.len(),
        0 <= j < host_row_steps(chunks, row_bytes, m).len(),
    ensures
        0 <= place.0 < m,
        0 <= place.1 < chunks[place.0].global_row_indices@.len(),
        host_row_steps(chunks, row_bytes, m)[j] == chunk_row_steps(
            place.0,
            chunks[place.0],
            row_bytes,
            chunks[place.0].global_row_indices@.len() as int,
        )[place.1],
    decreases m,
{
    let front = host_row_steps(chunks, row_bytes, m - 1);
    if j < front.len() {
        lemma_host_step_at(chunks, row_bytes, m - 1, j)
    } else {
        (m - 1, j - front.len())
    }
}

proof fn lemma_host_step_of(
    chunks: Seq<Ds4FlashTp4HostPartialChunk<'_>>,
    row_bytes: int,
    m: int,
    i: int,
    p: int,
) -> (j: int)
    requires
        0 <= i < m <= chunks.len(),
        0 <= p < chunks[i].global_row_indices@.len(),
    ensures
        0 <= j < host_row_steps(chunks, row_bytes, m).len(),
        host_row_steps(chunks, row_bytes, m)[j] == chunk_row_steps(
            i,
            chunks[i],
            row_bytes,
            chunks[i].global_row_indices@.len() as int,
        )[p],
    decreases m,
{
    let front = host_row_steps(chunks, row_bytes, m - 1);
    if i == m - 1 {
        front.len() as int + p
    } else {
        lemma_host_step_of(chunks, row_bytes, m - 1, i, p)
    }
}

/// `start..end` is a run of consecutive rows of a chunk.
pub open spec fn is_run(rows: Seq<usize>, start: int, end: int) -> bool {
    &&& 0 <= start < end <= rows.len()
    &&& forall|k: int| start <= k < end ==> #[trigger] rows[k] == rows[start] + (k - start)
}

proof fn lemma_first_run(rows: Seq<usize>, start: int)
    requires
        0 <= start < rows.len(),
    ensures
        is_run(rows, start, run_end(rows, start + 1)),
{
    lemma_run_end_bounds(rows, start + 1);
    assert forall|k: int| start <= k < run_end(rows, start + 1) implies #[trigger] rows[k]
        == rows[start] + (k - start) by {
        law_run_is_consecutive(rows, start, k);
    }
}

proof fn lemma_run_at(
    index: int,
    chunk: Ds4FlashTp4HostPartialChunk<'_>,
    partial: Ds41rtDeviceBuffer,
    row_bytes: int,
    start: int,
    j: int,
) -> (run: (int, int))
    requires
        0 <= start,
        0 <= j < pinned_runs(index, chunk, partial, row_bytes, start).len(),
    ensures
        is_run(chunk.global_row_indices@, run.0, run.1),
        pinned_runs(index, chunk, partial, row_bytes, start)[j] == pinned_run_step(
            index,
            chunk,
            partial,
            row_bytes,
            run.0,
            run.1,
        ),
    decreases chunk.global_row_indices@.len() - start,
{
    let rows = chunk.global_row_indices@;
    let end = run_end(rows, start + 1);
    lemma_first_run(rows, start);
    if j == 0 {
        (start, end)
    } else {
        lemma_run_at(index, chunk, partial, row_bytes, end, j - 1)
    }
}

proof fn lemma_run_of(
    index: int,
    chunk: Ds4FlashTp4HostPartialChunk<'_>,
    partial: Ds41rtDeviceBuffer,
    row_bytes: int,
    start: int,
    place: int,
) -> (found: (int, int, int))
    requires
        0 <= start <= place < chunk.global_row_indices@.len(),
    ensures
        0 <= found.0 < pinned_runs(index, chunk, partial, row_bytes, start).len(),
        is_run(chunk.global_row_indices@, found.1, found.2),
        found.1 <= place < found.2,
        pinned_runs(index, chunk, partial, row_bytes, start)[found.0] == pinned_run_step(
            index,
            chunk,
            partial,
            row_bytes,
            found.1,
            found.2,
        ),
    decreases chunk.global_row_indices@.len() - start,
{
    let rows = chunk.global_row_indices@;
    let end = run_end(rows, start + 1);
    lemma_first_run(rows, start);
    if place < end {
        (0, start, end)
    } else {
        let rest = lemma_run_of(index, chunk, partial, row_bytes, end, place);
        (rest.0 + 1, rest.1, rest.2)
    }
}

/// The direct copy of the run `start..end` of chunk `i`.
spec fn run_of_chunk(
    chunks: Seq<Ds4FlashTp4HostPartialChunk<'_>>,
    arena: Ds4FlashTp4CoordinatorReductionArena,
    i: int,
    start: int,
    end: int,
) -> StageStep {
    pinned_run_step(
        i,
        chunks[i],
        arena.rank_partials@[chunks[i].rank as int],
        arena.hidden_size * 2,
        start,
        end,
    )
}

proof fn lemma_pinned_step_at(
    chunks: Seq<Ds4FlashTp4HostPartialChunk<'_>>,
    arena: Ds4FlashTp4CoordinatorReductionArena,
    shared_delta: Ds41rtDeviceBuffer,
    m: int,
    j: int,
) -> (found: (int, int, int))
    requires
        0 <= m <= chunks.len(),
        0 <= j < pinned_steps(
            chunks,
            arena.buffers_with(shared_delta),
            arena.hidden_size * 2,
            m,
        ).len(),
    ensures
        0 <= found.0 < m,
        is_run(chunks[found.0].global_row_indices@, found.1, found.2),
        pinned_steps(chunks, arena.buffers_with(shared_delta), arena.hidden_size * 2, m)[j]
            == run_of_chunk(chunks, arena, found.0, found.1, found.2),
    decreases m,
{
    let b = arena.buffers_with(shared_delta);
    let row_bytes = arena.hidden_size * 2;
    let front = pinned_steps(chunks, b, row_bytes, m - 1);
    if j < front.len() {
        lemma_pinned_step_at(chunks, arena, shared_delta, m - 1, j)
    } else {
        let partial = b.rank_partials@[chunks[m - 1].rank as int];
        let run = lemma_run_at(m - 1, chunks[m - 1], partial, row_bytes, 0, j - front.len());
        (m - 1, run.0, run.1)
    }
}

proof fn lemma_pinned_step_of(
    chunks: Seq<Ds4FlashTp4HostPartialChunk<'_>>,
    arena: Ds4FlashTp4CoordinatorReductionArena,
    shared_delta: Ds41rtDeviceBuffer,
    m: int,
    i: int,
    place: int,
) -> (found: (int, int, int))
    requires
        0 <= i < m <= chunks.len(),
        0 <= place < chunks[i].global_row_indices@.len(),
    ensures
        0 <= found.0 < pinned_steps(
            chunks,
            arena.buffers_with(shared_delta),
            arena.hidden_size * 2,
            m,
        ).len(),
        is_run(chunks[i].global_row_indices@, found.1, found.2),
        found.1 <= place < found.2,
        pinned_steps(chunks, arena.buffers_with(shared_delta), arena.hidden_size * 2, m)[found.0]
            == run_of_chunk(chunks, arena, i, found.1, found.2),
    decreases m,
{
    let b = arena.buffers_with(shared_delta);
    let row_bytes = arena.hidden_size * 2;
    let front = pinned_steps(chunks, b, row_bytes, m - 1);
    if i == m - 1 {
        let partial = b.rank_partials@[chunks[i].rank as int];
        let found = lemma_run_of(i, chunks[i], partial, row_bytes, 0, place);
        (front.len() as int + found.0, found.1, found.2)
    } else {
        lemma_pinned_step_of(chunks, arena, shared_delta, m - 1, i, place)
    }
}

/// An offset inside a row lies in a copy of rows exactly if the row does.
proof fn lemma_offset_row(row: int, within: int, first: int, count: int, row_bytes: int)
    by (nonlinear_arith)
    requires
        0 <= within < row_bytes,
    ensures
        first * row_bytes <= row * row_bytes + within < first * row_bytes + count * row_bytes <==> first
            <= row < first + count,
        (row - first) * row_bytes == row * row_bytes - first * row_bytes,
{
    if row < first {
        assert((row + 1) * row_bytes <= first * row_bytes);
        assert((row + 1) * row_bytes == row * row_bytes + row_bytes);
    } else if row >= first + count {
        assert((first + count) * row_bytes <= row * row_bytes);
        assert((first + count) * row_bytes == first * row_bytes + count * row_bytes);
    } else {
        assert(first * row_bytes <= row * row_bytes);
        assert((row + 1) * row_bytes <= (first + count) * row_bytes);
        assert((row + 1) * row_bytes == row * row_bytes + row_bytes);
        assert((first + count) * row_bytes == first * row_bytes + count * row_bytes);
    }
    assert((row - first) * row_bytes == row * row_bytes - first * row_bytes);
}

/// The offsets of a run of a staged chunk can be counted.
proof fn lemma_run_offsets(
    arena: Ds4FlashTp4CoordinatorReductionArena,
    rows: int,
    chunks: Seq<Ds4FlashTp4HostPartialChunk<'_>>,
    shared_delta: Ds41rtDeviceBuffer,
    i: int,
    start: int,
    end: int,
)
    requires
        arena.chunks_stageable(rows, chunks, shared_delta),
        0 <= i < chunks.len(),
        is_run(chunks[i].global_row_indices@, start, end),
    ensures
        ({
            let row_bytes = arena.hidden_size * 2;
            let first = chunks[i].global_row_indices@[start] as int;
            let partial = arena.rank_partials@[chunks[i].rank as int];
            &&& 0 < row_bytes
            &&& chunks[i].rank < DS4_FLASH_TP
            &&& 0 <= start * row_bytes <= usize::MAX
            &&& 0 <= first * row_bytes
            &&& 0 <= (end - start) * row_bytes <= usize::MAX
            &&& first * row_bytes + (end - start) * row_bytes <= rows * row_bytes
            &&& rows * row_bytes <= usize::MAX
            &&& partial.ptr + rows * row_bytes <= usize::MAX
            &&& first + (end - start) <= rows
        }),
{
    let row_bytes = arena.hidden_size * 2;
    let chunk = chunks[i];
    let count = chunk.global_row_indices@.len() as int;
    let first = chunk.global_row_indices@[start] as int;
    assert(chunk_header_ok(chunks[i], row_bytes));
    let payload_bytes = chunk.payload_bf16.len();
    lemma_row_fits(start, end - start, count, row_bytes);
    lemma_chunk_rows_in_range(chunks, rows, i, end - 1);
    assert(chunk.global_row_indices@[end - 1] == first + (end - 1 - start));
    lemma_row_fits(first, end - start, rows, row_bytes);
    lemma_rank_partial_holds(
        rows,
        arena.hidden_size as int,
        arena.buffers_with(shared_delta),
        chunk.rank as int,
    );
}

/// The images of two ranks do not meet.
proof fn lemma_images_apart(
    arena: Ds4FlashTp4CoordinatorReductionArena,
    rows: int,
    chunks: Seq<Ds4FlashTp4HostPartialChunk<'_>>,
    shared_delta: Ds41rtDeviceBuffer,
    left: int,
    right: int,
    address: int,
)
    requires
        arena.chunks_stageable(rows, chunks, shared_delta),
        0 <= left < DS4_FLASH_TP,
        0 <= right < DS4_FLASH_TP,
        arena.rank_partials@[left].covers_address(rows * (arena.hidden_size * 2), address),
        arena.rank_partials@[right].covers_address(rows * (arena.hidden_size * 2), address),
    ensures
        left == right,
{
    let b = arena.buffers_with(shared_delta);
    let values = rows * arena.hidden_size;
    assert(rows * (arena.hidden_size * 2) == values * 2) by (nonlinear_arith)
        requires
            values == rows * arena.hidden_size,
    ;
    if left < right {
        assert(reduction_pair_disjoint(b, values, left + 1, right + 1));
        assert(reduction_buffer(b, left + 1) == b.rank_partials@[left]);
        assert(reduction_buffer(b, right + 1) == b.rank_partials@[right]);
    } else if right < left {
        assert(reduction_pair_disjoint(b, values, right + 1, left + 1));
        assert(reduction_buffer(b, left + 1) == b.rank_partials@[left]);
        assert(reduction_buffer(b, right + 1) == b.rank_partials@[right]);
    }
}

proof fn lemma_host_image(
    arena: Ds4FlashTp4CoordinatorReductionArena,
    rows: int,
    chunks: Seq<Ds4FlashTp4HostPartialChunk<'_>>,
    shared_delta: Ds41rtDeviceBuffer,
    steps: Seq<StageStep>,
    n: int,
    i: int,
    p: int,
    rank: int,
    row: int,
    within: int,
)
    requires
        arena.chunks_stageable(rows, chunks, shared_delta),
        chunks.len() <= usize::MAX,
        !all_pinned(chunks),
        steps == arena.chunk_stage_steps(rows, chunks, shared_delta),
        host_row_steps(chunks, arena.hidden_size * 2, chunks.len() as int).len() <= n
            <= steps.len(),
        carries(chunks, i, p, rank, row),
        0 <= within < arena.hidden_size * 2,
    ensures
        host_byte(steps, chunks, rank, row * (arena.hidden_size * 2) + within, n) == Some(
            chunks[i].payload_bf16@[p * (arena.hidden_size * 2) + within],
        ),
{
    let row_bytes = arena.hidden_size * 2;
    let m = chunks.len() as int;
    let front = host_row_steps(chunks, row_bytes, m);
    let offset = row * row_bytes + within;
    let value = chunks[i].payload_bf16@[p * row_bytes + within];
    let k = lemma_host_step_of(chunks, row_bytes, m, i, p);
    assert(steps[k] == front[k]);
    lemma_run_offsets(arena, rows, chunks, shared_delta, i, p, p + 1);
    lemma_offset_row(row, within, row, 1, row_bytes);
    assert forall|j: int|
        0 <= j < n && host_covers(#[trigger] steps[j], rank, offset) implies host_value(
        steps[j],
        chunks,
        offset,
    ) == value by {
        if j < front.len() {
            assert(steps[j] == front[j]);
            let (c, q) = lemma_host_step_at(chunks, row_bytes, m, j);
            let other = chunks[c].global_row_indices@[q] as int;
            lemma_run_offsets(arena, rows, chunks, shared_delta, c, q, q + 1);
            lemma_offset_row(row, within, other, 1, row_bytes);
            assert(carries(chunks, c, q, rank, row));
            lemma_place_unique(
                chunks,
                rows,
                arena.hidden_size as int,
                i,
                p,
                c,
                q,
                rank,
                row,
            );
        } else {
            assert(steps[j] is RankImage);
        }
    }
    lemma_host_byte_known(steps, chunks, rank, offset, n, k, value);
}

/// Staging puts every row of every chunk in its place: once all copies are
/// done, the image of a rank holds at every byte of a row the byte of the one
/// place that carries this row of this rank, whether the chunks were copied
/// directly from pinned memory or row by row through a host image.
pub proof fn law_staged_rows_land_in_place(
    arena: Ds4FlashTp4CoordinatorReductionArena,
    rows: int,
    chunks: Seq<Ds4FlashTp4HostPartialChunk<'_>>,
    shared_delta: Ds41rtDeviceBuffer,
    i: int,
    p: int,
    rank: int,
    row: int,
    within: int,
)
    requires
        arena.chunks_stageable(rows, chunks, shared_delta),
        chunks.len() <= usize::MAX,
        carries(chunks, i, p, rank, row),
        0 <= within < arena.hidden_size * 2,
    ensures
        ({
            let row_bytes = arena.hidden_size * 2;
            let steps = arena.chunk_stage_steps(rows, chunks, shared_delta);
            device_byte(
                steps,
                chunks,
                arena.rank_partials@[rank].ptr + row * row_bytes + within,
                steps.len() as int,
            ) == Some(chunks[i].payload_bf16@[p * row_bytes + within])
        }),
{
    let row_bytes = arena.hidden_size * 2;
    let m = chunks.len() as int;
    let b = arena.buffers_with(shared_delta);
    let steps = arena.chunk_stage_steps(rows, chunks, shared_delta);
    let partial = arena.rank_partials@[rank];
    let address = partial.ptr + row * row_bytes + within;
    let value = chunks[i].payload_bf16@[p * row_bytes + within];
    lemma_run_offsets(arena, rows, chunks, shared_delta, i, p, p + 1);
    lemma_offset_row(row, within, row, 1, row_bytes);
    assert(partial.covers_address(rows * row_bytes, address));
    if all_pinned(chunks) {
        let (k, s, e) = lemma_pinned_step_of(chunks, arena, shared_delta, m, i, p);
        lemma_run_offsets(arena, rows, chunks, shared_delta, i, s, e);
        let first = chunks[i].global_row_indices@[s] as int;
        assert(chunks[i].global_row_indices@[p] == first + (p - s));
        lemma_offset_row(row, within, first, e - s, row_bytes);
        assert forall|j: int|
            0 <= j < steps.len() && device_covers(#[trigger] steps[j], address) implies device_value(
            steps,
            chunks,
            j,
            address,
        ) == Some(value) by {
            let (c, t, u) = lemma_pinned_step_at(chunks, arena, shared_delta, m, j);
            let other = chunks[c].global_row_indices@[t] as int;
            lemma_run_offsets(arena, rows, chunks, shared_delta, c, t, u);
            let image = arena.rank_partials@[chunks[c].rank as int];
            assert(image.covers_address(rows * row_bytes, address));
            lemma_images_apart(
                arena,
                rows,
                chunks,
                shared_delta,
                rank,
                chunks[c].rank as int,
                address,
            );
            lemma_offset_row(row, within, other, u - t, row_bytes);
            let q = t + (row - other);
            assert(chunks[c].global_row_indices@[q] == other + (q - t));
            assert(carries(chunks, c, q, rank, row));
            lemma_place_unique(
                chunks,
                rows,
                arena.hidden_size as int,
                i,
                p,
                c,
                q,
                rank,
                row,
            );
            lemma_offset_row(p, within, t, 1, row_bytes);
        }
        lemma_device_byte_known(steps, chunks, address, steps.len() as int, k, value);
    } else {
        let front = host_row_steps(chunks, row_bytes, m);
        let images = rank_image_steps(b, (rows * row_bytes) as usize, DS4_FLASH_TP as int);
        let k = front.len() as int + rank;
        assert(steps[k] == images[rank]);
        assert forall|j: int|
            0 <= j < steps.len() && device_covers(#[trigger] steps[j], address) implies device_value(
            steps,
            chunks,
            j,
            address,
        ) == Some(value) by {
            if j < front.len() {
                assert(steps[j] == front[j]);
                let (c, q) = lemma_host_step_at(chunks, row_bytes, m, j);
                assert(steps[j] is HostRow);
            } else {
                let other = j - front.len();
                assert(steps[j] == images[other]);
                lemma_images_apart(arena, rows, chunks, shared_delta, rank, other, address);
                lemma_host_image(
                    arena,
                    rows,
                    chunks,
                    shared_delta,
                    steps,
                    j,
                    i,
                    p,
                    rank,
                    row,
                    within,
                );
            }
        }
        lemma_device_byte_known(steps, chunks, address, steps.len() as int, k, value);
    }
}

/// The chunks carry the same bytes for every row of every rank, however they
/// are split, ordered or pinned.
pub open spec fn same_rows(
    left: Seq<Ds4FlashTp4HostPartialChunk<'_>>,
    right: Seq<Ds4FlashTp4HostPartialChunk<'_>>,
    row_bytes: int,
) -> bool {
    forall|i: int, p: int, j: int, q: int, rank: int, row: int, within: int|
        #![trigger carries(left, i, p, rank, row), carries(right, j, q, rank, row),
            left[i].payload_bf16@[p * row_bytes + within]]
        carries(left, i, p, rank, row) && carries(right, j, q, rank, row) && 0 <= within
            < row_bytes ==> left[i].payload_bf16@[p * row_bytes + within]
            == right[j].payload_bf16@[q * row_bytes + within]
}

/// What the device holds after staging depends on the bytes of the rows alone:
/// two lists of chunks with the same rows leave the same byte everywhere in the
/// image of every rank, in whatever order and pieces the rows came, and whether
/// or not they were pinned.
pub proof fn law_staging_ignores_order_and_pieces(
    arena: Ds4FlashTp4CoordinatorReductionArena,
    rows: int,
    left: Seq<Ds4FlashTp4HostPartialChunk<'_>>,
    right: Seq<Ds4FlashTp4HostPartialChunk<'_>>,
    shared_delta: Ds41rtDeviceBuffer,
    rank: usize,
    row: usize,
    within: int,
)
    requires
        arena.chunks_stageable(rows, left, shared_delta),
        arena.chunks_stageable(rows, right, shared_delta),
        left.len() <= usize::MAX,
        right.len() <= usize::MAX,
        same_rows(left, right, arena.hidden_size * 2),
        rank < DS4_FLASH_TP,
        row < rows,
        0 <= within < arena.hidden_size * 2,
    ensures
        ({
            let address = arena.rank_partials@[rank as int].ptr + row * (arena.hidden_size * 2)
                + within;
            let from_left = arena.chunk_stage_steps(rows, left, shared_delta);
            let from_right = arena.chunk_stage_steps(rows, right, shared_delta);
            let byte = device_byte(from_left, left, address, from_left.len() as int);
            &&& byte is Some
            &&& byte == device_byte(from_right, right, address, from_right.len() as int)
        }),
{
    let row_bytes = arena.hidden_size * 2;
    let hidden = arena.hidden_size as int;
    let (i, p) = law_every_row_is_carried(left, rows, hidden, rank, row);
    let (j, q) = law_every_row_is_carried(right, rows, hidden, rank, row);
    law_staged_rows_land_in_place(
        arena,
        rows,
        left,
        shared_delta,
        i,
        p,
        rank as int,
        row as int,
        within,
    );
    law_staged_rows_land_in_place(
        arena,
        rows,
        right,
        shared_delta,
        j,
        q,
        rank as int,
        row as int,
        within,
    );
    let byte = left[i].payload_bf16@[p * row_bytes + within];
    assert(carries(left, i, p, rank as int, row as int));
}

} // verus!
