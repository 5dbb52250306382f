//! How requests advance: chunk by chunk through the entry, through the joint
//! buffers of a dispatch, and out of the terminal head.
use vstd::prelude::*;

use crate::device::Ds41rtDeviceBuffer;
use crate::dspark::chunks::captured;
use crate::dspark::entry::{
    bucket_place, chunk_start, chunk_sum, entry_chunk_error, entry_chunk_ok, entry_chunks,
    entry_graph_rows, entry_run_ok, law_chunk_graphs_have_its_rows, law_entry_chunks_cover_all_rows,
    next_chunk, tap_copy, EntryChunk, EntryRequest, EntryRun, TargetTap,
};
use crate::dspark::graphs::{all_block_rows, BlockRows};
use crate::dspark::joint::{joint_range, joint_stage, pre_dispatch_error, pre_dispatch_views_of};
use crate::dspark::pages::{kv_page_view, lemma_page_view, loaded, request_copies, snapshotted};
use crate::dspark::plan::{proposal_views, terminal_views, DsparkVariant, DSPARK_BLOCKS};
use crate::dspark::run::joint_load;
use crate::dspark::storage::{entry_views_of, DeepseekV4DsparkDeviceStorage};
use crate::dspark::terminal::{
    batch_ok, batch_output_ok, padded, DeepseekV4DsparkTerminalBatchOutput, TerminalBatch,
};

verus! {

/// The chunks of a run follow each other: the first starts at the first row and
/// position of the request, every other where the one before it ends, in the rows
/// of the taps as in the positions of the sequence, and where nothing is refused
/// the last ends at the end of the request.
pub proof fn law_entry_chunks_follow_each_other(
    run: EntryRun,
    storage: DeepseekV4DsparkDeviceStorage,
    taps: [TargetTap; 3],
    request: EntryRequest,
    k: int,
)
    requires
        storage.wf(),
        entry_run_ok(run, storage, taps, request),
        request.target_row_start + request.committed_rows <= usize::MAX,
        0 <= k < run.chunks@.len(),
    ensures
        ({
            let chunks = run.chunks@;
            let chunk = chunks[k];
            let metadata = chunk.metadata;
            &&& 1 <= chunk.rows <= storage.plan.max_main_rows
            &&& k == 0 ==> chunk.source_row_start == request.target_row_start
                && metadata.absolute_position_start == request.absolute_context_start
            &&& k + 1 < chunks.len() ==> chunks[k + 1].source_row_start == chunk.source_row_start
                + chunk.rows && chunks[k + 1].metadata.absolute_position_start
                == metadata.absolute_position_start + chunk.rows
            &&& k + 1 == chunks.len() && run.refusal is None ==> chunk.source_row_start
                + chunk.rows == request.target_row_start + request.committed_rows
            &&& metadata.rows == chunk.rows
            &&& metadata.request_slot == request.request_slot
            &&& metadata.rope_theta_bits == request.rope_theta_bits
        }),
{
    let limit = storage.plan.max_main_rows as int;
    let all = entry_chunks(request.committed_rows as int, limit);
    let chunk = run.chunks@[k];
    lemma_chunk_facts(request.committed_rows as int, limit, k);
    assert(entry_chunk_ok(chunk, storage, taps, request, chunk_start(storage, request, k)));
    assert(entry_chunk_error(storage, taps, request, chunk_start(storage, request, k)) is None);
    assert(chunk_sum(all, k + 1) == chunk_sum(all, k) + all[k]);
    if k + 1 < run.chunks@.len() {
        let next = run.chunks@[k + 1];
        assert(entry_chunk_ok(next, storage, taps, request, chunk_start(storage, request, k + 1)));
        assert(entry_chunk_error(
            storage,
            taps,
            request,
            chunk_start(storage, request, k + 1),
        ) is None);
    }
    law_entry_chunks_cover_all_rows(request.committed_rows as int, limit);
}

proof fn lemma_chunk_facts(remaining: int, limit: int, k: int)
    requires
        remaining >= 0,
        limit > 0,
        0 <= k < entry_chunks(remaining, limit).len(),
    ensures
        ({
            let all = entry_chunks(remaining, limit);
            &&& 0 <= chunk_sum(all, k)
            &&& chunk_sum(all, k) + all[k] <= remaining
            &&& all[k] == next_chunk(remaining - chunk_sum(all, k), limit)
            &&& 1 <= all[k] <= limit
        }),
    decreases remaining,
{
    let all = entry_chunks(remaining, limit);
    let first = next_chunk(remaining, limit);
    let rest = entry_chunks(remaining - first, limit);
    assert(all == seq![first] + rest);
    assert(1 <= first <= limit && first <= remaining);
    if k > 0 {
        lemma_chunk_facts(remaining - first, limit, k - 1);
        lemma_sum_shift(first, rest, k - 1);
        assert(all[k] == rest[k - 1]);
    } else {
        assert(chunk_sum(all, 0) == 0);
    }
}

proof fn lemma_sum_shift(first: int, rest: Seq<int>, n: int)
    requires
        0 <= n <= rest.len(),
    ensures
        chunk_sum(seq![first] + rest, n + 1) == first + chunk_sum(rest, n),
    decreases n,
{
    let all = seq![first] + rest;
    if n > 0 {
        lemma_sum_shift(first, rest, n - 1);
        assert(all[n] == rest[n - 1]);
    } else {
        assert(chunk_sum(all, 0) == 0);
        assert(all[0] == first);
    }
}

/// A chunk runs through the graphs that were captured for its rows: its entry
/// graph, and the prompt graph of every block.
pub proof fn law_chunk_runs_the_graphs_of_its_rows(
    run: EntryRun,
    storage: DeepseekV4DsparkDeviceStorage,
    taps: [TargetTap; 3],
    request: EntryRequest,
    k: int,
    block: int,
)
    requires
        storage.wf(),
        entry_run_ok(run, storage, taps, request),
        0 <= k < run.chunks@.len(),
        0 <= block < 3,
    ensures
        ({
            let chunk = run.chunks@[k];
            &&& chunk.entry_graph < entry_graph_rows().len()
            &&& entry_graph_rows()[chunk.entry_graph as int] == chunk.rows
            &&& chunk.prompt_graphs@.len() == 3
            &&& all_block_rows()[chunk.prompt_graphs@[block] as int] == (BlockRows {
                block_index: block as usize,
                rows: chunk.rows,
            })
            &&& chunk.projected_target_main.bytes == chunk.rows * storage.plan.hidden * 2
        }),
{
    let limit = storage.plan.max_main_rows as int;
    let chunk = run.chunks@[k];
    let start = chunk_start(storage, request, k);
    lemma_chunk_facts(request.committed_rows as int, limit, k);
    assert(entry_chunk_ok(chunk, storage, taps, request, start));
    let remaining = request.committed_rows - start;
    let bound = if remaining < limit {
        remaining
    } else {
        limit
    };
    law_chunk_graphs_have_its_rows(bound);
    assert(block == 0 || block == 1 || block == 2);
    let place = bucket_place(chunk.rows as int);
    assert(all_block_rows()[9 * block + place] == (BlockRows {
        block_index: block as usize,
        rows: chunk.rows,
    }));
    let row_bytes = 2 * storage.plan.hidden;
    assert(chunk.rows * row_bytes == chunk.rows * storage.plan.hidden * 2) by (nonlinear_arith)
        requires
            row_bytes == 2 * storage.plan.hidden,
    ;
    assert(0 <= chunk.rows * row_bytes <= limit * row_bytes) by (nonlinear_arith)
        requires
            0 <= chunk.rows <= limit,
            row_bytes >= 0,
    ;
    match storage.plan.variant {
        DsparkVariant::Flash => {
            assert(limit * row_bytes == limit * 8_192) by (nonlinear_arith)
                requires
                    row_bytes == 8_192,
            ;
        },
        DsparkVariant::Pro => {
            assert(limit * row_bytes == limit * 14_336) by (nonlinear_arith)
                requires
                    row_bytes == 14_336,
            ;
        },
    }
}

/// The copies of a chunk lay the three taps side by side: row `r` of what is
/// gathered holds, one behind the other, row `r` of the chunk from every tap.
pub proof fn law_taps_are_gathered_side_by_side(
    chunk: EntryChunk,
    storage: DeepseekV4DsparkDeviceStorage,
    taps: [TargetTap; 3],
    request: EntryRequest,
    consumed: int,
    t: int,
    r: int,
    i: int,
)
    requires
        storage.wf(),
        consumed >= 0,
        entry_chunk_ok(chunk, storage, taps, request, consumed),
        entry_chunk_error(storage, taps, request, consumed) is None,
        0 <= t < 3,
        0 <= r < chunk.rows,
        0 <= i < 2 * storage.plan.hidden,
    ensures
        ({
            let copy = chunk.copies@[t];
            let row_bytes = 2 * storage.plan.hidden;
            let concat = entry_views_of(storage).target_tap_concat;
            &&& chunk.copies@.len() == 3
            &&& copy.rows == chunk.rows
            &&& copy.row_bytes == row_bytes
            &&& copy.destination.ptr + r * copy.destination_pitch + i == concat.ptr + (3 * r + t)
                * row_bytes + i
            &&& copy.source.ptr + r * copy.source_pitch + i == taps@[t].buffer.ptr + (
            chunk.source_row_start + r) * row_bytes + i
            &&& copy.destination.device_id == concat.device_id
            &&& copy.source.device_id == taps@[t].buffer.device_id
        }),
{
    let copy = chunk.copies@[t];
    let row_bytes = 2 * storage.plan.hidden;
    let concat = entry_views_of(storage).target_tap_concat;
    let row = request.target_row_start + consumed;
    assert(copy == tap_copy(storage, taps, t, row, chunk.rows as int));
    assert(0 <= t * row_bytes <= 2 * row_bytes) by (nonlinear_arith)
        requires
            0 <= t <= 2,
            row_bytes >= 0,
    ;
    assert(r * (3 * row_bytes) + t * row_bytes == (3 * r + t) * row_bytes) by (nonlinear_arith);
    assert(row * row_bytes + r * row_bytes == (row + r) * row_bytes) by (nonlinear_arith);
    assert(0 <= row * row_bytes) by (nonlinear_arith)
        requires
            0 <= row,
            row_bytes >= 0,
    ;
    lemma_concat_address(storage);
}

proof fn lemma_concat_address(storage: DeepseekV4DsparkDeviceStorage)
    requires
        storage.wf(),
    ensures
        ({
            let concat = entry_views_of(storage).target_tap_concat;
            concat.ptr + 4 * storage.plan.hidden <= usize::MAX
        }),
{
    let limit = storage.plan.max_main_rows as int;
    assert(limit * 8_192 >= 8_192 && limit * 14_336 >= 14_336) by (nonlinear_arith)
        requires
            limit >= 1,
    ;
}

/// What is staged for an active request is its part of what a joint dispatch
/// reads, and what the dispatch reduces for it is what is handed back to it: in a
/// range of requests each has the share of its place in the range.
pub proof fn law_joint_dispatch_returns_to_its_requests(
    storage: DeepseekV4DsparkDeviceStorage,
    start: int,
    end: int,
    index: int,
    slot: usize,
    shared_delta: Ds41rtDeviceBuffer,
)
    requires
        storage.wf(),
        0 <= start <= index < end <= storage.plan.max_batch,
        pre_dispatch_error(storage, slot) is None,
    ensures
        ({
            let (shared, reduced) = joint_range(storage, start, end);
            let stage = joint_stage(storage, index, shared_delta);
            let load = joint_load(storage, index, slot as int);
            let unit = stage.bytes as int;
            &&& unit == 5 * storage.plan.hidden * 2
            &&& shared.bytes == (end - start) * unit
            &&& reduced.bytes == (end - start) * unit
            &&& stage.source == shared_delta
            &&& stage.destination.ptr == shared.ptr + (index - start) * unit
            &&& stage.destination.bytes == unit
            &&& load.source.ptr == reduced.ptr + (index - start) * unit
            &&& load.source.bytes == unit
            &&& load.bytes == unit
            &&& load.destination == pre_dispatch_views_of(storage, slot as int).ffn_delta
            &&& load.destination.bytes == unit
        }),
{
    let unit = 10 * storage.plan.hidden;
    let batch = storage.plan.max_batch as int;
    let views = proposal_views(storage.plan.proposal);
    let terminals = terminal_views(storage.plan.terminal);
    assert(views[4] == storage.plan.proposal.normalized_hidden);
    assert(terminals[0] == storage.plan.terminal.compact_normalized_hidden);
    match storage.plan.variant {
        DsparkVariant::Flash => {
            assert(batch * unit == batch * 40_960) by (nonlinear_arith)
                requires
                    unit == 40_960,
            ;
        },
        DsparkVariant::Pro => {
            assert(batch * unit == batch * 71_680) by (nonlinear_arith)
                requires
                    unit == 71_680,
            ;
        },
    }
    assert(start * unit + (index - start) * unit == index * unit) by (nonlinear_arith);
    assert(0 <= start * unit && 0 <= index * unit && index * unit + unit <= batch * unit && 0 <= (
    end - start) * unit && start * unit + (end - start) * unit <= batch * unit)
        by (nonlinear_arith)
        requires
            0 <= start <= index,
            index + 1 <= end,
            end <= batch,
            unit >= 0,
    ;
}

/// A snapshot holds the pages of a request block by block, each as the device
/// holds it.
pub proof fn law_snapshot_holds_the_blocks_in_order(
    storage: DeepseekV4DsparkDeviceStorage,
    memory: spec_fn(int) -> u8,
    slot: int,
    block: int,
    i: int,
)
    requires
        storage.wf(),
        0 <= slot < storage.plan.max_batch,
        0 <= block < DSPARK_BLOCKS,
        0 <= i < storage.plan.packed_page_bytes,
    ensures
        ({
            let snapshot = snapshotted(memory, request_copies(storage, slot), 3);
            let page = storage.plan.packed_page_bytes as int;
            &&& snapshot.len() == 3 * page
            &&& snapshot[block * page + i] == memory(kv_page_view(storage, block, slot).ptr + i)
            &&& request_copies(storage, slot)[block].page == kv_page_view(storage, block, slot)
            &&& request_copies(storage, slot)[block].host_offset == block * page
        }),
{
    let copies = request_copies(storage, slot);
    let page = storage.plan.packed_page_bytes as int;
    lemma_page_view(storage, 0, slot);
    lemma_page_view(storage, 1, slot);
    lemma_page_view(storage, 2, slot);
    reveal_with_fuel(snapshotted, 4);
    let first = loaded(memory, copies[0].page.ptr as int, page);
    let second = loaded(memory, copies[1].page.ptr as int, page);
    let third = loaded(memory, copies[2].page.ptr as int, page);
    assert(snapshotted(memory, copies, 3) =~= first + second + third);
    assert(block == 0 || block == 1 || block == 2);
    assert(0 * page == 0 && 1 * page == page && 2 * page == page + page);
}

/// A batch is what it was asked for, padded with its first request: its requests
/// stand in order at its front, and whatever follows them runs the first request
/// once more.
pub proof fn law_padding_repeats_the_first_request(
    batch: TerminalBatch,
    slots: Seq<usize>,
    anchors: Seq<usize>,
    buckets: Seq<usize>,
    r: int,
)
    requires
        slots.len() > 0,
        slots.len() == anchors.len(),
        batch_ok(batch, slots, anchors, buckets),
        0 <= r < batch.request_bucket,
    ensures
        batch.active_slots@.len() == batch.request_bucket,
        batch.anchors@.len() == batch.request_bucket,
        batch.request_bucket >= slots.len(),
        buckets[batch.graph_index as int] == batch.request_bucket,
        r < slots.len() ==> batch.active_slots@[r] == slots[r] && batch.anchors@[r] == anchors[r],
        r >= slots.len() ==> batch.active_slots@[r] == batch.active_slots@[0] && batch.anchors@[r]
            == batch.anchors@[0],
        forall|k: int|
            0 <= k < batch.graph_index ==> #[trigger] buckets[k] < slots.len(),
{
    assert(batch.active_slots@[0] == slots[0]);
    assert(batch.anchors@[0] == anchors[0]);
    assert(batch.active_slots@[r] == padded(slots, r));
    assert(batch.anchors@[r] == padded(anchors, r));
}

/// What is read of a batch belongs to its requests: where the device wrote, for
/// every request of the bucket, its anchor and behind it its drafts one after the
/// other, the output lists for every active request its drafts in order, without
/// the anchor, and with every draft the confidence in it.
pub proof fn law_batch_output_belongs_to_its_requests(
    output: DeepseekV4DsparkTerminalBatchOutput,
    active_requests: usize,
    request_bucket: usize,
    output_tokens: Seq<u32>,
    confidence_bits: Seq<u32>,
    written: spec_fn(int, int) -> u32,
    confidence: spec_fn(int, int) -> u32,
    request: int,
    draft: int,
)
    requires
        active_requests <= request_bucket,
        batch_output_ok(
            output,
            active_requests,
            request_bucket,
            output_tokens,
            confidence_bits,
        ),
        // Position zero is the anchor, positions one to five are the drafts.
        forall|q: int, position: int|
            0 <= q < request_bucket && 0 <= position < 6 ==> output_tokens[position
                * request_bucket + q] == #[trigger] written(q, position),
        forall|q: int, d: int|
            0 <= q < request_bucket && 0 <= d < 5 ==> confidence_bits[d * request_bucket + q]
                == #[trigger] confidence(q, d),
        0 <= request < active_requests,
        0 <= draft < 5,
    ensures
        output.active_requests == active_requests,
        output.proposal_token_ids@.len() == active_requests * 5,
        output.conditional_confidence_bits@.len() == active_requests * 5,
        output.proposal_token_ids@[5 * request + draft] == written(request, draft + 1),
        output.conditional_confidence_bits@[5 * request + draft] == confidence(request, draft),
{
    let i = 5 * request + draft;
    assert(i % 5 == draft && i / 5 == request);
    assert(0 <= i < active_requests * 5);
    assert(written(request, draft + 1) == output_tokens[(draft + 1) * request_bucket + request]);
    assert(confidence(request, draft) == confidence_bits[draft * request_bucket + request]);
}

} // verus!
