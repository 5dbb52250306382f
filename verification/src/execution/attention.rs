//! How many attention launches, rows and values a complete execution shows.
use vstd::prelude::*;

use crate::execution::chunks::total;
use crate::execution::shape::{
    scheduler_prefill_chunk_count, scheduler_prefill_chunk_token_counts,
    RealFullSchedulerExecutionShape,
};

verus! {

/// What an execution counted. The checksum is the bit pattern of a 64-bit
/// floating-point value.
#[derive(Clone, Debug, Default)]
pub struct RealFullSchedulerExecutionCounters {
    pub iterations: usize,
    pub candidate_layerwaves: usize,
    pub selected_layerwaves: usize,
    pub deferred_layerwaves: usize,
    pub selected_decode_rows: usize,
    pub selected_prefill_rows: usize,
    pub selected_mtp_rows: usize,
    pub sparse_expert_batches: usize,
    pub sparse_expert_batch_rows: usize,
    pub sparse_expert_batch_routes: usize,
    pub sparse_expert_prefill_rows: usize,
    pub sparse_expert_decode_rows: usize,
    pub sparse_expert_mtp_verify_rows: usize,
    pub sparse_expert_prefill_routes: usize,
    pub sparse_expert_decode_routes: usize,
    pub sparse_expert_mtp_verify_routes: usize,
    pub sparse_expert_host_batch_sets: usize,
    pub sparse_expert_host_batches: usize,
    pub sparse_expert_host_batch_rows: usize,
    pub sparse_expert_host_batch_routes: usize,
    pub sparse_expert_host_batch_expert_tiles: usize,
    pub sparse_expert_host_batch_routes_match_global: bool,
    pub sparse_expert_host_batch_graph_counts_valid: bool,
    pub sparse_expert_host_request_frames: usize,
    pub sparse_expert_host_request_rows: usize,
    pub sparse_expert_host_request_routes: usize,
    pub sparse_expert_host_request_payload_bytes: usize,
    pub sparse_expert_host_request_wire_bytes: usize,
    pub sparse_expert_host_response_frames: usize,
    pub sparse_expert_host_response_rows: usize,
    pub sparse_expert_host_response_payload_bytes: usize,
    pub sparse_expert_host_response_wire_bytes: usize,
    pub sparse_expert_host_wire_envelopes_valid: bool,
    pub kv_read_blocks: usize,
    pub committed_kv_writes: usize,
    pub tentative_kv_writes: usize,
    pub projected_device_kv_writes: usize,
    pub projected_device_kv_write_bytes: usize,
    pub synthetic_kv_payload_writes: usize,
    pub device_attention_status: Option<&'static str>,
    pub device_attention_launches: usize,
    pub device_attention_rows: usize,
    pub device_attention_query_rows: usize,
    pub device_attention_kv_descriptors: usize,
    pub device_attention_output_bytes: usize,
    pub device_attention_output_values: usize,
    pub device_attention_output_finite_values: usize,
    pub device_attention_output_nonzero_values: usize,
    pub device_attention_output_checksum_bits: u64,
    pub device_attention_hidden_projection_launches: usize,
    pub layer_order_verified: bool,
}

/// The fewest launches of one layer: one per prefill chunk, decode row and
/// verify block, one less where the decode row joins the verify block.
pub open spec fn layer_launches_min(
    shape: RealFullSchedulerExecutionShape,
    fusion_max_rows: int,
) -> int {
    let batched = shape.counts().len() + shape.decode_rows + (if shape.mtp_rows > 0 {
        1int
    } else {
        0int
    });
    if shape.decode_rows == 1 && shape.mtp_rows > 0 && shape.terminal_rows() <= fusion_max_rows {
        batched - 1
    } else {
        batched
    }
}

/// The most launches of one layer: one per prefill chunk, decode row and
/// verify row.
pub open spec fn layer_launches_max(shape: RealFullSchedulerExecutionShape) -> int {
    shape.counts().len() + shape.decode_rows + shape.mtp_rows
}

/// The context rows of `n` single rows that follow a context of `base` rows:
/// each sees the rows before it and itself.
pub open spec fn single_row_context(base: int, n: int) -> int
    decreases n,
{
    if n <= 0 {
        0
    } else {
        single_row_context(base, n - 1) + base + n
    }
}

/// The context rows of the first `n` chunks after a prefix: each chunk sees
/// the prefix and all prefill rows up to its own end.
pub open spec fn chunk_context(prefix: int, counts: Seq<usize>, n: int) -> int
    decreases n,
{
    if n <= 0 {
        0
    } else {
        chunk_context(prefix, counts, n - 1) + prefix + total(counts.take(n))
    }
}

/// The context rows that one layer attends to.
pub open spec fn layer_context_rows(shape: RealFullSchedulerExecutionShape) -> int {
    chunk_context(shape.prefix_tokens as int, shape.counts(), shape.counts().len() as int)
        + single_row_context(
        shape.prefix_tokens + shape.prefill_tokens,
        shape.decode_rows as int,
    ) + single_row_context(
        shape.prefix_tokens + shape.prefill_tokens + shape.decode_rows,
        shape.mtp_rows as int,
    )
}

proof fn lemma_scaled_order(layers: int, low: int, high: int)
    by (nonlinear_arith)
    requires
        layers >= 0,
        0 <= low <= high,
    ensures
        0 <= layers * low <= layers * high,
{
}

/// The fewest and the most attention launches over `layer_count` layers.
/// `fusion_max_rows` is the most rows that one fused target launch takes.
pub fn scheduler_device_attention_launch_range_for_layers(
    shape: &RealFullSchedulerExecutionShape,
    layer_count: usize,
    fusion_max_rows: usize,
) -> (range: (usize, usize))
    requires
        layer_launches_max(*shape) <= usize::MAX,
        layer_count * layer_launches_max(*shape) <= usize::MAX,
    ensures
        range.0 == layer_count * layer_launches_min(*shape, fusion_max_rows as int),
        range.1 == layer_count * layer_launches_max(*shape),
        range.0 <= range.1,
{
    let prefill_chunks: usize = scheduler_prefill_chunk_count(shape);
    let verify_blocks: usize = if shape.mtp_rows > 0 {
        1
    } else {
        0
    };
    let batched: usize = prefill_chunks + shape.decode_rows + verify_blocks;
    let target_rows: usize = shape.decode_rows.saturating_add(shape.mtp_rows);
    let can_fuse_target: bool = shape.decode_rows == 1 && shape.mtp_rows > 0 && target_rows
        <= fusion_max_rows;
    let fewest: usize = if can_fuse_target {
        batched - 1
    } else {
        batched
    };
    let most: usize = prefill_chunks + shape.decode_rows + shape.mtp_rows;
    proof {
        lemma_scaled_order(layer_count as int, fewest as int, most as int);
    }
    (layer_count * fewest, layer_count * most)
}

proof fn lemma_single_row_context_monotone(base: int, k: int, n: int)
    requires
        base >= 0,
        0 <= k <= n,
    ensures
        0 <= single_row_context(base, k) <= single_row_context(base, n),
    decreases n,
{
    if k < n {
        lemma_single_row_context_monotone(base, k, n - 1);
    } else if n > 0 {
        lemma_single_row_context_monotone(base, n - 1, n - 1);
    }
}

proof fn lemma_total_nonnegative(counts: Seq<usize>)
    ensures
        total(counts) >= 0,
    decreases counts.len(),
{
    if counts.len() > 0 {
        lemma_total_nonnegative(counts.drop_first());
    }
}

proof fn lemma_total_take(counts: Seq<usize>, n: int)
    requires
        0 <= n < counts.len(),
    ensures
        total(counts.take(n + 1)) == total(counts.take(n)) + counts[n],
    decreases n,
{
    if n == 0 {
        assert(counts.take(1).drop_first() =~= Seq::<usize>::empty());
        assert(counts.take(0) =~= Seq::<usize>::empty());
        assert(total(Seq::<usize>::empty()) == 0);
    } else {
        let rest = counts.drop_first();
        lemma_total_take(rest, n - 1);
        assert(counts.take(n + 1).drop_first() =~= rest.take(n));
        assert(counts.take(n).drop_first() =~= rest.take(n - 1));
    }
}

proof fn lemma_chunk_context_monotone(prefix: int, counts: Seq<usize>, k: int, n: int)
    requires
        prefix >= 0,
        0 <= k <= n <= counts.len(),
    ensures
        0 <= chunk_context(prefix, counts, k) <= chunk_context(prefix, counts, n),
    decreases n,
{
    if n > 0 {
        lemma_total_nonnegative(counts.take(n));
        if k < n {
            lemma_chunk_context_monotone(prefix, counts, k, n - 1);
        } else {
            lemma_chunk_context_monotone(prefix, counts, n - 1, n - 1);
        }
    }
}

/// The most context rows that attention reads over `layer_count` layers.
pub fn scheduler_expected_device_attention_rows_for_layers(
    shape: &RealFullSchedulerExecutionShape,
    layer_count: usize,
) -> (rows: usize)
    requires
        layer_context_rows(*shape) <= usize::MAX,
        shape.prefix_tokens + shape.prefill_tokens + shape.decode_rows <= usize::MAX,
        layer_count * layer_context_rows(*shape) <= usize::MAX,
    ensures
        rows == layer_count * layer_context_rows(*shape),
{
    let counts: Vec<usize> = scheduler_prefill_chunk_token_counts(
        shape,
        shape.prefill_chunk_tokens,
    );
    let ghost chunk_rows = chunk_context(
        shape.prefix_tokens as int,
        counts@,
        counts@.len() as int,
    );
    let ghost decode_base = shape.prefix_tokens + shape.prefill_tokens;
    let ghost decode_context = single_row_context(decode_base, shape.decode_rows as int);
    let ghost verify_base = decode_base + shape.decode_rows;
    let ghost verify_context = single_row_context(verify_base, shape.mtp_rows as int);
    proof {
        lemma_single_row_context_monotone(decode_base, 0, shape.decode_rows as int);
        lemma_single_row_context_monotone(verify_base, 0, shape.mtp_rows as int);
        lemma_chunk_context_monotone(
            shape.prefix_tokens as int,
            counts@,
            0,
            counts@.len() as int,
        );
        assert(counts@.take(0) =~= Seq::<usize>::empty());
        assert(total(Seq::<usize>::empty()) == 0);
    }
    let mut rows_per_layer: usize = 0;
    let mut prefill_offset: usize = 0;
    let mut index: usize = 0;
    while index < counts.len()
        invariant
            index <= counts@.len(),
            chunk_rows == chunk_context(
                shape.prefix_tokens as int,
                counts@,
                counts@.len() as int,
            ),
            chunk_rows <= usize::MAX,
            prefill_offset == total(counts@.take(index as int)),
            rows_per_layer == chunk_context(shape.prefix_tokens as int, counts@, index as int),
        decreases counts@.len() - index,
    {
        proof {
            lemma_total_take(counts@, index as int);
            lemma_chunk_context_monotone(
                shape.prefix_tokens as int,
                counts@,
                index + 1,
                counts@.len() as int,
            );
            lemma_chunk_context_monotone(
                shape.prefix_tokens as int,
                counts@,
                index as int,
                index as int,
            );
        }
        prefill_offset = prefill_offset + counts[index];
        rows_per_layer = rows_per_layer + (shape.prefix_tokens + prefill_offset);
        index = index + 1;
    }
    let mut decode_offset: usize = 0;
    while decode_offset < shape.decode_rows
        invariant
            decode_offset <= shape.decode_rows,
            decode_base == shape.prefix_tokens + shape.prefill_tokens,
            decode_base <= usize::MAX,
            decode_context == single_row_context(decode_base, shape.decode_rows as int),
            chunk_rows >= 0,
            chunk_rows + decode_context <= usize::MAX,
            rows_per_layer == chunk_rows + single_row_context(decode_base, decode_offset as int),
        decreases shape.decode_rows - decode_offset,
    {
        proof {
            lemma_single_row_context_monotone(
                decode_base,
                decode_offset + 1,
                shape.decode_rows as int,
            );
            lemma_single_row_context_monotone(
                decode_base,
                decode_offset as int,
                decode_offset as int,
            );
        }
        rows_per_layer = rows_per_layer + (shape.prefix_tokens + shape.prefill_tokens
            + decode_offset + 1);
        decode_offset = decode_offset + 1;
    }
    let mtp_context_start: usize = shape.prefix_tokens + shape.prefill_tokens + shape.decode_rows;
    let mut mtp_offset: usize = 0;
    while mtp_offset < shape.mtp_rows
        invariant
            mtp_offset <= shape.mtp_rows,
            verify_base == mtp_context_start,
            verify_context == single_row_context(verify_base, shape.mtp_rows as int),
            chunk_rows + decode_context >= 0,
            chunk_rows + decode_context + verify_context <= usize::MAX,
            rows_per_layer == chunk_rows + decode_context + single_row_context(
                verify_base,
                mtp_offset as int,
            ),
        decreases shape.mtp_rows - mtp_offset,
    {
        proof {
            lemma_single_row_context_monotone(verify_base, mtp_offset + 1, shape.mtp_rows as int);
            lemma_single_row_context_monotone(verify_base, mtp_offset as int, mtp_offset as int);
        }
        rows_per_layer = rows_per_layer + (mtp_context_start + mtp_offset + 1);
        mtp_offset = mtp_offset + 1;
    }
    layer_count * rows_per_layer
}

/// The decode and verify rows attend to contiguous contexts, so counting them
/// apart or as one run of rows gives the same.
pub proof fn law_decode_and_verify_contexts_are_contiguous(base: int, decode: int, verify: int)
    requires
        decode >= 0,
        verify >= 0,
    ensures
        single_row_context(base, decode) + single_row_context(base + decode, verify)
            == single_row_context(base, decode + verify),
    decreases verify,
{
    if verify > 0 {
        law_decode_and_verify_contexts_are_contiguous(base, decode, verify - 1);
    }
}

/// All rows of a request that query the attention of one layer.
pub open spec fn layer_query_rows(shape: RealFullSchedulerExecutionShape) -> int {
    shape.prefill_tokens + shape.decode_rows + shape.mtp_rows
}

/// The counters show attention over the full context of every layer.
pub open spec fn attention_complete(
    shape: RealFullSchedulerExecutionShape,
    counters: RealFullSchedulerExecutionCounters,
    numeric_progression_passed: bool,
    uses_device_kv_cache: bool,
    layer_count: int,
    hidden_size: int,
    fusion_max_rows: int,
) -> bool {
    let query_rows = layer_count * layer_query_rows(shape);
    let context_rows = layer_count * layer_context_rows(shape);
    &&& numeric_progression_passed
    &&& counters.layer_order_verified
    &&& uses_device_kv_cache
    &&& layer_count * layer_launches_min(shape, fusion_max_rows)
        <= counters.device_attention_launches <= layer_count * layer_launches_max(shape)
    &&& counters.device_attention_hidden_projection_launches == counters.device_attention_launches
    &&& query_rows <= counters.device_attention_rows <= context_rows
    &&& counters.device_attention_query_rows == query_rows
    &&& counters.device_attention_launches <= counters.device_attention_kv_descriptors
        <= context_rows
    &&& counters.device_attention_output_values == query_rows * hidden_size
}

/// Whether the counters show attention over the full context of every layer.
pub fn scheduler_full_context_device_attention_complete_for_layers(
    shape: &RealFullSchedulerExecutionShape,
    counters: &RealFullSchedulerExecutionCounters,
    numeric_progression_passed: bool,
    uses_device_kv_cache: bool,
    layer_count: usize,
    hidden_size: usize,
    fusion_max_rows: usize,
) -> (complete: bool)
    requires
        layer_launches_max(*shape) <= usize::MAX,
        layer_count * layer_launches_max(*shape) <= usize::MAX,
        layer_context_rows(*shape) <= usize::MAX,
        layer_count * layer_context_rows(*shape) <= usize::MAX,
        shape.prefix_tokens + shape.prefill_tokens + shape.decode_rows <= usize::MAX,
        layer_query_rows(*shape) <= usize::MAX,
        layer_count * layer_query_rows(*shape) <= usize::MAX,
        layer_count * layer_query_rows(*shape) * hidden_size <= usize::MAX,
    ensures
        complete == attention_complete(
            *shape,
            *counters,
            numeric_progression_passed,
            uses_device_kv_cache,
            layer_count as int,
            hidden_size as int,
            fusion_max_rows as int,
        ),
{
    let (launch_min, launch_max) = scheduler_device_attention_launch_range_for_layers(
        shape,
        layer_count,
        fusion_max_rows,
    );
    let expected_rows: usize = scheduler_expected_device_attention_rows_for_layers(
        shape,
        layer_count,
    );
    let expected_query_rows: usize = layer_count * (shape.prefill_tokens + shape.decode_rows
        + shape.mtp_rows);
    let expected_output_values: usize = expected_query_rows * hidden_size;
    numeric_progression_passed && counters.layer_order_verified && uses_device_kv_cache
        && launch_min <= counters.device_attention_launches && counters.device_attention_launches
        <= launch_max && counters.device_attention_hidden_projection_launches
        == counters.device_attention_launches && counters.device_attention_rows
        >= expected_query_rows && counters.device_attention_rows <= expected_rows
        && counters.device_attention_query_rows == expected_query_rows
        && counters.device_attention_kv_descriptors >= counters.device_attention_launches
        && counters.device_attention_kv_descriptors <= expected_rows
        && counters.device_attention_output_values == expected_output_values
}

} // verus!
