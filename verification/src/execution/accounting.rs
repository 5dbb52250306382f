//! What the waves of a layer amount to: they cover the rows of a request in
//! order, and attention is accounted for by them.
use vstd::prelude::*;

use crate::execution::attention::{
    chunk_context, layer_context_rows, layer_launches_max, layer_launches_min, layer_query_rows,
    single_row_context,
};
use crate::execution::chunks::{
    law_prefill_chunks_cover_all_rows, lemma_total_append, prefill_counts, total,
};
use crate::execution::shape::RealFullSchedulerExecutionShape;
use crate::execution::waves::{
    decode_mtp_waves, iteration_count, iteration_ok, law_prefill_chunks_are_contiguous,
    planned_chunks, prefill_wave, LayerIteration, LayerWave, WaveMode,
};
use crate::model::ModelFacts;

verus! {

/// Where a wave ends: the position behind its last row.
pub open spec fn wave_end(wave: LayerWave) -> int {
    wave.token_start + wave.row_count
}

/// The waves hold rows and cover the positions `start..end` in order: each starts
/// where the one before it ends.
pub open spec fn covers(waves: Seq<LayerWave>, start: int, end: int) -> bool {
    &&& waves.len() == 0 ==> start == end
    &&& waves.len() > 0 ==> waves[0].token_start == start && wave_end(waves.last()) == end
    &&& forall|i: int| 0 <= i < waves.len() ==> (#[trigger] waves[i]).row_count > 0
    &&& forall|i: int|
        #![trigger waves[i]]
        0 < i < waves.len() ==> waves[i].token_start == wave_end(waves[i - 1])
}

/// The waves of the first `n` admissions, in the order in which they are
/// offered.
pub open spec fn offered(iterations: Seq<LayerIteration>, n: int) -> Seq<LayerWave>
    decreases n,
{
    if n <= 0 {
        Seq::empty()
    } else {
        offered(iterations, n - 1) + iterations[n - 1].waves@
    }
}

proof fn lemma_covers_join(
    left: Seq<LayerWave>,
    right: Seq<LayerWave>,
    start: int,
    middle: int,
    end: int,
)
    requires
        covers(left, start, middle),
        covers(right, middle, end),
    ensures
        covers(left + right, start, end),
{
    let all = left + right;
    assert forall|i: int| 0 <= i < all.len() implies (#[trigger] all[i]).row_count > 0 by {
        if i < left.len() {
            assert(all[i] == left[i]);
        } else {
            assert(all[i] == right[i - left.len()]);
        }
    }
    assert forall|i: int| #![trigger all[i]] 0 < i < all.len() implies all[i].token_start
        == wave_end(all[i - 1]) by {
        if i < left.len() {
            assert(all[i] == left[i]);
        } else {
            assert(all[i] == right[i - left.len()]);
        }
    }
    if right.len() > 0 {
        assert(all.last() == right.last());
    } else if left.len() > 0 {
        assert(all.last() == left.last());
    }
    if left.len() > 0 {
        assert(all[0] == left[0]);
    } else if right.len() > 0 {
        assert(all[0] == right[0]);
    }
}

/// The waves of the decode rows and of the verify block follow the prefill and
/// each other without a gap, down to the end of the reservation.
pub proof fn law_decode_and_verify_waves_are_contiguous(
    shape: RealFullSchedulerExecutionShape,
    layer: u32,
    reservation_id: u64,
    facts: ModelFacts,
)
    requires
        shape.span() <= usize::MAX,
    ensures
        covers(
            decode_mtp_waves(shape, layer, reservation_id, facts),
            shape.prefix_tokens + shape.prefill_tokens,
            shape.prefix_tokens + shape.prefill_tokens + shape.decode_rows + shape.mtp_rows,
        ),
{
}

/// Every decode row is a wave of its own, the verify rows are one wave behind
/// them, and all stand at the layer, under the reservation and with the width of
/// the model.
pub proof fn law_decode_rows_come_singly_and_first(
    shape: RealFullSchedulerExecutionShape,
    layer: u32,
    reservation_id: u64,
    facts: ModelFacts,
    i: int,
)
    requires
        shape.span() <= usize::MAX,
        facts.hidden_size * 2 <= usize::MAX,
        0 <= i < decode_mtp_waves(shape, layer, reservation_id, facts).len(),
    ensures
        ({
            let waves = decode_mtp_waves(shape, layer, reservation_id, facts);
            &&& waves[i].mode == WaveMode::Decode ==> waves[i].row_count == 1
            &&& waves[i].mode == WaveMode::MtpVerify ==> waves[i].row_count == shape.mtp_rows
            &&& waves[i].mode == WaveMode::Decode <==> i < shape.decode_rows
            &&& waves[i].mode == WaveMode::MtpVerify <==> i == shape.decode_rows
            &&& waves[i].layer_id == layer
            &&& waves[i].reservation_id == reservation_id
            &&& waves[i].geometry.hidden_dim == facts.hidden_size
            &&& waves[i].geometry.bytes_per_row == waves[i].geometry.hidden_dim
                + waves[i].geometry.hidden_dim
            &&& waves[i].geometry.routed_experts == facts.routed_experts
            &&& waves[i].geometry.top_k == facts.top_k
        }),
{
}

/// The admissions are those of a layer.
pub open spec fn layer_admissions(
    iterations: Seq<LayerIteration>,
    shape: RealFullSchedulerExecutionShape,
    chunk_tokens: usize,
    layer: u32,
    reservation_id: u64,
    facts: ModelFacts,
) -> bool {
    &&& iterations.len() == iteration_count(
        planned_chunks(shape, chunk_tokens as int, layer, reservation_id).len() as int,
        decode_mtp_waves(shape, layer, reservation_id, facts).len() as int,
    )
    &&& forall|i: int|
        0 <= i < iterations.len() ==> iteration_ok(
            #[trigger] iterations[i],
            shape,
            chunk_tokens as int,
            layer,
            reservation_id,
            facts,
            i,
        )
}

/// Where the prefill stands in front of admission `n`.
spec fn reached(
    shape: RealFullSchedulerExecutionShape,
    chunk_tokens: usize,
    layer: u32,
    reservation_id: u64,
    n: int,
) -> int {
    let chunks = planned_chunks(shape, chunk_tokens as int, layer, reservation_id);
    if n <= 0 {
        shape.prefix_tokens as int
    } else {
        chunks[n - 1].token_start + chunks[n - 1].token_count
    }
}

proof fn lemma_offered_covers(
    iterations: Seq<LayerIteration>,
    shape: RealFullSchedulerExecutionShape,
    chunk_tokens: usize,
    layer: u32,
    reservation_id: u64,
    facts: ModelFacts,
    n: int,
)
    requires
        shape.span() <= usize::MAX,
        layer_admissions(iterations, shape, chunk_tokens, layer, reservation_id, facts),
        0 <= n <= planned_chunks(shape, chunk_tokens as int, layer, reservation_id).len(),
    ensures
        covers(
            offered(iterations, n),
            shape.prefix_tokens as int,
            if n > 0 && n == planned_chunks(
                shape,
                chunk_tokens as int,
                layer,
                reservation_id,
            ).len() {
                shape.span()
            } else {
                reached(shape, chunk_tokens, layer, reservation_id, n)
            },
        ),
    decreases n,
{
    if n > 0 {
        let chunks = planned_chunks(shape, chunk_tokens as int, layer, reservation_id);
        lemma_offered_covers(
            iterations,
            shape,
            chunk_tokens,
            layer,
            reservation_id,
            facts,
            n - 1,
        );
        law_prefill_chunks_are_contiguous(shape, chunk_tokens, layer, reservation_id, n - 1);
        if n > 1 {
            law_prefill_chunks_are_contiguous(shape, chunk_tokens, layer, reservation_id, n - 2);
        }
        law_prefill_chunks_cover_all_rows(
            shape.prefill_tokens as int,
            chunk_tokens as int,
            shape.terminal_rows(),
        );
        let own = seq![prefill_wave(chunks[n - 1], facts)];
        let here = reached(shape, chunk_tokens, layer, reservation_id, n - 1);
        let there = reached(shape, chunk_tokens, layer, reservation_id, n);
        assert(covers(own, here, there));
        assert(iteration_ok(
            iterations[n - 1],
            shape,
            chunk_tokens as int,
            layer,
            reservation_id,
            facts,
            n - 1,
        ));
        if n == chunks.len() {
            let tail = decode_mtp_waves(shape, layer, reservation_id, facts);
            law_decode_and_verify_waves_are_contiguous(shape, layer, reservation_id, facts);
            lemma_covers_join(own, tail, here, there, shape.span());
            lemma_covers_join(
                offered(iterations, n - 1),
                own + tail,
                shape.prefix_tokens as int,
                here,
                shape.span(),
            );
        } else {
            lemma_covers_join(
                offered(iterations, n - 1),
                own,
                shape.prefix_tokens as int,
                here,
                there,
            );
        }
    }
}

/// The admissions of a layer offer every row of a request exactly once and in
/// order, from the end of the prefix to the end of the reservation.
pub proof fn law_layer_offers_every_row_once(
    iterations: Seq<LayerIteration>,
    shape: RealFullSchedulerExecutionShape,
    chunk_tokens: usize,
    layer: u32,
    reservation_id: u64,
    facts: ModelFacts,
)
    requires
        shape.span() <= usize::MAX,
        layer_admissions(iterations, shape, chunk_tokens, layer, reservation_id, facts),
    ensures
        covers(
            offered(iterations, iterations.len() as int),
            shape.prefix_tokens as int,
            shape.prefix_tokens + shape.prefill_tokens + shape.decode_rows + shape.mtp_rows,
        ),
{
    let chunks = planned_chunks(shape, chunk_tokens as int, layer, reservation_id);
    law_prefill_chunks_cover_all_rows(
        shape.prefill_tokens as int,
        chunk_tokens as int,
        shape.terminal_rows(),
    );
    if chunks.len() > 0 {
        lemma_offered_covers(
            iterations,
            shape,
            chunk_tokens,
            layer,
            reservation_id,
            facts,
            chunks.len() as int,
        );
    } else {
        law_decode_and_verify_waves_are_contiguous(shape, layer, reservation_id, facts);
        let waves = decode_mtp_waves(shape, layer, reservation_id, facts);
        if waves.len() > 0 {
            assert(iteration_ok(
                iterations[0],
                shape,
                chunk_tokens as int,
                layer,
                reservation_id,
                facts,
                0,
            ));
            assert(offered(iterations, 0) =~= Seq::<LayerWave>::empty());
            assert(offered(iterations, 1) =~= waves);
        }
    }
}

/// The decode rows yield to the prefill in the last admission of a prefill
/// alone: decode rows take precedence in every admission that offers none of
/// them beside a chunk.
pub proof fn law_joined_rows_have_no_precedence(
    iterations: Seq<LayerIteration>,
    shape: RealFullSchedulerExecutionShape,
    chunk_tokens: usize,
    layer: u32,
    reservation_id: u64,
    facts: ModelFacts,
    i: int,
)
    requires
        layer_admissions(iterations, shape, chunk_tokens, layer, reservation_id, facts),
        0 <= i < iterations.len(),
        shape.decode_rows > 0,
    ensures
        !iterations[i].decode_priority <==> (exists|p: int, d: int|
            0 <= p < iterations[i].waves@.len() && 0 <= d < iterations[i].waves@.len() && (
            #[trigger] iterations[i].waves@[p]).mode == WaveMode::Prefill && (
            #[trigger] iterations[i].waves@[d]).mode == WaveMode::Decode),
        i + 1 < iterations.len() ==> iterations[i].decode_priority,
{
    let chunks = planned_chunks(shape, chunk_tokens as int, layer, reservation_id);
    let waves = iterations[i].waves@;
    let tail = decode_mtp_waves(shape, layer, reservation_id, facts);
    assert(iteration_ok(
        iterations[i],
        shape,
        chunk_tokens as int,
        layer,
        reservation_id,
        facts,
        i,
    ));
    if chunks.len() > 0 && i + 1 == chunks.len() {
        assert(waves[0].mode == WaveMode::Prefill);
        assert(waves[1] == tail[0]);
        assert(waves[1].mode == WaveMode::Decode);
    }
}

/// The rows that one wave attends to: a prefill chunk reads everything up to its
/// end once; a decode or verify row reads everything up to itself.
pub open spec fn wave_context(wave: LayerWave) -> int {
    if wave.mode == WaveMode::Prefill {
        wave_end(wave)
    } else {
        rows_context(wave.token_start as int, wave.row_count as int)
    }
}

/// The context of `n` rows from a position on, each of which sees all positions
/// up to its own.
pub open spec fn rows_context(start: int, n: int) -> int
    decreases n,
{
    if n <= 0 {
        0
    } else {
        rows_context(start, n - 1) + (start + n)
    }
}

/// The launches of one wave where its rows are not taken together.
pub open spec fn wave_launches(wave: LayerWave) -> int {
    if wave.mode == WaveMode::MtpVerify {
        wave.row_count as int
    } else {
        1
    }
}

/// A number of every wave, added up over the first `n`.
pub open spec fn over_waves(waves: Seq<LayerWave>, of: spec_fn(LayerWave) -> int, n: int) -> int
    decreases n,
{
    if n <= 0 {
        0
    } else {
        over_waves(waves, of, n - 1) + of(waves[n - 1])
    }
}

proof fn lemma_over_waves_join(
    left: Seq<LayerWave>,
    right: Seq<LayerWave>,
    of: spec_fn(LayerWave) -> int,
    n: int,
)
    requires
        0 <= n <= right.len(),
    ensures
        over_waves(left + right, of, left.len() + n) == over_waves(left, of, left.len() as int)
            + over_waves(right, of, n),
    decreases n,
{
    if n > 0 {
        lemma_over_waves_join(left, right, of, n - 1);
        assert((left + right)[left.len() + n - 1] == right[n - 1]);
    } else {
        lemma_over_waves_prefix(left + right, left, of, left.len() as int);
    }
}

proof fn lemma_over_waves_prefix(
    all: Seq<LayerWave>,
    front: Seq<LayerWave>,
    of: spec_fn(LayerWave) -> int,
    n: int,
)
    requires
        0 <= n <= front.len() <= all.len(),
        forall|i: int| 0 <= i < front.len() ==> #[trigger] all[i] == front[i],
    ensures
        over_waves(all, of, n) == over_waves(front, of, n),
    decreases n,
{
    if n > 0 {
        lemma_over_waves_prefix(all, front, of, n - 1);
        assert(all[n - 1] == front[n - 1]);
    }
}

proof fn lemma_rows_context_is_single_rows(start: int, n: int)
    ensures
        rows_context(start, n) == single_row_context(start, n),
    decreases n,
{
    if n > 0 {
        lemma_rows_context_is_single_rows(start, n - 1);
    }
}

/// What the decode and verify waves amount to.
proof fn lemma_tail_sums(
    shape: RealFullSchedulerExecutionShape,
    layer: u32,
    reservation_id: u64,
    facts: ModelFacts,
    n: int,
)
    requires
        shape.span() <= usize::MAX,
        0 <= n <= shape.decode_rows,
    ensures
        ({
            let waves = decode_mtp_waves(shape, layer, reservation_id, facts);
            let base = shape.prefix_tokens + shape.prefill_tokens;
            &&& over_waves(waves, |w: LayerWave| w.row_count as int, n) == n
            &&& over_waves(waves, |w: LayerWave| wave_launches(w), n) == n
            &&& over_waves(waves, |w: LayerWave| wave_context(w), n) == single_row_context(base, n)
        }),
    decreases n,
{
    if n > 0 {
        lemma_tail_sums(shape, layer, reservation_id, facts, n - 1);
        let waves = decode_mtp_waves(shape, layer, reservation_id, facts);
        let base = shape.prefix_tokens + shape.prefill_tokens;
        assert(waves[n - 1].row_count == 1 && waves[n - 1].mode == WaveMode::Decode);
        assert(rows_context(base + n - 1, 0) == 0);
        assert(wave_context(waves[n - 1]) == base + n);
    }
}

proof fn lemma_all_tail_sums(
    shape: RealFullSchedulerExecutionShape,
    layer: u32,
    reservation_id: u64,
    facts: ModelFacts,
)
    requires
        shape.span() <= usize::MAX,
    ensures
        ({
            let waves = decode_mtp_waves(shape, layer, reservation_id, facts);
            let all = waves.len() as int;
            let base = shape.prefix_tokens + shape.prefill_tokens;
            &&& over_waves(waves, |w: LayerWave| w.row_count as int, all) == shape.decode_rows
                + shape.mtp_rows
            &&& over_waves(waves, |w: LayerWave| wave_launches(w), all) == shape.decode_rows
                + shape.mtp_rows
            &&& over_waves(waves, |w: LayerWave| wave_context(w), all) == single_row_context(
                base,
                shape.decode_rows as int,
            ) + single_row_context(base + shape.decode_rows, shape.mtp_rows as int)
        }),
{
    lemma_tail_sums(shape, layer, reservation_id, facts, shape.decode_rows as int);
    let base = shape.prefix_tokens + shape.prefill_tokens;
    lemma_rows_context_is_single_rows(base + shape.decode_rows, shape.mtp_rows as int);
    assert(single_row_context(base + shape.decode_rows, 0) == 0);
}

proof fn lemma_chunk_sums(
    iterations: Seq<LayerIteration>,
    shape: RealFullSchedulerExecutionShape,
    layer: u32,
    reservation_id: u64,
    facts: ModelFacts,
    n: int,
)
    requires
        shape.span() <= usize::MAX,
        layer_admissions(
            iterations,
            shape,
            shape.prefill_chunk_tokens,
            layer,
            reservation_id,
            facts,
        ),
        0 <= n <= shape.counts().len(),
    ensures
        ({
            let waves = offered(iterations, n);
            let all = waves.len() as int;
            let last = n > 0 && n == shape.counts().len();
            let base = shape.prefix_tokens + shape.prefill_tokens;
            let extra = if last {
                shape.decode_rows + shape.mtp_rows
            } else {
                0
            };
            &&& over_waves(waves, |w: LayerWave| w.row_count as int, all) == total(
                shape.counts().take(n),
            ) + extra
            &&& over_waves(waves, |w: LayerWave| wave_launches(w), all) == n + extra
            &&& over_waves(waves, |w: LayerWave| wave_context(w), all) == chunk_context(
                shape.prefix_tokens as int,
                shape.counts(),
                n,
            ) + (if last {
                single_row_context(base, shape.decode_rows as int) + single_row_context(
                    base + shape.decode_rows,
                    shape.mtp_rows as int,
                )
            } else {
                0
            })
            &&& waves.len() == n + (if last {
                decode_mtp_waves(shape, layer, reservation_id, facts).len() as int
            } else {
                0
            })
        }),
    decreases n,
{
    let rows = |w: LayerWave| w.row_count as int;
    let launches = |w: LayerWave| wave_launches(w);
    let context = |w: LayerWave| wave_context(w);
    let counts = shape.counts();
    let chunk_tokens = shape.prefill_chunk_tokens;
    if n > 0 {
        lemma_chunk_sums(iterations, shape, layer, reservation_id, facts, n - 1);
        let chunks = planned_chunks(shape, chunk_tokens as int, layer, reservation_id);
        assert(counts == prefill_counts(
            shape.prefill_tokens as int,
            chunk_tokens as int,
            shape.terminal_rows(),
        ));
        law_prefill_chunks_cover_all_rows(
            shape.prefill_tokens as int,
            chunk_tokens as int,
            shape.terminal_rows(),
        );
        lemma_total_append(counts, n - 1);
        law_prefill_chunks_are_contiguous(shape, chunk_tokens, layer, reservation_id, n - 1);
        let front = offered(iterations, n - 1);
        let own = seq![prefill_wave(chunks[n - 1], facts)];
        assert(iteration_ok(
            iterations[n - 1],
            shape,
            chunk_tokens as int,
            layer,
            reservation_id,
            facts,
            n - 1,
        ));
        lemma_chunk_end(shape, layer, reservation_id, n - 1);
        assert(wave_context(own[0]) == shape.prefix_tokens + total(counts.take(n)));
        assert(over_waves(own, rows, 0) == 0 && over_waves(own, launches, 0) == 0 && over_waves(
            own,
            context,
            0,
        ) == 0);
        assert(over_waves(own, rows, 1) == counts[n - 1]);
        assert(over_waves(own, launches, 1) == 1);
        assert(over_waves(own, context, 1) == shape.prefix_tokens + total(counts.take(n)));
        if n == counts.len() {
            let tail = decode_mtp_waves(shape, layer, reservation_id, facts);
            lemma_all_tail_sums(shape, layer, reservation_id, facts);
            lemma_over_waves_join(own, tail, rows, tail.len() as int);
            lemma_over_waves_join(own, tail, launches, tail.len() as int);
            lemma_over_waves_join(own, tail, context, tail.len() as int);
            lemma_over_waves_join(front, own + tail, rows, (own + tail).len() as int);
            lemma_over_waves_join(front, own + tail, launches, (own + tail).len() as int);
            lemma_over_waves_join(front, own + tail, context, (own + tail).len() as int);
        } else {
            lemma_over_waves_join(front, own, rows, 1);
            lemma_over_waves_join(front, own, launches, 1);
            lemma_over_waves_join(front, own, context, 1);
        }
    } else {
        assert(counts.take(0) =~= Seq::<usize>::empty());
        assert(total(Seq::<usize>::empty()) == 0);
    }
}

proof fn lemma_chunk_end(
    shape: RealFullSchedulerExecutionShape,
    layer: u32,
    reservation_id: u64,
    i: int,
)
    requires
        shape.span() <= usize::MAX,
        0 <= i < shape.counts().len(),
    ensures
        ({
            let chunks = planned_chunks(
                shape,
                shape.prefill_chunk_tokens as int,
                layer,
                reservation_id,
            );
            chunks[i].token_start + chunks[i].token_count == shape.prefix_tokens + total(
                shape.counts().take(i + 1),
            )
        }),
    decreases i,
{
    let counts = shape.counts();
    lemma_total_append(counts, i);
    law_prefill_chunks_are_contiguous(
        shape,
        shape.prefill_chunk_tokens,
        layer,
        reservation_id,
        i,
    );
    if i > 0 {
        lemma_chunk_end(shape, layer, reservation_id, i - 1);
        law_prefill_chunks_are_contiguous(
            shape,
            shape.prefill_chunk_tokens,
            layer,
            reservation_id,
            i - 1,
        );
    } else {
        assert(counts.take(0) =~= Seq::<usize>::empty());
        assert(total(Seq::<usize>::empty()) == 0);
    }
}

/// What attention is expected to read of a layer is what its waves read: the
/// query rows are the rows of the waves, the context rows what every prefill
/// chunk, decode row and verify row sees, the most launches one per chunk, decode
/// row and verify row, and the fewest one per wave, or one less where the decode
/// row is taken with the verify block.
pub proof fn law_attention_is_accounted_for_by_the_waves(
    iterations: Seq<LayerIteration>,
    shape: RealFullSchedulerExecutionShape,
    layer: u32,
    reservation_id: u64,
    facts: ModelFacts,
    fusion_max_rows: int,
)
    requires
        shape.span() <= usize::MAX,
        layer_admissions(
            iterations,
            shape,
            shape.prefill_chunk_tokens,
            layer,
            reservation_id,
            facts,
        ),
    ensures
        ({
            let waves = offered(iterations, iterations.len() as int);
            let all = waves.len() as int;
            let fused = shape.decode_rows == 1 && shape.mtp_rows >= 1 && 1 + shape.mtp_rows
                <= fusion_max_rows;
            &&& over_waves(waves, |w: LayerWave| w.row_count as int, all) == layer_query_rows(
                shape,
            )
            &&& over_waves(waves, |w: LayerWave| wave_context(w), all) == layer_context_rows(shape)
            &&& over_waves(waves, |w: LayerWave| wave_launches(w), all) == layer_launches_max(
                shape,
            )
            &&& layer_launches_min(shape, fusion_max_rows) == all - (if fused {
                1int
            } else {
                0int
            })
        }),
{
    let counts = shape.counts();
    let chunks = planned_chunks(
        shape,
        shape.prefill_chunk_tokens as int,
        layer,
        reservation_id,
    );
    law_prefill_chunks_cover_all_rows(
        shape.prefill_tokens as int,
        shape.prefill_chunk_tokens as int,
        shape.terminal_rows(),
    );
    lemma_chunk_sums(iterations, shape, layer, reservation_id, facts, counts.len() as int);
    assert(counts.take(counts.len() as int) =~= counts);
    if counts.len() == 0 {
        let waves = decode_mtp_waves(shape, layer, reservation_id, facts);
        lemma_all_tail_sums(shape, layer, reservation_id, facts);
        assert(chunks.len() == 0);
        if waves.len() > 0 {
            assert(iteration_ok(
                iterations[0],
                shape,
                shape.prefill_chunk_tokens as int,
                layer,
                reservation_id,
                facts,
                0,
            ));
            assert(offered(iterations, 0) =~= Seq::<LayerWave>::empty());
            assert(offered(iterations, 1) =~= waves);
        } else {
            assert(offered(iterations, 0) =~= Seq::<LayerWave>::empty());
            assert(single_row_context(shape.prefix_tokens as int, 0) == 0);
        }
    }
}

/// Every further token of the prefix adds one row to what each prefill chunk,
/// decode row and verify row attends to.
pub proof fn law_prefix_is_seen_by_every_chunk_and_row(
    shape: RealFullSchedulerExecutionShape,
    longer: RealFullSchedulerExecutionShape,
)
    requires
        longer.prefix_tokens == shape.prefix_tokens + 1,
        longer.prefill_tokens == shape.prefill_tokens,
        longer.prefill_chunk_tokens == shape.prefill_chunk_tokens,
        longer.decode_rows == shape.decode_rows,
        longer.mtp_rows == shape.mtp_rows,
    ensures
        layer_context_rows(longer) == layer_context_rows(shape) + shape.counts().len()
            + shape.decode_rows + shape.mtp_rows,
{
    let base = shape.prefix_tokens + shape.prefill_tokens;
    lemma_chunk_context_prefix(
        shape.prefix_tokens as int,
        shape.counts(),
        shape.counts().len() as int,
    );
    lemma_single_row_context_base(base, shape.decode_rows as int);
    lemma_single_row_context_base(base + shape.decode_rows, shape.mtp_rows as int);
}

proof fn lemma_chunk_context_prefix(prefix: int, counts: Seq<usize>, n: int)
    requires
        n >= 0,
    ensures
        chunk_context(prefix + 1, counts, n) == chunk_context(prefix, counts, n) + n,
    decreases n,
{
    if n > 0 {
        lemma_chunk_context_prefix(prefix, counts, n - 1);
    }
}

proof fn lemma_single_row_context_base(base: int, n: int)
    requires
        n >= 0,
    ensures
        single_row_context(base + 1, n) == single_row_context(base, n) + n,
    decreases n,
{
    if n > 0 {
        lemma_single_row_context_base(base, n - 1);
    }
}

/// Rows that are prefilled one by one attend to what the same rows attend to as
/// decode rows: `n` rows behind a prefix of `p` see `p` rows each and, among
/// themselves, as many as the numbers from one to `n` add up to.
pub proof fn law_single_row_chunks_are_decode_rows(prefix: int, counts: Seq<usize>)
    requires
        forall|i: int| 0 <= i < counts.len() ==> #[trigger] counts[i] == 1,
    ensures
        chunk_context(prefix, counts, counts.len() as int) == single_row_context(
            prefix,
            counts.len() as int,
        ),
        2 * chunk_context(prefix, counts, counts.len() as int) == 2 * prefix * counts.len()
            + counts.len() * (counts.len() + 1),
{
    lemma_single_row_chunks(prefix, counts, counts.len() as int);
}

proof fn lemma_single_row_chunks(prefix: int, counts: Seq<usize>, n: int)
    requires
        0 <= n <= counts.len(),
        forall|i: int| 0 <= i < counts.len() ==> #[trigger] counts[i] == 1,
    ensures
        chunk_context(prefix, counts, n) == single_row_context(prefix, n),
        2 * chunk_context(prefix, counts, n) == 2 * prefix * n + n * (n + 1),
        total(counts.take(n)) == n,
    decreases n,
{
    if n > 0 {
        lemma_single_row_chunks(prefix, counts, n - 1);
        lemma_total_append(counts, n - 1);
        assert(2 * prefix * n + n * (n + 1) == 2 * prefix * (n - 1) + (n - 1) * n + 2 * (prefix
            + n)) by (nonlinear_arith);
    } else {
        assert(counts.take(0) =~= Seq::<usize>::empty());
        assert(total(Seq::<usize>::empty()) == 0);
        assert(2 * prefix * 0 + 0 * (0 + 1) == 0int) by (nonlinear_arith);
    }
}

} // verus!
