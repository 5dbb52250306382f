//! The waves of one layer: its prefill chunks, decode rows and verify block.
use vstd::prelude::*;

use crate::execution::chunks::{
    law_prefill_chunks_cover_all_rows, lemma_total_append, prefill_counts, total,
};
use crate::execution::shape::{
    scheduler_prefill_chunk_token_counts, RealFullSchedulerExecutionShape,
};
use crate::model::ModelFacts;

verus! {

/// What the rows of a wave are.
#[derive(Clone, Copy, Debug, PartialEq, Eq, Structural)]
pub enum WaveMode {
    Decode,
    Prefill,
    MtpVerify,
    Benchmark,
}

/// Width and routing of the rows of a wave.
#[derive(Clone, Copy, Debug, PartialEq, Eq, Structural)]
pub struct WaveGeometry {
    pub hidden_dim: usize,
    pub bytes_per_row: usize,
    pub routed_experts: usize,
    pub top_k: usize,
}

/// Rows of one sequence at one layer.
#[derive(Clone, Copy, Debug, PartialEq, Eq, Structural)]
pub struct LayerWave {
    pub mode: WaveMode,
    pub layer_id: u32,
    pub token_start: u64,
    pub row_count: usize,
    pub reservation_id: u64,
    pub geometry: WaveGeometry,
}

/// One prefill chunk at one layer.
#[derive(Clone, Copy, Debug, PartialEq, Eq, Structural)]
pub struct PrefillChunk {
    pub layer_id: u32,
    pub token_start: u64,
    pub token_count: usize,
    pub reservation_id: u64,
}

/// One admission: the waves that are offered together, and whether decode
/// rows take precedence.
#[derive(Clone, Debug)]
pub struct LayerIteration {
    pub waves: Vec<LayerWave>,
    pub decode_priority: bool,
}

/// Rows hold two bytes per value.
pub open spec fn geometry_of(facts: ModelFacts) -> WaveGeometry {
    WaveGeometry {
        hidden_dim: facts.hidden_size,
        bytes_per_row: (facts.hidden_size * 2) as usize,
        routed_experts: facts.routed_experts,
        top_k: facts.top_k,
    }
}

fn wave_geometry(facts: &ModelFacts) -> (g: WaveGeometry)
    requires
        facts.hidden_size * 2 <= usize::MAX,
    ensures
        g == geometry_of(*facts),
{
    WaveGeometry {
        hidden_dim: facts.hidden_size,
        bytes_per_row: facts.hidden_size * 2,
        routed_experts: facts.routed_experts,
        top_k: facts.top_k,
    }
}

/// Chunk `i` of a prefill that is cut into `counts`.
pub open spec fn planned_chunk(
    shape: RealFullSchedulerExecutionShape,
    counts: Seq<usize>,
    layer: u32,
    reservation_id: u64,
    i: int,
) -> PrefillChunk {
    PrefillChunk {
        layer_id: layer,
        token_start: (shape.prefix_tokens + total(counts.take(i))) as u64,
        token_count: counts[i],
        reservation_id,
    }
}

/// The prefill chunks of a layer: they start after the prefix and follow each
/// other without gaps.
pub open spec fn planned_chunks(
    shape: RealFullSchedulerExecutionShape,
    chunk_tokens: int,
    layer: u32,
    reservation_id: u64,
) -> Seq<PrefillChunk> {
    let counts = prefill_counts(
        shape.prefill_tokens as int,
        chunk_tokens,
        shape.terminal_rows(),
    );
    Seq::new(counts.len(), |i: int| planned_chunk(shape, counts, layer, reservation_id, i))
}

proof fn lemma_total_take_bounded(counts: Seq<usize>, n: int)
    requires
        0 <= n <= counts.len(),
    ensures
        0 <= total(counts.take(n)) <= total(counts),
    decreases counts.len() - n,
{
    if n == counts.len() {
        assert(counts.take(n) =~= counts);
        if n > 0 {
            lemma_total_append(counts, n - 1);
        } else {
            assert(total(counts) == 0);
        }
    } else {
        lemma_total_append(counts, n);
        lemma_total_take_bounded(counts, n + 1);
    }
}

/// The prefill chunks of a layer. `chunk_tokens` is the chunk size of the
/// prefill policy.
pub fn plan_scheduler_prefill_chunks(
    shape: &RealFullSchedulerExecutionShape,
    layer: u32,
    reservation_id: u64,
    chunk_tokens: usize,
) -> (chunks: Vec<PrefillChunk>)
    requires
        shape.prefix_tokens + shape.prefill_tokens <= usize::MAX,
    ensures
        chunks@ == planned_chunks(*shape, chunk_tokens as int, layer, reservation_id),
{
    let counts: Vec<usize> = scheduler_prefill_chunk_token_counts(shape, chunk_tokens);
    let mut chunks: Vec<PrefillChunk> = Vec::new();
    let mut offset: usize = 0;
    let mut index: usize = 0;
    proof {
        law_prefill_chunks_cover_all_rows(
            shape.prefill_tokens as int,
            chunk_tokens as int,
            shape.terminal_rows(),
        );
        assert(counts@.take(0) =~= Seq::<usize>::empty());
        assert(total(Seq::<usize>::empty()) == 0);
    }
    while index < counts.len()
        invariant
            index <= counts@.len(),
            shape.prefix_tokens + shape.prefill_tokens <= usize::MAX,
            total(counts@) == shape.prefill_tokens,
            offset == total(counts@.take(index as int)),
            chunks@ == Seq::new(
                index as nat,
                |i: int| planned_chunk(*shape, counts@, layer, reservation_id, i),
            ),
        decreases counts@.len() - index,
    {
        proof {
            lemma_total_append(counts@, index as int);
            lemma_total_take_bounded(counts@, index + 1);
        }
        chunks.push(
            PrefillChunk {
                layer_id: layer,
                token_start: (shape.prefill_token_start() + offset) as u64,
                token_count: counts[index],
                reservation_id,
            },
        );
        offset = offset + counts[index];
        index = index + 1;
        assert(chunks@ =~= Seq::new(
            index as nat,
            |i: int| planned_chunk(*shape, counts@, layer, reservation_id, i),
        ));
    }
    chunks
}

/// Prefill chunks follow each other: each starts where the one before ends,
/// the first at the end of the prefix, the last ends where decoding starts.
pub proof fn law_prefill_chunks_are_contiguous(
    shape: RealFullSchedulerExecutionShape,
    chunk_tokens: usize,
    layer: u32,
    reservation_id: u64,
    i: int,
)
    requires
        shape.prefix_tokens + shape.prefill_tokens <= usize::MAX,
        0 <= i < planned_chunks(shape, chunk_tokens as int, layer, reservation_id).len(),
    ensures
        ({
            let chunks = planned_chunks(shape, chunk_tokens as int, layer, reservation_id);
            let end = chunks[i].token_start + chunks[i].token_count;
            &&& i == 0 ==> chunks[i].token_start == shape.prefix_tokens
            &&& i + 1 < chunks.len() ==> chunks[i + 1].token_start == end
            &&& i + 1 == chunks.len() ==> end == shape.prefix_tokens + shape.prefill_tokens
        }),
{
    let counts = prefill_counts(
        shape.prefill_tokens as int,
        chunk_tokens as int,
        shape.terminal_rows(),
    );
    law_prefill_chunks_cover_all_rows(
        shape.prefill_tokens as int,
        chunk_tokens as int,
        shape.terminal_rows(),
    );
    lemma_total_append(counts, i);
    lemma_total_take_bounded(counts, i);
    lemma_total_take_bounded(counts, i + 1);
    assert(counts.take(0) =~= Seq::<usize>::empty());
    assert(total(Seq::<usize>::empty()) == 0);
    assert(counts.take(counts.len() as int) =~= counts);
}

/// The wave of a prefill chunk.
pub open spec fn prefill_wave(chunk: PrefillChunk, facts: ModelFacts) -> LayerWave {
    LayerWave {
        mode: WaveMode::Prefill,
        layer_id: chunk.layer_id,
        token_start: chunk.token_start,
        row_count: chunk.token_count,
        reservation_id: chunk.reservation_id,
        geometry: geometry_of(facts),
    }
}

/// The wave of decode row `i`.
pub open spec fn decode_wave(
    shape: RealFullSchedulerExecutionShape,
    layer: u32,
    reservation_id: u64,
    facts: ModelFacts,
    i: int,
) -> LayerWave {
    LayerWave {
        mode: WaveMode::Decode,
        layer_id: layer,
        token_start: (shape.prefix_tokens + shape.prefill_tokens + i) as u64,
        row_count: 1,
        reservation_id,
        geometry: geometry_of(facts),
    }
}

/// The wave of the verify block.
pub open spec fn verify_wave(
    shape: RealFullSchedulerExecutionShape,
    layer: u32,
    reservation_id: u64,
    facts: ModelFacts,
) -> LayerWave {
    LayerWave {
        mode: WaveMode::MtpVerify,
        layer_id: layer,
        token_start: (shape.prefix_tokens + shape.prefill_tokens + shape.decode_rows) as u64,
        row_count: shape.mtp_rows,
        reservation_id,
        geometry: geometry_of(facts),
    }
}

/// One wave per decode row, then one for the verify rows if there are any.
pub open spec fn decode_mtp_waves(
    shape: RealFullSchedulerExecutionShape,
    layer: u32,
    reservation_id: u64,
    facts: ModelFacts,
) -> Seq<LayerWave> {
    let decode = Seq::new(
        shape.decode_rows as nat,
        |i: int| decode_wave(shape, layer, reservation_id, facts, i),
    );
    if shape.mtp_rows > 0 {
        decode.push(verify_wave(shape, layer, reservation_id, facts))
    } else {
        decode
    }
}

/// The waves of the decode rows and of the verify block.
pub fn plan_scheduler_decode_mtp_waves(
    shape: &RealFullSchedulerExecutionShape,
    layer: u32,
    reservation_id: u64,
    facts: &ModelFacts,
) -> (waves: Vec<LayerWave>)
    requires
        shape.prefix_tokens + shape.prefill_tokens + shape.decode_rows <= usize::MAX,
        facts.hidden_size * 2 <= usize::MAX,
    ensures
        waves@ == decode_mtp_waves(*shape, layer, reservation_id, *facts),
{
    let geometry = wave_geometry(facts);
    let mut waves: Vec<LayerWave> = Vec::new();
    let mut offset: usize = 0;
    while offset < shape.decode_rows
        invariant
            offset <= shape.decode_rows,
            geometry == geometry_of(*facts),
            shape.prefix_tokens + shape.prefill_tokens + shape.decode_rows <= usize::MAX,
            waves@ == Seq::new(
                offset as nat,
                |i: int| decode_wave(*shape, layer, reservation_id, *facts, i),
            ),
        decreases shape.decode_rows - offset,
    {
        waves.push(
            LayerWave {
                mode: WaveMode::Decode,
                layer_id: layer,
                token_start: (shape.decode_token_start() + offset) as u64,
                row_count: 1,
                reservation_id,
                geometry,
            },
        );
        offset = offset + 1;
        assert(waves@ =~= Seq::new(
            offset as nat,
            |i: int| decode_wave(*shape, layer, reservation_id, *facts, i),
        ));
    }
    if shape.mtp_rows > 0 {
        waves.push(
            LayerWave {
                mode: WaveMode::MtpVerify,
                layer_id: layer,
                token_start: shape.mtp_token_start() as u64,
                row_count: shape.mtp_rows,
                reservation_id,
                geometry,
            },
        );
    }
    waves
}

/// The waves that are admitted with prefill chunk `i`: the chunk, and with the
/// last chunk the decode rows and the verify block.
pub open spec fn chunk_waves(
    shape: RealFullSchedulerExecutionShape,
    chunk_tokens: int,
    layer: u32,
    reservation_id: u64,
    facts: ModelFacts,
    i: int,
) -> Seq<LayerWave> {
    let chunks = planned_chunks(shape, chunk_tokens, layer, reservation_id);
    let own = seq![prefill_wave(chunks[i], facts)];
    if i + 1 == chunks.len() {
        own + decode_mtp_waves(shape, layer, reservation_id, facts)
    } else {
        own
    }
}

/// The waves of a layer, by prefill chunk.
pub fn plan_scheduler_chunk_layer_waves(
    shape: &RealFullSchedulerExecutionShape,
    layer: u32,
    reservation_id: u64,
    chunk_tokens: usize,
    facts: &ModelFacts,
) -> (chunk_waves_out: Vec<Vec<LayerWave>>)
    requires
        shape.prefix_tokens + shape.prefill_tokens + shape.decode_rows <= usize::MAX,
        facts.hidden_size * 2 <= usize::MAX,
    ensures
        chunk_waves_out@.len() == planned_chunks(
            *shape,
            chunk_tokens as int,
            layer,
            reservation_id,
        ).len(),
        forall|i: int|
            0 <= i < chunk_waves_out@.len() ==> (#[trigger] chunk_waves_out@[i])@ == chunk_waves(
                *shape,
                chunk_tokens as int,
                layer,
                reservation_id,
                *facts,
                i,
            ),
{
    let chunks: Vec<PrefillChunk> = plan_scheduler_prefill_chunks(
        shape,
        layer,
        reservation_id,
        chunk_tokens,
    );
    let geometry = wave_geometry(facts);
    let mut planned: Vec<Vec<LayerWave>> = Vec::new();
    let mut index: usize = 0;
    while index < chunks.len()
        invariant
            index <= chunks@.len(),
            chunks@ == planned_chunks(*shape, chunk_tokens as int, layer, reservation_id),
            geometry == geometry_of(*facts),
            facts.hidden_size * 2 <= usize::MAX,
            shape.prefix_tokens + shape.prefill_tokens + shape.decode_rows <= usize::MAX,
            planned@.len() == index,
            forall|i: int|
                0 <= i < index ==> (#[trigger] planned@[i])@ == chunk_waves(
                    *shape,
                    chunk_tokens as int,
                    layer,
                    reservation_id,
                    *facts,
                    i,
                ),
        decreases chunks@.len() - index,
    {
        let chunk = chunks[index];
        let mut waves: Vec<LayerWave> = Vec::new();
        waves.push(
            LayerWave {
                mode: WaveMode::Prefill,
                layer_id: chunk.layer_id,
                token_start: chunk.token_start,
                row_count: chunk.token_count,
                reservation_id: chunk.reservation_id,
                geometry,
            },
        );
        assert(waves@ =~= seq![prefill_wave(chunks@[index as int], *facts)]);
        if index + 1 == chunks.len() {
            let mut tail: Vec<LayerWave> = plan_scheduler_decode_mtp_waves(
                shape,
                layer,
                reservation_id,
                facts,
            );
            waves.append(&mut tail);
        }
        let ghost before = planned@;
        let ghost made = waves@;
        planned.push(waves);
        assert(made =~= chunk_waves(
            *shape,
            chunk_tokens as int,
            layer,
            reservation_id,
            *facts,
            index as int,
        ));
        assert forall|i: int| 0 <= i < index + 1 implies (#[trigger] planned@[i])@ == chunk_waves(
            *shape,
            chunk_tokens as int,
            layer,
            reservation_id,
            *facts,
            i,
        ) by {
            if i < index {
                assert(planned@[i] == before[i]);
            }
        }
        index = index + 1;
    }
    planned
}

/// The number of admissions of one layer: one per prefill chunk, or one for the
/// decode rows where nothing is prefilled.
pub open spec fn iteration_count(chunks: int, decode_waves: int) -> int {
    if chunks > 0 {
        chunks
    } else if decode_waves > 0 {
        1
    } else {
        0
    }
}

/// Admission `i` of a layer.
pub open spec fn iteration_ok(
    iteration: LayerIteration,
    shape: RealFullSchedulerExecutionShape,
    chunk_tokens: int,
    layer: u32,
    reservation_id: u64,
    facts: ModelFacts,
    i: int,
) -> bool {
    let chunks = planned_chunks(shape, chunk_tokens, layer, reservation_id).len();
    if chunks > 0 {
        &&& iteration.waves@ == chunk_waves(
            shape,
            chunk_tokens,
            layer,
            reservation_id,
            facts,
            i,
        )
        &&& iteration.decode_priority == (i + 1 != chunks)
    } else {
        &&& iteration.waves@ == decode_mtp_waves(shape, layer, reservation_id, facts)
        &&& iteration.decode_priority
    }
}

/// The admissions of a layer outside a wavefront: prefill chunks in order, the
/// last one joined by the decode rows and the verify block and admitted
/// without decode precedence.
pub fn plan_scheduler_layer_iterations(
    shape: &RealFullSchedulerExecutionShape,
    layer: u32,
    reservation_id: u64,
    chunk_tokens: usize,
    facts: &ModelFacts,
) -> (iterations: Vec<LayerIteration>)
    requires
        shape.prefix_tokens + shape.prefill_tokens + shape.decode_rows <= usize::MAX,
        facts.hidden_size * 2 <= usize::MAX,
    ensures
        iterations@.len() == iteration_count(
            planned_chunks(*shape, chunk_tokens as int, layer, reservation_id).len() as int,
            decode_mtp_waves(*shape, layer, reservation_id, *facts).len() as int,
        ),
        forall|i: int|
            0 <= i < iterations@.len() ==> iteration_ok(
                #[trigger] iterations@[i],
                *shape,
                chunk_tokens as int,
                layer,
                reservation_id,
                *facts,
                i,
            ),
{
    let mut planned: Vec<Vec<LayerWave>> = plan_scheduler_chunk_layer_waves(
        shape,
        layer,
        reservation_id,
        chunk_tokens,
        facts,
    );
    let chunk_count: usize = planned.len();
    let mut iterations: Vec<LayerIteration> = Vec::new();
    if chunk_count == 0 {
        let waves: Vec<LayerWave> = plan_scheduler_decode_mtp_waves(
            shape,
            layer,
            reservation_id,
            facts,
        );
        if waves.len() > 0 {
            iterations.push(LayerIteration { waves, decode_priority: true });
        }
        return iterations;
    }
    let mut index: usize = 0;
    while index < chunk_count
        invariant
            index <= chunk_count,
            chunk_count > 0,
            chunk_count == planned_chunks(
                *shape,
                chunk_tokens as int,
                layer,
                reservation_id,
            ).len(),
            planned@.len() == chunk_count - index,
            forall|i: int|
                0 <= i < chunk_count - index ==> (#[trigger] planned@[i])@ == chunk_waves(
                    *shape,
                    chunk_tokens as int,
                    layer,
                    reservation_id,
                    *facts,
                    i + index,
                ),
            iterations@.len() == index,
            forall|i: int|
                0 <= i < index ==> iteration_ok(
                    #[trigger] iterations@[i],
                    *shape,
                    chunk_tokens as int,
                    layer,
                    reservation_id,
                    *facts,
                    i,
                ),
        decreases chunk_count - index,
    {
        let ghost planned_before = planned@;
        let ghost iterations_before = iterations@;
        let waves: Vec<LayerWave> = planned.remove(0);
        assert(waves == planned_before[0]);
        let iteration = LayerIteration { waves, decode_priority: index + 1 != chunk_count };
        iterations.push(iteration);
        assert forall|i: int| 0 <= i < chunk_count - (index + 1) implies (#[trigger]
        planned@[i])@ == chunk_waves(
            *shape,
            chunk_tokens as int,
            layer,
            reservation_id,
            *facts,
            i + (index + 1),
        ) by {
            assert(planned@[i] == planned_before[i + 1]);
        }
        assert forall|i: int| 0 <= i < index + 1 implies iteration_ok(
            #[trigger] iterations@[i],
            *shape,
            chunk_tokens as int,
            layer,
            reservation_id,
            *facts,
            i,
        ) by {
            if i < index {
                assert(iterations@[i] == iterations_before[i]);
            }
        }
        index = index + 1;
    }
    iterations
}

} // verus!
