//! In which order work is started: tasks by diagonals, layers in rounds, within
//! the limit that a setting asks for.
use vstd::prelude::*;

use crate::execution::bounded::BoundedPrefillWavefront;
use crate::execution::rolling::{
    active_number, buffered_number, digits_value, dispatch_limit, layer_queued, layer_sum,
    none_queued, pages_number, parsed_usize, rolling_setup_error, round_offers, rows_number,
    RollingDispatchRound, RollingError, RollingLayerStatus,
};
use crate::execution::wavefront::{first_ready, task_ready, SchedulerSparseWavefrontTask};
use crate::readable::{digit_value, law_decimal_text_reads_back, text_value};
use crate::text::decimal;

verus! {

/// The first ready task lies on the lowest diagonal of layer and chunk that has
/// one, and on its lowest layer.
pub proof fn law_first_ready_task_is_on_the_lowest_diagonal(
    started: Seq<Vec<bool>>,
    finished: Seq<Vec<bool>>,
    layers: int,
    chunks: int,
    task: SchedulerSparseWavefrontTask,
    l: int,
    c: int,
)
    requires
        first_ready(started, finished, layers, chunks, task),
        0 <= l < layers,
        0 <= c < chunks,
        task_ready(started, finished, l, c),
    ensures
        task.layer_offset + task.chunk_index <= l + c,
        task.layer_offset + task.chunk_index == l + c ==> task.layer_offset <= l,
        task_ready(
            started,
            finished,
            task.layer_offset as int,
            task.chunk_index as int,
        ),
        task.layer_offset < layers,
        task.chunk_index < chunks,
{
}

/// The first task of a bounded wavefront that may start is one that may, and lies
/// on no higher diagonal than any other on another layer.
pub proof fn law_first_eligible_task_is_on_the_lowest_diagonal(
    w: BoundedPrefillWavefront,
    task: SchedulerSparseWavefrontTask,
    l: int,
    c: int,
)
    requires
        w.first_eligible(task),
        w.in_range(l, c),
        w.eligible(l, c),
    ensures
        w.eligible(task.layer_offset as int, task.chunk_index as int),
        task.layer_offset + task.chunk_index <= l + c,
        task.layer_offset + task.chunk_index == l + c ==> task.layer_offset <= l,
{
}

/// What a layer adds to the sums over all layers is its own number of each kind.
pub proof fn law_layer_sums_count_each_layer(
    layers: Seq<Option<RollingLayerStatus>>,
    layer: RollingLayerStatus,
)
    ensures
        ({
            let n = layers.len() as int;
            let with = layers.push(Some(layer));
            let without = layers.push(None);
            &&& layer_sum(with, active_number(), n + 1) == layer_sum(layers, active_number(), n)
                + layer.active_dispatches
            &&& layer_sum(with, buffered_number(), n + 1) == layer_sum(
                layers,
                buffered_number(),
                n,
            ) + layer.buffered_dispatches
            &&& layer_sum(with, pages_number(), n + 1) == layer_sum(layers, pages_number(), n)
                + layer.accumulator_active_pages
            &&& layer_sum(with, rows_number(), n + 1) == layer_sum(layers, rows_number(), n)
                + layer.accumulator_active_rows
            &&& layer_sum(without, active_number(), n + 1) == layer_sum(layers, active_number(), n)
            &&& layer_sum(layers, active_number(), 0) == 0
            &&& layer_sum(layers, rows_number(), 0) == 0
        }),
{
    let n = layers.len() as int;
    let with = layers.push(Some(layer));
    let without = layers.push(None);
    lemma_sum_prefix(layers, with, active_number(), n);
    lemma_sum_prefix(layers, with, buffered_number(), n);
    lemma_sum_prefix(layers, with, pages_number(), n);
    lemma_sum_prefix(layers, with, rows_number(), n);
    lemma_sum_prefix(layers, without, active_number(), n);
}

proof fn lemma_sum_prefix(
    layers: Seq<Option<RollingLayerStatus>>,
    longer: Seq<Option<RollingLayerStatus>>,
    number: spec_fn(RollingLayerStatus) -> int,
    n: int,
)
    requires
        0 <= n <= layers.len() <= longer.len(),
        forall|i: int| 0 <= i < layers.len() ==> layers[i] == longer[i],
    ensures
        layer_sum(longer, number, n) == layer_sum(layers, number, n),
    decreases n,
{
    if n > 0 {
        lemma_sum_prefix(layers, longer, number, n - 1);
    }
}

/// A layer is offered exactly if there is room for a dispatch and a layer waits
/// that this round has not come to, or that a round which started something can
/// come to again.
pub proof fn law_waiting_layers_are_offered(
    before: RollingDispatchRound,
    after: RollingDispatchRound,
    layers: Seq<Option<RollingLayerStatus>>,
    layer: Option<usize>,
    waiting: int,
)
    requires
        before.wf(layers),
        round_offers(before, after, layers, layer),
        0 <= waiting < layers.len(),
        layer_queued(layers, waiting),
    ensures
        before.active >= before.max_active ==> layer is None,
        before.active < before.max_active && (waiting >= before.cursor || before.round_started)
            ==> layer is Some,
        !before.round_started && none_queued(
            layers,
            before.cursor as int,
            layers.len() as int,
        ) ==> layer is None,
        layer matches Some(i) ==> layer_queued(layers, i as int) && i < layers.len(),
{
}

/// Within a round the layers come in order and none that waits is passed over;
/// only when none waits behind the cursor does the next round begin, with the
/// first that waits.
pub proof fn law_rounds_pass_over_no_layer(
    before: RollingDispatchRound,
    after: RollingDispatchRound,
    layers: Seq<Option<RollingLayerStatus>>,
    offered: usize,
    waiting: int,
)
    requires
        before.wf(layers),
        round_offers(before, after, layers, Some(offered)),
        0 <= waiting < layers.len(),
        layer_queued(layers, waiting),
    ensures
        before.cursor <= waiting ==> before.cursor <= offered <= waiting,
        waiting < before.cursor && offered < before.cursor ==> offered <= waiting,
        offered < before.cursor ==> before.round_started && !after.round_started,
        after.cursor == offered + 1,
{
    if before.cursor <= waiting {
        assert(layer_queued(layers, waiting));
    }
}

/// The limit on dispatches is the number asked for where it is from one to the
/// most allowed, and that most for any other wish.
pub proof fn law_limit_follows_the_setting(n: usize, most: usize)
    requires
        most == dispatch_limit(None),
    ensures
        1 <= n <= most ==> dispatch_limit(Some(n)) == n,
        n == 0 || n > most ==> dispatch_limit(Some(n)) == most,
        most == 8,
{
}

proof fn lemma_digits(text: Seq<char>)
    requires
        forall|i: int| 0 <= i < text.len() ==> '0' <= #[trigger] text[i] <= '9',
    ensures
        digits_value(text) == text_value(text, 10),
    decreases text.len(),
{
    if text.len() > 0 {
        let shorter = text.drop_last();
        assert forall|i: int| 0 <= i < shorter.len() implies '0' <= #[trigger] shorter[i]
            <= '9' by {
            assert(shorter[i] == text[i]);
        }
        lemma_digits(shorter);
        assert('0' <= text[text.len() - 1] <= '9');
        assert(digit_value(text.last()) == text.last() as int - '0' as int);
    }
}

/// A number is read back from its own decimal text, with or without a sign before
/// it.
pub proof fn law_decimal_text_is_parsed(n: usize)
    ensures
        parsed_usize(decimal(n as nat)) == Some(n),
        parsed_usize(seq!['+'] + decimal(n as nat)) == Some(n),
        parsed_usize(Seq::<char>::empty()) is None,
{
    let text = decimal(n as nat);
    law_decimal_text_reads_back(n as nat);
    lemma_digits(text);
    assert('0' <= text[0] <= '9');
    let signed = seq!['+'] + text;
    assert(signed[0] == '+');
    assert(signed.skip(1) =~= text);
}

/// A rolling wavefront is set up exactly for several chunks of a packed row count
/// whose rows and tasks can be counted.
pub proof fn law_rolling_needs_packed_chunks(
    layers: int,
    chunks: int,
    rows: Option<usize>,
    packs_supported: bool,
)
    ensures
        rolling_setup_error(layers, chunks, rows, packs_supported) is None <==> rows is Some
            && chunks > 1 && packs_supported && layers * chunks <= usize::MAX,
        rows is None ==> rolling_setup_error(layers, chunks, rows, packs_supported) == Some(
            RollingError::RowOverflow,
        ),
{
}

} // verus!
