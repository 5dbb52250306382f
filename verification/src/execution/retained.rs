//! What a bounded long prefill retains: which chunks hold the rows behind the
//! taps, and that a tap is captured when all of them, and none that went on, stand
//! at its boundary.
use vstd::prelude::*;

use crate::execution::bounded::{
    all_chunk_rows, bounded_setup_error, finish_ok, is_tap_suffix, request_rows, start_ok,
    BoundedError, BoundedFinish, BoundedPrefillWavefront, BoundedStart,
};
use crate::execution::chunks::{lemma_total_append, total};
use crate::execution::shape::RealFullSchedulerExecutionShape;
use crate::execution::wavefront::SchedulerSparseWavefrontTask;
use crate::grid::{cell, cell_set};

verus! {

/// The row behind chunk `k` of a request: the last chunk also carries the rows
/// that follow the prefill.
pub open spec fn chunk_end(counts: Seq<usize>, total_rows: int, k: int) -> int {
    let rows = all_chunk_rows(counts)[k];
    if k == counts.len() - 1 {
        total_rows
    } else {
        rows.row_start + rows.row_count
    }
}

proof fn lemma_total_step(counts: Seq<usize>, i: int)
    requires
        0 <= i < counts.len(),
    ensures
        total(counts.take(i + 1)) == total(counts.take(i)) + counts[i],
{
    lemma_total_append(counts, i);
}

proof fn lemma_total_grows(counts: Seq<usize>, i: int, j: int)
    requires
        0 <= i <= j <= counts.len(),
    ensures
        0 <= total(counts.take(i)) <= total(counts.take(j)),
    decreases j,
{
    if i < j {
        lemma_total_grows(counts, i, j - 1);
        lemma_total_step(counts, j - 1);
    } else if j > 0 {
        lemma_total_grows(counts, i - 1, j - 1);
        lemma_total_step(counts, j - 1);
    } else {
        assert(counts.take(0) =~= Seq::<usize>::empty());
    }
}

/// The chunks of a prefill lie side by side: the first starts at row zero, each
/// starts where the one before it ends, and the last ends behind the prefill.
pub proof fn law_chunks_lie_side_by_side(counts: Seq<usize>, i: int)
    requires
        0 <= i < counts.len(),
        total(counts) <= usize::MAX,
    ensures
        ({
            let rows = all_chunk_rows(counts);
            &&& rows.len() == counts.len()
            &&& rows[i].row_count == counts[i]
            &&& rows[0].row_start == 0
            &&& i > 0 ==> rows[i].row_start == rows[i - 1].row_start + rows[i - 1].row_count
            &&& i == counts.len() - 1 ==> rows[i].row_start + rows[i].row_count == total(counts)
        }),
{
    assert(counts.take(0) =~= Seq::<usize>::empty());
    assert(counts.take(counts.len() as int) =~= counts);
    lemma_total_grows(counts, i, counts.len() as int);
    lemma_total_step(counts, i);
    if i > 0 {
        lemma_total_grows(counts, i - 1, counts.len() as int);
        lemma_total_step(counts, i - 1);
    }
}

/// The chunks from the tap suffix on are exactly those that hold one of the last
/// `tap_rows` rows of the request.
pub proof fn law_tap_suffix_holds_the_last_rows(
    counts: Seq<usize>,
    total_rows: int,
    tap_rows: int,
    suffix: int,
    k: int,
)
    requires
        0 <= k < counts.len(),
        0 <= tap_rows,
        0 < total(counts) <= total_rows <= usize::MAX,
        forall|i: int| 0 <= i < counts.len() ==> (#[trigger] counts[i]) > 0,
        is_tap_suffix(counts, total(counts), total_rows, tap_rows, suffix),
    ensures
        k >= suffix <==> tap_rows > 0 && chunk_end(counts, total_rows, k) + tap_rows > total_rows,
{
    let n = counts.len() as int;
    assert(counts.take(n) =~= counts);
    law_chunks_lie_side_by_side(counts, k);
    lemma_total_grows(counts, k, n);
    lemma_total_step(counts, k);
    lemma_total_grows(counts, k + 1, n);
    if suffix < n {
        if k >= suffix {
            lemma_total_grows(counts, suffix + 1, k + 1);
        }
    }
}

/// A request gets a bounded wavefront exactly if it has several chunks, more rows
/// than a window holds and its tokens, and its rows and tasks can be counted.
pub proof fn law_bounded_requests_are_long(
    shape: RealFullSchedulerExecutionShape,
    layer_count: int,
)
    ensures
        bounded_setup_error(shape, layer_count) is None <==> {
            &&& 8_192 < request_rows(shape) <= usize::MAX
            &&& shape.counts().len() > 1
            &&& shape.prefill_token_ids is Some
            &&& layer_count * shape.counts().len() <= usize::MAX
        },
        bounded_setup_error(shape, layer_count) == Some(BoundedError::RowOverflow)
            <==> request_rows(shape) > usize::MAX,
        request_rows(shape) == shape.prefill_tokens + shape.decode_rows + shape.mtp_rows,
{
}

/// At a tapped boundary the retained chunks leave a layer one after the other, and
/// none enters the next layer before all have left.
pub open spec fn tap_order(w: BoundedPrefillWavefront) -> bool {
    &&& forall|l: int, c: int, k: int|
        #![trigger w.started_at(l, c), w.finished_at(l, k)]
        w.in_range(l, c) && w.tapped(l + 1) && w.tap_suffix_start <= k < c && w.started_at(l, c)
            ==> w.finished_at(l, k)
    &&& forall|l: int, c: int, k: int|
        #![trigger w.started_at(l, c), w.finished_at(l - 1, k)]
        w.in_range(l, c) && l > 0 && w.tapped(l) && w.tap_suffix_start <= c && w.tap_suffix_start
            <= k < w.chunk_count && w.started_at(l, c) ==> w.finished_at(l - 1, k)
}

/// A wavefront in which nothing has started is in tap order.
pub proof fn law_new_wavefront_is_in_tap_order(w: BoundedPrefillWavefront)
    requires
        forall|l: int, c: int| w.in_range(l, c) ==> !#[trigger] w.started_at(l, c),
    ensures
        tap_order(w),
{
}

/// Starting a task that may start, on a dense layer or on a sparse one, keeps the
/// tap order.
pub proof fn law_start_keeps_tap_order(
    before: BoundedPrefillWavefront,
    after: BoundedPrefillWavefront,
    task: SchedulerSparseWavefrontTask,
    action: BoundedStart,
)
    requires
        before.wf(),
        tap_order(before),
        before.first_eligible(task),
        start_ok(before, after, task, action),
    ensures
        tap_order(after),
{
    let l0 = task.layer_offset as int;
    let c0 = task.chunk_index as int;
    lemma_set(before, before.started@, after.started@, l0, c0);
    if action.dense {
        lemma_set(before, before.finished@, after.finished@, l0, c0);
    }
    assert(before.eligible(l0, c0));
    assert forall|l: int, c: int, k: int|
        #![trigger after.started_at(l, c), after.finished_at(l, k)]
        after.in_range(l, c) && after.tapped(l + 1) && after.tap_suffix_start <= k < c
            && after.started_at(l, c) implies after.finished_at(l, k) by {
        assert(cell(after.started@, l, c));
        if l == l0 && c == c0 {
            assert(before.previous_chunk_ready(l, c));
            assert(before.finished_at(l, c - 1));
            assert(before.started_at(l, c - 1));
            assert(before.finished_at(l, k));
            assert(cell(before.finished@, l, k));
        } else {
            assert(before.started_at(l, c));
            assert(before.finished_at(l, k));
            assert(cell(before.finished@, l, k));
        }
        assert(cell(after.finished@, l, k));
    }
    assert forall|l: int, c: int, k: int|
        #![trigger after.started_at(l, c), after.finished_at(l - 1, k)]
        after.in_range(l, c) && l > 0 && after.tapped(l) && after.tap_suffix_start <= c
            && after.tap_suffix_start <= k < after.chunk_count && after.started_at(l, c) implies
        after.finished_at(l - 1, k) by {
        assert(cell(after.started@, l, c));
        if l == l0 && c == c0 {
            assert(before.prior_tap_captured(l, c));
            assert(before.suffix_left(l - 1));
            assert(before.finished_at(l - 1, k));
        } else {
            assert(before.started_at(l, c));
            assert(before.finished_at(l - 1, k));
        }
        assert(cell(before.finished@, l - 1, k));
        assert(cell(after.finished@, l - 1, k));
    }
}

/// Setting one cell keeps all others.
proof fn lemma_set(
    w: BoundedPrefillWavefront,
    before: Seq<Vec<bool>>,
    after: Seq<Vec<bool>>,
    l0: int,
    c0: int,
)
    requires
        w.in_range(l0, c0),
        before.len() == w.layer_count,
        forall|r: int| 0 <= r < before.len() ==> (#[trigger] before[r])@.len() == w.chunk_count,
        cell_set(before, after, l0, c0),
    ensures
        forall|l: int, c: int|
            #![trigger cell(after, l, c)]
            #![trigger cell(before, l, c)]
            w.in_range(l, c) ==> cell(after, l, c) == (cell(before, l, c) || (l == l0 && c == c0)),
{
    assert(before[l0]@.len() == w.chunk_count);
    assert forall|l: int, c: int|
        #![trigger cell(after, l, c)]
        #![trigger cell(before, l, c)]
        w.in_range(l, c) implies cell(after, l, c) == (cell(before, l, c) || (l == l0 && c
        == c0)) by {
        if l != l0 {
            assert(after[l] == before[l]);
        }
    }
}

/// Finishing a task keeps the tap order.
pub proof fn law_finish_keeps_tap_order(
    before: BoundedPrefillWavefront,
    after: BoundedPrefillWavefront,
    index: int,
    done: BoundedFinish,
)
    requires
        before.wf(),
        tap_order(before),
        0 <= index < before.pending@.len(),
        finish_ok(before, after, index, done),
    ensures
        tap_order(after),
{
    let l0 = done.task.layer_offset as int;
    let c0 = done.task.chunk_index as int;
    lemma_set(before, before.finished@, after.finished@, l0, c0);
    assert forall|l: int, c: int, k: int|
        #![trigger after.started_at(l, c), after.finished_at(l, k)]
        after.in_range(l, c) && after.tapped(l + 1) && after.tap_suffix_start <= k < c
            && after.started_at(l, c) implies after.finished_at(l, k) by {
        assert(before.started_at(l, c));
        assert(before.finished_at(l, k));
        assert(cell(before.finished@, l, k));
        assert(cell(after.finished@, l, k));
    }
    assert forall|l: int, c: int, k: int|
        #![trigger after.started_at(l, c), after.finished_at(l - 1, k)]
        after.in_range(l, c) && l > 0 && after.tapped(l) && after.tap_suffix_start <= c
            && after.tap_suffix_start <= k < after.chunk_count && after.started_at(l, c) implies
        after.finished_at(l - 1, k) by {
        assert(before.started_at(l, c));
        assert(before.finished_at(l - 1, k));
        assert(cell(before.finished@, l - 1, k));
        assert(cell(after.finished@, l - 1, k));
    }
}

/// When the last chunk has left a layer in front of a tapped boundary, every
/// retained chunk stands there; and until then none of them has gone on, so that
/// the tap is captured of all retained rows at once.
pub proof fn law_tap_is_captured_of_all_retained_chunks(w: BoundedPrefillWavefront, l: int)
    requires
        w.wf(),
        tap_order(w),
        0 <= l < w.layer_count,
        w.tapped(l + 1),
        w.tap_suffix_start < w.chunk_count,
    ensures
        w.finished_at(l, w.chunk_count - 1) ==> forall|k: int|
            w.tap_suffix_start <= k < w.chunk_count ==> #[trigger] w.finished_at(l, k),
        !w.finished_at(l, w.chunk_count - 1) && l + 1 < w.layer_count ==> forall|k: int|
            w.tap_suffix_start <= k < w.chunk_count ==> !#[trigger] w.started_at(l + 1, k),
{
    let last = w.chunk_count - 1;
    if w.finished_at(l, last) {
        assert(w.in_range(l, last));
        assert(w.started_at(l, last));
    } else if l + 1 < w.layer_count {
        assert forall|k: int| w.tap_suffix_start <= k < w.chunk_count implies !#[trigger]
        w.started_at(l + 1, k) by {
            if w.started_at(l + 1, k) {
                assert(w.in_range(l + 1, k));
                assert(w.finished_at(l + 1 - 1, last));
            }
        }
    }
}

/// A chunk gives back on leaving the rows that it took on entering, the number of
/// chunks on the device follows, and both are the rows of that chunk.
pub proof fn law_chunk_releases_what_it_took(
    before: BoundedPrefillWavefront,
    entered: BoundedPrefillWavefront,
    task: SchedulerSparseWavefrontTask,
    action: BoundedStart,
    later: BoundedPrefillWavefront,
    left: BoundedPrefillWavefront,
    index: int,
    done: BoundedFinish,
)
    requires
        before.wf(),
        before.first_eligible(task),
        start_ok(before, entered, task, action),
        later.wf(),
        later.same_setup(&entered),
        0 <= index < later.pending@.len(),
        finish_ok(later, left, index, done),
        done.task.chunk_index == task.chunk_index,
        action.seed is Some,
        done.release is Some,
    ensures
        done.release == action.seed,
        action.seed == Some(before.chunk_rows@[task.chunk_index as int]),
        task.layer_offset == 0,
        done.task.layer_offset == before.layer_count - 1,
        entered.active_count == before.active_count + 1,
        left.active_count == later.active_count - 1,
        !before.active@[task.chunk_index as int],
{
}

/// A chunk takes rows exactly when it enters the first layer, and gives them back
/// exactly when it leaves the last; a tap is due exactly when the last chunk has
/// left a layer, and is that of the boundary behind it.
pub proof fn law_rows_are_taken_first_and_released_last(
    before: BoundedPrefillWavefront,
    after: BoundedPrefillWavefront,
    task: SchedulerSparseWavefrontTask,
    action: BoundedStart,
    later: BoundedPrefillWavefront,
    left: BoundedPrefillWavefront,
    index: int,
    done: BoundedFinish,
)
    requires
        before.wf(),
        before.first_eligible(task),
        start_ok(before, after, task, action),
        later.wf(),
        0 <= index < later.pending@.len(),
        finish_ok(later, left, index, done),
    ensures
        action.seed is Some <==> task.layer_offset == 0 && !before.active@[task.chunk_index as int],
        done.release is Some <==> done.task.layer_offset == later.layer_count - 1,
        action.capture_tap is Some <==> after.finished_at(
            task.layer_offset as int,
            task.chunk_index as int,
        ) && task.chunk_index == before.chunk_count - 1,
        action.capture_tap is Some ==> action.capture_tap->0 == task.layer_offset + 1,
        done.capture_tap is Some <==> done.task.chunk_index == later.chunk_count - 1,
        done.capture_tap is Some ==> done.capture_tap->0 == done.task.layer_offset + 1,
        left.finished_at(done.task.layer_offset as int, done.task.chunk_index as int),
        after.started_at(task.layer_offset as int, task.chunk_index as int),
        after.pending@.len() + after.completed == before.pending@.len() + before.completed + 1,
        left.pending@.len() + left.completed == later.pending@.len() + later.completed,
{
    let l = task.layer_offset as int;
    let c = task.chunk_index as int;
    assert(before.in_range(l, c) && before.eligible(l, c));
    lemma_set(before, before.started@, after.started@, l, c);
    assert(cell(after.started@, l, c));
    assert(!before.finished_at(l, c));
    if action.dense {
        lemma_set(before, before.finished@, after.finished@, l, c);
        assert(cell(after.finished@, l, c));
    }
    let l1 = done.task.layer_offset as int;
    let c1 = done.task.chunk_index as int;
    assert(later.in_range(l1, c1));
    lemma_set(later, later.finished@, left.finished@, l1, c1);
    assert(cell(left.finished@, l1, c1));
}

} // verus!
