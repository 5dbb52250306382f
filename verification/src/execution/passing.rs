//! How chunks pass the sparse layers, whichever wavefront takes them: the same
//! layers, the same taps, and a layer that is opened once, planned once and
//! retired when its last chunk has left it.
use vstd::prelude::*;

use crate::execution::bounded::{finish_ok, BoundedFinish, BoundedPrefillWavefront};
use crate::execution::rolling::{
    admission_ok, chunk_started, layer_retired, newly_completed, progress_recorded,
    RollingAdmission, RollingError, RollingStart, RollingWavefront,
};
use crate::execution::wavefront::{
    task_ready, wave_finished, wave_started, FinishedTask, SchedulerSparseWavefrontTask,
    SparseChunkWavefront,
};
use crate::grid::cell;

verus! {

/// When the last chunk leaves a layer of the model, every wavefront has the state
/// behind that layer captured, and no other; when another chunk leaves, none is.
pub proof fn law_taps_are_those_of_the_model(
    model_layer: int,
    chunk: int,
    bounded: BoundedPrefillWavefront,
    bounded_after: BoundedPrefillWavefront,
    bounded_index: int,
    bounded_done: BoundedFinish,
    chunked: SparseChunkWavefront,
    chunked_after: SparseChunkWavefront,
    chunked_index: int,
    chunked_done: FinishedTask,
    rolling: RollingWavefront,
    rolling_after: RollingWavefront,
    progress: bool,
    tap: Option<usize>,
)
    requires
        0 <= model_layer < usize::MAX,
        finish_ok(bounded, bounded_after, bounded_index, bounded_done),
        bounded_done.task.layer_offset == model_layer,
        bounded_done.task.chunk_index == chunk,
        wave_finished(chunked, chunked_after, chunked_index, chunked_done),
        chunked.first_sparse_layer + chunked_done.task.layer_offset == model_layer,
        chunked_done.task.chunk_index == chunk,
        rolling.first_sparse_layer <= model_layer,
        progress_recorded(
            rolling,
            rolling_after,
            model_layer - rolling.first_sparse_layer,
            progress,
            seq![chunk as usize],
            Ok(tap),
        ),
        bounded.chunk_count == chunked.chunk_count,
        chunked.chunk_count == rolling.chunk_count,
        rolling.chunk_count > 0,
    ensures
        chunked_done.layer_id == model_layer,
        bounded_done.capture_tap == chunked_done.capture_tap,
        tap == chunked_done.capture_tap,
        tap is Some <==> chunk == rolling.chunk_count - 1,
        tap matches Some(layer) ==> layer == model_layer + 1,
{
    let reported = seq![chunk as usize];
    assert(reported[0] == chunk as usize);
    let last = (rolling.chunk_count - 1) as usize;
    if chunk == last {
        assert(reported.contains(last));
    }
    if reported.contains(last) {
        assert(chunk as usize == last);
    }
}

/// A chunk is admitted only to a layer below the last, once it has left the layer
/// before and behind the chunk before it; its layer is planned with the first chunk
/// and closed with the last.
pub proof fn law_admitted_chunk_is_next(
    w: RollingWavefront,
    buffered: usize,
    start: RollingStart,
)
    requires
        w.wf(),
        admission_ok(w, buffered, RollingAdmission::Admit(start)),
    ensures
        ({
            let l = start.task.layer_offset as int;
            let c = start.task.chunk_index as int;
            &&& w.in_range(l, c)
            &&& w.first_sparse_layer <= start.layer_id < w.first_sparse_layer + w.layer_count
            &&& start.layer_id - w.first_sparse_layer == l
            &&& !cell(w.started@, l, c)
            &&& l > 0 ==> cell(w.finished@, l - 1, c)
            &&& c > 0 ==> cell(w.started@, l, c - 1)
            &&& start.plan_layer <==> c == 0
            &&& start.final_chunk <==> c == w.chunk_count - 1
            &&& buffered < 16
        }),
{
}

/// A layer is opened when a chunk is admitted to it that does not hold it, is held
/// from then on, and opened anew only after it was retired.
pub proof fn law_layers_are_opened_once(
    w: RollingWavefront,
    buffered: usize,
    start: RollingStart,
    after: RollingWavefront,
    later_buffered: usize,
    later: RollingStart,
    retired: RollingWavefront,
)
    requires
        w.wf(),
        admission_ok(w, buffered, RollingAdmission::Admit(start)),
        chunk_started(w, after, start.task),
        admission_ok(after, later_buffered, RollingAdmission::Admit(later)),
        later.task.layer_offset == start.task.layer_offset,
        layer_retired(after, retired, start.task.layer_offset as int, Ok(())),
    ensures
        start.open_layer <==> !w.held@[start.task.layer_offset as int],
        after.held@[start.task.layer_offset as int],
        !later.open_layer,
        !retired.held@[start.task.layer_offset as int],
        cell(
            after.started@,
            start.task.layer_offset as int,
            start.task.chunk_index as int,
        ),
{
    let l = start.task.layer_offset as int;
    let c = start.task.chunk_index as int;
    assert(w.started@[l]@.len() == w.chunk_count);
}

/// A layer is retired exactly if every chunk has left it, and retiring it changes
/// no other.
pub proof fn law_layers_are_retired_when_all_chunks_left(
    before: RollingWavefront,
    after: RollingWavefront,
    layer_offset: int,
    result: Result<(), RollingError>,
    other: int,
)
    requires
        before.wf(),
        0 <= layer_offset < before.layer_count,
        0 <= other < before.layer_count,
        layer_retired(before, after, layer_offset, result),
    ensures
        result is Ok <==> forall|c: int|
            0 <= c < before.chunk_count ==> #[trigger] cell(before.finished@, layer_offset, c),
        result is Ok ==> !after.held@[layer_offset],
        other != layer_offset ==> after.held@[other] == before.held@[other],
        result is Err ==> after.held@ == before.held@,
        after.finished == before.finished,
        after.started == before.started,
{
}

/// Progress counts each reported chunk once, marks it and nothing else, and is
/// refused for a chunk that left before, is reported twice or is none of the
/// request's.
pub proof fn law_progress_counts_each_chunk_once(
    before: RollingWavefront,
    after: RollingWavefront,
    layer_offset: int,
    made_progress: bool,
    chunk: usize,
    result: Result<Option<usize>, RollingError>,
)
    requires
        before.wf(),
        0 <= layer_offset < before.layer_count,
        progress_recorded(before, after, layer_offset, made_progress, seq![chunk], result),
    ensures
        result is Ok <==> chunk < before.chunk_count && !cell(
            before.finished@,
            layer_offset,
            chunk as int,
        ),
        result is Ok ==> after.completed == before.completed + 1,
        result is Ok ==> cell(after.finished@, layer_offset, chunk as int),
        result is Ok ==> forall|l: int, c: int|
            before.in_range(l, c) && (l != layer_offset || c != chunk) ==> #[trigger] cell(
                after.finished@,
                l,
                c,
            ) == cell(before.finished@, l, c),
        after.made_progress <==> before.made_progress || made_progress,
{
    let reported = seq![chunk];
    assert(reported.contains(chunk)) by {
        assert(reported[0] == chunk);
    }
    if chunk < before.chunk_count && !cell(before.finished@, layer_offset, chunk as int) {
        assert forall|i: int| 0 <= i < reported.len() implies #[trigger]
        newly_completed(
            before.finished@,
            layer_offset,
            before.chunk_count as int,
            reported,
            i,
        ) by {
            assert(i == 0);
        }
    }
    if result is Ok {
        assert(newly_completed(
            before.finished@,
            layer_offset,
            before.chunk_count as int,
            reported,
            0,
        ));
        assert(before.in_range(layer_offset, chunk as int));
        assert forall|l: int, c: int|
            before.in_range(l, c) && (l != layer_offset || c != chunk) implies #[trigger] cell(
            after.finished@,
            l,
            c,
        ) == cell(before.finished@, l, c) by {
            if l == layer_offset && reported.contains(c as usize) {
                assert(c as usize == chunk);
            }
        }
    }
}

/// Starting and finishing a task of a chunked wavefront moves it from the tasks
/// that may start to those under way, and from there to those that are done.
pub proof fn law_tasks_pass_from_ready_to_done(
    before: SparseChunkWavefront,
    started: SparseChunkWavefront,
    task: SchedulerSparseWavefrontTask,
    finished: SparseChunkWavefront,
    done: FinishedTask,
)
    requires
        before.wf(),
        before.in_range(task.layer_offset as int, task.chunk_index as int),
        task_ready(
            before.started@,
            before.finished@,
            task.layer_offset as int,
            task.chunk_index as int,
        ),
        wave_started(before, started, task),
        wave_finished(started, finished, before.pending@.len() as int, done),
    ensures
        done.task == task,
        done.layer_id == before.first_sparse_layer + task.layer_offset,
        started.pending@.contains(task),
        finished.pending@ =~= before.pending@,
        finished.completed == before.completed + 1,
        cell(started.started@, task.layer_offset as int, task.chunk_index as int),
        cell(finished.finished@, task.layer_offset as int, task.chunk_index as int),
        started.finished == before.finished,
        finished.started == started.started,
{
    let l = task.layer_offset as int;
    let c = task.chunk_index as int;
    assert(before.started@[l]@.len() == before.chunk_count);
    assert(before.finished@[l]@.len() == before.chunk_count);
    assert(started.pending@[before.pending@.len() as int] == task);
}

} // verus!
