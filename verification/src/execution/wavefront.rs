//! The sparse chunk wavefront: every chunk passes every layer, a chunk enters a
//! layer after it has left the layer below and after its predecessor entered.
use vstd::prelude::*;

use crate::grid::{cell, cell_set, grid_count, grid_shape, new_grid, set_cell};
use crate::grid::{lemma_grid_count_bound, lemma_grid_count_set};

verus! {

/// The most dispatches that are under way at one time.
pub const MAX_PENDING_SPARSE_WAVEFRONT_DISPATCHES: usize = 4;

/// One chunk at one layer, counted from the first layer of the wavefront.
#[derive(Clone, Copy, Debug, PartialEq, Eq, Structural)]
pub struct SchedulerSparseWavefrontTask {
    pub layer_offset: usize,
    pub chunk_index: usize,
}

/// The order in which ready tasks are taken: by diagonal, then by layer, then
/// by chunk.
pub open spec fn task_before(l1: int, c1: int, l2: int, c2: int) -> bool {
    ||| l1 + c1 < l2 + c2
    ||| l1 + c1 == l2 + c2 && l1 < l2
    ||| l1 == l2 && c1 < c2
}

/// The task may start: it has not started, its chunk has left the layer below
/// and the chunk before it has entered the layer.
pub open spec fn task_ready(
    started: Seq<Vec<bool>>,
    finished: Seq<Vec<bool>>,
    l: int,
    c: int,
) -> bool {
    &&& !cell(started, l, c)
    &&& l == 0 || cell(finished, l - 1, c)
    &&& c == 0 || cell(started, l, c - 1)
}

/// `task` is the first of all ready tasks.
pub open spec fn first_ready(
    started: Seq<Vec<bool>>,
    finished: Seq<Vec<bool>>,
    layers: int,
    chunks: int,
    task: SchedulerSparseWavefrontTask,
) -> bool {
    let l0 = task.layer_offset as int;
    let c0 = task.chunk_index as int;
    &&& l0 < layers
    &&& c0 < chunks
    &&& task_ready(started, finished, l0, c0)
    &&& forall|l: int, c: int|
        0 <= l < layers && 0 <= c < chunks && #[trigger] task_ready(started, finished, l, c) ==> (l
            == l0 && c == c0) || task_before(l0, c0, l, c)
}

/// The columns of a grid, as its first row has them.
pub open spec fn grid_cols(grid: Seq<Vec<bool>>) -> int {
    if grid.len() == 0 {
        0
    } else {
        grid[0]@.len() as int
    }
}

fn task_is_before(a: SchedulerSparseWavefrontTask, b: SchedulerSparseWavefrontTask) -> (r: bool)
    requires
        a.layer_offset + a.chunk_index <= usize::MAX,
        b.layer_offset + b.chunk_index <= usize::MAX,
    ensures
        r == task_before(
            a.layer_offset as int,
            a.chunk_index as int,
            b.layer_offset as int,
            b.chunk_index as int,
        ),
{
    let left: usize = a.layer_offset + a.chunk_index;
    let right: usize = b.layer_offset + b.chunk_index;
    left < right || (left == right && a.layer_offset < b.layer_offset) || (a.layer_offset
        == b.layer_offset && a.chunk_index < b.chunk_index)
}

/// The first task that may start, by diagonal.
pub fn next_ready_sparse_wavefront_task(started: &[Vec<bool>], finished: &[Vec<bool>]) -> (task:
    Option<SchedulerSparseWavefrontTask>)
    requires
        grid_shape(started@, started@.len() as int, grid_cols(started@)),
        grid_shape(finished@, started@.len() as int, grid_cols(started@)),
        started@.len() + grid_cols(started@) <= usize::MAX,
    ensures
        match task {
            Some(t) => first_ready(
                started@,
                finished@,
                started@.len() as int,
                grid_cols(started@),
                t,
            ),
            None => forall|l: int, c: int|
                0 <= l < started@.len() && 0 <= c < grid_cols(started@) ==> !#[trigger] task_ready(
                    started@,
                    finished@,
                    l,
                    c,
                ),
        },
{
    let layer_count: usize = started.len();
    let chunk_count: usize = if layer_count == 0 {
        0
    } else {
        started[0].len()
    };
    let mut best: Option<SchedulerSparseWavefrontTask> = None;
    let mut layer: usize = 0;
    while layer < layer_count
        invariant
            layer <= layer_count,
            layer_count == started@.len(),
            chunk_count == grid_cols(started@),
            grid_shape(started@, layer_count as int, chunk_count as int),
            grid_shape(finished@, layer_count as int, chunk_count as int),
            layer_count + chunk_count <= usize::MAX,
            match best {
                Some(t) => first_ready(
                    started@,
                    finished@,
                    layer as int,
                    chunk_count as int,
                    t,
                ),
                None => forall|l: int, c: int|
                    0 <= l < layer && 0 <= c < chunk_count ==> !#[trigger] task_ready(
                        started@,
                        finished@,
                        l,
                        c,
                    ),
            },
        decreases layer_count - layer,
    {
        let mut chunk: usize = 0;
        while chunk < chunk_count
            invariant
                layer < layer_count,
                chunk <= chunk_count,
                layer_count == started@.len(),
                grid_shape(started@, layer_count as int, chunk_count as int),
                grid_shape(finished@, layer_count as int, chunk_count as int),
                layer_count + chunk_count <= usize::MAX,
                match best {
                    Some(t) => {
                        let l0 = t.layer_offset as int;
                        let c0 = t.chunk_index as int;
                        &&& l0 <= layer
                        &&& c0 < chunk_count
                        &&& l0 < layer || c0 < chunk
                        &&& task_ready(started@, finished@, l0, c0)
                        &&& forall|l: int, c: int|
                            0 <= l <= layer && 0 <= c < chunk_count && (l < layer || c < chunk)
                                && #[trigger] task_ready(started@, finished@, l, c) ==> (l == l0
                                && c == c0) || task_before(l0, c0, l, c)
                    },
                    None => forall|l: int, c: int|
                        0 <= l <= layer && 0 <= c < chunk_count && (l < layer || c < chunk)
                            ==> !#[trigger] task_ready(started@, finished@, l, c),
                },
            decreases chunk_count - chunk,
        {
            assert(started@[layer as int]@.len() == chunk_count);
            let own_previous_layer_finished: bool = if layer == 0 {
                true
            } else {
                assert(finished@[layer - 1]@.len() == chunk_count);
                finished[layer - 1][chunk]
            };
            let previous_chunk_started: bool = if chunk == 0 {
                true
            } else {
                started[layer][chunk - 1]
            };
            let ready: bool = !started[layer][chunk] && own_previous_layer_finished
                && previous_chunk_started;
            assert(ready == task_ready(started@, finished@, layer as int, chunk as int));
            if ready {
                let candidate = SchedulerSparseWavefrontTask {
                    layer_offset: layer,
                    chunk_index: chunk,
                };
                let better: bool = match best {
                    Some(current) => task_is_before(candidate, current),
                    None => true,
                };
                if better {
                    best = Some(candidate);
                }
            }
            chunk = chunk + 1;
        }
        layer = layer + 1;
    }
    best
}

/// Below and before any unfinished task lies one whose own predecessors, in the
/// layer below and in the chunk before, are finished.
pub proof fn lemma_lowest_unfinished(finished: Seq<Vec<bool>>, l: int, c: int) -> (lowest: (
    int,
    int,
))
    requires
        0 <= l,
        0 <= c,
        !cell(finished, l, c),
    ensures
        0 <= lowest.0 <= l,
        0 <= lowest.1 <= c,
        !cell(finished, lowest.0, lowest.1),
        lowest.0 == 0 || cell(finished, lowest.0 - 1, lowest.1),
        lowest.1 == 0 || cell(finished, lowest.0, lowest.1 - 1),
    decreases l + c,
{
    if l > 0 && !cell(finished, l - 1, c) {
        lemma_lowest_unfinished(finished, l - 1, c)
    } else if c > 0 && !cell(finished, l, c - 1) {
        lemma_lowest_unfinished(finished, l, c - 1)
    } else {
        (l, c)
    }
}

/// With nothing under way and a task unfinished, some task is ready: whatever
/// started has finished, so nothing has to be waited for.
pub proof fn law_some_task_is_ready_when_none_is_under_way(
    started: Seq<Vec<bool>>,
    finished: Seq<Vec<bool>>,
    layers: int,
    chunks: int,
    l0: int,
    c0: int,
)
    requires
        forall|l: int, c: int|
            0 <= l < layers && 0 <= c < chunks ==> #[trigger] cell(started, l, c) == cell(
                finished,
                l,
                c,
            ),
        0 <= l0 < layers,
        0 <= c0 < chunks,
        !cell(finished, l0, c0),
    ensures
        exists|l: int, c: int|
            0 <= l < layers && 0 <= c < chunks && #[trigger] task_ready(started, finished, l, c),
{
    let (l, c) = lemma_lowest_unfinished(finished, l0, c0);
    assert(cell(started, l, c) == cell(finished, l, c));
    if c > 0 {
        assert(cell(started, l, c - 1) == cell(finished, l, c - 1));
    }
    assert(task_ready(started, finished, l, c));
}

/// Of two different tasks one comes before the other, and never both: the
/// order compares diagonals, on one diagonal layers, and in one layer chunks.
pub proof fn law_task_order_is_total(l1: int, c1: int, l2: int, c2: int)
    ensures
        (l1 == l2 && c1 == c2) || task_before(l1, c1, l2, c2) || task_before(l2, c2, l1, c1),
        !(task_before(l1, c1, l2, c2) && task_before(l2, c2, l1, c1)),
        task_before(l1, c1, l2, c2) <==> l1 + c1 < l2 + c2 || (l1 + c1 == l2 + c2 && (l1 < l2 || (
        l1 == l2 && c1 < c2))),
{
}

/// Why a wavefront cannot be set up.
#[derive(Clone, Copy, Debug, PartialEq, Eq, Structural)]
pub enum WavefrontError {
    TooFewChunks,
    TaskCountOverflow,
}

impl WavefrontError {
    pub open spec fn text(self) -> Seq<char> {
        match self {
            WavefrontError::TooFewChunks =>
                "sparse chunk wavefront requires at least two prefill chunks"@,
            WavefrontError::TaskCountOverflow => "sparse wavefront task count overflow"@,
        }
    }

    pub fn message(&self) -> (out: String)
        ensures
            out@ == self.text(),
    {
        match self {
            WavefrontError::TooFewChunks => {
                "sparse chunk wavefront requires at least two prefill chunks".to_owned()
            },
            WavefrontError::TaskCountOverflow => "sparse wavefront task count overflow".to_owned(),
        }
    }
}

/// What a wavefront does next once nothing more can start.
#[derive(Clone, Copy, Debug, PartialEq, Eq, Structural)]
pub enum WavefrontVerdict {
    Done,
    Working,
    Stalled,
}

/// A finished task: its layer in the model, and the layer whose hidden state
/// is to be captured where the task was the last chunk of its layer.
#[derive(Clone, Copy, Debug, PartialEq, Eq, Structural)]
pub struct FinishedTask {
    pub task: SchedulerSparseWavefrontTask,
    pub layer_id: usize,
    pub capture_tap: Option<usize>,
}

/// The state of a sparse chunk wavefront.
pub struct SparseChunkWavefront {
    pub first_sparse_layer: usize,
    pub layer_count: usize,
    pub chunk_count: usize,
    pub started: Vec<Vec<bool>>,
    pub finished: Vec<Vec<bool>>,
    pub pending: Vec<SchedulerSparseWavefrontTask>,
    pub completed: usize,
}

/// The task at layer `l`, chunk `c`.
pub open spec fn task_at(l: int, c: int) -> SchedulerSparseWavefrontTask {
    SchedulerSparseWavefrontTask { layer_offset: l as usize, chunk_index: c as usize }
}

/// What starting a task does to a wavefront.
pub open spec fn wave_started(
    before: SparseChunkWavefront,
    after: SparseChunkWavefront,
    task: SchedulerSparseWavefrontTask,
) -> bool {
    &&& cell_set(
        before.started@,
        after.started@,
        task.layer_offset as int,
        task.chunk_index as int,
    )
    &&& after.finished == before.finished
    &&& after.pending@ == before.pending@.push(task)
    &&& after.completed == before.completed
    &&& after.first_sparse_layer == before.first_sparse_layer
    &&& after.layer_count == before.layer_count
    &&& after.chunk_count == before.chunk_count
}

/// What finishing the dispatch at `index` does, and what it says.
pub open spec fn wave_finished(
    before: SparseChunkWavefront,
    after: SparseChunkWavefront,
    index: int,
    done: FinishedTask,
) -> bool {
    &&& done.task == before.pending@[index]
    &&& done.layer_id == before.first_sparse_layer + done.task.layer_offset
    &&& done.capture_tap == (if done.task.chunk_index + 1 == before.chunk_count {
        Some((done.layer_id + 1) as usize)
    } else {
        None
    })
    &&& cell_set(
        before.finished@,
        after.finished@,
        done.task.layer_offset as int,
        done.task.chunk_index as int,
    )
    &&& after.started == before.started
    &&& after.pending@ == before.pending@.remove(index)
    &&& after.completed == before.completed + 1
    &&& after.first_sparse_layer == before.first_sparse_layer
    &&& after.layer_count == before.layer_count
    &&& after.chunk_count == before.chunk_count
}

impl SparseChunkWavefront {
    pub open spec fn in_range(&self, l: int, c: int) -> bool {
        0 <= l < self.layer_count && 0 <= c < self.chunk_count
    }

    /// The pending list holds exactly the tasks that started and have not
    /// finished, each once.
    pub open spec fn pending_exact(&self) -> bool {
        &&& self.pending@.no_duplicates()
        &&& forall|i: int|
            0 <= i < self.pending@.len() ==> self.in_range(
                (#[trigger] self.pending@[i]).layer_offset as int,
                self.pending@[i].chunk_index as int,
            )
        &&& forall|l: int, c: int|
            #![trigger cell(self.started@, l, c)]
            #![trigger cell(self.finished@, l, c)]
            self.in_range(l, c) ==> (self.pending@.contains(task_at(l, c)) <==> cell(
                self.started@,
                l,
                c,
            ) && !cell(self.finished@, l, c))
    }

    /// Layers and chunks were entered in order.
    pub open spec fn in_order(&self) -> bool {
        &&& forall|l: int, k: int, c: int|
            #![trigger cell(self.started@, l, c), cell(self.finished@, k, c)]
            self.in_range(l, c) && 0 <= k < l && cell(self.started@, l, c) ==> cell(
                self.finished@,
                k,
                c,
            )
        &&& forall|l: int, c: int, d: int|
            #![trigger cell(self.started@, l, c), cell(self.started@, l, d)]
            self.in_range(l, c) && 0 <= d < c && cell(self.started@, l, c) ==> cell(
                self.started@,
                l,
                d,
            )
    }

    pub open spec fn wf(&self) -> bool {
        &&& grid_shape(self.started@, self.layer_count as int, self.chunk_count as int)
        &&& grid_shape(self.finished@, self.layer_count as int, self.chunk_count as int)
        &&& self.chunk_count >= 2
        &&& self.layer_count + self.chunk_count <= usize::MAX
        &&& self.first_sparse_layer + self.layer_count < usize::MAX
        &&& self.layer_count * self.chunk_count <= usize::MAX
        &&& forall|l: int, c: int|
            self.in_range(l, c) && #[trigger] cell(self.finished@, l, c) ==> cell(
                self.started@,
                l,
                c,
            )
        &&& self.pending_exact()
        &&& self.in_order()
        &&& self.pending@.len() <= MAX_PENDING_SPARSE_WAVEFRONT_DISPATCHES
        &&& self.completed == grid_count(self.finished@)
    }

    /// Every chunk has left every layer.
    pub open spec fn all_finished(&self) -> bool {
        forall|l: int, c: int| self.in_range(l, c) ==> #[trigger] cell(self.finished@, l, c)
    }

    /// A wavefront over the layers from `first_sparse_layer` on, nothing
    /// started. At least two chunks are needed.
    pub fn new(
        first_sparse_layer: usize,
        model_hidden_layers: usize,
        chunk_count: usize,
    ) -> (result: Result<Self, WavefrontError>)
        requires
            first_sparse_layer <= model_hidden_layers < usize::MAX,
            model_hidden_layers + chunk_count <= usize::MAX,
        ensures
            result is Ok <==> chunk_count >= 2 && (model_hidden_layers - first_sparse_layer)
                * chunk_count <= usize::MAX,
            result matches Err(e) ==> e == (if chunk_count < 2 {
                WavefrontError::TooFewChunks
            } else {
                WavefrontError::TaskCountOverflow
            }),
            result matches Ok(w) ==> {
                &&& w.wf()
                &&& w.first_sparse_layer == first_sparse_layer
                &&& w.layer_count == model_hidden_layers - first_sparse_layer
                &&& w.chunk_count == chunk_count
                &&& w.completed == 0
                &&& w.pending@.len() == 0
                &&& forall|l: int, c: int|
                    w.in_range(l, c) ==> !#[trigger] cell(w.started@, l, c)
            },
    {
        if chunk_count < 2 {
            return Err(WavefrontError::TooFewChunks);
        }
        let layer_count: usize = model_hidden_layers - first_sparse_layer;
        match layer_count.checked_mul(chunk_count) {
            None => Err(WavefrontError::TaskCountOverflow),
            Some(_) => {
                let started: Vec<Vec<bool>> = new_grid(layer_count, chunk_count);
                let finished: Vec<Vec<bool>> = new_grid(layer_count, chunk_count);
                Ok(
                    SparseChunkWavefront {
                        first_sparse_layer,
                        layer_count,
                        chunk_count,
                        started,
                        finished,
                        pending: Vec::new(),
                        completed: 0,
                    },
                )
            },
        }
    }

    /// The next task to start: the first ready one, while fewer than the most
    /// dispatches are under way.
    pub fn next_start(&self) -> (task: Option<SchedulerSparseWavefrontTask>)
        requires
            self.wf(),
        ensures
            self.pending@.len() >= MAX_PENDING_SPARSE_WAVEFRONT_DISPATCHES ==> task is None,
            self.pending@.len() < MAX_PENDING_SPARSE_WAVEFRONT_DISPATCHES ==> match task {
                Some(t) => first_ready(
                    self.started@,
                    self.finished@,
                    self.layer_count as int,
                    self.chunk_count as int,
                    t,
                ),
                None => forall|l: int, c: int|
                    self.in_range(l, c) ==> !#[trigger] task_ready(
                        self.started@,
                        self.finished@,
                        l,
                        c,
                    ),
            },
    {
        if self.pending.len() >= MAX_PENDING_SPARSE_WAVEFRONT_DISPATCHES || self.layer_count == 0 {
            return None;
        }
        assert(self.started@[0]@.len() == self.chunk_count);
        next_ready_sparse_wavefront_task(self.started.as_slice(), self.finished.as_slice())
    }

    /// Records that a ready task was dispatched.
    #[verifier::rlimit(60)]
    #[verifier::spinoff_prover]
    pub fn start(&mut self, task: SchedulerSparseWavefrontTask)
        requires
            old(self).wf(),
            old(self).pending@.len() < MAX_PENDING_SPARSE_WAVEFRONT_DISPATCHES,
            old(self).in_range(task.layer_offset as int, task.chunk_index as int),
            task_ready(
                old(self).started@,
                old(self).finished@,
                task.layer_offset as int,
                task.chunk_index as int,
            ),
        ensures
            final(self).wf(),
            wave_started(*old(self), *final(self), task),
    {
        let ghost before = *self;
        let ghost tl = task.layer_offset as int;
        let ghost tc = task.chunk_index as int;
        proof {
            assert(before.started@[tl]@.len() == self.chunk_count);
            assert(task == task_at(tl, tc));
            assert(!before.pending@.contains(task)) by {
                assert(!cell(before.started@, tl, tc));
            }
        }
        set_cell(&mut self.started, task.layer_offset, task.chunk_index);
        self.pending.push(task);
        proof {
            assert forall|l: int, c: int| before.in_range(l, c) implies (#[trigger] cell(
                self.started@,
                l,
                c,
            ) <==> cell(before.started@, l, c) || (l == tl && c == tc)) by {
                if l != tl {
                    assert(self.started@[l] == before.started@[l]);
                }
            }
            assert(grid_shape(self.started@, self.layer_count as int, self.chunk_count as int)) by {
                assert forall|r: int| 0 <= r < self.layer_count implies (#[trigger]
                self.started@[r])@.len() == self.chunk_count by {
                    if r != tl {
                        assert(self.started@[r] == before.started@[r]);
                    }
                }
            }
            assert forall|l: int, c: int| self.in_range(l, c) implies (
            self.pending@.contains(task_at(l, c)) <==> #[trigger] cell(self.started@, l, c) && !cell(
                self.finished@,
                l,
                c,
            )) by {
                let here = task_at(l, c);
                assert(cell(before.started@, l, c) || !cell(before.started@, l, c));
                if before.pending@.contains(here) {
                    let i = choose|i: int|
                        0 <= i < before.pending@.len() && before.pending@[i] == here;
                    assert(self.pending@[i] == here);
                }
                if l == tl && c == tc {
                    assert(self.pending@[before.pending@.len() as int] == here);
                    assert(!cell(before.finished@, l, c));
                }
                if self.pending@.contains(here) {
                    let i = choose|i: int| 0 <= i < self.pending@.len() && self.pending@[i] == here;
                    if i < before.pending@.len() {
                        assert(before.pending@[i] == here);
                    } else {
                        assert(here == task);
                        assert(l == tl && c == tc);
                    }
                }
            }
            assert forall|l: int, c: int|
                self.in_range(l, c) && #[trigger] cell(self.finished@, l, c) implies cell(
                self.started@,
                l,
                c,
            ) by {
                assert(cell(before.finished@, l, c));
                assert(cell(before.started@, l, c));
            }
            assert forall|i: int| 0 <= i < self.pending@.len() implies self.in_range(
                (#[trigger] self.pending@[i]).layer_offset as int,
                self.pending@[i].chunk_index as int,
            ) by {
                if i < before.pending@.len() {
                    assert(self.pending@[i] == before.pending@[i]);
                }
            }
            assert forall|l: int, k: int, c: int|
                #![trigger cell(self.started@, l, c), cell(self.finished@, k, c)]
                self.in_range(l, c) && 0 <= k < l && cell(self.started@, l, c) implies cell(
                self.finished@,
                k,
                c,
            ) by {
                assert(before.in_range(k, c));
                if l == tl && c == tc {
                    assert(before.in_range(tl - 1, tc));
                    assert(cell(before.finished@, tl - 1, tc));
                    assert(cell(before.started@, tl - 1, tc));
                } else {
                    assert(cell(before.started@, l, c));
                }
                assert(cell(before.finished@, k, c));
            }
            assert forall|l: int, c: int, d: int|
                #![trigger cell(self.started@, l, c), cell(self.started@, l, d)]
                self.in_range(l, c) && 0 <= d < c && cell(self.started@, l, c) implies cell(
                self.started@,
                l,
                d,
            ) by {
                assert(before.in_range(l, d));
                if l == tl && c == tc {
                    assert(before.in_range(tl, tc - 1));
                    assert(cell(before.started@, tl, tc - 1));
                } else {
                    assert(cell(before.started@, l, c));
                }
                assert(cell(before.started@, l, d));
            }
        }
    }

    /// Records that the pending task at `index` finished and takes it out of
    /// the pending list.
    #[verifier::rlimit(60)]
    #[verifier::spinoff_prover]
    pub fn finish(&mut self, index: usize) -> (done: FinishedTask)
        requires
            old(self).wf(),
            index < old(self).pending@.len(),
        ensures
            final(self).wf(),
            wave_finished(*old(self), *final(self), index as int, done),
    {
        let ghost before = *self;
        let task = self.pending.remove(index);
        let ghost tl = task.layer_offset as int;
        let ghost tc = task.chunk_index as int;
        proof {
            assert(task == before.pending@[index as int]);
            assert(before.in_range(tl, tc));
            assert(task == task_at(tl, tc));
            assert(before.pending@.contains(task));
            assert(cell(before.started@, tl, tc) && !cell(before.finished@, tl, tc));
            assert(before.finished@[tl]@.len() == self.chunk_count);
        }
        set_cell(&mut self.finished, task.layer_offset, task.chunk_index);
        proof {
            lemma_grid_count_set(before.finished@, self.finished@, tl, tc);
            assert(grid_shape(self.finished@, self.layer_count as int, self.chunk_count as int)) by {
                assert forall|r: int| 0 <= r < self.layer_count implies (#[trigger]
                self.finished@[r])@.len() == self.chunk_count by {
                    if r != tl {
                        assert(self.finished@[r] == before.finished@[r]);
                    }
                }
            }
            lemma_grid_count_bound(self.finished@, self.chunk_count as int);
        }
        self.completed = self.completed + 1;
        proof {
            before.lemma_after_finish(*self, index as int);
        }
        let layer_id: usize = self.first_sparse_layer + task.layer_offset;
        let capture_tap: Option<usize> = if task.chunk_index + 1 == self.chunk_count {
            Some(layer_id + 1)
        } else {
            None
        };
        FinishedTask { task, layer_id, capture_tap }
    }

    proof fn lemma_after_finish(&self, now: SparseChunkWavefront, index: int)
        requires
            self.wf(),
            0 <= index < self.pending@.len(),
            now.first_sparse_layer == self.first_sparse_layer,
            now.layer_count == self.layer_count,
            now.chunk_count == self.chunk_count,
            now.started == self.started,
            now.pending@ == self.pending@.remove(index),
            cell_set(
                self.finished@,
                now.finished@,
                self.pending@[index].layer_offset as int,
                self.pending@[index].chunk_index as int,
            ),
            grid_shape(now.finished@, self.layer_count as int, self.chunk_count as int),
            grid_count(now.finished@) == grid_count(self.finished@) + 1,
            now.completed == self.completed + 1,
        ensures
            now.wf(),
    {
        let task = self.pending@[index];
        let tl = task.layer_offset as int;
        let tc = task.chunk_index as int;
        assert(self.in_range(tl, tc));
        assert(task == task_at(tl, tc));
        assert(self.pending@.contains(task));
        assert(cell(self.started@, tl, tc) && !cell(self.finished@, tl, tc));
        assert forall|l: int, c: int| self.in_range(l, c) implies (#[trigger] cell(
            now.finished@,
            l,
            c,
        ) <==> cell(self.finished@, l, c) || (l == tl && c == tc)) by {
            if l != tl {
                assert(now.finished@[l] == self.finished@[l]);
            }
        }
        assert forall|i: int| 0 <= i < now.pending@.len() implies now.in_range(
            (#[trigger] now.pending@[i]).layer_offset as int,
            now.pending@[i].chunk_index as int,
        ) by {
            if i < index {
                assert(now.pending@[i] == self.pending@[i]);
            } else {
                assert(now.pending@[i] == self.pending@[i + 1]);
            }
        }
        assert forall|l: int, c: int| now.in_range(l, c) implies (
        now.pending@.contains(task_at(l, c)) <==> cell(now.started@, l, c)
            && !#[trigger] cell(now.finished@, l, c)) by {
            let here = task_at(l, c);
            assert(cell(self.started@, l, c) || !cell(self.started@, l, c));
            if now.pending@.contains(here) {
                let i = choose|i: int| 0 <= i < now.pending@.len() && now.pending@[i] == here;
                let j = if i < index {
                    i
                } else {
                    i + 1
                };
                assert(self.pending@[j] == here);
                assert(j != index);
                assert(here != task);
            }
            if self.pending@.contains(here) && !(l == tl && c == tc) {
                let j = choose|j: int|
                    0 <= j < self.pending@.len() && self.pending@[j] == here;
                assert(here != task);
                assert(j != index);
                let i = if j < index {
                    j
                } else {
                    j - 1
                };
                assert(now.pending@[i] == here);
            }
        }
        assert forall|i: int, j: int|
            0 <= i < now.pending@.len() && 0 <= j < now.pending@.len() && i
                != j implies now.pending@[i] != now.pending@[j] by {
            let bi = if i < index {
                i
            } else {
                i + 1
            };
            let bj = if j < index {
                j
            } else {
                j + 1
            };
            assert(now.pending@[i] == self.pending@[bi]);
            assert(now.pending@[j] == self.pending@[bj]);
        }
        assert forall|l: int, k: int, c: int|
            #![trigger cell(now.started@, l, c), cell(now.finished@, k, c)]
            now.in_range(l, c) && 0 <= k < l && cell(now.started@, l, c) implies cell(
            now.finished@,
            k,
            c,
        ) by {
            assert(self.in_range(k, c));
            assert(cell(self.started@, l, c));
            assert(cell(self.finished@, k, c));
        }
    }

    /// What to do once no further task can start: stop where every task is
    /// finished, wait for a pending one, or give up.
    pub fn verdict(&self) -> (v: WavefrontVerdict)
        requires
            self.wf(),
        ensures
            v == WavefrontVerdict::Done <==> self.all_finished(),
            v == WavefrontVerdict::Working <==> !self.all_finished() && self.pending@.len() > 0,
            v == WavefrontVerdict::Stalled <==> !self.all_finished() && self.pending@.len() == 0,
    {
        proof {
            lemma_grid_count_bound(self.finished@, self.chunk_count as int);
        }
        let task_count: usize = self.layer_count * self.chunk_count;
        if self.completed == task_count {
            WavefrontVerdict::Done
        } else if self.pending.len() == 0 {
            assert(!self.all_finished());
            WavefrontVerdict::Stalled
        } else {
            assert(!self.all_finished());
            WavefrontVerdict::Working
        }
    }

    /// The wavefront never stalls: while a task is unfinished and none is
    /// pending, some task is ready.
    pub proof fn law_never_stalls(&self)
        requires
            self.wf(),
            !self.all_finished(),
            self.pending@.len() == 0,
        ensures
            exists|l: int, c: int|
                self.in_range(l, c) && #[trigger] task_ready(self.started@, self.finished@, l, c),
    {
        let (l0, c0) = choose|l: int, c: int|
            self.in_range(l, c) && !#[trigger] cell(self.finished@, l, c);
        let (l, c) = lemma_lowest_unfinished(self.finished@, l0, c0);
        assert(!self.pending@.contains(task_at(l, c)));
        assert(!cell(self.finished@, l, c));
        assert(!cell(self.started@, l, c));
        if l > 0 {
            assert(cell(self.finished@, l - 1, c));
        }
        if c > 0 {
            assert(cell(self.finished@, l, c - 1));
            assert(cell(self.started@, l, c - 1));
        }
        assert(task_ready(self.started@, self.finished@, l, c));
    }
}

/// The first pending dispatch that cannot be polled incrementally and has to
/// be finished in one go.
pub fn first_non_streaming(streaming: &[bool]) -> (index: Option<usize>)
    ensures
        match index {
            Some(i) => i < streaming@.len() && !streaming@[i as int] && forall|j: int|
                0 <= j < i ==> #[trigger] streaming@[j],
            None => forall|j: int| 0 <= j < streaming@.len() ==> #[trigger] streaming@[j],
        },
{
    let mut i: usize = 0;
    while i < streaming.len()
        invariant
            i <= streaming@.len(),
            forall|j: int| 0 <= j < i ==> #[trigger] streaming@[j],
        decreases streaming@.len() - i,
    {
        if !streaming[i] {
            return Some(i);
        }
        i = i + 1;
    }
    None
}

/// What a round over the pending dispatches found.
#[derive(Clone, Copy, Debug, PartialEq, Eq, Structural)]
pub enum PollOutcome {
    /// The dispatch at this place is complete.
    Complete(usize),
    /// Something moved, nothing is complete.
    Progress,
    /// Nothing moved.
    Idle,
}

/// What a round over the pending dispatches found. Of every dispatch that was
/// asked, in order, `polls` tells whether it moved and, if so, whether it is
/// complete; the first complete one counts.
pub fn poll_outcome(polls: &[Option<bool>]) -> (outcome: PollOutcome)
    ensures
        match outcome {
            PollOutcome::Complete(i) => {
                &&& i < polls@.len()
                &&& polls@[i as int] == Some(true)
                &&& forall|k: int| 0 <= k < i ==> #[trigger] polls@[k] != Some(true)
            },
            PollOutcome::Progress => {
                &&& forall|k: int| 0 <= k < polls@.len() ==> #[trigger] polls@[k] != Some(true)
                &&& exists|k: int| 0 <= k < polls@.len() && (#[trigger] polls@[k]) is Some
            },
            PollOutcome::Idle => forall|k: int|
                0 <= k < polls@.len() ==> (#[trigger] polls@[k]) is None,
        },
{
    let mut made_progress: bool = false;
    let mut i: usize = 0;
    while i < polls.len()
        invariant
            i <= polls@.len(),
            forall|k: int| 0 <= k < i ==> #[trigger] polls@[k] != Some(true),
            made_progress == (exists|k: int| 0 <= k < i && (#[trigger] polls@[k]) is Some),
        decreases polls@.len() - i,
    {
        match polls[i] {
            Some(true) => return PollOutcome::Complete(i),
            Some(false) => {
                assert(polls@[i as int] is Some);
                made_progress = true;
            },
            None => {},
        }
        i = i + 1;
    }
    if made_progress {
        PollOutcome::Progress
    } else {
        PollOutcome::Idle
    }
}

} // verus!
