//! The bounded long-prefill wavefront: only a few chunks are held on the device
//! at a time, and the chunks whose hidden states are tapped pass the tap layers
//! in lock-step.
use vstd::prelude::*;

use crate::execution::chunks::{law_prefill_chunks_cover_all_rows, lemma_total_append, total};
use crate::execution::shape::{
    bounded_long_prefill_wavefront_required, scheduler_prefill_chunk_token_counts,
    RealFullSchedulerExecutionShape, BOUNDED_LONG_PREFILL_ROWS,
};
use crate::execution::wavefront::{
    task_at, task_before, SchedulerSparseWavefrontTask, WavefrontVerdict,
    MAX_PENDING_SPARSE_WAVEFRONT_DISPATCHES,
};
use crate::grid::{
    cell, cell_set, grid_count, grid_shape, new_grid, new_row, row_all_set, row_count, set_cell,
};
use crate::grid::{
    lemma_grid_count_bound, lemma_grid_count_set, lemma_no_flag_set, lemma_row_count_bound,
    lemma_row_count_clear, lemma_row_count_set,
};

verus! {

/// The prefill rows of one chunk.
#[derive(Clone, Copy, Debug, PartialEq, Eq, Structural)]
pub struct ChunkRows {
    pub row_start: usize,
    pub row_count: usize,
}

/// Why a bounded wavefront cannot be set up.
#[derive(Clone, Copy, Debug, PartialEq, Eq, Structural)]
pub enum BoundedError {
    RowOverflow,
    NotQualified,
    MissingTokenIds,
    TaskCountOverflow,
}

impl BoundedError {
    pub open spec fn text(self) -> Seq<char> {
        match self {
            BoundedError::RowOverflow => "bounded long-prefill total row count overflow"@,
            BoundedError::NotQualified =>
                "bounded long-prefill wavefront requires a qualified multi-chunk shape"@,
            BoundedError::MissingTokenIds =>
                "bounded long-prefill wavefront requires prompt token IDs"@,
            BoundedError::TaskCountOverflow =>
                "bounded long-prefill wavefront task count overflow"@,
        }
    }

    pub fn message(&self) -> (out: String)
        ensures
            out@ == self.text(),
    {
        match self {
            BoundedError::RowOverflow => "bounded long-prefill total row count overflow".to_owned(),
            BoundedError::NotQualified => {
                "bounded long-prefill wavefront requires a qualified multi-chunk shape".to_owned()
            },
            BoundedError::MissingTokenIds => {
                "bounded long-prefill wavefront requires prompt token IDs".to_owned()
            },
            BoundedError::TaskCountOverflow => {
                "bounded long-prefill wavefront task count overflow".to_owned()
            },
        }
    }
}

/// What starting a task takes: the rows to seed where the chunk enters the
/// device, whether the chunk is the last one, whether the layer is dense and so
/// finished at once, and the layer to capture after it.
#[derive(Clone, Copy, Debug, PartialEq, Eq, Structural)]
pub struct BoundedStart {
    pub seed: Option<ChunkRows>,
    pub final_chunk: bool,
    pub dense: bool,
    pub capture_tap: Option<usize>,
}

/// What finishing a task takes: the layer to capture and the rows to release.
#[derive(Clone, Copy, Debug, PartialEq, Eq, Structural)]
pub struct BoundedFinish {
    pub task: SchedulerSparseWavefrontTask,
    pub capture_tap: Option<usize>,
    pub release: Option<ChunkRows>,
}

/// The rows of chunk `i` of a prefill that is cut into `counts`.
pub open spec fn chunk_rows_at(counts: Seq<usize>, i: int) -> ChunkRows {
    ChunkRows { row_start: total(counts.take(i)) as usize, row_count: counts[i] }
}

/// The rows of all chunks.
pub open spec fn all_chunk_rows(counts: Seq<usize>) -> Seq<ChunkRows> {
    Seq::new(counts.len(), |i: int| chunk_rows_at(counts, i))
}

/// The first row whose hidden state is retained.
pub open spec fn tap_row_start(total_rows: int, tap_rows: int) -> int {
    if tap_rows >= total_rows {
        0
    } else {
        total_rows - tap_rows
    }
}

/// Chunk `k` is the first that holds retained rows. `chunks` itself stands for
/// no chunk, and the last chunk also holds the rows after the prefill.
pub open spec fn is_tap_suffix(
    counts: Seq<usize>,
    prefill_tokens: int,
    total_rows: int,
    tap_rows: int,
    k: int,
) -> bool {
    let start = tap_row_start(total_rows, tap_rows);
    if tap_rows == 0 || total_rows == 0 {
        k == counts.len()
    } else if start >= prefill_tokens {
        k == counts.len() - 1
    } else {
        &&& 0 <= k < counts.len()
        &&& total(counts.take(k + 1)) > start
        &&& forall|j: int| 0 <= j < k ==> total(#[trigger] counts.take(j + 1)) <= start
    }
}

proof fn lemma_take_bounded(counts: Seq<usize>, n: int)
    requires
        0 <= n <= counts.len(),
    ensures
        total(counts.take(n)) <= total(counts),
    decreases counts.len() - n,
{
    if n == counts.len() {
        assert(counts.take(n) =~= counts);
    } else {
        lemma_total_append(counts, n);
        lemma_take_bounded(counts, n + 1);
    }
}

fn chunk_rows_of(counts: &Vec<usize>, prefill_tokens: usize) -> (rows: Vec<ChunkRows>)
    requires
        total(counts@) == prefill_tokens,
    ensures
        rows@ == all_chunk_rows(counts@),
{
    let mut rows: Vec<ChunkRows> = Vec::new();
    let mut offset: usize = 0;
    let mut i: usize = 0;
    proof {
        assert(counts@.take(0) =~= Seq::<usize>::empty());
        assert(total(Seq::<usize>::empty()) == 0);
    }
    while i < counts.len()
        invariant
            i <= counts@.len(),
            total(counts@) == prefill_tokens,
            offset == total(counts@.take(i as int)),
            rows@ == Seq::new(i as nat, |k: int| chunk_rows_at(counts@, k)),
        decreases counts@.len() - i,
    {
        proof {
            lemma_total_append(counts@, i as int);
            lemma_take_bounded(counts@, i + 1);
        }
        rows.push(ChunkRows { row_start: offset, row_count: counts[i] });
        offset = offset + counts[i];
        i = i + 1;
        assert(rows@ =~= Seq::new(i as nat, |k: int| chunk_rows_at(counts@, k)));
    }
    assert(rows@ =~= all_chunk_rows(counts@));
    rows
}

/// The first chunk that holds retained rows.
fn tap_suffix_chunk(
    counts: &Vec<usize>,
    prefill_tokens: usize,
    total_rows: usize,
    tap_rows: usize,
) -> (chunk: usize)
    requires
        total(counts@) == prefill_tokens,
        counts@.len() >= 2,
        prefill_tokens <= total_rows,
    ensures
        is_tap_suffix(
            counts@,
            prefill_tokens as int,
            total_rows as int,
            tap_rows as int,
            chunk as int,
        ),
{
    let retained: usize = if tap_rows < total_rows {
        tap_rows
    } else {
        total_rows
    };
    let start: usize = total_rows - retained;
    if retained == 0 {
        return counts.len();
    }
    if start >= prefill_tokens {
        return counts.len() - 1;
    }
    let mut end: usize = 0;
    let mut i: usize = 0;
    proof {
        assert(counts@.take(0) =~= Seq::<usize>::empty());
        assert(total(Seq::<usize>::empty()) == 0);
    }
    while i < counts.len()
        invariant
            i <= counts@.len(),
            total(counts@) == prefill_tokens,
            start < prefill_tokens,
            retained > 0,
            start == tap_row_start(total_rows as int, tap_rows as int),
            tap_rows > 0,
            total_rows > 0,
            end == total(counts@.take(i as int)),
            end <= start,
            forall|j: int| 0 <= j < i ==> total(#[trigger] counts@.take(j + 1)) <= start,
        decreases counts@.len() - i,
    {
        proof {
            lemma_total_append(counts@, i as int);
            lemma_take_bounded(counts@, i + 1);
        }
        end = end + counts[i];
        if end > start {
            return i;
        }
        i = i + 1;
    }
    assert(counts@.take(counts@.len() as int) =~= counts@);
    counts.len()
}

/// The state of a bounded long-prefill wavefront.
pub struct BoundedPrefillWavefront {
    pub layer_count: usize,
    pub chunk_count: usize,
    pub dense_layers: usize,
    pub max_active_chunks: usize,
    pub tap_suffix_start: usize,
    pub tap_layers: Vec<usize>,
    pub chunk_rows: Vec<ChunkRows>,
    pub started: Vec<Vec<bool>>,
    pub finished: Vec<Vec<bool>>,
    pub active: Vec<bool>,
    pub active_count: usize,
    pub peak_active: usize,
    pub pending: Vec<SchedulerSparseWavefrontTask>,
    pub completed: usize,
}

fn contains_layer(layers: &Vec<usize>, layer: usize) -> (r: bool)
    ensures
        r == layers@.contains(layer),
{
    let mut i: usize = 0;
    while i < layers.len()
        invariant
            i <= layers@.len(),
            forall|j: int| 0 <= j < i ==> layers@[j] != layer,
        decreases layers@.len() - i,
    {
        if layers[i] == layer {
            assert(layers@[i as int] == layer);
            return true;
        }
        i = i + 1;
    }
    false
}

/// The rows of a request, where they can be counted.
pub open spec fn request_rows(shape: RealFullSchedulerExecutionShape) -> int {
    shape.prefill_tokens + shape.decode_rows + shape.mtp_rows
}

/// Why a request gets no bounded wavefront, if it gets none.
pub open spec fn bounded_setup_error(
    shape: RealFullSchedulerExecutionShape,
    layer_count: int,
) -> Option<BoundedError> {
    if request_rows(shape) > usize::MAX {
        Some(BoundedError::RowOverflow)
    } else if shape.counts().len() < 2 || request_rows(shape) <= BOUNDED_LONG_PREFILL_ROWS {
        Some(BoundedError::NotQualified)
    } else if shape.prefill_token_ids is None {
        Some(BoundedError::MissingTokenIds)
    } else if layer_count * shape.counts().len() > usize::MAX {
        Some(BoundedError::TaskCountOverflow)
    } else {
        None
    }
}

/// What starting a task does, and what it takes.
pub open spec fn start_ok(
    before: BoundedPrefillWavefront,
    after: BoundedPrefillWavefront,
    task: SchedulerSparseWavefrontTask,
    action: BoundedStart,
) -> bool {
    let l = task.layer_offset as int;
    let c = task.chunk_index as int;
    let last = c + 1 == before.chunk_count;
    let enters = l == 0 && !before.active@[c];
    let dense = l < before.dense_layers;
    &&& after.same_setup(&before)
    &&& cell_set(before.started@, after.started@, l, c)
    &&& action.final_chunk == last
    &&& action.dense == dense
    &&& action.seed == (if enters {
        Some(before.chunk_rows@[c])
    } else {
        None
    })
    &&& action.capture_tap == (if dense && last {
        Some((l + 1) as usize)
    } else {
        None
    })
    &&& after.active_count == before.active_count + (if enters {
        1int
    } else {
        0int
    })
    &&& after.peak_active == (if before.peak_active >= after.active_count {
        before.peak_active
    } else {
        after.active_count
    })
    &&& if dense {
        &&& cell_set(before.finished@, after.finished@, l, c)
        &&& after.pending == before.pending
        &&& after.completed == before.completed + 1
    } else {
        &&& after.finished == before.finished
        &&& after.pending@ == before.pending@.push(task)
        &&& after.completed == before.completed
    }
}

/// What finishing the dispatch at `index` does, and what it takes.
pub open spec fn finish_ok(
    before: BoundedPrefillWavefront,
    after: BoundedPrefillWavefront,
    index: int,
    done: BoundedFinish,
) -> bool {
    let l = done.task.layer_offset as int;
    let c = done.task.chunk_index as int;
    let leaves = l + 1 == before.layer_count;
    &&& after.same_setup(&before)
    &&& done.task == before.pending@[index]
    &&& cell_set(before.finished@, after.finished@, l, c)
    &&& done.capture_tap == (if c + 1 == before.chunk_count {
        Some((l + 1) as usize)
    } else {
        None
    })
    &&& done.release == (if leaves {
        Some(before.chunk_rows@[c])
    } else {
        None
    })
    &&& after.active_count == before.active_count - (if leaves {
        1int
    } else {
        0int
    })
    &&& after.started == before.started
    &&& after.pending@ == before.pending@.remove(index)
    &&& after.completed == before.completed + 1
    &&& after.peak_active == before.peak_active
}

impl BoundedPrefillWavefront {
    pub open spec fn in_range(&self, l: int, c: int) -> bool {
        0 <= l < self.layer_count && 0 <= c < self.chunk_count
    }

    pub open spec fn started_at(&self, l: int, c: int) -> bool {
        cell(self.started@, l, c)
    }

    pub open spec fn finished_at(&self, l: int, c: int) -> bool {
        cell(self.finished@, l, c)
    }

    /// The hidden state in front of layer `l` is tapped.
    pub open spec fn tapped(&self, l: int) -> bool {
        0 <= l <= usize::MAX && self.tap_layers@.contains(l as usize)
    }

    /// Every retained chunk has left layer `l`.
    pub open spec fn suffix_left(&self, l: int) -> bool {
        forall|k: int|
            self.tap_suffix_start <= k < self.chunk_count ==> #[trigger] self.finished_at(l, k)
    }

    /// The chunk before `c` is far enough: at a tapped boundary a retained
    /// chunk waits until its retained predecessor left the layer, else until
    /// its predecessor entered it.
    pub open spec fn previous_chunk_ready(&self, l: int, c: int) -> bool {
        if self.tapped(l + 1) && c >= self.tap_suffix_start {
            c == self.tap_suffix_start || self.finished_at(l, c - 1)
        } else {
            c == 0 || self.started_at(l, c - 1)
        }
    }

    /// A retained chunk goes past a tapped boundary only once all retained
    /// chunks have reached it.
    pub open spec fn prior_tap_captured(&self, l: int, c: int) -> bool {
        l > 0 && self.tapped(l) && c >= self.tap_suffix_start ==> self.suffix_left(l - 1)
    }

    /// The chunk is on the device or may enter it.
    pub open spec fn slot_available(&self, l: int, c: int) -> bool {
        l != 0 || self.active@[c] || self.active_count < self.max_active_chunks
    }

    /// The task may start.
    pub open spec fn eligible(&self, l: int, c: int) -> bool {
        &&& !self.started_at(l, c)
        &&& l == 0 || self.finished_at(l - 1, c)
        &&& self.previous_chunk_ready(l, c)
        &&& self.prior_tap_captured(l, c)
        &&& self.slot_available(l, c)
    }

    /// `task` is the first of all tasks that may start.
    pub open spec fn first_eligible(&self, task: SchedulerSparseWavefrontTask) -> bool {
        let l0 = task.layer_offset as int;
        let c0 = task.chunk_index as int;
        &&& self.in_range(l0, c0)
        &&& self.eligible(l0, c0)
        &&& forall|l: int, c: int|
            self.in_range(l, c) && #[trigger] self.eligible(l, c) ==> (l == l0 && c == c0)
                || task_before(l0, c0, l, c)
    }

    /// The last layer is sparse, so that finished chunks leave the device.
    pub open spec fn releases(&self) -> bool {
        self.dense_layers < self.layer_count
    }

    pub open spec fn shapes_ok(&self) -> bool {
        &&& grid_shape(self.started@, self.layer_count as int, self.chunk_count as int)
        &&& grid_shape(self.finished@, self.layer_count as int, self.chunk_count as int)
        &&& self.active@.len() == self.chunk_count
        &&& self.chunk_rows@.len() == self.chunk_count
        &&& self.chunk_count >= 2
        &&& self.tap_suffix_start <= self.chunk_count
        &&& self.layer_count + self.chunk_count < usize::MAX
        &&& self.layer_count * self.chunk_count <= usize::MAX
    }

    pub open spec fn pending_exact(&self) -> bool {
        &&& self.pending@.no_duplicates()
        &&& forall|i: int|
            0 <= i < self.pending@.len() ==> self.in_range(
                (#[trigger] self.pending@[i]).layer_offset as int,
                self.pending@[i].chunk_index as int,
            )
        &&& forall|l: int, c: int|
            #![trigger self.started_at(l, c)]
            #![trigger self.finished_at(l, c)]
            self.in_range(l, c) ==> (self.pending@.contains(task_at(l, c)) <==> self.started_at(
                l,
                c,
            ) && !self.finished_at(l, c))
    }

    /// Layers were entered in order, and chunks entered the device in order.
    pub open spec fn in_order(&self) -> bool {
        &&& forall|l: int, k: int, c: int|
            #![trigger self.started_at(l, c), self.finished_at(k, c)]
            self.in_range(l, c) && 0 <= k < l && self.started_at(l, c) ==> self.finished_at(k, c)
        &&& forall|c: int, d: int|
            #![trigger self.started_at(0, c), self.started_at(0, d)]
            0 <= d < c < self.chunk_count && 0 < self.layer_count && self.started_at(0, c)
                ==> self.started_at(0, d)
        &&& forall|l: int, c: int|
            self.in_range(l, c) && #[trigger] self.finished_at(l, c) ==> self.started_at(l, c)
    }

    /// A chunk is on the device from its first layer until it left a sparse
    /// last layer.
    pub open spec fn active_exact(&self) -> bool {
        &&& self.active_count == row_count(self.active@)
        &&& self.active_count <= self.max_active_chunks
        &&& self.active_count <= self.peak_active
        &&& forall|c: int|
            0 <= c < self.chunk_count && self.layer_count > 0 ==> (#[trigger] self.active@[c]
                <==> self.started_at(0, c) && !(self.releases() && self.finished_at(
                self.layer_count - 1,
                c,
            )))
    }

    pub open spec fn wf(&self) -> bool {
        &&& self.shapes_ok()
        &&& self.pending_exact()
        &&& self.in_order()
        &&& self.active_exact()
        &&& self.pending@.len() <= MAX_PENDING_SPARSE_WAVEFRONT_DISPATCHES
        &&& self.completed == grid_count(self.finished@)
        &&& forall|i: int|
            0 <= i < self.pending@.len() ==> (#[trigger] self.pending@[i]).layer_offset
                >= self.dense_layers
    }

    /// Every chunk has left every layer.
    pub open spec fn all_finished(&self) -> bool {
        forall|l: int, c: int| self.in_range(l, c) ==> #[trigger] self.finished_at(l, c)
    }

    /// Only the progress of the wavefront may differ.
    pub open spec fn same_setup(&self, other: &BoundedPrefillWavefront) -> bool {
        &&& self.layer_count == other.layer_count
        &&& self.chunk_count == other.chunk_count
        &&& self.dense_layers == other.dense_layers
        &&& self.max_active_chunks == other.max_active_chunks
        &&& self.tap_suffix_start == other.tap_suffix_start
        &&& self.tap_layers == other.tap_layers
        &&& self.chunk_rows == other.chunk_rows
    }

    /// A bounded wavefront over all layers of a request, nothing started.
    /// `tap_layers` are the tapped boundaries, `tap_rows` the number of last
    /// rows whose states are retained.
    pub fn new(
        shape: &RealFullSchedulerExecutionShape,
        layer_count: usize,
        dense_layers: usize,
        tap_layers: Vec<usize>,
        tap_rows: usize,
        max_active_chunks: usize,
    ) -> (result: Result<Self, BoundedError>)
        requires
            layer_count + shape.counts().len() < usize::MAX,
        ensures
            match bounded_setup_error(*shape, layer_count as int) {
                Some(e) => result is Err && result->Err_0 == e,
                None => result is Ok,
            },
            result matches Ok(w) ==> {
                &&& w.wf()
                &&& w.layer_count == layer_count
                &&& w.chunk_count == shape.counts().len()
                &&& w.dense_layers == dense_layers
                &&& w.max_active_chunks == max_active_chunks
                &&& w.tap_layers == tap_layers
                &&& is_tap_suffix(
                    shape.counts(),
                    shape.prefill_tokens as int,
                    request_rows(*shape),
                    tap_rows as int,
                    w.tap_suffix_start as int,
                )
                &&& w.chunk_rows@ == all_chunk_rows(shape.counts())
                &&& w.active_count == 0
                &&& w.peak_active == 0
                &&& w.completed == 0
                &&& w.pending@.len() == 0
                &&& forall|l: int, c: int| w.in_range(l, c) ==> !#[trigger] w.started_at(l, c)
            },
    {
        let counts: Vec<usize> = scheduler_prefill_chunk_token_counts(
            shape,
            shape.prefill_chunk_tokens,
        );
        let chunk_count: usize = counts.len();
        let prefill_and_decode: usize = match shape.prefill_tokens.checked_add(shape.decode_rows) {
            Some(rows) => rows,
            None => return Err(BoundedError::RowOverflow),
        };
        let total_rows: usize = match prefill_and_decode.checked_add(shape.mtp_rows) {
            Some(rows) => rows,
            None => return Err(BoundedError::RowOverflow),
        };
        if chunk_count < 2 || !bounded_long_prefill_wavefront_required(total_rows) {
            return Err(BoundedError::NotQualified);
        }
        proof {
            law_prefill_chunks_cover_all_rows(
                shape.prefill_tokens as int,
                shape.prefill_chunk_tokens as int,
                shape.terminal_rows(),
            );
        }
        let chunk_rows: Vec<ChunkRows> = chunk_rows_of(&counts, shape.prefill_tokens);
        if shape.prefill_token_ids.is_none() {
            return Err(BoundedError::MissingTokenIds);
        }
        let tap_suffix_start: usize = tap_suffix_chunk(
            &counts,
            shape.prefill_tokens,
            total_rows,
            tap_rows,
        );
        match layer_count.checked_mul(chunk_count) {
            None => return Err(BoundedError::TaskCountOverflow),
            Some(_) => {},
        }
        let active: Vec<bool> = new_row(chunk_count);
        proof {
            lemma_no_flag_set(active@);
        }
        let started: Vec<Vec<bool>> = new_grid(layer_count, chunk_count);
        let finished: Vec<Vec<bool>> = new_grid(layer_count, chunk_count);
        let w = BoundedPrefillWavefront {
            layer_count,
            chunk_count,
            dense_layers,
            max_active_chunks,
            tap_suffix_start,
            tap_layers,
            chunk_rows,
            started,
            finished,
            active,
            active_count: 0,
            peak_active: 0,
            pending: Vec::new(),
            completed: 0,
        };
        proof {
            assert forall|l: int, c: int| w.in_range(l, c) implies !#[trigger] w.started_at(l, c) by {
                assert(!cell(w.started@, l, c));
            }
            assert forall|l: int, c: int| w.in_range(l, c) implies !#[trigger] w.finished_at(
                l,
                c,
            ) by {
                assert(!cell(w.finished@, l, c));
            }
        }
        Ok(w)
    }

    fn is_eligible(&self, l: usize, c: usize) -> (r: bool)
        requires
            self.shapes_ok(),
            self.in_range(l as int, c as int),
        ensures
            r == self.eligible(l as int, c as int),
    {
        assert(self.started@[l as int]@.len() == self.chunk_count);
        assert(self.finished@[l as int]@.len() == self.chunk_count);
        if self.started[l][c] {
            return false;
        }
        if l > 0 {
            assert(self.finished@[l - 1]@.len() == self.chunk_count);
            if !self.finished[l - 1][c] {
                return false;
            }
        }
        let suffix: bool = c >= self.tap_suffix_start;
        let checkpoint: bool = contains_layer(&self.tap_layers, l + 1);
        let previous_ready: bool = if checkpoint && suffix {
            c == self.tap_suffix_start || self.finished[l][c - 1]
        } else {
            c == 0 || self.started[l][c - 1]
        };
        assert(previous_ready == self.previous_chunk_ready(l as int, c as int));
        if !previous_ready {
            return false;
        }
        if l > 0 && suffix && contains_layer(&self.tap_layers, l) {
            let left: bool = row_all_set(
                &self.finished,
                l - 1,
                self.tap_suffix_start,
                self.chunk_count,
            );
            assert(left == self.suffix_left(l - 1)) by {
                if left {
                    assert forall|k: int|
                        self.tap_suffix_start <= k < self.chunk_count implies #[trigger]
                    self.finished_at(l - 1, k) by {
                        assert(cell(self.finished@, l - 1, k));
                    }
                }
                if self.suffix_left(l - 1) {
                    assert forall|k: int|
                        self.tap_suffix_start <= k < self.chunk_count implies #[trigger] cell(
                        self.finished@,
                        l - 1,
                        k,
                    ) by {
                        assert(self.finished_at(l - 1, k));
                    }
                }
            }
            if !left {
                return false;
            }
        }
        l != 0 || self.active[c] || self.active_count < self.max_active_chunks
    }

    /// The next task to start: the first that may, while fewer than the most
    /// dispatches are under way.
    pub fn next_start(&self) -> (task: Option<SchedulerSparseWavefrontTask>)
        requires
            self.wf(),
        ensures
            self.pending@.len() >= MAX_PENDING_SPARSE_WAVEFRONT_DISPATCHES ==> task is None,
            self.pending@.len() < MAX_PENDING_SPARSE_WAVEFRONT_DISPATCHES ==> match task {
                Some(t) => self.first_eligible(t),
                None => forall|l: int, c: int|
                    self.in_range(l, c) ==> !#[trigger] self.eligible(l, c),
            },
    {
        if self.pending.len() >= MAX_PENDING_SPARSE_WAVEFRONT_DISPATCHES {
            return None;
        }
        let mut best: Option<SchedulerSparseWavefrontTask> = None;
        let mut layer: usize = 0;
        while layer < self.layer_count
            invariant
                layer <= self.layer_count,
                self.shapes_ok(),
                match best {
                    Some(t) => {
                        let l0 = t.layer_offset as int;
                        let c0 = t.chunk_index as int;
                        &&& l0 < layer
                        &&& c0 < self.chunk_count
                        &&& self.eligible(l0, c0)
                        &&& forall|l: int, c: int|
                            0 <= l < layer && 0 <= c < self.chunk_count && #[trigger] self.eligible(
                                l,
                                c,
                            ) ==> (l == l0 && c == c0) || task_before(l0, c0, l, c)
                    },
                    None => forall|l: int, c: int|
                        0 <= l < layer && 0 <= c < self.chunk_count ==> !#[trigger] self.eligible(
                            l,
                            c,
                        ),
                },
            decreases self.layer_count - layer,
        {
            let mut chunk: usize = 0;
            while chunk < self.chunk_count
                invariant
                    layer < self.layer_count,
                    chunk <= self.chunk_count,
                    self.shapes_ok(),
                    match best {
                        Some(t) => {
                            let l0 = t.layer_offset as int;
                            let c0 = t.chunk_index as int;
                            &&& l0 <= layer
                            &&& c0 < self.chunk_count
                            &&& l0 < layer || c0 < chunk
                            &&& self.eligible(l0, c0)
                            &&& forall|l: int, c: int|
                                0 <= l <= layer && 0 <= c < self.chunk_count && (l < layer || c
                                    < chunk) && #[trigger] self.eligible(l, c) ==> (l == l0 && c
                                    == c0) || task_before(l0, c0, l, c)
                        },
                        None => forall|l: int, c: int|
                            0 <= l <= layer && 0 <= c < self.chunk_count && (l < layer || c < chunk)
                                ==> !#[trigger] self.eligible(l, c),
                    },
                decreases self.chunk_count - chunk,
            {
                if self.is_eligible(layer, chunk) {
                    let better: bool = match best {
                        Some(current) => {
                            let left: usize = layer + chunk;
                            let right: usize = current.layer_offset + current.chunk_index;
                            left < right || (left == right && layer < current.layer_offset) || (
                            layer == current.layer_offset && chunk < current.chunk_index)
                        },
                        None => true,
                    };
                    if better {
                        best = Some(
                            SchedulerSparseWavefrontTask {
                                layer_offset: layer,
                                chunk_index: chunk,
                            },
                        );
                    }
                }
                chunk = chunk + 1;
            }
            layer = layer + 1;
        }
        best
    }

    /// Records that the first task that may start is started. A dense layer is
    /// finished with it.
    #[verifier::rlimit(100)]
    #[verifier::spinoff_prover]
    pub fn start(&mut self, task: SchedulerSparseWavefrontTask) -> (action: BoundedStart)
        requires
            old(self).wf(),
            old(self).pending@.len() < MAX_PENDING_SPARSE_WAVEFRONT_DISPATCHES,
            old(self).first_eligible(task),
        ensures
            final(self).wf(),
            start_ok(*old(self), *final(self), task, action),
    {
        let ghost before = *self;
        let ghost tl = task.layer_offset as int;
        let ghost tc = task.chunk_index as int;
        proof {
            assert(task == task_at(tl, tc));
            assert(before.started@[tl]@.len() == self.chunk_count);
            assert(before.finished@[tl]@.len() == self.chunk_count);
            before.lemma_enters_in_order(task);
            assert(!before.started_at(tl, tc));
            assert(!before.finished_at(tl, tc));
            assert(!before.pending@.contains(task));
        }
        let final_chunk: bool = task.chunk_index + 1 == self.chunk_count;
        let mut seed: Option<ChunkRows> = None;
        if task.layer_offset == 0 && !self.active[task.chunk_index] {
            seed = Some(self.chunk_rows[task.chunk_index]);
            proof {
                lemma_row_count_set(self.active@, tc);
                lemma_row_count_bound(self.active@.update(tc, true));
            }
            self.active.set(task.chunk_index, true);
            self.active_count = self.active_count + 1;
            if self.active_count > self.peak_active {
                self.peak_active = self.active_count;
            }
        }
        set_cell(&mut self.started, task.layer_offset, task.chunk_index);
        let dense: bool = task.layer_offset < self.dense_layers;
        let mut capture_tap: Option<usize> = None;
        if dense {
            set_cell(&mut self.finished, task.layer_offset, task.chunk_index);
            proof {
                lemma_grid_count_set(before.finished@, self.finished@, tl, tc);
                assert forall|r: int| 0 <= r < self.layer_count implies (#[trigger]
                self.finished@[r])@.len() == self.chunk_count by {
                    if r != tl {
                        assert(self.finished@[r] == before.finished@[r]);
                    }
                }
                lemma_grid_count_bound(self.finished@, self.chunk_count as int);
            }
            self.completed = self.completed + 1;
            if final_chunk {
                capture_tap = Some(task.layer_offset + 1);
            }
        } else {
            self.pending.push(task);
        }
        proof {
            before.lemma_after_start(*self, task);
        }
        BoundedStart { seed, final_chunk, dense, capture_tap }
    }

    /// Chunks enter the device in order: the first task that may start at
    /// layer zero follows a started chunk.
    proof fn lemma_enters_in_order(&self, task: SchedulerSparseWavefrontTask)
        requires
            self.wf(),
            self.first_eligible(task),
        ensures
            task.layer_offset == 0 && task.chunk_index > 0 ==> self.started_at(
                0,
                task.chunk_index - 1,
            ),
            task.layer_offset == 0 ==> !self.active@[task.chunk_index as int],
    {
        let c = task.chunk_index as int;
        if task.layer_offset == 0 {
            assert(self.in_range(0, c));
            assert(!self.started_at(0, c));
            assert(!self.active@[c]);
            if c > 0 && !self.started_at(0, c - 1) {
                let j = self.lowest_unstarted(0, c - 1);
                if c > self.tap_suffix_start && self.tapped(1) {
                    assert(self.finished_at(0, c - 1));
                    assert(self.started_at(0, c - 1));
                }
                if j > 0 {
                    assert(self.started_at(0, j - 1));
                }
                if self.tapped(1) && j >= self.tap_suffix_start {
                    assert(c > self.tap_suffix_start);
                }
                assert(self.eligible(0, j));
                assert(task_before(0, c, 0, j));
            }
        }
    }

    /// The lowest chunk from `from` on that has not entered the device.
    proof fn lowest_unstarted(&self, from: int, c0: int) -> (c: int)
        requires
            0 <= from <= c0,
            self.in_range(0, c0),
            !self.started_at(0, c0),
            forall|k: int| 0 <= k < from ==> #[trigger] self.started_at(0, k),
        ensures
            0 <= c <= c0,
            !self.started_at(0, c),
            forall|k: int| 0 <= k < c ==> #[trigger] self.started_at(0, k),
        decreases c0 - from,
    {
        if !self.started_at(0, from) {
            from
        } else {
            self.lowest_unstarted(from + 1, c0)
        }
    }

    proof fn lemma_after_start(&self, now: BoundedPrefillWavefront, task: SchedulerSparseWavefrontTask)
        requires
            self.wf(),
            self.first_eligible(task),
            self.pending@.len() < MAX_PENDING_SPARSE_WAVEFRONT_DISPATCHES,
            now.same_setup(self),
            cell_set(
                self.started@,
                now.started@,
                task.layer_offset as int,
                task.chunk_index as int,
            ),
            task.layer_offset == 0 && task.chunk_index > 0 ==> self.started_at(
                0,
                task.chunk_index - 1,
            ),
            task.layer_offset == 0 ==> now.active@ == self.active@.update(
                task.chunk_index as int,
                true,
            ),
            task.layer_offset != 0 ==> now.active@ == self.active@,
            now.active_count == row_count(now.active@),
            now.active_count <= now.max_active_chunks,
            now.active_count <= now.peak_active,
            if task.layer_offset < self.dense_layers {
                &&& cell_set(
                    self.finished@,
                    now.finished@,
                    task.layer_offset as int,
                    task.chunk_index as int,
                )
                &&& now.pending == self.pending
                &&& now.completed == self.completed + 1
                &&& grid_count(now.finished@) == grid_count(self.finished@) + 1
            } else {
                &&& now.finished == self.finished
                &&& now.pending@ == self.pending@.push(task)
                &&& now.completed == self.completed
            },
        ensures
            now.wf(),
    {
        let tl = task.layer_offset as int;
        let tc = task.chunk_index as int;
        let dense = task.layer_offset < self.dense_layers;
        assert(task == task_at(tl, tc));
        assert(self.in_range(tl, tc));
        assert(!self.started_at(tl, tc));
        assert(!self.finished_at(tl, tc));
        assert forall|r: int| 0 <= r < now.layer_count implies (#[trigger]
        now.started@[r])@.len() == now.chunk_count by {
            assert(self.started@[r]@.len() == self.chunk_count);
            if r != tl {
                assert(now.started@[r] == self.started@[r]);
            }
        }
        assert forall|r: int| 0 <= r < now.layer_count implies (#[trigger]
        now.finished@[r])@.len() == now.chunk_count by {
            assert(self.finished@[r]@.len() == self.chunk_count);
            if dense && r != tl {
                assert(now.finished@[r] == self.finished@[r]);
            }
        }
        assert forall|l: int, c: int| self.in_range(l, c) implies (#[trigger] now.started_at(l, c)
            <==> self.started_at(l, c) || (l == tl && c == tc)) by {
            assert(self.started@[l]@.len() == self.chunk_count);
            if l != tl {
                assert(now.started@[l] == self.started@[l]);
            }
        }
        assert forall|l: int, c: int| self.in_range(l, c) implies (#[trigger] now.finished_at(l, c)
            <==> self.finished_at(l, c) || (dense && l == tl && c == tc)) by {
            assert(self.finished@[l]@.len() == self.chunk_count);
            if dense && l != tl {
                assert(now.finished@[l] == self.finished@[l]);
            }
        }
        assert(!self.pending@.contains(task));
        assert forall|l: int, c: int| now.in_range(l, c) implies (
        now.pending@.contains(task_at(l, c)) <==> #[trigger] now.started_at(l, c)
            && !now.finished_at(l, c)) by {
            let here = task_at(l, c);
            assert(self.in_range(l, c));
            assert(self.pending@.contains(here) <==> self.started_at(l, c) && !self.finished_at(
                l,
                c,
            ));
            assert(now.finished_at(l, c) <==> self.finished_at(l, c) || (dense && l == tl && c
                == tc));
            if !dense {
                if self.pending@.contains(here) {
                    let i = choose|i: int|
                        0 <= i < self.pending@.len() && self.pending@[i] == here;
                    assert(now.pending@[i] == here);
                }
                if l == tl && c == tc {
                    assert(now.pending@[self.pending@.len() as int] == here);
                }
                if now.pending@.contains(here) {
                    let i = choose|i: int| 0 <= i < now.pending@.len() && now.pending@[i] == here;
                    if i < self.pending@.len() {
                        assert(self.pending@[i] == here);
                    } else {
                        assert(here == task);
                    }
                }
            }
        }
        if !dense {
            assert forall|i: int, j: int|
                0 <= i < now.pending@.len() && 0 <= j < now.pending@.len() && i
                    != j implies now.pending@[i] != now.pending@[j] by {
                if i < self.pending@.len() {
                    assert(self.pending@.contains(self.pending@[i]));
                }
                if j < self.pending@.len() {
                    assert(self.pending@.contains(self.pending@[j]));
                }
            }
            assert forall|i: int| 0 <= i < now.pending@.len() implies now.in_range(
                (#[trigger] now.pending@[i]).layer_offset as int,
                now.pending@[i].chunk_index as int,
            ) && now.pending@[i].layer_offset >= now.dense_layers by {
                if i < self.pending@.len() {
                    assert(now.pending@[i] == self.pending@[i]);
                }
            }
        }
        assert forall|l: int, k: int, c: int|
            #![trigger now.started_at(l, c), now.finished_at(k, c)]
            now.in_range(l, c) && 0 <= k < l && now.started_at(l, c) implies now.finished_at(
            k,
            c,
        ) by {
            assert(self.in_range(k, c));
            if l == tl && c == tc {
                assert(self.finished_at(tl - 1, tc));
                assert(self.started_at(tl - 1, tc));
            } else {
                assert(self.started_at(l, c));
            }
            assert(self.finished_at(k, c));
        }
        assert forall|c: int, d: int|
            #![trigger now.started_at(0, c), now.started_at(0, d)]
            0 <= d < c < now.chunk_count && 0 < now.layer_count && now.started_at(
                0,
                c,
            ) implies now.started_at(0, d) by {
            assert(self.in_range(0, c));
            assert(self.in_range(0, d));
            if tl == 0 && c == tc {
                assert(self.started_at(0, tc - 1));
            } else {
                assert(self.started_at(0, c));
            }
            assert(self.started_at(0, d));
        }
        assert forall|l: int, c: int|
            now.in_range(l, c) && #[trigger] now.finished_at(l, c) implies now.started_at(l, c) by {
            if !(l == tl && c == tc) {
                assert(self.finished_at(l, c));
                assert(self.started_at(l, c));
            }
            assert(now.started_at(l, c));
        }
        assert forall|c: int| 0 <= c < now.chunk_count && now.layer_count > 0 implies (#[trigger]
        now.active@[c] <==> now.started_at(0, c) && !(now.releases() && now.finished_at(
            now.layer_count - 1,
            c,
        ))) by {
            let last = now.layer_count - 1;
            assert(self.in_range(0, c));
            assert(self.in_range(last, c));
            assert(self.active@[c] <==> self.started_at(0, c) && !(self.releases()
                && self.finished_at(last, c)));
            assert(now.started_at(0, c) <==> self.started_at(0, c) || (0 == tl && c == tc));
            assert(now.finished_at(last, c) <==> self.finished_at(last, c) || (dense && last == tl
                && c == tc));
            if self.finished_at(last, c) && last > 0 {
                assert(self.started_at(last, c));
                assert(self.finished_at(0, c));
                assert(self.started_at(0, c));
            }
        }
    }

    /// Records that the pending task at `index` finished. A chunk that left
    /// the last layer leaves the device.
    #[verifier::rlimit(100)]
    #[verifier::spinoff_prover]
    pub fn finish(&mut self, index: usize) -> (done: BoundedFinish)
        requires
            old(self).wf(),
            index < old(self).pending@.len(),
        ensures
            final(self).wf(),
            finish_ok(*old(self), *final(self), index as int, done),
    {
        let ghost before = *self;
        let task = self.pending.remove(index);
        let ghost tl = task.layer_offset as int;
        let ghost tc = task.chunk_index as int;
        proof {
            assert(task == before.pending@[index as int]);
            assert(before.in_range(tl, tc));
            assert(task == task_at(tl, tc));
            assert(before.pending@.contains(task));
            assert(before.started_at(tl, tc) && !before.finished_at(tl, tc));
            assert(before.finished@[tl]@.len() == self.chunk_count);
        }
        set_cell(&mut self.finished, task.layer_offset, task.chunk_index);
        proof {
            lemma_grid_count_set(before.finished@, self.finished@, tl, tc);
            assert forall|r: int| 0 <= r < self.layer_count implies (#[trigger]
            self.finished@[r])@.len() == self.chunk_count by {
                if r != tl {
                    assert(self.finished@[r] == before.finished@[r]);
                }
            }
            lemma_grid_count_bound(self.finished@, self.chunk_count as int);
        }
        self.completed = self.completed + 1;
        let capture_tap: Option<usize> = if task.chunk_index + 1 == self.chunk_count {
            Some(task.layer_offset + 1)
        } else {
            None
        };
        let mut release: Option<ChunkRows> = None;
        if task.layer_offset + 1 == self.layer_count {
            release = Some(self.chunk_rows[task.chunk_index]);
            proof {
                if tl > 0 {
                    assert(before.finished_at(0, tc));
                    assert(before.started_at(0, tc));
                }
                assert(before.active@[tc]);
                lemma_row_count_clear(self.active@, tc);
            }
            self.active.set(task.chunk_index, false);
            self.active_count = self.active_count - 1;
        }
        proof {
            before.lemma_after_finish(*self, index as int);
        }
        BoundedFinish { task, capture_tap, release }
    }

    proof fn lemma_after_finish(&self, now: BoundedPrefillWavefront, index: int)
        requires
            self.wf(),
            0 <= index < self.pending@.len(),
            now.same_setup(self),
            now.started == self.started,
            now.pending@ == self.pending@.remove(index),
            cell_set(
                self.finished@,
                now.finished@,
                self.pending@[index].layer_offset as int,
                self.pending@[index].chunk_index as int,
            ),
            grid_count(now.finished@) == grid_count(self.finished@) + 1,
            now.completed == self.completed + 1,
            now.peak_active == self.peak_active,
            now.active_count == row_count(now.active@),
            now.active_count <= self.active_count,
            if self.pending@[index].layer_offset + 1 == self.layer_count {
                now.active@ == self.active@.update(self.pending@[index].chunk_index as int, false)
            } else {
                now.active@ == self.active@
            },
        ensures
            now.wf(),
    {
        let task = self.pending@[index];
        let tl = task.layer_offset as int;
        let tc = task.chunk_index as int;
        assert(self.in_range(tl, tc));
        assert(task == task_at(tl, tc));
        assert(self.pending@.contains(task));
        assert(self.started_at(tl, tc) && !self.finished_at(tl, tc));
        assert forall|r: int| 0 <= r < now.layer_count implies (#[trigger]
        now.finished@[r])@.len() == now.chunk_count by {
            assert(self.finished@[r]@.len() == self.chunk_count);
            if r != tl {
                assert(now.finished@[r] == self.finished@[r]);
            }
        }
        assert forall|l: int, c: int| self.in_range(l, c) implies (#[trigger] now.finished_at(l, c)
            <==> self.finished_at(l, c) || (l == tl && c == tc)) by {
            assert(self.finished@[l]@.len() == self.chunk_count);
            if l != tl {
                assert(now.finished@[l] == self.finished@[l]);
            }
        }
        assert forall|l: int, c: int| now.started_at(l, c) == self.started_at(l, c) by {}
        assert forall|i: int| 0 <= i < now.pending@.len() implies now.in_range(
            (#[trigger] now.pending@[i]).layer_offset as int,
            now.pending@[i].chunk_index as int,
        ) && now.pending@[i].layer_offset >= now.dense_layers by {
            if i < index {
                assert(now.pending@[i] == self.pending@[i]);
            } else {
                assert(now.pending@[i] == self.pending@[i + 1]);
            }
        }
        assert forall|i: int, j: int|
            0 <= i < now.pending@.len() && 0 <= j < now.pending@.len() && i
                != j implies now.pending@[i] != now.pending@[j] by {
            let bi = if i < index {
                i
            } else {
                i + 1
            };
            let bj = if j < index {
                j
            } else {
                j + 1
            };
            assert(now.pending@[i] == self.pending@[bi]);
            assert(now.pending@[j] == self.pending@[bj]);
        }
        assert forall|l: int, c: int| now.in_range(l, c) implies (
        now.pending@.contains(task_at(l, c)) <==> now.started_at(l, c) && !#[trigger] now.finished_at(
            l,
            c,
        )) by {
            let here = task_at(l, c);
            assert(self.in_range(l, c));
            assert(self.pending@.contains(here) <==> self.started_at(l, c) && !self.finished_at(
                l,
                c,
            ));
            if now.pending@.contains(here) {
                let i = choose|i: int| 0 <= i < now.pending@.len() && now.pending@[i] == here;
                let j = if i < index {
                    i
                } else {
                    i + 1
                };
                assert(self.pending@[j] == here);
                assert(here != task);
            }
            if self.pending@.contains(here) && !(l == tl && c == tc) {
                let j = choose|j: int| 0 <= j < self.pending@.len() && self.pending@[j] == here;
                assert(here != task);
                let i = if j < index {
                    j
                } else {
                    j - 1
                };
                assert(now.pending@[i] == here);
            }
        }
        assert forall|l: int, k: int, c: int|
            #![trigger now.started_at(l, c), now.finished_at(k, c)]
            now.in_range(l, c) && 0 <= k < l && now.started_at(l, c) implies now.finished_at(
            k,
            c,
        ) by {
            assert(self.in_range(k, c));
            assert(self.started_at(l, c));
            assert(self.finished_at(k, c));
        }
        assert forall|c: int, d: int|
            #![trigger now.started_at(0, c), now.started_at(0, d)]
            0 <= d < c < now.chunk_count && 0 < now.layer_count && now.started_at(
                0,
                c,
            ) implies now.started_at(0, d) by {
            assert(self.started_at(0, c));
            assert(self.started_at(0, d));
        }
        assert forall|l: int, c: int|
            now.in_range(l, c) && #[trigger] now.finished_at(l, c) implies now.started_at(l, c) by {
            if !(l == tl && c == tc) {
                assert(self.finished_at(l, c));
            }
            assert(self.started_at(l, c));
        }
        assert forall|c: int| 0 <= c < now.chunk_count && now.layer_count > 0 implies (#[trigger]
        now.active@[c] <==> now.started_at(0, c) && !(now.releases() && now.finished_at(
            now.layer_count - 1,
            c,
        ))) by {
            let last = now.layer_count - 1;
            assert(self.in_range(last, c));
            assert(self.active@[c] <==> self.started_at(0, c) && !(self.releases()
                && self.finished_at(last, c)));
            assert(now.finished_at(last, c) <==> self.finished_at(last, c) || (last == tl && c
                == tc));
        }
    }

    /// What to do once no further task can start.
    pub fn verdict(&self) -> (v: WavefrontVerdict)
        requires
            self.wf(),
        ensures
            v == WavefrontVerdict::Done <==> self.all_finished(),
            v == WavefrontVerdict::Working <==> !self.all_finished() && self.pending@.len() > 0,
            v == WavefrontVerdict::Stalled <==> !self.all_finished() && self.pending@.len() == 0,
    {
        proof {
            lemma_grid_count_bound(self.finished@, self.chunk_count as int);
            if forall|l: int, c: int|
                0 <= l < self.finished@.len() && 0 <= c < self.chunk_count ==> #[trigger] cell(
                    self.finished@,
                    l,
                    c,
                ) {
                assert forall|l: int, c: int| self.in_range(l, c) implies #[trigger]
                self.finished_at(l, c) by {
                    assert(cell(self.finished@, l, c));
                }
            }
            if self.all_finished() {
                assert forall|l: int, c: int|
                    0 <= l < self.finished@.len() && 0 <= c < self.chunk_count implies #[trigger]
                cell(self.finished@, l, c) by {
                    assert(self.finished_at(l, c));
                }
            }
        }
        let task_count: usize = self.layer_count * self.chunk_count;
        if self.completed == task_count {
            WavefrontVerdict::Done
        } else if self.pending.len() == 0 {
            WavefrontVerdict::Stalled
        } else {
            WavefrontVerdict::Working
        }
    }

    /// Whether nothing is left behind: all tasks finished, none pending and no
    /// chunk on the device.
    pub fn is_clean(&self) -> (clean: bool)
        requires
            self.wf(),
        ensures
            clean == (self.all_finished() && self.pending@.len() == 0 && self.active_count == 0),
    {
        match self.verdict() {
            WavefrontVerdict::Done => self.pending.len() == 0 && self.active_count == 0,
            _ => false,
        }
    }

    /// How many layers chunk `c` has left, where none is under way.
    proof fn height_of(&self, c: int, from: int) -> (h: int)
        requires
            self.wf(),
            0 <= c < self.chunk_count,
            0 <= from <= self.layer_count,
            forall|l: int| 0 <= l < from ==> #[trigger] self.finished_at(l, c),
        ensures
            from <= h <= self.layer_count,
            forall|l: int| 0 <= l < h ==> #[trigger] self.finished_at(l, c),
            forall|l: int| h <= l < self.layer_count ==> !#[trigger] self.finished_at(l, c),
        decreases self.layer_count - from,
    {
        if from == self.layer_count {
            from
        } else if self.finished_at(from, c) {
            self.height_of(c, from + 1)
        } else {
            assert forall|l: int| from <= l < self.layer_count implies !#[trigger] self.finished_at(
                l,
                c,
            ) by {
                if self.finished_at(l, c) && l > from {
                    assert(self.in_range(l, c));
                    assert(self.started_at(l, c));
                    assert(self.finished_at(from, c));
                }
            }
            from
        }
    }

    /// The lowest chunk from `from` on that has not left every layer.
    proof fn lowest_open_chunk(&self, from: int, l0: int, c0: int) -> (c: int)
        requires
            0 <= from <= c0,
            self.in_range(l0, c0),
            !self.finished_at(l0, c0),
            forall|l: int, k: int|
                self.in_range(l, k) && k < from ==> #[trigger] self.finished_at(l, k),
        ensures
            0 <= c <= c0,
            exists|l: int| self.in_range(l, c) && !#[trigger] self.finished_at(l, c),
            forall|l: int, k: int|
                self.in_range(l, k) && k < c ==> #[trigger] self.finished_at(l, k),
        decreases c0 - from,
    {
        if exists|l: int| self.in_range(l, from) && !#[trigger] self.finished_at(l, from) {
            from
        } else {
            assert(from != c0);
            self.lowest_open_chunk(from + 1, l0, c0)
        }
    }

    /// Among the retained chunks from `from` on, one that has left the fewest
    /// layers, the first of these.
    proof fn slowest_suffix(&self, from: int) -> (best: (int, int))
        requires
            self.wf(),
            self.tap_suffix_start <= from < self.chunk_count,
        ensures
            from <= best.0 < self.chunk_count,
            0 <= best.1 <= self.layer_count,
            forall|l: int| 0 <= l < best.1 ==> #[trigger] self.finished_at(l, best.0),
            forall|l: int| best.1 <= l < self.layer_count ==> !#[trigger] self.finished_at(
                l,
                best.0,
            ),
            forall|l: int, k: int|
                from <= k < self.chunk_count && 0 <= l < best.1 ==> #[trigger] self.finished_at(
                    l,
                    k,
                ),
            forall|k: int|
                from <= k < best.0 && best.1 < self.layer_count ==> #[trigger] self.finished_at(
                    best.1,
                    k,
                ),
        decreases self.chunk_count - from,
    {
        let h = self.height_of(from, 0);
        if from == self.chunk_count - 1 {
            (from, h)
        } else {
            let rest = self.slowest_suffix(from + 1);
            if h <= rest.1 {
                (from, h)
            } else {
                rest
            }
        }
    }

    /// The wavefront never stalls while the retained chunks fit the device
    /// together and the last layer is sparse: while a task is unfinished and
    /// none is pending, some task may start.
    pub proof fn law_never_stalls(&self)
        requires
            self.wf(),
            !self.all_finished(),
            self.pending@.len() == 0,
            self.releases(),
            self.max_active_chunks >= 1,
            self.chunk_count - self.tap_suffix_start <= self.max_active_chunks,
        ensures
            exists|l: int, c: int| self.in_range(l, c) && #[trigger] self.eligible(l, c),
    {
        let last = self.layer_count - 1;
        let (l0, c0) = choose|l: int, c: int|
            self.in_range(l, c) && !#[trigger] self.finished_at(l, c);
        let c = self.lowest_open_chunk(0, l0, c0);
        let h = self.height_of(c, 0);
        let open = choose|l: int| self.in_range(l, c) && !#[trigger] self.finished_at(l, c);
        assert(h < self.layer_count);
        assert(!self.finished_at(h, c));
        assert(!self.pending@.contains(task_at(h, c)));
        assert(!self.started_at(h, c));
        if h > 0 {
            assert(self.finished_at(h - 1, c));
        }
        if c > 0 {
            assert(self.in_range(h, c - 1));
            assert(self.finished_at(h, c - 1));
            assert(self.started_at(h, c - 1));
        }
        assert(self.previous_chunk_ready(h, c));
        assert forall|k: int| 0 <= k < c implies !#[trigger] self.active@[k] by {
            assert(self.in_range(last, k));
            assert(self.finished_at(last, k));
        }
        if h == 0 {
            assert forall|k: int| 0 <= k < self.chunk_count implies !#[trigger] self.active@[k] by {
                if k >= c && self.active@[k] {
                    assert(self.started_at(0, k));
                    assert(!self.started_at(0, c));
                }
            }
            lemma_no_flag_set(self.active@);
            assert(self.eligible(0, c));
        } else if self.prior_tap_captured(h, c) {
            assert(self.eligible(h, c));
        } else {
            let best = self.slowest_suffix(self.tap_suffix_start as int);
            let kb = best.0;
            let hb = best.1;
            let late = choose|k: int|
                self.tap_suffix_start <= k < self.chunk_count && !#[trigger] self.finished_at(
                    h - 1,
                    k,
                );
            assert(hb <= h - 1) by {
                if hb > h - 1 {
                    assert(self.finished_at(h - 1, late));
                }
            }
            assert(hb < self.layer_count);
            assert(!self.finished_at(hb, kb));
            assert(kb > c) by {
                if kb < c {
                    assert(self.in_range(hb, kb));
                    assert(self.finished_at(hb, kb));
                }
                if kb == c {
                    assert(self.finished_at(hb, c));
                }
            }
            assert(self.in_range(hb, kb));
            assert(!self.pending@.contains(task_at(hb, kb)));
            assert(!self.started_at(hb, kb));
            assert(self.finished_at(hb, kb - 1));
            assert(self.in_range(hb, kb - 1));
            assert(self.started_at(hb, kb - 1));
            if hb > 0 {
                assert(self.finished_at(hb - 1, kb));
                assert(self.suffix_left(hb - 1));
            } else {
                assert(!self.active@[kb]);
                lemma_row_count_outside(self.active@, self.tap_suffix_start as int, kb);
            }
            assert(self.eligible(hb, kb));
        }
    }
}

/// A row without set flags before `from` and with the flag at `hole` not set
/// holds fewer set flags than places from `from` on.
proof fn lemma_row_count_outside(row: Seq<bool>, from: int, hole: int)
    requires
        0 <= from <= hole < row.len(),
        forall|i: int| 0 <= i < from ==> !row[i],
        !row[hole],
    ensures
        row_count(row) <= row.len() - from - 1,
    decreases row.len(),
{
    let front = row.drop_last();
    if hole == row.len() - 1 {
        lemma_row_count_from(front, from);
    } else {
        lemma_row_count_outside(front, from, hole);
    }
}

proof fn lemma_row_count_from(row: Seq<bool>, from: int)
    requires
        0 <= from <= row.len(),
        forall|i: int| 0 <= i < from ==> !row[i],
    ensures
        row_count(row) <= row.len() - from,
    decreases row.len(),
{
    if from == row.len() {
        lemma_no_flag_set(row);
    } else {
        lemma_row_count_from(row.drop_last(), from);
    }
}

} // verus!
