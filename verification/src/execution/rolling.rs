//! The rolling sparse wavefront: source chunks are admitted one per turn and
//! repacked into physical dispatches, of which a bounded number is under way.
use vstd::prelude::*;

use crate::execution::wavefront::{
    next_ready_sparse_wavefront_task, SchedulerSparseWavefrontTask,
};
use crate::execution::wavefront::{first_ready, lemma_lowest_unfinished, task_ready};
use crate::grid::{cell, cell_set, grid_count, grid_shape, new_grid, new_row, row_all_set, set_cell};
use crate::grid::{lemma_grid_count_bound, lemma_grid_count_set};
use crate::text::{append_size, decimal};

verus! {

/// The most dispatches that may be under way.
pub const MAX_ACTIVE_ROLLING_SPARSE_DISPATCHES: usize = 8;

/// The dispatches, under way or queued, at which no chunk is admitted.
pub const MAX_BUFFERED_ROLLING_SPARSE_DISPATCHES: usize = 16;

/// What one rolling layer holds at a moment.
#[derive(Clone, Copy, Debug, PartialEq, Eq, Structural)]
pub struct RollingLayerStatus {
    pub active_dispatches: usize,
    pub buffered_dispatches: usize,
    pub queued_dispatches: usize,
    pub accumulator_active_pages: usize,
    pub accumulator_active_rows: usize,
    pub complete: bool,
}

/// A number of a layer, zero where the layer is not there.
pub open spec fn layer_number(
    layers: Seq<Option<RollingLayerStatus>>,
    number: spec_fn(RollingLayerStatus) -> int,
    i: int,
) -> int {
    match layers[i] {
        Some(layer) => number(layer),
        None => 0,
    }
}

/// The sum of a number over the first `n` layers.
pub open spec fn layer_sum(
    layers: Seq<Option<RollingLayerStatus>>,
    number: spec_fn(RollingLayerStatus) -> int,
    n: int,
) -> int
    decreases n,
{
    if n <= 0 {
        0
    } else {
        layer_sum(layers, number, n - 1) + layer_number(layers, number, n - 1)
    }
}

pub open spec fn active_number() -> spec_fn(RollingLayerStatus) -> int {
    |layer: RollingLayerStatus| layer.active_dispatches as int
}

pub open spec fn buffered_number() -> spec_fn(RollingLayerStatus) -> int {
    |layer: RollingLayerStatus| layer.buffered_dispatches as int
}

pub open spec fn pages_number() -> spec_fn(RollingLayerStatus) -> int {
    |layer: RollingLayerStatus| layer.accumulator_active_pages as int
}

pub open spec fn rows_number() -> spec_fn(RollingLayerStatus) -> int {
    |layer: RollingLayerStatus| layer.accumulator_active_rows as int
}

proof fn lemma_layer_sum_monotone(
    layers: Seq<Option<RollingLayerStatus>>,
    number: spec_fn(RollingLayerStatus) -> int,
    k: int,
    n: int,
)
    requires
        0 <= k <= n,
        forall|layer: RollingLayerStatus| #[trigger] number(layer) >= 0,
    ensures
        0 <= layer_sum(layers, number, k) <= layer_sum(layers, number, n),
    decreases n,
{
    if k < n {
        lemma_layer_sum_monotone(layers, number, k, n - 1);
    } else if n > 0 {
        lemma_layer_sum_monotone(layers, number, n - 1, n - 1);
    }
}

/// The dispatches under way over all layers.
pub fn rolling_sparse_active_dispatches(layers: &[Option<RollingLayerStatus>]) -> (active: usize)
    requires
        layer_sum(layers@, active_number(), layers@.len() as int) <= usize::MAX,
    ensures
        active == layer_sum(layers@, active_number(), layers@.len() as int),
{
    let mut sum: usize = 0;
    let mut i: usize = 0;
    while i < layers.len()
        invariant
            i <= layers@.len(),
            layer_sum(layers@, active_number(), layers@.len() as int) <= usize::MAX,
            sum == layer_sum(layers@, active_number(), i as int),
        decreases layers@.len() - i,
    {
        proof {
            lemma_layer_sum_monotone(layers@, active_number(), i + 1, layers@.len() as int);
        }
        if let Some(layer) = layers[i] {
            sum = sum + layer.active_dispatches;
        }
        i = i + 1;
    }
    sum
}

/// The dispatches under way or queued over all layers.
pub fn rolling_sparse_buffered_dispatches(layers: &[Option<RollingLayerStatus>]) -> (buffered:
    usize)
    requires
        layer_sum(layers@, buffered_number(), layers@.len() as int) <= usize::MAX,
    ensures
        buffered == layer_sum(layers@, buffered_number(), layers@.len() as int),
{
    let mut sum: usize = 0;
    let mut i: usize = 0;
    while i < layers.len()
        invariant
            i <= layers@.len(),
            layer_sum(layers@, buffered_number(), layers@.len() as int) <= usize::MAX,
            sum == layer_sum(layers@, buffered_number(), i as int),
        decreases layers@.len() - i,
    {
        proof {
            lemma_layer_sum_monotone(layers@, buffered_number(), i + 1, layers@.len() as int);
        }
        if let Some(layer) = layers[i] {
            sum = sum + layer.buffered_dispatches;
        }
        i = i + 1;
    }
    sum
}

/// The accumulator pages and rows in use over all layers.
pub fn rolling_sparse_active_accumulators(layers: &[Option<RollingLayerStatus>]) -> (used: (
    usize,
    usize,
))
    requires
        layer_sum(layers@, pages_number(), layers@.len() as int) <= usize::MAX,
        layer_sum(layers@, rows_number(), layers@.len() as int) <= usize::MAX,
    ensures
        used.0 == layer_sum(layers@, pages_number(), layers@.len() as int),
        used.1 == layer_sum(layers@, rows_number(), layers@.len() as int),
{
    let mut pages: usize = 0;
    let mut rows: usize = 0;
    let mut i: usize = 0;
    while i < layers.len()
        invariant
            i <= layers@.len(),
            layer_sum(layers@, pages_number(), layers@.len() as int) <= usize::MAX,
            layer_sum(layers@, rows_number(), layers@.len() as int) <= usize::MAX,
            pages == layer_sum(layers@, pages_number(), i as int),
            rows == layer_sum(layers@, rows_number(), i as int),
        decreases layers@.len() - i,
    {
        proof {
            lemma_layer_sum_monotone(layers@, pages_number(), i + 1, layers@.len() as int);
            lemma_layer_sum_monotone(layers@, rows_number(), i + 1, layers@.len() as int);
        }
        if let Some(layer) = layers[i] {
            pages = pages + layer.accumulator_active_pages;
            rows = rows + layer.accumulator_active_rows;
        }
        i = i + 1;
    }
    (pages, rows)
}

/// The limit on dispatches under way, where a number is asked for: that number
/// if it is one of those allowed, else the most that are.
pub open spec fn dispatch_limit(requested: Option<usize>) -> usize {
    match requested {
        Some(n) if 0 < n < MAX_ACTIVE_ROLLING_SPARSE_DISPATCHES => n,
        _ => MAX_ACTIVE_ROLLING_SPARSE_DISPATCHES,
    }
}

/// The limit on dispatches under way: the requested one where it is positive,
/// and never more than the built-in one.
pub fn active_dispatch_limit(requested: Option<usize>) -> (limit: usize)
    ensures
        limit == dispatch_limit(requested),
{
    match requested {
        Some(n) => if n > 0 && n < MAX_ACTIVE_ROLLING_SPARSE_DISPATCHES {
            n
        } else {
            MAX_ACTIVE_ROLLING_SPARSE_DISPATCHES
        },
        None => MAX_ACTIVE_ROLLING_SPARSE_DISPATCHES,
    }
}

/// The number that a run of decimal digits writes.
pub open spec fn digits_value(digits: Seq<char>) -> int
    decreases digits.len(),
{
    if digits.len() == 0 {
        0
    } else {
        10 * digits_value(digits.drop_last()) + (digits.last() as int - '0' as int)
    }
}

/// The number that a text writes: digits, at least one, after an optional plus
/// sign, of a value that the machine's sizes hold.
pub open spec fn parsed_usize(text: Seq<char>) -> Option<usize> {
    let digits = if text.len() > 0 && text[0] == '+' {
        text.skip(1)
    } else {
        text
    };
    if digits.len() > 0 && (forall|i: int|
        0 <= i < digits.len() ==> '0' <= #[trigger] digits[i] <= '9') && digits_value(digits)
        <= usize::MAX {
        Some(digits_value(digits) as usize)
    } else {
        None
    }
}

/// Calls `str::parse::<usize>`. The contract states the numbers that it reads;
/// any other text gives none.
#[verifier::external_body]
fn parse_usize(text: &str) -> (number: Option<usize>)
    ensures
        number == parsed_usize(text@),
{
    text.parse::<usize>().ok()
}

/// The limit on dispatches under way, as a setting asks for it.
pub fn rolling_sparse_max_active_dispatches(setting: Option<&str>) -> (limit: usize)
    ensures
        ({
            let requested = match setting {
                Some(text) => parsed_usize(text@),
                None => None,
            };
            limit == dispatch_limit(requested)
        }),
        1 <= limit <= MAX_ACTIVE_ROLLING_SPARSE_DISPATCHES,
{
    match setting {
        Some(text) => active_dispatch_limit(parse_usize(text)),
        None => active_dispatch_limit(None),
    }
}

/// Rounds over the layers that start one queued dispatch per layer and round.
#[derive(Clone, Copy, Debug, PartialEq, Eq, Structural)]
pub struct RollingDispatchRound {
    pub max_active: usize,
    pub active: usize,
    pub started: usize,
    pub cursor: usize,
    pub round_started: bool,
}

/// A layer has a dispatch that waits to start.
pub open spec fn layer_queued(layers: Seq<Option<RollingLayerStatus>>, i: int) -> bool {
    layers[i] is Some && layers[i]->Some_0.queued_dispatches > 0
}

/// No layer from `from` up to `to` has a dispatch that waits to start.
pub open spec fn none_queued(
    layers: Seq<Option<RollingLayerStatus>>,
    from: int,
    to: int,
) -> bool {
    forall|i: int| from <= i < to ==> !#[trigger] layer_queued(layers, i)
}

fn first_queued(layers: &[Option<RollingLayerStatus>], from: usize) -> (place: usize)
    requires
        from <= layers@.len(),
    ensures
        from <= place <= layers@.len(),
        none_queued(layers@, from as int, place as int),
        place < layers@.len() ==> layer_queued(layers@, place as int),
{
    let mut i: usize = from;
    while i < layers.len()
        invariant
            from <= i <= layers@.len(),
            none_queued(layers@, from as int, i as int),
        decreases layers@.len() - i,
    {
        let queued: bool = match layers[i] {
            Some(layer) => layer.queued_dispatches > 0,
            None => false,
        };
        assert(queued == layer_queued(layers@, i as int));
        if queued {
            return i;
        }
        i = i + 1;
    }
    i
}

impl RollingDispatchRound {
    pub open spec fn wf(&self, layers: Seq<Option<RollingLayerStatus>>) -> bool {
        self.cursor <= layers.len()
    }

    /// Rounds that begin with `active` dispatches under way.
    pub fn new(max_active: usize, active: usize) -> (round: Self)
        ensures
            round == (RollingDispatchRound {
                max_active,
                active,
                started: 0,
                cursor: 0,
                round_started: false,
            }),
    {
        RollingDispatchRound { max_active, active, started: 0, cursor: 0, round_started: false }
    }

    /// Records that `count` dispatches of the offered layer started.
    pub fn record(&mut self, count: usize)
        requires
            old(self).active + count <= usize::MAX,
            old(self).started + count <= usize::MAX,
        ensures
            final(self).active == old(self).active + count,
            final(self).started == old(self).started + count,
            final(self).round_started == (old(self).round_started || count > 0),
            final(self).cursor == old(self).cursor,
            final(self).max_active == old(self).max_active,
    {
        self.active = self.active + count;
        self.started = self.started + count;
        if count > 0 {
            self.round_started = true;
        }
    }
}

/// Which layer a round offers next, and how the round goes on.
pub open spec fn round_offers(
    before: RollingDispatchRound,
    after: RollingDispatchRound,
    layers: Seq<Option<RollingLayerStatus>>,
    layer: Option<usize>,
) -> bool {
    &&& after.active == before.active
    &&& after.started == before.started
    &&& after.max_active == before.max_active
    &&& match layer {
        Some(i) => {
            &&& before.active < before.max_active
            &&& i < layers.len()
            &&& layer_queued(layers, i as int)
            &&& after.cursor == i + 1
            &&& if i >= before.cursor && none_queued(layers, before.cursor as int, i as int) {
                after.round_started == before.round_started
            } else {
                &&& before.round_started
                &&& none_queued(layers, before.cursor as int, layers.len() as int)
                &&& none_queued(layers, 0, i as int)
                &&& !after.round_started
            }
        },
        None => before.active >= before.max_active || (none_queued(
            layers,
            before.cursor as int,
            layers.len() as int,
        ) && (!before.round_started || none_queued(layers, 0, layers.len() as int))),
    }
}

/// The next layer to start one dispatch of: the next one in this round that
/// has one queued, else the first one of a new round if this round started
/// any. None is offered once the limit is reached.
pub fn start_ready_rolling_sparse_dispatches(
    round: &mut RollingDispatchRound,
    layers: &[Option<RollingLayerStatus>],
) -> (layer: Option<usize>)
    requires
        old(round).wf(layers@),
    ensures
        final(round).wf(layers@),
        round_offers(*old(round), *final(round), layers@, layer),
{
    if round.active >= round.max_active {
        return None;
    }
    let place: usize = first_queued(layers, round.cursor);
    if place < layers.len() {
        round.cursor = place + 1;
        return Some(place);
    }
    if !round.round_started {
        return None;
    }
    let again: usize = first_queued(layers, 0);
    if again < layers.len() {
        round.cursor = again + 1;
        round.round_started = false;
        Some(again)
    } else {
        None
    }
}

/// Why a rolling wavefront fails.
#[derive(Clone, Copy, Debug, PartialEq, Eq, Structural)]
pub enum RollingError {
    RowOverflow,
    NotEligible { rows: usize, chunks: usize },
    TaskCountOverflow,
    CompletedTwice { layer_id: usize, chunk: usize },
    UnfinishedLayer { layer_id: usize },
    WrongPlan { layer_id: usize, planned: usize, expected: usize },
    Stalled,
    UnfinishedTasks,
}

impl RollingError {
    pub open spec fn text(self) -> Seq<char> {
        match self {
            RollingError::RowOverflow => "rolling sparse total row count overflow"@,
            RollingError::NotEligible { rows, chunks } =>
                "rolling sparse wavefront rows="@ + decimal(rows as nat) + " chunks="@
                + decimal(chunks as nat) + " are not eligible"@,
            RollingError::TaskCountOverflow => "rolling sparse wavefront task count overflow"@,
            RollingError::CompletedTwice { layer_id, chunk } =>
                "rolling sparse layer "@ + decimal(layer_id as nat) + " completed chunk "@
                + decimal(chunk as nat) + " twice"@,
            RollingError::UnfinishedLayer { layer_id } =>
                "rolling sparse layer "@ + decimal(layer_id as nat)
                + " completed with unfinished chunks"@,
            RollingError::WrongPlan { layer_id, planned, expected } =>
                "rolling sparse layer "@ + decimal(layer_id as nat) + " planned "@
                + decimal(planned as nat) + " chunks, expected "@ + decimal(expected as nat),
            RollingError::Stalled =>
                "rolling sparse wavefront stalled without ready or buffered work"@,
            RollingError::UnfinishedTasks => "rolling sparse wavefront left unfinished tasks"@,
        }
    }

    pub fn message(&self) -> (out: String)
        ensures
            out@ == self.text(),
    {
        match self {
            RollingError::RowOverflow => "rolling sparse total row count overflow".to_owned(),
            RollingError::NotEligible { rows, chunks } => {
                let mut out: String = "rolling sparse wavefront rows=".to_owned();
                append_size(&mut out, *rows);
                out.append(" chunks=");
                append_size(&mut out, *chunks);
                out.append(" are not eligible");
                out
            },
            RollingError::TaskCountOverflow => {
                "rolling sparse wavefront task count overflow".to_owned()
            },
            RollingError::CompletedTwice { layer_id, chunk } => {
                let mut out: String = "rolling sparse layer ".to_owned();
                append_size(&mut out, *layer_id);
                out.append(" completed chunk ");
                append_size(&mut out, *chunk);
                out.append(" twice");
                out
            },
            RollingError::UnfinishedLayer { layer_id } => {
                let mut out: String = "rolling sparse layer ".to_owned();
                append_size(&mut out, *layer_id);
                out.append(" completed with unfinished chunks");
                out
            },
            RollingError::WrongPlan { layer_id, planned, expected } => {
                let mut out: String = "rolling sparse layer ".to_owned();
                append_size(&mut out, *layer_id);
                out.append(" planned ");
                append_size(&mut out, *planned);
                out.append(" chunks, expected ");
                append_size(&mut out, *expected);
                out
            },
            RollingError::Stalled => {
                "rolling sparse wavefront stalled without ready or buffered work".to_owned()
            },
            RollingError::UnfinishedTasks => {
                "rolling sparse wavefront left unfinished tasks".to_owned()
            },
        }
    }
}

/// A chunk that is admitted this turn: the layer it enters, whether that
/// layer's waves have to be planned and the layer to be opened first, and
/// whether the chunk is the last one.
#[derive(Clone, Copy, Debug, PartialEq, Eq, Structural)]
pub struct RollingStart {
    pub task: SchedulerSparseWavefrontTask,
    pub layer_id: usize,
    pub plan_layer: bool,
    pub open_layer: bool,
    pub final_chunk: bool,
}

/// Whether a chunk is admitted this turn.
#[derive(Clone, Copy, Debug, PartialEq, Eq, Structural)]
pub enum RollingAdmission {
    Admit(RollingStart),
    NoneReady,
    Full,
}

/// What ends a turn: begin the next one at once, or wait before it.
#[derive(Clone, Copy, Debug, PartialEq, Eq, Structural)]
pub enum RollingTurn {
    Continue,
    Idle,
}

/// The rows of a request, where they fit.
pub open spec fn rolling_rows(prefill: int, decode: int, mtp: int) -> Option<usize> {
    if prefill + decode + mtp <= usize::MAX {
        Some((prefill + decode + mtp) as usize)
    } else {
        None
    }
}

/// Why a rolling wavefront cannot be set up, if anything stands against it.
pub open spec fn rolling_setup_error(
    layers: int,
    chunks: int,
    rows: Option<usize>,
    packs_supported: bool,
) -> Option<RollingError> {
    match rows {
        None => Some(RollingError::RowOverflow),
        Some(rows) => if chunks < 2 || !packs_supported {
            Some(RollingError::NotEligible { rows, chunks: chunks as usize })
        } else if layers * chunks > usize::MAX {
            Some(RollingError::TaskCountOverflow)
        } else {
            None
        },
    }
}

/// The `i`th reported chunk is one of the layer's and left it only now.
pub open spec fn newly_completed(
    finished: Seq<Vec<bool>>,
    l: int,
    chunks: int,
    completed: Seq<usize>,
    i: int,
) -> bool {
    &&& completed[i] < chunks
    &&& !cell(finished, l, completed[i] as int)
    &&& forall|j: int| 0 <= j < i ==> #[trigger] completed[j] != completed[i]
}

/// The state of a rolling wavefront.
pub struct RollingWavefront {
    pub first_sparse_layer: usize,
    pub layer_count: usize,
    pub chunk_count: usize,
    pub total_rows: usize,
    pub started: Vec<Vec<bool>>,
    pub finished: Vec<Vec<bool>>,
    pub completed: usize,
    pub held: Vec<bool>,
    pub made_progress: bool,
}

/// What recording the progress of a layer does, and what it gives.
pub open spec fn progress_recorded(
    before: RollingWavefront,
    after: RollingWavefront,
    layer_offset: int,
    made_progress: bool,
    completed: Seq<usize>,
    result: Result<Option<usize>, RollingError>,
) -> bool {
    let chunks = before.chunk_count as int;
    &&& after.same_frame(before)
    &&& after.started == before.started
    &&& after.held == before.held
    &&& after.made_progress == (before.made_progress || made_progress)
    &&& result is Ok <==> forall|i: int|
        0 <= i < completed.len() ==> #[trigger] newly_completed(
            before.finished@,
            layer_offset,
            chunks,
            completed,
            i,
        )
    &&& result matches Err(e) ==> exists|i: int|
        0 <= i < completed.len() && !#[trigger] newly_completed(
            before.finished@,
            layer_offset,
            chunks,
            completed,
            i,
        ) && (forall|j: int|
            0 <= j < i ==> #[trigger] newly_completed(
                before.finished@,
                layer_offset,
                chunks,
                completed,
                j,
            )) && e == (RollingError::CompletedTwice {
            layer_id: (before.first_sparse_layer + layer_offset) as usize,
            chunk: completed[i],
        })
    &&& result matches Ok(tap) ==> {
        &&& tap == (if completed.contains((chunks - 1) as usize) {
            Some((before.first_sparse_layer + layer_offset + 1) as usize)
        } else {
            None
        })
        &&& after.completed == before.completed + completed.len()
        &&& forall|l: int, c: int|
            before.in_range(l, c) ==> #[trigger] cell(after.finished@, l, c) == (cell(
                before.finished@,
                l,
                c,
            ) || l == layer_offset && completed.contains(c as usize))
    }
}

/// What retiring a layer does, and whether it is retired.
pub open spec fn layer_retired(
    before: RollingWavefront,
    after: RollingWavefront,
    layer_offset: int,
    result: Result<(), RollingError>,
) -> bool {
    let left = forall|c: int|
        0 <= c < before.chunk_count ==> #[trigger] cell(before.finished@, layer_offset, c);
    &&& after.same_frame(before)
    &&& after.started == before.started
    &&& after.finished == before.finished
    &&& after.completed == before.completed
    &&& after.made_progress == before.made_progress
    &&& result == (if left {
        Ok::<(), RollingError>(())
    } else {
        Err::<(), RollingError>(
            RollingError::UnfinishedLayer {
                layer_id: (before.first_sparse_layer + layer_offset) as usize,
            },
        )
    })
    &&& after.held@ == (if left {
        before.held@.update(layer_offset, false)
    } else {
        before.held@
    })
}

/// Which chunk is admitted, and what its admission takes.
pub open spec fn admission_ok(
    w: RollingWavefront,
    buffered: usize,
    admission: RollingAdmission,
) -> bool {
    &&& admission is Full <==> buffered >= MAX_BUFFERED_ROLLING_SPARSE_DISPATCHES
    &&& admission matches RollingAdmission::Admit(start) ==> {
        &&& first_ready(
            w.started@,
            w.finished@,
            w.layer_count as int,
            w.chunk_count as int,
            start.task,
        )
        &&& start.layer_id == w.first_sparse_layer + start.task.layer_offset
        &&& start.plan_layer == (start.task.chunk_index == 0)
        &&& start.open_layer == !w.held@[start.task.layer_offset as int]
        &&& start.final_chunk == (start.task.chunk_index + 1 == w.chunk_count)
    }
    &&& admission is NoneReady ==> !w.some_ready()
}

/// What handing a chunk to its layer does.
pub open spec fn chunk_started(
    before: RollingWavefront,
    after: RollingWavefront,
    task: SchedulerSparseWavefrontTask,
) -> bool {
    &&& after.same_frame(before)
    &&& cell_set(
        before.started@,
        after.started@,
        task.layer_offset as int,
        task.chunk_index as int,
    )
    &&& after.finished == before.finished
    &&& after.completed == before.completed
    &&& after.held@ == before.held@.update(task.layer_offset as int, true)
    &&& after.made_progress
}

impl RollingWavefront {
    pub open spec fn in_range(&self, l: int, c: int) -> bool {
        0 <= l < self.layer_count && 0 <= c < self.chunk_count
    }

    pub open spec fn wf(&self) -> bool {
        &&& grid_shape(self.started@, self.layer_count as int, self.chunk_count as int)
        &&& grid_shape(self.finished@, self.layer_count as int, self.chunk_count as int)
        &&& self.held@.len() == self.layer_count
        &&& self.chunk_count >= 2
        &&& self.layer_count + self.chunk_count <= usize::MAX
        &&& self.first_sparse_layer + self.layer_count < usize::MAX
        &&& self.layer_count * self.chunk_count <= usize::MAX
        &&& self.completed == grid_count(self.finished@)
    }

    /// Chunks left only layers that they entered, and entered a layer after
    /// they left the one below and after their predecessor entered it.
    pub open spec fn in_order(&self) -> bool {
        &&& forall|l: int, c: int|
            self.in_range(l, c) && #[trigger] cell(self.finished@, l, c) ==> cell(
                self.started@,
                l,
                c,
            )
        &&& forall|l: int, c: int|
            self.in_range(l, c) && #[trigger] cell(self.started@, l, c) ==> (l == 0 || cell(
                self.finished@,
                l - 1,
                c,
            )) && (c == 0 || cell(self.started@, l, c - 1))
    }

    /// Every chunk has left every layer.
    pub open spec fn all_finished(&self) -> bool {
        forall|l: int, c: int| self.in_range(l, c) ==> #[trigger] cell(self.finished@, l, c)
    }

    /// No layer is held.
    pub open spec fn none_held(&self) -> bool {
        forall|l: int| 0 <= l < self.layer_count ==> !#[trigger] self.held@[l]
    }

    /// Some chunk may enter some layer.
    pub open spec fn some_ready(&self) -> bool {
        exists|l: int, c: int|
            self.in_range(l, c) && #[trigger] task_ready(self.started@, self.finished@, l, c)
    }

    /// Everything but what a turn changes stands as it stood.
    pub open spec fn same_frame(&self, other: Self) -> bool {
        &&& self.first_sparse_layer == other.first_sparse_layer
        &&& self.layer_count == other.layer_count
        &&& self.chunk_count == other.chunk_count
        &&& self.total_rows == other.total_rows
    }

    /// A rolling wavefront, nothing started. `packs_supported` tells whether
    /// the row count is packed at all.
    pub fn new(
        first_sparse_layer: usize,
        model_hidden_layers: usize,
        chunk_count: usize,
        prefill_tokens: usize,
        decode_rows: usize,
        mtp_rows: usize,
        packs_supported: bool,
    ) -> (result: Result<Self, RollingError>)
        requires
            first_sparse_layer <= model_hidden_layers < usize::MAX,
            model_hidden_layers + chunk_count <= usize::MAX,
        ensures
            match rolling_setup_error(
                model_hidden_layers - first_sparse_layer,
                chunk_count as int,
                rolling_rows(prefill_tokens as int, decode_rows as int, mtp_rows as int),
                packs_supported,
            ) {
                Some(e) => result is Err && result->Err_0 == e,
                None => result is Ok,
            },
            result matches Ok(w) ==> {
                &&& w.wf()
                &&& w.in_order()
                &&& w.first_sparse_layer == first_sparse_layer
                &&& w.layer_count == model_hidden_layers - first_sparse_layer
                &&& w.chunk_count == chunk_count
                &&& w.total_rows == prefill_tokens + decode_rows + mtp_rows
                &&& w.completed == 0
                &&& w.none_held()
                &&& !w.made_progress
                &&& forall|l: int, c: int|
                    w.in_range(l, c) ==> !#[trigger] cell(w.started@, l, c)
                &&& forall|l: int, c: int|
                    w.in_range(l, c) ==> !#[trigger] cell(w.finished@, l, c)
            },
    {
        let prefill_and_decode: usize = match prefill_tokens.checked_add(decode_rows) {
            Some(rows) => rows,
            None => return Err(RollingError::RowOverflow),
        };
        let total_rows: usize = match prefill_and_decode.checked_add(mtp_rows) {
            Some(rows) => rows,
            None => return Err(RollingError::RowOverflow),
        };
        if chunk_count < 2 || !packs_supported {
            return Err(RollingError::NotEligible { rows: total_rows, chunks: chunk_count });
        }
        let layer_count: usize = model_hidden_layers - first_sparse_layer;
        match layer_count.checked_mul(chunk_count) {
            None => Err(RollingError::TaskCountOverflow),
            Some(_) => Ok(
                RollingWavefront {
                    first_sparse_layer,
                    layer_count,
                    chunk_count,
                    total_rows,
                    started: new_grid(layer_count, chunk_count),
                    finished: new_grid(layer_count, chunk_count),
                    completed: 0,
                    held: new_row(layer_count),
                    made_progress: false,
                },
            ),
        }
    }

    fn tasks_complete(&self) -> (complete: bool)
        requires
            self.wf(),
        ensures
            complete == self.all_finished(),
    {
        proof {
            lemma_grid_count_bound(self.finished@, self.chunk_count as int);
        }
        let task_count: usize = self.layer_count * self.chunk_count;
        let complete: bool = self.completed >= task_count;
        assert(complete == self.all_finished());
        complete
    }

    /// Begins a turn, if there is one: while a chunk has yet to leave a layer,
    /// or a held layer reports that it is not complete.
    pub fn begin_turn(&mut self, incomplete_layer: bool) -> (begun: bool)
        requires
            old(self).wf(),
        ensures
            begun == (!old(self).all_finished() || incomplete_layer),
            final(self).wf(),
            final(self).same_frame(*old(self)),
            final(self).started == old(self).started,
            final(self).finished == old(self).finished,
            final(self).completed == old(self).completed,
            final(self).held == old(self).held,
            !final(self).made_progress,
    {
        let complete: bool = self.tasks_complete();
        self.made_progress = false;
        !complete || incomplete_layer
    }

    /// Records that a chunk left a layer, unless it already had.
    fn record_completed(&mut self, layer_offset: usize, chunk: usize) -> (fresh: bool)
        requires
            old(self).wf(),
            layer_offset < old(self).layer_count,
        ensures
            final(self).wf(),
            final(self).same_frame(*old(self)),
            final(self).started == old(self).started,
            final(self).held == old(self).held,
            final(self).made_progress == old(self).made_progress,
            fresh == (chunk < old(self).chunk_count && !cell(
                old(self).finished@,
                layer_offset as int,
                chunk as int,
            )),
            fresh ==> cell_set(
                old(self).finished@,
                final(self).finished@,
                layer_offset as int,
                chunk as int,
            ) && final(self).completed == old(self).completed + 1,
    {
        let ghost before = *self;
        assert(self.finished@[layer_offset as int]@.len() == self.chunk_count);
        if chunk >= self.chunk_count || self.finished[layer_offset][chunk] {
            return false;
        }
        set_cell(&mut self.finished, layer_offset, chunk);
        proof {
            lemma_grid_count_set(
                before.finished@,
                self.finished@,
                layer_offset as int,
                chunk as int,
            );
            assert forall|r: int| 0 <= r < self.layer_count implies (#[trigger]
            self.finished@[r])@.len() == self.chunk_count by {
                if r != layer_offset {
                    assert(self.finished@[r] == before.finished@[r]);
                }
            }
            lemma_grid_count_bound(self.finished@, self.chunk_count as int);
        }
        self.completed = self.completed + 1;
        true
    }

    /// Takes what polling a held layer reported: whether anything moved, and
    /// the chunks that left the layer. The layer whose hidden state is to be
    /// captured is returned where the last chunk is among them.
    pub fn record_progress(
        &mut self,
        layer_offset: usize,
        made_progress: bool,
        completed: &[usize],
    ) -> (result: Result<Option<usize>, RollingError>)
        requires
            old(self).wf(),
            layer_offset < old(self).layer_count,
        ensures
            final(self).wf(),
            progress_recorded(
                *old(self),
                *final(self),
                layer_offset as int,
                made_progress,
                completed@,
                result,
            ),
            result is Ok && old(self).in_order() && (forall|i: int|
                0 <= i < completed@.len() ==> cell(
                    old(self).started@,
                    layer_offset as int,
                    #[trigger] completed@[i] as int,
                )) ==> final(self).in_order(),
    {
        let layer_id: usize = self.first_sparse_layer + layer_offset;
        let ghost before = *self;
        if made_progress {
            self.made_progress = true;
        }
        let mut tap: Option<usize> = None;
        let mut i: usize = 0;
        while i < completed.len()
            invariant
                before.wf(),
                before == *old(self),
                layer_offset < before.layer_count,
                layer_id == before.first_sparse_layer + layer_offset,
                i <= completed@.len(),
                self.wf(),
                self.same_frame(before),
                self.started == before.started,
                self.held == before.held,
                self.made_progress == (before.made_progress || made_progress),
                self.completed == before.completed + i,
                forall|j: int|
                    0 <= j < i ==> #[trigger] newly_completed(
                        before.finished@,
                        layer_offset as int,
                        before.chunk_count as int,
                        completed@,
                        j,
                    ),
                tap == (if exists|j: int|
                    0 <= j < i && #[trigger] completed@[j] == before.chunk_count - 1 {
                    Some((before.first_sparse_layer + layer_offset + 1) as usize)
                } else {
                    None
                }),
                forall|l: int, c: int|
                    before.in_range(l, c) ==> #[trigger] cell(self.finished@, l, c) == (cell(
                        before.finished@,
                        l,
                        c,
                    ) || l == layer_offset && exists|j: int|
                        0 <= j < i && #[trigger] completed@[j] == c),
            decreases completed@.len() - i,
        {
            let chunk: usize = completed[i];
            let ghost held = *self;
            let fresh: bool = self.record_completed(layer_offset, chunk);
            proof {
                let l0 = layer_offset as int;
                let n = before.chunk_count as int;
                if chunk < n {
                    assert(before.in_range(l0, chunk as int));
                    assert(cell(held.finished@, l0, chunk as int) == (cell(
                        before.finished@,
                        l0,
                        chunk as int,
                    ) || exists|j: int| 0 <= j < i && #[trigger] completed@[j] == chunk as int));
                }
                assert(fresh == newly_completed(before.finished@, l0, n, completed@, i as int));
            }
            if !fresh {
                return Err(RollingError::CompletedTwice { layer_id, chunk });
            }
            proof {
                let l0 = layer_offset as int;
                assert forall|l: int, c: int| before.in_range(l, c) implies #[trigger] cell(
                    self.finished@,
                    l,
                    c,
                ) == (cell(before.finished@, l, c) || l == layer_offset && exists|j: int|
                    0 <= j < i + 1 && #[trigger] completed@[j] == c) by {
                    assert(cell(held.finished@, l, c) == (cell(before.finished@, l, c) || l
                        == layer_offset && exists|j: int|
                        0 <= j < i && #[trigger] completed@[j] == c));
                    if l != l0 {
                        assert(self.finished@[l] == held.finished@[l]);
                    } else if c == chunk {
                        assert(completed@[i as int] == c);
                    }
                }
            }
            if chunk + 1 == self.chunk_count {
                assert(completed@[i as int] == before.chunk_count - 1);
                tap = Some(layer_id + 1);
            }
            i = i + 1;
        }
        proof {
            let last = (before.chunk_count - 1) as usize;
            assert((exists|j: int|
                0 <= j < completed@.len() && #[trigger] completed@[j] == before.chunk_count - 1)
                <==> completed@.contains(last));
            assert forall|l: int, c: int| before.in_range(l, c) implies #[trigger] cell(
                self.finished@,
                l,
                c,
            ) == (cell(before.finished@, l, c) || l == layer_offset && completed@.contains(
                c as usize,
            )) by {
                assert((exists|j: int|
                    0 <= j < completed@.len() && #[trigger] completed@[j] == c)
                    <==> completed@.contains(c as usize));
            }
            if before.in_order() && (forall|j: int|
                0 <= j < completed@.len() ==> cell(
                    before.started@,
                    layer_offset as int,
                    #[trigger] completed@[j] as int,
                )) {
                assert forall|l: int, c: int|
                    self.in_range(l, c) && #[trigger] cell(self.finished@, l, c) implies cell(
                    self.started@,
                    l,
                    c,
                ) by {
                    assert(before.in_range(l, c));
                    if !cell(before.finished@, l, c) {
                        assert(completed@.contains(c as usize));
                    }
                }
                assert forall|l: int, c: int|
                    self.in_range(l, c) && #[trigger] cell(self.started@, l, c) implies (l == 0
                    || cell(self.finished@, l - 1, c)) && (c == 0 || cell(
                    self.started@,
                    l,
                    c - 1,
                )) by {
                    assert(before.in_range(l, c));
                    if l > 0 {
                        assert(before.in_range(l - 1, c));
                        assert(cell(before.finished@, l - 1, c));
                    }
                }
            }
        }
        Ok(tap)
    }

    /// Lets go of a layer that reports completion; all its chunks must have
    /// left it.
    pub fn retire_layer(&mut self, layer_offset: usize) -> (result: Result<(), RollingError>)
        requires
            old(self).wf(),
            layer_offset < old(self).layer_count,
        ensures
            final(self).wf(),
            layer_retired(*old(self), *final(self), layer_offset as int, result),
    {
        assert(self.finished@[layer_offset as int]@.len() == self.chunk_count);
        if row_all_set(&self.finished, layer_offset, 0, self.chunk_count) {
            self.held[layer_offset] = false;
            Ok(())
        } else {
            Err(
                RollingError::UnfinishedLayer {
                    layer_id: self.first_sparse_layer + layer_offset,
                },
            )
        }
    }

    /// Whether every chunk has left every layer and no layer is held.
    pub fn is_done(&self) -> (done: bool)
        requires
            self.wf(),
        ensures
            done == (self.all_finished() && self.none_held()),
    {
        let mut l: usize = 0;
        while l < self.layer_count
            invariant
                self.wf(),
                l <= self.layer_count,
                forall|k: int| 0 <= k < l ==> !#[trigger] self.held@[k],
            decreases self.layer_count - l,
        {
            if self.held[l] {
                return false;
            }
            l = l + 1;
        }
        self.tasks_complete()
    }

    /// Takes the number of dispatches that were started.
    pub fn record_started(&mut self, dispatches: usize)
        requires
            old(self).wf(),
        ensures
            final(self).wf(),
            final(self).same_frame(*old(self)),
            final(self).started == old(self).started,
            final(self).finished == old(self).finished,
            final(self).completed == old(self).completed,
            final(self).held == old(self).held,
            final(self).made_progress == (old(self).made_progress || dispatches > 0),
    {
        if dispatches > 0 {
            self.made_progress = true;
        }
    }

    /// The chunk to admit this turn: the first ready one, while fewer
    /// dispatches than the buffer holds are under way or queued.
    pub fn admission(&self, buffered: usize) -> (admission: RollingAdmission)
        requires
            self.wf(),
        ensures
            admission_ok(*self, buffered, admission),
    {
        if buffered >= MAX_BUFFERED_ROLLING_SPARSE_DISPATCHES {
            return RollingAdmission::Full;
        }
        match self.next_ready() {
            Some(task) => RollingAdmission::Admit(
                RollingStart {
                    task,
                    layer_id: self.first_sparse_layer + task.layer_offset,
                    plan_layer: task.chunk_index == 0,
                    open_layer: !self.held[task.layer_offset],
                    final_chunk: task.chunk_index + 1 == self.chunk_count,
                },
            ),
            None => RollingAdmission::NoneReady,
        }
    }

    fn next_ready(&self) -> (task: Option<SchedulerSparseWavefrontTask>)
        requires
            self.wf(),
        ensures
            match task {
                Some(t) => first_ready(
                    self.started@,
                    self.finished@,
                    self.layer_count as int,
                    self.chunk_count as int,
                    t,
                ),
                None => !self.some_ready(),
            },
    {
        if self.layer_count == 0 {
            return None;
        }
        assert(self.started@[0]@.len() == self.chunk_count);
        next_ready_sparse_wavefront_task(self.started.as_slice(), self.finished.as_slice())
    }

    /// Checks the number of chunks that were planned for a layer.
    pub fn check_plan(&self, layer_offset: usize, planned: usize) -> (result: Result<
        (),
        RollingError,
    >)
        requires
            self.wf(),
            layer_offset < self.layer_count,
        ensures
            result == (if planned == self.chunk_count {
                Ok::<(), RollingError>(())
            } else {
                Err::<(), RollingError>(
                    RollingError::WrongPlan {
                        layer_id: (self.first_sparse_layer + layer_offset) as usize,
                        planned,
                        expected: self.chunk_count,
                    },
                )
            }),
    {
        if planned == self.chunk_count {
            Ok(())
        } else {
            Err(
                RollingError::WrongPlan {
                    layer_id: self.first_sparse_layer + layer_offset,
                    planned,
                    expected: self.chunk_count,
                },
            )
        }
    }

    /// Records that an admitted chunk was handed to its layer, which is held
    /// from now on.
    pub fn start(&mut self, task: SchedulerSparseWavefrontTask)
        requires
            old(self).wf(),
            old(self).in_range(task.layer_offset as int, task.chunk_index as int),
        ensures
            final(self).wf(),
            chunk_started(*old(self), *final(self), task),
            old(self).in_order() && task_ready(
                old(self).started@,
                old(self).finished@,
                task.layer_offset as int,
                task.chunk_index as int,
            ) ==> final(self).in_order(),
    {
        let ghost before = *self;
        let ghost l0 = task.layer_offset as int;
        let ghost c0 = task.chunk_index as int;
        assert(self.started@[l0]@.len() == self.chunk_count);
        set_cell(&mut self.started, task.layer_offset, task.chunk_index);
        self.held[task.layer_offset] = true;
        self.made_progress = true;
        assert forall|r: int| 0 <= r < self.layer_count implies (#[trigger]
        self.started@[r])@.len() == self.chunk_count by {
            if r != l0 {
                assert(self.started@[r] == before.started@[r]);
            }
        }
        assert forall|l: int, c: int| self.in_range(l, c) implies #[trigger] cell(
            self.started@,
            l,
            c,
        ) == (cell(before.started@, l, c) || l == l0 && c == c0) by {
            if l != l0 {
                assert(self.started@[l] == before.started@[l]);
            }
        }
        proof {
            if before.in_order() && task_ready(before.started@, before.finished@, l0, c0) {
                assert forall|l: int, c: int|
                    self.in_range(l, c) && #[trigger] cell(self.finished@, l, c) implies cell(
                    self.started@,
                    l,
                    c,
                ) by {
                    assert(before.in_range(l, c));
                    assert(cell(before.finished@, l, c));
                    assert(cell(before.started@, l, c));
                }
                assert forall|l: int, c: int|
                    self.in_range(l, c) && #[trigger] cell(self.started@, l, c) implies (l == 0
                    || cell(self.finished@, l - 1, c)) && (c == 0 || cell(
                    self.started@,
                    l,
                    c - 1,
                )) by {
                    assert(before.in_range(l, c));
                    if c > 0 {
                        assert(self.in_range(l, c - 1));
                        assert(cell(self.started@, l, c - 1) == (cell(before.started@, l, c - 1)
                            || l == l0 && c - 1 == c0));
                    }
                }
            }
        }
    }

    /// What ends a turn: the next one after progress, a wait while a chunk is
    /// ready or a dispatch is buffered. With neither, nothing would ever move
    /// again.
    pub fn end_turn(&self, buffered: usize) -> (result: Result<RollingTurn, RollingError>)
        requires
            self.wf(),
        ensures
            result == (if self.made_progress {
                Ok::<RollingTurn, RollingError>(RollingTurn::Continue)
            } else if self.some_ready() || buffered > 0 {
                Ok::<RollingTurn, RollingError>(RollingTurn::Idle)
            } else {
                Err::<RollingTurn, RollingError>(RollingError::Stalled)
            }),
    {
        if self.made_progress {
            return Ok(RollingTurn::Continue);
        }
        let ready: bool = match self.next_ready() {
            Some(task) => {
                assert(self.in_range(task.layer_offset as int, task.chunk_index as int));
                true
            },
            None => false,
        };
        if ready || buffered > 0 {
            Ok(RollingTurn::Idle)
        } else {
            Err(RollingError::Stalled)
        }
    }

    /// Checks, after the last turn, that every chunk has left every layer.
    pub fn check_finished(&self) -> (result: Result<(), RollingError>)
        requires
            self.wf(),
        ensures
            result == (if self.all_finished() {
                Ok::<(), RollingError>(())
            } else {
                Err::<(), RollingError>(RollingError::UnfinishedTasks)
            }),
    {
        if self.tasks_complete() {
            Ok(())
        } else {
            Err(RollingError::UnfinishedTasks)
        }
    }

    /// The wavefront never starves: while a chunk has yet to leave a layer and
    /// none may enter one, some chunk is inside a layer.
    pub proof fn law_never_starves(&self)
        requires
            self.wf(),
            self.in_order(),
            !self.all_finished(),
            !self.some_ready(),
        ensures
            exists|l: int, c: int|
                #![trigger cell(self.started@, l, c)]
                self.in_range(l, c) && cell(self.started@, l, c) && !cell(self.finished@, l, c),
    {
        let (l0, c0) = choose|l: int, c: int|
            self.in_range(l, c) && !#[trigger] cell(self.finished@, l, c);
        let (l, c) = lemma_lowest_unfinished(self.finished@, l0, c0);
        assert(self.in_range(l, c));
        if c > 0 {
            assert(self.in_range(l, c - 1));
            assert(cell(self.finished@, l, c - 1));
        }
        assert(!task_ready(self.started@, self.finished@, l, c));
        assert(cell(self.started@, l, c));
    }
}

/// The highest numbers that a rolling wavefront has reached.
#[derive(Clone, Copy, Debug, PartialEq, Eq, Structural)]
pub struct RollingPeaks {
    pub max_active_dispatches: usize,
    pub max_buffered_dispatches: usize,
    pub max_accumulator_pages_total: usize,
    pub max_accumulator_rows_total: usize,
}

fn larger(a: usize, b: usize) -> (r: usize)
    ensures
        r == (if a >= b {
            a
        } else {
            b
        }),
{
    if a >= b {
        a
    } else {
        b
    }
}

impl RollingPeaks {
    pub fn observe_dispatches(&mut self, active: usize, buffered: usize)
        ensures
            final(self).max_active_dispatches == (if old(self).max_active_dispatches >= active {
                old(self).max_active_dispatches
            } else {
                active
            }),
            final(self).max_buffered_dispatches == (if old(self).max_buffered_dispatches
                >= buffered {
                old(self).max_buffered_dispatches
            } else {
                buffered
            }),
            final(self).max_accumulator_pages_total == old(self).max_accumulator_pages_total,
            final(self).max_accumulator_rows_total == old(self).max_accumulator_rows_total,
    {
        self.max_active_dispatches = larger(self.max_active_dispatches, active);
        self.max_buffered_dispatches = larger(self.max_buffered_dispatches, buffered);
    }

    pub fn observe_accumulators(&mut self, pages: usize, rows: usize)
        ensures
            final(self).max_accumulator_pages_total == (if old(self).max_accumulator_pages_total
                >= pages {
                old(self).max_accumulator_pages_total
            } else {
                pages
            }),
            final(self).max_accumulator_rows_total == (if old(self).max_accumulator_rows_total
                >= rows {
                old(self).max_accumulator_rows_total
            } else {
                rows
            }),
            final(self).max_active_dispatches == old(self).max_active_dispatches,
            final(self).max_buffered_dispatches == old(self).max_buffered_dispatches,
    {
        self.max_accumulator_pages_total = larger(self.max_accumulator_pages_total, pages);
        self.max_accumulator_rows_total = larger(self.max_accumulator_rows_total, rows);
    }
}

} // verus!
