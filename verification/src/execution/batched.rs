//! Several requests through the layers at once: pairs or single requests are
//! started at a layer, finished there and started at the next, in turn.
use vstd::prelude::*;

use crate::execution::shape::{
    scheduler_sparse_tcp_iterations_per_sparse_layer, validate_scheduler_execution_shape,
    RealFullSchedulerExecutionShape, ShapeError,
};
use crate::execution::shape::{shape_error, sparse_iterations};
use crate::execution::state::{
    ModelBindingError, RealFullSchedulerExecutionState, StateShapeError,
};
use crate::model::ModelFacts;
use crate::text::{append_size, decimal};

verus! {

/// One step over the active requests.
#[derive(Clone, Copy, Debug, PartialEq, Eq, Structural)]
pub enum BatchedStep {
    /// Run a dense layer of one request.
    Dense { run: usize, layer_id: usize },
    /// Start a sparse layer of `size` requests from `first` on.
    Start { first: usize, size: usize, layer_id: usize },
    /// Finish a sparse layer of `size` requests from `first` on.
    Finish { first: usize, size: usize, layer_id: usize },
}

/// Why requests are not run together.
#[derive(Clone, Copy, Debug, PartialEq, Eq, Structural)]
pub enum BatchedError {
    RequestCount { requests: usize },
    TooFewRuns { runs: usize },
    RowOverflow,
    MemberCount { joint: bool, members: usize, runs: usize },
    DispatchCount { dispatches: usize, members: usize },
}

impl BatchedError {
    pub open spec fn text(self) -> Seq<char> {
        match self {
            BatchedError::RequestCount { requests } =>
                "batched recurrent scheduler requires 2..=8 requests, got "@
                + decimal(requests as nat),
            BatchedError::TooFewRuns { runs } =>
                "batched sparse cohort requires at least two runs, got "@ + decimal(runs as nat),
            BatchedError::RowOverflow => "batched sparse cohort row count overflow"@,
            BatchedError::MemberCount { joint: true, members, runs } =>
                "batched sparse cohort completion has "@ + decimal(members as nat)
                + " members for "@ + decimal(runs as nat) + " runs"@,
            BatchedError::MemberCount { joint: false, members, runs } =>
                "batched sparse independent completion has "@ + decimal(members as nat)
                + " members for "@ + decimal(runs as nat) + " runs"@,
            BatchedError::DispatchCount { dispatches, members } =>
                "batched sparse cohort returned "@ + decimal(dispatches as nat)
                + " dispatches for "@ + decimal(members as nat) + " members"@,
        }
    }

    pub fn message(&self) -> (out: String)
        ensures
            out@ == self.text(),
    {
        match self {
            BatchedError::RequestCount { requests } => {
                let mut out: String =
                    "batched recurrent scheduler requires 2..=8 requests, got ".to_owned();
                append_size(&mut out, *requests);
                out
            },
            BatchedError::TooFewRuns { runs } => {
                let mut out: String =
                    "batched sparse cohort requires at least two runs, got ".to_owned();
                append_size(&mut out, *runs);
                out
            },
            BatchedError::RowOverflow => "batched sparse cohort row count overflow".to_owned(),
            BatchedError::MemberCount { joint: true, members, runs } => {
                let mut out: String = "batched sparse cohort completion has ".to_owned();
                append_size(&mut out, *members);
                out.append(" members for ");
                append_size(&mut out, *runs);
                out.append(" runs");
                out
            },
            BatchedError::MemberCount { joint: false, members, runs } => {
                let mut out: String = "batched sparse independent completion has ".to_owned();
                append_size(&mut out, *members);
                out.append(" members for ");
                append_size(&mut out, *runs);
                out.append(" runs");
                out
            },
            BatchedError::DispatchCount { dispatches, members } => {
                let mut out: String = "batched sparse cohort returned ".to_owned();
                append_size(&mut out, *dispatches);
                out.append(" dispatches for ");
                append_size(&mut out, *members);
                out.append(" members");
                out
            },
        }
    }
}

/// The even numbers below `n`.
pub open spec fn even_starts(n: int) -> Seq<usize> {
    Seq::new((n / 2) as nat, |i: int| (2 * i) as usize)
}

/// The first request of each pair, where the requests run as pairs.
pub fn batched_sparse_pair_starts(active_requests: usize) -> (starts: Option<Vec<usize>>)
    ensures
        starts is Some <==> active_requests == 4 || active_requests == 8,
        starts matches Some(s) ==> s@ == even_starts(active_requests as int),
{
    if active_requests != 4 && active_requests != 8 {
        return None;
    }
    let mut starts: Vec<usize> = Vec::new();
    let mut i: usize = 0;
    while i < active_requests / 2
        invariant
            i <= active_requests / 2,
            active_requests <= 8,
            starts@ == Seq::new(i as nat, |k: int| (2 * k) as usize),
        decreases active_requests / 2 - i,
    {
        starts.push(2 * i);
        i = i + 1;
        assert(starts@ =~= Seq::new(i as nat, |k: int| (2 * k) as usize));
    }
    Some(starts)
}

/// How many requests start together.
pub open spec fn group_size(requests: int) -> int {
    if requests == 4 || requests == 8 {
        2
    } else {
        1
    }
}

/// How many groups the requests form.
pub open spec fn group_count(requests: int) -> int {
    requests / group_size(requests)
}

/// The first request of group `g`.
pub open spec fn group_first(requests: int, g: int) -> int {
    if group_size(requests) == 2 {
        2 * g
    } else {
        g
    }
}

/// Dense layer `layer` of the first `n` requests.
pub open spec fn dense_layer_steps(layer: int, n: int) -> Seq<BatchedStep> {
    Seq::new(
        n as nat,
        |i: int| BatchedStep::Dense { run: i as usize, layer_id: layer as usize },
    )
}

/// The first `n` dense layers of all requests.
pub open spec fn dense_steps(requests: int, n: int) -> Seq<BatchedStep>
    decreases n,
{
    if n <= 0 {
        Seq::empty()
    } else {
        dense_steps(requests, n - 1) + dense_layer_steps(n - 1, requests)
    }
}

/// Group `g` starts layer `layer`.
pub open spec fn start_step(requests: int, g: int, layer: int) -> BatchedStep {
    BatchedStep::Start {
        first: group_first(requests, g) as usize,
        size: group_size(requests) as usize,
        layer_id: layer as usize,
    }
}

/// Group `g` finishes layer `layer`.
pub open spec fn finish_step(requests: int, g: int, layer: int) -> BatchedStep {
    BatchedStep::Finish {
        first: group_first(requests, g) as usize,
        size: group_size(requests) as usize,
        layer_id: layer as usize,
    }
}

/// The first `n` groups start layer `layer`.
pub open spec fn start_steps(requests: int, layer: int, n: int) -> Seq<BatchedStep> {
    Seq::new(n as nat, |g: int| start_step(requests, g, layer))
}

/// The first `n` groups finish layer `layer` and start the next, if there is
/// one, group by group.
pub open spec fn sparse_layer_steps(
    requests: int,
    layer: int,
    layers: int,
    n: int,
) -> Seq<BatchedStep>
    decreases n,
{
    if n <= 0 {
        Seq::empty()
    } else {
        let before = sparse_layer_steps(requests, layer, layers, n - 1);
        let finished = before.push(finish_step(requests, n - 1, layer));
        if layer + 1 < layers {
            finished.push(start_step(requests, n - 1, layer + 1))
        } else {
            finished
        }
    }
}

/// The sparse layers from `first` up to `to`.
pub open spec fn sparse_steps(requests: int, first: int, layers: int, to: int) -> Seq<BatchedStep>
    decreases to - first,
{
    if to <= first {
        Seq::empty()
    } else {
        sparse_steps(requests, first, layers, to - 1) + sparse_layer_steps(
            requests,
            to - 1,
            layers,
            group_count(requests),
        )
    }
}

/// All steps of a batched execution: the dense layers request by request, the
/// first sparse layer started for every group, then layer by layer each group
/// finishes and goes on.
pub open spec fn batched_program(requests: int, first_sparse: int, layers: int) -> Seq<BatchedStep> {
    dense_steps(requests, first_sparse) + start_steps(
        requests,
        first_sparse,
        group_count(requests),
    ) + sparse_steps(requests, first_sparse, layers, layers)
}

/// The steps of a batched execution of two to eight requests.
pub fn batched_scheduler_program(
    requests: usize,
    first_sparse_layer: usize,
    model_hidden_layers: usize,
) -> (result: Result<Vec<BatchedStep>, BatchedError>)
    ensures
        result is Ok <==> 2 <= requests <= 8,
        result matches Err(e) ==> e == (BatchedError::RequestCount { requests }),
        result matches Ok(steps) ==> steps@ == batched_program(
            requests as int,
            first_sparse_layer as int,
            model_hidden_layers as int,
        ),
{
    if requests < 2 || requests > 8 {
        return Err(BatchedError::RequestCount { requests });
    }
    let size: usize = if requests == 4 || requests == 8 {
        2
    } else {
        1
    };
    let groups: usize = requests / size;
    let mut steps: Vec<BatchedStep> = Vec::new();
    let mut layer: usize = 0;
    while layer < first_sparse_layer
        invariant
            layer <= first_sparse_layer,
            steps@ == dense_steps(requests as int, layer as int),
        decreases first_sparse_layer - layer,
    {
        let ghost before = steps@;
        let mut run: usize = 0;
        assert(steps@ =~= before + dense_layer_steps(layer as int, 0));
        while run < requests
            invariant
                run <= requests,
                steps@ == before + dense_layer_steps(layer as int, run as int),
            decreases requests - run,
        {
            steps.push(BatchedStep::Dense { run, layer_id: layer });
            run = run + 1;
            assert(steps@ =~= before + dense_layer_steps(layer as int, run as int));
        }
        layer = layer + 1;
    }
    let ghost dense = steps@;
    let mut group: usize = 0;
    assert(steps@ =~= dense + start_steps(requests as int, first_sparse_layer as int, 0));
    while group < groups
        invariant
            group <= groups,
            2 <= requests <= 8,
            size == group_size(requests as int),
            groups == requests / size,
            steps@ == dense + start_steps(
                requests as int,
                first_sparse_layer as int,
                group as int,
            ),
        decreases groups - group,
    {
        let first: usize = if size == 2 {
            2 * group
        } else {
            group
        };
        steps.push(BatchedStep::Start { first, size, layer_id: first_sparse_layer });
        group = group + 1;
        assert(steps@ =~= dense + start_steps(
            requests as int,
            first_sparse_layer as int,
            group as int,
        ));
    }
    let ghost prologue = steps@;
    let mut layer_id: usize = first_sparse_layer;
    assert(steps@ =~= prologue + sparse_steps(
        requests as int,
        first_sparse_layer as int,
        model_hidden_layers as int,
        first_sparse_layer as int,
    ));
    while layer_id < model_hidden_layers
        invariant
            first_sparse_layer <= layer_id,
            layer_id <= model_hidden_layers || layer_id == first_sparse_layer,
            2 <= requests <= 8,
            size == group_size(requests as int),
            groups == requests / size,
            steps@ == prologue + sparse_steps(
                requests as int,
                first_sparse_layer as int,
                model_hidden_layers as int,
                layer_id as int,
            ),
        decreases model_hidden_layers - layer_id,
    {
        let ghost before = steps@;
        let next_layer: usize = layer_id + 1;
        let mut g: usize = 0;
        assert(steps@ =~= before + sparse_layer_steps(
            requests as int,
            layer_id as int,
            model_hidden_layers as int,
            0,
        ));
        while g < groups
            invariant
                g <= groups,
                2 <= requests <= 8,
                next_layer == layer_id + 1,
                layer_id < model_hidden_layers,
                size == group_size(requests as int),
                groups == requests / size,
                steps@ == before + sparse_layer_steps(
                    requests as int,
                    layer_id as int,
                    model_hidden_layers as int,
                    g as int,
                ),
            decreases groups - g,
        {
            let first: usize = if size == 2 {
                2 * g
            } else {
                g
            };
            steps.push(BatchedStep::Finish { first, size, layer_id });
            if next_layer < model_hidden_layers {
                steps.push(BatchedStep::Start { first, size, layer_id: next_layer });
            }
            g = g + 1;
            assert(steps@ =~= before + sparse_layer_steps(
                requests as int,
                layer_id as int,
                model_hidden_layers as int,
                g as int,
            ));
        }
        layer_id = layer_id + 1;
        assert(steps@ =~= prologue + sparse_steps(
            requests as int,
            first_sparse_layer as int,
            model_hidden_layers as int,
            layer_id as int,
        ));
    }
    Ok(steps)
}

/// The layer that the group whose first request is `first` has started and
/// not finished after the steps.
pub open spec fn under_way(steps: Seq<BatchedStep>, first: usize) -> Option<usize>
    decreases steps.len(),
{
    if steps.len() == 0 {
        None
    } else {
        match steps.last() {
            BatchedStep::Start { first: f, size: _, layer_id } => if f == first {
                Some(layer_id)
            } else {
                under_way(steps.drop_last(), first)
            },
            BatchedStep::Finish { first: f, size: _, layer_id: _ } => if f == first {
                None
            } else {
                under_way(steps.drop_last(), first)
            },
            BatchedStep::Dense { run: _, layer_id: _ } => under_way(steps.drop_last(), first),
        }
    }
}

/// A group starts a layer only while it has none under way, and finishes only
/// the layer that it has under way.
pub open spec fn steps_in_order(steps: Seq<BatchedStep>) -> bool
    decreases steps.len(),
{
    steps.len() == 0 || (steps_in_order(steps.drop_last()) && match steps.last() {
        BatchedStep::Start { first, size: _, layer_id: _ } => under_way(steps.drop_last(), first)
            is None,
        BatchedStep::Finish { first, size: _, layer_id } => under_way(steps.drop_last(), first)
            == Some(layer_id),
        BatchedStep::Dense { run: _, layer_id: _ } => true,
    })
}

proof fn lemma_dense_layer_order(prefix: Seq<BatchedStep>, layer: int, n: int)
    requires
        n >= 0,
        steps_in_order(prefix),
        forall|first: usize| #[trigger] under_way(prefix, first) is None,
    ensures
        steps_in_order(prefix + dense_layer_steps(layer, n)),
        forall|first: usize| #[trigger] under_way(prefix + dense_layer_steps(layer, n), first)
            is None,
    decreases n,
{
    let now = prefix + dense_layer_steps(layer, n);
    if n == 0 {
        assert(now =~= prefix);
    } else {
        lemma_dense_layer_order(prefix, layer, n - 1);
        let before = prefix + dense_layer_steps(layer, n - 1);
        assert(now.drop_last() =~= before);
        assert forall|first: usize| #[trigger] under_way(now, first) is None by {
            assert(under_way(before, first) is None);
        }
    }
}

proof fn lemma_dense_order(requests: int, n: int)
    requires
        n >= 0,
        requests >= 0,
    ensures
        steps_in_order(dense_steps(requests, n)),
        forall|first: usize| #[trigger] under_way(dense_steps(requests, n), first) is None,
    decreases n,
{
    if n > 0 {
        lemma_dense_order(requests, n - 1);
        lemma_dense_layer_order(dense_steps(requests, n - 1), n - 1, requests);
    }
}

proof fn lemma_start_order(prefix: Seq<BatchedStep>, requests: int, layer: int, n: int)
    requires
        2 <= requests <= 8,
        0 <= n <= group_count(requests),
        0 <= layer <= usize::MAX,
        steps_in_order(prefix),
        forall|first: usize| #[trigger] under_way(prefix, first) is None,
    ensures
        steps_in_order(prefix + start_steps(requests, layer, n)),
        forall|g: int|
            0 <= g < n ==> under_way(
                prefix + start_steps(requests, layer, n),
                #[trigger] group_first(requests, g) as usize,
            ) == Some(layer as usize),
        forall|first: usize|
            first >= group_first(requests, n) ==> #[trigger] under_way(
                prefix + start_steps(requests, layer, n),
                first,
            ) is None,
    decreases n,
{
    let now = prefix + start_steps(requests, layer, n);
    if n == 0 {
        assert(now =~= prefix);
    } else {
        lemma_start_order(prefix, requests, layer, n - 1);
        let before = prefix + start_steps(requests, layer, n - 1);
        assert(now.drop_last() =~= before);
        assert(now.last() == start_step(requests, n - 1, layer));
        assert forall|g: int| 0 <= g < n implies under_way(
            now,
            #[trigger] group_first(requests, g) as usize,
        ) == Some(layer as usize) by {
            if g < n - 1 {
                assert(under_way(before, group_first(requests, g) as usize) == Some(
                    layer as usize,
                ));
            }
        }
        assert forall|first: usize| first >= group_first(requests, n) implies #[trigger] under_way(
            now,
            first,
        ) is None by {
            assert(under_way(before, first) is None);
        }
    }
}

/// What a group has under way after layer `layer`.
pub open spec fn after_layer(layer: int, layers: int) -> Option<usize> {
    if layer + 1 < layers {
        Some((layer + 1) as usize)
    } else {
        None
    }
}

proof fn lemma_sparse_layer_order(
    prefix: Seq<BatchedStep>,
    requests: int,
    layer: int,
    layers: int,
    n: int,
)
    requires
        2 <= requests <= 8,
        0 <= n <= group_count(requests),
        0 <= layer < layers <= usize::MAX,
        steps_in_order(prefix),
        forall|g: int|
            0 <= g < group_count(requests) ==> under_way(
                prefix,
                #[trigger] group_first(requests, g) as usize,
            ) == Some(layer as usize),
    ensures
        steps_in_order(prefix + sparse_layer_steps(requests, layer, layers, n)),
        forall|g: int|
            0 <= g < group_count(requests) ==> under_way(
                prefix + sparse_layer_steps(requests, layer, layers, n),
                #[trigger] group_first(requests, g) as usize,
            ) == (if g < n {
                after_layer(layer, layers)
            } else {
                Some(layer as usize)
            }),
    decreases n,
{
    let now = prefix + sparse_layer_steps(requests, layer, layers, n);
    if n == 0 {
        assert(now =~= prefix);
    } else {
        lemma_sparse_layer_order(prefix, requests, layer, layers, n - 1);
        let before = prefix + sparse_layer_steps(requests, layer, layers, n - 1);
        let own = group_first(requests, n - 1) as usize;
        let finished = before.push(finish_step(requests, n - 1, layer));
        assert(under_way(before, own) == Some(layer as usize));
        assert(finished.drop_last() =~= before);
        assert(steps_in_order(finished));
        assert(under_way(finished, own) is None);
        assert forall|g: int| 0 <= g < group_count(requests) && g != n - 1 implies under_way(
            finished,
            #[trigger] group_first(requests, g) as usize,
        ) == under_way(before, group_first(requests, g) as usize) by {}
        if layer + 1 < layers {
            let both = finished.push(start_step(requests, n - 1, layer + 1));
            assert(both.drop_last() =~= finished);
            assert(now =~= both);
            assert forall|g: int| 0 <= g < group_count(requests) implies under_way(
                now,
                #[trigger] group_first(requests, g) as usize,
            ) == (if g < n {
                after_layer(layer, layers)
            } else {
                Some(layer as usize)
            }) by {
                if g != n - 1 {
                    assert(under_way(both, group_first(requests, g) as usize) == under_way(
                        finished,
                        group_first(requests, g) as usize,
                    ));
                    assert(under_way(before, group_first(requests, g) as usize) == (if g < n - 1 {
                        after_layer(layer, layers)
                    } else {
                        Some(layer as usize)
                    }));
                }
            }
        } else {
            assert(now =~= finished);
            assert forall|g: int| 0 <= g < group_count(requests) implies under_way(
                now,
                #[trigger] group_first(requests, g) as usize,
            ) == (if g < n {
                after_layer(layer, layers)
            } else {
                Some(layer as usize)
            }) by {
                if g != n - 1 {
                    assert(under_way(before, group_first(requests, g) as usize) == (if g < n - 1 {
                        after_layer(layer, layers)
                    } else {
                        Some(layer as usize)
                    }));
                }
            }
        }
    }
}

proof fn lemma_sparse_order(
    prefix: Seq<BatchedStep>,
    requests: int,
    first: int,
    layers: int,
    to: int,
)
    requires
        2 <= requests <= 8,
        0 <= first < layers <= usize::MAX,
        first <= to <= layers,
        steps_in_order(prefix),
        forall|g: int|
            0 <= g < group_count(requests) ==> under_way(
                prefix,
                #[trigger] group_first(requests, g) as usize,
            ) == Some(first as usize),
    ensures
        steps_in_order(prefix + sparse_steps(requests, first, layers, to)),
        forall|g: int|
            0 <= g < group_count(requests) ==> under_way(
                prefix + sparse_steps(requests, first, layers, to),
                #[trigger] group_first(requests, g) as usize,
            ) == after_layer(to - 1, layers),
    decreases to - first,
{
    let now = prefix + sparse_steps(requests, first, layers, to);
    if to == first {
        assert(now =~= prefix);
    } else {
        lemma_sparse_order(prefix, requests, first, layers, to - 1);
        let before = prefix + sparse_steps(requests, first, layers, to - 1);
        lemma_sparse_layer_order(before, requests, to - 1, layers, group_count(requests));
        assert(now =~= before + sparse_layer_steps(
            requests,
            to - 1,
            layers,
            group_count(requests),
        ));
    }
}

/// In a batched execution every group passes the sparse layers in order: it
/// finishes each layer before it starts the next, and in the end has none
/// under way.
pub proof fn law_groups_pass_layers_in_order(requests: int, first_sparse: int, layers: int)
    requires
        2 <= requests <= 8,
        0 <= first_sparse < layers <= usize::MAX,
    ensures
        steps_in_order(batched_program(requests, first_sparse, layers)),
        forall|g: int|
            0 <= g < group_count(requests) ==> under_way(
                batched_program(requests, first_sparse, layers),
                #[trigger] group_first(requests, g) as usize,
            ) is None,
{
    lemma_dense_order(requests, first_sparse);
    let dense = dense_steps(requests, first_sparse);
    lemma_start_order(dense, requests, first_sparse, group_count(requests));
    let prologue = dense + start_steps(requests, first_sparse, group_count(requests));
    lemma_sparse_order(prologue, requests, first_sparse, layers, layers);
}

/// Why a request does not join a batched execution.
#[derive(Clone, Debug)]
pub enum BatchedRunError {
    Shape { error: ShapeError },
    NotRecurrent { prefill_tokens: usize, decode_rows: usize },
    State { error: StateShapeError },
    Model { error: ModelBindingError },
    MissingTokenIds,
}

impl BatchedRunError {
    pub open spec fn text(self) -> Seq<char> {
        match self {
            BatchedRunError::Shape { error } => error.text(),
            BatchedRunError::NotRecurrent { prefill_tokens, decode_rows } =>
                "batched live scheduler currently requires recurrent decode/verify shapes, got prefill="@
                + decimal(prefill_tokens as nat) + " decode="@ + decimal(decode_rows as nat),
            BatchedRunError::State { error } => error.text(),
            BatchedRunError::Model { error } => error.text(),
            BatchedRunError::MissingTokenIds =>
                "batched live scheduler requires decode token ids"@,
        }
    }

    pub fn message(&self) -> (out: String)
        ensures
            out@ == self.text(),
    {
        match self {
            BatchedRunError::Shape { error } => error.message(),
            BatchedRunError::NotRecurrent { prefill_tokens, decode_rows } => {
                let mut out: String =
                    "batched live scheduler currently requires recurrent decode/verify shapes, got prefill=".to_owned();
                append_size(&mut out, *prefill_tokens);
                out.append(" decode=");
                append_size(&mut out, *decode_rows);
                out
            },
            BatchedRunError::State { error } => error.message(),
            BatchedRunError::Model { error } => error.message(),
            BatchedRunError::MissingTokenIds => {
                "batched live scheduler requires decode token ids".to_owned()
            },
        }
    }
}

/// One request of a batched execution: its reservation, the tokens whose
/// embeddings seed its decode and draft rows, its sparse dispatches per layer,
/// and the rows of its sparse layers.
#[derive(Debug)]
pub struct BatchedLiveSchedulerRun {
    pub reservation_id: u64,
    pub decode_seed: Vec<usize>,
    pub draft_seed: Vec<usize>,
    pub sparse_iterations: usize,
    pub graph_bucket_rows: usize,
    pub decode_rows: usize,
    pub mtp_rows: usize,
}

/// The request joins a batched execution.
pub open spec fn run_accepted(
    shape: RealFullSchedulerExecutionShape,
    state: RealFullSchedulerExecutionState,
    facts: ModelFacts,
) -> bool {
    &&& shape_error(shape) is None
    &&& shape.prefill_tokens == 0
    &&& shape.decode_rows == 1
    &&& state.shape_fits(shape)
    &&& state.model_fits(facts)
    &&& shape.decode_token_ids is Some
}

/// The first reason why the request does not join.
pub open spec fn run_refused(
    shape: RealFullSchedulerExecutionShape,
    state: RealFullSchedulerExecutionState,
    facts: ModelFacts,
    error: BatchedRunError,
) -> bool {
    if shape_error(shape) is Some {
        error == (BatchedRunError::Shape { error: shape_error(shape)->Some_0 })
    } else if shape.prefill_tokens != 0 || shape.decode_rows != 1 {
        error == (BatchedRunError::NotRecurrent {
            prefill_tokens: shape.prefill_tokens,
            decode_rows: shape.decode_rows,
        })
    } else if !state.shape_fits(shape) {
        error matches BatchedRunError::State { error: inner } && state.shape_refused(shape, inner)
    } else if !state.model_fits(facts) {
        error matches BatchedRunError::Model { error: inner } && state.model_refused(facts, inner)
    } else {
        error == BatchedRunError::MissingTokenIds && shape.decode_token_ids is None
    }
}

/// The run of an accepted request. The first token seeds the decode row, the
/// others the draft rows.
pub open spec fn run_ok(
    run: BatchedLiveSchedulerRun,
    shape: RealFullSchedulerExecutionShape,
    state: RealFullSchedulerExecutionState,
    rolling_dispatches: Option<usize>,
) -> bool {
    let ids = shape.decode_token_ids->Some_0@;
    &&& run.reservation_id == state.reservation_id
    &&& run.decode_seed@ == ids.take(1)
    &&& run.draft_seed@ == ids.skip(1)
    &&& run.sparse_iterations == sparse_iterations(shape, rolling_dispatches)
    &&& run.graph_bucket_rows == shape.prefill_chunk_tokens + shape.decode_rows + shape.mtp_rows
    &&& run.decode_rows == shape.decode_rows
    &&& run.mtp_rows == shape.mtp_rows
}

fn copy_ids(ids: &Vec<usize>, from: usize, to: usize) -> (part: Vec<usize>)
    requires
        from <= to <= ids@.len(),
    ensures
        part@ == ids@.subrange(from as int, to as int),
{
    let mut part: Vec<usize> = Vec::new();
    let mut i: usize = from;
    while i < to
        invariant
            from <= i <= to <= ids@.len(),
            part@ == ids@.subrange(from as int, i as int),
        decreases to - i,
    {
        part.push(ids[i]);
        i = i + 1;
        assert(part@ =~= ids@.subrange(from as int, i as int));
    }
    part
}

impl BatchedLiveSchedulerRun {
    /// Takes a request into a batched execution. `rolling_dispatches` is the
    /// number of rolling packs of its row count, where the row count is packed.
    pub fn new(
        shape: &RealFullSchedulerExecutionShape,
        state: &RealFullSchedulerExecutionState,
        facts: &ModelFacts,
        rolling_dispatches: Option<usize>,
    ) -> (result: Result<Self, BatchedRunError>)
        requires
            shape.span() <= usize::MAX,
            shape.prefill_chunk_tokens + shape.decode_rows + shape.mtp_rows <= usize::MAX,
            run_accepted(*shape, *state, *facts) ==> shape.decode_token_ids->Some_0@.len() >= 1,
        ensures
            result is Ok <==> run_accepted(*shape, *state, *facts),
            result matches Ok(run) ==> run_ok(run, *shape, *state, rolling_dispatches),
            result matches Err(e) ==> run_refused(*shape, *state, *facts, e),
    {
        if let Err(error) = validate_scheduler_execution_shape(shape) {
            return Err(BatchedRunError::Shape { error });
        }
        if shape.prefill_tokens != 0 || shape.decode_rows != 1 {
            return Err(
                BatchedRunError::NotRecurrent {
                    prefill_tokens: shape.prefill_tokens,
                    decode_rows: shape.decode_rows,
                },
            );
        }
        if let Err(error) = state.validate_shape(shape) {
            return Err(BatchedRunError::State { error });
        }
        if let Err(error) = state.validate_model(facts) {
            return Err(BatchedRunError::Model { error });
        }
        match &shape.decode_token_ids {
            None => Err(BatchedRunError::MissingTokenIds),
            Some(ids) => {
                let decode_seed: Vec<usize> = copy_ids(ids, 0, 1);
                let draft_seed: Vec<usize> = copy_ids(ids, 1, ids.len());
                assert(ids@.subrange(0, 1) =~= ids@.take(1));
                assert(ids@.subrange(1, ids@.len() as int) =~= ids@.skip(1));
                Ok(
                    BatchedLiveSchedulerRun {
                        reservation_id: state.reservation_id,
                        decode_seed,
                        draft_seed,
                        sparse_iterations: scheduler_sparse_tcp_iterations_per_sparse_layer(
                            shape,
                            rolling_dispatches,
                        ),
                        graph_bucket_rows: shape.sparse_batch_graph_bucket(),
                        decode_rows: shape.decode_rows,
                        mtp_rows: shape.mtp_rows,
                    },
                )
            },
        }
    }

    /// The rows that the run brings to a sparse layer.
    pub fn sparse_rows(&self) -> (rows: usize)
        requires
            self.decode_rows + self.mtp_rows <= usize::MAX,
        ensures
            rows == self.decode_rows + self.mtp_rows,
    {
        self.decode_rows + self.mtp_rows
    }
}

/// The sum of the first `n` row counts.
pub open spec fn row_sum(rows: Seq<usize>, n: int) -> int
    decreases n,
{
    if n <= 0 {
        0
    } else {
        row_sum(rows, n - 1) + rows[n - 1]
    }
}

proof fn lemma_row_sum_monotone(rows: Seq<usize>, k: int, n: int)
    requires
        0 <= k <= n,
    ensures
        0 <= row_sum(rows, k) <= row_sum(rows, n),
    decreases n,
{
    if k < n {
        lemma_row_sum_monotone(rows, k, n - 1);
    } else if n > 0 {
        lemma_row_sum_monotone(rows, n - 1, n - 1);
    }
}

/// The rows of a cohort of at least two runs.
pub fn batched_cohort_rows(rows: &[usize]) -> (result: Result<usize, BatchedError>)
    ensures
        result == (if rows@.len() < 2 {
            Err::<usize, BatchedError>(BatchedError::TooFewRuns { runs: rows@.len() as usize })
        } else if row_sum(rows@, rows@.len() as int) > usize::MAX {
            Err::<usize, BatchedError>(BatchedError::RowOverflow)
        } else {
            Ok::<usize, BatchedError>(row_sum(rows@, rows@.len() as int) as usize)
        }),
{
    if rows.len() < 2 {
        return Err(BatchedError::TooFewRuns { runs: rows.len() });
    }
    let mut sum: usize = 0;
    let mut i: usize = 0;
    while i < rows.len()
        invariant
            i <= rows@.len(),
            rows@.len() >= 2,
            sum == row_sum(rows@, i as int),
        decreases rows@.len() - i,
    {
        proof {
            lemma_row_sum_monotone(rows@, i + 1, rows@.len() as int);
        }
        match sum.checked_add(rows[i]) {
            Some(total) => {
                sum = total;
            },
            None => return Err(BatchedError::RowOverflow),
        }
        i = i + 1;
    }
    Ok(sum)
}

/// Checks that a finished cohort returned one member per run and, where it was
/// dispatched jointly, one dispatch per member.
pub fn validate_cohort_completion(runs: usize, members: usize, dispatches: Option<usize>) -> (result:
    Result<(), BatchedError>)
    ensures
        result == (if members != runs {
            Err::<(), BatchedError>(
                BatchedError::MemberCount { joint: dispatches is Some, members, runs },
            )
        } else if dispatches is Some && dispatches->Some_0 != members {
            Err::<(), BatchedError>(
                BatchedError::DispatchCount { dispatches: dispatches->Some_0, members },
            )
        } else {
            Ok::<(), BatchedError>(())
        }),
{
    if members != runs {
        return Err(BatchedError::MemberCount { joint: dispatches.is_some(), members, runs });
    }
    match dispatches {
        Some(count) => {
            if count != members {
                return Err(BatchedError::DispatchCount { dispatches: count, members });
            }
        },
        None => {},
    }
    Ok(())
}

} // verus!
