//! The residual stream: its order of additions, its state hash and the exact
//! check of the accumulator.
use vstd::prelude::*;

use crate::execution_plan::layer_plan_ok;
use crate::execution_plan::{PreflightRows, RealFullExecutionPlan, RealFullLayerExecutionPlan};
use crate::model::ModelFacts;
use crate::text::{append_size, decimal};

verus! {

/// The state hash before the first layer.
pub const RESIDUAL_HASH_SEED: u64 = 0xcbf2_9ce4_8422_2325;

/// The multiplier of the state hash.
pub const RESIDUAL_HASH_PRIME: u64 = 0x0000_0100_0000_01b3;

/// One step of the state hash at a layer boundary.
pub open spec fn mixed_state(previous: u64, layer_id: usize, rows: usize, mlp_boundary: bool) -> u64 {
    let stage = if mlp_boundary {
        0x9e37u64
    } else {
        0x85ebu64
    };
    previous.wrapping_mul(RESIDUAL_HASH_PRIME).wrapping_add(layer_id as u64).wrapping_mul(
        RESIDUAL_HASH_PRIME,
    ).wrapping_add(rows as u64) ^ stage
}

/// One step of the state hash at a layer boundary.
pub fn mix_residual_state(previous: u64, layer_id: usize, rows: usize, mlp_boundary: bool) -> (state:
    u64)
    ensures
        state == mixed_state(previous, layer_id, rows, mlp_boundary),
{
    let stage: u64 = if mlp_boundary {
        0x9e37
    } else {
        0x85eb
    };
    previous.wrapping_mul(RESIDUAL_HASH_PRIME).wrapping_add(layer_id as u64).wrapping_mul(
        RESIDUAL_HASH_PRIME,
    ).wrapping_add(rows as u64) ^ stage
}

/// A delta whose length is not that of the residual.
#[derive(Clone, Copy, Debug, PartialEq, Eq, Structural)]
pub struct ResidualDeltaError {
    pub residual: usize,
    pub delta: usize,
}

impl ResidualDeltaError {
    pub open spec fn text(self) -> Seq<char> {
        "residual delta length mismatch: residual="@ + decimal(self.residual as nat) + " delta="@
            + decimal(self.delta as nat)
    }

    pub fn message(&self) -> (out: String)
        ensures
            out@ == self.text(),
    {
        let mut out: String = "residual delta length mismatch: residual=".to_owned();
        append_size(&mut out, self.residual);
        out.append(" delta=");
        append_size(&mut out, self.delta);
        out
    }
}

/// Adds a delta to a residual in place. Values are counted in fixed units.
pub fn apply_residual_delta(residual: &mut Vec<i64>, delta: &Vec<i64>) -> (result: Result<
    (),
    ResidualDeltaError,
>)
    requires
        old(residual)@.len() == delta@.len() ==> forall|i: int|
            0 <= i < delta@.len() ==> i64::MIN <= #[trigger] old(residual)@[i] + delta@[i]
                <= i64::MAX,
    ensures
        old(residual)@.len() != delta@.len() ==> final(residual)@ == old(residual)@ && result
            == Err::<(), ResidualDeltaError>(
            ResidualDeltaError {
                residual: old(residual)@.len() as usize,
                delta: delta@.len() as usize,
            },
        ),
        old(residual)@.len() == delta@.len() ==> result is Ok && final(residual)@ == Seq::new(
            delta@.len(),
            |i: int| (old(residual)@[i] + delta@[i]) as i64,
        ),
{
    if residual.len() != delta.len() {
        return Err(ResidualDeltaError { residual: residual.len(), delta: delta.len() });
    }
    let ghost before = residual@;
    let mut i: usize = 0;
    while i < delta.len()
        invariant
            i <= delta@.len(),
            residual@.len() == delta@.len(),
            before.len() == delta@.len(),
            forall|k: int|
                0 <= k < delta@.len() ==> i64::MIN <= #[trigger] before[k] + delta@[k] <= i64::MAX,
            forall|k: int| 0 <= k < i ==> residual@[k] == before[k] + delta@[k],
            forall|k: int| i <= k < delta@.len() ==> residual@[k] == before[k],
        decreases delta@.len() - i,
    {
        let value: i64 = residual[i];
        assert(i64::MIN <= before[i as int] + delta@[i as int] <= i64::MAX);
        residual.set(i, value + delta[i]);
        i = i + 1;
    }
    assert(residual@ =~= Seq::new(delta@.len(), |k: int| (before[k] + delta@[k]) as i64));
    Ok(())
}

/// The outcome of the accumulator check. Values are counted in quarters.
#[derive(Clone, Copy, Debug)]
pub struct RealFullResidualKernelSelfTest {
    pub status: &'static str,
    pub scope: &'static str,
    pub layers: usize,
    pub rows: usize,
    pub hidden_dim: usize,
    pub residual_adds: usize,
    pub values_updated: usize,
    pub final_checksum_quarters: i64,
    pub expected_checksum_quarters: i64,
    pub first_value_quarters: i64,
    pub expected_first_value_quarters: i64,
    pub last_value_quarters: i64,
    pub expected_last_value_quarters: i64,
    pub passed: bool,
}

/// The residual of the accumulator check, in quarters, before any addition.
pub open spec fn self_test_start() -> Seq<i64> {
    seq![4i64, 8i64, 12i64, 16i64, -4i64, -8i64, -12i64, -16i64]
}

fn uniform_delta(len: usize, value: i64) -> (delta: Vec<i64>)
    ensures
        delta@.len() == len,
        forall|i: int| 0 <= i < len ==> delta@[i] == value,
{
    let mut delta: Vec<i64> = Vec::new();
    let mut i: usize = 0;
    while i < len
        invariant
            i <= len,
            delta@.len() == i,
            forall|k: int| 0 <= k < i ==> delta@[k] == value,
        decreases len - i,
    {
        delta.push(value);
        i = i + 1;
    }
    delta
}

/// What `n` layers of the accumulator check add to every value, in quarters.
pub open spec fn self_test_gain(n: int) -> int {
    n * (n + 1) / 2
}

/// What the accumulator check finds.
pub open spec fn self_test_outcome(outcome: RealFullResidualKernelSelfTest) -> bool {
    &&& outcome.passed
    &&& outcome.status@ == "numeric-self-test"@
    &&& outcome.scope@
        == "apply numeric attention and MLP residual deltas in-place across a small multi-layer residual stream"@
    &&& outcome.layers == 3
    &&& outcome.rows == 2
    &&& outcome.hidden_dim == 4
    &&& outcome.residual_adds == 6
    &&& outcome.values_updated == 48
    &&& outcome.final_checksum_quarters == 48
    &&& outcome.expected_checksum_quarters == 48
    &&& outcome.first_value_quarters == 10
    &&& outcome.expected_first_value_quarters == 10
    &&& outcome.last_value_quarters == -10
    &&& outcome.expected_last_value_quarters == -10
}

/// Runs the accumulator over a small residual of three layers: each layer adds
/// half its number and takes a quarter of it.
pub fn residual_accumulator_self_test() -> (outcome: RealFullResidualKernelSelfTest)
    ensures
        self_test_outcome(outcome),
{
    let layers: usize = 3;
    let rows: usize = 2;
    let hidden_dim: usize = 4;
    let mut residual: Vec<i64> = Vec::new();
    residual.push(4);
    residual.push(8);
    residual.push(12);
    residual.push(16);
    residual.push(-4);
    residual.push(-8);
    residual.push(-12);
    residual.push(-16);
    let ghost start = self_test_start();
    assert(residual@ =~= start);
    let mut residual_adds: usize = 0;
    let mut layer: usize = 0;
    while layer < layers
        invariant
            layer <= layers,
            layers == 3,
            residual_adds == layer * 2,
            residual@.len() == 8,
            start == self_test_start(),
            forall|i: int|
                0 <= i < 8 ==> #[trigger] residual@[i] == start[i] + self_test_gain(layer as int),
        decreases layers - layer,
    {
        let number: i64 = layer as i64 + 1;
        let attention_delta: Vec<i64> = uniform_delta(residual.len(), 2 * number);
        let mlp_delta: Vec<i64> = uniform_delta(residual.len(), -number);
        let ghost before = residual@;
        proof {
            assert(layer == 0 || layer == 1 || layer == 2);
            assert(self_test_gain(0) == 0 && self_test_gain(1) == 1 && self_test_gain(2) == 3
                && self_test_gain(3) == 6);
            assert forall|i: int| 0 <= i < 8 implies -16 <= #[trigger] residual@[i] <= 22 by {
                assert(-16 <= start[i] <= 16);
            }
        }
        let added = apply_residual_delta(&mut residual, &attention_delta);
        residual_adds = residual_adds + 1;
        assert forall|i: int| 0 <= i < 8 implies #[trigger] residual@[i] == before[i] + 2
            * number by {}
        let taken = apply_residual_delta(&mut residual, &mlp_delta);
        residual_adds = residual_adds + 1;
        assert forall|i: int| 0 <= i < 8 implies #[trigger] residual@[i] == before[i] + number by {}
        layer = layer + 1;
    }
    assert(self_test_gain(3) == 6);
    let final_checksum: i64 = residual[0] + residual[1] + residual[2] + residual[3] + residual[4]
        + residual[5] + residual[6] + residual[7];
    let first_value: i64 = residual[0];
    let last_value: i64 = residual[7];
    let values_updated: usize = residual.len() * residual_adds;
    let passed: bool = final_checksum == 48 && first_value == 10 && last_value == -10
        && residual_adds == layers * 2 && values_updated == layers * rows * hidden_dim * 2;
    RealFullResidualKernelSelfTest {
        status: "numeric-self-test",
        scope: "apply numeric attention and MLP residual deltas in-place across a small multi-layer residual stream",
        layers,
        rows,
        hidden_dim,
        residual_adds,
        values_updated,
        final_checksum_quarters: final_checksum,
        expected_checksum_quarters: 48,
        first_value_quarters: first_value,
        expected_first_value_quarters: 10,
        last_value_quarters: last_value,
        expected_last_value_quarters: -10,
        passed,
    }
}

/// One layer of the residual dry run.
#[derive(Clone, Copy, Debug)]
pub struct RealFullResidualLayerDryRun {
    pub layer_id: usize,
    pub layer_kind: &'static str,
    pub input_rows: usize,
    pub residual_state_bytes: usize,
    pub attention_input_norm: bool,
    pub attention_output_projection: bool,
    pub attention_residual_boundary: bool,
    pub post_attention_norm: bool,
    pub mlp_kind: &'static str,
    pub routed_expert_exchange: bool,
    pub mlp_residual_boundary: bool,
    pub output_rows: usize,
    pub residual_state_hash: u64,
    pub layer_order_verified: bool,
}

/// The residual dry run over all layers of a plan.
#[derive(Clone, Debug)]
pub struct RealFullResidualStreamDryRun {
    pub status: &'static str,
    pub scope: &'static str,
    pub layer_count: usize,
    pub row_count: usize,
    pub hidden_dim: usize,
    pub hidden_bytes_per_row: usize,
    pub residual_state_bytes: usize,
    pub dense_layers: usize,
    pub sparse_layers: usize,
    pub remote_sparse_layers: usize,
    pub attention_residual_adds: usize,
    pub mlp_residual_adds: usize,
    pub total_residual_adds: usize,
    pub terminal_rows: usize,
    pub terminal_stages: Vec<&'static str>,
    pub final_residual_state_hash: u64,
    pub numeric_kernel_self_test: RealFullResidualKernelSelfTest,
    pub layer_order_verified: bool,
    pub layer_dry_runs: Vec<RealFullResidualLayerDryRun>,
}

/// The state hash after the first `n` layers.
pub open spec fn state_after(
    layers: Seq<RealFullLayerExecutionPlan>,
    rows: usize,
    n: int,
) -> u64
    decreases n,
{
    if n <= 0 {
        RESIDUAL_HASH_SEED
    } else {
        let id = layers[n - 1].layer_id;
        mixed_state(mixed_state(state_after(layers, rows, n - 1), id, rows, false), id, rows, true)
    }
}

/// How many of the first `n` layers exchange rows with experts.
pub open spec fn sparse_layers_upto(layers: Seq<RealFullLayerExecutionPlan>, n: int) -> int
    decreases n,
{
    if n <= 0 {
        0
    } else {
        sparse_layers_upto(layers, n - 1) + (if layers[n - 1].mlp.routed_nvfp4_expert_exchange {
            1int
        } else {
            0int
        })
    }
}

/// How many of the first `n` layers add an attention output.
pub open spec fn attention_adds_upto(layers: Seq<RealFullLayerExecutionPlan>, n: int) -> int
    decreases n,
{
    if n <= 0 {
        0
    } else {
        attention_adds_upto(layers, n - 1) + (if layers[n
            - 1].attention.attention_output_projection {
            1int
        } else {
            0int
        })
    }
}

/// How many MLP outputs the first `n` layers add.
pub open spec fn mlp_adds_upto(layers: Seq<RealFullLayerExecutionPlan>, n: int) -> int
    decreases n,
{
    if n <= 0 {
        0
    } else {
        mlp_adds_upto(layers, n - 1) + (if layers[n - 1].residual_adds >= 1 {
            layers[n - 1].residual_adds - 1
        } else {
            0int
        })
    }
}

/// Layer `i` of the dry run.
pub open spec fn residual_layer_ok(
    run: RealFullResidualLayerDryRun,
    layers: Seq<RealFullLayerExecutionPlan>,
    rows: usize,
    bytes: usize,
    i: int,
) -> bool {
    let layer = layers[i];
    let sparse = layer.mlp.routed_nvfp4_expert_exchange;
    &&& run.layer_id == layer.layer_id
    &&& run.layer_kind@ == layer.layer_kind@
    &&& run.input_rows == rows
    &&& run.output_rows == rows
    &&& run.residual_state_bytes == bytes
    &&& run.attention_input_norm == layer.attention.input_norm
    &&& run.attention_output_projection == layer.attention.attention_output_projection
    &&& run.attention_residual_boundary == layer.attention.attention_output_projection
    &&& run.post_attention_norm == layer.mlp.post_attention_norm
    &&& run.mlp_kind@ == (if sparse {
        "sparse-routed-moe"@
    } else {
        "dense-mlp"@
    })
    &&& run.routed_expert_exchange == sparse
    &&& run.mlp_residual_boundary == (layer.residual_adds > 1)
    &&& run.residual_state_hash == state_after(layers, rows, i + 1)
    &&& run.layer_order_verified == (layer.layer_id == i)
}

/// The rows of the preflight batch.
pub open spec fn preflight_row_count(rows: PreflightRows) -> int {
    rows.prefill_rows + rows.mtp_rows + rows.decode_rows
}

/// What the dry run of a plan says.
pub open spec fn stream_dry_run_ok(
    run: RealFullResidualStreamDryRun,
    execution_plan: RealFullExecutionPlan,
    hidden_size: usize,
    first_k_dense_replace: usize,
    preflight: PreflightRows,
) -> bool {
    let layers = execution_plan.layers@;
    let n = layers.len() as int;
    &&& run.status@ == "catalog-ordered-deepseek-v4-residual-plan"@
    &&& run.scope@
        == "validate catalog-defined DeepSeek V4 residual ordering and add boundaries; native numeric attention, sparse TP4, and terminal execution are admitted by request-time graph gates"@
    &&& run.layer_count == execution_plan.layer_count
    &&& run.row_count == preflight_row_count(preflight)
    &&& run.terminal_rows == run.row_count
    &&& run.hidden_dim == hidden_size
    &&& run.hidden_bytes_per_row == hidden_size * 2
    &&& run.residual_state_bytes == run.row_count * run.hidden_bytes_per_row
    &&& run.sparse_layers == sparse_layers_upto(layers, n)
    &&& run.remote_sparse_layers == run.sparse_layers
    &&& run.dense_layers == n - run.sparse_layers
    &&& run.attention_residual_adds == attention_adds_upto(layers, n)
    &&& run.mlp_residual_adds == mlp_adds_upto(layers, n)
    &&& run.total_residual_adds == run.attention_residual_adds + run.mlp_residual_adds
    &&& run.terminal_stages@ == execution_plan.terminal_stages@
    &&& run.final_residual_state_hash == state_after(layers, run.row_count, n)
    &&& self_test_outcome(run.numeric_kernel_self_test)
    &&& run.layer_dry_runs@.len() == n
    &&& forall|i: int|
        0 <= i < n ==> residual_layer_ok(
            #[trigger] run.layer_dry_runs@[i],
            layers,
            run.row_count,
            run.residual_state_bytes,
            i,
        )
    &&& run.layer_order_verified == (n == execution_plan.layer_count && (forall|i: int|
        0 <= i < n ==> (#[trigger] layers[i]).layer_id == i) && run.dense_layers
        == first_k_dense_replace)
}

/// The residual dry run of a plan.
pub fn real_full_residual_stream_dry_run(
    execution_plan: &RealFullExecutionPlan,
    hidden_size: usize,
    first_k_dense_replace: usize,
    preflight: PreflightRows,
) -> (run: RealFullResidualStreamDryRun)
    requires
        hidden_size * 2 <= usize::MAX,
        preflight_row_count(preflight) <= usize::MAX,
        preflight_row_count(preflight) * (hidden_size * 2) <= usize::MAX,
        attention_adds_upto(execution_plan.layers@, execution_plan.layers@.len() as int)
            + mlp_adds_upto(execution_plan.layers@, execution_plan.layers@.len() as int)
            <= usize::MAX,
    ensures
        stream_dry_run_ok(run, *execution_plan, hidden_size, first_k_dense_replace, preflight),
{
    let ghost layers = execution_plan.layers@;
    let ghost n = layers.len() as int;
    let hidden_bytes_per_row: usize = hidden_size * 2;
    let row_count: usize = preflight.prefill_rows + preflight.mtp_rows + preflight.decode_rows;
    let residual_state_bytes: usize = row_count * hidden_bytes_per_row;
    let mut state_hash: u64 = RESIDUAL_HASH_SEED;
    let mut layer_dry_runs: Vec<RealFullResidualLayerDryRun> = Vec::new();
    let mut attention_residual_adds: usize = 0;
    let mut mlp_residual_adds: usize = 0;
    let mut dense_layers: usize = 0;
    let mut sparse_layers: usize = 0;
    let mut in_order: bool = true;
    let mut index: usize = 0;
    while index < execution_plan.layers.len()
        invariant
            index <= n,
            n == layers.len(),
            layers == execution_plan.layers@,
            attention_adds_upto(layers, n) + mlp_adds_upto(layers, n) <= usize::MAX,
            state_hash == state_after(layers, row_count, index as int),
            sparse_layers == sparse_layers_upto(layers, index as int),
            dense_layers == index - sparse_layers,
            attention_residual_adds == attention_adds_upto(layers, index as int),
            mlp_residual_adds == mlp_adds_upto(layers, index as int),
            in_order == (forall|i: int|
                0 <= i < index ==> (#[trigger] layers[i]).layer_id == i),
            layer_dry_runs@.len() == index,
            forall|i: int|
                0 <= i < index ==> residual_layer_ok(
                    #[trigger] layer_dry_runs@[i],
                    layers,
                    row_count,
                    residual_state_bytes,
                    i,
                ),
        decreases n - index,
    {
        let layer: &RealFullLayerExecutionPlan = &execution_plan.layers[index];
        proof {
            lemma_adds_monotone(layers, index + 1, n);
            lemma_adds_monotone(layers, 0, index as int);
            lemma_sparse_bound(layers, index as int);
        }
        let is_sparse: bool = layer.mlp.routed_nvfp4_expert_exchange;
        if is_sparse {
            sparse_layers = sparse_layers + 1;
        } else {
            dense_layers = dense_layers + 1;
        }
        if layer.attention.attention_output_projection {
            attention_residual_adds = attention_residual_adds + 1;
        }
        mlp_residual_adds = mlp_residual_adds + layer.residual_adds.saturating_sub(1);
        state_hash = mix_residual_state(state_hash, layer.layer_id, row_count, false);
        state_hash = mix_residual_state(state_hash, layer.layer_id, row_count, true);
        let placed: bool = layer.layer_id == index;
        if !placed {
            assert(layers[index as int].layer_id != index);
        }
        in_order = in_order && placed;
        let ghost before = layer_dry_runs@;
        let record = RealFullResidualLayerDryRun {
            layer_id: layer.layer_id,
            layer_kind: layer.layer_kind,
            input_rows: row_count,
            residual_state_bytes,
            attention_input_norm: layer.attention.input_norm,
            attention_output_projection: layer.attention.attention_output_projection,
            attention_residual_boundary: layer.attention.attention_output_projection,
            post_attention_norm: layer.mlp.post_attention_norm,
            mlp_kind: if is_sparse {
                "sparse-routed-moe"
            } else {
                "dense-mlp"
            },
            routed_expert_exchange: is_sparse,
            mlp_residual_boundary: layer.residual_adds > 1,
            output_rows: row_count,
            residual_state_hash: state_hash,
            layer_order_verified: placed,
        };
        layer_dry_runs.push(record);
        assert forall|i: int| 0 <= i < index + 1 implies residual_layer_ok(
            #[trigger] layer_dry_runs@[i],
            layers,
            row_count,
            residual_state_bytes,
            i,
        ) by {
            if i < index {
                assert(layer_dry_runs@[i] == before[i]);
            }
        }
        index = index + 1;
    }
    let mut terminal_stages: Vec<&'static str> = Vec::new();
    let mut stage: usize = 0;
    while stage < execution_plan.terminal_stages.len()
        invariant
            stage <= execution_plan.terminal_stages@.len(),
            terminal_stages@ == execution_plan.terminal_stages@.take(stage as int),
        decreases execution_plan.terminal_stages@.len() - stage,
    {
        terminal_stages.push(execution_plan.terminal_stages[stage]);
        stage = stage + 1;
        assert(terminal_stages@ =~= execution_plan.terminal_stages@.take(stage as int));
    }
    assert(terminal_stages@ =~= execution_plan.terminal_stages@);
    RealFullResidualStreamDryRun {
        status: "catalog-ordered-deepseek-v4-residual-plan",
        scope: "validate catalog-defined DeepSeek V4 residual ordering and add boundaries; native numeric attention, sparse TP4, and terminal execution are admitted by request-time graph gates",
        layer_count: execution_plan.layer_count,
        row_count,
        hidden_dim: hidden_size,
        hidden_bytes_per_row,
        residual_state_bytes,
        dense_layers,
        sparse_layers,
        remote_sparse_layers: sparse_layers,
        attention_residual_adds,
        mlp_residual_adds,
        total_residual_adds: attention_residual_adds + mlp_residual_adds,
        terminal_rows: row_count,
        terminal_stages,
        final_residual_state_hash: state_hash,
        numeric_kernel_self_test: residual_accumulator_self_test(),
        layer_order_verified: layer_dry_runs.len() == execution_plan.layer_count && in_order
            && dense_layers == first_k_dense_replace,
        layer_dry_runs,
    }
}

proof fn lemma_adds_monotone(layers: Seq<RealFullLayerExecutionPlan>, k: int, n: int)
    requires
        0 <= k <= n,
    ensures
        0 <= attention_adds_upto(layers, k) <= attention_adds_upto(layers, n),
        0 <= mlp_adds_upto(layers, k) <= mlp_adds_upto(layers, n),
    decreases n,
{
    if k < n {
        lemma_adds_monotone(layers, k, n - 1);
    } else if n > 0 {
        lemma_adds_monotone(layers, n - 1, n - 1);
    }
}

proof fn lemma_sparse_bound(layers: Seq<RealFullLayerExecutionPlan>, n: int)
    requires
        n >= 0,
    ensures
        0 <= sparse_layers_upto(layers, n) <= n,
    decreases n,
{
    if n > 0 {
        lemma_sparse_bound(layers, n - 1);
    }
}

/// The layers of an execution plan are in order: its dry run finds the planned
/// numbers of dense and sparse layers, and one attention and one MLP addition
/// per layer.
pub proof fn law_planned_layers_are_in_order(
    layers: Seq<RealFullLayerExecutionPlan>,
    facts: ModelFacts,
    n: int,
)
    requires
        0 <= n <= layers.len(),
        forall|i: int| 0 <= i < layers.len() ==> layer_plan_ok(#[trigger] layers[i], i, facts),
    ensures
        forall|i: int| 0 <= i < n ==> (#[trigger] layers[i]).layer_id == i,
        sparse_layers_upto(layers, n) == (if n > facts.first_k_dense_replace {
            n - facts.first_k_dense_replace
        } else {
            0
        }),
        attention_adds_upto(layers, n) == n,
        mlp_adds_upto(layers, n) == n,
    decreases n,
{
    if n > 0 {
        law_planned_layers_are_in_order(layers, facts, n - 1);
        assert(layer_plan_ok(layers[n - 1], n - 1, facts));
    }
}

} // verus!
