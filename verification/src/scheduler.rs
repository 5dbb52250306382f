//! The scheduler dry run: three waves per layer and one mixed expert batch per
//! sparse layer.
use vstd::prelude::*;
use vstd::utf8::{
    decode_utf8, encode_utf8, encode_utf8_decode_utf8, encode_utf8_valid_utf8, is_ascii_chars,
    is_ascii_chars_encode_utf8, is_char_boundary, is_char_boundary_iff_not_is_continuation_byte,
    is_char_boundary_start_end_of_seq,
};

use crate::execution::waves::WaveMode;
use crate::execution_plan::{layer_kind_text, real_full_layer_kind};
use crate::model::ModelFacts;
use crate::text::same_text;

verus! {

/// What one wave holds: its rows, the rows of its graph, its bytes in one
/// direction and its key-value accesses.
#[derive(Clone, Copy, Debug, PartialEq, Eq, Structural)]
pub struct WaveSummary {
    pub mode: WaveMode,
    pub rows: usize,
    pub graph_bucket_rows: usize,
    pub payload_bytes: usize,
    pub kv_reads: usize,
    pub kv_writes: usize,
    pub tentative_kv_writes: usize,
}

/// The request of the dry run.
#[derive(Clone, Copy, Debug)]
pub struct PreflightRequest {
    pub request_id: &'static str,
    pub sequence_id: &'static str,
    pub kv_reservation_id: u64,
}

/// The three waves that the dry run schedules at one layer.
#[derive(Clone, Copy, Debug, PartialEq, Eq, Structural)]
pub struct PreflightWaves {
    pub decode: WaveSummary,
    pub prefill: WaveSummary,
    pub mtp_verify: WaveSummary,
}

/// One wave in the report.
#[derive(Clone, Copy, Debug)]
pub struct RealFullWaveDryRun {
    pub mode: &'static str,
    pub rows: usize,
    pub graph_bucket_rows: usize,
    pub payload_bytes: usize,
    pub kv_reads: usize,
    pub kv_writes: usize,
    pub tentative_kv_writes: usize,
}

/// A mixed batch of the rows of several waves.
#[derive(Clone, Copy, Debug)]
pub struct RealFullExpertBatchDryRun {
    pub rows: usize,
    pub routes: usize,
    pub graph_bucket_rows: usize,
    pub source_modes: [&'static str; 3],
    pub hidden_dim: usize,
    pub hidden_bytes_per_row: usize,
}

/// One layer in the report.
#[derive(Clone, Copy, Debug)]
pub struct RealFullLayerSchedulerDryRun {
    pub layer_id: usize,
    pub layer_kind: &'static str,
    pub decode: RealFullWaveDryRun,
    pub prefill: RealFullWaveDryRun,
    pub mtp_verify: RealFullWaveDryRun,
    pub expert_batch: Option<RealFullExpertBatchDryRun>,
}

/// The report of the dry run. `probe_layer` is the first sparse layer, whose
/// batch is put through the wire protocol.
#[derive(Clone, Debug)]
pub struct RealFullSchedulerDryRun {
    pub status: &'static str,
    pub scope: &'static str,
    pub placement_version: String,
    pub request_id: &'static str,
    pub sequence_id: &'static str,
    pub kv_reservation_id: u64,
    pub total_layerwaves: usize,
    pub decode_layerwaves: usize,
    pub prefill_layerwaves: usize,
    pub mtp_verify_layerwaves: usize,
    pub dense_coordinator_layers: usize,
    pub sparse_expert_batches: usize,
    pub graph_bucket_rows: usize,
    pub rows_per_sparse_expert_batch: usize,
    pub routes_per_sparse_expert_batch: usize,
    pub decode_prefix_read_layers: usize,
    pub decode_kv_write_layers: usize,
    pub prefill_prefix_read_layers: usize,
    pub prefill_kv_write_layers: usize,
    pub mtp_prefix_read_layers: usize,
    pub mtp_tentative_write_records: usize,
    pub probe_layer: usize,
    pub protocol_v2_batch_probe: RealFullExpertBatchDryRun,
    pub layer_dry_runs: Vec<RealFullLayerSchedulerDryRun>,
}

/// The model is of another kind.
#[derive(Clone, Debug)]
pub struct NotDeepseekError {
    pub model_type: String,
}

impl NotDeepseekError {
    pub open spec fn text(self) -> Seq<char> {
        "real-full scheduler dry-run requires a DeepSeek V4 catalog, got "@ + self.model_type@
    }

    pub fn message(&self) -> (out: String)
        ensures
            out@ == self.text(),
    {
        let mut out: String =
            "real-full scheduler dry-run requires a DeepSeek V4 catalog, got ".to_owned();
        out.append(self.model_type.as_str());
        out
    }
}

/// The name of a wave mode.
pub open spec fn mode_text(mode: WaveMode) -> Seq<char> {
    match mode {
        WaveMode::Decode => "decode"@,
        WaveMode::Prefill => "prefill"@,
        WaveMode::MtpVerify => "mtp_verify"@,
        WaveMode::Benchmark => "benchmark"@,
    }
}

/// The name of a wave mode.
pub fn real_full_wave_mode_label(mode: WaveMode) -> (label: &'static str)
    ensures
        label@ == mode_text(mode),
{
    match mode {
        WaveMode::Decode => "decode",
        WaveMode::Prefill => "prefill",
        WaveMode::MtpVerify => "mtp_verify",
        WaveMode::Benchmark => "benchmark",
    }
}

/// A wave in the report.
pub open spec fn wave_run_ok(run: RealFullWaveDryRun, wave: WaveSummary) -> bool {
    &&& run.mode@ == mode_text(wave.mode)
    &&& run.rows == wave.rows
    &&& run.graph_bucket_rows == wave.graph_bucket_rows
    &&& run.payload_bytes == wave.payload_bytes
    &&& run.kv_reads == wave.kv_reads
    &&& run.kv_writes == wave.kv_writes
    &&& run.tentative_kv_writes == wave.tentative_kv_writes
}

/// A wave in the report.
pub fn real_full_wave_dry_run(wave: &WaveSummary) -> (run: RealFullWaveDryRun)
    ensures
        wave_run_ok(run, *wave),
{
    RealFullWaveDryRun {
        mode: real_full_wave_mode_label(wave.mode),
        rows: wave.rows,
        graph_bucket_rows: wave.graph_bucket_rows,
        payload_bytes: wave.payload_bytes,
        kv_reads: wave.kv_reads,
        kv_writes: wave.kv_writes,
        tentative_kv_writes: wave.tentative_kv_writes,
    }
}

/// The rows of the three waves of a layer.
pub open spec fn mixed_rows(waves: PreflightWaves) -> int {
    waves.prefill.rows + waves.mtp_verify.rows + waves.decode.rows
}

/// The batch of the prefill, verify and decode rows of one layer.
pub open spec fn mixed_batch_ok(
    batch: RealFullExpertBatchDryRun,
    waves: PreflightWaves,
    facts: ModelFacts,
    graph_bucket_rows: usize,
) -> bool {
    &&& batch.rows == mixed_rows(waves)
    &&& batch.routes == mixed_rows(waves) * facts.top_k
    &&& batch.graph_bucket_rows == graph_bucket_rows
    &&& batch.source_modes@[0]@ == "prefill_chunk"@
    &&& batch.source_modes@[1]@ == "mtp_verify"@
    &&& batch.source_modes@[2]@ == "decode_step"@
    &&& batch.hidden_dim == facts.hidden_size
    &&& batch.hidden_bytes_per_row == facts.hidden_size * 2
}

/// Layer `layer_id` in the report.
pub open spec fn layer_run_ok(
    run: RealFullLayerSchedulerDryRun,
    layer_id: int,
    waves: PreflightWaves,
    facts: ModelFacts,
    graph_bucket_rows: usize,
) -> bool {
    &&& run.layer_id == layer_id
    &&& run.layer_kind@ == layer_kind_text(layer_id, facts.first_k_dense_replace as int)
    &&& wave_run_ok(run.decode, waves.decode)
    &&& wave_run_ok(run.prefill, waves.prefill)
    &&& wave_run_ok(run.mtp_verify, waves.mtp_verify)
    &&& match run.expert_batch {
        Some(batch) => layer_id >= facts.first_k_dense_replace && mixed_batch_ok(
            batch,
            waves,
            facts,
            graph_bucket_rows,
        ),
        None => layer_id < facts.first_k_dense_replace,
    }
}

/// How many of the first `n` layers have waves with a property.
pub open spec fn layers_with(
    waves: Seq<PreflightWaves>,
    property: spec_fn(PreflightWaves) -> bool,
    n: int,
) -> int
    decreases n,
{
    if n <= 0 {
        0
    } else {
        layers_with(waves, property, n - 1) + (if property(waves[n - 1]) {
            1int
        } else {
            0
        })
    }
}

/// The tentative writes of the verify waves of the first `n` layers.
pub open spec fn tentative_writes(waves: Seq<PreflightWaves>, n: int) -> int
    decreases n,
{
    if n <= 0 {
        0
    } else {
        tentative_writes(waves, n - 1) + waves[n - 1].mtp_verify.tentative_kv_writes
    }
}

proof fn lemma_tentative_writes_grow(waves: Seq<PreflightWaves>, k: int, n: int)
    requires
        0 <= k <= n <= waves.len(),
    ensures
        tentative_writes(waves, k) <= tentative_writes(waves, n),
    decreases n,
{
    if k < n {
        lemma_tentative_writes_grow(waves, k, n - 1);
    }
}

pub open spec fn decode_reads() -> spec_fn(PreflightWaves) -> bool {
    |waves: PreflightWaves| waves.decode.kv_reads > 0
}

pub open spec fn decode_writes() -> spec_fn(PreflightWaves) -> bool {
    |waves: PreflightWaves| waves.decode.kv_writes > 0
}

pub open spec fn prefill_reads() -> spec_fn(PreflightWaves) -> bool {
    |waves: PreflightWaves| waves.prefill.kv_reads > 0
}

pub open spec fn prefill_writes() -> spec_fn(PreflightWaves) -> bool {
    |waves: PreflightWaves| waves.prefill.kv_writes > 0
}

pub open spec fn verify_reads() -> spec_fn(PreflightWaves) -> bool {
    |waves: PreflightWaves| waves.mtp_verify.kv_reads > 0
}

/// How many bytes of a catalog hash name a placement.
pub const HASH_PREFIX_BYTES: usize = 16;

/// The text that the first bytes of a hash encode.
pub open spec fn hash_prefix(catalog_hash: Seq<char>) -> Seq<char> {
    decode_utf8(encode_utf8(catalog_hash).subrange(0, HASH_PREFIX_BYTES as int))
}

/// A hash of ASCII characters, such as a hexadecimal one, that is long enough
/// can be cut behind its prefix, which is its first characters.
pub proof fn law_ascii_hash_prefix(catalog_hash: Seq<char>)
    requires
        is_ascii_chars(catalog_hash),
        catalog_hash.len() >= HASH_PREFIX_BYTES,
    ensures
        is_char_boundary(encode_utf8(catalog_hash), HASH_PREFIX_BYTES as int),
        hash_prefix(catalog_hash) == catalog_hash.subrange(0, HASH_PREFIX_BYTES as int),
{
    let bytes = encode_utf8(catalog_hash);
    let prefix = catalog_hash.subrange(0, HASH_PREFIX_BYTES as int);
    encode_utf8_valid_utf8(catalog_hash);
    is_ascii_chars_encode_utf8(catalog_hash);
    assert forall|i: int| 0 <= i < prefix.len() implies '\0' <= #[trigger] prefix[i] <= '\u{7f}' by {
        assert(prefix[i] == catalog_hash[i]);
    }
    is_ascii_chars_encode_utf8(prefix);
    if bytes.len() > HASH_PREFIX_BYTES {
        assert(catalog_hash[HASH_PREFIX_BYTES as int] <= '\u{7f}');
        is_char_boundary_iff_not_is_continuation_byte(bytes, HASH_PREFIX_BYTES as int);
    } else {
        is_char_boundary_start_end_of_seq(bytes);
    }
    assert(bytes.subrange(0, HASH_PREFIX_BYTES as int) =~= encode_utf8(prefix)) by {
        assert forall|i: int| 0 <= i < prefix.len() implies bytes[i] == #[trigger] encode_utf8(
            prefix,
        )[i] by {
            assert(prefix[i] == catalog_hash[i]);
        }
    }
    encode_utf8_decode_utf8(prefix);
}

/// The dry run can be made: the catalog hash can be cut behind its prefix, there
/// is a sparse layer and every number of the report can be counted.
pub open spec fn dry_run_countable(
    catalog_hash: Seq<char>,
    facts: ModelFacts,
    waves: Seq<PreflightWaves>,
) -> bool {
    &&& is_char_boundary(encode_utf8(catalog_hash), HASH_PREFIX_BYTES as int)
    &&& facts.first_k_dense_replace < facts.num_hidden_layers
    &&& facts.num_hidden_layers * 3 <= usize::MAX
    &&& facts.hidden_size * 2 <= usize::MAX
    &&& waves.len() == facts.num_hidden_layers
    &&& forall|i: int|
        0 <= i < waves.len() ==> mixed_rows(#[trigger] waves[i]) <= usize::MAX && mixed_rows(
            waves[i],
        ) * facts.top_k <= usize::MAX
    &&& tentative_writes(waves, waves.len() as int) <= usize::MAX
}

/// What the report says.
pub open spec fn dry_run_ok(
    run: RealFullSchedulerDryRun,
    catalog_hash: Seq<char>,
    facts: ModelFacts,
    waves: Seq<PreflightWaves>,
    request: PreflightRequest,
    graph_bucket_rows: usize,
) -> bool {
    let layers = facts.num_hidden_layers as int;
    let first = facts.first_k_dense_replace as int;
    &&& run.status@ == "dry-run-only"@
    &&& run.scope@
        == "construct catalog-shaped LayerWave and mixed ExpertBatch records for DeepSeek V4"@
    &&& run.placement_version@ == "catalog-"@ + hash_prefix(catalog_hash)
    &&& run.request_id == request.request_id
    &&& run.sequence_id == request.sequence_id
    &&& run.kv_reservation_id == request.kv_reservation_id
    &&& run.total_layerwaves == layers * 3
    &&& run.decode_layerwaves == layers
    &&& run.prefill_layerwaves == layers
    &&& run.mtp_verify_layerwaves == layers
    &&& run.dense_coordinator_layers == first
    &&& run.sparse_expert_batches == layers - first
    &&& run.graph_bucket_rows == graph_bucket_rows
    &&& run.rows_per_sparse_expert_batch == mixed_rows(waves[layers - 1])
    &&& run.routes_per_sparse_expert_batch == mixed_rows(waves[layers - 1]) * facts.top_k
    &&& run.decode_prefix_read_layers == layers_with(waves, decode_reads(), layers)
    &&& run.decode_kv_write_layers == layers_with(waves, decode_writes(), layers)
    &&& run.prefill_prefix_read_layers == layers_with(waves, prefill_reads(), layers)
    &&& run.prefill_kv_write_layers == layers_with(waves, prefill_writes(), layers)
    &&& run.mtp_prefix_read_layers == layers_with(waves, verify_reads(), layers)
    &&& run.mtp_tentative_write_records == tentative_writes(waves, layers)
    &&& run.probe_layer == first
    &&& mixed_batch_ok(run.protocol_v2_batch_probe, waves[first], facts, graph_bucket_rows)
    &&& run.layer_dry_runs@.len() == layers
    &&& forall|i: int|
        0 <= i < layers ==> layer_run_ok(
            #[trigger] run.layer_dry_runs@[i],
            i,
            waves[i],
            facts,
            graph_bucket_rows,
        )
}

fn mixed_batch(waves: &PreflightWaves, facts: &ModelFacts, graph_bucket_rows: usize) -> (batch:
    RealFullExpertBatchDryRun)
    requires
        mixed_rows(*waves) <= usize::MAX,
        mixed_rows(*waves) * facts.top_k <= usize::MAX,
        facts.hidden_size * 2 <= usize::MAX,
    ensures
        mixed_batch_ok(batch, *waves, *facts, graph_bucket_rows),
{
    let rows: usize = waves.prefill.rows + waves.mtp_verify.rows + waves.decode.rows;
    RealFullExpertBatchDryRun {
        rows,
        routes: rows * facts.top_k,
        graph_bucket_rows,
        source_modes: ["prefill_chunk", "mtp_verify", "decode_step"],
        hidden_dim: facts.hidden_size,
        hidden_bytes_per_row: facts.hidden_size * 2,
    }
}

fn one_if(condition: bool) -> (r: usize)
    ensures
        r == (if condition {
            1int
        } else {
            0
        }),
{
    if condition {
        1
    } else {
        0
    }
}

/// The scheduler dry run of a checkpoint, with the waves of every layer.
/// `graph_bucket_rows` is the row capacity of the graph that holds all
/// preflight rows.
pub fn real_full_scheduler_dry_run(
    catalog_hash: &str,
    facts: &ModelFacts,
    waves: &[PreflightWaves],
    request: PreflightRequest,
    graph_bucket_rows: usize,
) -> (result: Result<RealFullSchedulerDryRun, NotDeepseekError>)
    requires
        facts.model_type@ == "deepseek_v4"@ ==> dry_run_countable(catalog_hash@, *facts, waves@),
    ensures
        result is Ok <==> facts.model_type@ == "deepseek_v4"@,
        result matches Err(e) ==> e.model_type@ == facts.model_type@,
        result matches Ok(run) ==> dry_run_ok(
            run,
            catalog_hash@,
            *facts,
            waves@,
            request,
            graph_bucket_rows,
        ),
{
    if !same_text(facts.model_type.as_str(), "deepseek_v4") {
        return Err(NotDeepseekError { model_type: facts.model_type.clone() });
    }
    let mut placement_version: String = "catalog-".to_owned();
    let (prefix, _) = catalog_hash.split_at(HASH_PREFIX_BYTES);
    proof {
        encode_utf8_decode_utf8(prefix@);
    }
    placement_version.append(prefix);
    let layers: usize = facts.num_hidden_layers;
    let first: usize = facts.first_k_dense_replace;
    let probe = mixed_batch(&waves[first], facts, graph_bucket_rows);
    let mut decode_prefix_read_layers: usize = 0;
    let mut decode_kv_write_layers: usize = 0;
    let mut prefill_prefix_read_layers: usize = 0;
    let mut prefill_kv_write_layers: usize = 0;
    let mut mtp_prefix_read_layers: usize = 0;
    let mut mtp_tentative_write_records: usize = 0;
    let mut sparse_expert_batches: usize = 0;
    let mut rows_per_sparse_expert_batch: usize = 0;
    let mut routes_per_sparse_expert_batch: usize = 0;
    let mut layer_dry_runs: Vec<RealFullLayerSchedulerDryRun> = Vec::new();
    let mut layer_id: usize = 0;
    while layer_id < layers
        invariant
            layer_id <= layers,
            layers == facts.num_hidden_layers,
            first == facts.first_k_dense_replace,
            dry_run_countable(catalog_hash@, *facts, waves@),
            decode_prefix_read_layers == layers_with(waves@, decode_reads(), layer_id as int),
            decode_kv_write_layers == layers_with(waves@, decode_writes(), layer_id as int),
            prefill_prefix_read_layers == layers_with(waves@, prefill_reads(), layer_id as int),
            prefill_kv_write_layers == layers_with(waves@, prefill_writes(), layer_id as int),
            mtp_prefix_read_layers == layers_with(waves@, verify_reads(), layer_id as int),
            decode_prefix_read_layers <= layer_id,
            decode_kv_write_layers <= layer_id,
            prefill_prefix_read_layers <= layer_id,
            prefill_kv_write_layers <= layer_id,
            mtp_prefix_read_layers <= layer_id,
            mtp_tentative_write_records == tentative_writes(waves@, layer_id as int),
            sparse_expert_batches == (if layer_id > first {
                layer_id - first
            } else {
                0
            }),
            layer_id > first ==> rows_per_sparse_expert_batch == mixed_rows(waves@[layer_id - 1])
                && routes_per_sparse_expert_batch == mixed_rows(waves@[layer_id - 1])
                * facts.top_k,
            layer_dry_runs@.len() == layer_id,
            forall|i: int|
                0 <= i < layer_id ==> layer_run_ok(
                    #[trigger] layer_dry_runs@[i],
                    i,
                    waves@[i],
                    *facts,
                    graph_bucket_rows,
                ),
        decreases layers - layer_id,
    {
        let layer = &waves[layer_id];
        proof {
            lemma_tentative_writes_grow(waves@, layer_id + 1, waves@.len() as int);
        }
        decode_prefix_read_layers = decode_prefix_read_layers + one_if(layer.decode.kv_reads > 0);
        decode_kv_write_layers = decode_kv_write_layers + one_if(layer.decode.kv_writes > 0);
        prefill_prefix_read_layers = prefill_prefix_read_layers + one_if(
            layer.prefill.kv_reads > 0,
        );
        prefill_kv_write_layers = prefill_kv_write_layers + one_if(layer.prefill.kv_writes > 0);
        mtp_prefix_read_layers = mtp_prefix_read_layers + one_if(layer.mtp_verify.kv_reads > 0);
        mtp_tentative_write_records = mtp_tentative_write_records
            + layer.mtp_verify.tentative_kv_writes;
        let expert_batch: Option<RealFullExpertBatchDryRun> = if layer_id >= first {
            let batch = mixed_batch(layer, facts, graph_bucket_rows);
            sparse_expert_batches = sparse_expert_batches + 1;
            rows_per_sparse_expert_batch = batch.rows;
            routes_per_sparse_expert_batch = batch.routes;
            Some(batch)
        } else {
            None
        };
        layer_dry_runs.push(
            RealFullLayerSchedulerDryRun {
                layer_id,
                layer_kind: real_full_layer_kind(layer_id, first),
                decode: real_full_wave_dry_run(&layer.decode),
                prefill: real_full_wave_dry_run(&layer.prefill),
                mtp_verify: real_full_wave_dry_run(&layer.mtp_verify),
                expert_batch,
            },
        );
        layer_id = layer_id + 1;
    }
    Ok(
        RealFullSchedulerDryRun {
            status: "dry-run-only",
            scope: "construct catalog-shaped LayerWave and mixed ExpertBatch records for DeepSeek V4",
            placement_version,
            request_id: request.request_id,
            sequence_id: request.sequence_id,
            kv_reservation_id: request.kv_reservation_id,
            total_layerwaves: layers * 3,
            decode_layerwaves: layers,
            prefill_layerwaves: layers,
            mtp_verify_layerwaves: layers,
            dense_coordinator_layers: first,
            sparse_expert_batches,
            graph_bucket_rows,
            rows_per_sparse_expert_batch,
            routes_per_sparse_expert_batch,
            decode_prefix_read_layers,
            decode_kv_write_layers,
            prefill_prefix_read_layers,
            prefill_kv_write_layers,
            mtp_prefix_read_layers,
            mtp_tentative_write_records,
            probe_layer: first,
            protocol_v2_batch_probe: probe,
            layer_dry_runs,
        },
    )
}

} // verus!
