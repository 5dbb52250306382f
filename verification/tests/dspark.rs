//! The drafter: chunks, batch widths, storage plan, views, graphs and routes.
use real_full::device::Ds41rtDeviceBuffer;
use real_full::dspark::capture::GraphParameters;
use real_full::dspark::entry::{
    dspark_block0_lane_sum_bytes, dspark_entry_chunk_rows, dspark_sum_repeated_hc_input_lanes,
    preload_dspark_block0_hc_attn_lane_sum, EntryError, EntryRequest, LaneSumError,
    LaneSumPreloadError, TargetTap, DSPARK_HC_MIXES,
};
use real_full::dspark::graphs::{BlockRows, DeepseekV4DsparkGraphs, GraphCapture, GraphError, GraphKey};
use real_full::dspark::launch::PythonKernelArg;
use real_full::dspark::messages::{GraphSet, RunStage};
use real_full::dspark::plan::{
    plan_deepseek_v4_dspark_device_storage, plan_deepseek_v4_dspark_device_storage_with_cache_format,
    DeepseekV4DsparkDeviceStoragePlan, DsparkVariant, StoragePlanError, DSPARK_BLOCKS,
    DSPARK_PROPOSAL_HC_MULT, DSPARK_PROPOSAL_ROWS_PER_REQUEST,
};
use real_full::dspark::queries::{dspark_layout_queries, DeepseekV4KvCacheFormat};
use real_full::dspark::routes::{
    repeated_expert, validate_route_image, RouteError, RouteImage,
};
use real_full::dspark::run::{
    ProposalInput, ProposalInputError, RunError, SparsePreparationError, TerminalHeadError,
    TerminalRunError,
};
use real_full::dspark::storage::{
    dspark_joint_request_range_byte_span, DeepseekV4DsparkDeviceStorage, JointSpanError,
    StorageError,
};
use real_full::dspark::terminal::{
    dspark_terminal_request_buckets, prepare_terminal_batch, read_terminal_batch,
    terminal_readback_words, TerminalBatchError,
};
use real_full::dspark::weights::{
    all_on_first_device, dspark_block_attention_geometry, BlockWeightError,
    DeepseekV4DsparkBlockAttentionWeights, DeepseekV4DsparkBlockPostDispatchWeights,
    DeepseekV4DsparkTerminalCollapseWeights, DeepseekV4DsparkTerminalHeadWeights, EntryWeights,
    PromptWeights, ProposalEntryWeights,
};
use real_full::model::{DType, ModelFacts, ModelVariant};
use real_full::sparse_block::{PreDispatchError, RouterKernel, SparseConstants};

/// The label of pages in the 8-bit format.
const FP8_LABEL: &str = "fp8";

#[test]
fn entry_chunk_rows_selects_largest_exact_bucket() {
    for (remaining, expected) in [
        (1, 1),
        (2, 1),
        (15, 1),
        (16, 16),
        (17, 16),
        (129, 128),
        (2_047, 1_024),
        (2_048, 2_048),
        (4_097, 2_048),
    ] {
        assert_eq!(dspark_entry_chunk_rows(remaining).unwrap(), expected);
    }
    assert!(dspark_entry_chunk_rows(0).is_err());
}

#[test]
fn entry_chunks_shrink_and_are_as_few_as_can_be() {
    let captured = [1_usize, 16, 32, 64, 128, 256, 512, 1_024, 2_048];
    for max_rows in [20_usize, 100, 2_048] {
        // The fewest captured row counts with each sum.
        let mut fewest = vec![0_usize; 301];
        for total in 1..fewest.len() {
            fewest[total] = captured
                .iter()
                .filter(|rows| **rows <= max_rows && **rows <= total)
                .map(|rows| fewest[total - rows] + 1)
                .min()
                .unwrap();
        }
        for total in 1..fewest.len() {
            let mut remaining = total;
            let mut chunks = Vec::new();
            while remaining > 0 {
                let rows = dspark_entry_chunk_rows(remaining.min(max_rows)).unwrap();
                chunks.push(rows);
                remaining -= rows;
            }
            assert!(chunks.windows(2).all(|pair| pair[0] >= pair[1]));
            assert_eq!(chunks.len(), fewest[total]);
        }
    }
    assert_eq!(
        dspark_entry_chunk_rows(0).unwrap_err().message(),
        "dSpark entry chunk remaining row count must be positive"
    );
}

#[test]
fn long_entry_projection_is_chunkable_without_rejecting_total_rows() {
    let mut remaining = 4_097usize;
    let mut chunks = Vec::new();
    while remaining > 0 {
        let rows = dspark_entry_chunk_rows(remaining.min(2_048)).unwrap();
        chunks.push(rows);
        remaining -= rows;
    }
    assert_eq!(chunks, vec![2_048, 2_048, 1]);
}

#[test]
fn terminal_graph_buckets_preserve_joint_batch_widths() {
    assert_eq!(dspark_terminal_request_buckets(1), vec![1]);
    assert_eq!(dspark_terminal_request_buckets(16), vec![1, 2, 4, 8, 16]);
    assert_eq!(dspark_terminal_request_buckets(13), vec![1, 2, 4, 8, 13]);
}

#[test]
fn c4_joint_pair_buffers_are_adjacent_and_disjoint() {
    let hidden = 4_096;
    let first = dspark_joint_request_range_byte_span(0, 2, 4, hidden).unwrap();
    let second = dspark_joint_request_range_byte_span(2, 4, 4, hidden).unwrap();
    assert_eq!(first.start, 0);
    assert_eq!(first.end, second.start);
    assert_eq!(
        first.end - first.start,
        2 * 5 * hidden * std::mem::size_of::<u16>()
    );
    assert_eq!(second.end - second.start, first.end - first.start);
    assert!(dspark_joint_request_range_byte_span(2, 2, 4, hidden).is_err());
    assert!(dspark_joint_request_range_byte_span(3, 5, 4, hidden).is_err());
}

#[test]
fn repeated_hc_input_lanes_are_summed_once_for_proposal_entry() {
    let hidden = 2usize;
    let mut source: Vec<u8> = Vec::new();
    for mix in 0..DSPARK_HC_MIXES {
        for lane in 0..DSPARK_PROPOSAL_HC_MULT {
            for column in 0..hidden {
                source.extend_from_slice(&((mix * 100 + lane * 10 + column) as f32).to_le_bytes());
            }
        }
    }
    let mut destination = vec![0_u8; DSPARK_HC_MIXES * hidden * 4];
    let sums =
        dspark_sum_repeated_hc_input_lanes(source.len(), destination.len(), hidden).unwrap();
    let value = |offset: usize| {
        f32::from_le_bytes([
            source[offset],
            source[offset + 1],
            source[offset + 2],
            source[offset + 3],
        ])
    };
    for sum in &sums {
        let total = 0.0_f32
            + value(sum.first_lane)
            + value(sum.second_lane)
            + value(sum.third_lane)
            + value(sum.fourth_lane);
        destination[sum.destination..sum.destination + 4].copy_from_slice(&total.to_le_bytes());
    }
    for mix in 0..DSPARK_HC_MIXES {
        for column in 0..hidden {
            let offset = (mix * hidden + column) * 4;
            let actual = f32::from_le_bytes(
                destination[offset..offset + 4]
                    .try_into()
                    .expect("four-byte test slice"),
            );
            let expected = 4.0 * (mix * 100 + column) as f32 + 60.0;
            assert_eq!(actual, expected);
        }
    }
}

/// Answers of the kernel planner for sixteen requests and 2048 main rows.
fn answers(variant: DsparkVariant, format: DeepseekV4KvCacheFormat) -> Vec<usize> {
    let flash = matches!(variant, DsparkVariant::Flash);
    let hidden = if flash { 4_096 } else { 7_168 };
    let experts = if flash { 256 } else { 384 };
    let intermediate = if flash { 2_048 } else { 3_072 };
    let rank = if flash { 256 } else { 512 };
    let rows = 80;
    let projected = 2_048 * hidden * 2;
    let page = match format {
        DeepseekV4KvCacheFormat::Fp8Ue8m0 => 149_760,
        DeepseekV4KvCacheFormat::Nvfp4 => 110_592,
    };
    let row_hidden = rows * hidden * 2;
    let residual = row_hidden * 4;
    let route = rows * 6 * 4;
    let scores = rows * (6 + experts) * 4;
    let shared = 8 * intermediate * 2;
    let mut at = |offset: &mut usize, bytes: usize, alignment: usize| {
        let start = (*offset + alignment - 1) / alignment * alignment;
        *offset = start + bytes;
        (start, bytes)
    };
    // The workspace holds the concatenated taps, then the projection scratch.
    let concat = projected * 3;
    let scratch = 30_212_096;
    let workspace_bytes = 83_351_552 + if flash { 0 } else { 100_000_000 };
    let mut arena = 0usize;
    let projected_range = at(&mut arena, projected, 1_024);
    let kv_scratch = at(&mut arena, 1_048_576, 1_024);
    let proposal = if flash { 27_787_264 } else { 60_000_256 };
    arena = proposal;
    let tokens = at(&mut arena, rows * 4, 256);
    arena = proposal + 768;
    let ping = at(&mut arena, residual, 256);
    let pong = at(&mut arena, residual, 256);
    let collapsed = at(&mut arena, row_hidden, 256);
    let normalized = at(&mut arena, row_hidden, 256);
    let compact = at(&mut arena, row_hidden, 256);
    let logits = at(&mut arena, rows * 129_280 * 4, 256);
    let markov_logits = at(&mut arena, 16 * 129_280 * 4, 256);
    // The block metadata and the Markov embeddings take turns.
    let mut shared_area = arena;
    let positions = at(&mut shared_area, rows * 4, 64);
    let slots = at(&mut shared_area, rows * 4, 64);
    let cos_sin = at(&mut shared_area, rows * 64 * 4, 64);
    let post_ping = at(&mut shared_area, rows * 4 * 4, 64);
    let comb_ping = at(&mut shared_area, rows * 16 * 4, 64);
    let post_pong = at(&mut shared_area, rows * 4 * 4, 64);
    let comb_pong = at(&mut shared_area, rows * 16 * 4, 64);
    let embeddings = at(&mut arena, rows * rank * 2, 256);
    let confidence = at(&mut arena, rows * 4, 256);
    let active_slots = at(&mut arena, 16 * 4, 256);
    let anchors = at(&mut arena, 16 * 4, 256);
    let outputs = at(&mut arena, 16 * 6 * 4, 256);
    let mut tail = arena.max(shared_area);
    tail = (tail + 255) / 256 * 256;
    if flash {
        tail = 84_683_008;
    }
    let selected = at(&mut tail, rows * 133 * 4, 256);
    let lengths = at(&mut tail, rows * 4, 256);
    let workspace = at(&mut tail, workspace_bytes, 256);
    // The block buffers lie at the end of the workspace.
    let mut block = if flash { 80_543_744 } else { 150_000_640 };
    let route_indices = at(&mut block, route, 1_024);
    let route_scores = at(&mut block, scores, 1_024);
    let route_weights = at(&mut block, route, 1_024);
    let gate = at(&mut block, shared, 1_024);
    let up = at(&mut block, shared, 1_024);
    let activated = at(&mut block, shared, 1_024);
    let delta = at(&mut block, row_hidden, 1_024);
    let reduction = at(&mut block, row_hidden * 2, 1_024);
    let ffn = at(&mut block, row_hidden, 1_024);
    let total = if flash { 168_077_824 } else { tail };
    let ranges = [
        projected_range,
        workspace,
        kv_scratch,
        (0, concat),
        (concat, scratch),
        (0, 2_048 * 4),
        (8_192, 2_048 * 4),
        (16_384, 2_048 * 64 * 4),
        tokens,
        ping,
        pong,
        collapsed,
        normalized,
        compact,
        logits,
        markov_logits,
        embeddings,
        confidence,
        active_slots,
        anchors,
        outputs,
        positions,
        slots,
        cos_sin,
        post_ping,
        comb_ping,
        post_pong,
        comb_pong,
        selected,
        lengths,
        route_indices,
        route_scores,
        route_weights,
        gate,
        up,
        activated,
        delta,
        reduction,
        ffn,
    ];
    let mut out = vec![total, 3 * 16 * page];
    for (offset, bytes) in ranges {
        out.push(offset);
        out.push(bytes);
    }
    out
}

fn flash_answers() -> Vec<usize> {
    answers(DsparkVariant::Flash, DeepseekV4KvCacheFormat::Fp8Ue8m0)
}

fn flash_plan() -> DeepseekV4DsparkDeviceStoragePlan {
    plan_deepseek_v4_dspark_device_storage("flash", 16, 2_048, FP8_LABEL, &flash_answers()).unwrap()
}

fn pro_plan() -> DeepseekV4DsparkDeviceStoragePlan {
    let answers = answers(DsparkVariant::Pro, DeepseekV4KvCacheFormat::Fp8Ue8m0);
    plan_deepseek_v4_dspark_device_storage("pro", 16, 2_048, FP8_LABEL, &answers).unwrap()
}

#[test]
fn flash_proposal_storage_plan_matches_python_arena_contract() {
    let plan = flash_plan();
    assert_eq!(plan.arena_bytes, 168_077_824);
    assert_eq!(plan.persistent_kv_bytes, 3 * 16 * 149_760);
    assert_eq!(plan.proposal.draft_token_ids.offset, 27_787_264);
    assert_eq!(plan.proposal.draft_token_ids.bytes, 320);
    assert_eq!(plan.proposal.residual_ping.offset, 27_788_032);
    assert_eq!(plan.proposal.residual_ping.bytes, 2_621_440);
    assert_eq!(plan.proposal.residual_pong.offset, 30_409_472);
    assert_eq!(plan.proposal.residual_pong.bytes, 2_621_440);
    assert_eq!(plan.proposal.collapsed_hidden.offset, 33_030_912);
    assert_eq!(plan.proposal.collapsed_hidden.bytes, 655_360);
    assert_eq!(plan.proposal.normalized_hidden.offset, 33_686_272);
    assert_eq!(plan.proposal.normalized_hidden.bytes, 655_360);
    assert_eq!(plan.terminal.compact_normalized_hidden.offset, 34_341_632);
    assert_eq!(plan.terminal.compact_normalized_hidden.bytes, 655_360);
    assert_eq!(plan.terminal.shared_logits.offset, 34_996_992);
    assert_eq!(plan.terminal.shared_logits.bytes, 41_369_600);
    assert_eq!(plan.terminal.markov_logits.offset, 76_366_592);
    assert_eq!(plan.terminal.markov_logits.bytes, 8_273_920);
    assert_eq!(plan.terminal.markov_embeddings.offset, 84_640_512);
    assert_eq!(plan.terminal.markov_embeddings.bytes, 40_960);
    assert_eq!(plan.terminal.confidence.offset, 84_681_472);
    assert_eq!(plan.terminal.confidence.bytes, 320);
    assert_eq!(plan.terminal.active_slot_ids.offset, 84_681_984);
    assert_eq!(plan.terminal.active_slot_ids.bytes, 64);
    assert_eq!(plan.terminal.anchor_token_ids.offset, 84_682_240);
    assert_eq!(plan.terminal.anchor_token_ids.bytes, 64);
    assert_eq!(plan.terminal.output_token_ids.offset, 84_682_496);
    assert_eq!(plan.terminal.output_token_ids.bytes, 384);
    assert_eq!(plan.proposal.positions.offset, 84_640_512);
    assert_eq!(plan.proposal.positions.bytes, 320);
    assert_eq!(plan.proposal.main_slots.offset, 84_640_832);
    assert_eq!(plan.proposal.main_slots.bytes, 320);
    assert_eq!(plan.proposal.cos_sin.offset, 84_641_152);
    assert_eq!(plan.proposal.cos_sin.bytes, 20_480);
    assert_eq!(plan.proposal.post_ping.offset, 84_661_632);
    assert_eq!(plan.proposal.post_ping.bytes, 1_280);
    assert_eq!(plan.proposal.comb_ping.offset, 84_662_912);
    assert_eq!(plan.proposal.comb_ping.bytes, 5_120);
    assert_eq!(plan.proposal.post_pong.offset, 84_668_032);
    assert_eq!(plan.proposal.post_pong.bytes, 1_280);
    assert_eq!(plan.proposal.comb_pong.offset, 84_669_312);
    assert_eq!(plan.proposal.comb_pong.bytes, 5_120);
    assert_eq!(plan.proposal.selected_indices.offset, 84_683_008);
    assert_eq!(plan.proposal.selected_indices.bytes, 42_560);
    assert_eq!(plan.proposal.selected_lengths.offset, 84_725_760);
    assert_eq!(plan.proposal.selected_lengths.bytes, 320);
    assert_eq!(plan.block.route_indices.offset, 80_543_744);
    assert_eq!(plan.block.route_indices.bytes, 1_920);
    assert_eq!(plan.block.route_scores.offset, 80_545_792);
    assert_eq!(plan.block.route_scores.bytes, 83_840);
    assert_eq!(plan.block.route_weights.offset, 80_629_760);
    assert_eq!(plan.block.route_weights.bytes, 1_920);
    assert_eq!(plan.block.shared_gate.offset, 80_631_808);
    assert_eq!(plan.block.shared_gate.bytes, 32_768);
    assert_eq!(plan.block.shared_up.offset, 80_664_576);
    assert_eq!(plan.block.shared_up.bytes, 32_768);
    assert_eq!(plan.block.shared_activated.offset, 80_697_344);
    assert_eq!(plan.block.shared_activated.bytes, 32_768);
    assert_eq!(plan.block.shared_delta.offset, 80_730_112);
    assert_eq!(plan.block.shared_delta.bytes, 655_360);
    assert_eq!(plan.block.reduction_f32.offset, 81_385_472);
    assert_eq!(plan.block.reduction_f32.bytes, 1_310_720);
    assert_eq!(plan.block.ffn_delta.offset, 82_696_192);
    assert_eq!(plan.block.ffn_delta.bytes, 655_360);
}

#[test]
fn flash_native_nvfp4_dspark_storage_uses_exact_request_local_pages() {
    let plan = plan_deepseek_v4_dspark_device_storage_with_cache_format(
        "flash",
        16,
        2_048,
        DeepseekV4KvCacheFormat::Nvfp4,
        FP8_LABEL,
        &answers(DsparkVariant::Flash, DeepseekV4KvCacheFormat::Nvfp4),
    )
    .unwrap();

    assert_eq!(plan.cache_label, "nvfp4");
    assert_eq!(plan.cache_format, DeepseekV4KvCacheFormat::Nvfp4);
    assert_eq!(plan.packed_page_bytes, 110_592);
    assert_eq!(plan.persistent_kv_bytes, DSPARK_BLOCKS * 16 * 110_592);
}

#[test]
fn pro_proposal_storage_plan_preserves_five_row_joint_sparse_geometry() {
    let max_batch = 16_usize;
    let proposal_rows = max_batch * DSPARK_PROPOSAL_ROWS_PER_REQUEST;
    let plan = pro_plan();
    assert_eq!(plan.variant.label(), "pro");
    assert_eq!(plan.hidden, 7_168);
    assert_eq!(plan.vocab, 129_280);
    assert_eq!(plan.markov_rank, 512);
    assert_eq!(
        plan.proposal.collapsed_hidden.bytes,
        proposal_rows * plan.hidden * std::mem::size_of::<u16>()
    );
    assert_eq!(
        plan.proposal.normalized_hidden.bytes,
        proposal_rows * plan.hidden * std::mem::size_of::<u16>()
    );
    assert_eq!(
        plan.block.route_indices.bytes,
        proposal_rows * 6 * std::mem::size_of::<u32>()
    );
    assert_eq!(
        plan.block.route_scores.bytes,
        proposal_rows * (6 + 384) * std::mem::size_of::<f32>()
    );
    assert_eq!(plan.block.route_weights.bytes, plan.block.route_indices.bytes);
    assert_eq!(
        plan.block.shared_gate.bytes,
        8 * 3_072 * std::mem::size_of::<u16>()
    );
    assert_eq!(plan.block.shared_up.bytes, plan.block.shared_gate.bytes);
    assert_eq!(
        plan.block.shared_activated.bytes,
        plan.block.shared_gate.bytes
    );
    assert_eq!(
        plan.block.shared_delta.bytes,
        proposal_rows * plan.hidden * std::mem::size_of::<u16>()
    );
    assert_eq!(plan.block.ffn_delta.bytes, plan.block.shared_delta.bytes);
    assert_eq!(
        plan.block.reduction_f32.bytes,
        proposal_rows * plan.hidden * std::mem::size_of::<f32>()
    );
    assert!(plan.arena_bytes > plan.block.ffn_delta.offset + plan.block.ffn_delta.bytes);
}

#[test]
fn storage_plan_refuses_other_answers() {
    let good = flash_answers();
    let error =
        plan_deepseek_v4_dspark_device_storage("ultra", 16, 2_048, FP8_LABEL, &good).unwrap_err();
    assert_eq!(
        error,
        StoragePlanError::Variant {
            variant: "ultra".to_owned()
        }
    );
    assert_eq!(
        error.message(),
        "DeepSeek V4 dSpark device storage variant must be flash or pro, got \"ultra\""
    );
    let error =
        plan_deepseek_v4_dspark_device_storage("a\"b", 16, 2_048, FP8_LABEL, &good).unwrap_err();
    assert_eq!(
        error.message(),
        "DeepSeek V4 dSpark device storage variant must be flash or pro, got \"a\\\"b\""
    );
    assert!(matches!(
        plan_deepseek_v4_dspark_device_storage("flash", 0, 2_048, FP8_LABEL, &good),
        Err(StoragePlanError::ZeroBatch)
    ));
    assert!(matches!(
        plan_deepseek_v4_dspark_device_storage("flash", 16, 0, FP8_LABEL, &good),
        Err(StoragePlanError::ZeroMainRows)
    ));
    assert!(matches!(
        plan_deepseek_v4_dspark_device_storage("flash", 16, 2_048, FP8_LABEL, &good[..79]),
        Err(StoragePlanError::AnswerCount { answers: 79 })
    ));
    let mut pages = good.clone();
    pages[1] += 1;
    assert!(matches!(
        plan_deepseek_v4_dspark_device_storage("flash", 16, 2_048, FP8_LABEL, &pages),
        Err(StoragePlanError::KvBytes { got: 7_188_481, expected: 7_188_480 })
    ));
    let mut misaligned = good.clone();
    misaligned[2 + 2 * 30] += 8;
    assert!(matches!(
        plan_deepseek_v4_dspark_device_storage("flash", 16, 2_048, FP8_LABEL, &misaligned),
        Err(StoragePlanError::BlockView { view: 0 })
    ));
    let mut short = good;
    short[3 + 2 * 9] -= 1;
    let error = plan_deepseek_v4_dspark_device_storage("flash", 16, 2_048, FP8_LABEL, &short).unwrap_err();
    assert_eq!(error, StoragePlanError::ProposalSizes);
    assert!(!error.message().is_empty());
}

#[test]
fn layout_queries_name_totals_and_then_ranges() {
    let queries = dspark_layout_queries(
        DsparkVariant::Flash,
        16,
        2_048,
        DeepseekV4KvCacheFormat::Fp8Ue8m0,
        "fp8_ue8m0",
    );
    assert_eq!(queries.len(), 80);
    assert_eq!(queries[0].function, "deepseek_v4_dspark_arena_nbytes");
    assert_eq!(queries[0].module, "deepseek_v4_dspark_capture");
    assert_eq!(queries[0].variant, "flash");
    assert_eq!(queries[0].max_batch, 16);
    assert_eq!(queries[0].max_main_rows, 2_048);
    assert_eq!(queries[1].function, "deepseek_v4_dspark_persistent_kv_nbytes");
    assert_eq!(queries[1].extra, Some(("cache_format", "fp8_ue8m0")));
    assert_eq!(queries[2].function, "deepseek_v4_dspark_arena_region_offset");
    assert_eq!(queries[2].extra, Some(("region", "projected_target_main")));
    assert_eq!(queries[3].function, "deepseek_v4_dspark_arena_region_nbytes");
    assert_eq!(queries[79].function, "deepseek_v4_dspark_block_buffer_nbytes");
    assert_eq!(queries[79].extra, Some(("buffer", "ffn_delta")));
}

fn buffer(ptr: usize, bytes: usize) -> Ds41rtDeviceBuffer {
    Ds41rtDeviceBuffer {
        ptr,
        bytes,
        device_id: 0,
        flags: 0,
    }
}

fn storage_of(plan: DeepseekV4DsparkDeviceStoragePlan) -> DeepseekV4DsparkDeviceStorage {
    DeepseekV4DsparkDeviceStorage::new(
        plan,
        buffer(0x1000_0000, plan.arena_bytes),
        buffer(0x9000_0000, plan.persistent_kv_bytes),
    )
    .unwrap()
}

fn flash_storage() -> DeepseekV4DsparkDeviceStorage {
    storage_of(flash_plan())
}

#[test]
fn storage_needs_both_allocations_on_the_first_device() {
    let plan = flash_plan();
    let arena = buffer(0x1000_0000, plan.arena_bytes);
    let pages = buffer(0x9000_0000, plan.persistent_kv_bytes);
    let short = buffer(0x1000_0000, plan.arena_bytes - 1);
    let mut elsewhere = pages;
    elsewhere.device_id = 1;
    assert!(DeepseekV4DsparkDeviceStorage::new(plan, arena, pages).is_ok());
    assert_eq!(
        DeepseekV4DsparkDeviceStorage::new(plan, short, pages).unwrap_err(),
        StorageError::Allocation {
            arena: short,
            persistent_kv: pages
        }
    );
    assert_eq!(
        DeepseekV4DsparkDeviceStorage::new(plan, arena, elsewhere).unwrap_err(),
        StorageError::Allocation {
            arena,
            persistent_kv: elsewhere
        }
    );
    let null = buffer(0, plan.arena_bytes);
    elsewhere.ptr = 0x1234_abcd_ef09;
    elsewhere.device_id = -1;
    assert_eq!(
        DeepseekV4DsparkDeviceStorage::new(plan, null, elsewhere)
            .unwrap_err()
            .message(),
        format!(
            "integrated dSpark storage lost its GPU0 allocation contract: arena_ptr=0x0 arena_bytes={} arena_device=0 kv_ptr=0x1234abcdef09 kv_bytes={} kv_device=-1",
            plan.arena_bytes, plan.persistent_kv_bytes
        )
    );
}

#[test]
fn request_views_divide_the_arena_by_slot() {
    let storage = flash_storage();
    let full = storage.proposal_buffers();
    assert_eq!(full.residual_ping.ptr, 0x1000_0000 + 27_788_032);
    let third = storage.proposal_request_buffers(3).unwrap();
    assert_eq!(third.residual_ping.bytes, 163_840);
    assert_eq!(third.residual_ping.ptr, full.residual_ping.ptr + 3 * 163_840);
    assert_eq!(third.draft_token_ids.ptr, full.draft_token_ids.ptr + 60);
    let fourth = storage.proposal_request_buffers(4).unwrap();
    assert_eq!(
        fourth.residual_ping.ptr,
        third.residual_ping.ptr + third.residual_ping.bytes
    );
    let error = storage.proposal_request_buffers(16).unwrap_err();
    assert_eq!(
        error,
        StorageError::Slot {
            slot: 16,
            max_batch: 16
        }
    );
    assert_eq!(
        error.message(),
        "integrated dSpark proposal request slot 16 exceeds max batch 16"
    );
    let entry = storage.entry_buffers().unwrap();
    assert_eq!(entry.prompt_main_slots.ptr, entry.target_tap_concat.ptr + 8_192);
    assert_eq!(storage.terminal_buffers().output_token_ids.bytes, 384);
}

#[test]
fn snapshot_and_restore_use_the_same_three_pages() {
    let storage = flash_storage();
    let (bytes, copies) = storage.snapshot_request_kv(7).unwrap();
    assert_eq!(bytes, 3 * 149_760);
    let restored = storage.restore_request_kv(7, bytes).unwrap();
    assert_eq!(copies, restored);
    assert_eq!(copies.len(), 3);
    assert_eq!(copies[0].page.ptr, 0x9000_0000 + 7 * 149_760);
    assert_eq!(copies[1].page.ptr, 0x9000_0000 + (16 + 7) * 149_760);
    assert_eq!(copies[2].host_offset, 2 * 149_760);
    // A device and a host, byte by byte: what was restored is read back, and
    // the pages of another request stay as they were.
    let mut device = vec![0_u8; storage.plan.persistent_kv_bytes];
    let host: Vec<u8> = (0..bytes).map(|i| ((i * 31 + 17) % 251) as u8).collect();
    for copy in &restored {
        let at = copy.page.ptr - 0x9000_0000;
        device[at..at + copy.page.bytes]
            .copy_from_slice(&host[copy.host_offset..copy.host_offset + copy.page.bytes]);
    }
    let mut back = vec![0_u8; bytes];
    for copy in &copies {
        let at = copy.page.ptr - 0x9000_0000;
        back[copy.host_offset..copy.host_offset + copy.page.bytes]
            .copy_from_slice(&device[at..at + copy.page.bytes]);
    }
    assert_eq!(back, host);
    let (_, others) = storage.snapshot_request_kv(8).unwrap();
    for copy in &others {
        let at = copy.page.ptr - 0x9000_0000;
        assert!(device[at..at + copy.page.bytes].iter().all(|byte| *byte == 0));
    }
    assert_eq!(
        storage.restore_request_kv(7, bytes - 1).unwrap_err(),
        StorageError::SnapshotBytes {
            got: bytes - 1,
            expected: bytes
        }
    );
    let error = storage.snapshot_request_kv(16).unwrap_err();
    assert_eq!(
        error.message(),
        "integrated dSpark request slot 16 exceeds batch 16"
    );
    assert_eq!(
        storage.persistent_kv_block(3).unwrap_err(),
        StorageError::BlockIndex { block: 3 }
    );
    assert_eq!(
        storage.persistent_kv_request_page(2, 1).unwrap().ptr,
        0x9000_0000 + (32 + 1) * 149_760
    );
}

#[test]
fn joint_copies_go_through_slot_major_buffers() {
    let storage = flash_storage();
    let views = storage.block_pre_dispatch_buffers(2).unwrap();
    assert_eq!(views.route_indices.bytes, 120);
    assert_eq!(views.route_scores.bytes, 5_240);
    assert_eq!(views.ffn_delta.bytes, 40_960);
    assert_eq!(
        views.dispatch_hidden,
        storage.proposal_request_buffers(2).unwrap().collapsed_hidden
    );
    let stage = storage
        .stage_joint_block_shared_delta(1, 5, views.shared_output)
        .unwrap();
    let (shared, reduced) = storage
        .joint_block_tp4_dispatch_buffers_for_range(0, 4)
        .unwrap();
    assert_eq!(stage.destination.ptr, shared.ptr + 40_960);
    assert_eq!(stage.bytes, 40_960);
    assert_eq!(shared.bytes, 4 * 40_960);
    let load = storage.load_joint_block_ffn_delta(1, 2).unwrap();
    assert_eq!(load.source.ptr, reduced.ptr + 40_960);
    assert_eq!(load.destination, views.ffn_delta);
    assert_eq!(
        storage
            .stage_joint_block_shared_delta(16, 5, views.shared_output)
            .unwrap_err(),
        StorageError::JointSlot {
            index: 16,
            rows: 5,
            max_batch: 16
        }
    );
    assert_eq!(
        storage.load_joint_block_ffn_delta(0, 16).unwrap_err(),
        StorageError::JointSource {
            index: 0,
            slot: 16,
            max_batch: 16
        }
    );
    assert_eq!(
        storage
            .joint_block_tp4_dispatch_buffers_for_range(3, 3)
            .unwrap_err(),
        StorageError::JointSpan {
            error: JointSpanError::Range {
                start: 3,
                end: 3,
                max_batch: 16
            }
        }
    );
    assert!(matches!(
        dspark_joint_request_range_byte_span(0, 1, 1, usize::MAX),
        Err(JointSpanError::RequestBytesOverflow)
    ));
    assert!(matches!(
        dspark_joint_request_range_byte_span(2, 3, 3, usize::MAX / 15),
        Err(JointSpanError::OffsetOverflow)
    ));
}

fn tap(ptr: usize) -> TargetTap {
    TargetTap {
        rows: 5_000,
        values_per_row: 4_096,
        buffer: buffer(ptr, 5_000 * 8_192),
    }
}

/// Complete sets of entry and prompt graphs.
fn entry_graphs() -> DeepseekV4DsparkGraphs {
    let mut graphs = DeepseekV4DsparkGraphs::new();
    for rows in [1, 16, 32, 64, 128, 256, 512, 1_024, 2_048] {
        graphs.record_capture(GraphKey::Entry { rows }, 0, 0).unwrap();
    }
    for block_index in 0..3 {
        for rows in [1, 16, 32, 64, 128, 256, 512, 1_024, 2_048] {
            let key = GraphKey::PromptPrime { block_index, rows };
            graphs.record_capture(key, 0, 0).unwrap();
        }
    }
    graphs
}

fn entry_request() -> EntryRequest {
    EntryRequest {
        target_row_start: 100,
        committed_rows: 4_113,
        absolute_context_start: 1_000,
        request_slot: 2,
        rope_theta_bits: 10_000.0_f32.to_bits(),
    }
}

#[test]
fn taps_are_projected_in_contiguous_chunks() {
    let storage = flash_storage();
    let taps = [tap(0x2_0000_0000), tap(0x3_0000_0000), tap(0x4_0000_0000)];
    let graphs = entry_graphs();
    let run = storage
        .project_and_prime_target_taps_in_chunks(&graphs, &taps, entry_request())
        .unwrap();
    assert!(run.refusal.is_none());
    let rows: Vec<usize> = run.chunks.iter().map(|chunk| chunk.rows).collect();
    assert_eq!(rows, vec![2_048, 2_048, 16, 1]);
    let starts: Vec<usize> = run
        .chunks
        .iter()
        .map(|chunk| chunk.source_row_start)
        .collect();
    assert_eq!(starts, vec![100, 2_148, 4_196, 4_212]);
    assert_eq!(run.chunks[2].metadata.absolute_position_start, 1_000 + 4_096);
    assert_eq!(run.chunks[2].metadata.request_slot, 2);
    assert_eq!(run.chunks[2].metadata.rows, 16);
    for chunk in &run.chunks {
        assert_eq!(graphs.entry[chunk.entry_graph], chunk.rows);
        for block_index in 0..3 {
            assert_eq!(
                graphs.prompt_prime[chunk.prompt_graphs[block_index]],
                BlockRows {
                    block_index,
                    rows: chunk.rows
                }
            );
        }
    }
    assert_eq!(run.chunks[3].projected_target_main.bytes, 8_192);
    let copy = run.chunks[1].copies[2];
    assert_eq!(copy.source.ptr, 0x4_0000_0000 + 2_148 * 8_192);
    assert_eq!(copy.destination_pitch, 3 * 8_192);
    assert_eq!(
        copy.destination.ptr,
        storage.entry_buffers().unwrap().target_tap_concat.ptr + 2 * 8_192
    );
}

#[test]
fn entry_projection_names_what_is_wrong() {
    let storage = flash_storage();
    let taps = [tap(0x2_0000_0000), tap(0x3_0000_0000), tap(0x4_0000_0000)];
    let good = entry_request();
    let graphs = entry_graphs();
    let none = DeepseekV4DsparkGraphs::new();
    let refused = |prepared: bool, taps: &[TargetTap; 3], request: EntryRequest| {
        let graphs = if prepared { &graphs } else { &none };
        storage
            .project_and_prime_target_taps_in_chunks(graphs, taps, request)
            .unwrap_err()
    };
    assert_eq!(refused(false, &taps, good), EntryError::NotPrepared);
    let mut request = good;
    request.committed_rows = 0;
    assert_eq!(refused(true, &taps, request), EntryError::NoRows);
    request = good;
    request.request_slot = 16;
    assert_eq!(
        refused(true, &taps, request),
        EntryError::Slot {
            slot: 16,
            max_batch: 16
        }
    );
    request = good;
    request.rope_theta_bits = f32::NAN.to_bits();
    assert_eq!(refused(true, &taps, request), EntryError::RopeTheta);
    request.rope_theta_bits = (-1.0_f32).to_bits();
    assert_eq!(refused(true, &taps, request), EntryError::RopeTheta);
    request = good;
    request.target_row_start = usize::MAX;
    assert_eq!(refused(true, &taps, request), EntryError::RowRangeOverflow);
    let mut narrow = taps;
    narrow[1].values_per_row = 7_168;
    assert_eq!(refused(true, &narrow, good), EntryError::Tap { tap: 1 });
    let said = |error: EntryError| error.message(&good, &narrow, 4_096, "NaN");
    assert_eq!(
        said(EntryError::Tap { tap: 1 }),
        format!(
            "integrated dSpark target tap 1 must cover rows {}..{} at width 4096 on GPU0, got {}x7168 on device 0",
            good.target_row_start,
            good.target_row_start + good.committed_rows,
            narrow[1].rows
        )
    );
    assert_eq!(
        said(EntryError::NotPrepared),
        "integrated dSpark entry and prompt-prime graphs are not prepared"
    );
    assert_eq!(
        said(EntryError::NoRows),
        "integrated dSpark entry projection requires at least one committed row"
    );
    assert_eq!(
        said(EntryError::Slot {
            slot: 16,
            max_batch: 16
        }),
        "integrated dSpark request slot 16 exceeds max batch 16"
    );
    assert_eq!(
        said(EntryError::RopeTheta),
        "integrated dSpark RoPE theta must be finite and positive, got NaN"
    );
    assert_eq!(
        said(EntryError::RowRangeOverflow),
        "integrated dSpark target row range overflow"
    );
    assert_eq!(
        said(EntryError::SourceOffsetOverflow),
        "integrated dSpark source byte offset overflow"
    );
    assert_eq!(
        said(EntryError::SourceOffset { tap: 2 }),
        "integrated dSpark target tap source offset exceeds buffer"
    );
    assert_eq!(
        said(EntryError::PositionOverflow),
        "integrated dSpark absolute prompt position overflow"
    );
    let mut short = taps;
    short[2].buffer.bytes = 2_000 * 8_192;
    let run = storage
        .project_and_prime_target_taps_in_chunks(&graphs, &short, good)
        .unwrap();
    assert_eq!(run.chunks.len(), 1);
    assert_eq!(run.refusal, Some(EntryError::SourceOffset { tap: 2 }));
    request = good;
    request.absolute_context_start = usize::MAX - 100;
    let run = storage
        .project_and_prime_target_taps_in_chunks(&graphs, &taps, request)
        .unwrap();
    assert_eq!(run.chunks.len(), 1);
    assert_eq!(run.refusal, Some(EntryError::PositionOverflow));
}

#[test]
fn lane_sums_need_matching_buffers() {
    let error = dspark_sum_repeated_hc_input_lanes(768, 191, 2).unwrap_err();
    assert_eq!(error, LaneSumError::Buffers { hidden: 2 });
    assert_eq!(
        error.message(),
        "dSpark HC lane-sum buffers do not match 24 x 4 x 2 F32"
    );
    assert_eq!(
        dspark_sum_repeated_hc_input_lanes(0, 0, 0).unwrap_err(),
        LaneSumError::Buffers { hidden: 0 }
    );
    assert_eq!(
        dspark_sum_repeated_hc_input_lanes(0, 0, usize::MAX / 2).unwrap_err(),
        LaneSumError::SourceWidthOverflow
    );
    assert_eq!(
        dspark_sum_repeated_hc_input_lanes(0, 0, usize::MAX / 8).unwrap_err(),
        LaneSumError::SourceBytesOverflow
    );
    assert_eq!(dspark_block0_lane_sum_bytes(4_096), Ok((1_572_864, 393_216)));
    let check = |dtype: DType, shape: &[usize], bytes: u64| {
        preload_dspark_block0_hc_attn_lane_sum(dtype, shape, bytes, 4_096)
    };
    assert_eq!(check(DType::F32, &[24, 16_384], 1_572_864), Ok(393_216));
    assert_eq!(
        check(DType::Bf16, &[24, 16_384], 1_572_864),
        Err(LaneSumPreloadError::Tensor { columns: 16_384 })
    );
    assert_eq!(
        check(DType::F32, &[24, 4_096], 1_572_864),
        Err(LaneSumPreloadError::Tensor { columns: 16_384 })
    );
    assert_eq!(
        LaneSumPreloadError::Tensor { columns: 16_384 }.message(4_096),
        "integrated dSpark block-zero attention HC function must be F32 [24, 16384]"
    );
    let overflow = |hidden: usize| {
        dspark_block0_lane_sum_bytes(hidden).unwrap_err().message(hidden)
    };
    assert_eq!(
        overflow(usize::MAX / 2),
        "integrated dSpark block-zero HC source width overflow"
    );
    assert_eq!(
        overflow(usize::MAX / 8),
        "integrated dSpark block-zero HC source values overflow"
    );
    assert_eq!(
        overflow(usize::MAX / 200),
        "integrated dSpark block-zero HC source bytes overflow"
    );
    // Every source value is read once.
    let sums = dspark_sum_repeated_hc_input_lanes(768, 192, 2).unwrap();
    let mut read: Vec<usize> = Vec::new();
    for sum in &sums {
        read.extend([sum.first_lane, sum.second_lane, sum.third_lane, sum.fourth_lane]);
    }
    read.sort_unstable();
    assert_eq!(read, (0..192).map(|i| i * 4).collect::<Vec<usize>>());
}

#[test]
fn terminal_batches_are_padded_to_a_captured_width() {
    let buckets = dspark_terminal_request_buckets(16);
    let batch = prepare_terminal_batch(&[5, 2, 9], &[11, 12, 13], 16, 129_280, &buckets).unwrap();
    assert_eq!(batch.graph_index, 2);
    assert_eq!(batch.request_bucket, 4);
    assert_eq!(batch.active_slots, vec![5, 2, 9, 5]);
    assert_eq!(batch.anchors, vec![11, 12, 13, 11]);
    let refused = |slots: &[usize], anchors: &[usize], widths: &[usize]| {
        prepare_terminal_batch(slots, anchors, 16, 129_280, widths).unwrap_err()
    };
    assert_eq!(
        refused(&[], &[], &buckets),
        TerminalBatchError::Entries { max_batch: 16 }
    );
    assert_eq!(
        refused(&[1], &[1, 2], &buckets),
        TerminalBatchError::Entries { max_batch: 16 }
    );
    assert_eq!(
        refused(&[1, 16], &[1, 2], &buckets),
        TerminalBatchError::Geometry {
            request: 1,
            slot: 16,
            anchor: 2,
            max_batch: 16,
            vocab: 129_280
        }
    );
    assert_eq!(
        refused(&[1, 2, 1], &[1, 2, 3], &buckets),
        TerminalBatchError::Duplicate { slot: 1 }
    );
    assert_eq!(refused(&[1, 2], &[1, 2], &[1]), TerminalBatchError::NoBucket);
    assert_eq!(
        refused(&[1, 16], &[1, 2], &buckets).message(),
        "integrated dSpark terminal request 1 has slot 16 or anchor 2 outside geometry 16/129280"
    );
    let wide = usize::MAX;
    assert_eq!(
        prepare_terminal_batch(&[0], &[1 << 33], 1, wide, &[1]).unwrap_err(),
        TerminalBatchError::AnchorExceedsU32
    );
    assert_eq!(
        prepare_terminal_batch(&[1 << 33], &[1], wide, wide, &[1]).unwrap_err(),
        TerminalBatchError::SlotExceedsU32
    );
}

#[test]
fn terminal_output_is_read_request_by_request() {
    assert_eq!(terminal_readback_words(4), Some((24, 20)));
    assert_eq!(terminal_readback_words(usize::MAX / 5), None);
    let tokens: Vec<u32> = (0..24).collect();
    let confidence: Vec<u32> = (100..120).collect();
    let output = read_terminal_batch(3, 4, &tokens, &confidence);
    assert_eq!(output.active_requests, 3);
    assert_eq!(
        output.proposal_token_ids,
        vec![4, 8, 12, 16, 20, 5, 9, 13, 17, 21, 6, 10, 14, 18, 22]
    );
    assert_eq!(
        output.conditional_confidence_bits,
        vec![100, 104, 108, 112, 116, 101, 105, 109, 113, 117, 102, 106, 110, 114, 118]
    );
}

#[test]
fn resident_weights_have_names_and_lengths() {
    let storage = flash_storage();
    let attention = storage.block_attention_weights(1).unwrap();
    assert_eq!(attention.len(), 17);
    assert_eq!(attention[0].name, "mtp.1.attn.wq_a.weight");
    assert_eq!(attention[0].bytes, 1_024 * 4_096);
    assert_eq!(attention[1].bytes, 8 * 32);
    assert_eq!(attention[2].bytes, 64 * 512 * 1_024);
    assert_eq!(attention[8].bytes, 8 * 1_024 * 8 * 512);
    assert_eq!(attention[12].name, "mtp.1.attn.attn_sink");
    assert_eq!(attention[12].bytes, 256);
    assert_eq!(attention[13].bytes, 24 * 4 * 4_096 * 4);
    assert_eq!(attention[16].name, "mtp.1.ffn_norm.weight");
    let post = storage.block_post_dispatch_weights(1).unwrap();
    assert_eq!(post[0].name, "mtp.2.hc_attn_fn");
    assert_eq!(post[3].bytes, 8_192);
    let error = storage.block_post_dispatch_weights(2).unwrap_err();
    assert_eq!(
        error.message(),
        "integrated dSpark post-dispatch block index 2 has no next attention block"
    );
    assert_eq!(
        storage.block_attention_weights(3).unwrap_err(),
        BlockWeightError::AttentionBlock { block: 3 }
    );
    assert_eq!(storage.terminal_collapse_weights()[0].bytes, 64 * 4_096);
    let head = storage.terminal_head_weights();
    assert_eq!(head[0].bytes, 129_280 * 4_096 * 2);
    assert_eq!(head[3].bytes, (4_096 + 256) * 2);
    let entry = storage.entry_weights();
    assert_eq!(entry[0].bytes, 4_096 * 3 * 4_096);
    assert_eq!(entry[1].bytes, 32 * 96);
    assert_eq!(storage.prompt_weights(2)[2].name, "mtp.2.attn.kv_norm.weight");
    assert_eq!(storage.proposal_entry_weights()[0].bytes, 24 * 4_096 * 4);
    assert_eq!(storage.embedding_weight(10).unwrap().bytes, 81_920);
    assert!(storage.embedding_weight(usize::MAX).is_none());
    let pro = dspark_block_attention_geometry("pro").unwrap();
    assert_eq!((pro.query_rank, pro.heads, pro.output_groups), (1_536, 128, 16));
    let flash = dspark_block_attention_geometry("flash").unwrap();
    assert_eq!((flash.query_rank, flash.heads, flash.output_groups), (1_024, 64, 8));
    assert!(dspark_block_attention_geometry("ultra").is_none());
}

fn weight(k: usize) -> Ds41rtDeviceBuffer {
    buffer(0x20_0000_0000 + k * 0x1_0000, 64)
}

fn parameters() -> GraphParameters {
    GraphParameters {
        producer_eps_bits: 1.0e-6_f32.to_bits(),
        rms_eps_bits: 1.0e-5_f32.to_bits(),
        hc_eps_bits: 1.0e-4_f32.to_bits(),
        sinkhorn_iters: 20,
    }
}

fn attention_weights() -> DeepseekV4DsparkBlockAttentionWeights {
    let list: Vec<Ds41rtDeviceBuffer> = (0..17).map(weight).collect();
    DeepseekV4DsparkBlockAttentionWeights::from_buffers(&list).unwrap()
}

fn record(graphs: &mut DeepseekV4DsparkGraphs, steps: &[GraphCapture]) {
    for step in steps {
        graphs.record_capture(step.key, 0, 3).unwrap();
    }
}

fn entry_weights() -> EntryWeights {
    EntryWeights {
        main_proj_weight: weight(0),
        main_proj_scale: weight(1),
        main_norm_weight: weight(2),
    }
}

fn prompt_weights() -> PromptWeights {
    PromptWeights {
        wkv_weight: weight(0),
        wkv_scale: weight(1),
        kv_norm_weight: weight(2),
    }
}

fn post_weights() -> DeepseekV4DsparkBlockPostDispatchWeights {
    DeepseekV4DsparkBlockPostDispatchWeights {
        next_hc_fn: weight(0),
        next_hc_scale: weight(1),
        next_hc_base: weight(2),
        next_norm_weight: weight(3),
    }
}

fn collapse_weights() -> DeepseekV4DsparkTerminalCollapseWeights {
    DeepseekV4DsparkTerminalCollapseWeights {
        hc_fn: weight(0),
        hc_scale: weight(1),
        hc_base: weight(2),
        norm_weight: weight(3),
    }
}

fn head_weights() -> DeepseekV4DsparkTerminalHeadWeights {
    DeepseekV4DsparkTerminalHeadWeights {
        shared_head: weight(0),
        markov_w1: weight(1),
        markov_w2: weight(2),
        confidence: weight(3),
    }
}

fn proposal_entry_weights() -> ProposalEntryWeights {
    ProposalEntryWeights {
        hc_fn: weight(0),
        hc_scale: weight(1),
        hc_base: weight(2),
        norm_weight: weight(3),
    }
}

#[test]
fn captures_in_order_prepare_every_set() {
    let storage = flash_storage();
    let parameters = parameters();
    let mut graphs = DeepseekV4DsparkGraphs::new();
    assert_eq!(graphs.entry_graphs_needed(parameters.rms_eps_bits), Ok(true));
    let entry = storage
        .prepare_entry_projection_graphs(&entry_weights(), parameters.rms_eps_bits)
        .unwrap();
    assert!(entry.refusal.is_none());
    assert_eq!(entry.steps.len(), 9);
    assert_eq!(entry.steps[3].key, GraphKey::Entry { rows: 64 });
    assert_eq!(entry.steps[3].buffers[0].name, "target_tap_concat");
    assert_eq!(entry.steps[3].keywords[1].name, "rows");
    assert!(matches!(
        entry.steps[3].keywords[1].value,
        PythonKernelArg::Usize { value: 64 }
    ));
    let norm = entry.steps[3].norm.unwrap();
    assert_eq!((norm.rows, norm.hidden), (64, 4_096));
    assert_eq!(norm.input, norm.output);
    assert_eq!(norm.weight, weight(2));
    assert!(entry.steps[3].metadata.is_none());
    record(&mut graphs, &entry.steps);
    assert!(graphs.entry_projection_graphs_prepared());
    assert_eq!(graphs.entry_graphs_needed(parameters.rms_eps_bits), Ok(false));

    for block in 0..3 {
        let prompt = storage
            .prepare_prompt_prime_graphs(
                block,
                &prompt_weights(),
                parameters.producer_eps_bits,
                10_000.0_f32.to_bits(),
            )
            .unwrap();
        assert_eq!(
            prompt.steps[8].key,
            GraphKey::PromptPrime {
                block_index: block,
                rows: 2_048
            }
        );
        let metadata = prompt.steps[2].metadata.unwrap();
        assert_eq!((metadata.rows, metadata.request_slot), (32, 0));
        assert_eq!(
            metadata.positions,
            storage.entry_buffers().unwrap().prompt_positions
        );
        assert_eq!(prompt.steps[2].keywords[5].name, "cache_format");
        assert!(matches!(
            prompt.steps[2].keywords[5].value,
            PythonKernelArg::Str { text: "fp8" }
        ));
        record(&mut graphs, &prompt.steps);
    }
    assert!(graphs.prompt_prime_graphs_prepared());

    let proposal = storage
        .prepare_proposal_entry_graphs(&proposal_entry_weights(), &parameters)
        .unwrap();
    assert_eq!(proposal.len(), 16);
    assert_eq!(proposal[5].buffers[1].bytes, 40_960);
    record(&mut graphs, &proposal);
    assert!(graphs.proposal_entry_graphs_prepared(&storage));

    for block in 0..3 {
        let attention = storage
            .prepare_block_attention_graphs(block, &attention_weights(), &parameters)
            .unwrap();
        assert_eq!(attention[1].buffers.len(), 31);
        assert_eq!(
            attention[1].buffers[5].ptr,
            storage.persistent_kv_block(block).unwrap().ptr
        );
        record(&mut graphs, &attention);
    }
    assert!(graphs.block_attention_graphs_prepared(&storage));

    for block in 0..2 {
        let post = storage
            .prepare_block_post_dispatch_graphs(block, &post_weights(), &parameters)
            .unwrap();
        record(&mut graphs, &post);
    }
    assert!(graphs.block_post_dispatch_graphs_prepared(&storage));

    let collapse = storage
        .prepare_terminal_collapse_graphs(&collapse_weights(), &parameters)
        .unwrap();
    record(&mut graphs, &collapse);
    assert!(graphs.terminal_collapse_graphs_prepared(&storage));

    let head = graphs
        .prepare_terminal_head_graphs(&storage, &head_weights())
        .unwrap();
    assert_eq!(head.len(), 5);
    assert_eq!(head[2].active_slots, vec![0, 1, 2, 3]);
    assert_eq!(head[2].anchors, vec![0; 4]);
    assert_eq!(head[2].launch.request_bucket, 4);
    for capture in &head {
        graphs
            .record_capture(
                GraphKey::TerminalHead {
                    request_bucket: capture.request_bucket,
                },
                0,
                0,
            )
            .unwrap();
    }
    assert!(graphs.terminal_head_graphs_prepared(&storage));
    assert!(graphs
        .prepare_terminal_head_graphs(&storage, &head_weights())
        .unwrap()
        .is_empty());

    let (gather, launch) = graphs.run_proposal_entry(&storage, 3).unwrap();
    assert_eq!(gather.rows, 5);
    assert_eq!(gather.source_pitch, 4 * 8_192);
    assert_eq!(launch.graph, 3);
    assert_eq!(graphs.run_block_attention(&storage, 2, 3).unwrap().graph, 35);
    assert_eq!(graphs.run_block_post_dispatch(&storage, 1, 3).unwrap().graph, 19);
    assert_eq!(graphs.run_terminal_collapse(&storage, 3).unwrap().graph, 3);
    assert_eq!(
        graphs.run_block_post_dispatch(&storage, 2, 3).unwrap_err(),
        RunError::NotPrepared
    );
    assert_eq!(
        graphs.run_block_attention(&storage, 3, 3).unwrap_err(),
        RunError::MissingBlock { block: 3 }
    );
    let (copy, run) = graphs
        .run_block_post_dispatch_from_joint(&storage, 0, 1, 3)
        .unwrap();
    assert_eq!(copy.bytes, 40_960);
    assert_eq!(run.unwrap().graph, 3);
    let (_, run) = graphs
        .run_terminal_collapse_from_joint(&storage, 0, 3)
        .unwrap();
    assert!(run.is_ok());
    assert_eq!(
        graphs
            .run_block_sparse_pre_dispatch(&storage, 0, 3, 9)
            .unwrap_err(),
        RunError::NotPrepared
    );
    for block in graphs
        .prepare_block_sparse_pre_dispatch(&storage, &facts(), &constants())
        .unwrap()
    {
        graphs.record_sparse_block(block.weights);
    }
    assert!(graphs.block_sparse_pre_dispatch_prepared());
    let (launch, views) = graphs.run_block_sparse_pre_dispatch(&storage, 1, 3, 9).unwrap();
    assert_eq!(views, storage.block_pre_dispatch_buffers(3).unwrap());
    assert_eq!(launch.router.weight, "mtp.1.ffn.gate.weight");
    assert_eq!(launch.router.kernel, RouterKernel::Flash);
    assert_eq!(launch.router.hidden, views.dispatch_hidden);
    assert_eq!(launch.router.rows, 5);
    assert!(launch.router.token_ids.is_none());
    assert_eq!(launch.router.output.indices, views.route_indices);
    assert_eq!(launch.router.output.scores, views.route_scores);
    assert_eq!(launch.router.output.weights, views.route_weights);
    assert_eq!(launch.shared.hidden, views.dispatch_hidden);
    assert_eq!(launch.shared.output.gate, views.shared_gate);
    assert_eq!(launch.shared.output.up, views.shared_up);
    assert_eq!(launch.shared.output.activated, views.shared_activated);
    assert_eq!(launch.shared.output.output, views.shared_output);
    assert_eq!((launch.router.stream, launch.shared.stream), (9, 9));
    assert_eq!(
        RunError::MissingBlock { block: 3 }.message(RunStage::SparsePreDispatch, 3, 3),
        "integrated dSpark sparse block 3 is missing"
    );
    assert_eq!(
        RunError::PreDispatch {
            error: PreDispatchError::CustomRouter
        }
        .message(RunStage::SparsePreDispatch, 1, 3),
        "running integrated dSpark block 1 global router and shared expert: custom DeepSeek V4 router is unsupported"
    );
    assert_eq!(
        graphs
            .run_block_sparse_pre_dispatch(&storage, 3, 3, 9)
            .unwrap_err(),
        RunError::MissingBlock { block: 3 }
    );
    let batch = graphs
        .run_terminal_head_batch(&storage, &[1, 2, 3], &[4, 5, 6])
        .unwrap();
    assert_eq!(batch.request_bucket, 4);
    assert!(matches!(
        graphs
            .run_terminal_head_batch(&storage, &[1, 1], &[4, 5])
            .unwrap_err(),
        TerminalRunError::Batch {
            error: TerminalBatchError::Duplicate { slot: 1 }
        }
    ));
}

#[test]
fn stages_hand_their_buffers_over() {
    let storage = flash_storage();
    let parameters = parameters();
    let entry = storage
        .prepare_proposal_entry_graphs(&proposal_entry_weights(), &parameters)
        .unwrap();
    let attention = storage
        .prepare_block_attention_graphs(0, &attention_weights(), &parameters)
        .unwrap();
    let post = storage
        .prepare_block_post_dispatch_graphs(0, &post_weights(), &parameters)
        .unwrap();
    let find = |step: &GraphCapture, name: &str| {
        step.buffers
            .iter()
            .find(|arg| arg.name == name)
            .map(|arg| arg.ptr)
            .unwrap()
    };
    assert_eq!(
        find(&entry[4], "residual_output"),
        find(&attention[4], "residual")
    );
    assert_eq!(
        find(&attention[4], "residual_out"),
        find(&post[4], "residual")
    );
    assert_eq!(
        find(&post[4], "residual_out"),
        find(&attention[4], "residual")
    );
    assert_eq!(find(&post[4], "post_out"), find(&attention[4], "prev_post"));
}

#[test]
fn graph_sets_refuse_bad_parameters_and_partial_sets() {
    let storage = flash_storage();
    let good = parameters();
    let mut graphs = DeepseekV4DsparkGraphs::new();
    assert_eq!(
        graphs.entry_graphs_needed(f32::INFINITY.to_bits()),
        Err(GraphError::Epsilon)
    );
    assert_eq!(
        graphs.prompt_graphs_needed(good.producer_eps_bits, 0.0_f32.to_bits()),
        Err(GraphError::RopeTheta)
    );
    let mut bad = good;
    bad.sinkhorn_iters = 0;
    assert_eq!(
        graphs.proposal_entry_graphs_needed(&storage, &bad),
        Err(GraphError::Sinkhorn)
    );
    bad = good;
    bad.producer_eps_bits = 0;
    assert_eq!(
        graphs.block_attention_graphs_needed(&storage, &bad),
        Err(GraphError::Epsilon)
    );
    assert_eq!(
        graphs.block_post_dispatch_graphs_needed(&storage, &bad),
        Ok(true)
    );
    assert_eq!(
        graphs.terminal_collapse_graphs_needed(&storage, &good),
        Ok(true)
    );
    let key = GraphKey::Entry { rows: 1 };
    assert_eq!(
        graphs.record_capture(key, 1, 0),
        Err(GraphError::TransferNodes { key })
    );
    assert!(graphs.entry.is_empty());
    graphs.record_capture(key, 0, 4).unwrap();
    assert_eq!(
        graphs.entry_graphs_needed(good.rms_eps_bits),
        Err(GraphError::PartiallyInitialized)
    );
    let head = GraphKey::TerminalHead { request_bucket: 1 };
    assert_eq!(
        graphs.record_capture(head, 0, 1),
        Err(GraphError::TransferNodes { key: head })
    );
    graphs.record_capture(head, 0, 0).unwrap();
    assert!(matches!(
        graphs.prepare_terminal_head_graphs(&storage, &head_weights()),
        Err(TerminalHeadError::PartiallyInitialized)
    ));
    assert!(matches!(
        graphs.run_terminal_head_batch(&storage, &[1], &[1]),
        Err(TerminalRunError::NotPrepared)
    ));
    assert_eq!(
        graphs.run_proposal_entry(&storage, 0).unwrap_err(),
        RunError::NotPrepared
    );
    let mut elsewhere = entry_weights();
    elsewhere.main_norm_weight.device_id = 1;
    assert!(matches!(
        storage.prepare_entry_projection_graphs(&elsewhere, good.rms_eps_bits),
        Err(GraphError::WeightDevice)
    ));
    assert!(!all_on_first_device(&[weight(0), elsewhere.main_norm_weight]));
    let mut far = head_weights();
    far.confidence.device_id = 2;
    assert_eq!(
        storage.launch_terminal_head_native(1, &far).confidence_weight,
        far.confidence
    );
    assert!(matches!(
        DeepseekV4DsparkGraphs::new().prepare_terminal_head_graphs(&storage, &far),
        Err(TerminalHeadError::WeightDevice)
    ));
}

#[test]
fn small_arenas_capture_the_row_counts_that_fit() {
    let mut plan = flash_plan();
    plan.max_main_rows = 100;
    // Sizes that follow the row limit.
    plan.entry.projected_target_main.bytes = 100 * 8_192;
    plan.entry.target_tap_concat.bytes = 300 * 8_192;
    plan.entry.projection_scratch.offset = 300 * 8_192;
    plan.entry.prompt_positions.bytes = 400;
    plan.entry.prompt_main_slots.bytes = 400;
    plan.entry.prompt_cos_sin.bytes = 25_600;
    let storage = storage_of(plan);
    let captures = storage
        .prepare_entry_projection_graphs(&entry_weights(), parameters().rms_eps_bits)
        .unwrap();
    assert_eq!(captures.steps.len(), 4);
    assert_eq!(
        captures.refusal,
        Some(GraphError::Bucket {
            rows: 128,
            max_rows: 100
        })
    );
}

#[test]
fn proposal_inputs_need_tokens_and_a_window() {
    let storage = flash_storage();
    let good = ProposalInput {
        anchor_token_id: 5,
        noise_token_id: 6,
        request_slot: 1,
        cache_window_start: 100,
        main_context_end: 228,
        vocab_size: 129_280,
    };
    assert_eq!(storage.admit_proposal_inputs(&good), Ok(129_280 * 8_192));
    assert_eq!(
        storage.prepare_proposal_inputs(&good, weight(0)).unwrap(),
        storage.proposal_request_buffers(1).unwrap()
    );
    let mut input = good;
    input.request_slot = 16;
    assert!(matches!(
        storage.admit_proposal_inputs(&input),
        Err(ProposalInputError::Slot { slot: 16, .. })
    ));
    input = good;
    input.noise_token_id = 129_280;
    assert!(matches!(
        storage.admit_proposal_inputs(&input),
        Err(ProposalInputError::TokenIds { noise: 129_280, .. })
    ));
    input = good;
    input.main_context_end = 229;
    assert!(matches!(
        storage.admit_proposal_inputs(&input),
        Err(ProposalInputError::Window { start: 100, end: 229 })
    ));
    input.main_context_end = 100;
    assert!(matches!(
        storage.admit_proposal_inputs(&input),
        Err(ProposalInputError::Window { .. })
    ));
    input = good;
    input.vocab_size = usize::MAX;
    assert_eq!(
        storage.admit_proposal_inputs(&input),
        Err(ProposalInputError::EmbeddingBytesOverflow)
    );
    let mut elsewhere = weight(0);
    elsewhere.device_id = 3;
    assert_eq!(
        storage.prepare_proposal_inputs(&good, elsewhere),
        Err(ProposalInputError::Device)
    );
}

fn facts() -> ModelFacts {
    ModelFacts {
        model_type: "deepseek_v4".to_owned(),
        variant: ModelVariant::Flash,
        hidden_size: 4_096,
        num_hidden_layers: 43,
        first_k_dense_replace: 0,
        num_hash_layers: 3,
        dspark_blocks: 3,
        routed_experts: 256,
        shared_experts: 1,
        top_k: 6,
        moe_intermediate_size: 2_048,
        vocab_size: 129_280,
        head_dim: 512,
        scoring_function: "sqrtsoftplus".to_owned(),
        topk_method: "noaux_tc".to_owned(),
        routed_scaling_factor_bits: 1.5_f32.to_bits(),
        rms_norm_eps_bits: 1.0e-6_f32.to_bits(),
        quantization_recipe: "deepseek_v4_native_fp4_fp8_mixed_v1".to_owned(),
    }
}

fn constants() -> SparseConstants {
    SparseConstants {
        flash_top_k: 6,
        pro_top_k: 6,
        shared_experts: 1,
        exl3_recipe: "calibrated".to_owned(),
    }
}

#[test]
fn drafter_blocks_get_learned_sparse_weights() {
    let storage = flash_storage();
    let mut graphs = DeepseekV4DsparkGraphs::new();
    let blocks = graphs
        .prepare_block_sparse_pre_dispatch(&storage, &facts(), &constants())
        .unwrap();
    assert_eq!(blocks.len(), 3);
    assert_eq!(blocks[2].weights.router_weight_name, "mtp.2.ffn.gate.weight");
    assert!(blocks.iter().all(|block| !block.weights.hash_routing));
    assert_eq!(blocks[0].requirements.len(), 8);
    let mut other = facts();
    other.variant = ModelVariant::Pro;
    assert!(matches!(
        graphs.prepare_block_sparse_pre_dispatch(&storage, &other, &constants()),
        Err(SparsePreparationError::Profile)
    ));
    let mut shallow = facts();
    shallow.dspark_blocks = 2;
    assert!(matches!(
        graphs.prepare_block_sparse_pre_dispatch(&storage, &shallow, &constants()),
        Err(SparsePreparationError::Layer { block: 2, .. })
    ));
    graphs.record_sparse_block(blocks[0].weights.clone());
    assert!(matches!(
        graphs.prepare_block_sparse_pre_dispatch(&storage, &facts(), &constants()),
        Err(SparsePreparationError::PartiallyInitialized)
    ));
    graphs.record_sparse_block(blocks[1].weights.clone());
    graphs.record_sparse_block(blocks[2].weights.clone());
    assert!(graphs
        .prepare_block_sparse_pre_dispatch(&storage, &facts(), &constants())
        .unwrap()
        .is_empty());
}

#[test]
fn routes_name_distinct_experts_with_usable_weights() {
    let storage = flash_storage();
    let views = storage.block_pre_dispatch_buffers(0).unwrap();
    assert_eq!(
        storage.admit_block_tp4_dispatch(&views, 256),
        Ok((40_960, 120))
    );
    assert_eq!(
        storage.admit_block_tp4_dispatch(&views, 384),
        Err(RouteError::Geometry {
            routed_experts: 384
        })
    );
    let mut short = views;
    short.route_weights.bytes = 116;
    assert_eq!(
        storage.admit_block_tp4_dispatch(&short, 256),
        Err(RouteError::Buffers)
    );
    let indices: Vec<u32> = (0..30).map(|i| (i % 6) * 40).collect();
    let weights: Vec<u32> = vec![0.25_f32.to_bits(); 30];
    assert_eq!(validate_route_image(&indices, &weights, 256), Ok(()));
    assert_eq!(
        validate_route_image(&indices, &weights, 200),
        Err(RouteError::RouteImage)
    );
    for bits in [f32::NAN.to_bits(), f32::INFINITY.to_bits(), (-0.5_f32).to_bits()] {
        let mut bad = weights.clone();
        bad[17] = bits;
        assert_eq!(
            validate_route_image(&indices, &bad, 256),
            Err(RouteError::RouteImage)
        );
    }
    let mut zero = weights.clone();
    zero[3] = (-0.0_f32).to_bits();
    assert_eq!(validate_route_image(&indices, &zero, 256), Ok(()));
    let mut repeated = indices.clone();
    repeated[6 * 3 + 4] = repeated[6 * 3 + 1];
    assert_eq!(repeated_expert(&repeated, 2), Ok(()));
    assert_eq!(
        repeated_expert(&repeated, 3),
        Err(RouteError::RepeatedExpert { row: 3, expert: 40 })
    );
    let image = |indices: &[u32], sums_ok: [bool; 5]| RouteImage {
        hidden_bf16: vec![7; 40_960],
        indices: indices.to_vec(),
        weight_bits: weights.clone(),
        sums_ok,
    };
    let input = storage
        .read_block_tp4_dispatch_input(&views, 256, image(&indices, [true; 5]))
        .unwrap();
    assert_eq!(input.rows, 5);
    assert_eq!(input.hidden_bf16.len(), 40_960);
    assert_eq!(input.route_indices, indices);
    assert_eq!(input.shared_delta, views.shared_output);
    let refused = |experts: usize, image: RouteImage| {
        storage
            .read_block_tp4_dispatch_input(&views, experts, image)
            .unwrap_err()
    };
    assert_eq!(
        refused(384, image(&indices, [true; 5])),
        RouteError::Geometry {
            routed_experts: 384
        }
    );
    assert_eq!(
        refused(256, image(&indices[..29], [true; 5])),
        RouteError::RouteImage
    );
    assert_eq!(
        refused(256, image(&repeated, [true, true, true, false, false])),
        RouteError::RepeatedExpert { row: 3, expert: 40 }
    );
    assert_eq!(
        refused(256, image(&indices, [true, true, false, false, true])),
        RouteError::WeightSum { row: 2 }
    );
}

#[test]
fn graph_errors_say_which_set_they_are_about() {
    let sets = [
        (GraphSet::Entry, "entry"),
        (GraphSet::PromptPrime, "prompt-prime"),
        (GraphSet::ProposalEntry, "proposal-entry"),
        (GraphSet::BlockAttention, "block-attention"),
        (GraphSet::PostDispatch, "post-dispatch"),
        (GraphSet::TerminalCollapse, "terminal collapse"),
    ];
    for (set, name) in sets {
        assert_eq!(
            GraphError::PartiallyInitialized.message(set, ""),
            format!("integrated dSpark {name} graph set is partially initialized")
        );
    }
    for (error, set, text) in [
        (
            GraphError::Epsilon,
            GraphSet::Entry,
            "integrated dSpark entry RMSNorm epsilon must be finite and positive, got inf",
        ),
        (
            GraphError::Epsilon,
            GraphSet::PromptPrime,
            "integrated dSpark KV producer epsilon must be finite and positive, got inf",
        ),
        (
            GraphError::Epsilon,
            GraphSet::ProposalEntry,
            "integrated dSpark proposal-entry epsilons must be finite and positive",
        ),
        (
            GraphError::Epsilon,
            GraphSet::BlockAttention,
            "integrated dSpark block-attention epsilons must be finite and positive",
        ),
        (
            GraphError::Sinkhorn,
            GraphSet::PostDispatch,
            "integrated dSpark post-dispatch graph parameters must be positive",
        ),
        (
            GraphError::Epsilon,
            GraphSet::TerminalCollapse,
            "integrated dSpark terminal collapse epsilons must be finite and positive",
        ),
        (
            GraphError::RopeTheta,
            GraphSet::PromptPrime,
            "integrated dSpark RoPE theta must be finite and positive, got inf",
        ),
        (
            GraphError::Sinkhorn,
            GraphSet::BlockAttention,
            "integrated dSpark block-attention Sinkhorn iterations must be positive",
        ),
        (
            GraphError::Sinkhorn,
            GraphSet::ProposalEntry,
            "integrated dSpark proposal-entry Sinkhorn iterations must be positive",
        ),
        (
            GraphError::WeightDevice,
            GraphSet::BlockAttention,
            "integrated dSpark block-attention graph requires every weight and persistent view on GPU0",
        ),
        (
            GraphError::WeightDevice,
            GraphSet::TerminalCollapse,
            "integrated dSpark terminal collapse requires every weight and arena view on GPU0",
        ),
        (
            GraphError::Bucket {
                rows: 128,
                max_rows: 100,
            },
            GraphSet::Entry,
            "integrated dSpark entry graph bucket 128 exceeds max rows 100",
        ),
        (
            GraphError::Bucket {
                rows: 128,
                max_rows: 100,
            },
            GraphSet::PromptPrime,
            "integrated dSpark prompt graph bucket 128 exceeds max rows 100",
        ),
        (
            GraphError::TransferNodes {
                key: GraphKey::BlockAttention {
                    block_index: 2,
                    request_slot: 7,
                },
            },
            GraphSet::BlockAttention,
            "integrated dSpark block 2 attention slot 7 unexpectedly captured memcpy nodes",
        ),
        (
            GraphError::TransferNodes {
                key: GraphKey::PromptPrime {
                    block_index: 1,
                    rows: 64,
                },
            },
            GraphSet::PromptPrime,
            "integrated dSpark prompt block 1 bucket 64 unexpectedly captured memcpy nodes",
        ),
    ] {
        assert_eq!(error.message(set, "inf"), text);
    }
    assert_eq!(
        GraphKey::TerminalHead { request_bucket: 4 }.transfer_message(),
        "integrated dSpark terminal bucket 4 captured host-transfer nodes"
    );
}

#[test]
fn run_and_route_errors_have_their_texts() {
    for (stage, text) in [
        (
            RunStage::ProposalEntry,
            "integrated dSpark proposal-entry graphs are not prepared",
        ),
        (
            RunStage::BlockAttention,
            "integrated dSpark block-attention graphs are not prepared",
        ),
        (
            RunStage::PostDispatch,
            "integrated dSpark inter-block post-dispatch graphs are not prepared",
        ),
        (
            RunStage::TerminalCollapse,
            "integrated dSpark terminal collapse graphs are not prepared",
        ),
        (
            RunStage::SparsePreDispatch,
            "integrated dSpark sparse pre-dispatch is not prepared",
        ),
    ] {
        assert_eq!(RunError::NotPrepared.message(stage, 0, 0), text);
    }
    assert_eq!(
        RunError::MissingBlock { block: 3 }.message(RunStage::BlockAttention, 3, 5),
        "integrated dSpark block 3 attention graph slot 5 is missing"
    );
    assert_eq!(
        RunError::Storage {
            error: StorageError::Slot {
                slot: 16,
                max_batch: 16
            }
        }
        .message(RunStage::ProposalEntry, 0, 16),
        "integrated dSpark proposal request slot 16 exceeds max batch 16"
    );
    assert_eq!(
        TerminalRunError::NotPrepared.message(),
        "integrated dSpark terminal head graphs are not prepared"
    );
    assert_eq!(
        TerminalHeadError::PartiallyInitialized.message(),
        "integrated dSpark terminal head graph set is partially initialized"
    );
    assert_eq!(
        TerminalHeadError::WeightDevice.message(),
        "integrated dSpark joint terminal head requires all storage and weights on GPU0"
    );
    for (error, text) in [
        (
            ProposalInputError::Slot {
                slot: 16,
                max_batch: 16,
            },
            "integrated dSpark proposal request slot 16 exceeds max batch 16",
        ),
        (
            ProposalInputError::TokenIds {
                anchor: 5,
                noise: 9,
                vocab: 8,
            },
            "integrated dSpark proposal token ids 5/9 exceed vocabulary 8",
        ),
        (
            ProposalInputError::Window {
                start: 100,
                end: 229,
            },
            "integrated dSpark proposal target window must contain 1..=128 tokens, got 100..229",
        ),
        (
            ProposalInputError::EmbeddingBytesOverflow,
            "integrated dSpark embedding byte count overflow",
        ),
        (
            ProposalInputError::Device,
            "integrated dSpark proposal preparation requires every weight and arena view on GPU0",
        ),
    ] {
        assert_eq!(error.message(), text);
    }
    for (error, text) in [
        (
            RouteError::Geometry {
                routed_experts: 384,
            },
            "integrated dSpark TP4 dispatch requires exact Flash 4096/256 or Pro 7168/384 geometry; got flash/4096/384",
        ),
        (
            RouteError::Buffers,
            "integrated dSpark TP4 dispatch buffers lost the fixed five-row GPU0 ABI",
        ),
        (
            RouteError::RouteImage,
            "integrated dSpark router produced an invalid global top-6 route image",
        ),
        (
            RouteError::RepeatedExpert { row: 3, expert: 40 },
            "integrated dSpark router repeated expert 40 in row 3",
        ),
        (
            RouteError::WeightSum { row: 2 },
            "integrated dSpark flash router row 2 weights sum to 1.25, expected 1.5",
        ),
    ] {
        assert_eq!(error.message(DsparkVariant::Flash, 4_096, "1.25"), text);
    }
    assert_eq!(
        RouteError::WeightSum { row: 2 }.message(DsparkVariant::Pro, 7_168, "1.25"),
        "integrated dSpark pro router row 2 weights sum to 1.25, expected 2.5"
    );
    let mut other = facts();
    other.variant = ModelVariant::Pro;
    assert_eq!(
        SparsePreparationError::Profile.message(&other, &constants(), 4_096, "1.5"),
        "integrated dSpark Pro/4096 sparse profile does not match its 4096-wide device plan"
    );
    assert_eq!(
        SparsePreparationError::PartiallyInitialized.message(&facts(), &constants(), 4_096, "1.5"),
        "integrated dSpark sparse pre-dispatch weights are partially initialized"
    );
    let mut shallow = facts();
    shallow.dspark_blocks = 2;
    assert_eq!(
        DeepseekV4DsparkGraphs::new()
            .prepare_block_sparse_pre_dispatch(&flash_storage(), &shallow, &constants())
            .unwrap_err()
            .message(&shallow, &constants(), 4_096, "1.5"),
        "preloading integrated dSpark block 2 sparse coordinator weights: DeepSeek V4 sparse layer 45 exceeds checkpoint depth 45"
    );
}

#[test]
fn terminal_words_are_checked_in_order_behind_the_width() {
    let wide = 1_usize << 33;
    let prepare = |slots: &[usize], anchors: &[usize], buckets: &[usize]| {
        prepare_terminal_batch(slots, anchors, usize::MAX, usize::MAX, buckets).unwrap_err()
    };
    assert_eq!(prepare(&[wide], &[wide], &[1]), TerminalBatchError::SlotExceedsU32);
    assert_eq!(
        prepare(&[1, wide], &[wide, 5], &[1, 2]),
        TerminalBatchError::AnchorExceedsU32
    );
    assert_eq!(
        prepare(&[1, wide], &[4, 5], &[1, 2]),
        TerminalBatchError::SlotExceedsU32
    );
    assert_eq!(prepare(&[1, wide], &[4, 5], &[1]), TerminalBatchError::NoBucket);
}

#[test]
fn kernels_know_the_page_formats_by_their_labels() {
    assert_eq!(DeepseekV4KvCacheFormat::Nvfp4.kernel_label(FP8_LABEL), "nvfp4");
    assert_eq!(
        DeepseekV4KvCacheFormat::Fp8Ue8m0.kernel_label(FP8_LABEL),
        FP8_LABEL
    );
    let queries = dspark_layout_queries(
        DsparkVariant::Flash,
        16,
        2_048,
        DeepseekV4KvCacheFormat::Nvfp4,
        FP8_LABEL,
    );
    assert_eq!(queries[1].extra, Some(("cache_format", "nvfp4")));
}

#[test]
fn every_capture_names_its_module() {
    let storage = flash_storage();
    let parameters = parameters();
    let entry = storage
        .prepare_entry_projection_graphs(&entry_weights(), parameters.rms_eps_bits)
        .unwrap();
    let post = storage
        .prepare_block_post_dispatch_graphs(1, &post_weights(), &parameters)
        .unwrap();
    assert!(entry
        .steps
        .iter()
        .chain(&post)
        .all(|step| step.module == "deepseek_v4_dspark_capture"));
    let mut graphs = DeepseekV4DsparkGraphs::new();
    for block_index in 0..DSPARK_BLOCKS {
        for rows in [1, 16, 32, 64, 128, 256, 512, 1_024, 2_048] {
            assert!(!graphs.prompt_prime_graphs_prepared());
            graphs
                .record_capture(GraphKey::PromptPrime { block_index, rows }, 0, 0)
                .unwrap();
        }
    }
    assert!(graphs.prompt_prime_graphs_prepared());
}
