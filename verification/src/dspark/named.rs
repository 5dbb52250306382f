//! The names under which the planner answers, and what becomes of the ranges
//! that it answers with: every range reaches the kernels under its own name.
use vstd::prelude::*;

use crate::device::Ds41rtDeviceBuffer;
use crate::dspark::handover::{is_share, law_request_views_are_shares};
use crate::dspark::joint::{pre_dispatch_error, pre_dispatch_views_of};
use crate::dspark::plan::{
    answered_plan, answered_range, block_views, law_sizes_follow_geometry, plan_limits,
    proposal_views, terminal_views, ArenaRange, DsparkVariant, StorageLimits,
};
use crate::dspark::queries::{
    layout_query_ok, range_name, range_part, PythonUsizeQuery, LAYOUT_QUERIES,
};
use crate::dspark::run::terminal_head_launch;
use crate::dspark::storage::{
    entry_views_of, proposal_views_of, terminal_views_of, DeepseekV4DsparkDeviceStorage,
};
use crate::dspark::weights::DeepseekV4DsparkTerminalHeadWeights;

verus! {

/// Query `i` asks a function about something named.
pub open spec fn asks(
    queries: Seq<PythonUsizeQuery>,
    i: int,
    function: Seq<char>,
    keyword: Seq<char>,
    name: Seq<char>,
) -> bool {
    &&& 0 <= i < queries.len()
    &&& queries[i].function@ == function
    &&& queries[i].extra is Some
    &&& queries[i].extra->Some_0.0@ == keyword
    &&& queries[i].extra->Some_0.1@ == name
}

/// The range starts where one function says of a name, and is as long as another
/// says of the same name.
#[verifier::opaque]
pub open spec fn range_answered(
    queries: Seq<PythonUsizeQuery>,
    answers: Seq<usize>,
    offset_function: Seq<char>,
    bytes_function: Seq<char>,
    keyword: Seq<char>,
    name: Seq<char>,
    range: ArenaRange,
) -> bool {
    exists|i: int, j: int|
        #[trigger] asks(queries, i, offset_function, keyword, name) && #[trigger] asks(
            queries,
            j,
            bytes_function,
            keyword,
            name,
        ) && range.offset == answers[i] && range.bytes == answers[j]
}

/// A region of the arena with this name.
pub open spec fn region_is(
    queries: Seq<PythonUsizeQuery>,
    answers: Seq<usize>,
    name: Seq<char>,
    range: ArenaRange,
) -> bool {
    range_answered(
        queries,
        answers,
        "deepseek_v4_dspark_arena_region_offset"@,
        "deepseek_v4_dspark_arena_region_nbytes"@,
        "region"@,
        name,
        range,
    )
}

/// A buffer of the entry with this name.
pub open spec fn entry_buffer_is(
    queries: Seq<PythonUsizeQuery>,
    answers: Seq<usize>,
    name: Seq<char>,
    range: ArenaRange,
) -> bool {
    range_answered(
        queries,
        answers,
        "deepseek_v4_dspark_entry_buffer_offset"@,
        "deepseek_v4_dspark_entry_buffer_nbytes"@,
        "buffer"@,
        name,
        range,
    )
}

/// A buffer of the prompt metadata with this name.
pub open spec fn prompt_buffer_is(
    queries: Seq<PythonUsizeQuery>,
    answers: Seq<usize>,
    name: Seq<char>,
    range: ArenaRange,
) -> bool {
    range_answered(
        queries,
        answers,
        "deepseek_v4_dspark_prompt_buffer_offset"@,
        "deepseek_v4_dspark_prompt_buffer_nbytes"@,
        "buffer"@,
        name,
        range,
    )
}

/// A buffer of the proposal rows with this name.
pub open spec fn proposal_buffer_is(
    queries: Seq<PythonUsizeQuery>,
    answers: Seq<usize>,
    name: Seq<char>,
    range: ArenaRange,
) -> bool {
    range_answered(
        queries,
        answers,
        "deepseek_v4_dspark_proposal_buffer_offset"@,
        "deepseek_v4_dspark_proposal_buffer_nbytes"@,
        "buffer"@,
        name,
        range,
    )
}

/// A buffer of a sparse block with this name.
pub open spec fn block_buffer_is(
    queries: Seq<PythonUsizeQuery>,
    answers: Seq<usize>,
    name: Seq<char>,
    range: ArenaRange,
) -> bool {
    range_answered(
        queries,
        answers,
        "deepseek_v4_dspark_block_buffer_offset"@,
        "deepseek_v4_dspark_block_buffer_nbytes"@,
        "buffer"@,
        name,
        range,
    )
}

/// The queries are those of a layout.
pub open spec fn are_layout_queries(
    queries: Seq<PythonUsizeQuery>,
    limits: StorageLimits,
) -> bool {
    &&& queries.len() == LAYOUT_QUERIES
    &&& forall|i: int|
        0 <= i < LAYOUT_QUERIES ==> layout_query_ok(
            #[trigger] queries[i],
            limits.variant,
            limits.max_batch,
            limits.max_main_rows,
            limits.cache_label@,
            i,
        )
}

proof fn lemma_range_answered(
    queries: Seq<PythonUsizeQuery>,
    answers: Seq<usize>,
    limits: StorageLimits,
    k: int,
)
    requires
        are_layout_queries(queries, limits),
        0 <= k < 39,
    ensures
        range_answered(
            queries,
            answers,
            range_part(k).offset_text(),
            range_part(k).bytes_text(),
            range_part(k).keyword_text(),
            range_name(k),
            answered_range(answers, k),
        ),
{
    reveal(range_answered);
    let part = range_part(k);
    let i = 2 + 2 * k;
    assert(queries[i].function@ == part.offset_text());
    assert(queries[i + 1].function@ == part.bytes_text());
    assert(asks(queries, i, part.offset_text(), part.keyword_text(), range_name(k)));
    assert(asks(queries, i + 1, part.bytes_text(), part.keyword_text(), range_name(k)));
}

/// Every query asks the planner about the variant and the limits of the plan,
/// and the two totals of a plan are the answers to the queries of totals.
pub proof fn law_plan_totals_are_answered(
    queries: Seq<PythonUsizeQuery>,
    answers: Seq<usize>,
    limits: StorageLimits,
    i: int,
)
    requires
        are_layout_queries(queries, limits),
        0 <= i < queries.len(),
    ensures
        ({
            let plan = answered_plan(limits, answers);
            &&& queries[i].module@ == "deepseek_v4_dspark_capture"@
            &&& queries[i].variant@ == plan.variant.label_text()
            &&& queries[i].max_batch == plan.max_batch
            &&& queries[i].max_main_rows == plan.max_main_rows
            &&& queries[0].function@ == "deepseek_v4_dspark_arena_nbytes"@
            &&& queries[0].extra is None
            &&& plan.arena_bytes == answers[0]
            &&& asks(
                queries,
                1,
                "deepseek_v4_dspark_persistent_kv_nbytes"@,
                "cache_format"@,
                plan.cache_label@,
            )
            &&& plan.persistent_kv_bytes == answers[1]
        }),
{
    assert(layout_query_ok(
        queries[0],
        limits.variant,
        limits.max_batch,
        limits.max_main_rows,
        limits.cache_label@,
        0,
    ));
    assert(layout_query_ok(
        queries[1],
        limits.variant,
        limits.max_batch,
        limits.max_main_rows,
        limits.cache_label@,
        1,
    ));
    assert(layout_query_ok(
        queries[i],
        limits.variant,
        limits.max_batch,
        limits.max_main_rows,
        limits.cache_label@,
        i,
    ));
}

/// The ranges of the entry and of the prompt metadata are what the planner
/// answers under their names.
pub proof fn law_entry_ranges_are_answered_by_name(
    queries: Seq<PythonUsizeQuery>,
    answers: Seq<usize>,
    limits: StorageLimits,
)
    requires
        are_layout_queries(queries, limits),
    ensures
        ({
            let plan = answered_plan(limits, answers);
            let entry = plan.entry;
            &&& region_is(
                queries,
                answers,
                "projected_target_main"@,
                entry.projected_target_main,
            )
            &&& region_is(
                queries,
                answers,
                "reused_sparse_block_workspace"@,
                entry.block_workspace,
            )
            &&& region_is(
                queries,
                answers,
                "reused_target_main_kv_producer_scratch"@,
                plan.kv_producer_scratch,
            )
            &&& entry_buffer_is(queries, answers, "target_tap_concat"@, entry.target_tap_concat)
            &&& entry_buffer_is(queries, answers, "projection_scratch"@, entry.projection_scratch)
            &&& prompt_buffer_is(queries, answers, "positions"@, entry.prompt_positions)
            &&& prompt_buffer_is(queries, answers, "main_slots"@, entry.prompt_main_slots)
            &&& prompt_buffer_is(queries, answers, "cos_sin_cache"@, entry.prompt_cos_sin)
        }),
{
    lemma_range_answered(queries, answers, limits, 0);
    lemma_range_answered(queries, answers, limits, 1);
    lemma_range_answered(queries, answers, limits, 2);
    lemma_range_answered(queries, answers, limits, 3);
    lemma_range_answered(queries, answers, limits, 4);
    lemma_range_answered(queries, answers, limits, 5);
    lemma_range_answered(queries, answers, limits, 6);
    lemma_range_answered(queries, answers, limits, 7);
}

/// The ranges of the proposal rows are what the planner answers under their
/// names.
pub proof fn law_proposal_ranges_are_answered_by_name(
    queries: Seq<PythonUsizeQuery>,
    answers: Seq<usize>,
    limits: StorageLimits,
)
    requires
        are_layout_queries(queries, limits),
    ensures
        ({
            let plan = answered_plan(limits, answers).proposal;
            &&& proposal_buffer_is(
                queries,
                answers,
                "draft_input_token_ids"@,
                plan.draft_token_ids,
            )
            &&& proposal_buffer_is(queries, answers, "residual_ping"@, plan.residual_ping)
            &&& proposal_buffer_is(queries, answers, "residual_pong"@, plan.residual_pong)
            &&& proposal_buffer_is(queries, answers, "collapsed_hidden"@, plan.collapsed_hidden)
            &&& region_is(
                queries,
                answers,
                "proposal_normalized_hidden"@,
                plan.normalized_hidden,
            )
            &&& proposal_buffer_is(queries, answers, "positions"@, plan.positions)
            &&& proposal_buffer_is(queries, answers, "main_slots"@, plan.main_slots)
            &&& proposal_buffer_is(queries, answers, "cos_sin_cache"@, plan.cos_sin)
            &&& proposal_buffer_is(queries, answers, "post_ping"@, plan.post_ping)
            &&& proposal_buffer_is(queries, answers, "comb_ping"@, plan.comb_ping)
            &&& proposal_buffer_is(queries, answers, "post_pong"@, plan.post_pong)
            &&& proposal_buffer_is(queries, answers, "comb_pong"@, plan.comb_pong)
            &&& proposal_buffer_is(queries, answers, "selected_indices"@, plan.selected_indices)
            &&& proposal_buffer_is(queries, answers, "selected_lengths"@, plan.selected_lengths)
        }),
{
    lemma_range_answered(queries, answers, limits, 8);
    lemma_range_answered(queries, answers, limits, 9);
    lemma_range_answered(queries, answers, limits, 10);
    lemma_range_answered(queries, answers, limits, 11);
    lemma_range_answered(queries, answers, limits, 12);
    lemma_range_answered(queries, answers, limits, 21);
    lemma_range_answered(queries, answers, limits, 22);
    lemma_range_answered(queries, answers, limits, 23);
    lemma_range_answered(queries, answers, limits, 24);
    lemma_range_answered(queries, answers, limits, 25);
    lemma_range_answered(queries, answers, limits, 26);
    lemma_range_answered(queries, answers, limits, 27);
    lemma_range_answered(queries, answers, limits, 28);
    lemma_range_answered(queries, answers, limits, 29);
}

/// The ranges of the terminal head are what the planner answers under their
/// names.
pub proof fn law_terminal_ranges_are_answered_by_name(
    queries: Seq<PythonUsizeQuery>,
    answers: Seq<usize>,
    limits: StorageLimits,
)
    requires
        are_layout_queries(queries, limits),
    ensures
        ({
            let plan = answered_plan(limits, answers).terminal;
            &&& region_is(
                queries,
                answers,
                "terminal_compact_normalized_hidden"@,
                plan.compact_normalized_hidden,
            )
            &&& region_is(queries, answers, "shared_lm_logits"@, plan.shared_logits)
            &&& region_is(queries, answers, "terminal_markov_logits"@, plan.markov_logits)
            &&& region_is(queries, answers, "markov_embeddings"@, plan.markov_embeddings)
            &&& region_is(queries, answers, "confidence"@, plan.confidence)
            &&& region_is(queries, answers, "terminal_active_slot_ids"@, plan.active_slot_ids)
            &&& region_is(queries, answers, "terminal_anchor_token_ids"@, plan.anchor_token_ids)
            &&& region_is(queries, answers, "terminal_output_token_ids"@, plan.output_token_ids)
        }),
{
    lemma_range_answered(queries, answers, limits, 13);
    lemma_range_answered(queries, answers, limits, 14);
    lemma_range_answered(queries, answers, limits, 15);
    lemma_range_answered(queries, answers, limits, 16);
    lemma_range_answered(queries, answers, limits, 17);
    lemma_range_answered(queries, answers, limits, 18);
    lemma_range_answered(queries, answers, limits, 19);
    lemma_range_answered(queries, answers, limits, 20);
}

/// The ranges of a sparse block are what the planner answers under their names.
pub proof fn law_block_ranges_are_answered_by_name(
    queries: Seq<PythonUsizeQuery>,
    answers: Seq<usize>,
    limits: StorageLimits,
)
    requires
        are_layout_queries(queries, limits),
    ensures
        ({
            let plan = answered_plan(limits, answers).block;
            &&& block_buffer_is(queries, answers, "route_indices"@, plan.route_indices)
            &&& block_buffer_is(queries, answers, "route_scores"@, plan.route_scores)
            &&& block_buffer_is(queries, answers, "route_weights"@, plan.route_weights)
            &&& block_buffer_is(queries, answers, "shared_gate"@, plan.shared_gate)
            &&& block_buffer_is(queries, answers, "shared_up"@, plan.shared_up)
            &&& block_buffer_is(queries, answers, "shared_activated"@, plan.shared_activated)
            &&& block_buffer_is(queries, answers, "shared_delta"@, plan.shared_delta)
            &&& block_buffer_is(queries, answers, "reduction_f32"@, plan.reduction_f32)
            &&& block_buffer_is(queries, answers, "ffn_delta"@, plan.ffn_delta)
        }),
{
    lemma_range_answered(queries, answers, limits, 30);
    lemma_range_answered(queries, answers, limits, 31);
    lemma_range_answered(queries, answers, limits, 32);
    lemma_range_answered(queries, answers, limits, 33);
    lemma_range_answered(queries, answers, limits, 34);
    lemma_range_answered(queries, answers, limits, 35);
    lemma_range_answered(queries, answers, limits, 36);
    lemma_range_answered(queries, answers, limits, 37);
    lemma_range_answered(queries, answers, limits, 38);
}

/// The range of a buffer that a view covers.
pub open spec fn range_of(base: Ds41rtDeviceBuffer, view: Ds41rtDeviceBuffer) -> ArenaRange {
    ArenaRange { offset: (view.ptr - base.ptr) as usize, bytes: view.bytes }
}

/// The view lies on the device of a buffer and does not start in front of it.
pub open spec fn view_of(base: Ds41rtDeviceBuffer, view: Ds41rtDeviceBuffer) -> bool {
    &&& base.ptr <= view.ptr
    &&& view.ptr + view.bytes <= base.ptr + base.bytes
    &&& view.device_id == base.device_id
    &&& view.flags == base.flags
}

/// The storage has the plan that the answers describe.
pub open spec fn planned_with(
    storage: DeepseekV4DsparkDeviceStorage,
    queries: Seq<PythonUsizeQuery>,
    answers: Seq<usize>,
    limits: StorageLimits,
) -> bool {
    &&& storage.wf()
    &&& are_layout_queries(queries, limits)
    &&& storage.plan == answered_plan(limits, answers)
}

proof fn lemma_proposal_views(storage: DeepseekV4DsparkDeviceStorage)
    requires
        storage.wf(),
    ensures
        ({
            let arena = storage.arena;
            let views = proposal_views_of(storage);
            let plan = storage.plan.proposal;
            &&& view_of(arena, views.draft_token_ids)
            &&& range_of(arena, views.draft_token_ids) == plan.draft_token_ids
            &&& view_of(arena, views.residual_ping)
            &&& range_of(arena, views.residual_ping) == plan.residual_ping
            &&& view_of(arena, views.residual_pong)
            &&& range_of(arena, views.residual_pong) == plan.residual_pong
            &&& view_of(arena, views.collapsed_hidden)
            &&& range_of(arena, views.collapsed_hidden) == plan.collapsed_hidden
            &&& view_of(arena, views.normalized_hidden)
            &&& range_of(arena, views.normalized_hidden) == plan.normalized_hidden
            &&& view_of(arena, views.positions)
            &&& range_of(arena, views.positions) == plan.positions
            &&& view_of(arena, views.main_slots)
            &&& range_of(arena, views.main_slots) == plan.main_slots
            &&& view_of(arena, views.cos_sin) && range_of(arena, views.cos_sin) == plan.cos_sin
            &&& view_of(arena, views.post_ping)
            &&& range_of(arena, views.post_ping) == plan.post_ping
            &&& view_of(arena, views.comb_ping)
            &&& range_of(arena, views.comb_ping) == plan.comb_ping
            &&& view_of(arena, views.post_pong)
            &&& range_of(arena, views.post_pong) == plan.post_pong
            &&& view_of(arena, views.comb_pong)
            &&& range_of(arena, views.comb_pong) == plan.comb_pong
            &&& view_of(arena, views.selected_indices)
            &&& range_of(arena, views.selected_indices) == plan.selected_indices
            &&& view_of(arena, views.selected_lengths)
            &&& range_of(arena, views.selected_lengths) == plan.selected_lengths
        }),
{
    let plan = storage.plan.proposal;
    let list = proposal_views(plan);
    assert(list[0] == plan.draft_token_ids);
    assert(list[1] == plan.residual_ping);
    assert(list[2] == plan.residual_pong);
    assert(list[3] == plan.collapsed_hidden);
    assert(list[4] == plan.normalized_hidden);
    assert(list[5] == plan.positions);
    assert(list[6] == plan.main_slots);
    assert(list[7] == plan.cos_sin);
    assert(list[8] == plan.post_ping);
    assert(list[9] == plan.comb_ping);
    assert(list[10] == plan.post_pong);
    assert(list[11] == plan.comb_pong);
    assert(list[12] == plan.selected_indices);
    assert(list[13] == plan.selected_lengths);
}

proof fn lemma_terminal_views(storage: DeepseekV4DsparkDeviceStorage)
    requires
        storage.wf(),
    ensures
        ({
            let arena = storage.arena;
            let views = terminal_views_of(storage);
            let plan = storage.plan.terminal;
            &&& view_of(arena, views.compact_normalized_hidden)
            &&& range_of(arena, views.compact_normalized_hidden) == plan.compact_normalized_hidden
            &&& view_of(arena, views.shared_logits)
            &&& range_of(arena, views.shared_logits) == plan.shared_logits
            &&& view_of(arena, views.markov_logits)
            &&& range_of(arena, views.markov_logits) == plan.markov_logits
            &&& view_of(arena, views.markov_embeddings)
            &&& range_of(arena, views.markov_embeddings) == plan.markov_embeddings
            &&& view_of(arena, views.confidence)
            &&& range_of(arena, views.confidence) == plan.confidence
            &&& view_of(arena, views.active_slot_ids)
            &&& range_of(arena, views.active_slot_ids) == plan.active_slot_ids
            &&& view_of(arena, views.anchor_token_ids)
            &&& range_of(arena, views.anchor_token_ids) == plan.anchor_token_ids
            &&& view_of(arena, views.output_token_ids)
            &&& range_of(arena, views.output_token_ids) == plan.output_token_ids
        }),
{
    let plan = storage.plan.terminal;
    let list = terminal_views(plan);
    assert(list[0] == plan.compact_normalized_hidden);
    assert(list[1] == plan.shared_logits);
    assert(list[2] == plan.markov_logits);
    assert(list[3] == plan.markov_embeddings);
    assert(list[4] == plan.confidence);
    assert(list[5] == plan.active_slot_ids);
    assert(list[6] == plan.anchor_token_ids);
    assert(list[7] == plan.output_token_ids);
}

/// The views of the proposal rows of all requests cover what the planner
/// answered under the name of what they hold.
pub proof fn law_proposal_views_are_the_named_buffers(
    storage: DeepseekV4DsparkDeviceStorage,
    queries: Seq<PythonUsizeQuery>,
    answers: Seq<usize>,
    limits: StorageLimits,
)
    requires
        planned_with(storage, queries, answers, limits),
    ensures
        ({
            let arena = storage.arena;
            let views = proposal_views_of(storage);
            &&& view_of(arena, views.draft_token_ids)
            &&& proposal_buffer_is(
                queries,
                answers,
                "draft_input_token_ids"@,
                range_of(arena, views.draft_token_ids),
            )
            &&& view_of(arena, views.residual_ping)
            &&& proposal_buffer_is(
                queries,
                answers,
                "residual_ping"@,
                range_of(arena, views.residual_ping),
            )
            &&& view_of(arena, views.residual_pong)
            &&& proposal_buffer_is(
                queries,
                answers,
                "residual_pong"@,
                range_of(arena, views.residual_pong),
            )
            &&& view_of(arena, views.collapsed_hidden)
            &&& proposal_buffer_is(
                queries,
                answers,
                "collapsed_hidden"@,
                range_of(arena, views.collapsed_hidden),
            )
            &&& view_of(arena, views.positions)
            &&& proposal_buffer_is(
                queries,
                answers,
                "positions"@,
                range_of(arena, views.positions),
            )
            &&& view_of(arena, views.main_slots)
            &&& proposal_buffer_is(
                queries,
                answers,
                "main_slots"@,
                range_of(arena, views.main_slots),
            )
            &&& view_of(arena, views.cos_sin)
            &&& proposal_buffer_is(
                queries,
                answers,
                "cos_sin_cache"@,
                range_of(arena, views.cos_sin),
            )
            &&& view_of(arena, views.post_ping)
            &&& proposal_buffer_is(
                queries,
                answers,
                "post_ping"@,
                range_of(arena, views.post_ping),
            )
            &&& view_of(arena, views.comb_ping)
            &&& proposal_buffer_is(
                queries,
                answers,
                "comb_ping"@,
                range_of(arena, views.comb_ping),
            )
            &&& view_of(arena, views.post_pong)
            &&& proposal_buffer_is(
                queries,
                answers,
                "post_pong"@,
                range_of(arena, views.post_pong),
            )
            &&& view_of(arena, views.comb_pong)
            &&& proposal_buffer_is(
                queries,
                answers,
                "comb_pong"@,
                range_of(arena, views.comb_pong),
            )
            &&& view_of(arena, views.selected_indices)
            &&& proposal_buffer_is(
                queries,
                answers,
                "selected_indices"@,
                range_of(arena, views.selected_indices),
            )
            &&& view_of(arena, views.selected_lengths)
            &&& proposal_buffer_is(
                queries,
                answers,
                "selected_lengths"@,
                range_of(arena, views.selected_lengths),
            )
            &&& view_of(arena, views.normalized_hidden)
            &&& region_is(
                queries,
                answers,
                "proposal_normalized_hidden"@,
                range_of(arena, views.normalized_hidden),
            )
        }),
{
    law_proposal_ranges_are_answered_by_name(queries, answers, limits);
    lemma_proposal_views(storage);
}

/// The terminal head reads its rows, keeps its words and leaves its results in
/// the regions that the planner answered under their names.
pub proof fn law_head_buffers_are_the_named_regions(
    storage: DeepseekV4DsparkDeviceStorage,
    queries: Seq<PythonUsizeQuery>,
    answers: Seq<usize>,
    limits: StorageLimits,
    request_bucket: usize,
    weights: DeepseekV4DsparkTerminalHeadWeights,
)
    requires
        planned_with(storage, queries, answers, limits),
    ensures
        ({
            let arena = storage.arena;
            let head = terminal_head_launch(storage, request_bucket, weights);
            &&& view_of(arena, head.compact_normalized_hidden)
            &&& region_is(
                queries,
                answers,
                "terminal_compact_normalized_hidden"@,
                range_of(arena, head.compact_normalized_hidden),
            )
            &&& view_of(arena, head.shared_logits)
            &&& region_is(
                queries,
                answers,
                "shared_lm_logits"@,
                range_of(arena, head.shared_logits),
            )
            &&& view_of(arena, head.markov_logits)
            &&& region_is(
                queries,
                answers,
                "terminal_markov_logits"@,
                range_of(arena, head.markov_logits),
            )
            &&& view_of(arena, head.markov_embeddings)
            &&& region_is(
                queries,
                answers,
                "markov_embeddings"@,
                range_of(arena, head.markov_embeddings),
            )
            &&& view_of(arena, head.confidence)
            &&& region_is(
                queries,
                answers,
                "confidence"@,
                range_of(arena, head.confidence),
            )
            &&& view_of(arena, head.active_slot_ids)
            &&& region_is(
                queries,
                answers,
                "terminal_active_slot_ids"@,
                range_of(arena, head.active_slot_ids),
            )
            &&& view_of(arena, head.anchor_token_ids)
            &&& region_is(
                queries,
                answers,
                "terminal_anchor_token_ids"@,
                range_of(arena, head.anchor_token_ids),
            )
            &&& view_of(arena, head.output_token_ids)
            &&& region_is(
                queries,
                answers,
                "terminal_output_token_ids"@,
                range_of(arena, head.output_token_ids),
            )
            &&& view_of(arena, head.normalized_hidden)
            &&& region_is(
                queries,
                answers,
                "proposal_normalized_hidden"@,
                range_of(arena, head.normalized_hidden),
            )
            &&& view_of(arena, head.collapsed_hidden)
            &&& proposal_buffer_is(
                queries,
                answers,
                "collapsed_hidden"@,
                range_of(arena, head.collapsed_hidden),
            )
        }),
{
    law_terminal_ranges_are_answered_by_name(queries, answers, limits);
    law_proposal_ranges_are_answered_by_name(queries, answers, limits);
    lemma_proposal_views(storage);
    lemma_terminal_views(storage);
}

/// The numbers that the head is told are those of its buffers: five rows per
/// request of hidden values, of scores of the vocabulary, and of Markov
/// embeddings; one word per request for its slot and its anchor, and one more
/// than its rows for its tokens.
pub proof fn law_head_numbers_fit_its_buffers(
    storage: DeepseekV4DsparkDeviceStorage,
    request_bucket: usize,
    weights: DeepseekV4DsparkTerminalHeadWeights,
)
    requires
        storage.wf(),
    ensures
        ({
            let head = terminal_head_launch(storage, request_bucket, weights);
            let slots = head.max_batch as int;
            &&& head.request_bucket == request_bucket
            &&& head.max_batch == storage.plan.max_batch
            &&& head.normalized_hidden.bytes == slots * (5 * head.hidden * 2)
            &&& head.collapsed_hidden.bytes == slots * (5 * head.hidden * 2)
            &&& head.compact_normalized_hidden.bytes == slots * (5 * head.hidden * 2)
            &&& head.shared_logits.bytes == slots * (5 * head.vocab * 4)
            &&& head.markov_logits.bytes == slots * (head.vocab * 4)
            &&& head.markov_embeddings.bytes == slots * (5 * head.markov_rank * 2)
            &&& head.confidence.bytes == slots * (5 * 4)
            &&& head.active_slot_ids.bytes == slots * 4
            &&& head.anchor_token_ids.bytes == slots * 4
            &&& head.output_token_ids.bytes == slots * ((5 + 1) * 4)
        }),
{
    law_sizes_follow_geometry(plan_limits(storage.plan));
}

/// The entry works in the regions that the planner answered under their names:
/// the taps are gathered in the workspace, and the prompt metadata lies where the
/// taps were gathered.
pub proof fn law_entry_views_are_the_named_buffers(
    storage: DeepseekV4DsparkDeviceStorage,
    queries: Seq<PythonUsizeQuery>,
    answers: Seq<usize>,
    limits: StorageLimits,
)
    requires
        planned_with(storage, queries, answers, limits),
        storage.entry_view_error() is None,
    ensures
        ({
            let arena = storage.arena;
            let views = entry_views_of(storage);
            let workspace = views.block_workspace;
            let concat = views.target_tap_concat;
            &&& view_of(arena, views.projected_target_main)
            &&& region_is(
                queries,
                answers,
                "projected_target_main"@,
                range_of(arena, views.projected_target_main),
            )
            &&& view_of(arena, views.block_workspace)
            &&& region_is(
                queries,
                answers,
                "reused_sparse_block_workspace"@,
                range_of(arena, views.block_workspace),
            )
            &&& view_of(arena, views.kv_producer_scratch)
            &&& region_is(
                queries,
                answers,
                "reused_target_main_kv_producer_scratch"@,
                range_of(arena, views.kv_producer_scratch),
            )
            &&& view_of(workspace, views.target_tap_concat)
            &&& entry_buffer_is(
                queries,
                answers,
                "target_tap_concat"@,
                range_of(workspace, views.target_tap_concat),
            )
            &&& view_of(workspace, views.projection_scratch)
            &&& entry_buffer_is(
                queries,
                answers,
                "projection_scratch"@,
                range_of(workspace, views.projection_scratch),
            )
            &&& view_of(concat, views.prompt_positions)
            &&& prompt_buffer_is(
                queries,
                answers,
                "positions"@,
                range_of(concat, views.prompt_positions),
            )
            &&& view_of(concat, views.prompt_main_slots)
            &&& prompt_buffer_is(
                queries,
                answers,
                "main_slots"@,
                range_of(concat, views.prompt_main_slots),
            )
            &&& view_of(concat, views.prompt_cos_sin)
            &&& prompt_buffer_is(
                queries,
                answers,
                "cos_sin_cache"@,
                range_of(concat, views.prompt_cos_sin),
            )
        }),
{
    law_entry_ranges_are_answered_by_name(queries, answers, limits);
}

/// The view starts where the planner placed a buffer of a sparse block.
pub open spec fn starts_at_block_buffer(
    queries: Seq<PythonUsizeQuery>,
    answers: Seq<usize>,
    name: Seq<char>,
    workspace: Ds41rtDeviceBuffer,
    view: Ds41rtDeviceBuffer,
    bytes: int,
) -> bool {
    &&& view_of(workspace, view)
    &&& block_buffer_is(
        queries,
        answers,
        name,
        ArenaRange { offset: (view.ptr - workspace.ptr) as usize, bytes: bytes as usize },
    )
}

proof fn lemma_block_views(storage: DeepseekV4DsparkDeviceStorage, slot: usize)
    requires
        storage.wf(),
        pre_dispatch_error(storage, slot) is None,
    ensures
        ({
            let workspace = entry_views_of(storage).block_workspace;
            let views = pre_dispatch_views_of(storage, slot as int);
            let plan = storage.plan.block;
            let slots = storage.plan.max_batch as int;
            &&& is_share(
                views.dispatch_hidden,
                proposal_views_of(storage).collapsed_hidden,
                slot as int,
                slots,
            )
            &&& view_of(workspace, views.route_indices)
            &&& views.route_indices.ptr - workspace.ptr == plan.route_indices.offset
            &&& views.route_indices.bytes * slots == plan.route_indices.bytes
            &&& view_of(workspace, views.route_scores)
            &&& views.route_scores.ptr - workspace.ptr == plan.route_scores.offset
            &&& views.route_scores.bytes * slots == plan.route_scores.bytes
            &&& view_of(workspace, views.route_weights)
            &&& views.route_weights.ptr - workspace.ptr == plan.route_weights.offset
            &&& views.route_weights.bytes * slots == plan.route_weights.bytes
            &&& view_of(workspace, views.shared_gate)
            &&& views.shared_gate.ptr - workspace.ptr == plan.shared_gate.offset
            &&& views.shared_gate.bytes == plan.shared_gate.bytes
            &&& view_of(workspace, views.shared_up)
            &&& views.shared_up.ptr - workspace.ptr == plan.shared_up.offset
            &&& views.shared_up.bytes == plan.shared_up.bytes
            &&& view_of(workspace, views.shared_activated)
            &&& views.shared_activated.ptr - workspace.ptr == plan.shared_activated.offset
            &&& views.shared_activated.bytes == plan.shared_activated.bytes
            &&& view_of(workspace, views.shared_output)
            &&& views.shared_output.ptr - workspace.ptr == plan.shared_delta.offset
            &&& views.shared_output.bytes * slots == plan.shared_delta.bytes
            &&& view_of(workspace, views.ffn_delta)
            &&& views.ffn_delta.ptr - workspace.ptr == plan.ffn_delta.offset
            &&& views.ffn_delta.bytes * slots == plan.ffn_delta.bytes
        }),
{
    law_request_views_are_shares(storage, slot as int);
    let plan = storage.plan.block;
    let list = block_views(plan);
    assert(list[0] == plan.route_indices);
    assert(list[1] == plan.route_scores);
    assert(list[2] == plan.route_weights);
    assert(list[3] == plan.shared_gate);
    assert(list[4] == plan.shared_up);
    assert(list[5] == plan.shared_activated);
    assert(list[6] == plan.shared_delta);
    assert(list[7] == plan.reduction_f32);
    assert(list[8] == plan.ffn_delta);
    let slots = storage.plan.max_batch as int;
    let views = pre_dispatch_views_of(storage, slot as int);
    let routes = views.route_indices.bytes as int;
    assert(routes * slots == slots * 120) by (nonlinear_arith)
        requires
            routes == 120,
    ;
    assert(views.route_weights.bytes == routes);
    let score = views.route_scores.bytes as int;
    let delta = views.shared_output.bytes as int;
    match storage.plan.variant {
        DsparkVariant::Flash => {
            assert(score * slots == slots * 5_240 && delta * slots == slots * 40_960)
                by (nonlinear_arith)
                requires
                    score == 5_240,
                    delta == 40_960,
            ;
        },
        DsparkVariant::Pro => {
            assert(score * slots == slots * 7_800 && delta * slots == slots * 71_680)
                by (nonlinear_arith)
                requires
                    score == 7_800,
                    delta == 71_680,
            ;
        },
    }
    assert(views.ffn_delta.bytes == delta);
}

/// The router and the shared expert of a request work at the start of the
/// buffers that the planner answered under the names of what they hold: the
/// routes, scores and results of one request take the share of one request, the
/// inner buffers of the shared expert all of theirs. The rows come from the
/// collapsed rows of the request.
pub proof fn law_pre_dispatch_views_are_the_named_buffers(
    storage: DeepseekV4DsparkDeviceStorage,
    queries: Seq<PythonUsizeQuery>,
    answers: Seq<usize>,
    limits: StorageLimits,
    slot: usize,
)
    requires
        planned_with(storage, queries, answers, limits),
        pre_dispatch_error(storage, slot) is None,
    ensures
        ({
            let workspace = entry_views_of(storage).block_workspace;
            let views = pre_dispatch_views_of(storage, slot as int);
            let slots = storage.plan.max_batch as int;
            &&& is_share(
                views.dispatch_hidden,
                proposal_views_of(storage).collapsed_hidden,
                slot as int,
                slots,
            )
            &&& starts_at_block_buffer(
                queries,
                answers,
                "route_indices"@,
                workspace,
                views.route_indices,
                views.route_indices.bytes * slots,
            )
            &&& starts_at_block_buffer(
                queries,
                answers,
                "route_scores"@,
                workspace,
                views.route_scores,
                views.route_scores.bytes * slots,
            )
            &&& starts_at_block_buffer(
                queries,
                answers,
                "route_weights"@,
                workspace,
                views.route_weights,
                views.route_weights.bytes * slots,
            )
            &&& starts_at_block_buffer(
                queries,
                answers,
                "shared_gate"@,
                workspace,
                views.shared_gate,
                views.shared_gate.bytes as int,
            )
            &&& starts_at_block_buffer(
                queries,
                answers,
                "shared_up"@,
                workspace,
                views.shared_up,
                views.shared_up.bytes as int,
            )
            &&& starts_at_block_buffer(
                queries,
                answers,
                "shared_activated"@,
                workspace,
                views.shared_activated,
                views.shared_activated.bytes as int,
            )
            &&& starts_at_block_buffer(
                queries,
                answers,
                "shared_delta"@,
                workspace,
                views.shared_output,
                views.shared_output.bytes * slots,
            )
            &&& starts_at_block_buffer(
                queries,
                answers,
                "ffn_delta"@,
                workspace,
                views.ffn_delta,
                views.ffn_delta.bytes * slots,
            )
        }),
{
    law_block_ranges_are_answered_by_name(queries, answers, limits);
    lemma_block_views(storage, slot);
}

} // verus!
