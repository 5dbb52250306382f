//! How the state of a sequence lives: it begins empty, takes tokens in order,
//! serves its own requests alone, and is handed on empty.
use vstd::prelude::*;

use crate::execution::shape::RealFullSchedulerExecutionShape;
use crate::execution::state::{
    live_contract, prefix_block_ok, resolutions_of, seed_blocks_ok, state_admitted, state_begins,
    state_rebound, tokens_recorded, tokens_restored, tokens_seeded, KvBlockDescriptor,
    KvCacheConfig, RealFullSchedulerExecutionState, RebindError, TokensError,
};
use crate::model::ModelFacts;

verus! {

/// A cache that serves the live scheduler of a model takes a sequence of any
/// length that it has room for, with a pool like itself.
pub proof fn law_live_cache_takes_sequences(
    kv_config: KvCacheConfig,
    facts: ModelFacts,
    capacity_tokens: usize,
    arena_capacity_tokens: usize,
    pool: KvCacheConfig,
)
    requires
        live_contract(kv_config, facts),
        facts.num_hidden_layers > 0,
    ensures
        state_admitted(kv_config, facts, capacity_tokens, kv_config.max_tokens, kv_config) <==> 0
            < capacity_tokens <= kv_config.max_tokens,
        state_admitted(kv_config, facts, capacity_tokens, arena_capacity_tokens, pool) ==> {
            &&& pool.max_tokens >= capacity_tokens
            &&& kv_config.max_tokens >= arena_capacity_tokens >= capacity_tokens > 0
            &&& pool == (KvCacheConfig { max_tokens: pool.max_tokens, ..kv_config })
        },
{
}

/// A new state serves the model that it was made for, and exactly the requests of
/// its own sequence that it has room for.
pub proof fn law_new_state_serves_its_sequence(
    state: RealFullSchedulerExecutionState,
    kv_config: KvCacheConfig,
    facts: ModelFacts,
    sequence_id: Seq<char>,
    capacity_tokens: usize,
    arena_capacity_tokens: usize,
    pool: KvCacheConfig,
    reservation_id: u64,
    shape: RealFullSchedulerExecutionShape,
)
    requires
        state_admitted(kv_config, facts, capacity_tokens, arena_capacity_tokens, pool),
        state_begins(
            state,
            kv_config,
            facts,
            sequence_id,
            capacity_tokens,
            arena_capacity_tokens,
            reservation_id,
        ),
    ensures
        state.wf(),
        state.model_fits(facts),
        state.shape_fits(shape) <==> shape.sequence_id@ == sequence_id && shape.span()
            <= capacity_tokens,
        state.processed_token_ids@.len() == 0,
        state.store_config.max_tokens == arena_capacity_tokens,
        state.store_config.layers == kv_config.layers,
        state.reservation_id == reservation_id,
{
}

/// A state that is handed on is like a new one of the same arena and model: it
/// serves the new sequence, and holds nothing of the old one.
pub proof fn law_rebound_state_is_like_new(
    before: RealFullSchedulerExecutionState,
    after: RealFullSchedulerExecutionState,
    sequence_id: Seq<char>,
    capacity_tokens: usize,
    owned: bool,
    reservation_id: u64,
    result: Result<(), RebindError>,
    kv_config: KvCacheConfig,
    facts: ModelFacts,
)
    requires
        before.wf(),
        before.model_fits(facts),
        before.store_config == (KvCacheConfig {
            max_tokens: before.store_config.max_tokens,
            ..kv_config
        }),
        state_rebound(before, after, sequence_id, capacity_tokens, owned, reservation_id, result),
    ensures
        result is Ok <==> owned && 0 < capacity_tokens <= before.store_config.max_tokens,
        result is Ok ==> state_begins(
            after,
            kv_config,
            facts,
            sequence_id,
            capacity_tokens,
            before.store_config.max_tokens,
            reservation_id,
        ) && after.model_fits(facts),
        result is Err ==> after == before,
        after.wf(),
{
}

/// Recording tokens in two steps is recording them in one: the steps are taken
/// exactly if the whole fits, the tokens stand in order behind what was there, and
/// nothing else changes.
pub proof fn law_tokens_are_recorded_in_order(
    before: RealFullSchedulerExecutionState,
    between: RealFullSchedulerExecutionState,
    after: RealFullSchedulerExecutionState,
    first: Seq<usize>,
    second: Seq<usize>,
    first_result: Result<(), TokensError>,
    second_result: Result<(), TokensError>,
    prefix: usize,
    middle: usize,
)
    requires
        before.wf(),
        prefix == before.processed_token_ids@.len(),
        middle == between.processed_token_ids@.len(),
        tokens_recorded(before, between, prefix, first, first_result),
        tokens_recorded(between, after, middle, second, second_result),
        first_result is Ok,
    ensures
        middle == prefix + first.len(),
        second_result is Ok <==> prefix + first.len() + second.len() <= before.capacity_tokens,
        second_result is Ok ==> {
            &&& after.processed_token_ids@ == before.processed_token_ids@ + first + second
            &&& tokens_recorded(before, after, prefix, first + second, second_result)
        },
        second_result is Err ==> after == between,
        after.sequence_id == before.sequence_id,
        after.reservation_id == before.reservation_id,
        after.capacity_tokens == before.capacity_tokens,
        after.store_config == before.store_config,
{
    if second_result is Ok {
        assert(before.processed_token_ids@ + first + second =~= before.processed_token_ids@ + (first
            + second));
    }
}

/// Tokens that do not continue what was processed are refused, as are those that
/// do not fit, and nothing changes.
pub proof fn law_tokens_continue_the_processed_ones(
    before: RealFullSchedulerExecutionState,
    after: RealFullSchedulerExecutionState,
    prefix: usize,
    token_ids: Seq<usize>,
    result: Result<(), TokensError>,
)
    requires
        before.wf(),
        tokens_recorded(before, after, prefix, token_ids, result),
    ensures
        result is Ok <==> prefix == before.processed_token_ids@.len() && prefix + token_ids.len()
            <= before.capacity_tokens,
        result is Err ==> after == before,
        result is Ok ==> after.processed_token_ids@.len() == prefix + token_ids.len(),
        result is Ok ==> after.processed_token_ids@.take(prefix as int)
            =~= before.processed_token_ids@,
        result is Ok ==> after.processed_token_ids@.skip(prefix as int) =~= token_ids,
        after.wf(),
{
}

/// A restored sequence goes on where its snapshot ended, and a seeded one where
/// its prefix did, as if the tokens had been recorded from the start.
pub proof fn law_restored_sequence_goes_on(
    fresh: RealFullSchedulerExecutionState,
    recorded: RealFullSchedulerExecutionState,
    restored: RealFullSchedulerExecutionState,
    seeded: RealFullSchedulerExecutionState,
    token_ids: Vec<usize>,
    recording: Result<(), TokensError>,
    restoring: Result<(), TokensError>,
    seeding: Result<(), TokensError>,
    more: int,
)
    requires
        fresh.wf(),
        fresh.processed_token_ids@.len() == 0,
        fresh.store_config.layers <= 0x1_0000_0000,
        tokens_recorded(fresh, recorded, 0, token_ids@, recording),
        tokens_restored(fresh, restored, token_ids, restoring),
        tokens_seeded(fresh, seeded, token_ids@, seeding),
        more >= 0,
    ensures
        recording is Ok <==> restoring is Ok,
        recording is Ok <==> seeding is Ok,
        recording is Ok <==> token_ids@.len() <= fresh.capacity_tokens,
        restored.processed_token_ids@ =~= recorded.processed_token_ids@,
        seeded.processed_token_ids@ =~= recorded.processed_token_ids@,
        recording is Ok ==> restored.record_error(token_ids@.len() as usize, more)
            == recorded.record_error(token_ids@.len() as usize, more),
        restored.sequence_id == fresh.sequence_id,
        seeded.sequence_id == fresh.sequence_id,
        restored.wf(),
        seeded.wf(),
{
}

/// The blocks of a seeded prefix hold exactly its tokens, from the first on, once
/// in every layer of the cache and under the reservation of the sequence.
pub proof fn law_seeded_prefix_is_held_at_every_layer(
    state: RealFullSchedulerExecutionState,
    tokens: usize,
    result: Result<Vec<KvBlockDescriptor>, TokensError>,
    layer: int,
)
    requires
        seed_blocks_ok(state, tokens, result),
        result is Ok,
        tokens > 0,
        0 <= layer < state.store_config.layers,
    ensures
        result->Ok_0@.len() == state.store_config.layers,
        ({
            let block = result->Ok_0@[layer];
            &&& block.layer_id == layer
            &&& block.token_start == 0
            &&& block.token_start + block.token_count == tokens
            &&& tokens <= state.capacity_tokens
            &&& block.reservation_id == state.reservation_id
            &&& block.sequence_id@ == state.sequence_id@
        }),
{
    assert(prefix_block_ok(result->Ok_0@[layer], state, layer, tokens as int));
}

/// Verified drafts are settled once at every target layer, all alike, and at no
/// other layer.
pub proof fn law_drafts_are_settled_at_every_target_layer(
    state: RealFullSchedulerExecutionState,
    token_start: usize,
    draft_tokens: usize,
    accepted_tokens: usize,
    layer: int,
)
    requires
        0 <= layer < state.model_hidden_layers <= u32::MAX,
    ensures
        ({
            let settled = resolutions_of(state, token_start, draft_tokens, accepted_tokens);
            &&& settled.len() == state.model_hidden_layers
            &&& settled[layer].layer_id == layer
            &&& settled[layer].reservation_id == state.reservation_id
            &&& settled[layer].token_start == token_start
            &&& settled[layer].draft_tokens == draft_tokens
            &&& settled[layer].accepted_tokens == accepted_tokens
        }),
{
}

} // verus!
