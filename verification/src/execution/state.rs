//! The scheduler state of one live sequence: its share of the key-value arena,
//! the model it is bound to and the tokens that were processed.
use vstd::prelude::*;

use crate::execution::shape::RealFullSchedulerExecutionShape;
use crate::model::{ModelFacts, TensorCatalog};
use crate::text::{append_size, decimal, quote_text, quoted, same_text};

verus! {

/// How key-value blocks are laid out.
#[derive(Clone, Copy, Debug, PartialEq, Eq, Structural)]
pub enum KvLayout {
    DeepseekV4HybridBf16,
    ExpandedDebugOnly,
    Other { code: u32 },
}

/// The element type of key-value blocks.
#[derive(Clone, Copy, Debug, PartialEq, Eq, Structural)]
pub enum KvCacheDType {
    Bf16,
    Other { code: u32 },
}

/// The format and the size of a key-value cache.
#[derive(Clone, Copy, Debug, PartialEq, Eq, Structural)]
pub struct KvCacheConfig {
    pub layout: KvLayout,
    pub layers: usize,
    pub key_value_width: usize,
    pub dtype: KvCacheDType,
    pub mla_representation: u32,
    pub dsa_indexer_layers: usize,
    pub dsa_index_head_dim: usize,
    pub fp8_scale_metadata_bytes_per_token: usize,
    pub max_tokens: usize,
}

/// A range of tokens of one layer of one sequence.
#[derive(Clone, Debug)]
pub struct KvBlockDescriptor {
    pub reservation_id: u64,
    pub sequence_id: String,
    pub layer_id: u32,
    pub token_start: u64,
    pub token_count: usize,
}

/// A range of tokens that attention may read.
#[derive(Clone, Copy, Debug, PartialEq, Eq, Structural)]
pub struct KvVisibleBlock {
    pub token_start: u64,
    pub token_count: usize,
}

/// What is settled for the drafts of one layer: the accepted ones are kept.
#[derive(Clone, Copy, Debug, PartialEq, Eq, Structural)]
pub struct MtpResolution {
    pub reservation_id: u64,
    pub layer_id: u32,
    pub token_start: u64,
    pub draft_tokens: usize,
    pub accepted_tokens: usize,
}

/// Where the device blocks of a sequence stand.
#[derive(Clone, Copy, Debug, PartialEq, Eq, Structural)]
pub enum DeviceKvBinding {
    SharedStorage { physical_token_base: usize, capacity_tokens: usize },
    NativeTargetMapping,
}

/// What a new state is made with.
#[derive(Clone, Copy, Debug, PartialEq, Eq, Structural)]
pub struct StateAdmission {
    pub model_hidden_layers: usize,
    pub store_config: KvCacheConfig,
    pub device: DeviceKvBinding,
}

/// Why a model does not fit a cache.
#[derive(Clone, Debug)]
pub enum ModelBindingError {
    NotDeepseek { model_type: String },
    LayerCount { model_layers: usize, kv_layers: usize },
    BoundLayers { bound: usize, declared: usize },
}

impl ModelBindingError {
    pub open spec fn text(self) -> Seq<char> {
        match self {
            ModelBindingError::NotDeepseek { model_type } =>
                "real-full scheduler arenas require a DeepSeek V4 catalog, got "@ + model_type@,
            ModelBindingError::LayerCount { model_layers, kv_layers } =>
                "model hidden layer count "@ + decimal(model_layers as nat)
                + " is incompatible with KV capacity for "@ + decimal(kv_layers as nat)
                + " layers"@,
            ModelBindingError::BoundLayers { bound, declared } =>
                "scheduler arena is bound to "@ + decimal(bound as nat)
                + " target layers but request catalog declares "@ + decimal(declared as nat),
        }
    }

    pub fn message(&self) -> (out: String)
        ensures
            out@ == self.text(),
    {
        match self {
            ModelBindingError::NotDeepseek { model_type } => {
                let mut out: String =
                    "real-full scheduler arenas require a DeepSeek V4 catalog, got ".to_owned();
                out.append(model_type.as_str());
                out
            },
            ModelBindingError::LayerCount { model_layers, kv_layers } => {
                let mut out: String = "model hidden layer count ".to_owned();
                append_size(&mut out, *model_layers);
                out.append(" is incompatible with KV capacity for ");
                append_size(&mut out, *kv_layers);
                out.append(" layers");
                out
            },
            ModelBindingError::BoundLayers { bound, declared } => {
                let mut out: String = "scheduler arena is bound to ".to_owned();
                append_size(&mut out, *bound);
                out.append(" target layers but request catalog declares ");
                append_size(&mut out, *declared);
                out
            },
        }
    }
}

/// Why no state can be made.
#[derive(Clone, Debug)]
pub enum StateError {
    ZeroCapacity,
    ArenaSmallerThanSequence { arena: usize, sequence: usize },
    ArenaExceedsContext { arena: usize, context: usize },
    DevicePoolMismatch,
    Model { error: ModelBindingError },
}

impl StateError {
    pub open spec fn text(self) -> Seq<char> {
        match self {
            StateError::ZeroCapacity =>
                "real-full scheduler execution state requires nonzero KV capacity"@,
            StateError::ArenaSmallerThanSequence { arena, sequence } =>
                "real-full scheduler arena capacity "@ + decimal(arena as nat)
                + " is smaller than logical sequence capacity "@ + decimal(sequence as nat),
            StateError::ArenaExceedsContext { arena, context } =>
                "real-full scheduler arena capacity "@ + decimal(arena as nat)
                + " exceeds global context budget "@ + decimal(context as nat),
            StateError::DevicePoolMismatch =>
                "real-full shared device KV pool format or capacity does not match the sequence cache"@,
            StateError::Model { error } => error.text(),
        }
    }

    pub fn message(&self) -> (out: String)
        ensures
            out@ == self.text(),
    {
        match self {
            StateError::ZeroCapacity => {
                "real-full scheduler execution state requires nonzero KV capacity".to_owned()
            },
            StateError::ArenaSmallerThanSequence { arena, sequence } => {
                let mut out: String = "real-full scheduler arena capacity ".to_owned();
                append_size(&mut out, *arena);
                out.append(" is smaller than logical sequence capacity ");
                append_size(&mut out, *sequence);
                out
            },
            StateError::ArenaExceedsContext { arena, context } => {
                let mut out: String = "real-full scheduler arena capacity ".to_owned();
                append_size(&mut out, *arena);
                out.append(" exceeds global context budget ");
                append_size(&mut out, *context);
                out
            },
            StateError::DevicePoolMismatch => {
                "real-full shared device KV pool format or capacity does not match the sequence cache".to_owned()
            },
            StateError::Model { error } => error.message(),
        }
    }
}

/// Why a sequence cannot take over a state.
#[derive(Clone, Copy, Debug, PartialEq, Eq, Structural)]
pub enum RebindError {
    OtherThread,
    Capacity { arena: usize, requested: usize },
}

impl RebindError {
    pub open spec fn text(self) -> Seq<char> {
        match self {
            RebindError::OtherThread =>
                "real-full scheduler KV arena cannot move between graph-owner threads"@,
            RebindError::Capacity { arena, requested } =>
                "real-full scheduler recycled arena capacity "@ + decimal(arena as nat)
                + " cannot admit "@ + decimal(requested as nat) + " tokens"@,
        }
    }

    pub fn message(&self) -> (out: String)
        ensures
            out@ == self.text(),
    {
        match *self {
            RebindError::OtherThread => {
                "real-full scheduler KV arena cannot move between graph-owner threads".to_owned()
            },
            RebindError::Capacity { arena, requested } => {
                let mut out: String = "real-full scheduler recycled arena capacity ".to_owned();
                append_size(&mut out, arena);
                out.append(" cannot admit ");
                append_size(&mut out, requested);
                out.append(" tokens");
                out
            },
        }
    }
}

/// Why tokens are not taken into a state.
#[derive(Clone, Copy, Debug, PartialEq, Eq, Structural)]
pub enum TokensError {
    PrefixExceedsCapacity { tokens: usize, capacity: usize },
    LayerExceedsU32,
    FrontierMismatch { frontier: usize, prefix: usize },
    FrontierOverflow,
    FrontierExceedsCapacity { frontier: usize, capacity: usize },
    SnapshotExceedsCapacity { tokens: usize, capacity: usize },
}

impl TokensError {
    pub open spec fn text(self) -> Seq<char> {
        match self {
            TokensError::PrefixExceedsCapacity { tokens, capacity } =>
                "processed-token radix prefix "@ + decimal(tokens as nat)
                + " exceeds sequence capacity "@ + decimal(capacity as nat),
            TokensError::LayerExceedsU32 => "radix seed layer exceeds u32"@,
            TokensError::FrontierMismatch { frontier, prefix } =>
                "processed-token frontier "@ + decimal(frontier as nat)
                + " does not match scheduler prefix "@ + decimal(prefix as nat),
            TokensError::FrontierOverflow => "processed-token frontier overflow usize"@,
            TokensError::FrontierExceedsCapacity { frontier, capacity } =>
                "processed-token frontier "@ + decimal(frontier as nat)
                + " exceeds sequence capacity "@ + decimal(capacity as nat),
            TokensError::SnapshotExceedsCapacity { tokens, capacity } =>
                "snapshot token count "@ + decimal(tokens as nat) + " exceeds sequence capacity "@
                + decimal(capacity as nat),
        }
    }

    pub fn message(&self) -> (out: String)
        ensures
            out@ == self.text(),
    {
        match *self {
            TokensError::PrefixExceedsCapacity { tokens, capacity } => {
                let mut out: String = "processed-token radix prefix ".to_owned();
                append_size(&mut out, tokens);
                out.append(" exceeds sequence capacity ");
                append_size(&mut out, capacity);
                out
            },
            TokensError::LayerExceedsU32 => "radix seed layer exceeds u32".to_owned(),
            TokensError::FrontierMismatch { frontier, prefix } => {
                let mut out: String = "processed-token frontier ".to_owned();
                append_size(&mut out, frontier);
                out.append(" does not match scheduler prefix ");
                append_size(&mut out, prefix);
                out
            },
            TokensError::FrontierOverflow => "processed-token frontier overflow usize".to_owned(),
            TokensError::FrontierExceedsCapacity { frontier, capacity } => {
                let mut out: String = "processed-token frontier ".to_owned();
                append_size(&mut out, frontier);
                out.append(" exceeds sequence capacity ");
                append_size(&mut out, capacity);
                out
            },
            TokensError::SnapshotExceedsCapacity { tokens, capacity } => {
                let mut out: String = "snapshot token count ".to_owned();
                append_size(&mut out, tokens);
                out.append(" exceeds sequence capacity ");
                append_size(&mut out, capacity);
                out
            },
        }
    }
}

/// Why a request does not belong to a state.
#[derive(Clone, Debug)]
pub enum StateShapeError {
    Sequence { state: String, shape: String },
    Capacity { capacity: usize, span: usize },
}

impl StateShapeError {
    pub open spec fn text(self) -> Seq<char> {
        match self {
            StateShapeError::Sequence { state, shape } =>
                "real-full scheduler state sequence id mismatch: state="@ + state@ + " shape="@
                + shape@,
            StateShapeError::Capacity { capacity, span } =>
                "real-full scheduler state capacity "@ + decimal(capacity as nat)
                + " is smaller than requested token span "@ + decimal(span as nat),
        }
    }

    pub fn message(&self) -> (out: String)
        ensures
            out@ == self.text(),
    {
        match self {
            StateShapeError::Sequence { state, shape } => {
                let mut out: String =
                    "real-full scheduler state sequence id mismatch: state=".to_owned();
                out.append(state.as_str());
                out.append(" shape=");
                out.append(shape.as_str());
                out
            },
            StateShapeError::Capacity { capacity, span } => {
                let mut out: String = "real-full scheduler state capacity ".to_owned();
                append_size(&mut out, *capacity);
                out.append(" is smaller than requested token span ");
                append_size(&mut out, *span);
                out
            },
        }
    }
}

/// Why a cache does not serve the live scheduler.
#[derive(Clone, Debug)]
pub enum LiveContractError {
    NotDeepseek { model_type: String },
    Layout { layout: KvLayout },
    DType { dtype: KvCacheDType },
    Width { kv_width: usize, head_dim: usize },
    Layers { kv_layers: usize, target_layers: usize, all_blocks: usize },
}

impl LiveContractError {
    /// What is said of a cache that does not serve; `layout` and `dtype` are the
    /// labels of its layout and of its element type.
    pub open spec fn text(self, layout: Seq<char>, dtype: Seq<char>) -> Seq<char> {
        match self {
            LiveContractError::NotDeepseek { model_type } =>
                "live scheduler requires a DeepSeek V4 catalog, got "@ + quoted(model_type@),
            LiveContractError::Layout { layout: _ } =>
                "live DeepSeek scheduler requires the native hybrid KV metadata layout, got "@
                + layout,
            LiveContractError::DType { dtype: _ } =>
                "live DeepSeek scheduler transactional KV metadata must remain BF16, got "@ + dtype,
            LiveContractError::Width { kv_width, head_dim } =>
                "live DeepSeek scheduler KV width "@ + decimal(kv_width as nat)
                + " differs from model head dimension "@ + decimal(head_dim as nat),
            LiveContractError::Layers { kv_layers, target_layers, all_blocks } =>
                "live DeepSeek scheduler KV layer count "@ + decimal(kv_layers as nat)
                + " must cover "@ + decimal(target_layers as nat) + " target blocks or all "@
                + decimal(all_blocks as nat) + " target+dSpark blocks"@,
        }
    }

    pub fn message(&self, layout: &str, dtype: &str) -> (out: String)
        ensures
            out@ == self.text(layout@, dtype@),
    {
        match self {
            LiveContractError::NotDeepseek { model_type } => {
                let mut out: String =
                    "live scheduler requires a DeepSeek V4 catalog, got ".to_owned();
                let shown: String = quote_text(model_type.as_str());
                out.append(shown.as_str());
                out
            },
            LiveContractError::Layout { layout: _ } => {
                let mut out: String =
                    "live DeepSeek scheduler requires the native hybrid KV metadata layout, got ".to_owned();
                out.append(layout);
                out
            },
            LiveContractError::DType { dtype: _ } => {
                let mut out: String =
                    "live DeepSeek scheduler transactional KV metadata must remain BF16, got ".to_owned();
                out.append(dtype);
                out
            },
            LiveContractError::Width { kv_width, head_dim } => {
                let mut out: String = "live DeepSeek scheduler KV width ".to_owned();
                append_size(&mut out, *kv_width);
                out.append(" differs from model head dimension ");
                append_size(&mut out, *head_dim);
                out
            },
            LiveContractError::Layers { kv_layers, target_layers, all_blocks } => {
                let mut out: String = "live DeepSeek scheduler KV layer count ".to_owned();
                append_size(&mut out, *kv_layers);
                out.append(" must cover ");
                append_size(&mut out, *target_layers);
                out.append(" target blocks or all ");
                append_size(&mut out, *all_blocks);
                out.append(" target+dSpark blocks");
                out
            },
        }
    }
}

/// The model fits a cache of `layers` layers.
pub open spec fn model_binds(layers: usize, facts: ModelFacts) -> bool {
    &&& facts.model_type@ == "deepseek_v4"@
    &&& 0 < facts.num_hidden_layers <= layers
}

/// The reason why a model does not fit.
pub open spec fn binding_refused(
    layers: usize,
    facts: ModelFacts,
    error: ModelBindingError,
) -> bool {
    if facts.model_type@ != "deepseek_v4"@ {
        error matches ModelBindingError::NotDeepseek { model_type } && model_type@
            == facts.model_type@
    } else {
        &&& error == (ModelBindingError::LayerCount {
            model_layers: facts.num_hidden_layers,
            kv_layers: layers,
        })
        &&& !(0 < facts.num_hidden_layers <= layers)
    }
}

/// The target layers of the model, where they fit the cache.
pub fn scheduler_state_model_hidden_layers(
    kv_config: &KvCacheConfig,
    facts: &ModelFacts,
) -> (result: Result<usize, ModelBindingError>)
    ensures
        result is Ok <==> model_binds(kv_config.layers, *facts),
        result matches Ok(layers) ==> layers == facts.num_hidden_layers,
        result matches Err(e) ==> binding_refused(kv_config.layers, *facts, e),
{
    if !same_text(facts.model_type.as_str(), "deepseek_v4") {
        return Err(ModelBindingError::NotDeepseek { model_type: facts.model_type.clone() });
    }
    if facts.num_hidden_layers == 0 || facts.num_hidden_layers > kv_config.layers {
        return Err(
            ModelBindingError::LayerCount {
                model_layers: facts.num_hidden_layers,
                kv_layers: kv_config.layers,
            },
        );
    }
    Ok(facts.num_hidden_layers)
}

/// The two caches have one format.
pub open spec fn same_format(a: KvCacheConfig, b: KvCacheConfig) -> bool {
    &&& a.layout == b.layout
    &&& a.layers == b.layers
    &&& a.key_value_width == b.key_value_width
    &&& a.dtype == b.dtype
    &&& a.mla_representation == b.mla_representation
    &&& a.dsa_indexer_layers == b.dsa_indexer_layers
    &&& a.dsa_index_head_dim == b.dsa_index_head_dim
    &&& a.fp8_scale_metadata_bytes_per_token == b.fp8_scale_metadata_bytes_per_token
}

/// The cache, the pool and the model take a sequence.
pub open spec fn state_admitted(
    kv_config: KvCacheConfig,
    facts: ModelFacts,
    capacity_tokens: usize,
    arena_capacity_tokens: usize,
    pool: KvCacheConfig,
) -> bool {
    &&& 0 < capacity_tokens <= arena_capacity_tokens <= kv_config.max_tokens
    &&& same_format(pool, kv_config)
    &&& pool.max_tokens >= arena_capacity_tokens
    &&& model_binds(kv_config.layers, facts)
}

/// The first reason why a sequence is not taken.
pub open spec fn state_refused(
    kv_config: KvCacheConfig,
    facts: ModelFacts,
    capacity_tokens: usize,
    arena_capacity_tokens: usize,
    pool: KvCacheConfig,
    error: StateError,
) -> bool {
    if capacity_tokens == 0 {
        error == StateError::ZeroCapacity
    } else if arena_capacity_tokens < capacity_tokens {
        error == (StateError::ArenaSmallerThanSequence {
            arena: arena_capacity_tokens,
            sequence: capacity_tokens,
        })
    } else if arena_capacity_tokens > kv_config.max_tokens {
        error == (StateError::ArenaExceedsContext {
            arena: arena_capacity_tokens,
            context: kv_config.max_tokens,
        })
    } else if !same_format(pool, kv_config) || pool.max_tokens < arena_capacity_tokens {
        error == StateError::DevicePoolMismatch
    } else {
        &&& !model_binds(kv_config.layers, facts)
        &&& error matches StateError::Model { error: inner } && binding_refused(
            kv_config.layers,
            facts,
            inner,
        )
    }
}

/// The cache of one arena: that of the runtime, cut to the arena.
pub open spec fn arena_config(
    kv_config: KvCacheConfig,
    arena_capacity_tokens: usize,
) -> KvCacheConfig {
    KvCacheConfig { max_tokens: arena_capacity_tokens, ..kv_config }
}

/// Whether a sequence is taken, and what its state is made with.
/// `shared_base` is the first token of its extent in a shared device pool.
pub fn admit_scheduler_state(
    kv_config: &KvCacheConfig,
    facts: &ModelFacts,
    capacity_tokens: usize,
    arena_capacity_tokens: usize,
    pool: &KvCacheConfig,
    shared_base: Option<usize>,
) -> (result: Result<StateAdmission, StateError>)
    ensures
        result is Ok <==> state_admitted(
            *kv_config,
            *facts,
            capacity_tokens,
            arena_capacity_tokens,
            *pool,
        ),
        result matches Ok(a) ==> {
            &&& a.model_hidden_layers == facts.num_hidden_layers
            &&& a.store_config == arena_config(*kv_config, arena_capacity_tokens)
            &&& a.device == (match shared_base {
                Some(base) => DeviceKvBinding::SharedStorage {
                    physical_token_base: base,
                    capacity_tokens,
                },
                None => DeviceKvBinding::NativeTargetMapping,
            })
        },
        result matches Err(e) ==> state_refused(
            *kv_config,
            *facts,
            capacity_tokens,
            arena_capacity_tokens,
            *pool,
            e,
        ),
{
    if capacity_tokens == 0 {
        return Err(StateError::ZeroCapacity);
    }
    if arena_capacity_tokens < capacity_tokens {
        return Err(
            StateError::ArenaSmallerThanSequence {
                arena: arena_capacity_tokens,
                sequence: capacity_tokens,
            },
        );
    }
    if arena_capacity_tokens > kv_config.max_tokens {
        return Err(
            StateError::ArenaExceedsContext {
                arena: arena_capacity_tokens,
                context: kv_config.max_tokens,
            },
        );
    }
    let same: bool = pool.layout == kv_config.layout && pool.layers == kv_config.layers
        && pool.key_value_width == kv_config.key_value_width && pool.dtype == kv_config.dtype
        && pool.mla_representation == kv_config.mla_representation && pool.dsa_indexer_layers
        == kv_config.dsa_indexer_layers && pool.dsa_index_head_dim == kv_config.dsa_index_head_dim
        && pool.fp8_scale_metadata_bytes_per_token == kv_config.fp8_scale_metadata_bytes_per_token;
    if !same || pool.max_tokens < arena_capacity_tokens {
        return Err(StateError::DevicePoolMismatch);
    }
    let model_hidden_layers: usize = match scheduler_state_model_hidden_layers(kv_config, facts) {
        Ok(layers) => layers,
        Err(error) => return Err(StateError::Model { error }),
    };
    let mut store_config: KvCacheConfig = *kv_config;
    store_config.max_tokens = arena_capacity_tokens;
    let device = match shared_base {
        Some(physical_token_base) => DeviceKvBinding::SharedStorage {
            physical_token_base,
            capacity_tokens,
        },
        None => DeviceKvBinding::NativeTargetMapping,
    };
    Ok(StateAdmission { model_hidden_layers, store_config, device })
}

/// The state of one live sequence.
#[derive(Debug)]
pub struct RealFullSchedulerExecutionState {
    pub store_config: KvCacheConfig,
    pub reservation_id: u64,
    pub sequence_id: String,
    pub capacity_tokens: usize,
    pub model_hidden_layers: usize,
    pub processed_token_ids: Vec<usize>,
}

/// How far the first `n` blocks reach without a gap, from the start of the
/// sequence. A block that starts behind the reach stops the walk.
pub open spec fn covered_end(blocks: Seq<KvVisibleBlock>, n: int) -> int
    decreases n,
{
    if n <= 0 {
        0
    } else {
        let before = covered_end(blocks, n - 1);
        let start = blocks[n - 1].token_start as int;
        let end = if start + blocks[n - 1].token_count > usize::MAX {
            usize::MAX as int
        } else {
            start + blocks[n - 1].token_count
        };
        if end > before {
            end
        } else {
            before
        }
    }
}

/// Block `i` starts within what the blocks before it reach.
pub open spec fn joins(blocks: Seq<KvVisibleBlock>, i: int) -> bool {
    blocks[i].token_start <= covered_end(blocks, i)
}

/// The first `n` blocks each start within what those before them reach.
pub open spec fn gap_free(blocks: Seq<KvVisibleBlock>, n: int) -> bool {
    forall|i: int| 0 <= i < n ==> #[trigger] joins(blocks, i)
}

/// The first `n` blocks reach `token_count` without a gap.
pub open spec fn reaches(blocks: Seq<KvVisibleBlock>, n: int, token_count: int) -> bool {
    0 < n <= blocks.len() && gap_free(blocks, n) && covered_end(blocks, n) >= token_count
}

/// The blocks reach `token_count` before the first gap.
pub open spec fn prefix_visible(blocks: Seq<KvVisibleBlock>, token_count: int) -> bool {
    token_count == 0 || exists|n: int| #[trigger] reaches(blocks, n, token_count)
}

proof fn lemma_covered_end_grows(blocks: Seq<KvVisibleBlock>, k: int, n: int)
    requires
        0 <= k <= n,
    ensures
        covered_end(blocks, k) <= covered_end(blocks, n),
    decreases n,
{
    if k < n {
        lemma_covered_end_grows(blocks, k, n - 1);
    }
}

/// Whether attention can read all of the first `token_count` tokens of a
/// layer. `blocks` are the visible blocks of the layer, in order.
pub fn snapshot_layer_has_attention_visible_prefix(
    token_count: usize,
    blocks: &[KvVisibleBlock],
) -> (visible: bool)
    ensures
        visible == prefix_visible(blocks@, token_count as int),
{
    if token_count == 0 {
        return true;
    }
    let mut reach: usize = 0;
    let mut i: usize = 0;
    while i < blocks.len()
        invariant
            i <= blocks@.len(),
            token_count > 0,
            reach == covered_end(blocks@, i as int),
            reach < token_count,
            gap_free(blocks@, i as int),
        decreases blocks@.len() - i,
    {
        let block = blocks[i];
        if block.token_start > reach as u64 {
            proof {
                assert forall|n: int| !#[trigger] reaches(
                    blocks@,
                    n,
                    token_count as int,
                ) by {
                    if reaches(blocks@, n, token_count as int) {
                        if n > i {
                            assert(joins(blocks@, i as int));
                        } else {
                            lemma_covered_end_grows(blocks@, n, i as int);
                        }
                    }
                }
            }
            return false;
        }
        assert(joins(blocks@, i as int));
        let start: usize = block.token_start as usize;
        let end: usize = start.saturating_add(block.token_count);
        if end > reach {
            reach = end;
        }
        i = i + 1;
        if reach >= token_count {
            assert(reaches(blocks@, i as int, token_count as int));
            return true;
        }
    }
    proof {
        assert forall|n: int| !#[trigger] reaches(blocks@, n, token_count as int) by {
            if reaches(blocks@, n, token_count as int) {
                lemma_covered_end_grows(blocks@, n, blocks@.len() as int);
            }
        }
    }
    false
}

/// The token at `t` is in block `i`.
pub open spec fn block_holds(blocks: Seq<KvVisibleBlock>, i: int, t: int) -> bool {
    &&& 0 <= i < blocks.len()
    &&& blocks[i].token_start <= t < blocks[i].token_start + blocks[i].token_count
}

proof fn lemma_reached_is_held(blocks: Seq<KvVisibleBlock>, n: int, t: int)
    requires
        0 <= n <= blocks.len(),
        gap_free(blocks, n),
        0 <= t < covered_end(blocks, n),
    ensures
        exists|i: int| #[trigger] block_holds(blocks, i, t),
    decreases n,
{
    if n > 0 {
        assert(joins(blocks, n - 1));
        if t < covered_end(blocks, n - 1) {
            lemma_reached_is_held(blocks, n - 1, t);
        } else {
            assert(block_holds(blocks, n - 1, t));
        }
    }
}

/// The token at `t` is in a visible block.
pub open spec fn token_held(blocks: Seq<KvVisibleBlock>, t: int) -> bool {
    exists|i: int| #[trigger] block_holds(blocks, i, t)
}

/// A prefix that counts as visible holds no gap: each of its tokens is in a
/// visible block.
pub proof fn law_visible_prefix_has_no_gap(blocks: Seq<KvVisibleBlock>, token_count: int, t: int)
    requires
        prefix_visible(blocks, token_count),
        0 <= t < token_count,
    ensures
        token_held(blocks, t),
{
    let n = choose|n: int| #[trigger] reaches(blocks, n, token_count);
    lemma_reached_is_held(blocks, n, t);
}

/// The blocks stand in the order of their first tokens.
pub open spec fn blocks_in_order(blocks: Seq<KvVisibleBlock>) -> bool {
    forall|i: int, j: int|
        0 <= i <= j < blocks.len() ==> (#[trigger] blocks[i]).token_start <= (#[trigger]
        blocks[j]).token_start
}

proof fn lemma_reach_of_held(blocks: Seq<KvVisibleBlock>, token_count: int, n: int)
    requires
        0 <= n <= blocks.len(),
        0 < token_count <= usize::MAX,
        blocks_in_order(blocks),
        forall|t: int| 0 <= t < token_count ==> #[trigger] token_held(blocks, t),
        gap_free(blocks, n),
        covered_end(blocks, n) < token_count,
    ensures
        prefix_visible(blocks, token_count),
    decreases blocks.len() - n,
{
    let t = covered_end(blocks, n);
    lemma_covered_end_grows(blocks, 0, n);
    assert(token_held(blocks, t));
    let i = choose|i: int| #[trigger] block_holds(blocks, i, t);
    if i < n {
        lemma_covered_end_grows(blocks, i + 1, n);
        assert(covered_end(blocks, i + 1) > t);
    }
    assert(n < blocks.len());
    assert(blocks[n].token_start <= blocks[i].token_start);
    assert(joins(blocks, n));
    assert(gap_free(blocks, n + 1));
    if covered_end(blocks, n + 1) < token_count {
        lemma_reach_of_held(blocks, token_count, n + 1);
    } else {
        assert(reaches(blocks, n + 1, token_count));
    }
}

/// Where the blocks are in order and together hold every token of the prefix,
/// the prefix counts as visible.
pub proof fn law_held_prefix_is_visible(blocks: Seq<KvVisibleBlock>, token_count: int)
    requires
        0 <= token_count <= usize::MAX,
        blocks_in_order(blocks),
        forall|t: int| 0 <= t < token_count ==> #[trigger] token_held(blocks, t),
    ensures
        prefix_visible(blocks, token_count),
{
    if token_count > 0 {
        lemma_reach_of_held(blocks, token_count, 0);
    }
}

/// Block `layer` of a seeded or restored prefix.
pub open spec fn prefix_block_ok(
    block: KvBlockDescriptor,
    state: RealFullSchedulerExecutionState,
    layer: int,
    tokens: int,
) -> bool {
    &&& block.reservation_id == state.reservation_id
    &&& block.sequence_id@ == state.sequence_id@
    &&& block.layer_id == layer
    &&& block.token_start == 0
    &&& block.token_count == tokens
}

impl RealFullSchedulerExecutionState {
    /// The sequence has its place in the arena, the model its layers, and no
    /// more tokens were processed than there is place for.
    pub open spec fn wf(&self) -> bool {
        &&& 0 < self.capacity_tokens <= self.store_config.max_tokens
        &&& 0 < self.model_hidden_layers <= self.store_config.layers
        &&& self.processed_token_ids@.len() <= self.capacity_tokens
    }

    /// The state of a new sequence. `reservation_id` is what the arena's store
    /// gave for the capacity.
    pub fn new_with_arena_capacity_and_storage(
        kv_config: KvCacheConfig,
        facts: &ModelFacts,
        sequence_id: String,
        capacity_tokens: usize,
        arena_capacity_tokens: usize,
        pool: KvCacheConfig,
        reservation_id: u64,
    ) -> (result: Result<Self, StateError>)
        ensures
            result is Ok <==> state_admitted(
                kv_config,
                *facts,
                capacity_tokens,
                arena_capacity_tokens,
                pool,
            ),
            result matches Ok(state) ==> state.wf() && state_begins(
                state,
                kv_config,
                *facts,
                sequence_id@,
                capacity_tokens,
                arena_capacity_tokens,
                reservation_id,
            ),
            result matches Err(e) ==> state_refused(
                kv_config,
                *facts,
                capacity_tokens,
                arena_capacity_tokens,
                pool,
                e,
            ),
    {
        match admit_scheduler_state(
            &kv_config,
            facts,
            capacity_tokens,
            arena_capacity_tokens,
            &pool,
            None,
        ) {
            Ok(admission) => Ok(
                RealFullSchedulerExecutionState {
                    store_config: admission.store_config,
                    reservation_id,
                    sequence_id,
                    capacity_tokens,
                    model_hidden_layers: admission.model_hidden_layers,
                    processed_token_ids: Vec::new(),
                },
            ),
            Err(error) => Err(error),
        }
    }

    pub fn arena_capacity_tokens(&self) -> (tokens: usize)
        ensures
            tokens == self.store_config.max_tokens,
    {
        self.store_config.max_tokens
    }

    /// Why another sequence of `capacity_tokens` cannot take over the state, if
    /// it cannot.
    pub open spec fn rebind_error(&self, owned: bool, capacity_tokens: usize) -> Option<
        RebindError,
    > {
        if !owned {
            Some(RebindError::OtherThread)
        } else if capacity_tokens == 0 || capacity_tokens > self.store_config.max_tokens {
            Some(
                RebindError::Capacity {
                    arena: self.store_config.max_tokens,
                    requested: capacity_tokens,
                },
            )
        } else {
            None
        }
    }

    /// Whether another sequence can take over the state. `owned` says whether
    /// the running thread owns the arena.
    pub fn admit_rebind(&self, owned: bool, capacity_tokens: usize) -> (result: Result<
        (),
        RebindError,
    >)
        ensures
            match self.rebind_error(owned, capacity_tokens) {
                Some(e) => result is Err && result->Err_0 == e,
                None => result is Ok,
            },
    {
        if !owned {
            return Err(RebindError::OtherThread);
        }
        if capacity_tokens == 0 || capacity_tokens > self.arena_capacity_tokens() {
            return Err(
                RebindError::Capacity {
                    arena: self.arena_capacity_tokens(),
                    requested: capacity_tokens,
                },
            );
        }
        Ok(())
    }

    /// Hands the state to another sequence. Where that fails nothing changes.
    pub fn rebind_sequence(
        &mut self,
        sequence_id: String,
        capacity_tokens: usize,
        owned: bool,
        reservation_id: u64,
    ) -> (result: Result<(), RebindError>)
        requires
            old(self).wf(),
        ensures
            final(self).wf(),
            state_rebound(
                *old(self),
                *final(self),
                sequence_id@,
                capacity_tokens,
                owned,
                reservation_id,
                result,
            ),
    {
        match self.admit_rebind(owned, capacity_tokens) {
            Err(error) => Err(error),
            Ok(()) => {
                self.reservation_id = reservation_id;
                self.sequence_id = sequence_id;
                self.capacity_tokens = capacity_tokens;
                self.processed_token_ids.clear();
                Ok(())
            },
        }
    }

    /// Why a prefix cannot be seeded, if it cannot.
    pub open spec fn seed_error(&self, tokens: int) -> Option<TokensError> {
        if tokens > self.capacity_tokens {
            Some(
                TokensError::PrefixExceedsCapacity {
                    tokens: tokens as usize,
                    capacity: self.capacity_tokens,
                },
            )
        } else if tokens > 0 && self.store_config.layers > u32::MAX + 1 {
            Some(TokensError::LayerExceedsU32)
        } else {
            None
        }
    }

    /// The blocks that are committed for a seeded prefix: one at every layer of
    /// the cache, and none for an empty prefix.
    pub fn seed_blocks(&self, tokens: usize) -> (result: Result<
        Vec<KvBlockDescriptor>,
        TokensError,
    >)
        ensures
            seed_blocks_ok(*self, tokens, result),
    {
        if tokens > self.capacity_tokens {
            return Err(
                TokensError::PrefixExceedsCapacity { tokens, capacity: self.capacity_tokens },
            );
        }
        let mut blocks: Vec<KvBlockDescriptor> = Vec::new();
        if tokens == 0 {
            return Ok(blocks);
        }
        if self.store_config.layers as u64 > 0x1_0000_0000u64 {
            return Err(TokensError::LayerExceedsU32);
        }
        let mut layer: usize = 0;
        while layer < self.store_config.layers
            invariant
                layer <= self.store_config.layers <= 0x1_0000_0000,
                blocks@.len() == layer,
                forall|l: int|
                    0 <= l < layer ==> prefix_block_ok(
                        #[trigger] blocks@[l],
                        *self,
                        l,
                        tokens as int,
                    ),
            decreases self.store_config.layers - layer,
        {
            blocks.push(self.prefix_block(layer as u32, tokens));
            layer = layer + 1;
        }
        Ok(blocks)
    }

    /// The block of the first `token_count` tokens of a layer.
    pub fn prefix_block(&self, layer_id: u32, token_count: usize) -> (block: KvBlockDescriptor)
        ensures
            prefix_block_ok(block, *self, layer_id as int, token_count as int),
    {
        KvBlockDescriptor {
            reservation_id: self.reservation_id,
            sequence_id: self.sequence_id.clone(),
            layer_id,
            token_start: 0,
            token_count,
        }
    }

    /// Replaces the processed tokens by those of a seeded prefix. Where the
    /// prefix cannot be seeded nothing changes.
    pub fn seed_processed_token_ids(&mut self, token_ids: &[usize]) -> (result: Result<
        (),
        TokensError,
    >)
        requires
            old(self).wf(),
        ensures
            final(self).wf(),
            tokens_seeded(*old(self), *final(self), token_ids@, result),
    {
        if token_ids.len() > self.capacity_tokens {
            return Err(
                TokensError::PrefixExceedsCapacity {
                    tokens: token_ids.len(),
                    capacity: self.capacity_tokens,
                },
            );
        }
        if token_ids.len() > 0 && self.store_config.layers as u64 > 0x1_0000_0000u64 {
            return Err(TokensError::LayerExceedsU32);
        }
        self.processed_token_ids.clear();
        self.processed_token_ids.extend_from_slice(token_ids);
        assert(self.processed_token_ids@ =~= token_ids@);
        Ok(())
    }

    /// The shape belongs to the sequence and fits its capacity.
    pub open spec fn shape_fits(&self, shape: RealFullSchedulerExecutionShape) -> bool {
        shape.sequence_id@ == self.sequence_id@ && shape.span() <= self.capacity_tokens
    }

    /// Why a request is not taken: it is of another sequence, or too long.
    pub open spec fn shape_refused(
        &self,
        shape: RealFullSchedulerExecutionShape,
        error: StateShapeError,
    ) -> bool {
        if shape.sequence_id@ != self.sequence_id@ {
            error matches StateShapeError::Sequence { state, shape: other } && state@
                == self.sequence_id@ && other@ == shape.sequence_id@
        } else {
            &&& shape.span() > self.capacity_tokens
            &&& error == (StateShapeError::Capacity {
                capacity: self.capacity_tokens,
                span: shape.span() as usize,
            })
        }
    }

    /// Checks that a request belongs to the sequence and fits its capacity.
    pub fn validate_shape(&self, shape: &RealFullSchedulerExecutionShape) -> (result: Result<
        (),
        StateShapeError,
    >)
        requires
            shape.span() <= usize::MAX,
        ensures
            result is Ok <==> self.shape_fits(*shape),
            result matches Err(e) ==> self.shape_refused(*shape, e),
    {
        if !same_text(shape.sequence_id.as_str(), self.sequence_id.as_str()) {
            return Err(
                StateShapeError::Sequence {
                    state: self.sequence_id.clone(),
                    shape: shape.sequence_id.clone(),
                },
            );
        }
        let span: usize = shape.reservation_tokens();
        if span > self.capacity_tokens {
            return Err(StateShapeError::Capacity { capacity: self.capacity_tokens, span });
        }
        Ok(())
    }

    /// The model is the one that the state is bound to.
    pub open spec fn model_fits(&self, facts: ModelFacts) -> bool {
        model_binds(self.store_config.layers, facts) && facts.num_hidden_layers
            == self.model_hidden_layers
    }

    /// Why a model is not the one that the state is bound to.
    pub open spec fn model_refused(&self, facts: ModelFacts, error: ModelBindingError) -> bool {
        if model_binds(self.store_config.layers, facts) {
            &&& facts.num_hidden_layers != self.model_hidden_layers
            &&& error == (ModelBindingError::BoundLayers {
                bound: self.model_hidden_layers,
                declared: facts.num_hidden_layers,
            })
        } else {
            binding_refused(self.store_config.layers, facts, error)
        }
    }

    /// Checks that a model is the one that the state is bound to.
    pub fn validate_model(&self, facts: &ModelFacts) -> (result: Result<(), ModelBindingError>)
        ensures
            result is Ok <==> self.model_fits(*facts),
            result matches Err(e) ==> self.model_refused(*facts, e),
    {
        let declared: usize = match scheduler_state_model_hidden_layers(&self.store_config, facts) {
            Ok(layers) => layers,
            Err(error) => return Err(error),
        };
        if declared != self.model_hidden_layers {
            return Err(ModelBindingError::BoundLayers { bound: self.model_hidden_layers, declared });
        }
        Ok(())
    }

    /// What is settled, target layer by target layer, once the drafts at
    /// `token_start` were verified.
    pub fn resolve_mtp_tentative_writes(
        &self,
        token_start: usize,
        draft_tokens: usize,
        accepted_tokens: usize,
    ) -> (resolutions: Vec<MtpResolution>)
        ensures
            resolutions@ == resolutions_of(*self, token_start, draft_tokens, accepted_tokens),
    {
        let mut resolutions: Vec<MtpResolution> = Vec::new();
        let mut layer: usize = 0;
        while layer < self.model_hidden_layers
            invariant
                layer <= self.model_hidden_layers,
                resolutions@ == Seq::new(
                    layer as nat,
                    |l: int|
                        MtpResolution {
                            reservation_id: self.reservation_id,
                            layer_id: l as u32,
                            token_start: token_start as u64,
                            draft_tokens,
                            accepted_tokens,
                        },
                ),
            decreases self.model_hidden_layers - layer,
        {
            resolutions.push(
                MtpResolution {
                    reservation_id: self.reservation_id,
                    layer_id: layer as u32,
                    token_start: token_start as u64,
                    draft_tokens,
                    accepted_tokens,
                },
            );
            layer = layer + 1;
        }
        resolutions
    }

    /// Why tokens behind `prefix_tokens` are not recorded, if they are not.
    pub open spec fn record_error(&self, prefix_tokens: usize, tokens: int) -> Option<
        TokensError,
    > {
        if self.processed_token_ids@.len() != prefix_tokens {
            Some(
                TokensError::FrontierMismatch {
                    frontier: self.processed_token_ids@.len() as usize,
                    prefix: prefix_tokens,
                },
            )
        } else if prefix_tokens + tokens > usize::MAX {
            Some(TokensError::FrontierOverflow)
        } else if prefix_tokens + tokens > self.capacity_tokens {
            Some(
                TokensError::FrontierExceedsCapacity {
                    frontier: (prefix_tokens + tokens) as usize,
                    capacity: self.capacity_tokens,
                },
            )
        } else {
            None
        }
    }

    /// Records processed tokens behind the prefix. Where that fails nothing
    /// changes.
    pub fn record_processed_token_ids(&mut self, prefix_tokens: usize, token_ids: &[usize]) -> (
    result: Result<(), TokensError>)
        requires
            old(self).wf(),
        ensures
            final(self).wf(),
            tokens_recorded(*old(self), *final(self), prefix_tokens, token_ids@, result),
    {
        if self.processed_token_ids.len() != prefix_tokens {
            return Err(
                TokensError::FrontierMismatch {
                    frontier: self.processed_token_ids.len(),
                    prefix: prefix_tokens,
                },
            );
        }
        let frontier: usize = match prefix_tokens.checked_add(token_ids.len()) {
            Some(frontier) => frontier,
            None => return Err(TokensError::FrontierOverflow),
        };
        if frontier > self.capacity_tokens {
            return Err(
                TokensError::FrontierExceedsCapacity { frontier, capacity: self.capacity_tokens },
            );
        }
        self.processed_token_ids.extend_from_slice(token_ids);
        assert(self.processed_token_ids@ =~= old(self).processed_token_ids@ + token_ids@);
        Ok(())
    }

    pub fn processed_token_ids(&self) -> (token_ids: &[usize])
        ensures
            token_ids@ == self.processed_token_ids@,
    {
        self.processed_token_ids.as_slice()
    }

    /// The tokens of the dSpark layers that a snapshot can hold: all
    /// `token_count` where attention can read them at every dSpark layer, else
    /// none. `layer_blocks` holds the visible blocks of the dSpark layers.
    pub fn snapshot_dspark_layer_token_count(
        &self,
        token_count: usize,
        layer_blocks: &[Vec<KvVisibleBlock>],
    ) -> (tokens: usize)
        requires
            self.model_hidden_layers < self.store_config.layers ==> layer_blocks@.len()
                == self.store_config.layers - self.model_hidden_layers,
        ensures
            tokens == (if self.model_hidden_layers < self.store_config.layers && (forall|i: int|
                0 <= i < layer_blocks@.len() ==> prefix_visible(
                    (#[trigger] layer_blocks@[i])@,
                    token_count as int,
                )) {
                token_count
            } else {
                0
            }),
    {
        if self.model_hidden_layers >= self.store_config.layers {
            return 0;
        }
        let mut i: usize = 0;
        while i < layer_blocks.len()
            invariant
                i <= layer_blocks@.len(),
                forall|k: int|
                    0 <= k < i ==> prefix_visible(
                        (#[trigger] layer_blocks@[k])@,
                        token_count as int,
                    ),
            decreases layer_blocks@.len() - i,
        {
            if !snapshot_layer_has_attention_visible_prefix(
                token_count,
                layer_blocks[i].as_slice(),
            ) {
                assert(!prefix_visible(layer_blocks@[i as int]@, token_count as int));
                return 0;
            }
            i = i + 1;
        }
        token_count
    }

    /// Replaces the processed tokens by those of a restored snapshot. Where
    /// they do not fit nothing changes.
    pub fn set_restored_token_ids(&mut self, token_ids: Vec<usize>) -> (result: Result<
        (),
        TokensError,
    >)
        requires
            old(self).wf(),
        ensures
            final(self).wf(),
            tokens_restored(*old(self), *final(self), token_ids, result),
    {
        if token_ids.len() > self.capacity_tokens {
            return Err(
                TokensError::SnapshotExceedsCapacity {
                    tokens: token_ids.len(),
                    capacity: self.capacity_tokens,
                },
            );
        }
        self.processed_token_ids = token_ids;
        Ok(())
    }
}

/// The state with which a sequence begins.
pub open spec fn state_begins(
    state: RealFullSchedulerExecutionState,
    kv_config: KvCacheConfig,
    facts: ModelFacts,
    sequence_id: Seq<char>,
    capacity_tokens: usize,
    arena_capacity_tokens: usize,
    reservation_id: u64,
) -> bool {
    &&& state.store_config == arena_config(kv_config, arena_capacity_tokens)
    &&& state.reservation_id == reservation_id
    &&& state.sequence_id@ == sequence_id
    &&& state.capacity_tokens == capacity_tokens
    &&& state.model_hidden_layers == facts.num_hidden_layers
    &&& state.processed_token_ids@ == Seq::<usize>::empty()
}

/// What handing a state to another sequence does.
pub open spec fn state_rebound(
    before: RealFullSchedulerExecutionState,
    after: RealFullSchedulerExecutionState,
    sequence_id: Seq<char>,
    capacity_tokens: usize,
    owned: bool,
    reservation_id: u64,
    result: Result<(), RebindError>,
) -> bool {
    match before.rebind_error(owned, capacity_tokens) {
        Some(e) => result is Err && result->Err_0 == e && after == before,
        None => {
            &&& result is Ok
            &&& after.store_config == before.store_config
            &&& after.model_hidden_layers == before.model_hidden_layers
            &&& after.reservation_id == reservation_id
            &&& after.sequence_id@ == sequence_id
            &&& after.capacity_tokens == capacity_tokens
            &&& after.processed_token_ids@ == Seq::<usize>::empty()
        },
    }
}

/// What seeding a prefix does to the processed tokens.
pub open spec fn tokens_seeded(
    before: RealFullSchedulerExecutionState,
    after: RealFullSchedulerExecutionState,
    token_ids: Seq<usize>,
    result: Result<(), TokensError>,
) -> bool {
    match before.seed_error(token_ids.len() as int) {
        Some(e) => result is Err && result->Err_0 == e && after == before,
        None => result is Ok && after == (RealFullSchedulerExecutionState {
            processed_token_ids: after.processed_token_ids,
            ..before
        }) && after.processed_token_ids@ == token_ids,
    }
}

/// What recording processed tokens does.
pub open spec fn tokens_recorded(
    before: RealFullSchedulerExecutionState,
    after: RealFullSchedulerExecutionState,
    prefix_tokens: usize,
    token_ids: Seq<usize>,
    result: Result<(), TokensError>,
) -> bool {
    match before.record_error(prefix_tokens, token_ids.len() as int) {
        Some(e) => result is Err && result->Err_0 == e && after == before,
        None => result is Ok && after == (RealFullSchedulerExecutionState {
            processed_token_ids: after.processed_token_ids,
            ..before
        }) && after.processed_token_ids@ == before.processed_token_ids@ + token_ids,
    }
}

/// What restoring the tokens of a snapshot does.
pub open spec fn tokens_restored(
    before: RealFullSchedulerExecutionState,
    after: RealFullSchedulerExecutionState,
    token_ids: Vec<usize>,
    result: Result<(), TokensError>,
) -> bool {
    if token_ids@.len() > before.capacity_tokens {
        &&& result is Err
        &&& result->Err_0 == (TokensError::SnapshotExceedsCapacity {
            tokens: token_ids@.len() as usize,
            capacity: before.capacity_tokens,
        })
        &&& after == before
    } else {
        &&& result is Ok
        &&& after == (RealFullSchedulerExecutionState { processed_token_ids: token_ids, ..before })
    }
}

/// The blocks that are committed for a seeded prefix, or why none are.
pub open spec fn seed_blocks_ok(
    state: RealFullSchedulerExecutionState,
    tokens: usize,
    result: Result<Vec<KvBlockDescriptor>, TokensError>,
) -> bool {
    match state.seed_error(tokens as int) {
        Some(e) => result is Err && result->Err_0 == e,
        None => {
            &&& result is Ok
            &&& result->Ok_0@.len() == (if tokens > 0 {
                state.store_config.layers as int
            } else {
                0
            })
            &&& forall|layer: int|
                0 <= layer < result->Ok_0@.len() ==> prefix_block_ok(
                    #[trigger] result->Ok_0@[layer],
                    state,
                    layer,
                    tokens as int,
                )
        },
    }
}

/// What is settled, target layer by target layer, of verified drafts.
pub open spec fn resolutions_of(
    state: RealFullSchedulerExecutionState,
    token_start: usize,
    draft_tokens: usize,
    accepted_tokens: usize,
) -> Seq<MtpResolution> {
    Seq::new(
        state.model_hidden_layers as nat,
        |layer: int|
            MtpResolution {
                reservation_id: state.reservation_id,
                layer_id: layer as u32,
                token_start: token_start as u64,
                draft_tokens,
                accepted_tokens,
            },
    )
}

/// The cache serves the live scheduler of the model.
pub open spec fn live_contract(kv_config: KvCacheConfig, facts: ModelFacts) -> bool {
    &&& facts.model_type@ == "deepseek_v4"@
    &&& kv_config.layout == KvLayout::DeepseekV4HybridBf16
    &&& kv_config.dtype == KvCacheDType::Bf16
    &&& kv_config.key_value_width == facts.head_dim
    &&& kv_config.layers == facts.num_hidden_layers || kv_config.layers
        == facts.transformer_blocks()
}

/// The first reason why the cache does not serve the live scheduler.
pub open spec fn live_contract_refused(
    kv_config: KvCacheConfig,
    facts: ModelFacts,
    error: LiveContractError,
) -> bool {
    if facts.model_type@ != "deepseek_v4"@ {
        error matches LiveContractError::NotDeepseek { model_type } && model_type@
            == facts.model_type@
    } else if kv_config.layout != KvLayout::DeepseekV4HybridBf16 {
        error == (LiveContractError::Layout { layout: kv_config.layout })
    } else if kv_config.dtype != KvCacheDType::Bf16 {
        error == (LiveContractError::DType { dtype: kv_config.dtype })
    } else if kv_config.key_value_width != facts.head_dim {
        error == (LiveContractError::Width {
            kv_width: kv_config.key_value_width,
            head_dim: facts.head_dim,
        })
    } else {
        error == (LiveContractError::Layers {
            kv_layers: kv_config.layers,
            target_layers: facts.num_hidden_layers,
            all_blocks: facts.transformer_blocks() as usize,
        })
    }
}

/// Checks that a cache serves the live scheduler of a model.
pub fn validate_live_native_scheduler_contract(
    kv_config: &KvCacheConfig,
    catalog: &TensorCatalog,
) -> (result: Result<(), LiveContractError>)
    requires
        catalog.facts.transformer_blocks() <= usize::MAX,
    ensures
        result is Ok <==> live_contract(*kv_config, catalog.facts),
        result matches Err(e) ==> live_contract_refused(*kv_config, catalog.facts, e),
{
    let facts = &catalog.facts;
    if !same_text(facts.model_type.as_str(), "deepseek_v4") {
        return Err(LiveContractError::NotDeepseek { model_type: facts.model_type.clone() });
    }
    if kv_config.layout != KvLayout::DeepseekV4HybridBf16 {
        return Err(LiveContractError::Layout { layout: kv_config.layout });
    }
    if kv_config.dtype != KvCacheDType::Bf16 {
        return Err(LiveContractError::DType { dtype: kv_config.dtype });
    }
    if kv_config.key_value_width != facts.head_dim {
        return Err(
            LiveContractError::Width {
                kv_width: kv_config.key_value_width,
                head_dim: facts.head_dim,
            },
        );
    }
    let all_blocks: usize = facts.total_transformer_blocks();
    if kv_config.layers != facts.num_hidden_layers && kv_config.layers != all_blocks {
        return Err(
            LiveContractError::Layers {
                kv_layers: kv_config.layers,
                target_layers: facts.num_hidden_layers,
                all_blocks,
            },
        );
    }
    Ok(())
}

} // verus!
