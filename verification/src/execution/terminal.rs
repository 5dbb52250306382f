//! The terminal sample of an execution: when it counts as complete, and what
//! is reported where it is missing, blocked or deferred.
use vstd::prelude::*;

use crate::model::{
    dtype_label, dtype_text, find_tensor, first_named, role_label, role_text, same_shape, DType,
    ModelFacts, TensorCatalog, TensorRole,
};
use crate::text::{append_list, append_size, decimal, list_text, same_text};

verus! {

/// The bit pattern of 1.0 as a 32-bit floating-point value.
pub const ONE_BITS: u32 = 0x3f80_0000;

/// The bit pattern of positive infinity as a 32-bit floating-point value.
pub const INFINITY_BITS: u32 = 0x7f80_0000;

/// The bit pattern with only the sign set.
pub const SIGN_BITS: u32 = 0x8000_0000;

/// The bit pattern of 1.0e-5 as a 32-bit floating-point value.
pub const REAL_FULL_FINAL_NORM_EPS_BITS: u32 = 0x3727_c5ac;

/// The kernels that a complete sample may come from.
#[derive(Clone, Debug)]
pub struct LmHeadBackends {
    pub argmax: String,
    pub sampler: String,
    pub triton_sampler: String,
}

/// The score of a full-vocabulary head for one hidden row. Fractions are held
/// as the bit patterns of their 32-bit floating-point values.
#[derive(Clone, Debug)]
pub struct RealLmHeadChunkScoreForHidden {
    pub hidden_dim: usize,
    pub vocab_size: usize,
    pub logits_evaluated: usize,
    pub covers_full_vocabulary: bool,
    pub argmax_kernel_backend: String,
    pub sampler_kernel_backend: String,
    pub top_token_id: usize,
    pub top_logit_bits: u32,
    pub sampled_token_id: usize,
    pub sampled_score_bits: u32,
    pub sample_temperature_bits: u32,
    pub sample_top_k: usize,
    pub sample_top_p_bits: u32,
}

/// Why a terminal sample does not count.
#[derive(Clone, Debug)]
pub enum TerminalBlocker {
    /// The final decode row is not on the device.
    HiddenUnavailable,
    /// The final decode row is not on the device for a deferred sample.
    DeferredHiddenUnavailable,
    /// The sample came from a greedy, partial or foreign kernel.
    GateRejected,
    /// Normalising or scoring failed.
    Failed(String),
}

/// What is said of a score that does not count. `top_p` and `temperature` are
/// the texts of these two numbers.
pub open spec fn gate_rejection_text(
    score: RealLmHeadChunkScoreForHidden,
    top_p: Seq<char>,
    temperature: Seq<char>,
) -> Seq<char> {
    "scheduler terminal lm_head sample must use full-vocabulary preloaded-resident CUDA argmax plus non-greedy top-k/top-p sampler: full_vocab="@
        + (if score.covers_full_vocabulary {
        "true"@
    } else {
        "false"@
    }) + " logits="@ + decimal(score.logits_evaluated as nat) + " vocab="@ + decimal(
        score.vocab_size as nat,
    ) + " top_k="@ + decimal(score.sample_top_k as nat) + " top_p="@ + top_p + " temperature="@
        + temperature + " argmax_backend="@ + score.argmax_kernel_backend@ + " sampler_backend="@
        + score.sampler_kernel_backend@
}

/// What is said of a score that does not count.
pub fn gate_rejection_message(
    score: &RealLmHeadChunkScoreForHidden,
    top_p: &str,
    temperature: &str,
) -> (out: String)
    ensures
        out@ == gate_rejection_text(*score, top_p@, temperature@),
{
    let mut out: String =
        "scheduler terminal lm_head sample must use full-vocabulary preloaded-resident CUDA argmax plus non-greedy top-k/top-p sampler: full_vocab=".to_owned();
    if score.covers_full_vocabulary {
        out.append("true");
    } else {
        out.append("false");
    }
    out.append(" logits=");
    append_size(&mut out, score.logits_evaluated);
    out.append(" vocab=");
    append_size(&mut out, score.vocab_size);
    out.append(" top_k=");
    append_size(&mut out, score.sample_top_k);
    out.append(" top_p=");
    out.append(top_p);
    out.append(" temperature=");
    out.append(temperature);
    out.append(" argmax_backend=");
    out.append(score.argmax_kernel_backend.as_str());
    out.append(" sampler_backend=");
    out.append(score.sampler_kernel_backend.as_str());
    out
}

impl TerminalBlocker {
    /// What is said of the blocker; `rejection` is what is said of the score
    /// where the score itself is rejected.
    pub open spec fn text(self, rejection: Seq<char>) -> Seq<char> {
        match self {
            TerminalBlocker::HiddenUnavailable =>
                "scheduler final decode device hidden is unavailable for terminal sampling"@,
            TerminalBlocker::DeferredHiddenUnavailable =>
                "scheduler final decode device hidden is unavailable for deferred target sampling"@,
            TerminalBlocker::GateRejected => rejection,
            TerminalBlocker::Failed(error) => error@,
        }
    }

    pub fn message(&self, rejection: &str) -> (out: String)
        ensures
            out@ == self.text(rejection@),
    {
        match self {
            TerminalBlocker::HiddenUnavailable =>
                "scheduler final decode device hidden is unavailable for terminal sampling".to_owned(),
            TerminalBlocker::DeferredHiddenUnavailable =>
                "scheduler final decode device hidden is unavailable for deferred target sampling".to_owned(),
            TerminalBlocker::GateRejected => rejection.to_owned(),
            TerminalBlocker::Failed(error) => error.as_str().to_owned(),
        }
    }
}

/// A terminal sample.
#[derive(Clone, Debug)]
pub struct RealFullSchedulerTerminalLmHeadSample {
    pub status: &'static str,
    pub scope: &'static str,
    pub uses_final_decode_device_hidden: bool,
    pub covers_full_vocabulary: bool,
    pub hidden_dim: usize,
    pub vocab_size: usize,
    pub logits_evaluated: usize,
    pub top_token_id: Option<usize>,
    pub sampled_token_id: Option<usize>,
    pub sample_top_k: Option<usize>,
    pub sample_top_p_bits: Option<u32>,
    pub argmax_kernel_backend: Option<String>,
    pub sampler_kernel_backend: Option<String>,
    pub passed: bool,
    pub blocker: Option<TerminalBlocker>,
}

/// The bit pattern is that of a finite number.
pub open spec fn finite_bits(bits: u32) -> bool {
    bits < INFINITY_BITS || SIGN_BITS <= bits < SIGN_BITS + INFINITY_BITS
}

/// The bit pattern is that of a finite number above zero.
pub open spec fn positive_bits(bits: u32) -> bool {
    0 < bits < INFINITY_BITS
}

/// The bit pattern is that of a number above zero and not above one.
pub open spec fn unit_bits(bits: u32) -> bool {
    0 < bits <= ONE_BITS
}

/// Whether the argmax came from the resident reference kernel.
pub fn scheduler_terminal_lm_head_argmax_backend_allowed(
    backend: &str,
    backends: &LmHeadBackends,
) -> (allowed: bool)
    ensures
        allowed == (backend@ == backends.argmax@),
{
    same_text(backend, backends.argmax.as_str())
}

/// Whether the sample came from one of the resident sampler kernels.
pub fn scheduler_terminal_lm_head_sampler_backend_allowed(
    backend: &str,
    backends: &LmHeadBackends,
) -> (allowed: bool)
    ensures
        allowed == (backend@ == backends.sampler@ || backend@ == backends.triton_sampler@),
{
    same_text(backend, backends.sampler.as_str()) || same_text(
        backend,
        backends.triton_sampler.as_str(),
    )
}

/// The score covers the whole vocabulary, was sampled among several tokens
/// with usable numbers, and came from resident kernels.
pub open spec fn completion_gate(
    score: RealLmHeadChunkScoreForHidden,
    backends: LmHeadBackends,
) -> bool {
    &&& score.covers_full_vocabulary
    &&& score.logits_evaluated == score.vocab_size
    &&& finite_bits(score.top_logit_bits)
    &&& unit_bits(score.sampled_score_bits)
    &&& score.sample_top_k > 1
    &&& unit_bits(score.sample_top_p_bits)
    &&& positive_bits(score.sample_temperature_bits)
    &&& score.argmax_kernel_backend@ == backends.argmax@
    &&& score.sampler_kernel_backend@ == backends.sampler@ || score.sampler_kernel_backend@
        == backends.triton_sampler@
}

/// Whether a score counts as a complete terminal sample.
pub fn scheduler_terminal_lm_head_completion_gate(
    score: &RealLmHeadChunkScoreForHidden,
    backends: &LmHeadBackends,
) -> (complete: bool)
    ensures
        complete == completion_gate(*score, *backends),
{
    let logit: u32 = score.top_logit_bits;
    let magnitude: u32 = if logit >= SIGN_BITS {
        logit - SIGN_BITS
    } else {
        logit
    };
    let finite: bool = magnitude < INFINITY_BITS;
    score.covers_full_vocabulary && score.logits_evaluated == score.vocab_size && finite
        && score.sampled_score_bits > 0 && score.sampled_score_bits <= ONE_BITS
        && score.sample_top_k > 1 && score.sample_top_p_bits > 0 && score.sample_top_p_bits
        <= ONE_BITS && score.sample_temperature_bits > 0 && score.sample_temperature_bits
        < INFINITY_BITS && scheduler_terminal_lm_head_argmax_backend_allowed(
        score.argmax_kernel_backend.as_str(),
        backends,
    ) && scheduler_terminal_lm_head_sampler_backend_allowed(
        score.sampler_kernel_backend.as_str(),
        backends,
    )
}

/// A sample without numbers.
pub open spec fn empty_sample_ok(
    sample: RealFullSchedulerTerminalLmHeadSample,
    status: Seq<char>,
    scope: Seq<char>,
    hidden_dim: Option<usize>,
    passed: bool,
) -> bool {
    &&& sample.status@ == status
    &&& sample.scope@ == scope
    &&& sample.uses_final_decode_device_hidden == (hidden_dim is Some)
    &&& !sample.covers_full_vocabulary
    &&& sample.hidden_dim == (match hidden_dim {
        Some(dim) => dim,
        None => 0,
    })
    &&& sample.vocab_size == 0
    &&& sample.logits_evaluated == 0
    &&& sample.top_token_id is None
    &&& sample.sampled_token_id is None
    &&& sample.sample_top_k is None
    &&& sample.sample_top_p_bits is None
    &&& sample.argmax_kernel_backend is None
    &&& sample.sampler_kernel_backend is None
    &&& sample.passed == passed
}

fn empty_sample(
    status: &'static str,
    scope: &'static str,
    hidden_dim: Option<usize>,
    passed: bool,
    blocker: Option<TerminalBlocker>,
) -> (sample: RealFullSchedulerTerminalLmHeadSample)
    ensures
        empty_sample_ok(sample, status@, scope@, hidden_dim, passed),
        sample.blocker == blocker,
{
    RealFullSchedulerTerminalLmHeadSample {
        status,
        scope,
        uses_final_decode_device_hidden: hidden_dim.is_some(),
        covers_full_vocabulary: false,
        hidden_dim: match hidden_dim {
            Some(dim) => dim,
            None => 0,
        },
        vocab_size: 0,
        logits_evaluated: 0,
        top_token_id: None,
        sampled_token_id: None,
        sample_top_k: None,
        sample_top_p_bits: None,
        argmax_kernel_backend: None,
        sampler_kernel_backend: None,
        passed,
        blocker,
    }
}

/// A sample that carries the numbers of a score.
pub open spec fn scored_sample_ok(
    sample: RealFullSchedulerTerminalLmHeadSample,
    score: RealLmHeadChunkScoreForHidden,
    backends: LmHeadBackends,
) -> bool {
    let passed = completion_gate(score, backends);
    &&& sample.status@ == (if passed {
        "sampled"@
    } else {
        "blocked"@
    })
    &&& sample.scope@
        == "sample from the scheduler final-normed decode device hidden row through the full-resident BF16 lm_head sampler"@
    &&& sample.uses_final_decode_device_hidden
    &&& sample.covers_full_vocabulary == score.covers_full_vocabulary
    &&& sample.hidden_dim == score.hidden_dim
    &&& sample.vocab_size == score.vocab_size
    &&& sample.logits_evaluated == score.logits_evaluated
    &&& sample.top_token_id == Some(score.top_token_id)
    &&& sample.sampled_token_id == Some(score.sampled_token_id)
    &&& sample.sample_top_k == Some(score.sample_top_k)
    &&& sample.sample_top_p_bits == Some(score.sample_top_p_bits)
    &&& sample.argmax_kernel_backend is Some
    &&& sample.argmax_kernel_backend->Some_0@ == score.argmax_kernel_backend@
    &&& sample.sampler_kernel_backend is Some
    &&& sample.sampler_kernel_backend->Some_0@ == score.sampler_kernel_backend@
    &&& sample.passed == passed
    &&& sample.blocker == (if passed {
        None
    } else {
        Some(TerminalBlocker::GateRejected)
    })
}

/// The terminal sample. `hidden_dim` is the width of the final decode row,
/// where it is on the device; `outcome` is its score, or what normalising or
/// scoring it failed with.
pub fn scheduler_terminal_lm_head_sample(
    hidden_dim: Option<usize>,
    outcome: Result<RealLmHeadChunkScoreForHidden, String>,
    backends: &LmHeadBackends,
) -> (sample: RealFullSchedulerTerminalLmHeadSample)
    ensures
        match (hidden_dim, outcome) {
            (None, _) => empty_sample_ok(
                sample,
                "not-run"@,
                "sample from the scheduler final decode device hidden row through the full-resident BF16 lm_head sampler"@,
                None,
                false,
            ) && sample.blocker == Some(TerminalBlocker::HiddenUnavailable),
            (Some(dim), Err(error)) => empty_sample_ok(
                sample,
                "blocked"@,
                "sample from the scheduler final-normed decode device hidden row through the full-resident BF16 lm_head sampler"@,
                Some(dim),
                false,
            ) && sample.blocker == Some(TerminalBlocker::Failed(error)),
            (Some(_), Ok(score)) => scored_sample_ok(sample, score, *backends),
        },
{
    if hidden_dim.is_none() {
        return empty_sample(
            "not-run",
            "sample from the scheduler final decode device hidden row through the full-resident BF16 lm_head sampler",
            None,
            false,
            Some(TerminalBlocker::HiddenUnavailable),
        );
    }
    match outcome {
        Err(error) => empty_sample(
            "blocked",
            "sample from the scheduler final-normed decode device hidden row through the full-resident BF16 lm_head sampler",
            hidden_dim,
            false,
            Some(TerminalBlocker::Failed(error)),
        ),
        Ok(score) => {
            let passed: bool = scheduler_terminal_lm_head_completion_gate(&score, backends);
            RealFullSchedulerTerminalLmHeadSample {
                status: if passed {
                    "sampled"
                } else {
                    "blocked"
                },
                scope: "sample from the scheduler final-normed decode device hidden row through the full-resident BF16 lm_head sampler",
                uses_final_decode_device_hidden: true,
                covers_full_vocabulary: score.covers_full_vocabulary,
                hidden_dim: score.hidden_dim,
                vocab_size: score.vocab_size,
                logits_evaluated: score.logits_evaluated,
                top_token_id: Some(score.top_token_id),
                sampled_token_id: Some(score.sampled_token_id),
                sample_top_k: Some(score.sample_top_k),
                sample_top_p_bits: Some(score.sample_top_p_bits),
                argmax_kernel_backend: Some(score.argmax_kernel_backend),
                sampler_kernel_backend: Some(score.sampler_kernel_backend),
                passed,
                blocker: if passed {
                    None
                } else {
                    Some(TerminalBlocker::GateRejected)
                },
            }
        },
    }
}

/// The placeholder for a sample that the retained target batch replaces.
pub fn scheduler_deferred_target_lm_head_sample(hidden_dim: Option<usize>) -> (sample:
    RealFullSchedulerTerminalLmHeadSample)
    ensures
        match hidden_dim {
            None => empty_sample_ok(
                sample,
                "not-run"@,
                "defer speculative terminal sampling to the retained target hidden batch"@,
                None,
                false,
            ) && sample.blocker == Some(TerminalBlocker::DeferredHiddenUnavailable),
            Some(dim) => empty_sample_ok(
                sample,
                "deferred-target-batch"@,
                "defer speculative terminal sampling to the retained target hidden batch"@,
                Some(dim),
                true,
            ) && sample.blocker is None,
        },
{
    if hidden_dim.is_none() {
        empty_sample(
            "not-run",
            "defer speculative terminal sampling to the retained target hidden batch",
            None,
            false,
            Some(TerminalBlocker::DeferredHiddenUnavailable),
        )
    } else {
        empty_sample(
            "deferred-target-batch",
            "defer speculative terminal sampling to the retained target hidden batch",
            hidden_dim,
            true,
            None,
        )
    }
}

/// Whether terminal sampling is left to the retained target batch.
pub fn scheduler_should_defer_target_lm_head_sample(
    retain_final_target_device_hidden: bool,
    mtp_rows: usize,
    defer_terminal_lm_head_sample: bool,
) -> (defer: bool)
    ensures
        defer == (retain_final_target_device_hidden && (mtp_rows > 0
            || defer_terminal_lm_head_sample)),
{
    retain_final_target_device_hidden && (mtp_rows > 0 || defer_terminal_lm_head_sample)
}

/// The status of an execution.
pub open spec fn completion_status(
    sample: RealFullSchedulerTerminalLmHeadSample,
    attention_complete: bool,
) -> Seq<char> {
    if sample.passed && attention_complete {
        "admitted-scheduler-terminal-lm-head-sampled"@
    } else if sample.uses_final_decode_device_hidden {
        "admitted-scheduler-terminal-lm-head-blocked"@
    } else {
        "admitted-scheduler-dry-run"@
    }
}

/// The status of an execution.
pub fn scheduler_execution_status_for_completion(
    sample: &RealFullSchedulerTerminalLmHeadSample,
    full_context_device_attention_complete: bool,
) -> (status: &'static str)
    ensures
        status@ == completion_status(*sample, full_context_device_attention_complete),
{
    if sample.passed && full_context_device_attention_complete {
        "admitted-scheduler-terminal-lm-head-sampled"
    } else if sample.uses_final_decode_device_hidden {
        "admitted-scheduler-terminal-lm-head-blocked"
    } else {
        "admitted-scheduler-dry-run"
    }
}

/// The name of the final norm weight and the bits of its epsilon.
pub open spec fn final_norm_name(facts: ModelFacts) -> Seq<char> {
    if facts.model_type@ == "deepseek_v4"@ {
        "norm.weight"@
    } else {
        "model.norm.weight"@
    }
}

/// The name of the final norm weight and the bits of its epsilon: the root
/// name and the checkpoint's epsilon for DeepSeek V4.
pub fn scheduler_final_norm_spec(facts: &ModelFacts) -> (norm: (&'static str, u32))
    ensures
        norm.0@ == final_norm_name(*facts),
        norm.1 == (if facts.model_type@ == "deepseek_v4"@ {
            facts.rms_norm_eps_bits
        } else {
            REAL_FULL_FINAL_NORM_EPS_BITS
        }),
{
    if same_text(facts.model_type.as_str(), "deepseek_v4") {
        ("norm.weight", facts.rms_norm_eps_bits)
    } else {
        ("model.norm.weight", REAL_FULL_FINAL_NORM_EPS_BITS)
    }
}

/// Why the final norm weight cannot be used.
#[derive(Clone, Copy, Debug, PartialEq, Eq, Structural)]
pub enum FinalNormError {
    Missing,
    Mismatch { tensor: usize },
}

impl FinalNormError {
    /// What is said of a final norm weight that cannot be used over rows of
    /// `hidden_dim` values; the last two texts name an element type and a role
    /// that are not told apart.
    pub open spec fn text(
        self,
        catalog: TensorCatalog,
        hidden_dim: usize,
        other_dtype: Seq<char>,
        other_role: Seq<char>,
    ) -> Seq<char> {
        match self {
            FinalNormError::Missing =>
                "scheduler terminal sampling requires "@ + final_norm_name(catalog.facts),
            FinalNormError::Mismatch { tensor } =>
                "scheduler terminal final_norm tensor mismatch: name="@
                + catalog.tensors@[tensor as int].name@ + " dtype="@
                + dtype_text(catalog.tensors@[tensor as int].dtype, other_dtype) + " role="@
                + role_text(catalog.tensors@[tensor as int].role, other_role) + " shape="@
                + list_text(catalog.tensors@[tensor as int].shape@) + " expected BF16 Norm ["@
                + decimal(hidden_dim as nat) + "]"@,
        }
    }

    pub fn message(
        &self,
        catalog: &TensorCatalog,
        hidden_dim: usize,
        other_dtype: &str,
        other_role: &str,
    ) -> (out: String)
        requires
            *self matches FinalNormError::Mismatch { tensor } ==> tensor < catalog.tensors@.len(),
        ensures
            out@ == self.text(*catalog, hidden_dim, other_dtype@, other_role@),
    {
        match self {
            FinalNormError::Missing => {
                let mut out: String = "scheduler terminal sampling requires ".to_owned();
                out.append(scheduler_final_norm_spec(&catalog.facts).0);
                out
            },
            FinalNormError::Mismatch { tensor } => {
                let mut out: String =
                    "scheduler terminal final_norm tensor mismatch: name=".to_owned();
                out.append(catalog.tensors[*tensor].name.as_str());
                out.append(" dtype=");
                out.append(dtype_label(catalog.tensors[*tensor].dtype, other_dtype));
                out.append(" role=");
                out.append(role_label(catalog.tensors[*tensor].role, other_role));
                out.append(" shape=");
                append_list(&mut out, catalog.tensors[*tensor].shape.as_slice());
                out.append(" expected BF16 Norm [");
                append_size(&mut out, hidden_dim);
                out.append("]");
                out
            },
        }
    }
}

/// The final norm weight fits a row of `hidden_dim` values.
pub open spec fn final_norm_fits(catalog: TensorCatalog, hidden_dim: usize, i: int) -> bool {
    &&& catalog.tensors@[i].dtype == DType::Bf16
    &&& catalog.tensors@[i].role == TensorRole::Norm
    &&& catalog.tensors@[i].shape@ == seq![hidden_dim]
}

/// The place of the final norm weight, which must be a BF16 norm over rows of
/// `hidden_dim` values.
pub fn scheduler_final_norm_tensor(catalog: &TensorCatalog, hidden_dim: usize) -> (result: Result<
    usize,
    FinalNormError,
>)
    ensures
        match result {
            Ok(i) => first_named(catalog.tensors@, final_norm_name(catalog.facts), i as int)
                && final_norm_fits(*catalog, hidden_dim, i as int),
            Err(FinalNormError::Missing) => forall|j: int|
                0 <= j < catalog.tensors@.len() ==> (#[trigger] catalog.tensors@[j]).name@
                    != final_norm_name(catalog.facts),
            Err(FinalNormError::Mismatch { tensor }) => first_named(
                catalog.tensors@,
                final_norm_name(catalog.facts),
                tensor as int,
            ) && !final_norm_fits(*catalog, hidden_dim, tensor as int),
        },
{
    let norm = scheduler_final_norm_spec(&catalog.facts);
    let place: usize = match find_tensor(&catalog.tensors, norm.0) {
        Some(i) => i,
        None => return Err(FinalNormError::Missing),
    };
    let expected: [usize; 1] = [hidden_dim];
    assert(expected@ =~= seq![hidden_dim]);
    let tensor = &catalog.tensors[place];
    if tensor.dtype == DType::Bf16 && tensor.role == TensorRole::Norm && same_shape(
        tensor.shape.as_slice(),
        expected.as_slice(),
    ) {
        Ok(place)
    } else {
        Err(FinalNormError::Mismatch { tensor: place })
    }
}

/// A deferred placeholder never counts as sampled by itself: its status is
/// not the sampled one and it names no token.
pub proof fn law_deferred_sample_names_no_token(
    sample: RealFullSchedulerTerminalLmHeadSample,
    dim: usize,
)
    requires
        empty_sample_ok(
            sample,
            "deferred-target-batch"@,
            "defer speculative terminal sampling to the retained target hidden batch"@,
            Some(dim),
            true,
        ),
    ensures
        sample.sampled_token_id is None,
        sample.status@ != "sampled"@,
{
    reveal_strlit("deferred-target-batch");
    reveal_strlit("sampled");
    assert("deferred-target-batch"@.len() != "sampled"@.len());
}

} // verus!
