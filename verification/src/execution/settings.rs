//! What the timing and validation settings of the environment mean.
use vstd::prelude::*;

use crate::model::ModelFacts;
use crate::text::same_text;

verus! {

/// The text without the white space around it.
pub uninterp spec fn trimmed(text: Seq<char>) -> Seq<char>;

/// Calls `str::trim` of the standard library. The contract names its result,
/// the text without leading and trailing white space, without saying which
/// characters are white space.
#[verifier::external_body]
fn trim_text(text: &str) -> (out: String)
    ensures
        out@ == trimmed(text@),
{
    text.trim().to_owned()
}

/// The lower-case letter of an ASCII letter; another character is kept.
pub open spec fn lower_char(c: char) -> char {
    if 'A' <= c <= 'Z' {
        ((c as u32) + 32) as char
    } else {
        c
    }
}

/// The text with every ASCII letter in lower case.
pub open spec fn lowered(text: Seq<char>) -> Seq<char> {
    Seq::new(text.len(), |i: int| lower_char(text[i]))
}

/// Calls `str::to_ascii_lowercase` of the standard library, which maps the
/// ASCII letters A to Z to a to z and keeps every other character.
#[verifier::external_body]
fn lower_text(text: &str) -> (out: String)
    ensures
        out@ == lowered(text@),
{
    text.to_ascii_lowercase()
}

/// The lowered text switches timing on.
pub open spec fn says_on(lower: Seq<char>) -> bool {
    lower == "1"@ || lower == "true"@ || lower == "yes"@ || lower == "on"@
}

/// Whether a trimmed setting switches timing on.
pub fn timing_word_enabled(word: &str) -> (enabled: bool)
    ensures
        enabled == says_on(lowered(word@)),
{
    let lower: String = lower_text(word);
    same_text(lower.as_str(), "1") || same_text(lower.as_str(), "true") || same_text(
        lower.as_str(),
        "yes",
    ) || same_text(lower.as_str(), "on")
}

/// The setting is there and switches timing on.
pub open spec fn timing_on(setting: Option<&str>) -> bool {
    setting is Some && says_on(lowered(trimmed(setting->Some_0@)))
}

/// Whether a setting of the environment switches timing on.
pub fn scheduler_execution_timing_env_enabled(setting: Option<&str>) -> (enabled: bool)
    ensures
        enabled == timing_on(setting),
{
    match setting {
        Some(value) => {
            let word: String = trim_text(value);
            timing_word_enabled(word.as_str())
        },
        None => false,
    }
}

/// Whether timing is collected: either setting switches it on.
pub fn scheduler_execution_timing_enabled(timing: Option<&str>, summary: Option<&str>) -> (enabled:
    bool)
    ensures
        enabled == (timing_on(timing) || timing_on(summary)),
{
    scheduler_execution_timing_env_enabled(timing) || scheduler_execution_timing_env_enabled(
        summary,
    )
}

/// Whether timing is reported step by step.
pub fn scheduler_execution_verbose_timing_enabled(timing: Option<&str>) -> (enabled: bool)
    ensures
        enabled == timing_on(timing),
{
    scheduler_execution_timing_env_enabled(timing)
}

/// The trimmed text switches validation off.
pub open spec fn says_off(word: Seq<char>) -> bool {
    word == ""@ || word == "0"@ || lowered(word) == "false"@ || lowered(word) == "off"@
}

/// Whether a trimmed setting leaves validation on.
pub fn validation_word_enabled(word: &str) -> (enabled: bool)
    ensures
        enabled == !says_off(word@),
{
    let lower: String = lower_text(word);
    !(same_text(word, "") || same_text(word, "0") || same_text(lower.as_str(), "false")
        || same_text(lower.as_str(), "off"))
}

/// Whether terminal samples are validated: any setting does but an empty one,
/// zero, false and off.
pub fn scheduler_terminal_sample_validate_enabled(setting: Option<&str>) -> (enabled: bool)
    ensures
        enabled == (setting is Some && !says_off(trimmed(setting->Some_0@))),
{
    match setting {
        Some(value) => {
            let word: String = trim_text(value);
            validation_word_enabled(word.as_str())
        },
        None => false,
    }
}

/// Where the times of a layer are added up: in front of the sparse layers or
/// in them.
#[derive(Clone, Copy, Debug, PartialEq, Eq, Structural)]
pub struct SchedulerExecutionStageTiming {
    pub first_sparse_layer: usize,
}

impl SchedulerExecutionStageTiming {
    pub fn new(facts: &ModelFacts) -> (timing: Self)
        ensures
            timing.first_sparse_layer == facts.first_k_dense_replace,
    {
        SchedulerExecutionStageTiming { first_sparse_layer: facts.first_k_dense_replace }
    }

    /// Zero for a dense layer, one for a sparse one.
    pub fn layer_class(&self, layer_id: usize) -> (class: usize)
        ensures
            class == (if layer_id >= self.first_sparse_layer {
                1int
            } else {
                0
            }),
    {
        if layer_id >= self.first_sparse_layer {
            1
        } else {
            0
        }
    }
}

/// What a scan of 16-bit brain floating-point values found: how many there
/// are, how many are finite and how many nonzero, and the first that is not
/// finite with its bit pattern.
#[derive(Clone, Copy, Debug, PartialEq, Eq)]
pub struct Bf16Scan {
    pub values: usize,
    pub finite: usize,
    pub nonzero: usize,
    pub first_nonfinite: Option<(usize, u16)>,
}

/// The bit pattern of value `i` of little-endian bytes.
pub open spec fn bf16_bits(bytes: Seq<u8>, i: int) -> int {
    bytes[2 * i] + 256 * bytes[2 * i + 1]
}

/// The exponent is not all ones.
pub open spec fn bf16_finite(bits: int) -> bool {
    bits % 0x8000 < 0x7F80
}

/// The value is neither zero nor minus zero.
pub open spec fn bf16_nonzero(bits: int) -> bool {
    bits % 0x8000 != 0
}

/// How many of the first `n` values have a property.
pub open spec fn bf16_count(bytes: Seq<u8>, n: int, property: spec_fn(int) -> bool) -> int
    decreases n,
{
    if n <= 0 {
        0
    } else {
        bf16_count(bytes, n - 1, property) + (if property(bf16_bits(bytes, n - 1)) {
            1int
        } else {
            0
        })
    }
}

/// Scans the values of little-endian bytes; an odd last byte is left out.
pub fn scan_bf16_values(bytes: &[u8]) -> (scan: Bf16Scan)
    ensures
        scan.values == bytes@.len() / 2,
        scan.finite == bf16_count(bytes@, scan.values as int, |bits: int| bf16_finite(bits)),
        scan.nonzero == bf16_count(bytes@, scan.values as int, |bits: int| bf16_nonzero(bits)),
        match scan.first_nonfinite {
            Some((i, bits)) => {
                &&& i < scan.values
                &&& bits == bf16_bits(bytes@, i as int)
                &&& !bf16_finite(bits as int)
                &&& forall|k: int| 0 <= k < i ==> bf16_finite(#[trigger] bf16_bits(bytes@, k))
            },
            None => forall|k: int|
                0 <= k < scan.values ==> bf16_finite(#[trigger] bf16_bits(bytes@, k)),
        },
{
    let len: usize = bytes.len();
    let values: usize = len / 2;
    let mut finite: usize = 0;
    let mut nonzero: usize = 0;
    let mut first_nonfinite: Option<(usize, u16)> = None;
    let mut i: usize = 0;
    while i < values
        invariant
            i <= values,
            len == bytes@.len(),
            values == len / 2,
            finite <= i,
            nonzero <= i,
            finite == bf16_count(bytes@, i as int, |bits: int| bf16_finite(bits)),
            nonzero == bf16_count(bytes@, i as int, |bits: int| bf16_nonzero(bits)),
            match first_nonfinite {
                Some((at, bits)) => {
                    &&& at < i
                    &&& bits == bf16_bits(bytes@, at as int)
                    &&& !bf16_finite(bits as int)
                    &&& forall|k: int| 0 <= k < at ==> bf16_finite(#[trigger] bf16_bits(bytes@, k))
                },
                None => forall|k: int|
                    0 <= k < i ==> bf16_finite(#[trigger] bf16_bits(bytes@, k)),
            },
        decreases values - i,
    {
        let low: u16 = bytes[2 * i] as u16;
        let high: u16 = bytes[2 * i + 1] as u16;
        let bits: u16 = low + 256 * high;
        assert(bits == bf16_bits(bytes@, i as int));
        if bits % 0x8000 < 0x7F80 {
            finite = finite + 1;
        } else if first_nonfinite.is_none() {
            first_nonfinite = Some((i, bits));
        }
        if bits % 0x8000 != 0 {
            nonzero = nonzero + 1;
        }
        i = i + 1;
    }
    Bf16Scan { values, finite, nonzero, first_nonfinite }
}

} // verus!
