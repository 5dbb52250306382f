//! The shape of one scheduler request: which rows it prefills, decodes and
//! verifies, and where they stand in the sequence.
use vstd::prelude::*;

use crate::execution::chunks::{
    scheduler_prefill_chunk_token_counts_for_rows, prefill_counts, saturating_sum,
};
use crate::text::{append_size, decimal};

verus! {

/// Row counts beyond this need the bounded long-prefill wavefront.
pub const BOUNDED_LONG_PREFILL_ROWS: usize = 8_192;

/// Rows of one page of the rolling sparse accumulator.
pub const ROLLING_SPARSE_ACCUMULATOR_PAGE_ROWS: usize = 2_048;

/// One scheduler request.
#[derive(Clone, Debug)]
pub struct RealFullSchedulerExecutionShape {
    pub request_id: String,
    pub sequence_id: String,
    pub placement_version: String,
    pub prefix_tokens: usize,
    pub prefill_tokens: usize,
    pub prefill_chunk_tokens: usize,
    pub decode_rows: usize,
    pub mtp_rows: usize,
    pub mtp_accepted_rows: usize,
    pub prefill_token_ids: Option<Vec<usize>>,
    pub decode_token_ids: Option<Vec<usize>>,
}

/// Names and row counts of the preflight request.
#[derive(Clone, Debug)]
pub struct PreflightProfile {
    pub request_id: String,
    pub sequence_id: String,
    pub prefill_token_start: usize,
    pub prefill_rows: usize,
    pub decode_rows: usize,
    pub mtp_rows: usize,
    pub mtp_accepted_rows: usize,
}

/// Why a request shape is refused.
#[derive(Clone, Copy, Debug, PartialEq, Eq, Structural)]
pub enum ShapeError {
    ZeroChunk,
    NoDecodeRow,
    AcceptedExceedsMtp,
    PromptTokenCount { ids: usize, prefill_tokens: usize },
    DecodeTokenCount { ids: usize, decode_rows: usize, target_rows: usize },
}

impl ShapeError {
    pub open spec fn text(self) -> Seq<char> {
        match self {
            ShapeError::ZeroChunk =>
                "real-full scheduler execution requires a nonzero prefill chunk size"@,
            ShapeError::NoDecodeRow =>
                "real-full scheduler execution requires at least one decode row"@,
            ShapeError::AcceptedExceedsMtp =>
                "real-full scheduler execution accepted MTP rows exceed MTP rows"@,
            ShapeError::PromptTokenCount { ids, prefill_tokens } =>
                "real-full scheduler execution prompt token id count "@ + decimal(ids as nat)
                + " does not match prefill tokens "@ + decimal(prefill_tokens as nat),
            ShapeError::DecodeTokenCount { ids, decode_rows, target_rows } =>
                "real-full scheduler execution token id count "@ + decimal(ids as nat)
                + " does not match decode rows "@ + decimal(decode_rows as nat)
                + " or decode+MTP rows "@ + decimal(target_rows as nat),
        }
    }

    pub fn message(&self) -> (out: String)
        ensures
            out@ == self.text(),
    {
        match *self {
            ShapeError::ZeroChunk => {
                "real-full scheduler execution requires a nonzero prefill chunk size".to_owned()
            },
            ShapeError::NoDecodeRow => {
                "real-full scheduler execution requires at least one decode row".to_owned()
            },
            ShapeError::AcceptedExceedsMtp => {
                "real-full scheduler execution accepted MTP rows exceed MTP rows".to_owned()
            },
            ShapeError::PromptTokenCount { ids, prefill_tokens } => {
                let mut out: String =
                    "real-full scheduler execution prompt token id count ".to_owned();
                append_size(&mut out, ids);
                out.append(" does not match prefill tokens ");
                append_size(&mut out, prefill_tokens);
                out
            },
            ShapeError::DecodeTokenCount { ids, decode_rows, target_rows } => {
                let mut out: String = "real-full scheduler execution token id count ".to_owned();
                append_size(&mut out, ids);
                out.append(" does not match decode rows ");
                append_size(&mut out, decode_rows);
                out.append(" or decode+MTP rows ");
                append_size(&mut out, target_rows);
                out
            },
        }
    }
}

impl RealFullSchedulerExecutionShape {
    /// Prefix, prefill, decode and verify rows together.
    pub open spec fn span(self) -> int {
        self.prefix_tokens + self.prefill_tokens + self.decode_rows + self.mtp_rows
    }

    /// The decode rows and the verify rows that join the last prefill chunk.
    pub open spec fn terminal_rows(self) -> int {
        saturating_sum(self.decode_rows as int, self.mtp_rows as int)
    }

    /// All rows of this request that pass the sparse layers.
    pub open spec fn sparse_rows(self) -> int {
        saturating_sum(
            saturating_sum(self.prefill_tokens as int, self.decode_rows as int),
            self.mtp_rows as int,
        )
    }

    /// The row counts of the prefill chunks.
    pub open spec fn counts(self) -> Seq<usize> {
        prefill_counts(
            self.prefill_tokens as int,
            self.prefill_chunk_tokens as int,
            self.terminal_rows(),
        )
    }

    /// Token ids were given for the decode rows and all verify rows.
    pub open spec fn has_real_mtp_tokens(self) -> bool {
        &&& self.mtp_rows > 0
        &&& self.decode_token_ids is Some
        &&& self.decode_token_ids->Some_0@.len() == self.decode_rows + self.mtp_rows
    }

    /// The preflight request.
    pub fn preflight(profile: &PreflightProfile) -> (shape: Self)
        requires
            profile.prefill_token_start + profile.prefill_rows <= usize::MAX,
        ensures
            shape.request_id@ == profile.request_id@,
            shape.sequence_id@ == profile.sequence_id@,
            shape.placement_version@ == "real-full-admitted-scheduler"@,
            shape.prefix_tokens == 0,
            shape.prefill_tokens == profile.prefill_token_start + profile.prefill_rows,
            shape.prefill_chunk_tokens == profile.prefill_rows,
            shape.decode_rows == profile.decode_rows,
            shape.mtp_rows == profile.mtp_rows,
            shape.mtp_accepted_rows == profile.mtp_accepted_rows,
            shape.prefill_token_ids is None,
            shape.decode_token_ids is None,
    {
        RealFullSchedulerExecutionShape {
            request_id: profile.request_id.clone(),
            sequence_id: profile.sequence_id.clone(),
            placement_version: "real-full-admitted-scheduler".to_owned(),
            prefix_tokens: 0,
            prefill_tokens: profile.prefill_token_start + profile.prefill_rows,
            prefill_chunk_tokens: profile.prefill_rows,
            decode_rows: profile.decode_rows,
            mtp_rows: profile.mtp_rows,
            mtp_accepted_rows: profile.mtp_accepted_rows,
            prefill_token_ids: None,
            decode_token_ids: None,
        }
    }

    pub fn prefill_token_start(&self) -> (r: usize)
        ensures
            r == self.prefix_tokens,
    {
        self.prefix_tokens
    }

    pub fn decode_token_start(&self) -> (r: usize)
        requires
            self.prefix_tokens + self.prefill_tokens <= usize::MAX,
        ensures
            r == self.prefix_tokens + self.prefill_tokens,
    {
        self.prefix_tokens + self.prefill_tokens
    }

    pub fn mtp_token_start(&self) -> (r: usize)
        requires
            self.prefix_tokens + self.prefill_tokens + self.decode_rows <= usize::MAX,
        ensures
            r == self.prefix_tokens + self.prefill_tokens + self.decode_rows,
    {
        self.decode_token_start() + self.decode_rows
    }

    pub fn reservation_tokens(&self) -> (r: usize)
        requires
            self.span() <= usize::MAX,
        ensures
            r == self.span(),
    {
        self.prefix_tokens + self.prefill_tokens + self.decode_rows + self.mtp_rows
    }

    /// The rows that one sparse batch graph has to hold.
    pub fn sparse_batch_graph_bucket(&self) -> (rows: usize)
        requires
            self.prefill_chunk_tokens + self.decode_rows + self.mtp_rows <= usize::MAX,
        ensures
            rows == self.prefill_chunk_tokens + self.decode_rows + self.mtp_rows,
    {
        self.prefill_chunk_tokens + self.decode_rows + self.mtp_rows
    }

    /// How many verify rows are accepted without sampling: none is decided
    /// where token ids were given for all of them.
    pub fn mtp_resolution_accepted_rows(&self) -> (rows: Option<usize>)
        requires
            self.decode_rows + self.mtp_rows <= usize::MAX,
        ensures
            rows == (if self.has_real_mtp_tokens() {
                None
            } else {
                Some(self.mtp_accepted_rows)
            }),
    {
        let decided: bool = match &self.decode_token_ids {
            Some(ids) => self.mtp_rows > 0 && ids.len() == self.decode_rows + self.mtp_rows,
            None => false,
        };
        if decided {
            None
        } else {
            Some(self.mtp_accepted_rows)
        }
    }
}

/// What is wrong with the row counts of a shape, if anything.
pub open spec fn shape_error(shape: RealFullSchedulerExecutionShape) -> Option<ShapeError> {
    if shape.prefill_chunk_tokens == 0 {
        Some(ShapeError::ZeroChunk)
    } else if shape.decode_rows == 0 {
        Some(ShapeError::NoDecodeRow)
    } else if shape.mtp_accepted_rows > shape.mtp_rows {
        Some(ShapeError::AcceptedExceedsMtp)
    } else {
        None
    }
}

/// Checks the row counts of a shape.
pub fn validate_scheduler_execution_shape(shape: &RealFullSchedulerExecutionShape) -> (result:
    Result<(), ShapeError>)
    ensures
        match shape_error(*shape) {
            Some(e) => result == Err::<(), ShapeError>(e),
            None => result == Ok::<(), ShapeError>(()),
        },
{
    if shape.prefill_chunk_tokens == 0 {
        return Err(ShapeError::ZeroChunk);
    }
    if shape.decode_rows == 0 {
        return Err(ShapeError::NoDecodeRow);
    }
    if shape.mtp_accepted_rows > shape.mtp_rows {
        return Err(ShapeError::AcceptedExceedsMtp);
    }
    Ok(())
}

/// What is wrong with the token ids of a shape, if anything.
pub open spec fn token_id_error(shape: RealFullSchedulerExecutionShape) -> Option<ShapeError> {
    let target_rows = shape.decode_rows + shape.mtp_rows;
    if shape.prefill_token_ids is Some && shape.prefill_token_ids->Some_0@.len()
        != shape.prefill_tokens {
        Some(
            ShapeError::PromptTokenCount {
                ids: shape.prefill_token_ids->Some_0@.len() as usize,
                prefill_tokens: shape.prefill_tokens,
            },
        )
    } else if shape.decode_token_ids is Some && shape.decode_token_ids->Some_0@.len()
        != shape.decode_rows && shape.decode_token_ids->Some_0@.len() != target_rows {
        Some(
            ShapeError::DecodeTokenCount {
                ids: shape.decode_token_ids->Some_0@.len() as usize,
                decode_rows: shape.decode_rows,
                target_rows: target_rows as usize,
            },
        )
    } else {
        None
    }
}

/// Checks that token ids, where given, match the row counts.
pub fn validate_scheduler_token_ids(shape: &RealFullSchedulerExecutionShape) -> (result: Result<
    (),
    ShapeError,
>)
    requires
        shape.decode_rows + shape.mtp_rows <= usize::MAX,
    ensures
        match token_id_error(*shape) {
            Some(e) => result == Err::<(), ShapeError>(e),
            None => result == Ok::<(), ShapeError>(()),
        },
{
    match &shape.prefill_token_ids {
        Some(ids) => {
            if ids.len() != shape.prefill_tokens {
                return Err(
                    ShapeError::PromptTokenCount {
                        ids: ids.len(),
                        prefill_tokens: shape.prefill_tokens,
                    },
                );
            }
        },
        None => {},
    }
    let target_rows: usize = shape.decode_rows + shape.mtp_rows;
    match &shape.decode_token_ids {
        Some(ids) => {
            if ids.len() != shape.decode_rows && ids.len() != target_rows {
                return Err(
                    ShapeError::DecodeTokenCount {
                        ids: ids.len(),
                        decode_rows: shape.decode_rows,
                        target_rows,
                    },
                );
            }
        },
        None => {},
    }
    Ok(())
}

/// The row counts of the prefill chunks of a request.
pub fn scheduler_prefill_chunk_token_counts(
    shape: &RealFullSchedulerExecutionShape,
    chunk_tokens: usize,
) -> (counts: Vec<usize>)
    ensures
        counts@ == prefill_counts(
            shape.prefill_tokens as int,
            chunk_tokens as int,
            shape.terminal_rows(),
        ),
{
    scheduler_prefill_chunk_token_counts_for_rows(
        shape.prefill_tokens,
        chunk_tokens,
        shape.decode_rows.saturating_add(shape.mtp_rows),
    )
}

/// The number of prefill chunks of a request.
pub fn scheduler_prefill_chunk_count(shape: &RealFullSchedulerExecutionShape) -> (count: usize)
    ensures
        count == shape.counts().len(),
{
    scheduler_prefill_chunk_token_counts(shape, shape.prefill_chunk_tokens).len()
}

/// Whether a row count needs the bounded long-prefill wavefront.
pub fn bounded_long_prefill_wavefront_required(rows: usize) -> (required: bool)
    ensures
        required == (rows > BOUNDED_LONG_PREFILL_ROWS),
{
    rows > BOUNDED_LONG_PREFILL_ROWS
}

/// How many sparse dispatches one layer makes for a request: its physical
/// prefill chunks, or the rolling packs where the row count has them and the
/// request is not bounded.
pub open spec fn sparse_iterations(
    shape: RealFullSchedulerExecutionShape,
    rolling_dispatches: Option<usize>,
) -> int {
    let chunks = shape.counts().len() as int;
    if chunks >= 2 && shape.sparse_rows() > BOUNDED_LONG_PREFILL_ROWS {
        chunks
    } else if chunks >= 2 && rolling_dispatches is Some {
        rolling_dispatches->Some_0 as int
    } else if chunks > 0 {
        chunks
    } else if shape.decode_rows > 0 || shape.mtp_rows > 0 {
        1
    } else {
        0
    }
}

/// How many sparse dispatches one layer makes for a request.
/// `rolling_dispatches` is the number of rolling packs of its row count, where
/// the row count is packed at all.
pub fn scheduler_sparse_tcp_iterations_per_sparse_layer(
    shape: &RealFullSchedulerExecutionShape,
    rolling_dispatches: Option<usize>,
) -> (iterations: usize)
    ensures
        iterations == sparse_iterations(*shape, rolling_dispatches),
{
    let prefill_chunks: usize = scheduler_prefill_chunk_count(shape);
    let sparse_rows: usize = shape.prefill_tokens.saturating_add(shape.decode_rows).saturating_add(
        shape.mtp_rows,
    );
    if prefill_chunks >= 2 {
        if bounded_long_prefill_wavefront_required(sparse_rows) {
            return prefill_chunks;
        }
        if let Some(dispatches) = rolling_dispatches {
            return dispatches;
        }
    }
    if prefill_chunks > 0 {
        prefill_chunks
    } else if shape.decode_rows > 0 || shape.mtp_rows > 0 {
        1
    } else {
        0
    }
}

/// A chunk size held between one row and one accumulator page.
pub open spec fn page_capped(planned: int) -> int {
    if planned < 1 {
        1
    } else if planned > ROLLING_SPARSE_ACCUMULATOR_PAGE_ROWS {
        ROLLING_SPARSE_ACCUMULATOR_PAGE_ROWS as int
    } else {
        planned
    }
}

/// The largest power of two that does not exceed the planned chunk size, held
/// between one row and one accumulator page.
pub open spec fn aligned_chunk_tokens(planned: int) -> int {
    let capped = page_capped(planned);
    if capped >= 2048 {
        2048
    } else if capped >= 1024 {
        1024
    } else if capped >= 512 {
        512
    } else if capped >= 256 {
        256
    } else if capped >= 128 {
        128
    } else if capped >= 64 {
        64
    } else if capped >= 32 {
        32
    } else if capped >= 16 {
        16
    } else if capped >= 8 {
        8
    } else if capped >= 4 {
        4
    } else if capped >= 2 {
        2
    } else {
        1
    }
}

/// The chunk size with which every chunk frees whole parts of accumulator
/// pages.
pub fn rolling_sparse_reclaim_aligned_chunk_tokens(planned_chunk_tokens: usize) -> (aligned: usize)
    ensures
        aligned == aligned_chunk_tokens(planned_chunk_tokens as int),
{
    let capped: usize = if planned_chunk_tokens < 1 {
        1
    } else if planned_chunk_tokens > ROLLING_SPARSE_ACCUMULATOR_PAGE_ROWS {
        ROLLING_SPARSE_ACCUMULATOR_PAGE_ROWS
    } else {
        planned_chunk_tokens
    };
    let mut aligned: usize = ROLLING_SPARSE_ACCUMULATOR_PAGE_ROWS;
    while aligned > capped
        invariant
            1 <= capped <= ROLLING_SPARSE_ACCUMULATOR_PAGE_ROWS,
            capped < 2 * aligned,
            aligned == 2048 || aligned == 1024 || aligned == 512 || aligned == 256 || aligned == 128
                || aligned == 64 || aligned == 32 || aligned == 16 || aligned == 8 || aligned == 4
                || aligned == 2 || aligned == 1,
        decreases aligned,
    {
        aligned = aligned / 2;
    }
    aligned
}

/// An aligned chunk divides the accumulator page, is no larger than planned
/// (but for a planned size of zero), and its double is larger than planned or
/// than the page.
pub proof fn law_aligned_chunks_divide_pages(planned: int)
    ensures
        ROLLING_SPARSE_ACCUMULATOR_PAGE_ROWS as int % aligned_chunk_tokens(planned) == 0,
        1 <= aligned_chunk_tokens(planned) <= page_capped(planned) < 2 * aligned_chunk_tokens(
            planned,
        ),
{
    assert(2048int % 2048 == 0 && 2048int % 1024 == 0 && 2048int % 512 == 0 && 2048int % 256 == 0);
    assert(2048int % 128 == 0 && 2048int % 64 == 0 && 2048int % 32 == 0 && 2048int % 16 == 0);
    assert(2048int % 8 == 0 && 2048int % 4 == 0 && 2048int % 2 == 0 && 2048int % 1 == 0);
    let aligned = aligned_chunk_tokens(planned);
    assert(aligned == 2048 || aligned == 1024 || aligned == 512 || aligned == 256 || aligned == 128
        || aligned == 64 || aligned == 32 || aligned == 16 || aligned == 8 || aligned == 4
        || aligned == 2 || aligned == 1);
}

} // verus!
