//! How the rows of a prefill are cut into chunks.
use vstd::prelude::*;

verus! {

/// The sum of a sequence of row counts.
pub open spec fn total(counts: Seq<usize>) -> int
    decreases counts.len(),
{
    if counts.len() == 0 {
        0
    } else {
        counts[0] + total(counts.drop_first())
    }
}

/// The sum of the first counts grows by the next count.
pub(crate) proof fn lemma_total_append(counts: Seq<usize>, n: int)
    requires
        0 <= n < counts.len(),
    ensures
        total(counts.take(n + 1)) == total(counts.take(n)) + counts[n],
        total(counts.take(n)) >= 0,
    decreases n,
{
    if n == 0 {
        assert(counts.take(1).drop_first() =~= Seq::<usize>::empty());
        assert(counts.take(0) =~= Seq::<usize>::empty());
        assert(total(Seq::<usize>::empty()) == 0);
    } else {
        let rest = counts.drop_first();
        lemma_total_append(rest, n - 1);
        assert(counts.take(n + 1).drop_first() =~= rest.take(n));
        assert(counts.take(n).drop_first() =~= rest.take(n - 1));
    }
}

/// Full chunks of `chunk` rows, then what is left.
pub open spec fn ordinary_counts(rows: int, chunk: int) -> Seq<usize>
    decreases rows,
{
    if rows <= 0 || chunk <= 0 {
        Seq::empty()
    } else if rows <= chunk {
        seq![rows as usize]
    } else {
        seq![chunk as usize] + ordinary_counts(rows - chunk, chunk)
    }
}

/// A chunk size of zero counts as one.
pub open spec fn chunk_size(chunk_tokens: int) -> int {
    if chunk_tokens < 1 {
        1
    } else {
        chunk_tokens
    }
}

/// The sum of two row counts, held at the largest representable count.
pub open spec fn saturating_sum(a: int, b: int) -> int {
    if a + b > usize::MAX {
        usize::MAX as int
    } else {
        a + b
    }
}

/// The last ordinary chunk and the terminal rows do not fit one chunk, though
/// the terminal rows leave room for at least one prefill row.
pub open spec fn rebalances(rows: int, chunk: int, terminal_rows: int) -> bool {
    &&& rows > 0
    &&& terminal_rows < chunk
    &&& saturating_sum(ordinary_counts(rows, chunk).last() as int, terminal_rows) > chunk
}

/// How many rows of an overflowing last chunk go with the terminal rows.
pub open spec fn balanced_final(overflowing: int, chunk: int, terminal_rows: int) -> int {
    let half = overflowing / 2;
    let capacity = chunk - terminal_rows;
    let fitting = if half < capacity {
        half
    } else {
        capacity
    };
    if fitting < 1 {
        1
    } else {
        fitting
    }
}

/// The row counts of the prefill chunks: ordinary chunks, whose last one is
/// split in two where it would not fit one chunk with the terminal rows.
pub open spec fn prefill_counts(rows: int, chunk_tokens: int, terminal_rows: int) -> Seq<usize> {
    let chunk = chunk_size(chunk_tokens);
    let ordinary = ordinary_counts(rows, chunk);
    if rebalances(rows, chunk, terminal_rows) {
        let overflowing = ordinary.last() as int;
        let kept = balanced_final(overflowing, chunk, terminal_rows);
        ordinary.drop_last().push((overflowing - kept) as usize).push(kept as usize)
    } else {
        ordinary
    }
}

/// The row counts of the prefill chunks for a row count, a chunk size and the
/// decode and verify rows that join the last chunk.
pub fn scheduler_prefill_chunk_token_counts_for_rows(
    prefill_tokens: usize,
    chunk_tokens: usize,
    terminal_rows: usize,
) -> (counts: Vec<usize>)
    ensures
        counts@ == prefill_counts(
            prefill_tokens as int,
            chunk_tokens as int,
            terminal_rows as int,
        ),
{
    let chunk: usize = if chunk_tokens < 1 {
        1
    } else {
        chunk_tokens
    };
    let mut counts: Vec<usize> = Vec::new();
    let mut remaining: usize = prefill_tokens;
    while remaining > 0
        invariant
            chunk >= 1,
            remaining <= prefill_tokens,
            counts@ + ordinary_counts(remaining as int, chunk as int) == ordinary_counts(
                prefill_tokens as int,
                chunk as int,
            ),
        decreases remaining,
    {
        let rows: usize = if remaining < chunk {
            remaining
        } else {
            chunk
        };
        let ghost before = counts@;
        let ghost rest = ordinary_counts(remaining as int, chunk as int);
        counts.push(rows);
        remaining = remaining - rows;
        assert(rest =~= seq![rows] + ordinary_counts(remaining as int, chunk as int));
        assert(counts@ + ordinary_counts(remaining as int, chunk as int) =~= before + rest);
    }
    assert(counts@ =~= ordinary_counts(prefill_tokens as int, chunk as int));
    proof {
        lemma_ordinary_counts(prefill_tokens as int, chunk as int);
    }
    if prefill_tokens == 0 {
        return counts;
    }
    let overflowing: usize = counts[counts.len() - 1];
    if terminal_rows < chunk && overflowing.saturating_add(terminal_rows) > chunk {
        assert(rebalances(prefill_tokens as int, chunk as int, terminal_rows as int));
        let final_capacity: usize = chunk - terminal_rows;
        let half: usize = overflowing / 2;
        let fitting: usize = if half < final_capacity {
            half
        } else {
            final_capacity
        };
        let kept: usize = if fitting < 1 {
            1
        } else {
            fitting
        };
        counts.pop();
        counts.push(overflowing - kept);
        counts.push(kept);
    }
    counts
}

/// The number of prefill chunks for a row count, a chunk size and the rows
/// that join the last chunk.
pub fn scheduler_prefill_chunk_count_for_rows(
    prefill_tokens: usize,
    prefill_chunk_tokens: usize,
    terminal_rows: usize,
) -> (count: usize)
    ensures
        count == prefill_counts(
            prefill_tokens as int,
            prefill_chunk_tokens as int,
            terminal_rows as int,
        ).len(),
{
    scheduler_prefill_chunk_token_counts_for_rows(
        prefill_tokens,
        prefill_chunk_tokens,
        terminal_rows,
    ).len()
}

proof fn lemma_total_push(counts: Seq<usize>, rows: usize)
    ensures
        total(counts.push(rows)) == total(counts) + rows,
    decreases counts.len(),
{
    if counts.len() == 0 {
        assert(counts.push(rows).drop_first() =~= Seq::<usize>::empty());
        assert(total(Seq::<usize>::empty()) == 0);
    } else {
        lemma_total_push(counts.drop_first(), rows);
        assert(counts.push(rows).drop_first() =~= counts.drop_first().push(rows));
    }
}

/// Ordinary chunks cover the rows exactly and none is empty or over-long.
pub proof fn lemma_ordinary_counts(rows: int, chunk: int)
    requires
        0 <= rows <= usize::MAX,
        1 <= chunk <= usize::MAX,
    ensures
        total(ordinary_counts(rows, chunk)) == rows,
        rows > 0 ==> ordinary_counts(rows, chunk).len() > 0,
        ordinary_counts(rows, chunk).len() <= rows,
        forall|i: int|
            0 <= i < ordinary_counts(rows, chunk).len() ==> 1 <= #[trigger] ordinary_counts(
                rows,
                chunk,
            )[i] <= chunk,
    decreases rows,
{
    let counts = ordinary_counts(rows, chunk);
    if rows == 0 {
    } else if rows <= chunk {
        assert(counts.drop_first() =~= Seq::<usize>::empty());
        assert(total(Seq::<usize>::empty()) == 0);
    } else {
        lemma_ordinary_counts(rows - chunk, chunk);
        assert(counts.drop_first() =~= ordinary_counts(rows - chunk, chunk));
        assert forall|i: int| 0 <= i < counts.len() implies 1 <= #[trigger] counts[i] <= chunk by {
            if i > 0 {
                assert(counts[i] == ordinary_counts(rows - chunk, chunk)[i - 1]);
            }
        }
    }
}

/// The number of ordinary chunks is the quotient rounded up.
pub proof fn lemma_ordinary_counts_len(rows: int, chunk: int)
    requires
        0 <= rows <= usize::MAX,
        1 <= chunk <= usize::MAX,
    ensures
        ordinary_counts(rows, chunk).len() == (rows + chunk - 1) / chunk,
    decreases rows,
{
    if rows == 0 {
        assert((chunk - 1) / chunk == 0) by (nonlinear_arith)
            requires
                chunk >= 1,
        ;
    } else if rows <= chunk {
        assert((rows + chunk - 1) / chunk == 1) by (nonlinear_arith)
            requires
                1 <= rows <= chunk,
        ;
    } else {
        lemma_ordinary_counts_len(rows - chunk, chunk);
        assert((rows + chunk - 1) / chunk == (rows - chunk + chunk - 1) / chunk + 1)
            by (nonlinear_arith)
            requires
                chunk >= 1,
                rows > chunk,
        ;
    }
}

/// The prefill chunks cover every prefill row exactly once, in chunks of one
/// to `chunk` rows.
pub proof fn law_prefill_chunks_cover_all_rows(rows: int, chunk_tokens: int, terminal_rows: int)
    requires
        0 <= rows <= usize::MAX,
        0 <= chunk_tokens <= usize::MAX,
        0 <= terminal_rows <= usize::MAX,
    ensures
        total(prefill_counts(rows, chunk_tokens, terminal_rows)) == rows,
        forall|i: int|
            0 <= i < prefill_counts(rows, chunk_tokens, terminal_rows).len() ==> 1
                <= #[trigger] prefill_counts(rows, chunk_tokens, terminal_rows)[i] <= chunk_size(
                chunk_tokens,
            ),
        rows > 0 <==> prefill_counts(rows, chunk_tokens, terminal_rows).len() > 0,
{
    let chunk = chunk_size(chunk_tokens);
    let ordinary = ordinary_counts(rows, chunk);
    lemma_ordinary_counts(rows, chunk);
    if rebalances(rows, chunk, terminal_rows) {
        let overflowing = ordinary.last();
        let kept = balanced_final(overflowing as int, chunk, terminal_rows) as usize;
        let front = ordinary.drop_last();
        assert(1 <= overflowing <= chunk);
        assert(overflowing >= 2);
        assert(1 <= kept < overflowing);
        lemma_total_push(front, overflowing);
        assert(front.push(overflowing) =~= ordinary);
        lemma_total_push(front, (overflowing - kept) as usize);
        lemma_total_push(front.push((overflowing - kept) as usize), kept);
        let counts = prefill_counts(rows, chunk_tokens, terminal_rows);
        assert(counts =~= front.push((overflowing - kept) as usize).push(kept));
        assert forall|i: int| 0 <= i < counts.len() implies 1 <= #[trigger] counts[i] <= chunk by {
            if i < front.len() {
                assert(counts[i] == ordinary[i]);
            }
        }
    }
}

/// Where the terminal rows leave room in a chunk, the last prefill chunk and
/// the terminal rows fit one chunk together.
pub proof fn law_last_chunk_joins_terminal_rows(rows: int, chunk_tokens: int, terminal_rows: int)
    requires
        0 < rows <= usize::MAX,
        0 <= chunk_tokens <= usize::MAX,
        0 <= terminal_rows < chunk_size(chunk_tokens),
        chunk_tokens < usize::MAX || rows + terminal_rows <= usize::MAX,
    ensures
        prefill_counts(rows, chunk_tokens, terminal_rows).last() + terminal_rows <= chunk_size(
            chunk_tokens,
        ),
{
    let chunk = chunk_size(chunk_tokens);
    lemma_ordinary_counts(rows, chunk);
    if chunk_tokens == usize::MAX {
        assert(ordinary_counts(rows, chunk) =~= seq![rows as usize]);
    }
}

} // verus!
