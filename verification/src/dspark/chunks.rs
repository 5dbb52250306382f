//! How the rows of an entry are cut into chunks: never growing, and as few as
//! can be.
use vstd::prelude::*;

use crate::dspark::entry::{chunk_sum, entry_chunks, entry_graph_rows, next_chunk};

verus! {

/// A graph is captured for the row count.
pub open spec fn captured(rows: int) -> bool {
    exists|i: int| 0 <= i < entry_graph_rows().len() && #[trigger] entry_graph_rows()[i] == rows
}

proof fn lemma_captured(rows: int)
    ensures
        captured(rows) <==> (rows == 1 || rows == 16 || rows == 32 || rows == 64 || rows == 128
            || rows == 256 || rows == 512 || rows == 1_024 || rows == 2_048),
{
    let list = entry_graph_rows();
    assert(list[0] == 1 && list[1] == 16 && list[2] == 32 && list[3] == 64 && list[4] == 128
        && list[5] == 256 && list[6] == 512 && list[7] == 1_024 && list[8] == 2_048);
}

/// Of two captured row counts the larger is a multiple of the smaller.
proof fn lemma_captured_multiple(small: int, large: int) -> (times: int)
    requires
        captured(small),
        captured(large),
        small <= large,
    ensures
        times >= 1,
        large == times * small,
{
    lemma_captured(small);
    lemma_captured(large);
    let times: int = large / small;
    if small == 1 {
        assert(large == times * 1);
    } else if small == 16 {
        assert(large == times * 16);
    } else if small == 32 {
        assert(large == times * 32);
    } else if small == 64 {
        assert(large == times * 64);
    } else if small == 128 {
        assert(large == times * 128);
    } else if small == 256 {
        assert(large == times * 256);
    } else if small == 512 {
        assert(large == times * 512);
    } else if small == 1_024 {
        assert(large == times * 1_024);
    } else {
        assert(large == times * 2_048);
    }
    times
}

proof fn lemma_next_chunk(remaining: int, max_main_rows: int)
    requires
        remaining > 0,
        max_main_rows > 0,
    ensures
        1 <= next_chunk(remaining, max_main_rows) <= remaining,
        next_chunk(remaining, max_main_rows) <= max_main_rows,
        captured(next_chunk(remaining, max_main_rows)),
        forall|rows: int|
            #[trigger] captured(rows) && rows <= remaining && rows <= max_main_rows ==> rows
                <= next_chunk(remaining, max_main_rows),
{
    let bound = if remaining < max_main_rows {
        remaining
    } else {
        max_main_rows
    };
    lemma_captured(next_chunk(remaining, max_main_rows));
    assert forall|rows: int| #[trigger]
        captured(rows) && rows <= remaining && rows <= max_main_rows implies rows <= next_chunk(
        remaining,
        max_main_rows,
    ) by {
        lemma_captured(rows);
    }
}

/// The chunks never grow, and each has the row count of a captured graph.
pub proof fn law_entry_chunks_never_grow(remaining: int, max_main_rows: int)
    requires
        remaining >= 0,
        max_main_rows > 0,
    ensures
        forall|i: int, j: int|
            0 <= i <= j < entry_chunks(remaining, max_main_rows).len() ==> #[trigger] entry_chunks(
                remaining,
                max_main_rows,
            )[i] >= #[trigger] entry_chunks(remaining, max_main_rows)[j],
        forall|i: int|
            0 <= i < entry_chunks(remaining, max_main_rows).len() ==> captured(
                #[trigger] entry_chunks(remaining, max_main_rows)[i],
            ),
    decreases remaining,
{
    if remaining > 0 {
        let first = next_chunk(remaining, max_main_rows);
        let all = entry_chunks(remaining, max_main_rows);
        let rest = entry_chunks(remaining - first, max_main_rows);
        lemma_next_chunk(remaining, max_main_rows);
        law_entry_chunks_never_grow(remaining - first, max_main_rows);
        assert(all == seq![first] + rest);
        if remaining - first > 0 {
            lemma_next_chunk(remaining - first, max_main_rows);
            assert(rest[0] == next_chunk(remaining - first, max_main_rows));
        }
        assert forall|i: int, j: int| 0 <= i <= j < all.len() implies #[trigger] all[i]
            >= #[trigger] all[j] by {
            if i > 0 {
                assert(all[i] == rest[i - 1] && all[j] == rest[j - 1]);
            } else if j > 0 {
                assert(all[j] == rest[j - 1]);
                assert(rest[0] >= rest[j - 1]);
            }
        }
        assert forall|i: int| 0 <= i < all.len() implies captured(#[trigger] all[i]) by {
            if i > 0 {
                assert(all[i] == rest[i - 1]);
            }
        }
    }
}

/// Rows that come in whole captured counts on top of less than one such count
/// take no fewer chunks than what lies on top alone.
proof fn lemma_whole_counts_add_chunks(rest: int, times: int, size: int, max_main_rows: int)
    requires
        captured(size),
        0 <= rest < size <= max_main_rows,
        times >= 0,
    ensures
        entry_chunks(rest, max_main_rows).len() <= entry_chunks(
            rest + times * size,
            max_main_rows,
        ).len(),
    decreases times,
{
    let all = rest + times * size;
    if times > 0 {
        assert(times * size >= size) by (nonlinear_arith)
            requires
                times >= 1,
                size >= 0,
        ;
        lemma_next_chunk(all, max_main_rows);
        let chunk = next_chunk(all, max_main_rows);
        assert(size <= chunk);
        let taken = lemma_captured_multiple(size, chunk);
        assert(taken <= times) by (nonlinear_arith)
            requires
                taken * size <= rest + times * size,
                0 <= rest < size,
        ;
        assert((times - taken) * size == times * size - taken * size) by (nonlinear_arith);
        lemma_whole_counts_add_chunks(rest, times - taken, size, max_main_rows);
    } else {
        assert(times * size == 0) by (nonlinear_arith)
            requires
                times == 0,
        ;
    }
}

/// Rows of one captured count more take at most one chunk more.
proof fn lemma_one_count_adds_one_chunk(remaining: int, size: int, max_main_rows: int)
    requires
        remaining >= 0,
        captured(size),
        1 <= size <= max_main_rows,
    ensures
        entry_chunks(remaining + size, max_main_rows).len() <= entry_chunks(
            remaining,
            max_main_rows,
        ).len() + 1,
    decreases remaining,
{
    let all = remaining + size;
    lemma_next_chunk(all, max_main_rows);
    let chunk = next_chunk(all, max_main_rows);
    assert(entry_chunks(all, max_main_rows).len() == 1 + entry_chunks(
        all - chunk,
        max_main_rows,
    ).len());
    if remaining >= chunk {
        lemma_next_chunk(remaining, max_main_rows);
        assert(next_chunk(remaining, max_main_rows) == chunk);
        lemma_one_count_adds_one_chunk(remaining - chunk, size, max_main_rows);
        assert(all - chunk == (remaining - chunk) + size);
    } else {
        let rest = all - chunk;
        let times = lemma_captured_multiple(size, chunk);
        assert(remaining == rest + (times - 1) * size) by (nonlinear_arith)
            requires
                rest == remaining + size - chunk,
                chunk == times * size,
        ;
        lemma_whole_counts_add_chunks(rest, times - 1, size, max_main_rows);
    }
}

/// No list of captured row counts that fit the arena covers the same rows in
/// fewer chunks.
pub proof fn law_entry_chunks_are_fewest(remaining: int, max_main_rows: int, other: Seq<int>)
    requires
        max_main_rows > 0,
        forall|i: int|
            0 <= i < other.len() ==> captured(#[trigger] other[i]) && other[i] <= max_main_rows,
        chunk_sum(other, other.len() as int) == remaining,
    ensures
        entry_chunks(remaining, max_main_rows).len() <= other.len(),
    decreases other.len(),
{
    if other.len() > 0 {
        let last = other.last();
        let front = other.drop_last();
        lemma_chunk_sum_front(other, other.len() - 1);
        lemma_captured(last);
        lemma_sum_not_negative(front, front.len() as int);
        law_entry_chunks_are_fewest(remaining - last, max_main_rows, front);
        lemma_one_count_adds_one_chunk(remaining - last, last, max_main_rows);
    }
}

proof fn lemma_chunk_sum_front(chunks: Seq<int>, n: int)
    requires
        0 <= n < chunks.len(),
    ensures
        chunk_sum(chunks.drop_last(), n) == chunk_sum(chunks, n),
    decreases n,
{
    if n > 0 {
        lemma_chunk_sum_front(chunks, n - 1);
    }
}

proof fn lemma_sum_not_negative(chunks: Seq<int>, n: int)
    requires
        0 <= n <= chunks.len(),
        forall|i: int| 0 <= i < chunks.len() ==> captured(#[trigger] chunks[i]),
    ensures
        chunk_sum(chunks, n) >= 0,
    decreases n,
{
    if n > 0 {
        lemma_sum_not_negative(chunks, n - 1);
        lemma_captured(chunks[n - 1]);
    }
}

} // verus!
