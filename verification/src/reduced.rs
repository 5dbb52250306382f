//! What the reduction of the ranks needs: room for every row in each of its
//! buffers, and the payload of each rank where its part of the sum is read.
use vstd::prelude::*;

use crate::arena::{
    arena_size_error, rank_image_steps, rank_payload_steps, Ds4FlashTp4CoordinatorReductionArena,
    StageStep, Tp4ArenaError,
};
use crate::device::Ds41rtDeviceBuffer;
use crate::text::decimal;
use crate::tp4::{
    chunks_header_ok, host_partials_accepted, host_partials_header_ok, host_rank_complete,
    reduction_accepted, reduction_buffer, reduction_buffer_fits, reduction_buffer_label,
    reduction_bytes, reduction_header_ok, reduction_program, Ds4FlashTp4HostPartialChunk,
    Ds4FlashTp4ReductionDeviceBuffers, ReductionStep,
};

verus! {

/// The buffer holds that many rows of values of some width on the first device.
pub open spec fn holds_rows(
    buffer: Ds41rtDeviceBuffer,
    rows: int,
    hidden_size: int,
    width: int,
) -> bool {
    buffer.bytes >= rows * hidden_size * width && buffer.device_id == 0
}

/// An accepted layout has room for all rows: in two bytes per value for the shared
/// input, each of the four ranks and the output, and in four for the sums.
pub proof fn law_accepted_layout_holds_the_rows(
    rows: int,
    hidden_size: int,
    b: Ds4FlashTp4ReductionDeviceBuffers,
    rank: int,
)
    requires
        reduction_accepted(rows, hidden_size, b),
        0 <= rank < 4,
    ensures
        1 <= rows <= 2_048,
        hidden_size > 0,
        holds_rows(b.shared_delta, rows, hidden_size, 2),
        holds_rows(b.rank_partials@[rank], rows, hidden_size, 2),
        holds_rows(b.ffn_delta, rows, hidden_size, 2),
        holds_rows(b.reduction_f32, rows, hidden_size, 4),
{
    let values = rows * hidden_size;
    assert(reduction_buffer_fits(b, values, 0));
    assert(reduction_buffer_fits(b, values, rank + 1));
    assert(reduction_buffer_fits(b, values, 5));
    assert(reduction_buffer_fits(b, values, 6));
    assert(reduction_buffer(b, rank + 1) == b.rank_partials@[rank]);
}

/// The payload of a rank is copied to where the reduction reads the part of that
/// rank, and the shared input is added before the ranks.
pub proof fn law_rank_payload_is_where_it_is_added(
    b: Ds4FlashTp4ReductionDeviceBuffers,
    bytes: usize,
    values: usize,
    rank: int,
)
    requires
        0 <= rank < 4,
    ensures
        ({
            let payload = rank_payload_steps(b, bytes, 4)[rank];
            let image = rank_image_steps(b, bytes, 4)[rank];
            let program = reduction_program(b, values);
            &&& program.len() == 7
            &&& program[0] == (ReductionStep::Zero { destination: b.reduction_f32, values })
            &&& program[1] == (ReductionStep::Accumulate {
                source: b.shared_delta,
                destination: b.reduction_f32,
                values,
            })
            &&& program[6] == (ReductionStep::Cast {
                source: b.reduction_f32,
                destination: b.ffn_delta,
                values,
            })
            &&& payload matches StageStep::RankPayload { rank: r, destination, bytes: n } && r
                == rank && n == bytes && program[rank + 2] == (ReductionStep::Accumulate {
                source: destination,
                destination: b.reduction_f32,
                values,
            })
            &&& image matches StageStep::RankImage { rank: r, destination, bytes: n } && r == rank
                && n == bytes && program[rank + 2] == (ReductionStep::Accumulate {
                source: destination,
                destination: b.reduction_f32,
                values,
            })
        }),
{
    assert(reduction_buffer(b, rank + 1) == b.rank_partials@[rank]);
    assert(reduction_buffer(b, 0) == b.shared_delta);
}

/// An arena can be made for one to two thousand and forty-eight rows of any width
/// whose bytes can be counted, and it has room for every reduction of at most that
/// many rows.
pub proof fn law_arena_has_room_for_its_rows(
    arena: Ds4FlashTp4CoordinatorReductionArena,
    shared_delta: Ds41rtDeviceBuffer,
    rows: int,
    k: int,
)
    requires
        1 <= k < 7,
        arena.wf(),
        0 <= rows <= arena.max_rows,
        shared_delta.device_id == 0,
    ensures
        1 <= arena.max_rows <= 2_048,
        arena.hidden_size > 0,
        reduction_buffer(arena.buffers_with(shared_delta), k).bytes >= reduction_bytes(
            rows * arena.hidden_size,
            k,
        ),
        reduction_buffer(arena.buffers_with(shared_delta), k).device_id == 0,
{
    let hidden = arena.hidden_size as int;
    let most = arena.max_rows as int;
    assert(rows * hidden <= most * hidden) by (nonlinear_arith)
        requires
            0 <= rows <= most,
            hidden >= 0,
    ;
    if k <= 4 {
        let a = arena.allocation();
        assert(a.rank_partials@[k - 1].device_id == 0);
        assert(a.rank_partials@[k - 1].bytes >= most * hidden * 2);
    }
}

/// The size of an arena is refused exactly if its rows are none or too many, its
/// width is none, or its bytes cannot be counted.
pub proof fn law_arena_sizes(max_rows: int, hidden_size: int)
    requires
        0 <= max_rows,
        0 <= hidden_size,
    ensures
        arena_size_error(max_rows, hidden_size) is None <==> 0 < max_rows <= 2_048 && hidden_size
            > 0 && 4 * (max_rows * hidden_size) <= usize::MAX,
        max_rows == 0 && max_rows <= usize::MAX ==> arena_size_error(max_rows, hidden_size) == Some(
            Tp4ArenaError::RowsOutOfRange { max_rows: 0 },
        ),
{
    assert(max_rows * hidden_size >= 0) by (nonlinear_arith)
        requires
            0 <= max_rows,
            0 <= hidden_size,
    ;
}

/// Accepted payloads are one per rank, each of all bytes of all rows, with every
/// row in its own place.
pub proof fn law_accepted_payloads_hold_every_row(
    rows: int,
    hidden_size: int,
    payloads: Seq<Vec<u8>>,
    maps: Seq<Vec<usize>>,
    rank: int,
    row: int,
)
    requires
        host_partials_accepted(rows, hidden_size, payloads, maps),
        0 <= rank < 4,
        0 <= row < rows,
    ensures
        payloads.len() == 4,
        maps.len() == 4,
        payloads[rank]@.len() == rows * hidden_size * 2,
        maps[rank]@.len() == rows,
        maps[rank]@[row] == row,
        1 <= rows <= 2_048,
{
    assert(host_rank_complete(payloads, maps, rows * hidden_size * 2, rows, rank));
}

/// The buffer of a rank is named after the rank.
pub proof fn law_rank_buffers_are_named_after_their_rank(rank: int)
    requires
        0 <= rank < 4,
    ensures
        reduction_buffer_label(rank + 1) == "rank_"@ + decimal(rank as nat),
{
    reveal_strlit("rank_");
    reveal_strlit("rank_0");
    reveal_strlit("rank_1");
    reveal_strlit("rank_2");
    reveal_strlit("rank_3");
    reveal_strlit("0");
    reveal_strlit("1");
    reveal_strlit("2");
    reveal_strlit("3");
    assert(reduction_buffer_label(rank + 1) =~= "rank_"@ + decimal(rank as nat));
}

/// Responses of one to two thousand and forty-eight rows are taken, of any width
/// whose bytes can be counted, in one payload for each of four ranks or in some
/// chunks, and reduced on the first device.
pub proof fn law_response_sizes(
    rows: int,
    hidden_size: int,
    payloads: Seq<Vec<u8>>,
    maps: Seq<Vec<usize>>,
    chunks: Seq<Ds4FlashTp4HostPartialChunk<'_>>,
    b: Ds4FlashTp4ReductionDeviceBuffers,
)
    requires
        hidden_size >= 0,
    ensures
        chunks_header_ok(rows, hidden_size, chunks) <==> 0 < rows <= 2_048 && 0 < hidden_size && 0
            < chunks.len() && rows * (2 * hidden_size) <= usize::MAX,
        host_partials_header_ok(rows, hidden_size, payloads, maps) <==> 0 < rows <= 2_048 && 0
            < hidden_size && payloads.len() == 4 && maps.len() == 4 && 2 * (rows * hidden_size)
            <= usize::MAX,
        reduction_header_ok(rows, hidden_size, b) <==> 0 < rows <= 2_048 && 0 < hidden_size && 4 * (
        rows * hidden_size) <= usize::MAX && b.shared_delta.device_id == 0,
{
}

} // verus!
