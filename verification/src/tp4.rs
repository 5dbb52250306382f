//! The strict four-rank reduction: five inputs of full hidden width are summed
//! in a fixed order on the coordinator device. Every rank returns every row.
use vstd::prelude::*;

use crate::device::{device_buffer_byte_view, Ds41rtDeviceBuffer, Ds41rtHostBuffer};
use crate::grid::{cell, cell_set, grid_shape, new_grid, set_cell};
use crate::text::{append_signed, append_size, decimal, signed_decimal};

verus! {

/// Hidden width of the Flash variant.
pub const DS4_FLASH_HIDDEN: usize = 4_096;

/// Number of tensor-parallel ranks.
pub const DS4_FLASH_TP: usize = 4;

/// The most rows of one reduction.
pub const DS4_FLASH_MAX_ROWS: usize = 2_048;

/// The fixed buffers of one reduction: five inputs, the wide accumulator and
/// the reduced output.
#[derive(Clone, Copy, Debug)]
pub struct Ds4FlashTp4ReductionDeviceBuffers {
    pub shared_delta: Ds41rtDeviceBuffer,
    pub rank_partials: [Ds41rtDeviceBuffer; 4],
    pub reduction_f32: Ds41rtDeviceBuffer,
    pub ffn_delta: Ds41rtDeviceBuffer,
}

/// How many buffers one reduction touches.
pub const REDUCTION_BUFFERS: usize = 7;

/// The buffers of a reduction in the order in which they are checked.
pub open spec fn reduction_buffer(b: Ds4FlashTp4ReductionDeviceBuffers, k: int) -> Ds41rtDeviceBuffer {
    if k == 0 {
        b.shared_delta
    } else if k <= 4 {
        b.rank_partials@[k - 1]
    } else if k == 5 {
        b.reduction_f32
    } else {
        b.ffn_delta
    }
}

/// The bytes that the reduction of `values` values needs in buffer `k`: two per
/// value, four in the accumulator.
pub open spec fn reduction_bytes(values: int, k: int) -> int {
    if k == 5 {
        values * 4
    } else {
        values * 2
    }
}

/// Two byte ranges meet.
pub open spec fn ranges_meet(
    left_start: int,
    left_bytes: int,
    right_start: int,
    right_bytes: int,
) -> bool {
    left_start < right_start + right_bytes && right_start < left_start + left_bytes
}

/// Buffer `k` is large enough and on the device of the shared input.
pub open spec fn reduction_buffer_fits(
    b: Ds4FlashTp4ReductionDeviceBuffers,
    values: int,
    k: int,
) -> bool {
    &&& reduction_buffer(b, k).holds(0, reduction_bytes(values, k))
    &&& reduction_buffer(b, k).device_id == b.shared_delta.device_id
}

/// The used range of buffer `k` ends at an address that can be written down.
pub open spec fn reduction_end_fits(
    b: Ds4FlashTp4ReductionDeviceBuffers,
    values: int,
    k: int,
) -> bool {
    reduction_buffer(b, k).ptr + reduction_bytes(values, k) <= usize::MAX
}

/// Buffers `i` and `j` are used over ranges that do not meet.
pub open spec fn reduction_pair_disjoint(
    b: Ds4FlashTp4ReductionDeviceBuffers,
    values: int,
    i: int,
    j: int,
) -> bool {
    &&& reduction_end_fits(b, values, i)
    &&& reduction_end_fits(b, values, j)
    &&& !ranges_meet(
        reduction_buffer(b, i).ptr as int,
        reduction_bytes(values, i),
        reduction_buffer(b, j).ptr as int,
        reduction_bytes(values, j),
    )
}

/// Every pair before the pair `(left, right)` is disjoint.
pub open spec fn pairs_disjoint_before(
    b: Ds4FlashTp4ReductionDeviceBuffers,
    values: int,
    left: int,
    right: int,
) -> bool {
    forall|i: int, j: int|
        0 <= i < j < REDUCTION_BUFFERS && (i < left || (i == left && j < right))
            ==> #[trigger] reduction_pair_disjoint(b, values, i, j)
}

/// Why a reduction layout is refused. Buffers are named by their place in the
/// order of checking.
#[derive(Clone, Copy, Debug, PartialEq, Eq, Structural)]
pub enum Tp4ReductionError {
    RowsOutOfRange { rows: usize },
    HiddenSizeZero,
    ShapeOverflow,
    Bf16Overflow,
    F32Overflow,
    NotOnCoordinator { device_id: i32 },
    BufferTooSmall { index: usize, bytes: usize },
    WrongDevice { index: usize },
    LeftAddressOverflow { left: usize, right: usize },
    RightAddressOverflow { left: usize, right: usize },
    Overlap { left: usize, right: usize },
}

/// Rows, width and device of a reduction are in order.
pub open spec fn reduction_header_ok(
    rows: int,
    hidden_size: int,
    b: Ds4FlashTp4ReductionDeviceBuffers,
) -> bool {
    &&& 1 <= rows <= DS4_FLASH_MAX_ROWS
    &&& hidden_size > 0
    &&& rows * hidden_size * 4 <= usize::MAX
    &&& b.shared_delta.device_id == 0
}

/// The layout is accepted: all seven buffers are large enough, on device zero
/// and pairwise disjoint.
pub open spec fn reduction_accepted(
    rows: int,
    hidden_size: int,
    b: Ds4FlashTp4ReductionDeviceBuffers,
) -> bool {
    &&& reduction_header_ok(rows, hidden_size, b)
    &&& forall|k: int|
        0 <= k < REDUCTION_BUFFERS ==> #[trigger] reduction_buffer_fits(b, rows * hidden_size, k)
    &&& forall|i: int, j: int|
        0 <= i < j < REDUCTION_BUFFERS ==> #[trigger] reduction_pair_disjoint(
            b,
            rows * hidden_size,
            i,
            j,
        )
}

/// The layout is refused for the reason `e`, which is the first that applies.
pub open spec fn reduction_refused(
    rows: int,
    hidden_size: int,
    b: Ds4FlashTp4ReductionDeviceBuffers,
    e: Tp4ReductionError,
) -> bool {
    let values = rows * hidden_size;
    let sized = 1 <= rows <= DS4_FLASH_MAX_ROWS && hidden_size > 0;
    let all_fit = forall|k: int|
        0 <= k < REDUCTION_BUFFERS ==> #[trigger] reduction_buffer_fits(b, values, k);
    match e {
        Tp4ReductionError::RowsOutOfRange { rows: r } => r == rows && !(1 <= rows
            <= DS4_FLASH_MAX_ROWS),
        Tp4ReductionError::HiddenSizeZero => 1 <= rows <= DS4_FLASH_MAX_ROWS && hidden_size <= 0,
        Tp4ReductionError::ShapeOverflow => sized && values > usize::MAX,
        Tp4ReductionError::Bf16Overflow => sized && values <= usize::MAX < values * 2,
        Tp4ReductionError::F32Overflow => sized && values * 2 <= usize::MAX < values * 4,
        Tp4ReductionError::NotOnCoordinator { device_id } => sized && values * 4 <= usize::MAX
            && device_id == b.shared_delta.device_id && device_id != 0,
        Tp4ReductionError::BufferTooSmall { index, bytes } => {
            &&& reduction_header_ok(rows, hidden_size, b)
            &&& index < REDUCTION_BUFFERS
            &&& bytes == reduction_bytes(values, index as int)
            &&& forall|k: int| 0 <= k < index ==> #[trigger] reduction_buffer_fits(b, values, k)
            &&& !reduction_buffer(b, index as int).holds(0, bytes as int)
            &&& !reduction_buffer_fits(b, values, index as int)
        },
        Tp4ReductionError::WrongDevice { index } => {
            &&& reduction_header_ok(rows, hidden_size, b)
            &&& index < REDUCTION_BUFFERS
            &&& forall|k: int| 0 <= k < index ==> #[trigger] reduction_buffer_fits(b, values, k)
            &&& reduction_buffer(b, index as int).holds(0, reduction_bytes(values, index as int))
            &&& !reduction_buffer_fits(b, values, index as int)
        },
        Tp4ReductionError::LeftAddressOverflow { left, right } => {
            &&& reduction_header_ok(rows, hidden_size, b)
            &&& all_fit
            &&& left < right < REDUCTION_BUFFERS
            &&& pairs_disjoint_before(b, values, left as int, right as int)
            &&& !reduction_end_fits(b, values, left as int)
            &&& !reduction_pair_disjoint(b, values, left as int, right as int)
        },
        Tp4ReductionError::RightAddressOverflow { left, right } => {
            &&& reduction_header_ok(rows, hidden_size, b)
            &&& all_fit
            &&& left < right < REDUCTION_BUFFERS
            &&& pairs_disjoint_before(b, values, left as int, right as int)
            &&& reduction_end_fits(b, values, left as int)
            &&& !reduction_end_fits(b, values, right as int)
            &&& !reduction_pair_disjoint(b, values, left as int, right as int)
        },
        Tp4ReductionError::Overlap { left, right } => {
            &&& reduction_header_ok(rows, hidden_size, b)
            &&& all_fit
            &&& left < right < REDUCTION_BUFFERS
            &&& pairs_disjoint_before(b, values, left as int, right as int)
            &&& reduction_end_fits(b, values, left as int)
            &&& reduction_end_fits(b, values, right as int)
            &&& !reduction_pair_disjoint(b, values, left as int, right as int)
        },
    }
}

/// The name of buffer `k` in messages.
pub open spec fn reduction_buffer_label(k: int) -> Seq<char> {
    if k == 0 {
        "shared_delta"@
    } else if k == 1 {
        "rank_0"@
    } else if k == 2 {
        "rank_1"@
    } else if k == 3 {
        "rank_2"@
    } else if k == 4 {
        "rank_3"@
    } else if k == 5 {
        "reduction_f32"@
    } else {
        "ffn_delta"@
    }
}

/// The name of buffer `k` in messages.
pub fn reduction_buffer_name(k: usize) -> (name: &'static str)
    ensures
        name@ == reduction_buffer_label(k as int),
{
    if k == 0 {
        "shared_delta"
    } else if k == 1 {
        "rank_0"
    } else if k == 2 {
        "rank_1"
    } else if k == 3 {
        "rank_2"
    } else if k == 4 {
        "rank_3"
    } else if k == 5 {
        "reduction_f32"
    } else {
        "ffn_delta"
    }
}

impl Tp4ReductionError {
    pub open spec fn text(self) -> Seq<char> {
        match self {
            Tp4ReductionError::RowsOutOfRange { rows } =>
                "DeepSeek V4 Flash TP4 reduction rows "@ + decimal(rows as nat)
                + " are outside 1..=2048"@,
            Tp4ReductionError::HiddenSizeZero =>
                "DeepSeek V4 TP4 reduction hidden size must be positive"@,
            Tp4ReductionError::ShapeOverflow =>
                "DeepSeek V4 Flash TP4 reduction shape overflows usize"@,
            Tp4ReductionError::Bf16Overflow =>
                "DeepSeek V4 Flash TP4 BF16 byte count overflows usize"@,
            Tp4ReductionError::F32Overflow =>
                "DeepSeek V4 Flash TP4 FP32 byte count overflows usize"@,
            Tp4ReductionError::NotOnCoordinator { device_id } =>
                "DeepSeek V4 Flash TP4 reduction must reside on coordinator GPU0, got device "@
                + signed_decimal(device_id as int),
            Tp4ReductionError::BufferTooSmall { index, bytes } =>
                "DeepSeek V4 Flash TP4 reduction "@ + reduction_buffer_label(index as int)
                + " holds fewer than "@ + decimal(bytes as nat) + " bytes"@,
            Tp4ReductionError::WrongDevice { index } =>
                "DeepSeek V4 Flash TP4 reduction "@ + reduction_buffer_label(index as int)
                + " must be on coordinator device 0"@,
            Tp4ReductionError::LeftAddressOverflow { left, right } =>
                "DeepSeek V4 Flash TP4 left buffer address overflows usize"@,
            Tp4ReductionError::RightAddressOverflow { left, right } =>
                "DeepSeek V4 Flash TP4 right buffer address overflows usize"@,
            Tp4ReductionError::Overlap { left, right } =>
                "DeepSeek V4 Flash TP4 reduction "@ + reduction_buffer_label(left as int)
                + " and "@ + reduction_buffer_label(right as int) + " buffers overlap"@,
        }
    }

    pub fn message(&self) -> (out: String)
        ensures
            out@ == self.text(),
    {
        match *self {
            Tp4ReductionError::RowsOutOfRange { rows } => {
                let mut out: String = "DeepSeek V4 Flash TP4 reduction rows ".to_owned();
                append_size(&mut out, rows);
                out.append(" are outside 1..=2048");
                out
            },
            Tp4ReductionError::HiddenSizeZero => {
                "DeepSeek V4 TP4 reduction hidden size must be positive".to_owned()
            },
            Tp4ReductionError::ShapeOverflow => {
                "DeepSeek V4 Flash TP4 reduction shape overflows usize".to_owned()
            },
            Tp4ReductionError::Bf16Overflow => {
                "DeepSeek V4 Flash TP4 BF16 byte count overflows usize".to_owned()
            },
            Tp4ReductionError::F32Overflow => {
                "DeepSeek V4 Flash TP4 FP32 byte count overflows usize".to_owned()
            },
            Tp4ReductionError::NotOnCoordinator { device_id } => {
                let mut out: String =
                    "DeepSeek V4 Flash TP4 reduction must reside on coordinator GPU0, got device ".to_owned();
                append_signed(&mut out, device_id);
                out
            },
            Tp4ReductionError::BufferTooSmall { index, bytes } => {
                let mut out: String = "DeepSeek V4 Flash TP4 reduction ".to_owned();
                out.append(reduction_buffer_name(index));
                out.append(" holds fewer than ");
                append_size(&mut out, bytes);
                out.append(" bytes");
                out
            },
            Tp4ReductionError::WrongDevice { index } => {
                let mut out: String = "DeepSeek V4 Flash TP4 reduction ".to_owned();
                out.append(reduction_buffer_name(index));
                out.append(" must be on coordinator device 0");
                out
            },
            Tp4ReductionError::LeftAddressOverflow { left, right } => {
                "DeepSeek V4 Flash TP4 left buffer address overflows usize".to_owned()
            },
            Tp4ReductionError::RightAddressOverflow { left, right } => {
                "DeepSeek V4 Flash TP4 right buffer address overflows usize".to_owned()
            },
            Tp4ReductionError::Overlap { left, right } => {
                let mut out: String = "DeepSeek V4 Flash TP4 reduction ".to_owned();
                out.append(reduction_buffer_name(left));
                out.append(" and ");
                out.append(reduction_buffer_name(right));
                out.append(" buffers overlap");
                out
            },
        }
    }
}

/// The end of a range that cannot be written down.
#[derive(Clone, Copy, Debug, PartialEq, Eq, Structural)]
pub enum RangeAddressError {
    Left,
    Right,
}

/// Whether the first `left_bytes` and `right_bytes` bytes of two buffers meet.
pub fn ds4_flash_reduction_ranges_overlap(
    left: Ds41rtDeviceBuffer,
    left_bytes: usize,
    right: Ds41rtDeviceBuffer,
    right_bytes: usize,
) -> (result: Result<bool, RangeAddressError>)
    ensures
        result == (if left.ptr + left_bytes > usize::MAX {
            Err::<bool, RangeAddressError>(RangeAddressError::Left)
        } else if right.ptr + right_bytes > usize::MAX {
            Err::<bool, RangeAddressError>(RangeAddressError::Right)
        } else {
            Ok::<bool, RangeAddressError>(
                ranges_meet(
                    left.ptr as int,
                    left_bytes as int,
                    right.ptr as int,
                    right_bytes as int,
                ),
            )
        }),
{
    let left_end: usize = match left.ptr.checked_add(left_bytes) {
        Some(end) => end,
        None => return Err(RangeAddressError::Left),
    };
    let right_end: usize = match right.ptr.checked_add(right_bytes) {
        Some(end) => end,
        None => return Err(RangeAddressError::Right),
    };
    Ok(left.ptr < right_end && right.ptr < left_end)
}

fn reduction_buffer_at(b: &Ds4FlashTp4ReductionDeviceBuffers, k: usize) -> (r: Ds41rtDeviceBuffer)
    requires
        k < REDUCTION_BUFFERS,
    ensures
        r == reduction_buffer(*b, k as int),
{
    if k == 0 {
        b.shared_delta
    } else if k <= 4 {
        b.rank_partials[k - 1]
    } else if k == 5 {
        b.reduction_f32
    } else {
        b.ffn_delta
    }
}

/// Checks the layout of a reduction of `rows` rows of Flash width.
pub fn validate_ds4_flash_tp4_reduction_buffer_layout(
    rows: usize,
    buffers: Ds4FlashTp4ReductionDeviceBuffers,
) -> (result: Result<usize, Tp4ReductionError>)
    ensures
        result is Ok <==> reduction_accepted(rows as int, DS4_FLASH_HIDDEN as int, buffers),
        result matches Ok(values) ==> values == rows * DS4_FLASH_HIDDEN,
        result matches Err(e) ==> reduction_refused(
            rows as int,
            DS4_FLASH_HIDDEN as int,
            buffers,
            e,
        ),
{
    validate_ds4_tp4_reduction_buffer_layout_for_hidden_size(rows, DS4_FLASH_HIDDEN, buffers)
}

/// Checks the layout of a reduction and returns how many values it reduces.
pub fn validate_ds4_tp4_reduction_buffer_layout_for_hidden_size(
    rows: usize,
    hidden_size: usize,
    buffers: Ds4FlashTp4ReductionDeviceBuffers,
) -> (result: Result<usize, Tp4ReductionError>)
    ensures
        result is Ok <==> reduction_accepted(rows as int, hidden_size as int, buffers),
        result matches Ok(values) ==> values == rows * hidden_size,
        result matches Err(e) ==> reduction_refused(rows as int, hidden_size as int, buffers, e),
{
    if rows < 1 || rows > DS4_FLASH_MAX_ROWS {
        return Err(Tp4ReductionError::RowsOutOfRange { rows });
    }
    if hidden_size == 0 {
        return Err(Tp4ReductionError::HiddenSizeZero);
    }
    let values: usize = match rows.checked_mul(hidden_size) {
        Some(values) => values,
        None => return Err(Tp4ReductionError::ShapeOverflow),
    };
    let bf16_bytes: usize = match values.checked_mul(2) {
        Some(bytes) => bytes,
        None => return Err(Tp4ReductionError::Bf16Overflow),
    };
    let f32_bytes: usize = match values.checked_mul(4) {
        Some(bytes) => bytes,
        None => return Err(Tp4ReductionError::F32Overflow),
    };
    let device_id: i32 = buffers.shared_delta.device_id;
    if device_id != 0 {
        return Err(Tp4ReductionError::NotOnCoordinator { device_id });
    }
    let mut index: usize = 0;
    while index < REDUCTION_BUFFERS
        invariant
            index <= REDUCTION_BUFFERS,
            values == rows * hidden_size,
            bf16_bytes == values * 2,
            f32_bytes == values * 4,
            device_id == buffers.shared_delta.device_id,
            reduction_header_ok(rows as int, hidden_size as int, buffers),
            forall|k: int|
                0 <= k < index ==> #[trigger] reduction_buffer_fits(buffers, values as int, k),
        decreases REDUCTION_BUFFERS - index,
    {
        let buffer: Ds41rtDeviceBuffer = reduction_buffer_at(&buffers, index);
        let bytes: usize = if index == 5 {
            f32_bytes
        } else {
            bf16_bytes
        };
        if device_buffer_byte_view(buffer, 0, bytes).is_err() {
            assert(!reduction_buffer_fits(buffers, values as int, index as int));
            return Err(Tp4ReductionError::BufferTooSmall { index, bytes });
        }
        if buffer.device_id != device_id {
            assert(!reduction_buffer_fits(buffers, values as int, index as int));
            return Err(Tp4ReductionError::WrongDevice { index });
        }
        index = index + 1;
    }
    let mut left: usize = 0;
    while left < REDUCTION_BUFFERS
        invariant
            left <= REDUCTION_BUFFERS,
            values == rows * hidden_size,
            bf16_bytes == values * 2,
            f32_bytes == values * 4,
            reduction_header_ok(rows as int, hidden_size as int, buffers),
            forall|k: int|
                0 <= k < REDUCTION_BUFFERS ==> #[trigger] reduction_buffer_fits(
                    buffers,
                    values as int,
                    k,
                ),
            pairs_disjoint_before(buffers, values as int, left as int, 0),
        decreases REDUCTION_BUFFERS - left,
    {
        let mut right: usize = left + 1;
        while right < REDUCTION_BUFFERS
            invariant
                left < right <= REDUCTION_BUFFERS,
                values == rows * hidden_size,
                bf16_bytes == values * 2,
                f32_bytes == values * 4,
                reduction_header_ok(rows as int, hidden_size as int, buffers),
                forall|k: int|
                    0 <= k < REDUCTION_BUFFERS ==> #[trigger] reduction_buffer_fits(
                        buffers,
                        values as int,
                        k,
                    ),
                pairs_disjoint_before(buffers, values as int, left as int, right as int),
            decreases REDUCTION_BUFFERS - right,
        {
            let left_bytes: usize = if left == 5 {
                f32_bytes
            } else {
                bf16_bytes
            };
            let right_bytes: usize = if right == 5 {
                f32_bytes
            } else {
                bf16_bytes
            };
            let overlap = ds4_flash_reduction_ranges_overlap(
                reduction_buffer_at(&buffers, left),
                left_bytes,
                reduction_buffer_at(&buffers, right),
                right_bytes,
            );
            assert(overlap != Ok::<bool, RangeAddressError>(false) ==> !reduction_pair_disjoint(
                buffers,
                values as int,
                left as int,
                right as int,
            ));
            match overlap {
                Err(RangeAddressError::Left) => {
                    return Err(Tp4ReductionError::LeftAddressOverflow { left, right });
                },
                Err(RangeAddressError::Right) => {
                    return Err(Tp4ReductionError::RightAddressOverflow { left, right });
                },
                Ok(true) => {
                    return Err(Tp4ReductionError::Overlap { left, right });
                },
                Ok(false) => {},
            }
            assert(reduction_pair_disjoint(buffers, values as int, left as int, right as int));
            right = right + 1;
        }
        left = left + 1;
    }
    assert forall|i: int, j: int|
        0 <= i < j < REDUCTION_BUFFERS implies #[trigger] reduction_pair_disjoint(
        buffers,
        values as int,
        i,
        j,
    ) by {}
    Ok(values)
}

/// Whether ranges meet does not depend on their order.
pub proof fn law_ranges_meet_symmetric(a: int, a_bytes: int, b: int, b_bytes: int)
    ensures
        ranges_meet(a, a_bytes, b, b_bytes) == ranges_meet(b, b_bytes, a, a_bytes),
{
}

/// Two non-empty ranges meet exactly where they share an address.
pub proof fn law_ranges_meet_iff_shared_address(a: int, a_bytes: int, b: int, b_bytes: int)
    requires
        a_bytes > 0,
        b_bytes > 0,
    ensures
        ranges_meet(a, a_bytes, b, b_bytes) <==> exists|x: int|
            #![trigger shared_address(a, a_bytes, b, b_bytes, x)]
            shared_address(a, a_bytes, b, b_bytes, x),
{
    if ranges_meet(a, a_bytes, b, b_bytes) {
        let x = if a < b {
            b
        } else {
            a
        };
        assert(shared_address(a, a_bytes, b, b_bytes, x));
    }
}

/// The address `x` lies in both ranges.
pub open spec fn shared_address(a: int, a_bytes: int, b: int, b_bytes: int, x: int) -> bool {
    a <= x < a + a_bytes && b <= x < b + b_bytes
}

/// In an accepted layout no address is used by two buffers.
pub proof fn law_accepted_layout_shares_no_address(
    rows: int,
    hidden_size: int,
    b: Ds4FlashTp4ReductionDeviceBuffers,
    i: int,
    j: int,
    x: int,
)
    requires
        reduction_accepted(rows, hidden_size, b),
        0 <= i < j < REDUCTION_BUFFERS,
    ensures
        !(reduction_buffer(b, i).covers_address(reduction_bytes(rows * hidden_size, i), x)
            && reduction_buffer(b, j).covers_address(reduction_bytes(rows * hidden_size, j), x)),
{
    assert(reduction_pair_disjoint(b, rows * hidden_size, i, j));
}

/// One device operation of a reduction.
#[derive(Clone, Copy, Debug, PartialEq, Eq, Structural)]
pub enum ReductionStep {
    /// Set `values` wide values to zero.
    Zero { destination: Ds41rtDeviceBuffer, values: usize },
    /// Add `values` narrow values to the wide accumulator.
    Accumulate { source: Ds41rtDeviceBuffer, destination: Ds41rtDeviceBuffer, values: usize },
    /// Round `values` wide values to narrow ones.
    Cast { source: Ds41rtDeviceBuffer, destination: Ds41rtDeviceBuffer, values: usize },
}

/// The accumulation of one input.
pub open spec fn accumulate_step(
    b: Ds4FlashTp4ReductionDeviceBuffers,
    k: int,
    values: usize,
) -> ReductionStep {
    ReductionStep::Accumulate {
        source: reduction_buffer(b, k),
        destination: b.reduction_f32,
        values,
    }
}

/// The operations of a reduction: clear the accumulator, add the shared input
/// and the four ranks in rank order, round once.
pub open spec fn reduction_program(
    b: Ds4FlashTp4ReductionDeviceBuffers,
    values: usize,
) -> Seq<ReductionStep> {
    seq![
        ReductionStep::Zero { destination: b.reduction_f32, values },
        accumulate_step(b, 0, values),
        accumulate_step(b, 1, values),
        accumulate_step(b, 2, values),
        accumulate_step(b, 3, values),
        accumulate_step(b, 4, values),
        ReductionStep::Cast { source: b.reduction_f32, destination: b.ffn_delta, values },
    ]
}

/// The operations that reduce `rows` rows of Flash width.
pub fn ds4_flash_tp4_reduce_bf16_device_inputs_into(
    rows: usize,
    buffers: Ds4FlashTp4ReductionDeviceBuffers,
) -> (result: Result<Vec<ReductionStep>, Tp4ReductionError>)
    ensures
        result is Ok <==> reduction_accepted(rows as int, DS4_FLASH_HIDDEN as int, buffers),
        result matches Ok(steps) ==> steps@ == reduction_program(
            buffers,
            (rows * DS4_FLASH_HIDDEN) as usize,
        ),
        result matches Err(e) ==> reduction_refused(
            rows as int,
            DS4_FLASH_HIDDEN as int,
            buffers,
            e,
        ),
{
    ds4_tp4_reduce_bf16_device_inputs_into_for_hidden_size(rows, DS4_FLASH_HIDDEN, buffers)
}

/// The operations that reduce `rows` rows of `hidden_size` values.
pub fn ds4_tp4_reduce_bf16_device_inputs_into_for_hidden_size(
    rows: usize,
    hidden_size: usize,
    buffers: Ds4FlashTp4ReductionDeviceBuffers,
) -> (result: Result<Vec<ReductionStep>, Tp4ReductionError>)
    ensures
        result is Ok <==> reduction_accepted(rows as int, hidden_size as int, buffers),
        result matches Ok(steps) ==> steps@ == reduction_program(
            buffers,
            (rows * hidden_size) as usize,
        ),
        result matches Err(e) ==> reduction_refused(rows as int, hidden_size as int, buffers, e),
{
    let values: usize = match validate_ds4_tp4_reduction_buffer_layout_for_hidden_size(
        rows,
        hidden_size,
        buffers,
    ) {
        Ok(values) => values,
        Err(e) => return Err(e),
    };
    let mut steps: Vec<ReductionStep> = Vec::new();
    steps.push(ReductionStep::Zero { destination: buffers.reduction_f32, values });
    let mut k: usize = 0;
    while k < 5
        invariant
            k <= 5,
            steps@ == reduction_program(buffers, values).subrange(0, k + 1),
        decreases 5 - k,
    {
        let source: Ds41rtDeviceBuffer = reduction_buffer_at(&buffers, k);
        steps.push(
            ReductionStep::Accumulate { source, destination: buffers.reduction_f32, values },
        );
        k = k + 1;
        assert(steps@ =~= reduction_program(buffers, values).subrange(0, k + 1));
    }
    steps.push(
        ReductionStep::Cast {
            source: buffers.reduction_f32,
            destination: buffers.ffn_delta,
            values,
        },
    );
    assert(steps@ =~= reduction_program(buffers, values));
    Ok(steps)
}

/// Why complete host payloads of the four ranks are refused.
#[derive(Clone, Copy, Debug, PartialEq, Eq, Structural)]
pub enum Tp4HostPartialError {
    RowsOutOfRange { rows: usize },
    HiddenSizeZero,
    RankCount { payloads: usize, row_maps: usize },
    ByteOverflow,
    PayloadBytes { rank: usize, expected: usize, actual: usize },
    RowMap { rank: usize, rows: usize },
}

/// A row map that names every row in order.
pub open spec fn identity_rows(map: Seq<usize>, rows: int) -> bool {
    &&& map.len() == rows
    &&& forall|i: int| 0 <= i < rows ==> #[trigger] map[i] == i
}

/// Rank `k` returned all bytes of all rows in order.
pub open spec fn host_rank_complete(
    payloads: Seq<Vec<u8>>,
    maps: Seq<Vec<usize>>,
    rank_bytes: int,
    rows: int,
    k: int,
) -> bool {
    payloads[k]@.len() == rank_bytes && identity_rows(maps[k]@, rows)
}

/// Rows, width and rank count of host payloads are in order.
pub open spec fn host_partials_header_ok(
    rows: int,
    hidden_size: int,
    payloads: Seq<Vec<u8>>,
    maps: Seq<Vec<usize>>,
) -> bool {
    &&& 1 <= rows <= DS4_FLASH_MAX_ROWS
    &&& hidden_size > 0
    &&& payloads.len() == DS4_FLASH_TP
    &&& maps.len() == DS4_FLASH_TP
    &&& rows * hidden_size * 2 <= usize::MAX
}

/// Exactly four ranks returned all rows in order.
pub open spec fn host_partials_accepted(
    rows: int,
    hidden_size: int,
    payloads: Seq<Vec<u8>>,
    maps: Seq<Vec<usize>>,
) -> bool {
    &&& host_partials_header_ok(rows, hidden_size, payloads, maps)
    &&& forall|k: int|
        0 <= k < DS4_FLASH_TP ==> #[trigger] host_rank_complete(
            payloads,
            maps,
            rows * hidden_size * 2,
            rows,
            k,
        )
}

/// The payloads are refused for the reason `e`, which is the first that applies.
pub open spec fn host_partials_refused(
    rows: int,
    hidden_size: int,
    payloads: Seq<Vec<u8>>,
    maps: Seq<Vec<usize>>,
    e: Tp4HostPartialError,
) -> bool {
    let rank_bytes = rows * hidden_size * 2;
    let sized = 1 <= rows <= DS4_FLASH_MAX_ROWS && hidden_size > 0;
    match e {
        Tp4HostPartialError::RowsOutOfRange { rows: r } => r == rows && !(1 <= rows
            <= DS4_FLASH_MAX_ROWS),
        Tp4HostPartialError::HiddenSizeZero => 1 <= rows <= DS4_FLASH_MAX_ROWS && hidden_size <= 0,
        Tp4HostPartialError::RankCount { payloads: p, row_maps } => sized && p == payloads.len()
            && row_maps == maps.len() && !(p == DS4_FLASH_TP && row_maps == DS4_FLASH_TP),
        Tp4HostPartialError::ByteOverflow => sized && payloads.len() == DS4_FLASH_TP && maps.len()
            == DS4_FLASH_TP && rank_bytes > usize::MAX,
        Tp4HostPartialError::PayloadBytes { rank, expected, actual } => {
            &&& host_partials_header_ok(rows, hidden_size, payloads, maps)
            &&& rank < DS4_FLASH_TP
            &&& forall|k: int|
                0 <= k < rank ==> #[trigger] host_rank_complete(payloads, maps, rank_bytes, rows, k)
            &&& !host_rank_complete(payloads, maps, rank_bytes, rows, rank as int)
            &&& expected == rank_bytes
            &&& actual == payloads[rank as int]@.len()
            &&& actual != expected
        },
        Tp4HostPartialError::RowMap { rank, rows: r } => {
            &&& host_partials_header_ok(rows, hidden_size, payloads, maps)
            &&& rank < DS4_FLASH_TP
            &&& r == rows
            &&& forall|k: int|
                0 <= k < rank ==> #[trigger] host_rank_complete(payloads, maps, rank_bytes, rows, k)
            &&& !host_rank_complete(payloads, maps, rank_bytes, rows, rank as int)
            &&& payloads[rank as int]@.len() == rank_bytes
        },
    }
}

impl Tp4HostPartialError {
    pub open spec fn text(self) -> Seq<char> {
        match self {
            Tp4HostPartialError::RowsOutOfRange { rows } =>
                "DeepSeek V4 Flash TP4 host partial rows "@ + decimal(rows as nat)
                + " are outside 1..=2048"@,
            Tp4HostPartialError::HiddenSizeZero =>
                "DeepSeek V4 TP4 host partial hidden size must be positive"@,
            Tp4HostPartialError::RankCount { payloads, row_maps } =>
                "DeepSeek V4 Flash TP4 host partials require exactly 4 rank payloads and row maps, got payloads="@
                + decimal(payloads as nat) + " row_maps="@ + decimal(row_maps as nat),
            Tp4HostPartialError::ByteOverflow =>
                "DeepSeek V4 Flash TP4 host partial byte count overflows usize"@,
            Tp4HostPartialError::PayloadBytes { rank, expected, actual } =>
                "DeepSeek V4 Flash TP4 rank "@ + decimal(rank as nat) + " partial expected "@
                + decimal(expected as nat) + " BF16 bytes, got "@ + decimal(actual as nat),
            Tp4HostPartialError::RowMap { rank, rows } =>
                "DeepSeek V4 Flash TP4 rank "@ + decimal(rank as nat)
                + " must return the complete identity row map 0.."@ + decimal(rows as nat),
        }
    }

    pub fn message(&self) -> (out: String)
        ensures
            out@ == self.text(),
    {
        match *self {
            Tp4HostPartialError::RowsOutOfRange { rows } => {
                let mut out: String = "DeepSeek V4 Flash TP4 host partial rows ".to_owned();
                append_size(&mut out, rows);
                out.append(" are outside 1..=2048");
                out
            },
            Tp4HostPartialError::HiddenSizeZero => {
                "DeepSeek V4 TP4 host partial hidden size must be positive".to_owned()
            },
            Tp4HostPartialError::RankCount { payloads, row_maps } => {
                let mut out: String =
                    "DeepSeek V4 Flash TP4 host partials require exactly 4 rank payloads and row maps, got payloads=".to_owned();
                append_size(&mut out, payloads);
                out.append(" row_maps=");
                append_size(&mut out, row_maps);
                out
            },
            Tp4HostPartialError::ByteOverflow => {
                "DeepSeek V4 Flash TP4 host partial byte count overflows usize".to_owned()
            },
            Tp4HostPartialError::PayloadBytes { rank, expected, actual } => {
                let mut out: String = "DeepSeek V4 Flash TP4 rank ".to_owned();
                append_size(&mut out, rank);
                out.append(" partial expected ");
                append_size(&mut out, expected);
                out.append(" BF16 bytes, got ");
                append_size(&mut out, actual);
                out
            },
            Tp4HostPartialError::RowMap { rank, rows } => {
                let mut out: String = "DeepSeek V4 Flash TP4 rank ".to_owned();
                append_size(&mut out, rank);
                out.append(" must return the complete identity row map 0..");
                append_size(&mut out, rows);
                out
            },
        }
    }
}

fn is_identity_rows(map: &Vec<usize>, rows: usize) -> (r: bool)
    ensures
        r == identity_rows(map@, rows as int),
{
    if map.len() != rows {
        return false;
    }
    let mut i: usize = 0;
    while i < rows
        invariant
            i <= rows,
            map@.len() == rows,
            forall|k: int| 0 <= k < i ==> #[trigger] map@[k] == k,
        decreases rows - i,
    {
        if map[i] != i {
            return false;
        }
        i = i + 1;
    }
    true
}

/// Checks complete host payloads of Flash width.
pub fn validate_ds4_flash_tp4_host_partial_layout(
    rows: usize,
    partial_outputs_bf16_by_rank: &[Vec<u8>],
    global_row_indices_by_rank: &[Vec<usize>],
) -> (result: Result<usize, Tp4HostPartialError>)
    ensures
        result is Ok <==> host_partials_accepted(
            rows as int,
            DS4_FLASH_HIDDEN as int,
            partial_outputs_bf16_by_rank@,
            global_row_indices_by_rank@,
        ),
        result matches Ok(bytes) ==> bytes == rows * DS4_FLASH_HIDDEN * 2,
        result matches Err(e) ==> host_partials_refused(
            rows as int,
            DS4_FLASH_HIDDEN as int,
            partial_outputs_bf16_by_rank@,
            global_row_indices_by_rank@,
            e,
        ),
{
    validate_ds4_tp4_host_partial_layout_for_hidden_size(
        rows,
        DS4_FLASH_HIDDEN,
        partial_outputs_bf16_by_rank,
        global_row_indices_by_rank,
    )
}

/// Checks complete host payloads and returns the bytes of one rank.
pub fn validate_ds4_tp4_host_partial_layout_for_hidden_size(
    rows: usize,
    hidden_size: usize,
    partial_outputs_bf16_by_rank: &[Vec<u8>],
    global_row_indices_by_rank: &[Vec<usize>],
) -> (result: Result<usize, Tp4HostPartialError>)
    ensures
        result is Ok <==> host_partials_accepted(
            rows as int,
            hidden_size as int,
            partial_outputs_bf16_by_rank@,
            global_row_indices_by_rank@,
        ),
        result matches Ok(bytes) ==> bytes == rows * hidden_size * 2,
        result matches Err(e) ==> host_partials_refused(
            rows as int,
            hidden_size as int,
            partial_outputs_bf16_by_rank@,
            global_row_indices_by_rank@,
            e,
        ),
{
    let ghost payloads = partial_outputs_bf16_by_rank@;
    let ghost maps = global_row_indices_by_rank@;
    if rows < 1 || rows > DS4_FLASH_MAX_ROWS {
        return Err(Tp4HostPartialError::RowsOutOfRange { rows });
    }
    if hidden_size == 0 {
        return Err(Tp4HostPartialError::HiddenSizeZero);
    }
    if partial_outputs_bf16_by_rank.len() != DS4_FLASH_TP || global_row_indices_by_rank.len()
        != DS4_FLASH_TP {
        return Err(
            Tp4HostPartialError::RankCount {
                payloads: partial_outputs_bf16_by_rank.len(),
                row_maps: global_row_indices_by_rank.len(),
            },
        );
    }
    let values: usize = match rows.checked_mul(hidden_size) {
        Some(values) => values,
        None => return Err(Tp4HostPartialError::ByteOverflow),
    };
    let rank_bytes: usize = match values.checked_mul(2) {
        Some(bytes) => bytes,
        None => return Err(Tp4HostPartialError::ByteOverflow),
    };
    let mut rank: usize = 0;
    while rank < DS4_FLASH_TP
        invariant
            rank <= DS4_FLASH_TP,
            payloads == partial_outputs_bf16_by_rank@,
            maps == global_row_indices_by_rank@,
            rank_bytes == rows * hidden_size * 2,
            host_partials_header_ok(rows as int, hidden_size as int, payloads, maps),
            forall|k: int|
                0 <= k < rank ==> #[trigger] host_rank_complete(
                    payloads,
                    maps,
                    rank_bytes as int,
                    rows as int,
                    k,
                ),
        decreases DS4_FLASH_TP - rank,
    {
        let payload_bytes: usize = partial_outputs_bf16_by_rank[rank].len();
        if payload_bytes != rank_bytes {
            assert(!host_rank_complete(
                payloads,
                maps,
                rank_bytes as int,
                rows as int,
                rank as int,
            ));
            return Err(
                Tp4HostPartialError::PayloadBytes {
                    rank,
                    expected: rank_bytes,
                    actual: payload_bytes,
                },
            );
        }
        if !is_identity_rows(&global_row_indices_by_rank[rank], rows) {
            assert(!host_rank_complete(
                payloads,
                maps,
                rank_bytes as int,
                rows as int,
                rank as int,
            ));
            return Err(Tp4HostPartialError::RowMap { rank, rows });
        }
        rank = rank + 1;
    }
    Ok(rank_bytes)
}

/// One piece of a rank's response: some rows, in any order.
#[derive(Clone, Copy, Debug)]
pub struct Ds4FlashTp4HostPartialChunk<'a> {
    pub rank: usize,
    pub payload_bf16: &'a [u8],
    pub pinned_payload: Option<Ds41rtHostBuffer>,
    pub global_row_indices: &'a [usize],
}

/// Why response chunks are refused.
#[derive(Clone, Copy, Debug, PartialEq, Eq, Structural)]
pub enum Tp4HostChunkError {
    RowsOutOfRange { rows: usize },
    HiddenSizeZero,
    NoChunks,
    RowBytesOverflow,
    RankBytesOverflow,
    InvalidRank { chunk: usize, rank: usize },
    NoRows { chunk: usize, rank: usize },
    PayloadOverflow { chunk: usize },
    PayloadBytes { chunk: usize, rank: usize, expected: usize, actual: usize },
    RowOutOfRange { chunk: usize, rank: usize, row: usize, rows: usize },
    RepeatedRow { rank: usize, row: usize },
    MissingRow { rank: usize, row: usize },
}

/// The rank and row of every row of a chunk, in order.
pub open spec fn chunk_entries(chunk: Ds4FlashTp4HostPartialChunk<'_>) -> Seq<(usize, usize)> {
    Seq::new(
        chunk.global_row_indices@.len(),
        |i: int| (chunk.rank, chunk.global_row_indices@[i]),
    )
}

/// The rank and row of every row of the first `n` chunks, in order.
pub open spec fn entries(chunks: Seq<Ds4FlashTp4HostPartialChunk<'_>>, n: int) -> Seq<
    (usize, usize),
>
    decreases n,
{
    if n <= 0 {
        Seq::empty()
    } else {
        entries(chunks, n - 1) + chunk_entries(chunks[n - 1])
    }
}

/// Every entry names one of the four ranks and one of the rows, and none
/// occurs twice.
pub open spec fn entries_distinct(s: Seq<(usize, usize)>, rows: int) -> bool {
    &&& s.no_duplicates()
    &&& forall|i: int| 0 <= i < s.len() ==> (#[trigger] s[i]).0 < DS4_FLASH_TP && s[i].1 < rows
}

/// Rank and byte count of a chunk are in order.
pub open spec fn chunk_header_ok(chunk: Ds4FlashTp4HostPartialChunk<'_>, row_bytes: int) -> bool {
    &&& chunk.rank < DS4_FLASH_TP
    &&& chunk.global_row_indices@.len() > 0
    &&& chunk.payload_bf16@.len() == chunk.global_row_indices@.len() * row_bytes
}

/// The first `n` chunks are in order by themselves and among each other.
pub open spec fn chunks_ok(
    chunks: Seq<Ds4FlashTp4HostPartialChunk<'_>>,
    rows: int,
    row_bytes: int,
    n: int,
) -> bool {
    &&& forall|i: int| 0 <= i < n ==> #[trigger] chunk_header_ok(chunks[i], row_bytes)
    &&& entries_distinct(entries(chunks, n), rows)
}

/// The row at place `p` of chunk `n` is met after these entries.
pub open spec fn entries_before(
    chunks: Seq<Ds4FlashTp4HostPartialChunk<'_>>,
    n: int,
    p: int,
) -> Seq<(usize, usize)> {
    entries(chunks, n) + chunk_entries(chunks[n]).take(p)
}

/// Rows and width of response chunks are in order.
pub open spec fn chunks_header_ok(
    rows: int,
    hidden_size: int,
    chunks: Seq<Ds4FlashTp4HostPartialChunk<'_>>,
) -> bool {
    &&& 1 <= rows <= DS4_FLASH_MAX_ROWS
    &&& hidden_size > 0
    &&& chunks.len() > 0
    &&& rows * (hidden_size * 2) <= usize::MAX
}

/// Every row of every rank occurs exactly once.
pub open spec fn chunks_accepted(
    rows: int,
    hidden_size: int,
    chunks: Seq<Ds4FlashTp4HostPartialChunk<'_>>,
) -> bool {
    &&& chunks_header_ok(rows, hidden_size, chunks)
    &&& chunks_ok(chunks, rows, hidden_size * 2, chunks.len() as int)
    &&& forall|rank: usize, row: usize|
        rank < DS4_FLASH_TP && row < rows ==> #[trigger] entries(
            chunks,
            chunks.len() as int,
        ).contains((rank, row))
}

/// The chunks are refused for the reason `e`, which is the first that applies.
pub open spec fn chunks_refused(
    rows: int,
    hidden_size: int,
    chunks: Seq<Ds4FlashTp4HostPartialChunk<'_>>,
    e: Tp4HostChunkError,
) -> bool {
    let row_bytes = hidden_size * 2;
    let sized = 1 <= rows <= DS4_FLASH_MAX_ROWS && hidden_size > 0;
    match e {
        Tp4HostChunkError::RowsOutOfRange { rows: r } => r == rows && !(1 <= rows
            <= DS4_FLASH_MAX_ROWS),
        Tp4HostChunkError::HiddenSizeZero => 1 <= rows <= DS4_FLASH_MAX_ROWS && hidden_size <= 0,
        Tp4HostChunkError::NoChunks => sized && chunks.len() == 0,
        Tp4HostChunkError::RowBytesOverflow => sized && chunks.len() > 0 && row_bytes > usize::MAX,
        Tp4HostChunkError::RankBytesOverflow => sized && chunks.len() > 0 && row_bytes
            <= usize::MAX < rows * row_bytes,
        Tp4HostChunkError::InvalidRank { chunk, rank } => {
            &&& chunks_header_ok(rows, hidden_size, chunks)
            &&& chunk < chunks.len()
            &&& chunks_ok(chunks, rows, row_bytes, chunk as int)
            &&& !chunk_header_ok(chunks[chunk as int], row_bytes)
            &&& rank == chunks[chunk as int].rank
            &&& rank >= DS4_FLASH_TP
        },
        Tp4HostChunkError::NoRows { chunk, rank } => {
            &&& chunks_header_ok(rows, hidden_size, chunks)
            &&& chunk < chunks.len()
            &&& chunks_ok(chunks, rows, row_bytes, chunk as int)
            &&& !chunk_header_ok(chunks[chunk as int], row_bytes)
            &&& rank == chunks[chunk as int].rank
            &&& rank < DS4_FLASH_TP
            &&& chunks[chunk as int].global_row_indices@.len() == 0
        },
        Tp4HostChunkError::PayloadOverflow { chunk } => {
            &&& chunks_header_ok(rows, hidden_size, chunks)
            &&& chunk < chunks.len()
            &&& chunks_ok(chunks, rows, row_bytes, chunk as int)
            &&& !chunk_header_ok(chunks[chunk as int], row_bytes)
            &&& chunks[chunk as int].rank < DS4_FLASH_TP
            &&& chunks[chunk as int].global_row_indices@.len() * row_bytes > usize::MAX
        },
        Tp4HostChunkError::PayloadBytes { chunk, rank, expected, actual } => {
            &&& chunks_header_ok(rows, hidden_size, chunks)
            &&& chunk < chunks.len()
            &&& chunks_ok(chunks, rows, row_bytes, chunk as int)
            &&& !chunk_header_ok(chunks[chunk as int], row_bytes)
            &&& rank == chunks[chunk as int].rank
            &&& rank < DS4_FLASH_TP
            &&& chunks[chunk as int].global_row_indices@.len() > 0
            &&& expected == chunks[chunk as int].global_row_indices@.len() * row_bytes
            &&& actual == chunks[chunk as int].payload_bf16@.len()
            &&& actual != expected
        },
        Tp4HostChunkError::RowOutOfRange { chunk, rank, row, rows: r } => {
            &&& chunks_header_ok(rows, hidden_size, chunks)
            &&& chunk < chunks.len()
            &&& r == rows
            &&& row >= rows
            &&& rank == chunks[chunk as int].rank
            &&& first_bad_row(chunks, rows, row_bytes, chunk as int, row)
        },
        Tp4HostChunkError::RepeatedRow { rank, row } => {
            &&& chunks_header_ok(rows, hidden_size, chunks)
            &&& row < rows
            &&& exists|chunk: int|
                0 <= chunk < chunks.len() && chunks[chunk].rank == rank && #[trigger] first_bad_row(
                    chunks,
                    rows,
                    row_bytes,
                    chunk,
                    row,
                )
        },
        Tp4HostChunkError::MissingRow { rank, row } => {
            &&& chunks_header_ok(rows, hidden_size, chunks)
            &&& chunks_ok(chunks, rows, row_bytes, chunks.len() as int)
            &&& rank < DS4_FLASH_TP
            &&& row < rows
            &&& !entries(chunks, chunks.len() as int).contains((rank, row))
            &&& forall|k: usize, x: usize|
                k < DS4_FLASH_TP && x < rows && (k < rank || (k == rank && x < row))
                    ==> #[trigger] entries(chunks, chunks.len() as int).contains((k, x))
        },
    }
}

/// All chunks before `chunk` and all rows of it before some place are in
/// order, and the row at that place, `row`, is out of range or was met before.
pub open spec fn first_bad_row(
    chunks: Seq<Ds4FlashTp4HostPartialChunk<'_>>,
    rows: int,
    row_bytes: int,
    chunk: int,
    row: usize,
) -> bool {
    &&& chunks_ok(chunks, rows, row_bytes, chunk)
    &&& chunk_header_ok(chunks[chunk], row_bytes)
    &&& exists|p: int|
        0 <= p < chunks[chunk].global_row_indices@.len() && chunks[chunk].global_row_indices@[p]
            == row && entries_distinct(#[trigger] entries_before(chunks, chunk, p), rows) && (row
            >= rows || entries_before(chunks, chunk, p).contains((chunks[chunk].rank, row)))
}

impl Tp4HostChunkError {
    pub open spec fn text(self) -> Seq<char> {
        match self {
            Tp4HostChunkError::RowsOutOfRange { rows } =>
                "DeepSeek V4 Flash TP4 host chunk rows "@ + decimal(rows as nat)
                + " are outside 1..=2048"@,
            Tp4HostChunkError::HiddenSizeZero =>
                "DeepSeek V4 TP4 host chunk hidden size must be positive"@,
            Tp4HostChunkError::NoChunks => "DeepSeek V4 Flash TP4 host chunks are empty"@,
            Tp4HostChunkError::RowBytesOverflow =>
                "DeepSeek V4 Flash TP4 host chunk row bytes overflow usize"@,
            Tp4HostChunkError::RankBytesOverflow =>
                "DeepSeek V4 Flash TP4 host chunk rank bytes overflow usize"@,
            Tp4HostChunkError::InvalidRank { chunk, rank } =>
                "DeepSeek V4 Flash TP4 host chunk "@ + decimal(chunk as nat)
                + " has invalid rank "@ + decimal(rank as nat),
            Tp4HostChunkError::NoRows { chunk, rank } =>
                "DeepSeek V4 Flash TP4 host chunk "@ + decimal(chunk as nat) + " for rank "@
                + decimal(rank as nat) + " has no rows"@,
            Tp4HostChunkError::PayloadOverflow { chunk } =>
                "DeepSeek V4 Flash TP4 host chunk payload bytes overflow usize"@,
            Tp4HostChunkError::PayloadBytes { chunk, rank, expected, actual } =>
                "DeepSeek V4 Flash TP4 host chunk "@ + decimal(chunk as nat) + " rank "@
                + decimal(rank as nat) + " expected "@ + decimal(expected as nat)
                + " BF16 bytes, got "@ + decimal(actual as nat),
            Tp4HostChunkError::RowOutOfRange { chunk, rank, row, rows } =>
                "DeepSeek V4 Flash TP4 host chunk "@ + decimal(chunk as nat) + " rank "@
                + decimal(rank as nat) + " row "@ + decimal(row as nat) + " exceeds "@
                + decimal(rows as nat) + " rows"@,
            Tp4HostChunkError::RepeatedRow { rank, row } =>
                "DeepSeek V4 Flash TP4 host chunks repeat rank "@ + decimal(rank as nat) + " row "@
                + decimal(row as nat),
            Tp4HostChunkError::MissingRow { rank, row } =>
                "DeepSeek V4 Flash TP4 host chunks are missing rank "@ + decimal(rank as nat)
                + " row "@ + decimal(row as nat),
        }
    }

    pub fn message(&self) -> (out: String)
        ensures
            out@ == self.text(),
    {
        match *self {
            Tp4HostChunkError::RowsOutOfRange { rows } => {
                let mut out: String = "DeepSeek V4 Flash TP4 host chunk rows ".to_owned();
                append_size(&mut out, rows);
                out.append(" are outside 1..=2048");
                out
            },
            Tp4HostChunkError::HiddenSizeZero => {
                "DeepSeek V4 TP4 host chunk hidden size must be positive".to_owned()
            },
            Tp4HostChunkError::NoChunks => "DeepSeek V4 Flash TP4 host chunks are empty".to_owned(),
            Tp4HostChunkError::RowBytesOverflow => {
                "DeepSeek V4 Flash TP4 host chunk row bytes overflow usize".to_owned()
            },
            Tp4HostChunkError::RankBytesOverflow => {
                "DeepSeek V4 Flash TP4 host chunk rank bytes overflow usize".to_owned()
            },
            Tp4HostChunkError::InvalidRank { chunk, rank } => {
                let mut out: String = "DeepSeek V4 Flash TP4 host chunk ".to_owned();
                append_size(&mut out, chunk);
                out.append(" has invalid rank ");
                append_size(&mut out, rank);
                out
            },
            Tp4HostChunkError::NoRows { chunk, rank } => {
                let mut out: String = "DeepSeek V4 Flash TP4 host chunk ".to_owned();
                append_size(&mut out, chunk);
                out.append(" for rank ");
                append_size(&mut out, rank);
                out.append(" has no rows");
                out
            },
            Tp4HostChunkError::PayloadOverflow { chunk } => {
                "DeepSeek V4 Flash TP4 host chunk payload bytes overflow usize".to_owned()
            },
            Tp4HostChunkError::PayloadBytes { chunk, rank, expected, actual } => {
                let mut out: String = "DeepSeek V4 Flash TP4 host chunk ".to_owned();
                append_size(&mut out, chunk);
                out.append(" rank ");
                append_size(&mut out, rank);
                out.append(" expected ");
                append_size(&mut out, expected);
                out.append(" BF16 bytes, got ");
                append_size(&mut out, actual);
                out
            },
            Tp4HostChunkError::RowOutOfRange { chunk, rank, row, rows } => {
                let mut out: String = "DeepSeek V4 Flash TP4 host chunk ".to_owned();
                append_size(&mut out, chunk);
                out.append(" rank ");
                append_size(&mut out, rank);
                out.append(" row ");
                append_size(&mut out, row);
                out.append(" exceeds ");
                append_size(&mut out, rows);
                out.append(" rows");
                out
            },
            Tp4HostChunkError::RepeatedRow { rank, row } => {
                let mut out: String = "DeepSeek V4 Flash TP4 host chunks repeat rank ".to_owned();
                append_size(&mut out, rank);
                out.append(" row ");
                append_size(&mut out, row);
                out
            },
            Tp4HostChunkError::MissingRow { rank, row } => {
                let mut out: String =
                    "DeepSeek V4 Flash TP4 host chunks are missing rank ".to_owned();
                append_size(&mut out, rank);
                out.append(" row ");
                append_size(&mut out, row);
                out
            },
        }
    }
}

/// The grid of seen rows agrees with the entries met so far.
spec fn seen_matches(seen: Seq<Vec<bool>>, met: Seq<(usize, usize)>, rows: int) -> bool {
    &&& grid_shape(seen, DS4_FLASH_TP as int, rows)
    &&& forall|k: usize, x: usize|
        #![trigger met.contains((k, x))]
        #![trigger cell(seen, k as int, x as int)]
        k < DS4_FLASH_TP && x < rows ==> (cell(seen, k as int, x as int) <==> met.contains((k, x)))
}

proof fn lemma_seen_after_entry(
    before: Seq<Vec<bool>>,
    after: Seq<Vec<bool>>,
    met: Seq<(usize, usize)>,
    rows: int,
    rank: usize,
    row: usize,
)
    requires
        seen_matches(before, met, rows),
        rank < DS4_FLASH_TP,
        row < rows,
        cell_set(before, after, rank as int, row as int),
    ensures
        seen_matches(after, met.push((rank, row)), rows),
{
    let now = met.push((rank, row));
    assert(before[rank as int]@.len() == rows);
    assert forall|r: int| 0 <= r < DS4_FLASH_TP implies (#[trigger] after[r])@.len() == rows by {
        if r != rank {
            assert(after[r] == before[r]);
        }
    }
    assert forall|k: usize, x: usize| k < DS4_FLASH_TP && x < rows implies (cell(
        after,
        k as int,
        x as int,
    ) <==> now.contains((k, x))) by {
        if k != rank {
            assert(after[k as int] == before[k as int]);
        }
        assert(cell(before, k as int, x as int) <==> met.contains((k, x)));
        if met.contains((k, x)) {
            let i = choose|i: int| 0 <= i < met.len() && met[i] == (k, x);
            assert(now[i] == (k, x));
        }
        if k == rank && x == row {
            assert(now[met.len() as int] == (k, x));
        }
        if now.contains((k, x)) {
            let i = choose|i: int| 0 <= i < now.len() && now[i] == (k, x);
            if i < met.len() {
                assert(met[i] == (k, x));
            }
        }
    }
}

/// Checks response chunks of Flash width.
pub fn validate_ds4_flash_tp4_host_partial_chunks(
    rows: usize,
    chunks: &[Ds4FlashTp4HostPartialChunk<'_>],
) -> (result: Result<usize, Tp4HostChunkError>)
    ensures
        result is Ok <==> chunks_accepted(rows as int, DS4_FLASH_HIDDEN as int, chunks@),
        result matches Ok(bytes) ==> bytes == rows * (DS4_FLASH_HIDDEN * 2),
        result matches Err(e) ==> chunks_refused(
            rows as int,
            DS4_FLASH_HIDDEN as int,
            chunks@,
            e,
        ),
{
    validate_ds4_tp4_host_partial_chunks_for_hidden_size(rows, DS4_FLASH_HIDDEN, chunks)
}

/// Checks response chunks and returns the bytes of one rank. Every row of
/// every rank must occur exactly once.
pub fn validate_ds4_tp4_host_partial_chunks_for_hidden_size(
    rows: usize,
    hidden_size: usize,
    chunks: &[Ds4FlashTp4HostPartialChunk<'_>],
) -> (result: Result<usize, Tp4HostChunkError>)
    ensures
        result is Ok <==> chunks_accepted(rows as int, hidden_size as int, chunks@),
        result matches Ok(bytes) ==> bytes == rows * (hidden_size * 2),
        result matches Err(e) ==> chunks_refused(rows as int, hidden_size as int, chunks@, e),
{
    if rows < 1 || rows > DS4_FLASH_MAX_ROWS {
        return Err(Tp4HostChunkError::RowsOutOfRange { rows });
    }
    if hidden_size == 0 {
        return Err(Tp4HostChunkError::HiddenSizeZero);
    }
    if chunks.len() == 0 {
        return Err(Tp4HostChunkError::NoChunks);
    }
    let row_bytes: usize = match hidden_size.checked_mul(2) {
        Some(bytes) => bytes,
        None => {
            proof {
                lemma_row_count_keeps_overflow(rows as int, hidden_size * 2);
            }
            return Err(Tp4HostChunkError::RowBytesOverflow);
        },
    };
    let rank_bytes: usize = match rows.checked_mul(row_bytes) {
        Some(bytes) => bytes,
        None => return Err(Tp4HostChunkError::RankBytesOverflow),
    };
    let mut seen: Vec<Vec<bool>> = new_grid(DS4_FLASH_TP, rows);
    let mut chunk_index: usize = 0;
    while chunk_index < chunks.len()
        invariant
            chunk_index <= chunks@.len(),
            row_bytes == hidden_size * 2,
            rank_bytes == rows * row_bytes,
            chunks_header_ok(rows as int, hidden_size as int, chunks@),
            chunks_ok(chunks@, rows as int, row_bytes as int, chunk_index as int),
            seen_matches(seen@, entries(chunks@, chunk_index as int), rows as int),
        decreases chunks@.len() - chunk_index,
    {
        let chunk: Ds4FlashTp4HostPartialChunk<'_> = chunks[chunk_index];
        let rank: usize = chunk.rank;
        if rank >= DS4_FLASH_TP {
            proof {
                lemma_bad_header_refuses(
                    chunks@,
                    rows as int,
                    hidden_size as int,
                    chunk_index as int,
                );
            }
            return Err(Tp4HostChunkError::InvalidRank { chunk: chunk_index, rank });
        }
        let count: usize = chunk.global_row_indices.len();
        if count == 0 {
            proof {
                lemma_bad_header_refuses(
                    chunks@,
                    rows as int,
                    hidden_size as int,
                    chunk_index as int,
                );
            }
            return Err(Tp4HostChunkError::NoRows { chunk: chunk_index, rank });
        }
        let actual: usize = chunk.payload_bf16.len();
        let expected: usize = match count.checked_mul(row_bytes) {
            Some(bytes) => bytes,
            None => {
                proof {
                    lemma_bad_header_refuses(
                        chunks@,
                        rows as int,
                        hidden_size as int,
                        chunk_index as int,
                    );
                }
                return Err(Tp4HostChunkError::PayloadOverflow { chunk: chunk_index });
            },
        };
        if actual != expected {
            proof {
                lemma_bad_header_refuses(
                    chunks@,
                    rows as int,
                    hidden_size as int,
                    chunk_index as int,
                );
            }
            return Err(
                Tp4HostChunkError::PayloadBytes { chunk: chunk_index, rank, expected, actual },
            );
        }
        let mut place: usize = 0;
        assert(entries_before(chunks@, chunk_index as int, 0) =~= entries(
            chunks@,
            chunk_index as int,
        ));
        while place < count
            invariant
                place <= count,
                chunk_index < chunks@.len(),
                chunk == chunks@[chunk_index as int],
                rank == chunk.rank,
                count == chunk.global_row_indices@.len(),
                row_bytes == hidden_size * 2,
                chunks_header_ok(rows as int, hidden_size as int, chunks@),
                chunks_ok(chunks@, rows as int, row_bytes as int, chunk_index as int),
                chunk_header_ok(chunk, row_bytes as int),
                entries_distinct(
                    entries_before(chunks@, chunk_index as int, place as int),
                    rows as int,
                ),
                seen_matches(
                    seen@,
                    entries_before(chunks@, chunk_index as int, place as int),
                    rows as int,
                ),
            decreases count - place,
        {
            let row: usize = chunk.global_row_indices[place];
            let ghost met = entries_before(chunks@, chunk_index as int, place as int);
            if row >= rows {
                proof {
                    lemma_bad_row_refuses(
                        chunks@,
                        rows as int,
                        hidden_size as int,
                        chunk_index as int,
                        place as int,
                    );
                }
                return Err(
                    Tp4HostChunkError::RowOutOfRange { chunk: chunk_index, rank, row, rows },
                );
            }
            assert(seen@[rank as int]@.len() == rows);
            if seen[rank][row] {
                proof {
                    assert(cell(seen@, rank as int, row as int));
                    lemma_bad_row_refuses(
                        chunks@,
                        rows as int,
                        hidden_size as int,
                        chunk_index as int,
                        place as int,
                    );
                }
                return Err(Tp4HostChunkError::RepeatedRow { rank, row });
            }
            let ghost seen_before = seen@;
            set_cell(&mut seen, rank, row);
            proof {
                assert(!cell(seen_before, rank as int, row as int));
                lemma_seen_after_entry(seen_before, seen@, met, rows as int, rank, row);
                assert(entries_before(chunks@, chunk_index as int, place + 1) =~= met.push(
                    (rank, row),
                ));
                assert(!met.contains((rank, row)));
                lemma_distinct_push(met, rows as int, (rank, row));
            }
            place = place + 1;
        }
        proof {
            assert(chunk_entries(chunk).take(count as int) =~= chunk_entries(chunk));
            assert(entries(chunks@, chunk_index + 1) =~= entries_before(
                chunks@,
                chunk_index as int,
                count as int,
            ));
        }
        chunk_index = chunk_index + 1;
    }
    let mut rank: usize = 0;
    while rank < DS4_FLASH_TP
        invariant
            rank <= DS4_FLASH_TP,
            chunks_header_ok(rows as int, hidden_size as int, chunks@),
            chunks_ok(chunks@, rows as int, hidden_size * 2, chunks@.len() as int),
            seen_matches(seen@, entries(chunks@, chunks@.len() as int), rows as int),
            forall|k: usize, x: usize|
                k < rank && x < rows ==> #[trigger] entries(
                    chunks@,
                    chunks@.len() as int,
                ).contains((k, x)),
        decreases DS4_FLASH_TP - rank,
    {
        let mut row: usize = 0;
        while row < rows
            invariant
                row <= rows,
                rank < DS4_FLASH_TP,
                chunks_header_ok(rows as int, hidden_size as int, chunks@),
                chunks_ok(chunks@, rows as int, hidden_size * 2, chunks@.len() as int),
                seen_matches(seen@, entries(chunks@, chunks@.len() as int), rows as int),
                forall|k: usize, x: usize|
                    k < DS4_FLASH_TP && x < rows && (k < rank || (k == rank && x < row))
                        ==> #[trigger] entries(chunks@, chunks@.len() as int).contains((k, x)),
            decreases rows - row,
        {
            assert(seen@[rank as int]@.len() == rows);
            if !seen[rank][row] {
                assert(!cell(seen@, rank as int, row as int));
                assert(!entries(chunks@, chunks@.len() as int).contains((rank, row)));
                return Err(Tp4HostChunkError::MissingRow { rank, row });
            }
            assert(cell(seen@, rank as int, row as int));
            row = row + 1;
        }
        rank = rank + 1;
    }
    Ok(rank_bytes)
}

proof fn lemma_row_count_keeps_overflow(rows: int, row_bytes: int)
    by (nonlinear_arith)
    requires
        rows >= 1,
        row_bytes > usize::MAX,
    ensures
        rows * row_bytes > usize::MAX,
{
}

proof fn lemma_distinct_push(met: Seq<(usize, usize)>, rows: int, entry: (usize, usize))
    requires
        entries_distinct(met, rows),
        !met.contains(entry),
        entry.0 < DS4_FLASH_TP,
        entry.1 < rows,
    ensures
        entries_distinct(met.push(entry), rows),
{
    let now = met.push(entry);
    assert forall|i: int, j: int| 0 <= i < now.len() && 0 <= j < now.len() && i != j implies now[i]
        != now[j] by {
        if i < met.len() {
            assert(met.contains(met[i]));
        }
        if j < met.len() {
            assert(met.contains(met[j]));
        }
    }
    assert forall|i: int| 0 <= i < now.len() implies (#[trigger] now[i]).0 < DS4_FLASH_TP
        && now[i].1 < rows by {
        if i < met.len() {
            assert(now[i] == met[i]);
        }
    }
}

proof fn lemma_bad_header_refuses(
    chunks: Seq<Ds4FlashTp4HostPartialChunk<'_>>,
    rows: int,
    hidden_size: int,
    n: int,
)
    requires
        0 <= n < chunks.len(),
        !chunk_header_ok(chunks[n], hidden_size * 2),
    ensures
        !chunks_accepted(rows, hidden_size, chunks),
{
}

/// Entries of the first `n` chunks stand unchanged at the front of the entries
/// of more chunks.
proof fn lemma_entries_prefix(chunks: Seq<Ds4FlashTp4HostPartialChunk<'_>>, n: int, m: int)
    requires
        0 <= n <= m,
    ensures
        entries(chunks, n).len() <= entries(chunks, m).len(),
        forall|i: int|
            0 <= i < entries(chunks, n).len() ==> #[trigger] entries(chunks, m)[i] == entries(
                chunks,
                n,
            )[i],
    decreases m - n,
{
    if n < m {
        lemma_entries_prefix(chunks, n, m - 1);
    }
}

proof fn lemma_bad_row_refuses(
    chunks: Seq<Ds4FlashTp4HostPartialChunk<'_>>,
    rows: int,
    hidden_size: int,
    n: int,
    p: int,
)
    requires
        0 <= n < chunks.len(),
        0 <= p < chunks[n].global_row_indices@.len(),
        chunks_ok(chunks, rows, hidden_size * 2, n),
        chunk_header_ok(chunks[n], hidden_size * 2),
        entries_distinct(entries_before(chunks, n, p), rows),
        chunks[n].global_row_indices@[p] >= rows || entries_before(chunks, n, p).contains(
            (chunks[n].rank, chunks[n].global_row_indices@[p]),
        ),
    ensures
        first_bad_row(
            chunks,
            rows,
            hidden_size * 2,
            n,
            chunks[n].global_row_indices@[p],
        ),
        !chunks_accepted(rows, hidden_size, chunks),
{
    let all = entries(chunks, chunks.len() as int);
    let upto = entries(chunks, n + 1);
    let start = entries(chunks, n).len();
    let row = chunks[n].global_row_indices@[p];
    let entry = (chunks[n].rank, row);
    lemma_entries_prefix(chunks, n + 1, chunks.len() as int);
    assert(upto == entries(chunks, n) + chunk_entries(chunks[n]));
    assert(upto[start + p] == entry);
    assert(all[start + p] == entry);
    let met = entries_before(chunks, n, p);
    assert forall|i: int| 0 <= i < met.len() implies #[trigger] met[i] == all[i] by {
        assert(met[i] == upto[i]);
        assert(all[i] == upto[i]);
    }
    if entries_distinct(all, rows) && row < rows {
        let i = choose|i: int| 0 <= i < met.len() && met[i] == entry;
        assert(all[i] == entry);
        assert(i != start + p);
        assert(false);
    }
}

/// Accepted chunks hold, for every rank and row, exactly one entry: there is
/// one and no two places hold the same.
pub proof fn law_accepted_chunks_hold_each_row_once(
    rows: int,
    hidden_size: int,
    chunks: Seq<Ds4FlashTp4HostPartialChunk<'_>>,
    rank: usize,
    row: usize,
)
    requires
        chunks_accepted(rows, hidden_size, chunks),
        rank < DS4_FLASH_TP,
        row < rows,
    ensures
        exists|i: int|
            0 <= i < entries(chunks, chunks.len() as int).len() && #[trigger] entries(
                chunks,
                chunks.len() as int,
            )[i] == (rank, row) && forall|j: int|
                0 <= j < entries(chunks, chunks.len() as int).len() && #[trigger] entries(
                    chunks,
                    chunks.len() as int,
                )[j] == (rank, row) ==> i == j,
{
    let all = entries(chunks, chunks.len() as int);
    assert(all.contains((rank, row)));
    let i = choose|i: int| 0 <= i < all.len() && all[i] == (rank, row);
    assert(all[i] == (rank, row));
}

} // verus!
