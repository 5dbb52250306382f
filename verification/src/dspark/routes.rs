//! The routes that a block's router produced for one request.
use vstd::prelude::*;

use crate::device::Ds41rtDeviceBuffer;
use crate::dspark::plan::{DSPARK_PROPOSAL_ROWS_PER_REQUEST, DSPARK_TOP_K};
use crate::dspark::storage::request_bytes;
use crate::dspark::storage::{
    DeepseekV4DsparkBlockPreDispatchBuffers, DeepseekV4DsparkDeviceStorage,
};

verus! {

/// The routes of one request: six for each of five rows.
pub const REQUEST_ROUTES: usize = 30;

/// The bit pattern of positive infinity as a 32-bit floating-point value.
pub const WEIGHT_INFINITY_BITS: u32 = 0x7f80_0000;

/// The bit pattern of minus zero.
pub const WEIGHT_MINUS_ZERO_BITS: u32 = 0x8000_0000;

/// Why a dispatch is refused.
#[derive(Clone, Copy, Debug, PartialEq, Eq, Structural)]
pub enum RouteError {
    Geometry { routed_experts: usize },
    Buffers,
    RouteImage,
    RepeatedExpert { row: usize, expert: u32 },
    WeightSum { row: usize },
}

/// The variant routes over its own number of experts.
pub open spec fn dispatch_geometry(storage: DeepseekV4DsparkDeviceStorage, routed_experts: usize) -> bool {
    routed_experts == storage.plan.variant.routed_experts_spec()
}

/// The views have the sizes of one request and are on the first device.
pub open spec fn dispatch_buffers_ok(
    storage: DeepseekV4DsparkDeviceStorage,
    buffers: DeepseekV4DsparkBlockPreDispatchBuffers,
) -> bool {
    let bytes = request_bytes(storage.plan.hidden as int);
    &&& buffers.dispatch_hidden.bytes == bytes
    &&& buffers.route_indices.bytes == 120
    &&& buffers.route_weights.bytes == 120
    &&& buffers.shared_output.bytes == bytes
    &&& buffers.ffn_delta.bytes == bytes
    &&& buffers.dispatch_hidden.device_id == 0
    &&& buffers.route_indices.device_id == 0
    &&& buffers.route_weights.device_id == 0
    &&& buffers.shared_output.device_id == 0
    &&& buffers.ffn_delta.device_id == 0
}

/// The bit pattern is that of a finite number that is not negative.
pub open spec fn weight_ok(bits: u32) -> bool {
    bits < WEIGHT_INFINITY_BITS || bits == WEIGHT_MINUS_ZERO_BITS
}

/// Thirty routes to experts of the model with usable weights.
pub open spec fn route_image_ok(
    indices: Seq<u32>,
    weight_bits: Seq<u32>,
    routed_experts: usize,
) -> bool {
    &&& indices.len() == REQUEST_ROUTES
    &&& weight_bits.len() == REQUEST_ROUTES
    &&& forall|i: int| 0 <= i < indices.len() ==> #[trigger] indices[i] < routed_experts
    &&& forall|i: int| 0 <= i < weight_bits.len() ==> weight_ok(#[trigger] weight_bits[i])
}

/// Route `offset` of a row goes to an expert that the row already has.
pub open spec fn route_repeats(indices: Seq<u32>, row: int, offset: int) -> bool {
    exists|k: int| 0 <= k < offset && #[trigger] indices[6 * row + k] == indices[6 * row + offset]
}

/// Route `offset` is the first of a row that repeats an expert.
pub open spec fn first_repeat(indices: Seq<u32>, row: int, offset: int) -> bool {
    &&& 0 <= offset < 6
    &&& route_repeats(indices, row, offset)
    &&& forall|k: int| 0 <= k < offset ==> !#[trigger] route_repeats(indices, row, k)
}

impl DeepseekV4DsparkDeviceStorage {
    /// Checks that the views of one request can be read for a dispatch, and
    /// gives the bytes of its hidden rows and of its routes.
    pub fn admit_block_tp4_dispatch(
        &self,
        buffers: &DeepseekV4DsparkBlockPreDispatchBuffers,
        routed_experts: usize,
    ) -> (result: Result<(usize, usize), RouteError>)
        requires
            self.wf(),
        ensures
            result is Ok <==> dispatch_geometry(*self, routed_experts) && dispatch_buffers_ok(
                *self,
                *buffers,
            ),
            result matches Ok((hidden_bytes, route_bytes)) ==> hidden_bytes == request_bytes(
                self.plan.hidden as int,
            ) && route_bytes == 120,
            result matches Err(e) ==> e == (if !dispatch_geometry(*self, routed_experts) {
                RouteError::Geometry { routed_experts }
            } else {
                RouteError::Buffers
            }),
    {
        if routed_experts != self.plan.variant.routed_experts() {
            return Err(RouteError::Geometry { routed_experts });
        }
        let hidden_bytes: usize = 10 * self.plan.hidden;
        if buffers.dispatch_hidden.bytes != hidden_bytes || buffers.route_indices.bytes != 120
            || buffers.route_weights.bytes != 120 || buffers.shared_output.bytes != hidden_bytes
            || buffers.ffn_delta.bytes != hidden_bytes || buffers.dispatch_hidden.device_id != 0
            || buffers.route_indices.device_id != 0 || buffers.route_weights.device_id != 0
            || buffers.shared_output.device_id != 0 || buffers.ffn_delta.device_id != 0 {
            return Err(RouteError::Buffers);
        }
        Ok((hidden_bytes, 120))
    }
}

/// Checks the routes of one request. `weight_bits` are the bit patterns of
/// their weights.
pub fn validate_route_image(indices: &[u32], weight_bits: &[u32], routed_experts: usize) -> (result:
    Result<(), RouteError>)
    ensures
        result is Ok <==> route_image_ok(indices@, weight_bits@, routed_experts),
        result matches Err(e) ==> e == RouteError::RouteImage,
{
    if indices.len() != REQUEST_ROUTES || weight_bits.len() != REQUEST_ROUTES {
        return Err(RouteError::RouteImage);
    }
    let mut i: usize = 0;
    while i < REQUEST_ROUTES
        invariant
            i <= REQUEST_ROUTES,
            indices@.len() == REQUEST_ROUTES,
            weight_bits@.len() == REQUEST_ROUTES,
            forall|k: int| 0 <= k < i ==> #[trigger] indices@[k] < routed_experts,
            forall|k: int| 0 <= k < i ==> weight_ok(#[trigger] weight_bits@[k]),
        decreases REQUEST_ROUTES - i,
    {
        if indices[i] as usize >= routed_experts {
            assert(!(indices@[i as int] < routed_experts));
            return Err(RouteError::RouteImage);
        }
        let bits: u32 = weight_bits[i];
        if bits >= WEIGHT_INFINITY_BITS && bits != WEIGHT_MINUS_ZERO_BITS {
            assert(!weight_ok(weight_bits@[i as int]));
            return Err(RouteError::RouteImage);
        }
        i = i + 1;
    }
    Ok(())
}

/// The first expert that a row of routes repeats, if any.
pub fn repeated_expert(indices: &[u32], row: usize) -> (result: Result<(), RouteError>)
    requires
        indices@.len() == REQUEST_ROUTES,
        row < DSPARK_PROPOSAL_ROWS_PER_REQUEST,
    ensures
        match result {
            Ok(()) => forall|offset: int|
                0 <= offset < 6 ==> !#[trigger] route_repeats(indices@, row as int, offset),
            Err(e) => exists|offset: int|
                #[trigger] first_repeat(indices@, row as int, offset) && e
                    == (RouteError::RepeatedExpert { row, expert: indices@[6 * row + offset] }),
        },
{
    let mut offset: usize = 0;
    while offset < DSPARK_TOP_K
        invariant
            offset <= DSPARK_TOP_K,
            indices@.len() == REQUEST_ROUTES,
            row < DSPARK_PROPOSAL_ROWS_PER_REQUEST,
            forall|k: int| 0 <= k < offset ==> !#[trigger] route_repeats(indices@, row as int, k),
        decreases DSPARK_TOP_K - offset,
    {
        let expert: u32 = indices[6 * row + offset];
        let mut k: usize = 0;
        while k < offset
            invariant
                k <= offset < DSPARK_TOP_K,
                indices@.len() == REQUEST_ROUTES,
                row < DSPARK_PROPOSAL_ROWS_PER_REQUEST,
                expert == indices@[6 * row + offset],
                forall|j: int| 0 <= j < offset ==> !#[trigger] route_repeats(indices@, row as int, j),
                forall|j: int| 0 <= j < k ==> #[trigger] indices@[6 * row + j] != expert,
            decreases offset - k,
        {
            if indices[6 * row + k] == expert {
                proof {
                    assert(indices@[6 * row + k as int] == indices@[6 * row + offset as int]);
                    assert(route_repeats(indices@, row as int, offset as int));
                    assert(first_repeat(indices@, row as int, offset as int));
                }
                return Err(RouteError::RepeatedExpert { row, expert });
            }
            k = k + 1;
        }
        assert(!route_repeats(indices@, row as int, offset as int));
        offset = offset + 1;
    }
    Ok(())
}

/// What a dispatch sends of one request: its hidden rows, the routes of every
/// row, and where its shared and reduced results are.
#[derive(Debug)]
pub struct DeepseekV4DsparkTp4DispatchInput {
    pub rows: usize,
    pub hidden_bf16: Vec<u8>,
    pub route_indices: Vec<u32>,
    pub route_weight_bits: Vec<u32>,
    pub shared_delta: Ds41rtDeviceBuffer,
    pub ffn_delta: Ds41rtDeviceBuffer,
}

/// The row repeats no expert and its weights add up.
pub open spec fn row_ok(indices: Seq<u32>, sums_ok: Seq<bool>, row: int) -> bool {
    &&& forall|offset: int| 0 <= offset < 6 ==> !#[trigger] route_repeats(indices, row, offset)
    &&& sums_ok[row]
}

/// The first row that is not as it should be, and why.
pub open spec fn rows_refused(indices: Seq<u32>, sums_ok: Seq<bool>, error: RouteError) -> bool {
    exists|row: int| #[trigger] row_refused(indices, sums_ok, row, error)
}

/// The row is the first that is not as it should be: it repeats an expert, or
/// its weights do not add up.
pub open spec fn row_refused(
    indices: Seq<u32>,
    sums_ok: Seq<bool>,
    row: int,
    error: RouteError,
) -> bool {
    &&& 0 <= row < 5
    &&& forall|k: int| 0 <= k < row ==> #[trigger] row_ok(indices, sums_ok, k)
    &&& match error {
        RouteError::RepeatedExpert { row: r, expert } => r == row && exists|offset: int|
            #[trigger] first_repeat(indices, row, offset) && expert == indices[6 * row + offset],
        RouteError::WeightSum { row: r } => {
            &&& r == row
            &&& !sums_ok[row]
            &&& forall|offset: int|
                0 <= offset < 6 ==> !#[trigger] route_repeats(indices, row, offset)
        },
        _ => false,
    }
}

/// What was read back of one request: its hidden rows, the experts and the bit
/// patterns of the weights of its routes, and of every row whether its weights
/// add up to the scale of the variant.
#[derive(Debug)]
pub struct RouteImage {
    pub hidden_bf16: Vec<u8>,
    pub indices: Vec<u32>,
    pub weight_bits: Vec<u32>,
    pub sums_ok: [bool; 5],
}

/// The request can be dispatched.
pub open spec fn dispatch_accepted(
    storage: DeepseekV4DsparkDeviceStorage,
    buffers: DeepseekV4DsparkBlockPreDispatchBuffers,
    routed_experts: usize,
    image: RouteImage,
) -> bool {
    &&& dispatch_geometry(storage, routed_experts)
    &&& dispatch_buffers_ok(storage, buffers)
    &&& route_image_ok(image.indices@, image.weight_bits@, routed_experts)
    &&& forall|row: int|
        0 <= row < 5 ==> #[trigger] row_ok(image.indices@, image.sums_ok@, row)
}

/// What is dispatched of a request: what was read back of it, and where its
/// results belong.
pub open spec fn dispatch_input_ok(
    input: DeepseekV4DsparkTp4DispatchInput,
    storage: DeepseekV4DsparkDeviceStorage,
    buffers: DeepseekV4DsparkBlockPreDispatchBuffers,
    image: RouteImage,
) -> bool {
    &&& input.hidden_bf16@.len() == 10 * storage.plan.hidden
    &&& input.rows == DSPARK_PROPOSAL_ROWS_PER_REQUEST
    &&& input.hidden_bf16@ == image.hidden_bf16@
    &&& input.route_indices@ == image.indices@
    &&& input.route_weight_bits@ == image.weight_bits@
    &&& input.shared_delta == buffers.shared_output
    &&& input.ffn_delta == buffers.ffn_delta
}

/// The first reason why a request cannot be dispatched.
pub open spec fn dispatch_refused(
    storage: DeepseekV4DsparkDeviceStorage,
    buffers: DeepseekV4DsparkBlockPreDispatchBuffers,
    routed_experts: usize,
    image: RouteImage,
    error: RouteError,
) -> bool {
    if !dispatch_geometry(storage, routed_experts) {
        error == (RouteError::Geometry { routed_experts })
    } else if !dispatch_buffers_ok(storage, buffers) {
        error == RouteError::Buffers
    } else if !route_image_ok(image.indices@, image.weight_bits@, routed_experts) {
        error == RouteError::RouteImage
    } else {
        rows_refused(image.indices@, image.sums_ok@, error)
    }
}

impl DeepseekV4DsparkDeviceStorage {
    /// Takes in what was read back of one request for a dispatch: as many hidden
    /// bytes as its admission asks for, two for every value of its five rows.
    pub fn read_block_tp4_dispatch_input(
        &self,
        buffers: &DeepseekV4DsparkBlockPreDispatchBuffers,
        routed_experts: usize,
        image: RouteImage,
    ) -> (result: Result<DeepseekV4DsparkTp4DispatchInput, RouteError>)
        requires
            self.wf(),
            dispatch_geometry(*self, routed_experts) && dispatch_buffers_ok(*self, *buffers)
                ==> image.hidden_bf16@.len() == 10 * self.plan.hidden,
        ensures
            result is Ok <==> dispatch_accepted(*self, *buffers, routed_experts, image),
            result matches Ok(input) ==> dispatch_input_ok(input, *self, *buffers, image),
            result matches Err(e) ==> dispatch_refused(*self, *buffers, routed_experts, image, e),
    {
        if let Err(error) = self.admit_block_tp4_dispatch(buffers, routed_experts) {
            return Err(error);
        }
        if let Err(error) = validate_route_image(
            image.indices.as_slice(),
            image.weight_bits.as_slice(),
            routed_experts,
        ) {
            return Err(error);
        }
        let mut row: usize = 0;
        while row < DSPARK_PROPOSAL_ROWS_PER_REQUEST
            invariant
                row <= DSPARK_PROPOSAL_ROWS_PER_REQUEST,
                dispatch_geometry(*self, routed_experts),
                dispatch_buffers_ok(*self, *buffers),
                route_image_ok(image.indices@, image.weight_bits@, routed_experts),
                forall|k: int|
                    0 <= k < row ==> #[trigger] row_ok(image.indices@, image.sums_ok@, k),
            decreases DSPARK_PROPOSAL_ROWS_PER_REQUEST - row,
        {
            if let Err(error) = repeated_expert(image.indices.as_slice(), row) {
                proof {
                    assert(row_refused(image.indices@, image.sums_ok@, row as int, error));
                    assert(!row_ok(image.indices@, image.sums_ok@, row as int));
                }
                return Err(error);
            }
            if !image.sums_ok[row] {
                let error = RouteError::WeightSum { row };
                proof {
                    assert(row_refused(image.indices@, image.sums_ok@, row as int, error));
                    assert(!row_ok(image.indices@, image.sums_ok@, row as int));
                }
                return Err(error);
            }
            assert(row_ok(image.indices@, image.sums_ok@, row as int));
            row = row + 1;
        }
        Ok(
            DeepseekV4DsparkTp4DispatchInput {
                rows: DSPARK_PROPOSAL_ROWS_PER_REQUEST,
                hidden_bf16: image.hidden_bf16,
                route_indices: image.indices,
                route_weight_bits: image.weight_bits,
                shared_delta: buffers.shared_output,
                ffn_delta: buffers.ffn_delta,
            },
        )
    }
}

} // verus!
