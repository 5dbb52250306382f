//! The sparse half of a block: the views of one request's router and shared
//! expert, and the joint buffers through which several requests share one
//! dispatch.
use vstd::prelude::*;

use crate::device::Ds41rtDeviceBuffer;
use crate::dspark::plan::{
    block_views, plan_limits, proposal_views, terminal_views, DsparkVariant,
    DSPARK_PROPOSAL_ROWS_PER_REQUEST,
};
use crate::dspark::storage::{
    dspark_joint_request_range_byte_span, DeepseekV4DsparkBlockPreDispatchBuffers,
    DeepseekV4DsparkDeviceStorage, DeviceCopy, JointSpanError, StorageError,
};
use crate::dspark::storage::{
    entry_views_of, joint_span_error, proposal_views_of, request_bytes, request_views_of,
    terminal_views_of,
};

verus! {

/// The bytes of the routes of one request: six words per row.
pub const REQUEST_ROUTE_BYTES: usize = 120;

/// The bytes of the route scores of one request.
pub open spec fn request_score_bytes(variant: DsparkVariant) -> int {
    match variant {
        DsparkVariant::Flash => 5_240,
        DsparkVariant::Pro => 7_800,
    }
}

/// The views of one request's router and shared expert.
pub open spec fn pre_dispatch_views_of(
    storage: DeepseekV4DsparkDeviceStorage,
    slot: int,
) -> DeepseekV4DsparkBlockPreDispatchBuffers {
    let workspace = entry_views_of(storage).block_workspace;
    let block = storage.plan.block;
    let delta = request_bytes(storage.plan.hidden as int);
    DeepseekV4DsparkBlockPreDispatchBuffers {
        dispatch_hidden: request_views_of(storage, slot).collapsed_hidden,
        route_indices: workspace.part(
            block.route_indices.offset as int,
            REQUEST_ROUTE_BYTES as int,
        ),
        route_scores: workspace.part(
            block.route_scores.offset as int,
            request_score_bytes(storage.plan.variant),
        ),
        route_weights: workspace.part(
            block.route_weights.offset as int,
            REQUEST_ROUTE_BYTES as int,
        ),
        shared_gate: workspace.part(
            block.shared_gate.offset as int,
            block.shared_gate.bytes as int,
        ),
        shared_up: workspace.part(block.shared_up.offset as int, block.shared_up.bytes as int),
        shared_activated: workspace.part(
            block.shared_activated.offset as int,
            block.shared_activated.bytes as int,
        ),
        shared_output: workspace.part(block.shared_delta.offset as int, delta),
        ffn_delta: workspace.part(block.ffn_delta.offset as int, delta),
    }
}

/// Why one request has no views, if it has none.
pub open spec fn pre_dispatch_error(
    storage: DeepseekV4DsparkDeviceStorage,
    slot: usize,
) -> Option<StorageError> {
    if slot >= storage.plan.max_batch {
        Some(StorageError::Slot { slot, max_batch: storage.plan.max_batch })
    } else if storage.entry_view_error() is Some {
        Some(StorageError::View { error: storage.entry_view_error()->Some_0 })
    } else if storage.plan.block.reduction_f32.offset >= storage.plan.block.ffn_delta.offset {
        Some(StorageError::WorkspaceViews)
    } else {
        None
    }
}

fn part_of(buffer: Ds41rtDeviceBuffer, offset: usize, bytes: usize) -> (view: Ds41rtDeviceBuffer)
    requires
        offset + bytes <= buffer.bytes,
        buffer.ptr + buffer.bytes <= usize::MAX,
    ensures
        view == buffer.part(offset as int, bytes as int),
{
    Ds41rtDeviceBuffer {
        ptr: buffer.ptr + offset,
        bytes,
        device_id: buffer.device_id,
        flags: buffer.flags,
    }
}

proof fn lemma_joint_share(storage: DeepseekV4DsparkDeviceStorage, index: int)
    requires
        storage.wf(),
        0 <= index <= storage.plan.max_batch,
    ensures
        request_bytes(storage.plan.hidden as int) <= usize::MAX,
        0 <= index * request_bytes(storage.plan.hidden as int),
        storage.plan.max_batch * request_bytes(storage.plan.hidden as int) == plan_limits(
            storage.plan,
        ).row_hidden_bytes(),
        index * request_bytes(storage.plan.hidden as int) <= plan_limits(
            storage.plan,
        ).row_hidden_bytes() <= usize::MAX,
{
    let unit = request_bytes(storage.plan.hidden as int);
    let batch = storage.plan.max_batch as int;
    match storage.plan.variant {
        DsparkVariant::Flash => {
            assert(unit == 40_960);
            assert(batch * unit == batch * 40_960) by (nonlinear_arith)
                requires
                    unit == 40_960,
            ;
        },
        DsparkVariant::Pro => {
            assert(unit == 71_680);
            assert(batch * unit == batch * 71_680) by (nonlinear_arith)
                requires
                    unit == 71_680,
            ;
        },
    }
    assert(0 <= index * unit <= batch * unit) by (nonlinear_arith)
        requires
            0 <= index <= batch,
            unit >= 0,
    ;
    let views = proposal_views(storage.plan.proposal);
    assert(views[4] == storage.plan.proposal.normalized_hidden);
}

/// The copy that keeps a shared-expert result for the joint dispatch.
pub open spec fn joint_stage(
    storage: DeepseekV4DsparkDeviceStorage,
    index: int,
    shared_delta: Ds41rtDeviceBuffer,
) -> DeviceCopy {
    let bytes = request_bytes(storage.plan.hidden as int);
    DeviceCopy {
        destination: proposal_views_of(storage).normalized_hidden.part(index * bytes, bytes),
        source: shared_delta,
        bytes: bytes as usize,
    }
}

/// The joint views of a range of active requests: their shared-expert results and
/// the place of their reduced results.
pub open spec fn joint_range(storage: DeepseekV4DsparkDeviceStorage, start: int, end: int) -> (
    Ds41rtDeviceBuffer,
    Ds41rtDeviceBuffer,
) {
    let unit = request_bytes(storage.plan.hidden as int);
    (
        proposal_views_of(storage).normalized_hidden.part(start * unit, (end - start) * unit),
        terminal_views_of(storage).compact_normalized_hidden.part(
            start * unit,
            (end - start) * unit,
        ),
    )
}

impl DeepseekV4DsparkDeviceStorage {
    /// The views of one request's router and shared expert.
    pub fn block_pre_dispatch_buffers(&self, request_slot: usize) -> (result: Result<
        DeepseekV4DsparkBlockPreDispatchBuffers,
        StorageError,
    >)
        requires
            self.wf(),
        ensures
            match pre_dispatch_error(*self, request_slot) {
                Some(e) => result is Err && result->Err_0 == e,
                None => result is Ok && result->Ok_0 == pre_dispatch_views_of(
                    *self,
                    request_slot as int,
                ),
            },
    {
        let proposal = match self.proposal_request_buffers(request_slot) {
            Ok(proposal) => proposal,
            Err(error) => return Err(error),
        };
        let workspace = match self.entry_buffers() {
            Ok(entry) => entry.block_workspace,
            Err(error) => return Err(StorageError::View { error }),
        };
        let plan = self.plan.block;
        let score_bytes: usize = match self.plan.variant {
            DsparkVariant::Flash => 5_240,
            DsparkVariant::Pro => 7_800,
        };
        let delta_bytes: usize = 10 * self.plan.hidden;
        proof {
            let views = block_views(plan);
            assert(views[0] == plan.route_indices && views[1] == plan.route_scores && views[2]
                == plan.route_weights && views[3] == plan.shared_gate && views[4] == plan.shared_up
                && views[5] == plan.shared_activated && views[6] == plan.shared_delta && views[7]
                == plan.reduction_f32 && views[8] == plan.ffn_delta);
            lemma_joint_share(*self, 1);
            assert(1 * request_bytes(self.plan.hidden as int) == request_bytes(
                self.plan.hidden as int,
            ));
        }
        if REQUEST_ROUTE_BYTES > plan.route_indices.bytes || score_bytes > plan.route_scores.bytes
            || REQUEST_ROUTE_BYTES > plan.route_weights.bytes || delta_bytes
            > plan.shared_delta.bytes || delta_bytes > plan.ffn_delta.bytes
            || plan.reduction_f32.bytes < delta_bytes * 2 || plan.reduction_f32.offset
            >= plan.ffn_delta.offset {
            return Err(StorageError::WorkspaceViews);
        }
        Ok(
            DeepseekV4DsparkBlockPreDispatchBuffers {
                dispatch_hidden: proposal.collapsed_hidden,
                route_indices: part_of(
                    workspace,
                    plan.route_indices.offset,
                    REQUEST_ROUTE_BYTES,
                ),
                route_scores: part_of(workspace, plan.route_scores.offset, score_bytes),
                route_weights: part_of(
                    workspace,
                    plan.route_weights.offset,
                    REQUEST_ROUTE_BYTES,
                ),
                shared_gate: part_of(workspace, plan.shared_gate.offset, plan.shared_gate.bytes),
                shared_up: part_of(workspace, plan.shared_up.offset, plan.shared_up.bytes),
                shared_activated: part_of(
                    workspace,
                    plan.shared_activated.offset,
                    plan.shared_activated.bytes,
                ),
                shared_output: part_of(workspace, plan.shared_delta.offset, delta_bytes),
                ffn_delta: part_of(workspace, plan.ffn_delta.offset, delta_bytes),
            },
        )
    }

    /// The copy that keeps the shared-expert result of one active request for
    /// the joint dispatch.
    pub fn stage_joint_block_shared_delta(
        &self,
        active_request_index: usize,
        rows: usize,
        shared_delta: Ds41rtDeviceBuffer,
    ) -> (result: Result<DeviceCopy, StorageError>)
        requires
            self.wf(),
        ensures
            result is Ok <==> rows == DSPARK_PROPOSAL_ROWS_PER_REQUEST && active_request_index
                < self.plan.max_batch,
            result matches Ok(copy) ==> copy == joint_stage(
                *self,
                active_request_index as int,
                shared_delta,
            ),
            result matches Err(e) ==> e == (StorageError::JointSlot {
                index: active_request_index,
                rows,
                max_batch: self.plan.max_batch,
            }),
    {
        if rows != DSPARK_PROPOSAL_ROWS_PER_REQUEST || active_request_index
            >= self.plan.max_batch {
            return Err(
                StorageError::JointSlot {
                    index: active_request_index,
                    rows,
                    max_batch: self.plan.max_batch,
                },
            );
        }
        let bytes: usize = 10 * self.plan.hidden;
        proof {
            lemma_joint_share(*self, active_request_index as int);
            lemma_joint_share(*self, active_request_index + 1);
            assert((active_request_index + 1) * bytes == active_request_index * bytes + bytes)
                by (nonlinear_arith);
            let views = proposal_views(self.plan.proposal);
            assert(views[4] == self.plan.proposal.normalized_hidden);
        }
        let joint = self.proposal_buffers().normalized_hidden;
        let destination = part_of(joint, active_request_index * bytes, bytes);
        Ok(DeviceCopy { destination, source: shared_delta, bytes })
    }

    /// The joint views of a range of active requests: their shared-expert
    /// results and the place of their reduced results.
    pub fn joint_block_tp4_dispatch_buffers_for_range(&self, start: usize, end: usize) -> (result:
        Result<(Ds41rtDeviceBuffer, Ds41rtDeviceBuffer), StorageError>)
        requires
            self.wf(),
        ensures
            result is Ok <==> start < end <= self.plan.max_batch,
            result matches Ok(views) ==> views == joint_range(*self, start as int, end as int),
            result matches Err(e) ==> e == (StorageError::JointSpan {
                error: JointSpanError::Range { start, end, max_batch: self.plan.max_batch },
            }),
    {
        proof {
            if start < end <= self.plan.max_batch {
                let unit = request_bytes(self.plan.hidden as int);
                lemma_joint_share(*self, start as int);
                lemma_joint_share(*self, end - start);
                lemma_joint_share(*self, end as int);
                assert(start * unit + (end - start) * unit == end * unit) by (nonlinear_arith);
            }
            assert(joint_span_error(start, end, self.plan.max_batch, self.plan.hidden) is None
                <==> start < end <= self.plan.max_batch);
        }
        let span = match dspark_joint_request_range_byte_span(
            start,
            end,
            self.plan.max_batch,
            self.plan.hidden,
        ) {
            Ok(span) => span,
            Err(error) => return Err(StorageError::JointSpan { error }),
        };
        proof {
            let views = proposal_views(self.plan.proposal);
            assert(views[4] == self.plan.proposal.normalized_hidden);
            let terminals = terminal_views(self.plan.terminal);
            assert(terminals[0] == self.plan.terminal.compact_normalized_hidden);
        }
        let shared = part_of(
            self.proposal_buffers().normalized_hidden,
            span.start,
            span.end - span.start,
        );
        let reduced = part_of(
            self.terminal_buffers().compact_normalized_hidden,
            span.start,
            span.end - span.start,
        );
        Ok((shared, reduced))
    }

    /// The copy that hands the reduced result of one active request back to its
    /// slot.
    pub fn load_joint_block_ffn_delta(
        &self,
        active_request_index: usize,
        request_slot: usize,
    ) -> (result: Result<DeviceCopy, StorageError>)
        requires
            self.wf(),
        ensures
            ({
                let error = if active_request_index >= self.plan.max_batch || request_slot
                    >= self.plan.max_batch {
                    Some(
                        StorageError::JointSource {
                            index: active_request_index,
                            slot: request_slot,
                            max_batch: self.plan.max_batch,
                        },
                    )
                } else {
                    pre_dispatch_error(*self, request_slot)
                };
                match error {
                    Some(e) => result is Err && result->Err_0 == e,
                    None => {
                        let bytes = request_bytes(self.plan.hidden as int);
                        &&& result is Ok
                        &&& result->Ok_0.destination == pre_dispatch_views_of(
                            *self,
                            request_slot as int,
                        ).ffn_delta
                        &&& result->Ok_0.source == terminal_views_of(
                            *self,
                        ).compact_normalized_hidden.part(active_request_index * bytes, bytes)
                        &&& result->Ok_0.bytes == bytes
                    },
                }
            }),
    {
        if active_request_index >= self.plan.max_batch || request_slot >= self.plan.max_batch {
            return Err(
                StorageError::JointSource {
                    index: active_request_index,
                    slot: request_slot,
                    max_batch: self.plan.max_batch,
                },
            );
        }
        let bytes: usize = 10 * self.plan.hidden;
        proof {
            lemma_joint_share(*self, active_request_index as int);
            lemma_joint_share(*self, active_request_index + 1);
            assert((active_request_index + 1) * bytes == active_request_index * bytes + bytes)
                by (nonlinear_arith);
            let terminals = terminal_views(self.plan.terminal);
            assert(terminals[0] == self.plan.terminal.compact_normalized_hidden);
        }
        let joint = self.terminal_buffers().compact_normalized_hidden;
        let source = part_of(joint, active_request_index * bytes, bytes);
        match self.block_pre_dispatch_buffers(request_slot) {
            Ok(buffers) => Ok(DeviceCopy { destination: buffers.ffn_delta, source, bytes }),
            Err(error) => Err(error),
        }
    }
}

} // verus!
