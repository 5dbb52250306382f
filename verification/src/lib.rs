//! Planning and validation core of the full-model runtime: catalog coverage,
//! execution plans, scheduler waves, chunk wavefronts, the strict four-rank
//! tensor-parallel reduction and the dSpark device storage plan.
//!
//! Everything here works on plain values. Device memory is described by
//! addresses and byte counts, and work for a device or a network peer is
//! returned as a list of steps.
pub mod admitted;
pub mod arena;
pub mod catalogued;
pub mod coverage;
pub mod device;
pub mod dspark;
pub mod execution;
pub mod execution_plan;
pub mod grid;
pub mod landing;
pub mod model;
pub mod planned;
pub mod readable;
pub mod reduced;
pub mod residual;
pub mod scheduler;
pub mod sparse_block;
pub mod sparse_launch;
pub mod text;
pub mod tp4;
