//! Scheduler execution: request shapes, prefill chunking and the sparse
//! wavefronts that drive chunks through the layers.
pub mod accounting;
pub mod attention;
pub mod batched;
pub mod begun;
pub mod bounded;
pub mod chunks;
pub mod lifetime;
pub mod outcome;
pub mod passing;
pub mod report;
pub mod retained;
pub mod rolling;
pub mod settings;
pub mod shape;
pub mod state;
pub mod terminal;
pub mod turns;
pub mod wavefront;
pub mod waves;
