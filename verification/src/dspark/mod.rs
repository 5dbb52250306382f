//! The integrated dSpark drafter: its device storage plan, the views into it,
//! the graphs that are captured over it and the batches that run through them.
pub mod capture;
pub mod chunks;
pub mod entry;
pub mod graphs;
pub mod handover;
pub mod joint;
pub mod launch;
pub mod launched;
pub mod messages;
pub mod named;
pub mod pages;
pub mod placed;
pub mod plan;
pub mod progress;
pub mod queries;
pub mod recorded;
pub mod routes;
pub mod run;
pub mod storage;
pub mod terminal;
pub mod told;
pub mod weights;
