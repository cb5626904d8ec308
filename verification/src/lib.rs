//! Dispatch and aggregation layer of a command-line sudoku utility.
//!
//! The puzzle work itself (parsing a line into a grid, solving, counting
//! solutions, generating, shuffling, canonicalizing) is done by the `sudoku`
//! crate, reached through the trusted wrappers in [`engine`].  What this
//! library states and proves is the orchestration around those calls:
//!
//! - every batch of input lines yields exactly one outcome per line, in input
//!   order, whether the batch runs sequentially or on a worker pool
//!   ([`strategy`]);
//! - the per-line outcomes are classified and reduced to run statistics whose
//!   counters partition the batch ([`stats`]);
//! - outcomes and statistics are rendered to the exact output text
//!   ([`render`]);
//! - raw source text is split into input lines ([`ingest`]).

pub mod engine;
pub mod ingest;
pub mod outcome;
pub mod parallel;
pub mod render;
pub mod stats;
pub mod strategy;
pub mod verbs;

mod clock;
