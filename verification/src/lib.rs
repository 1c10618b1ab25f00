//! Provisioning engine for a subscriber registry driven over an interactive
//! line-oriented console.
//!
//! The library contains the verified core: the allocation table that assigns
//! each subscriber identity a stable default number, the validation of
//! console responses together with the fixed command grammar, and the
//! per-record provisioning state machine. Reading input files and driving
//! the socket are left to the surrounding application, which feeds plain
//! values in and carries the decided actions out.

pub mod allocation;
pub mod orchestrator;
pub mod session;
pub mod text;
