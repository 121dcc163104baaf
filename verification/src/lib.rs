//! Orchestration core for fuzz-testing campaigns over a shared pool of fuzz
//! targets and interchangeable fuzzing engines.
//!
//! The crate holds the logic of the orchestrator: target discovery by scanning
//! source text, the engine directory policy, workspace materialization plans,
//! harness templating, exit-status classification, the continuous-campaign
//! state machine, and the approximate-match suggestion helper. Filesystem
//! work, subprocess launching and command-line handling live outside, and feed
//! these functions plain values.

pub mod campaign;
pub mod discovery;
pub mod errors;
pub mod paths;
pub mod plans;
pub mod suggest;
pub mod targets;
pub mod template;
pub mod text;
