//! Orchestration library for hardware-description-language testbench runs.
//!
//! The library covers the decision-making core of the test runner: discovery
//! of test-unit directories, extraction of test names from native build
//! manifests, per-test configuration normalization, incremental-build
//! staleness detection, and the simulator-backend abstraction that turns a
//! "build and run this test" request into concrete tool command lines.
//! Filesystem access and process spawning live outside the library; every
//! function here works on plain values and carries a verified contract.

pub mod config;
pub mod discovery;
pub mod errors;
pub mod manifest;
pub mod orchestrator;
pub mod paths;
pub mod simulator;
pub mod staleness;
