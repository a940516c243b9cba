//! Bootstrap orchestration for a patched BPF toolchain.
//!
//! The library decides every step of the toolchain setup pipeline: which
//! external command to run next, which file to write and with what content,
//! and how to react to each outcome. A thin unverified runner performs the
//! commands and feeds the results back as events.

pub mod config;
pub mod consts;
pub mod laws;
pub mod model;
pub mod paths;
pub mod payload;
pub mod pipeline;
