//! Control of a USB lighting peripheral: finding it among the host's devices,
//! encoding its fixed-format command frames, and the decisions around opening
//! and writing to it on two transport backends. The caller performs the I/O
//! each session hands out and reports back what happened.
pub mod identity;
pub mod locator;
pub mod error;
pub mod protocol;
pub mod models;
pub mod report;
pub mod commands;
pub mod raw;
