//! Argument marshalling for the x86_64 waitpkg instructions (`UMONITOR`,
//! `UMWAIT`, `TPAUSE`).
//!
//! The instructions take their timestamp-counter deadline as two 32-bit
//! halves. This library computes, for each caller-facing operation, exactly
//! the arguments that the instruction receives, and proves that nothing is
//! lost or changed on the way. Executing the instruction is left to the
//! platform layer.
pub mod counter;
pub mod instruction;
