//! Guarded, lifecycle-aware access to a single DMD 5620 terminal emulator.
//!
//! The emulator itself (processor, memory, serial controller) is the
//! `dmd_core` engine. This crate owns the one slot that may hold an engine,
//! dispatches one operation at a time to it, and turns every outcome into a
//! small status protocol.
pub mod engine;
pub mod status;
pub mod state;
pub mod facade;
pub mod guard;
