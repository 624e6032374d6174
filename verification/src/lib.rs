//! Session layer for a vendor camera driver: device discovery, handle
//! lifecycle, synchronous frame capture and streaming control.
//!
//! The driver itself is a C shared library that only unverified host code can
//! call. This crate holds everything that can be decided and checked without
//! crossing that boundary: the session state machine, the status-code
//! translation, and the copy of driver-owned frame memory into owned buffers.
//! Host code performs each driver call and hands the numeric status and raw
//! data back to the functions here, which gate, validate and commit them.

pub mod descriptor;
pub mod frame;
pub mod laws;
pub mod session;
pub mod status;
