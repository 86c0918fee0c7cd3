//! Telemetry core of an attitude and heading reference monitor.
//!
//! The library holds the logic between a received datagram and an
//! orientation update: the sensor payload codec, the frame codec with its
//! four security modes, the sequence and timing tracker, the per-link
//! ingestion state and the bounded output queue.
pub mod attitude;
pub mod config;
pub mod crypto;
pub mod frame;
pub mod ingest;
pub mod inspector;
pub mod payload;
pub mod queue;
pub mod timing;
