//! Ingestion core of a telemetry base station: the connection state machine
//! that acquires, clears and reads a serial sensor node, the decoder of its
//! fixed-size binary frames, and the schema-driven mapping of decoded fields
//! to named, scaled values.

pub mod error;
pub mod frame;
pub mod schema;
pub mod link;
pub mod pipeline;
