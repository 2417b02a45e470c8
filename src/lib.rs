//! Live activity relay: anonymised broadcast of broker events to client connections.

pub mod anonymize;
pub mod message;
pub mod registry;
pub mod ingest;
