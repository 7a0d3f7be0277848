//! Lifecycle control and programmatic ingestion for an embedded event pipeline.
//!
//! The modules hold the decisions of the embedding layer: which channel feeds
//! which endpoint, how decoded payloads become one ingress batch, which signal
//! ends a running pipeline, and which lifecycle transitions are legal. The
//! asynchronous plumbing that performs those decisions lives with the host.
mod outside;
pub mod arbitration;
pub mod ingest;
pub mod lifecycle;
pub mod registry;
