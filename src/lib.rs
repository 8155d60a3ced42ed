//! Exchange connectivity: route resolution, typed decoding of exchange
//! responses, request descriptors, ingestion and storage schema
//! initialisation.
pub mod apis;
pub mod client;
pub mod config;
pub mod error;
pub mod ingest;
pub mod json;
pub mod storage;
