//! Ingestion core of a time-series pipeline for electric-utility telemetry:
//! record model, validation, line-protocol encoding, sharding, batching and
//! the decisions of the HTTP intake.

pub mod text;
pub mod record;
pub mod clock;
pub mod pipeline;
pub mod transform;
pub mod outbox;
pub mod http;
pub mod sink;
pub mod metrics;
pub mod sql;
pub mod balance;
pub mod shard;
pub mod event_id;
pub mod ilp;
pub mod decode;
pub mod round_trip;
pub mod read;
pub mod config;
pub mod file_source;
