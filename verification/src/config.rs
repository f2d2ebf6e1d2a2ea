//! Configuration values and their defaults.

use vstd::prelude::*;

verus! {

/// The address the line-protocol writers connect to when none is configured.
pub fn default_ilp_tcp_addr() -> (addr: String)
    ensures
        addr@ == "127.0.0.1:9009"@,
{
    "127.0.0.1:9009".to_string()
}

/// The largest request body accepted when none is configured: 10 MiB.
pub fn default_max_body_bytes() -> (bytes: usize)
    ensures
        bytes == 10 * 1024 * 1024,
{
    10 * 1024 * 1024
}

/// The most records accepted per request when no limit is configured.
pub fn default_max_request_records() -> (records: usize)
    ensures
        records == 5_000,
{
    5_000
}

/// The longest line accepted when none is configured: 1 MiB.
pub fn default_max_line_bytes() -> (bytes: usize)
    ensures
        bytes == 1024 * 1024,
{
    1024 * 1024
}

/// The sink used when none is configured.
pub fn default_sink_kind() -> (kind: SinkKind)
    ensures
        kind == SinkKind::Ilp,
{
    SinkKind::Ilp
}

/// The number of sink workers when none is configured.
pub fn default_sink_workers() -> (workers: usize)
    ensures
        workers == 1,
{
    1
}

/// How to reach the store.
#[derive(Debug, Clone)]
pub struct QuestDbConfig {
    /// Postgres-wire URI, used by the SQL sinks and the SQL jobs.
    pub uri: String,
    pub max_connections: u32,
    /// Address of the line-protocol listener.
    pub ilp_tcp_addr: String,
}

/// The HTTP intake of one pipeline.
#[derive(Debug, Clone)]
pub struct HttpSourceConfig {
    pub http_bind_addr: String,
    pub channel_capacity: usize,
    /// When set, clients must send `Authorization: Bearer <token>`.
    pub auth_bearer_token: Option<String>,
    /// Largest request body, enforced by the HTTP layer.
    pub max_body_bytes: usize,
    /// Most records accepted per request.
    pub max_request_records: usize,
    /// Longest line accepted from a line-delimited body.
    pub max_line_bytes: usize,
    /// Whether the first malformed line ends a line-delimited request.
    pub ndjson_strict: bool,
}

/// Which sink a pipeline writes to.
#[derive(Debug, Clone, Copy, PartialEq, Eq, Structural)]
pub enum SinkKind {
    Ilp,
    Pgwire,
}

/// The sink of one pipeline.
#[derive(Debug, Clone)]
pub struct SinkConfig {
    pub kind: SinkKind,
    /// Number of parallel writers; for the line protocol, of connections.
    pub workers: usize,
    pub batch_size: usize,
    pub max_retries: u32,
    pub retry_backoff_ms: u64,
}

/// One pipeline: a name, an intake and a sink.
#[derive(Debug, Clone)]
pub struct PipelineConfig {
    pub name: String,
    pub source: HttpSourceConfig,
    pub sink: SinkConfig,
}

/// Where the metrics are exposed.
#[derive(Debug, Clone)]
pub struct MetricsConfig {
    pub bind_addr: String,
}

/// The whole configuration of the service.
#[derive(Debug, Clone)]
pub struct AppConfig {
    pub questdb: QuestDbConfig,
    pub meter_usage: PipelineConfig,
    pub generation_output: PipelineConfig,
    pub metrics: Option<MetricsConfig>,
}

} // verus!
