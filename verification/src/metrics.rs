//! The names of the counters and histograms, which are part of the
//! service's interface.

use vstd::prelude::*;
use crate::http::Rejection;
use crate::record::opt_text;
use crate::text::push_text;

verus! {

/// The two kinds of record, each with a pipeline of its own.
#[derive(Debug, Clone, Copy, PartialEq, Eq, Structural)]
pub enum RecordKind {
    MeterUsage,
    GenerationOutput,
}

/// The part of an intake counter's name that tells the pipelines apart.
pub open spec fn stem(kind: RecordKind) -> Seq<char> {
    match kind {
        RecordKind::MeterUsage => "ingest"@,
        RecordKind::GenerationOutput => "generation_ingest"@,
    }
}

/// The part of an intake counter's name that tells the line-delimited
/// endpoint from the array endpoint.
pub open spec fn endpoint(ndjson: bool) -> Seq<char> {
    if ndjson {
        "_ndjson"@
    } else {
        Seq::empty()
    }
}

/// The counter of the requests that reach an endpoint.
pub open spec fn requests_name(kind: RecordKind, ndjson: bool) -> Seq<char> {
    "http_"@ + stem(kind) + endpoint(ndjson) + "_requests_total"@
}

/// The counter of the lines that could not be read as a record.
pub open spec fn parse_errors_name(kind: RecordKind) -> Seq<char> {
    "http_"@ + stem(kind) + "_ndjson_parse_errors_total"@
}

/// The counter that a rejected request adds to, if any. A malformed request
/// adds to none; a closed queue is counted once for both endpoints of a
/// pipeline.
pub open spec fn rejection_name(kind: RecordKind, ndjson: bool, rejection: Rejection) -> Option<
    Seq<char>,
> {
    match rejection {
        Rejection::Malformed => None,
        Rejection::Unauthorized => Some(
            "http_"@ + stem(kind) + endpoint(ndjson) + "_unauthorized_total"@,
        ),
        Rejection::TooManyRecords => Some(
            "http_"@ + stem(kind) + endpoint(ndjson) + "_rejected_too_large_total"@,
        ),
        Rejection::LineTooLarge => if ndjson {
            Some("http_"@ + stem(kind) + "_ndjson_rejected_line_too_large_total"@)
        } else {
            None
        },
        Rejection::Overloaded => Some(
            "http_"@ + stem(kind) + endpoint(ndjson) + "_rejected_overloaded_total"@,
        ),
        Rejection::Closed => Some("http_"@ + stem(kind) + "_failed_total"@),
    }
}

/// The counter of the records that validation rejects.
pub open spec fn validation_name(kind: RecordKind) -> Seq<char> {
    match kind {
        RecordKind::MeterUsage => "validation_meter_usage_rejected_total"@,
        RecordKind::GenerationOutput => "validation_generation_output_rejected_total"@,
    }
}

/// The counter of the fatal failures of a SQL sink.
pub open spec fn sql_sink_errors_name(kind: RecordKind) -> Seq<char> {
    match kind {
        RecordKind::MeterUsage => "questdb_sink_errors_total"@,
        RecordKind::GenerationOutput => "questdb_generation_sink_errors_total"@,
    }
}

fn start(kind: RecordKind, ndjson: bool) -> (name: String)
    ensures
        name@ == "http_"@ + stem(kind) + endpoint(ndjson),
{
    let mut name = String::new();
    push_text(&mut name, "http_");
    match kind {
        RecordKind::MeterUsage => push_text(&mut name, "ingest"),
        RecordKind::GenerationOutput => push_text(&mut name, "generation_ingest"),
    }
    if ndjson {
        push_text(&mut name, "_ndjson");
    }
    assert(name@ =~= "http_"@ + stem(kind) + endpoint(ndjson));
    name
}

/// The name of the counter of the requests that reach an endpoint.
pub fn requests_counter(kind: RecordKind, ndjson: bool) -> (name: String)
    ensures
        name@ == requests_name(kind, ndjson),
{
    let mut name = start(kind, ndjson);
    push_text(&mut name, "_requests_total");
    name
}

/// The name of the counter of the lines that could not be read as a record.
pub fn parse_errors_counter(kind: RecordKind) -> (name: String)
    ensures
        name@ == parse_errors_name(kind),
{
    let mut name = start(kind, false);
    push_text(&mut name, "_ndjson_parse_errors_total");
    assert(name@ =~= parse_errors_name(kind));
    name
}

/// The name of the counter that a rejected request adds to, if any.
pub fn rejection_counter(kind: RecordKind, ndjson: bool, rejection: Rejection) -> (name: Option<
    String,
>)
    ensures
        opt_text(name) == rejection_name(kind, ndjson, rejection),
{
    match rejection {
        Rejection::Malformed => None,
        Rejection::Unauthorized => {
            let mut name = start(kind, ndjson);
            push_text(&mut name, "_unauthorized_total");
            Some(name)
        },
        Rejection::TooManyRecords => {
            let mut name = start(kind, ndjson);
            push_text(&mut name, "_rejected_too_large_total");
            Some(name)
        },
        Rejection::LineTooLarge => {
            if ndjson {
                let mut name = start(kind, false);
                push_text(&mut name, "_ndjson_rejected_line_too_large_total");
                assert(name@ =~= "http_"@ + stem(kind) + "_ndjson_rejected_line_too_large_total"@);
                Some(name)
            } else {
                None
            }
        },
        Rejection::Overloaded => {
            let mut name = start(kind, ndjson);
            push_text(&mut name, "_rejected_overloaded_total");
            Some(name)
        },
        Rejection::Closed => {
            let mut name = start(kind, false);
            push_text(&mut name, "_failed_total");
            assert(name@ =~= "http_"@ + stem(kind) + "_failed_total"@);
            Some(name)
        },
    }
}

/// The name of the counter of the records that validation rejects.
pub fn validation_counter(kind: RecordKind) -> (name: &'static str)
    ensures
        name@ == validation_name(kind),
{
    match kind {
        RecordKind::MeterUsage => "validation_meter_usage_rejected_total",
        RecordKind::GenerationOutput => "validation_generation_output_rejected_total",
    }
}

/// The name of the counter of the fatal failures of a SQL sink.
pub fn sql_sink_errors_counter(kind: RecordKind) -> (name: &'static str)
    ensures
        name@ == sql_sink_errors_name(kind),
{
    match kind {
        RecordKind::MeterUsage => "questdb_sink_errors_total",
        RecordKind::GenerationOutput => "questdb_generation_sink_errors_total",
    }
}

/// The counter of the records written to the store.
pub const INGESTED_RECORDS: &'static str = "questdb_ingested_records_total";

/// The counter of the bytes written over the line protocol.
pub const ILP_BYTES: &'static str = "questdb_ilp_bytes_total";

/// The counter of the retries of the line-protocol writers.
pub const ILP_RETRY: &'static str = "questdb_ilp_retry_total";

/// The counter of the fatal failures of the line-protocol writers.
pub const ILP_SINK_ERRORS: &'static str = "questdb_ilp_sink_errors_total";

/// The histogram of the time from receipt to flush, in seconds.
pub const END_TO_END_LATENCY: &'static str = "ingest_end_to_end_latency_seconds";

} // verus!
