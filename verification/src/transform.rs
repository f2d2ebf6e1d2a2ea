//! Validation of records: the one transform every pipeline runs.

use vstd::prelude::*;
use crate::pipeline::{Envelope, PipelineError, Stage, Transform};
use crate::record::{is_finite_non_negative, GenerationOutput, MeterUsage, UnixNanos};

verus! {

/// 2000-01-01T00:00:00Z, the earliest time a record may carry.
pub const MIN_TS: UnixNanos = 946_684_800_000_000_000;

/// 2100-01-01T00:00:00Z, the latest time a record may carry.
pub const MAX_TS: UnixNanos = 4_102_444_800_000_000_000;

/// Whether a time lies in the window that validation allows, both ends
/// included.
pub open spec fn in_window(ts: int) -> bool {
    MIN_TS <= ts && ts <= MAX_TS
}

/// Whether a record with this primary metric and time passes validation.
pub open spec fn is_valid(metric_bits: u64, ts: int) -> bool {
    is_finite_non_negative(metric_bits) && in_window(ts)
}

/// The message for a record that fails validation; the metric is looked at
/// first. `field` is the name of the primary metric.
pub open spec fn rejection(field: Seq<char>, metric_bits: u64, ts: int) -> Seq<char> {
    if !is_finite_non_negative(metric_bits) {
        field + " must be non-negative"@
    } else {
        "timestamp out of allowed range"@
    }
}

/// Validates a meter reading: `kwh` must be finite and not below zero, and
/// `ts` must lie in the allowed window. A valid envelope is handed back
/// unchanged.
pub fn validate_meter_usage(env: Envelope<MeterUsage>) -> (result: Result<
    Envelope<MeterUsage>,
    PipelineError,
>)
    ensures
        result is Ok <==> is_valid(env.payload@.kwh.bits, env.payload@.ts),
        result matches Ok(out) ==> out == env,
        result matches Err(e) ==> e.stage_of() == Stage::Transform && e.message_of() == rejection(
            "kwh"@,
            env.payload@.kwh.bits,
            env.payload@.ts,
        ),
{
    if !env.payload.kwh.is_finite_non_negative() {
        let message = "kwh must be non-negative".to_string();
        proof {
            reveal_strlit("kwh must be non-negative");
            reveal_strlit("kwh");
            reveal_strlit(" must be non-negative");
            assert(message@ =~= "kwh"@ + " must be non-negative"@);
        }
        return Err(PipelineError::Transform(message));
    }
    if env.payload.ts < MIN_TS || env.payload.ts > MAX_TS {
        return Err(PipelineError::Transform("timestamp out of allowed range".to_string()));
    }
    Ok(env)
}

/// Validates a generation sample: `mw` must be finite and not below zero,
/// and `ts` must lie in the allowed window. A valid envelope is handed back
/// unchanged.
pub fn validate_generation_output(env: Envelope<GenerationOutput>) -> (result: Result<
    Envelope<GenerationOutput>,
    PipelineError,
>)
    ensures
        result is Ok <==> is_valid(env.payload@.mw.bits, env.payload@.ts),
        result matches Ok(out) ==> out == env,
        result matches Err(e) ==> e.stage_of() == Stage::Transform && e.message_of() == rejection(
            "mw"@,
            env.payload@.mw.bits,
            env.payload@.ts,
        ),
{
    if !env.payload.mw.is_finite_non_negative() {
        let message = "mw must be non-negative".to_string();
        proof {
            reveal_strlit("mw must be non-negative");
            reveal_strlit("mw");
            reveal_strlit(" must be non-negative");
            assert(message@ =~= "mw"@ + " must be non-negative"@);
        }
        return Err(PipelineError::Transform(message));
    }
    if env.payload.ts < MIN_TS || env.payload.ts > MAX_TS {
        return Err(PipelineError::Transform("timestamp out of allowed range".to_string()));
    }
    Ok(env)
}

/// The validating transform for meter readings.
#[derive(Debug, Clone, Copy)]
pub struct MeterUsageValidation;

impl Default for MeterUsageValidation {
    fn default() -> (validation: Self)
        ensures
            validation == MeterUsageValidation,
    {
        MeterUsageValidation
    }
}

impl Transform<MeterUsage, MeterUsage> for MeterUsageValidation {
    open spec fn accepts(&self, input: Envelope<MeterUsage>) -> bool {
        is_valid(input.payload@.kwh.bits, input.payload@.ts)
    }

    open spec fn output(&self, input: Envelope<MeterUsage>) -> Envelope<MeterUsage> {
        input
    }

    open spec fn reason(&self, input: Envelope<MeterUsage>) -> Seq<char> {
        rejection("kwh"@, input.payload@.kwh.bits, input.payload@.ts)
    }

    fn apply(&self, input: Envelope<MeterUsage>) -> (result: Result<
        Envelope<MeterUsage>,
        PipelineError,
    >) {
        validate_meter_usage(input)
    }
}

/// The validating transform for generation samples.
#[derive(Debug, Clone, Copy)]
pub struct GenerationOutputValidation;

impl Default for GenerationOutputValidation {
    fn default() -> (validation: Self)
        ensures
            validation == GenerationOutputValidation,
    {
        GenerationOutputValidation
    }
}

impl Transform<GenerationOutput, GenerationOutput> for GenerationOutputValidation {
    open spec fn accepts(&self, input: Envelope<GenerationOutput>) -> bool {
        is_valid(input.payload@.mw.bits, input.payload@.ts)
    }

    open spec fn output(&self, input: Envelope<GenerationOutput>) -> Envelope<GenerationOutput> {
        input
    }

    open spec fn reason(&self, input: Envelope<GenerationOutput>) -> Seq<char> {
        rejection("mw"@, input.payload@.mw.bits, input.payload@.ts)
    }

    fn apply(&self, input: Envelope<GenerationOutput>) -> (result: Result<
        Envelope<GenerationOutput>,
        PipelineError,
    >) {
        validate_generation_output(input)
    }
}

} // verus!
