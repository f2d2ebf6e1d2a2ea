use ingestion_service::config::{
    default_ilp_tcp_addr, default_max_body_bytes, default_max_line_bytes,
    default_max_request_records, default_sink_kind, default_sink_workers, SinkKind,
};
use ingestion_service::http::{IncomingMeterUsage, SharedSender};
use ingestion_service::outbox::Outbox;
use ingestion_service::pipeline::{Envelope, Pipeline, PipelineError, Stage, Transform};
use ingestion_service::sink::{Batcher, Pushed};
use ingestion_service::sql::{meter_usage_row, SqlValue};
use ingestion_service::record::{MeterUsage, Number};
use ingestion_service::transform::MeterUsageValidation;
use std::sync::Arc;

fn num(v: f64) -> Number {
    Number::new(v.to_bits(), v.to_string()).unwrap()
}

fn env(kwh: f64) -> Envelope<MeterUsage> {
    Envelope {
        payload: MeterUsage {
            ts: 1_704_067_200_000_000_000,
            meter_id: "m-1".to_string(),
            premise_id: None,
            kwh: num(kwh),
            kvarh: None,
            kva_demand: None,
            quality_flag: None,
            source_system: None,
        },
        received_at: 42,
    }
}

fn pipeline(
    transforms: Vec<Arc<dyn Transform<MeterUsage, MeterUsage>>>,
) -> Pipeline<(), MeterUsage, ()> {
    Pipeline { source: (), transforms, sink: () }
}

#[test]
fn defaults() {
    assert_eq!(default_ilp_tcp_addr(), "127.0.0.1:9009");
    assert_eq!(default_max_body_bytes(), 10 * 1024 * 1024);
    assert_eq!(default_max_request_records(), 5000);
    assert_eq!(default_max_line_bytes(), 1024 * 1024);
    assert_eq!(default_sink_kind(), SinkKind::Ilp);
    assert_eq!(default_sink_workers(), 1);
}

#[test]
fn errors_read_as_stage_and_message() {
    let e = PipelineError::Source("no file".to_string());
    assert_eq!(e.stage(), Stage::Source);
    assert_eq!(e.message(), "no file");
    assert_eq!(e.to_string(), "source error: no file");
    assert_eq!(PipelineError::Transform("bad".to_string()).to_string(), "transform error: bad");
    assert_eq!(PipelineError::Sink("down".to_string()).to_string(), "sink error: down");
    assert_eq!(PipelineError::Sink(String::new()).stage(), Stage::Sink);
}

#[test]
fn envelopes_are_stamped_on_receipt() {
    let before = std::time::SystemTime::now()
        .duration_since(std::time::UNIX_EPOCH)
        .unwrap()
        .as_nanos() as i128;
    let stamped = Envelope::received_now(7u8);
    assert_eq!(stamped.payload, 7);
    assert!(stamped.received_at >= before);
    assert!(stamped.received_at < before + 60_000_000_000);
}

#[test]
fn a_pipeline_without_transforms_hands_envelopes_on() {
    let p = pipeline(vec![]);
    let out = p.transform(env(-5.0)).unwrap();
    assert_eq!(out.received_at, 42);
    assert_eq!(out.payload.kwh.to_bits(), (-5.0f64).to_bits());
}

#[test]
fn transforms_run_in_order_and_the_first_rejection_drops_the_envelope() {
    let p = pipeline(vec![Arc::new(MeterUsageValidation), Arc::new(MeterUsageValidation)]);
    assert!(p.transform(env(1.0)).is_ok());
    let e = p.transform(env(-1.0)).unwrap_err();
    assert_eq!(e.stage(), Stage::Transform);
    assert_eq!(e.message(), "kwh must be non-negative");
}

#[test]
fn upstream_errors_pass_the_transforms_untouched() {
    let p = pipeline(vec![Arc::new(MeterUsageValidation)]);
    let e = p.step(Err(PipelineError::Source("eof".to_string()))).unwrap_err();
    assert_eq!(e.stage(), Stage::Source);
    assert_eq!(e.message(), "eof");
    assert!(p.step(Ok(env(1.0))).is_ok());
    assert_eq!(p.step(Ok(env(-1.0))).unwrap_err().stage(), Stage::Transform);
}

#[test]
fn one_posted_reading_becomes_one_row() {
    let (tx, mut rx) = tokio::sync::mpsc::channel(4);
    let mut shared = SharedSender {
        tx: Outbox::new(tx),
        auth_bearer_token: None,
        max_request_records: 5000,
        max_line_bytes: 1024 * 1024,
        ndjson_strict: false,
    };
    let posted = IncomingMeterUsage {
        ts: "2024-01-01T00:00:00Z".to_string(),
        meter_id: "m-1".to_string(),
        premise_id: None,
        kwh: num(1.25),
        kvarh: None,
        kva_demand: None,
        quality_flag: None,
        source_system: None,
    };
    assert!(shared.ingest(None, vec![posted]).is_ok());

    let p = pipeline(vec![Arc::new(MeterUsageValidation)]);
    let mut batcher = Batcher::new(1);
    let mut rows = Vec::new();
    while let Ok(env) = rx.try_recv() {
        if let Pushed::Full(batch) = batcher.push(p.step(Ok(env))) {
            for env in &batch {
                rows.push(meter_usage_row(&env.payload));
            }
        }
    }
    assert!(batcher.finish().is_none());
    assert_eq!(rows.len(), 1);
    let row = &rows[0];
    assert!(matches!(row[0], SqlValue::Timestamp(1_704_067_200_000_000_000)));
    assert!(matches!(&row[1], SqlValue::Text(Some(id)) if id == "m-1"));
    assert!(matches!(row[2], SqlValue::Text(None)));
    assert!(matches!(&row[3], SqlValue::Double(Some(n)) if f64::from_bits(n.to_bits()) == 1.25));
    assert!(matches!(row[4], SqlValue::Double(None)));
    assert!(matches!(row[5], SqlValue::Double(None)));
    assert!(matches!(row[6], SqlValue::Text(None)));
    assert!(matches!(row[7], SqlValue::Text(None)));
}
