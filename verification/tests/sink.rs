use ingestion_service::ilp::encode_batch;
use ingestion_service::pipeline::{end_of_run, upstream, Envelope, PipelineError, Stage, Upstream};
use ingestion_service::record::{MeterUsage, Number};
use ingestion_service::sink::{
    fatal, latency_nanos, min_received_at, report, report_now, AfterFailure, Batcher, Flush,
    IlpFlush, Pushed,
};

fn num(v: f64) -> Number {
    Number::new(v.to_bits(), v.to_string()).unwrap()
}

fn env(id: &str, received_at: i128) -> Envelope<MeterUsage> {
    Envelope {
        payload: MeterUsage {
            ts: 1_704_067_200_000_000_000,
            meter_id: id.to_string(),
            premise_id: None,
            kwh: num(1.0),
            kvarh: None,
            kva_demand: None,
            quality_flag: None,
            source_system: None,
        },
        received_at,
    }
}

fn ids(batch: &[Envelope<MeterUsage>]) -> Vec<&str> {
    batch.iter().map(|e| e.payload.meter_id.as_str()).collect()
}

fn full(pushed: Pushed<MeterUsage>) -> Vec<Envelope<MeterUsage>> {
    match pushed {
        Pushed::Full(batch) => batch,
        other => panic!("expected a full batch, got {other:?}"),
    }
}

#[test]
fn retries_wait_linearly_and_stop_at_the_budget() {
    let mut flush = Flush::new(2, 10);
    assert_eq!(flush.attempt(), 0);
    assert_eq!(flush.on_failure(), AfterFailure::Retry { sleep_ms: 10 });
    assert_eq!(flush.attempt(), 1);
    assert_eq!(flush.on_failure(), AfterFailure::Retry { sleep_ms: 20 });
    assert_eq!(flush.attempt(), 2);
    assert_eq!(flush.on_failure(), AfterFailure::GiveUp);
    assert_eq!(flush.on_failure(), AfterFailure::GiveUp);
    assert_eq!(flush.attempt(), 2);
}

#[test]
fn no_retries_means_giving_up_at_once() {
    let mut flush = Flush::new(0, 1000);
    assert_eq!(flush.on_failure(), AfterFailure::GiveUp);
    assert_eq!(flush.attempt(), 0);
}

#[test]
fn waits_do_not_overflow() {
    let mut flush = Flush::new(u32::MAX, u64::MAX);
    assert_eq!(flush.on_failure(), AfterFailure::Retry { sleep_ms: u64::MAX as u128 });
    assert_eq!(flush.on_failure(), AfterFailure::Retry { sleep_ms: 2 * (u64::MAX as u128) });
    let mut zero = Flush::new(3, 0);
    assert_eq!(zero.on_failure(), AfterFailure::Retry { sleep_ms: 0 });
}

#[test]
fn batches_fill_in_order_and_the_rest_comes_at_the_end() {
    let mut batcher = Batcher::new(3);
    assert!(matches!(batcher.push(Ok(env("a", 1))), Pushed::Buffered));
    let dropped = batcher.push(Err(PipelineError::Transform("dropped".to_string())));
    assert!(matches!(dropped, Pushed::Dropped(e) if e.message() == "dropped"));
    assert!(matches!(batcher.push(Ok(env("b", 2))), Pushed::Buffered));
    let batch = full(batcher.push(Ok(env("c", 3))));
    assert_eq!(ids(&batch), vec!["a", "b", "c"]);
    assert!(matches!(batcher.push(Ok(env("d", 4))), Pushed::Buffered));
    let last = batcher.finish().unwrap();
    assert_eq!(ids(&last), vec!["d"]);
}

#[test]
fn nothing_is_left_after_a_full_batch() {
    let mut batcher = Batcher::new(1);
    assert_eq!(ids(&full(batcher.push(Ok(env("a", 1))))), vec!["a"]);
    assert_eq!(ids(&full(batcher.push(Ok(env("b", 1))))), vec!["b"]);
    assert!(batcher.finish().is_none());
    let empty: Batcher<MeterUsage> = Batcher::new(10);
    assert!(empty.finish().is_none());
}

#[test]
fn batch_size_zero_flushes_every_envelope() {
    let mut batcher = Batcher::new(0);
    assert_eq!(ids(&full(batcher.push(Ok(env("a", 1))))), vec!["a"]);
    assert_eq!(ids(&full(batcher.push(Ok(env("b", 1))))), vec!["b"]);
    assert!(batcher.finish().is_none());
}

#[test]
fn a_source_error_ends_the_input_and_keeps_what_is_pending() {
    let mut batcher = Batcher::new(3);
    assert!(matches!(batcher.push(Ok(env("a", 1))), Pushed::Buffered));
    let failed = batcher.push(Err(PipelineError::Source("disk gone".to_string())));
    match failed {
        Pushed::Failed(e) => {
            assert_eq!(e.stage(), Stage::Source);
            assert_eq!(e.message(), "disk gone");
        }
        other => panic!("expected the failure of the source, got {other:?}"),
    }
    assert_eq!(ids(&batcher.finish().unwrap()), vec!["a"]);
}

#[test]
fn items_of_the_stream_are_told_apart() {
    assert!(matches!(upstream(Ok(env("a", 1))), Upstream::Envelope(e) if e.payload.meter_id == "a"));
    assert!(matches!(
        upstream::<MeterUsage>(Err(PipelineError::Transform("t".to_string()))),
        Upstream::Rejected(e) if e.message() == "t"
    ));
    assert!(matches!(
        upstream::<MeterUsage>(Err(PipelineError::Sink("s".to_string()))),
        Upstream::Rejected(_)
    ));
    assert!(matches!(
        upstream::<MeterUsage>(Err(PipelineError::Source("s".to_string()))),
        Upstream::Failed(e) if e.message() == "s"
    ));
}

#[test]
fn a_run_fails_with_the_sink_error_or_else_the_source_error() {
    let source = || Some(PipelineError::Source("eof in record".to_string()));
    let sink = || Err(PipelineError::Sink("down".to_string()));
    assert!(end_of_run(None, Ok(())).is_ok());
    let e = end_of_run(source(), Ok(())).unwrap_err();
    assert_eq!((e.stage(), e.message()), (Stage::Source, "eof in record"));
    let e = end_of_run(None, sink()).unwrap_err();
    assert_eq!((e.stage(), e.message()), (Stage::Sink, "down"));
    let e = end_of_run(source(), sink()).unwrap_err();
    assert_eq!((e.stage(), e.message()), (Stage::Sink, "down"));
}

#[test]
fn latency_is_measured_from_the_earliest_receipt() {
    let batch = vec![env("a", 50), env("b", 20), env("c", 70)];
    assert_eq!(min_received_at(&batch), Some(20));
    assert_eq!(latency_nanos(&batch, 100), Some(80));
    assert_eq!(latency_nanos(&batch, 20), Some(0));
    assert_eq!(latency_nanos(&batch, 19), None);
    let none: Vec<Envelope<MeterUsage>> = Vec::new();
    assert_eq!(min_received_at(&none), None);
    assert_eq!(latency_nanos(&none, 100), None);
    let old = vec![env("a", -5)];
    assert_eq!(latency_nanos(&old, 10), Some(15));
    assert_eq!(latency_nanos(&old, -5), Some(0));
    let extreme = vec![env("a", i128::MIN)];
    assert_eq!(latency_nanos(&extreme, i128::MAX), Some(u128::MAX));
}

#[test]
fn report_counts_records_and_bytes() {
    let batch = vec![env("a", 50), env("b", 20)];
    let r = report(&batch, 321, 1_020);
    assert_eq!(r.records, 2);
    assert_eq!(r.bytes, 321);
    assert_eq!(r.latency_nanos, Some(1_000));
}

#[test]
fn report_now_measures_from_the_wall_clock() {
    let now = std::time::SystemTime::now()
        .duration_since(std::time::UNIX_EPOCH)
        .unwrap()
        .as_nanos() as i128;
    let batch = vec![env("a", now - 5_000_000_000), env("b", now)];
    let r = report_now(&batch, 77);
    assert_eq!(r.records, 2);
    assert_eq!(r.bytes, 77);
    let latency = r.latency_nanos.unwrap();
    assert!(latency >= 5_000_000_000 && latency < 65_000_000_000);
    let none: Vec<Envelope<MeterUsage>> = Vec::new();
    assert_eq!(report_now(&none, 0).latency_nanos, None);
}

#[test]
fn fatal_errors_are_sink_errors_with_context() {
    let e = fatal("ilp write failed: ", "broken pipe");
    assert_eq!(e.stage(), Stage::Sink);
    assert_eq!(e.message(), "ilp write failed: broken pipe");
    assert_eq!(e.to_string(), "sink error: ilp write failed: broken pipe");
    assert_eq!(fatal("", "pool timed out").message(), "pool timed out");
}

#[test]
fn every_attempt_of_a_flush_writes_the_same_bytes() {
    let batch = vec![env("a", 50), env("b", 20)];
    let mut flush = IlpFlush::begin(&batch, 2, 10).unwrap();
    let first = flush.payload().to_vec();
    assert_eq!(first, encode_batch(&batch));
    assert!(!first.is_empty());
    assert_eq!(flush.on_failure(), AfterFailure::Retry { sleep_ms: 10 });
    assert_eq!(flush.payload(), first.as_slice());
    assert_eq!(flush.on_failure(), AfterFailure::Retry { sleep_ms: 20 });
    assert_eq!(flush.payload(), first.as_slice());
    assert_eq!(flush.attempt(), 2);
    assert_eq!(flush.on_failure(), AfterFailure::GiveUp);
    assert_eq!(flush.payload(), first.as_slice());
    let text = String::from_utf8(first).unwrap();
    assert_eq!(text.matches("event_id=").count(), 2);
}

#[test]
fn an_empty_batch_needs_no_flush() {
    let none: Vec<Envelope<MeterUsage>> = Vec::new();
    assert!(IlpFlush::begin(&none, 2, 10).is_none());
}
