use ingestion_service::pipeline::{Envelope, PipelineError, Transform};
use ingestion_service::record::{GenerationOutput, MeterUsage, Number};
use ingestion_service::transform::{
    validate_generation_output, validate_meter_usage, GenerationOutputValidation,
    MeterUsageValidation, MAX_TS, MIN_TS,
};

fn num(v: f64) -> Number {
    Number::new(v.to_bits(), v.to_string()).unwrap()
}

fn now() -> i128 {
    std::time::SystemTime::now()
        .duration_since(std::time::UNIX_EPOCH)
        .unwrap()
        .as_nanos() as i128
}

fn reading(ts: i128, kwh: f64) -> Envelope<MeterUsage> {
    Envelope {
        payload: MeterUsage {
            ts,
            meter_id: "m-1".to_string(),
            premise_id: None,
            kwh: num(kwh),
            kvarh: None,
            kva_demand: None,
            quality_flag: None,
            source_system: None,
        },
        received_at: now(),
    }
}

fn sample(ts: i128, mw: f64) -> Envelope<GenerationOutput> {
    Envelope {
        payload: GenerationOutput {
            ts,
            plant_id: "p-1".to_string(),
            unit_id: None,
            mw: num(mw),
            mvar: None,
            status: None,
            fuel_type: None,
        },
        received_at: now(),
    }
}

const TS_2024: i128 = 1_704_067_200_000_000_000;
// 1800-01-01T00:00:00Z
const TS_1800: i128 = -5_364_662_400_000_000_000;

#[test]
fn meter_usage_validation_accepts_valid_record() {
    let res = validate_meter_usage(reading(TS_2024, 1.0));
    assert!(res.is_ok());
}

#[test]
fn meter_usage_validation_rejects_negative_kwh() {
    let res = validate_meter_usage(reading(TS_2024, -0.1));
    assert!(matches!(res, Err(PipelineError::Transform(_))));
}

#[test]
fn meter_usage_validation_rejects_out_of_range_ts() {
    let res = validate_meter_usage(reading(TS_1800, 1.0));
    assert!(matches!(res, Err(PipelineError::Transform(_))));
}

#[test]
fn window_constants_are_the_years_2000_and_2100() {
    assert_eq!(MIN_TS, 946_684_800i128 * 1_000_000_000);
    assert_eq!(MAX_TS, 4_102_444_800i128 * 1_000_000_000);
}

#[test]
fn window_start_is_accepted_and_one_nanosecond_before_is_rejected() {
    assert!(validate_meter_usage(reading(MIN_TS, 1.0)).is_ok());
    let res = validate_meter_usage(reading(MIN_TS - 1, 1.0));
    match res {
        Err(e) => assert_eq!(e.message(), "timestamp out of allowed range"),
        Ok(_) => panic!("accepted a time before the window"),
    }
}

#[test]
fn window_end_is_accepted_and_one_nanosecond_after_is_rejected() {
    assert!(validate_generation_output(sample(MAX_TS, 1.0)).is_ok());
    assert!(validate_generation_output(sample(MAX_TS + 1, 1.0)).is_err());
}

#[test]
fn zero_is_accepted_and_the_smallest_negative_is_rejected() {
    assert!(validate_meter_usage(reading(TS_2024, 0.0)).is_ok());
    assert!(validate_meter_usage(reading(TS_2024, -0.0)).is_ok());
    let eps = -f64::from_bits(1);
    let res = validate_meter_usage(reading(TS_2024, eps));
    match res {
        Err(e) => {
            assert_eq!(e.message(), "kwh must be non-negative");
            assert_eq!(e.to_string(), "transform error: kwh must be non-negative");
        }
        Ok(_) => panic!("accepted a negative reading"),
    }
}

#[test]
fn non_finite_metrics_are_rejected_without_panic() {
    for v in [f64::NAN, -f64::NAN, f64::INFINITY, f64::NEG_INFINITY] {
        assert!(validate_meter_usage(reading(TS_2024, v)).is_err());
        let res = validate_generation_output(sample(TS_2024, v));
        match res {
            Err(e) => assert_eq!(e.message(), "mw must be non-negative"),
            Ok(_) => panic!("accepted a non-finite sample"),
        }
    }
    assert!(validate_meter_usage(reading(TS_2024, f64::MAX)).is_ok());
    assert!(validate_meter_usage(reading(TS_2024, f64::MIN_POSITIVE)).is_ok());
    assert!(validate_meter_usage(reading(TS_2024, f64::MIN)).is_err());
}

#[test]
fn metric_is_checked_before_the_time() {
    let res = validate_meter_usage(reading(TS_1800, -1.0));
    match res {
        Err(e) => assert_eq!(e.message(), "kwh must be non-negative"),
        Ok(_) => panic!("accepted"),
    }
}

#[test]
fn valid_envelope_is_handed_back_unchanged() {
    let env = reading(TS_2024, 2.5);
    let received_at = env.received_at;
    let out = validate_meter_usage(env).unwrap();
    assert_eq!(out.received_at, received_at);
    assert_eq!(out.payload.meter_id, "m-1");
    assert_eq!(out.payload.kwh.to_bits(), 2.5f64.to_bits());
}

#[test]
fn transforms_apply_validation() {
    assert!(MeterUsageValidation::default().apply(reading(TS_2024, 1.0)).is_ok());
    assert!(MeterUsageValidation.apply(reading(TS_2024, -1.0)).is_err());
    assert!(GenerationOutputValidation::default().apply(sample(TS_2024, 1.0)).is_ok());
    assert!(GenerationOutputValidation.apply(sample(TS_1800, 1.0)).is_err());
}
