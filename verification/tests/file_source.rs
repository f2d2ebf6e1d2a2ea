use csv::StringRecord;
use ingestion_service::file_source::{
    get_column, optional_number_text, parse_optional_string, record_to_meter_usage,
    BackfillMeterUsage, Delimited, MeterUsageBackfillFileSource, MeterUsageCsvFileSource,
    MeterUsageDatFileSource,
};
use ingestion_service::pipeline::Stage;
use ingestion_service::record::{MeterUsage, Number};
use std::path::PathBuf;

fn num(v: f64) -> Number {
    Number::new(v.to_bits(), v.to_string()).unwrap()
}

fn headers() -> StringRecord {
    StringRecord::from(vec![
        "ts",
        "meter_id",
        "premise_id",
        "kwh",
        "kvarh",
        "kva_demand",
        "quality_flag",
        "source_system",
    ])
}

#[test]
fn backfill_meter_usage_parses_from_struct() {
    let parsed = BackfillMeterUsage {
        ts: 1_704_067_200_000_000_000,
        meter_id: "m-123".to_string(),
        premise_id: None,
        kwh: num(1.23),
        kvarh: None,
        kva_demand: None,
        quality_flag: None,
        source_system: Some("scada".to_string()),
    };
    assert_eq!(parsed.meter_id, "m-123");
    assert_eq!(parsed.kwh.to_bits(), 1.23f64.to_bits());

    let usage: MeterUsage = parsed.into();
    assert_eq!(usage.meter_id, "m-123");
    assert_eq!(usage.kwh.to_bits(), 1.23f64.to_bits());
    assert_eq!(f64::from_bits(usage.kwh.to_bits()), 1.23);
    assert!(usage.premise_id.is_none());
    assert_eq!(usage.source_system.as_deref(), Some("scada"));
    assert_eq!(usage.ts, 1_704_067_200_000_000_000);
}

#[test]
fn sources_keep_their_path() {
    assert_eq!(MeterUsageBackfillFileSource::new("a.ndjson").path, PathBuf::from("a.ndjson"));
    assert_eq!(MeterUsageCsvFileSource::new(String::from("b.csv")).path, PathBuf::from("b.csv"));
    assert_eq!(MeterUsageDatFileSource::new(PathBuf::from("c.dat")).path, PathBuf::from("c.dat"));
}

#[test]
fn optional_cells_are_trimmed_and_blank_ones_are_absent() {
    assert_eq!(parse_optional_string(""), None);
    assert_eq!(parse_optional_string("  \t"), None);
    assert_eq!(parse_optional_string(" p-1 "), Some("p-1".to_string()));
    assert_eq!(optional_number_text(""), None);
    assert_eq!(optional_number_text("   "), None);
    assert_eq!(optional_number_text(" 1.5"), Some(" 1.5".to_string()));
}

#[test]
fn columns_are_found_by_the_first_header_of_that_name() {
    let h = StringRecord::from(vec!["a", "b", "a", "c"]);
    let r = StringRecord::from(vec!["1", "2", "3"]);
    assert_eq!(get_column(&r, &h, "a"), Some("1"));
    assert_eq!(get_column(&r, &h, "b"), Some("2"));
    assert_eq!(get_column(&r, &h, "c"), None);
    assert_eq!(get_column(&r, &h, "d"), None);
    assert_eq!(get_column(&r, &StringRecord::new(), "a"), None);
}

#[test]
fn a_full_record_becomes_a_draft_and_then_a_reading() {
    let r = StringRecord::from(vec![
        " 2024-01-01T00:00:00Z ",
        "m-1",
        " p-1 ",
        " 1.5 ",
        "0.25",
        "",
        "ok",
        "  ",
    ]);
    let draft = record_to_meter_usage(&r, &headers(), Delimited::Csv).unwrap();
    assert_eq!(draft.ts, 1_704_067_200_000_000_000);
    assert_eq!(draft.meter_id, "m-1");
    assert_eq!(draft.premise_id.as_deref(), Some("p-1"));
    assert_eq!(draft.kwh, " 1.5 ");
    assert_eq!(draft.kwh_text(), "1.5");
    assert_eq!(draft.kvarh.as_deref(), Some("0.25"));
    assert_eq!(draft.kva_demand, None);
    assert_eq!(draft.quality_flag.as_deref(), Some("ok"));
    assert_eq!(draft.source_system, None);

    let kwh: f64 = draft.kwh_text().parse().unwrap();
    let usage = draft.complete(Ok(num(kwh)), Some(num(0.25)), None).unwrap();
    assert_eq!(usage.ts, 1_704_067_200_000_000_000);
    assert_eq!(usage.meter_id, "m-1");
    assert_eq!(usage.kwh.to_bits(), 1.5f64.to_bits());
    assert_eq!(usage.kvarh.unwrap().to_bits(), 0.25f64.to_bits());
    assert!(usage.kva_demand.is_none());
    assert_eq!(usage.quality_flag.as_deref(), Some("ok"));
}

#[test]
fn optional_columns_may_be_missing_altogether() {
    let h = StringRecord::from(vec!["kwh", "meter_id", "ts"]);
    let r = StringRecord::from(vec!["2", "m", "2024-01-01T00:00:00Z"]);
    let draft = record_to_meter_usage(&r, &h, Delimited::Dat).unwrap();
    assert_eq!(draft.meter_id, "m");
    assert_eq!(draft.kwh, "2");
    assert!(draft.premise_id.is_none() && draft.kvarh.is_none() && draft.kva_demand.is_none());
    assert!(draft.quality_flag.is_none() && draft.source_system.is_none());
}

#[test]
fn missing_required_columns_are_source_errors() {
    let r = StringRecord::from(vec!["2024-01-01T00:00:00Z", "m", "1"]);
    let e = record_to_meter_usage(&r, &StringRecord::from(vec!["meter_id", "kwh"]), Delimited::Csv)
        .unwrap_err();
    assert_eq!(e.stage(), Stage::Source);
    assert_eq!(e.message(), "missing column 'ts' in CSV record");
    let e = record_to_meter_usage(&r, &StringRecord::from(vec!["ts", "kwh"]), Delimited::Dat)
        .unwrap_err();
    assert_eq!(e.message(), "missing column 'meter_id' in DAT record");
    let e = record_to_meter_usage(&r, &StringRecord::from(vec!["ts", "meter_id"]), Delimited::Csv)
        .unwrap_err();
    assert_eq!(e.message(), "missing column 'kwh' in CSV record");
    assert_eq!(e.to_string(), "source error: missing column 'kwh' in CSV record");
    // A record shorter than the header row lacks the columns beyond its end.
    let short = StringRecord::from(vec!["2024-01-01T00:00:00Z", "m"]);
    let e = record_to_meter_usage(&short, &StringRecord::from(vec!["ts", "meter_id", "kwh"]), Delimited::Csv)
        .unwrap_err();
    assert_eq!(e.message(), "missing column 'kwh' in CSV record");
}

#[test]
fn a_bad_timestamp_is_reported_before_other_columns() {
    let r = StringRecord::from(vec!["noon"]);
    let e = record_to_meter_usage(&r, &StringRecord::from(vec!["ts"]), Delimited::Csv).unwrap_err();
    assert_eq!(e.stage(), Stage::Source);
    assert!(e.message().starts_with("invalid ts 'noon': "));
    assert!(e.message().len() > "invalid ts 'noon': ".len());
}

#[test]
fn an_unreadable_kwh_is_a_source_error() {
    let r = StringRecord::from(vec!["2024-01-01T00:00:00Z", "m", " lots "]);
    let draft =
        record_to_meter_usage(&r, &StringRecord::from(vec!["ts", "meter_id", "kwh"]), Delimited::Csv)
            .unwrap();
    let complaint = draft.kwh_text().parse::<f64>().unwrap_err().to_string();
    let e = draft.complete(Err(complaint.clone()), None, None).unwrap_err();
    assert_eq!(e.stage(), Stage::Source);
    assert_eq!(e.message(), format!("invalid kwh ' lots ': {complaint}"));
}
