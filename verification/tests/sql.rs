use ingestion_service::metrics::RecordKind;
use ingestion_service::record::{GenerationOutput, MeterUsage, Number};
use ingestion_service::sql::{columns, generation_row, insert_into, meter_usage_row, SqlValue};

fn num(v: f64) -> Number {
    Number::new(v.to_bits(), v.to_string()).unwrap()
}

fn text(v: &SqlValue) -> Option<&str> {
    match v {
        SqlValue::Text(t) => t.as_deref(),
        _ => panic!("not a text"),
    }
}

fn double(v: &SqlValue) -> Option<f64> {
    match v {
        SqlValue::Double(n) => n.as_ref().map(|n| f64::from_bits(n.to_bits())),
        _ => panic!("not a double"),
    }
}

#[test]
fn insert_heads_name_the_table_and_the_columns_in_order() {
    assert_eq!(
        insert_into(RecordKind::MeterUsage),
        "INSERT INTO meter_usage (ts, meter_id, premise_id, kwh, kvarh, kva_demand, quality_flag, source_system) "
    );
    assert_eq!(
        insert_into(RecordKind::GenerationOutput),
        "INSERT INTO generation_output (ts, plant_id, unit_id, mw, mvar, status, fuel_type) "
    );
    assert_eq!(
        columns(RecordKind::MeterUsage),
        vec!["ts", "meter_id", "premise_id", "kwh", "kvarh", "kva_demand", "quality_flag", "source_system"]
    );
    assert_eq!(
        columns(RecordKind::GenerationOutput),
        vec!["ts", "plant_id", "unit_id", "mw", "mvar", "status", "fuel_type"]
    );
}

#[test]
fn a_reading_with_only_required_fields_is_a_row_with_nulls() {
    let m = MeterUsage {
        ts: 1_704_067_200_000_000_000,
        meter_id: "m-1".to_string(),
        premise_id: None,
        kwh: num(1.25),
        kvarh: None,
        kva_demand: None,
        quality_flag: None,
        source_system: None,
    };
    let row = meter_usage_row(&m);
    assert_eq!(row.len(), 8);
    assert!(matches!(row[0], SqlValue::Timestamp(1_704_067_200_000_000_000)));
    assert_eq!(text(&row[1]), Some("m-1"));
    assert_eq!(text(&row[2]), None);
    assert_eq!(double(&row[3]), Some(1.25));
    assert_eq!(double(&row[4]), None);
    assert_eq!(double(&row[5]), None);
    assert_eq!(text(&row[6]), None);
    assert_eq!(text(&row[7]), None);
}

#[test]
fn rows_follow_the_column_order() {
    let m = MeterUsage {
        ts: 1,
        meter_id: "m".to_string(),
        premise_id: Some("p".to_string()),
        kwh: num(1.0),
        kvarh: Some(num(2.0)),
        kva_demand: Some(num(3.0)),
        quality_flag: Some("q".to_string()),
        source_system: Some("s".to_string()),
    };
    let row = meter_usage_row(&m);
    assert_eq!(text(&row[2]), Some("p"));
    assert_eq!(double(&row[4]), Some(2.0));
    assert_eq!(double(&row[5]), Some(3.0));
    assert_eq!(text(&row[6]), Some("q"));
    assert_eq!(text(&row[7]), Some("s"));

    let g = GenerationOutput {
        ts: 2,
        plant_id: "plant".to_string(),
        unit_id: Some("u".to_string()),
        mw: num(10.0),
        mvar: Some(num(-1.0)),
        status: Some("on".to_string()),
        fuel_type: None,
    };
    let row = generation_row(&g);
    assert_eq!(row.len(), 7);
    assert!(matches!(row[0], SqlValue::Timestamp(2)));
    assert_eq!(text(&row[1]), Some("plant"));
    assert_eq!(text(&row[2]), Some("u"));
    assert_eq!(double(&row[3]), Some(10.0));
    assert_eq!(double(&row[4]), Some(-1.0));
    assert_eq!(text(&row[5]), Some("on"));
    assert_eq!(text(&row[6]), None);
}
