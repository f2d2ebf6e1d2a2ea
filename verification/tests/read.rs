use ingestion_service::event_id::{event_id_generation, event_id_meter_usage};
use ingestion_service::ilp::IlpEncode;
use ingestion_service::read::read_ilp_line;
use ingestion_service::record::{GenerationOutput, MeterUsage, Number};

fn num(v: f64) -> Number {
    Number::new(v.to_bits(), v.to_string()).unwrap()
}

fn usage() -> MeterUsage {
    MeterUsage {
        ts: 1_704_067_200_000_000_000,
        meter_id: "m 1".to_string(),
        premise_id: Some("p,1=\\x".to_string()),
        kwh: num(1.25),
        kvarh: None,
        kva_demand: Some(num(-2.0)),
        quality_flag: Some(String::new()),
        source_system: None,
    }
}

#[test]
fn a_reading_is_read_back_from_its_line() {
    let m = usage();
    let mut line = String::new();
    m.write_ilp_line(&mut line);
    let parts = read_ilp_line(&line);
    assert_eq!(parts.measurement, "meter_usage");
    assert_eq!(parts.ts, Some(m.ts));
    assert_eq!(parts.tag("event_id"), Some(event_id_meter_usage(&m).as_str()));
    assert_eq!(parts.tag("meter_id"), Some("m 1"));
    assert_eq!(parts.tag("premise_id"), Some("p,1=\\x"));
    assert_eq!(parts.tag("quality_flag"), Some(""));
    assert_eq!(parts.tag("source_system"), None);
    assert_eq!(parts.field("kwh"), Some("1.25"));
    assert_eq!(parts.field("kvarh"), None);
    assert_eq!(parts.field("kva_demand"), Some("-2"));
    assert_eq!(parts.field("kwh").unwrap().parse::<f64>().unwrap().to_bits(), m.kwh.to_bits());
    assert_eq!(parts.tags.len(), 4);
    assert_eq!(parts.fields.len(), 2);
}

#[test]
fn a_sample_is_read_back_from_its_line() {
    let g = GenerationOutput {
        ts: -1,
        plant_id: "plant = one".to_string(),
        unit_id: None,
        mw: num(10.0),
        mvar: Some(num(0.5)),
        status: None,
        fuel_type: Some("gas".to_string()),
    };
    let mut line = String::new();
    g.write_ilp_line(&mut line);
    let parts = read_ilp_line(&line);
    assert_eq!(parts.measurement, "generation_output");
    assert_eq!(parts.ts, Some(-1));
    assert_eq!(parts.tag("event_id"), Some(event_id_generation(&g).as_str()));
    assert_eq!(parts.tag("plant_id"), Some("plant = one"));
    assert_eq!(parts.tag("unit_id"), None);
    assert_eq!(parts.tag("status"), None);
    assert_eq!(parts.tag("fuel_type"), Some("gas"));
    assert_eq!(parts.field("mw"), Some("10"));
    assert_eq!(parts.field("mvar"), Some("0.5"));
}

#[test]
fn a_text_that_ends_with_a_backslash_is_not_read_back() {
    let mut m = usage();
    m.meter_id = "m\\".to_string();
    let mut line = String::new();
    m.write_ilp_line(&mut line);
    let parts = read_ilp_line(&line);
    assert_ne!(parts.tag("meter_id"), Some("m\\"));
}

#[test]
fn a_line_is_taken_apart_at_its_separators() {
    let parts = read_ilp_line("cpu\\ load,host=a\\,b,dc=x\\=y usage=0.5,idle=99 -42");
    assert_eq!(parts.measurement, "cpu load");
    assert_eq!(
        parts.tags,
        vec![("host".to_string(), "a,b".to_string()), ("dc".to_string(), "x=y".to_string())]
    );
    assert_eq!(
        parts.fields,
        vec![("usage".to_string(), "0.5".to_string()), ("idle".to_string(), "99".to_string())]
    );
    assert_eq!(parts.ts, Some(-42));
    assert_eq!(parts.tag("host"), Some("a,b"));
    assert_eq!(parts.tag("rack"), None);
    assert_eq!(parts.field("idle"), Some("99"));
}

#[test]
fn the_time_must_be_a_decimal_integer_of_at_most_128_bits() {
    let time = |t: &str| read_ilp_line(&format!("m f=1 {t}")).ts;
    assert_eq!(time("0"), Some(0));
    assert_eq!(time("007"), Some(7));
    assert_eq!(time("-0"), Some(0));
    assert_eq!(time(&i128::MAX.to_string()), Some(i128::MAX));
    assert_eq!(time(&i128::MIN.to_string()), Some(i128::MIN));
    assert_eq!(time("170141183460469231731687303715884105728"), None);
    assert_eq!(time("-170141183460469231731687303715884105729"), None);
    assert_eq!(time("99999999999999999999999999999999999999999"), None);
    assert_eq!(time(""), None);
    assert_eq!(time("-"), None);
    assert_eq!(time("12a"), None);
    assert_eq!(time("+5"), None);
    assert_eq!(time("1 2"), None);
}

#[test]
fn texts_that_are_no_lines_are_read_without_panic() {
    for text in ["", ",", " ", "m", "m,", "m,k", "m,k=", "m,k=v", "m f", "m f=", "m  ", "\\", "=,= ="] {
        let parts = read_ilp_line(text);
        assert!(parts.tags.len() <= 1);
        assert!(parts.fields.len() <= 1);
    }
    let parts = read_ilp_line("m,k=v");
    assert_eq!(parts.tags, vec![("k".to_string(), "v".to_string())]);
    assert!(parts.fields.is_empty());
    assert_eq!(parts.ts, None);
}
