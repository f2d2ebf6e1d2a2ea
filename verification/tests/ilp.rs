use ingestion_service::decode::ilp_unescape_ident;
use ingestion_service::event_id::event_id_meter_usage;
use ingestion_service::ilp::{
    encode_batch, ilp_escape_ident, push_decimal, push_field_f64, push_tag, IlpEncode,
};
use ingestion_service::pipeline::Envelope;
use ingestion_service::record::{GenerationOutput, MeterUsage, Number};

fn num(v: f64) -> Number {
    Number::new(v.to_bits(), v.to_string()).unwrap()
}

const TS_2024: i128 = 1_704_067_200_000_000_000;

#[test]
fn ilp_escape_ident_escapes_commas_spaces_and_equals() {
    let mut out = String::new();
    ilp_escape_ident("a b,c=d", &mut out);
    assert_eq!(out, "a\\ b\\,c\\=d");
}

#[test]
fn event_id_is_present_and_deterministic_for_meter_usage() {
    let m = MeterUsage {
        ts: TS_2024,
        meter_id: "m-1".to_string(),
        premise_id: Some("p-1".to_string()),
        kwh: num(1.25),
        kvarh: Some(num(0.1)),
        kva_demand: None,
        quality_flag: None,
        source_system: None,
    };

    let mut a = String::new();
    m.write_ilp_line(&mut a);
    let mut b = String::new();
    m.write_ilp_line(&mut b);

    assert!(a.contains("event_id="));
    assert_eq!(a, b);
}

#[test]
fn meter_usage_ilp_line_includes_required_fields_and_tags() {
    let m = MeterUsage {
        ts: TS_2024,
        meter_id: "m 1".to_string(),
        premise_id: Some("p,1".to_string()),
        kwh: num(1.25),
        kvarh: None,
        kva_demand: Some(num(2.0)),
        quality_flag: Some("ok".to_string()),
        source_system: None,
    };

    let mut line = String::new();
    m.write_ilp_line(&mut line);

    assert!(line.starts_with("meter_usage,"));
    assert!(line.contains("meter_id=m\\ 1"));
    assert!(line.contains("premise_id=p\\,1"));
    assert!(line.contains("quality_flag=ok"));
    assert!(line.contains(" kwh=1.25"));
    assert!(line.contains(",kva_demand=2"));

    let ts_nanos = TS_2024.to_string();
    assert_eq!(ts_nanos, "1704067200000000000");
    assert!(line.ends_with(&ts_nanos));
}

#[test]
fn generation_output_ilp_line_omits_missing_optional_tags_and_fields() {
    let g = GenerationOutput {
        ts: TS_2024,
        plant_id: "plant".to_string(),
        unit_id: None,
        mw: num(10.0),
        mvar: None,
        status: None,
        fuel_type: Some("gas".to_string()),
    };

    let mut line = String::new();
    g.write_ilp_line(&mut line);

    assert!(line.starts_with("generation_output,"));
    assert!(line.contains("plant_id=plant"));
    assert!(!line.contains("unit_id="));
    assert!(!line.contains("status="));
    assert!(line.contains("fuel_type=gas"));
    assert!(line.contains(" mw=10"));
    assert!(!line.contains("mvar="));
}


#[test]
fn whole_line_of_a_reading_is_exact() {
    let m = MeterUsage {
        ts: TS_2024,
        meter_id: "m 1".to_string(),
        premise_id: Some("p,1".to_string()),
        kwh: num(1.25),
        kvarh: None,
        kva_demand: Some(num(2.0)),
        quality_flag: Some("ok".to_string()),
        source_system: None,
    };
    let mut line = String::from("x");
    m.write_ilp_line(&mut line);
    let expected = format!(
        "xmeter_usage,event_id={},meter_id=m\\ 1,premise_id=p\\,1,quality_flag=ok kwh=1.25,kva_demand=2 1704067200000000000",
        event_id_meter_usage(&m)
    );
    assert_eq!(line, expected);
}

#[test]
fn push_tag_and_field_write_separators() {
    let mut out = String::new();
    push_tag(&mut out, "k=1", "v 2");
    assert_eq!(out, ",k\\=1=v\\ 2");
    let mut first = true;
    let mut out = String::new();
    push_field_f64(&mut out, &mut first, "kwh", &num(0.5));
    assert!(!first);
    push_field_f64(&mut out, &mut first, "kvarh", &num(-3.0));
    assert_eq!(out, "kwh=0.5,kvarh=-3");
}

#[test]
fn decimal_text_matches_the_standard_formatting() {
    for n in [0i128, 7, 10, 99, 100, -1, -10, 1_704_067_200_000_000_000, i128::MAX, i128::MIN] {
        let mut out = String::from(">");
        push_decimal(&mut out, n);
        assert_eq!(out, format!(">{}", n));
    }
}

#[test]
fn unescape_undoes_escape() {
    for s in ["", "plain", "a b,c=d", "\\", "\\,", "a\\", "\\\\ ", "=,= ", "é ü"] {
        let mut escaped = String::new();
        ilp_escape_ident(s, &mut escaped);
        let mut back = String::new();
        ilp_unescape_ident(&escaped, &mut back);
        assert_eq!(back, s);
    }
    let mut out = String::new();
    ilp_unescape_ident("a\\ b\\,c\\=d\\x\\", &mut out);
    assert_eq!(out, "a b,c=d\\x\\");
}

#[test]
fn batch_is_lines_ended_by_newlines() {
    let g = GenerationOutput {
        ts: 5,
        plant_id: "p".to_string(),
        unit_id: None,
        mw: num(1.0),
        mvar: None,
        status: None,
        fuel_type: None,
    };
    let mut one = String::new();
    g.write_ilp_line(&mut one);
    let batch = vec![
        Envelope { payload: g.clone(), received_at: 1 },
        Envelope { payload: g.clone(), received_at: 2 },
    ];
    let bytes = encode_batch(&batch);
    assert_eq!(String::from_utf8(bytes).unwrap(), format!("{one}\n{one}\n"));
    let none: Vec<Envelope<GenerationOutput>> = Vec::new();
    assert!(encode_batch(&none).is_empty());
}

#[test]
fn number_text_is_checked() {
    assert!(Number::new(0, String::new()).is_none());
    assert!(Number::new(0, "1,5".to_string()).is_none());
    assert!(Number::new(0, "1 5".to_string()).is_none());
    assert!(Number::new(0, "a=b".to_string()).is_none());
    for v in [0.0f64, -0.0, 1e300, 1e-300, f64::NAN, f64::INFINITY, f64::NEG_INFINITY] {
        let n = Number::new(v.to_bits(), v.to_string()).unwrap();
        assert_eq!(n.to_bits(), v.to_bits());
        assert_eq!(n.as_text(), v.to_string());
        assert_eq!(n.clone().as_text(), v.to_string());
    }
}
