use ingestion_service::event_id::{event_id_generation, event_id_meter_usage};
use ingestion_service::record::{GenerationOutput, MeterUsage, Number};

fn num(v: f64) -> Number {
    Number::new(v.to_bits(), v.to_string()).unwrap()
}

const TS_2024: i128 = 1_704_067_200_000_000_000;

fn usage() -> MeterUsage {
    MeterUsage {
        ts: TS_2024,
        meter_id: "m-1".to_string(),
        premise_id: Some("p-1".to_string()),
        kwh: num(1.25),
        kvarh: Some(num(0.1)),
        kva_demand: None,
        quality_flag: None,
        source_system: Some("scada".to_string()),
    }
}

fn put_str(bytes: &mut Vec<u8>, s: &str) {
    bytes.extend_from_slice(&(s.len() as u32).to_le_bytes());
    bytes.extend_from_slice(s.as_bytes());
}

#[test]
fn meter_usage_event_id_is_the_hash_of_the_documented_layout() {
    let mut bytes: Vec<u8> = Vec::new();
    bytes.extend_from_slice(&TS_2024.to_le_bytes());
    put_str(&mut bytes, "m-1");
    bytes.push(1);
    put_str(&mut bytes, "p-1");
    bytes.extend_from_slice(&1.25f64.to_bits().to_le_bytes());
    bytes.push(1);
    bytes.extend_from_slice(&0.1f64.to_bits().to_le_bytes());
    bytes.push(0);
    bytes.push(0);
    bytes.push(1);
    put_str(&mut bytes, "scada");
    let expected = blake3::hash(&bytes).to_hex().to_string();
    assert_eq!(event_id_meter_usage(&usage()), expected);
}

#[test]
fn generation_event_id_is_the_hash_of_the_documented_layout() {
    let g = GenerationOutput {
        ts: -1,
        plant_id: "plant".to_string(),
        unit_id: None,
        mw: num(10.0),
        mvar: Some(num(-2.5)),
        status: Some("on".to_string()),
        fuel_type: None,
    };
    let mut bytes: Vec<u8> = Vec::new();
    bytes.extend_from_slice(&(-1i128).to_le_bytes());
    put_str(&mut bytes, "plant");
    bytes.push(0);
    bytes.extend_from_slice(&10.0f64.to_bits().to_le_bytes());
    bytes.push(1);
    bytes.extend_from_slice(&(-2.5f64).to_bits().to_le_bytes());
    bytes.push(1);
    put_str(&mut bytes, "on");
    bytes.push(0);
    let expected = blake3::hash(&bytes).to_hex().to_string();
    assert_eq!(event_id_generation(&g), expected);
}

#[test]
fn event_id_is_64_lowercase_hex_digits_and_deterministic() {
    let a = event_id_meter_usage(&usage());
    let b = event_id_meter_usage(&usage().clone());
    assert_eq!(a, b);
    assert_eq!(a.len(), 64);
    assert!(a.chars().all(|c| c.is_ascii_digit() || ('a'..='f').contains(&c)));
}

#[test]
fn event_id_changes_with_any_field() {
    let base = event_id_meter_usage(&usage());
    let mut m = usage();
    m.ts += 1;
    assert_ne!(event_id_meter_usage(&m), base);
    let mut m = usage();
    m.kva_demand = Some(num(0.0));
    assert_ne!(event_id_meter_usage(&m), base);
    let mut m = usage();
    m.premise_id = None;
    assert_ne!(event_id_meter_usage(&m), base);
    let mut m = usage();
    m.meter_id = "m-2".to_string();
    assert_ne!(event_id_meter_usage(&m), base);
}

#[test]
fn event_id_of_a_non_ascii_key_counts_bytes() {
    let mut m = usage();
    m.meter_id = "zähler".to_string();
    let mut bytes: Vec<u8> = Vec::new();
    bytes.extend_from_slice(&TS_2024.to_le_bytes());
    put_str(&mut bytes, "zähler");
    bytes.push(1);
    put_str(&mut bytes, "p-1");
    bytes.extend_from_slice(&1.25f64.to_bits().to_le_bytes());
    bytes.push(1);
    bytes.extend_from_slice(&0.1f64.to_bits().to_le_bytes());
    bytes.push(0);
    bytes.push(0);
    bytes.push(1);
    put_str(&mut bytes, "scada");
    assert_eq!(event_id_meter_usage(&m), blake3::hash(&bytes).to_hex().to_string());
}
