use ingestion_service::balance::{
    Balance, CauseHint, COVERAGE_FLOOR, LOSS_ALERT_THRESHOLD, PHYSICAL_LOSS,
};

fn balance(gen: f64, demand: f64, coverage: f64, topology: u64, theft: u64) -> Balance {
    let loss_pct = if gen == 0.0 { None } else { Some(((gen - demand) / gen).to_bits()) };
    Balance {
        loss_pct,
        meter_coverage_pct: coverage.to_bits(),
        topology_events: topology,
        theft_events: theft,
    }
}

#[test]
fn thresholds_are_the_patterns_of_their_doubles() {
    assert_eq!(COVERAGE_FLOOR, 0.9f64.to_bits());
    assert_eq!(PHYSICAL_LOSS, 0.05f64.to_bits());
    assert_eq!(LOSS_ALERT_THRESHOLD, 0.02f64.to_bits());
}

#[test]
fn a_loss_of_three_percent_alerts_and_is_physical() {
    let b = balance(100.0, 97.0, 0.95, 0, 0);
    assert_eq!(f64::from_bits(b.loss_pct.unwrap()), 0.03);
    assert!(b.alert());
    assert_eq!(b.cause_hint(), CauseHint::Physics);
    assert_eq!(b.cause_hint().as_str(), "physics");
}

#[test]
fn the_first_rule_that_applies_decides() {
    assert_eq!(balance(0.0, 5.0, 0.1, 3, 3).cause_hint(), CauseHint::Unknown);
    assert!(!balance(0.0, 5.0, 0.1, 3, 3).alert());
    assert_eq!(balance(100.0, 50.0, 0.89, 3, 3).cause_hint(), CauseHint::Data);
    assert_eq!(balance(100.0, 50.0, 0.9, 3, 3).cause_hint(), CauseHint::Topology);
    assert_eq!(balance(100.0, 50.0, 0.9, 0, 3).cause_hint(), CauseHint::Theft);
    assert_eq!(balance(100.0, 95.0, 1.0, 0, 0).cause_hint(), CauseHint::Physics);
    assert_eq!(balance(100.0, 94.0, 1.0, 0, 0).cause_hint(), CauseHint::Unknown);
    assert_eq!(balance(100.0, 106.0, 1.0, 0, 0).cause_hint(), CauseHint::Unknown);
    assert_eq!(balance(100.0, 104.0, 1.0, 0, 0).cause_hint(), CauseHint::Physics);
    // Theft is named only while enough meters are known to report.
    assert_eq!(balance(100.0, 50.0, f64::NAN, 0, 3).cause_hint(), CauseHint::Unknown);
    assert_eq!(balance(100.0, 99.0, f64::NAN, 0, 3).cause_hint(), CauseHint::Physics);
    assert_eq!(CauseHint::Unknown.as_str(), "unknown");
    assert_eq!(CauseHint::Data.as_str(), "data");
    assert_eq!(CauseHint::Topology.as_str(), "topology");
    assert_eq!(CauseHint::Theft.as_str(), "theft");
}

#[test]
fn the_alert_is_raised_beyond_two_percent_either_way() {
    assert!(!balance(100.0, 98.0, 1.0, 0, 0).alert());
    assert!(balance(100.0, 97.9, 1.0, 0, 0).alert());
    assert!(!balance(100.0, 102.0, 1.0, 0, 0).alert());
    assert!(balance(100.0, 102.1, 1.0, 0, 0).alert());
    assert!(!balance(100.0, 100.0, 1.0, 0, 0).alert());
}

#[test]
fn the_rules_compare_as_doubles_do() {
    let values = [
        0.0,
        -0.0,
        f64::MIN_POSITIVE,
        0.019999999999999997,
        0.02,
        0.020000000000000004,
        0.049999999999999996,
        0.05,
        0.05000000000000001,
        0.8999999999999999,
        0.9,
        0.9000000000000001,
        1.0,
        1e300,
        f64::INFINITY,
        f64::NAN,
    ];
    for v in values.iter().flat_map(|v| [*v, -*v]) {
        let b = Balance {
            loss_pct: Some(v.to_bits()),
            meter_coverage_pct: 1.0f64.to_bits(),
            topology_events: 0,
            theft_events: 0,
        };
        assert_eq!(b.alert(), v.abs() > 0.02, "alert of {v}");
        assert_eq!(b.cause_hint() == CauseHint::Physics, v.abs() <= 0.05, "cause of {v}");
        let c = Balance {
            loss_pct: Some(0.0f64.to_bits()),
            meter_coverage_pct: v.to_bits(),
            topology_events: 0,
            theft_events: 0,
        };
        assert_eq!(c.cause_hint() == CauseHint::Data, v < 0.9, "coverage of {v}");
    }
}
