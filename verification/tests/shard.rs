use ingestion_service::pipeline::{Envelope, PipelineError};
use ingestion_service::record::{GenerationOutput, MeterUsage, Number};
use ingestion_service::shard::{join, shard_for_hash, shard_index, Fanout, ShardKey};
use std::collections::hash_map::DefaultHasher;
use std::hash::{Hash, Hasher};

fn num(v: f64) -> Number {
    Number::new(v.to_bits(), v.to_string()).unwrap()
}

fn reading(id: &str, kwh: f64, received_at: i128) -> Envelope<MeterUsage> {
    Envelope {
        payload: MeterUsage {
            ts: 1_704_067_200_000_000_000 + received_at,
            meter_id: id.to_string(),
            premise_id: None,
            kwh: num(kwh),
            kvarh: None,
            kva_demand: None,
            quality_flag: None,
            source_system: None,
        },
        received_at,
    }
}

fn std_shard(key: &str, workers: usize) -> usize {
    let mut h = DefaultHasher::new();
    key.hash(&mut h);
    (h.finish() % workers.max(1) as u64) as usize
}

#[test]
fn shard_is_the_default_hash_modulo_the_workers() {
    for key in ["", "m-1", "m-2", "plant", "zähler", "a much longer shard key than the others"] {
        for workers in [0usize, 1, 2, 3, 4, 7, 64] {
            assert_eq!(shard_index(key, workers), std_shard(key, workers));
        }
    }
}

#[test]
fn shard_for_hash_is_the_remainder() {
    assert_eq!(shard_for_hash(10, 4), 2);
    assert_eq!(shard_for_hash(10, 0), 0);
    assert_eq!(shard_for_hash(10, 1), 0);
    assert_eq!(shard_for_hash(u64::MAX, 7), 1);
    assert_eq!(shard_for_hash(u64::MAX, usize::MAX), (u64::MAX % usize::MAX as u64) as usize);
}

#[test]
fn a_thousand_readings_of_one_meter_go_to_one_worker() {
    let fanout = Fanout::new(4, 100);
    let first = fanout.route(&reading("m-1", 0.0, 0));
    assert!(first < 4);
    let mut counts = [0usize; 4];
    for i in 0..1000 {
        counts[fanout.route(&reading("m-1", i as f64, i))] += 1;
    }
    assert_eq!(counts[first], 1000);
    assert_eq!(counts.iter().sum::<usize>(), 1000);
}

#[test]
fn no_workers_count_as_one() {
    let fanout = Fanout::new(0, 10);
    assert_eq!(fanout.workers(), 1);
    assert_eq!(fanout.route(&reading("anything", 1.0, 0)), 0);
    assert_eq!(shard_index("anything", 0), 0);
}

#[test]
fn worker_queues_hold_two_batches() {
    assert_eq!(Fanout::new(4, 500).channel_capacity(), 1000);
    assert_eq!(Fanout::new(4, 0).channel_capacity(), 0);
    assert_eq!(Fanout::new(4, usize::MAX).channel_capacity(), usize::MAX);
    assert_eq!(Fanout::new(4, usize::MAX / 2).channel_capacity(), usize::MAX - 1);
    assert_eq!(Fanout::new(3, 5).workers(), 3);
}

#[test]
fn shard_keys_are_the_meter_and_the_plant() {
    assert_eq!(reading("m-7", 1.0, 0).payload.shard_key(), "m-7");
    let g = GenerationOutput {
        ts: 0,
        plant_id: "plant-3".to_string(),
        unit_id: Some("u".to_string()),
        mw: num(1.0),
        mvar: None,
        status: None,
        fuel_type: None,
    };
    assert_eq!(g.shard_key(), "plant-3");
    let fanout = Fanout::new(5, 1);
    assert_eq!(
        fanout.route(&Envelope { payload: g, received_at: 0 }),
        std_shard("plant-3", 5)
    );
}

#[test]
fn join_reports_the_first_failure_in_worker_order() {
    assert!(join(vec![]).is_ok());
    assert!(join(vec![Ok(()), Ok(())]).is_ok());
    let res = join(vec![
        Ok(()),
        Err(PipelineError::Sink("second".to_string())),
        Err(PipelineError::Sink("third".to_string())),
    ]);
    assert_eq!(res.unwrap_err().message(), "second");
}
