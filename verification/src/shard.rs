//! Sharding of envelopes over the parallel writers: every record goes to the
//! writer that its shard key hashes to, so that the records of one key stay
//! in order.

use vstd::prelude::*;
use vstd::std_specs::hash::DefaultHasherAdditionalSpecFns;
use std::collections::hash_map::DefaultHasher;
use std::hash::{Hash, Hasher};
use crate::pipeline::{Envelope, PipelineError};
use crate::record::{GenerationOutput, MeterUsage};

verus! {

/// The writes by which a text feeds itself to a hasher.
pub uninterp spec fn str_hash_writes(key: Seq<char>) -> Seq<Seq<u8>>;

/// Feeds a text to a hasher.
///
/// Trusted: stands for `<str as Hash>::hash` on the standard library's
/// `DefaultHasher`. What is written to the hasher depends on the text alone.
#[verifier::external_body]
fn hash_text(key: &str, state: &mut DefaultHasher)
    ensures
        final(state)@ == old(state)@ + str_hash_writes(key@),
{
    key.hash(state);
}

/// The hash of a shard key: that of a fresh default hasher fed with the key.
pub open spec fn key_hash(key: Seq<char>) -> u64 {
    DefaultHasher::spec_finish(Seq::<Seq<u8>>::empty() + str_hash_writes(key))
}

/// The number of writers that `workers` asks for: at least one.
pub open spec fn at_least_one(workers: usize) -> usize {
    if workers == 0 {
        1
    } else {
        workers
    }
}

/// The shard of a key whose hash is `hash`, among `workers` writers: the
/// hash modulo the number of writers.
pub open spec fn shard_for(hash: u64, workers: usize) -> int {
    hash as int % at_least_one(workers) as int
}

/// The shard of a key among `workers` writers.
pub open spec fn shard_of(key: Seq<char>, workers: usize) -> int {
    shard_for(key_hash(key), workers)
}

/// The shard of a key whose hash was computed beforehand.
pub fn shard_for_hash(hash: u64, workers: usize) -> (index: usize)
    ensures
        index == shard_for(hash, workers),
        index < at_least_one(workers),
{
    let n: u64 = if workers == 0 {
        1
    } else {
        workers as u64
    };
    (hash % n) as usize
}

/// The shard of a key among `workers` writers; no writers count as one.
pub fn shard_index(key: &str, workers: usize) -> (index: usize)
    ensures
        index == shard_of(key@, workers),
        index < at_least_one(workers),
{
    let mut h = DefaultHasher::new();
    hash_text(key, &mut h);
    shard_for_hash(h.finish(), workers)
}

/// A record that names the key it is sharded by.
pub trait ShardKey {
    /// The key as a mathematical value.
    spec fn key(&self) -> Seq<char>;

    /// The key.
    fn shard_key(&self) -> (key: &str)
        ensures
            key@ == self.key(),
    ;
}

impl ShardKey for MeterUsage {
    open spec fn key(&self) -> Seq<char> {
        self.meter_id@
    }

    fn shard_key(&self) -> (key: &str) {
        self.meter_id.as_str()
    }
}

impl ShardKey for GenerationOutput {
    open spec fn key(&self) -> Seq<char> {
        self.plant_id@
    }

    fn shard_key(&self) -> (key: &str) {
        self.plant_id.as_str()
    }
}

/// Two records with the same shard key go to the same writer, whatever else
/// they hold.
pub proof fn shard_stability<T: ShardKey>(a: T, b: T, workers: usize)
    requires
        a.key() == b.key(),
    ensures
        shard_of(a.key(), workers) == shard_of(b.key(), workers),
        0 <= shard_of(a.key(), workers) < at_least_one(workers),
{
}

/// The plan of the fan-out: how many writers there are and how large their
/// batches are.
#[derive(Debug, Clone, Copy)]
pub struct Fanout {
    workers: usize,
    batch_size: usize,
}

impl Fanout {
    #[verifier::type_invariant]
    spec fn has_writers(self) -> bool {
        self.workers >= 1
    }

    /// The number of writers.
    pub closed spec fn writers(self) -> usize {
        self.workers
    }

    /// The size of a writer's batches.
    pub closed spec fn batch(self) -> usize {
        self.batch_size
    }

    /// A fan-out over `workers` writers, at least one, with batches of
    /// `batch_size`.
    pub fn new(workers: usize, batch_size: usize) -> (fanout: Self)
        ensures
            fanout.writers() == at_least_one(workers),
            fanout.batch() == batch_size,
    {
        Fanout {
            workers: if workers == 0 {
                1
            } else {
                workers
            },
            batch_size,
        }
    }

    /// The number of writers.
    pub fn workers(&self) -> (n: usize)
        ensures
            n == self.writers(),
            n >= 1,
    {
        proof {
            use_type_invariant(self);
        }
        self.workers
    }

    /// The capacity of the queue in front of each writer: twice the batch
    /// size, or the largest capacity there is where that is out of range.
    pub fn channel_capacity(&self) -> (capacity: usize)
        ensures
            capacity == if 2 * self.batch() <= usize::MAX {
                2 * self.batch()
            } else {
                usize::MAX as int
            },
    {
        if self.batch_size > usize::MAX / 2 {
            usize::MAX
        } else {
            self.batch_size * 2
        }
    }

    /// The writer an envelope goes to: the shard of its record's key.
    pub fn route<T: ShardKey>(&self, env: &Envelope<T>) -> (index: usize)
        ensures
            index == shard_of(env.payload.key(), self.writers()),
            index < self.writers(),
    {
        proof {
            use_type_invariant(self);
        }
        shard_index(env.payload.shard_key(), self.workers)
    }
}

/// The first failure among the outcomes of the writers, in the order of the
/// writers.
pub open spec fn first_failure(outcomes: Seq<Result<(), PipelineError>>) -> Option<PipelineError>
    decreases outcomes.len(),
{
    if outcomes.len() == 0 {
        None
    } else {
        match outcomes[0] {
            Err(e) => Some(e),
            Ok(()) => first_failure(outcomes.skip(1)),
        }
    }
}

/// The outcome of the sink once all writers have ended: the first failure in
/// the order of the writers, or success when there is none.
pub fn join(outcomes: Vec<Result<(), PipelineError>>) -> (result: Result<(), PipelineError>)
    ensures
        match first_failure(outcomes@) {
            Some(e) => result == Err::<(), PipelineError>(e),
            None => result is Ok,
        },
{
    let ghost all = outcomes@;
    assert(all.skip(0) =~= all);
    for outcome in it: outcomes
        invariant
            it.seq() == all,
            first_failure(all) == first_failure(all.skip(it.index() as int)),
    {
        proof {
            assert(all.skip(it.index() as int).skip(1) =~= all.skip(it.index() + 1));
        }
        match outcome {
            Ok(()) => {},
            Err(e) => {
                return Err(e);
            },
        }
    }
    Ok(())
}

} // verus!
