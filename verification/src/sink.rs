//! What the sinks decide: when a batch is full, how often a failed flush is
//! tried again and how long to wait, and what a flush is measured by.

use vstd::prelude::*;
use vstd::utf8::encode_utf8;
use crate::ilp::{batch_text, encode_batch, IlpEncode};
use crate::pipeline::{upstream, upstream_of, Envelope, PipelineError, Stage, Upstream};
use crate::record::UnixNanos;
use crate::text::push_text;

verus! {

/// The sum `1 + 2 + … + n`.
pub open spec fn triangle(n: nat) -> nat
    decreases n,
{
    if n == 0 {
        0
    } else {
        n + triangle((n - 1) as nat)
    }
}

/// What to do after a failed attempt to flush a batch.
#[derive(Debug, Clone, Copy, PartialEq, Eq, Structural)]
pub enum AfterFailure {
    /// Wait this many milliseconds, then send the whole batch again.
    Retry { sleep_ms: u128 },
    /// The retries are used up: the failure is fatal.
    GiveUp,
}

/// The course of one flush: how many retries it may take, how many it has
/// taken, and how long it has been told to wait in all.
pub struct Flush {
    max_retries: u32,
    retry_backoff_ms: u64,
    attempt: u32,
    waited: Ghost<nat>,
}

impl Flush {
    #[verifier::type_invariant]
    spec fn within_budget(self) -> bool {
        &&& self.attempt <= self.max_retries
        &&& self.waited@ == self.retry_backoff_ms * triangle(self.attempt as nat)
    }

    /// The number of retries the flush may take.
    pub closed spec fn max_retries(self) -> u32 {
        self.max_retries
    }

    /// The wait before the first retry, in milliseconds.
    pub closed spec fn retry_backoff_ms(self) -> u64 {
        self.retry_backoff_ms
    }

    /// The number of retries taken so far.
    pub closed spec fn retries(self) -> u32 {
        self.attempt
    }

    /// The milliseconds of waiting ordered so far.
    pub closed spec fn waited_ms(self) -> nat {
        self.waited@
    }

    /// A flush that has not failed yet.
    pub fn new(max_retries: u32, retry_backoff_ms: u64) -> (flush: Self)
        ensures
            flush.max_retries() == max_retries,
            flush.retry_backoff_ms() == retry_backoff_ms,
            flush.retries() == 0,
            flush.waited_ms() == 0,
    {
        assert(triangle(0) == 0);
        assert(retry_backoff_ms * 0 == 0);
        Flush { max_retries, retry_backoff_ms, attempt: 0, waited: Ghost(0) }
    }

    /// The number of retries taken so far. It never exceeds the budget, and
    /// the waits ordered so far add up to the backoff times
    /// `1 + 2 + … + retries`.
    pub fn attempt(&self) -> (n: u32)
        ensures
            n == self.retries(),
            n <= self.max_retries(),
            self.waited_ms() == self.retry_backoff_ms() * triangle(n as nat),
    {
        proof {
            use_type_invariant(self);
        }
        self.attempt
    }

    /// Decides what follows a failed attempt. While retries are left, the
    /// next one is taken after a wait that grows linearly: the backoff times
    /// the number of the retry. When none is left, the flush gives up.
    pub fn on_failure(&mut self) -> (next: AfterFailure)
        ensures
            final(self).max_retries() == old(self).max_retries(),
            final(self).retry_backoff_ms() == old(self).retry_backoff_ms(),
            old(self).retries() < old(self).max_retries() ==> {
                &&& final(self).retries() == old(self).retries() + 1
                &&& next matches AfterFailure::Retry { sleep_ms }
                &&& sleep_ms == old(self).retry_backoff_ms() * final(self).retries()
                &&& final(self).waited_ms() == old(self).waited_ms() + old(self).retry_backoff_ms()
                    * final(self).retries()
            },
            old(self).retries() >= old(self).max_retries() ==> {
                &&& next == AfterFailure::GiveUp
                &&& final(self).retries() == old(self).retries()
                &&& final(self).waited_ms() == old(self).waited_ms()
            },
    {
        proof {
            use_type_invariant(&*self);
        }
        if self.attempt < self.max_retries {
            let attempt = self.attempt + 1;
            let backoff = self.retry_backoff_ms;
            assert(backoff * attempt <= 0xffff_ffff_ffff_ffff * 0xffff_ffff) by (nonlinear_arith)
                requires
                    backoff <= 0xffff_ffff_ffff_ffff,
                    attempt <= 0xffff_ffff,
            ;
            let sleep_ms = (backoff as u128) * (attempt as u128);
            let ghost waited: nat = (self.waited@ + backoff * attempt) as nat;
            assert(waited == backoff * triangle(attempt as nat)) by (nonlinear_arith)
                requires
                    waited == backoff * triangle((attempt - 1) as nat) + backoff * attempt,
                    triangle(attempt as nat) == attempt + triangle((attempt - 1) as nat),
            ;
            *self = Flush {
                max_retries: self.max_retries,
                retry_backoff_ms: backoff,
                attempt,
                waited: Ghost(waited),
            };
            AfterFailure::Retry { sleep_ms }
        } else {
            AfterFailure::GiveUp
        }
    }
}

/// The earliest time of receipt in a batch, or `None` for an empty batch.
pub open spec fn earliest<T>(batch: Seq<Envelope<T>>) -> Option<int>
    decreases batch.len(),
{
    if batch.len() == 0 {
        None
    } else {
        match earliest(batch.drop_last()) {
            Some(t) => Some(
                if batch.last().received_at < t {
                    batch.last().received_at as int
                } else {
                    t
                },
            ),
            None => Some(batch.last().received_at as int),
        }
    }
}

/// The earliest time of receipt in a batch.
pub fn min_received_at<T>(batch: &[Envelope<T>]) -> (min: Option<UnixNanos>)
    ensures
        match min {
            Some(t) => earliest(batch@) == Some(t as int),
            None => earliest(batch@) is None,
        },
{
    let mut min: Option<UnixNanos> = None;
    let mut i: usize = 0;
    while i < batch.len()
        invariant
            0 <= i <= batch.len(),
            match min {
                Some(t) => earliest(batch@.take(i as int)) == Some(t as int),
                None => earliest(batch@.take(i as int)) is None,
            },
        decreases batch.len() - i,
    {
        proof {
            assert(batch@.take(i + 1).drop_last() =~= batch@.take(i as int));
        }
        let at = batch[i].received_at;
        min = match min {
            Some(t) => Some(if at < t { at } else { t }),
            None => Some(at),
        };
        i = i + 1;
    }
    assert(batch@.take(batch.len() as int) =~= batch@);
    min
}

/// The end-to-end latency of a batch flushed at `now`: the time since its
/// earliest envelope was received, in nanoseconds. There is none for an
/// empty batch, nor where the clock reads earlier than that receipt.
pub open spec fn latency<T>(batch: Seq<Envelope<T>>, now: int) -> Option<int> {
    match earliest(batch) {
        Some(t) => if t <= now {
            Some(now - t)
        } else {
            None
        },
        None => None,
    }
}

/// The end-to-end latency of a batch flushed at `now`, in nanoseconds.
pub fn latency_nanos<T>(batch: &[Envelope<T>], now: UnixNanos) -> (nanos: Option<u128>)
    ensures
        match nanos {
            Some(n) => latency(batch@, now as int) == Some(n as int),
            None => latency(batch@, now as int) is None,
        },
{
    match min_received_at(batch) {
        Some(t) => {
            if t <= now {
                if t >= 0 || now < 0 {
                    Some((now - t) as u128)
                } else {
                    Some((now as u128) + ((-(t + 1)) as u128) + 1)
                }
            } else {
                None
            }
        },
        None => None,
    }
}

/// What became of one item of the input.
#[derive(Debug, Clone)]
pub enum Pushed<T> {
    /// The envelope waits for its batch to fill.
    Buffered,
    /// The batch is full: it is to be flushed.
    Full(Vec<Envelope<T>>),
    /// A rejected record was dropped; the input goes on.
    Dropped(PipelineError),
    /// The source has failed: the input is read no further, what is waiting
    /// is flushed, and the run ends with this error.
    Failed(PipelineError),
}

/// The buffer of a sink: envelopes are collected until there are
/// `batch_size` of them, then handed out as one batch.
pub struct Batcher<T> {
    batch_size: usize,
    buffer: Vec<Envelope<T>>,
}

impl<T> Batcher<T> {
    /// The size at which a batch is handed out.
    pub closed spec fn batch_size(self) -> usize {
        self.batch_size
    }

    /// The envelopes waiting for their batch to fill, oldest first.
    pub closed spec fn pending(self) -> Seq<Envelope<T>> {
        self.buffer@
    }

    /// An empty buffer that hands out batches of `batch_size` envelopes.
    pub fn new(batch_size: usize) -> (batcher: Self)
        ensures
            batcher.batch_size() == batch_size,
            batcher.pending() == Seq::<Envelope<T>>::empty(),
    {
        Batcher { batch_size, buffer: Vec::new() }
    }

    /// Takes the next item of the input. An envelope joins the buffer; when
    /// that fills the batch, the whole batch is handed out, in the order of
    /// arrival, and the buffer starts anew. A rejected record is dropped and
    /// changes nothing. The failure of the source changes nothing either,
    /// but is handed back as what ends the run.
    pub fn push(&mut self, item: Result<Envelope<T>, PipelineError>) -> (pushed: Pushed<T>)
        ensures
            final(self).batch_size() == old(self).batch_size(),
            match upstream_of(item) {
                Upstream::Failed(e) => pushed == Pushed::<T>::Failed(e) && final(self).pending()
                    == old(self).pending(),
                Upstream::Rejected(e) => pushed == Pushed::<T>::Dropped(e) && final(self).pending()
                    == old(self).pending(),
                Upstream::Envelope(env) => {
                    if old(self).pending().len() + 1 >= old(self).batch_size() {
                        &&& pushed matches Pushed::Full(batch) && batch@ == old(self).pending().push(env)
                        &&& final(self).pending() == Seq::<Envelope<T>>::empty()
                    } else {
                        &&& pushed is Buffered
                        &&& final(self).pending() == old(self).pending().push(env)
                    }
                },
            },
            item is Ok ==> final(self).pending().len() == 0 || final(self).pending().len()
                < final(self).batch_size(),
    {
        match upstream(item) {
            Upstream::Failed(e) => Pushed::Failed(e),
            Upstream::Rejected(e) => Pushed::Dropped(e),
            Upstream::Envelope(env) => {
                if self.batch_size == 0 || self.buffer.len() >= self.batch_size - 1 {
                    let mut batch: Vec<Envelope<T>> = Vec::new();
                    batch.append(&mut self.buffer);
                    batch.push(env);
                    assert(batch@ =~= old(self).pending().push(env));
                    Pushed::Full(batch)
                } else {
                    self.buffer.push(env);
                    Pushed::Buffered
                }
            },
        }
    }

    /// Ends the input: what is still waiting is handed out as the last
    /// batch, if anything is.
    pub fn finish(self) -> (last: Option<Vec<Envelope<T>>>)
        ensures
            self.pending().len() == 0 ==> last is None,
            self.pending().len() > 0 ==> (last matches Some(batch) && batch@ == self.pending()),
    {
        if self.buffer.len() == 0 {
            None
        } else {
            Some(self.buffer)
        }
    }
}

/// What a successful flush is measured by.
#[derive(Debug, Clone, Copy, PartialEq, Eq, Structural)]
pub struct FlushReport {
    /// The number of records written.
    pub records: u64,
    /// The number of bytes written, for a sink that writes bytes.
    pub bytes: u64,
    /// The time from the earliest receipt in the batch to the flush, in
    /// nanoseconds, where there is one.
    pub latency_nanos: Option<u128>,
}

/// Whether `measures` are the measures of a batch that was written at `now`
/// as `bytes` bytes.
pub open spec fn measures_of<T>(
    measures: FlushReport,
    batch: Seq<Envelope<T>>,
    bytes: usize,
    now: int,
) -> bool {
    &&& measures.records == batch.len()
    &&& measures.bytes == bytes
    &&& match measures.latency_nanos {
        Some(n) => latency(batch, now) == Some(n as int),
        None => latency(batch, now) is None,
    }
}

/// The measures of a batch that was written at `now` as `bytes` bytes.
pub fn report<T>(batch: &[Envelope<T>], bytes: usize, now: UnixNanos) -> (measures: FlushReport)
    ensures
        measures_of(measures, batch@, bytes, now as int),
{
    FlushReport {
        records: batch.len() as u64,
        bytes: bytes as u64,
        latency_nanos: latency_nanos(batch, now),
    }
}

/// The measures of a batch that has just been written as `bytes` bytes: the
/// time of the flush is read from the wall clock.
pub fn report_now<T>(batch: &[Envelope<T>], bytes: usize) -> (measures: FlushReport)
    ensures
        measures.records == batch@.len(),
        measures.bytes == bytes,
        exists|now: i128| #[trigger] measures_of(measures, batch@, bytes, now as int),
{
    let now = crate::clock::now();
    let measures = report(batch, bytes, now);
    assert(measures_of(measures, batch@, bytes, now as int));
    measures
}

/// The fatal error of a sink: what the sink was doing, then the cause in the
/// words of whoever reported it.
pub fn fatal(context: &str, cause: &str) -> (e: PipelineError)
    ensures
        e.stage_of() == Stage::Sink,
        e.message_of() == context@ + cause@,
{
    let mut m = String::new();
    push_text(&mut m, context);
    push_text(&mut m, cause);
    PipelineError::Sink(m)
}

/// One batch on its way over the line protocol: the bytes to write and the
/// course of the flush. The bytes are encoded once; every attempt writes the
/// same bytes, so a record keeps its deduplication key however often its
/// batch is sent.
pub struct IlpFlush {
    payload: Vec<u8>,
    flush: Flush,
}

impl IlpFlush {
    /// The bytes that every attempt writes.
    pub closed spec fn bytes(self) -> Seq<u8> {
        self.payload@
    }

    /// The course of the flush.
    pub closed spec fn course(self) -> Flush {
        self.flush
    }

    /// Encodes a batch for its flush; `None` for an empty batch, which needs
    /// no flush.
    pub fn begin<T: IlpEncode>(
        batch: &[Envelope<T>],
        max_retries: u32,
        retry_backoff_ms: u64,
    ) -> (begun: Option<IlpFlush>)
        ensures
            begun is None <==> batch@.len() == 0,
            begun matches Some(f) ==> {
                &&& f.bytes() == encode_utf8(batch_text(batch@))
                &&& f.course().max_retries() == max_retries
                &&& f.course().retry_backoff_ms() == retry_backoff_ms
                &&& f.course().retries() == 0
            },
    {
        if batch.len() == 0 {
            None
        } else {
            Some(
                IlpFlush {
                    payload: encode_batch(batch),
                    flush: Flush::new(max_retries, retry_backoff_ms),
                },
            )
        }
    }

    /// The bytes to write, on the first attempt and on every retry.
    pub fn payload(&self) -> (bytes: &[u8])
        ensures
            bytes@ == self.bytes(),
    {
        self.payload.as_slice()
    }

    /// The number of retries taken so far.
    pub fn attempt(&self) -> (n: u32)
        ensures
            n == self.course().retries(),
            n <= self.course().max_retries(),
    {
        self.flush.attempt()
    }

    /// Decides what follows a failed write: a retry, after which the whole
    /// payload is written again over a new connection, or giving up. The
    /// payload stays as it is.
    pub fn on_failure(&mut self) -> (next: AfterFailure)
        ensures
            final(self).bytes() == old(self).bytes(),
            final(self).course().max_retries() == old(self).course().max_retries(),
            final(self).course().retry_backoff_ms() == old(self).course().retry_backoff_ms(),
            old(self).course().retries() < old(self).course().max_retries() ==> {
                &&& final(self).course().retries() == old(self).course().retries() + 1
                &&& next matches AfterFailure::Retry { sleep_ms }
                &&& sleep_ms == old(self).course().retry_backoff_ms() * final(self).course().retries()
            },
            old(self).course().retries() >= old(self).course().max_retries() ==> {
                &&& next == AfterFailure::GiveUp
                &&& final(self).course().retries() == old(self).course().retries()
            },
    {
        self.flush.on_failure()
    }
}

} // verus!
