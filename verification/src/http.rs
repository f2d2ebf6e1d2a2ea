//! The decisions of the HTTP intake: authorization, limits, conversion of
//! incoming records and load shedding.

use vstd::prelude::*;
use crate::clock::{parse_ts, ts_of};
use crate::outbox::{Offer, Outbox};
use crate::pipeline::Envelope;
use crate::record::{opt_text, GenerationOutput, MeterUsage, Number, UnixNanos};
use crate::text::{push_text, same_text, trim, trimmed};
use vstd::utf8::encode_utf8;

verus! {

/// Why a request was ended before its body was used up.
#[derive(Debug, Clone, Copy, PartialEq, Eq, Structural)]
pub enum Rejection {
    /// The body, a line of it or a timestamp in it could not be read.
    Malformed,
    /// A bearer token is configured and the request did not present it.
    Unauthorized,
    /// The request holds more records than a request may.
    TooManyRecords,
    /// A line is longer than a line may be.
    LineTooLarge,
    /// The queue is full: the request is shed, what it had queued stays.
    Overloaded,
    /// The queue's receiver is gone.
    Closed,
}

impl Rejection {
    /// The HTTP status that answers a request ended for this reason.
    pub open spec fn status_of(self) -> u16 {
        match self {
            Rejection::Malformed => 400,
            Rejection::Unauthorized => 401,
            Rejection::TooManyRecords => 413,
            Rejection::LineTooLarge => 413,
            Rejection::Overloaded => 429,
            Rejection::Closed => 500,
        }
    }

    /// The HTTP status that answers a request ended for this reason.
    pub fn status(self) -> (code: u16)
        ensures
            code == self.status_of(),
    {
        match self {
            Rejection::Malformed => 400,
            Rejection::Unauthorized => 401,
            Rejection::TooManyRecords => 413,
            Rejection::LineTooLarge => 413,
            Rejection::Overloaded => 429,
            Rejection::Closed => 500,
        }
    }

    /// The rejection that answers a refused offer.
    pub open spec fn of_refusal(offer: Offer) -> Rejection {
        if offer == Offer::Full {
            Rejection::Overloaded
        } else {
            Rejection::Closed
        }
    }
}

/// What the header must hold when `token` is configured.
pub open spec fn bearer(token: Seq<char>) -> Seq<char> {
    "Bearer "@ + token
}

/// Whether a request with this `Authorization` header may pass: always when
/// no token is configured, else only with exactly `Bearer <token>`.
pub open spec fn authorized(header: Option<Seq<char>>, token: Option<Seq<char>>) -> bool {
    match token {
        None => true,
        Some(expected) => header == Some(bearer(expected)),
    }
}

/// The text of a header's value, where the request presents one.
pub open spec fn presented(header: Option<&str>) -> Option<Seq<char>> {
    match header {
        Some(h) => Some(h@),
        None => None,
    }
}

/// Checks the `Authorization` header of a request against the configured
/// bearer token. `header` is the header's value as text, or `None` where the
/// request has no such header or its value is not text.
pub fn authorize(header: Option<&str>, token: &Option<String>) -> (result: Result<(), Rejection>)
    ensures
        result is Ok <==> authorized(
            presented(header),
            opt_text(*token),
        ),
        result is Err ==> result == Err::<(), Rejection>(Rejection::Unauthorized),
{
    match token {
        None => Ok(()),
        Some(expected) => {
            match header {
                None => Err(Rejection::Unauthorized),
                Some(given) => {
                    let mut wanted = String::new();
                    push_text(&mut wanted, "Bearer ");
                    push_text(&mut wanted, expected.as_str());
                    assert(wanted@ =~= bearer(expected@));
                    if same_text(given, wanted.as_str()) {
                        Ok(())
                    } else {
                        Err(Rejection::Unauthorized)
                    }
                },
            }
        },
    }
}

/// A meter reading as it arrives: the timestamp is still text.
#[derive(Debug, Clone)]
pub struct IncomingMeterUsage {
    pub ts: String,
    pub meter_id: String,
    pub premise_id: Option<String>,
    pub kwh: Number,
    pub kvarh: Option<Number>,
    pub kva_demand: Option<Number>,
    pub quality_flag: Option<String>,
    pub source_system: Option<String>,
}

/// A generation sample as it arrives: the timestamp is still text.
#[derive(Debug, Clone)]
pub struct IncomingGenerationOutput {
    pub ts: String,
    pub plant_id: String,
    pub unit_id: Option<String>,
    pub mw: Number,
    pub mvar: Option<Number>,
    pub status: Option<String>,
    pub fuel_type: Option<String>,
}

/// Completes an incoming reading with its timestamp, read beforehand: `None`
/// stands for a timestamp that could not be read and makes the record
/// malformed.
pub fn usage_with_ts(i: IncomingMeterUsage, ts: Option<UnixNanos>) -> (result: Result<
    MeterUsage,
    Rejection,
>)
    ensures
        result is Ok <==> ts is Some,
        result matches Ok(m) ==> m == i.with_ts(ts->0),
        result is Err ==> result->Err_0 == Rejection::Malformed,
{
    match ts {
        Some(ts) => Ok(
            MeterUsage {
                ts,
                meter_id: i.meter_id,
                premise_id: i.premise_id,
                kwh: i.kwh,
                kvarh: i.kvarh,
                kva_demand: i.kva_demand,
                quality_flag: i.quality_flag,
                source_system: i.source_system,
            },
        ),
        None => Err(Rejection::Malformed),
    }
}

/// Completes an incoming sample with its timestamp, read beforehand: `None`
/// stands for a timestamp that could not be read and makes the record
/// malformed.
pub fn output_with_ts(i: IncomingGenerationOutput, ts: Option<UnixNanos>) -> (result: Result<
    GenerationOutput,
    Rejection,
>)
    ensures
        result is Ok <==> ts is Some,
        result matches Ok(g) ==> g == i.with_ts(ts->0),
        result is Err ==> result->Err_0 == Rejection::Malformed,
{
    match ts {
        Some(ts) => Ok(
            GenerationOutput {
                ts,
                plant_id: i.plant_id,
                unit_id: i.unit_id,
                mw: i.mw,
                mvar: i.mvar,
                status: i.status,
                fuel_type: i.fuel_type,
            },
        ),
        None => Err(Rejection::Malformed),
    }
}

/// Turns an incoming reading into a reading by reading its timestamp, which
/// must be RFC 3339.
pub fn incoming_to_usage(i: IncomingMeterUsage) -> (result: Result<MeterUsage, Rejection>)
    ensures
        result is Ok <==> ts_of(i.ts@) is Some,
        result matches Ok(m) ==> m == i.with_ts(ts_of(i.ts@)->0),
        result is Err ==> result->Err_0 == Rejection::Malformed,
{
    let ts = parse_ts(i.ts.as_str());
    usage_with_ts(i, ts)
}

/// Turns an incoming sample into a sample by reading its timestamp, which
/// must be RFC 3339.
pub fn incoming_to_output(i: IncomingGenerationOutput) -> (result: Result<
    GenerationOutput,
    Rejection,
>)
    ensures
        result is Ok <==> ts_of(i.ts@) is Some,
        result matches Ok(g) ==> g == i.with_ts(ts_of(i.ts@)->0),
        result is Err ==> result->Err_0 == Rejection::Malformed,
{
    let ts = parse_ts(i.ts.as_str());
    output_with_ts(i, ts)
}

/// A record as it arrives over HTTP, before its timestamp is read.
pub trait Incoming: Sized {
    /// The record it becomes.
    type Record;

    /// The text of its timestamp.
    spec fn ts_text(&self) -> Seq<char>;

    /// The record it becomes once its timestamp is read as `ts`.
    spec fn with_ts(self, ts: i128) -> Self::Record;

    /// Reads the timestamp and completes the record; a timestamp that is not
    /// RFC 3339 makes the record malformed.
    fn convert(self) -> (result: Result<Self::Record, Rejection>)
        ensures
            result is Ok <==> ts_of(self.ts_text()) is Some,
            result matches Ok(record) ==> record == self.with_ts(ts_of(self.ts_text())->0),
            result is Err ==> result->Err_0 == Rejection::Malformed,
    ;
}

impl Incoming for IncomingMeterUsage {
    type Record = MeterUsage;

    open spec fn ts_text(&self) -> Seq<char> {
        self.ts@
    }

    open spec fn with_ts(self, ts: i128) -> MeterUsage {
        MeterUsage {
            ts,
            meter_id: self.meter_id,
            premise_id: self.premise_id,
            kwh: self.kwh,
            kvarh: self.kvarh,
            kva_demand: self.kva_demand,
            quality_flag: self.quality_flag,
            source_system: self.source_system,
        }
    }

    fn convert(self) -> (result: Result<MeterUsage, Rejection>) {
        incoming_to_usage(self)
    }
}

impl Incoming for IncomingGenerationOutput {
    type Record = GenerationOutput;

    open spec fn ts_text(&self) -> Seq<char> {
        self.ts@
    }

    open spec fn with_ts(self, ts: i128) -> GenerationOutput {
        GenerationOutput {
            ts,
            plant_id: self.plant_id,
            unit_id: self.unit_id,
            mw: self.mw,
            mvar: self.mvar,
            status: self.status,
            fuel_type: self.fuel_type,
        }
    }

    fn convert(self) -> (result: Result<GenerationOutput, Rejection>) {
        incoming_to_output(self)
    }
}

/// The record an incoming one becomes, or `None` when its timestamp cannot
/// be read.
pub open spec fn converted<I: Incoming>(incoming: I) -> Option<I::Record> {
    match ts_of(incoming.ts_text()) {
        Some(ts) => Some(incoming.with_ts(ts)),
        None => None,
    }
}

/// What a request gets for the outcome of one offer to the queue: it goes on
/// after an accepted item, is shed when the queue is full, and fails when
/// the receiver is gone.
pub fn after_offer(offer: Offer) -> (result: Result<(), Rejection>)
    ensures
        offer == Offer::Accepted ==> result is Ok,
        offer == Offer::Full ==> result == Err::<(), Rejection>(Rejection::Overloaded),
        offer == Offer::Closed ==> result == Err::<(), Rejection>(Rejection::Closed),
{
    match offer {
        Offer::Accepted => Ok(()),
        Offer::Full => Err(Rejection::Overloaded),
        Offer::Closed => Err(Rejection::Closed),
    }
}

/// The accepted items of `now` are those of `before` followed by envelopes
/// of exactly `records`, in order.
pub open spec fn queued<T>(
    before: Outbox<Envelope<T>>,
    now: Outbox<Envelope<T>>,
    records: Seq<T>,
) -> bool {
    &&& now.accepted().len() == before.accepted().len() + records.len()
    &&& now.accepted().take(before.accepted().len() as int) == before.accepted()
    &&& forall|j: int|
        0 <= j < records.len() ==> (#[trigger] now.accepted()[before.accepted().len()
            + j]).payload == records[j]
}

/// The offer that ended a request was refused: the queue's state is that of
/// `before` with one more refusal, and the request is answered by what that
/// refusal calls for, 429 for a full queue and 500 for a closed one.
pub open spec fn turned_down<T>(
    before: Outbox<Envelope<T>>,
    now: Outbox<Envelope<T>>,
    result: Result<(), Rejection>,
) -> bool {
    &&& now.refusals().len() == before.refusals().len() + 1
    &&& now.refusals().drop_last() == before.refusals()
    &&& now.refusals().last() != Offer::Accepted
    &&& result == Err::<(), Rejection>(Rejection::of_refusal(now.refusals().last()))
}

/// What one intake endpoint shares between its requests: the queue and the
/// limits that every request is held to.
#[verifier::reject_recursive_types(T)]
pub struct SharedSender<T> {
    pub tx: Outbox<Envelope<T>>,
    pub auth_bearer_token: Option<String>,
    pub max_request_records: usize,
    pub max_line_bytes: usize,
    pub ndjson_strict: bool,
}

/// Whether every record of a payload can be converted.
pub open spec fn all_convert<I: Incoming>(payload: Seq<I>) -> bool {
    forall|j: int| 0 <= j < payload.len() ==> converted(#[trigger] payload[j]) is Some
}

/// The records of a payload, converted; meaningful where each of them
/// converts.
pub open spec fn converted_all<I: Incoming>(payload: Seq<I>) -> Seq<I::Record> {
    Seq::new(payload.len(), |j: int| converted(payload[j])->0)
}

/// Converts the records of a payload, all or none: one record whose
/// timestamp cannot be read makes the whole payload malformed.
pub fn convert_all<I: Incoming>(payload: Vec<I>) -> (result: Result<Vec<I::Record>, Rejection>)
    ensures
        result is Ok <==> all_convert(payload@),
        result matches Ok(records) ==> records@ == converted_all(payload@),
        result is Err ==> result->Err_0 == Rejection::Malformed,
{
    let ghost all = payload@;
    let mut records: Vec<I::Record> = Vec::new();
    for incoming in it: payload
        invariant
            it.seq() == all,
            all == payload@,
            records@.len() == it.index(),
            forall|j: int| 0 <= j < it.index() ==> converted(#[trigger] all[j]) is Some,
            forall|j: int| 0 <= j < it.index() ==> records@[j] == converted(#[trigger] all[j])->0,
    {
        match incoming.convert() {
            Ok(record) => {
                records.push(record);
            },
            Err(e) => {
                assert(converted(all[it.index() as int]) is None);
                return Err(e);
            },
        }
    }
    assert(records@ =~= converted_all(all));
    Ok(records)
}

impl<T> SharedSender<T> {
    /// Whether a request with this `Authorization` header may pass.
    pub open spec fn admits(self, header: Option<&str>) -> bool {
        authorized(presented(header), opt_text(self.auth_bearer_token))
    }

    /// Whether two states of an endpoint hold the same token and limits.
    pub open spec fn same_limits(self, other: Self) -> bool {
        &&& self.auth_bearer_token == other.auth_bearer_token
        &&& self.max_request_records == other.max_request_records
        &&& self.max_line_bytes == other.max_line_bytes
        &&& self.ndjson_strict == other.ndjson_strict
    }

    /// Wraps one record into an envelope stamped with the current time and
    /// offers it to the queue without waiting.
    pub fn enqueue(&mut self, record: T) -> (result: Result<(), Rejection>)
        ensures
            final(self).same_limits(*old(self)),
            result is Ok ==> {
                &&& queued(old(self).tx, final(self).tx, seq![record])
                &&& final(self).tx.refusals() == old(self).tx.refusals()
            },
            result is Err ==> {
                &&& final(self).tx.accepted() == old(self).tx.accepted()
                &&& turned_down(old(self).tx, final(self).tx, result)
            },
    {
        let env = Envelope::received_now(record);
        let offer = self.tx.offer(env);
        proof {
            if offer == Offer::Accepted {
                let n = old(self).tx.accepted().len() as int;
                assert(self.tx.accepted().take(n) =~= old(self).tx.accepted());
            } else {
                assert(self.tx.refusals().drop_last() =~= old(self).tx.refusals());
            }
        }
        after_offer(offer)
    }

    /// Offers records to the queue in turn, each in an envelope stamped with
    /// the current time. The first offer that the queue refuses ends the
    /// request; what was queued before it stays queued.
    pub fn offer_all(&mut self, records: Vec<T>) -> (result: Result<(), Rejection>)
        ensures
            final(self).same_limits(*old(self)),
            ({
                let n = final(self).tx.accepted().len() - old(self).tx.accepted().len();
                &&& 0 <= n <= records.len()
                &&& queued(old(self).tx, final(self).tx, records@.take(n))
                &&& result is Ok <==> n == records.len()
                &&& result is Ok ==> final(self).tx.refusals() == old(self).tx.refusals()
                &&& result is Err ==> turned_down(old(self).tx, final(self).tx, result)
            }),
    {
        let ghost before = self.tx;
        let ghost all = records@;
        assert(before.accepted().take(before.accepted().len() as int) =~= before.accepted());
        for record in it: records
            invariant
                it.seq() == all,
                all == records@,
                self.same_limits(*old(self)),
                before == old(self).tx,
                self.tx.refusals() == before.refusals(),
                self.tx.accepted().len() == before.accepted().len() + it.index(),
                queued(before, self.tx, all.take(it.index() as int)),
        {
            let ghost mid = self.tx;
            let ghost k = it.index() as int;
            match self.enqueue(record) {
                Ok(()) => {
                    proof {
                        let grown = all.take(k + 1);
                        let base = before.accepted().len() as int;
                        let was = mid.accepted();
                        let is = self.tx.accepted();
                        assert(was.len() == base + k);
                        assert(is.take(was.len() as int) == was);
                        assert(is[(was.len() + 0) as int].payload == seq![record][0]);
                        assert(is.take(base) =~= was.take(base)) by {
                            assert forall|j: int| 0 <= j < base implies is.take(base)[j]
                                == was.take(base)[j] by {
                                assert(is.take(was.len() as int)[j] == was[j]);
                            }
                        }
                        assert forall|j: int| 0 <= j < grown.len() implies (#[trigger] is[base
                            + j]).payload == grown[j] by {
                            if j < k {
                                assert(is.take(was.len() as int)[base + j] == was[base + j]);
                                assert(all.take(k)[j] == grown[j]);
                            } else {
                                assert(base + j == (was.len() + 0) as int);
                            }
                        }
                    }
                },
                Err(e) => {
                    return Err(e);
                },
            }
        }
        assert(all.take(all.len() as int) =~= all);
        Ok(())
    }

    /// Takes in the records of one request whose body is an array. The
    /// request is authorized and held to the record cap; then the whole
    /// array is converted, and one record whose timestamp cannot be read
    /// refuses all of it. Only then are the records offered to the queue in
    /// turn; the first offer that the queue refuses ends the request, and
    /// what was queued before it stays queued.
    pub fn ingest<I: Incoming<Record = T>>(
        &mut self,
        header: Option<&str>,
        payload: Vec<I>,
    ) -> (result: Result<(), Rejection>)
        ensures
            final(self).same_limits(*old(self)),
            !old(self).admits(header) ==> {
                &&& result == Err::<(), Rejection>(Rejection::Unauthorized)
                &&& final(self).tx == old(self).tx
            },
            old(self).admits(header) && payload.len() > old(self).max_request_records ==> {
                &&& result == Err::<(), Rejection>(Rejection::TooManyRecords)
                &&& final(self).tx == old(self).tx
            },
            old(self).admits(header) && payload.len() <= old(self).max_request_records
                && !all_convert(payload@) ==> {
                &&& result == Err::<(), Rejection>(Rejection::Malformed)
                &&& final(self).tx == old(self).tx
            },
            old(self).admits(header) && payload.len() <= old(self).max_request_records
                && all_convert(payload@) ==> {
                let n = final(self).tx.accepted().len() - old(self).tx.accepted().len();
                &&& 0 <= n <= payload.len()
                &&& queued(old(self).tx, final(self).tx, converted_all(payload@).take(n))
                &&& result is Ok <==> n == payload.len()
                &&& result is Ok ==> final(self).tx.refusals() == old(self).tx.refusals()
                &&& result is Err ==> turned_down(old(self).tx, final(self).tx, result)
            },
    {
        match authorize(header, &self.auth_bearer_token) {
            Ok(()) => {},
            Err(e) => {
                return Err(e);
            },
        }
        if payload.len() > self.max_request_records {
            return Err(Rejection::TooManyRecords);
        }
        match convert_all(payload) {
            Ok(records) => self.offer_all(records),
            Err(e) => Err(e),
        }
    }
}

/// What a line-delimited request has come to: the records queued and the
/// lines that could not be read as a record. It is the body of the answer to
/// a request that was read to its end.
#[derive(Debug, Clone, Copy)]
pub struct IngestSummary {
    accepted: usize,
    parse_errors: usize,
}

impl IngestSummary {
    #[verifier::type_invariant]
    spec fn within_range(self) -> bool {
        self.accepted + self.parse_errors <= usize::MAX
    }

    /// The number of records queued.
    pub closed spec fn accepted_so_far(self) -> nat {
        self.accepted as nat
    }

    /// The number of lines that could not be read as a record.
    pub closed spec fn parse_errors_so_far(self) -> nat {
        self.parse_errors as nat
    }

    /// The number of lines counted, one way or the other.
    pub open spec fn seen(self) -> nat {
        self.accepted_so_far() + self.parse_errors_so_far()
    }

    /// The summary of a request of which nothing was read yet.
    pub fn new() -> (summary: Self)
        ensures
            summary.accepted_so_far() == 0,
            summary.parse_errors_so_far() == 0,
    {
        IngestSummary { accepted: 0, parse_errors: 0 }
    }

    /// The number of records queued.
    pub fn accepted(&self) -> (n: usize)
        ensures
            n == self.accepted_so_far(),
    {
        self.accepted
    }

    /// The number of lines that could not be read as a record.
    pub fn parse_errors(&self) -> (n: usize)
        ensures
            n == self.parse_errors_so_far(),
    {
        self.parse_errors
    }

    /// Whether `max` lines were counted already.
    fn reached(&self, max: usize) -> (yes: bool)
        ensures
            yes == (self.seen() >= max),
            self.seen() <= usize::MAX,
    {
        proof {
            use_type_invariant(self);
        }
        self.accepted >= max || self.parse_errors >= max - self.accepted
    }
}

/// What to do with one line of a line-delimited body.
#[derive(Debug, Clone, Copy)]
pub enum LineStep<'a> {
    /// The line is blank: go on with the next.
    Skip,
    /// Read this text as one record.
    Parse(&'a str),
    /// End the request.
    Reject(Rejection),
}

/// What a line comes to, once the white space around it is taken off, in a
/// request that has counted `seen` lines: a blank line is skipped; a line of
/// more than `max_line_bytes` bytes ends the request; so does a line that
/// would be one record more than `max_request_records`; any other line is to
/// be read.
pub open spec fn line_verdict(
    line: Seq<char>,
    seen: nat,
    max_line_bytes: usize,
    max_request_records: usize,
) -> Option<Result<(), Rejection>> {
    if line.len() == 0 {
        None
    } else if encode_utf8(line).len() > max_line_bytes {
        Some(Err(Rejection::LineTooLarge))
    } else if seen + 1 > max_request_records {
        Some(Err(Rejection::TooManyRecords))
    } else {
        Some(Ok(()))
    }
}

impl<T> SharedSender<T> {
    /// Begins a request whose body is line-delimited: the request is
    /// authorized, and nothing of its body is counted yet.
    pub fn begin(&self, header: Option<&str>) -> (begun: Result<IngestSummary, Rejection>)
        ensures
            begun is Ok <==> self.admits(header),
            begun matches Ok(summary) ==> summary.accepted_so_far() == 0
                && summary.parse_errors_so_far() == 0,
            begun is Err ==> begun->Err_0 == Rejection::Unauthorized,
    {
        match authorize(header, &self.auth_bearer_token) {
            Ok(()) => Ok(IngestSummary::new()),
            Err(e) => Err(e),
        }
    }

    /// Decides what to do with a line from which the white space at both
    /// ends has been taken off already.
    pub fn classify<'a>(&self, so_far: &IngestSummary, line: &'a str) -> (step: LineStep<'a>)
        ensures
            match line_verdict(
                line@,
                so_far.seen(),
                self.max_line_bytes,
                self.max_request_records,
            ) {
                None => step is Skip,
                Some(Ok(())) => step matches LineStep::Parse(text) && text@ == line@,
                Some(Err(e)) => step matches LineStep::Reject(r) && r == e,
            },
    {
        if line.is_empty() {
            return LineStep::Skip;
        }
        if line.as_bytes().len() > self.max_line_bytes {
            return LineStep::Reject(Rejection::LineTooLarge);
        }
        if so_far.reached(self.max_request_records) {
            return LineStep::Reject(Rejection::TooManyRecords);
        }
        LineStep::Parse(line)
    }

    /// Decides what to do with a line as it was read from the body.
    pub fn check_line<'a>(&self, so_far: &IngestSummary, line: &'a str) -> (step: LineStep<'a>)
        ensures
            match line_verdict(
                trimmed(line@),
                so_far.seen(),
                self.max_line_bytes,
                self.max_request_records,
            ) {
                None => step is Skip,
                Some(Ok(())) => step matches LineStep::Parse(text) && text@ == trimmed(line@),
                Some(Err(e)) => step matches LineStep::Reject(r) && r == e,
            },
    {
        self.classify(so_far, trim(line))
    }

    /// Counts a line that could not be read as a record. In strict mode the
    /// request ends here; otherwise the line is skipped. A line beyond the
    /// record cap is not counted and ends the request.
    pub fn reject_line(&self, so_far: &mut IngestSummary) -> (result: Result<(), Rejection>)
        ensures
            final(so_far).accepted_so_far() == old(so_far).accepted_so_far(),
            old(so_far).seen() >= self.max_request_records ==> result == Err::<(), Rejection>(
                Rejection::TooManyRecords,
            ) && *final(so_far) == *old(so_far),
            old(so_far).seen() < self.max_request_records ==> final(so_far).parse_errors_so_far()
                == old(so_far).parse_errors_so_far() + 1 && result == (if self.ndjson_strict {
                Err::<(), Rejection>(Rejection::Malformed)
            } else {
                Ok::<(), Rejection>(())
            }),
    {
        if so_far.reached(self.max_request_records) {
            return Err(Rejection::TooManyRecords);
        }
        *so_far = IngestSummary {
            accepted: so_far.accepted,
            parse_errors: so_far.parse_errors + 1,
        };
        if self.ndjson_strict {
            Err(Rejection::Malformed)
        } else {
            Ok(())
        }
    }

    /// Takes in one record of a line-delimited request: it is converted,
    /// stamped and offered to the queue without waiting. A record whose
    /// timestamp cannot be read counts as a line that could not be read. A
    /// refused offer ends the request; what was queued before stays queued.
    pub fn accept<I: Incoming<Record = T>>(
        &mut self,
        so_far: &mut IngestSummary,
        incoming: I,
    ) -> (result: Result<(), Rejection>)
        ensures
            final(self).same_limits(*old(self)),
            old(so_far).seen() >= old(self).max_request_records ==> result == Err::<(), Rejection>(
                Rejection::TooManyRecords,
            ) && *final(so_far) == *old(so_far) && final(self).tx == old(self).tx,
            old(so_far).seen() < old(self).max_request_records && converted(incoming) is None ==> {
                &&& final(self).tx == old(self).tx
                &&& final(so_far).accepted_so_far() == old(so_far).accepted_so_far()
                &&& final(so_far).parse_errors_so_far() == old(so_far).parse_errors_so_far() + 1
                &&& result == (if old(self).ndjson_strict {
                    Err::<(), Rejection>(Rejection::Malformed)
                } else {
                    Ok::<(), Rejection>(())
                })
            },
            old(so_far).seen() < old(self).max_request_records && converted(incoming) is Some ==> {
                &&& final(so_far).parse_errors_so_far() == old(so_far).parse_errors_so_far()
                &&& result is Ok ==> {
                    &&& queued(old(self).tx, final(self).tx, seq![converted(incoming)->0])
                    &&& final(self).tx.refusals() == old(self).tx.refusals()
                    &&& final(so_far).accepted_so_far() == old(so_far).accepted_so_far() + 1
                }
                &&& result is Err ==> {
                    &&& final(self).tx.accepted() == old(self).tx.accepted()
                    &&& turned_down(old(self).tx, final(self).tx, result)
                    &&& final(so_far).accepted_so_far() == old(so_far).accepted_so_far()
                }
            },
    {
        if so_far.reached(self.max_request_records) {
            return Err(Rejection::TooManyRecords);
        }
        match incoming.convert() {
            Err(_) => self.reject_line(so_far),
            Ok(record) => {
                match self.enqueue(record) {
                    Ok(()) => {
                        *so_far = IngestSummary {
                            accepted: so_far.accepted + 1,
                            parse_errors: so_far.parse_errors,
                        };
                        Ok(())
                    },
                    Err(e) => Err(e),
                }
            },
        }
    }
}

} // verus!
