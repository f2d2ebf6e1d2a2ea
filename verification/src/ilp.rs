//! Influx Line Protocol text: escaping, tags, fields and whole lines.

use vstd::prelude::*;
use vstd::string::StrSliceExecFns;
use vstd::utf8::encode_utf8;
use crate::event_id::{
    event_id_generation, event_id_meter_usage, generation_event_id, meter_usage_event_id,
};
use crate::pipeline::Envelope;
use crate::record::{
    GenerationOutput, GenerationSample, MeterReading, MeterUsage, Number, Quantity,
};
use crate::text::{push_char, push_text};

verus! {

/// The characters that the line protocol reserves inside identifiers.
pub open spec fn is_reserved(c: char) -> bool {
    c == ',' || c == ' ' || c == '='
}

/// The escaped form of an identifier: every reserved character is preceded
/// by a backslash, every other character stands for itself.
pub open spec fn escaped(s: Seq<char>) -> Seq<char>
    decreases s.len(),
{
    if s.len() == 0 {
        Seq::empty()
    } else if is_reserved(s.last()) {
        escaped(s.drop_last()).push('\\').push(s.last())
    } else {
        escaped(s.drop_last()).push(s.last())
    }
}

/// Appends the escaped form of `s` to `out`.
pub fn ilp_escape_ident(s: &str, out: &mut String)
    ensures
        final(out)@ == old(out)@ + escaped(s@),
{
    let ghost start = out@;
    for ch in it: s.chars()
        invariant
            it.seq() == s@,
            out@ == start + escaped(s@.take(it.index() as int)),
    {
        proof {
            let before = s@.take(it.index() as int);
            let after = s@.take(it.index() + 1);
            assert(after.drop_last() =~= before);
            assert(after.last() == ch);
        }
        if ch == ',' || ch == ' ' || ch == '=' {
            push_char(out, '\\');
            push_char(out, ch);
        } else {
            push_char(out, ch);
        }
        assert(out@ =~= start + escaped(s@.take(it.index() + 1)));
    }
    assert(s@.take(s@.len() as int) =~= s@);
}

/// One tag: a comma, the escaped key, an equals sign, the escaped value.
pub open spec fn tag(key: Seq<char>, value: Seq<char>) -> Seq<char> {
    seq![','] + escaped(key) + seq!['='] + escaped(value)
}

/// An optional tag: nothing at all when the value is absent.
pub open spec fn opt_tag(key: Seq<char>, value: Option<Seq<char>>) -> Seq<char> {
    match value {
        Some(v) => tag(key, v),
        None => Seq::empty(),
    }
}

/// One field: the escaped key, an equals sign and the number's decimal text,
/// after a comma unless it is the first field of the line.
pub open spec fn field(first: bool, key: Seq<char>, value: Quantity) -> Seq<char> {
    (if first {
        Seq::<char>::empty()
    } else {
        seq![',']
    }) + escaped(key) + seq!['='] + value.text
}

/// An optional field after the first: nothing at all when the value is
/// absent.
pub open spec fn opt_field(key: Seq<char>, value: Option<Quantity>) -> Seq<char> {
    match value {
        Some(v) => field(false, key, v),
        None => Seq::empty(),
    }
}

/// The character of one decimal digit.
pub open spec fn digit_char(d: int) -> char {
    (48 + d) as u8 as char
}

/// The decimal digits of a natural number, without leading zeros.
pub open spec fn digits(n: nat) -> Seq<char>
    decreases n,
{
    if n < 10 {
        seq![digit_char(n as int)]
    } else {
        digits(n / 10).push(digit_char((n % 10) as int))
    }
}

/// The decimal text of a signed integer: a minus sign for a negative one,
/// then its digits.
pub open spec fn decimal(n: int) -> Seq<char> {
    if n < 0 {
        seq!['-'] + digits((-n) as nat)
    } else {
        digits(n as nat)
    }
}

/// Appends one tag to `out`.
pub fn push_tag(out: &mut String, key: &str, value: &str)
    ensures
        final(out)@ == old(out)@ + tag(key@, value@),
{
    push_char(out, ',');
    ilp_escape_ident(key, out);
    push_char(out, '=');
    ilp_escape_ident(value, out);
    assert(out@ =~= old(out)@ + tag(key@, value@));
}

/// Appends one numeric field to `out`, after a comma unless `first` says
/// that none was written yet; `first` is cleared.
pub fn push_field_f64(out: &mut String, first: &mut bool, key: &str, value: &Number)
    ensures
        final(out)@ == old(out)@ + field(*old(first), key@, value@),
        !*final(first),
{
    if *first {
        *first = false;
    } else {
        push_char(out, ',');
    }
    ilp_escape_ident(key, out);
    push_char(out, '=');
    push_text(out, value.as_text());
    assert(out@ =~= old(out)@ + field(*old(first), key@, value@));
}

/// Appends the decimal text of `n` to `out`.
pub fn push_decimal(out: &mut String, n: i128)
    ensures
        final(out)@ == old(out)@ + decimal(n as int),
{
    let mut mag: u128 = if n < 0 {
        push_char(out, '-');
        ((-(n + 1)) as u128) + 1
    } else {
        n as u128
    };
    let ghost start = out@;
    let ghost whole = mag as nat;
    let mut rev: Vec<char> = Vec::new();
    while mag >= 10
        invariant
            digits(whole) =~= digits(mag as nat) + rev@.reverse(),
        decreases mag,
    {
        let d = (mag % 10) as u8;
        let c = (48u8 + d) as char;
        proof {
            let more = rev@.push(c);
            assert(more.reverse() =~= seq![c] + rev@.reverse());
            assert(digits(mag as nat) =~= digits((mag / 10) as nat) + seq![c]);
        }
        rev.push(c);
        mag = mag / 10;
    }
    let last = (48u8 + (mag as u8)) as char;
    push_char(out, last);
    let mut i: usize = rev.len();
    while i > 0
        invariant
            0 <= i <= rev.len(),
            out@ =~= start + seq![last] + rev@.reverse().take(rev.len() - i),
        decreases i,
    {
        i = i - 1;
        push_char(out, rev[i]);
        proof {
            let r = rev@.reverse();
            let k = rev.len() - i - 1;
            assert(r.take(k + 1) =~= r.take(k).push(r[k]));
            assert(r[k] == rev@[i as int]);
        }
    }
    proof {
        let r = rev@.reverse();
        assert(r.take(rev.len() as int) =~= r);
        assert(digits(mag as nat) =~= seq![last]);
        assert(out@ =~= start + digits(whole));
    }
}

/// The line of a meter reading, without the newline that ends it.
pub open spec fn meter_usage_line(m: MeterReading) -> Seq<char> {
    "meter_usage"@ + tag("event_id"@, meter_usage_event_id(m)) + tag("meter_id"@, m.meter_id)
        + opt_tag("premise_id"@, m.premise_id) + opt_tag("quality_flag"@, m.quality_flag)
        + opt_tag("source_system"@, m.source_system) + seq![' '] + field(true, "kwh"@, m.kwh)
        + opt_field("kvarh"@, m.kvarh) + opt_field("kva_demand"@, m.kva_demand) + seq![' ']
        + decimal(m.ts)
}

/// The line of a generation sample, without the newline that ends it.
pub open spec fn generation_line(g: GenerationSample) -> Seq<char> {
    "generation_output"@ + tag("event_id"@, generation_event_id(g)) + tag("plant_id"@, g.plant_id)
        + opt_tag("unit_id"@, g.unit_id) + opt_tag("status"@, g.status) + opt_tag(
        "fuel_type"@,
        g.fuel_type,
    ) + seq![' '] + field(true, "mw"@, g.mw) + opt_field("mvar"@, g.mvar) + seq![' '] + decimal(
        g.ts,
    )
}

fn push_opt_tag(out: &mut String, key: &str, value: &Option<String>)
    ensures
        final(out)@ == old(out)@ + opt_tag(key@, crate::record::opt_text(*value)),
{
    match value {
        Some(v) => {
            push_tag(out, key, v.as_str());
        },
        None => {
            assert(out@ =~= old(out)@ + Seq::<char>::empty());
        },
    }
}

fn push_opt_field(out: &mut String, key: &str, value: &Option<Number>)
    ensures
        final(out)@ == old(out)@ + opt_field(key@, crate::record::opt_quantity(*value)),
{
    match value {
        Some(v) => {
            let mut first = false;
            push_field_f64(out, &mut first, key, v);
        },
        None => {
            assert(out@ =~= old(out)@ + Seq::<char>::empty());
        },
    }
}

/// A record that can be written as one line of the protocol.
pub trait IlpEncode {
    /// The record's line, without the newline that ends it.
    spec fn line(&self) -> Seq<char>;

    /// Appends the record's line to `out`.
    fn write_ilp_line(&self, out: &mut String)
        ensures
            final(out)@ == old(out)@ + self.line(),
    ;
}

impl IlpEncode for MeterUsage {
    open spec fn line(&self) -> Seq<char> {
        meter_usage_line(self@)
    }

    fn write_ilp_line(&self, out: &mut String) {
        push_text(out, "meter_usage");
        let event_id = event_id_meter_usage(self);
        push_tag(out, "event_id", event_id.as_str());
        push_tag(out, "meter_id", self.meter_id.as_str());
        push_opt_tag(out, "premise_id", &self.premise_id);
        push_opt_tag(out, "quality_flag", &self.quality_flag);
        push_opt_tag(out, "source_system", &self.source_system);
        push_char(out, ' ');
        let mut first = true;
        push_field_f64(out, &mut first, "kwh", &self.kwh);
        push_opt_field(out, "kvarh", &self.kvarh);
        push_opt_field(out, "kva_demand", &self.kva_demand);
        push_char(out, ' ');
        push_decimal(out, self.ts);
        assert(out@ =~= old(out)@ + meter_usage_line(self@));
    }
}

impl IlpEncode for GenerationOutput {
    open spec fn line(&self) -> Seq<char> {
        generation_line(self@)
    }

    fn write_ilp_line(&self, out: &mut String) {
        push_text(out, "generation_output");
        let event_id = event_id_generation(self);
        push_tag(out, "event_id", event_id.as_str());
        push_tag(out, "plant_id", self.plant_id.as_str());
        push_opt_tag(out, "unit_id", &self.unit_id);
        push_opt_tag(out, "status", &self.status);
        push_opt_tag(out, "fuel_type", &self.fuel_type);
        push_char(out, ' ');
        let mut first = true;
        push_field_f64(out, &mut first, "mw", &self.mw);
        push_opt_field(out, "mvar", &self.mvar);
        push_char(out, ' ');
        push_decimal(out, self.ts);
        assert(out@ =~= old(out)@ + generation_line(self@));
    }
}

/// Two meter readings that hold the same values have the same deduplication
/// key and are written as the same line, however often they are encoded.
pub proof fn same_reading_same_line(a: MeterUsage, b: MeterUsage)
    requires
        a@ == b@,
    ensures
        meter_usage_event_id(a@) == meter_usage_event_id(b@),
        tag("event_id"@, meter_usage_event_id(a@)) == tag("event_id"@, meter_usage_event_id(b@)),
        a.line() == b.line(),
{
}

/// Two generation samples that hold the same values have the same
/// deduplication key and are written as the same line, however often they
/// are encoded.
pub proof fn same_sample_same_line(a: GenerationOutput, b: GenerationOutput)
    requires
        a@ == b@,
    ensures
        generation_event_id(a@) == generation_event_id(b@),
        tag("event_id"@, generation_event_id(a@)) == tag("event_id"@, generation_event_id(b@)),
        a.line() == b.line(),
{
}

/// The text of a batch: each record's line, each ended by a newline, in the
/// order of the batch.
pub open spec fn batch_text<T: IlpEncode>(batch: Seq<Envelope<T>>) -> Seq<char>
    decreases batch.len(),
{
    if batch.len() == 0 {
        Seq::empty()
    } else {
        batch_text(batch.drop_last()) + batch.last().payload.line() + seq!['\n']
    }
}

/// The text of a batch depends on the lines of its records alone: not on
/// when they were received, nor on how often the batch is sent.
pub proof fn same_lines_same_batch<T: IlpEncode>(a: Seq<Envelope<T>>, b: Seq<Envelope<T>>)
    requires
        a.len() == b.len(),
        forall|i: int| 0 <= i < a.len() ==> (#[trigger] a[i]).payload.line() == b[i].payload.line(),
    ensures
        batch_text(a) == batch_text(b),
    decreases a.len(),
{
    if a.len() > 0 {
        assert forall|i: int| 0 <= i < a.drop_last().len() implies (#[trigger] a.drop_last()[
            i
        ]).payload.line() == b.drop_last()[i].payload.line() by {
            assert(a.drop_last()[i] == a[i]);
            assert(b.drop_last()[i] == b[i]);
        }
        same_lines_same_batch(a.drop_last(), b.drop_last());
        assert(a.last() == a[a.len() - 1]);
        assert(b.last() == b[b.len() - 1]);
    }
}

/// Encodes a batch as the bytes that go on the wire.
pub fn encode_batch<T: IlpEncode>(batch: &[Envelope<T>]) -> (payload: Vec<u8>)
    ensures
        payload@ == encode_utf8(batch_text(batch@)),
{
    let mut s = String::new();
    let mut i: usize = 0;
    while i < batch.len()
        invariant
            0 <= i <= batch.len(),
            s@ == batch_text(batch@.take(i as int)),
        decreases batch.len() - i,
    {
        proof {
            assert(batch@.take(i + 1).drop_last() =~= batch@.take(i as int));
        }
        batch[i].payload.write_ilp_line(&mut s);
        push_char(&mut s, '\n');
        i = i + 1;
    }
    assert(batch@.take(batch.len() as int) =~= batch@);
    s.as_str().as_bytes_vec()
}

} // verus!
