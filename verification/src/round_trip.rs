//! The law of the round trip: what is written as a line is read back as it
//! was written.

use vstd::prelude::*;
use crate::decode::{
    ends_with_backslash, fields_text, line_text, pair_text, read_line, read_line_of_text,
    readable, readable_fields, readable_tags, tags_text, value_of, Line, Pair,
};
use crate::event_id::{
    blake3_digest, generation_event_id, generation_layout, is_lower_hex, lower_hex,
    lower_hex_is_hex, meter_usage_event_id, meter_usage_layout,
};
use crate::ilp::{
    decimal, escaped, field, generation_line, is_reserved, meter_usage_line, opt_field, opt_tag,
    tag,
};
use crate::record::{is_number_text, GenerationSample, MeterReading, Quantity};

verus! {

/// The text of a run of tags is the texts of its parts, one after the other.
pub proof fn tags_text_concat(a: Seq<Pair>, b: Seq<Pair>)
    ensures
        tags_text(a + b) == tags_text(a) + tags_text(b),
    decreases a.len(),
{
    if a.len() == 0 {
        assert(a + b =~= b);
        assert(tags_text(a) + tags_text(b) =~= tags_text(b));
    } else {
        tags_text_concat(a.skip(1), b);
        assert((a + b).skip(1) =~= a.skip(1) + b);
        assert((a + b)[0] == a[0]);
        assert(tags_text(a + b) =~= tags_text(a) + tags_text(b));
    }
}

/// The text of a run of fields is the texts of its parts, one after the
/// other; only the very first field goes without a comma.
pub proof fn fields_text_concat(a: Seq<Pair>, b: Seq<Pair>, first: bool)
    ensures
        fields_text(a + b, first) == fields_text(a, first) + fields_text(
            b,
            first && a.len() == 0,
        ),
    decreases a.len(),
{
    if a.len() == 0 {
        assert(a + b =~= b);
        assert(fields_text(a, first) + fields_text(b, first) =~= fields_text(b, first));
    } else {
        fields_text_concat(a.skip(1), b, false);
        assert((a + b).skip(1) =~= a.skip(1) + b);
        assert((a + b)[0] == a[0]);
        assert(fields_text(a + b, first) =~= fields_text(a, first) + fields_text(b, false));
    }
}

/// Text without reserved characters is its own escaped form.
pub proof fn escaped_plain(s: Seq<char>)
    requires
        forall|i: int| 0 <= i < s.len() ==> !is_reserved(#[trigger] s[i]),
    ensures
        escaped(s) == s,
    decreases s.len(),
{
    if s.len() > 0 {
        assert forall|i: int| 0 <= i < s.drop_last().len() implies !is_reserved(
            #[trigger] s.drop_last()[i],
        ) by {
            assert(s.drop_last()[i] == s[i]);
        }
        escaped_plain(s.drop_last());
        assert(!is_reserved(s[s.len() - 1]));
        assert(s.drop_last().push(s.last()) =~= s);
    } else {
        assert(escaped(s) =~= s);
    }
}

/// Looking a key up in two runs of pairs, one after the other, finds it in
/// the first run if it is there, else in the second.
pub proof fn value_of_concat(a: Seq<Pair>, b: Seq<Pair>, key: Seq<char>)
    ensures
        value_of(a + b, key) == match value_of(a, key) {
            Some(v) => Some(v),
            None => value_of(b, key),
        },
    decreases a.len(),
{
    if a.len() == 0 {
        assert(a + b =~= b);
    } else {
        value_of_concat(a.skip(1), b, key);
        assert((a + b).skip(1) =~= a.skip(1) + b);
        assert((a + b)[0] == a[0]);
    }
}

/// The pair of a key with its value, where there is a value.
pub open spec fn present(key: Seq<char>, value: Option<Seq<char>>) -> Seq<Pair> {
    match value {
        Some(v) => seq![(key, v)],
        None => Seq::empty(),
    }
}

/// The text of an optional number.
pub open spec fn text_of(q: Option<Quantity>) -> Option<Seq<char>> {
    match q {
        Some(v) => Some(v.text),
        None => None,
    }
}

/// The line of a meter reading, taken apart.
pub open spec fn meter_usage_parts(m: MeterReading) -> Line {
    Line {
        measurement: "meter_usage"@,
        tags: seq![("event_id"@, meter_usage_event_id(m)), ("meter_id"@, m.meter_id)] + present(
            "premise_id"@,
            m.premise_id,
        ) + present("quality_flag"@, m.quality_flag) + present("source_system"@, m.source_system),
        fields: seq![("kwh"@, m.kwh.text)] + present("kvarh"@, text_of(m.kvarh)) + present(
            "kva_demand"@,
            text_of(m.kva_demand),
        ),
        ts: m.ts,
    }
}

/// The line of a generation sample, taken apart.
pub open spec fn generation_parts(g: GenerationSample) -> Line {
    Line {
        measurement: "generation_output"@,
        tags: seq![("event_id"@, generation_event_id(g)), ("plant_id"@, g.plant_id)] + present(
            "unit_id"@,
            g.unit_id,
        ) + present("status"@, g.status) + present("fuel_type"@, g.fuel_type),
        fields: seq![("mw"@, g.mw.text)] + present("mvar"@, text_of(g.mvar)),
        ts: g.ts,
    }
}

/// Whether an optional text is absent or does not end with a backslash.
pub open spec fn opt_readable(s: Option<Seq<char>>) -> bool {
    match s {
        Some(v) => !ends_with_backslash(v),
        None => true,
    }
}

/// Whether an optional number is absent or written as number text.
pub open spec fn opt_number_text(q: Option<Quantity>) -> bool {
    match q {
        Some(v) => is_number_text(v.text),
        None => true,
    }
}

/// Whether a meter reading can be written as a line and read back: its
/// numbers are written as number text, as every `Number` is, and none of its
/// texts ends with a backslash.
pub open spec fn readable_reading(m: MeterReading) -> bool {
    &&& !ends_with_backslash(m.meter_id)
    &&& opt_readable(m.premise_id)
    &&& opt_readable(m.quality_flag)
    &&& opt_readable(m.source_system)
    &&& is_number_text(m.kwh.text)
    &&& opt_number_text(m.kvarh)
    &&& opt_number_text(m.kva_demand)
}

/// Whether a generation sample can be written as a line and read back.
pub open spec fn readable_sample(g: GenerationSample) -> bool {
    &&& !ends_with_backslash(g.plant_id)
    &&& opt_readable(g.unit_id)
    &&& opt_readable(g.status)
    &&& opt_readable(g.fuel_type)
    &&& is_number_text(g.mw.text)
    &&& opt_number_text(g.mvar)
}

proof fn tags_text_of_present(key: Seq<char>, value: Option<Seq<char>>)
    ensures
        tags_text(present(key, value)) == opt_tag(key, value),
{
    match value {
        Some(v) => {
            let one = seq![(key, v)];
            assert(one.skip(1) =~= Seq::<Pair>::empty());
            assert(tags_text(one.skip(1)) =~= Seq::<char>::empty());
            assert(tags_text(one) =~= tag(key, v));
        },
        None => {},
    }
}

proof fn fields_text_of_present(key: Seq<char>, value: Option<Quantity>)
    ensures
        fields_text(present(key, text_of(value)), false) == opt_field(key, value),
{
    match value {
        Some(q) => {
            let one = seq![(key, q.text)];
            assert(one.skip(1) =~= Seq::<Pair>::empty());
            assert(fields_text(one.skip(1), false) =~= Seq::<char>::empty());
            assert(fields_text(one, false) =~= field(false, key, q));
        },
        None => {},
    }
}

proof fn hash_text_is_readable(bytes: Seq<u8>)
    ensures
        !ends_with_backslash(lower_hex(bytes)),
{
    lower_hex_is_hex(bytes);
    let hex = lower_hex(bytes);
    if hex.len() > 0 {
        assert(is_lower_hex(hex[hex.len() - 1]));
    }
}

proof fn five_tags_text(t0: Pair, t1: Pair, t2: Seq<Pair>, t3: Seq<Pair>, t4: Seq<Pair>)
    ensures
        tags_text(seq![t0, t1] + t2 + t3 + t4) == tag(t0.0, t0.1) + tag(t1.0, t1.1) + tags_text(t2)
            + tags_text(t3) + tags_text(t4),
{
    let head = seq![t0, t1];
    assert(head + t2 + t3 + t4 =~= head + (t2 + (t3 + t4)));
    tags_text_concat(head, t2 + (t3 + t4));
    tags_text_concat(t2, t3 + t4);
    tags_text_concat(t3, t4);
    assert(tags_text(head) =~= tag(t0.0, t0.1) + tag(t1.0, t1.1)) by {
        assert(head.skip(1) =~= seq![t1]);
        assert(seq![t1].skip(1) =~= Seq::<Pair>::empty());
        assert(tags_text(Seq::<Pair>::empty()) =~= Seq::<char>::empty());
        assert(tags_text(seq![t1]) =~= tag(t1.0, t1.1));
    }
    assert(tags_text(head) + (tags_text(t2) + (tags_text(t3) + tags_text(t4))) =~= tags_text(head)
        + tags_text(t2) + tags_text(t3) + tags_text(t4));
}

proof fn three_fields_text(f0: Pair, f1: Seq<Pair>, f2: Seq<Pair>)
    ensures
        fields_text(seq![f0] + f1 + f2, true) == pair_text(true, f0) + fields_text(f1, false)
            + fields_text(f2, false),
{
    let head = seq![f0];
    assert(head + f1 + f2 =~= head + (f1 + f2));
    fields_text_concat(head, f1 + f2, true);
    fields_text_concat(f1, f2, false);
    if f1.len() == 0 {
        assert(f1 + f2 =~= f2);
        assert(fields_text(f1, false) =~= Seq::<char>::empty());
    }
    assert(fields_text(f1 + f2, false) =~= fields_text(f1, false) + fields_text(f2, false));
    assert(fields_text(head, true) =~= pair_text(true, f0)) by {
        assert(head.skip(1) =~= Seq::<Pair>::empty());
        assert(fields_text(Seq::<Pair>::empty(), false) =~= Seq::<char>::empty());
    }
    assert(pair_text(true, f0) + (fields_text(f1, false) + fields_text(f2, false)) =~= pair_text(
        true,
        f0,
    ) + fields_text(f1, false) + fields_text(f2, false));
}

/// The line of a meter reading is the text of its parts.
pub proof fn meter_usage_line_of_parts(m: MeterReading)
    ensures
        meter_usage_line(m) == line_text(meter_usage_parts(m)),
{
    let parts = meter_usage_parts(m);
    assert(escaped(parts.measurement) == "meter_usage"@) by {
        reveal_strlit("meter_usage");
        escaped_plain("meter_usage"@);
    }
    assert(tags_text(parts.tags) == tag("event_id"@, meter_usage_event_id(m)) + tag(
        "meter_id"@,
        m.meter_id,
    ) + opt_tag("premise_id"@, m.premise_id) + opt_tag("quality_flag"@, m.quality_flag) + opt_tag(
        "source_system"@,
        m.source_system,
    )) by {
        five_tags_text(
            ("event_id"@, meter_usage_event_id(m)),
            ("meter_id"@, m.meter_id),
            present("premise_id"@, m.premise_id),
            present("quality_flag"@, m.quality_flag),
            present("source_system"@, m.source_system),
        );
        tags_text_of_present("premise_id"@, m.premise_id);
        tags_text_of_present("quality_flag"@, m.quality_flag);
        tags_text_of_present("source_system"@, m.source_system);
    }
    assert(fields_text(parts.fields, true) == field(true, "kwh"@, m.kwh) + opt_field(
        "kvarh"@,
        m.kvarh,
    ) + opt_field("kva_demand"@, m.kva_demand)) by {
        three_fields_text(
            ("kwh"@, m.kwh.text),
            present("kvarh"@, text_of(m.kvarh)),
            present("kva_demand"@, text_of(m.kva_demand)),
        );
        fields_text_of_present("kvarh"@, m.kvarh);
        fields_text_of_present("kva_demand"@, m.kva_demand);
        assert(seq![("kwh"@, m.kwh.text)] + present("kvarh"@, text_of(m.kvarh)) + present(
            "kva_demand"@,
            text_of(m.kva_demand),
        ) == parts.fields);
    }
    assemble_line(
        "meter_usage"@,
        tag("event_id"@, meter_usage_event_id(m)),
        tag("meter_id"@, m.meter_id),
        opt_tag("premise_id"@, m.premise_id),
        opt_tag("quality_flag"@, m.quality_flag),
        opt_tag("source_system"@, m.source_system),
        field(true, "kwh"@, m.kwh),
        opt_field("kvarh"@, m.kvarh),
        opt_field("kva_demand"@, m.kva_demand),
        decimal(m.ts),
    );
}

proof fn assemble_line(
    m0: Seq<char>,
    a: Seq<char>,
    b: Seq<char>,
    c: Seq<char>,
    d: Seq<char>,
    e: Seq<char>,
    f0: Seq<char>,
    f1: Seq<char>,
    f2: Seq<char>,
    ts: Seq<char>,
)
    ensures
        m0 + a + b + c + d + e + seq![' '] + f0 + f1 + f2 + seq![' '] + ts == m0 + (a + b + c + d
            + e) + seq![' '] + (f0 + f1 + f2) + seq![' '] + ts,
{
    assert(m0 + a + b + c + d + e + seq![' '] + f0 + f1 + f2 + seq![' '] + ts =~= m0 + (a + b + c
        + d + e) + seq![' '] + (f0 + f1 + f2) + seq![' '] + ts);
}

/// The line of a generation sample is the text of its parts.
pub proof fn generation_line_of_parts(g: GenerationSample)
    ensures
        generation_line(g) == line_text(generation_parts(g)),
{
    let parts = generation_parts(g);
    assert(escaped(parts.measurement) == "generation_output"@) by {
        reveal_strlit("generation_output");
        escaped_plain("generation_output"@);
    }
    assert(tags_text(parts.tags) == tag("event_id"@, generation_event_id(g)) + tag(
        "plant_id"@,
        g.plant_id,
    ) + opt_tag("unit_id"@, g.unit_id) + opt_tag("status"@, g.status) + opt_tag(
        "fuel_type"@,
        g.fuel_type,
    )) by {
        five_tags_text(
            ("event_id"@, generation_event_id(g)),
            ("plant_id"@, g.plant_id),
            present("unit_id"@, g.unit_id),
            present("status"@, g.status),
            present("fuel_type"@, g.fuel_type),
        );
        tags_text_of_present("unit_id"@, g.unit_id);
        tags_text_of_present("status"@, g.status);
        tags_text_of_present("fuel_type"@, g.fuel_type);
    }
    assert(fields_text(parts.fields, true) == field(true, "mw"@, g.mw) + opt_field(
        "mvar"@,
        g.mvar,
    ) + Seq::<char>::empty()) by {
        three_fields_text(
            ("mw"@, g.mw.text),
            present("mvar"@, text_of(g.mvar)),
            Seq::<Pair>::empty(),
        );
        fields_text_of_present("mvar"@, g.mvar);
        assert(seq![("mw"@, g.mw.text)] + present("mvar"@, text_of(g.mvar)) + Seq::<Pair>::empty()
            =~= parts.fields);
    }
    assemble_line(
        "generation_output"@,
        tag("event_id"@, generation_event_id(g)),
        tag("plant_id"@, g.plant_id),
        opt_tag("unit_id"@, g.unit_id),
        opt_tag("status"@, g.status),
        opt_tag("fuel_type"@, g.fuel_type),
        field(true, "mw"@, g.mw),
        opt_field("mvar"@, g.mvar),
        Seq::<char>::empty(),
        decimal(g.ts),
    );
    assert(field(true, "mw"@, g.mw) + opt_field("mvar"@, g.mvar) + Seq::<char>::empty() =~= field(
        true,
        "mw"@,
        g.mw,
    ) + opt_field("mvar"@, g.mvar));
}

/// What a line of a meter reading says, field by field. The numbers are
/// given by their text.
pub struct DecodedMeterUsage {
    pub ts: int,
    pub event_id: Option<Seq<char>>,
    pub meter_id: Option<Seq<char>>,
    pub premise_id: Option<Seq<char>>,
    pub quality_flag: Option<Seq<char>>,
    pub source_system: Option<Seq<char>>,
    pub kwh: Option<Seq<char>>,
    pub kvarh: Option<Seq<char>>,
    pub kva_demand: Option<Seq<char>>,
}

/// What a line of a generation sample says, field by field. The numbers are
/// given by their text.
pub struct DecodedGenerationOutput {
    pub ts: int,
    pub event_id: Option<Seq<char>>,
    pub plant_id: Option<Seq<char>>,
    pub unit_id: Option<Seq<char>>,
    pub status: Option<Seq<char>>,
    pub fuel_type: Option<Seq<char>>,
    pub mw: Option<Seq<char>>,
    pub mvar: Option<Seq<char>>,
}

/// Reads a line of a meter reading: the tags and fields are found by their
/// keys.
pub open spec fn decode_meter_usage(text: Seq<char>) -> DecodedMeterUsage {
    let line = read_line(text);
    DecodedMeterUsage {
        ts: line.ts,
        event_id: value_of(line.tags, "event_id"@),
        meter_id: value_of(line.tags, "meter_id"@),
        premise_id: value_of(line.tags, "premise_id"@),
        quality_flag: value_of(line.tags, "quality_flag"@),
        source_system: value_of(line.tags, "source_system"@),
        kwh: value_of(line.fields, "kwh"@),
        kvarh: value_of(line.fields, "kvarh"@),
        kva_demand: value_of(line.fields, "kva_demand"@),
    }
}

/// Reads a line of a generation sample: the tags and fields are found by
/// their keys.
pub open spec fn decode_generation_output(text: Seq<char>) -> DecodedGenerationOutput {
    let line = read_line(text);
    DecodedGenerationOutput {
        ts: line.ts,
        event_id: value_of(line.tags, "event_id"@),
        plant_id: value_of(line.tags, "plant_id"@),
        unit_id: value_of(line.tags, "unit_id"@),
        status: value_of(line.tags, "status"@),
        fuel_type: value_of(line.tags, "fuel_type"@),
        mw: value_of(line.fields, "mw"@),
        mvar: value_of(line.fields, "mvar"@),
    }
}

proof fn value_of_present(key: Seq<char>, value: Option<Seq<char>>, wanted: Seq<char>)
    ensures
        value_of(present(key, value), wanted) == if key == wanted {
            value
        } else {
            None
        },
{
    match value {
        Some(v) => {
            let one = seq![(key, v)];
            assert(one.len() == 1 && one[0] == (key, v));
            assert(one.skip(1) =~= Seq::<Pair>::empty());
            assert(value_of(one.skip(1), wanted) is None);
        },
        None => {},
    }
}

proof fn value_of_five(
    k0: Seq<char>,
    v0: Seq<char>,
    k1: Seq<char>,
    v1: Seq<char>,
    k2: Seq<char>,
    v2: Option<Seq<char>>,
    k3: Seq<char>,
    v3: Option<Seq<char>>,
    k4: Seq<char>,
    v4: Option<Seq<char>>,
    wanted: Seq<char>,
)
    ensures
        value_of(
            seq![(k0, v0), (k1, v1)] + present(k2, v2) + present(k3, v3) + present(k4, v4),
            wanted,
        ) == if wanted == k0 {
            Some(v0)
        } else if wanted == k1 {
            Some(v1)
        } else if wanted == k2 && v2 is Some {
            v2
        } else if wanted == k3 && v3 is Some {
            v3
        } else if wanted == k4 {
            v4
        } else {
            None
        },
{
    let head = seq![(k0, v0), (k1, v1)];
    let t2 = present(k2, v2);
    let t3 = present(k3, v3);
    let t4 = present(k4, v4);
    assert(head + t2 + t3 + t4 =~= head + (t2 + (t3 + t4)));
    value_of_concat(head, t2 + (t3 + t4), wanted);
    value_of_concat(t2, t3 + t4, wanted);
    value_of_concat(t3, t4, wanted);
    value_of_present(k2, v2, wanted);
    value_of_present(k3, v3, wanted);
    value_of_present(k4, v4, wanted);
    assert(head.skip(1) =~= seq![(k1, v1)]);
    assert(seq![(k1, v1)].skip(1) =~= Seq::<Pair>::empty());
    assert(value_of(Seq::<Pair>::empty(), wanted) is None);
    assert(value_of(seq![(k1, v1)], wanted) == if wanted == k1 {
        Some(v1)
    } else {
        None
    });
}

proof fn value_of_three(
    k0: Seq<char>,
    v0: Seq<char>,
    k1: Seq<char>,
    v1: Option<Seq<char>>,
    k2: Seq<char>,
    v2: Option<Seq<char>>,
    wanted: Seq<char>,
)
    ensures
        value_of(seq![(k0, v0)] + present(k1, v1) + present(k2, v2), wanted) == if wanted == k0 {
            Some(v0)
        } else if wanted == k1 && v1 is Some {
            v1
        } else if wanted == k2 {
            v2
        } else {
            None
        },
{
    let head = seq![(k0, v0)];
    let t1 = present(k1, v1);
    let t2 = present(k2, v2);
    assert(head + t1 + t2 =~= head + (t1 + t2));
    value_of_concat(head, t1 + t2, wanted);
    value_of_concat(t1, t2, wanted);
    value_of_present(k1, v1, wanted);
    value_of_present(k2, v2, wanted);
    assert(head.skip(1) =~= Seq::<Pair>::empty());
    assert(value_of(Seq::<Pair>::empty(), wanted) is None);
}

proof fn readable_present(key: Seq<char>, value: Option<Seq<char>>)
    requires
        !ends_with_backslash(key),
        opt_readable(value),
    ensures
        readable_tags(present(key, value)),
{
}

proof fn readable_tags_concat(a: Seq<Pair>, b: Seq<Pair>)
    requires
        readable_tags(a),
        readable_tags(b),
    ensures
        readable_tags(a + b),
{
    assert forall|i: int| 0 <= i < (a + b).len() implies !ends_with_backslash(
        (#[trigger] (a + b)[i]).0,
    ) && !ends_with_backslash((a + b)[i].1) by {
        if i < a.len() {
            assert((a + b)[i] == a[i]);
        } else {
            assert((a + b)[i] == b[i - a.len()]);
        }
    }
}

proof fn readable_number_present(key: Seq<char>, value: Option<Quantity>)
    requires
        !ends_with_backslash(key),
        opt_number_text(value),
    ensures
        readable_fields(present(key, text_of(value))),
{
}

proof fn readable_fields_concat(a: Seq<Pair>, b: Seq<Pair>)
    requires
        readable_fields(a),
        readable_fields(b),
    ensures
        readable_fields(a + b),
{
    assert forall|i: int| 0 <= i < (a + b).len() implies !ends_with_backslash(
        (#[trigger] (a + b)[i]).0,
    ) && is_number_text((a + b)[i].1) by {
        if i < a.len() {
            assert((a + b)[i] == a[i]);
        } else {
            assert((a + b)[i] == b[i - a.len()]);
        }
    }
}

proof fn meter_usage_keys()
    ensures
        !ends_with_backslash("meter_usage"@),
        !ends_with_backslash("event_id"@),
        !ends_with_backslash("meter_id"@),
        !ends_with_backslash("premise_id"@),
        !ends_with_backslash("quality_flag"@),
        !ends_with_backslash("source_system"@),
        !ends_with_backslash("kwh"@),
        !ends_with_backslash("kvarh"@),
        !ends_with_backslash("kva_demand"@),
        "event_id"@ != "meter_id"@,
        "event_id"@.len() == 8,
        "meter_id"@.len() == 8,
        "premise_id"@.len() == 10,
        "quality_flag"@.len() == 12,
        "source_system"@.len() == 13,
        "kwh"@.len() == 3,
        "kvarh"@.len() == 5,
        "kva_demand"@.len() == 10,
{
    reveal_strlit("meter_usage");
    reveal_strlit("event_id");
    reveal_strlit("meter_id");
    reveal_strlit("premise_id");
    reveal_strlit("quality_flag");
    reveal_strlit("source_system");
    reveal_strlit("kwh");
    reveal_strlit("kvarh");
    reveal_strlit("kva_demand");
    assert("event_id"@[0] != "meter_id"@[0]);
}

proof fn generation_keys()
    ensures
        !ends_with_backslash("generation_output"@),
        !ends_with_backslash("event_id"@),
        !ends_with_backslash("plant_id"@),
        !ends_with_backslash("unit_id"@),
        !ends_with_backslash("status"@),
        !ends_with_backslash("fuel_type"@),
        !ends_with_backslash("mw"@),
        !ends_with_backslash("mvar"@),
        "event_id"@ != "plant_id"@,
        "event_id"@.len() == 8,
        "plant_id"@.len() == 8,
        "unit_id"@.len() == 7,
        "status"@.len() == 6,
        "fuel_type"@.len() == 9,
        "mw"@.len() == 2,
        "mvar"@.len() == 4,
{
    reveal_strlit("generation_output");
    reveal_strlit("event_id");
    reveal_strlit("plant_id");
    reveal_strlit("unit_id");
    reveal_strlit("status");
    reveal_strlit("fuel_type");
    reveal_strlit("mw");
    reveal_strlit("mvar");
    assert("event_id"@[0] != "plant_id"@[0]);
}

/// Reading back the line of a meter reading gives the reading's time, its
/// deduplication key, its texts, and its numbers as they were written,
/// absent ones as absent. This holds of every reading none of whose texts
/// ends with a backslash.
pub proof fn decode_encode_meter_usage(m: MeterReading)
    requires
        readable_reading(m),
    ensures
        decode_meter_usage(meter_usage_line(m)) == (DecodedMeterUsage {
            ts: m.ts,
            event_id: Some(meter_usage_event_id(m)),
            meter_id: Some(m.meter_id),
            premise_id: m.premise_id,
            quality_flag: m.quality_flag,
            source_system: m.source_system,
            kwh: Some(m.kwh.text),
            kvarh: text_of(m.kvarh),
            kva_demand: text_of(m.kva_demand),
        }),
{
    let parts = meter_usage_parts(m);
    let id = meter_usage_event_id(m);
    meter_usage_keys();
    hash_text_is_readable(blake3_digest(meter_usage_layout(m)));
    assert(readable(parts)) by {
        let head = seq![("event_id"@, id), ("meter_id"@, m.meter_id)];
        assert(readable_tags(head));
        readable_present("premise_id"@, m.premise_id);
        readable_present("quality_flag"@, m.quality_flag);
        readable_present("source_system"@, m.source_system);
        readable_tags_concat(head, present("premise_id"@, m.premise_id));
        readable_tags_concat(
            head + present("premise_id"@, m.premise_id),
            present("quality_flag"@, m.quality_flag),
        );
        readable_tags_concat(
            head + present("premise_id"@, m.premise_id) + present("quality_flag"@, m.quality_flag),
            present("source_system"@, m.source_system),
        );
        let first = seq![("kwh"@, m.kwh.text)];
        assert(readable_fields(first));
        readable_number_present("kvarh"@, m.kvarh);
        readable_number_present("kva_demand"@, m.kva_demand);
        readable_fields_concat(first, present("kvarh"@, text_of(m.kvarh)));
        readable_fields_concat(
            first + present("kvarh"@, text_of(m.kvarh)),
            present("kva_demand"@, text_of(m.kva_demand)),
        );
    }
    meter_usage_line_of_parts(m);
    read_line_of_text(parts);
    assert(read_line(meter_usage_line(m)) == parts);
    value_of_five(
        "event_id"@,
        id,
        "meter_id"@,
        m.meter_id,
        "premise_id"@,
        m.premise_id,
        "quality_flag"@,
        m.quality_flag,
        "source_system"@,
        m.source_system,
        "event_id"@,
    );
    value_of_five(
        "event_id"@,
        id,
        "meter_id"@,
        m.meter_id,
        "premise_id"@,
        m.premise_id,
        "quality_flag"@,
        m.quality_flag,
        "source_system"@,
        m.source_system,
        "meter_id"@,
    );
    value_of_five(
        "event_id"@,
        id,
        "meter_id"@,
        m.meter_id,
        "premise_id"@,
        m.premise_id,
        "quality_flag"@,
        m.quality_flag,
        "source_system"@,
        m.source_system,
        "premise_id"@,
    );
    value_of_five(
        "event_id"@,
        id,
        "meter_id"@,
        m.meter_id,
        "premise_id"@,
        m.premise_id,
        "quality_flag"@,
        m.quality_flag,
        "source_system"@,
        m.source_system,
        "quality_flag"@,
    );
    value_of_five(
        "event_id"@,
        id,
        "meter_id"@,
        m.meter_id,
        "premise_id"@,
        m.premise_id,
        "quality_flag"@,
        m.quality_flag,
        "source_system"@,
        m.source_system,
        "source_system"@,
    );
    value_of_three(
        "kwh"@,
        m.kwh.text,
        "kvarh"@,
        text_of(m.kvarh),
        "kva_demand"@,
        text_of(m.kva_demand),
        "kwh"@,
    );
    value_of_three(
        "kwh"@,
        m.kwh.text,
        "kvarh"@,
        text_of(m.kvarh),
        "kva_demand"@,
        text_of(m.kva_demand),
        "kvarh"@,
    );
    value_of_three(
        "kwh"@,
        m.kwh.text,
        "kvarh"@,
        text_of(m.kvarh),
        "kva_demand"@,
        text_of(m.kva_demand),
        "kva_demand"@,
    );
}

/// Reading back the line of a generation sample gives the sample's time,
/// its deduplication key, its texts, and its numbers as they were written,
/// absent ones as absent. This holds of every sample none of whose texts
/// ends with a backslash.
pub proof fn decode_encode_generation_output(g: GenerationSample)
    requires
        readable_sample(g),
    ensures
        decode_generation_output(generation_line(g)) == (DecodedGenerationOutput {
            ts: g.ts,
            event_id: Some(generation_event_id(g)),
            plant_id: Some(g.plant_id),
            unit_id: g.unit_id,
            status: g.status,
            fuel_type: g.fuel_type,
            mw: Some(g.mw.text),
            mvar: text_of(g.mvar),
        }),
{
    let parts = generation_parts(g);
    let id = generation_event_id(g);
    generation_keys();
    hash_text_is_readable(blake3_digest(generation_layout(g)));
    assert(readable(parts)) by {
        let head = seq![("event_id"@, id), ("plant_id"@, g.plant_id)];
        assert(readable_tags(head));
        readable_present("unit_id"@, g.unit_id);
        readable_present("status"@, g.status);
        readable_present("fuel_type"@, g.fuel_type);
        readable_tags_concat(head, present("unit_id"@, g.unit_id));
        readable_tags_concat(head + present("unit_id"@, g.unit_id), present("status"@, g.status));
        readable_tags_concat(
            head + present("unit_id"@, g.unit_id) + present("status"@, g.status),
            present("fuel_type"@, g.fuel_type),
        );
        let first = seq![("mw"@, g.mw.text)];
        assert(readable_fields(first));
        readable_number_present("mvar"@, g.mvar);
        readable_fields_concat(first, present("mvar"@, text_of(g.mvar)));
    }
    generation_line_of_parts(g);
    read_line_of_text(parts);
    assert(read_line(generation_line(g)) == parts);
    value_of_five(
        "event_id"@,
        id,
        "plant_id"@,
        g.plant_id,
        "unit_id"@,
        g.unit_id,
        "status"@,
        g.status,
        "fuel_type"@,
        g.fuel_type,
        "event_id"@,
    );
    value_of_five(
        "event_id"@,
        id,
        "plant_id"@,
        g.plant_id,
        "unit_id"@,
        g.unit_id,
        "status"@,
        g.status,
        "fuel_type"@,
        g.fuel_type,
        "plant_id"@,
    );
    value_of_five(
        "event_id"@,
        id,
        "plant_id"@,
        g.plant_id,
        "unit_id"@,
        g.unit_id,
        "status"@,
        g.status,
        "fuel_type"@,
        g.fuel_type,
        "unit_id"@,
    );
    value_of_five(
        "event_id"@,
        id,
        "plant_id"@,
        g.plant_id,
        "unit_id"@,
        g.unit_id,
        "status"@,
        g.status,
        "fuel_type"@,
        g.fuel_type,
        "status"@,
    );
    value_of_five(
        "event_id"@,
        id,
        "plant_id"@,
        g.plant_id,
        "unit_id"@,
        g.unit_id,
        "status"@,
        g.status,
        "fuel_type"@,
        g.fuel_type,
        "fuel_type"@,
    );
    let none: Option<Seq<char>> = None;
    assert(parts.fields =~= seq![("mw"@, g.mw.text)] + present("mvar"@, text_of(g.mvar)) + present(
        "mvar"@,
        none,
    ));
    value_of_three(
        "mw"@,
        g.mw.text,
        "mvar"@,
        text_of(g.mvar),
        "mvar"@,
        none,
        "mw"@,
    );
    value_of_three(
        "mw"@,
        g.mw.text,
        "mvar"@,
        text_of(g.mvar),
        "mvar"@,
        none,
        "mvar"@,
    );
}

} // verus!
