//! The deduplication key of a record: the BLAKE3 hash of a fixed byte layout
//! of its fields, in lowercase hexadecimal.

use vstd::prelude::*;
use vstd::bytes::{
    spec_u128_to_le_bytes, spec_u32_to_le_bytes, spec_u64_to_le_bytes, u128_to_le_bytes,
    u32_to_le_bytes, u64_to_le_bytes,
};
use vstd::utf8::encode_utf8;
use crate::record::{
    GenerationOutput, GenerationSample, MeterReading, MeterUsage, Number, Quantity,
};

verus! {

/// Trusted: declares `blake3::Hasher`, the incremental hash state, as a type
/// whose inside is not looked at.
#[verifier::external_type_specification]
#[verifier::external_body]
pub struct ExHasher(blake3::Hasher);

/// The bytes a hasher has taken in since it was made, in order.
pub uninterp spec fn absorbed(hasher: blake3::Hasher) -> Seq<u8>;

/// Whether a hasher is one of the regular hash function, made without a key,
/// a context or an input offset, and fed since then at most.
pub uninterp spec fn regular(hasher: blake3::Hasher) -> bool;

/// The BLAKE3 hash of `input`: 32 bytes.
pub uninterp spec fn blake3_digest(input: Seq<u8>) -> Seq<u8>;

/// A lowercase hexadecimal digit.
pub open spec fn is_lower_hex(c: char) -> bool {
    ('0' <= c && c <= '9') || ('a' <= c && c <= 'f')
}

/// The lowercase hexadecimal digit of a value below sixteen.
pub open spec fn hex_digit(v: int) -> char {
    if v < 10 {
        (48 + v) as u8 as char
    } else {
        (87 + v) as u8 as char
    }
}

/// Bytes written as lowercase hexadecimal, two digits a byte, the high half
/// first.
pub open spec fn lower_hex(bytes: Seq<u8>) -> Seq<char>
    decreases bytes.len(),
{
    if bytes.len() == 0 {
        Seq::empty()
    } else {
        lower_hex(bytes.drop_last()).push(hex_digit(bytes.last() as int / 16)).push(
            hex_digit(bytes.last() as int % 16),
        )
    }
}

/// The BLAKE3 hash of `input`, written as lowercase hexadecimal.
pub open spec fn blake3_hex(input: Seq<u8>) -> Seq<char> {
    lower_hex(blake3_digest(input))
}

/// Hexadecimal text has two digits for each byte, and nothing but lowercase
/// hexadecimal digits.
pub proof fn lower_hex_is_hex(bytes: Seq<u8>)
    ensures
        lower_hex(bytes).len() == 2 * bytes.len(),
        forall|i: int|
            0 <= i < lower_hex(bytes).len() ==> is_lower_hex(#[trigger] lower_hex(bytes)[i]),
    decreases bytes.len(),
{
    if bytes.len() > 0 {
        lower_hex_is_hex(bytes.drop_last());
        let high = bytes.last() as int / 16;
        let low = bytes.last() as int % 16;
        assert(is_lower_hex(hex_digit(high)));
        assert(is_lower_hex(hex_digit(low)));
    }
}

/// A fresh hasher.
///
/// Trusted: stands for `blake3::Hasher::new`, the hasher of the regular hash
/// function, which has taken in nothing yet.
#[verifier::external_body]
fn hasher_new() -> (hasher: blake3::Hasher)
    ensures
        regular(hasher),
        absorbed(hasher) == Seq::<u8>::empty(),
{
    blake3::Hasher::new()
}

/// Feeds `input` to a regular hasher.
///
/// Trusted: stands for `blake3::Hasher::update`, which adds the input bytes
/// to the hash state and may be called any number of times. A hasher without
/// an input offset takes input of any length, and stays as it was made.
#[verifier::external_body]
fn hasher_update(hasher: &mut blake3::Hasher, input: &[u8])
    requires
        regular(*old(hasher)),
    ensures
        regular(*final(hasher)),
        absorbed(*final(hasher)) == absorbed(*old(hasher)) + input@,
{
    hasher.update(input);
}

/// The hash of what a regular hasher has taken in, as text.
///
/// Trusted: stands for `blake3::Hasher::finalize` followed by
/// `blake3::Hash::to_hex`. Of a regular hasher the hash is the BLAKE3 hash
/// of the bytes taken in: it has 32 bytes and depends on those bytes alone,
/// not on how they were split over updates. `to_hex` writes each byte as two
/// lowercase hexadecimal digits, the high half first.
#[verifier::external_body]
fn hasher_finalize_hex(hasher: &blake3::Hasher) -> (hex: String)
    requires
        regular(*hasher),
    ensures
        hex@ == lower_hex(blake3_digest(absorbed(*hasher))),
        hex@.len() == 64,
{
    hasher.finalize().to_hex().to_string()
}

/// The layout of a string: its length in bytes as four little-endian bytes,
/// then its UTF-8 bytes.
pub open spec fn str_layout(s: Seq<char>) -> Seq<u8> {
    spec_u32_to_le_bytes(encode_utf8(s).len() as u32) + encode_utf8(s)
}

/// The layout of an optional string: a presence byte, then the string if
/// there is one.
pub open spec fn opt_str_layout(s: Option<Seq<char>>) -> Seq<u8> {
    match s {
        Some(v) => seq![1u8] + str_layout(v),
        None => seq![0u8],
    }
}

/// The layout of a number: its IEEE-754 pattern as eight little-endian bytes.
pub open spec fn number_layout(q: Quantity) -> Seq<u8> {
    spec_u64_to_le_bytes(q.bits)
}

/// The layout of an optional number: a presence byte, then the number if
/// there is one.
pub open spec fn opt_number_layout(q: Option<Quantity>) -> Seq<u8> {
    match q {
        Some(v) => seq![1u8] + number_layout(v),
        None => seq![0u8],
    }
}

/// The layout of a time: nanoseconds since the epoch as sixteen little-endian
/// bytes in two's complement.
pub open spec fn ts_layout(ts: int) -> Seq<u8> {
    spec_u128_to_le_bytes(ts as i128 as u128)
}

/// The bytes that are hashed for a meter reading.
pub open spec fn meter_usage_layout(m: MeterReading) -> Seq<u8> {
    ts_layout(m.ts) + str_layout(m.meter_id) + opt_str_layout(m.premise_id) + number_layout(m.kwh)
        + opt_number_layout(m.kvarh) + opt_number_layout(m.kva_demand) + opt_str_layout(
        m.quality_flag,
    ) + opt_str_layout(m.source_system)
}

/// The bytes that are hashed for a generation sample.
pub open spec fn generation_layout(g: GenerationSample) -> Seq<u8> {
    ts_layout(g.ts) + str_layout(g.plant_id) + opt_str_layout(g.unit_id) + number_layout(g.mw)
        + opt_number_layout(g.mvar) + opt_str_layout(g.status) + opt_str_layout(g.fuel_type)
}

/// The deduplication key of a meter reading.
pub open spec fn meter_usage_event_id(m: MeterReading) -> Seq<char> {
    blake3_hex(meter_usage_layout(m))
}

/// The deduplication key of a generation sample.
pub open spec fn generation_event_id(g: GenerationSample) -> Seq<char> {
    blake3_hex(generation_layout(g))
}

fn hash_ts(hasher: &mut blake3::Hasher, ts: i128)
    requires
        regular(*old(hasher)),
    ensures
        regular(*final(hasher)),
        absorbed(*final(hasher)) == absorbed(*old(hasher)) + ts_layout(ts as int),
{
    let bytes = u128_to_le_bytes(ts as u128);
    hasher_update(hasher, bytes.as_slice());
}

fn hash_str(hasher: &mut blake3::Hasher, s: &str)
    requires
        regular(*old(hasher)),
    ensures
        regular(*final(hasher)),
        absorbed(*final(hasher)) == absorbed(*old(hasher)) + str_layout(s@),
{
    let bytes = s.as_bytes();
    let len = #[verifier::truncate] (bytes.len() as u32);
    let prefix = u32_to_le_bytes(len);
    hasher_update(hasher, prefix.as_slice());
    hasher_update(hasher, bytes);
    assert(absorbed(*hasher) =~= absorbed(*old(hasher)) + str_layout(s@));
}

fn hash_presence(hasher: &mut blake3::Hasher, present: bool)
    requires
        regular(*old(hasher)),
    ensures
        regular(*final(hasher)),
        absorbed(*final(hasher)) == absorbed(*old(hasher)) + seq![if present { 1u8 } else { 0u8 }],
{
    let mut flag: Vec<u8> = Vec::new();
    flag.push(if present { 1u8 } else { 0u8 });
    assert(flag@ =~= seq![if present { 1u8 } else { 0u8 }]);
    hasher_update(hasher, flag.as_slice());
}

fn hash_opt_str(hasher: &mut blake3::Hasher, s: &Option<String>)
    requires
        regular(*old(hasher)),
    ensures
        regular(*final(hasher)),
        absorbed(*final(hasher)) == absorbed(*old(hasher)) + opt_str_layout(
            crate::record::opt_text(*s),
        ),
{
    match s {
        Some(v) => {
            hash_presence(hasher, true);
            hash_str(hasher, v.as_str());
            assert(absorbed(*hasher) =~= absorbed(*old(hasher)) + (seq![1u8] + str_layout(v@)));
        },
        None => {
            hash_presence(hasher, false);
        },
    }
}

fn hash_f64(hasher: &mut blake3::Hasher, v: &Number)
    requires
        regular(*old(hasher)),
    ensures
        regular(*final(hasher)),
        absorbed(*final(hasher)) == absorbed(*old(hasher)) + number_layout(v@),
{
    let bytes = u64_to_le_bytes(v.to_bits());
    hasher_update(hasher, bytes.as_slice());
}

fn hash_opt_f64(hasher: &mut blake3::Hasher, v: &Option<Number>)
    requires
        regular(*old(hasher)),
    ensures
        regular(*final(hasher)),
        absorbed(*final(hasher)) == absorbed(*old(hasher)) + opt_number_layout(
            crate::record::opt_quantity(*v),
        ),
{
    match v {
        Some(x) => {
            hash_presence(hasher, true);
            hash_f64(hasher, x);
            assert(absorbed(*hasher) =~= absorbed(*old(hasher)) + (seq![1u8] + number_layout(x@)));
        },
        None => {
            hash_presence(hasher, false);
        },
    }
}

/// The deduplication key of a meter reading: 64 lowercase hexadecimal digits
/// that depend on the reading's fields alone.
pub fn event_id_meter_usage(m: &MeterUsage) -> (id: String)
    ensures
        id@ == meter_usage_event_id(m@),
        id@.len() == 64,
        forall|i: int| 0 <= i < id@.len() ==> is_lower_hex(#[trigger] id@[i]),
{
    let mut h = hasher_new();
    hash_ts(&mut h, m.ts);
    hash_str(&mut h, m.meter_id.as_str());
    hash_opt_str(&mut h, &m.premise_id);
    hash_f64(&mut h, &m.kwh);
    hash_opt_f64(&mut h, &m.kvarh);
    hash_opt_f64(&mut h, &m.kva_demand);
    hash_opt_str(&mut h, &m.quality_flag);
    hash_opt_str(&mut h, &m.source_system);
    assert(absorbed(h) =~= meter_usage_layout(m@));
    proof {
        lower_hex_is_hex(blake3_digest(meter_usage_layout(m@)));
    }
    hasher_finalize_hex(&h)
}

/// The deduplication key of a generation sample: 64 lowercase hexadecimal
/// digits that depend on the sample's fields alone.
pub fn event_id_generation(g: &GenerationOutput) -> (id: String)
    ensures
        id@ == generation_event_id(g@),
        id@.len() == 64,
        forall|i: int| 0 <= i < id@.len() ==> is_lower_hex(#[trigger] id@[i]),
{
    let mut h = hasher_new();
    hash_ts(&mut h, g.ts);
    hash_str(&mut h, g.plant_id.as_str());
    hash_opt_str(&mut h, &g.unit_id);
    hash_f64(&mut h, &g.mw);
    hash_opt_f64(&mut h, &g.mvar);
    hash_opt_str(&mut h, &g.status);
    hash_opt_str(&mut h, &g.fuel_type);
    assert(absorbed(h) =~= generation_layout(g@));
    proof {
        lower_hex_is_hex(blake3_digest(generation_layout(g@)));
    }
    hasher_finalize_hex(&h)
}

} // verus!
