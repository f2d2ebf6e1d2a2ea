//! The record model: meter readings, generation samples and the numbers they
//! carry.

use vstd::prelude::*;

verus! {

/// Nanoseconds since 1970-01-01T00:00:00Z.
pub type UnixNanos = i128;

/// A character that can occur in the decimal text of a double: a digit, a
/// sign, a decimal point, an exponent mark, or a letter of `NaN` and `inf`.
pub open spec fn is_number_char(c: char) -> bool {
    ('0' <= c && c <= '9') || c == '.' || c == '-' || c == '+' || c == 'e' || c == 'E' || c == 'N'
        || c == 'a' || c == 'i' || c == 'n' || c == 'f'
}

/// Text that can stand for a number on a line: not empty, number characters
/// only.
pub open spec fn is_number_text(s: Seq<char>) -> bool {
    s.len() > 0 && forall|i: int| 0 <= i < s.len() ==> is_number_char(#[trigger] s[i])
}

/// The pattern of a double that is finite and not below zero. The patterns
/// below `0x7ff0_0000_0000_0000` are the finite doubles with a clear sign bit
/// in ascending order; `0x8000_0000_0000_0000` is negative zero, which
/// compares equal to zero.
pub open spec fn is_finite_non_negative(bits: u64) -> bool {
    bits < 0x7ff0_0000_0000_0000 || bits == 0x8000_0000_0000_0000
}

/// What a [`Number`] stands for: the IEEE-754 pattern of a double and the
/// decimal text it is written with.
pub struct Quantity {
    pub bits: u64,
    pub text: Seq<char>,
}

/// A double-precision measurement, held as its IEEE-754 bit pattern together
/// with its shortest decimal text. The pattern is what the number is
/// compared and hashed by, the text is what it is written with. The two are
/// given together by whoever makes the number; that the text is the text of
/// the pattern is taken on trust, only its characters are looked at.
#[derive(Debug)]
pub struct Number {
    bits: u64,
    text: String,
}

impl View for Number {
    type V = Quantity;

    closed spec fn view(&self) -> Quantity {
        Quantity { bits: self.bits, text: self.text@ }
    }
}

impl Clone for Number {
    fn clone(&self) -> (copy: Number)
        ensures
            copy@ == self@,
    {
        proof {
            use_type_invariant(self);
        }
        Number { bits: self.bits, text: self.text.clone() }
    }
}

impl Number {
    #[verifier::type_invariant]
    spec fn well_formed(self) -> bool {
        is_number_text(self.text@)
    }

    /// Pairs a bit pattern with its decimal text. The text is refused when it
    /// is empty or holds a character that no number is written with.
    pub fn new(bits: u64, text: String) -> (made: Option<Number>)
        ensures
            made is Some <==> is_number_text(text@),
            made matches Some(n) ==> n@ == (Quantity { bits, text: text@ }),
    {
        if text.as_str().is_empty() {
            return None;
        }
        let ghost s = text@;
        for c in it: text.as_str().chars()
            invariant
                it.seq() == s,
                s == text@,
                forall|i: int| 0 <= i < it.index() ==> is_number_char(#[trigger] s[i]),
        {
            let ok = ('0' <= c && c <= '9') || c == '.' || c == '-' || c == '+' || c == 'e' || c
                == 'E' || c == 'N' || c == 'a' || c == 'i' || c == 'n' || c == 'f';
            if !ok {
                assert(!is_number_char(s[it.index() as int]));
                return None;
            }
        }
        Some(Number { bits, text })
    }

    /// The IEEE-754 bit pattern.
    pub fn to_bits(&self) -> (bits: u64)
        ensures
            bits == self@.bits,
    {
        self.bits
    }

    /// The decimal text.
    pub fn as_text(&self) -> (text: &str)
        ensures
            text@ == self@.text,
            is_number_text(text@),
    {
        proof {
            use_type_invariant(self);
        }
        self.text.as_str()
    }

    /// Whether the number is finite and not below zero.
    pub fn is_finite_non_negative(&self) -> (yes: bool)
        ensures
            yes == is_finite_non_negative(self@.bits),
    {
        self.bits < 0x7ff0_0000_0000_0000 || self.bits == 0x8000_0000_0000_0000
    }
}

/// The view of an optional string.
pub open spec fn opt_text(s: Option<String>) -> Option<Seq<char>> {
    match s {
        Some(v) => Some(v@),
        None => None,
    }
}

/// The view of an optional number.
pub open spec fn opt_quantity(n: Option<Number>) -> Option<Quantity> {
    match n {
        Some(v) => Some(v@),
        None => None,
    }
}

/// A single interval meter observation, as a mathematical value.
pub struct MeterReading {
    pub ts: int,
    pub meter_id: Seq<char>,
    pub premise_id: Option<Seq<char>>,
    pub kwh: Quantity,
    pub kvarh: Option<Quantity>,
    pub kva_demand: Option<Quantity>,
    pub quality_flag: Option<Seq<char>>,
    pub source_system: Option<Seq<char>>,
}

/// A single interval meter observation.
#[derive(Debug, Clone)]
pub struct MeterUsage {
    pub ts: UnixNanos,
    pub meter_id: String,
    pub premise_id: Option<String>,
    pub kwh: Number,
    pub kvarh: Option<Number>,
    pub kva_demand: Option<Number>,
    pub quality_flag: Option<String>,
    pub source_system: Option<String>,
}

impl View for MeterUsage {
    type V = MeterReading;

    open spec fn view(&self) -> MeterReading {
        MeterReading {
            ts: self.ts as int,
            meter_id: self.meter_id@,
            premise_id: opt_text(self.premise_id),
            kwh: self.kwh@,
            kvarh: opt_quantity(self.kvarh),
            kva_demand: opt_quantity(self.kva_demand),
            quality_flag: opt_text(self.quality_flag),
            source_system: opt_text(self.source_system),
        }
    }
}

/// A single interval plant or unit output, as a mathematical value.
pub struct GenerationSample {
    pub ts: int,
    pub plant_id: Seq<char>,
    pub unit_id: Option<Seq<char>>,
    pub mw: Quantity,
    pub mvar: Option<Quantity>,
    pub status: Option<Seq<char>>,
    pub fuel_type: Option<Seq<char>>,
}

/// A single interval plant or unit output.
#[derive(Debug, Clone)]
pub struct GenerationOutput {
    pub ts: UnixNanos,
    pub plant_id: String,
    pub unit_id: Option<String>,
    pub mw: Number,
    pub mvar: Option<Number>,
    pub status: Option<String>,
    pub fuel_type: Option<String>,
}

impl View for GenerationOutput {
    type V = GenerationSample;

    open spec fn view(&self) -> GenerationSample {
        GenerationSample {
            ts: self.ts as int,
            plant_id: self.plant_id@,
            unit_id: opt_text(self.unit_id),
            mw: self.mw@,
            mvar: opt_quantity(self.mvar),
            status: opt_text(self.status),
            fuel_type: opt_text(self.fuel_type),
        }
    }
}

} // verus!
