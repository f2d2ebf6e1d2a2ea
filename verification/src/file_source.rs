//! Backfill sources that read meter readings from files.

use vstd::prelude::*;
use std::path::PathBuf;
use vstd::std_specs::convert::IntoSpec;
use crate::clock::{read_timestamp, read_ts};
use crate::pipeline::{PipelineError, Stage};
use crate::record::{opt_text, MeterUsage, Number, UnixNanos};
use crate::text::{push_text, same_text, trim, trimmed};

verus! {

/// Trusted: declares `std::path::PathBuf` as a type whose inside is not
/// looked at.
#[verifier::external_type_specification]
#[verifier::external_body]
pub struct ExPathBuf(PathBuf);

/// A backfill source over a file of line-delimited JSON, one reading a line.
pub struct MeterUsageBackfillFileSource {
    pub path: PathBuf,
}

impl MeterUsageBackfillFileSource {
    /// A source over the file at `path`.
    pub fn new<P: Into<PathBuf>>(path: P) -> (source: Self)
        ensures
            P::obeys_into_spec() ==> source.path == path.into_spec(),
    {
        Self { path: path.into() }
    }
}

/// A reading as one line of a backfill file holds it.
#[derive(Debug, Clone)]
pub struct BackfillMeterUsage {
    pub ts: UnixNanos,
    pub meter_id: String,
    pub premise_id: Option<String>,
    pub kwh: Number,
    pub kvarh: Option<Number>,
    pub kva_demand: Option<Number>,
    pub quality_flag: Option<String>,
    pub source_system: Option<String>,
}

impl From<BackfillMeterUsage> for MeterUsage {
    fn from(i: BackfillMeterUsage) -> (usage: MeterUsage) {
        MeterUsage {
            ts: i.ts,
            meter_id: i.meter_id,
            premise_id: i.premise_id,
            kwh: i.kwh,
            kvarh: i.kvarh,
            kva_demand: i.kva_demand,
            quality_flag: i.quality_flag,
            source_system: i.source_system,
        }
    }
}

impl vstd::std_specs::convert::FromSpecImpl<BackfillMeterUsage> for MeterUsage {
    open spec fn obeys_from_spec() -> bool {
        true
    }

    open spec fn from_spec(i: BackfillMeterUsage) -> MeterUsage {
        MeterUsage {
            ts: i.ts,
            meter_id: i.meter_id,
            premise_id: i.premise_id,
            kwh: i.kwh,
            kvarh: i.kvarh,
            kva_demand: i.kva_demand,
            quality_flag: i.quality_flag,
            source_system: i.source_system,
        }
    }
}

/// A source over a comma-separated file with a header row. The columns are
/// found by name: `ts`, `meter_id` and `kwh` are required; `premise_id`,
/// `kvarh`, `kva_demand`, `quality_flag` and `source_system` are optional.
pub struct MeterUsageCsvFileSource {
    pub path: PathBuf,
}

impl MeterUsageCsvFileSource {
    /// A source over the file at `path`.
    pub fn new<P: Into<PathBuf>>(path: P) -> (source: Self)
        ensures
            P::obeys_into_spec() ==> source.path == path.into_spec(),
    {
        Self { path: path.into() }
    }
}

/// A source over a pipe-separated file with a header row; the columns are
/// those of the comma-separated source.
pub struct MeterUsageDatFileSource {
    pub path: PathBuf,
}

impl MeterUsageDatFileSource {
    /// A source over the file at `path`.
    pub fn new<P: Into<PathBuf>>(path: P) -> (source: Self)
        ensures
            P::obeys_into_spec() ==> source.path == path.into_spec(),
    {
        Self { path: path.into() }
    }
}

/// Trusted: declares `csv::StringRecord`, one record of a delimited file, as
/// a type whose inside is not looked at.
#[verifier::external_type_specification]
#[verifier::external_body]
pub struct ExStringRecord(csv::StringRecord);

/// The fields of a record, in order.
pub uninterp spec fn fields_of(record: csv::StringRecord) -> Seq<Seq<char>>;

/// The number of fields in a record.
///
/// Trusted: stands for `csv::StringRecord::len`.
#[verifier::external_body]
fn record_len(record: &csv::StringRecord) -> (len: usize)
    ensures
        len == fields_of(*record).len(),
{
    record.len()
}

/// The field at index `i`, if there is one.
///
/// Trusted: stands for `csv::StringRecord::get`, which returns the field at
/// that index, or `None` where the record has no such field.
#[verifier::external_body]
fn record_get(record: &csv::StringRecord, i: usize) -> (field: Option<&str>)
    ensures
        field is Some <==> i < fields_of(*record).len(),
        field matches Some(text) ==> text@ == fields_of(*record)[i as int],
{
    record.get(i)
}

/// The text of an optional column: `None` where the cell is blank, else the
/// cell without the white space around it.
pub open spec fn optional(cell: Seq<char>) -> Option<Seq<char>> {
    if trimmed(cell).len() == 0 {
        None
    } else {
        Some(trimmed(cell))
    }
}

/// The text of an optional cell once the white space around it is taken off;
/// none where nothing is left.
pub fn parse_optional_string(s: &str) -> (text: Option<String>)
    ensures
        opt_text(text) == optional(s@),
{
    let t = trim(s);
    if t.is_empty() {
        None
    } else {
        Some(t.to_string())
    }
}

/// The text of an optional number: `None` where the cell is blank, else the
/// cell as it stands.
pub open spec fn optional_number(cell: Seq<char>) -> Option<Seq<char>> {
    if trimmed(cell).len() == 0 {
        None
    } else {
        Some(cell)
    }
}

/// The text of an optional number, to be read as a double; none where the
/// cell is blank.
pub fn optional_number_text(s: &str) -> (text: Option<String>)
    ensures
        opt_text(text) == optional_number(s@),
{
    if trim(s).is_empty() {
        None
    } else {
        Some(s.to_string())
    }
}

/// The index of the first header equal to `name`.
pub open spec fn position(headers: Seq<Seq<char>>, name: Seq<char>) -> Option<int>
    decreases headers.len(),
{
    if headers.len() == 0 {
        None
    } else if headers[0] == name {
        Some(0)
    } else {
        match position(headers.skip(1), name) {
            Some(i) => Some(i + 1),
            None => None,
        }
    }
}

/// The cell of a record under the first header equal to `name`; none where
/// there is no such header or the record is too short.
pub open spec fn column(
    record: Seq<Seq<char>>,
    headers: Seq<Seq<char>>,
    name: Seq<char>,
) -> Option<Seq<char>> {
    match position(headers, name) {
        Some(i) => if i < record.len() {
            Some(record[i])
        } else {
            None
        },
        None => None,
    }
}

proof fn position_after_misses(headers: Seq<Seq<char>>, name: Seq<char>, n: int)
    requires
        0 <= n <= headers.len(),
        forall|j: int| 0 <= j < n ==> headers[j] != name,
    ensures
        position(headers, name) == match position(headers.skip(n), name) {
            Some(i) => Some(i + n),
            None => None,
        },
    decreases n,
{
    if n == 0 {
        assert(headers.skip(0) =~= headers);
    } else {
        position_after_misses(headers.skip(1), name, n - 1);
        assert(headers.skip(1).skip(n - 1) =~= headers.skip(n));
    }
}

/// Looks a cell up by the name of its column.
pub fn get_column<'a>(
    record: &'a csv::StringRecord,
    headers: &csv::StringRecord,
    name: &str,
) -> (cell: Option<&'a str>)
    ensures
        match cell {
            Some(text) => column(fields_of(*record), fields_of(*headers), name@) == Some(text@),
            None => column(fields_of(*record), fields_of(*headers), name@) is None,
        },
{
    let n = record_len(headers);
    let mut i: usize = 0;
    while i < n
        invariant
            0 <= i <= n,
            n == fields_of(*headers).len(),
            forall|j: int| 0 <= j < i ==> fields_of(*headers)[j] != name@,
        decreases n - i,
    {
        match record_get(headers, i) {
            Some(h) => {
                if same_text(h, name) {
                    proof {
                        position_after_misses(fields_of(*headers), name@, i as int);
                    }
                    return record_get(record, i);
                }
            },
            None => {},
        }
        i = i + 1;
    }
    proof {
        position_after_misses(fields_of(*headers), name@, n as int);
    }
    None
}

/// The kind of delimited file a record comes from.
#[derive(Debug, Clone, Copy, PartialEq, Eq, Structural)]
pub enum Delimited {
    /// Comma-separated.
    Csv,
    /// Pipe-separated.
    Dat,
}

/// The name by which messages call a kind of file.
pub open spec fn label(kind: Delimited) -> Seq<char> {
    match kind {
        Delimited::Csv => "CSV"@,
        Delimited::Dat => "DAT"@,
    }
}

/// The message for a required column that a record lacks.
pub open spec fn missing_column(name: Seq<char>, kind: Delimited) -> Seq<char> {
    "missing column '"@ + name + "' in "@ + label(kind) + " record"@
}

/// The message for a cell that could not be read.
pub open spec fn invalid_cell(
    field: Seq<char>,
    cell: Seq<char>,
    complaint: Seq<char>,
) -> Seq<char> {
    "invalid "@ + field + " '"@ + cell + "': "@ + complaint
}

fn missing(name: &str, kind: Delimited) -> (e: PipelineError)
    ensures
        e.stage_of() == Stage::Source,
        e.message_of() == missing_column(name@, kind),
{
    let mut m = String::new();
    push_text(&mut m, "missing column '");
    push_text(&mut m, name);
    push_text(&mut m, "' in ");
    match kind {
        Delimited::Csv => push_text(&mut m, "CSV"),
        Delimited::Dat => push_text(&mut m, "DAT"),
    }
    push_text(&mut m, " record");
    PipelineError::Source(m)
}

fn invalid(field: &str, cell: &str, complaint: &str) -> (e: PipelineError)
    ensures
        e.stage_of() == Stage::Source,
        e.message_of() == invalid_cell(field@, cell@, complaint@),
{
    let mut m = String::new();
    push_text(&mut m, "invalid ");
    push_text(&mut m, field);
    push_text(&mut m, " '");
    push_text(&mut m, cell);
    push_text(&mut m, "': ");
    push_text(&mut m, complaint);
    PipelineError::Source(m)
}

/// A reading taken from a delimited record, complete but for its numbers,
/// which are still text.
#[derive(Debug, Clone)]
pub struct MeterUsageDraft {
    pub ts: UnixNanos,
    pub meter_id: String,
    pub premise_id: Option<String>,
    /// The `kwh` cell as it stands; it is read with the white space around
    /// it taken off.
    pub kwh: String,
    /// The `kvarh` cell as it stands, unless it is absent or blank.
    pub kvarh: Option<String>,
    /// The `kva_demand` cell as it stands, unless it is absent or blank.
    pub kva_demand: Option<String>,
    pub quality_flag: Option<String>,
    pub source_system: Option<String>,
}

/// An optional cell of a record: absent columns count as blank cells.
pub open spec fn optional_column(
    record: Seq<Seq<char>>,
    headers: Seq<Seq<char>>,
    name: Seq<char>,
) -> Option<Seq<char>> {
    match column(record, headers, name) {
        Some(cell) => optional(cell),
        None => None,
    }
}

/// An optional number cell of a record: absent columns count as blank cells.
pub open spec fn optional_number_column(
    record: Seq<Seq<char>>,
    headers: Seq<Seq<char>>,
    name: Seq<char>,
) -> Option<Seq<char>> {
    match column(record, headers, name) {
        Some(cell) => optional_number(cell),
        None => None,
    }
}

/// The message with which a record is refused, if it is: the first of a
/// missing `ts`, a `ts` that is no timestamp, a missing `meter_id`, a missing
/// `kwh`.
pub open spec fn draft_error(
    record: Seq<Seq<char>>,
    headers: Seq<Seq<char>>,
    kind: Delimited,
) -> Option<Seq<char>> {
    match column(record, headers, "ts"@) {
        None => Some(missing_column("ts"@, kind)),
        Some(ts) => match read_ts(ts) {
            Err(complaint) => Some(invalid_cell("ts"@, ts, complaint)),
            Ok(_) => if column(record, headers, "meter_id"@) is None {
                Some(missing_column("meter_id"@, kind))
            } else if column(record, headers, "kwh"@) is None {
                Some(missing_column("kwh"@, kind))
            } else {
                None
            },
        },
    }
}

fn optional_cell(
    record: &csv::StringRecord,
    headers: &csv::StringRecord,
    name: &str,
) -> (text: Option<String>)
    ensures
        opt_text(text) == optional_column(fields_of(*record), fields_of(*headers), name@),
{
    match get_column(record, headers, name) {
        Some(cell) => parse_optional_string(cell),
        None => None,
    }
}

fn optional_number_cell(
    record: &csv::StringRecord,
    headers: &csv::StringRecord,
    name: &str,
) -> (text: Option<String>)
    ensures
        opt_text(text) == optional_number_column(fields_of(*record), fields_of(*headers), name@),
{
    match get_column(record, headers, name) {
        Some(cell) => optional_number_text(cell),
        None => None,
    }
}

/// Takes a reading from one record of a delimited file, by the names in the
/// header row. `ts`, `meter_id` and `kwh` are required; the numbers are left
/// as text.
pub fn record_to_meter_usage(
    record: &csv::StringRecord,
    headers: &csv::StringRecord,
    kind: Delimited,
) -> (result: Result<MeterUsageDraft, PipelineError>)
    ensures
        result is Ok <==> draft_error(fields_of(*record), fields_of(*headers), kind) is None,
        result matches Err(e) ==> e.stage_of() == Stage::Source && Some(e.message_of())
            == draft_error(fields_of(*record), fields_of(*headers), kind),
        result matches Ok(d) ==> {
            let r = fields_of(*record);
            let h = fields_of(*headers);
            &&& Ok::<i128, Seq<char>>(d.ts) == read_ts(column(r, h, "ts"@)->0)
            &&& Some(d.meter_id@) == column(r, h, "meter_id"@)
            &&& Some(d.kwh@) == column(r, h, "kwh"@)
            &&& opt_text(d.premise_id) == optional_column(r, h, "premise_id"@)
            &&& opt_text(d.kvarh) == optional_number_column(r, h, "kvarh"@)
            &&& opt_text(d.kva_demand) == optional_number_column(r, h, "kva_demand"@)
            &&& opt_text(d.quality_flag) == optional_column(r, h, "quality_flag"@)
            &&& opt_text(d.source_system) == optional_column(r, h, "source_system"@)
        },
{
    let ts_str = match get_column(record, headers, "ts") {
        Some(cell) => cell,
        None => {
            return Err(missing("ts", kind));
        },
    };
    let ts = match read_timestamp(ts_str) {
        Ok(ts) => ts,
        Err(complaint) => {
            return Err(invalid("ts", ts_str, complaint.as_str()));
        },
    };
    let meter_id = match get_column(record, headers, "meter_id") {
        Some(cell) => cell.to_string(),
        None => {
            return Err(missing("meter_id", kind));
        },
    };
    let premise_id = optional_cell(record, headers, "premise_id");
    let kwh = match get_column(record, headers, "kwh") {
        Some(cell) => cell.to_string(),
        None => {
            return Err(missing("kwh", kind));
        },
    };
    let kvarh = optional_number_cell(record, headers, "kvarh");
    let kva_demand = optional_number_cell(record, headers, "kva_demand");
    let quality_flag = optional_cell(record, headers, "quality_flag");
    let source_system = optional_cell(record, headers, "source_system");
    Ok(
        MeterUsageDraft {
            ts,
            meter_id,
            premise_id,
            kwh,
            kvarh,
            kva_demand,
            quality_flag,
            source_system,
        },
    )
}

impl MeterUsageDraft {
    /// The text of `kwh` that is to be read as a double.
    pub fn kwh_text(&self) -> (text: &str)
        ensures
            text@ == trimmed(self.kwh@),
    {
        trim(self.kwh.as_str())
    }

    /// Completes the reading with its numbers, read beforehand. `kwh` is
    /// required: where it could not be read, the record is refused with the
    /// reader's complaint. An optional number that could not be read counts
    /// as absent.
    pub fn complete(
        self,
        kwh: Result<Number, String>,
        kvarh: Option<Number>,
        kva_demand: Option<Number>,
    ) -> (result: Result<MeterUsage, PipelineError>)
        ensures
            result is Ok <==> kwh is Ok,
            result matches Ok(m) ==> m == (MeterUsage {
                ts: self.ts,
                meter_id: self.meter_id,
                premise_id: self.premise_id,
                kwh: kwh->Ok_0,
                kvarh,
                kva_demand,
                quality_flag: self.quality_flag,
                source_system: self.source_system,
            }),
            result matches Err(e) ==> e.stage_of() == Stage::Source && e.message_of()
                == invalid_cell("kwh"@, self.kwh@, kwh->Err_0@),
    {
        match kwh {
            Ok(kwh) => Ok(
                MeterUsage {
                    ts: self.ts,
                    meter_id: self.meter_id,
                    premise_id: self.premise_id,
                    kwh,
                    kvarh,
                    kva_demand,
                    quality_flag: self.quality_flag,
                    source_system: self.source_system,
                },
            ),
            Err(complaint) => Err(invalid("kwh", self.kwh.as_str(), complaint.as_str())),
        }
    }
}

} // verus!
