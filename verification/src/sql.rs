//! The shape of the SQL inserts: the table of each kind of record, its
//! columns in their fixed order, and a record as one row of values.

use vstd::prelude::*;
use crate::metrics::RecordKind;
use crate::record::{
    opt_quantity, opt_text, GenerationOutput, GenerationSample, MeterReading, MeterUsage, Number,
    Quantity, UnixNanos,
};
use crate::text::push_text;

verus! {

/// One value of a row, as a mathematical value.
pub enum Cell {
    Timestamp(int),
    Text(Option<Seq<char>>),
    Double(Option<Quantity>),
}

/// One value of a row. An absent text or number is written as a null of its
/// type.
#[derive(Debug, Clone)]
pub enum SqlValue {
    Timestamp(UnixNanos),
    Text(Option<String>),
    Double(Option<Number>),
}

impl View for SqlValue {
    type V = Cell;

    open spec fn view(&self) -> Cell {
        match self {
            SqlValue::Timestamp(ts) => Cell::Timestamp(*ts as int),
            SqlValue::Text(text) => Cell::Text(opt_text(*text)),
            SqlValue::Double(number) => Cell::Double(opt_quantity(*number)),
        }
    }
}

/// The cells of a row of values.
pub open spec fn cells(row: Seq<SqlValue>) -> Seq<Cell> {
    row.map_values(|v: SqlValue| v@)
}

/// The table a kind of record is written to.
pub open spec fn table_of(kind: RecordKind) -> Seq<char> {
    match kind {
        RecordKind::MeterUsage => "meter_usage"@,
        RecordKind::GenerationOutput => "generation_output"@,
    }
}

/// The columns of a kind of record, in the order in which a row gives their
/// values.
pub open spec fn columns_of(kind: RecordKind) -> Seq<Seq<char>> {
    match kind {
        RecordKind::MeterUsage => seq![
            "ts"@,
            "meter_id"@,
            "premise_id"@,
            "kwh"@,
            "kvarh"@,
            "kva_demand"@,
            "quality_flag"@,
            "source_system"@,
        ],
        RecordKind::GenerationOutput => seq![
            "ts"@,
            "plant_id"@,
            "unit_id"@,
            "mw"@,
            "mvar"@,
            "status"@,
            "fuel_type"@,
        ],
    }
}

/// Names separated by a comma and a space.
pub open spec fn comma_list(names: Seq<Seq<char>>) -> Seq<char>
    decreases names.len(),
{
    if names.len() == 0 {
        Seq::empty()
    } else if names.len() == 1 {
        names[0]
    } else {
        comma_list(names.drop_last()) + ", "@ + names.last()
    }
}

/// The words an insert begins with: the table and its columns. The values
/// follow.
pub open spec fn insert_head(kind: RecordKind) -> Seq<char> {
    "INSERT INTO "@ + table_of(kind) + " ("@ + comma_list(columns_of(kind)) + ") "@
}

/// The row of a meter reading.
pub open spec fn meter_usage_cells(m: MeterReading) -> Seq<Cell> {
    seq![
        Cell::Timestamp(m.ts),
        Cell::Text(Some(m.meter_id)),
        Cell::Text(m.premise_id),
        Cell::Double(Some(m.kwh)),
        Cell::Double(m.kvarh),
        Cell::Double(m.kva_demand),
        Cell::Text(m.quality_flag),
        Cell::Text(m.source_system),
    ]
}

/// The row of a generation sample.
pub open spec fn generation_cells(g: GenerationSample) -> Seq<Cell> {
    seq![
        Cell::Timestamp(g.ts),
        Cell::Text(Some(g.plant_id)),
        Cell::Text(g.unit_id),
        Cell::Double(Some(g.mw)),
        Cell::Double(g.mvar),
        Cell::Text(g.status),
        Cell::Text(g.fuel_type),
    ]
}

/// The columns of a kind of record, in the order of a row.
pub fn columns(kind: RecordKind) -> (names: Vec<&'static str>)
    ensures
        names@.len() == columns_of(kind).len(),
        forall|i: int| 0 <= i < names@.len() ==> (#[trigger] names@[i])@ == columns_of(kind)[i],
{
    let mut names: Vec<&'static str> = Vec::new();
    match kind {
        RecordKind::MeterUsage => {
            names.push("ts");
            names.push("meter_id");
            names.push("premise_id");
            names.push("kwh");
            names.push("kvarh");
            names.push("kva_demand");
            names.push("quality_flag");
            names.push("source_system");
        },
        RecordKind::GenerationOutput => {
            names.push("ts");
            names.push("plant_id");
            names.push("unit_id");
            names.push("mw");
            names.push("mvar");
            names.push("status");
            names.push("fuel_type");
        },
    }
    names
}

/// The words an insert of this kind of record begins with.
pub fn insert_into(kind: RecordKind) -> (head: String)
    ensures
        head@ == insert_head(kind),
{
    let names = columns(kind);
    let mut head = String::new();
    push_text(&mut head, "INSERT INTO ");
    match kind {
        RecordKind::MeterUsage => push_text(&mut head, "meter_usage"),
        RecordKind::GenerationOutput => push_text(&mut head, "generation_output"),
    }
    push_text(&mut head, " (");
    let ghost before = head@;
    let ghost all = columns_of(kind);
    let mut i: usize = 0;
    while i < names.len()
        invariant
            0 <= i <= names.len(),
            names@.len() == all.len(),
            forall|j: int| 0 <= j < names@.len() ==> (#[trigger] names@[j])@ == all[j],
            head@ == before + comma_list(all.take(i as int)),
        decreases names.len() - i,
    {
        proof {
            assert(all.take(i + 1).drop_last() =~= all.take(i as int));
            assert(all.take(i + 1).last() == all[i as int]);
        }
        if i > 0 {
            push_text(&mut head, ", ");
        }
        push_text(&mut head, names[i]);
        i = i + 1;
        assert(head@ =~= before + comma_list(all.take(i as int)));
    }
    assert(all.take(all.len() as int) =~= all);
    push_text(&mut head, ") ");
    head
}

/// A meter reading as one row of values, in the order of the columns.
pub fn meter_usage_row(m: &MeterUsage) -> (row: Vec<SqlValue>)
    ensures
        cells(row@) == meter_usage_cells(m@),
        row@.len() == columns_of(RecordKind::MeterUsage).len(),
{
    let mut row: Vec<SqlValue> = Vec::new();
    row.push(SqlValue::Timestamp(m.ts));
    row.push(SqlValue::Text(Some(m.meter_id.clone())));
    row.push(SqlValue::Text(m.premise_id.clone()));
    row.push(SqlValue::Double(Some(m.kwh.clone())));
    row.push(SqlValue::Double(clone_number(&m.kvarh)));
    row.push(SqlValue::Double(clone_number(&m.kva_demand)));
    row.push(SqlValue::Text(m.quality_flag.clone()));
    row.push(SqlValue::Text(m.source_system.clone()));
    assert(cells(row@) =~= meter_usage_cells(m@));
    row
}

/// A generation sample as one row of values, in the order of the columns.
pub fn generation_row(g: &GenerationOutput) -> (row: Vec<SqlValue>)
    ensures
        cells(row@) == generation_cells(g@),
        row@.len() == columns_of(RecordKind::GenerationOutput).len(),
{
    let mut row: Vec<SqlValue> = Vec::new();
    row.push(SqlValue::Timestamp(g.ts));
    row.push(SqlValue::Text(Some(g.plant_id.clone())));
    row.push(SqlValue::Text(g.unit_id.clone()));
    row.push(SqlValue::Double(Some(g.mw.clone())));
    row.push(SqlValue::Double(clone_number(&g.mvar)));
    row.push(SqlValue::Text(g.status.clone()));
    row.push(SqlValue::Text(g.fuel_type.clone()));
    assert(cells(row@) =~= generation_cells(g@));
    row
}

fn clone_number(n: &Option<Number>) -> (copy: Option<Number>)
    ensures
        opt_quantity(copy) == opt_quantity(*n),
{
    match n {
        Some(v) => Some(v.clone()),
        None => None,
    }
}

} // verus!
