use vstd::prelude::*;

use crate::expense::{Expense, StoreError};
use crate::text::{decimal, parse_u16, parse_u16_spec, u16_text};

verus! {

#[verifier::external_type_specification]
#[verifier::external_body]
pub struct ExCsvError(csv::Error);

/// The bytes that csv's writer, with its default settings, puts out for one
/// record with these fields, terminator included.
pub uninterp spec fn csv_record_bytes(fields: Seq<Seq<char>>) -> Seq<u8>;

/// The records that csv's reader, with its default settings, finds in
/// `data` after the header row, each as its fields; `None` where it refuses
/// the data.
pub uninterp spec fn csv_records(data: Seq<u8>) -> Option<Seq<Seq<Seq<char>>>>;

/// The view of a list of fields.
pub open spec fn fields_view(fields: Seq<String>) -> Seq<Seq<char>> {
    fields.map_values(|f: String| f@)
}

/// The view of a list of records.
pub open spec fn records_view(records: Seq<Vec<String>>) -> Seq<Seq<Seq<char>>> {
    records.map_values(|r: Vec<String>| fields_view(r@))
}

/// What one stored row holds: the id, and the text of the description, the
/// amount and the date.
pub type RowView = (u16, Seq<char>, Seq<char>, Seq<char>);

pub open spec fn row_of(e: Expense<String>) -> RowView {
    (e.id, e.description@, e.amount@, e.date@)
}

pub open spec fn table_rows(t: Seq<Expense<String>>) -> Seq<RowView> {
    t.map_values(|e: Expense<String>| row_of(e))
}

/// The fields of the record that stores `row`.
pub open spec fn record_of(row: RowView) -> Seq<Seq<char>> {
    seq![decimal(row.0 as nat), row.1, row.2, row.3]
}

/// The names of the columns, in order.
pub open spec fn header() -> Seq<Seq<char>> {
    seq!["id"@, "description"@, "amount"@, "date"@]
}

/// The bytes of the records that store `rows`, one after another.
pub open spec fn rows_bytes(rows: Seq<RowView>) -> Seq<u8>
    decreases rows.len(),
{
    if rows.len() == 0 {
        Seq::empty()
    } else {
        rows_bytes(rows.drop_last()) + csv_record_bytes(record_of(rows.last()))
    }
}

/// The persisted form of a table: the header row, then one row per expense.
pub open spec fn table_bytes(rows: Seq<RowView>) -> Seq<u8> {
    csv_record_bytes(header()) + rows_bytes(rows)
}

/// The row that a record stores, where it has four fields and the first
/// reads as an id.
pub open spec fn row_from_record(fields: Seq<Seq<char>>) -> Option<RowView> {
    if fields.len() == 4 && parse_u16_spec(fields[0]) is Some {
        Some((parse_u16_spec(fields[0])->0, fields[1], fields[2], fields[3]))
    } else {
        None
    }
}

/// The rows that the records store, where every one of them stores one.
pub open spec fn rows_from_records(records: Seq<Seq<Seq<char>>>) -> Option<Seq<RowView>> {
    if forall|i: int| 0 <= i < records.len() ==> (#[trigger] row_from_record(records[i])) is Some {
        Some(records.map_values(|f: Seq<Seq<char>>| row_from_record(f)->0))
    } else {
        None
    }
}

/// The rows that the persisted bytes `data` store, if they are well formed.
pub open spec fn rows_from_bytes(data: Seq<u8>) -> Option<Seq<RowView>> {
    match csv_records(data) {
        Some(records) => rows_from_records(records),
        None => None,
    }
}

/// Relies on csv's `Writer::from_writer`, `Writer::write_record` and
/// `Writer::into_inner`: one record written by a fresh writer over a
/// `Vec<u8>`. Such a writer fails only on an error of the `Vec` (there is
/// none) or on a record whose length differs from an earlier one's (there is
/// no earlier one).
#[verifier::external_body]
fn write_csv_record(fields: &Vec<String>) -> (r: Option<Vec<u8>>)
    ensures
        r is Some,
        r is Some ==> r->0@ == csv_record_bytes(fields_view(fields@)),
{
    let mut writer = csv::Writer::from_writer(Vec::new());
    let written = writer.write_record(fields);
    match (written, writer.into_inner()) {
        (Ok(()), Ok(bytes)) => Some(bytes),
        _ => None,
    }
}

/// Relies on csv's `Reader::from_reader` and `Reader::records`: the records
/// after the header row, each as its fields, or the first error met.
#[verifier::external_body]
fn read_csv_records(data: &[u8]) -> (r: Result<Vec<Vec<String>>, csv::Error>)
    ensures
        match r {
            Ok(records) => csv_records(data@) == Some(records_view(records@)),
            Err(_) => csv_records(data@) is None,
        },
{
    csv::Reader::from_reader(data).records().map(
        |record| record.map(|fields| fields.iter().map(String::from).collect()),
    ).collect()
}

fn header_fields() -> (r: Vec<String>)
    ensures
        fields_view(r@) == header(),
{
    let mut r: Vec<String> = Vec::new();
    r.push(String::from_str("id"));
    r.push(String::from_str("description"));
    r.push(String::from_str("amount"));
    r.push(String::from_str("date"));
    assert(fields_view(r@) =~= header());
    r
}

/// The fields of the record that stores `e`.
pub fn expense_record(e: &Expense<String>) -> (r: Vec<String>)
    ensures
        fields_view(r@) == record_of(row_of(*e)),
{
    let mut r: Vec<String> = Vec::new();
    r.push(u16_text(e.id));
    r.push(e.description.clone());
    r.push(e.amount.clone());
    r.push(e.date.clone());
    assert(fields_view(r@) =~= record_of(row_of(*e)));
    r
}

/// The persisted form of a table whose amounts are already written out.
pub fn convert_to_csv(expenses: &Vec<Expense<String>>) -> (r: Vec<u8>)
    ensures
        r@ == table_bytes(table_rows(expenses@)),
{
    let mut out = write_csv_record(&header_fields()).unwrap();
    let mut i: usize = 0;
    while i < expenses.len()
        invariant
            i <= expenses.len(),
            out@ == csv_record_bytes(header()) + rows_bytes(table_rows(expenses@.subrange(0, i as int))),
        decreases expenses.len() - i,
    {
        let mut bytes = write_csv_record(&expense_record(&expenses[i])).unwrap();
        proof {
            let rows = table_rows(expenses@.subrange(0, i + 1));
            assert(rows.drop_last() =~= table_rows(expenses@.subrange(0, i as int)));
            assert(rows.last() == row_of(expenses@[i as int]));
        }
        out.append(&mut bytes);
        assert(out@ =~= csv_record_bytes(header()) + rows_bytes(table_rows(expenses@.subrange(0, i + 1))));
        i = i + 1;
    }
    assert(expenses@.subrange(0, i as int) =~= expenses@);
    out
}

/// The expense that a record stores, or `Storage` where it stores none.
pub fn expense_from_record(fields: &Vec<String>) -> (r: Result<Expense<String>, StoreError>)
    ensures
        match r {
            Ok(e) => row_from_record(fields_view(fields@)) == Some(row_of(e)),
            Err(err) => err == StoreError::Storage && row_from_record(fields_view(fields@)) is None,
        },
{
    if fields.len() != 4 {
        return Err(StoreError::Storage);
    }
    match parse_u16(fields[0].as_str()) {
        Some(id) => Ok(
            Expense {
                id,
                description: fields[1].clone(),
                amount: fields[2].clone(),
                date: fields[3].clone(),
            },
        ),
        None => Err(StoreError::Storage),
    }
}

/// The expenses that the records store, in order; `Storage` where one of them
/// stores none.
pub fn expenses_from_records(records: &Vec<Vec<String>>) -> (r: Result<Vec<Expense<String>>, StoreError>)
    ensures
        match r {
            Ok(t) => rows_from_records(records_view(records@)) == Some(table_rows(t@)),
            Err(err) => err == StoreError::Storage && rows_from_records(records_view(records@)) is None,
        },
{
    let ghost rs = records_view(records@);
    let mut t: Vec<Expense<String>> = Vec::new();
    let mut i: usize = 0;
    while i < records.len()
        invariant
            i <= records.len(),
            rs == records_view(records@),
            t@.len() == i,
            forall|k: int| 0 <= k < i ==> row_from_record(#[trigger] rs[k]) == Some(row_of(t@[k])),
        decreases records.len() - i,
    {
        match expense_from_record(&records[i]) {
            Ok(e) => {
                t.push(e);
            },
            Err(err) => {
                assert(row_from_record(rs[i as int]) is None);
                return Err(err);
            },
        }
        i = i + 1;
    }
    assert(rs.map_values(|f: Seq<Seq<char>>| row_from_record(f)->0) =~= table_rows(t@));
    Ok(t)
}

/// Reads a persisted table whose amounts stay written out; `Storage` where
/// the data is not a well-formed table.
pub fn get_expenses(data: &[u8]) -> (r: Result<Vec<Expense<String>>, StoreError>)
    ensures
        match r {
            Ok(t) => rows_from_bytes(data@) == Some(table_rows(t@)),
            Err(err) => err == StoreError::Storage && rows_from_bytes(data@) is None,
        },
{
    match read_csv_records(data) {
        Ok(records) => expenses_from_records(&records),
        Err(_) => Err(StoreError::Storage),
    }
}

/// A persisted table with a record that stores no row (too few or too many
/// fields, or an id that does not read as one) fails to load as a whole: the
/// record is not skipped.
pub proof fn lemma_malformed_record_fails(data: Seq<u8>, i: int)
    requires
        csv_records(data) is Some,
        0 <= i < csv_records(data)->0.len(),
        row_from_record(csv_records(data)->0[i]) is None,
    ensures
        rows_from_bytes(data) is None,
{
}

/// Reading back the records written for a table gives the same rows, in the
/// same order: ids through their decimal text, the other fields as they are.
pub proof fn lemma_records_round_trip(rows: Seq<RowView>)
    ensures
        rows_from_records(rows.map_values(|row: RowView| record_of(row))) == Some(rows),
{
    let records = rows.map_values(|row: RowView| record_of(row));
    assert forall|i: int| 0 <= i < records.len() implies #[trigger] row_from_record(records[i]) == Some(rows[i]) by {
        crate::text::lemma_parse_decimal(rows[i].0);
    }
    assert(records.map_values(|f: Seq<Seq<char>>| row_from_record(f)->0) =~= rows);
}

} // verus!
