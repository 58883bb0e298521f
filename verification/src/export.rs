//! The export of the store as comma-separated values: a header row, then
//! one row for each task of the snapshot.

use crate::task::TaskView;
use crate::tasks::task_views;
use crate::tasks::Tasks;
use crate::tasks::TasksView;
use vstd::prelude::*;
use vstd::string::StringExecFns;

verus! {

/// A writer of the `csv` crate that writes to a vector of bytes.
#[verifier::external_body]
pub struct CsvWriter {
    inner: csv::Writer<Vec<u8>>,
}

#[verifier::external_type_specification]
#[verifier::external_body]
pub struct ExCsvError(csv::Error);

/// The records that a writer of the `csv` crate has taken so far, each
/// as the texts of its fields.
pub uninterp spec fn records_written(writer: CsvWriter) -> Seq<Seq<Seq<char>>>;

/// The bytes that a writer of the `csv` crate, made with its default
/// settings, gives for the records `records`.
pub uninterp spec fn csv_bytes(records: Seq<Seq<Seq<char>>>) -> Seq<u8>;

/// Calls `csv::Writer::from_writer` on an empty vector of bytes: a
/// writer with the crate's default settings that has taken no record.
#[verifier::external_body]
fn csv_writer() -> (writer: CsvWriter)
    ensures
        records_written(writer) == Seq::<Seq<Seq<char>>>::empty(),
{
    CsvWriter { inner: csv::Writer::from_writer(Vec::new()) }
}

/// Calls `csv::Writer::write_record`. Where the writer accepts the
/// record, it is the last of the records the writer has taken, behind
/// those it had before. The writer, which writes to memory, refuses a
/// record only for its number of fields: one that has as many fields as
/// each record taken before is accepted. Nothing is claimed of the
/// writer after a refusal.
#[verifier::external_body]
fn csv_write_record(writer: &mut CsvWriter, record: &Vec<String>) -> (taken: Result<
    (),
    csv::Error,
>)
    ensures
        taken is Ok ==> records_written(*final(writer)) == records_written(*old(writer)).push(
            texts(record@),
        ),
        (forall|j: int|
            0 <= j < records_written(*old(writer)).len() ==> (#[trigger] records_written(
                *old(writer),
            )[j]).len() == record@.len()) ==> taken is Ok,
{
    writer.inner.write_record(record)
}

/// Calls `csv::Writer::into_inner`, which flushes the writer and hands
/// back the vector it wrote to. The flush into a vector does not fail,
/// and the bytes are those that the crate gives for the records taken.
#[verifier::external_body]
fn csv_finish(writer: CsvWriter) -> (bytes: Result<Vec<u8>, csv::Error>)
    ensures
        bytes is Ok,
        bytes matches Ok(b) ==> b@ == csv_bytes(records_written(writer)),
{
    writer.inner.into_inner().map_err(|e| csv::Error::from(e.into_error()))
}

/// The texts of a vector of strings, in order.
pub open spec fn texts(fields: Seq<String>) -> Seq<Seq<char>> {
    fields.map_values(|s: String| s@)
}

/// The texts of a vector of records, in order.
pub open spec fn record_texts(records: Seq<Vec<String>>) -> Seq<Seq<Seq<char>>> {
    records.map_values(|r: Vec<String>| texts(r@))
}

/// The header of the export.
pub open spec fn header_row() -> Seq<Seq<char>> {
    seq!["id"@, "start"@, "end"@, "description"@]
}

/// The rows of `tasks`, in order; `None` where a timestamp of one of
/// them has no text.
pub open spec fn task_rows(tasks: Seq<TaskView>) -> Option<Seq<Seq<Seq<char>>>>
    decreases tasks.len(),
{
    if tasks.len() == 0 {
        Some(Seq::empty())
    } else {
        match (task_rows(tasks.drop_last()), tasks.last().fields()) {
            (Some(rows), Some(row)) => Some(rows.push(row)),
            _ => None,
        }
    }
}

/// The records of the export of `store`: the header, then the rows of
/// the closed tasks in the order in which they were closed, then the row
/// of the open task.
pub open spec fn export_records(store: TasksView) -> Option<Seq<Seq<Seq<char>>>> {
    match task_rows(store.snapshot()) {
        Some(rows) => Some(seq![header_row()] + rows),
        None => None,
    }
}

/// Whether every record has as many fields as the first one.
pub open spec fn same_width(records: Seq<Seq<Seq<char>>>) -> bool {
    forall|j: int| 0 <= j < records.len() ==> (#[trigger] records[j]).len() == records[0].len()
}

/// Every row of a task has four fields, as the header has: the records
/// of an export all have the same number of fields.
pub proof fn lemma_export_records_have_four_fields(store: TasksView)
    ensures
        header_row().len() == 4,
        export_records(store) matches Some(records) ==> same_width(records) && forall|j: int|
            0 <= j < records.len() ==> (#[trigger] records[j]).len() == 4,
{
    lemma_task_rows_have_four_fields(store.snapshot());
}

/// Every row of a task has four fields.
pub proof fn lemma_task_rows_have_four_fields(tasks: Seq<TaskView>)
    ensures
        task_rows(tasks) matches Some(rows) ==> rows.len() == tasks.len() && forall|j: int|
            0 <= j < rows.len() ==> (#[trigger] rows[j]).len() == 4,
    decreases tasks.len(),
{
    if tasks.len() > 0 {
        lemma_task_rows_have_four_fields(tasks.drop_last());
    }
}

/// Where the first `k` tasks have no rows, the whole sequence has none.
pub proof fn lemma_task_rows_fail(tasks: Seq<TaskView>, k: int)
    requires
        0 <= k <= tasks.len(),
        task_rows(tasks.take(k)) is None,
    ensures
        task_rows(tasks) is None,
    decreases tasks.len() - k,
{
    if k < tasks.len() {
        assert(tasks.take(k + 1).drop_last() =~= tasks.take(k));
        lemma_task_rows_fail(tasks, k + 1);
    } else {
        assert(tasks.take(k) =~= tasks);
    }
}

/// Why an export could not be made.
#[derive(Clone, Copy, Debug, PartialEq, Eq, Structural)]
pub enum ExportError {
    /// A timestamp of a task has no text.
    Timestamp,
    /// The writer refused a record or could not be flushed.
    Writer,
}

/// The header of the export.
pub fn header() -> (row: Vec<String>)
    ensures
        texts(row@) == header_row(),
{
    let mut row: Vec<String> = Vec::new();
    row.push(String::from_str("id"));
    row.push(String::from_str("start"));
    row.push(String::from_str("end"));
    row.push(String::from_str("description"));
    assert(texts(row@) =~= header_row());
    row
}

/// The records of the export of `tasks`, the header first.
pub fn records(tasks: &Tasks) -> (rows: Option<Vec<Vec<String>>>)
    ensures
        rows matches Some(r) ==> export_records(tasks@) == Some(record_texts(r@)),
        rows is None ==> export_records(tasks@) is None,
{
    let snapshot = tasks.snapshot();
    let ghost all = task_views(snapshot@);
    let mut rows: Vec<Vec<String>> = Vec::new();
    rows.push(header());
    let mut i: usize = 0;
    assert(all.take(0) =~= Seq::<TaskView>::empty());
    assert(record_texts(rows@) =~= seq![header_row()] + task_rows(all.take(0))->0);
    while i < snapshot.len()
        invariant
            i <= snapshot.len(),
            all == task_views(snapshot@),
            all == tasks@.snapshot(),
            task_rows(all.take(i as int)) is Some,
            record_texts(rows@) == seq![header_row()] + task_rows(all.take(i as int))->0,
        decreases snapshot.len() - i,
    {
        proof {
            assert(all.take(i + 1).drop_last() =~= all.take(i as int));
            assert(all.take(i + 1).last() == snapshot@[i as int]@);
        }
        match snapshot[i].fields() {
            Some(row) => {
                let ghost before = rows@;
                rows.push(row);
                assert(record_texts(rows@) =~= record_texts(before).push(texts(row@)));
                assert(record_texts(rows@) =~= seq![header_row()] + task_rows(
                    all.take(i + 1),
                )->0);
            },
            None => {
                proof {
                    lemma_task_rows_fail(all, i + 1);
                }
                return None;
            },
        }
        i = i + 1;
    }
    assert(all.take(i as int) =~= all);
    Some(rows)
}

/// Writes `records` with a writer of the `csv` crate and hands back the
/// bytes. Records that all have the same number of fields are always
/// written.
pub fn encode(records: &Vec<Vec<String>>) -> (bytes: Result<Vec<u8>, ExportError>)
    ensures
        bytes matches Ok(b) ==> b@ == csv_bytes(record_texts(records@)),
        bytes matches Err(e) ==> e == ExportError::Writer,
        same_width(record_texts(records@)) ==> bytes is Ok,
{
    let mut writer = csv_writer();
    let mut i: usize = 0;
    assert(record_texts(records@.take(0)) =~= Seq::<Seq<Seq<char>>>::empty());
    while i < records.len()
        invariant
            i <= records.len(),
            records_written(writer) == record_texts(records@.take(i as int)),
        decreases records.len() - i,
    {
        proof {
            let all = record_texts(records@);
            if same_width(all) {
                assert(all[i as int].len() == records@[i as int]@.len());
                assert forall|j: int| 0 <= j < records_written(writer).len() implies (
                #[trigger] records_written(writer)[j]).len() == records@[i as int]@.len() by {
                    assert(records_written(writer)[j] == all[j]);
                    assert(all[j].len() == all[0].len());
                    assert(all[i as int].len() == all[0].len());
                }
            }
        }
        match csv_write_record(&mut writer, &records[i]) {
            Ok(_) => {},
            Err(_) => {
                return Err(ExportError::Writer);
            },
        }
        i = i + 1;
        assert(record_texts(records@.take(i as int)) =~= record_texts(
            records@.take(i - 1),
        ).push(texts(records@[i - 1]@)));
    }
    assert(records@.take(i as int) =~= records@);
    match csv_finish(writer) {
        Ok(bytes) => Ok(bytes),
        Err(_) => Err(ExportError::Writer),
    }
}

/// The export of `tasks` as comma-separated values: the header, the
/// closed tasks in the order in which they were closed, and the open
/// task last. It is made whenever every timestamp of the store has a
/// text.
pub fn csv_document(tasks: &Tasks) -> (document: Result<Vec<u8>, ExportError>)
    ensures
        document matches Ok(bytes) ==> export_records(tasks@) matches Some(records) && bytes@
            == csv_bytes(records),
        export_records(tasks@) is Some ==> document is Ok,
        export_records(tasks@) is None ==> document == Err::<Vec<u8>, ExportError>(
            ExportError::Timestamp,
        ),
{
    proof {
        lemma_export_records_have_four_fields(tasks@);
    }
    match records(tasks) {
        Some(rows) => encode(&rows),
        None => Err(ExportError::Timestamp),
    }
}

} // verus!
