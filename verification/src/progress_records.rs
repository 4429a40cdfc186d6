//! Logged entries of progress.
use crate::dates::{date_text, Date};
use crate::tables::{columns_are, is_shaded, push_column, Column, Row, Table};
use crate::text::{amount_text, amount_text_spec, integer_text, integer_text_spec};
use crate::targets::{get_target, has_target, is_first_with_id, ProgressError, Target, TargetType};
use vstd::prelude::*;

verus! {

/// One logged entry towards a target.
#[derive(Clone, Debug)]
pub struct ProgressRecord {
    pub id: i64,
    /// The id of the target that owns this record.
    pub target_id: i64,
    pub entry_date: Date,
    /// The logged amount, in thousandths.
    pub value: i64,
    pub item_name: Option<String>,
}

/// A record that is about to be stored: all of a record but the id, which
/// the store gives.
#[derive(Clone, Debug)]
pub struct NewProgressRecord {
    pub target_id: i64,
    pub entry_date: Date,
    pub value: Option<i64>,
    pub item_name: Option<String>,
}

/// Whether a record for a target of the type `target_type` has what it
/// needs: a count target asks for the name of the item, a value target
/// for the value.
pub open spec fn has_what_target_needs(
    target_type: TargetType,
    value: Option<i64>,
    item_name: Option<String>,
) -> bool {
    match target_type {
        TargetType::Count => item_name is Some,
        TargetType::Value => value is Some,
    }
}

/// What `create_progress_record` returns for a record that is logged
/// against `target`.
pub open spec fn new_record_for(
    target: &Target,
    entry_date: Option<Date>,
    value: Option<i64>,
    item_name: Option<String>,
    today: Date,
) -> Result<NewProgressRecord, ProgressError> {
    if has_what_target_needs(target.target_type, value, item_name) {
        Ok(
            NewProgressRecord {
                target_id: target.id,
                entry_date: match entry_date {
                    Some(date) => date,
                    None => today,
                },
                value,
                item_name,
            },
        )
    } else {
        Err(ProgressError::ValidationError)
    }
}

/// The record to store for what the user logged against the target
/// `target_id`. Without an entry date the record is of `today`.
/// `NotFound` where no target has that id; `ValidationError` where the
/// record lacks what the target's type needs.
pub fn create_progress_record(
    targets: &Vec<Target>,
    target_id: &i64,
    entry_date: &Option<Date>,
    value: &Option<i64>,
    item_name: &Option<String>,
    today: Date,
) -> (created: Result<NewProgressRecord, ProgressError>)
    ensures
        !has_target(targets@, *target_id) ==> created == Err::<NewProgressRecord, ProgressError>(
            ProgressError::NotFound,
        ),
        forall|i: int|
            is_first_with_id(targets@, i, *target_id) ==> created == new_record_for(
                &targets@[i],
                *entry_date,
                *value,
                *item_name,
                today,
            ),
{
    let target = match get_target(targets, *target_id) {
        Ok(target) => target,
        Err(e) => {
            assert forall|i: int| is_first_with_id(targets@, i, *target_id) implies false by {
                assert(targets@[i].id == *target_id);
            }
            return Err(ProgressError::NotFound);
        },
    };
    let complete: bool = match target.target_type {
        TargetType::Count => item_name.is_some(),
        TargetType::Value => value.is_some(),
    };
    if !complete {
        return Err(ProgressError::ValidationError);
    }
    let name: Option<String> = match item_name {
        Some(name) => Some(name.clone()),
        None => None,
    };
    Ok(
        NewProgressRecord {
            target_id: target.id,
            entry_date: match entry_date {
                Some(date) => *date,
                None => today,
            },
            value: *value,
            item_name: name,
        },
    )
}

impl NewProgressRecord {
    /// The record as it is once the store has given it the id `id`. A
    /// record without a value holds zero.
    pub fn with_id(self, id: i64) -> (record: ProgressRecord)
        ensures
            record.id == id,
            record.target_id == self.target_id,
            record.entry_date == self.entry_date,
            record.value == match self.value {
                Some(value) => value,
                None => 0i64,
            },
            record.item_name == self.item_name,
    {
        ProgressRecord {
            id,
            target_id: self.target_id,
            entry_date: self.entry_date,
            value: match self.value {
                Some(value) => value,
                None => 0,
            },
            item_name: self.item_name,
        }
    }
}

/// What the table of records is drawn from.
#[derive(Clone, Copy, Debug)]
pub struct ProgressRecordsTableProps<'a> {
    pub progress_records: Option<&'a Vec<ProgressRecord>>,
    pub title: &'a str,
}

impl<'a> Default for ProgressRecordsTableProps<'a> {
    /// No records and an empty title.
    fn default() -> (props: Self)
        ensures
            props.progress_records is None,
            props.title@ == Seq::<char>::empty(),
    {
        proof {
            reveal_strlit("");
        }
        let title: &'static str = "";
        assert(title@ =~= Seq::<char>::empty());
        ProgressRecordsTableProps { progress_records: None, title }
    }
}

/// The headings of the table of records.
pub open spec fn records_headings() -> Seq<Seq<char>> {
    seq!["id"@, "target_id"@, "entry date"@, "value"@]
}

/// The widths of the columns of the table of records.
pub open spec fn records_widths() -> Seq<int> {
    seq![100, 400, 250, 250]
}

/// Whether `cells` are the texts of `record`: its id, the id of its
/// target, its entry date and its value.
pub open spec fn is_row_of_record(cells: Seq<String>, record: &ProgressRecord) -> bool {
    &&& cells.len() == 4
    &&& cells[0]@ == integer_text_spec(record.id as int)
    &&& cells[1]@ == integer_text_spec(record.target_id as int)
    &&& cells[2]@ == date_text(
        record.entry_date.year as int,
        record.entry_date.month as int,
        record.entry_date.day as int,
    )
    &&& cells[3]@ == amount_text_spec(record.value as int)
}

/// The records that `props` holds: none where it holds no list.
pub open spec fn records_in<'a>(props: &ProgressRecordsTableProps<'a>) -> Seq<ProgressRecord> {
    match props.progress_records {
        Some(records) => records@,
        None => Seq::<ProgressRecord>::empty(),
    }
}

/// The table of records: one row for each record, in their order, every
/// second row shaded.
#[allow(non_snake_case)]
pub fn ProgressRecordsTable<'a>(props: &ProgressRecordsTableProps<'a>) -> (table: Table)
    requires
        forall|i: int|
            0 <= i < records_in(props).len() ==> (#[trigger] records_in(props)[i]).entry_date.wf(),
    ensures
        table.title@ == props.title@,
        columns_are(table.columns@, records_headings(), records_widths()),
        table.rows@.len() == records_in(props).len(),
        forall|i: int|
            0 <= i < table.rows@.len() ==> (#[trigger] table.rows@[i]).shaded == is_shaded(i)
                && is_row_of_record(table.rows@[i].cells@, &records_in(props)[i]),
{
    let mut columns: Vec<Column> = Vec::new();
    push_column(&mut columns, "id", 100);
    push_column(&mut columns, "target_id", 400);
    push_column(&mut columns, "entry date", 250);
    push_column(&mut columns, "value", 250);
    let mut rows: Vec<Row> = Vec::new();
    if let Some(records) = props.progress_records {
        let mut i: usize = 0;
        while i < records.len()
            invariant
                i <= records.len(),
                records@ == records_in(props),
                rows@.len() == i,
                forall|j: int| 0 <= j < records@.len() ==> (#[trigger] records@[j]).entry_date.wf(),
                forall|j: int|
                    0 <= j < i ==> (#[trigger] rows@[j]).shaded == is_shaded(j) && is_row_of_record(
                        rows@[j].cells@,
                        &records@[j],
                    ),
            decreases records.len() - i,
        {
            let record = &records[i];
            let mut cells: Vec<String> = Vec::new();
            cells.push(integer_text(record.id));
            cells.push(integer_text(record.target_id));
            cells.push(record.entry_date.to_text());
            cells.push(amount_text(record.value));
            rows.push(Row { shaded: i % 2 != 0, cells });
            i = i + 1;
        }
    }
    Table { title: props.title.to_owned(), columns, rows }
}

} // verus!
