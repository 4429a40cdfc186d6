//! Targets, and the progress that logged records make towards them.
use crate::dates::{date_text, Date};
use crate::progress_records::ProgressRecord;
use crate::tables::{columns_are, is_shaded, push_column, Column, Row, Table};
use crate::text::{amount_text, amount_text_spec, integer_text, integer_text_spec};
use vstd::prelude::*;

verus! {

/// One whole unit, in the thousandths that every amount is held in.
pub const UNIT: i64 = 1000;

/// The largest size of a ratio's numerator.
pub const MAX_NUMERATOR: i128 = 0x1_0000_0000_0000_0000_0000;

/// How the current value of a target is read from its records.
#[derive(Clone, Copy, Debug, PartialEq, Eq, Structural)]
pub enum TargetType {
    /// Every logged record counts as one unit.
    Count,
    /// The highest logged value counts.
    Value,
}

/// The error of reading a target type from a text that names none.
#[derive(Clone, Copy, Debug, PartialEq, Eq, Structural)]
pub struct ParseTargetTypeError;

impl TargetType {
    /// The name of this target type, as `from_str` reads it.
    pub open spec fn name_spec(&self) -> Seq<char> {
        match *self {
            TargetType::Count => "count"@,
            TargetType::Value => "value"@,
        }
    }

    /// The name of this target type, as `from_str` reads it.
    pub fn name(&self) -> (text: &'static str)
        ensures
            text@ == self.name_spec(),
    {
        match self {
            TargetType::Count => "count",
            TargetType::Value => "value",
        }
    }

    /// The target type that `input` names: `count` or `value`, in lower
    /// case. Any other text is an error.
    pub fn from_str(input: &str) -> (parsed: Result<TargetType, ParseTargetTypeError>)
        ensures
            parsed == if input@ == "count"@ {
                Ok::<TargetType, ParseTargetTypeError>(TargetType::Count)
            } else if input@ == "value"@ {
                Ok::<TargetType, ParseTargetTypeError>(TargetType::Value)
            } else {
                Err::<TargetType, ParseTargetTypeError>(ParseTargetTypeError)
            },
    {
        let text: String = input.to_owned();
        if text == "count".to_owned() {
            Ok(TargetType::Count)
        } else if text == "value".to_owned() {
            Ok(TargetType::Value)
        } else {
            Err(ParseTargetTypeError)
        }
    }
}

/// The target type that the user asked for: the one that `input` names,
/// or a count target where nothing was given.
pub fn target_type_or_default(input: &Option<String>) -> (parsed: Result<
    TargetType,
    ParseTargetTypeError,
>)
    ensures
        parsed == match *input {
            Some(text) => if text@ == "count"@ {
                Ok::<TargetType, ParseTargetTypeError>(TargetType::Count)
            } else if text@ == "value"@ {
                Ok::<TargetType, ParseTargetTypeError>(TargetType::Value)
            } else {
                Err::<TargetType, ParseTargetTypeError>(ParseTargetTypeError)
            },
            None => Ok::<TargetType, ParseTargetTypeError>(TargetType::Count),
        },
{
    match input {
        Some(text) => TargetType::from_str(text.as_str()),
        None => Ok(TargetType::Count),
    }
}

/// The names of the two target types differ, so that `from_str` reads the
/// name of a type as that type.
pub proof fn lemma_name_names_its_type(target_type: TargetType)
    ensures
        (target_type.name_spec() == "count"@) == (target_type == TargetType::Count),
        (target_type.name_spec() == "value"@) == (target_type == TargetType::Value),
{
    reveal_strlit("count");
    reveal_strlit("value");
    assert("count"@[0] == 'c' && "value"@[0] == 'v');
}

impl std::str::FromStr for TargetType {
    type Err = ParseTargetTypeError;

    /// The target type that `input` names, as the function of the same
    /// name on the type itself reads it.
    fn from_str(input: &str) -> (parsed: Result<TargetType, ParseTargetTypeError>)
        ensures
            parsed == if input@ == "count"@ {
                Ok::<TargetType, ParseTargetTypeError>(TargetType::Count)
            } else if input@ == "value"@ {
                Ok::<TargetType, ParseTargetTypeError>(TargetType::Value)
            } else {
                Err::<TargetType, ParseTargetTypeError>(ParseTargetTypeError)
            },
    {
        TargetType::from_str(input)
    }
}

/// What can go wrong when progress is logged or computed.
#[derive(Clone, Copy, Debug, PartialEq, Eq, Structural)]
pub enum ProgressError {
    /// The target value is zero, so no ratio to it exists.
    InvalidTarget,
    /// No target has the id that was asked for.
    NotFound,
    /// A record lacks what its target's type needs.
    ValidationError,
    /// The store could not be read or written.
    StorageError,
}

impl ProgressError {
    /// The message to show the user for this error.
    pub fn message(&self) -> (text: String)
        ensures
            text@ == match *self {
                ProgressError::InvalidTarget => "the target value is zero: no progress towards it exists"@,
                ProgressError::NotFound => "no target has this id"@,
                ProgressError::ValidationError => "a count target needs an item name, a value target a value"@,
                ProgressError::StorageError => "the store could not be read or written"@,
            },
    {
        match self {
            ProgressError::InvalidTarget => "the target value is zero: no progress towards it exists".to_owned(),
            ProgressError::NotFound => "no target has this id".to_owned(),
            ProgressError::ValidationError => "a count target needs an item name, a value target a value".to_owned(),
            ProgressError::StorageError => "the store could not be read or written".to_owned(),
        }
    }
}

/// A goal to reach.
#[derive(Clone, Debug)]
pub struct Target {
    pub id: i64,
    pub name: String,
    pub target_date: Date,
    pub status: String,
    /// Where the target starts, in thousandths.
    pub start_value: i64,
    /// What is to be reached, in thousandths.
    pub target_value: i64,
    pub target_type: TargetType,
}

/// A target that is about to be stored: all of a target but the id, which
/// the store gives.
#[derive(Clone, Debug)]
pub struct NewTarget {
    pub name: String,
    pub target_date: Date,
    pub status: String,
    pub target_type: TargetType,
    pub start_value: i64,
    pub target_value: i64,
}

impl NewTarget {
    /// The target as it is once the store has given it the id `id`.
    pub fn with_id(self, id: i64) -> (target: Target)
        ensures
            target.id == id,
            target.name == self.name,
            target.target_date == self.target_date,
            target.status == self.status,
            target.target_type == self.target_type,
            target.start_value == self.start_value,
            target.target_value == self.target_value,
    {
        Target {
            id,
            name: self.name,
            target_date: self.target_date,
            status: self.status,
            start_value: self.start_value,
            target_value: self.target_value,
            target_type: self.target_type,
        }
    }
}

/// The target to store for what the user gave. Without a target date the
/// target is due on the last day of the year that `today` lies in; without
/// a start value it starts at zero. A new target is active.
pub fn create_target(
    name: &String,
    target_date: &Option<Date>,
    target_type: TargetType,
    start_value: &Option<i64>,
    target_value: &i64,
    today: Date,
) -> (created: NewTarget)
    requires
        today.wf(),
    ensures
        created.name@ == name@,
        created.target_date == match *target_date {
            Some(date) => date,
            None => (Date { year: today.year, month: 12, day: 31 }),
        },
        created.status@ == "active"@,
        created.target_type == target_type,
        created.start_value == match *start_value {
            Some(start) => start,
            None => 0i64,
        },
        created.target_value == *target_value,
{
    let last_date_this_year: Date = today.end_of_year();
    NewTarget {
        name: name.clone(),
        target_date: match target_date {
            Some(date) => *date,
            None => last_date_this_year,
        },
        status: "active".to_owned(),
        target_type,
        start_value: match start_value {
            Some(start) => *start,
            None => 0,
        },
        target_value: *target_value,
    }
}

/// An exact fraction: a current value over a target value.
#[derive(Clone, Copy, Debug, PartialEq, Eq, Structural)]
pub struct Ratio {
    pub numerator: i128,
    pub denominator: i64,
}

impl Ratio {
    /// A ratio is well formed when it has a denominator and its numerator
    /// is of a size that arithmetic on it has room for.
    pub open spec fn wf(&self) -> bool {
        &&& self.denominator != 0
        &&& -MAX_NUMERATOR <= self.numerator <= MAX_NUMERATOR
    }
}

/// The records among `records` that belong to the target `target_id`, in
/// their order.
pub open spec fn records_of(records: Seq<ProgressRecord>, target_id: i64) -> Seq<ProgressRecord> {
    records.filter(|r: ProgressRecord| r.target_id == target_id)
}

/// The values of the records that belong to the target `target_id`.
pub open spec fn values_of(records: Seq<ProgressRecord>, target_id: i64) -> Seq<int> {
    records_of(records, target_id).map_values(|r: ProgressRecord| r.value as int)
}

/// The current value of `target`, in thousandths: for a count target one
/// unit for each of its records, for a value target the highest value that
/// was logged, or the start value where nothing was logged.
pub open spec fn current_value_spec(target: &Target, records: Seq<ProgressRecord>) -> int {
    match target.target_type {
        TargetType::Count => records_of(records, target.id).len() * UNIT,
        TargetType::Value => if records_of(records, target.id).len() == 0 {
            target.start_value as int
        } else {
            values_of(records, target.id).max()
        },
    }
}

/// Whether `m` is the value of one of `own` and none of them has a higher one.
pub open spec fn is_highest(m: int, own: Seq<ProgressRecord>) -> bool {
    &&& exists|j: int| 0 <= j < own.len() && #[trigger] own[j].value == m
    &&& forall|j: int| 0 <= j < own.len() ==> #[trigger] own[j].value <= m
}

/// The records of a target among the first `i + 1` records are those among
/// the first `i`, followed by record `i` where it belongs to the target.
pub proof fn lemma_records_of_next(records: Seq<ProgressRecord>, i: int, target_id: i64)
    requires
        0 <= i < records.len(),
    ensures
        records_of(records.take(i + 1), target_id) == if records[i].target_id == target_id {
            records_of(records.take(i), target_id).push(records[i])
        } else {
            records_of(records.take(i), target_id)
        },
{
    reveal(Seq::filter);
    assert(records.take(i + 1).drop_last() =~= records.take(i));
    assert(records.take(i + 1).last() == records[i]);
}

/// The highest value among a target's records is the maximum of their values.
pub proof fn lemma_highest_is_max(m: int, records: Seq<ProgressRecord>, target_id: i64)
    requires
        is_highest(m, records_of(records, target_id)),
    ensures
        m == values_of(records, target_id).max(),
{
    let own = records_of(records, target_id);
    let values = values_of(records, target_id);
    values.max_ensures();
    let j = choose|j: int| 0 <= j < own.len() && #[trigger] own[j].value == m;
    assert(values[j] == m);
    let k = choose|k: int| 0 <= k < values.len() && values[k] == values.max();
    assert(own[k].value == values[k]);
}

/// The current value of `target` given all logged `records`, in thousandths.
pub fn current_value(target: &Target, records: &Vec<ProgressRecord>) -> (current: i128)
    ensures
        current == current_value_spec(target, records@),
        -MAX_NUMERATOR <= current <= MAX_NUMERATOR,
{
    let mut count: usize = 0;
    let mut best: Option<i64> = None;
    let mut i: usize = 0;
    proof {
        records@.take(0).lemma_filter_len(|r: ProgressRecord| r.target_id == target.id);
    }
    while i < records.len()
        invariant
            i <= records.len(),
            count <= i,
            count == records_of(records@.take(i as int), target.id).len(),
            best is None <==> count == 0,
            best matches Some(b) ==> is_highest(b as int, records_of(records@.take(i as int), target.id)),
        decreases records.len() - i,
    {
        proof {
            lemma_records_of_next(records@, i as int, target.id);
        }
        if records[i].target_id == target.id {
            let ghost before = records_of(records@.take(i as int), target.id);
            let ghost after = before.push(records@[i as int]);
            let v: i64 = records[i].value;
            let higher: i64 = match best {
                Some(b) => if v > b { v } else { b },
                None => v,
            };
            proof {
                assert(after[before.len() as int].value == v);
                assert forall|j: int| 0 <= j < after.len() implies #[trigger] after[j].value <= higher by {
                    if j < before.len() {
                        assert(after[j] == before[j]);
                    }
                }
                if let Some(b) = best {
                    let w = choose|w: int| 0 <= w < before.len() && #[trigger] before[w].value == b;
                    assert(after[w] == before[w]);
                }
            }
            best = Some(higher);
            count = count + 1;
        }
        i = i + 1;
    }
    proof {
        assert(records@.take(records.len() as int) =~= records@);
    }
    match target.target_type {
        TargetType::Count => {
            assert(0 <= (count as int) * (UNIT as int) <= 0xFFFF_FFFF_FFFF_FFFF * 1000) by (nonlinear_arith)
                requires
                    0 <= count <= u64::MAX,
                    UNIT == 1000,
            ;
            (count as i128) * (UNIT as i128)
        },
        TargetType::Value => match best {
            Some(b) => {
                proof {
                    lemma_highest_is_max(b as int, records@, target.id);
                }
                b as i128
            },
            None => target.start_value as i128,
        },
    }
}

/// The completion ratio of `target`: its current value over its target
/// value, not clamped. A target value of zero gives `InvalidTarget`.
pub open spec fn percentage_spec(target: &Target, records: Seq<ProgressRecord>) -> Result<
    Ratio,
    ProgressError,
> {
    if target.target_value == 0 {
        Err(ProgressError::InvalidTarget)
    } else {
        Ok(
            Ratio {
                numerator: current_value_spec(target, records) as i128,
                denominator: target.target_value,
            },
        )
    }
}

/// The completion ratio of `target` given all logged `records`.
pub fn percentage(target: &Target, records: &Vec<ProgressRecord>) -> (ratio: Result<
    Ratio,
    ProgressError,
>)
    ensures
        ratio == percentage_spec(target, records@),
        target.target_value == 0 <==> ratio == Err::<Ratio, ProgressError>(
            ProgressError::InvalidTarget,
        ),
        ratio matches Ok(r) ==> r.wf() && r.numerator == current_value_spec(target, records@)
            && r.denominator == target.target_value,
{
    if target.target_value == 0 {
        return Err(ProgressError::InvalidTarget);
    }
    let current: i128 = current_value(target, records);
    Ok(Ratio { numerator: current, denominator: target.target_value })
}

/// Where every one of `records` belongs to the target, all of them are its
/// records; where none does, it has none.
pub proof fn lemma_records_of_all_or_none(records: Seq<ProgressRecord>, target_id: i64)
    ensures
        (forall|i: int| 0 <= i < records.len() ==> (#[trigger] records[i]).target_id == target_id)
            ==> records_of(records, target_id) == records,
        (forall|i: int| 0 <= i < records.len() ==> (#[trigger] records[i]).target_id != target_id)
            ==> records_of(records, target_id).len() == 0,
    decreases records.len(),
{
    reveal(Seq::filter);
    if records.len() > 0 {
        let front = records.drop_last();
        lemma_records_of_all_or_none(front, target_id);
        if forall|i: int| 0 <= i < records.len() ==> (#[trigger] records[i]).target_id == target_id {
            assert forall|i: int| 0 <= i < front.len() implies (#[trigger] front[i]).target_id
                == target_id by {
                assert(front[i] == records[i]);
            }
            assert(records.last() == records[records.len() - 1]);
            assert(front.push(records.last()) =~= records);
        }
        if forall|i: int| 0 <= i < records.len() ==> (#[trigger] records[i]).target_id != target_id {
            assert forall|i: int| 0 <= i < front.len() implies (#[trigger] front[i]).target_id
                != target_id by {
                assert(front[i] == records[i]);
            }
            assert(records.last() == records[records.len() - 1]);
        }
    }
}

/// A count target with `n` logged records stands at `n` units, whatever
/// the values of the records are.
pub proof fn lemma_count_target_counts_records(target: &Target, records: Seq<ProgressRecord>)
    requires
        target.target_type == TargetType::Count,
        forall|i: int| 0 <= i < records.len() ==> (#[trigger] records[i]).target_id == target.id,
    ensures
        current_value_spec(target, records) == records.len() * UNIT,
{
    lemma_records_of_all_or_none(records, target.id);
}

/// A value target without records stands at its start value.
pub proof fn lemma_value_target_starts_at_start_value(
    target: &Target,
    records: Seq<ProgressRecord>,
)
    requires
        target.target_type == TargetType::Value,
        forall|i: int| 0 <= i < records.len() ==> (#[trigger] records[i]).target_id != target.id,
    ensures
        current_value_spec(target, records) == target.start_value,
{
    lemma_records_of_all_or_none(records, target.id);
}

/// The current value of a value target with records is the value of one of
/// them, and none of them has a higher one.
pub proof fn lemma_value_target_stands_at_highest(target: &Target, records: Seq<ProgressRecord>)
    requires
        target.target_type == TargetType::Value,
        records_of(records, target.id).len() > 0,
    ensures
        is_highest(current_value_spec(target, records), records_of(records, target.id)),
{
    let own = records_of(records, target.id);
    let values = values_of(records, target.id);
    values.max_ensures();
    let k = choose|k: int| 0 <= k < values.len() && values[k] == values.max();
    assert(own[k].value == values.max());
    assert forall|j: int| 0 <= j < own.len() implies #[trigger] own[j].value <= values.max() by {
        assert(values[j] == own[j].value);
    }
}

/// The current value of a target has room in a ratio's numerator, for as
/// many records as a vector can hold.
pub proof fn lemma_current_value_has_room(target: &Target, records: Seq<ProgressRecord>)
    requires
        records.len() <= usize::MAX,
    ensures
        -MAX_NUMERATOR <= current_value_spec(target, records) <= MAX_NUMERATOR,
{
    let own = records_of(records, target.id);
    records.lemma_filter_len(|r: ProgressRecord| r.target_id == target.id);
    assert(0 <= own.len() * UNIT <= 0xFFFF_FFFF_FFFF_FFFF * 1000) by (nonlinear_arith)
        requires
            0 <= own.len() <= 0xFFFF_FFFF_FFFF_FFFF,
            UNIT == 1000,
    ;
    if own.len() > 0 && target.target_type == TargetType::Value {
        lemma_value_target_stands_at_highest(target, records);
    }
}

/// The completion ratio is the current value over the target value, for
/// every target value but zero; zero always gives `InvalidTarget`.
pub proof fn lemma_percentage_is_current_over_target(
    target: &Target,
    records: Seq<ProgressRecord>,
)
    requires
        records.len() <= usize::MAX,
    ensures
        target.target_value == 0 ==> percentage_spec(target, records) == Err::<
            Ratio,
            ProgressError,
        >(ProgressError::InvalidTarget),
        target.target_value != 0 ==> percentage_spec(target, records) is Ok,
        percentage_spec(target, records) matches Ok(ratio) ==> {
            &&& ratio.wf()
            &&& ratio.numerator == current_value_spec(target, records)
            &&& ratio.denominator == target.target_value
        },
{
    lemma_current_value_has_room(target, records);
}

/// Whether one of `targets` has the id `id`.
pub open spec fn has_target(targets: Seq<Target>, id: i64) -> bool {
    exists|i: int| 0 <= i < targets.len() && #[trigger] targets[i].id == id
}

/// Whether `targets[i]` is the first of `targets` with the id `id`.
pub open spec fn is_first_with_id(targets: Seq<Target>, i: int, id: i64) -> bool {
    &&& 0 <= i < targets.len()
    &&& targets[i].id == id
    &&& forall|j: int| 0 <= j < i ==> #[trigger] targets[j].id != id
}

/// The target with the id `id`: the first of `targets` that has it, or
/// `NotFound` where none has.
pub fn get_target<'a>(targets: &'a Vec<Target>, id: i64) -> (found: Result<
    &'a Target,
    ProgressError,
>)
    ensures
        match found {
            Ok(t) => exists|i: int| is_first_with_id(targets@, i, id) && *t == targets@[i],
            Err(e) => e == ProgressError::NotFound && !has_target(targets@, id),
        },
{
    let mut i: usize = 0;
    while i < targets.len()
        invariant
            i <= targets.len(),
            forall|j: int| 0 <= j < i ==> #[trigger] targets@[j].id != id,
        decreases targets.len() - i,
    {
        if targets[i].id == id {
            assert(is_first_with_id(targets@, i as int, id));
            return Ok(&targets[i]);
        }
        i = i + 1;
    }
    Err(ProgressError::NotFound)
}

/// The completion ratio of the target with the id `id`.
pub open spec fn progress_for_target_spec(
    targets: Seq<Target>,
    records: Seq<ProgressRecord>,
    id: i64,
) -> Result<Ratio, ProgressError> {
    if has_target(targets, id) {
        percentage_spec(&targets[choose|i: int| is_first_with_id(targets, i, id)], records)
    } else {
        Err(ProgressError::NotFound)
    }
}

/// The completion ratio of the target with the id `target_id`: `NotFound`
/// where no target has that id, `InvalidTarget` where its target value is
/// zero.
pub fn get_progress_for_target(
    targets: &Vec<Target>,
    records: &Vec<ProgressRecord>,
    target_id: i64,
) -> (ratio: Result<Ratio, ProgressError>)
    ensures
        ratio == progress_for_target_spec(targets@, records@, target_id),
        ratio matches Ok(r) ==> r.wf(),
{
    match get_target(targets, target_id) {
        Ok(target) => {
            proof {
                let i = choose|i: int| is_first_with_id(targets@, i, target_id) && *target == targets@[i];
                let k = choose|k: int| is_first_with_id(targets@, k, target_id);
                assert(i == k);
            }
            percentage(target, records)
        },
        Err(e) => Err(e),
    }
}

/// One row of the dashboard: a target and how far it has come.
#[derive(Clone, Debug)]
pub struct TargetProgress {
    pub target_id: i64,
    pub percentage: Ratio,
    pub name: String,
    /// The target value, in thousandths.
    pub target_value: i64,
}

/// Whether `row` is the dashboard row of `target` given `records`.
pub open spec fn is_row_of(row: &TargetProgress, target: &Target, records: Seq<ProgressRecord>) -> bool {
    &&& row.target_id == target.id
    &&& row.name@ == target.name@
    &&& row.target_value == target.target_value
    &&& percentage_spec(target, records) == Ok::<Ratio, ProgressError>(row.percentage)
}

/// Whether every one of `targets` has a target value other than zero.
pub open spec fn all_have_target_value(targets: Seq<Target>) -> bool {
    forall|i: int| 0 <= i < targets.len() ==> #[trigger] targets[i].target_value != 0
}

/// The dashboard rows of all `targets`: one row for each target, in the
/// order of `targets`, whether or not it has records. Where one of the
/// targets has a target value of zero, `InvalidTarget`.
pub fn get_progress_for_all_targets(targets: &Vec<Target>, records: &Vec<ProgressRecord>) -> (rows:
    Result<Vec<TargetProgress>, ProgressError>)
    ensures
        match rows {
            Ok(rows) => {
                &&& all_have_target_value(targets@)
                &&& rows@.len() == targets@.len()
                &&& forall|i: int|
                    0 <= i < targets@.len() ==> is_row_of(
                        #[trigger] &rows@[i],
                        &targets@[i],
                        records@,
                    ) && rows@[i].percentage.wf()
            },
            Err(e) => e == ProgressError::InvalidTarget && !all_have_target_value(targets@),
        },
{
    let mut rows: Vec<TargetProgress> = Vec::new();
    let mut i: usize = 0;
    while i < targets.len()
        invariant
            i <= targets.len(),
            rows@.len() == i,
            forall|j: int| 0 <= j < i ==> #[trigger] targets@[j].target_value != 0,
            forall|j: int|
                0 <= j < i ==> is_row_of(#[trigger] &rows@[j], &targets@[j], records@)
                    && rows@[j].percentage.wf(),
        decreases targets.len() - i,
    {
        let target = &targets[i];
        match percentage(target, records) {
            Ok(ratio) => {
                rows.push(
                    TargetProgress {
                        target_id: target.id,
                        percentage: ratio,
                        name: target.name.clone(),
                        target_value: target.target_value,
                    },
                );
            },
            Err(e) => {
                return Err(ProgressError::InvalidTarget);
            },
        }
        i = i + 1;
    }
    Ok(rows)
}

/// `thousandths` in whole units, rounded to the nearest, a half to the
/// even neighbour.
pub open spec fn round_to_units(thousandths: int) -> int {
    let below = thousandths / (UNIT as int);
    let rest = thousandths % (UNIT as int);
    if rest > 500 || (rest == 500 && below % 2 != 0) {
        below + 1
    } else {
        below
    }
}

/// `thousandths` in whole units, rounded to the nearest, a half to the
/// even neighbour.
pub fn whole_units(thousandths: i64) -> (units: i64)
    ensures
        units == round_to_units(thousandths as int),
{
    let towards_zero: i64 = thousandths / 1000;
    let left: i64 = thousandths % 1000;
    // The floor and what lies above it, 0 to 999.
    let below: i64 = if left < 0 {
        towards_zero - 1
    } else {
        towards_zero
    };
    let rest: i64 = if left < 0 {
        left + 1000
    } else {
        left
    };
    assert(below == thousandths as int / 1000 && rest == thousandths as int % 1000) by {
        assert(thousandths == below * 1000 + rest && 0 <= rest < 1000);
        vstd::arithmetic::div_mod::lemma_fundamental_div_mod_converse(
            thousandths as int,
            1000,
            below as int,
            rest as int,
        );
    }
    if rest > 500 || (rest == 500 && below % 2 != 0) {
        below + 1
    } else {
        below
    }
}

/// What the table of targets is drawn from.
#[derive(Clone, Copy, Debug)]
pub struct TargetsTableProps<'a> {
    pub targets: Option<&'a Vec<Target>>,
    pub title: &'a str,
}

impl<'a> Default for TargetsTableProps<'a> {
    /// No targets and an empty title.
    fn default() -> (props: Self)
        ensures
            props.targets is None,
            props.title@ == Seq::<char>::empty(),
    {
        proof {
            reveal_strlit("");
        }
        let title: &'static str = "";
        assert(title@ =~= Seq::<char>::empty());
        TargetsTableProps { targets: None, title }
    }
}

/// The headings of the table of targets.
pub open spec fn targets_headings() -> Seq<Seq<char>> {
    seq!["id"@, "name"@, "target date"@, "status"@, "start"@, "target"@]
}

/// The widths of the columns of the table of targets.
pub open spec fn targets_widths() -> Seq<int> {
    seq![100, 250, 125, 125, 125, 125]
}

/// Whether `cells` are the texts of `target`: its id, name, target date,
/// status, start value and target value.
pub open spec fn is_row_of_target(cells: Seq<String>, target: &Target) -> bool {
    &&& cells.len() == 6
    &&& cells[0]@ == integer_text_spec(target.id as int)
    &&& cells[1]@ == target.name@
    &&& cells[2]@ == date_text(
        target.target_date.year as int,
        target.target_date.month as int,
        target.target_date.day as int,
    )
    &&& cells[3]@ == target.status@
    &&& cells[4]@ == amount_text_spec(target.start_value as int)
    &&& cells[5]@ == amount_text_spec(target.target_value as int)
}

/// The targets that `props` holds: none where it holds no list.
pub open spec fn targets_of<'a>(props: &TargetsTableProps<'a>) -> Seq<Target> {
    match props.targets {
        Some(targets) => targets@,
        None => Seq::<Target>::empty(),
    }
}

/// The table of targets: one row for each target, in their order, every
/// second row shaded.
#[allow(non_snake_case)]
pub fn TargetsTable<'a>(props: &TargetsTableProps<'a>) -> (table: Table)
    requires
        forall|i: int|
            0 <= i < targets_of(props).len() ==> (#[trigger] targets_of(props)[i]).target_date.wf(),
    ensures
        table.title@ == props.title@,
        columns_are(table.columns@, targets_headings(), targets_widths()),
        table.rows@.len() == targets_of(props).len(),
        forall|i: int|
            0 <= i < table.rows@.len() ==> (#[trigger] table.rows@[i]).shaded == is_shaded(i)
                && is_row_of_target(table.rows@[i].cells@, &targets_of(props)[i]),
{
    let mut columns: Vec<Column> = Vec::new();
    push_column(&mut columns, "id", 100);
    push_column(&mut columns, "name", 250);
    push_column(&mut columns, "target date", 125);
    push_column(&mut columns, "status", 125);
    push_column(&mut columns, "start", 125);
    push_column(&mut columns, "target", 125);
    let mut rows: Vec<Row> = Vec::new();
    if let Some(targets) = props.targets {
        let mut i: usize = 0;
        while i < targets.len()
            invariant
                i <= targets.len(),
                targets@ == targets_of(props),
                rows@.len() == i,
                forall|j: int| 0 <= j < targets@.len() ==> (#[trigger] targets@[j]).target_date.wf(),
                forall|j: int|
                    0 <= j < i ==> (#[trigger] rows@[j]).shaded == is_shaded(j) && is_row_of_target(
                        rows@[j].cells@,
                        &targets@[j],
                    ),
            decreases targets.len() - i,
        {
            let target = &targets[i];
            let mut cells: Vec<String> = Vec::new();
            cells.push(integer_text(target.id));
            cells.push(target.name.clone());
            cells.push(target.target_date.to_text());
            cells.push(target.status.clone());
            cells.push(amount_text(target.start_value));
            cells.push(amount_text(target.target_value));
            rows.push(Row { shaded: i % 2 != 0, cells });
            i = i + 1;
        }
    }
    Table { title: props.title.to_owned(), columns, rows }
}

} // verus!
