use nyr::dates::{Date, MAX_YEAR, MIN_YEAR};
use nyr::progress_records::create_progress_record;
use nyr::targets::{
    create_target, target_type_or_default, ParseTargetTypeError, ProgressError, Target, TargetType,
};
use std::str::FromStr;

fn date(year: i32, month: u32, day: u32) -> Date {
    Date::from_ymd_opt(year, month, day).unwrap()
}

fn targets() -> Vec<Target> {
    let today = date(2025, 6, 1);
    vec![
        create_target(&String::from("books"), &None, TargetType::Count, &None, &12_000, today)
            .with_id(1),
        create_target(&String::from("savings"), &None, TargetType::Value, &Some(500), &50_000, today)
            .with_id(2),
    ]
}

#[test]
fn dates_the_calendar_has() {
    assert_eq!(Date::from_ymd_opt(2015, 3, 14), Some(Date { year: 2015, month: 3, day: 14 }));
    assert_eq!(Date::from_ymd_opt(2024, 2, 29), Some(Date { year: 2024, month: 2, day: 29 }));
    assert_eq!(Date::from_ymd_opt(2000, 2, 29), Some(Date { year: 2000, month: 2, day: 29 }));
    assert_eq!(Date::from_ymd_opt(-4, 2, 29), Some(Date { year: -4, month: 2, day: 29 }));
    assert_eq!(Date::from_ymd_opt(MAX_YEAR, 12, 31), Some(Date { year: MAX_YEAR, month: 12, day: 31 }));
    assert_eq!(Date::from_ymd_opt(MIN_YEAR, 1, 1), Some(Date { year: MIN_YEAR, month: 1, day: 1 }));
}

#[test]
fn dates_the_calendar_lacks() {
    assert_eq!(Date::from_ymd_opt(2015, 0, 14), None);
    assert_eq!(Date::from_ymd_opt(2015, 13, 14), None);
    assert_eq!(Date::from_ymd_opt(2015, 3, 0), None);
    assert_eq!(Date::from_ymd_opt(2015, 2, 29), None);
    assert_eq!(Date::from_ymd_opt(1900, 2, 29), None);
    assert_eq!(Date::from_ymd_opt(2023, 4, 31), None);
    assert_eq!(Date::from_ymd_opt(2023, 1, 32), None);
    assert_eq!(Date::from_ymd_opt(MAX_YEAR + 1, 1, 1), None);
    assert_eq!(Date::from_ymd_opt(MIN_YEAR - 1, 12, 31), None);
    assert_eq!(Date::from_ymd_opt(400000, 1, 1), None);
}

#[test]
fn end_of_year_is_last_of_december() {
    assert_eq!(date(2025, 6, 1).end_of_year(), Date { year: 2025, month: 12, day: 31 });
    assert_eq!(date(2024, 12, 31).end_of_year(), Date { year: 2024, month: 12, day: 31 });
}

#[test]
fn target_type_from_text() {
    assert_eq!(TargetType::from_str("count"), Ok(TargetType::Count));
    assert_eq!(TargetType::from_str("value"), Ok(TargetType::Value));
    assert_eq!(TargetType::from_str("Count"), Err(ParseTargetTypeError));
    assert_eq!(TargetType::from_str(""), Err(ParseTargetTypeError));
    assert_eq!(TargetType::from_str("values"), Err(ParseTargetTypeError));
    assert_eq!("value".parse::<TargetType>(), Ok(TargetType::Value));
    assert_eq!(<TargetType as FromStr>::from_str("sum"), Err(ParseTargetTypeError));
}

#[test]
fn new_target_gets_defaults() {
    let created = create_target(
        &String::from("read"),
        &None,
        TargetType::Count,
        &None,
        &12_000,
        date(2025, 3, 9),
    );
    assert_eq!(created.name, "read");
    assert_eq!(created.target_date, Date { year: 2025, month: 12, day: 31 });
    assert_eq!(created.status, "active");
    assert_eq!(created.target_type, TargetType::Count);
    assert_eq!(created.start_value, 0);
    assert_eq!(created.target_value, 12_000);
}

#[test]
fn new_target_keeps_what_was_given() {
    let created = create_target(
        &String::from("save"),
        &Some(date(2026, 2, 28)),
        TargetType::Value,
        &Some(1_500),
        &90_000,
        date(2025, 3, 9),
    );
    assert_eq!(created.target_date, Date { year: 2026, month: 2, day: 28 });
    assert_eq!(created.target_type, TargetType::Value);
    assert_eq!(created.start_value, 1_500);
    assert_eq!(created.target_value, 90_000);
    let stored = created.with_id(17);
    assert_eq!(stored.id, 17);
    assert_eq!(stored.name, "save");
    assert_eq!(stored.status, "active");
    assert_eq!(stored.start_value, 1_500);
}

#[test]
fn record_for_count_target() {
    let today = date(2025, 7, 2);
    let created = create_progress_record(
        &targets(),
        &1,
        &None,
        &None,
        &Some(String::from("Dune")),
        today,
    )
    .unwrap();
    assert_eq!(created.target_id, 1);
    assert_eq!(created.entry_date, today);
    assert_eq!(created.value, None);
    assert_eq!(created.item_name, Some(String::from("Dune")));
    let stored = created.with_id(3);
    assert_eq!(stored.id, 3);
    assert_eq!(stored.target_id, 1);
    assert_eq!(stored.value, 0);
}

#[test]
fn record_for_value_target() {
    let created = create_progress_record(
        &targets(),
        &2,
        &Some(date(2025, 1, 31)),
        &Some(7_250),
        &None,
        date(2025, 7, 2),
    )
    .unwrap();
    assert_eq!(created.target_id, 2);
    assert_eq!(created.entry_date, Date { year: 2025, month: 1, day: 31 });
    assert_eq!(created.value, Some(7_250));
    assert_eq!(created.item_name, None);
    assert_eq!(created.with_id(8).value, 7_250);
}

#[test]
fn record_for_unknown_target_is_not_found() {
    let created =
        create_progress_record(&targets(), &3, &None, &Some(1), &Some(String::from("x")), date(2025, 7, 2));
    assert_eq!(created.err(), Some(ProgressError::NotFound));
}

#[test]
fn record_without_item_name_for_count_target_is_refused() {
    let created = create_progress_record(&targets(), &1, &None, &Some(1_000), &None, date(2025, 7, 2));
    assert_eq!(created.err(), Some(ProgressError::ValidationError));
}

#[test]
fn record_without_value_for_value_target_is_refused() {
    let created = create_progress_record(
        &targets(),
        &2,
        &None,
        &None,
        &Some(String::from("deposit")),
        date(2025, 7, 2),
    );
    assert_eq!(created.err(), Some(ProgressError::ValidationError));
}

#[test]
fn target_type_defaults_to_count() {
    assert_eq!(target_type_or_default(&None), Ok(TargetType::Count));
    assert_eq!(target_type_or_default(&Some(String::from("value"))), Ok(TargetType::Value));
    assert_eq!(target_type_or_default(&Some(String::from("count"))), Ok(TargetType::Count));
    assert_eq!(target_type_or_default(&Some(String::from("VALUE"))), Err(ParseTargetTypeError));
}

#[test]
fn target_type_name_is_read_back() {
    for target_type in [TargetType::Count, TargetType::Value] {
        assert_eq!(TargetType::from_str(target_type.name()), Ok(target_type));
    }
    assert_eq!(TargetType::Count.name(), "count");
    assert_eq!(TargetType::Value.name(), "value");
}
