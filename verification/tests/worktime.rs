use clocktower::models::{UpdateEntry, WorktimeEntry};
use clocktower::store::{
    create_worktime_entry, delete_all_entries, delete_entry, delete_row_outcome, get_all_entries,
    insert_row_outcome, insert_worktime_entry, set_break, set_workday_finished,
    set_workday_finished_now, update_row_outcome, update_start_time, EntryStore, StoreError,
};
use clocktower::summary::{count_malformed_entries, summarize_entries, worked_duration};
use clocktower::timeval::{Day, Timestamp};

fn day(year: i32, month: u8, d: u8) -> Day {
    Day { year, month, day: d }
}

fn ts(secs: i64) -> Timestamp {
    Timestamp::from_secs(secs).unwrap()
}

fn entry(id: i32, d: Day, start: i64, end: Option<i64>, finished: bool, hadbreak: bool) -> WorktimeEntry {
    WorktimeEntry {
        id,
        day: d,
        start_time: ts(start),
        end_time: end.map(ts),
        finished,
        hadbreak,
    }
}

#[test]
fn worked_duration_subtracts_break_exactly() {
    // 09:00 to 17:30 with a break: 8h30m minus 30m.
    let e = entry(1, day(2024, 1, 2), 9 * 3600, Some(17 * 3600 + 1800), true, true);
    assert_eq!(worked_duration(&e).unwrap().secs, 8 * 3600);
    // The same span without a break is the bare difference.
    let e2 = entry(1, day(2024, 1, 2), 9 * 3600, Some(17 * 3600 + 1800), true, false);
    assert_eq!(worked_duration(&e2).unwrap().secs, 8 * 3600 + 1800);
}

#[test]
fn worked_duration_none_for_unfinished_or_malformed() {
    let open = entry(1, day(2024, 1, 2), 100, None, false, false);
    assert!(worked_duration(&open).is_none());
    let missing_end = entry(1, day(2024, 1, 2), 100, None, true, false);
    assert!(worked_duration(&missing_end).is_none());
    let backwards = entry(1, day(2024, 1, 2), 200, Some(100), true, false);
    assert!(worked_duration(&backwards).is_none());
}

#[test]
fn overtime_per_entry_and_aggregate_agree() {
    let entries = vec![
        entry(1, day(2024, 1, 2), 9 * 3600, Some(17 * 3600 + 1800), true, true),
        entry(2, day(2024, 1, 3), 8 * 3600, Some(18 * 3600), true, false),
    ];
    let summary = summarize_entries(&entries);
    let aggregate = summary.overtime().secs;
    let per_entry: i64 = entries
        .iter()
        .map(|e| worked_duration(e).unwrap().secs - 8 * 3600)
        .sum();
    assert_eq!(aggregate, per_entry);
    assert_eq!(aggregate, 7200);
}

#[test]
fn summary_of_nothing_is_zero() {
    let entries: Vec<WorktimeEntry> = Vec::new();
    let summary = summarize_entries(&entries);
    assert_eq!(summary.total_duration.secs, 0);
    assert_eq!(summary.num_workdays, 0);
    assert_eq!(summary.overtime().secs, 0);
}

#[test]
fn unfinished_entries_contribute_nothing() {
    let entries = vec![entry(1, day(2024, 1, 2), 100, None, false, false)];
    let summary = summarize_entries(&entries);
    assert_eq!(summary.num_workdays, 0);
    assert_eq!(summary.total_duration.secs, 0);
}

#[test]
fn scenario_single_day_with_break() {
    // {day: 2024-01-02, start: 09:00, end: 17:30, hadbreak: true}
    let e = entry(1, day(2024, 1, 2), 9 * 3600, Some(17 * 3600 + 1800), true, true);
    let one = vec![e];
    let s1 = summarize_entries(&one);
    assert_eq!(s1.total_duration.secs, 8 * 3600);
    assert_eq!(s1.overtime().secs, 0);

    let two = vec![e, entry(2, day(2024, 1, 3), 9 * 3600, Some(17 * 3600 + 1800), true, true)];
    let s2 = summarize_entries(&two);
    assert_eq!(s2.total_duration.secs, 16 * 3600);
    assert_eq!(s2.overtime().secs, 0);

    let no_break = vec![entry(1, day(2024, 1, 2), 9 * 3600, Some(17 * 3600 + 1800), true, false)];
    let s3 = summarize_entries(&no_break);
    assert_eq!(s3.total_duration.secs, 8 * 3600 + 1800);
    assert_eq!(s3.overtime().secs, 1800);
}

#[test]
fn backwards_entry_is_flagged_not_summed() {
    let bad = entry(1, day(2024, 1, 2), 17 * 3600, Some(9 * 3600), true, false);
    let entries = vec![bad];
    assert_eq!(count_malformed_entries(&entries), 1);
    let summary = summarize_entries(&entries);
    assert_eq!(summary.total_duration.secs, 0);
}

#[test]
fn builder_only_touches_chosen_fields() {
    let patch = UpdateEntry::new().hadbreak(true).done();
    assert!(patch.start_time.is_none());
    assert!(patch.end_time.is_none());
    assert!(patch.finished.is_none());
    assert_eq!(patch.hadbreak, Some(true));

    // Applying the sparse patch must not null out existing values.
    let e = entry(1, day(2024, 1, 2), 100, Some(200), true, false);
    let patched = clocktower::store::apply_update(e, &patch);
    assert_eq!(patched.start_time, e.start_time);
    assert_eq!(patched.end_time, e.end_time);
    assert_eq!(patched.finished, e.finished);
    assert!(patched.hadbreak);
}

#[test]
fn builder_finished_at_sets_both_fields() {
    let patch = UpdateEntry::new().finished_at(ts(500)).done();
    assert_eq!(patch.end_time, Some(ts(500)));
    assert_eq!(patch.finished, Some(true));
    assert!(patch.start_time.is_none());
    assert!(patch.hadbreak.is_none());
}

#[test]
fn builder_start_and_end_setters() {
    let patch = UpdateEntry::new().start_time(ts(5)).end_time(ts(9)).finished(false).done();
    assert_eq!(patch.start_time, Some(ts(5)));
    assert_eq!(patch.end_time, Some(ts(9)));
    assert_eq!(patch.finished, Some(false));
    assert!(patch.hadbreak.is_none());
}

#[test]
fn create_then_finish_round_trip() {
    let mut store = EntryStore::new();
    let d = day(2024, 1, 2);
    let start = ts(9 * 3600);
    let end = ts(17 * 3600 + 1800);
    assert_eq!(insert_worktime_entry(&mut store, d, start, None, false), Ok(true));
    assert_eq!(set_workday_finished(&mut store, d, end, true), Ok(true));
    let all = get_all_entries(&store);
    let for_day: Vec<&WorktimeEntry> = all.iter().filter(|e| e.day == d).collect();
    assert_eq!(for_day.len(), 1);
    let e = for_day[0];
    assert_eq!(e.start_time, start);
    assert_eq!(e.end_time, Some(end));
    assert!(e.finished);
    assert!(e.hadbreak);
}

#[test]
fn set_break_is_idempotent() {
    let mut store = EntryStore::new();
    let d = day(2024, 3, 4);
    create_worktime_entry(&mut store, d, ts(100), None, false).unwrap();
    assert_eq!(set_break(&mut store, d), Ok(true));
    let after_once = get_all_entries(&store);
    assert_eq!(set_break(&mut store, d), Ok(true));
    let after_twice = get_all_entries(&store);
    assert_eq!(after_once, after_twice);
    assert!(after_twice[0].hadbreak);
}

#[test]
fn updates_on_missing_day_report_entry_not_found() {
    let mut store = EntryStore::new();
    let d = day(2024, 3, 4);
    assert_eq!(set_break(&mut store, d), Err(StoreError::EntryNotFound));
    assert_eq!(
        set_workday_finished(&mut store, d, ts(100), false),
        Err(StoreError::EntryNotFound)
    );
    assert_eq!(update_start_time(&mut store, d, ts(50)), Err(StoreError::EntryNotFound));
}

#[test]
fn update_start_time_changes_only_start() {
    let mut store = EntryStore::new();
    let d = day(2024, 3, 4);
    create_worktime_entry(&mut store, d, ts(100), Some(ts(900)), true).unwrap();
    assert_eq!(update_start_time(&mut store, d, ts(50)), Ok(true));
    let all = get_all_entries(&store);
    assert_eq!(all[0].start_time, ts(50));
    assert_eq!(all[0].end_time, Some(ts(900)));
    assert!(all[0].finished);
    assert!(all[0].hadbreak);
}

#[test]
fn finish_now_uses_the_given_moment() {
    let mut store = EntryStore::new();
    let d = day(2024, 3, 4);
    create_worktime_entry(&mut store, d, ts(100), None, false).unwrap();
    assert_eq!(set_workday_finished_now(&mut store, d, ts(700), false), Ok(true));
    let all = get_all_entries(&store);
    assert_eq!(all[0].end_time, Some(ts(700)));
    assert!(all[0].finished);
}

#[test]
fn duplicate_day_is_a_persistence_failure() {
    let mut store = EntryStore::new();
    let d = day(2024, 3, 4);
    assert_eq!(insert_worktime_entry(&mut store, d, ts(100), None, false), Ok(true));
    assert_eq!(
        insert_worktime_entry(&mut store, d, ts(200), None, false),
        Err(StoreError::PersistenceError)
    );
    assert_eq!(get_all_entries(&store).len(), 1);
}

#[test]
fn create_returns_the_stored_entry() {
    let mut store = EntryStore::new();
    let d = day(2024, 3, 4);
    let e = create_worktime_entry(&mut store, d, ts(100), Some(ts(300)), false).unwrap();
    assert_eq!(e.day, d);
    assert_eq!(e.start_time, ts(100));
    assert_eq!(e.end_time, Some(ts(300)));
    assert!(e.finished);
    assert!(!e.hadbreak);
    assert_eq!(get_all_entries(&store)[0], e);
}

#[test]
fn delete_on_missing_day_is_a_reported_no_op() {
    let mut store = EntryStore::new();
    assert_eq!(delete_entry(&mut store, day(2024, 3, 4)), Ok(false));
    assert_eq!(delete_all_entries(&mut store), Ok(false));
}

#[test]
fn delete_removes_exactly_the_given_day() {
    let mut store = EntryStore::new();
    let d1 = day(2024, 3, 4);
    let d2 = day(2024, 3, 5);
    create_worktime_entry(&mut store, d1, ts(100), None, false).unwrap();
    create_worktime_entry(&mut store, d2, ts(200), None, false).unwrap();
    assert_eq!(delete_entry(&mut store, d1), Ok(true));
    let all = get_all_entries(&store);
    assert_eq!(all.len(), 1);
    assert_eq!(all[0].day, d2);
    assert_eq!(delete_all_entries(&mut store), Ok(true));
    assert!(get_all_entries(&store).is_empty());
}

#[test]
fn row_count_outcomes_follow_the_store_policy() {
    assert_eq!(insert_row_outcome(1), Ok(true));
    assert_eq!(insert_row_outcome(0), Err(StoreError::PersistenceError));
    assert_eq!(update_row_outcome(1), Ok(true));
    assert_eq!(update_row_outcome(0), Err(StoreError::EntryNotFound));
    assert_eq!(update_row_outcome(2), Err(StoreError::PersistenceError));
    assert_eq!(delete_row_outcome(0), Ok(false));
    assert_eq!(delete_row_outcome(3), Ok(true));
}

#[test]
fn timestamps_reject_magnitudes_beyond_the_bound() {
    assert!(Timestamp::from_secs(clocktower::timeval::TIMESTAMP_BOUND).is_some());
    assert!(Timestamp::from_secs(-clocktower::timeval::TIMESTAMP_BOUND).is_some());
    assert!(Timestamp::from_secs(clocktower::timeval::TIMESTAMP_BOUND + 1).is_none());
    assert_eq!(ts(1234).secs(), 1234);
}
