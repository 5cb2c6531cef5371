//! The entry store: a transactional table of worktime entries keyed by
//! calendar day, with at most one entry per day, and the lifecycle
//! operations that create, patch and delete entries.

use vstd::prelude::*;

use crate::models::{
    apply_patch, days_unique, has_day, patch_day, NewEntry, UpdateEntry, WorktimeEntry,
};
use crate::timeval::{Day, Timestamp};

verus! {

/// Most entries the store will hold.  One entry covers one calendar
/// day, and the summary engine counts workdays in a `u16`, so the
/// count of entries must stay within that type.
pub const MAX_ENTRIES: usize = 65535;

/// How a store operation fails.
#[derive(Clone, Copy, PartialEq, Eq, Structural, Debug)]
pub enum StoreError {
    /// A targeted update or delete addressed a day with no matching
    /// entry.
    EntryNotFound,
    /// The underlying write failed for a reason other than "no match":
    /// a uniqueness violation or an exhausted store.
    PersistenceError,
}

/// A table of worktime entries, keyed by day.  Its view is the
/// sequence of entries in insertion order.
pub struct EntryStore {
    entries: Vec<WorktimeEntry>,
    next_id: i32,
}

impl View for EntryStore {
    type V = Seq<WorktimeEntry>;

    closed spec fn view(&self) -> Seq<WorktimeEntry> {
        self.entries@
    }
}

impl EntryStore {
    /// Every day appears at most once, and the entry count leaves the
    /// workday count representable.
    pub open spec fn wf(&self) -> bool {
        days_unique(self@) && self@.len() <= MAX_ENTRIES
    }

    /// The surrogate id the next successful insert will assign.
    pub closed spec fn spec_next_id(&self) -> i32 {
        self.next_id
    }

    /// An empty store.
    pub fn new() -> (s: EntryStore)
        ensures
            s@ == Seq::<WorktimeEntry>::empty(),
            s.wf(),
            s.spec_next_id() == 1,
    {
        EntryStore { entries: Vec::new(), next_id: 1 }
    }

}

/// The entry a successful insert of `new_entry` appends, given the id
/// the store assigns.
pub open spec fn inserted_entry(new_entry: NewEntry, id: i32) -> WorktimeEntry {
    WorktimeEntry {
        id,
        day: new_entry.day,
        start_time: new_entry.start_time,
        end_time: new_entry.end_time,
        finished: new_entry.finished,
        hadbreak: new_entry.hadbreak,
    }
}

/// Whether an insert of a row for `date` into a store with contents
/// `s` and next id `next_id` succeeds: the day must be fresh, the
/// store not full, and a surrogate id still available.
pub open spec fn insert_succeeds(s: Seq<WorktimeEntry>, next_id: i32, date: Day) -> bool {
    &&& !has_day(s, date)
    &&& s.len() < MAX_ENTRIES
    &&& next_id < i32::MAX
}

/// Inserts a new entry for `date`.  The `finished` flag is derived
/// from the presence of `end_time`; the store assigns the id and
/// returns the stored entry.  A duplicate day, a full store or an
/// exhausted id counter is a persistence failure that leaves the
/// store unchanged.
#[verifier::loop_isolation(false)]
pub fn create_worktime_entry(
    store: &mut EntryStore,
    date: Day,
    start_time: Timestamp,
    end_time: Option<Timestamp>,
    hadbreak: bool,
) -> (r: Result<WorktimeEntry, StoreError>)
    requires
        old(store).wf(),
    ensures
        final(store).wf(),
        r is Ok <==> insert_succeeds(old(store)@, old(store).spec_next_id(), date),
        r is Ok ==> {
            let e = inserted_entry(
                NewEntry { day: date, start_time, end_time, finished: end_time is Some, hadbreak },
                old(store).spec_next_id(),
            );
            &&& r == Ok::<WorktimeEntry, StoreError>(e)
            &&& final(store)@ == old(store)@.push(e)
            &&& final(store).spec_next_id() == old(store).spec_next_id() + 1
        },
        r is Err ==> {
            &&& r == Err::<WorktimeEntry, StoreError>(StoreError::PersistenceError)
            &&& final(store)@ == old(store)@
            &&& final(store).spec_next_id() == old(store).spec_next_id()
        },
{
    let n = store.entries.len();
    if n >= MAX_ENTRIES || store.next_id == i32::MAX {
        return Err(StoreError::PersistenceError);
    }
    let mut i: usize = 0;
    while i < n
        invariant
            n == store.entries@.len(),
            forall|j: int| 0 <= j < i ==> store.entries@[j].day != date,
        decreases n - i,
    {
        if store.entries[i].day == date {
            proof {
                assert(has_day(old(store)@, date));
            }
            return Err(StoreError::PersistenceError);
        }
        i += 1;
    }
    let entry = WorktimeEntry {
        id: store.next_id,
        day: date,
        start_time,
        end_time,
        finished: end_time.is_some(),
        hadbreak,
    };
    store.entries.push(entry);
    store.next_id = store.next_id + 1;
    Ok(entry)
}

/// Inserts a new entry for `date`, reporting only whether exactly one
/// row was written.
pub fn insert_worktime_entry(
    store: &mut EntryStore,
    date: Day,
    start_time: Timestamp,
    end_time: Option<Timestamp>,
    hadbreak: bool,
) -> (r: Result<bool, StoreError>)
    requires
        old(store).wf(),
    ensures
        final(store).wf(),
        r is Ok <==> insert_succeeds(old(store)@, old(store).spec_next_id(), date),
        r is Ok ==> {
            let e = inserted_entry(
                NewEntry { day: date, start_time, end_time, finished: end_time is Some, hadbreak },
                old(store).spec_next_id(),
            );
            &&& r == Ok::<bool, StoreError>(true)
            &&& final(store)@ == old(store)@.push(e)
            &&& final(store).spec_next_id() == old(store).spec_next_id() + 1
        },
        r is Err ==> {
            &&& r == Err::<bool, StoreError>(StoreError::PersistenceError)
            &&& final(store)@ == old(store)@
            &&& final(store).spec_next_id() == old(store).spec_next_id()
        },
{
    match create_worktime_entry(store, date, start_time, end_time, hadbreak) {
        Ok(_) => Ok(true),
        Err(e) => Err(e),
    }
}

/// The exec twin of `apply_patch`: merges the sparse patch `update`
/// into `entry`, leaving fields the patch does not carry untouched.
pub fn apply_update(entry: WorktimeEntry, update: &UpdateEntry) -> (r: WorktimeEntry)
    ensures
        r == apply_patch(entry, *update),
{
    WorktimeEntry {
        id: entry.id,
        day: entry.day,
        start_time: match update.start_time {
            Some(t) => t,
            None => entry.start_time,
        },
        end_time: match update.end_time {
            Some(t) => Some(t),
            None => entry.end_time,
        },
        finished: match update.finished {
            Some(f) => f,
            None => entry.finished,
        },
        hadbreak: match update.hadbreak {
            Some(b) => b,
            None => entry.hadbreak,
        },
    }
}

/// Applies `update` to the entry for `date`.  Exactly the rows whose
/// day matches are patched; a missing day is reported as
/// `EntryNotFound` and patches nothing.
#[verifier::loop_isolation(false)]
fn generic_update(store: &mut EntryStore, date: Day, update: &UpdateEntry) -> (r: Result<
    bool,
    StoreError,
>)
    requires
        old(store).wf(),
    ensures
        final(store).wf(),
        final(store)@ == patch_day(old(store)@, date, *update),
        final(store).spec_next_id() == old(store).spec_next_id(),
        r == (if has_day(old(store)@, date) {
            Ok::<bool, StoreError>(true)
        } else {
            Err::<bool, StoreError>(StoreError::EntryNotFound)
        }),
{
    let ghost orig = store.entries@;
    let n = store.entries.len();
    let mut found = false;
    let mut i: usize = 0;
    while i < n
        invariant
            n == store.entries@.len(),
            n == orig.len(),
            forall|j: int|
                0 <= j < i ==> store.entries@[j] == (if orig[j].day == date {
                    apply_patch(orig[j], *update)
                } else {
                    orig[j]
                }),
            forall|j: int| i <= j < n ==> store.entries@[j] == orig[j],
            i <= n,
            found <==> exists|j: int| 0 <= j < i && orig[j].day == date,
            store.spec_next_id() == old(store).spec_next_id(),
        decreases n - i,
    {
        let e = store.entries[i];
        if e.day == date {
            let patched = apply_update(e, update);
            store.entries.set(i, patched);
            found = true;
        }
        i += 1;
    }
    proof {
        assert(store.entries@ =~= patch_day(orig, date, *update));
        assert forall|a: int, b: int| 0 <= a < b < store.entries@.len() implies store.entries@[a].day
            != store.entries@[b].day by {
            assert(store.entries@[a].day == orig[a].day);
            assert(store.entries@[b].day == orig[b].day);
        }
        if found {
            assert(has_day(orig, date));
        } else {
            assert(forall|j: int| 0 <= j < orig.len() ==> orig[j].day != date);
        }
    }
    if found {
        Ok(true)
    } else {
        Err(StoreError::EntryNotFound)
    }
}

/// Closes the workday `date`: records `end_time`, marks it finished,
/// and records whether a break was taken.
pub fn set_workday_finished(
    store: &mut EntryStore,
    date: Day,
    end_time: Timestamp,
    hadbreak: bool,
) -> (r: Result<bool, StoreError>)
    requires
        old(store).wf(),
    ensures
        final(store).wf(),
        final(store)@ == patch_day(
            old(store)@,
            date,
            (UpdateEntry {
                start_time: None,
                end_time: Some(end_time),
                finished: Some(true),
                hadbreak: Some(hadbreak),
            }),
        ),
        final(store).spec_next_id() == old(store).spec_next_id(),
        r == (if has_day(old(store)@, date) {
            Ok::<bool, StoreError>(true)
        } else {
            Err::<bool, StoreError>(StoreError::EntryNotFound)
        }),
{
    generic_update(
        store,
        date,
        &UpdateEntry::new().finished_at(end_time).hadbreak(hadbreak).done(),
    )
}

/// Closes the workday `date` at the current moment, handed in as
/// `now`.
pub fn set_workday_finished_now(
    store: &mut EntryStore,
    date: Day,
    now: Timestamp,
    hadbreak: bool,
) -> (r: Result<bool, StoreError>)
    requires
        old(store).wf(),
    ensures
        final(store).wf(),
        final(store)@ == patch_day(
            old(store)@,
            date,
            (UpdateEntry {
                start_time: None,
                end_time: Some(now),
                finished: Some(true),
                hadbreak: Some(hadbreak),
            }),
        ),
        final(store).spec_next_id() == old(store).spec_next_id(),
        r == (if has_day(old(store)@, date) {
            Ok::<bool, StoreError>(true)
        } else {
            Err::<bool, StoreError>(StoreError::EntryNotFound)
        }),
{
    set_workday_finished(store, date, now, hadbreak)
}

/// Corrects the start time of the entry for `date`.
pub fn update_start_time(store: &mut EntryStore, date: Day, start_time: Timestamp) -> (r: Result<
    bool,
    StoreError,
>)
    requires
        old(store).wf(),
    ensures
        final(store).wf(),
        final(store)@ == patch_day(
            old(store)@,
            date,
            (UpdateEntry {
                start_time: Some(start_time),
                end_time: None,
                finished: None,
                hadbreak: None,
            }),
        ),
        final(store).spec_next_id() == old(store).spec_next_id(),
        r == (if has_day(old(store)@, date) {
            Ok::<bool, StoreError>(true)
        } else {
            Err::<bool, StoreError>(StoreError::EntryNotFound)
        }),
{
    generic_update(store, date, &UpdateEntry::new().start_time(start_time).done())
}

/// Records that a break was taken on `date`.
pub fn set_break(store: &mut EntryStore, date: Day) -> (r: Result<bool, StoreError>)
    requires
        old(store).wf(),
    ensures
        final(store).wf(),
        final(store)@ == patch_day(
            old(store)@,
            date,
            (UpdateEntry { start_time: None, end_time: None, finished: None, hadbreak: Some(true) }),
        ),
        final(store).spec_next_id() == old(store).spec_next_id(),
        r == (if has_day(old(store)@, date) {
            Ok::<bool, StoreError>(true)
        } else {
            Err::<bool, StoreError>(StoreError::EntryNotFound)
        }),
{
    generic_update(store, date, &UpdateEntry::new().hadbreak(true).done())
}

/// Removes the entry for `date`.  A missing day is a reported
/// "no rows affected" outcome, `Ok(false)`, not an error.
#[verifier::loop_isolation(false)]
pub fn delete_entry(store: &mut EntryStore, date: Day) -> (r: Result<bool, StoreError>)
    requires
        old(store).wf(),
    ensures
        final(store).wf(),
        final(store).spec_next_id() == old(store).spec_next_id(),
        r == Ok::<bool, StoreError>(has_day(old(store)@, date)),
        !has_day(old(store)@, date) ==> final(store)@ == old(store)@,
        has_day(old(store)@, date) ==> exists|k: int|
            0 <= k < old(store)@.len() && old(store)@[k].day == date && final(store)@ == old(
                store,
            )@.remove(k),
{
    let n = store.entries.len();
    let mut i: usize = 0;
    while i < n
        invariant
            n == store.entries@.len(),
            forall|j: int| 0 <= j < i ==> store.entries@[j].day != date,
            store.entries@ == old(store)@,
            store.spec_next_id() == old(store).spec_next_id(),
        decreases n - i,
    {
        if store.entries[i].day == date {
            let ghost orig = store.entries@;
            store.entries.remove(i);
            proof {
                assert(has_day(orig, date));
                orig.remove_ensures(i as int);
                let rem = orig.remove(i as int);
                assert(store.entries@ == rem);
                assert forall|a: int, b: int|
                    0 <= a < b < rem.len() implies rem[a].day != rem[b].day by {
                    assert(rem[a] == if a < i {
                        orig[a]
                    } else {
                        orig[a + 1]
                    });
                    assert(rem[b] == if b < i {
                        orig[b]
                    } else {
                        orig[b + 1]
                    });
                }
                assert(0 <= i < orig.len() && orig[i as int].day == date && store.entries@
                    == orig.remove(i as int));
            }
            return Ok(true);
        }
        i += 1;
    }
    proof {
        assert(!has_day(store.entries@, date));
    }
    Ok(false)
}

/// Removes every entry.  Reports whether anything was there to
/// remove: clearing an already empty store is `Ok(false)`.
pub fn delete_all_entries(store: &mut EntryStore) -> (r: Result<bool, StoreError>)
    requires
        old(store).wf(),
    ensures
        final(store).wf(),
        final(store)@ == Seq::<WorktimeEntry>::empty(),
        final(store).spec_next_id() == old(store).spec_next_id(),
        r == Ok::<bool, StoreError>(old(store)@.len() > 0),
{
    let had_rows = store.entries.len() > 0;
    store.entries.clear();
    Ok(had_rows)
}

/// Interprets the row count an insert reports: the single new row,
/// and nothing else, must have been written.
pub fn insert_row_outcome(nrows: usize) -> (r: Result<bool, StoreError>)
    ensures
        r == (if nrows == 1 {
            Ok::<bool, StoreError>(true)
        } else {
            Err::<bool, StoreError>(StoreError::PersistenceError)
        }),
{
    if nrows == 1 {
        Ok(true)
    } else {
        Err(StoreError::PersistenceError)
    }
}

/// Interprets the row count a targeted update reports: no match is a
/// missing entry, exactly one match succeeds, and more than one
/// betrays a broken day key.
pub fn update_row_outcome(nrows: usize) -> (r: Result<bool, StoreError>)
    ensures
        r == (if nrows == 1 {
            Ok::<bool, StoreError>(true)
        } else if nrows == 0 {
            Err::<bool, StoreError>(StoreError::EntryNotFound)
        } else {
            Err::<bool, StoreError>(StoreError::PersistenceError)
        }),
{
    if nrows == 1 {
        Ok(true)
    } else if nrows == 0 {
        Err(StoreError::EntryNotFound)
    } else {
        Err(StoreError::PersistenceError)
    }
}

/// Interprets the row count a delete reports: whether anything was
/// removed; removing nothing is a reported no-op, not an error.
pub fn delete_row_outcome(nrows: usize) -> (r: Result<bool, StoreError>)
    ensures
        r == Ok::<bool, StoreError>(nrows > 0),
{
    Ok(nrows > 0)
}

/// A full-scan read: every entry, in insertion order.
pub fn get_all_entries(store: &EntryStore) -> (r: Vec<WorktimeEntry>)
    ensures
        r@ == store@,
{
    let n = store.entries.len();
    let mut out: Vec<WorktimeEntry> = Vec::new();
    let mut i: usize = 0;
    while i < n
        invariant
            n == store.entries@.len(),
            out@ == store.entries@.take(i as int),
            i <= n,
        decreases n - i,
    {
        out.push(store.entries[i]);
        proof {
            assert(out@ =~= store.entries@.take(i + 1));
        }
        i += 1;
    }
    proof {
        assert(store.entries@.take(n as int) =~= store.entries@);
    }
    out
}

} // verus!
