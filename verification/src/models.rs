//! The worktime entry row, the insert shape, the sparse update patch,
//! and the fluent builder that assembles a patch.

use vstd::prelude::*;

use crate::timeval::{Day, Timestamp};

verus! {

/// One persisted row: a single calendar day's work session.
#[derive(Clone, Copy, PartialEq, Eq, Debug)]
pub struct WorktimeEntry {
    pub id: i32,
    pub day: Day,
    pub start_time: Timestamp,
    pub end_time: Option<Timestamp>,
    pub finished: bool,
    pub hadbreak: bool,
}

/// The shape of a row to be inserted; the store assigns the `id`.
#[derive(Clone, Copy, PartialEq, Eq, Debug)]
pub struct NewEntry {
    pub day: Day,
    pub start_time: Timestamp,
    pub end_time: Option<Timestamp>,
    pub finished: bool,
    pub hadbreak: bool,
}

/// A sparse patch: only the fields that are `Some` are written; the
/// others keep whatever the row already holds.
#[derive(Clone, Copy, PartialEq, Eq, Debug)]
pub struct UpdateEntry {
    pub start_time: Option<Timestamp>,
    pub end_time: Option<Timestamp>,
    pub finished: Option<bool>,
    pub hadbreak: Option<bool>,
}

impl NewEntry {
    /// The row an insert writes: `finished` is derived from the
    /// presence of an end time, never chosen independently.
    pub fn new(
        day: Day,
        start_time: Timestamp,
        end_time: Option<Timestamp>,
        hadbreak: bool,
    ) -> (r: NewEntry)
        ensures
            r == (NewEntry { day, start_time, end_time, finished: end_time is Some, hadbreak }),
    {
        NewEntry { day, start_time, end_time, finished: end_time.is_some(), hadbreak }
    }
}

/// The row that results from applying the sparse patch `u` to `e`:
/// fields left `None` in the patch keep the row's value, and neither
/// the key `day` nor the surrogate `id` ever changes.
pub open spec fn apply_patch(e: WorktimeEntry, u: UpdateEntry) -> WorktimeEntry {
    WorktimeEntry {
        id: e.id,
        day: e.day,
        start_time: if u.start_time is Some {
            u.start_time->0
        } else {
            e.start_time
        },
        end_time: if u.end_time is Some {
            u.end_time
        } else {
            e.end_time
        },
        finished: if u.finished is Some {
            u.finished->0
        } else {
            e.finished
        },
        hadbreak: if u.hadbreak is Some {
            u.hadbreak->0
        } else {
            e.hadbreak
        },
    }
}

/// The store contents after patching every row whose day is `d`
/// (at most one, when days are unique) with `u`.
pub open spec fn patch_day(s: Seq<WorktimeEntry>, d: Day, u: UpdateEntry) -> Seq<WorktimeEntry> {
    s.map(|i: int, e: WorktimeEntry| if e.day == d {
        apply_patch(e, u)
    } else {
        e
    })
}

/// Whether some row in `s` belongs to day `d`.
pub open spec fn has_day(s: Seq<WorktimeEntry>, d: Day) -> bool {
    exists|i: int| 0 <= i < s.len() && s[i].day == d
}

/// At most one row per calendar day.
pub open spec fn days_unique(s: Seq<WorktimeEntry>) -> bool {
    forall|i: int, j: int| 0 <= i < j < s.len() ==> s[i].day != s[j].day
}

impl UpdateEntry {
    /// Starts a builder with no field set.
    pub fn new() -> (b: EntryBuilder)
        ensures
            b@ == UpdateEntry::empty_patch(),
    {
        EntryBuilder::default()
    }

    /// The patch that touches nothing.
    pub open spec fn empty_patch() -> UpdateEntry {
        UpdateEntry { start_time: None, end_time: None, finished: None, hadbreak: None }
    }
}

/// Accumulates an arbitrary subset of entry fields and yields a single
/// sparse patch.  Its view is the patch that `done` would produce.
pub struct EntryBuilder {
    chosen_start_time: Option<Timestamp>,
    chosen_end_time: Option<Timestamp>,
    chosen_finished: Option<bool>,
    chosen_hadbreak: Option<bool>,
}

impl View for EntryBuilder {
    type V = UpdateEntry;

    closed spec fn view(&self) -> UpdateEntry {
        UpdateEntry {
            start_time: self.chosen_start_time,
            end_time: self.chosen_end_time,
            finished: self.chosen_finished,
            hadbreak: self.chosen_hadbreak,
        }
    }
}

impl Default for EntryBuilder {
    /// A builder with every field still untouched.
    fn default() -> (b: Self)
        ensures
            b@ == UpdateEntry::empty_patch(),
    {
        EntryBuilder {
            chosen_start_time: None,
            chosen_end_time: None,
            chosen_finished: None,
            chosen_hadbreak: None,
        }
    }
}

impl EntryBuilder {
    /// Chooses a new start time.
    pub fn start_time(self, date: Timestamp) -> (r: Self)
        ensures
            r@ == (UpdateEntry { start_time: Some(date), ..self@ }),
    {
        EntryBuilder { chosen_start_time: Some(date), ..self }
    }

    /// Chooses a new end time without marking the day finished.
    pub fn end_time(self, date: Timestamp) -> (r: Self)
        ensures
            r@ == (UpdateEntry { end_time: Some(date), ..self@ }),
    {
        EntryBuilder { chosen_end_time: Some(date), ..self }
    }

    /// Chooses the finished flag.
    pub fn finished(self, val: bool) -> (r: Self)
        ensures
            r@ == (UpdateEntry { finished: Some(val), ..self@ }),
    {
        EntryBuilder { chosen_finished: Some(val), ..self }
    }

    /// Chooses the break flag.
    pub fn hadbreak(self, val: bool) -> (r: Self)
        ensures
            r@ == (UpdateEntry { hadbreak: Some(val), ..self@ }),
    {
        EntryBuilder { chosen_hadbreak: Some(val), ..self }
    }

    /// Chooses an end time and marks the day finished, atomically.
    pub fn finished_at(self, date: Timestamp) -> (r: Self)
        ensures
            r@ == (UpdateEntry { end_time: Some(date), finished: Some(true), ..self@ }),
    {
        EntryBuilder { chosen_end_time: Some(date), chosen_finished: Some(true), ..self }
    }

    /// Materialises the accumulated fields into one sparse patch;
    /// fields never chosen stay `None`.
    pub fn done(&self) -> (u: UpdateEntry)
        ensures
            u == self@,
    {
        UpdateEntry {
            start_time: self.chosen_start_time,
            end_time: self.chosen_end_time,
            finished: self.chosen_finished,
            hadbreak: self.chosen_hadbreak,
        }
    }
}

} // verus!
