//! Laws of the store semantics: what repeated patches and the
//! create-then-finish sequence leave behind.

use vstd::prelude::*;

use crate::models::{apply_patch, days_unique, has_day, patch_day, UpdateEntry, WorktimeEntry};
use crate::timeval::{Day, Timestamp};

verus! {

/// The entries of `s` that belong to day `d`, in order.
pub open spec fn entries_for_day(s: Seq<WorktimeEntry>, d: Day) -> Seq<WorktimeEntry>
    decreases s.len(),
{
    if s.len() == 0 {
        Seq::empty()
    } else {
        entries_for_day(s.drop_last(), d) + if s.last().day == d {
            seq![s.last()]
        } else {
            Seq::empty()
        }
    }
}

/// A day nobody has worked on has no entries.
pub proof fn lemma_entries_for_day_absent(s: Seq<WorktimeEntry>, d: Day)
    requires
        !has_day(s, d),
    ensures
        entries_for_day(s, d) == Seq::<WorktimeEntry>::empty(),
    decreases s.len(),
{
    if s.len() == 0 {
        assert(entries_for_day(s, d) =~= Seq::<WorktimeEntry>::empty());
    } else {
        assert(!has_day(s.drop_last(), d)) by {
            if has_day(s.drop_last(), d) {
                let i = choose|i: int| 0 <= i < s.drop_last().len() && s.drop_last()[i].day == d;
                assert(s[i].day == d);
            }
        }
        lemma_entries_for_day_absent(s.drop_last(), d);
        assert(s[s.len() - 1].day != d);
        assert(entries_for_day(s, d) =~= Seq::<WorktimeEntry>::empty());
    }
}

/// In a store whose days are unique, a scan finds exactly one entry
/// for a day somebody has worked on.
pub proof fn lemma_at_most_one_entry_per_day(s: Seq<WorktimeEntry>, d: Day)
    requires
        days_unique(s),
        has_day(s, d),
    ensures
        entries_for_day(s, d).len() == 1,
    decreases s.len(),
{
    let rest = s.drop_last();
    if s.last().day == d {
        assert(!has_day(rest, d)) by {
            if has_day(rest, d) {
                let i = choose|i: int| 0 <= i < rest.len() && rest[i].day == d;
                assert(s[i].day == s[s.len() - 1].day);
            }
        }
        lemma_entries_for_day_absent(rest, d);
    } else {
        assert(has_day(rest, d)) by {
            let i = choose|i: int| 0 <= i < s.len() && s[i].day == d;
            assert(rest[i] == s[i]);
        }
        lemma_at_most_one_entry_per_day(rest, d);
    }
}

/// Applying the same sparse patch to a day twice in a row leaves the
/// same entries as applying it once: every targeted update is
/// idempotent.
pub proof fn lemma_patch_day_idempotent(s: Seq<WorktimeEntry>, d: Day, u: UpdateEntry)
    ensures
        patch_day(patch_day(s, d, u), d, u) == patch_day(s, d, u),
{
    let once = patch_day(s, d, u);
    assert forall|i: int| 0 <= i < s.len() implies patch_day(once, d, u)[i] == once[i] by {
        assert(once[i] == (if s[i].day == d {
            apply_patch(s[i], u)
        } else {
            s[i]
        }));
        assert(apply_patch(apply_patch(s[i], u), u) == apply_patch(s[i], u));
    }
    assert(patch_day(once, d, u) =~= once);
}

/// Creating an entry for a fresh day `d` with start time `start` and
/// then finishing `d` at `end` leaves, on a scan, exactly one entry
/// for `d`: started at `start`, ended at `end`, finished, with the
/// chosen break flag.
pub proof fn lemma_create_then_finish_round_trip(
    s: Seq<WorktimeEntry>,
    id: i32,
    d: Day,
    start: Timestamp,
    end: Timestamp,
    hadbreak: bool,
)
    requires
        !has_day(s, d),
    ensures
        ({
            let created = WorktimeEntry {
                id,
                day: d,
                start_time: start,
                end_time: None,
                finished: false,
                hadbreak: false,
            };
            let finish = UpdateEntry {
                start_time: None,
                end_time: Some(end),
                finished: Some(true),
                hadbreak: Some(hadbreak),
            };
            entries_for_day(patch_day(s.push(created), d, finish), d) == seq![
                WorktimeEntry {
                    id,
                    day: d,
                    start_time: start,
                    end_time: Some(end),
                    finished: true,
                    hadbreak,
                },
            ]
        }),
{
    let created = WorktimeEntry {
        id,
        day: d,
        start_time: start,
        end_time: None,
        finished: false,
        hadbreak: false,
    };
    let finish = UpdateEntry {
        start_time: None,
        end_time: Some(end),
        finished: Some(true),
        hadbreak: Some(hadbreak),
    };
    let closed_entry = apply_patch(created, finish);
    let after = patch_day(s.push(created), d, finish);
    assert forall|i: int| 0 <= i < s.len() implies after[i] == s[i] by {
        assert(s[i].day != d);
        assert(s.push(created)[i] == s[i]);
    }
    assert(after[s.len() as int] == closed_entry) by {
        assert(s.push(created)[s.len() as int] == created);
    }
    assert(after =~= s.push(closed_entry));
    lemma_entries_for_day_absent(s, d);
    assert(s.push(closed_entry).drop_last() =~= s);
    assert(s.push(closed_entry).last() == closed_entry);
    assert(entries_for_day(s.push(closed_entry), d) =~= seq![closed_entry]);
    assert(closed_entry == (WorktimeEntry {
        id,
        day: d,
        start_time: start,
        end_time: Some(end),
        finished: true,
        hadbreak,
    }));
}

} // verus!
