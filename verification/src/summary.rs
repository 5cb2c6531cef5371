//! The summary engine: worked duration per entry, totals across all
//! finished entries, and overtime against a standard 8-hour workday.

use vstd::prelude::*;

use crate::models::WorktimeEntry;
use crate::store::{EntryStore, MAX_ENTRIES};
use crate::timeval::Duration;

verus! {

/// Seconds of unpaid break deducted when an entry records one.
pub const BREAK_SECS: i64 = 1800;

/// Seconds in the standard workday against which overtime accrues.
pub const STANDARD_WORKDAY_SECS: i64 = 28800;

/// Largest contribution, in seconds, one entry can make to a total:
/// the span between two timestamps of opposite extremes.
pub const MAX_CONTRIBUTION_SECS: i64 = 20_000_000_000_000;

/// A finished entry whose duration cannot be trusted: its end time is
/// missing, or precedes its start time.  The data model forbids both,
/// but the store does not enforce it, so the summary engine skips
/// such entries instead of folding nonsense into the total.
pub open spec fn spec_is_malformed(e: WorktimeEntry) -> bool {
    e.finished && (e.end_time is None || e.end_time->0.spec_secs() < e.start_time.spec_secs())
}

/// A finished entry that the duration total folds in.
pub open spec fn spec_is_counted(e: WorktimeEntry) -> bool {
    e.finished && !spec_is_malformed(e)
}

/// Worked seconds of a counted entry: end minus start, minus the
/// fixed break when one was taken.
pub open spec fn spec_worked_secs(e: WorktimeEntry) -> int {
    e.end_time->0.spec_secs() - e.start_time.spec_secs() - if e.hadbreak {
        BREAK_SECS as int
    } else {
        0
    }
}

/// What one entry adds to the duration total: its worked seconds if
/// it is counted, nothing otherwise.
pub open spec fn spec_contribution(e: WorktimeEntry) -> int {
    if spec_is_counted(e) {
        spec_worked_secs(e)
    } else {
        0
    }
}

/// Total worked seconds across a sequence of entries.
pub open spec fn spec_sum_worked_secs(s: Seq<WorktimeEntry>) -> int
    decreases s.len(),
{
    if s.len() == 0 {
        0
    } else {
        spec_sum_worked_secs(s.drop_last()) + spec_contribution(s.last())
    }
}

/// How many entries are finished.
pub open spec fn spec_count_finished(s: Seq<WorktimeEntry>) -> int
    decreases s.len(),
{
    if s.len() == 0 {
        0
    } else {
        spec_count_finished(s.drop_last()) + if s.last().finished {
            1int
        } else {
            0int
        }
    }
}

/// How many entries are malformed.
pub open spec fn spec_count_malformed(s: Seq<WorktimeEntry>) -> int
    decreases s.len(),
{
    if s.len() == 0 {
        0
    } else {
        spec_count_malformed(s.drop_last()) + if spec_is_malformed(s.last()) {
            1int
        } else {
            0int
        }
    }
}

/// Overtime accrued entry by entry: for each finished entry, its
/// contribution minus one standard workday, summed.
pub open spec fn spec_per_entry_overtime_secs(s: Seq<WorktimeEntry>) -> int
    decreases s.len(),
{
    if s.len() == 0 {
        0
    } else {
        spec_per_entry_overtime_secs(s.drop_last()) + if s.last().finished {
            spec_contribution(s.last()) - STANDARD_WORKDAY_SECS as int
        } else {
            0int
        }
    }
}

/// Aggregate figures across all finished entries of one scan.
pub struct WorktimeSummary {
    /// Count of finished entries folded in.
    pub num_workdays: u16,
    /// Sum of per-entry worked durations.
    pub total_duration: Duration,
}

impl WorktimeSummary {
    /// Overtime in aggregate form: the total worked duration minus a
    /// standard workday per finished entry.  Negative overtime is
    /// undertime.
    pub fn overtime(&self) -> (r: Duration)
        requires
            self.total_duration.secs - STANDARD_WORKDAY_SECS * self.num_workdays >= i64::MIN,
        ensures
            r.secs == self.total_duration.secs - STANDARD_WORKDAY_SECS * self.num_workdays,
    {
        Duration { secs: self.total_duration.secs - STANDARD_WORKDAY_SECS * (self.num_workdays as i64) }
    }
}

/// The worked duration of an entry: end time minus start time, minus
/// the fixed break when one was taken.  Unfinished and malformed
/// entries have none.
pub fn worked_duration(entry: &WorktimeEntry) -> (r: Option<Duration>)
    ensures
        r is Some <==> spec_is_counted(*entry),
        r is Some ==> r->0.secs == spec_worked_secs(*entry),
{
    if !entry.finished {
        return None;
    }
    match entry.end_time {
        None => None,
        Some(et) => {
            let d = et.since(&entry.start_time);
            if d.secs < 0 {
                None
            } else if entry.hadbreak {
                Some(Duration { secs: d.secs - BREAK_SECS })
            } else {
                Some(d)
            }
        },
    }
}

/// Whether the summary engine must skip this entry.
pub fn is_malformed(entry: &WorktimeEntry) -> (r: bool)
    ensures
        r == spec_is_malformed(*entry),
{
    entry.finished && match entry.end_time {
        None => true,
        Some(et) => et.secs() < entry.start_time.secs(),
    }
}

proof fn lemma_take_step(s: Seq<WorktimeEntry>, i: int)
    requires
        0 <= i < s.len(),
    ensures
        spec_sum_worked_secs(s.take(i + 1)) == spec_sum_worked_secs(s.take(i))
            + spec_contribution(s[i]),
        spec_count_finished(s.take(i + 1)) == spec_count_finished(s.take(i)) + if s[i].finished {
            1int
        } else {
            0int
        },
        spec_count_malformed(s.take(i + 1)) == spec_count_malformed(s.take(i))
            + if spec_is_malformed(s[i]) {
            1int
        } else {
            0int
        },
{
    assert(s.take(i + 1).drop_last() =~= s.take(i));
    assert(s.take(i + 1).last() == s[i]);
}

/// Folds a scanned sequence of entries into totals: the count of
/// finished entries and the sum of their worked durations, with
/// malformed entries contributing nothing.
#[verifier::loop_isolation(false)]
pub fn summarize_entries(entries: &Vec<WorktimeEntry>) -> (s: WorktimeSummary)
    requires
        entries@.len() <= MAX_ENTRIES,
    ensures
        s.num_workdays == spec_count_finished(entries@),
        s.total_duration.secs == spec_sum_worked_secs(entries@),
{
    let n = entries.len();
    let mut num_workdays: u16 = 0;
    let mut total: i64 = 0;
    let mut i: usize = 0;
    while i < n
        invariant
            i <= n,
            num_workdays == spec_count_finished(entries@.take(i as int)),
            num_workdays <= i,
            total == spec_sum_worked_secs(entries@.take(i as int)),
            -(BREAK_SECS as int) * i <= total <= (MAX_CONTRIBUTION_SECS as int) * i,
        decreases n - i,
    {
        let e = entries[i];
        proof {
            use_type_invariant(e.start_time);
        }
        match e.end_time {
            Some(t) => {
                proof {
                    use_type_invariant(t);
                }
            },
            None => {},
        }
        proof {
            lemma_take_step(entries@, i as int);
        }
        match worked_duration(&e) {
            Some(d) => {
                total = total + d.secs;
            },
            None => {},
        }
        if e.finished {
            num_workdays = num_workdays + 1;
        }
        i += 1;
    }
    proof {
        assert(entries@.take(n as int) =~= entries@);
    }
    WorktimeSummary { num_workdays, total_duration: Duration { secs: total } }
}

/// Counts the entries the summary engine skipped, so a caller can
/// surface a warning instead of silently accepting bad data.
#[verifier::loop_isolation(false)]
pub fn count_malformed_entries(entries: &Vec<WorktimeEntry>) -> (n: usize)
    ensures
        n == spec_count_malformed(entries@),
{
    let len = entries.len();
    let mut count: usize = 0;
    let mut i: usize = 0;
    while i < len
        invariant
            i <= len,
            count == spec_count_malformed(entries@.take(i as int)),
            count <= i,
        decreases len - i,
    {
        proof {
            lemma_take_step(entries@, i as int);
        }
        if is_malformed(&entries[i]) {
            count = count + 1;
        }
        i += 1;
    }
    proof {
        assert(entries@.take(len as int) =~= entries@);
    }
    count
}

/// Scans all finished entries of the store and folds them into a
/// summary.
pub fn sum_worktimes(store: &EntryStore) -> (s: WorktimeSummary)
    requires
        store.wf(),
    ensures
        s.num_workdays == spec_count_finished(store@),
        s.total_duration.secs == spec_sum_worked_secs(store@),
{
    let entries = crate::store::get_all_entries(store);
    summarize_entries(&entries)
}

/// Per-entry and aggregate overtime agree: subtracting one standard
/// workday inside each finished entry's term comes to the same as
/// subtracting the workdays all at once from the total.
pub proof fn lemma_overtime_forms_agree(s: Seq<WorktimeEntry>)
    ensures
        spec_per_entry_overtime_secs(s) == spec_sum_worked_secs(s) - (STANDARD_WORKDAY_SECS as int)
            * spec_count_finished(s),
    decreases s.len(),
{
    if s.len() > 0 {
        lemma_overtime_forms_agree(s.drop_last());
    }
}

/// Every count is nonnegative, and a sequence with no finished
/// entries has no counted one either.
pub proof fn lemma_count_finished_nonneg(s: Seq<WorktimeEntry>)
    ensures
        spec_count_finished(s) >= 0,
    decreases s.len(),
{
    if s.len() > 0 {
        lemma_count_finished_nonneg(s.drop_last());
    }
}

/// With no finished entry there is nothing to sum: the total worked
/// duration and both overtime forms are zero.
pub proof fn lemma_empty_summary(s: Seq<WorktimeEntry>)
    requires
        spec_count_finished(s) == 0,
    ensures
        spec_sum_worked_secs(s) == 0,
        spec_per_entry_overtime_secs(s) == 0,
    decreases s.len(),
{
    if s.len() > 0 {
        lemma_count_finished_nonneg(s.drop_last());
        lemma_empty_summary(s.drop_last());
    }
}

} // verus!
