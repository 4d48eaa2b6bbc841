//! The registry of outstanding runs.
//!
//! A run enters the registry when its process has been started and leaves it
//! when its result arrives, when a sweep finds it past its deadline, or when
//! the schedule is reloaded. The registry is modelled by its entries in the
//! order of registration; no two entries share a run id.

use crate::notification::{notification_views, overdue_notification, Notification, NotificationView};
use crate::system::utc_now_millis;
use vstd::prelude::*;

verus! {

/// One launched run that has not reported yet.
#[derive(Debug)]
pub struct Job {
    pub name: String,
    pub run_id: String,
    /// The deadline, in milliseconds since the Unix epoch.
    pub valid_until: i64,
}

/// A [`Job`] as plain values.
pub struct JobView {
    pub name: Seq<char>,
    pub run_id: Seq<char>,
    pub valid_until: int,
}

impl View for Job {
    type V = JobView;

    open spec fn view(&self) -> JobView {
        JobView { name: self.name@, run_id: self.run_id@, valid_until: self.valid_until as int }
    }
}

/// The views of a list of jobs, in order.
pub open spec fn job_views(v: Seq<Job>) -> Seq<JobView> {
    Seq::new(v.len(), |i: int| v[i]@)
}

/// A run is overdue once the clock has passed its deadline.
pub open spec fn is_overdue(job: JobView, now: int) -> bool {
    job.valid_until < now
}

/// Selects the runs with another id than `run_id`.
pub open spec fn other_run(run_id: Seq<char>) -> spec_fn(JobView) -> bool {
    |j: JobView| j.run_id != run_id
}

/// Selects the runs that are overdue at `now`.
pub open spec fn overdue_at(now: int) -> spec_fn(JobView) -> bool {
    |j: JobView| is_overdue(j, now)
}

/// Selects the runs that are not overdue at `now`.
pub open spec fn pending_at(now: int) -> spec_fn(JobView) -> bool {
    |j: JobView| !is_overdue(j, now)
}

/// The notification that a sweep sends for an overdue run.
pub open spec fn overdue_notice() -> spec_fn(JobView) -> NotificationView {
    |j: JobView| overdue_notification(j.name, j.run_id)
}

/// Whether some entry carries `run_id`.
pub open spec fn tracks(entries: Seq<JobView>, run_id: Seq<char>) -> bool {
    exists|i: int| 0 <= i < entries.len() && #[trigger] entries[i].run_id == run_id
}

/// No two entries carry the same run id.
pub open spec fn distinct_runs(entries: Seq<JobView>) -> bool {
    forall|i: int, j: int|
        0 <= i < j < entries.len() ==> #[trigger] entries[i].run_id != #[trigger] entries[j].run_id
}

/// Whether `after` and `deadline` are what registering a run at `now`
/// makes of the registry `before` and returns: with a deadline that fits
/// the clock's range, the run replaces any run of the same id and stands
/// last, and the deadline is returned; else nothing changes and nothing is
/// returned.
pub open spec fn registered_at(
    before: Seq<JobView>,
    after: Seq<JobView>,
    deadline: Option<i64>,
    name: Seq<char>,
    run_id: Seq<char>,
    now: i64,
    timeout_millis: i64,
) -> bool {
    if i64::MIN <= now + timeout_millis <= i64::MAX {
        deadline == Some((now + timeout_millis) as i64) && after == before.filter(other_run(run_id)).push(
            JobView { name, run_id, valid_until: now + timeout_millis },
        )
    } else {
        deadline is None && after == before
    }
}

/// A filter keeps no run that the sequence did not hold.
pub proof fn lemma_filter_tracks(entries: Seq<JobView>, pred: spec_fn(JobView) -> bool, run_id: Seq<char>)
    ensures
        tracks(entries.filter(pred), run_id) ==> tracks(entries, run_id),
        tracks(entries.filter(pred), run_id) <== exists|i: int|
            0 <= i < entries.len() && #[trigger] entries[i].run_id == run_id && pred(entries[i]),
    decreases entries.len(),
{
    reveal(Seq::filter);
    if entries.len() > 0 {
        let front = entries.drop_last();
        lemma_filter_tracks(front, pred, run_id);
        let kept = entries.filter(pred);
        if tracks(kept, run_id) {
            let i = choose|i: int| 0 <= i < kept.len() && #[trigger] kept[i].run_id == run_id;
            if pred(entries.last()) && i == kept.len() - 1 {
                assert(entries[entries.len() - 1].run_id == run_id);
            } else {
                assert(front.filter(pred)[i].run_id == run_id);
                let k = choose|k: int| 0 <= k < front.len() && #[trigger] front[k].run_id == run_id;
                assert(entries[k].run_id == run_id);
            }
        }
        if exists|i: int| 0 <= i < entries.len() && #[trigger] entries[i].run_id == run_id && pred(entries[i]) {
            let i = choose|i: int|
                0 <= i < entries.len() && #[trigger] entries[i].run_id == run_id && pred(entries[i]);
            if i == entries.len() - 1 {
                assert(kept[kept.len() - 1].run_id == run_id);
            } else {
                assert(front[i].run_id == run_id && pred(front[i]));
                let k = choose|k: int|
                    0 <= k < front.filter(pred).len() && #[trigger] front.filter(pred)[k].run_id == run_id;
                assert(kept[k].run_id == run_id);
            }
        }
    }
}

/// A filter of distinct runs holds distinct runs.
pub proof fn lemma_filter_distinct(entries: Seq<JobView>, pred: spec_fn(JobView) -> bool)
    requires
        distinct_runs(entries),
    ensures
        distinct_runs(entries.filter(pred)),
    decreases entries.len(),
{
    reveal(Seq::filter);
    if entries.len() > 0 {
        let front = entries.drop_last();
        assert(distinct_runs(front)) by {
            assert forall|i: int, j: int| 0 <= i < j < front.len() implies #[trigger] front[i].run_id
                != #[trigger] front[j].run_id by {
                assert(entries[i].run_id != entries[j].run_id);
            }
        }
        lemma_filter_distinct(front, pred);
        let kept = entries.filter(pred);
        if pred(entries.last()) {
            assert forall|i: int, j: int| 0 <= i < j < kept.len() implies #[trigger] kept[i].run_id
                != #[trigger] kept[j].run_id by {
                if j == kept.len() - 1 {
                    if kept[i].run_id == entries.last().run_id {
                        assert(front.filter(pred)[i].run_id == entries.last().run_id);
                        lemma_filter_tracks(front, pred, entries.last().run_id);
                        let k = choose|k: int|
                            0 <= k < front.len() && #[trigger] front[k].run_id == entries.last().run_id;
                        assert(entries[k].run_id != entries[entries.len() - 1].run_id);
                    }
                } else {
                    assert(front.filter(pred)[i].run_id != front.filter(pred)[j].run_id);
                }
            }
        }
    }
}

/// A sweep reaches every overdue run: its notification is among those
/// sent, and the run is no longer outstanding afterwards.
pub proof fn lemma_sweep_reaches_every_overdue_run(entries: Seq<JobView>, now: int, i: int)
    requires
        distinct_runs(entries),
        0 <= i < entries.len(),
        is_overdue(entries[i], now),
    ensures
        entries.filter(overdue_at(now)).map_values(overdue_notice()).contains(
            overdue_notification(entries[i].name, entries[i].run_id),
        ),
        !tracks(entries.filter(pending_at(now)), entries[i].run_id),
{
    let late = entries.filter(overdue_at(now));
    entries.lemma_filter_contains(overdue_at(now), i);
    let k = choose|k: int| 0 <= k < late.len() && late[k] == entries[i];
    assert(late.map_values(overdue_notice())[k] == overdue_notification(entries[i].name, entries[i].run_id));
    let pending = entries.filter(pending_at(now));
    if tracks(pending, entries[i].run_id) {
        let p = choose|p: int| 0 <= p < pending.len() && #[trigger] pending[p].run_id == entries[i].run_id;
        entries.lemma_filter_pred(pending_at(now), p);
        assert(pending.contains(pending[p]));
        entries.lemma_filter_contains_rev(pending_at(now), pending[p]);
        let j = choose|j: int| 0 <= j < entries.len() && entries[j] == pending[p];
        if j < i {
            assert(entries[j].run_id != entries[i].run_id);
        }
        if i < j {
            assert(entries[i].run_id != entries[j].run_id);
        }
    }
}

/// The registry of outstanding runs.
pub struct ScheduledJobTrackingService {
    jobs: Vec<Job>,
}

impl ScheduledJobTrackingService {
    #[verifier::type_invariant]
    spec fn runs_are_distinct(self) -> bool {
        distinct_runs(job_views(self.jobs@))
    }

    /// The outstanding runs, in the order in which they were registered.
    pub closed spec fn entries(&self) -> Seq<JobView> {
        job_views(self.jobs@)
    }

    /// An empty registry.
    pub fn new() -> (r: Self)
        ensures
            r.entries() == Seq::<JobView>::empty(),
            distinct_runs(r.entries()),
    {
        let r = ScheduledJobTrackingService { jobs: Vec::new() };
        assert(r.entries() =~= Seq::<JobView>::empty());
        r
    }

    /// The number of outstanding runs.
    pub fn len(&self) -> (n: usize)
        ensures
            n == self.entries().len(),
    {
        self.jobs.len()
    }

    /// Whether a run with this id is outstanding.
    pub fn is_tracking(&self, run_id: &String) -> (r: bool)
        ensures
            r == tracks(self.entries(), run_id@),
    {
        let mut i: usize = 0;
        while i < self.jobs.len()
            invariant
                i <= self.jobs.len(),
                forall|k: int| 0 <= k < i ==> (#[trigger] self.entries()[k]).run_id != run_id@,
            decreases self.jobs.len() - i,
        {
            if self.jobs[i].run_id.eq(run_id) {
                assert(self.entries()[i as int].run_id == run_id@);
                return true;
            }
            i = i + 1;
        }
        false
    }

    /// The deadline of the run with this id, if it is outstanding.
    pub fn deadline_of(&self, run_id: &String) -> (r: Option<i64>)
        ensures
            r is Some <==> tracks(self.entries(), run_id@),
            r is Some ==> exists|i: int|
                0 <= i < self.entries().len() && (#[trigger] self.entries()[i]).run_id == run_id@
                    && self.entries()[i].valid_until == r->Some_0,
    {
        let mut i: usize = 0;
        while i < self.jobs.len()
            invariant
                i <= self.jobs.len(),
                forall|k: int| 0 <= k < i ==> (#[trigger] self.entries()[k]).run_id != run_id@,
            decreases self.jobs.len() - i,
        {
            if self.jobs[i].run_id.eq(run_id) {
                assert(self.entries()[i as int].run_id == run_id@);
                return Some(self.jobs[i].valid_until);
            }
            i = i + 1;
        }
        None
    }

    /// Registers a run started at `now` that must report within
    /// `timeout_millis`, and returns its deadline. A run already registered
    /// under `run_id` is replaced. Where the deadline does not fit the
    /// clock's range, nothing is registered and `None` is returned.
    pub fn add_job_at(&mut self, name: String, run_id: String, now: i64, timeout_millis: i64) -> (deadline:
        Option<i64>)
        ensures
            distinct_runs(final(self).entries()),
            registered_at(
                old(self).entries(),
                final(self).entries(),
                deadline,
                name@,
                run_id@,
                now,
                timeout_millis,
            ),
    {
        proof {
            use_type_invariant(&*self);
        }
        let valid_until = match now.checked_add(timeout_millis) {
            Some(valid_until) => valid_until,
            None => {
                return None;
            },
        };
        let ghost before = self.entries();
        let ghost pred = other_run(run_id@);
        let mut kept: Vec<Job> = Vec::new();
        let mut i: usize = 0;
        while i < self.jobs.len()
            invariant
                i <= self.jobs.len(),
                before == job_views(self.jobs@),
                pred == other_run(run_id@),
                job_views(kept@) == before.take(i as int).filter(pred),
            decreases self.jobs.len() - i,
        {
            let job = &self.jobs[i];
            proof {
                assert(before.take(i as int + 1) =~= before.take(i as int).push(before[i as int]));
                before.take(i as int).lemma_filter_push(before[i as int], pred);
            }
            if !job.run_id.eq(&run_id) {
                let ghost prev = kept@;
                kept.push(Job { name: job.name.clone(), run_id: job.run_id.clone(), valid_until: job.valid_until });
                assert(job_views(kept@) =~= job_views(prev).push(before[i as int]));
            }
            i = i + 1;
        }
        proof {
            assert(before.take(i as int) =~= before);
            lemma_filter_distinct(before, pred);
            lemma_filter_tracks(before, pred, run_id@);
        }
        let ghost prev = kept@;
        let ghost entry = JobView { name: name@, run_id: run_id@, valid_until: now + timeout_millis };
        kept.push(Job { name, run_id, valid_until });
        proof {
            assert(job_views(kept@) =~= job_views(prev).push(entry));
            let after = job_views(kept@);
            assert forall|a: int, b: int| 0 <= a < b < after.len() implies #[trigger] after[a].run_id
                != #[trigger] after[b].run_id by {
                if b == after.len() - 1 {
                    if after[a].run_id == run_id@ {
                        assert(before.filter(pred)[a].run_id == run_id@);
                        before.lemma_filter_pred(pred, a);
                    }
                } else {
                    assert(before.filter(pred)[a].run_id != before.filter(pred)[b].run_id);
                }
            }
        }
        self.jobs = kept;
        Some(valid_until)
    }

    /// Registers a run started now that must report within
    /// `timeout_millis`, and returns its deadline. Where the deadline does
    /// not fit the clock's range, nothing is registered and `None` is
    /// returned. Whatever the clock reads, the outcome is that of
    /// [`Self::add_job_at`] for that reading.
    pub fn add_job(&mut self, name: String, run_id: String, timeout_millis: i64) -> (deadline: Option<i64>)
        ensures
            distinct_runs(final(self).entries()),
            exists|now: i64|
                registered_at(
                    old(self).entries(),
                    final(self).entries(),
                    deadline,
                    name@,
                    run_id@,
                    now,
                    timeout_millis,
                ),
            match deadline {
                Some(valid_until) => final(self).entries() == old(self).entries().filter(
                    other_run(run_id@),
                ).push(JobView { name: name@, run_id: run_id@, valid_until: valid_until as int }),
                None => final(self).entries() == old(self).entries(),
            },
    {
        proof {
            use_type_invariant(&*self);
        }
        let now = utc_now_millis();
        self.add_job_at(name, run_id, now, timeout_millis)
    }

    /// Takes the run with this id out of the registry. Returns whether it
    /// was there; a result for an unknown run changes nothing.
    pub fn report_result_returned(&mut self, run_id: &String) -> (found: bool)
        ensures
            distinct_runs(final(self).entries()),
            found == tracks(old(self).entries(), run_id@),
            final(self).entries() == old(self).entries().filter(other_run(run_id@)),
            !tracks(final(self).entries(), run_id@),
    {
        proof {
            use_type_invariant(&*self);
        }
        let ghost before = self.entries();
        let ghost pred = other_run(run_id@);
        let mut kept: Vec<Job> = Vec::new();
        let mut found = false;
        let mut i: usize = 0;
        while i < self.jobs.len()
            invariant
                i <= self.jobs.len(),
                before == job_views(self.jobs@),
                pred == other_run(run_id@),
                job_views(kept@) == before.take(i as int).filter(pred),
                found == tracks(before.take(i as int), run_id@),
            decreases self.jobs.len() - i,
        {
            let job = &self.jobs[i];
            proof {
                assert(before.take(i as int + 1) =~= before.take(i as int).push(before[i as int]));
                before.take(i as int).lemma_filter_push(before[i as int], pred);
            }
            let ghost seen = before.take(i as int);
            let ghost next = before.take(i as int + 1);
            if !job.run_id.eq(run_id) {
                let ghost prev = kept@;
                kept.push(Job { name: job.name.clone(), run_id: job.run_id.clone(), valid_until: job.valid_until });
                assert(job_views(kept@) =~= job_views(prev).push(before[i as int]));
                proof {
                    if tracks(seen, run_id@) {
                        let k = choose|k: int| 0 <= k < seen.len() && #[trigger] seen[k].run_id == run_id@;
                        assert(next[k].run_id == run_id@);
                    }
                    if tracks(next, run_id@) {
                        let k = choose|k: int| 0 <= k < next.len() && #[trigger] next[k].run_id == run_id@;
                        assert(seen[k].run_id == run_id@);
                    }
                }
            } else {
                found = true;
                assert(next[i as int].run_id == run_id@);
            }
            i = i + 1;
        }
        proof {
            assert(before.take(i as int) =~= before);
            lemma_filter_distinct(before, pred);
            lemma_filter_tracks(before, pred, run_id@);
            if tracks(before.filter(pred), run_id@) {
                let k = choose|k: int|
                    0 <= k < before.filter(pred).len() && #[trigger] before.filter(pred)[k].run_id == run_id@;
                before.lemma_filter_pred(pred, k);
            }
        }
        self.jobs = kept;
        found
    }

    /// Drops every outstanding run without notifying anyone.
    pub fn remove_all_jobs(&mut self)
        ensures
            final(self).entries() == Seq::<JobView>::empty(),
            distinct_runs(final(self).entries()),
    {
        self.jobs = Vec::new();
        assert(self.entries() =~= Seq::<JobView>::empty());
    }

    /// One sweep at `now`: every run whose deadline has passed leaves the
    /// registry, and the notification for each is returned, in the order of
    /// registration. The runs that are not overdue stay as they were.
    pub fn sweep(&mut self, now: i64) -> (notices: Vec<Notification>)
        ensures
            distinct_runs(final(self).entries()),
            final(self).entries() == old(self).entries().filter(pending_at(now as int)),
            notification_views(notices@) == old(self).entries().filter(overdue_at(now as int)).map_values(
                overdue_notice(),
            ),
    {
        proof {
            use_type_invariant(&*self);
        }
        let ghost before = self.entries();
        let ghost pending = pending_at(now as int);
        let ghost overdue = overdue_at(now as int);
        let mut kept: Vec<Job> = Vec::new();
        let mut notices: Vec<Notification> = Vec::new();
        let mut i: usize = 0;
        while i < self.jobs.len()
            invariant
                i <= self.jobs.len(),
                before == job_views(self.jobs@),
                pending == pending_at(now as int),
                overdue == overdue_at(now as int),
                job_views(kept@) == before.take(i as int).filter(pending),
                notification_views(notices@) == before.take(i as int).filter(overdue).map_values(
                    overdue_notice(),
                ),
            decreases self.jobs.len() - i,
        {
            let job = &self.jobs[i];
            proof {
                assert(before.take(i as int + 1) =~= before.take(i as int).push(before[i as int]));
                before.take(i as int).lemma_filter_push(before[i as int], pending);
                before.take(i as int).lemma_filter_push(before[i as int], overdue);
            }
            if job.valid_until < now {
                let ghost prev = notices@;
                notices.push(Notification::overdue(job.name.as_str(), job.run_id.as_str()));
                proof {
                    let late = before.take(i as int).filter(overdue);
                    late.lemma_push_map_commute(overdue_notice(), before[i as int]);
                    assert(notification_views(notices@) =~= notification_views(prev).push(
                        overdue_notice()(before[i as int]),
                    ));
                }
            } else {
                let ghost prev = kept@;
                kept.push(Job { name: job.name.clone(), run_id: job.run_id.clone(), valid_until: job.valid_until });
                assert(job_views(kept@) =~= job_views(prev).push(before[i as int]));
            }
            i = i + 1;
        }
        proof {
            assert(before.take(i as int) =~= before);
            lemma_filter_distinct(before, pending);
        }
        self.jobs = kept;
        notices
    }

    /// One sweep just now: every run whose deadline has passed leaves the
    /// registry, and the notification for each is returned.
    pub fn check_overdue_jobs(&mut self) -> (notices: Vec<Notification>)
        ensures
            distinct_runs(final(self).entries()),
            exists|now: i64|
                final(self).entries() == old(self).entries().filter(pending_at(now as int))
                    && notification_views(notices@) == old(self).entries().filter(
                    overdue_at(now as int),
                ).map_values(overdue_notice()),
    {
        let now = utc_now_millis();
        self.sweep(now)
    }
}

} // verus!
