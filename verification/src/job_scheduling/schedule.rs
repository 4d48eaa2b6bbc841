//! Cron entries, and a model of the set of entries that a scheduler holds.

use crate::text::{clone_strings, texts};
use vstd::prelude::*;

verus! {

/// The plain form of an optional string.
pub open spec fn optional_text(s: Option<String>) -> Option<Seq<char>> {
    match s {
        Some(s) => Some(s@),
        None => None,
    }
}

/// A copy of an optional string.
pub fn clone_optional(s: &Option<String>) -> (r: Option<String>)
    ensures
        optional_text(r) == optional_text(*s),
{
    match s {
        Some(s) => Some(s.clone()),
        None => None,
    }
}

/// What is needed to launch one run of a job.
#[derive(Debug)]
pub struct LaunchPlan {
    pub job_name: String,
    pub path_to_executable: String,
    pub arguments: Vec<String>,
    /// How long the run may take to report, in milliseconds.
    pub result_wait_timeout_millis: i64,
}

/// A [`LaunchPlan`] as plain values.
pub struct LaunchPlanView {
    pub job_name: Seq<char>,
    pub path_to_executable: Seq<char>,
    pub arguments: Seq<Seq<char>>,
    pub result_wait_timeout_millis: i64,
}

impl View for LaunchPlan {
    type V = LaunchPlanView;

    open spec fn view(&self) -> LaunchPlanView {
        LaunchPlanView {
            job_name: self.job_name@,
            path_to_executable: self.path_to_executable@,
            arguments: texts(self.arguments@),
            result_wait_timeout_millis: self.result_wait_timeout_millis,
        }
    }
}

impl Clone for LaunchPlan {
    fn clone(&self) -> (r: Self)
        ensures
            r@ == self@,
    {
        LaunchPlan {
            job_name: self.job_name.clone(),
            path_to_executable: self.path_to_executable.clone(),
            arguments: clone_strings(&self.arguments),
            result_wait_timeout_millis: self.result_wait_timeout_millis,
        }
    }
}

/// What a cron entry does each time it fires.
#[derive(Debug)]
pub enum Task {
    /// Launch a run of a job.
    RunJob(LaunchPlan),
    /// Sweep the registry of outstanding runs.
    CheckOverdueJobs,
}

/// A [`Task`] as plain values.
pub enum TaskView {
    RunJob(LaunchPlanView),
    CheckOverdueJobs,
}

impl View for Task {
    type V = TaskView;

    open spec fn view(&self) -> TaskView {
        match self {
            Task::RunJob(plan) => TaskView::RunJob(plan@),
            Task::CheckOverdueJobs => TaskView::CheckOverdueJobs,
        }
    }
}

impl Clone for Task {
    fn clone(&self) -> (r: Self)
        ensures
            r@ == self@,
    {
        match self {
            Task::RunJob(plan) => Task::RunJob(plan.clone()),
            Task::CheckOverdueJobs => Task::CheckOverdueJobs,
        }
    }
}

/// One entry of the scheduler. Its firings never overlap: a firing that
/// falls due while the one before it still runs is skipped.
#[derive(Debug)]
pub struct CronEntry {
    pub cron_string: String,
    /// The name under which the scheduler logs the entry.
    pub human_readable_name: Option<String>,
    /// The tag by which entries are stopped together.
    pub category: Option<String>,
    /// The upper end of the random shift of each firing, in seconds.
    pub fuzzy_offset_seconds: Option<i64>,
    pub task: Task,
}

/// A [`CronEntry`] as plain values.
pub struct CronEntryView {
    pub cron_string: Seq<char>,
    pub human_readable_name: Option<Seq<char>>,
    pub category: Option<Seq<char>>,
    pub fuzzy_offset_seconds: Option<i64>,
    pub task: TaskView,
}

impl View for CronEntry {
    type V = CronEntryView;

    open spec fn view(&self) -> CronEntryView {
        CronEntryView {
            cron_string: self.cron_string@,
            human_readable_name: optional_text(self.human_readable_name),
            category: optional_text(self.category),
            fuzzy_offset_seconds: self.fuzzy_offset_seconds,
            task: self.task@,
        }
    }
}

impl Clone for CronEntry {
    fn clone(&self) -> (r: Self)
        ensures
            r@ == self@,
    {
        CronEntry {
            cron_string: self.cron_string.clone(),
            human_readable_name: clone_optional(&self.human_readable_name),
            category: clone_optional(&self.category),
            fuzzy_offset_seconds: self.fuzzy_offset_seconds,
            task: self.task.clone(),
        }
    }
}

/// The views of a list of cron entries, in order.
pub open spec fn entry_views(v: Seq<CronEntry>) -> Seq<CronEntryView> {
    Seq::new(v.len(), |i: int| v[i]@)
}

/// Selects the entries of `category`.
pub open spec fn in_category(category: Seq<char>) -> spec_fn(CronEntryView) -> bool {
    |e: CronEntryView| e.category == Some(category)
}

/// Selects the entries that are not of `category`.
pub open spec fn outside_category(category: Seq<char>) -> spec_fn(CronEntryView) -> bool {
    |e: CronEntryView| e.category != Some(category)
}

/// The entries that a scheduler holds, in the order in which they were
/// added.
#[derive(Debug)]
pub struct Schedule {
    entries: Vec<CronEntry>,
}

impl View for Schedule {
    type V = Seq<CronEntryView>;

    closed spec fn view(&self) -> Seq<CronEntryView> {
        entry_views(self.entries@)
    }
}

impl Schedule {
    /// A scheduler without entries.
    pub fn new() -> (r: Self)
        ensures
            r@ == Seq::<CronEntryView>::empty(),
    {
        let r = Schedule { entries: Vec::new() };
        assert(r@ =~= Seq::<CronEntryView>::empty());
        r
    }

    /// The number of entries.
    pub fn len(&self) -> (n: usize)
        ensures
            n == self@.len(),
    {
        self.entries.len()
    }

    /// The entry at position `i`.
    pub fn get(&self, i: usize) -> (r: Option<&CronEntry>)
        ensures
            r is Some <==> i < self@.len(),
            r is Some ==> r->Some_0@ == self@[i as int],
    {
        if i < self.entries.len() {
            Some(&self.entries[i])
        } else {
            None
        }
    }

    /// Adds an entry.
    pub fn schedule_sequential_job(&mut self, entry: CronEntry)
        ensures
            final(self)@ == old(self)@.push(entry@),
    {
        self.entries.push(entry);
        assert(self@ =~= old(self)@.push(entry@));
    }

    /// Drops every entry of `category`; the others stay as they were.
    pub fn stop_jobs_by_category(&mut self, category: &String)
        ensures
            final(self)@ == old(self)@.filter(outside_category(category@)),
    {
        let ghost before = self@;
        let ghost pred = outside_category(category@);
        let mut kept: Vec<CronEntry> = Vec::new();
        let mut i: usize = 0;
        while i < self.entries.len()
            invariant
                i <= self.entries.len(),
                before == entry_views(self.entries@),
                pred == outside_category(category@),
                entry_views(kept@) == before.take(i as int).filter(pred),
            decreases self.entries.len() - i,
        {
            let entry = &self.entries[i];
            proof {
                assert(before.take(i as int + 1) =~= before.take(i as int).push(before[i as int]));
                before.take(i as int).lemma_filter_push(before[i as int], pred);
            }
            let stopped = match &entry.category {
                Some(c) => c.eq(category),
                None => false,
            };
            if !stopped {
                let ghost prev = kept@;
                kept.push(entry.clone());
                assert(entry_views(kept@) =~= entry_views(prev).push(before[i as int]));
            }
            i = i + 1;
        }
        assert(before.take(i as int) =~= before);
        self.entries = kept;
    }

    /// Drops every entry.
    pub fn stop_all_jobs(&mut self)
        ensures
            final(self)@ == Seq::<CronEntryView>::empty(),
    {
        self.entries = Vec::new();
        assert(self@ =~= Seq::<CronEntryView>::empty());
    }
}

} // verus!
