//! From job definitions to cron entries, and from a firing to a launched
//! run.

use crate::config::job_config::{config_views, JobConfig, JobConfigView};
use crate::job_scheduling::schedule::{
    CronEntry, CronEntryView, LaunchPlan, LaunchPlanView, Schedule, Task, TaskView,
};
use crate::job_scheduling::scheduled_job_tracking_service::{
    other_run, registered_at, JobView, ScheduledJobTrackingService,
};
use crate::system::fresh_run_id;
use crate::text::{clone_strings, owned, texts};
use vstd::prelude::*;

verus! {

/// The category of every cron entry that launches a configured job.
pub const SCHEDULED_GAMAYUN_JOB_CATEGORY: &'static str = "SCHEDULED_GAMAYUN_JOB";

/// The category of every cron entry that launches a configured job.
pub open spec fn scheduled_job_category() -> Seq<char> {
    "SCHEDULED_GAMAYUN_JOB"@
}

/// The cron entry of a job.
pub open spec fn job_entry(config: JobConfigView) -> CronEntryView {
    CronEntryView {
        cron_string: config.cron_string,
        human_readable_name: Some(config.name),
        category: Some(scheduled_job_category()),
        fuzzy_offset_seconds: config.random_trigger_offset_seconds,
        task: TaskView::RunJob(
            LaunchPlanView {
                job_name: config.name,
                path_to_executable: config.path_to_executable,
                arguments: config.arguments,
                result_wait_timeout_millis: config.effective_timeout_millis() as i64,
            },
        ),
    }
}

/// The cron entries of a list of jobs, in order.
pub open spec fn job_entries(configs: Seq<JobConfigView>) -> Seq<CronEntryView> {
    configs.map_values(|c: JobConfigView| job_entry(c))
}

/// The cron entry of the sweep for overdue runs: every ten minutes, each
/// firing shifted by up to two seconds, in no category.
pub open spec fn overdue_check_entry() -> CronEntryView {
    CronEntryView {
        cron_string: "*/10 * * * *"@,
        human_readable_name: Some("Overdue Job Checker"@),
        category: None,
        fuzzy_offset_seconds: Some(2i64),
        task: TaskView::CheckOverdueJobs,
    }
}

/// A process to start: the program, its arguments, and the environment
/// variables it is given besides those it inherits.
#[derive(Debug)]
pub struct SpawnRequest {
    pub run_id: String,
    pub program: String,
    pub arguments: Vec<String>,
    pub environment: Vec<(String, String)>,
}

/// A [`SpawnRequest`] as plain values.
pub struct SpawnRequestView {
    pub run_id: Seq<char>,
    pub program: Seq<char>,
    pub arguments: Seq<Seq<char>>,
    pub environment: Seq<(Seq<char>, Seq<char>)>,
}

impl View for SpawnRequest {
    type V = SpawnRequestView;

    open spec fn view(&self) -> SpawnRequestView {
        SpawnRequestView {
            run_id: self.run_id@,
            program: self.program@,
            arguments: texts(self.arguments@),
            environment: Seq::new(
                self.environment@.len(),
                |i: int| (self.environment@[i].0@, self.environment@[i].1@),
            ),
        }
    }
}

/// The process that is started for the run `run_id` of a plan. The child
/// learns the name of its job and the id of its run from its environment.
pub open spec fn spawn_request(plan: LaunchPlanView, run_id: Seq<char>) -> SpawnRequestView {
    SpawnRequestView {
        run_id,
        program: plan.path_to_executable,
        arguments: plan.arguments,
        environment: seq![
            ("GAMAYUN_JOB_NAME"@, plan.job_name),
            ("GAMAYUN_JOB_UNIQUE_ID"@, run_id),
        ],
    }
}

/// The registry for a scheduler, whose sweep is added to the schedule.
pub fn start_background_job_reporting_check(scheduler: &mut Schedule) -> (tracker:
    ScheduledJobTrackingService)
    ensures
        tracker.entries() == Seq::<JobView>::empty(),
        final(scheduler)@ == old(scheduler)@.push(overdue_check_entry()),
{
    scheduler.schedule_sequential_job(
        CronEntry {
            cron_string: owned("*/10 * * * *"),
            human_readable_name: Some(owned("Overdue Job Checker")),
            category: None,
            fuzzy_offset_seconds: Some(2),
            task: Task::CheckOverdueJobs,
        },
    );
    ScheduledJobTrackingService::new()
}

/// The cron entry of one job.
pub fn schedule_single_job(job_config: &JobConfig) -> (entry: CronEntry)
    ensures
        entry@ == job_entry(job_config@),
{
    CronEntry {
        cron_string: job_config.cron_string.clone(),
        human_readable_name: Some(job_config.name.clone()),
        category: Some(owned(SCHEDULED_GAMAYUN_JOB_CATEGORY)),
        fuzzy_offset_seconds: job_config.random_trigger_offset_seconds,
        task: Task::RunJob(
            LaunchPlan {
                job_name: job_config.name.clone(),
                path_to_executable: job_config.path_to_executable.clone(),
                arguments: clone_strings(&job_config.arguments),
                result_wait_timeout_millis: job_config.effective_timeout_millis(),
            },
        ),
    }
}

/// Adds the cron entry of each job to the schedule, in order.
pub fn schedule_jobs_from_config(scheduler: &mut Schedule, job_configs: &Vec<JobConfig>)
    ensures
        final(scheduler)@ == old(scheduler)@ + job_entries(config_views(job_configs@)),
{
    let ghost configs = config_views(job_configs@);
    let mut i: usize = 0;
    assert(scheduler@ =~= old(scheduler)@ + job_entries(configs.take(0)));
    while i < job_configs.len()
        invariant
            i <= job_configs.len(),
            configs == config_views(job_configs@),
            scheduler@ == old(scheduler)@ + job_entries(configs.take(i as int)),
        decreases job_configs.len() - i,
    {
        let entry = schedule_single_job(&job_configs[i]);
        scheduler.schedule_sequential_job(entry);
        assert(configs.take(i as int + 1) =~= configs.take(i as int).push(configs[i as int]));
        assert(scheduler@ =~= old(scheduler)@ + job_entries(configs.take(i as int + 1)));
        i = i + 1;
    }
    assert(configs.take(i as int) =~= configs);
}

impl LaunchPlan {
    /// The process to start for the run `run_id`.
    pub fn spawn_request(&self, run_id: String) -> (request: SpawnRequest)
        ensures
            request@ == spawn_request(self@, run_id@),
    {
        let mut environment: Vec<(String, String)> = Vec::new();
        environment.push((owned("GAMAYUN_JOB_NAME"), self.job_name.clone()));
        environment.push((owned("GAMAYUN_JOB_UNIQUE_ID"), run_id.clone()));
        let request = SpawnRequest {
            run_id,
            program: self.path_to_executable.clone(),
            arguments: clone_strings(&self.arguments),
            environment,
        };
        assert(request@.environment =~= spawn_request(self@, request.run_id@).environment);
        request
    }
}

/// What a firing starts: a process for a run with a fresh id.
pub fn run_single_job(plan: &LaunchPlan) -> (request: SpawnRequest)
    ensures
        request@ == spawn_request(plan@, request.run_id@),
{
    plan.spawn_request(fresh_run_id())
}

/// Whether `after` and `deadline` are what recording a firing at `now`
/// makes of the registry `before` and returns: a run whose process was
/// started is registered at `now` with the timeout of its plan; for one
/// whose process could not be started nothing changes and nothing is
/// returned.
pub open spec fn spawn_recorded(
    before: Seq<JobView>,
    after: Seq<JobView>,
    deadline: Option<i64>,
    plan: LaunchPlanView,
    run_id: Seq<char>,
    started: bool,
    now: i64,
) -> bool {
    if started {
        registered_at(before, after, deadline, plan.job_name, run_id, now, plan.result_wait_timeout_millis)
    } else {
        deadline is None && after == before
    }
}

/// Records what became of a firing at `now`. A run whose process was
/// started enters the registry with the deadline that is returned. Where
/// the process could not be started, or the deadline does not fit the
/// clock's range, nothing is registered.
pub fn record_spawn_at(
    tracker: &mut ScheduledJobTrackingService,
    plan: &LaunchPlan,
    run_id: &String,
    started: bool,
    now: i64,
) -> (deadline: Option<i64>)
    ensures
        spawn_recorded(old(tracker).entries(), final(tracker).entries(), deadline, plan@, run_id@, started, now),
{
    if started {
        tracker.add_job_at(plan.job_name.clone(), run_id.clone(), now, plan.result_wait_timeout_millis)
    } else {
        None
    }
}

/// Records what became of a firing just now. A run whose process was
/// started enters the registry with the deadline that is returned. Where
/// the process could not be started, or the deadline does not fit the
/// clock's range, nothing is registered. Whatever the clock reads, the
/// outcome is that of [`record_spawn_at`] for that reading.
pub fn record_spawn(
    tracker: &mut ScheduledJobTrackingService,
    plan: &LaunchPlan,
    run_id: &String,
    started: bool,
) -> (deadline: Option<i64>)
    ensures
        exists|now: i64|
            spawn_recorded(
                old(tracker).entries(),
                final(tracker).entries(),
                deadline,
                plan@,
                run_id@,
                started,
                now,
            ),
        !started ==> deadline is None,
        match deadline {
            Some(valid_until) => final(tracker).entries() == old(tracker).entries().filter(
                other_run(run_id@),
            ).push(JobView { name: plan.job_name@, run_id: run_id@, valid_until: valid_until as int }),
            None => final(tracker).entries() == old(tracker).entries(),
        },
{
    if started {
        let deadline = tracker.add_job(
            plan.job_name.clone(),
            run_id.clone(),
            plan.result_wait_timeout_millis,
        );
        proof {
            let now = choose|now: i64|
                registered_at(
                    old(tracker).entries(),
                    tracker.entries(),
                    deadline,
                    plan.job_name@,
                    run_id@,
                    now,
                    plan.result_wait_timeout_millis,
                );
            assert(spawn_recorded(
                old(tracker).entries(),
                tracker.entries(),
                deadline,
                plan@,
                run_id@,
                started,
                now,
            ));
        }
        deadline
    } else {
        assert(spawn_recorded(old(tracker).entries(), tracker.entries(), None, plan@, run_id@, started, 0i64));
        None
    }
}

} // verus!
