use gamayun::config::job_config::{ConfigError, JobConfig};
use gamayun::job_scheduling::config_reload::{handle_config_reload_request, stop_scheduled_jobs};
use gamayun::job_scheduling::dispatch::{
    record_spawn, record_spawn_at, run_single_job, schedule_jobs_from_config, schedule_single_job,
    start_background_job_reporting_check, SCHEDULED_GAMAYUN_JOB_CATEGORY,
};
use gamayun::job_scheduling::schedule::{CronEntry, LaunchPlan, Schedule, Task};
use gamayun::job_scheduling::scheduled_job_tracking_service::ScheduledJobTrackingService;

fn s(text: &str) -> String {
    text.to_string()
}

fn job(name: &str) -> JobConfig {
    JobConfig {
        name: s(name),
        path_to_executable: format!("/opt/jobs/{}", name),
        arguments: vec![s("--once"), s("-v")],
        cron_string: s("0 */5 * * * *"),
        tags: vec![s("x")],
        result_wait_timeout_millis: None,
        random_trigger_offset_seconds: None,
        duplicate_entry_policy: None,
    }
}

fn plan(name: &str, timeout: i64) -> LaunchPlan {
    LaunchPlan {
        job_name: s(name),
        path_to_executable: s("/bin/true"),
        arguments: vec![s("a"), s("b")],
        result_wait_timeout_millis: timeout,
    }
}

fn names(schedule: &Schedule) -> Vec<Option<String>> {
    (0..schedule.len()).map(|i| schedule.get(i).unwrap().human_readable_name.clone()).collect()
}

#[test]
fn category_of_configured_jobs() {
    assert_eq!(SCHEDULED_GAMAYUN_JOB_CATEGORY, "SCHEDULED_GAMAYUN_JOB");
}

#[test]
fn job_entry_carries_schedule_category_and_launch_plan() {
    let mut config = job("ping");
    config.random_trigger_offset_seconds = Some(30);
    config.result_wait_timeout_millis = Some(5000);
    let entry = schedule_single_job(&config);
    assert_eq!(entry.cron_string, "0 */5 * * * *");
    assert_eq!(entry.human_readable_name, Some(s("ping")));
    assert_eq!(entry.category, Some(s("SCHEDULED_GAMAYUN_JOB")));
    assert_eq!(entry.fuzzy_offset_seconds, Some(30));
    match entry.task {
        Task::RunJob(plan) => {
            assert_eq!(plan.job_name, "ping");
            assert_eq!(plan.path_to_executable, "/opt/jobs/ping");
            assert_eq!(plan.arguments, vec![s("--once"), s("-v")]);
            assert_eq!(plan.result_wait_timeout_millis, 5000);
        }
        other => panic!("unexpected {:?}", other),
    }
}

#[test]
fn job_entry_defaults_timeout_and_has_no_offset() {
    let entry = schedule_single_job(&job("ping"));
    assert_eq!(entry.fuzzy_offset_seconds, None);
    match entry.task {
        Task::RunJob(plan) => assert_eq!(plan.result_wait_timeout_millis, 10_000),
        other => panic!("unexpected {:?}", other),
    }
}

#[test]
fn sweep_entry_fires_every_ten_minutes_outside_the_category() {
    let mut schedule = Schedule::new();
    let tracker = start_background_job_reporting_check(&mut schedule);
    assert_eq!(tracker.len(), 0);
    assert_eq!(schedule.len(), 1);
    let entry = schedule.get(0).unwrap();
    assert_eq!(entry.cron_string, "*/10 * * * *");
    assert_eq!(entry.human_readable_name, Some(s("Overdue Job Checker")));
    assert_eq!(entry.category, None);
    assert_eq!(entry.fuzzy_offset_seconds, Some(2));
    assert!(matches!(entry.task, Task::CheckOverdueJobs));
    assert!(schedule.get(1).is_none());
}

#[test]
fn jobs_are_scheduled_in_order_after_what_is_there() {
    let mut schedule = Schedule::new();
    start_background_job_reporting_check(&mut schedule);
    schedule_jobs_from_config(&mut schedule, &vec![job("a"), job("b")]);
    assert_eq!(names(&schedule), vec![Some(s("Overdue Job Checker")), Some(s("a")), Some(s("b"))]);
    schedule_jobs_from_config(&mut schedule, &vec![]);
    assert_eq!(schedule.len(), 3);
}

#[test]
fn stop_by_category_drops_only_that_category() {
    let mut schedule = Schedule::new();
    start_background_job_reporting_check(&mut schedule);
    schedule_jobs_from_config(&mut schedule, &vec![job("a")]);
    let mut other = schedule_single_job(&job("other"));
    other.category = Some(s("ELSE"));
    schedule.schedule_sequential_job(other);
    schedule_jobs_from_config(&mut schedule, &vec![job("b")]);
    schedule.stop_jobs_by_category(&s("SCHEDULED_GAMAYUN_JOB"));
    assert_eq!(names(&schedule), vec![Some(s("Overdue Job Checker")), Some(s("other"))]);
    schedule.stop_jobs_by_category(&s("NONE"));
    assert_eq!(schedule.len(), 2);
    schedule.stop_all_jobs();
    assert_eq!(schedule.len(), 0);
}

#[test]
fn cron_entry_clone_keeps_every_attribute() {
    let entry: CronEntry = schedule_single_job(&job("a")).clone();
    assert_eq!(entry.cron_string, "0 */5 * * * *");
    assert_eq!(entry.human_readable_name, Some(s("a")));
    assert_eq!(entry.category, Some(s("SCHEDULED_GAMAYUN_JOB")));
    match entry.task {
        Task::RunJob(plan) => assert_eq!(plan.arguments, vec![s("--once"), s("-v")]),
        other => panic!("unexpected {:?}", other),
    }
}

#[test]
fn spawn_request_exports_job_name_and_run_id() {
    let request = plan("ping", 100).spawn_request(s("R1"));
    assert_eq!(request.run_id, "R1");
    assert_eq!(request.program, "/bin/true");
    assert_eq!(request.arguments, vec![s("a"), s("b")]);
    assert_eq!(
        request.environment,
        vec![(s("GAMAYUN_JOB_NAME"), s("ping")), (s("GAMAYUN_JOB_UNIQUE_ID"), s("R1"))]
    );
}

#[test]
fn each_firing_gets_a_fresh_run_id() {
    let p = plan("ping", 100);
    let first = run_single_job(&p);
    let second = run_single_job(&p);
    assert!(!first.run_id.is_empty());
    assert_ne!(first.run_id, second.run_id);
    assert_eq!(first.run_id.len(), 36);
    assert_eq!(first.environment[1], (s("GAMAYUN_JOB_UNIQUE_ID"), first.run_id.clone()));
    assert_eq!(first.environment[0], (s("GAMAYUN_JOB_NAME"), s("ping")));
    assert_eq!(first.program, "/bin/true");
}

#[test]
fn started_run_is_registered_with_its_deadline() {
    let mut tracker = ScheduledJobTrackingService::new();
    assert_eq!(record_spawn_at(&mut tracker, &plan("ping", 5000), &s("R1"), true, 1_000), Some(6_000));
    assert_eq!(tracker.deadline_of(&s("R1")), Some(6_000));
    let notices = tracker.sweep(6_001);
    assert_eq!(notices[0].title, "Gamayun Overdue Job for ping");
}

#[test]
fn failed_spawn_registers_nothing() {
    let mut tracker = ScheduledJobTrackingService::new();
    assert_eq!(record_spawn_at(&mut tracker, &plan("ping", 5000), &s("R1"), false, 1_000), None);
    assert_eq!(record_spawn(&mut tracker, &plan("ping", 5000), &s("R2"), false), None);
    assert_eq!(tracker.len(), 0);
    assert_eq!(record_spawn_at(&mut tracker, &plan("ping", i64::MAX), &s("R3"), true, 1), None);
    assert_eq!(tracker.len(), 0);
}

#[test]
fn record_spawn_reads_the_clock() {
    let mut tracker = ScheduledJobTrackingService::new();
    let deadline = record_spawn(&mut tracker, &plan("ping", 5000), &s("R1"), true).unwrap();
    assert!(deadline > 1_600_000_000_000);
    assert_eq!(tracker.deadline_of(&s("R1")), Some(deadline));
}

#[test]
fn reload_replaces_the_entries_of_configured_jobs() {
    let mut schedule = Schedule::new();
    let mut tracker = start_background_job_reporting_check(&mut schedule);
    schedule_jobs_from_config(&mut schedule, &vec![job("A")]);
    tracker.add_job_at(s("A"), s("R1"), 0, 100);
    let configs = handle_config_reload_request(&mut schedule, &mut tracker, Ok(vec![job("B")])).unwrap();
    assert_eq!(configs.len(), 1);
    assert_eq!(configs[0].name, "B");
    assert_eq!(names(&schedule), vec![Some(s("Overdue Job Checker")), Some(s("B"))]);
    let in_category = (0..schedule.len())
        .filter(|i| schedule.get(*i).unwrap().category == Some(s("SCHEDULED_GAMAYUN_JOB")))
        .count();
    assert_eq!(in_category, 1);
    assert_eq!(tracker.len(), 0);
}

#[test]
fn reload_with_many_jobs_keeps_their_order() {
    let mut schedule = Schedule::new();
    let mut tracker = ScheduledJobTrackingService::new();
    schedule_jobs_from_config(&mut schedule, &vec![job("old1"), job("old2")]);
    handle_config_reload_request(&mut schedule, &mut tracker, Ok(vec![job("c"), job("a"), job("b")])).unwrap();
    assert_eq!(names(&schedule), vec![Some(s("c")), Some(s("a")), Some(s("b"))]);
    handle_config_reload_request(&mut schedule, &mut tracker, Ok(vec![])).unwrap();
    assert_eq!(schedule.len(), 0);
}

#[test]
fn failed_reload_leaves_no_configured_job_scheduled() {
    let mut schedule = Schedule::new();
    let mut tracker = start_background_job_reporting_check(&mut schedule);
    schedule_jobs_from_config(&mut schedule, &vec![job("A"), job("B")]);
    tracker.add_job_at(s("A"), s("R1"), 0, 100);
    let error = handle_config_reload_request(
        &mut schedule,
        &mut tracker,
        Err(ConfigError::DuplicateName { name: s("A") }),
    )
    .unwrap_err();
    assert_eq!(error, "Failed to schedule jobs from config: Duplicate job name 'A'");
    assert_eq!(names(&schedule), vec![Some(s("Overdue Job Checker"))]);
    assert_eq!(tracker.len(), 0);
}

#[test]
fn stop_step_follows_the_scheduler() {
    let mut schedule = Schedule::new();
    let mut tracker = start_background_job_reporting_check(&mut schedule);
    schedule_jobs_from_config(&mut schedule, &vec![job("A")]);
    tracker.add_job_at(s("A"), s("R1"), 0, 100);
    assert_eq!(
        stop_scheduled_jobs(&mut schedule, &mut tracker, Err(s("Mutex error: poisoned"))).unwrap_err(),
        "Failed to stop jobs by category: Mutex error: poisoned"
    );
    assert_eq!(schedule.len(), 2);
    assert_eq!(tracker.len(), 1);
    assert!(stop_scheduled_jobs(&mut schedule, &mut tracker, Ok(())).is_ok());
    assert_eq!(names(&schedule), vec![Some(s("Overdue Job Checker"))]);
    assert_eq!(tracker.len(), 0);
}

#[test]
fn started_run_without_timeout_is_due_at_once() {
    let mut tracker = ScheduledJobTrackingService::new();
    let deadline = record_spawn(&mut tracker, &plan("ping", 0), &s("R1"), true).unwrap();
    assert_eq!(tracker.deadline_of(&s("R1")), Some(deadline));
    assert_eq!(tracker.len(), 1);
    assert_eq!(record_spawn(&mut tracker, &plan("ping", 0), &s("R1"), false), None);
    assert_eq!(tracker.deadline_of(&s("R1")), Some(deadline));
}
