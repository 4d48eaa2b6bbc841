use gamayun::job_scheduling::scheduled_job_tracking_service::ScheduledJobTrackingService;

fn s(text: &str) -> String {
    text.to_string()
}

#[test]
fn new_registry_is_empty() {
    let tracker = ScheduledJobTrackingService::new();
    assert_eq!(tracker.len(), 0);
    assert!(!tracker.is_tracking(&s("R1")));
    assert_eq!(tracker.deadline_of(&s("R1")), None);
}

#[test]
fn add_then_report_leaves_registry_empty() {
    let mut tracker = ScheduledJobTrackingService::new();
    assert_eq!(tracker.add_job_at(s("ping"), s("R1"), 1_000, 5_000), Some(6_000));
    assert_eq!(tracker.len(), 1);
    assert_eq!(tracker.deadline_of(&s("R1")), Some(6_000));
    assert!(tracker.report_result_returned(&s("R1")));
    assert_eq!(tracker.len(), 0);
    assert!(!tracker.is_tracking(&s("R1")));
}

#[test]
fn deadline_is_start_plus_timeout() {
    let mut tracker = ScheduledJobTrackingService::new();
    assert_eq!(tracker.add_job_at(s("a"), s("R1"), 1_700_000_000_000, 10_000), Some(1_700_000_010_000));
    assert_eq!(tracker.add_job_at(s("a"), s("R2"), -5, 5), Some(0));
    assert_eq!(tracker.add_job_at(s("a"), s("R3"), 100, -30), Some(70));
}

#[test]
fn later_registration_replaces_earlier_one_of_same_run() {
    let mut tracker = ScheduledJobTrackingService::new();
    tracker.add_job_at(s("first"), s("R1"), 0, 100);
    tracker.add_job_at(s("other"), s("R2"), 0, 100);
    tracker.add_job_at(s("second"), s("R1"), 50, 100);
    assert_eq!(tracker.len(), 2);
    assert_eq!(tracker.deadline_of(&s("R1")), Some(150));
    let notices = tracker.sweep(140);
    assert_eq!(notices.len(), 1);
    assert_eq!(notices[0].title, "Gamayun Overdue Job for other");
    assert!(tracker.is_tracking(&s("R1")));
}

#[test]
fn deadline_out_of_range_registers_nothing() {
    let mut tracker = ScheduledJobTrackingService::new();
    tracker.add_job_at(s("a"), s("R1"), 0, 100);
    assert_eq!(tracker.add_job_at(s("b"), s("R2"), i64::MAX, 1), None);
    assert_eq!(tracker.add_job_at(s("b"), s("R1"), i64::MIN, -1), None);
    assert_eq!(tracker.len(), 1);
    assert_eq!(tracker.deadline_of(&s("R1")), Some(100));
    assert_eq!(tracker.add_job_at(s("b"), s("R3"), i64::MAX, 0), Some(i64::MAX));
}

#[test]
fn report_for_unknown_run_changes_nothing() {
    let mut tracker = ScheduledJobTrackingService::new();
    tracker.add_job_at(s("a"), s("R1"), 0, 100);
    assert!(!tracker.report_result_returned(&s("R9")));
    assert_eq!(tracker.len(), 1);
    assert!(tracker.is_tracking(&s("R1")));
}

#[test]
fn report_removes_only_the_named_run() {
    let mut tracker = ScheduledJobTrackingService::new();
    tracker.add_job_at(s("a"), s("R1"), 0, 100);
    tracker.add_job_at(s("a"), s("R2"), 0, 200);
    tracker.add_job_at(s("b"), s("R3"), 0, 300);
    assert!(tracker.report_result_returned(&s("R2")));
    assert_eq!(tracker.len(), 2);
    assert_eq!(tracker.deadline_of(&s("R1")), Some(100));
    assert_eq!(tracker.deadline_of(&s("R2")), None);
    assert_eq!(tracker.deadline_of(&s("R3")), Some(300));
}

#[test]
fn remove_all_jobs_clears_without_notice() {
    let mut tracker = ScheduledJobTrackingService::new();
    tracker.add_job_at(s("a"), s("R1"), 0, 100);
    tracker.add_job_at(s("b"), s("R2"), 0, 100);
    tracker.remove_all_jobs();
    assert_eq!(tracker.len(), 0);
    assert!(tracker.sweep(i64::MAX).is_empty());
}

#[test]
fn sweep_notifies_overdue_runs_in_order_and_keeps_the_rest() {
    let mut tracker = ScheduledJobTrackingService::new();
    tracker.add_job_at(s("late"), s("R1"), 0, 100);
    tracker.add_job_at(s("fine"), s("R2"), 0, 500);
    tracker.add_job_at(s("late-too"), s("R3"), 0, 50);
    let notices = tracker.sweep(200);
    assert_eq!(notices.len(), 2);
    assert_eq!(notices[0].title, "Gamayun Overdue Job for late");
    assert_eq!(notices[0].contents, "Job with name late and run ID R1 is overdue.");
    assert_eq!(notices[1].title, "Gamayun Overdue Job for late-too");
    assert_eq!(notices[1].contents, "Job with name late-too and run ID R3 is overdue.");
    assert_eq!(tracker.len(), 1);
    assert!(tracker.is_tracking(&s("R2")));
    assert!(!tracker.is_tracking(&s("R1")));
    assert!(!tracker.is_tracking(&s("R3")));
}

#[test]
fn run_is_overdue_only_after_its_deadline() {
    let mut tracker = ScheduledJobTrackingService::new();
    tracker.add_job_at(s("edge"), s("R1"), 0, 100);
    assert!(tracker.sweep(99).is_empty());
    assert!(tracker.sweep(100).is_empty());
    assert_eq!(tracker.len(), 1);
    assert_eq!(tracker.sweep(101).len(), 1);
    assert_eq!(tracker.len(), 0);
}

#[test]
fn second_sweep_finds_nothing_new() {
    let mut tracker = ScheduledJobTrackingService::new();
    tracker.add_job_at(s("a"), s("R1"), 0, 100);
    assert_eq!(tracker.sweep(1_000).len(), 1);
    assert!(tracker.sweep(2_000).is_empty());
}

#[test]
fn deadline_miss_is_notified_and_empties_registry() {
    let mut tracker = ScheduledJobTrackingService::new();
    tracker.add_job_at(s("slow"), s("R-slow"), 1_000, 100);
    let notices = tracker.sweep(1_000 + 600_000);
    assert_eq!(notices.len(), 1);
    assert_eq!(notices[0].title, "Gamayun Overdue Job for slow");
    assert_eq!(notices[0].contents, "Job with name slow and run ID R-slow is overdue.");
    assert_eq!(tracker.len(), 0);
}

#[test]
fn add_job_reads_the_clock() {
    let mut tracker = ScheduledJobTrackingService::new();
    let first = tracker.add_job(s("a"), s("R1"), 60_000).expect("deadline in range");
    let second = tracker.add_job(s("a"), s("R2"), 120_000).expect("deadline in range");
    assert!(first > 1_600_000_000_000);
    assert!(second >= first + 60_000);
    assert_eq!(tracker.deadline_of(&s("R1")), Some(first));
    assert_eq!(tracker.deadline_of(&s("R2")), Some(second));
    assert_eq!(tracker.add_job(s("a"), s("R3"), i64::MAX), None);
    assert_eq!(tracker.len(), 2);
}

#[test]
fn check_overdue_jobs_sweeps_at_the_current_time() {
    let mut tracker = ScheduledJobTrackingService::new();
    tracker.add_job_at(s("old"), s("R1"), 0, 100);
    tracker.add_job(s("fresh"), s("R2"), 3_600_000);
    let notices = tracker.check_overdue_jobs();
    assert_eq!(notices.len(), 1);
    assert_eq!(notices[0].contents, "Job with name old and run ID R1 is overdue.");
    assert_eq!(tracker.len(), 1);
    assert!(tracker.is_tracking(&s("R2")));
}
