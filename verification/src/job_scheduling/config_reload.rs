//! Reloading the job definitions: the entries of the configured jobs are
//! stopped, the registry of outstanding runs is cleared, and the entries of
//! the newly loaded jobs take their place. Where loading fails, no entry of
//! a configured job is left.

use crate::config::job_config::{config_views, ConfigError, JobConfig, JobConfigView};
use crate::job_scheduling::dispatch::{
    job_entries, job_entry, schedule_jobs_from_config, scheduled_job_category,
    SCHEDULED_GAMAYUN_JOB_CATEGORY,
};
use crate::job_scheduling::schedule::{in_category, outside_category, CronEntryView, Schedule};
use crate::job_scheduling::scheduled_job_tracking_service::{JobView, ScheduledJobTrackingService};
use crate::text::{concat2, owned};
use vstd::prelude::*;

verus! {

/// The schedule after a reload that loaded `configs`: what was scheduled
/// outside the category of configured jobs, then the entries of `configs`.
pub open spec fn reloaded(prior: Seq<CronEntryView>, configs: Seq<JobConfigView>) -> Seq<CronEntryView> {
    prior.filter(outside_category(scheduled_job_category())) + job_entries(configs)
}

/// Why a reload failed, in words, where the entries could not be stopped.
pub open spec fn stop_failure(reason: Seq<char>) -> Seq<char> {
    "Failed to stop jobs by category: "@ + reason
}

/// Why a reload failed, in words, where the definitions were refused.
pub open spec fn load_failure(reason: Seq<char>) -> Seq<char> {
    "Failed to schedule jobs from config: "@ + reason
}

/// A filter keeps nothing of a sequence in which nothing passes.
pub proof fn lemma_filter_nothing(entries: Seq<CronEntryView>, pred: spec_fn(CronEntryView) -> bool)
    requires
        forall|i: int| 0 <= i < entries.len() ==> !pred(#[trigger] entries[i]),
    ensures
        entries.filter(pred) == Seq::<CronEntryView>::empty(),
    decreases entries.len(),
{
    reveal(Seq::filter);
    if entries.len() > 0 {
        let front = entries.drop_last();
        assert forall|i: int| 0 <= i < front.len() implies !pred(#[trigger] front[i]) by {
            assert(front[i] == entries[i]);
        }
        lemma_filter_nothing(front, pred);
        assert(!pred(entries[entries.len() - 1]));
    }
}

/// A filter keeps all of a sequence in which everything passes.
pub proof fn lemma_filter_everything(entries: Seq<CronEntryView>, pred: spec_fn(CronEntryView) -> bool)
    requires
        forall|i: int| 0 <= i < entries.len() ==> pred(#[trigger] entries[i]),
    ensures
        entries.filter(pred) == entries,
    decreases entries.len(),
{
    reveal(Seq::filter);
    if entries.len() > 0 {
        let front = entries.drop_last();
        assert forall|i: int| 0 <= i < front.len() implies pred(#[trigger] front[i]) by {
            assert(front[i] == entries[i]);
        }
        lemma_filter_everything(front, pred);
        assert(pred(entries[entries.len() - 1]));
        assert(front.push(entries.last()) =~= entries);
    }
}

/// After a reload, the entries of configured jobs are exactly those of
/// the newly loaded definitions, in their order, and every other entry is
/// the one it was.
pub proof fn lemma_reload_replaces_job_entries(prior: Seq<CronEntryView>, configs: Seq<JobConfigView>)
    ensures
        reloaded(prior, configs).filter(in_category(scheduled_job_category())) == job_entries(configs),
        reloaded(prior, configs).filter(outside_category(scheduled_job_category())) == prior.filter(
            outside_category(scheduled_job_category()),
        ),
{
    let inside = in_category(scheduled_job_category());
    let outside = outside_category(scheduled_job_category());
    let kept = prior.filter(outside);
    let added = job_entries(configs);
    assert forall|i: int| 0 <= i < kept.len() implies !inside(#[trigger] kept[i]) && outside(kept[i]) by {
        prior.lemma_filter_pred(outside, i);
    }
    assert forall|i: int| 0 <= i < added.len() implies inside(#[trigger] added[i]) && !outside(added[i]) by {
        assert(added[i] == job_entry(configs[i]));
    }
    Seq::filter_distributes_over_add(kept, added, inside);
    Seq::filter_distributes_over_add(kept, added, outside);
    lemma_filter_nothing(kept, inside);
    lemma_filter_everything(added, inside);
    lemma_filter_nothing(added, outside);
    lemma_filter_everything(kept, outside);
    assert(Seq::<CronEntryView>::empty() + added =~= added);
    assert(kept + Seq::<CronEntryView>::empty() =~= kept);
}

/// The first step of a reload, given what the scheduler answered to the
/// request to stop the entries of configured jobs. Where it stopped
/// them, they leave the schedule and the registry is cleared. Where it
/// failed, the reload fails and nothing changes.
pub fn stop_scheduled_jobs(
    scheduler: &mut Schedule,
    tracker: &mut ScheduledJobTrackingService,
    stopped: Result<(), String>,
) -> (r: Result<(), String>)
    ensures
        match stopped {
            Ok(_) => r is Ok && final(scheduler)@ == old(scheduler)@.filter(
                outside_category(scheduled_job_category()),
            ) && final(tracker).entries() == Seq::<JobView>::empty(),
            Err(reason) => r is Err && r->Err_0@ == stop_failure(reason@) && final(scheduler)@ == old(
                scheduler,
            )@ && final(tracker).entries() == old(tracker).entries(),
        },
{
    match stopped {
        Ok(_) => {
            scheduler.stop_jobs_by_category(&owned(SCHEDULED_GAMAYUN_JOB_CATEGORY));
            tracker.remove_all_jobs();
            Ok(())
        },
        Err(reason) => Err(concat2("Failed to stop jobs by category: ", reason.as_str())),
    }
}

/// A reload, given what loading the definitions gave.
///
/// The entries of configured jobs are stopped and the registry is
/// cleared, whatever was loaded. Where the definitions were accepted,
/// their entries are scheduled and the definitions returned. Where they
/// were refused, the reload fails and no entry of a configured job is
/// left.
pub fn handle_config_reload_request(
    scheduler: &mut Schedule,
    tracker: &mut ScheduledJobTrackingService,
    loaded: Result<Vec<JobConfig>, ConfigError>,
) -> (r: Result<Vec<JobConfig>, String>)
    ensures
        final(tracker).entries() == Seq::<JobView>::empty(),
        match loaded {
            Ok(configs) => r is Ok && r->Ok_0 == configs && final(scheduler)@ == reloaded(
                old(scheduler)@,
                config_views(configs@),
            ),
            Err(error) => r is Err && r->Err_0@ == load_failure(error@.message()) && final(scheduler)@
                == old(scheduler)@.filter(outside_category(scheduled_job_category())),
        },
{
    scheduler.stop_jobs_by_category(&owned(SCHEDULED_GAMAYUN_JOB_CATEGORY));
    tracker.remove_all_jobs();
    match loaded {
        Ok(configs) => {
            schedule_jobs_from_config(scheduler, &configs);
            Ok(configs)
        },
        Err(error) => Err(concat2("Failed to schedule jobs from config: ", error.message().as_str())),
    }
}

} // verus!
