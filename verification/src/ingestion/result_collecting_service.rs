//! The ingestion service: which reply each message gets, what is stored
//! for it, and when its run leaves the registry.

use crate::config::job_config::{
    config_views, DuplicateEntryPolicy, DuplicateEntryPolicyView, JobConfig, JobConfigView,
    OnDuplicateEntry,
};
use crate::ingestion::policy::{decide, optional_view, store_based_on_duplicate_policy};
use crate::ingestion::record::{
    build_document, candidate_document, lookup, record_map, unique_filter, RecordView,
};
use crate::job_scheduling::scheduled_job_tracking_service::{
    other_run, tracks, ScheduledJobTrackingService,
};
use crate::notification::{job_error_notification, Notification};
use crate::storage::collection::{apply_action, find_first, Collection, StoreAction, StoreActionView};
use crate::storage::document::{ResultDocument, DocumentView, Value};
use crate::system::now_millis;
use crate::text::{concat2, owned, texts};
use vstd::prelude::*;

verus! {

/// Names the run that a message is about.
#[derive(Debug)]
pub struct RunInformation {
    pub job_name: String,
    pub run_id: String,
}

/// One reported record: keys with their values.
#[derive(Debug)]
pub struct MapResult {
    pub map_result: Vec<(String, String)>,
}

/// A result with data.
#[derive(Debug)]
pub struct JobResult {
    pub run_information: Option<RunInformation>,
    pub results: Vec<MapResult>,
}

/// An error that a job reports of itself.
#[derive(Debug)]
pub struct JobError {
    pub run_information: Option<RunInformation>,
    pub error: String,
}

/// The acknowledgement of an accepted message.
#[derive(Debug, Clone, Copy, PartialEq, Eq, Structural)]
pub struct EmptyResponse {}

/// Why a message was refused.
#[derive(Debug)]
pub enum Status {
    /// The message does not say which run it is about.
    InvalidArgument(String),
    /// No loaded job has the name that the message gives.
    NotFound(String),
    /// The document store failed.
    Internal(String),
}

/// A [`Status`] as plain values.
pub enum StatusView {
    InvalidArgument(Seq<char>),
    NotFound(Seq<char>),
    Internal(Seq<char>),
}

impl View for Status {
    type V = StatusView;

    open spec fn view(&self) -> StatusView {
        match self {
            Status::InvalidArgument(m) => StatusView::InvalidArgument(m@),
            Status::NotFound(m) => StatusView::NotFound(m@),
            Status::Internal(m) => StatusView::Internal(m@),
        }
    }
}

/// The refusal of a message that names no run.
pub open spec fn missing_run_information() -> StatusView {
    StatusView::InvalidArgument("RunInformation is required"@)
}

/// The refusal of a message for a job that is not loaded.
pub open spec fn unknown_job(job_name: Seq<char>) -> StatusView {
    StatusView::NotFound("No job config found for job name: "@ + job_name)
}

/// The refusal of a message whose documents could not be stored.
pub open spec fn store_failed(reason: Seq<char>) -> StatusView {
    StatusView::Internal("MongoDB error: "@ + reason)
}

/// `i` is the position of the first job definition named `job_name`.
pub open spec fn is_first_named(configs: Seq<JobConfigView>, job_name: Seq<char>, i: int) -> bool {
    &&& 0 <= i < configs.len()
    &&& configs[i].name == job_name
    &&& forall|j: int| 0 <= j < i ==> (#[trigger] configs[j]).name != job_name
}

/// Whether some job definition is named `job_name`.
pub open spec fn knows_job(configs: Seq<JobConfigView>, job_name: Seq<char>) -> bool {
    exists|i: int| 0 <= i < configs.len() && (#[trigger] configs[i]).name == job_name
}

/// One record on its way into the store: the candidate document, the
/// filter that finds what is stored for it, and the policy to apply.
#[derive(Debug)]
pub struct PendingStore {
    pub document: ResultDocument,
    pub filter: ResultDocument,
    pub on_duplicate_entry: OnDuplicateEntry,
}

/// A [`PendingStore`] as plain values.
pub struct PendingStoreView {
    pub document: DocumentView,
    pub filter: DocumentView,
    pub on_duplicate_entry: OnDuplicateEntry,
}

impl View for PendingStore {
    type V = PendingStoreView;

    open spec fn view(&self) -> PendingStoreView {
        PendingStoreView {
            document: self.document@,
            filter: self.filter@,
            on_duplicate_entry: self.on_duplicate_entry,
        }
    }
}

/// What is prepared for a record reported at `now`.
pub open spec fn pending_store(
    policy: DuplicateEntryPolicyView,
    tags: Seq<Seq<char>>,
    record: RecordView,
    now: i64,
) -> PendingStoreView {
    PendingStoreView {
        document: candidate_document(record, tags, now),
        filter: unique_filter(record, policy.unique_ids),
        on_duplicate_entry: policy.on_duplicate_entry,
    }
}

impl PendingStoreView {
    /// The action to take, given the earliest stored match of the filter.
    pub open spec fn resolve(self, existing: Option<DocumentView>, now: i64) -> StoreActionView {
        decide(self.on_duplicate_entry, self.document, self.filter, existing, now)
    }

    /// The collection after this record was stored at `now`.
    pub open spec fn stored_into(self, docs: Seq<DocumentView>, now: i64) -> Seq<DocumentView> {
        let existing = match find_first(docs, self.filter) {
            Some(i) => Some(docs[i]),
            None => None,
        };
        apply_action(docs, self.resolve(existing, now))
    }
}

impl PendingStore {
    /// The action to take at `now`, given the earliest stored document
    /// that matches the filter.
    pub fn resolve_at(self, existing: Option<&ResultDocument>, now: i64) -> (action: StoreAction)
        ensures
            action@ == self@.resolve(optional_view(existing), now),
    {
        store_based_on_duplicate_policy(self.on_duplicate_entry, self.document, self.filter, existing, now)
    }

    /// The action to take just now, given the earliest stored document
    /// that matches the filter.
    pub fn resolve(self, existing: Option<&ResultDocument>) -> (action: StoreAction)
        ensures
            exists|now: i64| action@ == self@.resolve(optional_view(existing), now),
    {
        let now = now_millis();
        self.resolve_at(existing, now)
    }
}

impl Collection {
    /// Stores one record: looks up the earliest match of its filter and
    /// carries out what the policy asks for.
    pub fn store(&mut self, pending: PendingStore, now: i64)
        ensures
            final(self)@ == pending@.stored_into(old(self)@, now),
    {
        let action = {
            let existing = self.find_one(&pending.filter);
            pending.resolve_at(existing, now)
        };
        self.apply(action);
    }
}

/// The views of a list of prepared records, in order.
pub open spec fn pending_views(v: Seq<PendingStore>) -> Seq<PendingStoreView> {
    Seq::new(v.len(), |i: int| v[i]@)
}

/// What is prepared for each record of a message for `config`.
pub open spec fn pending_stores(config: JobConfigView, results: Seq<MapResult>, now: i64) -> Seq<
    PendingStoreView,
> {
    Seq::new(
        results.len(),
        |i: int| pending_store(config.effective_policy(), config.tags, record_map(results[i].map_result@), now),
    )
}

/// The ingestion service over one snapshot of the job definitions.
#[derive(Debug)]
pub struct ResultCollectingService {
    pub job_configs: Vec<JobConfig>,
}

impl ResultCollectingService {
    /// The service for these job definitions.
    pub fn new(job_configs: Vec<JobConfig>) -> (r: Self)
        ensures
            r.job_configs == job_configs,
    {
        ResultCollectingService { job_configs }
    }

    /// The first job definition named `job_name`.
    pub fn match_job_config(&self, job_name: &String) -> (r: Result<&JobConfig, Status>)
        ensures
            match r {
                Ok(config) => exists|i: int|
                    is_first_named(config_views(self.job_configs@), job_name@, i) && config@
                        == #[trigger] config_views(self.job_configs@)[i],
                Err(status) => !knows_job(config_views(self.job_configs@), job_name@) && status@
                    == unknown_job(job_name@),
            },
    {
        let ghost configs = config_views(self.job_configs@);
        let mut i: usize = 0;
        while i < self.job_configs.len()
            invariant
                i <= self.job_configs.len(),
                configs == config_views(self.job_configs@),
                forall|j: int| 0 <= j < i ==> (#[trigger] configs[j]).name != job_name@,
            decreases self.job_configs.len() - i,
        {
            if self.job_configs[i].name.eq(job_name) {
                assert(is_first_named(configs, job_name@, i as int));
                return Ok(&self.job_configs[i]);
            }
            i = i + 1;
        }
        Err(Status::NotFound(concat2("No job config found for job name: ", job_name.as_str())))
    }

    /// The filter that finds what is stored for a record.
    pub fn build_unique_filter(map: &Vec<(String, String)>, policy: &DuplicateEntryPolicy) -> (filter:
        ResultDocument)
        ensures
            filter@ == unique_filter(record_map(map@), policy@.unique_ids),
    {
        let ghost record = record_map(map@);
        let ghost ids = texts(policy.unique_ids@);
        let mut filter = ResultDocument::new();
        assert(filter@ =~= unique_filter(record, ids.take(0)));
        let mut i: usize = 0;
        while i < policy.unique_ids.len()
            invariant
                i <= policy.unique_ids.len(),
                record == record_map(map@),
                ids == texts(policy.unique_ids@),
                filter@ == unique_filter(record, ids.take(i as int)),
            decreases policy.unique_ids.len() - i,
        {
            let unique_field = &policy.unique_ids[i];
            let ghost before = filter@;
            proof {
                assert(ids.take(i as int + 1) =~= ids.take(i as int).push(unique_field@));
                assert forall|name: Seq<char>|
                    ids.take(i as int + 1).contains(name) <==> ids.take(i as int).contains(name) || name
                        == unique_field@ by {
                    if ids.take(i as int).contains(name) {
                        let k = choose|k: int| 0 <= k < i && ids.take(i as int)[k] == name;
                        assert(ids.take(i as int + 1)[k] == name);
                    }
                    if name == unique_field@ {
                        assert(ids.take(i as int + 1)[i as int] == name);
                    }
                }
            }
            match lookup(map, unique_field) {
                Some(value) => {
                    filter.insert(unique_field.clone(), Value::Text(value.clone()));
                },
                None => {},
            }
            proof {
                let next = unique_filter(record, ids.take(i as int + 1));
                assert forall|name: Seq<char>| filter@.contains_key(name) == next.contains_key(name) by {
                    assert(ids.take(i as int + 1).contains(name) <==> ids.take(i as int).contains(name)
                        || name == unique_field@);
                }
                assert(filter@.dom() =~= next.dom());
                assert forall|name: Seq<char>| filter@.contains_key(name) implies filter@[name] == next[name] by {
                }
                assert(filter@ =~= next);
            }
            i = i + 1;
        }
        assert(ids.take(i as int) =~= ids);
        filter
    }

    /// What is prepared for one record reported at `now`.
    pub fn handle_single_result(
        duplicate_policy: &DuplicateEntryPolicy,
        tags: &Vec<String>,
        map_result: &MapResult,
        now: i64,
    ) -> (pending: PendingStore)
        ensures
            pending@ == pending_store(
                duplicate_policy@,
                texts(tags@),
                record_map(map_result.map_result@),
                now,
            ),
    {
        let document = build_document(&map_result.map_result, tags, now);
        let filter = Self::build_unique_filter(&map_result.map_result, duplicate_policy);
        PendingStore { document, filter, on_duplicate_entry: duplicate_policy.on_duplicate_entry }
    }

    /// What is prepared for the records that a run of `job_name` reported
    /// at `now`, in their order. Fails where no such job is loaded.
    pub fn handle_result_map_only(&self, job_name: &String, results: &Vec<MapResult>, now: i64) -> (r:
        Result<Vec<PendingStore>, Status>)
        ensures
            match r {
                Ok(stores) => exists|i: int|
                    is_first_named(config_views(self.job_configs@), job_name@, i) && pending_views(stores@)
                        == pending_stores(#[trigger] config_views(self.job_configs@)[i], results@, now),
                Err(status) => !knows_job(config_views(self.job_configs@), job_name@) && status@
                    == unknown_job(job_name@),
            },
    {
        let job_config = match self.match_job_config(job_name) {
            Ok(config) => config,
            Err(status) => {
                return Err(status);
            },
        };
        let duplicate_policy = job_config.effective_policy();
        let mut stores: Vec<PendingStore> = Vec::new();
        let mut i: usize = 0;
        while i < results.len()
            invariant
                i <= results.len(),
                duplicate_policy@ == job_config@.effective_policy(),
                stores.len() == i,
                forall|k: int|
                    0 <= k < i ==> (#[trigger] stores[k])@ == pending_store(
                        job_config@.effective_policy(),
                        job_config@.tags,
                        record_map(results[k].map_result@),
                        now,
                    ),
            decreases results.len() - i,
        {
            stores.push(Self::handle_single_result(&duplicate_policy, &job_config.tags, &results[i], now));
            i = i + 1;
        }
        assert(pending_views(stores@) =~= pending_stores(job_config@, results@, now));
        Ok(stores)
    }
}

/// What an accepted result message asks for: the records to store, and
/// the run to take out of the registry once they are stored.
#[derive(Debug)]
pub struct IngestPlan {
    pub run_information: RunInformation,
    pub stores: Vec<PendingStore>,
}

/// The collection after each of the prepared records was stored at `now`,
/// in their order.
pub open spec fn stored_all(stores: Seq<PendingStoreView>, docs: Seq<DocumentView>, now: i64) -> Seq<
    DocumentView,
>
    decreases stores.len(),
{
    if stores.len() == 0 {
        docs
    } else {
        stores.last().stored_into(stored_all(stores.drop_last(), docs, now), now)
    }
}

/// Whether `r` is the answer to a result with data that arrived at `now`.
pub open spec fn answers(
    configs: Seq<JobConfigView>,
    request: JobResult,
    now: i64,
    r: Result<IngestPlan, Status>,
) -> bool {
    match request.run_information {
        None => r is Err && r->Err_0@ == missing_run_information(),
        Some(info) => match r {
            Ok(plan) => plan.run_information == info && exists|i: int|
                is_first_named(configs, info.job_name@, i) && pending_views(plan.stores@) == pending_stores(
                    #[trigger] configs[i],
                    request.results@,
                    now,
                ),
            Err(status) => !knows_job(configs, info.job_name@) && status@ == unknown_job(info.job_name@),
        },
    }
}

impl ResultCollectingService {
    /// Accepts or refuses a result with data that arrived at `now`.
    ///
    /// A message without run information is refused as an invalid
    /// argument, one for a job that is not loaded as not found. An accepted
    /// message yields what is to be stored for each of its records.
    pub fn report_result_at(&self, request: JobResult, now: i64) -> (r: Result<IngestPlan, Status>)
        ensures
            answers(config_views(self.job_configs@), request, now, r),
    {
        match request.run_information {
            Some(run_information) => {
                match self.handle_result_map_only(&run_information.job_name, &request.results, now) {
                    Ok(stores) => Ok(IngestPlan { run_information, stores }),
                    Err(status) => Err(status),
                }
            },
            None => Err(Status::InvalidArgument(owned("RunInformation is required"))),
        }
    }

    /// Accepts or refuses a result with data that arrives just now.
    pub fn report_result(&self, request: JobResult) -> (r: Result<IngestPlan, Status>)
        ensures
            exists|now: i64| answers(config_views(self.job_configs@), request, now, r),
    {
        let now = now_millis();
        self.report_result_at(request, now)
    }

    /// Closes a result message once the store has answered.
    ///
    /// Where every record was stored, the run leaves the registry and the
    /// message is acknowledged. Where the store failed, the message is
    /// refused as an internal failure and the registry stays as it was.
    pub fn complete_report(
        tracker: &mut ScheduledJobTrackingService,
        run_information: &RunInformation,
        outcome: Result<(), String>,
    ) -> (r: Result<EmptyResponse, Status>)
        ensures
            match outcome {
                Ok(_) => r is Ok && final(tracker).entries() == old(tracker).entries().filter(
                    other_run(run_information.run_id@),
                ) && !tracks(final(tracker).entries(), run_information.run_id@),
                Err(reason) => r is Err && r->Err_0@ == store_failed(reason@) && final(tracker).entries()
                    == old(tracker).entries(),
            },
    {
        match outcome {
            Ok(_) => {
                tracker.report_result_returned(&run_information.run_id);
                Ok(EmptyResponse {  })
            },
            Err(reason) => Err(Status::Internal(concat2("MongoDB error: ", reason.as_str()))),
        }
    }

    /// Handles the report of a run that produced nothing: the run leaves
    /// the registry. A report for a job that is not loaded is refused and
    /// changes nothing.
    pub fn handle_reported_no_result(
        &self,
        tracker: &mut ScheduledJobTrackingService,
        run_information: RunInformation,
    ) -> (r: Result<EmptyResponse, Status>)
        ensures
            match r {
                Ok(_) => knows_job(config_views(self.job_configs@), run_information.job_name@)
                    && final(tracker).entries() == old(tracker).entries().filter(
                    other_run(run_information.run_id@),
                ) && !tracks(final(tracker).entries(), run_information.run_id@),
                Err(status) => !knows_job(config_views(self.job_configs@), run_information.job_name@)
                    && status@ == unknown_job(run_information.job_name@) && final(tracker).entries()
                    == old(tracker).entries(),
            },
    {
        match self.match_job_config(&run_information.job_name) {
            Ok(_) => {
                tracker.report_result_returned(&run_information.run_id);
                Ok(EmptyResponse {  })
            },
            Err(status) => Err(status),
        }
    }

    /// Accepts or refuses a report of a run that produced nothing.
    pub fn report_no_result(&self, tracker: &mut ScheduledJobTrackingService, request: RunInformation) -> (r:
        Result<EmptyResponse, Status>)
        ensures
            match r {
                Ok(_) => knows_job(config_views(self.job_configs@), request.job_name@)
                    && final(tracker).entries() == old(tracker).entries().filter(other_run(request.run_id@))
                    && !tracks(final(tracker).entries(), request.run_id@),
                Err(status) => !knows_job(config_views(self.job_configs@), request.job_name@) && status@
                    == unknown_job(request.job_name@) && final(tracker).entries() == old(tracker).entries(),
            },
    {
        self.handle_reported_no_result(tracker, request)
    }

    /// Handles an error that a run reported: the run leaves the registry,
    /// and the notification for the operators is returned. A report for a
    /// job that is not loaded is refused and changes nothing.
    pub fn handle_error(
        &self,
        tracker: &mut ScheduledJobTrackingService,
        error: String,
        run_information: RunInformation,
    ) -> (r: Result<Notification, Status>)
        ensures
            match r {
                Ok(notice) => knows_job(config_views(self.job_configs@), run_information.job_name@)
                    && notice@ == job_error_notification(
                    run_information.job_name@,
                    run_information.run_id@,
                    error@,
                ) && final(tracker).entries() == old(tracker).entries().filter(
                    other_run(run_information.run_id@),
                ) && !tracks(final(tracker).entries(), run_information.run_id@),
                Err(status) => !knows_job(config_views(self.job_configs@), run_information.job_name@)
                    && status@ == unknown_job(run_information.job_name@) && final(tracker).entries()
                    == old(tracker).entries(),
            },
    {
        match self.match_job_config(&run_information.job_name) {
            Ok(_) => {
                tracker.report_result_returned(&run_information.run_id);
                Ok(
                    Notification::job_error(
                        run_information.job_name.as_str(),
                        run_information.run_id.as_str(),
                        error.as_str(),
                    ),
                )
            },
            Err(status) => Err(status),
        }
    }

    /// Accepts or refuses an error report.
    pub fn report_error(&self, tracker: &mut ScheduledJobTrackingService, request: JobError) -> (r: Result<
        Notification,
        Status,
    >)
        ensures
            match request.run_information {
                None => r is Err && r->Err_0@ == missing_run_information() && final(tracker).entries()
                    == old(tracker).entries(),
                Some(info) => match r {
                    Ok(notice) => knows_job(config_views(self.job_configs@), info.job_name@) && notice@
                        == job_error_notification(info.job_name@, info.run_id@, request.error@)
                        && final(tracker).entries() == old(tracker).entries().filter(
                        other_run(info.run_id@),
                    ) && !tracks(final(tracker).entries(), info.run_id@),
                    Err(status) => !knows_job(config_views(self.job_configs@), info.job_name@)
                        && status@ == unknown_job(info.job_name@) && final(tracker).entries() == old(tracker).entries(),
                },
            },
    {
        match request.run_information {
            Some(run_information) => self.handle_error(tracker, request.error, run_information),
            None => Err(Status::InvalidArgument(owned("RunInformation is required"))),
        }
    }

    /// Handles a result with data against a collection held in memory:
    /// every record is stored in order, then the run leaves the registry.
    /// A refused message changes neither the collection nor the registry.
    pub fn ingest(
        &self,
        tracker: &mut ScheduledJobTrackingService,
        collection: &mut Collection,
        request: JobResult,
        now: i64,
    ) -> (r: Result<EmptyResponse, Status>)
        ensures
            match request.run_information {
                None => r is Err && r->Err_0@ == missing_run_information() && final(tracker).entries()
                    == old(tracker).entries() && final(collection)@ == old(collection)@,
                Some(info) => match r {
                    Ok(_) => !tracks(final(tracker).entries(), info.run_id@) && final(tracker).entries()
                        == old(tracker).entries().filter(other_run(info.run_id@)) && exists|i: int|
                        is_first_named(config_views(self.job_configs@), info.job_name@, i) && final(collection)@ == stored_all(
                            pending_stores(
                                #[trigger] config_views(self.job_configs@)[i],
                                request.results@,
                                now,
                            ),
                            old(collection)@,
                            now,
                        ),
                    Err(status) => !knows_job(config_views(self.job_configs@), info.job_name@)
                        && status@ == unknown_job(info.job_name@) && final(tracker).entries() == old(tracker).entries() && final(collection)@ == old(collection)@,
                },
            },
    {
        let plan = match self.report_result_at(request, now) {
            Ok(plan) => plan,
            Err(status) => {
                return Err(status);
            },
        };
        let ghost planned = pending_views(plan.stores@);
        let ghost start = collection@;
        let run_information = plan.run_information;
        let mut stores = plan.stores;
        let mut rest: Vec<PendingStore> = Vec::new();
        // The records are taken from the back, so turn the list around first.
        while stores.len() > 0
            invariant
                stores.len() + rest.len() == planned.len(),
                forall|k: int| 0 <= k < stores.len() ==> (#[trigger] stores[k])@ == planned[k],
                forall|k: int|
                    0 <= k < rest.len() ==> (#[trigger] rest[k])@ == planned[planned.len() - 1 - k],
            decreases stores.len(),
        {
            let pending = stores.pop().unwrap();
            rest.push(pending);
        }
        let ghost done: int = 0;
        while rest.len() > 0
            invariant
                0 <= done <= planned.len(),
                rest.len() == planned.len() - done,
                forall|k: int|
                    0 <= k < rest.len() ==> (#[trigger] rest[k])@ == planned[planned.len() - 1 - k],
                collection@ == stored_all(planned.take(done), start, now),
            decreases rest.len(),
        {
            let pending = rest.pop().unwrap();
            proof {
                assert(pending@ == planned[done]);
                assert(planned.take(done + 1).drop_last() =~= planned.take(done));
            }
            collection.store(pending, now);
            proof {
                done = done + 1;
            }
        }
        assert(planned.take(done) =~= planned);
        tracker.report_result_returned(&run_information.run_id);
        Ok(EmptyResponse {  })
    }
}

} // verus!
