//! One worker of the pool, as a sequence of steps.
//!
//! A worker takes an entry from the dispatch queue, calls the old target, then
//! the new one, compares the two bodies and reports. The calls themselves are
//! the caller's business: each function here returns the next step, and the
//! caller comes back with what the step brought.

use crossbeam::channel::Receiver;
use vstd::prelude::*;

use crate::dispatch_queue::queue_recv;
use crate::http_client::request_for;
use crate::http_client::HttpRequest;
use crate::http_client::HttpRequestView;
use crate::http_client::RequestMethod;
use crate::replay_log_reader::ReplayLog;
use crate::request_service::lemma_counters_add_up;
use crate::request_service::method_of;
use crate::request_service::tally;
use crate::request_service::ConfView;
use crate::request_service::RequestService;
use crate::request_service::RequestServiceConf;
use crate::result_diff::diff_record;
use crate::result_diff::DiffRecord;
use crate::result_diff::DiffRecordView;
use crate::result_diff::ResultDiff;
use crate::service_error::ServiceError;
use crate::service_error::ServiceErrorView;

verus! {

/// How the replay of one entry ended.
#[derive(Debug)]
pub enum HandleOutcome {
    /// Both calls completed and the bodies are equal.
    Same,
    /// Both calls completed and the bodies differ.
    Diff(DiffRecord),
    /// The entry could not be replayed.
    Failed(ServiceError),
}

/// Mathematical value of a [`HandleOutcome`].
pub enum OutcomeView {
    Same,
    Diff(DiffRecordView),
    Failed(ServiceErrorView),
}

impl View for HandleOutcome {
    type V = OutcomeView;

    open spec fn view(&self) -> OutcomeView {
        match self {
            HandleOutcome::Same => OutcomeView::Same,
            HandleOutcome::Diff(record) => OutcomeView::Diff(record@),
            HandleOutcome::Failed(error) => OutcomeView::Failed(error@),
        }
    }
}

/// An entry together with how its replay ended.
#[derive(Debug)]
pub struct EntryReport {
    pub log: ReplayLog,
    pub outcome: HandleOutcome,
}

/// Mathematical value of an [`EntryReport`].
pub struct ReportView {
    pub log: Seq<char>,
    pub outcome: OutcomeView,
}

impl View for EntryReport {
    type V = ReportView;

    open spec fn view(&self) -> ReportView {
        ReportView { log: self.log@, outcome: self.outcome@ }
    }
}

/// An entry with one call under way: the call to the old target while
/// `old_rsp` is empty, the call to the new target once it holds the old
/// target's body.
#[derive(Debug)]
pub struct PendingPair {
    pub log: ReplayLog,
    pub method: RequestMethod,
    pub old_rsp: Option<String>,
}

/// Mathematical value of a [`PendingPair`].
pub struct PendingView {
    pub log: Seq<char>,
    pub method: RequestMethod,
    pub old_rsp: Option<Seq<char>>,
}

impl View for PendingPair {
    type V = PendingView;

    open spec fn view(&self) -> PendingView {
        PendingView {
            log: self.log@,
            method: self.method,
            old_rsp: match self.old_rsp {
                Some(body) => Some(body@),
                None => None,
            },
        }
    }
}

/// What a worker does next.
#[derive(Debug)]
pub enum WorkerStep {
    /// Perform the request, then come back with its result and the pair.
    Call(HttpRequest, PendingPair),
    /// An entry is done: count and log it, then take the next one.
    Report(EntryReport),
    /// The queue is closed and drained: the worker ends.
    Stop,
}

/// Mathematical value of a [`WorkerStep`].
pub enum StepView {
    Call(HttpRequestView, PendingView),
    Report(ReportView),
    Stop,
}

impl View for WorkerStep {
    type V = StepView;

    open spec fn view(&self) -> StepView {
        match self {
            WorkerStep::Call(request, pending) => StepView::Call(request@, pending@),
            WorkerStep::Report(report) => StepView::Report(report@),
            WorkerStep::Stop => StepView::Stop,
        }
    }
}

/// Mathematical value of what a call brought back: a body or an error.
pub open spec fn reply_view(reply: Result<String, ServiceError>) -> Result<Seq<char>, ServiceErrorView> {
    match reply {
        Ok(body) => Ok(body@),
        Err(error) => Err(error@),
    }
}

/// Mathematical value of what the queue handed out: an entry, or nothing
/// once it is closed and drained.
pub open spec fn received_view(received: Option<ReplayLog>) -> Option<Seq<char>> {
    match received {
        Some(log) => Some(log@),
        None => None,
    }
}

/// The first step for an entry. With a method that is neither GET nor POST
/// the entry fails at once and no call is made; otherwise the old target is
/// called first.
pub open spec fn begin_entry(conf: ConfView, log: Seq<char>) -> StepView {
    match method_of(conf.request_method) {
        None => StepView::Report(
            ReportView {
                log,
                outcome: OutcomeView::Failed(ServiceErrorView::UnsupportedMethod(conf.request_method)),
            },
        ),
        Some(method) => StepView::Call(
            request_for(method, conf.old_url, log, conf.timeout_ms),
            PendingView { log, method, old_rsp: None },
        ),
    }
}

/// How two bodies of one entry are judged.
pub open spec fn compared(conf: ConfView, old_rsp: Seq<char>, new_rsp: Seq<char>) -> OutcomeView {
    match diff_record(conf, old_rsp, new_rsp) {
        Some(record) => OutcomeView::Diff(record),
        None => OutcomeView::Same,
    }
}

/// The step after a call has returned. An error ends the entry as failed,
/// with no further call. The old target's body leads to the call of the new
/// target, with the same payload, method and timeout. The new target's body
/// ends the entry with the comparison.
pub open spec fn resume_entry(conf: ConfView, pending: PendingView, reply: Result<Seq<char>, ServiceErrorView>) -> StepView {
    match reply {
        Err(error) => StepView::Report(ReportView { log: pending.log, outcome: OutcomeView::Failed(error) }),
        Ok(body) => match pending.old_rsp {
            None => StepView::Call(
                request_for(pending.method, conf.new_url, pending.log, conf.timeout_ms),
                PendingView { log: pending.log, method: pending.method, old_rsp: Some(body) },
            ),
            Some(old_rsp) => StepView::Report(
                ReportView { log: pending.log, outcome: compared(conf, old_rsp, body) },
            ),
        },
    }
}

/// The step after the queue has answered: the end of the worker where it is
/// closed and drained, the first step for the entry otherwise.
pub open spec fn on_received(conf: ConfView, received: Option<Seq<char>>) -> StepView {
    match received {
        None => StepView::Stop,
        Some(log) => begin_entry(conf, log),
    }
}

/// One worker's share of the pool: its end of the dispatch queue and the
/// configuration of the run.
pub struct Worker {
    queue: Receiver<ReplayLog>,
    service_conf: RequestServiceConf,
}

impl Worker {
    /// The configuration that the worker runs under.
    pub closed spec fn conf(&self) -> ConfView {
        self.service_conf@
    }

    /// A worker that takes its entries from `queue`.
    pub(crate) fn new(queue: Receiver<ReplayLog>, service_conf: RequestServiceConf) -> (worker: Worker)
        ensures
            worker.conf() == service_conf@,
    {
        Worker { queue, service_conf }
    }

    /// The configuration that the worker runs under.
    pub fn service_conf(&self) -> (service_conf: &RequestServiceConf)
        ensures
            service_conf@ == self.conf(),
    {
        &self.service_conf
    }

    /// The step after the queue has answered with `received`.
    pub fn on_received(&self, received: Option<ReplayLog>) -> (step: WorkerStep)
        ensures
            step@ == on_received(self.conf(), received_view(received)),
    {
        match received {
            None => WorkerStep::Stop,
            Some(log) => RequestService::handle_replay_log(&log, &self.service_conf),
        }
    }

    /// Waits for the queue and returns the step that follows from its answer.
    /// Which entry arrives is the queue's choice: the step is the one that
    /// [`Worker::on_received`] gives for it.
    pub fn receive(&self) -> (step: WorkerStep)
        ensures
            exists|received: Option<Seq<char>>| step@ == on_received(self.conf(), received),
    {
        let received = queue_recv(&self.queue);
        self.on_received(received)
    }

    /// The step after the call for `pending` has returned `reply`.
    pub fn on_reply(&self, pending: PendingPair, reply: Result<String, ServiceError>) -> (step: WorkerStep)
        ensures
            step@ == resume_entry(self.conf(), pending@, reply_view(reply)),
    {
        match reply {
            Err(error) => WorkerStep::Report(
                EntryReport { log: pending.log, outcome: HandleOutcome::Failed(error) },
            ),
            Ok(body) => match pending.old_rsp {
                None => {
                    let request = pending.method.request(
                        self.service_conf.new_url.as_str(),
                        pending.log.data.as_str(),
                        self.service_conf.timeout_ms,
                    );
                    WorkerStep::Call(
                        request,
                        PendingPair { log: pending.log, method: pending.method, old_rsp: Some(body) },
                    )
                },
                Some(old_rsp) => {
                    let outcome = match ResultDiff::record(&self.service_conf, old_rsp, body) {
                        Some(record) => HandleOutcome::Diff(record),
                        None => HandleOutcome::Same,
                    };
                    WorkerStep::Report(EntryReport { log: pending.log, outcome })
                },
            },
        }
    }
}

/// How the replay of an entry ends, given what the call to the old target
/// brings and what the call to the new target would bring.
pub open spec fn pair_outcome(
    conf: ConfView,
    old_reply: Result<Seq<char>, ServiceErrorView>,
    new_reply: Result<Seq<char>, ServiceErrorView>,
) -> OutcomeView {
    match old_reply {
        Err(error) => OutcomeView::Failed(error),
        Ok(old_rsp) => match new_reply {
            Err(error) => OutcomeView::Failed(error),
            Ok(new_rsp) => compared(conf, old_rsp, new_rsp),
        },
    }
}

/// Under GET or POST the steps for one entry are these, in this order: the
/// call to the old target; if it brings a body, the call to the new target,
/// with the same payload, method and timeout; then the report. A call that
/// fails ends the entry at once, as failed, with no call after it.
pub proof fn lemma_pair_is_called_in_order(
    conf: ConfView,
    log: Seq<char>,
    old_reply: Result<Seq<char>, ServiceErrorView>,
    new_reply: Result<Seq<char>, ServiceErrorView>,
)
    requires
        method_of(conf.request_method) is Some,
    ensures
        ({
            let method = method_of(conf.request_method).unwrap();
            let report = StepView::Report(
                ReportView { log, outcome: pair_outcome(conf, old_reply, new_reply) },
            );
            &&& begin_entry(conf, log) matches StepView::Call(old_request, first)
            &&& old_request == request_for(method, conf.old_url, log, conf.timeout_ms)
            &&& match old_reply {
                Err(_) => resume_entry(conf, first, old_reply) == report,
                Ok(_) => {
                    &&& resume_entry(conf, first, old_reply) matches StepView::Call(new_request, second)
                    &&& new_request == request_for(method, conf.new_url, log, conf.timeout_ms)
                    &&& resume_entry(conf, second, new_reply) == report
                },
            }
        }),
{
}

/// Where a worker stands between two steps.
pub enum WorkerState {
    /// It waits for the queue.
    Polling,
    /// It waits for a call to return.
    Calling(PendingView),
    /// It has ended.
    Stopped,
}

/// What comes back to a worker.
pub enum WorkerEvent {
    /// The queue has answered: with an entry, or with nothing once it is
    /// closed and drained.
    Received(Option<Seq<char>>),
    /// A call has returned: with a body, or with an error.
    Replied(Result<Seq<char>, ServiceErrorView>),
}

/// Where a step leaves the worker.
pub open spec fn state_after(step: StepView) -> WorkerState {
    match step {
        StepView::Call(_, pending) => WorkerState::Calling(pending),
        StepView::Report(_) => WorkerState::Polling,
        StepView::Stop => WorkerState::Stopped,
    }
}

/// The step that an event leads to, where the worker waits for that kind of
/// event.
pub open spec fn react(conf: ConfView, state: WorkerState, event: WorkerEvent) -> Option<StepView> {
    match (state, event) {
        (WorkerState::Polling, WorkerEvent::Received(received)) => Some(on_received(conf, received)),
        (WorkerState::Calling(pending), WorkerEvent::Replied(reply)) => Some(
            resume_entry(conf, pending, reply),
        ),
        _ => None,
    }
}

/// The reports that a step hands out: its own, if it is one.
pub open spec fn reports_of(step: StepView) -> Seq<ReportView> {
    match step {
        StepView::Report(report) => seq![report],
        _ => Seq::empty(),
    }
}

/// A worker after some events: where it stands, and what it has reported.
pub struct WorkerRun {
    pub state: WorkerState,
    pub reports: Seq<ReportView>,
}

/// The run of a worker that starts in `state` and meets `events` in turn, if
/// each event is of the kind that the worker then waits for.
pub open spec fn run(conf: ConfView, state: WorkerState, events: Seq<WorkerEvent>) -> Option<WorkerRun>
    decreases events.len(),
{
    if events.len() == 0 {
        Some(WorkerRun { state, reports: Seq::empty() })
    } else {
        match react(conf, state, events.first()) {
            None => None,
            Some(step) => match run(conf, state_after(step), events.drop_first()) {
                None => None,
                Some(rest) => Some(
                    WorkerRun { state: rest.state, reports: reports_of(step) + rest.reports },
                ),
            },
        }
    }
}

/// The entries that the queue handed out in `events`, in their order.
pub open spec fn entries_taken(events: Seq<WorkerEvent>) -> Seq<Seq<char>>
    decreases events.len(),
{
    if events.len() == 0 {
        Seq::empty()
    } else {
        let taken = match events.first() {
            WorkerEvent::Received(Some(log)) => seq![log],
            _ => Seq::empty(),
        };
        taken + entries_taken(events.drop_first())
    }
}

/// The entries that `reports` speak of, in their order.
pub open spec fn entries_reported(reports: Seq<ReportView>) -> Seq<Seq<char>> {
    Seq::new(reports.len(), |i: int| reports[i].log)
}

/// The entry that a worker is busy with, if any.
pub open spec fn in_flight(state: WorkerState) -> Seq<Seq<char>> {
    match state {
        WorkerState::Calling(pending) => seq![pending.log],
        _ => Seq::empty(),
    }
}

/// Over any run, the entry in flight at the start and the entries taken are
/// the entries reported and the entry in flight at the end.
proof fn lemma_entries_balance(conf: ConfView, state: WorkerState, events: Seq<WorkerEvent>)
    requires
        run(conf, state, events) is Some,
    ensures
        in_flight(state) + entries_taken(events) == entries_reported(
            run(conf, state, events).unwrap().reports,
        ) + in_flight(run(conf, state, events).unwrap().state),
    decreases events.len(),
{
    let ran = run(conf, state, events).unwrap();
    if events.len() > 0 {
        let step = react(conf, state, events.first()).unwrap();
        let rest = run(conf, state_after(step), events.drop_first()).unwrap();
        let taken_first = match events.first() {
            WorkerEvent::Received(Some(log)) => seq![log],
            _ => Seq::<Seq<char>>::empty(),
        };
        let taken_rest = entries_taken(events.drop_first());
        let reported_first = entries_reported(reports_of(step));
        let reported_rest = entries_reported(rest.reports);
        // The first step keeps the balance, and so does the rest of the run.
        assert(in_flight(state) + taken_first =~= reported_first + in_flight(state_after(step)));
        lemma_entries_balance(conf, state_after(step), events.drop_first());
        assert(entries_reported(ran.reports) =~= reported_first + reported_rest);
        assert(in_flight(state) + (taken_first + taken_rest) =~= reported_first + (in_flight(
            state_after(step),
        ) + taken_rest));
    }
    assert(in_flight(state) + entries_taken(events) =~= entries_reported(ran.reports) + in_flight(
        ran.state,
    ));
}

/// A worker reports each entry that it takes from the queue exactly once,
/// and in the order taken: over a run that starts at the queue and does not
/// end in the middle of an entry, the entries reported are the entries taken.
/// No entry is lost, and none is replayed twice.
pub proof fn lemma_every_entry_reported_once(conf: ConfView, events: Seq<WorkerEvent>)
    requires
        run(conf, WorkerState::Polling, events) is Some,
        !(run(conf, WorkerState::Polling, events).unwrap().state is Calling),
    ensures
        entries_reported(run(conf, WorkerState::Polling, events).unwrap().reports) == entries_taken(
            events,
        ),
        run(conf, WorkerState::Polling, events).unwrap().reports.len() == entries_taken(events).len(),
{
    lemma_entries_balance(conf, WorkerState::Polling, events);
    let ran = run(conf, WorkerState::Polling, events).unwrap();
    assert(in_flight(WorkerState::Polling) + entries_taken(events) =~= entries_taken(events));
    assert(entries_reported(ran.reports) + in_flight(ran.state) =~= entries_reported(ran.reports));
}

/// Whether each of `reports` tells of an entry that failed for the method
/// text `method`.
pub open spec fn all_unsupported(reports: Seq<ReportView>, method: Seq<char>) -> bool {
    forall|i: int|
        0 <= i < reports.len() ==> (#[trigger] reports[i]).outcome == OutcomeView::Failed(
            ServiceErrorView::UnsupportedMethod(method),
        )
}

/// Under a method that is neither GET nor POST a worker never asks for a
/// call, and each entry that it takes fails for the unsupported method.
pub proof fn lemma_unsupported_method_makes_no_call(conf: ConfView, events: Seq<WorkerEvent>)
    requires
        method_of(conf.request_method) is None,
        run(conf, WorkerState::Polling, events) is Some,
    ensures
        !(run(conf, WorkerState::Polling, events).unwrap().state is Calling),
        all_unsupported(run(conf, WorkerState::Polling, events).unwrap().reports, conf.request_method),
    decreases events.len(),
{
    if events.len() > 0 {
        let step = react(conf, WorkerState::Polling, events.first()).unwrap();
        if step is Stop {
            lemma_stopped_stays(conf, events.drop_first());
        } else {
            lemma_unsupported_method_makes_no_call(conf, events.drop_first());
        }
    }
}

/// A worker that has ended accepts no event.
proof fn lemma_stopped_stays(conf: ConfView, events: Seq<WorkerEvent>)
    requires
        run(conf, WorkerState::Stopped, events) is Some,
    ensures
        events.len() == 0,
{
}

/// How the entries of `reports` ended, in their order.
pub open spec fn outcomes_reported(reports: Seq<ReportView>) -> Seq<OutcomeView> {
    Seq::new(reports.len(), |i: int| reports[i].outcome)
}

/// Once a worker that counts each of its reports has run to a point where no
/// entry is in flight, its two counters together show the number of entries
/// that it took from the queue.
pub proof fn lemma_counters_show_entries_taken(conf: ConfView, events: Seq<WorkerEvent>)
    requires
        run(conf, WorkerState::Polling, events) is Some,
        !(run(conf, WorkerState::Polling, events).unwrap().state is Calling),
        entries_taken(events).len() <= usize::MAX,
    ensures
        ({
            let reports = run(conf, WorkerState::Polling, events).unwrap().reports;
            let counters = tally(0, 0, outcomes_reported(reports));
            counters.0 + counters.1 == entries_taken(events).len()
        }),
{
    lemma_every_entry_reported_once(conf, events);
    lemma_counters_add_up(outcomes_reported(run(conf, WorkerState::Polling, events).unwrap().reports));
}

/// Whether each worker of a pool, given by the events that it met, has run
/// from the queue to a point where no entry is in flight.
pub open spec fn pool_at_rest(conf: ConfView, pool: Seq<Seq<WorkerEvent>>) -> bool {
    forall|i: int|
        0 <= i < pool.len() ==> {
            &&& (#[trigger] run(conf, WorkerState::Polling, pool[i])) is Some
            &&& !(run(conf, WorkerState::Polling, pool[i]).unwrap().state is Calling)
        }
}

/// The number of entries that the workers of a pool took from the queue.
pub open spec fn pool_entries_taken(pool: Seq<Seq<WorkerEvent>>) -> nat
    decreases pool.len(),
{
    if pool.len() == 0 {
        0
    } else {
        pool_entries_taken(pool.drop_last()) + entries_taken(pool.last()).len()
    }
}

/// The number of reports that the workers of a pool handed out.
pub open spec fn pool_reports(conf: ConfView, pool: Seq<Seq<WorkerEvent>>) -> nat
    decreases pool.len(),
{
    if pool.len() == 0 {
        0
    } else {
        pool_reports(conf, pool.drop_last()) + match run(conf, WorkerState::Polling, pool.last()) {
            Some(ran) => ran.reports.len(),
            None => 0,
        }
    }
}

/// A pool at rest has handed out one report for each entry taken.
proof fn lemma_pool_reports_entries(conf: ConfView, pool: Seq<Seq<WorkerEvent>>)
    requires
        pool_at_rest(conf, pool),
    ensures
        pool_reports(conf, pool) == pool_entries_taken(pool),
    decreases pool.len(),
{
    if pool.len() > 0 {
        assert(run(conf, WorkerState::Polling, pool[pool.len() - 1]) is Some);
        assert forall|i: int| 0 <= i < pool.drop_last().len() implies {
            &&& (#[trigger] run(conf, WorkerState::Polling, pool.drop_last()[i])) is Some
            &&& !(run(conf, WorkerState::Polling, pool.drop_last()[i]).unwrap().state is Calling)
        } by {
            assert(pool.drop_last()[i] == pool[i]);
        }
        lemma_pool_reports_entries(conf, pool.drop_last());
        lemma_every_entry_reported_once(conf, pool.last());
    }
}

/// With every worker of a pool at rest, and every report counted once into
/// counters that started at zero, in whatever order the workers came to
/// count, the replayed and the failed entries together are as many as the
/// entries that the pool took from the queue.
pub proof fn lemma_pool_counts_every_entry(
    conf: ConfView,
    pool: Seq<Seq<WorkerEvent>>,
    counted_outcomes: Seq<OutcomeView>,
)
    requires
        pool_at_rest(conf, pool),
        counted_outcomes.len() == pool_reports(conf, pool),
        counted_outcomes.len() <= usize::MAX,
    ensures
        tally(0, 0, counted_outcomes).0 + tally(0, 0, counted_outcomes).1 == pool_entries_taken(pool),
{
    lemma_pool_reports_entries(conf, pool);
    lemma_counters_add_up(counted_outcomes);
}

} // verus!
