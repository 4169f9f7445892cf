//! Configuration of a replay run, its counters, and the service that feeds
//! the workers.

use crossbeam::channel::{Receiver, Sender};
use std::time::SystemTime;
use vstd::prelude::*;
use vstd::string::*;

use crate::dispatch_queue::bounded_queue;
use crate::dispatch_queue::queue_capacity;
use crate::dispatch_queue::queue_send;
use crate::dispatch_queue::queue_share;
use crate::dispatch_queue::queue_size_limit;
use crate::http_client::RequestMethod;
use crate::replay_log_reader::entries_of;
use crate::replay_log_reader::line_texts;
use crate::replay_log_reader::ReplayLog;
use crate::service_error::ServiceError;
use crate::service_error::ServiceErrorView;
use crate::worker::begin_entry;
use crate::worker::EntryReport;
use crate::worker::HandleOutcome;
use crate::worker::OutcomeView;
use crate::worker::PendingPair;
use crate::worker::ReportView;
use crate::worker::StepView;
use crate::worker::Worker;
use crate::worker::WorkerStep;

verus! {

/// Request method text that selects a GET with the payload as query string.
pub const GET_METHOD: &'static str = "GET";

/// Request method text that selects a POST with the payload as JSON body.
pub const POST_METHOD: &'static str = "POST";

/// Settings of one replay run; never changed once the run has started.
pub struct RequestServiceConf {
    pub old_url: String,
    pub new_url: String,
    pub concurrent_num: i32,
    pub timeout_ms: u64,
    pub queue_size: usize,
    pub request_method: String,
}

/// Mathematical value of a [`RequestServiceConf`].
pub struct ConfView {
    pub old_url: Seq<char>,
    pub new_url: Seq<char>,
    pub concurrent_num: int,
    pub timeout_ms: u64,
    pub queue_size: nat,
    pub request_method: Seq<char>,
}

impl View for RequestServiceConf {
    type V = ConfView;

    open spec fn view(&self) -> ConfView {
        ConfView {
            old_url: self.old_url@,
            new_url: self.new_url@,
            concurrent_num: self.concurrent_num as int,
            timeout_ms: self.timeout_ms,
            queue_size: self.queue_size as nat,
            request_method: self.request_method@,
        }
    }
}

/// The method that a configured method text selects, if any: the text has to
/// be one of the two method names, letter for letter.
pub open spec fn method_of(text: Seq<char>) -> Option<RequestMethod> {
    if text == GET_METHOD@ {
        Some(RequestMethod::Get)
    } else if text == POST_METHOD@ {
        Some(RequestMethod::PostJson)
    } else {
        None
    }
}

/// The number of workers that a configured count asks for: the count itself,
/// none where it is negative.
pub open spec fn worker_count_of(concurrent_num: int) -> nat {
    if concurrent_num > 0 {
        concurrent_num as nat
    } else {
        0
    }
}

impl Clone for RequestServiceConf {
    fn clone(&self) -> (copy: RequestServiceConf)
        ensures
            copy@ == self@,
    {
        RequestServiceConf {
            old_url: self.old_url.clone(),
            new_url: self.new_url.clone(),
            concurrent_num: self.concurrent_num,
            timeout_ms: self.timeout_ms,
            queue_size: self.queue_size,
            request_method: self.request_method.clone(),
        }
    }
}

impl RequestServiceConf {
    /// The settings a run starts from: no targets yet, two workers, a 500 ms
    /// timeout per call, room for 200 queued entries, GET requests.
    pub fn new() -> (conf: RequestServiceConf)
        ensures
            conf@ == (ConfView {
                old_url: Seq::empty(),
                new_url: Seq::empty(),
                concurrent_num: 2,
                timeout_ms: 500,
                queue_size: 200,
                request_method: GET_METHOD@,
            }),
    {
        RequestServiceConf {
            old_url: String::new(),
            new_url: String::new(),
            concurrent_num: 2,
            timeout_ms: 500,
            queue_size: 200,
            request_method: String::from_str(GET_METHOD),
        }
    }

    /// The request method that the configuration selects, if its method text
    /// names one.
    pub fn method(&self) -> (method: Option<RequestMethod>)
        ensures
            method == method_of(self@.request_method),
    {
        if self.request_method == String::from_str(GET_METHOD) {
            Some(RequestMethod::Get)
        } else if self.request_method == String::from_str(POST_METHOD) {
            Some(RequestMethod::PostJson)
        } else {
            None
        }
    }

    /// The number of workers that the configuration asks for.
    pub fn worker_count(&self) -> (count: usize)
        ensures
            count == worker_count_of(self@.concurrent_num),
    {
        if self.concurrent_num > 0 {
            self.concurrent_num as usize
        } else {
            0
        }
    }
}

/// `std::time::SystemTime`, a point on the system clock, as a value that
/// Verus carries through without looking inside.
#[verifier::external_type_specification]
#[verifier::external_body]
pub struct ExSystemTime(std::time::SystemTime);

/// `SystemTime::now`: the time on the system clock. Nothing is claimed of it.
pub assume_specification[ SystemTime::now ]() -> SystemTime;

/// A counter after one more event. It starts again at zero once the machine's
/// largest number has been reached.
pub open spec fn bump(count: usize) -> usize {
    if count == usize::MAX {
        0
    } else {
        (count + 1) as usize
    }
}

/// The counters of a run and the time at which it started.
///
/// The counters only ever go up, one event at a time. Whoever shares them
/// among workers has to guard them, so that every count goes through
/// `&mut self`.
pub struct StatInfo {
    succ_cnt: usize,
    fail_cnt: usize,
    start_ts: SystemTime,
    end_ts: SystemTime,
}

impl StatInfo {
    /// Entries counted as replayed: both calls completed.
    pub closed spec fn succ(&self) -> usize {
        self.succ_cnt
    }

    /// Entries counted as failed.
    pub closed spec fn fail(&self) -> usize {
        self.fail_cnt
    }

    /// Everything about the run but its counters.
    pub closed spec fn times(&self) -> (SystemTime, SystemTime) {
        (self.start_ts, self.end_ts)
    }

    /// Counters at zero, started now.
    pub fn new() -> (stat: StatInfo)
        ensures
            stat.succ() == 0,
            stat.fail() == 0,
    {
        StatInfo { succ_cnt: 0, fail_cnt: 0, start_ts: SystemTime::now(), end_ts: SystemTime::now() }
    }

    /// Entries counted as replayed so far.
    pub fn succ_cnt(&self) -> (count: usize)
        ensures
            count == self.succ(),
    {
        self.succ_cnt
    }

    /// Entries counted as failed so far.
    pub fn fail_cnt(&self) -> (count: usize)
        ensures
            count == self.fail(),
    {
        self.fail_cnt
    }

    /// The time at which the run started.
    pub fn start_ts(&self) -> (start: SystemTime)
        ensures
            start == self.times().0,
    {
        self.start_ts
    }

    /// The time that was taken when the counters were set up. No step of a
    /// run moves it.
    pub fn end_ts(&self) -> (end: SystemTime)
        ensures
            end == self.times().1,
    {
        self.end_ts
    }

    /// Counts one replayed entry.
    pub fn incr_succ(&mut self)
        ensures
            final(self).succ() == bump(old(self).succ()),
            final(self).fail() == old(self).fail(),
            final(self).times() == old(self).times(),
    {
        self.succ_cnt = self.succ_cnt.wrapping_add(1);
    }

    /// Counts one failed entry.
    pub fn incr_fail(&mut self)
        ensures
            final(self).fail() == bump(old(self).fail()),
            final(self).succ() == old(self).succ(),
            final(self).times() == old(self).times(),
    {
        self.fail_cnt = self.fail_cnt.wrapping_add(1);
    }

    /// Counts the entry that ended with `outcome`: as failed where it could
    /// not be replayed, as replayed otherwise, whether or not the bodies
    /// differ.
    pub fn record(&mut self, outcome: &HandleOutcome)
        ensures
            final(self).succ() == counted(old(self).succ(), old(self).fail(), outcome@).0,
            final(self).fail() == counted(old(self).succ(), old(self).fail(), outcome@).1,
            final(self).times() == old(self).times(),
    {
        match outcome {
            HandleOutcome::Failed(_) => self.incr_fail(),
            _ => self.incr_succ(),
        }
    }
}

/// The counters `(succ, fail)` after an entry that ended with `outcome`.
pub open spec fn counted(succ: usize, fail: usize, outcome: OutcomeView) -> (usize, usize) {
    if outcome is Failed {
        (succ, bump(fail))
    } else {
        (bump(succ), fail)
    }
}

/// The counters `(succ, fail)` after the entries that ended with `outcomes`
/// have been counted in turn.
pub open spec fn tally(succ: usize, fail: usize, outcomes: Seq<OutcomeView>) -> (usize, usize)
    decreases outcomes.len(),
{
    if outcomes.len() == 0 {
        (succ, fail)
    } else {
        let next = counted(succ, fail, outcomes.first());
        tally(next.0, next.1, outcomes.drop_first())
    }
}

/// Counting adds one to one counter for each entry: as long as the total
/// fits the machine's numbers, the two counters grow by the number of entries
/// counted, and neither goes down.
pub proof fn lemma_tally_grows(succ: usize, fail: usize, outcomes: Seq<OutcomeView>)
    requires
        succ + fail + outcomes.len() <= usize::MAX,
    ensures
        tally(succ, fail, outcomes).0 + tally(succ, fail, outcomes).1 == succ + fail + outcomes.len(),
        tally(succ, fail, outcomes).0 >= succ,
        tally(succ, fail, outcomes).1 >= fail,
    decreases outcomes.len(),
{
    if outcomes.len() > 0 {
        let next = counted(succ, fail, outcomes.first());
        lemma_tally_grows(next.0, next.1, outcomes.drop_first());
    }
}

/// From counters at zero, after any `outcomes.len()` entries have been
/// counted, the replayed and the failed entries together are as many as were
/// counted.
pub proof fn lemma_counters_add_up(outcomes: Seq<OutcomeView>)
    requires
        outcomes.len() <= usize::MAX,
    ensures
        tally(0, 0, outcomes).0 + tally(0, 0, outcomes).1 == outcomes.len(),
{
    lemma_tally_grows(0, 0, outcomes);
}

/// The error that keeps a configuration from starting a run, if any: a run
/// needs both targets, and the new target is looked at first.
pub open spec fn conf_error(conf: ConfView) -> Option<ServiceErrorView> {
    if conf.new_url.len() == 0 {
        Some(ServiceErrorView::EmptyNewUrl)
    } else if conf.old_url.len() == 0 {
        Some(ServiceErrorView::EmptyOldUrl)
    } else {
        None
    }
}

/// Number of lines that the feeder reads from the log at a time.
pub const BATCH_LINES: usize = 5;

/// What the feeder does after a batch.
#[derive(Clone, Copy, Debug, PartialEq, Eq, Structural)]
pub enum FeedStep {
    /// Read the next batch and feed it.
    ReadMore,
    /// The log is at its end: release the queue and wait for the workers.
    Finished,
}

/// The feeder's side of a run: the configuration and the dispatch queue.
///
/// While the service lives the queue stays open. Dropping it closes the
/// queue, and each worker ends once it has taken what was left in it.
pub struct RequestService {
    service_conf: RequestServiceConf,
    log_sender: Sender<ReplayLog>,
    log_receiver: Receiver<ReplayLog>,
}

impl RequestService {
    /// The configuration of the run.
    pub closed spec fn conf(&self) -> ConfView {
        self.service_conf@
    }

    /// The number of entries that the dispatch queue holds before the feeder
    /// has to wait.
    pub closed spec fn capacity(&self) -> nat {
        queue_capacity(self.log_sender)
    }

    /// Whether a dispatch queue can be made to hold `queue_size` entries.
    pub fn queue_size_allowed(queue_size: usize) -> (allowed: bool)
        ensures
            allowed == (queue_size <= queue_size_limit()),
    {
        queue_size <= (isize::MAX as usize) / 64
    }

    /// Sets up the run for a configuration, or says why it cannot start. No
    /// queue is made, and so no worker can start, for a configuration that
    /// lacks a target. A configuration with both targets has to ask for a
    /// queue size that [`RequestService::queue_size_allowed`] accepts.
    pub fn new(service_conf: RequestServiceConf) -> (service: Result<RequestService, ServiceError>)
        requires
            conf_error(service_conf@) is None ==> service_conf@.queue_size <= queue_size_limit(),
        ensures
            match service {
                Ok(service) => {
                    &&& conf_error(service_conf@) is None
                    &&& service.conf() == service_conf@
                    &&& service.capacity() == service_conf@.queue_size
                },
                Err(error) => conf_error(service_conf@) == Some(error@),
            },
    {
        if service_conf.new_url.as_str().is_empty() {
            return Err(ServiceError::EmptyNewUrl);
        }
        if service_conf.old_url.as_str().is_empty() {
            return Err(ServiceError::EmptyOldUrl);
        }
        let (log_sender, log_receiver) = bounded_queue(service_conf.queue_size);
        Ok(RequestService { service_conf, log_sender, log_receiver })
    }

    /// The configuration of the run.
    pub fn service_conf(&self) -> (service_conf: &RequestServiceConf)
        ensures
            service_conf@ == self.conf(),
    {
        &self.service_conf
    }

    /// The workers of the pool: as many as the configuration asks for, each
    /// with its own end of the queue and the run's configuration.
    pub fn workers(&self) -> (pool: Vec<Worker>)
        ensures
            pool@.len() == worker_count_of(self.conf().concurrent_num),
            forall|i: int| 0 <= i < pool@.len() ==> (#[trigger] pool@[i]).conf() == self.conf(),
    {
        let count = self.service_conf.worker_count();
        let mut pool: Vec<Worker> = Vec::new();
        let mut made: usize = 0;
        while made < count
            invariant
                made <= count,
                pool@.len() == made,
                forall|i: int| 0 <= i < pool@.len() ==> (#[trigger] pool@[i]).conf() == self.conf(),
            decreases count - made,
        {
            pool.push(Worker::new(queue_share(&self.log_receiver), self.service_conf.clone()));
            made = made + 1;
        }
        pool
    }

    /// The first step of the replay of `log`: the call to the old target, or,
    /// with a method that is neither GET nor POST, the report of the failed
    /// entry, so that no call is made for it.
    pub fn handle_replay_log(log: &ReplayLog, service_conf: &RequestServiceConf) -> (step: WorkerStep)
        ensures
            step@ == begin_entry(service_conf@, log@),
            method_of(service_conf@.request_method) is None ==> step@ == StepView::Report(
                ReportView {
                    log: log@,
                    outcome: OutcomeView::Failed(
                        ServiceErrorView::UnsupportedMethod(service_conf@.request_method),
                    ),
                },
            ),
    {
        let entry = ReplayLog { data: log.data.clone() };
        match service_conf.method() {
            None => WorkerStep::Report(
                EntryReport {
                    log: entry,
                    outcome: HandleOutcome::Failed(
                        ServiceError::UnsupportedMethod(service_conf.request_method.clone()),
                    ),
                },
            ),
            Some(method) => {
                let request = method.request(
                    service_conf.old_url.as_str(),
                    log.data.as_str(),
                    service_conf.timeout_ms,
                );
                WorkerStep::Call(request, PendingPair { log: entry, method, old_rsp: None })
            },
        }
    }

    /// Feeds one batch of lines of the log to the workers and says whether
    /// the feeder goes on. A batch of no lines marks the end of the log. Of
    /// any other batch each line that holds an entry is handed to the queue,
    /// in order.
    pub fn feed_lines(&self, lines: &Vec<String>) -> (fed: Result<FeedStep, ServiceError>)
        ensures
            lines@.len() == 0 ==> fed matches Ok(FeedStep::Finished),
            lines@.len() > 0 ==> !(fed matches Ok(FeedStep::Finished)),
            lines@.len() > 0 && entries_of(line_texts(lines@)).len() == 0 ==> fed is Ok,
            fed matches Err(error) ==> error@ == ServiceErrorView::ChannelClosed,
    {
        if lines.len() == 0 {
            return Ok(FeedStep::Finished);
        }
        match self.send_to_channel(ReplayLog::from_lines(lines)) {
            Ok(()) => Ok(FeedStep::ReadMore),
            Err(error) => Err(error),
        }
    }

    /// Hands the entries to the queue, one at a time and in their order,
    /// waiting wherever the queue is full. It fails only when the queue has
    /// lost its workers; the entries that were not yet handed over are then
    /// dropped.
    pub fn send_to_channel(&self, logs: Vec<ReplayLog>) -> (sent: Result<(), ServiceError>)
        ensures
            logs@.len() == 0 ==> sent is Ok,
            sent matches Err(error) ==> error@ == ServiceErrorView::ChannelClosed,
    {
        for log in entries: logs {
            if queue_send(&self.log_sender, log).is_err() {
                return Err(ServiceError::ChannelClosed);
            }
        }
        Ok(())
    }
}

} // verus!
