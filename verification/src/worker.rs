//! The coordination layer: what each task decides at every scheduling point,
//! and how the supervisor turns task outcomes into a process result.
//!
//! Three tasks run concurrently: the producer (poll a timer, fetch an IP,
//! publish it), the consumer (receive an IP, look up the record, update on
//! divergence) and a shutdown listener. The scheduling itself — timers,
//! selects, task spawning — is the surrounding process's work; each task's
//! decisions are functions here, from the observed event to the next action,
//! so that the shutdown and failure-propagation policy is proved rather than
//! promised.
use crate::Message;
use crate::cf::DnsError;
use crate::cf::DnsRecord;
use crate::cf::update_needed;
use crate::channel::RecvOutcome;
use vstd::prelude::*;

verus! {

/// What the producer task observes at a scheduling point: its interval timer
/// fired, or the shutdown signal was seen first.
#[derive(Clone, Copy, Debug, PartialEq, Eq, Structural)]
pub enum PollerEvent {
    Tick,
    ShutdownObserved,
}

/// What the producer does next.
#[derive(Clone, Copy, Debug, PartialEq, Eq, Structural)]
pub enum PollerAction {
    /// Begin a fetch cycle over the IP providers.
    Fetch,
    /// Exit cleanly, without a final fetch.
    Terminate,
}

/// The producer's decision: fetch on a tick, terminate on shutdown.
pub open spec fn poller_spec(ev: PollerEvent) -> PollerAction {
    match ev {
        PollerEvent::Tick => PollerAction::Fetch,
        PollerEvent::ShutdownObserved => PollerAction::Terminate,
    }
}

/// One scheduling point of the producer task. A new fetch cycle begins only
/// on a timer tick; the shutdown signal, once observed, terminates the task
/// before any further fetch.
pub fn poller_step(ev: PollerEvent) -> (r: PollerAction)
    ensures
        r == poller_spec(ev),
{
    match ev {
        PollerEvent::Tick => PollerAction::Fetch,
        PollerEvent::ShutdownObserved => PollerAction::Terminate,
    }
}

/// What the producer publishes after a fetch cycle: the discovered IP as a
/// message, or nothing when every provider failed — the failure is local to
/// this cycle and the next tick retries.
pub fn poller_publish(outcome: Result<String, crate::ip::FetchError>) -> (r: Option<Message>)
    ensures
        outcome matches Ok(ip) ==> (r matches Some(m) && m@ == ip@),
        outcome is Err ==> r is None,
{
    match outcome {
        Ok(ip) => Some(Message::new(ip)),
        Err(_) => None,
    }
}

/// The consumer's decision at a scheduling point, in mathematical form.
pub ghost enum UpdaterVerdict {
    /// Look up the DNS record and compare it with this candidate IP.
    Lookup(Seq<char>),
    /// Nothing to act on; wait for the next event.
    KeepWaiting,
    /// The producer side is gone for good: fatal, propagate to the
    /// supervisor.
    FailChannelClosed,
    /// Shutdown observed: exit cleanly.
    Terminate,
}

/// What the consumer decides on one event: shutdown first, then the channel
/// outcome. A received message starts a lookup; a reported loss is logged
/// and skipped (non-fatal); a closed channel is fatal; an empty channel
/// waits.
pub open spec fn updater_spec(shutdown_fired: bool, recv: RecvOutcome) -> UpdaterVerdict {
    if shutdown_fired {
        UpdaterVerdict::Terminate
    } else {
        match recv {
            RecvOutcome::Msg(m) => UpdaterVerdict::Lookup(m@),
            RecvOutcome::Lagged(n) => UpdaterVerdict::KeepWaiting,
            RecvOutcome::Empty => UpdaterVerdict::KeepWaiting,
            RecvOutcome::Closed => UpdaterVerdict::FailChannelClosed,
        }
    }
}

/// What the consumer does next.
#[derive(Clone, Debug)]
pub enum UpdaterAction {
    /// Look up the DNS record and compare it with this candidate IP.
    Lookup(String),
    /// Nothing to act on; wait for the next event.
    KeepWaiting,
    /// The producer side is gone for good: fatal, propagate to the
    /// supervisor.
    FailChannelClosed,
    /// Shutdown observed: exit cleanly.
    Terminate,
}

/// One scheduling point of the consumer task, deciding as [`updater_spec`]
/// says. Once shutdown is observed no lookup or update cycle begins.
pub fn updater_step(shutdown_fired: bool, recv: RecvOutcome) -> (r: UpdaterAction)
    ensures
        match updater_spec(shutdown_fired, recv) {
            UpdaterVerdict::Lookup(ip) => (r matches UpdaterAction::Lookup(s) && s@ == ip),
            UpdaterVerdict::KeepWaiting => (r matches UpdaterAction::KeepWaiting),
            UpdaterVerdict::FailChannelClosed => (r matches UpdaterAction::FailChannelClosed),
            UpdaterVerdict::Terminate => (r matches UpdaterAction::Terminate),
        },
{
    if shutdown_fired {
        UpdaterAction::Terminate
    } else {
        match recv {
            RecvOutcome::Msg(m) => UpdaterAction::Lookup(m.into_ip()),
            RecvOutcome::Lagged(_) => UpdaterAction::KeepWaiting,
            RecvOutcome::Empty => UpdaterAction::KeepWaiting,
            RecvOutcome::Closed => UpdaterAction::FailChannelClosed,
        }
    }
}

/// How the consumer acts on a finished record lookup.
#[derive(Clone, Debug)]
pub enum LookupVerdict {
    /// The record diverges from the candidate: issue one update call for
    /// this record.
    Update(DnsRecord),
    /// The record already holds the candidate IP: skip, no call.
    Skip,
    /// The lookup failed; log it and return to waiting — a single failure
    /// never terminates the task, the next published IP retries naturally.
    Retry,
}

/// Decides one update cycle from a lookup outcome: an update call is issued
/// iff the lookup succeeded and the record's content differs from the
/// candidate IP; a failed lookup is absorbed and retried on a later cycle.
pub fn updater_on_lookup(lookup: Result<DnsRecord, DnsError>, candidate: &String) -> (r:
    LookupVerdict)
    ensures
        (lookup matches Ok(rec) && update_needed(rec.content@, candidate@)) ==> (r matches
            LookupVerdict::Update(rec2) && rec2 == lookup->Ok_0),
        (lookup matches Ok(rec) && !update_needed(rec.content@, candidate@)) ==> (r matches
            LookupVerdict::Skip),
        (lookup matches Err(e)) ==> (r matches LookupVerdict::Retry),
{
    match lookup {
        Ok(rec) => {
            if crate::cf::should_update(&rec, candidate) {
                LookupVerdict::Update(rec)
            } else {
                LookupVerdict::Skip
            }
        },
        Err(_) => LookupVerdict::Retry,
    }
}

/// A finished task, as the supervisor sees it: clean, or failed with an
/// error report.
#[derive(Clone, Debug)]
pub enum TaskOutcome {
    Completed,
    Failed(String),
}

/// What the supervisor does after joining both tasks.
#[derive(Clone, Debug)]
pub struct Supervision {
    /// Fire the shutdown broadcast (best effort; a send failure there is not
    /// itself an error).
    pub fire_shutdown: bool,
    /// The process result: the first failure, or none when both tasks ended
    /// cleanly.
    pub failure: Option<String>,
}

/// Joins the two task outcomes, `first` being the one that was observed
/// first. The first failure wins: it fires the shutdown broadcast and
/// becomes the process result; with two clean exits (reachable only via
/// shutdown) nothing is fired and the process result is success.
pub fn supervise(first: TaskOutcome, second: TaskOutcome) -> (r: Supervision)
    ensures
        first matches TaskOutcome::Failed(e) ==> r.fire_shutdown && (r.failure matches Some(f)
            && f@ == e@),
        first is Completed ==> (second matches TaskOutcome::Failed(e) ==> r.fire_shutdown && (
        r.failure matches Some(f) && f@ == e@)),
        first is Completed && second is Completed ==> !r.fire_shutdown && r.failure is None,
{
    match first {
        TaskOutcome::Failed(e) => Supervision { fire_shutdown: true, failure: Some(e) },
        TaskOutcome::Completed => match second {
            TaskOutcome::Failed(e) => Supervision { fire_shutdown: true, failure: Some(e) },
            TaskOutcome::Completed => Supervision { fire_shutdown: false, failure: None },
        },
    }
}

/// The process exit status a supervision stands for: zero exactly on a clean
/// shutdown, non-zero when a task failure ended the run.
pub fn exit_code(r: &Supervision) -> (code: i32)
    ensures
        (code == 0) <==> r.failure is None,
{
    if r.failure.is_some() {
        1
    } else {
        0
    }
}

/// Shutdown law: once the shutdown signal is observed, no new cycle begins
/// in either task. The producer's next step is termination, never a fetch;
/// the consumer's next step is termination, never a lookup — whatever the
/// channel still holds.
pub proof fn lemma_shutdown_quiesces(recv: RecvOutcome)
    ensures
        poller_spec(PollerEvent::ShutdownObserved) is Terminate,
        updater_spec(true, recv) is Terminate,
{
}

} // verus!
